use borsh::{BorshDeserialize, BorshSerialize};
use ledger_harness::address::Address;
use ledger_harness::codec::encode_tagged;
use ledger_harness::fetch::{
    deserialized, get_account, get_account_with_anchor, get_account_with_borsh, get_token_account,
    get_token_mint, ClientError,
};
use ledger_harness::ledger::{AccountRecord, SeedLedger};
use ledger_harness::token::{TokenAccount, TokenMint};

#[derive(Debug, PartialEq)]
struct Profile {
    id: u64,
    name: String,
}

impl BorshSerialize for Profile {
    fn serialize<W: std::io::Write>(&self, writer: &mut W) -> std::io::Result<()> {
        self.id.serialize(writer)?;
        self.name.serialize(writer)
    }
}

impl BorshDeserialize for Profile {
    fn deserialize_reader<R: std::io::Read>(reader: &mut R) -> std::io::Result<Self> {
        Ok(Profile {
            id: u64::deserialize_reader(reader)?,
            name: String::deserialize_reader(reader)?,
        })
    }
}

fn addr(byte: u8) -> Address {
    Address::new([byte; 32])
}

fn record(data: Vec<u8>) -> AccountRecord {
    AccountRecord { owner: addr(9), lamports: 1, data, executable: false, rent_epoch: 0 }
}

#[test]
fn get_account_hands_the_record_out() {
    let fetched: Result<Option<AccountRecord>, String> = Ok(Some(record(vec![1, 2])));
    assert_eq!(get_account(fetched), Ok(record(vec![1, 2])));
}

#[test]
fn absent_account_is_account_not_found() {
    let fetched: Result<Option<AccountRecord>, String> = Ok(None);
    assert_eq!(get_account(fetched.clone()), Err(ClientError::AccountNotFound));
    assert_eq!(get_account_with_borsh(fetched.clone()), Err(ClientError::AccountNotFound));
    assert_eq!(get_account_with_anchor(fetched.clone(), &[0; 8]), Err(ClientError::AccountNotFound));
    assert_eq!(get_token_account(fetched.clone()), Err(ClientError::AccountNotFound));
    assert_eq!(get_token_mint(fetched), Err(ClientError::AccountNotFound));
}

#[test]
fn runtime_error_is_passed_on() {
    let fetched: Result<Option<AccountRecord>, String> = Err(String::from("unreachable"));
    let passed = Err(ClientError::Transport(String::from("unreachable")));
    assert_eq!(get_account(fetched.clone()), passed);
    assert_eq!(get_account_with_borsh(fetched.clone()), Err(ClientError::Transport(String::from("unreachable"))));
    assert_eq!(
        get_account_with_anchor(fetched.clone(), &[0; 8]),
        Err(ClientError::Transport(String::from("unreachable")))
    );
    assert_eq!(get_token_account(fetched.clone()), Err(ClientError::Transport(String::from("unreachable"))));
    assert_eq!(get_token_mint(fetched), Err(ClientError::Transport(String::from("unreachable"))));
}

#[test]
fn wrong_discriminator_is_deserialize_failed() {
    let data = encode_tagged(&[1, 2, 3, 4, 5, 6, 7, 8], &[10, 11]);
    let fetched: Result<Option<AccountRecord>, String> = Ok(Some(record(data)));
    assert_eq!(
        get_account_with_anchor(fetched.clone(), &[8, 7, 6, 5, 4, 3, 2, 1]),
        Err(ClientError::DeserializeFailed)
    );
    assert_eq!(get_account_with_anchor(fetched, &[1, 2, 3, 4, 5, 6, 7, 8]), Ok(vec![10, 11]));
}

#[test]
fn data_that_is_no_token_record_is_deserialize_failed() {
    let fetched: Result<Option<AccountRecord>, String> = Ok(Some(record(vec![1, 2, 3])));
    assert_eq!(get_token_account(fetched.clone()), Err(ClientError::DeserializeFailed));
    assert_eq!(get_token_mint(fetched), Err(ClientError::DeserializeFailed));
}

#[test]
fn token_records_come_out_of_fetched_accounts() {
    let account = TokenAccount::new(addr(1), addr(2), 9);
    let fetched: Result<Option<AccountRecord>, String> = Ok(Some(record(account.pack())));
    assert_eq!(get_token_account(fetched), Ok(account));
    let mint = TokenMint::new(Some(addr(3)), 10, 1, Some(addr(4)));
    let fetched: Result<Option<AccountRecord>, String> = Ok(Some(record(mint.pack())));
    assert_eq!(get_token_mint(fetched), Ok(mint));
}

#[test]
fn messages_of_the_failures() {
    let not_found: ClientError<String> = ClientError::AccountNotFound;
    assert_eq!(not_found.message(), Some("Account not found"));
    let failed: ClientError<String> = ClientError::DeserializeFailed;
    assert_eq!(failed.message(), Some("Failed to deserialize account"));
    let transport = ClientError::Transport(String::from("down"));
    assert_eq!(transport.message(), None);
}

#[test]
fn serialized_struct_round_trips_through_seeding_and_fetching() {
    let profile = Profile { id: 77, name: String::from("alice") };
    let serialized = profile.try_to_vec().unwrap();
    let mut ledger = SeedLedger::new();
    ledger.add_account_with_borsh(addr(1), addr(2), &serialized);
    let fetched: Result<Option<AccountRecord>, String> = Ok(ledger.get_account(&addr(1)).cloned());
    let bytes = get_account_with_borsh(fetched).unwrap();
    let decoded: Result<Profile, ClientError<String>> = deserialized(Profile::try_from_slice(&bytes));
    assert_eq!(decoded, Ok(Profile { id: 77, name: String::from("alice") }));
}

#[test]
fn tagged_struct_round_trips_through_seeding_and_fetching() {
    let profile = Profile { id: 1, name: String::from("bob") };
    let discriminator = [11u8, 22, 33, 44, 55, 66, 77, 88];
    let mut ledger = SeedLedger::new();
    ledger.add_account_with_anchor(addr(1), addr(2), &discriminator, &profile.try_to_vec().unwrap(), false);
    let fetched: Result<Option<AccountRecord>, String> = Ok(ledger.get_account(&addr(1)).cloned());
    let bytes = get_account_with_anchor(fetched, &discriminator).unwrap();
    let decoded: Result<Profile, ClientError<String>> = deserialized(Profile::try_from_slice(&bytes));
    assert_eq!(decoded, Ok(profile));
}

#[test]
fn decoder_failure_is_deserialize_failed() {
    let decoded: Result<Profile, ClientError<String>> = deserialized(Profile::try_from_slice(&[1, 2, 3]));
    assert_eq!(decoded, Err(ClientError::DeserializeFailed));
}
