//! The accounts that a test seeds into the ledger before the runtime starts.

use crate::address::Address;
use crate::codec::{encode_tagged, tagged};
use crate::rent::{exact_rent, minimum_balance, rent_computable, rent_exact, rent_exempt_minimum};
use crate::token::{
    associated_token_address, get_associated_token_address, packed_mint, packed_token_account,
    unpacked_mint, unpacked_token_account, token_program, token_program_id, AccountState, TokenAccount, TokenMint, MINT_LEN,
    TOKEN_ACCOUNT_LEN,
};
use solana_sdk::signer::keypair::Keypair;
use solana_sdk::signer::Signer;
use vstd::prelude::*;

verus! {

/// Lamports in one native token.
pub const LAMPORTS_PER_SOL: u64 = 1_000_000_000;

/// The balance that every generated account starts with: 1000 native tokens.
pub const INITIAL_BALANCE: u64 = 1_000 * LAMPORTS_PER_SOL;

/// One account of the ledger.
#[derive(Clone, Debug, PartialEq, Eq)]
pub struct AccountRecord {
    pub owner: Address,
    pub lamports: u64,
    pub data: Vec<u8>,
    pub executable: bool,
    pub rent_epoch: u64,
}

/// What an [`AccountRecord`] holds.
pub struct AccountRecordView {
    pub owner: Address,
    pub lamports: u64,
    pub data: Seq<u8>,
    pub executable: bool,
    pub rent_epoch: u64,
}

impl View for AccountRecord {
    type V = AccountRecordView;

    open spec fn view(&self) -> AccountRecordView {
        AccountRecordView {
            owner: self.owner,
            lamports: self.lamports,
            data: self.data@,
            executable: self.executable,
            rent_epoch: self.rent_epoch,
        }
    }
}

/// A record together with the address it is seeded at.
#[derive(Clone, Debug, PartialEq, Eq)]
pub struct SeededAccount {
    pub address: Address,
    pub record: AccountRecord,
}

/// What a [`SeededAccount`] holds.
pub struct SeededAccountView {
    pub address: Address,
    pub record: AccountRecordView,
}

impl View for SeededAccount {
    type V = SeededAccountView;

    open spec fn view(&self) -> SeededAccountView {
        SeededAccountView { address: self.address, record: self.record@ }
    }
}

/// The opaque signing key of the outside crate; it is only carried along.
#[verifier::external_type_specification]
#[verifier::external_body]
pub struct ExKeypair(solana_sdk::signer::keypair::Keypair);

/// A freshly generated keypair and the address it signs for.
#[derive(Debug)]
pub struct GeneratedAccount {
    pub keypair: Keypair,
    pub address: Address,
}

/// The accounts seeded so far, in the order in which they were added. Where
/// an address was seeded more than once, the ledger starts with the record
/// added last.
#[derive(Clone, Debug, PartialEq, Eq)]
pub struct SeedLedger {
    entries: Vec<SeededAccount>,
}

/// The entry that seeds `record` at `address`.
pub open spec fn seeded(address: Address, record: AccountRecordView) -> SeededAccountView {
    SeededAccountView { address, record }
}

/// The record of an account that holds `lamports` and nothing else.
pub open spec fn funded_record(owner: Address, lamports: u64) -> AccountRecordView {
    AccountRecordView { owner, lamports, data: Seq::empty(), executable: false, rent_epoch: 0 }
}

/// The record of an account that holds `data` and exactly the balance that
/// keeps it exempt from rent.
pub open spec fn rent_exempt_record(owner: Address, data: Seq<u8>, executable: bool)
    -> AccountRecordView {
    AccountRecordView {
        owner,
        lamports: rent_exempt_minimum(data.len()),
        data,
        executable,
        rent_epoch: 0,
    }
}

/// The initialized token account that the seeding helpers write.
pub open spec fn seeded_token_account(mint: Address, owner: Address, amount: u64) -> TokenAccount {
    TokenAccount {
        mint,
        owner,
        amount,
        delegate: None,
        state: AccountState::Initialized,
        is_native: None,
        delegated_amount: 0,
        close_authority: None,
    }
}

/// The initialized mint that the seeding helpers write.
pub open spec fn seeded_mint(
    mint_authority: Option<Address>,
    supply: u64,
    decimals: u8,
    freeze_authority: Option<Address>,
) -> TokenMint {
    TokenMint { mint_authority, supply, decimals, is_initialized: true, freeze_authority }
}

/// The entries that seed each generated account with the initial balance and
/// itself as owner, in the order of generation.
pub open spec fn generated_entries(accounts: Seq<GeneratedAccount>) -> Seq<SeededAccountView> {
    Seq::new(
        accounts.len(),
        |i: int| seeded(accounts[i].address, funded_record(accounts[i].address, INITIAL_BALANCE)),
    )
}

/// The record that the ledger starts with at `address`: the one seeded last
/// there, if any.
pub open spec fn account_at(entries: Seq<SeededAccountView>, address: Address) -> Option<
    AccountRecordView,
>
    decreases entries.len(),
{
    if entries.len() == 0 {
        None
    } else if entries.last().address == address {
        Some(entries.last().record)
    } else {
        account_at(entries.drop_last(), address)
    }
}

/// The record seeded last at an address is the one the ledger starts with
/// there.
pub proof fn lemma_last_seeded_wins(
    entries: Seq<SeededAccountView>,
    address: Address,
    record: AccountRecordView,
)
    ensures
        account_at(entries.push(seeded(address, record)), address) == Some(record),
{
}

/// Seeding one address leaves what the ledger starts with at every other
/// address as it was.
pub proof fn lemma_other_addresses_keep(
    entries: Seq<SeededAccountView>,
    address: Address,
    record: AccountRecordView,
    other: Address,
)
    requires
        other != address,
    ensures
        account_at(entries.push(seeded(address, record)), other) == account_at(entries, other),
{
    assert(entries.push(seeded(address, record)).drop_last() == entries);
}

/// Calls `solana_sdk::signer::keypair::Keypair::new`, which draws a keypair
/// from the system's random source. Nothing is claimed of the result.
#[verifier::external_body]
fn fresh_keypair() -> Keypair {
    Keypair::new()
}

/// Calls `solana_sdk::signer::Signer::pubkey` on the keypair and hands the
/// bytes of the public key out as an address. Nothing is claimed of the
/// result.
#[verifier::external_body]
fn keypair_address(keypair: &Keypair) -> Address {
    Address::new(keypair.pubkey().to_bytes())
}

impl View for SeedLedger {
    type V = Seq<SeededAccountView>;

    closed spec fn view(&self) -> Seq<SeededAccountView> {
        Seq::new(self.entries@.len(), |i: int| self.entries@[i]@)
    }
}

impl SeedLedger {
    /// A ledger with nothing seeded.
    pub fn new() -> (ledger: SeedLedger)
        ensures
            ledger@ == Seq::<SeededAccountView>::empty(),
    {
        SeedLedger { entries: Vec::new() }
    }

    /// The number of entries seeded.
    pub fn len(&self) -> (n: usize)
        ensures
            n == self@.len(),
    {
        self.entries.len()
    }

    /// The entry seeded as number `index`.
    pub fn entry(&self, index: usize) -> (entry: &SeededAccount)
        requires
            index < self@.len(),
        ensures
            entry@ == self@[index as int],
    {
        &self.entries[index]
    }

    /// The record that the ledger starts with at `address`.
    pub fn get_account(&self, address: &Address) -> (found: Option<&AccountRecord>)
        ensures
            match account_at(self@, *address) {
                Some(record) => found is Some && found->Some_0@ == record,
                None => found is None,
            },
    {
        let mut i: usize = self.entries.len();
        assert(self@.subrange(0, i as int) == self@);
        while i > 0
            invariant
                i <= self.entries@.len(),
                account_at(self@, *address) == account_at(self@.subrange(0, i as int), *address),
            decreases i,
        {
            i -= 1;
            let ghost upto = self@.subrange(0, i + 1);
            assert(upto.last() == self@[i as int]);
            assert(upto.drop_last() == self@.subrange(0, i as int));
            if self.entries[i].address == *address {
                return Some(&self.entries[i].record);
            }
        }
        assert(self@.subrange(0, 0).len() == 0);
        None
    }

    /// Seeds `record` at `address`.
    pub fn add_account(&mut self, address: Address, record: AccountRecord)
        ensures
            final(self)@ == old(self)@.push(seeded(address, record@)),
    {
        self.entries.push(SeededAccount { address, record });
        assert(self@ =~= old(self)@.push(seeded(address, record@)));
    }

    /// Seeds an account without data that holds `lamports`.
    pub fn add_account_with_lamports(&mut self, pubkey: Address, owner: Address, lamports: u64)
        ensures
            final(self)@ == old(self)@.push(seeded(pubkey, funded_record(owner, lamports))),
    {
        let record = AccountRecord {
            owner,
            lamports,
            data: Vec::new(),
            executable: false,
            rent_epoch: 0,
        };
        self.add_account(pubkey, record);
    }

    /// Seeds an account that holds `data` and the balance that keeps it exempt
    /// from rent.
    pub fn add_account_with_data(
        &mut self,
        pubkey: Address,
        owner: Address,
        data: &[u8],
        executable: bool,
    )
        requires
            rent_computable(data@.len()),
        ensures
            final(self)@ == old(self)@.push(
                seeded(pubkey, rent_exempt_record(owner, data@, executable)),
            ),
            rent_exact(data@.len()) ==> rent_exempt_minimum(data@.len()) == exact_rent(data@.len()),
    {
        let lamports = minimum_balance(data.len());
        let mut copy: Vec<u8> = Vec::new();
        let mut i: usize = 0;
        while i < data.len()
            invariant
                i <= data.len(),
                copy@ == data@.subrange(0, i as int),
            decreases data.len() - i,
        {
            copy.push(data[i]);
            i += 1;
        }
        assert(data@.subrange(0, data@.len() as int) == data@);
        let record = AccountRecord { owner, lamports, data: copy, executable, rent_epoch: 0 };
        self.add_account(pubkey, record);
    }

    /// Seeds a framework-tagged account: the discriminator of the record's
    /// type, then the serialized record.
    pub fn add_account_with_anchor(
        &mut self,
        pubkey: Address,
        owner: Address,
        discriminator: &[u8; 8],
        serialized: &[u8],
        executable: bool,
    )
        requires
            8 + serialized@.len() <= usize::MAX,
            rent_computable(8 + serialized@.len()),
        ensures
            final(self)@ == old(self)@.push(
                seeded(
                    pubkey,
                    rent_exempt_record(owner, tagged(discriminator@, serialized@), executable),
                ),
            ),
            rent_exact(8 + serialized@.len()) ==> rent_exempt_minimum(8 + serialized@.len())
                == exact_rent(8 + serialized@.len()),
    {
        let data = encode_tagged(discriminator, serialized);
        self.add_account_with_data(pubkey, owner, data.as_slice(), executable);
    }

    /// Seeds an account that holds a record in its packed, fixed-length form.
    pub fn add_account_with_packable(&mut self, pubkey: Address, owner: Address, packed: &[u8])
        requires
            rent_computable(packed@.len()),
        ensures
            final(self)@ == old(self)@.push(seeded(pubkey, rent_exempt_record(owner, packed@, false))),
            rent_exact(packed@.len()) ==> rent_exempt_minimum(packed@.len()) == exact_rent(
                packed@.len(),
            ),
    {
        self.add_account_with_data(pubkey, owner, packed, false);
    }

    /// Seeds an account that holds a record in its generic serialized form.
    pub fn add_account_with_borsh(&mut self, pubkey: Address, owner: Address, serialized: &[u8])
        requires
            rent_computable(serialized@.len()),
        ensures
            final(self)@ == old(self)@.push(
                seeded(pubkey, rent_exempt_record(owner, serialized@, false)),
            ),
            rent_exact(serialized@.len()) ==> rent_exempt_minimum(serialized@.len()) == exact_rent(
                serialized@.len(),
            ),
    {
        self.add_account_with_data(pubkey, owner, serialized, false);
    }

    /// Seeds an initialized mint, owned by the token program. The data seeded
    /// is the packed mint: it has the length of one and unpacks to the mint.
    pub fn add_token_mint(
        &mut self,
        pubkey: Address,
        mint_authority: Option<Address>,
        supply: u64,
        decimals: u8,
        freeze_authority: Option<Address>,
    )
        ensures
            final(self)@ == old(self)@.push(
                seeded(
                    pubkey,
                    rent_exempt_record(
                        token_program(),
                        packed_mint(seeded_mint(mint_authority, supply, decimals, freeze_authority)),
                        false,
                    ),
                ),
            ),
            packed_mint(seeded_mint(mint_authority, supply, decimals, freeze_authority)).len()
                == MINT_LEN,
            unpacked_mint(
                packed_mint(seeded_mint(mint_authority, supply, decimals, freeze_authority)),
            ) == Some(seeded_mint(mint_authority, supply, decimals, freeze_authority)),
            rent_exempt_minimum(MINT_LEN as nat) == 1_461_600,
    {
        let mint = TokenMint::new(mint_authority, supply, decimals, freeze_authority);
        let packed = mint.pack();
        self.add_account_with_packable(pubkey, token_program_id(), packed.as_slice());
    }

    /// Seeds an initialized token account of `owner` that holds `amount`
    /// tokens of `mint`, owned by the token program. The data seeded is the
    /// packed token account: it has the length of one and unpacks to the
    /// account.
    pub fn add_token_account(&mut self, pubkey: Address, mint: Address, owner: Address, amount: u64)
        ensures
            final(self)@ == old(self)@.push(
                seeded(
                    pubkey,
                    rent_exempt_record(
                        token_program(),
                        packed_token_account(seeded_token_account(mint, owner, amount)),
                        false,
                    ),
                ),
            ),
            packed_token_account(seeded_token_account(mint, owner, amount)).len()
                == TOKEN_ACCOUNT_LEN,
            unpacked_token_account(packed_token_account(seeded_token_account(mint, owner, amount)))
                == Some(seeded_token_account(mint, owner, amount)),
            rent_exempt_minimum(TOKEN_ACCOUNT_LEN as nat) == 2_039_280,
    {
        let account = TokenAccount::new(mint, owner, amount);
        let packed = account.pack();
        self.add_account_with_packable(pubkey, token_program_id(), packed.as_slice());
    }

    /// Seeds the token account associated with `owner` for `mint`, holding
    /// `amount` tokens, and returns its address.
    pub fn add_associated_token_account(
        &mut self,
        owner: Address,
        mint: Address,
        amount: u64,
    ) -> (pubkey: Address)
        ensures
            pubkey == associated_token_address(owner, mint),
            final(self)@ == old(self)@.push(
                seeded(
                    pubkey,
                    rent_exempt_record(
                        token_program(),
                        packed_token_account(seeded_token_account(mint, owner, amount)),
                        false,
                    ),
                ),
            ),
            packed_token_account(seeded_token_account(mint, owner, amount)).len()
                == TOKEN_ACCOUNT_LEN,
            unpacked_token_account(packed_token_account(seeded_token_account(mint, owner, amount)))
                == Some(seeded_token_account(mint, owner, amount)),
            rent_exempt_minimum(TOKEN_ACCOUNT_LEN as nat) == 2_039_280,
    {
        let pubkey = get_associated_token_address(&owner, &mint);
        let account = TokenAccount::new(mint, owner, amount);
        let packed = account.pack();
        self.add_account_with_packable(pubkey, token_program_id(), packed.as_slice());
        pubkey
    }

    /// Generates `number_of_accounts` keypairs and seeds the address of each
    /// with [`INITIAL_BALANCE`] and itself as owner. The accounts come back in
    /// the order in which they were generated and seeded.
    pub fn generate_accounts(&mut self, number_of_accounts: u8) -> (accounts: Vec<GeneratedAccount>)
        ensures
            accounts@.len() == number_of_accounts,
            final(self)@ == old(self)@ + generated_entries(accounts@),
    {
        let mut accounts: Vec<GeneratedAccount> = Vec::new();
        let mut made: u8 = 0;
        assert(self@ =~= old(self)@ + generated_entries(accounts@));
        while made < number_of_accounts
            invariant
                made <= number_of_accounts,
                accounts@.len() == made,
                self@ == old(self)@ + generated_entries(accounts@),
            decreases number_of_accounts - made,
        {
            let keypair = fresh_keypair();
            let address = keypair_address(&keypair);
            self.add_account_with_lamports(address, address, INITIAL_BALANCE);
            let ghost before = accounts@;
            accounts.push(GeneratedAccount { keypair, address });
            made += 1;
            assert(generated_entries(accounts@) =~= generated_entries(before).push(
                seeded(address, funded_record(address, INITIAL_BALANCE)),
            ));
            assert(self@ =~= old(self)@ + generated_entries(accounts@));
        }
        accounts
    }
}

} // verus!
