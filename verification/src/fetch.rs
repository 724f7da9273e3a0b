//! Reading accounts back from a running ledger: what a fetch and the
//! decoding of the fetched data amount to for the caller.

use crate::address::Address;
use crate::codec::{decode_tagged, lemma_tagged_round_trip, tagged, untagged, DecodeError};
use crate::ledger::{
    account_at, lemma_last_seeded_wins, rent_exempt_record, seeded, AccountRecord,
    AccountRecordView, SeededAccountView,
};
use crate::rent::rent_exempt_minimum;
use crate::token::{
    packed_mint, packed_token_account, token_program, unpacked_mint, unpacked_token_account,
    TokenAccount, TokenMint,
};
use vstd::prelude::*;

verus! {

/// Why an account could not be read.
#[derive(Clone, Debug, PartialEq, Eq)]
pub enum ClientError<E> {
    /// The runtime could not be asked; its own error is passed on as it came.
    Transport(E),
    /// No account lives at the address.
    AccountNotFound,
    /// The account's data is not a record of the expected kind.
    DeserializeFailed,
}

impl<E> ClientError<E> {
    /// The words for a failure of the library's own making; `None` for an
    /// error that the runtime made.
    pub fn message(&self) -> (text: Option<&'static str>)
        ensures
            match *self {
                ClientError::Transport(_) => text is None,
                ClientError::AccountNotFound => text is Some && text->Some_0@
                    == "Account not found"@,
                ClientError::DeserializeFailed => text is Some && text->Some_0@
                    == "Failed to deserialize account"@,
            },
    {
        match self {
            ClientError::Transport(_) => None,
            ClientError::AccountNotFound => Some("Account not found"),
            ClientError::DeserializeFailed => Some("Failed to deserialize account"),
        }
    }
}

/// What a fetch amounts to: the record, or why there is none.
pub open spec fn found_record<E>(fetched: Result<Option<AccountRecordView>, E>) -> Result<
    AccountRecordView,
    ClientError<E>,
> {
    match fetched {
        Err(e) => Err(ClientError::Transport(e)),
        Ok(None) => Err(ClientError::AccountNotFound),
        Ok(Some(record)) => Ok(record),
    }
}

/// The serialized record inside a fetched framework-tagged account.
pub open spec fn tagged_payload<E>(
    fetched: Result<Option<AccountRecordView>, E>,
    discriminator: Seq<u8>,
) -> Result<Seq<u8>, ClientError<E>> {
    match found_record(fetched) {
        Err(e) => Err(e),
        Ok(record) => match untagged(record.data, discriminator) {
            Ok(payload) => Ok(payload),
            Err(_) => Err(ClientError::DeserializeFailed),
        },
    }
}

/// The token account inside a fetched account.
pub open spec fn fetched_token_account<E>(fetched: Result<Option<AccountRecordView>, E>) -> Result<
    TokenAccount,
    ClientError<E>,
> {
    match found_record(fetched) {
        Err(e) => Err(e),
        Ok(record) => match unpacked_token_account(record.data) {
            Some(account) => Ok(account),
            None => Err(ClientError::DeserializeFailed),
        },
    }
}

/// The mint inside a fetched account.
pub open spec fn fetched_mint<E>(fetched: Result<Option<AccountRecordView>, E>) -> Result<
    TokenMint,
    ClientError<E>,
> {
    match found_record(fetched) {
        Err(e) => Err(e),
        Ok(record) => match unpacked_mint(record.data) {
            Some(mint) => Ok(mint),
            None => Err(ClientError::DeserializeFailed),
        },
    }
}

/// The fetched value, by what its record holds.
pub open spec fn fetched_view<E>(fetched: Result<Option<AccountRecord>, E>) -> Result<
    Option<AccountRecordView>,
    E,
> {
    match fetched {
        Err(e) => Err(e),
        Ok(None) => Ok(None),
        Ok(Some(record)) => Ok(Some(record@)),
    }
}

/// Turns the answer to a fetch into the record or the reason why there is
/// none: an error of the runtime is passed on, an absent account is
/// [`ClientError::AccountNotFound`].
pub fn get_account<E>(fetched: Result<Option<AccountRecord>, E>) -> (result: Result<
    AccountRecord,
    ClientError<E>,
>)
    ensures
        match found_record(fetched_view(fetched)) {
            Ok(record) => result is Ok && result->Ok_0@ == record,
            Err(e) => result is Err && result->Err_0 == e,
        },
{
    match fetched {
        Err(e) => Err(ClientError::Transport(e)),
        Ok(None) => Err(ClientError::AccountNotFound),
        Ok(Some(record)) => Ok(record),
    }
}

/// The serialized record of a fetched account that holds a record in its
/// generic serialized form: the account's data, to be handed to the decoder
/// of the record's type.
pub fn get_account_with_borsh<E>(fetched: Result<Option<AccountRecord>, E>) -> (result: Result<
    Vec<u8>,
    ClientError<E>,
>)
    ensures
        match found_record(fetched_view(fetched)) {
            Ok(record) => result is Ok && result->Ok_0@ == record.data,
            Err(e) => result is Err && result->Err_0 == e,
        },
{
    match get_account(fetched) {
        Err(e) => Err(e),
        Ok(record) => Ok(record.data),
    }
}

/// The serialized record of a fetched framework-tagged account: the data
/// behind the discriminator, to be handed to the decoder of the record's
/// type. Data that does not start with the discriminator is
/// [`ClientError::DeserializeFailed`].
pub fn get_account_with_anchor<E>(
    fetched: Result<Option<AccountRecord>, E>,
    discriminator: &[u8; 8],
) -> (result: Result<Vec<u8>, ClientError<E>>)
    ensures
        match tagged_payload(fetched_view(fetched), discriminator@) {
            Ok(payload) => result is Ok && result->Ok_0@ == payload,
            Err(e) => result is Err && result->Err_0 == e,
        },
{
    match get_account(fetched) {
        Err(e) => Err(e),
        Ok(record) => match decode_tagged(record.data.as_slice(), discriminator) {
            Ok(payload) => Ok(payload),
            Err(_) => Err(ClientError::DeserializeFailed),
        },
    }
}

/// The token account that a fetched account holds.
pub fn get_token_account<E>(fetched: Result<Option<AccountRecord>, E>) -> (result: Result<
    TokenAccount,
    ClientError<E>,
>)
    ensures
        result == fetched_token_account(fetched_view(fetched)),
{
    match get_account(fetched) {
        Err(e) => Err(e),
        Ok(record) => match TokenAccount::unpack(record.data.as_slice()) {
            Ok(account) => Ok(account),
            Err(_) => Err(ClientError::DeserializeFailed),
        },
    }
}

/// The mint that a fetched account holds.
pub fn get_token_mint<E>(fetched: Result<Option<AccountRecord>, E>) -> (result: Result<
    TokenMint,
    ClientError<E>,
>)
    ensures
        result == fetched_mint(fetched_view(fetched)),
{
    match get_account(fetched) {
        Err(e) => Err(e),
        Ok(record) => match TokenMint::unpack(record.data.as_slice()) {
            Ok(mint) => Ok(mint),
            Err(_) => Err(ClientError::DeserializeFailed),
        },
    }
}

/// What the decoder of a record's type made of the serialized record, as the
/// caller sees it: the record, or [`ClientError::DeserializeFailed`] whatever
/// the decoder's own error was.
pub fn deserialized<T, D, E>(decoded: Result<T, D>) -> (result: Result<T, ClientError<E>>)
    ensures
        match decoded {
            Ok(value) => result == Ok::<T, ClientError<E>>(value),
            Err(_) => result == Err::<T, ClientError<E>>(ClientError::DeserializeFailed),
        },
{
    match decoded {
        Ok(value) => Ok(value),
        Err(_) => Err(ClientError::DeserializeFailed),
    }
}

/// An account seeded with data holds exactly the balance that keeps data of
/// that length exempt from rent, and a fetch at its address — as long as
/// nothing else is seeded there afterwards — gives the data back unchanged.
pub proof fn lemma_seeded_data_comes_back<E>(
    entries: Seq<SeededAccountView>,
    address: Address,
    owner: Address,
    data: Seq<u8>,
    executable: bool,
)
    ensures
        ({
            let record = rent_exempt_record(owner, data, executable);
            let after = entries.push(seeded(address, record));
            &&& record.lamports == rent_exempt_minimum(data.len())
            &&& found_record(Ok::<Option<AccountRecordView>, E>(account_at(after, address))) == Ok::<
                AccountRecordView,
                ClientError<E>,
            >(record)
            &&& record.data == data
        }),
{
    lemma_last_seeded_wins(entries, address, rent_exempt_record(owner, data, executable));
}

/// A framework-tagged record that was seeded comes back from a fetch with the
/// same discriminator as the serialized record that went in.
pub proof fn lemma_seeded_tagged_record_comes_back<E>(
    entries: Seq<SeededAccountView>,
    address: Address,
    owner: Address,
    discriminator: Seq<u8>,
    serialized: Seq<u8>,
    executable: bool,
)
    ensures
        ({
            let record = rent_exempt_record(owner, tagged(discriminator, serialized), executable);
            let after = entries.push(seeded(address, record));
            tagged_payload(Ok::<Option<AccountRecordView>, E>(account_at(after, address)), discriminator)
                == Ok::<Seq<u8>, ClientError<E>>(serialized)
        }),
{
    lemma_last_seeded_wins(
        entries,
        address,
        rent_exempt_record(owner, tagged(discriminator, serialized), executable),
    );
    lemma_tagged_round_trip(discriminator, serialized);
}

/// A token account that was seeded comes back from a fetch at its address,
/// given that its packed form unpacks to it, as every packed form that
/// [`TokenAccount::pack`] made of an initialized account does.
pub proof fn lemma_seeded_token_account_comes_back<E>(
    entries: Seq<SeededAccountView>,
    address: Address,
    account: TokenAccount,
)
    requires
        unpacked_token_account(packed_token_account(account)) == Some(account),
    ensures
        ({
            let record = rent_exempt_record(token_program(), packed_token_account(account), false);
            let after = entries.push(seeded(address, record));
            fetched_token_account(Ok::<Option<AccountRecordView>, E>(account_at(after, address)))
                == Ok::<TokenAccount, ClientError<E>>(account)
        }),
{
    lemma_last_seeded_wins(
        entries,
        address,
        rent_exempt_record(token_program(), packed_token_account(account), false),
    );
}

/// A mint that was seeded comes back from a fetch at its address, given that
/// its packed form unpacks to it, as every packed form that
/// [`TokenMint::pack`] made of an initialized mint does.
pub proof fn lemma_seeded_mint_comes_back<E>(
    entries: Seq<SeededAccountView>,
    address: Address,
    mint: TokenMint,
)
    requires
        unpacked_mint(packed_mint(mint)) == Some(mint),
    ensures
        ({
            let record = rent_exempt_record(token_program(), packed_mint(mint), false);
            let after = entries.push(seeded(address, record));
            fetched_mint(Ok::<Option<AccountRecordView>, E>(account_at(after, address))) == Ok::<
                TokenMint,
                ClientError<E>,
            >(mint)
        }),
{
    lemma_last_seeded_wins(
        entries,
        address,
        rent_exempt_record(token_program(), packed_mint(mint), false),
    );
}

} // verus!
