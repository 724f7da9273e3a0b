//! Token mints and token accounts in their packed, fixed-length form.

use crate::address::Address;
use crate::codec::DecodeError;
use solana_program::program_pack::Pack;
use solana_program::pubkey::Pubkey;
use spl_token::state;
use vstd::prelude::*;

verus! {

/// Bytes in a packed mint.
pub const MINT_LEN: usize = 82;

/// Bytes in a packed token account.
pub const TOKEN_ACCOUNT_LEN: usize = 165;

/// The bytes of the token program's address.
pub const TOKEN_PROGRAM_ID: [u8; 32] = [
    6, 221, 246, 225, 215, 101, 161, 147, 217, 203, 225, 70, 206, 235, 121, 172,
    28, 180, 133, 237, 95, 91, 55, 145, 58, 140, 245, 133, 126, 255, 0, 169,
];

/// The address of the token program, which owns every mint and token account.
pub open spec fn token_program() -> Address {
    Address { bytes: TOKEN_PROGRAM_ID }
}

/// Calls `spl_token::id`.
///
/// Trusted: the result is the address that the token program declares, in
/// base 58 `TokenkegQfeZyiNwAJbNbGKPFXCWuBvf9Ss623VQ5DA`, whose bytes are
/// [`TOKEN_PROGRAM_ID`].
#[verifier::external_body]
fn declared_token_program_id() -> (id: Address)
    ensures
        id == token_program(),
{
    Address::new(spl_token::id().to_bytes())
}

/// The address of the token program.
pub fn token_program_id() -> (id: Address)
    ensures
        id == token_program(),
{
    declared_token_program_id()
}

/// A mint: the description of one kind of token.
#[derive(Clone, Copy, Debug, PartialEq, Eq)]
pub struct TokenMint {
    pub mint_authority: Option<Address>,
    pub supply: u64,
    pub decimals: u8,
    pub is_initialized: bool,
    pub freeze_authority: Option<Address>,
}

/// The state of a token account.
#[derive(Clone, Copy, Debug, PartialEq, Eq, Structural)]
pub enum AccountState {
    Uninitialized,
    Initialized,
    Frozen,
}

/// A token account: the tokens of one mint that one owner holds.
#[derive(Clone, Copy, Debug, PartialEq, Eq)]
pub struct TokenAccount {
    pub mint: Address,
    pub owner: Address,
    pub amount: u64,
    pub delegate: Option<Address>,
    pub state: AccountState,
    pub is_native: Option<u64>,
    pub delegated_amount: u64,
    pub close_authority: Option<Address>,
}

/// The packed form of a mint.
pub uninterp spec fn packed_mint(mint: TokenMint) -> Seq<u8>;

/// The packed form of a token account.
pub uninterp spec fn packed_token_account(account: TokenAccount) -> Seq<u8>;

/// The initialized mint that the bytes hold, if they hold one.
pub uninterp spec fn unpacked_mint(data: Seq<u8>) -> Option<TokenMint>;

/// The initialized token account that the bytes hold, if they hold one.
pub uninterp spec fn unpacked_token_account(data: Seq<u8>) -> Option<TokenAccount>;

/// The address of the token account associated with `wallet` for `mint`.
pub uninterp spec fn associated_token_address(wallet: Address, mint: Address) -> Address;

/// Calls `spl_token::state::Mint::pack_into_slice` on a zeroed buffer of the
/// mint's packed length.
///
/// Trusted: the result is what that call leaves in the buffer, and is as long
/// as the buffer, 82 bytes; and, as the source of `Mint` shows field by field,
/// unpacking reads back what packing wrote, so the packed form of an
/// initialized mint unpacks to that mint.
#[verifier::external_body]
fn pack_mint(mint: &TokenMint) -> (data: Vec<u8>)
    ensures
        data@ == packed_mint(*mint),
        data@.len() == MINT_LEN,
        mint.is_initialized ==> unpacked_mint(data@) == Some(*mint),
{
    let mut data = vec![0u8; state::Mint::LEN];
    state::Mint {
        mint_authority: mint.mint_authority.map(|a| Pubkey::from(a.bytes)).into(),
        supply: mint.supply,
        decimals: mint.decimals,
        is_initialized: mint.is_initialized,
        freeze_authority: mint.freeze_authority.map(|a| Pubkey::from(a.bytes)).into(),
    }.pack_into_slice(&mut data);
    data
}

/// Calls `spl_token::state::Mint::unpack`.
///
/// Trusted: the result is that function's value on the bytes, with its error
/// dropped; as the source of `Pack` shows, bytes of another length than 82 are
/// refused.
#[verifier::external_body]
fn unpack_mint(data: &[u8]) -> (mint: Option<TokenMint>)
    ensures
        mint == unpacked_mint(data@),
        data@.len() != MINT_LEN ==> mint is None,
{
    let m = state::Mint::unpack(data).ok()?;
    Some(TokenMint {
        mint_authority: Option::from(m.mint_authority).map(|k: Pubkey| Address::new(k.to_bytes())),
        supply: m.supply,
        decimals: m.decimals,
        is_initialized: m.is_initialized,
        freeze_authority: Option::from(m.freeze_authority).map(|k: Pubkey| Address::new(k.to_bytes())),
    })
}

/// Calls `spl_token::state::Account::pack_into_slice` on a zeroed buffer of
/// the account's packed length.
///
/// Trusted: the result is what that call leaves in the buffer, and is as long
/// as the buffer, 165 bytes; and, as the source of `Account` shows field by
/// field, unpacking reads back what packing wrote, so the packed form of a
/// token account that is not uninitialized unpacks to that account.
#[verifier::external_body]
fn pack_token_account(account: &TokenAccount) -> (data: Vec<u8>)
    ensures
        data@ == packed_token_account(*account),
        data@.len() == TOKEN_ACCOUNT_LEN,
        account.state != AccountState::Uninitialized ==> unpacked_token_account(data@) == Some(
            *account,
        ),
{
    let mut data = vec![0u8; state::Account::LEN];
    state::Account {
        mint: Pubkey::from(account.mint.bytes),
        owner: Pubkey::from(account.owner.bytes),
        amount: account.amount, delegated_amount: account.delegated_amount,
        delegate: account.delegate.map(|a| Pubkey::from(a.bytes)).into(),
        state: match account.state {
            AccountState::Uninitialized => state::AccountState::Uninitialized,
            AccountState::Initialized => state::AccountState::Initialized,
            AccountState::Frozen => state::AccountState::Frozen,
        },
        is_native: account.is_native.into(),
        close_authority: account.close_authority.map(|a| Pubkey::from(a.bytes)).into(),
    }.pack_into_slice(&mut data);
    data
}

/// Calls `spl_token::state::Account::unpack`.
///
/// Trusted: the result is that function's value on the bytes, with its error
/// dropped; as the source of `Pack` shows, bytes of another length than 165
/// are refused.
#[verifier::external_body]
fn unpack_token_account(data: &[u8]) -> (account: Option<TokenAccount>)
    ensures
        account == unpacked_token_account(data@),
        data@.len() != TOKEN_ACCOUNT_LEN ==> account is None,
{
    let a = state::Account::unpack(data).ok()?;
    Some(TokenAccount {
        mint: Address::new(a.mint.to_bytes()),
        owner: Address::new(a.owner.to_bytes()),
        amount: a.amount, delegated_amount: a.delegated_amount,
        delegate: Option::from(a.delegate).map(|k: Pubkey| Address::new(k.to_bytes())),
        state: match a.state {
            state::AccountState::Uninitialized => AccountState::Uninitialized,
            state::AccountState::Initialized => AccountState::Initialized,
            state::AccountState::Frozen => AccountState::Frozen,
        },
        is_native: a.is_native.into(),
        close_authority: Option::from(a.close_authority).map(|k: Pubkey| Address::new(k.to_bytes())),
    })
}

/// Calls `spl_associated_token_account::get_associated_token_address`.
///
/// Trusted: the result is that function's value on the two addresses. The
/// derivation tries a bounded number of candidates and gives up with a panic
/// when none fits; no pair of addresses is known for which that happens.
#[verifier::external_body]
fn derive_associated_address(wallet: &Address, mint: &Address) -> (address: Address)
    ensures
        address == associated_token_address(*wallet, *mint),
{
    let derived = spl_associated_token_account::get_associated_token_address(
        &Pubkey::from(wallet.bytes),
        &Pubkey::from(mint.bytes),
    );
    Address::new(derived.to_bytes())
}

/// The address of the token account associated with `wallet` for `mint`.
pub fn get_associated_token_address(wallet: &Address, mint: &Address) -> (address: Address)
    ensures
        address == associated_token_address(*wallet, *mint),
{
    derive_associated_address(wallet, mint)
}

impl TokenMint {
    /// An initialized mint.
    pub fn new(
        mint_authority: Option<Address>,
        supply: u64,
        decimals: u8,
        freeze_authority: Option<Address>,
    ) -> (mint: TokenMint)
        ensures
            mint == (TokenMint {
                mint_authority,
                supply,
                decimals,
                is_initialized: true,
                freeze_authority,
            }),
    {
        TokenMint { mint_authority, supply, decimals, is_initialized: true, freeze_authority }
    }

    /// The packed form of the mint. Where the mint is initialized, it unpacks
    /// to the mint again.
    pub fn pack(&self) -> (data: Vec<u8>)
        ensures
            data@ == packed_mint(*self),
            data@.len() == MINT_LEN,
            self.is_initialized ==> unpacked_mint(data@) == Some(*self),
    {
        pack_mint(self)
    }

    /// The initialized mint that `data` holds.
    ///
    /// Bytes that hold none, among them all of another length than
    /// [`MINT_LEN`], are refused.
    pub fn unpack(data: &[u8]) -> (result: Result<TokenMint, DecodeError>)
        ensures
            match unpacked_mint(data@) {
                Some(mint) => result == Ok::<TokenMint, DecodeError>(mint),
                None => result == Err::<TokenMint, DecodeError>(DecodeError::DeserializeError),
            },
            data@.len() != MINT_LEN ==> result is Err,
    {
        match unpack_mint(data) {
            Some(mint) => Ok(mint),
            None => Err(DecodeError::DeserializeError),
        }
    }
}

impl TokenAccount {
    /// An initialized token account of `owner` that holds `amount` tokens of
    /// `mint`, with no delegate, no close authority, and not native.
    pub fn new(mint: Address, owner: Address, amount: u64) -> (account: TokenAccount)
        ensures
            account == (TokenAccount {
                mint,
                owner,
                amount,
                delegate: None,
                state: AccountState::Initialized,
                is_native: None,
                delegated_amount: 0,
                close_authority: None,
            }),
    {
        TokenAccount {
            mint,
            owner,
            amount,
            delegate: None,
            state: AccountState::Initialized,
            is_native: None,
            delegated_amount: 0,
            close_authority: None,
        }
    }

    /// The packed form of the token account. Where the account is not
    /// uninitialized, it unpacks to the account again.
    pub fn pack(&self) -> (data: Vec<u8>)
        ensures
            data@ == packed_token_account(*self),
            data@.len() == TOKEN_ACCOUNT_LEN,
            self.state != AccountState::Uninitialized ==> unpacked_token_account(data@) == Some(
                *self,
            ),
    {
        pack_token_account(self)
    }

    /// The initialized token account that `data` holds.
    ///
    /// Bytes that hold none, among them all of another length than
    /// [`TOKEN_ACCOUNT_LEN`], are refused.
    pub fn unpack(data: &[u8]) -> (result: Result<TokenAccount, DecodeError>)
        ensures
            match unpacked_token_account(data@) {
                Some(account) => result == Ok::<TokenAccount, DecodeError>(account),
                None => result == Err::<TokenAccount, DecodeError>(DecodeError::DeserializeError),
            },
            data@.len() != TOKEN_ACCOUNT_LEN ==> result is Err,
    {
        match unpack_token_account(data) {
            Some(account) => Ok(account),
            None => Err(DecodeError::DeserializeError),
        }
    }
}

} // verus!
