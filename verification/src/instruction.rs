//! Instructions as plain values, and the builders of the ones this crate
//! submits.

use crate::address::Address;
use crate::token::associated_token_address;
use solana_program::pubkey::Pubkey;
use vstd::prelude::*;

verus! {

/// One account that an instruction touches.
#[derive(Clone, Copy, Debug, PartialEq, Eq)]
pub struct AccountMeta {
    pub pubkey: Address,
    pub is_signer: bool,
    pub is_writable: bool,
}

impl AccountMeta {
    /// An account entry with the given flags.
    pub fn new(pubkey: Address, is_signer: bool, is_writable: bool) -> (meta: AccountMeta)
        ensures
            meta == (AccountMeta { pubkey, is_signer, is_writable }),
    {
        AccountMeta { pubkey, is_signer, is_writable }
    }
}

/// A directive to a program: its address, the accounts touched, the payload.
#[derive(Clone, Debug, PartialEq, Eq)]
pub struct Instruction {
    pub program_id: Address,
    pub accounts: Vec<AccountMeta>,
    pub data: Vec<u8>,
}

/// What an [`Instruction`] holds.
pub struct InstructionView {
    pub program_id: Address,
    pub accounts: Seq<AccountMeta>,
    pub data: Seq<u8>,
}

impl View for Instruction {
    type V = InstructionView;

    open spec fn view(&self) -> InstructionView {
        InstructionView { program_id: self.program_id, accounts: self.accounts@, data: self.data@ }
    }
}

impl InstructionView {
    /// Whether the instruction wants the signature of `address`.
    pub open spec fn wants_signature(self, address: Address) -> bool {
        exists|i: int|
            0 <= i < self.accounts.len() && (#[trigger] self.accounts[i]).is_signer
                && self.accounts[i].pubkey == address
    }

    /// Whether the instruction wants no signature at all.
    pub open spec fn unsigned(self) -> bool {
        forall|i: int| 0 <= i < self.accounts.len() ==> !(#[trigger] self.accounts[i]).is_signer
    }
}

/// The system program's instruction that creates the account `to`, funded by
/// `from` with `lamports`, with `space` bytes of data, owned by `owner`.
pub uninterp spec fn create_account_instruction(
    from: Address,
    to: Address,
    lamports: u64,
    space: u64,
    owner: Address,
) -> InstructionView;

/// The token program's instruction that initializes the mint at `mint`.
pub uninterp spec fn initialize_mint_instruction(
    mint: Address,
    mint_authority: Address,
    freeze_authority: Option<Address>,
    decimals: u8,
) -> InstructionView;

/// The token program's instruction that initializes the token account at
/// `account`, for `mint`, owned by `owner`.
pub uninterp spec fn initialize_account_instruction(
    account: Address,
    mint: Address,
    owner: Address,
) -> InstructionView;

/// The instruction that creates the associated token account of `wallet` for
/// `mint`, paid for by `funder`.
pub uninterp spec fn create_associated_account_instruction(
    funder: Address,
    wallet: Address,
    mint: Address,
) -> InstructionView;

/// Calls `solana_program::system_instruction::create_account`.
///
/// Trusted: the result is that function's value on these arguments, and, as
/// its source shows, it lists exactly the two accounts `from` and `to`, both as
/// signers.
#[verifier::external_body]
pub(crate) fn system_create_account(
    from: &Address,
    to: &Address,
    lamports: u64,
    space: u64,
    owner: &Address,
) -> (ix: Instruction)
    ensures
        ix@ == create_account_instruction(*from, *to, lamports, space, *owner),
        forall|a: Address| ix@.wants_signature(a) <==> a == *from || a == *to,
{
    let made = solana_program::system_instruction::create_account(
        &Pubkey::from(from.bytes),
        &Pubkey::from(to.bytes),
        lamports,
        space,
        &Pubkey::from(owner.bytes),
    );
    let accounts = made.accounts.iter().map(
        |m| AccountMeta::new(Address::new(m.pubkey.to_bytes()), m.is_signer, m.is_writable),
    ).collect();
    Instruction { program_id: Address::new(made.program_id.to_bytes()), accounts, data: made.data }
}

/// Calls `spl_token::instruction::initialize_mint` for the token program.
///
/// Trusted: the result is that function's value on these arguments, and, as
/// its documentation says, it wants no signature. The call fails only for
/// another program's address, so not here.
#[verifier::external_body]
pub(crate) fn token_initialize_mint(
    mint: &Address,
    mint_authority: &Address,
    freeze_authority: &Option<Address>,
    decimals: u8,
) -> (ix: Instruction)
    ensures
        ix@ == initialize_mint_instruction(*mint, *mint_authority, *freeze_authority, decimals),
        ix@.unsigned(),
{
    let freeze = freeze_authority.map(|a| Pubkey::from(a.bytes));
    let made = spl_token::instruction::initialize_mint(
        &spl_token::id(),
        &Pubkey::from(mint.bytes),
        &Pubkey::from(mint_authority.bytes),
        freeze.as_ref(),
        decimals,
    ).unwrap();
    let accounts = made.accounts.iter().map(
        |m| AccountMeta::new(Address::new(m.pubkey.to_bytes()), m.is_signer, m.is_writable),
    ).collect();
    Instruction { program_id: Address::new(made.program_id.to_bytes()), accounts, data: made.data }
}

/// Calls `spl_token::instruction::initialize_account` for the token program.
///
/// Trusted: the result is that function's value on these arguments, and, as
/// its documentation says, it wants no signature. The call fails only for
/// another program's address, so not here.
#[verifier::external_body]
pub(crate) fn token_initialize_account(
    account: &Address,
    mint: &Address,
    owner: &Address,
) -> (ix: Instruction)
    ensures
        ix@ == initialize_account_instruction(*account, *mint, *owner),
        ix@.unsigned(),
{
    let made = spl_token::instruction::initialize_account(
        &spl_token::id(),
        &Pubkey::from(account.bytes),
        &Pubkey::from(mint.bytes),
        &Pubkey::from(owner.bytes),
    ).unwrap();
    let accounts = made.accounts.iter().map(
        |m| AccountMeta::new(Address::new(m.pubkey.to_bytes()), m.is_signer, m.is_writable),
    ).collect();
    Instruction { program_id: Address::new(made.program_id.to_bytes()), accounts, data: made.data }
}

/// Calls `spl_associated_token_account::create_associated_token_account`.
///
/// Trusted: the result is that function's value on these arguments, and, as
/// its source shows, the funder is the only signer it lists and the second
/// account it lists is the new token account. The address of that account is
/// derived inside the call as by
/// [`crate::token::get_associated_token_address`], with the same bounded
/// search that gives up with a panic when no candidate fits.
#[verifier::external_body]
#[allow(deprecated)]
pub(crate) fn associated_account_creation(
    funder: &Address,
    wallet: &Address,
    mint: &Address,
) -> (ix: Instruction)
    ensures
        ix@ == create_associated_account_instruction(*funder, *wallet, *mint),
        forall|a: Address| ix@.wants_signature(a) <==> a == *funder,
        ix@.accounts.len() > 1,
        ix@.accounts[1].pubkey == associated_token_address(*wallet, *mint),
{
    let made = spl_associated_token_account::create_associated_token_account(
        &Pubkey::from(funder.bytes),
        &Pubkey::from(wallet.bytes),
        &Pubkey::from(mint.bytes),
    );
    let accounts = made.accounts.iter().map(
        |m| AccountMeta::new(Address::new(m.pubkey.to_bytes()), m.is_signer, m.is_writable),
    ).collect();
    Instruction { program_id: Address::new(made.program_id.to_bytes()), accounts, data: made.data }
}

} // verus!
