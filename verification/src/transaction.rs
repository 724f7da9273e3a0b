//! Transactions before they are signed: the instructions, who pays, and who
//! has to sign.

use crate::address::Address;
use crate::instruction::{Instruction, InstructionView};
use vstd::prelude::*;

verus! {

/// What is needed to assemble one transaction: the instructions in the order
/// in which they run, the payer of the fee, and the addresses whose keypairs
/// sign.
#[derive(Clone, Debug, PartialEq, Eq)]
pub struct TransactionRequest {
    pub instructions: Vec<Instruction>,
    pub payer: Address,
    pub signers: Vec<Address>,
}

/// What a [`TransactionRequest`] holds.
pub struct TransactionRequestView {
    pub instructions: Seq<InstructionView>,
    pub payer: Address,
    pub signers: Seq<Address>,
}

/// The instructions of a sequence, each by what it holds.
pub open spec fn instruction_views(instructions: Seq<Instruction>) -> Seq<InstructionView> {
    Seq::new(instructions.len(), |i: int| instructions[i]@)
}

impl View for TransactionRequest {
    type V = TransactionRequestView;

    open spec fn view(&self) -> TransactionRequestView {
        TransactionRequestView {
            instructions: instruction_views(self.instructions@),
            payer: self.payer,
            signers: self.signers@,
        }
    }
}

/// Whether a transaction of `instructions`, paid by `payer`, needs the
/// signature of `address`: the payer signs, and so does every account that an
/// instruction lists as a signer.
pub open spec fn needs_signature(
    instructions: Seq<InstructionView>,
    payer: Address,
    address: Address,
) -> bool {
    address == payer || exists|i: int|
        0 <= i < instructions.len() && (#[trigger] instructions[i]).wants_signature(address)
}

/// Whether `signers` are exactly the addresses whose signature a transaction
/// of `instructions`, paid by `payer`, needs.
pub open spec fn fully_signed(
    instructions: Seq<InstructionView>,
    payer: Address,
    signers: Seq<Address>,
) -> bool {
    forall|address: Address|
        needs_signature(instructions, payer, address) <==> #[trigger] signers.contains(address)
}

impl TransactionRequestView {
    /// Whether the signers of the request are exactly the addresses whose
    /// signature its transaction needs.
    pub open spec fn well_signed(self) -> bool {
        fully_signed(self.instructions, self.payer, self.signers)
    }
}

/// Whether `address` occurs in `list`.
pub fn contains_address(list: &Vec<Address>, address: &Address) -> (found: bool)
    ensures
        found == list@.contains(*address),
{
    let mut i: usize = 0;
    while i < list.len()
        invariant
            i <= list.len(),
            forall|k: int| 0 <= k < i ==> list@[k] != *address,
        decreases list.len() - i,
    {
        if list[i] == *address {
            return true;
        }
        i += 1;
    }
    false
}

/// Whether the instruction lists `address` as a signer.
pub fn lists_signer(instruction: &Instruction, address: &Address) -> (wanted: bool)
    ensures
        wanted == instruction@.wants_signature(*address),
{
    let mut i: usize = 0;
    while i < instruction.accounts.len()
        invariant
            i <= instruction.accounts.len(),
            forall|k: int|
                0 <= k < i ==> !((#[trigger] instruction.accounts@[k]).is_signer
                    && instruction.accounts@[k].pubkey == *address),
        decreases instruction.accounts.len() - i,
    {
        if instruction.accounts[i].is_signer && instruction.accounts[i].pubkey == *address {
            assert(instruction@.accounts[i as int].is_signer && instruction@.accounts[i as int].pubkey
                == *address);
            return true;
        }
        i += 1;
    }
    false
}

/// Whether a transaction of these instructions, paid by `payer`, needs the
/// signature of `address`.
pub fn is_required_signer(
    instructions: &Vec<Instruction>,
    payer: &Address,
    address: &Address,
) -> (needed: bool)
    ensures
        needed == needs_signature(instruction_views(instructions@), *payer, *address),
{
    if *payer == *address {
        return true;
    }
    let ghost views = instruction_views(instructions@);
    let mut i: usize = 0;
    while i < instructions.len()
        invariant
            i <= instructions.len(),
            views == instruction_views(instructions@),
            forall|k: int| 0 <= k < i ==> !(#[trigger] views[k]).wants_signature(*address),
        decreases instructions.len() - i,
    {
        if lists_signer(&instructions[i], address) {
            assert(views[i as int].wants_signature(*address));
            return true;
        }
        i += 1;
    }
    false
}

/// Whether every signer that the instruction lists occurs in `signers`.
fn signers_listed(instruction: &Instruction, signers: &Vec<Address>) -> (listed: bool)
    ensures
        listed <==> forall|address: Address|
            instruction@.wants_signature(address) ==> signers@.contains(address),
{
    let mut i: usize = 0;
    while i < instruction.accounts.len()
        invariant
            i <= instruction.accounts.len(),
            forall|k: int|
                0 <= k < i && (#[trigger] instruction.accounts@[k]).is_signer ==> signers@.contains(
                    instruction.accounts@[k].pubkey,
                ),
        decreases instruction.accounts.len() - i,
    {
        if instruction.accounts[i].is_signer && !contains_address(
            signers,
            &instruction.accounts[i].pubkey,
        ) {
            assert(instruction@.accounts[i as int].is_signer);
            assert(instruction@.wants_signature(instruction.accounts@[i as int].pubkey));
            return false;
        }
        i += 1;
    }
    true
}

/// Decides whether `signers` are exactly the addresses whose signature a
/// transaction of these instructions, paid by `payer`, needs.
pub fn signatures_complete(
    instructions: &Vec<Instruction>,
    payer: &Address,
    signers: &Vec<Address>,
) -> (complete: bool)
    ensures
        complete == fully_signed(instruction_views(instructions@), *payer, signers@),
{
    let ghost views = instruction_views(instructions@);
    if !contains_address(signers, payer) {
        assert(needs_signature(views, *payer, *payer) && !signers@.contains(*payer));
        return false;
    }
    let mut i: usize = 0;
    while i < instructions.len()
        invariant
            i <= instructions.len(),
            views == instruction_views(instructions@),
            forall|k: int, address: Address|
                0 <= k < i && (#[trigger] views[k]).wants_signature(address)
                    ==> #[trigger] signers@.contains(address),
        decreases instructions.len() - i,
    {
        if !signers_listed(&instructions[i], signers) {
            let ghost missing = choose|address: Address|
                instructions@[i as int]@.wants_signature(address) && !signers@.contains(address);
            assert(views[i as int].wants_signature(missing));
            assert(needs_signature(views, *payer, missing) && !signers@.contains(missing));
            return false;
        }
        i += 1;
    }
    let mut j: usize = 0;
    while j < signers.len()
        invariant
            j <= signers.len(),
            views == instruction_views(instructions@),
            forall|k: int| 0 <= k < j ==> needs_signature(views, *payer, #[trigger] signers@[k]),
        decreases signers.len() - j,
    {
        if !is_required_signer(instructions, payer, &signers[j]) {
            let ghost extra = signers@[j as int];
            assert(signers@.contains(extra) && !needs_signature(views, *payer, extra));
            return false;
        }
        j += 1;
    }
    assert forall|address: Address|
        needs_signature(views, *payer, address) <==> #[trigger] signers@.contains(address) by {
        if signers@.contains(address) {
            let k = choose|k: int| 0 <= k < signers@.len() && signers@[k] == address;
            assert(needs_signature(views, *payer, signers@[k]));
        }
    }
    true
}

/// The signers of a transaction paid by `payer` and signed by `signers`: the
/// given ones, with the payer behind them where he is not among them.
pub open spec fn with_payer(signers: Seq<Address>, payer: Address) -> Seq<Address> {
    if signers.contains(payer) {
        signers
    } else {
        signers.push(payer)
    }
}

/// Whether `signers`, together with the payer, are exactly the addresses
/// whose signature a transaction of `instructions`, paid by `payer`, needs:
/// every account that an instruction lists as a signer is the payer or among
/// them, and none of them is unrelated to the transaction.
pub open spec fn signers_suffice(
    instructions: Seq<InstructionView>,
    payer: Address,
    signers: Seq<Address>,
) -> bool {
    fully_signed(instructions, payer, with_payer(signers, payer))
}

/// The given signers, with the payer added behind them where he is missing.
pub fn add_payer(signers: &Vec<Address>, payer: &Address) -> (all: Vec<Address>)
    ensures
        all@ == with_payer(signers@, *payer),
{
    let mut all: Vec<Address> = Vec::new();
    let mut i: usize = 0;
    while i < signers.len()
        invariant
            i <= signers.len(),
            all@ == signers@.subrange(0, i as int),
        decreases signers.len() - i,
    {
        all.push(signers[i]);
        i += 1;
    }
    assert(signers@.subrange(0, signers@.len() as int) == signers@);
    if !contains_address(signers, payer) {
        all.push(*payer);
    }
    all
}

/// Decides whether `signers`, together with the payer, are exactly the
/// addresses whose signature a transaction of these instructions, paid by
/// `payer`, needs.
pub fn can_sign(
    instructions: &Vec<Instruction>,
    payer: &Address,
    signers: &Vec<Address>,
) -> (ok: bool)
    ensures
        ok == signers_suffice(instruction_views(instructions@), *payer, signers@),
{
    let all = add_payer(signers, payer);
    signatures_complete(instructions, payer, &all)
}

/// Assembles the request for one transaction of `instructions`, paid by
/// `payer` and signed by `signers`. The payer signs too: where he is not
/// among the signers, the request names him behind them.
///
/// The signers must cover every account that an instruction lists as a
/// signer, the payer aside, and must name no address that the transaction
/// does not need: a transaction with a missing or an unrelated signer cannot
/// be signed. [`can_sign`] decides that.
pub fn transaction_from_instructions(
    instructions: Vec<Instruction>,
    payer: Address,
    signers: Vec<Address>,
) -> (request: TransactionRequest)
    requires
        signers_suffice(instruction_views(instructions@), payer, signers@),
    ensures
        request@ == (TransactionRequestView {
            instructions: instruction_views(instructions@),
            payer,
            signers: with_payer(signers@, payer),
        }),
        request@.well_signed(),
{
    let all = add_payer(&signers, &payer);
    TransactionRequest { instructions, payer, signers: all }
}

} // verus!
