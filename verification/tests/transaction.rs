use ledger_harness::address::Address;
use ledger_harness::instruction::{AccountMeta, Instruction};
use ledger_harness::transaction::{
    add_payer, can_sign, contains_address, is_required_signer, lists_signer, signatures_complete,
    transaction_from_instructions, TransactionRequest,
};

fn addr(byte: u8) -> Address {
    Address::new([byte; 32])
}

fn instruction(accounts: Vec<AccountMeta>) -> Instruction {
    Instruction { program_id: addr(100), accounts, data: vec![1, 2, 3] }
}

fn transfer_like() -> Instruction {
    instruction(vec![
        AccountMeta::new(addr(1), true, true),
        AccountMeta::new(addr(2), false, true),
        AccountMeta::new(addr(3), true, false),
    ])
}

#[test]
fn address_equality_is_by_bytes() {
    let mut bytes = [7u8; 32];
    assert_eq!(Address::new(bytes), addr(7));
    bytes[31] = 8;
    assert_ne!(Address::new(bytes), addr(7));
    assert_eq!(Address::new(bytes).to_bytes(), bytes);
}

#[test]
fn account_meta_new_keeps_its_fields() {
    assert_eq!(
        AccountMeta::new(addr(1), true, false),
        AccountMeta { pubkey: addr(1), is_signer: true, is_writable: false }
    );
}

#[test]
fn contains_address_finds_what_is_listed() {
    let list = vec![addr(1), addr(2)];
    assert!(contains_address(&list, &addr(1)));
    assert!(contains_address(&list, &addr(2)));
    assert!(!contains_address(&list, &addr(3)));
    assert!(!contains_address(&vec![], &addr(1)));
}

#[test]
fn lists_signer_looks_at_the_signer_flag() {
    let ix = transfer_like();
    assert!(lists_signer(&ix, &addr(1)));
    assert!(!lists_signer(&ix, &addr(2)));
    assert!(lists_signer(&ix, &addr(3)));
    assert!(!lists_signer(&ix, &addr(4)));
}

#[test]
fn payer_and_listed_signers_are_required() {
    let instructions = vec![transfer_like(), instruction(vec![AccountMeta::new(addr(5), true, false)])];
    assert!(is_required_signer(&instructions, &addr(9), &addr(9)));
    assert!(is_required_signer(&instructions, &addr(9), &addr(1)));
    assert!(is_required_signer(&instructions, &addr(9), &addr(3)));
    assert!(is_required_signer(&instructions, &addr(9), &addr(5)));
    assert!(!is_required_signer(&instructions, &addr(9), &addr(2)));
    assert!(!is_required_signer(&instructions, &addr(9), &addr(6)));
}

#[test]
fn signatures_are_complete_with_exactly_the_required_signers() {
    let instructions = vec![transfer_like()];
    assert!(signatures_complete(&instructions, &addr(9), &vec![addr(9), addr(1), addr(3)]));
    assert!(signatures_complete(&instructions, &addr(9), &vec![addr(3), addr(1), addr(9)]));
    assert!(signatures_complete(&instructions, &addr(1), &vec![addr(1), addr(3)]));
    assert!(signatures_complete(&instructions, &addr(1), &vec![addr(1), addr(3), addr(1)]));
}

#[test]
fn a_missing_payer_is_incomplete() {
    let instructions = vec![transfer_like()];
    assert!(!signatures_complete(&instructions, &addr(9), &vec![addr(1), addr(3)]));
}

#[test]
fn a_missing_signer_is_incomplete() {
    let instructions = vec![transfer_like()];
    assert!(!signatures_complete(&instructions, &addr(9), &vec![addr(9), addr(1)]));
    assert!(!signatures_complete(&instructions, &addr(9), &vec![addr(9)]));
    assert!(!signatures_complete(&instructions, &addr(9), &vec![]));
}

#[test]
fn an_unrelated_signer_is_incomplete() {
    let instructions = vec![transfer_like()];
    assert!(!signatures_complete(&instructions, &addr(9), &vec![addr(9), addr(1), addr(3), addr(2)]));
    assert!(!signatures_complete(&vec![], &addr(9), &vec![addr(9), addr(1)]));
}

#[test]
fn no_instructions_need_the_payer_alone() {
    assert!(signatures_complete(&vec![], &addr(9), &vec![addr(9)]));
}

#[test]
fn transaction_from_instructions_keeps_signers_that_name_the_payer() {
    let instructions = vec![transfer_like()];
    let signers = vec![addr(9), addr(1), addr(3)];
    assert!(can_sign(&instructions, &addr(9), &signers));
    let request = transaction_from_instructions(instructions.clone(), addr(9), signers.clone());
    assert_eq!(request, TransactionRequest { instructions, payer: addr(9), signers });
}

#[test]
fn transaction_from_instructions_adds_a_missing_payer() {
    let instructions = vec![transfer_like()];
    let signers = vec![addr(1), addr(3)];
    assert!(can_sign(&instructions, &addr(9), &signers));
    let request = transaction_from_instructions(instructions.clone(), addr(9), signers);
    assert_eq!(
        request,
        TransactionRequest { instructions, payer: addr(9), signers: vec![addr(1), addr(3), addr(9)] }
    );
    assert!(signatures_complete(&request.instructions, &request.payer, &request.signers));
}

#[test]
fn transaction_without_instructions_and_signers_is_signed_by_the_payer() {
    assert!(can_sign(&vec![], &addr(9), &vec![]));
    let request = transaction_from_instructions(vec![], addr(9), vec![]);
    assert_eq!(
        request,
        TransactionRequest { instructions: vec![], payer: addr(9), signers: vec![addr(9)] }
    );
}

#[test]
fn add_payer_leaves_a_payer_that_is_named() {
    assert_eq!(add_payer(&vec![addr(1), addr(2)], &addr(2)), vec![addr(1), addr(2)]);
    assert_eq!(add_payer(&vec![addr(1), addr(2)], &addr(3)), vec![addr(1), addr(2), addr(3)]);
    assert_eq!(add_payer(&vec![], &addr(3)), vec![addr(3)]);
}

#[test]
fn can_sign_refuses_missing_and_unrelated_signers() {
    let instructions = vec![transfer_like()];
    // the payer may be left out
    assert!(can_sign(&instructions, &addr(9), &vec![addr(1), addr(3)]));
    assert!(can_sign(&instructions, &addr(1), &vec![addr(3)]));
    // a signer that an instruction lists may not
    assert!(!can_sign(&instructions, &addr(9), &vec![addr(1)]));
    assert!(!can_sign(&instructions, &addr(9), &vec![addr(9), addr(3)]));
    // nor may an address that the transaction does not need be named
    assert!(!can_sign(&instructions, &addr(9), &vec![addr(1), addr(3), addr(2)]));
    assert!(!can_sign(&vec![], &addr(9), &vec![addr(1)]));
}
