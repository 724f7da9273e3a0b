//! Creating accounts on a running ledger: the transactions that each helper
//! submits, and the order of the work between the library and its caller.
//!
//! The caller talks to the runtime. It starts a creation with
//! [`Event::Begin`], performs each [`Action`] that [`advance`] answers with,
//! and reports what came of it as the next event, until the answer is
//! [`Action::Finish`].

use crate::address::Address;
use crate::instruction::{
    associated_account_creation, create_account_instruction,
    create_associated_account_instruction, initialize_account_instruction,
    initialize_mint_instruction, system_create_account, token_initialize_account,
    token_initialize_mint, InstructionView,
};
use crate::rent::{minimum_balance, rent_exempt_minimum};
use crate::token::{
    associated_token_address, get_associated_token_address, token_program, token_program_id,
    MINT_LEN, TOKEN_ACCOUNT_LEN,
};
use crate::transaction::{
    fully_signed, instruction_views, transaction_from_instructions, with_payer,
    TransactionRequest, TransactionRequestView,
};
use vstd::prelude::*;

verus! {

/// The transactions of one creation, in the order in which they are
/// submitted. Each is signed with a blockhash fetched just before it.
#[derive(Clone, Debug, PartialEq, Eq)]
pub struct CreationPlan {
    pub steps: Vec<TransactionRequest>,
}

impl View for CreationPlan {
    type V = Seq<TransactionRequestView>;

    open spec fn view(&self) -> Seq<TransactionRequestView> {
        Seq::new(self.steps@.len(), |i: int| self.steps@[i]@)
    }
}

impl CreationPlan {
    /// Whether every transaction of the plan names exactly the signers that it
    /// needs.
    pub open spec fn well_signed(&self) -> bool {
        forall|i: int| 0 <= i < self@.len() ==> (#[trigger] self@[i]).well_signed()
    }
}

/// The request for a transaction of one instruction.
pub open spec fn single(instruction: InstructionView, payer: Address, signers: Seq<Address>)
    -> TransactionRequestView {
    TransactionRequestView { instructions: seq![instruction], payer, signers }
}

/// A transaction of one instruction is fully signed where the signers are the
/// payer and the signers that the instruction lists.
proof fn lemma_single_fully_signed(instruction: InstructionView, payer: Address, signers: Seq<Address>)
    requires
        forall|address: Address|
            (address == payer || instruction.wants_signature(address)) <==> #[trigger] signers.contains(
                address,
            ),
    ensures
        fully_signed(seq![instruction], payer, signers),
        with_payer(signers, payer) == signers,
{
    assert(signers.contains(payer));
    let instructions = seq![instruction];
    assert forall|address: Address|
        crate::transaction::needs_signature(instructions, payer, address)
            <==> #[trigger] signers.contains(address) by {
        assert(instructions[0] == instruction);
    }
}

/// The plan that creates the account `to` with `space` bytes of data, owned
/// by `owner`, funded by `from` with `lamports`: one transaction, paid by
/// `from` and signed by both.
pub fn create_account(
    from: &Address,
    to: &Address,
    lamports: u64,
    space: u64,
    owner: &Address,
) -> (plan: CreationPlan)
    ensures
        plan@ == seq![
            single(
                create_account_instruction(*from, *to, lamports, space, *owner),
                *from,
                seq![*from, *to],
            ),
        ],
        plan.well_signed(),
{
    let create = system_create_account(from, to, lamports, space, owner);
    let instructions = vec![create];
    let signers = vec![*from, *to];
    proof {
        assert(instruction_views(instructions@) == seq![create@]);
        assert(signers@ == seq![*from, *to]);
        assert(signers@[0] == *from && signers@[1] == *to);
        lemma_single_fully_signed(create@, *from, signers@);
    }
    let request = transaction_from_instructions(instructions, *from, signers);
    let plan = CreationPlan { steps: vec![request] };
    assert(plan@ == seq![request@]);
    plan
}

/// The plan that creates a mint at `mint`: first the account, owned by the
/// token program, with the length of a packed mint and the balance that keeps
/// it exempt from rent, paid by `payer` and signed by `payer` and `mint`;
/// then, in a transaction of its own signed by `payer`, its initialization
/// with the two authorities and the decimals.
pub fn create_token_mint(
    mint: &Address,
    authority: &Address,
    freeze_authority: Option<Address>,
    decimals: u8,
    payer: &Address,
) -> (plan: CreationPlan)
    ensures
        plan@ == seq![
            single(
                create_account_instruction(
                    *payer,
                    *mint,
                    rent_exempt_minimum(MINT_LEN as nat),
                    MINT_LEN as u64,
                    token_program(),
                ),
                *payer,
                seq![*payer, *mint],
            ),
            single(
                initialize_mint_instruction(*mint, *authority, freeze_authority, decimals),
                *payer,
                seq![*payer],
            ),
        ],
        plan.well_signed(),
        rent_exempt_minimum(MINT_LEN as nat) == 1_461_600,
{
    let lamports = minimum_balance(MINT_LEN);
    let owner = token_program_id();
    let create = system_create_account(payer, mint, lamports, MINT_LEN as u64, &owner);
    let initialize = token_initialize_mint(mint, authority, &freeze_authority, decimals);
    let plan = two_steps(create, initialize, payer, mint);
    plan
}

/// The plan that creates a token account at `account` for `mint`, owned by
/// `authority`: first the account, owned by the token program, with the
/// length of a packed token account and the balance that keeps it exempt from
/// rent, paid by `payer` and signed by `payer` and `account`; then, in a
/// transaction of its own signed by `payer`, its initialization.
pub fn create_token_account(
    account: &Address,
    authority: &Address,
    mint: &Address,
    payer: &Address,
) -> (plan: CreationPlan)
    ensures
        plan@ == seq![
            single(
                create_account_instruction(
                    *payer,
                    *account,
                    rent_exempt_minimum(TOKEN_ACCOUNT_LEN as nat),
                    TOKEN_ACCOUNT_LEN as u64,
                    token_program(),
                ),
                *payer,
                seq![*payer, *account],
            ),
            single(
                initialize_account_instruction(*account, *mint, *authority),
                *payer,
                seq![*payer],
            ),
        ],
        plan.well_signed(),
        rent_exempt_minimum(TOKEN_ACCOUNT_LEN as nat) == 2_039_280,
{
    let lamports = minimum_balance(TOKEN_ACCOUNT_LEN);
    let owner = token_program_id();
    let create = system_create_account(payer, account, lamports, TOKEN_ACCOUNT_LEN as u64, &owner);
    let initialize = token_initialize_account(account, mint, authority);
    let plan = two_steps(create, initialize, payer, account);
    plan
}

/// The plan of an account creation followed by an initialization that wants
/// no signature: two transactions paid by `payer`, the first signed by
/// `payer` and the new account, the second by `payer`.
fn two_steps(
    create: crate::instruction::Instruction,
    initialize: crate::instruction::Instruction,
    payer: &Address,
    created: &Address,
) -> (plan: CreationPlan)
    requires
        forall|a: Address| create@.wants_signature(a) <==> a == *payer || a == *created,
        initialize@.unsigned(),
    ensures
        plan@ == seq![
            single(create@, *payer, seq![*payer, *created]),
            single(initialize@, *payer, seq![*payer]),
        ],
        plan.well_signed(),
{
    let first_instructions = vec![create];
    let first_signers = vec![*payer, *created];
    let second_instructions = vec![initialize];
    let second_signers = vec![*payer];
    proof {
        assert(instruction_views(first_instructions@) == seq![create@]);
        assert(instruction_views(second_instructions@) == seq![initialize@]);
        assert(first_signers@ == seq![*payer, *created]);
        assert(second_signers@ == seq![*payer]);
        assert(first_signers@[0] == *payer && first_signers@[1] == *created);
        assert(second_signers@[0] == *payer);
        lemma_single_fully_signed(create@, *payer, first_signers@);
        assert forall|a: Address| !initialize@.wants_signature(a) by {}
        lemma_single_fully_signed(initialize@, *payer, second_signers@);
    }
    let first = transaction_from_instructions(first_instructions, *payer, first_signers);
    let second = transaction_from_instructions(second_instructions, *payer, second_signers);
    let plan = CreationPlan { steps: vec![first, second] };
    assert(plan@ == seq![first@, second@]);
    plan
}

/// The plan that creates the token account associated with `account` for
/// `mint`, and the address of that token account: one transaction, paid and
/// signed by `payer`, whose instruction names the returned address as the
/// account to create.
pub fn create_associated_token_account(
    account: &Address,
    mint: &Address,
    payer: &Address,
) -> (planned: (CreationPlan, Address))
    ensures
        planned.0@ == seq![
            single(
                create_associated_account_instruction(*payer, *account, *mint),
                *payer,
                seq![*payer],
            ),
        ],
        planned.0.well_signed(),
        planned.1 == associated_token_address(*account, *mint),
        create_associated_account_instruction(*payer, *account, *mint).accounts.len() > 1,
        create_associated_account_instruction(*payer, *account, *mint).accounts[1].pubkey
            == planned.1,
{
    let address = get_associated_token_address(account, mint);
    let create = associated_account_creation(payer, account, mint);
    let instructions = vec![create];
    let signers = vec![*payer];
    proof {
        assert(instruction_views(instructions@) == seq![create@]);
        assert(signers@ == seq![*payer]);
        assert(signers@[0] == *payer);
        lemma_single_fully_signed(create@, *payer, signers@);
    }
    let request = transaction_from_instructions(instructions, *payer, signers);
    let plan = CreationPlan { steps: vec![request] };
    assert(plan@ == seq![request@]);
    (plan, address)
}

/// Where a creation stands.
#[derive(Clone, Copy, Debug, PartialEq, Eq, Structural)]
pub enum Stage {
    /// Nothing was asked of the runtime yet.
    Start,
    /// The recent blockhash was asked for, for the transaction of this step.
    FetchingBlockhash { step: usize },
    /// The transaction of this step was submitted.
    Submitting { step: usize },
    /// The creation is over.
    Finished,
}

/// What the caller reports.
#[derive(Debug, PartialEq, Eq)]
pub enum Event<H, E> {
    /// The creation is to start.
    Begin,
    /// The fetch of the recent blockhash ended.
    Blockhash(Result<H, E>),
    /// The runtime processed the submitted transaction or refused it.
    Processed(Result<(), E>),
}

/// What the caller is to do next.
#[derive(Debug, PartialEq, Eq)]
pub enum Action<H, E> {
    /// Fetch the recent blockhash.
    FetchBlockhash,
    /// Sign the transaction of this step of the plan with this blockhash and
    /// submit it.
    Submit { step: usize, blockhash: H },
    /// Stop, with this result of the whole creation.
    Finish(Result<(), E>),
}

/// The stage and the action that follow `event` at `stage`, for a plan of
/// `steps` transactions; `None` where the event is not awaited at that stage.
///
/// Any error ends the creation with that error. Without one, the
/// transactions are submitted one after the other in the order of the plan.
/// Before each of them the recent blockhash is fetched anew, so that no
/// transaction is signed with a blockhash older than the transaction before
/// it; the creation ends well after the last. A plan without transactions
/// ends well once the blockhash was fetched.
pub open spec fn next<H, E>(steps: nat, stage: Stage, event: Event<H, E>) -> Option<
    (Stage, Action<H, E>),
> {
    match (stage, event) {
        (Stage::Start, Event::Begin) => Some(
            (Stage::FetchingBlockhash { step: 0 }, Action::FetchBlockhash),
        ),
        (Stage::FetchingBlockhash { step }, Event::Blockhash(Err(e))) => if step < steps || step
            == 0 {
            Some((Stage::Finished, Action::Finish(Err(e))))
        } else {
            None
        },
        (Stage::FetchingBlockhash { step }, Event::Blockhash(Ok(blockhash))) => if step < steps {
            Some((Stage::Submitting { step }, Action::Submit { step, blockhash }))
        } else if step == 0 {
            Some((Stage::Finished, Action::Finish(Ok(()))))
        } else {
            None
        },
        (Stage::Submitting { step }, Event::Processed(Err(e))) => if step < steps {
            Some((Stage::Finished, Action::Finish(Err(e))))
        } else {
            None
        },
        (Stage::Submitting { step }, Event::Processed(Ok(_))) => if step + 1 < steps {
            Some((Stage::FetchingBlockhash { step: (step + 1) as usize }, Action::FetchBlockhash))
        } else if step < steps {
            Some((Stage::Finished, Action::Finish(Ok(()))))
        } else {
            None
        },
        _ => None,
    }
}

/// Answers `event` at `stage` with the stage that follows and the action that
/// the caller is to perform, or with `None` where the event is not awaited at
/// that stage.
pub fn advance<H, E>(
    plan: &CreationPlan,
    stage: Stage,
    event: Event<H, E>,
) -> (answer: Option<(Stage, Action<H, E>)>)
    ensures
        answer == next(plan@.len(), stage, event),
        answer matches Some((_, Action::Submit { step, .. })) ==> step < plan@.len(),
{
    let steps = plan.steps.len();
    match stage {
        Stage::Start => match event {
            Event::Begin => Some((Stage::FetchingBlockhash { step: 0 }, Action::FetchBlockhash)),
            _ => None,
        },
        Stage::FetchingBlockhash { step } => match event {
            Event::Blockhash(Err(e)) => {
                if step < steps || step == 0 {
                    Some((Stage::Finished, Action::Finish(Err(e))))
                } else {
                    None
                }
            },
            Event::Blockhash(Ok(blockhash)) => {
                if step < steps {
                    Some((Stage::Submitting { step }, Action::Submit { step, blockhash }))
                } else if step == 0 {
                    Some((Stage::Finished, Action::Finish(Ok(()))))
                } else {
                    None
                }
            },
            _ => None,
        },
        Stage::Submitting { step } => match event {
            Event::Processed(Err(e)) => {
                if step < steps {
                    Some((Stage::Finished, Action::Finish(Err(e))))
                } else {
                    None
                }
            },
            Event::Processed(Ok(_)) => {
                if step < steps {
                    if step + 1 < steps {
                        Some((Stage::FetchingBlockhash { step: step + 1 }, Action::FetchBlockhash))
                    } else {
                        Some((Stage::Finished, Action::Finish(Ok(()))))
                    }
                } else {
                    None
                }
            },
            _ => None,
        },
        Stage::Finished => None,
    }
}

/// A transaction that the runtime refuses ends the creation at once, with the
/// runtime's error as the result: nothing more is submitted, and the failure
/// is not turned into a success.
pub proof fn lemma_refusal_is_returned<H, E>(steps: nat, step: usize, error: E)
    requires
        step < steps,
    ensures
        next(steps, Stage::Submitting { step }, Event::<H, E>::Processed(Err(error))) == Some(
            (Stage::Finished, Action::<H, E>::Finish(Err(error))),
        ),
{
}

/// A creation ends well only after the last transaction of its plan was
/// processed, or, for an empty plan, after the blockhash was fetched.
pub proof fn lemma_success_needs_every_step<H, E>(steps: nat, stage: Stage, event: Event<H, E>)
    requires
        next(steps, stage, event) matches Some((_, Action::Finish(Ok(_)))),
    ensures
        (stage == (Stage::FetchingBlockhash { step: 0 }) && steps == 0) || (stage
            matches Stage::Submitting { step } && step + 1 == steps && event
            matches Event::Processed(Ok(_))),
{
}

/// Each submission carries the blockhash of the fetch just before it: a
/// transaction is only ever submitted in answer to a fetched blockhash, for
/// the step that the blockhash was fetched for, and with that blockhash.
pub proof fn lemma_submission_carries_fresh_blockhash<H, E>(
    steps: nat,
    stage: Stage,
    event: Event<H, E>,
)
    requires
        next(steps, stage, event) matches Some((_, Action::Submit { .. })),
    ensures
        stage matches Stage::FetchingBlockhash { step } && event matches Event::Blockhash(
            Ok(fetched),
        ) && next(steps, stage, event) == Some(
            (Stage::Submitting { step }, Action::<H, E>::Submit { step, blockhash: fetched }),
        ),
{
}

/// Between two transactions the blockhash is fetched again: a processed
/// transaction that is not the last of the plan is answered with the fetch
/// for the step that follows, never with a submission.
pub proof fn lemma_blockhash_fetched_again<H, E>(steps: nat, step: usize)
    requires
        step + 1 < steps,
        steps <= usize::MAX,
    ensures
        next(steps, Stage::Submitting { step }, Event::<H, E>::Processed(Ok(()))) == Some(
            (Stage::FetchingBlockhash { step: (step + 1) as usize }, Action::<H, E>::FetchBlockhash),
        ),
{
}

/// The result of going through the steps `from`, `from + 1`, ... of a plan of
/// `steps` transactions, where the fetch before step `i` ends with
/// `blockhashes[i]` and the runtime answers the transaction of step `i` with
/// `responses[i]`: the first error met, or success where there is none.
pub open spec fn first_failure<H, E>(
    blockhashes: Seq<Result<H, E>>,
    responses: Seq<Result<(), E>>,
    from: nat,
    steps: nat,
) -> Result<(), E>
    decreases steps - from,
{
    if from >= steps || from >= blockhashes.len() || from >= responses.len() {
        Ok(())
    } else {
        match blockhashes[from as int] {
            Err(e) => Err(e),
            Ok(_) => match responses[from as int] {
                Err(e) => Err(e),
                Ok(_) => first_failure(blockhashes, responses, from + 1, steps),
            },
        }
    }
}

/// The result of a whole creation: the first error among the blockhash
/// fetches and the answers to the transactions, in the order in which they
/// happen, else success. A plan without transactions still fetches the
/// blockhash once.
pub open spec fn creation_result<H, E>(
    steps: nat,
    blockhashes: Seq<Result<H, E>>,
    responses: Seq<Result<(), E>>,
) -> Result<(), E> {
    if steps == 0 {
        match blockhashes[0] {
            Err(e) => Err(e),
            Ok(_) => Ok(()),
        }
    } else {
        first_failure(blockhashes, responses, 0, steps)
    }
}

/// Where a caller ends that, from the blockhash fetch for step `step` on,
/// reports the outcome of each action and performs the action that [`next`]
/// answers with: the result that it is told to finish with. `None` where it
/// is never told to finish.
pub open spec fn driven_from<H, E>(
    steps: nat,
    step: usize,
    blockhashes: Seq<Result<H, E>>,
    responses: Seq<Result<(), E>>,
) -> Option<Result<(), E>>
    decreases steps - step,
{
    if step >= blockhashes.len() {
        None
    } else {
        match next(
            steps,
            Stage::FetchingBlockhash { step },
            Event::<H, E>::Blockhash(blockhashes[step as int]),
        ) {
            Some((_, Action::Finish(result))) => Some(result),
            Some((submitting, Action::Submit { step: submitted, blockhash })) => if submitted
                >= responses.len() {
                None
            } else {
                match next(
                    steps,
                    submitting,
                    Event::<H, E>::Processed(responses[submitted as int]),
                ) {
                    Some((_, Action::Finish(result))) => Some(result),
                    Some((Stage::FetchingBlockhash { step: following }, Action::FetchBlockhash)) => if step
                        < following <= steps {
                        driven_from(steps, following, blockhashes, responses)
                    } else {
                        None
                    },
                    _ => None,
                }
            },
            _ => None,
        }
    }
}

/// Where a caller ends that starts a creation and then goes on as in
/// [`driven_from`].
pub open spec fn driven<H, E>(
    steps: nat,
    blockhashes: Seq<Result<H, E>>,
    responses: Seq<Result<(), E>>,
) -> Option<Result<(), E>> {
    match next(steps, Stage::Start, Event::<H, E>::Begin) {
        Some((Stage::FetchingBlockhash { step }, Action::FetchBlockhash)) => driven_from(
            steps,
            step,
            blockhashes,
            responses,
        ),
        _ => None,
    }
}

/// From the fetch for any step of the plan on, the caller is led to the first
/// error among the outcomes that are left, or to success.
proof fn lemma_driven_from<H, E>(
    steps: nat,
    step: usize,
    blockhashes: Seq<Result<H, E>>,
    responses: Seq<Result<(), E>>,
)
    requires
        step < steps,
        steps <= blockhashes.len(),
        steps <= responses.len(),
        steps <= usize::MAX,
    ensures
        driven_from(steps, step, blockhashes, responses) == Some(
            first_failure(blockhashes, responses, step as nat, steps),
        ),
    decreases steps - step,
{
    let fetching = Stage::FetchingBlockhash { step };
    let fetched = next(steps, fetching, Event::<H, E>::Blockhash(blockhashes[step as int]));
    match blockhashes[step as int] {
        Err(e) => {
            assert(fetched == Some((Stage::Finished, Action::<H, E>::Finish(Err(e)))));
        },
        Ok(blockhash) => {
            assert(fetched == Some(
                (Stage::Submitting { step }, Action::<H, E>::Submit { step, blockhash }),
            ));
            let processed = next(
                steps,
                Stage::Submitting { step },
                Event::<H, E>::Processed(responses[step as int]),
            );
            match responses[step as int] {
                Err(e) => {
                    assert(processed == Some((Stage::Finished, Action::<H, E>::Finish(Err(e)))));
                },
                Ok(_) => {
                    if step + 1 < steps {
                        let following = (step + 1) as usize;
                        assert(processed == Some(
                            (
                                Stage::FetchingBlockhash { step: following },
                                Action::<H, E>::FetchBlockhash,
                            ),
                        ));
                        lemma_driven_from(steps, following, blockhashes, responses);
                    } else {
                        assert(processed == Some(
                            (Stage::Finished, Action::<H, E>::Finish(Ok(()))),
                        ));
                        assert(first_failure(blockhashes, responses, (step + 1) as nat, steps)
                            == Ok::<(), E>(()));
                    }
                },
            }
        },
    }
}

/// Led by the answers of [`next`], a caller always arrives at the result of
/// the whole creation: the first blockhash fetch that fails or the first
/// transaction that the runtime refuses ends it with that error, and it ends
/// well exactly when every fetch and every transaction of the plan went well.
pub proof fn lemma_creation_runs_to_its_result<H, E>(
    steps: nat,
    blockhashes: Seq<Result<H, E>>,
    responses: Seq<Result<(), E>>,
)
    requires
        0 < blockhashes.len(),
        steps <= blockhashes.len(),
        steps <= responses.len(),
        steps <= usize::MAX,
    ensures
        driven(steps, blockhashes, responses) == Some(
            creation_result(steps, blockhashes, responses),
        ),
{
    if steps > 0 {
        lemma_driven_from(steps, 0, blockhashes, responses);
    } else {
        let fetched = next(
            steps,
            Stage::FetchingBlockhash { step: 0 },
            Event::<H, E>::Blockhash(blockhashes[0]),
        );
        match blockhashes[0] {
            Err(e) => {
                assert(fetched == Some((Stage::Finished, Action::<H, E>::Finish(Err(e)))));
            },
            Ok(_) => {
                assert(fetched == Some((Stage::Finished, Action::<H, E>::Finish(Ok(())))));
            },
        }
    }
}

} // verus!
