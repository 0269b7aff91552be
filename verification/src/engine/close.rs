//! Closing an order: first the claim to its reward, then the cancellation, then
//! the payout.
//!
//! The sequence matters. A claim can be registered only while the order rests;
//! cancelling first loses the reward for good. Each step that took effect is
//! recorded in the order, so a closing that failed half way is resumed at the
//! step that failed.
use crate::engine::receipt::Receipt;
use crate::engine::state::ActiveOrder;
use crate::error::EngineError;
use crate::words::{Address, B256};
use vstd::prelude::*;

verus! {

/// A transaction of the closing.
#[derive(Debug, Clone, Copy, PartialEq, Eq, Structural)]
pub enum CloseStep {
    /// Put the wallet on record as the one to be rewarded.
    Register,
    /// Take the order off the book, which returns what it locked and earned.
    Cancel,
    /// Pay the reward out.
    Distribute,
}

/// What happened to the closing.
#[derive(Debug, Clone, Copy)]
pub enum CloseEvent {
    Begin,
    /// The transaction of a step was sent.
    Sent(CloseStep, B256),
    /// The transaction of a step was included.
    Included(CloseStep, Receipt),
}

/// What the closing asks for next.
#[derive(Debug, Clone, Copy)]
pub enum CloseAction {
    /// Send `registerClaimant(book, order)`.
    Register { book_id: B256, order: B256 },
    /// Send `cancel(token0, token1, epoch, order)`.
    Cancel { epoch: u64, order: B256 },
    /// Send `distributeRewards(book, order, token)`.
    Distribute { book_id: B256, order: B256, token: Address },
    /// Wait for the receipt of the transaction that was sent.
    AwaitReceipt,
    /// Nothing: the order is closed.
    Closed,
}

/// The step that an order needs next.
pub open spec fn pending_step(order: ActiveOrder) -> CloseStep {
    if !order.claimant_registered {
        CloseStep::Register
    } else if !order.cancelled {
        CloseStep::Cancel
    } else {
        CloseStep::Distribute
    }
}

/// The transaction of a step.
pub open spec fn step_action(order: ActiveOrder, book_id: B256, step: CloseStep) -> CloseAction {
    match step {
        CloseStep::Register => CloseAction::Register { book_id, order: order.packed },
        CloseStep::Cancel => CloseAction::Cancel { epoch: order.epoch, order: order.packed },
        CloseStep::Distribute => CloseAction::Distribute {
            book_id,
            order: order.packed,
            token: order.sold_token,
        },
    }
}

/// The error of a step whose transaction failed.
pub open spec fn step_failure(step: CloseStep) -> EngineError {
    match step {
        CloseStep::Register => EngineError::RegisterFailed,
        CloseStep::Cancel => EngineError::CancelFailed,
        CloseStep::Distribute => EngineError::DistributeFailed,
    }
}

/// The order after an event. Of a cancellation only one that took effect is
/// recorded; of the other steps the transaction is recorded when it is sent.
pub open spec fn order_after(order: ActiveOrder, event: CloseEvent) -> ActiveOrder {
    match event {
        CloseEvent::Begin => order,
        CloseEvent::Sent(step, hash) => if step == CloseStep::Cancel {
            order
        } else {
            ActiveOrder { last_tx_hash: Some(hash), ..order }
        },
        CloseEvent::Included(step, receipt) => if !receipt.status {
            order
        } else {
            match step {
                CloseStep::Register => ActiveOrder { claimant_registered: true, ..order },
                CloseStep::Cancel => ActiveOrder {
                    cancelled: true,
                    last_tx_hash: Some(receipt.transaction_hash),
                    ..order
                },
                CloseStep::Distribute => order,
            }
        },
    }
}

/// What follows from an event.
pub open spec fn close_reply(order: ActiveOrder, book_id: B256, event: CloseEvent) -> Result<
    CloseAction,
    EngineError,
> {
    let now = order_after(order, event);
    match event {
        CloseEvent::Begin => Ok(step_action(now, book_id, pending_step(now))),
        CloseEvent::Sent(_, _) => Ok(CloseAction::AwaitReceipt),
        CloseEvent::Included(step, receipt) => if !receipt.status {
            Err(step_failure(step))
        } else if step == CloseStep::Distribute {
            Ok(CloseAction::Closed)
        } else {
            Ok(step_action(now, book_id, pending_step(now)))
        },
    }
}

/// The transaction that an order needs next.
fn next_action(order: &ActiveOrder, book_id: B256) -> (action: CloseAction)
    ensures
        action == step_action(*order, book_id, pending_step(*order)),
{
    if !order.claimant_registered {
        CloseAction::Register { book_id, order: order.packed }
    } else if !order.cancelled {
        CloseAction::Cancel { epoch: order.epoch, order: order.packed }
    } else {
        CloseAction::Distribute { book_id, order: order.packed, token: order.sold_token }
    }
}

/// Takes the closing of an order one step further. `book_id` names the book of
/// the epoch in which the order was placed.
pub fn close_active_order(order: &mut ActiveOrder, book_id: B256, event: CloseEvent) -> (action:
    Result<CloseAction, EngineError>)
    ensures
        *final(order) == order_after(*old(order), event),
        action == close_reply(*old(order), book_id, event),
{
    match event {
        CloseEvent::Begin => Ok(next_action(order, book_id)),
        CloseEvent::Sent(step, hash) => {
            match step {
                CloseStep::Cancel => {},
                _ => {
                    order.last_tx_hash = Some(hash);
                },
            }
            Ok(CloseAction::AwaitReceipt)
        },
        CloseEvent::Included(step, receipt) => {
            match step {
                CloseStep::Register => {
                    if !receipt.status {
                        return Err(EngineError::RegisterFailed);
                    }
                    order.claimant_registered = true;
                    Ok(next_action(order, book_id))
                },
                CloseStep::Cancel => {
                    if !receipt.status {
                        return Err(EngineError::CancelFailed);
                    }
                    order.last_tx_hash = Some(receipt.transaction_hash);
                    order.cancelled = true;
                    Ok(next_action(order, book_id))
                },
                CloseStep::Distribute => {
                    if !receipt.status {
                        return Err(EngineError::DistributeFailed);
                    }
                    Ok(CloseAction::Closed)
                },
            }
        },
    }
}

/// A transaction is asked for only in its turn: a claim only for an order that
/// has none, a cancellation only for an order whose claim is registered and that
/// still rests, a payout only for an order that is registered and cancelled. So
/// no reward is lost to an early cancellation.
pub proof fn law_claim_comes_before_cancel(order: ActiveOrder, book_id: B256, event: CloseEvent)
    ensures
        ({
            let now = order_after(order, event);
            match close_reply(order, book_id, event) {
                Ok(CloseAction::Register { book_id: b, order: o }) => {
                    !now.claimant_registered && b == book_id && o == order.packed
                },
                Ok(CloseAction::Cancel { epoch, order: o }) => {
                    now.claimant_registered && !now.cancelled && epoch == order.epoch && o
                        == order.packed
                },
                Ok(CloseAction::Distribute { book_id: b, order: o, token }) => {
                    now.claimant_registered && now.cancelled && b == book_id && o == order.packed
                        && token == order.sold_token
                },
                _ => true,
            }
        }),
{
}

/// Nothing that happens to a closing alters which order it closes, and a step
/// that took effect stays recorded.
pub proof fn law_closing_only_gains(order: ActiveOrder, event: CloseEvent)
    ensures
        ({
            let now = order_after(order, event);
            &&& now.packed == order.packed
            &&& now.epoch == order.epoch
            &&& now.sold_token == order.sold_token
            &&& order.claimant_registered ==> now.claimant_registered
            &&& order.cancelled ==> now.cancelled
        }),
{
}

/// A closing that failed is resumed at the step that failed, and no step that
/// took effect is repeated.
pub proof fn law_failed_closing_resumes(order: ActiveOrder, hash: B256, receipt: Receipt)
    requires
        !receipt.status,
    ensures
        ({
            let step = pending_step(order);
            let sent = order_after(order, CloseEvent::Sent(step, hash));
            let failed = order_after(sent, CloseEvent::Included(step, receipt));
            pending_step(failed) == step
        }),
{
}

/// A step that takes effect is followed by the next one, and the payout by the
/// end: from a fresh order the closing registers, cancels, pays out and is done.
pub proof fn law_closing_runs_to_the_end(order: ActiveOrder, book_id: B256, receipt: Receipt)
    requires
        receipt.status,
    ensures
        ({
            let step = pending_step(order);
            let event = CloseEvent::Included(step, receipt);
            let now = order_after(order, event);
            match step {
                CloseStep::Register => close_reply(order, book_id, event) == Ok::<
                    CloseAction,
                    EngineError,
                >(
                    step_action(
                        now,
                        book_id,
                        if order.cancelled {
                            CloseStep::Distribute
                        } else {
                            CloseStep::Cancel
                        },
                    ),
                ),
                CloseStep::Cancel => close_reply(order, book_id, event) == Ok::<
                    CloseAction,
                    EngineError,
                >(step_action(now, book_id, CloseStep::Distribute)),
                CloseStep::Distribute => close_reply(order, book_id, event) == Ok::<
                    CloseAction,
                    EngineError,
                >(CloseAction::Closed),
            }
        }),
{
}

/// What became of the transaction of a step.
pub enum StepReply {
    /// It was sent, and no receipt came.
    Unconfirmed(B256),
    /// It was sent, and this receipt came.
    Included(B256, Receipt),
}

/// A closing that went as far as it could.
#[verifier::ext_equal]
pub struct Closing {
    /// The order with what is recorded of its closing.
    pub order: ActiveOrder,
    /// The transactions that were sent, in sequence.
    pub sent: Seq<CloseAction>,
    /// Closed, failed, or (`None`) left without an answer.
    pub ended: Option<Result<(), EngineError>>,
}

/// How a closing goes that was told `event`, where the transactions that it asks
/// for fare as `replies` says, one after the other. A transaction for which no
/// reply is left could not be sent.
pub open spec fn closing_outcome(
    order: ActiveOrder,
    book_id: B256,
    event: CloseEvent,
    replies: Seq<StepReply>,
) -> Closing
    decreases replies.len(),
{
    let now = order_after(order, event);
    let step = pending_step(now);
    match close_reply(order, book_id, event) {
        Err(error) => Closing { order: now, sent: Seq::empty(), ended: Some(Err(error)) },
        Ok(CloseAction::Closed) => Closing { order: now, sent: Seq::empty(), ended: Some(Ok(())) },
        Ok(CloseAction::AwaitReceipt) => Closing { order: now, sent: Seq::empty(), ended: None },
        Ok(action) => if replies.len() == 0 {
            Closing { order: now, sent: Seq::empty(), ended: None }
        } else {
            match replies[0] {
                StepReply::Unconfirmed(hash) => Closing {
                    order: order_after(now, CloseEvent::Sent(step, hash)),
                    sent: seq![action],
                    ended: None,
                },
                StepReply::Included(hash, receipt) => {
                    let rest = closing_outcome(
                        order_after(now, CloseEvent::Sent(step, hash)),
                        book_id,
                        CloseEvent::Included(step, receipt),
                        replies.skip(1),
                    );
                    Closing { sent: seq![action] + rest.sent, ..rest }
                },
            }
        },
    }
}

/// The transactions that close an order: the claim unless it is registered, the
/// cancellation unless it took effect, the payout.
pub open spec fn closing_plan(order: ActiveOrder, book_id: B256) -> Seq<CloseAction> {
    let register = step_action(order, book_id, CloseStep::Register);
    let cancel = step_action(order, book_id, CloseStep::Cancel);
    let distribute = step_action(order, book_id, CloseStep::Distribute);
    if order.claimant_registered && order.cancelled {
        seq![distribute]
    } else if order.claimant_registered {
        seq![cancel, distribute]
    } else if order.cancelled {
        seq![register, distribute]
    } else {
        seq![register, cancel, distribute]
    }
}

/// The transaction was included and took effect.
pub open spec fn took_effect(reply: StepReply) -> bool {
    reply matches StepReply::Included(_, receipt) && receipt.status
}

/// The transaction was included and did not take effect.
pub open spec fn had_no_effect(reply: StepReply) -> bool {
    reply matches StepReply::Included(_, receipt) && !receipt.status
}

/// However a closing fares, the transactions sent are the plan or a beginning of
/// it, and each took effect before the next was sent. It ends closed exactly when
/// every transaction of the plan took effect, and then the claim is registered and
/// the order cancelled; it fails exactly when the last one sent was included and
/// did not take effect. An order is never left cancelled without a claim, unless it
/// was so before.
pub proof fn law_closing_follows_the_plan(
    order: ActiveOrder,
    book_id: B256,
    replies: Seq<StepReply>,
)
    ensures
        ({
            let plan = closing_plan(order, book_id);
            let end = closing_outcome(order, book_id, CloseEvent::Begin, replies);
            let n = end.sent.len() as int;
            &&& n <= plan.len() && n <= replies.len()
            &&& end.sent == plan.take(n)
            &&& forall|i: int| 0 <= i < n - 1 ==> took_effect(#[trigger] replies[i])
            &&& end.ended == Some(Ok::<(), EngineError>(())) <==> (replies.len() >= plan.len()
                && forall|i: int| 0 <= i < plan.len() ==> took_effect(#[trigger] replies[i]))
            &&& end.ended == Some(Ok::<(), EngineError>(())) ==> end.order.claimant_registered
                && end.order.cancelled
            &&& (end.ended is Some && end.ended->0 is Err) <==> (n > 0 && had_no_effect(
                replies[n - 1],
            ))
            &&& order.reward_safe() ==> end.order.reward_safe()
        }),
{
    reveal_with_fuel(closing_outcome, 4);
    let plan = closing_plan(order, book_id);
    let end = closing_outcome(order, book_id, CloseEvent::Begin, replies);
    assert(end.sent =~= plan.take(end.sent.len() as int));
}

/// A closing that stopped early is taken up where it stopped: what is left of the
/// plan is the plan without the transactions that took effect, and the order is
/// still the same one.
pub proof fn law_closing_is_taken_up_again(
    order: ActiveOrder,
    book_id: B256,
    replies: Seq<StepReply>,
)
    ensures
        ({
            let plan = closing_plan(order, book_id);
            let end = closing_outcome(order, book_id, CloseEvent::Begin, replies);
            let n = end.sent.len() as int;
            let done = if n > 0 && !took_effect(replies[n - 1]) {
                n - 1
            } else {
                n
            };
            &&& end.ended != Some(Ok::<(), EngineError>(())) ==> closing_plan(end.order, book_id)
                == plan.skip(done)
            &&& end.order.packed == order.packed
            &&& end.order.epoch == order.epoch
            &&& end.order.sold_token == order.sold_token
        }),
{
    reveal_with_fuel(closing_outcome, 4);
    let plan = closing_plan(order, book_id);
    let end = closing_outcome(order, book_id, CloseEvent::Begin, replies);
    let n = end.sent.len() as int;
    let done = if n > 0 && !took_effect(replies[n - 1]) {
        n - 1
    } else {
        n
    };
    if end.ended != Some(Ok::<(), EngineError>(())) {
        assert(closing_plan(end.order, book_id) =~= plan.skip(done));
    }
}

/// What is left to do for the reward of an order that is already off the book.
#[derive(Debug, Clone, Copy, PartialEq, Eq, Structural)]
pub enum ClaimStage {
    Registering,
    Distributing,
    Claimed,
}

/// The transaction of a stage: `registerClaimant` for the order in its book, then
/// `distributeRewards` for the same order and the token it sold, then nothing.
pub open spec fn claim_request(
    stage: ClaimStage,
    book_id: B256,
    order: B256,
    sold_token: Address,
) -> CloseAction {
    match stage {
        ClaimStage::Registering => CloseAction::Register { book_id, order },
        ClaimStage::Distributing => CloseAction::Distribute { book_id, order, token: sold_token },
        ClaimStage::Claimed => CloseAction::Closed,
    }
}

/// The transaction that a claim asks for at a stage.
pub fn claim_action(
    stage: ClaimStage,
    book_id: B256,
    order: B256,
    sold_token: Address,
) -> (action: CloseAction)
    ensures
        action == claim_request(stage, book_id, order, sold_token),
{
    match stage {
        ClaimStage::Registering => CloseAction::Register { book_id, order },
        ClaimStage::Distributing => CloseAction::Distribute { book_id, order, token: sold_token },
        ClaimStage::Claimed => CloseAction::Closed,
    }
}

/// The stage of a claim after the receipt of its current transaction.
pub open spec fn claim_after(stage: ClaimStage, receipt: Receipt) -> Result<
    ClaimStage,
    EngineError,
> {
    match stage {
        ClaimStage::Registering => Ok(ClaimStage::Distributing),
        ClaimStage::Distributing => if receipt.status {
            Ok(ClaimStage::Claimed)
        } else {
            Err(EngineError::ClaimFailed)
        },
        ClaimStage::Claimed => Ok(ClaimStage::Claimed),
    }
}

/// The stage of a claim after the receipt of its current transaction: the
/// registration is followed by the payout whatever its receipt says, the payout
/// has to take effect.
pub fn claim_rewards(stage: ClaimStage, receipt: &Receipt) -> (next: Result<
    ClaimStage,
    EngineError,
>)
    ensures
        next == claim_after(stage, *receipt),
{
    match stage {
        ClaimStage::Registering => Ok(ClaimStage::Distributing),
        ClaimStage::Distributing => {
            if receipt.status {
                Ok(ClaimStage::Claimed)
            } else {
                Err(EngineError::ClaimFailed)
            }
        },
        ClaimStage::Claimed => Ok(ClaimStage::Claimed),
    }
}

/// How a claim goes from a stage: the transactions that were sent, in sequence,
/// and whether it was claimed, failed, or (`None`) was left without an answer. A
/// transaction that is answered by `None` was sent and got no receipt; one for
/// which no answer is left could not be sent.
pub open spec fn claim_outcome(
    stage: ClaimStage,
    book_id: B256,
    order: B256,
    sold_token: Address,
    answers: Seq<Option<Receipt>>,
) -> (Seq<CloseAction>, Option<Result<(), EngineError>>)
    decreases answers.len(),
{
    match claim_request(stage, book_id, order, sold_token) {
        CloseAction::Closed => (Seq::empty(), Some(Ok(()))),
        action => if answers.len() == 0 {
            (Seq::empty(), None)
        } else {
            match answers[0] {
                None => (seq![action], None),
                Some(receipt) => match claim_after(stage, receipt) {
                    Err(error) => (seq![action], Some(Err(error))),
                    Ok(next) => {
                        let rest = claim_outcome(
                            next,
                            book_id,
                            order,
                            sold_token,
                            answers.skip(1),
                        );
                        (seq![action] + rest.0, rest.1)
                    },
                },
            }
        },
    }
}

/// A claim sends `registerClaimant` for the order in its book first, and
/// `distributeRewards` for the same order and its sold token only once a receipt
/// of the first came; it sends nothing else, and no cancellation. It succeeds
/// exactly when the payout was included and took effect.
pub proof fn law_claim_registers_then_pays(
    book_id: B256,
    order: B256,
    sold_token: Address,
    answers: Seq<Option<Receipt>>,
)
    ensures
        ({
            let register = CloseAction::Register { book_id, order };
            let distribute = CloseAction::Distribute { book_id, order, token: sold_token };
            let (sent, ended) = claim_outcome(
                ClaimStage::Registering,
                book_id,
                order,
                sold_token,
                answers,
            );
            let registered = answers.len() >= 1 && answers[0] is Some;
            let paid = registered && answers.len() >= 2 && answers[1] is Some;
            &&& sent == (if answers.len() == 0 {
                Seq::empty()
            } else if registered && answers.len() >= 2 {
                seq![register, distribute]
            } else {
                seq![register]
            })
            &&& ended == (if !paid {
                None
            } else if answers[1]->0.status {
                Some(Ok::<(), EngineError>(()))
            } else {
                Some(Err(EngineError::ClaimFailed))
            })
        }),
{
    reveal_with_fuel(claim_outcome, 3);
    let (sent, ended) = claim_outcome(
        ClaimStage::Registering,
        book_id,
        order,
        sold_token,
        answers,
    );
    let register = CloseAction::Register { book_id, order };
    let distribute = CloseAction::Distribute { book_id, order, token: sold_token };
    if answers.len() >= 2 && answers[0] is Some {
        assert(sent =~= seq![register, distribute]);
    } else if answers.len() >= 1 {
        assert(sent =~= seq![register]);
    }
}

/// What a closing asks for at its beginning: the claim where none is registered,
/// else the cancellation where none took effect, else the payout; each for the
/// order itself, the cancellation in its epoch, the payout in the token it sold.
/// Asking changes nothing.
pub proof fn law_closing_begins_with_what_is_missing(order: ActiveOrder, book_id: B256)
    ensures
        order_after(order, CloseEvent::Begin) == order,
        !order.claimant_registered ==> close_reply(order, book_id, CloseEvent::Begin) == Ok::<
            CloseAction,
            EngineError,
        >(CloseAction::Register { book_id, order: order.packed }),
        order.claimant_registered && !order.cancelled ==> close_reply(
            order,
            book_id,
            CloseEvent::Begin,
        ) == Ok::<CloseAction, EngineError>(
            CloseAction::Cancel { epoch: order.epoch, order: order.packed },
        ),
        order.claimant_registered && order.cancelled ==> close_reply(
            order,
            book_id,
            CloseEvent::Begin,
        ) == Ok::<CloseAction, EngineError>(
            CloseAction::Distribute { book_id, order: order.packed, token: order.sold_token },
        ),
{
}

/// Sending a transaction asks for its receipt and records, for a claim or a payout,
/// its hash; for a cancellation, nothing. No step counts as done by being sent.
pub proof fn law_sending_is_not_success(
    order: ActiveOrder,
    book_id: B256,
    step: CloseStep,
    hash: B256,
)
    ensures
        ({
            let event = CloseEvent::Sent(step, hash);
            let now = order_after(order, event);
            &&& close_reply(order, book_id, event) == Ok::<CloseAction, EngineError>(
                CloseAction::AwaitReceipt,
            )
            &&& now.claimant_registered == order.claimant_registered
            &&& now.cancelled == order.cancelled
            &&& now.packed == order.packed
            &&& now.epoch == order.epoch
            &&& now.sold_token == order.sold_token
            &&& step is Cancel ==> now.last_tx_hash == order.last_tx_hash
            &&& !(step is Cancel) ==> now.last_tx_hash == Some(hash)
        }),
{
}

/// A transaction that was included without effect changes nothing and fails the
/// closing with the error of its own step.
pub proof fn law_failed_step_is_named(
    order: ActiveOrder,
    book_id: B256,
    step: CloseStep,
    receipt: Receipt,
)
    requires
        !receipt.status,
    ensures
        order_after(order, CloseEvent::Included(step, receipt)) == order,
        ({
            let reply = close_reply(order, book_id, CloseEvent::Included(step, receipt));
            &&& step is Register ==> reply == Err::<CloseAction, EngineError>(
                EngineError::RegisterFailed,
            )
            &&& step is Cancel ==> reply == Err::<CloseAction, EngineError>(
                EngineError::CancelFailed,
            )
            &&& step is Distribute ==> reply == Err::<CloseAction, EngineError>(
                EngineError::DistributeFailed,
            )
        }),
{
}

/// A transaction that took effect sets the mark of its own step and no other; a
/// cancellation is recorded with the hash of its receipt. After a claim or a
/// cancellation the closing goes on as if it began with the order as it now stands;
/// after the payout it is over.
pub proof fn law_successful_step_is_recorded(
    order: ActiveOrder,
    book_id: B256,
    step: CloseStep,
    receipt: Receipt,
)
    requires
        receipt.status,
    ensures
        ({
            let event = CloseEvent::Included(step, receipt);
            let now = order_after(order, event);
            let reply = close_reply(order, book_id, event);
            &&& now.claimant_registered == (order.claimant_registered || step is Register)
            &&& now.cancelled == (order.cancelled || step is Cancel)
            &&& step is Cancel ==> now.last_tx_hash == Some(receipt.transaction_hash)
            &&& !(step is Cancel) ==> now.last_tx_hash == order.last_tx_hash
            &&& now.packed == order.packed
            &&& now.epoch == order.epoch
            &&& now.sold_token == order.sold_token
            &&& step is Distribute ==> reply == Ok::<CloseAction, EngineError>(CloseAction::Closed)
            &&& !(step is Distribute) ==> reply == close_reply(now, book_id, CloseEvent::Begin)
        }),
{
}

} // verus!
