//! Squaring the record with the book when the bot starts.
use crate::engine::state::{ActiveOrder, ActiveOrders};
use crate::error::EngineError;
use crate::words::{Address, B256};
use vstd::prelude::*;

verus! {

/// The record of one side, squared with the orders found on the book in `epoch`.
/// An order of this epoch that the book does not hold is dropped; an order of
/// another epoch stays, because the book of that epoch was not read; a side
/// without an order takes over the one that was found.
pub open spec fn reconciled_side(
    on_record: Option<ActiveOrder>,
    epoch: u64,
    sold_token: Address,
    found: Seq<B256>,
) -> Option<ActiveOrder> {
    match on_record {
        Some(order) if order.epoch != epoch || found.contains(order.packed) => Some(order),
        _ => if found.len() > 0 {
            Some(ActiveOrder::fresh(found[0], epoch, sold_token))
        } else {
            None
        },
    }
}

/// Whether a word is among those found.
fn is_among(found: &Vec<B256>, word: &B256) -> (yes: bool)
    ensures
        yes == found@.contains(*word),
{
    let mut i: usize = 0;
    while i < found.len()
        invariant
            i <= found@.len(),
            forall|j: int| 0 <= j < i ==> found@[j] != *word,
        decreases found@.len() - i,
    {
        if found[i] == *word {
            assert(found@[i as int] == *word);
            return true;
        }
        i = i + 1;
    }
    false
}

/// The record of one side, squared with the orders found on the book.
fn reconcile_side(
    on_record: &Option<ActiveOrder>,
    epoch: u64,
    sold_token: Address,
    found: &Vec<B256>,
) -> (side: Option<ActiveOrder>)
    ensures
        side == reconciled_side(*on_record, epoch, sold_token, found@),
{
    if let Some(order) = on_record {
        if order.epoch != epoch || is_among(found, &order.packed) {
            return Some(*order);
        }
    }
    if found.len() > 0 {
        Some(ActiveOrder::resting(found[0], epoch, sold_token))
    } else {
        None
    }
}

/// Squares the record with the orders of the wallet that were found on the book
/// of `epoch`. More than one order on a side is an error, and leaves the record
/// as it is.
pub fn reconcile_active_orders(
    active: &mut ActiveOrders,
    epoch: u64,
    pair: (Address, Address),
    bids: &Vec<B256>,
    asks: &Vec<B256>,
) -> (result: Result<(), EngineError>)
    ensures
        result == (if bids@.len() > 1 {
            Err::<(), EngineError>(EngineError::MultipleOwnedBids)
        } else if asks@.len() > 1 {
            Err(EngineError::MultipleOwnedAsks)
        } else {
            Ok(())
        }),
        result is Err ==> *final(active) == *old(active),
        result is Ok ==> *final(active) == (ActiveOrders {
            bid: reconciled_side(old(active).bid, epoch, pair.0, bids@),
            ask: reconciled_side(old(active).ask, epoch, pair.1, asks@),
        }),
{
    if bids.len() > 1 {
        return Err(EngineError::MultipleOwnedBids);
    }
    if asks.len() > 1 {
        return Err(EngineError::MultipleOwnedAsks);
    }
    active.bid = reconcile_side(&active.bid, epoch, pair.0, bids);
    active.ask = reconcile_side(&active.ask, epoch, pair.1, asks);
    Ok(())
}

/// Squaring twice is squaring once.
pub proof fn law_reconcile_is_idempotent(
    on_record: Option<ActiveOrder>,
    epoch: u64,
    sold_token: Address,
    found: Seq<B256>,
)
    ensures
        ({
            let once = reconciled_side(on_record, epoch, sold_token, found);
            reconciled_side(once, epoch, sold_token, found) == once
        }),
{
    if found.len() > 0 {
        assert(found.contains(found[0]));
    }
}

/// An order of another epoch is never dropped or altered, nor is an order that
/// the book still holds: it keeps what is recorded of its closing.
pub proof fn law_reconcile_keeps_live_orders(
    order: ActiveOrder,
    epoch: u64,
    sold_token: Address,
    found: Seq<B256>,
)
    requires
        order.epoch != epoch || found.contains(order.packed),
    ensures
        reconciled_side(Some(order), epoch, sold_token, found) == Some(order),
{
}

/// Afterwards an order of this epoch is on record only if the book holds it, and
/// an order that the book holds is on record unless one of another epoch is.
pub proof fn law_reconciled_record_matches_the_book(
    on_record: Option<ActiveOrder>,
    epoch: u64,
    sold_token: Address,
    found: Seq<B256>,
)
    requires
        found.len() <= 1,
    ensures
        ({
            let now = reconciled_side(on_record, epoch, sold_token, found);
            &&& now matches Some(order) ==> order.epoch == epoch ==> found.contains(order.packed)
            &&& found.len() == 1 ==> now is Some && (now->0.epoch != epoch || now->0.packed
                == found[0])
        }),
{
    if found.len() > 0 {
        assert(found.contains(found[0]));
    }
}

/// Squaring puts no order on record that is off the book without a claim to its
/// reward.
pub proof fn law_reconcile_keeps_rewards_safe(
    on_record: Option<ActiveOrder>,
    epoch: u64,
    sold_token: Address,
    found: Seq<B256>,
)
    requires
        on_record matches Some(order) ==> order.reward_safe(),
    ensures
        reconciled_side(on_record, epoch, sold_token, found) matches Some(order)
            ==> order.reward_safe(),
{
}

/// An order that squaring puts on record and that was not on record before is the
/// first one found, of the epoch that was read, selling the token of its side,
/// neither claimed nor cancelled, and without a transaction.
pub proof fn law_adopted_order_has_no_history(
    on_record: Option<ActiveOrder>,
    epoch: u64,
    sold_token: Address,
    found: Seq<B256>,
)
    ensures
        ({
            let now = reconciled_side(on_record, epoch, sold_token, found);
            now is Some && now != on_record ==> {
                &&& found.len() > 0
                &&& now->0.packed == found[0]
                &&& now->0.epoch == epoch
                &&& now->0.sold_token == sold_token
                &&& !now->0.claimant_registered
                &&& !now->0.cancelled
                &&& now->0.last_tx_hash is None
            }
        }),
{
}

/// A claim, a cancellation or a transaction is on record afterwards only if the same
/// order was on record with it before.
pub proof fn law_reconcile_invents_no_history(
    on_record: Option<ActiveOrder>,
    epoch: u64,
    sold_token: Address,
    found: Seq<B256>,
)
    ensures
        ({
            let now = reconciled_side(on_record, epoch, sold_token, found);
            now is Some && (now->0.claimant_registered || now->0.cancelled
                || now->0.last_tx_hash is Some) ==> now == on_record
        }),
{
}

/// When the record changes: an order is dropped exactly when it is of the epoch that
/// was read and the book does not hold it; an order that was found is adopted
/// exactly when nothing is on record, or what was is dropped; and a side is empty
/// afterwards exactly when nothing stays and nothing was found.
pub proof fn law_reconcile_drops_and_adopts(
    on_record: Option<ActiveOrder>,
    epoch: u64,
    sold_token: Address,
    found: Seq<B256>,
)
    ensures
        ({
            let now = reconciled_side(on_record, epoch, sold_token, found);
            let held = on_record is Some && exists|i: int|
                0 <= i < found.len() && #[trigger] found[i] == on_record->0.packed;
            let stays = on_record is Some && (on_record->0.epoch != epoch || held);
            &&& stays ==> now == on_record
            &&& !stays && found.len() > 0 ==> now is Some && now->0.packed == found[0]
                && now->0.epoch == epoch && now->0.sold_token == sold_token
                && !now->0.claimant_registered && !now->0.cancelled && now->0.last_tx_hash is None
            &&& !stays && found.len() == 0 ==> now is None
        }),
{
}

} // verus!
