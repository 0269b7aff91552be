//! Waiting for a transaction to be included.
use crate::error::EngineError;
use crate::words::B256;
use vstd::prelude::*;

verus! {

/// How often a receipt is asked for.
pub const RECEIPT_POLLS: u32 = 60;

/// Seconds to rest after a receipt was asked for in vain.
pub const RECEIPT_PAUSE_SECS: u64 = 2;

/// The receipt of an included transaction.
#[derive(Debug, Clone, Copy)]
pub struct Receipt {
    /// The transaction took effect.
    pub status: bool,
    pub transaction_hash: B256,
}

/// A wait for the receipt of one transaction.
#[derive(Debug, Clone, Copy)]
pub struct ReceiptWait {
    pub hash: B256,
    /// How often the receipt was asked for in vain.
    pub misses: u32,
}

/// What to do after asking for a receipt.
#[derive(Debug, Clone, Copy)]
pub enum ReceiptAction {
    /// The wait is over.
    Done(Receipt),
    /// Rest for so many seconds, then ask again.
    Retry(u64),
    /// Rest for so many seconds, then fail. The transaction is not sent again.
    GiveUp(u64, EngineError),
}

impl ReceiptWait {
    /// A wait that has not asked yet.
    pub open spec fn begun(hash: B256) -> ReceiptWait {
        ReceiptWait { hash, misses: 0 }
    }

    /// A wait that has not asked yet.
    pub fn new(hash: B256) -> (wait: ReceiptWait)
        ensures
            wait == ReceiptWait::begun(hash),
    {
        ReceiptWait { hash, misses: 0 }
    }

    /// The wait after the receipt was asked for.
    pub open spec fn after(self, seen: Option<Receipt>) -> ReceiptWait {
        if seen is None && self.misses < RECEIPT_POLLS {
            ReceiptWait { misses: (self.misses + 1) as u32, ..self }
        } else {
            self
        }
    }

    /// What follows from what was seen.
    pub open spec fn reply(self, seen: Option<Receipt>) -> ReceiptAction {
        match seen {
            Some(receipt) => ReceiptAction::Done(receipt),
            None => if self.misses + 1 < RECEIPT_POLLS {
                ReceiptAction::Retry(RECEIPT_PAUSE_SECS)
            } else {
                ReceiptAction::GiveUp(RECEIPT_PAUSE_SECS, EngineError::ReceiptTimeout(self.hash))
            },
        }
    }
}

/// Takes in what the chain answered when asked for the receipt.
pub fn wait_receipt(wait: &mut ReceiptWait, seen: Option<Receipt>) -> (action: ReceiptAction)
    ensures
        *final(wait) == old(wait).after(seen),
        action == old(wait).reply(seen),
{
    match seen {
        Some(receipt) => ReceiptAction::Done(receipt),
        None => {
            if wait.misses >= RECEIPT_POLLS {
                return ReceiptAction::GiveUp(
                    RECEIPT_PAUSE_SECS,
                    EngineError::ReceiptTimeout(wait.hash),
                );
            }
            wait.misses = wait.misses + 1;
            if wait.misses < RECEIPT_POLLS {
                ReceiptAction::Retry(RECEIPT_PAUSE_SECS)
            } else {
                ReceiptAction::GiveUp(RECEIPT_PAUSE_SECS, EngineError::ReceiptTimeout(wait.hash))
            }
        },
    }
}

/// How a wait ends that sees `seen`, one answer after the other: with a receipt,
/// with an error, or not yet (`None`).
pub open spec fn wait_outcome(wait: ReceiptWait, seen: Seq<Option<Receipt>>) -> Option<
    Result<Receipt, EngineError>,
>
    decreases seen.len(),
{
    if seen.len() == 0 {
        None
    } else {
        match wait.reply(seen[0]) {
            ReceiptAction::Done(receipt) => Some(Ok(receipt)),
            ReceiptAction::GiveUp(_, error) => Some(Err(error)),
            ReceiptAction::Retry(_) => wait_outcome(wait.after(seen[0]), seen.skip(1)),
        }
    }
}

/// The wait ends with the first receipt that shows within sixty answers.
pub proof fn law_first_receipt_ends_the_wait(hash: B256, seen: Seq<Option<Receipt>>, k: int)
    requires
        0 <= k < RECEIPT_POLLS,
        k < seen.len(),
        seen[k] is Some,
        forall|i: int| 0 <= i < k ==> seen[i] is None,
    ensures
        wait_outcome(ReceiptWait::begun(hash), seen) == Some(
            Ok::<Receipt, EngineError>(seen[k]->0),
        ),
{
    lemma_wait_finds(ReceiptWait::begun(hash), seen, k);
}

proof fn lemma_wait_finds(wait: ReceiptWait, seen: Seq<Option<Receipt>>, k: int)
    requires
        0 <= k < seen.len(),
        wait.misses + k < RECEIPT_POLLS,
        seen[k] is Some,
        forall|i: int| 0 <= i < k ==> seen[i] is None,
    ensures
        wait_outcome(wait, seen) == Some(Ok::<Receipt, EngineError>(seen[k]->0)),
    decreases k,
{
    if k > 0 {
        assert(seen[0] is None);
        lemma_wait_finds(wait.after(seen[0]), seen.skip(1), k - 1);
    }
}

/// The wait fails after exactly sixty answers without a receipt, and not before.
pub proof fn law_wait_times_out_after_sixty_misses(hash: B256, seen: Seq<Option<Receipt>>)
    requires
        forall|i: int| 0 <= i < seen.len() ==> seen[i] is None,
    ensures
        seen.len() < RECEIPT_POLLS ==> wait_outcome(ReceiptWait::begun(hash), seen) is None,
        seen.len() >= RECEIPT_POLLS ==> wait_outcome(ReceiptWait::begun(hash), seen) == Some(
            Err::<Receipt, EngineError>(EngineError::ReceiptTimeout(hash)),
        ),
{
    lemma_wait_misses(ReceiptWait::begun(hash), seen);
}

proof fn lemma_wait_misses(wait: ReceiptWait, seen: Seq<Option<Receipt>>)
    requires
        wait.misses < RECEIPT_POLLS,
        forall|i: int| 0 <= i < seen.len() ==> seen[i] is None,
    ensures
        wait.misses + seen.len() < RECEIPT_POLLS ==> wait_outcome(wait, seen) is None,
        wait.misses + seen.len() >= RECEIPT_POLLS ==> wait_outcome(wait, seen) == Some(
            Err::<Receipt, EngineError>(EngineError::ReceiptTimeout(wait.hash)),
        ),
    decreases seen.len(),
{
    if seen.len() > 0 {
        assert(seen[0] is None);
        if wait.misses + 1 < RECEIPT_POLLS {
            lemma_wait_misses(wait.after(seen[0]), seen.skip(1));
        }
    }
}

/// One answer at a time: a receipt ends the wait, whatever it says; without one the
/// wait rests two seconds and asks again, until sixty answers were in vain, and
/// then names its transaction in the error.
pub proof fn law_each_answer(wait: ReceiptWait, receipt: Receipt)
    ensures
        ReceiptWait::begun(wait.hash).hash == wait.hash,
        ReceiptWait::begun(wait.hash).misses == 0,
        wait.reply(Some(receipt)) == ReceiptAction::Done(receipt),
        wait.misses < 59 ==> wait.reply(None) == ReceiptAction::Retry(2),
        wait.misses >= 59 ==> wait.reply(None) == ReceiptAction::GiveUp(
            2,
            EngineError::ReceiptTimeout(wait.hash),
        ),
        wait.misses < 60 ==> wait.after(None).misses == wait.misses + 1,
        wait.after(None).hash == wait.hash,
        wait.after(Some(receipt)) == wait,
{
}

} // verus!
