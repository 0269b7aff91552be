//! What can go wrong in a cycle.
use crate::words::{Address, B256};
use vstd::prelude::*;

verus! {

/// A rule that a configuration breaks.
#[derive(Debug, Clone, Copy, PartialEq, Eq, Structural)]
pub enum ConfigError {
    MidPrice,
    Spread,
    Interval,
    Quantities,
    MaxInventory,
}

impl ConfigError {
    /// The broken rule in words.
    pub open spec fn text(self) -> Seq<char> {
        match self {
            ConfigError::MidPrice => "mid price must be finite and > 0"@,
            ConfigError::Spread => "spread must be in (0, 1)"@,
            ConfigError::Interval => "interval must be >= 5 seconds"@,
            ConfigError::Quantities => "quantities must be > 0"@,
            ConfigError::MaxInventory => "max inventory must be > 0"@,
        }
    }

    /// The broken rule in words.
    pub fn message(&self) -> (text: &'static str)
        ensures
            text@ == self.text(),
    {
        match self {
            ConfigError::MidPrice => "mid price must be finite and > 0",
            ConfigError::Spread => "spread must be in (0, 1)",
            ConfigError::Interval => "interval must be >= 5 seconds",
            ConfigError::Quantities => "quantities must be > 0",
            ConfigError::MaxInventory => "max inventory must be > 0",
        }
    }
}

/// What ends a cycle, a startup or a transaction early.
#[derive(Debug, Clone, Copy)]
pub enum EngineError {
    Config(ConfigError),
    TickOverflow,
    BidNonceMismatch,
    AskNonceMismatch,
    TreeTooDeep,
    TraversalBound,
    MultipleOwnedBids,
    MultipleOwnedAsks,
    MultipleMatching,
    NoRestingOrder,
    FillFailed,
    CancelFailed,
    RegisterFailed,
    DistributeFailed,
    ClaimFailed,
    ApproveFailed(Address),
    ReceiptTimeout(B256),
}

impl EngineError {
    /// The error in words. Of an error that names a token or a transaction, the
    /// words that stand before that name.
    pub open spec fn text(self) -> Seq<char> {
        match self {
            EngineError::Config(rule) => rule.text(),
            EngineError::TickOverflow => "quote tick out of range"@,
            EngineError::BidNonceMismatch => "bid top nonce mismatch"@,
            EngineError::AskNonceMismatch => "ask top nonce mismatch"@,
            EngineError::TreeTooDeep => "book tree exceeded 256 levels"@,
            EngineError::TraversalBound => "order tree traversal exceeded safety bound"@,
            EngineError::MultipleOwnedBids => "multiple owned bid orders found during reconcile"@,
            EngineError::MultipleOwnedAsks => "multiple owned ask orders found during reconcile"@,
            EngineError::MultipleMatching => "multiple matching owned resting orders found"@,
            EngineError::NoRestingOrder => "fill confirmed but no unique owned resting order found"@,
            EngineError::FillFailed => "fill tx failed"@,
            EngineError::CancelFailed => "cancel tx failed"@,
            EngineError::RegisterFailed => "registerClaimant tx failed"@,
            EngineError::DistributeFailed => "distributeRewards tx failed"@,
            EngineError::ClaimFailed => "distribute tx failed"@,
            EngineError::ApproveFailed(_) => "approve failed for "@,
            EngineError::ReceiptTimeout(_) => "receipt timeout for tx "@,
        }
    }

    /// The error in words. Of an error that names a token or a transaction, the
    /// words that stand before that name.
    pub fn message(&self) -> (text: &'static str)
        ensures
            text@ == self.text(),
    {
        match self {
            EngineError::Config(rule) => rule.message(),
            EngineError::TickOverflow => "quote tick out of range",
            EngineError::BidNonceMismatch => "bid top nonce mismatch",
            EngineError::AskNonceMismatch => "ask top nonce mismatch",
            EngineError::TreeTooDeep => "book tree exceeded 256 levels",
            EngineError::TraversalBound => "order tree traversal exceeded safety bound",
            EngineError::MultipleOwnedBids => "multiple owned bid orders found during reconcile",
            EngineError::MultipleOwnedAsks => "multiple owned ask orders found during reconcile",
            EngineError::MultipleMatching => "multiple matching owned resting orders found",
            EngineError::NoRestingOrder => "fill confirmed but no unique owned resting order found",
            EngineError::FillFailed => "fill tx failed",
            EngineError::CancelFailed => "cancel tx failed",
            EngineError::RegisterFailed => "registerClaimant tx failed",
            EngineError::DistributeFailed => "distributeRewards tx failed",
            EngineError::ClaimFailed => "distribute tx failed",
            EngineError::ApproveFailed(_) => "approve failed for ",
            EngineError::ReceiptTimeout(_) => "receipt timeout for tx ",
        }
    }

    /// Of an error that names a token or a transaction, the words that stand after
    /// that name.
    pub open spec fn text_after_name(self) -> Seq<char> {
        match self {
            EngineError::ReceiptTimeout(_) => "; refusing to resend"@,
            _ => ""@,
        }
    }

    /// Of an error that names a token or a transaction, the words that stand after
    /// that name.
    pub fn message_after_name(&self) -> (text: &'static str)
        ensures
            text@ == self.text_after_name(),
    {
        match self {
            EngineError::ReceiptTimeout(_) => "; refusing to resend",
            _ => "",
        }
    }
}

/// The words of each broken rule.
pub proof fn law_config_error_words(error: ConfigError)
    ensures
        error is MidPrice ==> error.text() == "mid price must be finite and > 0"@,
        error is Spread ==> error.text() == "spread must be in (0, 1)"@,
        error is Interval ==> error.text() == "interval must be >= 5 seconds"@,
        error is Quantities ==> error.text() == "quantities must be > 0"@,
        error is MaxInventory ==> error.text() == "max inventory must be > 0"@,
{
}

/// The words of each error, whatever it names. A broken rule speaks for itself, and
/// only a timeout has words after the name.
pub proof fn law_engine_error_words(error: EngineError)
    ensures
        error matches EngineError::Config(rule) ==> error.text() == rule.text(),
        error is TickOverflow ==> error.text() == "quote tick out of range"@,
        error is BidNonceMismatch ==> error.text() == "bid top nonce mismatch"@,
        error is AskNonceMismatch ==> error.text() == "ask top nonce mismatch"@,
        error is TreeTooDeep ==> error.text() == "book tree exceeded 256 levels"@,
        error is TraversalBound ==> error.text() == "order tree traversal exceeded safety bound"@,
        error is MultipleOwnedBids ==> error.text()
            == "multiple owned bid orders found during reconcile"@,
        error is MultipleOwnedAsks ==> error.text()
            == "multiple owned ask orders found during reconcile"@,
        error is MultipleMatching ==> error.text()
            == "multiple matching owned resting orders found"@,
        error is NoRestingOrder ==> error.text()
            == "fill confirmed but no unique owned resting order found"@,
        error is FillFailed ==> error.text() == "fill tx failed"@,
        error is CancelFailed ==> error.text() == "cancel tx failed"@,
        error is RegisterFailed ==> error.text() == "registerClaimant tx failed"@,
        error is DistributeFailed ==> error.text() == "distributeRewards tx failed"@,
        error is ClaimFailed ==> error.text() == "distribute tx failed"@,
        error is ApproveFailed ==> error.text() == "approve failed for "@,
        error is ReceiptTimeout ==> error.text() == "receipt timeout for tx "@,
        error is ReceiptTimeout ==> error.text_after_name() == "; refusing to resend"@,
        !(error is ReceiptTimeout) ==> error.text_after_name().len() == 0,
{
    reveal_strlit("");
}

} // verus!
