//! Letting the order book engine move the tokens of the wallet.
use crate::contracts::ROUTER;
use crate::engine::receipt::Receipt;
use crate::error::EngineError;
use crate::words::{Address, B256};
use vstd::arithmetic::power2::*;
use vstd::prelude::*;

verus! {

/// What an allowance asks for.
#[derive(Debug, Clone, Copy)]
pub enum AllowanceAction {
    /// Nothing: it suffices.
    Enough,
    /// Send `approve(spender, amount)` to this token.
    Approve { token: Address, spender: Address, amount: B256 },
}

/// Asks for an unlimited allowance for the engine where the current one is below
/// `amount`.
pub fn ensure_allowance(token: Address, current: &B256, amount: &B256) -> (action: AllowanceAction)
    ensures
        current.value() >= amount.value() ==> action == AllowanceAction::Enough,
        current.value() < amount.value() ==> {
            &&& action matches AllowanceAction::Approve { token: t, spender, amount: granted }
            &&& t == token
            &&& spender.0@ == ROUTER@
            &&& granted.value() == pow2(256) - 1
        },
{
    if current.at_least(amount) {
        AllowanceAction::Enough
    } else {
        AllowanceAction::Approve { token, spender: Address(ROUTER), amount: B256::max() }
    }
}

/// Accepts an approval that took effect.
pub fn check_approval(token: Address, receipt: &Receipt) -> (result: Result<(), EngineError>)
    ensures
        result == (if receipt.status {
            Ok::<(), EngineError>(())
        } else {
            Err(EngineError::ApproveFailed(token))
        }),
{
    if receipt.status {
        Ok(())
    } else {
        Err(EngineError::ApproveFailed(token))
    }
}

/// An allowance that was granted suffices for every amount.
pub proof fn law_granted_allowance_suffices(granted: B256, amount: B256)
    requires
        granted.value() == pow2(256) - 1,
    ensures
        granted.value() >= amount.value(),
{
    crate::bytes::lemma_be_value_bound(amount.0@);
}

} // verus!
