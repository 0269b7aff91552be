//! What the bot remembers of the orders it has on the book.
use crate::order::Order;
use crate::strategy::Quotes;
use crate::words::{Address, B256};
use vstd::prelude::*;

verus! {

/// A side of the book.
#[derive(Debug, Clone, Copy, PartialEq, Eq, Structural)]
pub enum Side {
    Bid,
    Ask,
}

/// An order that rests on the book, or that is being closed.
#[derive(Debug, Clone, Copy)]
pub struct ActiveOrder {
    /// The word under which the order rests, with the nonce it was given.
    pub packed: B256,
    /// The epoch in which the order was placed.
    pub epoch: u64,
    /// The token that the order sells: USDG for a bid, NVDA for an ask.
    pub sold_token: Address,
    /// The wallet is on record as the one to be rewarded for the order.
    pub claimant_registered: bool,
    /// The order is off the book.
    pub cancelled: bool,
    /// The last transaction sent for the order.
    pub last_tx_hash: Option<B256>,
}

/// What names a book: the pair of its tokens, and its epoch.
#[derive(Debug, Clone, Copy)]
pub struct BookKey {
    pub token0: Address,
    pub token1: Address,
    pub epoch: u64,
}

impl ActiveOrder {
    /// The order is not off the book without a claim to its reward.
    pub open spec fn reward_safe(self) -> bool {
        self.cancelled ==> self.claimant_registered
    }

    /// The book that the order rests in: that of the epoch in which the order was
    /// placed, whatever the epoch is now.
    pub fn book(&self, pair: (Address, Address)) -> (key: BookKey)
        ensures
            key == (BookKey { token0: pair.0, token1: pair.1, epoch: self.epoch }),
    {
        BookKey { token0: pair.0, token1: pair.1, epoch: self.epoch }
    }

    /// An order that has just come to rest.
    pub open spec fn fresh(packed: B256, epoch: u64, sold_token: Address) -> ActiveOrder {
        ActiveOrder {
            packed,
            epoch,
            sold_token,
            claimant_registered: false,
            cancelled: false,
            last_tx_hash: None,
        }
    }

    /// An order that has just come to rest.
    pub fn resting(packed: B256, epoch: u64, sold_token: Address) -> (order: ActiveOrder)
        ensures
            order == ActiveOrder::fresh(packed, epoch, sold_token),
    {
        ActiveOrder {
            packed,
            epoch,
            sold_token,
            claimant_registered: false,
            cancelled: false,
            last_tx_hash: None,
        }
    }
}

/// The orders that the bot has on the book, at most one on each side.
#[derive(Debug, Clone, Copy)]
pub struct ActiveOrders {
    pub bid: Option<ActiveOrder>,
    pub ask: Option<ActiveOrder>,
}

impl Default for ActiveOrders {
    fn default() -> (active: Self)
        ensures
            active.bid is None,
            active.ask is None,
    {
        ActiveOrders { bid: None, ask: None }
    }
}

impl ActiveOrders {
    /// No order on record is off the book without a claim to its reward.
    pub open spec fn reward_safe(self) -> bool {
        &&& self.bid matches Some(order) ==> order.reward_safe()
        &&& self.ask matches Some(order) ==> order.reward_safe()
    }
}

/// The orders that were stored by an earlier run, or none where none were.
pub fn load_active_orders(stored: Option<ActiveOrders>) -> (active: ActiveOrders)
    ensures
        active == (match stored {
            Some(orders) => orders,
            None => ActiveOrders { bid: None, ask: None },
        }),
{
    match stored {
        Some(orders) => orders,
        None => ActiveOrders::default(),
    }
}

/// What a cycle starts from: the best orders and the balances of the wallet.
#[derive(Debug, Clone, Copy)]
pub struct Observation {
    pub epoch: u64,
    pub bid: Option<Order>,
    pub ask: Option<Order>,
    pub usdg_balance: u128,
    pub nvda_balance: u128,
}

/// What was observed, and the quotes that follow from it.
#[derive(Debug, Clone, Copy)]
pub struct CycleView {
    pub epoch: u64,
    pub bid: Option<Order>,
    pub ask: Option<Order>,
    pub usdg_balance: u128,
    pub nvda_balance: u128,
    pub quotes: Quotes,
}

/// An order that has just come to rest is the one that was named, is neither
/// claimed nor cancelled, and has no transaction on record.
pub proof fn law_fresh_order_has_no_history(packed: B256, epoch: u64, sold_token: Address)
    ensures
        ({
            let order = ActiveOrder::fresh(packed, epoch, sold_token);
            &&& order.packed == packed
            &&& order.epoch == epoch
            &&& order.sold_token == sold_token
            &&& !order.claimant_registered
            &&& !order.cancelled
            &&& order.last_tx_hash is None
        }),
{
}

} // verus!
