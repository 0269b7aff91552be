//! Where the two quotes go, and how large they are.
//!
//! The protocol rewards only the best bid and the best ask. The strategy aims
//! at a target price on either side of a reference price and, where the book
//! already offers better than the target, goes one tick better than the book.
use crate::binary64::Binary64;
use crate::error::EngineError;
use crate::number;
use crate::order::Order;
use vstd::prelude::*;

verus! {

/// The settings of the bot.
#[derive(Debug, Clone, Copy)]
pub struct MmConfig {
    /// Reference mid price, USDG per NVDA.
    pub mid_price: Binary64,
    /// Half the spread as a fraction of the mid price.
    pub half_spread_pct: Binary64,
    /// Bid size in raw USDG (6 decimals).
    pub bid_quantity: u128,
    /// Ask size in raw NVDA (18 decimals).
    pub ask_quantity: u128,
    /// Smallest distance between bid and ask, in ticks.
    pub min_tick_gap: i32,
    /// Decimals of token0 (USDG).
    pub decimals0: u8,
    /// Decimals of token1 (NVDA).
    pub decimals1: u8,
    /// Seconds between two cycles.
    pub interval_secs: u64,
    /// Largest NVDA inventory of the wallet, raw.
    pub max_nvda_inventory: u128,
}

impl MmConfig {
    /// The settings that hold where nothing else was asked for: 125 USDG per
    /// NVDA, 0.5% to each side, 1 USDG against 1 NVDA, at most 2 NVDA held.
    pub open spec fn standard() -> MmConfig {
        MmConfig {
            mid_price: Binary64 { bits: 0x405f_4000_0000_0000 },
            half_spread_pct: Binary64 { bits: 0x3f74_7ae1_47ae_147b },
            bid_quantity: 1_000_000,
            ask_quantity: 1_000_000_000_000_000_000,
            min_tick_gap: 1,
            decimals0: 6,
            decimals1: 18,
            interval_secs: 30,
            max_nvda_inventory: 2_000_000_000_000_000_000,
        }
    }
}

impl Default for MmConfig {
    fn default() -> (cfg: Self)
        ensures
            cfg == MmConfig::standard(),
    {
        MmConfig {
            mid_price: Binary64 { bits: 0x405f_4000_0000_0000 },
            half_spread_pct: Binary64 { bits: 0x3f74_7ae1_47ae_147b },
            bid_quantity: 1_000_000,
            ask_quantity: 1_000_000_000_000_000_000,
            min_tick_gap: 1,
            decimals0: 6,
            decimals1: 18,
            interval_secs: 30,
            max_nvda_inventory: 2_000_000_000_000_000_000,
        }
    }
}

/// The ticks of the target prices: `mid * (1 - spread)` rounded down for the
/// bid, `mid * (1 + spread)` rounded up for the ask.
#[derive(Debug, Clone, Copy, PartialEq, Eq, Structural)]
pub struct TargetTicks {
    pub bid: i32,
    pub ask: i32,
}

/// The orders wanted on the book. A side that is switched off has none.
#[derive(Debug, Clone, Copy)]
pub struct Quotes {
    pub bid: Option<Order>,
    pub ask: Option<Order>,
}

/// The target, or one tick above the best bid where that lies above the target.
pub open spec fn improved_bid(target: i32, top: Option<Order>) -> int {
    match top {
        Some(best) if best.tick > target => best.tick + 1,
        _ => target as int,
    }
}

/// The target, or one tick below the best ask where that lies below the target.
pub open spec fn improved_ask(target: i32, top: Option<Order>) -> int {
    match top {
        Some(best) if best.tick < target => best.tick - 1,
        _ => target as int,
    }
}

/// The bid kept at least `gap` ticks below the ask.
pub open spec fn bid_with_gap(bid: int, ask: int, gap: i32) -> int {
    if ask - bid < gap {
        ask - gap
    } else {
        bid
    }
}

/// The tick of the bid quote.
pub open spec fn bid_quote_tick(
    cfg: MmConfig,
    target: TargetTicks,
    top_bid: Option<Order>,
    top_ask: Option<Order>,
) -> int {
    bid_with_gap(
        improved_bid(target.bid, top_bid),
        improved_ask(target.ask, top_ask),
        cfg.min_tick_gap,
    )
}

/// A number is a tick.
pub open spec fn is_tick(n: int) -> bool {
    i32::MIN <= n <= i32::MAX
}

/// No step of the quote computation leaves the range of a tick.
pub open spec fn quotes_in_range(
    cfg: MmConfig,
    target: TargetTicks,
    top_bid: Option<Order>,
    top_ask: Option<Order>,
) -> bool {
    let bid = improved_bid(target.bid, top_bid);
    let ask = improved_ask(target.ask, top_ask);
    &&& is_tick(bid)
    &&& is_tick(ask)
    &&& is_tick(ask - bid)
    &&& is_tick(bid_quote_tick(cfg, target, top_bid, top_ask))
}

/// The quotes that the strategy wants, before balances are looked at.
pub open spec fn wanted_quotes(
    cfg: MmConfig,
    target: TargetTicks,
    top_bid: Option<Order>,
    top_ask: Option<Order>,
) -> Quotes {
    Quotes {
        bid: Some(
            Order {
                tick: bid_quote_tick(cfg, target, top_bid, top_ask) as i32,
                quantity: cfg.bid_quantity,
                nonce: 0,
            },
        ),
        ask: Some(
            Order {
                tick: improved_ask(target.ask, top_ask) as i32,
                quantity: cfg.ask_quantity,
                nonce: 0,
            },
        ),
    }
}

/// An order behind a reference, or none.
pub open spec fn order_at(order: Option<&Order>) -> Option<Order> {
    match order {
        Some(o) => Some(*o),
        None => None,
    }
}

/// The bid and ask orders for the given best orders (`None` where a side of the
/// book is empty).
pub fn compute_quotes(
    cfg: &MmConfig,
    target: &TargetTicks,
    top_bid: Option<&Order>,
    top_ask: Option<&Order>,
) -> (quotes: Result<Quotes, EngineError>)
    requires
        quotes_in_range(*cfg, *target, order_at(top_bid), order_at(top_ask)),
    ensures
        quotes is Ok,
        quotes->Ok_0 == wanted_quotes(*cfg, *target, order_at(top_bid), order_at(top_ask)),
{
    let bid_tick: i32 = match top_bid {
        Some(best) => if best.tick > target.bid {
            best.tick + 1
        } else {
            target.bid
        },
        None => target.bid,
    };
    let ask_tick: i32 = match top_ask {
        Some(best) => if best.tick < target.ask {
            best.tick - 1
        } else {
            target.ask
        },
        None => target.ask,
    };
    let bid_tick: i32 = if ask_tick - bid_tick < cfg.min_tick_gap {
        ask_tick - cfg.min_tick_gap
    } else {
        bid_tick
    };
    let bid = Order { tick: bid_tick, quantity: cfg.bid_quantity, nonce: 0 };
    let ask = Order { tick: ask_tick, quantity: cfg.ask_quantity, nonce: 0 };
    Ok(Quotes { bid: Some(bid), ask: Some(ask) })
}

/// Whether the quotes can be computed without leaving the range of a tick.
pub fn quotes_fit(
    cfg: &MmConfig,
    target: &TargetTicks,
    top_bid: Option<&Order>,
    top_ask: Option<&Order>,
) -> (fit: bool)
    ensures
        fit == quotes_in_range(*cfg, *target, order_at(top_bid), order_at(top_ask)),
{
    let bid: i64 = match top_bid {
        Some(best) => if best.tick > target.bid {
            best.tick as i64 + 1
        } else {
            target.bid as i64
        },
        None => target.bid as i64,
    };
    let ask: i64 = match top_ask {
        Some(best) => if best.tick < target.ask {
            best.tick as i64 - 1
        } else {
            target.ask as i64
        },
        None => target.ask as i64,
    };
    let gap: i64 = cfg.min_tick_gap as i64;
    let kept: i64 = if ask - bid < gap {
        ask - gap
    } else {
        bid
    };
    fits_tick(bid) && fits_tick(ask) && fits_tick(ask - bid) && fits_tick(kept)
}

/// Whether a number is a tick.
fn fits_tick(n: i64) -> (fits: bool)
    ensures
        fits == is_tick(n as int),
{
    i32::MIN as i64 <= n && n <= i32::MAX as i64
}

/// A bid that the wallet can pay for, or none once the inventory is full.
pub open spec fn limited_bid(
    bid: Option<Order>,
    usdg_balance: u128,
    nvda_balance: u128,
    max_nvda_inventory: u128,
) -> Option<Order> {
    match bid {
        Some(o) if nvda_balance < max_nvda_inventory => Some(
            Order {
                quantity: if o.quantity <= usdg_balance {
                    o.quantity
                } else {
                    usdg_balance
                },
                ..o
            },
        ),
        _ => None,
    }
}

/// An ask that the wallet can deliver.
pub open spec fn limited_ask(ask: Option<Order>, nvda_balance: u128) -> Option<Order> {
    match ask {
        Some(o) => Some(
            Order {
                quantity: if o.quantity <= nvda_balance {
                    o.quantity
                } else {
                    nvda_balance
                },
                ..o
            },
        ),
        None => None,
    }
}

/// The quotes cut down to what the wallet holds and may come to hold.
pub open spec fn limited_quotes(
    quotes: Quotes,
    usdg_balance: u128,
    nvda_balance: u128,
    max_nvda_inventory: u128,
) -> Quotes {
    Quotes {
        bid: limited_bid(quotes.bid, usdg_balance, nvda_balance, max_nvda_inventory),
        ask: limited_ask(quotes.ask, nvda_balance),
    }
}

/// Cuts the bid down to the USDG balance and the ask to the NVDA balance, and
/// switches the bid off once the wallet holds `max_nvda_inventory`.
pub fn apply_balance_limit(
    quotes: &mut Quotes,
    usdg_balance: u128,
    nvda_balance: u128,
    max_nvda_inventory: u128,
)
    ensures
        *final(quotes) == limited_quotes(
            *old(quotes),
            usdg_balance,
            nvda_balance,
            max_nvda_inventory,
        ),
{
    let bid = match quotes.bid {
        Some(o) => if nvda_balance < max_nvda_inventory {
            let quantity: u128 = if o.quantity <= usdg_balance {
                o.quantity
            } else {
                usdg_balance
            };
            Some(Order { tick: o.tick, quantity, nonce: o.nonce })
        } else {
            None
        },
        None => None,
    };
    let ask = match quotes.ask {
        Some(o) => {
            let quantity: u128 = if o.quantity <= nvda_balance {
                o.quantity
            } else {
                nvda_balance
            };
            Some(Order { tick: o.tick, quantity, nonce: o.nonce })
        },
        None => None,
    };
    *quotes = Quotes { bid, ask };
}

/// An order in words, `price` being its price in USDG per NVDA.
pub open spec fn order_text(order: Order, price: Seq<char>) -> Seq<char> {
    "px=$"@ + price + " qty="@ + number::decimal_text(order.quantity as nat) + " nonce="@
        + number::decimal_text(order.nonce as nat)
}

/// An order for a person to read, `price` being its price in USDG per NVDA.
pub fn describe_order(order: &Order, price: &str) -> (text: String)
    ensures
        text@ == order_text(*order, price@),
{
    let mut text = String::new();
    text.append("px=$");
    text.append(price);
    text.append(" qty=");
    number::append_decimal(&mut text, order.quantity);
    text.append(" nonce=");
    number::append_decimal(&mut text, order.nonce as u128);
    proof {
        assert(Seq::<char>::empty() + "px=$"@ =~= "px=$"@);
    }
    text
}

/// The two quotes are at least the smallest gap apart, so with a gap of at
/// least one tick the bid never meets the ask.
pub proof fn law_quotes_keep_the_gap(
    cfg: MmConfig,
    target: TargetTicks,
    top_bid: Option<Order>,
    top_ask: Option<Order>,
)
    requires
        quotes_in_range(cfg, target, top_bid, top_ask),
    ensures
        ({
            let quotes = wanted_quotes(cfg, target, top_bid, top_ask);
            &&& quotes.ask->0.tick - quotes.bid->0.tick >= cfg.min_tick_gap
            &&& cfg.min_tick_gap >= 1 ==> quotes.bid->0.tick < quotes.ask->0.tick
        }),
{
}

/// The ask quote is never worse than the best ask, nor than the target; and
/// where the book offers better than the target, it is better than the book.
pub proof fn law_ask_is_the_best_ask(
    cfg: MmConfig,
    target: TargetTicks,
    best: Order,
    top_bid: Option<Order>,
)
    requires
        quotes_in_range(cfg, target, top_bid, Some(best)),
    ensures
        ({
            let ask = wanted_quotes(cfg, target, top_bid, Some(best)).ask->0;
            &&& ask.tick <= best.tick
            &&& ask.tick <= target.ask
            &&& best.tick < target.ask ==> ask.tick < best.tick
        }),
{
}

/// Unless the gap to the ask holds it back, the bid quote is never worse than
/// the best bid, nor than the target; and where the book offers better than the
/// target, it is better than the book.
pub proof fn law_bid_is_the_best_bid(
    cfg: MmConfig,
    target: TargetTicks,
    best: Order,
    top_ask: Option<Order>,
)
    requires
        quotes_in_range(cfg, target, Some(best), top_ask),
        improved_ask(target.ask, top_ask) - improved_bid(target.bid, Some(best))
            >= cfg.min_tick_gap,
    ensures
        ({
            let bid = wanted_quotes(cfg, target, Some(best), top_ask).bid->0;
            &&& bid.tick >= best.tick
            &&& bid.tick >= target.bid
            &&& best.tick > target.bid ==> bid.tick > best.tick
        }),
{
}

/// On an empty book both quotes stand at their targets, where these are far
/// enough apart.
pub proof fn law_empty_book_quotes_the_targets(cfg: MmConfig, target: TargetTicks)
    requires
        quotes_in_range(cfg, target, None, None),
        target.ask - target.bid >= cfg.min_tick_gap,
    ensures
        wanted_quotes(cfg, target, None, None).bid->0.tick == target.bid,
        wanted_quotes(cfg, target, None, None).ask->0.tick == target.ask,
{
}

/// After the limit no quote is larger than what the wallet holds of the token
/// that it sells, none has grown or moved, and a wallet with a full inventory
/// bids for no more.
pub proof fn law_limited_quotes_are_covered(
    quotes: Quotes,
    usdg_balance: u128,
    nvda_balance: u128,
    max_nvda_inventory: u128,
)
    ensures
        ({
            let cut = limited_quotes(quotes, usdg_balance, nvda_balance, max_nvda_inventory);
            &&& nvda_balance >= max_nvda_inventory ==> cut.bid is None
            &&& cut.bid matches Some(b) ==> {
                &&& b.quantity <= usdg_balance
                &&& quotes.bid is Some
                &&& b.quantity <= quotes.bid->0.quantity
                &&& b.tick == quotes.bid->0.tick
            }
            &&& cut.ask matches Some(a) ==> {
                &&& a.quantity <= nvda_balance
                &&& quotes.ask is Some
                &&& a.quantity <= quotes.ask->0.quantity
                &&& a.tick == quotes.ask->0.tick
            }
        }),
{
}

/// Whatever the book holds, both sides are quoted, in the sizes that the
/// configuration gives, and without a nonce.
pub proof fn law_quotes_have_the_configured_sizes(
    cfg: MmConfig,
    target: TargetTicks,
    top_bid: Option<Order>,
    top_ask: Option<Order>,
)
    ensures
        ({
            let quotes = wanted_quotes(cfg, target, top_bid, top_ask);
            &&& quotes.bid is Some && quotes.ask is Some
            &&& quotes.bid->0.quantity == cfg.bid_quantity
            &&& quotes.ask->0.quantity == cfg.ask_quantity
            &&& quotes.bid->0.nonce == 0
            &&& quotes.ask->0.nonce == 0
        }),
{
}

/// Of the book only the ticks of its best orders count: books that agree in these
/// are quoted alike, whatever the sizes and nonces of the orders.
pub proof fn law_quotes_follow_ticks_only(
    cfg: MmConfig,
    target: TargetTicks,
    top_bid: Order,
    other_bid: Order,
    top_ask: Order,
    other_ask: Order,
)
    requires
        top_bid.tick == other_bid.tick,
        top_ask.tick == other_ask.tick,
    ensures
        wanted_quotes(cfg, target, Some(top_bid), Some(top_ask)) == wanted_quotes(
            cfg,
            target,
            Some(other_bid),
            Some(other_ask),
        ),
        wanted_quotes(cfg, target, Some(top_bid), None) == wanted_quotes(
            cfg,
            target,
            Some(other_bid),
            None,
        ),
        wanted_quotes(cfg, target, None, Some(top_ask)) == wanted_quotes(
            cfg,
            target,
            None,
            Some(other_ask),
        ),
        quotes_in_range(cfg, target, Some(top_bid), Some(top_ask)) == quotes_in_range(
            cfg,
            target,
            Some(other_bid),
            Some(other_ask),
        ),
{
}

/// Of the configuration only sizes and gap count.
pub proof fn law_quotes_follow_sizes_and_gap_only(
    cfg: MmConfig,
    other: MmConfig,
    target: TargetTicks,
    top_bid: Option<Order>,
    top_ask: Option<Order>,
)
    requires
        cfg.bid_quantity == other.bid_quantity,
        cfg.ask_quantity == other.ask_quantity,
        cfg.min_tick_gap == other.min_tick_gap,
    ensures
        wanted_quotes(cfg, target, top_bid, top_ask) == wanted_quotes(
            other,
            target,
            top_bid,
            top_ask,
        ),
        quotes_in_range(cfg, target, top_bid, top_ask) == quotes_in_range(
            other,
            target,
            top_bid,
            top_ask,
        ),
{
}

/// Where the ask goes: to the target where the side is empty or its best order is
/// no better than the target, else one tick below the best order.
pub proof fn law_ask_tick(
    cfg: MmConfig,
    target: TargetTicks,
    top_bid: Option<Order>,
    top_ask: Option<Order>,
)
    requires
        quotes_in_range(cfg, target, top_bid, top_ask),
    ensures
        ({
            let ask = wanted_quotes(cfg, target, top_bid, top_ask).ask->0.tick;
            &&& top_ask is None ==> ask == target.ask
            &&& top_ask is Some && top_ask->0.tick >= target.ask ==> ask == target.ask
            &&& top_ask is Some && top_ask->0.tick < target.ask ==> ask == top_ask->0.tick - 1
        }),
{
}

/// Where the bid goes: to the target where the side is empty or its best order is
/// no better than the target, else one tick above the best order; but where that
/// is closer to the ask than the smallest gap, exactly that gap below the ask.
pub proof fn law_bid_tick(
    cfg: MmConfig,
    target: TargetTicks,
    top_bid: Option<Order>,
    top_ask: Option<Order>,
    free: int,
)
    requires
        quotes_in_range(cfg, target, top_bid, top_ask),
        top_bid is None ==> free == target.bid,
        top_bid is Some && top_bid->0.tick <= target.bid ==> free == target.bid,
        top_bid is Some && top_bid->0.tick > target.bid ==> free == top_bid->0.tick + 1,
    ensures
        ({
            let quotes = wanted_quotes(cfg, target, top_bid, top_ask);
            let (bid, ask) = (quotes.bid->0.tick, quotes.ask->0.tick);
            &&& ask - free >= cfg.min_tick_gap ==> bid == free
            &&& ask - free < cfg.min_tick_gap ==> bid == ask - cfg.min_tick_gap
        }),
{
}

/// Quotes can be computed exactly when no tick on the way leaves 32 bits: the bid
/// and the ask before the gap is looked at, their difference, and the bid after it.
pub proof fn law_range_of_the_quotes(
    cfg: MmConfig,
    target: TargetTicks,
    top_bid: Option<Order>,
    top_ask: Option<Order>,
    bid: int,
    ask: int,
)
    requires
        top_bid is None ==> bid == target.bid,
        top_bid is Some && top_bid->0.tick <= target.bid ==> bid == target.bid,
        top_bid is Some && top_bid->0.tick > target.bid ==> bid == top_bid->0.tick + 1,
        top_ask is None ==> ask == target.ask,
        top_ask is Some && top_ask->0.tick >= target.ask ==> ask == target.ask,
        top_ask is Some && top_ask->0.tick < target.ask ==> ask == top_ask->0.tick - 1,
    ensures
        quotes_in_range(cfg, target, top_bid, top_ask) <==> {
            &&& bid <= 0x7fff_ffff
            &&& ask >= -0x8000_0000
            &&& -0x8000_0000 <= ask - bid <= 0x7fff_ffff
            &&& ask - bid < cfg.min_tick_gap ==> -0x8000_0000 <= ask - cfg.min_tick_gap
                <= 0x7fff_ffff
        },
{
}

/// Quotes move with the market: where targets and best orders all move by the same
/// number of ticks, so do both quotes, and their sizes stay.
pub proof fn law_quotes_move_with_the_market(
    cfg: MmConfig,
    target: TargetTicks,
    moved: TargetTicks,
    top_bid: Order,
    moved_bid: Order,
    top_ask: Order,
    moved_ask: Order,
    by: int,
)
    requires
        quotes_in_range(cfg, target, Some(top_bid), Some(top_ask)),
        quotes_in_range(cfg, moved, Some(moved_bid), Some(moved_ask)),
        moved.bid == target.bid + by,
        moved.ask == target.ask + by,
        moved_bid.tick == top_bid.tick + by,
        moved_ask.tick == top_ask.tick + by,
    ensures
        ({
            let before = wanted_quotes(cfg, target, Some(top_bid), Some(top_ask));
            let after = wanted_quotes(cfg, moved, Some(moved_bid), Some(moved_ask));
            &&& after.bid->0.tick == before.bid->0.tick + by
            &&& after.ask->0.tick == before.ask->0.tick + by
            &&& after.bid->0.quantity == before.bid->0.quantity
            &&& after.ask->0.quantity == before.ask->0.quantity
        }),
{
}

/// An order behind a reference is that order.
pub proof fn law_order_behind_a_reference(order: Order)
    ensures
        order_at(Some(&order)) == Some(order),
        order_at(None) is None,
{
}

/// The limit takes away no more than it must: the bid is there exactly when it was
/// and the inventory has room, the ask exactly when it was; and each keeps its size,
/// unless that is more than the balance, which it then is cut down to. Tick and
/// nonce stay.
pub proof fn law_limit_cuts_no_more_than_it_must(
    quotes: Quotes,
    usdg_balance: u128,
    nvda_balance: u128,
    max_nvda_inventory: u128,
)
    ensures
        ({
            let cut = limited_quotes(quotes, usdg_balance, nvda_balance, max_nvda_inventory);
            let (bid, ask) = (quotes.bid->0, quotes.ask->0);
            &&& cut.bid is Some <==> quotes.bid is Some && nvda_balance < max_nvda_inventory
            &&& cut.ask is Some <==> quotes.ask is Some
            &&& cut.bid is Some && bid.quantity <= usdg_balance ==> cut.bid->0 == bid
            &&& cut.bid is Some && bid.quantity > usdg_balance ==> {
                &&& cut.bid->0.quantity == usdg_balance
                &&& cut.bid->0.tick == bid.tick
                &&& cut.bid->0.nonce == bid.nonce
            }
            &&& cut.ask is Some && ask.quantity <= nvda_balance ==> cut.ask->0 == ask
            &&& cut.ask is Some && ask.quantity > nvda_balance ==> {
                &&& cut.ask->0.quantity == nvda_balance
                &&& cut.ask->0.tick == ask.tick
                &&& cut.ask->0.nonce == ask.nonce
            }
        }),
{
}

/// The words for an order begin with the price, then give the quantity, then the
/// nonce, each number in decimal, and nothing else of the order.
pub proof fn law_order_words(order: Order, price: Seq<char>)
    ensures
        ({
            let text = order_text(order, price);
            let quantity = number::decimal_text(order.quantity as nat);
            let nonce = number::decimal_text(order.nonce as nat);
            let (a, b) = (4 + price.len() as int, 9 + price.len() as int + quantity.len() as int);
            &&& text.len() == b + 7 + nonce.len()
            &&& text.subrange(0, 4) == "px=$"@
            &&& text.subrange(4, a) == price
            &&& text.subrange(a, a + 5) == " qty="@
            &&& text.subrange(a + 5, b) == quantity
            &&& text.subrange(b, b + 7) == " nonce="@
            &&& text.subrange(b + 7, text.len() as int) == nonce
        }),
{
    reveal_strlit("px=$");
    reveal_strlit(" qty=");
    reveal_strlit(" nonce=");
    let text = order_text(order, price);
    let quantity = number::decimal_text(order.quantity as nat);
    let nonce = number::decimal_text(order.nonce as nat);
    let (a, b) = (4 + price.len() as int, 9 + price.len() as int + quantity.len() as int);
    assert(text.subrange(0, 4) =~= "px=$"@);
    assert(text.subrange(4, a) =~= price);
    assert(text.subrange(a, a + 5) =~= " qty="@);
    assert(text.subrange(a + 5, b) =~= quantity);
    assert(text.subrange(b, b + 7) =~= " nonce="@);
    assert(text.subrange(b + 7, text.len() as int) =~= nonce);
}

} // verus!
