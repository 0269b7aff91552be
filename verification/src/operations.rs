//! Laws of the operations as they are called: what the results of a call, or of
//! several calls, satisfy, said of the values that go in and come out.
//!
//! A call is spoken of by `call_ensures`, which holds of the arguments and results
//! that the contract of a function allows. Of an operation that changes its
//! argument, the value before and the value after both have a name.
use crate::binary64::Binary64;
use crate::contracts;
use crate::contracts::{compute_pool_id, sorted_pair};
use crate::engine::allowance::{check_approval, ensure_allowance, AllowanceAction};
use crate::engine::book;
use crate::engine::book::{
    fetch_top_of_book, find_owned_orders, walk_top, SearchAction, SearchEvent, TopWalk, TreeSearch,
    WalkAction, WalkEvent,
};
use crate::engine::close;
use crate::engine::close::{
    claim_action, claim_rewards, close_active_order, ClaimStage, CloseAction, CloseEvent, CloseStep,
};
use crate::engine::config;
use crate::engine::config::{load_config, state_path, temporary_path, validate_config, Settings};
use crate::engine::cycle;
use crate::engine::cycle::{begin_cycle, inspect, plan_quotes, run_cycle, Cycle, CycleAction, CycleEvent};
use crate::engine::place;
use crate::engine::place::{
    place_order, unique_match, FillRequest, PlaceAction, PlaceEvent, Placement,
};
use crate::engine::receipt;
use crate::engine::receipt::{wait_receipt, Receipt, ReceiptAction, ReceiptWait};
use crate::engine::reconcile;
use crate::engine::reconcile::reconcile_active_orders;
use crate::engine::state::{
    load_active_orders, ActiveOrder, ActiveOrders, BookKey, CycleView, Observation, Side,
};
use crate::error::{ConfigError, EngineError};
use crate::gui;
use crate::gui::{poll_secs, Gui, Shared};
use crate::number;
use crate::number::{parse_unsigned, NumberError};
use crate::order;
use crate::order::{pack, unpack, Order, PackError};
use crate::strategy;
use crate::strategy::{apply_balance_limit, compute_quotes, quotes_fit, MmConfig, Quotes, TargetTicks};
use crate::words;
use crate::words::{Address, B256};
use vstd::prelude::*;

verus! {

// ---------------------------------------------------------------------------
// Orders and pools
// ---------------------------------------------------------------------------

/// Every order packs, and unpacking the word gives the order back.
pub proof fn law_pack_then_unpack(
    tick: i32,
    quantity: u128,
    nonce: u32,
    packed: Result<B256, PackError>,
    back: Order,
)
    requires
        call_ensures(pack, (tick, quantity, nonce), packed),
        call_ensures(unpack, (&packed->Ok_0,), back),
    ensures
        packed is Ok,
        back.tick == tick,
        back.quantity == quantity,
        back.nonce == nonce,
{
    order::law_unpack_inverts_pack(tick, quantity, nonce, packed->Ok_0);
}

/// Orders that pack into one word are one order.
pub proof fn law_pack_tells_orders_apart(
    a: Order,
    b: Order,
    packed_a: Result<B256, PackError>,
    packed_b: Result<B256, PackError>,
)
    requires
        call_ensures(pack, (a.tick, a.quantity, a.nonce), packed_a),
        call_ensures(pack, (b.tick, b.quantity, b.nonce), packed_b),
        packed_a->Ok_0 == packed_b->Ok_0,
    ensures
        a == b,
{
    order::law_pack_is_injective(a, b);
}

/// The pool of the bot is that of the two tokens in address order, and is named by
/// the digest of 64 bytes: the first token at 12, the second at 44, zeros elsewhere.
pub proof fn law_pool_is_named_by_its_pair(
    token0: Address,
    token1: Address,
    id: B256,
    preimage: Seq<u8>,
    pair: (Address, Address),
)
    requires
        call_ensures(compute_pool_id, (token0, token1), id),
        call_ensures(sorted_pair, (), pair),
        preimage.len() == 64,
        forall|i: int| 12 <= i < 32 ==> #[trigger] preimage[i] == token0.0@[i - 12],
        forall|i: int| 44 <= i < 64 ==> #[trigger] preimage[i] == token1.0@[i - 44],
        forall|i: int| 0 <= i < 12 || 32 <= i < 44 ==> #[trigger] preimage[i] == 0,
    ensures
        id.0@ == contracts::keccak256_digest(preimage),
        pair.0.0@ == contracts::USDG@,
        pair.1.0@ == contracts::NVDA@,
{
    assert(preimage =~= contracts::left_padded(token0) + contracts::left_padded(token1));
}

// ---------------------------------------------------------------------------
// Quotes
// ---------------------------------------------------------------------------

/// What the strategy quotes: both sides, in the configured sizes; the ask at its
/// target or one tick below a best ask that is better; the bid at its target or one
/// tick above a best bid that is better, unless the gap to the ask holds it back.
pub proof fn law_quotes_of_a_call(
    cfg: MmConfig,
    target: TargetTicks,
    top_bid: Option<&Order>,
    top_ask: Option<&Order>,
    quotes: Result<Quotes, EngineError>,
    free: int,
)
    requires
        call_ensures(compute_quotes, (&cfg, &target, top_bid, top_ask), quotes),
        strategy::quotes_in_range(
            cfg,
            target,
            strategy::order_at(top_bid),
            strategy::order_at(top_ask),
        ),
        top_bid is None ==> free == target.bid,
        top_bid is Some && top_bid->0.tick <= target.bid ==> free == target.bid,
        top_bid is Some && top_bid->0.tick > target.bid ==> free == top_bid->0.tick + 1,
    ensures
        quotes is Ok,
        ({
            let (bid, ask) = (quotes->Ok_0.bid, quotes->Ok_0.ask);
            &&& bid is Some && ask is Some
            &&& bid->0.quantity == cfg.bid_quantity && bid->0.nonce == 0
            &&& ask->0.quantity == cfg.ask_quantity && ask->0.nonce == 0
            &&& top_ask is None ==> ask->0.tick == target.ask
            &&& top_ask is Some && top_ask->0.tick >= target.ask ==> ask->0.tick == target.ask
            &&& top_ask is Some && top_ask->0.tick < target.ask ==> ask->0.tick
                == top_ask->0.tick - 1
            &&& ask->0.tick - free >= cfg.min_tick_gap ==> bid->0.tick == free
            &&& ask->0.tick - free < cfg.min_tick_gap ==> bid->0.tick == ask->0.tick
                - cfg.min_tick_gap
        }),
{
    let (b, a) = (strategy::order_at(top_bid), strategy::order_at(top_ask));
    strategy::law_quotes_have_the_configured_sizes(cfg, target, b, a);
    strategy::law_ask_tick(cfg, target, b, a);
    strategy::law_bid_tick(cfg, target, b, a, free);
}

/// Quotes that are computed can be computed, and a plan fails exactly where they
/// cannot.
pub proof fn law_plan_fails_where_quotes_do_not_fit(
    cfg: MmConfig,
    target: TargetTicks,
    seen: Observation,
    fit: bool,
    plan: Result<Quotes, EngineError>,
)
    requires
        call_ensures(
            quotes_fit,
            (&cfg, &target, reference(seen.bid), reference(seen.ask)),
            fit,
        ),
        call_ensures(plan_quotes, (&cfg, &target, &seen), plan),
    ensures
        fit <==> plan is Ok,
        plan matches Err(error) ==> error == EngineError::TickOverflow,
{
}

/// An order as a reference to it.
pub open spec fn reference(order: Option<Order>) -> Option<&'static Order> {
    match order {
        Some(o) => Some(&o),
        None => None,
    }
}

/// A limited quote sells what it did, or the balance where that is less, and nothing
/// else of it changes; only a full inventory takes the bid away.
pub proof fn law_limit_of_a_call(
    before: Quotes,
    usdg_balance: u128,
    nvda_balance: u128,
    max_nvda_inventory: u128,
    after: Quotes,
)
    requires
        exists|quotes: &mut Quotes|
            #![trigger call_ensures(
                apply_balance_limit,
                (quotes, usdg_balance, nvda_balance, max_nvda_inventory),
                (),
            )]
            call_ensures(
                apply_balance_limit,
                (quotes, usdg_balance, nvda_balance, max_nvda_inventory),
                (),
            ) && *quotes == before && *final(quotes) == after,
    ensures
        nvda_balance >= max_nvda_inventory ==> after.bid is None,
        nvda_balance < max_nvda_inventory ==> (after.bid is Some <==> before.bid is Some),
        after.ask is Some <==> before.ask is Some,
        after.bid is Some ==> after.bid->0.tick == before.bid->0.tick && after.bid->0.nonce
            == before.bid->0.nonce,
        after.ask is Some ==> after.ask->0.tick == before.ask->0.tick && after.ask->0.nonce
            == before.ask->0.nonce,
        after.bid is Some ==> after.bid->0.quantity <= usdg_balance && after.bid->0.quantity
            <= before.bid->0.quantity && (after.bid->0.quantity == usdg_balance
            || after.bid->0.quantity == before.bid->0.quantity),
        after.ask is Some ==> after.ask->0.quantity <= nvda_balance && after.ask->0.quantity
            <= before.ask->0.quantity && (after.ask->0.quantity == nvda_balance
            || after.ask->0.quantity == before.ask->0.quantity),
{
}

/// What an inspection shows is what was observed and what a cycle that begins there
/// would place, for a configuration that is accepted.
pub proof fn law_inspection_shows_the_cycle(
    cfg: MmConfig,
    target: TargetTicks,
    pair: (Address, Address),
    seen: Observation,
    active: ActiveOrders,
    valid: Result<(), ConfigError>,
    view: Result<CycleView, EngineError>,
    begun: Result<(Cycle, CycleAction), EngineError>,
)
    requires
        call_ensures(validate_config, (&cfg,), valid),
        call_ensures(inspect, (&cfg, &target, &seen), view),
        call_ensures(begin_cycle, (&cfg, &target, pair, &seen, &active), begun),
    ensures
        valid matches Err(fault) ==> view == Err::<CycleView, EngineError>(
            EngineError::Config(fault),
        ),
        valid is Ok ==> (view is Ok <==> begun is Ok),
        view matches Ok(shown) ==> {
            &&& valid is Ok
            &&& shown.epoch == seen.epoch
            &&& shown.bid == seen.bid
            &&& shown.ask == seen.ask
            &&& shown.usdg_balance == seen.usdg_balance
            &&& shown.nvda_balance == seen.nvda_balance
            &&& begun matches Ok((round, _)) && shown.quotes == round.quotes
        },
        begun matches Ok((round, _)) ==> {
            &&& round.token0 == pair.0
            &&& round.token1 == pair.1
            &&& round.epoch == seen.epoch
        },
{
}

// ---------------------------------------------------------------------------
// Settings
// ---------------------------------------------------------------------------

/// What is loaded is valid and holds the settings that were given; what is refused
/// breaks the rule that is named, and the same one that validation names.
pub proof fn law_loaded_config(
    settings: Settings,
    loaded: Result<MmConfig, ConfigError>,
    valid: Result<(), ConfigError>,
)
    requires
        call_ensures(load_config, (&settings,), loaded),
        call_ensures(validate_config, (&config::configured(settings),), valid),
    ensures
        loaded is Ok <==> valid is Ok,
        loaded matches Err(fault) ==> valid == Err::<(), ConfigError>(fault),
        loaded matches Ok(cfg) ==> {
            &&& settings.mid_price is Some ==> cfg.mid_price == settings.mid_price->0
            &&& settings.spread is Some ==> cfg.half_spread_pct == settings.spread->0
            &&& settings.interval_secs is Some ==> cfg.interval_secs == settings.interval_secs->0
            &&& settings.bid_quantity is Some ==> cfg.bid_quantity == settings.bid_quantity->0
            &&& settings.ask_quantity is Some ==> cfg.ask_quantity == settings.ask_quantity->0
            &&& settings.max_nvda is Some ==> cfg.max_nvda_inventory == settings.max_nvda->0
            &&& 0 < cfg.mid_price.bits < 0x7ff0_0000_0000_0000
            &&& 0 < cfg.half_spread_pct.bits < 0x3ff0_0000_0000_0000
            &&& cfg.interval_secs >= 5
            &&& cfg.bid_quantity >= 1 && cfg.ask_quantity >= 1
            &&& cfg.max_nvda_inventory >= 1
        },
{
    config::law_given_settings_count(settings);
    config::law_accepted_configurations(config::configured(settings));
}

/// Validation accepts exactly what keeps every rule.
pub proof fn law_validation(cfg: MmConfig, valid: Result<(), ConfigError>)
    requires
        call_ensures(validate_config, (&cfg,), valid),
    ensures
        valid is Ok <==> {
            &&& 0 < cfg.mid_price.bits < 0x7ff0_0000_0000_0000
            &&& 0 < cfg.half_spread_pct.bits < 0x3ff0_0000_0000_0000
            &&& cfg.interval_secs >= 5
            &&& cfg.bid_quantity >= 1 && cfg.ask_quantity >= 1
            &&& cfg.max_nvda_inventory >= 1
        },
{
    config::law_accepted_configurations(cfg);
}

/// The state goes to the file that was given, else to `active_orders.json`, by way
/// of a file with the same name and `.tmp` at its end; what was stored is what is
/// loaded.
pub proof fn law_state_file(
    given: Option<String>,
    path: String,
    name: &str,
    temporary: String,
    stored: Option<ActiveOrders>,
    active: ActiveOrders,
)
    requires
        call_ensures(state_path, (given,), path),
        call_ensures(temporary_path, (name,), temporary),
        call_ensures(load_active_orders, (stored,), active),
    ensures
        given matches Some(text) ==> path@ == text@,
        given is None ==> path@ == "active_orders.json"@,
        temporary@.len() == name@.len() + 4,
        temporary@.take(name@.len() as int) == name@,
        temporary@.skip(name@.len() as int) == ".tmp"@,
        stored matches Some(orders) ==> active == orders,
        stored is None ==> active.bid is None && active.ask is None,
{
    reveal_strlit(".tmp");
    assert(temporary@.take(name@.len() as int) =~= name@);
    assert(temporary@.skip(name@.len() as int) =~= ".tmp"@);
}

// ---------------------------------------------------------------------------
// Reading the book
// ---------------------------------------------------------------------------

/// A step of the descent, whatever orders the words carry: to the right child where
/// there are two, to the left one where there is no other; to the end, with the order
/// of the node itself, where there is no left one; and to a failure where 256 levels
/// were read.
pub proof fn law_descent_of_a_call(
    before: TopWalk,
    left: B256,
    right: B256,
    after: TopWalk,
    action: Result<WalkAction, EngineError>,
)
    requires
        exists|walk: &mut TopWalk| #[trigger]
            call_ensures(walk_top, (walk, WalkEvent::Children(left, right)), action) && *walk == before && *final(walk) == after,
    ensures
        left.value() != 0 && right.value() != 0 && before.level < 255 ==> action == Ok::<
            WalkAction,
            EngineError,
        >(WalkAction::Read(right)) && after.node == right && after.level == before.level + 1,
        left.value() != 0 && right.value() == 0 && before.level < 255 ==> action == Ok::<
            WalkAction,
            EngineError,
        >(WalkAction::Read(left)) && after.node == left && after.level == before.level + 1,
        left.value() != 0 && before.level >= 255 ==> action == Err::<WalkAction, EngineError>(
            EngineError::TreeTooDeep,
        ),
        left.value() == 0 ==> action == Ok::<WalkAction, EngineError>(
            WalkAction::Top(
                Some(order::order_of(before.node)),
                order::order_of(before.node).nonce,
            ),
        ),
{
    book::law_descent_steps_right(before, left, right);
}

/// Both best orders are handed out exactly when each has the nonce that the chain
/// reports, an empty side the nonce zero from its descent; the bid is looked at
/// first.
pub proof fn law_top_of_book(
    bid: (Option<Order>, u32),
    ask: (Option<Order>, u32),
    reported_bid: u32,
    reported_ask: u32,
    top: Result<(Option<Order>, Option<Order>), EngineError>,
)
    requires
        call_ensures(fetch_top_of_book, (bid, ask, reported_bid, reported_ask), top),
    ensures
        ({
            let bid_fits = (bid.0 is Some && bid.0->0.nonce == reported_bid) || (bid.0 is None
                && bid.1 == 0);
            let ask_fits = (ask.0 is Some && ask.0->0.nonce == reported_ask) || (ask.0 is None
                && ask.1 == 0);
            &&& bid_fits && ask_fits ==> top == Ok::<(Option<Order>, Option<Order>), EngineError>(
                (bid.0, ask.0),
            )
            &&& !bid_fits ==> top is Err && top->Err_0 is BidNonceMismatch
            &&& bid_fits && !ask_fits ==> top is Err && top->Err_0 is AskNonceMismatch
        }),
{
}

/// A step of the search. A node is found exactly when it belongs to the owner and
/// has what is looked for; the search goes on to its right child, else to its left
/// one, and fails where ten thousand nodes would be pending.
pub proof fn law_search_of_a_call(
    before: TreeSearch,
    node: B256,
    node_owner: Option<Address>,
    left: B256,
    right: B256,
    after: TreeSearch,
    action: Result<SearchAction, EngineError>,
)
    requires
        exists|search: &mut TreeSearch| #[trigger]
            call_ensures(find_owned_orders, (search, SearchEvent::Visited(node, node_owner, left, right)), action) && *search == before
                && *final(search) == after,
    ensures
        ({
            let order = order::order_of(node);
            let fits = before.wanted is None || (order.tick == before.wanted->0.tick
                && order.quantity == before.wanted->0.quantity);
            let mine = node_owner is Some && node_owner->0 == before.owner;
            let room = before.stack@.len() + 2 < 10000;
            &&& mine && fits ==> after.found@ == before.found@.push(node)
            &&& !(mine && fits) ==> after.found@ == before.found@
            &&& after.owner == before.owner && after.wanted == before.wanted
            &&& !room ==> action == Err::<SearchAction, EngineError>(EngineError::TraversalBound)
            &&& room && right.value() != 0 ==> action is Ok && action->Ok_0 is Visit
                && action->Ok_0->Visit_0.node == right && after.stack@ == before.stack@.push(left)
            &&& room && right.value() == 0 && left.value() != 0 ==> action is Ok
                && action->Ok_0 is Visit && action->Ok_0->Visit_0.node == left && after.stack@
                == before.stack@
        }),
{
    book::law_node_is_found(before@, node, node_owner, left, right);
    book::law_search_goes_right_first(before@, node, node_owner, left, right);
}

/// A search that begins, or goes on from a node without children: it takes the last
/// pending node, or is over where nothing is pending.
pub proof fn law_search_begun_by_a_call(
    before: TreeSearch,
    after: TreeSearch,
    action: Result<SearchAction, EngineError>,
)
    requires
        exists|search: &mut TreeSearch| #[trigger]
            call_ensures(find_owned_orders, (search, SearchEvent::Begin), action) && *search == before
                && *final(search) == after,
    ensures
        after.found@ == before.found@,
        before.stack@.len() == 0 ==> action == Ok::<SearchAction, EngineError>(
            SearchAction::Finished,
        ),
        before.stack@.len() > 0 && before.stack@.last().value() != 0 ==> action is Ok
            && action->Ok_0 is Visit && action->Ok_0->Visit_0.node == before.stack@.last()
            && after.stack@ == before.stack@.drop_last(),
{
    book::law_search_takes_the_last_pending_node(before@);
}

// ---------------------------------------------------------------------------
// Placing
// ---------------------------------------------------------------------------

/// The steps of a placement up to the search: simulate the request, send the same
/// request, wait for what was sent, look at the receipt. The simulated word is what
/// is remembered.
pub proof fn law_placement_of_a_call(
    before: Placement,
    event: PlaceEvent,
    after: Placement,
    action: Result<PlaceAction, EngineError>,
)
    requires
        exists|placement: &mut Placement| #[trigger]
            call_ensures(place_order, (placement, event), action) && *placement == before
                && *final(placement) == after,
    ensures
        after.request == before.request,
        after.owner == before.owner,
        event is Begin ==> action == Ok::<PlaceAction, EngineError>(
            PlaceAction::Simulate(before.request),
        ),
        event matches PlaceEvent::Simulated(word) ==> action == Ok::<PlaceAction, EngineError>(
            PlaceAction::Send(before.request),
        ) && after.simulated == word,
        !(event is Simulated) ==> after.simulated == before.simulated,
        event matches PlaceEvent::Sent(hash) ==> action == Ok::<PlaceAction, EngineError>(
            PlaceAction::AwaitReceipt(hash),
        ),
        event matches PlaceEvent::Included(receipt) ==> {
            &&& !receipt.status ==> action == Err::<PlaceAction, EngineError>(
                EngineError::FillFailed,
            )
            &&& receipt.status && before.simulated.value() != 0 ==> action == Ok::<
                PlaceAction,
                EngineError,
            >(PlaceAction::ReadRoots)
            &&& receipt.status && before.simulated.value() == 0 ==> action == Ok::<
                PlaceAction,
                EngineError,
            >(PlaceAction::Placed(before.simulated))
        },
{
    words::law_zero_word_spells_zero(before.simulated);
}

/// What the search of a placement looks for: orders of the wallet with the tick and
/// the whole quantity of the simulated order, in the tree of its own side.
pub proof fn law_placement_search_of_a_call(
    before: Placement,
    bid_root: B256,
    ask_root: B256,
    after: Placement,
    action: Result<PlaceAction, EngineError>,
)
    requires
        exists|placement: &mut Placement| #[trigger]
            call_ensures(place_order, (placement, PlaceEvent::Roots(bid_root, ask_root)), action) && *placement == before
                && *final(placement) == after,
    ensures
        ({
            let root = if before.request.is_bid {
                bid_root
            } else {
                ask_root
            };
            let order = order::order_of(before.simulated);
            &&& after.search.owner == before.owner
            &&& after.search.wanted is Some
            &&& after.search.wanted->0.tick == order.tick
            &&& after.search.wanted->0.quantity == order.quantity
            &&& after.search.found@.len() == 0
            &&& root.value() != 0 ==> action is Ok && action->Ok_0 is Visit
                && action->Ok_0->Visit_0.node == root
            &&& root.value() == 0 ==> action == Err::<PlaceAction, EngineError>(
                EngineError::NoRestingOrder,
            )
        }),
{
    place::law_placement_looks_for_the_simulated_order(before@, bid_root, ask_root);
    book::law_search_contents(after.search);
}

/// A single node that belongs to the wallet and has the tick and quantity of the
/// simulated order is where the order rests; one that lacks any of these is not.
pub proof fn law_single_node_of_a_call(
    before: Placement,
    node: B256,
    node_owner: Option<Address>,
    left: B256,
    right: B256,
    after: Placement,
    action: Result<PlaceAction, EngineError>,
)
    requires
        exists|placement: &mut Placement| #[trigger]
            call_ensures(place_order, (placement, PlaceEvent::Visited(node, node_owner, left, right)), action) && *placement == before
                && *final(placement) == after,
        before.search.stack@.len() == 0,
        before.search.found@.len() == 0,
        before.search.wanted is Some,
        left.value() == 0,
        right.value() == 0,
    ensures
        ({
            let order = order::order_of(node);
            let matching = order.tick == before.search.wanted->0.tick && order.quantity
                == before.search.wanted->0.quantity && node_owner is Some && node_owner->0
                == before.search.owner;
            &&& matching ==> action == Ok::<PlaceAction, EngineError>(PlaceAction::Placed(node))
            &&& !matching ==> action == Err::<PlaceAction, EngineError>(EngineError::NoRestingOrder)
        }),
{
    place::law_placement_follows_its_search(before@, node, node_owner, left, right);
    book::law_node_is_found(before.search@, node, node_owner, left, right);
    book::law_search_goes_right_first(before.search@, node, node_owner, left, right);
    book::law_search_takes_the_last_pending_node(before.search@);
}

/// The one order that was found is the match; none or several are an error.
pub proof fn law_unique_match(found: Vec<B256>, result: Result<B256, EngineError>)
    requires
        call_ensures(unique_match, (&found,), result),
    ensures
        found@.len() == 0 ==> result == Err::<B256, EngineError>(EngineError::NoRestingOrder),
        found@.len() == 1 ==> result == Ok::<B256, EngineError>(found@[0]),
        found@.len() > 1 ==> result == Err::<B256, EngineError>(EngineError::MultipleMatching),
{
}

// ---------------------------------------------------------------------------
// Closing
// ---------------------------------------------------------------------------

/// Whatever happens, the closing stays with its order; it asks for a cancellation
/// only of an order whose claim is registered, and for a payout only of one that is
/// also cancelled; each in the book, the epoch and the token of that order.
pub proof fn law_closing_of_a_call(
    before: ActiveOrder,
    book_id: B256,
    event: CloseEvent,
    after: ActiveOrder,
    action: Result<CloseAction, EngineError>,
)
    requires
        exists|order: &mut ActiveOrder| #[trigger]
            call_ensures(close_active_order, (order, book_id, event), action) && *order == before
                && *final(order) == after,
    ensures
        after.packed == before.packed,
        after.epoch == before.epoch,
        after.sold_token == before.sold_token,
        before.claimant_registered ==> after.claimant_registered,
        before.cancelled ==> after.cancelled,
        action matches Ok(CloseAction::Register { book_id: b, order: o }) ==> b == book_id && o
            == before.packed && !after.claimant_registered,
        action matches Ok(CloseAction::Cancel { epoch, order: o }) ==> epoch == before.epoch && o
            == before.packed && after.claimant_registered && !after.cancelled,
        action matches Ok(CloseAction::Distribute { book_id: b, order: o, token }) ==> b == book_id
            && o == before.packed && token == before.sold_token && after.claimant_registered
            && after.cancelled,
{
}

/// A step counts as done only once its transaction was included with effect; then
/// its mark is set, and no other. Without effect nothing is recorded and the error
/// names the step.
pub proof fn law_closing_step_of_a_call(
    before: ActiveOrder,
    book_id: B256,
    step: CloseStep,
    receipt: Receipt,
    after: ActiveOrder,
    action: Result<CloseAction, EngineError>,
)
    requires
        exists|order: &mut ActiveOrder| #[trigger]
            call_ensures(close_active_order, (order, book_id, CloseEvent::Included(step, receipt)), action) && *order == before
                && *final(order) == after,
    ensures
        !receipt.status ==> after == before && action is Err,
        !receipt.status && step is Register ==> action->Err_0 is RegisterFailed,
        !receipt.status && step is Cancel ==> action->Err_0 is CancelFailed,
        !receipt.status && step is Distribute ==> action->Err_0 is DistributeFailed,
        receipt.status ==> action is Ok && after.claimant_registered == (before.claimant_registered
            || step is Register) && after.cancelled == (before.cancelled || step is Cancel),
        receipt.status && step is Cancel ==> after.last_tx_hash == Some(receipt.transaction_hash),
        !(step is Cancel) ==> after.last_tx_hash == before.last_tx_hash,
        receipt.status ==> (action->Ok_0 is Closed <==> step is Distribute),
{
}

/// A closing that begins, or is told that a transaction was sent, counts no step as
/// done; it asks for the step that is missing, or for the receipt.
pub proof fn law_closing_begun_by_a_call(
    before: ActiveOrder,
    book_id: B256,
    event: CloseEvent,
    after: ActiveOrder,
    action: Result<CloseAction, EngineError>,
)
    requires
        exists|order: &mut ActiveOrder| #[trigger]
            call_ensures(close_active_order, (order, book_id, event), action) && *order == before
                && *final(order) == after,
        !(event is Included),
    ensures
        action is Ok,
        after.claimant_registered == before.claimant_registered,
        after.cancelled == before.cancelled,
        event is Begin ==> after == before,
        event is Begin && !before.claimant_registered ==> action->Ok_0 is Register,
        event is Begin && before.claimant_registered && !before.cancelled
            ==> action->Ok_0 is Cancel,
        event is Begin && before.claimant_registered && before.cancelled
            ==> action->Ok_0 is Distribute,
        event matches CloseEvent::Sent(step, hash) ==> action->Ok_0 is AwaitReceipt && (
        after.last_tx_hash == if step is Cancel {
            before.last_tx_hash
        } else {
            Some(hash)
        }),
{
}

/// A claim registers the order in its book and then pays out the same order in the
/// token it sold; only a payout that took effect claims it.
pub proof fn law_claim_of_a_call(
    stage: ClaimStage,
    book_id: B256,
    order: B256,
    sold_token: Address,
    receipt: Receipt,
    action: CloseAction,
    next: Result<ClaimStage, EngineError>,
)
    requires
        call_ensures(claim_action, (stage, book_id, order, sold_token), action),
        call_ensures(claim_rewards, (stage, &receipt), next),
    ensures
        stage is Registering ==> action == (CloseAction::Register { book_id, order }) && next
            == Ok::<ClaimStage, EngineError>(ClaimStage::Distributing),
        stage is Distributing ==> action == (CloseAction::Distribute {
            book_id,
            order,
            token: sold_token,
        }),
        stage is Distributing && receipt.status ==> next == Ok::<ClaimStage, EngineError>(
            ClaimStage::Claimed,
        ),
        stage is Distributing && !receipt.status ==> next == Err::<ClaimStage, EngineError>(
            EngineError::ClaimFailed,
        ),
        stage is Claimed ==> action == CloseAction::Closed && next == Ok::<
            ClaimStage,
            EngineError,
        >(ClaimStage::Claimed),
{
}

// ---------------------------------------------------------------------------
// The cycle
// ---------------------------------------------------------------------------

/// A placed order goes on record under the very word it rests under, whatever order
/// that carries, with the epoch of the cycle and the token of its side, and without a
/// history; only the zero word leaves nothing. The other side stays as it is.
pub proof fn law_placing_of_a_call(
    before: Cycle,
    record_before: ActiveOrders,
    resting: B256,
    after: Cycle,
    record_after: ActiveOrders,
    action: CycleAction,
)
    requires
        exists|round: &mut Cycle, active: &mut ActiveOrders| #[trigger]
            call_ensures(run_cycle, (round, active, CycleEvent::Placed(resting)), action) && *round == before && *final(round)
                == after && *active == record_before && *final(active) == record_after,
        before.phase is PlacingBid || before.phase is PlacingAsk,
    ensures
        ({
            let bid = before.phase is PlacingBid;
            let (side, other, other_before) = if bid {
                (record_after.bid, record_after.ask, record_before.ask)
            } else {
                (record_after.ask, record_after.bid, record_before.bid)
            };
            &&& other == other_before
            &&& resting.value() == 0 ==> side is None
            &&& resting.value() != 0 ==> {
                &&& side is Some
                &&& side->0.packed == resting
                &&& side->0.epoch == before.epoch
                &&& bid ==> side->0.sold_token == before.token0
                &&& !bid ==> side->0.sold_token == before.token1
                &&& !side->0.claimant_registered
                &&& !side->0.cancelled
                &&& side->0.last_tx_hash is None
            }
        }),
{
    cycle::law_placed_order_goes_on_record(before, record_before, resting);
}

/// A closed order leaves the record, and the other side stays as it is.
pub proof fn law_closed_of_a_call(
    before: Cycle,
    record_before: ActiveOrders,
    after: Cycle,
    record_after: ActiveOrders,
    action: CycleAction,
)
    requires
        exists|round: &mut Cycle, active: &mut ActiveOrders| #[trigger]
            call_ensures(run_cycle, (round, active, CycleEvent::Closed), action) && *round == before && *final(round)
                == after && *active == record_before && *final(active) == record_after,
    ensures
        before.phase is ClosingBid ==> record_after.bid is None && record_after.ask
            == record_before.ask,
        before.phase is ClosingAsk ==> record_after.ask is None && record_after.bid
            == record_before.bid,
{
}

/// After each step the cycle asks for the next one: the old ask after the old bid,
/// then the new bid, then the new ask, with what is not there left out. A word that
/// is to be placed reads back as the quote of its side.
pub proof fn law_next_step_of_a_call(
    before: Cycle,
    record_before: ActiveOrders,
    event: CycleEvent,
    after: Cycle,
    record_after: ActiveOrders,
    action: CycleAction,
)
    requires
        exists|round: &mut Cycle, active: &mut ActiveOrders| #[trigger]
            call_ensures(run_cycle, (round, active, event), action) && *round == before && *final(round)
                == after && *active == record_before && *final(active) == record_after,
    ensures
        ({
            let (bid, ask) = (before.quotes.bid, before.quotes.ask);
            let bids = bid is Some && bid->0.quantity >= 1;
            let asks = ask is Some && ask->0.quantity >= 1;
            let closes_ask = before.phase is ClosingBid && record_before.ask is Some;
            let closed_all = before.phase is ClosingAsk || before.phase is ClosingBid
                && record_before.ask is None;
            let asks_next = (closed_all && !bids || before.phase is PlacingBid) && asks;
            &&& closes_ask ==> action == CycleAction::Close(Side::Ask)
            &&& closed_all && bids ==> action is Place && action->Place_0 == Side::Bid
                && order::order_of(action->Place_1).tick == bid->0.tick && order::order_of(
                action->Place_1,
            ).quantity == bid->0.quantity && order::order_of(action->Place_1).nonce == 0
            &&& asks_next ==> action is Place && action->Place_0 == Side::Ask && order::order_of(
                action->Place_1,
            ).tick == ask->0.tick && order::order_of(action->Place_1).quantity == ask->0.quantity
                && order::order_of(action->Place_1).nonce == 0
            &&& before.phase is PlacingAsk || ((closed_all && !bids || before.phase is PlacingBid)
                && !asks) ==> action == CycleAction::Complete
            &&& after.quotes == before.quotes && after.epoch == before.epoch && after.token0
                == before.token0 && after.token1 == before.token1
        }),
{
    cycle::law_next_task(before, record_before, event);
    cycle::law_task_is_asked_for(after, action);
}

/// A fill is for the pair and the epoch of its cycle, as a bid exactly on the bid
/// side, and may rest; an order is closed in the book of its own epoch.
pub proof fn law_fill_and_book_of_a_call(
    round: Cycle,
    side: Side,
    packed: B256,
    request: FillRequest,
    order: ActiveOrder,
    key: BookKey,
    filled: BookKey,
)
    requires
        call_ensures(Cycle::fill, (&round, side, packed), request),
        call_ensures(Cycle::closing_book, (&round, &order), key),
        call_ensures(FillRequest::book, (&request,), filled),
    ensures
        request.order == packed,
        request.is_bid <==> side is Bid,
        request.token0 == round.token0 && request.token1 == round.token1,
        request.epoch == round.epoch,
        !request.no_rest && !request.fill_or_kill,
        key.token0 == round.token0 && key.token1 == round.token1 && key.epoch == order.epoch,
        filled.token0 == round.token0 && filled.token1 == round.token1 && filled.epoch
            == round.epoch,
{
}

// ---------------------------------------------------------------------------
// Startup, receipts, allowances
// ---------------------------------------------------------------------------

/// At startup the record changes only where at most one order was found on each
/// side. An order that was not on record before is one that was found, of the epoch
/// that was read, selling the token of its side, and without a history.
pub proof fn law_reconcile_of_a_call(
    before: ActiveOrders,
    epoch: u64,
    pair: (Address, Address),
    bids: Vec<B256>,
    asks: Vec<B256>,
    after: ActiveOrders,
    result: Result<(), EngineError>,
)
    requires
        exists|active: &mut ActiveOrders| #[trigger]
            call_ensures(reconcile_active_orders, (active, epoch, pair, &bids, &asks), result)
                && *active == before && *final(active) == after,
    ensures
        result is Ok <==> bids@.len() <= 1 && asks@.len() <= 1,
        bids@.len() > 1 ==> result->Err_0 is MultipleOwnedBids,
        bids@.len() <= 1 && asks@.len() > 1 ==> result->Err_0 is MultipleOwnedAsks,
        result is Err ==> after == before,
        after.bid is Some && after.bid != before.bid ==> {
            &&& bids@.len() == 1
            &&& after.bid->0.packed == bids@[0]
            &&& after.bid->0.epoch == epoch
            &&& after.bid->0.sold_token == pair.0
            &&& !after.bid->0.claimant_registered && !after.bid->0.cancelled
            &&& after.bid->0.last_tx_hash is None
        },
        after.ask is Some && after.ask != before.ask ==> {
            &&& asks@.len() == 1
            &&& after.ask->0.packed == asks@[0]
            &&& after.ask->0.epoch == epoch
            &&& after.ask->0.sold_token == pair.1
            &&& !after.ask->0.claimant_registered && !after.ask->0.cancelled
            &&& after.ask->0.last_tx_hash is None
        },
{
    reconcile::law_adopted_order_has_no_history(before.bid, epoch, pair.0, bids@);
    reconcile::law_adopted_order_has_no_history(before.ask, epoch, pair.1, asks@);
}

/// At startup an order stays on record exactly when it is of another epoch or the
/// book holds it; where it does not stay, what was found takes its place, and where
/// nothing was found, nothing does.
pub proof fn law_reconciled_sides_of_a_call(
    before: ActiveOrders,
    epoch: u64,
    pair: (Address, Address),
    bids: Vec<B256>,
    asks: Vec<B256>,
    after: ActiveOrders,
    result: Result<(), EngineError>,
)
    requires
        exists|active: &mut ActiveOrders| #[trigger]
            call_ensures(reconcile_active_orders, (active, epoch, pair, &bids, &asks), result)
                && *active == before && *final(active) == after,
        result is Ok,
    ensures
        ({
            let bid_stays = before.bid is Some && (before.bid->0.epoch != epoch || (bids@.len() == 1
                && bids@[0] == before.bid->0.packed));
            let ask_stays = before.ask is Some && (before.ask->0.epoch != epoch || (asks@.len() == 1
                && asks@[0] == before.ask->0.packed));
            &&& bid_stays ==> after.bid == before.bid
            &&& !bid_stays ==> (after.bid is Some <==> bids@.len() == 1)
            &&& !bid_stays && bids@.len() == 1 ==> after.bid->0.packed == bids@[0]
            &&& ask_stays ==> after.ask == before.ask
            &&& !ask_stays ==> (after.ask is Some <==> asks@.len() == 1)
            &&& !ask_stays && asks@.len() == 1 ==> after.ask->0.packed == asks@[0]
        }),
{
    reconcile::law_reconcile_drops_and_adopts(before.bid, epoch, pair.0, bids@);
    reconcile::law_reconcile_drops_and_adopts(before.ask, epoch, pair.1, asks@);
}

/// A receipt ends the wait; each answer without one is counted, and the sixtieth
/// ends it with an error that names the transaction.
pub proof fn law_wait_of_a_call(
    before: ReceiptWait,
    seen: Option<Receipt>,
    after: ReceiptWait,
    action: ReceiptAction,
)
    requires
        exists|wait: &mut ReceiptWait| #[trigger]
            call_ensures(wait_receipt, (wait, seen), action) && *wait == before && *final(wait) == after,
    ensures
        after.hash == before.hash,
        seen matches Some(got) ==> action == ReceiptAction::Done(got),
        seen is None && before.misses < 59 ==> action == ReceiptAction::Retry(2) && after.misses
            == before.misses + 1,
        seen is None && before.misses >= 59 ==> action == ReceiptAction::GiveUp(
            2,
            EngineError::ReceiptTimeout(before.hash),
        ),
{
    if let Some(got) = seen {
        receipt::law_each_answer(before, got);
    }
}

/// An allowance is left alone exactly when it covers the amount; else the engine is
/// granted an allowance on the same token that covers every amount. An approval
/// counts exactly when it took effect.
pub proof fn law_allowance_of_a_call(
    token: Address,
    current: B256,
    amount: B256,
    action: AllowanceAction,
    any: B256,
    receipt: Receipt,
    checked: Result<(), EngineError>,
)
    requires
        call_ensures(ensure_allowance, (token, &current, &amount), action),
        call_ensures(check_approval, (token, &receipt), checked),
    ensures
        action is Enough <==> current.value() >= amount.value(),
        action matches AllowanceAction::Approve { token: t, spender, amount: granted } ==> t
            == token && spender.0@ == contracts::ROUTER@ && granted.value() >= any.value(),
        checked is Ok <==> receipt.status,
        checked matches Err(error) ==> error == EngineError::ApproveFailed(token),
{
    crate::bytes::lemma_be_value_bound(any.0@);
}

// ---------------------------------------------------------------------------
// The window
// ---------------------------------------------------------------------------

/// Reading the chain adds one line to the log, leaves the error alone on the
/// expected chain and sets one on any other, and touches nothing else.
pub proof fn law_chain_read_of_a_call(before: Shared, chain_id: u64, after: Shared)
    requires
        exists|shared: &mut Shared| #[trigger]
            call_ensures(Shared::chain_id_read, (shared, chain_id), ()) && *shared == before
                && *final(shared) == after,
    ensures
        after.logs@.len() == before.logs@.len() + 1,
        chain_id == 4663 ==> after.error@ == before.error@,
        chain_id != 4663 ==> after.error@.len() > 0,
        after.running == before.running,
        after.status@ == before.status@,
        after.balance@ == before.balance@,
        after.book@ == before.book@,
{
    gui::law_chain_words(chain_id);
    gui::law_all_is_shown(before, 0);
    gui::law_all_is_shown(after, 0);
}

/// A preview is told to stop once; the fields, the log and whether it still runs are
/// left as they are.
pub proof fn law_stop_of_a_call(before: Gui, after: Gui, tell: bool)
    requires
        exists|gui: &mut Gui| #[trigger]
            call_ensures(Gui::stop, (gui,), tell) && *gui == before && *final(gui) == after,
    ensures
        tell == before.stoppable,
        !after.stoppable,
        after.form == before.form,
        after.shared.running == before.shared.running,
        after.shared@.logs == before.shared@.logs,
        after.shared.status@ == "STOPPING"@,
{
    gui::law_all_is_shown(before.shared, 0);
    gui::law_all_is_shown(after.shared, 0);
}

/// The "Start" button hands out a configuration exactly when the fields make one
/// and live mode, if it is on, is confirmed; it holds what the fields read as. Only
/// then does a preview run, and the error is cleared. Either way one line is logged
/// and the fields stay.
pub proof fn law_start_of_a_call(
    before: Gui,
    mid: Result<Binary64, String>,
    spread: Result<Binary64, String>,
    after: Gui,
    cfg: Option<MmConfig>,
)
    requires
        exists|gui: &mut Gui| #[trigger]
            call_ensures(Gui::start, (gui, mid, spread), cfg) && *gui == before && *final(gui)
                == after,
    ensures
        ({
            let form = before.form;
            let bid = number::parsed(form.bid_quantity@, u128::MAX as nat);
            let ask = number::parsed(form.ask_quantity@, u128::MAX as nat);
            let max = number::parsed(form.max_nvda@, u128::MAX as nat);
            let interval = number::parsed(form.interval@, u64::MAX as nat);
            let read = mid is Ok && spread is Ok && bid is Ok && ask is Ok && max is Ok
                && interval is Ok;
            let keeps = {
                &&& interval->Ok_0 >= 5
                &&& bid->Ok_0 >= 1 && ask->Ok_0 >= 1
                &&& max->Ok_0 >= 1
                &&& 0 < mid->Ok_0.bits < 0x7ff0_0000_0000_0000
                &&& 0 < spread->Ok_0.bits < 0x3ff0_0000_0000_0000
            };
            let unlocked = !form.live_enabled || form.confirmation@ == "I UNDERSTAND"@;
            &&& cfg is Some <==> read && keeps && unlocked
            &&& cfg is Some ==> {
                &&& cfg->0.mid_price == mid->Ok_0 && cfg->0.half_spread_pct == spread->Ok_0
                &&& cfg->0.bid_quantity == bid->Ok_0 && cfg->0.ask_quantity == ask->Ok_0
                &&& cfg->0.max_nvda_inventory == max->Ok_0
                &&& cfg->0.interval_secs == interval->Ok_0
                &&& after.shared.running && after.stoppable
                &&& after.shared.error@.len() == 0
                &&& form.live_enabled ==> after.shared.status@ == "GUARDED LIVE MODE"@
                &&& !form.live_enabled ==> after.shared.status@ == "PREVIEW MODE"@
            }
            &&& cfg is None ==> {
                &&& after.shared.running == before.shared.running
                &&& after.stoppable == before.stoppable
                &&& after.shared.error@ == before.shared.error@
                &&& after.shared.status@ == before.shared.status@
            }
            &&& after.form == before.form
            &&& after.shared.logs@.len() == before.shared.logs@.len() + 1
            &&& after.shared.book@ == before.shared.book@
            &&& after.shared.balance@ == before.shared.balance@
        }),
{
    let (m, s) = (gui::real_read(mid), gui::real_read(spread));
    gui::law_form_makes_what_it_says(before.form, m, s);
    gui::law_live_mode_needs_the_words(before);
    gui::law_all_is_shown(before.shared, 0);
    gui::law_all_is_shown(after.shared, 0);
    assert(before.form.confirmation@ =~= "I UNDERSTAND"@ <==> before.form.confirmation@
        == "I UNDERSTAND"@);
}

/// Showing the quotes sets the book to the words for both, each with its own price,
/// and adds one line to the log; nothing else changes.
pub proof fn law_quotes_shown_by_a_call(
    before: Shared,
    quotes: Quotes,
    bid_price: &str,
    ask_price: &str,
    after: Shared,
)
    requires
        exists|shared: &mut Shared| #[trigger]
            call_ensures(Shared::quotes_computed, (shared, &quotes, bid_price, ask_price), ())
                && *shared == before && *final(shared) == after,
    ensures
        ({
            let bid = gui::quote_text(quotes.bid, bid_price@);
            let ask = gui::quote_text(quotes.ask, ask_price@);
            let k = bid.len() as int;
            &&& after.book@.len() == 11 + bid.len() + ask.len()
            &&& after.book@.take(5) == "bid: "@
            &&& after.book@.subrange(5, 5 + k) == bid
            &&& after.book@.subrange(5 + k, 11 + k) == "\nask: "@
            &&& after.book@.skip(11 + k) == ask
            &&& after.logs@.len() == before.logs@.len() + 1
            &&& after.running == before.running
            &&& after.status@ == before.status@
            &&& after.balance@ == before.balance@
            &&& after.error@ == before.error@
        }),
{
    gui::law_book_words(quotes, bid_price@, ask_price@);
    gui::law_all_is_shown(before, 0);
    gui::law_all_is_shown(after, 0);
}

/// A node that could not be asked is an error with the reason at its end, and
/// nothing else changes; a preview that ended runs no more, and nothing else
/// changes.
pub proof fn law_preview_end_of_a_call(
    before: Shared,
    reason: &str,
    failed: Shared,
    ended: Shared,
)
    requires
        exists|shared: &mut Shared| #[trigger]
            call_ensures(Shared::rpc_failed, (shared, reason), ()) && *shared == before 
                && *final(shared) == failed,
        exists|shared: &mut Shared| #[trigger]
            call_ensures(Shared::finished, (shared,), ()) && *shared == before && *final(shared)
                == ended,
    ensures
        failed.error@.len() == 11 + reason@.len(),
        failed.error@.take(11) == "RPC error: "@,
        failed.error@.skip(11) == reason@,
        failed.running == before.running,
        failed@.logs == before@.logs,
        failed.book@ == before.book@,
        failed.status@ == before.status@,
        !ended.running,
        ended@.logs == before@.logs,
        ended.error@ == before.error@,
        ended.book@ == before.book@,
        ended.status@ == before.status@,
{
    reveal_strlit("RPC error: ");
    gui::law_all_is_shown(before, 0);
    gui::law_all_is_shown(failed, 0);
    gui::law_all_is_shown(ended, 0);
    assert(failed.error@.take(11) =~= "RPC error: "@);
    assert(failed.error@.skip(11) =~= reason@);
}

/// A number that was written reads back as itself, and what reads as a number is at
/// most the limit.
pub proof fn law_parse_of_a_call(text: &str, max: u128, n: nat, result: Result<u128, NumberError>)
    requires
        call_ensures(parse_unsigned, (text, max), result),
    ensures
        text@ == number::decimal_text(n) && n <= max ==> result is Ok && result->Ok_0 == n,
        result matches Ok(value) ==> value <= max,
        text@.len() == 0 ==> result is Err && result->Err_0 is Empty,
{
    if n <= max {
        number::law_parse_inverts_decimal_text(n, max as nat);
    }
    number::lemma_parsed_bound(text@, max as nat);
}

/// A preview looks at least every five seconds whether it was stopped, and no less
/// often than the interval says.
pub proof fn law_poll_of_a_call(cfg: MmConfig, secs: u64)
    requires
        call_ensures(poll_secs, (&cfg,), secs),
    ensures
        secs <= 5,
        secs <= cfg.interval_secs,
        secs == 5 || secs == cfg.interval_secs,
{
}

} // verus!
