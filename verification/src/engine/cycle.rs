//! One round of market making: plan the quotes, close what is on the book, place
//! the new orders.
use crate::engine::close;
use crate::engine::close::{CloseEvent, Closing, StepReply};
use crate::engine::config;
use crate::engine::config::validate_config;
use crate::engine::place::{fill_request, FillRequest};
use crate::engine::state::{ActiveOrder, ActiveOrders, BookKey, CycleView, Observation, Side};
use crate::error::EngineError;
use crate::order::{pack, Order};
use crate::strategy;
use crate::strategy::{apply_balance_limit, compute_quotes, quotes_fit, MmConfig, Quotes, TargetTicks};
use crate::words::{Address, B256};
use vstd::prelude::*;

verus! {

/// The quotes for what was observed, within the limits of the wallet.
pub open spec fn planned_quotes(cfg: MmConfig, target: TargetTicks, seen: Observation) -> Quotes {
    strategy::limited_quotes(
        strategy::wanted_quotes(cfg, target, seen.bid, seen.ask),
        seen.usdg_balance,
        seen.nvda_balance,
        cfg.max_nvda_inventory,
    )
}

/// The quotes for what was observed, within the limits of the wallet. Fails
/// where a quote would leave the range of a tick.
pub fn plan_quotes(cfg: &MmConfig, target: &TargetTicks, seen: &Observation) -> (quotes: Result<
    Quotes,
    EngineError,
>)
    ensures
        quotes == (if strategy::quotes_in_range(*cfg, *target, seen.bid, seen.ask) {
            Ok(planned_quotes(*cfg, *target, *seen))
        } else {
            Err(EngineError::TickOverflow)
        }),
{
    let top_bid = seen.bid.as_ref();
    let top_ask = seen.ask.as_ref();
    if !quotes_fit(cfg, target, top_bid, top_ask) {
        return Err(EngineError::TickOverflow);
    }
    match compute_quotes(cfg, target, top_bid, top_ask) {
        Ok(wanted) => {
            let mut quotes = wanted;
            apply_balance_limit(
                &mut quotes,
                seen.usdg_balance,
                seen.nvda_balance,
                cfg.max_nvda_inventory,
            );
            Ok(quotes)
        },
        Err(error) => Err(error),
    }
}

/// What was observed together with the quotes that follow from it, for a valid
/// configuration.
pub fn inspect(cfg: &MmConfig, target: &TargetTicks, seen: &Observation) -> (view: Result<
    CycleView,
    EngineError,
>)
    ensures
        view == (match config::config_fault(*cfg) {
            Some(fault) => Err(EngineError::Config(fault)),
            None => if strategy::quotes_in_range(*cfg, *target, seen.bid, seen.ask) {
                Ok(
                    CycleView {
                        epoch: seen.epoch,
                        bid: seen.bid,
                        ask: seen.ask,
                        usdg_balance: seen.usdg_balance,
                        nvda_balance: seen.nvda_balance,
                        quotes: planned_quotes(*cfg, *target, *seen),
                    },
                )
            } else {
                Err(EngineError::TickOverflow)
            },
        }),
{
    match validate_config(cfg) {
        Ok(()) => {},
        Err(fault) => {
            return Err(EngineError::Config(fault));
        },
    }
    match plan_quotes(cfg, target, seen) {
        Ok(quotes) => Ok(
            CycleView {
                epoch: seen.epoch,
                bid: seen.bid,
                ask: seen.ask,
                usdg_balance: seen.usdg_balance,
                nvda_balance: seen.nvda_balance,
                quotes,
            },
        ),
        Err(error) => Err(error),
    }
}

/// What a cycle is busy with.
#[derive(Debug, Clone, Copy, PartialEq, Eq, Structural)]
pub enum CyclePhase {
    ClosingBid,
    ClosingAsk,
    PlacingBid,
    PlacingAsk,
    Complete,
}

/// A cycle under way.
#[derive(Debug, Clone, Copy)]
pub struct Cycle {
    pub token0: Address,
    pub token1: Address,
    pub epoch: u64,
    pub quotes: Quotes,
    pub phase: CyclePhase,
}

/// What happened to a cycle.
#[derive(Debug, Clone, Copy)]
pub enum CycleEvent {
    /// The order that was to be closed is closed.
    Closed,
    /// The order that was to be placed rests under this word, or nothing of it
    /// rests (zero).
    Placed(B256),
}

/// What a cycle asks for next.
#[derive(Debug, Clone, Copy)]
pub enum CycleAction {
    /// Close the order on this side.
    Close(Side),
    /// Place this order on this side.
    Place(Side, B256),
    /// Nothing: the cycle is over.
    Complete,
}

/// A quote that is to be placed.
pub open spec fn worth_placing(quote: Option<Order>) -> bool {
    quote matches Some(order) && order.quantity > 0
}

/// The first thing that is left to do, where the first `done` of the four (close
/// bid, close ask, place bid, place ask) are behind.
pub open spec fn phase_from(done: int, active: ActiveOrders, quotes: Quotes) -> CyclePhase {
    if done < 1 && active.bid is Some {
        CyclePhase::ClosingBid
    } else if done < 2 && active.ask is Some {
        CyclePhase::ClosingAsk
    } else if done < 3 && worth_placing(quotes.bid) {
        CyclePhase::PlacingBid
    } else if done < 4 && worth_placing(quotes.ask) {
        CyclePhase::PlacingAsk
    } else {
        CyclePhase::Complete
    }
}

/// The order of a quote as it goes into a fill: packed, without a nonce.
pub open spec fn packs(quote: Option<Order>, packed: B256) -> bool {
    quote matches Some(order) && packed.value() == crate::order::packed_value(
        order.tick,
        order.quantity,
        0,
    )
}

/// The order that is recorded for a placement.
pub open spec fn recorded(resting: B256, epoch: u64, sold_token: Address) -> Option<ActiveOrder> {
    if resting.is_zero() {
        None
    } else {
        Some(ActiveOrder::fresh(resting, epoch, sold_token))
    }
}

impl Cycle {
    /// The phase fits the orders that are on record: what is to be closed is
    /// there, and where an order is to be placed nothing is on record.
    pub open spec fn fits(self, active: ActiveOrders) -> bool {
        match self.phase {
            CyclePhase::ClosingBid => active.bid is Some,
            CyclePhase::ClosingAsk => active.bid is None && active.ask is Some,
            CyclePhase::PlacingBid => {
                active.bid is None && active.ask is None && worth_placing(self.quotes.bid)
            },
            CyclePhase::PlacingAsk => active.ask is None && worth_placing(self.quotes.ask),
            CyclePhase::Complete => true,
        }
    }

    /// The event answers what the phase asked for.
    pub open spec fn answered_by(self, event: CycleEvent) -> bool {
        match self.phase {
            CyclePhase::ClosingBid | CyclePhase::ClosingAsk => event is Closed,
            CyclePhase::PlacingBid | CyclePhase::PlacingAsk => event is Placed,
            CyclePhase::Complete => false,
        }
    }

    /// What the phase asks for.
    pub open spec fn asks(self, action: CycleAction) -> bool {
        match self.phase {
            CyclePhase::ClosingBid => action == CycleAction::Close(Side::Bid),
            CyclePhase::ClosingAsk => action == CycleAction::Close(Side::Ask),
            CyclePhase::PlacingBid => action matches CycleAction::Place(side, packed) && side
                == Side::Bid && packs(self.quotes.bid, packed),
            CyclePhase::PlacingAsk => action matches CycleAction::Place(side, packed) && side
                == Side::Ask && packs(self.quotes.ask, packed),
            CyclePhase::Complete => action == CycleAction::Complete,
        }
    }

    /// The orders on record after an event: a closed order is dropped, a placed
    /// one is recorded if it rests. A bid sells `token0`, an ask `token1`.
    pub open spec fn active_after(self, active: ActiveOrders, event: CycleEvent) -> ActiveOrders {
        match (self.phase, event) {
            (CyclePhase::ClosingBid, _) => ActiveOrders { bid: None, ..active },
            (CyclePhase::ClosingAsk, _) => ActiveOrders { ask: None, ..active },
            (CyclePhase::PlacingBid, CycleEvent::Placed(resting)) => ActiveOrders {
                bid: recorded(resting, self.epoch, self.token0),
                ..active
            },
            (CyclePhase::PlacingAsk, CycleEvent::Placed(resting)) => ActiveOrders {
                ask: recorded(resting, self.epoch, self.token1),
                ..active
            },
            _ => active,
        }
    }

    /// The cycle after an event.
    pub open spec fn after(self, active: ActiveOrders, event: CycleEvent) -> Cycle {
        let done: int = match self.phase {
            CyclePhase::ClosingBid => 1,
            CyclePhase::ClosingAsk => 2,
            CyclePhase::PlacingBid => 3,
            _ => 4,
        };
        Cycle { phase: phase_from(done, self.active_after(active, event), self.quotes), ..self }
    }

    /// What the phase asks for.
    fn action(&self) -> (action: CycleAction)
        requires
            self.phase is PlacingBid ==> self.quotes.bid is Some,
            self.phase is PlacingAsk ==> self.quotes.ask is Some,
        ensures
            self.asks(action),
    {
        match self.phase {
            CyclePhase::ClosingBid => CycleAction::Close(Side::Bid),
            CyclePhase::ClosingAsk => CycleAction::Close(Side::Ask),
            CyclePhase::PlacingBid => {
                let quote = self.quotes.bid.unwrap();
                let packed = pack(quote.tick, quote.quantity, 0).unwrap();
                CycleAction::Place(Side::Bid, packed)
            },
            CyclePhase::PlacingAsk => {
                let quote = self.quotes.ask.unwrap();
                let packed = pack(quote.tick, quote.quantity, 0).unwrap();
                CycleAction::Place(Side::Ask, packed)
            },
            CyclePhase::Complete => CycleAction::Complete,
        }
    }
}

impl Cycle {
    /// What a placement that the cycle asks for has to fill: the packed order, on
    /// the pair and in the epoch of the cycle, as a bid exactly on the bid side.
    pub fn fill(&self, side: Side, packed: B256) -> (request: FillRequest)
        ensures
            request == (FillRequest {
                token0: self.token0,
                token1: self.token1,
                epoch: self.epoch,
                order: packed,
                is_bid: side == Side::Bid,
                no_rest: false,
                fill_or_kill: false,
            }),
    {
        fill_request(self.token0, self.token1, self.epoch, packed, side == Side::Bid)
    }

    /// The book of an order that the cycle asks to be closed: the pair of the
    /// cycle, and the epoch in which the order was placed.
    pub fn closing_book(&self, order: &ActiveOrder) -> (key: BookKey)
        ensures
            key == (BookKey { token0: self.token0, token1: self.token1, epoch: order.epoch }),
    {
        order.book((self.token0, self.token1))
    }
}

/// Whether a quote is to be placed.
fn is_worth_placing(quote: &Option<Order>) -> (yes: bool)
    ensures
        yes == worth_placing(*quote),
{
    match quote {
        Some(order) => order.quantity > 0,
        None => false,
    }
}

/// The first thing that is left to do.
fn next_phase(done: u8, active: &ActiveOrders, quotes: &Quotes) -> (phase: CyclePhase)
    ensures
        phase == phase_from(done as int, *active, *quotes),
{
    if done < 1 && active.bid.is_some() {
        CyclePhase::ClosingBid
    } else if done < 2 && active.ask.is_some() {
        CyclePhase::ClosingAsk
    } else if done < 3 && is_worth_placing(&quotes.bid) {
        CyclePhase::PlacingBid
    } else if done < 4 && is_worth_placing(&quotes.ask) {
        CyclePhase::PlacingAsk
    } else {
        CyclePhase::Complete
    }
}

/// The order that is recorded for a placement.
fn record(resting: B256, epoch: u64, sold_token: Address) -> (order: Option<ActiveOrder>)
    ensures
        order == recorded(resting, epoch, sold_token),
{
    if resting.is_empty() {
        None
    } else {
        Some(ActiveOrder::resting(resting, epoch, sold_token))
    }
}

/// Plans a cycle for what was observed, and says what it asks for first.
pub fn begin_cycle(
    cfg: &MmConfig,
    target: &TargetTicks,
    pair: (Address, Address),
    seen: &Observation,
    active: &ActiveOrders,
) -> (begun: Result<(Cycle, CycleAction), EngineError>)
    ensures
        begun is Ok <==> strategy::quotes_in_range(*cfg, *target, seen.bid, seen.ask),
        begun matches Err(error) ==> error == EngineError::TickOverflow,
        begun matches Ok((cycle, action)) ==> {
            &&& cycle == (Cycle {
                token0: pair.0,
                token1: pair.1,
                epoch: seen.epoch,
                quotes: planned_quotes(*cfg, *target, *seen),
                phase: phase_from(0, *active, planned_quotes(*cfg, *target, *seen)),
            })
            &&& cycle.asks(action)
            &&& cycle.fits(*active)
        },
{
    match plan_quotes(cfg, target, seen) {
        Ok(quotes) => {
            let phase = next_phase(0, active, &quotes);
            let cycle = Cycle { token0: pair.0, token1: pair.1, epoch: seen.epoch, quotes, phase };
            let action = cycle.action();
            Ok((cycle, action))
        },
        Err(error) => Err(error),
    }
}

/// Takes a cycle one step further. An order leaves the record only once it is
/// closed: where a closing or a placement fails, the caller ends the cycle and
/// the record stays for the next one.
pub fn run_cycle(cycle: &mut Cycle, active: &mut ActiveOrders, event: CycleEvent) -> (action:
    CycleAction)
    requires
        old(cycle).fits(*old(active)),
        old(cycle).answered_by(event),
    ensures
        *final(active) == old(cycle).active_after(*old(active), event),
        *final(cycle) == old(cycle).after(*old(active), event),
        final(cycle).asks(action),
        final(cycle).fits(*final(active)),
{
    let done: u8 = match cycle.phase {
        CyclePhase::ClosingBid => {
            active.bid = None;
            1
        },
        CyclePhase::ClosingAsk => {
            active.ask = None;
            2
        },
        CyclePhase::PlacingBid => {
            if let CycleEvent::Placed(resting) = event {
                active.bid = record(resting, cycle.epoch, cycle.token0);
            }
            3
        },
        CyclePhase::PlacingAsk => {
            if let CycleEvent::Placed(resting) = event {
                active.ask = record(resting, cycle.epoch, cycle.token1);
            }
            4
        },
        CyclePhase::Complete => 4,
    };
    cycle.phase = next_phase(done, active, &cycle.quotes);
    cycle.action()
}

/// The quotes of a cycle, where both are there, keep the smallest gap, and every
/// word that is placed carries its quote with the nonce zero.
pub proof fn law_placed_words_carry_the_quotes(
    cfg: MmConfig,
    target: TargetTicks,
    seen: Observation,
    packed: B256,
)
    requires
        strategy::quotes_in_range(cfg, target, seen.bid, seen.ask),
    ensures
        ({
            let quotes = planned_quotes(cfg, target, seen);
            &&& quotes.bid is Some && quotes.ask is Some ==> quotes.ask->0.tick
                - quotes.bid->0.tick >= cfg.min_tick_gap
            &&& packs(quotes.bid, packed) ==> crate::order::order_of(packed) == quotes.bid->0
            &&& packs(quotes.ask, packed) ==> crate::order::order_of(packed) == quotes.ask->0
            &&& packs(quotes.bid, packed) || packs(quotes.ask, packed)
                ==> crate::order::order_of(packed).nonce == 0
        }),
{
    let quotes = planned_quotes(cfg, target, seen);
    strategy::law_quotes_keep_the_gap(cfg, target, seen.bid, seen.ask);
    if packs(quotes.bid, packed) {
        let bid = quotes.bid->0;
        crate::order::law_unpack_inverts_pack(bid.tick, bid.quantity, 0, packed);
    }
    if packs(quotes.ask, packed) {
        let ask = quotes.ask->0;
        crate::order::law_unpack_inverts_pack(ask.tick, ask.quantity, 0, packed);
    }
}

/// Whenever a cycle asks for an order to be placed, no order is on record on that
/// side, so none is ever overwritten and forgotten; and nothing is placed while
/// an order of the last cycle is on record on either side.
pub proof fn law_placing_overwrites_nothing(
    cycle: Cycle,
    active: ActiveOrders,
    event: CycleEvent,
)
    requires
        cycle.fits(active),
        cycle.answered_by(event),
    ensures
        ({
            let now = cycle.after(active, event);
            let on_record = cycle.active_after(active, event);
            &&& now.phase is PlacingBid ==> on_record.bid is None && on_record.ask is None
            &&& now.phase is PlacingAsk ==> on_record.ask is None
            &&& (cycle.phase is ClosingBid || cycle.phase is ClosingAsk) && !(
            now.phase is ClosingBid || now.phase is ClosingAsk) ==> on_record.bid is None
                && on_record.ask is None
        }),
{
}

/// An order leaves the record only because it was closed, and nothing else alters
/// it: whatever a step of the cycle does, an order that was not to be closed stays
/// as it is.
pub proof fn law_only_closing_drops_an_order(
    cycle: Cycle,
    active: ActiveOrders,
    event: CycleEvent,
)
    requires
        cycle.fits(active),
        cycle.answered_by(event),
    ensures
        ({
            let on_record = cycle.active_after(active, event);
            &&& active.bid is Some && on_record.bid != active.bid ==> cycle.asks(
                CycleAction::Close(Side::Bid),
            ) && event is Closed
            &&& active.ask is Some && on_record.ask != active.ask ==> cycle.asks(
                CycleAction::Close(Side::Ask),
            ) && event is Closed
        }),
{
}

/// No step of a cycle puts an order on record that is off the book without a claim
/// to its reward.
pub proof fn law_cycle_keeps_rewards_safe(cycle: Cycle, active: ActiveOrders, event: CycleEvent)
    requires
        active.reward_safe(),
    ensures
        cycle.active_after(active, event).reward_safe(),
{
}

/// How a cycle ends whose closings succeed and whose placements come to rest
/// under `bid_rest` and `ask_rest`: with the orders on record.
pub open spec fn cycle_outcome(
    cycle: Cycle,
    active: ActiveOrders,
    bid_rest: B256,
    ask_rest: B256,
    fuel: nat,
) -> Option<ActiveOrders>
    decreases fuel,
{
    let event = match cycle.phase {
        CyclePhase::PlacingBid => CycleEvent::Placed(bid_rest),
        CyclePhase::PlacingAsk => CycleEvent::Placed(ask_rest),
        _ => CycleEvent::Closed,
    };
    if cycle.phase is Complete {
        Some(active)
    } else if fuel == 0 {
        None
    } else {
        cycle_outcome(
            cycle.after(active, event),
            cycle.active_after(active, event),
            bid_rest,
            ask_rest,
            (fuel - 1) as nat,
        )
    }
}

/// The record of a side once a cycle is over.
pub open spec fn side_outcome(
    quote: Option<Order>,
    resting: B256,
    epoch: u64,
    sold_token: Address,
) -> Option<ActiveOrder> {
    if worth_placing(quote) {
        recorded(resting, epoch, sold_token)
    } else {
        None
    }
}

/// A cycle in which nothing fails takes at most four steps and leaves on record,
/// on each side, the order that it placed there if that came to rest, and nothing
/// else; what was on record before is closed.
pub proof fn law_cycle_leaves_the_new_orders(
    cycle: Cycle,
    active: ActiveOrders,
    bid_rest: B256,
    ask_rest: B256,
)
    requires
        cycle.phase == phase_from(0, active, cycle.quotes),
    ensures
        cycle_outcome(cycle, active, bid_rest, ask_rest, 4) == Some(
            ActiveOrders {
                bid: side_outcome(cycle.quotes.bid, bid_rest, cycle.epoch, cycle.token0),
                ask: side_outcome(cycle.quotes.ask, ask_rest, cycle.epoch, cycle.token1),
            },
        ),
{
    reveal_with_fuel(cycle_outcome, 5);
}

/// A cycle and the record after at most `steps` steps, where closings succeed and
/// placements come to rest under `bid_rest` and `ask_rest`.
pub open spec fn cycle_cut(
    cycle: Cycle,
    active: ActiveOrders,
    bid_rest: B256,
    ask_rest: B256,
    steps: nat,
) -> (Cycle, ActiveOrders)
    decreases steps,
{
    let event = match cycle.phase {
        CyclePhase::PlacingBid => CycleEvent::Placed(bid_rest),
        CyclePhase::PlacingAsk => CycleEvent::Placed(ask_rest),
        _ => CycleEvent::Closed,
    };
    if cycle.phase is Complete || steps == 0 {
        (cycle, active)
    } else {
        cycle_cut(
            cycle.after(active, event),
            cycle.active_after(active, event),
            bid_rest,
            ask_rest,
            (steps - 1) as nat,
        )
    }
}

/// One where a step is taken, zero where it is left out.
pub open spec fn step_count(taken: bool) -> int {
    if taken {
        1
    } else {
        0
    }
}

/// A cycle that is cut after any number of steps leaves on record, on each side,
/// the old order, unchanged, while that is not closed; afterwards the order that
/// was placed, once its placement was reported and if it came to rest; and nothing
/// otherwise. Both sides are closed before either is placed.
pub proof fn law_cut_cycle_forgets_nothing(
    cycle: Cycle,
    active: ActiveOrders,
    bid_rest: B256,
    ask_rest: B256,
    steps: nat,
)
    requires
        cycle.phase == phase_from(0, active, cycle.quotes),
    ensures
        ({
            let (now, on_record) = cycle_cut(cycle, active, bid_rest, ask_rest, steps);
            let bid_closed = step_count(active.bid is Some);
            let ask_closed = bid_closed + step_count(active.ask is Some);
            let bid_placed = ask_closed + step_count(worth_placing(cycle.quotes.bid));
            let ask_placed = bid_placed + step_count(worth_placing(cycle.quotes.ask));
            &&& on_record.bid == (if steps < bid_closed {
                active.bid
            } else if worth_placing(cycle.quotes.bid) && steps >= bid_placed {
                recorded(bid_rest, cycle.epoch, cycle.token0)
            } else {
                None
            })
            &&& on_record.ask == (if steps < ask_closed {
                active.ask
            } else if worth_placing(cycle.quotes.ask) && steps >= ask_placed {
                recorded(ask_rest, cycle.epoch, cycle.token1)
            } else {
                None
            })
            &&& now.phase is Complete <==> steps >= ask_placed
            &&& now.fits(on_record)
        }),
{
    reveal_with_fuel(cycle_cut, 5);
}

/// What becomes of the closings and placements that a cycle asks for.
pub struct CycleReplies {
    /// The book of the old bid, and how the transactions of its closing fare.
    pub bid_book: B256,
    pub bid_closing: Seq<StepReply>,
    /// The book of the old ask, and how the transactions of its closing fare.
    pub ask_book: B256,
    pub ask_closing: Seq<StepReply>,
    /// Where the new bid comes to rest; `None` where its placement fails.
    pub bid_rest: Option<B256>,
    /// Where the new ask comes to rest; `None` where its placement fails.
    pub ask_rest: Option<B256>,
}

/// The closing of an order of a side.
pub open spec fn side_closing(
    on_record: Option<ActiveOrder>,
    book_id: B256,
    replies: Seq<StepReply>,
) -> Closing {
    close::closing_outcome(on_record->0, book_id, CloseEvent::Begin, replies)
}

/// Nothing is on record on a side, or its closing succeeds.
pub open spec fn side_closes(
    on_record: Option<ActiveOrder>,
    book_id: B256,
    replies: Seq<StepReply>,
) -> bool {
    on_record is None || side_closing(on_record, book_id, replies).ended == Some(
        Ok::<(), EngineError>(()),
    )
}

/// How a cycle goes that ends at the first closing or placement that fails: the
/// orders on record, and whether it was completed.
pub open spec fn cycle_run(
    cycle: Cycle,
    active: ActiveOrders,
    replies: CycleReplies,
    fuel: nat,
) -> (ActiveOrders, bool)
    decreases fuel,
{
    let bid_end = side_closing(active.bid, replies.bid_book, replies.bid_closing);
    let ask_end = side_closing(active.ask, replies.ask_book, replies.ask_closing);
    // the record as the closing or placement leaves it, and its event if it succeeds
    let (told, event): (ActiveOrders, Option<CycleEvent>) = match cycle.phase {
        CyclePhase::ClosingBid => (
            ActiveOrders { bid: Some(bid_end.order), ..active },
            if side_closes(active.bid, replies.bid_book, replies.bid_closing) {
                Some(CycleEvent::Closed)
            } else {
                None
            },
        ),
        CyclePhase::ClosingAsk => (
            ActiveOrders { ask: Some(ask_end.order), ..active },
            if side_closes(active.ask, replies.ask_book, replies.ask_closing) {
                Some(CycleEvent::Closed)
            } else {
                None
            },
        ),
        CyclePhase::PlacingBid => (
            active,
            match replies.bid_rest {
                Some(rest) => Some(CycleEvent::Placed(rest)),
                None => None,
            },
        ),
        CyclePhase::PlacingAsk => (
            active,
            match replies.ask_rest {
                Some(rest) => Some(CycleEvent::Placed(rest)),
                None => None,
            },
        ),
        CyclePhase::Complete => (active, None),
    };
    if cycle.phase is Complete {
        (active, true)
    } else if event is None || fuel == 0 {
        (told, false)
    } else {
        cycle_run(
            cycle.after(told, event->0),
            cycle.active_after(told, event->0),
            replies,
            (fuel - 1) as nat,
        )
    }
}

/// The record that a cycle leaves, whatever fails in it. An order whose closing
/// fails stays on record with the steps that took effect, and the other side as it
/// is; a placement that fails leaves nothing on record on its side, where the old
/// order was closed. The cycle is completed exactly when nothing fails.
pub proof fn law_failed_cycle_keeps_its_orders(
    cycle: Cycle,
    active: ActiveOrders,
    replies: CycleReplies,
)
    requires
        cycle.phase == phase_from(0, active, cycle.quotes),
    ensures
        ({
            let (on_record, completed) = cycle_run(cycle, active, replies, 4);
            let bid_closes = side_closes(active.bid, replies.bid_book, replies.bid_closing);
            let ask_closes = side_closes(active.ask, replies.ask_book, replies.ask_closing);
            let bid_fails = worth_placing(cycle.quotes.bid) && replies.bid_rest is None;
            let ask_fails = worth_placing(cycle.quotes.ask) && replies.ask_rest is None;
            let new_bid = side_outcome(
                cycle.quotes.bid,
                replies.bid_rest->0,
                cycle.epoch,
                cycle.token0,
            );
            let new_ask = side_outcome(
                cycle.quotes.ask,
                replies.ask_rest->0,
                cycle.epoch,
                cycle.token1,
            );
            &&& on_record == (if !bid_closes {
                let end = side_closing(active.bid, replies.bid_book, replies.bid_closing);
                ActiveOrders { bid: Some(end.order), ask: active.ask }
            } else if !ask_closes {
                let end = side_closing(active.ask, replies.ask_book, replies.ask_closing);
                ActiveOrders { bid: None, ask: Some(end.order) }
            } else if bid_fails {
                ActiveOrders { bid: None, ask: None }
            } else if ask_fails {
                ActiveOrders { bid: new_bid, ask: None }
            } else {
                ActiveOrders { bid: new_bid, ask: new_ask }
            })
            &&& completed <==> bid_closes && ask_closes && !bid_fails && !ask_fails
            &&& active.reward_safe() ==> on_record.reward_safe()
        }),
{
    reveal_with_fuel(cycle_run, 5);
    if active.bid is Some {
        close::law_closing_follows_the_plan(
            active.bid->0,
            replies.bid_book,
            replies.bid_closing,
        );
    }
    if active.ask is Some {
        close::law_closing_follows_the_plan(
            active.ask->0,
            replies.ask_book,
            replies.ask_closing,
        );
    }
}

/// What a placement leaves on record. A word that is not zero is recorded as it is,
/// whatever order it carries: in the epoch of the cycle, selling `token0` for a bid
/// and `token1` for an ask, neither claimed nor cancelled, without a transaction.
/// Only for the zero word nothing is recorded. The other side stays as it is.
pub proof fn law_placed_order_goes_on_record(cycle: Cycle, active: ActiveOrders, resting: B256)
    ensures
        ({
            let now = cycle.active_after(active, CycleEvent::Placed(resting));
            &&& cycle.phase is PlacingBid ==> {
                &&& now.ask == active.ask
                &&& resting.value() == 0 ==> now.bid is None
                &&& resting.value() != 0 ==> {
                    &&& now.bid is Some
                    &&& now.bid->0.packed == resting
                    &&& now.bid->0.epoch == cycle.epoch
                    &&& now.bid->0.sold_token == cycle.token0
                    &&& !now.bid->0.claimant_registered
                    &&& !now.bid->0.cancelled
                    &&& now.bid->0.last_tx_hash is None
                }
            }
            &&& cycle.phase is PlacingAsk ==> {
                &&& now.bid == active.bid
                &&& resting.value() == 0 ==> now.ask is None
                &&& resting.value() != 0 ==> {
                    &&& now.ask is Some
                    &&& now.ask->0.packed == resting
                    &&& now.ask->0.epoch == cycle.epoch
                    &&& now.ask->0.sold_token == cycle.token1
                    &&& !now.ask->0.claimant_registered
                    &&& !now.ask->0.cancelled
                    &&& now.ask->0.last_tx_hash is None
                }
            }
        }),
{
    crate::words::law_zero_word_spells_zero(resting);
}

/// What a closing leaves on record: nothing on its own side, and the other side as
/// it is.
pub proof fn law_closed_order_leaves_the_record(cycle: Cycle, active: ActiveOrders)
    ensures
        ({
            let now = cycle.active_after(active, CycleEvent::Closed);
            &&& cycle.phase is ClosingBid ==> now.bid is None && now.ask == active.ask
            &&& cycle.phase is ClosingAsk ==> now.ask is None && now.bid == active.bid
        }),
{
}

/// What comes first: the old bid where there is one, else the old ask, else the new
/// bid unless it is switched off or empty, else the new ask likewise, else nothing.
pub proof fn law_first_task(active: ActiveOrders, quotes: Quotes)
    ensures
        ({
            let phase = phase_from(0, active, quotes);
            let bids = quotes.bid is Some && quotes.bid->0.quantity >= 1;
            let asks = quotes.ask is Some && quotes.ask->0.quantity >= 1;
            let free = active.bid is None && active.ask is None;
            &&& phase is ClosingBid <==> active.bid is Some
            &&& phase is ClosingAsk <==> active.bid is None && active.ask is Some
            &&& phase is PlacingBid <==> free && bids
            &&& phase is PlacingAsk <==> free && !bids && asks
            &&& phase is Complete <==> free && !bids && !asks
        }),
{
}

/// What comes next, in the sequence close bid, close ask, place bid, place ask, with
/// what is not there left out. Pair, epoch and quotes stay those of the cycle.
pub proof fn law_next_task(cycle: Cycle, active: ActiveOrders, event: CycleEvent)
    ensures
        ({
            let now = cycle.after(active, event);
            let quotes = cycle.quotes;
            let bids = quotes.bid is Some && quotes.bid->0.quantity >= 1;
            let asks = quotes.ask is Some && quotes.ask->0.quantity >= 1;
            &&& now.token0 == cycle.token0
            &&& now.token1 == cycle.token1
            &&& now.epoch == cycle.epoch
            &&& now.quotes == cycle.quotes
            &&& cycle.phase is ClosingBid && active.ask is Some ==> now.phase is ClosingAsk
            &&& (cycle.phase is ClosingBid && active.ask is None || cycle.phase is ClosingAsk) ==> {
                &&& bids ==> now.phase is PlacingBid
                &&& !bids && asks ==> now.phase is PlacingAsk
                &&& !bids && !asks ==> now.phase is Complete
            }
            &&& cycle.phase is PlacingBid && asks ==> now.phase is PlacingAsk
            &&& cycle.phase is PlacingBid && !asks ==> now.phase is Complete
            &&& cycle.phase is PlacingAsk ==> now.phase is Complete
        }),
{
}

/// What is asked for in each phase. A word that is to be placed is the quote of its
/// side, read back with the same tick and quantity and without a nonce.
pub proof fn law_task_is_asked_for(cycle: Cycle, action: CycleAction)
    requires
        cycle.asks(action),
    ensures
        cycle.phase is ClosingBid ==> action == CycleAction::Close(Side::Bid),
        cycle.phase is ClosingAsk ==> action == CycleAction::Close(Side::Ask),
        cycle.phase is Complete ==> action == CycleAction::Complete,
        cycle.phase is PlacingBid ==> action is Place && action->Place_0 == Side::Bid
            && cycle.quotes.bid is Some && ({
            let order = crate::order::order_of(action->Place_1);
            &&& order.tick == cycle.quotes.bid->0.tick
            &&& order.quantity == cycle.quotes.bid->0.quantity
            &&& order.nonce == 0
        }),
        cycle.phase is PlacingAsk ==> action is Place && action->Place_0 == Side::Ask
            && cycle.quotes.ask is Some && ({
            let order = crate::order::order_of(action->Place_1);
            &&& order.tick == cycle.quotes.ask->0.tick
            &&& order.quantity == cycle.quotes.ask->0.quantity
            &&& order.nonce == 0
        }),
{
    if let CycleAction::Place(side, packed) = action {
        if cycle.phase is PlacingBid {
            let bid = cycle.quotes.bid->0;
            crate::order::law_unpack_inverts_pack(bid.tick, bid.quantity, 0, packed);
        } else {
            let ask = cycle.quotes.ask->0;
            crate::order::law_unpack_inverts_pack(ask.tick, ask.quantity, 0, packed);
        }
    }
}

/// What a step may be told: that an order is closed while one is being closed, where
/// one came to rest while it is being placed.
pub proof fn law_answers_that_count(cycle: Cycle, resting: B256)
    ensures
        cycle.answered_by(CycleEvent::Closed) <==> cycle.phase is ClosingBid
            || cycle.phase is ClosingAsk,
        cycle.answered_by(CycleEvent::Placed(resting)) <==> cycle.phase is PlacingBid
            || cycle.phase is PlacingAsk,
{
}

/// When a step may be taken: while what is to be closed is on record, and while the
/// side on which an order of some size is to be placed is free, before a bid both
/// sides.
pub proof fn law_records_that_fit(cycle: Cycle, active: ActiveOrders)
    ensures
        cycle.phase is ClosingBid ==> (cycle.fits(active) <==> active.bid is Some),
        cycle.phase is ClosingAsk ==> (cycle.fits(active) <==> active.bid is None
            && active.ask is Some),
        cycle.phase is PlacingBid ==> (cycle.fits(active) <==> active.bid is None
            && active.ask is None && cycle.quotes.bid is Some && cycle.quotes.bid->0.quantity
            >= 1),
        cycle.phase is PlacingAsk ==> (cycle.fits(active) <==> active.ask is None
            && cycle.quotes.ask is Some && cycle.quotes.ask->0.quantity >= 1),
        cycle.phase is Complete ==> cycle.fits(active),
{
}

/// The quotes of a plan: the ticks that the strategy wants, the configured sizes or
/// the balances where these are smaller, no nonce, and no bid for a wallet whose
/// inventory is full.
pub proof fn law_planned_sizes(cfg: MmConfig, target: TargetTicks, seen: Observation)
    ensures
        ({
            let plan = planned_quotes(cfg, target, seen);
            let wanted = strategy::wanted_quotes(cfg, target, seen.bid, seen.ask);
            &&& plan.bid is Some <==> seen.nvda_balance < cfg.max_nvda_inventory
            &&& plan.ask is Some
            &&& plan.bid is Some ==> {
                &&& plan.bid->0.tick == wanted.bid->0.tick
                &&& plan.bid->0.nonce == 0
                &&& cfg.bid_quantity <= seen.usdg_balance ==> plan.bid->0.quantity
                    == cfg.bid_quantity
                &&& cfg.bid_quantity > seen.usdg_balance ==> plan.bid->0.quantity
                    == seen.usdg_balance
            }
            &&& plan.ask->0.tick == wanted.ask->0.tick
            &&& plan.ask->0.nonce == 0
            &&& cfg.ask_quantity <= seen.nvda_balance ==> plan.ask->0.quantity == cfg.ask_quantity
            &&& cfg.ask_quantity > seen.nvda_balance ==> plan.ask->0.quantity == seen.nvda_balance
        }),
{
}

} // verus!
