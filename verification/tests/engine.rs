use deepstate_mm::contracts::{sorted_pair, NVDA, ROUTER, USDG};
use deepstate_mm::engine::allowance::{check_approval, ensure_allowance, AllowanceAction};
use deepstate_mm::engine::close::{
    claim_action, claim_rewards, close_active_order, ClaimStage, CloseAction, CloseEvent, CloseStep,
};
use deepstate_mm::engine::cycle::{begin_cycle, inspect, plan_quotes, run_cycle, CycleAction, CycleEvent};
use deepstate_mm::engine::place::{fill_request, place_order, unique_match, PlaceAction, PlaceEvent, Placement};
use deepstate_mm::engine::receipt::{wait_receipt, Receipt, ReceiptAction, ReceiptWait};
use deepstate_mm::engine::reconcile::reconcile_active_orders;
use deepstate_mm::engine::state::{load_active_orders, ActiveOrder, ActiveOrders, Observation, Side};
use deepstate_mm::error::{ConfigError, EngineError};
use deepstate_mm::order::{pack, unpack, Order};
use deepstate_mm::strategy::{MmConfig, TargetTicks};
use deepstate_mm::words::{Address, B256};

const ME: Address = Address([1; 20]);

fn word(n: u128) -> B256 {
    B256::from_u128(n)
}

fn receipt(status: bool, hash: u128) -> Receipt {
    Receipt { status, transaction_hash: word(hash) }
}

fn resting(packed: u128, epoch: u64) -> ActiveOrder {
    ActiveOrder::resting(word(packed), epoch, Address(USDG))
}

fn seen() -> Observation {
    Observation {
        epoch: 4,
        bid: None,
        ask: None,
        usdg_balance: 5_000_000,
        nvda_balance: 1_500_000_000_000_000_000,
    }
}

const TARGET: TargetTicks = TargetTicks { bid: -1000, ask: 1000 };

#[test]
fn receipt_ends_the_wait() {
    let mut wait = ReceiptWait::new(word(1));
    for _ in 0..59 {
        assert!(matches!(wait_receipt(&mut wait, None), ReceiptAction::Retry(2)));
    }
    match wait_receipt(&mut wait, Some(receipt(true, 7))) {
        ReceiptAction::Done(got) => assert_eq!(got.transaction_hash, word(7)),
        other => panic!("{other:?}"),
    }
}

#[test]
fn wait_times_out_after_sixty_polls() {
    let mut wait = ReceiptWait::new(word(1));
    for _ in 0..59 {
        assert!(matches!(wait_receipt(&mut wait, None), ReceiptAction::Retry(2)));
    }
    match wait_receipt(&mut wait, None) {
        ReceiptAction::GiveUp(2, EngineError::ReceiptTimeout(hash)) => assert_eq!(hash, word(1)),
        other => panic!("{other:?}"),
    }
}

#[test]
fn closing_registers_cancels_and_distributes() {
    let book = word(99);
    let mut order = resting(5, 3);
    match close_active_order(&mut order, book, CloseEvent::Begin).unwrap() {
        CloseAction::Register { book_id, order } => assert_eq!((book_id, order), (book, word(5))),
        other => panic!("{other:?}"),
    }
    let sent = close_active_order(&mut order, book, CloseEvent::Sent(CloseStep::Register, word(10))).unwrap();
    assert!(matches!(sent, CloseAction::AwaitReceipt));
    assert_eq!(order.last_tx_hash, Some(word(10)));
    assert!(!order.claimant_registered);
    let event = CloseEvent::Included(CloseStep::Register, receipt(true, 10));
    match close_active_order(&mut order, book, event).unwrap() {
        CloseAction::Cancel { epoch, order } => assert_eq!((epoch, order), (3, word(5))),
        other => panic!("{other:?}"),
    }
    assert!(order.claimant_registered && !order.cancelled);
    close_active_order(&mut order, book, CloseEvent::Sent(CloseStep::Cancel, word(11))).unwrap();
    assert_eq!(order.last_tx_hash, Some(word(10)));
    let event = CloseEvent::Included(CloseStep::Cancel, receipt(true, 11));
    match close_active_order(&mut order, book, event).unwrap() {
        CloseAction::Distribute { book_id, order, token } => {
            assert_eq!((book_id, order, token), (book, word(5), Address(USDG)))
        }
        other => panic!("{other:?}"),
    }
    assert!(order.cancelled);
    assert_eq!(order.last_tx_hash, Some(word(11)));
    close_active_order(&mut order, book, CloseEvent::Sent(CloseStep::Distribute, word(12))).unwrap();
    assert_eq!(order.last_tx_hash, Some(word(12)));
    let event = CloseEvent::Included(CloseStep::Distribute, receipt(true, 12));
    assert!(matches!(close_active_order(&mut order, book, event), Ok(CloseAction::Closed)));
}

#[test]
fn failed_closing_resumes_where_it_failed() {
    let book = word(99);
    let mut order = resting(5, 3);
    let failed = close_active_order(&mut order, book, CloseEvent::Included(CloseStep::Register, receipt(false, 1)));
    assert!(matches!(failed, Err(EngineError::RegisterFailed)));
    assert!(matches!(close_active_order(&mut order, book, CloseEvent::Begin), Ok(CloseAction::Register { .. })));
    order.claimant_registered = true;
    let failed = close_active_order(&mut order, book, CloseEvent::Included(CloseStep::Cancel, receipt(false, 1)));
    assert!(matches!(failed, Err(EngineError::CancelFailed)));
    assert!(!order.cancelled && order.last_tx_hash.is_none());
    assert!(matches!(close_active_order(&mut order, book, CloseEvent::Begin), Ok(CloseAction::Cancel { .. })));
    order.cancelled = true;
    let failed = close_active_order(&mut order, book, CloseEvent::Included(CloseStep::Distribute, receipt(false, 1)));
    assert!(matches!(failed, Err(EngineError::DistributeFailed)));
    assert!(matches!(close_active_order(&mut order, book, CloseEvent::Begin), Ok(CloseAction::Distribute { .. })));
}

#[test]
fn claim_registers_then_distributes() {
    assert!(matches!(claim_rewards(ClaimStage::Registering, &receipt(false, 1)), Ok(ClaimStage::Distributing)));
    assert!(matches!(claim_rewards(ClaimStage::Distributing, &receipt(true, 1)), Ok(ClaimStage::Claimed)));
    let failed = claim_rewards(ClaimStage::Distributing, &receipt(false, 1));
    assert!(matches!(failed, Err(EngineError::ClaimFailed)));
}

#[test]
fn claim_is_for_one_order_and_its_token() {
    let (book, order, token) = (word(1), word(2), Address(NVDA));
    match claim_action(ClaimStage::Registering, book, order, token) {
        CloseAction::Register { book_id, order: o } => assert_eq!((book_id, o), (book, order)),
        other => panic!("{other:?}"),
    }
    match claim_action(ClaimStage::Distributing, book, order, token) {
        CloseAction::Distribute { book_id, order: o, token: t } => {
            assert_eq!((book_id, o, t), (book, order, token))
        }
        other => panic!("{other:?}"),
    }
    assert!(matches!(claim_action(ClaimStage::Claimed, book, order, token), CloseAction::Closed));
}

/// Closes an order, the first `successes` transactions taking effect and the next
/// one failing; gives the names of the transactions sent and whether it closed.
fn close_with(order: &mut ActiveOrder, successes: usize) -> (Vec<CloseStep>, bool) {
    let mut sent = Vec::new();
    let mut action = close_active_order(order, word(99), CloseEvent::Begin).unwrap();
    loop {
        let step = match action {
            CloseAction::Register { .. } => CloseStep::Register,
            CloseAction::Cancel { .. } => CloseStep::Cancel,
            CloseAction::Distribute { .. } => CloseStep::Distribute,
            _ => return (sent, true),
        };
        sent.push(step);
        close_active_order(order, word(99), CloseEvent::Sent(step, word(1))).unwrap();
        let included = receipt(sent.len() <= successes, 1);
        match close_active_order(order, word(99), CloseEvent::Included(step, included)) {
            Ok(next) => action = next,
            Err(_) => return (sent, false),
        }
    }
}

#[test]
fn closing_follows_its_plan_and_is_taken_up_again() {
    let plan = [CloseStep::Register, CloseStep::Cancel, CloseStep::Distribute];
    for successes in 0..3 {
        let mut order = resting(5, 3);
        assert_eq!(close_with(&mut order, successes), (plan[..=successes].to_vec(), false));
        assert!(!order.cancelled || order.claimant_registered);
        assert_eq!(close_with(&mut order, 3), (plan[successes..].to_vec(), true));
        assert!(order.cancelled && order.claimant_registered);
    }
}

#[test]
fn cycle_names_the_fill_and_the_book() {
    let active = ActiveOrders { bid: Some(resting(1, 3)), ask: None };
    let (cycle, _) = begin_cycle(&MmConfig::default(), &TARGET, sorted_pair(), &seen(), &active).unwrap();
    for (side, is_bid) in [(Side::Bid, true), (Side::Ask, false)] {
        let request = cycle.fill(side, word(77));
        assert_eq!((request.token0, request.token1), (Address(USDG), Address(NVDA)));
        assert_eq!((request.epoch, request.order, request.is_bid), (4, word(77), is_bid));
        assert!(!request.no_rest && !request.fill_or_kill);
        let book = request.book();
        assert_eq!((book.token0, book.token1, book.epoch), (Address(USDG), Address(NVDA), 4));
    }
    let book = cycle.closing_book(&active.bid.unwrap());
    assert_eq!((book.token0, book.token1, book.epoch), (Address(USDG), Address(NVDA), 3));
}

fn placement(is_bid: bool) -> Placement {
    let (token0, token1) = sorted_pair();
    Placement::new(fill_request(token0, token1, 4, word(77), is_bid), ME)
}

#[test]
fn placement_simulates_before_it_sends() {
    let mut p = placement(true);
    match place_order(&mut p, PlaceEvent::Begin).unwrap() {
        PlaceAction::Simulate(request) => {
            assert_eq!(request.order, word(77));
            assert!(request.is_bid && !request.no_rest && !request.fill_or_kill);
            assert_eq!(request.epoch, 4);
            assert_eq!((request.token0, request.token1), (Address(USDG), Address(NVDA)));
        }
        other => panic!("{other:?}"),
    }
    assert!(matches!(place_order(&mut p, PlaceEvent::Simulated(word(5))), Ok(PlaceAction::Send(_))));
    match place_order(&mut p, PlaceEvent::Sent(word(8))).unwrap() {
        PlaceAction::AwaitReceipt(hash) => assert_eq!(hash, word(8)),
        other => panic!("{other:?}"),
    }
    assert!(matches!(place_order(&mut p, PlaceEvent::Included(receipt(true, 8))), Ok(PlaceAction::ReadRoots)));
    let failed = place_order(&mut p, PlaceEvent::Included(receipt(false, 8)));
    assert!(matches!(failed, Err(EngineError::FillFailed)));
}

#[test]
fn fill_without_rest_ends_at_once() {
    let mut p = placement(true);
    place_order(&mut p, PlaceEvent::Simulated(B256::zero())).unwrap();
    match place_order(&mut p, PlaceEvent::Included(receipt(true, 8))).unwrap() {
        PlaceAction::Placed(word) => assert!(word.is_empty()),
        other => panic!("{other:?}"),
    }
}

#[test]
fn placement_finds_the_one_order_of_its_side() {
    let zero = B256::zero();
    let simulated = pack(12, 34, 0).unwrap();
    let mine = pack(12, 34, 6).unwrap();
    for is_bid in [true, false] {
        let mut p = placement(is_bid);
        place_order(&mut p, PlaceEvent::Simulated(simulated)).unwrap();
        let (bid_root, ask_root) = if is_bid { (mine, word(1)) } else { (word(1), mine) };
        match place_order(&mut p, PlaceEvent::Roots(bid_root, ask_root)).unwrap() {
            PlaceAction::Visit(visit) => assert!(visit.node == mine && visit.check_owner),
            other => panic!("{other:?}"),
        }
        match place_order(&mut p, PlaceEvent::Visited(mine, Some(ME), zero, zero)).unwrap() {
            PlaceAction::Placed(word) => assert_eq!(word, mine),
            other => panic!("{other:?}"),
        }
    }
}

/// Places an order whose fill is simulated as `simulated` and has the receipt
/// status `status`, on a book whose bid tree is the one node `root`; gives the
/// orders sent and the end.
fn place_with(simulated: B256, status: bool, root: B256) -> (Vec<B256>, Result<B256, EngineError>) {
    let mut p = placement(true);
    let mut sent = Vec::new();
    let mut event = PlaceEvent::Begin;
    loop {
        event = match place_order(&mut p, event) {
            Err(error) => return (sent, Err(error)),
            Ok(PlaceAction::Placed(order)) => return (sent, Ok(order)),
            Ok(PlaceAction::Simulate(request)) => {
                assert_eq!(request.order, word(77));
                PlaceEvent::Simulated(simulated)
            }
            Ok(PlaceAction::Send(request)) => {
                sent.push(request.order);
                PlaceEvent::Sent(word(8))
            }
            Ok(PlaceAction::AwaitReceipt(hash)) => {
                assert_eq!(hash, word(8));
                PlaceEvent::Included(receipt(status, 8))
            }
            Ok(PlaceAction::ReadRoots) => PlaceEvent::Roots(root, B256::zero()),
            Ok(PlaceAction::Visit(visit)) => {
                PlaceEvent::Visited(visit.node, Some(ME), B256::zero(), B256::zero())
            }
        };
    }
}

#[test]
fn placement_fills_once_from_beginning_to_end() {
    let simulated = pack(12, 34, 0).unwrap();
    let mine = pack(12, 34, 6).unwrap();
    let (sent, end) = place_with(simulated, true, mine);
    assert_eq!((sent, end.unwrap()), (vec![word(77)], mine));
    let (sent, end) = place_with(simulated, false, mine);
    assert_eq!(sent, vec![word(77)]);
    assert!(matches!(end, Err(EngineError::FillFailed)));
    let (sent, end) = place_with(B256::zero(), true, mine);
    assert_eq!((sent, end.unwrap()), (vec![word(77)], B256::zero()));
    let (sent, end) = place_with(simulated, true, pack(13, 34, 6).unwrap());
    assert_eq!(sent, vec![word(77)]);
    assert!(matches!(end, Err(EngineError::NoRestingOrder)));
}

#[test]
fn placement_wants_exactly_one_order() {
    let zero = B256::zero();
    let mine = pack(12, 34, 6).unwrap();
    let twin = pack(12, 34, 7).unwrap();
    let mut p = placement(true);
    place_order(&mut p, PlaceEvent::Simulated(mine)).unwrap();
    assert!(matches!(place_order(&mut p, PlaceEvent::Roots(zero, mine)), Err(EngineError::NoRestingOrder)));
    place_order(&mut p, PlaceEvent::Roots(mine, zero)).unwrap();
    place_order(&mut p, PlaceEvent::Visited(mine, Some(ME), twin, zero)).unwrap();
    let double = place_order(&mut p, PlaceEvent::Visited(twin, Some(ME), zero, zero));
    assert!(matches!(double, Err(EngineError::MultipleMatching)));
    place_order(&mut p, PlaceEvent::Roots(mine, zero)).unwrap();
    let foreign = place_order(&mut p, PlaceEvent::Visited(mine, Some(Address([9; 20])), zero, zero));
    assert!(matches!(foreign, Err(EngineError::NoRestingOrder)));
    assert_eq!(unique_match(&vec![mine]).unwrap(), mine);
}

#[test]
fn plan_applies_strategy_and_limits() {
    let cfg = MmConfig::default();
    let quotes = plan_quotes(&cfg, &TARGET, &seen()).unwrap();
    assert_eq!(quotes.bid.unwrap(), Order { tick: -1000, quantity: 1_000_000, nonce: 0 });
    assert_eq!(quotes.ask.unwrap(), Order { tick: 1000, quantity: 1_000_000_000_000_000_000, nonce: 0 });
    let mut poor = seen();
    poor.usdg_balance = 10;
    poor.nvda_balance = 20;
    let quotes = plan_quotes(&cfg, &TARGET, &poor).unwrap();
    assert_eq!((quotes.bid.unwrap().quantity, quotes.ask.unwrap().quantity), (10, 20));
    let mut wild = seen();
    wild.bid = Some(Order { tick: i32::MAX, quantity: 1, nonce: 1 });
    assert!(matches!(plan_quotes(&cfg, &TARGET, &wild), Err(EngineError::TickOverflow)));
}

#[test]
fn inspection_shows_what_a_cycle_would_do() {
    let mut cfg = MmConfig::default();
    let view = inspect(&cfg, &TARGET, &seen()).unwrap();
    assert_eq!((view.epoch, view.usdg_balance), (4, 5_000_000));
    assert_eq!(view.quotes.bid.unwrap().tick, -1000);
    cfg.interval_secs = 1;
    let invalid = inspect(&cfg, &TARGET, &seen());
    assert!(matches!(invalid, Err(EngineError::Config(ConfigError::Interval))));
}

#[test]
fn cycle_closes_then_places() {
    let cfg = MmConfig::default();
    let mut active = ActiveOrders { bid: Some(resting(1, 3)), ask: Some(resting(2, 3)) };
    let (mut cycle, action) = begin_cycle(&cfg, &TARGET, sorted_pair(), &seen(), &active).unwrap();
    assert!(matches!(action, CycleAction::Close(Side::Bid)));
    assert!(matches!(run_cycle(&mut cycle, &mut active, CycleEvent::Closed), CycleAction::Close(Side::Ask)));
    assert!(active.bid.is_none() && active.ask.is_some());
    match run_cycle(&mut cycle, &mut active, CycleEvent::Closed) {
        CycleAction::Place(Side::Bid, packed) => {
            assert_eq!(unpack(&packed), Order { tick: -1000, quantity: 1_000_000, nonce: 0 })
        }
        other => panic!("{other:?}"),
    }
    assert!(active.ask.is_none());
    match run_cycle(&mut cycle, &mut active, CycleEvent::Placed(word(11))) {
        CycleAction::Place(Side::Ask, packed) => assert_eq!(unpack(&packed).tick, 1000),
        other => panic!("{other:?}"),
    }
    let bid = active.bid.unwrap();
    assert_eq!((bid.packed, bid.epoch, bid.sold_token), (word(11), 4, Address(USDG)));
    assert!(!bid.claimant_registered && !bid.cancelled && bid.last_tx_hash.is_none());
    let last = run_cycle(&mut cycle, &mut active, CycleEvent::Placed(word(12)));
    assert!(matches!(last, CycleAction::Complete));
    let ask = active.ask.unwrap();
    assert_eq!((ask.packed, ask.sold_token), (word(12), Address(NVDA)));
}

#[test]
fn cut_cycle_forgets_nothing() {
    let old = ActiveOrders { bid: Some(resting(1, 3)), ask: Some(resting(2, 3)) };
    let expected = [
        (Some(word(1)), Some(word(2))),
        (None, Some(word(2))),
        (None, None),
        (Some(word(11)), None),
        (Some(word(11)), Some(word(12))),
    ];
    for (steps, record) in expected.iter().enumerate() {
        let mut active = old;
        let (mut cycle, mut action) =
            begin_cycle(&MmConfig::default(), &TARGET, sorted_pair(), &seen(), &active).unwrap();
        for _ in 0..steps {
            let event = match action {
                CycleAction::Close(_) => CycleEvent::Closed,
                CycleAction::Place(Side::Bid, _) => CycleEvent::Placed(word(11)),
                CycleAction::Place(Side::Ask, _) => CycleEvent::Placed(word(12)),
                CycleAction::Complete => panic!("complete after fewer than {steps} steps"),
            };
            action = run_cycle(&mut cycle, &mut active, event);
        }
        assert_eq!((active.bid.map(|o| o.packed), active.ask.map(|o| o.packed)), *record);
        assert_eq!(matches!(action, CycleAction::Complete), steps == 4);
    }
}

#[test]
fn failed_closing_stays_on_record() {
    let mut active = ActiveOrders { bid: Some(resting(1, 3)), ask: Some(resting(2, 3)) };
    let (_, action) = begin_cycle(&MmConfig::default(), &TARGET, sorted_pair(), &seen(), &active).unwrap();
    assert!(matches!(action, CycleAction::Close(Side::Bid)));
    let (sent, closed) = close_with(active.bid.as_mut().unwrap(), 1);
    assert_eq!((sent, closed), (vec![CloseStep::Register, CloseStep::Cancel], false));
    let bid = active.bid.unwrap();
    assert!(bid.packed == word(1) && bid.claimant_registered && !bid.cancelled);
    let (_, action) = begin_cycle(&MmConfig::default(), &TARGET, sorted_pair(), &seen(), &active).unwrap();
    assert!(matches!(action, CycleAction::Close(Side::Bid)));
    let (sent, closed) = close_with(active.bid.as_mut().unwrap(), 2);
    assert_eq!((sent, closed), (vec![CloseStep::Cancel, CloseStep::Distribute], true));
}

#[test]
fn order_that_does_not_rest_is_not_recorded() {
    let cfg = MmConfig::default();
    let mut active = ActiveOrders::default();
    let (mut cycle, action) = begin_cycle(&cfg, &TARGET, sorted_pair(), &seen(), &active).unwrap();
    assert!(matches!(action, CycleAction::Place(Side::Bid, _)));
    run_cycle(&mut cycle, &mut active, CycleEvent::Placed(B256::zero()));
    assert!(active.bid.is_none());
}

#[test]
fn empty_quotes_are_not_placed() {
    let cfg = MmConfig::default();
    let mut poor = seen();
    poor.usdg_balance = 0;
    let active = ActiveOrders::default();
    let (_, action) = begin_cycle(&cfg, &TARGET, sorted_pair(), &poor, &active).unwrap();
    assert!(matches!(action, CycleAction::Place(Side::Ask, _)));
    poor.nvda_balance = 0;
    let (_, action) = begin_cycle(&cfg, &TARGET, sorted_pair(), &poor, &active).unwrap();
    assert!(matches!(action, CycleAction::Complete));
}

#[test]
fn reconcile_takes_over_what_is_found() {
    let mut active = ActiveOrders::default();
    reconcile_active_orders(&mut active, 4, sorted_pair(), &vec![word(1)], &vec![]).unwrap();
    let bid = active.bid.unwrap();
    assert_eq!((bid.packed, bid.epoch, bid.sold_token), (word(1), 4, Address(USDG)));
    assert!(active.ask.is_none());
}

#[test]
fn reconcile_drops_and_keeps() {
    let mut kept = resting(1, 4);
    kept.claimant_registered = true;
    let mut active = ActiveOrders { bid: Some(kept), ask: Some(resting(2, 4)) };
    reconcile_active_orders(&mut active, 4, sorted_pair(), &vec![word(1)], &vec![]).unwrap();
    assert!(active.bid.unwrap().claimant_registered);
    assert!(active.ask.is_none());
    let mut active = ActiveOrders { bid: Some(resting(1, 3)), ask: Some(resting(2, 4)) };
    reconcile_active_orders(&mut active, 4, sorted_pair(), &vec![word(8)], &vec![word(9)]).unwrap();
    assert_eq!(active.bid.unwrap().packed, word(1));
    assert_eq!(active.ask.unwrap().packed, word(9));
    let before = active;
    reconcile_active_orders(&mut active, 4, sorted_pair(), &vec![word(8)], &vec![word(9)]).unwrap();
    assert_eq!(active.bid.unwrap().packed, before.bid.unwrap().packed);
    assert_eq!(active.ask.unwrap().packed, before.ask.unwrap().packed);
}

#[test]
fn reconcile_refuses_several_orders_on_a_side() {
    let mut active = ActiveOrders { bid: Some(resting(1, 4)), ask: None };
    let two = vec![word(1), word(2)];
    let result = reconcile_active_orders(&mut active, 4, sorted_pair(), &two, &two);
    assert!(matches!(result, Err(EngineError::MultipleOwnedBids)));
    let result = reconcile_active_orders(&mut active, 4, sorted_pair(), &vec![], &two);
    assert!(matches!(result, Err(EngineError::MultipleOwnedAsks)));
    assert_eq!(active.bid.unwrap().packed, word(1));
}

#[test]
fn stored_orders_are_loaded() {
    assert!(load_active_orders(None).bid.is_none());
    let stored = ActiveOrders { bid: None, ask: Some(resting(2, 4)) };
    assert_eq!(load_active_orders(Some(stored)).ask.unwrap().packed, word(2));
}

#[test]
fn small_allowance_is_raised_to_the_maximum() {
    let token = Address(USDG);
    assert!(matches!(ensure_allowance(token, &word(10), &word(10)), AllowanceAction::Enough));
    match ensure_allowance(token, &word(9), &word(10)) {
        AllowanceAction::Approve { token: t, spender, amount } => {
            assert_eq!((t, spender, amount), (token, Address(ROUTER), B256::max()))
        }
        other => panic!("{other:?}"),
    }
    assert!(check_approval(token, &receipt(true, 1)).is_ok());
    match check_approval(token, &receipt(false, 1)) {
        Err(EngineError::ApproveFailed(t)) => assert_eq!(t, token),
        other => panic!("{other:?}"),
    }
    assert!(matches!(ensure_allowance(token, &B256::max(), &B256::max()), AllowanceAction::Enough));
}
