//! Placing an order and finding where it came to rest.
use crate::engine::book::{
    find_owned_orders, SearchAction, SearchEvent, SearchView, TreeSearch, Visit, Wanted,
};
use crate::engine::book;
use crate::engine::receipt::Receipt;
use crate::engine::state::BookKey;
use crate::engine::tree;
use crate::engine::tree::Tree;
use crate::error::EngineError;
use crate::order::unpack;
use crate::words::{Address, B256};
use vstd::prelude::*;

verus! {

/// The arguments of `fill`.
#[derive(Debug, Clone, Copy)]
pub struct FillRequest {
    pub token0: Address,
    pub token1: Address,
    pub epoch: u64,
    pub order: B256,
    pub is_bid: bool,
    /// What is not matched at once is dropped.
    pub no_rest: bool,
    /// The order is matched as a whole or not at all.
    pub fill_or_kill: bool,
}

/// The request for an order that may rest on the book.
pub fn fill_request(
    token0: Address,
    token1: Address,
    epoch: u64,
    order: B256,
    is_bid: bool,
) -> (request: FillRequest)
    ensures
        request == (FillRequest {
            token0,
            token1,
            epoch,
            order,
            is_bid,
            no_rest: false,
            fill_or_kill: false,
        }),
{
    FillRequest { token0, token1, epoch, order, is_bid, no_rest: false, fill_or_kill: false }
}

impl FillRequest {
    /// The book that the order goes to.
    pub fn book(&self) -> (key: BookKey)
        ensures
            key == (BookKey { token0: self.token0, token1: self.token1, epoch: self.epoch }),
    {
        BookKey { token0: self.token0, token1: self.token1, epoch: self.epoch }
    }
}

/// A placement under way.
pub struct Placement {
    pub request: FillRequest,
    /// The wallet that places the order.
    pub owner: Address,
    /// The resting order that a simulation of the fill gave.
    pub simulated: B256,
    /// The search for the resting order.
    pub search: TreeSearch,
}

/// What happened to a placement.
#[derive(Debug, Clone, Copy)]
pub enum PlaceEvent {
    Begin,
    /// The resting order that a simulation gave; zero where nothing would rest.
    Simulated(B256),
    /// The transaction was sent.
    Sent(B256),
    /// The transaction was included.
    Included(Receipt),
    /// The roots of the bid tree and of the ask tree.
    Roots(B256, B256),
    /// A node that the search asked for, its owner where that was asked for, and
    /// its children.
    Visited(B256, Option<Address>, B256, B256),
}

/// What a placement asks for next.
#[derive(Debug, Clone, Copy)]
pub enum PlaceAction {
    /// Call `fill` without sending it.
    Simulate(FillRequest),
    /// Send `fill`.
    Send(FillRequest),
    /// Wait for the receipt of this transaction.
    AwaitReceipt(B256),
    /// Read the roots of the book.
    ReadRoots,
    /// Read the children of a node, and its owner where that matters.
    Visit(Visit),
    /// Nothing: the order rests under this word, or nothing of it rests (zero).
    Placed(B256),
}

/// The one order that was found, if it is one.
pub open spec fn unique_order(found: Seq<B256>) -> Result<B256, EngineError> {
    if found.len() > 1 {
        Err(EngineError::MultipleMatching)
    } else if found.len() == 1 {
        Ok(found[0])
    } else {
        Err(EngineError::NoRestingOrder)
    }
}

/// The one order that was found, if it is one.
pub fn unique_match(found: &Vec<B256>) -> (order: Result<B256, EngineError>)
    ensures
        order == unique_order(found@),
{
    if found.len() > 1 {
        Err(EngineError::MultipleMatching)
    } else if found.len() == 1 {
        Ok(found[0])
    } else {
        Err(EngineError::NoRestingOrder)
    }
}

/// What is looked for once the fill was included: the tick and quantity of the
/// order that the simulation left resting.
pub open spec fn wanted_after(simulated: B256) -> Option<Wanted> {
    Some(
        Wanted {
            tick: crate::order::order_of(simulated).tick,
            quantity: crate::order::order_of(simulated).quantity,
        },
    )
}

/// A placement as its contents.
#[verifier::ext_equal]
pub struct PlacementView {
    pub request: FillRequest,
    pub owner: Address,
    pub simulated: B256,
    pub search: SearchView,
}

impl View for Placement {
    type V = PlacementView;

    open spec fn view(&self) -> PlacementView {
        PlacementView {
            request: self.request,
            owner: self.owner,
            simulated: self.simulated,
            search: self.search@,
        }
    }
}

/// What follows once a search was told something.
pub open spec fn search_reply(search: SearchView, event: SearchEvent) -> Result<
    PlaceAction,
    EngineError,
> {
    match search.reply(event) {
        Err(error) => Err(error),
        Ok(SearchAction::Visit(visit)) => Ok(PlaceAction::Visit(visit)),
        Ok(SearchAction::Finished) => match unique_order(search.after(event).found) {
            Err(error) => Err(error),
            Ok(order) => Ok(PlaceAction::Placed(order)),
        },
    }
}

impl PlacementView {
    /// The search for the resting order, from the root of its side.
    pub open spec fn search_begun(self, bid_root: B256, ask_root: B256) -> SearchView {
        SearchView::begun(
            if self.request.is_bid {
                bid_root
            } else {
                ask_root
            },
            self.owner,
            wanted_after(self.simulated),
        )
    }

    /// The placement after an event.
    pub open spec fn after(self, event: PlaceEvent) -> PlacementView {
        match event {
            PlaceEvent::Simulated(order) => PlacementView { simulated: order, ..self },
            PlaceEvent::Roots(bid_root, ask_root) => PlacementView {
                search: self.search_begun(bid_root, ask_root).after(SearchEvent::Begin),
                ..self
            },
            PlaceEvent::Visited(node, node_owner, left, right) => PlacementView {
                search: self.search.after(SearchEvent::Visited(node, node_owner, left, right)),
                ..self
            },
            _ => self,
        }
    }

    /// What follows from an event.
    pub open spec fn reply(self, event: PlaceEvent) -> Result<PlaceAction, EngineError> {
        match event {
            PlaceEvent::Begin => Ok(PlaceAction::Simulate(self.request)),
            PlaceEvent::Simulated(_) => Ok(PlaceAction::Send(self.request)),
            PlaceEvent::Sent(hash) => Ok(PlaceAction::AwaitReceipt(hash)),
            PlaceEvent::Included(receipt) => if !receipt.status {
                Err(EngineError::FillFailed)
            } else if self.simulated.is_zero() {
                Ok(PlaceAction::Placed(self.simulated))
            } else {
                Ok(PlaceAction::ReadRoots)
            },
            PlaceEvent::Roots(bid_root, ask_root) => search_reply(
                self.search_begun(bid_root, ask_root),
                SearchEvent::Begin,
            ),
            PlaceEvent::Visited(node, node_owner, left, right) => search_reply(
                self.search,
                SearchEvent::Visited(node, node_owner, left, right),
            ),
        }
    }
}

impl Placement {
    /// A placement that has done nothing yet.
    pub fn new(request: FillRequest, owner: Address) -> (placement: Placement)
        ensures
            placement@.request == request,
            placement@.owner == owner,
            placement@.simulated.is_zero(),
            placement@.search == SearchView::begun(placement@.simulated, owner, None),
    {
        let zero = B256::zero();
        Placement { request, owner, simulated: zero, search: TreeSearch::new(zero, owner, None) }
    }

    /// Tells the search something, and says what follows.
    fn search_on(&mut self, event: SearchEvent) -> (action: Result<PlaceAction, EngineError>)
        ensures
            final(self)@ == (PlacementView {
                search: old(self)@.search.after(event),
                ..old(self)@
            }),
            action == search_reply(old(self)@.search, event),
    {
        match find_owned_orders(&mut self.search, event) {
            Err(error) => Err(error),
            Ok(SearchAction::Visit(visit)) => Ok(PlaceAction::Visit(visit)),
            Ok(SearchAction::Finished) => match unique_match(&self.search.found) {
                Err(error) => Err(error),
                Ok(order) => Ok(PlaceAction::Placed(order)),
            },
        }
    }
}

/// Takes a placement one step further. The simulation only tells what to look
/// for; where the order rests is read from the book once the fill was included.
pub fn place_order(placement: &mut Placement, event: PlaceEvent) -> (action: Result<
    PlaceAction,
    EngineError,
>)
    ensures
        final(placement)@ == old(placement)@.after(event),
        action == old(placement)@.reply(event),
{
    match event {
        PlaceEvent::Begin => Ok(PlaceAction::Simulate(placement.request)),
        PlaceEvent::Simulated(order) => {
            placement.simulated = order;
            Ok(PlaceAction::Send(placement.request))
        },
        PlaceEvent::Sent(hash) => Ok(PlaceAction::AwaitReceipt(hash)),
        PlaceEvent::Included(receipt) => {
            if !receipt.status {
                Err(EngineError::FillFailed)
            } else if placement.simulated.is_empty() {
                Ok(PlaceAction::Placed(placement.simulated))
            } else {
                Ok(PlaceAction::ReadRoots)
            }
        },
        PlaceEvent::Roots(bid_root, ask_root) => {
            let requested = unpack(&placement.simulated);
            let root = if placement.request.is_bid {
                bid_root
            } else {
                ask_root
            };
            placement.search = TreeSearch::new(
                root,
                placement.owner,
                Some(Wanted { tick: requested.tick, quantity: requested.quantity }),
            );
            placement.search_on(SearchEvent::Begin)
        },
        PlaceEvent::Visited(node, node_owner, left, right) => {
            placement.search_on(SearchEvent::Visited(node, node_owner, left, right))
        },
    }
}

/// How the search of a placement ends that gets every answer from `children` and
/// `owners`.
pub open spec fn placement_outcome(
    placement: PlacementView,
    event: PlaceEvent,
    children: spec_fn(B256) -> (B256, B256),
    owners: spec_fn(B256) -> Address,
    fuel: nat,
) -> Option<Result<B256, EngineError>>
    decreases fuel,
{
    match placement.reply(event) {
        Err(error) => Some(Err(error)),
        Ok(PlaceAction::Placed(order)) => Some(Ok(order)),
        Ok(PlaceAction::Visit(visit)) => if fuel == 0 {
            None
        } else {
            placement_outcome(
                placement.after(event),
                visit_told(tree::answer(visit, children, owners)),
                children,
                owners,
                (fuel - 1) as nat,
            )
        },
        Ok(_) => None,
    }
}

/// A visit of the search as an event of its placement.
pub open spec fn visit_told(event: SearchEvent) -> PlaceEvent {
    match event {
        SearchEvent::Visited(node, node_owner, left, right) => PlaceEvent::Visited(
            node,
            node_owner,
            left,
            right,
        ),
        SearchEvent::Begin => PlaceEvent::Begin,
    }
}

/// A fill that left something resting ends with the one order of the tree that
/// belongs to the wallet and has the tick and quantity that the simulation gave;
/// it fails where the tree holds no such order, or more than one, or where too many
/// nodes would be pending at once.
pub proof fn law_placement_finds_the_resting_order(
    placement: PlacementView,
    bid_root: B256,
    ask_root: B256,
    tree: Tree,
    children: spec_fn(B256) -> (B256, B256),
    owners: spec_fn(B256) -> Address,
    fuel: nat,
)
    requires
        tree.drawn_from(
            if placement.request.is_bid {
                bid_root
            } else {
                ask_root
            },
            children,
        ),
        fuel >= tree.size(),
    ensures
        placement_outcome(
            placement,
            PlaceEvent::Roots(bid_root, ask_root),
            children,
            owners,
            fuel,
        ) == Some(
            if tree.peak() < book::MAX_PENDING {
                unique_order(
                    tree.listing(
                        |w: B256|
                            book::is_wanted(wanted_after(placement.simulated), w) && owners(w)
                                == placement.owner,
                    ),
                )
            } else {
                Err(EngineError::TraversalBound)
            },
        ),
{
    let begun = placement.search_begun(bid_root, ask_root);
    tree::law_search_lists_the_owned_orders(
        placement.owner,
        wanted_after(placement.simulated),
        if placement.request.is_bid {
            bid_root
        } else {
            ask_root
        },
        tree,
        children,
        owners,
        fuel,
    );
    lemma_placement_searches(
        placement,
        PlaceEvent::Roots(bid_root, ask_root),
        begun,
        SearchEvent::Begin,
        children,
        owners,
        fuel,
    );
}

/// A placement that searches ends as its search does.
proof fn lemma_placement_searches(
    placement: PlacementView,
    event: PlaceEvent,
    search: SearchView,
    search_event: SearchEvent,
    children: spec_fn(B256) -> (B256, B256),
    owners: spec_fn(B256) -> Address,
    fuel: nat,
)
    requires
        placement.reply(event) == search_reply(search, search_event),
        placement.after(event).search == search.after(search_event),
    ensures
        ({
            let outcome = placement_outcome(placement, event, children, owners, fuel);
            match tree::search_outcome(search, search_event, children, owners, fuel) {
                Some(Ok(found)) => outcome == Some(unique_order(found)),
                Some(Err(error)) => outcome == Some(Err::<B256, EngineError>(error)),
                None => outcome is None,
            }
        }),
    decreases fuel,
{
    if let Ok(SearchAction::Visit(visit)) = search.reply(search_event) {
        if fuel > 0 {
            let told = tree::answer(visit, children, owners);
            lemma_placement_searches(
                placement.after(event),
                visit_told(told),
                search.after(search_event),
                told,
                children,
                owners,
                (fuel - 1) as nat,
            );
        }
    }
}

/// A fill that failed on the chain is an error, and a fill that left nothing
/// resting ends at once, without a look at the book.
pub proof fn law_fill_without_rest_ends(placement: PlacementView, receipt: Receipt)
    ensures
        !receipt.status ==> placement.reply(PlaceEvent::Included(receipt)) == Err::<
            PlaceAction,
            EngineError,
        >(EngineError::FillFailed),
        receipt.status && placement.simulated.is_zero() ==> placement.reply(
            PlaceEvent::Included(receipt),
        ) == Ok::<PlaceAction, EngineError>(PlaceAction::Placed(placement.simulated)),
{
}

/// What a placement gets for answers. `None` stands for a call that failed.
pub struct PlaceAnswers {
    /// The simulation.
    pub simulated: Option<B256>,
    /// The hash under which the fill was sent.
    pub hash: Option<B256>,
    /// The receipt of the fill.
    pub receipt: Option<Receipt>,
    /// The roots of the bid tree and of the ask tree.
    pub roots: Option<(B256, B256)>,
    /// The children of a node.
    pub children: spec_fn(B256) -> (B256, B256),
    /// The owner of a node.
    pub owners: spec_fn(B256) -> Address,
}

impl PlaceAnswers {
    /// The event that answers an action; none where the placement is over or the
    /// call failed.
    pub open spec fn to(self, action: PlaceAction) -> Option<PlaceEvent> {
        match action {
            PlaceAction::Simulate(_) => match self.simulated {
                Some(order) => Some(PlaceEvent::Simulated(order)),
                None => None,
            },
            PlaceAction::Send(_) => match self.hash {
                Some(hash) => Some(PlaceEvent::Sent(hash)),
                None => None,
            },
            PlaceAction::AwaitReceipt(_) => match self.receipt {
                Some(receipt) => Some(PlaceEvent::Included(receipt)),
                None => None,
            },
            PlaceAction::ReadRoots => match self.roots {
                Some((bid_root, ask_root)) => Some(PlaceEvent::Roots(bid_root, ask_root)),
                None => None,
            },
            PlaceAction::Visit(visit) => Some(
                visit_told(tree::answer(visit, self.children, self.owners)),
            ),
            PlaceAction::Placed(_) => None,
        }
    }
}

/// A placement that went as far as it could.
#[verifier::ext_equal]
pub struct Placing {
    /// The fills that were simulated.
    pub simulated: Seq<FillRequest>,
    /// The fills that were sent.
    pub sent: Seq<FillRequest>,
    /// The transactions whose receipts were waited for.
    pub awaited: Seq<B256>,
    /// Placed, failed, or (`None`) left without an answer.
    pub ended: Option<Result<B256, EngineError>>,
}

/// How a placement goes that was told `event` and gets `answers`.
pub open spec fn placement_run(
    placement: PlacementView,
    event: PlaceEvent,
    answers: PlaceAnswers,
    fuel: nat,
) -> Placing
    decreases fuel,
{
    let over = Placing {
        simulated: Seq::empty(),
        sent: Seq::empty(),
        awaited: Seq::empty(),
        ended: None,
    };
    match placement.reply(event) {
        Err(error) => Placing { ended: Some(Err(error)), ..over },
        Ok(PlaceAction::Placed(order)) => Placing { ended: Some(Ok(order)), ..over },
        Ok(action) => {
            let rest = if answers.to(action) is None || fuel == 0 {
                over
            } else {
                placement_run(
                    placement.after(event),
                    answers.to(action)->0,
                    answers,
                    (fuel - 1) as nat,
                )
            };
            match action {
                PlaceAction::Simulate(request) => Placing {
                    simulated: seq![request] + rest.simulated,
                    ..rest
                },
                PlaceAction::Send(request) if answers.hash is Some => Placing {
                    sent: seq![request] + rest.sent,
                    ..rest
                },
                PlaceAction::AwaitReceipt(hash) => Placing {
                    awaited: seq![hash] + rest.awaited,
                    ..rest
                },
                _ => rest,
            }
        },
    }
}

/// A placement from its beginning. The fill is simulated once; where that worked,
/// the same fill is sent, once and never again, and the receipt of that
/// transaction is waited for. It fails where the receipt says so; it ends with the
/// zero word where the simulation left nothing resting; else it ends with the one
/// order of the wallet in the tree of its side that has the tick and quantity that
/// the simulation gave, or fails as the search does.
pub proof fn law_placement_fills_once(
    placement: PlacementView,
    answers: PlaceAnswers,
    tree: Tree,
    fuel: nat,
)
    requires
        answers.roots matches Some((bid_root, ask_root)) ==> tree.drawn_from(
            if placement.request.is_bid {
                bid_root
            } else {
                ask_root
            },
            answers.children,
        ),
        fuel >= tree.size() + 4,
    ensures
        ({
            let run = placement_run(placement, PlaceEvent::Begin, answers, fuel);
            let sends = answers.simulated is Some && answers.hash is Some;
            let wanted = wanted_after(answers.simulated->0);
            &&& run.simulated == seq![placement.request]
            &&& run.sent == (if sends {
                seq![placement.request]
            } else {
                Seq::empty()
            })
            &&& run.awaited == (if sends {
                seq![answers.hash->0]
            } else {
                Seq::empty()
            })
            &&& run.ended == (if !sends || answers.receipt is None {
                None
            } else if !answers.receipt->0.status {
                Some(Err(EngineError::FillFailed))
            } else if answers.simulated->0.is_zero() {
                Some(Ok(answers.simulated->0))
            } else if answers.roots is None {
                None
            } else if tree.peak() >= book::MAX_PENDING {
                Some(Err(EngineError::TraversalBound))
            } else {
                Some(
                    unique_order(
                        tree.listing(
                            |w: B256|
                                book::is_wanted(wanted, w) && (answers.owners)(w)
                                    == placement.owner,
                        ),
                    ),
                )
            })
        }),
{
    reveal_with_fuel(placement_run, 5);
    let run = placement_run(placement, PlaceEvent::Begin, answers, fuel);
    if answers.simulated is Some && answers.roots is Some {
        let (bid_root, ask_root) = answers.roots->0;
        let now = placement.after(PlaceEvent::Simulated(answers.simulated->0));
        law_placement_finds_the_resting_order(
            now,
            bid_root,
            ask_root,
            tree,
            answers.children,
            answers.owners,
            (fuel - 4) as nat,
        );
        lemma_search_sends_nothing(
            now,
            PlaceEvent::Roots(bid_root, ask_root),
            answers,
            (fuel - 4) as nat,
        );
    }
    assert(run.simulated =~= seq![placement.request]);
    if answers.simulated is Some && answers.hash is Some {
        assert(run.sent =~= seq![placement.request]);
        assert(run.awaited =~= seq![answers.hash->0]);
    }
}

/// Once the roots are read a placement only searches.
proof fn lemma_search_sends_nothing(
    placement: PlacementView,
    event: PlaceEvent,
    answers: PlaceAnswers,
    fuel: nat,
)
    requires
        event is Roots || event is Visited,
    ensures
        placement_run(placement, event, answers, fuel) == (Placing {
            simulated: Seq::empty(),
            sent: Seq::empty(),
            awaited: Seq::empty(),
            ended: placement_outcome(placement, event, answers.children, answers.owners, fuel),
        }),
    decreases fuel,
{
    if let Ok(PlaceAction::Visit(visit)) = placement.reply(event) {
        if fuel > 0 {
            lemma_search_sends_nothing(
                placement.after(event),
                visit_told(tree::answer(visit, answers.children, answers.owners)),
                answers,
                (fuel - 1) as nat,
            );
        }
    }
}

/// After a fill that took effect and whose simulation left `s` resting, the
/// placement ends with a word exactly when that word is the only node in the tree
/// of its side that belongs to the wallet and has the tick and the quantity of `s`;
/// with no such node, or more than one, it fails and says which.
pub proof fn law_placement_ends_with_the_only_match(
    placement: PlacementView,
    answers: PlaceAnswers,
    tree: Tree,
    fuel: nat,
    bid_root: B256,
    ask_root: B256,
    s: B256,
    w: B256,
)
    requires
        answers.simulated == Some(s),
        s.value() != 0,
        answers.hash is Some,
        answers.receipt is Some && answers.receipt->0.status,
        answers.roots == Some((bid_root, ask_root)),
        placement.request.is_bid ==> tree.drawn_from(bid_root, answers.children),
        !placement.request.is_bid ==> tree.drawn_from(ask_root, answers.children),
        tree.peak() < 10000,
        fuel >= tree.size() + 4,
    ensures
        ({
            let end = placement_run(placement, PlaceEvent::Begin, answers, fuel).ended;
            let matching = |n: B256|
                (answers.owners)(n) == placement.owner && crate::order::order_of(n).tick
                    == crate::order::order_of(s).tick && crate::order::order_of(n).quantity
                    == crate::order::order_of(s).quantity;
            &&& end == Some(Ok::<B256, EngineError>(w)) <==> tree.has(w) && matching(w)
                && tree.count(matching) == 1
            &&& tree.count(matching) == 0 ==> end == Some(
                Err::<B256, EngineError>(EngineError::NoRestingOrder),
            )
            &&& tree.count(matching) > 1 ==> end == Some(
                Err::<B256, EngineError>(EngineError::MultipleMatching),
            )
        }),
{
    crate::words::law_zero_word_spells_zero(s);
    law_placement_fills_once(placement, answers, tree, fuel);
    let wanted = wanted_after(s);
    let keep = |n: B256| book::is_wanted(wanted, n) && (answers.owners)(n) == placement.owner;
    let matching = |n: B256|
        (answers.owners)(n) == placement.owner && crate::order::order_of(n).tick
            == crate::order::order_of(s).tick && crate::order::order_of(n).quantity
            == crate::order::order_of(s).quantity;
    assert(keep =~= matching);
    let found = tree.listing(keep);
    tree::law_listing_is_as_long_as_the_count(tree, keep);
    if found.len() == 1 {
        tree::law_listed_orders_are_kept_nodes(tree, keep, 0);
        if tree.has(w) && keep(w) {
            tree::law_kept_nodes_are_listed(tree, keep, w);
        }
    }
}

/// What a placement asks for, one answer at a time: first the simulation of its own
/// request, then, whatever that gave, the sending of the same request, then the
/// receipt of what was sent, then the roots. A failed fill fails, and one that left
/// nothing resting ends with the zero word.
pub proof fn law_placement_sequence(
    placement: PlacementView,
    word: B256,
    receipt: Receipt,
)
    ensures
        placement.reply(PlaceEvent::Begin) == Ok::<PlaceAction, EngineError>(
            PlaceAction::Simulate(placement.request),
        ),
        placement.reply(PlaceEvent::Simulated(word)) == Ok::<PlaceAction, EngineError>(
            PlaceAction::Send(placement.request),
        ),
        placement.reply(PlaceEvent::Sent(word)) == Ok::<PlaceAction, EngineError>(
            PlaceAction::AwaitReceipt(word),
        ),
        !receipt.status ==> placement.reply(PlaceEvent::Included(receipt)) == Err::<
            PlaceAction,
            EngineError,
        >(EngineError::FillFailed),
        receipt.status && placement.simulated.value() != 0 ==> placement.reply(
            PlaceEvent::Included(receipt),
        ) == Ok::<PlaceAction, EngineError>(PlaceAction::ReadRoots),
        receipt.status && placement.simulated.value() == 0 ==> placement.reply(
            PlaceEvent::Included(receipt),
        ) == Ok::<PlaceAction, EngineError>(PlaceAction::Placed(placement.simulated)),
        placement.after(PlaceEvent::Begin) == placement,
        placement.after(PlaceEvent::Simulated(word)).simulated == word,
        placement.after(PlaceEvent::Simulated(word)).request == placement.request,
        placement.after(PlaceEvent::Simulated(word)).owner == placement.owner,
        placement.after(PlaceEvent::Sent(word)) == placement,
        placement.after(PlaceEvent::Included(receipt)) == placement,
{
    crate::words::law_zero_word_spells_zero(placement.simulated);
}

/// What the search of a placement looks for: orders of its own wallet with the tick
/// and quantity of the simulated order, from the bid root for a bid and from the ask
/// root for an ask.
pub proof fn law_placement_looks_for_the_simulated_order(
    placement: PlacementView,
    bid_root: B256,
    ask_root: B256,
)
    ensures
        ({
            let now = placement.after(PlaceEvent::Roots(bid_root, ask_root));
            let root = if placement.request.is_bid {
                bid_root
            } else {
                ask_root
            };
            let order = crate::order::order_of(placement.simulated);
            let reply = placement.reply(PlaceEvent::Roots(bid_root, ask_root));
            &&& now.search.owner == placement.owner
            &&& now.search.wanted is Some
            &&& now.search.wanted->0.tick == order.tick
            &&& now.search.wanted->0.quantity == order.quantity
            &&& now.search.found.len() == 0
            &&& now.request == placement.request
            &&& now.owner == placement.owner
            &&& now.simulated == placement.simulated
            &&& root.value() != 0 ==> {
                &&& reply matches Ok(PlaceAction::Visit(visit))
                &&& visit.node == root
                &&& now.search.stack.len() == 0
            }
            &&& root.value() == 0 ==> reply == Err::<PlaceAction, EngineError>(
                EngineError::NoRestingOrder,
            )
        }),
{
    let root = if placement.request.is_bid {
        bid_root
    } else {
        ask_root
    };
    crate::words::law_zero_word_spells_zero(root);
    let begun = placement.search_begun(bid_root, ask_root);
    assert(begun.stack.drop_last() =~= Seq::<B256>::empty());
    reveal_with_fuel(book::without_zeros, 2);
}

/// A placement that searches does what its search does, and once that is over ends
/// with the one order found, or fails.
pub proof fn law_placement_follows_its_search(
    placement: PlacementView,
    node: B256,
    node_owner: Option<Address>,
    left: B256,
    right: B256,
)
    ensures
        ({
            let told = SearchEvent::Visited(node, node_owner, left, right);
            let now = placement.after(PlaceEvent::Visited(node, node_owner, left, right));
            let reply = placement.reply(PlaceEvent::Visited(node, node_owner, left, right));
            let found = now.search.found;
            &&& now.search == placement.search.after(told)
            &&& now.request == placement.request
            &&& now.owner == placement.owner
            &&& now.simulated == placement.simulated
            &&& match placement.search.reply(told) {
                Err(error) => reply == Err::<PlaceAction, EngineError>(error),
                Ok(SearchAction::Visit(visit)) => reply == Ok::<PlaceAction, EngineError>(
                    PlaceAction::Visit(visit),
                ),
                Ok(SearchAction::Finished) => {
                    &&& found.len() == 0 ==> reply == Err::<PlaceAction, EngineError>(
                        EngineError::NoRestingOrder,
                    )
                    &&& found.len() == 1 ==> reply == Ok::<PlaceAction, EngineError>(
                        PlaceAction::Placed(found[0]),
                    )
                    &&& found.len() > 1 ==> reply == Err::<PlaceAction, EngineError>(
                        EngineError::MultipleMatching,
                    )
                },
            }
        }),
{
}

/// One order that was found is the match; none or several are an error.
pub proof fn law_match_is_unique(found: Seq<B256>)
    ensures
        found.len() == 0 ==> unique_order(found) == Err::<B256, EngineError>(
            EngineError::NoRestingOrder,
        ),
        found.len() == 1 ==> unique_order(found) == Ok::<B256, EngineError>(found[0]),
        found.len() > 1 ==> unique_order(found) == Err::<B256, EngineError>(
            EngineError::MultipleMatching,
        ),
{
}

/// A placement is its four parts.
pub proof fn law_placement_contents(placement: Placement)
    ensures
        placement@.request == placement.request,
        placement@.owner == placement.owner,
        placement@.simulated == placement.simulated,
        placement@.search == placement.search@,
{
}

} // verus!
