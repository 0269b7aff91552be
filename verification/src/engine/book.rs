//! Reading the order trees of the book.
//!
//! Each side of the book is a binary tree whose nodes are packed orders. The
//! chain names the root of a side and the children of a node; the zero word
//! stands for "no node".
use crate::error::EngineError;
use crate::order::{unpack, Order};
use crate::words::{Address, B256};
use vstd::prelude::*;

verus! {

/// The most levels that the search for the best order descends.
pub const MAX_LEVELS: u32 = 256;

/// The number of pending nodes at which the search of a tree is given up.
pub const MAX_PENDING: usize = 10000;

// ---------------------------------------------------------------------------
// The best order of a side
// ---------------------------------------------------------------------------

/// A descent towards the best order of a side.
#[derive(Debug, Clone, Copy)]
pub struct TopWalk {
    pub node: B256,
    /// How many levels lie above the node.
    pub level: u32,
}

/// What the chain told the descent.
#[derive(Debug, Clone, Copy)]
pub enum WalkEvent {
    Begin,
    /// The children of the node that was asked for.
    Children(B256, B256),
}

/// What the descent asks for next.
#[derive(Debug, Clone, Copy)]
pub enum WalkAction {
    /// The children of this node.
    Read(B256),
    /// Nothing: this is the best order of the side and its nonce, or there is
    /// none and the nonce is zero.
    Top(Option<Order>, u32),
}

impl TopWalk {
    /// A descent that stands at the root.
    pub open spec fn begun(root: B256) -> TopWalk {
        TopWalk { node: root, level: 0 }
    }

    /// A descent that stands at the root.
    pub fn new(root: B256) -> (walk: TopWalk)
        ensures
            walk == TopWalk::begun(root),
    {
        TopWalk { node: root, level: 0 }
    }

    /// The descent after an event.
    pub open spec fn after(self, event: WalkEvent) -> TopWalk {
        match event {
            WalkEvent::Begin => self,
            WalkEvent::Children(left, right) => if left.is_zero() || self.level >= MAX_LEVELS {
                self
            } else {
                TopWalk {
                    node: if right.is_zero() {
                        left
                    } else {
                        right
                    },
                    level: (self.level + 1) as u32,
                }
            },
        }
    }

    /// What follows from an event: a node without a left child carries the best
    /// order; otherwise the descent goes right, or left where nothing is right.
    pub open spec fn reply(self, event: WalkEvent) -> Result<WalkAction, EngineError> {
        match event {
            WalkEvent::Begin => if self.node.is_zero() {
                Ok(WalkAction::Top(None, 0))
            } else {
                Ok(WalkAction::Read(self.node))
            },
            WalkEvent::Children(left, right) => if left.is_zero() {
                let order = crate::order::order_of(self.node);
                Ok(WalkAction::Top(Some(order), order.nonce))
            } else if self.level + 1 < MAX_LEVELS {
                Ok(WalkAction::Read(self.after(event).node))
            } else {
                Err(EngineError::TreeTooDeep)
            },
        }
    }
}

/// Takes the descent towards the best order one step further.
pub fn walk_top(walk: &mut TopWalk, event: WalkEvent) -> (action: Result<WalkAction, EngineError>)
    ensures
        *final(walk) == old(walk).after(event),
        action == old(walk).reply(event),
{
    match event {
        WalkEvent::Begin => {
            if walk.node.is_empty() {
                Ok(WalkAction::Top(None, 0))
            } else {
                Ok(WalkAction::Read(walk.node))
            }
        },
        WalkEvent::Children(left, right) => {
            if left.is_empty() {
                let order = unpack(&walk.node);
                return Ok(WalkAction::Top(Some(order), order.nonce));
            }
            if walk.level >= MAX_LEVELS {
                return Err(EngineError::TreeTooDeep);
            }
            walk.node = if right.is_empty() {
                left
            } else {
                right
            };
            walk.level = walk.level + 1;
            if walk.level < MAX_LEVELS {
                Ok(WalkAction::Read(walk.node))
            } else {
                Err(EngineError::TreeTooDeep)
            }
        },
    }
}

/// The best order of a side agrees with what the chain reports of it.
pub open spec fn nonce_agrees(top: Option<Order>, walked: u32, reported: u32) -> bool {
    match top {
        Some(order) => order.nonce == reported,
        None => walked == 0,
    }
}

/// Whether the best order of a side agrees with what the chain reports of it.
fn check_nonce(top: Option<Order>, walked: u32, reported: u32) -> (agrees: bool)
    ensures
        agrees == nonce_agrees(top, walked, reported),
{
    match top {
        Some(order) => order.nonce == reported,
        None => walked == 0,
    }
}

/// The best orders of both sides, each found by a descent that ended with a
/// nonce, once they agree with the nonces that the chain reports.
pub fn fetch_top_of_book(
    bid: (Option<Order>, u32),
    ask: (Option<Order>, u32),
    reported_bid_nonce: u32,
    reported_ask_nonce: u32,
) -> (top: Result<(Option<Order>, Option<Order>), EngineError>)
    ensures
        top == (if !nonce_agrees(bid.0, bid.1, reported_bid_nonce) {
            Err(EngineError::BidNonceMismatch)
        } else if !nonce_agrees(ask.0, ask.1, reported_ask_nonce) {
            Err(EngineError::AskNonceMismatch)
        } else {
            Ok((bid.0, ask.0))
        }),
{
    if !check_nonce(bid.0, bid.1, reported_bid_nonce) {
        return Err(EngineError::BidNonceMismatch);
    }
    if !check_nonce(ask.0, ask.1, reported_ask_nonce) {
        return Err(EngineError::AskNonceMismatch);
    }
    Ok((bid.0, ask.0))
}

// ---------------------------------------------------------------------------
// The orders of one owner
// ---------------------------------------------------------------------------

/// The tick and quantity of the orders that a search is after.
#[derive(Debug, Clone, Copy, PartialEq, Eq, Structural)]
pub struct Wanted {
    pub tick: i32,
    pub quantity: u128,
}

/// A search of one tree for the orders of one owner.
pub struct TreeSearch {
    /// Whose orders are looked for.
    pub owner: Address,
    /// Only orders with this tick and quantity; all orders where `None`.
    pub wanted: Option<Wanted>,
    /// Nodes that were named and not yet visited, the next one last.
    pub stack: Vec<B256>,
    /// The orders found so far.
    pub found: Vec<B256>,
}

/// A node to visit.
#[derive(Debug, Clone, Copy)]
pub struct Visit {
    pub node: B256,
    /// The owner of the node has to be read as well as its children.
    pub check_owner: bool,
}

/// The nodes that are left once the "no node" entries on top are gone.
pub open spec fn without_zeros(stack: Seq<B256>) -> Seq<B256>
    decreases stack.len(),
{
    if stack.len() > 0 && stack.last().is_zero() {
        without_zeros(stack.drop_last())
    } else {
        stack
    }
}

/// An order that a search is after, whoever owns it.
pub open spec fn is_wanted(wanted: Option<Wanted>, node: B256) -> bool {
    match wanted {
        Some(w) => {
            let order = crate::order::order_of(node);
            order.tick == w.tick && order.quantity == w.quantity
        },
        None => true,
    }
}

/// A search as its contents.
#[verifier::ext_equal]
pub struct SearchView {
    pub owner: Address,
    pub wanted: Option<Wanted>,
    pub stack: Seq<B256>,
    pub found: Seq<B256>,
}

impl View for TreeSearch {
    type V = SearchView;

    open spec fn view(&self) -> SearchView {
        SearchView {
            owner: self.owner,
            wanted: self.wanted,
            stack: self.stack@,
            found: self.found@,
        }
    }
}

/// What the chain told a search.
#[derive(Debug, Clone, Copy)]
pub enum SearchEvent {
    Begin,
    /// The node that was asked for, its owner where that was asked for, and its
    /// children.
    Visited(B256, Option<Address>, B256, B256),
}

/// What a search asks for next.
#[derive(Debug, Clone, Copy)]
pub enum SearchAction {
    Visit(Visit),
    /// Nothing: every order was found.
    Finished,
}

/// The orders found, with one more where it counts.
pub open spec fn found_with(found: Seq<B256>, hit: bool, node: B256) -> Seq<B256> {
    if hit {
        found.push(node)
    } else {
        found
    }
}

impl SearchView {
    /// A search that has not visited anything.
    pub open spec fn begun(root: B256, owner: Address, wanted: Option<Wanted>) -> SearchView {
        SearchView { owner, wanted, stack: seq![root], found: Seq::empty() }
    }

    /// The node counts as found: it is wanted, and it belongs to the owner.
    pub open spec fn hit(self, node: B256, node_owner: Option<Address>) -> bool {
        is_wanted(self.wanted, node) && node_owner == Some(self.owner)
    }

    /// The search with what an event tells it.
    pub open spec fn told(self, event: SearchEvent) -> SearchView {
        match event {
            SearchEvent::Begin => self,
            SearchEvent::Visited(node, node_owner, left, right) => SearchView {
                stack: self.stack.push(left).push(right),
                found: found_with(self.found, self.hit(node, node_owner), node),
                ..self
            },
        }
    }

    /// The node to visit next, or none where the search is over.
    pub open spec fn upcoming(self) -> Option<Visit> {
        let rest = without_zeros(self.stack);
        if rest.len() > 0 {
            Some(Visit { node: rest.last(), check_owner: is_wanted(self.wanted, rest.last()) })
        } else {
            None
        }
    }

    /// The search without the node to visit next, or without anything pending
    /// where it is over.
    pub open spec fn popped(self) -> SearchView {
        let rest = without_zeros(self.stack);
        SearchView {
            stack: if rest.len() > 0 {
                rest.drop_last()
            } else {
                Seq::empty()
            },
            ..self
        }
    }

    /// An event leaves too many nodes pending.
    pub open spec fn overruns(self, event: SearchEvent) -> bool {
        event is Visited && self.told(event).stack.len() >= MAX_PENDING
    }

    /// The search after an event.
    pub open spec fn after(self, event: SearchEvent) -> SearchView {
        if self.overruns(event) {
            self.told(event)
        } else {
            self.told(event).popped()
        }
    }

    /// What follows from an event.
    pub open spec fn reply(self, event: SearchEvent) -> Result<SearchAction, EngineError> {
        if self.overruns(event) {
            Err(EngineError::TraversalBound)
        } else {
            match self.told(event).upcoming() {
                Some(visit) => Ok(SearchAction::Visit(visit)),
                None => Ok(SearchAction::Finished),
            }
        }
    }
}

impl TreeSearch {
    /// A search that has not visited anything.
    pub fn new(root: B256, owner: Address, wanted: Option<Wanted>) -> (search: TreeSearch)
        ensures
            search@ == SearchView::begun(root, owner, wanted),
    {
        let mut stack: Vec<B256> = Vec::new();
        stack.push(root);
        assert(stack@ =~= seq![root]);
        TreeSearch { owner, wanted, stack, found: Vec::new() }
    }

    /// Whether a node is one that the search is after, whoever owns it.
    fn wants(&self, node: &B256) -> (wanted: bool)
        ensures
            wanted == is_wanted(self.wanted, *node),
    {
        match self.wanted {
            Some(w) => {
                let order = unpack(node);
                order.tick == w.tick && order.quantity == w.quantity
            },
            None => true,
        }
    }

    /// Takes the next node to visit off the pending ones.
    fn next(&mut self) -> (visit: Option<Visit>)
        ensures
            visit == old(self)@.upcoming(),
            final(self)@ == old(self)@.popped(),
    {
        loop
            invariant
                self.owner == old(self).owner,
                self.wanted == old(self).wanted,
                self.found@ == old(self).found@,
                without_zeros(self.stack@) == without_zeros(old(self).stack@),
            decreases self.stack@.len(),
        {
            match self.stack.pop() {
                None => {
                    return None;
                },
                Some(node) => {
                    if !node.is_empty() {
                        let check_owner = self.wants(&node);
                        return Some(Visit { node, check_owner });
                    }
                },
            }
        }
    }

    /// Takes in what the chain told of a node: its owner, where that was asked
    /// for, and its children.
    fn visited(&mut self, node: B256, node_owner: Option<Address>, left: B256, right: B256)
        ensures
            final(self)@ == old(self)@.told(SearchEvent::Visited(node, node_owner, left, right)),
    {
        if self.wants(&node) {
            match node_owner {
                Some(address) => {
                    if address == self.owner {
                        self.found.push(node);
                    }
                },
                None => {},
            }
        }
        self.stack.push(left);
        self.stack.push(right);
    }
}

/// Takes the search of a tree one step further.
pub fn find_owned_orders(search: &mut TreeSearch, event: SearchEvent) -> (action: Result<
    SearchAction,
    EngineError,
>)
    ensures
        final(search)@ == old(search)@.after(event),
        action == old(search)@.reply(event),
{
    match event {
        SearchEvent::Begin => {},
        SearchEvent::Visited(node, node_owner, left, right) => {
            search.visited(node, node_owner, left, right);
            if search.stack.len() >= MAX_PENDING {
                return Err(EngineError::TraversalBound);
            }
        },
    }
    match search.next() {
        Some(visit) => Ok(SearchAction::Visit(visit)),
        None => Ok(SearchAction::Finished),
    }
}

/// One step of the descent, whatever orders the words carry. Told that its node
/// has a right child beside a left one, it asks for the children of the right one;
/// told that it has only a left one, for those of the left one; told that it has no
/// left one, it ends with the order of the node itself. Where 256 levels were read
/// it fails instead of asking.
pub proof fn law_descent_steps_right(walk: TopWalk, left: B256, right: B256)
    ensures
        ({
            let told = WalkEvent::Children(left, right);
            let order = crate::order::order_of(walk.node);
            &&& left.value() != 0 && right.value() != 0 && walk.level < 255 ==> {
                &&& walk.reply(told) == Ok::<WalkAction, EngineError>(WalkAction::Read(right))
                &&& walk.after(told).node == right
                &&& walk.after(told).level == walk.level + 1
            }
            &&& left.value() != 0 && right.value() == 0 && walk.level < 255 ==> {
                &&& walk.reply(told) == Ok::<WalkAction, EngineError>(WalkAction::Read(left))
                &&& walk.after(told).node == left
                &&& walk.after(told).level == walk.level + 1
            }
            &&& left.value() != 0 && walk.level >= 255 ==> walk.reply(told) == Err::<
                WalkAction,
                EngineError,
            >(EngineError::TreeTooDeep)
            &&& left.value() == 0 ==> walk.reply(told) == Ok::<WalkAction, EngineError>(
                WalkAction::Top(Some(order), order.nonce),
            )
        }),
{
    crate::words::law_zero_word_spells_zero(left);
    crate::words::law_zero_word_spells_zero(right);
}

/// The descent begins at the root: it asks for its children, or ends without an
/// order where there is no root.
pub proof fn law_descent_begins_at_the_root(root: B256, walk: TopWalk)
    ensures
        TopWalk::begun(root).node == root,
        TopWalk::begun(root).level == 0,
        walk.after(WalkEvent::Begin) == walk,
        walk.node.value() != 0 ==> walk.reply(WalkEvent::Begin) == Ok::<WalkAction, EngineError>(
            WalkAction::Read(walk.node),
        ),
        walk.node.value() == 0 ==> walk.reply(WalkEvent::Begin) == Ok::<WalkAction, EngineError>(
            WalkAction::Top(None, 0),
        ),
{
    crate::words::law_zero_word_spells_zero(walk.node);
}

/// A best order agrees with the chain exactly when the chain reports its nonce; an
/// empty side whenever its descent ended with the nonce zero.
pub proof fn law_nonce_check(order: Order, walked: u32, reported: u32)
    ensures
        nonce_agrees(Some(order), walked, reported) <==> order.nonce == reported,
        nonce_agrees(None, walked, reported) <==> walked == 0,
{
}

/// A node is found exactly when the chain names the owner that is looked for as its
/// owner and, where a tick and a quantity are looked for, its order has both. What
/// was found before stays found, and what is looked for does not change.
pub proof fn law_node_is_found(
    search: SearchView,
    node: B256,
    node_owner: Option<Address>,
    left: B256,
    right: B256,
)
    ensures
        ({
            let now = search.after(SearchEvent::Visited(node, node_owner, left, right));
            let order = crate::order::order_of(node);
            let fits = search.wanted is None || (order.tick == search.wanted->0.tick
                && order.quantity == search.wanted->0.quantity);
            let mine = node_owner is Some && node_owner->0 == search.owner;
            &&& mine && fits ==> now.found == search.found.push(node)
            &&& !(mine && fits) ==> now.found == search.found
            &&& now.owner == search.owner
            &&& now.wanted == search.wanted
        }),
{
}

/// Where the search goes from a node: to its right child, which leaves the left one
/// pending; without a right child to the left one; without children back to what is
/// pending. With ten thousand pending nodes or more, the two children counted, it
/// fails.
pub proof fn law_search_goes_right_first(
    search: SearchView,
    node: B256,
    node_owner: Option<Address>,
    left: B256,
    right: B256,
)
    ensures
        ({
            let event = SearchEvent::Visited(node, node_owner, left, right);
            let (now, reply) = (search.after(event), search.reply(event));
            let room = search.stack.len() + 2 < 10000;
            &&& !room ==> reply == Err::<SearchAction, EngineError>(EngineError::TraversalBound)
            &&& room && right.value() != 0 ==> {
                &&& reply matches Ok(SearchAction::Visit(visit))
                &&& visit.node == right
                &&& now.stack == search.stack.push(left)
            }
            &&& room && right.value() == 0 && left.value() != 0 ==> {
                &&& reply matches Ok(SearchAction::Visit(visit))
                &&& visit.node == left
                &&& now.stack == search.stack
            }
            &&& room && right.value() == 0 && left.value() == 0 ==> {
                &&& reply == search.reply(SearchEvent::Begin)
                &&& now.stack == search.after(SearchEvent::Begin).stack
            }
        }),
{
    crate::words::law_zero_word_spells_zero(left);
    crate::words::law_zero_word_spells_zero(right);
    let s = search.stack;
    let t = s.push(left).push(right);
    assert(t.drop_last() =~= s.push(left));
    assert(s.push(left).drop_last() =~= s);
    assert(t.last() == right);
    assert(s.push(left).last() == left);
    assert(without_zeros(t) == (if right.is_zero() {
        without_zeros(s.push(left))
    } else {
        t
    }));
    assert(without_zeros(s.push(left)) == (if left.is_zero() {
        without_zeros(s)
    } else {
        s.push(left)
    }));
}

/// Which pending node comes next: the last one that names a node. Where none does,
/// the search is over, with all that was found.
pub proof fn law_search_takes_the_last_pending_node(search: SearchView)
    ensures
        ({
            let (now, reply) = (search.after(SearchEvent::Begin), search.reply(SearchEvent::Begin));
            let s = search.stack;
            let shorter = SearchView { stack: s.drop_last(), ..search };
            &&& now.found == search.found && now.owner == search.owner && now.wanted
                == search.wanted
            &&& s.len() == 0 ==> reply == Ok::<SearchAction, EngineError>(SearchAction::Finished)
                && now.stack.len() == 0
            &&& s.len() > 0 && s.last().value() != 0 ==> {
                &&& reply matches Ok(SearchAction::Visit(visit))
                &&& visit.node == s.last()
                &&& now.stack == s.drop_last()
            }
            &&& s.len() > 0 && s.last().value() == 0 ==> {
                &&& reply == shorter.reply(SearchEvent::Begin)
                &&& now.stack == shorter.after(SearchEvent::Begin).stack
            }
        }),
{
    if search.stack.len() > 0 {
        crate::words::law_zero_word_spells_zero(search.stack.last());
    }
}

/// The owner of a node is asked for exactly where it matters: always, or only for an
/// order with the tick and quantity that are looked for.
pub proof fn law_owner_is_asked_for_where_it_matters(search: SearchView, event: SearchEvent)
    ensures
        search.reply(event) matches Ok(SearchAction::Visit(visit)) ==> {
            let order = crate::order::order_of(visit.node);
            &&& visit.node.value() != 0
            &&& search.wanted is None ==> visit.check_owner
            &&& search.wanted is Some ==> (visit.check_owner <==> order.tick
                == search.wanted->0.tick && order.quantity == search.wanted->0.quantity)
        },
{
    let told = search.told(event);
    lemma_without_zeros(told.stack);
    let rest = without_zeros(told.stack);
    if rest.len() > 0 {
        crate::words::law_zero_word_spells_zero(rest.last());
    }
}

/// What is left has a node on top.
proof fn lemma_without_zeros(stack: Seq<B256>)
    ensures
        without_zeros(stack).len() > 0 ==> !without_zeros(stack).last().is_zero(),
    decreases stack.len(),
{
    if stack.len() > 0 && stack.last().is_zero() {
        lemma_without_zeros(stack.drop_last());
    }
}

/// A search begins at the root, for the owner and the orders that were named, with
/// nothing found.
pub proof fn law_search_begins_at_the_root(root: B256, owner: Address, wanted: Option<Wanted>)
    ensures
        ({
            let search = SearchView::begun(root, owner, wanted);
            &&& search.owner == owner
            &&& search.wanted == wanted
            &&& search.stack.len() == 1 && search.stack[0] == root
            &&& search.found.len() == 0
        }),
{
}

/// A search is its four parts.
pub proof fn law_search_contents(search: TreeSearch)
    ensures
        search@.owner == search.owner,
        search@.wanted == search.wanted,
        search@.stack == search.stack@,
        search@.found == search.found@,
{
}

} // verus!
