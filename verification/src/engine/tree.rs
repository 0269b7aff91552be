//! The order trees as mathematical trees, and what the readers make of them.
use crate::engine::book::{
    SearchAction, SearchEvent, SearchView, TopWalk, Visit, WalkAction, WalkEvent, Wanted,
    MAX_LEVELS, MAX_PENDING,
};
use crate::engine::book;
use crate::error::EngineError;
use crate::order::Order;
use crate::words::{Address, B256};
use vstd::prelude::*;

verus! {

/// The larger of two numbers.
pub open spec fn larger(a: nat, b: nat) -> nat {
    if a >= b {
        a
    } else {
        b
    }
}

/// A finite binary tree of packed orders.
pub enum Tree {
    Leaf,
    Node(B256, Box<Tree>, Box<Tree>),
}

impl Tree {
    /// The number of nodes.
    pub open spec fn size(self) -> nat
        decreases self,
    {
        match self {
            Tree::Leaf => 0,
            Tree::Node(_, left, right) => 1 + left.size() + right.size(),
        }
    }

    /// The number of nodes on the longest way down.
    pub open spec fn height(self) -> nat
        decreases self,
    {
        match self {
            Tree::Leaf => 0,
            Tree::Node(_, left, right) => 1 + larger(left.height(), right.height()),
        }
    }

    /// The node that carries the best order: down the right side, or left where
    /// nothing is right, to the first node without a left child.
    pub open spec fn top(self) -> Option<B256>
        decreases self,
    {
        match self {
            Tree::Leaf => None,
            Tree::Node(word, left, right) => if *left is Leaf {
                Some(word)
            } else if *right is Leaf {
                left.top()
            } else {
                right.top()
            },
        }
    }

    /// The number of nodes on the way down to the one that carries the best
    /// order, that one included.
    pub open spec fn descent(self) -> nat
        decreases self,
    {
        match self {
            Tree::Leaf => 0,
            Tree::Node(_, left, right) => if *left is Leaf {
                1
            } else if *right is Leaf {
                1 + left.descent()
            } else {
                1 + right.descent()
            },
        }
    }

    /// The most nodes that are pending at once while the tree is searched, a
    /// missing child counting as a node. What is right is searched before what is
    /// left, which is pending meanwhile.
    pub open spec fn peak(self) -> nat
        decreases self,
    {
        match self {
            Tree::Leaf => 0,
            Tree::Node(_, left, right) => larger(2, larger(1 + right.peak(), left.peak())),
        }
    }

    /// The nodes that satisfy `keep`: a node before its children, what is right
    /// before what is left.
    pub open spec fn listing(self, keep: spec_fn(B256) -> bool) -> Seq<B256>
        decreases self,
    {
        match self {
            Tree::Leaf => Seq::empty(),
            Tree::Node(word, left, right) => book::found_with(Seq::empty(), keep(word), word)
                + right.listing(keep) + left.listing(keep),
        }
    }

    /// The word occurs in the tree.
    pub open spec fn has(self, word: B256) -> bool
        decreases self,
    {
        match self {
            Tree::Leaf => false,
            Tree::Node(w, left, right) => w == word || left.has(word) || right.has(word),
        }
    }

    /// The tree is what the chain's answers draw, starting from `root`.
    pub open spec fn drawn_from(
        self,
        root: B256,
        children: spec_fn(B256) -> (B256, B256),
    ) -> bool
        decreases self,
    {
        match self {
            Tree::Leaf => root.is_zero(),
            Tree::Node(word, left, right) => {
                &&& word == root
                &&& !root.is_zero()
                &&& left.drawn_from(children(root).0, children)
                &&& right.drawn_from(children(root).1, children)
            },
        }
    }
}

// ---------------------------------------------------------------------------
// The best order of a side
// ---------------------------------------------------------------------------

/// How a descent ends that was told `event` and gets every further answer from
/// `children`.
pub open spec fn walk_outcome(
    walk: TopWalk,
    event: WalkEvent,
    children: spec_fn(B256) -> (B256, B256),
    fuel: nat,
) -> Option<Result<(Option<Order>, u32), EngineError>>
    decreases fuel,
{
    match walk.reply(event) {
        Err(error) => Some(Err(error)),
        Ok(WalkAction::Top(order, nonce)) => Some(Ok((order, nonce))),
        Ok(WalkAction::Read(node)) => if fuel == 0 {
            None
        } else {
            walk_outcome(
                walk.after(event),
                WalkEvent::Children(children(node).0, children(node).1),
                children,
                (fuel - 1) as nat,
            )
        },
    }
}

/// The order that a node carries and its nonce; without a node, no order and the
/// nonce zero.
pub open spec fn top_report(node: Option<B256>) -> (Option<Order>, u32) {
    match node {
        Some(word) => (
            Some(crate::order::order_of(word)),
            crate::order::order_of(word).nonce,
        ),
        None => (None, 0),
    }
}

/// The descent ends at the node that carries the best order, having read the
/// children of each node on the way; where more than 256 nodes are on the way, it
/// fails.
pub proof fn law_walk_finds_the_top(
    root: B256,
    tree: Tree,
    children: spec_fn(B256) -> (B256, B256),
    fuel: nat,
)
    requires
        tree.drawn_from(root, children),
        fuel >= tree.descent(),
    ensures
        walk_outcome(TopWalk::begun(root), WalkEvent::Begin, children, fuel) == Some(
            if tree.descent() <= MAX_LEVELS {
                Ok::<(Option<Order>, u32), EngineError>(top_report(tree.top()))
            } else {
                Err(EngineError::TreeTooDeep)
            },
        ),
{
    match tree {
        Tree::Leaf => {},
        Tree::Node(word, left, right) => {
            lemma_walk_from(TopWalk::begun(root), tree, children, (fuel - 1) as nat);
        },
    }
}

proof fn lemma_walk_from(
    walk: TopWalk,
    tree: Tree,
    children: spec_fn(B256) -> (B256, B256),
    fuel: nat,
)
    requires
        tree is Node,
        tree.drawn_from(walk.node, children),
        walk.level < MAX_LEVELS,
        fuel + 1 >= tree.descent(),
    ensures
        walk_outcome(
            walk,
            WalkEvent::Children(children(walk.node).0, children(walk.node).1),
            children,
            fuel,
        ) == Some(
            if walk.level + tree.descent() <= MAX_LEVELS {
                Ok::<(Option<Order>, u32), EngineError>(top_report(tree.top()))
            } else {
                Err(EngineError::TreeTooDeep)
            },
        ),
    decreases tree,
{
    reveal_with_fuel(Tree::drawn_from, 2);
    let (l, r) = children(walk.node);
    let event = WalkEvent::Children(l, r);
    match tree {
        Tree::Leaf => {},
        Tree::Node(word, left, right) => {
            if *left is Leaf {
            } else {
                let below = if *right is Leaf {
                    *left
                } else {
                    *right
                };
                assert(!l.is_zero());
                assert(*right is Leaf <==> r.is_zero());
                assert(below.descent() >= 1);
                if walk.level + 1 < MAX_LEVELS {
                    lemma_walk_from(walk.after(event), below, children, (fuel - 1) as nat);
                }
            }
        },
    }
}

/// A tree of at most 256 levels is not too deep for the descent, and one of fewer
/// than 9999 levels is not too large for the search: no way down is longer than
/// the tree has levels, and at most one node is pending for each of them and one
/// more.
pub proof fn law_shallow_trees_are_within_bounds(tree: Tree)
    ensures
        tree.descent() <= tree.height(),
        tree.peak() <= tree.height() + 1,
        tree.height() <= MAX_LEVELS ==> tree.descent() <= MAX_LEVELS,
        tree.height() + 1 < MAX_PENDING ==> tree.peak() < MAX_PENDING,
    decreases tree,
{
    match tree {
        Tree::Leaf => {},
        Tree::Node(_, left, right) => {
            law_shallow_trees_are_within_bounds(*left);
            law_shallow_trees_are_within_bounds(*right);
        },
    }
}

/// The node at which a descent from `root` stands after `level` steps down: each
/// goes right, or left where nothing is right.
pub open spec fn descent_node(
    root: B256,
    children: spec_fn(B256) -> (B256, B256),
    level: nat,
) -> B256
    decreases level,
{
    if level == 0 {
        root
    } else {
        let (left, right) = children(descent_node(root, children, (level - 1) as nat));
        if right.is_zero() {
            left
        } else {
            right
        }
    }
}

/// The first node on the way down that has no left child ends the descent, where
/// it lies on one of the first 256 levels. Its children are the last that are
/// read.
pub proof fn law_walk_stops_without_a_left_child(
    root: B256,
    children: spec_fn(B256) -> (B256, B256),
    level: nat,
    fuel: nat,
)
    requires
        !root.is_zero(),
        level < MAX_LEVELS,
        children(descent_node(root, children, level)).0.is_zero(),
        forall|k: nat|
            k < level ==> !children(#[trigger] descent_node(root, children, k)).0.is_zero(),
    ensures
        walk_outcome(TopWalk::begun(root), WalkEvent::Begin, children, fuel) == (if fuel > level {
            Some(
                Ok::<(Option<Order>, u32), EngineError>(
                    top_report(Some(descent_node(root, children, level))),
                ),
            )
        } else {
            None
        }),
{
    if fuel > 0 {
        lemma_walk_along(TopWalk::begun(root), root, children, level, (fuel - 1) as nat);
    }
}

/// Where every node on the first 256 levels has a left child, the descent fails
/// after exactly 256 answers.
pub proof fn law_walk_fails_after_256_answers(
    root: B256,
    children: spec_fn(B256) -> (B256, B256),
    fuel: nat,
)
    requires
        !root.is_zero(),
        forall|k: nat|
            k < MAX_LEVELS ==> !children(#[trigger] descent_node(root, children, k)).0.is_zero(),
    ensures
        walk_outcome(TopWalk::begun(root), WalkEvent::Begin, children, fuel) == (if fuel
            >= MAX_LEVELS {
            Some(Err::<(Option<Order>, u32), EngineError>(EngineError::TreeTooDeep))
        } else {
            None
        }),
{
    if fuel > 0 {
        lemma_walk_along(TopWalk::begun(root), root, children, MAX_LEVELS as nat, (fuel - 1) as nat);
    }
}

/// A descent that stands above `stop`, the first level on which a node has no left
/// child, or the first one that is too deep.
proof fn lemma_walk_along(
    walk: TopWalk,
    root: B256,
    children: spec_fn(B256) -> (B256, B256),
    stop: nat,
    fuel: nat,
)
    requires
        walk.node == descent_node(root, children, walk.level as nat),
        walk.level <= stop <= MAX_LEVELS,
        walk.level < MAX_LEVELS,
        stop < MAX_LEVELS ==> children(descent_node(root, children, stop)).0.is_zero(),
        forall|k: nat|
            k < stop ==> !children(#[trigger] descent_node(root, children, k)).0.is_zero(),
    ensures
        walk_outcome(
            walk,
            WalkEvent::Children(children(walk.node).0, children(walk.node).1),
            children,
            fuel,
        ) == (if stop == MAX_LEVELS {
            if walk.level + fuel + 1 >= MAX_LEVELS {
                Some(Err::<(Option<Order>, u32), EngineError>(EngineError::TreeTooDeep))
            } else {
                None
            }
        } else if walk.level + fuel >= stop {
            Some(
                Ok::<(Option<Order>, u32), EngineError>(
                    top_report(Some(descent_node(root, children, stop))),
                ),
            )
        } else {
            None
        }),
    decreases fuel,
{
    let event = WalkEvent::Children(children(walk.node).0, children(walk.node).1);
    let level = walk.level as nat;
    if level < stop {
        assert(!children(descent_node(root, children, level)).0.is_zero());
        assert(descent_node(root, children, level + 1) == walk.after(event).node);
        if level + 1 < MAX_LEVELS && fuel > 0 {
            lemma_walk_along(walk.after(event), root, children, stop, (fuel - 1) as nat);
        }
    }
}

/// However the chain answers, a descent ends after at most 256 answers.
pub proof fn law_walk_ends(root: B256, children: spec_fn(B256) -> (B256, B256))
    ensures
        walk_outcome(TopWalk::begun(root), WalkEvent::Begin, children, MAX_LEVELS as nat) is Some,
{
    if !root.is_zero() {
        lemma_walk_ends(TopWalk::begun(root), children, (MAX_LEVELS - 1) as nat);
    }
}

proof fn lemma_walk_ends(walk: TopWalk, children: spec_fn(B256) -> (B256, B256), fuel: nat)
    requires
        walk.level + fuel + 1 >= MAX_LEVELS,
    ensures
        walk_outcome(
            walk,
            WalkEvent::Children(children(walk.node).0, children(walk.node).1),
            children,
            fuel,
        ) is Some,
    decreases fuel,
{
    let event = WalkEvent::Children(children(walk.node).0, children(walk.node).1);
    if walk.reply(event) matches Ok(WalkAction::Read(node)) {
        lemma_walk_ends(walk.after(event), children, (fuel - 1) as nat);
    }
}

// ---------------------------------------------------------------------------
// The orders of one owner
// ---------------------------------------------------------------------------

/// How a search ends that was told `event` and gets every further answer from
/// `children` and `owners`: with the orders found, with an error, or not yet
/// (`None`) where it visits more than `fuel` nodes.
pub open spec fn search_outcome(
    search: SearchView,
    event: SearchEvent,
    children: spec_fn(B256) -> (B256, B256),
    owners: spec_fn(B256) -> Address,
    fuel: nat,
) -> Option<Result<Seq<B256>, EngineError>>
    decreases fuel,
{
    match search.reply(event) {
        Err(error) => Some(Err(error)),
        Ok(SearchAction::Finished) => Some(Ok(search.after(event).found)),
        Ok(SearchAction::Visit(visit)) => if fuel == 0 {
            None
        } else {
            search_outcome(
                search.after(event),
                answer(visit, children, owners),
                children,
                owners,
                (fuel - 1) as nat,
            )
        },
    }
}

/// The answer to a visit: the owner where it was asked for, and the children.
pub open spec fn answer(
    visit: Visit,
    children: spec_fn(B256) -> (B256, B256),
    owners: spec_fn(B256) -> Address,
) -> SearchEvent {
    SearchEvent::Visited(
        visit.node,
        if visit.check_owner {
            Some(owners(visit.node))
        } else {
            None
        },
        children(visit.node).0,
        children(visit.node).1,
    )
}

/// The search finds exactly the wanted orders of its owner, each as often as the
/// tree holds it, and visits each node once; where too many nodes would be pending
/// at once, it fails. So no search passes over an order in silence.
pub proof fn law_search_lists_the_owned_orders(
    owner: Address,
    wanted: Option<Wanted>,
    root: B256,
    tree: Tree,
    children: spec_fn(B256) -> (B256, B256),
    owners: spec_fn(B256) -> Address,
    fuel: nat,
)
    requires
        tree.drawn_from(root, children),
        fuel >= tree.size(),
    ensures
        search_outcome(
            SearchView::begun(root, owner, wanted),
            SearchEvent::Begin,
            children,
            owners,
            fuel,
        ) == Some(
            if tree.peak() < MAX_PENDING {
                Ok::<Seq<B256>, EngineError>(
                    tree.listing(|w: B256| book::is_wanted(wanted, w) && owners(w) == owner),
                )
            } else {
                Err(EngineError::TraversalBound)
            },
        ),
{
    let keep = |w: B256| book::is_wanted(wanted, w) && owners(w) == owner;
    let forest = seq![tree];
    assert(forest.drop_last() =~= Seq::<Tree>::empty());
    assert(forest_size(Seq::<Tree>::empty()) == 0);
    assert(forest_size(forest) == tree.size());
    assert(forest_peak(Seq::<Tree>::empty()) == 0);
    assert(forest_peak(forest) == tree.peak());
    assert(forest_listing(Seq::<Tree>::empty(), keep) == Seq::<B256>::empty());
    assert(forest_listing(forest, keep) =~= tree.listing(keep));
    lemma_search_forest(
        SearchView::begun(root, owner, wanted),
        SearchEvent::Begin,
        forest,
        children,
        owners,
        keep,
        fuel,
    );
    assert(Seq::<B256>::empty() + tree.listing(keep) =~= tree.listing(keep));
}

/// The nodes of several trees.
spec fn forest_size(forest: Seq<Tree>) -> nat
    decreases forest.len(),
{
    if forest.len() == 0 {
        0
    } else {
        forest.last().size() + forest_size(forest.drop_last())
    }
}

/// The most nodes that are pending at once while several trees are searched, the
/// last tree first.
spec fn forest_peak(forest: Seq<Tree>) -> nat
    decreases forest.len(),
{
    if forest.len() == 0 {
        0
    } else if forest.last() is Leaf {
        forest_peak(forest.drop_last())
    } else {
        larger(
            (forest.len() - 1 + forest.last().peak()) as nat,
            forest_peak(forest.drop_last()),
        )
    }
}

/// The listings of several trees, the last tree first.
spec fn forest_listing(forest: Seq<Tree>, keep: spec_fn(B256) -> bool) -> Seq<B256>
    decreases forest.len(),
{
    if forest.len() == 0 {
        Seq::empty()
    } else {
        forest.last().listing(keep) + forest_listing(forest.drop_last(), keep)
    }
}

/// The trees below the pending nodes, without the empty ones on top.
proof fn lemma_forest_without_zeros(
    pending: Seq<B256>,
    forest: Seq<Tree>,
    children: spec_fn(B256) -> (B256, B256),
    keep: spec_fn(B256) -> bool,
) -> (rest: Seq<Tree>)
    requires
        forest.len() == pending.len(),
        forall|i: int|
            0 <= i < forest.len() ==> (#[trigger] forest[i]).drawn_from(pending[i], children),
    ensures
        rest.len() == book::without_zeros(pending).len(),
        rest.len() <= forest.len(),
        forall|i: int|
            0 <= i < rest.len() ==> (#[trigger] rest[i]).drawn_from(
                book::without_zeros(pending)[i],
                children,
            ),
        forest_size(rest) == forest_size(forest),
        forest_peak(rest) == forest_peak(forest),
        forest_listing(rest, keep) == forest_listing(forest, keep),
        rest.len() > 0 ==> !book::without_zeros(pending).last().is_zero(),
    decreases pending.len(),
{
    if pending.len() > 0 && pending.last().is_zero() {
        let others = forest.drop_last();
        assert(forest[forest.len() - 1].drawn_from(pending[forest.len() - 1], children));
        assert(forest.last() is Leaf);
        assert forall|i: int| 0 <= i < others.len() implies (#[trigger] others[i]).drawn_from(
            pending.drop_last()[i],
            children,
        ) by {
            assert(forest[i].drawn_from(pending[i], children));
        }
        assert(forest_listing(forest, keep) =~= forest_listing(others, keep));
        lemma_forest_without_zeros(pending.drop_last(), others, children, keep)
    } else {
        forest
    }
}

/// One more tree to search.
proof fn lemma_forest_peak_push(forest: Seq<Tree>, tree: Tree)
    ensures
        forest_peak(forest.push(tree)) == (if tree is Leaf {
            forest_peak(forest)
        } else {
            larger((forest.len() + tree.peak()) as nat, forest_peak(forest))
        }),
{
    assert(forest.push(tree).drop_last() =~= forest);
}

proof fn lemma_search_forest(
    search: SearchView,
    event: SearchEvent,
    forest: Seq<Tree>,
    children: spec_fn(B256) -> (B256, B256),
    owners: spec_fn(B256) -> Address,
    keep: spec_fn(B256) -> bool,
    fuel: nat,
)
    requires
        keep == (|w: B256| book::is_wanted(search.wanted, w) && owners(w) == search.owner),
        forest.len() == search.told(event).stack.len(),
        forall|i: int|
            0 <= i < forest.len() ==> (#[trigger] forest[i]).drawn_from(
                search.told(event).stack[i],
                children,
            ),
        fuel >= forest_size(forest),
    ensures
        search_outcome(search, event, children, owners, fuel) == Some(
            if !search.overruns(event) && forest_peak(forest) < MAX_PENDING {
                Ok::<Seq<B256>, EngineError>(
                    search.told(event).found + forest_listing(forest, keep),
                )
            } else {
                Err(EngineError::TraversalBound)
            },
        ),
    decreases fuel,
{
    let told = search.told(event);
    let found = told.found;
    let rest = lemma_forest_without_zeros(told.stack, forest, children, keep);
    let pending = book::without_zeros(told.stack);
    if search.overruns(event) {
    } else if rest.len() == 0 {
        assert(found + forest_listing(rest, keep) =~= found);
    } else {
        let others = rest.drop_last();
        let node = pending.last();
        assert(rest[rest.len() - 1].drawn_from(pending[rest.len() - 1], children));
        match rest.last() {
            Tree::Leaf => {},
            Tree::Node(word, left, right) => {
                let now = search.after(event);
                let visit = told.upcoming()->0;
                let next_event = answer(visit, children, owners);
                let (l, r) = children(node);
                let grown = others.push(*left).push(*right);
                assert(now.stack =~= pending.drop_last());
                assert(now.told(next_event).stack =~= pending.drop_last().push(l).push(r));
                assert(grown.drop_last() =~= others.push(*left));
                assert(others.push(*left).drop_last() =~= others);
                assert(forest_size(others.push(*left)) == left.size() + forest_size(others));
                assert(forest_size(grown) == right.size() + left.size() + forest_size(others));
                assert(larger(grown.len(), forest_peak(grown)) == forest_peak(rest)) by {
                    assert(forest_peak(rest) == larger(
                        (others.len() + rest.last().peak()) as nat,
                        forest_peak(others),
                    ));
                    lemma_forest_peak_push(others, *left);
                    lemma_forest_peak_push(others.push(*left), *right);
                }
                assert forall|i: int| 0 <= i < grown.len() implies (#[trigger] grown[i]).drawn_from(
                    now.told(next_event).stack[i],
                    children,
                ) by {
                    if i < others.len() {
                        assert(rest[i].drawn_from(pending[i], children));
                    }
                }
                lemma_search_forest(
                    now,
                    next_event,
                    grown,
                    children,
                    owners,
                    keep,
                    (fuel - 1) as nat,
                );
                assert(now.told(next_event).found == book::found_with(found, keep(node), node));
                assert(forest_listing(others.push(*left), keep) =~= left.listing(keep)
                    + forest_listing(others, keep));
                assert(forest_listing(grown, keep) =~= right.listing(keep) + left.listing(keep)
                    + forest_listing(others, keep));
                assert(book::found_with(found, keep(node), node) + forest_listing(grown, keep)
                    =~= found + forest_listing(rest, keep));
            },
        }
    }
}

/// Every order that a search lists is a node of the tree, is wanted, and belongs
/// to the owner.
pub proof fn law_listed_orders_are_kept_nodes(tree: Tree, keep: spec_fn(B256) -> bool, i: int)
    requires
        0 <= i < tree.listing(keep).len(),
    ensures
        keep(tree.listing(keep)[i]),
        tree.has(tree.listing(keep)[i]),
    decreases tree,
{
    match tree {
        Tree::Leaf => {},
        Tree::Node(word, left, right) => {
            let head = book::found_with(Seq::empty(), keep(word), word);
            let r = right.listing(keep);
            if i < head.len() {
            } else if i < head.len() + r.len() {
                law_listed_orders_are_kept_nodes(*right, keep, i - head.len());
            } else {
                law_listed_orders_are_kept_nodes(*left, keep, i - head.len() - r.len());
            }
        },
    }
}

/// Every node of the tree that is wanted and belongs to the owner is listed.
pub proof fn law_kept_nodes_are_listed(tree: Tree, keep: spec_fn(B256) -> bool, word: B256)
    requires
        tree.has(word),
        keep(word),
    ensures
        tree.listing(keep).contains(word),
    decreases tree,
{
    match tree {
        Tree::Leaf => {},
        Tree::Node(w, left, right) => {
            let head = book::found_with(Seq::empty(), keep(w), w);
            let (l, r) = (left.listing(keep), right.listing(keep));
            if w == word {
                assert(tree.listing(keep)[0] == word);
            } else if right.has(word) {
                law_kept_nodes_are_listed(*right, keep, word);
                let i = choose|i: int| 0 <= i < r.len() && r[i] == word;
                assert(tree.listing(keep)[head.len() + i] == word);
            } else {
                law_kept_nodes_are_listed(*left, keep, word);
                let i = choose|i: int| 0 <= i < l.len() && l[i] == word;
                assert(tree.listing(keep)[head.len() + r.len() + i] == word);
            }
        },
    }
}

impl Tree {
    /// How many nodes satisfy `keep`.
    pub open spec fn count(self, keep: spec_fn(B256) -> bool) -> nat
        decreases self,
    {
        match self {
            Tree::Leaf => 0,
            Tree::Node(word, left, right) => left.count(keep) + right.count(keep) + (if keep(word) {
                1nat
            } else {
                0nat
            }),
        }
    }
}

/// A listing holds as many words as the tree has nodes to list.
pub proof fn law_listing_is_as_long_as_the_count(tree: Tree, keep: spec_fn(B256) -> bool)
    ensures
        tree.listing(keep).len() == tree.count(keep),
    decreases tree,
{
    match tree {
        Tree::Leaf => {},
        Tree::Node(_, left, right) => {
            law_listing_is_as_long_as_the_count(*left, keep);
            law_listing_is_as_long_as_the_count(*right, keep);
        },
    }
}

/// A search of a tree ends with every node that belongs to the owner and, where a
/// tick and a quantity are looked for, has both, and with no other word; with as
/// many words as there are such nodes.
pub proof fn law_search_finds_what_is_owned(
    owner: Address,
    wanted: Option<Wanted>,
    root: B256,
    tree: Tree,
    children: spec_fn(B256) -> (B256, B256),
    owners: spec_fn(B256) -> Address,
    fuel: nat,
)
    requires
        tree.drawn_from(root, children),
        tree.peak() < 10000,
        fuel >= tree.size(),
    ensures
        ({
            let end = search_outcome(
                SearchView::begun(root, owner, wanted),
                SearchEvent::Begin,
                children,
                owners,
                fuel,
            );
            let mine = |w: B256|
                owners(w) == owner && (wanted is None || (crate::order::order_of(w).tick
                    == wanted->0.tick && crate::order::order_of(w).quantity
                    == wanted->0.quantity));
            &&& end is Some && end->0 is Ok
            &&& end->0->Ok_0.len() == tree.count(mine)
            &&& forall|w: B256| #[trigger] end->0->Ok_0.contains(w) <==> tree.has(w) && mine(w)
        }),
{
    law_search_lists_the_owned_orders(owner, wanted, root, tree, children, owners, fuel);
    let keep = |w: B256| book::is_wanted(wanted, w) && owners(w) == owner;
    let mine = |w: B256|
        owners(w) == owner && (wanted is None || (crate::order::order_of(w).tick
            == wanted->0.tick && crate::order::order_of(w).quantity == wanted->0.quantity));
    assert(keep =~= mine);
    let found = tree.listing(keep);
    law_listing_is_as_long_as_the_count(tree, keep);
    assert forall|w: B256| #[trigger] found.contains(w) <==> tree.has(w) && mine(w) by {
        if found.contains(w) {
            let i = choose|i: int| 0 <= i < found.len() && found[i] == w;
            law_listed_orders_are_kept_nodes(tree, keep, i);
        }
        if tree.has(w) && keep(w) {
            law_kept_nodes_are_listed(tree, keep, w);
        }
    }
}

} // verus!
