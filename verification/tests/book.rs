use deepstate_mm::engine::book::{
    fetch_top_of_book, find_owned_orders, walk_top, SearchAction, SearchEvent, TopWalk, TreeSearch, WalkAction,
    WalkEvent, Wanted,
};
use deepstate_mm::error::EngineError;
use deepstate_mm::order::{pack, unpack, Order};
use deepstate_mm::words::{Address, B256};
use std::collections::HashMap;

const ME: Address = Address([1; 20]);
const OTHER: Address = Address([2; 20]);

fn node(tick: i32, nonce: u32) -> B256 {
    pack(tick, 100, nonce).unwrap()
}

#[derive(Default)]
struct Chain {
    children: HashMap<[u8; 32], (B256, B256)>,
    owners: HashMap<[u8; 32], Address>,
}

impl Chain {
    fn add(&mut self, word: B256, left: B256, right: B256, owner: Address) {
        self.children.insert(word.0, (left, right));
        self.owners.insert(word.0, owner);
    }

    fn top(&self, root: B256) -> Result<(Option<Order>, u32), EngineError> {
        let mut walk = TopWalk::new(root);
        let mut action = walk_top(&mut walk, WalkEvent::Begin)?;
        loop {
            match action {
                WalkAction::Top(order, nonce) => return Ok((order, nonce)),
                WalkAction::Read(word) => {
                    let (left, right) = self.children[&word.0];
                    action = walk_top(&mut walk, WalkEvent::Children(left, right))?;
                }
            }
        }
    }

    fn search(&self, root: B256, wanted: Option<Wanted>) -> Result<Vec<B256>, EngineError> {
        let mut search = TreeSearch::new(root, ME, wanted);
        let mut action = find_owned_orders(&mut search, SearchEvent::Begin)?;
        loop {
            match action {
                SearchAction::Finished => return Ok(search.found),
                SearchAction::Visit(visit) => {
                    let owner = if visit.check_owner { Some(self.owners[&visit.node.0]) } else { None };
                    let (left, right) = self.children[&visit.node.0];
                    action = find_owned_orders(&mut search, SearchEvent::Visited(visit.node, owner, left, right))?;
                }
            }
        }
    }
}

/// A root with a leaf to the left and, to the right, a node with a left leaf.
fn small_tree() -> (Chain, [B256; 4]) {
    let zero = B256::zero();
    let words = [node(10, 1), node(20, 2), node(30, 3), node(40, 4)];
    let mut chain = Chain::default();
    chain.add(words[0], words[1], words[2], ME);
    chain.add(words[1], zero, zero, OTHER);
    chain.add(words[2], words[3], zero, ME);
    chain.add(words[3], zero, zero, ME);
    (chain, words)
}

#[test]
fn empty_side_has_no_top() {
    let (order, nonce) = Chain::default().top(B256::zero()).unwrap();
    assert_eq!((order, nonce), (None, 0));
}

#[test]
fn top_lies_right_then_left() {
    let (chain, words) = small_tree();
    let (order, nonce) = chain.top(words[0]).unwrap();
    assert_eq!(order, Some(unpack(&words[3])));
    assert_eq!(nonce, 4);
}

#[test]
fn node_without_left_child_is_the_top() {
    let mut chain = Chain::default();
    chain.add(node(1, 1), B256::zero(), node(2, 2), ME);
    assert_eq!(chain.top(node(1, 1)).unwrap().0, Some(unpack(&node(1, 1))));
}

#[test]
fn descent_reads_at_most_256_levels() {
    for (levels, deep) in [(256, false), (257, true)] {
        let mut chain = Chain::default();
        for i in 1..=levels {
            let below = if i < levels { node(0, i + 1) } else { B256::zero() };
            chain.add(node(0, i), below, B256::zero(), ME);
        }
        let top = chain.top(node(0, 1));
        if deep {
            assert!(matches!(top, Err(EngineError::TreeTooDeep)));
        } else {
            assert_eq!(top.unwrap().1, 256);
        }
    }
}

#[test]
fn cyclic_answers_end_the_descent() {
    let mut chain = Chain::default();
    chain.add(node(0, 1), node(0, 1), node(0, 1), ME);
    assert!(matches!(chain.top(node(0, 1)), Err(EngineError::TreeTooDeep)));
}

#[test]
fn nonces_must_agree() {
    let top = Order { tick: 1, quantity: 2, nonce: 9 };
    let (bid, ask) = fetch_top_of_book((Some(top), 9), (None, 0), 9, 77).unwrap();
    assert_eq!((bid, ask), (Some(top), None));
    let wrong_bid = fetch_top_of_book((Some(top), 9), (Some(top), 9), 8, 8);
    assert!(matches!(wrong_bid, Err(EngineError::BidNonceMismatch)));
    let wrong_ask = fetch_top_of_book((Some(top), 9), (Some(top), 9), 9, 8);
    assert!(matches!(wrong_ask, Err(EngineError::AskNonceMismatch)));
    assert!(matches!(fetch_top_of_book((None, 3), (None, 0), 3, 0), Err(EngineError::BidNonceMismatch)));
}

#[test]
fn search_lists_owned_orders_right_first() {
    let (chain, words) = small_tree();
    assert_eq!(chain.search(words[0], None).unwrap(), vec![words[0], words[2], words[3]]);
    assert_eq!(chain.search(B256::zero(), None).unwrap(), vec![]);
}

#[test]
fn search_can_be_narrowed() {
    let (chain, words) = small_tree();
    let wanted = Some(Wanted { tick: 30, quantity: 100 });
    assert_eq!(chain.search(words[0], wanted).unwrap(), vec![words[2]]);
    let foreign = Some(Wanted { tick: 20, quantity: 100 });
    assert_eq!(chain.search(words[0], foreign).unwrap(), vec![]);
    let other_size = Some(Wanted { tick: 30, quantity: 101 });
    assert_eq!(chain.search(words[0], other_size).unwrap(), vec![]);
}

#[test]
fn unbounded_search_is_given_up() {
    let mut chain = Chain::default();
    chain.add(node(0, 1), node(0, 1), node(0, 1), OTHER);
    assert!(matches!(chain.search(node(0, 1), None), Err(EngineError::TraversalBound)));
}

/// A tree of `levels` nodes below each other, every one the `right` or the left
/// child of the one above.
fn chain_of(levels: u32, right: bool) -> Chain {
    let mut chain = Chain::default();
    for i in 1..=levels {
        let below = if i < levels { node(0, i + 1) } else { B256::zero() };
        let (left, right) = if right { (B256::zero(), below) } else { (below, B256::zero()) };
        chain.add(node(0, i), left, right, ME);
    }
    chain
}

#[test]
fn search_is_given_up_at_ten_thousand_pending_nodes() {
    assert_eq!(chain_of(9998, true).search(node(0, 1), None).unwrap().len(), 9998);
    let deeper = chain_of(9999, true).search(node(0, 1), None);
    assert!(matches!(deeper, Err(EngineError::TraversalBound)));
    assert_eq!(chain_of(20000, false).search(node(0, 1), None).unwrap().len(), 20000);
}
