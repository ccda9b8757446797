//! The focus tree: windows, nodes and leaves in arena storage, with cyclic
//! keyboard navigation at every level and a graft operation that merges the
//! focus points built during one frame into the long-lived session tree.
use crate::act::EguiAct;
use vstd::prelude::*;

verus! {

/// One step of a cyclic cursor over a list of the given length: advance,
/// wrapping from the last position to the first.
pub open spec fn spec_step(i: int, len: int) -> int {
    if i + 1 >= len {
        0
    } else {
        i + 1
    }
}

/// One backward step of a cyclic cursor: retreat, wrapping from the first
/// position to the last.
pub open spec fn spec_step_back(i: int, len: int) -> int {
    if i == 0 {
        len - 1
    } else {
        i - 1
    }
}

/// `k` forward steps of a cyclic cursor.
pub open spec fn iter_step(i: int, len: int, k: nat) -> int
    decreases k,
{
    if k == 0 {
        i
    } else {
        spec_step(iter_step(i, len, (k - 1) as nat), len)
    }
}

/// `k` backward steps of a cyclic cursor.
pub open spec fn iter_step_back(i: int, len: int, k: nat) -> int
    decreases k,
{
    if k == 0 {
        i
    } else {
        spec_step_back(iter_step_back(i, len, (k - 1) as nat), len)
    }
}

/// Where a cyclic cursor stands after `k <= len` forward steps.
proof fn lemma_iter_step(i: int, len: int, k: nat)
    requires
        0 <= i < len,
        k <= len,
    ensures
        iter_step(i, len, k) == if i + k < len {
            i + k
        } else {
            i + k - len
        },
    decreases k,
{
    if k > 0 {
        lemma_iter_step(i, len, (k - 1) as nat);
    }
}

/// Where a cyclic cursor stands after `k <= len` backward steps.
proof fn lemma_iter_step_back(i: int, len: int, k: nat)
    requires
        0 <= i < len,
        k <= len,
    ensures
        iter_step_back(i, len, k) == if i - k >= 0 {
            i - k
        } else {
            i - k + len
        },
    decreases k,
{
    if k > 0 {
        lemma_iter_step_back(i, len, (k - 1) as nat);
    }
}

/// A focus point with a visual element behind it: the widget handle the
/// interface gave it, its own identifier in the tree, and its parent node.
#[derive(Debug, Clone, PartialEq, Eq, Hash)]
pub struct Leaf {
    /// The widget handle of the visual element, opaque to the tree.
    pub id: u64,
    /// The identifier that the tree tracks the leaf by.
    pub leaf_id: u64,
    /// The identifier of the parent node, once the leaf is attached.
    pub parent: Option<u64>,
}

/// A navigable grouping of leaves and child nodes, possibly bound to a
/// window.
#[derive(Debug, Clone, PartialEq, Eq)]
pub struct Node {
    /// The identifier of this node.
    pub id: u64,
    /// The identifier of the parent node, if any.
    pub parent: Option<u64>,
    /// The identifiers of the child nodes, in creation order.
    pub nodes: Vec<u64>,
    /// The identifiers of the child leaves, in attachment order.
    pub leaves: Vec<u64>,
    /// The window this node belongs to, if any.
    pub window: Option<u64>,
    /// The cursor into `nodes`: which child node is current.
    pub node_index: usize,
    /// The cursor into `leaves`: which child leaf is current.
    pub leaf_index: usize,
}

impl Node {
    /// Both cursors stand inside their lists, or at zero when the list is
    /// empty.
    pub open spec fn wf(self) -> bool {
        &&& (self.leaves@.len() == 0 ==> self.leaf_index == 0)
        &&& (self.leaves@.len() > 0 ==> (self.leaf_index as int) < self.leaves@.len())
        &&& (self.nodes@.len() == 0 ==> self.node_index == 0)
        &&& (self.nodes@.len() > 0 ==> (self.node_index as int) < self.nodes@.len())
    }

    /// The node after one forward step of the leaf cursor.
    pub open spec fn spec_next_leaf(self) -> Node {
        Node { leaf_index: spec_step(self.leaf_index as int, self.leaves@.len() as int) as usize, ..self }
    }

    /// The node after one backward step of the leaf cursor.
    pub open spec fn spec_previous_leaf(self) -> Node {
        Node {
            leaf_index: spec_step_back(self.leaf_index as int, self.leaves@.len() as int) as usize,
            ..self
        }
    }

    /// The node after one forward step of the node cursor.
    pub open spec fn spec_next_node(self) -> Node {
        Node { node_index: spec_step(self.node_index as int, self.nodes@.len() as int) as usize, ..self }
    }

    /// The node after one backward step of the node cursor.
    pub open spec fn spec_previous_node(self) -> Node {
        Node {
            node_index: spec_step_back(self.node_index as int, self.nodes@.len() as int) as usize,
            ..self
        }
    }

    /// Creates an empty node under the given identifier.
    pub fn new(id: u64) -> (r: Node)
        ensures
            r.id == id,
            r.parent is None,
            r.nodes@.len() == 0,
            r.leaves@.len() == 0,
            r.window is None,
            r.node_index == 0,
            r.leaf_index == 0,
            r.wf(),
    {
        Node {
            id,
            parent: None,
            nodes: Vec::new(),
            leaves: Vec::new(),
            window: None,
            node_index: 0,
            leaf_index: 0,
        }
    }

    /// Adds `node` as a child of `self`, claiming it as parent.
    pub fn with_branch(&mut self, node: &mut Node)
        ensures
            *final(node) == (Node { parent: Some(old(self).id), ..*old(node) }),
            final(self).nodes@ == old(self).nodes@.push(old(node).id),
            final(self).id == old(self).id,
            final(self).parent == old(self).parent,
            final(self).leaves == old(self).leaves,
            final(self).window == old(self).window,
            final(self).node_index == old(self).node_index,
            final(self).leaf_index == old(self).leaf_index,
    {
        node.parent = Some(self.id);
        self.nodes.push(node.id);
    }

    /// Binds this node to a window.
    pub fn with_window(&mut self, window: u64)
        ensures
            *final(self) == (Node { window: Some(window), ..*old(self) }),
    {
        self.window = Some(window);
    }

    /// The identifier of the current child leaf.
    pub fn current_leaf(&self) -> (r: u64)
        requires
            self.leaves@.len() > 0,
            (self.leaf_index as int) < self.leaves@.len(),
        ensures
            r == self.leaves@[self.leaf_index as int],
    {
        self.leaves[self.leaf_index]
    }

    /// Advances the leaf cursor with wraparound and returns the identifier
    /// of the leaf it lands on.
    pub fn next_leaf(&mut self) -> (r: u64)
        requires
            old(self).leaves@.len() > 0,
            (old(self).leaf_index as int) < old(self).leaves@.len(),
        ensures
            *final(self) == old(self).spec_next_leaf(),
            r == final(self).leaves@[final(self).leaf_index as int],
    {
        if self.leaf_index >= self.leaves.len() - 1 {
            self.leaf_index = 0;
        } else {
            self.leaf_index = self.leaf_index + 1;
        }
        self.leaves[self.leaf_index]
    }

    /// Retreats the leaf cursor with wraparound and returns the identifier
    /// of the leaf it lands on.
    pub fn previous_leaf(&mut self) -> (r: u64)
        requires
            old(self).leaves@.len() > 0,
            (old(self).leaf_index as int) < old(self).leaves@.len(),
        ensures
            *final(self) == old(self).spec_previous_leaf(),
            r == final(self).leaves@[final(self).leaf_index as int],
    {
        if self.leaf_index == 0 {
            self.leaf_index = self.leaves.len() - 1;
        } else {
            self.leaf_index = self.leaf_index - 1;
        }
        self.leaves[self.leaf_index]
    }

    /// The identifier of the current child node.
    pub fn current_node(&self) -> (r: u64)
        requires
            self.nodes@.len() > 0,
            (self.node_index as int) < self.nodes@.len(),
        ensures
            r == self.nodes@[self.node_index as int],
    {
        self.nodes[self.node_index]
    }

    /// Advances the node cursor with wraparound and returns the identifier
    /// of the node it lands on.
    pub fn next_node(&mut self) -> (r: u64)
        requires
            old(self).nodes@.len() > 0,
            (old(self).node_index as int) < old(self).nodes@.len(),
        ensures
            *final(self) == old(self).spec_next_node(),
            r == final(self).nodes@[final(self).node_index as int],
    {
        if self.node_index >= self.nodes.len() - 1 {
            self.node_index = 0;
        } else {
            self.node_index = self.node_index + 1;
        }
        self.nodes[self.node_index]
    }

    /// Retreats the node cursor with wraparound and returns the identifier
    /// of the node it lands on.
    pub fn previous_node(&mut self) -> (r: u64)
        requires
            old(self).nodes@.len() > 0,
            (old(self).node_index as int) < old(self).nodes@.len(),
        ensures
            *final(self) == old(self).spec_previous_node(),
            r == final(self).nodes@[final(self).node_index as int],
    {
        if self.node_index == 0 {
            self.node_index = self.nodes.len() - 1;
        } else {
            self.node_index = self.node_index - 1;
        }
        self.nodes[self.node_index]
    }
}

/// `k` forward steps of the leaf cursor of a node.
pub open spec fn iter_next_leaf(n: Node, k: nat) -> Node
    decreases k,
{
    if k == 0 {
        n
    } else {
        iter_next_leaf(n, (k - 1) as nat).spec_next_leaf()
    }
}

/// `k` backward steps of the leaf cursor of a node.
pub open spec fn iter_previous_leaf(n: Node, k: nat) -> Node
    decreases k,
{
    if k == 0 {
        n
    } else {
        iter_previous_leaf(n, (k - 1) as nat).spec_previous_leaf()
    }
}

proof fn lemma_iter_next_leaf_shape(n: Node, k: nat)
    requires
        n.wf(),
        n.leaves@.len() > 0,
        n.leaves@.len() <= usize::MAX,
    ensures
        iter_next_leaf(n, k) == (Node {
            leaf_index: iter_step(n.leaf_index as int, n.leaves@.len() as int, k) as usize,
            ..n
        }),
        k <= n.leaves@.len() ==> 0 <= iter_step(n.leaf_index as int, n.leaves@.len() as int, k)
            < n.leaves@.len(),
    decreases k,
{
    if k > 0 {
        lemma_iter_next_leaf_shape(n, (k - 1) as nat);
        if (k - 1) as nat <= n.leaves@.len() {
            lemma_iter_step(n.leaf_index as int, n.leaves@.len() as int, (k - 1) as nat);
        }
        lemma_iter_bounds(n.leaf_index as int, n.leaves@.len() as int, (k - 1) as nat);
    }
    lemma_iter_bounds(n.leaf_index as int, n.leaves@.len() as int, k);
    if k <= n.leaves@.len() {
        lemma_iter_step(n.leaf_index as int, n.leaves@.len() as int, k);
    }
}

proof fn lemma_iter_bounds(i: int, len: int, k: nat)
    requires
        0 <= i < len,
    ensures
        0 <= iter_step(i, len, k) < len,
        0 <= iter_step_back(i, len, k) < len,
    decreases k,
{
    if k > 0 {
        lemma_iter_bounds(i, len, (k - 1) as nat);
    }
}

/// Cyclic closure of forward leaf navigation: on a node with `n >= 1`
/// leaves, `n` calls of `next_leaf` return the cursor to its starting
/// value and leave the node as it was.
pub proof fn lemma_next_leaf_cycles(n: Node)
    requires
        n.wf(),
        n.leaves@.len() > 0,
        n.leaves@.len() <= usize::MAX,
    ensures
        iter_next_leaf(n, n.leaves@.len() as nat) == n,
{
    let len = n.leaves@.len() as int;
    lemma_iter_next_leaf_shape(n, len as nat);
    lemma_iter_step(n.leaf_index as int, len, len as nat);
}

proof fn lemma_iter_previous_leaf_shape(n: Node, k: nat)
    requires
        n.wf(),
        n.leaves@.len() > 0,
        n.leaves@.len() <= usize::MAX,
    ensures
        iter_previous_leaf(n, k) == (Node {
            leaf_index: iter_step_back(n.leaf_index as int, n.leaves@.len() as int, k) as usize,
            ..n
        }),
    decreases k,
{
    if k > 0 {
        lemma_iter_previous_leaf_shape(n, (k - 1) as nat);
        lemma_iter_bounds(n.leaf_index as int, n.leaves@.len() as int, (k - 1) as nat);
    }
    lemma_iter_bounds(n.leaf_index as int, n.leaves@.len() as int, k);
}

/// Cyclic closure of backward leaf navigation: on a node with `n >= 1`
/// leaves, `n` calls of `previous_leaf` return the cursor to its starting
/// value and leave the node as it was.
pub proof fn lemma_previous_leaf_cycles(n: Node)
    requires
        n.wf(),
        n.leaves@.len() > 0,
        n.leaves@.len() <= usize::MAX,
    ensures
        iter_previous_leaf(n, n.leaves@.len() as nat) == n,
{
    let len = n.leaves@.len() as int;
    lemma_iter_previous_leaf_shape(n, len as nat);
    lemma_iter_step_back(n.leaf_index as int, len, len as nat);
}

/// `k` forward steps of the node cursor of a node.
pub open spec fn iter_next_node(n: Node, k: nat) -> Node
    decreases k,
{
    if k == 0 {
        n
    } else {
        iter_next_node(n, (k - 1) as nat).spec_next_node()
    }
}

/// `k` backward steps of the node cursor of a node.
pub open spec fn iter_previous_node(n: Node, k: nat) -> Node
    decreases k,
{
    if k == 0 {
        n
    } else {
        iter_previous_node(n, (k - 1) as nat).spec_previous_node()
    }
}

proof fn lemma_iter_next_node_shape(n: Node, k: nat)
    requires
        n.wf(),
        n.nodes@.len() > 0,
        n.nodes@.len() <= usize::MAX,
    ensures
        iter_next_node(n, k) == (Node {
            node_index: iter_step(n.node_index as int, n.nodes@.len() as int, k) as usize,
            ..n
        }),
    decreases k,
{
    if k > 0 {
        lemma_iter_next_node_shape(n, (k - 1) as nat);
        lemma_iter_bounds(n.node_index as int, n.nodes@.len() as int, (k - 1) as nat);
    }
    lemma_iter_bounds(n.node_index as int, n.nodes@.len() as int, k);
}

proof fn lemma_iter_previous_node_shape(n: Node, k: nat)
    requires
        n.wf(),
        n.nodes@.len() > 0,
        n.nodes@.len() <= usize::MAX,
    ensures
        iter_previous_node(n, k) == (Node {
            node_index: iter_step_back(n.node_index as int, n.nodes@.len() as int, k) as usize,
            ..n
        }),
    decreases k,
{
    if k > 0 {
        lemma_iter_previous_node_shape(n, (k - 1) as nat);
        lemma_iter_bounds(n.node_index as int, n.nodes@.len() as int, (k - 1) as nat);
    }
    lemma_iter_bounds(n.node_index as int, n.nodes@.len() as int, k);
}

/// Cyclic closure of forward child-node navigation: on a node with
/// `n >= 1` child nodes, `n` calls of `next_node` return the cursor to its
/// starting value and leave the node as it was.
pub proof fn lemma_next_node_cycles(n: Node)
    requires
        n.wf(),
        n.nodes@.len() > 0,
        n.nodes@.len() <= usize::MAX,
    ensures
        iter_next_node(n, n.nodes@.len() as nat) == n,
{
    let len = n.nodes@.len() as int;
    lemma_iter_next_node_shape(n, len as nat);
    lemma_iter_step(n.node_index as int, len, len as nat);
}

/// Cyclic closure of backward child-node navigation: on a node with
/// `n >= 1` child nodes, `n` calls of `previous_node` return the cursor to
/// its starting value and leave the node as it was.
pub proof fn lemma_previous_node_cycles(n: Node)
    requires
        n.wf(),
        n.nodes@.len() > 0,
        n.nodes@.len() <= usize::MAX,
    ensures
        iter_previous_node(n, n.nodes@.len() as nat) == n,
{
    let len = n.nodes@.len() as int;
    lemma_iter_previous_node_shape(n, len as nat);
    lemma_iter_step_back(n.node_index as int, len, len as nat);
}

/// The identifiers of the nodes bound to one window, in arena order.
pub open spec fn spec_window_nodes(s: Seq<Node>, w: u64) -> Seq<u64>
    decreases s.len(),
{
    if s.len() == 0 {
        Seq::empty()
    } else {
        let p = spec_window_nodes(s.drop_last(), w);
        if s.last().window == Some(w) {
            p.push(s.last().id)
        } else {
            p
        }
    }
}

/// The focus tree: the arena of windows, nodes and leaves that tracks the
/// focus points of the interface and the cursors of keyboard navigation.
///
/// A tree hands out its own identifiers from a counter; a transient tree
/// made by [`Tree::branch`] continues where its parent stopped, so that a
/// later [`Tree::graft`] can merge it without any identifier colliding.
#[derive(Debug, Clone, PartialEq, Eq)]
pub struct Tree {
    /// Per window, whether its subtree has been grafted yet.
    pub flags: Vec<(u64, bool)>,
    /// The leaves of the tree, in creation order.
    pub leaves: Vec<Leaf>,
    /// The nodes of the tree, in creation order.
    pub nodes: Vec<Node>,
    /// The identifiers of the windows, in creation order.
    pub windows: Vec<u64>,
    /// The widget handle that should receive focus on the next paint.
    pub select: Option<u64>,
    /// The widget handle of the leaf that holds the focus.
    pub current_leaf: Option<u64>,
    /// The cursor over the current window's top-level nodes.
    pub node_index: usize,
    /// The cursor over the windows.
    pub window_index: usize,
    /// The first identifier this tree may hand out.
    pub first_id: u64,
    /// The next identifier this tree will hand out.
    pub next_id: u64,
}

impl Tree {
    /// Every identifier the tree owns lies in `[first_id, next_id)`, no
    /// identifier occurs twice in its kind, every node's cursors stand
    /// inside its lists, and the window cursor stands inside the window
    /// list whenever that list is not empty.
    pub open spec fn wf(self) -> bool {
        &&& self.first_id <= self.next_id
        &&& (forall|i: int|
            0 <= i < self.windows@.len() ==> self.first_id <= #[trigger] self.windows@[i]
                < self.next_id)
        &&& (forall|i: int|
            0 <= i < self.nodes@.len() ==> self.first_id <= (#[trigger] self.nodes@[i]).id
                < self.next_id)
        &&& (forall|i: int|
            0 <= i < self.leaves@.len() ==> self.first_id <= (#[trigger] self.leaves@[i]).leaf_id
                < self.next_id)
        &&& (forall|i: int|
            0 <= i < self.flags@.len() ==> self.first_id <= (#[trigger] self.flags@[i]).0
                < self.next_id)
        &&& (forall|i: int, j: int|
            0 <= i < j < self.windows@.len() ==> self.windows@[i] != self.windows@[j])
        &&& (forall|i: int, j: int|
            0 <= i < j < self.nodes@.len() ==> (#[trigger] self.nodes@[i]).id != (
            #[trigger] self.nodes@[j]).id)
        &&& (forall|i: int, j: int|
            0 <= i < j < self.leaves@.len() ==> (#[trigger] self.leaves@[i]).leaf_id != (
            #[trigger] self.leaves@[j]).leaf_id)
        &&& (forall|i: int, j: int|
            0 <= i < j < self.flags@.len() ==> (#[trigger] self.flags@[i]).0 != (
            #[trigger] self.flags@[j]).0)
        &&& (forall|i: int| 0 <= i < self.nodes@.len() ==> (#[trigger] self.nodes@[i]).wf())
        &&& (self.windows@.len() == 0 ==> self.window_index == 0)
        &&& (self.windows@.len() > 0 ==> (self.window_index as int) < self.windows@.len())
    }

    /// The identifier of the current window.
    pub open spec fn spec_current_window(self) -> u64 {
        self.windows@[self.window_index as int]
    }

    /// The identifiers of the current window's top-level nodes.
    pub open spec fn spec_win_nodes(self) -> Seq<u64> {
        spec_window_nodes(self.nodes@, self.spec_current_window())
    }

    /// Whether window navigation may be called: at least one window.
    pub open spec fn has_windows(self) -> bool {
        self.windows@.len() > 0
    }

    /// Whether node navigation may be called: a current window with at
    /// least one node, and the node cursor inside that list.
    pub open spec fn can_nav_nodes(self) -> bool {
        &&& self.has_windows()
        &&& self.spec_win_nodes().len() > 0
        &&& (self.node_index as int) < self.spec_win_nodes().len()
    }

    /// The identifier of the current node.
    pub open spec fn spec_current_node_id(self) -> u64 {
        self.spec_win_nodes()[self.node_index as int]
    }

    /// Creates an empty tree whose identifiers start at zero.
    pub fn new() -> (r: Tree)
        ensures
            r.wf(),
            r.flags@.len() == 0,
            r.leaves@.len() == 0,
            r.nodes@.len() == 0,
            r.windows@.len() == 0,
            r.select is None,
            r.current_leaf is None,
            r.node_index == 0,
            r.window_index == 0,
            r.first_id == 0,
            r.next_id == 0,
    {
        Tree {
            flags: Vec::new(),
            leaves: Vec::new(),
            nodes: Vec::new(),
            windows: Vec::new(),
            select: None,
            current_leaf: None,
            node_index: 0,
            window_index: 0,
            first_id: 0,
            next_id: 0,
        }
    }

    /// Creates an empty transient tree whose identifiers continue where
    /// this tree's stop, so that it can later be grafted back without any
    /// identifier colliding.
    pub fn branch(&self) -> (r: Tree)
        ensures
            r.wf(),
            r.flags@.len() == 0,
            r.leaves@.len() == 0,
            r.nodes@.len() == 0,
            r.windows@.len() == 0,
            r.select is None,
            r.current_leaf is None,
            r.node_index == 0,
            r.window_index == 0,
            r.first_id == self.next_id,
            r.next_id == self.next_id,
    {
        Tree {
            flags: Vec::new(),
            leaves: Vec::new(),
            nodes: Vec::new(),
            windows: Vec::new(),
            select: None,
            current_leaf: None,
            node_index: 0,
            window_index: 0,
            first_id: self.next_id,
            next_id: self.next_id,
        }
    }

    /// Creates a new window: appends its identifier, marks it unloaded,
    /// and returns the identifier with its position in the window list.
    pub fn window(&mut self) -> (r: (u64, usize))
        requires
            old(self).wf(),
            old(self).next_id < u64::MAX,
        ensures
            final(self).wf(),
            r.0 == old(self).next_id,
            r.1 == old(self).windows@.len(),
            final(self).windows@ == old(self).windows@.push(r.0),
            final(self).flags@ == old(self).flags@.push((r.0, false)),
            final(self).next_id == old(self).next_id + 1,
            final(self).leaves == old(self).leaves,
            final(self).nodes == old(self).nodes,
            final(self).select == old(self).select,
            final(self).current_leaf == old(self).current_leaf,
            final(self).node_index == old(self).node_index,
            final(self).window_index == old(self).window_index,
            final(self).first_id == old(self).first_id,
    {
        let id = self.next_id;
        self.next_id = self.next_id + 1;
        self.windows.push(id);
        self.flags.push((id, false));
        (id, self.windows.len() - 1)
    }

    /// Returns the position of the window cursor.
    pub fn window_index(&self) -> (r: usize)
        ensures
            r == self.window_index,
    {
        self.window_index
    }

    /// Sets the active focus point to the given widget handle and records
    /// it as the leaf in focus.
    pub fn select(&mut self, id: u64)
        ensures
            *final(self) == (Tree { select: Some(id), current_leaf: Some(id), ..*old(self) }),
    {
        self.select = Some(id);
        self.current_leaf = self.select;
    }

    /// Returns the active focus point.
    pub fn selected(&self) -> (r: Option<u64>)
        ensures
            r == self.select,
    {
        self.select
    }

    /// Clears the active focus point.
    pub fn clear_selected(&mut self)
        ensures
            *final(self) == (Tree { select: None, ..*old(self) }),
    {
        self.select = None;
    }

    /// Reports whether the given widget handle is the active focus point.
    pub fn in_focus(&self, id: &u64) -> (r: bool)
        ensures
            r == (self.select == Some(*id)),
    {
        match self.selected() {
            Some(value) => value == *id,
            None => false,
        }
    }

    /// The one-shot focus grant: if the given widget handle is the active
    /// focus point, clears it and answers true, and the caller gives the
    /// widget keyboard focus for this frame.
    pub fn take_focus(&mut self, id: &u64) -> (r: bool)
        ensures
            r == (old(self).select == Some(*id)),
            r ==> *final(self) == (Tree { select: None, ..*old(self) }),
            !r ==> *final(self) == *old(self),
    {
        if self.in_focus(id) {
            self.clear_selected();
            true
        } else {
            false
        }
    }
}

/// The node arena after a leaf joined the child-leaf list of the node at
/// position `j`, everything else unchanged.
pub open spec fn spec_attached(old_nodes: Seq<Node>, new_nodes: Seq<Node>, j: int, leaf: u64) -> bool {
    &&& new_nodes.len() == old_nodes.len()
    &&& new_nodes[j].id == old_nodes[j].id
    &&& new_nodes[j].parent == old_nodes[j].parent
    &&& new_nodes[j].nodes == old_nodes[j].nodes
    &&& new_nodes[j].leaves@ == old_nodes[j].leaves@.push(leaf)
    &&& new_nodes[j].window == old_nodes[j].window
    &&& new_nodes[j].node_index == old_nodes[j].node_index
    &&& new_nodes[j].leaf_index == old_nodes[j].leaf_index
    &&& (forall|q: int| 0 <= q < old_nodes.len() && q != j ==> new_nodes[q] == old_nodes[q])
}

impl Tree {
    /// Registers a new leaf for the given widget handle, unparented, and
    /// returns its identifier.
    pub fn leaf(&mut self, id: u64) -> (r: u64)
        requires
            old(self).wf(),
            old(self).next_id < u64::MAX,
        ensures
            final(self).wf(),
            r == old(self).next_id,
            final(self).leaves@ == old(self).leaves@.push(
                Leaf { id, leaf_id: old(self).next_id, parent: None },
            ),
            final(self).next_id == old(self).next_id + 1,
            final(self).flags == old(self).flags,
            final(self).nodes == old(self).nodes,
            final(self).windows == old(self).windows,
            final(self).select == old(self).select,
            final(self).current_leaf == old(self).current_leaf,
            final(self).node_index == old(self).node_index,
            final(self).window_index == old(self).window_index,
            final(self).first_id == old(self).first_id,
    {
        let leaf_id = self.next_id;
        self.next_id = self.next_id + 1;
        self.leaves.push(Leaf { id, leaf_id, parent: None });
        leaf_id
    }

    /// Registers a new empty node and returns its identifier.
    pub fn node(&mut self) -> (r: u64)
        requires
            old(self).wf(),
            old(self).next_id < u64::MAX,
        ensures
            final(self).wf(),
            r == old(self).next_id,
            final(self).nodes@.len() == old(self).nodes@.len() + 1,
            final(self).nodes@.drop_last() == old(self).nodes@,
            final(self).nodes@.last().id == old(self).next_id,
            final(self).nodes@.last().parent is None,
            final(self).nodes@.last().nodes@.len() == 0,
            final(self).nodes@.last().leaves@.len() == 0,
            final(self).nodes@.last().window is None,
            final(self).nodes@.last().node_index == 0,
            final(self).nodes@.last().leaf_index == 0,
            final(self).next_id == old(self).next_id + 1,
            final(self).flags == old(self).flags,
            final(self).leaves == old(self).leaves,
            final(self).windows == old(self).windows,
            final(self).select == old(self).select,
            final(self).current_leaf == old(self).current_leaf,
            final(self).node_index == old(self).node_index,
            final(self).window_index == old(self).window_index,
            final(self).first_id == old(self).first_id,
    {
        let id = self.next_id;
        self.next_id = self.next_id + 1;
        self.nodes.push(Node::new(id));
        proof {
            assert(final(self).nodes@.drop_last() =~= old(self).nodes@);
        }
        id
    }

    /// The position of the node with the given identifier in the arena.
    fn find_node(&self, id: u64) -> (r: Option<usize>)
        ensures
            r is Some <==> (exists|i: int|
                0 <= i < self.nodes@.len() && (#[trigger] self.nodes@[i]).id == id),
            r is Some ==> 0 <= r->Some_0 < self.nodes@.len() && self.nodes@[
                r->Some_0 as int
            ].id == id,
    {
        let mut i: usize = 0;
        while i < self.nodes.len()
            invariant
                i <= self.nodes@.len(),
                forall|q: int| 0 <= q < i ==> (#[trigger] self.nodes@[q]).id != id,
            decreases self.nodes@.len() - i,
        {
            if self.nodes[i].id == id {
                return Some(i);
            }
            i += 1;
        }
        None
    }

    /// The position of the leaf with the given identifier in the arena.
    fn find_leaf(&self, leaf_id: u64) -> (r: Option<usize>)
        ensures
            r is Some <==> (exists|i: int|
                0 <= i < self.leaves@.len() && (#[trigger] self.leaves@[i]).leaf_id == leaf_id),
            r is Some ==> 0 <= r->Some_0 < self.leaves@.len() && self.leaves@[
                r->Some_0 as int
            ].leaf_id == leaf_id,
    {
        let mut i: usize = 0;
        while i < self.leaves.len()
            invariant
                i <= self.leaves@.len(),
                forall|q: int| 0 <= q < i ==> (#[trigger] self.leaves@[q]).leaf_id != leaf_id,
            decreases self.leaves@.len() - i,
        {
            if self.leaves[i].leaf_id == leaf_id {
                return Some(i);
            }
            i += 1;
        }
        None
    }

    /// Attaches a leaf to a node: the leaf's parent is set to the node
    /// (the last writer wins) and the leaf joins the node's child-leaf
    /// list. A missing leaf changes nothing; a missing node changes only
    /// the leaf's parent.
    pub fn with_leaf(&mut self, node: u64, leaf: u64)
        requires
            old(self).wf(),
        ensures
            final(self).wf(),
            final(self).flags == old(self).flags,
            final(self).windows == old(self).windows,
            final(self).select == old(self).select,
            final(self).current_leaf == old(self).current_leaf,
            final(self).node_index == old(self).node_index,
            final(self).window_index == old(self).window_index,
            final(self).first_id == old(self).first_id,
            final(self).next_id == old(self).next_id,
            (forall|i: int|
                0 <= i < old(self).leaves@.len() ==> (#[trigger] old(self).leaves@[i]).leaf_id
                    != leaf) ==> *final(self) == *old(self),
            forall|i: int|
                0 <= i < old(self).leaves@.len() && (#[trigger] old(self).leaves@[i]).leaf_id
                    == leaf ==> final(self).leaves@ == old(self).leaves@.update(
                    i,
                    (Leaf { parent: Some(node), ..old(self).leaves@[i] }),
                ),
            ((exists|i: int|
                0 <= i < old(self).leaves@.len() && (#[trigger] old(self).leaves@[i]).leaf_id
                    == leaf) && (forall|j: int|
                0 <= j < old(self).nodes@.len() ==> (#[trigger] old(self).nodes@[j]).id != node))
                ==> final(self).nodes == old(self).nodes,
            (exists|i: int|
                0 <= i < old(self).leaves@.len() && (#[trigger] old(self).leaves@[i]).leaf_id
                    == leaf) ==> (forall|j: int|
                0 <= j < old(self).nodes@.len() && (#[trigger] old(self).nodes@[j]).id == node
                    ==> spec_attached(old(self).nodes@, final(self).nodes@, j, leaf)),
    {
        let leaf_idx = match self.find_leaf(leaf) {
            Some(i) => i,
            None => {
                return ;
            },
        };
        let l = &mut self.leaves[leaf_idx];
        l.parent = Some(node);
        match self.find_node(node) {
            Some(j) => {
                let n = &mut self.nodes[j];
                n.leaves.push(leaf);
            },
            None => {
            },
        }
    }
}

impl Tree {
    /// Replaces the node of the same identifier, or adds the node to the
    /// arena if none carries it.
    pub fn with_node(&mut self, node: Node)
        requires
            old(self).wf(),
            node.wf(),
            old(self).first_id <= node.id < old(self).next_id,
        ensures
            final(self).wf(),
            final(self).flags == old(self).flags,
            final(self).leaves == old(self).leaves,
            final(self).windows == old(self).windows,
            final(self).select == old(self).select,
            final(self).current_leaf == old(self).current_leaf,
            final(self).node_index == old(self).node_index,
            final(self).window_index == old(self).window_index,
            final(self).first_id == old(self).first_id,
            final(self).next_id == old(self).next_id,
            (forall|j: int|
                0 <= j < old(self).nodes@.len() ==> (#[trigger] old(self).nodes@[j]).id != node.id)
                ==> final(self).nodes@ == old(self).nodes@.push(node),
            forall|j: int|
                0 <= j < old(self).nodes@.len() && (#[trigger] old(self).nodes@[j]).id == node.id
                    ==> final(self).nodes@ == old(self).nodes@.update(j, node),
    {
        match self.find_node(node.id) {
            Some(j) => {
                let slot = &mut self.nodes[j];
                *slot = node;
            },
            None => {
                self.nodes.push(node);
            },
        }
    }

    /// Binds the node of the given identifier to a window; a missing node
    /// changes nothing.
    pub fn with_window(&mut self, node: u64, window: u64)
        requires
            old(self).wf(),
        ensures
            final(self).wf(),
            final(self).flags == old(self).flags,
            final(self).leaves == old(self).leaves,
            final(self).windows == old(self).windows,
            final(self).select == old(self).select,
            final(self).current_leaf == old(self).current_leaf,
            final(self).node_index == old(self).node_index,
            final(self).window_index == old(self).window_index,
            final(self).first_id == old(self).first_id,
            final(self).next_id == old(self).next_id,
            (forall|j: int|
                0 <= j < old(self).nodes@.len() ==> (#[trigger] old(self).nodes@[j]).id != node)
                ==> *final(self) == *old(self),
            forall|j: int|
                0 <= j < old(self).nodes@.len() && (#[trigger] old(self).nodes@[j]).id == node
                    ==> final(self).nodes@ == old(self).nodes@.update(
                    j,
                    (Node { window: Some(window), ..old(self).nodes@[j] }),
                ),
    {
        match self.find_node(node) {
            Some(j) => {
                let n = &mut self.nodes[j];
                n.window = Some(window);
            },
            None => {
            },
        }
    }

    /// Registers a new leaf for the widget handle and attaches it to the
    /// given node in one step, returning the leaf's identifier.
    pub fn with_new_leaf(&mut self, node: u64, leaf: u64) -> (r: u64)
        requires
            old(self).wf(),
            old(self).next_id < u64::MAX,
        ensures
            final(self).wf(),
            r == old(self).next_id,
            final(self).next_id == old(self).next_id + 1,
            final(self).leaves@.len() == old(self).leaves@.len() + 1,
            final(self).windows == old(self).windows,
            final(self).flags == old(self).flags,
    {
        let leaf_id = self.leaf(leaf);
        self.with_leaf(node, leaf_id);
        leaf_id
    }

    /// Creates a window together with its top-level node, binds the node
    /// to the window, and returns the node's identifier with the window's
    /// position in the window list.
    pub fn with_new_window(&mut self) -> (r: (u64, usize))
        requires
            old(self).wf(),
            old(self).next_id < u64::MAX - 1,
        ensures
            final(self).wf(),
            r.1 == old(self).windows@.len(),
            final(self).windows@ == old(self).windows@.push(old(self).next_id),
            final(self).next_id == old(self).next_id + 2,
            final(self).nodes@.len() == old(self).nodes@.len() + 1,
            final(self).nodes@.last().id == r.0,
            final(self).nodes@.last().window == Some(old(self).next_id),
    {
        let (window_id, window_index) = self.window();
        let node_id = self.node();
        self.with_window(node_id, window_id);
        (node_id, window_index)
    }
}

impl Tree {
    /// Lists the identifiers of the nodes bound to the given window, in
    /// arena order.
    pub fn get_window(&self, window: u64) -> (r: Vec<u64>)
        ensures
            r@ == spec_window_nodes(self.nodes@, window),
    {
        let ghost all = self.nodes@;
        let mut out: Vec<u64> = Vec::new();
        let mut i: usize = 0;
        proof {
            assert(all.take(0) =~= Seq::<Node>::empty());
        }
        while i < self.nodes.len()
            invariant
                i <= all.len(),
                all == self.nodes@,
                out@ == spec_window_nodes(all.take(i as int), window),
            decreases all.len() - i,
        {
            proof {
                assert(all.take(i + 1).drop_last() =~= all.take(i as int));
                assert(all.take(i + 1).last() == all[i as int]);
            }
            let n = &self.nodes[i];
            match n.window {
                Some(w) => {
                    if w == window {
                        out.push(n.id);
                    }
                },
                None => {
                },
            }
            i += 1;
        }
        proof {
            assert(all.take(all.len() as int) =~= all);
        }
        out
    }

    /// The identifier of the current window.
    pub fn current_window(&self) -> (r: u64)
        requires
            self.wf(),
            self.has_windows(),
        ensures
            r == self.spec_current_window(),
    {
        self.windows[self.window_index]
    }

    /// The identifier of the current window, or nothing when the window
    /// list is empty or the cursor stands outside it.
    pub fn try_current_window(&self) -> (r: Option<u64>)
        ensures
            r is Some <==> (self.windows@.len() > 0 && (self.window_index as int)
                < self.windows@.len()),
            r is Some ==> r->Some_0 == self.spec_current_window(),
    {
        if self.windows.is_empty() {
            None
        } else if self.window_index >= self.windows.len() {
            None
        } else {
            Some(self.windows[self.window_index])
        }
    }

    /// The tree after one forward step of the window cursor.
    pub open spec fn spec_next_window(self) -> Tree {
        Tree {
            window_index: spec_step(self.window_index as int, self.windows@.len() as int) as usize,
            ..self
        }
    }

    /// The tree after one backward step of the window cursor.
    pub open spec fn spec_previous_window(self) -> Tree {
        Tree {
            window_index: spec_step_back(
                self.window_index as int,
                self.windows@.len() as int,
            ) as usize,
            ..self
        }
    }

    /// Advances the window cursor with wraparound and returns the
    /// identifier of the window it lands on.
    pub fn next_window(&mut self) -> (r: u64)
        requires
            old(self).wf(),
            old(self).has_windows(),
        ensures
            final(self).wf(),
            *final(self) == old(self).spec_next_window(),
            r == final(self).spec_current_window(),
    {
        if self.window_index >= self.windows.len() - 1 {
            self.window_index = 0;
        } else {
            self.window_index = self.window_index + 1;
        }
        self.windows[self.window_index]
    }

    /// Retreats the window cursor with wraparound and returns the
    /// identifier of the window it lands on.
    pub fn previous_window(&mut self) -> (r: u64)
        requires
            old(self).wf(),
            old(self).has_windows(),
        ensures
            final(self).wf(),
            *final(self) == old(self).spec_previous_window(),
            r == final(self).spec_current_window(),
    {
        if self.window_index == 0 {
            self.window_index = self.windows.len() - 1;
        } else {
            self.window_index = self.window_index - 1;
        }
        self.windows[self.window_index]
    }

    /// Moves the window cursor to the window of the given identifier; an
    /// unknown identifier changes nothing.
    pub fn select_window(&mut self, id: &u64)
        requires
            old(self).wf(),
        ensures
            final(self).wf(),
            (forall|i: int| 0 <= i < old(self).windows@.len() ==> #[trigger] old(self).windows@[i] != *id)
                ==> *final(self) == *old(self),
            forall|i: int|
                0 <= i < old(self).windows@.len() && #[trigger] old(self).windows@[i] == *id ==> *final(self)
                    == (Tree { window_index: i as usize, ..*old(self) }),
    {
        let mut i: usize = 0;
        while i < self.windows.len()
            invariant
                old(self).wf(),
                i <= self.windows@.len(),
                forall|q: int| 0 <= q < i ==> #[trigger] self.windows@[q] != *id,
                self == old(self),
            decreases self.windows@.len() - i,
        {
            if self.windows[i] == *id {
                self.window_index = i;
                proof {
                    assert forall|q: int|
                        0 <= q < old(self).windows@.len() && #[trigger] old(self).windows@[q]
                            == *id implies q == i as int by {
                        if q < i as int {
                            assert(old(self).windows@[q] != old(self).windows@[i as int]);
                        } else if q > i as int {
                            assert(old(self).windows@[i as int] != old(self).windows@[q]);
                        }
                    }
                    assert(*self == (Tree { window_index: i, ..*old(self) }));
                }
                return ;
            }
            i += 1;
        }
    }
}

/// `k` forward steps of the window cursor of a tree.
pub open spec fn iter_next_window(t: Tree, k: nat) -> Tree
    decreases k,
{
    if k == 0 {
        t
    } else {
        iter_next_window(t, (k - 1) as nat).spec_next_window()
    }
}

/// `k` backward steps of the window cursor of a tree.
pub open spec fn iter_previous_window(t: Tree, k: nat) -> Tree
    decreases k,
{
    if k == 0 {
        t
    } else {
        iter_previous_window(t, (k - 1) as nat).spec_previous_window()
    }
}

proof fn lemma_iter_next_window_shape(t: Tree, k: nat)
    requires
        t.wf(),
        t.windows@.len() > 0,
        t.windows@.len() <= usize::MAX,
    ensures
        iter_next_window(t, k) == (Tree {
            window_index: iter_step(t.window_index as int, t.windows@.len() as int, k) as usize,
            ..t
        }),
    decreases k,
{
    if k > 0 {
        lemma_iter_next_window_shape(t, (k - 1) as nat);
        lemma_iter_bounds(t.window_index as int, t.windows@.len() as int, (k - 1) as nat);
    }
    lemma_iter_bounds(t.window_index as int, t.windows@.len() as int, k);
}

proof fn lemma_iter_previous_window_shape(t: Tree, k: nat)
    requires
        t.wf(),
        t.windows@.len() > 0,
        t.windows@.len() <= usize::MAX,
    ensures
        iter_previous_window(t, k) == (Tree {
            window_index: iter_step_back(
                t.window_index as int,
                t.windows@.len() as int,
                k,
            ) as usize,
            ..t
        }),
    decreases k,
{
    if k > 0 {
        lemma_iter_previous_window_shape(t, (k - 1) as nat);
        lemma_iter_bounds(t.window_index as int, t.windows@.len() as int, (k - 1) as nat);
    }
    lemma_iter_bounds(t.window_index as int, t.windows@.len() as int, k);
}

/// Cyclic closure of forward window navigation: on a tree with `n >= 1`
/// windows, `n` calls of `next_window` return the cursor to its starting
/// value and leave the tree as it was.
pub proof fn lemma_next_window_cycles(t: Tree)
    requires
        t.wf(),
        t.windows@.len() > 0,
        t.windows@.len() <= usize::MAX,
    ensures
        iter_next_window(t, t.windows@.len() as nat) == t,
{
    let len = t.windows@.len() as int;
    lemma_iter_next_window_shape(t, len as nat);
    lemma_iter_step(t.window_index as int, len, len as nat);
}

/// Cyclic closure of backward window navigation: on a tree with `n >= 1`
/// windows, `n` calls of `previous_window` return the cursor to its
/// starting value and leave the tree as it was.
pub proof fn lemma_previous_window_cycles(t: Tree)
    requires
        t.wf(),
        t.windows@.len() > 0,
        t.windows@.len() <= usize::MAX,
    ensures
        iter_previous_window(t, t.windows@.len() as nat) == t,
{
    let len = t.windows@.len() as int;
    lemma_iter_previous_window_shape(t, len as nat);
    lemma_iter_step_back(t.window_index as int, len, len as nat);
}

proof fn lemma_window_nodes_membership(s: Seq<Node>, w: u64, k: int)
    requires
        0 <= k < spec_window_nodes(s, w).len(),
    ensures
        exists|i: int|
            0 <= i < s.len() && (#[trigger] s[i]).id == spec_window_nodes(s, w)[k] && s[i].window
                == Some(w),
    decreases s.len(),
{
    let r = spec_window_nodes(s, w);
    if s.len() > 0 {
        let p = spec_window_nodes(s.drop_last(), w);
        if s.last().window == Some(w) && k == r.len() - 1 {
            assert(s[s.len() - 1].id == r[k] && s[s.len() - 1].window == Some(w));
        } else {
            lemma_window_nodes_membership(s.drop_last(), w, k);
            let i = choose|i: int|
                0 <= i < s.drop_last().len() && (#[trigger] s.drop_last()[i]).id == p[k]
                    && s.drop_last()[i].window == Some(w);
            assert(s[i].id == r[k] && s[i].window == Some(w));
        }
    }
}

impl Tree {
    /// Whether a node of the given identifier stands in the arena.
    pub open spec fn has_node(self, id: u64) -> bool {
        exists|i: int| 0 <= i < self.nodes@.len() && (#[trigger] self.nodes@[i]).id == id
    }

    /// The arena position of the node with the given identifier.
    pub open spec fn spec_node_idx(self, id: u64) -> int {
        choose|i: int| 0 <= i < self.nodes@.len() && (#[trigger] self.nodes@[i]).id == id
    }

    /// The node with the given identifier.
    pub open spec fn spec_node_of(self, id: u64) -> Node {
        self.nodes@[self.spec_node_idx(id)]
    }

    /// Whether a leaf of the given identifier stands in the arena.
    pub open spec fn has_leaf(self, leaf_id: u64) -> bool {
        exists|i: int| 0 <= i < self.leaves@.len() && (#[trigger] self.leaves@[i]).leaf_id == leaf_id
    }

    /// The arena position of the leaf with the given identifier.
    pub open spec fn spec_leaf_idx(self, leaf_id: u64) -> int {
        choose|i: int|
            0 <= i < self.leaves@.len() && (#[trigger] self.leaves@[i]).leaf_id == leaf_id
    }

    /// The current node of the tree: the node of the current window that
    /// the node cursor stands on.
    pub open spec fn spec_cur_node(self) -> Node {
        self.spec_node_of(self.spec_current_node_id())
    }

    /// The identifier of the current leaf of the current node.
    pub open spec fn spec_cur_leaf_id(self) -> u64 {
        self.spec_cur_node().leaves@[self.spec_cur_node().leaf_index as int]
    }

    /// Whether leaf navigation may be called: node navigation is possible
    /// and the current node has at least one leaf.
    pub open spec fn can_nav_leaves(self) -> bool {
        &&& self.can_nav_nodes()
        &&& self.spec_cur_node().leaves@.len() > 0
    }

    /// The tree after one forward step of the node cursor over the current
    /// window's nodes.
    pub open spec fn spec_next_node(self) -> Tree {
        Tree {
            node_index: spec_step(self.node_index as int, self.spec_win_nodes().len() as int) as usize,
            ..self
        }
    }

    /// The tree after one backward step of that cursor.
    pub open spec fn spec_previous_node(self) -> Tree {
        Tree {
            node_index: spec_step_back(
                self.node_index as int,
                self.spec_win_nodes().len() as int,
            ) as usize,
            ..self
        }
    }

    /// The identifier of the current node.
    pub fn current_node(&self) -> (r: u64)
        requires
            self.wf(),
            self.can_nav_nodes(),
        ensures
            r == self.spec_current_node_id(),
            self.has_node(r),
    {
        let id = self.current_window();
        let nodes = self.get_window(id);
        proof {
            lemma_window_nodes_membership(self.nodes@, id, self.node_index as int);
        }
        nodes[self.node_index]
    }

    /// Advances the node cursor over the current window's nodes with
    /// wraparound and returns the identifier of the node it lands on.
    pub fn next_node(&mut self) -> (r: u64)
        requires
            old(self).wf(),
            old(self).can_nav_nodes(),
        ensures
            final(self).wf(),
            *final(self) == old(self).spec_next_node(),
            final(self).can_nav_nodes(),
            r == final(self).spec_current_node_id(),
    {
        let id = self.current_window();
        let nodes = self.get_window(id);
        if self.node_index >= nodes.len() - 1 {
            self.node_index = 0;
        } else {
            self.node_index = self.node_index + 1;
        }
        nodes[self.node_index]
    }

    /// Retreats the node cursor over the current window's nodes with
    /// wraparound and returns the identifier of the node it lands on.
    pub fn previous_node(&mut self) -> (r: u64)
        requires
            old(self).wf(),
            old(self).can_nav_nodes(),
        ensures
            final(self).wf(),
            *final(self) == old(self).spec_previous_node(),
            final(self).can_nav_nodes(),
            r == final(self).spec_current_node_id(),
    {
        let id = self.current_window();
        let nodes = self.get_window(id);
        if self.node_index == 0 {
            self.node_index = nodes.len() - 1;
        } else {
            self.node_index = self.node_index - 1;
        }
        nodes[self.node_index]
    }
}

impl Tree {
    /// The identifier of the current leaf of the current node.
    pub fn current_leaf(&self) -> (r: Option<u64>)
        requires
            self.wf(),
            self.can_nav_leaves(),
        ensures
            r == Some(self.spec_cur_leaf_id()),
    {
        let cn = self.current_node();
        match self.find_node(cn) {
            Some(i) => {
                proof {
                    lemma_node_idx_unique(*self, cn, i as int);
                }
                Some(self.nodes[i].current_leaf())
            },
            None => {
                proof {
                    assert(false);
                }
                None
            },
        }
    }

    /// Advances the current node's leaf cursor with wraparound; returns
    /// the identifier of the leaf it lands on.
    pub fn next_leaf(&mut self) -> (r: Option<u64>)
        requires
            old(self).wf(),
            old(self).can_nav_leaves(),
        ensures
            final(self).wf(),
            final(self).nodes@ == old(self).nodes@.update(
                old(self).spec_node_idx(old(self).spec_current_node_id()),
                old(self).spec_cur_node().spec_next_leaf(),
            ),
            final(self).flags == old(self).flags,
            final(self).leaves == old(self).leaves,
            final(self).windows == old(self).windows,
            final(self).select == old(self).select,
            final(self).current_leaf == old(self).current_leaf,
            final(self).node_index == old(self).node_index,
            final(self).window_index == old(self).window_index,
            final(self).first_id == old(self).first_id,
            final(self).next_id == old(self).next_id,
            r == Some(final(self).spec_cur_leaf_id()),
            final(self).can_nav_leaves(),
    {
        let cn = self.current_node();
        match self.find_node(cn) {
            Some(i) => {
                proof {
                    lemma_node_idx_unique(*self, cn, i as int);
                }
                let n = &mut self.nodes[i];
                let leaf = n.next_leaf();
                proof {
                    lemma_window_nodes_update_cursor(
                        old(self).nodes@,
                        self.nodes@,
                        i as int,
                        old(self).spec_current_window(),
                    );
                    lemma_node_idx_unique(*self, cn, i as int);
                }
                Some(leaf)
            },
            None => {
                proof {
                    assert(false);
                }
                None
            },
        }
    }

    /// Retreats the current node's leaf cursor with wraparound; returns
    /// the identifier of the leaf it lands on.
    pub fn previous_leaf(&mut self) -> (r: Option<u64>)
        requires
            old(self).wf(),
            old(self).can_nav_leaves(),
        ensures
            final(self).wf(),
            final(self).nodes@ == old(self).nodes@.update(
                old(self).spec_node_idx(old(self).spec_current_node_id()),
                old(self).spec_cur_node().spec_previous_leaf(),
            ),
            final(self).flags == old(self).flags,
            final(self).leaves == old(self).leaves,
            final(self).windows == old(self).windows,
            final(self).select == old(self).select,
            final(self).current_leaf == old(self).current_leaf,
            final(self).node_index == old(self).node_index,
            final(self).window_index == old(self).window_index,
            final(self).first_id == old(self).first_id,
            final(self).next_id == old(self).next_id,
            r == Some(final(self).spec_cur_leaf_id()),
            final(self).can_nav_leaves(),
    {
        let cn = self.current_node();
        match self.find_node(cn) {
            Some(i) => {
                proof {
                    lemma_node_idx_unique(*self, cn, i as int);
                }
                let n = &mut self.nodes[i];
                let leaf = n.previous_leaf();
                proof {
                    lemma_window_nodes_update_cursor(
                        old(self).nodes@,
                        self.nodes@,
                        i as int,
                        old(self).spec_current_window(),
                    );
                    lemma_node_idx_unique(*self, cn, i as int);
                }
                Some(leaf)
            },
            None => {
                proof {
                    assert(false);
                }
                None
            },
        }
    }

    /// The widget handle of the current leaf, or nothing when the leaf is
    /// not in the arena.
    pub fn current_leaf_id(&self) -> (r: Option<u64>)
        requires
            self.wf(),
            self.can_nav_leaves(),
        ensures
            r is Some <==> self.has_leaf(self.spec_cur_leaf_id()),
            r is Some ==> r->Some_0 == self.leaves@[self.spec_leaf_idx(
                self.spec_cur_leaf_id(),
            )].id,
    {
        let lid = match self.current_leaf() {
            Some(l) => l,
            None => {
                proof {
                    assert(false);
                }
                return None;
            },
        };
        match self.find_leaf(lid) {
            Some(i) => {
                proof {
                    lemma_leaf_idx_unique(*self, lid, i as int);
                }
                Some(self.leaves[i].id)
            },
            None => None,
        }
    }

    /// Advances the current node's child-node cursor with wraparound;
    /// returns the identifier of the child node it lands on.
    pub fn next_node_inner(&mut self) -> (r: Option<u64>)
        requires
            old(self).wf(),
            old(self).can_nav_nodes(),
            old(self).spec_cur_node().nodes@.len() > 0,
        ensures
            final(self).wf(),
            final(self).nodes@ == old(self).nodes@.update(
                old(self).spec_node_idx(old(self).spec_current_node_id()),
                old(self).spec_cur_node().spec_next_node(),
            ),
            final(self).windows == old(self).windows,
            final(self).leaves == old(self).leaves,
            final(self).flags == old(self).flags,
            final(self).select == old(self).select,
            r is Some,
    {
        let cn = self.current_node();
        match self.find_node(cn) {
            Some(i) => {
                proof {
                    lemma_node_idx_unique(*self, cn, i as int);
                }
                let n = &mut self.nodes[i];
                Some(n.next_node())
            },
            None => {
                proof {
                    assert(false);
                }
                None
            },
        }
    }

    /// Retreats the current node's child-node cursor with wraparound;
    /// returns the identifier of the child node it lands on.
    pub fn previous_node_inner(&mut self) -> (r: Option<u64>)
        requires
            old(self).wf(),
            old(self).can_nav_nodes(),
            old(self).spec_cur_node().nodes@.len() > 0,
        ensures
            final(self).wf(),
            final(self).nodes@ == old(self).nodes@.update(
                old(self).spec_node_idx(old(self).spec_current_node_id()),
                old(self).spec_cur_node().spec_previous_node(),
            ),
            final(self).windows == old(self).windows,
            final(self).leaves == old(self).leaves,
            final(self).flags == old(self).flags,
            final(self).select == old(self).select,
            r is Some,
    {
        let cn = self.current_node();
        match self.find_node(cn) {
            Some(i) => {
                proof {
                    lemma_node_idx_unique(*self, cn, i as int);
                }
                let n = &mut self.nodes[i];
                Some(n.previous_node())
            },
            None => {
                proof {
                    assert(false);
                }
                None
            },
        }
    }
}

// The arena position of a node is pinned by its identifier: identifiers
// are unique under well-formedness.
proof fn lemma_node_idx_unique(t: Tree, id: u64, i: int)
    requires
        t.wf(),
        0 <= i < t.nodes@.len(),
        t.nodes@[i].id == id,
    ensures
        t.spec_node_idx(id) == i,
        t.has_node(id),
{
    assert(t.has_node(id));
    let j = t.spec_node_idx(id);
    if j < i {
        assert(t.nodes@[j].id != t.nodes@[i].id);
    } else if j > i {
        assert(t.nodes@[i].id != t.nodes@[j].id);
    }
}

// The arena position of a leaf is pinned by its identifier.
proof fn lemma_leaf_idx_unique(t: Tree, leaf_id: u64, i: int)
    requires
        t.wf(),
        0 <= i < t.leaves@.len(),
        t.leaves@[i].leaf_id == leaf_id,
    ensures
        t.spec_leaf_idx(leaf_id) == i,
        t.has_leaf(leaf_id),
{
    assert(t.has_leaf(leaf_id));
    let j = t.spec_leaf_idx(leaf_id);
    if j < i {
        assert(t.leaves@[j].leaf_id != t.leaves@[i].leaf_id);
    } else if j > i {
        assert(t.leaves@[i].leaf_id != t.leaves@[j].leaf_id);
    }
}

// Stepping a cursor of the node at position `i` leaves the id-and-window
// structure of the arena unchanged, so each window keeps its node list.
proof fn lemma_window_nodes_update_cursor(s1: Seq<Node>, s2: Seq<Node>, i: int, w: u64)
    requires
        s1.len() == s2.len(),
        0 <= i < s1.len(),
        forall|q: int| 0 <= q < s1.len() && q != i ==> s1[q] == #[trigger] s2[q],
        s2[i].id == s1[i].id,
        s2[i].window == s1[i].window,
    ensures
        spec_window_nodes(s2, w) == spec_window_nodes(s1, w),
    decreases s1.len(),
{
    if s1.len() > 0 {
        if i == s1.len() - 1 {
            assert(s1.drop_last() =~= s2.drop_last());
        } else {
            lemma_window_nodes_update_cursor(s1.drop_last(), s2.drop_last(), i, w);
            assert(s2.last() == s1.last());
        }
    }
}

/// The tree after the current leaf is promoted to the active focus point:
/// when the leaf stands in the arena its widget handle becomes `select`,
/// otherwise nothing changes.
pub open spec fn spec_select_current(t: Tree) -> Tree {
    let lid = t.spec_cur_leaf_id();
    if t.has_leaf(lid) {
        Tree { select: Some(t.leaves@[t.spec_leaf_idx(lid)].id), ..t }
    } else {
        t
    }
}

/// How a tree changes when the current node's leaf cursor is stepped and
/// the leaf it lands on is promoted to the active focus point.
pub open spec fn spec_stepped_leaf_rel(old_t: Tree, new_t: Tree, forward: bool) -> bool {
    let n2 = if forward {
        old_t.spec_cur_node().spec_next_leaf()
    } else {
        old_t.spec_cur_node().spec_previous_leaf()
    };
    let lid = n2.leaves@[n2.leaf_index as int];
    &&& new_t.nodes@ == old_t.nodes@.update(
        old_t.spec_node_idx(old_t.spec_current_node_id()),
        n2,
    )
    &&& (old_t.has_leaf(lid) ==> new_t.select == Some(
        old_t.leaves@[old_t.spec_leaf_idx(lid)].id,
    ))
    &&& (!old_t.has_leaf(lid) ==> new_t.select == old_t.select)
    &&& new_t.flags == old_t.flags
    &&& new_t.leaves == old_t.leaves
    &&& new_t.windows == old_t.windows
    &&& new_t.current_leaf == old_t.current_leaf
    &&& new_t.node_index == old_t.node_index
    &&& new_t.window_index == old_t.window_index
    &&& new_t.first_id == old_t.first_id
    &&& new_t.next_id == old_t.next_id
}

impl Tree {
    /// Sets the active focus point to the current leaf, when that leaf
    /// stands in the arena.
    pub fn select_current(&mut self)
        requires
            old(self).wf(),
            old(self).can_nav_leaves(),
        ensures
            final(self).wf(),
            *final(self) == spec_select_current(*old(self)),
    {
        let lid = match self.current_leaf() {
            Some(l) => l,
            None => {
                proof {
                    assert(false);
                }
                return ;
            },
        };
        match self.find_leaf(lid) {
            Some(i) => {
                proof {
                    lemma_leaf_idx_unique(*self, lid, i as int);
                }
                self.select = Some(self.leaves[i].id);
            },
            None => {
            },
        }
    }

    /// Steps to the next leaf of the current node and sets the active
    /// focus point to it, when it stands in the arena.
    pub fn select_next(&mut self)
        requires
            old(self).wf(),
            old(self).can_nav_leaves(),
        ensures
            final(self).wf(),
            spec_stepped_leaf_rel(*old(self), *final(self), true),
    {
        let lid = match self.next_leaf() {
            Some(l) => l,
            None => {
                proof {
                    assert(false);
                }
                return ;
            },
        };
        proof {
            lemma_window_nodes_membership(
                old(self).nodes@,
                old(self).spec_current_window(),
                old(self).node_index as int,
            );
            let idx = old(self).spec_node_idx(old(self).spec_current_node_id());
            lemma_window_nodes_update_cursor(
                old(self).nodes@,
                self.nodes@,
                idx,
                old(self).spec_current_window(),
            );
            lemma_node_idx_unique(*self, old(self).spec_current_node_id(), idx);
        }
        match self.find_leaf(lid) {
            Some(i) => {
                proof {
                    lemma_leaf_idx_unique(*self, lid, i as int);
                    lemma_leaf_idx_unique(*old(self), lid, i as int);
                }
                self.select = Some(self.leaves[i].id);
            },
            None => {
            },
        }
    }

    /// Steps to the previous leaf of the current node and sets the active
    /// focus point to it, when it stands in the arena.
    pub fn select_previous(&mut self)
        requires
            old(self).wf(),
            old(self).can_nav_leaves(),
        ensures
            final(self).wf(),
            spec_stepped_leaf_rel(*old(self), *final(self), false),
    {
        let lid = match self.previous_leaf() {
            Some(l) => l,
            None => {
                proof {
                    assert(false);
                }
                return ;
            },
        };
        proof {
            lemma_window_nodes_membership(
                old(self).nodes@,
                old(self).spec_current_window(),
                old(self).node_index as int,
            );
            let idx = old(self).spec_node_idx(old(self).spec_current_node_id());
            lemma_window_nodes_update_cursor(
                old(self).nodes@,
                self.nodes@,
                idx,
                old(self).spec_current_window(),
            );
            lemma_node_idx_unique(*self, old(self).spec_current_node_id(), idx);
        }
        match self.find_leaf(lid) {
            Some(i) => {
                proof {
                    lemma_leaf_idx_unique(*self, lid, i as int);
                    lemma_leaf_idx_unique(*old(self), lid, i as int);
                }
                self.select = Some(self.leaves[i].id);
            },
            None => {
            },
        }
    }

    /// Steps to the next node of the current window and sets the active
    /// focus point to its current leaf.
    pub fn select_next_node(&mut self)
        requires
            old(self).wf(),
            old(self).can_nav_nodes(),
            old(self).spec_next_node().can_nav_leaves(),
        ensures
            final(self).wf(),
            *final(self) == spec_select_current(old(self).spec_next_node()),
    {
        let _ = self.next_node();
        self.select_current();
    }

    /// Steps to the previous node of the current window and sets the
    /// active focus point to its current leaf.
    pub fn select_previous_node(&mut self)
        requires
            old(self).wf(),
            old(self).can_nav_nodes(),
            old(self).spec_previous_node().can_nav_leaves(),
        ensures
            final(self).wf(),
            *final(self) == spec_select_current(old(self).spec_previous_node()),
    {
        let _ = self.previous_node();
        self.select_current();
    }

    /// Steps to the next window and sets the active focus point to the
    /// current leaf of its current node.
    pub fn select_next_window(&mut self)
        requires
            old(self).wf(),
            old(self).has_windows(),
            old(self).spec_next_window().can_nav_leaves(),
        ensures
            final(self).wf(),
            *final(self) == spec_select_current(old(self).spec_next_window()),
    {
        let _ = self.next_window();
        let _ = self.current_node();
        let _ = self.current_leaf();
        self.select_current();
    }

    /// Steps to the previous window and sets the active focus point to
    /// the current leaf of its current node.
    pub fn select_previous_window(&mut self)
        requires
            old(self).wf(),
            old(self).has_windows(),
            old(self).spec_previous_window().can_nav_leaves(),
        ensures
            final(self).wf(),
            *final(self) == spec_select_current(old(self).spec_previous_window()),
    {
        let _ = self.previous_window();
        let _ = self.current_node();
        let _ = self.current_leaf();
        self.select_current();
    }
}

impl Tree {
    /// The loaded flag of the given window: whether its subtree has been
    /// grafted, or nothing when the window has no flag.
    pub open spec fn spec_flag_of(self, w: u64) -> Option<bool> {
        if exists|i: int| 0 <= i < self.flags@.len() && (#[trigger] self.flags@[i]).0 == w {
            Some(self.flags@[choose|i: int|
                0 <= i < self.flags@.len() && (#[trigger] self.flags@[i]).0 == w].1)
        } else {
            None
        }
    }

    /// Merges a transient tree into this one: the leaf, node and window
    /// arenas are concatenated. The branch must have been made by
    /// [`Tree::branch`] from this tree's present state, so its identifiers
    /// are disjoint from everything already here.
    pub fn graft(&mut self, branch: Tree)
        requires
            old(self).wf(),
            branch.wf(),
            old(self).next_id <= branch.first_id,
        ensures
            final(self).wf(),
            final(self).leaves@ == old(self).leaves@ + branch.leaves@,
            final(self).nodes@ == old(self).nodes@ + branch.nodes@,
            final(self).windows@ == old(self).windows@ + branch.windows@,
            final(self).next_id == (if branch.next_id > old(self).next_id {
                branch.next_id
            } else {
                old(self).next_id
            }),
            final(self).flags == old(self).flags,
            final(self).select == old(self).select,
            final(self).current_leaf == old(self).current_leaf,
            final(self).node_index == old(self).node_index,
            final(self).window_index == old(self).window_index,
            final(self).first_id == old(self).first_id,
    {
        let mut b = branch;
        self.leaves.append(&mut b.leaves);
        self.nodes.append(&mut b.nodes);
        self.windows.append(&mut b.windows);
        if b.next_id > self.next_id {
            self.next_id = b.next_id;
        }
    }

    /// Marks the given window loaded: its flag entry is set, or created
    /// when absent.
    fn set_flag(&mut self, w: u64, value: bool)
        requires
            old(self).wf(),
            old(self).first_id <= w < old(self).next_id,
        ensures
            final(self).wf(),
            final(self).spec_flag_of(w) == Some(value),
            final(self).leaves == old(self).leaves,
            final(self).nodes == old(self).nodes,
            final(self).windows == old(self).windows,
            final(self).select == old(self).select,
            final(self).current_leaf == old(self).current_leaf,
            final(self).node_index == old(self).node_index,
            final(self).window_index == old(self).window_index,
            final(self).first_id == old(self).first_id,
            final(self).next_id == old(self).next_id,
            forall|x: u64| x != w ==> final(self).spec_flag_of(x) == old(self).spec_flag_of(x),
    {
        let mut i: usize = 0;
        while i < self.flags.len()
            invariant
                old(self).wf(),
                i <= self.flags@.len(),
                self == old(self),
                forall|q: int| 0 <= q < i ==> (#[trigger] self.flags@[q]).0 != w,
            decreases self.flags@.len() - i,
        {
            if self.flags[i].0 == w {
                let slot = &mut self.flags[i];
                slot.1 = value;
                proof {
                    lemma_flag_semantics(*old(self), *self, w, value, i as int, false);
                }
                return ;
            }
            i += 1;
        }
        self.flags.push((w, value));
        proof {
            lemma_flag_semantics(*old(self), *self, w, value, old(self).flags@.len() as int, true);
        }
    }

    /// Reconciles the transient tree of this frame with the session tree:
    /// when the current window is not yet loaded, or has no flag, the
    /// transient tree is grafted in and the window is marked loaded; a
    /// window already loaded leaves the tree exactly as it was.
    pub fn update(&mut self, child: Tree)
        requires
            old(self).wf(),
            child.wf(),
            old(self).next_id <= child.first_id,
        ensures
            final(self).wf(),
            !old(self).has_windows() ==> *final(self) == *old(self),
            (old(self).has_windows() && old(self).spec_flag_of(old(self).spec_current_window())
                == Some(true)) ==> *final(self) == *old(self),
            (old(self).has_windows() && old(self).spec_flag_of(old(self).spec_current_window())
                != Some(true)) ==> (final(self).leaves@ == old(self).leaves@ + child.leaves@
                && final(self).nodes@ == old(self).nodes@ + child.nodes@ && final(self).windows@
                == old(self).windows@ + child.windows@ && final(self).spec_flag_of(
                old(self).spec_current_window(),
            ) == Some(true)),
    {
        let w = match self.try_current_window() {
            Some(w) => w,
            None => {
                return ;
            },
        };
        let loaded = match self.flag_of(w) {
            Some(b) => b,
            None => false,
        };
        if !loaded {
            self.graft(child);
            self.set_flag(w, true);
        }
    }

    /// The loaded flag of the given window.
    pub fn flag_of(&self, w: u64) -> (r: Option<bool>)
        requires
            self.wf(),
        ensures
            r == self.spec_flag_of(w),
    {
        let mut i: usize = 0;
        while i < self.flags.len()
            invariant
                self.wf(),
                i <= self.flags@.len(),
                forall|q: int| 0 <= q < i ==> (#[trigger] self.flags@[q]).0 != w,
            decreases self.flags@.len() - i,
        {
            if self.flags[i].0 == w {
                proof {
                    let j = choose|j: int|
                        0 <= j < self.flags@.len() && (#[trigger] self.flags@[j]).0 == w;
                    if j < i as int {
                        assert(self.flags@[j].0 != self.flags@[i as int].0);
                    } else if j > i as int {
                        assert(self.flags@[i as int].0 != self.flags@[j].0);
                    }
                }
                return Some(self.flags[i].1);
            }
            i += 1;
        }
        None
    }
}

// What one flag write does to the flag table as a lookup.
proof fn lemma_flag_semantics(t1: Tree, t2: Tree, w: u64, value: bool, i: int, pushed: bool)
    requires
        t1.wf(),
        !pushed ==> 0 <= i < t1.flags@.len() && t1.flags@[i].0 == w && t2.flags@ == t1.flags@.update(
            i,
            (w, value),
        ),
        pushed ==> (forall|q: int| 0 <= q < t1.flags@.len() ==> (#[trigger] t1.flags@[q]).0 != w)
            && i == t1.flags@.len() && t2.flags@ == t1.flags@.push((w, value)),
    ensures
        t2.spec_flag_of(w) == Some(value),
        forall|x: u64| x != w ==> t2.spec_flag_of(x) == t1.spec_flag_of(x),
{
    assert(t2.flags@[i] == (w, value));
    assert(t2.spec_flag_of(w) == Some(value)) by {
        let j = choose|j: int| 0 <= j < t2.flags@.len() && (#[trigger] t2.flags@[j]).0 == w;
        if j != i {
            if !pushed {
                if j < i {
                    assert(t1.flags@[j].0 != t1.flags@[i].0);
                } else {
                    assert(t1.flags@[i].0 != t1.flags@[j].0);
                }
            } else {
                assert(t1.flags@[j].0 != w);
            }
        }
    }
    assert forall|x: u64| x != w implies t2.spec_flag_of(x) == t1.spec_flag_of(x) by {
        if exists|q: int| 0 <= q < t1.flags@.len() && (#[trigger] t1.flags@[q]).0 == x {
            let q = choose|q: int| 0 <= q < t1.flags@.len() && (#[trigger] t1.flags@[q]).0 == x;
            assert(t2.flags@[q].0 == x);
            let q2 = choose|q2: int| 0 <= q2 < t2.flags@.len() && (#[trigger] t2.flags@[q2]).0 == x;
            if q2 != q {
                if q2 < t1.flags@.len() && q < t1.flags@.len() {
                    if q2 < q {
                        assert(t1.flags@[q2].0 != t1.flags@[q].0);
                    } else {
                        assert(t1.flags@[q].0 != t1.flags@[q2].0);
                    }
                }
            }
            assert(t2.flags@[q2].0 == t1.flags@[q2].0);
            assert(t2.flags@[q2].1 == t1.flags@[q2].1);
        } else {
            if exists|q2: int| 0 <= q2 < t2.flags@.len() && (#[trigger] t2.flags@[q2]).0 == x {
                let q2 = choose|q2: int|
                    0 <= q2 < t2.flags@.len() && (#[trigger] t2.flags@[q2]).0 == x;
                assert(q2 < t1.flags@.len() || t2.flags@[q2].0 == w);
                assert(false);
            }
        }
    }
}

impl Tree {
    /// Whether a navigation action may be applied to the tree in its
    /// present state; actions that do not touch the tree are always
    /// allowed.
    pub open spec fn spec_act_enabled(self, act: EguiAct) -> bool {
        match act {
            EguiAct::Right => self.can_nav_nodes() && self.spec_next_node().can_nav_leaves(),
            EguiAct::Left => self.can_nav_nodes() && self.spec_previous_node().can_nav_leaves(),
            EguiAct::Up => self.can_nav_leaves(),
            EguiAct::Down => self.can_nav_leaves(),
            EguiAct::Next => self.can_nav_nodes() && self.spec_next_node().can_nav_leaves(),
            EguiAct::Previous => self.can_nav_nodes()
                && self.spec_previous_node().can_nav_leaves(),
            EguiAct::NextWindow => self.has_windows()
                && self.spec_next_window().can_nav_leaves(),
            EguiAct::PreviousWindow => self.has_windows()
                && self.spec_previous_window().can_nav_leaves(),
            EguiAct::NextRow => true,
            EguiAct::PreviousRow => true,
            EguiAct::Be => true,
        }
    }

    /// Applies one navigation action to the tree. Right and next step the
    /// node cursor forward, left and previous step it back, down and up
    /// step the leaf cursor, and the window actions step the window
    /// cursor; each then promotes the leaf it lands on to the active focus
    /// point. The row actions and the no-op leave the tree unchanged:
    /// rows belong to the table views, not to the tree.
    pub fn act(&mut self, act: &EguiAct)
        requires
            old(self).wf(),
            old(self).spec_act_enabled(*act),
        ensures
            final(self).wf(),
            *act matches EguiAct::Right ==> *final(self) == spec_select_current(
                old(self).spec_next_node(),
            ),
            *act matches EguiAct::Left ==> *final(self) == spec_select_current(
                old(self).spec_previous_node(),
            ),
            *act matches EguiAct::Up ==> spec_stepped_leaf_rel(*old(self), *final(self), false),
            *act matches EguiAct::Down ==> spec_stepped_leaf_rel(*old(self), *final(self), true),
            *act matches EguiAct::Next ==> *final(self) == spec_select_current(
                old(self).spec_next_node(),
            ),
            *act matches EguiAct::Previous ==> *final(self) == spec_select_current(
                old(self).spec_previous_node(),
            ),
            *act matches EguiAct::NextWindow ==> *final(self) == spec_select_current(
                old(self).spec_next_window(),
            ),
            *act matches EguiAct::PreviousWindow ==> *final(self) == spec_select_current(
                old(self).spec_previous_window(),
            ),
            *act matches EguiAct::NextRow ==> *final(self) == *old(self),
            *act matches EguiAct::PreviousRow ==> *final(self) == *old(self),
            *act matches EguiAct::Be ==> *final(self) == *old(self),
    {
        match act {
            EguiAct::Right => {
                let _ = self.next_node();
                self.select_current();
            },
            EguiAct::Left => {
                let _ = self.previous_node();
                self.select_current();
            },
            EguiAct::Up => self.select_previous(),
            EguiAct::Down => self.select_next(),
            EguiAct::Next => self.select_next_node(),
            EguiAct::Previous => self.select_previous_node(),
            EguiAct::NextWindow => self.select_next_window(),
            EguiAct::PreviousWindow => self.select_previous_window(),
            EguiAct::NextRow => {
            },
            EguiAct::PreviousRow => {
            },
            EguiAct::Be => {
            },
        }
    }
}

/// `k` forward steps of the node cursor over the current window's nodes.
pub open spec fn iter_tree_next_node(t: Tree, k: nat) -> Tree
    decreases k,
{
    if k == 0 {
        t
    } else {
        iter_tree_next_node(t, (k - 1) as nat).spec_next_node()
    }
}

/// `k` backward steps of the node cursor over the current window's nodes.
pub open spec fn iter_tree_previous_node(t: Tree, k: nat) -> Tree
    decreases k,
{
    if k == 0 {
        t
    } else {
        iter_tree_previous_node(t, (k - 1) as nat).spec_previous_node()
    }
}

proof fn lemma_iter_tree_next_node_shape(t: Tree, k: nat)
    requires
        t.wf(),
        t.can_nav_nodes(),
        t.spec_win_nodes().len() <= usize::MAX,
    ensures
        iter_tree_next_node(t, k) == (Tree {
            node_index: iter_step(t.node_index as int, t.spec_win_nodes().len() as int, k) as usize,
            ..t
        }),
    decreases k,
{
    if k > 0 {
        lemma_iter_tree_next_node_shape(t, (k - 1) as nat);
        lemma_iter_bounds(t.node_index as int, t.spec_win_nodes().len() as int, (k - 1) as nat);
    }
    lemma_iter_bounds(t.node_index as int, t.spec_win_nodes().len() as int, k);
}

proof fn lemma_iter_tree_previous_node_shape(t: Tree, k: nat)
    requires
        t.wf(),
        t.can_nav_nodes(),
        t.spec_win_nodes().len() <= usize::MAX,
    ensures
        iter_tree_previous_node(t, k) == (Tree {
            node_index: iter_step_back(
                t.node_index as int,
                t.spec_win_nodes().len() as int,
                k,
            ) as usize,
            ..t
        }),
    decreases k,
{
    if k > 0 {
        lemma_iter_tree_previous_node_shape(t, (k - 1) as nat);
        lemma_iter_bounds(t.node_index as int, t.spec_win_nodes().len() as int, (k - 1) as nat);
    }
    lemma_iter_bounds(t.node_index as int, t.spec_win_nodes().len() as int, k);
}

/// Cyclic closure of forward node navigation within a window: on a tree
/// whose current window holds `n >= 1` nodes, `n` calls of `next_node`
/// return the cursor to its starting value and leave the tree as it was.
pub proof fn lemma_next_node_cycles_in_window(t: Tree)
    requires
        t.wf(),
        t.can_nav_nodes(),
        t.spec_win_nodes().len() <= usize::MAX,
    ensures
        iter_tree_next_node(t, t.spec_win_nodes().len() as nat) == t,
{
    let len = t.spec_win_nodes().len() as int;
    lemma_iter_tree_next_node_shape(t, len as nat);
    lemma_iter_step(t.node_index as int, len, len as nat);
}

/// Cyclic closure of backward node navigation within a window: on a tree
/// whose current window holds `n >= 1` nodes, `n` calls of
/// `previous_node` return the cursor to its starting value and leave the
/// tree as it was.
pub proof fn lemma_previous_node_cycles_in_window(t: Tree)
    requires
        t.wf(),
        t.can_nav_nodes(),
        t.spec_win_nodes().len() <= usize::MAX,
    ensures
        iter_tree_previous_node(t, t.spec_win_nodes().len() as nat) == t,
{
    let len = t.spec_win_nodes().len() as int;
    lemma_iter_tree_previous_node_shape(t, len as nat);
    lemma_iter_step_back(t.node_index as int, len, len as nat);
}

} // verus!
