//! Tests of the focus tree: arena construction, cyclic navigation at each
//! level, one-shot focus, grafting and per-frame reconciliation.
use ams::act::EguiAct;
use ams::focus::Tree;

/// One window with one node and the given widget handles as leaves;
/// returns the tree and the node's identifier.
fn tree_with_leaves(handles: &[u64]) -> (Tree, u64) {
    let mut tree = Tree::new();
    let (node, _index) = tree.with_new_window();
    for h in handles {
        let _ = tree.with_new_leaf(node, *h);
    }
    (tree, node)
}

#[test]
fn next_leaf_wraps_around() {
    let (mut tree, _node) = tree_with_leaves(&[10, 11, 12]);
    let first = tree.next_leaf().unwrap();
    let second = tree.next_leaf().unwrap();
    let third = tree.next_leaf().unwrap();
    // The cursor started on the first leaf, so three steps cycle back.
    let again = tree.next_leaf().unwrap();
    assert_eq!(again, first);
    assert_ne!(first, second);
    assert_ne!(second, third);
}

#[test]
fn cursor_at_last_leaf_steps_to_first() {
    let (mut tree, _node) = tree_with_leaves(&[10, 11, 12]);
    let l0 = tree.current_leaf().unwrap();
    let _ = tree.next_leaf();
    let _ = tree.next_leaf();
    // Now at the third leaf; the next step must wrap to the first.
    let wrapped = tree.next_leaf().unwrap();
    assert_eq!(wrapped, l0);
}

#[test]
fn leaf_cycle_restores_the_tree() {
    let (mut tree, _node) = tree_with_leaves(&[7, 8, 9]);
    let before = tree.clone();
    for _ in 0..3 {
        let _ = tree.next_leaf();
    }
    assert_eq!(tree, before);
    for _ in 0..3 {
        let _ = tree.previous_leaf();
    }
    assert_eq!(tree, before);
}

#[test]
fn window_navigation_does_not_wrap_early() {
    let mut tree = Tree::new();
    let (_n0, _i0) = tree.with_new_window();
    let (_n1, _i1) = tree.with_new_window();
    let w0 = tree.windows[0];
    let w1 = tree.windows[1];
    assert_eq!(tree.current_window(), w0);

    let next = tree.next_window();
    assert_eq!(next, w1);
    // From the second of two windows, stepping back returns to the first,
    // and stepping forward again reaches the second: no bad wraparound.
    let back = tree.previous_window();
    assert_eq!(back, w0);
    let forward = tree.next_window();
    assert_eq!(forward, w1);
}

#[test]
fn window_cycle_restores_the_cursor() {
    let mut tree = Tree::new();
    for _ in 0..3 {
        let _ = tree.with_new_window();
    }
    let start = tree.window_index();
    for _ in 0..3 {
        let _ = tree.next_window();
    }
    assert_eq!(tree.window_index(), start);
}

#[test]
fn single_window_cycles_to_itself() {
    let mut tree = Tree::new();
    let (_n, _i) = tree.with_new_window();
    let w = tree.current_window();
    assert_eq!(tree.next_window(), w);
    assert_eq!(tree.previous_window(), w);
}

#[test]
fn one_shot_focus() {
    let mut tree = Tree::new();
    tree.select(42);
    assert_eq!(tree.selected(), Some(42));
    assert!(tree.in_focus(&42));
    assert!(!tree.in_focus(&41));

    assert!(!tree.take_focus(&41));
    assert_eq!(tree.selected(), Some(42));
    assert!(tree.take_focus(&42));
    assert_eq!(tree.selected(), None);
    assert!(!tree.take_focus(&42));
}

#[test]
fn graft_concatenates_arenas() {
    let mut session = Tree::new();
    let (node, _i) = session.with_new_window();
    let _ = session.with_new_leaf(node, 100);

    let mut frame = session.branch();
    let (fnode, _fi) = frame.with_new_window();
    let _ = frame.with_new_leaf(fnode, 200);

    let leaves_before = session.leaves.len();
    let nodes_before = session.nodes.len();
    let windows_before = session.windows.len();
    session.graft(frame);
    assert_eq!(session.leaves.len(), leaves_before + 1);
    assert_eq!(session.nodes.len(), nodes_before + 1);
    assert_eq!(session.windows.len(), windows_before + 1);

    // Every identifier is still unique after the graft.
    for i in 0..session.nodes.len() {
        for j in (i + 1)..session.nodes.len() {
            assert_ne!(session.nodes[i].id, session.nodes[j].id);
        }
    }
}

#[test]
fn update_grafts_once_and_marks_loaded() {
    let mut session = Tree::new();
    let (node, _i) = session.with_new_window();
    let _ = session.with_new_leaf(node, 100);
    let w = session.current_window();
    assert_eq!(session.flag_of(w), Some(false));

    let mut frame = session.branch();
    let fnode = frame.node();
    let _ = frame.with_new_leaf(fnode, 200);
    let nodes_before = session.nodes.len();
    session.update(frame);
    assert_eq!(session.flag_of(w), Some(true));
    assert_eq!(session.nodes.len(), nodes_before + 1);
}

#[test]
fn update_on_a_loaded_window_is_a_noop() {
    let mut session = Tree::new();
    let (node, _i) = session.with_new_window();
    let _ = session.with_new_leaf(node, 100);
    let first = session.branch();
    session.update(first);

    let mut second = session.branch();
    let snode = second.node();
    let _ = second.with_new_leaf(snode, 300);
    let before = session.clone();
    session.update(second);
    assert_eq!(session, before);
}

#[test]
fn act_down_selects_the_next_leaf() {
    let (mut tree, _node) = tree_with_leaves(&[10, 11, 12]);
    tree.act(&EguiAct::Down);
    // The cursor moved off the first leaf onto the second, whose widget
    // handle becomes the pending selection.
    assert_eq!(tree.selected(), Some(11));
    tree.act(&EguiAct::Up);
    assert_eq!(tree.selected(), Some(10));
}

#[test]
fn act_noops_leave_the_tree_alone() {
    let (mut tree, _node) = tree_with_leaves(&[10]);
    let before = tree.clone();
    tree.act(&EguiAct::Be);
    tree.act(&EguiAct::NextRow);
    tree.act(&EguiAct::PreviousRow);
    assert_eq!(tree, before);
}

#[test]
fn select_window_moves_the_cursor() {
    let mut tree = Tree::new();
    let (_n0, _i0) = tree.with_new_window();
    let (_n1, _i1) = tree.with_new_window();
    let w1 = tree.windows[1];
    tree.select_window(&w1);
    assert_eq!(tree.current_window(), w1);
    let before = tree.clone();
    tree.select_window(&9999);
    assert_eq!(tree, before);
}

#[test]
fn get_window_lists_only_that_windows_nodes() {
    let mut tree = Tree::new();
    let (n0, _i0) = tree.with_new_window();
    let w0 = tree.windows[0];
    let (n1, _i1) = tree.with_new_window();
    let w1 = tree.windows[1];
    assert_eq!(tree.get_window(w0), vec![n0]);
    assert_eq!(tree.get_window(w1), vec![n1]);
}

#[test]
fn current_leaf_id_maps_back_to_the_widget_handle() {
    let (tree, _node) = tree_with_leaves(&[55, 66]);
    assert_eq!(tree.current_leaf_id(), Some(55));
}

#[test]
fn try_current_window_guards_the_empty_tree() {
    let tree = Tree::new();
    assert_eq!(tree.try_current_window(), None);
    let mut tree = Tree::new();
    let (_n, _i) = tree.with_new_window();
    assert!(tree.try_current_window().is_some());
}

#[test]
fn node_cycle_within_a_window() {
    let mut tree = Tree::new();
    let (_n0, _i) = tree.with_new_window();
    let w = tree.current_window();
    // A second and third node bound to the same window.
    let n1 = tree.node();
    tree.with_window(n1, w);
    let n2 = tree.node();
    tree.with_window(n2, w);
    assert_eq!(tree.get_window(w).len(), 3);

    let before = tree.clone();
    for _ in 0..3 {
        let _ = tree.next_node();
    }
    assert_eq!(tree, before);
    for _ in 0..3 {
        let _ = tree.previous_node();
    }
    assert_eq!(tree, before);

    let first = tree.current_node();
    let second = tree.next_node();
    assert_ne!(first, second);
}
