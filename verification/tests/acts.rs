//! Tests of the action taxonomy: ranks, canonical identifiers, and the
//! string round trip.
use ams::act::{Act, AppAct, EguiAct, NamedAct};

#[test]
fn defaults_are_the_noop() {
    assert_eq!(Act::new(), Act::Be);
    assert_eq!(AppAct::new(), AppAct::Be);
    assert_eq!(EguiAct::new(), EguiAct::Be);
    assert_eq!(NamedAct::new(), NamedAct::Be);
}

#[test]
fn ranks_are_banded() {
    assert_eq!(AppAct::Help.idx(), 0);
    assert_eq!(AppAct::Minimize.idx(), 5);
    assert_eq!(EguiAct::Right.idx(), 0);
    assert_eq!(EguiAct::PreviousRow.idx(), 9);
    assert_eq!(NamedAct::Enter.idx(), 0);
    assert_eq!(Act::App(AppAct::Fullscreen).idx(), 3);
    assert_eq!(Act::Egui(EguiAct::Right).idx(), 100);
    assert_eq!(Act::Named(NamedAct::ArrowUp).idx(), 202);
    assert_eq!(Act::Be.idx(), 999);
}

#[test]
fn noop_ranks_last_of_all() {
    let all = [
        Act::App(AppAct::Minimize),
        Act::Egui(EguiAct::PreviousRow),
        Act::Named(NamedAct::ArrowRight),
    ];
    for a in all {
        assert!(a.idx() < Act::Be.idx());
    }
}

#[test]
fn named_identifiers() {
    assert_eq!(NamedAct::Enter.cmd(), "enter");
    assert_eq!(NamedAct::Escape.cmd(), "escape");
    assert_eq!(NamedAct::ArrowLeft.cmd(), "arrow_left");
    assert_eq!(NamedAct::ArrowRight.cmd(), "arrow_right");
    assert_eq!(NamedAct::ArrowUp.cmd(), "arrow_up");
    assert_eq!(NamedAct::ArrowDown.cmd(), "arrow_down");
    assert_eq!(NamedAct::Be.cmd(), "be");
}

#[test]
fn identifier_round_trip_for_every_canonical_action() {
    let mut acts: Vec<Act> = vec![Act::Be];
    for a in [
        AppAct::Help,
        AppAct::Menu,
        AppAct::Decorations,
        AppAct::Fullscreen,
        AppAct::Maximize,
        AppAct::Minimize,
    ] {
        acts.push(Act::App(a));
    }
    for a in [
        EguiAct::Right,
        EguiAct::Left,
        EguiAct::Up,
        EguiAct::Down,
        EguiAct::Next,
        EguiAct::Previous,
        EguiAct::NextWindow,
        EguiAct::PreviousWindow,
        EguiAct::NextRow,
        EguiAct::PreviousRow,
    ] {
        acts.push(Act::Egui(a));
    }
    for a in [
        NamedAct::Enter,
        NamedAct::Escape,
        NamedAct::ArrowLeft,
        NamedAct::ArrowRight,
        NamedAct::ArrowUp,
        NamedAct::ArrowDown,
    ] {
        acts.push(Act::Named(a));
    }
    for a in acts {
        let token = a.cmd();
        assert_eq!(Act::from_str(&token), Some(a), "round trip failed for {token}");
    }
}

#[test]
fn category_noop_collapses_to_the_plain_noop() {
    assert_eq!(Act::from(AppAct::Be), Act::Be);
    assert_eq!(Act::from(EguiAct::Be), Act::Be);
    assert_eq!(Act::from(NamedAct::Be), Act::Be);
    assert_eq!(Act::from_str("be"), Some(Act::Be));
}

#[test]
fn unknown_identifier_is_refused() {
    assert_eq!(Act::from_str("warp"), None);
    assert_eq!(AppAct::from_str("Help"), None);
    assert_eq!(EguiAct::from_str(""), None);
}

#[test]
fn all_named_acts_in_rank_order() {
    let all = NamedAct::all();
    assert_eq!(all.len(), 7);
    for (k, a) in all.iter().enumerate() {
        assert_eq!(a.idx(), k);
    }
}

#[test]
fn named_acts_bind_under_their_own_key_names() {
    let c = ams::command::Command::from_named(&NamedAct::ArrowDown);
    assert_eq!(c.key, "arrow_down");
    assert!(c.mods.is_none());
}
