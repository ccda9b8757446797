//! Tests of the binding grammar: parsing, display and the round trip.
use ams::command::{Command, Modifiers, ParseError};

fn mods(shift: bool, control: bool, alt: bool, sup: bool) -> Modifiers {
    Modifiers { shift_key: shift, control_key: control, alt_key: alt, super_key: sup }
}

#[test]
fn control_binding_parses() {
    let c = Command::parse_cmd("<Cr> + j").unwrap();
    assert_eq!(c.key, "j");
    assert_eq!(c.mods, mods(false, true, false, false));
    assert_eq!(c.to_string(), "<Cr> + j");
}

#[test]
fn uppercase_key_implies_shift() {
    let c = Command::parse_cmd("J").unwrap();
    assert_eq!(c.key, "J");
    assert_eq!(c.mods, mods(true, false, false, false));
}

#[test]
fn digit_key_counts_as_uppercase() {
    // A digit is identical to its upper-cased form, so the implicit-shift
    // rule fires for it too.
    let c = Command::parse_cmd("3").unwrap();
    assert_eq!(c.key, "3");
    assert!(c.mods.shift_key);
}

#[test]
fn plain_lowercase_key() {
    let c = Command::parse_cmd("k").unwrap();
    assert_eq!(c.key, "k");
    assert!(c.mods.is_none());
    assert_eq!(c.to_string(), "k");
}

#[test]
fn modifier_vocabulary() {
    assert_eq!(Command::into_mods("cr"), Some(mods(false, true, false, false)));
    assert_eq!(Command::into_mods("control"), Some(mods(false, true, false, false)));
    assert_eq!(Command::into_mods("alt"), Some(mods(false, false, true, false)));
    assert_eq!(Command::into_mods("shift"), Some(mods(true, false, false, false)));
    assert_eq!(Command::into_mods("super"), Some(mods(false, false, false, true)));
    assert_eq!(Command::into_mods("Cr"), Some(mods(false, true, false, false)));
    assert_eq!(Command::into_mods("SHIFT"), Some(mods(true, false, false, false)));
    assert_eq!(Command::into_mods("meta"), None);
}

#[test]
fn several_modifiers_union() {
    let c = Command::parse_cmd("<Cr> + <Alt> + x").unwrap();
    assert_eq!(c.key, "x");
    assert_eq!(c.mods, mods(false, true, true, false));
}

#[test]
fn whitespace_is_flexible() {
    let c = Command::parse_cmd("  <alt>+ x ").unwrap();
    assert_eq!(c.key, "x");
    assert_eq!(c.mods, mods(false, false, true, false));
}

#[test]
fn unknown_bracketed_token_contributes_nothing() {
    let c = Command::parse_cmd("<meta> + j").unwrap();
    assert_eq!(c.key, "j");
    assert!(c.mods.is_none());
}

#[test]
fn missing_key_is_an_error() {
    assert_eq!(Command::parse_cmd(""), Err(ParseError::MissingKey));
    assert_eq!(Command::parse_cmd("<Cr> + "), Err(ParseError::MissingKey));
    assert_eq!(Command::parse_cmd("   "), Err(ParseError::MissingKey));
}

#[test]
fn display_round_trips_through_parse() {
    for s in ["<Cr> + j", "<Shift> + <Cr> + k", "J", "<Super> + <Alt> + q", "plain9"] {
        let c = Command::parse_cmd(s).unwrap();
        let shown = c.to_string();
        let again = Command::parse_cmd(&shown).unwrap();
        assert_eq!(c, again, "round trip failed for {s}: shown as {shown}");
    }
}

#[test]
fn super_binding_displays_and_round_trips() {
    let c = Command::parse_cmd("<super> + m").unwrap();
    assert_eq!(c.to_string(), "<Super> + m");
    assert_eq!(Command::parse_cmd(&c.to_string()).unwrap(), c);
}

#[test]
fn modifiers_union_and_none() {
    let mut m = Modifiers::new();
    assert!(m.is_none());
    m.and(&mods(true, false, false, false));
    m.and(&mods(false, false, true, false));
    assert_eq!(m, mods(true, false, true, false));
    assert!(!m.is_none());
}

#[test]
fn command_act_matches_trigger() {
    let a = Command::with_modifier("j", &mods(false, true, false, false));
    let b = Command::parse_cmd("<Cr> + j").unwrap();
    assert!(a.act(&b));
    let c = Command::parse_cmd("j").unwrap();
    assert!(!a.act(&c));
}

#[test]
fn trailing_text_after_key_is_ignored() {
    let c = Command::parse_cmd("<Cr> + j extra").unwrap();
    assert_eq!(c.key, "j");
    assert_eq!(c.mods, mods(false, true, false, false));
}

#[test]
fn modifier_prefix_text() {
    let m = mods(true, true, false, true);
    assert_eq!(m.to_string(), "<Super> + <Cr> + <Shift> + ");
    assert_eq!(Modifiers::new().to_string(), "");
}
