//! Tests of the choice tables, the configuration build, resolution and
//! the dispatcher's mode transitions.
use ams::act::{Act, AppAct, EguiAct, NamedAct};
use ams::choices::{
    ChoiceMap, Choices, CommandGroup, CommandMode, CommandOptions, ConfigDoc, GroupDef, Resolution,
};
use ams::command::{Command, Modifiers};
use ams::dispatch::Dispatcher;

fn cmd(s: &str) -> Command {
    Command::parse_cmd(s).unwrap()
}

fn demo_doc() -> ConfigDoc {
    ConfigDoc {
        groups: vec![(
            "window".to_string(),
            GroupDef {
                name: Some("Window".to_string()),
                binding: Some("w".to_string()),
                help: Some("Window commands".to_string()),
            },
        )],
        commands: vec![
            (
                "normal".to_string(),
                vec![
                    ("<Cr> + f".to_string(), "fullscreen".to_string()),
                    ("<Cr> + h".to_string(), "help".to_string()),
                ],
            ),
            (
                "window".to_string(),
                vec![
                    ("m".to_string(), "maximize".to_string()),
                    ("n".to_string(), "minimize".to_string()),
                ],
            ),
        ],
    }
}

#[test]
fn insert_is_last_write_wins() {
    let mut choices = Choices::new();
    choices.insert(cmd("j"), CommandOptions::Acts(vec![Act::Egui(EguiAct::Down)]));
    choices.insert(cmd("j"), CommandOptions::Acts(vec![Act::Egui(EguiAct::Up)]));
    let got = choices.get(&cmd("j")).unwrap();
    assert_eq!(*got, CommandOptions::Acts(vec![Act::Egui(EguiAct::Up)]));
}

#[test]
fn named_bindings_are_installed() {
    let mut choices = Choices::new();
    choices.named();
    let none = Modifiers::new();
    let enter = Command::with_modifier("enter", &none);
    assert_eq!(
        *choices.get(&enter).unwrap(),
        CommandOptions::Acts(vec![Act::Named(NamedAct::Enter)])
    );
    let be = Command::with_modifier("be", &none);
    assert_eq!(*choices.get(&be).unwrap(), CommandOptions::Acts(vec![Act::Be]));
}

#[test]
fn from_entries_drops_bad_entries() {
    let entries = vec![
        ("<Cr> + f".to_string(), "fullscreen".to_string()),
        ("<Cr> + ".to_string(), "help".to_string()),
        ("x".to_string(), "no_such_act".to_string()),
        ("y".to_string(), "left".to_string()),
    ];
    let choices = Choices::from_entries(&entries);
    assert!(choices.get(&cmd("<Cr> + f")).is_some());
    assert!(choices.get(&cmd("y")).is_some());
    assert!(choices.get(&cmd("x")).is_none());
    assert_eq!(choices.0.len(), 2);
}

#[test]
fn group_definition_needs_all_fields() {
    let whole = GroupDef {
        name: Some("Window".to_string()),
        binding: Some("w".to_string()),
        help: Some("Window commands".to_string()),
    };
    let g = CommandGroup::from_def("window", &whole).unwrap();
    assert_eq!(g.id, "window");
    assert_eq!(g.name(), "Window");
    assert_eq!(g.binding, cmd("w"));
    assert_eq!(g.help, "Window commands");

    let missing_help = GroupDef { help: None, ..whole_clone(&whole) };
    assert!(CommandGroup::from_def("window", &missing_help).is_none());

    let bad_binding = GroupDef { binding: Some("<Cr> + ".to_string()), ..whole_clone(&whole) };
    assert!(CommandGroup::from_def("window", &bad_binding).is_none());
}

fn whole_clone(d: &GroupDef) -> GroupDef {
    GroupDef { name: d.name.clone(), binding: d.binding.clone(), help: d.help.clone() }
}

#[test]
fn group_row_ids_do_not_affect_equality() {
    let def = GroupDef {
        name: Some("Window".to_string()),
        binding: Some("w".to_string()),
        help: Some("Window commands".to_string()),
    };
    let a = CommandGroup::from_def("window", &def).unwrap();
    let b = CommandGroup::from_def("window", &def).unwrap();
    assert_eq!(a, b);
}

#[test]
fn empty_document_yields_builtins_only() {
    let map = ChoiceMap::from_doc(&ConfigDoc::default());
    let normal = map.get("normal").unwrap();
    let none = Modifiers::new();
    let left = Command::with_modifier("arrow_left", &none);
    assert_eq!(
        *normal.get(&left).unwrap(),
        CommandOptions::Acts(vec![Act::Named(NamedAct::ArrowLeft)])
    );
    assert!(map.get("window").is_none());
}

#[test]
fn fullscreen_resolves_and_mode_resets() {
    let map = ChoiceMap::from_doc(&demo_doc());
    let r = map.resolve("normal", &cmd("<Cr> + f"));
    assert_eq!(r, Resolution::Run(vec![Act::App(AppAct::Fullscreen)]));

    let mut d = Dispatcher::new(CommandMode::with_map(map));
    let r = d.dispatch(&cmd("<Cr> + f"));
    assert_eq!(r, Resolution::Run(vec![Act::App(AppAct::Fullscreen)]));
    assert_eq!(d.command_key, "normal");
}

#[test]
fn group_switches_mode_and_run_returns_to_normal() {
    let map = ChoiceMap::from_doc(&demo_doc());
    let mut d = Dispatcher::new(CommandMode::with_map(map));

    let r = d.dispatch(&cmd("w"));
    assert_eq!(r, Resolution::SwitchMode("window".to_string()));
    assert_eq!(d.command_key, "window");

    let r = d.dispatch(&cmd("m"));
    assert_eq!(r, Resolution::Run(vec![Act::App(AppAct::Maximize)]));
    assert_eq!(d.command_key, "normal");
}

#[test]
fn unrecognized_leaves_mode_unchanged() {
    let map = ChoiceMap::from_doc(&demo_doc());
    let mut d = Dispatcher::new(CommandMode::with_map(map));
    let _ = d.dispatch(&cmd("w"));
    assert_eq!(d.command_key, "window");

    let r = d.dispatch(&cmd("<Cr> + q"));
    assert_eq!(r, Resolution::Unrecognized);
    assert_eq!(d.command_key, "window");
}

#[test]
fn unknown_mode_is_unrecognized() {
    let map = ChoiceMap::from_doc(&demo_doc());
    assert_eq!(map.resolve("no_such_mode", &cmd("m")), Resolution::Unrecognized);
}

#[test]
fn resolution_is_pure() {
    let map = ChoiceMap::from_doc(&demo_doc());
    let first = map.resolve("normal", &cmd("<Cr> + h"));
    let second = map.resolve("normal", &cmd("<Cr> + h"));
    assert_eq!(first, second);
    assert_eq!(first, Resolution::Run(vec![Act::App(AppAct::Help)]));
}

#[test]
fn group_without_mode_table_is_not_registered() {
    let mut doc = demo_doc();
    doc.groups.push((
        "orphan".to_string(),
        GroupDef {
            name: Some("Orphan".to_string()),
            binding: Some("o".to_string()),
            help: Some("No table".to_string()),
        },
    ));
    let map = ChoiceMap::from_doc(&doc);
    assert_eq!(map.resolve("normal", &cmd("o")), Resolution::Unrecognized);
    match map.resolve("normal", &cmd("w")) {
        Resolution::SwitchMode(id) => assert_eq!(id, "window"),
        other => panic!("expected a mode switch, got {other:?}"),
    }
}

#[test]
fn config_entries_override_builtins() {
    let doc = ConfigDoc {
        groups: vec![],
        commands: vec![(
            "normal".to_string(),
            vec![("enter".to_string(), "next".to_string())],
        )],
    };
    let map = ChoiceMap::from_doc(&doc);
    let none = Modifiers::new();
    let enter = Command::with_modifier("enter", &none);
    assert_eq!(
        map.resolve("normal", &enter),
        Resolution::Run(vec![Act::Egui(EguiAct::Next)])
    );
}

#[test]
fn with_act_appends_only_to_action_lists() {
    let mut opts = CommandOptions::Acts(vec![Act::Be]);
    opts.with_act(Act::Egui(EguiAct::Down));
    assert_eq!(opts, CommandOptions::Acts(vec![Act::Be, Act::Egui(EguiAct::Down)]));
    assert_eq!(opts.idx(), 999);
}
