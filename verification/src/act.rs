//! The closed taxonomy of user actions: window-manager actions, interface
//! navigation actions, named-key actions, and the no-op. Every concrete
//! action has a numeric rank in one flat total order and a canonical
//! lower-case identifier used by the configuration format.
use vstd::prelude::*;

verus! {

/// Window-manager actions.
#[derive(Debug, Copy, Clone, PartialEq, Eq, Structural, Hash)]
pub enum AppAct {
    Help,
    Menu,
    Decorations,
    Fullscreen,
    Maximize,
    Minimize,
    /// The no-op.
    Be,
}

/// Interface navigation actions.
#[derive(Debug, Copy, Clone, PartialEq, Eq, Structural, Hash)]
pub enum EguiAct {
    Right,
    Left,
    Up,
    Down,
    Next,
    Previous,
    NextWindow,
    PreviousWindow,
    NextRow,
    PreviousRow,
    /// The no-op.
    Be,
}

/// Actions bound to named keys.
#[derive(Debug, Copy, Clone, PartialEq, Eq, Structural, Hash)]
pub enum NamedAct {
    Enter,
    Escape,
    ArrowLeft,
    ArrowRight,
    ArrowUp,
    ArrowDown,
    /// The no-op.
    Be,
}

/// The whole taxonomy: one variant per category, plus the no-op.
#[derive(Debug, Copy, Clone, PartialEq, Eq, Structural, Hash)]
pub enum Act {
    /// A window-manager action.
    App(AppAct),
    /// An interface navigation action.
    Egui(EguiAct),
    /// A named-key action.
    Named(NamedAct),
    /// The no-op: do nothing.
    Be,
}

impl AppAct {
    /// The rank of this action within its category.
    pub open spec fn spec_idx(self) -> usize {
        match self {
            AppAct::Help => 0,
            AppAct::Menu => 1,
            AppAct::Decorations => 2,
            AppAct::Fullscreen => 3,
            AppAct::Maximize => 4,
            AppAct::Minimize => 5,
            AppAct::Be => 6,
        }
    }

    /// The canonical lower-case identifier of this action.
    pub open spec fn spec_cmd(self) -> Seq<char> {
        match self {
            AppAct::Help => "help"@,
            AppAct::Menu => "menu"@,
            AppAct::Decorations => "decorations"@,
            AppAct::Fullscreen => "fullscreen"@,
            AppAct::Maximize => "maximize"@,
            AppAct::Minimize => "minimize"@,
            AppAct::Be => "be"@,
        }
    }

    /// The reverse lookup from a canonical identifier.
    pub open spec fn spec_from_str(s: Seq<char>) -> Option<AppAct> {
        if s == "help"@ {
            Some(AppAct::Help)
        } else if s == "menu"@ {
            Some(AppAct::Menu)
        } else if s == "decorations"@ {
            Some(AppAct::Decorations)
        } else if s == "fullscreen"@ {
            Some(AppAct::Fullscreen)
        } else if s == "maximize"@ {
            Some(AppAct::Maximize)
        } else if s == "minimize"@ {
            Some(AppAct::Minimize)
        } else if s == "be"@ {
            Some(AppAct::Be)
        } else {
            None
        }
    }

    /// Creates the default action, the no-op.
    pub fn new() -> (r: AppAct)
        ensures
            r == AppAct::Be,
    {
        AppAct::Be
    }

    /// Returns the rank of this action within its category.
    pub fn idx(&self) -> (r: usize)
        ensures
            r == self.spec_idx(),
    {
        match self {
            AppAct::Help => 0,
            AppAct::Menu => 1,
            AppAct::Decorations => 2,
            AppAct::Fullscreen => 3,
            AppAct::Maximize => 4,
            AppAct::Minimize => 5,
            AppAct::Be => 6,
        }
    }

    /// Returns the canonical lower-case identifier of this action.
    pub fn cmd(&self) -> (r: String)
        ensures
            r@ == self.spec_cmd(),
    {
        match self {
            AppAct::Help => "help".to_owned(),
            AppAct::Menu => "menu".to_owned(),
            AppAct::Decorations => "decorations".to_owned(),
            AppAct::Fullscreen => "fullscreen".to_owned(),
            AppAct::Maximize => "maximize".to_owned(),
            AppAct::Minimize => "minimize".to_owned(),
            AppAct::Be => "be".to_owned(),
        }
    }

    /// Looks an action up by its canonical identifier.
    pub fn from_str(s: &str) -> (r: Option<AppAct>)
        ensures
            r == AppAct::spec_from_str(s@),
    {
        if str_eq(s, "help") {
            Some(AppAct::Help)
        } else if str_eq(s, "menu") {
            Some(AppAct::Menu)
        } else if str_eq(s, "decorations") {
            Some(AppAct::Decorations)
        } else if str_eq(s, "fullscreen") {
            Some(AppAct::Fullscreen)
        } else if str_eq(s, "maximize") {
            Some(AppAct::Maximize)
        } else if str_eq(s, "minimize") {
            Some(AppAct::Minimize)
        } else if str_eq(s, "be") {
            Some(AppAct::Be)
        } else {
            None
        }
    }
}

impl Default for AppAct {
    fn default() -> (r: AppAct)
        ensures
            r == AppAct::Be,
    {
        AppAct::Be
    }
}

impl EguiAct {
    /// The rank of this action within its category.
    pub open spec fn spec_idx(self) -> usize {
        match self {
            EguiAct::Right => 0,
            EguiAct::Left => 1,
            EguiAct::Up => 2,
            EguiAct::Down => 3,
            EguiAct::Next => 4,
            EguiAct::Previous => 5,
            EguiAct::NextWindow => 6,
            EguiAct::PreviousWindow => 7,
            EguiAct::NextRow => 8,
            EguiAct::PreviousRow => 9,
            EguiAct::Be => 10,
        }
    }

    /// The canonical lower-case identifier of this action.
    pub open spec fn spec_cmd(self) -> Seq<char> {
        match self {
            EguiAct::Right => "right"@,
            EguiAct::Left => "left"@,
            EguiAct::Up => "up"@,
            EguiAct::Down => "down"@,
            EguiAct::Next => "next"@,
            EguiAct::Previous => "previous"@,
            EguiAct::NextWindow => "next_window"@,
            EguiAct::PreviousWindow => "previous_window"@,
            EguiAct::NextRow => "next_row"@,
            EguiAct::PreviousRow => "previous_row"@,
            EguiAct::Be => "be"@,
        }
    }

    /// The reverse lookup from a canonical identifier.
    pub open spec fn spec_from_str(s: Seq<char>) -> Option<EguiAct> {
        if s == "right"@ {
            Some(EguiAct::Right)
        } else if s == "left"@ {
            Some(EguiAct::Left)
        } else if s == "up"@ {
            Some(EguiAct::Up)
        } else if s == "down"@ {
            Some(EguiAct::Down)
        } else if s == "next"@ {
            Some(EguiAct::Next)
        } else if s == "previous"@ {
            Some(EguiAct::Previous)
        } else if s == "next_window"@ {
            Some(EguiAct::NextWindow)
        } else if s == "previous_window"@ {
            Some(EguiAct::PreviousWindow)
        } else if s == "next_row"@ {
            Some(EguiAct::NextRow)
        } else if s == "previous_row"@ {
            Some(EguiAct::PreviousRow)
        } else if s == "be"@ {
            Some(EguiAct::Be)
        } else {
            None
        }
    }

    /// Creates the default action, the no-op.
    pub fn new() -> (r: EguiAct)
        ensures
            r == EguiAct::Be,
    {
        EguiAct::Be
    }

    /// Returns the rank of this action within its category.
    pub fn idx(&self) -> (r: usize)
        ensures
            r == self.spec_idx(),
    {
        match self {
            EguiAct::Right => 0,
            EguiAct::Left => 1,
            EguiAct::Up => 2,
            EguiAct::Down => 3,
            EguiAct::Next => 4,
            EguiAct::Previous => 5,
            EguiAct::NextWindow => 6,
            EguiAct::PreviousWindow => 7,
            EguiAct::NextRow => 8,
            EguiAct::PreviousRow => 9,
            EguiAct::Be => 10,
        }
    }

    /// Returns the canonical lower-case identifier of this action.
    pub fn cmd(&self) -> (r: String)
        ensures
            r@ == self.spec_cmd(),
    {
        match self {
            EguiAct::Right => "right".to_owned(),
            EguiAct::Left => "left".to_owned(),
            EguiAct::Up => "up".to_owned(),
            EguiAct::Down => "down".to_owned(),
            EguiAct::Next => "next".to_owned(),
            EguiAct::Previous => "previous".to_owned(),
            EguiAct::NextWindow => "next_window".to_owned(),
            EguiAct::PreviousWindow => "previous_window".to_owned(),
            EguiAct::NextRow => "next_row".to_owned(),
            EguiAct::PreviousRow => "previous_row".to_owned(),
            EguiAct::Be => "be".to_owned(),
        }
    }

    /// Looks an action up by its canonical identifier.
    pub fn from_str(s: &str) -> (r: Option<EguiAct>)
        ensures
            r == EguiAct::spec_from_str(s@),
    {
        if str_eq(s, "right") {
            Some(EguiAct::Right)
        } else if str_eq(s, "left") {
            Some(EguiAct::Left)
        } else if str_eq(s, "up") {
            Some(EguiAct::Up)
        } else if str_eq(s, "down") {
            Some(EguiAct::Down)
        } else if str_eq(s, "next") {
            Some(EguiAct::Next)
        } else if str_eq(s, "previous") {
            Some(EguiAct::Previous)
        } else if str_eq(s, "next_window") {
            Some(EguiAct::NextWindow)
        } else if str_eq(s, "previous_window") {
            Some(EguiAct::PreviousWindow)
        } else if str_eq(s, "next_row") {
            Some(EguiAct::NextRow)
        } else if str_eq(s, "previous_row") {
            Some(EguiAct::PreviousRow)
        } else if str_eq(s, "be") {
            Some(EguiAct::Be)
        } else {
            None
        }
    }
}

impl Default for EguiAct {
    fn default() -> (r: EguiAct)
        ensures
            r == EguiAct::Be,
    {
        EguiAct::Be
    }
}

impl NamedAct {
    /// The rank of this action within its category.
    pub open spec fn spec_idx(self) -> usize {
        match self {
            NamedAct::Enter => 0,
            NamedAct::Escape => 1,
            NamedAct::ArrowUp => 2,
            NamedAct::ArrowDown => 3,
            NamedAct::ArrowLeft => 4,
            NamedAct::ArrowRight => 5,
            NamedAct::Be => 6,
        }
    }

    /// The canonical lower-case identifier of this action, which is also
    /// the key name that its built-in binding uses.
    pub open spec fn spec_cmd(self) -> Seq<char> {
        match self {
            NamedAct::Enter => "enter"@,
            NamedAct::Escape => "escape"@,
            NamedAct::ArrowLeft => "arrow_left"@,
            NamedAct::ArrowRight => "arrow_right"@,
            NamedAct::ArrowUp => "arrow_up"@,
            NamedAct::ArrowDown => "arrow_down"@,
            NamedAct::Be => "be"@,
        }
    }

    /// The reverse lookup from a canonical identifier.
    pub open spec fn spec_from_str(s: Seq<char>) -> Option<NamedAct> {
        if s == "enter"@ {
            Some(NamedAct::Enter)
        } else if s == "escape"@ {
            Some(NamedAct::Escape)
        } else if s == "arrow_left"@ {
            Some(NamedAct::ArrowLeft)
        } else if s == "arrow_right"@ {
            Some(NamedAct::ArrowRight)
        } else if s == "arrow_up"@ {
            Some(NamedAct::ArrowUp)
        } else if s == "arrow_down"@ {
            Some(NamedAct::ArrowDown)
        } else if s == "be"@ {
            Some(NamedAct::Be)
        } else {
            None
        }
    }

    /// Creates the default action, the no-op.
    pub fn new() -> (r: NamedAct)
        ensures
            r == NamedAct::Be,
    {
        NamedAct::Be
    }

    /// Returns the rank of this action within its category.
    pub fn idx(&self) -> (r: usize)
        ensures
            r == self.spec_idx(),
    {
        match self {
            NamedAct::Enter => 0,
            NamedAct::Escape => 1,
            NamedAct::ArrowUp => 2,
            NamedAct::ArrowDown => 3,
            NamedAct::ArrowLeft => 4,
            NamedAct::ArrowRight => 5,
            NamedAct::Be => 6,
        }
    }

    /// Returns the canonical lower-case identifier of this action.
    pub fn cmd(&self) -> (r: String)
        ensures
            r@ == self.spec_cmd(),
    {
        match self {
            NamedAct::Enter => "enter".to_owned(),
            NamedAct::Escape => "escape".to_owned(),
            NamedAct::ArrowLeft => "arrow_left".to_owned(),
            NamedAct::ArrowRight => "arrow_right".to_owned(),
            NamedAct::ArrowUp => "arrow_up".to_owned(),
            NamedAct::ArrowDown => "arrow_down".to_owned(),
            NamedAct::Be => "be".to_owned(),
        }
    }

    /// Looks an action up by its canonical identifier.
    pub fn from_str(s: &str) -> (r: Option<NamedAct>)
        ensures
            r == NamedAct::spec_from_str(s@),
    {
        if str_eq(s, "enter") {
            Some(NamedAct::Enter)
        } else if str_eq(s, "escape") {
            Some(NamedAct::Escape)
        } else if str_eq(s, "arrow_left") {
            Some(NamedAct::ArrowLeft)
        } else if str_eq(s, "arrow_right") {
            Some(NamedAct::ArrowRight)
        } else if str_eq(s, "arrow_up") {
            Some(NamedAct::ArrowUp)
        } else if str_eq(s, "arrow_down") {
            Some(NamedAct::ArrowDown)
        } else if str_eq(s, "be") {
            Some(NamedAct::Be)
        } else {
            None
        }
    }

    /// Lists every action of this category once, in rank order.
    pub fn all() -> (r: Vec<NamedAct>)
        ensures
            r@ == seq![
                NamedAct::Enter,
                NamedAct::Escape,
                NamedAct::ArrowUp,
                NamedAct::ArrowDown,
                NamedAct::ArrowLeft,
                NamedAct::ArrowRight,
                NamedAct::Be,
            ],
    {
        let mut v: Vec<NamedAct> = Vec::new();
        v.push(NamedAct::Enter);
        v.push(NamedAct::Escape);
        v.push(NamedAct::ArrowUp);
        v.push(NamedAct::ArrowDown);
        v.push(NamedAct::ArrowLeft);
        v.push(NamedAct::ArrowRight);
        v.push(NamedAct::Be);
        proof {
            assert(v@ =~= seq![
                NamedAct::Enter,
                NamedAct::Escape,
                NamedAct::ArrowUp,
                NamedAct::ArrowDown,
                NamedAct::ArrowLeft,
                NamedAct::ArrowRight,
                NamedAct::Be,
            ]);
        }
        v
    }
}

impl Default for NamedAct {
    fn default() -> (r: NamedAct)
        ensures
            r == NamedAct::Be,
    {
        NamedAct::Be
    }
}

impl Act {
    /// The rank of an action in the one flat total order: each category
    /// occupies its own band and the no-op ranks last of all.
    pub open spec fn spec_idx(self) -> usize {
        match self {
            Act::App(a) => a.spec_idx(),
            Act::Egui(a) => (a.spec_idx() + 100) as usize,
            Act::Named(a) => (a.spec_idx() + 200) as usize,
            Act::Be => 999,
        }
    }

    /// The canonical lower-case identifier of this action.
    pub open spec fn spec_cmd(self) -> Seq<char> {
        match self {
            Act::App(a) => a.spec_cmd(),
            Act::Egui(a) => a.spec_cmd(),
            Act::Named(a) => a.spec_cmd(),
            Act::Be => "be"@,
        }
    }

    /// The reverse lookup over the whole taxonomy: the categories are tried
    /// in a fixed order and a category no-op collapses to the plain no-op.
    pub open spec fn spec_from_str(s: Seq<char>) -> Option<Act> {
        if AppAct::spec_from_str(s) is Some {
            Some(Act::spec_from_app(AppAct::spec_from_str(s)->Some_0))
        } else if EguiAct::spec_from_str(s) is Some {
            Some(Act::spec_from_egui(EguiAct::spec_from_str(s)->Some_0))
        } else if NamedAct::spec_from_str(s) is Some {
            Some(Act::spec_from_named(NamedAct::spec_from_str(s)->Some_0))
        } else if s == "be"@ {
            Some(Act::Be)
        } else {
            None
        }
    }

    /// The embedding of a window-manager action, collapsing its no-op.
    pub open spec fn spec_from_app(a: AppAct) -> Act {
        if a == AppAct::Be {
            Act::Be
        } else {
            Act::App(a)
        }
    }

    /// The embedding of a navigation action, collapsing its no-op.
    pub open spec fn spec_from_egui(a: EguiAct) -> Act {
        if a == EguiAct::Be {
            Act::Be
        } else {
            Act::Egui(a)
        }
    }

    /// The embedding of a named-key action, collapsing its no-op.
    pub open spec fn spec_from_named(a: NamedAct) -> Act {
        if a == NamedAct::Be {
            Act::Be
        } else {
            Act::Named(a)
        }
    }

    /// Creates the default action, the no-op.
    pub fn new() -> (r: Act)
        ensures
            r == Act::Be,
    {
        Act::Be
    }

    /// Returns the rank of this action in the flat total order.
    pub fn idx(&self) -> (r: usize)
        ensures
            r == self.spec_idx(),
    {
        match self {
            Act::App(a) => a.idx(),
            Act::Egui(a) => a.idx() + 100,
            Act::Named(a) => a.idx() + 200,
            Act::Be => 999,
        }
    }

    /// Returns the canonical lower-case identifier of this action.
    pub fn cmd(&self) -> (r: String)
        ensures
            r@ == self.spec_cmd(),
    {
        match self {
            Act::App(a) => a.cmd(),
            Act::Egui(a) => a.cmd(),
            Act::Named(a) => a.cmd(),
            Act::Be => "be".to_owned(),
        }
    }

    /// Looks an action up by its canonical identifier, trying each category
    /// in a fixed order and the no-op token last.
    pub fn from_str(s: &str) -> (r: Option<Act>)
        ensures
            r == Act::spec_from_str(s@),
    {
        if let Some(a) = AppAct::from_str(s) {
            Some(Act::from(a))
        } else if let Some(a) = EguiAct::from_str(s) {
            Some(Act::from(a))
        } else if let Some(a) = NamedAct::from_str(s) {
            Some(Act::from(a))
        } else if str_eq(s, "be") {
            Some(Act::Be)
        } else {
            None
        }
    }
}

impl Default for Act {
    fn default() -> (r: Act)
        ensures
            r == Act::Be,
    {
        Act::Be
    }
}

impl From<AppAct> for Act {
    fn from(a: AppAct) -> (r: Act) {
        match a {
            AppAct::Be => Act::Be,
            other => Act::App(other),
        }
    }
}

impl vstd::std_specs::convert::FromSpecImpl<AppAct> for Act {
    open spec fn obeys_from_spec() -> bool {
        true
    }

    open spec fn from_spec(a: AppAct) -> Act {
        Act::spec_from_app(a)
    }
}

impl From<EguiAct> for Act {
    fn from(a: EguiAct) -> (r: Act) {
        match a {
            EguiAct::Be => Act::Be,
            other => Act::Egui(other),
        }
    }
}

impl vstd::std_specs::convert::FromSpecImpl<EguiAct> for Act {
    open spec fn obeys_from_spec() -> bool {
        true
    }

    open spec fn from_spec(a: EguiAct) -> Act {
        Act::spec_from_egui(a)
    }
}

impl From<NamedAct> for Act {
    fn from(a: NamedAct) -> (r: Act) {
        match a {
            NamedAct::Be => Act::Be,
            other => Act::Named(other),
        }
    }
}

impl vstd::std_specs::convert::FromSpecImpl<NamedAct> for Act {
    open spec fn obeys_from_spec() -> bool {
        true
    }

    open spec fn from_spec(a: NamedAct) -> Act {
        Act::spec_from_named(a)
    }
}

proof fn lemma_app_roundtrip(x: AppAct)
    ensures
        AppAct::spec_from_str(x.spec_cmd()) == Some(x),
{
    reveal_strlit("help");
    reveal_strlit("menu");
    reveal_strlit("decorations");
    reveal_strlit("fullscreen");
    reveal_strlit("maximize");
    reveal_strlit("minimize");
    reveal_strlit("right");
    reveal_strlit("left");
    reveal_strlit("up");
    reveal_strlit("down");
    reveal_strlit("next");
    reveal_strlit("previous");
    reveal_strlit("next_window");
    reveal_strlit("previous_window");
    reveal_strlit("next_row");
    reveal_strlit("previous_row");
    reveal_strlit("enter");
    reveal_strlit("escape");
    reveal_strlit("arrow_left");
    reveal_strlit("arrow_right");
    reveal_strlit("arrow_up");
    reveal_strlit("arrow_down");
    reveal_strlit("be");
    assert("help"@.len() == 4);
    assert("menu"@.len() == 4);
    assert("decorations"@.len() == 11);
    assert("fullscreen"@.len() == 10);
    assert("maximize"@.len() == 8);
    assert("minimize"@.len() == 8);
    assert("right"@.len() == 5);
    assert("left"@.len() == 4);
    assert("up"@.len() == 2);
    assert("down"@.len() == 4);
    assert("next"@.len() == 4);
    assert("previous"@.len() == 8);
    assert("next_window"@.len() == 11);
    assert("previous_window"@.len() == 15);
    assert("next_row"@.len() == 8);
    assert("previous_row"@.len() == 12);
    assert("enter"@.len() == 5);
    assert("escape"@.len() == 6);
    assert("arrow_left"@.len() == 10);
    assert("arrow_right"@.len() == 11);
    assert("arrow_up"@.len() == 8);
    assert("arrow_down"@.len() == 10);
    assert("be"@.len() == 2);
    match x {
        AppAct::Menu => {
            assert("menu"@[0] != "help"@[0]);
        },
        AppAct::Minimize => {
            assert("minimize"@[1] != "maximize"@[1]);
        },
        _ => {
        },
    }
}

proof fn lemma_egui_roundtrip(y: EguiAct)
    ensures
        EguiAct::spec_from_str(y.spec_cmd()) == Some(y),
{
    reveal_strlit("help");
    reveal_strlit("menu");
    reveal_strlit("decorations");
    reveal_strlit("fullscreen");
    reveal_strlit("maximize");
    reveal_strlit("minimize");
    reveal_strlit("right");
    reveal_strlit("left");
    reveal_strlit("up");
    reveal_strlit("down");
    reveal_strlit("next");
    reveal_strlit("previous");
    reveal_strlit("next_window");
    reveal_strlit("previous_window");
    reveal_strlit("next_row");
    reveal_strlit("previous_row");
    reveal_strlit("enter");
    reveal_strlit("escape");
    reveal_strlit("arrow_left");
    reveal_strlit("arrow_right");
    reveal_strlit("arrow_up");
    reveal_strlit("arrow_down");
    reveal_strlit("be");
    assert("help"@.len() == 4);
    assert("menu"@.len() == 4);
    assert("decorations"@.len() == 11);
    assert("fullscreen"@.len() == 10);
    assert("maximize"@.len() == 8);
    assert("minimize"@.len() == 8);
    assert("right"@.len() == 5);
    assert("left"@.len() == 4);
    assert("up"@.len() == 2);
    assert("down"@.len() == 4);
    assert("next"@.len() == 4);
    assert("previous"@.len() == 8);
    assert("next_window"@.len() == 11);
    assert("previous_window"@.len() == 15);
    assert("next_row"@.len() == 8);
    assert("previous_row"@.len() == 12);
    assert("enter"@.len() == 5);
    assert("escape"@.len() == 6);
    assert("arrow_left"@.len() == 10);
    assert("arrow_right"@.len() == 11);
    assert("arrow_up"@.len() == 8);
    assert("arrow_down"@.len() == 10);
    assert("be"@.len() == 2);
    match y {
        EguiAct::Down => {
            assert("down"@[0] != "left"@[0]);
        },
        EguiAct::Next => {
            assert("next"@[0] != "left"@[0]);
            assert("next"@[0] != "down"@[0]);
        },
        EguiAct::NextRow => {
            assert("next_row"@[0] != "previous"@[0]);
        },
        EguiAct::Be => {
            assert("be"@[0] != "up"@[0]);
        },
        _ => {
        },
    }
}

proof fn lemma_named_roundtrip(z: NamedAct)
    ensures
        NamedAct::spec_from_str(z.spec_cmd()) == Some(z),
{
    reveal_strlit("help");
    reveal_strlit("menu");
    reveal_strlit("decorations");
    reveal_strlit("fullscreen");
    reveal_strlit("maximize");
    reveal_strlit("minimize");
    reveal_strlit("right");
    reveal_strlit("left");
    reveal_strlit("up");
    reveal_strlit("down");
    reveal_strlit("next");
    reveal_strlit("previous");
    reveal_strlit("next_window");
    reveal_strlit("previous_window");
    reveal_strlit("next_row");
    reveal_strlit("previous_row");
    reveal_strlit("enter");
    reveal_strlit("escape");
    reveal_strlit("arrow_left");
    reveal_strlit("arrow_right");
    reveal_strlit("arrow_up");
    reveal_strlit("arrow_down");
    reveal_strlit("be");
    assert("help"@.len() == 4);
    assert("menu"@.len() == 4);
    assert("decorations"@.len() == 11);
    assert("fullscreen"@.len() == 10);
    assert("maximize"@.len() == 8);
    assert("minimize"@.len() == 8);
    assert("right"@.len() == 5);
    assert("left"@.len() == 4);
    assert("up"@.len() == 2);
    assert("down"@.len() == 4);
    assert("next"@.len() == 4);
    assert("previous"@.len() == 8);
    assert("next_window"@.len() == 11);
    assert("previous_window"@.len() == 15);
    assert("next_row"@.len() == 8);
    assert("previous_row"@.len() == 12);
    assert("enter"@.len() == 5);
    assert("escape"@.len() == 6);
    assert("arrow_left"@.len() == 10);
    assert("arrow_right"@.len() == 11);
    assert("arrow_up"@.len() == 8);
    assert("arrow_down"@.len() == 10);
    assert("be"@.len() == 2);
    match z {
        NamedAct::ArrowDown => {
            assert("arrow_down"@[6] != "arrow_left"@[6]);
        },
        _ => {
        },
    }
}

proof fn lemma_app_misses_egui(y: EguiAct)
    requires
        y != EguiAct::Be,
    ensures
        AppAct::spec_from_str(y.spec_cmd()) is None,
{
    reveal_strlit("help");
    reveal_strlit("menu");
    reveal_strlit("decorations");
    reveal_strlit("fullscreen");
    reveal_strlit("maximize");
    reveal_strlit("minimize");
    reveal_strlit("right");
    reveal_strlit("left");
    reveal_strlit("up");
    reveal_strlit("down");
    reveal_strlit("next");
    reveal_strlit("previous");
    reveal_strlit("next_window");
    reveal_strlit("previous_window");
    reveal_strlit("next_row");
    reveal_strlit("previous_row");
    reveal_strlit("enter");
    reveal_strlit("escape");
    reveal_strlit("arrow_left");
    reveal_strlit("arrow_right");
    reveal_strlit("arrow_up");
    reveal_strlit("arrow_down");
    reveal_strlit("be");
    assert("help"@.len() == 4);
    assert("menu"@.len() == 4);
    assert("decorations"@.len() == 11);
    assert("fullscreen"@.len() == 10);
    assert("maximize"@.len() == 8);
    assert("minimize"@.len() == 8);
    assert("right"@.len() == 5);
    assert("left"@.len() == 4);
    assert("up"@.len() == 2);
    assert("down"@.len() == 4);
    assert("next"@.len() == 4);
    assert("previous"@.len() == 8);
    assert("next_window"@.len() == 11);
    assert("previous_window"@.len() == 15);
    assert("next_row"@.len() == 8);
    assert("previous_row"@.len() == 12);
    assert("enter"@.len() == 5);
    assert("escape"@.len() == 6);
    assert("arrow_left"@.len() == 10);
    assert("arrow_right"@.len() == 11);
    assert("arrow_up"@.len() == 8);
    assert("arrow_down"@.len() == 10);
    assert("be"@.len() == 2);
    match y {
        EguiAct::Left => {
            assert("left"@[0] != "help"@[0]);
            assert("left"@[0] != "menu"@[0]);
        },
        EguiAct::Up => {
            assert("up"@[0] != "be"@[0]);
        },
        EguiAct::Down => {
            assert("down"@[0] != "help"@[0]);
            assert("down"@[0] != "menu"@[0]);
        },
        EguiAct::Next => {
            assert("next"@[0] != "help"@[0]);
            assert("next"@[0] != "menu"@[0]);
        },
        EguiAct::Previous => {
            assert("previous"@[0] != "maximize"@[0]);
            assert("previous"@[0] != "minimize"@[0]);
        },
        EguiAct::NextWindow => {
            assert("next_window"@[0] != "decorations"@[0]);
        },
        EguiAct::NextRow => {
            assert("next_row"@[0] != "maximize"@[0]);
            assert("next_row"@[0] != "minimize"@[0]);
        },
        EguiAct::Be => {
        },
        _ => {
        },
    }
}

proof fn lemma_app_egui_miss_named(z: NamedAct)
    requires
        z != NamedAct::Be,
    ensures
        AppAct::spec_from_str(z.spec_cmd()) is None,
        EguiAct::spec_from_str(z.spec_cmd()) is None,
{
    reveal_strlit("help");
    reveal_strlit("menu");
    reveal_strlit("decorations");
    reveal_strlit("fullscreen");
    reveal_strlit("maximize");
    reveal_strlit("minimize");
    reveal_strlit("right");
    reveal_strlit("left");
    reveal_strlit("up");
    reveal_strlit("down");
    reveal_strlit("next");
    reveal_strlit("previous");
    reveal_strlit("next_window");
    reveal_strlit("previous_window");
    reveal_strlit("next_row");
    reveal_strlit("previous_row");
    reveal_strlit("enter");
    reveal_strlit("escape");
    reveal_strlit("arrow_left");
    reveal_strlit("arrow_right");
    reveal_strlit("arrow_up");
    reveal_strlit("arrow_down");
    reveal_strlit("be");
    assert("help"@.len() == 4);
    assert("menu"@.len() == 4);
    assert("decorations"@.len() == 11);
    assert("fullscreen"@.len() == 10);
    assert("maximize"@.len() == 8);
    assert("minimize"@.len() == 8);
    assert("right"@.len() == 5);
    assert("left"@.len() == 4);
    assert("up"@.len() == 2);
    assert("down"@.len() == 4);
    assert("next"@.len() == 4);
    assert("previous"@.len() == 8);
    assert("next_window"@.len() == 11);
    assert("previous_window"@.len() == 15);
    assert("next_row"@.len() == 8);
    assert("previous_row"@.len() == 12);
    assert("enter"@.len() == 5);
    assert("escape"@.len() == 6);
    assert("arrow_left"@.len() == 10);
    assert("arrow_right"@.len() == 11);
    assert("arrow_up"@.len() == 8);
    assert("arrow_down"@.len() == 10);
    assert("be"@.len() == 2);
    match z {
        NamedAct::Enter => {
            assert("enter"@[0] != "right"@[0]);
        },
        NamedAct::Escape => {
        },
        NamedAct::ArrowLeft => {
            assert("arrow_left"@[0] != "fullscreen"@[0]);
        },
        NamedAct::ArrowRight => {
            assert("arrow_right"@[0] != "decorations"@[0]);
            assert("arrow_right"@[0] != "next_window"@[0]);
        },
        NamedAct::ArrowUp => {
            assert("arrow_up"@[0] != "maximize"@[0]);
            assert("arrow_up"@[0] != "minimize"@[0]);
            assert("arrow_up"@[0] != "previous"@[0]);
            assert("arrow_up"@[0] != "next_row"@[0]);
        },
        NamedAct::ArrowDown => {
            assert("arrow_down"@[0] != "fullscreen"@[0]);
        },
        NamedAct::Be => {
        },
    }
}

impl Act {
    /// Whether this action is the canonical representative of its meaning:
    /// the no-op of each category stands for the same deed as the plain
    /// no-op, and the plain no-op is its canonical form.
    pub open spec fn spec_canonical(self) -> bool {
        self != Act::App(AppAct::Be) && self != Act::Egui(EguiAct::Be) && self != Act::Named(
            NamedAct::Be,
        )
    }
}

/// Taxonomy round-trip law: looking the canonical identifier of an action
/// back up yields the action itself, for every action in canonical form.
/// The category no-ops are excluded: their identifier is the shared token
/// of the plain no-op, which is their canonical form.
pub proof fn lemma_act_string_roundtrip(a: Act)
    requires
        a.spec_canonical(),
    ensures
        Act::spec_from_str(a.spec_cmd()) == Some(a),
{
    reveal_strlit("help");
    reveal_strlit("menu");
    reveal_strlit("decorations");
    reveal_strlit("fullscreen");
    reveal_strlit("maximize");
    reveal_strlit("minimize");
    reveal_strlit("right");
    reveal_strlit("left");
    reveal_strlit("up");
    reveal_strlit("down");
    reveal_strlit("next");
    reveal_strlit("previous");
    reveal_strlit("next_window");
    reveal_strlit("previous_window");
    reveal_strlit("next_row");
    reveal_strlit("previous_row");
    reveal_strlit("enter");
    reveal_strlit("escape");
    reveal_strlit("arrow_left");
    reveal_strlit("arrow_right");
    reveal_strlit("arrow_up");
    reveal_strlit("arrow_down");
    reveal_strlit("be");
    assert("help"@.len() == 4);
    assert("menu"@.len() == 4);
    assert("decorations"@.len() == 11);
    assert("fullscreen"@.len() == 10);
    assert("maximize"@.len() == 8);
    assert("minimize"@.len() == 8);
    assert("right"@.len() == 5);
    assert("left"@.len() == 4);
    assert("up"@.len() == 2);
    assert("down"@.len() == 4);
    assert("next"@.len() == 4);
    assert("previous"@.len() == 8);
    assert("next_window"@.len() == 11);
    assert("previous_window"@.len() == 15);
    assert("next_row"@.len() == 8);
    assert("previous_row"@.len() == 12);
    assert("enter"@.len() == 5);
    assert("escape"@.len() == 6);
    assert("arrow_left"@.len() == 10);
    assert("arrow_right"@.len() == 11);
    assert("arrow_up"@.len() == 8);
    assert("arrow_down"@.len() == 10);
    assert("be"@.len() == 2);
    match a {
        Act::App(x) => {
            lemma_app_roundtrip(x);
        },
        Act::Egui(y) => {
            lemma_app_misses_egui(y);
            lemma_egui_roundtrip(y);
        },
        Act::Named(z) => {
            lemma_app_egui_miss_named(z);
            lemma_named_roundtrip(z);
        },
        Act::Be => {
        },
    }
}

/// Case-sensitive string comparison by characters.
pub(crate) fn str_eq(s: &str, t: &str) -> (r: bool)
    ensures
        r == (s@ == t@),
{
    let n = s.unicode_len();
    if n != t.unicode_len() {
        return false;
    }
    let mut k: usize = 0;
    while k < n
        invariant
            k <= n,
            n == s@.len(),
            n == t@.len(),
            forall|q: int| 0 <= q < k ==> s@[q] == t@[q],
        decreases n - k,
    {
        if s.get_char(k) != t.get_char(k) {
            return false;
        }
        k += 1;
    }
    proof {
        assert(s@ =~= t@);
    }
    true
}

} // verus!
