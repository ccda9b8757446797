//! The mode tables of the dispatch engine: named groups, per-mode choice
//! tables, and the resolution of a command against the table of the current
//! mode.
use crate::act::{Act, NamedAct};
use crate::command::{Command, CommandView, Modifiers};
use vstd::prelude::*;

verus! {

/// The mathematical value of a [`CommandGroup`]. The display-only row
/// identifier is no part of it: two groups that differ only there are the
/// same group.
pub ghost struct GroupView {
    pub id: Seq<char>,
    pub name: Seq<char>,
    pub binding: CommandView,
    pub help: Seq<char>,
}

/// Names a user-defined group of bindings: a selectable sub-mode.
#[derive(Debug)]
pub struct CommandGroup {
    /// The identifier of the group in the configuration document, which is
    /// also the name of the mode it switches to.
    pub id: String,
    /// Display name for the command window.
    pub name: String,
    /// Trigger associated with the group.
    pub binding: Command,
    /// Intended for hover or reader descriptions.
    pub help: String,
    /// A process-unique identifier used only for table display, never for
    /// equality.
    pub row_id: uuid::Uuid,
}

impl View for CommandGroup {
    type V = GroupView;

    open spec fn view(&self) -> GroupView {
        GroupView { id: self.id@, name: self.name@, binding: self.binding@, help: self.help@ }
    }
}

#[verifier::external_type_specification]
#[verifier::external_body]
pub struct ExUuid(uuid::Uuid);

/// Relies on uuid::Uuid::new_v4: a freshly drawn random version-4 identifier.
/// Nothing is promised of its value; no contract of this crate depends on it.
#[verifier::external_body]
fn new_row_id() -> uuid::Uuid {
    uuid::Uuid::new_v4()
}

/// The raw fields of one group entry of the configuration document, before
/// validation; absent fields are `None`.
#[derive(Debug, Default)]
pub struct GroupDef {
    /// Display name for the command window.
    pub name: Option<String>,
    /// The binding string, still unparsed.
    pub binding: Option<String>,
    /// Help text for hover or reader descriptions.
    pub help: Option<String>,
}

impl CommandGroup {
    /// Validates one group entry of the configuration document: the entry
    /// makes a group exactly when all three fields are present and the
    /// binding string parses.
    pub fn from_def(id: &str, def: &GroupDef) -> (r: Option<CommandGroup>)
        ensures
            r is Some <==> (def.name is Some && def.help is Some && def.binding is Some
                && crate::command::spec_parse_cmd(def.binding->Some_0@) is Some),
            r is Some ==> ({
                let g = r->Some_0;
                let c = crate::command::spec_parse_cmd(def.binding->Some_0@)->Some_0;
                g.id@ == id@ && g.name@ == def.name->Some_0@ && g.help@ == def.help->Some_0@
                    && g.binding@.key == c.0 && g.binding@.mods == c.1
            }),
    {
        let name = match &def.name {
            Some(n) => n.clone(),
            None => {
                return None;
            },
        };
        let help = match &def.help {
            Some(h) => h.clone(),
            None => {
                return None;
            },
        };
        let binding_text = match &def.binding {
            Some(b) => b,
            None => {
                return None;
            },
        };
        match Command::parse_cmd(binding_text.as_str()) {
            Ok(binding) => Some(
                CommandGroup {
                    id: id.to_owned(),
                    name,
                    binding,
                    help,
                    row_id: new_row_id(),
                },
            ),
            Err(_) => None,
        }
    }

    /// Returns the display name of the group.
    pub fn name(&self) -> (r: String)
        ensures
            r@ == self.name@,
    {
        self.name.clone()
    }
}

impl Clone for CommandGroup {
    /// Copies the group; the copy carries the same row identifier.
    fn clone(&self) -> (r: CommandGroup)
        ensures
            r@ == self@,
    {
        CommandGroup {
            id: self.id.clone(),
            name: self.name.clone(),
            binding: Command { key: self.binding.key.clone(), mods: self.binding.mods },
            help: self.help.clone(),
            row_id: self.row_id,
        }
    }
}

impl PartialEq for CommandGroup {
    /// Groups are compared by their mathematical value; the display-only
    /// row identifier does not take part.
    fn eq(&self, other: &CommandGroup) -> (r: bool) {
        self.id == other.id && self.name == other.name && self.binding == other.binding
            && self.help == other.help
    }
}

impl Eq for CommandGroup {

}

impl vstd::std_specs::cmp::PartialEqSpecImpl for CommandGroup {
    open spec fn obeys_eq_spec() -> bool {
        true
    }

    open spec fn eq_spec(&self, other: &CommandGroup) -> bool {
        self@ == other@
    }
}

/// The mathematical value of a [`CommandOptions`].
pub ghost enum OptView {
    Commands(GroupView),
    Acts(Seq<Act>),
}

/// What one command maps to within a mode: either a nested group, which
/// switches the mode, or a list of actions to run at once.
#[derive(Debug)]
pub enum CommandOptions {
    /// A nested group: resolving here switches the mode to the group's id.
    Commands(CommandGroup),
    /// An ordered list of actions to run.
    Acts(Vec<Act>),
}

impl View for CommandOptions {
    type V = OptView;

    open spec fn view(&self) -> OptView {
        match self {
            CommandOptions::Commands(g) => OptView::Commands(g@),
            CommandOptions::Acts(a) => OptView::Acts(a@),
        }
    }
}

impl CommandOptions {
    /// The rank of an outcome: an action list ranks by its first action,
    /// and a group ranks above every action list.
    pub open spec fn spec_idx(self) -> usize {
        match self {
            CommandOptions::Acts(acts) => acts[0].spec_idx(),
            CommandOptions::Commands(_) => 1000,
        }
    }

    /// Appends one action to an action list; a group is left unchanged.
    pub fn with_act(&mut self, act: Act)
        ensures
            old(self)@ matches OptView::Acts(a) ==> final(self)@ == OptView::Acts(a.push(act)),
            old(self)@ matches OptView::Commands(_) ==> *final(self) == *old(self),
    {
        match self {
            CommandOptions::Commands(_) => {
            },
            CommandOptions::Acts(acts) => {
                acts.push(act);
            },
        }
    }

    /// Returns the rank of this outcome.
    pub fn idx(&self) -> (r: usize)
        requires
            self matches CommandOptions::Acts(a) ==> a@.len() > 0,
        ensures
            r == self.spec_idx(),
    {
        match self {
            CommandOptions::Acts(acts) => acts[0].idx(),
            CommandOptions::Commands(_) => 1000,
        }
    }
}

/// A vector of one action.
fn one_act(a: Act) -> (r: Vec<Act>)
    ensures
        r@ == seq![a],
{
    let mut v: Vec<Act> = Vec::new();
    v.push(a);
    proof {
        assert(v@ =~= seq![a]);
    }
    v
}

/// Copies a vector of actions.
fn clone_acts(v: &Vec<Act>) -> (r: Vec<Act>)
    ensures
        r@ == v@,
{
    let mut out: Vec<Act> = Vec::new();
    let mut i: usize = 0;
    while i < v.len()
        invariant
            i <= v.len(),
            out@ == v@.take(i as int),
        decreases v.len() - i,
    {
        out.push(v[i]);
        i += 1;
    }
    proof {
        assert(v@.take(v.len() as int) =~= v@);
    }
    out
}

impl Clone for CommandOptions {
    /// Copies the outcome.
    fn clone(&self) -> (r: CommandOptions)
        ensures
            r@ == self@,
    {
        match self {
            CommandOptions::Commands(g) => CommandOptions::Commands(g.clone()),
            CommandOptions::Acts(a) => CommandOptions::Acts(clone_acts(a)),
        }
    }
}


impl PartialEq for CommandOptions {
    fn eq(&self, other: &CommandOptions) -> (r: bool) {
        match (self, other) {
            (CommandOptions::Commands(a), CommandOptions::Commands(b)) => a.eq(b),
            (CommandOptions::Acts(a), CommandOptions::Acts(b)) => acts_eq(a, b),
            _ => false,
        }
    }
}

impl Eq for CommandOptions {

}

impl vstd::std_specs::cmp::PartialEqSpecImpl for CommandOptions {
    open spec fn obeys_eq_spec() -> bool {
        true
    }

    open spec fn eq_spec(&self, other: &CommandOptions) -> bool {
        self@ == other@
    }
}

/// The map held by an association list, later entries overriding earlier
/// ones: the last write wins.
pub open spec fn assoc_map<K, V>(s: Seq<(K, V)>) -> Map<K, V>
    decreases s.len(),
{
    if s.len() == 0 {
        Map::empty()
    } else {
        assoc_map(s.drop_last()).insert(s.last().0, s.last().1)
    }
}

/// One mode's choice table: what each bound command maps to. Entries are
/// kept in insertion order and a later binding of the same command
/// overrides an earlier one.
#[derive(Debug)]
pub struct Choices(pub Vec<(Command, CommandOptions)>);

impl Choices {
    /// The entries as mathematical values, in insertion order.
    pub open spec fn entries(self) -> Seq<(CommandView, OptView)> {
        self.0@.map_values(|e: (Command, CommandOptions)| (e.0@, e.1@))
    }
}

impl View for Choices {
    type V = Map<CommandView, OptView>;

    open spec fn view(&self) -> Map<CommandView, OptView> {
        assoc_map(self.entries())
    }
}

impl Choices {
    /// Creates an empty table.
    pub fn new() -> (r: Choices)
        ensures
            r@ == Map::<CommandView, OptView>::empty(),
            r.0@.len() == 0,
    {
        Choices(Vec::new())
    }

    /// Reports whether the table holds no entry at all.
    pub fn is_empty(&self) -> (r: bool)
        ensures
            r == (self.0@.len() == 0),
    {
        self.0.len() == 0
    }

    /// Binds a command to an outcome; a previous binding of the same
    /// command is overridden (the last write wins).
    pub fn insert(&mut self, cmd: Command, opts: CommandOptions)
        ensures
            final(self)@ == old(self)@.insert(cmd@, opts@),
            final(self).0@ == old(self).0@.push((cmd, opts)),
    {
        self.0.push((cmd, opts));
        proof {
            assert(self.entries().drop_last() =~= old(self).entries());
        }
    }

    /// Looks the outcome bound to a command up.
    pub fn get<'a>(&'a self, cmd: &Command) -> (r: Option<&'a CommandOptions>)
        ensures
            r is Some <==> self@.contains_key(cmd@),
            r is Some ==> r->Some_0@ == self@[cmd@],
    {
        let n = self.0.len();
        let mut i = n;
        proof {
            assert(self.entries().take(n as int) =~= self.entries());
        }
        loop
            invariant
                i <= n,
                n == self.0@.len(),
                self@.contains_key(cmd@) ==> assoc_map(self.entries().take(i as int)).contains_key(
                    cmd@,
                ),
                assoc_map(self.entries().take(i as int)).contains_key(cmd@) ==> (
                self@.contains_key(cmd@) && self@[cmd@] == assoc_map(
                    self.entries().take(i as int),
                )[cmd@]),
            decreases i,
        {
            if i == 0 {
                proof {
                    assert(self.entries().take(0) =~= Seq::<(CommandView, OptView)>::empty());
                }
                return None;
            }
            i = i - 1;
            proof {
                assert(self.entries().take(i + 1).drop_last() =~= self.entries().take(i as int));
                assert(self.entries().take(i + 1).last() == self.entries()[i as int]);
            }
            let entry = &self.0[i];
            if entry.0.eq(cmd) {
                return Some(&entry.1);
            }
        }
    }
}

impl Clone for Choices {
    /// Copies the table entry by entry.
    fn clone(&self) -> (r: Choices)
        ensures
            r.entries() == self.entries(),
            r@ == self@,
    {
        let mut out: Vec<(Command, CommandOptions)> = Vec::new();
        let mut i: usize = 0;
        while i < self.0.len()
            invariant
                i <= self.0@.len(),
                out@.len() == i,
                forall|q: int| 0 <= q < i ==> #[trigger] out@[q].0@ == self.0@[q].0@
                    && out@[q].1@ == self.0@[q].1@,
            decreases self.0@.len() - i,
        {
            let e = &self.0[i];
            out.push((e.0.clone(), e.1.clone()));
            i += 1;
        }
        let r = Choices(out);
        proof {
            assert(r.entries() =~= self.entries());
        }
        r
    }
}

/// A named collection of choice tables: the modes of the input engine.
/// The mode `normal` is the root mode.
#[derive(Debug)]
pub struct ChoiceMap(pub Vec<(String, Choices)>);

impl ChoiceMap {
    /// The entries as mathematical values, in insertion order.
    pub open spec fn entries(self) -> Seq<(Seq<char>, Map<CommandView, OptView>)> {
        self.0@.map_values(|e: (String, Choices)| (e.0@, e.1@))
    }
}

impl View for ChoiceMap {
    type V = Map<Seq<char>, Map<CommandView, OptView>>;

    open spec fn view(&self) -> Map<Seq<char>, Map<CommandView, OptView>> {
        assoc_map(self.entries())
    }
}

impl ChoiceMap {
    /// Creates an empty map of modes.
    pub fn new() -> (r: ChoiceMap)
        ensures
            r@ == Map::<Seq<char>, Map<CommandView, OptView>>::empty(),
            r.0@.len() == 0,
    {
        ChoiceMap(Vec::new())
    }

    /// Adds a mode under a name; a previous mode of the same name is
    /// overridden (the last write wins).
    pub fn insert(&mut self, mode: String, choices: Choices)
        ensures
            final(self)@ == old(self)@.insert(mode@, choices@),
    {
        self.0.push((mode, choices));
        proof {
            assert(self.entries().drop_last() =~= old(self).entries());
        }
    }

    /// Looks a mode up by its name.
    pub fn get<'a>(&'a self, mode: &str) -> (r: Option<&'a Choices>)
        ensures
            r is Some <==> self@.contains_key(mode@),
            r is Some ==> r->Some_0@ == self@[mode@],
    {
        let n = self.0.len();
        let mut i = n;
        proof {
            assert(self.entries().take(n as int) =~= self.entries());
        }
        loop
            invariant
                i <= n,
                n == self.0@.len(),
                self@.contains_key(mode@) ==> assoc_map(self.entries().take(i as int)).contains_key(
                    mode@,
                ),
                assoc_map(self.entries().take(i as int)).contains_key(mode@) ==> (
                self@.contains_key(mode@) && self@[mode@] == assoc_map(
                    self.entries().take(i as int),
                )[mode@]),
            decreases i,
        {
            if i == 0 {
                proof {
                    assert(self.entries().take(0) =~= Seq::<
                        (Seq<char>, Map<CommandView, OptView>),
                    >::empty());
                }
                return None;
            }
            i = i - 1;
            proof {
                assert(self.entries().take(i + 1).drop_last() =~= self.entries().take(i as int));
                assert(self.entries().take(i + 1).last() == self.entries()[i as int]);
            }
            let entry = &self.0[i];
            if crate::act::str_eq(entry.0.as_str(), mode) {
                return Some(&entry.1);
            }
        }
    }

    /// Reports whether a mode of the given name exists.
    pub fn contains(&self, mode: &str) -> (r: bool)
        ensures
            r == self@.contains_key(mode@),
    {
        self.get(mode).is_some()
    }
}

/// The mathematical value of a [`Resolution`].
pub ghost enum ResolutionView {
    SwitchMode(Seq<char>),
    Run(Seq<Act>),
    Unrecognized,
}

/// What resolving one command against the current mode yields.
#[derive(Debug)]
pub enum Resolution {
    /// The command selects a group: the mode switches to this id.
    SwitchMode(String),
    /// The command is bound to actions: run them, then return to the root
    /// mode.
    Run(Vec<Act>),
    /// The command is not bound in the current mode; nothing changes.
    Unrecognized,
}

impl View for Resolution {
    type V = ResolutionView;

    open spec fn view(&self) -> ResolutionView {
        match self {
            Resolution::SwitchMode(id) => ResolutionView::SwitchMode(id@),
            Resolution::Run(acts) => ResolutionView::Run(acts@),
            Resolution::Unrecognized => ResolutionView::Unrecognized,
        }
    }
}

impl Clone for Resolution {
    /// Copies the resolution.
    fn clone(&self) -> (r: Resolution)
        ensures
            r@ == self@,
    {
        match self {
            Resolution::SwitchMode(id) => Resolution::SwitchMode(id.clone()),
            Resolution::Run(acts) => Resolution::Run(clone_acts(acts)),
            Resolution::Unrecognized => Resolution::Unrecognized,
        }
    }
}

impl PartialEq for Resolution {
    fn eq(&self, other: &Resolution) -> (r: bool) {
        match (self, other) {
            (Resolution::SwitchMode(a), Resolution::SwitchMode(b)) => crate::act::str_eq(
                a.as_str(),
                b.as_str(),
            ),
            (Resolution::Run(a), Resolution::Run(b)) => acts_eq(a, b),
            (Resolution::Unrecognized, Resolution::Unrecognized) => true,
            _ => false,
        }
    }
}

impl Eq for Resolution {

}

impl vstd::std_specs::cmp::PartialEqSpecImpl for Resolution {
    open spec fn obeys_eq_spec() -> bool {
        true
    }

    open spec fn eq_spec(&self, other: &Resolution) -> bool {
        self@ == other@
    }
}

/// Compares two action lists element by element.
fn acts_eq(a: &Vec<Act>, b: &Vec<Act>) -> (r: bool)
    ensures
        r == (a@ == b@),
{
    if a.len() != b.len() {
        return false;
    }
    let mut i: usize = 0;
    while i < a.len()
        invariant
            i <= a@.len(),
            a@.len() == b@.len(),
            forall|q: int| 0 <= q < i ==> a@[q] == b@[q],
        decreases a@.len() - i,
    {
        if a[i] != b[i] {
            return false;
        }
        i += 1;
    }
    proof {
        assert(a@ =~= b@);
    }
    true
}

/// The resolution of one command in one mode, as a function of the map
/// alone: an unknown mode or an unbound command resolves to nothing.
pub open spec fn spec_resolve(
    m: Map<Seq<char>, Map<CommandView, OptView>>,
    mode: Seq<char>,
    cmd: CommandView,
) -> ResolutionView {
    if m.contains_key(mode) {
        let table = m[mode];
        if table.contains_key(cmd) {
            match table[cmd] {
                OptView::Commands(g) => ResolutionView::SwitchMode(g.id),
                OptView::Acts(a) => ResolutionView::Run(a),
            }
        } else {
            ResolutionView::Unrecognized
        }
    } else {
        ResolutionView::Unrecognized
    }
}

impl ChoiceMap {
    /// Resolves a command against the table of the given mode. The result
    /// is a pure function of the map, the mode name and the command.
    pub fn resolve(&self, mode: &str, cmd: &Command) -> (r: Resolution)
        ensures
            r@ == spec_resolve(self@, mode@, cmd@),
    {
        match self.get(mode) {
            Some(choices) => match choices.get(cmd) {
                Some(CommandOptions::Commands(g)) => Resolution::SwitchMode(g.id.clone()),
                Some(CommandOptions::Acts(a)) => Resolution::Run(clone_acts(a)),
                None => Resolution::Unrecognized,
            },
            None => Resolution::Unrecognized,
        }
    }
}

/// The dispatch key of the built-in binding of one named-key action: its
/// own key name, with no modifier.
pub open spec fn spec_named_key(a: NamedAct) -> CommandView {
    CommandView { key: a.spec_cmd(), mods: Modifiers::spec_empty() }
}

/// The outcome of the built-in binding of one named-key action.
pub open spec fn spec_named_opt(a: NamedAct) -> OptView {
    OptView::Acts(seq![Act::spec_from_named(a)])
}

/// A table extended with the built-in named-key bindings, in rank order.
pub open spec fn spec_with_named(m: Map<CommandView, OptView>) -> Map<CommandView, OptView> {
    m.insert(spec_named_key(NamedAct::Enter), spec_named_opt(NamedAct::Enter)).insert(
        spec_named_key(NamedAct::Escape),
        spec_named_opt(NamedAct::Escape),
    ).insert(spec_named_key(NamedAct::ArrowUp), spec_named_opt(NamedAct::ArrowUp)).insert(
        spec_named_key(NamedAct::ArrowDown),
        spec_named_opt(NamedAct::ArrowDown),
    ).insert(spec_named_key(NamedAct::ArrowLeft), spec_named_opt(NamedAct::ArrowLeft)).insert(
        spec_named_key(NamedAct::ArrowRight),
        spec_named_opt(NamedAct::ArrowRight),
    ).insert(spec_named_key(NamedAct::Be), spec_named_opt(NamedAct::Be))
}

impl Choices {
    /// Adds the built-in named-key bindings: each named-key action under
    /// its own key name, with no modifier.
    pub fn named(&mut self)
        ensures
            final(self)@ == spec_with_named(old(self)@),
    {
        self.insert(
            Command::from_named(&NamedAct::Enter),
            CommandOptions::Acts(one_act(Act::Named(NamedAct::Enter))),
        );
        self.insert(
            Command::from_named(&NamedAct::Escape),
            CommandOptions::Acts(one_act(Act::Named(NamedAct::Escape))),
        );
        self.insert(
            Command::from_named(&NamedAct::ArrowUp),
            CommandOptions::Acts(one_act(Act::Named(NamedAct::ArrowUp))),
        );
        self.insert(
            Command::from_named(&NamedAct::ArrowDown),
            CommandOptions::Acts(one_act(Act::Named(NamedAct::ArrowDown))),
        );
        self.insert(
            Command::from_named(&NamedAct::ArrowLeft),
            CommandOptions::Acts(one_act(Act::Named(NamedAct::ArrowLeft))),
        );
        self.insert(
            Command::from_named(&NamedAct::ArrowRight),
            CommandOptions::Acts(one_act(Act::Named(NamedAct::ArrowRight))),
        );
        self.insert(
            Command::from_named(&NamedAct::Be),
            CommandOptions::Acts(one_act(Act::Be)),
        );
    }
}

/// Whether one mode-table entry is usable: its command string parses and
/// its action identifier is known.
pub open spec fn spec_valid_entry(e: (Seq<char>, Seq<char>)) -> bool {
    crate::command::spec_parse_cmd(e.0) is Some && Act::spec_from_str(e.1) is Some
}

/// The dispatch key of one usable mode-table entry.
pub open spec fn spec_entry_key(e: (Seq<char>, Seq<char>)) -> CommandView
    recommends
        spec_valid_entry(e),
{
    let c = crate::command::spec_parse_cmd(e.0)->Some_0;
    CommandView { key: c.0, mods: c.1 }
}

/// The outcome of one usable mode-table entry: a list of one action.
pub open spec fn spec_entry_opt(e: (Seq<char>, Seq<char>)) -> OptView
    recommends
        spec_valid_entry(e),
{
    OptView::Acts(seq![Act::spec_from_str(e.1)->Some_0])
}

/// A table extended with the usable entries of one mode table, in order;
/// entries that do not parse are dropped.
pub open spec fn spec_choices_into(
    m: Map<CommandView, OptView>,
    entries: Seq<(Seq<char>, Seq<char>)>,
) -> Map<CommandView, OptView>
    decreases entries.len(),
{
    if entries.len() == 0 {
        m
    } else {
        let prev = spec_choices_into(m, entries.drop_last());
        let e = entries.last();
        if spec_valid_entry(e) {
            prev.insert(spec_entry_key(e), spec_entry_opt(e))
        } else {
            prev
        }
    }
}

/// Whether at least one entry of a mode table is usable.
pub open spec fn spec_has_valid(entries: Seq<(Seq<char>, Seq<char>)>) -> bool {
    exists|k: int| 0 <= k < entries.len() && spec_valid_entry(#[trigger] entries[k])
}

/// The mathematical value of one mode table of the configuration document.
pub open spec fn spec_entry_views(s: Seq<(String, String)>) -> Seq<(Seq<char>, Seq<char>)> {
    s.map_values(|e: (String, String)| (e.0@, e.1@))
}

impl Choices {
    /// Folds the entries of one mode table of the configuration document
    /// into this table: each entry binds a command string to one action
    /// identifier. An entry whose command string does not parse, or whose
    /// action identifier is unknown, is dropped.
    pub fn add_entries(&mut self, entries: &Vec<(String, String)>)
        ensures
            final(self)@ == spec_choices_into(old(self)@, spec_entry_views(entries@)),
            final(self).0@.len() > old(self).0@.len() <==> spec_has_valid(
                spec_entry_views(entries@),
            ),
    {
        let ghost ev = spec_entry_views(entries@);
        let ghost n0 = self.0@.len();
        let mut i: usize = 0;
        proof {
            assert(ev.take(0) =~= Seq::<(Seq<char>, Seq<char>)>::empty());
        }
        while i < entries.len()
            invariant
                i <= entries@.len(),
                ev == spec_entry_views(entries@),
                ev.len() == entries@.len(),
                n0 == old(self).0@.len(),
                self@ == spec_choices_into(old(self)@, ev.take(i as int)),
                self.0@.len() >= n0,
                self.0@.len() > n0 <==> spec_has_valid(ev.take(i as int)),
            decreases entries@.len() - i,
        {
            proof {
                assert(ev.take(i + 1).drop_last() =~= ev.take(i as int));
                assert(ev.take(i + 1).last() == ev[i as int]);
            }
            let e = &entries[i];
            let mut inserted = false;
            match Command::parse_cmd(e.0.as_str()) {
                Ok(cmd) => {
                    match Act::from_str(e.1.as_str()) {
                        Some(act) => {
                            self.insert(cmd, CommandOptions::Acts(one_act(act)));
                            inserted = true;
                        },
                        None => {
                        },
                    }
                },
                Err(_) => {
                },
            }
            proof {
                if inserted {
                    assert(spec_valid_entry(ev[i as int]));
                    assert(spec_has_valid(ev.take(i + 1))) by {
                        assert(ev.take(i + 1)[i as int] == ev[i as int]);
                    }
                } else {
                    assert(!spec_valid_entry(ev[i as int]));
                    if spec_has_valid(ev.take(i + 1)) {
                        let k = choose|k: int|
                            0 <= k < i + 1 && spec_valid_entry(#[trigger] ev.take(i + 1)[k]);
                        assert(ev.take(i + 1)[k] == ev[k]);
                        if k < i {
                            assert(ev.take(i as int)[k] == ev[k]);
                            assert(spec_has_valid(ev.take(i as int)));
                        }
                    }
                }
            }
            i += 1;
        }
        proof {
            assert(ev.take(entries@.len() as int) =~= ev);
        }
    }

    /// Builds a choice table from the entries of one mode table of the
    /// configuration document, dropping the entries that do not parse.
    pub fn from_entries(entries: &Vec<(String, String)>) -> (r: Choices)
        ensures
            r@ == spec_choices_into(
                Map::<CommandView, OptView>::empty(),
                spec_entry_views(entries@),
            ),
            r.0@.len() > 0 <==> spec_has_valid(spec_entry_views(entries@)),
    {
        let mut out = Choices::new();
        out.add_entries(entries);
        out
    }
}

/// Purity of resolution: the contract of [`ChoiceMap::resolve`] pins its
/// result to `spec_resolve`, so any two calls on one map, mode and command
/// return one and the same resolution.
pub proof fn lemma_resolve_pure(
    m: Map<Seq<char>, Map<CommandView, OptView>>,
    mode: Seq<char>,
    cmd: CommandView,
    r1: ResolutionView,
    r2: ResolutionView,
)
    requires
        r1 == spec_resolve(m, mode, cmd),
        r2 == spec_resolve(m, mode, cmd),
    ensures
        r1 == r2,
{
}

/// The mathematical value of a [`GroupDef`].
pub ghost struct GroupDefView {
    pub name: Option<Seq<char>>,
    pub binding: Option<Seq<char>>,
    pub help: Option<Seq<char>>,
}

impl View for GroupDef {
    type V = GroupDefView;

    open spec fn view(&self) -> GroupDefView {
        GroupDefView {
            name: match self.name {
                Some(n) => Some(n@),
                None => None,
            },
            binding: match self.binding {
                Some(b) => Some(b@),
                None => None,
            },
            help: match self.help {
                Some(h) => Some(h@),
                None => None,
            },
        }
    }
}

/// The configuration document, reduced to plain values: group definitions
/// and mode tables, each a list of named entries in document order.
#[derive(Debug, Default)]
pub struct ConfigDoc {
    /// The named groups: group id, then the raw fields of its definition.
    pub groups: Vec<(String, GroupDef)>,
    /// The mode tables: mode id, then entries of command string and action
    /// identifier.
    pub commands: Vec<(String, Vec<(String, String)>)>,
}

/// The mathematical value of a [`ConfigDoc`].
pub ghost struct ConfigDocView {
    pub groups: Seq<(Seq<char>, GroupDefView)>,
    pub commands: Seq<(Seq<char>, Seq<(Seq<char>, Seq<char>)>)>,
}

impl View for ConfigDoc {
    type V = ConfigDocView;

    open spec fn view(&self) -> ConfigDocView {
        ConfigDocView {
            groups: self.groups@.map_values(|e: (String, GroupDef)| (e.0@, e.1@)),
            commands: self.commands@.map_values(
                |e: (String, Vec<(String, String)>)| (e.0@, spec_entry_views(e.1@)),
            ),
        }
    }
}

/// Whether one group definition is usable: all three fields present and
/// the binding string parses.
pub open spec fn spec_group_ok(d: GroupDefView) -> bool {
    d.name is Some && d.help is Some && d.binding is Some && crate::command::spec_parse_cmd(
        d.binding->Some_0,
    ) is Some
}

/// The dispatch key of one usable group definition: its parsed binding.
pub open spec fn spec_group_binding(d: GroupDefView) -> CommandView
    recommends
        spec_group_ok(d),
{
    let c = crate::command::spec_parse_cmd(d.binding->Some_0)->Some_0;
    CommandView { key: c.0, mods: c.1 }
}

/// The group made by one usable group definition.
pub open spec fn spec_group_view(id: Seq<char>, d: GroupDefView) -> GroupView
    recommends
        spec_group_ok(d),
{
    GroupView {
        id: id,
        name: d.name->Some_0,
        binding: spec_group_binding(d),
        help: d.help->Some_0,
    }
}

/// The mode map and the root table made by the mode tables of a document,
/// walked in order: the root table starts from the built-in bindings and
/// absorbs every table named `normal`; any other table with at least one
/// usable entry becomes a mode of its own.
pub open spec fn spec_modes_acc(cmds: Seq<(Seq<char>, Seq<(Seq<char>, Seq<char>)>)>) -> (
    Map<Seq<char>, Map<CommandView, OptView>>,
    Map<CommandView, OptView>,
)
    decreases cmds.len(),
{
    if cmds.len() == 0 {
        (
            Map::<Seq<char>, Map<CommandView, OptView>>::empty(),
            spec_with_named(Map::<CommandView, OptView>::empty()),
        )
    } else {
        let acc = spec_modes_acc(cmds.drop_last());
        let e = cmds.last();
        if e.0 == "normal"@ {
            (acc.0, spec_choices_into(acc.1, e.1))
        } else if spec_has_valid(e.1) {
            (acc.0.insert(e.0, spec_choices_into(Map::<CommandView, OptView>::empty(), e.1)), acc.1)
        } else {
            acc
        }
    }
}

/// The root table after the group definitions of a document are walked in
/// order: each usable group whose id names a known mode registers itself
/// in the root table under its parsed binding.
pub open spec fn spec_groups_fold(
    modes: Map<Seq<char>, Map<CommandView, OptView>>,
    normal: Map<CommandView, OptView>,
    groups: Seq<(Seq<char>, GroupDefView)>,
) -> Map<CommandView, OptView>
    decreases groups.len(),
{
    if groups.len() == 0 {
        normal
    } else {
        let prev = spec_groups_fold(modes, normal, groups.drop_last());
        let e = groups.last();
        if (e.0 == "normal"@ || modes.contains_key(e.0)) && spec_group_ok(e.1) {
            prev.insert(spec_group_binding(e.1), OptView::Commands(spec_group_view(e.0, e.1)))
        } else {
            prev
        }
    }
}

/// The choice map built from a whole document: the mode tables, the root
/// table with its built-in bindings, and the registered groups.
pub open spec fn spec_build(doc: ConfigDocView) -> Map<Seq<char>, Map<CommandView, OptView>> {
    let mn = spec_modes_acc(doc.commands);
    mn.0.insert("normal"@, spec_groups_fold(mn.0, mn.1, doc.groups))
}

impl ChoiceMap {
    /// Builds the choice map from a configuration document: built-in
    /// named-key bindings first, then the document's mode tables, then its
    /// group definitions. A malformed document contributes nothing beyond
    /// the built-ins; no entry of it is fatal.
    pub fn from_doc(doc: &ConfigDoc) -> (r: ChoiceMap)
        ensures
            r@ == spec_build(doc@),
    {
        let ghost cmds = doc@.commands;
        let ghost grps = doc@.groups;
        let mut map = ChoiceMap::new();
        let mut normal = Choices::new();
        normal.named();
        let mut i: usize = 0;
        proof {
            assert(cmds.take(0) =~= Seq::<(Seq<char>, Seq<(Seq<char>, Seq<char>)>)>::empty());
        }
        while i < doc.commands.len()
            invariant
                i <= doc.commands@.len(),
                cmds == doc@.commands,
                cmds.len() == doc.commands@.len(),
                (map@, normal@) == spec_modes_acc(cmds.take(i as int)),
            decreases doc.commands@.len() - i,
        {
            proof {
                assert(cmds.take(i + 1).drop_last() =~= cmds.take(i as int));
                assert(cmds.take(i + 1).last() == cmds[i as int]);
            }
            let e = &doc.commands[i];
            if crate::act::str_eq(e.0.as_str(), "normal") {
                normal.add_entries(&e.1);
            } else {
                let table = Choices::from_entries(&e.1);
                if !table.is_empty() {
                    map.insert(e.0.clone(), table);
                }
            }
            i += 1;
        }
        proof {
            assert(cmds.take(doc.commands@.len() as int) =~= cmds);
        }
        let ghost modes = map@;
        let ghost normal0 = normal@;
        let mut j: usize = 0;
        proof {
            assert(grps.take(0) =~= Seq::<(Seq<char>, GroupDefView)>::empty());
        }
        while j < doc.groups.len()
            invariant
                j <= doc.groups@.len(),
                grps == doc@.groups,
                grps.len() == doc.groups@.len(),
                map@ == modes,
                normal@ == spec_groups_fold(modes, normal0, grps.take(j as int)),
            decreases doc.groups@.len() - j,
        {
            proof {
                assert(grps.take(j + 1).drop_last() =~= grps.take(j as int));
                assert(grps.take(j + 1).last() == grps[j as int]);
            }
            let e = &doc.groups[j];
            if crate::act::str_eq(e.0.as_str(), "normal") || map.contains(e.0.as_str()) {
                match CommandGroup::from_def(e.0.as_str(), &e.1) {
                    Some(group) => {
                        let binding = group.binding.clone();
                        normal.insert(binding, CommandOptions::Commands(group));
                    },
                    None => {
                    },
                }
            }
            j += 1;
        }
        proof {
            assert(grps.take(doc.groups@.len() as int) =~= grps);
        }
        map.insert("normal".to_owned(), normal);
        map
    }
}

/// The single top-level wrapper of the choice map, as the session owns it.
#[derive(Debug)]
pub enum CommandMode {
    /// The map of modes, rooted at `normal`.
    Normal(ChoiceMap),
}

impl CommandMode {
    /// The map inside.
    pub open spec fn spec_choices(self) -> Map<Seq<char>, Map<CommandView, OptView>> {
        match self {
            CommandMode::Normal(m) => m@,
        }
    }

    /// Creates a command mode over an empty choice map.
    pub fn new() -> (r: CommandMode)
        ensures
            r.spec_choices() == Map::<Seq<char>, Map<CommandView, OptView>>::empty(),
    {
        CommandMode::Normal(ChoiceMap::new())
    }

    /// Wraps an already built choice map.
    pub fn with_map(map: ChoiceMap) -> (r: CommandMode)
        ensures
            r.spec_choices() == map@,
    {
        CommandMode::Normal(map)
    }

    /// Borrows the choice map.
    pub fn choices(&self) -> (r: &ChoiceMap)
        ensures
            r@ == self.spec_choices(),
    {
        match self {
            CommandMode::Normal(choices) => choices,
        }
    }
}

} // verus!
