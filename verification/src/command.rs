//! Modifier sets and commands: the dispatch keys of the input engine.
use crate::act::NamedAct;
use vstd::prelude::*;

verus! {

/// The four independent modifier flags that may accompany a key press.
///
/// "None" means that no flag at all is set.
#[derive(Debug, Default, Copy, Clone, PartialEq, Eq, Structural, Hash)]
pub struct Modifiers {
    pub shift_key: bool,
    pub control_key: bool,
    pub alt_key: bool,
    pub super_key: bool,
}

impl Modifiers {
    /// The set with every flag clear.
    pub open spec fn spec_empty() -> Modifiers {
        Modifiers { shift_key: false, control_key: false, alt_key: false, super_key: false }
    }

    /// Whether no flag is set.
    pub open spec fn spec_is_none(self) -> bool {
        self == Modifiers::spec_empty()
    }

    /// The flag-wise union of two sets.
    pub open spec fn spec_union(self, other: Modifiers) -> Modifiers {
        Modifiers {
            shift_key: self.shift_key || other.shift_key,
            control_key: self.control_key || other.control_key,
            alt_key: self.alt_key || other.alt_key,
            super_key: self.super_key || other.super_key,
        }
    }

    /// Creates the all-clear modifier set.
    pub fn new() -> (r: Modifiers)
        ensures
            r == Modifiers::spec_empty(),
    {
        Modifiers { shift_key: false, control_key: false, alt_key: false, super_key: false }
    }

    /// Reports whether no modifier flag is set.
    pub fn is_none(&self) -> (r: bool)
        ensures
            r == self.spec_is_none(),
    {
        !self.shift_key && !self.control_key && !self.alt_key && !self.super_key
    }

    /// Renders the modifier prefix of the display string: one bracketed
    /// token per set flag, each followed by ` + `.
    pub fn to_string(&self) -> (r: String)
        ensures
            r@ == spec_mods_string(*self),
    {
        let mut out = String::new();
        if self.super_key {
            out.append("<Super> + ");
        }
        if self.control_key {
            out.append("<Cr> + ");
        }
        if self.alt_key {
            out.append("<Alt> + ");
        }
        if self.shift_key {
            out.append("<Shift> + ");
        }
        proof {
            assert(out@ =~= spec_mods_string(*self));
        }
        out
    }

    /// Merges the flags of `other` into `self` (set union).
    pub fn and(&mut self, other: &Modifiers)
        ensures
            *final(self) == old(self).spec_union(*other),
    {
        if other.shift_key {
            self.shift_key = true;
        }
        if other.control_key {
            self.control_key = true;
        }
        if other.alt_key {
            self.alt_key = true;
        }
        if other.super_key {
            self.super_key = true;
        }
    }
}

/// A parsed (key, modifier-set) pair: the lookup key of the dispatch tables.
#[derive(Debug, Hash)]
pub struct Command {
    /// The key name: a word such as `j`, `J` or `enter`.
    pub key: String,
    /// The modifier flags that accompany the key.
    pub mods: Modifiers,
}

/// The canonical text of one modifier set: one bracketed token per set flag,
/// each followed by ` + `, in the fixed order super, control, alt, shift.
pub open spec fn spec_mods_string(m: Modifiers) -> Seq<char> {
    (if m.super_key {
        "<Super> + "@
    } else {
        Seq::<char>::empty()
    }) + (if m.control_key {
        "<Cr> + "@
    } else {
        Seq::<char>::empty()
    }) + (if m.alt_key {
        "<Alt> + "@
    } else {
        Seq::<char>::empty()
    }) + (if m.shift_key {
        "<Shift> + "@
    } else {
        Seq::<char>::empty()
    })
}

/// The canonical display string of a command: its modifier tokens, then its key.
pub open spec fn spec_command_string(key: Seq<char>, m: Modifiers) -> Seq<char> {
    spec_mods_string(m) + key
}

impl Command {
    /// Builds a command from a key name and a modifier set.
    pub fn with_modifier(key: &str, mods: &Modifiers) -> (r: Command)
        ensures
            r.key@ == key@,
            r.mods == *mods,
    {
        Command { key: key.to_owned(), mods: *mods }
    }

    /// The command that a named-key action is bound to: the action's own
    /// key name, with no modifier.
    pub fn from_named(act: &NamedAct) -> (r: Command)
        ensures
            r.key@ == act.spec_cmd(),
            r.mods == Modifiers::spec_empty(),
    {
        let key = act.cmd();
        Command::with_modifier(key.as_str(), &Modifiers::new())
    }

    /// Reports whether `trigger` is exactly this command.
    pub fn act(&self, trigger: &Command) -> (r: bool)
        ensures
            r == (self.key@ == trigger.key@ && self.mods == trigger.mods),
    {
        self == trigger
    }

    /// Renders the canonical display string, e.g. `<Cr> + j`.
    pub fn to_string(&self) -> (r: String)
        ensures
            r@ == spec_command_string(self.key@, self.mods),
    {
        let mut out = self.mods.to_string();
        out.append(self.key.as_str());
        out
    }
}

/// An ordered list of commands.
#[derive(Debug, Clone, PartialEq, Eq, Hash)]
pub struct CommandList(pub Vec<Command>);

/// Why a binding string failed to parse.
#[derive(Debug, Clone, Copy, PartialEq, Eq, Structural)]
pub enum ParseError {
    /// No alphanumeric key token remains after the modifier tokens.
    MissingKey,
}

/// Whether `c` is a blank that the grammar skips between tokens.
pub open spec fn is_space_char(c: char) -> bool {
    c == ' ' || c == '\t'
}

/// Whether `c` is a lower-case ascii letter.
pub open spec fn is_lower_char(c: char) -> bool {
    'a' as u32 <= c as u32 && c as u32 <= 'z' as u32
}

/// Whether `c` is an upper-case ascii letter.
pub open spec fn is_upper_char(c: char) -> bool {
    'A' as u32 <= c as u32 && c as u32 <= 'Z' as u32
}

/// Whether `c` may stand in a key or modifier token (ascii alphanumeric).
pub open spec fn is_word_char(c: char) -> bool {
    is_lower_char(c) || is_upper_char(c) || ('0' as u32 <= c as u32 && c as u32 <= '9' as u32)
}

/// Case-insensitive character match; `b` is expected in lower case.
pub open spec fn char_eq_ci(a: char, b: char) -> bool {
    a == b || (is_upper_char(a) && a as u32 + 32 == b as u32)
}

/// Case-insensitive sequence match; `t` is expected in lower case.
pub open spec fn seq_eq_ci(s: Seq<char>, t: Seq<char>) -> bool {
    s.len() == t.len() && (forall|k: int| 0 <= k < s.len() ==> char_eq_ci(s[k], t[k]))
}

/// The first position at or after `i` that does not hold a blank.
pub open spec fn spec_skip_spaces(s: Seq<char>, i: int) -> int
    decreases s.len() - i,
{
    if 0 <= i < s.len() && is_space_char(s[i]) {
        spec_skip_spaces(s, i + 1)
    } else {
        i
    }
}

/// The position after one separator: blanks, at most one `+`, blanks.
pub open spec fn spec_sep_end(s: Seq<char>, i: int) -> int {
    let j = spec_skip_spaces(s, i);
    let k = if j < s.len() && s[j] == '+' {
        j + 1
    } else {
        j
    };
    spec_skip_spaces(s, k)
}

/// The end of the maximal run of word characters that starts at `i`.
pub open spec fn spec_scan_word(s: Seq<char>, i: int) -> int
    decreases s.len() - i,
{
    if 0 <= i < s.len() && is_word_char(s[i]) {
        spec_scan_word(s, i + 1)
    } else {
        i
    }
}

/// The modifier set named by one token, compared case-insensitively against
/// the fixed vocabulary; `None` for a token outside the vocabulary.
pub open spec fn spec_into_mods(t: Seq<char>) -> Option<Modifiers> {
    if seq_eq_ci(t, "cr"@) || seq_eq_ci(t, "control"@) {
        Some(Modifiers { control_key: true, ..Modifiers::spec_empty() })
    } else if seq_eq_ci(t, "alt"@) {
        Some(Modifiers { alt_key: true, ..Modifiers::spec_empty() })
    } else if seq_eq_ci(t, "shift"@) {
        Some(Modifiers { shift_key: true, ..Modifiers::spec_empty() })
    } else if seq_eq_ci(t, "super"@) {
        Some(Modifiers { super_key: true, ..Modifiers::spec_empty() })
    } else {
        None
    }
}

/// The flags contributed by one token: an unrecognized token contributes none.
pub open spec fn spec_token_mods(t: Seq<char>) -> Modifiers {
    match spec_into_mods(t) {
        Some(m) => m,
        None => Modifiers::spec_empty(),
    }
}

/// One bracketed modifier token with its surrounding separators: on success,
/// the position after the token and the flags it contributes.
pub open spec fn spec_parse_mod(s: Seq<char>, i: int) -> Option<(int, Modifiers)> {
    let j = spec_sep_end(s, i);
    if j < s.len() && s[j] == '<' {
        let m = spec_scan_word(s, j + 1);
        if m > j + 1 && m < s.len() && s[m] == '>' {
            Some((spec_sep_end(s, m + 1), spec_token_mods(s.subrange(j + 1, m))))
        } else {
            None
        }
    } else {
        None
    }
}

/// The run of modifier tokens that starts at `i`: the position after the last
/// one and the union of their flags.
pub open spec fn spec_parse_mods(s: Seq<char>, i: int) -> (int, Modifiers)
    decreases s.len() - i,
{
    if 0 <= i <= s.len() {
        match spec_parse_mod(s, i) {
            Some((j, m)) => {
                if i < j <= s.len() {
                    let r = spec_parse_mods(s, j);
                    (r.0, m.spec_union(r.1))
                } else {
                    (i, Modifiers::spec_empty())
                }
            },
            None => (i, Modifiers::spec_empty()),
        }
    } else {
        (i, Modifiers::spec_empty())
    }
}

/// The key token at `i`: blanks, then at least one word character; on success,
/// the start and end of the word.
pub open spec fn spec_word(s: Seq<char>, i: int) -> Option<(int, int)> {
    let j = spec_skip_spaces(s, i);
    let m = spec_scan_word(s, j);
    if m > j {
        Some((j, m))
    } else {
        None
    }
}

/// A whole binding: modifier tokens, then the key; trailing text is ignored.
pub open spec fn spec_parse_str(s: Seq<char>, i: int) -> Option<(int, (Seq<char>, Modifiers))> {
    let r = spec_parse_mods(s, i);
    match spec_word(s, r.0) {
        Some((a, b)) => Some((b, (s.subrange(a, b), r.1))),
        None => None,
    }
}

/// Whether the key was written without any lower-case letter, which makes it
/// identical to its upper-cased form.
pub open spec fn spec_key_is_upper(key: Seq<char>) -> bool {
    forall|k: int| 0 <= k < key.len() ==> !is_lower_char(key[k])
}

/// The implicit-shift rule: an upper-case key forces the shift flag on.
pub open spec fn spec_apply_upper(key: Seq<char>, m: Modifiers) -> Modifiers {
    if spec_key_is_upper(key) {
        Modifiers { shift_key: true, ..m }
    } else {
        m
    }
}

/// The parse of one configuration string: the key and the modifier set,
/// with the implicit-shift rule applied.
pub open spec fn spec_parse_cmd(s: Seq<char>) -> Option<(Seq<char>, Modifiers)> {
    match spec_parse_str(s, 0) {
        Some((_end, (key, m))) => Some((key, spec_apply_upper(key, m))),
        None => None,
    }
}

proof fn lemma_skip_spaces_props(s: Seq<char>, i: int)
    requires
        0 <= i <= s.len(),
    ensures
        i <= spec_skip_spaces(s, i) <= s.len(),
        spec_skip_spaces(s, i) < s.len() ==> !is_space_char(s[spec_skip_spaces(s, i)]),
    decreases s.len() - i,
{
    if i < s.len() && is_space_char(s[i]) {
        lemma_skip_spaces_props(s, i + 1);
    }
}

proof fn lemma_scan_word_props(s: Seq<char>, i: int)
    requires
        0 <= i <= s.len(),
    ensures
        i <= spec_scan_word(s, i) <= s.len(),
        forall|q: int| i <= q < spec_scan_word(s, i) ==> is_word_char(s[q]),
        spec_scan_word(s, i) < s.len() ==> !is_word_char(s[spec_scan_word(s, i)]),
    decreases s.len() - i,
{
    if i < s.len() && is_word_char(s[i]) {
        lemma_scan_word_props(s, i + 1);
    }
}

proof fn lemma_sep_end_props(s: Seq<char>, i: int)
    requires
        0 <= i <= s.len(),
    ensures
        i <= spec_sep_end(s, i) <= s.len(),
{
    lemma_skip_spaces_props(s, i);
    let j = spec_skip_spaces(s, i);
    if j < s.len() && s[j] == '+' {
        lemma_skip_spaces_props(s, j + 1);
    } else {
        lemma_skip_spaces_props(s, j);
    }
}

proof fn lemma_parse_mod_advances(s: Seq<char>, i: int)
    requires
        0 <= i <= s.len(),
        spec_parse_mod(s, i) is Some,
    ensures
        i < spec_parse_mod(s, i)->Some_0.0 <= s.len(),
{
    lemma_sep_end_props(s, i);
    let j = spec_sep_end(s, i);
    let m = spec_scan_word(s, j + 1);
    lemma_scan_word_props(s, j + 1);
    lemma_sep_end_props(s, m + 1);
}

fn is_word_char_exec(c: char) -> (r: bool)
    ensures
        r == is_word_char(c),
{
    let u = c as u32;
    ('a' as u32 <= u && u <= 'z' as u32) || ('A' as u32 <= u && u <= 'Z' as u32) || ('0' as u32
        <= u && u <= '9' as u32)
}

fn skip_spaces(s: &str, i: usize) -> (r: usize)
    requires
        i <= s@.len(),
    ensures
        r as int == spec_skip_spaces(s@, i as int),
        i <= r <= s@.len(),
{
    let n = s.unicode_len();
    let mut j = i;
    loop
        invariant
            i <= j <= n,
            n == s@.len(),
            spec_skip_spaces(s@, i as int) == spec_skip_spaces(s@, j as int),
        decreases n - j,
    {
        if j < n {
            let c = s.get_char(j);
            if c == ' ' || c == '\t' {
                j += 1;
            } else {
                return j;
            }
        } else {
            return j;
        }
    }
}

fn scan_word(s: &str, i: usize) -> (r: usize)
    requires
        i <= s@.len(),
    ensures
        r as int == spec_scan_word(s@, i as int),
        i <= r <= s@.len(),
{
    let n = s.unicode_len();
    let mut j = i;
    loop
        invariant
            i <= j <= n,
            n == s@.len(),
            spec_scan_word(s@, i as int) == spec_scan_word(s@, j as int),
        decreases n - j,
    {
        if j < n {
            let c = s.get_char(j);
            if is_word_char_exec(c) {
                j += 1;
            } else {
                return j;
            }
        } else {
            return j;
        }
    }
}

fn str_eq_ci(s: &str, t: &str) -> (r: bool)
    ensures
        r == seq_eq_ci(s@, t@),
{
    let n = s.unicode_len();
    if n != t.unicode_len() {
        return false;
    }
    let mut k: usize = 0;
    while k < n
        invariant
            k <= n,
            n == s@.len(),
            n == t@.len(),
            forall|q: int| 0 <= q < k ==> char_eq_ci(s@[q], t@[q]),
        decreases n - k,
    {
        let a = s.get_char(k);
        let b = t.get_char(k);
        let ok = a == b || (('A' as u32 <= a as u32 && a as u32 <= 'Z' as u32) && a as u32 + 32
            == b as u32);
        if !ok {
            proof {
                assert(!char_eq_ci(s@[k as int], t@[k as int]));
            }
            return false;
        }
        k += 1;
    }
    true
}

impl Command {
    /// The modifier set named by one token of the vocabulary
    /// {cr, control, alt, shift, super}, matched case-insensitively.
    pub fn into_mods(input: &str) -> (r: Option<Modifiers>)
        ensures
            r == spec_into_mods(input@),
    {
        if str_eq_ci(input, "cr") || str_eq_ci(input, "control") {
            Some(Modifiers { control_key: true, ..Modifiers::new() })
        } else if str_eq_ci(input, "alt") {
            Some(Modifiers { alt_key: true, ..Modifiers::new() })
        } else if str_eq_ci(input, "shift") {
            Some(Modifiers { shift_key: true, ..Modifiers::new() })
        } else if str_eq_ci(input, "super") {
            Some(Modifiers { super_key: true, ..Modifiers::new() })
        } else {
            None
        }
    }

    /// Consumes one separator at `i`: blanks, at most one `+`, blanks.
    /// Returns the next position and whether a `+` stood in the separator.
    pub fn separator(s: &str, i: usize) -> (r: (usize, bool))
        requires
            i <= s@.len(),
        ensures
            r.0 as int == spec_sep_end(s@, i as int),
            i <= r.0 <= s@.len(),
    {
        let n = s.unicode_len();
        let j = skip_spaces(s, i);
        let mut sep = false;
        let k = if j < n && s.get_char(j) == '+' {
            sep = true;
            j + 1
        } else {
            j
        };
        let m = skip_spaces(s, k);
        (m, sep)
    }

    /// Parses one bracketed modifier token with its surrounding separators.
    /// On success returns the next position and the flags the token
    /// contributes; a token outside the vocabulary contributes none.
    pub fn parse_mod(s: &str, i: usize) -> (r: Option<(usize, Modifiers)>)
        requires
            i <= s@.len(),
        ensures
            r is Some <==> spec_parse_mod(s@, i as int) is Some,
            r is Some ==> r->Some_0.0 as int == spec_parse_mod(s@, i as int)->Some_0.0
                && r->Some_0.1 == spec_parse_mod(s@, i as int)->Some_0.1 && i < r->Some_0.0
                <= s@.len(),
    {
        let n = s.unicode_len();
        let (j, _) = Self::separator(s, i);
        if j < n && s.get_char(j) == '<' {
            let m = scan_word(s, j + 1);
            if m > j + 1 && m < n && s.get_char(m) == '>' {
                let token = s.substring_char(j + 1, m);
                let flags = match Self::into_mods(token) {
                    Some(f) => f,
                    None => Modifiers::new(),
                };
                let (k, _) = Self::separator(s, m + 1);
                proof {
                    lemma_parse_mod_advances(s@, i as int);
                }
                Some((k, flags))
            } else {
                None
            }
        } else {
            None
        }
    }

    /// Reports whether a bracketed modifier token stands at `i`.
    pub fn is_modifier(s: &str, i: usize) -> (r: bool)
        requires
            i <= s@.len(),
        ensures
            r == (spec_parse_mod(s@, i as int) is Some),
    {
        Self::parse_mod(s, i).is_some()
    }

    /// Consumes the run of modifier tokens at `i` and unions their flags.
    pub fn parse_mods(s: &str, i: usize) -> (r: (usize, Modifiers))
        requires
            i <= s@.len(),
        ensures
            r.0 as int == spec_parse_mods(s@, i as int).0,
            r.1 == spec_parse_mods(s@, i as int).1,
            i <= r.0 <= s@.len(),
    {
        let mut pos = i;
        let mut acc = Modifiers::new();
        loop
            invariant
                i <= pos <= s@.len(),
                spec_parse_mods(s@, i as int).0 == spec_parse_mods(s@, pos as int).0,
                spec_parse_mods(s@, i as int).1 == acc.spec_union(
                    spec_parse_mods(s@, pos as int).1,
                ),
            decreases s@.len() - pos,
        {
            match Self::parse_mod(s, pos) {
                Some((k, m)) => {
                    acc.and(&m);
                    pos = k;
                },
                None => {
                    return (pos, acc);
                },
            }
        }
    }

    /// Parses the key token at `i`: blanks, then at least one word character.
    /// On success returns the position after the key and the key itself.
    pub fn word(s: &str, i: usize) -> (r: Option<(usize, String)>)
        requires
            i <= s@.len(),
        ensures
            r is Some <==> spec_word(s@, i as int) is Some,
            r is Some ==> r->Some_0.0 as int == spec_word(s@, i as int)->Some_0.1
                && r->Some_0.1@ == s@.subrange(
                spec_word(s@, i as int)->Some_0.0,
                spec_word(s@, i as int)->Some_0.1,
            ),
    {
        let j = skip_spaces(s, i);
        let m = scan_word(s, j);
        if m > j {
            Some((m, s.substring_char(j, m).to_owned()))
        } else {
            None
        }
    }

    /// Parses a whole binding at `i`: modifier tokens, then the key.
    /// Trailing text after the key is left unread.
    pub fn parse_str(s: &str, i: usize) -> (r: Option<(usize, Command)>)
        requires
            i <= s@.len(),
        ensures
            r is Some <==> spec_parse_str(s@, i as int) is Some,
            r is Some ==> r->Some_0.0 as int == spec_parse_str(s@, i as int)->Some_0.0
                && r->Some_0.1.key@ == spec_parse_str(s@, i as int)->Some_0.1.0
                && r->Some_0.1.mods == spec_parse_str(s@, i as int)->Some_0.1.1,
    {
        let (j, mods) = Self::parse_mods(s, i);
        match Self::word(s, j) {
            Some((end, key)) => Some((end, Command { key, mods })),
            None => None,
        }
    }

    /// Reports whether `key` holds no lower-case ascii letter, making it
    /// identical to its upper-cased form; the keys of this grammar are
    /// always ascii alphanumeric.
    pub fn key_is_upper(key: &str) -> (r: bool)
        ensures
            r == spec_key_is_upper(key@),
    {
        let n = key.unicode_len();
        let mut k: usize = 0;
        while k < n
            invariant
                k <= n,
                n == key@.len(),
                forall|q: int| 0 <= q < k ==> !is_lower_char(key@[q]),
            decreases n - k,
        {
            let c = key.get_char(k);
            if 'a' as u32 <= c as u32 && c as u32 <= 'z' as u32 {
                return false;
            }
            k += 1;
        }
        true
    }

    /// Parses one configuration string into a command: zero or more
    /// bracketed modifier tokens, then an alphanumeric key; a key written
    /// in upper case forces the shift flag on.
    pub fn parse_cmd(input: &str) -> (r: Result<Command, ParseError>)
        ensures
            r is Ok <==> spec_parse_cmd(input@) is Some,
            r is Ok ==> r->Ok_0.key@ == spec_parse_cmd(input@)->Some_0.0 && r->Ok_0.mods
                == spec_parse_cmd(input@)->Some_0.1,
            r is Err ==> r->Err_0 == ParseError::MissingKey,
    {
        match Self::parse_str(input, 0) {
            Some((_rem, cmd)) => {
                let mut cmd = cmd;
                if Self::key_is_upper(cmd.key.as_str()) {
                    cmd.mods.shift_key = true;
                }
                Ok(cmd)
            },
            None => Err(ParseError::MissingKey),
        }
    }
}

proof fn lemma_skip_spaces_range(s: Seq<char>, a: int, b: int)
    requires
        0 <= a <= b <= s.len(),
        forall|q: int| a <= q < b ==> is_space_char(s[q]),
        b == s.len() || !is_space_char(s[b]),
    ensures
        spec_skip_spaces(s, a) == b,
    decreases b - a,
{
    if a < b {
        lemma_skip_spaces_range(s, a + 1, b);
    }
}

proof fn lemma_scan_word_range(s: Seq<char>, a: int, b: int)
    requires
        0 <= a <= b <= s.len(),
        forall|q: int| a <= q < b ==> is_word_char(s[q]),
        b == s.len() || !is_word_char(s[b]),
    ensures
        spec_scan_word(s, a) == b,
    decreases b - a,
{
    if a < b {
        lemma_scan_word_range(s, a + 1, b);
    }
}

proof fn lemma_parse_mods_step(s: Seq<char>, i: int)
    requires
        0 <= i <= s.len(),
        spec_parse_mod(s, i) is Some,
    ensures
        ({
            let (j, f) = spec_parse_mod(s, i)->Some_0;
            spec_parse_mods(s, i) == (
                spec_parse_mods(s, j).0,
                f.spec_union(spec_parse_mods(s, j).1),
            )
        }),
{
    lemma_parse_mod_advances(s, i);
}

proof fn lemma_parse_mod_at_word(s: Seq<char>, i: int)
    requires
        0 <= i < s.len(),
        is_word_char(s[i]),
    ensures
        spec_parse_mod(s, i) is None,
        spec_parse_mods(s, i) == (i, Modifiers::spec_empty()),
{
    lemma_skip_spaces_range(s, i, i);
    assert(spec_sep_end(s, i) == i);
}

// A canonical modifier token has the shape `<name> + `: a bracketed run of
// word characters, one trailing separator, and then either the end of the
// string or a character that the separator does not consume.
proof fn lemma_parse_token_shape(s: Seq<char>, i: int, namelen: int)
    requires
        0 <= i,
        1 <= namelen,
        i + namelen + 5 <= s.len(),
        s[i] == '<',
        forall|q: int| i + 1 <= q < i + 1 + namelen ==> is_word_char(s[q]),
        s[i + namelen + 1] == '>',
        s[i + namelen + 2] == ' ',
        s[i + namelen + 3] == '+',
        s[i + namelen + 4] == ' ',
        i + namelen + 5 == s.len() || (!is_space_char(s[i + namelen + 5]) && s[i + namelen + 5]
            != '+'),
    ensures
        spec_parse_mod(s, i) == Some(
            (i + namelen + 5, spec_token_mods(s.subrange(i + 1, i + 1 + namelen))),
        ),
{
    lemma_skip_spaces_range(s, i, i);
    assert(spec_sep_end(s, i) == i);
    lemma_scan_word_range(s, i + 1, i + 1 + namelen);
    lemma_skip_spaces_range(s, i + namelen + 2, i + namelen + 3);
    lemma_skip_spaces_range(s, i + namelen + 4, i + namelen + 5);
    assert(spec_sep_end(s, i + namelen + 2) == i + namelen + 5);
}

proof fn lemma_token_super(s: Seq<char>, i: int)
    requires
        0 <= i,
        i + 10 <= s.len(),
        forall|q: int| 0 <= q < 10 ==> s[i + q] == "<Super> + "@[q],
        i + 10 == s.len() || (!is_space_char(s[i + 10]) && s[i + 10] != '+'),
    ensures
        spec_parse_mod(s, i) == Some(
            (i + 10, Modifiers { super_key: true, ..Modifiers::spec_empty() }),
        ),
{
    reveal_strlit("<Super> + ");
    reveal_strlit("super");
    reveal_strlit("cr");
    reveal_strlit("control");
    reveal_strlit("alt");
    reveal_strlit("shift");
    assert(s[i + 0] == "<Super> + "@[0]);
    assert(s[i + 1] == "<Super> + "@[1]);
    assert(s[i + 2] == "<Super> + "@[2]);
    assert(s[i + 3] == "<Super> + "@[3]);
    assert(s[i + 4] == "<Super> + "@[4]);
    assert(s[i + 5] == "<Super> + "@[5]);
    assert(s[i + 6] == "<Super> + "@[6]);
    assert(s[i + 7] == "<Super> + "@[7]);
    assert(s[i + 8] == "<Super> + "@[8]);
    assert(s[i + 9] == "<Super> + "@[9]);
    lemma_parse_token_shape(s, i, 5);
    let name = s.subrange(i + 1, i + 6);
    assert(name.len() == 5);
    assert(seq_eq_ci(name, "super"@)) by {
        assert(char_eq_ci(name[0], "super"@[0]));
        assert(char_eq_ci(name[1], "super"@[1]));
        assert(char_eq_ci(name[2], "super"@[2]));
        assert(char_eq_ci(name[3], "super"@[3]));
        assert(char_eq_ci(name[4], "super"@[4]));
    }
    assert(!seq_eq_ci(name, "cr"@));
    assert(!seq_eq_ci(name, "control"@));
    assert(!seq_eq_ci(name, "alt"@));
    assert(!seq_eq_ci(name, "shift"@)) by {
        assert(!char_eq_ci(name[1], "shift"@[1]));
    }
}

proof fn lemma_token_control(s: Seq<char>, i: int)
    requires
        0 <= i,
        i + 7 <= s.len(),
        forall|q: int| 0 <= q < 7 ==> s[i + q] == "<Cr> + "@[q],
        i + 7 == s.len() || (!is_space_char(s[i + 7]) && s[i + 7] != '+'),
    ensures
        spec_parse_mod(s, i) == Some(
            (i + 7, Modifiers { control_key: true, ..Modifiers::spec_empty() }),
        ),
{
    reveal_strlit("<Cr> + ");
    reveal_strlit("cr");
    assert(s[i + 0] == "<Cr> + "@[0]);
    assert(s[i + 1] == "<Cr> + "@[1]);
    assert(s[i + 2] == "<Cr> + "@[2]);
    assert(s[i + 3] == "<Cr> + "@[3]);
    assert(s[i + 4] == "<Cr> + "@[4]);
    assert(s[i + 5] == "<Cr> + "@[5]);
    assert(s[i + 6] == "<Cr> + "@[6]);
    lemma_parse_token_shape(s, i, 2);
    let name = s.subrange(i + 1, i + 3);
    assert(name.len() == 2);
    assert(seq_eq_ci(name, "cr"@)) by {
        assert(char_eq_ci(name[0], "cr"@[0]));
        assert(char_eq_ci(name[1], "cr"@[1]));
    }
}

proof fn lemma_token_alt(s: Seq<char>, i: int)
    requires
        0 <= i,
        i + 8 <= s.len(),
        forall|q: int| 0 <= q < 8 ==> s[i + q] == "<Alt> + "@[q],
        i + 8 == s.len() || (!is_space_char(s[i + 8]) && s[i + 8] != '+'),
    ensures
        spec_parse_mod(s, i) == Some(
            (i + 8, Modifiers { alt_key: true, ..Modifiers::spec_empty() }),
        ),
{
    reveal_strlit("<Alt> + ");
    reveal_strlit("cr");
    reveal_strlit("control");
    reveal_strlit("alt");
    assert(s[i + 0] == "<Alt> + "@[0]);
    assert(s[i + 1] == "<Alt> + "@[1]);
    assert(s[i + 2] == "<Alt> + "@[2]);
    assert(s[i + 3] == "<Alt> + "@[3]);
    assert(s[i + 4] == "<Alt> + "@[4]);
    assert(s[i + 5] == "<Alt> + "@[5]);
    assert(s[i + 6] == "<Alt> + "@[6]);
    assert(s[i + 7] == "<Alt> + "@[7]);
    lemma_parse_token_shape(s, i, 3);
    let name = s.subrange(i + 1, i + 4);
    assert(name.len() == 3);
    assert(!seq_eq_ci(name, "cr"@));
    assert(!seq_eq_ci(name, "control"@));
    assert(seq_eq_ci(name, "alt"@)) by {
        assert(char_eq_ci(name[0], "alt"@[0]));
        assert(char_eq_ci(name[1], "alt"@[1]));
        assert(char_eq_ci(name[2], "alt"@[2]));
    }
}

proof fn lemma_token_shift(s: Seq<char>, i: int)
    requires
        0 <= i,
        i + 10 <= s.len(),
        forall|q: int| 0 <= q < 10 ==> s[i + q] == "<Shift> + "@[q],
        i + 10 == s.len() || (!is_space_char(s[i + 10]) && s[i + 10] != '+'),
    ensures
        spec_parse_mod(s, i) == Some(
            (i + 10, Modifiers { shift_key: true, ..Modifiers::spec_empty() }),
        ),
{
    reveal_strlit("<Shift> + ");
    reveal_strlit("cr");
    reveal_strlit("control");
    reveal_strlit("alt");
    reveal_strlit("shift");
    assert(s[i + 0] == "<Shift> + "@[0]);
    assert(s[i + 1] == "<Shift> + "@[1]);
    assert(s[i + 2] == "<Shift> + "@[2]);
    assert(s[i + 3] == "<Shift> + "@[3]);
    assert(s[i + 4] == "<Shift> + "@[4]);
    assert(s[i + 5] == "<Shift> + "@[5]);
    assert(s[i + 6] == "<Shift> + "@[6]);
    assert(s[i + 7] == "<Shift> + "@[7]);
    assert(s[i + 8] == "<Shift> + "@[8]);
    assert(s[i + 9] == "<Shift> + "@[9]);
    lemma_parse_token_shape(s, i, 5);
    let name = s.subrange(i + 1, i + 6);
    assert(name.len() == 5);
    assert(!seq_eq_ci(name, "cr"@));
    assert(!seq_eq_ci(name, "control"@));
    assert(!seq_eq_ci(name, "alt"@));
    assert(seq_eq_ci(name, "shift"@)) by {
        assert(char_eq_ci(name[0], "shift"@[0]));
        assert(char_eq_ci(name[1], "shift"@[1]));
        assert(char_eq_ci(name[2], "shift"@[2]));
        assert(char_eq_ci(name[3], "shift"@[3]));
        assert(char_eq_ci(name[4], "shift"@[4]));
    }
}

proof fn lemma_parse_mods_bounds(s: Seq<char>, i: int)
    requires
        0 <= i <= s.len(),
    ensures
        i <= spec_parse_mods(s, i).0 <= s.len(),
    decreases s.len() - i,
{
    match spec_parse_mod(s, i) {
        Some((j, _f)) => {
            lemma_parse_mod_advances(s, i);
            lemma_parse_mods_bounds(s, j);
        },
        None => {
        },
    }
}

// Parsing the canonical text of a modifier set consumes exactly that text
// and yields exactly that set, provided a key follows.
proof fn lemma_parse_mods_canonical(m: Modifiers, key: Seq<char>)
    requires
        key.len() >= 1,
        forall|q: int| 0 <= q < key.len() ==> is_word_char(key[q]),
    ensures
        spec_parse_mods(spec_mods_string(m) + key, 0) == (spec_mods_string(m).len() as int, m),
{
    reveal_strlit("<Super> + ");
    reveal_strlit("<Cr> + ");
    reveal_strlit("<Alt> + ");
    reveal_strlit("<Shift> + ");
    let pa: Seq<char> = if m.super_key {
        "<Super> + "@
    } else {
        Seq::<char>::empty()
    };
    let pb: Seq<char> = if m.control_key {
        "<Cr> + "@
    } else {
        Seq::<char>::empty()
    };
    let pc: Seq<char> = if m.alt_key {
        "<Alt> + "@
    } else {
        Seq::<char>::empty()
    };
    let pd: Seq<char> = if m.shift_key {
        "<Shift> + "@
    } else {
        Seq::<char>::empty()
    };
    let ms = spec_mods_string(m);
    assert(ms == pa + pb + pc + pd);
    let s = ms + key;
    let p1 = pa.len() as int;
    let p2 = p1 + pb.len() as int;
    let p3 = p2 + pc.len() as int;
    let p4 = p3 + pd.len() as int;
    assert(p4 == ms.len());
    assert(s[p4] == key[0]);
    assert(is_word_char(s[p4]));
    lemma_parse_mod_at_word(s, p4);
    let m4 = Modifiers::spec_empty();
    // shift token
    let m3 = m4.spec_union(
        if m.shift_key {
            Modifiers { shift_key: true, ..Modifiers::spec_empty() }
        } else {
            Modifiers::spec_empty()
        },
    );
    if m.shift_key {
        assert forall|q: int| 0 <= q < 10 implies s[p3 + q] == "<Shift> + "@[q] by {
            assert(s[p3 + q] == ms[p3 + q]);
            assert(ms[p3 + q] == pd[q]);
        }
        lemma_token_shift(s, p3);
        lemma_parse_mods_step(s, p3);
        assert(spec_parse_mods(s, p3) == (p4, m3));
    } else {
        assert(spec_parse_mods(s, p3) == (p4, m3));
    }
    // alt token
    let m2 = m3.spec_union(
        if m.alt_key {
            Modifiers { alt_key: true, ..Modifiers::spec_empty() }
        } else {
            Modifiers::spec_empty()
        },
    );
    if m.alt_key {
        assert forall|q: int| 0 <= q < 8 implies s[p2 + q] == "<Alt> + "@[q] by {
            assert(s[p2 + q] == ms[p2 + q]);
            assert(ms[p2 + q] == pc[q]);
        }
        assert(!is_space_char(s[p2 + 8]) && s[p2 + 8] != '+') by {
            if m.shift_key {
                assert(s[p3] == pd[0]);
            } else {
                assert(s[p3] == key[0]);
            }
        }
        lemma_token_alt(s, p2);
        lemma_parse_mods_step(s, p2);
        assert(spec_parse_mods(s, p2) == (p4, m2));
    } else {
        assert(spec_parse_mods(s, p2) == (p4, m2));
    }
    // control token
    let m1 = m2.spec_union(
        if m.control_key {
            Modifiers { control_key: true, ..Modifiers::spec_empty() }
        } else {
            Modifiers::spec_empty()
        },
    );
    if m.control_key {
        assert forall|q: int| 0 <= q < 7 implies s[p1 + q] == "<Cr> + "@[q] by {
            assert(s[p1 + q] == ms[p1 + q]);
            assert(ms[p1 + q] == pb[q]);
        }
        assert(!is_space_char(s[p1 + 7]) && s[p1 + 7] != '+') by {
            if m.alt_key {
                assert(s[p2] == pc[0]);
            } else if m.shift_key {
                assert(s[p2] == pd[0]);
            } else {
                assert(s[p2] == key[0]);
            }
        }
        lemma_token_control(s, p1);
        lemma_parse_mods_step(s, p1);
        assert(spec_parse_mods(s, p1) == (p4, m1));
    } else {
        assert(spec_parse_mods(s, p1) == (p4, m1));
    }
    // super token
    let m0 = m1.spec_union(
        if m.super_key {
            Modifiers { super_key: true, ..Modifiers::spec_empty() }
        } else {
            Modifiers::spec_empty()
        },
    );
    if m.super_key {
        assert forall|q: int| 0 <= q < 10 implies s[0 + q] == "<Super> + "@[q] by {
            assert(s[0 + q] == ms[0 + q]);
            assert(ms[0 + q] == pa[q]);
        }
        assert(!is_space_char(s[10]) && s[10] != '+') by {
            if m.control_key {
                assert(s[p1] == pb[0]);
            } else if m.alt_key {
                assert(s[p1] == pc[0]);
            } else if m.shift_key {
                assert(s[p1] == pd[0]);
            } else {
                assert(s[p1] == key[0]);
            }
        }
        lemma_token_super(s, 0);
        lemma_parse_mods_step(s, 0);
        assert(spec_parse_mods(s, 0) == (p4, m0));
    } else {
        assert(spec_parse_mods(s, 0) == (p4, m0));
    }
    assert(m0 == m);
}

// The canonical text of any well-formed command parses back to that command,
// up to the implicit-shift rule on the key.
proof fn lemma_format_parses(key: Seq<char>, m: Modifiers)
    requires
        key.len() >= 1,
        forall|q: int| 0 <= q < key.len() ==> is_word_char(key[q]),
    ensures
        spec_parse_cmd(spec_command_string(key, m)) == Some((key, spec_apply_upper(key, m))),
{
    lemma_parse_mods_canonical(m, key);
    let s = spec_command_string(key, m);
    let p4 = spec_mods_string(m).len() as int;
    assert(s.len() == p4 + key.len());
    assert forall|q: int| p4 <= q < s.len() implies is_word_char(s[q]) by {
        assert(s[q] == key[q - p4]);
    }
    lemma_skip_spaces_range(s, p4, p4);
    lemma_scan_word_range(s, p4, s.len() as int);
    assert(spec_word(s, p4) == Some((p4, s.len() as int)));
    assert(s.subrange(p4, s.len() as int) =~= key);
}

/// Grammar round-trip law: any command parsed from a configuration string
/// renders to a canonical string that parses back to the very same command.
pub proof fn lemma_parse_format_roundtrip(s: Seq<char>)
    requires
        spec_parse_cmd(s) is Some,
    ensures
        ({
            let (key, m) = spec_parse_cmd(s)->Some_0;
            spec_parse_cmd(spec_command_string(key, m)) == Some((key, m))
        }),
{
    let (key, m) = spec_parse_cmd(s)->Some_0;
    let r = spec_parse_mods(s, 0);
    lemma_parse_mods_bounds(s, 0);
    let a = spec_skip_spaces(s, r.0);
    let b = spec_scan_word(s, a);
    lemma_skip_spaces_props(s, r.0);
    lemma_scan_word_props(s, a);
    assert(key == s.subrange(a, b));
    assert(key.len() >= 1);
    assert forall|q: int| 0 <= q < key.len() implies is_word_char(key[q]) by {
        assert(key[q] == s[a + q]);
    }
    lemma_format_parses(key, m);
    assert(spec_apply_upper(key, m) == m);
}

/// The mathematical value of a [`Command`]: its key text and its flags.
pub ghost struct CommandView {
    pub key: Seq<char>,
    pub mods: Modifiers,
}

impl View for Command {
    type V = CommandView;

    open spec fn view(&self) -> CommandView {
        CommandView { key: self.key@, mods: self.mods }
    }
}

impl Clone for Command {
    /// Copies the command.
    fn clone(&self) -> (r: Command)
        ensures
            r@ == self@,
    {
        Command { key: self.key.clone(), mods: self.mods }
    }
}

impl PartialEq for Command {
    fn eq(&self, other: &Command) -> (r: bool) {
        self.key == other.key && self.mods == other.mods
    }
}

impl Eq for Command {

}

impl vstd::std_specs::cmp::PartialEqSpecImpl for Command {
    open spec fn obeys_eq_spec() -> bool {
        true
    }

    open spec fn eq_spec(&self, other: &Command) -> bool {
        self.key@ == other.key@ && self.mods == other.mods
    }
}

} // verus!
