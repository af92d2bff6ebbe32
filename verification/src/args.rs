//! A command-line grammar: the options, flags and positionals of one command,
//! and how a list of arguments and an environment are read against them.
//!
//! The reading follows the conventions of the command line that KoShelf
//! offers: `--name value`, `--name=value`, `-x value`, `-xvalue`, `-x=value`,
//! clustered short flags (`-wx`), `--` before positionals, repeatable options
//! whose values may be split at a delimiter, values taken from environment
//! variables when an argument is absent, then default values, and pairs of
//! arguments that may not both be given.
//!
//! These are the conventions of clap's derive as KoShelf uses it. Where the
//! two part: a refusal is a `CliError` naming its kind and the index of the
//! argument or option, not a rendered message with suggestions; where an
//! argument list holds several faults, the one reported is the first met in
//! the order above, which need not be the one clap reports; `--help` and
//! `--version` end the reading as the errors `HelpRequested` and
//! `VersionRequested`; and the environment is handed in, not read from the
//! process.

use vstd::prelude::*;
use crate::text::{chars_eq, chars_of, digits_upto, digits_value, str_eq};

verus! {

/// Where the value of an argument came from, weakest first.
#[derive(Debug, Clone, Copy, PartialEq, Eq, Structural)]
pub enum ValueSource {
    DefaultValue,
    EnvVariable,
    CommandLine,
}

/// How an argument takes its values.
#[derive(Debug, Clone, Copy, PartialEq, Eq, Structural)]
pub enum ArgKind {
    /// Present or absent; its value is `true` or `false`.
    Flag,
    /// One value, given at most once.
    Single,
    /// Values collected over every occurrence.
    Append,
    /// Asks for the help text.
    Help,
    /// Asks for the version.
    Version,
}

/// Which values an argument accepts.
#[derive(Debug, Clone, Copy, PartialEq, Eq, Structural)]
pub enum ValueType {
    /// Any text.
    Text,
    /// A path: any text but the empty one.
    Path,
    /// An integer from 0 to 65535.
    U16,
    /// An integer from 0 to `u32::MAX`.
    U32,
    /// `true` or `false`.
    Bool,
}

/// Why a list of arguments was refused.
#[derive(Debug, Clone, Copy, PartialEq, Eq, Structural)]
pub enum CliError {
    /// The argument at this index names no option of the command.
    UnknownArgument(usize),
    /// The argument at this index attaches a value to a flag.
    UnexpectedValue(usize),
    /// The option with this index in its command was given no value.
    MissingValue(usize),
    /// The option with this index in its command was given more than once.
    DuplicateArgument(usize),
    /// The argument at this index is a value that no positional takes.
    UnexpectedPositional(usize),
    /// The option with this index in its command was given a value it does not accept.
    InvalidValue(usize),
    /// The options with these indices in their command were both given.
    ArgumentConflict(usize, usize),
    /// No subcommand was given.
    MissingSubcommand,
    /// The help text was asked for.
    HelpRequested,
    /// The version was asked for.
    VersionRequested,
    /// A set of matches that no reading of arguments produces.
    MalformedMatches,
}

/// One argument of a command.
pub struct ArgDef {
    /// The name under which its value is found.
    pub id: String,
    /// Its long names, written after `--`.
    pub longs: Vec<String>,
    /// Its short names, written after `-`.
    pub shorts: Vec<char>,
    pub kind: ArgKind,
    pub value_type: ValueType,
    /// For an `Append` argument: the character at which each value is split.
    pub delimiter: Option<char>,
    /// The environment variable read when the argument is absent.
    pub env: Option<String>,
    /// The value taken when the argument is absent from both.
    pub default: Option<String>,
}

/// The grammar of one command.
pub struct CommandDef {
    pub args: Vec<ArgDef>,
    /// Indices into `args` of the positionals, in order.
    pub positionals: Vec<usize>,
    /// Names of the subcommands.
    pub subcommands: Vec<String>,
    /// Pairs of indices into `args` that may not both be given.
    pub conflicts: Vec<(usize, usize)>,
}

/// The characters of each string.
pub open spec fn strs(v: Seq<String>) -> Seq<Seq<char>> {
    v.map_values(|s: String| s@)
}

pub open spec fn opt_str(o: Option<String>) -> Option<Seq<char>> {
    match o {
        Some(s) => Some(s@),
        None => None,
    }
}

pub struct ArgSpec {
    pub id: Seq<char>,
    pub longs: Seq<Seq<char>>,
    pub shorts: Seq<char>,
    pub kind: ArgKind,
    pub value_type: ValueType,
    pub delimiter: Option<char>,
    pub env: Option<Seq<char>>,
    pub default: Option<Seq<char>>,
}

impl View for ArgDef {
    type V = ArgSpec;

    open spec fn view(&self) -> ArgSpec {
        ArgSpec {
            id: self.id@,
            longs: strs(self.longs@),
            shorts: self.shorts@,
            kind: self.kind,
            value_type: self.value_type,
            delimiter: self.delimiter,
            env: opt_str(self.env),
            default: opt_str(self.default),
        }
    }
}

pub struct CmdSpec {
    pub args: Seq<ArgSpec>,
    pub positionals: Seq<usize>,
    pub subcommands: Seq<Seq<char>>,
    pub conflicts: Seq<(usize, usize)>,
}

impl View for CommandDef {
    type V = CmdSpec;

    open spec fn view(&self) -> CmdSpec {
        CmdSpec {
            args: args_view(self.args@),
            positionals: self.positionals@,
            subcommands: strs(self.subcommands@),
            conflicts: self.conflicts@,
        }
    }
}

/// Every index that the grammar holds points at one of its arguments, and
/// every positional takes a single value.
pub open spec fn cmd_wf(c: CmdSpec) -> bool {
    &&& forall|p: int|
        0 <= p < c.positionals.len() ==> {
            &&& #[trigger] c.positionals[p] < c.args.len()
            &&& c.args[c.positionals[p] as int].kind == ArgKind::Single
        }
    &&& forall|k: int|
        0 <= k < c.conflicts.len() ==> #[trigger] c.conflicts[k].0 < c.args.len()
            && c.conflicts[k].1 < c.args.len()
}

/// What has been read of one argument.
pub struct SlotSpec {
    pub present: bool,
    pub values: Seq<Seq<char>>,
    pub source: ValueSource,
}

/// The state of reading a command's arguments.
pub struct PState {
    pub slots: Seq<SlotSpec>,
    /// An option that waits for its value in the next argument.
    pub pending: Option<int>,
    /// How many positionals have been filled.
    pub pos: int,
    /// Whether `--` has been read.
    pub trailing: bool,
}

pub open spec fn empty_slot() -> SlotSpec {
    SlotSpec { present: false, values: Seq::empty(), source: ValueSource::DefaultValue }
}

pub open spec fn initial_state(c: CmdSpec) -> PState {
    PState { slots: Seq::new(c.args.len(), |i: int| empty_slot()), pending: None, pos: 0, trailing: false }
}

// ── Text ──────────────────────────────────────────────────────────────

/// The index of the first `d` in `v`.
pub open spec fn first_index_of(v: Seq<char>, d: char) -> Option<int> {
    if exists|i: int| 0 <= i < v.len() && v[i] == d && forall|j: int| 0 <= j < i ==> v[j] != d {
        Some(choose|i: int| 0 <= i < v.len() && v[i] == d && forall|j: int| 0 <= j < i ==> v[j] != d)
    } else {
        None
    }
}

/// `v` cut at every `d`, as `str::split` cuts it.
pub open spec fn split_on(v: Seq<char>, d: char) -> Seq<Seq<char>>
    decreases v.len(),
{
    match first_index_of(v, d) {
        None => seq![v],
        Some(i) => if 0 <= i < v.len() {
            seq![v.take(i)] + split_on(v.skip(i + 1), d)
        } else {
            seq![v]
        },
    }
}

pub open spec fn split_value(v: Seq<char>, delim: Option<char>) -> Seq<Seq<char>> {
    match delim {
        None => seq![v],
        Some(d) => split_on(v, d),
    }
}

/// A whole number read as `i64::from_str` reads it (an optional `+` or `-`,
/// then ASCII digits), accepted when it lies between 0 and `max`.
pub open spec fn ranged_uint(s: Seq<char>, max: int) -> Option<int> {
    if s.len() > 0 && s[0] == '-' {
        match digits_value(s.drop_first()) {
            Some(v) => if v == 0 { Some(0) } else { None },
            None => None,
        }
    } else {
        let d = if s.len() > 0 && s[0] == '+' { s.drop_first() } else { s };
        match digits_value(d) {
            Some(v) => if v <= max { Some(v) } else { None },
            None => None,
        }
    }
}

pub open spec fn true_text() -> Seq<char> {
    seq!['t', 'r', 'u', 'e']
}

pub open spec fn false_text() -> Seq<char> {
    seq!['f', 'a', 'l', 's', 'e']
}

pub open spec fn value_ok(t: ValueType, v: Seq<char>) -> bool {
    match t {
        ValueType::Text => true,
        ValueType::Path => v.len() > 0,
        ValueType::U16 => ranged_uint(v, 65535) is Some,
        ValueType::U32 => ranged_uint(v, 0xffff_ffff) is Some,
        ValueType::Bool => v == true_text() || v == false_text(),
    }
}

pub open spec fn values_ok(t: ValueType, vs: Seq<Seq<char>>) -> bool {
    forall|i: int| 0 <= i < vs.len() ==> #[trigger] value_ok(t, vs[i])
}

// ── Lookups ───────────────────────────────────────────────────────────

/// The first argument, from index `from` on, with the long name `name`.
pub open spec fn find_long(args: Seq<ArgSpec>, name: Seq<char>, from: int) -> Option<int>
    decreases args.len() - from,
{
    if from < 0 || from >= args.len() {
        None
    } else if args[from].longs.contains(name) {
        Some(from)
    } else {
        find_long(args, name, from + 1)
    }
}

/// The first argument, from index `from` on, with the short name `c`.
pub open spec fn find_short(args: Seq<ArgSpec>, c: char, from: int) -> Option<int>
    decreases args.len() - from,
{
    if from < 0 || from >= args.len() {
        None
    } else if args[from].shorts.contains(c) {
        Some(from)
    } else {
        find_short(args, c, from + 1)
    }
}

/// The first subcommand, from index `from` on, named `t`.
pub open spec fn find_sub(subs: Seq<Seq<char>>, t: Seq<char>, from: int) -> Option<int>
    decreases subs.len() - from,
{
    if from < 0 || from >= subs.len() {
        None
    } else if subs[from] == t {
        Some(from)
    } else {
        find_sub(subs, t, from + 1)
    }
}

// ── Reading ───────────────────────────────────────────────────────────

pub open spec fn set_slot(st: PState, a: int, s: SlotSpec) -> PState {
    PState { slots: st.slots.update(a, s), ..st }
}

/// A flag read on the command line.
pub open spec fn record_flag(st: PState, a: int) -> Result<PState, CliError> {
    if st.slots[a].present {
        Err(CliError::DuplicateArgument(a as usize))
    } else {
        Ok(
            set_slot(
                st,
                a,
                SlotSpec { present: true, values: seq![true_text()], source: ValueSource::CommandLine },
            ),
        )
    }
}

/// A value read on the command line for the argument `a`.
pub open spec fn record_value(args: Seq<ArgSpec>, st: PState, a: int, v: Seq<char>) -> Result<PState, CliError> {
    let vs = split_value(v, args[a].delimiter);
    if !values_ok(args[a].value_type, vs) {
        Err(CliError::InvalidValue(a as usize))
    } else if args[a].kind == ArgKind::Append {
        Ok(
            set_slot(
                st,
                a,
                SlotSpec {
                    present: true,
                    values: st.slots[a].values + vs,
                    source: ValueSource::CommandLine,
                },
            ),
        )
    } else if st.slots[a].present {
        Err(CliError::DuplicateArgument(a as usize))
    } else {
        Ok(set_slot(st, a, SlotSpec { present: true, values: vs, source: ValueSource::CommandLine }))
    }
}

/// What an argument given by name (without a value attached) does.
pub open spec fn named_arg(c: CmdSpec, st: PState, a: int) -> Result<PState, CliError> {
    match c.args[a].kind {
        ArgKind::Help => Err(CliError::HelpRequested),
        ArgKind::Version => Err(CliError::VersionRequested),
        ArgKind::Flag => record_flag(st, a),
        _ => Ok(PState { pending: Some(a), ..st }),
    }
}

/// Reads `--body` (the argument at index `ti`).
pub open spec fn long_arg(c: CmdSpec, st: PState, body: Seq<char>, ti: usize) -> Result<PState, CliError> {
    let eq = first_index_of(body, '=');
    let name = match eq {
        Some(e) => body.take(e),
        None => body,
    };
    match find_long(c.args, name, 0) {
        None => Err(CliError::UnknownArgument(ti)),
        Some(a) => match eq {
            None => named_arg(c, st, a),
            Some(e) => match c.args[a].kind {
                ArgKind::Single | ArgKind::Append => record_value(c.args, st, a, body.skip(e + 1)),
                _ => Err(CliError::UnexpectedValue(ti)),
            },
        },
    }
}

/// Reads the short names `cs` of a cluster `-cs` (the argument at index `ti`).
pub open spec fn short_cluster(c: CmdSpec, st: PState, cs: Seq<char>, ti: usize) -> Result<PState, CliError>
    decreases cs.len(),
{
    if cs.len() == 0 {
        Ok(st)
    } else {
        match find_short(c.args, cs[0], 0) {
            None => Err(CliError::UnknownArgument(ti)),
            Some(a) => {
                let rest = cs.drop_first();
                match c.args[a].kind {
                    ArgKind::Flag => match record_flag(st, a) {
                        Err(e) => Err(e),
                        Ok(s2) => short_cluster(c, s2, rest, ti),
                    },
                    ArgKind::Single | ArgKind::Append => if rest.len() == 0 {
                        Ok(PState { pending: Some(a), ..st })
                    } else if rest[0] == '=' {
                        record_value(c.args, st, a, rest.drop_first())
                    } else {
                        record_value(c.args, st, a, rest)
                    },
                    _ => named_arg(c, st, a),
                }
            },
        }
    }
}

pub open spec fn escape_text() -> Seq<char> {
    seq!['-', '-']
}

/// Reads one argument `t`, at index `ti`.
pub open spec fn step(c: CmdSpec, st: PState, t: Seq<char>, ti: usize) -> Result<PState, CliError> {
    if !st.trailing && t == escape_text() {
        match st.pending {
            Some(a) => Err(CliError::MissingValue(a as usize)),
            None => Ok(PState { trailing: true, ..st }),
        }
    } else if !st.trailing && t.len() >= 2 && t[0] == '-' {
        match st.pending {
            Some(a) => Err(CliError::MissingValue(a as usize)),
            None => if t[1] == '-' {
                long_arg(c, st, t.skip(2), ti)
            } else {
                short_cluster(c, st, t.drop_first(), ti)
            },
        }
    } else {
        match st.pending {
            Some(a) => record_value(c.args, PState { pending: None, ..st }, a, t),
            None => if st.pos < c.positionals.len() {
                record_value(
                    c.args,
                    PState { pos: st.pos + 1, ..st },
                    c.positionals[st.pos] as int,
                    t,
                )
            } else {
                Err(CliError::UnexpectedPositional(ti))
            },
        }
    }
}

/// Reads the arguments from index `i` on, stopping before a subcommand's name
/// (giving its index among the subcommands and the argument's index).
pub open spec fn run(c: CmdSpec, st: PState, toks: Seq<Seq<char>>, i: int) -> Result<
    (PState, Option<(int, int)>),
    CliError,
>
    decreases toks.len() - i,
{
    if i < 0 || i >= toks.len() {
        Ok((st, None))
    } else if !st.trailing && st.pending is None && find_sub(c.subcommands, toks[i], 0) is Some {
        Ok((st, Some((find_sub(c.subcommands, toks[i], 0)->0, i))))
    } else {
        match step(c, st, toks[i], i as usize) {
            Err(e) => Err(e),
            Ok(s2) => run(c, s2, toks, i + 1),
        }
    }
}

// ── Environment and defaults ──────────────────────────────────────────

/// The value of the first entry named `name` in `env`.
pub open spec fn env_lookup(env: Seq<(Seq<char>, Seq<char>)>, name: Seq<char>, from: int) -> Option<Seq<char>>
    decreases env.len() - from,
{
    if from < 0 || from >= env.len() {
        None
    } else if env[from].0 == name {
        Some(env[from].1)
    } else {
        env_lookup(env, name, from + 1)
    }
}

/// The slot of an absent argument once its environment variable, then its
/// default, is read.
pub open spec fn fill_slot(a: ArgSpec, s: SlotSpec, idx: int, env: Seq<(Seq<char>, Seq<char>)>) -> Result<SlotSpec, CliError> {
    if s.present {
        Ok(s)
    } else {
        let ev = match a.env {
            Some(n) => env_lookup(env, n, 0),
            None => None,
        };
        match ev {
            Some(v) => {
                let vs = match a.kind {
                    ArgKind::Append => split_value(v, a.delimiter),
                    _ => seq![v],
                };
                if values_ok(a.value_type, vs) {
                    Ok(SlotSpec { present: true, values: vs, source: ValueSource::EnvVariable })
                } else {
                    Err(CliError::InvalidValue(idx as usize))
                }
            },
            None => match a.default {
                Some(d) => Ok(SlotSpec { present: true, values: seq![d], source: ValueSource::DefaultValue }),
                None => Ok(s),
            },
        }
    }
}

/// The slots once each of the first `k` arguments is filled from the
/// environment and the defaults.
pub open spec fn fill_slots(args: Seq<ArgSpec>, slots: Seq<SlotSpec>, env: Seq<(Seq<char>, Seq<char>)>, k: int) -> Result<Seq<SlotSpec>, CliError>
    decreases k,
{
    if k <= 0 {
        Ok(slots)
    } else {
        match fill_slots(args, slots, env, k - 1) {
            Err(e) => Err(e),
            Ok(s2) => match fill_slot(args[k - 1], s2[k - 1], k - 1, env) {
                Err(e) => Err(e),
                Ok(one) => Ok(s2.update(k - 1, one)),
            },
        }
    }
}

/// Given on the command line or in the environment.
pub open spec fn explicit(s: SlotSpec) -> bool {
    s.present && s.source != ValueSource::DefaultValue
}

/// The first conflicting pair, from index `from` on, whose arguments were both given.
pub open spec fn first_conflict(conflicts: Seq<(usize, usize)>, slots: Seq<SlotSpec>, from: int) -> Option<CliError>
    decreases conflicts.len() - from,
{
    if from < 0 || from >= conflicts.len() {
        None
    } else if explicit(slots[conflicts[from].0 as int]) && explicit(slots[conflicts[from].1 as int]) {
        Some(CliError::ArgumentConflict(conflicts[from].0, conflicts[from].1))
    } else {
        first_conflict(conflicts, slots, from + 1)
    }
}

/// The slots read for a command from the arguments at index `start` on, and
/// where a subcommand's name stopped the reading.
pub open spec fn parse_command(c: CmdSpec, toks: Seq<Seq<char>>, start: int, env: Seq<(Seq<char>, Seq<char>)>) -> Result<
    (Seq<SlotSpec>, Option<(int, int)>),
    CliError,
> {
    match run(c, initial_state(c), toks, start) {
        Err(e) => Err(e),
        Ok((st, stop)) => match st.pending {
            Some(a) => Err(CliError::MissingValue(a as usize)),
            None => match fill_slots(c.args, st.slots, env, c.args.len() as int) {
                Err(e) => Err(e),
                Ok(slots) => match first_conflict(c.conflicts, slots, 0) {
                    Some(e) => Err(e),
                    None => Ok((slots, stop)),
                },
            },
        },
    }
}

// ── Executable reading ────────────────────────────────────────────────

/// What has been read of one argument.
pub struct Slot {
    pub present: bool,
    pub values: Vec<String>,
    pub source: ValueSource,
}

impl View for Slot {
    type V = SlotSpec;

    open spec fn view(&self) -> SlotSpec {
        SlotSpec { present: self.present, values: strs(self.values@), source: self.source }
    }
}

/// The state of reading a command's arguments.
pub struct ReadState {
    pub slots: Vec<Slot>,
    pub pending: Option<usize>,
    pub pos: usize,
    pub trailing: bool,
}

pub open spec fn slots_view(s: Seq<Slot>) -> Seq<SlotSpec> {
    s.map_values(|x: Slot| x@)
}

pub open spec fn opt_int(o: Option<usize>) -> Option<int> {
    match o {
        Some(a) => Some(a as int),
        None => None,
    }
}

impl View for ReadState {
    type V = PState;

    open spec fn view(&self) -> PState {
        PState {
            slots: slots_view(self.slots@),
            pending: opt_int(self.pending),
            pos: self.pos as int,
            trailing: self.trailing,
        }
    }
}

pub open spec fn args_view(v: Seq<ArgDef>) -> Seq<ArgSpec> {
    v.map_values(|a: ArgDef| a@)
}

/// `r` is what the reading `s` gives.
pub open spec fn gives(r: Result<ReadState, CliError>, s: Result<PState, CliError>) -> bool {
    match s {
        Ok(p) => r matches Ok(x) && x@ == p,
        Err(e) => r == Err::<ReadState, CliError>(e),
    }
}

proof fn lemma_strs_push(a: Seq<String>, x: String)
    ensures
        strs(a.push(x)) == strs(a).push(x@),
{
    assert(strs(a.push(x)) =~= strs(a).push(x@));
}

proof fn lemma_strs_add(a: Seq<String>, b: Seq<String>)
    ensures
        strs(a + b) == strs(a) + strs(b),
{
    assert(strs(a + b) =~= strs(a) + strs(b));
}

proof fn lemma_slots_update(s: Seq<Slot>, i: int, x: Slot)
    requires
        0 <= i < s.len(),
    ensures
        slots_view(s.update(i, x)) == slots_view(s).update(i, x@),
{
    assert(slots_view(s.update(i, x)) =~= slots_view(s).update(i, x@));
}

pub(crate) proof fn lemma_first_index_at(v: Seq<char>, d: char, k: int)
    requires
        0 <= k < v.len(),
        v[k] == d,
        forall|j: int| 0 <= j < k ==> v[j] != d,
    ensures
        first_index_of(v, d) == Some(k),
{
    assert(0 <= k < v.len() && v[k] == d && forall|j: int| 0 <= j < k ==> v[j] != d);
    let i = choose|i: int| 0 <= i < v.len() && v[i] == d && forall|j: int| 0 <= j < i ==> v[j] != d;
    if i < k {
        assert(v[i] != d);
    } else if i > k {
        assert(v[k] != d);
    }
}

pub(crate) proof fn lemma_first_index_none(v: Seq<char>, d: char)
    requires
        forall|j: int| 0 <= j < v.len() ==> v[j] != d,
    ensures
        first_index_of(v, d) is None,
{
}

/// A copy of each string.
pub fn clone_strings(v: &Vec<String>) -> (r: Vec<String>)
    ensures
        strs(r@) == strs(v@),
{
    let mut r: Vec<String> = Vec::new();
    let mut i: usize = 0;
    while i < v.len()
        invariant
            i <= v@.len(),
            strs(r@) == strs(v@.take(i as int)),
        decreases v@.len() - i,
    {
        let x = v[i].clone();
        proof {
            lemma_strs_push(r@, x);
            assert(v@.take(i + 1) =~= v@.take(i as int).push(v@[i as int]));
            lemma_strs_push(v@.take(i as int), v@[i as int]);
        }
        r.push(x);
        i = i + 1;
    }
    assert(v@.take(v@.len() as int) =~= v@);
    r
}

/// The characters of `tok` from index `from` up to `to`, as a string.
pub fn substring(tok: &str, from: usize, to: usize) -> (r: String)
    requires
        from <= to <= tok@.len(),
    ensures
        r@ == tok@.subrange(from as int, to as int),
{
    String::from_str(tok.substring_char(from, to))
}

/// The characters of `tc` from index `lo` up to `hi`.
pub fn copy_range(tc: &[char], lo: usize, hi: usize) -> (r: Vec<char>)
    requires
        lo <= hi <= tc@.len(),
    ensures
        r@ == tc@.subrange(lo as int, hi as int),
{
    let mut r: Vec<char> = Vec::new();
    let mut i: usize = lo;
    while i < hi
        invariant
            lo <= i <= hi,
            hi <= tc@.len(),
            r@ == tc@.subrange(lo as int, i as int),
        decreases hi - i,
    {
        r.push(tc[i]);
        i = i + 1;
        assert(r@ =~= tc@.subrange(lo as int, i as int));
    }
    r
}

/// The value `tok[from..]` split as `split_value` states.
pub fn split_exec(tok: &str, tc: &[char], from: usize, delim: Option<char>) -> (r: Vec<String>)
    requires
        tc@ == tok@,
        from <= tc@.len(),
    ensures
        strs(r@) == split_value(tc@.skip(from as int), delim),
{
    let n = tc.len();
    match delim {
        None => {
            let one = substring(tok, from, n);
            let r = vec![one];
            assert(strs(r@) =~= seq![tc@.skip(from as int)]);
            r
        },
        Some(d) => {
            let mut out: Vec<String> = Vec::new();
            let mut start: usize = from;
            let mut i: usize = from;
            assert(strs(out@) + split_on(tc@.subrange(start as int, n as int), d) =~= split_on(
                tc@.subrange(from as int, n as int),
                d,
            ));
            while i < n
                invariant
                    n == tc@.len(),
                    tc@ == tok@,
                    from <= start <= i <= n,
                    forall|j: int| start <= j < i ==> tc@[j] != d,
                    strs(out@) + split_on(tc@.subrange(start as int, n as int), d) == split_on(
                        tc@.subrange(from as int, n as int),
                        d,
                    ),
                decreases n - i,
            {
                if tc[i] == d {
                    let ghost w = tc@.subrange(start as int, n as int);
                    proof {
                        lemma_first_index_at(w, d, i - start);
                        assert(w.take(i - start) =~= tc@.subrange(start as int, i as int));
                        assert(w.skip(i - start + 1) =~= tc@.subrange(i + 1, n as int));
                    }
                    let seg = substring(tok, start, i);
                    proof {
                        lemma_strs_push(out@, seg);
                        assert(strs(out@.push(seg)) + split_on(tc@.subrange(i + 1, n as int), d)
                            =~= strs(out@) + split_on(w, d));
                    }
                    out.push(seg);
                    start = i + 1;
                }
                i = i + 1;
            }
            let ghost w = tc@.subrange(start as int, n as int);
            proof {
                lemma_first_index_none(w, d);
            }
            let last = substring(tok, start, n);
            proof {
                lemma_strs_push(out@, last);
                assert(tc@.skip(from as int) =~= tc@.subrange(from as int, n as int));
            }
            out.push(last);
            out
        },
    }
}

/// `ranged_uint` of the characters `s`.
pub fn ranged_uint_of(s: &[char], max: u64) -> (r: Option<u64>)
    requires
        max <= u32::MAX,
    ensures
        match ranged_uint(s@, max as int) {
            Some(v) => r == Some(v as u64) && 0 <= v <= max,
            None => r is None,
        },
{
    if s.len() > 0 && s[0] == '-' {
        assert(s@.skip(1) =~= s@.drop_first());
        match digits_upto(s, 1, 0) {
            Some(_) => Some(0),
            None => None,
        }
    } else {
        let start: usize = if s.len() > 0 && s[0] == '+' { 1 } else { 0 };
        assert(s@.skip(start as int) =~= (if s@.len() > 0 && s@[0] == '+' { s@.drop_first() } else { s@ }));
        let r = digits_upto(s, start, max);
        r
    }
}

/// Whether `v` is accepted as `value_ok` states.
pub fn value_ok_exec(t: ValueType, v: &String) -> (r: bool)
    ensures
        r == value_ok(t, v@),
{
    match t {
        ValueType::Text => true,
        ValueType::Path => v.as_str().unicode_len() > 0,
        ValueType::U16 => {
            let c = chars_of(v.as_str());
            ranged_uint_of(c.as_slice(), 65535).is_some()
        },
        ValueType::U32 => {
            let c = chars_of(v.as_str());
            ranged_uint_of(c.as_slice(), 0xffff_ffff).is_some()
        },
        ValueType::Bool => {
            proof {
                reveal_strlit("true");
                reveal_strlit("false");
            }
            assert("true"@ =~= true_text());
            assert("false"@ =~= false_text());
            str_eq(v.as_str(), "true") || str_eq(v.as_str(), "false")
        },
    }
}

/// Whether each of `vs` is accepted, as `values_ok` states.
pub fn values_ok_exec(t: ValueType, vs: &Vec<String>) -> (r: bool)
    ensures
        r == values_ok(t, strs(vs@)),
{
    let mut i: usize = 0;
    while i < vs.len()
        invariant
            i <= vs@.len(),
            forall|j: int| 0 <= j < i ==> #[trigger] value_ok(t, strs(vs@)[j]),
        decreases vs@.len() - i,
    {
        if !value_ok_exec(t, &vs[i]) {
            assert(!value_ok(t, strs(vs@)[i as int]));
            return false;
        }
        i = i + 1;
    }
    true
}

/// Whether `name` is one of `names`.
pub fn contains_name(names: &Vec<String>, name: &[char]) -> (r: bool)
    ensures
        r == strs(names@).contains(name@),
{
    let mut i: usize = 0;
    while i < names.len()
        invariant
            i <= names@.len(),
            forall|j: int| 0 <= j < i ==> strs(names@)[j] != name@,
        decreases names@.len() - i,
    {
        let c = chars_of(names[i].as_str());
        if chars_eq(c.as_slice(), name) {
            assert(strs(names@)[i as int] == name@);
            return true;
        }
        i = i + 1;
    }
    false
}

/// Whether `c` is one of `cs`.
pub fn contains_char(cs: &Vec<char>, c: char) -> (r: bool)
    ensures
        r == cs@.contains(c),
{
    let mut i: usize = 0;
    while i < cs.len()
        invariant
            i <= cs@.len(),
            forall|j: int| 0 <= j < i ==> cs@[j] != c,
        decreases cs@.len() - i,
    {
        if cs[i] == c {
            return true;
        }
        i = i + 1;
    }
    false
}

/// The index of the first argument with the long name `name`.
pub fn find_long_idx(args: &Vec<ArgDef>, name: &[char]) -> (r: Option<usize>)
    ensures
        opt_int(r) == find_long(args_view(args@), name@, 0),
        r matches Some(a) ==> a < args@.len(),
{
    let ghost av = args_view(args@);
    let mut i: usize = 0;
    while i < args.len()
        invariant
            av == args_view(args@),
            i <= args@.len(),
            find_long(av, name@, 0) == find_long(av, name@, i as int),
        decreases args@.len() - i,
    {
        if contains_name(&args[i].longs, name) {
            return Some(i);
        }
        i = i + 1;
    }
    None
}

/// The index of the first argument with the short name `c`.
pub fn find_short_idx(args: &Vec<ArgDef>, c: char) -> (r: Option<usize>)
    ensures
        opt_int(r) == find_short(args_view(args@), c, 0),
        r matches Some(a) ==> a < args@.len(),
{
    let ghost av = args_view(args@);
    let mut i: usize = 0;
    while i < args.len()
        invariant
            av == args_view(args@),
            i <= args@.len(),
            find_short(av, c, 0) == find_short(av, c, i as int),
        decreases args@.len() - i,
    {
        if contains_char(&args[i].shorts, c) {
            return Some(i);
        }
        i = i + 1;
    }
    None
}

/// The index of the first subcommand named `t`.
pub fn find_sub_idx(subs: &Vec<String>, t: &str) -> (r: Option<usize>)
    ensures
        opt_int(r) == find_sub(strs(subs@), t@, 0),
        r matches Some(k) ==> k < subs@.len(),
{
    let mut i: usize = 0;
    while i < subs.len()
        invariant
            i <= subs@.len(),
            find_sub(strs(subs@), t@, 0) == find_sub(strs(subs@), t@, i as int),
        decreases subs@.len() - i,
    {
        if str_eq(subs[i].as_str(), t) {
            return Some(i);
        }
        i = i + 1;
    }
    None
}

/// A flag read on the command line, as `record_flag` states.
pub fn record_flag_exec(st: ReadState, a: usize) -> (r: Result<ReadState, CliError>)
    requires
        a < st.slots@.len(),
    ensures
        gives(r, record_flag(st@, a as int)),
        r matches Ok(x) ==> x.slots@.len() == st.slots@.len() && x.pending == st.pending && x.pos
            == st.pos && x.trailing == st.trailing,
{
    if st.slots[a].present {
        return Err(CliError::DuplicateArgument(a));
    }
    proof {
        reveal_strlit("true");
    }
    assert("true"@ =~= true_text());
    let t = String::from_str("true");
    let vals = vec![t];
    assert(strs(vals@) =~= seq![true_text()]);
    let mut st = st;
    let ghost old_slots = st.slots@;
    let one = Slot { present: true, values: vals, source: ValueSource::CommandLine };
    st.slots.set(a, one);
    proof {
        lemma_slots_update(old_slots, a as int, one);
    }
    Ok(st)
}

/// A value `tok[from..]` read on the command line for the argument `a`, as
/// `record_value` states.
pub fn record_value_exec(
    args: &Vec<ArgDef>,
    st: ReadState,
    a: usize,
    tok: &str,
    tc: &[char],
    from: usize,
) -> (r: Result<ReadState, CliError>)
    requires
        a < args@.len(),
        st.slots@.len() == args@.len(),
        tc@ == tok@,
        from <= tc@.len(),
    ensures
        gives(r, record_value(args_view(args@), st@, a as int, tc@.skip(from as int))),
        r matches Ok(x) ==> x.slots@.len() == st.slots@.len() && x.pending == st.pending && x.pos
            == st.pos && x.trailing == st.trailing,
{
    let ghost av = args_view(args@);
    assert(av[a as int] == args@[a as int]@);
    let vs = split_exec(tok, tc, from, args[a].delimiter);
    if !values_ok_exec(args[a].value_type, &vs) {
        return Err(CliError::InvalidValue(a));
    }
    let mut st = st;
    let ghost old_slots = st.slots@;
    if args[a].kind == ArgKind::Append {
        let mut nv = clone_strings(&st.slots[a].values);
        let mut vs = vs;
        let ghost nv0 = nv@;
        let ghost vs0 = vs@;
        nv.append(&mut vs);
        proof {
            lemma_strs_add(nv0, vs0);
        }
        let one = Slot { present: true, values: nv, source: ValueSource::CommandLine };
        st.slots.set(a, one);
        proof {
            lemma_slots_update(old_slots, a as int, one);
        }
        Ok(st)
    } else if st.slots[a].present {
        Err(CliError::DuplicateArgument(a))
    } else {
        let one = Slot { present: true, values: vs, source: ValueSource::CommandLine };
        st.slots.set(a, one);
        proof {
            lemma_slots_update(old_slots, a as int, one);
        }
        Ok(st)
    }
}

/// An argument given by name without an attached value, as `named_arg` states.
pub fn named_arg_exec(cmd: &CommandDef, st: ReadState, a: usize) -> (r: Result<ReadState, CliError>)
    requires
        a < cmd.args@.len(),
        st.slots@.len() == cmd.args@.len(),
        st.pending matches Some(p) ==> p < cmd.args@.len(),
    ensures
        gives(r, named_arg(cmd@, st@, a as int)),
        r matches Ok(x) ==> x.slots@.len() == st.slots@.len() && (x.pending matches Some(p) ==> p
            < cmd.args@.len()) && x.pos == st.pos && x.trailing == st.trailing,
{
    assert(cmd@.args[a as int] == cmd.args@[a as int]@);
    match cmd.args[a].kind {
        ArgKind::Help => Err(CliError::HelpRequested),
        ArgKind::Version => Err(CliError::VersionRequested),
        ArgKind::Flag => {
            let r = record_flag_exec(st, a);
            r
        },
        _ => {
            let mut st = st;
            st.pending = Some(a);
            Ok(st)
        },
    }
}

/// The index of the first `d` in `tc` from index `from` on.
pub fn first_index_exec(tc: &[char], from: usize, d: char) -> (r: Option<usize>)
    requires
        from <= tc@.len(),
    ensures
        match first_index_of(tc@.skip(from as int), d) {
            Some(k) => r is Some,
            None => r is None,
        },
        r matches Some(i) ==> from <= i < tc@.len() && first_index_of(tc@.skip(from as int), d)
            == Some(i - from),
{
    let ghost v = tc@.skip(from as int);
    let mut i: usize = from;
    while i < tc.len()
        invariant
            from <= i <= tc@.len(),
            v == tc@.skip(from as int),
            forall|j: int| from <= j < i ==> tc@[j] != d,
        decreases tc@.len() - i,
    {
        if tc[i] == d {
            proof {
                lemma_first_index_at(v, d, i - from);
            }
            return Some(i);
        }
        i = i + 1;
    }
    proof {
        lemma_first_index_none(v, d);
    }
    None
}

/// Reads `--body`, the argument `tok` at index `ti`, as `long_arg` states.
pub fn long_arg_exec(cmd: &CommandDef, st: ReadState, tok: &str, tc: &[char], ti: usize) -> (r: Result<ReadState, CliError>)
    requires
        tc@ == tok@,
        tc@.len() >= 2,
        st.slots@.len() == cmd.args@.len(),
        st.pending is None,
    ensures
        gives(r, long_arg(cmd@, st@, tc@.skip(2), ti)),
        r matches Ok(x) ==> x.slots@.len() == st.slots@.len() && (x.pending matches Some(p) ==> p
            < cmd.args@.len()) && x.pos == st.pos && x.trailing == st.trailing,
{
    let ghost body = tc@.skip(2);
    let eq = first_index_exec(tc, 2, '=');
    let name_end: usize = match eq {
        Some(e) => e,
        None => tc.len(),
    };
    let name = copy_range(tc, 2, name_end);
    proof {
        match first_index_of(body, '=') {
            Some(e) => {
                assert(name@ =~= body.take(e));
            },
            None => {
                assert(name@ =~= body);
            },
        }
    }
    match find_long_idx(&cmd.args, name.as_slice()) {
        None => Err(CliError::UnknownArgument(ti)),
        Some(a) => {
            assert(cmd@.args[a as int] == cmd.args@[a as int]@);
            match eq {
                None => named_arg_exec(cmd, st, a),
                Some(e) => {
                    match cmd.args[a].kind {
                        ArgKind::Single | ArgKind::Append => {
                            assert(body.skip((e - 2) + 1) =~= tc@.skip(e + 1));
                            assert(e < tc.len());
                            record_value_exec(&cmd.args, st, a, tok, tc, e + 1)
                        },
                        _ => Err(CliError::UnexpectedValue(ti)),
                    }
                },
            }
        },
    }
}

/// Reads the short cluster `tok` (`-` then short names), at index `ti`, as
/// `short_cluster` states.
pub fn short_cluster_exec(cmd: &CommandDef, st: ReadState, tok: &str, tc: &[char], ti: usize) -> (r: Result<ReadState, CliError>)
    requires
        tc@ == tok@,
        tc@.len() >= 1,
        st.slots@.len() == cmd.args@.len(),
        st.pending is None,
    ensures
        gives(r, short_cluster(cmd@, st@, tc@.drop_first(), ti)),
        r matches Ok(x) ==> x.slots@.len() == st.slots@.len() && (x.pending matches Some(p) ==> p
            < cmd.args@.len()) && x.pos == st.pos && x.trailing == st.trailing,
{
    let ghost c = cmd@;
    let ghost st0 = st@;
    let ghost pending0 = st.pending;
    let ghost pos0 = st.pos;
    let ghost tr0 = st.trailing;
    let mut st = st;
    let mut j: usize = 1;
    assert(tc@.skip(1) =~= tc@.drop_first());
    #[verifier::loop_isolation(false)]
    while j < tc.len()
        invariant
            c == cmd@,
            tc@ == tok@,
            1 <= j <= tc@.len(),
            st.slots@.len() == cmd.args@.len(),
            st.pending == pending0,
            pending0 is None,
            st.pos == pos0,
            st.trailing == tr0,
            short_cluster(c, st0, tc@.drop_first(), ti) == short_cluster(c, st@, tc@.skip(j as int), ti),
        decreases tc@.len() - j,
    {
        let ghost cs = tc@.skip(j as int);
        assert(cs[0] == tc@[j as int]);
        assert(cs.drop_first() =~= tc@.skip(j + 1));
        match find_short_idx(&cmd.args, tc[j]) {
            None => {
                assert(short_cluster(c, st@, cs, ti) == Err::<PState, CliError>(
                    CliError::UnknownArgument(ti),
                ));
                return Err(CliError::UnknownArgument(ti));
            },
            Some(a) => {
                assert(c.args[a as int] == cmd.args@[a as int]@);
                match cmd.args[a].kind {
                    ArgKind::Flag => {
                        match record_flag_exec(st, a) {
                            Err(e) => {
                                assert(short_cluster(c, st@, cs, ti) == Err::<PState, CliError>(e));
                                return Err(e);
                            },
                            Ok(s2) => {
                                st = s2;
                            },
                        }
                    },
                    ArgKind::Single | ArgKind::Append => {
                        if j + 1 >= tc.len() {
                            st.pending = Some(a);
                            return Ok(st);
                        } else if tc[j + 1] == '=' {
                            assert(cs.drop_first().drop_first() =~= tc@.skip(j + 2));
                            return record_value_exec(&cmd.args, st, a, tok, tc, j + 2);
                        } else {
                            return record_value_exec(&cmd.args, st, a, tok, tc, j + 1);
                        }
                    },
                    _ => {
                        return named_arg_exec(cmd, st, a);
                    },
                }
            },
        }
        j = j + 1;
    }
    assert(tc@.skip(j as int).len() == 0);
    Ok(st)
}

/// Reads one argument `tok`, at index `ti`, as `step` states.
pub fn step_exec(cmd: &CommandDef, st: ReadState, tok: &str, ti: usize) -> (r: Result<ReadState, CliError>)
    requires
        cmd_wf(cmd@),
        st.slots@.len() == cmd.args@.len(),
        st.pending matches Some(p) ==> p < cmd.args@.len(),
    ensures
        gives(r, step(cmd@, st@, tok@, ti)),
        r matches Ok(x) ==> x.slots@.len() == st.slots@.len() && (x.pending matches Some(p) ==> p
            < cmd.args@.len()),
{
    let tc = chars_of(tok);
    let is_escape = tc.len() == 2 && tc[0] == '-' && tc[1] == '-';
    assert(is_escape == (tc@ == escape_text())) by {
        if tc@ == escape_text() {
            assert(tc@[0] == '-' && tc@[1] == '-');
        }
        if is_escape {
            assert(tc@ =~= escape_text());
        }
    }
    if !st.trailing && is_escape {
        match st.pending {
            Some(a) => Err(CliError::MissingValue(a)),
            None => {
                let mut st = st;
                st.trailing = true;
                Ok(st)
            },
        }
    } else if !st.trailing && tc.len() >= 2 && tc[0] == '-' {
        match st.pending {
            Some(a) => Err(CliError::MissingValue(a)),
            None => if tc[1] == '-' {
                long_arg_exec(cmd, st, tok, tc.as_slice(), ti)
            } else {
                short_cluster_exec(cmd, st, tok, tc.as_slice(), ti)
            },
        }
    } else {
        assert(tc@.skip(0) =~= tc@);
        match st.pending {
            Some(a) => {
                let mut st = st;
                st.pending = None;
                record_value_exec(&cmd.args, st, a, tok, tc.as_slice(), 0)
            },
            None => if st.pos < cmd.positionals.len() {
                let p = cmd.positionals[st.pos];
                assert(cmd@.positionals[st.pos as int] == p);
                let mut st = st;
                st.pos = st.pos + 1;
                record_value_exec(&cmd.args, st, p, tok, tc.as_slice(), 0)
            } else {
                Err(CliError::UnexpectedPositional(ti))
            },
        }
    }
}

/// The state before any argument of the command is read.
pub fn initial_reader(cmd: &CommandDef) -> (r: ReadState)
    ensures
        r@ == initial_state(cmd@),
        r.slots@.len() == cmd.args@.len(),
        r.pending is None,
{
    let mut slots: Vec<Slot> = Vec::new();
    let mut i: usize = 0;
    while i < cmd.args.len()
        invariant
            i <= cmd.args@.len(),
            slots@.len() == i,
            forall|j: int| 0 <= j < i ==> #[trigger] slots@[j]@ == empty_slot(),
        decreases cmd.args@.len() - i,
    {
        let one = Slot { present: false, values: Vec::new(), source: ValueSource::DefaultValue };
        assert(one@ == empty_slot()) by {
            assert(strs(one.values@) =~= Seq::<Seq<char>>::empty());
        }
        slots.push(one);
        i = i + 1;
    }
    let r = ReadState { slots, pending: None, pos: 0, trailing: false };
    assert(r@.slots =~= initial_state(cmd@).slots);
    r
}

/// Where the reading of a command's arguments stopped.
pub open spec fn stop_view(o: Option<(usize, usize)>) -> Option<(int, int)> {
    match o {
        Some((a, b)) => Some((a as int, b as int)),
        None => None,
    }
}

/// Reads the arguments `toks` from index `i` on, as `run` states.
pub fn run_exec(cmd: &CommandDef, st_in: ReadState, toks: &Vec<String>, start: usize) -> (r: Result<(ReadState, Option<(usize, usize)>), CliError>)
    requires
        cmd_wf(cmd@),
        st_in.slots@.len() == cmd.args@.len(),
        st_in.pending matches Some(p) ==> p < cmd.args@.len(),
        start <= toks@.len(),
    ensures
        match run(cmd@, st_in@, strs(toks@), start as int) {
            Ok((p, stop)) => r matches Ok((x, xs)) && x@ == p && stop_view(xs) == stop
                && x.slots@.len() == cmd.args@.len() && (x.pending matches Some(q) ==> q
                < cmd.args@.len()) && (xs matches Some((k, t)) ==> k < cmd.subcommands@.len()
                && t < toks@.len()),
            Err(e) => r == Err::<(ReadState, Option<(usize, usize)>), CliError>(e),
        },
{
    let ghost c = cmd@;
    let ghost tv = strs(toks@);
    let ghost st0 = st_in@;
    let mut st = st_in;
    let mut i = start;
    #[verifier::loop_isolation(false)]
    while i < toks.len()
        invariant
            c == cmd@,
            tv == strs(toks@),
            i <= toks@.len(),
            st.slots@.len() == cmd.args@.len(),
            st.pending matches Some(p) ==> p < cmd.args@.len(),
            run(c, st0, tv, start as int) == run(c, st@, tv, i as int),
        decreases toks@.len() - i,
    {
        assert(tv[i as int] == toks@[i as int]@);
        if !st.trailing && st.pending.is_none() {
            match find_sub_idx(&cmd.subcommands, toks[i].as_str()) {
                Some(k) => {
                    return Ok((st, Some((k, i))));
                },
                None => {},
            }
        }
        let ghost before = st@;
        match step_exec(cmd, st, toks[i].as_str(), i) {
            Err(e) => {
                assert(run(c, before, tv, i as int) == Err::<(PState, Option<(int, int)>), CliError>(e));
                return Err(e);
            },
            Ok(s2) => {
                st = s2;
            },
        }
        i = i + 1;
    }
    assert(run(c, st@, tv, i as int) == Ok::<(PState, Option<(int, int)>), CliError>((st@, None)));
    Ok((st, None))
}

/// The index of the first entry of `env` named `name`.
pub fn env_lookup_exec(env: &Vec<(String, String)>, name: &str) -> (r: Option<usize>)
    ensures
        match env_lookup(env_view(env@), name@, 0) {
            Some(v) => r matches Some(j) && j < env@.len() && env@[j as int].1@ == v,
            None => r is None,
        },
{
    let ghost ev = env_view(env@);
    let mut i: usize = 0;
    while i < env.len()
        invariant
            ev == env_view(env@),
            i <= env@.len(),
            env_lookup(ev, name@, 0) == env_lookup(ev, name@, i as int),
        decreases env@.len() - i,
    {
        assert(ev[i as int] == (env@[i as int].0@, env@[i as int].1@));
        if str_eq(env[i].0.as_str(), name) {
            return Some(i);
        }
        i = i + 1;
    }
    None
}

/// The names and values of an environment.
pub open spec fn env_view(env: Seq<(String, String)>) -> Seq<(Seq<char>, Seq<char>)> {
    env.map_values(|p: (String, String)| (p.0@, p.1@))
}

/// Once the filling fails at an argument, it fails there whatever follows.
proof fn lemma_fill_error_persists(
    args: Seq<ArgSpec>,
    slots: Seq<SlotSpec>,
    env: Seq<(Seq<char>, Seq<char>)>,
    k: int,
    j: int,
)
    requires
        0 <= k <= j,
        fill_slots(args, slots, env, k) is Err,
    ensures
        fill_slots(args, slots, env, j) == fill_slots(args, slots, env, k),
    decreases j - k,
{
    if j > k {
        lemma_fill_error_persists(args, slots, env, k, j - 1);
    }
}

/// The filling never changes the number of slots.
proof fn lemma_fill_len(args: Seq<ArgSpec>, slots: Seq<SlotSpec>, env: Seq<(Seq<char>, Seq<char>)>, k: int)
    requires
        0 <= k <= slots.len(),
    ensures
        fill_slots(args, slots, env, k) matches Ok(s) ==> s.len() == slots.len(),
    decreases k,
{
    if k > 0 {
        lemma_fill_len(args, slots, env, k - 1);
    }
}

/// Fills the absent arguments from the environment and the defaults, as
/// `fill_slots` states.
pub fn fill_slots_exec(args: &Vec<ArgDef>, slots: Vec<Slot>, env: &Vec<(String, String)>) -> (r: Result<Vec<Slot>, CliError>)
    requires
        slots@.len() == args@.len(),
    ensures
        match fill_slots(args_view(args@), slots_view(slots@), env_view(env@), args@.len() as int) {
            Ok(s) => r matches Ok(x) && slots_view(x@) == s && x@.len() == args@.len(),
            Err(e) => r == Err::<Vec<Slot>, CliError>(e),
        },
{
    let ghost av = args_view(args@);
    let ghost s0 = slots_view(slots@);
    let ghost ev = env_view(env@);
    let mut cur = slots;
    let mut k: usize = 0;
    while k < args.len()
        invariant
            av == args_view(args@),
            ev == env_view(env@),
            s0 == slots_view(slots@),
            s0.len() == args@.len(),
            cur@.len() == args@.len(),
            k <= args@.len(),
            fill_slots(av, s0, ev, k as int) == Ok::<Seq<SlotSpec>, CliError>(slots_view(cur@)),
        decreases args@.len() - k,
    {
        assert(av[k as int] == args@[k as int]@);
        let ghost sv = slots_view(cur@);
        if !cur[k].present {
            let ev_idx = match &args[k].env {
                Some(n) => env_lookup_exec(env, n.as_str()),
                None => None,
            };
            match ev_idx {
                Some(j) => {
                    let v = &env[j].1;
                    let vc = chars_of(v.as_str());
                    let vs = match args[k].kind {
                        ArgKind::Append => split_exec(v.as_str(), vc.as_slice(), 0, args[k].delimiter),
                        _ => {
                            let one = vec![v.clone()];
                            assert(strs(one@) =~= seq![v@]);
                            one
                        },
                    };
                    assert(vc@.skip(0) =~= vc@);
                    if !values_ok_exec(args[k].value_type, &vs) {
                        assert(fill_slot(av[k as int], sv[k as int], k as int, ev) == Err::<SlotSpec, CliError>(CliError::InvalidValue(k)));
                        proof {
                            lemma_fill_error_persists(av, s0, ev, k + 1, args@.len() as int);
                        }
                        return Err(CliError::InvalidValue(k));
                    }
                    let one = Slot { present: true, values: vs, source: ValueSource::EnvVariable };
                    let ghost old_cur = cur@;
                    cur.set(k, one);
                    proof {
                        lemma_slots_update(old_cur, k as int, one);
                    }
                },
                None => {
                    match &args[k].default {
                        Some(d) => {
                            let vals = vec![d.clone()];
                            assert(strs(vals@) =~= seq![d@]);
                            let one = Slot { present: true, values: vals, source: ValueSource::DefaultValue };
                            let ghost old_cur = cur@;
                            cur.set(k, one);
                            proof {
                                lemma_slots_update(old_cur, k as int, one);
                            }
                        },
                        None => {
                            assert(sv.update(k as int, sv[k as int]) =~= sv);
                        },
                    }
                },
            }
        } else {
            assert(sv.update(k as int, sv[k as int]) =~= sv);
        }
        k = k + 1;
    }
    Ok(cur)
}

/// The first conflicting pair whose arguments were both given, as
/// `first_conflict` states.
pub fn first_conflict_exec(conflicts: &Vec<(usize, usize)>, slots: &Vec<Slot>) -> (r: Option<CliError>)
    requires
        forall|k: int|
            0 <= k < conflicts@.len() ==> #[trigger] conflicts@[k].0 < slots@.len()
                && conflicts@[k].1 < slots@.len(),
    ensures
        r == first_conflict(conflicts@, slots_view(slots@), 0),
{
    let ghost sv = slots_view(slots@);
    let mut i: usize = 0;
    while i < conflicts.len()
        invariant
            sv == slots_view(slots@),
            i <= conflicts@.len(),
            forall|k: int|
                0 <= k < conflicts@.len() ==> #[trigger] conflicts@[k].0 < slots@.len()
                    && conflicts@[k].1 < slots@.len(),
            first_conflict(conflicts@, sv, 0) == first_conflict(conflicts@, sv, i as int),
        decreases conflicts@.len() - i,
    {
        let (a, b) = conflicts[i];
        assert(conflicts@[i as int].0 < slots@.len());
        let ea = slots[a].present && slots[a].source != ValueSource::DefaultValue;
        let eb = slots[b].present && slots[b].source != ValueSource::DefaultValue;
        if ea && eb {
            return Some(CliError::ArgumentConflict(a, b));
        }
        i = i + 1;
    }
    None
}

/// Reads a command's arguments from index `start` on, as `parse_command` states.
pub fn parse_command_exec(
    cmd: &CommandDef,
    toks: &Vec<String>,
    start: usize,
    env: &Vec<(String, String)>,
) -> (r: Result<(Vec<Slot>, Option<(usize, usize)>), CliError>)
    requires
        cmd_wf(cmd@),
        start <= toks@.len(),
    ensures
        match parse_command(cmd@, strs(toks@), start as int, env_view(env@)) {
            Ok((s, stop)) => r matches Ok((x, xs)) && slots_view(x@) == s && stop_view(xs) == stop
                && x@.len() == cmd.args@.len() && (xs matches Some((k, t)) ==> k
                < cmd.subcommands@.len() && t < toks@.len()),
            Err(e) => r == Err::<(Vec<Slot>, Option<(usize, usize)>), CliError>(e),
        },
{
    let st = initial_reader(cmd);
    match run_exec(cmd, st, toks, start) {
        Err(e) => Err(e),
        Ok((st, stop)) => match st.pending {
            Some(a) => Err(CliError::MissingValue(a)),
            None => {
                let ghost sv = st@.slots;
                match fill_slots_exec(&cmd.args, st.slots, env) {
                    Err(e) => Err(e),
                    Ok(slots) => {
                        proof {
                            lemma_fill_len(cmd@.args, sv, env_view(env@), cmd@.args.len() as int);
                        }
                        match first_conflict_exec(&cmd.conflicts, &slots) {
                            Some(e) => Err(e),
                            None => Ok((slots, stop)),
                        }
                    },
                }
            },
        },
    }
}

} // verus!
