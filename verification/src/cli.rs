//! The command line of KoShelf: reading the arguments into matches, and the
//! matches into the arguments of each command.

use vstd::prelude::*;
use crate::args::{
    opt_int, args_view, clone_strings, env_view, parse_command, parse_command_exec, slots_view, strs,
    ArgDef, ArgSpec, CliError, Slot, SlotSpec, ValueSource, false_text, opt_str, ranged_uint,
    ranged_uint_of, true_text,
};
use crate::grammar::{self, subcommand_def, subcommand_spec, top_command, top_command_spec};
use crate::text::{chars_of, str_eq};

verus! {

// ── Matches ───────────────────────────────────────────────────────────

/// One argument that was given, or filled from the environment or a default.
pub struct MatchedArg {
    pub id: String,
    pub values: Vec<String>,
    pub source: ValueSource,
}

/// The arguments read for a command, and those of its subcommand.
pub struct ArgMatches {
    pub args: Vec<MatchedArg>,
    pub subcommand: Option<Box<SubcommandMatches>>,
}

/// The name of a subcommand and the arguments read for it.
pub struct SubcommandMatches {
    pub name: String,
    pub matches: ArgMatches,
}

pub struct MatchedSpec {
    pub id: Seq<char>,
    pub values: Seq<Seq<char>>,
    pub source: ValueSource,
}

pub struct MatchesSpec {
    pub args: Seq<MatchedSpec>,
    pub sub: Option<(Seq<char>, Seq<MatchedSpec>)>,
}

pub open spec fn matched_view(v: Seq<MatchedArg>) -> Seq<MatchedSpec> {
    v.map_values(|m: MatchedArg| MatchedSpec { id: m.id@, values: strs(m.values@), source: m.source })
}

impl View for ArgMatches {
    type V = MatchesSpec;

    open spec fn view(&self) -> MatchesSpec {
        MatchesSpec {
            args: matched_view(self.args@),
            sub: match self.subcommand {
                Some(b) => Some((b.name@, matched_view(b.matches.args@))),
                None => None,
            },
        }
    }
}

/// The arguments among the first `k` that are present, in order, each with its name.
pub open spec fn matched_of(args: Seq<ArgSpec>, slots: Seq<SlotSpec>, k: int) -> Seq<MatchedSpec>
    decreases k,
{
    if k <= 0 {
        Seq::empty()
    } else {
        let prev = matched_of(args, slots, k - 1);
        if slots[k - 1].present {
            prev.push(
                MatchedSpec {
                    id: args[k - 1].id,
                    values: slots[k - 1].values,
                    source: slots[k - 1].source,
                },
            )
        } else {
            prev
        }
    }
}

/// Absent, default, environment, command line: weakest first.
pub open spec fn source_rank(s: SlotSpec) -> int {
    if !s.present {
        0
    } else {
        match s.source {
            ValueSource::DefaultValue => 1,
            ValueSource::EnvVariable => 2,
            ValueSource::CommandLine => 3,
        }
    }
}

/// A global argument read both before and after the subcommand's name: the
/// subcommand's reading wins unless the top command's is stronger.
pub open spec fn pick_global(top: SlotSpec, sub: SlotSpec) -> SlotSpec {
    if source_rank(top) > source_rank(sub) {
        top
    } else {
        sub
    }
}

/// Index of the first argument after the program's name.
pub open spec fn first_arg_index(toks: Seq<Seq<char>>) -> int {
    if toks.len() > 0 {
        1
    } else {
        0
    }
}

/// What reading `toks` (the program's name, then its arguments) with the
/// environment `env` gives, against the KoShelf command line.
pub open spec fn get_matches_spec(toks: Seq<Seq<char>>, env: Seq<(Seq<char>, Seq<char>)>) -> Result<MatchesSpec, CliError> {
    let top = top_command_spec();
    match parse_command(top, toks, first_arg_index(toks), env) {
        Err(e) => Err(e),
        Ok((ts, stop)) => match stop {
            None => Err(CliError::MissingSubcommand),
            Some((k, t)) => if k >= 6 {
                Err(CliError::HelpRequested)
            } else {
                let sc = subcommand_spec(k);
                match parse_command(sc, toks, t + 1, env) {
                    Err(e) => Err(e),
                    Ok((ss, _)) => {
                        let g = pick_global(ts[0], ss[0]);
                        Ok(
                            MatchesSpec {
                                args: matched_of(top.args, ts.update(0, g), top.args.len() as int),
                                sub: Some(
                                    (
                                        top.subcommands[k],
                                        matched_of(sc.args, ss.update(0, g), sc.args.len() as int),
                                    ),
                                ),
                            },
                        )
                    },
                }
            },
        },
    }
}

fn clone_slot(s: &Slot) -> (r: Slot)
    ensures
        r@ == s@,
{
    Slot { present: s.present, values: clone_strings(&s.values), source: s.source }
}

/// The present arguments, as `matched_of` states.
fn matched_from(defs: &Vec<ArgDef>, slots: &Vec<Slot>) -> (r: Vec<MatchedArg>)
    requires
        slots@.len() == defs@.len(),
    ensures
        matched_view(r@) == matched_of(args_view(defs@), slots_view(slots@), defs@.len() as int),
{
    let ghost av = args_view(defs@);
    let ghost sv = slots_view(slots@);
    let mut r: Vec<MatchedArg> = Vec::new();
    let mut k: usize = 0;
    while k < defs.len()
        invariant
            av == args_view(defs@),
            sv == slots_view(slots@),
            slots@.len() == defs@.len(),
            k <= defs@.len(),
            matched_view(r@) == matched_of(av, sv, k as int),
        decreases defs@.len() - k,
    {
        assert(av[k as int] == defs@[k as int]@);
        assert(sv[k as int] == slots@[k as int]@);
        if slots[k].present {
            let m = MatchedArg {
                id: defs[k].id.clone(),
                values: clone_strings(&slots[k].values),
                source: slots[k].source,
            };
            let ghost r0 = r@;
            r.push(m);
            assert(matched_view(r@) =~= matched_view(r0).push(
                MatchedSpec { id: m.id@, values: strs(m.values@), source: m.source },
            ));
        }
        k = k + 1;
    }
    r
}

/// Reads the program's name and arguments `args`, with the environment `env`,
/// against the KoShelf command line.
pub fn get_matches(args: &Vec<String>, env: &Vec<(String, String)>) -> (r: Result<ArgMatches, CliError>)
    ensures
        match get_matches_spec(strs(args@), env_view(env@)) {
            Ok(m) => r matches Ok(x) && x@ == m,
            Err(e) => r == Err::<ArgMatches, CliError>(e),
        },
{
    let top = top_command();
    let start: usize = if args.len() > 0 { 1 } else { 0 };
    match parse_command_exec(&top, args, start, env) {
        Err(e) => Err(e),
        Ok((ts, stop)) => match stop {
            None => Err(CliError::MissingSubcommand),
            Some((k, t)) => {
                if k >= 6 {
                    return Err(CliError::HelpRequested);
                }
                let sc = subcommand_def(k);
                match parse_command_exec(&sc, args, t + 1, env) {
                    Err(e) => Err(e),
                    Ok((ss, _)) => {
                        let top_rank: u8 = if !ts[0].present {
                            0
                        } else {
                            match ts[0].source {
                                ValueSource::DefaultValue => 1,
                                ValueSource::EnvVariable => 2,
                                ValueSource::CommandLine => 3,
                            }
                        };
                        let sub_rank: u8 = if !ss[0].present {
                            0
                        } else {
                            match ss[0].source {
                                ValueSource::DefaultValue => 1,
                                ValueSource::EnvVariable => 2,
                                ValueSource::CommandLine => 3,
                            }
                        };
                        let g = if top_rank > sub_rank { clone_slot(&ts[0]) } else { clone_slot(&ss[0]) };
                        assert(g@ == pick_global(slots_view(ts@)[0], slots_view(ss@)[0]));
                        let g2 = clone_slot(&g);
                        let mut ts = ts;
                        let mut ss = ss;
                        let ghost ts0 = ts@;
                        let ghost ss0 = ss@;
                        ts.set(0, g);
                        ss.set(0, g2);
                        assert(slots_view(ts@) =~= slots_view(ts0).update(0, g@));
                        assert(slots_view(ss@) =~= slots_view(ss0).update(0, g@));
                        let top_m = matched_from(&top.args, &ts);
                        let sub_m = matched_from(&sc.args, &ss);
                        let name = top.subcommands[k].clone();
                        assert(strs(top.subcommands@)[k as int] == name@);
                        Ok(
                            ArgMatches {
                                args: top_m,
                                subcommand: Some(
                                    Box::new(
                                        SubcommandMatches {
                                            name,
                                            matches: ArgMatches { args: sub_m, subcommand: None },
                                        },
                                    ),
                                ),
                            },
                        )
                    },
                }
            },
        },
    }
}

impl ArgMatches {
    /// The name and matches of the subcommand, where one was read.
    pub fn subcommand(&self) -> (r: Option<(&str, &ArgMatches)>)
        ensures
            match self.subcommand {
                Some(b) => r matches Some((n, m)) && n@ == b.name@ && m == &b.matches,
                None => r is None,
            },
    {
        match &self.subcommand {
            Some(b) => Some((b.name.as_str(), &b.matches)),
            None => None,
        }
    }
}

// ── Reading values out of matches ─────────────────────────────────────

/// The index of the first matched argument, from index `from` on, named `id`.
pub open spec fn lookup_matched(a: Seq<MatchedSpec>, id: Seq<char>, from: int) -> Option<int>
    decreases a.len() - from,
{
    if from < 0 || from >= a.len() {
        None
    } else if a[from].id == id {
        Some(from)
    } else {
        lookup_matched(a, id, from + 1)
    }
}

/// All the values of the argument named `id` (none when it is absent).
pub open spec fn get_many(a: Seq<MatchedSpec>, id: Seq<char>) -> Seq<Seq<char>> {
    match lookup_matched(a, id, 0) {
        Some(i) => a[i].values,
        None => Seq::empty(),
    }
}

/// The first value of the argument named `id`.
pub open spec fn get_one(a: Seq<MatchedSpec>, id: Seq<char>) -> Option<Seq<char>> {
    match lookup_matched(a, id, 0) {
        Some(i) => if a[i].values.len() > 0 {
            Some(a[i].values[0])
        } else {
            None
        },
        None => None,
    }
}

/// The flag named `id`: `None` when it is absent or not `true`/`false`.
pub open spec fn get_flag(a: Seq<MatchedSpec>, id: Seq<char>) -> Option<bool> {
    match get_one(a, id) {
        Some(v) => if v == true_text() {
            Some(true)
        } else if v == false_text() {
            Some(false)
        } else {
            None
        },
        None => None,
    }
}

/// The optional whole number named `id`: `None` when it is present but not a `u32`.
pub open spec fn get_u32_opt(a: Seq<MatchedSpec>, id: Seq<char>) -> Option<Option<u32>> {
    match get_one(a, id) {
        None => Some(None),
        Some(v) => match ranged_uint(v, 0xffff_ffff) {
            Some(n) => Some(Some(n as u32)),
            None => None,
        },
    }
}

/// The whole number named `id`: `None` when it is absent or not a `u16`.
pub open spec fn get_u16(a: Seq<MatchedSpec>, id: Seq<char>) -> Option<u16> {
    match get_one(a, id) {
        None => None,
        Some(v) => match ranged_uint(v, 65535) {
            Some(n) => Some(n as u16),
            None => None,
        },
    }
}

pub(crate) fn lookup_matched_exec(a: &Vec<MatchedArg>, id: &str) -> (r: Option<usize>)
    ensures
        opt_int(r) == lookup_matched(matched_view(a@), id@, 0),
        r matches Some(i) ==> i < a@.len(),
{
    let ghost av = matched_view(a@);
    let mut i: usize = 0;
    while i < a.len()
        invariant
            av == matched_view(a@),
            i <= a@.len(),
            lookup_matched(av, id@, 0) == lookup_matched(av, id@, i as int),
        decreases a@.len() - i,
    {
        assert(av[i as int].id == a@[i as int].id@);
        if str_eq(a[i].id.as_str(), id) {
            return Some(i);
        }
        i = i + 1;
    }
    None
}

fn get_many_exec(a: &Vec<MatchedArg>, id: &str) -> (r: Vec<String>)
    ensures
        strs(r@) == get_many(matched_view(a@), id@),
{
    match lookup_matched_exec(a, id) {
        Some(i) => {
            assert(matched_view(a@)[i as int].values == strs(a@[i as int].values@));
            clone_strings(&a[i].values)
        },
        None => {
            let r: Vec<String> = Vec::new();
            assert(strs(r@) =~= Seq::<Seq<char>>::empty());
            r
        },
    }
}

fn get_one_exec(a: &Vec<MatchedArg>, id: &str) -> (r: Option<String>)
    ensures
        opt_str(r) == get_one(matched_view(a@), id@),
{
    match lookup_matched_exec(a, id) {
        Some(i) => {
            assert(matched_view(a@)[i as int].values == strs(a@[i as int].values@));
            if a[i].values.len() > 0 {
                assert(strs(a@[i as int].values@)[0] == a@[i as int].values@[0]@);
                Some(a[i].values[0].clone())
            } else {
                None
            }
        },
        None => None,
    }
}

fn get_flag_exec(a: &Vec<MatchedArg>, id: &str) -> (r: Option<bool>)
    ensures
        r == get_flag(matched_view(a@), id@),
{
    proof {
        reveal_strlit("true");
        reveal_strlit("false");
    }
    assert("true"@ =~= true_text());
    assert("false"@ =~= false_text());
    match get_one_exec(a, id) {
        Some(v) => if str_eq(v.as_str(), "true") {
            Some(true)
        } else if str_eq(v.as_str(), "false") {
            Some(false)
        } else {
            None
        },
        None => None,
    }
}

fn get_u32_opt_exec(a: &Vec<MatchedArg>, id: &str) -> (r: Option<Option<u32>>)
    ensures
        r == get_u32_opt(matched_view(a@), id@),
{
    match get_one_exec(a, id) {
        None => Some(None),
        Some(v) => {
            let c = chars_of(v.as_str());
            match ranged_uint_of(c.as_slice(), 0xffff_ffff) {
                Some(n) => Some(Some(n as u32)),
                None => None,
            }
        },
    }
}

fn get_u16_exec(a: &Vec<MatchedArg>, id: &str) -> (r: Option<u16>)
    ensures
        r == get_u16(matched_view(a@), id@),
{
    match get_one_exec(a, id) {
        None => None,
        Some(v) => {
            let c = chars_of(v.as_str());
            match ranged_uint_of(c.as_slice(), 65535) {
                Some(n) => Some(n as u16),
                None => None,
            }
        },
    }
}

// ── The arguments of each command ─────────────────────────────────────

/// Flags shared by `serve` and `export`.
#[derive(Debug, Clone, PartialEq, Eq)]
pub struct CommonArgs {
    /// Folders holding books and comics with KOReader metadata (repeatable).
    pub library_path: Vec<String>,
    /// KOReader's docsettings folder.
    pub docsettings_path: Option<String>,
    /// KOReader's hashdocsettings folder.
    pub hashdocsettings_path: Option<String>,
    /// Statistics databases (repeatable; merged).
    pub statistics_db: Vec<String>,
    /// Kobo's KoboReader.sqlite.
    pub kobo_db: Option<String>,
    /// Include books without KOReader metadata.
    pub include_unread: bool,
    /// Keep items whose file has gone, with their annotations.
    pub retain_missing: bool,
    /// Directory for runtime data such as the library database.
    pub data_path: Option<String>,
    pub title: String,
    pub language: String,
    pub timezone: Option<String>,
    /// Upper end of the heatmap scale, such as `2h` or `auto`.
    pub heatmap_scale_max: String,
    /// Start of the logical day, `HH:MM`.
    pub day_start_time: Option<String>,
    pub min_pages_per_day: Option<u32>,
    /// Minimum reading time per day, such as `30s` or `off`.
    pub min_time_per_day: Option<String>,
    pub include_all_stats: bool,
    pub ignore_stable_page_metadata: bool,
}

/// Arguments of `serve`.
#[derive(Debug, Clone, PartialEq, Eq)]
pub struct ServeArgs {
    pub common: CommonArgs,
    pub port: u16,
    pub enable_auth: bool,
    pub enable_writeback: bool,
    /// Reverse proxies trusted to forward client addresses (IPs or CIDRs).
    pub trusted_proxies: Vec<String>,
}

/// Arguments of `export`.
#[derive(Debug, Clone, PartialEq, Eq)]
pub struct ExportArgs {
    pub common: CommonArgs,
    /// Output directory of the static site.
    pub output: Option<String>,
    pub include_files: bool,
    pub watch: bool,
}

/// The commands of KoShelf.
#[derive(Debug, Clone, PartialEq, Eq)]
pub enum CliCommand {
    /// Start the web server.
    Serve(ServeArgs),
    /// Generate a static site.
    Export(ExportArgs),
    /// Set the authentication password.
    SetPassword {
        data_path: Option<String>,
        password: Option<String>,
        random: bool,
        overwrite: bool,
    },
    /// List the supported UI languages.
    ListLanguages,
    /// Print third-party licenses.
    Licenses { dependency: Option<String> },
    /// Print the repository URL.
    Github,
}

/// The whole command line: an optional configuration file and a command.
#[derive(Debug, Clone, PartialEq, Eq)]
pub struct Cli {
    pub config: Option<String>,
    pub command: CliCommand,
}

pub struct CommonView {
    pub library_path: Seq<Seq<char>>,
    pub docsettings_path: Option<Seq<char>>,
    pub hashdocsettings_path: Option<Seq<char>>,
    pub statistics_db: Seq<Seq<char>>,
    pub kobo_db: Option<Seq<char>>,
    pub include_unread: bool,
    pub retain_missing: bool,
    pub data_path: Option<Seq<char>>,
    pub title: Seq<char>,
    pub language: Seq<char>,
    pub timezone: Option<Seq<char>>,
    pub heatmap_scale_max: Seq<char>,
    pub day_start_time: Option<Seq<char>>,
    pub min_pages_per_day: Option<u32>,
    pub min_time_per_day: Option<Seq<char>>,
    pub include_all_stats: bool,
    pub ignore_stable_page_metadata: bool,
}

impl View for CommonArgs {
    type V = CommonView;

    open spec fn view(&self) -> CommonView {
        CommonView {
            library_path: strs(self.library_path@),
            docsettings_path: opt_str(self.docsettings_path),
            hashdocsettings_path: opt_str(self.hashdocsettings_path),
            statistics_db: strs(self.statistics_db@),
            kobo_db: opt_str(self.kobo_db),
            include_unread: self.include_unread,
            retain_missing: self.retain_missing,
            data_path: opt_str(self.data_path),
            title: self.title@,
            language: self.language@,
            timezone: opt_str(self.timezone),
            heatmap_scale_max: self.heatmap_scale_max@,
            day_start_time: opt_str(self.day_start_time),
            min_pages_per_day: self.min_pages_per_day,
            min_time_per_day: opt_str(self.min_time_per_day),
            include_all_stats: self.include_all_stats,
            ignore_stable_page_metadata: self.ignore_stable_page_metadata,
        }
    }
}

pub struct ServeView {
    pub common: CommonView,
    pub port: u16,
    pub enable_auth: bool,
    pub enable_writeback: bool,
    pub trusted_proxies: Seq<Seq<char>>,
}

impl View for ServeArgs {
    type V = ServeView;

    open spec fn view(&self) -> ServeView {
        ServeView {
            common: self.common@,
            port: self.port,
            enable_auth: self.enable_auth,
            enable_writeback: self.enable_writeback,
            trusted_proxies: strs(self.trusted_proxies@),
        }
    }
}

pub struct ExportView {
    pub common: CommonView,
    pub output: Option<Seq<char>>,
    pub include_files: bool,
    pub watch: bool,
}

impl View for ExportArgs {
    type V = ExportView;

    open spec fn view(&self) -> ExportView {
        ExportView {
            common: self.common@,
            output: opt_str(self.output),
            include_files: self.include_files,
            watch: self.watch,
        }
    }
}

pub enum CommandView {
    Serve(ServeView),
    Export(ExportView),
    SetPassword {
        data_path: Option<Seq<char>>,
        password: Option<Seq<char>>,
        random: bool,
        overwrite: bool,
    },
    ListLanguages,
    Licenses { dependency: Option<Seq<char>> },
    Github,
}

impl View for CliCommand {
    type V = CommandView;

    open spec fn view(&self) -> CommandView {
        match self {
            CliCommand::Serve(a) => CommandView::Serve(a@),
            CliCommand::Export(a) => CommandView::Export(a@),
            CliCommand::SetPassword { data_path, password, random, overwrite } => CommandView::SetPassword {
                data_path: opt_str(*data_path),
                password: opt_str(*password),
                random: *random,
                overwrite: *overwrite,
            },
            CliCommand::ListLanguages => CommandView::ListLanguages,
            CliCommand::Licenses { dependency } => CommandView::Licenses { dependency: opt_str(*dependency) },
            CliCommand::Github => CommandView::Github,
        }
    }
}

pub struct CliView {
    pub config: Option<Seq<char>>,
    pub command: CommandView,
}

impl View for Cli {
    type V = CliView;

    open spec fn view(&self) -> CliView {
        CliView { config: opt_str(self.config), command: self.command@ }
    }
}

/// The flags shared by `serve` and `export`, read out of their matches.
pub open spec fn common_from(a: Seq<MatchedSpec>) -> Option<CommonView> {
    match (
        get_flag(a, grammar::arg_include_unread_spec().id),
        get_flag(a, grammar::arg_retain_missing_spec().id),
        get_one(a, grammar::arg_title_spec().id),
        get_one(a, grammar::arg_language_spec().id),
        get_one(a, grammar::arg_heatmap_scale_max_spec().id),
        get_u32_opt(a, grammar::arg_min_pages_per_day_spec().id),
        get_flag(a, grammar::arg_include_all_stats_spec().id),
        get_flag(a, grammar::arg_ignore_stable_page_metadata_spec().id),
    ) {
        (Some(iu), Some(rm), Some(t), Some(l), Some(h), Some(mp), Some(ia), Some(ig)) => Some(
            CommonView {
                library_path: get_many(a, grammar::arg_library_path_spec().id),
                docsettings_path: get_one(a, grammar::arg_docsettings_path_spec().id),
                hashdocsettings_path: get_one(a, grammar::arg_hashdocsettings_path_spec().id),
                statistics_db: get_many(a, grammar::arg_statistics_db_spec().id),
                kobo_db: get_one(a, grammar::arg_kobo_db_spec().id),
                include_unread: iu,
                retain_missing: rm,
                data_path: get_one(a, grammar::arg_data_path_spec().id),
                title: t,
                language: l,
                timezone: get_one(a, grammar::arg_timezone_spec().id),
                heatmap_scale_max: h,
                day_start_time: get_one(a, grammar::arg_day_start_time_spec().id),
                min_pages_per_day: mp,
                min_time_per_day: get_one(a, grammar::arg_min_time_per_day_spec().id),
                include_all_stats: ia,
                ignore_stable_page_metadata: ig,
            },
        ),
        _ => None,
    }
}

/// The command read out of the matches of the subcommand named `name`.
pub open spec fn command_from(name: Seq<char>, a: Seq<MatchedSpec>) -> Option<CommandView> {
    let subs = top_command_spec().subcommands;
    if name == subs[0] {
        match (
            common_from(a),
            get_u16(a, grammar::arg_port_spec().id),
            get_flag(a, grammar::arg_enable_auth_spec().id),
            get_flag(a, grammar::arg_enable_writeback_spec().id),
        ) {
            (Some(c), Some(p), Some(ea), Some(ew)) => Some(
                CommandView::Serve(
                    ServeView {
                        common: c,
                        port: p,
                        enable_auth: ea,
                        enable_writeback: ew,
                        trusted_proxies: get_many(a, grammar::arg_trusted_proxies_spec().id),
                    },
                ),
            ),
            _ => None,
        }
    } else if name == subs[1] {
        match (
            common_from(a),
            get_flag(a, grammar::arg_include_files_spec().id),
            get_flag(a, grammar::arg_watch_spec().id),
        ) {
            (Some(c), Some(f), Some(w)) => Some(
                CommandView::Export(
                    ExportView {
                        common: c,
                        output: get_one(a, grammar::arg_output_spec().id),
                        include_files: f,
                        watch: w,
                    },
                ),
            ),
            _ => None,
        }
    } else if name == subs[2] {
        match (get_flag(a, grammar::arg_random_spec().id), get_flag(a, grammar::arg_overwrite_spec().id)) {
            (Some(r), Some(o)) => Some(
                CommandView::SetPassword {
                    data_path: get_one(a, grammar::arg_data_path_spec().id),
                    password: get_one(a, grammar::arg_password_spec().id),
                    random: r,
                    overwrite: o,
                },
            ),
            _ => None,
        }
    } else if name == subs[3] {
        Some(CommandView::ListLanguages)
    } else if name == subs[4] {
        Some(CommandView::Licenses { dependency: get_one(a, grammar::arg_dependency_spec().id) })
    } else if name == subs[5] {
        Some(CommandView::Github)
    } else {
        None
    }
}

/// The command line read out of its matches.
pub open spec fn cli_from(m: MatchesSpec) -> Option<CliView> {
    match m.sub {
        None => None,
        Some((name, a)) => match command_from(name, a) {
            Some(c) => Some(CliView { config: get_one(m.args, grammar::arg_config_spec().id), command: c }),
            None => None,
        },
    }
}

fn common_from_exec(a: &Vec<MatchedArg>) -> (r: Option<CommonArgs>)
    ensures
        match common_from(matched_view(a@)) {
            Some(v) => r matches Some(c) && c@ == v,
            None => r is None,
        },
{
    let iu = get_flag_exec(a, grammar::id_include_unread().as_str());
    let rm = get_flag_exec(a, grammar::id_retain_missing().as_str());
    let t = get_one_exec(a, grammar::id_title().as_str());
    let l = get_one_exec(a, grammar::id_language().as_str());
    let h = get_one_exec(a, grammar::id_heatmap_scale_max().as_str());
    let mp = get_u32_opt_exec(a, grammar::id_min_pages_per_day().as_str());
    let ia = get_flag_exec(a, grammar::id_include_all_stats().as_str());
    let ig = get_flag_exec(a, grammar::id_ignore_stable_page_metadata().as_str());
    match (iu, rm, t, l, h, mp, ia, ig) {
        (Some(iu), Some(rm), Some(t), Some(l), Some(h), Some(mp), Some(ia), Some(ig)) => {
            let c = CommonArgs {
                library_path: get_many_exec(a, grammar::id_library_path().as_str()),
                docsettings_path: get_one_exec(a, grammar::id_docsettings_path().as_str()),
                hashdocsettings_path: get_one_exec(a, grammar::id_hashdocsettings_path().as_str()),
                statistics_db: get_many_exec(a, grammar::id_statistics_db().as_str()),
                kobo_db: get_one_exec(a, grammar::id_kobo_db().as_str()),
                include_unread: iu,
                retain_missing: rm,
                data_path: get_one_exec(a, grammar::id_data_path().as_str()),
                title: t,
                language: l,
                timezone: get_one_exec(a, grammar::id_timezone().as_str()),
                heatmap_scale_max: h,
                day_start_time: get_one_exec(a, grammar::id_day_start_time().as_str()),
                min_pages_per_day: mp,
                min_time_per_day: get_one_exec(a, grammar::id_min_time_per_day().as_str()),
                include_all_stats: ia,
                ignore_stable_page_metadata: ig,
            };
            Some(c)
        },
        _ => None,
    }
}

fn command_from_exec(name: &str, a: &Vec<MatchedArg>) -> (r: Option<CliCommand>)
    ensures
        match command_from(name@, matched_view(a@)) {
            Some(v) => r matches Some(c) && c@ == v,
            None => r is None,
        },
{
    let top = top_command();
    let ghost subs = top_command_spec().subcommands;
    assert(strs(top.subcommands@) == subs);
    assert(top.subcommands@.len() == 7);
    if str_eq(name, top.subcommands[0].as_str()) {
        let c = common_from_exec(a);
        let p = get_u16_exec(a, grammar::id_port().as_str());
        let ea = get_flag_exec(a, grammar::id_enable_auth().as_str());
        let ew = get_flag_exec(a, grammar::id_enable_writeback().as_str());
        match (c, p, ea, ew) {
            (Some(c), Some(p), Some(ea), Some(ew)) => Some(
                CliCommand::Serve(
                    ServeArgs {
                        common: c,
                        port: p,
                        enable_auth: ea,
                        enable_writeback: ew,
                        trusted_proxies: get_many_exec(a, grammar::id_trusted_proxies().as_str()),
                    },
                ),
            ),
            _ => None,
        }
    } else if str_eq(name, top.subcommands[1].as_str()) {
        let c = common_from_exec(a);
        let f = get_flag_exec(a, grammar::id_include_files().as_str());
        let w = get_flag_exec(a, grammar::id_watch().as_str());
        match (c, f, w) {
            (Some(c), Some(f), Some(w)) => Some(
                CliCommand::Export(
                    ExportArgs {
                        common: c,
                        output: get_one_exec(a, grammar::id_output().as_str()),
                        include_files: f,
                        watch: w,
                    },
                ),
            ),
            _ => None,
        }
    } else if str_eq(name, top.subcommands[2].as_str()) {
        let r = get_flag_exec(a, grammar::id_random().as_str());
        let o = get_flag_exec(a, grammar::id_overwrite().as_str());
        match (r, o) {
            (Some(r), Some(o)) => Some(
                CliCommand::SetPassword {
                    data_path: get_one_exec(a, grammar::id_data_path().as_str()),
                    password: get_one_exec(a, grammar::id_password().as_str()),
                    random: r,
                    overwrite: o,
                },
            ),
            _ => None,
        }
    } else if str_eq(name, top.subcommands[3].as_str()) {
        Some(CliCommand::ListLanguages)
    } else if str_eq(name, top.subcommands[4].as_str()) {
        Some(CliCommand::Licenses { dependency: get_one_exec(a, grammar::id_dependency().as_str()) })
    } else if str_eq(name, top.subcommands[5].as_str()) {
        Some(CliCommand::Github)
    } else {
        None
    }
}

impl Cli {
    /// The command line read out of its matches; refused when the matches
    /// could not have come from reading arguments.
    pub fn from_arg_matches(m: &ArgMatches) -> (r: Result<Cli, CliError>)
        ensures
            match cli_from(m@) {
                Some(v) => r matches Ok(c) && c@ == v,
                None => r == Err::<Cli, CliError>(CliError::MalformedMatches),
            },
    {
        match &m.subcommand {
            None => Err(CliError::MalformedMatches),
            Some(b) => match command_from_exec(b.name.as_str(), &b.matches.args) {
                Some(c) => Ok(Cli { config: get_one_exec(&m.args, grammar::id_config().as_str()), command: c }),
                None => Err(CliError::MalformedMatches),
            },
        }
    }
}

/// The KoShelf command line, ready to read arguments.
pub struct CommandLine;

/// The characters of each argument.
pub open spec fn str_refs(v: Seq<&str>) -> Seq<Seq<char>> {
    v.map_values(|s: &str| s@)
}

fn owned_args(args: &[&str]) -> (r: Vec<String>)
    ensures
        strs(r@) == str_refs(args@),
{
    let mut r: Vec<String> = Vec::new();
    let mut i: usize = 0;
    while i < args.len()
        invariant
            i <= args@.len(),
            strs(r@) == str_refs(args@.take(i as int)),
        decreases args@.len() - i,
    {
        let s = String::from_str(args[i]);
        let ghost r0 = r@;
        r.push(s);
        assert(args@.take(i + 1) =~= args@.take(i as int).push(args@[i as int]));
        assert(str_refs(args@.take(i + 1)) =~= str_refs(args@.take(i as int)).push(args@[i as int]@));
        assert(strs(r@) =~= strs(r0).push(s@));
        i = i + 1;
    }
    assert(args@.take(args@.len() as int) =~= args@);
    r
}

impl Cli {
    /// The command line of KoShelf.
    pub fn command() -> CommandLine {
        CommandLine
    }
}

impl CommandLine {
    /// Reads the program's name and arguments `args` as if no environment
    /// variable were set: the process environment is not consulted here;
    /// `try_get_matches_from_env` reads the arguments with an environment.
    pub fn try_get_matches_from(&self, args: &[&str]) -> (r: Result<ArgMatches, CliError>)
        ensures
            match get_matches_spec(str_refs(args@), Seq::empty()) {
                Ok(m) => r matches Ok(x) && x@ == m,
                Err(e) => r == Err::<ArgMatches, CliError>(e),
            },
    {
        let owned = owned_args(args);
        let env: Vec<(String, String)> = Vec::new();
        assert(env_view(env@) =~= Seq::<(Seq<char>, Seq<char>)>::empty());
        get_matches(&owned, &env)
    }

    /// Reads the program's name and arguments `args`, with the environment `env`.
    pub fn try_get_matches_from_env(&self, args: &[&str], env: &Vec<(String, String)>) -> (r: Result<ArgMatches, CliError>)
        ensures
            match get_matches_spec(str_refs(args@), env_view(env@)) {
                Ok(m) => r matches Ok(x) && x@ == m,
                Err(e) => r == Err::<ArgMatches, CliError>(e),
            },
    {
        let owned = owned_args(args);
        get_matches(&owned, env)
    }
}

} // verus!
