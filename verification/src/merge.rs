//! Folding the configuration file into the arguments of a command: a value
//! given on the command line or in the environment wins, the file fills in
//! the rest, and anything the file leaves out keeps its default.

use vstd::prelude::*;
use crate::args::{clone_strings, opt_int, opt_str, strs, ValueSource};
use crate::cli::{
    lookup_matched, lookup_matched_exec, matched_view, ArgMatches, CommonArgs, CommonView, ExportArgs,
    ExportView, MatchedArg, MatchedSpec, ServeArgs, ServeView,
};
use crate::file_config::{
    opt_strs, FileConfig, FileConfigView, OutputSection, OutputView, ServerSection, ServerView, KoshelfSection, KoshelfView, LibrarySection, LibraryView, StatisticsSection,
    StatisticsView,
};
use crate::grammar;
use crate::text::chars_of;

verus! {

// ── Where a value came from ───────────────────────────────────────────

/// A value counts as given when it came from the command line or the environment.
pub open spec fn explicit_source(source: Option<ValueSource>) -> bool {
    source == Some(ValueSource::CommandLine) || source == Some(ValueSource::EnvVariable)
}

/// Whether `source` is the command line or the environment.
pub fn is_explicit_value_source(source: Option<ValueSource>) -> (r: bool)
    ensures
        r == explicit_source(source),
{
    match source {
        Some(ValueSource::CommandLine) => true,
        Some(ValueSource::EnvVariable) => true,
        _ => false,
    }
}

/// Where the value of the argument named `id` came from; `None` when it is absent.
pub open spec fn value_source(a: Seq<MatchedSpec>, id: Seq<char>) -> Option<ValueSource> {
    match lookup_matched(a, id, 0) {
        Some(i) => Some(a[i].source),
        None => None,
    }
}

/// The name with each `_` written as `-`.
pub open spec fn dashed(id: Seq<char>) -> Seq<char> {
    id.map_values(|c: char| if c == '_' { '-' } else { c })
}

/// Whether an argument named `id` is among the matches.
pub open spec fn has_id(a: Seq<MatchedSpec>, id: Seq<char>) -> bool {
    lookup_matched(a, id, 0) is Some
}

/// The argument named `id` was not given explicitly, neither under that name
/// nor, where the name holds `_`, under its dashed form.
pub open spec fn not_explicit_spec(a: Seq<MatchedSpec>, id: Seq<char>) -> bool {
    &&& !explicit_source(value_source(a, id))
    &&& !(id.contains('_') && has_id(a, dashed(id)) && explicit_source(value_source(a, dashed(id))))
}

impl ArgMatches {
    /// Where the value of the argument named `id` came from; `None` when it is absent.
    pub fn value_source(&self, id: &str) -> (r: Option<ValueSource>)
        ensures
            r == value_source(self@.args, id@),
    {
        match lookup_matched_exec(&self.args, id) {
            Some(i) => Some(self.args[i].source),
            None => None,
        }
    }
}

fn has_underscore(id: &str) -> (r: bool)
    ensures
        r == id@.contains('_'),
{
    let c = chars_of(id);
    let mut i: usize = 0;
    while i < c.len()
        invariant
            c@ == id@,
            i <= c@.len(),
            forall|j: int| 0 <= j < i ==> c@[j] != '_',
        decreases c@.len() - i,
    {
        if c[i] == '_' {
            assert(id@[i as int] == '_');
            return true;
        }
        i = i + 1;
    }
    false
}

/// Whether `cand` is `id` with each `_` written as `-`.
fn is_dashed_of(cand: &str, id: &str) -> (r: bool)
    ensures
        r == (cand@ == dashed(id@)),
{
    let c = chars_of(cand);
    let d = chars_of(id);
    if c.len() != d.len() {
        assert(dashed(id@).len() == id@.len());
        return false;
    }
    let mut i: usize = 0;
    while i < c.len()
        invariant
            c@ == cand@,
            d@ == id@,
            c@.len() == d@.len(),
            i <= c@.len(),
            forall|j: int| 0 <= j < i ==> c@[j] == dashed(id@)[j],
        decreases c@.len() - i,
    {
        let want = if d[i] == '_' { '-' } else { d[i] };
        if c[i] != want {
            assert(dashed(id@)[i as int] == want);
            return false;
        }
        i = i + 1;
    }
    assert(c@ =~= dashed(id@));
    true
}

/// The index of the first matched argument named as `id` dashed.
fn lookup_dashed_exec(a: &Vec<MatchedArg>, id: &str) -> (r: Option<usize>)
    ensures
        opt_int(r) == lookup_matched(matched_view(a@), dashed(id@), 0),
        r matches Some(i) ==> i < a@.len(),
{
    let ghost av = matched_view(a@);
    let ghost want = dashed(id@);
    let mut i: usize = 0;
    while i < a.len()
        invariant
            av == matched_view(a@),
            want == dashed(id@),
            i <= a@.len(),
            lookup_matched(av, want, 0) == lookup_matched(av, want, i as int),
        decreases a@.len() - i,
    {
        assert(av[i as int].id == a@[i as int].id@);
        if is_dashed_of(a[i].id.as_str(), id) {
            return Some(i);
        }
        i = i + 1;
    }
    None
}

/// Whether the argument named `id` was left to its default, that is, given
/// neither on the command line nor in the environment.
pub fn not_explicit(matches: &ArgMatches, id: &str) -> (r: bool)
    ensures
        r == not_explicit_spec(matches@.args, id@),
{
    if is_explicit_value_source(matches.value_source(id)) {
        return false;
    }
    if has_underscore(id) {
        match lookup_dashed_exec(&matches.args, id) {
            Some(i) => {
                assert(matched_view(matches.args@)[i as int].source == matches.args@[i as int].source);
                if is_explicit_value_source(Some(matches.args[i].source)) {
                    return false;
                }
            },
            None => {},
        }
    }
    true
}


// ── What the merge gives ──────────────────────────────────────────────

/// The file's value, where it has one and the argument was left to its default.
pub open spec fn pick<T>(cur: T, file: Option<T>, free: bool) -> T {
    match file {
        Some(v) => if free { v } else { cur },
        None => cur,
    }
}

/// Same, for an optional setting: the file's value becomes `Some`.
pub open spec fn pick_some<T>(cur: Option<T>, file: Option<T>, free: bool) -> Option<T> {
    match file {
        Some(v) => if free { Some(v) } else { cur },
        None => cur,
    }
}

/// Same, for a list that an empty list in the file does not replace.
pub open spec fn pick_list(cur: Seq<Seq<char>>, file: Option<Seq<Seq<char>>>, free: bool) -> Seq<Seq<char>> {
    match file {
        Some(v) => if free && v.len() > 0 { v } else { cur },
        None => cur,
    }
}

/// Whether the argument of the grammar named `id` is open to the file.
pub open spec fn free(a: Seq<MatchedSpec>, id: Seq<char>) -> bool {
    not_explicit_spec(a, id)
}

/// The arguments once the `[library]` section is folded in.
pub open spec fn merged_library(c: CommonView, l: LibraryView, a: Seq<MatchedSpec>) -> CommonView {
    CommonView {
        library_path: pick_list(c.library_path, l.paths, free(a, grammar::arg_library_path_spec().id)),
        docsettings_path: pick_some(
            c.docsettings_path,
            l.docsettings_path,
            free(a, grammar::arg_docsettings_path_spec().id),
        ),
        hashdocsettings_path: pick_some(
            c.hashdocsettings_path,
            l.hashdocsettings_path,
            free(a, grammar::arg_hashdocsettings_path_spec().id),
        ),
        statistics_db: pick(c.statistics_db, l.statistics_db, free(a, grammar::arg_statistics_db_spec().id)),
        kobo_db: pick_some(c.kobo_db, l.kobo_db, free(a, grammar::arg_kobo_db_spec().id)),
        include_unread: pick(c.include_unread, l.include_unread, free(a, grammar::arg_include_unread_spec().id)),
        retain_missing: pick(c.retain_missing, l.retain_missing, free(a, grammar::arg_retain_missing_spec().id)),
        ..c
    }
}

/// The arguments once the `[koshelf]` section is folded in.
pub open spec fn merged_koshelf(c: CommonView, k: KoshelfView, a: Seq<MatchedSpec>) -> CommonView {
    CommonView {
        title: pick(c.title, k.title, free(a, grammar::arg_title_spec().id)),
        language: pick(c.language, k.language, free(a, grammar::arg_language_spec().id)),
        timezone: pick_some(c.timezone, k.timezone, free(a, grammar::arg_timezone_spec().id)),
        data_path: pick_some(c.data_path, k.data_path, free(a, grammar::arg_data_path_spec().id)),
        ..c
    }
}

/// The arguments once the `[statistics]` section is folded in.
pub open spec fn merged_statistics(c: CommonView, s: StatisticsView, a: Seq<MatchedSpec>) -> CommonView {
    CommonView {
        heatmap_scale_max: pick(
            c.heatmap_scale_max,
            s.heatmap_scale_max,
            free(a, grammar::arg_heatmap_scale_max_spec().id),
        ),
        day_start_time: pick_some(c.day_start_time, s.day_start_time, free(a, grammar::arg_day_start_time_spec().id)),
        min_pages_per_day: pick_some(
            c.min_pages_per_day,
            s.min_pages_per_day,
            free(a, grammar::arg_min_pages_per_day_spec().id),
        ),
        min_time_per_day: pick_some(
            c.min_time_per_day,
            s.min_time_per_day,
            free(a, grammar::arg_min_time_per_day_spec().id),
        ),
        include_all_stats: pick(
            c.include_all_stats,
            s.include_all_stats,
            free(a, grammar::arg_include_all_stats_spec().id),
        ),
        ignore_stable_page_metadata: pick(
            c.ignore_stable_page_metadata,
            s.ignore_stable_page_metadata,
            free(a, grammar::arg_ignore_stable_page_metadata_spec().id),
        ),
        ..c
    }
}

/// The flags shared by `serve` and `export` once the file is folded in.
pub open spec fn merged_common(c: CommonView, f: FileConfigView, a: Seq<MatchedSpec>) -> CommonView {
    let c1 = match f.library {
        Some(l) => merged_library(c, l, a),
        None => c,
    };
    let c2 = match f.koshelf {
        Some(k) => merged_koshelf(c1, k, a),
        None => c1,
    };
    match f.statistics {
        Some(s) => merged_statistics(c2, s, a),
        None => c2,
    }
}


/// Takes the file's text where it has one and the argument is open to it.
fn fill_text(field: &mut String, file: &Option<String>, matches: &ArgMatches, id: &str)
    ensures
        final(field)@ == pick(old(field)@, opt_str(*file), free(matches@.args, id@)),
{
    if let Some(v) = file {
        if not_explicit(matches, id) {
            *field = v.clone();
        }
    }
}

/// Takes the file's optional text where it has one and the argument is open to it.
fn fill_opt_text(field: &mut Option<String>, file: &Option<String>, matches: &ArgMatches, id: &str)
    ensures
        opt_str(*final(field)) == pick_some(opt_str(*old(field)), opt_str(*file), free(matches@.args, id@)),
{
    if let Some(v) = file {
        if not_explicit(matches, id) {
            *field = Some(v.clone());
        }
    }
}

/// Takes the file's list where it has one and the argument is open to it.
fn fill_list(field: &mut Vec<String>, file: &Option<Vec<String>>, matches: &ArgMatches, id: &str)
    ensures
        strs(final(field)@) == pick(strs(old(field)@), opt_strs(*file), free(matches@.args, id@)),
{
    if let Some(v) = file {
        if not_explicit(matches, id) {
            *field = clone_strings(v);
        }
    }
}

/// Takes the file's list where it has one that is not empty and the argument is open to it.
fn fill_nonempty_list(field: &mut Vec<String>, file: &Option<Vec<String>>, matches: &ArgMatches, id: &str)
    ensures
        strs(final(field)@) == pick_list(strs(old(field)@), opt_strs(*file), free(matches@.args, id@)),
{
    if let Some(v) = file {
        if not_explicit(matches, id) && v.len() > 0 {
            *field = clone_strings(v);
        }
    }
}

/// Takes the file's value where it has one and the argument is open to it.
fn fill_value<T: Copy>(field: &mut T, file: Option<T>, matches: &ArgMatches, id: &str)
    ensures
        *final(field) == pick(*old(field), file, free(matches@.args, id@)),
{
    if let Some(v) = file {
        if not_explicit(matches, id) {
            *field = v;
        }
    }
}

/// Takes the file's optional value where it has one and the argument is open to it.
fn fill_opt_value<T: Copy>(field: &mut Option<T>, file: Option<T>, matches: &ArgMatches, id: &str)
    ensures
        *final(field) == pick_some(*old(field), file, free(matches@.args, id@)),
{
    if let Some(v) = file {
        if not_explicit(matches, id) {
            *field = Some(v);
        }
    }
}

fn merge_library_section(common: &mut CommonArgs, lib: &LibrarySection, matches: &ArgMatches)
    ensures
        final(common)@ == merged_library(old(common)@, lib@, matches@.args),
{
    fill_nonempty_list(&mut common.library_path, &lib.paths, matches, grammar::id_library_path().as_str());
    fill_opt_text(&mut common.docsettings_path, &lib.docsettings_path, matches, grammar::id_docsettings_path().as_str());
    fill_opt_text(
        &mut common.hashdocsettings_path,
        &lib.hashdocsettings_path,
        matches,
        grammar::id_hashdocsettings_path().as_str(),
    );
    fill_list(&mut common.statistics_db, &lib.statistics_db, matches, grammar::id_statistics_db().as_str());
    fill_opt_text(&mut common.kobo_db, &lib.kobo_db, matches, grammar::id_kobo_db().as_str());
    fill_value(&mut common.include_unread, lib.include_unread, matches, grammar::id_include_unread().as_str());
    fill_value(&mut common.retain_missing, lib.retain_missing, matches, grammar::id_retain_missing().as_str());
}

fn merge_koshelf_section(common: &mut CommonArgs, ks: &KoshelfSection, matches: &ArgMatches)
    ensures
        final(common)@ == merged_koshelf(old(common)@, ks@, matches@.args),
{
    fill_text(&mut common.title, &ks.title, matches, grammar::id_title().as_str());
    fill_text(&mut common.language, &ks.language, matches, grammar::id_language().as_str());
    fill_opt_text(&mut common.timezone, &ks.timezone, matches, grammar::id_timezone().as_str());
    fill_opt_text(&mut common.data_path, &ks.data_path, matches, grammar::id_data_path().as_str());
}

fn merge_statistics_section(common: &mut CommonArgs, stats: &StatisticsSection, matches: &ArgMatches)
    ensures
        final(common)@ == merged_statistics(old(common)@, stats@, matches@.args),
{
    fill_text(&mut common.heatmap_scale_max, &stats.heatmap_scale_max, matches, grammar::id_heatmap_scale_max().as_str());
    fill_opt_text(&mut common.day_start_time, &stats.day_start_time, matches, grammar::id_day_start_time().as_str());
    fill_opt_value(
        &mut common.min_pages_per_day,
        stats.min_pages_per_day,
        matches,
        grammar::id_min_pages_per_day().as_str(),
    );
    fill_opt_text(&mut common.min_time_per_day, &stats.min_time_per_day, matches, grammar::id_min_time_per_day().as_str());
    fill_value(&mut common.include_all_stats, stats.include_all_stats, matches, grammar::id_include_all_stats().as_str());
    fill_value(
        &mut common.ignore_stable_page_metadata,
        stats.ignore_stable_page_metadata,
        matches,
        grammar::id_ignore_stable_page_metadata().as_str(),
    );
}

/// Folds the file into the flags shared by `serve` and `export`.
pub fn merge_common_with_file_config(common: &mut CommonArgs, config: &FileConfig, matches: &ArgMatches)
    ensures
        final(common)@ == merged_common(old(common)@, config@, matches@.args),
{
    if let Some(lib) = &config.library {
        merge_library_section(common, lib, matches);
    }
    if let Some(ks) = &config.koshelf {
        merge_koshelf_section(common, ks, matches);
    }
    if let Some(stats) = &config.statistics {
        merge_statistics_section(common, stats, matches);
    }
}


/// The arguments of `serve` once the file is folded in.
pub open spec fn merged_serve(s: ServeView, f: FileConfigView, a: Seq<MatchedSpec>) -> ServeView {
    let common = merged_common(s.common, f, a);
    match f.server {
        Some(srv) => ServeView {
            common,
            port: pick(s.port, srv.port, free(a, grammar::arg_port_spec().id)),
            enable_auth: pick(s.enable_auth, srv.enable_auth, free(a, grammar::arg_enable_auth_spec().id)),
            enable_writeback: pick(
                s.enable_writeback,
                srv.enable_writeback,
                free(a, grammar::arg_enable_writeback_spec().id),
            ),
            trusted_proxies: pick_list(
                s.trusted_proxies,
                srv.trusted_proxies,
                free(a, grammar::arg_trusted_proxies_spec().id),
            ),
        },
        None => ServeView { common, ..s },
    }
}

/// The arguments of `export` once the file is folded in.
pub open spec fn merged_export(e: ExportView, f: FileConfigView, a: Seq<MatchedSpec>) -> ExportView {
    let common = merged_common(e.common, f, a);
    match f.output {
        Some(o) => ExportView {
            common,
            output: pick_some(e.output, o.path, free(a, grammar::arg_output_spec().id)),
            include_files: pick(e.include_files, o.include_files, free(a, grammar::arg_include_files_spec().id)),
            watch: pick(e.watch, o.watch, free(a, grammar::arg_watch_spec().id)),
        },
        None => ExportView { common, ..e },
    }
}

/// The data path of `set-password` once the file is folded in.
pub open spec fn merged_data_path(d: Option<Seq<char>>, f: FileConfigView, a: Seq<MatchedSpec>) -> Option<Seq<char>> {
    match f.koshelf {
        Some(k) => pick_some(d, k.data_path, free(a, grammar::arg_data_path_spec().id)),
        None => d,
    }
}

fn merge_server_section(args: &mut ServeArgs, srv: &ServerSection, matches: &ArgMatches)
    ensures
        final(args)@ == (ServeView {
            common: old(args)@.common,
            port: pick(old(args)@.port, srv@.port, free(matches@.args, grammar::arg_port_spec().id)),
            enable_auth: pick(old(args)@.enable_auth, srv@.enable_auth, free(matches@.args, grammar::arg_enable_auth_spec().id)),
            enable_writeback: pick(
                old(args)@.enable_writeback,
                srv@.enable_writeback,
                free(matches@.args, grammar::arg_enable_writeback_spec().id),
            ),
            trusted_proxies: pick_list(
                old(args)@.trusted_proxies,
                srv@.trusted_proxies,
                free(matches@.args, grammar::arg_trusted_proxies_spec().id),
            ),
        }),
{
    fill_value(&mut args.port, srv.port, matches, grammar::id_port().as_str());
    fill_value(&mut args.enable_auth, srv.enable_auth, matches, grammar::id_enable_auth().as_str());
    fill_value(&mut args.enable_writeback, srv.enable_writeback, matches, grammar::id_enable_writeback().as_str());
    fill_nonempty_list(&mut args.trusted_proxies, &srv.trusted_proxies, matches, grammar::id_trusted_proxies().as_str());
}

/// Folds the file into the arguments of `serve`: the shared sections, then `[server]`.
/// `matches` are those of the `serve` subcommand.
pub fn merge_serve_with_file_config(args: &mut ServeArgs, config: &FileConfig, matches: &ArgMatches)
    ensures
        final(args)@ == merged_serve(old(args)@, config@, matches@.args),
{
    merge_common_with_file_config(&mut args.common, config, matches);
    if let Some(srv) = &config.server {
        merge_server_section(args, srv, matches);
    }
}

fn merge_output_section(args: &mut ExportArgs, out: &OutputSection, matches: &ArgMatches)
    ensures
        final(args)@ == (ExportView {
            common: old(args)@.common,
            output: pick_some(old(args)@.output, out@.path, free(matches@.args, grammar::arg_output_spec().id)),
            include_files: pick(
                old(args)@.include_files,
                out@.include_files,
                free(matches@.args, grammar::arg_include_files_spec().id),
            ),
            watch: pick(old(args)@.watch, out@.watch, free(matches@.args, grammar::arg_watch_spec().id)),
        }),
{
    fill_opt_text(&mut args.output, &out.path, matches, grammar::id_output().as_str());
    fill_value(&mut args.include_files, out.include_files, matches, grammar::id_include_files().as_str());
    fill_value(&mut args.watch, out.watch, matches, grammar::id_watch().as_str());
}

/// Folds the file into the arguments of `export`: the shared sections, then `[output]`.
/// `matches` are those of the `export` subcommand.
pub fn merge_export_with_file_config(args: &mut ExportArgs, config: &FileConfig, matches: &ArgMatches)
    ensures
        final(args)@ == merged_export(old(args)@, config@, matches@.args),
{
    merge_common_with_file_config(&mut args.common, config, matches);
    if let Some(out) = &config.output {
        merge_output_section(args, out, matches);
    }
}

/// Folds `[koshelf].data_path` into the data path of `set-password` when it
/// was not given explicitly. `matches` are those of the `set-password` subcommand.
pub fn merge_set_password_data_path(data_path: &mut Option<String>, config: &FileConfig, matches: &ArgMatches)
    ensures
        opt_str(*final(data_path)) == merged_data_path(opt_str(*old(data_path)), config@, matches@.args),
{
    if let Some(ks) = &config.koshelf {
        fill_opt_text(data_path, &ks.data_path, matches, grammar::id_data_path().as_str());
    }
}


// ── Laws ──────────────────────────────────────────────────────────────

/// Every flag shared by `serve` and `export` that was given explicitly has kept its value.
pub open spec fn explicit_common_kept(before: CommonView, after: CommonView, a: Seq<MatchedSpec>) -> bool {
    &&& !free(a, grammar::arg_library_path_spec().id) ==> after.library_path == before.library_path
    &&& !free(a, grammar::arg_docsettings_path_spec().id) ==> after.docsettings_path == before.docsettings_path
    &&& !free(a, grammar::arg_hashdocsettings_path_spec().id) ==> after.hashdocsettings_path == before.hashdocsettings_path
    &&& !free(a, grammar::arg_statistics_db_spec().id) ==> after.statistics_db == before.statistics_db
    &&& !free(a, grammar::arg_kobo_db_spec().id) ==> after.kobo_db == before.kobo_db
    &&& !free(a, grammar::arg_include_unread_spec().id) ==> after.include_unread == before.include_unread
    &&& !free(a, grammar::arg_retain_missing_spec().id) ==> after.retain_missing == before.retain_missing
    &&& !free(a, grammar::arg_title_spec().id) ==> after.title == before.title
    &&& !free(a, grammar::arg_language_spec().id) ==> after.language == before.language
    &&& !free(a, grammar::arg_timezone_spec().id) ==> after.timezone == before.timezone
    &&& !free(a, grammar::arg_data_path_spec().id) ==> after.data_path == before.data_path
    &&& !free(a, grammar::arg_heatmap_scale_max_spec().id) ==> after.heatmap_scale_max == before.heatmap_scale_max
    &&& !free(a, grammar::arg_day_start_time_spec().id) ==> after.day_start_time == before.day_start_time
    &&& !free(a, grammar::arg_min_pages_per_day_spec().id) ==> after.min_pages_per_day == before.min_pages_per_day
    &&& !free(a, grammar::arg_min_time_per_day_spec().id) ==> after.min_time_per_day == before.min_time_per_day
    &&& !free(a, grammar::arg_include_all_stats_spec().id) ==> after.include_all_stats == before.include_all_stats
    &&& !free(a, grammar::arg_ignore_stable_page_metadata_spec().id) ==> after.ignore_stable_page_metadata == before.ignore_stable_page_metadata
}

/// Every setting of the file's shared sections whose flag was left to its
/// default has been taken (a list only when it is not empty).
pub open spec fn file_common_taken(f: FileConfigView, after: CommonView, a: Seq<MatchedSpec>) -> bool {
    &&& f.library matches Some(l) ==> {
        &&& (l.paths matches Some(v) ==> (free(a, grammar::arg_library_path_spec().id) && v.len() > 0 ==> after.library_path == v))
        &&& (l.docsettings_path matches Some(v) ==> (free(a, grammar::arg_docsettings_path_spec().id) ==> after.docsettings_path == Some(v)))
        &&& (l.hashdocsettings_path matches Some(v) ==> (free(a, grammar::arg_hashdocsettings_path_spec().id) ==> after.hashdocsettings_path == Some(v)))
        &&& (l.statistics_db matches Some(v) ==> (free(a, grammar::arg_statistics_db_spec().id) ==> after.statistics_db == v))
        &&& (l.kobo_db matches Some(v) ==> (free(a, grammar::arg_kobo_db_spec().id) ==> after.kobo_db == Some(v)))
        &&& (l.include_unread matches Some(v) ==> (free(a, grammar::arg_include_unread_spec().id) ==> after.include_unread == v))
        &&& (l.retain_missing matches Some(v) ==> (free(a, grammar::arg_retain_missing_spec().id) ==> after.retain_missing == v))
    }
    &&& f.koshelf matches Some(k) ==> {
        &&& (k.title matches Some(v) ==> (free(a, grammar::arg_title_spec().id) ==> after.title == v))
        &&& (k.language matches Some(v) ==> (free(a, grammar::arg_language_spec().id) ==> after.language == v))
        &&& (k.timezone matches Some(v) ==> (free(a, grammar::arg_timezone_spec().id) ==> after.timezone == Some(v)))
        &&& (k.data_path matches Some(v) ==> (free(a, grammar::arg_data_path_spec().id) ==> after.data_path == Some(v)))
    }
    &&& f.statistics matches Some(s) ==> {
        &&& (s.heatmap_scale_max matches Some(v) ==> (free(a, grammar::arg_heatmap_scale_max_spec().id) ==> after.heatmap_scale_max == v))
        &&& (s.day_start_time matches Some(v) ==> (free(a, grammar::arg_day_start_time_spec().id) ==> after.day_start_time == Some(v)))
        &&& (s.min_pages_per_day matches Some(v) ==> (free(a, grammar::arg_min_pages_per_day_spec().id) ==> after.min_pages_per_day == Some(v)))
        &&& (s.min_time_per_day matches Some(v) ==> (free(a, grammar::arg_min_time_per_day_spec().id) ==> after.min_time_per_day == Some(v)))
        &&& (s.include_all_stats matches Some(v) ==> (free(a, grammar::arg_include_all_stats_spec().id) ==> after.include_all_stats == v))
        &&& (s.ignore_stable_page_metadata matches Some(v) ==> (free(a, grammar::arg_ignore_stable_page_metadata_spec().id) ==> after.ignore_stable_page_metadata == v))
    }
}

/// A configuration file with no section.
pub open spec fn empty_file() -> FileConfigView {
    FileConfigView { library: None, koshelf: None, server: None, output: None, statistics: None }
}

/// A value given on the command line or in the environment is never replaced
/// by the configuration file, for any argument of `serve`.
pub proof fn explicit_serve_arguments_win(s: ServeView, f: FileConfigView, a: Seq<MatchedSpec>)
    ensures
        explicit_common_kept(s.common, merged_serve(s, f, a).common, a),
        !free(a, grammar::arg_port_spec().id) ==> merged_serve(s, f, a).port == s.port,
        !free(a, grammar::arg_enable_auth_spec().id) ==> merged_serve(s, f, a).enable_auth == s.enable_auth,
        !free(a, grammar::arg_enable_writeback_spec().id) ==> merged_serve(s, f, a).enable_writeback == s.enable_writeback,
        !free(a, grammar::arg_trusted_proxies_spec().id) ==> merged_serve(s, f, a).trusted_proxies == s.trusted_proxies,
{
}

/// A value given on the command line or in the environment is never replaced
/// by the configuration file, for any argument of `export`.
pub proof fn explicit_export_arguments_win(e: ExportView, f: FileConfigView, a: Seq<MatchedSpec>)
    ensures
        explicit_common_kept(e.common, merged_export(e, f, a).common, a),
        !free(a, grammar::arg_output_spec().id) ==> merged_export(e, f, a).output == e.output,
        !free(a, grammar::arg_include_files_spec().id) ==> merged_export(e, f, a).include_files == e.include_files,
        !free(a, grammar::arg_watch_spec().id) ==> merged_export(e, f, a).watch == e.watch,
{
}

/// Every setting of the file whose argument of `serve` was left to its
/// default is taken (a list only when it is not empty).
pub proof fn file_fills_unset_serve_arguments(s: ServeView, f: FileConfigView, a: Seq<MatchedSpec>)
    ensures
        file_common_taken(f, merged_serve(s, f, a).common, a),
        f.server matches Some(srv) ==> {
            let m = merged_serve(s, f, a);
            &&& (srv.port matches Some(v) ==> (free(a, grammar::arg_port_spec().id) ==> m.port == v))
            &&& (srv.enable_auth matches Some(v) ==> (free(a, grammar::arg_enable_auth_spec().id) ==> m.enable_auth == v))
            &&& (srv.enable_writeback matches Some(v) ==> (free(a, grammar::arg_enable_writeback_spec().id)
                ==> m.enable_writeback == v))
            &&& (srv.trusted_proxies matches Some(v) ==> (free(a, grammar::arg_trusted_proxies_spec().id) && v.len() > 0
                ==> m.trusted_proxies == v))
        },
{
}

/// Every setting of the file whose argument of `export` was left to its
/// default is taken.
pub proof fn file_fills_unset_export_arguments(e: ExportView, f: FileConfigView, a: Seq<MatchedSpec>)
    ensures
        file_common_taken(f, merged_export(e, f, a).common, a),
        f.output matches Some(o) ==> {
            let m = merged_export(e, f, a);
            &&& (o.path matches Some(v) ==> (free(a, grammar::arg_output_spec().id) ==> m.output == Some(v)))
            &&& (o.include_files matches Some(v) ==> (free(a, grammar::arg_include_files_spec().id) ==> m.include_files == v))
            &&& (o.watch matches Some(v) ==> (free(a, grammar::arg_watch_spec().id) ==> m.watch == v))
        },
{
}

/// The data path of `set-password`: an explicit one stays, else the file's is taken.
pub proof fn set_password_data_path_precedence(d: Option<Seq<char>>, f: FileConfigView, a: Seq<MatchedSpec>)
    ensures
        !free(a, grammar::arg_data_path_spec().id) ==> merged_data_path(d, f, a) == d,
        f.koshelf matches Some(k) ==> (k.data_path matches Some(p) ==> (free(a, grammar::arg_data_path_spec().id)
            ==> merged_data_path(d, f, a) == Some(p))),
{
}

/// A file with no section leaves the arguments as they are.
pub proof fn empty_file_changes_nothing(s: ServeView, e: ExportView, d: Option<Seq<char>>, a: Seq<MatchedSpec>)
    ensures
        merged_serve(s, empty_file(), a) == s,
        merged_export(e, empty_file(), a) == e,
        merged_data_path(d, empty_file(), a) == d,
{
}

proof fn merged_common_twice(c: CommonView, f: FileConfigView, a: Seq<MatchedSpec>)
    ensures
        merged_common(merged_common(c, f, a), f, a) == merged_common(c, f, a),
{
    let m = merged_common(c, f, a);
    let mm = merged_common(m, f, a);
    assert(mm.library_path == m.library_path);
    assert(mm.statistics_db == m.statistics_db);
    assert(mm.title == m.title);
    assert(mm.heatmap_scale_max == m.heatmap_scale_max);
}

/// Folding the same file in twice gives what folding it in once gives.
pub proof fn merging_twice_is_merging_once(s: ServeView, e: ExportView, f: FileConfigView, a: Seq<MatchedSpec>)
    ensures
        merged_serve(merged_serve(s, f, a), f, a) == merged_serve(s, f, a),
        merged_export(merged_export(e, f, a), f, a) == merged_export(e, f, a),
{
    merged_common_twice(s.common, f, a);
    merged_common_twice(e.common, f, a);
}

} // verus!
