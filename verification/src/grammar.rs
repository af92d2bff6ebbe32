//! The command line of KoShelf: its commands, their options and flags, the
//! environment variables each option falls back to, and its defaults.

use vstd::prelude::*;
use crate::args::{args_view, cmd_wf, strs, ArgDef, ArgKind, ArgSpec, CmdSpec, CommandDef, ValueType};

verus! {

/// The `config` argument.
pub open spec fn arg_config_spec() -> ArgSpec {
    ArgSpec {
        id: seq!['c', 'o', 'n', 'f', 'i', 'g'],
        longs: seq![seq!['c', 'o', 'n', 'f', 'i', 'g']],
        shorts: seq!['c'],
        kind: ArgKind::Single,
        value_type: ValueType::Path,
        delimiter: None,
        env: Some(seq!['K', 'O', 'S', 'H', 'E', 'L', 'F', '_', 'C', 'O', 'N', 'F', 'I', 'G']),
        default: None,
    }
}

/// Builds the `config` argument.
pub fn arg_config() -> (r: ArgDef)
    ensures
        r@ == arg_config_spec(),
{
    proof {
        reveal_strlit("config");
        reveal_strlit("KOSHELF_CONFIG");
    }
    assert("config"@ =~= seq!['c', 'o', 'n', 'f', 'i', 'g']);
    assert("KOSHELF_CONFIG"@ =~= seq!['K', 'O', 'S', 'H', 'E', 'L', 'F', '_', 'C', 'O', 'N', 'F', 'I', 'G']);
    let r = ArgDef {
        id: String::from_str("config"),
        longs: vec![String::from_str("config")],
        shorts: vec!['c'],
        kind: ArgKind::Single,
        value_type: ValueType::Path,
        delimiter: None,
        env: Some(String::from_str("KOSHELF_CONFIG")),
        default: None,
    };
    assert(strs(r.longs@) =~= arg_config_spec().longs);
    assert(r.shorts@ =~= arg_config_spec().shorts);
    r
}

/// The `help` argument.
pub open spec fn arg_help_spec() -> ArgSpec {
    ArgSpec {
        id: seq!['h', 'e', 'l', 'p'],
        longs: seq![seq!['h', 'e', 'l', 'p']],
        shorts: seq!['h'],
        kind: ArgKind::Help,
        value_type: ValueType::Bool,
        delimiter: None,
        env: None,
        default: None,
    }
}

/// Builds the `help` argument.
pub fn arg_help() -> (r: ArgDef)
    ensures
        r@ == arg_help_spec(),
{
    proof {
        reveal_strlit("help");
    }
    assert("help"@ =~= seq!['h', 'e', 'l', 'p']);
    let r = ArgDef {
        id: String::from_str("help"),
        longs: vec![String::from_str("help")],
        shorts: vec!['h'],
        kind: ArgKind::Help,
        value_type: ValueType::Bool,
        delimiter: None,
        env: None,
        default: None,
    };
    assert(strs(r.longs@) =~= arg_help_spec().longs);
    assert(r.shorts@ =~= arg_help_spec().shorts);
    r
}

/// The `version` argument.
pub open spec fn arg_version_spec() -> ArgSpec {
    ArgSpec {
        id: seq!['v', 'e', 'r', 's', 'i', 'o', 'n'],
        longs: seq![seq!['v', 'e', 'r', 's', 'i', 'o', 'n']],
        shorts: seq!['V'],
        kind: ArgKind::Version,
        value_type: ValueType::Bool,
        delimiter: None,
        env: None,
        default: None,
    }
}

/// Builds the `version` argument.
pub fn arg_version() -> (r: ArgDef)
    ensures
        r@ == arg_version_spec(),
{
    proof {
        reveal_strlit("version");
    }
    assert("version"@ =~= seq!['v', 'e', 'r', 's', 'i', 'o', 'n']);
    let r = ArgDef {
        id: String::from_str("version"),
        longs: vec![String::from_str("version")],
        shorts: vec!['V'],
        kind: ArgKind::Version,
        value_type: ValueType::Bool,
        delimiter: None,
        env: None,
        default: None,
    };
    assert(strs(r.longs@) =~= arg_version_spec().longs);
    assert(r.shorts@ =~= arg_version_spec().shorts);
    r
}

/// The `library_path` argument.
pub open spec fn arg_library_path_spec() -> ArgSpec {
    ArgSpec {
        id: seq!['l', 'i', 'b', 'r', 'a', 'r', 'y', '_', 'p', 'a', 't', 'h'],
        longs: seq![seq!['l', 'i', 'b', 'r', 'a', 'r', 'y', '-', 'p', 'a', 't', 'h'], seq!['b', 'o', 'o', 'k', 's', '-', 'p', 'a', 't', 'h']],
        shorts: seq!['i', 'b'],
        kind: ArgKind::Append,
        value_type: ValueType::Path,
        delimiter: None,
        env: Some(seq!['K', 'O', 'S', 'H', 'E', 'L', 'F', '_', 'L', 'I', 'B', 'R', 'A', 'R', 'Y', '_', 'P', 'A', 'T', 'H']),
        default: None,
    }
}

/// Builds the `library_path` argument.
pub fn arg_library_path() -> (r: ArgDef)
    ensures
        r@ == arg_library_path_spec(),
{
    proof {
        reveal_strlit("library_path");
        reveal_strlit("library-path");
        reveal_strlit("books-path");
        reveal_strlit("KOSHELF_LIBRARY_PATH");
    }
    assert("library_path"@ =~= seq!['l', 'i', 'b', 'r', 'a', 'r', 'y', '_', 'p', 'a', 't', 'h']);
    assert("library-path"@ =~= seq!['l', 'i', 'b', 'r', 'a', 'r', 'y', '-', 'p', 'a', 't', 'h']);
    assert("books-path"@ =~= seq!['b', 'o', 'o', 'k', 's', '-', 'p', 'a', 't', 'h']);
    assert("KOSHELF_LIBRARY_PATH"@ =~= seq!['K', 'O', 'S', 'H', 'E', 'L', 'F', '_', 'L', 'I', 'B', 'R', 'A', 'R', 'Y', '_', 'P', 'A', 'T', 'H']);
    let r = ArgDef {
        id: String::from_str("library_path"),
        longs: vec![String::from_str("library-path"), String::from_str("books-path")],
        shorts: vec!['i', 'b'],
        kind: ArgKind::Append,
        value_type: ValueType::Path,
        delimiter: None,
        env: Some(String::from_str("KOSHELF_LIBRARY_PATH")),
        default: None,
    };
    assert(strs(r.longs@) =~= arg_library_path_spec().longs);
    assert(r.shorts@ =~= arg_library_path_spec().shorts);
    r
}

/// The `docsettings_path` argument.
pub open spec fn arg_docsettings_path_spec() -> ArgSpec {
    ArgSpec {
        id: seq!['d', 'o', 'c', 's', 'e', 't', 't', 'i', 'n', 'g', 's', '_', 'p', 'a', 't', 'h'],
        longs: seq![seq!['d', 'o', 'c', 's', 'e', 't', 't', 'i', 'n', 'g', 's', '-', 'p', 'a', 't', 'h']],
        shorts: seq![],
        kind: ArgKind::Single,
        value_type: ValueType::Path,
        delimiter: None,
        env: Some(seq!['K', 'O', 'S', 'H', 'E', 'L', 'F', '_', 'D', 'O', 'C', 'S', 'E', 'T', 'T', 'I', 'N', 'G', 'S', '_', 'P', 'A', 'T', 'H']),
        default: None,
    }
}

/// Builds the `docsettings_path` argument.
pub fn arg_docsettings_path() -> (r: ArgDef)
    ensures
        r@ == arg_docsettings_path_spec(),
{
    proof {
        reveal_strlit("docsettings_path");
        reveal_strlit("docsettings-path");
        reveal_strlit("KOSHELF_DOCSETTINGS_PATH");
    }
    assert("docsettings_path"@ =~= seq!['d', 'o', 'c', 's', 'e', 't', 't', 'i', 'n', 'g', 's', '_', 'p', 'a', 't', 'h']);
    assert("docsettings-path"@ =~= seq!['d', 'o', 'c', 's', 'e', 't', 't', 'i', 'n', 'g', 's', '-', 'p', 'a', 't', 'h']);
    assert("KOSHELF_DOCSETTINGS_PATH"@ =~= seq!['K', 'O', 'S', 'H', 'E', 'L', 'F', '_', 'D', 'O', 'C', 'S', 'E', 'T', 'T', 'I', 'N', 'G', 'S', '_', 'P', 'A', 'T', 'H']);
    let r = ArgDef {
        id: String::from_str("docsettings_path"),
        longs: vec![String::from_str("docsettings-path")],
        shorts: Vec::new(),
        kind: ArgKind::Single,
        value_type: ValueType::Path,
        delimiter: None,
        env: Some(String::from_str("KOSHELF_DOCSETTINGS_PATH")),
        default: None,
    };
    assert(strs(r.longs@) =~= arg_docsettings_path_spec().longs);
    assert(r.shorts@ =~= arg_docsettings_path_spec().shorts);
    r
}

/// The `hashdocsettings_path` argument.
pub open spec fn arg_hashdocsettings_path_spec() -> ArgSpec {
    ArgSpec {
        id: seq!['h', 'a', 's', 'h', 'd', 'o', 'c', 's', 'e', 't', 't', 'i', 'n', 'g', 's', '_', 'p', 'a', 't', 'h'],
        longs: seq![seq!['h', 'a', 's', 'h', 'd', 'o', 'c', 's', 'e', 't', 't', 'i', 'n', 'g', 's', '-', 'p', 'a', 't', 'h']],
        shorts: seq![],
        kind: ArgKind::Single,
        value_type: ValueType::Path,
        delimiter: None,
        env: Some(seq!['K', 'O', 'S', 'H', 'E', 'L', 'F', '_', 'H', 'A', 'S', 'H', 'D', 'O', 'C', 'S', 'E', 'T', 'T', 'I', 'N', 'G', 'S', '_', 'P', 'A', 'T', 'H']),
        default: None,
    }
}

/// Builds the `hashdocsettings_path` argument.
pub fn arg_hashdocsettings_path() -> (r: ArgDef)
    ensures
        r@ == arg_hashdocsettings_path_spec(),
{
    proof {
        reveal_strlit("hashdocsettings_path");
        reveal_strlit("hashdocsettings-path");
        reveal_strlit("KOSHELF_HASHDOCSETTINGS_PATH");
    }
    assert("hashdocsettings_path"@ =~= seq!['h', 'a', 's', 'h', 'd', 'o', 'c', 's', 'e', 't', 't', 'i', 'n', 'g', 's', '_', 'p', 'a', 't', 'h']);
    assert("hashdocsettings-path"@ =~= seq!['h', 'a', 's', 'h', 'd', 'o', 'c', 's', 'e', 't', 't', 'i', 'n', 'g', 's', '-', 'p', 'a', 't', 'h']);
    assert("KOSHELF_HASHDOCSETTINGS_PATH"@ =~= seq!['K', 'O', 'S', 'H', 'E', 'L', 'F', '_', 'H', 'A', 'S', 'H', 'D', 'O', 'C', 'S', 'E', 'T', 'T', 'I', 'N', 'G', 'S', '_', 'P', 'A', 'T', 'H']);
    let r = ArgDef {
        id: String::from_str("hashdocsettings_path"),
        longs: vec![String::from_str("hashdocsettings-path")],
        shorts: Vec::new(),
        kind: ArgKind::Single,
        value_type: ValueType::Path,
        delimiter: None,
        env: Some(String::from_str("KOSHELF_HASHDOCSETTINGS_PATH")),
        default: None,
    };
    assert(strs(r.longs@) =~= arg_hashdocsettings_path_spec().longs);
    assert(r.shorts@ =~= arg_hashdocsettings_path_spec().shorts);
    r
}

/// The `statistics_db` argument.
pub open spec fn arg_statistics_db_spec() -> ArgSpec {
    ArgSpec {
        id: seq!['s', 't', 'a', 't', 'i', 's', 't', 'i', 'c', 's', '_', 'd', 'b'],
        longs: seq![seq!['s', 't', 'a', 't', 'i', 's', 't', 'i', 'c', 's', '-', 'd', 'b']],
        shorts: seq!['s'],
        kind: ArgKind::Append,
        value_type: ValueType::Path,
        delimiter: None,
        env: Some(seq!['K', 'O', 'S', 'H', 'E', 'L', 'F', '_', 'S', 'T', 'A', 'T', 'I', 'S', 'T', 'I', 'C', 'S', '_', 'D', 'B']),
        default: None,
    }
}

/// Builds the `statistics_db` argument.
pub fn arg_statistics_db() -> (r: ArgDef)
    ensures
        r@ == arg_statistics_db_spec(),
{
    proof {
        reveal_strlit("statistics_db");
        reveal_strlit("statistics-db");
        reveal_strlit("KOSHELF_STATISTICS_DB");
    }
    assert("statistics_db"@ =~= seq!['s', 't', 'a', 't', 'i', 's', 't', 'i', 'c', 's', '_', 'd', 'b']);
    assert("statistics-db"@ =~= seq!['s', 't', 'a', 't', 'i', 's', 't', 'i', 'c', 's', '-', 'd', 'b']);
    assert("KOSHELF_STATISTICS_DB"@ =~= seq!['K', 'O', 'S', 'H', 'E', 'L', 'F', '_', 'S', 'T', 'A', 'T', 'I', 'S', 'T', 'I', 'C', 'S', '_', 'D', 'B']);
    let r = ArgDef {
        id: String::from_str("statistics_db"),
        longs: vec![String::from_str("statistics-db")],
        shorts: vec!['s'],
        kind: ArgKind::Append,
        value_type: ValueType::Path,
        delimiter: None,
        env: Some(String::from_str("KOSHELF_STATISTICS_DB")),
        default: None,
    };
    assert(strs(r.longs@) =~= arg_statistics_db_spec().longs);
    assert(r.shorts@ =~= arg_statistics_db_spec().shorts);
    r
}

/// The `kobo_db` argument.
pub open spec fn arg_kobo_db_spec() -> ArgSpec {
    ArgSpec {
        id: seq!['k', 'o', 'b', 'o', '_', 'd', 'b'],
        longs: seq![seq!['k', 'o', 'b', 'o', '-', 'd', 'b']],
        shorts: seq![],
        kind: ArgKind::Single,
        value_type: ValueType::Path,
        delimiter: None,
        env: Some(seq!['K', 'O', 'S', 'H', 'E', 'L', 'F', '_', 'K', 'O', 'B', 'O', '_', 'D', 'B']),
        default: None,
    }
}

/// Builds the `kobo_db` argument.
pub fn arg_kobo_db() -> (r: ArgDef)
    ensures
        r@ == arg_kobo_db_spec(),
{
    proof {
        reveal_strlit("kobo_db");
        reveal_strlit("kobo-db");
        reveal_strlit("KOSHELF_KOBO_DB");
    }
    assert("kobo_db"@ =~= seq!['k', 'o', 'b', 'o', '_', 'd', 'b']);
    assert("kobo-db"@ =~= seq!['k', 'o', 'b', 'o', '-', 'd', 'b']);
    assert("KOSHELF_KOBO_DB"@ =~= seq!['K', 'O', 'S', 'H', 'E', 'L', 'F', '_', 'K', 'O', 'B', 'O', '_', 'D', 'B']);
    let r = ArgDef {
        id: String::from_str("kobo_db"),
        longs: vec![String::from_str("kobo-db")],
        shorts: Vec::new(),
        kind: ArgKind::Single,
        value_type: ValueType::Path,
        delimiter: None,
        env: Some(String::from_str("KOSHELF_KOBO_DB")),
        default: None,
    };
    assert(strs(r.longs@) =~= arg_kobo_db_spec().longs);
    assert(r.shorts@ =~= arg_kobo_db_spec().shorts);
    r
}

/// The `include_unread` argument.
pub open spec fn arg_include_unread_spec() -> ArgSpec {
    ArgSpec {
        id: seq!['i', 'n', 'c', 'l', 'u', 'd', 'e', '_', 'u', 'n', 'r', 'e', 'a', 'd'],
        longs: seq![seq!['i', 'n', 'c', 'l', 'u', 'd', 'e', '-', 'u', 'n', 'r', 'e', 'a', 'd']],
        shorts: seq![],
        kind: ArgKind::Flag,
        value_type: ValueType::Bool,
        delimiter: None,
        env: Some(seq!['K', 'O', 'S', 'H', 'E', 'L', 'F', '_', 'I', 'N', 'C', 'L', 'U', 'D', 'E', '_', 'U', 'N', 'R', 'E', 'A', 'D']),
        default: Some(seq!['f', 'a', 'l', 's', 'e']),
    }
}

/// Builds the `include_unread` argument.
pub fn arg_include_unread() -> (r: ArgDef)
    ensures
        r@ == arg_include_unread_spec(),
{
    proof {
        reveal_strlit("include_unread");
        reveal_strlit("include-unread");
        reveal_strlit("KOSHELF_INCLUDE_UNREAD");
        reveal_strlit("false");
    }
    assert("include_unread"@ =~= seq!['i', 'n', 'c', 'l', 'u', 'd', 'e', '_', 'u', 'n', 'r', 'e', 'a', 'd']);
    assert("include-unread"@ =~= seq!['i', 'n', 'c', 'l', 'u', 'd', 'e', '-', 'u', 'n', 'r', 'e', 'a', 'd']);
    assert("KOSHELF_INCLUDE_UNREAD"@ =~= seq!['K', 'O', 'S', 'H', 'E', 'L', 'F', '_', 'I', 'N', 'C', 'L', 'U', 'D', 'E', '_', 'U', 'N', 'R', 'E', 'A', 'D']);
    assert("false"@ =~= seq!['f', 'a', 'l', 's', 'e']);
    let r = ArgDef {
        id: String::from_str("include_unread"),
        longs: vec![String::from_str("include-unread")],
        shorts: Vec::new(),
        kind: ArgKind::Flag,
        value_type: ValueType::Bool,
        delimiter: None,
        env: Some(String::from_str("KOSHELF_INCLUDE_UNREAD")),
        default: Some(String::from_str("false")),
    };
    assert(strs(r.longs@) =~= arg_include_unread_spec().longs);
    assert(r.shorts@ =~= arg_include_unread_spec().shorts);
    r
}

/// The `retain_missing` argument.
pub open spec fn arg_retain_missing_spec() -> ArgSpec {
    ArgSpec {
        id: seq!['r', 'e', 't', 'a', 'i', 'n', '_', 'm', 'i', 's', 's', 'i', 'n', 'g'],
        longs: seq![seq!['r', 'e', 't', 'a', 'i', 'n', '-', 'm', 'i', 's', 's', 'i', 'n', 'g']],
        shorts: seq![],
        kind: ArgKind::Flag,
        value_type: ValueType::Bool,
        delimiter: None,
        env: Some(seq!['K', 'O', 'S', 'H', 'E', 'L', 'F', '_', 'R', 'E', 'T', 'A', 'I', 'N', '_', 'M', 'I', 'S', 'S', 'I', 'N', 'G']),
        default: Some(seq!['f', 'a', 'l', 's', 'e']),
    }
}

/// Builds the `retain_missing` argument.
pub fn arg_retain_missing() -> (r: ArgDef)
    ensures
        r@ == arg_retain_missing_spec(),
{
    proof {
        reveal_strlit("retain_missing");
        reveal_strlit("retain-missing");
        reveal_strlit("KOSHELF_RETAIN_MISSING");
        reveal_strlit("false");
    }
    assert("retain_missing"@ =~= seq!['r', 'e', 't', 'a', 'i', 'n', '_', 'm', 'i', 's', 's', 'i', 'n', 'g']);
    assert("retain-missing"@ =~= seq!['r', 'e', 't', 'a', 'i', 'n', '-', 'm', 'i', 's', 's', 'i', 'n', 'g']);
    assert("KOSHELF_RETAIN_MISSING"@ =~= seq!['K', 'O', 'S', 'H', 'E', 'L', 'F', '_', 'R', 'E', 'T', 'A', 'I', 'N', '_', 'M', 'I', 'S', 'S', 'I', 'N', 'G']);
    assert("false"@ =~= seq!['f', 'a', 'l', 's', 'e']);
    let r = ArgDef {
        id: String::from_str("retain_missing"),
        longs: vec![String::from_str("retain-missing")],
        shorts: Vec::new(),
        kind: ArgKind::Flag,
        value_type: ValueType::Bool,
        delimiter: None,
        env: Some(String::from_str("KOSHELF_RETAIN_MISSING")),
        default: Some(String::from_str("false")),
    };
    assert(strs(r.longs@) =~= arg_retain_missing_spec().longs);
    assert(r.shorts@ =~= arg_retain_missing_spec().shorts);
    r
}

/// The `data_path` argument.
pub open spec fn arg_data_path_spec() -> ArgSpec {
    ArgSpec {
        id: seq!['d', 'a', 't', 'a', '_', 'p', 'a', 't', 'h'],
        longs: seq![seq!['d', 'a', 't', 'a', '-', 'p', 'a', 't', 'h'], seq!['d', 'a', 't', 'a', '-', 'd', 'i', 'r']],
        shorts: seq![],
        kind: ArgKind::Single,
        value_type: ValueType::Path,
        delimiter: None,
        env: Some(seq!['K', 'O', 'S', 'H', 'E', 'L', 'F', '_', 'D', 'A', 'T', 'A', '_', 'P', 'A', 'T', 'H']),
        default: None,
    }
}

/// Builds the `data_path` argument.
pub fn arg_data_path() -> (r: ArgDef)
    ensures
        r@ == arg_data_path_spec(),
{
    proof {
        reveal_strlit("data_path");
        reveal_strlit("data-path");
        reveal_strlit("data-dir");
        reveal_strlit("KOSHELF_DATA_PATH");
    }
    assert("data_path"@ =~= seq!['d', 'a', 't', 'a', '_', 'p', 'a', 't', 'h']);
    assert("data-path"@ =~= seq!['d', 'a', 't', 'a', '-', 'p', 'a', 't', 'h']);
    assert("data-dir"@ =~= seq!['d', 'a', 't', 'a', '-', 'd', 'i', 'r']);
    assert("KOSHELF_DATA_PATH"@ =~= seq!['K', 'O', 'S', 'H', 'E', 'L', 'F', '_', 'D', 'A', 'T', 'A', '_', 'P', 'A', 'T', 'H']);
    let r = ArgDef {
        id: String::from_str("data_path"),
        longs: vec![String::from_str("data-path"), String::from_str("data-dir")],
        shorts: Vec::new(),
        kind: ArgKind::Single,
        value_type: ValueType::Path,
        delimiter: None,
        env: Some(String::from_str("KOSHELF_DATA_PATH")),
        default: None,
    };
    assert(strs(r.longs@) =~= arg_data_path_spec().longs);
    assert(r.shorts@ =~= arg_data_path_spec().shorts);
    r
}

/// The `title` argument.
pub open spec fn arg_title_spec() -> ArgSpec {
    ArgSpec {
        id: seq!['t', 'i', 't', 'l', 'e'],
        longs: seq![seq!['t', 'i', 't', 'l', 'e']],
        shorts: seq!['t'],
        kind: ArgKind::Single,
        value_type: ValueType::Text,
        delimiter: None,
        env: Some(seq!['K', 'O', 'S', 'H', 'E', 'L', 'F', '_', 'T', 'I', 'T', 'L', 'E']),
        default: Some(seq!['K', 'o', 'S', 'h', 'e', 'l', 'f']),
    }
}

/// Builds the `title` argument.
pub fn arg_title() -> (r: ArgDef)
    ensures
        r@ == arg_title_spec(),
{
    proof {
        reveal_strlit("title");
        reveal_strlit("KOSHELF_TITLE");
        reveal_strlit("KoShelf");
    }
    assert("title"@ =~= seq!['t', 'i', 't', 'l', 'e']);
    assert("KOSHELF_TITLE"@ =~= seq!['K', 'O', 'S', 'H', 'E', 'L', 'F', '_', 'T', 'I', 'T', 'L', 'E']);
    assert("KoShelf"@ =~= seq!['K', 'o', 'S', 'h', 'e', 'l', 'f']);
    let r = ArgDef {
        id: String::from_str("title"),
        longs: vec![String::from_str("title")],
        shorts: vec!['t'],
        kind: ArgKind::Single,
        value_type: ValueType::Text,
        delimiter: None,
        env: Some(String::from_str("KOSHELF_TITLE")),
        default: Some(String::from_str("KoShelf")),
    };
    assert(strs(r.longs@) =~= arg_title_spec().longs);
    assert(r.shorts@ =~= arg_title_spec().shorts);
    r
}

/// The `language` argument.
pub open spec fn arg_language_spec() -> ArgSpec {
    ArgSpec {
        id: seq!['l', 'a', 'n', 'g', 'u', 'a', 'g', 'e'],
        longs: seq![seq!['l', 'a', 'n', 'g', 'u', 'a', 'g', 'e']],
        shorts: seq!['l'],
        kind: ArgKind::Single,
        value_type: ValueType::Text,
        delimiter: None,
        env: Some(seq!['K', 'O', 'S', 'H', 'E', 'L', 'F', '_', 'L', 'A', 'N', 'G', 'U', 'A', 'G', 'E']),
        default: Some(seq!['e', 'n', '_', 'U', 'S']),
    }
}

/// Builds the `language` argument.
pub fn arg_language() -> (r: ArgDef)
    ensures
        r@ == arg_language_spec(),
{
    proof {
        reveal_strlit("language");
        reveal_strlit("KOSHELF_LANGUAGE");
        reveal_strlit("en_US");
    }
    assert("language"@ =~= seq!['l', 'a', 'n', 'g', 'u', 'a', 'g', 'e']);
    assert("KOSHELF_LANGUAGE"@ =~= seq!['K', 'O', 'S', 'H', 'E', 'L', 'F', '_', 'L', 'A', 'N', 'G', 'U', 'A', 'G', 'E']);
    assert("en_US"@ =~= seq!['e', 'n', '_', 'U', 'S']);
    let r = ArgDef {
        id: String::from_str("language"),
        longs: vec![String::from_str("language")],
        shorts: vec!['l'],
        kind: ArgKind::Single,
        value_type: ValueType::Text,
        delimiter: None,
        env: Some(String::from_str("KOSHELF_LANGUAGE")),
        default: Some(String::from_str("en_US")),
    };
    assert(strs(r.longs@) =~= arg_language_spec().longs);
    assert(r.shorts@ =~= arg_language_spec().shorts);
    r
}

/// The `timezone` argument.
pub open spec fn arg_timezone_spec() -> ArgSpec {
    ArgSpec {
        id: seq!['t', 'i', 'm', 'e', 'z', 'o', 'n', 'e'],
        longs: seq![seq!['t', 'i', 'm', 'e', 'z', 'o', 'n', 'e']],
        shorts: seq![],
        kind: ArgKind::Single,
        value_type: ValueType::Text,
        delimiter: None,
        env: Some(seq!['K', 'O', 'S', 'H', 'E', 'L', 'F', '_', 'T', 'I', 'M', 'E', 'Z', 'O', 'N', 'E']),
        default: None,
    }
}

/// Builds the `timezone` argument.
pub fn arg_timezone() -> (r: ArgDef)
    ensures
        r@ == arg_timezone_spec(),
{
    proof {
        reveal_strlit("timezone");
        reveal_strlit("KOSHELF_TIMEZONE");
    }
    assert("timezone"@ =~= seq!['t', 'i', 'm', 'e', 'z', 'o', 'n', 'e']);
    assert("KOSHELF_TIMEZONE"@ =~= seq!['K', 'O', 'S', 'H', 'E', 'L', 'F', '_', 'T', 'I', 'M', 'E', 'Z', 'O', 'N', 'E']);
    let r = ArgDef {
        id: String::from_str("timezone"),
        longs: vec![String::from_str("timezone")],
        shorts: Vec::new(),
        kind: ArgKind::Single,
        value_type: ValueType::Text,
        delimiter: None,
        env: Some(String::from_str("KOSHELF_TIMEZONE")),
        default: None,
    };
    assert(strs(r.longs@) =~= arg_timezone_spec().longs);
    assert(r.shorts@ =~= arg_timezone_spec().shorts);
    r
}

/// The `heatmap_scale_max` argument.
pub open spec fn arg_heatmap_scale_max_spec() -> ArgSpec {
    ArgSpec {
        id: seq!['h', 'e', 'a', 't', 'm', 'a', 'p', '_', 's', 'c', 'a', 'l', 'e', '_', 'm', 'a', 'x'],
        longs: seq![seq!['h', 'e', 'a', 't', 'm', 'a', 'p', '-', 's', 'c', 'a', 'l', 'e', '-', 'm', 'a', 'x']],
        shorts: seq![],
        kind: ArgKind::Single,
        value_type: ValueType::Text,
        delimiter: None,
        env: Some(seq!['K', 'O', 'S', 'H', 'E', 'L', 'F', '_', 'H', 'E', 'A', 'T', 'M', 'A', 'P', '_', 'S', 'C', 'A', 'L', 'E', '_', 'M', 'A', 'X']),
        default: Some(seq!['2', 'h']),
    }
}

/// Builds the `heatmap_scale_max` argument.
pub fn arg_heatmap_scale_max() -> (r: ArgDef)
    ensures
        r@ == arg_heatmap_scale_max_spec(),
{
    proof {
        reveal_strlit("heatmap_scale_max");
        reveal_strlit("heatmap-scale-max");
        reveal_strlit("KOSHELF_HEATMAP_SCALE_MAX");
        reveal_strlit("2h");
    }
    assert("heatmap_scale_max"@ =~= seq!['h', 'e', 'a', 't', 'm', 'a', 'p', '_', 's', 'c', 'a', 'l', 'e', '_', 'm', 'a', 'x']);
    assert("heatmap-scale-max"@ =~= seq!['h', 'e', 'a', 't', 'm', 'a', 'p', '-', 's', 'c', 'a', 'l', 'e', '-', 'm', 'a', 'x']);
    assert("KOSHELF_HEATMAP_SCALE_MAX"@ =~= seq!['K', 'O', 'S', 'H', 'E', 'L', 'F', '_', 'H', 'E', 'A', 'T', 'M', 'A', 'P', '_', 'S', 'C', 'A', 'L', 'E', '_', 'M', 'A', 'X']);
    assert("2h"@ =~= seq!['2', 'h']);
    let r = ArgDef {
        id: String::from_str("heatmap_scale_max"),
        longs: vec![String::from_str("heatmap-scale-max")],
        shorts: Vec::new(),
        kind: ArgKind::Single,
        value_type: ValueType::Text,
        delimiter: None,
        env: Some(String::from_str("KOSHELF_HEATMAP_SCALE_MAX")),
        default: Some(String::from_str("2h")),
    };
    assert(strs(r.longs@) =~= arg_heatmap_scale_max_spec().longs);
    assert(r.shorts@ =~= arg_heatmap_scale_max_spec().shorts);
    r
}

/// The `day_start_time` argument.
pub open spec fn arg_day_start_time_spec() -> ArgSpec {
    ArgSpec {
        id: seq!['d', 'a', 'y', '_', 's', 't', 'a', 'r', 't', '_', 't', 'i', 'm', 'e'],
        longs: seq![seq!['d', 'a', 'y', '-', 's', 't', 'a', 'r', 't', '-', 't', 'i', 'm', 'e']],
        shorts: seq![],
        kind: ArgKind::Single,
        value_type: ValueType::Text,
        delimiter: None,
        env: Some(seq!['K', 'O', 'S', 'H', 'E', 'L', 'F', '_', 'D', 'A', 'Y', '_', 'S', 'T', 'A', 'R', 'T', '_', 'T', 'I', 'M', 'E']),
        default: None,
    }
}

/// Builds the `day_start_time` argument.
pub fn arg_day_start_time() -> (r: ArgDef)
    ensures
        r@ == arg_day_start_time_spec(),
{
    proof {
        reveal_strlit("day_start_time");
        reveal_strlit("day-start-time");
        reveal_strlit("KOSHELF_DAY_START_TIME");
    }
    assert("day_start_time"@ =~= seq!['d', 'a', 'y', '_', 's', 't', 'a', 'r', 't', '_', 't', 'i', 'm', 'e']);
    assert("day-start-time"@ =~= seq!['d', 'a', 'y', '-', 's', 't', 'a', 'r', 't', '-', 't', 'i', 'm', 'e']);
    assert("KOSHELF_DAY_START_TIME"@ =~= seq!['K', 'O', 'S', 'H', 'E', 'L', 'F', '_', 'D', 'A', 'Y', '_', 'S', 'T', 'A', 'R', 'T', '_', 'T', 'I', 'M', 'E']);
    let r = ArgDef {
        id: String::from_str("day_start_time"),
        longs: vec![String::from_str("day-start-time")],
        shorts: Vec::new(),
        kind: ArgKind::Single,
        value_type: ValueType::Text,
        delimiter: None,
        env: Some(String::from_str("KOSHELF_DAY_START_TIME")),
        default: None,
    };
    assert(strs(r.longs@) =~= arg_day_start_time_spec().longs);
    assert(r.shorts@ =~= arg_day_start_time_spec().shorts);
    r
}

/// The `min_pages_per_day` argument.
pub open spec fn arg_min_pages_per_day_spec() -> ArgSpec {
    ArgSpec {
        id: seq!['m', 'i', 'n', '_', 'p', 'a', 'g', 'e', 's', '_', 'p', 'e', 'r', '_', 'd', 'a', 'y'],
        longs: seq![seq!['m', 'i', 'n', '-', 'p', 'a', 'g', 'e', 's', '-', 'p', 'e', 'r', '-', 'd', 'a', 'y']],
        shorts: seq![],
        kind: ArgKind::Single,
        value_type: ValueType::U32,
        delimiter: None,
        env: Some(seq!['K', 'O', 'S', 'H', 'E', 'L', 'F', '_', 'M', 'I', 'N', '_', 'P', 'A', 'G', 'E', 'S', '_', 'P', 'E', 'R', '_', 'D', 'A', 'Y']),
        default: None,
    }
}

/// Builds the `min_pages_per_day` argument.
pub fn arg_min_pages_per_day() -> (r: ArgDef)
    ensures
        r@ == arg_min_pages_per_day_spec(),
{
    proof {
        reveal_strlit("min_pages_per_day");
        reveal_strlit("min-pages-per-day");
        reveal_strlit("KOSHELF_MIN_PAGES_PER_DAY");
    }
    assert("min_pages_per_day"@ =~= seq!['m', 'i', 'n', '_', 'p', 'a', 'g', 'e', 's', '_', 'p', 'e', 'r', '_', 'd', 'a', 'y']);
    assert("min-pages-per-day"@ =~= seq!['m', 'i', 'n', '-', 'p', 'a', 'g', 'e', 's', '-', 'p', 'e', 'r', '-', 'd', 'a', 'y']);
    assert("KOSHELF_MIN_PAGES_PER_DAY"@ =~= seq!['K', 'O', 'S', 'H', 'E', 'L', 'F', '_', 'M', 'I', 'N', '_', 'P', 'A', 'G', 'E', 'S', '_', 'P', 'E', 'R', '_', 'D', 'A', 'Y']);
    let r = ArgDef {
        id: String::from_str("min_pages_per_day"),
        longs: vec![String::from_str("min-pages-per-day")],
        shorts: Vec::new(),
        kind: ArgKind::Single,
        value_type: ValueType::U32,
        delimiter: None,
        env: Some(String::from_str("KOSHELF_MIN_PAGES_PER_DAY")),
        default: None,
    };
    assert(strs(r.longs@) =~= arg_min_pages_per_day_spec().longs);
    assert(r.shorts@ =~= arg_min_pages_per_day_spec().shorts);
    r
}

/// The `min_time_per_day` argument.
pub open spec fn arg_min_time_per_day_spec() -> ArgSpec {
    ArgSpec {
        id: seq!['m', 'i', 'n', '_', 't', 'i', 'm', 'e', '_', 'p', 'e', 'r', '_', 'd', 'a', 'y'],
        longs: seq![seq!['m', 'i', 'n', '-', 't', 'i', 'm', 'e', '-', 'p', 'e', 'r', '-', 'd', 'a', 'y']],
        shorts: seq![],
        kind: ArgKind::Single,
        value_type: ValueType::Text,
        delimiter: None,
        env: Some(seq!['K', 'O', 'S', 'H', 'E', 'L', 'F', '_', 'M', 'I', 'N', '_', 'T', 'I', 'M', 'E', '_', 'P', 'E', 'R', '_', 'D', 'A', 'Y']),
        default: Some(seq!['3', '0', 's']),
    }
}

/// Builds the `min_time_per_day` argument.
pub fn arg_min_time_per_day() -> (r: ArgDef)
    ensures
        r@ == arg_min_time_per_day_spec(),
{
    proof {
        reveal_strlit("min_time_per_day");
        reveal_strlit("min-time-per-day");
        reveal_strlit("KOSHELF_MIN_TIME_PER_DAY");
        reveal_strlit("30s");
    }
    assert("min_time_per_day"@ =~= seq!['m', 'i', 'n', '_', 't', 'i', 'm', 'e', '_', 'p', 'e', 'r', '_', 'd', 'a', 'y']);
    assert("min-time-per-day"@ =~= seq!['m', 'i', 'n', '-', 't', 'i', 'm', 'e', '-', 'p', 'e', 'r', '-', 'd', 'a', 'y']);
    assert("KOSHELF_MIN_TIME_PER_DAY"@ =~= seq!['K', 'O', 'S', 'H', 'E', 'L', 'F', '_', 'M', 'I', 'N', '_', 'T', 'I', 'M', 'E', '_', 'P', 'E', 'R', '_', 'D', 'A', 'Y']);
    assert("30s"@ =~= seq!['3', '0', 's']);
    let r = ArgDef {
        id: String::from_str("min_time_per_day"),
        longs: vec![String::from_str("min-time-per-day")],
        shorts: Vec::new(),
        kind: ArgKind::Single,
        value_type: ValueType::Text,
        delimiter: None,
        env: Some(String::from_str("KOSHELF_MIN_TIME_PER_DAY")),
        default: Some(String::from_str("30s")),
    };
    assert(strs(r.longs@) =~= arg_min_time_per_day_spec().longs);
    assert(r.shorts@ =~= arg_min_time_per_day_spec().shorts);
    r
}

/// The `include_all_stats` argument.
pub open spec fn arg_include_all_stats_spec() -> ArgSpec {
    ArgSpec {
        id: seq!['i', 'n', 'c', 'l', 'u', 'd', 'e', '_', 'a', 'l', 'l', '_', 's', 't', 'a', 't', 's'],
        longs: seq![seq!['i', 'n', 'c', 'l', 'u', 'd', 'e', '-', 'a', 'l', 'l', '-', 's', 't', 'a', 't', 's']],
        shorts: seq![],
        kind: ArgKind::Flag,
        value_type: ValueType::Bool,
        delimiter: None,
        env: Some(seq!['K', 'O', 'S', 'H', 'E', 'L', 'F', '_', 'I', 'N', 'C', 'L', 'U', 'D', 'E', '_', 'A', 'L', 'L', '_', 'S', 'T', 'A', 'T', 'S']),
        default: Some(seq!['f', 'a', 'l', 's', 'e']),
    }
}

/// Builds the `include_all_stats` argument.
pub fn arg_include_all_stats() -> (r: ArgDef)
    ensures
        r@ == arg_include_all_stats_spec(),
{
    proof {
        reveal_strlit("include_all_stats");
        reveal_strlit("include-all-stats");
        reveal_strlit("KOSHELF_INCLUDE_ALL_STATS");
        reveal_strlit("false");
    }
    assert("include_all_stats"@ =~= seq!['i', 'n', 'c', 'l', 'u', 'd', 'e', '_', 'a', 'l', 'l', '_', 's', 't', 'a', 't', 's']);
    assert("include-all-stats"@ =~= seq!['i', 'n', 'c', 'l', 'u', 'd', 'e', '-', 'a', 'l', 'l', '-', 's', 't', 'a', 't', 's']);
    assert("KOSHELF_INCLUDE_ALL_STATS"@ =~= seq!['K', 'O', 'S', 'H', 'E', 'L', 'F', '_', 'I', 'N', 'C', 'L', 'U', 'D', 'E', '_', 'A', 'L', 'L', '_', 'S', 'T', 'A', 'T', 'S']);
    assert("false"@ =~= seq!['f', 'a', 'l', 's', 'e']);
    let r = ArgDef {
        id: String::from_str("include_all_stats"),
        longs: vec![String::from_str("include-all-stats")],
        shorts: Vec::new(),
        kind: ArgKind::Flag,
        value_type: ValueType::Bool,
        delimiter: None,
        env: Some(String::from_str("KOSHELF_INCLUDE_ALL_STATS")),
        default: Some(String::from_str("false")),
    };
    assert(strs(r.longs@) =~= arg_include_all_stats_spec().longs);
    assert(r.shorts@ =~= arg_include_all_stats_spec().shorts);
    r
}

/// The `ignore_stable_page_metadata` argument.
pub open spec fn arg_ignore_stable_page_metadata_spec() -> ArgSpec {
    ArgSpec {
        id: seq!['i', 'g', 'n', 'o', 'r', 'e', '_', 's', 't', 'a', 'b', 'l', 'e', '_', 'p', 'a', 'g', 'e', '_', 'm', 'e', 't', 'a', 'd', 'a', 't', 'a'],
        longs: seq![seq!['i', 'g', 'n', 'o', 'r', 'e', '-', 's', 't', 'a', 'b', 'l', 'e', '-', 'p', 'a', 'g', 'e', '-', 'm', 'e', 't', 'a', 'd', 'a', 't', 'a']],
        shorts: seq![],
        kind: ArgKind::Flag,
        value_type: ValueType::Bool,
        delimiter: None,
        env: Some(seq!['K', 'O', 'S', 'H', 'E', 'L', 'F', '_', 'I', 'G', 'N', 'O', 'R', 'E', '_', 'S', 'T', 'A', 'B', 'L', 'E', '_', 'P', 'A', 'G', 'E', '_', 'M', 'E', 'T', 'A', 'D', 'A', 'T', 'A']),
        default: Some(seq!['f', 'a', 'l', 's', 'e']),
    }
}

/// Builds the `ignore_stable_page_metadata` argument.
pub fn arg_ignore_stable_page_metadata() -> (r: ArgDef)
    ensures
        r@ == arg_ignore_stable_page_metadata_spec(),
{
    proof {
        reveal_strlit("ignore_stable_page_metadata");
        reveal_strlit("ignore-stable-page-metadata");
        reveal_strlit("KOSHELF_IGNORE_STABLE_PAGE_METADATA");
        reveal_strlit("false");
    }
    assert("ignore_stable_page_metadata"@ =~= seq!['i', 'g', 'n', 'o', 'r', 'e', '_', 's', 't', 'a', 'b', 'l', 'e', '_', 'p', 'a', 'g', 'e', '_', 'm', 'e', 't', 'a', 'd', 'a', 't', 'a']);
    assert("ignore-stable-page-metadata"@ =~= seq!['i', 'g', 'n', 'o', 'r', 'e', '-', 's', 't', 'a', 'b', 'l', 'e', '-', 'p', 'a', 'g', 'e', '-', 'm', 'e', 't', 'a', 'd', 'a', 't', 'a']);
    assert("KOSHELF_IGNORE_STABLE_PAGE_METADATA"@ =~= seq!['K', 'O', 'S', 'H', 'E', 'L', 'F', '_', 'I', 'G', 'N', 'O', 'R', 'E', '_', 'S', 'T', 'A', 'B', 'L', 'E', '_', 'P', 'A', 'G', 'E', '_', 'M', 'E', 'T', 'A', 'D', 'A', 'T', 'A']);
    assert("false"@ =~= seq!['f', 'a', 'l', 's', 'e']);
    let r = ArgDef {
        id: String::from_str("ignore_stable_page_metadata"),
        longs: vec![String::from_str("ignore-stable-page-metadata")],
        shorts: Vec::new(),
        kind: ArgKind::Flag,
        value_type: ValueType::Bool,
        delimiter: None,
        env: Some(String::from_str("KOSHELF_IGNORE_STABLE_PAGE_METADATA")),
        default: Some(String::from_str("false")),
    };
    assert(strs(r.longs@) =~= arg_ignore_stable_page_metadata_spec().longs);
    assert(r.shorts@ =~= arg_ignore_stable_page_metadata_spec().shorts);
    r
}

/// The `port` argument.
pub open spec fn arg_port_spec() -> ArgSpec {
    ArgSpec {
        id: seq!['p', 'o', 'r', 't'],
        longs: seq![seq!['p', 'o', 'r', 't']],
        shorts: seq!['p'],
        kind: ArgKind::Single,
        value_type: ValueType::U16,
        delimiter: None,
        env: Some(seq!['K', 'O', 'S', 'H', 'E', 'L', 'F', '_', 'P', 'O', 'R', 'T']),
        default: Some(seq!['3', '0', '0', '0']),
    }
}

/// Builds the `port` argument.
pub fn arg_port() -> (r: ArgDef)
    ensures
        r@ == arg_port_spec(),
{
    proof {
        reveal_strlit("port");
        reveal_strlit("KOSHELF_PORT");
        reveal_strlit("3000");
    }
    assert("port"@ =~= seq!['p', 'o', 'r', 't']);
    assert("KOSHELF_PORT"@ =~= seq!['K', 'O', 'S', 'H', 'E', 'L', 'F', '_', 'P', 'O', 'R', 'T']);
    assert("3000"@ =~= seq!['3', '0', '0', '0']);
    let r = ArgDef {
        id: String::from_str("port"),
        longs: vec![String::from_str("port")],
        shorts: vec!['p'],
        kind: ArgKind::Single,
        value_type: ValueType::U16,
        delimiter: None,
        env: Some(String::from_str("KOSHELF_PORT")),
        default: Some(String::from_str("3000")),
    };
    assert(strs(r.longs@) =~= arg_port_spec().longs);
    assert(r.shorts@ =~= arg_port_spec().shorts);
    r
}

/// The `enable_auth` argument.
pub open spec fn arg_enable_auth_spec() -> ArgSpec {
    ArgSpec {
        id: seq!['e', 'n', 'a', 'b', 'l', 'e', '_', 'a', 'u', 't', 'h'],
        longs: seq![seq!['e', 'n', 'a', 'b', 'l', 'e', '-', 'a', 'u', 't', 'h']],
        shorts: seq![],
        kind: ArgKind::Flag,
        value_type: ValueType::Bool,
        delimiter: None,
        env: Some(seq!['K', 'O', 'S', 'H', 'E', 'L', 'F', '_', 'E', 'N', 'A', 'B', 'L', 'E', '_', 'A', 'U', 'T', 'H']),
        default: Some(seq!['f', 'a', 'l', 's', 'e']),
    }
}

/// Builds the `enable_auth` argument.
pub fn arg_enable_auth() -> (r: ArgDef)
    ensures
        r@ == arg_enable_auth_spec(),
{
    proof {
        reveal_strlit("enable_auth");
        reveal_strlit("enable-auth");
        reveal_strlit("KOSHELF_ENABLE_AUTH");
        reveal_strlit("false");
    }
    assert("enable_auth"@ =~= seq!['e', 'n', 'a', 'b', 'l', 'e', '_', 'a', 'u', 't', 'h']);
    assert("enable-auth"@ =~= seq!['e', 'n', 'a', 'b', 'l', 'e', '-', 'a', 'u', 't', 'h']);
    assert("KOSHELF_ENABLE_AUTH"@ =~= seq!['K', 'O', 'S', 'H', 'E', 'L', 'F', '_', 'E', 'N', 'A', 'B', 'L', 'E', '_', 'A', 'U', 'T', 'H']);
    assert("false"@ =~= seq!['f', 'a', 'l', 's', 'e']);
    let r = ArgDef {
        id: String::from_str("enable_auth"),
        longs: vec![String::from_str("enable-auth")],
        shorts: Vec::new(),
        kind: ArgKind::Flag,
        value_type: ValueType::Bool,
        delimiter: None,
        env: Some(String::from_str("KOSHELF_ENABLE_AUTH")),
        default: Some(String::from_str("false")),
    };
    assert(strs(r.longs@) =~= arg_enable_auth_spec().longs);
    assert(r.shorts@ =~= arg_enable_auth_spec().shorts);
    r
}

/// The `enable_writeback` argument.
pub open spec fn arg_enable_writeback_spec() -> ArgSpec {
    ArgSpec {
        id: seq!['e', 'n', 'a', 'b', 'l', 'e', '_', 'w', 'r', 'i', 't', 'e', 'b', 'a', 'c', 'k'],
        longs: seq![seq!['e', 'n', 'a', 'b', 'l', 'e', '-', 'w', 'r', 'i', 't', 'e', 'b', 'a', 'c', 'k']],
        shorts: seq![],
        kind: ArgKind::Flag,
        value_type: ValueType::Bool,
        delimiter: None,
        env: Some(seq!['K', 'O', 'S', 'H', 'E', 'L', 'F', '_', 'E', 'N', 'A', 'B', 'L', 'E', '_', 'W', 'R', 'I', 'T', 'E', 'B', 'A', 'C', 'K']),
        default: Some(seq!['f', 'a', 'l', 's', 'e']),
    }
}

/// Builds the `enable_writeback` argument.
pub fn arg_enable_writeback() -> (r: ArgDef)
    ensures
        r@ == arg_enable_writeback_spec(),
{
    proof {
        reveal_strlit("enable_writeback");
        reveal_strlit("enable-writeback");
        reveal_strlit("KOSHELF_ENABLE_WRITEBACK");
        reveal_strlit("false");
    }
    assert("enable_writeback"@ =~= seq!['e', 'n', 'a', 'b', 'l', 'e', '_', 'w', 'r', 'i', 't', 'e', 'b', 'a', 'c', 'k']);
    assert("enable-writeback"@ =~= seq!['e', 'n', 'a', 'b', 'l', 'e', '-', 'w', 'r', 'i', 't', 'e', 'b', 'a', 'c', 'k']);
    assert("KOSHELF_ENABLE_WRITEBACK"@ =~= seq!['K', 'O', 'S', 'H', 'E', 'L', 'F', '_', 'E', 'N', 'A', 'B', 'L', 'E', '_', 'W', 'R', 'I', 'T', 'E', 'B', 'A', 'C', 'K']);
    assert("false"@ =~= seq!['f', 'a', 'l', 's', 'e']);
    let r = ArgDef {
        id: String::from_str("enable_writeback"),
        longs: vec![String::from_str("enable-writeback")],
        shorts: Vec::new(),
        kind: ArgKind::Flag,
        value_type: ValueType::Bool,
        delimiter: None,
        env: Some(String::from_str("KOSHELF_ENABLE_WRITEBACK")),
        default: Some(String::from_str("false")),
    };
    assert(strs(r.longs@) =~= arg_enable_writeback_spec().longs);
    assert(r.shorts@ =~= arg_enable_writeback_spec().shorts);
    r
}

/// The `trusted_proxies` argument.
pub open spec fn arg_trusted_proxies_spec() -> ArgSpec {
    ArgSpec {
        id: seq!['t', 'r', 'u', 's', 't', 'e', 'd', '_', 'p', 'r', 'o', 'x', 'i', 'e', 's'],
        longs: seq![seq!['t', 'r', 'u', 's', 't', 'e', 'd', '-', 'p', 'r', 'o', 'x', 'i', 'e', 's']],
        shorts: seq![],
        kind: ArgKind::Append,
        value_type: ValueType::Text,
        delimiter: Some(','),
        env: Some(seq!['K', 'O', 'S', 'H', 'E', 'L', 'F', '_', 'T', 'R', 'U', 'S', 'T', 'E', 'D', '_', 'P', 'R', 'O', 'X', 'I', 'E', 'S']),
        default: None,
    }
}

/// Builds the `trusted_proxies` argument.
pub fn arg_trusted_proxies() -> (r: ArgDef)
    ensures
        r@ == arg_trusted_proxies_spec(),
{
    proof {
        reveal_strlit("trusted_proxies");
        reveal_strlit("trusted-proxies");
        reveal_strlit("KOSHELF_TRUSTED_PROXIES");
    }
    assert("trusted_proxies"@ =~= seq!['t', 'r', 'u', 's', 't', 'e', 'd', '_', 'p', 'r', 'o', 'x', 'i', 'e', 's']);
    assert("trusted-proxies"@ =~= seq!['t', 'r', 'u', 's', 't', 'e', 'd', '-', 'p', 'r', 'o', 'x', 'i', 'e', 's']);
    assert("KOSHELF_TRUSTED_PROXIES"@ =~= seq!['K', 'O', 'S', 'H', 'E', 'L', 'F', '_', 'T', 'R', 'U', 'S', 'T', 'E', 'D', '_', 'P', 'R', 'O', 'X', 'I', 'E', 'S']);
    let r = ArgDef {
        id: String::from_str("trusted_proxies"),
        longs: vec![String::from_str("trusted-proxies")],
        shorts: Vec::new(),
        kind: ArgKind::Append,
        value_type: ValueType::Text,
        delimiter: Some(','),
        env: Some(String::from_str("KOSHELF_TRUSTED_PROXIES")),
        default: None,
    };
    assert(strs(r.longs@) =~= arg_trusted_proxies_spec().longs);
    assert(r.shorts@ =~= arg_trusted_proxies_spec().shorts);
    r
}

/// The `output` argument.
pub open spec fn arg_output_spec() -> ArgSpec {
    ArgSpec {
        id: seq!['o', 'u', 't', 'p', 'u', 't'],
        longs: seq![],
        shorts: seq![],
        kind: ArgKind::Single,
        value_type: ValueType::Path,
        delimiter: None,
        env: Some(seq!['K', 'O', 'S', 'H', 'E', 'L', 'F', '_', 'O', 'U', 'T', 'P', 'U', 'T']),
        default: None,
    }
}

/// Builds the `output` argument.
pub fn arg_output() -> (r: ArgDef)
    ensures
        r@ == arg_output_spec(),
{
    proof {
        reveal_strlit("output");
        reveal_strlit("KOSHELF_OUTPUT");
    }
    assert("output"@ =~= seq!['o', 'u', 't', 'p', 'u', 't']);
    assert("KOSHELF_OUTPUT"@ =~= seq!['K', 'O', 'S', 'H', 'E', 'L', 'F', '_', 'O', 'U', 'T', 'P', 'U', 'T']);
    let r = ArgDef {
        id: String::from_str("output"),
        longs: Vec::new(),
        shorts: Vec::new(),
        kind: ArgKind::Single,
        value_type: ValueType::Path,
        delimiter: None,
        env: Some(String::from_str("KOSHELF_OUTPUT")),
        default: None,
    };
    assert(strs(r.longs@) =~= arg_output_spec().longs);
    assert(r.shorts@ =~= arg_output_spec().shorts);
    r
}

/// The `include_files` argument.
pub open spec fn arg_include_files_spec() -> ArgSpec {
    ArgSpec {
        id: seq!['i', 'n', 'c', 'l', 'u', 'd', 'e', '_', 'f', 'i', 'l', 'e', 's'],
        longs: seq![seq!['i', 'n', 'c', 'l', 'u', 'd', 'e', '-', 'f', 'i', 'l', 'e', 's']],
        shorts: seq![],
        kind: ArgKind::Flag,
        value_type: ValueType::Bool,
        delimiter: None,
        env: Some(seq!['K', 'O', 'S', 'H', 'E', 'L', 'F', '_', 'I', 'N', 'C', 'L', 'U', 'D', 'E', '_', 'F', 'I', 'L', 'E', 'S']),
        default: Some(seq!['f', 'a', 'l', 's', 'e']),
    }
}

/// Builds the `include_files` argument.
pub fn arg_include_files() -> (r: ArgDef)
    ensures
        r@ == arg_include_files_spec(),
{
    proof {
        reveal_strlit("include_files");
        reveal_strlit("include-files");
        reveal_strlit("KOSHELF_INCLUDE_FILES");
        reveal_strlit("false");
    }
    assert("include_files"@ =~= seq!['i', 'n', 'c', 'l', 'u', 'd', 'e', '_', 'f', 'i', 'l', 'e', 's']);
    assert("include-files"@ =~= seq!['i', 'n', 'c', 'l', 'u', 'd', 'e', '-', 'f', 'i', 'l', 'e', 's']);
    assert("KOSHELF_INCLUDE_FILES"@ =~= seq!['K', 'O', 'S', 'H', 'E', 'L', 'F', '_', 'I', 'N', 'C', 'L', 'U', 'D', 'E', '_', 'F', 'I', 'L', 'E', 'S']);
    assert("false"@ =~= seq!['f', 'a', 'l', 's', 'e']);
    let r = ArgDef {
        id: String::from_str("include_files"),
        longs: vec![String::from_str("include-files")],
        shorts: Vec::new(),
        kind: ArgKind::Flag,
        value_type: ValueType::Bool,
        delimiter: None,
        env: Some(String::from_str("KOSHELF_INCLUDE_FILES")),
        default: Some(String::from_str("false")),
    };
    assert(strs(r.longs@) =~= arg_include_files_spec().longs);
    assert(r.shorts@ =~= arg_include_files_spec().shorts);
    r
}

/// The `watch` argument.
pub open spec fn arg_watch_spec() -> ArgSpec {
    ArgSpec {
        id: seq!['w', 'a', 't', 'c', 'h'],
        longs: seq![seq!['w', 'a', 't', 'c', 'h']],
        shorts: seq!['w'],
        kind: ArgKind::Flag,
        value_type: ValueType::Bool,
        delimiter: None,
        env: Some(seq!['K', 'O', 'S', 'H', 'E', 'L', 'F', '_', 'W', 'A', 'T', 'C', 'H']),
        default: Some(seq!['f', 'a', 'l', 's', 'e']),
    }
}

/// Builds the `watch` argument.
pub fn arg_watch() -> (r: ArgDef)
    ensures
        r@ == arg_watch_spec(),
{
    proof {
        reveal_strlit("watch");
        reveal_strlit("KOSHELF_WATCH");
        reveal_strlit("false");
    }
    assert("watch"@ =~= seq!['w', 'a', 't', 'c', 'h']);
    assert("KOSHELF_WATCH"@ =~= seq!['K', 'O', 'S', 'H', 'E', 'L', 'F', '_', 'W', 'A', 'T', 'C', 'H']);
    assert("false"@ =~= seq!['f', 'a', 'l', 's', 'e']);
    let r = ArgDef {
        id: String::from_str("watch"),
        longs: vec![String::from_str("watch")],
        shorts: vec!['w'],
        kind: ArgKind::Flag,
        value_type: ValueType::Bool,
        delimiter: None,
        env: Some(String::from_str("KOSHELF_WATCH")),
        default: Some(String::from_str("false")),
    };
    assert(strs(r.longs@) =~= arg_watch_spec().longs);
    assert(r.shorts@ =~= arg_watch_spec().shorts);
    r
}

/// The `data_path` argument.
pub open spec fn arg_sp_data_path_spec() -> ArgSpec {
    ArgSpec {
        id: seq!['d', 'a', 't', 'a', '_', 'p', 'a', 't', 'h'],
        longs: seq![seq!['d', 'a', 't', 'a', '-', 'p', 'a', 't', 'h']],
        shorts: seq![],
        kind: ArgKind::Single,
        value_type: ValueType::Path,
        delimiter: None,
        env: Some(seq!['K', 'O', 'S', 'H', 'E', 'L', 'F', '_', 'D', 'A', 'T', 'A', '_', 'P', 'A', 'T', 'H']),
        default: None,
    }
}

/// Builds the `data_path` argument.
pub fn arg_sp_data_path() -> (r: ArgDef)
    ensures
        r@ == arg_sp_data_path_spec(),
{
    proof {
        reveal_strlit("data_path");
        reveal_strlit("data-path");
        reveal_strlit("KOSHELF_DATA_PATH");
    }
    assert("data_path"@ =~= seq!['d', 'a', 't', 'a', '_', 'p', 'a', 't', 'h']);
    assert("data-path"@ =~= seq!['d', 'a', 't', 'a', '-', 'p', 'a', 't', 'h']);
    assert("KOSHELF_DATA_PATH"@ =~= seq!['K', 'O', 'S', 'H', 'E', 'L', 'F', '_', 'D', 'A', 'T', 'A', '_', 'P', 'A', 'T', 'H']);
    let r = ArgDef {
        id: String::from_str("data_path"),
        longs: vec![String::from_str("data-path")],
        shorts: Vec::new(),
        kind: ArgKind::Single,
        value_type: ValueType::Path,
        delimiter: None,
        env: Some(String::from_str("KOSHELF_DATA_PATH")),
        default: None,
    };
    assert(strs(r.longs@) =~= arg_sp_data_path_spec().longs);
    assert(r.shorts@ =~= arg_sp_data_path_spec().shorts);
    r
}

/// The `password` argument.
pub open spec fn arg_password_spec() -> ArgSpec {
    ArgSpec {
        id: seq!['p', 'a', 's', 's', 'w', 'o', 'r', 'd'],
        longs: seq![seq!['p', 'a', 's', 's', 'w', 'o', 'r', 'd']],
        shorts: seq![],
        kind: ArgKind::Single,
        value_type: ValueType::Text,
        delimiter: None,
        env: Some(seq!['K', 'O', 'S', 'H', 'E', 'L', 'F', '_', 'P', 'A', 'S', 'S', 'W', 'O', 'R', 'D']),
        default: None,
    }
}

/// Builds the `password` argument.
pub fn arg_password() -> (r: ArgDef)
    ensures
        r@ == arg_password_spec(),
{
    proof {
        reveal_strlit("password");
        reveal_strlit("KOSHELF_PASSWORD");
    }
    assert("password"@ =~= seq!['p', 'a', 's', 's', 'w', 'o', 'r', 'd']);
    assert("KOSHELF_PASSWORD"@ =~= seq!['K', 'O', 'S', 'H', 'E', 'L', 'F', '_', 'P', 'A', 'S', 'S', 'W', 'O', 'R', 'D']);
    let r = ArgDef {
        id: String::from_str("password"),
        longs: vec![String::from_str("password")],
        shorts: Vec::new(),
        kind: ArgKind::Single,
        value_type: ValueType::Text,
        delimiter: None,
        env: Some(String::from_str("KOSHELF_PASSWORD")),
        default: None,
    };
    assert(strs(r.longs@) =~= arg_password_spec().longs);
    assert(r.shorts@ =~= arg_password_spec().shorts);
    r
}

/// The `random` argument.
pub open spec fn arg_random_spec() -> ArgSpec {
    ArgSpec {
        id: seq!['r', 'a', 'n', 'd', 'o', 'm'],
        longs: seq![seq!['r', 'a', 'n', 'd', 'o', 'm']],
        shorts: seq![],
        kind: ArgKind::Flag,
        value_type: ValueType::Bool,
        delimiter: None,
        env: None,
        default: Some(seq!['f', 'a', 'l', 's', 'e']),
    }
}

/// Builds the `random` argument.
pub fn arg_random() -> (r: ArgDef)
    ensures
        r@ == arg_random_spec(),
{
    proof {
        reveal_strlit("random");
        reveal_strlit("false");
    }
    assert("random"@ =~= seq!['r', 'a', 'n', 'd', 'o', 'm']);
    assert("false"@ =~= seq!['f', 'a', 'l', 's', 'e']);
    let r = ArgDef {
        id: String::from_str("random"),
        longs: vec![String::from_str("random")],
        shorts: Vec::new(),
        kind: ArgKind::Flag,
        value_type: ValueType::Bool,
        delimiter: None,
        env: None,
        default: Some(String::from_str("false")),
    };
    assert(strs(r.longs@) =~= arg_random_spec().longs);
    assert(r.shorts@ =~= arg_random_spec().shorts);
    r
}

/// The `overwrite` argument.
pub open spec fn arg_overwrite_spec() -> ArgSpec {
    ArgSpec {
        id: seq!['o', 'v', 'e', 'r', 'w', 'r', 'i', 't', 'e'],
        longs: seq![seq!['o', 'v', 'e', 'r', 'w', 'r', 'i', 't', 'e']],
        shorts: seq![],
        kind: ArgKind::Flag,
        value_type: ValueType::Bool,
        delimiter: None,
        env: None,
        default: Some(seq!['f', 'a', 'l', 's', 'e']),
    }
}

/// Builds the `overwrite` argument.
pub fn arg_overwrite() -> (r: ArgDef)
    ensures
        r@ == arg_overwrite_spec(),
{
    proof {
        reveal_strlit("overwrite");
        reveal_strlit("false");
    }
    assert("overwrite"@ =~= seq!['o', 'v', 'e', 'r', 'w', 'r', 'i', 't', 'e']);
    assert("false"@ =~= seq!['f', 'a', 'l', 's', 'e']);
    let r = ArgDef {
        id: String::from_str("overwrite"),
        longs: vec![String::from_str("overwrite")],
        shorts: Vec::new(),
        kind: ArgKind::Flag,
        value_type: ValueType::Bool,
        delimiter: None,
        env: None,
        default: Some(String::from_str("false")),
    };
    assert(strs(r.longs@) =~= arg_overwrite_spec().longs);
    assert(r.shorts@ =~= arg_overwrite_spec().shorts);
    r
}

/// The `dependency` argument.
pub open spec fn arg_dependency_spec() -> ArgSpec {
    ArgSpec {
        id: seq!['d', 'e', 'p', 'e', 'n', 'd', 'e', 'n', 'c', 'y'],
        longs: seq![],
        shorts: seq![],
        kind: ArgKind::Single,
        value_type: ValueType::Text,
        delimiter: None,
        env: None,
        default: None,
    }
}

/// Builds the `dependency` argument.
pub fn arg_dependency() -> (r: ArgDef)
    ensures
        r@ == arg_dependency_spec(),
{
    proof {
        reveal_strlit("dependency");
    }
    assert("dependency"@ =~= seq!['d', 'e', 'p', 'e', 'n', 'd', 'e', 'n', 'c', 'y']);
    let r = ArgDef {
        id: String::from_str("dependency"),
        longs: Vec::new(),
        shorts: Vec::new(),
        kind: ArgKind::Single,
        value_type: ValueType::Text,
        delimiter: None,
        env: None,
        default: None,
    };
    assert(strs(r.longs@) =~= arg_dependency_spec().longs);
    assert(r.shorts@ =~= arg_dependency_spec().shorts);
    r
}

/// The name under which the value of `config` is found.
pub fn id_config() -> (r: String)
    ensures
        r@ == arg_config_spec().id,
{
    proof {
        reveal_strlit("config");
    }
    assert("config"@ =~= seq!['c', 'o', 'n', 'f', 'i', 'g']);
    String::from_str("config")
}

/// The name under which the value of `library_path` is found.
pub fn id_library_path() -> (r: String)
    ensures
        r@ == arg_library_path_spec().id,
{
    proof {
        reveal_strlit("library_path");
    }
    assert("library_path"@ =~= seq!['l', 'i', 'b', 'r', 'a', 'r', 'y', '_', 'p', 'a', 't', 'h']);
    String::from_str("library_path")
}

/// The name under which the value of `docsettings_path` is found.
pub fn id_docsettings_path() -> (r: String)
    ensures
        r@ == arg_docsettings_path_spec().id,
{
    proof {
        reveal_strlit("docsettings_path");
    }
    assert("docsettings_path"@ =~= seq!['d', 'o', 'c', 's', 'e', 't', 't', 'i', 'n', 'g', 's', '_', 'p', 'a', 't', 'h']);
    String::from_str("docsettings_path")
}

/// The name under which the value of `hashdocsettings_path` is found.
pub fn id_hashdocsettings_path() -> (r: String)
    ensures
        r@ == arg_hashdocsettings_path_spec().id,
{
    proof {
        reveal_strlit("hashdocsettings_path");
    }
    assert("hashdocsettings_path"@ =~= seq!['h', 'a', 's', 'h', 'd', 'o', 'c', 's', 'e', 't', 't', 'i', 'n', 'g', 's', '_', 'p', 'a', 't', 'h']);
    String::from_str("hashdocsettings_path")
}

/// The name under which the value of `statistics_db` is found.
pub fn id_statistics_db() -> (r: String)
    ensures
        r@ == arg_statistics_db_spec().id,
{
    proof {
        reveal_strlit("statistics_db");
    }
    assert("statistics_db"@ =~= seq!['s', 't', 'a', 't', 'i', 's', 't', 'i', 'c', 's', '_', 'd', 'b']);
    String::from_str("statistics_db")
}

/// The name under which the value of `kobo_db` is found.
pub fn id_kobo_db() -> (r: String)
    ensures
        r@ == arg_kobo_db_spec().id,
{
    proof {
        reveal_strlit("kobo_db");
    }
    assert("kobo_db"@ =~= seq!['k', 'o', 'b', 'o', '_', 'd', 'b']);
    String::from_str("kobo_db")
}

/// The name under which the value of `include_unread` is found.
pub fn id_include_unread() -> (r: String)
    ensures
        r@ == arg_include_unread_spec().id,
{
    proof {
        reveal_strlit("include_unread");
    }
    assert("include_unread"@ =~= seq!['i', 'n', 'c', 'l', 'u', 'd', 'e', '_', 'u', 'n', 'r', 'e', 'a', 'd']);
    String::from_str("include_unread")
}

/// The name under which the value of `retain_missing` is found.
pub fn id_retain_missing() -> (r: String)
    ensures
        r@ == arg_retain_missing_spec().id,
{
    proof {
        reveal_strlit("retain_missing");
    }
    assert("retain_missing"@ =~= seq!['r', 'e', 't', 'a', 'i', 'n', '_', 'm', 'i', 's', 's', 'i', 'n', 'g']);
    String::from_str("retain_missing")
}

/// The name under which the value of `data_path` is found.
pub fn id_data_path() -> (r: String)
    ensures
        r@ == arg_data_path_spec().id,
{
    proof {
        reveal_strlit("data_path");
    }
    assert("data_path"@ =~= seq!['d', 'a', 't', 'a', '_', 'p', 'a', 't', 'h']);
    String::from_str("data_path")
}

/// The name under which the value of `title` is found.
pub fn id_title() -> (r: String)
    ensures
        r@ == arg_title_spec().id,
{
    proof {
        reveal_strlit("title");
    }
    assert("title"@ =~= seq!['t', 'i', 't', 'l', 'e']);
    String::from_str("title")
}

/// The name under which the value of `language` is found.
pub fn id_language() -> (r: String)
    ensures
        r@ == arg_language_spec().id,
{
    proof {
        reveal_strlit("language");
    }
    assert("language"@ =~= seq!['l', 'a', 'n', 'g', 'u', 'a', 'g', 'e']);
    String::from_str("language")
}

/// The name under which the value of `timezone` is found.
pub fn id_timezone() -> (r: String)
    ensures
        r@ == arg_timezone_spec().id,
{
    proof {
        reveal_strlit("timezone");
    }
    assert("timezone"@ =~= seq!['t', 'i', 'm', 'e', 'z', 'o', 'n', 'e']);
    String::from_str("timezone")
}

/// The name under which the value of `heatmap_scale_max` is found.
pub fn id_heatmap_scale_max() -> (r: String)
    ensures
        r@ == arg_heatmap_scale_max_spec().id,
{
    proof {
        reveal_strlit("heatmap_scale_max");
    }
    assert("heatmap_scale_max"@ =~= seq!['h', 'e', 'a', 't', 'm', 'a', 'p', '_', 's', 'c', 'a', 'l', 'e', '_', 'm', 'a', 'x']);
    String::from_str("heatmap_scale_max")
}

/// The name under which the value of `day_start_time` is found.
pub fn id_day_start_time() -> (r: String)
    ensures
        r@ == arg_day_start_time_spec().id,
{
    proof {
        reveal_strlit("day_start_time");
    }
    assert("day_start_time"@ =~= seq!['d', 'a', 'y', '_', 's', 't', 'a', 'r', 't', '_', 't', 'i', 'm', 'e']);
    String::from_str("day_start_time")
}

/// The name under which the value of `min_pages_per_day` is found.
pub fn id_min_pages_per_day() -> (r: String)
    ensures
        r@ == arg_min_pages_per_day_spec().id,
{
    proof {
        reveal_strlit("min_pages_per_day");
    }
    assert("min_pages_per_day"@ =~= seq!['m', 'i', 'n', '_', 'p', 'a', 'g', 'e', 's', '_', 'p', 'e', 'r', '_', 'd', 'a', 'y']);
    String::from_str("min_pages_per_day")
}

/// The name under which the value of `min_time_per_day` is found.
pub fn id_min_time_per_day() -> (r: String)
    ensures
        r@ == arg_min_time_per_day_spec().id,
{
    proof {
        reveal_strlit("min_time_per_day");
    }
    assert("min_time_per_day"@ =~= seq!['m', 'i', 'n', '_', 't', 'i', 'm', 'e', '_', 'p', 'e', 'r', '_', 'd', 'a', 'y']);
    String::from_str("min_time_per_day")
}

/// The name under which the value of `include_all_stats` is found.
pub fn id_include_all_stats() -> (r: String)
    ensures
        r@ == arg_include_all_stats_spec().id,
{
    proof {
        reveal_strlit("include_all_stats");
    }
    assert("include_all_stats"@ =~= seq!['i', 'n', 'c', 'l', 'u', 'd', 'e', '_', 'a', 'l', 'l', '_', 's', 't', 'a', 't', 's']);
    String::from_str("include_all_stats")
}

/// The name under which the value of `ignore_stable_page_metadata` is found.
pub fn id_ignore_stable_page_metadata() -> (r: String)
    ensures
        r@ == arg_ignore_stable_page_metadata_spec().id,
{
    proof {
        reveal_strlit("ignore_stable_page_metadata");
    }
    assert("ignore_stable_page_metadata"@ =~= seq!['i', 'g', 'n', 'o', 'r', 'e', '_', 's', 't', 'a', 'b', 'l', 'e', '_', 'p', 'a', 'g', 'e', '_', 'm', 'e', 't', 'a', 'd', 'a', 't', 'a']);
    String::from_str("ignore_stable_page_metadata")
}

/// The name under which the value of `port` is found.
pub fn id_port() -> (r: String)
    ensures
        r@ == arg_port_spec().id,
{
    proof {
        reveal_strlit("port");
    }
    assert("port"@ =~= seq!['p', 'o', 'r', 't']);
    String::from_str("port")
}

/// The name under which the value of `enable_auth` is found.
pub fn id_enable_auth() -> (r: String)
    ensures
        r@ == arg_enable_auth_spec().id,
{
    proof {
        reveal_strlit("enable_auth");
    }
    assert("enable_auth"@ =~= seq!['e', 'n', 'a', 'b', 'l', 'e', '_', 'a', 'u', 't', 'h']);
    String::from_str("enable_auth")
}

/// The name under which the value of `enable_writeback` is found.
pub fn id_enable_writeback() -> (r: String)
    ensures
        r@ == arg_enable_writeback_spec().id,
{
    proof {
        reveal_strlit("enable_writeback");
    }
    assert("enable_writeback"@ =~= seq!['e', 'n', 'a', 'b', 'l', 'e', '_', 'w', 'r', 'i', 't', 'e', 'b', 'a', 'c', 'k']);
    String::from_str("enable_writeback")
}

/// The name under which the value of `trusted_proxies` is found.
pub fn id_trusted_proxies() -> (r: String)
    ensures
        r@ == arg_trusted_proxies_spec().id,
{
    proof {
        reveal_strlit("trusted_proxies");
    }
    assert("trusted_proxies"@ =~= seq!['t', 'r', 'u', 's', 't', 'e', 'd', '_', 'p', 'r', 'o', 'x', 'i', 'e', 's']);
    String::from_str("trusted_proxies")
}

/// The name under which the value of `output` is found.
pub fn id_output() -> (r: String)
    ensures
        r@ == arg_output_spec().id,
{
    proof {
        reveal_strlit("output");
    }
    assert("output"@ =~= seq!['o', 'u', 't', 'p', 'u', 't']);
    String::from_str("output")
}

/// The name under which the value of `include_files` is found.
pub fn id_include_files() -> (r: String)
    ensures
        r@ == arg_include_files_spec().id,
{
    proof {
        reveal_strlit("include_files");
    }
    assert("include_files"@ =~= seq!['i', 'n', 'c', 'l', 'u', 'd', 'e', '_', 'f', 'i', 'l', 'e', 's']);
    String::from_str("include_files")
}

/// The name under which the value of `watch` is found.
pub fn id_watch() -> (r: String)
    ensures
        r@ == arg_watch_spec().id,
{
    proof {
        reveal_strlit("watch");
    }
    assert("watch"@ =~= seq!['w', 'a', 't', 'c', 'h']);
    String::from_str("watch")
}

/// The name under which the value of `password` is found.
pub fn id_password() -> (r: String)
    ensures
        r@ == arg_password_spec().id,
{
    proof {
        reveal_strlit("password");
    }
    assert("password"@ =~= seq!['p', 'a', 's', 's', 'w', 'o', 'r', 'd']);
    String::from_str("password")
}

/// The name under which the value of `random` is found.
pub fn id_random() -> (r: String)
    ensures
        r@ == arg_random_spec().id,
{
    proof {
        reveal_strlit("random");
    }
    assert("random"@ =~= seq!['r', 'a', 'n', 'd', 'o', 'm']);
    String::from_str("random")
}

/// The name under which the value of `overwrite` is found.
pub fn id_overwrite() -> (r: String)
    ensures
        r@ == arg_overwrite_spec().id,
{
    proof {
        reveal_strlit("overwrite");
    }
    assert("overwrite"@ =~= seq!['o', 'v', 'e', 'r', 'w', 'r', 'i', 't', 'e']);
    String::from_str("overwrite")
}

/// The name under which the value of `dependency` is found.
pub fn id_dependency() -> (r: String)
    ensures
        r@ == arg_dependency_spec().id,
{
    proof {
        reveal_strlit("dependency");
    }
    assert("dependency"@ =~= seq!['d', 'e', 'p', 'e', 'n', 'd', 'e', 'n', 'c', 'y']);
    String::from_str("dependency")
}

/// The grammar of the `top` command.
pub open spec fn top_command_spec() -> CmdSpec {
    CmdSpec {
        args: seq![arg_config_spec(), arg_help_spec(), arg_version_spec()],
        positionals: seq![],
        subcommands: seq![seq!['s', 'e', 'r', 'v', 'e'], seq!['e', 'x', 'p', 'o', 'r', 't'], seq!['s', 'e', 't', '-', 'p', 'a', 's', 's', 'w', 'o', 'r', 'd'], seq!['l', 'i', 's', 't', '-', 'l', 'a', 'n', 'g', 'u', 'a', 'g', 'e', 's'], seq!['l', 'i', 'c', 'e', 'n', 's', 'e', 's'], seq!['g', 'i', 't', 'h', 'u', 'b'], seq!['h', 'e', 'l', 'p']],
        conflicts: seq![],
    }
}

/// Builds the grammar of the `top` command.
pub fn top_command() -> (r: CommandDef)
    ensures
        r@ == top_command_spec(),
        cmd_wf(r@),
        r@.args.len() > 0,
{
    proof {
        reveal_strlit("serve");
        reveal_strlit("export");
        reveal_strlit("set-password");
        reveal_strlit("list-languages");
        reveal_strlit("licenses");
        reveal_strlit("github");
        reveal_strlit("help");
    }
    assert("serve"@ =~= seq!['s', 'e', 'r', 'v', 'e']);
    assert("export"@ =~= seq!['e', 'x', 'p', 'o', 'r', 't']);
    assert("set-password"@ =~= seq!['s', 'e', 't', '-', 'p', 'a', 's', 's', 'w', 'o', 'r', 'd']);
    assert("list-languages"@ =~= seq!['l', 'i', 's', 't', '-', 'l', 'a', 'n', 'g', 'u', 'a', 'g', 'e', 's']);
    assert("licenses"@ =~= seq!['l', 'i', 'c', 'e', 'n', 's', 'e', 's']);
    assert("github"@ =~= seq!['g', 'i', 't', 'h', 'u', 'b']);
    assert("help"@ =~= seq!['h', 'e', 'l', 'p']);
    let args = vec![arg_config(), arg_help(), arg_version()];
    let r = CommandDef {
        args,
        positionals: Vec::new(),
        subcommands: vec![String::from_str("serve"), String::from_str("export"), String::from_str("set-password"), String::from_str("list-languages"), String::from_str("licenses"), String::from_str("github"), String::from_str("help")],
        conflicts: Vec::new(),
    };
    assert(args_view(r.args@) =~= top_command_spec().args);
    assert(r.positionals@ =~= top_command_spec().positionals);
    assert(strs(r.subcommands@) =~= top_command_spec().subcommands);
    assert(r.conflicts@ =~= top_command_spec().conflicts);
    r
}

/// The grammar of the `serve` command.
#[verifier::opaque]
pub open spec fn serve_command_spec() -> CmdSpec {
    CmdSpec {
        args: seq![arg_config_spec(), arg_library_path_spec(), arg_docsettings_path_spec(), arg_hashdocsettings_path_spec(), arg_statistics_db_spec(), arg_kobo_db_spec(), arg_include_unread_spec(), arg_retain_missing_spec(), arg_data_path_spec(), arg_title_spec(), arg_language_spec(), arg_timezone_spec(), arg_heatmap_scale_max_spec(), arg_day_start_time_spec(), arg_min_pages_per_day_spec(), arg_min_time_per_day_spec(), arg_include_all_stats_spec(), arg_ignore_stable_page_metadata_spec(), arg_port_spec(), arg_enable_auth_spec(), arg_enable_writeback_spec(), arg_trusted_proxies_spec(), arg_help_spec()],
        positionals: seq![],
        subcommands: seq![],
        conflicts: seq![],
    }
}

/// Builds the grammar of the `serve` command.
pub fn serve_command() -> (r: CommandDef)
    ensures
        r@ == serve_command_spec(),
        cmd_wf(r@),
        r@.args.len() > 0,
{
    proof {
        reveal(serve_command_spec);
    }

    let args = vec![arg_config(), arg_library_path(), arg_docsettings_path(), arg_hashdocsettings_path(), arg_statistics_db(), arg_kobo_db(), arg_include_unread(), arg_retain_missing(), arg_data_path(), arg_title(), arg_language(), arg_timezone(), arg_heatmap_scale_max(), arg_day_start_time(), arg_min_pages_per_day(), arg_min_time_per_day(), arg_include_all_stats(), arg_ignore_stable_page_metadata(), arg_port(), arg_enable_auth(), arg_enable_writeback(), arg_trusted_proxies(), arg_help()];
    let r = CommandDef {
        args,
        positionals: Vec::new(),
        subcommands: Vec::new(),
        conflicts: Vec::new(),
    };
    assert(args_view(r.args@) =~= serve_command_spec().args);
    assert(r.positionals@ =~= serve_command_spec().positionals);
    assert(strs(r.subcommands@) =~= serve_command_spec().subcommands);
    assert(r.conflicts@ =~= serve_command_spec().conflicts);
    r
}

/// The grammar of the `export` command.
#[verifier::opaque]
pub open spec fn export_command_spec() -> CmdSpec {
    CmdSpec {
        args: seq![arg_config_spec(), arg_library_path_spec(), arg_docsettings_path_spec(), arg_hashdocsettings_path_spec(), arg_statistics_db_spec(), arg_kobo_db_spec(), arg_include_unread_spec(), arg_retain_missing_spec(), arg_data_path_spec(), arg_title_spec(), arg_language_spec(), arg_timezone_spec(), arg_heatmap_scale_max_spec(), arg_day_start_time_spec(), arg_min_pages_per_day_spec(), arg_min_time_per_day_spec(), arg_include_all_stats_spec(), arg_ignore_stable_page_metadata_spec(), arg_output_spec(), arg_include_files_spec(), arg_watch_spec(), arg_help_spec()],
        positionals: seq![18usize],
        subcommands: seq![],
        conflicts: seq![],
    }
}

/// Builds the grammar of the `export` command.
pub fn export_command() -> (r: CommandDef)
    ensures
        r@ == export_command_spec(),
        cmd_wf(r@),
        r@.args.len() > 0,
{
    proof {
        reveal(export_command_spec);
    }

    let args = vec![arg_config(), arg_library_path(), arg_docsettings_path(), arg_hashdocsettings_path(), arg_statistics_db(), arg_kobo_db(), arg_include_unread(), arg_retain_missing(), arg_data_path(), arg_title(), arg_language(), arg_timezone(), arg_heatmap_scale_max(), arg_day_start_time(), arg_min_pages_per_day(), arg_min_time_per_day(), arg_include_all_stats(), arg_ignore_stable_page_metadata(), arg_output(), arg_include_files(), arg_watch(), arg_help()];
    let r = CommandDef {
        args,
        positionals: vec![18],
        subcommands: Vec::new(),
        conflicts: Vec::new(),
    };
    assert(args_view(r.args@) =~= export_command_spec().args);
    assert(r.positionals@ =~= export_command_spec().positionals);
    assert(strs(r.subcommands@) =~= export_command_spec().subcommands);
    assert(r.conflicts@ =~= export_command_spec().conflicts);
    r
}

/// The grammar of the `set_password` command.
#[verifier::opaque]
pub open spec fn set_password_command_spec() -> CmdSpec {
    CmdSpec {
        args: seq![arg_config_spec(), arg_sp_data_path_spec(), arg_password_spec(), arg_random_spec(), arg_overwrite_spec(), arg_help_spec()],
        positionals: seq![],
        subcommands: seq![],
        conflicts: seq![(3usize, 2usize)],
    }
}

/// Builds the grammar of the `set_password` command.
pub fn set_password_command() -> (r: CommandDef)
    ensures
        r@ == set_password_command_spec(),
        cmd_wf(r@),
        r@.args.len() > 0,
{
    proof {
        reveal(set_password_command_spec);
    }

    let args = vec![arg_config(), arg_sp_data_path(), arg_password(), arg_random(), arg_overwrite(), arg_help()];
    let r = CommandDef {
        args,
        positionals: Vec::new(),
        subcommands: Vec::new(),
        conflicts: vec![(3, 2)],
    };
    assert(args_view(r.args@) =~= set_password_command_spec().args);
    assert(r.positionals@ =~= set_password_command_spec().positionals);
    assert(strs(r.subcommands@) =~= set_password_command_spec().subcommands);
    assert(r.conflicts@ =~= set_password_command_spec().conflicts);
    r
}

/// The grammar of the `list_languages` command.
#[verifier::opaque]
pub open spec fn list_languages_command_spec() -> CmdSpec {
    CmdSpec {
        args: seq![arg_config_spec(), arg_help_spec()],
        positionals: seq![],
        subcommands: seq![],
        conflicts: seq![],
    }
}

/// Builds the grammar of the `list_languages` command.
pub fn list_languages_command() -> (r: CommandDef)
    ensures
        r@ == list_languages_command_spec(),
        cmd_wf(r@),
        r@.args.len() > 0,
{
    proof {
        reveal(list_languages_command_spec);
    }

    let args = vec![arg_config(), arg_help()];
    let r = CommandDef {
        args,
        positionals: Vec::new(),
        subcommands: Vec::new(),
        conflicts: Vec::new(),
    };
    assert(args_view(r.args@) =~= list_languages_command_spec().args);
    assert(r.positionals@ =~= list_languages_command_spec().positionals);
    assert(strs(r.subcommands@) =~= list_languages_command_spec().subcommands);
    assert(r.conflicts@ =~= list_languages_command_spec().conflicts);
    r
}

/// The grammar of the `licenses` command.
#[verifier::opaque]
pub open spec fn licenses_command_spec() -> CmdSpec {
    CmdSpec {
        args: seq![arg_config_spec(), arg_dependency_spec(), arg_help_spec()],
        positionals: seq![1usize],
        subcommands: seq![],
        conflicts: seq![],
    }
}

/// Builds the grammar of the `licenses` command.
pub fn licenses_command() -> (r: CommandDef)
    ensures
        r@ == licenses_command_spec(),
        cmd_wf(r@),
        r@.args.len() > 0,
{
    proof {
        reveal(licenses_command_spec);
    }

    let args = vec![arg_config(), arg_dependency(), arg_help()];
    let r = CommandDef {
        args,
        positionals: vec![1],
        subcommands: Vec::new(),
        conflicts: Vec::new(),
    };
    assert(args_view(r.args@) =~= licenses_command_spec().args);
    assert(r.positionals@ =~= licenses_command_spec().positionals);
    assert(strs(r.subcommands@) =~= licenses_command_spec().subcommands);
    assert(r.conflicts@ =~= licenses_command_spec().conflicts);
    r
}

/// The grammar of the `github` command.
#[verifier::opaque]
pub open spec fn github_command_spec() -> CmdSpec {
    CmdSpec {
        args: seq![arg_config_spec(), arg_help_spec()],
        positionals: seq![],
        subcommands: seq![],
        conflicts: seq![],
    }
}

/// Builds the grammar of the `github` command.
pub fn github_command() -> (r: CommandDef)
    ensures
        r@ == github_command_spec(),
        cmd_wf(r@),
        r@.args.len() > 0,
{
    proof {
        reveal(github_command_spec);
    }

    let args = vec![arg_config(), arg_help()];
    let r = CommandDef {
        args,
        positionals: Vec::new(),
        subcommands: Vec::new(),
        conflicts: Vec::new(),
    };
    assert(args_view(r.args@) =~= github_command_spec().args);
    assert(r.positionals@ =~= github_command_spec().positionals);
    assert(strs(r.subcommands@) =~= github_command_spec().subcommands);
    assert(r.conflicts@ =~= github_command_spec().conflicts);
    r
}

/// The grammar of the subcommand with index `k` among those of the top command.
pub open spec fn subcommand_spec(k: int) -> CmdSpec {
    if k == 0 {
        serve_command_spec()
    } else if k == 1 {
        export_command_spec()
    } else if k == 2 {
        set_password_command_spec()
    } else if k == 3 {
        list_languages_command_spec()
    } else if k == 4 {
        licenses_command_spec()
    } else {
        github_command_spec()
    }
}

/// Builds the grammar of the subcommand with index `k`.
pub fn subcommand_def(k: usize) -> (r: CommandDef)
    ensures
        r@ == subcommand_spec(k as int),
        cmd_wf(r@),
        r@.args.len() > 0,
{
    if k == 0 {
        serve_command()
    } else if k == 1 {
        export_command()
    } else if k == 2 {
        set_password_command()
    } else if k == 3 {
        list_languages_command()
    } else if k == 4 {
        licenses_command()
    } else {
        github_command()
    }
}

} // verus!
