//! The book formats of the library, and how KOReader names its metadata
//! file after the book it belongs to.

use vstd::prelude::*;
use crate::args::{copy_range, opt_str, substring};
use crate::paths::{concat, extension, file_name, path_extension, path_file_name};
use crate::text::{chars_eq, chars_eq_ignore_ascii_case, chars_of, ends_with_ignore_ascii_case, eq_ignore_ascii_case_spec, ends_with_ignore_ascii_case_spec};

verus! {

/// A format the library reads.
#[derive(Debug, Clone, Copy, PartialEq, Eq, Structural)]
pub enum LibraryItemFormat {
    Epub,
    Fb2,
    Mobi,
    Cbz,
    Cbr,
}

/// The extension of each format.
pub open spec fn format_extension(f: LibraryItemFormat) -> Seq<char> {
    match f {
        LibraryItemFormat::Epub => seq!['e', 'p', 'u', 'b'],
        LibraryItemFormat::Fb2 => seq!['f', 'b', '2'],
        LibraryItemFormat::Mobi => seq!['m', 'o', 'b', 'i'],
        LibraryItemFormat::Cbz => seq!['c', 'b', 'z'],
        LibraryItemFormat::Cbr => seq!['c', 'b', 'r'],
    }
}

/// The formats in the order in which a book is looked for.
pub open spec fn all_formats() -> Seq<LibraryItemFormat> {
    seq![
        LibraryItemFormat::Epub,
        LibraryItemFormat::Fb2,
        LibraryItemFormat::Mobi,
        LibraryItemFormat::Cbz,
        LibraryItemFormat::Cbr,
    ]
}

impl LibraryItemFormat {
    /// The file extension of the format, without its dot.
    pub fn extension(&self) -> (r: &'static str)
        ensures
            r@ == format_extension(*self),
    {
        proof {
            reveal_strlit("epub");
            reveal_strlit("fb2");
            reveal_strlit("mobi");
            reveal_strlit("cbz");
            reveal_strlit("cbr");
        }
        match self {
            LibraryItemFormat::Epub => "epub",
            LibraryItemFormat::Fb2 => "fb2",
            LibraryItemFormat::Mobi => "mobi",
            LibraryItemFormat::Cbz => "cbz",
            LibraryItemFormat::Cbr => "cbr",
        }
    }
}

pub open spec fn metadata_prefix() -> Seq<char> {
    seq!['m', 'e', 't', 'a', 'd', 'a', 't', 'a', '.']
}

pub open spec fn lua_suffix() -> Seq<char> {
    seq!['.', 'l', 'u', 'a']
}

pub open spec fn zip_extension() -> Seq<char> {
    seq!['z', 'i', 'p']
}

pub open spec fn fb2_suffix() -> Seq<char> {
    seq!['.', 'f', 'b', '2']
}

/// The extension named by a metadata file `metadata.<extension>.lua`.
pub open spec fn sidecar_extension(name: Seq<char>) -> Option<Seq<char>> {
    let n = name.len();
    if n > metadata_prefix().len() + lua_suffix().len() && name.subrange(0, 9) == metadata_prefix()
        && name.subrange(n - 4, n as int) == lua_suffix() {
        Some(name.subrange(9, n - 4))
    } else {
        None
    }
}

/// Whether `ext` is the extension of one of the formats, whatever the case of its letters.
pub open spec fn is_format_extension(ext: Seq<char>) -> bool {
    exists|i: int| 0 <= i < all_formats().len() && eq_ignore_ascii_case_spec(ext, #[trigger] format_extension(all_formats()[i]))
}

/// The file name of the book that a metadata file named `name` belongs to,
/// in a sidecar folder named after `stem`: the stem, a dot and the extension
/// that the metadata file names. That extension must be one of a format, or
/// `zip` for a stem that ends in `.fb2` (a compressed FB2 book).
pub open spec fn sidecar_book_filename(stem: Seq<char>, name: Seq<char>) -> Option<Seq<char>> {
    match sidecar_extension(name) {
        Some(ext) => if eq_ignore_ascii_case_spec(ext, zip_extension()) {
            if ends_with_ignore_ascii_case_spec(stem, fb2_suffix()) {
                Some(stem + seq!['.'] + ext)
            } else {
                None
            }
        } else if is_format_extension(ext) {
            Some(stem + seq!['.'] + ext)
        } else {
            None
        },
        None => None,
    }
}

fn is_format_extension_of(ext: &[char]) -> (r: bool)
    ensures
        r == is_format_extension(ext@),
{
    let formats = [
        LibraryItemFormat::Epub,
        LibraryItemFormat::Fb2,
        LibraryItemFormat::Mobi,
        LibraryItemFormat::Cbz,
        LibraryItemFormat::Cbr,
    ];
    assert(formats@ =~= all_formats());
    let mut i: usize = 0;
    while i < 5
        invariant
            formats@ == all_formats(),
            i <= 5,
            forall|j: int| 0 <= j < i ==> !eq_ignore_ascii_case_spec(ext@, #[trigger] format_extension(all_formats()[j])),
        decreases 5 - i,
    {
        let e = chars_of(formats[i].extension());
        if chars_eq_ignore_ascii_case(ext, e.as_slice()) {
            return true;
        }
        i = i + 1;
    }
    false
}

impl LibraryItemFormat {
    /// The file name of the book that the metadata file `metadata_filename`
    /// belongs to, in the sidecar folder of `book_stem`; `None` where the
    /// metadata file names no extension of the library.
    pub fn book_filename_from_sidecar(book_stem: &str, metadata_filename: &str) -> (r: Option<String>)
        ensures
            opt_str(r) == sidecar_book_filename(book_stem@, metadata_filename@),
    {
        proof {
            reveal_strlit("metadata.");
            reveal_strlit(".lua");
            reveal_strlit("zip");
            reveal_strlit(".fb2");
            reveal_strlit(".");
        }
        let name = chars_of(metadata_filename);
        let n = name.len();
        if n <= 13 {
            return None;
        }
        let prefix = chars_of("metadata.");
        let suffix = chars_of(".lua");
        assert(prefix@ =~= metadata_prefix());
        assert(suffix@ =~= lua_suffix());
        let head = copy_range(name.as_slice(), 0, 9);
        let tail = copy_range(name.as_slice(), n - 4, n);
        if !chars_eq(head.as_slice(), prefix.as_slice()) || !chars_eq(tail.as_slice(), suffix.as_slice()) {
            return None;
        }
        let ext = copy_range(name.as_slice(), 9, n - 4);
        let ext_text = substring(metadata_filename, 9, n - 4);
        let zip = chars_of("zip");
        assert(zip@ =~= zip_extension());
        let with_dot = concat(book_stem, ".");
        if chars_eq_ignore_ascii_case(ext.as_slice(), zip.as_slice()) {
            let stem = chars_of(book_stem);
            let fb2 = chars_of(".fb2");
            assert(fb2@ =~= fb2_suffix());
            if ends_with_ignore_ascii_case(stem.as_slice(), fb2.as_slice()) {
                Some(concat(with_dot.as_str(), ext_text.as_str()))
            } else {
                None
            }
        } else if is_format_extension_of(ext.as_slice()) {
            Some(concat(with_dot.as_str(), ext_text.as_str()))
        } else {
            None
        }
    }
}


// ── Which files are books and which are metadata ─────────────────────

/// The format whose extension is `ext`, whatever the case of its letters.
pub open spec fn format_for_extension(ext: Seq<char>) -> Option<LibraryItemFormat> {
    if eq_ignore_ascii_case_spec(ext, format_extension(LibraryItemFormat::Epub)) {
        Some(LibraryItemFormat::Epub)
    } else if eq_ignore_ascii_case_spec(ext, format_extension(LibraryItemFormat::Fb2)) {
        Some(LibraryItemFormat::Fb2)
    } else if eq_ignore_ascii_case_spec(ext, format_extension(LibraryItemFormat::Mobi)) {
        Some(LibraryItemFormat::Mobi)
    } else if eq_ignore_ascii_case_spec(ext, format_extension(LibraryItemFormat::Cbz)) {
        Some(LibraryItemFormat::Cbz)
    } else if eq_ignore_ascii_case_spec(ext, format_extension(LibraryItemFormat::Cbr)) {
        Some(LibraryItemFormat::Cbr)
    } else {
        None
    }
}

pub open spec fn fb2_zip_suffix() -> Seq<char> {
    seq!['.', 'f', 'b', '2', '.', 'z', 'i', 'p']
}

/// The format of the book at `p`, by its extension; a `.fb2.zip` file is a
/// compressed FB2 book.
pub open spec fn path_format(p: Seq<char>) -> Option<LibraryItemFormat> {
    match path_extension(p) {
        None => None,
        Some(e) => match format_for_extension(e) {
            Some(f) => Some(f),
            None => if eq_ignore_ascii_case_spec(e, zip_extension()) && (path_file_name(p) matches Some(n)
                && ends_with_ignore_ascii_case_spec(n, fb2_zip_suffix())) {
                Some(LibraryItemFormat::Fb2)
            } else {
                None
            },
        },
    }
}

/// The file at `p` is a KOReader metadata file, `metadata.<ext>.lua`.
pub open spec fn is_metadata_file(p: Seq<char>) -> bool {
    path_file_name(p) matches Some(n) && sidecar_extension(n) is Some
}

fn format_of_extension(ext: &[char]) -> (r: Option<LibraryItemFormat>)
    ensures
        r == format_for_extension(ext@),
{
    let formats = [
        LibraryItemFormat::Epub,
        LibraryItemFormat::Fb2,
        LibraryItemFormat::Mobi,
        LibraryItemFormat::Cbz,
        LibraryItemFormat::Cbr,
    ];
    let mut i: usize = 0;
    while i < 5
        invariant
            formats@ == all_formats(),
            i <= 5,
            forall|j: int| 0 <= j < i ==> !eq_ignore_ascii_case_spec(ext@, #[trigger] format_extension(all_formats()[j])),
        decreases 5 - i,
    {
        let e = chars_of(formats[i].extension());
        if chars_eq_ignore_ascii_case(ext, e.as_slice()) {
            proof {
                assert(forall|j: int| 0 <= j < i ==> !eq_ignore_ascii_case_spec(ext@, #[trigger] format_extension(all_formats()[j])));
            }
            return Some(formats[i]);
        }
        i = i + 1;
    }
    proof {
        assert(!eq_ignore_ascii_case_spec(ext@, format_extension(all_formats()[0])));
        assert(!eq_ignore_ascii_case_spec(ext@, format_extension(all_formats()[1])));
        assert(!eq_ignore_ascii_case_spec(ext@, format_extension(all_formats()[2])));
        assert(!eq_ignore_ascii_case_spec(ext@, format_extension(all_formats()[3])));
        assert(!eq_ignore_ascii_case_spec(ext@, format_extension(all_formats()[4])));
    }
    None
}

/// Whether `name` has the form `metadata.<ext>.lua`.
fn is_sidecar_name(name: &str) -> (r: bool)
    ensures
        r == sidecar_extension(name@) is Some,
{
    proof {
        reveal_strlit("metadata.");
        reveal_strlit(".lua");
    }
    let c = chars_of(name);
    let n = c.len();
    if n <= 13 {
        return false;
    }
    let prefix = chars_of("metadata.");
    let suffix = chars_of(".lua");
    assert(prefix@ =~= metadata_prefix());
    assert(suffix@ =~= lua_suffix());
    let head = copy_range(c.as_slice(), 0, 9);
    let tail = copy_range(c.as_slice(), n - 4, n);
    chars_eq(head.as_slice(), prefix.as_slice()) && chars_eq(tail.as_slice(), suffix.as_slice())
}

impl LibraryItemFormat {
    /// The format of the book at `path`, by its extension (`.fb2.zip` is a
    /// compressed FB2 book); `None` for any other file.
    pub fn from_path(path: &str) -> (r: Option<LibraryItemFormat>)
        ensures
            r == path_format(path@),
    {
        proof {
            reveal_strlit("zip");
            reveal_strlit(".fb2.zip");
        }
        let e = match extension(path) {
            Some(e) => e,
            None => return None,
        };
        let ec = chars_of(e.as_str());
        if let Some(f) = format_of_extension(ec.as_slice()) {
            return Some(f);
        }
        let zip = chars_of("zip");
        assert(zip@ =~= zip_extension());
        if !chars_eq_ignore_ascii_case(ec.as_slice(), zip.as_slice()) {
            return None;
        }
        match file_name(path) {
            Some(n) => {
                let nc = chars_of(n.as_str());
                let suffix = chars_of(".fb2.zip");
                assert(suffix@ =~= fb2_zip_suffix());
                if ends_with_ignore_ascii_case(nc.as_slice(), suffix.as_slice()) {
                    Some(LibraryItemFormat::Fb2)
                } else {
                    None
                }
            },
            None => None,
        }
    }

    /// Whether the file at `path` is a KOReader metadata file, `metadata.<ext>.lua`.
    pub fn is_metadata_path(path: &str) -> (r: bool)
        ensures
            r == is_metadata_file(path@),
    {
        match file_name(path) {
            Some(n) => is_sidecar_name(n.as_str()),
            None => false,
        }
    }
}


// ── Laws ──────────────────────────────────────────────────────────────

/// Each format is found again from its own extension, in any case of its
/// letters.
pub proof fn each_format_is_read_from_its_extension(f: LibraryItemFormat)
    ensures
        format_for_extension(format_extension(f)) == Some(f),
{
    let e = format_extension(f);
    crate::text::lemma_agree(e, e);
    let epub = format_extension(LibraryItemFormat::Epub);
    let fb2 = format_extension(LibraryItemFormat::Fb2);
    let mobi = format_extension(LibraryItemFormat::Mobi);
    let cbz = format_extension(LibraryItemFormat::Cbz);
    match f {
        LibraryItemFormat::Mobi => {
            crate::text::lemma_differ_at(e, epub, 0);
        },
        LibraryItemFormat::Cbz => {
            crate::text::lemma_differ_at(e, fb2, 0);
        },
        LibraryItemFormat::Cbr => {
            crate::text::lemma_differ_at(e, fb2, 0);
            crate::text::lemma_differ_at(e, cbz, 2);
        },
        _ => {},
    }
}

/// The metadata file `metadata.<ext>.lua` of a book in any format names the
/// book `<stem>.<ext>`, and `metadata.zip.lua` names a compressed FB2 book
/// `<stem>.zip` only for a stem ending in `.fb2`.
pub proof fn sidecar_names_its_book(stem: Seq<char>, f: LibraryItemFormat)
    ensures
        sidecar_book_filename(stem, metadata_prefix() + format_extension(f) + lua_suffix()) == Some(
            stem + seq!['.'] + format_extension(f),
        ),
        sidecar_book_filename(stem, metadata_prefix() + zip_extension() + lua_suffix()) == if ends_with_ignore_ascii_case_spec(
            stem,
            fb2_suffix(),
        ) {
            Some(stem + seq!['.'] + zip_extension())
        } else {
            None
        },
{
    let name = metadata_prefix() + format_extension(f) + lua_suffix();
    let n = name.len();
    assert(name.subrange(0, 9) =~= metadata_prefix());
    assert(name.subrange(n - 4, n as int) =~= lua_suffix());
    assert(name.subrange(9, n - 4) =~= format_extension(f));
    let e = format_extension(f);
    assert(!eq_ignore_ascii_case_spec(e, zip_extension())) by {
        if e.len() == 3 {
            assert(crate::text::lower_code(e[0]) != crate::text::lower_code(zip_extension()[0]));
        }
    }
    let i: int = match f {
        LibraryItemFormat::Epub => 0,
        LibraryItemFormat::Fb2 => 1,
        LibraryItemFormat::Mobi => 2,
        LibraryItemFormat::Cbz => 3,
        LibraryItemFormat::Cbr => 4,
    };
    assert(all_formats()[i] == f);
    assert(eq_ignore_ascii_case_spec(e, format_extension(all_formats()[i])));
    let zname = metadata_prefix() + zip_extension() + lua_suffix();
    let zn = zname.len();
    assert(zname.subrange(0, 9) =~= metadata_prefix());
    assert(zname.subrange(zn - 4, zn as int) =~= lua_suffix());
    assert(zname.subrange(9, zn - 4) =~= zip_extension());
}

} // verus!
