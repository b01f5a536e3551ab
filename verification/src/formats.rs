//! Choosing the file to deliver for a requested format.
//!
//! The requested format is tried first, then a fixed fallback order:
//! epub, pdf, mobi, cbz. Extensions are compared ignoring ASCII case.

use vstd::prelude::*;
use crate::text::{eq_ignore_ascii_case, lower_seq, spec_extension};

verus! {

/// The file formats the server knows a media type for; anything else is
/// delivered as opaque bytes.
#[derive(Clone, Copy, Debug, PartialEq, Eq, Structural)]
pub enum FileKind {
    Epub,
    Pdf,
    Mobi,
    Cbz,
    Other,
}

/// The kind a format string names, compared ignoring ASCII case.
pub open spec fn spec_kind_of(s: Seq<char>) -> FileKind {
    if lower_seq(s) == "epub"@ {
        FileKind::Epub
    } else if lower_seq(s) == "pdf"@ {
        FileKind::Pdf
    } else if lower_seq(s) == "mobi"@ {
        FileKind::Mobi
    } else if lower_seq(s) == "cbz"@ {
        FileKind::Cbz
    } else {
        FileKind::Other
    }
}

/// Lowercase literals are fixed by `lower_seq`.
proof fn lemma_format_literals_lower()
    ensures
        lower_seq("epub"@) == "epub"@,
        lower_seq("pdf"@) == "pdf"@,
        lower_seq("mobi"@) == "mobi"@,
        lower_seq("cbz"@) == "cbz"@,
{
    reveal_strlit("epub");
    reveal_strlit("pdf");
    reveal_strlit("mobi");
    reveal_strlit("cbz");
    assert(lower_seq("epub"@) =~= "epub"@);
    assert(lower_seq("pdf"@) =~= "pdf"@);
    assert(lower_seq("mobi"@) =~= "mobi"@);
    assert(lower_seq("cbz"@) =~= "cbz"@);
}

/// The kind a format string names.
pub fn kind_of(s: &str) -> (k: FileKind)
    ensures
        k == spec_kind_of(s@),
{
    proof {
        lemma_format_literals_lower();
    }
    if eq_ignore_ascii_case(s, "epub") {
        FileKind::Epub
    } else if eq_ignore_ascii_case(s, "pdf") {
        FileKind::Pdf
    } else if eq_ignore_ascii_case(s, "mobi") {
        FileKind::Mobi
    } else if eq_ignore_ascii_case(s, "cbz") {
        FileKind::Cbz
    } else {
        FileKind::Other
    }
}

/// True when the file name's extension names the format, ignoring ASCII
/// case.
pub open spec fn matches_format(name: Seq<char>, fmt: Seq<char>) -> bool {
    match spec_extension(name) {
        Some(e) => lower_seq(e) == lower_seq(fmt),
        None => false,
    }
}

/// True when some entry matches the format.
pub open spec fn has_format_match(entries: Seq<Seq<char>>, fmt: Seq<char>) -> bool {
    exists|i: int| 0 <= i < entries.len() && matches_format(entries[i], fmt)
}

/// True when entry `i` is the first one matching the format.
pub open spec fn first_format_match(entries: Seq<Seq<char>>, fmt: Seq<char>, i: int) -> bool {
    &&& 0 <= i < entries.len()
    &&& matches_format(entries[i], fmt)
    &&& forall|j: int| 0 <= j < i ==> !matches_format(entries[j], fmt)
}

/// Index of the first entry whose extension matches `fmt`, ignoring
/// ASCII case.
pub fn find_matching(entries: &Vec<String>, fmt: &str) -> (r: Option<usize>)
    ensures
        match r {
            Some(i) => first_format_match(entries.deep_view(), fmt@, i as int),
            None => !has_format_match(entries.deep_view(), fmt@),
        },
{
    let n = entries.len();
    let mut i: usize = 0;
    while i < n
        invariant
            n == entries@.len(),
            i <= n,
            forall|j: int| 0 <= j < i ==> !matches_format(entries.deep_view()[j], fmt@),
        decreases n - i,
    {
        let matched = match crate::text::extension_of(entries[i].as_str()) {
            Some(e) => eq_ignore_ascii_case(e.as_str(), fmt),
            None => false,
        };
        proof {
            assert(entries.deep_view()[i as int] == entries@[i as int]@);
        }
        if matched {
            return Some(i);
        }
        i += 1;
    }
    None
}

/// The chosen entry and its format kind, when any candidate format has
/// a matching file: the requested format wins; failing that, the first
/// file of the fixed fallback order epub, pdf, mobi, cbz.
pub fn resolve_file(entries: &Vec<String>, requested: &str) -> (r: Option<(usize, FileKind)>)
    ensures
        ({
            let e = entries.deep_view();
            match r {
                Some(p) => {
                    if has_format_match(e, requested@) {
                        first_format_match(e, requested@, p.0 as int) && p.1 == spec_kind_of(
                            requested@,
                        )
                    } else if has_format_match(e, "epub"@) {
                        first_format_match(e, "epub"@, p.0 as int) && p.1 == FileKind::Epub
                    } else if has_format_match(e, "pdf"@) {
                        first_format_match(e, "pdf"@, p.0 as int) && p.1 == FileKind::Pdf
                    } else if has_format_match(e, "mobi"@) {
                        first_format_match(e, "mobi"@, p.0 as int) && p.1 == FileKind::Mobi
                    } else {
                        first_format_match(e, "cbz"@, p.0 as int) && p.1 == FileKind::Cbz
                    }
                },
                None => {
                    &&& !has_format_match(e, requested@)
                    &&& !has_format_match(e, "epub"@)
                    &&& !has_format_match(e, "pdf"@)
                    &&& !has_format_match(e, "mobi"@)
                    &&& !has_format_match(e, "cbz"@)
                },
            }
        }),
{
    if let Some(i) = find_matching(entries, requested) {
        return Some((i, kind_of(requested)));
    }
    if let Some(i) = find_matching(entries, "epub") {
        return Some((i, FileKind::Epub));
    }
    if let Some(i) = find_matching(entries, "pdf") {
        return Some((i, FileKind::Pdf));
    }
    if let Some(i) = find_matching(entries, "mobi") {
        return Some((i, FileKind::Mobi));
    }
    if let Some(i) = find_matching(entries, "cbz") {
        return Some((i, FileKind::Cbz));
    }
    None
}

/// The media type delivered for each file kind.
pub fn content_type_for(k: FileKind) -> (r: &'static str)
    ensures
        k == FileKind::Epub ==> r@ == "application/epub+zip"@,
        k == FileKind::Pdf ==> r@ == "application/pdf"@,
        k == FileKind::Mobi ==> r@ == "application/x-mobipocket-ebook"@,
        k == FileKind::Cbz ==> r@ == "application/vnd.comicbook+zip"@,
        k == FileKind::Other ==> r@ == "application/octet-stream"@,
{
    match k {
        FileKind::Epub => "application/epub+zip",
        FileKind::Pdf => "application/pdf",
        FileKind::Mobi => "application/x-mobipocket-ebook",
        FileKind::Cbz => "application/vnd.comicbook+zip",
        FileKind::Other => "application/octet-stream",
    }
}

} // verus!
