//! Format fallback, media types and file-name handling.

use shelfsync::formats::{content_type_for, find_matching, FileKind, resolve_file};
use shelfsync::server::attachment_disposition;
use shelfsync::text::{eq_ignore_ascii_case, extension_of, i64_string, u64_string};

fn entries(names: Vec<&str>) -> Vec<String> {
    names.into_iter().map(|n| n.to_string()).collect()
}

#[test]
fn test_fallback_round_trip() {
    // An item holding epub and pdf, asked for as mobi, resolves to the
    // epub file — the first fallback — never to the pdf.
    let files = entries(vec!["book.epub", "book.pdf"]);
    let (idx, kind) = resolve_file(&files, "mobi").expect("a fallback must match");
    assert_eq!(idx, 0);
    assert_eq!(files[idx], "book.epub");
    assert_eq!(kind, FileKind::Epub);
}

#[test]
fn test_requested_format_wins() {
    let files = entries(vec!["book.epub", "book.pdf"]);
    let (idx, kind) = resolve_file(&files, "pdf").expect("requested format exists");
    assert_eq!(files[idx], "book.pdf");
    assert_eq!(kind, FileKind::Pdf);
}

#[test]
fn test_extension_match_ignores_case() {
    let files = entries(vec!["cover.jpg", "BOOK.EPUB"]);
    let (idx, kind) = resolve_file(&files, "epub").unwrap();
    assert_eq!(files[idx], "BOOK.EPUB");
    assert_eq!(kind, FileKind::Epub);
}

#[test]
fn test_unknown_requested_format() {
    let files = entries(vec!["book.azw3"]);
    let (idx, kind) = resolve_file(&files, "azw3").unwrap();
    assert_eq!(idx, 0);
    assert_eq!(kind, FileKind::Other);
    assert_eq!(content_type_for(kind), "application/octet-stream");
}

#[test]
fn test_no_candidate_matches() {
    let files = entries(vec!["notes.txt", "cover.jpg"]);
    assert!(resolve_file(&files, "mobi").is_none());
}

#[test]
fn test_fallback_order_is_fixed() {
    // cbz comes last: with mobi and cbz present and an unknown request,
    // mobi wins.
    let files = entries(vec!["b.cbz", "b.mobi"]);
    let (idx, kind) = resolve_file(&files, "azw3").unwrap();
    assert_eq!(files[idx], "b.mobi");
    assert_eq!(kind, FileKind::Mobi);
}

#[test]
fn test_first_match_taken() {
    let files = entries(vec!["one.epub", "two.epub"]);
    assert_eq!(find_matching(&files, "epub"), Some(0));
}

#[test]
fn test_content_types_exact() {
    assert_eq!(content_type_for(FileKind::Epub), "application/epub+zip");
    assert_eq!(content_type_for(FileKind::Pdf), "application/pdf");
    assert_eq!(content_type_for(FileKind::Mobi), "application/x-mobipocket-ebook");
    assert_eq!(content_type_for(FileKind::Cbz), "application/vnd.comicbook+zip");
    assert_eq!(content_type_for(FileKind::Other), "application/octet-stream");
}

#[test]
fn test_extension_of_rules() {
    assert_eq!(extension_of("a.b.c").as_deref(), Some("c"));
    assert_eq!(extension_of("book.epub").as_deref(), Some("epub"));
    assert_eq!(extension_of("noext"), None);
    assert_eq!(extension_of(".hidden"), None);
    assert_eq!(extension_of("odd.").as_deref(), Some(""));
    assert_eq!(extension_of(""), None);
}

#[test]
fn test_attachment_disposition() {
    assert_eq!(
        attachment_disposition("gatsby.epub"),
        "attachment; filename=\"gatsby.epub\""
    );
}

#[test]
fn test_eq_ignore_ascii_case() {
    assert!(eq_ignore_ascii_case("EPUB", "epub"));
    assert!(eq_ignore_ascii_case("ePuB", "Epub"));
    assert!(!eq_ignore_ascii_case("epub", "epu"));
    assert!(!eq_ignore_ascii_case("epub", "pdf"));
    assert!(eq_ignore_ascii_case("", ""));
}

#[test]
fn test_decimal_rendering() {
    assert_eq!(u64_string(0), "0");
    assert_eq!(u64_string(7), "7");
    assert_eq!(u64_string(1234), "1234");
    assert_eq!(u64_string(u64::MAX), "18446744073709551615");
    assert_eq!(i64_string(-42), "-42");
    assert_eq!(i64_string(0), "0");
    assert_eq!(i64_string(i64::MIN), "-9223372036854775808");
}
