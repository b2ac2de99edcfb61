use classroom_backend::auth::bearer_token;
use classroom_backend::ebook::{ebook_file_path, ebook_mime_type};
use classroom_backend::text::{joined, joined3, replace_all, swap_char};

#[test]
fn replace_all_replaces_every_occurrence() {
    assert_eq!(replace_all("class Main {} class Main2 {}", "class Main", "class X"), "class X {} class X2 {}");
    assert_eq!(replace_all("no match here", "class Main", "class X"), "no match here");
    assert_eq!(replace_all("", "ab", "c"), "");
    assert_eq!(replace_all("ab", "ab", ""), "");
}

#[test]
fn replace_all_scans_left_to_right_without_overlap() {
    assert_eq!(replace_all("aaa", "aa", "X"), "Xa");
    assert_eq!(replace_all("aaaa", "aa", "X"), "XX");
    assert_eq!(replace_all("abab", "ab", "ab-ab"), "ab-abab-ab");
    assert_eq!(replace_all("héllo wörld", "ö", "o"), "héllo world");
}

#[test]
fn swap_char_turns_every_hyphen() {
    assert_eq!(swap_char("0f8fad5b-d9cb-469f", '-', '_'), "0f8fad5b_d9cb_469f");
    assert_eq!(swap_char("", '-', '_'), "");
}

#[test]
fn concatenation() {
    assert_eq!(joined("ab", "cd"), "abcd");
    assert_eq!(joined3("/tmp/", "x", ".rs"), "/tmp/x.rs");
}

#[test]
fn bearer_token_takes_what_follows_the_scheme() {
    assert_eq!(bearer_token("Bearer abc.def.ghi").as_deref(), Some("abc.def.ghi"));
    assert_eq!(bearer_token("Bearer ").as_deref(), Some(""));
    assert_eq!(bearer_token("Bearer"), None);
    assert_eq!(bearer_token("bearer abc"), None);
    assert_eq!(bearer_token("Basic dXNlcjpwYXNz"), None);
    assert_eq!(bearer_token(""), None);
}

#[test]
fn ebook_media_type_follows_the_extension() {
    assert_eq!(ebook_mime_type("novel.epub"), "application/epub+zip");
    assert_eq!(ebook_mime_type("novel.pdf"), "application/pdf");
    assert_eq!(ebook_mime_type("novel"), "application/pdf");
    assert_eq!(ebook_mime_type(".epub"), "application/epub+zip");
    assert_eq!(ebook_mime_type("epub"), "application/pdf");
}

#[test]
fn ebook_path_names_the_upload() {
    assert_eq!(ebook_file_path("e1", Some("book.pdf")), "uploads/ebooks/e1_book.pdf");
    assert_eq!(ebook_file_path("e1", None), "uploads/ebooks/e1_upload.pdf");
}
