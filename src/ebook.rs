//! Naming and typing of uploaded ebook files.
use vstd::prelude::*;
use crate::text::joined3;

verus! {

/// Whether `s` ends with `suffix`.
pub open spec fn ends_with(s: Seq<char>, suffix: Seq<char>) -> bool {
    s.len() >= suffix.len() && s.subrange(s.len() - suffix.len(), s.len() as int) == suffix
}

/// The media type recorded for an uploaded file: EPUB for a `.epub` name,
/// PDF for anything else.
pub open spec fn mime_type_of(filename: Seq<char>) -> Seq<char> {
    if ends_with(filename, ".epub"@) {
        "application/epub+zip"@
    } else {
        "application/pdf"@
    }
}

/// The name used for an upload that does not give one.
pub open spec fn default_upload_name() -> Seq<char> {
    "upload.pdf"@
}

/// Where the upload `filename` of ebook `id` is stored.
pub open spec fn ebook_path_of(id: Seq<char>, filename: Seq<char>) -> Seq<char> {
    "uploads/ebooks/"@ + id + "_"@ + filename
}

fn has_suffix(s: &Vec<char>, suffix: &Vec<char>) -> (r: bool)
    ensures
        r == ends_with(s@, suffix@),
{
    if s.len() < suffix.len() {
        return false;
    }
    let start = s.len() - suffix.len();
    let mut i: usize = 0;
    while i < suffix.len()
        invariant
            i <= suffix.len(),
            start == s.len() - suffix.len(),
            forall|j: int| 0 <= j < i ==> s@[start + j] == suffix@[j],
        decreases suffix.len() - i,
    {
        if s[start + i] != suffix[i] {
            assert(s@.subrange(start as int, s.len() as int)[i as int] != suffix@[i as int]);
            return false;
        }
        i += 1;
    }
    assert(s@.subrange(start as int, s.len() as int) =~= suffix@);
    true
}

/// The media type recorded for an uploaded file named `filename`.
pub fn ebook_mime_type(filename: &str) -> (r: &'static str)
    ensures
        r@ == mime_type_of(filename@),
{
    let name = crate::text::chars_of(filename);
    let epub = crate::text::chars_of(".epub");
    if has_suffix(&name, &epub) {
        "application/epub+zip"
    } else {
        "application/pdf"
    }
}

/// Where an uploaded ebook is stored: named after the ebook's `id` and the
/// upload's file name, or `upload.pdf` when the upload gives none.
pub fn ebook_file_path(id: &str, filename: Option<&str>) -> (r: String)
    ensures
        r@ == ebook_path_of(
            id@,
            match filename {
                Some(f) => f@,
                None => default_upload_name(),
            },
        ),
{
    let name = match filename {
        Some(f) => f,
        None => "upload.pdf",
    };
    let head = joined3("uploads/ebooks/", id, "_");
    crate::text::joined(head.as_str(), name)
}

} // verus!
