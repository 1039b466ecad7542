//! The media type of a downloaded file, chosen by its file name's extension.
use crate::text::{after_last, has_char, lemma_split_nonempty, same_text, split_text, views};
use vstd::prelude::*;

verus! {

/// The extension of a file name: the text after its last `.`; a name
/// without a `.` has none.
pub open spec fn extension_spec(filename: Seq<char>) -> Option<Seq<char>> {
    if filename.contains('.') {
        Some(after_last(filename, '.'))
    } else {
        None
    }
}

/// The fixed table from extension to media type; `None` for any extension
/// outside the table.
pub open spec fn media_type_spec(ext: Seq<char>) -> Option<Seq<char>> {
    if ext == "txt"@ {
        Some("text/plain"@)
    } else if ext == "json"@ {
        Some("application/json"@)
    } else if ext == "png"@ {
        Some("image/png"@)
    } else if ext == "jpg"@ || ext == "jpeg"@ {
        Some("image/jpeg"@)
    } else if ext == "wav"@ {
        Some("audio/wav"@)
    } else if ext == "mp3"@ {
        Some("audio/mpeg"@)
    } else if ext == "mp4"@ {
        Some("video/mp4"@)
    } else if ext == "md"@ {
        Some("text/markdown"@)
    } else {
        None
    }
}

/// Whether an extension is one of those the table knows.
pub open spec fn is_known_extension(ext: Seq<char>) -> bool {
    ext == "txt"@ || ext == "json"@ || ext == "png"@ || ext == "jpg"@ || ext == "jpeg"@
        || ext == "wav"@ || ext == "mp3"@ || ext == "mp4"@ || ext == "md"@
}

/// The extension of `filename`, if it has one.
pub fn extension_of(filename: &str) -> (r: Option<String>)
    ensures
        match extension_spec(filename@) {
            Some(e) => r matches Some(t) && t@ == e,
            None => r is None,
        },
{
    if !has_char(filename, '.') {
        return None;
    }
    let mut parts = split_text(filename, '.');
    proof {
        lemma_split_nonempty(filename@, '.');
    }
    let ghost all = parts@;
    match parts.pop() {
        Some(last) => {
            assert(views(all).last() == last@);
            Some(last)
        },
        None => {
            assert(false);
            None
        },
    }
}

/// The media type for an extension. Every extension of the table has one,
/// and every other extension is refused with `None`.
pub fn media_type_for(ext: &str) -> (r: Option<&'static str>)
    ensures
        r matches Some(t) ==> media_type_spec(ext@) == Some(t@),
        r is None <==> media_type_spec(ext@) is None,
        r is Some <==> is_known_extension(ext@),
{
    if same_text(ext, "txt") {
        Some("text/plain")
    } else if same_text(ext, "json") {
        Some("application/json")
    } else if same_text(ext, "png") {
        Some("image/png")
    } else if same_text(ext, "jpg") || same_text(ext, "jpeg") {
        Some("image/jpeg")
    } else if same_text(ext, "wav") {
        Some("audio/wav")
    } else if same_text(ext, "mp3") {
        Some("audio/mpeg")
    } else if same_text(ext, "mp4") {
        Some("video/mp4")
    } else if same_text(ext, "md") {
        Some("text/markdown")
    } else {
        None
    }
}

} // verus!
