//! What the `wl-paste` tool decides between its options and the paste itself.

use vstd::prelude::*;
use crate::paste::MimeType;
use crate::search::same_text;
use crate::utils::{is_text, is_text_spec};

verus! {

/// The options of `wl-paste`.
#[derive(Clone, Debug, Eq, PartialEq)]
pub struct Options {
    /// List the offered MIME types instead of pasting.
    pub list_types: bool,
    /// Use the "primary" clipboard.
    pub primary: bool,
    /// Do not append a newline character.
    pub no_newline: bool,
    /// Pick the seat to work with.
    pub seat: Option<String>,
    /// Request the given MIME type instead of inferring the MIME type.
    pub mime_type: Option<String>,
    /// Enable verbose logging.
    pub verbose: u8,
}

/// The first MIME type that `mime_guess` knows for the extension of a path.
pub uninterp spec fn guessed_mime_type(path: Seq<char>) -> Option<Seq<char>>;

/// Calls `mime_guess::from_path(path).first()` and hands the MIME type over as a
/// string. The guess goes by the extension of the path alone, through a table
/// compiled into `mime_guess`, without any disk access; so the same path always
/// gives the same result, which is all that is claimed here.
#[verifier::external_body]
fn guess_mime_type(path: &str) -> (r: Option<String>)
    ensures
        match guessed_mime_type(path@) {
            Some(m) => r matches Some(s) && s@ == m,
            None => r is None,
        },
{
    mime_guess::from_path(path).first().map(|mime| mime.as_ref().to_owned())
}

/// Infers a MIME type from the path that standard output leads to, if it leads
/// to a file and the file's extension is known.
pub fn infer_mime_type(stdout_path: Option<&str>) -> (r: Option<String>)
    ensures
        match stdout_path {
            Some(path) => match guessed_mime_type(path@) {
                Some(m) => r matches Some(s) && s@ == m,
                None => r is None,
            },
            None => r is None,
        },
{
    match stdout_path {
        Some(path) => guess_mime_type(path),
        None => None,
    }
}

/// The MIME type to request: what was asked for, where `text` stands for any
/// plain text; else what the output's name suggests, with a fallback to other
/// plain text where that is text itself, and anything at all where the name
/// suggests nothing or only arbitrary bytes.
pub open spec fn requested_spec<'a>(requested: Option<&'a str>, inferred: Option<&'a str>) -> MimeType<
    'a,
> {
    match requested {
        Some(mime_type) => if mime_type@ == "text"@ {
            MimeType::Text
        } else {
            MimeType::Specific(mime_type)
        },
        None => match inferred {
            None => MimeType::Any,
            Some(t) => if t@ == "application/octet-stream"@ {
                MimeType::Any
            } else if is_text_spec(t@) {
                MimeType::TextWithPriority(t)
            } else {
                MimeType::Specific(t)
            },
        },
    }
}

/// Chooses the MIME type to request from the `--type` option and the MIME type
/// inferred for the output.
pub fn requested_mime_type<'a>(requested: Option<&'a str>, inferred: Option<&'a str>) -> (r:
    MimeType<'a>)
    ensures
        r == requested_spec(requested, inferred),
{
    match requested {
        Some(mime_type) => if same_text(mime_type, "text") {
            MimeType::Text
        } else {
            MimeType::Specific(mime_type)
        },
        None => match inferred {
            None => MimeType::Any,
            Some(t) => if same_text(t, "application/octet-stream") {
                MimeType::Any
            } else if is_text(t) {
                MimeType::TextWithPriority(t)
            } else {
                MimeType::Specific(t)
            },
        },
    }
}

/// Whether the contents end in a newline.
pub open spec fn ends_in_newline(contents: Seq<u8>) -> bool {
    contents.len() > 0 && contents.last() == 0x0au8
}

/// Appends a newline to pasted text that does not end in one, unless told not to.
pub fn append_newline(contents: &mut Vec<u8>, no_newline: bool, mime_type: &str)
    ensures
        final(contents)@ == if !no_newline && is_text_spec(mime_type@) && !ends_in_newline(
            old(contents)@,
        ) {
            old(contents)@.push(0x0au8)
        } else {
            old(contents)@
        },
{
    let n = contents.len();
    let last_character_is_newline = n > 0 && contents[n - 1] == 0x0au8;
    if !no_newline && is_text(mime_type) && !last_character_is_newline {
        contents.push(0x0au8);
    }
}

/// Removes the last newline of pasted text where that was asked for.
pub fn remove_last_newline(contents: &mut Vec<u8>, rmlastnl: bool, mime_type: &str)
    ensures
        final(contents)@ == if rmlastnl && is_text_spec(mime_type@) && ends_in_newline(
            old(contents)@,
        ) {
            old(contents)@.drop_last()
        } else {
            old(contents)@
        },
{
    let n = contents.len();
    let last_character_is_newline = n > 0 && contents[n - 1] == 0x0au8;
    if rmlastnl && is_text(mime_type) && last_character_is_newline {
        contents.pop();
    }
}

} // verus!
