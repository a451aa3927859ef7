//! What the `wl-copy` tool decides between its options and the copy itself.

use vstd::prelude::*;
use crate::copy;
use crate::copy::{ClipboardType, MimeType, Seat, ServeRequests, Source};

verus! {

/// The options of `wl-copy`.
#[derive(Clone, Debug, Eq, PartialEq)]
pub struct Options {
    /// Serve only a single paste request and then exit.
    pub paste_once: bool,
    /// Stay in the foreground instead of forking.
    pub foreground: bool,
    /// Clear the clipboard instead of copying.
    pub clear: bool,
    /// Use the "primary" clipboard.
    pub primary: bool,
    /// Use the regular clipboard; together with `primary`, both.
    pub regular: bool,
    /// Trim the trailing newline character before copying.
    pub trim_newline: bool,
    /// Pick the seat to work with.
    pub seat: Option<String>,
    /// Override the inferred MIME type for the content.
    pub mime_type: Option<String>,
    /// Text to copy; without any, standard input is copied.
    pub text: Vec<Vec<u8>>,
    /// Enable verbose logging.
    pub verbose: u8,
}

/// The clipboard that the tool's flags name.
pub open spec fn clipboard_of(primary: bool, regular: bool) -> ClipboardType {
    if primary {
        if regular {
            ClipboardType::Both
        } else {
            ClipboardType::Primary
        }
    } else {
        ClipboardType::Regular
    }
}

/// Turns the tool's options into the options of a copy. The tool goes to the
/// background by itself, so the copy is always prepared in the foreground.
pub fn from_options(x: Options) -> (opts: copy::Options)
    ensures
        opts.serve_requests == if x.paste_once {
            ServeRequests::Only(1)
        } else {
            ServeRequests::Unlimited
        },
        opts.foreground,
        opts.clipboard == clipboard_of(x.primary, x.regular),
        opts.trim_newline == x.trim_newline,
        opts.seat == match x.seat {
            Some(name) => Seat::Specific(name),
            None => Seat::All,
        },
        !opts.omit_additional_text_mime_types,
{
    copy::Options {
        serve_requests: if x.paste_once {
            ServeRequests::Only(1)
        } else {
            ServeRequests::Unlimited
        },
        foreground: true,
        clipboard: if x.primary {
            if x.regular {
                ClipboardType::Both
            } else {
                ClipboardType::Primary
            }
        } else {
            ClipboardType::Regular
        },
        trim_newline: x.trim_newline,
        seat: match x.seat {
            Some(name) => Seat::Specific(name),
            None => Seat::All,
        },
        omit_additional_text_mime_types: false,
    }
}

/// The words joined by single spaces.
pub open spec fn joined(text: Seq<Vec<u8>>) -> Seq<u8>
    decreases text.len(),
{
    if text.len() == 0 {
        Seq::empty()
    } else if text.len() == 1 {
        text[0]@
    } else {
        joined(text.drop_last()).push(0x20u8) + text.last()@
    }
}

/// The source to copy: the words given on the command line, joined by single
/// spaces, or standard input where none was given.
pub fn source_of(text: &Vec<Vec<u8>>) -> (source: Source)
    ensures
        match source {
            Source::StdIn => text@.len() == 0,
            Source::Bytes(data) => text@.len() > 0 && data@ == joined(text@),
        },
{
    if text.len() == 0 {
        return Source::StdIn;
    }
    let mut data: Vec<u8> = Vec::new();
    let mut i: usize = 0;
    while i < text.len()
        invariant
            i <= text.len(),
            text.len() > 0,
            data@ == joined(text@.take(i as int)),
        decreases text.len() - i,
    {
        proof {
            assert(text@.take(i + 1).drop_last() =~= text@.take(i as int));
        }
        if i > 0 {
            data.push(0x20u8);
        }
        let word = &text[i];
        let ghost before = data@;
        let mut k: usize = 0;
        while k < word.len()
            invariant
                k <= word.len(),
                data@ == before + word@.take(k as int),
            decreases word.len() - k,
        {
            data.push(word[k]);
            assert(data@ =~= before + word@.take(k + 1));
            k += 1;
        }
        assert(word@.take(word@.len() as int) =~= word@);
        assert(before + word@ =~= joined(text@.take(i + 1)));
        i += 1;
    }
    assert(text@.take(text@.len() as int) =~= text@);
    Source::Bytes(data)
}

/// The MIME type to copy under: the one given, or whatever the contents turn out to be.
pub fn mime_type_of(mime_type: Option<String>) -> (r: MimeType)
    ensures
        r == match mime_type {
            Some(m) => MimeType::Specific(m),
            None => MimeType::Autodetect,
        },
{
    match mime_type {
        Some(m) => MimeType::Specific(m),
        None => MimeType::Autodetect,
    }
}

} // verus!
