//! The command line of `wl-clip`, which takes the options of `xclip`.
//!
//! An option may be cut short, down to the shortest form that `xclip` takes,
//! and anything that is no option is a file to read.

use vstd::prelude::*;
use crate::copy;
use crate::copy::{ClipboardType, Seat, ServeRequests};

verus! {

/// How much the tool says, and whether it stays in the foreground.
#[derive(Clone, Copy, Debug, PartialEq, Eq, Structural)]
pub enum Verbosity {
    Silent,
    Quiet,
    Verbose,
}

/// What to print instead of running.
#[derive(Clone, Copy, Debug, PartialEq, Eq, Structural)]
pub enum Print {
    Help,
    Version,
}

/// One argument of the command line.
#[derive(Clone, Debug, PartialEq, Eq)]
pub enum Arg {
    /// An argument that is valid UTF-8.
    Text(String),
    /// An argument that is not, with what is legible of it.
    Invalid(String),
}

/// An option of `xclip` that this tool does not take.
#[derive(Clone, Copy, Debug, PartialEq, Eq, Structural)]
pub enum Unsupported {
    Filter,
    NoUtf8,
    Display,
    SelectionSecondary,
    SelectionBufferCut,
    TargetInvalidUtf8,
}

/// The options of `wl-clip`.
#[derive(Clone, Debug, PartialEq, Eq)]
pub struct Options {
    /// The files to read, by the positions of their names among the arguments.
    pub files: Vec<usize>,
    /// Print the clipboard instead of filling it.
    pub out: bool,
    /// The number of paste requests to serve; zero for no limit.
    pub loops: usize,
    /// The MIME type to request or set.
    pub target: Option<String>,
    /// Trim the last newline character.
    pub rmlastnl: bool,
    pub verbosity: Verbosity,
    /// Use the primary selection rather than the clipboard.
    pub primary: bool,
    /// Print help or the version, and do nothing else.
    pub print: Option<Print>,
}

/// The options as plain values.
pub struct OptionsView {
    pub files: Seq<usize>,
    pub out: bool,
    pub loops: usize,
    pub target: Option<Seq<char>>,
    pub rmlastnl: bool,
    pub verbosity: Verbosity,
    pub primary: bool,
    pub print: Option<Print>,
}

impl View for Options {
    type V = OptionsView;

    open spec fn view(&self) -> OptionsView {
        OptionsView {
            files: self.files@,
            out: self.out,
            loops: self.loops,
            target: match self.target {
                Some(t) => Some(t@),
                None => None,
            },
            rmlastnl: self.rmlastnl,
            verbosity: self.verbosity,
            primary: self.primary,
            print: self.print,
        }
    }
}

/// The options before any argument: fill the primary selection from standard
/// input, in the background, without a limit.
pub open spec fn defaults() -> OptionsView {
    OptionsView {
        files: Seq::empty(),
        out: false,
        loops: 0,
        target: None,
        rmlastnl: false,
        verbosity: Verbosity::Silent,
        primary: true,
        print: None,
    }
}

/// Whether `arg` is the option `longest`, in full or cut short, but not shorter
/// than `shortest`.
pub open spec fn abbreviates(arg: Seq<char>, longest: Seq<char>, shortest: Seq<char>) -> bool {
    arg.is_prefix_of(longest) && shortest.is_prefix_of(arg)
}

/// The text of an argument, as far as it is legible.
pub open spec fn legible(arg: Arg) -> Seq<char> {
    match arg {
        Arg::Text(t) => t@,
        Arg::Invalid(t) => t@,
    }
}

/// The number that a string of decimal digits stands for.
pub open spec fn digits_value(digits: Seq<char>) -> nat
    decreases digits.len(),
{
    if digits.len() == 0 {
        0
    } else {
        digits_value(digits.drop_last()) * 10 + (digits.last() as nat - '0' as nat) as nat
    }
}

/// Whether every character is a decimal digit.
pub open spec fn all_digits(digits: Seq<char>) -> bool {
    forall|i: int| 0 <= i < digits.len() ==> '0' <= #[trigger] digits[i] <= '9'
}

/// A text without the plus sign that may lead it.
pub open spec fn unsigned_part(text: Seq<char>) -> Seq<char> {
    if text.len() > 0 && text[0] == '+' {
        text.subrange(1, text.len() as int)
    } else {
        text
    }
}

/// The count that a text stands for: decimal digits, after a plus sign or
/// without one, that fit the machine's word. Anything else stands for none.
pub open spec fn count_of(text: Seq<char>) -> Option<usize> {
    let digits = unsigned_part(text);
    if digits.len() > 0 && all_digits(digits) && digits_value(digits) <= usize::MAX {
        Some(digits_value(digits) as usize)
    } else {
        None
    }
}

/// What one argument, with the one after it where it takes a value, makes of the options.
pub enum Step {
    /// The options so far, and the position of the next argument to look at.
    Next(OptionsView, int),
    /// The command line is refused.
    Fail(Unsupported),
}

/// Handles the argument at `i`.
pub open spec fn step(args: Seq<Arg>, i: int, o: OptionsView) -> Step {
    match args[i] {
        Arg::Invalid(_) => Step::Next(OptionsView { files: o.files.push(i as usize), ..o }, i + 1),
        Arg::Text(text) => {
            let a = text@;
            let has_value = i + 1 < args.len();
            if abbreviates(a, "-help"@, "-h"@) {
                Step::Next(OptionsView { print: Some(Print::Help), ..o }, i + 1)
            } else if abbreviates(a, "-version"@, "-vers"@) {
                Step::Next(OptionsView { print: Some(Print::Version), ..o }, i + 1)
            } else if abbreviates(a, "-out"@, "-o"@) {
                Step::Next(OptionsView { out: true, ..o }, i + 1)
            } else if abbreviates(a, "-in"@, "-i"@) {
                Step::Next(OptionsView { out: false, ..o }, i + 1)
            } else if abbreviates(a, "-rmlastnl"@, "-r"@) {
                Step::Next(OptionsView { rmlastnl: true, ..o }, i + 1)
            } else if abbreviates(a, "-silent"@, "-si"@) {
                Step::Next(OptionsView { verbosity: Verbosity::Silent, ..o }, i + 1)
            } else if abbreviates(a, "-quiet"@, "-q"@) {
                Step::Next(OptionsView { verbosity: Verbosity::Quiet, ..o }, i + 1)
            } else if abbreviates(a, "-verbose"@, "-verb"@) {
                Step::Next(OptionsView { verbosity: Verbosity::Verbose, ..o }, i + 1)
            } else if abbreviates(a, "-filter"@, "-f"@) {
                Step::Fail(Unsupported::Filter)
            } else if abbreviates(a, "-noutf8"@, "-n"@) {
                Step::Fail(Unsupported::NoUtf8)
            } else if abbreviates(a, "-display"@, "-d"@) {
                Step::Fail(Unsupported::Display)
            } else if abbreviates(a, "-selection"@, "-se"@) && has_value {
                let value = legible(args[i + 1]);
                if value.len() > 0 && value[0] == 'c' {
                    Step::Next(OptionsView { primary: false, ..o }, i + 2)
                } else if value.len() > 0 && value[0] == 'p' {
                    Step::Next(OptionsView { primary: true, ..o }, i + 2)
                } else if value.len() > 0 && value[0] == 's' {
                    Step::Fail(Unsupported::SelectionSecondary)
                } else if value.len() > 0 && value[0] == 'b' {
                    Step::Fail(Unsupported::SelectionBufferCut)
                } else {
                    Step::Next(o, i + 2)
                }
            } else if abbreviates(a, "-loops"@, "-l"@) && has_value {
                match args[i + 1] {
                    Arg::Text(value) => match count_of(value@) {
                        Some(n) => Step::Next(OptionsView { loops: n, ..o }, i + 2),
                        None => Step::Next(o, i + 2),
                    },
                    Arg::Invalid(_) => Step::Next(o, i + 2),
                }
            } else if abbreviates(a, "-target"@, "-t"@) && has_value {
                match args[i + 1] {
                    Arg::Text(value) => Step::Next(
                        OptionsView { target: Some(value@), ..o },
                        i + 2,
                    ),
                    Arg::Invalid(_) => Step::Fail(Unsupported::TargetInvalidUtf8),
                }
            } else {
                Step::Next(OptionsView { files: o.files.push(i as usize), ..o }, i + 1)
            }
        },
    }
}

/// Handles the arguments from `i` on.
pub open spec fn parse_from(args: Seq<Arg>, i: int, o: OptionsView) -> Result<
    OptionsView,
    Unsupported,
>
    decreases args.len() - i,
{
    if i < 0 || i >= args.len() {
        Ok(o)
    } else {
        match step(args, i, o) {
            Step::Next(next, j) => if j > i {
                parse_from(args, j, next)
            } else {
                Ok(o)
            },
            Step::Fail(e) => Err(e),
        }
    }
}

/// Whether `prefix` starts `text`.
pub fn starts_with(text: &str, prefix: &str) -> (r: bool)
    ensures
        r == prefix@.is_prefix_of(text@),
{
    let n = prefix.unicode_len();
    if n > text.unicode_len() {
        return false;
    }
    let mut i: usize = 0;
    while i < n
        invariant
            n == prefix@.len(),
            n <= text@.len(),
            i <= n,
            forall|j: int| 0 <= j < i ==> prefix@[j] == text@[j],
        decreases n - i,
    {
        if prefix.get_char(i) != text.get_char(i) {
            assert(prefix@[i as int] != text@.subrange(0, n as int)[i as int]);
            return false;
        }
        i += 1;
    }
    assert(prefix@ =~= text@.subrange(0, n as int));
    true
}

/// Whether `arg` is the option `longest`, in full or cut short down to `shortest`.
fn is_option(arg: &str, longest: &str, shortest: &str) -> (r: bool)
    ensures
        r == abbreviates(arg@, longest@, shortest@),
{
    starts_with(longest, arg) && starts_with(arg, shortest)
}

/// A prefix of a string of digits stands for no more than the whole.
proof fn lemma_digits_grow(digits: Seq<char>, n: int)
    requires
        0 <= n <= digits.len(),
    ensures
        digits_value(digits.take(n)) <= digits_value(digits),
    decreases digits.len() - n,
{
    if n < digits.len() {
        lemma_digits_grow(digits, n + 1);
        assert(digits.take(n + 1).drop_last() =~= digits.take(n));
    } else {
        assert(digits.take(n) =~= digits);
    }
}

/// Reads a count: decimal digits, after a plus sign or without one.
pub fn parse_count(text: &str) -> (r: Option<usize>)
    ensures
        r == count_of(text@),
{
    let n = text.unicode_len();
    let start: usize = if n > 0 && text.get_char(0) == '+' {
        1
    } else {
        0
    };
    if start == n {
        return None;
    }
    let ghost digits = text@.subrange(start as int, n as int);
    assert(digits =~= unsigned_part(text@));
    let mut value: usize = 0;
    let mut i: usize = start;
    while i < n
        invariant
            n == text@.len(),
            start <= i <= n,
            digits == text@.subrange(start as int, n as int),
            digits == unsigned_part(text@),
            forall|j: int| 0 <= j < i - start ==> '0' <= #[trigger] digits[j] <= '9',
            value == digits_value(digits.take(i - start)),
        decreases n - i,
    {
        let c = text.get_char(i);
        assert(c == digits[i - start]);
        if c < '0' || c > '9' {
            return None;
        }
        let d = (c as u32 - '0' as u32) as usize;
        proof {
            assert(digits.take(i - start + 1).drop_last() =~= digits.take(i - start));
            lemma_digits_grow(digits, i - start + 1);
        }
        if value > (usize::MAX - d) / 10 {
            return None;
        }
        value = value * 10 + d;
        i += 1;
    }
    proof {
        assert(digits.take(n - start) =~= digits);
    }
    Some(value)
}

/// The first character of an argument, as far as it is legible.
fn first_char(arg: &Arg) -> (r: Option<char>)
    ensures
        r == if legible(*arg).len() > 0 {
            Some(legible(*arg)[0])
        } else {
            None
        },
{
    let text = match arg {
        Arg::Text(t) => t.as_str(),
        Arg::Invalid(t) => t.as_str(),
    };
    if text.unicode_len() > 0 {
        Some(text.get_char(0))
    } else {
        None
    }
}

impl Options {
    /// Reads the options from the arguments that follow the program's name.
    ///
    /// Options are taken in the order given; a later one overrides an earlier
    /// one. `-selection`, `-loops` and `-target` take the next argument as their
    /// value, and count as a file where there is none. `-filter`, `-noutf8`,
    /// `-display`, the secondary selection and the cut buffer are refused, and so
    /// is a target that is not valid UTF-8.
    pub fn from_args(args: &Vec<Arg>) -> (r: Result<Options, Unsupported>)
        ensures
            match parse_from(args@, 0, defaults()) {
                Ok(o) => r matches Ok(opts) && opts@ == o,
                Err(e) => r == Err::<Options, Unsupported>(e),
            },
    {
        let mut opts = Options {
            files: Vec::new(),
            out: false,
            loops: 0,
            target: None,
            rmlastnl: false,
            verbosity: Verbosity::Silent,
            primary: true,
            print: None,
        };
        assert(opts@.files =~= defaults().files);
        let mut i: usize = 0;
        while i < args.len()
            invariant
                i <= args.len(),
                parse_from(args@, 0, defaults()) == parse_from(args@, i as int, opts@),
            decreases args.len() - i,
        {
            let ghost before = opts@;
            let has_value = i + 1 < args.len();
            let mut used: usize = 1;
            match &args[i] {
                Arg::Invalid(_) => {
                    opts.files.push(i);
                },
                Arg::Text(text) => {
                    let arg = text.as_str();
                    if is_option(arg, "-help", "-h") {
                        opts.print = Some(Print::Help);
                    } else if is_option(arg, "-version", "-vers") {
                        opts.print = Some(Print::Version);
                    } else if is_option(arg, "-out", "-o") {
                        opts.out = true;
                    } else if is_option(arg, "-in", "-i") {
                        opts.out = false;
                    } else if is_option(arg, "-rmlastnl", "-r") {
                        opts.rmlastnl = true;
                    } else if is_option(arg, "-silent", "-si") {
                        opts.verbosity = Verbosity::Silent;
                    } else if is_option(arg, "-quiet", "-q") {
                        opts.verbosity = Verbosity::Quiet;
                    } else if is_option(arg, "-verbose", "-verb") {
                        opts.verbosity = Verbosity::Verbose;
                    } else if is_option(arg, "-filter", "-f") {
                        return Err(Unsupported::Filter);
                    } else if is_option(arg, "-noutf8", "-n") {
                        return Err(Unsupported::NoUtf8);
                    } else if is_option(arg, "-display", "-d") {
                        return Err(Unsupported::Display);
                    } else if is_option(arg, "-selection", "-se") && has_value {
                        used = 2;
                        match first_char(&args[i + 1]) {
                            Some('c') => {
                                opts.primary = false;
                            },
                            Some('p') => {
                                opts.primary = true;
                            },
                            Some('s') => {
                                return Err(Unsupported::SelectionSecondary);
                            },
                            Some('b') => {
                                return Err(Unsupported::SelectionBufferCut);
                            },
                            _ => {},
                        }
                    } else if is_option(arg, "-loops", "-l") && has_value {
                        used = 2;
                        if let Arg::Text(value) = &args[i + 1] {
                            if let Some(n) = parse_count(value.as_str()) {
                                opts.loops = n;
                            }
                        }
                    } else if is_option(arg, "-target", "-t") && has_value {
                        used = 2;
                        match &args[i + 1] {
                            Arg::Text(value) => {
                                opts.target = Some(value.clone());
                            },
                            Arg::Invalid(_) => {
                                return Err(Unsupported::TargetInvalidUtf8);
                            },
                        }
                    } else {
                        opts.files.push(i);
                    }
                },
            }
            assert(step(args@, i as int, before) == Step::Next(opts@, i + used));
            i += used;
        }
        Ok(opts)
    }

    /// The options of the copy that these options ask for. The tool goes to
    /// the background by itself, so the copy is always prepared in the
    /// foreground.
    pub fn copy_options(&self) -> (opts: copy::Options)
        ensures
            opts.serve_requests == if self.loops == 0 {
                ServeRequests::Unlimited
            } else {
                ServeRequests::Only(self.loops)
            },
            opts.foreground,
            opts.clipboard == if self.primary {
                ClipboardType::Primary
            } else {
                ClipboardType::Regular
            },
            opts.trim_newline == self.rmlastnl,
            opts.seat is All,
            !opts.omit_additional_text_mime_types,
    {
        copy::Options {
            serve_requests: if self.loops == 0 {
                ServeRequests::Unlimited
            } else {
                ServeRequests::Only(self.loops)
            },
            foreground: true,
            clipboard: if self.primary {
                ClipboardType::Primary
            } else {
                ClipboardType::Regular
            },
            trim_newline: self.rmlastnl,
            seat: Seat::All,
            omit_additional_text_mime_types: false,
        }
    }
}

/// What to tell the user about an option that is refused.
pub fn message(unsupported: Unsupported) -> (r: &'static str)
    ensures
        r@ == match unsupported {
            Unsupported::Filter => "Unsupported option: -filter"@,
            Unsupported::NoUtf8 => "Unsupported option: -noutf8"@,
            Unsupported::Display => "Unsupported option: -display"@,
            Unsupported::SelectionSecondary => "Unsupported option: -selection secondary"@,
            Unsupported::SelectionBufferCut => "Unsupported option: -selection buffer-cut"@,
            Unsupported::TargetInvalidUtf8 => "Unsupported option: -target <invalid UTF-8>"@,
        },
{
    match unsupported {
        Unsupported::Filter => "Unsupported option: -filter",
        Unsupported::NoUtf8 => "Unsupported option: -noutf8",
        Unsupported::Display => "Unsupported option: -display",
        Unsupported::SelectionSecondary => "Unsupported option: -selection secondary",
        Unsupported::SelectionBufferCut => "Unsupported option: -selection buffer-cut",
        Unsupported::TargetInvalidUtf8 => "Unsupported option: -target <invalid UTF-8>",
    }
}

} // verus!
