//! Copying and clearing clipboard contents.

use vstd::prelude::*;
use vstd::std_specs::convert::FromSpecImpl;
use crate::common;
use crate::data_control::{Device, DeviceEvent, Request, Source as DataSource, same_family};
use crate::seat_data::SeatData;
use crate::search::{
    distinct, first_at, first_text, first_where, has_key, is_key, lemma_first_where_absent,
    lemma_first_where_found, lemma_first_where_is_first, lemma_first_where_push, lemma_some_first,
    names_text, position, same_text, texts,
};
use crate::utils::{is_text, is_text_spec};

verus! {

/// The clipboard to operate on.
#[derive(Copy, Clone, Eq, PartialEq, Debug, Hash, Structural)]
pub enum ClipboardType {
    /// The regular clipboard.
    Regular,
    /// The "primary" clipboard.
    ///
    /// Working with the "primary" clipboard requires the compositor to support the data-control
    /// protocol of version 2 or above.
    Primary,
    /// Operate on both clipboards at once.
    ///
    /// Useful for atomically setting both clipboards at once. This option requires the "primary"
    /// clipboard to be supported.
    Both,
}

impl Default for ClipboardType {
    fn default() -> (r: Self)
        ensures
            r == ClipboardType::Regular,
    {
        ClipboardType::Regular
    }
}

/// MIME type to offer the copied data under.
#[derive(Clone, Eq, PartialEq, Debug, Hash)]
pub enum MimeType {
    /// Detect the MIME type automatically from the data.
    Autodetect,
    /// Offer a number of common plain text MIME types.
    Text,
    /// Offer a specific MIME type.
    Specific(String),
}

/// Source for copying.
#[derive(Clone, Eq, PartialEq, Debug, Hash)]
pub enum Source {
    /// Copy contents of the standard input.
    StdIn,
    /// Copy the given bytes.
    Bytes(Vec<u8>),
}

/// Source for copying, with a MIME type.
#[derive(Clone, Eq, PartialEq, Debug, Hash)]
pub struct MimeSource {
    pub source: Source,
    pub mime_type: MimeType,
}

/// Seat to operate on.
#[derive(Clone, Eq, PartialEq, Debug, Hash)]
pub enum Seat {
    /// Operate on all existing seats at once.
    All,
    /// Operate on a seat with the given name.
    Specific(String),
}

impl Default for Seat {
    fn default() -> (r: Self)
        ensures
            r is All,
    {
        Seat::All
    }
}

/// Number of paste requests to serve.
#[derive(Copy, Clone, Eq, PartialEq, Debug, Hash, Structural)]
pub enum ServeRequests {
    /// Serve requests indefinitely.
    Unlimited,
    /// Serve only the given number of requests.
    Only(usize),
}

impl Default for ServeRequests {
    fn default() -> (r: Self)
        ensures
            r == ServeRequests::Unlimited,
    {
        ServeRequests::Unlimited
    }
}

/// Options and flags that are used to customize the copying.
#[derive(Clone, Eq, PartialEq, Debug, Hash)]
pub struct Options {
    /// The clipboard to work with.
    pub clipboard: ClipboardType,
    /// The seat to work with.
    pub seat: Seat,
    /// Trim the trailing newline character before copying.
    ///
    /// This flag is only applied for text MIME types.
    pub trim_newline: bool,
    /// Serve in the calling thread. Without it, copying is prepared and served on
    /// a thread of its own, and the caller only learns how the preparation went.
    pub foreground: bool,
    /// Number of paste requests to serve.
    ///
    /// Limiting the number of paste requests to one effectively clears the clipboard after the
    /// first paste. It can be used when copying e.g. sensitive data, like passwords.
    pub serve_requests: ServeRequests,
    /// Omit additional text mime types which are offered by default if at least one text mime type is provided.
    ///
    /// Omits additionally offered `text/plain;charset=utf-8`, `text/plain`, `STRING`, `UTF8_STRING` and
    /// `TEXT` mime types which are offered by default if at least one text mime type is provided.
    pub omit_additional_text_mime_types: bool,
}

impl Default for Options {
    fn default() -> (r: Self)
        ensures
            r.clipboard == ClipboardType::Regular,
            r.seat is All,
            !r.trim_newline,
            !r.foreground,
            r.serve_requests == ServeRequests::Unlimited,
            !r.omit_additional_text_mime_types,
    {
        Options {
            clipboard: ClipboardType::Regular,
            seat: Seat::All,
            trim_newline: false,
            foreground: false,
            serve_requests: ServeRequests::Unlimited,
            omit_additional_text_mime_types: false,
        }
    }
}

impl Options {
    /// Creates a blank new set of options ready for configuration.
    pub fn new() -> (r: Self)
        ensures
            r.clipboard == ClipboardType::Regular,
            r.seat is All,
            !r.trim_newline,
            !r.foreground,
            r.serve_requests == ServeRequests::Unlimited,
            !r.omit_additional_text_mime_types,
    {
        Options {
            clipboard: ClipboardType::Regular,
            seat: Seat::All,
            trim_newline: false,
            foreground: false,
            serve_requests: ServeRequests::Unlimited,
            omit_additional_text_mime_types: false,
        }
    }

    /// Sets the clipboard to work with.
    pub fn clipboard(&mut self, clipboard: ClipboardType) -> (r: &mut Self)
        ensures
            *r == (Options { clipboard, ..*old(self) }),
            *final(self) == *final(r),
    {
        self.clipboard = clipboard;
        self
    }

    /// Sets the seat to use for copying.
    pub fn seat(&mut self, seat: Seat) -> (r: &mut Self)
        ensures
            *r == (Options { seat, ..*old(self) }),
            *final(self) == *final(r),
    {
        self.seat = seat;
        self
    }

    /// Sets the flag for trimming the trailing newline.
    ///
    /// This flag is only applied for text MIME types.
    pub fn trim_newline(&mut self, trim_newline: bool) -> (r: &mut Self)
        ensures
            *r == (Options { trim_newline, ..*old(self) }),
            *final(self) == *final(r),
    {
        self.trim_newline = trim_newline;
        self
    }

    /// Sets the flag for serving in the calling thread.
    pub fn foreground(&mut self, foreground: bool) -> (r: &mut Self)
        ensures
            *r == (Options { foreground, ..*old(self) }),
            *final(self) == *final(r),
    {
        self.foreground = foreground;
        self
    }

    /// Sets the number of requests to serve.
    pub fn serve_requests(&mut self, serve_requests: ServeRequests) -> (r: &mut Self)
        ensures
            *r == (Options { serve_requests, ..*old(self) }),
            *final(self) == *final(r),
    {
        self.serve_requests = serve_requests;
        self
    }

    /// Sets the flag for omitting the additional text MIME types.
    pub fn omit_additional_text_mime_types(
        &mut self,
        omit_additional_text_mime_types: bool,
    ) -> (r: &mut Self)
        ensures
            *r == (Options { omit_additional_text_mime_types, ..*old(self) }),
            *final(self) == *final(r),
    {
        self.omit_additional_text_mime_types = omit_additional_text_mime_types;
        self
    }
}

/// Errors that can occur for copying the source data to a temporary file.
#[derive(Copy, Clone, Eq, PartialEq, Debug, Structural)]
pub enum SourceCreationError {
    /// Couldn't create a temporary directory.
    TempDirCreate,
    /// Couldn't create a temporary file.
    TempFileCreate,
    /// Couldn't copy data to the temporary file.
    DataCopy,
    /// Couldn't write to the temporary file.
    TempFileWrite,
    /// Couldn't open the temporary file for newline trimming.
    TempFileOpen,
    /// Couldn't get the temporary file metadata for newline trimming.
    TempFileMetadata,
    /// Couldn't seek the temporary file for newline trimming.
    TempFileSeek,
    /// Couldn't read the last byte of the temporary file for newline trimming.
    TempFileRead,
    /// Couldn't truncate the temporary file for newline trimming.
    TempFileTruncate,
}

/// Errors of answering one paste request.
#[derive(Copy, Clone, Eq, PartialEq, Debug, Structural)]
pub enum DataSourceError {
    /// Couldn't open the data file.
    FileOpen,
    /// Couldn't copy the data to the target file descriptor.
    Copy,
}

/// Errors that can occur for copying and clearing the clipboard.
#[derive(Copy, Clone, Debug)]
pub enum Error {
    /// There are no seats.
    NoSeats,
    /// Couldn't open the provided Wayland socket.
    SocketOpenError,
    /// Couldn't connect to the Wayland compositor.
    WaylandConnection,
    /// Wayland compositor communication error.
    WaylandCommunication,
    /// A required Wayland protocol is not supported by the compositor.
    MissingProtocol { name: &'static str, version: u32 },
    /// The compositor does not support primary selection.
    PrimarySelectionUnsupported,
    /// The requested seat was not found.
    SeatNotFound,
    /// Error copying the source into a temporary file.
    TempCopy(SourceCreationError),
    /// Couldn't remove the temporary file.
    TempFileRemove,
    /// Couldn't remove the temporary directory.
    TempDirRemove,
    /// Error satisfying a paste request.
    Paste(DataSourceError),
}

/// The copy error that stands for an error of the bootstrap.
pub open spec fn from_common(x: common::Error) -> Error {
    match x {
        common::Error::SocketOpenError => Error::SocketOpenError,
        common::Error::WaylandConnection => Error::WaylandConnection,
        common::Error::WaylandCommunication => Error::WaylandCommunication,
        common::Error::MissingProtocol { version } => Error::MissingProtocol {
            name: "zwlr_data_control_manager_v1",
            version,
        },
    }
}

impl From<common::Error> for Error {
    fn from(x: common::Error) -> (r: Self) {
        match x {
            common::Error::SocketOpenError => Error::SocketOpenError,
            common::Error::WaylandConnection => Error::WaylandConnection,
            common::Error::WaylandCommunication => Error::WaylandCommunication,
            common::Error::MissingProtocol { version } => Error::MissingProtocol {
                name: "zwlr_data_control_manager_v1",
                version,
            },
        }
    }
}

impl FromSpecImpl<common::Error> for Error {
    open spec fn obeys_from_spec() -> bool {
        true
    }

    open spec fn from_spec(x: common::Error) -> Self {
        from_common(x)
    }
}

/// The MIME type that stands for `MimeType::Text`.
pub open spec fn plain_text() -> Seq<char> {
    "text/plain"@
}

/// The MIME type under which a source is staged, given what sniffing its
/// contents found: `None` where sniffing found nothing.
pub open spec fn resolved_mime_type(mime_type: MimeType, detected: Option<String>) -> Result<
    Seq<char>,
    SourceCreationError,
> {
    match mime_type {
        MimeType::Autodetect => match detected {
            Some(found) => Ok(found@),
            None => Err(SourceCreationError::TempFileOpen),
        },
        MimeType::Text => Ok(plain_text()),
        MimeType::Specific(given) => Ok(given@),
    }
}

/// Resolves the MIME type to stage a source under.
///
/// `detected` is what sniffing the staged contents found; it is only looked at
/// for `Autodetect`, which fails with `TempFileOpen` where nothing was found.
pub fn resolve_mime_type(mime_type: MimeType, detected: Option<String>) -> (r: Result<
    String,
    SourceCreationError,
>)
    ensures
        match resolved_mime_type(mime_type, detected) {
            Ok(m) => r matches Ok(s) && s@ == m,
            Err(e) => r == Err::<String, SourceCreationError>(e),
        },
{
    match mime_type {
        MimeType::Autodetect => match detected {
            Some(found) => Ok(found),
            None => Err(SourceCreationError::TempFileOpen),
        },
        MimeType::Text => Ok("text/plain".to_owned()),
        MimeType::Specific(given) => Ok(given),
    }
}

/// How many bytes of a payload are staged: all of them, or all but one trailing
/// newline where trimming was asked for and the MIME type is plain text.
pub open spec fn trimmed_len(data: Seq<u8>, trim_newline: bool, mime_type: Seq<char>) -> int {
    if trim_newline && is_text_spec(mime_type) && data.len() > 0 && data.last() == 0x0au8 {
        data.len() - 1
    } else {
        data.len() as int
    }
}

/// The length to which a staged payload is cut, from its length and its last byte.
///
/// `last_byte` is only looked at where `length` is not zero.
pub fn staged_length(length: u64, last_byte: u8, trim_newline: bool, mime_type: &str) -> (r: u64)
    ensures
        r == if trim_newline && is_text_spec(mime_type@) && length > 0 && last_byte == 0x0au8 {
            length - 1
        } else {
            length as int
        },
{
    if trim_newline && is_text(mime_type) && length > 0 && last_byte == 0x0au8 {
        length - 1
    } else {
        length
    }
}

/// The bytes that a source brings: its own, or those read from standard input.
pub open spec fn source_bytes(source: Source, stdin: Seq<u8>) -> Seq<u8> {
    match source {
        Source::StdIn => stdin,
        Source::Bytes(data) => data@,
    }
}

/// Stages one source in memory: resolves its MIME type and trims its payload.
///
/// `stdin` holds the bytes read from standard input, which stand for a
/// `Source::StdIn`, and `detected` is what sniffing the payload found.
pub fn make_source(
    source: Source,
    mime_type: MimeType,
    trim_newline: bool,
    stdin: Vec<u8>,
    detected: Option<String>,
) -> (r: Result<(String, Vec<u8>), SourceCreationError>)
    ensures
        match resolved_mime_type(mime_type, detected) {
            Ok(m) => r matches Ok((s, payload)) && s@ == m && payload@ == source_bytes(
                source,
                stdin@,
            ).take(trimmed_len(source_bytes(source, stdin@), trim_newline, m)),
            Err(e) => r matches Err(f) && f == e,
        },
{
    let mut data = match source {
        Source::StdIn => stdin,
        Source::Bytes(data) => data,
    };
    let ghost bytes = data@;
    let mime_type = match resolve_mime_type(mime_type, detected) {
        Ok(m) => m,
        Err(e) => {
            return Err(e);
        },
    };
    let n = data.len();
    if n > 0 {
        let last = data[n - 1];
        let keep = staged_length(n as u64, last, trim_newline, mime_type.as_str());
        if keep < n as u64 {
            data.pop();
        }
    }
    assert(data@ =~= bytes.take(trimmed_len(bytes, trim_newline, mime_type@)));
    Ok((mime_type, data))
}

/// The staged payloads: which staging answers for each MIME type.
///
/// A staging is known by the position of its source in the list that was
/// copied. Each MIME type is listed once.
#[derive(Clone, Debug)]
pub struct DataPaths {
    /// The MIME types on offer, in the order in which they were registered.
    pub mime_types: Vec<String>,
    /// For each of them, the staging that answers for it.
    pub staged: Vec<usize>,
}

impl DataPaths {
    /// Each MIME type has one staging, and none is listed twice.
    pub open spec fn wf(&self) -> bool {
        &&& self.mime_types@.len() == self.staged@.len()
        &&& distinct(texts(self.mime_types@))
    }

    /// The staging that answers for a MIME type.
    pub open spec fn lookup(&self, mime_type: Seq<char>) -> Option<int> {
        match first_where(texts(self.mime_types@), is_key(mime_type)) {
            Some(i) => Some(self.staged@[i] as int),
            None => None,
        }
    }

    /// Nothing staged.
    pub fn new() -> (r: Self)
        ensures
            r.wf(),
            r.mime_types@.len() == 0,
            forall|k: Seq<char>| r.lookup(k) is None,
    {
        let r = DataPaths { mime_types: Vec::new(), staged: Vec::new() };
        proof {
            assert forall|k: Seq<char>| r.lookup(k) is None by {
                lemma_first_where_absent(texts(r.mime_types@), is_key(k));
            }
        }
        r
    }

    /// The staging that answers for a MIME type, if one does.
    pub fn get(&self, mime_type: &str) -> (r: Option<usize>)
        requires
            self.wf(),
        ensures
            match r {
                Some(i) => self.lookup(mime_type@) == Some(i as int),
                None => self.lookup(mime_type@) is None,
            },
    {
        proof {
            lemma_first_where_is_first(texts(self.mime_types@), is_key(mime_type@));
        }
        match position(&self.mime_types, mime_type) {
            Some(i) => Some(self.staged[i]),
            None => None,
        }
    }

    /// Whether a MIME type is on offer.
    pub fn contains_key(&self, mime_type: &str) -> (r: bool)
        requires
            self.wf(),
        ensures
            r == self.lookup(mime_type@) is Some,
    {
        self.get(mime_type).is_some()
    }

    /// Registers a staging under a MIME type unless the MIME type is taken, and
    /// says whether it did: the first staging of a MIME type stays.
    pub fn insert_vacant(&mut self, mime_type: String, staged: usize) -> (inserted: bool)
        requires
            old(self).wf(),
        ensures
            final(self).wf(),
            inserted == old(self).lookup(mime_type@) is None,
            forall|k: Seq<char>|
                #[trigger] final(self).lookup(k) == if inserted && k == mime_type@ {
                    Some(staged as int)
                } else {
                    old(self).lookup(k)
                },
            !inserted ==> *final(self) == *old(self),
            inserted ==> final(self).mime_types@ == old(self).mime_types@.push(mime_type)
                && final(self).staged@ == old(self).staged@.push(staged),
    {
        if self.contains_key(mime_type.as_str()) {
            return false;
        }
        let ghost before = texts(self.mime_types@);
        proof {
            lemma_first_where_is_first(before, is_key(mime_type@));
        }
        self.mime_types.push(mime_type);
        self.staged.push(staged);
        proof {
            let after = texts(self.mime_types@);
            assert(after =~= before.push(mime_type@));
            assert forall|k: Seq<char>| #[trigger]
                self.lookup(k) == if k == mime_type@ {
                    Some(staged as int)
                } else {
                    old(self).lookup(k)
                } by {
                lemma_first_where_push(before, mime_type@, is_key(k));
                lemma_first_where_is_first(before, is_key(k));
            }
            assert forall|i: int, j: int| 0 <= i < j < after.len() implies after[i] != after[j] by {
                if j == before.len() {
                    assert(!is_key(mime_type@)(before[i]));
                }
            }
        }
        true
    }
}

/// The five MIME types under which plain text is offered besides its own.
pub open spec fn is_text_alias(mime_type: Seq<char>) -> bool {
    ||| mime_type == "text/plain;charset=utf-8"@
    ||| mime_type == "text/plain"@
    ||| mime_type == "STRING"@
    ||| mime_type == "UTF8_STRING"@
    ||| mime_type == "TEXT"@
}

/// The source that answers for a MIME type, among sources staged under
/// `mime_types`, by position.
///
/// The first source staged under the MIME type answers. For one of the five
/// plain-text MIME types that no source was staged under, the first source with
/// a plain-text MIME type answers, unless `omit` is set.
pub open spec fn staged_lookup(mime_types: Seq<Seq<char>>, omit: bool, key: Seq<char>) -> Option<
    int,
> {
    match first_where(mime_types, is_key(key)) {
        Some(i) => Some(i),
        None => if !omit && is_text_alias(key) {
            first_where(mime_types, names_text())
        } else {
            None
        },
    }
}

/// Whether `data_paths` is what staging sources under `mime_types` gives.
pub open spec fn stages(data_paths: DataPaths, mime_types: Seq<Seq<char>>, omit: bool) -> bool {
    &&& data_paths.wf()
    &&& forall|k: Seq<char>| #[trigger]
        data_paths.lookup(k) == staged_lookup(mime_types, omit, k)
}

/// Whether the source at `i` is the first that was staged under its MIME type.
pub open spec fn is_first_of_its_type(mime_types: Seq<Seq<char>>, i: int) -> bool {
    first_where(mime_types, is_key(mime_types[i])) == Some(i)
}

/// The staged payloads while sources are still being staged, one after another.
#[derive(Clone, Debug)]
pub struct Staging {
    data_paths: DataPaths,
    mime_types: Vec<String>,
}

impl Staging {
    /// The map holds the first source of each MIME type staged so far, and nothing else.
    pub closed spec fn inv(&self) -> bool {
        &&& self.data_paths.wf()
        &&& forall|k: Seq<char>| #[trigger]
            self.data_paths.lookup(k) == first_where(texts(self.mime_types@), is_key(k))
    }

    /// The MIME types of the sources staged so far, in their order.
    pub closed spec fn staged(&self) -> Seq<Seq<char>> {
        texts(self.mime_types@)
    }

    /// Nothing staged yet.
    pub fn new() -> (r: Self)
        ensures
            r.inv(),
            r.staged().len() == 0,
    {
        let r = Staging { data_paths: DataPaths::new(), mime_types: Vec::new() };
        proof {
            assert forall|k: Seq<char>| #[trigger]
                r.data_paths.lookup(k) == first_where(texts(r.mime_types@), is_key(k)) by {
                lemma_first_where_absent(texts(r.mime_types@), is_key(k));
            }
        }
        r
    }

    /// Registers the next source under its MIME type, and says whether its
    /// staging is kept: it is not where an earlier source has the MIME type, and
    /// is then to be reclaimed at once.
    pub fn stage(&mut self, mime_type: String) -> (kept: bool)
        requires
            old(self).inv(),
        ensures
            final(self).inv(),
            final(self).staged() == old(self).staged().push(mime_type@),
            kept == !has_key(old(self).staged(), mime_type@),
    {
        let ghost before = texts(self.mime_types@);
        let ghost paths = self.data_paths;
        let i = self.mime_types.len();
        let kept = self.data_paths.insert_vacant(mime_type.clone(), i);
        self.mime_types.push(mime_type);
        proof {
            assert(texts(self.mime_types@) =~= before.push(mime_type@));
            assert forall|k: Seq<char>| #[trigger]
                self.data_paths.lookup(k) == first_where(texts(self.mime_types@), is_key(k)) by {
                lemma_first_where_push(before, mime_type@, is_key(k));
                assert(paths.lookup(k) == first_where(before, is_key(k)));
            }
        }
        kept
    }

    /// Ends staging: unless `omit` is set, the first plain-text source also
    /// answers for those of the five common plain-text MIME types that no source
    /// claims.
    pub fn finish(self, omit: bool) -> (data_paths: DataPaths)
        requires
            self.inv(),
        ensures
            stages(data_paths, self.staged(), omit),
    {
        let mut data_paths = self.data_paths;
        if !omit {
            if let Some(t) = first_text(&self.mime_types) {
                data_paths.insert_vacant("text/plain;charset=utf-8".to_owned(), t);
                data_paths.insert_vacant("text/plain".to_owned(), t);
                data_paths.insert_vacant("STRING".to_owned(), t);
                data_paths.insert_vacant("UTF8_STRING".to_owned(), t);
                data_paths.insert_vacant("TEXT".to_owned(), t);
            }
        }
        data_paths
    }
}

/// Builds the map of staged payloads for sources staged under `mime_types`, and
/// says for each source whether its staging is kept.
///
/// A source whose MIME type an earlier source has is not kept: its staging is
/// to be reclaimed at once. Unless `omit` is set, the first plain-text source
/// also answers for those of the five common plain-text MIME types that no
/// source claims.
pub fn stage_mime_types(mime_types: &Vec<String>, omit: bool) -> (r: (DataPaths, Vec<bool>))
    ensures
        stages(r.0, texts(mime_types@), omit),
        r.1@.len() == mime_types@.len(),
        forall|i: int|
            0 <= i < mime_types@.len() ==> r.1@[i] == is_first_of_its_type(texts(mime_types@), i),
{
    let ghost all = texts(mime_types@);
    let mut staging = Staging::new();
    let mut kept: Vec<bool> = Vec::new();
    let mut i: usize = 0;
    while i < mime_types.len()
        invariant
            all == texts(mime_types@),
            i <= mime_types.len(),
            staging.inv(),
            staging.staged() == all.take(i as int),
            kept@.len() == i,
            forall|j: int| 0 <= j < i ==> kept@[j] == is_first_of_its_type(all, j),
        decreases mime_types.len() - i,
    {
        proof {
            assert(all.take(i + 1) =~= all.take(i as int).push(all[i as int]));
            lemma_first_where_is_first(all.take(i as int), is_key(all[i as int]));
            lemma_first_where_is_first(all, is_key(all[i as int]));
        }
        let inserted = staging.stage(mime_types[i].clone());
        proof {
            if inserted {
                assert(first_at(all, is_key(all[i as int]), i as int)) by {
                    assert forall|j: int| 0 <= j < i implies !is_key(all[i as int])(
                        #[trigger] all[j],
                    ) by {
                        assert(all.take(i as int)[j] == all[j]);
                    }
                }
                lemma_first_where_found(all, is_key(all[i as int]), i as int);
            } else {
                let j = first_where(all.take(i as int), is_key(all[i as int])).unwrap();
                assert(all.take(i as int)[j] == all[j]);
                lemma_some_first(all, is_key(all[i as int]), j);
            }
        }
        kept.push(inserted);
        i += 1;
    }
    proof {
        assert(all.take(all.len() as int) =~= all);
    }
    (staging.finish(omit), kept)
}

/// The state of a copy: the seats, what is staged, and how serving stands.
#[derive(Clone, Debug)]
pub struct State {
    pub common: common::State,
    pub got_primary_selection: bool,
    /// Set while serving, once an error occurred or the last of a limited number
    /// of requests was served.
    pub should_quit: bool,
    pub data_paths: DataPaths,
    pub serve_requests: ServeRequests,
    /// An error that occurred while serving a request, if any.
    pub error: Option<DataSourceError>,
}

/// What to do about a `send` event.
#[derive(Copy, Clone, Eq, PartialEq, Debug, Structural)]
pub enum SendAction {
    /// Serving is over: destroy the source that was asked, and send nothing.
    DestroySource,
    /// The MIME type is not on offer: send nothing.
    Ignore,
    /// Send the payload of the given staging.
    Transfer(usize),
}

/// Whether a seat is one that a selector names.
pub open spec fn seat_matches(seat: Seat, data: SeatData) -> bool {
    match seat {
        Seat::All => true,
        Seat::Specific(desired) => data.name matches Some(n) && n@ == desired@,
    }
}

/// The devices of the seats that a selector names, in the order of the seats.
/// A seat without a device brings none.
pub open spec fn targeted_devices(seat: Seat, seats: Seq<common::SeatEntry>) -> Seq<Device>
    decreases seats.len(),
{
    if seats.len() == 0 {
        Seq::empty()
    } else {
        let rest = targeted_devices(seat, seats.drop_last());
        let data = seats.last().data;
        if seat_matches(seat, data) && data.device is Some {
            rest.push(data.device.unwrap())
        } else {
            rest
        }
    }
}

/// The devices to work on, or why there are none.
pub open spec fn get_devices_spec(primary: bool, seat: Seat, state: State) -> Result<
    Seq<Device>,
    Error,
> {
    if state.common.seats@.len() == 0 {
        Err(Error::NoSeats)
    } else if primary && !state.got_primary_selection {
        Err(Error::PrimarySelectionUnsupported)
    } else if targeted_devices(seat, state.common.seats@).len() == 0 {
        Err(Error::SeatNotFound)
    } else {
        Ok(targeted_devices(seat, state.common.seats@))
    }
}

/// The requests that clear the clipboards of the given devices: for each device
/// in turn, the primary selection where it is meant, then the regular one.
pub open spec fn clear_requests(clipboard: ClipboardType, devices: Seq<Device>) -> Seq<Request>
    decreases devices.len(),
{
    if devices.len() == 0 {
        Seq::empty()
    } else {
        let rest = clear_requests(clipboard, devices.drop_last());
        let device = devices.last();
        let primary = Request::SetPrimarySelection { device, source: None };
        let regular = Request::SetSelection { device, source: None };
        match clipboard {
            ClipboardType::Regular => rest.push(regular),
            ClipboardType::Primary => rest.push(primary),
            ClipboardType::Both => rest.push(primary).push(regular),
        }
    }
}

/// The selections to install a source for: one for each device, or two where
/// both clipboards are meant, the regular one first. The flag says whether the
/// primary selection is meant.
pub open spec fn targets_spec(clipboard: ClipboardType, devices: Seq<Device>) -> Seq<
    (Device, bool),
>
    decreases devices.len(),
{
    if devices.len() == 0 {
        Seq::empty()
    } else {
        let rest = targets_spec(clipboard, devices.drop_last());
        let device = devices.last();
        match clipboard {
            ClipboardType::Regular => rest.push((device, false)),
            ClipboardType::Primary => rest.push((device, true)),
            ClipboardType::Both => rest.push((device, false)).push((device, true)),
        }
    }
}

impl State {
    /// What is to be done about a `send` event for a MIME type.
    pub open spec fn send_action(&self, mime_type: Seq<char>) -> SendAction {
        if self.should_quit {
            SendAction::DestroySource
        } else {
            match self.data_paths.lookup(mime_type) {
                Some(i) => SendAction::Transfer(i as usize),
                None => SendAction::Ignore,
            }
        }
    }

    /// The number of requests left to serve after one more.
    pub open spec fn requests_left(&self) -> ServeRequests {
        match self.serve_requests {
            ServeRequests::Only(left) => ServeRequests::Only((left - 1) as usize),
            ServeRequests::Unlimited => ServeRequests::Unlimited,
        }
    }

    /// Whether serving is over once a transfer ended with `result`.
    pub open spec fn ends_with(&self, result: Result<(), DataSourceError>) -> bool {
        self.requests_left() == ServeRequests::Only(0) || result is Err || self.error is Some
    }

    /// The state after a transfer that ended with `result`.
    pub open spec fn served(&self, result: Result<(), DataSourceError>) -> State {
        State {
            error: match result {
                Err(e) => Some(e),
                Ok(_) => self.error,
            },
            serve_requests: self.requests_left(),
            should_quit: self.should_quit || self.ends_with(result),
            ..*self
        }
    }

    /// The state before any event: nothing staged, nothing served.
    pub fn new(common: common::State) -> (r: Self)
        ensures
            r.common == common,
            !r.got_primary_selection,
            !r.should_quit,
            r.data_paths.wf(),
            r.data_paths.mime_types@.len() == 0,
            r.serve_requests == ServeRequests::Unlimited,
            r.error is None,
    {
        State {
            common,
            got_primary_selection: false,
            should_quit: false,
            data_paths: DataPaths::new(),
            serve_requests: ServeRequests::Unlimited,
            error: None,
        }
    }

    /// Handles an event of the device of `seat`, and hands back the request to
    /// send in answer, if any.
    ///
    /// A copy has no use for offers: each new one is destroyed at once.
    /// `finished` empties the seat's device slot and destroys the device. A
    /// primary selection event records that the compositor supports the primary
    /// selection.
    pub fn device_event(&mut self, seat: u32, event: DeviceEvent) -> (request: Option<Request>)
        requires
            event is Finished ==> old(self).common.has_seat(seat),
        ensures
            final(self).should_quit == old(self).should_quit,
            final(self).data_paths == old(self).data_paths,
            final(self).serve_requests == old(self).serve_requests,
            final(self).error == old(self).error,
            final(self).got_primary_selection == (old(self).got_primary_selection
                || event is PrimarySelection),
            match event {
                DeviceEvent::DataOffer { id } => request == Some(Request::DestroyOffer(id))
                    && final(self).common == old(self).common,
                DeviceEvent::Finished => {
                    let data = old(self).common.seats@[old(self).common.seat_index(seat)].data;
                    &&& final(self).common.updated(
                        &old(self).common,
                        seat,
                        SeatData { device: None, ..data },
                    )
                    &&& request == match data.device {
                        Some(d) => Some(Request::DestroyDevice(d)),
                        None => None,
                    }
                },
                _ => request is None && final(self).common == old(self).common,
            },
    {
        match event {
            DeviceEvent::DataOffer { id } => Some(id.destroy()),
            DeviceEvent::Finished => {
                let i = self.common.find_seat(seat).unwrap();
                proof {
                    lemma_first_where_is_first(self.common.seats@, common::is_seat(seat));
                }
                let replaced = self.common.seats[i].data.set_device(None);
                assert(self.common.seats@ =~= old(self).common.seats@.update(
                    i as int,
                    common::SeatEntry {
                        seat,
                        data: SeatData { device: None, ..old(self).common.seats@[i as int].data },
                    },
                ));
                match replaced {
                    Some(d) => Some(d.destroy()),
                    None => None,
                }
            },
            DeviceEvent::PrimarySelection { .. } => {
                self.got_primary_selection = true;
                None
            },
            DeviceEvent::Selection { .. } => None,
        }
    }

    /// Decides what to do about a `send` event for a MIME type.
    ///
    /// Once serving is over the source is destroyed. A MIME type that is not on
    /// offer is passed over: that the compositor checked it is not taken for
    /// granted. Else the payload staged for the MIME type is to be sent.
    pub fn send(&self, mime_type: &str) -> (action: SendAction)
        requires
            self.data_paths.wf(),
        ensures
            action == self.send_action(mime_type@),
    {
        if self.should_quit {
            return SendAction::DestroySource;
        }
        match self.data_paths.get(mime_type) {
            Some(i) => SendAction::Transfer(i),
            None => SendAction::Ignore,
        }
    }

    /// Records how a transfer went, and says whether the source that was asked
    /// is to be destroyed.
    ///
    /// A failure is recorded. A limited number of requests is one less; where
    /// none is left, or an error is on record, serving is over and the source
    /// goes.
    pub fn transfer_done(&mut self, result: Result<(), DataSourceError>) -> (destroy: bool)
        requires
            old(self).serve_requests != ServeRequests::Only(0),
        ensures
            *final(self) == old(self).served(result),
            destroy == old(self).ends_with(result),
    {
        if let Err(err) = result {
            self.error = Some(err);
        }
        let done = if let ServeRequests::Only(left) = self.serve_requests {
            let left = left - 1;
            self.serve_requests = ServeRequests::Only(left);
            left == 0
        } else {
            false
        };
        if done || self.error.is_some() {
            self.should_quit = true;
            true
        } else {
            false
        }
    }

    /// Notes which sources are still alive after a dispatch, and says whether
    /// serving is over: it is once no source is left alive.
    pub fn after_dispatch(&mut self, alive: &Vec<bool>) -> (quit: bool)
        ensures
            quit == final(self).should_quit,
            final(self).should_quit == (old(self).should_quit || forall|i: int|
                0 <= i < alive@.len() ==> !alive@[i]),
            *final(self) == (State { should_quit: final(self).should_quit, ..*old(self) }),
    {
        let mut all_destroyed = true;
        let mut i: usize = 0;
        while i < alive.len()
            invariant
                i <= alive.len(),
                all_destroyed == forall|j: int| 0 <= j < i ==> !alive@[j],
            decreases alive.len() - i,
        {
            if alive[i] {
                all_destroyed = false;
            }
            i += 1;
        }
        if all_destroyed {
            self.should_quit = true;
        }
        self.should_quit
    }

    /// Lists the stagings to remove once serving is over, each one once even
    /// where it answers for several MIME types.
    pub fn cleanup_order(&self) -> (r: Vec<usize>)
        ensures
            forall|i: int, j: int| 0 <= i < j < r@.len() ==> r@[i] != r@[j],
            forall|x: usize| r@.contains(x) <==> self.data_paths.staged@.contains(x),
    {
        let staged = &self.data_paths.staged;
        let mut dropped: Vec<usize> = Vec::new();
        let mut i: usize = 0;
        while i < staged.len()
            invariant
                i <= staged.len(),
                forall|a: int, b: int| 0 <= a < b < dropped@.len() ==> dropped@[a] != dropped@[b],
                forall|y: usize| dropped@.contains(y) <==> staged@.take(i as int).contains(y),
            decreases staged.len() - i,
        {
            let x = staged[i];
            let ghost before = dropped@;
            let mut seen = false;
            let mut k: usize = 0;
            while k < dropped.len()
                invariant
                    k <= dropped.len(),
                    dropped@ == before,
                    seen == exists|j: int| 0 <= j < k && dropped@[j] == x,
                decreases dropped.len() - k,
            {
                if dropped[k] == x {
                    seen = true;
                }
                k += 1;
            }
            if !seen {
                dropped.push(x);
            }
            proof {
                let prefix = staged@.take(i as int);
                let longer = staged@.take(i + 1);
                assert(longer =~= prefix.push(x));
                assert forall|y: usize| dropped@.contains(y) <==> longer.contains(y) by {
                    if dropped@.contains(y) {
                        let j = choose|j: int| 0 <= j < dropped@.len() && dropped@[j] == y;
                        if j < before.len() {
                            assert(before[j] == y);
                            assert(before.contains(y));
                            let m = choose|m: int| 0 <= m < prefix.len() && prefix[m] == y;
                            assert(longer[m] == y);
                        } else {
                            assert(longer[i as int] == y);
                        }
                    }
                    if longer.contains(y) {
                        let m = choose|m: int| 0 <= m < longer.len() && longer[m] == y;
                        if m < i {
                            assert(prefix[m] == y);
                            assert(prefix.contains(y));
                            assert(before.contains(y));
                            let j = choose|j: int| 0 <= j < before.len() && before[j] == y;
                            assert(dropped@[j] == y);
                        } else if seen {
                            assert(y == x);
                            let j = choose|j: int| 0 <= j < before.len() && before[j] == x;
                            assert(dropped@[j] == y);
                        } else {
                            assert(dropped@[before.len() as int] == y);
                        }
                    }
                }
            }
            i += 1;
        }
        proof {
            assert(staged@.take(staged@.len() as int) =~= staged@);
        }
        dropped
    }

    /// The result of serving, from how the removal of each staging went.
    ///
    /// Every removal is tried; the first that failed is reported. Where all went
    /// well, an error on record from a transfer is reported as `Paste`.
    pub fn finish(&self, outcomes: &Vec<CleanupOutcome>) -> (r: Result<(), Error>)
        ensures
            match first_where(outcomes@, failed()) {
                Some(i) => r matches Err(e) && e == if outcomes@[i] == CleanupOutcome::FileFailed {
                    Error::TempFileRemove
                } else {
                    Error::TempDirRemove
                },
                None => match self.error {
                    Some(e) => r matches Err(f) && f == Error::Paste(e),
                    None => r is Ok,
                },
            },
    {
        let mut i: usize = 0;
        while i < outcomes.len()
            invariant
                i <= outcomes.len(),
                forall|j: int| 0 <= j < i ==> !failed()(#[trigger] outcomes@[j]),
            decreases outcomes.len() - i,
        {
            match outcomes[i] {
                CleanupOutcome::Removed => {},
                CleanupOutcome::FileFailed => {
                    proof {
                        assert(first_at(outcomes@, failed(), i as int));
                        lemma_first_where_found(outcomes@, failed(), i as int);
                    }
                    return Err(Error::TempFileRemove);
                },
                CleanupOutcome::DirectoryFailed => {
                    proof {
                        assert(first_at(outcomes@, failed(), i as int));
                        lemma_first_where_found(outcomes@, failed(), i as int);
                    }
                    return Err(Error::TempDirRemove);
                },
            }
            i += 1;
        }
        proof {
            lemma_first_where_absent(outcomes@, failed());
        }
        match self.error {
            Some(e) => Err(Error::Paste(e)),
            None => Ok(()),
        }
    }
}

/// The request that answers a `cancelled` event: the source goes, whatever the state.
pub fn cancelled(source: DataSource) -> (request: Request)
    ensures
        request == Request::DestroySource(source),
{
    source.destroy()
}

/// Whether a seat is one that the selector names.
fn seat_selected(seat: &Seat, data: &SeatData) -> (r: bool)
    ensures
        r == seat_matches(*seat, *data),
{
    match seat {
        Seat::All => true,
        Seat::Specific(desired) => match &data.name {
            Some(n) => same_text(n.as_str(), desired.as_str()),
            None => false,
        },
    }
}

/// Finds the devices to work on, once the round trip that follows the creation
/// of the devices has been handled.
///
/// Fails with `NoSeats` without a seat, with `PrimarySelectionUnsupported` where
/// the primary selection is wanted and no device reported one, and with
/// `SeatNotFound` where no seat that the selector names has a device.
pub fn get_devices(primary: bool, seat: &Seat, state: &State) -> (r: Result<Vec<Device>, Error>)
    ensures
        match get_devices_spec(primary, *seat, *state) {
            Ok(devices) => r matches Ok(found) && found@ == devices,
            Err(e) => r matches Err(f) && f == e,
        },
{
    if state.common.seats.len() == 0 {
        return Err(Error::NoSeats);
    }
    if primary && !state.got_primary_selection {
        return Err(Error::PrimarySelectionUnsupported);
    }
    let seats = &state.common.seats;
    let mut devices: Vec<Device> = Vec::new();
    let mut i: usize = 0;
    while i < seats.len()
        invariant
            i <= seats.len(),
            devices@ == targeted_devices(*seat, seats@.take(i as int)),
        decreases seats.len() - i,
    {
        proof {
            assert(seats@.take(i + 1).drop_last() =~= seats@.take(i as int));
        }
        if seat_selected(seat, &seats[i].data) {
            if let Some(device) = seats[i].data.device {
                devices.push(device);
            }
        }
        i += 1;
    }
    proof {
        assert(seats@.take(seats@.len() as int) =~= seats@);
    }
    if devices.len() == 0 {
        return Err(Error::SeatNotFound);
    }
    Ok(devices)
}

/// Works out the requests that clear the clipboard for the given seat, or for all seats.
///
/// The caller sends them and makes one round trip. Fails as [`get_devices`] does,
/// where the primary selection is wanted for `Primary` and for `Both`.
pub fn clear(clipboard: ClipboardType, seat: Seat, state: &State) -> (r: Result<
    Vec<Request>,
    Error,
>)
    ensures
        match get_devices_spec(clipboard != ClipboardType::Regular, seat, *state) {
            Ok(devices) => r matches Ok(requests) && requests@ == clear_requests(
                clipboard,
                devices,
            ),
            Err(e) => r matches Err(f) && f == e,
        },
{
    let primary = clipboard != ClipboardType::Regular;
    let devices = match get_devices(primary, &seat, state) {
        Ok(devices) => devices,
        Err(e) => {
            return Err(e);
        },
    };
    let mut requests: Vec<Request> = Vec::new();
    let mut i: usize = 0;
    while i < devices.len()
        invariant
            i <= devices.len(),
            requests@ == clear_requests(clipboard, devices@.take(i as int)),
        decreases devices.len() - i,
    {
        proof {
            assert(devices@.take(i + 1).drop_last() =~= devices@.take(i as int));
        }
        let device = devices[i];
        if clipboard == ClipboardType::Primary || clipboard == ClipboardType::Both {
            requests.push(device.set_primary_selection(None));
        }
        if clipboard == ClipboardType::Regular || clipboard == ClipboardType::Both {
            requests.push(device.set_selection(None));
        }
        i += 1;
    }
    proof {
        assert(devices@.take(devices@.len() as int) =~= devices@);
    }
    Ok(requests)
}

/// Lists the selections to install a source for.
///
/// A source serves one selection only, so both clipboards take two sources for
/// each device.
pub fn selection_targets(clipboard: ClipboardType, devices: &Vec<Device>) -> (r: Vec<
    (Device, bool),
>)
    ensures
        r@ == targets_spec(clipboard, devices@),
{
    let mut targets: Vec<(Device, bool)> = Vec::new();
    let mut i: usize = 0;
    while i < devices.len()
        invariant
            i <= devices.len(),
            targets@ == targets_spec(clipboard, devices@.take(i as int)),
        decreases devices.len() - i,
    {
        proof {
            assert(devices@.take(i + 1).drop_last() =~= devices@.take(i as int));
        }
        let device = devices[i];
        match clipboard {
            ClipboardType::Regular => targets.push((device, false)),
            ClipboardType::Primary => targets.push((device, true)),
            ClipboardType::Both => {
                targets.push((device, false));
                targets.push((device, true));
            },
        }
        i += 1;
    }
    proof {
        assert(devices@.take(devices@.len() as int) =~= devices@);
    }
    targets
}

/// The requests that offer `mime_types` on a source.
pub open spec fn offer_requests(source: DataSource, mime_types: Seq<String>) -> Seq<Request> {
    Seq::new(mime_types.len(), |i: int| Request::Offer { source, mime_type: mime_types[i] })
}

/// The requests that put a fresh source in place: every MIME type is offered on
/// it, then it becomes the selection, and where no request is to be served it
/// is destroyed right away.
pub open spec fn install_requests(
    device: Device,
    primary: bool,
    source: DataSource,
    mime_types: Seq<String>,
    serve_requests: ServeRequests,
) -> Seq<Request> {
    let set = if primary {
        Request::SetPrimarySelection { device, source: Some(source) }
    } else {
        Request::SetSelection { device, source: Some(source) }
    };
    let wired = offer_requests(source, mime_types).push(set);
    if serve_requests == ServeRequests::Only(0) {
        wired.push(Request::DestroySource(source))
    } else {
        wired
    }
}

/// Works out the requests that install a fresh source as a selection of a device.
pub fn install_source(
    device: Device,
    primary: bool,
    source: DataSource,
    mime_types: &Vec<String>,
    serve_requests: ServeRequests,
) -> (r: Vec<Request>)
    requires
        same_family(device, source),
    ensures
        r@ == install_requests(device, primary, source, mime_types@, serve_requests),
{
    let mut requests: Vec<Request> = Vec::new();
    let mut i: usize = 0;
    while i < mime_types.len()
        invariant
            i <= mime_types.len(),
            requests@ == offer_requests(source, mime_types@.take(i as int)),
        decreases mime_types.len() - i,
    {
        requests.push(source.offer(mime_types[i].clone()));
        assert(requests@ =~= offer_requests(source, mime_types@.take(i + 1)));
        i += 1;
    }
    proof {
        assert(mime_types@.take(mime_types@.len() as int) =~= mime_types@);
    }
    if primary {
        requests.push(device.set_primary_selection(Some(&source)));
    } else {
        requests.push(device.set_selection(Some(&source)));
    }
    if let ServeRequests::Only(0) = serve_requests {
        requests.push(source.destroy());
    }
    requests
}

/// A copy operation ready to start serving requests.
#[derive(Clone, Debug)]
pub struct PreparedCopy {
    /// The state, with what is staged and the number of requests to serve.
    pub state: State,
    /// The selections to install a source for.
    pub targets: Vec<(Device, bool)>,
    /// The sources installed so far, one for each target in turn.
    pub sources: Vec<DataSource>,
    /// The payload of each source that was copied, as it is staged.
    pub payloads: Vec<Vec<u8>>,
}

/// How the removal of one staging went.
#[derive(Copy, Clone, Eq, PartialEq, Debug, Structural)]
pub enum CleanupOutcome {
    /// The file and its directory are gone.
    Removed,
    /// The file could not be removed; its directory was left alone.
    FileFailed,
    /// The file is gone and its directory could not be removed.
    DirectoryFailed,
}

/// The removals that did not go through.
pub open spec fn failed() -> spec_fn(CleanupOutcome) -> bool {
    |o: CleanupOutcome| o != CleanupOutcome::Removed
}

/// The MIME type of each source, or why it could not be staged.
pub open spec fn resolved_all(sources: Seq<MimeSource>, detected: Seq<Option<String>>) -> Seq<
    Result<Seq<char>, SourceCreationError>,
> {
    Seq::new(sources.len(), |i: int| resolved_mime_type(sources[i].mime_type, detected[i]))
}

/// The sources that could not be staged.
pub open spec fn fails() -> spec_fn(Result<Seq<char>, SourceCreationError>) -> bool {
    |r: Result<Seq<char>, SourceCreationError>| r is Err
}

/// The MIME type that each source is staged under, where all can be staged.
pub open spec fn staged_mime_types(sources: Seq<MimeSource>, detected: Seq<Option<String>>) -> Seq<
    Seq<char>,
> {
    Seq::new(
        sources.len(),
        |i: int| resolved_mime_type(sources[i].mime_type, detected[i]).unwrap(),
    )
}

/// The payload of a source as it is staged.
pub open spec fn staged_payload(
    source: MimeSource,
    detected: Option<String>,
    stdin: Seq<u8>,
    trim_newline: bool,
) -> Seq<u8> {
    let bytes = source_bytes(source.source, stdin);
    bytes.take(
        trimmed_len(bytes, trim_newline, resolved_mime_type(source.mime_type, detected).unwrap()),
    )
}

/// Whether `prepared` is the copy of `sources` to `devices` that `options` ask for.
pub open spec fn prepares(
    prepared: PreparedCopy,
    options: Options,
    sources: Seq<MimeSource>,
    stdin: Seq<u8>,
    detected: Seq<Option<String>>,
    state: State,
    devices: Seq<Device>,
) -> bool {
    &&& stages(
        prepared.state.data_paths,
        staged_mime_types(sources, detected),
        options.omit_additional_text_mime_types,
    )
    &&& prepared.wf()
    &&& prepared.payloads@.len() == sources.len()
    &&& forall|i: int|
        0 <= i < sources.len() ==> (#[trigger] prepared.payloads@[i])@ == staged_payload(
            sources[i],
            detected[i],
            stdin,
            options.trim_newline,
        )
    &&& prepared.targets@ == targets_spec(options.clipboard, devices)
    &&& prepared.sources@.len() == 0
    &&& prepared.state.serve_requests == options.serve_requests
    &&& prepared.state.common == state.common
    &&& prepared.state.got_primary_selection == state.got_primary_selection
    &&& prepared.state.should_quit == state.should_quit
    &&& prepared.state.error == state.error
}

/// Every staging that the map names is the position of a source.
pub proof fn lemma_staged_in_range(data_paths: DataPaths, mime_types: Seq<Seq<char>>, omit: bool)
    requires
        stages(data_paths, mime_types, omit),
    ensures
        forall|i: int|
            0 <= i < data_paths.staged@.len() ==> 0 <= #[trigger] data_paths.staged@[i]
                < mime_types.len(),
{
    let keys = texts(data_paths.mime_types@);
    assert forall|i: int| 0 <= i < data_paths.staged@.len() implies 0
        <= #[trigger] data_paths.staged@[i] < mime_types.len() by {
        let k = keys[i];
        assert(first_at(keys, is_key(k), i));
        lemma_first_where_found(keys, is_key(k), i);
        assert(data_paths.lookup(k) == staged_lookup(mime_types, omit, k));
        lemma_first_where_is_first(mime_types, is_key(k));
        lemma_first_where_is_first(mime_types, names_text());
    }
}

/// A copy of a payload.
fn clone_bytes(data: &Vec<u8>) -> (r: Vec<u8>)
    ensures
        r@ == data@,
{
    let mut r: Vec<u8> = Vec::new();
    let mut i: usize = 0;
    while i < data.len()
        invariant
            i <= data.len(),
            r@ == data@.take(i as int),
        decreases data.len() - i,
    {
        r.push(data[i]);
        assert(r@ =~= data@.take(i + 1));
        i += 1;
    }
    assert(data@.take(data@.len() as int) =~= data@);
    r
}

/// A copy of a source.
fn clone_source(source: &Source) -> (r: Source)
    ensures
        forall|stdin: Seq<u8>| source_bytes(r, stdin) == source_bytes(*source, stdin),
{
    match source {
        Source::StdIn => Source::StdIn,
        Source::Bytes(data) => Source::Bytes(clone_bytes(data)),
    }
}

/// A copy of a MIME type.
fn clone_mime_type(mime_type: &MimeType) -> (r: MimeType)
    ensures
        r == *mime_type,
{
    match mime_type {
        MimeType::Autodetect => MimeType::Autodetect,
        MimeType::Text => MimeType::Text,
        MimeType::Specific(given) => MimeType::Specific(given.clone()),
    }
}

/// Whether `r` is how copying `sources` with `options` ends.
///
/// It fails as [`get_devices`] does, and with `TempCopy` for the first source
/// that cannot be staged; else it is the copy that [`prepares`] describes.
pub open spec fn copies(
    r: Result<PreparedCopy, Error>,
    options: Options,
    sources: Seq<MimeSource>,
    stdin: Seq<u8>,
    detected: Seq<Option<String>>,
    state: State,
) -> bool {
    match get_devices_spec(options.clipboard != ClipboardType::Regular, options.seat, state) {
        Err(e) => r matches Err(f) && f == e,
        Ok(devices) => match first_where(resolved_all(sources, detected), fails()) {
            Some(i) => r matches Err(f) && f == Error::TempCopy(
                resolved_all(sources, detected)[i]->Err_0,
            ),
            None => r matches Ok(prepared) && prepares(
                prepared,
                options,
                sources,
                stdin,
                detected,
                state,
                devices,
            ),
        },
    }
}

/// Copies data to the clipboard, offering multiple data sources.
///
/// The data from each source in `sources` is staged under the corresponding
/// MIME type. If multiple sources specify the same MIME type, the first one is
/// offered. If one of the MIME types is text, all automatically added plain text
/// offers fall back to the first source with a text MIME type.
///
/// `state` is the state after the round trip that follows the creation of the
/// devices, `stdin` what standard input held, and `detected` what sniffing each
/// source's contents found. The result lists the selections that each need a
/// source; [`PreparedCopy::install`] wires them. Serving, in this thread or in
/// one of its own as `foreground` says, is the caller's to do.
///
/// Fails as [`get_devices`] does, and with `TempCopy` for the first source that
/// cannot be staged.
pub fn copy_multi(
    options: Options,
    sources: Vec<MimeSource>,
    stdin: Vec<u8>,
    detected: Vec<Option<String>>,
    state: State,
) -> (r: Result<PreparedCopy, Error>)
    requires
        detected@.len() == sources@.len(),
    ensures
        copies(r, options, sources@, stdin@, detected@, state),
{
    let primary = options.clipboard != ClipboardType::Regular;
    let devices = match get_devices(primary, &options.seat, &state) {
        Ok(devices) => devices,
        Err(e) => {
            return Err(e);
        },
    };
    let ghost outcomes = resolved_all(sources@, detected@);
    let mut mime_types: Vec<String> = Vec::new();
    let mut payloads: Vec<Vec<u8>> = Vec::new();
    let mut i: usize = 0;
    while i < sources.len()
        invariant
            i <= sources.len(),
            detected@.len() == sources@.len(),
            get_devices_spec(
                options.clipboard != ClipboardType::Regular,
                options.seat,
                state,
            ) is Ok,
            outcomes == resolved_all(sources@, detected@),
            forall|j: int| 0 <= j < i ==> !fails()(#[trigger] outcomes[j]),
            mime_types@.len() == i,
            payloads@.len() == i,
            forall|j: int|
                0 <= j < i ==> (#[trigger] mime_types@[j])@ == staged_mime_types(
                    sources@,
                    detected@,
                )[j],
            forall|j: int|
                0 <= j < i ==> (#[trigger] payloads@[j])@ == staged_payload(
                    sources@[j],
                    detected@[j],
                    stdin@,
                    options.trim_newline,
                ),
        decreases sources.len() - i,
    {
        let found = match &detected[i] {
            Some(m) => Some(m.clone()),
            None => None,
        };
        proof {
            assert(found == detected@[i as int]);
            assert(outcomes[i as int] == resolved_mime_type(
                sources@[i as int].mime_type,
                detected@[i as int],
            ));
        }
        let staged = make_source(
            clone_source(&sources[i].source),
            clone_mime_type(&sources[i].mime_type),
            options.trim_newline,
            clone_bytes(&stdin),
            found,
        );
        match staged {
            Ok((mime_type, payload)) => {
                mime_types.push(mime_type);
                payloads.push(payload);
            },
            Err(e) => {
                proof {
                    assert(first_at(outcomes, fails(), i as int));
                    lemma_first_where_found(outcomes, fails(), i as int);
                }
                return Err(Error::TempCopy(e));
            },
        }
        i += 1;
    }
    proof {
        lemma_first_where_absent(outcomes, fails());
        assert(texts(mime_types@) =~= staged_mime_types(sources@, detected@));
    }
    let (data_paths, _) = stage_mime_types(&mime_types, options.omit_additional_text_mime_types);
    proof {
        lemma_staged_in_range(
            data_paths,
            texts(mime_types@),
            options.omit_additional_text_mime_types,
        );
    }
    let targets = selection_targets(options.clipboard, &devices);
    let mut state = state;
    state.data_paths = data_paths;
    state.serve_requests = options.serve_requests;
    Ok(PreparedCopy { state, targets, sources: Vec::new(), payloads })
}

/// Copies data to the clipboard.
///
/// The data is copied from `source` and offered in the `mime_type` MIME type:
/// [`copy_multi`] with one source.
pub fn copy(
    options: Options,
    source: Source,
    mime_type: MimeType,
    stdin: Vec<u8>,
    detected: Option<String>,
    state: State,
) -> (r: Result<PreparedCopy, Error>)
    ensures
        copies(
            r,
            options,
            seq![MimeSource { source, mime_type }],
            stdin@,
            seq![detected],
            state,
        ),
{
    let mut sources: Vec<MimeSource> = Vec::new();
    sources.push(MimeSource { source, mime_type });
    let mut found: Vec<Option<String>> = Vec::new();
    found.push(detected);
    proof {
        assert(sources@ =~= seq![MimeSource { source, mime_type }]);
        assert(found@ =~= seq![detected]);
    }
    copy_multi(options, sources, stdin, found, state)
}

/// Prepares a data copy to the clipboard, offering multiple data sources.
///
/// This is [`copy_multi`] for a caller that serves in the foreground, and
/// handles what preparing may fail with before it starts to serve: `foreground`
/// has to be set.
pub fn prepare_copy_multi(
    options: Options,
    sources: Vec<MimeSource>,
    stdin: Vec<u8>,
    detected: Vec<Option<String>>,
    state: State,
) -> (r: Result<PreparedCopy, Error>)
    requires
        options.foreground,
        detected@.len() == sources@.len(),
    ensures
        copies(r, options, sources@, stdin@, detected@, state),
{
    copy_multi(options, sources, stdin, detected, state)
}

/// Prepares a data copy to the clipboard.
///
/// This is [`copy`] for a caller that serves in the foreground: `foreground` has
/// to be set.
pub fn prepare_copy(
    options: Options,
    source: Source,
    mime_type: MimeType,
    stdin: Vec<u8>,
    detected: Option<String>,
    state: State,
) -> (r: Result<PreparedCopy, Error>)
    requires
        options.foreground,
    ensures
        copies(
            r,
            options,
            seq![MimeSource { source, mime_type }],
            stdin@,
            seq![detected],
            state,
        ),
{
    copy(options, source, mime_type, stdin, detected, state)
}

impl Options {
    /// Invokes the copy operation. See [`copy`].
    pub fn copy(
        self,
        source: Source,
        mime_type: MimeType,
        stdin: Vec<u8>,
        detected: Option<String>,
        state: State,
    ) -> (r: Result<PreparedCopy, Error>)
        ensures
            copies(
                r,
                self,
                seq![MimeSource { source, mime_type }],
                stdin@,
                seq![detected],
                state,
            ),
    {
        copy(self, source, mime_type, stdin, detected, state)
    }

    /// Invokes the copy_multi operation. See [`copy_multi`].
    pub fn copy_multi(
        self,
        sources: Vec<MimeSource>,
        stdin: Vec<u8>,
        detected: Vec<Option<String>>,
        state: State,
    ) -> (r: Result<PreparedCopy, Error>)
        requires
            detected@.len() == sources@.len(),
        ensures
            copies(r, self, sources@, stdin@, detected@, state),
    {
        copy_multi(self, sources, stdin, detected, state)
    }

    /// Invokes the prepare_copy operation. See [`prepare_copy`].
    pub fn prepare_copy(
        self,
        source: Source,
        mime_type: MimeType,
        stdin: Vec<u8>,
        detected: Option<String>,
        state: State,
    ) -> (r: Result<PreparedCopy, Error>)
        requires
            self.foreground,
        ensures
            copies(
                r,
                self,
                seq![MimeSource { source, mime_type }],
                stdin@,
                seq![detected],
                state,
            ),
    {
        prepare_copy(self, source, mime_type, stdin, detected, state)
    }

    /// Invokes the prepare_copy_multi operation. See [`prepare_copy_multi`].
    pub fn prepare_copy_multi(
        self,
        sources: Vec<MimeSource>,
        stdin: Vec<u8>,
        detected: Vec<Option<String>>,
        state: State,
    ) -> (r: Result<PreparedCopy, Error>)
        requires
            self.foreground,
            detected@.len() == sources@.len(),
        ensures
            copies(r, self, sources@, stdin@, detected@, state),
    {
        prepare_copy_multi(self, sources, stdin, detected, state)
    }
}

impl PreparedCopy {
    /// Every staging that a MIME type names has its payload.
    pub open spec fn wf(&self) -> bool {
        &&& self.state.data_paths.wf()
        &&& forall|i: int|
            0 <= i < self.state.data_paths.staged@.len()
                ==> #[trigger] self.state.data_paths.staged@[i] < self.payloads@.len()
    }

    /// The bytes that a paste of the given MIME type is sent.
    pub open spec fn contents_spec(&self, mime_type: Seq<char>) -> Option<Seq<u8>> {
        match self.state.data_paths.lookup(mime_type) {
            Some(i) => Some(self.payloads@[i]@),
            None => None,
        }
    }

    /// The bytes that a paste of the given MIME type is sent, if the MIME type is on offer.
    pub fn contents(&self, mime_type: &str) -> (r: Option<&Vec<u8>>)
        requires
            self.wf(),
        ensures
            match self.contents_spec(mime_type@) {
                Some(bytes) => r matches Some(payload) && payload@ == bytes,
                None => r is None,
            },
    {
        proof {
            lemma_first_where_is_first(
                texts(self.state.data_paths.mime_types@),
                is_key(mime_type@),
            );
        }
        match self.state.data_paths.get(mime_type) {
            Some(i) => Some(&self.payloads[i]),
            None => None,
        }
    }

    /// Wires a fresh source to the next selection that needs one, and hands back
    /// the requests that do it.
    pub fn install(&mut self, source: DataSource) -> (requests: Vec<Request>)
        requires
            old(self).sources@.len() < old(self).targets@.len(),
            same_family(old(self).targets@[old(self).sources@.len() as int].0, source),
        ensures
            final(self).sources@ == old(self).sources@.push(source),
            final(self).state == old(self).state,
            final(self).targets == old(self).targets,
            final(self).payloads == old(self).payloads,
            requests@ == install_requests(
                old(self).targets@[old(self).sources@.len() as int].0,
                old(self).targets@[old(self).sources@.len() as int].1,
                source,
                old(self).state.data_paths.mime_types@,
                old(self).state.serve_requests,
            ),
    {
        let (device, primary) = self.targets[self.sources.len()];
        self.sources.push(source);
        install_source(
            device,
            primary,
            source,
            &self.state.data_paths.mime_types,
            self.state.serve_requests,
        )
    }
}

} // verus!
