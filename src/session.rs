use vstd::prelude::*;

use crate::error::DownloadError;
use crate::gate::{supports_public_download, MIN_PUBLIC_DOWNLOAD_LEVEL};

verus! {

/// Arguments of the operation that creates a pending download entry.
#[derive(Debug, Clone)]
pub struct AndroidDownloadBeginArgs {
    pub filename: String,
    pub mime_type: Option<String>,
    pub relative_path: Option<String>,
}

/// Arguments of the operation that writes bytes into a pending entry.
#[derive(Debug, Clone)]
pub struct AndroidDownloadWriteArgs {
    pub uri: String,
    pub data: Vec<u8>,
    pub append: Option<bool>,
}

/// Arguments of the operation that publishes a pending entry.
#[derive(Debug, Clone)]
pub struct AndroidDownloadFinishArgs {
    pub uri: String,
}

/// Storage volume whose download collection receives new entries.
pub const DOWNLOAD_VOLUME: &'static str = "external_primary";

/// Metadata record inserted into the download collection by `Begin`.
#[derive(Debug, Clone)]
pub struct EntryRecord {
    pub display_name: String,
    pub mime_type: Option<String>,
    pub relative_path: String,
    pub pending: bool,
}

/// How a writable stream is opened on an entry.
#[derive(Debug, Clone, Copy, PartialEq, Eq, Structural)]
pub enum OpenMode {
    /// Existing content is discarded first.
    Truncate,
    /// New bytes go after the existing content.
    Append,
}

/// Request to open a stream on an entry and write `data` through it.
#[derive(Debug, Clone)]
pub struct StreamRequest {
    pub uri: String,
    pub mode: OpenMode,
    pub data: Vec<u8>,
}

/// Request to clear the pending flag of an entry.
#[derive(Debug, Clone)]
pub struct PendingUpdate {
    pub uri: String,
    pub pending: bool,
}

pub open spec fn opt_view(o: Option<String>) -> Option<Seq<char>> {
    match o {
        Some(s) => Some(s@),
        None => None,
    }
}

/// Folder used when the caller names none.
pub open spec fn default_relative_dir() -> Seq<char> {
    seq!['D', 'o', 'w', 'n', 'l', 'o', 'a', 'd']
}

pub open spec fn ends_with_separator(s: Seq<char>) -> bool {
    s.len() > 0 && s.last() == '/'
}

/// The relative path an entry is stored under: the given folder, or the
/// default one, terminated by exactly the separators it already had, or one.
pub open spec fn normalized_relative_path(p: Option<Seq<char>>) -> Seq<char> {
    let base = match p {
        Some(s) => s,
        None => default_relative_dir(),
    };
    if ends_with_separator(base) {
        base
    } else {
        base.push('/')
    }
}

/// The MIME type recorded for an entry: an empty one is left out.
pub open spec fn effective_mime(m: Option<Seq<char>>) -> Option<Seq<char>> {
    match m {
        Some(s) => if s.len() > 0 { Some(s) } else { None },
        None => None,
    }
}

/// `rec` is the metadata record that `Begin` builds for these arguments.
pub open spec fn is_begin_record(rec: EntryRecord, args: AndroidDownloadBeginArgs) -> bool {
    &&& rec.display_name@ == args.filename@
    &&& opt_view(rec.mime_type) == effective_mime(opt_view(args.mime_type))
    &&& rec.relative_path@ == normalized_relative_path(opt_view(args.relative_path))
    &&& rec.pending
}

pub open spec fn open_mode_for(append: Option<bool>) -> OpenMode {
    if append == Some(true) {
        OpenMode::Append
    } else {
        OpenMode::Truncate
    }
}

/// An absent folder becomes exactly `Download/`; a folder that lacks a
/// trailing separator gets one, and one that has it is kept as it is, so the
/// result always ends in a separator and never gains a second one.
pub proof fn relative_path_rules(s: Seq<char>)
    ensures
        normalized_relative_path(None) =~= seq!['D', 'o', 'w', 'n', 'l', 'o', 'a', 'd', '/'],
        ends_with_separator(s) ==> normalized_relative_path(Some(s)) == s,
        !ends_with_separator(s) ==> normalized_relative_path(Some(s)) == s.push('/'),
        ends_with_separator(normalized_relative_path(Some(s))),
{
}

/// Normalizes the folder an entry is stored under.
pub fn normalize_relative_path(p: Option<String>) -> (r: String)
    ensures
        r@ == normalized_relative_path(opt_view(p)),
{
    let mut path = match p {
        Some(s) => s,
        None => {
            proof { reveal_strlit("Download"); }
            String::from_str("Download")
        },
    };
    let n = path.as_str().unicode_len();
    if n == 0 || path.as_str().get_char(n - 1) != '/' {
        proof { reveal_strlit("/"); }
        path.append("/");
        assert(path@ =~= normalized_relative_path(opt_view(p)));
    }
    path
}

/// Builds the metadata record for a new pending entry.
pub fn entry_record(args: AndroidDownloadBeginArgs) -> (r: EntryRecord)
    ensures
        is_begin_record(r, args),
{
    let mime_type = match &args.mime_type {
        Some(m) => if m.as_str().unicode_len() > 0 { Some(m.clone()) } else { None },
        None => None,
    };
    EntryRecord {
        display_name: args.filename.clone(),
        mime_type,
        relative_path: normalize_relative_path(args.relative_path.clone()),
        pending: true,
    }
}

/// First step of `Begin`: the version gate, then the record to insert.
/// Below the capability threshold nothing is handed to the provider.
pub fn plan_begin(level: i32, args: AndroidDownloadBeginArgs) -> (r: Result<EntryRecord, DownloadError>)
    ensures
        level < MIN_PUBLIC_DOWNLOAD_LEVEL <==> r == Err::<EntryRecord, DownloadError>(DownloadError::UnsupportedPlatform),
        level >= MIN_PUBLIC_DOWNLOAD_LEVEL ==> r is Ok && is_begin_record(r->Ok_0, args),
{
    if !supports_public_download(level) {
        return Err(DownloadError::UnsupportedPlatform);
    }
    Ok(entry_record(args))
}

/// Last step of `Begin`: the provider's insert result becomes the handle.
pub fn complete_begin(inserted: Option<String>) -> (r: Result<String, DownloadError>)
    ensures
        match inserted {
            Some(uri) => r == Ok::<String, DownloadError>(uri),
            None => r == Err::<String, DownloadError>(DownloadError::EntryCreationFailed),
        },
{
    match inserted {
        Some(uri) => Ok(uri),
        None => Err(DownloadError::EntryCreationFailed),
    }
}

/// Mode in which `Write` opens the entry's stream.
pub fn open_mode(append: Option<bool>) -> (r: OpenMode)
    ensures
        r == open_mode_for(append),
        append == Some(true) <==> r == OpenMode::Append,
{
    match append {
        Some(true) => OpenMode::Append,
        _ => OpenMode::Truncate,
    }
}

impl OpenMode {
    /// The provider's spelling of the mode: `"wa"` appends, `"w"` truncates.
    pub fn as_provider_mode(&self) -> (r: &'static str)
        ensures
            *self == OpenMode::Append ==> r@ == seq!['w', 'a'],
            *self == OpenMode::Truncate ==> r@ == seq!['w'],
    {
        match self {
            OpenMode::Append => {
                proof { reveal_strlit("wa"); }
                "wa"
            },
            OpenMode::Truncate => {
                proof { reveal_strlit("w"); }
                "w"
            },
        }
    }
}

/// First step of `Write`: which entry to open, in which mode, with what bytes.
pub fn plan_write(args: AndroidDownloadWriteArgs) -> (r: StreamRequest)
    ensures
        r.uri@ == args.uri@,
        r.mode == open_mode_for(args.append),
        r.data@ == args.data@,
{
    StreamRequest { uri: args.uri, mode: open_mode(args.append), data: args.data }
}

/// Checks the stream that the provider handed back for `Write`.
pub fn check_stream(stream_is_null: bool) -> (r: Result<(), DownloadError>)
    ensures
        stream_is_null <==> r == Err::<(), DownloadError>(DownloadError::StreamOpenFailed),
        !stream_is_null <==> r is Ok,
{
    if stream_is_null {
        Err(DownloadError::StreamOpenFailed)
    } else {
        Ok(())
    }
}

/// First step of `Finish`: below the capability threshold there is nothing to
/// update and the operation succeeds as it is; otherwise the pending flag of
/// the entry is cleared.
pub fn plan_finish(level: i32, args: AndroidDownloadFinishArgs) -> (r: Option<PendingUpdate>)
    ensures
        level < MIN_PUBLIC_DOWNLOAD_LEVEL <==> r is None,
        r is Some ==> r->Some_0.uri@ == args.uri@ && !r->Some_0.pending,
{
    if !supports_public_download(level) {
        return None;
    }
    Some(PendingUpdate { uri: args.uri, pending: false })
}

} // verus!
