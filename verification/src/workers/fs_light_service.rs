//! What the file system service makes of what was read from disk: records from a raw
//! listing, text from bytes, and its own errors from those of the system.

use crate::file::{EntryProbe, File, FileView};
use vstd::prelude::*;
use vstd::utf8::*;

verus! {

/// Why the operating system refused an operation.
#[derive(Debug, Clone, Copy, PartialEq, Eq, Structural)]
pub enum IoErrorKind {
    NotFound,
    PermissionDenied,
    NotADirectory,
    Other,
}

/// A failed operation of the operating system: its kind and the system's own words.
#[derive(Debug, Clone, PartialEq, Eq)]
pub struct IoFailure {
    pub kind: IoErrorKind,
    pub detail: String,
}

/// Why the service could not list a directory or read a file. Each variant carries the
/// underlying detail.
#[derive(Debug, Clone, PartialEq, Eq)]
pub enum LightServiceError {
    NotFound(String),
    PermissionDenied(String),
    NotADirectory(String),
    /// The bytes of the file are not valid UTF-8.
    InvalidEncoding(String),
    Other(String),
}

/// A `LightServiceError` as a plain value.
pub enum LightServiceErrorView {
    NotFound(Seq<char>),
    PermissionDenied(Seq<char>),
    NotADirectory(Seq<char>),
    InvalidEncoding(Seq<char>),
    Other(Seq<char>),
}

impl LightServiceErrorView {
    /// The error for a failure of the operating system.
    pub open spec fn of_failure(kind: IoErrorKind, detail: Seq<char>) -> LightServiceErrorView {
        match kind {
            IoErrorKind::NotFound => LightServiceErrorView::NotFound(detail),
            IoErrorKind::PermissionDenied => LightServiceErrorView::PermissionDenied(detail),
            IoErrorKind::NotADirectory => LightServiceErrorView::NotADirectory(detail),
            IoErrorKind::Other => LightServiceErrorView::Other(detail),
        }
    }

    /// The error in words.
    pub open spec fn message(self) -> Seq<char> {
        match self {
            LightServiceErrorView::NotFound(detail) => "Path not found ("@ + detail + ")"@,
            LightServiceErrorView::PermissionDenied(detail) => "Permission denied ("@ + detail
                + ")"@,
            LightServiceErrorView::NotADirectory(detail) => "Path is not a directory ("@ + detail
                + ")"@,
            LightServiceErrorView::InvalidEncoding(detail) => "Invalid UTF-8 encoding ("@ + detail
                + ")"@,
            LightServiceErrorView::Other(detail) => detail,
        }
    }
}

impl View for LightServiceError {
    type V = LightServiceErrorView;

    open spec fn view(&self) -> LightServiceErrorView {
        match self {
            LightServiceError::NotFound(detail) => LightServiceErrorView::NotFound(detail@),
            LightServiceError::PermissionDenied(detail) => LightServiceErrorView::PermissionDenied(
                detail@,
            ),
            LightServiceError::NotADirectory(detail) => LightServiceErrorView::NotADirectory(
                detail@,
            ),
            LightServiceError::InvalidEncoding(detail) => LightServiceErrorView::InvalidEncoding(
                detail@,
            ),
            LightServiceError::Other(detail) => LightServiceErrorView::Other(detail@),
        }
    }
}

/// `prefix`, then `detail` in round brackets.
fn with_detail(prefix: &str, detail: &str) -> (text: String)
    ensures
        text@ == prefix@ + " ("@ + detail@ + ")"@,
{
    let mut text = String::from_str(prefix);
    text.append(" (");
    text.append(detail);
    text.append(")");
    text
}

impl LightServiceError {
    /// The error for a failure of the operating system, by its kind.
    pub fn from_failure(failure: IoFailure) -> (error: LightServiceError)
        ensures
            error@ == LightServiceErrorView::of_failure(failure.kind, failure.detail@),
    {
        match failure.kind {
            IoErrorKind::NotFound => LightServiceError::NotFound(failure.detail),
            IoErrorKind::PermissionDenied => LightServiceError::PermissionDenied(failure.detail),
            IoErrorKind::NotADirectory => LightServiceError::NotADirectory(failure.detail),
            IoErrorKind::Other => LightServiceError::Other(failure.detail),
        }
    }

    /// The error in words, as it is shown to the user.
    pub fn message(&self) -> (text: String)
        ensures
            text@ == self@.message(),
    {
        proof {
            reveal_strlit("Path not found");
            reveal_strlit("Path not found (");
            reveal_strlit("Permission denied");
            reveal_strlit("Permission denied (");
            reveal_strlit("Path is not a directory");
            reveal_strlit("Path is not a directory (");
            reveal_strlit("Invalid UTF-8 encoding");
            reveal_strlit("Invalid UTF-8 encoding (");
            reveal_strlit(" (");
        }
        match self {
            LightServiceError::NotFound(detail) => {
                let text = with_detail("Path not found", detail.as_str());
                assert(text@ =~= self@.message());
                text
            },
            LightServiceError::PermissionDenied(detail) => {
                let text = with_detail("Permission denied", detail.as_str());
                assert(text@ =~= self@.message());
                text
            },
            LightServiceError::NotADirectory(detail) => {
                let text = with_detail("Path is not a directory", detail.as_str());
                assert(text@ =~= self@.message());
                text
            },
            LightServiceError::InvalidEncoding(detail) => {
                let text = with_detail("Invalid UTF-8 encoding", detail.as_str());
                assert(text@ =~= self@.message());
                text
            },
            LightServiceError::Other(detail) => detail.clone(),
        }
    }
}

/// The records that stand for a raw listing: one for each probed entry, in its place.
pub open spec fn records_of(probes: Seq<EntryProbe>) -> Seq<FileView> {
    Seq::new(probes.len(), |i: int| FileView::of_probe(probes[i]))
}

/// The records of a listing as plain values.
pub open spec fn file_views(files: Seq<File>) -> Seq<FileView> {
    Seq::new(files.len(), |i: int| files[i]@)
}

/// What listing a directory comes to: its records, or the service's error for the
/// failure.
pub open spec fn load_outcome(listing: Result<Vec<EntryProbe>, IoFailure>) -> Result<
    Seq<FileView>,
    LightServiceErrorView,
> {
    match listing {
        Ok(probes) => Ok(records_of(probes@)),
        Err(failure) => Err(LightServiceErrorView::of_failure(failure.kind, failure.detail@)),
    }
}

/// What reading a file comes to: the text that its bytes encode, the error
/// `InvalidEncoding` where they are not valid UTF-8, or the service's error for the
/// failure.
pub open spec fn read_outcome(content: Result<Vec<u8>, IoFailure>) -> Result<
    Seq<char>,
    LightServiceErrorView,
> {
    match content {
        Ok(bytes) => if valid_utf8(bytes@) {
            Ok(decode_utf8(bytes@))
        } else {
            Err(LightServiceErrorView::InvalidEncoding(utf8_error_text(bytes@)))
        },
        Err(failure) => Err(LightServiceErrorView::of_failure(failure.kind, failure.detail@)),
    }
}

/// What `String::from_utf8` says of bytes that are not valid UTF-8.
pub uninterp spec fn utf8_error_text(bytes: Seq<u8>) -> Seq<char>;

/// The text that the bytes encode.
///
/// Calls `String::from_utf8`: it succeeds exactly on valid UTF-8, and the text is then
/// the one whose encoding the bytes are. Otherwise the words of its error come back,
/// under the name `utf8_error_text`.
#[verifier::external_body]
fn text_of_bytes(bytes: Vec<u8>) -> (text: Result<String, String>)
    ensures
        match text {
            Ok(content) => valid_utf8(bytes@) && encode_utf8(content@) == bytes@,
            Err(detail) => !valid_utf8(bytes@) && detail@ == utf8_error_text(bytes@),
        },
{
    match String::from_utf8(bytes) {
        Ok(content) => Ok(content),
        Err(error) => Err(error.to_string()),
    }
}

/// The file system service. It keeps no state.
#[derive(Debug)]
pub struct FsLightService {}

impl FsLightService {
    pub fn new() -> (service: Self) {
        FsLightService {  }
    }

    /// The records of a directory from its raw listing: one for each entry, in the
    /// listing's order. A failure to list becomes the service's error of the same kind.
    pub fn load(&self, listing: Result<Vec<EntryProbe>, IoFailure>) -> (files: Result<
        Vec<File>,
        LightServiceError,
    >)
        ensures
            match files {
                Ok(records) => load_outcome(listing) == Ok::<_, LightServiceErrorView>(
                    file_views(records@),
                ),
                Err(error) => load_outcome(listing) == Err::<Seq<FileView>, _>(error@),
            },
    {
        match listing {
            Ok(probes) => {
                let mut files: Vec<File> = Vec::new();
                let mut next: usize = 0;
                while next < probes.len()
                    invariant
                        next <= probes@.len(),
                        files@.len() == next,
                        forall|i: int|
                            0 <= i < next ==> (#[trigger] files@[i])@ == FileView::of_probe(
                                probes@[i],
                            ),
                    decreases probes@.len() - next,
                {
                    files.push(File::from_probe(&probes[next]));
                    next += 1;
                }
                assert(file_views(files@) =~= records_of(probes@));
                Ok(files)
            },
            Err(failure) => Err(LightServiceError::from_failure(failure)),
        }
    }

    /// The text of a file from its bytes: the text that they encode, or the error
    /// `InvalidEncoding` where they are not valid UTF-8. A failure to read becomes the
    /// service's error of the same kind.
    pub fn read(&self, content: Result<Vec<u8>, IoFailure>) -> (text: Result<
        String,
        LightServiceError,
    >)
        ensures
            match text {
                Ok(content_text) => read_outcome(content) == Ok::<_, LightServiceErrorView>(
                    content_text@,
                ),
                Err(error) => read_outcome(content) == Err::<Seq<char>, _>(error@),
            },
    {
        match content {
            Ok(bytes) => match text_of_bytes(bytes) {
                Ok(text) => {
                    proof {
                        encode_utf8_decode_utf8(text@);
                    }
                    Ok(text)
                },
                Err(detail) => Err(LightServiceError::InvalidEncoding(detail)),
            },
            Err(failure) => Err(LightServiceError::from_failure(failure)),
        }
    }
}

} // verus!
