use vstd::prelude::*;
use vstd::string::StringExecFns;

use crate::state::state_name;
use crate::state::ProfilerState;

verus! {

/// The category of a filesystem failure, as the operating system or the
/// target checks report it.
#[derive(Clone, Copy, Debug, PartialEq, Eq, Structural)]
pub enum IoKind {
    /// The path did not resolve, or does not name a regular file.
    NotFound,
    /// The caller may not write the file.
    PermissionDenied,
    /// Any other failure the operating system reported.
    Other,
}

/// A filesystem failure: its category and, where the operating system
/// supplied one, the raw OS error code.
#[derive(Clone, Copy, Debug, PartialEq, Eq)]
pub struct IoInfo {
    /// The category of the failure.
    pub kind: IoKind,
    /// The raw OS error code, where one was reported.
    pub os_code: Option<i32>,
}

/// The closed set of ways an operation on the profiler can fail.
///
/// Lower-level causes are kept as values a caller can match on, never
/// flattened into text.
#[derive(Clone, Copy, Debug, PartialEq, Eq)]
pub enum Error {
    /// A filesystem failure while checking the target path.
    Io(IoInfo),
    /// The filename cannot become a null-terminated native string: it
    /// holds a null byte. Carries the index of the first one.
    Encoding(usize),
    /// The filename bytes are not valid UTF-8 text, which the filesystem
    /// check requires.
    Utf8,
    /// The native start routine reported a failure status.
    InternalError,
    /// The requested transition is not legal in the current state; carries
    /// that state.
    InvalidState(ProfilerState),
}

/// The display name of an I/O failure category.
pub open spec fn io_kind_name(k: IoKind) -> Seq<char> {
    match k {
        IoKind::NotFound => "not found"@,
        IoKind::PermissionDenied => "permission denied"@,
        IoKind::Other => "other"@,
    }
}

/// The rendered message of an error. `InvalidState` includes the name of
/// the offending state, so messages for different states differ.
pub open spec fn error_text(e: Error) -> Seq<char> {
    match e {
        Error::Io(info) => "I/O error: "@ + io_kind_name(info.kind),
        Error::Encoding(_) => "nul byte found in provided data"@,
        Error::Utf8 => "invalid utf-8 sequence"@,
        Error::InternalError => "Internal library error!"@,
        Error::InvalidState(s) => "Operation is invalid for profiler state: "@ + state_name(s),
    }
}

impl IoKind {
    /// Human-readable name of the category.
    pub fn name(&self) -> (r: &'static str)
        ensures
            r@ == io_kind_name(*self),
    {
        match self {
            IoKind::NotFound => "not found",
            IoKind::PermissionDenied => "permission denied",
            IoKind::Other => "other",
        }
    }
}

impl Error {
    /// Human-readable message; for `InvalidState` it carries the name of
    /// the current state.
    pub fn message(&self) -> (r: String)
        ensures
            r@ == error_text(*self),
    {
        match self {
            Error::Io(info) => {
                let mut m = "I/O error: ".to_owned();
                m.append(info.kind.name());
                m
            },
            Error::Encoding(_) => "nul byte found in provided data".to_owned(),
            Error::Utf8 => "invalid utf-8 sequence".to_owned(),
            Error::InternalError => "Internal library error!".to_owned(),
            Error::InvalidState(s) => {
                let mut m = "Operation is invalid for profiler state: ".to_owned();
                m.append(s.name());
                m
            },
        }
    }
}

} // verus!
