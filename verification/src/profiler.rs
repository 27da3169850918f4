use vstd::prelude::*;

use crate::error::Error;
use crate::error::IoInfo;
use crate::error::IoKind;
use crate::state::ProfilerState;

verus! {

/// What a metadata lookup of the target path reports: whether the path
/// names a regular file, and whether that file is read-only.
#[derive(Clone, Copy, Debug, PartialEq, Eq, Structural)]
pub struct FileStatus {
    /// The path names a regular file (not a directory or special file).
    pub is_file: bool,
    /// The file's permissions forbid writing.
    pub readonly: bool,
}

/// True when the byte sequence holds a null byte, which no null-terminated
/// native string can carry.
pub open spec fn has_nul(b: Seq<u8>) -> bool {
    exists|i: int| 0 <= i < b.len() && b[i] == 0
}

/// Index of the first null byte; meaningful only when `has_nul` holds.
pub open spec fn first_nul(b: Seq<u8>) -> int
    decreases b.len(),
{
    if b.len() == 0 {
        0
    } else if b[0] == 0 {
        0
    } else {
        1 + first_nul(b.subrange(1, b.len() as int))
    }
}

/// What decoding the filename bytes as UTF-8 text yields: the text exactly
/// when the bytes are valid UTF-8, and nothing otherwise.
pub uninterp spec fn utf8_decode(b: Seq<u8>) -> Option<Seq<char>>;

/// Outcome of the validation phase of `start` for a handle in state `st`
/// and a filename: the decoded path text on success, the first failure
/// otherwise. The checks run in order: state, null byte, UTF-8.
pub open spec fn validate_outcome(st: ProfilerState, fname: Seq<u8>) -> Result<Seq<char>, Error> {
    if st != ProfilerState::NotActive {
        Err(Error::InvalidState(st))
    } else if has_nul(fname) {
        Err(Error::Encoding(first_nul(fname) as usize))
    } else {
        match utf8_decode(fname) {
            Some(text) => Ok(text),
            None => Err(Error::Utf8),
        }
    }
}

/// Outcome of the target check for a given metadata lookup result: a
/// failing lookup is returned as it came; a path that is not a regular
/// file counts as not found; a read-only file as permission denied.
pub open spec fn target_outcome(probe: Result<FileStatus, IoInfo>) -> Result<(), Error> {
    match probe {
        Err(io) => Err(Error::Io(io)),
        Ok(meta) => if !meta.is_file {
            Err(Error::Io(IoInfo { kind: IoKind::NotFound, os_code: None }))
        } else if meta.readonly {
            Err(Error::Io(IoInfo { kind: IoKind::PermissionDenied, os_code: None }))
        } else {
            Ok(())
        },
    }
}

/// Next state and result once the native start routine has returned
/// `status` (nonzero is success) to a handle in state `st`. Only a
/// successful status moves the handle to `Active`; every failure leaves
/// the state as it was.
pub open spec fn commit_outcome(st: ProfilerState, status: i32) -> (ProfilerState, Result<
    (),
    Error,
>) {
    if st != ProfilerState::NotActive {
        (st, Err(Error::InvalidState(st)))
    } else if status == 0 {
        (st, Err(Error::InternalError))
    } else {
        (ProfilerState::Active, Ok(()))
    }
}

/// Next state and result of `stop` from state `st`: legal only while
/// `Active`, and then it always succeeds.
pub open spec fn stop_outcome(st: ProfilerState) -> (ProfilerState, Result<(), Error>) {
    if st == ProfilerState::Active {
        (ProfilerState::NotActive, Ok(()))
    } else {
        (st, Err(Error::InvalidState(st)))
    }
}

/// Relies on `String::from_utf8`: it succeeds exactly on valid UTF-8
/// input, and the decoded text depends on the bytes alone.
#[verifier::external_body]
fn decode_utf8(b: Vec<u8>) -> (r: Option<String>)
    ensures
        match r {
            Some(s) => utf8_decode(b@) == Some(s@),
            None => utf8_decode(b@) is None,
        },
{
    String::from_utf8(b).ok()
}

proof fn lemma_first_nul_at(b: Seq<u8>, i: int)
    requires
        0 <= i < b.len(),
        b[i] == 0,
        forall|j: int| 0 <= j < i ==> b[j] != 0,
    ensures
        first_nul(b) == i,
    decreases i,
{
    if i > 0 {
        lemma_first_nul_at(b.subrange(1, b.len() as int), i - 1);
    }
}

/// Index of the first null byte in `v`, or `None` when there is none.
fn find_nul(v: &Vec<u8>) -> (r: Option<usize>)
    ensures
        match r {
            Some(i) => has_nul(v@) && i as int == first_nul(v@),
            None => !has_nul(v@),
        },
{
    let mut i: usize = 0;
    while i < v.len()
        invariant
            0 <= i <= v@.len(),
            forall|j: int| 0 <= j < i ==> v@[j] != 0,
        decreases v@.len() - i,
    {
        if v[i] == 0 {
            proof {
                lemma_first_nul_at(v@, i as int);
            }
            return Some(i);
        }
        i = i + 1;
    }
    None
}

/// The profiler handle.
///
/// It holds exactly the lifecycle state: the sampling buffers and the
/// output stream are owned by the native engine, not by this value. The
/// embedding program keeps a single such handle behind an exclusive lock
/// and holds that lock across a whole `start` or `stop` sequence, so all
/// transitions are serialized.
#[derive(Debug)]
pub struct Profiler {
    state: ProfilerState,
}

impl View for Profiler {
    type V = ProfilerState;

    closed spec fn view(&self) -> ProfilerState {
        self.state
    }
}

impl Profiler {
    /// A fresh handle: no session is active.
    pub fn new() -> (r: Profiler)
        ensures
            r@ == ProfilerState::NotActive,
    {
        Profiler { state: ProfilerState::NotActive }
    }

    /// The current lifecycle state. A pure read: no filesystem or native
    /// call is involved.
    pub fn state(&self) -> (r: ProfilerState)
        ensures
            r == self@,
    {
        self.state
    }

    /// First phase of `start`: checks that no session is active and that
    /// the filename is a valid native string and valid UTF-8 text. On
    /// success the caller must look up the returned path's metadata and
    /// hand the result to `start_check_target`; nothing may cross into
    /// native code before both phases pass. The handle is not changed.
    pub fn start_validate(&self, fname: Vec<u8>) -> (r: Result<String, Error>)
        ensures
            match validate_outcome(self@, fname@) {
                Ok(text) => (r matches Ok(s) && s@ == text),
                Err(e) => (r matches Err(e2) && e2 == e),
            },
    {
        if self.state != ProfilerState::NotActive {
            return Err(Error::InvalidState(self.state));
        }
        match find_nul(&fname) {
            Some(i) => Err(Error::Encoding(i)),
            None => match decode_utf8(fname) {
                Some(text) => Ok(text),
                None => Err(Error::Utf8),
            },
        }
    }

    /// Second phase of `start`: judges the metadata lookup of the
    /// validated path. `Ok` means the target is an existing writable
    /// regular file, and only then may the caller invoke the native start
    /// routine and report its status to `start_commit`.
    pub fn start_check_target(probe: Result<FileStatus, IoInfo>) -> (r: Result<(), Error>)
        ensures
            r == target_outcome(probe),
    {
        match probe {
            Err(io) => Err(Error::Io(io)),
            Ok(meta) => if !meta.is_file {
                Err(Error::Io(IoInfo { kind: IoKind::NotFound, os_code: None }))
            } else if meta.readonly {
                Err(Error::Io(IoInfo { kind: IoKind::PermissionDenied, os_code: None }))
            } else {
                Ok(())
            },
        }
    }

    /// Last phase of `start`: records the status the native start routine
    /// returned (nonzero is success). Only on success does the handle
    /// become `Active`; on a zero status the attempt failed, the state is
    /// unchanged, and the caller may retry after remediation.
    pub fn start_commit(&mut self, status: i32) -> (r: Result<(), Error>)
        ensures
            (final(self)@, r) == commit_outcome(old(self)@, status),
    {
        if self.state != ProfilerState::NotActive {
            return Err(Error::InvalidState(self.state));
        }
        if status == 0 {
            Err(Error::InternalError)
        } else {
            self.state = ProfilerState::Active;
            Ok(())
        }
    }

    /// Stop the profiler: legal only while a session is active, and then
    /// it always succeeds. On success the caller must invoke the native
    /// stop routine, which finalizes the output; the handle returns to
    /// `NotActive`. On a `NotActive` handle it fails with `InvalidState`
    /// and changes nothing.
    pub fn stop(&mut self) -> (r: Result<(), Error>)
        ensures
            (final(self)@, r) == stop_outcome(old(self)@),
    {
        if self.state == ProfilerState::Active {
            self.state = ProfilerState::NotActive;
            Ok(())
        } else {
            Err(Error::InvalidState(self.state))
        }
    }
}

} // verus!
