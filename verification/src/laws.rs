use vstd::prelude::*;

use crate::error::Error;
use crate::error::IoInfo;
use crate::error::IoKind;
use crate::profiler::commit_outcome;
use crate::profiler::first_nul;
use crate::profiler::has_nul;
use crate::profiler::stop_outcome;
use crate::profiler::target_outcome;
use crate::profiler::validate_outcome;
use crate::profiler::FileStatus;
use crate::state::ProfilerState;

verus! {

/// Law (start/stop round trip): from `NotActive`, a filename that
/// validates, a probe showing a writable regular file and a nonzero
/// native status carry every phase of `start` to success and leave the
/// handle `Active`; the `stop` that follows succeeds and returns it to
/// `NotActive`.
pub proof fn lemma_start_stop_round_trip(fname: Seq<u8>, meta: FileStatus, status: i32)
    requires
        validate_outcome(ProfilerState::NotActive, fname) is Ok,
        meta.is_file,
        !meta.readonly,
        status != 0,
    ensures
        target_outcome(Ok(meta)) is Ok,
        commit_outcome(ProfilerState::NotActive, status) == (
            ProfilerState::Active,
            Ok::<(), Error>(()),
        ),
        stop_outcome(ProfilerState::Active) == (ProfilerState::NotActive, Ok::<(), Error>(())),
{
}

/// Law (double start rejected): once a start has committed, the handle is
/// `Active`, and while it is `Active` the validation phase of every
/// further start fails with `InvalidState(Active)`, whatever filename it
/// carries; a second start never reaches the filesystem or the native
/// routine.
pub proof fn lemma_double_start_rejected(status: i32, fname: Seq<u8>)
    requires
        status != 0,
    ensures
        commit_outcome(ProfilerState::NotActive, status).0 == ProfilerState::Active,
        validate_outcome(ProfilerState::Active, fname) == Err::<Seq<char>, Error>(
            Error::InvalidState(ProfilerState::Active),
        ),
{
}

/// Law (stop without start rejected): `stop` on a `NotActive` handle
/// returns `InvalidState(NotActive)` and leaves the state unchanged.
pub proof fn lemma_stop_requires_active()
    ensures
        stop_outcome(ProfilerState::NotActive) == (
            ProfilerState::NotActive,
            Err::<(), Error>(Error::InvalidState(ProfilerState::NotActive)),
        ),
{
}

/// Law (failing path lookup rejected): whatever failure the metadata
/// lookup of the path reports — not found for a nonexistent path, or any
/// other category — the target check returns exactly that failure as an
/// `Io` error. No phase of `start` before `start_commit` touches the
/// state, so the handle stays `NotActive`.
pub proof fn lemma_missing_target_rejected(io: IoInfo)
    ensures
        target_outcome(Err(io)) == Err::<(), Error>(Error::Io(io)),
{
}

/// Law (unsuitable target rejected): a path that resolves but does not
/// name a regular file is rejected as not found; an existing regular file
/// that is read-only is rejected as permission denied. Neither carries an
/// OS code, since the operating system reported no failure.
pub proof fn lemma_unsuitable_target_rejected(meta: FileStatus)
    ensures
        !meta.is_file ==> target_outcome(Ok(meta)) == Err::<(), Error>(
            Error::Io(IoInfo { kind: IoKind::NotFound, os_code: None }),
        ),
        meta.is_file && meta.readonly ==> target_outcome(Ok(meta)) == Err::<(), Error>(
            Error::Io(IoInfo { kind: IoKind::PermissionDenied, os_code: None }),
        ),
{
}

/// Law (null byte rejected): a filename holding a null byte fails the
/// validation phase with `Encoding`, carrying the index of the first null
/// byte; the state is not read beyond the initial check and is never
/// changed.
pub proof fn lemma_nul_name_rejected(fname: Seq<u8>)
    requires
        has_nul(fname),
    ensures
        validate_outcome(ProfilerState::NotActive, fname) == Err::<Seq<char>, Error>(
            Error::Encoding(first_nul(fname) as usize),
        ),
{
}

/// Law (single session): a start can only commit from `NotActive`, and
/// then leaves the handle `Active`; a failed commit — including a native
/// failure status — leaves the state exactly as it was, so a caller may
/// retry. Together with the rejection of validation while `Active`, no
/// sequence of serialized calls reaches the native start routine twice
/// without an intervening stop.
pub proof fn lemma_single_session(st: ProfilerState, status: i32)
    ensures
        commit_outcome(st, status).1 is Ok ==> st == ProfilerState::NotActive && commit_outcome(
            st,
            status,
        ).0 == ProfilerState::Active,
        commit_outcome(st, status).1 is Err ==> commit_outcome(st, status).0 == st,
{
}

} // verus!
