//! A safety wrapper around a single global native sampling profiler.
//!
//! The native engine supports one active session per process. This library
//! provides the state machine that guards it: a two-state lifecycle
//! (`NotActive`/`Active`), pre-flight validation of the output path before
//! any native call, and a closed error taxonomy. The filesystem lookup and
//! the native entry points themselves are performed by the embedding
//! program, which feeds their plain results back into the verified
//! decision functions here.

mod error;
mod laws;
mod profiler;
mod state;

pub use error::{error_text, io_kind_name, Error, IoInfo, IoKind};
pub use laws::{
    lemma_double_start_rejected, lemma_missing_target_rejected, lemma_nul_name_rejected,
    lemma_single_session, lemma_start_stop_round_trip, lemma_stop_requires_active,
    lemma_unsuitable_target_rejected,
};
pub use profiler::{
    commit_outcome, first_nul, has_nul, stop_outcome, target_outcome, utf8_decode,
    validate_outcome, FileStatus, Profiler,
};
pub use state::{state_name, ProfilerState};
