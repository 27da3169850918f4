use vstd::prelude::*;

verus! {

/// The lifecycle of the profiling facility.
///
/// The native engine supports at most one session process-wide, so the
/// handle is always in exactly one of these two states; no other state is
/// representable.
#[derive(Clone, Copy, Debug, PartialEq, Eq, Structural)]
pub enum ProfilerState {
    /// A profiling session is currently running.
    Active,
    /// No profiling session is running.
    NotActive,
}

/// The display name of a state.
pub open spec fn state_name(s: ProfilerState) -> Seq<char> {
    match s {
        ProfilerState::Active => "Active"@,
        ProfilerState::NotActive => "NotActive"@,
    }
}

impl ProfilerState {
    /// Human-readable name of the state.
    pub fn name(&self) -> (r: &'static str)
        ensures
            r@ == state_name(*self),
    {
        match self {
            ProfilerState::Active => "Active",
            ProfilerState::NotActive => "NotActive",
        }
    }
}

} // verus!
