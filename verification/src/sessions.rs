//! The session records the external session-managing daemon reports.
//! Listing, creating, renaming and killing sessions all happen through
//! that daemon's command-line interface, outside the library; the
//! records themselves are plain values.

use vstd::prelude::*;

verus! {

/// Whether a remote session currently has a client attached.
#[derive(Clone, Copy, PartialEq, Eq, Structural, Debug)]
pub enum SessionState {
    Attached,
    Detached,
}

impl SessionState {
    /// The state's display label.
    pub fn as_str(&self) -> (r: &'static str)
        ensures
            *self == SessionState::Attached ==> r@ == "Attached"@,
            *self == SessionState::Detached ==> r@ == "Detached"@,
    {
        match self {
            SessionState::Attached => "Attached",
            SessionState::Detached => "Detached",
        }
    }
}

/// One remote session: its display name, the daemon's `pid.name`
/// identifier, and whether a client is attached.
#[derive(Clone, Debug)]
pub struct Session {
    pub name: String,
    pub pid_name: String,
    pub state: SessionState,
}

} // verus!
