//! The outcome state a commit or deployment status can report.

use vstd::prelude::*;

verus! {

/// Outcome state of a commit or deployment status. On the wire it is always
/// the lowercase textual tag, never a numeric discriminant.
#[allow(non_camel_case_types)]
#[derive(Clone, Copy, Debug, PartialEq, Eq, Structural)]
pub enum State {
    pending,
    success,
    error,
    failure,
}

/// The textual tag a state serializes as.
pub open spec fn state_tag(s: State) -> Seq<char> {
    match s {
        State::pending => "pending"@,
        State::success => "success"@,
        State::error => "error"@,
        State::failure => "failure"@,
    }
}

impl State {
    /// The lowercase textual tag of this state.
    pub fn tag(&self) -> (r: String)
        ensures
            r@ == state_tag(*self),
    {
        match self {
            State::pending => "pending".to_owned(),
            State::success => "success".to_owned(),
            State::error => "error".to_owned(),
            State::failure => "failure".to_owned(),
        }
    }
}

} // verus!
