//! Whether publishing is switched on for a container.

use vstd::prelude::*;
use vstd::std_specs::convert::FromSpecImpl;

verus! {

/// Whether a container's names are to be published.
#[derive(Clone, Copy, Debug, PartialEq, Eq, Structural)]
pub enum State {
    /// Nothing is published for the container.
    Disabled,
    /// The container's names are published.
    Enabled,
}

/// Whether the value of the enabling label switches publishing on: only the
/// exact value `true` does.
pub open spec fn enables(value: Option<Seq<char>>) -> bool {
    value == Some("true"@)
}

impl Default for State {
    fn default() -> (state: State)
        ensures
            state == State::Disabled,
    {
        State::Disabled
    }
}

impl From<Option<&String>> for State {
    fn from(s: Option<&String>) -> (state: State)
        ensures
            state == if enables(s.deep_view()) {
                State::Enabled
            } else {
                State::Disabled
            },
    {
        match s {
            Some(value) => {
                if *value == "true".to_owned() {
                    State::Enabled
                } else {
                    State::Disabled
                }
            },
            None => State::Disabled,
        }
    }
}

impl FromSpecImpl<Option<&String>> for State {
    open spec fn obeys_from_spec() -> bool {
        true
    }

    open spec fn from_spec(s: Option<&String>) -> State {
        if enables(s.deep_view()) {
            State::Enabled
        } else {
            State::Disabled
        }
    }
}

} // verus!
