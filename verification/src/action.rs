//! Event kinds of the container runtime, reduced to what the bridge acts on.

use vstd::prelude::*;
use vstd::std_specs::convert::FromSpecImpl;

verus! {

/// What a lifecycle event asks of the bridge.
#[derive(Clone, Copy, Debug, PartialEq, Eq, Structural)]
#[non_exhaustive]
pub enum Action {
    /// The container stopped: its names are withdrawn.
    Die,
    /// Any other event kind, or none at all: nothing is done.
    Other,
    /// The container started: its names are published.
    Start,
}

/// The action that an event kind stands for.
///
/// Only the exact kinds `die` and `start` are acted on.
pub open spec fn classify(kind: Option<Seq<char>>) -> Action {
    match kind {
        Some(k) => if k == "die"@ {
            Action::Die
        } else if k == "start"@ {
            Action::Start
        } else {
            Action::Other
        },
        None => Action::Other,
    }
}

/// Examples of event kinds: a container's start and its end are acted on,
/// a pause is not, and neither is an event without a kind.
pub proof fn example_kinds()
    ensures
        classify(Some("start"@)) == Action::Start,
        classify(Some("die"@)) == Action::Die,
        classify(Some("pause"@)) == Action::Other,
        classify(None) == Action::Other,
{
    reveal_strlit("start");
    reveal_strlit("die");
    reveal_strlit("pause");
    assert("start"@.len() == 5 && "die"@.len() == 3);
    assert("pause"@[0] == 'p' && "start"@[0] == 's');
}

impl From<&Option<String>> for Action {
    fn from(f: &Option<String>) -> (action: Action)
        ensures
            action == classify(f.deep_view()),
    {
        match f {
            Some(kind) => {
                if *kind == "die".to_owned() {
                    Action::Die
                } else if *kind == "start".to_owned() {
                    Action::Start
                } else {
                    Action::Other
                }
            },
            None => Action::Other,
        }
    }
}

impl FromSpecImpl<&Option<String>> for Action {
    open spec fn obeys_from_spec() -> bool {
        true
    }

    open spec fn from_spec(f: &Option<String>) -> Action {
        classify(f.deep_view())
    }
}

} // verus!
