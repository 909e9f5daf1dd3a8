//! Reading a container's labels.

use crate::docker::label;
use crate::docker::Container;
use crate::mdns::state::enables;
use crate::mdns::state::State;
use crate::text::law_whitespace_separates;
use crate::text::law_word_is_its_own_split;
use crate::text::split_whitespace;
use crate::text::words;
use vstd::prelude::*;

verus! {

/// The label that switches publishing on, with the value `true`.
pub const DOCKER_MDNS_ENABLE: &'static str = "docker-mdns.enable";

/// The label that lists the host names to publish, separated by white space.
pub const DOCKER_MDNS_HOST: &'static str = "docker-mdns.host";

/// The label that names the network interface whose addresses are published
/// for this container, in place of the bridge's own.
pub const DOCKER_MDNS_INTERFACE: &'static str = "docker-mdns.interface";

/// What is to be published for one container.
#[derive(Debug, Eq, PartialEq)]
pub struct Config {
    hosts: Option<Vec<String>>,
    id: String,
    override_interface: Option<String>,
    state: State,
}

/// A [`Config`] as plain values.
pub struct ConfigView {
    /// The host names to publish, in the order of the label.
    pub hosts: Option<Seq<Seq<char>>>,
    /// The container's identifier.
    pub id: Seq<char>,
    /// The interface to take the addresses from, where the labels name one.
    pub override_interface: Option<Seq<char>>,
    /// Whether publishing is switched on.
    pub enabled: bool,
}

/// The configuration of a container without labels, or of one whose labels
/// say nothing about publishing: nothing is published.
pub open spec fn disabled(id: Seq<char>) -> ConfigView {
    ConfigView { hosts: None, id, override_interface: None, enabled: false }
}

/// The configuration that the labels of the container `id` describe.
///
/// Three labels are read and all others ignored. Publishing is on only
/// where the enabling label is exactly `true`; the host names are the words
/// of the host label, repetitions included.
pub open spec fn interpret(
    id: Seq<char>,
    labels: Option<Map<Seq<char>, Seq<char>>>,
) -> ConfigView {
    match labels {
        None => disabled(id),
        Some(labels) => ConfigView {
            hosts: match label(labels, DOCKER_MDNS_HOST@) {
                Some(hosts) => Some(words(hosts)),
                None => None,
            },
            id,
            override_interface: label(labels, DOCKER_MDNS_INTERFACE@),
            enabled: enables(label(labels, DOCKER_MDNS_ENABLE@)),
        },
    }
}

/// An example of how the host label is read: runs of blanks and tabs
/// separate the host names, whatever else the labels hold.
pub proof fn example_hosts(id: Seq<char>, labels: Map<Seq<char>, Seq<char>>)
    requires
        label(labels, DOCKER_MDNS_HOST@) == Some("a  b\tc"@),
    ensures
        interpret(id, Some(labels)).hosts == Some(seq!["a"@, "b"@, "c"@]),
{
    reveal_strlit("a  b\tc");
    reveal_strlit("a");
    reveal_strlit("b");
    reveal_strlit("c");
    let a = seq!['a'];
    let b = seq!['b'];
    let c = seq!['c'];
    assert("a"@ =~= a && "b"@ =~= b && "c"@ =~= c);
    assert("a  b\tc"@ =~= a + seq![' '] + (Seq::empty() + seq![' '] + (b + seq!['\t'] + c)));
    law_whitespace_separates(a, ' ', Seq::empty() + seq![' '] + (b + seq!['\t'] + c));
    law_whitespace_separates(Seq::empty(), ' ', b + seq!['\t'] + c);
    law_whitespace_separates(b, '\t', c);
    law_word_is_its_own_split(a);
    law_word_is_its_own_split(b);
    law_word_is_its_own_split(c);
    assert(seq![a] + (Seq::<Seq<char>>::empty() + (seq![b] + seq![c])) =~= seq![a, b, c]);
}

impl View for Config {
    type V = ConfigView;

    closed spec fn view(&self) -> ConfigView {
        ConfigView {
            hosts: self.hosts.deep_view(),
            id: self.id@,
            override_interface: self.override_interface.deep_view(),
            enabled: self.state == State::Enabled,
        }
    }
}

impl DeepView for Config {
    type V = ConfigView;

    open spec fn deep_view(&self) -> ConfigView {
        self@
    }
}

impl Default for Config {
    fn default() -> (config: Config)
        ensures
            config@ == disabled(Seq::empty()),
    {
        Config { hosts: None, id: String::new(), override_interface: None, state: State::Disabled }
    }
}

impl Config {
    /// The configuration of the container `id` that publishes nothing.
    pub fn disabled(id: String) -> (config: Config)
        ensures
            config@ == disabled(id@),
    {
        Config { hosts: None, id, override_interface: None, state: State::Disabled }
    }

    /// Reads the configuration of a container from its labels.
    ///
    /// The runtime names the container in every event and listing entry
    /// that the bridge asks for, so the identifier must be there.
    pub fn from<C: Container>(source: &C) -> (config: Config)
        requires
            source.container().id is Some,
        ensures
            config@ == interpret(source.container().id->0, source.container().labels),
    {
        let id = source.id().unwrap().clone();
        match source.labels() {
            None => Config::disabled(id),
            Some(labels) => {
                let state = State::from(labels.get(DOCKER_MDNS_ENABLE));
                let hosts = match labels.get(DOCKER_MDNS_HOST) {
                    Some(hosts) => Some(split_whitespace(hosts.as_str())),
                    None => None,
                };
                let override_interface = match labels.get(DOCKER_MDNS_INTERFACE) {
                    Some(interface) => Some(interface.clone()),
                    None => None,
                };
                Config { hosts, id, override_interface, state }
            },
        }
    }

    /// Whether publishing is switched on.
    pub fn enabled(&self) -> (enabled: bool)
        ensures
            enabled == self@.enabled,
    {
        self.state == State::Enabled
    }

    /// The host names to publish, in the order of the label.
    pub fn hosts(&self) -> (hosts: Option<Vec<&str>>)
        ensures
            hosts.deep_view() == self@.hosts,
    {
        match &self.hosts {
            None => None,
            Some(names) => {
                let mut out: Vec<&str> = Vec::new();
                let mut i: usize = 0;
                while i < names.len()
                    invariant
                        i <= names.len(),
                        out.len() == i,
                        forall|k: int| 0 <= k < i ==> out[k]@ == #[trigger] names[k]@,
                    decreases names.len() - i,
                {
                    out.push(names[i].as_str());
                    i += 1;
                }
                Some(out)
            },
        }
    }

    /// The container's identifier.
    pub fn id(&self) -> (id: &str)
        ensures
            id@ == self@.id,
    {
        self.id.as_str()
    }

    /// The interface to take the addresses from, where the labels name one.
    pub fn override_interface(&self) -> (interface: Option<&str>)
        ensures
            interface.deep_view() == self@.override_interface,
    {
        match &self.override_interface {
            Some(interface) => Some(interface.as_str()),
            None => None,
        }
    }
}

} // verus!
