//! What the container runtime tells the bridge about a container.
//!
//! Both a lifecycle event and an entry of a container listing come down to
//! an optional identifier and an optional set of labels; [`Container`] is
//! that pair.

use crate::action::classify;
use crate::action::Action;
use crate::mdns::config::DOCKER_MDNS_ENABLE;
use vstd::hash_map::StringHashMap;
use vstd::prelude::*;
use vstd::string::*;

verus! {

/// The labels of a container: values by key.
pub struct Labels {
    entries: StringHashMap<String>,
}

impl View for Labels {
    type V = Map<Seq<char>, Seq<char>>;

    closed spec fn view(&self) -> Map<Seq<char>, Seq<char>> {
        self.entries@.map_values(|value: String| value@)
    }
}

impl DeepView for Labels {
    type V = Map<Seq<char>, Seq<char>>;

    open spec fn deep_view(&self) -> Map<Seq<char>, Seq<char>> {
        self@
    }
}

/// The value of the label `key`, where the labels hold it.
pub open spec fn label(labels: Map<Seq<char>, Seq<char>>, key: Seq<char>) -> Option<Seq<char>> {
    if labels.contains_key(key) {
        Some(labels[key])
    } else {
        None
    }
}

impl Labels {
    /// No labels.
    pub fn new() -> (labels: Labels)
        ensures
            labels@ == Map::<Seq<char>, Seq<char>>::empty(),
    {
        Labels { entries: StringHashMap::new() }
    }

    /// Sets the label `key` to `value`, replacing what it held before.
    pub fn insert(&mut self, key: String, value: String)
        ensures
            final(self)@ == old(self)@.insert(key@, value@),
    {
        self.entries.insert(key, value);
    }

    /// The value of the label `key`, if the container has that label.
    pub fn get(&self, key: &str) -> (value: Option<&String>)
        ensures
            value.deep_view() == label(self@, key@),
    {
        self.entries.get(key)
    }
}

/// What the runtime says of a container, as plain values.
pub struct ContainerView {
    /// The container's identifier, where there is one.
    pub id: Option<Seq<char>>,
    /// The container's labels, where there are any.
    pub labels: Option<Map<Seq<char>, Seq<char>>>,
}

/// Anything that names a container and carries its labels.
pub trait Container {
    /// What is known of the container.
    spec fn container(&self) -> ContainerView;

    /// The container's identifier, where there is one.
    fn id(&self) -> (id: Option<&String>)
        ensures
            id.deep_view() == self.container().id,
    ;

    /// The container's labels, where there are any.
    fn labels(&self) -> (labels: Option<&Labels>)
        ensures
            labels.deep_view() == self.container().labels,
    ;
}

/// The container that a lifecycle event is about.
pub struct EventActor {
    /// The container's identifier.
    pub id: Option<String>,
    /// The container's labels.
    pub attributes: Option<Labels>,
}

impl View for EventActor {
    type V = ContainerView;

    open spec fn view(&self) -> ContainerView {
        ContainerView { id: self.id.deep_view(), labels: self.attributes.deep_view() }
    }
}

impl DeepView for EventActor {
    type V = ContainerView;

    open spec fn deep_view(&self) -> ContainerView {
        self@
    }
}

impl Container for EventActor {
    open spec fn container(&self) -> ContainerView {
        self@
    }

    fn id(&self) -> (id: Option<&String>) {
        self.id.as_ref()
    }

    fn labels(&self) -> (labels: Option<&Labels>) {
        self.attributes.as_ref()
    }
}

/// An entry of a container listing.
pub struct ContainerSummary {
    /// The container's identifier.
    pub id: Option<String>,
    /// The container's labels.
    pub labels: Option<Labels>,
}

impl View for ContainerSummary {
    type V = ContainerView;

    open spec fn view(&self) -> ContainerView {
        ContainerView { id: self.id.deep_view(), labels: self.labels.deep_view() }
    }
}

impl DeepView for ContainerSummary {
    type V = ContainerView;

    open spec fn deep_view(&self) -> ContainerView {
        self@
    }
}

impl Container for ContainerSummary {
    open spec fn container(&self) -> ContainerView {
        self@
    }

    fn id(&self) -> (id: Option<&String>) {
        self.id.as_ref()
    }

    fn labels(&self) -> (labels: Option<&Labels>) {
        self.labels.as_ref()
    }
}

/// A lifecycle event.
pub struct EventMessage {
    /// The kind of event, such as `start` or `die`.
    pub action: Option<String>,
    /// The container that the event is about.
    pub actor: Option<EventActor>,
}

/// An [`EventMessage`] as plain values.
pub struct EventView {
    /// The kind of event.
    pub action: Option<Seq<char>>,
    /// The container that the event is about.
    pub actor: Option<ContainerView>,
}

impl View for EventMessage {
    type V = EventView;

    open spec fn view(&self) -> EventView {
        EventView { action: self.action.deep_view(), actor: self.actor.deep_view() }
    }
}

/// The event kinds that the bridge asks the runtime for.
pub open spec fn watched_actions() -> Seq<Seq<char>> {
    seq!["die"@, "start"@]
}

/// The label filter that selects the containers with publishing switched
/// on: the enabling label, an equals sign, and the value that enables.
pub open spec fn enabling_label() -> Seq<char> {
    DOCKER_MDNS_ENABLE@ + "="@ + "true"@
}

/// The states of a container in which its names are to be published when
/// the bridge starts.
pub open spec fn running_states() -> Seq<Seq<char>> {
    seq!["created"@, "paused"@, "restarting"@, "running"@]
}

/// The event kinds that the bridge asks for are those that it acts on, and
/// no others.
pub proof fn law_watched_actions_are_acted_on(kind: Seq<char>)
    ensures
        watched_actions().contains(kind) <==> classify(Some(kind)) != Action::Other,
{
    if kind == "die"@ {
        assert(watched_actions()[0] == kind);
    } else if kind == "start"@ {
        assert(watched_actions()[1] == kind);
    }
}

/// The filters of the event stream that the bridge listens to: container
/// events of the kinds that it acts on.
pub fn event_filters() -> (filters: Vec<(String, Vec<String>)>)
    ensures
        filters.deep_view() == seq![("action"@, watched_actions()), ("type"@, seq!["container"@])],
{
    let actions: Vec<String> = vec!["die".to_owned(), "start".to_owned()];
    let types: Vec<String> = vec!["container".to_owned()];
    assert(actions.deep_view() =~= watched_actions());
    assert(types.deep_view() =~= seq!["container"@]);
    let filters: Vec<(String, Vec<String>)> = vec![
        ("action".to_owned(), actions),
        ("type".to_owned(), types),
    ];
    filters
}

/// The filters of the container listing that the bridge reads when it
/// starts: containers that are up in some way and have publishing switched
/// on.
pub fn startup_filters() -> (filters: Vec<(String, Vec<String>)>)
    ensures
        filters.deep_view() == seq![
            ("label"@, seq![enabling_label()]),
            ("status"@, running_states()),
        ],
{
    let mut label = DOCKER_MDNS_ENABLE.to_owned();
    label.append("=");
    label.append("true");
    let labels: Vec<String> = vec![label];
    let states: Vec<String> = vec![
        "created".to_owned(),
        "paused".to_owned(),
        "restarting".to_owned(),
        "running".to_owned(),
    ];
    assert(labels.deep_view() =~= seq![enabling_label()]);
    assert(states.deep_view() =~= running_states());
    let filters: Vec<(String, Vec<String>)> = vec![
        ("label".to_owned(), labels),
        ("status".to_owned(), states),
    ];
    filters
}

} // verus!
