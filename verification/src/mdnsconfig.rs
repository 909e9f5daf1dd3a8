//! The publishing configuration with owned accessors.
//!
//! [`MdnsConfig`] reads the same labels as [`crate::mdns::Config`] and comes
//! to the same result; it hands out its fields as they are stored.

use crate::docker::Container;
use crate::mdns::config::disabled;
use crate::mdns::config::interpret;
use crate::mdns::config::ConfigView;
use crate::mdns::config::DOCKER_MDNS_ENABLE;
use crate::mdns::config::DOCKER_MDNS_HOST;
use crate::mdns::config::DOCKER_MDNS_INTERFACE;
use crate::mdns::state::enables;
use crate::text::split_whitespace;
use vstd::prelude::*;
use vstd::std_specs::convert::FromSpecImpl;

verus! {

/// Whether a container's names are to be published.
#[derive(Clone, Copy, Debug, PartialEq, Eq, Structural)]
pub enum MdnsState {
    /// Nothing is published for the container.
    Disabled,
    /// The container's names are published.
    Enabled,
}

impl Default for MdnsState {
    fn default() -> (state: MdnsState)
        ensures
            state == MdnsState::Disabled,
    {
        MdnsState::Disabled
    }
}

impl From<Option<&String>> for MdnsState {
    fn from(s: Option<&String>) -> (state: MdnsState)
        ensures
            state == if enables(s.deep_view()) {
                MdnsState::Enabled
            } else {
                MdnsState::Disabled
            },
    {
        match s {
            Some(value) => {
                if *value == "true".to_owned() {
                    MdnsState::Enabled
                } else {
                    MdnsState::Disabled
                }
            },
            None => MdnsState::Disabled,
        }
    }
}

impl FromSpecImpl<Option<&String>> for MdnsState {
    open spec fn obeys_from_spec() -> bool {
        true
    }

    open spec fn from_spec(s: Option<&String>) -> MdnsState {
        if enables(s.deep_view()) {
            MdnsState::Enabled
        } else {
            MdnsState::Disabled
        }
    }
}

/// What is to be published for one container.
#[derive(Debug)]
pub struct MdnsConfig {
    hosts: Option<Vec<String>>,
    id: String,
    interface: Option<String>,
    state: MdnsState,
}

impl View for MdnsConfig {
    type V = ConfigView;

    closed spec fn view(&self) -> ConfigView {
        ConfigView {
            hosts: self.hosts.deep_view(),
            id: self.id@,
            override_interface: self.interface.deep_view(),
            enabled: self.state == MdnsState::Enabled,
        }
    }
}

impl Default for MdnsConfig {
    fn default() -> (config: MdnsConfig)
        ensures
            config@ == disabled(Seq::empty()),
    {
        MdnsConfig { hosts: None, id: String::new(), interface: None, state: MdnsState::Disabled }
    }
}

impl MdnsConfig {
    /// Reads the configuration of a container from its labels.
    ///
    /// The runtime names the container in every event and listing entry
    /// that the bridge asks for, so the identifier must be there.
    pub fn from<C: Container>(source: &C) -> (config: MdnsConfig)
        requires
            source.container().id is Some,
        ensures
            config@ == interpret(source.container().id->0, source.container().labels),
    {
        let id = source.id().unwrap().clone();
        match source.labels() {
            None => MdnsConfig { hosts: None, id, interface: None, state: MdnsState::Disabled },
            Some(labels) => {
                let state = MdnsState::from(labels.get(DOCKER_MDNS_ENABLE));
                let hosts = match labels.get(DOCKER_MDNS_HOST) {
                    Some(hosts) => Some(split_whitespace(hosts.as_str())),
                    None => None,
                };
                let interface = match labels.get(DOCKER_MDNS_INTERFACE) {
                    Some(interface) => Some(interface.clone()),
                    None => None,
                };
                MdnsConfig { hosts, id, interface, state }
            },
        }
    }

    /// Whether publishing is switched on.
    pub fn enabled(&self) -> (enabled: bool)
        ensures
            enabled == self@.enabled,
    {
        self.state == MdnsState::Enabled
    }

    /// The host names to publish, in the order of the label.
    pub fn hosts(&self) -> (hosts: &Option<Vec<String>>)
        ensures
            hosts.deep_view() == self@.hosts,
    {
        &self.hosts
    }

    /// The container's identifier.
    pub fn id(&self) -> (id: &str)
        ensures
            id@ == self@.id,
    {
        self.id.as_str()
    }

    /// The interface to take the addresses from, where the labels name one.
    pub fn interface(&self) -> (interface: Option<&String>)
        ensures
            interface.deep_view() == self@.override_interface,
    {
        self.interface.as_ref()
    }
}

} // verus!
