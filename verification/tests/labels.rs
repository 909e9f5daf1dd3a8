use docker_mdns::action::Action;
use docker_mdns::docker::{
    event_filters, startup_filters, Container, ContainerSummary, EventActor, Labels,
};
use docker_mdns::mdns::config::{DOCKER_MDNS_ENABLE, DOCKER_MDNS_HOST, DOCKER_MDNS_INTERFACE};
use docker_mdns::mdns::{Config, State};
use docker_mdns::mdnsconfig::{MdnsConfig, MdnsState};

fn labels(pairs: &[(&str, &str)]) -> Labels {
    let mut labels = Labels::new();
    for (key, value) in pairs {
        labels.insert(key.to_string(), value.to_string());
    }
    labels
}

fn actor(id: &str, pairs: &[(&str, &str)]) -> EventActor {
    EventActor {
        id: Some(id.to_string()),
        attributes: Some(labels(pairs)),
    }
}

#[test]
fn action_test_from() {
    let tests = vec![
        (Some("die".to_string()), Action::Die),
        (Some("start".to_string()), Action::Start),
        (Some("foobar".to_string()), Action::Other),
        (None, Action::Other),
    ];

    for test in tests {
        let input = test.0;
        let expected = test.1;

        let action = Action::from(&input);

        assert_eq!(action, expected);
    }
}

#[test]
fn state_test_from() {
    // We need to be passing Option<&String>, so make some Strings.
    let true_one = String::from("true");
    let true_two = String::from("True");
    let false_one = String::from("false");

    let tests = vec![
        (Some(&true_one), State::Enabled),
        (Some(&true_two), State::Disabled),
        (Some(&false_one), State::Disabled),
        (None, State::Disabled),
    ];

    for test in tests {
        let input = test.0;
        let expected = test.1;

        let ret = State::from(input);

        assert_eq!(ret, expected);
    }
}

// This test also indirectly tests the reading of an event's actor.
#[test]
fn test_from_container_summary() {
    let id = "abc123".to_string();
    let mut labels = Labels::new();
    labels.insert("docker-mdns.enable".to_string(), "false".to_string());

    let input = ContainerSummary {
        id: Some(id.clone()),
        labels: Some(labels),
    };

    let config = Config::from(&input);

    let expected = Config::disabled(id);

    assert_eq!(config, expected);
}

#[test]
fn classify_event_kinds() {
    assert_eq!(Action::from(&Some("start".to_string())), Action::Start);
    assert_eq!(Action::from(&Some("die".to_string())), Action::Die);
    assert_eq!(Action::from(&None), Action::Other);
    assert_eq!(Action::from(&Some("pause".to_string())), Action::Other);
}

#[test]
fn classify_is_exact() {
    for kind in ["", "Start", "START", "start ", " die", "died", "dies", "stop", "kill", "sta"] {
        assert_eq!(Action::from(&Some(kind.to_string())), Action::Other, "{:?}", kind);
    }
}

#[test]
fn mdns_state_from() {
    let yes = String::from("true");
    let no = String::from("True");
    assert_eq!(MdnsState::from(Some(&yes)), MdnsState::Enabled);
    assert_eq!(MdnsState::from(Some(&no)), MdnsState::Disabled);
    assert_eq!(MdnsState::from(None), MdnsState::Disabled);
}

#[test]
fn states_default_to_disabled() {
    assert_eq!(State::default(), State::Disabled);
    assert_eq!(MdnsState::default(), MdnsState::Disabled);
}

#[test]
fn config_default_publishes_nothing() {
    let config = Config::default();
    assert!(!config.enabled());
    assert_eq!(config.hosts(), None);
    assert_eq!(config.id(), "");
    assert_eq!(config.override_interface(), None);
    assert_eq!(config, Config::disabled(String::new()));

    let config = MdnsConfig::default();
    assert!(!config.enabled());
    assert_eq!(config.hosts(), &None);
    assert_eq!(config.id(), "");
    assert_eq!(config.interface(), None);
}

#[test]
fn label_names() {
    assert_eq!(DOCKER_MDNS_ENABLE, "docker-mdns.enable");
    assert_eq!(DOCKER_MDNS_HOST, "docker-mdns.host");
    assert_eq!(DOCKER_MDNS_INTERFACE, "docker-mdns.interface");
}

#[test]
fn hosts_are_the_words_of_the_host_label() {
    for others in [
        vec![],
        vec![("docker-mdns.enable", "true")],
        vec![("docker-mdns.enable", "no"), ("docker-mdns.interface", "eth1")],
        vec![("com.example.other", "a  b\tc d")],
    ] {
        let mut pairs = others.clone();
        pairs.push(("docker-mdns.host", "a  b\tc"));
        let config = Config::from(&actor("c1", &pairs));
        assert_eq!(config.hosts(), Some(vec!["a", "b", "c"]));

        let config = MdnsConfig::from(&actor("c1", &pairs));
        assert_eq!(
            config.hosts(),
            &Some(vec!["a".to_string(), "b".to_string(), "c".to_string()])
        );
    }
}

#[test]
fn hosts_of_an_empty_label_are_none_at_all() {
    let config = Config::from(&actor("c1", &[("docker-mdns.host", "")]));
    assert_eq!(config.hosts(), Some(vec![]));
    let config = Config::from(&actor("c1", &[("docker-mdns.host", "  ")]));
    assert_eq!(config.hosts(), Some(vec![]));
}

#[test]
fn config_reads_all_three_labels() {
    let source = actor(
        "0123456789ab",
        &[
            ("docker-mdns.enable", "true"),
            ("docker-mdns.host", "foo.local bar.local"),
            ("docker-mdns.interface", "br0"),
            ("maintainer", "someone"),
        ],
    );
    let config = Config::from(&source);
    assert!(config.enabled());
    assert_eq!(config.hosts(), Some(vec!["foo.local", "bar.local"]));
    assert_eq!(config.id(), "0123456789ab");
    assert_eq!(config.override_interface(), Some("br0"));

    let config = MdnsConfig::from(&source);
    assert!(config.enabled());
    assert_eq!(
        config.hosts(),
        &Some(vec!["foo.local".to_string(), "bar.local".to_string()])
    );
    assert_eq!(config.id(), "0123456789ab");
    assert_eq!(config.interface(), Some(&"br0".to_string()));
}

#[test]
fn config_without_labels_is_disabled() {
    let source = EventActor {
        id: Some("c1".to_string()),
        attributes: None,
    };
    let config = Config::from(&source);
    assert_eq!(config, Config::disabled("c1".to_string()));
    assert!(!config.enabled());
    assert_eq!(config.hosts(), None);
    assert_eq!(config.override_interface(), None);

    let config = MdnsConfig::from(&source);
    assert!(!config.enabled());
    assert_eq!(config.hosts(), &None);
    assert_eq!(config.id(), "c1");
    assert_eq!(config.interface(), None);
}

#[test]
fn config_with_other_labels_only_is_disabled() {
    let config = Config::from(&actor("c1", &[("maintainer", "someone")]));
    assert_eq!(config, Config::disabled("c1".to_string()));
}

#[test]
fn label_keys_are_exact() {
    let config = Config::from(&actor(
        "c1",
        &[
            ("Docker-Mdns.Enable", "true"),
            ("docker-mdns.hosts", "foo.local"),
            ("docker-mdns.interface ", "eth1"),
        ],
    ));
    assert_eq!(config, Config::disabled("c1".to_string()));
}

#[test]
fn event_and_listing_read_alike() {
    let pairs = [
        ("docker-mdns.enable", "true"),
        ("docker-mdns.host", "foo.local"),
    ];
    let from_event = Config::from(&actor("c1", &pairs));
    let from_listing = Config::from(&ContainerSummary {
        id: Some("c1".to_string()),
        labels: Some(labels(&pairs)),
    });
    assert_eq!(from_event, from_listing);
}

#[test]
fn labels_hold_the_last_value_set() {
    let mut labels = Labels::new();
    assert_eq!(labels.get("a"), None);
    labels.insert("a".to_string(), "1".to_string());
    labels.insert("b".to_string(), "2".to_string());
    labels.insert("a".to_string(), "3".to_string());
    assert_eq!(labels.get("a"), Some(&"3".to_string()));
    assert_eq!(labels.get("b"), Some(&"2".to_string()));
    assert_eq!(labels.get("c"), None);
}

#[test]
fn containers_hand_out_what_they_hold() {
    let source = actor("c1", &[("a", "1")]);
    assert_eq!(source.id(), Some(&"c1".to_string()));
    assert_eq!(source.labels().and_then(|l| l.get("a")), Some(&"1".to_string()));

    let source = ContainerSummary { id: None, labels: None };
    assert_eq!(source.id(), None);
    assert!(source.labels().is_none());
}

#[test]
fn event_stream_is_filtered_to_what_is_acted_on() {
    let filters = event_filters();
    assert_eq!(
        filters,
        vec![
            (
                "action".to_string(),
                vec!["die".to_string(), "start".to_string()]
            ),
            ("type".to_string(), vec!["container".to_string()]),
        ]
    );
    for kind in &filters[0].1 {
        assert_ne!(Action::from(&Some(kind.clone())), Action::Other);
    }
}

#[test]
fn startup_listing_is_filtered_to_enabled_containers_that_are_up() {
    assert_eq!(
        startup_filters(),
        vec![
            (
                "label".to_string(),
                vec!["docker-mdns.enable=true".to_string()]
            ),
            (
                "status".to_string(),
                vec![
                    "created".to_string(),
                    "paused".to_string(),
                    "restarting".to_string(),
                    "running".to_string(),
                ]
            ),
        ]
    );
}
