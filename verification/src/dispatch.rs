//! From a lifecycle event to what the bridge does about it.

use crate::action::classify;
use crate::action::Action;
use crate::bus::wanted;
use crate::bus::Dbus;
use crate::bus::DbusView;
use crate::bus::ReplyView;
use crate::bus::Step;
use crate::bus::StepView;
use crate::docker::ContainerSummary;
use crate::docker::ContainerView;
use crate::docker::EventMessage;
use crate::docker::EventView;
use crate::exchange::law_publish_each_in_order;
use crate::exchange::law_publish_each_passes_over;
use crate::exchange::publish_replies;
use crate::exchange::publish_requests;
use crate::exchange::run;
use crate::exchange::run_publish_each;
use crate::exchange::Run;
use crate::mdns::config::interpret;
use crate::mdns::config::Config;
use crate::mdns::config::ConfigView;
use std::collections::VecDeque;
use vstd::prelude::*;

verus! {

/// Whether the bridge acts on `event`: it is of a kind that the bridge acts
/// on, and it says which container it is about.
pub open spec fn acted_on(event: EventView) -> bool {
    classify(event.action) != Action::Other && event.actor is Some
}

/// The first move that `event` calls for, and the registrations after it.
///
/// An event that is not acted on finishes at once. The start of a container
/// starts to publish what its labels ask for, and its end starts to
/// withdraw what is registered for it.
pub open spec fn handle(bus: DbusView, event: EventView) -> (DbusView, StepView) {
    if acted_on(event) {
        let actor = event.actor->0;
        let config = interpret(actor.id->0, actor.labels);
        if classify(event.action) == Action::Die {
            bus.unpublish(config.id)
        } else {
            (bus, bus.publish(config))
        }
    } else {
        (bus, StepView::Finished(Ok(())))
    }
}

/// Whether `event` names its container where the bridge acts on it.
pub open spec fn identified(event: EventView) -> bool {
    acted_on(event) ==> event.actor->0.id is Some
}

/// Whether every container of a listing is named.
pub open spec fn all_identified(containers: Seq<ContainerView>) -> bool {
    forall|i: int| 0 <= i < containers.len() ==> (#[trigger] containers[i]).id is Some
}

/// The configurations of the containers of a listing, in its order.
pub open spec fn configs_of(containers: Seq<ContainerView>) -> Seq<ConfigView> {
    containers.map_values(|container: ContainerView| interpret(container.id->0, container.labels))
}

/// An event that the bridge does not act on makes no request and leaves the
/// registrations as they are.
pub proof fn law_ignored_event_is_silent(bus: DbusView, event: EventView, replies: Seq<ReplyView>)
    requires
        !acted_on(event),
    ensures
        run(handle(bus, event).0, handle(bus, event).1, replies) == (Run {
            bus,
            requests: Seq::empty(),
            outcome: Some(Ok(())),
        }),
{
}

/// The end of a container for which nothing is registered makes no request
/// and ends well.
pub proof fn law_end_of_unknown_container_is_silent(
    bus: DbusView,
    event: EventView,
    replies: Seq<ReplyView>,
)
    requires
        acted_on(event),
        classify(event.action) == Action::Die,
        event.actor->0.id is Some,
        !bus.published.contains_key(event.actor->0.id->0),
    ensures
        run(handle(bus, event).0, handle(bus, event).1, replies) == (Run {
            bus,
            requests: Seq::empty(),
            outcome: Some(Ok(())),
        }),
{
}

/// The containers of a listing are published in the order of the listing
/// and one after the other: what the first asks for is published to its
/// end, and only then does the publish of the others start.
pub proof fn law_listing_is_published_in_order(
    bus: DbusView,
    first: ContainerView,
    rest: Seq<ContainerView>,
    group: Seq<char>,
    addresses: Seq<Seq<char>>,
    later: Seq<ReplyView>,
)
    requires
        wanted(interpret(first.id->0, first.labels)),
    ensures
        ({
            let config = interpret(first.id->0, first.labels);
            run_publish_each(
                bus,
                configs_of(seq![first] + rest),
                publish_replies(bus, config, group, addresses) + later,
            ) == run_publish_each(bus.record(config.id, group), configs_of(rest), later).after(
                publish_requests(bus, config, group, addresses),
            )
        }),
{
    let config = interpret(first.id->0, first.labels);
    assert(configs_of(seq![first] + rest) =~= seq![config] + configs_of(rest));
    law_publish_each_in_order(bus, config, configs_of(rest), group, addresses, later);
}

/// A container of a listing that asks for nothing is passed over.
pub proof fn law_listing_passes_over(bus: DbusView, first: ContainerView, rest: Seq<ContainerView>)
    requires
        !wanted(interpret(first.id->0, first.labels)),
    ensures
        bus.publish_each(configs_of(seq![first] + rest)) == bus.publish_each(configs_of(rest)),
{
    let config = interpret(first.id->0, first.labels);
    assert(configs_of(seq![first] + rest) =~= seq![config] + configs_of(rest));
    law_publish_each_passes_over(bus, config, configs_of(rest));
}

/// Tells whether `event` may be given to [`handler`]: it names its
/// container, or the bridge does not act on it.
pub fn is_identified(event: &EventMessage) -> (ok: bool)
    ensures
        ok == identified(event@),
{
    match Action::from(&event.action) {
        Action::Other => true,
        _ => match &event.actor {
            Some(actor) => actor.id.is_some(),
            None => true,
        },
    }
}

/// Starts what `event` calls for.
///
/// An event that the bridge acts on must name its container: the runtime
/// does so for every container event.
#[must_use]
pub fn handler(bus: &mut Dbus, event: &EventMessage) -> (step: Step)
    requires
        identified(event@),
    ensures
        (final(bus)@, step@) == handle(old(bus)@, event@),
{
    let action = match Action::from(&event.action) {
        Action::Other => {
            return Step::Finished(Ok(()));
        },
        wanted => wanted,
    };
    let actor = match &event.actor {
        Some(actor) => actor,
        None => {
            return Step::Finished(Ok(()));
        },
    };
    let config = Config::from(actor);
    match action {
        Action::Die => bus.unpublish(&config),
        _ => bus.publish(&config),
    }
}

/// Tells whether `containers` may be given to [`reconcile`]: each of them
/// is named.
pub fn are_identified(containers: &Vec<ContainerSummary>) -> (ok: bool)
    ensures
        ok == all_identified(containers.deep_view()),
{
    let mut i: usize = 0;
    while i < containers.len()
        invariant
            i <= containers.len(),
            forall|k: int| 0 <= k < i ==> (#[trigger] containers.deep_view()[k]).id is Some,
        decreases containers.len() - i,
    {
        if containers[i].id.is_none() {
            assert(containers.deep_view()[i as int].id is None);
            return false;
        }
        i += 1;
    }
    true
}

/// Starts to publish what the containers of a listing ask for, one
/// container after the other and in the order of the listing.
///
/// The runtime names every container that it lists, so each must be named.
#[must_use]
pub fn reconcile(bus: &Dbus, containers: &Vec<ContainerSummary>) -> (step: Step)
    requires
        all_identified(containers.deep_view()),
    ensures
        step@ == bus@.publish_each(configs_of(containers.deep_view())),
{
    let mut configs: VecDeque<Config> = VecDeque::new();
    let mut i: usize = 0;
    while i < containers.len()
        invariant
            i <= containers.len(),
            all_identified(containers.deep_view()),
            configs.deep_view() == configs_of(containers.deep_view().take(i as int)),
        decreases containers.len() - i,
    {
        let ghost listed = containers.deep_view();
        let ghost before = configs.deep_view();
        assert(listed[i as int].id is Some);
        let config = Config::from(&containers[i]);
        configs.push_back(config);
        assert(configs.deep_view() =~= before.push(config@));
        assert(listed.take(i as int + 1) =~= listed.take(i as int).push(listed[i as int]));
        assert(configs_of(listed.take(i as int + 1)) =~= configs_of(listed.take(i as int)).push(
            interpret(listed[i as int].id->0, listed[i as int].labels),
        ));
        i += 1;
    }
    assert(containers.deep_view().take(containers.len() as int) =~= containers.deep_view());
    bus.publish_each(configs)
}

} // verus!
