//! Whole exchanges: what a publish or an unpublish comes to, reply by reply.
//!
//! The functions of [`crate::bus`] make one move at a time. This module
//! says what a run of moves adds up to, and proves what the bridge promises
//! of its registrations.

use crate::bus::add_address;
use crate::bus::add_hosts;
use crate::bus::add_requests;
use crate::bus::interface_for;
use crate::bus::release_requests;
use crate::bus::wanted;
use crate::bus::DbusView;
use crate::bus::ErrorView;
use crate::bus::ReplyView;
use crate::bus::RequestView;
use crate::bus::StepView;
use crate::docker::label;
use crate::mdns::config::interpret;
use crate::mdns::config::ConfigView;
use crate::mdns::config::DOCKER_MDNS_ENABLE;
use vstd::prelude::*;

verus! {

/// What an exchange has come to.
pub struct Run {
    /// The registrations after the last move.
    pub bus: DbusView,
    /// The requests that were handed out, in order.
    pub requests: Seq<RequestView>,
    /// How the exchange ended, or `None` while a request is still out.
    pub outcome: Option<Result<(), ErrorView>>,
}

impl Run {
    /// This run, with `requests` handed out before it.
    pub open spec fn after(self, requests: Seq<RequestView>) -> Run {
        Run { bus: self.bus, requests: requests + self.requests, outcome: self.outcome }
    }
}

/// What comes of the exchange that stands at `step` when the replies of
/// `replies` are given to it one after the other.
///
/// Replies that are left when the exchange has finished are not looked at.
pub open spec fn run(bus: DbusView, step: StepView, replies: Seq<ReplyView>) -> Run
    decreases replies.len(),
{
    match step {
        StepView::Finished(outcome) => Run { bus, requests: Seq::empty(), outcome: Some(outcome) },
        StepView::Perform { request, pending } => {
            if replies.len() == 0 {
                Run { bus, requests: seq![request], outcome: None }
            } else {
                let (next_bus, next_step) = bus.advance(pending, replies.first());
                run(next_bus, next_step, replies.drop_first()).after(seq![request])
            }
        },
    }
}

/// What a publish of `config` comes to under `replies`.
pub open spec fn run_publish(bus: DbusView, config: ConfigView, replies: Seq<ReplyView>) -> Run {
    run(bus, bus.publish(config), replies)
}

/// What a publish of each of `configs` comes to under `replies`.
pub open spec fn run_publish_each(
    bus: DbusView,
    configs: Seq<ConfigView>,
    replies: Seq<ReplyView>,
) -> Run {
    run(bus, bus.publish_each(configs), replies)
}

/// What an unpublish of the container `id` comes to under `replies`.
pub open spec fn run_unpublish(bus: DbusView, id: Seq<char>, replies: Seq<ReplyView>) -> Run {
    run(bus.unpublish(id).0, bus.unpublish(id).1, replies)
}

/// `count` times the reply that a request was done.
pub open spec fn done(count: nat) -> Seq<ReplyView> {
    Seq::new(count, |i: int| ReplyView::Done)
}

/// The requests of a publish of `config` in which nothing fails and the
/// daemon makes the entry group `group`: for the group, for the addresses,
/// one for each host name at each address, and the commit.
pub open spec fn publish_requests(
    bus: DbusView,
    config: ConfigView,
    group: Seq<char>,
    addresses: Seq<Seq<char>>,
) -> Seq<RequestView> {
    seq![
        RequestView::EntryGroupNew,
        RequestView::InterfaceAddresses { interface: interface_for(bus.interface_name, config) },
    ] + add_requests(bus.avahi_interface_index, group, config.hosts->0, addresses) + seq![
        RequestView::Commit { group },
    ]
}

/// The replies of a publish of `config` in which nothing fails: the daemon
/// makes the entry group `group`, the interface has the addresses
/// `addresses`, and each request that follows is done.
pub open spec fn publish_replies(
    bus: DbusView,
    config: ConfigView,
    group: Seq<char>,
    addresses: Seq<Seq<char>>,
) -> Seq<ReplyView> {
    seq![ReplyView::Group(group), ReplyView::Addresses(addresses)] + done(
        add_requests(bus.avahi_interface_index, group, config.hosts->0, addresses).len() + 1,
    )
}

/// The replies `replies` up to the one number `failed`, in its place the
/// failure `message`, and `later` after it.
pub open spec fn failing(
    replies: Seq<ReplyView>,
    failed: int,
    message: Seq<char>,
    later: Seq<ReplyView>,
) -> Seq<ReplyView> {
    replies.take(failed).push(ReplyView::Failed(message)) + later
}

/// Whether nothing is published after the exchange that stands at `step`.
pub open spec fn alone(step: StepView) -> bool {
    step matches StepView::Perform { pending, .. } ==> pending.after.len() == 0
}

/// A configuration that asks for nothing is published without a single
/// request, whatever the registrations are: the exchange ends well at once
/// and the registrations stay as they are.
pub proof fn law_unwanted_publish_is_silent(
    bus: DbusView,
    config: ConfigView,
    replies: Seq<ReplyView>,
)
    requires
        !wanted(config),
    ensures
        run_publish(bus, config, replies) == (Run {
            bus,
            requests: Seq::empty(),
            outcome: Some(Ok(())),
        }),
{
}

/// Labels that do not hold the enabling label with the exact value `true`
/// switch publishing off, and a publish of what they describe makes no
/// request.
pub proof fn law_not_enabled_is_silent(
    bus: DbusView,
    id: Seq<char>,
    labels: Option<Map<Seq<char>, Seq<char>>>,
    replies: Seq<ReplyView>,
)
    requires
        labels is None || label(labels->0, DOCKER_MDNS_ENABLE@) != Some("true"@),
    ensures
        !interpret(id, labels).enabled,
        run_publish(bus, interpret(id, labels), replies) == (Run {
            bus,
            requests: Seq::empty(),
            outcome: Some(Ok(())),
        }),
{
}

/// A publish in which nothing fails asks for an entry group, then for the
/// addresses of the interface, then binds every host name to every address,
/// then commits; and only then is the group noted for the container, in
/// place of any group noted for it before. The daemon is not asked to
/// release that earlier group.
pub proof fn law_publish_requests(
    bus: DbusView,
    config: ConfigView,
    group: Seq<char>,
    addresses: Seq<Seq<char>>,
)
    requires
        wanted(config),
    ensures
        publish_replies(bus, config, group, addresses).len() == publish_requests(
            bus,
            config,
            group,
            addresses,
        ).len(),
        run_publish(bus, config, publish_replies(bus, config, group, addresses)) == (Run {
            bus: bus.record(config.id, group),
            requests: publish_requests(bus, config, group, addresses),
            outcome: Some(Ok(())),
        }),
{
    let replies = publish_replies(bus, config, group, addresses);
    let requests = publish_requests(bus, config, group, addresses);
    lemma_run_started(bus, config, Seq::empty(), group, addresses, Seq::empty());
    assert(replies + Seq::empty() =~= replies);
    assert(requests + Seq::empty() =~= requests);
}

/// The first failure ends a publish: where the request number `failed`
/// fails, the requests up to it are made and no other, the publish ends with
/// the error of that request, and the registrations stay as they were.
pub proof fn law_publish_stops_at_first_failure(
    bus: DbusView,
    config: ConfigView,
    group: Seq<char>,
    addresses: Seq<Seq<char>>,
    failed: int,
    message: Seq<char>,
    later: Seq<ReplyView>,
)
    requires
        wanted(config),
        0 <= failed < publish_requests(bus, config, group, addresses).len(),
    ensures
        run_publish(
            bus,
            config,
            failing(publish_replies(bus, config, group, addresses), failed, message, later),
        ) == (Run {
            bus,
            requests: publish_requests(bus, config, group, addresses).take(failed + 1),
            outcome: Some(
                Err(
                    ErrorView::Failed {
                        call: publish_requests(bus, config, group, addresses)[failed].call(),
                        message,
                    },
                ),
            ),
        }),
{
    lemma_run_started_fails(bus, config, Seq::empty(), group, addresses, failed, message, later);
}

/// A publish that does not end well, because a request failed or because it
/// has not come to its end, leaves the registrations as they were.
pub proof fn law_failed_publish_records_nothing(
    bus: DbusView,
    config: ConfigView,
    replies: Seq<ReplyView>,
)
    ensures
        run_publish(bus, config, replies).outcome != Some(Ok::<(), ErrorView>(()))
            ==> run_publish(bus, config, replies).bus == bus,
{
    lemma_run_keeps(bus, bus.publish(config), replies);
}

/// Publishing one configuration is publishing each of a list of one.
pub proof fn law_publish_one_is_publish_each(bus: DbusView, config: ConfigView)
    ensures
        bus.publish(config) == bus.publish_each(seq![config]),
{
    let one = seq![config];
    assert(one.drop_first() =~= Seq::empty());
    assert(bus.publish_each(one.drop_first()) == StepView::Finished(Ok(())));
}

/// A configuration that asks for nothing is passed over when several are
/// published in a row.
pub proof fn law_publish_each_passes_over(
    bus: DbusView,
    first: ConfigView,
    rest: Seq<ConfigView>,
)
    requires
        !wanted(first),
    ensures
        bus.publish_each(seq![first] + rest) == bus.publish_each(rest),
{
    assert((seq![first] + rest).drop_first() =~= rest);
}

/// Several configurations are published in their order and one after the
/// other: the publish of the first is carried to its end, its group is
/// noted, and only then does the publish of the rest start.
pub proof fn law_publish_each_in_order(
    bus: DbusView,
    first: ConfigView,
    rest: Seq<ConfigView>,
    group: Seq<char>,
    addresses: Seq<Seq<char>>,
    later: Seq<ReplyView>,
)
    requires
        wanted(first),
    ensures
        run_publish_each(
            bus,
            seq![first] + rest,
            publish_replies(bus, first, group, addresses) + later,
        ) == run_publish_each(bus.record(first.id, group), rest, later).after(
            publish_requests(bus, first, group, addresses),
        ),
{
    assert((seq![first] + rest).drop_first() =~= rest);
    lemma_run_started(bus, first, rest, group, addresses, later);
}

/// The first failure ends the publish of several configurations: the
/// requests up to the one that fails are made and no other, and those
/// configurations whose turn has not come are not published.
pub proof fn law_publish_each_stops_at_first_failure(
    bus: DbusView,
    first: ConfigView,
    rest: Seq<ConfigView>,
    group: Seq<char>,
    addresses: Seq<Seq<char>>,
    failed: int,
    message: Seq<char>,
    later: Seq<ReplyView>,
)
    requires
        wanted(first),
        0 <= failed < publish_requests(bus, first, group, addresses).len(),
    ensures
        run_publish_each(
            bus,
            seq![first] + rest,
            failing(publish_replies(bus, first, group, addresses), failed, message, later),
        ) == (Run {
            bus,
            requests: publish_requests(bus, first, group, addresses).take(failed + 1),
            outcome: Some(
                Err(
                    ErrorView::Failed {
                        call: publish_requests(bus, first, group, addresses)[failed].call(),
                        message,
                    },
                ),
            ),
        }),
{
    assert((seq![first] + rest).drop_first() =~= rest);
    lemma_run_started_fails(bus, first, rest, group, addresses, failed, message, later);
}

/// An unpublish of a container without a registration makes no request: the
/// exchange ends well at once and the registrations stay as they are.
pub proof fn law_unknown_unpublish_is_silent(
    bus: DbusView,
    id: Seq<char>,
    replies: Seq<ReplyView>,
)
    requires
        !bus.published.contains_key(id),
    ensures
        run_unpublish(bus, id, replies) == (Run {
            bus,
            requests: Seq::empty(),
            outcome: Some(Ok(())),
        }),
{
}

/// An unpublish of a container with a registration forgets it, whatever the
/// daemon replies; and it asks the daemon to empty the group and then to
/// release it, and nothing else.
pub proof fn law_unpublish_forgets(bus: DbusView, id: Seq<char>, replies: Seq<ReplyView>)
    requires
        bus.published.contains_key(id),
    ensures
        ({
            let end = run_unpublish(bus, id, replies);
            &&& end.bus == bus.forget(id)
            &&& !end.bus.published.contains_key(id)
            &&& 1 <= end.requests.len() <= 2
            &&& end.requests == release_requests(bus.published[id]).take(
                end.requests.len() as int,
            )
        }),
{
    lemma_run_prefix(bus.forget(id), release_requests(bus.published[id]), replies);
}

/// An unpublish in which nothing fails empties the group of the container
/// and then releases it.
pub proof fn law_unpublish_requests(bus: DbusView, id: Seq<char>)
    requires
        bus.published.contains_key(id),
    ensures
        run_unpublish(bus, id, done(2)) == (Run {
            bus: bus.forget(id),
            requests: release_requests(bus.published[id]),
            outcome: Some(Ok(())),
        }),
{
    let requests = release_requests(bus.published[id]);
    lemma_run_queue(bus.forget(id), requests, None, Seq::empty(), Seq::empty());
    assert(done(2) + Seq::empty() =~= done(2));
    assert(requests + Seq::empty() =~= requests);
}

/// The first failure ends an unpublish: where the request number `failed`
/// fails, the requests up to it are made and no other, and the unpublish
/// ends with the error of that request. The registration is forgotten all
/// the same.
pub proof fn law_unpublish_stops_at_first_failure(
    bus: DbusView,
    id: Seq<char>,
    failed: int,
    message: Seq<char>,
    later: Seq<ReplyView>,
)
    requires
        bus.published.contains_key(id),
        0 <= failed < 2,
    ensures
        run_unpublish(bus, id, failing(done(2), failed, message, later)) == (Run {
            bus: bus.forget(id),
            requests: release_requests(bus.published[id]).take(failed + 1),
            outcome: Some(
                Err(
                    ErrorView::Failed {
                        call: release_requests(bus.published[id])[failed].call(),
                        message,
                    },
                ),
            ),
        }),
{
    assert(done(2).take(failed) =~= done(failed as nat));
    lemma_run_queue_fails(
        bus.forget(id),
        release_requests(bus.published[id]),
        None,
        Seq::empty(),
        failed,
        message,
        later,
    );
}

/// What a publish registers, an unpublish withdraws: after a publish in
/// which nothing fails, an unpublish of the same container asks the daemon
/// to empty and release the group of that publish, and leaves no
/// registration for the container, whatever the daemon replies.
pub proof fn law_unpublish_undoes_publish(
    bus: DbusView,
    config: ConfigView,
    group: Seq<char>,
    addresses: Seq<Seq<char>>,
    replies: Seq<ReplyView>,
)
    requires
        wanted(config),
    ensures
        ({
            let published = run_publish(
                bus,
                config,
                publish_replies(bus, config, group, addresses),
            );
            let end = run_unpublish(published.bus, config.id, replies);
            &&& end.bus.published == bus.published.remove(config.id)
            &&& end.requests.len() >= 1
            &&& end.requests[0] == RequestView::Reset { group }
        }),
{
    law_publish_requests(bus, config, group, addresses);
    let published = bus.record(config.id, group);
    law_unpublish_forgets(published, config.id, replies);
    assert(published.forget(config.id).published =~= bus.published.remove(config.id));
}

/// Unpublishing a container twice in a row asks the daemon at most once to
/// empty and to release its group: whatever came of the first unpublish, the
/// second makes no request, ends well, and changes nothing.
pub proof fn law_unpublish_twice(
    bus: DbusView,
    id: Seq<char>,
    first: Seq<ReplyView>,
    second: Seq<ReplyView>,
)
    ensures
        ({
            let once = run_unpublish(bus, id, first);
            run_unpublish(once.bus, id, second) == (Run {
                bus: once.bus,
                requests: Seq::empty(),
                outcome: Some(Ok(())),
            })
        }),
{
    if bus.published.contains_key(id) {
        law_unpublish_forgets(bus, id, first);
    }
}

/// Publishing twice for one container, with nothing failing, leaves one
/// registration for it, and that holds the group of the second publish; no
/// other registration is touched.
pub proof fn law_republish_replaces(
    bus: DbusView,
    first: ConfigView,
    first_group: Seq<char>,
    first_addresses: Seq<Seq<char>>,
    second: ConfigView,
    second_group: Seq<char>,
    second_addresses: Seq<Seq<char>>,
)
    requires
        wanted(first),
        wanted(second),
        first.id == second.id,
    ensures
        ({
            let once = run_publish(
                bus,
                first,
                publish_replies(bus, first, first_group, first_addresses),
            );
            let twice = run_publish(
                once.bus,
                second,
                publish_replies(once.bus, second, second_group, second_addresses),
            );
            &&& twice.outcome == Some(Ok::<(), ErrorView>(()))
            &&& twice.bus.published == bus.published.insert(second.id, second_group)
            &&& twice.bus.published[second.id] == second_group
            &&& twice.bus.published.dom() == bus.published.dom().insert(second.id)
        }),
{
    law_publish_requests(bus, first, first_group, first_addresses);
    let once = bus.record(first.id, first_group);
    law_publish_requests(once, second, second_group, second_addresses);
    let twice = once.record(second.id, second_group);
    assert(twice.published =~= bus.published.insert(second.id, second_group));
}

/// The bridge keeps its interface and the daemon's index of it through every
/// exchange, however the exchange goes.
pub proof fn law_interface_is_kept(bus: DbusView, step: StepView, replies: Seq<ReplyView>)
    ensures
        run(bus, step, replies).bus.interface_name == bus.interface_name,
        run(bus, step, replies).bus.avahi_interface_index == bus.avahi_interface_index,
    decreases replies.len(),
{
    if step is Perform && replies.len() > 0 {
        let (next_bus, next_step) = bus.advance(step->pending, replies.first());
        law_interface_is_kept(next_bus, next_step, replies.drop_first());
    }
}

/// There is one request to bind for each pair of an address and a host
/// name.
pub proof fn law_add_requests_len(
    index: i32,
    group: Seq<char>,
    hosts: Seq<Seq<char>>,
    addresses: Seq<Seq<char>>,
)
    ensures
        add_requests(index, group, hosts, addresses).len() == addresses.len() * hosts.len(),
    decreases addresses.len(),
{
    if addresses.len() > 0 {
        lemma_add_requests_last(index, group, hosts, addresses);
        law_add_requests_len(index, group, hosts, addresses.drop_last());
        assert((addresses.len() - 1) * hosts.len() + hosts.len() == addresses.len() * hosts.len())
            by (nonlinear_arith);
    } else {
        assert(addresses.len() * hosts.len() == 0) by (nonlinear_arith)
            requires
                addresses.len() == 0,
        ;
    }
}

/// The requests to bind go address by address, and for each address host
/// name by host name: with `n` host names, the request for the address
/// number `a` and the host name number `h` is the one number `a * n + h`.
pub proof fn law_add_requests_order(
    index: i32,
    group: Seq<char>,
    hosts: Seq<Seq<char>>,
    addresses: Seq<Seq<char>>,
    a: int,
    h: int,
)
    requires
        0 <= a < addresses.len(),
        0 <= h < hosts.len(),
    ensures
        0 <= a * hosts.len() + h < add_requests(index, group, hosts, addresses).len(),
        add_requests(index, group, hosts, addresses)[a * hosts.len() + h] == add_address(
            index,
            group,
            hosts[h],
            addresses[a],
        ),
    decreases addresses.len(),
{
    let n = hosts.len() as int;
    let earlier = addresses.drop_last();
    lemma_add_requests_last(index, group, hosts, addresses);
    law_add_requests_len(index, group, hosts, addresses);
    law_add_requests_len(index, group, hosts, earlier);
    assert(0 <= a * n) by (nonlinear_arith)
        requires
            0 <= a,
            0 <= n,
    ;
    if a < earlier.len() {
        law_add_requests_order(index, group, hosts, earlier, a, h);
        assert(a * n + h < earlier.len() * n) by (nonlinear_arith)
            requires
                0 <= a < earlier.len(),
                0 <= h < n,
        ;
    }
}

/// An example of the order of the requests to bind: two host names at one
/// address come to two requests, the first host name first.
pub proof fn example_two_hosts_at_one_address(
    index: i32,
    group: Seq<char>,
    first: Seq<char>,
    second: Seq<char>,
    address: Seq<char>,
)
    ensures
        add_requests(index, group, seq![first, second], seq![address]) == seq![
            add_address(index, group, first, address),
            add_address(index, group, second, address),
        ],
{
    let hosts = seq![first, second];
    let addresses = seq![address];
    law_add_requests_len(index, group, hosts, addresses);
    law_add_requests_order(index, group, hosts, addresses, 0, 0);
    law_add_requests_order(index, group, hosts, addresses, 0, 1);
    assert(addresses.len() * hosts.len() == 2) by (nonlinear_arith)
        requires
            addresses.len() == 1,
            hosts.len() == 2,
    ;
    assert(0 * hosts.len() + 0 == 0 && 0 * hosts.len() + 1 == 1);
}

/// Handing out a queue of requests that are all done hands out each of
/// them, in order; then the group of `record` is noted and the exchange goes
/// on with those of `after`.
proof fn lemma_run_queue(
    bus: DbusView,
    queue: Seq<RequestView>,
    record: Option<(Seq<char>, Seq<char>)>,
    after: Seq<ConfigView>,
    later: Seq<ReplyView>,
)
    ensures
        ({
            let (start, step) = bus.proceed(queue, record, after);
            let (noted, next) = bus.proceed(Seq::empty(), record, after);
            run(start, step, done(queue.len()) + later) == run(noted, next, later).after(queue)
        }),
    decreases queue.len(),
{
    let (start, step) = bus.proceed(queue, record, after);
    let (noted, next) = bus.proceed(Seq::empty(), record, after);
    let replies = done(queue.len()) + later;
    if queue.len() > 0 {
        let rest = queue.drop_first();
        assert(replies.drop_first() =~= done(rest.len()) + later);
        lemma_run_queue(bus, rest, record, after, later);
        assert(seq![queue.first()] + (rest + run(noted, next, later).requests) =~= queue + run(
            noted,
            next,
            later,
        ).requests);
    } else {
        assert(replies =~= later);
        assert(queue + run(noted, next, later).requests =~= run(noted, next, later).requests);
    }
}

/// Handing out a queue of requests of which one fails hands out the
/// requests up to that one, and ends with its error; nothing is noted.
proof fn lemma_run_queue_fails(
    bus: DbusView,
    queue: Seq<RequestView>,
    record: Option<(Seq<char>, Seq<char>)>,
    after: Seq<ConfigView>,
    failed: int,
    message: Seq<char>,
    later: Seq<ReplyView>,
)
    requires
        0 <= failed < queue.len(),
    ensures
        run(
            bus.proceed(queue, record, after).0,
            bus.proceed(queue, record, after).1,
            done(failed as nat).push(ReplyView::Failed(message)) + later,
        ) == (Run {
            bus,
            requests: queue.take(failed + 1),
            outcome: Some(Err(ErrorView::Failed { call: queue[failed].call(), message })),
        }),
    decreases failed,
{
    let (_, step) = bus.proceed(queue, record, after);
    let replies = done(failed as nat).push(ReplyView::Failed(message)) + later;
    let end = run(bus, step, replies);
    if failed == 0 {
        let (_, last) = bus.advance(step->pending, replies.first());
        assert(run(bus, last, replies.drop_first()).requests =~= Seq::empty());
        assert(end.requests =~= queue.take(1));
    } else {
        let rest = queue.drop_first();
        assert(replies.drop_first() =~= done((failed - 1) as nat).push(ReplyView::Failed(message))
            + later);
        lemma_run_queue_fails(bus, rest, record, after, failed - 1, message, later);
        assert(seq![queue.first()] + rest.take(failed) =~= queue.take(failed + 1));
    }
}

/// A publish that has started and in which nothing fails makes its
/// requests; then its group is noted and the exchange goes on with those of
/// `after`.
proof fn lemma_run_started(
    bus: DbusView,
    config: ConfigView,
    after: Seq<ConfigView>,
    group: Seq<char>,
    addresses: Seq<Seq<char>>,
    later: Seq<ReplyView>,
)
    ensures
        publish_replies(bus, config, group, addresses).len() == publish_requests(
            bus,
            config,
            group,
            addresses,
        ).len(),
        run(bus, bus.start(config, after), publish_replies(bus, config, group, addresses) + later)
            == run_publish_each(bus.record(config.id, group), after, later).after(
            publish_requests(bus, config, group, addresses),
        ),
{
    let adds = add_requests(bus.avahi_interface_index, group, config.hosts->0, addresses);
    let queue = adds.push(RequestView::Commit { group });
    let record = Some((config.id, group));
    let replies = publish_replies(bus, config, group, addresses) + later;
    let end = run_publish_each(bus.record(config.id, group), after, later);

    // The first two replies bring the exchange to the queue of requests.
    let first = bus.start(config, after);
    let (_, second) = bus.advance(first->pending, replies[0]);
    let (_, third) = bus.proceed(queue, record, after);
    let after_group = run(bus, second, replies.skip(1));
    let after_addresses = run(bus, third, replies.skip(2));
    assert(replies.drop_first() =~= replies.skip(1));
    assert(replies.skip(1).drop_first() =~= replies.skip(2));
    assert(replies.skip(2) =~= done(queue.len()) + later);
    lemma_run_queue(bus, queue, record, after, later);

    assert(after_addresses == end.after(queue));
    assert(after_group == after_addresses.after(seq![second->request]));
    assert(run(bus, first, replies) == after_group.after(seq![first->request]));
    assert(seq![first->request] + (seq![second->request] + (queue + end.requests))
        =~= publish_requests(bus, config, group, addresses) + end.requests);
}

/// A publish that has started and in which a request fails makes the
/// requests up to that one and ends with its error; nothing is noted and
/// nothing of `after` is published.
proof fn lemma_run_started_fails(
    bus: DbusView,
    config: ConfigView,
    after: Seq<ConfigView>,
    group: Seq<char>,
    addresses: Seq<Seq<char>>,
    failed: int,
    message: Seq<char>,
    later: Seq<ReplyView>,
)
    requires
        0 <= failed < publish_requests(bus, config, group, addresses).len(),
    ensures
        run(
            bus,
            bus.start(config, after),
            failing(publish_replies(bus, config, group, addresses), failed, message, later),
        ) == (Run {
            bus,
            requests: publish_requests(bus, config, group, addresses).take(failed + 1),
            outcome: Some(
                Err(
                    ErrorView::Failed {
                        call: publish_requests(bus, config, group, addresses)[failed].call(),
                        message,
                    },
                ),
            ),
        }),
{
    let adds = add_requests(bus.avahi_interface_index, group, config.hosts->0, addresses);
    let queue = adds.push(RequestView::Commit { group });
    let record = Some((config.id, group));
    let all = publish_requests(bus, config, group, addresses);
    let replies = failing(
        publish_replies(bus, config, group, addresses),
        failed,
        message,
        later,
    );

    let first = bus.start(config, after);
    let end = run(bus, first, replies);
    let (_, second) = bus.advance(first->pending, replies[0]);
    let after_first = run(bus, second, replies.skip(1));
    assert(replies.drop_first() =~= replies.skip(1));
    if failed == 0 {
        // The request for the group fails.
        assert(end.requests =~= all.take(1));
    } else if failed == 1 {
        // The request for the addresses fails.
        let (_, third) = bus.advance(second->pending, replies[1]);
        let after_second = run(bus, third, replies.skip(2));
        assert(replies.skip(1).drop_first() =~= replies.skip(2));
        assert(after_first.requests == seq![second->request] + after_second.requests);
        assert(end.requests =~= all.take(2));
    } else {
        // A request of the queue fails.
        let (_, third) = bus.proceed(queue, record, after);
        let after_second = run(bus, third, replies.skip(2));
        assert(replies.skip(1).drop_first() =~= replies.skip(2));
        assert(replies.skip(2) =~= done((failed - 2) as nat).push(ReplyView::Failed(message))
            + later);
        lemma_run_queue_fails(bus, queue, record, after, failed - 2, message, later);
        assert(after_first.requests == seq![second->request] + after_second.requests);
        assert(end.requests =~= all.take(failed + 1));
    }
}

/// Where nothing is published after an exchange, the registrations change
/// only where the exchange ends well.
proof fn lemma_run_keeps(bus: DbusView, step: StepView, replies: Seq<ReplyView>)
    requires
        alone(step),
    ensures
        run(bus, step, replies).outcome != Some(Ok::<(), ErrorView>(())) ==> run(
            bus,
            step,
            replies,
        ).bus == bus,
    decreases replies.len(),
{
    if step is Perform && replies.len() > 0 {
        let (next_bus, next_step) = bus.advance(step->pending, replies.first());
        lemma_run_keeps(next_bus, next_step, replies.drop_first());
    }
}

/// An exchange that has nothing to note leaves the registrations alone, and
/// hands out the requests of its queue in order, as far as it comes.
proof fn lemma_run_prefix(bus: DbusView, queue: Seq<RequestView>, replies: Seq<ReplyView>)
    ensures
        ({
            let (start, step) = bus.proceed(queue, None, Seq::empty());
            let end = run(start, step, replies);
            &&& end.bus == bus
            &&& end.requests.len() <= queue.len()
            &&& queue.len() > 0 ==> end.requests.len() >= 1
            &&& end.requests == queue.take(end.requests.len() as int)
        }),
    decreases replies.len(),
{
    let (_, step) = bus.proceed(queue, None, Seq::empty());
    let end = run(bus, step, replies);
    if queue.len() == 0 {
        assert(end.requests =~= queue.take(0));
    } else if replies.len() > 0 && replies.first() is Done {
        let rest = queue.drop_first();
        lemma_run_prefix(bus, rest, replies.drop_first());
        let (_, next) = bus.proceed(rest, None, Seq::empty());
        let tail = run(bus, next, replies.drop_first());
        assert(end.requests == seq![queue.first()] + tail.requests);
        assert(end.requests =~= queue.take(end.requests.len() as int));
    } else if replies.len() > 0 {
        // The reply is a failure or of the wrong kind: the exchange ends.
        let (_, last) = bus.advance(step->pending, replies.first());
        assert(run(bus, last, replies.drop_first()).requests =~= Seq::empty());
        assert(end.requests =~= queue.take(1));
    } else {
        assert(end.requests =~= queue.take(1));
    }
}

/// The requests for all addresses are those for all but the last address
/// and then those for the last.
proof fn lemma_add_requests_last(
    index: i32,
    group: Seq<char>,
    hosts: Seq<Seq<char>>,
    addresses: Seq<Seq<char>>,
)
    requires
        addresses.len() > 0,
    ensures
        add_requests(index, group, hosts, addresses) == add_requests(
            index,
            group,
            hosts,
            addresses.drop_last(),
        ) + add_hosts(index, group, hosts, addresses.last()),
{
    let row = |address: Seq<char>| add_hosts(index, group, hosts, address);
    let rows = addresses.map_values(row);
    assert(rows =~= addresses.drop_last().map_values(row).push(row(addresses.last())));
    addresses.drop_last().map_values(row).lemma_flatten_push(row(addresses.last()));
}

} // verus!
