//! The registrations that the bridge holds at the mDNS daemon.
//!
//! [`Dbus`] remembers which entry group it has committed for which
//! container. It does not talk to the daemon itself. A publish or an
//! unpublish is a short exchange: the bridge hands out one [`Request`] at a
//! time, the caller carries it out and reports the [`Reply`] to
//! [`Dbus::advance`], until the exchange is [`Step::Finished`].
//!
//! A registration is noted only when its entry group has been committed,
//! and it replaces the one that the container had before; the daemon is not
//! asked to release that earlier group. A registration is forgotten as soon
//! as its withdrawal starts, so that a group which the daemon has already
//! given up is never asked for twice.

use crate::mdns::config::Config;
use crate::mdns::config::ConfigView;
use std::collections::VecDeque;
use vstd::hash_map::StringHashMap;
use vstd::prelude::*;
use vstd::string::*;

verus! {

/// The flag of the daemon's `AddAddress` that suppresses the reverse entry.
pub const FLAG_NO_REVERSE: u32 = 16;

/// The daemon's marker for "any protocol".
pub const PROTO_UNSPEC: i32 = -1;

/// The kinds of request.
#[derive(Clone, Copy, Debug, PartialEq, Eq, Structural)]
pub enum Call {
    /// [`Request::EntryGroupNew`]
    EntryGroupNew,
    /// [`Request::InterfaceAddresses`]
    InterfaceAddresses,
    /// [`Request::AddAddress`]
    AddAddress,
    /// [`Request::Commit`]
    Commit,
    /// [`Request::Reset`]
    Reset,
    /// [`Request::Free`]
    Free,
}

impl Call {
    /// The name of the kind of request, as text.
    pub open spec fn spec_name(self) -> Seq<char> {
        match self {
            Call::EntryGroupNew => "EntryGroupNew"@,
            Call::InterfaceAddresses => "InterfaceAddresses"@,
            Call::AddAddress => "AddAddress"@,
            Call::Commit => "Commit"@,
            Call::Reset => "Reset"@,
            Call::Free => "Free"@,
        }
    }

    /// The name of the kind of request, as text.
    pub fn name(&self) -> (name: &'static str)
        ensures
            name@ == self.spec_name(),
    {
        match self {
            Call::EntryGroupNew => "EntryGroupNew",
            Call::InterfaceAddresses => "InterfaceAddresses",
            Call::AddAddress => "AddAddress",
            Call::Commit => "Commit",
            Call::Reset => "Reset",
            Call::Free => "Free",
        }
    }
}

/// What the bridge asks its caller to do next.
#[derive(Debug, PartialEq, Eq)]
pub enum Request {
    /// Ask the daemon for a new entry group. Answered by [`Reply::Group`].
    EntryGroupNew,
    /// List the addresses of a network interface of this host that are no
    /// loopback addresses. Answered by [`Reply::Addresses`].
    InterfaceAddresses { interface: String },
    /// Add one host name with one address to an entry group. Answered by
    /// [`Reply::Done`].
    AddAddress {
        /// The entry group.
        group: String,
        /// The daemon's index of the bridge's own interface.
        index: i32,
        /// The protocol: always [`PROTO_UNSPEC`].
        protocol: i32,
        /// The flags: always [`FLAG_NO_REVERSE`].
        flags: u32,
        /// The host name.
        host: String,
        /// The address, as text.
        address: String,
    },
    /// Commit an entry group. Answered by [`Reply::Done`].
    Commit { group: String },
    /// Empty an entry group. Answered by [`Reply::Done`].
    Reset { group: String },
    /// Release an entry group. Answered by [`Reply::Done`].
    Free { group: String },
}

/// A [`Request`] as plain values.
pub enum RequestView {
    EntryGroupNew,
    InterfaceAddresses { interface: Seq<char> },
    AddAddress {
        group: Seq<char>,
        index: i32,
        protocol: i32,
        flags: u32,
        host: Seq<char>,
        address: Seq<char>,
    },
    Commit { group: Seq<char> },
    Reset { group: Seq<char> },
    Free { group: Seq<char> },
}

impl RequestView {
    /// The kind of the request.
    pub open spec fn call(self) -> Call {
        match self {
            RequestView::EntryGroupNew => Call::EntryGroupNew,
            RequestView::InterfaceAddresses { .. } => Call::InterfaceAddresses,
            RequestView::AddAddress { .. } => Call::AddAddress,
            RequestView::Commit { .. } => Call::Commit,
            RequestView::Reset { .. } => Call::Reset,
            RequestView::Free { .. } => Call::Free,
        }
    }
}

impl View for Request {
    type V = RequestView;

    open spec fn view(&self) -> RequestView {
        match self {
            Request::EntryGroupNew => RequestView::EntryGroupNew,
            Request::InterfaceAddresses { interface } => RequestView::InterfaceAddresses {
                interface: interface@,
            },
            Request::AddAddress { group, index, protocol, flags, host, address } => {
                RequestView::AddAddress {
                    group: group@,
                    index: *index,
                    protocol: *protocol,
                    flags: *flags,
                    host: host@,
                    address: address@,
                }
            },
            Request::Commit { group } => RequestView::Commit { group: group@ },
            Request::Reset { group } => RequestView::Reset { group: group@ },
            Request::Free { group } => RequestView::Free { group: group@ },
        }
    }
}

impl DeepView for Request {
    type V = RequestView;

    open spec fn deep_view(&self) -> RequestView {
        self@
    }
}

impl Request {
    /// The kind of the request.
    pub fn call(&self) -> (call: Call)
        ensures
            call == self@.call(),
    {
        match self {
            Request::EntryGroupNew => Call::EntryGroupNew,
            Request::InterfaceAddresses { .. } => Call::InterfaceAddresses,
            Request::AddAddress { .. } => Call::AddAddress,
            Request::Commit { .. } => Call::Commit,
            Request::Reset { .. } => Call::Reset,
            Request::Free { .. } => Call::Free,
        }
    }
}

/// What came of a [`Request`].
#[derive(Debug, PartialEq, Eq)]
pub enum Reply {
    /// The daemon made an entry group; this is its handle.
    Group(String),
    /// The interface has these addresses.
    Addresses(Vec<String>),
    /// The daemon did what it was asked.
    Done,
    /// The request failed, for the reason given.
    Failed(String),
}

/// A [`Reply`] as plain values.
pub enum ReplyView {
    Group(Seq<char>),
    Addresses(Seq<Seq<char>>),
    Done,
    Failed(Seq<char>),
}

impl View for Reply {
    type V = ReplyView;

    open spec fn view(&self) -> ReplyView {
        match self {
            Reply::Group(group) => ReplyView::Group(group@),
            Reply::Addresses(addresses) => ReplyView::Addresses(addresses.deep_view()),
            Reply::Done => ReplyView::Done,
            Reply::Failed(message) => ReplyView::Failed(message@),
        }
    }
}

/// Why a publish or an unpublish was given up.
#[derive(Debug, PartialEq, Eq)]
pub enum Error {
    /// A request failed.
    Failed { call: Call, message: String },
    /// A request was answered by a reply of the wrong kind.
    Unexpected { call: Call },
}

/// An [`Error`] as plain values.
pub enum ErrorView {
    Failed { call: Call, message: Seq<char> },
    Unexpected { call: Call },
}

impl View for Error {
    type V = ErrorView;

    open spec fn view(&self) -> ErrorView {
        match self {
            Error::Failed { call, message } => ErrorView::Failed { call: *call, message: message@ },
            Error::Unexpected { call } => ErrorView::Unexpected { call: *call },
        }
    }
}

impl ErrorView {
    /// The error in words: the request that failed and why, or the request
    /// that was answered by a reply of the wrong kind.
    pub open spec fn message(self) -> Seq<char> {
        match self {
            ErrorView::Failed { call, message } => call.spec_name() + ": "@ + message,
            ErrorView::Unexpected { call } => call.spec_name() + ": unexpected reply"@,
        }
    }
}

impl Error {
    /// The error in words.
    pub fn message(&self) -> (text: String)
        ensures
            text@ == self@.message(),
    {
        match self {
            Error::Failed { call, message } => {
                let mut text = call.name().to_owned();
                text.append(": ");
                text.append(message.as_str());
                text
            },
            Error::Unexpected { call } => {
                let mut text = call.name().to_owned();
                text.append(": unexpected reply");
                text
            },
        }
    }
}

/// Where an exchange stands while a request is out.
#[derive(Debug)]
pub struct Pending {
    stage: Stage,
    after: VecDeque<Config>,
}

#[derive(Debug)]
enum Stage {
    Group { id: String, hosts: Vec<String>, interface: String },
    Addresses { id: String, hosts: Vec<String>, group: String },
    Calls { current: Call, rest: VecDeque<Request>, record: Option<(String, String)> },
}

/// What an exchange waits for.
pub enum StageView {
    /// A publish waits for its entry group. The host names of the container
    /// `id` will be bound to the addresses of `interface`.
    Group { id: Seq<char>, hosts: Seq<Seq<char>>, interface: Seq<char> },
    /// A publish waits for the addresses to bind the host names to.
    Addresses { id: Seq<char>, hosts: Seq<Seq<char>>, group: Seq<char> },
    /// The request `current` is out and those of `rest` follow it. When all
    /// are done, the group of `record` is noted for its container.
    Calls { current: Call, rest: Seq<RequestView>, record: Option<(Seq<char>, Seq<char>)> },
}

impl StageView {
    /// The kind of the request that is out.
    pub open spec fn call(self) -> Call {
        match self {
            StageView::Group { .. } => Call::EntryGroupNew,
            StageView::Addresses { .. } => Call::InterfaceAddresses,
            StageView::Calls { current, .. } => current,
        }
    }
}

/// A [`Pending`] as plain values.
pub struct PendingView {
    /// What the exchange waits for.
    pub stage: StageView,
    /// The configurations that are published, one after the other, once the
    /// exchange has ended well.
    pub after: Seq<ConfigView>,
}

impl PendingView {
    /// The kind of the request that is out.
    pub open spec fn call(self) -> Call {
        self.stage.call()
    }
}

impl View for Stage {
    type V = StageView;

    closed spec fn view(&self) -> StageView {
        match self {
            Stage::Group { id, hosts, interface } => StageView::Group {
                id: id@,
                hosts: hosts.deep_view(),
                interface: interface@,
            },
            Stage::Addresses { id, hosts, group } => StageView::Addresses {
                id: id@,
                hosts: hosts.deep_view(),
                group: group@,
            },
            Stage::Calls { current, rest, record } => StageView::Calls {
                current: *current,
                rest: rest.deep_view(),
                record: record.deep_view(),
            },
        }
    }
}

impl View for Pending {
    type V = PendingView;

    closed spec fn view(&self) -> PendingView {
        PendingView { stage: self.stage@, after: self.after.deep_view() }
    }
}

/// The next move of an exchange.
#[derive(Debug)]
pub enum Step {
    /// The caller carries out `request` and hands `pending`, with the
    /// reply, to [`Dbus::advance`].
    Perform { request: Request, pending: Pending },
    /// The exchange is over.
    Finished(Result<(), Error>),
}

/// A [`Step`] as plain values.
pub enum StepView {
    Perform { request: RequestView, pending: PendingView },
    Finished(Result<(), ErrorView>),
}

impl View for Step {
    type V = StepView;

    open spec fn view(&self) -> StepView {
        match self {
            Step::Perform { request, pending } => StepView::Perform {
                request: request@,
                pending: pending@,
            },
            Step::Finished(Ok(())) => StepView::Finished(Ok(())),
            Step::Finished(Err(error)) => StepView::Finished(Err(error@)),
        }
    }
}

/// The bridge's registrations at the daemon, by container.
pub struct Dbus {
    avahi_interface_index: i32,
    interface_name: String,
    published: StringHashMap<String>,
}

/// A [`Dbus`] as plain values.
pub struct DbusView {
    /// The daemon's index of the bridge's own interface.
    pub avahi_interface_index: i32,
    /// The bridge's own interface.
    pub interface_name: Seq<char>,
    /// The entry group committed for each container, by the container's
    /// identifier.
    pub published: Map<Seq<char>, Seq<char>>,
}

impl DbusView {
    /// The registrations with the group `group` noted for the container
    /// `id`, in place of any group noted for it before.
    pub open spec fn record(self, id: Seq<char>, group: Seq<char>) -> DbusView {
        DbusView { published: self.published.insert(id, group), ..self }
    }

    /// The registrations without the container `id`.
    pub open spec fn forget(self, id: Seq<char>) -> DbusView {
        DbusView { published: self.published.remove(id), ..self }
    }

    /// The first move of a publish of `config`, which asks for something:
    /// the daemon is asked for an entry group. Those of `after` are published
    /// once this publish has ended well.
    pub open spec fn start(self, config: ConfigView, after: Seq<ConfigView>) -> StepView {
        StepView::Perform {
            request: RequestView::EntryGroupNew,
            pending: PendingView {
                stage: StageView::Group {
                    id: config.id,
                    hosts: config.hosts->0,
                    interface: interface_for(self.interface_name, config),
                },
                after,
            },
        }
    }

    /// The first move of a publish.
    ///
    /// A configuration that asks for nothing ends the exchange at once, with no
    /// request made. Any other starts by asking the daemon for an entry group.
    pub open spec fn publish(self, config: ConfigView) -> StepView {
        if wanted(config) {
            self.start(config, Seq::empty())
        } else {
            StepView::Finished(Ok(()))
        }
    }

    /// The first move of a publish of several configurations, one after the
    /// other: that of the first among them that asks for something. Those
    /// that ask for nothing are passed over.
    pub open spec fn publish_each(self, configs: Seq<ConfigView>) -> StepView
        decreases configs.len(),
    {
        if configs.len() == 0 {
            StepView::Finished(Ok(()))
        } else if wanted(configs.first()) {
            self.start(configs.first(), configs.drop_first())
        } else {
            self.publish_each(configs.drop_first())
        }
    }

    /// The first move of an unpublish, and the registrations after it.
    ///
    /// A container without a registration ends the exchange at once, with no
    /// request made. For any other the registration is forgotten here and now,
    /// whatever comes of the two requests that follow: the group is emptied,
    /// then released.
    pub open spec fn unpublish(self, id: Seq<char>) -> (DbusView, StepView) {
        if self.published.contains_key(id) {
            self.forget(id).proceed(release_requests(self.published[id]), None, Seq::empty())
        } else {
            (self, StepView::Finished(Ok(())))
        }
    }

    /// The move after a request was done: the next request of `queue`; or,
    /// where none is left, the group of `record` is noted and the publish of
    /// those of `after` starts.
    pub open spec fn proceed(
        self,
        queue: Seq<RequestView>,
        record: Option<(Seq<char>, Seq<char>)>,
        after: Seq<ConfigView>,
    ) -> (DbusView, StepView) {
        if queue.len() > 0 {
            (
                self,
                StepView::Perform {
                    request: queue.first(),
                    pending: PendingView {
                        stage: StageView::Calls {
                            current: queue.first().call(),
                            rest: queue.drop_first(),
                            record,
                        },
                        after,
                    },
                },
            )
        } else {
            let bus = match record {
                Some((id, group)) => self.record(id, group),
                None => self,
            };
            (bus, bus.publish_each(after))
        }
    }

    /// The move that follows the reply to the request that was out, and the
    /// registrations after it.
    ///
    /// A failed request ends the exchange with its error, and so does a reply
    /// of the wrong kind; the registrations stay as they are, and what was to
    /// be published after the exchange is left undone.
    pub open spec fn advance(self, pending: PendingView, reply: ReplyView) -> (DbusView, StepView) {
        match (pending.stage, reply) {
            (StageView::Group { id, hosts, interface }, ReplyView::Group(group)) => (
                self,
                StepView::Perform {
                    request: RequestView::InterfaceAddresses { interface },
                    pending: PendingView {
                        stage: StageView::Addresses { id, hosts, group },
                        after: pending.after,
                    },
                },
            ),
            (StageView::Addresses { id, hosts, group }, ReplyView::Addresses(addresses)) => {
                self.proceed(
                    add_requests(self.avahi_interface_index, group, hosts, addresses).push(
                        RequestView::Commit { group },
                    ),
                    Some((id, group)),
                    pending.after,
                )
            },
            (StageView::Calls { rest, record, .. }, ReplyView::Done) => self.proceed(
                rest,
                record,
                pending.after,
            ),
            (_, ReplyView::Failed(message)) => (
                self,
                StepView::Finished(Err(ErrorView::Failed { call: pending.call(), message })),
            ),
            _ => (self, StepView::Finished(Err(ErrorView::Unexpected { call: pending.call() }))),
        }
    }
}

impl View for Dbus {
    type V = DbusView;

    closed spec fn view(&self) -> DbusView {
        DbusView {
            avahi_interface_index: self.avahi_interface_index,
            interface_name: self.interface_name@,
            published: self.published@.map_values(|group: String| group@),
        }
    }
}

/// Whether a configuration asks for anything to be published: publishing
/// is switched on and there is at least one host name.
pub open spec fn wanted(config: ConfigView) -> bool {
    config.enabled && config.hosts is Some && config.hosts->0.len() > 0
}

/// The interface whose addresses are published for `config`: the one that
/// its labels name, else the bridge's own.
pub open spec fn interface_for(own: Seq<char>, config: ConfigView) -> Seq<char> {
    match config.override_interface {
        Some(interface) => interface,
        None => own,
    }
}

/// The requests that withdraw an entry group: it is emptied, then released.
pub open spec fn release_requests(group: Seq<char>) -> Seq<RequestView> {
    seq![RequestView::Reset { group }, RequestView::Free { group }]
}

/// The request that binds `host` to `address` in `group`.
pub open spec fn add_address(
    index: i32,
    group: Seq<char>,
    host: Seq<char>,
    address: Seq<char>,
) -> RequestView {
    RequestView::AddAddress {
        group,
        index,
        protocol: PROTO_UNSPEC,
        flags: FLAG_NO_REVERSE,
        host,
        address,
    }
}

/// The requests that bind every host name to `address`, host name by host
/// name.
pub open spec fn add_hosts(
    index: i32,
    group: Seq<char>,
    hosts: Seq<Seq<char>>,
    address: Seq<char>,
) -> Seq<RequestView> {
    hosts.map_values(|host: Seq<char>| add_address(index, group, host, address))
}

/// The requests that bind every host name to every address: address by
/// address, and for each address host name by host name.
pub open spec fn add_requests(
    index: i32,
    group: Seq<char>,
    hosts: Seq<Seq<char>>,
    addresses: Seq<Seq<char>>,
) -> Seq<RequestView> {
    addresses.map_values(|address: Seq<char>| add_hosts(index, group, hosts, address)).flatten()
}

/// Tells whether `config` asks for anything to be published.
fn is_wanted(config: &Config) -> (yes: bool)
    ensures
        yes == wanted(config@),
{
    config.enabled() && match config.hosts() {
        Some(hosts) => hosts.len() > 0,
        None => false,
    }
}

/// Owned copies of `names`.
fn owned(names: &Vec<&str>) -> (out: Vec<String>)
    ensures
        out.deep_view() == names.deep_view(),
{
    let mut out: Vec<String> = Vec::new();
    let mut i: usize = 0;
    while i < names.len()
        invariant
            i <= names.len(),
            out.len() == i,
            forall|k: int| 0 <= k < i ==> out[k]@ == #[trigger] names[k]@,
        decreases names.len() - i,
    {
        out.push(names[i].to_owned());
        i += 1;
    }
    out
}

/// The requests that bind every host name to every address.
fn address_requests(
    index: i32,
    group: &String,
    hosts: &Vec<String>,
    addresses: &Vec<String>,
) -> (queue: VecDeque<Request>)
    ensures
        queue.deep_view() == add_requests(index, group@, hosts.deep_view(), addresses.deep_view()),
{
    let ghost rows = addresses.deep_view().map_values(
        |address: Seq<char>| add_hosts(index, group@, hosts.deep_view(), address),
    );
    let mut queue: VecDeque<Request> = VecDeque::new();
    let mut a: usize = 0;
    while a < addresses.len()
        invariant
            a <= addresses.len(),
            rows == addresses.deep_view().map_values(
                |address: Seq<char>| add_hosts(index, group@, hosts.deep_view(), address),
            ),
            queue.deep_view() == rows.take(a as int).flatten(),
        decreases addresses.len() - a,
    {
        let ghost before = queue.deep_view();
        let ghost row = add_hosts(index, group@, hosts.deep_view(), addresses[a as int]@);
        let mut h: usize = 0;
        while h < hosts.len()
            invariant
                a < addresses.len(),
                h <= hosts.len(),
                row == add_hosts(index, group@, hosts.deep_view(), addresses[a as int]@),
                queue.deep_view() == before + row.take(h as int),
            decreases hosts.len() - h,
        {
            queue.push_back(
                Request::AddAddress {
                    group: group.clone(),
                    index,
                    protocol: PROTO_UNSPEC,
                    flags: FLAG_NO_REVERSE,
                    host: hosts[h].clone(),
                    address: addresses[a].clone(),
                },
            );
            assert(before + row.take(h as int + 1) =~= (before + row.take(h as int)).push(
                row[h as int],
            ));
            h += 1;
        }
        proof {
            assert(rows.take(a as int + 1) =~= rows.take(a as int).push(row));
            rows.take(a as int).lemma_flatten_push(row);
        }
        a += 1;
    }
    assert(rows.take(addresses.len() as int) =~= rows);
    queue
}

impl Dbus {
    /// The bridge for the interface `interface_name`, which the daemon knows
    /// by the index `avahi_interface_index`. Nothing is registered yet.
    pub fn new(interface_name: String, avahi_interface_index: i32) -> (bus: Dbus)
        ensures
            bus@ == (DbusView {
                avahi_interface_index,
                interface_name: interface_name@,
                published: Map::empty(),
            }),
    {
        let bus = Dbus { avahi_interface_index, interface_name, published: StringHashMap::new() };
        assert(bus@.published =~= Map::empty());
        bus
    }

    /// Starts to publish the host names of `config`.
    ///
    /// Where `config` asks for nothing, the exchange is finished at once and
    /// no request is made.
    #[must_use]
    pub fn publish(&self, config: &Config) -> (step: Step)
        ensures
            step@ == self@.publish(config@),
    {
        if is_wanted(config) {
            let after: VecDeque<Config> = VecDeque::new();
            assert(after.deep_view() =~= Seq::<ConfigView>::empty());
            self.start(config, after)
        } else {
            Step::Finished(Ok(()))
        }
    }

    /// Starts to publish the host names of each of `configs`, one after the
    /// other and in their order. The first failure ends it all.
    #[must_use]
    pub fn publish_each(&self, configs: VecDeque<Config>) -> (step: Step)
        ensures
            step@ == self@.publish_each(configs.deep_view()),
    {
        let mut waiting = configs;
        loop
            invariant
                self@.publish_each(waiting.deep_view()) == self@.publish_each(configs.deep_view()),
            decreases waiting.len(),
        {
            let ghost before = waiting.deep_view();
            match waiting.pop_front() {
                None => {
                    return Step::Finished(Ok(()));
                },
                Some(config) => {
                    assert(waiting.deep_view() =~= before.drop_first());
                    if is_wanted(&config) {
                        return self.start(&config, waiting);
                    }
                },
            }
        }
    }

    /// Starts to withdraw what is published for the container of `config`.
    ///
    /// Where nothing is registered for the container, the exchange is
    /// finished at once and no request is made. Else the registration is
    /// forgotten before the first request goes out.
    #[must_use]
    pub fn unpublish(&mut self, config: &Config) -> (step: Step)
        ensures
            (final(self)@, step@) == old(self)@.unpublish(config@.id),
    {
        let id = config.id();
        let found = match self.published.get(id) {
            Some(group) => Some(group.clone()),
            None => None,
        };
        match found {
            None => Step::Finished(Ok(())),
            Some(group) => {
                self.published.remove(id);
                assert(self@.published =~= old(self)@.published.remove(id@));
                let mut queue: VecDeque<Request> = VecDeque::new();
                queue.push_back(Request::Reset { group: group.clone() });
                queue.push_back(Request::Free { group });
                assert(queue.deep_view() =~= release_requests(old(self)@.published[id@]));
                let after: VecDeque<Config> = VecDeque::new();
                assert(after.deep_view() =~= Seq::<ConfigView>::empty());
                self.proceed(queue, None, after)
            },
        }
    }

    /// Takes the reply to the request that is out and makes the next move.
    #[must_use]
    pub fn advance(&mut self, pending: Pending, reply: Reply) -> (step: Step)
        ensures
            (final(self)@, step@) == old(self)@.advance(pending@, reply@),
    {
        let after = pending.after;
        match (pending.stage, reply) {
            (Stage::Group { id, hosts, interface }, Reply::Group(group)) => {
                let stage = Stage::Addresses { id, hosts, group };
                Step::Perform {
                    request: Request::InterfaceAddresses { interface },
                    pending: Pending { stage, after },
                }
            },
            (Stage::Addresses { id, hosts, group }, Reply::Addresses(addresses)) => {
                let mut queue = address_requests(
                    self.avahi_interface_index,
                    &group,
                    &hosts,
                    &addresses,
                );
                let ghost adds = queue.deep_view();
                queue.push_back(Request::Commit { group: group.clone() });
                assert(queue.deep_view() =~= adds.push(RequestView::Commit { group: group@ }));
                self.proceed(queue, Some((id, group)), after)
            },
            (Stage::Calls { rest, record, .. }, Reply::Done) => self.proceed(rest, record, after),
            (stage, Reply::Failed(message)) => {
                Step::Finished(Err(Error::Failed { call: stage.call(), message }))
            },
            (stage, _) => Step::Finished(Err(Error::Unexpected { call: stage.call() })),
        }
    }

    /// Asks the daemon for an entry group for `config`.
    fn start(&self, config: &Config, after: VecDeque<Config>) -> (step: Step)
        requires
            wanted(config@),
        ensures
            step@ == self@.start(config@, after.deep_view()),
    {
        let interface = match config.override_interface() {
            Some(interface) => interface.to_owned(),
            None => self.interface_name.clone(),
        };
        let hosts = owned(&config.hosts().unwrap());
        let stage = Stage::Group { id: config.id().to_owned(), hosts, interface };
        Step::Perform { request: Request::EntryGroupNew, pending: Pending { stage, after } }
    }

    /// Hands out the next request of `queue`; or, where none is left, notes
    /// the group of `record` and starts to publish those of `after`.
    fn proceed(
        &mut self,
        queue: VecDeque<Request>,
        record: Option<(String, String)>,
        after: VecDeque<Config>,
    ) -> (step: Step)
        ensures
            (final(self)@, step@) == old(self)@.proceed(
                queue.deep_view(),
                record.deep_view(),
                after.deep_view(),
            ),
    {
        let ghost all = queue.deep_view();
        let mut queue = queue;
        match queue.pop_front() {
            Some(request) => {
                assert(queue.deep_view() =~= all.drop_first());
                let current = request.call();
                let stage = Stage::Calls { current, rest: queue, record };
                Step::Perform { request, pending: Pending { stage, after } }
            },
            None => {
                match record {
                    Some((id, group)) => {
                        self.published.insert(id, group);
                        assert(self@.published =~= old(self)@.published.insert(id@, group@));
                    },
                    None => {},
                }
                self.publish_each(after)
            },
        }
    }

    /// The entry group that is registered for the container `id`, if one is.
    pub fn published(&self, id: &str) -> (group: Option<&str>)
        ensures
            group.deep_view() == if self@.published.contains_key(id@) {
                Some(self@.published[id@])
            } else {
                None
            },
    {
        match self.published.get(id) {
            Some(group) => Some(group.as_str()),
            None => None,
        }
    }

    /// The number of containers that something is registered for.
    pub fn len(&self) -> (len: usize)
        ensures
            len == self@.published.len(),
    {
        assert(self@.published.dom() =~= self.published@.dom());
        self.published.len()
    }
}

impl Stage {
    /// The kind of the request that is out.
    fn call(&self) -> (call: Call)
        ensures
            call == self@.call(),
    {
        match self {
            Stage::Group { .. } => Call::EntryGroupNew,
            Stage::Addresses { .. } => Call::InterfaceAddresses,
            Stage::Calls { current, .. } => *current,
        }
    }
}

} // verus!
