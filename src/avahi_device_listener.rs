use vstd::prelude::*;
use vstd::string::*;
use crate::device::{Device, DeviceView};
use crate::ports::DeviceListener;
use crate::txt::{bytes_of, decoded_texts, join_texts, joined, lookup_value, parse_seconds, seconds_of, valid_texts, value_of};

verus! {

/// Any interface.
pub const AVAHI_IF_UNSPEC: i32 = -1;

/// Any address family.
pub const AVAHI_PROTO_UNSPEC: i32 = -1;

/// An add or remove announcement of a service instance, before resolution.
#[derive(Debug, Clone)]
pub struct Announcement {
    pub interface: i32,
    pub protocol: i32,
    pub name: String,
    pub service_type: String,
    pub domain: String,
    pub flags: u32,
}

/// What a browse session is asked to watch.
#[derive(Debug, Clone)]
pub struct BrowseRequest {
    pub interface: i32,
    pub protocol: i32,
    pub service_type: String,
    pub domain: String,
    pub flags: u32,
}

/// The arguments of the resolve call for one announcement.
#[derive(Debug, Clone)]
pub struct ResolveRequest {
    pub interface: i32,
    pub protocol: i32,
    pub name: String,
    pub service_type: String,
    pub domain: String,
    pub aprotocol: i32,
    pub flags: u32,
}

/// What the daemon returns for a resolved service instance.
#[derive(Debug, Clone)]
pub struct ResolutionResult {
    pub interface: i32,
    pub protocol: i32,
    pub name: String,
    pub service_type: String,
    pub domain: String,
    pub host_name: String,
    pub aprotocol: i32,
    pub address: String,
    pub port: u16,
    pub txt: Vec<Vec<u8>>,
    pub flags: u32,
}

/// The header of a signal whose arguments could not be decoded.
#[derive(Debug, Clone)]
pub struct SignalHeader {
    pub member: Option<String>,
    pub interface: Option<String>,
    pub signature: String,
}

/// One event of the merged add and remove streams of a browse session.
#[derive(Debug, Clone)]
pub enum BusEvent {
    ItemNew(Announcement),
    ItemRemove(Announcement),
    Malformed(SignalHeader),
}

/// What the event loop does next for one event.
#[derive(Debug, Clone)]
pub enum Step {
    /// Issue the resolve call.
    Resolve(ResolveRequest),
    /// Log the removal; nothing is forwarded.
    LogRemoved(Announcement),
    /// Log a warning with the header and go on with the next event.
    Warn(SignalHeader),
}

/// One event once its outside work is done: an added service with the result
/// of its resolve call, or an event that needed none.
#[derive(Debug, Clone)]
pub enum EventOutcome {
    /// The resolve call succeeded; the second field is the time of
    /// observation in seconds since the epoch.
    Resolved(ResolutionResult, u64),
    ResolveFailed(Announcement),
    Removed(Announcement),
    Malformed(SignalHeader),
}

/// The record built from the TXT entries of a resolution observed at `now`.
pub open spec fn device_of(txt: Seq<Seq<u8>>, now: u64) -> DeviceView {
    let texts = decoded_texts(txt);
    DeviceView {
        hw: value_of(texts, seq!['h', 'w']),
        sn: value_of(texts, seq!['s', 'n']),
        version: value_of(texts, seq!['v', 'e', 'r', 's', 'i', 'o', 'n']),
        uptime_seconds: seconds_of(value_of(texts, seq!['u', 'p', 't', 'i', 'm', 'e'])),
        unix_epoch: now,
        custom: joined(texts),
    }
}

/// The record that one event yields, if any.
pub open spec fn record_of(o: EventOutcome) -> Option<DeviceView> {
    match o {
        EventOutcome::Resolved(res, now) => Some(device_of(bytes_of(res.txt@), now)),
        _ => None,
    }
}

/// The records that a run of events yields, in order.
pub open spec fn records_of(os: Seq<EventOutcome>) -> Seq<DeviceView>
    decreases os.len(),
{
    if os.len() == 0 {
        seq![]
    } else {
        match record_of(os.last()) {
            Some(d) => records_of(os.drop_last()).push(d),
            None => records_of(os.drop_last()),
        }
    }
}

/// The view of an optional record.
pub open spec fn option_view(d: Option<Device>) -> Option<DeviceView> {
    match d {
        Some(d) => Some(d@),
        None => None,
    }
}

/// The browse session that the adapter opens: the `_discover._tcp` service
/// type on every interface and address family, in no particular domain.
pub fn browse_request() -> (r: BrowseRequest)
    ensures
        r.interface == AVAHI_IF_UNSPEC,
        r.protocol == AVAHI_PROTO_UNSPEC,
        r.service_type@ == seq!['_', 'd', 'i', 's', 'c', 'o', 'v', 'e', 'r', '.', '_', 't', 'c', 'p'],
        r.domain@ == Seq::<char>::empty(),
        r.flags == 0,
{
    proof {
        reveal_strlit("_discover._tcp");
        reveal_strlit("");
    }
    BrowseRequest {
        interface: AVAHI_IF_UNSPEC,
        protocol: AVAHI_PROTO_UNSPEC,
        service_type: String::from_str("_discover._tcp"),
        domain: String::from_str(""),
        flags: 0,
    }
}

/// The resolve call for an added service: keyed by its interface, family,
/// name, type and domain, for any address family, with no flags.
pub fn resolve_request(a: Announcement) -> (r: ResolveRequest)
    ensures
        r.interface == a.interface,
        r.protocol == a.protocol,
        r.name == a.name,
        r.service_type == a.service_type,
        r.domain == a.domain,
        r.aprotocol == AVAHI_PROTO_UNSPEC,
        r.flags == 0,
{
    ResolveRequest {
        interface: a.interface,
        protocol: a.protocol,
        name: a.name,
        service_type: a.service_type,
        domain: a.domain,
        aprotocol: AVAHI_PROTO_UNSPEC,
        flags: 0,
    }
}

/// Decides what the event loop does with one event: an added service is
/// resolved, a removal is logged, a malformed signal is warned about.
pub fn next_step(event: BusEvent) -> (r: Step)
    ensures
        match event {
            BusEvent::ItemNew(a) => r matches Step::Resolve(q) && q.interface == a.interface
                && q.protocol == a.protocol && q.name == a.name && q.service_type
                == a.service_type && q.domain == a.domain && q.aprotocol == AVAHI_PROTO_UNSPEC
                && q.flags == 0,
            BusEvent::ItemRemove(a) => r == Step::LogRemoved(a),
            BusEvent::Malformed(h) => r == Step::Warn(h),
        },
{
    match event {
        BusEvent::ItemNew(a) => Step::Resolve(resolve_request(a)),
        BusEvent::ItemRemove(a) => Step::LogRemoved(a),
        BusEvent::Malformed(h) => Step::Warn(h),
    }
}

/// Builds the record of a resolved service observed at `now`: `hw`, `sn`,
/// `version` and `uptime` come from the TXT entries `key=value`, the custom
/// payload is every TXT entry that is valid text.
pub fn device_from_resolution(res: &ResolutionResult, now: u64) -> (r: Device)
    ensures
        r@ == device_of(bytes_of(res.txt@), now),
{
    let texts = valid_texts(&res.txt);
    proof {
        reveal_strlit("hw");
        reveal_strlit("sn");
        reveal_strlit("version");
        reveal_strlit("uptime");
        assert("hw"@ =~= seq!['h', 'w']);
        assert("sn"@ =~= seq!['s', 'n']);
        assert("version"@ =~= seq!['v', 'e', 'r', 's', 'i', 'o', 'n']);
        assert("uptime"@ =~= seq!['u', 'p', 't', 'i', 'm', 'e']);
    }
    let hw = lookup_value(&texts, "hw");
    let sn = lookup_value(&texts, "sn");
    let version = lookup_value(&texts, "version");
    let uptime = lookup_value(&texts, "uptime");
    let uptime_seconds = parse_seconds(uptime.as_str());
    let custom = join_texts(&texts);
    Device { hw, sn, version, uptime_seconds, unix_epoch: now, custom }
}

/// The record that one event yields: one for a successful resolution,
/// none for a failed one, a removal or a malformed signal.
pub fn record_for(outcome: &EventOutcome) -> (r: Option<Device>)
    ensures
        option_view(r) == record_of(*outcome),
{
    match outcome {
        EventOutcome::Resolved(res, now) => Some(device_from_resolution(res, *now)),
        _ => None,
    }
}

/// The records that a run of events yields, in the order of the events.
pub fn records_for(outcomes: &Vec<EventOutcome>) -> (r: Vec<Device>)
    ensures
        r@.map_values(|d: Device| d@) == records_of(outcomes@),
{
    let mut r: Vec<Device> = Vec::new();
    let mut i: usize = 0;
    while i < outcomes.len()
        invariant
            i <= outcomes.len(),
            r@.map_values(|d: Device| d@) == records_of(outcomes@.subrange(0, i as int)),
        decreases outcomes.len() - i,
    {
        let ghost pre = outcomes@.subrange(0, i as int + 1);
        assert(pre.drop_last() =~= outcomes@.subrange(0, i as int));
        let ghost before = r@;
        match record_for(&outcomes[i]) {
            Some(d) => {
                r.push(d);
                assert(r@.map_values(|d: Device| d@) =~= before.map_values(|d: Device| d@).push(
                    r@.last()@,
                ));
            },
            None => {},
        }
        i = i + 1;
    }
    assert(outcomes@.subrange(0, outcomes@.len() as int) =~= outcomes@);
    r
}

/// The records of two runs of events, one after the other, are the records
/// of the first followed by those of the second.
pub proof fn lemma_records_of_concat(a: Seq<EventOutcome>, b: Seq<EventOutcome>)
    ensures
        records_of(a + b) == records_of(a) + records_of(b),
    decreases b.len(),
{
    if b.len() == 0 {
        assert(a + b =~= a);
        assert(records_of(a) + records_of(b) =~= records_of(a));
    } else {
        lemma_records_of_concat(a, b.drop_last());
        assert((a + b).drop_last() =~= a + b.drop_last());
        assert((a + b).last() == b.last());
        match record_of(b.last()) {
            Some(d) => {
                assert(records_of(a) + records_of(b) =~= (records_of(a) + records_of(
                    b.drop_last(),
                )).push(d));
            },
            None => {},
        }
    }
}

/// An event that yields no record leaves the records of the events around
/// it as they were.
pub proof fn lemma_event_without_record(
    before: Seq<EventOutcome>,
    o: EventOutcome,
    after: Seq<EventOutcome>,
)
    requires
        record_of(o) is None,
    ensures
        records_of(before + seq![o] + after) == records_of(before) + records_of(after),
{
    lemma_records_of_concat(before, seq![o]);
    lemma_records_of_concat(before + seq![o], after);
    assert(seq![o].drop_last() =~= Seq::<EventOutcome>::empty());
    assert(seq![o].last() == o);
    assert(records_of(Seq::<EventOutcome>::empty()) =~= Seq::<DeviceView>::empty());
    assert(records_of(seq![o]) =~= Seq::<DeviceView>::empty());
    assert(records_of(before) + records_of(seq![o]) =~= records_of(before));
}

/// In a run of added services that all resolve, every event yields exactly
/// one record, the one built from its own resolution, in the same order.
pub proof fn law_each_resolved_add_yields_one_record(os: Seq<EventOutcome>)
    requires
        forall|i: int| 0 <= i < os.len() ==> #[trigger] os[i] is Resolved,
    ensures
        records_of(os).len() == os.len(),
        forall|i: int| 0 <= i < os.len() ==> record_of(os[i]) == Some(#[trigger] records_of(os)[i]),
    decreases os.len(),
{
    if os.len() > 0 {
        let init = os.drop_last();
        assert forall|i: int| 0 <= i < init.len() implies #[trigger] init[i] is Resolved by {
            assert(init[i] == os[i]);
        }
        law_each_resolved_add_yields_one_record(init);
        assert(os[os.len() - 1] is Resolved);
        assert forall|i: int| 0 <= i < os.len() implies record_of(os[i]) == Some(
            #[trigger] records_of(os)[i],
        ) by {
            if i < os.len() - 1 {
                assert(init[i] == os[i]);
            }
        }
    }
}

/// A removal yields no record, and the events around it yield the same
/// records as without it.
pub proof fn law_removal_yields_no_record(
    before: Seq<EventOutcome>,
    a: Announcement,
    after: Seq<EventOutcome>,
)
    ensures
        record_of(EventOutcome::Removed(a)) is None,
        records_of(before + seq![EventOutcome::Removed(a)] + after) == records_of(before)
            + records_of(after),
{
    lemma_event_without_record(before, EventOutcome::Removed(a), after);
}

/// A malformed signal yields no record, and the events after it are
/// handled as if it had not come.
pub proof fn law_malformed_event_is_skipped(
    before: Seq<EventOutcome>,
    h: SignalHeader,
    after: Seq<EventOutcome>,
)
    ensures
        record_of(EventOutcome::Malformed(h)) is None,
        records_of(before + seq![EventOutcome::Malformed(h)] + after) == records_of(before)
            + records_of(after),
{
    lemma_event_without_record(before, EventOutcome::Malformed(h), after);
}

/// A failed resolution yields no record for its event, and the events
/// after it are handled as if it had not come.
pub proof fn law_failed_resolution_is_skipped(
    before: Seq<EventOutcome>,
    a: Announcement,
    after: Seq<EventOutcome>,
)
    ensures
        record_of(EventOutcome::ResolveFailed(a)) is None,
        records_of(before + seq![EventOutcome::ResolveFailed(a)] + after) == records_of(before)
            + records_of(after),
{
    lemma_event_without_record(before, EventOutcome::ResolveFailed(a), after);
}

/// Two resolutions with the same TXT bytes, observed at the same time, give
/// field-wise equal records.
pub proof fn law_identical_resolutions_give_equal_records(
    r1: ResolutionResult,
    r2: ResolutionResult,
    now: u64,
)
    requires
        bytes_of(r1.txt@) == bytes_of(r2.txt@),
    ensures
        record_of(EventOutcome::Resolved(r1, now)) == record_of(EventOutcome::Resolved(r2, now)),
{
}

/// Transport adapter: turns the events of a browse session into device
/// records and hands each to the discovery port it was built with.
pub struct AvahiDeviceListener<'a, T: DeviceListener + 'a> {
    listener: &'a T,
}

impl<'a, T: DeviceListener + 'a> AvahiDeviceListener<'a, T> {
    pub fn new(device_listener: &'a T) -> (r: Self)
        ensures
            r.listener() == device_listener,
    {
        Self { listener: device_listener }
    }

    pub closed spec fn listener(&self) -> &'a T {
        self.listener
    }

    /// Handles one event: where it yields a record, that record goes to the
    /// discovery port, once. Returns whether a record was forwarded.
    pub fn deliver(&self, outcome: &EventOutcome) -> (forwarded: bool)
        ensures
            forwarded == record_of(*outcome) is Some,
    {
        match record_for(outcome) {
            Some(device) => {
                self.listener.on_device_discovered(device);
                true
            },
            None => false,
        }
    }
}

} // verus!
