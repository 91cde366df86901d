use std::cell::RefCell;

use device_discovery::{
    browse_request, device_from_resolution, next_step, record_for, records_for, Announcement,
    AvahiDeviceListener, BusEvent, Device, DeviceListener, DiscoverService, EventOutcome,
    ResolutionResult, SignalHeader, Step, ViewUpdates,
};

struct RecordingView {
    calls: RefCell<Vec<Vec<Device>>>,
}

impl RecordingView {
    fn new() -> Self {
        RecordingView { calls: RefCell::new(Vec::new()) }
    }
}

impl ViewUpdates for RecordingView {
    fn display_devices(&self, devices: &[Device]) {
        self.calls.borrow_mut().push(devices.to_vec());
    }
}

struct RecordingListener {
    devices: RefCell<Vec<Device>>,
}

impl DeviceListener for RecordingListener {
    fn on_device_discovered(&self, device: Device) {
        self.devices.borrow_mut().push(device);
    }
}

fn announcement(name: &str) -> Announcement {
    Announcement {
        interface: 2,
        protocol: 0,
        name: name.to_string(),
        service_type: "_discover._tcp".to_string(),
        domain: "local".to_string(),
        flags: 4,
    }
}

fn resolution(name: &str, txt: Vec<Vec<u8>>) -> ResolutionResult {
    ResolutionResult {
        interface: 2,
        protocol: 0,
        name: name.to_string(),
        service_type: "_discover._tcp".to_string(),
        domain: "local".to_string(),
        host_name: format!("{name}.local"),
        aprotocol: 0,
        address: "192.168.1.20".to_string(),
        port: 8080,
        txt,
        flags: 0,
    }
}

fn txt(entries: &[&str]) -> Vec<Vec<u8>> {
    entries.iter().map(|e| e.as_bytes().to_vec()).collect()
}

fn resolved(name: &str, hw: &str, now: u64) -> EventOutcome {
    let entry = format!("hw={hw}");
    EventOutcome::Resolved(resolution(name, txt(&[entry.as_str()])), now)
}

fn header() -> SignalHeader {
    SignalHeader {
        member: Some("ItemNew".to_string()),
        interface: None,
        signature: "iissu".to_string(),
    }
}

#[test]
fn txt_payload_skips_invalid_entries() {
    let entries = vec![b"temp=20".to_vec(), vec![0xff, 0xfe, 0x80], b"hw=v2".to_vec()];
    let d = device_from_resolution(&resolution("a", entries), 100);
    assert_eq!(d.custom, "temp=20;hw=v2");
    assert_eq!(d.hw, "v2");
}

#[test]
fn fields_come_from_txt_entries() {
    let entries = txt(&["hw=board-7", "sn=SN0042", "version=1.4.2", "uptime=3600", "x=y"]);
    let d = device_from_resolution(&resolution("a", entries), 1_700_000_000);
    assert_eq!(d.hw, "board-7");
    assert_eq!(d.sn, "SN0042");
    assert_eq!(d.version, "1.4.2");
    assert_eq!(d.uptime_seconds, 3600);
    assert_eq!(d.unix_epoch, 1_700_000_000);
    assert_eq!(d.custom, "hw=board-7;sn=SN0042;version=1.4.2;uptime=3600;x=y");
}

#[test]
fn missing_keys_give_empty_fields() {
    let d = device_from_resolution(&resolution("a", Vec::new()), 5);
    assert_eq!(d.hw, "");
    assert_eq!(d.sn, "");
    assert_eq!(d.version, "");
    assert_eq!(d.uptime_seconds, 0);
    assert_eq!(d.custom, "");
}

#[test]
fn first_entry_with_a_key_wins() {
    let d = device_from_resolution(&resolution("a", txt(&["hwx=1", "hw", "hw=first", "hw=second"])), 0);
    assert_eq!(d.hw, "first");
}

#[test]
fn non_ascii_text_is_decoded() {
    let d = device_from_resolution(&resolution("a", txt(&["hw=café"])), 0);
    assert_eq!(d.hw, "café");
    assert_eq!(d.custom, "hw=café");
}

#[test]
fn identical_resolutions_give_equal_records() {
    let entries = txt(&["hw=v2", "sn=1"]);
    let a = device_from_resolution(&resolution("a", entries.clone()), 9);
    let b = device_from_resolution(&resolution("a", entries), 9);
    assert_eq!(a, b);
}

#[test]
fn add_event_asks_for_resolution() {
    match next_step(BusEvent::ItemNew(announcement("printer"))) {
        Step::Resolve(q) => {
            assert_eq!(q.interface, 2);
            assert_eq!(q.protocol, 0);
            assert_eq!(q.name, "printer");
            assert_eq!(q.service_type, "_discover._tcp");
            assert_eq!(q.domain, "local");
            assert_eq!(q.aprotocol, -1);
            assert_eq!(q.flags, 0);
        }
        _ => panic!("an added service is resolved"),
    }
}

#[test]
fn remove_and_malformed_events_only_log() {
    assert!(matches!(next_step(BusEvent::ItemRemove(announcement("x"))), Step::LogRemoved(a) if a.name == "x"));
    assert!(matches!(next_step(BusEvent::Malformed(header())), Step::Warn(h) if h.signature == "iissu"));
}

#[test]
fn browse_watches_every_interface_and_family() {
    let b = browse_request();
    assert_eq!(b.interface, -1);
    assert_eq!(b.protocol, -1);
    assert_eq!(b.service_type, "_discover._tcp");
    assert_eq!(b.domain, "");
    assert_eq!(b.flags, 0);
}

#[test]
fn only_resolved_events_yield_records() {
    assert!(record_for(&resolved("a", "x", 1)).is_some());
    assert!(record_for(&EventOutcome::ResolveFailed(announcement("a"))).is_none());
    assert!(record_for(&EventOutcome::Removed(announcement("a"))).is_none());
    assert!(record_for(&EventOutcome::Malformed(header())).is_none());
}

#[test]
fn records_keep_event_order() {
    let events = vec![
        resolved("a", "one", 1),
        EventOutcome::Removed(announcement("z")),
        resolved("b", "two", 2),
    ];
    let records = records_for(&events);
    assert_eq!(records.len(), 2);
    assert_eq!(records[0].hw, "one");
    assert_eq!(records[0].unix_epoch, 1);
    assert_eq!(records[1].hw, "two");
    assert_eq!(records[1].unix_epoch, 2);
}

#[test]
fn each_resolved_add_renders_once() {
    let view = RecordingView::new();
    let service = DiscoverService::new(&view);
    let adapter = AvahiDeviceListener::new(&service);
    for (i, hw) in ["a", "b", "c"].iter().enumerate() {
        assert!(adapter.deliver(&resolved(hw, hw, i as u64)));
    }
    let calls = view.calls.borrow();
    assert_eq!(calls.len(), 3);
    for (i, hw) in ["a", "b", "c"].iter().enumerate() {
        assert_eq!(calls[i].len(), 1);
        assert_eq!(calls[i][0].hw, *hw);
        assert_eq!(calls[i][0].unix_epoch, i as u64);
    }
}

#[test]
fn removal_renders_nothing() {
    let view = RecordingView::new();
    let service = DiscoverService::new(&view);
    let adapter = AvahiDeviceListener::new(&service);
    assert!(!adapter.deliver(&EventOutcome::Removed(announcement("gone"))));
    assert!(view.calls.borrow().is_empty());
}

#[test]
fn malformed_event_does_not_stop_the_stream() {
    let view = RecordingView::new();
    let service = DiscoverService::new(&view);
    let adapter = AvahiDeviceListener::new(&service);
    adapter.deliver(&resolved("a", "first", 1));
    assert!(!adapter.deliver(&EventOutcome::Malformed(header())));
    adapter.deliver(&resolved("b", "second", 2));
    let calls = view.calls.borrow();
    assert_eq!(calls.len(), 2);
    assert_eq!(calls[0][0].hw, "first");
    assert_eq!(calls[1][0].hw, "second");
}

#[test]
fn failed_resolution_does_not_affect_the_next_add() {
    let view = RecordingView::new();
    let service = DiscoverService::new(&view);
    let adapter = AvahiDeviceListener::new(&service);
    assert!(!adapter.deliver(&EventOutcome::ResolveFailed(announcement("A"))));
    assert!(adapter.deliver(&resolved("B", "b-hw", 3)));
    let calls = view.calls.borrow();
    assert_eq!(calls.len(), 1);
    assert_eq!(calls[0].len(), 1);
    assert_eq!(calls[0][0].hw, "b-hw");
}

#[test]
fn orchestrator_forwards_one_call_per_device() {
    let view = RecordingView::new();
    let service = DiscoverService::new(&view);
    let first = device_from_resolution(&resolution("a", txt(&["hw=1"])), 1);
    let second = device_from_resolution(&resolution("b", txt(&["hw=2"])), 2);
    service.on_device_discovered(first.clone());
    assert_eq!(view.calls.borrow().len(), 1);
    service.on_device_discovered(second.clone());
    let calls = view.calls.borrow();
    assert_eq!(calls.len(), 2);
    assert_eq!(calls[0], vec![first]);
    assert_eq!(calls[1], vec![second]);
}

#[test]
fn batch_holds_the_device_alone() {
    let view = RecordingView::new();
    let service = DiscoverService::new(&view);
    let d = device_from_resolution(&resolution("a", txt(&["hw=1"])), 1);
    assert_eq!(service.batch_for(d.clone()), vec![d]);
}

#[test]
fn adapter_hands_records_to_any_listener() {
    let listener = RecordingListener { devices: RefCell::new(Vec::new()) };
    let adapter = AvahiDeviceListener::new(&listener);
    adapter.deliver(&resolved("a", "x", 1));
    adapter.deliver(&EventOutcome::ResolveFailed(announcement("b")));
    let got = listener.devices.borrow();
    assert_eq!(got.len(), 1);
    assert_eq!(got[0].hw, "x");
}
