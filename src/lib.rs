//! Discovery of network-advertised devices: a bus adapter turns service
//! announcements into device records, an orchestrator forwards them to a view.
pub mod device;
pub mod ports;
pub mod discover_service;
pub mod txt;
pub mod avahi_device_listener;
pub mod simple_console_ui;

pub use device::Device;
pub use ports::{DeviceListener, ViewUpdates};
pub use discover_service::DiscoverService;
pub use avahi_device_listener::{
    browse_request, next_step, record_for, records_for, resolve_request, device_from_resolution,
    Announcement, AvahiDeviceListener, BrowseRequest, BusEvent, EventOutcome, ResolutionResult,
    ResolveRequest, SignalHeader, Step, AVAHI_IF_UNSPEC, AVAHI_PROTO_UNSPEC,
};
pub use simple_console_ui::{decimal_text, SimpleConsoleUi};
pub use txt::{custom_payload, entry_has_key, join_texts, lookup_value, parse_seconds, valid_texts};
