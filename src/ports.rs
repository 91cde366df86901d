use vstd::prelude::*;
use crate::device::Device;

verus! {

/// Driving port: told of each device that a transport adapter has found.
/// An implementation absorbs its own errors; the caller keeps handling events.
pub trait DeviceListener {
    fn on_device_discovered(&self, device: Device);
}

/// Driven port: renders a batch of devices, possibly empty, in order.
/// Rendering errors are swallowed by the implementation.
pub trait ViewUpdates {
    fn display_devices(&self, devices: &[Device]);
}

} // verus!
