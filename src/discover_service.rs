use vstd::prelude::*;
use crate::device::Device;
use crate::ports::{DeviceListener, ViewUpdates};

verus! {

/// Application service: forwards every discovered device to the view it was
/// built with, as a batch of one.
pub struct DiscoverService<'a, T: ViewUpdates + 'a> {
    ui: &'a T,
}

impl<'a, T: ViewUpdates + 'a> DiscoverService<'a, T> {
    pub fn new(ui: &'a T) -> (r: Self)
        ensures
            r.ui() == ui,
    {
        Self { ui }
    }

    pub closed spec fn ui(&self) -> &'a T {
        self.ui
    }

    /// The batch handed to the view for one discovered device: that device
    /// alone, nothing held back from earlier calls.
    pub fn batch_for(&self, device: Device) -> (r: Vec<Device>)
        ensures
            r@ == seq![device],
    {
        let mut batch: Vec<Device> = Vec::new();
        batch.push(device);
        batch
    }
}

impl<'a, T: ViewUpdates + 'a> DeviceListener for DiscoverService<'a, T> {
    fn on_device_discovered(&self, device: Device) {
        let batch = self.batch_for(device);
        self.ui.display_devices(batch.as_slice());
    }
}

} // verus!
