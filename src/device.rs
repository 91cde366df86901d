use vstd::prelude::*;

verus! {

/// One resolved device. Immutable once built; two records with equal
/// fields are interchangeable.
#[derive(Debug, Clone, PartialEq, Eq)]
pub struct Device {
    pub hw: String,
    pub sn: String,
    pub version: String,
    pub uptime_seconds: u64,
    pub unix_epoch: u64,
    pub custom: String,
}

/// The mathematical content of a `Device`.
pub struct DeviceView {
    pub hw: Seq<char>,
    pub sn: Seq<char>,
    pub version: Seq<char>,
    pub uptime_seconds: u64,
    pub unix_epoch: u64,
    pub custom: Seq<char>,
}

impl View for Device {
    type V = DeviceView;

    open spec fn view(&self) -> DeviceView {
        DeviceView {
            hw: self.hw@,
            sn: self.sn@,
            version: self.version@,
            uptime_seconds: self.uptime_seconds,
            unix_epoch: self.unix_epoch,
            custom: self.custom@,
        }
    }
}

} // verus!
