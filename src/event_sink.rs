use crate::conf::KeyboardConfig;
use crate::error::Error;
use crate::event::SendData;
use vstd::prelude::*;

verus! {

/// Where events end up: a device, or a log for runs without one.
pub trait EventSink {
    fn send(&self, data: &SendData) -> Result<(), Error>;
}

/// The sink of runs without a device: it accepts every event.
#[derive(Clone, Copy, Debug)]
pub struct CliSink;

impl EventSink for CliSink {
    fn send(&self, _data: &SendData) -> (r: Result<(), Error>)
        ensures
            r is Ok,
    {
        Ok(())
    }
}

/// A device found by enumeration matches a candidate when all four
/// identifiers are equal.
pub open spec fn same_device(a: KeyboardConfig, b: KeyboardConfig) -> bool {
    a.vendor_id == b.vendor_id && a.product_id == b.product_id && a.usage == b.usage
        && a.usage_page == b.usage_page
}

/// Whether the device `found` is the candidate `wanted`.
pub fn device_matches(found: &KeyboardConfig, wanted: &KeyboardConfig) -> (r: bool)
    ensures
        r == same_device(*found, *wanted),
{
    found.vendor_id == wanted.vendor_id && found.product_id == wanted.product_id && found.usage
        == wanted.usage && found.usage_page == wanted.usage_page
}

/// The index of the first enumerated device that is `wanted`, if any.
pub fn find_device(devices: &Vec<KeyboardConfig>, wanted: &KeyboardConfig) -> (r: Option<usize>)
    ensures
        r is None <==> forall|k: int| 0 <= k < devices@.len() ==> !same_device(devices@[k], *wanted),
        r matches Some(i) ==> i < devices@.len() && same_device(devices@[i as int], *wanted)
            && forall|k: int| 0 <= k < i ==> !same_device(devices@[k], *wanted),
{
    let mut i: usize = 0;
    while i < devices.len()
        invariant
            i <= devices@.len(),
            forall|k: int| 0 <= k < i ==> !same_device(devices@[k], *wanted),
        decreases devices@.len() - i,
    {
        if device_matches(&devices[i], wanted) {
            return Some(i);
        }
        i = i + 1;
    }
    None
}

} // verus!
