use vstd::prelude::*;
use crate::protocol::{DEVICE_INTERFACE, PID_BASILISK_V3_WIRED, PID_BASILISK_V3_WIRELESS, RAZER_VID};

verus! {

/// What the platform's HID layer tells of one device it lists.
#[derive(Clone, Copy, Debug, PartialEq, Eq, Structural)]
pub struct DeviceEntry {
    pub vendor_id: u16,
    pub product_id: u16,
    pub interface_number: i32,
}

/// How the mouse is reached.
#[derive(Clone, Copy, Debug, PartialEq, Eq, Structural)]
pub enum Transport {
    Wired,
    Wireless,
}

impl Transport {
    pub open spec fn product_id_spec(self) -> u16 {
        match self {
            Transport::Wired => PID_BASILISK_V3_WIRED,
            Transport::Wireless => PID_BASILISK_V3_WIRELESS,
        }
    }

    /// The product id under which the mouse shows up on this transport.
    pub fn product_id(self) -> (r: u16)
        ensures
            r == self.product_id_spec(),
    {
        match self {
            Transport::Wired => PID_BASILISK_V3_WIRED,
            Transport::Wireless => PID_BASILISK_V3_WIRELESS,
        }
    }

    /// The transports to try, in order of preference: the cable first.
    pub fn candidates() -> (r: Vec<Transport>)
        ensures
            r@ == seq![Transport::Wired, Transport::Wireless],
    {
        let mut v: Vec<Transport> = Vec::new();
        v.push(Transport::Wired);
        v.push(Transport::Wireless);
        assert(v@ =~= seq![Transport::Wired, Transport::Wireless]);
        v
    }
}

/// The entry is the mouse's protocol interface under the given product id.
pub open spec fn entry_matches(e: DeviceEntry, pid: u16) -> bool {
    e.vendor_id == RAZER_VID && e.product_id == pid && e.interface_number == DEVICE_INTERFACE
}

/// The index of the first listed device that is the mouse under `pid`, if any.
pub fn find_device(devices: &[DeviceEntry], pid: u16) -> (r: Option<usize>)
    ensures
        match r {
            Some(i) => i < devices@.len() && entry_matches(devices@[i as int], pid) && (forall|
                j: int,
            |
                0 <= j < i ==> !entry_matches(#[trigger] devices@[j], pid)),
            None => forall|j: int|
                0 <= j < devices@.len() ==> !entry_matches(#[trigger] devices@[j], pid),
        },
{
    let mut i: usize = 0;
    while i < devices.len()
        invariant
            i <= devices@.len(),
            forall|j: int| 0 <= j < i ==> !entry_matches(#[trigger] devices@[j], pid),
        decreases devices@.len() - i,
    {
        let e = devices[i];
        if e.vendor_id == RAZER_VID && e.product_id == pid && e.interface_number
            == DEVICE_INTERFACE {
            return Some(i);
        }
        i = i + 1;
    }
    None
}

} // verus!
