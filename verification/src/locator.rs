//! Finding the receiver among the HID interfaces the host enumerates.

use vstd::prelude::*;
use crate::error::Error;

verus! {

/// The four numbers that tell one HID interface from another.
#[derive(Clone, Copy, Debug, PartialEq, Eq, Structural)]
pub struct DeviceIdentity {
    pub vendor_id: u16,
    pub product_id: u16,
    pub usage: u16,
    pub usage_page: u16,
}

/// The identity of the receiver's vendor interface.
pub open spec fn spec_receiver() -> DeviceIdentity {
    DeviceIdentity { vendor_id: 0x046D, product_id: 0xC548, usage: 0x0001, usage_page: 0xFF00 }
}

impl DeviceIdentity {
    /// The identity of the receiver's vendor interface.
    pub fn receiver() -> (id: DeviceIdentity)
        ensures
            id == spec_receiver(),
    {
        DeviceIdentity { vendor_id: 0x046D, product_id: 0xC548, usage: 0x0001, usage_page: 0xFF00 }
    }

    /// Whether `other` is the same interface: all four numbers agree.
    pub fn matches(&self, other: &DeviceIdentity) -> (same: bool)
        ensures
            same <==> *self == *other,
    {
        self.vendor_id == other.vendor_id && self.product_id == other.product_id && self.usage
            == other.usage && self.usage_page == other.usage_page
    }
}

/// Finds `wanted` among the enumerated interfaces. The first match wins; its
/// position is returned so that the caller can open that interface by its
/// path.
pub fn locate_interface(interfaces: &Vec<DeviceIdentity>, wanted: &DeviceIdentity) -> (found:
    Result<usize, Error>)
    ensures
        match found {
            Ok(i) => {
                &&& i < interfaces.len()
                &&& interfaces[i as int] == *wanted
                &&& forall|j: int| 0 <= j < i ==> interfaces[j] != *wanted
            },
            Err(e) => {
                &&& e == Error::DeviceNotFound
                &&& forall|j: int| 0 <= j < interfaces.len() ==> interfaces[j] != *wanted
            },
        },
{
    let mut i: usize = 0;
    while i < interfaces.len()
        invariant
            i <= interfaces.len(),
            forall|j: int| 0 <= j < i ==> interfaces[j] != *wanted,
        decreases interfaces.len() - i,
    {
        if interfaces[i].matches(wanted) {
            return Ok(i);
        }
        i += 1;
    }
    Err(Error::DeviceNotFound)
}

/// Finds the receiver among the enumerated interfaces.
pub fn locate(interfaces: &Vec<DeviceIdentity>) -> (found: Result<usize, Error>)
    ensures
        match found {
            Ok(i) => {
                &&& i < interfaces.len()
                &&& interfaces[i as int] == spec_receiver()
                &&& forall|j: int| 0 <= j < i ==> interfaces[j] != spec_receiver()
            },
            Err(e) => {
                &&& e == Error::DeviceNotFound
                &&& forall|j: int| 0 <= j < interfaces.len() ==> interfaces[j] != spec_receiver()
            },
        },
{
    let wanted = DeviceIdentity::receiver();
    locate_interface(interfaces, &wanted)
}

} // verus!
