//! Device enumeration and role resolution.
//!
//! Devices are enumerated with one count call followed by exactly `count`
//! info calls; each info call yields an identifier and a name whose bytes
//! are copied at once, so a device view is an owned, immutable snapshot that
//! needs no further round-trip. A named role resolves to at most one current
//! device: the runtime answers with a signed identifier, and an absent
//! mapping is encoded as an out-of-range value whose info lookup the runtime
//! then fails.

use vstd::prelude::*;

use crate::codes::{code_to_result, spec_from_code, MndResult};
use crate::session::Monado;
use crate::text::{decode_text, decoded_utf8};

verus! {

/// An owned, self-contained snapshot of one device's identity and name,
/// captured once at enumeration time. It does not reflect later changes to
/// the device's name in the runtime.
#[derive(Debug, Clone, PartialEq, Eq)]
pub struct Device {
    pub id: u32,
    pub name: String,
}

/// Decide what one device-info answer means: on success, an owned device
/// view with the returned identifier and the decoded name; a failed call or
/// invalid name text is a typed error.
pub fn device_info(code: i32, id: u32, raw: Vec<u8>) -> (r: Result<Device, MndResult>)
    ensures
        code < 0 ==> (r matches Err(e) && e == spec_from_code(code)),
        code >= 0 ==> (decoded_utf8(raw@) matches Some(s) ==> (r matches Ok(d) && d.id == id
            && d.name@ == s)),
        code >= 0 && decoded_utf8(raw@) is None ==> (r matches Err(e) && e
            == MndResult::ErrorInvalidValue),
{
    match code_to_result(code) {
        Ok(()) => {
            match decode_text(raw) {
                Ok(name) => Ok(Device { id, name }),
                Err(e) => Err(e),
            }
        },
        Err(e) => Err(e),
    }
}

/// A device enumeration in progress: the count the runtime reported and the
/// views captured so far, one per index position, in order.
pub struct DeviceListBuilder {
    pub want: u32,
    pub devices: Vec<Device>,
}

impl DeviceListBuilder {
    /// The next index position to query, or nothing once every position up
    /// to the reported count has been captured.
    pub fn next_index(&self) -> (r: Option<u32>)
        ensures
            self.devices@.len() < self.want ==> (r matches Some(i) && i == self.devices@.len()),
            self.devices@.len() >= self.want ==> r is None,
    {
        if self.devices.len() < self.want as usize {
            Some(self.devices.len() as u32)
        } else {
            None
        }
    }

    /// Capture the answer of one device-info call. On success the view is
    /// appended; on any failure the builder is unchanged and the whole
    /// enumeration must be abandoned — no partial list is ever returned.
    pub fn add(&mut self, code: i32, id: u32, raw: Vec<u8>) -> (r: Result<(), MndResult>)
        requires
            old(self).devices@.len() < old(self).want,
        ensures
            final(self).want == old(self).want,
            r is Ok ==> final(self).devices@.len() == old(self).devices@.len() + 1,
            r is Ok ==> (forall|j: int|
                0 <= j < old(self).devices@.len() ==> final(self).devices@[j]
                    == old(self).devices@[j]),
            r is Ok ==> final(self).devices@.last().id == id,
            r is Ok ==> (decoded_utf8(raw@) matches Some(s)
                && final(self).devices@.last().name@ == s),
            r is Err ==> final(self).devices@ == old(self).devices@,
            code < 0 ==> (r matches Err(e) && e == spec_from_code(code)),
            code >= 0 && decoded_utf8(raw@) is None ==> (r matches Err(e) && e
                == MndResult::ErrorInvalidValue),
            code >= 0 && decoded_utf8(raw@) is Some ==> r is Ok,
    {
        match device_info(code, id, raw) {
            Ok(d) => {
                self.devices.push(d);
                Ok(())
            },
            Err(e) => Err(e),
        }
    }

    /// Hand out the finished list, one owned view per index position.
    pub fn into_devices(self) -> (r: Vec<Device>)
        requires
            self.devices@.len() == self.want,
        ensures
            r@ == self.devices@,
    {
        self.devices
    }
}

impl Monado {
    /// Begin a device enumeration from the answer of the device-count call:
    /// on success, a builder expecting exactly `count` info answers.
    pub fn devices(&self, code: i32, count: u32) -> (r: Result<DeviceListBuilder, MndResult>)
        requires
            self.phase is Active,
        ensures
            code >= 0 ==> (r matches Ok(b) && b.want == count && b.devices@.len() == 0),
            code < 0 ==> (r matches Err(e) && e == spec_from_code(code)),
    {
        match code_to_result(code) {
            Ok(()) => Ok(DeviceListBuilder { want: count, devices: Vec::new() }),
            Err(e) => Err(e),
        }
    }

    /// Decide what the runtime's answer to a role query means: on success,
    /// the identifier to look up, reinterpreted as the unsigned value the
    /// info call takes (an absent mapping comes back as a negative value,
    /// whose out-of-range lookup the runtime then fails with
    /// `ErrorOperationFailed`).
    pub fn device_from_role(&self, code: i32, device_id: i32) -> (r: Result<u32, MndResult>)
        requires
            self.phase is Active,
        ensures
            code < 0 ==> (r matches Err(e) && e == spec_from_code(code)),
            code >= 0 && device_id >= 0 ==> (r matches Ok(u) && u == device_id),
            code >= 0 && device_id < 0 ==> (r matches Ok(u) && u == device_id
                + 0x1_0000_0000i64),
    {
        match code_to_result(code) {
            Ok(()) => {
                if device_id >= 0 {
                    Ok(device_id as u32)
                } else {
                    Ok((device_id as i64 + 0x1_0000_0000i64) as u32)
                }
            },
            Err(e) => Err(e),
        }
    }
}

} // verus!
