//! Target devices as the engine sees them: a path, identifying strings and
//! a capacity in bytes.
//!
//! Enumerating removable devices means walking system metadata files; that
//! stays with the unverified caller, which hands the fields read from those
//! files to `check_device`. The name filter and the selection rule, the two
//! decisions in that walk, are verified here.

use vstd::prelude::*;
use crate::FlashError;
use crate::text::{spec_is_prefix, spec_is_suffix, str_starts_with, str_ends_with};

verus! {

/// One candidate block device. Immutable once enumerated.
#[derive(Debug, Clone)]
pub struct Device {
    pub dev: String,
    pub model: String,
    pub vendor: String,
    pub size: usize,
}

/// Builds a device record from the fields enumeration read: the capacity is
/// the sector count in bytes, and a device of zero sectors is rejected as an
/// empty card reader.
pub fn check_device(dev: String, vendor: String, model: String, sectors: usize) -> (r: Result<
    Device,
    FlashError,
>)
    requires
        sectors * 512 <= usize::MAX,
    ensures
        r is Ok <==> sectors > 0,
        r matches Ok(d) ==> d.dev == dev && d.vendor == vendor && d.model == model && d.size
            == sectors * 512,
        r is Err ==> r->Err_0 == FlashError::EmptyDevice,
{
    let size = sectors * 512;
    if size == 0 {
        return Err(FlashError::EmptyDevice);
    }
    assert(sectors > 0) by (nonlinear_arith)
        requires
            sectors * 512 != 0,
    ;
    Ok(Device { dev, model, vendor, size })
}

/// Whether a directory entry names a candidate drive: a USB disk entry,
/// whole device, that does not resolve to an optical drive.
pub open spec fn spec_is_candidate(entry: Seq<char>, resolved: Seq<char>) -> bool {
    &&& spec_is_prefix("usb-"@, entry)
    &&& spec_is_suffix("0:0"@, entry)
    &&& !spec_is_prefix("sr"@, resolved)
}

/// The name filter of device enumeration, over the entry's name and the
/// file name it resolves to.
pub fn is_pendrive_candidate(entry: &str, resolved: &str) -> (r: bool)
    ensures
        r == spec_is_candidate(entry@, resolved@),
{
    str_starts_with(entry, "usb-") && str_ends_with(entry, "0:0") && !str_starts_with(
        resolved,
        "sr",
    )
}

/// The selection rule over the enumerated candidates: none is a failure, a
/// single one is taken as it is, and among several the caller's pick
/// decides — no pick, or one out of range, selects nothing.
pub fn choose_device(devices: &Vec<Device>, selection: Option<usize>) -> (r: Result<
    &Device,
    FlashError,
>)
    ensures
        devices@.len() == 0 ==> r == Err::<&Device, FlashError>(FlashError::NoDevices),
        devices@.len() == 1 ==> (r matches Ok(d) && *d == devices@[0]),
        devices@.len() > 1 ==> (match selection {
            Some(i) => {
                if i < devices@.len() {
                    r matches Ok(d) && *d == devices@[i as int]
                } else {
                    r == Err::<&Device, FlashError>(FlashError::NoDeviceSelected)
                }
            },
            None => r == Err::<&Device, FlashError>(FlashError::NoDeviceSelected),
        }),
{
    if devices.len() == 0 {
        Err(FlashError::NoDevices)
    } else if devices.len() == 1 {
        Ok(&devices[0])
    } else {
        match selection {
            Some(i) => {
                if i < devices.len() {
                    Ok(&devices[i])
                } else {
                    Err(FlashError::NoDeviceSelected)
                }
            },
            None => Err(FlashError::NoDeviceSelected),
        }
    }
}

} // verus!
