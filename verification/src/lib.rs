//! Verified core of a disk-image flashing pipeline.
//!
//! The library owns the logic of the flow: resolving a codec from a file
//! extension, pre-scanning a decompressed image for its length and SHA-256
//! digest, the aligned-buffer pool that feeds direct device I/O, the streaming
//! copy state machine with its read-back verification pass, and a persisted
//! checksum cache. Reading files, talking to real block devices and rendering
//! prompts stay outside, in unverified callers that hand the library plain
//! values.

use vstd::prelude::*;

pub mod buffer;
pub mod cache;
pub mod checksum;
pub mod codec;
pub mod device;
pub mod engine;
pub mod hexcode;
pub mod text;

verus! {

/// Every transfer must be a whole number of disk sectors.
pub const SECTOR_SIZE: usize = 512;

/// Nominal transfer unit: how many payload bytes one aligned buffer carries.
pub const BUF_SIZE: usize = 1024 * 1024;

/// Alignment required of direct (cache-bypassing) device I/O.
pub const PAGE_SIZE: usize = 4096;

/// Default depth of the buffer pool and of the channels between the two tasks.
pub const BUFFERS: usize = 4;

/// Everything that can go wrong in the flashing flow, one variant per
/// concrete condition.
#[derive(Clone, Copy, Debug, PartialEq, Eq, Structural)]
pub enum FlashError {
    /// No source image path was given.
    NoImagePath,
    /// The image extension matches no known codec.
    UnsupportedFormat,
    /// Device enumeration found no candidate devices.
    NoDevices,
    /// Several candidates were offered and none was chosen.
    NoDeviceSelected,
    /// A candidate device reports a capacity of zero sectors.
    EmptyDevice,
    /// The decompressed image ends before a whole boot sector.
    ShortImage,
    /// The boot-sector signature was missing and the caller chose to abort.
    BadImageFormat,
    /// The decompressed length is not a multiple of the sector size.
    NotSectorAligned,
    /// The decompressed length exceeds the target device's capacity.
    ImageTooLarge,
    /// The compressed stream could not be decoded.
    CorruptStream,
    /// The post-write digest of the device differs from the pre-scan digest.
    VerificationMismatch,
}

/// The broad families of failure, for reporting.
#[derive(Clone, Copy, Debug, PartialEq, Eq, Structural)]
pub enum ErrorKind {
    Configuration,
    Device,
    Format,
    Io,
    Verification,
}

/// Which family a concrete error belongs to.
pub open spec fn spec_kind_of(e: FlashError) -> ErrorKind {
    match e {
        FlashError::NoImagePath => ErrorKind::Configuration,
        FlashError::UnsupportedFormat => ErrorKind::Configuration,
        FlashError::NoDevices => ErrorKind::Device,
        FlashError::NoDeviceSelected => ErrorKind::Device,
        FlashError::EmptyDevice => ErrorKind::Device,
        FlashError::ShortImage => ErrorKind::Io,
        FlashError::BadImageFormat => ErrorKind::Format,
        FlashError::NotSectorAligned => ErrorKind::Format,
        FlashError::ImageTooLarge => ErrorKind::Format,
        FlashError::CorruptStream => ErrorKind::Io,
        FlashError::VerificationMismatch => ErrorKind::Verification,
    }
}

impl FlashError {
    /// The family of this error.
    pub fn kind(&self) -> (k: ErrorKind)
        ensures
            k == spec_kind_of(*self),
    {
        match self {
            FlashError::NoImagePath => ErrorKind::Configuration,
            FlashError::UnsupportedFormat => ErrorKind::Configuration,
            FlashError::NoDevices => ErrorKind::Device,
            FlashError::NoDeviceSelected => ErrorKind::Device,
            FlashError::EmptyDevice => ErrorKind::Device,
            FlashError::ShortImage => ErrorKind::Io,
            FlashError::BadImageFormat => ErrorKind::Format,
            FlashError::NotSectorAligned => ErrorKind::Format,
            FlashError::ImageTooLarge => ErrorKind::Format,
            FlashError::CorruptStream => ErrorKind::Io,
            FlashError::VerificationMismatch => ErrorKind::Verification,
        }
    }

    /// A short human-readable description.
    pub fn describe(&self) -> (s: &'static str) {
        match self {
            FlashError::NoImagePath => "no disk image path given",
            FlashError::UnsupportedFormat => "unrecognized compression",
            FlashError::NoDevices => "no devices found",
            FlashError::NoDeviceSelected => "no device selected",
            FlashError::EmptyDevice => "probably an empty card reader",
            FlashError::ShortImage => "failed to read boot sector",
            FlashError::BadImageFormat => "bad image format",
            FlashError::NotSectorAligned => "image length not multiple of sector size",
            FlashError::ImageTooLarge => "image won't fit on media",
            FlashError::CorruptStream => "failed to decode compressed stream",
            FlashError::VerificationMismatch => "target verification failed",
        }
    }
}

/// The two preconditions that must hold before any byte reaches the device:
/// the image is a whole number of sectors, and it fits on the target.
pub open spec fn spec_copy_admissible(len: nat, capacity: nat) -> bool {
    len % (SECTOR_SIZE as nat) == 0 && len <= capacity
}

/// Checks the copy preconditions. Rejects a length that is not a multiple of
/// the sector size, then a length over the device capacity; admits the rest.
pub fn validate_copy(len: usize, capacity: usize) -> (r: Result<(), FlashError>)
    ensures
        r is Ok <==> spec_copy_admissible(len as nat, capacity as nat),
        r is Err ==> (r->Err_0 == FlashError::NotSectorAligned <==> len % SECTOR_SIZE != 0),
        r is Err ==> (r->Err_0 == FlashError::ImageTooLarge <==> (len % SECTOR_SIZE == 0
            && len > capacity)),
{
    if len % SECTOR_SIZE != 0 {
        Err(FlashError::NotSectorAligned)
    } else if len > capacity {
        Err(FlashError::ImageTooLarge)
    } else {
        Ok(())
    }
}

} // verus!
