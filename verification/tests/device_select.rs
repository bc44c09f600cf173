use imageflash::device::{check_device, choose_device, is_pendrive_candidate, Device};
use imageflash::{ErrorKind, FlashError};

fn dev(name: &str, size: usize) -> Device {
    Device {
        dev: name.to_string(),
        model: "Model".to_string(),
        vendor: "Vendor".to_string(),
        size,
    }
}

#[test]
fn capacity_is_sectors_times_512() {
    let d = check_device(
        "/dev/sdb".to_string(),
        "Kingston".to_string(),
        "DataTraveler".to_string(),
        1000,
    )
    .unwrap();
    assert_eq!(d.size, 512000);
    assert_eq!(d.dev, "/dev/sdb");
    assert_eq!(d.vendor, "Kingston");
    assert_eq!(d.model, "DataTraveler");
}

#[test]
fn zero_sector_device_is_an_empty_reader() {
    let err = check_device("/dev/sdc".to_string(), "v".to_string(), "m".to_string(), 0)
        .unwrap_err();
    assert_eq!(err, FlashError::EmptyDevice);
    assert_eq!(err.kind(), ErrorKind::Device);
}

#[test]
fn usb_whole_disk_entries_are_candidates() {
    assert!(is_pendrive_candidate("usb-Kingston_DataTraveler_3.0_0123-0:0", "sdb"));
    assert!(!is_pendrive_candidate("ata-WDC_WD10EZEX-0:0", "sdb"));
    assert!(!is_pendrive_candidate("usb-Generic_DVD-0:0", "sr0"));
    assert!(!is_pendrive_candidate("usb-Kingston_DataTraveler_3.0_0123-0:0-part1", "sdb1"));
    assert!(!is_pendrive_candidate("usb-", "sdb"));
}

#[test]
fn no_candidates_is_a_device_error() {
    let none: Vec<Device> = Vec::new();
    let err = choose_device(&none, None).unwrap_err();
    assert_eq!(err, FlashError::NoDevices);
    assert_eq!(err.kind(), ErrorKind::Device);
}

#[test]
fn a_single_candidate_needs_no_prompt() {
    let devices = vec![dev("/dev/sdb", 1 << 30)];
    let chosen = choose_device(&devices, None).unwrap();
    assert_eq!(chosen.dev, "/dev/sdb");
    // A stale selection index changes nothing for a single candidate.
    let chosen2 = choose_device(&devices, Some(5)).unwrap();
    assert_eq!(chosen2.dev, "/dev/sdb");
}

#[test]
fn among_several_the_pick_decides() {
    let devices = vec![dev("/dev/sdb", 1), dev("/dev/sdc", 2), dev("/dev/sdd", 3)];
    assert_eq!(choose_device(&devices, Some(0)).unwrap().dev, "/dev/sdb");
    assert_eq!(choose_device(&devices, Some(2)).unwrap().dev, "/dev/sdd");
    assert_eq!(choose_device(&devices, None).unwrap_err(), FlashError::NoDeviceSelected);
    assert_eq!(choose_device(&devices, Some(3)).unwrap_err(), FlashError::NoDeviceSelected);
}

#[test]
fn error_kinds_cover_the_families() {
    assert_eq!(FlashError::NoImagePath.kind(), ErrorKind::Configuration);
    assert_eq!(FlashError::UnsupportedFormat.kind(), ErrorKind::Configuration);
    assert_eq!(FlashError::NoDevices.kind(), ErrorKind::Device);
    assert_eq!(FlashError::NoDeviceSelected.kind(), ErrorKind::Device);
    assert_eq!(FlashError::EmptyDevice.kind(), ErrorKind::Device);
    assert_eq!(FlashError::ShortImage.kind(), ErrorKind::Io);
    assert_eq!(FlashError::CorruptStream.kind(), ErrorKind::Io);
    assert_eq!(FlashError::BadImageFormat.kind(), ErrorKind::Format);
    assert_eq!(FlashError::NotSectorAligned.kind(), ErrorKind::Format);
    assert_eq!(FlashError::ImageTooLarge.kind(), ErrorKind::Format);
    assert_eq!(FlashError::VerificationMismatch.kind(), ErrorKind::Verification);
    assert!(!FlashError::VerificationMismatch.describe().is_empty());
}
