use imageflash::buffer::{AlignedBuffer, BufferPool};
use imageflash::codec::by_ext;
use imageflash::engine::{
    copy, run_flash, verify_device, CopyEngine, EngineState, MemDevice, ReaderEvent, Step,
};
use imageflash::{validate_copy, ErrorKind, FlashError, BUF_SIZE};
use sha2::Digest;

fn sample_image(len: usize) -> Vec<u8> {
    let mut v: Vec<u8> = (0..len).map(|i| (i % 251) as u8).collect();
    if len >= 512 {
        v[510] = 0x55;
        v[511] = 0xAA;
    }
    v
}

fn digest_of(data: &[u8]) -> [u8; 32] {
    let mut d = [0u8; 32];
    d.copy_from_slice(&sha2::Sha256::digest(data));
    d
}

/// One verified copy plus read-back for a given source length.
fn check_copy_round_trip(len: usize) {
    let source = sample_image(len);
    let expected = digest_of(&source);
    let mut target = MemDevice::new(len + 8192);
    let mut pool = BufferPool::new(4);
    let report = copy(&source, &expected, &mut target, &mut pool).expect("copy should succeed");
    assert_eq!(report.bytes_written, len);
    assert_eq!(report.write_ops, len.div_ceil(BUF_SIZE));
    assert_eq!(report.state, EngineState::Done);
    assert_eq!(target.read_range(0, len), source);
    assert!(verify_device(&target, len, &expected).is_ok());
}

#[test]
fn copy_round_trip_empty() {
    check_copy_round_trip(0);
}

#[test]
fn copy_round_trip_one_sector() {
    check_copy_round_trip(512);
}

#[test]
fn copy_round_trip_one_unit() {
    check_copy_round_trip(BUF_SIZE);
}

#[test]
fn copy_round_trip_unit_plus_sector() {
    check_copy_round_trip(BUF_SIZE + 512);
}

#[test]
fn copy_round_trip_many_sectors() {
    check_copy_round_trip(37 * 512);
}

#[test]
fn unit_plus_one_byte_is_rejected_before_io() {
    let source = sample_image(BUF_SIZE + 1);
    let expected = digest_of(&source);
    let mut target = MemDevice::new(4 * BUF_SIZE);
    let mut pool = BufferPool::new(4);
    let err = copy(&source, &expected, &mut target, &mut pool).unwrap_err();
    assert_eq!(err, FlashError::NotSectorAligned);
    assert_eq!(target.write_count(), 0);
}

#[test]
fn sector_misaligned_length_is_rejected_before_io() {
    assert_eq!(validate_copy(513, 1 << 30), Err(FlashError::NotSectorAligned));
    let source = sample_image(513);
    let mut target = MemDevice::new(1 << 20);
    let codec = by_ext("ISO").unwrap();
    let err = run_flash(&codec, &source, false, &mut target).unwrap_err();
    assert_eq!(err, FlashError::NotSectorAligned);
    assert_eq!(err.kind(), ErrorKind::Format);
    assert_eq!(target.write_count(), 0);
    assert_eq!(target.read_range(0, 1024), vec![0u8; 1024]);
}

#[test]
fn oversized_image_is_rejected_before_io() {
    assert_eq!(validate_copy(2 << 30, 1 << 30), Err(FlashError::ImageTooLarge));
    let source = sample_image(2048);
    let mut target = MemDevice::new(1024);
    let codec = by_ext("ISO").unwrap();
    let err = run_flash(&codec, &source, false, &mut target).unwrap_err();
    assert_eq!(err, FlashError::ImageTooLarge);
    assert_eq!(err.kind(), ErrorKind::Format);
    assert_eq!(target.write_count(), 0);
}

#[test]
fn ten_mib_image_end_to_end() {
    let len = 10 * 1024 * 1024;
    let source = sample_image(len);
    let codec = by_ext("IMG").unwrap();
    let scan = codec.get_size_sum(&source).unwrap();
    assert_eq!(scan.length, len);
    assert_eq!(scan.checksum, digest_of(&source));
    let mut target = MemDevice::new(1 << 30);
    let report = run_flash(&codec, &source, false, &mut target).expect("flash should succeed");
    assert_eq!(report.write_ops, 10);
    assert_eq!(report.bytes_written, len);
    assert_eq!(report.state, EngineState::Done);
    assert_eq!(target.write_count(), 10);
    assert_eq!(target.read_range(0, len), source);
    assert!(verify_device(&target, len, &scan.checksum).is_ok());
}

#[test]
fn corrupted_write_fails_verification_and_stays() {
    let len = 10 * 1024 * 1024;
    let source = sample_image(len);
    let expected = digest_of(&source);
    let mut target = MemDevice::new(16 * 1024 * 1024);
    let mut pool = BufferPool::new(4);
    copy(&source, &expected, &mut target, &mut pool).unwrap();
    // The last written byte is flipped, as a corrupted final device write.
    let flipped = vec![source[len - 1] ^ 1];
    target.write_at(len - 1, &flipped);
    let err = verify_device(&target, len, &expected).unwrap_err();
    assert_eq!(err, FlashError::VerificationMismatch);
    assert_eq!(err.kind(), ErrorKind::Verification);
    // The device is left exactly as written: still corrupted, not rolled back.
    assert_eq!(target.read_range(len - 1, 1), flipped);
    assert_eq!(target.read_range(0, len - 1), source[..len - 1]);
}

#[test]
fn decode_failure_reaches_the_caller_before_io() {
    let garbage: Vec<u8> = (0..1024).map(|i| (i % 256) as u8).collect();
    let codec = by_ext("GZ").unwrap();
    let mut target = MemDevice::new(1 << 20);
    assert_eq!(run_flash(&codec, &garbage, false, &mut target).unwrap_err(), FlashError::CorruptStream);
    assert_eq!(target.write_count(), 0);
}

#[test]
fn unsigned_image_aborted_by_the_caller() {
    let source = vec![0u8; 1024];
    let codec = by_ext("DD").unwrap();
    let mut target = MemDevice::new(1 << 20);
    assert_eq!(run_flash(&codec, &source, false, &mut target).unwrap_err(), FlashError::BadImageFormat);
    assert_eq!(target.write_count(), 0);
    let report = run_flash(&codec, &source, true, &mut target).unwrap();
    assert_eq!(report.state, EngineState::Done);
    assert_eq!(target.read_range(0, 1024), source);
}

#[test]
fn state_machine_happy_path() {
    let mut eng = CopyEngine::new(1024, 4096);
    assert_eq!(eng.state(), EngineState::Init);
    eng.start().unwrap();
    assert_eq!(eng.state(), EngineState::AwaitReady);
    assert!(matches!(eng.step(ReaderEvent::Ready), Step::Advance));
    assert_eq!(eng.state(), EngineState::Streaming);
    // A duplicate Ready while streaming is a defensive no-op.
    assert!(matches!(eng.step(ReaderEvent::Ready), Step::Advance));
    assert_eq!(eng.state(), EngineState::Streaming);
    let mut buf = AlignedBuffer::new();
    buf.fill(&vec![5u8; 1024]);
    match eng.step(ReaderEvent::Block(buf)) {
        Step::Write(b) => assert_eq!(b.used, 1024),
        _ => panic!("a block within bounds must be written"),
    }
    assert!(matches!(eng.step(ReaderEvent::Done), Step::Finish));
    assert_eq!(eng.state(), EngineState::Draining);
    eng.drained();
    assert_eq!(eng.state(), EngineState::Verifying);
    eng.verified(true).unwrap();
    assert_eq!(eng.state(), EngineState::Done);
}

#[test]
fn state_machine_rejects_early_done_and_errors() {
    let mut eng = CopyEngine::new(1024, 4096);
    eng.start().unwrap();
    assert!(matches!(eng.step(ReaderEvent::Done), Step::Abort));
    assert_eq!(eng.state(), EngineState::Failed);

    let mut eng2 = CopyEngine::new(1024, 4096);
    eng2.start().unwrap();
    assert!(matches!(eng2.step(ReaderEvent::Ready), Step::Advance));
    // Done before all bytes arrived fails the copy.
    assert!(matches!(eng2.step(ReaderEvent::Done), Step::Abort));
    assert_eq!(eng2.state(), EngineState::Failed);

    let mut eng3 = CopyEngine::new(1024, 4096);
    eng3.start().unwrap();
    assert!(matches!(eng3.step(ReaderEvent::Ready), Step::Advance));
    assert!(matches!(eng3.step(ReaderEvent::Error), Step::Abort));
    assert_eq!(eng3.state(), EngineState::Failed);
}

#[test]
fn verification_mismatch_fails_the_state_machine() {
    let mut eng = CopyEngine::new(0, 4096);
    eng.start().unwrap();
    assert!(matches!(eng.step(ReaderEvent::Ready), Step::Advance));
    assert!(matches!(eng.step(ReaderEvent::Done), Step::Finish));
    eng.drained();
    assert_eq!(eng.verified(false).unwrap_err(), FlashError::VerificationMismatch);
    assert_eq!(eng.state(), EngineState::Failed);
}

#[test]
fn start_rejects_bad_preconditions() {
    let mut eng = CopyEngine::new(513, 1 << 20);
    assert_eq!(eng.start().unwrap_err(), FlashError::NotSectorAligned);
    assert_eq!(eng.state(), EngineState::Failed);
    let mut eng2 = CopyEngine::new(2048, 1024);
    assert_eq!(eng2.start().unwrap_err(), FlashError::ImageTooLarge);
    assert_eq!(eng2.state(), EngineState::Failed);
}

#[test]
fn empty_digest_matches_the_known_vector() {
    // SHA-256 of the empty string, pinned independently of the hasher.
    let expected = hex::decode("e3b0c44298fc1c149afbf4c8996fb92427ae41e4649b934ca495991b7852b855")
        .unwrap();
    let mut arr = [0u8; 32];
    arr.copy_from_slice(&expected);
    let target = MemDevice::new(0);
    assert!(verify_device(&target, 0, &arr).is_ok());
}

#[test]
fn known_digest_of_abc() {
    let expected = hex::decode("ba7816bf8f01cfea414140de5dae2223b00361a396177a9cb410ff61f20015ad")
        .unwrap();
    let mut arr = [0u8; 32];
    arr.copy_from_slice(&expected);
    let mut target = MemDevice::new(3);
    target.write_at(0, b"abc");
    assert!(verify_device(&target, 3, &arr).is_ok());
    // A digest off by one byte must be refused.
    arr[0] ^= 1;
    assert_eq!(verify_device(&target, 3, &arr).unwrap_err(), FlashError::VerificationMismatch);
}
