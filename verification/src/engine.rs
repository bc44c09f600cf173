//! The streaming copy engine: its state machine, the write accounting, and
//! the read-back verification pass.
//!
//! The engine is the decision core of the pipeline. The read task and the
//! write task of a real run live with the unverified caller, which performs
//! the I/O and feeds the engine one event at a time; every transition and
//! every byte of accounting is verified here. `MemDevice` is the engine's
//! model of a block device, byte-addressed and of fixed capacity, on which
//! the whole pipeline runs end to end in verified code.

use vstd::prelude::*;
use vstd::slice::slice_subrange;
use crate::{FlashError, spec_copy_admissible, validate_copy, BUF_SIZE, SECTOR_SIZE, BUFFERS};
use crate::buffer::{AlignedBuffer, BufferPool};
use crate::checksum::{sha256, sha256_of, digest_eq};
use crate::codec::{Codec, spec_decoded, spec_has_signature, scan_bytes, accept_scan};
use vstd::arithmetic::div_mod::lemma_div_multiples_vanish_fancy;

verus! {

/// The states of one copy operation.
#[derive(Clone, Copy, Debug, PartialEq, Eq, Structural)]
pub enum EngineState {
    /// Created; preconditions not yet checked.
    Init,
    /// Waiting for the read task's first signal.
    AwaitReady,
    /// Blocks are flowing from the read task to the device.
    Streaming,
    /// The stream is complete; the read task is draining the pool.
    Draining,
    /// The device is being re-read and digested.
    Verifying,
    /// The copy finished and the read-back digest matched.
    Done,
    /// The copy stopped; the first error observed is authoritative.
    Failed,
}

/// What the read task can signal: ready to stream, a filled buffer, the end
/// of the stream, or its failure.
pub enum ReaderEvent {
    Ready,
    Done,
    Error,
    Block(AlignedBuffer),
}

/// What the orchestrator must do after handing the engine one event.
pub enum Step {
    /// Keep waiting for events.
    Advance,
    /// Write this buffer's valid bytes, then return it to the pool.
    Write(AlignedBuffer),
    /// The stream is complete; drain and move to verification.
    Finish,
    /// The copy failed; join the read task for the underlying cause.
    Abort,
}

/// The copy engine: the state machine of one flash operation.
pub struct CopyEngine {
    state: EngineState,
    len: usize,
    capacity: usize,
    written: usize,
    write_ops: usize,
}

impl CopyEngine {
    /// Progress never exceeds the announced length, and a finished copy
    /// wrote all of it.
    pub closed spec fn wf(self) -> bool {
        &&& self.written <= self.len
        &&& self.write_ops <= self.written
        &&& (self.state == EngineState::Done ==> self.written == self.len)
    }

    /// The engine's current state.
    pub closed spec fn spec_state(self) -> EngineState {
        self.state
    }

    /// The total number of bytes this copy must transfer.
    pub closed spec fn spec_len(self) -> usize {
        self.len
    }

    /// The capacity of the target device.
    pub closed spec fn spec_capacity(self) -> usize {
        self.capacity
    }

    /// How many bytes have been handed to the device so far.
    pub closed spec fn spec_written(self) -> usize {
        self.written
    }

    /// How many write operations were issued so far.
    pub closed spec fn spec_write_ops(self) -> usize {
        self.write_ops
    }

    /// A fresh engine for one copy of `len` bytes onto a device of the
    /// given capacity.
    pub fn new(len: usize, capacity: usize) -> (e: CopyEngine)
        ensures
            e.wf(),
            e.spec_state() == EngineState::Init,
            e.spec_len() == len,
            e.spec_capacity() == capacity,
            e.spec_written() == 0,
            e.spec_write_ops() == 0,
    {
        CopyEngine { state: EngineState::Init, len, capacity, written: 0, write_ops: 0 }
    }

    /// Checks the preconditions before any I/O: a violation moves straight
    /// to `Failed` with the matching format error, otherwise the engine
    /// waits for the read task.
    pub fn start(&mut self) -> (r: Result<(), FlashError>)
        requires
            old(self).wf(),
            old(self).spec_state() == EngineState::Init,
        ensures
            final(self).wf(),
            final(self).spec_len() == old(self).spec_len(),
            final(self).spec_capacity() == old(self).spec_capacity(),
            final(self).spec_written() == old(self).spec_written(),
            final(self).spec_write_ops() == old(self).spec_write_ops(),
            r is Ok <==> spec_copy_admissible(
                old(self).spec_len() as nat,
                old(self).spec_capacity() as nat,
            ),
            r is Ok ==> final(self).spec_state() == EngineState::AwaitReady,
            r is Err ==> final(self).spec_state() == EngineState::Failed,
            r is Err ==> (r->Err_0 == FlashError::NotSectorAligned <==> old(self).spec_len()
                % SECTOR_SIZE != 0),
            r is Err ==> (r->Err_0 == FlashError::ImageTooLarge <==> (old(self).spec_len()
                % SECTOR_SIZE == 0 && old(self).spec_len() > old(self).spec_capacity())),
    {
        match validate_copy(self.len, self.capacity) {
            Ok(()) => {
                self.state = EngineState::AwaitReady;
                Ok(())
            },
            Err(e) => {
                self.state = EngineState::Failed;
                Err(e)
            },
        }
    }

    /// Feeds one event from the read task into the state machine and says
    /// what the orchestrator must do next. While waiting, only `Ready` may
    /// arrive; while streaming, a duplicate `Ready` is ignored, a block
    /// within bounds is written, `Done` at exactly the full length finishes,
    /// and everything else fails the copy.
    pub fn step(&mut self, ev: ReaderEvent) -> (s: Step)
        requires
            old(self).wf(),
            old(self).spec_state() == EngineState::AwaitReady || old(self).spec_state()
                == EngineState::Streaming,
        ensures
            final(self).wf(),
            final(self).spec_len() == old(self).spec_len(),
            final(self).spec_capacity() == old(self).spec_capacity(),
            old(self).spec_state() == EngineState::AwaitReady ==> match ev {
                ReaderEvent::Ready => {
                    &&& final(self).spec_state() == EngineState::Streaming
                    &&& final(self).spec_written() == old(self).spec_written()
                    &&& final(self).spec_write_ops() == old(self).spec_write_ops()
                    &&& s is Advance
                },
                _ => final(self).spec_state() == EngineState::Failed && s is Abort,
            },
            old(self).spec_state() == EngineState::Streaming ==> match ev {
                ReaderEvent::Ready => {
                    &&& final(self).spec_state() == EngineState::Streaming
                    &&& final(self).spec_written() == old(self).spec_written()
                    &&& final(self).spec_write_ops() == old(self).spec_write_ops()
                    &&& s is Advance
                },
                ReaderEvent::Done => {
                    if old(self).spec_written() == old(self).spec_len() {
                        &&& final(self).spec_state() == EngineState::Draining
                        &&& final(self).spec_written() == old(self).spec_written()
                        &&& final(self).spec_write_ops() == old(self).spec_write_ops()
                        &&& s is Finish
                    } else {
                        final(self).spec_state() == EngineState::Failed && s is Abort
                    }
                },
                ReaderEvent::Error => final(self).spec_state() == EngineState::Failed
                    && s is Abort,
                ReaderEvent::Block(b) => {
                    if 0 < b.spec_used() <= old(self).spec_len() - old(self).spec_written() {
                        &&& final(self).spec_state() == EngineState::Streaming
                        &&& final(self).spec_written() == old(self).spec_written()
                            + b.spec_used()
                        &&& final(self).spec_write_ops() == old(self).spec_write_ops() + 1
                        &&& (s matches Step::Write(b2) && b2 == b)
                    } else {
                        final(self).spec_state() == EngineState::Failed && s is Abort
                    }
                },
            },
    {
        match self.state {
            EngineState::AwaitReady => match ev {
                ReaderEvent::Ready => {
                    self.state = EngineState::Streaming;
                    Step::Advance
                },
                _ => {
                    self.state = EngineState::Failed;
                    Step::Abort
                },
            },
            _ => match ev {
                ReaderEvent::Ready => Step::Advance,
                ReaderEvent::Done => {
                    if self.written == self.len {
                        self.state = EngineState::Draining;
                        Step::Finish
                    } else {
                        self.state = EngineState::Failed;
                        Step::Abort
                    }
                },
                ReaderEvent::Error => {
                    self.state = EngineState::Failed;
                    Step::Abort
                },
                ReaderEvent::Block(b) => {
                    if 0 < b.used_len() && b.used_len() <= self.len - self.written {
                        self.written = self.written + b.used_len();
                        self.write_ops = self.write_ops + 1;
                        Step::Write(b)
                    } else {
                        self.state = EngineState::Failed;
                        Step::Abort
                    }
                },
            },
        }
    }

    /// The read task has drained the pool; move on to verification.
    pub fn drained(&mut self)
        requires
            old(self).wf(),
            old(self).spec_state() == EngineState::Draining,
        ensures
            final(self).wf(),
            final(self).spec_state() == EngineState::Verifying,
            final(self).spec_len() == old(self).spec_len(),
            final(self).spec_capacity() == old(self).spec_capacity(),
            final(self).spec_written() == old(self).spec_written(),
            final(self).spec_write_ops() == old(self).spec_write_ops(),
    {
        self.state = EngineState::Verifying;
    }

    /// Records the outcome of the verification pass: a matching digest
    /// completes the copy, a mismatch fails it — the device is left as
    /// written either way.
    pub fn verified(&mut self, matched: bool) -> (r: Result<(), FlashError>)
        requires
            old(self).wf(),
            old(self).spec_state() == EngineState::Verifying,
            old(self).spec_written() == old(self).spec_len(),
        ensures
            final(self).wf(),
            final(self).spec_len() == old(self).spec_len(),
            final(self).spec_capacity() == old(self).spec_capacity(),
            final(self).spec_written() == old(self).spec_written(),
            final(self).spec_write_ops() == old(self).spec_write_ops(),
            matched ==> final(self).spec_state() == EngineState::Done && r is Ok,
            !matched ==> final(self).spec_state() == EngineState::Failed && r == Err::<
                (),
                FlashError,
            >(FlashError::VerificationMismatch),
    {
        if matched {
            self.state = EngineState::Done;
            Ok(())
        } else {
            self.state = EngineState::Failed;
            Err(FlashError::VerificationMismatch)
        }
    }

    /// The current state, for reporting.
    pub fn state(&self) -> (s: EngineState)
        ensures
            s == self.spec_state(),
    {
        self.state
    }
}

/// The engine's model of the target: a byte-addressed device of fixed
/// capacity that counts its write operations.
pub struct MemDevice {
    data: Vec<u8>,
    writes: usize,
}

impl View for MemDevice {
    type V = Seq<u8>;

    /// The device's content.
    closed spec fn view(&self) -> Seq<u8> {
        self.data@
    }
}

impl MemDevice {
    /// How many write operations reached this device.
    pub closed spec fn spec_writes(self) -> usize {
        self.writes
    }

    /// A zeroed device of the given capacity.
    pub fn new(capacity: usize) -> (d: MemDevice)
        ensures
            d@.len() == capacity,
            d.spec_writes() == 0,
    {
        MemDevice { data: vec![0u8; capacity], writes: 0 }
    }

    /// The device's capacity in bytes.
    pub fn capacity(&self) -> (n: usize)
        ensures
            n == self@.len(),
    {
        self.data.len()
    }

    /// How many write operations reached this device so far.
    pub fn write_count(&self) -> (n: usize)
        ensures
            n == self.spec_writes(),
    {
        self.writes
    }

    /// One write operation: the block lands at the given offset, the rest
    /// of the device is untouched.
    pub fn write_at(&mut self, offset: usize, block: &[u8])
        requires
            offset + block@.len() <= old(self)@.len(),
            old(self).spec_writes() < usize::MAX,
        ensures
            final(self)@.len() == old(self)@.len(),
            final(self)@ == old(self)@.take(offset as int) + block@ + old(self)@.skip(
                offset as int + block@.len() as int,
            ),
            final(self).spec_writes() == old(self).spec_writes() + 1,
    {
        let n = block.len();
        let total = self.data.len();
        let mut i: usize = 0;
        while i < n
            invariant
                i <= n,
                n == block@.len(),
                total == self.data@.len(),
                offset + n <= total,
                self.data@.len() == old(self).data@.len(),
                self.writes == old(self).writes,
                forall|k: int|
                    offset <= k < offset + i ==> #[trigger] self.data@[k] == block@[k - offset],
                forall|k: int|
                    offset + i <= k < self.data@.len() ==> #[trigger] self.data@[k]
                        == old(self).data@[k],
                forall|k: int| 0 <= k < offset ==> #[trigger] self.data@[k] == old(self).data@[k],
            decreases n - i,
        {
            let idx = offset + i;
            let byte = *vstd::slice::slice_index_get(block, i);
            self.data[idx] = byte;
            i += 1;
        }
        self.writes = self.writes + 1;
        proof {
            assert(final(self)@ =~= old(self)@.take(offset as int) + block@ + old(self)@.skip(
                offset as int + block@.len() as int,
            ));
        }
    }

    /// Reads a range of the device back, as the verification pass does.
    pub fn read_range(&self, offset: usize, n: usize) -> (v: Vec<u8>)
        requires
            offset + n <= self@.len(),
        ensures
            v@ == self@.subrange(offset as int, offset as int + n as int),
    {
        let total = self.data.len();
        let mut v: Vec<u8> = Vec::new();
        let mut i: usize = 0;
        while i < n
            invariant
                i <= n,
                total == self.data@.len(),
                offset + n <= total,
                v@.len() == i,
                forall|j: int| 0 <= j < i ==> v@[j] == self.data@[offset + j],
            decreases n - i,
        {
            v.push(*vstd::slice::slice_index_get(self.data.as_slice(), offset + i));
            i += 1;
        }
        proof {
            assert(v@ =~= self@.subrange(offset as int, offset as int + n as int));
        }
        v
    }
}

/// What one finished copy reports: how many writes it issued, how many
/// bytes reached the device, and the engine's final state.
#[derive(Debug)]
pub struct CopyReport {
    pub write_ops: usize,
    pub bytes_written: usize,
    pub state: EngineState,
}

/// Re-reads the first `len` bytes of the device, digests them, and compares
/// against the pre-scan digest; a mismatch fails without touching the
/// device.
pub fn verify_device(target: &MemDevice, len: usize, expected: &[u8; 32]) -> (r: Result<
    (),
    FlashError,
>)
    requires
        len <= target@.len(),
    ensures
        r is Ok <==> sha256_of(target@.take(len as int)) == expected@,
        r is Err ==> r->Err_0 == FlashError::VerificationMismatch,
{
    let readback = target.read_range(0, len);
    proof {
        assert(readback@ == target@.take(len as int));
    }
    let digest = sha256(readback.as_slice());
    if digest_eq(&digest, expected) {
        Ok(())
    } else {
        Err(FlashError::VerificationMismatch)
    }
}

/// Runs one whole copy through the state machine on the in-memory device:
/// precondition checks, the block loop through the aligned-buffer pool, and
/// the read-back verification against the expected digest. On admissible
/// input the copy succeeds outright: the device then begins with exactly
/// the source bytes, and verification is guaranteed to pass.
pub fn copy(
    source: &Vec<u8>,
    expected: &[u8; 32],
    target: &mut MemDevice,
    pool: &mut BufferPool,
) -> (r: Result<CopyReport, FlashError>)
    requires
        expected@ == sha256_of(source@),
        old(pool).wf(),
        old(pool).in_flight() == 0,
        old(pool).capacity() > 0,
        old(target).spec_writes() + source@.len() <= usize::MAX,
    ensures
        final(pool).wf(),
        final(pool).in_flight() == 0,
        final(pool).capacity() == old(pool).capacity(),
        r is Ok <==> spec_copy_admissible(source@.len() as nat, old(target)@.len() as nat),
        r is Err ==> *final(target) == *old(target),
        r is Err ==> (r->Err_0 == FlashError::NotSectorAligned <==> source@.len() % (
        SECTOR_SIZE as nat) != 0),
        r is Err ==> (r->Err_0 == FlashError::ImageTooLarge <==> (source@.len() % (
        SECTOR_SIZE as nat) == 0 && source@.len() > old(target)@.len())),
        r matches Ok(rep) ==> {
            &&& final(target)@ == source@ + old(target)@.skip(source@.len() as int)
            &&& final(target).spec_writes() == old(target).spec_writes() + rep.write_ops
            &&& rep.write_ops as int == (source@.len() + BUF_SIZE - 1) / (BUF_SIZE as int)
            &&& rep.bytes_written == source@.len()
            &&& rep.state == EngineState::Done
        },
{
    let len = source.len();
    let mut eng = CopyEngine::new(len, target.capacity());
    match eng.start() {
        Err(e) => {
            return Err(e);
        },
        Ok(()) => {},
    }
    match eng.step(ReaderEvent::Ready) {
        Step::Advance => {},
        _ => {
            proof {
                assert(false);
            }
        },
    }
    let mut written: usize = 0;
    let mut ops: usize = 0;
    while written < len
        invariant
            len == source@.len(),
            written <= len,
            eng.wf(),
            eng.spec_state() == EngineState::Streaming,
            eng.spec_len() == len,
            eng.spec_written() == written,
            pool.wf(),
            pool.in_flight() == 0,
            pool.capacity() == old(pool).capacity(),
            pool.capacity() > 0,
            len <= target@.len(),
            target@.len() == old(target)@.len(),
            target.spec_writes() == old(target).spec_writes() + ops,
            old(target).spec_writes() + len <= usize::MAX,
            forall|k: int| 0 <= k < written ==> #[trigger] target@[k] == source@[k],
            forall|k: int|
                written <= k < target@.len() ==> #[trigger] target@[k] == old(target)@[k],
            written < len ==> written == ops * BUF_SIZE,
            ops * BUF_SIZE >= written,
            ops > 0 ==> (ops - 1) * BUF_SIZE < written,
            ops <= written,
        decreases len - written,
    {
        let remaining = len - written;
        let block_size = if remaining < BUF_SIZE {
            remaining
        } else {
            BUF_SIZE
        };
        let mut buf = pool.checkout().unwrap();
        let block = slice_subrange(source.as_slice(), written, written + block_size);
        buf.fill(block);
        proof {
            buf.lemma_window_len();
        }
        match eng.step(ReaderEvent::Block(buf)) {
            Step::Write(b) => {
                proof {
                    b.lemma_window_len();
                }
                let used = b.used_len();
                let w = b.get_aligned_buf();
                let valid = slice_subrange(w, 0, used);
                proof {
                    assert(valid@ =~= b.valid_bytes());
                }
                target.write_at(written, valid);
                pool.checkin(b);
            },
            _ => {
                proof {
                    assert(false);
                }
            },
        }
        proof {
            assert((ops + 1) * BUF_SIZE == ops * BUF_SIZE + BUF_SIZE) by (nonlinear_arith);
        }
        written = written + block_size;
        ops = ops + 1;
    }
    match eng.step(ReaderEvent::Done) {
        Step::Finish => {},
        _ => {
            proof {
                assert(false);
            }
        },
    }
    eng.drained();
    proof {
        assert(target@.take(len as int) =~= source@);
    }
    let ver = verify_device(target, len, expected);
    let matched = ver.is_ok();
    assert(matched);
    match eng.verified(matched) {
        Ok(()) => {},
        Err(_) => {
            proof {
                assert(false);
            }
        },
    }
    proof {
        assert(final(target)@ =~= source@ + old(target)@.skip(source@.len() as int));
        lemma_write_ops_total(len as int, ops as int);
    }
    Ok(CopyReport { write_ops: ops, bytes_written: written, state: eng.state() })
}

/// At the end of the block loop the number of issued writes is exactly the
/// number of nominal units the length occupies, the last one possibly
/// short.
proof fn lemma_write_ops_total(len: int, ops: int)
    requires
        len >= 0,
        ops >= 0,
        ops * (BUF_SIZE as int) >= len,
        ops > 0 ==> (ops - 1) * (BUF_SIZE as int) < len,
    ensures
        ops == (len + BUF_SIZE - 1) / (BUF_SIZE as int),
{
    let b = BUF_SIZE as int;
    if ops == 0 {
        assert(ops * b == 0) by (nonlinear_arith)
            requires
                ops == 0,
        ;
        assert(len == 0);
        lemma_div_multiples_vanish_fancy(0, b - 1, b);
        assert(b * 0 == 0) by (nonlinear_arith);
        assert((b * 0 + (b - 1)) / b == 0);
        assert(len + b - 1 == b * 0 + (b - 1));
    } else {
        let d = len - (ops - 1) * b;
        assert(ops * b == (ops - 1) * b + b) by (nonlinear_arith);
        assert(b * ops == ops * b) by (nonlinear_arith);
        assert(0 < d);
        assert(d <= b);
        assert(len + b - 1 == b * ops + (d - 1));
        lemma_div_multiples_vanish_fancy(ops, d - 1, b);
        assert((b * ops + (d - 1)) / b == ops);
    }
}

/// The whole flashing flow on the in-memory device: decodes the stream,
/// pre-scans it for length, digest and boot-sector signature, applies the
/// caller's decision on an unsigned image, checks the copy preconditions,
/// and runs the verified copy with its read-back pass. Each rejection
/// happens before any byte reaches the device.
pub fn run_flash(
    codec: &Codec,
    data: &Vec<u8>,
    continue_unsigned: bool,
    target: &mut MemDevice,
) -> (r: Result<CopyReport, FlashError>)
    requires
        old(target).spec_writes() + old(target)@.len() <= usize::MAX,
    ensures
        spec_decoded(*codec, data@) is None ==> r == Err::<CopyReport, FlashError>(
            FlashError::CorruptStream,
        ),
        (match spec_decoded(*codec, data@) {
            Some(p) => {
                &&& (p.len() < 512 ==> r == Err::<CopyReport, FlashError>(FlashError::ShortImage))
                &&& (p.len() >= 512 && !spec_has_signature(p) && !continue_unsigned ==> r == Err::<
                    CopyReport,
                    FlashError,
                >(FlashError::BadImageFormat))
                &&& (p.len() >= 512 && (spec_has_signature(p) || continue_unsigned) ==> {
                    &&& (r is Ok <==> spec_copy_admissible(p.len(), old(target)@.len() as nat))
                    &&& (r is Err ==> (r->Err_0 == FlashError::NotSectorAligned <==> p.len() % (
                    SECTOR_SIZE as nat) != 0))
                    &&& (r is Err ==> (r->Err_0 == FlashError::ImageTooLarge <==> (p.len() % (
                    SECTOR_SIZE as nat) == 0 && p.len() > old(target)@.len())))
                    &&& (r matches Ok(rep) ==> {
                        &&& final(target)@ == p + old(target)@.skip(p.len() as int)
                        &&& final(target).spec_writes() == old(target).spec_writes()
                            + rep.write_ops
                        &&& rep.write_ops as int == (p.len() + BUF_SIZE - 1) / (BUF_SIZE as int)
                        &&& rep.bytes_written == p.len()
                        &&& rep.state == EngineState::Done
                    })
                })
            },
            None => true,
        }),
        r is Err ==> *final(target) == *old(target),
{
    let plain = match codec.open_bytes(data) {
        Ok(v) => v,
        Err(e) => {
            return Err(e);
        },
    };
    let rep = match scan_bytes(&plain) {
        Ok(rep) => rep,
        Err(e) => {
            return Err(e);
        },
    };
    let scanned = match accept_scan(&rep, continue_unsigned) {
        Ok(p) => p,
        Err(e) => {
            return Err(e);
        },
    };
    match validate_copy(plain.len(), target.capacity()) {
        Err(e) => {
            return Err(e);
        },
        Ok(()) => {},
    }
    let mut pool = BufferPool::new(BUFFERS);
    let digest = scanned.1;
    copy(&plain, &digest, target, &mut pool)
}

} // verus!
