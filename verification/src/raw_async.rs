//! Asynchronous operations on a raw file.
//!
//! Operations are put on a submission queue, and then handed to the kernel. The
//! buffers of vectored operations belong to the caller, who may take them back as
//! soon as the call returns, so the call waits until the kernel has read them.

use crate::host::{errnos, fallocate_flags, linux_errnos, Errnos};
use io_uring::{opcode, squeue, types};
use vstd::prelude::*;

verus! {

/// The size of a sector.
pub const SECTOR_SIZE: u64 = 512;

/// What a request is for.
#[derive(Clone, Copy, Debug, PartialEq, Eq, Structural)]
pub enum RequestType {
    /// Read.
    In,
    /// Write.
    Out,
    /// Anything else.
    Other,
}

/// A request of a batch.
#[derive(Clone, Copy, Debug, PartialEq, Eq, Structural)]
pub struct BatchRequest {
    pub offset: i64,
    /// The number of buffers.
    pub iovecs: usize,
    pub user_data: u64,
    pub request_type: RequestType,
}

/// A vectored operation on the submission queue.
#[derive(Clone, Copy, Debug, PartialEq, Eq, Structural)]
pub struct VectoredEntry {
    pub fd: i32,
    pub write: bool,
    /// The number of buffers.
    pub iovecs: u32,
    pub offset: u64,
    pub user_data: u64,
}

/// An operation on the space that the file takes up.
#[derive(Clone, Copy, Debug, PartialEq, Eq, Structural)]
pub struct FallocateEntry {
    pub fd: i32,
    pub mode: i32,
    pub offset: u64,
    pub length: u64,
    pub user_data: u64,
}

/// An operation that brings the file to the disk.
#[derive(Clone, Copy, Debug, PartialEq, Eq, Structural)]
pub struct FsyncEntry {
    pub fd: i32,
    pub user_data: u64,
}

/// How the file is brought to the disk.
#[derive(Clone, Copy, Debug, PartialEq, Eq, Structural)]
pub enum FsyncPlan {
    /// By an operation on the submission queue.
    Queued(FsyncEntry),
    /// At once.
    Direct { fd: i32 },
}

/// An entry of the submission queue as the `io_uring` crate has it.
#[verifier::external_type_specification]
#[verifier::external_body]
pub struct ExEntry(squeue::Entry);

/// The entry that `io_uring::opcode::Fallocate` builds from these values.
pub uninterp spec fn fallocate_sqe(fd: i32, length: u64, offset: u64, mode: i32, user_data: u64) -> squeue::Entry;

/// The entry that `io_uring::opcode::Fsync` builds from these values.
pub uninterp spec fn fsync_sqe(fd: i32, user_data: u64) -> squeue::Entry;

/// Builds an entry with `io_uring::opcode::Fallocate`, for a plain descriptor and with
/// the given length, offset, mode and user data. The entry depends on nothing else.
#[verifier::external_body]
fn build_fallocate(fd: i32, length: u64, offset: u64, mode: i32, user_data: u64) -> (entry: squeue::Entry)
    ensures
        entry == fallocate_sqe(fd, length, offset, mode, user_data),
{
    opcode::Fallocate::new(types::Fd(fd), length).offset(offset).mode(mode).build().user_data(user_data)
}

/// Builds an entry with `io_uring::opcode::Fsync`, for a plain descriptor and with the
/// given user data. The entry depends on nothing else.
#[verifier::external_body]
fn build_fsync(fd: i32, user_data: u64) -> (entry: squeue::Entry)
    ensures
        entry == fsync_sqe(fd, user_data),
{
    opcode::Fsync::new(types::Fd(fd)).build().user_data(user_data)
}

impl FallocateEntry {
    /// The entry for the submission queue.
    pub fn build(&self) -> (entry: squeue::Entry)
        ensures
            entry == fallocate_sqe(self.fd, self.length, self.offset, self.mode, self.user_data),
    {
        build_fallocate(self.fd, self.length, self.offset, self.mode, self.user_data)
    }
}

impl FsyncEntry {
    /// The entry for the submission queue.
    pub fn build(&self) -> (entry: squeue::Entry)
        ensures
            entry == fsync_sqe(self.fd, self.user_data),
    {
        build_fsync(self.fd, self.user_data)
    }
}

/// Why an operation did not start.
#[derive(Clone, Copy, Debug, PartialEq, Eq, Structural)]
pub enum Cause {
    /// The submission queue is full.
    QueueFull,
    /// The kernel refused the submission, with this error number.
    Submit(i32),
}

/// Which operation did not start.
#[derive(Clone, Copy, Debug, PartialEq, Eq, Structural)]
pub enum AsyncIoError {
    ReadVectored(Cause),
    WriteVectored(Cause),
    Fsync(Cause),
    PunchHole(Cause),
    WriteZeroes(Cause),
}

/// The operations that are submitted without waiting for the kernel to take them.
#[derive(Clone, Copy, Debug, PartialEq, Eq, Structural)]
pub enum QueuedOperation {
    Fsync,
    PunchHole,
    WriteZeroes,
}

impl QueuedOperation {
    /// What is answered once the operation was submitted, or the kernel refused it.
    pub fn submitted(self, result: Result<usize, i32>) -> (answer: Result<(), AsyncIoError>)
        ensures
            answer == (match result {
                Ok(_) => Ok::<(), AsyncIoError>(()),
                Err(errno) => Err(
                    match self {
                        QueuedOperation::Fsync => AsyncIoError::Fsync(Cause::Submit(errno)),
                        QueuedOperation::PunchHole => AsyncIoError::PunchHole(Cause::Submit(errno)),
                        QueuedOperation::WriteZeroes => AsyncIoError::WriteZeroes(Cause::Submit(errno)),
                    },
                ),
            }),
    {
        match result {
            Ok(_) => Ok(()),
            Err(errno) => Err(
                match self {
                    QueuedOperation::Fsync => AsyncIoError::Fsync(Cause::Submit(errno)),
                    QueuedOperation::PunchHole => AsyncIoError::PunchHole(Cause::Submit(errno)),
                    QueuedOperation::WriteZeroes => AsyncIoError::WriteZeroes(Cause::Submit(errno)),
                },
            ),
        }
    }
}

/// How full the submission queue is.
#[derive(Clone, Copy, Debug, PartialEq, Eq, Structural)]
pub struct QueueState {
    pub capacity: usize,
    pub len: usize,
}

impl QueueState {
    /// The queue does not hold more than it can.
    pub open spec fn wf(self) -> bool {
        self.len <= self.capacity
    }

    /// How many operations the queue can still take.
    pub open spec fn room(self) -> int {
        self.capacity - self.len
    }

    /// Whether the queue can take no more.
    fn is_full(self) -> (full: bool)
        requires
            self.wf(),
        ensures
            full == (self.room() == 0),
    {
        self.len == self.capacity
    }
}

/// A raw file.
#[derive(Clone, Copy, Debug, PartialEq, Eq, Structural)]
pub struct RawFileAsync {
    pub fd: i32,
    pub alignment: u64,
}

/// A request to read or to write.
pub open spec fn is_transfer(request: BatchRequest) -> bool {
    request.request_type == RequestType::In || request.request_type == RequestType::Out
}

/// What is answered to a batch that does not fit: it is named after its first
/// request.
pub open spec fn batch_refusal(first: BatchRequest) -> AsyncIoError {
    if first.request_type == RequestType::In {
        AsyncIoError::ReadVectored(Cause::QueueFull)
    } else {
        AsyncIoError::WriteVectored(Cause::QueueFull)
    }
}

impl RawFileAsync {
    /// Operations on a file.
    pub fn new(fd: i32) -> (file: RawFileAsync)
        ensures
            file == (RawFileAsync { fd, alignment: SECTOR_SIZE }),
    {
        RawFileAsync { fd, alignment: SECTOR_SIZE }
    }

    /// What offsets and lengths have to be multiples of.
    pub fn alignment(&self) -> (alignment: u64)
        ensures
            alignment == self.alignment,
    {
        self.alignment
    }

    /// Requests can come in batches.
    pub fn batch_requests_enabled(&self) -> (enabled: bool)
        ensures
            enabled,
    {
        true
    }

    /// The operation that a request stands for.
    pub open spec fn entry_of(self, request: BatchRequest) -> VectoredEntry {
        VectoredEntry {
            fd: self.fd,
            write: request.request_type == RequestType::Out,
            iovecs: request.iovecs as u32,
            offset: request.offset as u64,
            user_data: request.user_data,
        }
    }

    fn vectored_entry(&self, write: bool, offset: u64, iovecs: usize, user_data: u64) -> (entry: VectoredEntry)
        ensures
            entry == (VectoredEntry { fd: self.fd, write, iovecs: iovecs as u32, offset, user_data }),
    {
        VectoredEntry { fd: self.fd, write, iovecs: #[verifier::truncate] (iovecs as u32), offset, user_data }
    }

    /// Reads into a number of buffers.
    pub fn read_vectored(&self, queue: QueueState, offset: i64, iovecs: usize, user_data: u64) -> (entry: Result<
        VectoredEntry,
        AsyncIoError,
    >)
        requires
            queue.wf(),
            offset >= 0,
        ensures
            entry == (if queue.room() == 0 {
                Err::<VectoredEntry, AsyncIoError>(AsyncIoError::ReadVectored(Cause::QueueFull))
            } else {
                Ok(
                    VectoredEntry {
                        fd: self.fd,
                        write: false,
                        iovecs: iovecs as u32,
                        offset: offset as u64,
                        user_data,
                    },
                )
            }),
            entry matches Ok(e) ==> e == self.entry_of(
                BatchRequest { offset, iovecs, user_data, request_type: RequestType::In },
            ),
            entry matches Ok(e) ==> e.offset == offset,
    {
        if queue.is_full() {
            return Err(AsyncIoError::ReadVectored(Cause::QueueFull));
        }
        Ok(self.vectored_entry(false, offset as u64, iovecs, user_data))
    }

    /// Writes from a number of buffers.
    pub fn write_vectored(&self, queue: QueueState, offset: i64, iovecs: usize, user_data: u64) -> (entry: Result<
        VectoredEntry,
        AsyncIoError,
    >)
        requires
            queue.wf(),
            offset >= 0,
        ensures
            entry == (if queue.room() == 0 {
                Err::<VectoredEntry, AsyncIoError>(AsyncIoError::WriteVectored(Cause::QueueFull))
            } else {
                Ok(
                    VectoredEntry {
                        fd: self.fd,
                        write: true,
                        iovecs: iovecs as u32,
                        offset: offset as u64,
                        user_data,
                    },
                )
            }),
            entry matches Ok(e) ==> e == self.entry_of(
                BatchRequest { offset, iovecs, user_data, request_type: RequestType::Out },
            ),
            entry matches Ok(e) ==> e.offset == offset,
    {
        if queue.is_full() {
            return Err(AsyncIoError::WriteVectored(Cause::QueueFull));
        }
        Ok(self.vectored_entry(true, offset as u64, iovecs, user_data))
    }

    /// Reads and writes for several requests at once. Either all of them fit on the
    /// queue, or none is put there.
    pub fn submit_batch_requests(&self, queue: QueueState, batch: &[BatchRequest]) -> (entries: Result<
        Vec<VectoredEntry>,
        AsyncIoError,
    >)
        requires
            queue.wf(),
            batch@.len() > 0 ==> is_transfer(batch@[0]),
            batch@.len() <= queue.room() ==> forall|i: int| 0 <= i < batch@.len() ==> is_transfer(#[trigger] batch@[i]),
        ensures
            entries is Ok <==> batch@.len() <= queue.room(),
            entries matches Ok(e) ==> e@ == batch@.map_values(|r: BatchRequest| self.entry_of(r)),
            entries matches Err(e) ==> e == batch_refusal(batch@[0]),
    {
        let mut entries: Vec<VectoredEntry> = Vec::new();
        if batch.len() == 0 {
            assert(entries@ =~= batch@.map_values(|r: BatchRequest| self.entry_of(r)));
            return Ok(entries);
        }
        if queue.capacity - queue.len < batch.len() {
            return Err(
                match batch[0].request_type {
                    RequestType::In => AsyncIoError::ReadVectored(Cause::QueueFull),
                    _ => AsyncIoError::WriteVectored(Cause::QueueFull),
                },
            );
        }
        let mut index: usize = 0;
        while index < batch.len()
            invariant
                index <= batch@.len(),
                forall|i: int| 0 <= i < batch@.len() ==> is_transfer(#[trigger] batch@[i]),
                entries@ == batch@.take(index as int).map_values(|r: BatchRequest| self.entry_of(r)),
            decreases batch@.len() - index,
        {
            let request = batch[index];
            let write = match request.request_type {
                RequestType::In => false,
                _ => true,
            };
            let offset: u64 = #[verifier::truncate] (request.offset as u64);
            let entry = self.vectored_entry(write, offset, request.iovecs, request.user_data);
            assert(is_transfer(batch@[index as int]));
            assert(entry == self.entry_of(batch@[index as int]));
            entries.push(entry);
            index = index + 1;
            assert(entries@ =~= batch@.take(index as int).map_values(|r: BatchRequest| self.entry_of(r)));
        }
        assert(batch@.take(batch@.len() as int) =~= batch@);
        Ok(entries)
    }

    /// Brings the file to the disk: by an operation on the queue if its end is to be
    /// told, else at once.
    pub fn fsync(&self, queue: QueueState, user_data: Option<u64>) -> (plan: Result<FsyncPlan, AsyncIoError>)
        requires
            queue.wf(),
        ensures
            plan == (match user_data {
                None => Ok::<FsyncPlan, AsyncIoError>(FsyncPlan::Direct { fd: self.fd }),
                Some(user_data) => if queue.room() == 0 {
                    Err(AsyncIoError::Fsync(Cause::QueueFull))
                } else {
                    Ok(FsyncPlan::Queued(FsyncEntry { fd: self.fd, user_data }))
                },
            }),
    {
        match user_data {
            None => Ok(FsyncPlan::Direct { fd: self.fd }),
            Some(user_data) => {
                if queue.is_full() {
                    return Err(AsyncIoError::Fsync(Cause::QueueFull));
                }
                Ok(FsyncPlan::Queued(FsyncEntry { fd: self.fd, user_data }))
            },
        }
    }

    /// Frees the space of a part of the file, which keeps its length.
    pub fn punch_hole(&self, queue: QueueState, offset: u64, length: u64, user_data: u64) -> (entry: Result<
        FallocateEntry,
        AsyncIoError,
    >)
        requires
            queue.wf(),
        ensures
            entry == (if queue.room() == 0 {
                Err::<FallocateEntry, AsyncIoError>(AsyncIoError::PunchHole(Cause::QueueFull))
            } else {
                Ok(FallocateEntry { fd: self.fd, mode: 3, offset, length, user_data })
            }),
    {
        if queue.is_full() {
            return Err(AsyncIoError::PunchHole(Cause::QueueFull));
        }
        let flags = fallocate_flags();
        assert(2i32 | 1i32 == 3i32) by (bit_vector);
        Ok(FallocateEntry { fd: self.fd, mode: flags.punch_hole | flags.keep_size, offset, length, user_data })
    }

    /// Fills a part of the file, which keeps its length, with zeroes.
    pub fn write_zeroes(&self, queue: QueueState, offset: u64, length: u64, user_data: u64) -> (entry: Result<
        FallocateEntry,
        AsyncIoError,
    >)
        requires
            queue.wf(),
        ensures
            entry == (if queue.room() == 0 {
                Err::<FallocateEntry, AsyncIoError>(AsyncIoError::WriteZeroes(Cause::QueueFull))
            } else {
                Ok(FallocateEntry { fd: self.fd, mode: 0x11, offset, length, user_data })
            }),
    {
        if queue.is_full() {
            return Err(AsyncIoError::WriteZeroes(Cause::QueueFull));
        }
        let flags = fallocate_flags();
        assert(0x10i32 | 1i32 == 0x11i32) by (bit_vector);
        Ok(FallocateEntry { fd: self.fd, mode: flags.zero_range | flags.keep_size, offset, length, user_data })
    }
}

/// A breach of the rules that the kernel reports on submission, after which nobody
/// can tell whether it still reads the buffers.
#[derive(Clone, Copy, Debug, PartialEq, Eq, Structural)]
pub enum SubmitFault {
    BadAddress,
    RingTornDown,
    RingNotOpen,
    RingNotRing,
    DeferTaskrunUsed,
}

/// What to do when a submission fails.
#[derive(Clone, Copy, Debug, PartialEq, Eq, Structural)]
pub enum SubmitFailure {
    Retry,
    Abort(SubmitFault),
}

/// What an error number of a submission calls for, given the numbers of the host.
pub open spec fn submit_failure(e: Errnos, errno: i32) -> SubmitFailure {
    if errno == e.fault {
        SubmitFailure::Abort(SubmitFault::BadAddress)
    } else if errno == e.nxio {
        SubmitFailure::Abort(SubmitFault::RingTornDown)
    } else if errno == e.badf {
        SubmitFailure::Abort(SubmitFault::RingNotOpen)
    } else if errno == e.opnotsupp {
        SubmitFailure::Abort(SubmitFault::RingNotRing)
    } else if errno == e.exist {
        SubmitFailure::Abort(SubmitFault::DeferTaskrunUsed)
    } else {
        SubmitFailure::Retry
    }
}

/// Tells what an error number of a submission calls for, given the numbers of the
/// host.
pub fn submit_failure_with(e: Errnos, errno: i32) -> (failure: SubmitFailure)
    requires
        linux_errnos(e),
    ensures
        failure == submit_failure(e, errno),
{
    if errno == e.again || errno == e.intr || errno == e.inval || errno == e.busy {
        SubmitFailure::Retry
    } else if errno == e.fault {
        SubmitFailure::Abort(SubmitFault::BadAddress)
    } else if errno == e.nxio {
        SubmitFailure::Abort(SubmitFault::RingTornDown)
    } else if errno == e.badf {
        SubmitFailure::Abort(SubmitFault::RingNotOpen)
    } else if errno == e.opnotsupp {
        SubmitFailure::Abort(SubmitFault::RingNotRing)
    } else if errno == e.exist {
        SubmitFailure::Abort(SubmitFault::DeferTaskrunUsed)
    } else {
        SubmitFailure::Retry
    }
}

/// Tells what an error number of a submission calls for on this host. The number
/// that says that the descriptor is no ring varies with the processor.
pub fn classify_submit_errno(errno: i32) -> (failure: SubmitFailure)
    ensures
        exists|e: Errnos| linux_errnos(e) && failure == #[trigger] submit_failure(e, errno),
        errno == 14 ==> failure == SubmitFailure::Abort(SubmitFault::BadAddress),
        errno == 6 ==> failure == SubmitFailure::Abort(SubmitFault::RingTornDown),
        errno == 9 ==> failure == SubmitFailure::Abort(SubmitFault::RingNotOpen),
        errno == 17 ==> failure == SubmitFailure::Abort(SubmitFault::DeferTaskrunUsed),
        errno != 14 && errno != 6 && errno != 9 && errno != 17 && errno != 95 && errno != 122 && errno != 45 ==> failure
            == SubmitFailure::Retry,
{
    submit_failure_with(errnos(), errno)
}

/// What came of a submission.
#[derive(Clone, Copy, Debug, PartialEq, Eq, Structural)]
pub enum Submission {
    /// The kernel took so many operations.
    Taken(usize),
    /// The submission failed, and this is what that calls for.
    Failed(SubmitFailure),
}

/// What to do next.
#[derive(Clone, Copy, Debug, PartialEq, Eq, Structural)]
pub enum SpinStep {
    Submit,
    Done,
    Abort(SubmitFault),
}

/// Operations on the queue that the kernel has to take before the call returns.
#[derive(Clone, Copy, Debug, PartialEq, Eq, Structural)]
pub struct SubmitSpin {
    /// How many are left.
    pub len: usize,
}

impl SubmitSpin {
    /// What to do with so many operations left.
    pub open spec fn next(self) -> SpinStep {
        if self.len == 0 {
            SpinStep::Done
        } else {
            SpinStep::Submit
        }
    }

    /// What comes of a submission.
    pub open spec fn on_submission(self, submission: Submission) -> (SubmitSpin, SpinStep) {
        match submission {
            Submission::Taken(n) => {
                let after = SubmitSpin { len: (self.len - n) as usize };
                (after, after.next())
            },
            Submission::Failed(SubmitFailure::Retry) => (self, SpinStep::Submit),
            Submission::Failed(SubmitFailure::Abort(fault)) => (self, SpinStep::Abort(fault)),
        }
    }

    /// Starts with the operations that are on the queue.
    pub fn spin_until_all_submitted(len: usize) -> (started: (SubmitSpin, SpinStep))
        ensures
            started.0.len == len,
            started.1 == started.0.next(),
    {
        let step = if len == 0 {
            SpinStep::Done
        } else {
            SpinStep::Submit
        };
        (SubmitSpin { len }, step)
    }

    /// A submission was made.
    pub fn submitted(&mut self, submission: Submission) -> (step: SpinStep)
        requires
            old(self).len > 0,
            submission matches Submission::Taken(n) ==> n <= old(self).len,
        ensures
            (*final(self), step) == old(self).on_submission(submission),
    {
        match submission {
            Submission::Taken(n) => {
                self.len = self.len - n;
                if self.len == 0 {
                    SpinStep::Done
                } else {
                    SpinStep::Submit
                }
            },
            Submission::Failed(SubmitFailure::Retry) => SpinStep::Submit,
            Submission::Failed(SubmitFailure::Abort(fault)) => SpinStep::Abort(fault),
        }
    }
}

/// What is left after a number of submissions.
pub open spec fn spin_after(spin: SubmitSpin, submissions: Seq<Submission>) -> SubmitSpin
    decreases submissions.len(),
{
    if submissions.len() == 0 {
        spin
    } else {
        spin_after(spin, submissions.drop_last()).on_submission(submissions.last()).0
    }
}

/// How many operations the kernel took.
pub open spec fn taken_in(submissions: Seq<Submission>) -> int
    decreases submissions.len(),
{
    if submissions.len() == 0 {
        0
    } else {
        taken_in(submissions.drop_last()) + (match submissions.last() {
            Submission::Taken(n) => n as int,
            Submission::Failed(_) => 0,
        })
    }
}

/// The kernel never takes more than there is.
pub open spec fn submissions_fit(spin: SubmitSpin, submissions: Seq<Submission>) -> bool
    decreases submissions.len(),
{
    submissions.len() == 0 || {
        &&& submissions_fit(spin, submissions.drop_last())
        &&& submissions.last() matches Submission::Taken(n) ==> n <= spin_after(spin, submissions.drop_last()).len
    }
}

/// The call returns once the kernel has taken every operation, and not before.
pub proof fn law_returns_when_all_is_taken(spin: SubmitSpin, submissions: Seq<Submission>)
    requires
        submissions_fit(spin, submissions),
    ensures
        spin_after(spin, submissions).len == spin.len - taken_in(submissions),
        spin_after(spin, submissions).next() == SpinStep::Done <==> taken_in(submissions) == spin.len,
    decreases submissions.len(),
{
    if submissions.len() > 0 {
        law_returns_when_all_is_taken(spin, submissions.drop_last());
    }
}

/// A failed submission loses nothing: as many operations are left as before.
pub proof fn law_failure_loses_nothing(spin: SubmitSpin, failure: SubmitFailure)
    ensures
        spin.on_submission(Submission::Failed(failure)).0 == spin,
        spin.on_submission(Submission::Failed(failure)).1 != SpinStep::Done,
{
}

/// Every request of a batch has its operation, in order, and tells its end under
/// its own number.
pub proof fn law_batch_keeps_order(file: RawFileAsync, batch: Seq<BatchRequest>, i: int)
    requires
        0 <= i < batch.len(),
    ensures
        ({
            let entries = batch.map_values(|r: BatchRequest| file.entry_of(r));
            &&& entries.len() == batch.len()
            &&& entries[i].user_data == batch[i].user_data
            &&& entries[i].fd == file.fd
            &&& entries[i].write == (batch[i].request_type == RequestType::Out)
        }),
{
}

/// The operation of each request reads or writes at the request's own place in the
/// file, through as many buffers as the request has. An offset that is negative as a
/// signed number is handed on bit by bit, and so are the lowest bits of a number of
/// buffers that is too large.
pub proof fn law_batch_goes_to_its_places(file: RawFileAsync, batch: Seq<BatchRequest>, i: int)
    requires
        0 <= i < batch.len(),
    ensures
        ({
            let entries = batch.map_values(|r: BatchRequest| file.entry_of(r));
            &&& batch[i].offset >= 0 ==> entries[i].offset == batch[i].offset
            &&& batch[i].offset < 0 ==> entries[i].offset == batch[i].offset + 0x1_0000_0000_0000_0000
            &&& batch[i].iovecs <= u32::MAX ==> entries[i].iovecs == batch[i].iovecs
            &&& (batch[i].iovecs - entries[i].iovecs) % 0x1_0000_0000 == 0
        }),
{
    let offset = batch[i].offset;
    assert(offset < 0 ==> (offset as u64) == offset + 0x1_0000_0000_0000_0000) by (bit_vector);
    let iovecs = batch[i].iovecs as u64;
    assert((iovecs as u32) == iovecs % 0x1_0000_0000) by (bit_vector);
    assert(batch[i].iovecs as u32 == iovecs as u32);
}

/// A request has the same operation in every batch: those of two batches, one behind
/// the other, are those of the two put together.
pub proof fn law_batches_can_be_joined(file: RawFileAsync, a: Seq<BatchRequest>, b: Seq<BatchRequest>)
    ensures
        (a + b).map_values(|r: BatchRequest| file.entry_of(r)) == a.map_values(|r: BatchRequest| file.entry_of(r))
            + b.map_values(|r: BatchRequest| file.entry_of(r)),
{
    assert((a + b).map_values(|r: BatchRequest| file.entry_of(r)) =~= a.map_values(
        |r: BatchRequest| file.entry_of(r),
    ) + b.map_values(|r: BatchRequest| file.entry_of(r)));
}

/// A batch that does not fit is refused because the queue is full, as reads if it starts
/// with a read, and else as writes.
pub proof fn law_refusal_is_named_after_the_first(first: BatchRequest)
    ensures
        first.request_type == RequestType::In <==> batch_refusal(first) is ReadVectored,
        first.request_type != RequestType::In <==> batch_refusal(first) is WriteVectored,
        match batch_refusal(first) {
            AsyncIoError::ReadVectored(cause) => cause == Cause::QueueFull,
            AsyncIoError::WriteVectored(cause) => cause == Cause::QueueFull,
            _ => false,
        },
{
}

/// Five error numbers mean that the ring or the buffers are not what they have to be.
/// With every other one the submission is made again.
pub proof fn law_five_errors_end_the_wait(e: Errnos, errno: i32)
    requires
        linux_errnos(e),
    ensures
        ({
            let failure = submit_failure(e, errno);
            &&& failure == SubmitFailure::Retry <==> errno != 6 && errno != 9 && errno != 14 && errno != 17 && errno
                != e.opnotsupp
            &&& failure == SubmitFailure::Abort(SubmitFault::RingTornDown) <==> errno == 6
            &&& failure == SubmitFailure::Abort(SubmitFault::RingNotOpen) <==> errno == 9
            &&& failure == SubmitFailure::Abort(SubmitFault::BadAddress) <==> errno == 14
            &&& failure == SubmitFailure::Abort(SubmitFault::DeferTaskrunUsed) <==> errno == 17
            &&& failure == SubmitFailure::Abort(SubmitFault::RingNotRing) <==> errno == e.opnotsupp
        }),
{
}

/// As long as the kernel has not taken every operation another submission is made. Only
/// a fault ends that early, and then that fault is told.
pub proof fn law_submits_until_all_is_taken(spin: SubmitSpin, submission: Submission)
    requires
        submission matches Submission::Taken(n) ==> n <= spin.len,
    ensures
        ({
            let (after, step) = spin.on_submission(submission);
            &&& submission matches Submission::Taken(n) ==> {
                &&& after.len + n == spin.len
                &&& step == (if n == spin.len { SpinStep::Done } else { SpinStep::Submit })
            }
            &&& submission == Submission::Failed(SubmitFailure::Retry) ==> step == SpinStep::Submit
            &&& submission matches Submission::Failed(SubmitFailure::Abort(fault)) ==> step == SpinStep::Abort(fault)
            &&& step is Abort ==> submission matches Submission::Failed(SubmitFailure::Abort(_))
        }),
        spin.next() == (if spin.len > 0 { SpinStep::Submit } else { SpinStep::Done }),
{
}

/// Requests of two types move data, and those of the third do not.
pub proof fn law_other_requests_move_nothing(request: BatchRequest)
    ensures
        is_transfer(request) <==> request.request_type != RequestType::Other,
{
}

/// A queue has room for what it does not hold, and each operation that it gets takes the
/// room of one.
pub proof fn law_room_is_what_is_left(queue: QueueState, next: QueueState)
    requires
        queue.wf(),
        next.capacity == queue.capacity,
        next.len == queue.len + 1,
    ensures
        queue.len + queue.room() == queue.capacity,
        queue.room() >= 0,
        next.room() == queue.room() - 1,
        next.wf() <==> queue.room() > 0,
{
}

} // verus!
