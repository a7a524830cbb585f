use vhost_devices::raw_async::{
    classify_submit_errno, submit_failure_with, AsyncIoError, BatchRequest, Cause, FallocateEntry, FsyncEntry,
    FsyncPlan, QueueState, QueuedOperation, RawFileAsync, RequestType, SpinStep, SubmitFailure, SubmitFault,
    SubmitSpin, Submission, VectoredEntry,
};
use vhost_devices::host::Errnos;

const ROOM: QueueState = QueueState { capacity: 4, len: 1 };
const FULL: QueueState = QueueState { capacity: 4, len: 4 };

fn request(request_type: RequestType, user_data: u64) -> BatchRequest {
    BatchRequest { offset: 512 * user_data as i64, iovecs: 2, user_data, request_type }
}

#[test]
fn file_is_aligned_to_sectors() {
    let file = RawFileAsync::new(7);
    assert_eq!(file.alignment(), 512);
    assert!(file.batch_requests_enabled());
}

#[test]
fn vectored_operations_need_room() {
    let file = RawFileAsync::new(7);
    assert_eq!(
        file.read_vectored(ROOM, 1024, 3, 99),
        Ok(VectoredEntry { fd: 7, write: false, iovecs: 3, offset: 1024, user_data: 99 })
    );
    assert_eq!(
        file.write_vectored(ROOM, 0, 1, 98),
        Ok(VectoredEntry { fd: 7, write: true, iovecs: 1, offset: 0, user_data: 98 })
    );
    assert_eq!(file.read_vectored(FULL, 0, 1, 1), Err(AsyncIoError::ReadVectored(Cause::QueueFull)));
    assert_eq!(file.write_vectored(FULL, 0, 1, 1), Err(AsyncIoError::WriteVectored(Cause::QueueFull)));
}

#[test]
fn batch_fits_or_is_refused() {
    let file = RawFileAsync::new(7);
    let batch = [request(RequestType::In, 1), request(RequestType::Out, 2), request(RequestType::In, 3)];
    let entries = file.submit_batch_requests(ROOM, &batch).unwrap();
    assert_eq!(entries.len(), 3);
    assert_eq!(entries[1], VectoredEntry { fd: 7, write: true, iovecs: 2, offset: 1024, user_data: 2 });
    assert_eq!(entries[2], VectoredEntry { fd: 7, write: false, iovecs: 2, offset: 1536, user_data: 3 });
    assert_eq!(file.submit_batch_requests(FULL, &[]), Ok(vec![]));
    assert_eq!(file.submit_batch_requests(FULL, &batch), Err(AsyncIoError::ReadVectored(Cause::QueueFull)));
    assert_eq!(file.submit_batch_requests(FULL, &batch[1..]), Err(AsyncIoError::WriteVectored(Cause::QueueFull)));
}

#[test]
fn batch_offsets_wrap_like_casts() {
    let file = RawFileAsync::new(7);
    let batch = [BatchRequest { offset: -1, iovecs: 0, user_data: 0, request_type: RequestType::In }];
    assert_eq!(file.submit_batch_requests(ROOM, &batch).unwrap()[0].offset, u64::MAX);
}

#[test]
fn fsync_is_queued_or_direct() {
    let file = RawFileAsync::new(7);
    assert_eq!(file.fsync(ROOM, Some(5)), Ok(FsyncPlan::Queued(FsyncEntry { fd: 7, user_data: 5 })));
    assert_eq!(file.fsync(FULL, Some(5)), Err(AsyncIoError::Fsync(Cause::QueueFull)));
    assert_eq!(file.fsync(FULL, None), Ok(FsyncPlan::Direct { fd: 7 }));
}

#[test]
fn space_operations_keep_the_length() {
    let file = RawFileAsync::new(7);
    let hole = file.punch_hole(ROOM, 512, 1024, 6).unwrap();
    assert_eq!(hole, FallocateEntry { fd: 7, mode: 3, offset: 512, length: 1024, user_data: 6 });
    assert_eq!(hole.mode, libc::FALLOC_FL_PUNCH_HOLE | libc::FALLOC_FL_KEEP_SIZE);
    let zeroes = file.write_zeroes(ROOM, 512, 1024, 6).unwrap();
    assert_eq!(zeroes.mode, libc::FALLOC_FL_ZERO_RANGE | libc::FALLOC_FL_KEEP_SIZE);
    assert_eq!(zeroes.mode, 0x11);
    assert_eq!(file.punch_hole(FULL, 0, 1, 1), Err(AsyncIoError::PunchHole(Cause::QueueFull)));
    assert_eq!(file.write_zeroes(FULL, 0, 1, 1), Err(AsyncIoError::WriteZeroes(Cause::QueueFull)));
}

#[test]
fn queue_entries_are_built() {
    let entry = FallocateEntry { fd: 7, mode: 3, offset: 512, length: 1024, user_data: 42 }.build();
    assert_eq!(entry.get_user_data(), 42);
    assert_eq!(entry.get_opcode(), u32::from(io_uring::opcode::Fallocate::CODE));
    let entry = FsyncEntry { fd: 7, user_data: 43 }.build();
    assert_eq!(entry.get_user_data(), 43);
    assert_eq!(entry.get_opcode(), u32::from(io_uring::opcode::Fsync::CODE));
}

#[test]
fn refused_submissions_are_named() {
    assert_eq!(QueuedOperation::Fsync.submitted(Ok(1)), Ok(()));
    assert_eq!(QueuedOperation::Fsync.submitted(Err(5)), Err(AsyncIoError::Fsync(Cause::Submit(5))));
    assert_eq!(QueuedOperation::PunchHole.submitted(Err(5)), Err(AsyncIoError::PunchHole(Cause::Submit(5))));
    assert_eq!(QueuedOperation::WriteZeroes.submitted(Err(5)), Err(AsyncIoError::WriteZeroes(Cause::Submit(5))));
}

#[test]
fn submission_errors_are_told_apart() {
    for errno in [libc::EAGAIN, libc::EINTR, libc::EINVAL, libc::EBUSY, libc::ENOMEM] {
        assert_eq!(classify_submit_errno(errno), SubmitFailure::Retry);
    }
    let faults = [
        (libc::EFAULT, SubmitFault::BadAddress),
        (libc::ENXIO, SubmitFault::RingTornDown),
        (libc::EBADF, SubmitFault::RingNotOpen),
        (libc::EOPNOTSUPP, SubmitFault::RingNotRing),
        (libc::EEXIST, SubmitFault::DeferTaskrunUsed),
    ];
    for (errno, fault) in faults {
        assert_eq!(classify_submit_errno(errno), SubmitFailure::Abort(fault));
    }
    let sparc = Errnos {
        again: 11,
        would_block: 11,
        intr: 4,
        inval: 22,
        busy: 16,
        fault: 14,
        nxio: 6,
        badf: 9,
        opnotsupp: 45,
        exist: 17,
    };
    assert_eq!(submit_failure_with(sparc, 45), SubmitFailure::Abort(SubmitFault::RingNotRing));
    assert_eq!(submit_failure_with(sparc, 95), SubmitFailure::Retry);
}

#[test]
fn spins_until_everything_is_taken() {
    let (mut spin, step) = SubmitSpin::spin_until_all_submitted(5);
    assert_eq!(step, SpinStep::Submit);
    assert_eq!(spin.submitted(Submission::Taken(2)), SpinStep::Submit);
    assert_eq!(spin.submitted(Submission::Failed(SubmitFailure::Retry)), SpinStep::Submit);
    assert_eq!(spin.submitted(Submission::Taken(0)), SpinStep::Submit);
    assert_eq!(spin.len, 3);
    assert_eq!(spin.submitted(Submission::Taken(3)), SpinStep::Done);
    assert_eq!(SubmitSpin::spin_until_all_submitted(0).1, SpinStep::Done);
    let (mut spin, _) = SubmitSpin::spin_until_all_submitted(1);
    let fault = SubmitFailure::Abort(SubmitFault::RingNotOpen);
    assert_eq!(spin.submitted(Submission::Failed(fault)), SpinStep::Abort(SubmitFault::RingNotOpen));
}
