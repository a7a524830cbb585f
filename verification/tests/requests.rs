use vhost_devices::byte_order::ByteOrder;
use vhost_devices::error::{Error, IoCause, Refusal};
use vhost_devices::frontend_request::{
    device_state_access, device_state_flags, migration_fd_offered, set_protocol_features, validate_reply,
    EventFdAction, EventFdError, FrontendRequestQueuePairInternals, IoEventFds, MigrationFd, Plan,
};
use vhost_devices::host::FileAccess;
use vhost_devices::mapping_plan::{MappingAction, MappingPlan};
use vhost_devices::message::{FrontendReq, VhostUserMemoryRegion, VhostUserMsgHeader};

const ORDER: ByteOrder = ByteOrder::Little;

fn internals(queues: u8) -> FrontendRequestQueuePairInternals {
    FrontendRequestQueuePairInternals {
        order: ORDER,
        queues,
        seen_log_mapping: false,
        seen_backend_req_socket: false,
    }
}

fn header(req: FrontendReq, flags: u32) -> VhostUserMsgHeader {
    VhostUserMsgHeader { request: req.code(), flags, size: 0 }
}

fn process(req: FrontendReq, body: &[u8], files: Vec<u32>) -> Result<Plan<u32>, Error> {
    internals(4).process_f2b_requests(header(req, 1), body, files)
}

fn error_of(result: Result<Plan<u32>, Error>) -> Error {
    match result {
        Ok(_) => panic!("accepted"),
        Err(e) => e,
    }
}

fn needs_nothing(result: Result<Plan<u32>, Error>) -> bool {
    matches!(result, Ok(Plan::Nothing))
}

fn words(numbers: &[u64]) -> Vec<u8> {
    numbers.iter().flat_map(|n| n.to_le_bytes()).collect()
}

fn mem_table(regions: u32, padding: u32, numbers: &[u64]) -> Vec<u8> {
    let mut body = regions.to_le_bytes().to_vec();
    body.extend(padding.to_le_bytes());
    body.extend(words(numbers));
    body
}

fn region(first: u64) -> VhostUserMemoryRegion {
    VhostUserMemoryRegion {
        guest_phys_addr: first,
        memory_size: first + 1,
        user_addr: first + 2,
        mmap_offset: first + 3,
    }
}

#[test]
fn replies_need_the_right_flags() {
    let mut body = [];
    assert_eq!(validate_reply(ORDER, header(FrontendReq::GET_FEATURES, 5), &mut body), Ok(()));
    assert_eq!(validate_reply(ORDER, header(FrontendReq::GET_FEATURES, 0x105), &mut body), Ok(()));
    assert_eq!(validate_reply(ORDER, header(FrontendReq::GET_FEATURES, 1), &mut body), Err(Error::InvalidMessage));
    assert_eq!(validate_reply(ORDER, header(FrontendReq::GET_FEATURES, 13), &mut body), Err(Error::InvalidMessage));
}

#[test]
fn protocol_features_are_cut_down() {
    let hdr = header(FrontendReq::GET_PROTOCOL_FEATURES, 5);
    let mut body = u64::MAX.to_le_bytes();
    assert_eq!(validate_reply(ORDER, hdr, &mut body), Ok(()));
    assert_eq!(u64::from_le_bytes(body), 0x1_a2d7);
    let mut body = 0xfu64.to_be_bytes();
    assert_eq!(validate_reply(ByteOrder::Big, hdr, &mut body), Ok(()));
    assert_eq!(u64::from_be_bytes(body), 7);
    let mut short = [0xff; 7];
    assert_eq!(validate_reply(ORDER, hdr, &mut short), Err(Error::InvalidMessage));
    assert_eq!(short, [0xff; 7]);
    let mut other = [0xff; 8];
    assert_eq!(validate_reply(ORDER, header(FrontendReq::GET_FEATURES, 5), &mut other), Ok(()));
    assert_eq!(other, [0xff; 8]);
}

#[test]
fn offered_features_are_accepted() {
    let mut offered = u64::MAX.to_le_bytes();
    assert_eq!(validate_reply(ORDER, header(FrontendReq::GET_PROTOCOL_FEATURES, 5), &mut offered), Ok(()));
    assert_eq!(set_protocol_features(ORDER, &offered), Ok(()));
    assert_eq!(set_protocol_features(ORDER, &words(&[1])), Ok(()));
    assert_eq!(set_protocol_features(ORDER, &words(&[8])), Err(Error::InvalidMessage));
    assert_eq!(set_protocol_features(ORDER, &words(&[0x1_a2d7 | 1 << 40])), Err(Error::InvalidMessage));
    assert_eq!(set_protocol_features(ORDER, &[0; 4]), Err(Error::InvalidMessage));
    assert!(needs_nothing(process(FrontendReq::SET_PROTOCOL_FEATURES, &offered, vec![])));
    assert_eq!(
        error_of(process(FrontendReq::SET_PROTOCOL_FEATURES, &words(&[u64::MAX]), vec![])),
        Error::InvalidMessage
    );
}

#[test]
fn request_flags_are_checked() {
    let i = internals(1);
    for (flags, ok) in [(1, true), (9, true), (0, false), (5, false), (2, false), (0x101, false)] {
        let result = i.process_f2b_requests::<u32>(header(FrontendReq::SET_OWNER, flags), &[], vec![]);
        assert_eq!(result.is_ok(), ok);
    }
    let unknown = VhostUserMsgHeader { request: 45, flags: 1, size: 0 };
    assert_eq!(error_of(i.process_f2b_requests(unknown, &[], vec![])), Error::InvalidMessage);
}

#[test]
fn files_come_with_some_requests_only() {
    assert_eq!(error_of(process(FrontendReq::SET_OWNER, &[], vec![1])), Error::IncorrectFds);
    assert_eq!(error_of(process(FrontendReq::GET_INFLIGHT_FD, &[], vec![1])), Error::IncorrectFds);
    assert_eq!(error_of(process(FrontendReq::SET_INFLIGHT_FD, &[], vec![1])), Error::FeatureMismatch);
    assert_eq!(error_of(process(FrontendReq::GPU_SET_SOCKET, &[], vec![1])), Error::FeatureMismatch);
}

#[test]
fn some_requests_have_no_body() {
    for req in [
        FrontendReq::SET_OWNER,
        FrontendReq::RESET_DEVICE,
        FrontendReq::GET_FEATURES,
        FrontendReq::GET_PROTOCOL_FEATURES,
        FrontendReq::GET_QUEUE_NUM,
    ] {
        assert!(needs_nothing(process(req, &[], vec![])));
        assert_eq!(error_of(process(req, &[0], vec![])), Error::InvalidMessage);
    }
    assert!(needs_nothing(process(FrontendReq::RESET_OWNER, &[1, 2, 3], vec![])));
    assert!(needs_nothing(process(FrontendReq::SET_FEATURES, &[1, 2, 3], vec![])));
    assert!(needs_nothing(process(FrontendReq::GET_STATUS, &[], vec![])));
}

#[test]
fn unsupported_requests_are_a_mismatch() {
    for req in [
        FrontendReq::CHECK_DEVICE_STATE,
        FrontendReq::SET_INFLIGHT_FD,
        FrontendReq::GET_INFLIGHT_FD,
        FrontendReq::POSTCOPY_ADVISE,
        FrontendReq::POSTCOPY_LISTEN,
        FrontendReq::POSTCOPY_END,
        FrontendReq::GPU_SET_SOCKET,
        FrontendReq::VRING_KICK,
        FrontendReq::SET_VRING_ENDIAN,
        FrontendReq::IOTLB_MSG,
        FrontendReq::GET_SHMEM_CONFIG,
        FrontendReq::GET_SHARED_OBJECT,
    ] {
        assert_eq!(error_of(process(req, &[], vec![])), Error::FeatureMismatch);
    }
}

fn run_mapping(mut plan: MappingPlan<u32>, fail_at: usize) -> (Vec<String>, Result<(), Error>) {
    let mut i = internals(1);
    let mut log = Vec::new();
    let mut outcome = Ok(());
    loop {
        match i.mapping_step(&mut plan, outcome) {
            MappingAction::CheckRegion(r) => log.push(format!("check {}", r.guest_phys_addr)),
            MappingAction::Reset => log.push("reset".to_string()),
            MappingAction::MapRegion { region, file } => {
                log.push(format!("map {} {}", region.guest_phys_addr, file))
            }
            MappingAction::Done(result) => return (log, result),
        }
        outcome = if log.len() == fail_at { Err(Error::InvalidParam) } else { Ok(()) };
    }
}

fn table_plan() -> MappingPlan<u32> {
    let body = mem_table(2, 0, &[10, 11, 12, 13, 20, 21, 22, 23]);
    match process(FrontendReq::SET_MEM_TABLE, &body, vec![7, 8]) {
        Ok(Plan::MapRegions(plan)) => plan,
        _ => panic!("no mapping plan"),
    }
}

#[test]
fn mem_table_is_checked_before_it_is_mapped() {
    let (log, result) = run_mapping(table_plan(), 0);
    assert_eq!(log, ["check 10", "check 20", "reset", "map 10 7", "map 20 8"]);
    assert_eq!(result, Ok(()));
    let (log, result) = run_mapping(table_plan(), 2);
    assert_eq!(log, ["check 10", "check 20"]);
    assert_eq!(result, Err(Error::InvalidParam));
    let (log, result) = run_mapping(table_plan(), 4);
    assert_eq!(log, ["check 10", "check 20", "reset", "map 10 7"]);
    assert_eq!(result, Err(Error::InvalidParam));
}

#[test]
fn mem_table_has_a_region_for_each_file() {
    let one = mem_table(1, 0, &[1, 2, 3, 4]);
    assert!(process(FrontendReq::SET_MEM_TABLE, &one, vec![7]).is_ok());
    assert_eq!(error_of(process(FrontendReq::SET_MEM_TABLE, &one, vec![])), Error::InvalidMessage);
    assert_eq!(error_of(process(FrontendReq::SET_MEM_TABLE, &one, vec![7, 8])), Error::InvalidMessage);
    let padded = mem_table(1, 1, &[1, 2, 3, 4]);
    assert_eq!(error_of(process(FrontendReq::SET_MEM_TABLE, &padded, vec![7])), Error::InvalidMessage);
    let short = mem_table(1, 0, &[1, 2, 3]);
    assert_eq!(error_of(process(FrontendReq::SET_MEM_TABLE, &short, vec![7])), Error::InvalidMessage);
    assert_eq!(error_of(process(FrontendReq::SET_MEM_TABLE, &mem_table(0, 0, &[]), vec![])), Error::InvalidMessage);
    assert_eq!(error_of(process(FrontendReq::SET_MEM_TABLE, &[1, 2], vec![])), Error::InvalidMessage);
    let eight = mem_table(8, 0, &[0; 32]);
    assert!(process(FrontendReq::SET_MEM_TABLE, &eight, vec![0; 8]).is_ok());
    let nine = mem_table(9, 0, &[0; 36]);
    assert_eq!(error_of(process(FrontendReq::SET_MEM_TABLE, &nine, vec![0; 9])), Error::InvalidMessage);
}

#[test]
fn log_is_mapped_once() {
    let mut i = internals(1);
    let body = words(&[0x1000, 0x20]);
    let plan = i.set_log_base(&body, vec![5u32]);
    let mut plan = match plan {
        Ok(Plan::MapRegions(plan)) => plan,
        _ => panic!("no mapping plan"),
    };
    let expected = VhostUserMemoryRegion {
        guest_phys_addr: u64::MAX,
        memory_size: 0x1000,
        user_addr: u64::MAX,
        mmap_offset: 0x20,
    };
    match i.mapping_step(&mut plan, Ok(())) {
        MappingAction::CheckRegion(r) => assert_eq!(r, expected),
        _ => panic!("no check"),
    }
    match i.mapping_step(&mut plan, Ok(())) {
        MappingAction::MapRegion { region, file } => assert_eq!((region, file), (expected, 5)),
        _ => panic!("no mapping"),
    }
    assert!(!i.seen_log_mapping);
    assert!(matches!(i.mapping_step(&mut plan, Ok(())), MappingAction::Done(Ok(()))));
    assert!(i.seen_log_mapping);
    let again = i.process_f2b_requests(header(FrontendReq::SET_LOG_BASE, 1), &body, vec![5u32]);
    assert_eq!(error_of(again), Error::InvalidOperation(Refusal::DuplicateLogMapping));
}

#[test]
fn log_needs_one_file_and_a_description() {
    let body = words(&[1, 2]);
    assert_eq!(error_of(process(FrontendReq::SET_LOG_BASE, &body, vec![])), Error::InvalidMessage);
    assert_eq!(error_of(process(FrontendReq::SET_LOG_BASE, &body, vec![1, 2])), Error::InvalidMessage);
    assert_eq!(error_of(process(FrontendReq::SET_LOG_BASE, &body[..15], vec![1])), Error::InvalidMessage);
}

#[test]
fn regions_are_added_and_removed() {
    let body = words(&[0, 100, 101, 102, 103]);
    match process(FrontendReq::ADD_MEM_REG, &body, vec![9]) {
        Ok(Plan::AddRegion { region: r, file }) => assert_eq!((r, file), (region(100), 9)),
        _ => panic!("no region"),
    }
    assert_eq!(error_of(process(FrontendReq::ADD_MEM_REG, &body, vec![])), Error::IncorrectFds);
    assert_eq!(error_of(process(FrontendReq::ADD_MEM_REG, &body[1..], vec![9])), Error::InvalidMessage);
    for files in [vec![], vec![9]] {
        match process(FrontendReq::REM_MEM_REG, &body, files) {
            Ok(Plan::RemoveRegion { region: r }) => assert_eq!(r, region(100)),
            _ => panic!("no region"),
        }
    }
    assert_eq!(error_of(process(FrontendReq::REM_MEM_REG, &body, vec![1, 2])), Error::IncorrectFds);
    assert_eq!(error_of(process(FrontendReq::REM_MEM_REG, &[], vec![])), Error::InvalidMessage);
}

#[test]
fn event_descriptors_have_entries_of_their_own() {
    let i = internals(3);
    let mut table: IoEventFds<u32> = IoEventFds::new(3);
    assert_eq!(table.fds, vec![None; 7]);
    table.offset = 0x1000;
    let cases = [
        (FrontendReq::SET_VRING_CALL, words(&[2]), 2),
        (FrontendReq::SET_VRING_ERR, words(&[0]), 3),
        (FrontendReq::SET_LOG_FD, vec![], 6),
    ];
    for (req, body, entry) in cases {
        let fd = 100 + entry as u32;
        match i.eventfd_request(&mut table, req, &body, Some(Ok(fd))) {
            Ok(EventFdAction::IoEvent { offset, unregister, register }) => {
                assert_eq!(offset, 0x1000 + 4 * entry as u64);
                assert_eq!(unregister, None);
                assert_eq!(register, Some(entry));
                assert_eq!(table.fds[entry], Some(fd));
            }
            _ => panic!("no entry"),
        }
    }
    assert_eq!(table.fds, [None, None, Some(102), Some(103), None, None, Some(106)]);
}

#[test]
fn replaced_event_descriptor_is_given_back() {
    let i = internals(1);
    let mut table: IoEventFds<u32> = IoEventFds::new(1);
    assert!(i.eventfd_request(&mut table, FrontendReq::SET_VRING_CALL, &words(&[0]), Some(Ok(1))).is_ok());
    match i.eventfd_request(&mut table, FrontendReq::SET_VRING_CALL, &words(&[0]), Some(Ok(2))) {
        Ok(EventFdAction::IoEvent { offset, unregister, register }) => {
            assert_eq!((offset, unregister, register), (0, Some(1), Some(0)))
        }
        _ => panic!("no entry"),
    }
    match i.eventfd_request(&mut table, FrontendReq::SET_VRING_CALL, &words(&[0x100]), None) {
        Ok(EventFdAction::IoEvent { offset, unregister, register }) => {
            assert_eq!((offset, unregister, register), (0, Some(2), None))
        }
        _ => panic!("no entry"),
    }
    assert_eq!(table.fds[0], None);
}

#[test]
fn queue_number_and_descriptor_fit_together() {
    let i = internals(3);
    assert_eq!(i.handle_vring_fd_request(&words(&[2]), true), Ok(2));
    assert_eq!(i.handle_vring_fd_request(&words(&[0x102]), false), Ok(2));
    assert_eq!(i.handle_vring_fd_request(&words(&[2]), false), Err(Error::InvalidMessage));
    assert_eq!(i.handle_vring_fd_request(&words(&[0x102]), true), Err(Error::InvalidMessage));
    assert_eq!(i.handle_vring_fd_request(&words(&[3]), true), Err(Error::InvalidMessage));
    assert_eq!(i.handle_vring_fd_request(&words(&[512]), true), Err(Error::InvalidMessage));
    assert_eq!(i.handle_vring_fd_request(&[0; 7], true), Err(Error::InvalidMessage));
}

#[test]
fn kicks_go_to_the_virtual_machine() {
    let i = internals(3);
    let mut table: IoEventFds<u32> = IoEventFds::new(3);
    match i.eventfd_request(&mut table, FrontendReq::SET_VRING_KICK, &words(&[1]), Some(Ok(5))) {
        Ok(EventFdAction::Kick { fd, queue }) => assert_eq!((fd, queue), (Some(5), 1)),
        _ => panic!("no kick"),
    }
    match i.vring_kick::<u32>(&words(&[0x101]), None) {
        Ok(EventFdAction::Kick { fd, queue }) => assert_eq!((fd, queue), (None, 1)),
        _ => panic!("no kick"),
    }
    assert!(matches!(i.vring_kick::<u32>(&words(&[1]), None), Err(Error::InvalidMessage)));
    assert_eq!(table.fds, vec![None; 7]);
}

#[test]
fn files_that_are_no_event_descriptors_are_refused() {
    let i = internals(1);
    let mut table: IoEventFds<u32> = IoEventFds::new(1);
    let body = words(&[0]);
    let refused = i.eventfd_request(&mut table, FrontendReq::SET_VRING_CALL, &body, Some(Err(EventFdError::NotEventFd)));
    assert!(matches!(refused, Err(Error::InvalidMessage)));
    let cause = EventFdError::IO(IoCause::Errno(5));
    let refused = i.eventfd_request(&mut table, FrontendReq::SET_VRING_CALL, &body, Some(Err(cause)));
    assert!(matches!(refused, Err(Error::ReqHandlerError(IoCause::Errno(5)))));
    assert!(matches!(
        i.eventfd_request(&mut table, FrontendReq::SET_LOG_FD, &[], None),
        Err(Error::IncorrectFds)
    ));
    assert!(matches!(
        i.eventfd_request(&mut table, FrontendReq::SET_LOG_FD, &[1], Some(Ok(3))),
        Err(Error::InvalidMessage)
    ));
    assert_eq!(error_of(process(FrontendReq::SET_LOG_FD, &[], vec![1, 2])), Error::IncorrectFds);
    assert!(matches!(
        process(FrontendReq::SET_VRING_CALL, &body, vec![4]),
        Ok(Plan::CheckEventFd { req: FrontendReq::SET_VRING_CALL, eventfd: Some(4) })
    ));
}

#[test]
fn backend_socket_is_taken_once() {
    let mut i = internals(1);
    assert!(matches!(i.set_backend_req_fd(vec![3u32]), Ok(Plan::CheckSocket { file: 3 })));
    assert_eq!(error_of(i.set_backend_req_fd(vec![])), Error::InvalidMessage);
    assert_eq!(
        i.backend_socket_checked::<u32>(Err(IoCause::Errno(88))),
        Err(Error::ReqHandlerError(IoCause::Errno(88)))
    );
    assert!(!i.seen_backend_req_socket);
    assert_eq!(i.backend_socket_checked(Ok(3u32)), Ok(3));
    assert!(i.seen_backend_req_socket);
    assert_eq!(
        error_of(i.set_backend_req_fd(vec![3])),
        Error::InvalidOperation(Refusal::BackendRequestFdAlreadySent)
    );
}

#[test]
fn device_state_moves_through_a_fitting_file() {
    let load = [1, 0, 0, 0, 0, 0, 0, 0];
    let save = [0; 8];
    assert!(matches!(
        process(FrontendReq::SET_DEVICE_STATE_FD, &load, vec![6]),
        Ok(Plan::ReadFileFlags { is_load: true, file: 6 })
    ));
    assert!(matches!(
        process(FrontendReq::SET_DEVICE_STATE_FD, &save, vec![6]),
        Ok(Plan::ReadFileFlags { is_load: false, file: 6 })
    ));
    for bad in [[2, 0, 0, 0, 0, 0, 0, 0], [0, 0, 0, 0, 1, 0, 0, 0]] {
        assert_eq!(error_of(process(FrontendReq::SET_DEVICE_STATE_FD, &bad, vec![6])), Error::InvalidMessage);
    }
    assert_eq!(error_of(process(FrontendReq::SET_DEVICE_STATE_FD, &save, vec![])), Error::InvalidMessage);
    assert_eq!(error_of(process(FrontendReq::SET_DEVICE_STATE_FD, &save[..7], vec![6])), Error::InvalidMessage);
    assert_eq!(device_state_flags(true, libc::O_RDONLY), Ok(()));
    assert_eq!(device_state_flags(true, libc::O_RDWR), Ok(()));
    assert_eq!(device_state_flags(true, libc::O_WRONLY), Err(Error::InvalidMessage));
    assert_eq!(device_state_flags(false, libc::O_WRONLY), Ok(()));
    assert_eq!(device_state_flags(false, libc::O_RDONLY), Err(Error::InvalidMessage));
    let none = FileAccess { readable: false, writable: false };
    assert_eq!(device_state_access(true, none), Err(Error::InvalidMessage));
    assert_eq!(migration_fd_offered(true, true), Ok(()));
    assert_eq!(
        migration_fd_offered(true, false),
        Err(Error::InvalidOperation(Refusal::InboundMigrationFdAlreadySet))
    );
    assert_eq!(
        migration_fd_offered(false, false),
        Err(Error::InvalidOperation(Refusal::OutboundMigrationFdAlreadySet))
    );
    let fd: MigrationFd<u32> = MigrationFd::NotReceived;
    assert!(!matches!(fd, MigrationFd::Complete));
}
