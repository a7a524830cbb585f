use vhost_devices::byte_order::ByteOrder;
use vhost_devices::error::{Error, IoCause};
use vhost_devices::event_loop::{
    classify_pair_event, pair_base, register_epoll_events, register_socket, EventLoop, Interest, LoopAction, PairFd,
    PairSide,
};
use vhost_devices::incoming::IncomingAction;
use vhost_devices::outgoing::OutgoingAction;
use vhost_devices::pair_handler::{HandlerAction, HandlerError};
use vhost_devices::queue_pair::{Direction, FdRearm, PolledFd};
use vhost_devices::transport::VirtioTransport;
use vhost_devices::vhost_guest::{
    Accepted, GuestAction, InternalVM as GuestVM, TooManyQueues, VhostGuest, VhostGuestEpollHandler,
    VirtioVhostGuestConfig, VirtioVhostGuestState,
};
use vhost_devices::virtio_vhost_user::{
    vring_kick_notifier, InternalVM, VdbEpollHandler, VirtioDeviceBackendConfig, VirtioDeviceBackendConfigCommon,
    VirtioDeviceBackendConfigVhostUser, VirtioVhostUser, VirtioVhostUserState,
};

const ORDER: ByteOrder = ByteOrder::Little;
const LAST: u16 = 15;
const UUID: [u8; 16] = [1, 2, 3, 4, 5, 6, 7, 8, 9, 10, 11, 12, 13, 14, 15, 16];

type User = VirtioVhostUser<u32, u64>;
type UserHandler = VdbEpollHandler<u8, u32, u64>;
type Guest = VhostGuest<u32>;
type GuestHandler = VhostGuestEpollHandler<u8, u32, u64>;

fn user_handler() -> UserHandler {
    let mut device: User = VirtioVhostUser::new(43, None, 2, UUID, 900);
    let queues = (0..6u32).map(|i| (format!("q{i}"), 100 + i)).collect();
    device.activate(ORDER, LAST, queues).0
}

fn guest_handler() -> GuestHandler {
    let mut device: Guest = VhostGuest::new(43, None, 2, UUID, 0).ok().unwrap();
    let queues = (0..6u32).map(|i| (format!("q{i}"), 100 + i)).collect();
    device.activate(ORDER, LAST, queues).0
}

#[test]
fn watch_flags_are_those_of_epoll() {
    assert_eq!(Interest::Readable.mask(), 1);
    assert_eq!(Interest::Writable.mask(), 4);
    assert_eq!(Interest::ReadableOnce.mask(), 0x4000_0001);
    assert_eq!(Interest::ReadableOrClosed.mask(), 0x2001);
    assert_eq!(Interest::ReadableEdge.mask(), 0x8000_0001);
    assert_eq!(Interest::WritableEdge.mask(), 0x8000_0004);
}

#[test]
fn watch_flags_are_combined() {
    let once = epoll::Events::EPOLLIN | epoll::Events::EPOLLONESHOT;
    assert_eq!(Interest::ReadableOnce.mask(), once.bits());
    let edge = epoll::Events::EPOLLET | epoll::Events::EPOLLOUT;
    assert_eq!(Interest::WritableEdge.mask(), edge.bits());
}

#[test]
fn pair_events_have_numbers() {
    assert_eq!(pair_base(LAST, PairSide::Frontend), 16);
    assert_eq!(pair_base(LAST, PairSide::Backend), 20);
    let expected = [
        (16, PairSide::Frontend, Direction::Inbound, 1),
        (17, PairSide::Frontend, Direction::Outbound, 2),
        (18, PairSide::Frontend, Direction::Inbound, 1),
        (19, PairSide::Frontend, Direction::Outbound, 2),
        (20, PairSide::Backend, Direction::Inbound, 3),
        (21, PairSide::Backend, Direction::Outbound, 4),
        (22, PairSide::Backend, Direction::Inbound, 3),
        (23, PairSide::Backend, Direction::Outbound, 4),
    ];
    for (event, side, direction, queue) in expected {
        let work = classify_pair_event(LAST, event).unwrap();
        assert_eq!((work.side, work.direction, work.queue), (side, direction, queue));
    }
    assert_eq!(classify_pair_event(LAST, 15), None);
    assert_eq!(classify_pair_event(LAST, 24), None);
    assert_eq!(classify_pair_event(LAST, 0), None);
}

#[test]
fn pair_descriptors_are_watched() {
    let watches = register_epoll_events(16, true);
    let expected = [
        (PairFd::QueueIn, 16, None),
        (PairFd::QueueOut, 17, None),
        (PairFd::SocketIn, 18, None),
        (PairFd::SocketOut, 19, Some(4)),
    ];
    assert_eq!(watches.len(), 4);
    for (watch, (fd, id, events)) in watches.iter().zip(expected) {
        assert_eq!((watch.fd, watch.id, watch.events), (fd, id, events));
        assert!(classify_pair_event(LAST, watch.id).is_some());
    }
    assert_eq!(register_epoll_events(16, false), watches[..2]);
    assert_eq!(register_socket(18), watches[2..]);
}

#[test]
fn event_goes_on_until_a_descriptor_is_watched() {
    let work = classify_pair_event(LAST, 18).unwrap();
    let process = LoopAction::Process { side: PairSide::Frontend, direction: Direction::Inbound, max_iterations: 50 };
    let (mut run, action) = EventLoop::start(18, work);
    assert_eq!(action, process);
    assert_eq!(run.processed(None, true), LoopAction::Trigger { queue: 1 });
    assert_eq!(run.triggered(), LoopAction::TakeSocket);
    assert_eq!(run.adopted(), process);
    assert_eq!(
        run.processed(Some(Direction::Inbound), false),
        LoopAction::Watch { events: 0x8000_0001, data: 18 }
    );
    assert_eq!(run.watched(), LoopAction::TakeSocket);
    assert_eq!(run.adopted(), LoopAction::Finish);
}

#[test]
fn new_user_device_is_down() {
    let device: User = VirtioVhostUser::new(43, None, 255, UUID, 900);
    assert_eq!(device.device_type(), 43);
    assert_eq!(device.queue_max_sizes(), [128; 6]);
    assert_eq!(device.min_queues, 6);
    assert_eq!(device.features(), 1 << 32);
    assert_eq!(device.acked_features, 0);
    assert_eq!(device.doorbells_max(), 511);
    assert_eq!(device.ioeventfds.fds.len(), 511);
    assert!(!device.paused);
    let mut expected = vec![1, 0, 0, 0, 0, 0, 0, 0];
    expected.extend(UUID);
    expected.extend([255, 0, 0, 0]);
    assert_eq!(device.config_bytes(), expected);
}

#[test]
fn restored_user_device_waits() {
    let config = VirtioDeviceBackendConfig {
        common: VirtioDeviceBackendConfigCommon { device_type: 1, status: 1, uuid: [7; 16] },
        vhost_user: VirtioDeviceBackendConfigVhostUser { max_queues: 0x0102_0304 },
    };
    let state = VirtioVhostUserState { avail_features: 5, acked_features: 4, config };
    let device: User = VirtioVhostUser::new(43, Some(state), 3, UUID, 900);
    assert!(device.paused);
    assert_eq!((device.features(), device.acked_features), (5, 4));
    assert_eq!(device.doorbells_max(), 7);
    let bytes = device.config_bytes();
    assert_eq!(bytes[4..8], [1, 0, 0, 0]);
    assert_eq!(bytes[24..], [4, 3, 2, 1]);
}

#[test]
fn user_status_is_written_whole() {
    let mut device: User = VirtioVhostUser::new(43, None, 1, UUID, 900);
    device.write_config(4, &[1, 0, 0, 0]);
    assert_eq!(device.config_bytes()[4..8], [1, 0, 0, 0]);
    for (offset, data) in [(4, vec![2, 0, 0, 0]), (4, vec![0, 0]), (0, vec![0; 4]), (8, vec![9; 4]), (512, vec![1, 0])] {
        device.write_config(offset, &data);
        assert_eq!(device.config.common.status, 1);
    }
    device.write_config(4, &[0; 4]);
    assert_eq!(device.config.common.status, 0);
    assert_eq!(device.config.common.device_type, 1);
    assert_eq!(device.config.common.uuid, UUID);
}

#[test]
fn user_queues_are_paired() {
    let mut device: User = VirtioVhostUser::new(43, None, 2, UUID, 900);
    let queues = (0..6u32).map(|i| (format!("q{i}"), 100 + i)).collect();
    let (handler, queues): (UserHandler, _) = device.activate(ORDER, LAST, queues);
    assert_eq!(queues.frontend_requests, ("q0".to_string(), "q2".to_string()));
    assert_eq!(queues.backend_requests, ("q3".to_string(), "q1".to_string()));
    assert_eq!((queues.inbound_migration.as_str(), queues.outbound_migration.as_str()), ("q4", "q5"));
    let fds = handler.pairs.frontend_requests.fds();
    assert_eq!((*fds.queue_in, *fds.queue_out, fds.socket), (100, 102, Some(&900)));
    let fds = handler.pairs.backend_requests.fds();
    assert_eq!((*fds.queue_in, *fds.queue_out, fds.socket), (103, 101, None));
    assert_eq!(handler.inbound_migration_queue_evt, 104);
    assert_eq!(handler.outbound_migration_queue_evt, 105);
    assert_eq!(handler.pairs.frontend_requests.internals.queues, 2);
    assert!(device.listener.is_none());
    let watches = handler.watches();
    assert_eq!(watches.frontend.len(), 4);
    assert_eq!(watches.backend.len(), 2);
    assert_eq!(watches.backend[0].id, 20);
    assert_eq!((watches.inbound_migration.id, watches.inbound_migration.events), (24, 1));
    assert_eq!((watches.outbound_migration.id, watches.outbound_migration.events), (25, 1));
}

#[test]
fn user_event_is_worked_off() {
    let mut handler = user_handler();
    assert_eq!(
        handler.handle_event(18),
        HandlerAction::Process { side: PairSide::Frontend, direction: Direction::Inbound, max_iterations: 50 }
    );
    match handler.pairs.polled_fd(FdRearm::Socket) {
        Some((PolledFd::Socket(fd), way)) => assert_eq!((*fd, way), (900, Direction::Inbound)),
        _ => panic!("no socket"),
    }
    assert_eq!(
        handler.pairs.processed(Ok((FdRearm::Socket, true))),
        HandlerAction::Watch { events: 0x8000_0001, data: 18 }
    );
    assert_eq!(handler.pairs.watched(), HandlerAction::Trigger { queue: 1 });
    assert_eq!(handler.pairs.triggered(Ok(())), HandlerAction::Finish(Ok(())));
}

#[test]
fn event_with_more_to_do_goes_on() {
    let mut handler = user_handler();
    let process = HandlerAction::Process { side: PairSide::Backend, direction: Direction::Outbound, max_iterations: 50 };
    assert_eq!(handler.handle_event(0x7_0015), process);
    assert_eq!(handler.pairs.processed(Ok((FdRearm::Neither, false))), process);
    match handler.pairs.polled_fd(FdRearm::Queue) {
        Some((PolledFd::Queue(fd), way)) => assert_eq!((*fd, way), (101, Direction::Inbound)),
        _ => panic!("no queue"),
    }
    assert_eq!(
        handler.pairs.processed(Ok((FdRearm::Queue, false))),
        HandlerAction::Watch { events: 0x8000_0001, data: 21 }
    );
    assert_eq!(handler.pairs.watched(), HandlerAction::Finish(Ok(())));
}

#[test]
fn backend_socket_is_put_to_use() {
    let mut handler = user_handler();
    handler.handle_event(16);
    handler.pairs.backend_request_socket(555);
    handler.pairs.processed(Ok((FdRearm::Queue, false)));
    assert_eq!(handler.pairs.watched(), HandlerAction::RegisterSocket { first: 22 });
    assert_eq!(handler.pairs.new_socket, Some(555));
    assert_eq!(handler.pairs.socket_registered(Ok(())), HandlerAction::Finish(Ok(())));
    assert_eq!(handler.pairs.backend_requests.socket, Some(555));
    handler.handle_event(16);
    handler.pairs.backend_request_socket(556);
    handler.pairs.processed(Ok((FdRearm::Queue, false)));
    handler.pairs.watched();
    assert_eq!(
        handler.pairs.socket_registered(Ok(())),
        HandlerAction::Finish(Err(HandlerError::SetSocket(Error::InvalidMessage)))
    );
    assert!(handler.pairs.needs_reset);
}

#[test]
fn failure_is_final() {
    let mut handler = user_handler();
    handler.handle_event(16);
    assert_eq!(
        handler.pairs.processed(Err(Error::FeatureMismatch)),
        HandlerAction::Finish(Err(HandlerError::Process(Error::FeatureMismatch)))
    );
    for event in [16, 24, 9999] {
        assert_eq!(handler.handle_event(event), HandlerAction::Finish(Err(HandlerError::NeedsReset)));
    }
    let mut handler = user_handler();
    handler.handle_event(16);
    handler.pairs.processed(Ok((FdRearm::Neither, true)));
    assert_eq!(
        handler.pairs.triggered(Err(IoCause::Errno(1))),
        HandlerAction::Finish(Err(HandlerError::Trigger(IoCause::Errno(1))))
    );
    let mut handler = user_handler();
    handler.handle_event(16);
    handler.pairs.backend_request_socket(1);
    assert_eq!(handler.pairs.processed(Ok((FdRearm::Neither, false))), HandlerAction::RegisterSocket { first: 22 });
    assert_eq!(
        handler.pairs.socket_registered(Err(IoCause::Errno(2))),
        HandlerAction::Finish(Err(HandlerError::Register(IoCause::Errno(2))))
    );
    assert!(handler.pairs.needs_reset);
}

#[test]
fn migration_events_do_nothing_and_others_fail() {
    let mut handler = user_handler();
    for event in 24..28 {
        assert_eq!(handler.handle_event(event), HandlerAction::Finish(Ok(())));
    }
    assert_eq!(handler.handle_event(28), HandlerAction::Finish(Err(HandlerError::UnknownEvent)));
    assert!(handler.pairs.needs_reset);
}

#[test]
fn migration_descriptor_is_kept_once() {
    let mut vm: InternalVM<u8> = InternalVM { inbound_migration_fd: None, outbound_migration_fd: None };
    let watch = vm.offer_migration_fd(LAST, true).unwrap();
    assert_eq!((watch.id, watch.events), (26, 1));
    vm.set_inbound_migration_fd(5);
    assert_eq!(vm.offer_migration_fd(LAST, true), None);
    let watch = vm.offer_migration_fd(LAST, false).unwrap();
    assert_eq!((watch.id, watch.events), (27, 4));
    vm.set_outbound_migration_fd(6);
    assert_eq!(vm.offer_migration_fd(LAST, false), None);
    assert_eq!((vm.inbound_migration_fd, vm.outbound_migration_fd), (Some(5), Some(6)));
    assert_eq!(vring_kick_notifier(255), 259);
}

#[test]
fn new_guest_device_has_its_limits() {
    let device: Guest = VhostGuest::new(43, None, 2, UUID, 0x0304).ok().unwrap();
    let mut expected = vec![2, 0, 0, 0, 0, 4, 0, 0, 0, 0, 0, 0, 1, 0, 1, 0];
    expected.extend(UUID);
    expected.extend([4, 3, 0, 0]);
    assert_eq!(device.config_bytes(), expected);
    assert_eq!(device.device_type(), 43);
    assert_eq!(device.queue_max_sizes(), [128; 6]);
    assert_eq!(device.features(), 1 << 32);
    assert_eq!(device.ioeventfds.fds.len(), 5);
    let refused: Result<Guest, TooManyQueues> = VhostGuest::new(43, None, 256, UUID, 0);
    assert_eq!(refused.err(), Some(TooManyQueues { max_queues: 256 }));
}

#[test]
fn restored_guest_device_waits() {
    let config = VirtioVhostGuestConfig {
        max_queues: 9,
        max_message_size: 8,
        max_migration_message_size: 7,
        max_chained_rx_descriptors: 6,
        max_chained_tx_descriptors: 5,
        uuid: [3; 16],
        device_type: 2,
        status: 1,
    };
    let state = VirtioVhostGuestState { avail_features: 11, acked_features: 10, config };
    let device: Guest = VhostGuest::new(43, Some(state), 2, UUID, 0).ok().unwrap();
    assert!(device.paused);
    assert_eq!((device.features(), device.acked_features), (11, 10));
    let bytes = device.config_bytes();
    assert_eq!(bytes[..16], [9, 0, 0, 0, 8, 0, 0, 0, 7, 0, 0, 0, 6, 0, 5, 0]);
    assert_eq!(bytes[32..], [2, 0, 1, 0]);
}

#[test]
fn guest_type_is_settled_once_and_status_stays() {
    let mut device: Guest = VhostGuest::new(43, None, 2, UUID, 0).ok().unwrap();
    device.write_config(34, &[2, 0]);
    assert_eq!(device.config.status, 0);
    device.write_config(32, &[7, 0]);
    assert_eq!(device.config.device_type, 7);
    device.write_config(32, &[8, 0, 1, 0]);
    assert_eq!((device.config.device_type, device.config.status), (7, 1));
    device.write_config(34, &[0, 0]);
    assert_eq!(device.config.status, 1);
    device.config.status = 4;
    device.write_config(34, &[1, 0]);
    assert_eq!(device.config.status, 5);
    for (offset, data) in [(32, vec![9; 3]), (33, vec![9; 2]), (34, vec![1; 4]), (0, vec![9; 4])] {
        device.write_config(offset, &data);
        assert_eq!((device.config.device_type, device.config.status, device.config.max_queues), (7, 5, 2));
    }
    let mut device: Guest = VhostGuest::new(43, None, 2, UUID, 0).ok().unwrap();
    device.write_config(32, &[1, 2, 1, 0]);
    assert_eq!(device.config_bytes()[32..], [1, 2, 1, 0]);
}

#[test]
fn guest_queues_are_paired() {
    let mut device: Guest = VhostGuest::new(43, None, 2, UUID, 0).ok().unwrap();
    assert!(!device.activated);
    let queues = (0..4u32).map(|i| (format!("q{i}"), 100 + i)).collect();
    let (handler, queues): (GuestHandler, _) = device.activate(ORDER, LAST, queues);
    assert!(device.activated);
    assert_eq!(queues.frontend_requests, ("q0".to_string(), "q1".to_string()));
    assert_eq!(queues.backend_requests, ("q2".to_string(), "q3".to_string()));
    let fds = handler.pairs.frontend_requests.fds();
    assert_eq!((*fds.queue_in, *fds.queue_out, fds.socket), (100, 101, None));
    let fds = handler.pairs.backend_requests.fds();
    assert_eq!((*fds.queue_in, *fds.queue_out, fds.socket), (102, 103, None));
    let watches = handler.watches();
    assert_eq!((watches.backend_up.events, watches.backend_up.data), (0x4000_0001, 31));
    assert_eq!((watches.incoming_connection.events, watches.incoming_connection.data), (0x4000_0001, 30));
    assert_eq!((watches.frontend.len(), watches.backend.len()), (2, 2));
}

#[test]
fn activated_pairs_can_start() {
    let mut handler = guest_handler();
    assert_eq!(handler.pairs.frontend_requests.internals.queues, 2);
    let start = handler.pairs.frontend_requests.process_b2f_replies(false, 1);
    assert!(matches!(start, OutgoingAction::PopChain));
    let mut handler = user_handler();
    assert!(matches!(handler.pairs.backend_requests.process_outgoing(false, 1), OutgoingAction::PopChain));
    let start = handler.pairs.frontend_requests.process_f2b_requests(false, 1);
    assert!(matches!(start, IncomingAction::Receive { max: 12 }));
    // The message has its length in the byte order that the device was activated with.
    assert_eq!(handler.pairs.backend_requests.set_socket(5), Ok(()));
    assert!(matches!(handler.pairs.backend_requests.process_incoming(false, 1), IncomingAction::Receive { max: 12 }));
    let header = [1, 0, 0, 0, 1, 0, 0, 0, 2, 0, 0, 0];
    let next = handler.pairs.backend_requests.incoming.received(&header, vec![]);
    assert!(matches!(next, IncomingAction::Receive { max: 2 }));
}

#[test]
fn handed_over_descriptors_are_kept_with_the_requests() {
    let mut handler = user_handler();
    handler.pairs.frontend_requests.vm_mut().set_inbound_migration_fd(9);
    assert_eq!(handler.pairs.frontend_requests.vm().inbound_migration_fd, Some(9));
    assert_eq!(handler.pairs.frontend_requests.vm().outbound_migration_fd, None);
}

#[test]
fn frontend_is_let_in_when_both_are_ready() {
    for (first, second) in [(30, 31), (31, 30)] {
        let mut handler = guest_handler();
        assert_eq!(handler.handle_event(first), GuestAction::Finish(Ok(())));
        assert_eq!(handler.handle_event(first), GuestAction::Finish(Ok(())));
        assert_eq!(handler.handle_event(second), GuestAction::Accept);
        assert_eq!(
            handler.accept_attempted(Accepted::WouldBlock),
            GuestAction::Rearm { events: 0x4000_0001, id: 30 }
        );
        assert_eq!(handler.rearmed(Ok(())), GuestAction::Finish(Ok(())));
        assert_eq!(handler.handle_event(30), GuestAction::Accept);
        assert_eq!(handler.accept_attempted(Accepted::Connection(77)), GuestAction::RegisterFrontend { first: 18 });
        assert_eq!(handler.frontend_registered(Ok(())), GuestAction::Finish(Ok(())));
        assert_eq!(handler.pairs.frontend_requests.queue_pair.socket, Some(77));
        assert!(!handler.pairs.needs_reset);
    }
}

#[test]
fn failed_accept_calls_for_a_reset() {
    let mut handler = guest_handler();
    handler.handle_event(30);
    handler.handle_event(31);
    assert_eq!(handler.accept_attempted(Accepted::Failed), GuestAction::Finish(Ok(())));
    assert_eq!(handler.handle_event(16), GuestAction::Finish(Err(HandlerError::NeedsReset)));
    let mut handler = guest_handler();
    handler.handle_event(30);
    handler.handle_event(31);
    handler.accept_attempted(Accepted::Connection(77));
    assert_eq!(
        handler.frontend_registered(Err(IoCause::Errno(12))),
        GuestAction::Pair(HandlerAction::Finish(Err(HandlerError::Register(IoCause::Errno(12)))))
    );
    assert!(handler.pairs.needs_reset);
    assert_eq!(handler.pairs.frontend_requests.queue_pair.socket, None);
    let mut handler = guest_handler();
    handler.handle_event(30);
    handler.handle_event(31);
    handler.accept_attempted(Accepted::WouldBlock);
    handler.rearmed(Err(IoCause::Errno(12)));
    assert!(handler.pairs.needs_reset);
}

#[test]
fn guest_pair_events_are_handled() {
    let mut handler = guest_handler();
    assert_eq!(
        handler.handle_event(20),
        GuestAction::Pair(HandlerAction::Process {
            side: PairSide::Backend,
            direction: Direction::Inbound,
            max_iterations: 50
        })
    );
    assert_eq!(
        handler.pairs.processed(Ok((FdRearm::Queue, true))),
        HandlerAction::Watch { events: 0x8000_0001, data: 20 }
    );
    assert_eq!(handler.pairs.watched(), HandlerAction::Trigger { queue: 3 });
    assert_eq!(handler.pairs.triggered(Ok(())), HandlerAction::Finish(Ok(())));
    assert_eq!(
        handler.handle_event(29),
        GuestAction::Finish(Err(HandlerError::UnknownEvent))
    );
    assert!(handler.pairs.needs_reset);
    let mut handler = guest_handler();
    assert_eq!(
        handler.handle_event(288),
        GuestAction::Finish(Err(HandlerError::UnknownEvent))
    );
    assert_eq!(handler.handle_event(16), GuestAction::Finish(Err(HandlerError::NeedsReset)));
}

#[test]
fn kick_is_told_to_the_driver() {
    let mut handler = guest_handler();
    let change = handler.pairs.frontend_requests.vm.register_vring_kick(Some(9), 255);
    assert_eq!(change.remove, None);
    let (fd, watch) = change.add.unwrap();
    assert_eq!((fd, watch.events, watch.data), (9, 0x2001, 287));
    handler.pairs.frontend_requests.vm.kick_watched(fd, 255);
    assert_eq!(handler.handle_event(watch.data), GuestAction::DrainKick { queue: 255 });
    assert_eq!(handler.kick_drained(), GuestAction::TriggerDriver { queue: 255 });
    handler.pairs.backend_request_socket(44);
    assert_eq!(
        handler.driver_triggered(Ok(())),
        GuestAction::Pair(HandlerAction::RegisterSocket { first: 22 })
    );
    assert_eq!(handler.pairs.socket_registered(Ok(())), HandlerAction::Finish(Ok(())));
    assert_eq!(handler.pairs.backend_requests.socket, Some(44));
    handler.handle_event(287);
    handler.kick_drained();
    assert_eq!(handler.driver_triggered(Ok(())), GuestAction::Pair(HandlerAction::Finish(Ok(()))));
    handler.handle_event(287);
    handler.kick_drained();
    assert_eq!(
        handler.driver_triggered(Err(IoCause::Errno(3))),
        GuestAction::Pair(HandlerAction::Finish(Err(HandlerError::Trigger(IoCause::Errno(3)))))
    );
}

#[test]
fn kick_descriptors_are_replaced_and_drained() {
    let mut vm: GuestVM<u32> = GuestVM::new();
    assert_eq!(vm.fds, vec![None; 256]);
    for (queue, fd) in [(0, 1), (7, 2), (255, 3)] {
        let change = vm.register_vring_kick(Some(fd), queue);
        vm.kick_watched(change.add.unwrap().0, queue);
    }
    let change = vm.register_vring_kick(Some(4), 7);
    assert_eq!(change.remove, Some(2));
    vm.kick_watched(4, 7);
    let change = vm.register_vring_kick(None, 0);
    assert_eq!(change.remove, Some(1));
    assert!(change.add.is_none());
    assert_eq!(vm.drain(), [4, 3]);
    assert!(vm.drain().is_empty());
}

struct Doorbells(u64);

impl VirtioTransport for Doorbells {
    type EventFds = Vec<(u32, u64)>;

    fn ioeventfds(&self, base_addr: u64) -> Vec<(u32, u64)> {
        vec![(1, base_addr + self.0)]
    }
}

#[test]
fn transport_lists_its_event_descriptors() {
    assert_eq!(Doorbells(8).ioeventfds(0x1000), [(1, 0x1008)]);
}
