use vhost_devices::byte_order::ByteOrder;
use vhost_devices::error::{Error, IoCause};
use vhost_devices::frontend_request::{FrontendRequestQueuePair, PairAction, Plan};
use vhost_devices::incoming::{Descriptor, IncomingAction, IncomingData};
use vhost_devices::message::{FrontendReq, VhostUserMsgHeader};
use vhost_devices::outgoing::{OutgoingAction, OutgoingData, SendResult};
use vhost_devices::queue_pair::{
    extract_fd, polled_direction, validate_hdr, Direction, FdRearm, Fds, PolledFd, VirtioVhostUserQueuePair,
};

const ORDER: ByteOrder = ByteOrder::Little;

type Outcome = Result<(FdRearm, bool), Error>;

fn message(request: u32, flags: u32, body: &[u8]) -> Vec<u8> {
    let mut bytes = request.to_le_bytes().to_vec();
    bytes.extend(flags.to_le_bytes());
    bytes.extend((body.len() as u32).to_le_bytes());
    bytes.extend(body);
    bytes
}

fn writable(len: u32) -> Descriptor {
    Descriptor { addr: 0x1000, len, write_only: true }
}

fn readable(len: u32) -> Descriptor {
    Descriptor { addr: 0x2000, len, write_only: false }
}

/// A socket that hands out bytes, a piece at a time, and a guest with chains of
/// buffers.
struct World {
    pieces: Vec<Vec<u8>>,
    errno: i32,
    chains: Vec<Vec<Descriptor>>,
    guest: Vec<u8>,
    used: Vec<usize>,
    handled: Vec<VhostUserMsgHeader>,
    files: Vec<u32>,
    translated: Vec<(u64, usize)>,
    refuse: bool,
}

impl World {
    fn new(pieces: Vec<Vec<u8>>, chains: Vec<Vec<Descriptor>>) -> World {
        World {
            pieces,
            errno: libc::EAGAIN,
            chains,
            guest: vec![],
            used: vec![],
            handled: vec![],
            files: vec![],
            translated: vec![],
            refuse: false,
        }
    }

    fn run(&mut self, incoming: &mut IncomingData<u32>, mut action: IncomingAction) -> Outcome {
        let mut chain: Vec<Descriptor> = vec![];
        loop {
            action = match action {
                IncomingAction::Receive { max } => {
                    if self.pieces.is_empty() {
                        let errno = self.errno;
                        self.errno = libc::EAGAIN;
                        incoming.receive_failed(errno)
                    } else {
                        let mut piece = self.pieces.remove(0);
                        if piece.len() > max {
                            self.pieces.insert(0, piece.split_off(max));
                        }
                        incoming.received(&piece, vec![piece.len() as u32])
                    }
                }
                IncomingAction::HandleMessage(hdr) => {
                    assert_eq!(incoming.body().len(), hdr.size as usize);
                    self.handled.push(hdr);
                    self.files = incoming.take_files();
                    let result = if self.refuse { Err(Error::FeatureMismatch) } else { Ok(()) };
                    incoming.message_handled(result)
                }
                IncomingAction::PopChain => {
                    let found = !self.chains.is_empty();
                    if found {
                        chain = self.chains.remove(0);
                    }
                    incoming.chain_popped(found)
                }
                IncomingAction::NextDescriptor => {
                    let next = if chain.is_empty() { None } else { Some(chain.remove(0)) };
                    incoming.descriptor(next)
                }
                IncomingAction::Translate { addr, len } => {
                    self.translated.push((addr, len));
                    if len == 13 {
                        incoming.translated(Err(IoCause::Errno(14)))
                    } else {
                        incoming.translated(Ok(addr + 1))
                    }
                }
                IncomingAction::CheckRange { addr, .. } => incoming.range_checked(addr != 0xbad),
                IncomingAction::WriteGuest { addr, from, to } => {
                    let part = incoming.message()[from..to].to_vec();
                    self.guest.extend(part);
                    incoming.guest_written(addr != 0xdead)
                }
                IncomingAction::AddUsed { len } => {
                    self.used.push(len);
                    incoming.used_added(Ok(()))
                }
                IncomingAction::Finish(result) => return result,
            }
        }
    }

    fn process(&mut self, incoming: &mut IncomingData<u32>, max: usize) -> Outcome {
        let action = incoming.process_incoming(max, false, true);
        self.run(incoming, action)
    }
}

#[test]
fn header_is_checked() {
    let mut good = message(1, 1, &[7, 8]);
    let (hdr, body) = validate_hdr(ORDER, true, &mut good).unwrap();
    assert_eq!((hdr.request, hdr.flags, hdr.size), (1, 1, 2));
    assert_eq!(body, [7, 8]);
    body[0] = 9;
    assert_eq!(good[12], 9);
    let mut version = message(1, 2, &[]);
    assert!(validate_hdr(ORDER, false, &mut version).is_err());
    let mut long = message(1, 5, &[]);
    long.push(0);
    assert!(validate_hdr(ORDER, true, &mut long).is_err());
    assert!(validate_hdr(ORDER, false, &mut long).is_ok());
    assert!(matches!(validate_hdr(ORDER, false, &mut long[..11]), Err(Error::InvalidMessage)));
}

#[test]
fn message_reaches_the_guest_whole() {
    let msg = message(1, 1, &[1, 2, 3, 4, 5]);
    let pieces = vec![msg[..5].to_vec(), msg[5..13].to_vec(), msg[13..].to_vec()];
    let mut world = World::new(pieces, vec![vec![writable(4), writable(0), writable(10), writable(9)]]);
    let mut incoming = IncomingData::new(ORDER);
    assert_eq!(world.process(&mut incoming, 50), Ok((FdRearm::Socket, true)));
    assert_eq!(world.guest, msg);
    assert_eq!(world.used, [17]);
    assert_eq!(world.handled.len(), 1);
    assert_eq!(world.files, [5, 7, 1, 4]);
    assert!(incoming.message().is_empty());
}

#[test]
fn messages_do_not_run_together() {
    let first = message(1, 1, &[1]);
    let second = message(2, 1, &[]);
    let mut world = World::new(vec![[first.clone(), second.clone()].concat()], vec![vec![writable(64)], vec![writable(64)]]);
    let mut incoming = IncomingData::new(ORDER);
    assert_eq!(world.process(&mut incoming, 2), Ok((FdRearm::Neither, true)));
    assert_eq!(world.guest, [first, second].concat());
    assert_eq!(world.used, [13, 12]);
    assert_eq!(world.handled[1].request, 2);
}

#[test]
fn no_messages_means_no_work() {
    let mut world = World::new(vec![], vec![]);
    let mut incoming = IncomingData::new(ORDER);
    assert_eq!(world.process(&mut incoming, 0), Ok((FdRearm::Neither, false)));
    assert_eq!(world.process(&mut incoming, 1), Ok((FdRearm::Socket, false)));
}

#[test]
fn message_without_a_chain_waits_and_is_handled_once() {
    let msg = message(3, 1, &[9; 20]);
    let mut world = World::new(vec![msg.clone()], vec![]);
    let mut incoming = IncomingData::new(ORDER);
    assert_eq!(world.process(&mut incoming, 50), Ok((FdRearm::Queue, true)));
    assert_eq!(world.handled.len(), 1);
    // Nothing is processed while the message waits.
    assert_eq!(world.process(&mut incoming, 50), Ok((FdRearm::Queue, false)));
    assert_eq!(world.handled.len(), 1);
    world.chains.push(vec![writable(32)]);
    assert_eq!(world.process(&mut incoming, 1), Ok((FdRearm::Neither, true)));
    assert_eq!(world.handled.len(), 1);
    assert_eq!(world.guest, msg);
}

#[test]
fn partial_message_waits_for_the_socket() {
    let msg = message(3, 1, &[1, 2]);
    let mut world = World::new(vec![msg[..4].to_vec()], vec![vec![writable(14)]]);
    let mut incoming = IncomingData::new(ORDER);
    assert_eq!(world.process(&mut incoming, 1), Ok((FdRearm::Socket, false)));
    world.pieces.push(msg[4..].to_vec());
    assert_eq!(world.process(&mut incoming, 1), Ok((FdRearm::Neither, true)));
    assert_eq!(world.guest, msg);
}

#[test]
fn socket_trouble_is_told_apart() {
    let mut incoming: IncomingData<u32> = IncomingData::new(ORDER);
    assert!(matches!(
        incoming.process_incoming(1, false, false),
        IncomingAction::Finish(Err(Error::BackendInternalError))
    ));
    assert!(matches!(incoming.process_incoming(1, false, true), IncomingAction::Receive { max: 12 }));
    assert!(matches!(incoming.receive_failed(libc::EINTR), IncomingAction::Receive { max: 12 }));
    assert!(matches!(
        incoming.receive_failed(libc::ECONNRESET),
        IncomingAction::Finish(Err(Error::SocketError(IoCause::Errno(libc::ECONNRESET))))
    ));
    assert!(matches!(incoming.process_incoming(1, false, true), IncomingAction::Receive { max: 12 }));
    assert!(matches!(
        incoming.received(&[], vec![]),
        IncomingAction::Finish(Err(Error::SocketBroken(IoCause::UnexpectedEof)))
    ));
}

#[test]
fn bad_messages_are_refused() {
    let mut incoming = IncomingData::new(ORDER);
    let mut world = World::new(vec![message(1, 0, &[])], vec![]);
    assert_eq!(world.process(&mut incoming, 1), Err(Error::InvalidMessage));
    let mut incoming = IncomingData::new(ORDER);
    let mut long = message(1, 1, &[]);
    long[8..12].copy_from_slice(&0x1001u32.to_le_bytes());
    let mut world = World::new(vec![long], vec![]);
    assert_eq!(world.process(&mut incoming, 1), Err(Error::InvalidMessage));
    let mut incoming = IncomingData::new(ORDER);
    let mut world = World::new(vec![message(1, 1, &[0; 0x1000])], vec![vec![writable(0x2000)]]);
    assert_eq!(world.process(&mut incoming, 1), Ok((FdRearm::Neither, true)));
    let mut incoming = IncomingData::new(ORDER);
    let mut world = World::new(vec![message(1, 1, &[])], vec![vec![writable(12)]]);
    world.refuse = true;
    assert_eq!(world.process(&mut incoming, 1), Err(Error::FeatureMismatch));
    assert!(world.guest.is_empty());
    // The refused message does not come back.
    world.refuse = false;
    assert_eq!(world.process(&mut incoming, 1), Ok((FdRearm::Socket, false)));
    assert_eq!(world.handled.len(), 1);
    assert!(world.guest.is_empty());
}

#[test]
fn bad_chains_are_refused() {
    let cases = [
        (vec![writable(11)], Error::InvalidMessage),
        (vec![], Error::InvalidMessage),
        (vec![writable(6), readable(6)], Error::InvalidParam),
        (vec![Descriptor { addr: 0xbad, len: 12, write_only: true }], Error::InvalidParam),
        (vec![Descriptor { addr: 0xdead, len: 12, write_only: true }], Error::InvalidMessage),
    ];
    for (chain, error) in cases {
        let mut incoming = IncomingData::new(ORDER);
        let mut world = World::new(vec![message(1, 1, &[])], vec![chain]);
        assert_eq!(world.process(&mut incoming, 1), Err(error));
        assert!(world.used.is_empty());
    }
}

#[test]
fn addresses_are_translated() {
    let mut incoming = IncomingData::new(ORDER);
    let mut world = World::new(vec![message(1, 1, &[])], vec![vec![writable(12)]]);
    let action = incoming.process_incoming(1, true, true);
    assert_eq!(world.run(&mut incoming, action), Ok((FdRearm::Neither, true)));
    assert_eq!(world.translated, [(0x1000, 12)]);
    let mut world = World::new(vec![message(1, 1, &[])], vec![vec![writable(13)]]);
    let action = incoming.process_incoming(1, true, true);
    assert_eq!(world.run(&mut incoming, action), Err(Error::ReqHandlerError(IoCause::Errno(14))));
}

#[test]
fn used_ring_failure_is_reported() {
    let mut incoming: IncomingData<u32> = IncomingData::new(ORDER);
    incoming.process_incoming(1, false, true);
    incoming.received(&message(1, 1, &[]), vec![]);
    incoming.message_handled(Ok(()));
    incoming.chain_popped(true);
    incoming.descriptor(Some(writable(12)));
    incoming.range_checked(true);
    incoming.guest_written(true);
    assert!(matches!(incoming.descriptor(None), IncomingAction::AddUsed { len: 12 }));
    match incoming.used_added(Err(IoCause::Other("full".to_string()))) {
        IncomingAction::Finish(Err(Error::ReqHandlerError(IoCause::Other(words)))) => assert_eq!(words, "full"),
        _ => panic!("not reported"),
    }
}

/// A guest that sends messages, and a socket that takes some bytes at a time.
struct Sink {
    chains: Vec<(Vec<Descriptor>, Vec<u8>)>,
    sends: Vec<SendResult>,
    socket: Vec<u8>,
    reject: bool,
}

impl Sink {
    fn run(&mut self, outgoing: &mut OutgoingData, max: usize) -> Outcome {
        let mut action = outgoing.process_outgoing(max, false, true);
        let mut chain: Vec<Descriptor> = vec![];
        let mut memory: Vec<u8> = vec![];
        loop {
            action = match action {
                OutgoingAction::PopChain => {
                    let found = !self.chains.is_empty();
                    if found {
                        (chain, memory) = self.chains.remove(0);
                    }
                    outgoing.chain_popped(found)
                }
                OutgoingAction::NextDescriptor => {
                    let next = if chain.is_empty() { None } else { Some(chain.remove(0)) };
                    outgoing.descriptor(next)
                }
                OutgoingAction::Translate { addr, .. } => outgoing.translated(Ok(addr)),
                OutgoingAction::ReadGuest { len, .. } => {
                    let read = if memory.len() >= len { Some(memory[..len].to_vec()) } else { None };
                    outgoing.guest_read(read)
                }
                OutgoingAction::ProcessMessage(_) => {
                    let body = outgoing.body_mut();
                    if !body.is_empty() {
                        body[0] ^= 0xff;
                    }
                    let result = if self.reject { Err(Error::FeatureMismatch) } else { Ok(()) };
                    outgoing.message_processed(result)
                }
                OutgoingAction::Send => {
                    let attempt = if self.sends.is_empty() {
                        SendResult::Failed(libc::EAGAIN)
                    } else {
                        self.sends.remove(0)
                    };
                    if let SendResult::Sent(n) = attempt {
                        self.socket.extend(&outgoing.pending()[..n]);
                    }
                    outgoing.send_attempted(attempt)
                }
                OutgoingAction::Finish(result) => return result,
            }
        }
    }
}

fn sink(chains: Vec<(Vec<Descriptor>, Vec<u8>)>, sends: Vec<SendResult>) -> Sink {
    Sink { chains, sends, socket: vec![], reject: false }
}

#[test]
fn message_is_sent_in_pieces() {
    let msg = message(1, 5, &[1, 2, 3]);
    let mut changed = msg.clone();
    changed[12] ^= 0xff;
    let mut world = sink(
        vec![(vec![readable(15)], msg)],
        vec![SendResult::Sent(4), SendResult::Failed(libc::EINTR), SendResult::Sent(8), SendResult::Sent(0)],
    );
    let mut outgoing = OutgoingData::new(ORDER);
    assert_eq!(world.run(&mut outgoing, 50), Ok((FdRearm::Socket, true)));
    assert_eq!(world.socket, changed[..12]);
    assert_eq!(outgoing.pending(), &changed[12..]);
    world.sends = vec![SendResult::Sent(3)];
    assert_eq!(world.run(&mut outgoing, 50), Ok((FdRearm::Queue, false)));
    assert_eq!(world.socket, changed);
    assert!(outgoing.pending().is_empty());
}

#[test]
fn only_so_many_messages_are_sent() {
    let msg = message(1, 5, &[]);
    let chain = (vec![readable(12)], msg.clone());
    let mut world = sink(vec![chain.clone(), chain], vec![SendResult::Sent(12), SendResult::Sent(12)]);
    let mut outgoing = OutgoingData::new(ORDER);
    assert_eq!(world.run(&mut outgoing, 1), Ok((FdRearm::Neither, true)));
    assert_eq!(world.chains.len(), 1);
    assert_eq!(world.socket, msg);
    assert_eq!(world.run(&mut outgoing, 0), Ok((FdRearm::Neither, false)));
}

#[test]
fn bad_outgoing_messages_are_refused() {
    let good = message(1, 5, &[]);
    let cases = vec![
        (vec![], good.clone()),
        (vec![writable(12)], good.clone()),
        (vec![readable(0x1001)], vec![0; 0x1001]),
        (vec![readable(12)], vec![1]),
        (vec![readable(0)], vec![]),
        (vec![readable(12)], message(1, 4, &[])),
        (vec![readable(13)], [good.clone(), vec![0]].concat()),
    ];
    for case in cases {
        let mut world = sink(vec![case], vec![SendResult::Sent(12)]);
        let mut outgoing = OutgoingData::new(ORDER);
        assert_eq!(world.run(&mut outgoing, 1), Err(Error::InvalidMessage));
        assert!(outgoing.pending().is_empty());
        assert_eq!(world.run(&mut outgoing, 1), Ok((FdRearm::Queue, false)));
        assert!(world.socket.is_empty());
    }
}

#[test]
fn second_descriptor_is_an_error() {
    let msg = message(1, 5, &[]);
    let mut world = sink(vec![(vec![readable(12), readable(1)], msg.clone())], vec![SendResult::Sent(12)]);
    let mut outgoing = OutgoingData::new(ORDER);
    assert_eq!(world.run(&mut outgoing, 1), Err(Error::InvalidMessage));
    assert!(world.socket.is_empty());
    assert_eq!(outgoing.pending(), msg);
    assert_eq!(world.run(&mut outgoing, 1), Ok((FdRearm::Neither, false)));
    assert_eq!(world.socket, msg);
}

#[test]
fn rejected_message_is_never_sent() {
    let mut world = sink(vec![(vec![readable(12)], message(1, 5, &[]))], vec![SendResult::Sent(12)]);
    world.reject = true;
    let mut outgoing = OutgoingData::new(ORDER);
    assert_eq!(world.run(&mut outgoing, 1), Err(Error::FeatureMismatch));
    assert_eq!(world.run(&mut outgoing, 1), Ok((FdRearm::Queue, false)));
    assert!(world.socket.is_empty());
}

#[test]
fn sending_needs_a_socket() {
    let mut outgoing = OutgoingData::new(ORDER);
    outgoing.process_outgoing(1, true, false);
    outgoing.chain_popped(true);
    assert!(matches!(outgoing.descriptor(Some(readable(12))), OutgoingAction::Translate { addr: 0x2000, len: 12 }));
    assert!(matches!(outgoing.translated(Ok(5)), OutgoingAction::ReadGuest { addr: 5, len: 12 }));
    outgoing.guest_read(Some(message(1, 5, &[])));
    outgoing.message_processed(Ok(()));
    assert!(matches!(outgoing.descriptor(None), OutgoingAction::Finish(Err(Error::FeatureMismatch))));
    assert!(matches!(outgoing.process_outgoing(1, true, true), OutgoingAction::Send));
    assert!(matches!(
        outgoing.send_attempted(SendResult::Failed(libc::EPIPE)),
        OutgoingAction::Finish(Err(Error::ReqHandlerError(IoCause::Errno(libc::EPIPE))))
    ));
}

#[test]
fn untranslated_address_is_reported() {
    let mut outgoing = OutgoingData::new(ORDER);
    outgoing.process_outgoing(1, true, true);
    outgoing.chain_popped(true);
    outgoing.descriptor(Some(readable(12)));
    assert!(matches!(
        outgoing.translated(Err(IoCause::Errno(22))),
        OutgoingAction::Finish(Err(Error::ReqHandlerError(IoCause::Errno(22))))
    ));
    assert!(outgoing.pending().is_empty());
}

#[test]
fn descriptor_to_wait_for_depends_on_the_direction() {
    let fds = Fds { queue_in: &1u32, queue_out: &2u32, socket: Some(&3u64) };
    assert!(extract_fd(Direction::Inbound, FdRearm::Neither, fds).is_none());
    for (direction, queue) in [(Direction::Inbound, 1), (Direction::Outbound, 2)] {
        match extract_fd(direction, FdRearm::Queue, fds) {
            Some((PolledFd::Queue(fd), way)) => assert_eq!((*fd, way), (queue, Direction::Inbound)),
            _ => panic!("no queue"),
        }
        match extract_fd(direction, FdRearm::Socket, fds) {
            Some((PolledFd::Socket(fd), way)) => assert_eq!((*fd, way), (3, direction)),
            _ => panic!("no socket"),
        }
        assert_eq!(polled_direction(direction, FdRearm::Neither), None);
        assert_eq!(polled_direction(direction, FdRearm::Queue), Some(Direction::Inbound));
        assert_eq!(polled_direction(direction, FdRearm::Socket), Some(direction));
    }
}

#[test]
fn socket_is_set_once() {
    let mut pair: VirtioVhostUserQueuePair<u32, u32, u64> = VirtioVhostUserQueuePair::new(ORDER, 1, 2, None);
    assert!(matches!(
        pair.process_incoming(false, 1),
        IncomingAction::Finish(Err(Error::BackendInternalError))
    ));
    assert_eq!(pair.set_socket(7), Ok(()));
    assert_eq!(pair.set_socket(8), Err(Error::InvalidMessage));
    assert_eq!(pair.fds().socket, Some(&7));
    assert_eq!((*pair.fds().queue_in, *pair.fds().queue_out), (1, 2));
    assert!(matches!(pair.process_incoming(false, 1), IncomingAction::Receive { max: 12 }));
    assert!(matches!(pair.process_outgoing(false, 1), OutgoingAction::PopChain));
}

fn frontend_pair() -> FrontendRequestQueuePair<u32, u32, u64, &'static str> {
    FrontendRequestQueuePair::new(ORDER, VirtioVhostUserQueuePair::new(ORDER, 1, 2, Some(3)), 4, "vm")
}

#[test]
fn refused_request_is_not_accepted_later() {
    let mut pair = frontend_pair();
    let msg = message(FrontendReq::GET_FEATURES.code(), 1, &[]);
    pair.process_f2b_requests(false, 5);
    pair.queue_pair.incoming.received(&msg, vec![77]);
    let refused = pair.request_received();
    assert!(matches!(refused, Err(Error::IncorrectFds)));
    pair.queue_pair.incoming.message_handled(refused.map(|_| ()));
    assert!(pair.queue_pair.incoming.message().is_empty());
    assert!(matches!(pair.process_f2b_requests(false, 5), IncomingAction::Receive { max: 12 }));
    assert_eq!(*pair.vm(), "vm");
}

#[test]
fn request_is_read_and_passed_on() {
    let mut pair = frontend_pair();
    let msg = message(FrontendReq::SET_BACKEND_REQ_FD.code(), 9, &[]);
    assert!(matches!(
        pair.process(false, Direction::Inbound, 5),
        PairAction::Inbound(IncomingAction::Receive { max: 12 })
    ));
    assert!(matches!(pair.queue_pair.incoming.received(&msg, vec![77]), IncomingAction::HandleMessage(_)));
    assert!(matches!(pair.request_received(), Ok(Plan::CheckSocket { file: 77 })));
    assert_eq!(pair.queue_pair.incoming.message(), msg);
    assert!(matches!(pair.queue_pair.incoming.message_handled(Ok(())), IncomingAction::PopChain));
}

#[test]
fn reply_is_checked_and_cut_down() {
    let mut pair = frontend_pair();
    assert!(matches!(
        pair.process(false, Direction::Outbound, 5),
        PairAction::Outbound(OutgoingAction::PopChain)
    ));
    pair.queue_pair.outgoing.chain_popped(true);
    pair.queue_pair.outgoing.descriptor(Some(readable(20)));
    let reply = message(FrontendReq::GET_PROTOCOL_FEATURES.code(), 5, &[0xff; 8]);
    pair.queue_pair.outgoing.guest_read(Some(reply));
    assert!(matches!(pair.reply_read(), OutgoingAction::NextDescriptor));
    assert!(matches!(pair.queue_pair.outgoing.descriptor(None), OutgoingAction::Send));
    let expected = message(FrontendReq::GET_PROTOCOL_FEATURES.code(), 5, &0x1_a2d7u64.to_le_bytes());
    assert_eq!(pair.queue_pair.outgoing.pending(), expected);
}

#[test]
fn bad_reply_is_dropped() {
    let mut pair = frontend_pair();
    pair.process_b2f_replies(false, 5);
    pair.queue_pair.outgoing.chain_popped(true);
    pair.queue_pair.outgoing.descriptor(Some(readable(12)));
    pair.queue_pair.outgoing.guest_read(Some(message(1, 1, &[])));
    assert!(matches!(pair.reply_read(), OutgoingAction::Finish(Err(Error::InvalidMessage))));
    assert!(pair.queue_pair.outgoing.pending().is_empty());
    match pair.polled_fd(Direction::Outbound, FdRearm::Socket) {
        Some((PolledFd::Socket(fd), way)) => assert_eq!((*fd, way), (3, Direction::Outbound)),
        _ => panic!("no socket"),
    }
    assert_eq!(*pair.fds().queue_in, 1);
    assert!(matches!(pair.process_f2b_requests(false, 0), IncomingAction::Finish(Ok((FdRearm::Neither, false)))));
}
