//! The virtio-vhost-guest device: a guest that waits for a vhost-user frontend.
//!
//! The guest says when it is ready, and the frontend says when it wants to
//! connect. The connection is accepted once both have.

use crate::byte_order::{law_bytes_are_digits, law_u32_bytes_are_unique, le16, le16_bytes, le32, le32_bytes, read_le16, ByteOrder};
use crate::event_loop::{
    classify_pair_event, interest_mask, pair_base, pair_event_code, pair_watches, pair_work,
    register_epoll_events, EventLoop, Interest, PairFd, PairSide, PairWatch, PAIR_EVENTS,
};
use crate::error::IoCause;
use crate::frontend_request::{FrontendRequestQueuePair, IoEventFds};
use crate::incoming::IncomingStage;
use crate::outgoing::OutgoingStage;
use crate::pair_handler::{HandlerAction, HandlerError, PairHandler};
use crate::queue_pair::{Direction, VirtioVhostUserQueuePair};
use crate::virtio_vhost_user::{MAX_QUEUES, NUM_QUEUES, QUEUE_SIZE, VIRTIO_F_VERSION_1};
use vstd::prelude::*;

verus! {

/// The status bit that says that the backend is ready.
pub const VHOST_GUEST_BACKEND_STATUS_UP: u16 = 1;

/// The event that tells of a frontend that wants to connect.
pub const INCOMING_CONNECTION_FROM_FRONTEND: u16 = 30;

/// The event that tells that the backend is ready.
pub const BACKEND_UP: u16 = 31;

/// The event that tells that the first queue was kicked.
pub const MIN_KICK_EVENT: u16 = 32;

/// The number of queues that can be kicked.
pub const KICK_EVENTS: u16 = 256;

/// The most bytes that a message may have.
pub const MAX_MESSAGE_SIZE: u32 = 1024;

/// A device backend as the rest of the machine knows it.
pub struct Backend {}

/// The configuration space of the device.
#[derive(Clone, Copy)]
pub struct VirtioVhostGuestConfig {
    /// The maximum number of vhost-user queues that are supported.
    pub max_queues: u32,
    /// The maximum vhost-user message size supported.
    pub max_message_size: u32,
    /// The maximum size of a message on a migration queue, or 0 if
    /// migration queues are not supported.
    pub max_migration_message_size: u32,
    /// The maximum number of chained Rx descriptors.
    pub max_chained_rx_descriptors: u16,
    /// The maximum number of chained Tx descriptors.
    pub max_chained_tx_descriptors: u16,
    /// The device ID.
    pub uuid: [u8; 16],
    /// The type of the implemented device.
    pub device_type: u16,
    /// Status bits.
    pub status: u16,
}

/// The length of the configuration space.
pub const CONFIG_SIZE: usize = 36;

/// Where the device type stands in the configuration space.
pub const DEVICE_TYPE_OFFSET: u64 = 32;

/// Where the status stands in the configuration space.
pub const STATUS_OFFSET: u64 = 34;

/// The bytes of a configuration: its fields one behind the other, the numbers with
/// their lowest byte first.
pub open spec fn config_layout(config: VirtioVhostGuestConfig, bytes: Seq<u8>) -> bool {
    &&& bytes.len() == CONFIG_SIZE
    &&& le32(bytes, 0) == config.max_queues
    &&& le32(bytes, 4) == config.max_message_size
    &&& le32(bytes, 8) == config.max_migration_message_size
    &&& le16(bytes, 12) == config.max_chained_rx_descriptors
    &&& le16(bytes, 14) == config.max_chained_tx_descriptors
    &&& bytes.subrange(16, 32) == config.uuid@
    &&& le16(bytes, 32) == config.device_type
    &&& le16(bytes, 34) == config.status
}

impl VirtioVhostGuestConfig {
    /// The configuration space as the guest sees it.
    pub fn as_bytes(&self) -> (bytes: Vec<u8>)
        ensures
            config_layout(*self, bytes@),
    {
        let mut bytes = le32_bytes(self.max_queues);
        let mut message_size = le32_bytes(self.max_message_size);
        let mut migration_size = le32_bytes(self.max_migration_message_size);
        let mut rx = le16_bytes(self.max_chained_rx_descriptors);
        let mut tx = le16_bytes(self.max_chained_tx_descriptors);
        let mut device_type = le16_bytes(self.device_type);
        let mut status = le16_bytes(self.status);
        let ghost (a, b, c) = (bytes@, message_size@, migration_size@);
        let ghost (d, e, f, g) = (rx@, tx@, device_type@, status@);
        bytes.append(&mut message_size);
        bytes.append(&mut migration_size);
        bytes.append(&mut rx);
        bytes.append(&mut tx);
        bytes.extend_from_slice(&self.uuid);
        bytes.append(&mut device_type);
        bytes.append(&mut status);
        assert(bytes@ =~= a + b + c + d + e + self.uuid@ + f + g);
        assert(bytes@.subrange(16, 32) =~= self.uuid@);
        bytes
    }
}

/// What a device is restored from.
#[derive(Clone, Copy)]
pub struct VirtioVhostGuestState {
    pub avail_features: u64,
    pub acked_features: u64,
    pub config: VirtioVhostGuestConfig,
}

/// A device that asks for more queues than there can be.
#[derive(Clone, Copy, Debug, PartialEq, Eq, Structural)]
pub struct TooManyQueues {
    pub max_queues: u32,
}

/// A virtio-vhost-guest device.
pub struct VhostGuest<E> {
    /// The number of the device's type.
    pub device_type: u32,
    pub avail_features: u64,
    pub acked_features: u64,
    pub queue_sizes: Vec<u16>,
    pub min_queues: u16,
    /// The device was restored, and waits to go on.
    pub paused: bool,
    pub config: VirtioVhostGuestConfig,
    pub max_queues: u8,
    pub ioeventfds: IoEventFds<E>,
    /// The device was activated, which can be done once.
    pub activated: bool,
}

/// A new configuration.
pub open spec fn fresh_config(max_queues: u32, uuid: [u8; 16], device_type: u16) -> VirtioVhostGuestConfig {
    VirtioVhostGuestConfig {
        max_queues,
        max_message_size: MAX_MESSAGE_SIZE,
        max_migration_message_size: 0,
        max_chained_rx_descriptors: 1,
        max_chained_tx_descriptors: 1,
        uuid,
        device_type,
        status: 0,
    }
}

/// The guest sets the device type, which counts only if there is none yet.
pub open spec fn with_device_type(config: VirtioVhostGuestConfig, device_type: u16) -> VirtioVhostGuestConfig {
    if config.device_type == 0 {
        VirtioVhostGuestConfig { device_type, ..config }
    } else {
        config
    }
}

/// The guest sets a status bit, of which there is one.
pub open spec fn with_status(config: VirtioVhostGuestConfig, status: u16) -> VirtioVhostGuestConfig {
    if status == VHOST_GUEST_BACKEND_STATUS_UP {
        VirtioVhostGuestConfig { status: config.status | VHOST_GUEST_BACKEND_STATUS_UP, ..config }
    } else {
        config
    }
}

/// What the guest changes by writing to the configuration space: the device type,
/// the status, or both at once.
pub open spec fn config_written(config: VirtioVhostGuestConfig, offset: u64, data: Seq<u8>) -> VirtioVhostGuestConfig {
    if offset == DEVICE_TYPE_OFFSET && data.len() == 4 {
        with_status(with_device_type(config, le16(data, 0) as u16), le16(data, 2) as u16)
    } else if offset == DEVICE_TYPE_OFFSET && data.len() == 2 {
        with_device_type(config, le16(data, 0) as u16)
    } else if offset == STATUS_OFFSET && data.len() == 2 {
        with_status(config, le16(data, 0) as u16)
    } else {
        config
    }
}

/// The queues of the device by what they are for. A pair has its queue to the guest
/// first, and its queue from the guest second.
pub struct DeviceQueues<Q> {
    pub frontend_requests: (Q, Q),
    pub backend_requests: (Q, Q),
}

impl<E> VhostGuest<E> {
    /// The device has entries for all its signals.
    pub open spec fn wf(&self) -> bool {
        self.ioeventfds.wf(self.max_queues)
    }

    /// Makes a device, or restores one, unless it asks for too many queues.
    pub fn new(
        type_number: u32,
        state: Option<VirtioVhostGuestState>,
        max_queues: u32,
        uuid: [u8; 16],
        device_type: u16,
    ) -> (device: Result<VhostGuest<E>, TooManyQueues>)
        ensures
            device is Err <==> max_queues > MAX_QUEUES,
            device matches Err(e) ==> e.max_queues == max_queues,
            device matches Ok(d) ==> {
                &&& d.wf()
                &&& d.device_type == type_number
                &&& d.queue_sizes@ == Seq::new(NUM_QUEUES as nat, |i: int| QUEUE_SIZE)
                &&& d.min_queues == NUM_QUEUES
                &&& d.max_queues == max_queues
                &&& d.ioeventfds.offset == 0
                &&& d.ioeventfds.fds@ == Seq::new((2 * max_queues + 1) as nat, |i: int| None::<E>)
                &&& d.paused == (state is Some)
                &&& !d.activated
                &&& (state matches Some(s) ==> {
                    &&& d.avail_features == s.avail_features
                    &&& d.acked_features == s.acked_features
                    &&& d.config == s.config
                })
                &&& (state is None ==> {
                    &&& d.avail_features == 0x1_0000_0000
                    &&& d.acked_features == 0
                    &&& d.config == fresh_config(max_queues, uuid, device_type)
                })
            },
    {
        if max_queues > MAX_QUEUES {
            return Err(TooManyQueues { max_queues });
        }
        let mut queue_sizes: Vec<u16> = Vec::new();
        queue_sizes.resize(NUM_QUEUES, QUEUE_SIZE);
        assert(queue_sizes@ =~= Seq::new(NUM_QUEUES as nat, |i: int| QUEUE_SIZE));
        let ioeventfds = IoEventFds::new(max_queues as u8);
        assert(1u64 << 32u32 == 0x1_0000_0000u64) by (bit_vector);
        let (avail_features, acked_features, config, paused) = match state {
            Some(state) => (state.avail_features, state.acked_features, state.config, true),
            None => {
                let config = VirtioVhostGuestConfig {
                    max_queues,
                    max_message_size: MAX_MESSAGE_SIZE,
                    max_migration_message_size: 0,
                    max_chained_rx_descriptors: 1,
                    max_chained_tx_descriptors: 1,
                    uuid,
                    device_type,
                    status: 0,
                };
                (1u64 << VIRTIO_F_VERSION_1, 0u64, config, false)
            },
        };
        Ok(
            VhostGuest {
                device_type: type_number,
                avail_features,
                acked_features,
                queue_sizes,
                min_queues: NUM_QUEUES as u16,
                paused,
                config,
                max_queues: max_queues as u8,
                ioeventfds,
                activated: false,
            },
        )
    }

    /// The number of the device's type.
    pub fn device_type(&self) -> (device_type: u32)
        ensures
            device_type == self.device_type,
    {
        self.device_type
    }

    /// The largest size of each queue.
    pub fn queue_max_sizes(&self) -> (sizes: &[u16])
        ensures
            sizes@ == self.queue_sizes@,
    {
        self.queue_sizes.as_slice()
    }

    /// The features that the guest may ask for.
    pub fn features(&self) -> (features: u64)
        ensures
            features == self.avail_features,
    {
        self.avail_features
    }

    /// The configuration space as the guest sees it.
    pub fn config_bytes(&self) -> (bytes: Vec<u8>)
        ensures
            config_layout(self.config, bytes@),
    {
        self.config.as_bytes()
    }

    /// The guest sets the device type.
    pub fn set_device_type(&mut self, device_type: u16)
        ensures
            *final(self) == (VhostGuest { config: with_device_type(old(self).config, device_type), ..*old(self) }),
    {
        if self.config.device_type == 0 {
            self.config.device_type = device_type;
        }
    }

    /// The guest sets a status bit.
    pub fn set_status(&mut self, status: u16)
        ensures
            *final(self) == (VhostGuest { config: with_status(old(self).config, status), ..*old(self) }),
    {
        if status == VHOST_GUEST_BACKEND_STATUS_UP {
            self.config.status = self.config.status | VHOST_GUEST_BACKEND_STATUS_UP;
        }
    }

    /// The guest writes to the configuration space. Other writes than those of the
    /// device type and the status have no effect.
    pub fn write_config(&mut self, offset: u64, data: &[u8])
        ensures
            *final(self) == (VhostGuest { config: config_written(old(self).config, offset, data@), ..*old(self) }),
    {
        if offset == DEVICE_TYPE_OFFSET {
            if data.len() == 4 {
                self.set_device_type(read_le16(data, 0));
                self.set_status(read_le16(data, 2));
            } else if data.len() == 2 {
                self.set_device_type(read_le16(data, 0));
            }
        } else if offset == STATUS_OFFSET && data.len() == 2 {
            self.set_status(read_le16(data, 0));
        }
    }

    /// Puts the queues together, and starts to handle events. `last` is the last
    /// event number that is taken. This can be done once.
    pub fn activate<F, S, Q>(&mut self, order: ByteOrder, last: u16, queues: Vec<(Q, E)>) -> (activated: (
        VhostGuestEpollHandler<F, E, S>,
        DeviceQueues<Q>,
    ))
        requires
            !old(self).activated,
            queues@.len() >= 4,
            last + 2 * PAIR_EVENTS <= u16::MAX,
        ensures
            *final(self) == (VhostGuest { activated: true, ..*old(self) }),
            activated.0.wf(),
            activated.0.is_idle(),
            activated.0.pairs.last == last,
            !activated.0.pairs.needs_reset,
            !activated.0.seen_listener,
            !activated.0.seen_accept,
            activated.0.pairs.backend_socket is None,
            activated.0.pairs.frontend_requests.vm.fds@ == Seq::new(KICK_EVENTS as nat, |i: int| None::<E>),
            ({
                let pair = activated.0.pairs.frontend_requests;
                &&& pair.internals.order == order
                &&& pair.internals.queues == old(self).max_queues
                &&& !pair.internals.seen_log_mapping
                &&& !pair.internals.seen_backend_req_socket
                &&& pair.queue_pair.front2back_queue_evt == queues@[0].1
                &&& pair.queue_pair.back2front_queue_evt == queues@[1].1
                &&& pair.queue_pair.socket is None
                &&& pair.queue_pair.incoming@.order == order
                &&& pair.queue_pair.incoming@.data == Seq::<u8>::empty()
                &&& pair.queue_pair.incoming@.files == Seq::<F>::empty()
                &&& !pair.queue_pair.incoming@.handled
                &&& pair.queue_pair.incoming@.stage == IncomingStage::Idle
                &&& pair.queue_pair.outgoing@.order == order
                &&& pair.queue_pair.outgoing@.buf == Seq::<u8>::empty()
                &&& pair.queue_pair.outgoing@.stage == OutgoingStage::Idle
            }),
            ({
                let pair = activated.0.pairs.backend_requests;
                &&& pair.front2back_queue_evt == queues@[2].1
                &&& pair.back2front_queue_evt == queues@[3].1
                &&& pair.socket is None
                &&& pair.incoming@.order == order
                &&& pair.incoming@.data == Seq::<u8>::empty()
                &&& pair.incoming@.files == Seq::<F>::empty()
                &&& !pair.incoming@.handled
                &&& pair.incoming@.stage == IncomingStage::Idle
                &&& pair.outgoing@.order == order
                &&& pair.outgoing@.buf == Seq::<u8>::empty()
                &&& pair.outgoing@.stage == OutgoingStage::Idle
            }),
            activated.1 == (DeviceQueues {
                frontend_requests: (queues@[0].0, queues@[1].0),
                backend_requests: (queues@[2].0, queues@[3].0),
            }),
    {
        self.activated = true;
        let mut queues = queues;
        let (frontend_request_queue, frontend_request_queue_evt) = queues.remove(0);
        let (backend_reply_queue, backend_reply_queue_evt) = queues.remove(0);
        let (frontend_reply_queue, frontend_reply_queue_evt) = queues.remove(0);
        let (backend_request_queue, backend_request_queue_evt) = queues.remove(0);
        let queue_pair = VirtioVhostUserQueuePair::new(
            order,
            frontend_request_queue_evt,
            backend_reply_queue_evt,
            None,
        );
        let backend_requests = VirtioVhostUserQueuePair::new(
            order,
            frontend_reply_queue_evt,
            backend_request_queue_evt,
            None,
        );
        let handler = VhostGuestEpollHandler {
            pairs: PairHandler {
                frontend_requests: FrontendRequestQueuePair::new(order, queue_pair, self.max_queues, InternalVM::new()),
                backend_requests,
                last,
                needs_reset: false,
                run: None,
                backend_socket: None,
                new_socket: None,
            },
            seen_listener: false,
            seen_accept: false,
            accepted: None,
            stage: GuestStage::Idle,
        };
        let device_queues = DeviceQueues {
            frontend_requests: (frontend_request_queue, backend_reply_queue),
            backend_requests: (frontend_reply_queue, backend_request_queue),
        };
        (handler, device_queues)
    }
}

/// The descriptors through which the frontend kicks queues.
pub struct InternalVM<E> {
    pub fds: Vec<Option<E>>,
}

/// How a descriptor is watched.
#[derive(Clone, Copy, Debug, PartialEq, Eq, Structural)]
pub struct GuestWatch {
    pub events: u32,
    pub data: u64,
}

/// How the descriptor is watched through which a queue is kicked.
pub open spec fn kick_watch(queue: u8) -> GuestWatch {
    GuestWatch { events: interest_mask(Interest::ReadableOrClosed), data: (queue + MIN_KICK_EVENT) as u64 }
}

/// A change of the descriptor through which a queue is kicked: the old one is no
/// longer watched, then the new one is.
pub struct KickChange<E> {
    pub remove: Option<E>,
    pub add: Option<(E, GuestWatch)>,
}

/// The table once the descriptor of a queue was taken out.
pub open spec fn without_kick<E>(fds: Seq<Option<E>>, queue: u8) -> Seq<Option<E>> {
    fds.update(queue as int, None)
}

/// The table once the descriptor of a queue was put in.
pub open spec fn with_kick<E>(fds: Seq<Option<E>>, queue: u8, fd: E) -> Seq<Option<E>> {
    fds.update(queue as int, Some(fd))
}

/// The descriptors in a table, without its gaps.
pub open spec fn present<E>(fds: Seq<Option<E>>) -> Seq<E>
    decreases fds.len(),
{
    if fds.len() == 0 {
        Seq::empty()
    } else {
        match fds.last() {
            Some(fd) => present(fds.drop_last()).push(fd),
            None => present(fds.drop_last()),
        }
    }
}

impl<E> InternalVM<E> {
    /// There is an entry for each queue that can be kicked.
    pub open spec fn wf(&self) -> bool {
        self.fds@.len() == KICK_EVENTS
    }

    /// No queue is kicked.
    pub fn new() -> (vm: InternalVM<E>)
        ensures
            vm.wf(),
            vm.fds@ == Seq::new(KICK_EVENTS as nat, |i: int| None::<E>),
    {
        let mut fds: Vec<Option<E>> = Vec::new();
        while fds.len() < KICK_EVENTS as usize
            invariant
                fds@.len() <= KICK_EVENTS,
                fds@ == Seq::new(fds@.len(), |i: int| None::<E>),
            decreases KICK_EVENTS - fds@.len(),
        {
            fds.push(None);
            assert(fds@ =~= Seq::new(fds@.len(), |i: int| None::<E>));
        }
        InternalVM { fds }
    }

    /// Takes out the descriptor through which a queue was kicked, and says how the new
    /// one, if there is one, has to be watched.
    pub fn register_vring_kick(&mut self, fd: Option<E>, queue: u8) -> (change: KickChange<E>)
        requires
            old(self).wf(),
        ensures
            final(self).wf(),
            final(self).fds@ == without_kick(old(self).fds@, queue),
            change.remove == old(self).fds@[queue as int],
            change.add == (match fd {
                Some(fd) => Some((fd, kick_watch(queue))),
                None => None,
            }),
    {
        let mut remove: Option<E> = None;
        core::mem::swap(&mut self.fds[queue as usize], &mut remove);
        let add = match fd {
            Some(fd) => {
                let watch = GuestWatch {
                    events: Interest::ReadableOrClosed.mask(),
                    data: queue as u64 + MIN_KICK_EVENT as u64,
                };
                Some((fd, watch))
            },
            None => None,
        };
        KickChange { remove, add }
    }

    /// Keeps the new descriptor, once it is watched.
    pub fn kick_watched(&mut self, fd: E, queue: u8)
        requires
            old(self).wf(),
        ensures
            final(self).wf(),
            final(self).fds@ == with_kick(old(self).fds@, queue, fd),
    {
        let mut entry = Some(fd);
        core::mem::swap(&mut self.fds[queue as usize], &mut entry);
    }

    /// Takes out all descriptors, for them to be watched no longer.
    pub fn drain(&mut self) -> (fds: Vec<E>)
        requires
            old(self).wf(),
        ensures
            final(self).wf(),
            fds@ == present(old(self).fds@),
            final(self).fds@ == Seq::new(KICK_EVENTS as nat, |i: int| None::<E>),
    {
        let mut fds: Vec<E> = Vec::new();
        let mut index: usize = 0;
        let ghost before = self.fds@;
        while index < KICK_EVENTS as usize
            invariant
                index <= KICK_EVENTS,
                before.len() == KICK_EVENTS,
                self.fds@.len() == KICK_EVENTS,
                fds@ == present(before.take(index as int)),
                forall|i: int| 0 <= i < index ==> self.fds@[i] is None,
                forall|i: int| index <= i < KICK_EVENTS ==> self.fds@[i] == before[i],
            decreases KICK_EVENTS - index,
        {
            let mut entry: Option<E> = None;
            core::mem::swap(&mut self.fds[index], &mut entry);
            assert(before.take(index + 1).drop_last() =~= before.take(index as int));
            if let Some(fd) = entry {
                fds.push(fd);
            }
            index = index + 1;
        }
        assert(before.take(KICK_EVENTS as int) =~= before);
        assert(self.fds@ =~= Seq::new(KICK_EVENTS as nat, |i: int| None::<E>));
        fds
    }
}

/// What has to be done next.
#[derive(Debug, PartialEq, Eq)]
pub enum GuestAction {
    /// What the queue pairs call for.
    Pair(HandlerAction),
    /// Accept the connection of the frontend.
    Accept,
    /// Watch the socket of the frontend; this is the number of its first event.
    RegisterFrontend { first: u16 },
    /// Wait for a connection again.
    Rearm { events: u32, id: u16 },
    /// Take the kick off the descriptor of a queue.
    DrainKick { queue: u16 },
    /// Tell the guest's driver that a queue was kicked.
    TriggerDriver { queue: u16 },
    /// Nothing more to do now.
    Finish(Result<(), HandlerError>),
}

/// Which outcome is awaited, apart from those of the queue pairs.
#[derive(Clone, Copy, Debug, PartialEq, Eq, Structural)]
pub enum GuestStage {
    Idle,
    Accepting,
    Registering,
    Rearming,
    Draining { queue: u16 },
    Triggering,
}

/// What came of an attempt to accept a connection.
pub enum Accepted<S> {
    Connection(S),
    WouldBlock,
    Failed,
}

/// How the descriptors of the device are watched from the start.
pub struct GuestWatches {
    pub backend_up: GuestWatch,
    pub incoming_connection: GuestWatch,
    pub frontend: Vec<PairWatch>,
    pub backend: Vec<PairWatch>,
}

/// What handles the device's events.
pub struct VhostGuestEpollHandler<F, E, S> {
    pub pairs: PairHandler<F, E, S, InternalVM<E>>,
    /// The frontend wants to connect.
    pub seen_listener: bool,
    /// The backend is ready.
    pub seen_accept: bool,
    /// The socket of the frontend that is about to be watched.
    pub accepted: Option<S>,
    pub stage: GuestStage,
}

/// An event that tells that a queue was kicked.
pub open spec fn is_kick(event: u16) -> bool {
    MIN_KICK_EVENT <= event < MIN_KICK_EVENT + KICK_EVENTS
}

impl<F, E, S> VhostGuestEpollHandler<F, E, S> {
    /// The queue pairs are in order; while a connection or a kick is dealt with they
    /// rest, and a socket is about to be watched only when it is its turn.
    pub open spec fn wf(&self) -> bool {
        &&& self.pairs.wf()
        &&& self.pairs.frontend_requests.vm.wf()
        &&& self.stage != GuestStage::Idle ==> self.pairs.is_idle()
        &&& self.stage == GuestStage::Registering <==> self.accepted is Some
        &&& self.stage == GuestStage::Registering ==> self.pairs.frontend_requests.queue_pair.socket is None
    }

    /// No event is being handled.
    pub open spec fn is_idle(&self) -> bool {
        self.pairs.is_idle() && self.stage == GuestStage::Idle
    }

    /// Gives up. From now on the device has to be reset.
    pub open spec fn failed(self, e: HandlerError) -> (VhostGuestEpollHandler<F, E, S>, GuestAction) {
        let (pairs, action) = self.pairs.failed(e);
        (
            VhostGuestEpollHandler { pairs, stage: GuestStage::Idle, accepted: None, ..self },
            GuestAction::Pair(action),
        )
    }

    /// Goes to a stage, with what has to be done there.
    pub open spec fn enter(self, stage: GuestStage, action: GuestAction) -> (VhostGuestEpollHandler<F, E, S>, GuestAction) {
        (VhostGuestEpollHandler { stage, ..self }, action)
    }

    /// Accepts a connection once the frontend wants it and the backend is ready.
    pub open spec fn checks_accept(self) -> (VhostGuestEpollHandler<F, E, S>, GuestAction) {
        if self.seen_listener && self.seen_accept {
            self.enter(GuestStage::Accepting, GuestAction::Accept)
        } else {
            (self, GuestAction::Finish(Ok(())))
        }
    }

    /// What an event leads to.
    pub open spec fn on_event(self, event: u16) -> (VhostGuestEpollHandler<F, E, S>, GuestAction) {
        if event == INCOMING_CONNECTION_FROM_FRONTEND {
            (VhostGuestEpollHandler { seen_listener: true, ..self }).checks_accept()
        } else if event == BACKEND_UP {
            (VhostGuestEpollHandler { seen_accept: true, ..self }).checks_accept()
        } else {
            match pair_work(self.pairs.last, event) {
                Some(work) => {
                    let (pairs, action) = self.pairs.goes_on(EventLoop::started(event, work));
                    (VhostGuestEpollHandler { pairs, ..self }, GuestAction::Pair(action))
                },
                None => if is_kick(event) {
                    let queue = (event - MIN_KICK_EVENT) as u16;
                    self.enter(GuestStage::Draining { queue }, GuestAction::DrainKick { queue })
                } else {
                    (self, GuestAction::Finish(Err(HandlerError::UnknownEvent)))
                },
            }
        }
    }

    /// What an event leads to, unless an earlier one has failed. The event's number
    /// is in the lowest 16 bits. An event that fails marks the device.
    pub open spec fn on_epoll_event(self, data: u64) -> (VhostGuestEpollHandler<F, E, S>, GuestAction) {
        if self.pairs.needs_reset {
            (self, GuestAction::Finish(Err(HandlerError::NeedsReset)))
        } else {
            let (after, action) = self.on_event((data % 0x1_0000) as u16);
            if action matches GuestAction::Finish(Err(_)) {
                (VhostGuestEpollHandler { pairs: PairHandler { needs_reset: true, ..after.pairs }, ..after }, action)
            } else {
                (after, action)
            }
        }
    }

    /// An event that can come in the present state: a queue is kicked only through a
    /// descriptor that is there.
    pub open spec fn can_come(&self, event: u16) -> bool {
        is_kick(event) && pair_work(self.pairs.last, event) is None ==> self.pairs.frontend_requests.vm.fds@[event - MIN_KICK_EVENT] is Some
    }

    /// Says how the device's descriptors are watched from the start.
    pub fn watches(&self) -> (watches: GuestWatches)
        requires
            self.wf(),
        ensures
            watches.backend_up == (GuestWatch {
                events: interest_mask(Interest::ReadableOnce),
                data: BACKEND_UP as u64,
            }),
            watches.incoming_connection == (GuestWatch {
                events: interest_mask(Interest::ReadableOnce),
                data: INCOMING_CONNECTION_FROM_FRONTEND as u64,
            }),
            watches.frontend@ == pair_watches(
                pair_event_code(self.pairs.last, PairSide::Frontend, PairFd::QueueIn) as u16,
                self.pairs.frontend_requests.queue_pair.socket is Some,
            ),
            watches.backend@ == pair_watches(
                pair_event_code(self.pairs.last, PairSide::Backend, PairFd::QueueIn) as u16,
                self.pairs.backend_requests.socket is Some,
            ),
    {
        let once: u32 = Interest::ReadableOnce.mask();
        GuestWatches {
            backend_up: GuestWatch { events: once, data: BACKEND_UP as u64 },
            incoming_connection: GuestWatch { events: once, data: INCOMING_CONNECTION_FROM_FRONTEND as u64 },
            frontend: register_epoll_events(
                pair_base(self.pairs.last, PairSide::Frontend),
                self.pairs.frontend_requests.queue_pair.socket.is_some(),
            ),
            backend: register_epoll_events(
                pair_base(self.pairs.last, PairSide::Backend),
                self.pairs.backend_requests.socket.is_some(),
            ),
        }
    }

    fn fail(&mut self, e: HandlerError) -> (action: GuestAction)
        requires
            old(self).wf(),
        ensures
            final(self).wf(),
            final(self).is_idle(),
            (*final(self), action) == old(self).failed(e),
    {
        self.stage = GuestStage::Idle;
        self.accepted = None;
        GuestAction::Pair(self.pairs.fail(e))
    }

    fn check_accept(&mut self) -> (action: GuestAction)
        requires
            old(self).wf(),
            old(self).is_idle(),
        ensures
            final(self).wf(),
            (*final(self), action) == old(self).checks_accept(),
    {
        if self.seen_listener && self.seen_accept {
            self.stage = GuestStage::Accepting;
            GuestAction::Accept
        } else {
            GuestAction::Finish(Ok(()))
        }
    }

    /// An event came. Once one has failed, no more are handled.
    pub fn handle_event(&mut self, data: u64) -> (action: GuestAction)
        requires
            old(self).wf(),
            old(self).is_idle(),
            old(self).pairs.needs_reset || old(self).can_come((data % 0x1_0000) as u16),
        ensures
            final(self).wf(),
            (*final(self), action) == old(self).on_epoll_event(data),
    {
        if self.pairs.needs_reset {
            return GuestAction::Finish(Err(HandlerError::NeedsReset));
        }
        let action = self.process_event((data % 0x1_0000) as u16);
        if let GuestAction::Finish(Err(_)) = &action {
            self.pairs.needs_reset = true;
        }
        action
    }

    /// Starts to handle an event.
    fn process_event(&mut self, event: u16) -> (action: GuestAction)
        requires
            old(self).wf(),
            old(self).is_idle(),
            old(self).can_come(event),
        ensures
            final(self).wf(),
            (*final(self), action) == old(self).on_event(event),
    {
        if event == INCOMING_CONNECTION_FROM_FRONTEND {
            self.seen_listener = true;
            return self.check_accept();
        }
        if event == BACKEND_UP {
            self.seen_accept = true;
            return self.check_accept();
        }
        if let Some(work) = classify_pair_event(self.pairs.last, event) {
            return GuestAction::Pair(self.pairs.start(event, work));
        }
        if event >= MIN_KICK_EVENT && event - MIN_KICK_EVENT < KICK_EVENTS {
            let queue: u16 = event - MIN_KICK_EVENT;
            self.stage = GuestStage::Draining { queue };
            return GuestAction::DrainKick { queue };
        }
        GuestAction::Finish(Err(HandlerError::UnknownEvent))
    }

    /// A connection was accepted, or not. There can be one. Without one it is waited
    /// for again. Where accepting fails the device has to be reset, but the event
    /// counts as handled.
    pub fn accept_attempted(&mut self, outcome: Accepted<S>) -> (action: GuestAction)
        requires
            old(self).wf(),
            old(self).stage == GuestStage::Accepting,
            outcome is Connection ==> old(self).pairs.frontend_requests.queue_pair.socket is None,
        ensures
            final(self).wf(),
            (*final(self), action) == (match outcome {
                Accepted::Connection(socket) => (VhostGuestEpollHandler {
                    accepted: Some(socket),
                    ..*old(self)
                }).enter(
                    GuestStage::Registering,
                    GuestAction::RegisterFrontend {
                        first: pair_event_code(old(self).pairs.last, PairSide::Frontend, PairFd::SocketIn) as u16,
                    },
                ),
                Accepted::WouldBlock => old(self).enter(
                    GuestStage::Rearming,
                    GuestAction::Rearm {
                        events: interest_mask(Interest::ReadableOnce),
                        id: INCOMING_CONNECTION_FROM_FRONTEND,
                    },
                ),
                Accepted::Failed => (
                    VhostGuestEpollHandler {
                        pairs: PairHandler { needs_reset: true, ..old(self).pairs },
                        stage: GuestStage::Idle,
                        ..*old(self)
                    },
                    GuestAction::Finish(Ok(())),
                ),
            }),
    {
        match outcome {
            Accepted::Connection(socket) => {
                self.accepted = Some(socket);
                self.stage = GuestStage::Registering;
                GuestAction::RegisterFrontend { first: pair_base(self.pairs.last, PairSide::Frontend) + 2 }
            },
            Accepted::WouldBlock => {
                self.stage = GuestStage::Rearming;
                GuestAction::Rearm {
                    events: Interest::ReadableOnce.mask(),
                    id: INCOMING_CONNECTION_FROM_FRONTEND,
                }
            },
            Accepted::Failed => {
                self.pairs.needs_reset = true;
                self.stage = GuestStage::Idle;
                GuestAction::Finish(Ok(()))
            },
        }
    }

    /// The socket of the frontend is watched, or could not be.
    pub fn frontend_registered(&mut self, result: Result<(), IoCause>) -> (action: GuestAction)
        requires
            old(self).wf(),
            old(self).stage == GuestStage::Registering,
        ensures
            final(self).wf(),
            match result {
                Err(cause) => (*final(self), action) == old(self).failed(HandlerError::Register(cause)),
                Ok(_) => {
                    let pairs = old(self).pairs;
                    let requests = pairs.frontend_requests;
                    &&& action == GuestAction::Finish(Ok(()))
                    &&& *final(self) == (VhostGuestEpollHandler {
                        pairs: PairHandler {
                            frontend_requests: FrontendRequestQueuePair {
                                queue_pair: VirtioVhostUserQueuePair {
                                    socket: old(self).accepted,
                                    ..requests.queue_pair
                                },
                                ..requests
                            },
                            ..pairs
                        },
                        accepted: None::<S>,
                        stage: GuestStage::Idle,
                        ..*old(self)
                    })
                },
            },
    {
        if let Err(cause) = result {
            return self.fail(HandlerError::Register(cause));
        }
        self.stage = GuestStage::Idle;
        if let Some(socket) = self.accepted.take() {
            let _ = self.pairs.frontend_requests.queue_pair.set_socket(socket);
        }
        GuestAction::Finish(Ok(()))
    }

    /// A connection is waited for again, or could not be.
    pub fn rearmed(&mut self, result: Result<(), IoCause>) -> (action: GuestAction)
        requires
            old(self).wf(),
            old(self).stage == GuestStage::Rearming,
        ensures
            final(self).wf(),
            (*final(self), action) == (match result {
                Err(cause) => old(self).failed(HandlerError::Register(cause)),
                Ok(_) => old(self).enter(GuestStage::Idle, GuestAction::Finish(Ok(()))),
            }),
    {
        if let Err(cause) = result {
            return self.fail(HandlerError::Register(cause));
        }
        self.stage = GuestStage::Idle;
        GuestAction::Finish(Ok(()))
    }

    /// The kick was taken off the descriptor, if there was one left.
    pub fn kick_drained(&mut self) -> (action: GuestAction)
        requires
            old(self).wf(),
            old(self).stage is Draining,
        ensures
            final(self).wf(),
            (*final(self), action) == old(self).enter(
                GuestStage::Triggering,
                GuestAction::TriggerDriver { queue: old(self).stage->queue },
            ),
    {
        let queue: u16 = match self.stage {
            GuestStage::Draining { queue } => queue,
            _ => 0,
        };
        self.stage = GuestStage::Triggering;
        GuestAction::TriggerDriver { queue }
    }

    /// The guest's driver was told, or could not be.
    pub fn driver_triggered(&mut self, result: Result<(), IoCause>) -> (action: GuestAction)
        requires
            old(self).wf(),
            old(self).stage == GuestStage::Triggering,
        ensures
            final(self).wf(),
            (*final(self), action) == (match result {
                Err(cause) => old(self).failed(HandlerError::Trigger(cause)),
                Ok(_) => {
                    let (pairs, next) = old(self).pairs.takes_socket();
                    (
                        VhostGuestEpollHandler { pairs, stage: GuestStage::Idle, ..*old(self) },
                        GuestAction::Pair(next),
                    )
                },
            }),
    {
        if let Err(cause) = result {
            return self.fail(HandlerError::Trigger(cause));
        }
        self.stage = GuestStage::Idle;
        GuestAction::Pair(self.pairs.adopt_socket())
    }
}

/// A configuration has one form only in bytes.
pub proof fn law_config_bytes_are_unique(config: VirtioVhostGuestConfig, a: Seq<u8>, b: Seq<u8>)
    requires
        config_layout(config, a),
        config_layout(config, b),
    ensures
        a == b,
{
    law_u32_bytes_are_unique(ByteOrder::Little, a, b, 0);
    law_u32_bytes_are_unique(ByteOrder::Little, a, b, 4);
    law_u32_bytes_are_unique(ByteOrder::Little, a, b, 8);
    assert forall|i: int| 0 <= i < CONFIG_SIZE implies a[i] == b[i] by {
        if 12 <= i < 16 || 32 <= i {
            assert(a[12] == b[12] && a[13] == b[13] && a[14] == b[14] && a[15] == b[15]);
            assert(a[32] == b[32] && a[33] == b[33] && a[34] == b[34] && a[35] == b[35]);
        } else if 16 <= i < 32 {
            assert(a.subrange(16, 32)[i - 16] == b.subrange(16, 32)[i - 16]);
        }
    }
    assert(a =~= b);
}

/// Once there is a device type, no write of the guest changes it.
pub proof fn law_device_type_is_settled_once(config: VirtioVhostGuestConfig, offset: u64, data: Seq<u8>)
    requires
        config.device_type != 0,
    ensures
        config_written(config, offset, data).device_type == config.device_type,
{
}

/// No write of the guest clears a status bit, and none changes anything but the
/// device type and the status.
pub proof fn law_status_bits_stay(config: VirtioVhostGuestConfig, offset: u64, data: Seq<u8>)
    ensures
        ({
            let written = config_written(config, offset, data);
            &&& written.status & config.status == config.status
            &&& written.status == config.status || written.status == config.status | VHOST_GUEST_BACKEND_STATUS_UP
            &&& written == (VirtioVhostGuestConfig {
                device_type: written.device_type,
                status: written.status,
                ..config
            })
        }),
{
    let status = config.status;
    assert((status | 1u16) & status == status && status & status == status) by (bit_vector);
}

/// The guest reads back that it is ready once it has said so, and the device type
/// that it was the first to write.
pub proof fn law_writes_read_back(config: VirtioVhostGuestConfig, data: Seq<u8>, bytes: Seq<u8>)
    requires
        data.len() == 4,
        le16(data, 2) == VHOST_GUEST_BACKEND_STATUS_UP,
        config_layout(config_written(config, DEVICE_TYPE_OFFSET, data), bytes),
    ensures
        le16(bytes, 34) % 2 == 1,
        config.device_type == 0 ==> le16(bytes, 32) == le16(data, 0),
{
    let status = config.status;
    assert((status | 1u16) % 2 == 1) by (bit_vector);
}

/// The frontend is let in once it has asked and the backend is ready, in whichever
/// order that happens, and not before.
pub proof fn law_connection_needs_both<F, E, S>(handler: VhostGuestEpollHandler<F, E, S>)
    requires
        !handler.seen_listener,
        !handler.seen_accept,
    ensures
        ({
            let (asked, first) = handler.on_event(INCOMING_CONNECTION_FROM_FRONTEND);
            let (ready, other_first) = handler.on_event(BACKEND_UP);
            &&& first == GuestAction::Finish(Ok(()))
            &&& other_first == GuestAction::Finish(Ok(()))
            &&& asked.on_event(BACKEND_UP).1 == GuestAction::Accept
            &&& ready.on_event(INCOMING_CONNECTION_FROM_FRONTEND) == asked.on_event(BACKEND_UP)
        }),
{
}

/// A kick comes back as the event that its descriptor is watched for, as long as the
/// numbers of the queue pairs' events are below.
pub proof fn law_kicks_come_back<F, E, S>(handler: VhostGuestEpollHandler<F, E, S>, queue: u8)
    requires
        handler.pairs.last + 2 * PAIR_EVENTS < MIN_KICK_EVENT,
        !handler.pairs.needs_reset,
    ensures
        handler.on_epoll_event(kick_watch(queue).data).1 == (GuestAction::DrainKick { queue: queue as u16 }),
{
}

/// A new descriptor takes the place of the one that its queue was kicked through,
/// and no other queue is touched.
pub proof fn law_kick_is_replaced<E>(fds: Seq<Option<E>>, queue: u8, fd: E, other: int)
    requires
        fds.len() == KICK_EVENTS,
        0 <= other < KICK_EVENTS,
    ensures
        ({
            let kept = with_kick(without_kick(fds, queue), queue, fd);
            &&& kept[queue as int] == Some(fd)
            &&& other != queue ==> kept[other] == fds[other]
        }),
{
}

/// All descriptors of a table come out of it, and nothing else does.
pub proof fn law_drain_misses_none<E>(fds: Seq<Option<E>>, fd: E)
    ensures
        present(fds).contains(fd) <==> fds.contains(Some(fd)),
    decreases fds.len(),
{
    if fds.len() > 0 {
        let rest = fds.drop_last();
        law_drain_misses_none(rest, fd);
        if rest.contains(Some(fd)) {
            let i = choose|i: int| 0 <= i < rest.len() && rest[i] == Some(fd);
            assert(fds[i] == Some(fd));
        }
        if fds.last() == Some(fd) {
            assert(fds[fds.len() - 1] == Some(fd));
            assert(present(fds)[present(fds).len() - 1] == fd);
        }
        if present(rest).contains(fd) {
            let i = choose|i: int| 0 <= i < present(rest).len() && present(rest)[i] == fd;
            assert(present(fds)[i] == fd);
        }
        if fds.contains(Some(fd)) && fds.last() != Some(fd) {
            let i = choose|i: int| 0 <= i < fds.len() && fds[i] == Some(fd);
            assert(rest[i] == Some(fd));
        }
    }
}

/// A failure is final: it marks the device, and then every event is refused and
/// changes nothing.
pub proof fn law_failure_is_final<F, E, S>(handler: VhostGuestEpollHandler<F, E, S>, e: HandlerError, data: u64)
    ensures
        handler.failed(e).0.pairs.needs_reset,
        handler.failed(e).1 == GuestAction::Pair(HandlerAction::Finish(Err(e))),
        handler.on_epoll_event(data).1 matches GuestAction::Finish(Err(_)) ==> handler.on_epoll_event(
            data,
        ).0.pairs.needs_reset,
        handler.failed(e).0.on_epoll_event(data) == (
            handler.failed(e).0,
            GuestAction::Finish(Err(HandlerError::NeedsReset)),
        ),
{
}

/// The configuration space byte by byte: three numbers of four bytes and two of two, the
/// lowest byte first, then the UUID as it is, then two more numbers of two bytes, and
/// nothing else.
pub proof fn law_config_space_byte_by_byte(config: VirtioVhostGuestConfig, bytes: Seq<u8>)
    requires
        config_layout(config, bytes),
    ensures
        bytes.len() == 36,
        config.max_queues == bytes[0] + 0x100 * bytes[1] + 0x1_0000 * bytes[2] + 0x100_0000 * bytes[3],
        config.max_message_size == bytes[4] + 0x100 * bytes[5] + 0x1_0000 * bytes[6] + 0x100_0000 * bytes[7],
        config.max_migration_message_size == bytes[8] + 0x100 * bytes[9] + 0x1_0000 * bytes[10] + 0x100_0000 * bytes[11],
        config.max_chained_rx_descriptors == bytes[12] + 0x100 * bytes[13],
        config.max_chained_tx_descriptors == bytes[14] + 0x100 * bytes[15],
        forall|i: int| 0 <= i < 16 ==> #[trigger] config.uuid@[i] == bytes[16 + i],
        config.device_type == bytes[32] + 0x100 * bytes[33],
        config.status == bytes[34] + 0x100 * bytes[35],
{
    assert forall|i: int| 0 <= i < 16 implies #[trigger] config.uuid@[i] == bytes[16 + i] by {
        assert(bytes.subrange(16, 32)[i] == bytes[16 + i]);
    }
}

/// A new device takes messages of 1024 bytes in one buffer each, has no migration, is not
/// ready, and shows what it was made with.
pub proof fn law_new_device_is_not_ready(max_queues: u32, uuid: [u8; 16], device_type: u16, bytes: Seq<u8>)
    requires
        config_layout(fresh_config(max_queues, uuid, device_type), bytes),
    ensures
        le32(bytes, 0) == max_queues,
        bytes.subrange(4, 16) == seq![0u8, 4, 0, 0, 0, 0, 0, 0, 1, 0, 1, 0],
        bytes.subrange(16, 32) == uuid@,
        le16(bytes, 32) == device_type,
        bytes[34] == 0 && bytes[35] == 0,
{
    law_bytes_are_digits(bytes, 4);
    law_bytes_are_digits(bytes, 8);
    law_bytes_are_digits(bytes, 12);
    law_bytes_are_digits(bytes, 14);
    law_bytes_are_digits(bytes, 34);
    assert(bytes.subrange(4, 16) =~= seq![0u8, 4, 0, 0, 0, 0, 0, 0, 1, 0, 1, 0]);
}

/// A device type that is not there yet is taken from a write to the bytes 32 and 33, of
/// these two or of four. The backend is ready after a write of the number 1 to the bytes
/// 34 and 35, of these two or as the end of four.
pub proof fn law_writes_have_their_effect(config: VirtioVhostGuestConfig, offset: u64, data: Seq<u8>)
    ensures
        ({
            let written = config_written(config, offset, data);
            let typed = offset == 32 && (data.len() == 2 || data.len() == 4);
            let ready = {
                ||| offset == 32 && data.len() == 4 && data[2] == 1 && data[3] == 0
                ||| offset == 34 && data.len() == 2 && data[0] == 1 && data[1] == 0
            };
            &&& typed && config.device_type == 0 ==> written.device_type == data[0] + 0x100 * data[1]
            &&& !typed || config.device_type != 0 ==> written.device_type == config.device_type
            &&& ready ==> written.status == config.status + (if config.status % 2 == 0 { 1int } else { 0 })
            &&& !ready ==> written.status == config.status
        }),
{
    law_bytes_are_digits(data, 0);
    law_bytes_are_digits(data, 2);
    let status = config.status;
    assert((status | 1u16) == status + (if status % 2 == 0 { 1u16 } else { 0u16 })) by (bit_vector);
}

/// A write of both fields does what two writes of one field each do, in either order.
pub proof fn law_both_fields_at_once(config: VirtioVhostGuestConfig, data: Seq<u8>)
    requires
        data.len() == 4,
    ensures
        ({
            let both = config_written(config, 32, data);
            &&& both == config_written(config_written(config, 32, data.take(2)), 34, data.skip(2))
            &&& both == config_written(config_written(config, 34, data.skip(2)), 32, data.take(2))
        }),
{
    assert(le16(data.take(2), 0) == le16(data, 0));
    assert(le16(data.skip(2), 0) == le16(data, 2));
}

/// A field that is set by itself is set as by a write of its two bytes.
pub proof fn law_setting_is_writing(config: VirtioVhostGuestConfig, data: Seq<u8>)
    requires
        data.len() == 2,
    ensures
        config_written(config, 32, data) == with_device_type(config, (data[0] + 0x100 * data[1]) as u16),
        config_written(config, 34, data) == with_status(config, (data[0] + 0x100 * data[1]) as u16),
{
}

/// Each queue is kicked under its own number, from 32 on. Its descriptor is watched until
/// it can be read or the peer has gone.
pub proof fn law_kicks_are_numbered_by_queue(queue: u8, event: u16)
    ensures
        kick_watch(queue).data == 32 + queue,
        kick_watch(queue).events == 0x2001,
        is_kick(event) <==> 32 <= event < 288,
{
}

/// A descriptor that is taken out leaves a gap at its queue, and one that is put in fills
/// it. Neither changes the table elsewhere.
pub proof fn law_table_changes_at_one_queue<E>(fds: Seq<Option<E>>, queue: u8, fd: E, i: int)
    requires
        fds.len() == KICK_EVENTS,
        0 <= i < KICK_EVENTS,
    ensures
        without_kick(fds, queue).len() == fds.len(),
        without_kick(fds, queue)[i] == (if i == queue { None } else { fds[i] }),
        with_kick(fds, queue, fd).len() == fds.len(),
        with_kick(fds, queue, fd)[i] == (if i == queue { Some(fd) } else { fds[i] }),
{
}

/// The descriptors come out of a table in the order of their queues, each as often as it
/// is there.
pub proof fn law_drain_keeps_order<E>(a: Seq<Option<E>>, b: Seq<Option<E>>, fd: E)
    ensures
        present(a + b) == present(a) + present(b),
        present(seq![Some(fd)]) == seq![fd],
        present(seq![None::<E>]) == Seq::<E>::empty(),
    decreases b.len(),
{
    reveal_with_fuel(present, 2);
    assert(seq![Some(fd)].drop_last() =~= Seq::empty());
    assert(seq![None::<E>].drop_last() =~= Seq::empty());
    assert(present(seq![Some(fd)]) =~= seq![fd]);
    if b.len() == 0 {
        assert(a + b =~= a);
        assert(present(a) + present(b) =~= present(a));
    } else {
        law_drain_keeps_order(a, b.drop_last(), fd);
        assert((a + b).drop_last() =~= a + b.drop_last());
        assert((a + b).last() == b.last());
        assert(present(a + b) =~= present(a) + present(b));
    }
}

/// Two numbers are taken for the frontend and the backend to say that they are there.
/// Of the others, the eight behind the last one that is taken start work on the pairs, and
/// the 256 from 32 on are kicks. The rest is unknown and changes nothing.
pub proof fn law_events_find_their_work<F, E, S>(handler: VhostGuestEpollHandler<F, E, S>, event: u16)
    requires
        handler.wf(),
        handler.is_idle(),
    ensures
        ({
            let (after, action) = handler.on_event(event);
            let k = event - handler.pairs.last - 1;
            let told = event == 30 || event == 31;
            let kicked = 32 <= event < 288;
            &&& told ==> {
                &&& after.seen_listener == (handler.seen_listener || event == 30)
                &&& after.seen_accept == (handler.seen_accept || event == 31)
                &&& action == (if after.seen_listener && after.seen_accept {
                    GuestAction::Accept
                } else {
                    GuestAction::Finish(Ok(()))
                })
                &&& after.stage == GuestStage::Accepting <==> action == GuestAction::Accept
                &&& after.stage == GuestStage::Idle <==> action != GuestAction::Accept
                &&& after.pairs == handler.pairs
                &&& after.accepted == handler.accepted
            }
            &&& !told ==> after.seen_listener == handler.seen_listener && after.seen_accept == handler.seen_accept
            &&& !told && 0 <= k < 8 ==> {
                &&& action == GuestAction::Pair(
                    HandlerAction::Process {
                        side: if k < 4 { PairSide::Frontend } else { PairSide::Backend },
                        direction: if k % 2 == 0 { Direction::Inbound } else { Direction::Outbound },
                        max_iterations: 50,
                    },
                )
                &&& after.pairs.run matches Some(run) && run.event == event
                &&& after.pairs.frontend_requests == handler.pairs.frontend_requests
                &&& after.pairs.backend_requests == handler.pairs.backend_requests
                &&& after.stage == handler.stage
            }
            &&& !told && !(0 <= k < 8) && kicked ==> {
                &&& action matches GuestAction::DrainKick { queue } && queue == event - 32
                &&& after.stage matches GuestStage::Draining { queue } && queue == event - 32
                &&& after.pairs == handler.pairs
            }
            &&& !told && !(0 <= k < 8) && !kicked ==> action == GuestAction::Finish(Err(HandlerError::UnknownEvent))
                && after == handler
        }),
{
}

/// The number of an event is what stands in the lowest 16 bits. What stands above them
/// does not matter.
pub proof fn law_event_number_is_short<F, E, S>(
    handler: VhostGuestEpollHandler<F, E, S>,
    data: u64,
    event: u16,
    above: u64,
)
    requires
        data == event + 0x1_0000 * above,
    ensures
        handler.on_epoll_event(data) == handler.on_epoll_event(event as u64),
        !handler.pairs.needs_reset ==> handler.on_epoll_event(data).1 == handler.on_event(event).1,
        !handler.pairs.needs_reset && !(handler.on_event(event).1 matches GuestAction::Finish(Err(_)))
            ==> handler.on_epoll_event(data).0 == handler.on_event(event).0,
{
    assert(data % 0x1_0000 == event);
}

/// Going to a stage changes the stage alone. Giving up ends what was going on and marks
/// the device, but lets the table and the pairs be.
pub proof fn law_stages_change_alone<F, E, S>(
    handler: VhostGuestEpollHandler<F, E, S>,
    stage: GuestStage,
    action: GuestAction,
    e: HandlerError,
)
    ensures
        handler.enter(stage, action).0.stage == stage,
        handler.enter(stage, action).1 == action,
        handler.enter(stage, action).0.pairs == handler.pairs,
        handler.enter(stage, action).0.accepted == handler.accepted,
        handler.enter(stage, action).0.seen_listener == handler.seen_listener,
        handler.enter(stage, action).0.seen_accept == handler.seen_accept,
        handler.failed(e).0.is_idle(),
        handler.failed(e).0.accepted is None,
        handler.failed(e).0.seen_listener == handler.seen_listener,
        handler.failed(e).0.seen_accept == handler.seen_accept,
        handler.failed(e).0.pairs.frontend_requests == handler.pairs.frontend_requests,
        handler.failed(e).0.pairs.backend_requests == handler.pairs.backend_requests,
        handler.failed(e).0.pairs.last == handler.pairs.last,
{
}

} // verus!
