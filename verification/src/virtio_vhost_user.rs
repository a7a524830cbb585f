//! The virtio-vhost-user device: a guest that serves a vhost-user frontend.
//!
//! The frontend connects first; its socket is there when the device is activated.

use crate::byte_order::{law_bytes_are_digits, law_u32_bytes_are_unique, le32, le32_bytes, ByteOrder};
use crate::event_loop::{
    classify_pair_event, interest_mask, pair_base, pair_event_code, pair_watches, pair_work,
    register_epoll_events, EventLoop, Interest, PairFd, PairSide, PairWatch, PAIR_EVENTS,
};
use crate::frontend_request::{FrontendRequestQueuePair, IoEventFds};
use crate::incoming::IncomingStage;
use crate::outgoing::OutgoingStage;
use crate::pair_handler::{HandlerAction, HandlerError, PairHandler};
use crate::queue_pair::{Direction, VirtioVhostUserQueuePair};
use vstd::prelude::*;

verus! {

/// The backend type of a vhost-user device.
pub const VIRTIO_DEVICE_BACKEND_TYPE_VHOST_USER: u32 = 1;

/// The backend is not ready yet.
pub const VIRTIO_DEVICE_BACKEND_STATUS_DOWN: u32 = 0;

/// The backend is ready.
pub const VIRTIO_DEVICE_BACKEND_STATUS_UP: u32 = 1;

/// The size of each queue.
pub const QUEUE_SIZE: u16 = 128;

/// The number of queues: two pairs, and two for migration.
pub const NUM_QUEUES: usize = 6;

/// The feature bit of devices that follow version 1 of the virtio standard.
pub const VIRTIO_F_VERSION_1: u32 = 32;

/// The most queues that a vhost-user device can have here.
pub const MAX_QUEUES: u32 = 255;

/// A device backend as the rest of the machine knows it.
pub struct Backend {}

/// Configuration fields that all device backends have.
#[derive(Clone, Copy)]
pub struct VirtioDeviceBackendConfigCommon {
    /// The type of the device, 1 for a vhost-user device.
    pub device_type: u32,
    /// The status of the device: 0 at startup, 1 when ready.
    pub status: u32,
    /// A UUID for the backend.
    pub uuid: [u8; 16],
}

/// Configuration fields of vhost-user device backends.
#[derive(Clone, Copy)]
pub struct VirtioDeviceBackendConfigVhostUser {
    /// The maximum number of vhost-user queues that are supported.
    pub max_queues: u32,
}

/// The configuration space of the device.
#[derive(Clone, Copy)]
pub struct VirtioDeviceBackendConfig {
    pub common: VirtioDeviceBackendConfigCommon,
    pub vhost_user: VirtioDeviceBackendConfigVhostUser,
}

/// The length of the configuration space.
pub const CONFIG_SIZE: usize = 28;

/// Where the status stands in the configuration space.
pub const STATUS_OFFSET: u64 = 4;

/// The bytes of a configuration: the type, the status, the UUID, and the number of
/// queues, the numbers with their lowest byte first.
pub open spec fn config_layout(config: VirtioDeviceBackendConfig, bytes: Seq<u8>) -> bool {
    &&& bytes.len() == CONFIG_SIZE
    &&& le32(bytes, 0) == config.common.device_type
    &&& le32(bytes, 4) == config.common.status
    &&& bytes.subrange(8, 24) == config.common.uuid@
    &&& le32(bytes, 24) == config.vhost_user.max_queues
}

impl VirtioDeviceBackendConfig {
    /// The configuration space as the guest sees it.
    pub fn as_bytes(&self) -> (bytes: Vec<u8>)
        ensures
            config_layout(*self, bytes@),
    {
        let mut bytes = le32_bytes(self.common.device_type);
        let mut status = le32_bytes(self.common.status);
        let mut queues = le32_bytes(self.vhost_user.max_queues);
        let ghost (a, b, c) = (bytes@, status@, queues@);
        bytes.append(&mut status);
        bytes.extend_from_slice(&self.common.uuid);
        bytes.append(&mut queues);
        assert(bytes@ =~= a + b + self.common.uuid@ + c);
        assert(bytes@.subrange(8, 24) =~= self.common.uuid@);
        bytes
    }
}

/// What a device is restored from.
#[derive(Clone, Copy)]
pub struct VirtioVhostUserState {
    pub avail_features: u64,
    pub acked_features: u64,
    pub config: VirtioDeviceBackendConfig,
}

/// A virtio-vhost-user device.
pub struct VirtioVhostUser<E, S> {
    /// The number of the device's type.
    pub device_type: u32,
    pub avail_features: u64,
    pub acked_features: u64,
    pub queue_sizes: Vec<u16>,
    pub min_queues: u16,
    /// The device was restored, and waits to go on.
    pub paused: bool,
    pub config: VirtioDeviceBackendConfig,
    pub max_queues: u8,
    /// The connection to the frontend, until the device is activated.
    pub listener: Option<S>,
    pub ioeventfds: IoEventFds<E>,
}

/// A new configuration.
pub open spec fn fresh_config(max_queues: u32, uuid: [u8; 16]) -> VirtioDeviceBackendConfig {
    VirtioDeviceBackendConfig {
        common: VirtioDeviceBackendConfigCommon {
            device_type: VIRTIO_DEVICE_BACKEND_TYPE_VHOST_USER,
            status: VIRTIO_DEVICE_BACKEND_STATUS_DOWN,
            uuid,
        },
        vhost_user: VirtioDeviceBackendConfigVhostUser { max_queues },
    }
}

/// What the guest changes by writing to the configuration space: the status, if it
/// writes a whole one.
pub open spec fn config_written(config: VirtioDeviceBackendConfig, offset: u64, data: Seq<u8>) -> VirtioDeviceBackendConfig {
    if offset == STATUS_OFFSET && data.len() == 4 && le32(data, 0) <= 1 {
        VirtioDeviceBackendConfig {
            common: VirtioDeviceBackendConfigCommon { status: le32(data, 0) as u32, ..config.common },
            ..config
        }
    } else {
        config
    }
}

/// The queues of the device by what they are for. A pair has its queue to the guest
/// first, and its queue from the guest second.
pub struct DeviceQueues<Q> {
    pub frontend_requests: (Q, Q),
    pub backend_requests: (Q, Q),
    pub inbound_migration: Q,
    pub outbound_migration: Q,
}

impl<E, S> VirtioVhostUser<E, S> {
    /// The device has entries for all its signals.
    pub open spec fn wf(&self) -> bool {
        self.ioeventfds.wf(self.max_queues)
    }

    /// Makes a device, or restores one.
    pub fn new(
        device_type: u32,
        state: Option<VirtioVhostUserState>,
        max_queues: u32,
        uuid: [u8; 16],
        listener: S,
    ) -> (device: VirtioVhostUser<E, S>)
        requires
            max_queues <= MAX_QUEUES,
        ensures
            device.wf(),
            device.device_type == device_type,
            device.queue_sizes@ == Seq::new(NUM_QUEUES as nat, |i: int| QUEUE_SIZE),
            device.min_queues == NUM_QUEUES,
            device.max_queues == max_queues,
            device.listener == Some(listener),
            device.ioeventfds.offset == 0,
            device.ioeventfds.fds@ == Seq::new((2 * max_queues + 1) as nat, |i: int| None::<E>),
            device.paused == (state is Some),
            state matches Some(s) ==> {
                &&& device.avail_features == s.avail_features
                &&& device.acked_features == s.acked_features
                &&& device.config == s.config
            },
            state is None ==> {
                &&& device.avail_features == 0x1_0000_0000
                &&& device.acked_features == 0
                &&& device.config == fresh_config(max_queues, uuid)
            },
    {
        let mut queue_sizes: Vec<u16> = Vec::new();
        queue_sizes.resize(NUM_QUEUES, QUEUE_SIZE);
        assert(queue_sizes@ =~= Seq::new(NUM_QUEUES as nat, |i: int| QUEUE_SIZE));
        let ioeventfds = IoEventFds::new(max_queues as u8);
        assert(1u64 << 32u32 == 0x1_0000_0000u64) by (bit_vector);
        let (avail_features, acked_features, config, paused) = match state {
            Some(state) => (state.avail_features, state.acked_features, state.config, true),
            None => {
                let config = VirtioDeviceBackendConfig {
                    common: VirtioDeviceBackendConfigCommon {
                        device_type: VIRTIO_DEVICE_BACKEND_TYPE_VHOST_USER,
                        status: VIRTIO_DEVICE_BACKEND_STATUS_DOWN,
                        uuid,
                    },
                    vhost_user: VirtioDeviceBackendConfigVhostUser { max_queues },
                };
                (1u64 << VIRTIO_F_VERSION_1, 0u64, config, false)
            },
        };
        VirtioVhostUser {
            device_type,
            avail_features,
            acked_features,
            queue_sizes,
            min_queues: NUM_QUEUES as u16,
            paused,
            config,
            max_queues: max_queues as u8,
            listener: Some(listener),
            ioeventfds,
        }
    }

    /// The number of the device's type.
    pub fn device_type(&self) -> (device_type: u32)
        ensures
            device_type == self.device_type,
    {
        self.device_type
    }

    /// The largest size of each queue.
    pub fn queue_max_sizes(&self) -> (sizes: &[u16])
        ensures
            sizes@ == self.queue_sizes@,
    {
        self.queue_sizes.as_slice()
    }

    /// The features that the guest may ask for.
    pub fn features(&self) -> (features: u64)
        ensures
            features == self.avail_features,
    {
        self.avail_features
    }

    /// How many doorbells the guest can ring: a call and an error for each queue, and
    /// one for the log.
    pub fn doorbells_max(&self) -> (doorbells: u16)
        ensures
            doorbells == 2 * self.max_queues + 1,
    {
        self.max_queues as u16 * 2 + 1
    }

    /// The configuration space as the guest sees it.
    pub fn config_bytes(&self) -> (bytes: Vec<u8>)
        ensures
            config_layout(self.config, bytes@),
    {
        self.config.as_bytes()
    }

    /// The guest writes to the configuration space.
    pub fn write_config(&mut self, offset: u64, data: &[u8])
        ensures
            *final(self) == (VirtioVhostUser {
                config: config_written(old(self).config, offset, data@),
                ..*old(self)
            }),
    {
        if offset == STATUS_OFFSET && data.len() == 4 {
            match ByteOrder::Little.read_u32(data, 0) {
                1 => {
                    self.config.common.status = VIRTIO_DEVICE_BACKEND_STATUS_UP;
                },
                0 => {
                    self.config.common.status = VIRTIO_DEVICE_BACKEND_STATUS_DOWN;
                },
                _ => {},
            }
        }
    }

    /// Puts the queues together, and starts to handle events. `last` is the last
    /// event number that is taken. This can be done once.
    pub fn activate<F, Q>(&mut self, order: ByteOrder, last: u16, queues: Vec<(Q, E)>) -> (activated: (
        VdbEpollHandler<F, E, S>,
        DeviceQueues<Q>,
    ))
        requires
            old(self).listener is Some,
            queues@.len() >= NUM_QUEUES,
            last + 3 * PAIR_EVENTS <= u16::MAX,
        ensures
            *final(self) == (VirtioVhostUser { listener: None::<S>, ..*old(self) }),
            activated.0.wf(),
            activated.0.pairs.is_idle(),
            activated.0.pairs.last == last,
            !activated.0.pairs.needs_reset,
            activated.0.pairs.backend_socket is None,
            ({
                let pair = activated.0.pairs.frontend_requests;
                &&& pair.internals.order == order
                &&& pair.internals.queues == old(self).max_queues
                &&& !pair.internals.seen_log_mapping
                &&& !pair.internals.seen_backend_req_socket
                &&& pair.queue_pair.front2back_queue_evt == queues@[0].1
                &&& pair.queue_pair.back2front_queue_evt == queues@[2].1
                &&& pair.queue_pair.socket == old(self).listener
                &&& pair.queue_pair.incoming@.order == order
                &&& pair.queue_pair.incoming@.data == Seq::<u8>::empty()
                &&& pair.queue_pair.incoming@.files == Seq::<F>::empty()
                &&& !pair.queue_pair.incoming@.handled
                &&& pair.queue_pair.incoming@.stage == IncomingStage::Idle
                &&& pair.queue_pair.outgoing@.order == order
                &&& pair.queue_pair.outgoing@.buf == Seq::<u8>::empty()
                &&& pair.queue_pair.outgoing@.stage == OutgoingStage::Idle
            }),
            ({
                let pair = activated.0.pairs.backend_requests;
                &&& pair.front2back_queue_evt == queues@[3].1
                &&& pair.back2front_queue_evt == queues@[1].1
                &&& pair.socket is None
                &&& pair.incoming@.order == order
                &&& pair.incoming@.data == Seq::<u8>::empty()
                &&& pair.incoming@.files == Seq::<F>::empty()
                &&& !pair.incoming@.handled
                &&& pair.incoming@.stage == IncomingStage::Idle
                &&& pair.outgoing@.order == order
                &&& pair.outgoing@.buf == Seq::<u8>::empty()
                &&& pair.outgoing@.stage == OutgoingStage::Idle
            }),
            activated.0.inbound_migration_queue_evt == queues@[4].1,
            activated.0.outbound_migration_queue_evt == queues@[5].1,
            activated.0.pairs.frontend_requests.vm == (InternalVM {
                inbound_migration_fd: None::<F>,
                outbound_migration_fd: None::<F>,
            }),
            activated.1 == (DeviceQueues {
                frontend_requests: (queues@[0].0, queues@[2].0),
                backend_requests: (queues@[3].0, queues@[1].0),
                inbound_migration: queues@[4].0,
                outbound_migration: queues@[5].0,
            }),
    {
        let mut queues = queues;
        let (frontend_request_queue, frontend_request_queue_evt) = queues.remove(0);
        let (frontend_reply_queue, frontend_reply_queue_evt) = queues.remove(0);
        let (backend_reply_queue, backend_reply_queue_evt) = queues.remove(0);
        let (backend_request_queue, backend_request_queue_evt) = queues.remove(0);
        let (inbound_migration, inbound_migration_queue_evt) = queues.remove(0);
        let (outbound_migration, outbound_migration_queue_evt) = queues.remove(0);
        let socket = self.listener.take();
        let queue_pair = VirtioVhostUserQueuePair::new(
            order,
            frontend_request_queue_evt,
            backend_reply_queue_evt,
            socket,
        );
        let backend_requests = VirtioVhostUserQueuePair::new(
            order,
            backend_request_queue_evt,
            frontend_reply_queue_evt,
            None,
        );
        let vm = InternalVM { inbound_migration_fd: None, outbound_migration_fd: None };
        let handler = VdbEpollHandler {
            pairs: PairHandler {
                frontend_requests: FrontendRequestQueuePair::new(order, queue_pair, self.max_queues, vm),
                backend_requests,
                last,
                needs_reset: false,
                run: None,
                backend_socket: None,
                new_socket: None,
            },
            inbound_migration_queue_evt,
            outbound_migration_queue_evt,
        };
        let device_queues = DeviceQueues {
            frontend_requests: (frontend_request_queue, backend_reply_queue),
            backend_requests: (backend_request_queue, frontend_reply_queue),
            inbound_migration,
            outbound_migration,
        };
        (handler, device_queues)
    }
}

/// The descriptors for migration that the frontend handed over.
pub struct InternalVM<F> {
    pub inbound_migration_fd: Option<F>,
    pub outbound_migration_fd: Option<F>,
}

/// The number of the notifier through which a queue is kicked: those below belong
/// to the device's own queues.
pub fn vring_kick_notifier(queue: u8) -> (index: u32)
    ensures
        index == queue + 4,
{
    queue as u32 + 4
}

/// The events of migration data, behind those of the two pairs.
pub open spec fn migration_event_code(last: u16, fd: PairFd) -> int {
    pair_event_code(last, PairSide::Backend, fd) + PAIR_EVENTS
}

/// How a descriptor for migration data is watched.
#[derive(Clone, Copy, Debug, PartialEq, Eq, Structural)]
pub struct MigrationWatch {
    pub id: u16,
    pub events: u32,
}

/// How the descriptor is watched through which state moves.
pub open spec fn migration_watch(last: u16, is_load: bool) -> MigrationWatch {
    if is_load {
        MigrationWatch {
            id: migration_event_code(last, PairFd::SocketIn) as u16,
            events: interest_mask(Interest::Readable),
        }
    } else {
        MigrationWatch {
            id: migration_event_code(last, PairFd::SocketOut) as u16,
            events: interest_mask(Interest::Writable),
        }
    }
}

/// How the descriptor of a migration queue is watched.
pub open spec fn migration_queue_watch(last: u16, fd: PairFd) -> MigrationWatch {
    MigrationWatch { id: migration_event_code(last, fd) as u16, events: interest_mask(Interest::Readable) }
}

impl<F> InternalVM<F> {
    /// The descriptor through which state moves one way.
    pub open spec fn migration_fd(&self, is_load: bool) -> Option<F> {
        if is_load {
            self.inbound_migration_fd
        } else {
            self.outbound_migration_fd
        }
    }

    /// Says how a descriptor through which state is loaded, or else saved, has to be
    /// watched. There can be one for each.
    pub fn offer_migration_fd(&self, last: u16, is_load: bool) -> (watch: Option<MigrationWatch>)
        requires
            last + 3 * PAIR_EVENTS <= u16::MAX,
        ensures
            watch == (if self.migration_fd(is_load) is Some {
                None
            } else {
                Some(migration_watch(last, is_load))
            }),
    {
        let taken = if is_load {
            self.inbound_migration_fd.is_some()
        } else {
            self.outbound_migration_fd.is_some()
        };
        if taken {
            return None;
        }
        let base: u16 = pair_base(last, PairSide::Backend) + PAIR_EVENTS;
        Some(
            if is_load {
                MigrationWatch { id: base + 2, events: Interest::Readable.mask() }
            } else {
                MigrationWatch { id: base + 3, events: Interest::Writable.mask() }
            },
        )
    }

    /// Keeps the descriptor through which state is loaded, once it is watched.
    pub fn set_inbound_migration_fd(&mut self, fd: F)
        requires
            old(self).inbound_migration_fd is None,
        ensures
            *final(self) == (InternalVM { inbound_migration_fd: Some(fd), ..*old(self) }),
    {
        self.inbound_migration_fd = Some(fd);
    }

    /// Keeps the descriptor through which state is saved, once it is watched.
    pub fn set_outbound_migration_fd(&mut self, fd: F)
        requires
            old(self).outbound_migration_fd is None,
        ensures
            *final(self) == (InternalVM { outbound_migration_fd: Some(fd), ..*old(self) }),
    {
        self.outbound_migration_fd = Some(fd);
    }
}

/// How the descriptors of the device are watched from the start.
pub struct VdbWatches {
    pub frontend: Vec<PairWatch>,
    pub backend: Vec<PairWatch>,
    pub inbound_migration: MigrationWatch,
    pub outbound_migration: MigrationWatch,
}

/// What handles the device's events.
pub struct VdbEpollHandler<F, E, S> {
    pub pairs: PairHandler<F, E, S, InternalVM<F>>,
    pub inbound_migration_queue_evt: E,
    pub outbound_migration_queue_evt: E,
}

impl<F, E, S> VdbEpollHandler<F, E, S> {
    /// The event numbers fit, and the queue pairs are in order.
    pub open spec fn wf(&self) -> bool {
        &&& self.pairs.last + 3 * PAIR_EVENTS <= u16::MAX
        &&& self.pairs.wf()
    }

    /// What an event leads to.
    pub open spec fn on_event(self, event: u16) -> (VdbEpollHandler<F, E, S>, HandlerAction) {
        let (pairs, action) = match pair_work(self.pairs.last, event) {
            Some(work) => self.pairs.goes_on(EventLoop::started(event, work)),
            None => if migration_event_code(self.pairs.last, PairFd::QueueIn) <= event <= migration_event_code(
                self.pairs.last,
                PairFd::SocketOut,
            ) {
                (self.pairs, HandlerAction::Finish(Ok(())))
            } else {
                (self.pairs, HandlerAction::Finish(Err(HandlerError::UnknownEvent)))
            },
        };
        (VdbEpollHandler { pairs, ..self }, action)
    }

    /// What an event leads to, unless an earlier one has failed. The event's number
    /// is in the lowest 16 bits. An event that fails marks the device.
    pub open spec fn on_epoll_event(self, data: u64) -> (VdbEpollHandler<F, E, S>, HandlerAction) {
        if self.pairs.needs_reset {
            (self, HandlerAction::Finish(Err(HandlerError::NeedsReset)))
        } else {
            let (after, action) = self.on_event((data % 0x1_0000) as u16);
            if action matches HandlerAction::Finish(Err(_)) {
                (VdbEpollHandler { pairs: PairHandler { needs_reset: true, ..after.pairs }, ..after }, action)
            } else {
                (after, action)
            }
        }
    }

    /// Says how the device's descriptors are watched from the start.
    pub fn watches(&self) -> (watches: VdbWatches)
        requires
            self.wf(),
        ensures
            watches.frontend@ == pair_watches(
                pair_event_code(self.pairs.last, PairSide::Frontend, PairFd::QueueIn) as u16,
                self.pairs.frontend_requests.queue_pair.socket is Some,
            ),
            watches.backend@ == pair_watches(
                pair_event_code(self.pairs.last, PairSide::Backend, PairFd::QueueIn) as u16,
                self.pairs.backend_requests.socket is Some,
            ),
            watches.inbound_migration == migration_queue_watch(self.pairs.last, PairFd::QueueIn),
            watches.outbound_migration == migration_queue_watch(self.pairs.last, PairFd::QueueOut),
    {
        let frontend_base: u16 = pair_base(self.pairs.last, PairSide::Frontend);
        let backend_base: u16 = pair_base(self.pairs.last, PairSide::Backend);
        let migration_base: u16 = backend_base + PAIR_EVENTS;
        VdbWatches {
            frontend: register_epoll_events(
                frontend_base,
                self.pairs.frontend_requests.queue_pair.socket.is_some(),
            ),
            backend: register_epoll_events(backend_base, self.pairs.backend_requests.socket.is_some()),
            inbound_migration: MigrationWatch { id: migration_base, events: Interest::Readable.mask() },
            outbound_migration: MigrationWatch { id: migration_base + 1, events: Interest::Readable.mask() },
        }
    }

    /// An event came. Once one has failed, no more are handled.
    pub fn handle_event(&mut self, data: u64) -> (action: HandlerAction)
        requires
            old(self).wf(),
            old(self).pairs.is_idle(),
        ensures
            final(self).wf(),
            (*final(self), action) == old(self).on_epoll_event(data),
    {
        if self.pairs.needs_reset {
            return HandlerAction::Finish(Err(HandlerError::NeedsReset));
        }
        let action = self.process_event((data % 0x1_0000) as u16);
        if let HandlerAction::Finish(Err(_)) = &action {
            self.pairs.needs_reset = true;
        }
        action
    }

    /// Starts to handle an event.
    fn process_event(&mut self, event: u16) -> (action: HandlerAction)
        requires
            old(self).wf(),
            old(self).pairs.is_idle(),
        ensures
            final(self).wf(),
            (*final(self), action) == old(self).on_event(event),
    {
        match classify_pair_event(self.pairs.last, event) {
            Some(work) => self.pairs.start(event, work),
            None => {
                let first: u16 = pair_base(self.pairs.last, PairSide::Backend) + PAIR_EVENTS;
                if first <= event && event - first < PAIR_EVENTS {
                    // Migration data is not handled yet.
                    return HandlerAction::Finish(Ok(()));
                }
                HandlerAction::Finish(Err(HandlerError::UnknownEvent))
            },
        }
    }
}

/// A configuration has one form only in bytes.
pub proof fn law_config_bytes_are_unique(config: VirtioDeviceBackendConfig, a: Seq<u8>, b: Seq<u8>)
    requires
        config_layout(config, a),
        config_layout(config, b),
    ensures
        a == b,
{
    law_u32_bytes_are_unique(ByteOrder::Little, a, b, 0);
    law_u32_bytes_are_unique(ByteOrder::Little, a, b, 4);
    law_u32_bytes_are_unique(ByteOrder::Little, a, b, 24);
    assert forall|i: int| 0 <= i < CONFIG_SIZE implies a[i] == b[i] by {
        if 8 <= i < 24 {
            assert(a.subrange(8, 24)[i - 8] == b.subrange(8, 24)[i - 8]);
        }
    }
    assert(a =~= b);
}

/// The guest reads back the status that it wrote.
pub proof fn law_status_reads_back(config: VirtioDeviceBackendConfig, data: Seq<u8>, bytes: Seq<u8>)
    requires
        data.len() == 4,
        le32(data, 0) <= 1,
        config_layout(config_written(config, STATUS_OFFSET, data), bytes),
    ensures
        bytes.subrange(4, 8) == data,
{
    let read = bytes.subrange(4, 8);
    assert(le32(read, 0) == le32(bytes, 4));
    law_u32_bytes_are_unique(ByteOrder::Little, read, data, 0);
    assert(read =~= data);
}

/// Whatever the guest writes to the configuration space, only the status changes,
/// and it stays one of the two that there are.
pub proof fn law_guest_writes_the_status_only(config: VirtioDeviceBackendConfig, offset: u64, data: Seq<u8>)
    requires
        config.common.status <= VIRTIO_DEVICE_BACKEND_STATUS_UP,
    ensures
        ({
            let written = config_written(config, offset, data);
            &&& written.common.status <= VIRTIO_DEVICE_BACKEND_STATUS_UP
            &&& written.common.device_type == config.common.device_type
            &&& written.common.uuid == config.common.uuid
            &&& written.vhost_user == config.vhost_user
        }),
{
}

/// A failure is final: it marks the device, and then every event is refused and
/// changes nothing.
pub proof fn law_failure_is_final<F, E, S>(handler: VdbEpollHandler<F, E, S>, e: HandlerError, data: u64)
    ensures
        handler.pairs.failed(e).0.needs_reset,
        handler.pairs.failed(e).1 == HandlerAction::Finish(Err(e)),
        handler.on_epoll_event(data).1 matches HandlerAction::Finish(Err(_)) ==> handler.on_epoll_event(
            data,
        ).0.pairs.needs_reset,
        ({
            let after = VdbEpollHandler { pairs: handler.pairs.failed(e).0, ..handler };
            after.on_epoll_event(data) == (after, HandlerAction::Finish(Err(HandlerError::NeedsReset)))
        }),
{
}

/// The events of migration data are not those of a queue pair, and no two of them
/// are the same.
pub proof fn law_migration_events_are_apart(last: u16, fd: PairFd, other: PairFd)
    requires
        last + 3 * PAIR_EVENTS <= u16::MAX,
    ensures
        pair_work(last, migration_event_code(last, fd) as u16) is None,
        migration_event_code(last, fd) == migration_event_code(last, other) ==> fd == other,
{
}

/// The configuration space byte by byte: two numbers of four bytes, the lowest byte
/// first, then the UUID as it is, then another such number, and nothing else.
pub proof fn law_config_space_byte_by_byte(config: VirtioDeviceBackendConfig, bytes: Seq<u8>)
    requires
        config_layout(config, bytes),
    ensures
        bytes.len() == 28,
        config.common.device_type == bytes[0] + 0x100 * bytes[1] + 0x1_0000 * bytes[2] + 0x100_0000 * bytes[3],
        config.common.status == bytes[4] + 0x100 * bytes[5] + 0x1_0000 * bytes[6] + 0x100_0000 * bytes[7],
        forall|i: int| 0 <= i < 16 ==> #[trigger] config.common.uuid@[i] == bytes[8 + i],
        config.vhost_user.max_queues == bytes[24] + 0x100 * bytes[25] + 0x1_0000 * bytes[26] + 0x100_0000 * bytes[27],
{
    assert forall|i: int| 0 <= i < 16 implies #[trigger] config.common.uuid@[i] == bytes[8 + i] by {
        assert(bytes.subrange(8, 24)[i] == bytes[8 + i]);
    }
}

/// A new device shows that it is a vhost-user device that is not ready, and what it was
/// made with.
pub proof fn law_new_device_is_down(max_queues: u32, uuid: [u8; 16], bytes: Seq<u8>)
    requires
        config_layout(fresh_config(max_queues, uuid), bytes),
    ensures
        bytes.subrange(0, 8) == seq![1u8, 0, 0, 0, 0, 0, 0, 0],
        bytes.subrange(8, 24) == uuid@,
        le32(bytes, 24) == max_queues,
{
    law_bytes_are_digits(bytes, 0);
    law_bytes_are_digits(bytes, 4);
    assert(bytes.subrange(0, 8) =~= seq![1u8, 0, 0, 0, 0, 0, 0, 0]);
}

/// A write has an effect exactly if it is four bytes long, goes to the status, and is the
/// number 0 or the number 1. Then that is the status.
pub proof fn law_status_is_written_whole(config: VirtioDeviceBackendConfig, offset: u64, data: Seq<u8>)
    ensures
        ({
            let written = config_written(config, offset, data);
            let counts = offset == 4 && data.len() == 4 && data[0] <= 1 && data[1] == 0 && data[2] == 0 && data[3] == 0;
            &&& counts ==> written.common.status == data[0]
            &&& !counts ==> written == config
        }),
{
    law_bytes_are_digits(data, 0);
}

/// Behind the eight events of the pairs come four of migration: its two queues, and the
/// two descriptors through which state moves. One of these is watched until it can be
/// read, for state that comes in, the other until it can be written.
pub proof fn law_migration_is_watched_by_direction(last: u16, fd: PairFd)
    requires
        last + 3 * PAIR_EVENTS <= u16::MAX,
    ensures
        migration_event_code(last, PairFd::QueueIn) == last + 9,
        migration_event_code(last, PairFd::QueueOut) == last + 10,
        migration_event_code(last, PairFd::SocketIn) == last + 11,
        migration_event_code(last, PairFd::SocketOut) == last + 12,
        migration_watch(last, true).id == last + 11,
        migration_watch(last, true).events == 1,
        migration_watch(last, false).id == last + 12,
        migration_watch(last, false).events == 4,
        migration_queue_watch(last, fd).id == migration_event_code(last, fd),
        migration_queue_watch(last, fd).events == 1,
{
}

/// There are two descriptors for state, and each is asked for by its own direction.
pub proof fn law_state_moves_through_its_own_descriptor<F>(vm: InternalVM<F>)
    ensures
        vm.migration_fd(true) == vm.inbound_migration_fd,
        vm.migration_fd(false) == vm.outbound_migration_fd,
{
}

/// The first eight events behind the last number that is taken start work on the pairs,
/// four of them on each. The next four are passed over, and all others are unknown.
pub proof fn law_events_find_their_work<F, E, S>(handler: VdbEpollHandler<F, E, S>, event: u16)
    requires
        handler.wf(),
        handler.pairs.is_idle(),
    ensures
        ({
            let (after, action) = handler.on_event(event);
            let k = event - handler.pairs.last - 1;
            &&& 0 <= k < 8 ==> {
                &&& action == (HandlerAction::Process {
                    side: if k < 4 { PairSide::Frontend } else { PairSide::Backend },
                    direction: if k % 2 == 0 { Direction::Inbound } else { Direction::Outbound },
                    max_iterations: 50,
                })
                &&& after.pairs.run matches Some(run) && run.event == event
                &&& after.pairs.frontend_requests == handler.pairs.frontend_requests
                &&& after.pairs.backend_requests == handler.pairs.backend_requests
                &&& after.pairs.backend_socket == handler.pairs.backend_socket
            }
            &&& 8 <= k < 12 ==> action == HandlerAction::Finish(Ok(())) && after == handler
            &&& k < 0 || 12 <= k ==> action == HandlerAction::Finish(Err(HandlerError::UnknownEvent)) && after == handler
        }),
{
}

/// The number of an event is what stands in the lowest 16 bits. What stands above them
/// does not matter.
pub proof fn law_event_number_is_short<F, E, S>(handler: VdbEpollHandler<F, E, S>, data: u64, event: u16, above: u64)
    requires
        data == event + 0x1_0000 * above,
    ensures
        handler.on_epoll_event(data) == handler.on_epoll_event(event as u64),
        !handler.pairs.needs_reset ==> handler.on_epoll_event(data).1 == handler.on_event(event).1,
        !handler.pairs.needs_reset && !(handler.on_event(event).1 matches HandlerAction::Finish(Err(_)))
            ==> handler.on_epoll_event(data).0 == handler.on_event(event).0,
{
    assert(data % 0x1_0000 == event);
}

} // verus!
