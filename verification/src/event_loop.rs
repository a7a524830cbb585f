//! Events of a device with two queue pairs: their numbers, how descriptors are
//! watched for them, and how one event is worked off.

use crate::queue_pair::Direction;
use vstd::prelude::*;

verus! {

/// The flags with which a descriptor is watched.
#[derive(Clone, Copy, Debug, PartialEq, Eq, Structural)]
pub struct EpollBits {
    pub input: u32,
    pub output: u32,
    pub rdhup: u32,
    pub oneshot: u32,
    pub edge: u32,
}

/// The constants `EPOLLIN`, `EPOLLOUT`, `EPOLLRDHUP`, `EPOLLONESHOT` and `EPOLLET`
/// of `epoll::Events`, one bit each.
#[verifier::external_body]
pub(crate) fn epoll_bits() -> (bits: EpollBits)
    ensures
        bits == (EpollBits { input: 1, output: 4, rdhup: 0x2000, oneshot: 0x4000_0000, edge: 0x8000_0000 }),
{
    EpollBits {
        input: epoll::Events::EPOLLIN.bits(),
        output: epoll::Events::EPOLLOUT.bits(),
        rdhup: epoll::Events::EPOLLRDHUP.bits(),
        oneshot: epoll::Events::EPOLLONESHOT.bits(),
        edge: epoll::Events::EPOLLET.bits(),
    }
}

/// What a descriptor is watched for.
#[derive(Clone, Copy, Debug, PartialEq, Eq, Structural)]
pub enum Interest {
    Readable,
    Writable,
    /// Readable, told once only.
    ReadableOnce,
    /// Readable, or closed by the peer.
    ReadableOrClosed,
    /// Readable, told when it becomes so.
    ReadableEdge,
    /// Writable, told when it becomes so.
    WritableEdge,
}

/// The flags for an interest.
pub open spec fn interest_mask(interest: Interest) -> u32 {
    match interest {
        Interest::Readable => 1,
        Interest::Writable => 4,
        Interest::ReadableOnce => 0x4000_0001,
        Interest::ReadableOrClosed => 0x2001,
        Interest::ReadableEdge => 0x8000_0001,
        Interest::WritableEdge => 0x8000_0004,
    }
}

impl Interest {
    /// The flags for the interest.
    pub fn mask(self) -> (mask: u32)
        ensures
            mask == interest_mask(self),
    {
        let bits = epoll_bits();
        assert(1u32 | 0x4000_0000u32 == 0x4000_0001u32) by (bit_vector);
        assert(1u32 | 0x2000u32 == 0x2001u32) by (bit_vector);
        assert(0x8000_0000u32 | 1u32 == 0x8000_0001u32) by (bit_vector);
        assert(0x8000_0000u32 | 4u32 == 0x8000_0004u32) by (bit_vector);
        match self {
            Interest::Readable => bits.input,
            Interest::Writable => bits.output,
            Interest::ReadableOnce => bits.input | bits.oneshot,
            Interest::ReadableOrClosed => bits.input | bits.rdhup,
            Interest::ReadableEdge => bits.edge | bits.input,
            Interest::WritableEdge => bits.edge | bits.output,
        }
    }
}

/// The queue pairs of a device.
#[derive(Clone, Copy, Debug, PartialEq, Eq, Structural)]
pub enum PairSide {
    /// Requests of the frontend, and the replies to them.
    Frontend,
    /// Requests of the backend, and the replies to them.
    Backend,
}

/// The descriptors of a queue pair.
#[derive(Clone, Copy, Debug, PartialEq, Eq, Structural)]
pub enum PairFd {
    QueueIn,
    QueueOut,
    SocketIn,
    SocketOut,
}

/// The number of descriptors of a queue pair.
pub const PAIR_EVENTS: u16 = 4;

/// The place of a descriptor among those of its pair.
pub open spec fn pair_fd_index(fd: PairFd) -> int {
    match fd {
        PairFd::QueueIn => 0,
        PairFd::QueueOut => 1,
        PairFd::SocketIn => 2,
        PairFd::SocketOut => 3,
    }
}

/// The number of the event that a descriptor of a pair is watched for. `last` is
/// the last number that is taken.
pub open spec fn pair_event_code(last: u16, side: PairSide, fd: PairFd) -> int {
    last + 1 + (if side == PairSide::Frontend { 0int } else { PAIR_EVENTS as int }) + pair_fd_index(fd)
}

/// The number of the first event of a pair.
pub fn pair_base(last: u16, side: PairSide) -> (base: u16)
    requires
        last + 2 * PAIR_EVENTS <= u16::MAX,
    ensures
        base == pair_event_code(last, side, PairFd::QueueIn),
{
    match side {
        PairSide::Frontend => last + 1,
        PairSide::Backend => last + 1 + PAIR_EVENTS,
    }
}

/// What an event is about: which pair has work, which way, and the number of the
/// queue that the guest is notified of when something was done.
#[derive(Clone, Copy, Debug, PartialEq, Eq, Structural)]
pub struct PairWork {
    pub side: PairSide,
    pub direction: Direction,
    pub queue: u16,
}

/// What there is to do for a pair, one way.
pub open spec fn work_for(side: PairSide, direction: Direction) -> PairWork {
    PairWork {
        side,
        direction,
        queue: match (side, direction) {
            (PairSide::Frontend, Direction::Inbound) => 1,
            (PairSide::Frontend, Direction::Outbound) => 2,
            (PairSide::Backend, Direction::Inbound) => 3,
            (PairSide::Backend, Direction::Outbound) => 4,
        },
    }
}

/// The way in which messages go that a descriptor has to do with.
pub open spec fn pair_fd_direction(fd: PairFd) -> Direction {
    match fd {
        PairFd::QueueIn | PairFd::SocketIn => Direction::Inbound,
        PairFd::QueueOut | PairFd::SocketOut => Direction::Outbound,
    }
}

/// What an event of a queue pair is about; no other number is such an event.
pub open spec fn pair_work(last: u16, event: u16) -> Option<PairWork> {
    let k = event - last - 1;
    if k == 0 || k == 2 {
        Some(work_for(PairSide::Frontend, Direction::Inbound))
    } else if k == 1 || k == 3 {
        Some(work_for(PairSide::Frontend, Direction::Outbound))
    } else if k == 4 || k == 6 {
        Some(work_for(PairSide::Backend, Direction::Inbound))
    } else if k == 5 || k == 7 {
        Some(work_for(PairSide::Backend, Direction::Outbound))
    } else {
        None
    }
}

/// Tells what an event of a queue pair is about.
pub fn classify_pair_event(last: u16, event: u16) -> (work: Option<PairWork>)
    requires
        last + 2 * PAIR_EVENTS <= u16::MAX,
    ensures
        work == pair_work(last, event),
{
    if event <= last {
        return None;
    }
    match event - last - 1 {
        // The frontend has sent requests, or the backend has read them.
        0 | 2 => Some(PairWork { side: PairSide::Frontend, direction: Direction::Inbound, queue: 1 }),
        // The backend has sent replies, or the frontend has read them.
        1 | 3 => Some(PairWork { side: PairSide::Frontend, direction: Direction::Outbound, queue: 2 }),
        // The frontend has sent replies, or the backend has read them.
        4 | 6 => Some(PairWork { side: PairSide::Backend, direction: Direction::Inbound, queue: 3 }),
        // The backend has sent requests, or the frontend has read them.
        5 | 7 => Some(PairWork { side: PairSide::Backend, direction: Direction::Outbound, queue: 4 }),
        _ => None,
    }
}

/// A descriptor of a pair to watch, the number of its event, and the flags. Without
/// flags it is watched in the ordinary way, for input.
#[derive(Clone, Copy, Debug, PartialEq, Eq, Structural)]
pub struct PairWatch {
    pub fd: PairFd,
    pub id: u16,
    pub events: Option<u32>,
}

/// The descriptors of a pair that are watched.
pub open spec fn pair_watches(base: u16, has_socket: bool) -> Seq<PairWatch> {
    let queues = seq![
        PairWatch { fd: PairFd::QueueIn, id: base, events: None },
        PairWatch { fd: PairFd::QueueOut, id: (base + 1) as u16, events: None },
    ];
    if has_socket {
        queues + socket_watches((base + 2) as u16)
    } else {
        queues
    }
}

/// The two ways in which a socket is watched.
pub open spec fn socket_watches(first: u16) -> Seq<PairWatch> {
    seq![
        PairWatch { fd: PairFd::SocketIn, id: first, events: None },
        PairWatch { fd: PairFd::SocketOut, id: (first + 1) as u16, events: Some(interest_mask(Interest::Writable)) },
    ]
}

/// Says how a pair's descriptors are watched.
pub fn register_epoll_events(base: u16, has_socket: bool) -> (watches: Vec<PairWatch>)
    requires
        base + 3 <= u16::MAX,
    ensures
        watches@ == pair_watches(base, has_socket),
{
    let mut watches: Vec<PairWatch> = Vec::new();
    watches.push(PairWatch { fd: PairFd::QueueIn, id: base, events: None });
    watches.push(PairWatch { fd: PairFd::QueueOut, id: base + 1, events: None });
    if has_socket {
        let mut sockets = register_socket(base + 2);
        watches.append(&mut sockets);
    }
    assert(watches@ =~= pair_watches(base, has_socket));
    watches
}

/// Says how a socket is watched, given the number of its first event.
pub fn register_socket(first: u16) -> (watches: Vec<PairWatch>)
    requires
        first < u16::MAX,
    ensures
        watches@ == socket_watches(first),
{
    let mut watches: Vec<PairWatch> = Vec::new();
    watches.push(PairWatch { fd: PairFd::SocketIn, id: first, events: None });
    watches.push(PairWatch { fd: PairFd::SocketOut, id: first + 1, events: Some(Interest::Writable.mask()) });
    assert(watches@ =~= socket_watches(first));
    watches
}

/// How many messages of one kind are carried before it is the next one's turn.
pub const MAX_ITERATIONS: usize = 50;

/// What has to be done next for an event.
#[derive(Clone, Copy, Debug, PartialEq, Eq, Structural)]
pub enum LoopAction {
    /// Carry messages of a queue pair, one way.
    Process { side: PairSide, direction: Direction, max_iterations: usize },
    /// Watch the descriptor that has to become ready.
    Watch { events: u32, data: u64 },
    /// Notify the guest of a queue.
    Trigger { queue: u16 },
    /// Take the socket for requests of the backend, if it came.
    TakeSocket,
    /// The event was worked off.
    Finish,
}

/// Which outcome is awaited.
#[derive(Clone, Copy, Debug, PartialEq, Eq, Structural)]
pub enum LoopStage {
    Idle,
    Processing,
    Watching,
    Triggering,
    Adopting,
}

/// An event of a queue pair that is being worked off.
#[derive(Clone, Copy, Debug, PartialEq, Eq, Structural)]
pub struct EventLoop {
    pub event: u16,
    pub work: PairWork,
    /// Something was done, and the guest is to be notified.
    pub produced: bool,
    /// There is more to do at once.
    pub again: bool,
    pub stage: LoopStage,
}

impl EventLoop {
    /// Starts with an event.
    pub open spec fn started(event: u16, work: PairWork) -> (EventLoop, LoopAction) {
        (
            EventLoop { event, work, produced: false, again: false, stage: LoopStage::Processing },
            LoopAction::Process { side: work.side, direction: work.direction, max_iterations: MAX_ITERATIONS },
        )
    }

    /// Messages were carried.
    pub open spec fn on_processed(self, polled: Option<Direction>, produced: bool) -> (EventLoop, LoopAction) {
        let next = EventLoop { produced, again: polled is None, ..self };
        match polled {
            Some(direction) => (
                EventLoop { stage: LoopStage::Watching, ..next },
                LoopAction::Watch {
                    events: interest_mask(
                        if direction == Direction::Inbound {
                            Interest::ReadableEdge
                        } else {
                            Interest::WritableEdge
                        },
                    ),
                    data: self.event as u64,
                },
            ),
            None => next.on_watched(),
        }
    }

    /// The descriptor is watched.
    pub open spec fn on_watched(self) -> (EventLoop, LoopAction) {
        if self.produced {
            (EventLoop { stage: LoopStage::Triggering, ..self }, LoopAction::Trigger { queue: self.work.queue })
        } else {
            self.on_triggered()
        }
    }

    /// The guest was notified.
    pub open spec fn on_triggered(self) -> (EventLoop, LoopAction) {
        (EventLoop { stage: LoopStage::Adopting, ..self }, LoopAction::TakeSocket)
    }

    /// The socket for requests of the backend was taken, or there is none.
    pub open spec fn on_adopted(self) -> (EventLoop, LoopAction) {
        if self.again {
            EventLoop::started(self.event, self.work)
        } else {
            (EventLoop { stage: LoopStage::Idle, ..self }, LoopAction::Finish)
        }
    }

    /// Starts with an event.
    pub fn start(event: u16, work: PairWork) -> (started: (EventLoop, LoopAction))
        ensures
            started == EventLoop::started(event, work),
    {
        (
            EventLoop { event, work, produced: false, again: false, stage: LoopStage::Processing },
            LoopAction::Process { side: work.side, direction: work.direction, max_iterations: MAX_ITERATIONS },
        )
    }

    /// Messages were carried. `polled` is the way in which the descriptor is used
    /// that has to become ready before there is more to do.
    pub fn processed(&mut self, polled: Option<Direction>, produced: bool) -> (action: LoopAction)
        requires
            old(self).stage == LoopStage::Processing,
        ensures
            (*final(self), action) == old(self).on_processed(polled, produced),
    {
        self.produced = produced;
        self.again = polled.is_none();
        match polled {
            Some(direction) => {
                let interest = match direction {
                    Direction::Inbound => Interest::ReadableEdge,
                    Direction::Outbound => Interest::WritableEdge,
                };
                self.stage = LoopStage::Watching;
                LoopAction::Watch { events: interest.mask(), data: self.event as u64 }
            },
            None => {
                self.stage = LoopStage::Watching;
                self.watched()
            },
        }
    }

    /// The descriptor is watched.
    pub fn watched(&mut self) -> (action: LoopAction)
        requires
            old(self).stage == LoopStage::Watching,
        ensures
            (*final(self), action) == old(self).on_watched(),
    {
        self.stage = LoopStage::Triggering;
        if self.produced {
            LoopAction::Trigger { queue: self.work.queue }
        } else {
            self.triggered()
        }
    }

    /// The guest was notified.
    pub fn triggered(&mut self) -> (action: LoopAction)
        requires
            old(self).stage == LoopStage::Triggering,
        ensures
            (*final(self), action) == old(self).on_triggered(),
    {
        self.stage = LoopStage::Adopting;
        LoopAction::TakeSocket
    }

    /// The socket for requests of the backend was taken, or there is none.
    pub fn adopted(&mut self) -> (action: LoopAction)
        requires
            old(self).stage == LoopStage::Adopting,
        ensures
            (*final(self), action) == old(self).on_adopted(),
    {
        if self.again {
            let (next, action) = EventLoop::start(self.event, self.work);
            *self = next;
            action
        } else {
            self.stage = LoopStage::Idle;
            LoopAction::Finish
        }
    }
}

/// The events for which the descriptors of a pair are watched lead back to that
/// pair, and to the way that the descriptor has to do with.
pub proof fn law_watched_events_come_back(last: u16, side: PairSide, fd: PairFd)
    requires
        last + 2 * PAIR_EVENTS <= u16::MAX,
    ensures
        pair_work(last, pair_event_code(last, side, fd) as u16) == Some(work_for(side, pair_fd_direction(fd))),
        ({
            let base = pair_event_code(last, side, PairFd::QueueIn) as u16;
            let watch = pair_watches(base, true)[pair_fd_index(fd)];
            watch.fd == fd && watch.id == pair_event_code(last, side, fd)
        }),
{
}

/// No two descriptors share an event.
pub proof fn law_events_are_distinct(last: u16, side: PairSide, fd: PairFd, other_side: PairSide, other_fd: PairFd)
    requires
        pair_event_code(last, side, fd) == pair_event_code(last, other_side, other_fd),
    ensures
        side == other_side && fd == other_fd,
{
}

/// No work is forgotten: an event is done with only once a descriptor is watched
/// for it, under the event's own number. Until then the event goes on at once. The
/// guest is notified exactly if something was done.
pub proof fn law_no_work_is_forgotten(run: EventLoop, polled: Option<Direction>, produced: bool)
    requires
        run.stage == LoopStage::Processing,
    ensures
        ({
            let (watching, watch) = run.on_processed(polled, produced);
            let (triggering, trigger) = if polled is Some {
                watching.on_watched()
            } else {
                (watching, watch)
            };
            let (adopting, take) = if produced {
                triggering.on_triggered()
            } else {
                (triggering, trigger)
            };
            let (after, end) = adopting.on_adopted();
            &&& polled is Some ==> watch is Watch && watch->data == run.event
            &&& produced <==> trigger == (LoopAction::Trigger { queue: run.work.queue })
            &&& take == LoopAction::TakeSocket
            &&& end == LoopAction::Finish <==> polled is Some
            &&& polled is None ==> (after, end) == EventLoop::started(run.event, run.work)
        }),
{
}

/// A descriptor is watched for what it is used for: when it can be read if messages are
/// taken from it, when it can be written if they are put into it, and in both cases only
/// when that changes. The event that it tells of is the one that goes on with it.
pub proof fn law_watched_for_what_it_is_used_for(run: EventLoop, direction: Direction, produced: bool)
    ensures
        run.on_processed(Some(direction), produced).1 matches LoopAction::Watch { events, data } && {
            &&& data == run.event
            &&& events & 0x8000_0000 == 0x8000_0000
            &&& events & 1 == 1 <==> direction == Direction::Inbound
            &&& events & 4 == 4 <==> direction == Direction::Outbound
            &&& events & !0x8000_0005 == 0
        },
{
    assert(0x8000_0001u32 & 0x8000_0000 == 0x8000_0000 && 0x8000_0001u32 & 1 == 1 && 0x8000_0001u32 & 4 == 0
        && 0x8000_0001u32 & !0x8000_0005u32 == 0) by (bit_vector);
    assert(0x8000_0004u32 & 0x8000_0000 == 0x8000_0000 && 0x8000_0004u32 & 1 == 0 && 0x8000_0004u32 & 4 == 4
        && 0x8000_0004u32 & !0x8000_0005u32 == 0) by (bit_vector);
}

/// The flags of an interest: the first bit to read, the third to write, the fourteenth to
/// hear of a peer that has gone, the two highest to be told once or only of changes.
pub proof fn law_interests_have_their_flags(interest: Interest)
    ensures
        ({
            let mask = interest_mask(interest) as int;
            &&& mask % 2 == 1 <==> interest != Interest::Writable && interest != Interest::WritableEdge
            &&& mask / 4 % 2 == 1 <==> interest == Interest::Writable || interest == Interest::WritableEdge
            &&& mask / 0x2000 % 2 == 1 <==> interest == Interest::ReadableOrClosed
            &&& mask / 0x4000_0000 % 2 == 1 <==> interest == Interest::ReadableOnce
            &&& mask / 0x8000_0000 == 1 <==> interest == Interest::ReadableEdge || interest == Interest::WritableEdge
            &&& mask == (mask % 2) + 4 * (mask / 4 % 2) + 0x2000 * (mask / 0x2000 % 2) + 0x4000_0000 * (mask
                / 0x4000_0000 % 2) + 0x8000_0000 * (mask / 0x8000_0000)
        }),
{
}

/// The eight numbers behind the last one that is taken are the events of the pairs: the
/// first four of the frontend's, the others of the backend's. Odd places have to do with
/// messages that go out. The queues are numbered in that order, from 1 on.
pub proof fn law_events_are_numbered_in_order(last: u16, event: u16)
    ensures
        pair_work(last, event) is Some <==> 1 <= event - last <= 8,
        pair_work(last, event) matches Some(work) ==> {
            let k = event - last - 1;
            &&& work.side == (if k < 4 { PairSide::Frontend } else { PairSide::Backend })
            &&& work.direction == (if k % 2 == 0 { Direction::Inbound } else { Direction::Outbound })
            &&& work.queue == 1 + k % 2 + 2 * (k / 4)
        },
{
}

/// The descriptors of a pair are watched under consecutive numbers, from the base on. The
/// last of four is the socket that is written.
pub proof fn law_watches_are_numbered_in_order(base: u16, has_socket: bool, i: int)
    requires
        base + 3 <= u16::MAX,
        0 <= i < pair_watches(base, has_socket).len(),
    ensures
        pair_watches(base, has_socket).len() == (if has_socket { 4int } else { 2 }),
        pair_watches(base, has_socket)[i].id == base + i,
        pair_fd_index(pair_watches(base, has_socket)[i].fd) == i,
        pair_watches(base, has_socket)[i].events == (if i == 3 { Some(4u32) } else { None }),
        has_socket ==> pair_watches(base, true).skip(2) == socket_watches((base + 2) as u16),
{
    if has_socket {
        assert(pair_watches(base, true).skip(2) =~= socket_watches((base + 2) as u16));
    }
}

/// The number of an event is made of the last one that is taken, the pair and the
/// descriptor: queues before sockets, the way in before the way out.
pub proof fn law_event_numbers_add_up(last: u16, side: PairSide, fd: PairFd)
    ensures
        pair_event_code(last, side, fd) == last + 1 + (if side == PairSide::Backend { 4int } else { 0 }) + (if fd
            == PairFd::SocketIn || fd == PairFd::SocketOut {
            2int
        } else {
            0
        }) + (if fd == PairFd::QueueOut || fd == PairFd::SocketOut { 1int } else { 0 }),
        pair_fd_index(fd) == pair_event_code(last, PairSide::Frontend, fd) - last - 1,
{
}

/// Every round carries messages of the pair that the event is about, its way, and fifty
/// at most. Nothing of the event is forgotten between the rounds.
pub proof fn law_rounds_are_alike(event: u16, work: PairWork, run: EventLoop, polled: Option<Direction>, produced: bool)
    ensures
        EventLoop::started(event, work).1 == (LoopAction::Process {
            side: work.side,
            direction: work.direction,
            max_iterations: 50,
        }),
        EventLoop::started(event, work).0.event == event,
        EventLoop::started(event, work).0.work == work,
        EventLoop::started(event, work).0.stage == LoopStage::Processing,
        run.on_processed(polled, produced).0.event == run.event,
        run.on_processed(polled, produced).0.work == run.work,
        run.on_watched().0.event == run.event,
        run.on_watched().0.work == run.work,
        run.on_watched().1 == (if run.produced {
            LoopAction::Trigger { queue: run.work.queue }
        } else {
            LoopAction::TakeSocket
        }),
        run.on_triggered().1 == LoopAction::TakeSocket,
        run.on_triggered().0.again == run.again,
        run.on_adopted().1 == LoopAction::Finish <==> !run.again,
{
}

/// The outcome that is awaited after an action.
pub open spec fn awaited(action: LoopAction) -> LoopStage {
    match action {
        LoopAction::Process { .. } => LoopStage::Processing,
        LoopAction::Watch { .. } => LoopStage::Watching,
        LoopAction::Trigger { .. } => LoopStage::Triggering,
        LoopAction::TakeSocket => LoopStage::Adopting,
        LoopAction::Finish => LoopStage::Idle,
    }
}

/// What is awaited is always the outcome of what has to be done. What came of a round is
/// kept until the next one, which starts with nothing.
pub proof fn law_outcome_of_the_action_is_awaited(
    event: u16,
    work: PairWork,
    run: EventLoop,
    polled: Option<Direction>,
    produced: bool,
)
    ensures
        ({
            let (first, action) = EventLoop::started(event, work);
            first.stage == awaited(action) && !first.produced && !first.again
        }),
        ({
            let (next, action) = run.on_processed(polled, produced);
            next.stage == awaited(action) && next.produced == produced && next.again == (polled is None)
        }),
        ({
            let (next, action) = run.on_watched();
            next.stage == awaited(action) && next.produced == run.produced && next.again == run.again
        }),
        ({
            let (next, action) = run.on_triggered();
            next.stage == awaited(action) && next.produced == run.produced && next.event == run.event && next.work
                == run.work
        }),
        ({
            let (next, action) = run.on_adopted();
            next.stage == awaited(action) && next.event == run.event && next.work == run.work
        }),
{
}

} // verus!
