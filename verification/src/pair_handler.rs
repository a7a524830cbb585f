//! How the events of a device's two queue pairs are handled.

use crate::error::{Error, IoCause};
use crate::event_loop::{
    pair_base, pair_event_code, pair_work, EventLoop, LoopAction, LoopStage, PairFd, PairSide, PairWork,
    PAIR_EVENTS,
};
use crate::frontend_request::FrontendRequestQueuePair;
use crate::queue_pair::{
    extract_fd, polled_direction, polled_way, Direction, FdRearm, PolledFd, VirtioVhostUserQueuePair,
};
use vstd::prelude::*;

verus! {

/// Why an event was not handled.
#[derive(Debug, PartialEq, Eq)]
pub enum HandlerError {
    /// An earlier event failed.
    NeedsReset,
    UnknownEvent,
    /// Messages could not be carried.
    Process(Error),
    /// The guest could not be notified.
    Trigger(IoCause),
    /// A descriptor could not be watched.
    Register(IoCause),
    /// There is a socket for requests of the backend already.
    SetSocket(Error),
}

/// What has to be done next.
#[derive(Debug, PartialEq, Eq)]
pub enum HandlerAction {
    /// Carry messages of a queue pair, one way.
    Process { side: PairSide, direction: Direction, max_iterations: usize },
    /// Watch the descriptor that has to become ready.
    Watch { events: u32, data: u64 },
    /// Notify the guest of a queue.
    Trigger { queue: u16 },
    /// Watch the new socket; this is the number of its first event.
    RegisterSocket { first: u16 },
    /// Nothing more to do now.
    Finish(Result<(), HandlerError>),
}

/// The queue pairs of a device, and the event that is being handled.
pub struct PairHandler<F, E, S, U> {
    pub frontend_requests: FrontendRequestQueuePair<F, E, S, U>,
    pub backend_requests: VirtioVhostUserQueuePair<F, E, S>,
    /// The last event number that is taken.
    pub last: u16,
    /// An event failed, and no more are handled.
    pub needs_reset: bool,
    /// The event of a pair that is being handled.
    pub run: Option<EventLoop>,
    /// The socket for requests of the backend, until it is put to use.
    pub backend_socket: Option<S>,
    /// The socket that is about to be watched.
    pub new_socket: Option<S>,
}

impl<F, E, S, U> PairHandler<F, E, S, U> {
    /// The event that is being handled is one of a pair, and a socket is about to be
    /// watched only when it is its turn.
    pub open spec fn wf(&self) -> bool {
        &&& self.last + 2 * PAIR_EVENTS <= u16::MAX
        &&& self.frontend_requests.wf()
        &&& self.backend_requests.wf()
        &&& self.run matches Some(run) ==> {
            &&& pair_work(self.last, run.event) == Some(run.work)
            &&& run.stage != LoopStage::Idle
            &&& run.stage == LoopStage::Adopting <==> self.new_socket is Some
        }
    }

    /// No event is being handled.
    pub open spec fn is_idle(&self) -> bool {
        self.run is None && self.new_socket is None
    }

    /// The handling of the present event awaits this.
    pub open spec fn awaits(&self, stage: LoopStage) -> bool {
        self.run matches Some(run) && run.stage == stage
    }

    /// The pair that the present event is about.
    pub open spec fn present_pair(&self) -> VirtioVhostUserQueuePair<F, E, S> {
        match self.run->0.work.side {
            PairSide::Frontend => self.frontend_requests.queue_pair,
            PairSide::Backend => self.backend_requests,
        }
    }

    /// Gives up. From now on the device has to be reset.
    pub open spec fn failed(self, e: HandlerError) -> (PairHandler<F, E, S, U>, HandlerAction) {
        (
            PairHandler { needs_reset: true, run: None, new_socket: None, ..self },
            HandlerAction::Finish(Err(e)),
        )
    }

    /// Goes on with an event.
    pub open spec fn goes_on(self, step: (EventLoop, LoopAction)) -> (PairHandler<F, E, S, U>, HandlerAction) {
        let next = PairHandler { run: Some(step.0), ..self };
        match step.1 {
            LoopAction::Process { side, direction, max_iterations } => (
                next,
                HandlerAction::Process { side, direction, max_iterations },
            ),
            LoopAction::Watch { events, data } => (next, HandlerAction::Watch { events, data }),
            LoopAction::Trigger { queue } => (next, HandlerAction::Trigger { queue }),
            LoopAction::TakeSocket => next.takes_socket(),
            LoopAction::Finish => self.finishes(),
        }
    }

    /// Puts the socket for requests of the backend to use, if it came.
    pub open spec fn takes_socket(self) -> (PairHandler<F, E, S, U>, HandlerAction) {
        if self.backend_socket is Some {
            (
                PairHandler { new_socket: self.backend_socket, backend_socket: None, ..self },
                HandlerAction::RegisterSocket {
                    first: pair_event_code(self.last, PairSide::Backend, PairFd::SocketIn) as u16,
                },
            )
        } else {
            self.after_socket()
        }
    }

    /// Goes on once there is no socket to put to use: with the present event, if it is
    /// one of a pair that has more to do.
    pub open spec fn after_socket(self) -> (PairHandler<F, E, S, U>, HandlerAction) {
        match self.run {
            Some(run) => match run.on_adopted() {
                (next, LoopAction::Process { side, direction, max_iterations }) => (
                    PairHandler { run: Some(next), ..self },
                    HandlerAction::Process { side, direction, max_iterations },
                ),
                _ => self.finishes(),
            },
            None => self.finishes(),
        }
    }

    /// The event was handled.
    pub open spec fn finishes(self) -> (PairHandler<F, E, S, U>, HandlerAction) {
        (PairHandler { run: None, ..self }, HandlerAction::Finish(Ok(())))
    }

    /// Gives up.
    pub fn fail(&mut self, e: HandlerError) -> (action: HandlerAction)
        requires
            old(self).wf(),
        ensures
            final(self).wf(),
            final(self).is_idle(),
            (*final(self), action) == old(self).failed(e),
    {
        self.needs_reset = true;
        self.run = None;
        self.new_socket = None;
        HandlerAction::Finish(Err(e))
    }

    fn after(&mut self) -> (action: HandlerAction)
        requires
            old(self).run matches Some(run) ==> run.stage == LoopStage::Adopting,
        ensures
            (*final(self), action) == old(self).after_socket(),
    {
        if let Some(run) = self.run {
            let mut run = run;
            match run.adopted() {
                LoopAction::Process { side, direction, max_iterations } => {
                    self.run = Some(run);
                    return HandlerAction::Process { side, direction, max_iterations };
                },
                _ => {
                    self.run = None;
                },
            }
        }
        HandlerAction::Finish(Ok(()))
    }

    fn take_socket(&mut self) -> (action: HandlerAction)
        requires
            old(self).last + 2 * PAIR_EVENTS <= u16::MAX,
            old(self).run matches Some(run) ==> run.stage == LoopStage::Adopting,
        ensures
            (*final(self), action) == old(self).takes_socket(),
    {
        match self.backend_socket.take() {
            Some(socket) => {
                self.new_socket = Some(socket);
                HandlerAction::RegisterSocket { first: pair_base(self.last, PairSide::Backend) + 2 }
            },
            None => self.after(),
        }
    }

    fn go_on(&mut self, run: EventLoop, action: LoopAction) -> (next: HandlerAction)
        requires
            old(self).last + 2 * PAIR_EVENTS <= u16::MAX,
            action == LoopAction::TakeSocket ==> run.stage == LoopStage::Adopting,
        ensures
            (*final(self), next) == old(self).goes_on((run, action)),
    {
        self.run = Some(run);
        match action {
            LoopAction::Process { side, direction, max_iterations } => HandlerAction::Process {
                side,
                direction,
                max_iterations,
            },
            LoopAction::Watch { events, data } => HandlerAction::Watch { events, data },
            LoopAction::Trigger { queue } => HandlerAction::Trigger { queue },
            LoopAction::TakeSocket => self.take_socket(),
            LoopAction::Finish => {
                self.run = None;
                HandlerAction::Finish(Ok(()))
            },
        }
    }

    /// Keeps the socket for requests of the backend, until it is put to use.
    pub fn backend_request_socket(&mut self, socket: S)
        ensures
            *final(self) == (PairHandler { backend_socket: Some(socket), ..*old(self) }),
    {
        self.backend_socket = Some(socket);
    }

    /// Starts to handle an event of a pair.
    pub fn start(&mut self, event: u16, work: PairWork) -> (action: HandlerAction)
        requires
            old(self).wf(),
            old(self).is_idle(),
            pair_work(old(self).last, event) == Some(work),
        ensures
            final(self).wf(),
            (*final(self), action) == old(self).goes_on(EventLoop::started(event, work)),
    {
        let (run, action) = EventLoop::start(event, work);
        self.go_on(run, action)
    }

    /// Puts the socket for requests of the backend to use, if it came.
    pub fn adopt_socket(&mut self) -> (action: HandlerAction)
        requires
            old(self).wf(),
            old(self).is_idle(),
        ensures
            final(self).wf(),
            (*final(self), action) == old(self).takes_socket(),
    {
        self.take_socket()
    }

    /// The descriptor that has to become ready before the present event can go on.
    pub fn polled_fd(&self, rearm: FdRearm) -> (polled: Option<(PolledFd<'_, E, S>, Direction)>)
        requires
            self.run is Some,
            rearm == FdRearm::Socket ==> self.present_pair().socket is Some,
        ensures
            ({
                let pair = self.present_pair();
                let direction = self.run->0.work.direction;
                match rearm {
                    FdRearm::Neither => polled is None,
                    FdRearm::Queue => {
                        &&& polled matches Some((PolledFd::Queue(fd), way))
                        &&& way == Direction::Inbound
                        &&& *fd == (if direction == Direction::Inbound {
                            pair.front2back_queue_evt
                        } else {
                            pair.back2front_queue_evt
                        })
                    },
                    FdRearm::Socket => {
                        &&& polled matches Some((PolledFd::Socket(socket), way))
                        &&& way == direction
                        &&& *socket == pair.socket->0
                    },
                }
            }),
    {
        match self.run {
            Some(run) => {
                let fds = match run.work.side {
                    PairSide::Frontend => self.frontend_requests.fds(),
                    PairSide::Backend => self.backend_requests.fds(),
                };
                extract_fd(run.work.direction, rearm, fds)
            },
            None => None,
        }
    }

    /// Messages were carried, or could not be.
    pub fn processed(&mut self, result: Result<(FdRearm, bool), Error>) -> (action: HandlerAction)
        requires
            old(self).wf(),
            old(self).awaits(LoopStage::Processing),
        ensures
            final(self).wf(),
            (*final(self), action) == (match result {
                Err(e) => old(self).failed(HandlerError::Process(e)),
                Ok((rearm, produced)) => old(self).goes_on(
                    old(self).run->0.on_processed(
                        polled_way(old(self).run->0.work.direction, rearm),
                        produced,
                    ),
                ),
            }),
    {
        match result {
            Err(e) => self.fail(HandlerError::Process(e)),
            Ok((rearm, produced)) => match self.run {
                Some(run) => {
                    let mut run = run;
                    let way = polled_direction(run.work.direction, rearm);
                    let action = run.processed(way, produced);
                    self.go_on(run, action)
                },
                None => HandlerAction::Finish(Ok(())),
            },
        }
    }

    /// The descriptor is watched.
    pub fn watched(&mut self) -> (action: HandlerAction)
        requires
            old(self).wf(),
            old(self).awaits(LoopStage::Watching),
        ensures
            final(self).wf(),
            (*final(self), action) == old(self).goes_on(old(self).run->0.on_watched()),
    {
        match self.run {
            Some(run) => {
                let mut run = run;
                let action = run.watched();
                self.go_on(run, action)
            },
            None => HandlerAction::Finish(Ok(())),
        }
    }

    /// The guest was notified, or could not be.
    pub fn triggered(&mut self, result: Result<(), IoCause>) -> (action: HandlerAction)
        requires
            old(self).wf(),
            old(self).awaits(LoopStage::Triggering),
        ensures
            final(self).wf(),
            (*final(self), action) == (match result {
                Err(cause) => old(self).failed(HandlerError::Trigger(cause)),
                Ok(_) => old(self).goes_on(old(self).run->0.on_triggered()),
            }),
    {
        match result {
            Err(cause) => self.fail(HandlerError::Trigger(cause)),
            Ok(_) => match self.run {
                Some(run) => {
                    let mut run = run;
                    let action = run.triggered();
                    self.go_on(run, action)
                },
                None => HandlerAction::Finish(Ok(())),
            },
        }
    }

    /// The new socket is watched, or could not be. It becomes the socket for requests
    /// of the backend, unless there is one.
    pub fn socket_registered(&mut self, result: Result<(), IoCause>) -> (action: HandlerAction)
        requires
            old(self).wf(),
            old(self).new_socket is Some,
        ensures
            final(self).wf(),
            (*final(self), action) == (match result {
                Err(cause) => old(self).failed(HandlerError::Register(cause)),
                Ok(_) => if old(self).backend_requests.socket is Some {
                    old(self).failed(HandlerError::SetSocket(Error::InvalidMessage))
                } else {
                    (PairHandler {
                        backend_requests: VirtioVhostUserQueuePair {
                            socket: old(self).new_socket,
                            ..old(self).backend_requests
                        },
                        new_socket: None::<S>,
                        ..*old(self)
                    }).after_socket()
                },
            }),
    {
        if let Err(cause) = result {
            return self.fail(HandlerError::Register(cause));
        }
        if let Some(socket) = self.new_socket.take() {
            if let Err(e) = self.backend_requests.set_socket(socket) {
                self.needs_reset = true;
                self.run = None;
                return HandlerAction::Finish(Err(HandlerError::SetSocket(e)));
            }
        }
        self.after()
    }
}

/// What an event calls for is done, and nothing else: the pairs, the numbers and the
/// mark stay as they are. When it is the socket's turn and there is one, it is about to
/// be watched under the number of the backend's socket, and no longer waits.
pub proof fn law_handler_does_what_the_event_calls_for<F, E, S, U>(
    handler: PairHandler<F, E, S, U>,
    run: EventLoop,
    action: LoopAction,
)
    requires
        handler.last + 2 * PAIR_EVENTS <= u16::MAX,
    ensures
        ({
            let (after, next) = handler.goes_on((run, action));
            &&& after.frontend_requests == handler.frontend_requests
            &&& after.backend_requests == handler.backend_requests
            &&& after.last == handler.last
            &&& after.needs_reset == handler.needs_reset
            &&& action matches LoopAction::Process { side, direction, max_iterations } ==> next
                == (HandlerAction::Process { side, direction, max_iterations }) && after.run == Some(run)
            &&& action matches LoopAction::Watch { events, data } ==> next == (HandlerAction::Watch { events, data })
                && after.run == Some(run)
            &&& action matches LoopAction::Trigger { queue } ==> next == (HandlerAction::Trigger { queue }) && after.run
                == Some(run)
            &&& action == LoopAction::Finish ==> next == HandlerAction::Finish(Ok(())) && after.run is None
            &&& action == LoopAction::TakeSocket && handler.backend_socket is Some ==> {
                &&& next matches HandlerAction::RegisterSocket { first } && first == handler.last + 7
                &&& after.new_socket == handler.backend_socket
                &&& after.backend_socket is None
                &&& after.run == Some(run)
            }
            &&& action == LoopAction::TakeSocket && handler.backend_socket is None ==> {
                &&& after.new_socket == handler.new_socket
                &&& after.backend_socket is None
                &&& next == (if run.again {
                    HandlerAction::Process {
                        side: run.work.side,
                        direction: run.work.direction,
                        max_iterations: 50,
                    }
                } else {
                    HandlerAction::Finish(Ok(()))
                })
                &&& after.run is Some <==> run.again
                &&& after.run matches Some(r) ==> r == EventLoop::started(run.event, run.work).0
            }
            &&& action != LoopAction::TakeSocket ==> after.backend_socket == handler.backend_socket && after.new_socket
                == handler.new_socket
        }),
{
}

/// Where no event of a pair is being handled, a socket is put to use all the same, and
/// without one there is nothing to do.
pub proof fn law_socket_or_end<F, E, S, U>(handler: PairHandler<F, E, S, U>)
    requires
        handler.last + 2 * PAIR_EVENTS <= u16::MAX,
        handler.run is None,
    ensures
        handler.after_socket() == (handler, HandlerAction::Finish(Ok(()))),
        handler.backend_socket is None ==> handler.takes_socket() == (handler, HandlerAction::Finish(Ok(()))),
        handler.backend_socket is Some ==> {
            &&& handler.takes_socket().1 matches HandlerAction::RegisterSocket { first } && first == handler.last + 7
            &&& handler.takes_socket().0.new_socket == handler.backend_socket
            &&& handler.takes_socket().0.backend_requests == handler.backend_requests
            &&& handler.takes_socket().0.frontend_requests == handler.frontend_requests
        },
{
}

/// A failure is told, ends the event that is being handled, and marks the device. It
/// keeps the pairs, and the socket that still waits to be put to use.
pub proof fn law_failure_ends_the_event<F, E, S, U>(handler: PairHandler<F, E, S, U>, e: HandlerError)
    ensures
        ({
            let (after, action) = handler.failed(e);
            &&& action == HandlerAction::Finish(Err(e))
            &&& after.needs_reset
            &&& after.run is None
            &&& after.new_socket is None
            &&& after.backend_socket == handler.backend_socket
            &&& after.frontend_requests == handler.frontend_requests
            &&& after.backend_requests == handler.backend_requests
            &&& after.last == handler.last
        }),
{
}

/// The present pair is that of the side that the event is about.
pub proof fn law_present_pair_is_that_of_the_event<F, E, S, U>(handler: PairHandler<F, E, S, U>)
    requires
        handler.wf(),
        handler.run is Some,
    ensures
        handler.run->0.event - handler.last <= 4 ==> handler.present_pair()
            == handler.frontend_requests.queue_pair,
        handler.run->0.event - handler.last > 4 ==> handler.present_pair() == handler.backend_requests,
{
}

} // verus!
