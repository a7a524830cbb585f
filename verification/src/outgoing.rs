//! Messages from the guest's queue to the frontend's socket.
//!
//! A message is one readable descriptor. It is read, checked, and then sent, in
//! as many pieces as the socket takes. What the socket did not take waits.

use crate::byte_order::{u32_at, ByteOrder};
use crate::error::{Error, IoCause};
use crate::host::{classify_socket_errno, socket_failure, SocketFailure};
use crate::incoming::Descriptor;
use crate::message::{
    header_of, law_fields_stand_in_order, max_msg_size, msg_size_limit, VhostUserMsgHeader, HEADER_SIZE,
};
use crate::queue_pair::{header_is_valid, law_right_headers, validate_hdr, FdRearm};
use vstd::prelude::*;

verus! {

/// What came of an attempt to send.
#[derive(Clone, Copy, Debug, PartialEq, Eq, Structural)]
pub enum SendResult {
    /// The socket took so many bytes.
    Sent(usize),
    /// The attempt failed with this error number.
    Failed(i32),
}

/// What to do about a message that is being sent.
#[derive(Clone, Copy, Debug, PartialEq, Eq, Structural)]
pub enum SendStep {
    /// Send what is pending.
    Again,
    /// Nothing: the socket is full.
    Blocked,
    /// Nothing: the message was sent.
    Complete,
}

/// What has to be done next.
pub enum OutgoingAction {
    /// Take a descriptor chain off the queue from the guest.
    PopChain,
    /// Take the next descriptor off the chain.
    NextDescriptor,
    /// Translate a guest address.
    Translate { addr: u64, len: usize },
    /// Read the message from the guest.
    ReadGuest { addr: u64, len: usize },
    /// Process the message with this header. Its body may be changed.
    ProcessMessage(VhostUserMsgHeader),
    /// Send what is pending.
    Send,
    /// Nothing more to do now.
    Finish(Result<(FdRearm, bool), Error>),
}

/// Which outcome is awaited.
#[derive(Clone, Copy, Debug, PartialEq, Eq, Structural)]
pub enum OutgoingStage {
    /// None: nothing is going on.
    Idle,
    Popping,
    /// The first descriptor of a chain.
    Opening,
    Translating,
    Reading,
    Processing,
    /// The end of the chain.
    Closing,
    Sending,
}

/// A message on its way out.
pub struct OutgoingData {
    order: ByteOrder,
    outgoing_buf: Vec<u8>,
    offset: usize,
    has_socket: bool,
    translate: bool,
    left: usize,
    used: bool,
    stage: OutgoingStage,
}

/// What is known of a message on its way out.
pub ghost struct OutgoingView {
    pub order: ByteOrder,
    /// The message, empty if there is none.
    pub buf: Seq<u8>,
    /// How much of the message was sent.
    pub offset: nat,
    /// There is a socket to send to.
    pub has_socket: bool,
    /// Guest addresses have to be translated.
    pub translate: bool,
    /// How many messages may still be processed.
    pub left: nat,
    /// The guest is to be notified.
    pub used: bool,
    pub stage: OutgoingStage,
}

impl OutgoingView {
    /// What is awaited fits what is there: only a message that was accepted is kept
    /// while nothing is going on.
    pub open spec fn valid(self) -> bool {
        &&& self.buf.len() > 0 ==> self.offset < self.buf.len()
        &&& self.buf.len() == 0 ==> self.offset == 0
        &&& match self.stage {
            OutgoingStage::Idle => self.buf.len() == 0 || self.buf.len() >= HEADER_SIZE,
            OutgoingStage::Popping | OutgoingStage::Opening => self.left > 0 && self.buf.len() == 0,
            OutgoingStage::Translating | OutgoingStage::Reading => self.left > 0 && self.offset == 0,
            OutgoingStage::Processing | OutgoingStage::Closing => self.left > 0 && self.offset == 0 && self.buf.len()
                >= HEADER_SIZE,
            OutgoingStage::Sending => self.left > 0 && self.has_socket && self.buf.len() >= HEADER_SIZE,
        }
    }

    /// What is still to be sent.
    pub open spec fn pending(self) -> Seq<u8> {
        self.buf.skip(self.offset as int)
    }

    /// The socket took `n` bytes. Behind the last one the message is gone.
    pub open spec fn after_send(self, n: nat) -> OutgoingView {
        if self.offset + n == self.buf.len() {
            OutgoingView { buf: Seq::empty(), offset: 0, ..self }
        } else {
            OutgoingView { offset: self.offset + n, ..self }
        }
    }

    /// What comes of a message that is being sent.
    pub open spec fn on_send(self, attempt: SendResult) -> (OutgoingView, Result<SendStep, Error>) {
        match attempt {
            SendResult::Sent(n) => (
                self.after_send(n as nat),
                Ok(if self.offset + n == self.buf.len() { SendStep::Complete } else { SendStep::Again }),
            ),
            SendResult::Failed(errno) => (
                self,
                match socket_failure(errno) {
                    SocketFailure::WouldBlock => Ok(SendStep::Blocked),
                    SocketFailure::Interrupted => Ok(SendStep::Again),
                    SocketFailure::Fatal => Err(Error::ReqHandlerError(IoCause::Errno(errno))),
                },
            ),
        }
    }

    /// Stops with a result.
    pub open spec fn finish(self, result: Result<(FdRearm, bool), Error>) -> (OutgoingView, OutgoingAction) {
        (OutgoingView { stage: OutgoingStage::Idle, ..self }, OutgoingAction::Finish(result))
    }

    /// Stops with an error, and drops the message.
    pub open spec fn discard(self, e: Error) -> (OutgoingView, OutgoingAction) {
        (OutgoingView { buf: Seq::empty(), offset: 0, ..self }).finish(Err(e))
    }

    /// Goes to a stage, with what has to be done there.
    pub open spec fn enter(self, stage: OutgoingStage, action: OutgoingAction) -> (OutgoingView, OutgoingAction) {
        (OutgoingView { stage, ..self }, action)
    }

    /// Starts to send.
    pub open spec fn begin_send(self) -> (OutgoingView, OutgoingAction) {
        if self.has_socket {
            self.enter(OutgoingStage::Sending, OutgoingAction::Send)
        } else {
            self.finish(Err(Error::FeatureMismatch))
        }
    }

    /// Stops if enough messages were processed, else goes on with the message that
    /// waits, or with a new one.
    pub open spec fn go_on(self) -> (OutgoingView, OutgoingAction) {
        if self.left == 0 {
            self.finish(Ok((FdRearm::Neither, self.used)))
        } else if self.buf.len() == 0 {
            self.enter(OutgoingStage::Popping, OutgoingAction::PopChain)
        } else {
            self.begin_send()
        }
    }

    /// Starts to process up to `max_messages` messages.
    pub open spec fn start(self, max_messages: usize, translate: bool, has_socket: bool) -> (
        OutgoingView,
        OutgoingAction,
    ) {
        (OutgoingView { left: max_messages as nat, translate, has_socket, used: false, ..self }).go_on()
    }

    /// The queue had a descriptor chain, or none.
    pub open spec fn on_popped(self, found: bool) -> (OutgoingView, OutgoingAction) {
        if found {
            (OutgoingView { used: true, ..self }).enter(OutgoingStage::Opening, OutgoingAction::NextDescriptor)
        } else {
            self.finish(Ok((FdRearm::Queue, self.used)))
        }
    }

    /// The chain had another descriptor, or came to its end.
    pub open spec fn on_descriptor(self, descriptor: Option<Descriptor>) -> (OutgoingView, OutgoingAction) {
        if self.stage == OutgoingStage::Opening {
            self.on_first_descriptor(descriptor)
        } else if descriptor is Some {
            self.finish(Err(Error::InvalidMessage))
        } else {
            self.begin_send()
        }
    }

    /// The address of the message was translated, or could not be.
    pub open spec fn on_translated(self, translated: Result<u64, IoCause>) -> (OutgoingView, OutgoingAction) {
        match translated {
            Err(cause) => self.discard(Error::ReqHandlerError(cause)),
            Ok(addr) => self.enter(
                OutgoingStage::Reading,
                OutgoingAction::ReadGuest { addr, len: self.buf.len() as usize },
            ),
        }
    }

    /// The message was read from the guest, or could not be.
    pub open spec fn on_guest_read(self, message: Option<Seq<u8>>) -> (OutgoingView, OutgoingAction) {
        match message {
            Some(m) if header_is_valid(self.order, true, m) => (OutgoingView { buf: m, ..self }).enter(
                OutgoingStage::Processing,
                OutgoingAction::ProcessMessage(header_of(self.order, m)),
            ),
            _ => self.discard(Error::InvalidMessage),
        }
    }

    /// The message was accepted, or rejected.
    pub open spec fn on_processed(self, result: Result<(), Error>) -> (OutgoingView, OutgoingAction) {
        match result {
            Err(e) => self.discard(e),
            Ok(_) => self.enter(OutgoingStage::Closing, OutgoingAction::NextDescriptor),
        }
    }

    /// An attempt to send was made.
    pub open spec fn on_send_attempted(self, attempt: SendResult) -> (OutgoingView, OutgoingAction) {
        let (next, step) = self.on_send(attempt);
        match step {
            Err(e) => next.finish(Err(e)),
            Ok(SendStep::Again) => (next, OutgoingAction::Send),
            Ok(SendStep::Blocked) => next.finish(Ok((FdRearm::Socket, next.used))),
            Ok(SendStep::Complete) => (OutgoingView {
                left: (next.left - 1) as nat,
                stage: OutgoingStage::Idle,
                ..next
            }).go_on(),
        }
    }

    /// The first descriptor of a chain came: it has to be readable, and not longer
    /// than a message.
    pub open spec fn on_first_descriptor(self, descriptor: Option<Descriptor>) -> (OutgoingView, OutgoingAction) {
        match descriptor {
            None => self.finish(Err(Error::InvalidMessage)),
            Some(d) => {
                let len = d.len as usize;
                if d.write_only || d.len > msg_size_limit() {
                    self.finish(Err(Error::InvalidMessage))
                } else {
                    let next = OutgoingView { buf: Seq::new(d.len as nat, |i: int| 0u8), ..self };
                    if self.translate {
                        next.enter(OutgoingStage::Translating, OutgoingAction::Translate { addr: d.addr, len })
                    } else {
                        next.enter(OutgoingStage::Reading, OutgoingAction::ReadGuest { addr: d.addr, len })
                    }
                }
            },
        }
    }
}

impl View for OutgoingData {
    type V = OutgoingView;

    closed spec fn view(&self) -> OutgoingView {
        OutgoingView {
            order: self.order,
            buf: self.outgoing_buf@,
            offset: self.offset as nat,
            has_socket: self.has_socket,
            translate: self.translate,
            left: self.left as nat,
            used: self.used,
            stage: self.stage,
        }
    }
}

impl OutgoingData {
    /// What is awaited fits what is there.
    pub open spec fn wf(&self) -> bool {
        self@.valid()
    }

    /// No message yet.
    pub fn new(order: ByteOrder) -> (outgoing: OutgoingData)
        ensures
            outgoing.wf(),
            outgoing@.order == order,
            outgoing@.buf == Seq::<u8>::empty(),
            outgoing@.stage == OutgoingStage::Idle,
    {
        OutgoingData {
            order,
            outgoing_buf: Vec::new(),
            offset: 0,
            has_socket: false,
            translate: false,
            left: 0,
            used: false,
            stage: OutgoingStage::Idle,
        }
    }

    /// What is still to be sent.
    pub fn pending(&self) -> (bytes: &[u8])
        requires
            self.wf(),
        ensures
            bytes@ == self@.pending(),
    {
        vstd::slice::slice_subrange(self.outgoing_buf.as_slice(), self.offset, self.outgoing_buf.len())
    }

    /// The body of the message that is to be processed.
    pub fn body_mut(&mut self) -> (body: &mut [u8])
        requires
            old(self).wf(),
            old(self)@.stage == OutgoingStage::Processing,
        ensures
            body@ == old(self)@.buf.skip(HEADER_SIZE as int),
            final(self).wf(),
            final(self)@ == (OutgoingView {
                buf: old(self)@.buf.take(HEADER_SIZE as int) + final(body)@,
                ..old(self)@
            }),
    {
        let (_, body) = self.outgoing_buf.as_mut_slice().split_at_mut(HEADER_SIZE);
        body
    }

    fn finish(&mut self, result: Result<(FdRearm, bool), Error>) -> (action: OutgoingAction)
        requires
            old(self)@.buf.len() > 0 ==> old(self)@.offset < old(self)@.buf.len(),
            old(self)@.buf.len() == 0 ==> old(self)@.offset == 0,
            old(self)@.buf.len() == 0 || old(self)@.buf.len() >= HEADER_SIZE,
        ensures
            final(self).wf(),
            (final(self)@, action) == old(self)@.finish(result),
    {
        self.stage = OutgoingStage::Idle;
        OutgoingAction::Finish(result)
    }

    fn discard(&mut self, e: Error) -> (action: OutgoingAction)
        ensures
            final(self).wf(),
            (final(self)@, action) == old(self)@.discard(e),
    {
        self.outgoing_buf.clear();
        self.offset = 0;
        self.finish(Err(e))
    }

    /// Goes on with a message that is being sent.
    ///
    /// Once the message was sent, the buffer is empty.
    pub fn send_data(&mut self, attempt: SendResult) -> (step: Result<SendStep, Error>)
        requires
            old(self)@.offset <= old(self)@.buf.len(),
            attempt matches SendResult::Sent(n) ==> n <= old(self)@.pending().len(),
        ensures
            (final(self)@, step) == old(self)@.on_send(attempt),
    {
        match attempt {
            SendResult::Failed(errno) => match classify_socket_errno(errno) {
                SocketFailure::WouldBlock => Ok(SendStep::Blocked),
                SocketFailure::Interrupted => Ok(SendStep::Again),
                SocketFailure::Fatal => Err(Error::ReqHandlerError(IoCause::Errno(errno))),
            },
            SendResult::Sent(n) => {
                assert(self.outgoing_buf@.len() == self.outgoing_buf.len());
                self.offset = self.offset + n;
                if self.offset == self.outgoing_buf.len() {
                    self.outgoing_buf.clear();
                    self.offset = 0;
                    Ok(SendStep::Complete)
                } else {
                    Ok(SendStep::Again)
                }
            },
        }
    }

    fn begin_send(&mut self) -> (action: OutgoingAction)
        requires
            old(self)@.left > 0,
            old(self)@.offset < old(self)@.buf.len(),
            old(self)@.buf.len() >= HEADER_SIZE,
        ensures
            final(self).wf(),
            (final(self)@, action) == old(self)@.begin_send(),
    {
        if !self.has_socket {
            return self.finish(Err(Error::FeatureMismatch));
        }
        self.stage = OutgoingStage::Sending;
        OutgoingAction::Send
    }

    fn go_on(&mut self) -> (action: OutgoingAction)
        requires
            old(self).wf(),
            old(self)@.stage == OutgoingStage::Idle,
        ensures
            final(self).wf(),
            (final(self)@, action) == old(self)@.go_on(),
    {
        if self.left == 0 {
            let used = self.used;
            return self.finish(Ok((FdRearm::Neither, used)));
        }
        if self.outgoing_buf.len() == 0 {
            self.stage = OutgoingStage::Popping;
            OutgoingAction::PopChain
        } else {
            self.begin_send()
        }
    }

    /// Starts to process up to `max_messages` messages.
    pub fn process_outgoing(&mut self, max_messages: usize, translate: bool, has_socket: bool) -> (action: OutgoingAction)
        requires
            old(self).wf(),
            old(self)@.stage == OutgoingStage::Idle,
        ensures
            final(self).wf(),
            (final(self)@, action) == old(self)@.start(max_messages, translate, has_socket),
    {
        self.left = max_messages;
        self.translate = translate;
        self.has_socket = has_socket;
        self.used = false;
        self.go_on()
    }

    /// The queue had a descriptor chain, or none.
    pub fn chain_popped(&mut self, found: bool) -> (action: OutgoingAction)
        requires
            old(self).wf(),
            old(self)@.stage == OutgoingStage::Popping,
        ensures
            final(self).wf(),
            (final(self)@, action) == old(self)@.on_popped(found),
    {
        if !found {
            let used = self.used;
            return self.finish(Ok((FdRearm::Queue, used)));
        }
        self.used = true;
        self.stage = OutgoingStage::Opening;
        OutgoingAction::NextDescriptor
    }

    /// The chain had another descriptor, or came to its end. A message is one
    /// descriptor; a chain with a second one is an error. The message, which was
    /// accepted by then, stays to be sent.
    pub fn descriptor(&mut self, descriptor: Option<Descriptor>) -> (action: OutgoingAction)
        requires
            old(self).wf(),
            old(self)@.stage == OutgoingStage::Opening || old(self)@.stage == OutgoingStage::Closing,
        ensures
            final(self).wf(),
            (final(self)@, action) == old(self)@.on_descriptor(descriptor),
    {
        match self.stage {
            OutgoingStage::Opening => match descriptor {
                None => self.finish(Err(Error::InvalidMessage)),
                Some(d) => {
                    if d.write_only {
                        return self.finish(Err(Error::InvalidMessage));
                    }
                    let len: usize = d.len as usize;
                    if len > max_msg_size() {
                        return self.finish(Err(Error::InvalidMessage));
                    }
                    self.outgoing_buf.resize(len, 0);
                    assert(self.outgoing_buf@ =~= Seq::new(d.len as nat, |i: int| 0u8));
                    if self.translate {
                        self.stage = OutgoingStage::Translating;
                        OutgoingAction::Translate { addr: d.addr, len }
                    } else {
                        self.stage = OutgoingStage::Reading;
                        OutgoingAction::ReadGuest { addr: d.addr, len }
                    }
                },
            },
            _ => match descriptor {
                Some(_) => self.finish(Err(Error::InvalidMessage)),
                None => self.begin_send(),
            },
        }
    }

    /// The address of the message was translated, or could not be.
    pub fn translated(&mut self, translated: Result<u64, IoCause>) -> (action: OutgoingAction)
        requires
            old(self).wf(),
            old(self)@.stage == OutgoingStage::Translating,
        ensures
            final(self).wf(),
            (final(self)@, action) == old(self)@.on_translated(translated),
    {
        match translated {
            Err(cause) => self.discard(Error::ReqHandlerError(cause)),
            Ok(addr) => {
                self.stage = OutgoingStage::Reading;
                OutgoingAction::ReadGuest { addr, len: self.outgoing_buf.len() }
            },
        }
    }

    /// The message was read from the guest, or could not be. Its header has to be
    /// right.
    pub fn guest_read(&mut self, message: Option<Vec<u8>>) -> (action: OutgoingAction)
        requires
            old(self).wf(),
            old(self)@.stage == OutgoingStage::Reading,
            message matches Some(m) ==> m@.len() == old(self)@.buf.len(),
        ensures
            final(self).wf(),
            (final(self)@, action) == old(self)@.on_guest_read(
                match message {
                    Some(m) => Some(m@),
                    None => None,
                },
            ),
    {
        match message {
            None => self.discard(Error::InvalidMessage),
            Some(m) => {
                self.outgoing_buf = m;
                let ghost before = self.outgoing_buf@;
                let hdr = match validate_hdr(self.order, true, self.outgoing_buf.as_mut_slice()) {
                    Ok((hdr, _)) => hdr,
                    Err(e) => {
                        return self.discard(e);
                    },
                };
                assert(self.outgoing_buf@ =~= before);
                self.stage = OutgoingStage::Processing;
                OutgoingAction::ProcessMessage(hdr)
            },
        }
    }

    /// The message was accepted, or rejected. A rejected message is not sent.
    pub fn message_processed(&mut self, result: Result<(), Error>) -> (action: OutgoingAction)
        requires
            old(self).wf(),
            old(self)@.stage == OutgoingStage::Processing,
        ensures
            final(self).wf(),
            (final(self)@, action) == old(self)@.on_processed(result),
    {
        match result {
            Err(e) => self.discard(e),
            Ok(_) => {
                self.stage = OutgoingStage::Closing;
                OutgoingAction::NextDescriptor
            },
        }
    }

    /// An attempt to send was made.
    pub fn send_attempted(&mut self, attempt: SendResult) -> (action: OutgoingAction)
        requires
            old(self).wf(),
            old(self)@.stage == OutgoingStage::Sending,
            attempt matches SendResult::Sent(n) ==> n <= old(self)@.pending().len(),
        ensures
            final(self).wf(),
            (final(self)@, action) == old(self)@.on_send_attempted(attempt),
    {
        match self.send_data(attempt) {
            Err(e) => self.finish(Err(e)),
            Ok(SendStep::Again) => OutgoingAction::Send,
            Ok(SendStep::Blocked) => {
                let used = self.used;
                self.finish(Ok((FdRearm::Socket, used)))
            },
            Ok(SendStep::Complete) => {
                self.left = self.left - 1;
                self.stage = OutgoingStage::Idle;
                self.go_on()
            },
        }
    }
}

/// What happens when the socket takes so many bytes each time: what becomes of
/// the message, and the bytes that the socket got.
pub open spec fn sends(v: OutgoingView, counts: Seq<nat>) -> (OutgoingView, Seq<u8>)
    decreases counts.len(),
{
    if counts.len() == 0 {
        (v, Seq::empty())
    } else {
        let (after, rest) = sends(v.after_send(counts[0]), counts.skip(1));
        (after, v.pending().take(counts[0] as int) + rest)
    }
}

/// The socket never takes more than it is given.
pub open spec fn sends_fit(v: OutgoingView, counts: Seq<nat>) -> bool
    decreases counts.len(),
{
    counts.len() == 0 || (counts[0] <= v.pending().len() && sends_fit(v.after_send(counts[0]), counts.skip(1)))
}

/// However the socket cuts a message up, it gets every byte of it once and in
/// order: what it got, and what is still pending, is what was pending before.
pub proof fn law_message_is_sent_in_order(v: OutgoingView, counts: Seq<nat>)
    requires
        v.offset <= v.buf.len(),
        sends_fit(v, counts),
    ensures
        sends(v, counts).1 + sends(v, counts).0.pending() == v.pending(),
    decreases counts.len(),
{
    if counts.len() == 0 {
        assert(Seq::<u8>::empty() + v.pending() =~= v.pending());
    } else {
        let next = v.after_send(counts[0]);
        law_message_is_sent_in_order(next, counts.skip(1));
        let (after, rest) = sends(next, counts.skip(1));
        assert(next.pending() =~= v.pending().skip(counts[0] as int));
        assert(v.pending().take(counts[0] as int) + rest + after.pending() =~= v.pending().take(counts[0] as int) + (
        rest + after.pending()));
        assert(v.pending().take(counts[0] as int) + v.pending().skip(counts[0] as int) =~= v.pending());
    }
}

/// A message is reported as sent exactly when nothing of it is pending.
pub proof fn law_complete_means_all_sent(v: OutgoingView, n: usize)
    requires
        v.offset <= v.buf.len(),
        n <= v.pending().len(),
    ensures
        v.on_send(SendResult::Sent(n)).1 == Ok::<SendStep, Error>(SendStep::Complete) <==> v.pending().skip(n as int)
            == Seq::<u8>::empty(),
        v.on_send(SendResult::Sent(n)).1 == Ok::<SendStep, Error>(SendStep::Complete) ==> v.on_send(
            SendResult::Sent(n),
        ).0.buf == Seq::<u8>::empty(),
{
    let rest = v.pending().skip(n as int);
    assert(rest.len() == 0 ==> rest =~= Seq::<u8>::empty());
}

/// What can come of the actions of a run.
pub ghost enum OutgoingOutcome {
    Popped(bool),
    Described(Option<Descriptor>),
    Translated(Result<u64, IoCause>),
    GuestRead(Option<Seq<u8>>),
    /// The message was processed, and this is its body now.
    Processed { body: Seq<u8>, result: Result<(), Error> },
    SendAttempted(SendResult),
}

impl OutgoingView {
    /// The outcome is one that is awaited.
    pub open spec fn awaits(self, outcome: OutgoingOutcome) -> bool {
        match outcome {
            OutgoingOutcome::Popped(_) => self.stage is Popping,
            OutgoingOutcome::Described(_) => self.stage is Opening || self.stage is Closing,
            OutgoingOutcome::Translated(_) => self.stage is Translating,
            OutgoingOutcome::GuestRead(message) => self.stage is Reading && (message matches Some(m) ==> m.len()
                == self.buf.len()),
            OutgoingOutcome::Processed { body, .. } => self.stage is Processing && HEADER_SIZE + body.len()
                == self.buf.len(),
            OutgoingOutcome::SendAttempted(attempt) => self.stage is Sending && (attempt matches SendResult::Sent(n)
                ==> n <= self.pending().len()),
        }
    }

    /// What an outcome leads to.
    pub open spec fn step(self, outcome: OutgoingOutcome) -> (OutgoingView, OutgoingAction) {
        match outcome {
            OutgoingOutcome::Popped(found) => self.on_popped(found),
            OutgoingOutcome::Described(descriptor) => self.on_descriptor(descriptor),
            OutgoingOutcome::Translated(translated) => self.on_translated(translated),
            OutgoingOutcome::GuestRead(message) => self.on_guest_read(message),
            OutgoingOutcome::Processed { body, result } => (OutgoingView {
                buf: self.buf.take(HEADER_SIZE as int) + body,
                ..self
            }).on_processed(result),
            OutgoingOutcome::SendAttempted(attempt) => self.on_send_attempted(attempt),
        }
    }
}

/// A run so far: where it stands, what has to be done next, and how many messages
/// were taken off the queue, accepted, and sent whole.
pub ghost struct OutgoingRun {
    pub view: OutgoingView,
    pub action: OutgoingAction,
    pub popped: nat,
    pub accepted: nat,
    pub sent: nat,
}

impl OutgoingRun {
    /// The run after one more outcome.
    pub open spec fn goes_on(self, outcome: OutgoingOutcome) -> OutgoingRun {
        let (view, action) = self.view.step(outcome);
        OutgoingRun {
            view,
            action,
            popped: self.popped + (match outcome {
                OutgoingOutcome::Popped(true) => 1nat,
                _ => 0,
            }),
            accepted: self.accepted + (match outcome {
                OutgoingOutcome::Processed { result: Ok(_), .. } => 1nat,
                _ => 0,
            }),
            sent: self.sent + (match outcome {
                OutgoingOutcome::SendAttempted(attempt) => if self.view.on_send(attempt).1 == Ok::<SendStep, Error>(
                    SendStep::Complete,
                ) {
                    1nat
                } else {
                    0
                },
                _ => 0,
            }),
        }
    }
}

/// The run that starts with a state and gets these outcomes.
pub open spec fn outgoing_run(
    v: OutgoingView,
    max_messages: usize,
    translate: bool,
    has_socket: bool,
    outcomes: Seq<OutgoingOutcome>,
) -> OutgoingRun
    decreases outcomes.len(),
{
    if outcomes.len() == 0 {
        let (view, action) = v.start(max_messages, translate, has_socket);
        OutgoingRun { view, action, popped: 0, accepted: 0, sent: 0 }
    } else {
        outgoing_run(v, max_messages, translate, has_socket, outcomes.drop_last()).goes_on(outcomes.last())
    }
}

/// Every outcome of a run is one that is awaited.
pub open spec fn outcomes_fit(
    v: OutgoingView,
    max_messages: usize,
    translate: bool,
    has_socket: bool,
    outcomes: Seq<OutgoingOutcome>,
) -> bool
    decreases outcomes.len(),
{
    outcomes.len() == 0 || {
        &&& outcomes_fit(v, max_messages, translate, has_socket, outcomes.drop_last())
        &&& outgoing_run(v, max_messages, translate, has_socket, outcomes.drop_last()).view.awaits(outcomes.last())
    }
}

/// What holds at every point of a run. `kept` is how many messages an earlier run
/// has left to be sent.
spec fn run_is_balanced(run: OutgoingRun, max_messages: usize, kept: nat) -> bool {
    let v = run.view;
    &&& run.sent + v.left == max_messages
    &&& v.stage != OutgoingStage::Idle ==> v.left > 0
    &&& run.popped <= run.sent + 1
    &&& run.popped == run.sent + 1 ==> v.left > 0
    &&& v.stage is Popping ==> run.popped <= run.sent
    &&& v.used == (run.popped > 0)
    &&& run.accepted <= run.popped
    &&& v.stage is Opening || v.stage is Translating || v.stage is Reading || v.stage is Processing ==> run.accepted
        < run.popped
    &&& run.sent <= run.accepted + kept
    &&& v.stage is Closing || v.stage is Sending ==> run.sent < run.accepted + kept
    &&& run.action matches OutgoingAction::Finish(Ok((_, flag))) ==> flag == v.used
    &&& run.action is Finish <==> v.stage == OutgoingStage::Idle
}

/// Going on keeps the balance.
proof fn lemma_go_on_is_balanced(
    v: OutgoingView,
    popped: nat,
    accepted: nat,
    sent: nat,
    max_messages: usize,
    kept: nat,
)
    requires
        v.stage == OutgoingStage::Idle,
        sent + v.left == max_messages,
        accepted <= popped <= sent <= accepted + kept,
        v.buf.len() > 0 ==> sent < accepted + kept,
        v.used == (popped > 0),
    ensures
        ({
            let (view, action) = v.go_on();
            run_is_balanced(OutgoingRun { view, action, popped, accepted, sent }, max_messages, kept)
        }),
{
}

/// A step keeps the balance of a run.
proof fn lemma_step_is_balanced(run: OutgoingRun, outcome: OutgoingOutcome, max_messages: usize, kept: nat)
    requires
        run_is_balanced(run, max_messages, kept),
        run.view.awaits(outcome),
    ensures
        run_is_balanced(run.goes_on(outcome), max_messages, kept),
{
    let v = run.view;
    match outcome {
        OutgoingOutcome::SendAttempted(attempt) => {
            let (next, step) = v.on_send(attempt);
            if step == Ok::<SendStep, Error>(SendStep::Complete) {
                let idle = OutgoingView { left: (next.left - 1) as nat, stage: OutgoingStage::Idle, ..next };
                lemma_go_on_is_balanced(idle, run.popped, run.accepted, run.sent + 1, max_messages, kept);
            }
        },
        _ => {},
    }
}

proof fn lemma_run_is_balanced(
    v: OutgoingView,
    max_messages: usize,
    translate: bool,
    has_socket: bool,
    outcomes: Seq<OutgoingOutcome>,
)
    requires
        v.stage == OutgoingStage::Idle,
        outcomes_fit(v, max_messages, translate, has_socket, outcomes),
    ensures
        run_is_balanced(
            outgoing_run(v, max_messages, translate, has_socket, outcomes),
            max_messages,
            if v.buf.len() > 0 { 1 } else { 0 },
        ),
    decreases outcomes.len(),
{
    let kept: nat = if v.buf.len() > 0 { 1 } else { 0 };
    if outcomes.len() > 0 {
        let before = outcomes.drop_last();
        lemma_run_is_balanced(v, max_messages, translate, has_socket, before);
        lemma_step_is_balanced(
            outgoing_run(v, max_messages, translate, has_socket, before),
            outcomes.last(),
            max_messages,
            kept,
        );
    } else {
        let begin = OutgoingView { left: max_messages as nat, translate, has_socket, used: false, ..v };
        lemma_go_on_is_balanced(begin, 0, 0, 0, max_messages, kept);
    }
}

/// However a run goes, at most `max_messages` messages are sent, and at most as many
/// are taken off the queue. No message is sent that was not accepted, apart from one
/// that an earlier run has left. A run that ends well says that the guest is to be
/// notified exactly if it took a message off the queue.
pub proof fn law_run_counts_its_messages(
    v: OutgoingView,
    max_messages: usize,
    translate: bool,
    has_socket: bool,
    outcomes: Seq<OutgoingOutcome>,
)
    requires
        v.stage == OutgoingStage::Idle,
        outcomes_fit(v, max_messages, translate, has_socket, outcomes),
    ensures
        ({
            let run = outgoing_run(v, max_messages, translate, has_socket, outcomes);
            &&& run.sent <= max_messages
            &&& run.popped <= max_messages
            &&& run.accepted <= run.popped
            &&& run.sent <= run.accepted + (if v.buf.len() > 0 { 1nat } else { 0 })
            &&& run.action == OutgoingAction::Send ==> run.sent < run.accepted + (if v.buf.len() > 0 { 1nat } else { 0 })
            &&& run.action matches OutgoingAction::Finish(Ok((_, flag))) ==> (flag <==> run.popped > 0)
        }),
{
    lemma_run_is_balanced(v, max_messages, translate, has_socket, outcomes);
    lemma_sends_while_sending(v, max_messages, translate, has_socket, outcomes);
}

/// Something is to be sent only while that is the stage.
proof fn lemma_sends_while_sending(
    v: OutgoingView,
    max_messages: usize,
    translate: bool,
    has_socket: bool,
    outcomes: Seq<OutgoingOutcome>,
)
    requires
        outcomes_fit(v, max_messages, translate, has_socket, outcomes),
    ensures
        ({
            let run = outgoing_run(v, max_messages, translate, has_socket, outcomes);
            run.action == OutgoingAction::Send ==> run.view.stage is Sending
        }),
{
}

/// A message that is rejected, or that could not be read, is never sent: nothing of
/// it is left, and the next run takes a new one off the queue.
pub proof fn law_rejected_message_is_gone(v: OutgoingView, e: Error, max_messages: usize, translate: bool, has_socket: bool)
    ensures
        ({
            let (after, end) = v.on_processed(Err(e));
            &&& end == OutgoingAction::Finish(Err(e))
            &&& after.buf == Seq::<u8>::empty()
            &&& v.on_guest_read(None) == v.on_processed(Err(Error::InvalidMessage))
            &&& max_messages > 0 ==> after.start(max_messages, translate, has_socket).1 == OutgoingAction::PopChain
        }),
{
}

proof fn lemma_run_is_valid(
    v: OutgoingView,
    max_messages: usize,
    translate: bool,
    has_socket: bool,
    outcomes: Seq<OutgoingOutcome>,
)
    requires
        v.valid(),
        v.stage == OutgoingStage::Idle,
        outcomes_fit(v, max_messages, translate, has_socket, outcomes),
    ensures
        outgoing_run(v, max_messages, translate, has_socket, outcomes).view.valid(),
    decreases outcomes.len(),
{
    if outcomes.len() > 0 {
        lemma_run_is_valid(v, max_messages, translate, has_socket, outcomes.drop_last());
        lemma_step_is_valid(
            outgoing_run(v, max_messages, translate, has_socket, outcomes.drop_last()).view,
            outcomes.last(),
        );
    }
}

proof fn lemma_step_is_valid(v: OutgoingView, outcome: OutgoingOutcome)
    requires
        v.valid(),
        v.awaits(outcome),
    ensures
        v.step(outcome).0.valid(),
{
}

/// A run that ends well says what to wait for. `Neither`: it has sent all the
/// messages that it may send. `Queue`: it has found the queue empty, with nothing
/// left to send. `Socket`: the socket took no more, and bytes are pending.
pub proof fn law_rearm_says_what_to_wait_for(
    v: OutgoingView,
    max_messages: usize,
    translate: bool,
    has_socket: bool,
    outcomes: Seq<OutgoingOutcome>,
)
    requires
        v.valid(),
        v.stage == OutgoingStage::Idle,
        outcomes_fit(v, max_messages, translate, has_socket, outcomes),
    ensures
        ({
            let run = outgoing_run(v, max_messages, translate, has_socket, outcomes);
            run.action matches OutgoingAction::Finish(Ok((rearm, _))) ==> match rearm {
                FdRearm::Neither => run.sent == max_messages,
                FdRearm::Queue => {
                    &&& outcomes.len() > 0
                    &&& outcomes.last() == OutgoingOutcome::Popped(false)
                    &&& run.view.pending().len() == 0
                },
                FdRearm::Socket => {
                    &&& outcomes.len() > 0
                    &&& outcomes.last() matches OutgoingOutcome::SendAttempted(SendResult::Failed(errno))
                    &&& socket_failure(errno) == SocketFailure::WouldBlock
                    &&& run.view.pending().len() > 0
                },
            }
        }),
{
    lemma_run_is_balanced(v, max_messages, translate, has_socket, outcomes);
    lemma_run_is_valid(v, max_messages, translate, has_socket, outcomes);
    if outcomes.len() > 0 {
        let before = outcomes.drop_last();
        lemma_run_is_valid(v, max_messages, translate, has_socket, before);
        let last = outcomes.last();
        let at = outgoing_run(v, max_messages, translate, has_socket, before).view;
        assert(outgoing_run(v, max_messages, translate, has_socket, outcomes).action == at.step(last).1);
    }
}

/// Whenever something is sent, there is a socket to wait for.
pub proof fn law_only_a_socket_is_sent_to(outgoing: OutgoingData)
    requires
        outgoing.wf(),
        outgoing@.stage == OutgoingStage::Sending,
    ensures
        outgoing@.has_socket,
{
}

/// A message is read from where the guest put it, and as a whole: at the address and
/// with the length of its descriptor, or at the address that this one is translated to.
/// A descriptor that the guest wants to be written, or that is longer than 4096 bytes,
/// is no message, and neither is an empty chain. Until the message is read there are
/// zeroes in its place.
pub proof fn law_message_is_read_from_its_place(v: OutgoingView, d: Descriptor, place: u64)
    requires
        v.stage == OutgoingStage::Opening,
        v.translate || place == d.addr,
    ensures
        ({
            let (first, ask) = v.on_descriptor(Some(d));
            let (reading, read) = if v.translate {
                first.on_translated(Ok(place))
            } else {
                (first, ask)
            };
            if d.write_only || d.len > 4096 {
                ask == OutgoingAction::Finish(Err(Error::InvalidMessage)) && first.buf == v.buf
            } else {
                &&& v.translate ==> ask == (OutgoingAction::Translate { addr: d.addr, len: d.len as usize })
                &&& v.translate ==> first.stage == OutgoingStage::Translating
                &&& read == (OutgoingAction::ReadGuest { addr: place, len: d.len as usize })
                &&& reading.stage == OutgoingStage::Reading
                &&& reading.buf.len() == d.len
                &&& forall|i: int| 0 <= i < d.len ==> #[trigger] reading.buf[i] == 0
                &&& reading == (OutgoingView { buf: reading.buf, stage: OutgoingStage::Reading, ..v })
            }
        }),
        v.on_descriptor(None) == (
            OutgoingView { stage: OutgoingStage::Idle, ..v },
            OutgoingAction::Finish(Err(Error::InvalidMessage)),
        ),
{
}

/// What the guest wrote is what the frontend gets: the header as it was read, and the
/// body as it was accepted. A message with a wrong header is never processed.
pub proof fn law_what_is_read_is_sent(v: OutgoingView, m: Seq<u8>, body: Seq<u8>)
    requires
        v.stage == OutgoingStage::Reading,
        v.offset == 0,
        v.has_socket,
        m.len() >= 12 ==> body.len() == m.len() - 12,
    ensures
        ({
            let right = m.len() >= 12 && u32_at(v.order, m, 4) % 4 == 1 && 12 + u32_at(v.order, m, 8) == m.len();
            let (processing, process) = v.step(OutgoingOutcome::GuestRead(Some(m)));
            let (closing, close) = processing.step(OutgoingOutcome::Processed { body, result: Ok(()) });
            let (sending, send) = closing.step(OutgoingOutcome::Described(None));
            if right {
                &&& process matches OutgoingAction::ProcessMessage(hdr) && {
                    &&& hdr.request == u32_at(v.order, m, 0)
                    &&& hdr.flags == u32_at(v.order, m, 4)
                    &&& hdr.size == body.len()
                }
                &&& processing.awaits(OutgoingOutcome::Processed { body, result: Ok(()) })
                &&& close == OutgoingAction::NextDescriptor
                &&& closing.awaits(OutgoingOutcome::Described(None))
                &&& send == OutgoingAction::Send
                &&& sending.pending() == m.take(12) + body
                &&& sending.offset == 0
                &&& sending == (OutgoingView { buf: m.take(12) + body, stage: OutgoingStage::Sending, ..v })
            } else {
                &&& process == OutgoingAction::Finish(Err(Error::InvalidMessage))
                &&& processing.buf.len() == 0
            }
        }),
{
    law_right_headers(v.order, true, m);
    law_fields_stand_in_order(v.order, m, 0);
    let sent = m.take(12) + body;
    assert(sent.skip(0) =~= sent);
}

/// A message that goes on is sent from where the socket stopped, and without a socket
/// not at all. A new one is taken only when none is left.
pub proof fn law_waiting_message_goes_first(v: OutgoingView, max_messages: usize, translate: bool, has_socket: bool)
    requires
        v.valid(),
        v.stage == OutgoingStage::Idle,
    ensures
        ({
            let (after, action) = v.start(max_messages, translate, has_socket);
            &&& after.buf == v.buf
            &&& after.pending() == v.pending()
            &&& after.order == v.order
            &&& after.left == max_messages
            &&& after.translate == translate
            &&& after.has_socket == has_socket
            &&& !after.used
            &&& max_messages == 0 ==> action == OutgoingAction::Finish(Ok((FdRearm::Neither, false)))
            &&& max_messages > 0 ==> action == (if v.pending().len() == 0 {
                OutgoingAction::PopChain
            } else if has_socket {
                OutgoingAction::Send
            } else {
                OutgoingAction::Finish(Err(Error::FeatureMismatch))
            })
        }),
{
}

/// Trouble ends the run with an error that tells where it came from. A message that was
/// accepted stays to be sent; one that was not is dropped.
pub proof fn law_trouble_is_told_apart(v: OutgoingView, d: Descriptor, errno: i32, cause: IoCause, e: Error)
    ensures
        ({
            let idle = OutgoingView { stage: OutgoingStage::Idle, ..v };
            let dropped = OutgoingView { stage: OutgoingStage::Idle, buf: Seq::empty(), offset: 0, ..v };
            &&& v.on_popped(false) == (idle, OutgoingAction::Finish(Ok((FdRearm::Queue, v.used))))
            &&& v.on_popped(true) == (
                OutgoingView { stage: OutgoingStage::Opening, used: true, ..v },
                OutgoingAction::NextDescriptor,
            )
            &&& v.on_translated(Err(cause)) == (dropped, OutgoingAction::Finish(Err(Error::ReqHandlerError(cause))))
            &&& v.on_guest_read(None) == (dropped, OutgoingAction::Finish(Err(Error::InvalidMessage)))
            &&& v.on_processed(Err(e)) == (dropped, OutgoingAction::Finish(Err(e)))
            &&& v.stage == OutgoingStage::Closing ==> v.on_descriptor(Some(d)) == (
                idle,
                OutgoingAction::Finish(Err(Error::InvalidMessage)),
            )
            &&& v.stage == OutgoingStage::Closing && !v.has_socket ==> v.on_descriptor(None) == (
                idle,
                OutgoingAction::Finish(Err(Error::FeatureMismatch)),
            )
            &&& errno == 11 ==> v.on_send_attempted(SendResult::Failed(errno)) == (
                idle,
                OutgoingAction::Finish(Ok((FdRearm::Socket, v.used))),
            )
            &&& errno == 4 ==> v.on_send_attempted(SendResult::Failed(errno)) == (v, OutgoingAction::Send)
            &&& errno != 11 && errno != 4 ==> v.on_send_attempted(SendResult::Failed(errno)) == (
                idle,
                OutgoingAction::Finish(Err(Error::ReqHandlerError(IoCause::Errno(errno)))),
            )
        }),
{
}

/// The socket is asked again exactly as long as bytes are pending: what it took is gone
/// from the front, and once all is gone the message counts as sent.
pub proof fn law_sends_until_nothing_is_pending(v: OutgoingView, n: usize)
    requires
        v.valid(),
        v.stage == OutgoingStage::Sending,
        n <= v.pending().len(),
    ensures
        ({
            let (after, action) = v.on_send_attempted(SendResult::Sent(n));
            &&& after.pending() == v.pending().skip(n as int)
            &&& after.order == v.order && after.used == v.used && after.translate == v.translate
            &&& n < v.pending().len() ==> action == OutgoingAction::Send && after.left == v.left && after.stage
                == OutgoingStage::Sending
            &&& n == v.pending().len() ==> {
                &&& after.left + 1 == v.left
                &&& after.buf.len() == 0
                &&& v.left == 1 ==> action == OutgoingAction::Finish(Ok((FdRearm::Neither, v.used)))
                &&& v.left > 1 ==> action == OutgoingAction::PopChain
            }
        }),
{
    let after = v.on_send_attempted(SendResult::Sent(n)).0;
    assert(after.pending() =~= v.pending().skip(n as int));
}

} // verus!
