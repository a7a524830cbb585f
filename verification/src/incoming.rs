//! Messages from the frontend's socket to the guest's queue.
//!
//! A message is received whole, handled once, and then written to the buffers of
//! one descriptor chain. If the guest offers no chain the message waits, and is
//! not handled again when it goes on.

use crate::byte_order::{u32_at, ByteOrder};
use crate::error::{Error, IoCause};
use crate::host::{classify_socket_errno, socket_failure, SocketFailure};
use crate::message::{
    header_of, law_fields_stand_in_order, max_msg_size, msg_size_limit, VhostUserMsgHeader, HEADER_SIZE,
};
use crate::queue_pair::{header_is_valid, law_right_headers, validate_hdr, FdRearm};
use vstd::prelude::*;

verus! {

/// One buffer of a descriptor chain.
#[derive(Clone, Copy, Debug, PartialEq, Eq, Structural)]
pub struct Descriptor {
    pub addr: u64,
    pub len: u32,
    pub write_only: bool,
}

/// What has to be done next.
pub enum IncomingAction {
    /// Receive up to `max` bytes, and files with them, from the socket.
    Receive { max: usize },
    /// Handle the message with this header. Its files can be taken once.
    HandleMessage(VhostUserMsgHeader),
    /// Take a descriptor chain off the queue to the guest.
    PopChain,
    /// Take the next descriptor off the chain.
    NextDescriptor,
    /// Translate a guest address.
    Translate { addr: u64, len: usize },
    /// Check that the guest lets a buffer be written.
    CheckRange { addr: u64, len: usize },
    /// Write the bytes `from..to` of the message to the guest.
    WriteGuest { addr: u64, from: usize, to: usize },
    /// Give the chain back to the guest, with so many bytes written.
    AddUsed { len: usize },
    /// Nothing more to do now.
    Finish(Result<(FdRearm, bool), Error>),
}

/// Which outcome is awaited.
#[derive(Clone, Copy, Debug, PartialEq, Eq, Structural)]
pub enum IncomingStage {
    /// None: nothing is going on.
    Idle,
    Receiving { max: usize },
    Handling,
    Popping,
    /// The next descriptor, with so many bytes written.
    Scanning { written: usize },
    Translating { written: usize, len: usize },
    Checking { written: usize, addr: u64, len: usize },
    Writing { to: usize },
    Reporting,
}

/// How far the reception of a message has come.
pub ghost enum Reception {
    Failed(Error),
    /// So many bytes are still missing.
    Missing(int),
    Complete,
}

/// How far the reception has come: the header is read first, then as much as it
/// announces.
pub open spec fn reception(order: ByteOrder, has_socket: bool, data: Seq<u8>) -> Reception {
    if !has_socket {
        Reception::Failed(Error::BackendInternalError)
    } else if data.len() < HEADER_SIZE {
        Reception::Missing(HEADER_SIZE - data.len())
    } else if !header_is_valid(order, false, data) || header_of(order, data).size > msg_size_limit() {
        Reception::Failed(Error::InvalidMessage)
    } else if data.len() < HEADER_SIZE + header_of(order, data).size {
        Reception::Missing(HEADER_SIZE + header_of(order, data).size - data.len())
    } else {
        Reception::Complete
    }
}

/// No byte of the next message was received: at most a header, or no more than
/// the header announces.
pub open spec fn within_one_message(order: ByteOrder, data: Seq<u8>) -> bool {
    data.len() <= HEADER_SIZE || data.len() <= HEADER_SIZE + header_of(order, data).size
}

/// A message on its way in.
pub struct IncomingData<F> {
    order: ByteOrder,
    data: Vec<u8>,
    files: Vec<F>,
    handled: bool,
    has_socket: bool,
    translate: bool,
    left: usize,
    used: bool,
    stage: IncomingStage,
}

/// What is known of a message on its way in.
pub ghost struct IncomingView<F> {
    pub order: ByteOrder,
    /// What was received of the message.
    pub data: Seq<u8>,
    /// The files that came with it.
    pub files: Seq<F>,
    /// The message was handled, and waits for the guest to take it.
    pub handled: bool,
    /// There is a socket to receive from.
    pub has_socket: bool,
    /// Guest addresses have to be translated.
    pub translate: bool,
    /// How many messages may still be processed.
    pub left: nat,
    /// A message was handled or delivered, and the guest is to be notified.
    pub used: bool,
    pub stage: IncomingStage,
}

impl<F> IncomingView<F> {
    /// What is awaited fits what was received.
    pub open spec fn valid(self) -> bool {
        &&& self.data.len() <= HEADER_SIZE + msg_size_limit()
        &&& within_one_message(self.order, self.data)
        &&& self.handled ==> reception(self.order, true, self.data) is Complete
        &&& match self.stage {
            IncomingStage::Idle => true,
            IncomingStage::Receiving { max } => self.left > 0 && reception(self.order, self.has_socket, self.data)
                == Reception::Missing(max as int),
            stage => {
                &&& self.left > 0
                &&& reception(self.order, self.has_socket, self.data) is Complete
                &&& (stage is Handling) == !self.handled
                &&& match stage {
                    IncomingStage::Handling => self.used,
                    IncomingStage::Scanning { written } => written <= self.data.len(),
                    IncomingStage::Translating { written, .. } => written <= self.data.len(),
                    IncomingStage::Checking { written, .. } => written <= self.data.len(),
                    IncomingStage::Writing { to } => to <= self.data.len(),
                    _ => true,
                }
            },
        }
    }

    /// Starts to process up to `max_messages` messages.
    pub open spec fn start(self, max_messages: usize, translate: bool, has_socket: bool) -> (
        IncomingView<F>,
        IncomingAction,
    ) {
        (IncomingView {
            left: max_messages as nat,
            translate,
            has_socket,
            used: false,
            stage: IncomingStage::Idle,
            ..self
        }).go_on()
    }

    /// Drops the message and its files.
    pub open spec fn cleared(self) -> IncomingView<F> {
        IncomingView { data: Seq::empty(), files: Seq::empty(), handled: false, ..self }
    }

    /// Bytes and files came from the socket.
    pub open spec fn on_received(self, bytes: Seq<u8>, files: Seq<F>) -> (IncomingView<F>, IncomingAction) {
        if bytes.len() == 0 {
            self.finish(Err(Error::SocketBroken(IoCause::UnexpectedEof)))
        } else {
            (IncomingView {
                data: self.data + bytes,
                files: self.files + files,
                stage: IncomingStage::Idle,
                ..self
            }).go_on()
        }
    }

    /// Nothing came from the socket.
    pub open spec fn on_receive_failed(self, errno: i32) -> (IncomingView<F>, IncomingAction) {
        match socket_failure(errno) {
            SocketFailure::WouldBlock => self.finish(Ok((FdRearm::Socket, self.used))),
            SocketFailure::Interrupted => (self, IncomingAction::Receive { max: self.stage->max }),
            SocketFailure::Fatal => self.finish(Err(Error::SocketError(IoCause::Errno(errno)))),
        }
    }

    /// The message was handled, or refused. A refused message is dropped.
    pub open spec fn on_handled(self, result: Result<(), Error>) -> (IncomingView<F>, IncomingAction) {
        match result {
            Err(e) => self.cleared().finish(Err(e)),
            Ok(_) => (IncomingView { handled: true, ..self }).enter(IncomingStage::Popping, IncomingAction::PopChain),
        }
    }

    /// The queue had a descriptor chain, or none.
    pub open spec fn on_popped(self, found: bool) -> (IncomingView<F>, IncomingAction) {
        if found {
            self.enter(IncomingStage::Scanning { written: 0 }, IncomingAction::NextDescriptor)
        } else {
            self.finish(Ok((FdRearm::Queue, self.used)))
        }
    }

    /// The chain was given back to the guest, or could not be. In the first case the
    /// message is delivered.
    pub open spec fn on_used_added(self, result: Result<(), IoCause>) -> (IncomingView<F>, IncomingAction) {
        match result {
            Err(cause) => self.finish(Err(Error::ReqHandlerError(cause))),
            Ok(_) => (IncomingView {
                left: (self.left - 1) as nat,
                used: true,
                stage: IncomingStage::Idle,
                ..self.cleared()
            }).go_on(),
        }
    }

    /// Stops with a result.
    pub open spec fn finish(self, result: Result<(FdRearm, bool), Error>) -> (IncomingView<F>, IncomingAction) {
        (IncomingView { stage: IncomingStage::Idle, ..self }, IncomingAction::Finish(result))
    }

    /// Goes to a stage, with what has to be done there.
    pub open spec fn enter(self, stage: IncomingStage, action: IncomingAction) -> (IncomingView<F>, IncomingAction) {
        (IncomingView { stage, ..self }, action)
    }

    /// Stops if enough messages were processed, else goes on with receiving.
    pub open spec fn go_on(self) -> (IncomingView<F>, IncomingAction) {
        if self.left == 0 {
            self.finish(Ok((FdRearm::Neither, self.used)))
        } else {
            match reception(self.order, self.has_socket, self.data) {
                Reception::Failed(e) => self.finish(Err(e)),
                Reception::Missing(n) => self.enter(
                    IncomingStage::Receiving { max: n as usize },
                    IncomingAction::Receive { max: n as usize },
                ),
                Reception::Complete => {
                    if self.handled {
                        self.enter(IncomingStage::Popping, IncomingAction::PopChain)
                    } else {
                        (IncomingView { used: true, ..self }).enter(
                            IncomingStage::Handling,
                            IncomingAction::HandleMessage(header_of(self.order, self.data)),
                        )
                    }
                },
            }
        }
    }

    /// A descriptor came, or the chain is at its end.
    pub open spec fn on_descriptor(self, written: int, descriptor: Option<Descriptor>) -> (IncomingView<F>, IncomingAction) {
        match descriptor {
            None => if written != self.data.len() {
                self.finish(Err(Error::InvalidMessage))
            } else {
                self.enter(IncomingStage::Reporting, IncomingAction::AddUsed { len: written as usize })
            },
            Some(d) => {
                let len = d.len as usize;
                if !d.write_only {
                    self.finish(Err(Error::InvalidParam))
                } else if d.len == 0 {
                    self.enter(IncomingStage::Scanning { written: written as usize }, IncomingAction::NextDescriptor)
                } else if self.translate {
                    self.enter(
                        IncomingStage::Translating { written: written as usize, len },
                        IncomingAction::Translate { addr: d.addr, len },
                    )
                } else {
                    self.enter(
                        IncomingStage::Checking { written: written as usize, addr: d.addr, len },
                        IncomingAction::CheckRange { addr: d.addr, len },
                    )
                }
            },
        }
    }

    /// The address of a buffer was translated, or could not be.
    pub open spec fn on_translated(self, translated: Result<u64, IoCause>) -> (IncomingView<F>, IncomingAction) {
        let len = self.stage->Translating_len;
        match translated {
            Err(cause) => self.finish(Err(Error::ReqHandlerError(cause))),
            Ok(addr) => self.enter(
                IncomingStage::Checking { written: self.stage->Translating_written, addr, len },
                IncomingAction::CheckRange { addr, len },
            ),
        }
    }

    /// The guest lets a buffer be written, or not.
    pub open spec fn on_range_checked(self, allowed: bool) -> (IncomingView<F>, IncomingAction) {
        let written = self.stage->Checking_written;
        let to = self.end_of_part(written as int, self.stage->Checking_len as int) as usize;
        if allowed {
            self.enter(
                IncomingStage::Writing { to },
                IncomingAction::WriteGuest { addr: self.stage->Checking_addr, from: written, to },
            )
        } else {
            self.finish(Err(Error::InvalidParam))
        }
    }

    /// A part of the message was written to the guest, or could not be.
    pub open spec fn on_guest_written(self, done: bool) -> (IncomingView<F>, IncomingAction) {
        if done {
            self.enter(IncomingStage::Scanning { written: self.stage->to }, IncomingAction::NextDescriptor)
        } else {
            self.finish(Err(Error::InvalidMessage))
        }
    }

    /// The part of the message for a buffer of a given length ends here.
    pub open spec fn end_of_part(self, written: int, len: int) -> int {
        if len < self.data.len() - written {
            written + len
        } else {
            self.data.len() as int
        }
    }
}

impl<F> View for IncomingData<F> {
    type V = IncomingView<F>;

    closed spec fn view(&self) -> IncomingView<F> {
        IncomingView {
            order: self.order,
            data: self.data@,
            files: self.files@,
            handled: self.handled,
            has_socket: self.has_socket,
            translate: self.translate,
            left: self.left as nat,
            used: self.used,
            stage: self.stage,
        }
    }
}

impl<F> IncomingData<F> {
    /// What is awaited fits what was received.
    pub open spec fn wf(&self) -> bool {
        self@.valid()
    }

    /// Nothing received yet.
    pub fn new(order: ByteOrder) -> (incoming: IncomingData<F>)
        ensures
            incoming.wf(),
            incoming@.order == order,
            incoming@.data == Seq::<u8>::empty(),
            incoming@.files == Seq::<F>::empty(),
            !incoming@.handled,
            incoming@.stage == IncomingStage::Idle,
    {
        IncomingData {
            order,
            data: Vec::new(),
            files: Vec::new(),
            handled: false,
            has_socket: false,
            translate: false,
            left: 0,
            used: false,
            stage: IncomingStage::Idle,
        }
    }

    /// The message that was received so far.
    pub fn message(&self) -> (data: &[u8])
        ensures
            data@ == self@.data,
    {
        self.data.as_slice()
    }

    /// The body of the message that is to be handled.
    pub fn body(&self) -> (body: &[u8])
        requires
            self.wf(),
            self@.stage == IncomingStage::Handling,
        ensures
            body@ == self@.data.skip(HEADER_SIZE as int),
    {
        vstd::slice::slice_subrange(self.data.as_slice(), HEADER_SIZE, self.data.len())
    }

    /// Takes the files that came with the message.
    pub fn take_files(&mut self) -> (files: Vec<F>)
        requires
            old(self).wf(),
        ensures
            final(self).wf(),
            files@ == old(self)@.files,
            final(self)@ == (IncomingView { files: Seq::<F>::empty(), ..old(self)@ }),
    {
        let mut files: Vec<F> = Vec::new();
        core::mem::swap(&mut files, &mut self.files);
        files
    }

    fn clear(&mut self)
        ensures
            final(self)@ == old(self)@.cleared(),
    {
        self.files.clear();
        self.data.clear();
        self.handled = false;
    }

    fn finish(&mut self, result: Result<(FdRearm, bool), Error>) -> (action: IncomingAction)
        requires
            (IncomingView { stage: IncomingStage::Idle, ..old(self)@ }).valid(),
        ensures
            final(self).wf(),
            (final(self)@, action) == old(self)@.finish(result),
    {
        self.stage = IncomingStage::Idle;
        IncomingAction::Finish(result)
    }

    /// Receives until a whole message is there.
    fn socket_rx(&mut self) -> (action: IncomingAction)
        requires
            old(self)@.data.len() <= HEADER_SIZE + msg_size_limit(),
            within_one_message(old(self)@.order, old(self)@.data),
            old(self)@.handled ==> reception(old(self)@.order, true, old(self)@.data) is Complete,
            old(self)@.stage == IncomingStage::Idle,
        ensures
            final(self).wf(),
            (final(self)@, action) == old(self)@.go_on(),
    {
        if self.left == 0 {
            let used = self.used;
            return self.finish(Ok((FdRearm::Neither, used)));
        }
        if !self.has_socket {
            return self.finish(Err(Error::BackendInternalError));
        }
        if self.data.len() < HEADER_SIZE {
            let max: usize = HEADER_SIZE - self.data.len();
            self.stage = IncomingStage::Receiving { max };
            return IncomingAction::Receive { max };
        }
        let ghost before = self.data@;
        let hdr = match validate_hdr(self.order, false, self.data.as_mut_slice()) {
            Ok((hdr, _)) => hdr,
            Err(e) => {
                return self.finish(Err(e));
            },
        };
        assert(self.data@ =~= before);
        if hdr.size as usize > max_msg_size() {
            return self.finish(Err(Error::InvalidMessage));
        }
        let full: usize = hdr.size as usize + HEADER_SIZE;
        if self.data.len() < full {
            let max: usize = full - self.data.len();
            self.stage = IncomingStage::Receiving { max };
            return IncomingAction::Receive { max };
        }
        if self.handled {
            self.stage = IncomingStage::Popping;
            IncomingAction::PopChain
        } else {
            self.used = true;
            self.stage = IncomingStage::Handling;
            IncomingAction::HandleMessage(hdr)
        }
    }

    /// Starts to process up to `max_messages` messages.
    pub fn process_incoming(&mut self, max_messages: usize, translate: bool, has_socket: bool) -> (action: IncomingAction)
        requires
            old(self).wf(),
        ensures
            final(self).wf(),
            (final(self)@, action) == old(self)@.start(max_messages, translate, has_socket),
    {
        self.left = max_messages;
        self.translate = translate;
        self.has_socket = has_socket;
        self.used = false;
        self.stage = IncomingStage::Idle;
        self.socket_rx()
    }

    /// Bytes and files came from the socket. No byte at all means that the
    /// frontend is gone, which is never expected.
    pub fn received(&mut self, bytes: &[u8], files: Vec<F>) -> (action: IncomingAction)
        requires
            old(self).wf(),
            old(self)@.stage matches IncomingStage::Receiving { max } && bytes@.len() <= max,
        ensures
            final(self).wf(),
            (final(self)@, action) == old(self)@.on_received(bytes@, files@),
    {
        if bytes.len() == 0 {
            return self.finish(Err(Error::SocketBroken(IoCause::UnexpectedEof)));
        }
        let ghost before = self.data@;
        self.data.extend_from_slice(bytes);
        assert(self.data@ =~= before + bytes@);
        assert(before.len() >= HEADER_SIZE ==> header_of(self.order, self.data@) == header_of(self.order, before));
        let mut files = files;
        self.files.append(&mut files);
        self.stage = IncomingStage::Idle;
        self.socket_rx()
    }

    /// Nothing came from the socket.
    pub fn receive_failed(&mut self, errno: i32) -> (action: IncomingAction)
        requires
            old(self).wf(),
            old(self)@.stage is Receiving,
        ensures
            final(self).wf(),
            (final(self)@, action) == old(self)@.on_receive_failed(errno),
    {
        match classify_socket_errno(errno) {
            SocketFailure::WouldBlock => {
                let used = self.used;
                self.finish(Ok((FdRearm::Socket, used)))
            },
            SocketFailure::Interrupted => match self.stage {
                IncomingStage::Receiving { max } => IncomingAction::Receive { max },
                _ => IncomingAction::PopChain,
            },
            SocketFailure::Fatal => self.finish(Err(Error::SocketError(IoCause::Errno(errno)))),
        }
    }

    /// The message was handled, or refused. A refused message is dropped, with its
    /// files, and does not come back.
    pub fn message_handled(&mut self, result: Result<(), Error>) -> (action: IncomingAction)
        requires
            old(self).wf(),
            old(self)@.stage == IncomingStage::Handling,
        ensures
            final(self).wf(),
            (final(self)@, action) == old(self)@.on_handled(result),
    {
        match result {
            Err(e) => {
                self.clear();
                self.finish(Err(e))
            },
            Ok(_) => {
                self.handled = true;
                self.stage = IncomingStage::Popping;
                IncomingAction::PopChain
            },
        }
    }

    /// The queue had a descriptor chain, or none. In that case the message waits.
    pub fn chain_popped(&mut self, found: bool) -> (action: IncomingAction)
        requires
            old(self).wf(),
            old(self)@.stage == IncomingStage::Popping,
        ensures
            final(self).wf(),
            (final(self)@, action) == old(self)@.on_popped(found),
    {
        if found {
            self.stage = IncomingStage::Scanning { written: 0 };
            IncomingAction::NextDescriptor
        } else {
            let used = self.used;
            self.finish(Ok((FdRearm::Queue, used)))
        }
    }

    /// The chain had another descriptor, or came to its end.
    pub fn descriptor(&mut self, descriptor: Option<Descriptor>) -> (action: IncomingAction)
        requires
            old(self).wf(),
            old(self)@.stage is Scanning,
        ensures
            final(self).wf(),
            (final(self)@, action) == old(self)@.on_descriptor(
                old(self)@.stage->Scanning_written as int,
                descriptor,
            ),
    {
        let written: usize = match self.stage {
            IncomingStage::Scanning { written } => written,
            _ => 0,
        };
        match descriptor {
            None => {
                if written != self.data.len() {
                    return self.finish(Err(Error::InvalidMessage));
                }
                self.stage = IncomingStage::Reporting;
                IncomingAction::AddUsed { len: written }
            },
            Some(d) => {
                if !d.write_only {
                    return self.finish(Err(Error::InvalidParam));
                }
                let len: usize = d.len as usize;
                if len == 0 {
                    return IncomingAction::NextDescriptor;
                }
                if self.translate {
                    self.stage = IncomingStage::Translating { written, len };
                    IncomingAction::Translate { addr: d.addr, len }
                } else {
                    self.stage = IncomingStage::Checking { written, addr: d.addr, len };
                    IncomingAction::CheckRange { addr: d.addr, len }
                }
            },
        }
    }

    /// The address of a buffer was translated, or could not be.
    pub fn translated(&mut self, translated: Result<u64, IoCause>) -> (action: IncomingAction)
        requires
            old(self).wf(),
            old(self)@.stage is Translating,
        ensures
            final(self).wf(),
            (final(self)@, action) == old(self)@.on_translated(translated),
    {
        match translated {
            Err(cause) => self.finish(Err(Error::ReqHandlerError(cause))),
            Ok(addr) => {
                let (written, len): (usize, usize) = match self.stage {
                    IncomingStage::Translating { written, len } => (written, len),
                    _ => (0, 0),
                };
                self.stage = IncomingStage::Checking { written, addr, len };
                IncomingAction::CheckRange { addr, len }
            },
        }
    }

    /// The guest lets a buffer be written, or not.
    pub fn range_checked(&mut self, allowed: bool) -> (action: IncomingAction)
        requires
            old(self).wf(),
            old(self)@.stage is Checking,
        ensures
            final(self).wf(),
            (final(self)@, action) == old(self)@.on_range_checked(allowed),
    {
        if !allowed {
            return self.finish(Err(Error::InvalidParam));
        }
        let (written, addr, len): (usize, u64, usize) = match self.stage {
            IncomingStage::Checking { written, addr, len } => (written, addr, len),
            _ => (0, 0, 0),
        };
        let rest: usize = self.data.len() - written;
        let to_write: usize = if len < rest {
            len
        } else {
            rest
        };
        let to: usize = written + to_write;
        self.stage = IncomingStage::Writing { to };
        IncomingAction::WriteGuest { addr, from: written, to }
    }

    /// A part of the message was written to the guest, or could not be.
    pub fn guest_written(&mut self, done: bool) -> (action: IncomingAction)
        requires
            old(self).wf(),
            old(self)@.stage is Writing,
        ensures
            final(self).wf(),
            (final(self)@, action) == old(self)@.on_guest_written(done),
    {
        if !done {
            return self.finish(Err(Error::InvalidMessage));
        }
        match self.stage {
            IncomingStage::Writing { to } => {
                self.stage = IncomingStage::Scanning { written: to };
            },
            _ => {},
        }
        IncomingAction::NextDescriptor
    }

    /// The chain was given back to the guest, or could not be. In the first case
    /// the message is done with, and the next one can come.
    pub fn used_added(&mut self, result: Result<(), IoCause>) -> (action: IncomingAction)
        requires
            old(self).wf(),
            old(self)@.stage == IncomingStage::Reporting,
        ensures
            final(self).wf(),
            (final(self)@, action) == old(self)@.on_used_added(result),
    {
        if let Err(cause) = result {
            return self.finish(Err(Error::ReqHandlerError(cause)));
        }
        // Clear per-message state for the next cycle.
        self.clear();
        self.used = true;
        self.left = self.left - 1;
        self.stage = IncomingStage::Idle;
        self.socket_rx()
    }
}

/// A message that is to be handled is one message: the header, and as many bytes
/// as it announces.
pub proof fn law_one_message_at_a_time<F>(incoming: IncomingData<F>)
    requires
        incoming.wf(),
        incoming@.stage == IncomingStage::Handling,
    ensures
        header_is_valid(incoming@.order, true, incoming@.data),
        header_of(incoming@.order, incoming@.data).size <= msg_size_limit(),
{
}

/// A message that was handled is not handled again: when it goes on, it is the
/// queue's turn.
pub proof fn law_message_is_handled_once<F>(v: IncomingView<F>)
    requires
        v.handled,
        v.left > 0,
        v.has_socket,
        reception(v.order, true, v.data) is Complete,
    ensures
        v.go_on().1 == IncomingAction::PopChain,
{
}

/// A refused message is never handed out again: nothing of it or of its files is
/// left, and the next call waits for a new header.
pub proof fn law_refused_message_is_gone<F>(v: IncomingView<F>, e: Error, max_messages: usize, translate: bool)
    ensures
        ({
            let (after, end) = v.on_handled(Err(e));
            &&& end == IncomingAction::Finish(Err(e))
            &&& after.data == Seq::<u8>::empty()
            &&& after.files == Seq::<F>::empty()
            &&& !after.handled
            &&& max_messages > 0 ==> after.start(max_messages, translate, true).1 == (IncomingAction::Receive {
                max: HEADER_SIZE,
            })
        }),
{
}

/// What can come of the actions of a run.
pub ghost enum IncomingOutcome<F> {
    Received { bytes: Seq<u8>, files: Seq<F> },
    ReceiveFailed(i32),
    Handled(Result<(), Error>),
    Popped(bool),
    Described(Option<Descriptor>),
    Translated(Result<u64, IoCause>),
    RangeChecked(bool),
    GuestWritten(bool),
    UsedAdded(Result<(), IoCause>),
}

impl<F> IncomingView<F> {
    /// The outcome is one that is awaited.
    pub open spec fn awaits(self, outcome: IncomingOutcome<F>) -> bool {
        match outcome {
            IncomingOutcome::Received { bytes, .. } => self.stage matches IncomingStage::Receiving { max }
                && bytes.len() <= max,
            IncomingOutcome::ReceiveFailed(_) => self.stage is Receiving,
            IncomingOutcome::Handled(_) => self.stage is Handling,
            IncomingOutcome::Popped(_) => self.stage is Popping,
            IncomingOutcome::Described(_) => self.stage is Scanning,
            IncomingOutcome::Translated(_) => self.stage is Translating,
            IncomingOutcome::RangeChecked(_) => self.stage is Checking,
            IncomingOutcome::GuestWritten(_) => self.stage is Writing,
            IncomingOutcome::UsedAdded(_) => self.stage is Reporting,
        }
    }

    /// What an outcome leads to.
    pub open spec fn step(self, outcome: IncomingOutcome<F>) -> (IncomingView<F>, IncomingAction) {
        match outcome {
            IncomingOutcome::Received { bytes, files } => self.on_received(bytes, files),
            IncomingOutcome::ReceiveFailed(errno) => self.on_receive_failed(errno),
            IncomingOutcome::Handled(result) => self.on_handled(result),
            IncomingOutcome::Popped(found) => self.on_popped(found),
            IncomingOutcome::Described(d) => self.on_descriptor(self.stage->Scanning_written as int, d),
            IncomingOutcome::Translated(translated) => self.on_translated(translated),
            IncomingOutcome::RangeChecked(allowed) => self.on_range_checked(allowed),
            IncomingOutcome::GuestWritten(done) => self.on_guest_written(done),
            IncomingOutcome::UsedAdded(result) => self.on_used_added(result),
        }
    }
}

/// A run so far: where it stands, what has to be done next, how many messages were
/// handed out to be handled, and how many were delivered to the guest.
pub ghost struct IncomingRun<F> {
    pub view: IncomingView<F>,
    pub action: IncomingAction,
    pub handed_out: nat,
    pub delivered: nat,
}

impl<F> IncomingRun<F> {
    /// The run after one more outcome.
    pub open spec fn goes_on(self, outcome: IncomingOutcome<F>) -> IncomingRun<F> {
        let (view, action) = self.view.step(outcome);
        IncomingRun {
            view,
            action,
            handed_out: self.handed_out + (if action is HandleMessage { 1nat } else { 0 }),
            delivered: self.delivered + (match outcome {
                IncomingOutcome::UsedAdded(Ok(_)) => 1nat,
                _ => 0,
            }),
        }
    }
}

/// The run that starts with a state and gets these outcomes.
pub open spec fn incoming_run<F>(
    v: IncomingView<F>,
    max_messages: usize,
    translate: bool,
    has_socket: bool,
    outcomes: Seq<IncomingOutcome<F>>,
) -> IncomingRun<F>
    decreases outcomes.len(),
{
    if outcomes.len() == 0 {
        let (view, action) = v.start(max_messages, translate, has_socket);
        IncomingRun { view, action, handed_out: if action is HandleMessage { 1 } else { 0 }, delivered: 0 }
    } else {
        incoming_run(v, max_messages, translate, has_socket, outcomes.drop_last()).goes_on(outcomes.last())
    }
}

/// Every outcome of a run is one that is awaited.
pub open spec fn outcomes_fit<F>(
    v: IncomingView<F>,
    max_messages: usize,
    translate: bool,
    has_socket: bool,
    outcomes: Seq<IncomingOutcome<F>>,
) -> bool
    decreases outcomes.len(),
{
    outcomes.len() == 0 || {
        &&& outcomes_fit(v, max_messages, translate, has_socket, outcomes.drop_last())
        &&& incoming_run(v, max_messages, translate, has_socket, outcomes.drop_last()).view.awaits(outcomes.last())
    }
}

/// What holds at every point of a run.
spec fn run_is_balanced<F>(run: IncomingRun<F>, max_messages: usize) -> bool {
    let v = run.view;
    &&& run.delivered + v.left == max_messages
    &&& run.handed_out <= run.delivered + 1
    &&& run.handed_out == run.delivered + 1 ==> v.left > 0
    &&& run.handed_out == run.delivered + 1 && v.stage != IncomingStage::Idle ==> v.stage is Handling || v.handled
    &&& v.used == (run.handed_out + run.delivered > 0)
    &&& v.stage != IncomingStage::Idle ==> v.left > 0
    &&& v.stage is Receiving ==> !v.handled
    &&& v.handled || v.stage is Handling ==> reception(v.order, true, v.data) is Complete
    &&& run.action matches IncomingAction::Finish(Ok((_, flag))) ==> flag == v.used
    &&& run.action is Finish <==> v.stage == IncomingStage::Idle
}

/// Going on keeps the balance, if every message that was handed out is delivered.
proof fn lemma_go_on_is_balanced<F>(v: IncomingView<F>, handed_out: nat, delivered: nat, max_messages: usize)
    requires
        v.stage == IncomingStage::Idle,
        delivered + v.left == max_messages,
        handed_out <= delivered,
        v.used == (handed_out + delivered > 0),
        v.handled ==> reception(v.order, true, v.data) is Complete,
    ensures
        ({
            let (view, action) = v.go_on();
            let handed_out = handed_out + (if action is HandleMessage { 1nat } else { 0 });
            run_is_balanced(IncomingRun { view, action, handed_out, delivered }, max_messages)
        }),
{
}

/// A step keeps the balance of a run.
proof fn lemma_step_is_balanced<F>(run: IncomingRun<F>, outcome: IncomingOutcome<F>, max_messages: usize)
    requires
        run_is_balanced(run, max_messages),
        run.view.awaits(outcome),
    ensures
        run_is_balanced(run.goes_on(outcome), max_messages),
{
    let v = run.view;
    match outcome {
        IncomingOutcome::Received { bytes, files } => {
            if bytes.len() > 0 {
                let next = IncomingView {
                    data: v.data + bytes,
                    files: v.files + files,
                    stage: IncomingStage::Idle,
                    ..v
                };
                lemma_go_on_is_balanced(next, run.handed_out, run.delivered, max_messages);
            }
        },
        IncomingOutcome::UsedAdded(Ok(_)) => {
            let next = IncomingView {
                left: (v.left - 1) as nat,
                used: true,
                stage: IncomingStage::Idle,
                ..v.cleared()
            };
            lemma_go_on_is_balanced(next, run.handed_out, run.delivered + 1, max_messages);
        },
        _ => {},
    }
}

proof fn lemma_run_is_balanced<F>(
    v: IncomingView<F>,
    max_messages: usize,
    translate: bool,
    has_socket: bool,
    outcomes: Seq<IncomingOutcome<F>>,
)
    requires
        v.valid(),
        outcomes_fit(v, max_messages, translate, has_socket, outcomes),
    ensures
        run_is_balanced(incoming_run(v, max_messages, translate, has_socket, outcomes), max_messages),
    decreases outcomes.len(),
{
    if outcomes.len() > 0 {
        let before = outcomes.drop_last();
        lemma_run_is_balanced(v, max_messages, translate, has_socket, before);
        lemma_step_is_balanced(
            incoming_run(v, max_messages, translate, has_socket, before),
            outcomes.last(),
            max_messages,
        );
    } else {
        let begin = IncomingView {
            left: max_messages as nat,
            translate,
            has_socket,
            used: false,
            stage: IncomingStage::Idle,
            ..v
        };
        lemma_go_on_is_balanced(begin, 0, 0, max_messages);
    }
}

/// However a run goes, at most `max_messages` messages are handed out to be handled
/// and at most as many are delivered. A run that ends well says that something was
/// processed exactly if a message was handed out or delivered in it. With no messages
/// to process it ends at once.
pub proof fn law_run_counts_its_messages<F>(
    v: IncomingView<F>,
    max_messages: usize,
    translate: bool,
    has_socket: bool,
    outcomes: Seq<IncomingOutcome<F>>,
)
    requires
        v.valid(),
        outcomes_fit(v, max_messages, translate, has_socket, outcomes),
    ensures
        ({
            let run = incoming_run(v, max_messages, translate, has_socket, outcomes);
            &&& run.handed_out <= max_messages
            &&& run.delivered <= max_messages
            &&& run.action matches IncomingAction::Finish(Ok((_, flag))) ==> (flag <==> run.handed_out > 0
                || run.delivered > 0)
            &&& max_messages == 0 ==> v.start(max_messages, translate, has_socket).1 == IncomingAction::Finish(
                Ok((FdRearm::Neither, false)),
            )
        }),
{
    lemma_run_is_balanced(v, max_messages, translate, has_socket, outcomes);
}

/// A message on its way to the guest was handed out.
spec fn run_is_ahead<F>(run: IncomingRun<F>) -> bool {
    let stage = run.view.stage;
    &&& run.delivered <= run.handed_out
    &&& run.view.handled || !(stage is Idle || stage is Receiving) ==> run.delivered < run.handed_out
    &&& stage is Receiving ==> !run.view.handled
}

/// Going on hands a message out before it is on its way to the guest.
proof fn lemma_go_on_is_ahead<F>(v: IncomingView<F>, handed_out: nat, delivered: nat)
    requires
        !v.handled,
        delivered <= handed_out,
    ensures
        ({
            let (view, action) = v.go_on();
            let handed_out = handed_out + (if action is HandleMessage { 1nat } else { 0 });
            run_is_ahead(IncomingRun { view, action, handed_out, delivered })
        }),
{
}

/// A step keeps a run ahead.
proof fn lemma_step_is_ahead<F>(run: IncomingRun<F>, outcome: IncomingOutcome<F>)
    requires
        run_is_ahead(run),
        run.view.awaits(outcome),
    ensures
        run_is_ahead(run.goes_on(outcome)),
{
    let v = run.view;
    match outcome {
        IncomingOutcome::Received { bytes, files } => {
            if bytes.len() > 0 {
                let next = IncomingView {
                    data: v.data + bytes,
                    files: v.files + files,
                    stage: IncomingStage::Idle,
                    ..v
                };
                lemma_go_on_is_ahead(next, run.handed_out, run.delivered);
            }
        },
        IncomingOutcome::UsedAdded(Ok(_)) => {
            let next = IncomingView {
                left: (v.left - 1) as nat,
                used: true,
                stage: IncomingStage::Idle,
                ..v.cleared()
            };
            lemma_go_on_is_ahead(next, run.handed_out, run.delivered + 1);
        },
        _ => {},
    }
}

proof fn lemma_run_is_ahead<F>(
    v: IncomingView<F>,
    max_messages: usize,
    translate: bool,
    has_socket: bool,
    outcomes: Seq<IncomingOutcome<F>>,
)
    requires
        !v.handled,
        outcomes_fit(v, max_messages, translate, has_socket, outcomes),
    ensures
        run_is_ahead(incoming_run(v, max_messages, translate, has_socket, outcomes)),
    decreases outcomes.len(),
{
    if outcomes.len() > 0 {
        let before = outcomes.drop_last();
        lemma_run_is_ahead(v, max_messages, translate, has_socket, before);
        lemma_step_is_ahead(incoming_run(v, max_messages, translate, has_socket, before), outcomes.last());
    } else {
        let begin = IncomingView {
            left: max_messages as nat,
            translate,
            has_socket,
            used: false,
            stage: IncomingStage::Idle,
            ..v
        };
        lemma_go_on_is_ahead(begin, 0, 0);
    }
}

/// In a run that starts with no handled message that waits, a message is delivered
/// only after it was handed out: a run that ends well says that something was processed
/// exactly if a message was handed out to be handled.
pub proof fn law_delivered_was_handed_out<F>(
    v: IncomingView<F>,
    max_messages: usize,
    translate: bool,
    has_socket: bool,
    outcomes: Seq<IncomingOutcome<F>>,
)
    requires
        v.valid(),
        !v.handled,
        outcomes_fit(v, max_messages, translate, has_socket, outcomes),
    ensures
        ({
            let run = incoming_run(v, max_messages, translate, has_socket, outcomes);
            &&& run.delivered <= run.handed_out
            &&& run.action matches IncomingAction::Finish(Ok((_, flag))) ==> (flag <==> run.handed_out > 0)
        }),
{
    lemma_run_is_balanced(v, max_messages, translate, has_socket, outcomes);
    lemma_run_is_ahead(v, max_messages, translate, has_socket, outcomes);
}

/// A run that ends well says what to wait for. `Neither`: it has delivered all the
/// messages that it may deliver. `Queue`: it has found the queue empty, with a handled
/// message to deliver. `Socket`: the socket had no more, and the message is not whole.
pub proof fn law_rearm_says_what_to_wait_for<F>(
    v: IncomingView<F>,
    max_messages: usize,
    translate: bool,
    has_socket: bool,
    outcomes: Seq<IncomingOutcome<F>>,
)
    requires
        v.valid(),
        outcomes_fit(v, max_messages, translate, has_socket, outcomes),
    ensures
        ({
            let run = incoming_run(v, max_messages, translate, has_socket, outcomes);
            run.action matches IncomingAction::Finish(Ok((rearm, _))) ==> match rearm {
                FdRearm::Neither => run.delivered == max_messages,
                FdRearm::Queue => {
                    &&& outcomes.len() > 0
                    &&& outcomes.last() == IncomingOutcome::<F>::Popped(false)
                    &&& run.view.handled
                },
                FdRearm::Socket => {
                    &&& outcomes.len() > 0
                    &&& outcomes.last() matches IncomingOutcome::ReceiveFailed(errno)
                    &&& socket_failure(errno) == SocketFailure::WouldBlock
                    &&& reception(run.view.order, run.view.has_socket, run.view.data) is Missing
                },
            }
        }),
{
    lemma_run_is_balanced(v, max_messages, translate, has_socket, outcomes);
    if outcomes.len() > 0 {
        let before = outcomes.drop_last();
        lemma_run_is_valid(v, max_messages, translate, has_socket, before);
        let at = incoming_run(v, max_messages, translate, has_socket, before).view;
        assert(incoming_run(v, max_messages, translate, has_socket, outcomes).action == at.step(outcomes.last()).1);
    }
}

proof fn lemma_run_is_valid<F>(
    v: IncomingView<F>,
    max_messages: usize,
    translate: bool,
    has_socket: bool,
    outcomes: Seq<IncomingOutcome<F>>,
)
    requires
        v.valid(),
        outcomes_fit(v, max_messages, translate, has_socket, outcomes),
    ensures
        incoming_run(v, max_messages, translate, has_socket, outcomes).view.valid(),
    decreases outcomes.len(),
{
    if outcomes.len() > 0 {
        lemma_run_is_valid(v, max_messages, translate, has_socket, outcomes.drop_last());
        lemma_step_is_valid(
            incoming_run(v, max_messages, translate, has_socket, outcomes.drop_last()).view,
            outcomes.last(),
        );
    } else {
        lemma_go_on_is_valid(
            IncomingView {
                left: max_messages as nat,
                translate,
                has_socket,
                used: false,
                stage: IncomingStage::Idle,
                ..v
            },
        );
    }
}

proof fn lemma_go_on_is_valid<F>(v: IncomingView<F>)
    requires
        v.valid(),
        v.stage == IncomingStage::Idle,
    ensures
        v.go_on().0.valid(),
{
}

proof fn lemma_step_is_valid<F>(v: IncomingView<F>, outcome: IncomingOutcome<F>)
    requires
        v.valid(),
        v.awaits(outcome),
    ensures
        v.step(outcome).0.valid(),
{
    match outcome {
        IncomingOutcome::Received { bytes, files } => {
            if bytes.len() > 0 {
                let next = IncomingView {
                    data: v.data + bytes,
                    files: v.files + files,
                    stage: IncomingStage::Idle,
                    ..v
                };
                assert(v.data.len() >= HEADER_SIZE ==> header_of(v.order, next.data) == header_of(v.order, v.data));
                lemma_go_on_is_valid(next);
            }
        },
        IncomingOutcome::UsedAdded(Ok(_)) => {
            lemma_go_on_is_valid(
                IncomingView {
                    left: (v.left - 1) as nat,
                    used: true,
                    stage: IncomingStage::Idle,
                    ..v.cleared()
                },
            );
        },
        _ => {},
    }
}

/// Whenever bytes are awaited, there is a socket to wait for.
pub proof fn law_only_a_socket_is_waited_for<F>(incoming: IncomingData<F>)
    requires
        incoming.wf(),
        incoming@.stage is Receiving,
    ensures
        incoming@.has_socket,
{
}

/// How many bytes are written once buffers of given lengths were filled.
pub open spec fn filled<F>(v: IncomingView<F>, written: int, lens: Seq<u32>) -> int
    decreases lens.len(),
{
    if lens.len() == 0 {
        written
    } else {
        filled(v, v.end_of_part(written, lens[0] as int), lens.skip(1))
    }
}

/// The bytes that go to buffers of given lengths, one buffer after the other.
pub open spec fn delivered<F>(v: IncomingView<F>, written: int, lens: Seq<u32>) -> Seq<u8>
    decreases lens.len(),
{
    if lens.len() == 0 {
        Seq::empty()
    } else {
        let to = v.end_of_part(written, lens[0] as int);
        v.data.subrange(written, to) + delivered(v, to, lens.skip(1))
    }
}

/// The room in buffers of given lengths.
pub open spec fn room(lens: Seq<u32>) -> int
    decreases lens.len(),
{
    if lens.len() == 0 {
        0
    } else {
        lens[0] + room(lens.skip(1))
    }
}

/// A buffer that the guest lets be written gets its part of the message, from where
/// the one before it ended, at the address that it has, or that its address is
/// translated to. Then it is the next buffer's turn.
pub proof fn law_buffer_gets_its_part<F>(v: IncomingView<F>, written: usize, d: Descriptor, place: u64)
    requires
        v.stage == (IncomingStage::Scanning { written }),
        written <= v.data.len() <= usize::MAX,
        d.write_only,
        d.len > 0,
        !v.translate ==> place == d.addr,
    ensures
        ({
            let (first, ask) = v.on_descriptor(written as int, Some(d));
            let (checking, check) = if v.translate {
                first.on_translated(Ok(place))
            } else {
                (first, ask)
            };
            let (writing, write) = checking.on_range_checked(true);
            let (after, next) = writing.on_guest_written(true);
            let to = v.end_of_part(written as int, d.len as int) as usize;
            &&& v.translate ==> ask == (IncomingAction::Translate { addr: d.addr, len: d.len as usize })
            &&& check == (IncomingAction::CheckRange { addr: place, len: d.len as usize })
            &&& write == (IncomingAction::WriteGuest { addr: place, from: written, to })
            &&& next == IncomingAction::NextDescriptor
            &&& after == (IncomingView { stage: IncomingStage::Scanning { written: to }, ..v })
        }),
{
}

/// The buffers of a chain get the message in order, without a gap and without a
/// byte too many, as far as there is room.
pub proof fn law_message_is_delivered_in_order<F>(v: IncomingView<F>, written: int, lens: Seq<u32>)
    requires
        0 <= written <= v.data.len(),
    ensures
        written <= filled(v, written, lens) <= v.data.len(),
        delivered(v, written, lens) == v.data.subrange(written, filled(v, written, lens)),
        filled(v, written, lens) == (if written + room(lens) < v.data.len() {
            written + room(lens)
        } else {
            v.data.len() as int
        }),
        room(lens) >= 0,
    decreases lens.len(),
{
    if lens.len() == 0 {
        assert(v.data.subrange(written, written) =~= Seq::empty());
    } else {
        let to = v.end_of_part(written, lens[0] as int);
        law_message_is_delivered_in_order(v, to, lens.skip(1));
        assert(v.data.subrange(written, to) + v.data.subrange(to, filled(v, to, lens.skip(1))) =~= v.data.subrange(
            written,
            filled(v, to, lens.skip(1)),
        ));
    }
}

/// A chain is given back to the guest only if it has room for the whole message.
pub proof fn law_short_chain_is_refused<F>(v: IncomingView<F>, lens: Seq<u32>)
    ensures
        v.on_descriptor(filled(v, 0, lens), None).1 == (if room(lens) < v.data.len() {
            IncomingAction::Finish(Err(Error::InvalidMessage))
        } else {
            IncomingAction::AddUsed { len: v.data.len() as usize }
        }),
{
    law_message_is_delivered_in_order(v, 0, lens);
}

/// It makes no difference how the socket cuts a message up: two receptions come to the
/// same as one with all the bytes and all the files, in order.
pub proof fn law_cuts_make_no_difference<F>(
    v: IncomingView<F>,
    first: Seq<u8>,
    first_files: Seq<F>,
    second: Seq<u8>,
    second_files: Seq<F>,
)
    requires
        v.valid(),
        v.awaits(IncomingOutcome::Received { bytes: first + second, files: first_files + second_files }),
        first.len() > 0,
        second.len() > 0,
    ensures
        ({
            let (between, more) = v.on_received(first, first_files);
            &&& more == (IncomingAction::Receive { max: (v.stage->max - first.len()) as usize })
            &&& between.awaits(IncomingOutcome::Received { bytes: second, files: second_files })
            &&& between.on_received(second, second_files) == v.on_received(first + second, first_files + second_files)
        }),
{
    let (between, _) = v.on_received(first, first_files);
    assert(v.data.len() >= HEADER_SIZE ==> header_of(v.order, v.data + first) == header_of(v.order, v.data));
    assert((v.data + first) + second =~= v.data + (first + second));
    assert((v.files + first_files) + second_files =~= v.files + (first_files + second_files));
}

/// What came of the present message: what was there, and behind it all that was
/// received since the last message was refused or delivered.
pub open spec fn received_since<F>(data: Seq<u8>, files: Seq<F>, outcomes: Seq<IncomingOutcome<F>>) -> (
    Seq<u8>,
    Seq<F>,
)
    decreases outcomes.len(),
{
    if outcomes.len() == 0 {
        (data, files)
    } else {
        let (data, files) = received_since(data, files, outcomes.drop_last());
        match outcomes.last() {
            IncomingOutcome::Received { bytes, files: more } => if bytes.len() > 0 {
                (data + bytes, files + more)
            } else {
                (data, files)
            },
            IncomingOutcome::Handled(Err(_)) => (Seq::empty(), Seq::empty()),
            IncomingOutcome::UsedAdded(Ok(_)) => (Seq::empty(), Seq::empty()),
            _ => (data, files),
        }
    }
}

/// Nothing that is received is lost, put in another place, or given to another
/// message: at every point of a run, the message and its files are all the bytes and
/// all the files of its receptions, in order.
pub proof fn law_nothing_received_is_lost<F>(
    v: IncomingView<F>,
    max_messages: usize,
    translate: bool,
    has_socket: bool,
    outcomes: Seq<IncomingOutcome<F>>,
)
    requires
        outcomes_fit(v, max_messages, translate, has_socket, outcomes),
    ensures
        ({
            let at = incoming_run(v, max_messages, translate, has_socket, outcomes).view;
            &&& (at.data, at.files) == received_since(v.data, v.files, outcomes)
            &&& at.order == v.order
            &&& at.translate == translate
            &&& at.has_socket == has_socket
        }),
    decreases outcomes.len(),
{
    if outcomes.len() > 0 {
        let before = outcomes.drop_last();
        law_nothing_received_is_lost(v, max_messages, translate, has_socket, before);
        lemma_step_keeps(incoming_run(v, max_messages, translate, has_socket, before).view, outcomes.last());
        reveal_with_fuel(received_since, 2);
        assert(seq![outcomes.last()].drop_last() =~= Seq::empty());
    } else {
        law_start_keeps_the_message(v, max_messages, translate, has_socket);
    }
}

proof fn lemma_go_on_keeps<F>(v: IncomingView<F>)
    ensures
        ({
            let after = v.go_on().0;
            &&& after.data == v.data
            &&& after.files == v.files
            &&& after.order == v.order
            &&& after.translate == v.translate
            &&& after.has_socket == v.has_socket
        }),
{
}

proof fn lemma_step_keeps<F>(v: IncomingView<F>, outcome: IncomingOutcome<F>)
    ensures
        ({
            let after = v.step(outcome).0;
            &&& (after.data, after.files) == received_since(v.data, v.files, seq![outcome])
            &&& after.order == v.order
            &&& after.translate == v.translate
            &&& after.has_socket == v.has_socket
        }),
{
    reveal_with_fuel(received_since, 2);
    assert(seq![outcome].drop_last() =~= Seq::empty());
    match outcome {
        IncomingOutcome::Received { bytes, files } => {
            lemma_go_on_keeps(
                IncomingView { data: v.data + bytes, files: v.files + files, stage: IncomingStage::Idle, ..v },
            );
        },
        IncomingOutcome::UsedAdded(Ok(_)) => {
            lemma_go_on_keeps(
                IncomingView { left: (v.left - 1) as nat, used: true, stage: IncomingStage::Idle, ..v.cleared() },
            );
        },
        _ => {},
    }
}

/// A message is handed out exactly if its header is right, its body is not longer than
/// 4096 bytes, and all of it is there; it is then handed out with the three numbers at
/// its start. Whatever is wrong with it shows once there is a header.
pub proof fn law_whole_messages_are_handed_out<F>(v: IncomingView<F>)
    requires
        v.left > 0,
        v.has_socket,
        !v.handled,
    ensures
        ({
            let (after, action) = v.go_on();
            let size = u32_at(v.order, v.data, 8);
            let right = u32_at(v.order, v.data, 4) % 4 == 1 && size <= 4096;
            &&& action is HandleMessage <==> v.data.len() >= 12 && right && v.data.len() >= 12 + size
            &&& action matches IncomingAction::HandleMessage(hdr) ==> {
                &&& hdr.request == u32_at(v.order, v.data, 0)
                &&& hdr.flags == u32_at(v.order, v.data, 4)
                &&& hdr.size == size
            }
            &&& action == IncomingAction::Finish(Err(Error::InvalidMessage)) <==> v.data.len() >= 12 && !right
            &&& action is Receive <==> v.data.len() < 12 || right && v.data.len() < 12 + size
            &&& action matches IncomingAction::Receive { max } ==> {
                &&& 0 < max
                &&& v.data.len() + max == (if v.data.len() < 12 { 12 } else { 12 + size })
                &&& after.stage == (IncomingStage::Receiving { max })
            }
            &&& action is Receive || action is HandleMessage || action is Finish
        }),
{
    law_right_headers(v.order, false, v.data);
    law_fields_stand_in_order(v.order, v.data, 0);
}

/// Without a socket nothing is carried; and when enough was carried, nothing is asked
/// for, whatever waits.
pub proof fn law_stops_before_it_receives<F>(v: IncomingView<F>)
    ensures
        v.left == 0 ==> v.go_on() == (
            IncomingView { stage: IncomingStage::Idle, ..v },
            IncomingAction::Finish(Ok((FdRearm::Neither, v.used))),
        ),
        v.left > 0 && !v.has_socket ==> v.go_on() == (
            IncomingView { stage: IncomingStage::Idle, ..v },
            IncomingAction::Finish(Err(Error::BackendInternalError)),
        ),
{
}

/// A start takes over what it is told, and leaves the message that waits as it is.
pub proof fn law_start_keeps_the_message<F>(v: IncomingView<F>, max_messages: usize, translate: bool, has_socket: bool)
    ensures
        ({
            let after = v.start(max_messages, translate, has_socket).0;
            &&& after.data == v.data
            &&& after.files == v.files
            &&& after.handled == v.handled
            &&& after.order == v.order
            &&& after.left == max_messages
            &&& after.translate == translate
            &&& after.has_socket == has_socket
        }),
{
}

/// Trouble ends the run with an error that tells where it came from. The message stays
/// as it is, to be carried by a later run, except that a refused one is dropped.
pub proof fn law_trouble_is_told_apart<F>(v: IncomingView<F>, d: Descriptor, files: Seq<F>, errno: i32, e: Error, cause: IoCause)
    ensures
        ({
            let idle = IncomingView { stage: IncomingStage::Idle, ..v };
            let end = |e: Error| (idle, IncomingAction::Finish(Err(e)));
            &&& v.on_received(Seq::empty(), files) == end(Error::SocketBroken(IoCause::UnexpectedEof))
            &&& errno != 11 && errno != 4 ==> v.on_receive_failed(errno) == end(Error::SocketError(IoCause::Errno(errno)))
            &&& errno == 11 ==> v.on_receive_failed(errno) == (
                idle,
                IncomingAction::Finish(Ok((FdRearm::Socket, v.used))),
            )
            &&& errno == 4 && v.stage is Receiving ==> v.on_receive_failed(errno) == (
                v,
                IncomingAction::Receive { max: v.stage->max },
            )
            &&& v.on_popped(false) == (idle, IncomingAction::Finish(Ok((FdRearm::Queue, v.used))))
            &&& !d.write_only ==> v.on_descriptor(v.stage->Scanning_written as int, Some(d)) == end(Error::InvalidParam)
            &&& v.on_translated(Err(cause)) == end(Error::ReqHandlerError(cause))
            &&& v.on_range_checked(false) == end(Error::InvalidParam)
            &&& v.on_guest_written(false) == end(Error::InvalidMessage)
            &&& v.on_used_added(Err(cause)) == end(Error::ReqHandlerError(cause))
            &&& v.on_handled(Err(e)).1 == IncomingAction::Finish(Err(e))
        }),
{
}

/// A handled message goes to the guest: a chain is taken for it, and is filled from its
/// start. Empty buffers are passed over.
pub proof fn law_chain_is_filled_from_its_start<F>(v: IncomingView<F>, written: usize, d: Descriptor)
    ensures
        v.on_handled(Ok(())) == (
            IncomingView { handled: true, stage: IncomingStage::Popping, ..v },
            IncomingAction::PopChain,
        ),
        v.on_popped(true) == (
            IncomingView { stage: IncomingStage::Scanning { written: 0 }, ..v },
            IncomingAction::NextDescriptor,
        ),
        v.stage == (IncomingStage::Scanning { written }) && d.write_only && d.len == 0 ==> v.on_descriptor(
            written as int,
            Some(d),
        ) == (v, IncomingAction::NextDescriptor),
        v.on_descriptor(written as int, None).1 == (if written == v.data.len() {
            IncomingAction::AddUsed { len: written }
        } else {
            IncomingAction::Finish(Err(Error::InvalidMessage))
        }),
{
}

/// A delivered message is done with: it counts, and the next one starts from nothing.
pub proof fn law_delivered_message_is_done<F>(v: IncomingView<F>)
    requires
        v.left > 0,
        v.has_socket,
    ensures
        ({
            let (after, action) = v.on_used_added(Ok(()));
            &&& after.left + 1 == v.left
            &&& after.data.len() == 0
            &&& after.files.len() == 0
            &&& !after.handled
            &&& after.used
            &&& v.left == 1 ==> action == IncomingAction::Finish(Ok((FdRearm::Neither, true)))
            &&& v.left > 1 ==> action == (IncomingAction::Receive { max: 12 })
        }),
{
}

/// A buffer takes as many bytes as it has room for, or as are left, whichever is less.
pub proof fn law_buffer_takes_what_fits<F>(v: IncomingView<F>, addr: u64, written: usize, len: usize)
    requires
        v.stage == (IncomingStage::Checking { written, addr, len }),
        written <= v.data.len() <= usize::MAX,
    ensures
        v.on_range_checked(true).1 matches IncomingAction::WriteGuest { addr: place, from, to } && {
            &&& place == addr
            &&& from == written
            &&& to - from <= len
            &&& to <= v.data.len()
            &&& to - from == len || to == v.data.len()
        },
{
}

} // verus!
