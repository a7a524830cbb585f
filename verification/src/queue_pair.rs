//! Queue pairs for frontend <=> backend communication.
//!
//! One queue of a pair carries messages from the frontend's socket to the guest,
//! the other carries messages from the guest to the socket. The steps of both
//! ways are decided here; the caller does the input and output, and hands back
//! what came of it.

use crate::byte_order::{u32_at, ByteOrder};
use crate::error::Error;
use crate::incoming::{law_start_keeps_the_message, IncomingAction, IncomingData, IncomingStage, IncomingView};
use crate::message::{header_of, law_fields_stand_in_order, read_header, VhostUserMsgHeader, HEADER_SIZE};
use crate::outgoing::{law_waiting_message_goes_first, OutgoingAction, OutgoingData, OutgoingStage, OutgoingView};
use vstd::prelude::*;

verus! {

/// The way in which a message goes.
#[derive(Clone, Copy, Debug, PartialEq, Eq, Structural)]
pub enum Direction {
    Inbound,
    Outbound,
}

/// The descriptor that has to become ready before there is more to do.
#[derive(Clone, Copy, Debug, PartialEq, Eq, Structural)]
pub enum FdRearm {
    Neither,
    Socket,
    Queue,
}

/// The descriptors of a queue pair.
pub struct Fds<'a, E, S> {
    pub queue_in: &'a E,
    pub queue_out: &'a E,
    pub socket: Option<&'a S>,
}

impl<'a, E, S> Clone for Fds<'a, E, S> {
    fn clone(&self) -> (copy: Fds<'a, E, S>)
        ensures
            copy == *self,
    {
        *self
    }
}

impl<'a, E, S> Copy for Fds<'a, E, S> {

}

/// One of the descriptors of a queue pair.
pub enum PolledFd<'a, E, S> {
    Queue(&'a E),
    Socket(&'a S),
}

/// How the descriptor is used that has to become ready: a queue's descriptor is
/// always read, the socket is used the way that the messages go.
pub open spec fn polled_way(direction: Direction, rearm: FdRearm) -> Option<Direction> {
    match rearm {
        FdRearm::Neither => None,
        FdRearm::Queue => Some(Direction::Inbound),
        FdRearm::Socket => Some(direction),
    }
}

/// Says how the descriptor is used that has to become ready.
pub fn polled_direction(direction: Direction, rearm: FdRearm) -> (way: Option<Direction>)
    ensures
        way == polled_way(direction, rearm),
{
    match rearm {
        FdRearm::Neither => None,
        FdRearm::Queue => Some(Direction::Inbound),
        FdRearm::Socket => Some(direction),
    }
}

/// Extracts the file descriptor that needs to be polled from an [`Fds`].
/// There might be none, and the direction depends on which one it is
/// and on the direction of data flow: a queue's descriptor is always read.
pub fn extract_fd<'a, E, S>(direction: Direction, rearm: FdRearm, fds: Fds<'a, E, S>) -> (polled: Option<
    (PolledFd<'a, E, S>, Direction),
>)
    requires
        rearm == FdRearm::Socket ==> fds.socket is Some,
    ensures
        polled == (match rearm {
            FdRearm::Neither => None::<(PolledFd<'a, E, S>, Direction)>,
            FdRearm::Queue => Some(
                (
                    PolledFd::Queue(
                        if direction == Direction::Inbound {
                            fds.queue_in
                        } else {
                            fds.queue_out
                        },
                    ),
                    Direction::Inbound,
                ),
            ),
            FdRearm::Socket => Some((PolledFd::Socket(fds.socket->0), direction)),
        }),
{
    match rearm {
        FdRearm::Neither => None,
        FdRearm::Queue => {
            let fd = match direction {
                Direction::Inbound => fds.queue_in,
                Direction::Outbound => fds.queue_out,
            };
            Some((PolledFd::Queue(fd), Direction::Inbound))
        },
        FdRearm::Socket => match fds.socket {
            Some(socket) => Some((PolledFd::Socket(socket), direction)),
            None => None,
        },
    }
}

/// A message that starts with a header of version 1, and is as long as the
/// header says where that is asked for.
pub open spec fn header_is_valid(order: ByteOrder, exact_len: bool, msg: Seq<u8>) -> bool {
    &&& msg.len() >= HEADER_SIZE
    &&& header_of(order, msg).flags & 3 == 1
    &&& exact_len ==> header_of(order, msg).size == msg.len() - HEADER_SIZE
}

/// Checks the header of a message, and splits the message into header and body.
pub fn validate_hdr(order: ByteOrder, exact_len: bool, buf: &mut [u8]) -> (parts: Result<
    (VhostUserMsgHeader, &mut [u8]),
    Error,
>)
    ensures
        parts is Ok <==> header_is_valid(order, exact_len, old(buf)@),
        parts matches Ok((hdr, body)) ==> {
            &&& hdr == header_of(order, old(buf)@)
            &&& body@ == old(buf)@.skip(HEADER_SIZE as int)
            &&& final(buf)@ == old(buf)@.take(HEADER_SIZE as int) + final(body)@
        },
        parts matches Err(e) ==> e == Error::InvalidMessage && final(buf)@ == old(buf)@,
{
    let desc_len: usize = buf.len();
    if desc_len < HEADER_SIZE {
        return Err(Error::InvalidMessage);
    }
    let hdr = read_header(order, buf);
    let version: u32 = hdr.flags & 3;
    if version != 1 {
        return Err(Error::InvalidMessage);
    }
    if exact_len && hdr.size as usize != desc_len - HEADER_SIZE {
        return Err(Error::InvalidMessage);
    }
    let (_, body) = buf.split_at_mut(HEADER_SIZE);
    Ok((hdr, body))
}

/// Two queues of a device, and the socket whose messages they carry.
pub struct VirtioVhostUserQueuePair<F, E, S> {
    /// The message that goes to the guest.
    pub incoming: IncomingData<F>,
    /// The message that goes to the socket.
    pub outgoing: OutgoingData,
    /// The descriptor that tells of buffers on the queue to the guest.
    pub front2back_queue_evt: E,
    /// The descriptor that tells of buffers on the queue from the guest.
    pub back2front_queue_evt: E,
    /// The socket, once there is one.
    pub socket: Option<S>,
}

impl<F, E, S> VirtioVhostUserQueuePair<F, E, S> {
    /// Both ways are in order.
    pub open spec fn wf(&self) -> bool {
        self.incoming.wf() && self.outgoing.wf()
    }

    /// The descriptors and the socket stay, whatever becomes of the messages.
    pub open spec fn same_fds(&self, other: &VirtioVhostUserQueuePair<F, E, S>) -> bool {
        &&& self.front2back_queue_evt == other.front2back_queue_evt
        &&& self.back2front_queue_evt == other.back2front_queue_evt
        &&& self.socket == other.socket
    }

    /// How messages start to go to the guest.
    pub open spec fn incoming_start(&self, translate: bool, max_messages: usize) -> (IncomingView<F>, IncomingAction) {
        self.incoming@.start(max_messages, translate, self.socket is Some)
    }

    /// How messages start to go to the socket.
    pub open spec fn outgoing_start(&self, translate: bool, max_messages: usize) -> (OutgoingView, OutgoingAction) {
        self.outgoing@.start(max_messages, translate, self.socket is Some)
    }

    /// A pair with no message on its way.
    pub fn new(
        order: ByteOrder,
        front2back_queue_evt: E,
        back2front_queue_evt: E,
        socket: Option<S>,
    ) -> (pair: VirtioVhostUserQueuePair<F, E, S>)
        ensures
            pair.wf(),
            pair.front2back_queue_evt == front2back_queue_evt,
            pair.back2front_queue_evt == back2front_queue_evt,
            pair.socket == socket,
            pair.incoming@.order == order,
            pair.incoming@.data == Seq::<u8>::empty(),
            pair.incoming@.files == Seq::<F>::empty(),
            !pair.incoming@.handled,
            pair.incoming@.stage == IncomingStage::Idle,
            pair.outgoing@.order == order,
            pair.outgoing@.buf == Seq::<u8>::empty(),
            pair.outgoing@.stage == OutgoingStage::Idle,
    {
        VirtioVhostUserQueuePair {
            incoming: IncomingData::new(order),
            outgoing: OutgoingData::new(order),
            front2back_queue_evt,
            back2front_queue_evt,
            socket,
        }
    }

    /// Sets the socket, which can be done once.
    pub fn set_socket(&mut self, socket: S) -> (result: Result<(), Error>)
        ensures
            result == (if old(self).socket is Some {
                Err::<(), Error>(Error::InvalidMessage)
            } else {
                Ok(())
            }),
            final(self).socket == (if old(self).socket is Some {
                old(self).socket
            } else {
                Some(socket)
            }),
            final(self).front2back_queue_evt == old(self).front2back_queue_evt,
            final(self).back2front_queue_evt == old(self).back2front_queue_evt,
            final(self).incoming == old(self).incoming,
            final(self).outgoing == old(self).outgoing,
    {
        if self.socket.is_some() {
            return Err(Error::InvalidMessage);
        }
        self.socket = Some(socket);
        Ok(())
    }

    /// The descriptors of the pair.
    pub fn fds(&self) -> (fds: Fds<'_, E, S>)
        ensures
            *fds.queue_in == self.front2back_queue_evt,
            *fds.queue_out == self.back2front_queue_evt,
            fds.socket is Some <==> self.socket is Some,
            fds.socket matches Some(s) ==> *s == self.socket->0,
    {
        Fds {
            queue_in: &self.front2back_queue_evt,
            queue_out: &self.back2front_queue_evt,
            socket: self.socket.as_ref(),
        }
    }

    /// Starts to carry up to `max_messages` messages to the guest.
    pub fn process_incoming(&mut self, translate: bool, max_messages: usize) -> (action: IncomingAction)
        requires
            old(self).wf(),
        ensures
            final(self).wf(),
            final(self).same_fds(old(self)),
            final(self).outgoing == old(self).outgoing,
            (final(self).incoming@, action) == old(self).incoming_start(translate, max_messages),
    {
        let has_socket = self.socket.is_some();
        self.incoming.process_incoming(max_messages, translate, has_socket)
    }

    /// Starts to carry up to `max_messages` messages to the socket.
    pub fn process_outgoing(&mut self, translate: bool, max_messages: usize) -> (action: OutgoingAction)
        requires
            old(self).wf(),
            old(self).outgoing@.stage == OutgoingStage::Idle,
        ensures
            final(self).wf(),
            final(self).same_fds(old(self)),
            final(self).incoming == old(self).incoming,
            (final(self).outgoing@, action) == old(self).outgoing_start(translate, max_messages),
    {
        let has_socket = self.socket.is_some();
        self.outgoing.process_outgoing(max_messages, translate, has_socket)
    }
}

/// A header is right exactly if it is there, says version 1 in its two lowest flags,
/// and, where that is asked for, announces all the bytes behind it and no more.
pub proof fn law_right_headers(order: ByteOrder, exact_len: bool, msg: Seq<u8>)
    ensures
        header_is_valid(order, exact_len, msg) <==> {
            &&& msg.len() >= 12
            &&& u32_at(order, msg, 4) % 4 == 1
            &&& (exact_len ==> 12 + u32_at(order, msg, 8) == msg.len())
        },
{
    law_fields_stand_in_order(order, msg, 0);
    let flags = header_of(order, msg).flags;
    assert(flags & 3 == flags % 4) by (bit_vector);
}

/// The descriptor to wait for is read, unless it is the socket of messages that go out.
pub proof fn law_only_outgoing_sockets_are_written(direction: Direction, rearm: FdRearm)
    ensures
        polled_way(direction, rearm) is None <==> rearm == FdRearm::Neither,
        polled_way(direction, rearm) == Some(Direction::Outbound) <==> rearm == FdRearm::Socket && direction
            == Direction::Outbound,
{
}

/// A run of messages, either way, knows whether the pair has a socket, and goes by the
/// number and the addresses that were asked for. Neither way loses what it has begun.
pub proof fn law_runs_start_from_the_pair<F, E, S>(
    pair: VirtioVhostUserQueuePair<F, E, S>,
    translate: bool,
    max_messages: usize,
)
    requires
        pair.wf(),
        pair.outgoing@.stage == OutgoingStage::Idle,
    ensures
        ({
            let run = pair.incoming_start(translate, max_messages).0;
            &&& run.has_socket <==> pair.socket is Some
            &&& run.translate == translate
            &&& run.left == max_messages
            &&& run.data == pair.incoming@.data
            &&& run.files == pair.incoming@.files
        }),
        ({
            let run = pair.outgoing_start(translate, max_messages).0;
            &&& run.has_socket <==> pair.socket is Some
            &&& run.translate == translate
            &&& run.left == max_messages
            &&& run.pending() == pair.outgoing@.pending()
        }),
{
    law_start_keeps_the_message(pair.incoming@, max_messages, translate, pair.socket is Some);
    law_waiting_message_goes_first(pair.outgoing@, max_messages, translate, pair.socket is Some);
}

/// Pairs with the same descriptors agree in each of the three.
pub proof fn law_descriptors_agree_one_by_one<F, E, S>(
    a: VirtioVhostUserQueuePair<F, E, S>,
    b: VirtioVhostUserQueuePair<F, E, S>,
)
    ensures
        a.same_fds(&b) <==> (a.front2back_queue_evt, a.back2front_queue_evt, a.socket) == (
            b.front2back_queue_evt,
            b.back2front_queue_evt,
            b.socket,
        ),
{
}

} // verus!
