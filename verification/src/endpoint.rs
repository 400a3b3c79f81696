//! The two endpoints of a pairing, and the function that makes them.
//!
//! What a queue holds at a given moment is shared between two endpoints that
//! may run on different threads, so no contract here speaks of it. What a
//! contract can speak of is what stays true for as long as an endpoint lives:
//! which queue it sends on, which one it receives from, and their capacity.
//! That is an endpoint's [`Wiring`], its view.

use crate::error::{send_reports, try_recv_result, ChannelClosed, InvalidCapacity, RecvError};
use crate::queue::{
    open_queue, queue_recv, queue_send, queue_try_recv, valid_capacity, MAX_CAPACITY,
};
use core::future::Future;
use vstd::future::FutureAdditionalSpecFns;
use vstd::prelude::*;

verus! {

/// Tells the two queues of one pairing apart. The names are relative to that
/// pairing: they say nothing of how queues of different pairings relate.
pub enum Direction {
    /// The queue that carries messages from the first endpoint to the second.
    Forward,
    /// The queue that carries messages from the second endpoint to the first.
    Backward,
}

/// What is fixed about a queue when it is opened.
pub struct QueueLabel {
    pub direction: Direction,
    pub capacity: nat,
}

/// The view of an endpoint: the queue it sends on and the queue it receives
/// from.
pub struct Wiring {
    pub outgoing: QueueLabel,
    pub incoming: QueueLabel,
}

impl Wiring {
    /// The wiring of the first endpoint of a pairing with the given capacity.
    pub open spec fn first(capacity: nat) -> Wiring {
        Wiring {
            outgoing: QueueLabel { direction: Direction::Forward, capacity },
            incoming: QueueLabel { direction: Direction::Backward, capacity },
        }
    }

    /// The wiring of the peer: what one endpoint sends on, the other receives
    /// from.
    pub open spec fn mirror(self) -> Wiring {
        Wiring { outgoing: self.incoming, incoming: self.outgoing }
    }

    /// The capacity of the queue that the endpoint sends on.
    pub open spec fn capacity(self) -> nat {
        self.outgoing.capacity
    }

    /// An endpoint sends on one queue of its pairing and receives from the
    /// other, and both were opened with the same valid capacity.
    pub open spec fn wf(self) -> bool {
        &&& self.outgoing.direction != self.incoming.direction
        &&& self.outgoing.capacity == self.incoming.capacity
        &&& 0 < self.outgoing.capacity <= MAX_CAPACITY
    }
}

/// The sending end of a queue, with the label the queue was opened under.
#[verifier::reject_recursive_types(T)]
struct Outgoing<T> {
    handle: tokio::sync::mpsc::Sender<T>,
    label: Ghost<QueueLabel>,
}

/// The receiving end of a queue, with the label the queue was opened under.
#[verifier::reject_recursive_types(T)]
struct Incoming<T> {
    handle: tokio::sync::mpsc::Receiver<T>,
    label: Ghost<QueueLabel>,
}

/// Opens one queue and labels both of its ends alike.
fn open_labelled<T>(capacity: usize, direction: Ghost<Direction>) -> (ends: (
    Outgoing<T>,
    Incoming<T>,
))
    requires
        valid_capacity(capacity),
    ensures
        ends.0.label@ == (QueueLabel { direction: direction@, capacity: capacity as nat }),
        ends.1.label@ == ends.0.label@,
{
    let (tx, rx) = open_queue::<T>(capacity);
    let label = Ghost(QueueLabel { direction: direction@, capacity: capacity as nat });
    (Outgoing { handle: tx, label }, Incoming { handle: rx, label })
}

/// One endpoint of a two-way channel: it sends messages of type `S` to its
/// peer and receives messages of type `R` from it.
///
/// Endpoints come in pairs, from [`channel`], and in no other way. An endpoint
/// is released by dropping it.
#[verifier::reject_recursive_types(S)]
#[verifier::reject_recursive_types(R)]
pub struct Channel<S, R> {
    sender: Outgoing<S>,
    receiver: Incoming<R>,
}

impl<S, R> View for Channel<S, R> {
    type V = Wiring;

    closed spec fn view(&self) -> Wiring {
        Wiring { outgoing: self.sender.label@, incoming: self.receiver.label@ }
    }
}

impl<S, R> Channel<S, R> {
    /// Sends a message to the peer. The call itself only prepares the send
    /// and returns a future; awaiting the future suspends the calling task
    /// while the outgoing queue is full, and completes once the message is in
    /// the queue, not once the peer has received it.
    ///
    /// The send fails only if the peer endpoint has been released, and then
    /// hands the message back. Which of the two happens is up to the peer.
    /// [`send_result`](crate::error::send_result) turns the outcome into the
    /// endpoint's own terms.
    pub fn send(&self, s: S) -> (pending: impl Future<
        Output = Result<(), tokio::sync::mpsc::error::SendError<S>>,
    > + '_)
        ensures
            pending@ matches Err(e) ==> e.0 == s,
            send_reports(pending@) matches Err(closed) ==> closed == ChannelClosed(s),
    {
        queue_send(&self.sender.handle, s)
    }

    /// Receives the oldest message the peer has sent and this endpoint has not
    /// yet received. The call itself only prepares the receive and returns a
    /// future; awaiting the future suspends the calling task while there is
    /// no message. `None` means that the peer endpoint has been released and
    /// everything it sent has been received.
    ///
    /// What comes out is up to the peer. The endpoint's wiring does not
    /// change.
    pub fn recv(&mut self) -> (pending: impl Future<Output = Option<R>> + '_)
        ensures
            final(self)@ == old(self)@,
    {
        queue_recv(&mut self.receiver.handle)
    }

    /// Receives the oldest message the peer has sent and this endpoint has not
    /// yet received, if there is one, without waiting. Otherwise it says why
    /// not: [`RecvError::Empty`] while the peer endpoint is there,
    /// [`RecvError::Disconnected`] once it has been released.
    ///
    /// What comes out is up to the peer. The endpoint's wiring does not
    /// change.
    pub fn try_recv(&mut self) -> (r: Result<R, RecvError>)
        ensures
            final(self)@ == old(self)@,
    {
        try_recv_result(queue_try_recv(&mut self.receiver.handle))
    }
}

/// Two endpoints that are wired as the two sides of one pairing: each sends on
/// the queue that the other receives from.
pub open spec fn paired(a: Wiring, b: Wiring) -> bool {
    &&& a.wf()
    &&& b.wf()
    &&& a.outgoing == b.incoming
    &&& b.outgoing == a.incoming
}

/// Opens a two-way channel whose two queues each hold up to `buffer_size`
/// messages, and returns its two endpoints.
///
/// The first endpoint sends on the forward queue and receives from the
/// backward queue; the second is its mirror image. Fails exactly when no
/// queue can be opened with `buffer_size`: when it is zero or exceeds
/// [`MAX_CAPACITY`]. Zero is refused because the queues have no mode in which
/// a send waits for the matching receive: every queue buffers at least one
/// message.
pub fn channel<T, U>(buffer_size: usize) -> (r: Result<(Channel<T, U>, Channel<U, T>), InvalidCapacity>)
    ensures
        match r {
            Ok((first, second)) => {
                &&& valid_capacity(buffer_size)
                &&& first@ == Wiring::first(buffer_size as nat)
                &&& second@ == first@.mirror()
                &&& paired(first@, second@)
            },
            Err(_) => !valid_capacity(buffer_size),
        },
{
    if buffer_size == 0 || buffer_size > MAX_CAPACITY {
        return Err(InvalidCapacity);
    }
    let (forward_tx, forward_rx) = open_labelled::<T>(buffer_size, Ghost(Direction::Forward));
    let (backward_tx, backward_rx) = open_labelled::<U>(buffer_size, Ghost(Direction::Backward));
    Ok(
        (
            Channel { sender: forward_tx, receiver: backward_rx },
            Channel { sender: backward_tx, receiver: forward_rx },
        ),
    )
}

/// The two directions of a pairing run on different queues: neither endpoint
/// receives from the queue it sends on, and the queue that carries one
/// endpoint's messages is not the one that carries its peer's.
pub proof fn lemma_directions_are_separate(a: Wiring, b: Wiring)
    requires
        paired(a, b),
    ensures
        a.outgoing != a.incoming,
        b.outgoing != b.incoming,
        a.outgoing != b.outgoing,
        a.incoming != b.incoming,
{
}

/// Both queues of a pairing have the same capacity, whichever endpoint one
/// asks and whichever direction one asks about.
pub proof fn lemma_capacity_is_shared(a: Wiring, b: Wiring)
    requires
        paired(a, b),
    ensures
        a.capacity() == b.capacity(),
        a.outgoing.capacity == a.capacity(),
        a.incoming.capacity == a.capacity(),
        b.outgoing.capacity == a.capacity(),
        b.incoming.capacity == a.capacity(),
        0 < a.capacity() <= MAX_CAPACITY,
{
}

/// Being paired does not depend on which endpoint is named first, and the
/// peer's wiring is always the mirror image of one's own.
pub proof fn lemma_paired_is_symmetric(a: Wiring, b: Wiring)
    requires
        paired(a, b),
    ensures
        paired(b, a),
        b == a.mirror(),
        a == b.mirror(),
{
}

} // verus!
