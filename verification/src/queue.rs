//! The bounded queue that each direction of a pairing runs on: tokio's `mpsc`
//! channel. What this file says of tokio is taken on trust; nothing in it is
//! proved.

use core::future::Future;
use vstd::future::FutureAdditionalSpecFns;
use vstd::prelude::*;

verus! {

/// The sending handle of a tokio bounded queue. Opaque: a contract can say
/// nothing of what the queue holds, which the receiving side changes at any
/// moment.
#[verifier::external_type_specification]
#[verifier::external_body]
#[verifier::reject_recursive_types(T)]
pub struct ExSender<T>(tokio::sync::mpsc::Sender<T>);

/// The receiving handle of a tokio bounded queue. Opaque, as the sending handle
/// is.
#[verifier::external_type_specification]
#[verifier::external_body]
#[verifier::reject_recursive_types(T)]
pub struct ExReceiver<T>(tokio::sync::mpsc::Receiver<T>);

/// tokio's error for a send on a queue whose receiver is gone: a tuple struct
/// with one public field, the value that was not sent.
#[verifier::external_type_specification]
#[verifier::reject_recursive_types(T)]
pub struct ExSendError<T>(tokio::sync::mpsc::error::SendError<T>);

/// tokio's error for a receive attempt that found nothing: an enum of two
/// variants without fields, `Empty` and `Disconnected`.
#[verifier::external_type_specification]
pub struct ExTryRecvError(tokio::sync::mpsc::error::TryRecvError);

/// The largest capacity a queue can be opened with: the number of permits
/// that tokio's semaphore can hold, `Semaphore::MAX_PERMITS`, which is
/// `usize::MAX` without its three highest bits.
pub const MAX_CAPACITY: usize = usize::MAX / 8;

/// A capacity that a queue can be opened with.
pub open spec fn valid_capacity(capacity: usize) -> bool {
    0 < capacity <= MAX_CAPACITY
}

/// Calls `tokio::sync::mpsc::channel`, which opens a queue and returns its two
/// handles. It panics on a capacity of zero and on one above
/// `Semaphore::MAX_PERMITS`, so both are left out here. Nothing is claimed of
/// the handles.
#[verifier::external_body]
pub(crate) fn open_queue<T>(capacity: usize) -> (ends: (
    tokio::sync::mpsc::Sender<T>,
    tokio::sync::mpsc::Receiver<T>,
))
    requires
        valid_capacity(capacity),
{
    tokio::sync::mpsc::channel(capacity)
}

/// Calls `Sender::send`, which returns at once with a future. Awaited, the
/// future waits for room in the queue and puts the value in, or fails once
/// the receiver is gone. Whether it fails is up to the other side; claimed is
/// only that the error it then yields carries the very value that was handed
/// in.
#[verifier::external_body]
pub(crate) fn queue_send<T>(tx: &tokio::sync::mpsc::Sender<T>, value: T) -> (pending: impl Future<
    Output = Result<(), tokio::sync::mpsc::error::SendError<T>>,
> + '_)
    ensures
        pending@ matches Err(e) ==> e.0 == value,
{
    tx.send(value)
}

/// Calls `Receiver::recv`, which returns at once with a future. Awaited, the
/// future waits for the next value, or yields `None` once every sender is
/// gone and the queue is drained. What comes out is up to the other side, so
/// nothing is claimed of it.
#[verifier::external_body]
pub(crate) fn queue_recv<T>(rx: &mut tokio::sync::mpsc::Receiver<T>) -> (pending: impl Future<
    Output = Option<T>,
> + '_) {
    rx.recv()
}

/// Calls `Receiver::try_recv`, which takes the next value if one is there and
/// reports why if none is, without waiting. What comes out is up to the other
/// side, so nothing is claimed of it.
#[verifier::external_body]
pub(crate) fn queue_try_recv<T>(rx: &mut tokio::sync::mpsc::Receiver<T>) -> (outcome: Result<
    T,
    tokio::sync::mpsc::error::TryRecvError,
>) {
    rx.try_recv()
}

} // verus!
