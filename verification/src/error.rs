//! What the endpoint operations report when they fail, and how the queue's
//! own reports are turned into it.

use vstd::prelude::*;

verus! {

/// The capacity asked for is one that no queue can be opened with: zero, or
/// more than [`MAX_CAPACITY`](crate::queue::MAX_CAPACITY).
#[derive(Debug, Clone, Copy, PartialEq, Eq, Structural)]
pub struct InvalidCapacity;

/// A send found the peer endpoint released. The message was not sent and comes
/// back in the error. The condition is permanent: no later send on that
/// endpoint can succeed.
#[derive(Debug, PartialEq, Eq)]
pub struct ChannelClosed<T>(pub T);

/// Why a receive attempt returned no message.
#[derive(Debug, Clone, Copy, PartialEq, Eq, Structural)]
pub enum RecvError {
    /// Nothing is buffered right now, but the peer endpoint is still there:
    /// a later attempt may succeed.
    Empty,
    /// The peer endpoint was released and everything it sent has been
    /// received: no later attempt can succeed.
    Disconnected,
}

/// What a send reports for each thing the outgoing queue can report.
pub open spec fn send_reports<T>(
    outcome: Result<(), tokio::sync::mpsc::error::SendError<T>>,
) -> Result<(), ChannelClosed<T>> {
    match outcome {
        Ok(()) => Ok(()),
        Err(e) => Err(ChannelClosed(e.0)),
    }
}

/// What a receive attempt reports for each thing the incoming queue can
/// report.
pub open spec fn try_recv_reports<T>(
    outcome: Result<T, tokio::sync::mpsc::error::TryRecvError>,
) -> Result<T, RecvError> {
    match outcome {
        Ok(message) => Ok(message),
        Err(tokio::sync::mpsc::error::TryRecvError::Empty) => Err(RecvError::Empty),
        Err(tokio::sync::mpsc::error::TryRecvError::Disconnected) => Err(RecvError::Disconnected),
    }
}

/// Turns what the outgoing queue reported of a send into what the endpoint
/// reports: success stays success, and a failure keeps the unsent message.
pub fn send_result<T>(outcome: Result<(), tokio::sync::mpsc::error::SendError<T>>) -> (r: Result<
    (),
    ChannelClosed<T>,
>)
    ensures
        r == send_reports(outcome),
{
    match outcome {
        Ok(()) => Ok(()),
        Err(e) => Err(ChannelClosed(e.0)),
    }
}

/// Turns what the incoming queue reported of a receive attempt into what the
/// endpoint reports: a message passes through as it is, and the queue's two
/// reasons for having none stay apart.
pub fn try_recv_result<T>(outcome: Result<T, tokio::sync::mpsc::error::TryRecvError>) -> (r: Result<
    T,
    RecvError,
>)
    ensures
        r == try_recv_reports(outcome),
{
    match outcome {
        Ok(message) => Ok(message),
        Err(tokio::sync::mpsc::error::TryRecvError::Empty) => Err(RecvError::Empty),
        Err(tokio::sync::mpsc::error::TryRecvError::Disconnected) => Err(RecvError::Disconnected),
    }
}

/// A receive attempt reports each reason for having no message for exactly
/// the outcomes in which the queue reported that reason, and a message for
/// exactly the outcomes in which the queue gave that message: the temporary
/// reason and the permanent one are never mistaken for each other.
pub proof fn lemma_reasons_stay_apart<T>(outcome: Result<T, tokio::sync::mpsc::error::TryRecvError>)
    ensures
        try_recv_reports(outcome) == Err::<T, RecvError>(RecvError::Empty) <==> outcome == Err::<
            T,
            tokio::sync::mpsc::error::TryRecvError,
        >(tokio::sync::mpsc::error::TryRecvError::Empty),
        try_recv_reports(outcome) == Err::<T, RecvError>(RecvError::Disconnected) <==> outcome
            == Err::<T, tokio::sync::mpsc::error::TryRecvError>(
            tokio::sync::mpsc::error::TryRecvError::Disconnected,
        ),
        forall|message: T|
            try_recv_reports(outcome) == Ok::<T, RecvError>(message) <==> outcome == Ok::<
                T,
                tokio::sync::mpsc::error::TryRecvError,
            >(message),
{
}

/// A send reports failure for exactly the outcomes in which the queue
/// reported failure, and the message in its error is the one in the queue's.
pub proof fn lemma_failed_send_keeps_message<T>(
    outcome: Result<(), tokio::sync::mpsc::error::SendError<T>>,
)
    ensures
        send_reports(outcome) is Ok <==> outcome is Ok,
        forall|message: T|
            send_reports(outcome) == Err::<(), ChannelClosed<T>>(ChannelClosed(message))
                <==> outcome == Err::<(), tokio::sync::mpsc::error::SendError<T>>(
                tokio::sync::mpsc::error::SendError(message),
            ),
{
}

} // verus!
