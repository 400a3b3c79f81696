use std::future::Future;
use std::pin::Pin;
use std::task::{Context, Poll, Waker};

use tokio::runtime::{Builder, Handle, Runtime};
use tokio::sync::mpsc::error::SendError;
use tokio_bichannel::{channel, RecvError};

/// A runtime to await on from the test's own thread.
fn runtime() -> Runtime {
    Builder::new_current_thread().build().unwrap()
}

/// Polls a pending operation once, without waiting for it.
fn poll_once<F: Future + ?Sized>(pending: &mut Pin<Box<F>>) -> Poll<F::Output> {
    let mut cx = Context::from_waker(Waker::noop());
    pending.as_mut().poll(&mut cx)
}

#[test]
fn test_send_recv() {
    let rt = runtime();
    let (mut chan1, mut chan2) = channel::<String, String>(10).unwrap();

    rt.block_on(chan1.send("Hello from chan1".to_string())).unwrap();
    rt.block_on(chan2.send("Hello from chan2".to_string())).unwrap();

    let msg1 = rt.block_on(chan2.recv()).unwrap();
    let msg2 = rt.block_on(chan1.recv()).unwrap();

    assert_eq!(msg1, "Hello from chan1");
    assert_eq!(msg2, "Hello from chan2");
}

#[test]
fn test_try_recv() {
    let rt = runtime();
    let (chan1, mut chan2) = channel::<String, String>(10).unwrap();

    rt.block_on(chan1.send("Hello from chan1".to_string())).unwrap();

    let msg1 = chan2.try_recv().unwrap();
    assert_eq!(msg1, "Hello from chan1");

    let try_recv_result = chan2.try_recv();
    assert!(try_recv_result.is_err());
    assert_eq!(try_recv_result, Err(RecvError::Empty));
}

#[test]
fn test_threading() {
    let rt = runtime();
    let (mut chan1, mut chan2) = channel::<String, String>(10).unwrap();

    let handle = rt.spawn_blocking(move || {
        let rt = Handle::current();
        rt.block_on(chan1.send("Hello from chan1".to_string())).unwrap();
        let msg = rt.block_on(chan1.recv()).unwrap();
        assert_eq!(msg, "Hello from chan2");
    });

    rt.block_on(chan2.send("Hello from chan2".to_string())).unwrap();
    let msg = rt.block_on(chan2.recv()).unwrap();
    assert_eq!(msg, "Hello from chan1");

    rt.block_on(handle).unwrap();
}

#[test]
fn every_message_arrives_as_sent() {
    let rt = runtime();
    let (a, mut b) = channel::<Vec<u8>, ()>(4).unwrap();
    let messages = vec![vec![], vec![0], vec![1, 2, 3], vec![255; 64]];
    for m in &messages {
        rt.block_on(a.send(m.clone())).unwrap();
        assert_eq!(rt.block_on(b.recv()), Some(m.clone()));
    }
}

#[test]
fn messages_arrive_in_the_order_sent() {
    let rt = runtime();
    let (a, mut b) = channel::<u32, u32>(8).unwrap();
    rt.block_on(a.send(1)).unwrap();
    rt.block_on(a.send(2)).unwrap();
    assert_eq!(rt.block_on(b.recv()), Some(1));
    assert_eq!(rt.block_on(b.recv()), Some(2));

    for i in 10..18 {
        rt.block_on(a.send(i)).unwrap();
    }
    for i in 10..18 {
        assert_eq!(b.try_recv(), Ok(i));
    }
    assert_eq!(b.try_recv(), Err(RecvError::Empty));
}

#[test]
fn the_two_directions_do_not_mix() {
    let rt = runtime();
    let (mut a, mut b) = channel::<u32, u32>(4).unwrap();
    rt.block_on(a.send(1)).unwrap();
    assert_eq!(a.try_recv(), Err(RecvError::Empty));
    rt.block_on(b.send(2)).unwrap();
    rt.block_on(a.send(3)).unwrap();
    assert_eq!(a.try_recv(), Ok(2));
    assert_eq!(a.try_recv(), Err(RecvError::Empty));
    assert_eq!(b.try_recv(), Ok(1));
    assert_eq!(b.try_recv(), Ok(3));
    assert_eq!(b.try_recv(), Err(RecvError::Empty));
}

#[test]
fn a_full_direction_does_not_hold_up_the_other() {
    let (mut a, mut b) = channel::<u32, u32>(1).unwrap();
    assert_eq!(poll_once(&mut Box::pin(a.send(1))), Poll::Ready(Ok(())));
    assert!(poll_once(&mut Box::pin(a.send(2))).is_pending());
    assert_eq!(poll_once(&mut Box::pin(b.send(10))), Poll::Ready(Ok(())));
    assert_eq!(a.try_recv(), Ok(10));
    assert_eq!(b.try_recv(), Ok(1));
}

#[test]
fn the_two_directions_carry_different_types() {
    let rt = runtime();
    let (mut a, mut b) = channel::<String, u64>(1).unwrap();
    rt.block_on(a.send("question".to_string())).unwrap();
    rt.block_on(b.send(42)).unwrap();
    assert_eq!(rt.block_on(b.recv()), Some("question".to_string()));
    assert_eq!(rt.block_on(a.recv()), Some(42));
}

#[test]
fn a_full_queue_makes_the_sender_wait() {
    let capacity: usize = 3;
    let (a, mut b) = channel::<usize, ()>(capacity).unwrap();
    for i in 0..capacity {
        assert_eq!(poll_once(&mut Box::pin(a.send(i))), Poll::Ready(Ok(())));
    }

    let mut waiting = Box::pin(a.send(capacity));
    assert!(poll_once(&mut waiting).is_pending());
    assert!(poll_once(&mut waiting).is_pending());

    assert_eq!(b.try_recv(), Ok(0));
    assert_eq!(poll_once(&mut waiting), Poll::Ready(Ok(())));
    drop(waiting);

    for i in 1..capacity + 1 {
        assert_eq!(b.try_recv(), Ok(i));
    }
    assert_eq!(b.try_recv(), Err(RecvError::Empty));
}

#[test]
fn capacity_one_hands_messages_over_one_by_one() {
    let (a, mut b) = channel::<&'static str, ()>(1).unwrap();
    assert_eq!(poll_once(&mut Box::pin(a.send("x"))), Poll::Ready(Ok(())));

    let mut second = Box::pin(a.send("y"));
    assert!(poll_once(&mut second).is_pending());

    assert_eq!(poll_once(&mut Box::pin(b.recv())), Poll::Ready(Some("x")));
    assert_eq!(poll_once(&mut second), Poll::Ready(Ok(())));
    assert_eq!(poll_once(&mut Box::pin(b.recv())), Poll::Ready(Some("y")));
}

#[test]
fn a_waiting_sender_is_woken_by_a_receive_on_another_thread() {
    let rt = runtime();
    let (a, mut b) = channel::<&'static str, ()>(1).unwrap();
    rt.block_on(a.send("x")).unwrap();

    let sender = rt.spawn_blocking(move || {
        let sent = Handle::current().block_on(a.send("y"));
        (a, sent)
    });

    assert_eq!(rt.block_on(b.recv()), Some("x"));
    assert_eq!(rt.block_on(b.recv()), Some("y"));
    let (a, sent) = rt.block_on(sender).unwrap();
    assert_eq!(sent, Ok(()));
    drop(a);
    assert_eq!(rt.block_on(b.recv()), None);
}

#[test]
fn recv_waits_for_a_message() {
    let (a, mut b) = channel::<u8, ()>(1).unwrap();
    let mut waiting = Box::pin(b.recv());
    assert!(poll_once(&mut waiting).is_pending());
    assert!(poll_once(&mut waiting).is_pending());
    assert_eq!(poll_once(&mut Box::pin(a.send(7))), Poll::Ready(Ok(())));
    assert_eq!(poll_once(&mut waiting), Poll::Ready(Some(7)));
}

#[test]
fn a_send_given_up_while_waiting_leaves_nothing_behind() {
    let (a, mut b) = channel::<u8, ()>(1).unwrap();
    assert_eq!(poll_once(&mut Box::pin(a.send(1))), Poll::Ready(Ok(())));
    let mut waiting = Box::pin(a.send(2));
    assert!(poll_once(&mut waiting).is_pending());
    drop(waiting);
    assert_eq!(b.try_recv(), Ok(1));
    assert_eq!(b.try_recv(), Err(RecvError::Empty));
    assert_eq!(poll_once(&mut Box::pin(a.send(3))), Poll::Ready(Ok::<(), SendError<u8>>(())));
    assert_eq!(b.try_recv(), Ok(3));
}

#[test]
fn a_recv_given_up_while_waiting_takes_nothing() {
    let (a, mut b) = channel::<u8, ()>(1).unwrap();
    let mut waiting = Box::pin(b.recv());
    assert!(poll_once(&mut waiting).is_pending());
    drop(waiting);
    assert_eq!(poll_once(&mut Box::pin(a.send(5))), Poll::Ready(Ok(())));
    assert_eq!(b.try_recv(), Ok(5));
}
