use handoff::channel;
use handoff::Receiver;
use handoff::SendError;
use handoff::Sender;
use std::future::poll_fn;
use std::time::Duration;

async fn send<T>(sender: &mut Sender<T>, item: T) -> Result<(), SendError<T>> {
    let mut op = sender.send(item);
    poll_fn(|cx| op.poll(cx.waker())).await
}

async fn next<T>(receiver: &mut Receiver<T>) -> Option<T> {
    poll_fn(|cx| receiver.poll_next(cx.waker())).await
}

async fn recv<T>(receiver: &mut Receiver<T>) -> Option<T> {
    let mut op = receiver.recv();
    poll_fn(|cx| op.poll(cx.waker())).await
}

async fn collect<T>(mut receiver: Receiver<T>) -> Vec<T> {
    let mut items = Vec::new();
    while let Some(item) = next(&mut receiver).await {
        items.push(item);
    }
    items
}

fn single_thread() -> tokio::runtime::Runtime {
    tokio::runtime::Builder::new_current_thread().enable_time().build().unwrap()
}

fn four_threads() -> tokio::runtime::Runtime {
    tokio::runtime::Builder::new_multi_thread().worker_threads(4).enable_time().build().unwrap()
}

#[test]
fn basic_test() {
    single_thread().block_on(async {
        let (mut sender, receiver) = channel();

        let sender_task = tokio::task::spawn(async move {
            send(&mut sender, 1).await.unwrap_or_else(|_| panic!("send 1"));
            send(&mut sender, 2).await.unwrap_or_else(|_| panic!("send 2"));
            send(&mut sender, 3).await.unwrap_or_else(|_| panic!("send 3"));
            send(&mut sender, 4).await.unwrap_or_else(|_| panic!("send 4"));
        });

        let data: Vec<i32> = collect(receiver).await;
        sender_task.await.unwrap();

        assert_eq!(data, [1, 2, 3, 4]);
    });
}

#[test]
fn multi_thread_tasks() {
    four_threads().block_on(async {
        let (mut sender, mut receiver) = channel();

        let sender_task = tokio::task::spawn(async move {
            for i in 0..1_000 {
                send(&mut sender, i).await.unwrap_or_else(|_| panic!("send"));
            }
        });

        let receiver_task = tokio::task::spawn(async move {
            for i in 0..1_000 {
                assert_eq!(next(&mut receiver).await.unwrap(), i);
            }
        });

        sender_task.await.unwrap();
        receiver_task.await.unwrap();
    });
}

#[test]
fn basic_sender_close() {
    single_thread().block_on(async {
        let (sender, mut receiver) = channel();

        drop(sender);

        let out: Option<i32> = recv(&mut receiver).await;
        assert_eq!(out, None);
    });
}

#[test]
fn basic_receiver_close() {
    single_thread().block_on(async {
        let (mut sender, receiver) = channel();

        drop(receiver);

        assert!(matches!(send(&mut sender, 1).await, Err(SendError(1))));
    });
}

#[test]
fn sender_close_while_waiting() {
    single_thread().block_on(async {
        let (sender, mut receiver) = channel();

        let sender_task = tokio::task::spawn(async move {
            tokio::task::yield_now().await;
            drop(sender);
        });

        let out: Option<i32> = recv(&mut receiver).await;
        assert_eq!(out, None);
        sender_task.await.unwrap();
    });
}

#[test]
fn receiver_close_while_waiting() {
    single_thread().block_on(async {
        let (mut sender, receiver) = channel();

        let receiver_task = tokio::task::spawn(async move {
            tokio::task::yield_now().await;
            drop(receiver);
        });

        assert!(matches!(send(&mut sender, 1).await, Err(SendError(1))));
        receiver_task.await.unwrap();
    });
}

#[test]
fn sender_cancels() {
    single_thread().block_on(async {
        let (mut sender, mut receiver) = channel();

        let sender_task = tokio::task::spawn(async move {
            send(&mut sender, 1).await.unwrap_or_else(|_| panic!("send 1"));
            send(&mut sender, 2).await.unwrap_or_else(|_| panic!("send 2"));
        });

        assert_eq!(next(&mut receiver).await.unwrap(), 1);
        sender_task.abort();
        assert!(matches!(next(&mut receiver).await, None));
        match sender_task.await {
            Err(err) => assert!(err.is_cancelled()),
            Ok(()) => panic!("the task was not cancelled"),
        }
    });
}

#[test]
fn termination_is_sticky() {
    single_thread().block_on(async {
        let (sender, mut receiver) = channel::<i32>();
        assert!(!receiver.is_terminated());
        assert_eq!(receiver.size_hint(), (0, None));
        drop(sender);
        assert!(receiver.is_terminated());
        assert_eq!(receiver.size_hint(), (0, Some(0)));
        for _ in 0..5 {
            assert_eq!(next(&mut receiver).await, None);
        }
        assert_eq!(recv(&mut receiver).await, None);
        assert!(receiver.is_terminated());
    });
}

#[test]
fn every_send_fails_once_the_receiver_is_gone() {
    single_thread().block_on(async {
        let (mut sender, mut receiver) = channel();
        let sender_task = tokio::task::spawn(async move {
            let first = send(&mut sender, String::from("first")).await;
            assert!(first.is_ok());
            sender
        });
        assert_eq!(next(&mut receiver).await, Some(String::from("first")));
        let mut sender = sender_task.await.unwrap();
        drop(receiver);
        for i in 0..3 {
            let text = format!("late {i}");
            match send(&mut sender, text.clone()).await {
                Err(error) => assert_eq!(error.into_inner(), text),
                Ok(()) => panic!("a send succeeded without a receiver"),
            }
        }
    });
}

#[test]
fn cancelled_send_is_not_delivered() {
    four_threads().block_on(async {
        let (mut sender, mut receiver) = channel();
        for round in 0..200 {
            // A send that nobody takes, given up after a moment.
            let timed = tokio::time::timeout(Duration::from_millis(1), send(&mut sender, -1)).await;
            assert!(timed.is_err());
            // The next send goes through, and the cancelled item never shows.
            let receiver_task = tokio::task::spawn(async move {
                let got = next(&mut receiver).await;
                (got, receiver)
            });
            send(&mut sender, round).await.unwrap_or_else(|_| panic!("send"));
            let (got, back) = receiver_task.await.unwrap();
            assert_eq!(got, Some(round));
            receiver = back;
        }
    });
}

#[test]
fn cancellations_under_load() {
    four_threads().block_on(async {
        let (mut sender, mut receiver) = channel();
        let sender_task = tokio::task::spawn(async move {
            let mut delivered = Vec::new();
            for i in 0..1_000 {
                let attempt = tokio::time::timeout(Duration::from_micros(50), send(&mut sender, i));
                match attempt.await {
                    Ok(Ok(())) => delivered.push(i),
                    Ok(Err(_)) => panic!("the receiver is still there"),
                    Err(_) => {}
                }
            }
            delivered
        });
        let received = collect_until_closed(&mut receiver).await;
        let delivered = sender_task.await.unwrap();
        // Every send that reported success was received, in order, and
        // nothing was received twice.
        let mut last = -1;
        for item in &received {
            assert!(*item > last);
            last = *item;
        }
        for item in &delivered {
            assert!(received.contains(item));
        }
    });
}

async fn collect_until_closed(receiver: &mut Receiver<i32>) -> Vec<i32> {
    let mut items = Vec::new();
    while let Some(item) = next(receiver).await {
        items.push(item);
    }
    items
}

#[test]
fn abandoned_receive_loses_nothing() {
    four_threads().block_on(async {
        let (mut sender, mut receiver) = channel();
        let sender_task = tokio::task::spawn(async move {
            for i in 0..300 {
                tokio::task::yield_now().await;
                send(&mut sender, i).await.unwrap_or_else(|_| panic!("send"));
            }
        });
        let mut expected = 0;
        while expected < 300 {
            let attempt = tokio::time::timeout(Duration::from_micros(20), recv(&mut receiver));
            match attempt.await {
                Ok(Some(item)) => {
                    assert_eq!(item, expected);
                    expected += 1;
                }
                Ok(None) => panic!("the sender is still there"),
                Err(_) => {}
            }
        }
        sender_task.await.unwrap();
        assert_eq!(next(&mut receiver).await, None);
    });
}
