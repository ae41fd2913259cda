use convex_kmp::handle::SubscriptionHandle;
use futures::channel::oneshot;
use tokio::runtime::Runtime;

#[test]
fn the_first_cancellation_sends_the_signal() {
    let rt = Runtime::new().unwrap();
    let (sender, mut receiver) = oneshot::channel::<()>();
    let mut handle = SubscriptionHandle::new(sender, rt.spawn(async {}));

    assert!(!handle.is_cancelled());
    assert_eq!(receiver.try_recv(), Ok(None));
    handle.cancel();
    assert!(handle.is_cancelled());
    assert_eq!(receiver.try_recv(), Ok(Some(())));
}

#[test]
fn cancelling_again_does_nothing() {
    let rt = Runtime::new().unwrap();
    let (sender, receiver) = oneshot::channel::<()>();
    let mut handle = SubscriptionHandle::new(sender, rt.spawn(async {}));

    handle.cancel();
    handle.cancel();
    assert!(handle.is_cancelled());
    assert!(handle.begin_cancel().is_none());
    assert_eq!(rt.block_on(receiver), Ok(()));
}

#[test]
fn a_listener_that_is_gone_is_no_error() {
    let rt = Runtime::new().unwrap();
    let (sender, receiver) = oneshot::channel::<()>();
    drop(receiver);
    let mut handle = SubscriptionHandle::new(sender, rt.spawn(async {}));
    handle.cancel();
    assert!(handle.is_cancelled());
}

#[test]
fn the_signal_to_send_comes_out_once() {
    let rt = Runtime::new().unwrap();
    let (sender, mut receiver) = oneshot::channel::<()>();
    let mut handle = SubscriptionHandle::new(sender, rt.spawn(async {}));

    let signal = handle.begin_cancel();
    assert!(handle.is_cancelled());
    assert_eq!(receiver.try_recv(), Ok(None));
    assert_eq!(signal.unwrap().send(()), Ok(()));
    assert_eq!(receiver.try_recv(), Ok(Some(())));
    assert!(handle.begin_cancel().is_none());
}

#[test]
fn letting_go_cancels_and_stops_the_task() {
    let rt = Runtime::new().unwrap();
    let (sender, mut receiver) = oneshot::channel::<()>();
    let (guard, dropped) = oneshot::channel::<()>();
    let task = rt.spawn(async move {
        let _guard = guard;
        futures::future::pending::<()>().await;
    });
    let mut handle = SubscriptionHandle::new(sender, task);

    handle.release();
    assert!(handle.is_cancelled());
    assert_eq!(receiver.try_recv(), Ok(Some(())));
    assert!(handle.take_task().is_none());
    assert!(rt.block_on(dropped).is_err());
}

#[test]
fn a_cancelled_handle_can_still_be_let_go_of() {
    let rt = Runtime::new().unwrap();
    let (sender, _receiver) = oneshot::channel::<()>();
    let mut handle = SubscriptionHandle::new(sender, rt.spawn(futures::future::pending::<()>()));

    handle.cancel();
    let task = handle.take_task().unwrap();
    assert!(!task.is_finished());
    handle.release();
    assert!(handle.is_cancelled());
    assert!(handle.take_task().is_none());
    assert!(!task.is_finished());
}
