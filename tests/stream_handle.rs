use disconnect_stream::cleanup::{observe_recv, observe_try_recv, CleanupAction, CleanupTask, Observation};
use disconnect_stream::handle::ClientDisconnect;
use disconnect_stream::session::start_stream;
use disconnect_stream::signal::cancellation_channel;
use disconnect_stream::source::{CountingWindows, Items, Next, Producer};

fn look(task: &mut CleanupTask, rx: &mut tokio::sync::oneshot::Receiver<()>) -> CleanupAction {
    task.on_observation(observe_try_recv(rx.try_recv()))
}

#[test]
fn handle_yields_same_items_as_inner_producer() {
    let items = vec![5u32, 9, 9, 2, 7];
    let mut bare = Items::new(items.clone());
    let (tx, _rx) = cancellation_channel();
    let mut handle = ClientDisconnect::new(Items::new(items), tx);
    for _ in 0..8 {
        assert_eq!(handle.poll_next(), bare.poll_next());
    }
}

#[test]
fn handle_over_empty_producer_ends_at_once() {
    let (tx, _rx) = cancellation_channel();
    let mut handle = ClientDisconnect::new(Items::<u8>::new(vec![]), tx);
    assert_eq!(handle.poll_next(), Next::End);
    assert_eq!(handle.poll_next(), Next::End);
}

#[test]
fn drained_stream_tears_down_once_after_end() {
    let (tx, mut rx) = cancellation_channel();
    let mut task = CleanupTask::new();
    let mut handle = ClientDisconnect::new(Items::new(vec![1u32, 2, 3]), tx);
    let mut seen = Vec::new();
    loop {
        match handle.poll_next() {
            Next::Item(i) => seen.push(i),
            Next::End => break,
            Next::Pending => {}
        }
        assert_eq!(look(&mut task, &mut rx), CleanupAction::Wait);
    }
    assert_eq!(seen, vec![1, 2, 3]);
    assert_eq!(look(&mut task, &mut rx), CleanupAction::Wait);
    assert!(!task.done());
    drop(handle);
    assert_eq!(look(&mut task, &mut rx), CleanupAction::Teardown);
    assert_eq!(look(&mut task, &mut rx), CleanupAction::Finished);
    assert!(task.done());
}

#[test]
fn infinite_count_discarded_after_two_items() {
    let (tx, mut rx) = cancellation_channel();
    let mut task = CleanupTask::new();
    let mut handle = ClientDisconnect::new(CountingWindows::new(), tx);
    let mut seen = Vec::new();
    for _ in 0..2 {
        match handle.poll_next() {
            Next::Item(w) => seen.push(w.values()),
            other => panic!("expected an item, got {:?}", other),
        }
    }
    assert_eq!(seen, vec![vec![0, 1, 2], vec![3, 4, 5]]);
    assert_eq!(look(&mut task, &mut rx), CleanupAction::Wait);
    drop(handle);
    let mut teardowns = 0;
    for _ in 0..5 {
        if look(&mut task, &mut rx) == CleanupAction::Teardown {
            teardowns += 1;
        }
    }
    assert_eq!(teardowns, 1);
}

#[test]
fn infinite_producer_dropped_after_three_items_signals_once() {
    let session = start_stream(None, "stream");
    let mut handle = session.handle;
    let mut rx = session.receiver;
    let mut task = session.cleanup;
    for i in 0..3u32 {
        match handle.poll_next() {
            Next::Item(w) => assert_eq!(w.start(), 3 * i),
            other => panic!("expected an item, got {:?}", other),
        }
    }
    drop(handle);
    let actions: Vec<CleanupAction> = (0..4).map(|_| look(&mut task, &mut rx)).collect();
    assert_eq!(
        actions,
        vec![CleanupAction::Teardown, CleanupAction::Finished, CleanupAction::Finished, CleanupAction::Finished]
    );
}

#[test]
fn teardown_once_wherever_the_handle_is_dropped() {
    for consumed in 0..5 {
        let (tx, mut rx) = cancellation_channel();
        let mut task = CleanupTask::new();
        let mut handle = ClientDisconnect::new(Items::new(vec![1u32, 2, 3]), tx);
        for _ in 0..consumed {
            handle.poll_next();
            assert_eq!(look(&mut task, &mut rx), CleanupAction::Wait);
        }
        drop(handle);
        let teardowns = (0..3).filter(|_| look(&mut task, &mut rx) == CleanupAction::Teardown).count();
        assert_eq!(teardowns, 1);
    }
}

fn consume_then_fail(mut handle: ClientDisconnect<Items<u32>>) -> Result<u32, String> {
    match handle.poll_next() {
        Next::Item(1) => {}
        _ => return Ok(0),
    }
    Err::<(), String>("unwound".to_string())?;
    Ok(1)
}

#[test]
fn early_error_return_still_signals() {
    let (tx, mut rx) = cancellation_channel();
    let mut task = CleanupTask::new();
    let handle = ClientDisconnect::new(Items::new(vec![1u32, 2]), tx);
    assert!(consume_then_fail(handle).is_err());
    assert_eq!(look(&mut task, &mut rx), CleanupAction::Teardown);
}

#[test]
fn explicit_close_is_seen_as_sent() {
    let (tx, mut rx) = cancellation_channel();
    let handle = ClientDisconnect::new(Items::new(vec![1u32]), tx);
    handle.close();
    assert_eq!(observe_try_recv(rx.try_recv()), Observation::Sent);
}

#[test]
fn close_after_receiver_is_gone_is_no_error() {
    let (tx, rx) = cancellation_channel();
    drop(rx);
    let handle = ClientDisconnect::new(Items::new(vec![1u32]), tx);
    handle.close();
}

#[test]
fn into_parts_keeps_the_signal_unfired() {
    let (tx, mut rx) = cancellation_channel();
    let handle = ClientDisconnect::new(Items::new(vec![4u32]), tx);
    let (mut inner, tx) = handle.into_parts();
    assert_eq!(inner.poll_next(), Next::Item(4));
    assert_eq!(observe_try_recv(rx.try_recv()), Observation::Empty);
    drop(tx);
    assert_eq!(observe_try_recv(rx.try_recv()), Observation::Dropped);
}

#[test]
fn inner_mut_polls_the_same_producer() {
    let (tx, _rx) = cancellation_channel();
    let mut handle = ClientDisconnect::new(Items::new(vec![1u32, 2]), tx);
    assert_eq!(handle.inner_mut().poll_next(), Next::Item(1));
    assert_eq!(handle.poll_next(), Next::Item(2));
}

#[test]
fn awaiting_cleanup_task_runs_teardown_after_drop() {
    let rt = tokio::runtime::Builder::new_current_thread().build().unwrap();
    rt.block_on(async {
        let session = start_stream(Some("abc"), "stream");
        let rx = session.receiver;
        let mut task = session.cleanup;
        let waiter = tokio::spawn(async move {
            let o = observe_recv(rx.await);
            (o, task.on_observation(o), task.on_observation(o))
        });
        tokio::task::yield_now().await;
        assert!(!waiter.is_finished());
        drop(session.handle);
        let (o, first, second) = waiter.await.unwrap();
        assert_eq!(o, Observation::Dropped);
        assert_eq!(first, CleanupAction::Teardown);
        assert_eq!(second, CleanupAction::Finished);
    });
}

#[test]
fn awaited_explicit_send_is_sent() {
    let rt = tokio::runtime::Builder::new_current_thread().build().unwrap();
    rt.block_on(async {
        let (tx, rx) = cancellation_channel();
        ClientDisconnect::new(Items::new(vec![1u8]), tx).close();
        assert_eq!(observe_recv(rx.await), Observation::Sent);
    });
}

#[test]
fn cleanup_task_sequence_of_observations() {
    let mut task = CleanupTask::new();
    assert_eq!(task.on_observation(Observation::Empty), CleanupAction::Wait);
    assert_eq!(task.on_observation(Observation::Empty), CleanupAction::Wait);
    assert_eq!(task.on_observation(Observation::Sent), CleanupAction::Teardown);
    assert_eq!(task.on_observation(Observation::Dropped), CleanupAction::Finished);
    assert_eq!(task.on_observation(Observation::Empty), CleanupAction::Finished);
}

#[test]
fn cleanup_task_poll_reads_the_receiver() {
    let (tx, mut rx) = cancellation_channel();
    let mut task = CleanupTask::new();
    assert_eq!(task.poll(&mut rx), CleanupAction::Wait);
    drop(tx);
    assert_eq!(task.poll(&mut rx), CleanupAction::Teardown);
    assert_eq!(task.poll(&mut rx), CleanupAction::Finished);
}

#[test]
fn counting_windows_end_at_the_top_of_u32() {
    let mut c = CountingWindows::starting_at(u32::MAX - 5);
    match c.poll_next() {
        Next::Item(w) => assert_eq!(w.values(), vec![u32::MAX - 5, u32::MAX - 4, u32::MAX - 3]),
        other => panic!("expected an item, got {:?}", other),
    }
    match c.poll_next() {
        Next::Item(w) => assert_eq!(w.values(), vec![u32::MAX - 2, u32::MAX - 1, u32::MAX]),
        other => panic!("expected an item, got {:?}", other),
    }
    assert_eq!(c.poll_next(), Next::End);
    assert_eq!(c.poll_next(), Next::End);
    let mut d = CountingWindows::starting_at(u32::MAX - 1);
    assert_eq!(d.poll_next(), Next::End);
}
