use mfl_gramophone::message::BufferingMessage;
use mfl_gramophone::worker::{Phase, Worker, WorkerAction, WorkerEvent};

fn worker() -> Worker {
    let (w, first) = Worker::new("bell".to_string(), 7, 2);
    assert_eq!(first, WorkerAction::NextFrame);
    w
}

#[test]
fn a_new_worker_asks_for_a_frame() {
    let (w, first) = Worker::new("bell".to_string(), 7, 2);
    assert_eq!(first, WorkerAction::NextFrame);
    assert_eq!(w.phase, Phase::Decoding);
    assert_eq!(w.name, "bell");
    assert_eq!(w.epoch, 7);
    assert_eq!(w.channels, 2);
    assert_eq!(w.again(), WorkerAction::NextFrame);
}

#[test]
fn a_frame_is_pushed_sample_by_sample() {
    let mut w = worker();
    let frame = vec![(0, 100), (1, 101), (0, 102), (1, 103)];
    assert_eq!(w.step(WorkerEvent::Frame(frame)), WorkerAction::Push { channel: 0, sample: 100 });
    assert_eq!(w.step(WorkerEvent::Pushed), WorkerAction::Push { channel: 1, sample: 101 });
    assert_eq!(w.step(WorkerEvent::Pushed), WorkerAction::Push { channel: 0, sample: 102 });
    assert_eq!(w.step(WorkerEvent::Pushed), WorkerAction::Push { channel: 1, sample: 103 });
    assert_eq!(w.step(WorkerEvent::Pushed), WorkerAction::NextFrame);
    assert_eq!(w.phase, Phase::Decoding);
}

#[test]
fn samples_without_a_sender_are_discarded() {
    let mut w = worker();
    let frame = vec![(2, 1), (5, 2), (1, 3), (2, 4), (0, 5), (3, 6)];
    assert_eq!(w.step(WorkerEvent::Frame(frame)), WorkerAction::Push { channel: 1, sample: 3 });
    assert_eq!(w.step(WorkerEvent::Pushed), WorkerAction::Push { channel: 0, sample: 5 });
    assert_eq!(w.step(WorkerEvent::Pushed), WorkerAction::NextFrame);
    assert_eq!(w.step(WorkerEvent::Frame(vec![(2, 9), (7, 9)])), WorkerAction::NextFrame);
    assert_eq!(w.step(WorkerEvent::Frame(vec![])), WorkerAction::NextFrame);
    assert_eq!(w.phase, Phase::Decoding);
}

#[test]
fn a_frame_error_is_skipped() {
    let mut w = worker();
    assert_eq!(w.step(WorkerEvent::FrameError), WorkerAction::NextFrame);
    assert_eq!(w.phase, Phase::Decoding);
    assert_eq!(w.step(WorkerEvent::Frame(vec![(0, 1)])), WorkerAction::Push { channel: 0, sample: 1 });
}

#[test]
fn a_full_ring_blocks_until_continue_and_retries_the_same_sample() {
    let mut w = worker();
    assert_eq!(
        w.step(WorkerEvent::Frame(vec![(1, 41), (0, 42)])),
        WorkerAction::Push { channel: 1, sample: 41 }
    );
    assert_eq!(w.step(WorkerEvent::Full), WorkerAction::Wait);
    assert_eq!(w.phase, Phase::Blocked { channel: 1, sample: 41 });
    assert_eq!(
        w.step(WorkerEvent::Wake(BufferingMessage::Continue)),
        WorkerAction::Push { channel: 1, sample: 41 }
    );
    assert_eq!(w.step(WorkerEvent::Full), WorkerAction::Wait);
    assert_eq!(
        w.step(WorkerEvent::Wake(BufferingMessage::Continue)),
        WorkerAction::Push { channel: 1, sample: 41 }
    );
    assert_eq!(w.step(WorkerEvent::Pushed), WorkerAction::Push { channel: 0, sample: 42 });
}

#[test]
fn die_while_blocked_ends_the_worker() {
    let mut w = worker();
    w.step(WorkerEvent::Frame(vec![(0, 1), (1, 2)]));
    w.step(WorkerEvent::Full);
    assert_eq!(w.step(WorkerEvent::Wake(BufferingMessage::Die)), WorkerAction::Exit);
    assert_eq!(w.phase, Phase::Stopped);
}

#[test]
fn a_closed_wake_channel_ends_the_worker() {
    let mut w = worker();
    w.step(WorkerEvent::Frame(vec![(0, 1)]));
    w.step(WorkerEvent::Full);
    assert_eq!(w.step(WorkerEvent::Closed), WorkerAction::Exit);
    assert_eq!(w.phase, Phase::Stopped);

    let mut w = worker();
    w.step(WorkerEvent::End);
    assert_eq!(w.step(WorkerEvent::Closed), WorkerAction::Exit);
    assert_eq!(w.phase, Phase::Stopped);
}

#[test]
fn the_end_of_the_file_is_announced_and_the_worker_waits_for_die() {
    let mut w = worker();
    w.step(WorkerEvent::Frame(vec![(0, 1)]));
    w.step(WorkerEvent::Pushed);
    assert_eq!(
        w.step(WorkerEvent::End),
        WorkerAction::Complete { name: "bell".to_string(), epoch: 7 }
    );
    assert_eq!(w.phase, Phase::Draining);
    assert_eq!(w.step(WorkerEvent::Wake(BufferingMessage::Continue)), WorkerAction::Wait);
    assert_eq!(w.step(WorkerEvent::Wake(BufferingMessage::Continue)), WorkerAction::Wait);
    assert_eq!(w.phase, Phase::Draining);
    assert_eq!(w.step(WorkerEvent::Wake(BufferingMessage::Die)), WorkerAction::Exit);
    assert_eq!(w.phase, Phase::Stopped);
}

#[test]
fn a_worker_told_to_die_pushes_no_more() {
    let mut w = worker();
    w.step(WorkerEvent::Frame(vec![(0, 1), (1, 2), (0, 3)]));
    assert_eq!(w.step(WorkerEvent::Wake(BufferingMessage::Die)), WorkerAction::Exit);
    let later = vec![
        WorkerEvent::Pushed,
        WorkerEvent::Full,
        WorkerEvent::Wake(BufferingMessage::Continue),
        WorkerEvent::Frame(vec![(0, 9)]),
        WorkerEvent::FrameError,
        WorkerEvent::End,
        WorkerEvent::Closed,
        WorkerEvent::Wake(BufferingMessage::Die),
    ];
    for e in later {
        assert_eq!(w.step(e), WorkerAction::Exit);
        assert_eq!(w.phase, Phase::Stopped);
    }
}

#[test]
fn an_unexpected_event_repeats_the_pending_action() {
    let mut w = worker();
    assert_eq!(w.step(WorkerEvent::Pushed), WorkerAction::NextFrame);
    assert_eq!(w.step(WorkerEvent::Full), WorkerAction::NextFrame);
    assert_eq!(w.step(WorkerEvent::Wake(BufferingMessage::Continue)), WorkerAction::NextFrame);
    w.step(WorkerEvent::Frame(vec![(0, 1), (1, 2)]));
    assert_eq!(w.step(WorkerEvent::Frame(vec![(1, 8)])), WorkerAction::Push { channel: 0, sample: 1 });
    assert_eq!(w.step(WorkerEvent::End), WorkerAction::Push { channel: 0, sample: 1 });
    assert_eq!(w.step(WorkerEvent::FrameError), WorkerAction::Push { channel: 0, sample: 1 });
    assert_eq!(
        w.step(WorkerEvent::Wake(BufferingMessage::Continue)),
        WorkerAction::Push { channel: 0, sample: 1 }
    );
    assert_eq!(w.step(WorkerEvent::Pushed), WorkerAction::Push { channel: 1, sample: 2 });
    w.step(WorkerEvent::Full);
    assert_eq!(w.step(WorkerEvent::Pushed), WorkerAction::Wait);
    assert_eq!(w.phase, Phase::Blocked { channel: 1, sample: 2 });
}

#[test]
fn a_worker_without_senders_discards_everything() {
    let (mut w, _) = Worker::new("bell".to_string(), 1, 0);
    assert_eq!(w.step(WorkerEvent::Frame(vec![(0, 1), (1, 2)])), WorkerAction::NextFrame);
    assert_eq!(
        w.step(WorkerEvent::End),
        WorkerAction::Complete { name: "bell".to_string(), epoch: 1 }
    );
}
