//! The decoder worker of one session: it moves decoded samples into the
//! ring buffers of the session's senders, waits when a ring is full, and
//! keeps the senders alive until it is told to die.
//!
//! The worker is a state machine. The thread that embodies it performs the
//! action it is given (ask the decoder, push one sample, wait on the wake
//! channel) and reports what came of it as the next event.

use vstd::prelude::*;
use crate::message::BufferingMessage;

verus! {

/// One decoded sample: the channel it belongs to and its value, the bit
/// pattern of a number in single precision.
pub type Sample = (usize, u32);

/// Where the worker stands.
#[derive(Clone, Copy, Debug, PartialEq, Eq, Structural)]
pub enum Phase {
    /// It has asked the decoder for the next frame.
    Decoding,
    /// It has tried to push this sample.
    Pushing { channel: usize, sample: u32 },
    /// The ring was full for this sample; it waits to be woken.
    Blocked { channel: usize, sample: u32 },
    /// The file is buffered to its end; it waits to be told to die.
    Draining,
    /// It has ended and has let go of its senders.
    Stopped,
}

/// What the worker is to do next.
#[derive(Clone, Debug, PartialEq, Eq)]
pub enum WorkerAction {
    /// Ask the decoder for the next frame.
    NextFrame,
    /// Try to push `sample` into the ring of the sender of `channel`.
    Push { channel: usize, sample: u32 },
    /// Wait for a message on the wake channel.
    Wait,
    /// Put `BufferComplete` for this file and epoch on the control queue,
    /// then wait for a message on the wake channel.
    Complete { name: String, epoch: u32 },
    /// Drop the senders and end.
    Exit,
}

/// An action as a mathematical value.
pub enum ActionView {
    NextFrame,
    Push { channel: usize, sample: u32 },
    Wait,
    Complete { name: Seq<char>, epoch: u32 },
    Exit,
}

impl View for WorkerAction {
    type V = ActionView;

    open spec fn view(&self) -> ActionView {
        match *self {
            WorkerAction::NextFrame => ActionView::NextFrame,
            WorkerAction::Push { channel, sample } => ActionView::Push { channel, sample },
            WorkerAction::Wait => ActionView::Wait,
            WorkerAction::Complete { name, epoch } => ActionView::Complete { name: name@, epoch },
            WorkerAction::Exit => ActionView::Exit,
        }
    }
}

/// What came of the worker's last action.
#[derive(Clone, Debug, PartialEq, Eq)]
pub enum WorkerEvent {
    /// The decoder gave a frame: its samples in order.
    Frame(Vec<Sample>),
    /// The decoder failed on a frame.
    FrameError,
    /// The decoder has no more frames.
    End,
    /// The sample was pushed.
    Pushed,
    /// The ring was full; the sample was not pushed.
    Full,
    /// A message came on the wake channel.
    Wake(BufferingMessage),
    /// The wake channel is closed.
    Closed,
}

/// An event as a mathematical value.
pub enum WorkerEventView {
    Frame(Seq<Sample>),
    FrameError,
    End,
    Pushed,
    Full,
    Wake(BufferingMessage),
    Closed,
}

impl View for WorkerEvent {
    type V = WorkerEventView;

    open spec fn view(&self) -> WorkerEventView {
        match *self {
            WorkerEvent::Frame(f) => WorkerEventView::Frame(f@),
            WorkerEvent::FrameError => WorkerEventView::FrameError,
            WorkerEvent::End => WorkerEventView::End,
            WorkerEvent::Pushed => WorkerEventView::Pushed,
            WorkerEvent::Full => WorkerEventView::Full,
            WorkerEvent::Wake(m) => WorkerEventView::Wake(m),
            WorkerEvent::Closed => WorkerEventView::Closed,
        }
    }
}

/// The worker of one session.
pub struct Worker {
    /// The file it buffers.
    pub name: String,
    /// The epoch of its session.
    pub epoch: u32,
    /// The number of senders it feeds; samples of higher channels are discarded.
    pub channels: usize,
    pub phase: Phase,
    /// The frame in hand.
    pub frame: Vec<Sample>,
    /// The position in the frame of the first sample not yet looked at.
    pub next: usize,
}

/// The worker as a mathematical value.
pub struct WorkerView {
    pub name: Seq<char>,
    pub epoch: u32,
    pub channels: usize,
    pub phase: Phase,
    pub frame: Seq<Sample>,
    pub next: usize,
}

impl View for Worker {
    type V = WorkerView;

    open spec fn view(&self) -> WorkerView {
        WorkerView {
            name: self.name@,
            epoch: self.epoch,
            channels: self.channels,
            phase: self.phase,
            frame: self.frame@,
            next: self.next,
        }
    }
}

/// The first position from `from` on whose sample belongs to one of the
/// first `channels` channels, or `frame.len()` if there is none.
pub open spec fn playable_from(frame: Seq<Sample>, from: int, channels: usize) -> int
    decreases frame.len() - from,
{
    if from < 0 || from >= frame.len() {
        frame.len() as int
    } else if frame[from].0 < channels {
        from
    } else {
        playable_from(frame, from + 1, channels)
    }
}

/// The worker goes on with the frame `frame` from position `from`: it
/// pushes the next sample that has a sender, or asks for the next frame.
pub open spec fn advanced(w: WorkerView, frame: Seq<Sample>, from: int) -> (WorkerView, ActionView) {
    let at = playable_from(frame, from, w.channels);
    if at < frame.len() && at < usize::MAX {
        (
            WorkerView {
                phase: Phase::Pushing { channel: frame[at].0, sample: frame[at].1 },
                frame,
                next: (at + 1) as usize,
                ..w
            },
            ActionView::Push { channel: frame[at].0, sample: frame[at].1 },
        )
    } else {
        (WorkerView { phase: Phase::Decoding, frame, next: frame.len() as usize, ..w }, ActionView::NextFrame)
    }
}

/// The action that a worker in this state is waiting on. It is given again
/// when an event arrives that the state does not expect.
pub open spec fn pending(w: WorkerView) -> ActionView {
    match w.phase {
        Phase::Decoding => ActionView::NextFrame,
        Phase::Pushing { channel, sample } => ActionView::Push { channel, sample },
        Phase::Blocked { .. } => ActionView::Wait,
        Phase::Draining => ActionView::Wait,
        Phase::Stopped => ActionView::Exit,
    }
}

/// The state after an event, and the action that follows it.
///
/// A stopped worker stays stopped. `Die` and a closed wake channel stop the
/// worker in whatever phase they reach it.
pub open spec fn stepped(w: WorkerView, e: WorkerEventView) -> (WorkerView, ActionView) {
    if w.phase == Phase::Stopped {
        (w, ActionView::Exit)
    } else {
        match (w.phase, e) {
            (_, WorkerEventView::Wake(BufferingMessage::Die)) | (_, WorkerEventView::Closed) => (
                WorkerView { phase: Phase::Stopped, ..w },
                ActionView::Exit,
            ),
            (Phase::Decoding, WorkerEventView::Frame(f)) => advanced(w, f, 0),
            (Phase::Decoding, WorkerEventView::FrameError) => (w, ActionView::NextFrame),
            (Phase::Decoding, WorkerEventView::End) => (
                WorkerView { phase: Phase::Draining, ..w },
                ActionView::Complete { name: w.name, epoch: w.epoch },
            ),
            (Phase::Pushing { .. }, WorkerEventView::Pushed) => advanced(w, w.frame, w.next as int),
            (Phase::Pushing { channel, sample }, WorkerEventView::Full) => (
                WorkerView { phase: Phase::Blocked { channel, sample }, ..w },
                ActionView::Wait,
            ),
            (Phase::Blocked { channel, sample }, WorkerEventView::Wake(BufferingMessage::Continue)) => (
                WorkerView { phase: Phase::Pushing { channel, sample }, ..w },
                ActionView::Push { channel, sample },
            ),
            _ => (w, pending(w)),
        }
    }
}

/// The worker after a run of events.
pub open spec fn worker_after(w: WorkerView, events: Seq<WorkerEventView>) -> WorkerView
    decreases events.len(),
{
    if events.len() == 0 {
        w
    } else {
        stepped(worker_after(w, events.drop_last()), events.last()).0
    }
}

/// The action that the worker takes on the event at position `i` of a run.
pub open spec fn action_at(w: WorkerView, events: Seq<WorkerEventView>, i: int) -> ActionView {
    stepped(worker_after(w, events.take(i)), events[i]).1
}

/// Whether the event tells the worker to end: `Die`, or the wake channel closed.
pub open spec fn is_last_call(e: WorkerEventView) -> bool {
    e == WorkerEventView::Wake(BufferingMessage::Die) || e == WorkerEventView::Closed
}

/// Once a run of events has told the worker to end, the worker is stopped.
pub proof fn lemma_stopped_after_die(w: WorkerView, events: Seq<WorkerEventView>, i: int)
    requires
        0 <= i < events.len(),
        is_last_call(events[i]),
    ensures
        worker_after(w, events).phase == Phase::Stopped,
    decreases events.len(),
{
    if i < events.len() - 1 {
        lemma_stopped_after_die(w, events.drop_last(), i);
    }
}

/// A worker that has been told to die pushes no more: on the event that
/// tells it, and on every event after it, its action is to exit.
pub proof fn law_no_push_after_die(w: WorkerView, events: Seq<WorkerEventView>, i: int, j: int)
    requires
        0 <= i <= j < events.len(),
        is_last_call(events[i]),
    ensures
        action_at(w, events, j) == ActionView::Exit,
        !(action_at(w, events, j) is Push),
{
    if i < j {
        lemma_stopped_after_die(w, events.take(j), i);
    }
}

impl Worker {
    /// The worker of the session `epoch` of file `name` with `channels`
    /// senders. Its first action is to ask the decoder for a frame.
    pub fn new(name: String, epoch: u32, channels: usize) -> (r: (Worker, WorkerAction))
        ensures
            r.0@ == (WorkerView {
                name: name@,
                epoch,
                channels,
                phase: Phase::Decoding,
                frame: Seq::<Sample>::empty(),
                next: 0,
            }),
            r.1@ == ActionView::NextFrame,
    {
        (
            Worker { name, epoch, channels, phase: Phase::Decoding, frame: Vec::new(), next: 0 },
            WorkerAction::NextFrame,
        )
    }

    fn advance(&mut self, from: usize) -> (r: WorkerAction)
        ensures
            (final(self)@, r@) == advanced(old(self)@, old(self).frame@, from as int),
    {
        let n: usize = self.frame.len();
        let mut at: usize = from;
        while at < n && self.frame[at].0 >= self.channels
            invariant
                n == self.frame@.len(),
                *self == *old(self),
                from <= at,
                at <= n || at == from,
                playable_from(self.frame@, from as int, self.channels) == playable_from(
                    self.frame@,
                    at as int,
                    self.channels,
                ),
            decreases n - at,
        {
            at += 1;
        }
        if at < n && at < usize::MAX {
            let (channel, sample) = self.frame[at];
            self.phase = Phase::Pushing { channel, sample };
            self.next = at + 1;
            WorkerAction::Push { channel, sample }
        } else {
            self.phase = Phase::Decoding;
            self.next = n;
            WorkerAction::NextFrame
        }
    }

    /// Takes what came of the last action and says what to do next.
    pub fn step(&mut self, event: WorkerEvent) -> (r: WorkerAction)
        ensures
            (final(self)@, r@) == stepped(old(self)@, event@),
    {
        if self.phase == Phase::Stopped {
            return WorkerAction::Exit;
        }
        match event {
            WorkerEvent::Wake(BufferingMessage::Die) | WorkerEvent::Closed => {
                self.phase = Phase::Stopped;
                WorkerAction::Exit
            },
            WorkerEvent::Frame(f) => match self.phase {
                Phase::Decoding => {
                    self.frame = f;
                    self.advance(0)
                },
                _ => self.again(),
            },
            WorkerEvent::FrameError => self.again(),
            WorkerEvent::End => match self.phase {
                Phase::Decoding => {
                    self.phase = Phase::Draining;
                    WorkerAction::Complete { name: self.name.clone(), epoch: self.epoch }
                },
                _ => self.again(),
            },
            WorkerEvent::Pushed => match self.phase {
                Phase::Pushing { .. } => {
                    let from = self.next;
                    self.advance(from)
                },
                _ => self.again(),
            },
            WorkerEvent::Full => match self.phase {
                Phase::Pushing { channel, sample } => {
                    self.phase = Phase::Blocked { channel, sample };
                    WorkerAction::Wait
                },
                _ => self.again(),
            },
            WorkerEvent::Wake(BufferingMessage::Continue) => match self.phase {
                Phase::Blocked { channel, sample } => {
                    self.phase = Phase::Pushing { channel, sample };
                    WorkerAction::Push { channel, sample }
                },
                _ => self.again(),
            },
        }
    }

    /// The action that the worker is waiting on.
    pub fn again(&self) -> (r: WorkerAction)
        ensures
            r@ == pending(self@),
    {
        match self.phase {
            Phase::Decoding => WorkerAction::NextFrame,
            Phase::Pushing { channel, sample } => WorkerAction::Push { channel, sample },
            Phase::Blocked { .. } => WorkerAction::Wait,
            Phase::Draining => WorkerAction::Wait,
            Phase::Stopped => WorkerAction::Exit,
        }
    }
}

} // verus!
