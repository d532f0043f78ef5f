//! What holds of the orchestrator in every state and over every run of events.

use vstd::prelude::*;
use crate::ctxt::{
    completed, notified, opened, prepared, processed, turned, valid, CommandView, EventView,
    Notice, State,
};
use crate::message::{AudioThreadMessage, Level, MessageView, SenderId};
use crate::session::{holds, owner, position, session, without, Session,
    lemma_holds, lemma_owner_holds, lemma_position, lemma_with, lemma_without};

verus! {

/// Taking a session out of a valid state leaves a valid state.
pub proof fn lemma_without_valid(s: State, name: Seq<char>)
    requires
        valid(s),
    ensures
        valid(State { table: without(s.table, name), ..s }),
{
    let t = s.table;
    let w = without(t, name);
    lemma_position(t, name);
    if holds(t, name) {
        let p = position(t, name);
        assert forall|i: int| 0 <= i < w.len() implies #[trigger] w[i] == t[if i < p {
            i
        } else {
            i + 1
        }] by {}
    }
}

/// A turn of the orchestrator takes a valid state to a valid state. In
/// particular every session keeps one sender per configured channel.
pub proof fn law_valid_stays(s: State, e: EventView)
    requires
        valid(s),
    ensures
        valid(turned(s, e).state),
{
    match e {
        EventView::Control(m) => {
            match m {
                MessageView::StopFile(name) => {
                    lemma_without_valid(s, name);
                },
                MessageView::BufferComplete(name, epoch) => {
                    lemma_position(s.table, name);
                },
                MessageView::Engine(AudioThreadMessage::PlayerBufEmpty(id)) => {
                    if let Some(name) = owner(s.table, id) {
                        lemma_without_valid(s, name);
                    }
                },
                _ => {},
            }
        },
        EventView::Opened(name, senders) => {
            lemma_prepared_valid(s, name, senders);
        },
        EventView::QueueClosed => {},
    }
}

/// Preparing a session in a valid state leaves a valid state.
pub proof fn lemma_prepared_valid(s: State, name: Seq<char>, senders: Option<Seq<SenderId>>)
    requires
        valid(s),
    ensures
        valid(prepared(s, name, senders).state),
        valid(opened(s, name, senders).state),
{
    let p = prepared(s, name, senders);
    if p.error is None {
        lemma_without_valid(s, name);
        let w = without(s.table, name);
        lemma_position(s.table, name);
        lemma_holds(w, name);
        if holds(s.table, name) {
            let at = position(s.table, name);
            assert forall|i: int| 0 <= i < w.len() implies (#[trigger] w[i]).0 != name by {
                let k = if i < at {
                    i
                } else {
                    i + 1
                };
                assert(w[i] == s.table[k]);
            }
        }
    }
}

/// The state after a run of events.
pub open spec fn after_all(s: State, events: Seq<EventView>) -> State
    decreases events.len(),
{
    if events.len() == 0 {
        s
    } else {
        turned(after_all(s, events.drop_last()), events.last()).state
    }
}

/// Whether the event, arriving in state `s`, starts a session under
/// `name`: it is the answer to an open request for that name, and the
/// session could be prepared.
pub open spec fn starts(s: State, e: EventView, name: Seq<char>) -> bool {
    e matches EventView::Opened(n, senders) && n == name && opened(s, n, senders).error is None
}

/// Whether the event, arriving in state `s`, ends the session under
/// `name`: a stop for that name, a shutdown, or an empty buffer of one of
/// its senders once its file is buffered to the end.
pub open spec fn ends(s: State, e: EventView, name: Seq<char>) -> bool {
    match e {
        EventView::Control(MessageView::StopFile(n)) => n == name,
        EventView::Control(MessageView::Shutdown) => true,
        EventView::QueueClosed => true,
        EventView::Control(MessageView::Engine(AudioThreadMessage::PlayerBufEmpty(id))) => owner(
            s.table,
            id,
        ) == Some(name) && session(s.table, name).buffered,
        _ => false,
    }
}

/// Whether a session under `name` is active after a run of events, going
/// by the last event of the run that starts or ends one; where the run
/// holds no such event, by the state it began in.
pub open spec fn active_after(s: State, events: Seq<EventView>, name: Seq<char>) -> bool
    decreases events.len(),
{
    if events.len() == 0 {
        holds(s.table, name)
    } else {
        let before = after_all(s, events.drop_last());
        if starts(before, events.last(), name) {
            true
        } else if ends(before, events.last(), name) {
            false
        } else {
            active_after(s, events.drop_last(), name)
        }
    }
}

/// A run of events takes a valid state to a valid state, and leaves the
/// configuration alone.
pub proof fn law_valid_after_all(s: State, events: Seq<EventView>)
    requires
        valid(s),
    ensures
        valid(after_all(s, events)),
        after_all(s, events).channels == s.channels,
        after_all(s, events).files == s.files,
        after_all(s, events).epoch >= s.epoch,
    decreases events.len(),
{
    if events.len() > 0 {
        law_valid_after_all(s, events.drop_last());
        law_valid_stays(after_all(s, events.drop_last()), events.last());
        law_turn_keeps(after_all(s, events.drop_last()), events.last());
    }
}

/// A turn leaves the configuration alone and never takes the epoch counter back.
pub proof fn law_turn_keeps(s: State, e: EventView)
    ensures
        turned(s, e).state.channels == s.channels,
        turned(s, e).state.files == s.files,
        turned(s, e).state.epoch >= s.epoch,
        turned(s, e).error is Some ==> turned(s, e).state == s,
{
}

/// After a turn the table holds a session under a name if the event
/// started one, holds none if the event ended it, and is as before otherwise.
pub proof fn law_turn_membership(s: State, e: EventView, name: Seq<char>)
    requires
        valid(s),
    ensures
        holds(turned(s, e).state.table, name) == (if starts(s, e, name) {
            true
        } else if ends(s, e, name) {
            false
        } else {
            holds(s.table, name)
        }),
{
    let t = s.table;
    match e {
        EventView::Control(m) => {
            match m {
                MessageView::StopFile(n) => {
                    lemma_without(t, n, name);
                },
                MessageView::BufferComplete(n, epoch) => {
                    lemma_position(t, n);
                    lemma_holds(t, name);
                    lemma_holds(turned(s, e).state.table, name);
                    let u = turned(s, e).state.table;
                    if holds(t, n) && session(t, n).epoch == epoch {
                        let at = position(t, n);
                        assert forall|i: int| 0 <= i < t.len() implies (#[trigger] u[i]).0 == t[i].0 by {}
                        if holds(t, name) {
                            let i = choose|i: int| 0 <= i < t.len() && (#[trigger] t[i]).0 == name;
                            assert(u[i].0 == name);
                        }
                        if holds(u, name) {
                            let i = choose|i: int| 0 <= i < u.len() && (#[trigger] u[i]).0 == name;
                            assert(t[i].0 == name);
                        }
                    }
                },
                MessageView::Engine(AudioThreadMessage::PlayerBufEmpty(id)) => {
                    lemma_owner_holds(t, id);
                    if let Some(n) = owner(t, id) {
                        lemma_without(t, n, name);
                    }
                },
                _ => {},
            }
        },
        EventView::Opened(n, senders) => {
            let p = prepared(s, n, senders);
            if p.error is None {
                lemma_with(
                    t,
                    n,
                    Session { senders: senders->0, buffered: false, epoch: (s.epoch + 1) as u32 },
                    name,
                );
            }
        },
        EventView::QueueClosed => {},
    }
}

/// Over every run of events from a valid state, the table holds a session
/// under a name exactly if the last event that started or ended one under
/// that name started it. Fades, reports, pings and events for other names
/// change nothing in this.
pub proof fn law_active_iff_started_last(s: State, events: Seq<EventView>, name: Seq<char>)
    requires
        valid(s),
    ensures
        holds(after_all(s, events).table, name) == active_after(s, events, name),
    decreases events.len(),
{
    if events.len() > 0 {
        let before = after_all(s, events.drop_last());
        law_valid_after_all(s, events.drop_last());
        law_active_iff_started_last(s, events.drop_last(), name);
        law_turn_membership(before, events.last(), name);
    }
}

/// Every session that a run of events from a valid state leaves in the
/// table has exactly one sender for each configured channel.
pub proof fn law_one_sender_per_channel(s: State, events: Seq<EventView>, name: Seq<char>)
    requires
        valid(s),
        holds(after_all(s, events).table, name),
    ensures
        session(after_all(s, events).table, name).senders.len() == s.channels,
{
    law_valid_after_all(s, events);
    lemma_position(after_all(s, events).table, name);
}

/// A report of completed buffering that carries another epoch than a
/// session leaves that session as it is, whatever name the report names.
/// The table keeps its length and its order, and the epoch counter stays.
pub proof fn law_stale_completion_ignored(s: State, name: Seq<char>, epoch: u32, i: int)
    requires
        0 <= i < s.table.len(),
        s.table[i].1.epoch != epoch,
    ensures
        completed(s, name, epoch).state.table.len() == s.table.len(),
        completed(s, name, epoch).state.table[i] == s.table[i],
        completed(s, name, epoch).state.epoch == s.epoch,
        completed(s, name, epoch).commands.len() == 0,
{
    lemma_position(s.table, name);
}

/// A session created later carries a greater epoch: if a session is
/// started, any run of events follows, and then a session is started, the
/// epoch of the second is greater than that of the first.
pub proof fn law_epochs_increase(
    s: State,
    first: Seq<char>,
    first_senders: Option<Seq<SenderId>>,
    between: Seq<EventView>,
    second: Seq<char>,
    second_senders: Option<Seq<SenderId>>,
)
    requires
        valid(s),
        opened(s, first, first_senders).error is None,
        opened(
            after_all(opened(s, first, first_senders).state, between),
            second,
            second_senders,
        ).error is None,
    ensures
        ({
            let one = opened(s, first, first_senders).state;
            let two = opened(after_all(one, between), second, second_senders).state;
            &&& holds(one.table, first)
            &&& holds(two.table, second)
            &&& session(one.table, first).epoch == s.epoch + 1
            &&& session(two.table, second).epoch > session(one.table, first).epoch
        }),
{
    let one = opened(s, first, first_senders).state;
    let mid = after_all(one, between);
    lemma_prepared_valid(s, first, first_senders);
    law_valid_after_all(one, between);
    lemma_with(
        s.table,
        first,
        Session { senders: first_senders->0, buffered: false, epoch: (s.epoch + 1) as u32 },
        first,
    );
    lemma_with(
        mid.table,
        second,
        Session { senders: second_senders->0, buffered: false, epoch: (mid.epoch + 1) as u32 },
        second,
    );
}

/// Starting a name that is active replaces its session: afterwards exactly
/// one entry stands under the name, it carries the epoch of the new
/// creation, which is the counter's new value, and the commands of the turn
/// retire the session that was there, so that its worker is told to die.
pub proof fn law_restart_replaces(s: State, name: Seq<char>, senders: Option<Seq<SenderId>>)
    requires
        valid(s),
        holds(s.table, name),
        opened(s, name, senders).error is None,
    ensures
        ({
            let t = opened(s, name, senders);
            &&& holds(t.state.table, name)
            &&& forall|i: int, j: int|
                0 <= i < t.state.table.len() && 0 <= j < t.state.table.len() && t.state.table[i].0
                    == name && t.state.table[j].0 == name ==> i == j
            &&& session(t.state.table, name).epoch == s.epoch + 1
            &&& session(t.state.table, name).epoch == t.state.epoch
            &&& session(t.state.table, name).senders == senders->0
            &&& !session(t.state.table, name).buffered
            &&& t.commands.contains(
                CommandView::Retire {
                    epoch: session(s.table, name).epoch,
                    senders: session(s.table, name).senders,
                },
            )
        }),
{
    let t = opened(s, name, senders);
    let fresh = Session { senders: senders->0, buffered: false, epoch: (s.epoch + 1) as u32 };
    lemma_with(s.table, name, fresh, name);
    let retire = CommandView::Retire {
        epoch: session(s.table, name).epoch,
        senders: session(s.table, name).senders,
    };
    assert(t.commands[1] == retire);
}

/// A start of a configured file succeeds whenever the file opens, one
/// sender per channel was allocated, and an epoch is left. The request
/// changes nothing and asks for the file to be opened with one sender per
/// channel. The answer puts exactly one session under the name: over those
/// senders, not buffered whatever stood there before, with the counter's new
/// value as its epoch, which is above the epoch of every session that was in
/// the table. Sessions under other names stay as they are. The commands are
/// the spawning of the new worker, the retirement of the session that was
/// under the name if there was one, and one start for all senders.
pub proof fn law_start_takes_effect(
    s: State,
    name: Seq<char>,
    level: Level,
    senders: Seq<SenderId>,
    other: Seq<char>,
)
    requires
        valid(s),
        s.files.dom().contains(name),
        senders.len() == s.channels,
        s.epoch < u32::MAX,
    ensures
        ({
            let asked = processed(s, MessageView::PlayFile(name, level));
            let t = opened(s, name, Some(senders));
            let fresh = Session { senders, buffered: false, epoch: (s.epoch + 1) as u32 };
            let spawn = CommandView::Spawn { name, epoch: (s.epoch + 1) as u32 };
            let start = CommandView::Start { senders };
            let retire = CommandView::Retire {
                epoch: session(s.table, name).epoch,
                senders: session(s.table, name).senders,
            };
            &&& asked.error is None
            &&& asked.state == s
            &&& asked.commands == seq![
                CommandView::Open { name, uri: s.files[name], level, channels: s.channels as usize },
            ]
            &&& t.error is None
            &&& valid(t.state)
            &&& t.state.epoch == s.epoch + 1
            &&& holds(t.state.table, name)
            &&& session(t.state.table, name) == fresh
            &&& forall|i: int|
                0 <= i < s.table.len() ==> (#[trigger] s.table[i]).1.epoch < t.state.epoch
            &&& t.state.table.len() == if holds(s.table, name) {
                s.table.len()
            } else {
                s.table.len() + 1
            }
            &&& other != name ==> holds(t.state.table, other) == holds(s.table, other)
            &&& other != name && holds(s.table, other) ==> session(t.state.table, other) == session(
                s.table,
                other,
            )
            &&& t.commands == if holds(s.table, name) {
                seq![spawn, retire, start]
            } else {
                seq![spawn, start]
            }
        }),
{
    let t = opened(s, name, Some(senders));
    let fresh = Session { senders, buffered: false, epoch: (s.epoch + 1) as u32 };
    lemma_prepared_valid(s, name, Some(senders));
    lemma_with(s.table, name, fresh, name);
    lemma_with(s.table, name, fresh, other);
    lemma_position(s.table, name);
    let spawn = CommandView::Spawn { name, epoch: (s.epoch + 1) as u32 };
    let start = CommandView::Start { senders };
    let retire = CommandView::Retire {
        epoch: session(s.table, name).epoch,
        senders: session(s.table, name).senders,
    };
    if holds(s.table, name) {
        assert(t.commands =~= seq![spawn, retire, start]);
    } else {
        assert(t.commands =~= seq![spawn, start]);
    }
}

/// An empty buffer of a sender whose session is not yet buffered to the end
/// is an underrun: the state stays exactly as it is, no session is retired,
/// and the one command is the notice of the underrun.
pub proof fn law_underrun_keeps_session(s: State, id: SenderId, name: Seq<char>)
    requires
        owner(s.table, id) == Some(name),
        !session(s.table, name).buffered,
    ensures
        ({
            let t = notified(s, AudioThreadMessage::PlayerBufEmpty(id));
            &&& t.error is None
            &&& t.state == s
            &&& t.commands == seq![
                CommandView::Notice(Notice::Underrun(session(s.table, name).epoch)),
            ]
        }),
{
}

} // verus!
