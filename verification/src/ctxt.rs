//! The playback orchestrator: the session table, the epoch counter, and the
//! rule that takes the orchestrator from one event to the next.
//!
//! The orchestrator never touches the audio engine or the decoder. Each turn
//! changes the table and hands out commands; the embedding program performs
//! them and reports back what the outside world answered.

use vstd::prelude::*;
pub use crate::message::{BufferingMessage, Message};
pub use crate::session::ActiveFile;
use crate::config::Config;
use crate::message::{AudioThreadMessage, Level, MessageView, SenderId};
use crate::session::{
    distinct_names, entries, find, has_sender, holds, owner, owner_position, position, session, with, without,
    Entries, Session, lemma_owner_holds, lemma_owner_position_unique, lemma_position, lemma_with_holds,
};

verus! {

/// Why a control message could not be carried out.
#[derive(Clone, Copy, Debug, PartialEq, Eq, Structural)]
pub enum Error {
    /// The name is not among the configured files.
    NoSuchFile,
    /// No session is active under the name.
    NoSuchActiveFile,
    /// The decoder could not open the file.
    DecoderOpen,
    /// The senders handed over are not one per configured channel.
    SenderCount,
    /// The epoch counter has reached its last value.
    EpochExhausted,
}

/// Something worth a line in the log that changes nothing.
#[derive(Clone, Copy, Debug, PartialEq, Eq, Structural)]
pub enum Notice {
    Ping,
    Xrun,
    InvalidOutpatch(SenderId),
    PlayerRejected,
    /// The session of this epoch ran out of samples before its worker had finished.
    Underrun(u32),
    /// A sender that belongs to no session ran out of samples.
    Straggler(SenderId),
    /// A control message was dropped for this reason.
    Failed(Error),
}

/// What the embedding program is to do after a turn of the orchestrator.
#[derive(Clone, Debug, PartialEq, Eq)]
pub enum Command {
    /// Open `uri` through the decoder. If that succeeds, allocate `channels`
    /// senders at the decoded sample rate, the i-th patched to output channel
    /// i, each with its volume set to the constant amplitude of `level`.
    /// Report the outcome as `Event::Opened` for `name`.
    Open { name: String, uri: String, level: Level, channels: usize },
    /// Spawn the decoder worker of the session `epoch` of file `name`, with a
    /// fresh wake channel and the producer side of the senders just allocated.
    Spawn { name: String, epoch: u32 },
    /// Sample the clock once; give every sender that start time and activate it.
    Start { senders: Vec<SenderId> },
    /// Deactivate every sender.
    Halt { senders: Vec<SenderId> },
    /// Sample the clock once, read the volume of the first sender at that
    /// time, and install on every sender one linear fade from that amplitude
    /// to the amplitude of `target`, over `duration_ms`, starting at that time.
    Fade { senders: Vec<SenderId>, target: Level, duration_ms: u64 },
    /// Tell the worker of the session `epoch` to continue.
    Wake { epoch: u32 },
    /// The session `epoch` is gone: tell its worker to die and drop its senders.
    Retire { epoch: u32, senders: Vec<SenderId> },
    /// Log the state of a session: the number of its senders, whether it is
    /// buffered, and what the engine says of its first sender.
    Report { count: usize, buffered: bool, first: Option<SenderId> },
    /// Log the notice.
    Notice(Notice),
    /// Leave the process.
    Exit,
}

/// A command with its strings and lists as mathematical values.
pub enum CommandView {
    Open { name: Seq<char>, uri: Seq<char>, level: Level, channels: usize },
    Spawn { name: Seq<char>, epoch: u32 },
    Start { senders: Seq<SenderId> },
    Halt { senders: Seq<SenderId> },
    Fade { senders: Seq<SenderId>, target: Level, duration_ms: u64 },
    Wake { epoch: u32 },
    Retire { epoch: u32, senders: Seq<SenderId> },
    Report { count: usize, buffered: bool, first: Option<SenderId> },
    Notice(Notice),
    Exit,
}

impl View for Command {
    type V = CommandView;

    open spec fn view(&self) -> CommandView {
        match *self {
            Command::Open { name, uri, level, channels } => CommandView::Open {
                name: name@,
                uri: uri@,
                level,
                channels,
            },
            Command::Spawn { name, epoch } => CommandView::Spawn { name: name@, epoch },
            Command::Start { senders } => CommandView::Start { senders: senders@ },
            Command::Halt { senders } => CommandView::Halt { senders: senders@ },
            Command::Fade { senders, target, duration_ms } => CommandView::Fade {
                senders: senders@,
                target,
                duration_ms,
            },
            Command::Wake { epoch } => CommandView::Wake { epoch },
            Command::Retire { epoch, senders } => CommandView::Retire { epoch, senders: senders@ },
            Command::Report { count, buffered, first } => CommandView::Report {
                count,
                buffered,
                first,
            },
            Command::Notice(n) => CommandView::Notice(n),
            Command::Exit => CommandView::Exit,
        }
    }
}

/// The mathematical values of a list of commands.
pub open spec fn views(cmds: Seq<Command>) -> Seq<CommandView> {
    Seq::new(cmds.len(), |i: int| cmds[i]@)
}

/// The orchestrator as a mathematical value.
pub struct State {
    /// The active sessions by name.
    pub table: Entries,
    /// The epoch given out last.
    pub epoch: u32,
    /// The number of configured output channels.
    pub channels: nat,
    /// The configured files: name to URI.
    pub files: Map<Seq<char>, Seq<char>>,
}

/// A valid orchestrator state: there is an output channel, every session
/// has one sender per channel, no two sessions stand under one name, and the
/// sessions stand in the order of their epochs, none of which is beyond the
/// epoch given out last.
pub open spec fn valid(s: State) -> bool {
    &&& s.channels > 0
    &&& distinct_names(s.table)
    &&& forall|i: int| 0 <= i < s.table.len() ==> (#[trigger] s.table[i]).1.senders.len() == s.channels
    &&& forall|i: int| 0 <= i < s.table.len() ==> (#[trigger] s.table[i]).1.epoch <= s.epoch
    &&& forall|i: int, j: int|
        0 <= i < j < s.table.len() ==> (#[trigger] s.table[i]).1.epoch < (#[trigger] s.table[j]).1.epoch
}

/// What one turn of the orchestrator comes to: the state after it, the
/// commands it hands out, and the reason if it failed. A failed turn leaves
/// the state as it was and hands out nothing.
pub struct Turn {
    pub state: State,
    pub commands: Seq<CommandView>,
    pub error: Option<Error>,
}

/// The turn that fails with `e`.
pub open spec fn fails(s: State, e: Error) -> Turn {
    Turn { state: s, commands: Seq::empty(), error: Some(e) }
}

/// The turn that leaves the state alone and hands out `commands`.
pub open spec fn stays(s: State, commands: Seq<CommandView>) -> Turn {
    Turn { state: s, commands, error: None }
}

/// A start request: the file is looked up and the embedding program is
/// asked to open it.
pub open spec fn requested(s: State, name: Seq<char>, level: Level) -> Turn {
    if !s.files.dom().contains(name) {
        fails(s, Error::NoSuchFile)
    } else {
        stays(
            s,
            seq![
                CommandView::Open {
                    name,
                    uri: s.files[name],
                    level,
                    channels: s.channels as usize,
                },
            ],
        )
    }
}

/// A new session for `name` over the senders that the embedding program
/// allocated, or `None` where the decoder could not open the file. The
/// session gets the next epoch and takes the place of any session that was
/// under the name, which is retired after the new worker is spawned.
pub open spec fn prepared(s: State, name: Seq<char>, senders: Option<Seq<SenderId>>) -> Turn {
    if !s.files.dom().contains(name) {
        fails(s, Error::NoSuchFile)
    } else if senders is None {
        fails(s, Error::DecoderOpen)
    } else if senders->0.len() != s.channels {
        fails(s, Error::SenderCount)
    } else if s.epoch == u32::MAX {
        fails(s, Error::EpochExhausted)
    } else {
        let epoch = (s.epoch + 1) as u32;
        let fresh = Session { senders: senders->0, buffered: false, epoch };
        let spawn = seq![CommandView::Spawn { name, epoch }];
        Turn {
            state: State { table: with(s.table, name, fresh), epoch, ..s },
            commands: if holds(s.table, name) {
                spawn.push(
                    CommandView::Retire {
                        epoch: session(s.table, name).epoch,
                        senders: session(s.table, name).senders,
                    },
                )
            } else {
                spawn
            },
            error: None,
        }
    }
}

/// Starting the session under `name`, or stopping and removing it.
pub open spec fn switched(s: State, name: Seq<char>, start: bool) -> Turn {
    if !holds(s.table, name) {
        fails(s, Error::NoSuchActiveFile)
    } else if start {
        stays(s, seq![CommandView::Start { senders: session(s.table, name).senders }])
    } else {
        Turn {
            state: State { table: without(s.table, name), ..s },
            commands: seq![
                CommandView::Halt { senders: session(s.table, name).senders },
                CommandView::Retire {
                    epoch: session(s.table, name).epoch,
                    senders: session(s.table, name).senders,
                },
            ],
            error: None,
        }
    }
}

/// The outcome of opening a file arrives: the session is prepared and started.
pub open spec fn opened(s: State, name: Seq<char>, senders: Option<Seq<SenderId>>) -> Turn {
    let p = prepared(s, name, senders);
    if p.error is Some {
        p
    } else {
        Turn {
            state: p.state,
            commands: p.commands + switched(p.state, name, true).commands,
            error: None,
        }
    }
}

/// A fade of the session under `name`.
pub open spec fn faded(s: State, name: Seq<char>, target: Level, duration_ms: u64) -> Turn {
    if !holds(s.table, name) {
        fails(s, Error::NoSuchActiveFile)
    } else {
        stays(
            s,
            seq![
                CommandView::Fade { senders: session(s.table, name).senders, target, duration_ms },
            ],
        )
    }
}

/// A report on the session under `name`.
pub open spec fn debugged(s: State, name: Seq<char>) -> Turn {
    if !holds(s.table, name) {
        fails(s, Error::NoSuchActiveFile)
    } else {
        let it = session(s.table, name);
        stays(
            s,
            seq![
                CommandView::Report {
                    count: it.senders.len() as usize,
                    buffered: it.buffered,
                    first: if it.senders.len() > 0 {
                        Some(it.senders[0])
                    } else {
                        None
                    },
                },
            ],
        )
    }
}

/// A worker reports that it has buffered its file to the end. The report
/// counts only for the session that is under the name now and carries the
/// same epoch.
pub open spec fn completed(s: State, name: Seq<char>, epoch: u32) -> Turn {
    if holds(s.table, name) && session(s.table, name).epoch == epoch {
        let at = position(s.table, name);
        let done = Session { buffered: true, ..session(s.table, name) };
        Turn {
            state: State { table: s.table.update(at, (name, done)), ..s },
            commands: Seq::empty(),
            error: None,
        }
    } else {
        stays(s, Seq::empty())
    }
}

/// A notification from the audio thread.
pub open spec fn notified(s: State, m: AudioThreadMessage) -> Turn {
    match m {
        AudioThreadMessage::Xrun => stays(s, seq![CommandView::Notice(Notice::Xrun)]),
        AudioThreadMessage::PlayerInvalidOutpatch(id) => stays(
            s,
            seq![CommandView::Notice(Notice::InvalidOutpatch(id))],
        ),
        AudioThreadMessage::PlayerRejected => stays(
            s,
            seq![CommandView::Notice(Notice::PlayerRejected)],
        ),
        AudioThreadMessage::PlayerBufHalf(id) => match owner(s.table, id) {
            Some(name) => stays(s, seq![CommandView::Wake { epoch: session(s.table, name).epoch }]),
            None => stays(s, Seq::empty()),
        },
        AudioThreadMessage::PlayerBufEmpty(id) => match owner(s.table, id) {
            Some(name) => if session(s.table, name).buffered {
                Turn {
                    state: State { table: without(s.table, name), ..s },
                    commands: seq![
                        CommandView::Retire {
                            epoch: session(s.table, name).epoch,
                            senders: session(s.table, name).senders,
                        },
                    ],
                    error: None,
                }
            } else {
                stays(s, seq![CommandView::Notice(Notice::Underrun(session(s.table, name).epoch))])
            },
            None => stays(s, seq![CommandView::Notice(Notice::Straggler(id))]),
        },
        _ => stays(s, Seq::empty()),
    }
}

/// The commands that retire every session of a table, in table order.
pub open spec fn retirements(t: Entries) -> Seq<CommandView> {
    Seq::new(t.len(), |i: int| CommandView::Retire { epoch: t[i].1.epoch, senders: t[i].1.senders })
}

/// Shutdown: every session is retired and the process is left.
pub open spec fn halted(s: State) -> Turn {
    Turn {
        state: State { table: Seq::empty(), ..s },
        commands: retirements(s.table).push(CommandView::Exit),
        error: None,
    }
}

/// The turn that a control message brings about.
pub open spec fn processed(s: State, m: MessageView) -> Turn {
    match m {
        MessageView::Shutdown => halted(s),
        MessageView::Ping => stays(s, seq![CommandView::Notice(Notice::Ping)]),
        MessageView::PlayFile(name, level) => requested(s, name, level),
        MessageView::StopFile(name) => switched(s, name, false),
        MessageView::DebugFile(name) => debugged(s, name),
        MessageView::FadeFile(name, target, duration_ms) => faded(s, name, target, duration_ms),
        MessageView::Engine(m) => notified(s, m),
        MessageView::BufferComplete(name, epoch) => completed(s, name, epoch),
    }
}

/// What the embedding program hands to the orchestrator for one turn.
#[derive(Clone, Debug, PartialEq, Eq)]
pub enum Event {
    /// The next message of the control queue.
    Control(Message),
    /// The answer to `Command::Open` for the named file: the senders that
    /// were allocated, in channel order, or `None` if the file did not open.
    Opened(String, Option<Vec<SenderId>>),
    /// The control queue can deliver nothing any more.
    QueueClosed,
}

/// An event with its strings and lists as mathematical values.
pub enum EventView {
    Control(MessageView),
    Opened(Seq<char>, Option<Seq<SenderId>>),
    QueueClosed,
}

/// The senders of an answer as a mathematical value.
pub open spec fn ids_of(senders: Option<Vec<SenderId>>) -> Option<Seq<SenderId>> {
    match senders {
        Some(v) => Some(v@),
        None => None,
    }
}

impl View for Event {
    type V = EventView;

    open spec fn view(&self) -> EventView {
        match *self {
            Event::Control(m) => EventView::Control(m@),
            Event::Opened(name, senders) => EventView::Opened(name@, ids_of(senders)),
            Event::QueueClosed => EventView::QueueClosed,
        }
    }
}

/// The turn that an event brings about. A lost control queue is a shutdown.
pub open spec fn turned(s: State, e: EventView) -> Turn {
    match e {
        EventView::Control(m) => processed(s, m),
        EventView::Opened(name, senders) => opened(s, name, senders),
        EventView::QueueClosed => halted(s),
    }
}

/// What the event loop hands out for a turn: the turn's commands, or the
/// notice of its failure.
pub open spec fn handed_out(t: Turn) -> Seq<CommandView> {
    match t.error {
        Some(e) => seq![CommandView::Notice(Notice::Failed(e))],
        None => t.commands,
    }
}

/// The orchestrator: configuration, the active sessions by name, and the
/// epoch given out last.
pub struct Context {
    pub active_files: Vec<(String, ActiveFile)>,
    pub cfg: Config,
    pub epoch: u32,
}

impl View for Context {
    type V = State;

    open spec fn view(&self) -> State {
        State {
            table: entries(self.active_files@),
            epoch: self.epoch,
            channels: self.cfg.channels@.len(),
            files: self.cfg.uris(),
        }
    }
}

/// Whether a call gave what the turn `t` prescribes.
pub open spec fn gave(r: Result<Vec<Command>, Error>, t: Turn) -> bool {
    match r {
        Ok(cmds) => t.error is None && views(cmds@) == t.commands,
        Err(e) => t.error == Some(e),
    }
}

/// A copy of a list of sender handles.
pub fn copy_ids(ids: &Vec<SenderId>) -> (r: Vec<SenderId>)
    ensures
        r@ == ids@,
{
    let mut out: Vec<SenderId> = Vec::new();
    let mut i: usize = 0;
    while i < ids.len()
        invariant
            0 <= i <= ids@.len(),
            out@ == ids@.take(i as int),
        decreases ids@.len() - i,
    {
        out.push(ids[i]);
        assert(out@ == ids@.take(i + 1));
        i += 1;
    }
    assert(ids@.take(ids@.len() as int) == ids@);
    out
}

impl Context {
    /// The orchestrator over a configuration, with no session and no epoch
    /// given out yet.
    pub fn new(cfg: Config) -> (r: Context)
        ensures
            r.cfg == cfg,
            r.epoch == 0,
            r@.table == Seq::<(Seq<char>, Session)>::empty(),
            cfg.channels@.len() > 0 ==> valid(r@),
    {
        let r = Context { active_files: Vec::new(), cfg, epoch: 0 };
        assert(r@.table =~= Seq::<(Seq<char>, Session)>::empty());
        r
    }

    /// The name of the session that owns the sender `uu`: of several, the
    /// one created last.
    pub fn lookup_uu(&self, uu: SenderId) -> (r: Option<String>)
        ensures
            r is Some <==> owner(self@.table, uu) is Some,
            r matches Some(name) ==> owner(self@.table, uu) == Some(name@),
    {
        let ghost t = self@.table;
        let mut i: usize = self.active_files.len();
        while i > 0
            invariant
                t == entries(self.active_files@),
                0 <= i <= self.active_files@.len(),
                forall|j: int| i <= j < t.len() ==> !(#[trigger] t[j]).1.senders.contains(uu),
            decreases i,
        {
            i -= 1;
            if has_sender(&self.active_files[i].1.senders, uu) {
                proof {
                    lemma_owner_position_unique(t, uu, i as int);
                }
                return Some(self.active_files[i].0.clone());
            }
        }
        proof {
            lemma_owner_position_unique(t, uu, -1);
        }
        None
    }

    /// Takes a start request for `file`: asks the embedding program to open
    /// it, or fails if no such file is configured.
    pub fn request_file(&self, file: &str, level: Level) -> (r: Result<Vec<Command>, Error>)
        ensures
            gave(r, requested(self@, file@, level)),
    {
        match self.cfg.uri_of(file) {
            None => Err(Error::NoSuchFile),
            Some(uri) => {
                let cmds = vec![
                    Command::Open {
                        name: file.to_owned(),
                        uri,
                        level,
                        channels: self.cfg.channels.len(),
                    },
                ];
                assert(views(cmds@) =~= requested(self@, file@, level).commands);
                Ok(cmds)
            },
        }
    }

    /// Creates the session of `file` over the senders allocated for it and
    /// asks for its worker, retiring the session that was under the name.
    /// `senders` is `None` where the decoder could not open the file. On
    /// failure nothing changes.
    pub fn prepare_file(&mut self, file: &str, senders: Option<Vec<SenderId>>) -> (r: Result<
        Vec<Command>,
        Error,
    >)
        ensures
            final(self)@ == prepared(old(self)@, file@, ids_of(senders)).state,
            gave(r, prepared(old(self)@, file@, ids_of(senders))),
            final(self).cfg == old(self).cfg,
    {
        if self.cfg.uri_of(file).is_none() {
            return Err(Error::NoSuchFile);
        }
        match senders {
            None => Err(Error::DecoderOpen),
            Some(ids) => {
                if ids.len() != self.cfg.channels.len() {
                    return Err(Error::SenderCount);
                }
                if self.epoch == u32::MAX {
                    return Err(Error::EpochExhausted);
                }
                let epoch: u32 = self.epoch + 1;
                let mut cmds = vec![Command::Spawn { name: file.to_owned(), epoch }];
                match find(&self.active_files, file) {
                    Some(i) => {
                        let gone = self.active_files.remove(i);
                        cmds.push(Command::Retire { epoch: gone.1.epoch, senders: gone.1.senders });
                    },
                    None => {},
                }
                self.active_files.push(
                    (file.to_owned(), ActiveFile { senders: ids, buffered: false, epoch }),
                );
                self.epoch = epoch;
                assert(views(cmds@) =~= prepared(old(self)@, file@, ids_of(senders)).commands);
                assert(self@.table =~= prepared(old(self)@, file@, ids_of(senders)).state.table);
                Ok(cmds)
            },
        }
    }

    /// Takes the answer to an open request: prepares the session of `file`
    /// and starts it.
    pub fn file_opened(&mut self, file: &str, senders: Option<Vec<SenderId>>) -> (r: Result<
        Vec<Command>,
        Error,
    >)
        ensures
            final(self)@ == opened(old(self)@, file@, ids_of(senders)).state,
            gave(r, opened(old(self)@, file@, ids_of(senders))),
            final(self).cfg == old(self).cfg,
    {
        let ghost ids = ids_of(senders);
        match self.prepare_file(file, senders) {
            Err(e) => Err(e),
            Ok(mut cmds) => {
                let ghost first = cmds@;
                proof {
                    let fresh = Session {
                        senders: ids->0,
                        buffered: false,
                        epoch: (old(self).epoch + 1) as u32,
                    };
                    lemma_with_holds(old(self)@.table, file@, fresh);
                }
                match self.start_stop_file(file, true) {
                    Err(e) => Err(e),
                    Ok(mut more) => {
                        let ghost second = more@;
                        cmds.append(&mut more);
                        assert(views(cmds@) =~= views(first) + views(second));
                        Ok(cmds)
                    },
                }
            },
        }
    }

    /// Takes a worker's report that the file `file` is buffered to its end
    /// in the session `epoch`. A report for another epoch than that of the
    /// session now under the name changes nothing.
    pub fn buffer_complete(&mut self, file: &str, epoch: u32)
        ensures
            final(self)@ == completed(old(self)@, file@, epoch).state,
            final(self).cfg == old(self).cfg,
    {
        match find(&self.active_files, file) {
            None => {},
            Some(i) => {
                if self.active_files[i].1.epoch == epoch {
                    let it = self.active_files.remove(i);
                    let done = ActiveFile {
                        senders: it.1.senders,
                        buffered: true,
                        epoch: it.1.epoch,
                    };
                    self.active_files.insert(i, (it.0, done));
                    proof {
                        lemma_position(old(self)@.table, file@);
                    }
                    assert(self@.table =~= completed(old(self)@, file@, epoch).state.table);
                }
            },
        }
    }

    /// Takes a notification from the audio thread. A half-empty buffer wakes
    /// the worker of the session that owns the sender; an empty buffer ends
    /// the session if its file is buffered to the end, and is an underrun
    /// that leaves the session in place if not.
    pub fn engine_message(&mut self, m: AudioThreadMessage) -> (r: Vec<Command>)
        ensures
            final(self)@ == notified(old(self)@, m).state,
            views(r@) == notified(old(self)@, m).commands,
            final(self).cfg == old(self).cfg,
    {
        let ghost t = self@.table;
        let cmds = match m {
            AudioThreadMessage::Xrun => vec![Command::Notice(Notice::Xrun)],
            AudioThreadMessage::PlayerInvalidOutpatch(id) => vec![
                Command::Notice(Notice::InvalidOutpatch(id)),
            ],
            AudioThreadMessage::PlayerRejected => vec![Command::Notice(Notice::PlayerRejected)],
            AudioThreadMessage::PlayerBufHalf(id) => match self.lookup_uu(id) {
                None => Vec::new(),
                Some(name) => {
                    proof {
                        lemma_owner_holds(t, id);
                    }
                    match find(&self.active_files, name.as_str()) {
                        None => Vec::new(),
                        Some(i) => vec![Command::Wake { epoch: self.active_files[i].1.epoch }],
                    }
                },
            },
            AudioThreadMessage::PlayerBufEmpty(id) => match self.lookup_uu(id) {
                None => vec![Command::Notice(Notice::Straggler(id))],
                Some(name) => {
                    proof {
                        lemma_owner_holds(t, id);
                    }
                    match find(&self.active_files, name.as_str()) {
                        None => Vec::new(),
                        Some(i) => {
                            if self.active_files[i].1.buffered {
                                let gone = self.active_files.remove(i);
                                assert(self@.table =~= without(t, name@));
                                vec![
                                    Command::Retire {
                                        epoch: gone.1.epoch,
                                        senders: gone.1.senders,
                                    },
                                ]
                            } else {
                                vec![
                                    Command::Notice(
                                        Notice::Underrun(self.active_files[i].1.epoch),
                                    ),
                                ]
                            }
                        },
                    }
                },
            },
            _ => Vec::new(),
        };
        assert(views(cmds@) =~= notified(old(self)@, m).commands);
        cmds
    }

    /// Retires every session and asks to leave the process.
    pub fn shutdown(&mut self) -> (r: Vec<Command>)
        ensures
            final(self)@ == halted(old(self)@).state,
            views(r@) == halted(old(self)@).commands,
            final(self).cfg == old(self).cfg,
    {
        let ghost t = self@.table;
        let mut cmds: Vec<Command> = Vec::new();
        let mut i: usize = 0;
        while i < self.active_files.len()
            invariant
                t == entries(self.active_files@),
                0 <= i <= t.len(),
                views(cmds@) == retirements(t).take(i as int),
            decreases t.len() - i,
        {
            let it = &self.active_files[i].1;
            let ghost before = cmds@;
            cmds.push(Command::Retire { epoch: it.epoch, senders: copy_ids(&it.senders) });
            assert(t[i as int].1 == it@);
            assert(views(cmds@) =~= views(before).push(cmds@[i as int]@));
            assert(views(cmds@) =~= retirements(t).take(i + 1));
            i += 1;
        }
        assert(retirements(t).take(t.len() as int) =~= retirements(t));
        cmds.push(Command::Exit);
        assert(views(cmds@) =~= halted(old(self)@).commands);
        self.active_files = Vec::new();
        assert(self@.table =~= Seq::<(Seq<char>, Session)>::empty());
        cmds
    }

    /// Carries out one control message.
    pub fn process_message(&mut self, msg: Message) -> (r: Result<Vec<Command>, Error>)
        ensures
            final(self)@ == processed(old(self)@, msg@).state,
            gave(r, processed(old(self)@, msg@)),
            final(self).cfg == old(self).cfg,
    {
        match msg {
            Message::Shutdown => Ok(self.shutdown()),
            Message::Ping => {
                let cmds = vec![Command::Notice(Notice::Ping)];
                assert(views(cmds@) =~= processed(old(self)@, msg@).commands);
                Ok(cmds)
            },
            Message::PlayFile(name, level) => self.request_file(name.as_str(), level),
            Message::StopFile(name) => self.start_stop_file(name.as_str(), false),
            Message::DebugFile(name) => self.debug_file(name.as_str()),
            Message::FadeFile(name, target, dur_ms) => self.configure_file_fade(
                name.as_str(),
                target,
                dur_ms,
            ),
            Message::Engine(m) => Ok(self.engine_message(m)),
            Message::BufferComplete(name, epoch) => {
                self.buffer_complete(name.as_str(), epoch);
                let cmds: Vec<Command> = Vec::new();
                assert(views(cmds@) =~= processed(old(self)@, msg@).commands);
                Ok(cmds)
            },
        }
    }

    /// One turn of the event loop: carries out the event and hands out the
    /// commands that follow from it. A control message that fails is not
    /// fatal: the turn hands out the notice of the failure.
    pub fn run(&mut self, event: Event) -> (r: Vec<Command>)
        ensures
            final(self)@ == turned(old(self)@, event@).state,
            views(r@) == handed_out(turned(old(self)@, event@)),
            final(self).cfg == old(self).cfg,
    {
        let res = match event {
            Event::Control(m) => self.process_message(m),
            Event::Opened(name, senders) => self.file_opened(name.as_str(), senders),
            Event::QueueClosed => Ok(self.shutdown()),
        };
        match res {
            Ok(cmds) => cmds,
            Err(e) => {
                let cmds = vec![Command::Notice(Notice::Failed(e))];
                assert(views(cmds@) =~= handed_out(turned(old(self)@, event@)));
                cmds
            },
        }
    }

    /// Asks for a report on the session under `file`.
    pub fn debug_file(&self, file: &str) -> (r: Result<Vec<Command>, Error>)
        ensures
            gave(r, debugged(self@, file@)),
    {
        match find(&self.active_files, file) {
            None => Err(Error::NoSuchActiveFile),
            Some(i) => {
                let it = &self.active_files[i].1;
                let first = if it.senders.len() > 0 {
                    Some(it.senders[0])
                } else {
                    None
                };
                let cmds = vec![
                    Command::Report { count: it.senders.len(), buffered: it.buffered, first },
                ];
                assert(views(cmds@) =~= debugged(self@, file@).commands);
                Ok(cmds)
            },
        }
    }

    /// Asks for a fade of every sender of the session under `file` to the
    /// level `target` over `dur_ms` milliseconds.
    pub fn configure_file_fade(&self, file: &str, target: Level, dur_ms: u64) -> (r: Result<
        Vec<Command>,
        Error,
    >)
        ensures
            gave(r, faded(self@, file@, target, dur_ms)),
    {
        match find(&self.active_files, file) {
            None => Err(Error::NoSuchActiveFile),
            Some(i) => {
                let senders = copy_ids(&self.active_files[i].1.senders);
                let cmds = vec![Command::Fade { senders, target, duration_ms: dur_ms }];
                assert(views(cmds@) =~= faded(self@, file@, target, dur_ms).commands);
                Ok(cmds)
            },
        }
    }

    /// Starts the senders of the session under `file`, or stops them and
    /// removes the session.
    pub fn start_stop_file(&mut self, file: &str, start: bool) -> (r: Result<Vec<Command>, Error>)
        ensures
            final(self)@ == switched(old(self)@, file@, start).state,
            gave(r, switched(old(self)@, file@, start)),
            final(self).cfg == old(self).cfg,
    {
        match find(&self.active_files, file) {
            None => Err(Error::NoSuchActiveFile),
            Some(i) => {
                if start {
                    let senders = copy_ids(&self.active_files[i].1.senders);
                    let cmds = vec![Command::Start { senders }];
                    assert(views(cmds@) =~= switched(old(self)@, file@, start).commands);
                    Ok(cmds)
                } else {
                    let gone = self.active_files.remove(i);
                    let senders = copy_ids(&gone.1.senders);
                    let cmds = vec![
                        Command::Halt { senders },
                        Command::Retire { epoch: gone.1.epoch, senders: gone.1.senders },
                    ];
                    assert(views(cmds@) =~= switched(old(self)@, file@, start).commands);
                    assert(self@.table =~= without(old(self)@.table, file@));
                    Ok(cmds)
                }
            },
        }
    }
}

} // verus!
