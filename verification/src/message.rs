//! The control messages that the orchestrator consumes, and the values they carry.

use vstd::prelude::*;

verus! {

/// Identity of one audio sender: the 128 bits of its UUID.
pub type SenderId = u128;

/// A level in decibels as it came over the wire: the bit pattern of an
/// IEEE-754 number in single or in double precision. The library carries
/// levels through and never computes on them.
#[derive(Clone, Copy, Debug, PartialEq, Eq, Structural)]
pub enum Level {
    Float(u32),
    Double(u64),
}

/// A notification from the realtime audio thread.
#[derive(Clone, Copy, Debug, PartialEq, Eq, Structural)]
pub enum AudioThreadMessage {
    PlayerAdded(SenderId),
    PlayerRejected,
    PlayerRemoved,
    PlayerInvalidOutpatch(SenderId),
    PlayerBufHalf(SenderId),
    PlayerBufEmpty(SenderId),
    Xrun,
}

/// What the orchestrator tells a decoder worker through its wake channel.
#[derive(Clone, Copy, Debug, PartialEq, Eq, Structural)]
pub enum BufferingMessage {
    Continue,
    Die,
}

/// One entry of the control queue.
#[derive(Clone, Debug, PartialEq, Eq)]
pub enum Message {
    Shutdown,
    Ping,
    /// Start playing the named file at a level in decibels.
    PlayFile(String, Level),
    /// Fade the named file to a level in decibels over a duration in milliseconds.
    FadeFile(String, Level, u64),
    /// Stop the named file.
    StopFile(String),
    /// Report on the named file.
    DebugFile(String),
    Engine(AudioThreadMessage),
    /// The worker of the named file, in the given epoch, has buffered its last sample.
    BufferComplete(String, u32),
}

/// A control message with its strings as character sequences.
pub enum MessageView {
    Shutdown,
    Ping,
    PlayFile(Seq<char>, Level),
    FadeFile(Seq<char>, Level, u64),
    StopFile(Seq<char>),
    DebugFile(Seq<char>),
    Engine(AudioThreadMessage),
    BufferComplete(Seq<char>, u32),
}

impl View for Message {
    type V = MessageView;

    open spec fn view(&self) -> MessageView {
        match *self {
            Message::Shutdown => MessageView::Shutdown,
            Message::Ping => MessageView::Ping,
            Message::PlayFile(name, level) => MessageView::PlayFile(name@, level),
            Message::FadeFile(name, level, ms) => MessageView::FadeFile(name@, level, ms),
            Message::StopFile(name) => MessageView::StopFile(name@),
            Message::DebugFile(name) => MessageView::DebugFile(name@),
            Message::Engine(m) => MessageView::Engine(m),
            Message::BufferComplete(name, epoch) => MessageView::BufferComplete(name@, epoch),
        }
    }
}

} // verus!
