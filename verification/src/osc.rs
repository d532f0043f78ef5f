//! The OSC front-end: from datagrams to control messages and replies.

use vstd::prelude::*;
use crate::message::{Level, Message, MessageView};
use crate::path::{segments, split, str_eq, texts, trim, trimmed};
use crate::wire::{decodable, is_decodable};
use vstd::utf8::encode_utf8;

verus! {

/// One argument of an incoming OSC message, as far as the command surface
/// reads it: integers, and numbers in single and double precision by their
/// bit patterns. Every other kind of argument is `Other`.
#[derive(Clone, Copy, Debug, PartialEq, Eq, Structural)]
pub enum OscArg {
    Int(i32),
    Float(u32),
    Double(u64),
    Other,
}

/// The level that an argument gives, if it is a number in single or double precision.
pub open spec fn level_of(a: OscArg) -> Option<Level> {
    match a {
        OscArg::Float(bits) => Some(Level::Float(bits)),
        OscArg::Double(bits) => Some(Level::Double(bits)),
        _ => None,
    }
}

/// The duration in milliseconds that an integer argument gives: the integer
/// itself, a negative one taken modulo 2^64.
pub open spec fn duration_of(a: OscArg) -> Option<u64> {
    match a {
        OscArg::Int(d) => Some(
            if d >= 0 {
                d as u64
            } else {
                (d + 0x1_0000_0000_0000_0000) as u64
            },
        ),
        _ => None,
    }
}

/// Whether the segments of an address name a command: `/ping`, `/shutdown`,
/// or `/file/<name>/<verb>` with one of the four verbs. Segment 0 is what
/// stands before the leading slash; segments after the verb are not looked at.
pub open spec fn recognized(addr: Seq<Seq<char>>) -> bool {
    addr.len() > 1 && (addr[1] == "ping"@ || addr[1] == "shutdown"@ || (addr[1] == "file"@
        && addr.len() > 3 && (addr[3] == "start"@ || addr[3] == "debug"@ || addr[3] == "stop"@
        || addr[3] == "fade"@)))
}

/// The control message that an address and its arguments stand for.
/// `start` takes exactly one level, `fade` exactly a level and an integer;
/// the other commands do not look at their arguments.
pub open spec fn parsed(addr: Seq<Seq<char>>, args: Option<Seq<OscArg>>) -> Option<MessageView> {
    if !recognized(addr) {
        None
    } else if addr[1] == "ping"@ {
        Some(MessageView::Ping)
    } else if addr[1] == "shutdown"@ {
        Some(MessageView::Shutdown)
    } else if addr[3] == "start"@ {
        match args {
            Some(a) if a.len() == 1 && level_of(a[0]) is Some => Some(
                MessageView::PlayFile(addr[2], level_of(a[0])->0),
            ),
            _ => None,
        }
    } else if addr[3] == "debug"@ {
        Some(MessageView::DebugFile(addr[2]))
    } else if addr[3] == "stop"@ {
        Some(MessageView::StopFile(addr[2]))
    } else {
        match args {
            Some(a) if a.len() == 2 && level_of(a[0]) is Some && duration_of(a[1]) is Some => Some(
                MessageView::FadeFile(addr[2], level_of(a[0])->0, duration_of(a[1])->0),
            ),
            _ => None,
        }
    }
}

/// The view of an optional message.
pub open spec fn view_of(m: Option<Message>) -> Option<MessageView> {
    match m {
        Some(m) => Some(m@),
        None => None,
    }
}

/// The view of an optional argument list.
pub open spec fn args_of(args: Option<Vec<OscArg>>) -> Option<Seq<OscArg>> {
    match args {
        Some(a) => Some(a@),
        None => None,
    }
}

fn level(a: OscArg) -> (r: Option<Level>)
    ensures
        r == level_of(a),
{
    match a {
        OscArg::Float(bits) => Some(Level::Float(bits)),
        OscArg::Double(bits) => Some(Level::Double(bits)),
        _ => None,
    }
}

fn duration(a: OscArg) -> (r: Option<u64>)
    ensures
        r == duration_of(a),
{
    match a {
        OscArg::Int(d) => {
            if d >= 0 {
                Some(d as u64)
            } else {
                let back: u64 = (-(d as i64)) as u64;
                Some(u64::MAX - (back - 1))
            }
        },
        _ => None,
    }
}

/// Whether the address names a command.
pub fn is_recognized(addr: &[&str]) -> (r: bool)
    ensures
        r == recognized(texts(addr@)),
{
    if addr.len() <= 1 {
        return false;
    }
    if str_eq(addr[1], "ping") || str_eq(addr[1], "shutdown") {
        return true;
    }
    if !str_eq(addr[1], "file") || addr.len() <= 3 {
        return false;
    }
    str_eq(addr[3], "start") || str_eq(addr[3], "debug") || str_eq(addr[3], "stop") || str_eq(
        addr[3],
        "fade",
    )
}

/// Maps a split address and its arguments to the control message they stand
/// for; `None` where the address names no command or the arguments do not fit it.
pub fn parse_message(addr: &[&str], args: Option<Vec<OscArg>>) -> (r: Option<Message>)
    ensures
        view_of(r) == parsed(texts(addr@), args_of(args)),
{
    if !is_recognized(addr) {
        return None;
    }
    if str_eq(addr[1], "ping") {
        Some(Message::Ping)
    } else if str_eq(addr[1], "shutdown") {
        Some(Message::Shutdown)
    } else if str_eq(addr[3], "start") {
        match args {
            Some(a) => {
                if a.len() != 1 {
                    return None;
                }
                match level(a[0]) {
                    Some(l) => Some(Message::PlayFile(addr[2].to_owned(), l)),
                    None => None,
                }
            },
            None => None,
        }
    } else if str_eq(addr[3], "debug") {
        Some(Message::DebugFile(addr[2].to_owned()))
    } else if str_eq(addr[3], "stop") {
        Some(Message::StopFile(addr[2].to_owned()))
    } else {
        match args {
            Some(a) => {
                if a.len() != 2 {
                    return None;
                }
                match (level(a[0]), duration(a[1])) {
                    (Some(l), Some(ms)) => Some(Message::FadeFile(addr[2].to_owned(), l, ms)),
                    _ => None,
                }
            },
            None => None,
        }
    }
}

/// An incoming OSC message: its address and its arguments.
#[derive(Clone, Debug, PartialEq, Eq)]
pub struct OscMsg {
    pub addr: String,
    pub args: Option<Vec<OscArg>>,
}

/// An incoming OSC message as a mathematical value.
pub struct MsgView {
    pub addr: Seq<char>,
    pub args: Option<Seq<OscArg>>,
}

impl View for OscMsg {
    type V = MsgView;

    open spec fn view(&self) -> MsgView {
        MsgView { addr: self.addr@, args: args_of(self.args) }
    }
}

/// A decoded datagram: one message, or a bundle, of which nothing is kept.
#[derive(Clone, Debug, PartialEq, Eq)]
pub enum Packet {
    Message(OscMsg),
    Bundle,
}

/// A decoded datagram as a mathematical value.
pub enum PacketView {
    Message(MsgView),
    Bundle,
}

impl View for Packet {
    type V = PacketView;

    open spec fn view(&self) -> PacketView {
        match *self {
            Packet::Message(m) => PacketView::Message(m@),
            Packet::Bundle => PacketView::Bundle,
        }
    }
}

/// A reply to the sender of a datagram: an address and at most one string argument.
#[derive(Clone, Debug, PartialEq, Eq)]
pub struct Reply {
    pub addr: String,
    pub arg: Option<String>,
}

/// A reply as a mathematical value.
pub struct ReplyView {
    pub addr: Seq<char>,
    pub arg: Option<Seq<char>>,
}

impl View for Reply {
    type V = ReplyView;

    open spec fn view(&self) -> ReplyView {
        ReplyView {
            addr: self.addr@,
            arg: match self.arg {
                Some(a) => Some(a@),
                None => None,
            },
        }
    }
}

/// Why a reply could not be queued.
#[derive(Clone, Copy, Debug, PartialEq, Eq, Structural)]
pub enum OscFault {
    /// The encoder refused the reply.
    Encode,
}

/// `n` zero bytes.
pub open spec fn zeros(n: nat) -> Seq<u8> {
    Seq::new(n, |i: int| 0u8)
}

/// A string on the wire: its UTF-8 bytes, a zero byte, and zero bytes up to
/// the next multiple of four.
pub open spec fn osc_string(s: Seq<char>) -> Seq<u8> {
    let b = encode_utf8(s);
    b + zeros((4 - b.len() % 4) as nat)
}

/// A reply on the wire: the address, the type tags, and the argument if there is one.
pub open spec fn wire(r: ReplyView) -> Seq<u8> {
    match r.arg {
        None => osc_string(r.addr) + osc_string(seq![',']),
        Some(a) => osc_string(r.addr) + osc_string(seq![',', 's']) + osc_string(a),
    }
}

/// What the decoder makes of a datagram; `None` where it rejects it.
pub uninterp spec fn osc_decoded(bytes: Seq<u8>) -> Option<PacketView>;

/// The error of the OSC codec, `rosc::OscError`; nothing is known of what it holds.
#[verifier::external_type_specification]
#[verifier::external_body]
pub struct ExOscError(rosc::OscError);

/// Decodes a datagram with `rosc::decoder::decode`. The result is a
/// function of the bytes alone, named `osc_decoded`; of a message the
/// address and the arguments are kept, an argument that is no integer and no
/// number in single or double precision as `OscArg::Other`. The decoder
/// indexes past the end of a MIDI or colour argument with fewer than four
/// bytes left, allocates whatever size a blob announces, and calls itself
/// for a bundle inside a bundle; `decodable` leaves those datagrams out.
#[verifier::external_body]
fn decode(bytes: &[u8]) -> (r: Result<Packet, rosc::OscError>)
    requires
        decodable(bytes@),
    ensures
        r is Ok <==> osc_decoded(bytes@) is Some,
        r matches Ok(p) ==> osc_decoded(bytes@) == Some(p@),
{
    match rosc::decoder::decode(bytes)? {
        rosc::OscPacket::Bundle(_) => Ok(Packet::Bundle),
        rosc::OscPacket::Message(m) => {
            let args = m.args.map(|v| v.into_iter().map(|a| match a {
                rosc::OscType::Int(i) => OscArg::Int(i),
                rosc::OscType::Float(x) => OscArg::Float(x.to_bits()),
                rosc::OscType::Double(x) => OscArg::Double(x.to_bits()),
                _ => OscArg::Other,
            }).collect());
            Ok(Packet::Message(OscMsg { addr: m.addr, args }))
        },
    }
}

/// Encodes a reply with `rosc::encoder::encode`, as a message with the
/// reply's address and, if it has one, its argument as the one string
/// argument. For such a message the encoder always succeeds, and writes the
/// address, the type tags `,` or `,s` and the argument, each as its UTF-8
/// bytes followed by one to four zero bytes up to a multiple of four.
#[verifier::external_body]
fn encode(reply: &Reply) -> (r: Result<Vec<u8>, rosc::OscError>)
    ensures
        r is Ok,
        r matches Ok(b) ==> b@ == wire(reply@),
{
    let args = reply.arg.clone().map(|a| vec![rosc::OscType::String(a)]);
    let msg = rosc::OscMessage { addr: reply.addr.clone(), args };
    rosc::encoder::encode(&rosc::OscPacket::Message(msg))
}

/// The reply to a message that was taken.
pub open spec fn ack() -> ReplyView {
    ReplyView { addr: "/ack"@, arg: None }
}

/// The reply to a message whose address names no command.
pub open spec fn unknown_address(addr: Seq<char>) -> ReplyView {
    ReplyView { addr: "/unknown_address"@, arg: Some(addr) }
}

/// The reply to a message whose address names a command that its arguments do not fit.
pub open spec fn incorrect_args(addr: Seq<char>) -> ReplyView {
    ReplyView { addr: "/incorrect_args"@, arg: Some(addr) }
}

/// The reply to a bundle.
pub open spec fn no_bundles() -> ReplyView {
    ReplyView { addr: "/no_bundles_please"@, arg: None }
}

/// What a datagram or a message comes to: the control message to enqueue,
/// if any, and the reply to its sender, if any.
pub struct Answer {
    pub intent: Option<MessageView>,
    pub reply: Option<ReplyView>,
}

/// The answer to a message. Its address is trimmed and split at the
/// slashes; the replies to a message that is not taken carry the trimmed address.
pub open spec fn answered(m: MsgView) -> Answer {
    let addr = trimmed(m.addr);
    match parsed(segments(addr), m.args) {
        Some(intent) => Answer { intent: Some(intent), reply: Some(ack()) },
        None => Answer {
            intent: None,
            reply: Some(
                if recognized(segments(addr)) {
                    incorrect_args(addr)
                } else {
                    unknown_address(addr)
                },
            ),
        },
    }
}

/// The answer to a datagram. What the decoder returns decides: a message
/// is answered as `answered` says, whatever arguments it carries; a bundle is
/// refused with `/no_bundles_please`; a datagram that the decoder rejects
/// gets no answer at all. Neither does one that the decoder cannot be handed:
/// one in which a MIDI or colour argument has fewer than four bytes left, in
/// which a blob announces more than is left, or in which bundles stand
/// deeper inside one another than `MAX_NESTING`.
pub open spec fn heard(b: Seq<u8>) -> Answer {
    if !decodable(b) {
        Answer { intent: None, reply: None }
    } else {
        match osc_decoded(b) {
            None => Answer { intent: None, reply: None },
            Some(PacketView::Bundle) => Answer { intent: None, reply: Some(no_bundles()) },
            Some(PacketView::Message(m)) => answered(m),
        }
    }
}

/// What the receive loop hands to the front-end for one turn.
#[derive(Clone, Debug, PartialEq, Eq)]
pub enum OscEvent {
    /// A datagram arrived.
    Datagram(Vec<u8>),
    /// Receiving from the socket failed.
    RecvFailed,
}

/// How a turn of the front-end went.
#[derive(Clone, Copy, Debug, PartialEq, Eq, Structural)]
pub enum OscOutcome {
    /// A control message was queued and acknowledged.
    Dispatched,
    /// The address names a command, the arguments do not fit it.
    IncorrectArgs,
    /// The address names no command.
    UnknownAddress,
    /// A bundle was refused.
    Bundle,
    /// The datagram could not be decoded.
    Undecodable,
    /// Receiving failed: a shutdown was queued, and the loop is to sleep
    /// for `pause_ms` milliseconds before it receives again.
    RecvFailed { pause_ms: u64 },
}

/// The outcome that goes with an answer to a datagram.
pub open spec fn outcome_of(a: Answer) -> OscOutcome {
    if a.intent is Some {
        OscOutcome::Dispatched
    } else if a.reply is None {
        OscOutcome::Undecodable
    } else if a.reply->0.addr == "/no_bundles_please"@ {
        OscOutcome::Bundle
    } else if a.reply->0.addr == "/incorrect_args"@ {
        OscOutcome::IncorrectArgs
    } else {
        OscOutcome::UnknownAddress
    }
}

/// The front-end between two turns: the control messages that wait to be
/// put on the control queue, and the encoded replies that wait to be sent to
/// the source of the datagram in hand. The receive loop empties both after
/// each turn.
pub struct OscContext {
    pub tx: Vec<Message>,
    pub out: Vec<Vec<u8>>,
}

/// The front-end as a mathematical value.
pub struct OscState {
    pub tx: Seq<MessageView>,
    pub out: Seq<Seq<u8>>,
}

impl View for OscContext {
    type V = OscState;

    open spec fn view(&self) -> OscState {
        OscState {
            tx: Seq::new(self.tx@.len(), |i: int| self.tx@[i]@),
            out: Seq::new(self.out@.len(), |i: int| self.out@[i]@),
        }
    }
}

/// The front-end after an answer is queued.
pub open spec fn queued(s: OscState, a: Answer) -> OscState {
    OscState {
        tx: match a.intent {
            Some(m) => s.tx.push(m),
            None => s.tx,
        },
        out: match a.reply {
            Some(r) => s.out.push(wire(r)),
            None => s.out,
        },
    }
}

impl OscContext {
    /// A front-end with nothing queued.
    pub fn new() -> (r: OscContext)
        ensures
            r@.tx.len() == 0,
            r@.out.len() == 0,
    {
        OscContext { tx: Vec::new(), out: Vec::new() }
    }

    /// Encodes a reply and queues it for sending.
    pub fn _send(&mut self, msg: &Reply) -> (r: Result<(), OscFault>)
        ensures
            r is Ok,
            final(self)@ == queued(old(self)@, (Answer { intent: None, reply: Some(msg@) })),
    {
        match encode(msg) {
            Err(_) => Err(OscFault::Encode),
            Ok(bytes) => {
                self.out.push(bytes);
                assert(self@.out =~= old(self)@.out.push(wire(msg@)));
                assert(self@.tx =~= old(self)@.tx);
                Ok(())
            },
        }
    }

    /// Queues a reply for sending.
    pub fn send(&mut self, msg: Reply)
        ensures
            final(self)@ == queued(old(self)@, (Answer { intent: None, reply: Some(msg@) })),
    {
        let _ = self._send(&msg);
    }

    /// Queues the acknowledgement of a message.
    pub fn send_ack(&mut self)
        ensures
            final(self)@ == queued(old(self)@, (Answer { intent: None, reply: Some(ack()) })),
    {
        self.send(Reply { addr: "/ack".to_owned(), arg: None });
    }

    /// Queues the reply to a message whose address names no command.
    pub fn send_unknown(&mut self, addr: String)
        ensures
            final(self)@ == queued(
                old(self)@,
                (Answer { intent: None, reply: Some(unknown_address(addr@)) }),
            ),
    {
        self.send(Reply { addr: "/unknown_address".to_owned(), arg: Some(addr) });
    }

    /// Queues the reply to a message whose arguments do not fit its command.
    pub fn send_incorrect(&mut self, addr: String)
        ensures
            final(self)@ == queued(
                old(self)@,
                (Answer { intent: None, reply: Some(incorrect_args(addr@)) }),
            ),
    {
        self.send(Reply { addr: "/incorrect_args".to_owned(), arg: Some(addr) });
    }

    /// Takes one message: queues the control message it stands for and the
    /// acknowledgement, or the reply that says why it was not taken.
    pub fn process_msg(&mut self, msg: OscMsg) -> (r: OscOutcome)
        ensures
            final(self)@ == queued(old(self)@, answered(msg@)),
            r == outcome_of(answered(msg@)),
    {
        let addr = trim(msg.addr.as_str());
        let parts = split(addr);
        let known = is_recognized(parts.as_slice());
        proof {
            reveal_strlit("/ack");
            reveal_strlit("/unknown_address");
            reveal_strlit("/incorrect_args");
            reveal_strlit("/no_bundles_please");
        }
        match parse_message(parts.as_slice(), msg.args) {
            Some(m) => {
                self.tx.push(m);
                assert(self@.tx =~= old(self)@.tx.push(m@));
                assert(self@.out =~= old(self)@.out);
                self.send_ack();
                OscOutcome::Dispatched
            },
            None => {
                if known {
                    self.send_incorrect(addr.to_owned());
                    OscOutcome::IncorrectArgs
                } else {
                    self.send_unknown(addr.to_owned());
                    OscOutcome::UnknownAddress
                }
            },
        }
    }

    /// One turn of the receive loop.
    pub fn run(&mut self, event: OscEvent) -> (r: OscOutcome)
        ensures
            match event {
                OscEvent::Datagram(bytes) => {
                    &&& final(self)@ == queued(old(self)@, heard(bytes@))
                    &&& r == outcome_of(heard(bytes@))
                },
                OscEvent::RecvFailed => {
                    &&& final(self)@ == queued(
                        old(self)@,
                        (Answer { intent: Some(MessageView::Shutdown), reply: None }),
                    )
                    &&& r == (OscOutcome::RecvFailed { pause_ms: 1000 })
                },
            },
    {
        proof {
            reveal_strlit("/ack");
            reveal_strlit("/unknown_address");
            reveal_strlit("/incorrect_args");
            reveal_strlit("/no_bundles_please");
        }
        match event {
            OscEvent::RecvFailed => {
                self.tx.push(Message::Shutdown);
                assert(self@.tx =~= old(self)@.tx.push(MessageView::Shutdown));
                assert(self@.out =~= old(self)@.out);
                OscOutcome::RecvFailed { pause_ms: 1000 }
            },
            OscEvent::Datagram(bytes) => {
                if !is_decodable(bytes.as_slice()) {
                    return OscOutcome::Undecodable;
                }
                match decode(bytes.as_slice()) {
                    Err(_) => OscOutcome::Undecodable,
                    Ok(Packet::Bundle) => {
                        self.send(Reply { addr: "/no_bundles_please".to_owned(), arg: None });
                        OscOutcome::Bundle
                    },
                    Ok(Packet::Message(m)) => self.process_msg(m),
                }
            },
        }
    }
}

} // verus!
