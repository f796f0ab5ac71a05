//! Per-connection reassembly of records into whole messages.

use vstd::prelude::*;
use crate::packet::{
    decode_error, decodes_to, read_raw_packet, severity_of, DecodeError, MessageType,
    RawConnectionMessage, RawMessage, RawTextMessage, Severity,
};
use crate::packet::{field_at, CONN_MACHINE_AT, CONN_MACHINE_LEN, CONN_PATH_AT, CONN_PATH_LEN};
use crate::text::{
    convert_string, field_text, fixed_field, lemma_text_field_round_trip, until_nul,
};
use vstd::utf8::{encode_utf8, valid_utf8};

verus! {

/// A connection announcement, decoded.
#[derive(Debug)]
pub struct ConnectionMessage {
    pub version: u32,
    pub pid: u64,
    pub machine_name: String,
    pub executable_path: String,
}

/// A complete text message; `timestamp` is in Unix seconds.
#[derive(Debug)]
pub struct TextMessage {
    pub timestamp: u64,
    pub severity: Severity,
    pub module: String,
    pub channel: String,
    pub message: String,
}

/// What the assembler hands on.
#[derive(Debug)]
pub enum Message {
    Connection(ConnectionMessage),
    Text(TextMessage),
}

/// A connection announcement as the contracts see it.
pub struct ConnectionModel {
    pub version: u32,
    pub pid: u64,
    pub machine_name: Seq<char>,
    pub executable_path: Seq<char>,
}

/// A text message as the contracts see it.
pub struct TextModel {
    pub timestamp: u64,
    pub severity: Severity,
    pub module: Seq<char>,
    pub channel: Seq<char>,
    pub message: Seq<char>,
}

/// A message as the contracts see it.
pub enum MessageModel {
    Connection(ConnectionModel),
    Text(TextModel),
}

impl View for ConnectionMessage {
    type V = ConnectionModel;

    open spec fn view(&self) -> ConnectionModel {
        ConnectionModel {
            version: self.version,
            pid: self.pid,
            machine_name: self.machine_name@,
            executable_path: self.executable_path@,
        }
    }
}

impl View for TextMessage {
    type V = TextModel;

    open spec fn view(&self) -> TextModel {
        TextModel {
            timestamp: self.timestamp,
            severity: self.severity,
            module: self.module@,
            channel: self.channel@,
            message: self.message@,
        }
    }
}

impl View for Message {
    type V = MessageModel;

    open spec fn view(&self) -> MessageModel {
        match self {
            Message::Connection(c) => MessageModel::Connection(c@),
            Message::Text(t) => MessageModel::Text(t@),
        }
    }
}

/// Why a connection's stream of records was given up.
#[derive(Debug, Clone, Copy, PartialEq, Eq, Structural)]
pub enum ProtocolError {
    /// The packet itself could not be decoded.
    Decode(DecodeError),
    /// A continuation record arrived while no message was in progress.
    ContinuationWhileIdle(MessageType),
    /// A record other than a continuation arrived while a message was in progress.
    UnfinishedMessage(MessageType),
    /// Text arrived on a connection whose protocol version is not 1.
    UnsupportedVersion(u32),
}

/// The kind of a decoded record.
pub open spec fn kind_of(r: RawMessage) -> MessageType {
    match r {
        RawMessage::RawConnection(_) => MessageType::Connection,
        RawMessage::RawText(t, _) => t,
    }
}

/// A record is well formed when a text record does not claim the
/// connection kind.
pub open spec fn raw_wf(r: RawMessage) -> bool {
    r matches RawMessage::RawText(t, _) ==> t != MessageType::Connection
}

/// The announcement that connection record `c` carries.
pub open spec fn connection_model(c: RawConnectionMessage) -> ConnectionModel {
    ConnectionModel {
        version: c.version,
        pid: c.pid,
        machine_name: field_text(c.machine_name@),
        executable_path: field_text(c.executable_path@),
    }
}

/// The message a text record starts.
pub open spec fn text_model(x: RawTextMessage) -> TextModel {
    TextModel {
        timestamp: x.timestamp,
        severity: severity_of(x.severity),
        module: field_text(x.module@),
        channel: field_text(x.channel@),
        message: field_text(x.message@),
    }
}

/// `m` with the text of fragment `x` appended to its message.
pub open spec fn appended(m: TextModel, x: RawTextMessage) -> TextModel {
    TextModel { message: m.message + field_text(x.message@), ..m }
}

/// Whether a text message is in progress, and which.
pub enum PhaseModel {
    Idle,
    Accumulating(TextModel),
}

/// What a connection remembers, as the contracts see it.
pub struct StateModel {
    pub version: u32,
    pub pid: u64,
    pub phase: PhaseModel,
}

/// What one record yields: nothing yet, a message, or a violation.
pub type Outcome = Result<Option<MessageModel>, ProtocolError>;

/// Completing text message `t` in state `s`.
pub open spec fn emit_text(s: StateModel, t: TextModel) -> (StateModel, Outcome) {
    if s.version == 1 {
        (StateModel { phase: PhaseModel::Idle, ..s }, Ok(Some(MessageModel::Text(t))))
    } else {
        (s, Err(ProtocolError::UnsupportedVersion(s.version)))
    }
}

/// The state a connection moves to on record `r`, and what it hands on.
/// On an error the state stays as it was.
pub open spec fn step(s: StateModel, r: RawMessage) -> (StateModel, Outcome) {
    match s.phase {
        PhaseModel::Idle => match r {
            RawMessage::RawConnection(c) => (
                StateModel { version: c.version, pid: c.pid, phase: PhaseModel::Idle },
                Ok(Some(MessageModel::Connection(connection_model(c)))),
            ),
            RawMessage::RawText(t, x) => {
                if t == MessageType::Simple {
                    emit_text(s, text_model(x))
                } else if t == MessageType::Large {
                    (StateModel { phase: PhaseModel::Accumulating(text_model(x)), ..s }, Ok(None))
                } else {
                    (s, Err(ProtocolError::ContinuationWhileIdle(t)))
                }
            },
        },
        PhaseModel::Accumulating(m) => match r {
            RawMessage::RawText(MessageType::Continuation, x) => (
                StateModel { phase: PhaseModel::Accumulating(appended(m, x)), ..s },
                Ok(None),
            ),
            RawMessage::RawText(MessageType::ContinuationEnd, x) => emit_text(s, appended(m, x)),
            _ => (s, Err(ProtocolError::UnfinishedMessage(kind_of(r)))),
        },
    }
}

/// What a returned outcome says, over the models.
pub open spec fn outcome_view(r: Result<Option<Message>, ProtocolError>) -> Outcome {
    match r {
        Ok(Some(m)) => Ok(Some(m@)),
        Ok(None) => Ok(None),
        Err(e) => Err(e),
    }
}

/// Assembly of a text message in progress.
#[derive(Debug)]
pub enum Phase {
    Idle,
    Accumulating(TextMessage),
}

/// What one connection remembers between records.
#[derive(Debug)]
pub struct ConnectionState {
    pub version: u32,
    pub pid: u64,
    pub phase: Phase,
}

impl View for ConnectionState {
    type V = StateModel;

    open spec fn view(&self) -> StateModel {
        StateModel {
            version: self.version,
            pid: self.pid,
            phase: match self.phase {
                Phase::Idle => PhaseModel::Idle,
                Phase::Accumulating(m) => PhaseModel::Accumulating(m@),
            },
        }
    }
}

/// Builds the message that text record `x` starts.
pub fn text_message(x: &RawTextMessage) -> (r: TextMessage)
    ensures
        r@ == text_model(*x),
{
    TextMessage {
        timestamp: x.timestamp,
        severity: Severity::from_u32(x.severity),
        module: convert_string(x.module.as_slice()),
        channel: convert_string(x.channel.as_slice()),
        message: convert_string(x.message.as_slice()),
    }
}

/// Decodes a connection announcement.
pub fn connection_message(c: &RawConnectionMessage) -> (r: ConnectionMessage)
    ensures
        r@ == connection_model(*c),
{
    ConnectionMessage {
        version: c.version,
        pid: c.pid,
        machine_name: convert_string(c.machine_name.as_slice()),
        executable_path: convert_string(c.executable_path.as_slice()),
    }
}

/// Appends the text of fragment `fragment` to the message in progress.
pub fn read_continuation(message: &mut TextMessage, fragment: &RawTextMessage)
    ensures
        final(message)@ == appended(old(message)@, *fragment),
{
    let text = convert_string(fragment.message.as_slice());
    message.message.append(text.as_str());
}

impl ConnectionState {
    /// The state of a connection that has just opened: version 1, pid 0,
    /// no message in progress.
    pub fn new() -> (s: ConnectionState)
        ensures
            s@ == (StateModel { version: 1, pid: 0, phase: PhaseModel::Idle }),
    {
        ConnectionState { version: 1, pid: 0, phase: Phase::Idle }
    }

    /// Takes one decoded record: updates the state and returns the message
    /// it completes, if any, or the protocol violation it commits.
    pub fn accept(&mut self, raw: RawMessage) -> (r: Result<Option<Message>, ProtocolError>)
        requires
            raw_wf(raw),
        ensures
            (final(self)@, outcome_view(r)) == step(old(self)@, raw),
    {
        let mut phase = Phase::Idle;
        std::mem::swap(&mut self.phase, &mut phase);
        match phase {
            Phase::Idle => match raw {
                RawMessage::RawConnection(c) => {
                    self.version = c.version;
                    self.pid = c.pid;
                    Ok(Some(Message::Connection(connection_message(&c))))
                },
                RawMessage::RawText(t, x) => {
                    if t == MessageType::Simple {
                        if self.version != 1 {
                            return Err(ProtocolError::UnsupportedVersion(self.version));
                        }
                        Ok(Some(Message::Text(text_message(&x))))
                    } else if t == MessageType::Large {
                        self.phase = Phase::Accumulating(text_message(&x));
                        Ok(None)
                    } else {
                        Err(ProtocolError::ContinuationWhileIdle(t))
                    }
                },
            },
            Phase::Accumulating(m) => {
                let mut m = m;
                match raw {
                    RawMessage::RawText(MessageType::Continuation, x) => {
                        read_continuation(&mut m, &x);
                        self.phase = Phase::Accumulating(m);
                        Ok(None)
                    },
                    RawMessage::RawText(MessageType::ContinuationEnd, x) => {
                        if self.version != 1 {
                            self.phase = Phase::Accumulating(m);
                            return Err(ProtocolError::UnsupportedVersion(self.version));
                        }
                        read_continuation(&mut m, &x);
                        Ok(Some(Message::Text(m)))
                    },
                    RawMessage::RawConnection(_) => {
                        self.phase = Phase::Accumulating(m);
                        Err(ProtocolError::UnfinishedMessage(MessageType::Connection))
                    },
                    RawMessage::RawText(t, _) => {
                        self.phase = Phase::Accumulating(m);
                        Err(ProtocolError::UnfinishedMessage(t))
                    },
                }
            },
        }
    }

    /// Decodes the packet at the front of `packet` and takes it as the next
    /// record of this connection. A packet that cannot be decoded leaves the
    /// state as it was.
    pub fn read_packet(&mut self, packet: &[u8]) -> (r: Result<Option<Message>, ProtocolError>)
        ensures
            decode_error(packet@) matches Some(e) ==> r == Err::<Option<Message>, ProtocolError>(
                ProtocolError::Decode(e),
            ) && final(self)@ == old(self)@,
            decode_error(packet@) is None ==> exists|m: RawMessage|
                #![trigger decodes_to(packet@, m)]
                decodes_to(packet@, m) && (final(self)@, outcome_view(r)) == step(old(self)@, m),
    {
        match read_raw_packet(packet) {
            Ok(raw) => {
                let ghost m = raw;
                let r = self.accept(raw);
                assert(decodes_to(packet@, m));
                r
            },
            Err(e) => Err(ProtocolError::Decode(e)),
        }
    }
}

/// The state after records `rs`, in order, and the messages they complete,
/// or the first violation among them.
pub open spec fn feed(s: StateModel, rs: Seq<RawMessage>) -> (
    StateModel,
    Result<Seq<MessageModel>, ProtocolError>,
)
    decreases rs.len(),
{
    if rs.len() == 0 {
        (s, Ok(Seq::empty()))
    } else {
        let (s1, before) = feed(s, rs.drop_last());
        match before {
            Err(e) => (s1, Err(e)),
            Ok(ms) => {
                let (s2, o) = step(s1, rs.last());
                match o {
                    Err(e) => (s2, Err(e)),
                    Ok(None) => (s2, Ok(ms)),
                    Ok(Some(m)) => (s2, Ok(ms.push(m))),
                }
            },
        }
    }
}

/// The texts of fragments `xs`, joined in order with nothing between them.
pub open spec fn joined(xs: Seq<RawTextMessage>) -> Seq<char>
    decreases xs.len(),
{
    if xs.len() == 0 {
        Seq::empty()
    } else {
        joined(xs.drop_last()) + field_text(xs.last().message@)
    }
}

/// Continuation records for fragments `xs`.
pub open spec fn continuations(xs: Seq<RawTextMessage>) -> Seq<RawMessage> {
    Seq::new(xs.len(), |i: int| RawMessage::RawText(MessageType::Continuation, xs[i]))
}

/// A Large record, continuation records, and a closing record.
pub open spec fn large_sequence(
    first: RawTextMessage,
    middle: Seq<RawTextMessage>,
    last: RawTextMessage,
) -> Seq<RawMessage> {
    seq![RawMessage::RawText(MessageType::Large, first)] + continuations(middle) + seq![
        RawMessage::RawText(MessageType::ContinuationEnd, last),
    ]
}

/// In a connection packet whose two text fields are valid UTF-8 before their
/// first NUL, each decoded text, written back as UTF-8, is the field's bytes
/// before the NUL; and written into a field of the same width, it decodes to
/// the same text again.
pub proof fn lemma_connection_text_round_trip(p: Seq<u8>, c: RawConnectionMessage)
    requires
        decodes_to(p, RawMessage::RawConnection(c)),
        valid_utf8(until_nul(c.machine_name@)),
        valid_utf8(until_nul(c.executable_path@)),
    ensures
        encode_utf8(connection_model(c).machine_name) == until_nul(
            field_at(p, CONN_MACHINE_AT, CONN_MACHINE_LEN),
        ),
        encode_utf8(connection_model(c).executable_path) == until_nul(
            field_at(p, CONN_PATH_AT, CONN_PATH_LEN),
        ),
        field_text(fixed_field(connection_model(c).machine_name, CONN_MACHINE_LEN as nat))
            == connection_model(c).machine_name,
        field_text(fixed_field(connection_model(c).executable_path, CONN_PATH_LEN as nat))
            == connection_model(c).executable_path,
{
    lemma_text_field_round_trip(c.machine_name@);
    lemma_text_field_round_trip(c.executable_path@);
}

/// A Simple record on an idle connection of version 1 yields at once the
/// message it holds: its `message` is exactly the fragment's text.
pub proof fn lemma_simple_record_is_whole(s: StateModel, x: RawTextMessage)
    requires
        s.phase == PhaseModel::Idle,
        s.version == 1,
    ensures
        step(s, RawMessage::RawText(MessageType::Simple, x)) == (s, Ok::<
            Option<MessageModel>,
            ProtocolError,
        >(Some(MessageModel::Text(text_model(x))))),
        text_model(x).message == field_text(x.message@),
{
}

proof fn lemma_continuations_accumulate(s: StateModel, first: RawTextMessage, middle: Seq<RawTextMessage>)
    requires
        s.phase == PhaseModel::Idle,
    ensures
        feed(s, seq![RawMessage::RawText(MessageType::Large, first)] + continuations(middle)) == (
            StateModel {
                phase: PhaseModel::Accumulating(
                    TextModel { message: field_text(first.message@) + joined(middle), ..text_model(first) },
                ),
                ..s
            },
            Ok::<Seq<MessageModel>, ProtocolError>(Seq::empty()),
        ),
    decreases middle.len(),
{
    let rs = seq![RawMessage::RawText(MessageType::Large, first)] + continuations(middle);
    if middle.len() == 0 {
        assert(rs.drop_last() =~= Seq::<RawMessage>::empty());
        assert(rs.last() == RawMessage::RawText(MessageType::Large, first));
        assert(feed(s, rs.drop_last()) == (s, Ok::<Seq<MessageModel>, ProtocolError>(Seq::empty())));
        assert(field_text(first.message@) + joined(middle) =~= field_text(first.message@));
    } else {
        let shorter = middle.drop_last();
        lemma_continuations_accumulate(s, first, shorter);
        assert(rs.drop_last() =~= seq![RawMessage::RawText(MessageType::Large, first)]
            + continuations(shorter));
        assert(field_text(first.message@) + joined(middle) =~= field_text(first.message@)
            + joined(shorter) + field_text(middle.last().message@));
        assert(rs.last() == RawMessage::RawText(MessageType::Continuation, middle.last()));
    }
}

/// A Large record, any number of Continuation records and a ContinuationEnd
/// record, on an idle connection of version 1, yield one message: the Large
/// record's fields, with the texts of all fragments joined in arrival order
/// and nothing between them. The connection is idle again afterwards.
pub proof fn lemma_large_message_joins_fragments(
    s: StateModel,
    first: RawTextMessage,
    middle: Seq<RawTextMessage>,
    last: RawTextMessage,
)
    requires
        s.phase == PhaseModel::Idle,
        s.version == 1,
    ensures
        feed(s, large_sequence(first, middle, last)) == (s, Ok::<Seq<MessageModel>, ProtocolError>(
            seq![
                MessageModel::Text(
                    TextModel {
                        message: field_text(first.message@) + joined(middle) + field_text(
                            last.message@,
                        ),
                        ..text_model(first)
                    },
                ),
            ],
        )),
{
    let rs = large_sequence(first, middle, last);
    lemma_continuations_accumulate(s, first, middle);
    assert(rs.drop_last() =~= seq![RawMessage::RawText(MessageType::Large, first)]
        + continuations(middle));
    assert(Seq::<MessageModel>::empty().push(
        MessageModel::Text(
            TextModel {
                message: field_text(first.message@) + joined(middle) + field_text(last.message@),
                ..text_model(first)
            },
        ),
    ) =~= seq![
        MessageModel::Text(
            TextModel {
                message: field_text(first.message@) + joined(middle) + field_text(last.message@),
                ..text_model(first)
            },
        ),
    ]);
}

/// A Continuation or ContinuationEnd record on an idle connection is a
/// violation: it is refused, never passed over.
pub proof fn lemma_continuation_while_idle_is_fatal(s: StateModel, t: MessageType, x: RawTextMessage)
    requires
        s.phase == PhaseModel::Idle,
        t == MessageType::Continuation || t == MessageType::ContinuationEnd,
    ensures
        step(s, RawMessage::RawText(t, x)).1 == Err::<Option<MessageModel>, ProtocolError>(
            ProtocolError::ContinuationWhileIdle(t),
        ),
{
}

/// A Connection, Simple or Large record while a message is in progress is a
/// violation.
pub proof fn lemma_new_record_while_accumulating_is_fatal(s: StateModel, r: RawMessage)
    requires
        s.phase is Accumulating,
        raw_wf(r),
        kind_of(r) == MessageType::Connection || kind_of(r) == MessageType::Simple || kind_of(r)
            == MessageType::Large,
    ensures
        step(s, r).1 == Err::<Option<MessageModel>, ProtocolError>(
            ProtocolError::UnfinishedMessage(kind_of(r)),
        ),
{
}

} // verus!
