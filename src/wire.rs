//! The three-frame wire protocol: the envelope as plain values, and the
//! encoding and decoding of frames to and from it.
use vstd::prelude::*;

verus! {

/// The kind of a frame, as named by the envelope's `messageType` field.
#[derive(Clone, Copy, Debug, PartialEq, Eq, Structural)]
pub enum MsgTypes {
    Users,
    Register,
    Message,
}

/// The text that names a frame kind on the wire.
pub open spec fn wire_name(t: MsgTypes) -> Seq<char> {
    match t {
        MsgTypes::Users => seq!['u', 's', 'e', 'r', 's'],
        MsgTypes::Register => seq!['r', 'e', 'g', 'i', 's', 't', 'e', 'r'],
        MsgTypes::Message => seq!['m', 'e', 's', 's', 'a', 'g', 'e'],
    }
}

/// The frame kind that a `messageType` text names, if it names one.
pub open spec fn msg_type_of(s: Seq<char>) -> Option<MsgTypes> {
    if s == wire_name(MsgTypes::Users) {
        Some(MsgTypes::Users)
    } else if s == wire_name(MsgTypes::Register) {
        Some(MsgTypes::Register)
    } else if s == wire_name(MsgTypes::Message) {
        Some(MsgTypes::Message)
    } else {
        None
    }
}

impl MsgTypes {
    /// The wire name of this kind.
    pub fn wire_name(&self) -> (r: String)
        ensures
            r@ == wire_name(*self),
    {
        match self {
            MsgTypes::Users => {
                proof {
                    reveal_strlit("users");
                }
                String::from_str("users")
            },
            MsgTypes::Register => {
                proof {
                    reveal_strlit("register");
                }
                String::from_str("register")
            },
            MsgTypes::Message => {
                proof {
                    reveal_strlit("message");
                }
                String::from_str("message")
            },
        }
    }

    /// The kind that `s` names; `None` for any other text.
    pub fn from_wire_name(s: &String) -> (r: Option<MsgTypes>)
        ensures
            r == msg_type_of(s@),
    {
        let users = MsgTypes::Users.wire_name();
        let register = MsgTypes::Register.wire_name();
        let message = MsgTypes::Message.wire_name();
        if *s == users {
            Some(MsgTypes::Users)
        } else if *s == register {
            Some(MsgTypes::Register)
        } else if *s == message {
            Some(MsgTypes::Message)
        } else {
            None
        }
    }
}

/// One frame on the wire: the frame kind's name, and the two optional payload
/// fields. `message_type` is kept as text so that a kind this protocol does not
/// know can still be represented, and rejected.
#[derive(Clone, Debug)]
pub struct Envelope {
    pub message_type: String,
    pub data_array: Option<Vec<String>>,
    pub data: Option<String>,
}

/// An envelope as plain values.
pub struct EnvelopeV {
    pub message_type: Seq<char>,
    pub data_array: Option<Seq<Seq<char>>>,
    pub data: Option<Seq<char>>,
}

impl View for Envelope {
    type V = EnvelopeV;

    open spec fn view(&self) -> EnvelopeV {
        EnvelopeV {
            message_type: self.message_type@,
            data_array: self.data_array.deep_view(),
            data: self.data.deep_view(),
        }
    }
}

/// A chat message: who sent it, and what it says.
#[derive(Clone, Debug)]
pub struct ChatMessage {
    pub from: String,
    pub body: String,
}

/// A chat message as plain values.
pub struct ChatMessageV {
    pub from: Seq<char>,
    pub body: Seq<char>,
}

impl View for ChatMessage {
    type V = ChatMessageV;

    open spec fn view(&self) -> ChatMessageV {
        ChatMessageV { from: self.from@, body: self.body@ }
    }
}

/// A decoded frame.
#[derive(Clone, Debug)]
pub enum Frame {
    /// The names of the users now connected, in the server's order.
    Users(Vec<String>),
    /// A user's registration under a name.
    Register(String),
    /// A chat message.
    Message(ChatMessage),
}

/// A decoded frame as plain values.
pub enum FrameV {
    Users(Seq<Seq<char>>),
    Register(Seq<char>),
    Message(ChatMessageV),
}

impl View for Frame {
    type V = FrameV;

    open spec fn view(&self) -> FrameV {
        match self {
            Frame::Users(names) => FrameV::Users(names.deep_view()),
            Frame::Register(name) => FrameV::Register(name@),
            Frame::Message(m) => FrameV::Message(m@),
        }
    }
}

/// Why an envelope could not be decoded.
#[derive(Clone, Copy, Debug, PartialEq, Eq, Structural)]
pub enum DecodeError {
    /// `messageType` names no kind of this protocol.
    UnknownType,
    /// A register or message frame without its `data` field.
    MissingData,
    /// The nested payload of a message frame is not an object of strings
    /// holding `from` and `message`.
    MalformedPayload,
}

/// Why a frame could not be encoded.
#[derive(Clone, Copy, Debug, PartialEq, Eq, Structural)]
pub enum EncodeError {
    /// The payload that the frame kind carries is absent.
    MissingPayload,
    /// Users frames come from the server and are never sent.
    NotOutbound,
}

/// The envelope that carries an outbound frame of kind `t` with payload `data`.
pub open spec fn encoding(t: MsgTypes, data: Option<Seq<char>>) -> Result<EnvelopeV, EncodeError> {
    if t == MsgTypes::Users {
        Err(EncodeError::NotOutbound)
    } else {
        match data {
            None => Err(EncodeError::MissingPayload),
            Some(d) => Ok(EnvelopeV { message_type: wire_name(t), data_array: None, data: Some(d) }),
        }
    }
}

/// Builds the envelope of an outbound frame: a register frame carries the
/// user's name, a message frame the message body, both in `data`.
pub fn encode(t: MsgTypes, data: Option<String>) -> (r: Result<Envelope, EncodeError>)
    ensures
        match r {
            Ok(e) => encoding(t, data.deep_view()) == Ok::<EnvelopeV, EncodeError>(e@),
            Err(err) => encoding(t, data.deep_view()) == Err::<EnvelopeV, EncodeError>(err),
        },
{
    if t == MsgTypes::Users {
        return Err(EncodeError::NotOutbound);
    }
    match data {
        None => Err(EncodeError::MissingPayload),
        Some(d) => Ok(Envelope { message_type: t.wire_name(), data_array: None, data: Some(d) }),
    }
}

/// The fields of a JSON object whose values are all strings, in the order of
/// their keys; `None` where the text is no such object. The outcome depends on
/// the text alone.
pub uninterp spec fn json_string_fields(s: Seq<char>) -> Option<Seq<(Seq<char>, Seq<char>)>>;

/// Relies on `serde_json::from_str` into a `BTreeMap<String, String>`: it reads
/// a JSON object of string values, or fails; the map hands out its entries.
#[verifier::external_body]
fn read_string_fields(s: &String) -> (r: Option<Vec<(String, String)>>)
    ensures
        r.deep_view() == json_string_fields(s@),
{
    match serde_json::from_str::<std::collections::BTreeMap<String, String>>(s) {
        Ok(m) => Some(m.into_iter().collect()),
        Err(_) => None,
    }
}

/// The value of the first field named `key`.
pub open spec fn field_value(fields: Seq<(Seq<char>, Seq<char>)>, key: Seq<char>) -> Option<Seq<char>>
    decreases fields.len(),
{
    if fields.len() == 0 {
        None
    } else if fields[0].0 == key {
        Some(fields[0].1)
    } else {
        field_value(fields.drop_first(), key)
    }
}

/// The key of the sender in a message payload.
pub open spec fn from_key() -> Seq<char> {
    seq!['f', 'r', 'o', 'm']
}

/// The key of the body in a message payload.
pub open spec fn message_key() -> Seq<char> {
    seq!['m', 'e', 's', 's', 'a', 'g', 'e']
}

/// The chat message that payload fields describe.
pub open spec fn message_of_fields(fields: Seq<(Seq<char>, Seq<char>)>) -> Result<ChatMessageV, DecodeError> {
    match (field_value(fields, from_key()), field_value(fields, message_key())) {
        (Some(from), Some(body)) => Ok(ChatMessageV { from, body }),
        _ => Err(DecodeError::MalformedPayload),
    }
}

/// The value of the first field named `key`, if any.
pub fn find_field(fields: &Vec<(String, String)>, key: &String) -> (r: Option<String>)
    ensures
        r.deep_view() == field_value(fields.deep_view(), key@),
{
    let mut i: usize = 0;
    assert(fields.deep_view().subrange(0, fields.len() as int) =~= fields.deep_view());
    while i < fields.len()
        invariant
            i <= fields.len(),
            field_value(fields.deep_view(), key@) == field_value(fields.deep_view().subrange(i as int, fields.len() as int), key@),
        decreases fields.len() - i,
    {
        let ghost rest = fields.deep_view().subrange(i as int, fields.len() as int);
        assert(rest.drop_first() =~= fields.deep_view().subrange(i + 1, fields.len() as int));
        if fields[i].0 == *key {
            return Some(fields[i].1.clone());
        }
        i = i + 1;
    }
    None
}

/// Reads a chat message from the fields of a message payload: both `from`
/// and `message` must be there.
pub fn message_from_fields(fields: &Vec<(String, String)>) -> (r: Result<ChatMessage, DecodeError>)
    ensures
        match r {
            Ok(m) => message_of_fields(fields.deep_view()) == Ok::<ChatMessageV, DecodeError>(m@),
            Err(e) => message_of_fields(fields.deep_view()) == Err::<ChatMessageV, DecodeError>(e),
        },
{
    proof {
        reveal_strlit("from");
        reveal_strlit("message");
    }
    let from_name = String::from_str("from");
    let message_name = String::from_str("message");
    assert(from_name@ =~= from_key());
    assert(message_name@ =~= message_key());
    let from = find_field(fields, &from_name);
    let body = find_field(fields, &message_name);
    match (from, body) {
        (Some(from), Some(body)) => Ok(ChatMessage { from, body }),
        _ => Err(DecodeError::MalformedPayload),
    }
}

/// What an envelope decodes to.
pub open spec fn decoding(e: EnvelopeV) -> Result<FrameV, DecodeError> {
    match msg_type_of(e.message_type) {
        None => Err(DecodeError::UnknownType),
        Some(MsgTypes::Users) => Ok(
            FrameV::Users(
                match e.data_array {
                    Some(names) => names,
                    None => Seq::empty(),
                },
            ),
        ),
        Some(MsgTypes::Register) => match e.data {
            Some(name) => Ok(FrameV::Register(name)),
            None => Err(DecodeError::MissingData),
        },
        Some(MsgTypes::Message) => match e.data {
            None => Err(DecodeError::MissingData),
            Some(payload) => match json_string_fields(payload) {
                None => Err(DecodeError::MalformedPayload),
                Some(fields) => match message_of_fields(fields) {
                    Ok(m) => Ok(FrameV::Message(m)),
                    Err(err) => Err(err),
                },
            },
        },
    }
}

/// The view of a decoding outcome.
pub open spec fn decoded_view(r: Result<Frame, DecodeError>) -> Result<FrameV, DecodeError> {
    match r {
        Ok(f) => Ok(f@),
        Err(e) => Err(e),
    }
}

/// Decodes an envelope. A users frame without `dataArray` lists nobody; a
/// message frame's `data` is itself a JSON object with `from` and `message`.
pub fn decode(e: &Envelope) -> (r: Result<Frame, DecodeError>)
    ensures
        decoded_view(r) == decoding(e@),
{
    match MsgTypes::from_wire_name(&e.message_type) {
        None => Err(DecodeError::UnknownType),
        Some(MsgTypes::Users) => match &e.data_array {
            Some(names) => Ok(Frame::Users(names.clone())),
            None => {
                let names: Vec<String> = Vec::new();
                assert(names.deep_view() =~= Seq::<Seq<char>>::empty());
                Ok(Frame::Users(names))
            },
        },
        Some(MsgTypes::Register) => match &e.data {
            Some(name) => Ok(Frame::Register(name.clone())),
            None => Err(DecodeError::MissingData),
        },
        Some(MsgTypes::Message) => match &e.data {
            None => Err(DecodeError::MissingData),
            Some(payload) => match read_string_fields(payload) {
                None => Err(DecodeError::MalformedPayload),
                Some(fields) => match message_from_fields(&fields) {
                    Ok(m) => Ok(Frame::Message(m)),
                    Err(err) => Err(err),
                },
            },
        },
    }
}

/// A register frame reads back as the registration it encodes.
pub proof fn lemma_register_round_trip(name: Seq<char>)
    ensures
        encoding(MsgTypes::Register, Some(name)) is Ok,
        decoding(encoding(MsgTypes::Register, Some(name))->Ok_0) == Ok::<FrameV, DecodeError>(
            FrameV::Register(name),
        ),
{
}

} // verus!
