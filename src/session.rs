//! The session state machine: one connection from connect to disconnect,
//! the roster and history it keeps, and the frames it sends.
use vstd::prelude::*;
use crate::history::{History, messages_view};
use crate::present::{MessageView, message_view, shows};
use crate::roster::{Roster, UserProfile, UserProfileV, profiles_view, roster_of};
use crate::wire::{
    decode, decoding, encode, json_string_fields, message_of_fields, msg_type_of, wire_name,
    ChatMessage, ChatMessageV, DecodeError, Envelope,
    EnvelopeV, Frame, FrameV, MsgTypes,
};

verus! {

/// Where a session is in its life. `Closed` is final.
#[derive(Clone, Copy, Debug, PartialEq, Eq, Structural)]
pub enum SessionState {
    Connecting,
    Open,
    Closed,
}

/// An event handed to the session.
#[derive(Clone, Debug)]
pub enum Msg {
    /// The channel has connected.
    Connected,
    /// The channel delivered a frame.
    HandleMsg(Envelope),
    /// The user asks to send a message with this body.
    SubmitMessage(String),
    /// The channel has disconnected, or the owner tears the session down.
    Disconnected,
}

/// An event as plain values.
pub enum MsgV {
    Connected,
    HandleMsg(EnvelopeV),
    SubmitMessage(Seq<char>),
    Disconnected,
}

impl View for Msg {
    type V = MsgV;

    open spec fn view(&self) -> MsgV {
        match self {
            Msg::Connected => MsgV::Connected,
            Msg::HandleMsg(e) => MsgV::HandleMsg(e@),
            Msg::SubmitMessage(body) => MsgV::SubmitMessage(body@),
            Msg::Disconnected => MsgV::Disconnected,
        }
    }
}

/// What the owner of the session is to do after an event.
#[derive(Clone, Debug)]
pub enum Effect {
    /// Nothing changed.
    Nothing,
    /// The roster or the history changed: show them again.
    Rerender,
    /// Send this frame on the channel.
    Send(Envelope),
    /// The frame was dropped as undecodable; report why.
    Dropped(DecodeError),
}

/// An effect as plain values.
pub enum EffectV {
    Nothing,
    Rerender,
    Send(EnvelopeV),
    Dropped(DecodeError),
}

impl View for Effect {
    type V = EffectV;

    open spec fn view(&self) -> EffectV {
        match self {
            Effect::Nothing => EffectV::Nothing,
            Effect::Rerender => EffectV::Rerender,
            Effect::Send(e) => EffectV::Send(e@),
            Effect::Dropped(err) => EffectV::Dropped(*err),
        }
    }
}

/// A session as plain values.
pub struct ChatV {
    pub state: SessionState,
    pub identity: Seq<char>,
    pub users: Seq<UserProfileV>,
    pub messages: Seq<ChatMessageV>,
}

/// The frame that registers `identity` with the server.
pub open spec fn register_frame(identity: Seq<char>) -> EnvelopeV {
    EnvelopeV { message_type: wire_name(MsgTypes::Register), data_array: None, data: Some(identity) }
}

/// The frame that sends a message with `body`.
pub open spec fn message_frame(body: Seq<char>) -> EnvelopeV {
    EnvelopeV { message_type: wire_name(MsgTypes::Message), data_array: None, data: Some(body) }
}

/// The state after a frame that arrives while the session is open, and the
/// effect.
pub open spec fn receive(s: ChatV, e: EnvelopeV) -> (ChatV, EffectV) {
    match decoding(e) {
        Err(err) => (s, EffectV::Dropped(err)),
        Ok(FrameV::Users(names)) => (ChatV { users: roster_of(names), ..s }, EffectV::Rerender),
        Ok(FrameV::Message(m)) => (ChatV { messages: s.messages.push(m), ..s }, EffectV::Rerender),
        Ok(FrameV::Register(_)) => (s, EffectV::Nothing),
    }
}

/// The state after an event, and the effect.
pub open spec fn step(s: ChatV, m: MsgV) -> (ChatV, EffectV) {
    match m {
        MsgV::Connected => if s.state == SessionState::Connecting {
            (ChatV { state: SessionState::Open, ..s }, EffectV::Send(register_frame(s.identity)))
        } else {
            (s, EffectV::Nothing)
        },
        MsgV::HandleMsg(e) => if s.state == SessionState::Open {
            receive(s, e)
        } else {
            (s, EffectV::Nothing)
        },
        MsgV::SubmitMessage(body) => if s.state == SessionState::Open {
            (s, EffectV::Send(message_frame(body)))
        } else {
            (s, EffectV::Nothing)
        },
        MsgV::Disconnected => (ChatV { state: SessionState::Closed, ..s }, EffectV::Nothing),
    }
}

/// The state after a run of events.
pub open spec fn run(s: ChatV, events: Seq<MsgV>) -> ChatV
    decreases events.len(),
{
    if events.len() == 0 {
        s
    } else {
        step(run(s, events.drop_last()), events.last()).0
    }
}

/// A chat session: the local user's name, the connection's state, the
/// roster and the history.
pub struct Chat {
    state: SessionState,
    identity: String,
    users: Roster,
    messages: History,
}

impl View for Chat {
    type V = ChatV;

    closed spec fn view(&self) -> ChatV {
        ChatV {
            state: self.state,
            identity: self.identity@,
            users: self.users@,
            messages: self.messages@,
        }
    }
}

impl Chat {
    /// A new session for the user `identity`, waiting for its connection.
    pub fn create(identity: String) -> (r: Chat)
        ensures
            r@ == (ChatV {
                state: SessionState::Connecting,
                identity: identity@,
                users: Seq::empty(),
                messages: Seq::empty(),
            }),
    {
        Chat { state: SessionState::Connecting, identity, users: Roster::new(), messages: History::new() }
    }

    /// Handles one event: on connect the session opens and registers its
    /// user; frames and submissions count only while it is open; a
    /// disconnect closes it for good.
    pub fn update(&mut self, msg: Msg) -> (r: Effect)
        ensures
            (final(self)@, r@) == step(old(self)@, msg@),
    {
        match msg {
            Msg::Connected => {
                if self.state == SessionState::Connecting {
                    self.state = SessionState::Open;
                    match encode(MsgTypes::Register, Some(self.identity.clone())) {
                        Ok(e) => Effect::Send(e),
                        Err(_) => Effect::Nothing,
                    }
                } else {
                    Effect::Nothing
                }
            },
            Msg::HandleMsg(e) => {
                if self.state == SessionState::Open {
                    match decode(&e) {
                        Err(err) => Effect::Dropped(err),
                        Ok(Frame::Users(names)) => {
                            self.users.replace(&names);
                            Effect::Rerender
                        },
                        Ok(Frame::Message(m)) => {
                            self.messages.append(m);
                            Effect::Rerender
                        },
                        Ok(Frame::Register(_)) => Effect::Nothing,
                    }
                } else {
                    Effect::Nothing
                }
            },
            Msg::SubmitMessage(body) => {
                if self.state == SessionState::Open {
                    match encode(MsgTypes::Message, Some(body)) {
                        Ok(e) => Effect::Send(e),
                        Err(_) => Effect::Nothing,
                    }
                } else {
                    Effect::Nothing
                }
            },
            Msg::Disconnected => {
                self.state = SessionState::Closed;
                Effect::Nothing
            },
        }
    }

    /// Where the session is in its life.
    pub fn state(&self) -> (r: SessionState)
        ensures
            r == self@.state,
    {
        self.state
    }

    /// The local user's name.
    pub fn identity(&self) -> (r: &String)
        ensures
            r@ == self@.identity,
    {
        &self.identity
    }

    /// The users connected now, as the latest users frame listed them.
    pub fn users(&self) -> (r: &Vec<UserProfile>)
        ensures
            profiles_view(r@) == self@.users,
    {
        self.users.current()
    }

    /// The messages received, oldest first.
    pub fn messages(&self) -> (r: &Vec<ChatMessage>)
        ensures
            messages_view(r@) == self@.messages,
    {
        self.messages.all()
    }

    /// Each message of the history as it is to be shown, oldest first.
    pub fn message_views(&self) -> (r: Vec<MessageView>)
        ensures
            r.len() == self@.messages.len(),
            forall|i: int|
                0 <= i < r.len() ==> shows(#[trigger] r@[i], self@.messages[i], self@.users),
    {
        let all = self.messages.all();
        let mut r: Vec<MessageView> = Vec::new();
        let mut i: usize = 0;
        while i < all.len()
            invariant
                i <= all.len(),
                r.len() == i,
                messages_view(all@) == self@.messages,
                forall|j: int|
                    0 <= j < i ==> shows(#[trigger] r@[j], self@.messages[j], self@.users),
            decreases all.len() - i,
        {
            let v = message_view(&self.users, &all[i]);
            assert(self@.messages[i as int] == all@[i as int]@);
            r.push(v);
            i = i + 1;
        }
        r
    }
}

/// Whether the event is a frame delivered by the channel.
pub open spec fn is_frame(m: MsgV) -> bool {
    m is HandleMsg
}

/// Whether the event is a users frame.
pub open spec fn is_users_frame(m: MsgV) -> bool {
    match m {
        MsgV::HandleMsg(e) => msg_type_of(e.message_type) == Some(MsgTypes::Users),
        _ => false,
    }
}

/// The names that a users frame lists.
pub open spec fn listed_names(m: MsgV) -> Seq<Seq<char>> {
    match m {
        MsgV::HandleMsg(e) => match e.data_array {
            Some(names) => names,
            None => Seq::empty(),
        },
        _ => Seq::empty(),
    }
}

/// Whether the event is a message frame that decodes.
pub open spec fn is_message_frame(m: MsgV) -> bool {
    match m {
        MsgV::HandleMsg(e) => decoding(e) matches Ok(FrameV::Message(_)),
        _ => false,
    }
}

/// The chat message that a message frame carries.
pub open spec fn carried_message(m: MsgV) -> ChatMessageV {
    match m {
        MsgV::HandleMsg(e) => match decoding(e) {
            Ok(FrameV::Message(c)) => c,
            _ => ChatMessageV { from: Seq::empty(), body: Seq::empty() },
        },
        _ => ChatMessageV { from: Seq::empty(), body: Seq::empty() },
    }
}

/// Frames never move a session from one state of its life to another, nor
/// change whose session it is.
pub proof fn lemma_frames_keep_state(s: ChatV, events: Seq<MsgV>)
    requires
        forall|i: int| 0 <= i < events.len() ==> is_frame(#[trigger] events[i]),
    ensures
        run(s, events).state == s.state,
        run(s, events).identity == s.identity,
    decreases events.len(),
{
    if events.len() > 0 {
        lemma_frames_keep_state(s, events.drop_last());
    }
}

/// After each users frame of a run of them on an open session, the roster is
/// exactly the distinct users that this frame lists, in order of first
/// occurrence, whatever the roster held before.
pub proof fn lemma_roster_follows_latest_users_frame(s: ChatV, events: Seq<MsgV>, k: int)
    requires
        s.state == SessionState::Open,
        0 <= k < events.len(),
        forall|i: int| 0 <= i < events.len() ==> is_users_frame(#[trigger] events[i]),
    ensures
        run(s, events.take(k + 1)).users == roster_of(listed_names(events[k])),
{
    assert(events.take(k + 1).drop_last() =~= events.take(k));
    assert forall|i: int| 0 <= i < events.take(k).len() implies is_frame(#[trigger] events.take(k)[i]) by {
        assert(is_users_frame(events[i]));
    }
    lemma_frames_keep_state(s, events.take(k));
    assert(events.take(k + 1).last() == events[k]);
}

/// A run of valid message frames on an open session appends their messages
/// to the history, one each, in order of arrival, whatever the roster holds.
pub proof fn lemma_history_in_arrival_order(s: ChatV, events: Seq<MsgV>)
    requires
        s.state == SessionState::Open,
        forall|i: int| 0 <= i < events.len() ==> is_message_frame(#[trigger] events[i]),
    ensures
        run(s, events).messages == s.messages + events.map_values(|m: MsgV| carried_message(m)),
        run(s, events).messages.len() == s.messages.len() + events.len(),
    decreases events.len(),
{
    if events.len() > 0 {
        let init = events.drop_last();
        assert forall|i: int| 0 <= i < init.len() implies is_message_frame(#[trigger] init[i]) by {
            assert(init[i] == events[i]);
        }
        lemma_history_in_arrival_order(s, init);
        assert forall|i: int| 0 <= i < init.len() implies is_frame(#[trigger] init[i]) by {
            assert(is_message_frame(init[i]));
        }
        lemma_frames_keep_state(s, init);
        assert(is_message_frame(events[events.len() - 1]));
        assert(s.messages + events.map_values(|m: MsgV| carried_message(m)) =~= (s.messages
            + init.map_values(|m: MsgV| carried_message(m))).push(carried_message(events.last())));
    } else {
        assert(s.messages + events.map_values(|m: MsgV| carried_message(m)) =~= s.messages);
    }
}

/// A frame whose kind this protocol does not know changes neither the roster
/// nor the history, nor anything else of the session.
pub proof fn lemma_unknown_type_changes_nothing(s: ChatV, e: EnvelopeV)
    requires
        msg_type_of(e.message_type) is None,
    ensures
        step(s, MsgV::HandleMsg(e)).0 == s,
        s.state == SessionState::Open ==> step(s, MsgV::HandleMsg(e)).1 == EffectV::Dropped(
            DecodeError::UnknownType,
        ),
{
}

/// A message frame whose nested payload is malformed is dropped: the history
/// stays as it was, and the effect reports the malformed payload.
pub proof fn lemma_malformed_payload_dropped(s: ChatV, e: EnvelopeV)
    requires
        msg_type_of(e.message_type) == Some(MsgTypes::Message),
        e.data is Some,
        match json_string_fields(e.data->Some_0) {
            None => true,
            Some(fields) => message_of_fields(fields) is Err,
        },
    ensures
        step(s, MsgV::HandleMsg(e)).0 == s,
        s.state == SessionState::Open ==> step(s, MsgV::HandleMsg(e)).1 == EffectV::Dropped(
            DecodeError::MalformedPayload,
        ),
{
}

/// A disconnect closes the session from any state, and once closed no event
/// changes it: stale frames are ignored.
pub proof fn lemma_closed_is_final(s: ChatV, events: Seq<MsgV>)
    ensures
        step(s, MsgV::Disconnected).0.state == SessionState::Closed,
        run(step(s, MsgV::Disconnected).0, events) == step(s, MsgV::Disconnected).0,
    decreases events.len(),
{
    if events.len() > 0 {
        lemma_closed_is_final(s, events.drop_last());
    }
}

} // verus!
