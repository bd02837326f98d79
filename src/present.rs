//! What the presentation layer shows of each message.
use vstd::prelude::*;
use crate::roster::Roster;
use crate::roster::UserProfileV;
use crate::wire::{ChatMessage, ChatMessageV};

verus! {

/// The suffix that marks a message body as the link of a picture.
pub open spec fn image_suffix() -> Seq<char> {
    seq!['.', 'g', 'i', 'f']
}

/// Whether the body ends in `.gif`.
pub open spec fn is_image_body(body: Seq<char>) -> bool {
    body.len() >= 4 && body.subrange(body.len() - 4, body.len() as int) == image_suffix()
}

/// Whether a message body is to be shown as a picture: it ends in `.gif`.
pub fn is_image(body: &String) -> (r: bool)
    ensures
        r == is_image_body(body@),
{
    let s = body.as_str();
    let n = s.unicode_len();
    if n < 4 {
        return false;
    }
    let r = s.get_char(n - 4) == '.' && s.get_char(n - 3) == 'g' && s.get_char(n - 2) == 'i'
        && s.get_char(n - 1) == 'f';
    assert(r == (body@.subrange(n - 4, n as int) =~= image_suffix()));
    r
}

/// One message as shown: its sender, the sender's avatar where the roster
/// lists the sender, its body, and whether the body is shown as a picture.
#[derive(Clone, Debug)]
pub struct MessageView {
    pub from: String,
    pub avatar: Option<String>,
    pub body: String,
    pub is_image: bool,
}

/// Whether `v` shows the message `m` to the users of `users`: the avatar is
/// that of the sender where the roster lists the sender, and absent where it
/// does not.
pub open spec fn shows(v: MessageView, m: ChatMessageV, users: Seq<UserProfileV>) -> bool {
    &&& v.from@ == m.from
    &&& v.body@ == m.body
    &&& v.is_image == is_image_body(m.body)
    &&& match v.avatar {
        Some(a) => exists|i: int|
            0 <= i < users.len() && users[i].name == m.from && users[i].avatar == a@,
        None => forall|i: int| 0 <= i < users.len() ==> users[i].name != m.from,
    }
}

/// How a message is shown, given the roster.
pub fn message_view(roster: &Roster, m: &ChatMessage) -> (r: MessageView)
    ensures
        shows(r, m@, roster@),
{
    MessageView {
        from: m.from.clone(),
        avatar: roster.avatar_for(&m.from),
        body: m.body.clone(),
        is_image: is_image(&m.body),
    }
}

} // verus!
