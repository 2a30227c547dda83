use vstd::prelude::*;

use crate::frame::{InboundEvent, MessageData, MsgTypes, WebSocketMessage};
use crate::preference::{
    dark_mode_from_stored,
    dark_mode_of_stored,
    dark_mode_to_stored,
    lemma_stored_round_trip,
    stored_text,
    stored_view,
};

verus! {

/// The avatar service used unless another base is given.
pub const AVATAR_BASE: &'static str = "https://avatars.dicebear.com/api/adventurer-neutral";

/// The avatar address of `name` under the service at `base`.
pub open spec fn avatar_url_spec(base: Seq<char>, name: Seq<char>) -> Seq<char> {
    base + "/"@ + name + ".svg"@
}

/// Builds `<base>/<name>.svg`.
pub fn avatar_url(base: &str, name: &str) -> (r: String)
    ensures
        r@ == avatar_url_spec(base@, name@),
{
    let s = String::from_str(base);
    let s = s.concat("/");
    let s = s.concat(name);
    s.concat(".svg")
}

/// A connected user as the roster shows it.
#[derive(Clone, Debug, PartialEq, Eq)]
pub struct UserProfile {
    pub name: String,
    pub avatar: String,
}

/// What the screen reacts to.
pub enum Msg {
    /// An inbound frame; `None` where it could not be decoded.
    HandleMsg(Option<InboundEvent>),
    /// The user sends what the composition field holds.
    SubmitMessage,
    /// The user flips the theme.
    ToggleDarkMode,
}

/// What the surroundings must do after an update.
pub struct Effects {
    /// The screen has changed and is drawn again.
    pub rerender: bool,
    /// A frame to send over the websocket.
    pub outbound: Option<WebSocketMessage>,
    /// A text to store under the dark-mode key.
    pub persist: Option<String>,
}

/// The state of the chat screen.
pub struct Chat {
    pub users: Vec<UserProfile>,
    pub messages: Vec<MessageData>,
    pub dark_mode: bool,
    pub chat_input: String,
    pub avatar_base: String,
}

/// The abstract state: the roster's names, the thread, the theme flag and the
/// composition field.
pub struct ChatView {
    pub roster: Seq<Seq<char>>,
    pub messages: Seq<MessageData>,
    pub dark_mode: bool,
    pub input: Seq<char>,
}

/// The texts of a list of names.
pub open spec fn names_view(names: Seq<String>) -> Seq<Seq<char>> {
    names.map_values(|n: String| n@)
}

impl View for Chat {
    type V = ChatView;

    open spec fn view(&self) -> ChatView {
        ChatView {
            roster: self.users@.map_values(|u: UserProfile| u.name@),
            messages: self.messages@,
            dark_mode: self.dark_mode,
            input: self.chat_input@,
        }
    }
}

/// The roster snapshot a message carries, if it is a `users` event.
pub open spec fn snapshot_of(m: Msg) -> Option<Seq<Seq<char>>> {
    match m {
        Msg::HandleMsg(Some(InboundEvent::Users(names))) => Some(names_view(names@)),
        _ => None,
    }
}

/// The chat message a message carries, if it is a valid `message` event.
pub open spec fn message_of(m: Msg) -> Option<MessageData> {
    match m {
        Msg::HandleMsg(Some(InboundEvent::Message(d))) => Some(d),
        _ => None,
    }
}

/// The state after one message: a snapshot replaces the roster, a chat
/// message is appended, a submit empties the field, a toggle flips the theme;
/// anything else leaves the state as it was.
pub open spec fn next(s: ChatView, m: Msg) -> ChatView {
    match m {
        Msg::HandleMsg(Some(InboundEvent::Users(names))) => ChatView {
            roster: names_view(names@),
            ..s
        },
        Msg::HandleMsg(Some(InboundEvent::Message(d))) => ChatView {
            messages: s.messages.push(d),
            ..s
        },
        Msg::HandleMsg(_) => s,
        Msg::SubmitMessage => ChatView { input: Seq::empty(), ..s },
        Msg::ToggleDarkMode => ChatView { dark_mode: !s.dark_mode, ..s },
    }
}

/// Whether a message changes what is drawn.
pub open spec fn rerenders(m: Msg) -> bool {
    match m {
        Msg::HandleMsg(Some(InboundEvent::Users(_))) => true,
        Msg::HandleMsg(Some(InboundEvent::Message(_))) => true,
        Msg::HandleMsg(_) => false,
        Msg::SubmitMessage => false,
        Msg::ToggleDarkMode => true,
    }
}

/// The state after a sequence of messages, taken in order.
pub open spec fn run(s: ChatView, msgs: Seq<Msg>) -> ChatView
    decreases msgs.len(),
{
    if msgs.len() == 0 {
        s
    } else {
        next(run(s, msgs.drop_last()), msgs.last())
    }
}

/// The chat messages carried by a sequence of messages, in order.
pub open spec fn received(msgs: Seq<Msg>) -> Seq<MessageData>
    decreases msgs.len(),
{
    if msgs.len() == 0 {
        Seq::empty()
    } else {
        let r = received(msgs.drop_last());
        match message_of(msgs.last()) {
            Some(d) => r.push(d),
            None => r,
        }
    }
}

/// Whether `f` is the outbound frame that sends `text`.
pub open spec fn is_message_frame(f: WebSocketMessage, text: Seq<char>) -> bool {
    &&& f.message_type == MsgTypes::Message
    &&& f.data_array is None
    &&& f.data is Some
    &&& f.data.unwrap()@ == text
}

impl Chat {
    /// Every user's avatar is the one derived from its name.
    pub open spec fn wf(&self) -> bool {
        forall|i: int|
            #![trigger self.users@[i]]
            0 <= i < self.users@.len() ==> self.users@[i].avatar@ == avatar_url_spec(
                self.avatar_base@,
                self.users@[i].name@,
            )
    }

    /// A fresh screen for `username`, with avatars under `avatar_base` and the
    /// theme read from the stored preference; also the frame that registers
    /// the user.
    pub fn create_with_avatar_base(username: &str, stored: Option<&str>, avatar_base: String) -> (r:
        (Chat, WebSocketMessage))
        ensures
            r.0@ == (ChatView {
                roster: Seq::empty(),
                messages: Seq::empty(),
                dark_mode: dark_mode_of_stored(stored_view(stored)),
                input: Seq::empty(),
            }),
            r.0.avatar_base == avatar_base,
            r.0.wf(),
            r.1.message_type == MsgTypes::Register,
            r.1.data is Some,
            r.1.data.unwrap()@ == username@,
            r.1.data_array is None,
    {
        let chat = Chat {
            users: Vec::new(),
            messages: Vec::new(),
            dark_mode: dark_mode_from_stored(stored),
            chat_input: String::new(),
            avatar_base,
        };
        assert(chat@.roster =~= Seq::empty());
        (chat, WebSocketMessage::register(username))
    }

    /// A fresh screen for `username` with the default avatar service.
    pub fn create(username: &str, stored: Option<&str>) -> (r: (Chat, WebSocketMessage))
        ensures
            r.0@ == (ChatView {
                roster: Seq::empty(),
                messages: Seq::empty(),
                dark_mode: dark_mode_of_stored(stored_view(stored)),
                input: Seq::empty(),
            }),
            r.0.avatar_base@ == AVATAR_BASE@,
            r.0.wf(),
            r.1.message_type == MsgTypes::Register,
            r.1.data is Some,
            r.1.data.unwrap()@ == username@,
            r.1.data_array is None,
    {
        Chat::create_with_avatar_base(username, stored, String::from_str(AVATAR_BASE))
    }

    /// Puts `text` in the composition field.
    pub fn set_input(&mut self, text: String)
        ensures
            final(self)@ == (ChatView { input: text@, ..old(self)@ }),
            final(self).users == old(self).users,
            final(self).avatar_base == old(self).avatar_base,
    {
        self.chat_input = text;
    }

    /// The roster for a snapshot: one profile per name, in order.
    fn profiles(&self, names: &Vec<String>) -> (r: Vec<UserProfile>)
        ensures
            r@.map_values(|u: UserProfile| u.name@) == names_view(names@),
            forall|j: int|
                #![trigger r@[j]]
                0 <= j < r@.len() ==> r@[j].avatar@ == avatar_url_spec(
                    self.avatar_base@,
                    r@[j].name@,
                ),
    {
        let mut users: Vec<UserProfile> = Vec::new();
        let mut i: usize = 0;
        while i < names.len()
            invariant
                i <= names@.len(),
                users@.len() == i,
                forall|j: int|
                    #![trigger users@[j]]
                    0 <= j < i ==> users@[j].name@ == names@[j]@ && users@[j].avatar@
                        == avatar_url_spec(self.avatar_base@, names@[j]@),
            decreases names@.len() - i,
        {
            let n = &names[i];
            let avatar = avatar_url(self.avatar_base.as_str(), n.as_str());
            users.push(UserProfile { name: n.clone(), avatar });
            i += 1;
        }
        assert(users@.map_values(|u: UserProfile| u.name@) =~= names_view(names@));
        users
    }

    /// Applies one message to the screen and says what must follow.
    pub fn update(&mut self, msg: Msg) -> (e: Effects)
        ensures
            final(self)@ == next(old(self)@, msg),
            final(self).avatar_base == old(self).avatar_base,
            old(self).wf() ==> final(self).wf(),
            snapshot_of(msg) is Some ==> final(self).wf(),
            e.rerender == rerenders(msg),
            msg is SubmitMessage <==> e.outbound is Some,
            msg is SubmitMessage ==> is_message_frame(e.outbound.unwrap(), old(self).chat_input@),
            msg is ToggleDarkMode <==> e.persist is Some,
            msg is ToggleDarkMode ==> e.persist.unwrap()@ == stored_text(final(self).dark_mode),
    {
        match msg {
            Msg::HandleMsg(Some(InboundEvent::Users(names))) => {
                let users = self.profiles(&names);
                self.users = users;
                Effects { rerender: true, outbound: None, persist: None }
            },
            Msg::HandleMsg(Some(InboundEvent::Message(d))) => {
                self.messages.push(d);
                Effects { rerender: true, outbound: None, persist: None }
            },
            Msg::HandleMsg(_) => Effects { rerender: false, outbound: None, persist: None },
            Msg::SubmitMessage => {
                let text = self.chat_input.clone();
                self.chat_input = String::new();
                let frame = WebSocketMessage::message(text);
                Effects { rerender: false, outbound: Some(frame), persist: None }
            },
            Msg::ToggleDarkMode => {
                self.dark_mode = !self.dark_mode;
                let stored = dark_mode_to_stored(self.dark_mode);
                Effects { rerender: true, outbound: None, persist: Some(stored) }
            },
        }
    }
}

/// After a non-empty sequence of roster snapshots the roster is exactly the
/// names of the last one: a snapshot replaces the roster, it never merges.
pub proof fn lemma_roster_is_last_snapshot(s: ChatView, msgs: Seq<Msg>)
    requires
        msgs.len() > 0,
        forall|i: int| 0 <= i < msgs.len() ==> (#[trigger] snapshot_of(msgs[i])) is Some,
    ensures
        run(s, msgs).roster == snapshot_of(msgs.last()).unwrap(),
{
    assert(snapshot_of(msgs[msgs.len() - 1]) is Some);
}

/// After any sequence of messages the thread is the earlier thread followed by
/// the payloads of the valid `message` events, in arrival order; it grows by
/// exactly their number.
pub proof fn lemma_thread_appends_in_order(s: ChatView, msgs: Seq<Msg>)
    ensures
        run(s, msgs).messages == s.messages + received(msgs),
        run(s, msgs).messages.len() == s.messages.len() + received(msgs).len(),
    decreases msgs.len(),
{
    if msgs.len() == 0 {
        assert(s.messages + received(msgs) =~= s.messages);
    } else {
        let earlier = received(msgs.drop_last());
        lemma_thread_appends_in_order(s, msgs.drop_last());
        match message_of(msgs.last()) {
            Some(d) => {
                assert(s.messages + earlier.push(d) =~= (s.messages + earlier).push(d));
            },
            None => {},
        }
    }
}

/// The text that a toggle stores reads back, at the next start, as the flag
/// that the toggle set.
pub proof fn lemma_toggle_persists(s: ChatView)
    ensures
        dark_mode_of_stored(Some(stored_text(next(s, Msg::ToggleDarkMode).dark_mode))) == next(
            s,
            Msg::ToggleDarkMode,
        ).dark_mode,
{
    lemma_stored_round_trip(next(s, Msg::ToggleDarkMode).dark_mode);
}

} // verus!
