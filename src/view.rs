use vstd::prelude::*;

use crate::chat::{Chat, ChatView, Msg, UserProfile, next, run};
use crate::frame::MessageData;
use crate::preference::stored_text;

verus! {

/// The avatar shown beside a message whose sender is not on the roster.
pub const PLACEHOLDER_AVATAR: &'static str =
    "https://avatars.dicebear.com/api/adventurer-neutral/placeholder.svg";

/// The style classes of each part of the screen.
#[derive(Clone, Copy, Debug, PartialEq, Eq)]
pub struct Theme {
    pub main_bg: &'static str,
    pub sidebar_bg: &'static str,
    pub user_card_bg: &'static str,
    pub border_color: &'static str,
    pub message_bubble_bg: &'static str,
    pub input_bg: &'static str,
    pub header_text: &'static str,
    pub username_text: &'static str,
    pub message_text: &'static str,
    pub toggle_title: &'static str,
}

/// The theme drawn for a dark-mode flag.
pub open spec fn theme_spec(dark: bool) -> Theme {
    if dark {
        Theme {
            main_bg: "bg-gray-900 text-white",
            sidebar_bg: "bg-gray-800",
            user_card_bg: "bg-gray-700",
            border_color: "border-gray-700",
            message_bubble_bg: "bg-gray-800",
            input_bg: "bg-gray-700 text-white placeholder-gray-400",
            header_text: "text-blue-400",
            username_text: "text-blue-300",
            message_text: "text-gray-300",
            toggle_title: "Switch to Light Mode",
        }
    } else {
        Theme {
            main_bg: "bg-white text-black",
            sidebar_bg: "bg-gray-100",
            user_card_bg: "bg-white",
            border_color: "border-gray-300",
            message_bubble_bg: "bg-gray-100",
            input_bg: "bg-gray-100 text-gray-700 placeholder-gray-500",
            header_text: "text-blue-600",
            username_text: "text-blue-600",
            message_text: "text-gray-600",
            toggle_title: "Switch to Dark Mode",
        }
    }
}

/// The classes for the dark or the light theme.
pub fn theme(dark: bool) -> (r: Theme)
    ensures
        r == theme_spec(dark),
{
    if dark {
        Theme {
            main_bg: "bg-gray-900 text-white",
            sidebar_bg: "bg-gray-800",
            user_card_bg: "bg-gray-700",
            border_color: "border-gray-700",
            message_bubble_bg: "bg-gray-800",
            input_bg: "bg-gray-700 text-white placeholder-gray-400",
            header_text: "text-blue-400",
            username_text: "text-blue-300",
            message_text: "text-gray-300",
            toggle_title: "Switch to Light Mode",
        }
    } else {
        Theme {
            main_bg: "bg-white text-black",
            sidebar_bg: "bg-gray-100",
            user_card_bg: "bg-white",
            border_color: "border-gray-300",
            message_bubble_bg: "bg-gray-100",
            input_bg: "bg-gray-100 text-gray-700 placeholder-gray-500",
            header_text: "text-blue-600",
            username_text: "text-blue-600",
            message_text: "text-gray-600",
            toggle_title: "Switch to Dark Mode",
        }
    }
}

/// A body is drawn as an image when it ends with the literal suffix `.gif`.
pub open spec fn is_gif_body(body: Seq<char>) -> bool {
    body.len() >= 4 && body.subrange(body.len() - 4, body.len() as int) == seq!['.', 'g', 'i', 'f']
}

/// Whether `body` ends with `.gif`.
pub fn is_gif(body: &str) -> (r: bool)
    ensures
        r == is_gif_body(body@),
{
    let n = body.unicode_len();
    if n < 4 {
        return false;
    }
    let a = body.get_char(n - 4);
    let b = body.get_char(n - 3);
    let c = body.get_char(n - 2);
    let d = body.get_char(n - 1);
    let r = a == '.' && b == 'g' && c == 'i' && d == 'f';
    let ghost tail = body@.subrange(n - 4, n as int);
    assert(tail.len() == 4 && tail[0] == a && tail[1] == b && tail[2] == c && tail[3] == d);
    if r {
        assert(tail =~= seq!['.', 'g', 'i', 'f']);
    }
    r
}

/// The avatar of the first roster entry named `name`, if any.
pub open spec fn avatar_lookup(users: Seq<UserProfile>, name: Seq<char>) -> Option<Seq<char>>
    decreases users.len(),
{
    if users.len() == 0 {
        None
    } else if users[0].name@ == name {
        Some(users[0].avatar@)
    } else {
        avatar_lookup(users.drop_first(), name)
    }
}

/// The avatar beside a message from `name`: the roster's, or the placeholder.
pub open spec fn sender_avatar(users: Seq<UserProfile>, name: Seq<char>) -> Seq<char> {
    match avatar_lookup(users, name) {
        Some(a) => a,
        None => PLACEHOLDER_AVATAR@,
    }
}

/// Looks `name` up in the roster, falling back to the placeholder avatar.
pub fn avatar_for(users: &Vec<UserProfile>, name: &String) -> (r: String)
    ensures
        r@ == sender_avatar(users@, name@),
{
    let mut i: usize = 0;
    assert(users@.subrange(0, users@.len() as int) =~= users@);
    while i < users.len()
        invariant
            i <= users@.len(),
            avatar_lookup(users@, name@) == avatar_lookup(users@.subrange(i as int, users@.len() as int), name@),
        decreases users@.len() - i,
    {
        let ghost rest = users@.subrange(i as int, users@.len() as int);
        assert(rest.drop_first() =~= users@.subrange(i + 1, users@.len() as int));
        if users[i].name == *name {
            return users[i].avatar.clone();
        }
        i += 1;
    }
    String::from_str(PLACEHOLDER_AVATAR)
}

/// A message as drawn: sender, avatar, body and whether the body is an image.
#[derive(Clone, Debug, PartialEq, Eq)]
pub struct MessageView {
    pub from: String,
    pub avatar: String,
    pub body: String,
    pub is_image: bool,
}

/// How a message is drawn against a roster.
pub open spec fn message_view_ok(v: MessageView, users: Seq<UserProfile>, m: MessageData) -> bool {
    &&& v.from@ == m.from@
    &&& v.avatar@ == sender_avatar(users, m.from@)
    &&& v.body@ == m.message@
    &&& v.is_image == is_gif_body(m.message@)
}

/// Draws one message against the roster; never fails on an unknown sender.
pub fn render_message(users: &Vec<UserProfile>, m: &MessageData) -> (r: MessageView)
    ensures
        message_view_ok(r, users@, *m),
{
    MessageView {
        from: m.from.clone(),
        avatar: avatar_for(users, &m.from),
        body: m.message.clone(),
        is_image: is_gif(m.message.as_str()),
    }
}

impl Chat {
    /// The thread as drawn, one view per message, in order.
    pub fn message_views(&self) -> (r: Vec<MessageView>)
        ensures
            r@.len() == self.messages@.len(),
            forall|i: int|
                #![trigger r@[i]]
                0 <= i < r@.len() ==> message_view_ok(r@[i], self.users@, self.messages@[i]),
    {
        let mut out: Vec<MessageView> = Vec::new();
        let mut i: usize = 0;
        while i < self.messages.len()
            invariant
                i <= self.messages@.len(),
                out@.len() == i,
                forall|j: int|
                    #![trigger out@[j]]
                    0 <= j < i ==> message_view_ok(out@[j], self.users@, self.messages@[j]),
            decreases self.messages@.len() - i,
        {
            let v = render_message(&self.users, &self.messages[i]);
            out.push(v);
            i += 1;
        }
        out
    }

    /// The theme for the current flag.
    pub fn theme(&self) -> (r: Theme)
        ensures
            r == theme_spec(self.dark_mode),
    {
        theme(self.dark_mode)
    }
}

/// Flipping the theme twice gives back the state it started from, and with it
/// the drawn theme and the stored preference text.
pub proof fn lemma_toggle_twice(s: ChatView)
    ensures
        run(s, seq![Msg::ToggleDarkMode, Msg::ToggleDarkMode]) == s,
        theme_spec(run(s, seq![Msg::ToggleDarkMode, Msg::ToggleDarkMode]).dark_mode) == theme_spec(
            s.dark_mode,
        ),
        stored_text(run(s, seq![Msg::ToggleDarkMode, Msg::ToggleDarkMode]).dark_mode)
            == stored_text(s.dark_mode),
{
    let one = seq![Msg::ToggleDarkMode];
    let two = seq![Msg::ToggleDarkMode, Msg::ToggleDarkMode];
    assert(one.drop_last() =~= Seq::<Msg>::empty());
    assert(run(s, one.drop_last()) == s);
    assert(run(s, one) == next(s, Msg::ToggleDarkMode));
    assert(two.drop_last() =~= one);
    assert(run(s, two) == next(next(s, Msg::ToggleDarkMode), Msg::ToggleDarkMode));
}

} // verus!
