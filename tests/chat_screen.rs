use yew_chat::chat::{avatar_url, Chat, Msg, UserProfile, AVATAR_BASE};
use yew_chat::frame::{InboundEvent, MessageData, MsgTypes, WebSocketMessage};
use yew_chat::preference::{dark_mode_from_stored, dark_mode_to_stored, DARK_MODE_KEY};
use yew_chat::view::{avatar_for, is_gif, render_message, theme, PLACEHOLDER_AVATAR};

fn users(names: &[&str]) -> Msg {
    Msg::HandleMsg(Some(InboundEvent::Users(names.iter().map(|n| n.to_string()).collect())))
}

fn message(from: &str, body: &str) -> Msg {
    Msg::HandleMsg(Some(InboundEvent::Message(MessageData {
        from: from.to_string(),
        message: body.to_string(),
    })))
}

fn fresh() -> Chat {
    Chat::create("me", None).0
}

fn roster(chat: &Chat) -> Vec<String> {
    chat.users.iter().map(|u| u.name.clone()).collect()
}

#[test]
fn roster_is_replaced_not_merged() {
    let mut chat = fresh();
    assert!(chat.update(users(&["a", "b"])).rerender);
    assert_eq!(roster(&chat), vec!["a".to_string(), "b".to_string()]);
    assert!(chat.update(users(&["c"])).rerender);
    assert_eq!(roster(&chat), vec!["c".to_string()]);
    assert_eq!(
        chat.users[0].avatar,
        "https://avatars.dicebear.com/api/adventurer-neutral/c.svg"
    );
}

#[test]
fn empty_snapshot_empties_roster() {
    let mut chat = fresh();
    chat.update(users(&["a"]));
    chat.update(users(&[]));
    assert!(chat.users.is_empty());
}

#[test]
fn messages_append_in_arrival_order() {
    let mut chat = fresh();
    chat.update(message("a", "hi"));
    chat.update(message("b", "yo"));
    let got: Vec<(String, String)> =
        chat.messages.iter().map(|m| (m.from.clone(), m.message.clone())).collect();
    assert_eq!(
        got,
        vec![("a".to_string(), "hi".to_string()), ("b".to_string(), "yo".to_string())]
    );
}

#[test]
fn malformed_frame_is_discarded() {
    let mut chat = fresh();
    chat.update(message("a", "hi"));
    let e = chat.update(Msg::HandleMsg(None));
    assert!(!e.rerender);
    assert!(e.outbound.is_none());
    assert!(e.persist.is_none());
    assert_eq!(chat.messages.len(), 1);
}

#[test]
fn register_event_changes_nothing() {
    let mut chat = fresh();
    let e = chat.update(Msg::HandleMsg(Some(InboundEvent::Register)));
    assert!(!e.rerender);
    assert!(chat.users.is_empty());
    assert!(chat.messages.is_empty());
}

#[test]
fn decode_users_frame() {
    let frame = WebSocketMessage {
        message_type: MsgTypes::Users,
        data_array: Some(vec!["x".to_string(), "y".to_string()]),
        data: None,
    };
    assert_eq!(
        InboundEvent::decode(frame, None),
        Some(InboundEvent::Users(vec!["x".to_string(), "y".to_string()]))
    );
    let bare = WebSocketMessage { message_type: MsgTypes::Users, data_array: None, data: None };
    assert_eq!(InboundEvent::decode(bare, None), Some(InboundEvent::Users(vec![])));
}

#[test]
fn decode_message_frame_needs_payload() {
    let frame = WebSocketMessage {
        message_type: MsgTypes::Message,
        data_array: None,
        data: Some("not json".to_string()),
    };
    assert_eq!(InboundEvent::decode(frame.clone(), None), None);
    let payload = MessageData { from: "a".to_string(), message: "hi".to_string() };
    assert_eq!(
        InboundEvent::decode(frame, Some(payload.clone())),
        Some(InboundEvent::Message(payload))
    );
}

#[test]
fn decode_register_frame() {
    let frame = WebSocketMessage::register("bob");
    assert_eq!(InboundEvent::decode(frame, None), Some(InboundEvent::Register));
}

#[test]
fn create_sends_register_frame() {
    let (chat, frame) = Chat::create("alice", None);
    assert_eq!(frame.message_type, MsgTypes::Register);
    assert_eq!(frame.data, Some("alice".to_string()));
    assert_eq!(frame.data_array, None);
    assert!(chat.users.is_empty());
    assert!(chat.messages.is_empty());
    assert!(!chat.dark_mode);
    assert_eq!(chat.avatar_base, AVATAR_BASE);
}

#[test]
fn submit_hello_sends_one_frame_and_clears_input() {
    let mut chat = fresh();
    chat.set_input("hello".to_string());
    let e = chat.update(Msg::SubmitMessage);
    assert_eq!(
        e.outbound,
        Some(WebSocketMessage {
            message_type: MsgTypes::Message,
            data_array: None,
            data: Some("hello".to_string()),
        })
    );
    assert_eq!(chat.chat_input, "");
    assert!(chat.messages.is_empty());
    assert!(!e.rerender);
    assert!(e.persist.is_none());
}

#[test]
fn submit_empty_input_is_sent_as_is() {
    let mut chat = fresh();
    let e = chat.update(Msg::SubmitMessage);
    assert_eq!(e.outbound.unwrap().data, Some(String::new()));
}

#[test]
fn toggle_twice_restores_theme_and_stored_value() {
    let mut chat = fresh();
    let before = chat.theme();
    let first = chat.update(Msg::ToggleDarkMode);
    assert!(chat.dark_mode);
    assert!(first.rerender);
    assert_eq!(first.persist, Some("true".to_string()));
    assert_ne!(chat.theme(), before);
    let second = chat.update(Msg::ToggleDarkMode);
    assert!(!chat.dark_mode);
    assert_eq!(second.persist, Some("false".to_string()));
    assert_eq!(chat.theme(), before);
}

#[test]
fn stored_preference_round_trips() {
    let mut chat = fresh();
    let stored = chat.update(Msg::ToggleDarkMode).persist.unwrap();
    assert_eq!(stored, "true");
    let (again, _) = Chat::create("me", Some(stored.as_str()));
    assert!(again.dark_mode);
}

#[test]
fn stored_preference_defaults_to_light() {
    assert!(!dark_mode_from_stored(None));
    assert!(!dark_mode_from_stored(Some("yes")));
    assert!(!dark_mode_from_stored(Some("false")));
    assert!(dark_mode_from_stored(Some("true")));
    assert_eq!(dark_mode_to_stored(true), "true");
    assert_eq!(dark_mode_to_stored(false), "false");
    assert_eq!(DARK_MODE_KEY, "dark_mode");
}

#[test]
fn gif_suffix_boundary() {
    assert!(is_gif("foo.gif"));
    assert!(!is_gif("foo.gif.txt"));
    assert!(!is_gif(""));
    assert!(is_gif(".gif"));
    assert!(!is_gif("gif"));
    assert!(!is_gif("foo.GIF"));
}

#[test]
fn avatar_url_is_derived_from_name() {
    assert_eq!(
        avatar_url(AVATAR_BASE, "bob"),
        "https://avatars.dicebear.com/api/adventurer-neutral/bob.svg"
    );
    assert_eq!(avatar_url("https://x.test", "a b"), "https://x.test/a b.svg");
}

#[test]
fn custom_avatar_base_is_used() {
    let (mut chat, _) =
        Chat::create_with_avatar_base("me", Some("true"), "https://x.test".to_string());
    assert!(chat.dark_mode);
    chat.update(users(&["zed"]));
    assert_eq!(chat.users[0].avatar, "https://x.test/zed.svg");
}

#[test]
fn unknown_sender_gets_placeholder() {
    let mut chat = fresh();
    chat.update(users(&["a"]));
    chat.update(message("ghost", "boo"));
    chat.update(message("a", "cat.gif"));
    let views = chat.message_views();
    assert_eq!(views.len(), 2);
    assert_eq!(views[0].from, "ghost");
    assert_eq!(views[0].avatar, PLACEHOLDER_AVATAR);
    assert_eq!(views[0].body, "boo");
    assert!(!views[0].is_image);
    assert_eq!(
        views[1].avatar,
        "https://avatars.dicebear.com/api/adventurer-neutral/a.svg"
    );
    assert!(views[1].is_image);
}

#[test]
fn first_matching_roster_entry_wins() {
    let roster = vec![
        UserProfile { name: "a".to_string(), avatar: "one".to_string() },
        UserProfile { name: "a".to_string(), avatar: "two".to_string() },
    ];
    assert_eq!(avatar_for(&roster, &"a".to_string()), "one");
    assert_eq!(avatar_for(&roster, &"b".to_string()), PLACEHOLDER_AVATAR);
    let m = MessageData { from: "a".to_string(), message: "foo.gif.txt".to_string() };
    let v = render_message(&roster, &m);
    assert_eq!(v.avatar, "one");
    assert!(!v.is_image);
}

#[test]
fn themes_differ_by_mode() {
    let dark = theme(true);
    let light = theme(false);
    assert_eq!(dark.main_bg, "bg-gray-900 text-white");
    assert_eq!(light.main_bg, "bg-white text-black");
    assert_eq!(dark.toggle_title, "Switch to Light Mode");
    assert_eq!(light.toggle_title, "Switch to Dark Mode");
    assert_eq!(light.input_bg, "bg-gray-100 text-gray-700 placeholder-gray-500");
}
