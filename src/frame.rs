use vstd::prelude::*;

verus! {

/// The tag of a frame on the wire.
#[derive(Clone, Copy, Debug, PartialEq, Eq, Structural)]
pub enum MsgTypes {
    Users,
    Register,
    Message,
}

/// The payload of a chat message: who sent it and its body.
#[derive(Clone, Debug, PartialEq, Eq)]
pub struct MessageData {
    pub from: String,
    pub message: String,
}

/// One frame as it travels over the websocket.
#[derive(Clone, Debug, PartialEq, Eq)]
pub struct WebSocketMessage {
    pub message_type: MsgTypes,
    pub data_array: Option<Vec<String>>,
    pub data: Option<String>,
}

/// What an inbound frame means to the chat screen.
#[derive(Clone, Debug, PartialEq, Eq)]
pub enum InboundEvent {
    /// A full snapshot of the connected users' names.
    Users(Vec<String>),
    /// A chat message, in arrival order.
    Message(MessageData),
    /// A registration, which the screen only ever sends.
    Register,
}

/// The names carried by a frame's `data_array`, empty where it has none.
pub open spec fn names_of_frame(frame: WebSocketMessage) -> Seq<String> {
    match frame.data_array {
        Some(v) => v@,
        None => Seq::empty(),
    }
}

impl WebSocketMessage {
    /// The frame that announces `username` to the server.
    pub fn register(username: &str) -> (r: Self)
        ensures
            r.message_type == MsgTypes::Register,
            r.data is Some,
            r.data.unwrap()@ == username@,
            r.data_array is None,
    {
        WebSocketMessage {
            message_type: MsgTypes::Register,
            data_array: None,
            data: Some(username.to_owned()),
        }
    }

    /// The frame that sends `text` as a chat message, exactly as given.
    pub fn message(text: String) -> (r: Self)
        ensures
            r.message_type == MsgTypes::Message,
            r.data == Some(text),
            r.data_array is None,
    {
        WebSocketMessage { message_type: MsgTypes::Message, data_array: None, data: Some(text) }
    }
}

impl InboundEvent {
    /// Interprets a decoded frame. `payload` is the frame's `data` decoded as a
    /// message, where that succeeded. A `Message` frame without a payload is
    /// malformed and yields `None`; every other frame yields an event.
    pub fn decode(frame: WebSocketMessage, payload: Option<MessageData>) -> (r: Option<Self>)
        ensures
            frame.message_type == MsgTypes::Users ==> r is Some && r.unwrap() is Users
                && r.unwrap()->Users_0@ == names_of_frame(frame),
            frame.message_type == MsgTypes::Message ==> (r is Some <==> payload is Some),
            frame.message_type == MsgTypes::Message && payload is Some ==> r == Some(
                InboundEvent::Message(payload.unwrap()),
            ),
            frame.message_type == MsgTypes::Register ==> r == Some(InboundEvent::Register),
    {
        match frame.message_type {
            MsgTypes::Users => {
                let names = match frame.data_array {
                    Some(v) => v,
                    None => Vec::new(),
                };
                Some(InboundEvent::Users(names))
            },
            MsgTypes::Message => match payload {
                Some(m) => Some(InboundEvent::Message(m)),
                None => None,
            },
            MsgTypes::Register => Some(InboundEvent::Register),
        }
    }
}

} // verus!
