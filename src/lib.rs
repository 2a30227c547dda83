//! State and decisions of a chat screen: the roster of connected users, the
//! thread of messages, the composition field and the dark-mode preference,
//! driven by frames from a websocket and by user actions.

pub mod chat;
pub mod frame;
pub mod preference;
pub mod view;
