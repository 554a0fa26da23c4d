use vstd::prelude::*;

verus! {

/// A UTC instant: whole seconds since the Unix epoch and the nanoseconds
/// past that second.
#[derive(Clone, Copy, Debug, PartialEq, Eq)]
pub struct Timestamp {
    pub secs: i64,
    pub nanos: u32,
}

/// Relies on chrono's `Utc::now`, read back through `DateTime::timestamp` and
/// `DateTime::timestamp_subsec_nanos`: the current time of the system clock,
/// built from a `Duration`, whose sub-second part is under one second.
#[verifier::external_body]
pub(crate) fn now_utc() -> (r: Timestamp)
    ensures
        r.nanos < 1_000_000_000,
{
    let now = chrono::Utc::now();
    Timestamp { secs: now.timestamp(), nanos: now.timestamp_subsec_nanos() }
}

/// The text of each string of `v`.
pub open spec fn texts(v: Seq<String>) -> Seq<Seq<char>> {
    v.map_values(|s: String| s@)
}

/// A chat message: who wrote it, what it says and when it was made.
#[derive(Clone, Debug)]
pub struct ChatMessage {
    pub message: String,
    pub author: String,
    pub created_at: Timestamp,
}

/// The tag of an envelope; it decides which payload field is meaningful.
#[derive(Clone, Copy, Debug, PartialEq, Eq)]
pub enum WebSocketMessageType {
    NewMessage,
    UsersList,
    UsernameChange,
}

/// The one structure that crosses the wire in either direction.
#[derive(Clone, Debug)]
pub struct WebSocketMessage {
    pub message_type: WebSocketMessageType,
    pub message: Option<ChatMessage>,
    pub users: Option<Vec<String>>,
    pub username: Option<String>,
}

impl WebSocketMessage {
    /// A `new_message` envelope carrying exactly `m`.
    pub open spec fn carries_message(&self, m: ChatMessage) -> bool {
        &&& self.message_type == WebSocketMessageType::NewMessage
        &&& self.message == Some(m)
        &&& self.users is None
        &&& self.username is None
    }

    /// A `users_list` envelope carrying exactly the names `names`.
    pub open spec fn carries_users(&self, names: Seq<Seq<char>>) -> bool {
        &&& self.message_type == WebSocketMessageType::UsersList
        &&& self.message is None
        &&& self.users matches Some(u) && texts(u@) == names
        &&& self.username is None
    }

    /// A `username_change` envelope carrying exactly the name `name`.
    pub open spec fn carries_username(&self, name: Seq<char>) -> bool {
        &&& self.message_type == WebSocketMessageType::UsernameChange
        &&& self.message is None
        &&& self.users is None
        &&& self.username matches Some(u) && u@ == name
    }

    /// The envelope that announces a new chat message.
    pub fn new_message(m: ChatMessage) -> (r: WebSocketMessage)
        ensures
            r.carries_message(m),
    {
        WebSocketMessage {
            message_type: WebSocketMessageType::NewMessage,
            message: Some(m),
            users: None,
            username: None,
        }
    }

    /// The envelope that lists the names of all connections.
    pub fn users_list(users: Vec<String>) -> (r: WebSocketMessage)
        ensures
            r.carries_users(texts(users@)),
    {
        WebSocketMessage {
            message_type: WebSocketMessageType::UsersList,
            message: None,
            users: Some(users),
            username: None,
        }
    }

    /// The envelope that tells a connection its display name.
    pub fn username_change(name: String) -> (r: WebSocketMessage)
        ensures
            r.carries_username(name@),
    {
        WebSocketMessage {
            message_type: WebSocketMessageType::UsernameChange,
            message: None,
            users: None,
            username: Some(name),
        }
    }
}

/// One envelope and the connections it is sent to.
#[derive(Clone, Debug)]
pub struct Delivery {
    pub recipients: Vec<usize>,
    pub envelope: WebSocketMessage,
}

} // verus!
