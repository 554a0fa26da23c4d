use vstd::prelude::*;

use crate::protocol::{now_utc, ChatMessage, WebSocketMessage, WebSocketMessageType};

verus! {

/// What a client knows of the room: the messages it has seen, the latest
/// roster and its own display name (empty until the server assigns one).
pub struct ClientView {
    pub messages: Vec<ChatMessage>,
    pub users: Vec<String>,
    pub username: String,
}

impl ClientView {
    /// A client that has received nothing yet.
    pub fn new() -> (r: ClientView)
        ensures
            r.messages@.len() == 0,
            r.users@.len() == 0,
            r.username@.len() == 0,
    {
        ClientView { messages: Vec::new(), users: Vec::new(), username: String::new() }
    }

    /// Applies one envelope from the server: a new message is appended, a
    /// roster replaces the previous one, a name becomes the client's own. An
    /// envelope without the payload its tag calls for changes nothing.
    pub fn receive(&mut self, w: WebSocketMessage)
        ensures
            match w.message_type {
                WebSocketMessageType::NewMessage => match w.message {
                    Some(m) => final(self).messages@ == old(self).messages@.push(m)
                        && final(self).users == old(self).users
                        && final(self).username == old(self).username,
                    None => *final(self) == *old(self),
                },
                WebSocketMessageType::UsersList => match w.users {
                    Some(u) => final(self).users == u
                        && final(self).messages == old(self).messages
                        && final(self).username == old(self).username,
                    None => *final(self) == *old(self),
                },
                WebSocketMessageType::UsernameChange => match w.username {
                    Some(n) => final(self).username == n
                        && final(self).messages == old(self).messages
                        && final(self).users == old(self).users,
                    None => *final(self) == *old(self),
                },
            },
    {
        match w.message_type {
            WebSocketMessageType::NewMessage => {
                if let Some(m) = w.message {
                    self.messages.push(m);
                }
            },
            WebSocketMessageType::UsersList => {
                if let Some(u) = w.users {
                    self.users = u;
                }
            },
            WebSocketMessageType::UsernameChange => {
                if let Some(n) = w.username {
                    self.username = n;
                }
            },
        }
    }

    /// Whether the client may post: only once it knows its own name.
    pub fn can_send(&self) -> (r: bool)
        ensures
            r == (self.username@.len() > 0),
    {
        self.username.as_str().unicode_len() > 0
    }

    /// The envelope that posts `body` under the client's own name, stamped
    /// with the current time.
    pub fn compose_message(&self, body: String) -> (r: WebSocketMessage)
        ensures
            r.message_type == WebSocketMessageType::NewMessage,
            r.users is None,
            r.username is None,
            r.message matches Some(m) && m.author@ == self.username@ && m.message@ == body@,
    {
        let m = ChatMessage { message: body, author: self.username.clone(), created_at: now_utc() };
        WebSocketMessage::new_message(m)
    }

    /// The envelope that asks the server to rename this client to `name`.
    pub fn compose_rename(name: String) -> (r: WebSocketMessage)
        ensures
            r.carries_username(name@),
    {
        WebSocketMessage::username_change(name)
    }
}

} // verus!
