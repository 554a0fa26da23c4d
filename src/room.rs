use vstd::prelude::*;

use crate::protocol::{now_utc, texts, ChatMessage, Delivery, WebSocketMessage, WebSocketMessageType};
use crate::text::{
    default_name, default_username, join_notice_text, join_text, leave_notice_text, leave_text,
    rename_notice_text, rename_text, system_author, system_name,
};

verus! {

/// One admitted connection: its identifier and current display name.
pub struct ChatRoomConnection {
    pub id: usize,
    pub username: String,
}

/// The registry of live connections, kept in order of admission.
pub struct ChatRoom {
    connections: Vec<ChatRoomConnection>,
}

impl View for ChatRoom {
    type V = Seq<(usize, Seq<char>)>;

    closed spec fn view(&self) -> Seq<(usize, Seq<char>)> {
        self.connections@.map_values(|c: ChatRoomConnection| (c.id, c.username@))
    }
}

/// True when `id` is the identifier of some entry of `entries`.
pub open spec fn holds_id(entries: Seq<(usize, Seq<char>)>, id: usize) -> bool {
    exists|i: int| 0 <= i < entries.len() && entries[i].0 == id
}

/// A system notice with body `body`.
pub open spec fn is_notice(m: ChatMessage, body: Seq<char>) -> bool {
    m.author@ == system_author() && m.message@ == body
}

/// A `new_message` envelope carrying a system notice with body `body`.
pub open spec fn carries_notice(e: WebSocketMessage, body: Seq<char>) -> bool {
    &&& e.message_type == WebSocketMessageType::NewMessage
    &&& e.users is None
    &&& e.username is None
    &&& e.message matches Some(m) && is_notice(m, body)
}

/// Whatever admissions, evictions and renames led to it, a registry lists
/// exactly one name for each admitted identifier.
pub proof fn lemma_roster_counts_admitted(room: &ChatRoom)
    requires
        room.wf(),
    ensures
        room.roster().len() == room.admitted().len(),
{
    assert(room.ids().no_duplicates()) by {
        assert forall|i: int, j: int|
            0 <= i < room.ids().len() && 0 <= j < room.ids().len() && i != j implies
            room.ids()[i] != room.ids()[j] by {
            if i < j {
                assert(room@[i].0 != room@[j].0);
            } else {
                assert(room@[j].0 != room@[i].0);
            }
        }
    }
    room.ids().unique_seq_to_set();
}

impl ChatRoom {
    /// No identifier is admitted twice.
    pub open spec fn wf(&self) -> bool {
        forall|i: int, j: int|
            0 <= i < j < self@.len() ==> #[trigger] self@[i].0 != #[trigger] self@[j].0
    }

    /// The identifiers of the admitted connections, in order of admission.
    pub open spec fn ids(&self) -> Seq<usize> {
        self@.map_values(|e: (usize, Seq<char>)| e.0)
    }

    /// The display names of the admitted connections, in order of admission.
    pub open spec fn roster(&self) -> Seq<Seq<char>> {
        self@.map_values(|e: (usize, Seq<char>)| e.1)
    }

    /// The set of admitted identifiers.
    pub open spec fn admitted(&self) -> Set<usize> {
        self.ids().to_set()
    }

    /// True when connection `id` is admitted.
    pub open spec fn has(&self, id: usize) -> bool {
        holds_id(self@, id)
    }

    /// An empty registry.
    pub fn new() -> (r: ChatRoom)
        ensures
            r.wf(),
            r@ == Seq::<(usize, Seq<char>)>::empty(),
    {
        ChatRoom { connections: Vec::new() }
    }

    /// Number of admitted connections.
    pub fn len(&self) -> (r: usize)
        ensures
            r == self@.len(),
    {
        self.connections.len()
    }

    fn position(&self, id: usize) -> (r: Option<usize>)
        requires
            self.wf(),
        ensures
            r matches Some(i) ==> i < self@.len() && self@[i as int].0 == id,
            r is None ==> !self.has(id),
    {
        let mut i: usize = 0;
        while i < self.connections.len()
            invariant
                i <= self@.len(),
                forall|k: int| 0 <= k < i ==> self@[k].0 != id,
            decreases self@.len() - i,
        {
            if self.connections[i].id == id {
                return Some(i);
            }
            i = i + 1;
        }
        None
    }

    /// Admits connection `id` under its default name `User #<id>` and returns
    /// the notice of its arrival. An identifier already present keeps its
    /// place and gets the default name again.
    pub fn add(&mut self, id: usize) -> (r: Option<ChatMessage>)
        requires
            old(self).wf(),
        ensures
            final(self).wf(),
            final(self).has(id),
            !old(self).has(id) ==> final(self)@ == old(self)@.push((id, default_name(id as nat))),
            old(self).has(id) ==> final(self)@ == old(self)@.map_values(
                |e: (usize, Seq<char>)| if e.0 == id { (id, default_name(id as nat)) } else { e },
            ),
            r matches Some(m) && is_notice(m, join_text(default_name(id as nat))),
    {
        let username = default_username(id);
        let conn = ChatRoomConnection { id, username: username.clone() };
        match self.position(id) {
            Some(i) => {
                self.connections.set(i, conn);
                assert(self@[i as int].0 == id);
                assert(self@ =~= old(self)@.map_values(
                    |e: (usize, Seq<char>)| if e.0 == id { (id, default_name(id as nat)) } else { e },
                ));
            },
            None => {
                self.connections.push(conn);
                assert(self@[self@.len() - 1].0 == id);
                assert(self@ =~= old(self)@.push((id, default_name(id as nat))));
            },
        }
        Some(ChatMessage {
            message: join_notice_text(&username),
            author: system_name(),
            created_at: now_utc(),
        })
    }
    /// Evicts connection `id`. Returns the notice of its departure, which
    /// names it as it was called at that moment, or nothing when `id` is not
    /// admitted; the registry is then left as it was.
    pub fn remove(&mut self, id: usize) -> (r: Option<ChatMessage>)
        requires
            old(self).wf(),
        ensures
            final(self).wf(),
            !final(self).has(id),
            !old(self).has(id) ==> r is None && final(self)@ == old(self)@,
            old(self).has(id) ==> exists|i: int|
                0 <= i < old(self)@.len() && old(self)@[i].0 == id
                && final(self)@ == old(self)@.remove(i)
                && (r matches Some(m) && is_notice(m, leave_text(old(self)@[i].1))),
    {
        match self.position(id) {
            Some(i) => {
                let ghost before = self@;
                let conn = self.connections.remove(i);
                assert(self@ =~= before.remove(i as int));
                assert forall|k: int| 0 <= k < self@.len() implies self@[k].0 != id by {
                    if k < i {
                        assert(before[k].0 != before[i as int].0);
                    } else {
                        assert(before[k + 1].0 != before[i as int].0);
                    }
                }
                assert forall|a: int, b: int| 0 <= a < b < self@.len() implies
                    #[trigger] self@[a].0 != #[trigger] self@[b].0 by {
                    let a2 = if a < i { a } else { a + 1 };
                    let b2 = if b < i { b } else { b + 1 };
                    assert(before[a2].0 != before[b2].0);
                }
                let notice = ChatMessage {
                    message: leave_notice_text(&conn.username),
                    author: system_name(),
                    created_at: now_utc(),
                };
                Some(notice)
            },
            None => None,
        }
    }

    /// Gives connection `id` the display name `username`. Returns the notice
    /// of the change from the old name to the new one, or nothing when `id` is
    /// not admitted; the registry is then left as it was.
    pub fn change_username(&mut self, id: usize, username: String) -> (r: Option<ChatMessage>)
        requires
            old(self).wf(),
        ensures
            final(self).wf(),
            !old(self).has(id) ==> r is None && final(self)@ == old(self)@,
            old(self).has(id) ==> exists|i: int|
                0 <= i < old(self)@.len() && old(self)@[i].0 == id
                && final(self)@ == old(self)@.update(i, (id, username@))
                && (r matches Some(m) && is_notice(m, rename_text(old(self)@[i].1, username@))),
    {
        match self.position(id) {
            Some(i) => {
                let ghost before = self@;
                let text = rename_notice_text(&self.connections[i].username, &username);
                self.connections.set(i, ChatRoomConnection { id, username });
                assert(self@ =~= before.update(i as int, (id, self@[i as int].1)));
                Some(ChatMessage { message: text, author: system_name(), created_at: now_utc() })
            },
            None => None,
        }
    }

    /// The envelope that tells connection `id` its current display name,
    /// addressed to that connection alone; nothing when `id` is not admitted.
    pub fn send_username(&self, id: usize) -> (r: Option<Delivery>)
        requires
            self.wf(),
        ensures
            !self.has(id) ==> r is None,
            self.has(id) ==> exists|i: int|
                0 <= i < self@.len() && self@[i].0 == id
                && (r matches Some(d) && d.recipients@ == seq![id]
                && d.envelope.carries_username(self@[i].1)),
    {
        match self.position(id) {
            Some(i) => {
                let mut recipients: Vec<usize> = Vec::new();
                recipients.push(id);
                assert(recipients@ =~= seq![id]);
                let envelope = WebSocketMessage::username_change(
                    self.connections[i].username.clone(),
                );
                Some(Delivery { recipients, envelope })
            },
            None => None,
        }
    }

    fn all_ids(&self) -> (r: Vec<usize>)
        ensures
            r@ == self.ids(),
    {
        let mut r: Vec<usize> = Vec::new();
        let mut i: usize = 0;
        while i < self.connections.len()
            invariant
                i <= self@.len(),
                r@ == self.ids().subrange(0, i as int),
            decreases self@.len() - i,
        {
            r.push(self.connections[i].id);
            i = i + 1;
            assert(r@ =~= self.ids().subrange(0, i as int));
        }
        assert(r@ =~= self.ids());
        r
    }

    /// A `new_message` envelope carrying `chat_message` unchanged, addressed
    /// to every admitted connection.
    pub fn broadcast_message(&self, chat_message: ChatMessage) -> (r: Delivery)
        ensures
            r.recipients@ == self.ids(),
            r.envelope.carries_message(chat_message),
    {
        Delivery {
            recipients: self.all_ids(),
            envelope: WebSocketMessage::new_message(chat_message),
        }
    }

    /// The names of all admitted connections, in order of admission.
    pub fn usernames(&self) -> (r: Vec<String>)
        ensures
            texts(r@) == self.roster(),
    {
        let mut r: Vec<String> = Vec::new();
        let mut i: usize = 0;
        while i < self.connections.len()
            invariant
                i <= self@.len(),
                r@.len() == i,
                texts(r@) == self.roster().subrange(0, i as int),
            decreases self@.len() - i,
        {
            let ghost prev = r@;
            let name = self.connections[i].username.clone();
            assert(name@ == self.roster()[i as int]);
            r.push(name);
            assert(r@ == prev.push(name));
            i = i + 1;
            assert forall|k: int| 0 <= k < i implies #[trigger] texts(r@)[k] == self.roster()[k] by {
                if k < i - 1 {
                    assert(texts(prev)[k] == self.roster().subrange(0, i - 1)[k]);
                }
            }
            assert(texts(r@) =~= self.roster().subrange(0, i as int));
        }
        assert(self.roster().subrange(0, i as int) =~= self.roster());
        r
    }

    /// A `users_list` envelope with the names of all admitted connections,
    /// addressed to every admitted connection.
    pub fn broadcast_user_list(&self) -> (r: Delivery)
        ensures
            r.recipients@ == self.ids(),
            r.envelope.carries_users(self.roster()),
    {
        Delivery {
            recipients: self.all_ids(),
            envelope: WebSocketMessage::users_list(self.usernames()),
        }
    }
}

} // verus!
