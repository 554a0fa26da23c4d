use vstd::prelude::*;

use crate::protocol::{Delivery, WebSocketMessage, WebSocketMessageType};
use crate::room::{carries_notice, ChatRoom};
use crate::text::{default_name, join_text, leave_text, rename_text};

verus! {

/// Hands out connection identifiers: 1, 2, 3, ... and never one twice.
pub struct IdAllocator {
    next: usize,
    issued: Ghost<Set<usize>>,
}

impl IdAllocator {
    /// The identifier the next call of `allocate` hands out.
    pub closed spec fn next_id(&self) -> usize {
        self.next
    }

    /// Every identifier handed out so far.
    pub closed spec fn issued(&self) -> Set<usize> {
        self.issued@
    }

    /// Every identifier handed out so far lies below the next one.
    pub open spec fn wf(&self) -> bool {
        &&& self.next_id() >= 1
        &&& forall|x: usize| #[trigger] self.issued().contains(x) ==> x < self.next_id()
    }

    /// An allocator that has handed out nothing and starts at 1.
    pub fn new() -> (r: IdAllocator)
        ensures
            r.wf(),
            r.next_id() == 1,
            r.issued() == Set::<usize>::empty(),
    {
        IdAllocator { next: 1, issued: Ghost(Set::empty()) }
    }

    /// Hands out the next identifier. The result was never handed out before
    /// and exceeds every one that was. When the counter has reached the
    /// largest `usize` no identifier is left: the result is `None` and
    /// nothing changes.
    pub fn allocate(&mut self) -> (r: Option<usize>)
        requires
            old(self).wf(),
        ensures
            final(self).wf(),
            old(self).next_id() == usize::MAX ==> r is None && final(self).next_id()
                == old(self).next_id() && final(self).issued() == old(self).issued(),
            old(self).next_id() < usize::MAX ==> r == Some(old(self).next_id())
                && final(self).next_id() == old(self).next_id() + 1
                && final(self).issued() == old(self).issued().insert(old(self).next_id()),
            r matches Some(id) ==> !old(self).issued().contains(id),
            r matches Some(id) ==> forall|x: usize| #[trigger]
                old(self).issued().contains(x) ==> x < id,
    {
        if self.next == usize::MAX {
            None
        } else {
            let id = self.next;
            self.next = id + 1;
            self.issued = Ghost(self.issued@.insert(id));
            assert forall|x: usize| #[trigger] self.issued().contains(x) implies x < self.next_id() by {
                if x != id {
                    assert(old(self).issued().contains(x));
                }
            }
            Some(id)
        }
    }
}

/// Admits connection `id` and announces it: the arrival notice and then the
/// new roster go to every admitted connection, the new one included, and
/// last the new connection alone learns its assigned name.
pub fn announce_join(room: &mut ChatRoom, id: usize) -> (r: Vec<Delivery>)
    requires
        old(room).wf(),
    ensures
        final(room).wf(),
        final(room).has(id),
        !old(room).has(id) ==> final(room)@ == old(room)@.push((id, default_name(id as nat))),
        r@.len() == 3,
        r@[0].recipients@ == final(room).ids(),
        carries_notice(r@[0].envelope, join_text(default_name(id as nat))),
        r@[1].recipients@ == final(room).ids(),
        r@[1].envelope.carries_users(final(room).roster()),
        r@[2].recipients@ == seq![id],
        r@[2].envelope.carries_username(default_name(id as nat)),
{
    let mut r: Vec<Delivery> = Vec::new();
    let notice = room.add(id);
    if let Some(m) = notice {
        r.push(room.broadcast_message(m));
    }
    r.push(room.broadcast_user_list());
    if let Some(d) = room.send_username(id) {
        r.push(d);
    }
    proof {
        if old(room).has(id) {
            let i = choose|i: int| 0 <= i < room@.len() && room@[i].0 == id;
            assert(room@[i].1 == default_name(id as nat));
        }
    }
    r
}

/// Evicts connection `id` and announces it: the new roster and then the
/// departure notice go to every connection still admitted. Nothing is sent
/// and nothing changes when `id` is not admitted.
pub fn announce_leave(room: &mut ChatRoom, id: usize) -> (r: Vec<Delivery>)
    requires
        old(room).wf(),
    ensures
        final(room).wf(),
        !final(room).has(id),
        !old(room).has(id) ==> r@.len() == 0 && final(room)@ == old(room)@,
        old(room).has(id) ==> exists|i: int|
            0 <= i < old(room)@.len() && old(room)@[i].0 == id
            && final(room)@ == old(room)@.remove(i)
            && r@.len() == 2
            && r@[0].recipients@ == final(room).ids()
            && r@[0].envelope.carries_users(final(room).roster())
            && r@[1].recipients@ == final(room).ids()
            && carries_notice(r@[1].envelope, leave_text(old(room)@[i].1)),
{
    let mut r: Vec<Delivery> = Vec::new();
    if let Some(m) = room.remove(id) {
        r.push(room.broadcast_user_list());
        r.push(room.broadcast_message(m));
    }
    r
}

/// Dispatches one inbound frame of connection `id`. `inbound` is the envelope
/// the frame decoded to, or `None` for a frame that is not one (malformed
/// text, binary or control frames): such a frame is dropped.
///
/// A `new_message` envelope is relayed unchanged to every admitted
/// connection. A `users_list` envelope is ignored: the roster belongs to the
/// server. A `username_change` envelope renames `id`; the new name goes back
/// to `id` alone, then the new roster and the notice of the change go to
/// everyone. An envelope without the payload its tag calls for, and a rename
/// of a connection that is not admitted, change nothing and send nothing.
pub fn handle_ws_message(room: &mut ChatRoom, inbound: Option<WebSocketMessage>, id: usize) -> (r:
    Vec<Delivery>)
    requires
        old(room).wf(),
    ensures
        final(room).wf(),
        match inbound {
            None => r@.len() == 0 && final(room)@ == old(room)@,
            Some(w) => match w.message_type {
                WebSocketMessageType::UsersList => r@.len() == 0 && final(room)@ == old(room)@,
                WebSocketMessageType::NewMessage => {
                    &&& final(room)@ == old(room)@
                    &&& match w.message {
                        None => r@.len() == 0,
                        Some(m) => {
                            &&& r@.len() == 1
                            &&& r@[0].recipients@ == old(room).ids()
                            &&& r@[0].envelope.carries_message(m)
                        },
                    }
                },
                WebSocketMessageType::UsernameChange => match w.username {
                    None => r@.len() == 0 && final(room)@ == old(room)@,
                    Some(name) => if !old(room).has(id) {
                        r@.len() == 0 && final(room)@ == old(room)@
                    } else {
                        exists|i: int|
                            0 <= i < old(room)@.len() && old(room)@[i].0 == id
                            && final(room)@ == old(room)@.update(i, (id, name@))
                            && r@.len() == 3
                            && r@[0].recipients@ == seq![id]
                            && r@[0].envelope.carries_username(name@)
                            && r@[1].recipients@ == final(room).ids()
                            && r@[1].envelope.carries_users(final(room).roster())
                            && r@[2].recipients@ == final(room).ids()
                            && carries_notice(r@[2].envelope, rename_text(old(room)@[i].1, name@))
                    },
                },
            },
        },
{
    let mut r: Vec<Delivery> = Vec::new();
    if let Some(w) = inbound {
        match w.message_type {
            WebSocketMessageType::NewMessage => {
                if let Some(m) = w.message {
                    r.push(room.broadcast_message(m));
                }
            },
            WebSocketMessageType::UsersList => {},
            WebSocketMessageType::UsernameChange => {
                if let Some(name) = w.username {
                    let ghost new_name = name@;
                    if let Some(notice) = room.change_username(id, name) {
                        proof {
                            let i = choose|i: int|
                                0 <= i < old(room)@.len() && old(room)@[i].0 == id
                                && room@ == old(room)@.update(i, (id, new_name));
                            assert(room@[i].0 == id);
                        }
                        if let Some(d) = room.send_username(id) {
                            r.push(d);
                        }
                        r.push(room.broadcast_user_list());
                        r.push(room.broadcast_message(notice));
                    }
                }
            },
        }
    }
    r
}

} // verus!
