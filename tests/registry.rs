use chat_relay::protocol::{ChatMessage, Delivery, Timestamp, WebSocketMessage, WebSocketMessageType};
use chat_relay::room::ChatRoom;
use chat_relay::session::{announce_join, announce_leave, handle_ws_message, IdAllocator};
use chat_relay::text::{decimal_string, default_username};

fn names(room: &ChatRoom) -> Vec<String> {
    room.usernames()
}

fn users_of(d: &Delivery) -> Vec<String> {
    assert_eq!(d.envelope.message_type, WebSocketMessageType::UsersList);
    assert!(d.envelope.message.is_none());
    assert!(d.envelope.username.is_none());
    d.envelope.users.clone().expect("users payload")
}

fn notice_of(d: &Delivery) -> ChatMessage {
    assert_eq!(d.envelope.message_type, WebSocketMessageType::NewMessage);
    assert!(d.envelope.users.is_none());
    assert!(d.envelope.username.is_none());
    d.envelope.message.clone().expect("message payload")
}

fn username_of(d: &Delivery) -> String {
    assert_eq!(d.envelope.message_type, WebSocketMessageType::UsernameChange);
    assert!(d.envelope.message.is_none());
    assert!(d.envelope.users.is_none());
    d.envelope.username.clone().expect("username payload")
}

fn envelope(kind: WebSocketMessageType) -> WebSocketMessage {
    WebSocketMessage { message_type: kind, message: None, users: None, username: None }
}

fn rename_to(name: &str) -> WebSocketMessage {
    let mut w = envelope(WebSocketMessageType::UsernameChange);
    w.username = Some(name.to_string());
    w
}

fn chat(author: &str, body: &str) -> ChatMessage {
    ChatMessage {
        message: body.to_string(),
        author: author.to_string(),
        created_at: Timestamp { secs: 1_700_000_000, nanos: 250 },
    }
}

#[test]
fn decimal_string_writes_digits() {
    assert_eq!(decimal_string(0), "0");
    assert_eq!(decimal_string(7), "7");
    assert_eq!(decimal_string(10), "10");
    assert_eq!(decimal_string(12345), "12345");
    assert_eq!(decimal_string(usize::MAX), usize::MAX.to_string());
}

#[test]
fn default_username_uses_identifier() {
    assert_eq!(default_username(1), "User #1");
    assert_eq!(default_username(42), "User #42");
}

#[test]
fn allocator_hands_out_increasing_distinct_ids() {
    let mut a = IdAllocator::new();
    let first = a.allocate().unwrap();
    let second = a.allocate().unwrap();
    let third = a.allocate().unwrap();
    assert_eq!((first, second, third), (1, 2, 3));
    assert!(first < second && second < third);
}

#[test]
fn add_returns_join_notice_with_current_time() {
    let mut room = ChatRoom::new();
    let notice = room.add(5).unwrap();
    assert_eq!(notice.author, "system");
    assert_eq!(notice.message, "User #5 entered in this chat room");
    assert!(notice.created_at.secs > 1_600_000_000);
    assert!(notice.created_at.nanos < 1_000_000_000);
    assert_eq!(names(&room), vec!["User #5".to_string()]);
}

#[test]
fn add_of_present_id_keeps_one_entry() {
    let mut room = ChatRoom::new();
    room.add(1);
    room.add(2);
    room.change_username(1, "Alice".to_string());
    room.add(1);
    assert_eq!(names(&room), vec!["User #1".to_string(), "User #2".to_string()]);
}

#[test]
fn roster_size_follows_admissions_and_evictions() {
    let mut room = ChatRoom::new();
    room.add(1);
    room.add(2);
    room.add(3);
    assert_eq!(room.len(), 3);
    assert_eq!(names(&room).len(), 3);
    room.remove(2);
    assert_eq!(room.len(), 2);
    assert_eq!(names(&room), vec!["User #1".to_string(), "User #3".to_string()]);
    room.add(4);
    room.remove(1);
    assert_eq!(room.len(), 2);
    assert_eq!(names(&room).len(), 2);
    let list = room.broadcast_user_list();
    assert_eq!(list.recipients, vec![3, 4]);
    assert_eq!(users_of(&list), vec!["User #3".to_string(), "User #4".to_string()]);
}

#[test]
fn remove_twice_is_silent() {
    let mut room = ChatRoom::new();
    room.add(1);
    room.add(2);
    let notice = room.remove(1).unwrap();
    assert_eq!(notice.author, "system");
    assert_eq!(notice.message, "User #1 left this chat room");
    assert_eq!(room.len(), 1);
    assert!(room.remove(1).is_none());
    assert!(room.remove(99).is_none());
    assert_eq!(room.len(), 1);
    assert!(announce_leave(&mut room, 1).is_empty());
    assert_eq!(names(&room), vec!["User #2".to_string()]);
}

#[test]
fn rename_of_unknown_id_changes_nothing() {
    let mut room = ChatRoom::new();
    room.add(1);
    assert!(room.change_username(7, "Bob".to_string()).is_none());
    assert_eq!(names(&room), vec!["User #1".to_string()]);
    let out = handle_ws_message(&mut room, Some(rename_to("Bob")), 7);
    assert!(out.is_empty());
    assert_eq!(names(&room), vec!["User #1".to_string()]);
    assert!(room.send_username(7).is_none());
}

#[test]
fn broadcast_message_sends_same_payload_to_all() {
    let mut room = ChatRoom::new();
    room.add(1);
    room.add(2);
    room.add(3);
    let d = room.broadcast_message(chat("Alice", "hello"));
    assert_eq!(d.recipients, vec![1, 2, 3]);
    let m = notice_of(&d);
    assert_eq!(m.author, "Alice");
    assert_eq!(m.message, "hello");
    assert_eq!(m.created_at, Timestamp { secs: 1_700_000_000, nanos: 250 });
}

#[test]
fn broadcast_to_empty_room_reaches_nobody() {
    let room = ChatRoom::new();
    assert!(room.broadcast_message(chat("a", "b")).recipients.is_empty());
    let list = room.broadcast_user_list();
    assert!(list.recipients.is_empty());
    assert!(users_of(&list).is_empty());
}

#[test]
fn undecodable_and_roster_frames_are_dropped() {
    let mut room = ChatRoom::new();
    room.add(1);
    assert!(handle_ws_message(&mut room, None, 1).is_empty());
    let mut list = envelope(WebSocketMessageType::UsersList);
    list.users = Some(vec!["Mallory".to_string()]);
    assert!(handle_ws_message(&mut room, Some(list), 1).is_empty());
    assert!(handle_ws_message(&mut room, Some(envelope(WebSocketMessageType::NewMessage)), 1).is_empty());
    assert!(handle_ws_message(&mut room, Some(envelope(WebSocketMessageType::UsernameChange)), 1).is_empty());
    assert_eq!(names(&room), vec!["User #1".to_string()]);
}

#[test]
fn scenario_first_join() {
    let mut ids = IdAllocator::new();
    let mut room = ChatRoom::new();
    let a = ids.allocate().unwrap();
    let out = announce_join(&mut room, a);
    assert_eq!(out.len(), 3);
    assert_eq!(out[0].recipients, vec![a]);
    let notice = notice_of(&out[0]);
    assert_eq!(notice.author, "system");
    assert_eq!(notice.message, "User #1 entered in this chat room");
    assert_eq!(out[1].recipients, vec![a]);
    assert_eq!(users_of(&out[1]), vec!["User #1".to_string()]);
    assert_eq!(out[2].recipients, vec![a]);
    assert_eq!(username_of(&out[2]), "User #1");
}

#[test]
fn scenario_second_join() {
    let mut ids = IdAllocator::new();
    let mut room = ChatRoom::new();
    let a = ids.allocate().unwrap();
    announce_join(&mut room, a);
    let b = ids.allocate().unwrap();
    let out = announce_join(&mut room, b);
    assert_eq!(out.len(), 3);
    assert_eq!(out[0].recipients, vec![a, b]);
    let notice = notice_of(&out[0]);
    assert_eq!(notice.author, "system");
    assert_eq!(notice.message, "User #2 entered in this chat room");
    assert_eq!(out[1].recipients, vec![a, b]);
    assert_eq!(users_of(&out[1]), vec!["User #1".to_string(), "User #2".to_string()]);
    assert_eq!(out[2].recipients, vec![b]);
    assert_eq!(username_of(&out[2]), "User #2");
}

#[test]
fn scenario_rename() {
    let mut ids = IdAllocator::new();
    let mut room = ChatRoom::new();
    let a = ids.allocate().unwrap();
    announce_join(&mut room, a);
    let b = ids.allocate().unwrap();
    announce_join(&mut room, b);
    let out = handle_ws_message(&mut room, Some(rename_to("Alice")), a);
    assert_eq!(out.len(), 3);
    assert_eq!(out[0].recipients, vec![a]);
    assert_eq!(username_of(&out[0]), "Alice");
    assert_eq!(out[1].recipients, vec![a, b]);
    assert_eq!(users_of(&out[1]), vec!["Alice".to_string(), "User #2".to_string()]);
    assert_eq!(out[2].recipients, vec![a, b]);
    let notice = notice_of(&out[2]);
    assert_eq!(notice.author, "system");
    assert_eq!(notice.message, "User #1 changed username to Alice");
}

#[test]
fn scenario_relay_message() {
    let mut ids = IdAllocator::new();
    let mut room = ChatRoom::new();
    let a = ids.allocate().unwrap();
    announce_join(&mut room, a);
    let b = ids.allocate().unwrap();
    announce_join(&mut room, b);
    handle_ws_message(&mut room, Some(rename_to("Alice")), a);
    let mut w = envelope(WebSocketMessageType::NewMessage);
    w.message = Some(chat("Alice", "hi"));
    let out = handle_ws_message(&mut room, Some(w), a);
    assert_eq!(out.len(), 1);
    assert_eq!(out[0].recipients, vec![a, b]);
    let m = notice_of(&out[0]);
    assert_eq!(m.author, "Alice");
    assert_eq!(m.message, "hi");
}

#[test]
fn scenario_disconnect() {
    let mut ids = IdAllocator::new();
    let mut room = ChatRoom::new();
    let a = ids.allocate().unwrap();
    announce_join(&mut room, a);
    let b = ids.allocate().unwrap();
    announce_join(&mut room, b);
    handle_ws_message(&mut room, Some(rename_to("Alice")), a);
    let out = announce_leave(&mut room, a);
    assert_eq!(out.len(), 2);
    assert_eq!(out[0].recipients, vec![b]);
    assert_eq!(users_of(&out[0]), vec!["User #2".to_string()]);
    assert_eq!(out[1].recipients, vec![b]);
    let notice = notice_of(&out[1]);
    assert_eq!(notice.author, "system");
    assert_eq!(notice.message, "Alice left this chat room");
    assert_eq!(room.len(), 1);
}
