use session_hub::hub::{Dispatch, RelayError};
use session_hub::ids::{RoomId, SessionId};
use session_hub::lobby::Lobby;
use session_hub::wire::Route;

fn sid(value: u128) -> SessionId {
    SessionId { value }
}

fn rid(value: u128) -> RoomId {
    RoomId { value }
}

fn deliver(to: SessionId, text: &str) -> Dispatch {
    Dispatch::Deliver { to, text: text.to_string() }
}

fn recipient(d: &Dispatch) -> u128 {
    match d {
        Dispatch::Deliver { to, .. } => to.value,
        Dispatch::UnknownRecipient { to } => to.value,
    }
}

/// The decisions by recipient: a room's set is walked in no fixed order.
fn sorted(mut out: Vec<Dispatch>) -> Vec<Dispatch> {
    out.sort_by_key(recipient);
    out
}

fn members_of<H>(lobby: &Lobby<H>, room: RoomId) -> Vec<SessionId> {
    let mut list = lobby.members(&room);
    list.sort_by_key(|m| m.value);
    list
}

fn inbox(out: &[Dispatch], who: SessionId) -> Vec<String> {
    let mut texts = Vec::new();
    for d in out {
        if let Dispatch::Deliver { to, text } = d {
            if *to == who {
                texts.push(text.clone());
            }
        }
    }
    texts
}

#[test]
fn new_lobby_is_empty() {
    let lobby: Lobby<&str> = Lobby::new();
    assert!(!lobby.is_registered(&sid(1)));
    assert!(!lobby.has_room(&rid(1)));
    assert!(lobby.members(&rid(1)).is_empty());
    assert!(lobby.outbound(&sid(1)).is_none());
    let other: Lobby<&str> = Lobby::default();
    assert!(!other.has_room(&rid(1)));
}

#[test]
fn first_connect_creates_room_and_confirms_id() {
    let mut lobby = Lobby::new();
    let s1 = sid(1);
    let out = lobby.connect(s1, rid(7), "handle-1");
    assert_eq!(out, vec![deliver(s1, "your id is 00000000-0000-0000-0000-000000000001")]);
    assert!(lobby.is_registered(&s1));
    assert_eq!(lobby.outbound(&s1), Some(&"handle-1"));
    assert!(lobby.has_room(&rid(7)));
    assert_eq!(lobby.members(&rid(7)), vec![s1]);
}

#[test]
fn each_joiner_is_confirmed_once_and_announced_once_to_each_earlier_member() {
    let mut lobby = Lobby::new();
    let room = rid(7);
    let ids = [sid(1), sid(2), sid(3), sid(4)];
    for (n, id) in ids.iter().enumerate() {
        let out = lobby.connect(*id, room, n);
        assert_eq!(out.len(), n + 1);
        assert_eq!(inbox(&out, *id), vec![format!("your id is {}", id.text())]);
        for earlier in &ids[..n] {
            assert_eq!(inbox(&out, *earlier), vec![format!("{} just joined!", id.text())]);
        }
        for later in &ids[n + 1..] {
            assert!(inbox(&out, *later).is_empty());
        }
        assert_eq!(out[n], deliver(*id, &format!("your id is {}", id.text())));
    }
    assert_eq!(members_of(&lobby, room), ids.to_vec());
    for id in ids {
        assert!(lobby.is_member(&room, &id));
    }
    assert!(!lobby.is_member(&room, &sid(9)));
    assert!(!lobby.is_member(&rid(8), &sid(1)));
}

#[test]
fn connect_does_not_announce_to_other_rooms() {
    let mut lobby = Lobby::new();
    lobby.connect(sid(1), rid(1), ());
    let out = lobby.connect(sid(2), rid(2), ());
    assert_eq!(out, vec![deliver(sid(2), "your id is 00000000-0000-0000-0000-000000000002")]);
    assert_eq!(lobby.members(&rid(1)), vec![sid(1)]);
    assert_eq!(lobby.members(&rid(2)), vec![sid(2)]);
}

#[test]
fn connecting_twice_lists_the_member_once_and_replaces_the_handle() {
    let mut lobby = Lobby::new();
    lobby.connect(sid(1), rid(1), "old");
    lobby.connect(sid(2), rid(1), "two");
    let out = lobby.connect(sid(1), rid(1), "new");
    assert_eq!(
        out,
        vec![
            deliver(sid(2), "00000000-0000-0000-0000-000000000001 just joined!"),
            deliver(sid(1), "your id is 00000000-0000-0000-0000-000000000001"),
        ]
    );
    assert_eq!(members_of(&lobby, rid(1)), vec![sid(1), sid(2)]);
    assert_eq!(lobby.outbound(&sid(1)), Some(&"new"));
}

#[test]
fn broadcast_reaches_every_member_of_the_room_and_no_other_room() {
    let mut lobby = Lobby::new();
    lobby.connect(sid(1), rid(1), ());
    lobby.connect(sid(2), rid(1), ());
    lobby.connect(sid(3), rid(2), ());
    let out = sorted(lobby.relay(sid(1), rid(1), "hi room").unwrap());
    assert_eq!(out, vec![deliver(sid(1), "hi room"), deliver(sid(2), "hi room")]);
    assert!(inbox(&out, sid(3)).is_empty());
}

#[test]
fn broadcast_into_a_room_that_does_not_exist_sends_nothing() {
    let mut lobby = Lobby::new();
    lobby.connect(sid(1), rid(1), ());
    assert_eq!(lobby.relay(sid(1), rid(5), "anyone?"), Ok(vec![]));
}

#[test]
fn text_that_starts_with_the_marker_but_no_space_is_broadcast() {
    let mut lobby = Lobby::new();
    lobby.connect(sid(1), rid(1), ());
    assert_eq!(
        lobby.relay(sid(1), rid(1), "\\whatever"),
        Ok(vec![deliver(sid(1), "\\whatever")])
    );
}

#[test]
fn whisper_reaches_only_its_target_in_whatever_room() {
    let mut lobby = Lobby::new();
    lobby.connect(sid(1), rid(1), ());
    lobby.connect(sid(2), rid(1), ());
    lobby.connect(sid(3), rid(2), ());
    let text = format!("\\w {} hello", sid(3).text());
    let out = lobby.relay(sid(1), rid(1), &text).unwrap();
    assert_eq!(out, vec![deliver(sid(3), &text)]);
    let same_room = format!("\\w {} hello", sid(2).text());
    assert_eq!(
        lobby.relay(sid(1), rid(1), &same_room),
        Ok(vec![deliver(sid(2), &same_room)])
    );
}

#[test]
fn whisper_to_an_unregistered_target_delivers_nothing_and_is_no_error() {
    let mut lobby = Lobby::new();
    lobby.connect(sid(1), rid(1), ());
    let text = format!("\\w {} hello", sid(9).text());
    let out = lobby.relay(sid(1), rid(1), &text);
    assert_eq!(out, Ok(vec![Dispatch::UnknownRecipient { to: sid(9) }]));
    assert!(lobby.is_registered(&sid(1)));
}

#[test]
fn whisper_with_a_malformed_target_is_refused_and_changes_nothing() {
    let mut lobby = Lobby::new();
    lobby.connect(sid(1), rid(1), ());
    assert_eq!(
        lobby.relay(sid(1), rid(1), "\\w S2 secret"),
        Err(RelayError::MalformedWhisperTarget)
    );
    assert_eq!(
        lobby.relay(sid(1), rid(1), "\\w "),
        Err(RelayError::MalformedWhisperTarget)
    );
    assert!(lobby.is_registered(&sid(1)));
    assert_eq!(lobby.members(&rid(1)), vec![sid(1)]);
}

#[test]
fn dispatch_follows_the_route_it_is_given() {
    let mut lobby = Lobby::new();
    lobby.connect(sid(1), rid(1), ());
    lobby.connect(sid(2), rid(1), ());
    assert_eq!(
        lobby.dispatch(Route::Room, rid(1), "\\w x y").map(sorted),
        Ok(vec![deliver(sid(1), "\\w x y"), deliver(sid(2), "\\w x y")])
    );
    assert_eq!(
        lobby.dispatch(Route::Whisper(sid(2)), rid(1), "plain"),
        Ok(vec![deliver(sid(2), "plain")])
    );
    assert_eq!(
        lobby.dispatch(Route::Whisper(sid(5)), rid(1), "plain"),
        Ok(vec![Dispatch::UnknownRecipient { to: sid(5) }])
    );
    assert_eq!(
        lobby.dispatch(Route::Malformed, rid(1), "plain"),
        Err(RelayError::MalformedWhisperTarget)
    );
}

#[test]
fn send_message_delivers_or_reports_the_unknown_recipient() {
    let mut lobby = Lobby::new();
    lobby.connect(sid(1), rid(1), ());
    assert_eq!(lobby.send_message("hey", &sid(1)), deliver(sid(1), "hey"));
    assert_eq!(
        lobby.send_message("hey", &sid(2)),
        Dispatch::UnknownRecipient { to: sid(2) }
    );
}

#[test]
fn disconnect_of_one_of_several_keeps_the_room_and_tells_the_rest_once() {
    let mut lobby = Lobby::new();
    for n in 1..=3 {
        lobby.connect(sid(n), rid(1), ());
    }
    let out = sorted(lobby.disconnect(sid(2), rid(1)));
    let note = "00000000-0000-0000-0000-000000000002 disconnected.";
    assert_eq!(out, vec![deliver(sid(1), note), deliver(sid(3), note)]);
    assert!(lobby.has_room(&rid(1)));
    assert_eq!(members_of(&lobby, rid(1)), vec![sid(1), sid(3)]);
    assert!(!lobby.is_member(&rid(1), &sid(2)));
    assert!(!lobby.is_registered(&sid(2)));
    assert!(lobby.outbound(&sid(2)).is_none());
}

#[test]
fn disconnect_of_the_last_member_removes_the_room() {
    let mut lobby = Lobby::new();
    lobby.connect(sid(1), rid(1), ());
    let out = lobby.disconnect(sid(1), rid(1));
    assert!(out.is_empty());
    assert!(!lobby.has_room(&rid(1)));
    assert!(lobby.members(&rid(1)).is_empty());
    assert!(!lobby.is_registered(&sid(1)));
}

#[test]
fn second_disconnect_is_a_no_op() {
    let mut lobby = Lobby::new();
    lobby.connect(sid(1), rid(1), ());
    lobby.connect(sid(2), rid(1), ());
    let first = lobby.disconnect(sid(2), rid(1));
    assert_eq!(first.len(), 1);
    let second = lobby.disconnect(sid(2), rid(1));
    assert!(second.is_empty());
    assert_eq!(lobby.members(&rid(1)), vec![sid(1)]);
    assert!(lobby.is_registered(&sid(1)));
    assert!(lobby.has_room(&rid(1)));
}

#[test]
fn disconnect_of_an_unknown_session_is_a_no_op() {
    let mut lobby = Lobby::new();
    lobby.connect(sid(1), rid(1), ());
    assert!(lobby.disconnect(sid(9), rid(1)).is_empty());
    assert_eq!(lobby.members(&rid(1)), vec![sid(1)]);
    assert!(lobby.is_registered(&sid(1)));
}

#[test]
fn disconnect_tolerates_a_room_that_does_not_exist() {
    let mut lobby = Lobby::new();
    lobby.connect(sid(1), rid(1), ());
    assert!(lobby.disconnect(sid(1), rid(2)).is_empty());
    assert!(!lobby.is_registered(&sid(1)));
    assert!(!lobby.has_room(&rid(2)));
    assert_eq!(lobby.members(&rid(1)), vec![sid(1)]);
}

#[test]
fn disconnect_naming_another_room_leaves_that_room_to_its_members() {
    let mut lobby = Lobby::new();
    lobby.connect(sid(1), rid(1), ());
    lobby.connect(sid(2), rid(2), ());
    let out = lobby.disconnect(sid(1), rid(2));
    assert_eq!(
        out,
        vec![deliver(sid(2), "00000000-0000-0000-0000-000000000001 disconnected.")]
    );
    assert_eq!(lobby.members(&rid(2)), vec![sid(2)]);
}

#[test]
fn notices_skip_members_that_are_no_longer_registered() {
    let mut lobby = Lobby::new();
    lobby.connect(sid(1), rid(1), ());
    lobby.connect(sid(2), rid(1), ());
    lobby.disconnect(sid(1), rid(3));
    let out = sorted(lobby.relay(sid(2), rid(1), "anyone?").unwrap());
    assert_eq!(
        out,
        vec![Dispatch::UnknownRecipient { to: sid(1) }, deliver(sid(2), "anyone?")]
    );
}

#[test]
fn two_sessions_talk_whisper_and_leave() {
    let mut lobby = Lobby::new();
    let r1 = RoomId::parse("11111111-1111-1111-1111-111111111111").unwrap();
    let s1 = SessionId::fresh();
    let s2 = SessionId::fresh();
    lobby.connect(s1, r1, "one");
    lobby.connect(s2, r1, "two");

    let out = lobby.relay(s1, r1, "hi room").unwrap();
    assert_eq!(inbox(&out, s2), vec!["hi room".to_string()]);
    assert_eq!(inbox(&out, s1), vec!["hi room".to_string()]);
    assert_eq!(out.len(), 2);

    let secret = format!("\\w {} secret", s2.text());
    let out = lobby.relay(s1, r1, &secret).unwrap();
    assert_eq!(out, vec![deliver(s2, &secret)]);

    let out = lobby.disconnect(s2, r1);
    assert_eq!(out, vec![deliver(s1, &format!("{} disconnected.", s2.text()))]);
    assert_eq!(lobby.members(&r1), vec![s1]);

    let out = lobby.disconnect(s1, r1);
    assert!(out.is_empty());
    assert!(!lobby.has_room(&r1));
}

#[test]
fn large_room_hears_each_broadcast_once_per_member() {
    let mut lobby = Lobby::new();
    let room = rid(3);
    for n in 1..=50u128 {
        let out = lobby.connect(sid(n * 7919), room, n);
        assert_eq!(out.len(), n as usize);
    }
    let out = lobby.relay(sid(7919), room, "all").unwrap();
    assert_eq!(out.len(), 50);
    for n in 1..=50u128 {
        assert_eq!(inbox(&out, sid(n * 7919)), vec!["all".to_string()]);
    }
    let list = members_of(&lobby, room);
    assert_eq!(list.len(), 50);
    for pair in list.windows(2) {
        assert!(pair[0].value < pair[1].value);
    }
}
