//! What holds of the hub and of a session across requests, proved over
//! the mathematical model that their contracts use.

use crate::heartbeat::stale;
use crate::hub::{
    among, connect_all, join_texts, lemma_fan_out_received, newcomers, notice_for, received,
    received_all, run_sends, HubState, Notice,
};
use crate::ids::{RoomId, SessionId};
use crate::session::{chat_ping, Action, ConnState, Frame, Phase};
use crate::wire::{
    is_whisper, joined_text, left_text, route_of, target_token, token_end, welcome_text, Route,
};
use vstd::prelude::*;

verus! {

/// The end of a token lies between its start and the end of the text, no
/// space stands before it, and a space stands at it unless the text ends.
pub proof fn law_token_end(text: Seq<char>, from: int)
    requires
        0 <= from <= text.len(),
    ensures
        from <= token_end(text, from) <= text.len(),
        forall|i: int| from <= i < token_end(text, from) ==> text[i] != ' ',
        token_end(text, from) < text.len() ==> text[token_end(text, from)] == ' ',
    decreases text.len() - from,
{
    if from < text.len() && text[from] != ' ' {
        law_token_end(text, from + 1);
    }
}

/// The target token of a whisper holds no space, and the text goes on after
/// it with a space or not at all.
pub proof fn law_target_token(text: Seq<char>)
    requires
        is_whisper(text),
    ensures
        !target_token(text).contains(' '),
        text == text.subrange(0, 3) + target_token(text) + text.subrange(
            token_end(text, 3),
            text.len() as int,
        ),
        token_end(text, 3) < text.len() ==> text[token_end(text, 3)] == ' ',
{
    law_token_end(text, 3);
    let token = target_token(text);
    if token.contains(' ') {
        let i = choose|i: int| 0 <= i < token.len() && token[i] == ' ';
        assert(text[3 + i] == ' ');
    }
    assert(text =~= text.subrange(0, 3) + token + text.subrange(
        token_end(text, 3),
        text.len() as int,
    ));
}

/// A connect keeps the registries valid. Afterwards the session is
/// registered and in the room, and whoever was registered, or in the room,
/// still is.
pub proof fn law_connect_keeps_valid<H>(s: HubState<H>, id: SessionId, room: RoomId, outbound: H)
    requires
        s.well_formed(),
    ensures
        s.connect(id, room, outbound).well_formed(),
        s.connect(id, room, outbound).registered(id),
        s.connect(id, room, outbound).members(room).contains(id.value),
        forall|m: u128|
            s.members(room).contains(m) ==> #[trigger] s.connect(id, room, outbound).members(
                room,
            ).contains(m),
        forall|m: SessionId|
            s.registered(m) ==> #[trigger] s.connect(id, room, outbound).registered(m),
{
    let after = s.connect(id, room, outbound);
    assert(after.members(room).contains(id.value));
    assert forall|r: u128| #[trigger] after.rooms.contains_key(r) implies !after.rooms[r].is_empty() by {
        if r == room.value {
            assert(after.rooms[r].contains(id.value));
        } else {
            assert(s.rooms.contains_key(r));
        }
    }
}

/// A disconnect keeps the registries valid, and the session is not
/// registered afterwards.
pub proof fn law_disconnect_keeps_valid<H>(s: HubState<H>, id: SessionId, room: RoomId)
    requires
        s.well_formed(),
    ensures
        s.disconnect(id, room).well_formed(),
        !s.disconnect(id, room).registered(id),
{
    let after = s.disconnect(id, room);
    assert forall|r: u128| #[trigger] after.rooms.contains_key(r) implies !after.rooms[r].is_empty() by {
        if r != room.value {
            assert(s.rooms.contains_key(r));
        }
    }
}

/// Connects of sessions that are in no other room, and disconnects, keep
/// every session in at most one room.
pub proof fn law_one_room_each<H>(s: HubState<H>, id: SessionId, room: RoomId, outbound: H)
    requires
        s.one_room_each(),
    ensures
        (forall|r: u128|
            s.rooms.contains_key(r) && r != room.value ==> !s.rooms[r].contains(id.value))
            ==> s.connect(id, room, outbound).one_room_each(),
        s.disconnect(id, room).one_room_each(),
{
    if forall|r: u128|
        s.rooms.contains_key(r) && r != room.value ==> !s.rooms[r].contains(id.value) {
        let c = s.connect(id, room, outbound);
        assert forall|r1: u128, r2: u128, v: u128|
            c.rooms.contains_key(r1) && c.rooms.contains_key(r2) && #[trigger] c.rooms[r1].contains(
                v,
            ) && #[trigger] c.rooms[r2].contains(v) implies r1 == r2 by {
            if r1 != r2 {
                if r1 == room.value || r2 == room.value {
                    let other = if r1 == room.value {
                        r2
                    } else {
                        r1
                    };
                    assert(s.rooms[other].contains(v));
                    if v != id.value {
                        assert(s.rooms[room.value].contains(v));
                    }
                } else {
                    assert(s.rooms[r1].contains(v) && s.rooms[r2].contains(v));
                }
            }
        }
    }
    let d = s.disconnect(id, room);
    assert forall|r1: u128, r2: u128, v: u128|
        d.rooms.contains_key(r1) && d.rooms.contains_key(r2) && #[trigger] d.rooms[r1].contains(v)
            && #[trigger] d.rooms[r2].contains(v) implies r1 == r2 by {
        assert(s.rooms.contains_key(r1) && s.rooms[r1].contains(v));
        assert(s.rooms.contains_key(r2) && s.rooms[r2].contains(v));
    }
}

/// What a connect sends, whatever the order: the session that joins
/// receives its confirmation and nothing else; every registered session
/// that was in the room before receives the join notice once; any other
/// session receives nothing.
pub proof fn law_connect_notices<H>(
    s: HubState<H>,
    id: SessionId,
    room: RoomId,
    sent: Seq<Notice>,
    who: SessionId,
)
    requires
        s.connect_sends(id, room, sent),
    ensures
        received(sent, who) == if who == id {
            seq![welcome_text(id)]
        } else if s.members(room).contains(who.value) && s.registered(who) {
            seq![joined_text(id)]
        } else {
            Seq::empty()
        },
{
    lemma_fan_out_received(
        sent.drop_last(),
        s.sessions.dom(),
        s.members(room).remove(id.value),
        joined_text(id),
        who,
    );
    assert(who.value == id.value <==> who == id);
    if who == id {
        assert(Seq::<Seq<char>>::empty().push(welcome_text(id)) =~= seq![welcome_text(id)]);
    }
}

/// A run of connects into one room, by sessions that were not in it and of
/// which none joins twice, whatever the order of each fan-out. The room
/// holds, and the registry knows, whom they held before and the joiners. A
/// joiner receives its confirmation once and then the join notice of each
/// later joiner once, in their order. A session that was registered and in
/// the room before the run receives the join notice of every joiner once.
/// Any other session receives nothing.
pub proof fn law_connect_run<H>(
    s: HubState<H>,
    room: RoomId,
    joiners: Seq<(SessionId, H)>,
    sents: Seq<Seq<Notice>>,
    who: SessionId,
)
    requires
        newcomers(s, room, joiners),
        run_sends(s, room, joiners, sents),
    ensures
        connect_all(s, room, joiners).members(room).contains(who.value) <==> s.members(
            room,
        ).contains(who.value) || among(joiners, who),
        connect_all(s, room, joiners).registered(who) <==> s.registered(who) || among(
            joiners,
            who,
        ),
        forall|k: int|
            0 <= k < joiners.len() && (#[trigger] joiners[k]).0 == who ==> received_all(
                sents,
                who,
            ) == seq![welcome_text(who)] + join_texts(
                joiners.subrange(k + 1, joiners.len() as int),
            ),
        !among(joiners, who) ==> received_all(sents, who) == if s.members(room).contains(
            who.value,
        ) && s.registered(who) {
            join_texts(joiners)
        } else {
            Seq::empty()
        },
    decreases joiners.len(),
{
    let n = joiners.len() as int;
    if n == 0 {
        assert(join_texts(joiners) =~= Seq::<Seq<char>>::empty());
    } else {
        let front = joiners.drop_last();
        let before = sents.drop_last();
        let mid = connect_all(s, room, front);
        let (id, outbound) = joiners.last();
        let step = sents.last();
        assert(newcomers(s, room, front)) by {
            assert forall|i: int| 0 <= i < front.len() implies joiners[i] == #[trigger] front[i] by {}
        }
        assert(run_sends(s, room, front, before)) by {
            assert forall|k: int| 0 <= k < front.len() implies connect_all(
                s,
                room,
                front.take(k),
            ).connect_sends(front[k].0, room, #[trigger] before[k]) by {
                assert(front.take(k) =~= joiners.take(k));
                assert(before[k] == sents[k]);
            }
        }
        assert(mid.connect_sends(id, room, step)) by {
            assert(joiners.take(n - 1) =~= front);
            assert(step == sents[n - 1]);
        }
        law_connect_run(s, room, front, before, who);
        law_connect_run(s, room, front, before, id);
        law_connect_notices(mid, id, room, step, who);
        assert(who.value == id.value <==> who == id);
        assert(among(joiners, who) <==> among(front, who) || who == id) by {
            if among(front, who) {
                let i = choose|i: int| 0 <= i < front.len() && (#[trigger] front[i]).0 == who;
                assert(joiners[i].0 == who);
            }
            if who == id {
                assert(joiners[n - 1].0 == who);
            }
            if among(joiners, who) && who != id {
                let i = choose|i: int| 0 <= i < joiners.len() && (#[trigger] joiners[i]).0 == who;
                assert(front[i].0 == who);
            }
        }
        assert(!among(front, id)) by {
            if among(front, id) {
                let i = choose|i: int| 0 <= i < front.len() && (#[trigger] front[i]).0 == id;
                assert(joiners[i].0 == joiners[n - 1].0);
            }
        }
        assert(!s.members(room).contains(id.value)) by {
            assert(joiners[n - 1].0 == id);
        }
        assert forall|k: int| 0 <= k < n && (#[trigger] joiners[k]).0 == who implies received_all(
            sents,
            who,
        ) == seq![welcome_text(who)] + join_texts(joiners.subrange(k + 1, n)) by {
            if k == n - 1 {
                assert(received_all(before, who) == Seq::<Seq<char>>::empty());
                assert(join_texts(joiners.subrange(k + 1, n)) =~= Seq::<Seq<char>>::empty());
                assert(received_all(before, who) + received(step, who) =~= seq![welcome_text(who)]
                    + join_texts(joiners.subrange(k + 1, n)));
            } else {
                assert(front[k].0 == who);
                assert(who != id) by {
                    assert(joiners[k].0 != joiners[n - 1].0);
                }
                assert(among(front, who));
                assert(received(step, who) == seq![joined_text(id)]);
                assert(joiners.subrange(k + 1, n).drop_last() =~= front.subrange(
                    k + 1,
                    front.len() as int,
                ));
                assert(join_texts(joiners.subrange(k + 1, n)) =~= join_texts(
                    front.subrange(k + 1, front.len() as int),
                ).push(joined_text(id)));
                assert(received_all(before, who) + received(step, who) =~= seq![
                    welcome_text(who),
                ] + join_texts(joiners.subrange(k + 1, n)));
            }
        }
        if !among(joiners, who) {
            assert(who != id);
            assert(join_texts(joiners) =~= join_texts(front).push(joined_text(id)));
            if s.members(room).contains(who.value) && s.registered(who) {
                assert(received_all(before, who) + received(step, who) =~= join_texts(joiners));
            } else {
                assert(received_all(before, who) + received(step, who) =~= Seq::<
                    Seq<char>,
                >::empty());
            }
        }
    }
}

/// Broadcast: a text that is no whisper reaches every registered member of
/// the room once, the sender among them, and nobody else. Where every
/// session is in at most one room, it reaches no member of another room.
pub proof fn law_broadcast<H>(
    s: HubState<H>,
    room: RoomId,
    text: Seq<char>,
    sent: Seq<Notice>,
    who: SessionId,
    elsewhere: RoomId,
)
    requires
        !is_whisper(text),
        s.relay_sends(route_of(text), room, text, sent),
    ensures
        route_of(text) == Route::Room,
        received(sent, who) == if s.members(room).contains(who.value) && s.registered(who) {
            seq![text]
        } else {
            Seq::empty()
        },
        s.one_room_each() && elsewhere != room && s.members(elsewhere).contains(who.value)
            ==> received(sent, who) == Seq::<Seq<char>>::empty(),
{
    lemma_fan_out_received(sent, s.sessions.dom(), s.members(room), text, who);
    if s.one_room_each() && elsewhere != room && s.members(elsewhere).contains(who.value) {
        if s.members(room).contains(who.value) {
            assert(s.rooms[room.value].contains(who.value));
            assert(s.rooms[elsewhere.value].contains(who.value));
            assert(room.value == elsewhere.value);
        }
    }
}

/// Whisper: a text whose route is a whisper reaches its target once if the
/// target is registered, whatever room anyone is in, and reaches nobody
/// else; to a target that is not registered nothing is delivered.
pub proof fn law_whisper<H>(
    s: HubState<H>,
    room: RoomId,
    text: Seq<char>,
    target: SessionId,
    sent: Seq<Notice>,
    who: SessionId,
)
    requires
        route_of(text) == Route::Whisper(target),
        s.relay_sends(route_of(text), room, text, sent),
    ensures
        received(sent, who) == if who == target && s.registered(target) {
            seq![text]
        } else {
            Seq::empty()
        },
{
    assert(sent.drop_last() =~= Seq::<Notice>::empty());
    assert(sent.last() == notice_for(s.sessions.dom(), target, text));
    assert(received(sent.drop_last(), who) =~= Seq::<Seq<char>>::empty());
    if who == target && s.registered(target) {
        assert(Seq::<Seq<char>>::empty().push(text) =~= seq![text]);
    }
}

/// The disconnect of a registered session from its room: where nobody else
/// is in the room, the room is gone afterwards; else the room stays with
/// the other members, and each of them that is registered receives the
/// departure notice once. The session itself receives nothing.
pub proof fn law_disconnect_room<H>(
    s: HubState<H>,
    id: SessionId,
    room: RoomId,
    sent: Seq<Notice>,
    who: SessionId,
)
    requires
        s.registered(id),
        s.has_room(room),
        s.disconnect_sends(id, room, sent),
    ensures
        s.members(room).remove(id.value).is_empty() ==> !s.disconnect(id, room).has_room(room),
        s.members(room) == set![id.value] ==> !s.disconnect(id, room).has_room(room),
        !s.members(room).remove(id.value).is_empty() ==> s.disconnect(id, room).has_room(room)
            && s.disconnect(id, room).members(room) == s.members(room).remove(id.value),
        s.disconnect(id, room).members(room).contains(who.value) <==> s.members(room).contains(
            who.value,
        ) && who != id,
        received(sent, who) == if s.disconnect(id, room).members(room).contains(who.value)
            && s.registered(who) {
            seq![left_text(id)]
        } else {
            Seq::empty()
        },
{
    lemma_fan_out_received(
        sent,
        s.sessions.dom().remove(id.value),
        s.members(room).remove(id.value),
        left_text(id),
        who,
    );
    assert(who.value == id.value <==> who == id);
    if s.members(room) == set![id.value] {
        assert(s.members(room).remove(id.value) =~= Set::<u128>::empty());
    }
}

/// Idempotence: a second disconnect of the same session changes nothing
/// and sends nothing.
pub proof fn law_disconnect_idempotent<H>(
    s: HubState<H>,
    id: SessionId,
    room: RoomId,
    sent: Seq<Notice>,
)
    ensures
        s.disconnect(id, room).disconnect(id, room) == s.disconnect(id, room),
        s.disconnect(id, room).disconnect_sends(id, room, sent) ==> sent == Seq::<Notice>::empty(),
{
}

/// Only a ping or a pong moves the time at which a session was last heard
/// of: no other frame does, nor a tick, the start or the stop.
pub proof fn law_liveness_refresh(c: ConnState, frame: Frame, now: u64)
    ensures
        !(frame is Ping) && !(frame is Pong) ==> c.handled(frame, now).0.last_seen == c.last_seen,
        c.ticked(now).0.last_seen == c.last_seen,
        c.started().0.last_seen == c.last_seen,
        c.stopped().0.last_seen == c.last_seen,
{
}

/// Heartbeat eviction: an active session that has been silent for longer
/// than the timeout starts closing at the next tick, without any close
/// frame. Its stop then sends the hub one disconnect, a further stop sends
/// none, and after that disconnect the hub no longer knows the session.
pub proof fn law_heartbeat_eviction<H>(c: ConnState, now: u64, s: HubState<H>)
    requires
        c.phase == Phase::Active,
        stale(c.last_seen, now, c.config.timeout),
    ensures
        c.ticked(now).0.phase == Phase::Closing,
        c.ticked(now).1 == Seq::<Action>::empty(),
        c.ticked(now).0.stopped().0.phase == Phase::Closed,
        c.ticked(now).0.stopped().1 == seq![
            Action::CancelHeartbeat,
            Action::Disconnect { id: c.id, room: c.room },
            Action::Release,
        ],
        c.ticked(now).0.stopped().0.stopped().1 == Seq::<Action>::empty(),
        !s.disconnect(c.id, c.room).registered(c.id),
{
}

/// A session sends the hub one disconnect in its life: its stop sends it,
/// unless the session is closed already, and neither its start nor a frame
/// nor a tick sends one. A closed session stays closed and asks for
/// nothing.
pub proof fn law_single_disconnect(c: ConnState, frame: Frame, now: u64)
    ensures
        forall|i: int|
            0 <= i < c.started().1.len() ==> !(#[trigger] c.started().1[i] is Disconnect),
        forall|i: int|
            0 <= i < c.handled(frame, now).1.len() ==> !(#[trigger] c.handled(
                frame,
                now,
            ).1[i] is Disconnect),
        forall|i: int|
            0 <= i < c.ticked(now).1.len() ==> !(#[trigger] c.ticked(now).1[i] is Disconnect),
        c.phase != Phase::Closed ==> c.stopped() == (
            c.phased(Phase::Closed),
            seq![
                Action::CancelHeartbeat,
                Action::Disconnect { id: c.id, room: c.room },
                Action::Release,
            ],
        ),
        c.phase == Phase::Closed ==> c.started() == (c, Seq::<Action>::empty()) && c.handled(
            frame,
            now,
        ) == (c, Seq::<Action>::empty()) && c.ticked(now) == (c, Seq::<Action>::empty())
            && c.stopped() == (c, Seq::<Action>::empty()),
{
}

/// A session that is heard of in time is not evicted: at a tick within the
/// timeout, its last moment included, an active session stays as it is and
/// sends one ping with the payload `PING`.
pub proof fn law_heartbeat_keeps_alive(c: ConnState, now: u64)
    requires
        c.phase == Phase::Active,
        now - c.last_seen <= c.config.timeout,
    ensures
        c.ticked(now) == (c, seq![Action::Ping(chat_ping())]),
{
}

} // verus!
