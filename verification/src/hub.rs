//! The hub: the one owner of the session registry and of the room registry.
//! It decides who receives what; sending is left to whoever holds the
//! outbound handles' other ends.

use crate::ids::{RoomId, SessionId};
use crate::wire::{joined_text, left_text, welcome_text, Route};
use vstd::prelude::*;

verus! {

/// One routing decision, as the contracts speak of it.
pub enum Notice {
    /// The text is handed to a registered session.
    Deliver { to: SessionId, text: Seq<char> },
    /// The recipient is not registered: the text is dropped.
    Unknown { to: SessionId },
}

/// One routing decision of the hub, to be carried out by the caller.
#[derive(Clone, Debug, PartialEq, Eq)]
pub enum Dispatch {
    /// Hand `text` to the outbound handle of `to`, which is registered.
    Deliver { to: SessionId, text: String },
    /// `to` is not registered: there is nothing to send, only to log.
    UnknownRecipient { to: SessionId },
}

impl View for Dispatch {
    type V = Notice;

    open spec fn view(&self) -> Notice {
        match *self {
            Dispatch::Deliver { to, text } => Notice::Deliver { to, text: text@ },
            Dispatch::UnknownRecipient { to } => Notice::Unknown { to },
        }
    }
}

/// The decisions that a list of dispatches stands for.
pub open spec fn notices(out: Seq<Dispatch>) -> Seq<Notice> {
    out.map_values(|d: Dispatch| d@)
}

/// Why a relay was refused.
#[derive(Clone, Copy, Debug, PartialEq, Eq, Structural)]
pub enum RelayError {
    /// The text is a whisper, but its target token is no identifier.
    MalformedWhisperTarget,
}

/// The decision for one recipient: deliver if it is registered, drop if not.
pub open spec fn notice_for(registered: Set<u128>, to: SessionId, text: Seq<char>) -> Notice {
    if registered.contains(to.value) {
        Notice::Deliver { to, text }
    } else {
        Notice::Unknown { to }
    }
}

/// Whom a decision is about.
pub open spec fn recipient(notice: Notice) -> SessionId {
    match notice {
        Notice::Deliver { to, .. } => to,
        Notice::Unknown { to } => to,
    }
}

/// Whom a list of decisions is about, in its order.
pub open spec fn targets(sent: Seq<Notice>) -> Seq<u128> {
    sent.map_values(|n: Notice| recipient(n).value)
}

/// The values of a list of identifiers, in its order.
pub open spec fn values(list: Seq<SessionId>) -> Seq<u128> {
    list.map_values(|m: SessionId| m.value)
}

/// `sent` is the fan-out of a text to an audience: it holds the decision
/// for each member of the audience once and for nobody else. The order is
/// that in which the room's set was walked, which nothing fixes.
pub open spec fn is_fan_out(
    sent: Seq<Notice>,
    registered: Set<u128>,
    audience: Set<u128>,
    text: Seq<char>,
) -> bool {
    &&& targets(sent).no_duplicates()
    &&& targets(sent).to_set() == audience
    &&& forall|i: int|
        0 <= i < sent.len() ==> #[trigger] sent[i] == notice_for(
            registered,
            recipient(sent[i]),
            text,
        )
}

/// The two registries as mathematical maps: each registered session with
/// its outbound handle, and each room with the set of its members.
pub struct HubState<H> {
    pub sessions: Map<u128, H>,
    pub rooms: Map<u128, Set<u128>>,
}

impl<H> HubState<H> {
    /// No room is empty.
    pub open spec fn well_formed(self) -> bool {
        forall|r: u128| #[trigger] self.rooms.contains_key(r) ==> !self.rooms[r].is_empty()
    }

    /// Every session is a member of at most one room.
    pub open spec fn one_room_each(self) -> bool {
        forall|r1: u128, r2: u128, v: u128|
            self.rooms.contains_key(r1) && self.rooms.contains_key(r2)
                && #[trigger] self.rooms[r1].contains(v) && #[trigger] self.rooms[r2].contains(v)
                ==> r1 == r2
    }

    /// Whether the session registry knows `id`.
    pub open spec fn registered(self, id: SessionId) -> bool {
        self.sessions.contains_key(id.value)
    }

    /// Whether the room registry knows `room`.
    pub open spec fn has_room(self, room: RoomId) -> bool {
        self.rooms.contains_key(room.value)
    }

    /// The members of a room; a room that does not exist has none.
    pub open spec fn members(self, room: RoomId) -> Set<u128> {
        if self.rooms.contains_key(room.value) {
            self.rooms[room.value]
        } else {
            Set::empty()
        }
    }

    /// The registries after a connect.
    pub open spec fn connect(self, id: SessionId, room: RoomId, outbound: H) -> HubState<H> {
        HubState {
            sessions: self.sessions.insert(id.value, outbound),
            rooms: self.rooms.insert(room.value, self.members(room).insert(id.value)),
        }
    }

    /// What a connect sends: the join notice to every other member of the
    /// room, in some order, then the confirmation to the session that
    /// joined.
    pub open spec fn connect_sends(self, id: SessionId, room: RoomId, sent: Seq<Notice>) -> bool {
        &&& sent.len() > 0
        &&& sent.last() == (Notice::Deliver { to: id, text: welcome_text(id) })
        &&& is_fan_out(
            sent.drop_last(),
            self.sessions.dom(),
            self.members(room).remove(id.value),
            joined_text(id),
        )
    }

    /// The registries after a disconnect: unchanged where the session is
    /// not registered; else without it, and its room without it, or without
    /// the room where nobody else is left in it.
    pub open spec fn disconnect(self, id: SessionId, room: RoomId) -> HubState<H> {
        if !self.registered(id) {
            self
        } else {
            HubState {
                sessions: self.sessions.remove(id.value),
                rooms: if !self.has_room(room) {
                    self.rooms
                } else if self.members(room).remove(id.value).is_empty() {
                    self.rooms.remove(room.value)
                } else {
                    self.rooms.insert(room.value, self.members(room).remove(id.value))
                },
            }
        }
    }

    /// What a disconnect sends: nothing where the session is not
    /// registered, else the departure notice to every other member of the
    /// room, in some order.
    pub open spec fn disconnect_sends(self, id: SessionId, room: RoomId, sent: Seq<Notice>) -> bool {
        if !self.registered(id) {
            sent == Seq::<Notice>::empty()
        } else {
            is_fan_out(
                sent,
                self.sessions.dom().remove(id.value),
                self.members(room).remove(id.value),
                left_text(id),
            )
        }
    }

    /// What a relay sends: a whisper goes to its target alone, a malformed
    /// whisper nowhere, anything else to every member of the room, the
    /// sender included, in some order.
    pub open spec fn relay_sends(
        self,
        route: Route,
        room: RoomId,
        text: Seq<char>,
        sent: Seq<Notice>,
    ) -> bool {
        match route {
            Route::Room => is_fan_out(sent, self.sessions.dom(), self.members(room), text),
            Route::Whisper(target) => sent == seq![notice_for(self.sessions.dom(), target, text)],
            Route::Malformed => sent == Seq::<Notice>::empty(),
        }
    }
}

/// What one session receives from a list of decisions: the texts delivered
/// to it, in their order.
pub open spec fn received(out: Seq<Notice>, who: SessionId) -> Seq<Seq<char>>
    decreases out.len(),
{
    if out.len() == 0 {
        Seq::empty()
    } else {
        let before = received(out.drop_last(), who);
        match out.last() {
            Notice::Deliver { to, text } => if to == who {
                before.push(text)
            } else {
                before
            },
            Notice::Unknown { .. } => before,
        }
    }
}

/// A member of a sequence is a member of what the sequence was before its
/// last element, or is that element.
pub proof fn lemma_contains_last<A>(s: Seq<A>, x: A)
    requires
        s.len() > 0,
    ensures
        s.contains(x) <==> s.drop_last().contains(x) || s.last() == x,
        s.no_duplicates() ==> s.drop_last().no_duplicates() && !s.drop_last().contains(s.last()),
{
    let front = s.drop_last();
    if s.contains(x) {
        let i = choose|i: int| 0 <= i < s.len() && s[i] == x;
        if i < front.len() {
            assert(front[i] == x);
        }
    }
    if front.contains(x) {
        let i = choose|i: int| 0 <= i < front.len() && front[i] == x;
        assert(s[i] == x);
    }
    if s.last() == x {
        assert(s[s.len() - 1] == x);
    }
    if s.no_duplicates() && front.contains(s.last()) {
        let i = choose|i: int| 0 <= i < front.len() && front[i] == s.last();
        assert(s[i] == s[s.len() - 1]);
    }
}

/// From decisions about pairwise different recipients, each the decision
/// for its recipient, a session receives the text once if it is among the
/// recipients and registered, and nothing otherwise.
pub proof fn lemma_received_once(
    sent: Seq<Notice>,
    registered: Set<u128>,
    text: Seq<char>,
    who: SessionId,
)
    requires
        targets(sent).no_duplicates(),
        forall|i: int|
            0 <= i < sent.len() ==> #[trigger] sent[i] == notice_for(
                registered,
                recipient(sent[i]),
                text,
            ),
    ensures
        received(sent, who) == if targets(sent).contains(who.value) && registered.contains(
            who.value,
        ) {
            seq![text]
        } else {
            Seq::empty()
        },
    decreases sent.len(),
{
    if sent.len() == 0 {
        assert(!targets(sent).contains(who.value));
    } else {
        let front = sent.drop_last();
        let last = sent.last();
        assert(targets(front) =~= targets(sent).drop_last());
        assert(targets(sent).last() == recipient(last).value);
        lemma_contains_last(targets(sent), who.value);
        assert forall|i: int| 0 <= i < front.len() implies #[trigger] front[i] == notice_for(
            registered,
            recipient(front[i]),
            text,
        ) by {
            assert(front[i] == sent[i]);
        }
        lemma_received_once(front, registered, text, who);
        assert(last == sent[sent.len() - 1]);
        assert(last == notice_for(registered, recipient(last), text));
        assert(recipient(last).value == who.value <==> recipient(last) == who);
        if recipient(last) == who && registered.contains(who.value) {
            assert(Seq::<Seq<char>>::empty().push(text) =~= seq![text]);
        }
    }
}

/// From the fan-out of a text to an audience, a session receives the text
/// once if it is in the audience and registered, and nothing otherwise.
pub proof fn lemma_fan_out_received(
    sent: Seq<Notice>,
    registered: Set<u128>,
    audience: Set<u128>,
    text: Seq<char>,
    who: SessionId,
)
    requires
        is_fan_out(sent, registered, audience, text),
    ensures
        received(sent, who) == if audience.contains(who.value) && registered.contains(who.value) {
            seq![text]
        } else {
            Seq::empty()
        },
{
    lemma_received_once(sent, registered, text, who);
    assert(targets(sent).to_set().contains(who.value) <==> targets(sent).contains(who.value));
}

/// The registries after a run of connects that brings `joiners`, one after
/// the other and each with its outbound handle, into one room.
pub open spec fn connect_all<H>(s: HubState<H>, room: RoomId, joiners: Seq<(SessionId, H)>) -> HubState<
    H,
>
    decreases joiners.len(),
{
    if joiners.len() == 0 {
        s
    } else {
        let (id, outbound) = joiners.last();
        connect_all(s, room, joiners.drop_last()).connect(id, room, outbound)
    }
}

/// `sents` holds, connect by connect, what such a run sends.
pub open spec fn run_sends<H>(
    s: HubState<H>,
    room: RoomId,
    joiners: Seq<(SessionId, H)>,
    sents: Seq<Seq<Notice>>,
) -> bool {
    &&& sents.len() == joiners.len()
    &&& forall|k: int|
        0 <= k < joiners.len() ==> connect_all(s, room, joiners.take(k)).connect_sends(
            joiners[k].0,
            room,
            #[trigger] sents[k],
        )
}

/// What one session receives from several lists of decisions in a row.
pub open spec fn received_all(sents: Seq<Seq<Notice>>, who: SessionId) -> Seq<Seq<char>>
    decreases sents.len(),
{
    if sents.len() == 0 {
        Seq::empty()
    } else {
        received_all(sents.drop_last(), who) + received(sents.last(), who)
    }
}

/// Whether `who` is one of the joiners.
pub open spec fn among<H>(joiners: Seq<(SessionId, H)>, who: SessionId) -> bool {
    exists|i: int| 0 <= i < joiners.len() && (#[trigger] joiners[i]).0 == who
}

/// The join notices of a list of joiners, in its order.
pub open spec fn join_texts<H>(joiners: Seq<(SessionId, H)>) -> Seq<Seq<char>> {
    joiners.map_values(|j: (SessionId, H)| joined_text(j.0))
}

/// No session joins twice in the run, and none of the joiners is in the
/// room before it.
pub open spec fn newcomers<H>(s: HubState<H>, room: RoomId, joiners: Seq<(SessionId, H)>) -> bool {
    &&& forall|i: int, j: int|
        0 <= i < j < joiners.len() ==> (#[trigger] joiners[i]).0 != (#[trigger] joiners[j]).0
    &&& forall|i: int|
        0 <= i < joiners.len() ==> !s.members(room).contains((#[trigger] joiners[i]).0.value)
}

} // verus!
