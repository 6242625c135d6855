//! The lobby: the hub's registries in hash maps and hash sets, and the
//! three requests that it serves one at a time.

use crate::hub::{
    is_fan_out, notice_for, notices, recipient, targets, values, Dispatch, HubState, Notice,
    RelayError,
};
use crate::ids::{RoomId, SessionId};
use crate::wire::{classify, joined_notice, left_notice, route_of, welcome_notice, Route};
use std::collections::{HashMap, HashSet};
use vstd::prelude::*;
use vstd::std_specs::hash::spec_hash_keys_iter;
use vstd::std_specs::iter::IteratorSpec;
use vstd::string::*;

verus! {

/// The session registry and the room registry. `H` is the outbound handle
/// of a session: the lobby keeps it and hands it out, and never looks
/// inside.
pub struct Lobby<H> {
    sessions: HashMap<u128, H>,
    rooms: HashMap<u128, HashSet<u128>>,
}

impl<H> View for Lobby<H> {
    type V = HubState<H>;

    closed spec fn view(&self) -> HubState<H> {
        HubState {
            sessions: self.sessions@,
            rooms: self.rooms@.map_values(|members: HashSet<u128>| members@),
        }
    }
}

/// The members of a set, each once, in the order in which the set is
/// walked.
fn walk(set: &HashSet<u128>) -> (order: Vec<u128>)
    ensures
        order@.no_duplicates(),
        order@.to_set() == set@,
{
    broadcast use vstd::std_specs::hash::group_hash_axioms;

    let mut order: Vec<u128> = Vec::new();
    for member in it: set.iter()
        invariant
            order@.len() == it.index(),
            forall|j: int| 0 <= j < order@.len() ==> order@[j] == *it.seq()[j],
    {
        order.push(*member);
    }
    proof {
        let walked = spec_hash_keys_iter(set).remaining();
        assert(order@ =~= walked.unref());
    }
    order
}

/// The decision for one recipient over a session registry.
fn decide<H>(sessions: &HashMap<u128, H>, message: &str, id_to: &SessionId) -> (d: Dispatch)
    ensures
        d@ == notice_for(sessions@.dom(), *id_to, message@),
{
    broadcast use vstd::std_specs::hash::group_hash_axioms;

    if sessions.contains_key(&id_to.value) {
        Dispatch::Deliver { to: *id_to, text: String::from_str(message) }
    } else {
        Dispatch::UnknownRecipient { to: *id_to }
    }
}

/// The fan-out of a text to the members of a set.
fn fan_out<H>(sessions: &HashMap<u128, H>, members: &HashSet<u128>, text: &str) -> (out: Vec<
    Dispatch,
>)
    ensures
        is_fan_out(notices(out@), sessions@.dom(), members@, text@),
{
    let order = walk(members);
    let mut out: Vec<Dispatch> = Vec::new();
    let mut i: usize = 0;
    while i < order.len()
        invariant
            i <= order.len(),
            out@.len() == i,
            forall|j: int|
                0 <= j < i ==> (#[trigger] out@[j])@ == notice_for(
                    sessions@.dom(),
                    SessionId { value: order@[j] },
                    text@,
                ),
        decreases order.len() - i,
    {
        let to = SessionId { value: order[i] };
        out.push(decide(sessions, text, &to));
        i = i + 1;
    }
    proof {
        let sent = notices(out@);
        assert forall|j: int| 0 <= j < sent.len() implies recipient(#[trigger] sent[j]).value
            == order@[j] && sent[j] == notice_for(sessions@.dom(), recipient(sent[j]), text@) by {
            assert(sent[j] == out@[j]@);
        }
        assert(targets(sent) =~= order@);
    }
    out
}

impl<H> Lobby<H> {
    /// The validity of a lobby: no room is empty.
    #[verifier::type_invariant]
    spec fn valid(&self) -> bool {
        forall|r: u128| #[trigger] self.rooms@.contains_key(r) ==> !self.rooms@[r]@.is_empty()
    }

    /// A lobby without sessions and without rooms.
    pub fn new() -> (lobby: Lobby<H>)
        ensures
            lobby@.well_formed(),
            lobby@.sessions == Map::<u128, H>::empty(),
            lobby@.rooms == Map::<u128, Set<u128>>::empty(),
    {
        let lobby = Lobby { sessions: HashMap::new(), rooms: HashMap::new() };
        proof {
            assert(lobby@.rooms =~= Map::<u128, Set<u128>>::empty());
        }
        lobby
    }

    /// The decision for one recipient: deliver if it is registered, else
    /// drop. A missing recipient is an ordinary outcome.
    pub fn send_message(&self, message: &str, id_to: &SessionId) -> (d: Dispatch)
        ensures
            d@ == notice_for(self@.sessions.dom(), *id_to, message@),
            self@.well_formed(),
    {
        proof {
            use_type_invariant(self);
        }
        decide(&self.sessions, message, id_to)
    }

    /// Connect: registers the session with its outbound handle, puts it
    /// into the room, which comes into being if it was not there, tells
    /// every other member of the room that it joined, and then tells the
    /// session its identifier.
    pub fn connect(&mut self, id: SessionId, room: RoomId, outbound: H) -> (out: Vec<Dispatch>)
        ensures
            final(self)@.well_formed(),
            final(self)@ == old(self)@.connect(id, room, outbound),
            old(self)@.connect_sends(id, room, notices(out@)),
    {
        broadcast use vstd::std_specs::hash::group_hash_axioms;

        proof {
            use_type_invariant(&*self);
        }
        let mut rooms: HashMap<u128, HashSet<u128>> = HashMap::new();
        std::mem::swap(&mut rooms, &mut self.rooms);
        let mut members = match rooms.remove(&room.value) {
            Some(members) => members,
            None => HashSet::new(),
        };
        assert(members@ == old(self)@.members(room));
        members.remove(&id.value);
        let joined_note = joined_notice(id);
        let mut out = fan_out(&self.sessions, &members, joined_note.as_str());
        let ghost others = notices(out@);
        members.insert(id.value);
        proof {
            assert(members@ =~= old(self)@.members(room).insert(id.value));
            assert(members@.contains(id.value));
            assert(rooms@.insert(room.value, members).map_values(
                |members: HashSet<u128>| members@,
            ) =~= old(self)@.rooms.insert(room.value, members@));
        }
        rooms.insert(room.value, members);
        self.rooms = rooms;
        let mut sessions: HashMap<u128, H> = HashMap::new();
        std::mem::swap(&mut sessions, &mut self.sessions);
        sessions.insert(id.value, outbound);
        self.sessions = sessions;
        out.push(Dispatch::Deliver { to: id, text: welcome_notice(id) });
        proof {
            assert(notices(out@).drop_last() =~= others);
        }
        out
    }

    /// Disconnect: a no-op for a session that is not registered. Else the
    /// session leaves the registry, every other member of the room is told
    /// so, and the room loses the session, or goes where nobody else is
    /// left in it. A room that does not exist is left alone.
    pub fn disconnect(&mut self, id: SessionId, room: RoomId) -> (out: Vec<Dispatch>)
        ensures
            final(self)@.well_formed(),
            final(self)@ == old(self)@.disconnect(id, room),
            old(self)@.disconnect_sends(id, room, notices(out@)),
    {
        broadcast use vstd::std_specs::hash::group_hash_axioms;

        proof {
            use_type_invariant(&*self);
        }
        let mut sessions: HashMap<u128, H> = HashMap::new();
        std::mem::swap(&mut sessions, &mut self.sessions);
        let known = sessions.remove(&id.value).is_some();
        self.sessions = sessions;
        if !known {
            assert(self.sessions@ =~= old(self).sessions@);
            assert(self@ == old(self)@);
            let out: Vec<Dispatch> = Vec::new();
            assert(notices(out@) =~= Seq::<Notice>::empty());
            return out;
        }
        assert(self.sessions@.dom() =~= old(self)@.sessions.dom().remove(id.value));
        let mut rooms: HashMap<u128, HashSet<u128>> = HashMap::new();
        std::mem::swap(&mut rooms, &mut self.rooms);
        let out = match rooms.remove(&room.value) {
            None => {
                assert(rooms@ =~= old(self).rooms@);
                let out: Vec<Dispatch> = Vec::new();
                proof {
                    let nobody = Set::<u128>::empty();
                    assert(nobody.remove(id.value) =~= nobody);
                    assert(targets(notices(out@)).to_set() =~= nobody);
                }
                out
            },
            Some(mut members) => {
                assert(members@ == old(self)@.rooms[room.value]);
                members.remove(&id.value);
                let left_note = left_notice(id);
                let out = fan_out(&self.sessions, &members, left_note.as_str());
                proof {
                    if !members@.is_empty() {
                        assert(rooms@.insert(room.value, members).map_values(
                            |members: HashSet<u128>| members@,
                        ) =~= old(self)@.rooms.insert(room.value, members@));
                    } else {
                        assert(rooms@.map_values(|members: HashSet<u128>| members@)
                            =~= old(self)@.rooms.remove(room.value));
                    }
                }
                if !members.is_empty() {
                    rooms.insert(room.value, members);
                }
                out
            },
        };
        assert(rooms@.map_values(|members: HashSet<u128>| members@) == old(self)@.disconnect(
            id,
            room,
        ).rooms);
        self.rooms = rooms;
        out
    }

    /// Carries a text along a route that was decided before: to the one
    /// target of a whisper, or to every member of the room. A malformed
    /// route is refused and nothing is sent.
    pub fn dispatch(&self, route: Route, room: RoomId, text: &str) -> (r: Result<
        Vec<Dispatch>,
        RelayError,
    >)
        ensures
            self@.well_formed(),
            route == Route::Malformed ==> r matches Err(RelayError::MalformedWhisperTarget),
            route != Route::Malformed ==> r is Ok && self@.relay_sends(
                route,
                room,
                text@,
                notices(r->Ok_0@),
            ),
    {
        broadcast use vstd::std_specs::hash::group_hash_axioms;

        proof {
            use_type_invariant(self);
        }
        match route {
            Route::Malformed => Err(RelayError::MalformedWhisperTarget),
            Route::Whisper(target) => {
                let d = decide(&self.sessions, text, &target);
                let out = vec![d];
                assert(notices(out@) =~= seq![d@]);
                Ok(out)
            },
            Route::Room => match self.rooms.get(&room.value) {
                Some(members) => Ok(fan_out(&self.sessions, members, text)),
                None => {
                    let out: Vec<Dispatch> = Vec::new();
                    assert(targets(notices(out@)).to_set() =~= Set::<u128>::empty());
                    Ok(out)
                },
            },
        }
    }

    /// Relay: routes a text that `_sender` sent from `room`. A whisper goes
    /// verbatim to its target alone, anything else verbatim to every member
    /// of the room, the sender included.
    pub fn relay(&self, _sender: SessionId, room: RoomId, text: &str) -> (r: Result<
        Vec<Dispatch>,
        RelayError,
    >)
        ensures
            self@.well_formed(),
            route_of(text@) == Route::Malformed ==> r matches Err(
                RelayError::MalformedWhisperTarget,
            ),
            route_of(text@) != Route::Malformed ==> r is Ok && self@.relay_sends(
                route_of(text@),
                room,
                text@,
                notices(r->Ok_0@),
            ),
    {
        self.dispatch(classify(text), room, text)
    }

    /// The outbound handle of a session, if it is registered.
    pub fn outbound(&self, id: &SessionId) -> (handle: Option<&H>)
        ensures
            match handle {
                Some(h) => self@.registered(*id) && *h == self@.sessions[id.value],
                None => !self@.registered(*id),
            },
    {
        broadcast use vstd::std_specs::hash::group_hash_axioms;

        self.sessions.get(&id.value)
    }

    /// Whether a session is registered.
    pub fn is_registered(&self, id: &SessionId) -> (b: bool)
        ensures
            b == self@.registered(*id),
    {
        broadcast use vstd::std_specs::hash::group_hash_axioms;

        self.sessions.contains_key(&id.value)
    }

    /// Whether a room exists.
    pub fn has_room(&self, room: &RoomId) -> (b: bool)
        ensures
            b == self@.has_room(*room),
    {
        broadcast use vstd::std_specs::hash::group_hash_axioms;

        self.rooms.contains_key(&room.value)
    }

    /// Whether a session is a member of a room.
    pub fn is_member(&self, room: &RoomId, id: &SessionId) -> (b: bool)
        ensures
            b == self@.members(*room).contains(id.value),
    {
        broadcast use vstd::std_specs::hash::group_hash_axioms;

        match self.rooms.get(&room.value) {
            Some(members) => members.contains(&id.value),
            None => false,
        }
    }

    /// The members of a room, each once, in the order in which its set is
    /// walked; none for a room that does not exist.
    pub fn members(&self, room: &RoomId) -> (list: Vec<SessionId>)
        ensures
            values(list@).no_duplicates(),
            values(list@).to_set() == self@.members(*room),
    {
        broadcast use vstd::std_specs::hash::group_hash_axioms;

        let mut list: Vec<SessionId> = Vec::new();
        match self.rooms.get(&room.value) {
            Some(members) => {
                let order = walk(members);
                let mut i: usize = 0;
                while i < order.len()
                    invariant
                        i <= order.len(),
                        list@.len() == i,
                        forall|j: int| 0 <= j < i ==> (#[trigger] list@[j]).value == order@[j],
                    decreases order.len() - i,
                {
                    list.push(SessionId { value: order[i] });
                    i = i + 1;
                }
                assert(values(list@) =~= order@);
            },
            None => {
                assert(values(list@).to_set() =~= Set::<u128>::empty());
            },
        }
        list
    }
}

impl<H> Default for Lobby<H> {
    fn default() -> (lobby: Lobby<H>)
        ensures
            lobby@.well_formed(),
            lobby@.sessions == Map::<u128, H>::empty(),
            lobby@.rooms == Map::<u128, Set<u128>>::empty(),
    {
        Lobby::new()
    }
}

} // verus!
