//! The textual conventions of the hub: the whisper marker, the target token
//! that follows it, and the notices that the hub writes itself.

use crate::ids::{canonical_text, hex_digit, hyphens_before, nibble, SessionId};
use vstd::prelude::*;
use vstd::string::*;

verus! {

/// A text is a whisper if and only if it starts with a backslash, the letter
/// `w` and one space.
pub open spec fn is_whisper(text: Seq<char>) -> bool {
    text.len() >= 3 && text[0] == '\\' && text[1] == 'w' && text[2] == ' '
}

/// Where the token that starts at `from` ends: at the first space at or
/// after `from`, or at the end of the text.
pub open spec fn token_end(text: Seq<char>, from: int) -> int
    decreases text.len() - from,
{
    if from >= text.len() {
        text.len() as int
    } else if text[from] == ' ' {
        from
    } else {
        token_end(text, from + 1)
    }
}

/// The token that names the target of a whisper: what stands between the
/// marker and the next space.
pub open spec fn target_token(text: Seq<char>) -> Seq<char> {
    text.subrange(3, token_end(text, 3))
}

/// Where a message goes.
#[derive(Clone, Copy, Debug, PartialEq, Eq, Structural)]
pub enum Route {
    /// To every member of the sender's room.
    Room,
    /// To one session, whatever room it is in.
    Whisper(SessionId),
    /// Nowhere: the text is a whisper whose target token is no identifier.
    Malformed,
}

/// The route of a text: a whisper goes to the session that its target token
/// names, anything else to the room.
pub open spec fn route_of(text: Seq<char>) -> Route {
    if !is_whisper(text) {
        Route::Room
    } else {
        match SessionId::parsed(target_token(text)) {
            Some(id) => Route::Whisper(id),
            None => Route::Malformed,
        }
    }
}

/// The target token of a whisper, or `None` for a text that is no whisper.
pub fn whisper_token<'a>(text: &'a str) -> (token: Option<&'a str>)
    ensures
        match token {
            Some(t) => is_whisper(text@) && t@ == target_token(text@),
            None => !is_whisper(text@),
        },
{
    let n = text.unicode_len();
    if n < 3 || text.get_char(0) != '\\' || text.get_char(1) != 'w' || text.get_char(2) != ' ' {
        return None;
    }
    let mut end: usize = 3;
    while end < n && text.get_char(end) != ' '
        invariant
            3 <= end <= n,
            n == text@.len(),
            token_end(text@, 3) == token_end(text@, end as int),
        decreases n - end,
    {
        end = end + 1;
    }
    Some(text.substring_char(3, end))
}

/// Decides the route of a text. Whether a target token is an identifier is
/// for the identifier parser to say.
pub fn classify(text: &str) -> (route: Route)
    ensures
        route == route_of(text@),
{
    match whisper_token(text) {
        None => Route::Room,
        Some(token) => match SessionId::parse(token) {
            Some(id) => Route::Whisper(id),
            None => Route::Malformed,
        },
    }
}

/// The text of a whisper to `target`: the marker, the canonical text of
/// the target, a space and the body.
pub open spec fn whisper_text(target: SessionId, body: Seq<char>) -> Seq<char> {
    "\\w "@ + canonical_text(target.value) + " "@ + body
}

/// A token that holds no space ends where the text ends or the next space
/// stands.
pub proof fn lemma_token_ends_at(text: Seq<char>, from: int, end: int)
    requires
        0 <= from <= end <= text.len(),
        forall|i: int| from <= i < end ==> text[i] != ' ',
        end < text.len() ==> text[end] == ' ',
    ensures
        token_end(text, from) == end,
    decreases end - from,
{
    if from < end {
        lemma_token_ends_at(text, from + 1, end);
    }
}

/// The canonical text of an identifier has 36 characters, none of them a
/// space.
pub proof fn lemma_canonical_text(v: u128)
    ensures
        canonical_text(v).len() == 36,
        !canonical_text(v).contains(' '),
{
    reveal_strlit("0123456789abcdef");
    assert forall|i: int| 0 <= i < 36 implies canonical_text(v)[i] != ' ' by {
        if !(i == 8 || i == 13 || i == 18 || i == 23) {
            let n = nibble(v, i - hyphens_before(i));
            assert(0 <= n < 16);
            assert(hex_digit(n) != ' ');
        }
    }
}

/// The target token of a whisper text is the canonical text of its target.
pub proof fn lemma_whisper_text(target: SessionId, body: Seq<char>)
    ensures
        is_whisper(whisper_text(target, body)),
        target_token(whisper_text(target, body)) == canonical_text(target.value),
{
    reveal_strlit("\\w ");
    reveal_strlit(" ");
    lemma_canonical_text(target.value);
    let text = whisper_text(target, body);
    let name = canonical_text(target.value);
    assert(text.len() == 40 + body.len());
    assert forall|i: int| 3 <= i < 39 implies text[i] != ' ' by {
        assert(text[i] == name[i - 3]);
        assert(name.contains(name[i - 3]));
    }
    assert(text[39] == ' ');
    lemma_token_ends_at(text, 3, 39);
    assert(text.subrange(3, 39) =~= name);
}

/// Writes a whisper to `target`. Its route is the whisper to that target.
pub fn whisper(target: SessionId, body: &str) -> (text: String)
    ensures
        text@ == whisper_text(target, body@),
        route_of(text@) == Route::Whisper(target),
{
    let name = target.text();
    let text = String::from_str("\\w ").concat(name.as_str()).concat(" ").concat(body);
    proof {
        lemma_whisper_text(target, body@);
    }
    text
}

/// What the other members of a room are told when a session joins.
pub open spec fn joined_text(id: SessionId) -> Seq<char> {
    canonical_text(id.value) + " just joined!"@
}

/// What a session is told once it is registered.
pub open spec fn welcome_text(id: SessionId) -> Seq<char> {
    "your id is "@ + canonical_text(id.value)
}

/// What the remaining members of a room are told when a session leaves.
pub open spec fn left_text(id: SessionId) -> Seq<char> {
    canonical_text(id.value) + " disconnected."@
}

/// Writes the notice of a join.
pub fn joined_notice(id: SessionId) -> (s: String)
    ensures
        s@ == joined_text(id),
{
    id.text().concat(" just joined!")
}

/// Writes the confirmation that a joining session receives.
pub fn welcome_notice(id: SessionId) -> (s: String)
    ensures
        s@ == welcome_text(id),
{
    let tail = id.text();
    String::from_str("your id is ").concat(tail.as_str())
}

/// Writes the notice of a departure.
pub fn left_notice(id: SessionId) -> (s: String)
    ensures
        s@ == left_text(id),
{
    id.text().concat(" disconnected.")
}

} // verus!
