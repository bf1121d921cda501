//! The envelope: one upstream text payload framed with the identifier of the
//! feed it came from.
//!
//! An envelope is built by concatenation. The payload is embedded as received,
//! character for character, so that numeric precision and key order of the
//! upstream text survive.

use crate::json::{
    colon_after, comma_at, is_json_text, is_member, is_members, is_object_of, is_unescaped,
    lemma_object_is_json_text, lemma_string_is_json_text, lemma_unescaped_is_string_body, quoted,
    Member,
};
use vstd::prelude::*;
use vstd::string::*;

verus! {

/// The text of the envelope that carries `data` from the feed `exchange`:
/// `{"exchange":"<exchange>","data":<data>}`.
pub open spec fn envelope_text(exchange: Seq<char>, data: Seq<char>) -> Seq<char> {
    "{\"exchange\":\""@ + exchange + "\",\"data\":"@ + data + "}"@
}

/// The length of what stands before the identifier: `{"exchange":"`.
const HEAD_LEN: usize = 13;

/// The length of what stands between identifier and payload: `","data":`.
const MID_LEN: usize = 9;

/// Frames one upstream payload as an envelope.
pub fn wrap(exchange: &str, data: &str) -> (frame: String)
    ensures
        frame@ == envelope_text(exchange@, data@),
{
    let mut frame = String::from_str("{\"exchange\":\"");
    frame.append(exchange);
    frame.append("\",\"data\":");
    frame.append(data);
    frame.append("}");
    frame
}

/// Whether `id` can name a feed: it is not empty, and a string holds each of
/// its characters as it is, without an escape.
pub open spec fn is_identifier(id: Seq<char>) -> bool {
    id.len() > 0 && forall|i: int| 0 <= i < id.len() ==> is_unescaped(#[trigger] id[i])
}

/// Tests whether `id` can name a feed.
pub fn valid_identifier(id: &str) -> (ok: bool)
    ensures
        ok == is_identifier(id@),
{
    let mut any = false;
    let mut plain = true;
    for c in it: id.chars()
        invariant
            it.seq() == id@,
            any == (it.index() > 0),
            plain == (forall|i: int| 0 <= i < it.index() ==> is_unescaped(#[trigger] id@[i])),
    {
        if c == '"' || c == '\\' || (c as u32) < 0x20 {
            plain = false;
        }
        any = true;
    }
    plain && any
}

/// The position of the first quotation mark of `s` at or after `from`, or
/// the length of `s` where there is none.
pub open spec fn first_quote(s: Seq<char>, from: int) -> int
    decreases s.len() - from,
{
    if from < 0 || from >= s.len() {
        s.len() as int
    } else if s[from] == '"' {
        from
    } else {
        first_quote(s, from + 1)
    }
}

/// The identifier and the payload that the envelope `frame` carries, or
/// `None` where `frame` is no envelope. The identifier ends at the first
/// quotation mark; the payload is all that stands between `"data":` and the
/// closing brace.
pub open spec fn fields_of(frame: Seq<char>) -> Option<(Seq<char>, Seq<char>)> {
    let head = "{\"exchange\":\""@;
    let mid = "\",\"data\":"@;
    let quote = first_quote(frame, head.len() as int);
    if frame.len() >= head.len() + mid.len() + 1 && frame.take(head.len() as int) == head && quote
        + mid.len() < frame.len() && frame.subrange(quote, quote + mid.len()) == mid
        && frame.last() == '}' {
        Some(
            (
                frame.subrange(head.len() as int, quote),
                frame.subrange(quote + mid.len(), frame.len() - 1),
            ),
        )
    } else {
        None
    }
}

/// Where `s` has its first quotation mark from `from` on.
proof fn lemma_first_quote(s: Seq<char>, from: int, at: int)
    requires
        0 <= from <= at < s.len(),
        s[at] == '"',
        forall|i: int| from <= i < at ==> s[i] != '"',
    ensures
        first_quote(s, from) == at,
    decreases at - from,
{
    if from < at {
        lemma_first_quote(s, from + 1, at);
    }
}

/// Where `s` has no quotation mark from `from` on.
proof fn lemma_no_quote(s: Seq<char>, from: int)
    requires
        0 <= from <= s.len(),
        forall|i: int| from <= i < s.len() ==> s[i] != '"',
    ensures
        first_quote(s, from) == s.len(),
    decreases s.len() - from,
{
    if from < s.len() {
        lemma_no_quote(s, from + 1);
    }
}

/// Tests whether `word` stands in `text` at the position `at`.
fn stands_at(text: &str, at: usize, word: &str) -> (ok: bool)
    requires
        at + word@.len() <= text@.len() <= usize::MAX,
    ensures
        ok == (text@.subrange(at as int, at + word@.len()) == word@),
{
    let n = word.unicode_len();
    let mut i: usize = 0;
    while i < n
        invariant
            i <= n,
            n == word@.len(),
            at + n <= text@.len() <= usize::MAX,
            forall|j: int| 0 <= j < i ==> text@[at + j] == word@[j],
        decreases n - i,
    {
        if text.get_char(at + i) != word.get_char(i) {
            assert(text@.subrange(at as int, at + n)[i as int] != word@[i as int]);
            return false;
        }
        i += 1;
    }
    assert(text@.subrange(at as int, at + n) =~= word@);
    true
}

/// Finds the first quotation mark of `text` at or after the position `from`.
fn find_quote(text: &str, from: usize) -> (at: usize)
    requires
        from <= text@.len(),
    ensures
        at == first_quote(text@, from as int),
        from <= at <= text@.len(),
{
    let n = text.unicode_len();
    let mut i: usize = 0;
    let mut found: Option<usize> = None;
    for c in it: text.chars()
        invariant
            it.seq() == text@,
            n == text@.len(),
            i == it.index(),
            match found {
                Some(at) => from <= at < i && text@[at as int] == '"' && forall|j: int|
                    from <= j < at ==> text@[j] != '"',
                None => forall|j: int| from <= j < i ==> text@[j] != '"',
            },
    {
        if found.is_none() && i >= from && c == '"' {
            found = Some(i);
        }
        i += 1;
    }
    match found {
        Some(at) => {
            proof {
                lemma_first_quote(text@, from as int, at as int);
            }
            at
        },
        None => {
            proof {
                lemma_no_quote(text@, from as int);
            }
            n
        },
    }
}

/// Reads an envelope back: the identifier and the payload that `frame`
/// carries, or `None` where `frame` is no envelope.
pub fn split(frame: &str) -> (r: Option<(String, String)>)
    ensures
        match r {
            Some(fields) => fields_of(frame@) == Some((fields.0@, fields.1@)),
            None => fields_of(frame@) is None,
        },
{
    proof {
        reveal_strlit("{\"exchange\":\"");
        reveal_strlit("\",\"data\":");
    }
    let n = frame.unicode_len();
    if n < HEAD_LEN + MID_LEN + 1 || !stands_at(frame, 0, "{\"exchange\":\"") {
        return None;
    }
    let quote = find_quote(frame, HEAD_LEN);
    if n - quote <= MID_LEN || !stands_at(frame, quote, "\",\"data\":") || frame.get_char(n - 1)
        != '}' {
        return None;
    }
    let exchange = String::from_str(frame.substring_char(HEAD_LEN, quote));
    let data = String::from_str(frame.substring_char(quote + MID_LEN, n - 1));
    Some((exchange, data))
}

/// The members of the envelope that carries `data` from the feed `exchange`:
/// `exchange`, a string that holds the identifier, and `data`, the payload.
pub open spec fn envelope_members(exchange: Seq<char>, data: Seq<char>) -> Seq<Member> {
    seq![
        Member { name: "exchange"@, value: quoted(exchange) },
        Member { name: "data"@, value: data },
    ]
}

/// Envelope well-formedness: where the payload is a JSON text, the envelope
/// is a JSON text too, namely the object with exactly the members `exchange`
/// and `data`, in this order; `exchange` is the feed's identifier as a string
/// without escapes, and `data` is the payload, character for character.
pub proof fn lemma_envelope_is_object(exchange: Seq<char>, data: Seq<char>)
    requires
        is_identifier(exchange),
        is_json_text(data),
    ensures
        is_object_of(envelope_text(exchange, data), envelope_members(exchange, data)),
        is_json_text(envelope_text(exchange, data)),
{
    reveal_strlit("{\"exchange\":\"");
    reveal_strlit("\",\"data\":");
    reveal_strlit("}");
    reveal_strlit("exchange");
    reveal_strlit("data");
    let text = envelope_text(exchange, data);
    let members = envelope_members(exchange, data);
    let inner = text.subrange(1, text.len() - 1);
    let comma = exchange.len() as int + 13;
    let first = inner.take(comma);
    let second = inner.skip(comma + 1);

    lemma_unescaped_is_string_body("exchange"@);
    lemma_unescaped_is_string_body("data"@);
    lemma_unescaped_is_string_body(exchange);
    lemma_string_is_json_text(exchange);

    assert(is_member(first, members[0])) by {
        assert(first.subrange(0, 10) =~= quoted("exchange"@));
        assert(first.skip(11) =~= quoted(exchange));
        assert(colon_after(first, 0, 10, 10));
    }
    assert(is_member(second, members[1])) by {
        assert(second.subrange(0, 6) =~= quoted("data"@));
        assert(second.skip(7) =~= data);
        assert(colon_after(second, 0, 6, 6));
    }
    assert(is_members(inner, members)) by {
        assert(members.skip(1) =~= seq![members[1]]);
        assert(is_members(second, members.skip(1)));
        assert(comma_at(inner, comma));
    }
    lemma_object_is_json_text(text, members);
}

/// Payload preservation: an envelope gives back the identifier and the
/// payload it was built from, character for character, whatever the payload
/// holds.
pub proof fn lemma_fields_of_envelope(exchange: Seq<char>, data: Seq<char>)
    requires
        is_identifier(exchange),
    ensures
        fields_of(envelope_text(exchange, data)) == Some((exchange, data)),
{
    reveal_strlit("{\"exchange\":\"");
    reveal_strlit("\",\"data\":");
    reveal_strlit("}");
    let frame = envelope_text(exchange, data);
    let head = "{\"exchange\":\""@;
    let mid = "\",\"data\":"@;
    let quote = exchange.len() as int + 13;
    assert(frame.take(13) =~= head);
    assert forall|i: int| 13 <= i < quote implies frame[i] != '"' by {
        assert(frame[i] == exchange[i - 13]);
    }
    lemma_first_quote(frame, 13, quote);
    assert(frame.subrange(quote, quote + 9) =~= mid);
    assert(frame.subrange(13, quote) =~= exchange);
    assert(frame.subrange(quote + 9, frame.len() - 1) =~= data);
}

/// Two envelopes with the same text come from the same feed and carry the
/// same payload.
pub proof fn lemma_envelope_text_is_injective(
    exchange: Seq<char>,
    data: Seq<char>,
    other_exchange: Seq<char>,
    other_data: Seq<char>,
)
    requires
        is_identifier(exchange),
        is_identifier(other_exchange),
        envelope_text(exchange, data) == envelope_text(other_exchange, other_data),
    ensures
        exchange == other_exchange,
        data == other_data,
{
    lemma_fields_of_envelope(exchange, data);
    lemma_fields_of_envelope(other_exchange, other_data);
}

} // verus!
