//! The JSON grammar: which character sequences are JSON texts, and which of
//! them are objects with given members.
//!
//! The definitions follow the grammar production by production. They say what
//! a text is, not how to parse one: the gateway never parses a payload.

use vstd::prelude::*;

verus! {

/// Insignificant whitespace: space, tab, line feed, carriage return.
pub open spec fn is_ws_char(c: char) -> bool {
    c == ' ' || c == '\t' || c == '\n' || c == '\r'
}

/// Whether `s` is whitespace throughout. The empty sequence is.
pub open spec fn is_ws(s: Seq<char>) -> bool {
    forall|i: int| 0 <= i < s.len() ==> is_ws_char(#[trigger] s[i])
}

/// A decimal digit.
pub open spec fn is_digit(c: char) -> bool {
    0x30 <= (c as u32) <= 0x39
}

/// A hexadecimal digit, in either case.
pub open spec fn is_hex_digit(c: char) -> bool {
    is_digit(c) || 0x41 <= (c as u32) <= 0x46 || 0x61 <= (c as u32) <= 0x66
}

/// One or more digits.
pub open spec fn is_digits(s: Seq<char>) -> bool {
    s.len() > 0 && forall|i: int| 0 <= i < s.len() ==> is_digit(#[trigger] s[i])
}

/// The integer part of a number: an optional minus, then a single zero or
/// digits that do not start with zero.
pub open spec fn is_int_part(s: Seq<char>) -> bool {
    let digits = if s.len() > 0 && s[0] == '-' {
        s.skip(1)
    } else {
        s
    };
    is_digits(digits) && (digits.len() == 1 || digits[0] != '0')
}

/// The fraction of a number: a point and digits.
pub open spec fn is_frac(s: Seq<char>) -> bool {
    s.len() > 0 && s[0] == '.' && is_digits(s.skip(1))
}

/// The exponent of a number: `e` or `E`, an optional sign, and digits.
pub open spec fn is_exp(s: Seq<char>) -> bool {
    &&& s.len() > 1
    &&& s[0] == 'e' || s[0] == 'E'
    &&& if s[1] == '+' || s[1] == '-' {
        is_digits(s.skip(2))
    } else {
        is_digits(s.skip(1))
    }
}

/// Whether `a` and `b` cut `s` in three: `0 <= a <= b <= s.len()`.
pub open spec fn cuts(s: Seq<char>, a: int, b: int) -> bool {
    0 <= a <= b <= s.len()
}

/// Whether `s` has a comma at `k`.
pub open spec fn comma_at(s: Seq<char>, k: int) -> bool {
    0 <= k < s.len() && s[k] == ','
}

/// Whether `a` and `b` cut `s` before a colon at `c`.
pub open spec fn colon_after(s: Seq<char>, a: int, b: int, c: int) -> bool {
    0 <= a <= b <= c < s.len() && s[c] == ':'
}

/// A number: an integer part, then a fraction and an exponent, each of which
/// may be absent.
pub open spec fn is_number(s: Seq<char>) -> bool {
    exists|a: int, b: int|
        #[trigger] cuts(s, a, b) && is_int_part(s.take(a)) && (a == b || is_frac(s.subrange(a, b)))
            && (b == s.len() || is_exp(s.skip(b)))
}

/// One of the three literal names.
pub open spec fn is_literal(s: Seq<char>) -> bool {
    s == "true"@ || s == "false"@ || s == "null"@
}

/// A character that a string holds as it is: anything but the quotation
/// mark, the backslash and the control characters.
pub open spec fn is_unescaped(c: char) -> bool {
    c != '"' && c != '\\' && (c as u32) >= 0x20
}

/// A character that may follow a backslash on its own.
pub open spec fn is_escape(c: char) -> bool {
    c == '"' || c == '\\' || c == '/' || c == 'b' || c == 'f' || c == 'n' || c == 'r' || c == 't'
}

/// What stands between the quotation marks of a string: unescaped
/// characters, two-character escapes, and `\u` with four hexadecimal digits.
pub open spec fn is_string_body(s: Seq<char>) -> bool
    decreases s.len(),
{
    if s.len() == 0 {
        true
    } else if s[0] != '\\' {
        is_unescaped(s[0]) && is_string_body(s.skip(1))
    } else if s.len() >= 2 && is_escape(s[1]) {
        is_string_body(s.skip(2))
    } else {
        &&& s.len() >= 6
        &&& s[1] == 'u'
        &&& is_hex_digit(s[2])
        &&& is_hex_digit(s[3])
        &&& is_hex_digit(s[4])
        &&& is_hex_digit(s[5])
        &&& is_string_body(s.skip(6))
    }
}

/// `body` between quotation marks.
pub open spec fn quoted(body: Seq<char>) -> Seq<char> {
    seq!['"'] + body + seq!['"']
}

/// A string: a string body between quotation marks.
pub open spec fn is_string(s: Seq<char>) -> bool {
    s.len() >= 2 && s == quoted(s.subrange(1, s.len() - 1)) && is_string_body(
        s.subrange(1, s.len() - 1),
    )
}

/// A value: a literal name, a number, a string, an array or an object.
pub open spec fn is_value(s: Seq<char>) -> bool
    decreases s.len(), 1int,
{
    is_literal(s) || is_number(s) || is_string(s) || is_array(s) || is_object(s)
}

/// A JSON text: a value with whitespace around it.
pub open spec fn is_json_text(s: Seq<char>) -> bool
    decreases s.len(), 2int,
{
    exists|a: int, b: int|
        #[trigger] cuts(s, a, b) && is_ws(s.take(a)) && is_value(s.subrange(a, b)) && is_ws(
            s.skip(b),
        )
}

/// One or more JSON texts with commas between them.
pub open spec fn is_elements(s: Seq<char>) -> bool
    decreases s.len(), 3int,
{
    is_json_text(s) || exists|k: int|
        #[trigger] comma_at(s, k) && is_json_text(s.take(k)) && is_elements(s.skip(k + 1))
}

/// An array: brackets around whitespace or elements.
pub open spec fn is_array(s: Seq<char>) -> bool
    decreases s.len(), 0int,
{
    s.len() >= 2 && s[0] == '[' && s.last() == ']' && (is_ws(s.subrange(1, s.len() - 1))
        || is_elements(s.subrange(1, s.len() - 1)))
}

/// A name with its value: a string, a colon and a JSON text, with whitespace
/// allowed around the string.
pub open spec fn is_field(s: Seq<char>) -> bool
    decreases s.len(), 3int,
{
    exists|a: int, b: int, c: int|
        #[trigger] colon_after(s, a, b, c) && is_ws(s.take(a)) && is_string(s.subrange(a, b))
            && is_ws(s.subrange(b, c)) && is_json_text(s.skip(c + 1))
}

/// One or more fields with commas between them.
pub open spec fn is_fields(s: Seq<char>) -> bool
    decreases s.len(), 4int,
{
    is_field(s) || exists|k: int|
        #[trigger] comma_at(s, k) && is_field(s.take(k)) && is_fields(s.skip(k + 1))
}

/// An object: braces around whitespace or fields.
pub open spec fn is_object(s: Seq<char>) -> bool
    decreases s.len(), 0int,
{
    s.len() >= 2 && s[0] == '{' && s.last() == '}' && (is_ws(s.subrange(1, s.len() - 1))
        || is_fields(s.subrange(1, s.len() - 1)))
}

/// A member of an object, by its name and the text of its value.
pub struct Member {
    /// What stands between the quotation marks of the member's name.
    pub name: Seq<char>,
    /// The member's value, with the whitespace around it.
    pub value: Seq<char>,
}

/// Whether `s` is the field that gives `member.name` the value
/// `member.value`.
pub open spec fn is_member(s: Seq<char>, member: Member) -> bool {
    exists|a: int, b: int, c: int|
        #[trigger] colon_after(s, a, b, c) && is_ws(s.take(a)) && s.subrange(a, b) == quoted(
            member.name,
        ) && is_string_body(member.name) && is_ws(s.subrange(b, c)) && s.skip(c + 1)
            == member.value && is_json_text(member.value)
}

/// Whether `s` is the fields that make up `members`, in this order. There is
/// at least one.
pub open spec fn is_members(s: Seq<char>, members: Seq<Member>) -> bool
    decreases members.len(),
{
    if members.len() == 0 {
        false
    } else if members.len() == 1 {
        is_member(s, members[0])
    } else {
        exists|k: int|
            #[trigger] comma_at(s, k) && is_member(s.take(k), members[0]) && is_members(
                s.skip(k + 1),
                members.skip(1),
            )
    }
}

/// Whether `s` is the object that has exactly the members `members`, in
/// this order.
pub open spec fn is_object_of(s: Seq<char>, members: Seq<Member>) -> bool {
    &&& s.len() >= 2
    &&& s[0] == '{'
    &&& s.last() == '}'
    &&& if members.len() == 0 {
        is_ws(s.subrange(1, s.len() - 1))
    } else {
        is_members(s.subrange(1, s.len() - 1), members)
    }
}

/// A sequence of unescaped characters is a string body.
pub proof fn lemma_unescaped_is_string_body(s: Seq<char>)
    requires
        forall|i: int| 0 <= i < s.len() ==> is_unescaped(#[trigger] s[i]),
    ensures
        is_string_body(s),
    decreases s.len(),
{
    if s.len() > 0 {
        lemma_unescaped_is_string_body(s.skip(1));
    }
}

/// A value is a JSON text.
pub proof fn lemma_value_is_json_text(s: Seq<char>)
    requires
        is_value(s),
    ensures
        is_json_text(s),
{
    assert(s.subrange(0, s.len() as int) =~= s);
    assert(cuts(s, 0, s.len() as int));
}

/// A string body between quotation marks is a string, and so a JSON text.
pub proof fn lemma_string_is_json_text(body: Seq<char>)
    requires
        is_string_body(body),
    ensures
        is_string(quoted(body)),
        is_json_text(quoted(body)),
{
    let s = quoted(body);
    assert(s.subrange(1, s.len() - 1) =~= body);
    assert(is_value(s));
    lemma_value_is_json_text(s);
}

/// The fields that make up a member are a field.
pub proof fn lemma_member_is_field(s: Seq<char>, member: Member)
    requires
        is_member(s, member),
    ensures
        is_field(s),
{
    let (a, b, c) = choose|a: int, b: int, c: int|
        #[trigger] colon_after(s, a, b, c) && is_ws(s.take(a)) && s.subrange(a, b) == quoted(
            member.name,
        ) && is_string_body(member.name) && is_ws(s.subrange(b, c)) && s.skip(c + 1)
            == member.value && is_json_text(member.value);
    lemma_string_is_json_text(member.name);
}

/// The fields that make up members are fields.
pub proof fn lemma_members_are_fields(s: Seq<char>, members: Seq<Member>)
    requires
        is_members(s, members),
    ensures
        is_fields(s),
    decreases members.len(),
{
    if members.len() == 1 {
        lemma_member_is_field(s, members[0]);
    } else {
        let k = choose|k: int|
            #[trigger] comma_at(s, k) && is_member(s.take(k), members[0]) && is_members(
                s.skip(k + 1),
                members.skip(1),
            );
        lemma_member_is_field(s.take(k), members[0]);
        lemma_members_are_fields(s.skip(k + 1), members.skip(1));
    }
}

/// An object with given members is an object, and so a JSON text.
pub proof fn lemma_object_is_json_text(s: Seq<char>, members: Seq<Member>)
    requires
        is_object_of(s, members),
    ensures
        is_object(s),
        is_json_text(s),
{
    if members.len() > 0 {
        lemma_members_are_fields(s.subrange(1, s.len() - 1), members);
    }
    assert(is_value(s));
    lemma_value_is_json_text(s);
}

} // verus!
