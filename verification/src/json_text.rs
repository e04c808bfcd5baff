//! JSON string literals, as the canonical form of a catalog writes them.

use vstd::prelude::*;

verus! {

/// How a JSON string literal writes one character: the quote, the backslash and
/// the control characters as escapes, everything else as it is.
pub open spec fn json_escape(c: char) -> Seq<char> {
    if c == '"' {
        seq!['\\', '"']
    } else if c == '\\' {
        seq!['\\', '\\']
    } else if c == '\u{8}' {
        seq!['\\', 'b']
    } else if c == '\t' {
        seq!['\\', 't']
    } else if c == '\n' {
        seq!['\\', 'n']
    } else if c == '\u{c}' {
        seq!['\\', 'f']
    } else if c == '\r' {
        seq!['\\', 'r']
    } else if ' ' > c {
        seq![
            '\\',
            'u',
            '0',
            '0',
            crate::identity::hex_digit(c as nat / 16),
            crate::identity::hex_digit(c as nat % 16),
        ]
    } else {
        seq![c]
    }
}

/// What stands between the quotes of a JSON string literal.
pub open spec fn json_escaped(s: Seq<char>) -> Seq<char>
    decreases s.len(),
{
    if s.len() == 0 {
        Seq::empty()
    } else {
        json_escape(s[0]) + json_escaped(s.drop_first())
    }
}

/// The JSON string literal of `s`.
pub open spec fn json_text(s: Seq<char>) -> Seq<char> {
    seq!['"'] + json_escaped(s) + seq!['"']
}

/// The error of `serde_json`.
#[verifier::external_type_specification]
#[verifier::external_body]
pub struct ExJsonError(serde_json::Error);

/// `serde_json::to_string` of a string slice: its JSON string literal. It does
/// not fail, for a string slice has no key that is no string and its
/// serialization never fails by itself.
#[verifier::external_body]
fn to_json_string(s: &str) -> (r: Result<String, serde_json::Error>)
    ensures
        r is Ok,
        r->Ok_0@ == json_text(s@),
{
    serde_json::to_string(s)
}

/// The JSON string literal of `s`.
pub fn json_string(s: &str) -> (r: String)
    ensures
        r@ == json_text(s@),
{
    to_json_string(s).unwrap()
}

proof fn hex_digits_differ(a: nat, b: nat)
    requires
        a < 16,
        b < 16,
        crate::identity::hex_digit(a) == crate::identity::hex_digit(b),
    ensures
        a == b,
{
}

/// The first escape of a text is determined by the text.
proof fn escape_is_unique(a: char, s: Seq<char>, b: char, t: Seq<char>)
    requires
        json_escape(a) + s == json_escape(b) + t,
    ensures
        a == b,
        s == t,
{
    let whole = json_escape(a) + s;
    let other = json_escape(b) + t;
    assert(whole[0] == json_escape(a)[0] && other[0] == json_escape(b)[0]);
    if json_escape(a).len() > 1 && json_escape(b).len() > 1 {
        assert(whole[1] == json_escape(a)[1] && other[1] == json_escape(b)[1]);
        if json_escape(a).len() == 6 && json_escape(b).len() == 6 {
            assert(whole[4] == json_escape(a)[4] && other[4] == json_escape(b)[4]);
            assert(whole[5] == json_escape(a)[5] && other[5] == json_escape(b)[5]);
            hex_digits_differ(a as nat / 16, b as nat / 16);
            hex_digits_differ(a as nat % 16, b as nat % 16);
        }
    }
    assert(a == b);
    assert(s =~= whole.skip(json_escape(a).len() as int));
    assert(t =~= other.skip(json_escape(b).len() as int));
}

proof fn escaped_is_unique(a: Seq<char>, s: Seq<char>, b: Seq<char>, t: Seq<char>)
    requires
        json_escaped(a) + seq!['"'] + s == json_escaped(b) + seq!['"'] + t,
    ensures
        a == b,
        s == t,
    decreases a.len(),
{
    let whole = json_escaped(a) + seq!['"'] + s;
    let other = json_escaped(b) + seq!['"'] + t;
    if a.len() == 0 && b.len() == 0 {
        assert(a =~= b);
        assert(s =~= whole.skip(1));
        assert(t =~= other.skip(1));
    } else if a.len() == 0 {
        assert(whole[0] == '"');
        assert(other[0] == json_escape(b[0])[0]);
    } else if b.len() == 0 {
        assert(other[0] == '"');
        assert(whole[0] == json_escape(a[0])[0]);
    } else {
        let rest_a = json_escaped(a.drop_first()) + seq!['"'] + s;
        let rest_b = json_escaped(b.drop_first()) + seq!['"'] + t;
        assert(whole =~= json_escape(a[0]) + rest_a);
        assert(other =~= json_escape(b[0]) + rest_b);
        escape_is_unique(a[0], rest_a, b[0], rest_b);
        escaped_is_unique(a.drop_first(), s, b.drop_first(), t);
        assert(a =~= seq![a[0]] + a.drop_first());
        assert(b =~= seq![b[0]] + b.drop_first());
    }
}

/// A text that starts with a JSON string literal determines the literal's string
/// and what follows it.
pub proof fn literals_are_unique(a: Seq<char>, s: Seq<char>, b: Seq<char>, t: Seq<char>)
    requires
        json_text(a) + s == json_text(b) + t,
    ensures
        a == b,
        s == t,
{
    let whole = json_text(a) + s;
    let other = json_text(b) + t;
    assert(whole.skip(1) =~= json_escaped(a) + seq!['"'] + s);
    assert(other.skip(1) =~= json_escaped(b) + seq!['"'] + t);
    escaped_is_unique(a, s, b, t);
}

/// A literal escapes character by character: that of two texts is that of the one
/// and then that of the other, between one pair of quotes.
pub proof fn literals_go_character_by_character(a: Seq<char>, b: Seq<char>, c: char)
    ensures
        json_text(Seq::empty()) == seq!['"', '"'],
        json_escaped(seq![c]) == json_escape(c),
        json_escaped(a + b) == json_escaped(a) + json_escaped(b),
        json_text(a) == seq!['"'] + json_escaped(a) + seq!['"'],
    decreases a.len(),
{
    assert(json_text(Seq::empty()) =~= seq!['"', '"']);
    assert(seq![c].drop_first() =~= Seq::empty());
    assert(json_escaped(seq![c]) =~= json_escape(c));
    if a.len() == 0 {
        assert(a + b =~= b);
        assert(json_escaped(a) + json_escaped(b) =~= json_escaped(b));
    } else {
        literals_go_character_by_character(a.drop_first(), b, c);
        assert((a + b).drop_first() =~= a.drop_first() + b);
        assert(json_escaped(a + b) =~= json_escaped(a) + json_escaped(b));
    }
}

/// A character is written as it is unless it is a quote, a backslash or a control
/// character below the space; those are written as a backslash and a letter, or as
/// a backslash, `u` and four digits.
pub proof fn characters_are_escaped_only_where_needed(c: char)
    ensures
        json_escape(c) == seq![c] <==> 32 <= c as u32 && c as u32 != 34 && c as u32 != 92,
        json_escape(c) != seq![c] ==> json_escape(c)[0] == '\\' && (json_escape(c).len() == 2
            || json_escape(c).len() == 6),
        json_escape(c).len() == 6 <==> (c as u32) < 32 && c as u32 != 8 && c as u32 != 9 && c as u32
            != 10 && c as u32 != 12 && c as u32 != 13,
{
    if json_escape(c).len() != 1 {
        assert(json_escape(c) != seq![c]) by {
            assert(seq![c].len() == 1);
        }
    }
}

}
