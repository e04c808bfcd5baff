//! The textual identities of sessions and catalogs.

use crate::text::{strip_prefix, text_eq};
use vstd::prelude::*;
use vstd::string::*;

verus! {

/// The lower-case hexadecimal digits.
pub open spec fn is_lower_hex(c: char) -> bool {
    '0' <= c <= '9' || 'a' <= c <= 'f'
}

/// Whether `s` is `len` lower-case hexadecimal digits.
pub open spec fn is_hex_text(s: Seq<char>, len: nat) -> bool {
    s.len() == len && forall|i: int| 0 <= i < s.len() ==> is_lower_hex(#[trigger] s[i])
}

fn hex_text_of_len(value: &str, len: usize) -> (r: bool)
    ensures
        r == is_hex_text(value@, len as nat),
{
    if value.unicode_len() != len {
        return false;
    }
    let mut chars = value.chars();
    let mut i: usize = 0;
    while i < len
        invariant
            i <= len == value@.len(),
            vstd::std_specs::iter::IteratorSpec::remaining(&chars) == value@.skip(i as int),
            forall|j: int| 0 <= j < i ==> is_lower_hex(#[trigger] value@[j]),
        decreases len - i,
    {
        let c = chars.next().unwrap();
        if !(('0' <= c && c <= '9') || ('a' <= c && c <= 'f')) {
            assert(!is_lower_hex(value@[i as int]));
            return false;
        }
        i = i + 1;
    }
    true
}

/// Whether `value` is a SHA-256 digest: 64 lower-case hexadecimal digits.
pub fn is_sha256(value: &str) -> (r: bool)
    ensures
        r == is_hex_text(value@, 64),
{
    hex_text_of_len(value, 64)
}

/// Whether `value` is a session id of the daemon: 16 lower-case hexadecimal
/// digits.
pub fn is_aoe_session_id(value: &str) -> (r: bool)
    ensures
        r == is_hex_text(value@, 16),
{
    hex_text_of_len(value, 16)
}

/// The lower-case hexadecimal digit of a value below 16.
pub open spec fn hex_digit(v: nat) -> char {
    if v < 10 {
        ('0' as nat + v) as char
    } else {
        ('a' as nat + v - 10) as char
    }
}

/// The lowest `len` hexadecimal digits of `v`, the highest first.
pub open spec fn hex_digits(v: nat, len: nat) -> Seq<char>
    decreases len,
{
    if len == 0 {
        Seq::empty()
    } else {
        hex_digits(v / 16, (len - 1) as nat).push(hex_digit(v % 16))
    }
}

/// The hyphenated text of a UUID: its 32 digits in groups of 8, 4, 4, 4 and 12.
pub open spec fn hyphenated(v: u128) -> Seq<char> {
    let digits = hex_digits(v as nat, 32);
    digits.subrange(0, 8) + seq!['-'] + digits.subrange(8, 12) + seq!['-'] + digits.subrange(12, 16)
        + seq!['-'] + digits.subrange(16, 20) + seq!['-'] + digits.subrange(20, 32)
}

/// What `Uuid::parse_str` makes of a text.
pub uninterp spec fn parsed_uuid(text: Seq<char>) -> Option<u128>;

/// `Uuid::parse_str`, as the 128 bits of the UUID. What it accepts besides the
/// hyphenated text of a UUID is only named; that text it reads back.
#[verifier::external_body]
fn parse_uuid(text: &str) -> (r: Option<u128>)
    ensures
        r == parsed_uuid(text@),
        forall|v: u128| text@ == hyphenated(v) ==> r == Some(v),
{
    match uuid::Uuid::parse_str(text) {
        Ok(uuid) => Some(uuid.as_u128()),
        Err(_) => None,
    }
}

/// `Uuid`'s `Display`: the hyphenated text in lower case.
#[verifier::external_body]
fn uuid_text(v: u128) -> (r: String)
    ensures
        r@ == hyphenated(v),
{
    uuid::Uuid::from_u128(v).to_string()
}

/// Where the hyphens of a UUID stand.
pub open spec fn is_hyphen_position(i: int) -> bool {
    i == 8 || i == 13 || i == 18 || i == 23
}

/// Whether `s` is a UUID in its one canonical form: hyphenated, in lower case.
pub open spec fn is_canonical_uuid(s: Seq<char>) -> bool {
    &&& s.len() == 36
    &&& forall|i: int|
        0 <= i < 36 ==> if is_hyphen_position(i) {
            #[trigger] s[i] == '-'
        } else {
            is_lower_hex(s[i])
        }
}

proof fn hex_digits_are_hex(v: nat, len: nat)
    ensures
        is_hex_text(hex_digits(v, len), len),
    decreases len,
{
    if len > 0 {
        hex_digits_are_hex(v / 16, (len - 1) as nat);
        let before = hex_digits(v / 16, (len - 1) as nat);
        let all = hex_digits(v, len);
        assert forall|i: int| 0 <= i < all.len() implies is_lower_hex(#[trigger] all[i]) by {
            if i < before.len() {
                assert(all[i] == before[i]);
            }
        }
    }
}

spec fn digit_value(c: char) -> nat {
    if '0' <= c <= '9' {
        (c as nat - '0' as nat) as nat
    } else {
        (c as nat - 'a' as nat + 10) as nat
    }
}

spec fn hex_value(s: Seq<char>) -> nat
    decreases s.len(),
{
    if s.len() == 0 {
        0
    } else {
        hex_value(s.drop_last()) * 16 + digit_value(s.last())
    }
}

spec fn sixteen_to(n: nat) -> nat
    decreases n,
{
    if n == 0 {
        1
    } else {
        16 * sixteen_to((n - 1) as nat)
    }
}

proof fn digits_of_value(s: Seq<char>)
    requires
        is_hex_text(s, s.len()),
    ensures
        hex_digits(hex_value(s), s.len()) == s,
        hex_value(s) < sixteen_to(s.len()),
    decreases s.len(),
{
    if s.len() > 0 {
        let before = s.drop_last();
        assert forall|i: int| 0 <= i < before.len() implies is_lower_hex(#[trigger] before[i]) by {
            assert(before[i] == s[i]);
        }
        digits_of_value(before);
        assert(is_lower_hex(s[s.len() - 1]));
        assert(digit_value(s.last()) < 16);
        assert(hex_value(s) / 16 == hex_value(before));
        assert(hex_value(s) % 16 == digit_value(s.last()));
        assert(hex_digit(digit_value(s.last())) == s.last());
        assert(before.push(s.last()) =~= s);
    } else {
        assert(s =~= Seq::empty());
    }
}

proof fn hyphenated_is_canonical(v: u128)
    ensures
        is_canonical_uuid(hyphenated(v)),
{
    hex_digits_are_hex(v as nat, 32);
    let digits = hex_digits(v as nat, 32);
    let text = hyphenated(v);
    assert forall|i: int| 0 <= i < 36 implies if is_hyphen_position(i) {
        #[trigger] text[i] == '-'
    } else {
        is_lower_hex(text[i])
    } by {
        if i < 8 {
            assert(text[i] == digits[i]);
        } else if 8 < i < 13 {
            assert(text[i] == digits[i - 1]);
        } else if 13 < i < 18 {
            assert(text[i] == digits[i - 2]);
        } else if 18 < i < 23 {
            assert(text[i] == digits[i - 3]);
        } else if 23 < i {
            assert(text[i] == digits[i - 4]);
        }
    }
}

/// Every canonical text is the hyphenated text of a UUID.
proof fn canonical_is_hyphenated(s: Seq<char>) -> (v: u128)
    requires
        is_canonical_uuid(s),
    ensures
        hyphenated(v) == s,
{
    let digits = s.subrange(0, 8) + s.subrange(9, 13) + s.subrange(14, 18) + s.subrange(19, 23)
        + s.subrange(24, 36);
    assert forall|i: int| 0 <= i < digits.len() implies is_lower_hex(#[trigger] digits[i]) by {
        if i < 8 {
            assert(is_lower_hex(s[i]));
        } else if i < 12 {
            assert(is_lower_hex(s[i + 1]));
        } else if i < 16 {
            assert(is_lower_hex(s[i + 2]));
        } else if i < 20 {
            assert(is_lower_hex(s[i + 3]));
        } else {
            assert(is_lower_hex(s[i + 4]));
        }
    }
    digits_of_value(digits);
    assert(sixteen_to(32) == 0x1_0000_0000_0000_0000_0000_0000_0000_0000) by {
        reveal_with_fuel(sixteen_to, 33);
    }
    let v = hex_value(digits) as u128;
    assert(hyphenated(v) =~= s);
    v
}

/// Whether `value` is a UUID in canonical form.
pub fn canonical_codex_session_id(value: &str) -> (r: bool)
    ensures
        r == is_canonical_uuid(value@),
{
    proof {
        if is_canonical_uuid(value@) {
            canonical_is_hyphenated(value@);
        }
    }
    match parse_uuid(value) {
        Some(v) => {
            proof {
                hyphenated_is_canonical(v);
            }
            text_eq(uuid_text(v).as_str(), value)
        },
        None => false,
    }
}

/// Whether `s` names a thread that can be imported: a canonical UUID, with or
/// without the import prefix.
pub open spec fn is_source_thread(s: Seq<char>) -> bool {
    ||| is_canonical_uuid(s)
    ||| "maya-import-"@.is_prefix_of(s) && is_canonical_uuid(s.skip("maya-import-"@.len() as int))
}

/// Whether `value` names a thread that can be imported.
pub fn is_source_thread_id(value: &str) -> (r: bool)
    ensures
        r == is_source_thread(value@),
{
    match strip_prefix(value, "maya-import-") {
        Some(rest) => {
            proof {
                reveal_strlit("maya-import-");
                assert(value@.skip("maya-import-"@.len() as int) =~= rest@);
                assert(value@[0] == 'm');
            }
            canonical_codex_session_id(rest)
        },
        None => canonical_codex_session_id(value),
    }
}

/// A text counts as hexadecimal of a length exactly where it has that length and
/// every character is one of the digits `0` to `9` and `a` to `f`, by code point.
pub proof fn hex_texts_are_lower_case_digits(s: Seq<char>, len: nat)
    ensures
        is_hex_text(s, len) <==> s.len() == len && forall|i: int|
            0 <= i < s.len() ==> (48 <= (#[trigger] s[i]) as int <= 57) || (97 <= s[i] as int
                <= 102),
{
    if is_hex_text(s, len) {
        assert forall|i: int| 0 <= i < s.len() implies (48 <= (#[trigger] s[i]) as int <= 57) || (97
            <= s[i] as int <= 102) by {
            assert(is_lower_hex(s[i]));
        }
    } else if s.len() == len {
        let i = choose|i: int| 0 <= i < s.len() && !is_lower_hex(#[trigger] s[i]);
        assert(!((48 <= s[i] as int <= 57) || (97 <= s[i] as int <= 102)));
    }
}

/// The canonical texts of UUIDs are the 32 digits in five groups of 8, 4, 4, 4 and
/// 12, with a hyphen between each two.
pub proof fn canonical_uuids_are_five_groups(
    a: Seq<char>,
    b: Seq<char>,
    c: Seq<char>,
    d: Seq<char>,
    e: Seq<char>,
    s: Seq<char>,
)
    ensures
        a.len() == 8 && b.len() == 4 && c.len() == 4 && d.len() == 4 ==> (is_canonical_uuid(
            a + seq!['-'] + b + seq!['-'] + c + seq!['-'] + d + seq!['-'] + e,
        ) <==> is_hex_text(a, 8) && is_hex_text(b, 4) && is_hex_text(c, 4) && is_hex_text(d, 4)
            && is_hex_text(e, 12)),
        is_canonical_uuid(s) ==> s.len() == 36 && s[8] == '-' && s[13] == '-' && s[18] == '-'
            && s[23] == '-',
{
    if is_canonical_uuid(s) {
        assert(s[8] == '-' && s[13] == '-' && s[18] == '-' && s[23] == '-');
    }
    if a.len() == 8 && b.len() == 4 && c.len() == 4 && d.len() == 4 {
        let t = a + seq!['-'] + b + seq!['-'] + c + seq!['-'] + d + seq!['-'] + e;
        assert forall|i: int| 0 <= i < a.len() implies t[i] == #[trigger] a[i] by {}
        assert forall|i: int| 0 <= i < b.len() implies t[9 + i] == #[trigger] b[i] by {}
        assert forall|i: int| 0 <= i < c.len() implies t[14 + i] == #[trigger] c[i] by {}
        assert forall|i: int| 0 <= i < d.len() implies t[19 + i] == #[trigger] d[i] by {}
        assert forall|i: int| 0 <= i < e.len() implies t[24 + i] == #[trigger] e[i] by {}
        if is_canonical_uuid(t) {
            assert(e.len() == 12);
            assert forall|i: int| 0 <= i < a.len() implies is_lower_hex(#[trigger] a[i]) by {
                assert(is_lower_hex(t[i]));
            }
            assert forall|i: int| 0 <= i < b.len() implies is_lower_hex(#[trigger] b[i]) by {
                assert(is_lower_hex(t[9 + i]));
            }
            assert forall|i: int| 0 <= i < c.len() implies is_lower_hex(#[trigger] c[i]) by {
                assert(is_lower_hex(t[14 + i]));
            }
            assert forall|i: int| 0 <= i < d.len() implies is_lower_hex(#[trigger] d[i]) by {
                assert(is_lower_hex(t[19 + i]));
            }
            assert forall|i: int| 0 <= i < e.len() implies is_lower_hex(#[trigger] e[i]) by {
                assert(is_lower_hex(t[24 + i]));
            }
        }
        if is_hex_text(a, 8) && is_hex_text(b, 4) && is_hex_text(c, 4) && is_hex_text(d, 4)
            && is_hex_text(e, 12) {
            assert forall|i: int| 0 <= i < 36 implies if is_hyphen_position(i) {
                #[trigger] t[i] == '-'
            } else {
                is_lower_hex(t[i])
            } by {
                if i < 8 {
                    assert(is_lower_hex(a[i]));
                } else if 8 < i < 13 {
                    assert(is_lower_hex(b[i - 9]));
                } else if 13 < i < 18 {
                    assert(is_lower_hex(c[i - 14]));
                } else if 18 < i < 23 {
                    assert(is_lower_hex(d[i - 19]));
                } else if 23 < i {
                    assert(is_lower_hex(e[i - 24]));
                }
            }
        }
    }
}

/// A source thread is a canonical UUID, or the import prefix and then one: the
/// prefix counts once, and what follows it has to be the whole UUID.
pub proof fn source_threads_are_uuids_with_or_without_the_prefix(s: Seq<char>)
    ensures
        is_source_thread("maya-import-"@ + s) <==> is_canonical_uuid(s),
        !"maya-import-"@.is_prefix_of(s) ==> (is_source_thread(s) <==> is_canonical_uuid(s)),
{
    reveal_strlit("maya-import-");
    let prefix = "maya-import-"@;
    let whole = prefix + s;
    assert(prefix =~= whole.subrange(0, prefix.len() as int));
    assert(whole.skip(prefix.len() as int) =~= s);
    if is_canonical_uuid(whole) {
        assert(is_lower_hex(whole[0]));
        assert(whole[0] == 'm');
    }
}

}
