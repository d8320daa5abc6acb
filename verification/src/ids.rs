//! Identifiers of users and rides: 128-bit UUIDs and their text forms.
use vstd::prelude::*;

verus! {

/// The value of a hexadecimal digit of either case.
pub open spec fn hex_digit_value(c: char) -> Option<nat> {
    let n = c as int;
    if 48 <= n <= 57 {
        Some((n - 48) as nat)
    } else if 97 <= n <= 102 {
        Some((n - 87) as nat)
    } else if 65 <= n <= 70 {
        Some((n - 55) as nat)
    } else {
        None
    }
}

/// The number that a sequence of hexadecimal digits spells, most significant
/// digit first; `None` when some character is no hexadecimal digit.
pub open spec fn hex_value(s: Seq<char>) -> Option<nat>
    decreases s.len(),
{
    if s.len() == 0 {
        Some(0)
    } else {
        match (hex_value(s.drop_last()), hex_digit_value(s.last())) {
            (Some(high), Some(low)) => Some(high * 16 + low),
            _ => None,
        }
    }
}

/// The 128-bit value of exactly 32 hexadecimal digits.
pub open spec fn hex32_value(s: Seq<char>) -> Option<u128> {
    if s.len() == 32 {
        match hex_value(s) {
            Some(v) => Some(v as u128),
            None => None,
        }
    } else {
        None
    }
}

/// The value of a hyphenated UUID text (8-4-4-4-12 hexadecimal digits).
pub open spec fn hyphenated_value(s: Seq<char>) -> Option<u128> {
    if s.len() == 36 && s[8] == '-' && s[13] == '-' && s[18] == '-' && s[23] == '-' {
        hex32_value(
            s.subrange(0, 8) + s.subrange(9, 13) + s.subrange(14, 18) + s.subrange(19, 23)
                + s.subrange(24, 36),
        )
    } else {
        None
    }
}

/// A character with ASCII upper-case letters folded to lower case.
pub open spec fn ascii_lower(c: char) -> char {
    if 65 <= c as int <= 90 {
        (c as int + 32) as char
    } else {
        c
    }
}

/// Whether the first nine characters spell `urn:uuid:`, ignoring ASCII case.
pub open spec fn has_urn_prefix(s: Seq<char>) -> bool {
    &&& s.len() >= 9
    &&& ascii_lower(s[0]) == 'u'
    &&& ascii_lower(s[1]) == 'r'
    &&& ascii_lower(s[2]) == 'n'
    &&& s[3] == ':'
    &&& ascii_lower(s[4]) == 'u'
    &&& ascii_lower(s[5]) == 'u'
    &&& ascii_lower(s[6]) == 'i'
    &&& ascii_lower(s[7]) == 'd'
    &&& s[8] == ':'
}

/// The UUID that a text denotes: 32 hexadecimal digits, the hyphenated form,
/// the hyphenated form in braces, or the hyphenated form after `urn:uuid:`;
/// digits of either case. `None` for every other text.
pub open spec fn uuid_from_text(s: Seq<char>) -> Option<u128> {
    if s.len() == 32 {
        hex32_value(s)
    } else if s.len() == 36 {
        hyphenated_value(s)
    } else if s.len() == 38 && s[0] == '{' && s[37] == '}' {
        hyphenated_value(s.subrange(1, 37))
    } else if s.len() == 45 && has_urn_prefix(s) {
        hyphenated_value(s.subrange(9, 45))
    } else {
        None
    }
}

/// The lower-case hexadecimal digit for a value below 16.
pub open spec fn hex_digit_char(d: nat) -> char {
    if d < 10 {
        (48 + d) as char
    } else {
        (87 + d) as char
    }
}

/// The `n` lowest hexadecimal digits of `v`, lower case, most significant first.
pub open spec fn hex_digits(v: nat, n: nat) -> Seq<char>
    decreases n,
{
    if n == 0 {
        Seq::empty()
    } else {
        hex_digits(v / 16, (n - 1) as nat).push(hex_digit_char(v % 16))
    }
}

/// 32 digits split into groups of 8, 4, 4, 4 and 12 by hyphens.
pub open spec fn hyphenate(d: Seq<char>) -> Seq<char> {
    d.subrange(0, 8) + seq!['-'] + d.subrange(8, 12) + seq!['-'] + d.subrange(12, 16) + seq!['-']
        + d.subrange(16, 20) + seq!['-'] + d.subrange(20, 32)
}

/// The hyphenated lower-case text of a UUID, such as
/// `936da01f-9abd-4d9d-80c7-02af85c822a8`.
pub open spec fn hyphenated_text(id: u128) -> Seq<char> {
    hyphenate(hex_digits(id as nat, 32))
}

pub open spec fn pow16(n: nat) -> nat
    decreases n,
{
    if n == 0 {
        1
    } else {
        16 * pow16((n - 1) as nat)
    }
}

pub proof fn lemma_hex_digit_char_value(d: nat)
    requires
        d < 16,
    ensures
        hex_digit_value(hex_digit_char(d)) == Some(d),
{
}

proof fn lemma_hex_digits_value(v: nat, n: nat)
    ensures
        hex_digits(v, n).len() == n,
        hex_value(hex_digits(v, n)) == Some(v % pow16(n)),
    decreases n,
{
    if n > 0 {
        let m = (n - 1) as nat;
        lemma_hex_digits_value(v / 16, m);
        lemma_hex_digit_char_value(v % 16);
        let s = hex_digits(v, n);
        assert(s.drop_last() =~= hex_digits(v / 16, m));
        assert(pow16(m) > 0) by {
            lemma_pow16_positive(m);
        }
        assert((v / 16) % pow16(m) * 16 + v % 16 == v % (16 * pow16(m))) by {
            vstd::arithmetic::div_mod::lemma_breakdown(v as int, 16, pow16(m) as int);
            vstd::arithmetic::mul::lemma_mul_is_commutative(16, ((v / 16) % pow16(m)) as int);
        }
    }
}

proof fn lemma_pow16_positive(n: nat)
    ensures
        pow16(n) > 0,
    decreases n,
{
    if n > 0 {
        lemma_pow16_positive((n - 1) as nat);
    }
}

/// Every UUID text that this library writes reads back as the same UUID:
/// `Uuid::try_parse` of the hyphenated text of `id` is `id`.
pub proof fn lemma_hyphenated_text_parses_back(id: u128)
    ensures
        uuid_from_text(hyphenated_text(id)) == Some(id),
{
    let d = hex_digits(id as nat, 32);
    lemma_hex_digits_value(id as nat, 32);
    assert(pow16(32) == 0x1_0000_0000_0000_0000_0000_0000_0000_0000nat) by {
        reveal_with_fuel(pow16, 33);
    }
    let h = hyphenated_text(id);
    assert(h.len() == 36);
    assert(h[8] == '-' && h[13] == '-' && h[18] == '-' && h[23] == '-');
    assert(h.subrange(0, 8) + h.subrange(9, 13) + h.subrange(14, 18) + h.subrange(19, 23)
        + h.subrange(24, 36) =~= d);
}

/// Reads a UUID from text with `Uuid::try_parse` of the uuid crate (as sqlx
/// re-exports it) and gives its 128-bit value (`Uuid::as_u128`, most
/// significant byte first). The contract states the formats that uuid's
/// parser accepts: 32 hexadecimal digits, or the 8-4-4-4-12 hyphenated form,
/// bare, in braces, or after a case-insensitive `urn:uuid:`.
#[verifier::external_body]
pub(crate) fn parse_uuid(text: &str) -> (id: Option<u128>)
    ensures
        id == uuid_from_text(text@),
{
    match sqlx::types::Uuid::try_parse(text) {
        Ok(uuid) => Some(uuid.as_u128()),
        Err(_) => None,
    }
}

/// Writes the UUID of the given 128-bit value (`Uuid::from_u128`) in
/// hyphenated lower-case form (`Uuid::hyphenated`, through `Display`).
#[verifier::external_body]
pub(crate) fn hyphenated(id: u128) -> (text: String)
    ensures
        text@ == hyphenated_text(id),
{
    sqlx::types::Uuid::from_u128(id).hyphenated().to_string()
}

} // verus!
