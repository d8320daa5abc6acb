//! JSON text of the values that go into a token, byte for byte as serde_json
//! writes them: strings are escaped by serde_json itself, whose escaping is
//! stated here; a number is its decimal numeral and a boolean its literal.
//! Readers of the same texts come with proofs that they read back what was
//! written.
use vstd::prelude::*;
use crate::ids::{hex_digit_char, hex_digit_value, hex_value, lemma_hex_digit_char_value};

verus! {

/// How serde_json writes one character inside a JSON string: `"` and `\` are
/// preceded by a backslash, backspace, tab, line feed, form feed and carriage
/// return get their short escapes, the other control characters below 0x20
/// become `\u00XX` with lower-case hexadecimal digits, and every other
/// character stands for itself.
pub open spec fn json_escape_char(c: char) -> Seq<char> {
    let n = c as int;
    if c == '"' {
        seq!['\\', '"']
    } else if c == '\\' {
        seq!['\\', '\\']
    } else if n == 8 {
        seq!['\\', 'b']
    } else if n == 9 {
        seq!['\\', 't']
    } else if n == 10 {
        seq!['\\', 'n']
    } else if n == 12 {
        seq!['\\', 'f']
    } else if n == 13 {
        seq!['\\', 'r']
    } else if n < 32 {
        seq!['\\', 'u', '0', '0', hex_digit_char((n / 16) as nat), hex_digit_char((n % 16) as nat)]
    } else {
        seq![c]
    }
}

/// The escaped characters of a string, without the surrounding quotes.
pub open spec fn json_escape(s: Seq<char>) -> Seq<char>
    decreases s.len(),
{
    if s.len() == 0 {
        Seq::empty()
    } else {
        json_escape(s.drop_last()) + json_escape_char(s.last())
    }
}

/// A JSON string literal.
pub open spec fn json_string(s: Seq<char>) -> Seq<char> {
    seq!['"'] + json_escape(s) + seq!['"']
}

/// The decimal digit of a value below 10.
pub open spec fn decimal_digit(d: nat) -> char {
    (48 + d) as char
}

/// The decimal numeral of a natural number, without leading zeros.
pub open spec fn decimal(n: nat) -> Seq<char>
    decreases n,
{
    if n < 10 {
        seq![decimal_digit(n)]
    } else {
        decimal(n / 10).push(decimal_digit(n % 10))
    }
}

/// The JSON literal of a boolean.
pub open spec fn json_bool(b: bool) -> Seq<char> {
    if b {
        seq!['t', 'r', 'u', 'e']
    } else {
        seq!['f', 'a', 'l', 's', 'e']
    }
}

/// Appends one character to a string (`String::push`).
#[verifier::external_body]
pub(crate) fn push_char(out: &mut String, c: char)
    ensures
        final(out)@ == old(out)@.push(c),
{
    out.push(c);
}

/// The character with the given code, for codes of ASCII characters.
fn char_of(code: u32) -> (c: char)
    requires
        code < 128,
    ensures
        c == code as char,
{
    let b: u8 = code as u8;
    b as char
}

/// `serde_json::to_string` on a string: the JSON string literal that
/// serde_json writes for it, quotes included, escaped as `json_escape_char`
/// states (serde_json's `format_escaped_str` with its `ESCAPE` table and
/// lower-case `HEX_DIGITS`; bytes of characters beyond ASCII are written as
/// they are). A string is serialised into an in-memory buffer, whose writes
/// cannot fail, so the call always succeeds (its error, were there one,
/// would come back as `None`).
#[verifier::external_body]
fn json_string_text(s: &str) -> (r: Option<String>)
    ensures
        r matches Some(_),
        r matches Some(text) ==> text@ == json_string(s@),
{
    serde_json::to_string(s).ok()
}

/// Appends `s` as a JSON string literal, quotes included, as serde_json
/// writes it.
pub fn write_json_string(out: &mut String, s: &str)
    ensures
        final(out)@ == old(out)@ + json_string(s@),
{
    match json_string_text(s) {
        Some(text) => out.append(text.as_str()),
        None => {},
    }
}

/// Appends the decimal numeral of `n`.
pub fn write_decimal(out: &mut String, n: u64)
    ensures
        final(out)@ == old(out)@ + decimal(n as nat),
    decreases n,
{
    let ghost start = out@;
    if n >= 10 {
        write_decimal(out, n / 10);
    }
    let d: u32 = (n % 10) as u32;
    push_char(out, char_of(48 + d));
    assert(out@ =~= start + decimal(n as nat));
}

/// Appends the JSON literal of a boolean.
pub fn write_json_bool(out: &mut String, b: bool)
    ensures
        final(out)@ == old(out)@ + json_bool(b),
{
    if b {
        push_char(out, 't');
        push_char(out, 'r');
        push_char(out, 'u');
        push_char(out, 'e');
    } else {
        push_char(out, 'f');
        push_char(out, 'a');
        push_char(out, 'l');
        push_char(out, 's');
        push_char(out, 'e');
    }
    assert(out@ =~= old(out)@ + json_bool(b));
}


/// The character that a two-character escape `\e` stands for.
pub open spec fn short_escape(e: char) -> Option<char> {
    if e == '"' {
        Some('"')
    } else if e == '\\' {
        Some('\\')
    } else if e == '/' {
        Some('/')
    } else if e == 'b' {
        Some(8 as char)
    } else if e == 't' {
        Some(9 as char)
    } else if e == 'n' {
        Some(10 as char)
    } else if e == 'f' {
        Some(12 as char)
    } else if e == 'r' {
        Some(13 as char)
    } else {
        None
    }
}

/// The character that `\uXXXX` stands for, for a code outside the surrogate
/// range.
pub open spec fn unicode_escape(hex: Seq<char>) -> Option<char> {
    match hex_value(hex) {
        Some(v) => if v < 0xD800 || 0xE000 <= v {
            Some(v as char)
        } else {
            None
        },
        None => None,
    }
}

/// Reads the rest of a JSON string literal whose opening quote has been
/// read: the characters that it stands for, and the text after its closing
/// quote. `None` when the literal is unterminated, holds a raw control
/// character, or an escape that JSON does not know (surrogate pairs are not
/// read).
pub open spec fn read_string_body(t: Seq<char>) -> Option<(Seq<char>, Seq<char>)>
    decreases t.len(),
{
    if t.len() == 0 {
        None
    } else if t[0] == '"' {
        Some((Seq::empty(), t.drop_first()))
    } else if t[0] == '\\' {
        if t.len() < 2 {
            None
        } else if t[1] == 'u' {
            if t.len() < 6 {
                None
            } else {
                match (unicode_escape(t.subrange(2, 6)), read_string_body(t.subrange(6, t.len() as int))) {
                    (Some(c), Some((s, rest))) => Some((seq![c] + s, rest)),
                    _ => None,
                }
            }
        } else {
            match (short_escape(t[1]), read_string_body(t.subrange(2, t.len() as int))) {
                (Some(c), Some((s, rest))) => Some((seq![c] + s, rest)),
                _ => None,
            }
        }
    } else if (t[0] as int) < 32 {
        None
    } else {
        match read_string_body(t.drop_first()) {
            Some((s, rest)) => Some((seq![t[0]] + s, rest)),
            None => None,
        }
    }
}

/// Reads a JSON string literal from the front of `t`: the characters that it
/// stands for, and the text after it.
pub open spec fn read_json_string(t: Seq<char>) -> Option<(Seq<char>, Seq<char>)> {
    if t.len() > 0 && t[0] == '"' {
        read_string_body(t.drop_first())
    } else {
        None
    }
}

proof fn lemma_escape_append(a: Seq<char>, b: Seq<char>)
    ensures
        json_escape(a + b) == json_escape(a) + json_escape(b),
    decreases b.len(),
{
    if b.len() == 0 {
        assert(a + b =~= a);
        assert(json_escape(a) + json_escape(b) =~= json_escape(a));
    } else {
        lemma_escape_append(a, b.drop_last());
        assert((a + b).drop_last() =~= a + b.drop_last());
        assert((a + b).last() == b.last());
        assert(json_escape(a + b) =~= json_escape(a) + json_escape(b));
    }
}

proof fn lemma_read_escaped_char(c: char, x: Seq<char>)
    ensures
        read_string_body(json_escape_char(c) + x) == match read_string_body(x) {
            Some((s, rest)) => Some((seq![c] + s, rest)),
            None => None::<(Seq<char>, Seq<char>)>,
        },
{
    let t = json_escape_char(c) + x;
    let n = c as int;
    if c == '"' || c == '\\' || n == 8 || n == 9 || n == 10 || n == 12 || n == 13 {
        assert(t.subrange(2, t.len() as int) =~= x);
        assert(short_escape(t[1]) == Some(c));
    } else if n < 32 {
        let hex = t.subrange(2, 6);
        lemma_hex_digit_char_value((n / 16) as nat);
        lemma_hex_digit_char_value((n % 16) as nat);
        assert(hex =~= seq!['0', '0', hex_digit_char((n / 16) as nat), hex_digit_char((n % 16) as nat)]);
        assert(hex_value(hex) == Some(n as nat)) by {
            reveal_with_fuel(hex_value, 5);
            assert(hex.drop_last().drop_last().drop_last().drop_last() =~= Seq::<char>::empty());
            assert(hex.drop_last().drop_last().drop_last() =~= seq!['0']);
            assert(hex.drop_last().drop_last() =~= seq!['0', '0']);
            assert(hex.drop_last() =~= seq!['0', '0', hex_digit_char((n / 16) as nat)]);
        }
        assert(unicode_escape(hex) == Some(c));
        assert(t.subrange(6, t.len() as int) =~= x);
    } else {
        assert(t.drop_first() =~= x);
    }
}

proof fn lemma_read_string_body(s: Seq<char>, x: Seq<char>)
    ensures
        read_string_body(json_escape(s) + seq!['"'] + x) == Some((s, x)),
    decreases s.len(),
{
    if s.len() == 0 {
        let t = json_escape(s) + seq!['"'] + x;
        assert(t =~= seq!['"'] + x);
        assert(t.drop_first() =~= x);
        assert(s =~= Seq::<char>::empty());
    } else {
        let c = s[0];
        let r = s.drop_first();
        lemma_escape_append(seq![c], r);
        assert(seq![c] + r =~= s);
        assert(seq![c].drop_last() =~= Seq::<char>::empty());
        assert(seq![c].last() == c);
        assert(json_escape(Seq::<char>::empty()) =~= Seq::<char>::empty());
        assert(json_escape(seq![c]) =~= json_escape_char(c));
        lemma_read_string_body(r, x);
        lemma_read_escaped_char(c, json_escape(r) + seq!['"'] + x);
        assert(json_escape(s) + seq!['"'] + x =~= json_escape_char(c) + (json_escape(r) + seq![
            '"',
        ] + x));
        assert(seq![c] + r =~= s);
    }
}

/// The JSON string literal written for a text reads back as that text, and
/// the reader stops right after it: no text can end the literal early, so
/// whatever follows it stays apart from it.
pub proof fn lemma_json_string_reads_back(s: Seq<char>, rest: Seq<char>)
    ensures
        read_json_string(json_string(s) + rest) == Some((s, rest)),
{
    let t = json_string(s) + rest;
    assert(t.drop_first() =~= json_escape(s) + seq!['"'] + rest);
    lemma_read_string_body(s, rest);
}


/// Whether a character is a decimal digit.
pub open spec fn is_decimal_digit(c: char) -> bool {
    48 <= c as int <= 57
}

/// Reads the longest run of decimal digits at the front of `t` as the
/// continuation of the number `acc`: the number, and the text after the run.
pub open spec fn read_digits(t: Seq<char>, acc: nat) -> (nat, Seq<char>)
    decreases t.len(),
{
    if t.len() > 0 && is_decimal_digit(t[0]) {
        read_digits(t.drop_first(), acc * 10 + (t[0] as int - 48) as nat)
    } else {
        (acc, t)
    }
}

/// Reads a decimal numeral from the front of `t`: its value, and the text
/// after it.
pub open spec fn read_decimal(t: Seq<char>) -> Option<(nat, Seq<char>)> {
    if t.len() > 0 && is_decimal_digit(t[0]) {
        Some(read_digits(t, 0))
    } else {
        None
    }
}

/// The value of the digits `ds` written after the number `acc`.
pub open spec fn digits_value(acc: nat, ds: Seq<char>) -> nat
    decreases ds.len(),
{
    if ds.len() == 0 {
        acc
    } else {
        digits_value(acc, ds.drop_last()) * 10 + (ds.last() as int - 48) as nat
    }
}

proof fn lemma_digits_value_shift(acc: nat, d: char, ds: Seq<char>)
    requires
        is_decimal_digit(d),
    ensures
        digits_value(acc * 10 + (d as int - 48) as nat, ds) == digits_value(acc, seq![d] + ds),
    decreases ds.len(),
{
    if ds.len() == 0 {
        assert(seq![d] + ds =~= seq![d]);
        assert(seq![d].drop_last() =~= Seq::<char>::empty());
        assert(seq![d].last() == d);
        assert(digits_value(acc, Seq::<char>::empty()) == acc);
        assert(digits_value(acc, seq![d]) == acc * 10 + (d as int - 48) as nat);
    } else {
        lemma_digits_value_shift(acc, d, ds.drop_last());
        let whole = seq![d] + ds;
        assert(whole.drop_last() =~= seq![d] + ds.drop_last());
        assert(whole.last() == ds.last());
        assert(whole.len() > 0);
        assert(digits_value(acc, whole) == digits_value(acc, whole.drop_last()) * 10 + (
        whole.last() as int - 48) as nat);
    }
}

proof fn lemma_read_digits(ds: Seq<char>, rest: Seq<char>, acc: nat)
    requires
        forall|i: int| 0 <= i < ds.len() ==> is_decimal_digit(#[trigger] ds[i]),
        rest.len() == 0 || !is_decimal_digit(rest[0]),
    ensures
        read_digits(ds + rest, acc) == (digits_value(acc, ds), rest),
    decreases ds.len(),
{
    if ds.len() == 0 {
        assert(ds + rest =~= rest);
    } else {
        let d = ds[0];
        let tail = ds.drop_first();
        assert((ds + rest).drop_first() =~= tail + rest);
        assert((ds + rest)[0] == d);
        lemma_read_digits(tail, rest, acc * 10 + (d as int - 48) as nat);
        lemma_digits_value_shift(acc, d, tail);
        assert(seq![d] + tail =~= ds);
    }
}

proof fn lemma_decimal_digits(n: nat)
    ensures
        decimal(n).len() > 0,
        forall|i: int| 0 <= i < decimal(n).len() ==> is_decimal_digit(#[trigger] decimal(n)[i]),
        digits_value(0, decimal(n)) == n,
    decreases n,
{
    if n < 10 {
        assert(decimal(n).drop_last() =~= Seq::<char>::empty());
        assert(decimal_digit(n) as int == 48 + n);
        assert(decimal(n).last() == decimal_digit(n));
        assert(digits_value(0, Seq::<char>::empty()) == 0);
    } else {
        lemma_decimal_digits(n / 10);
        assert(decimal(n).drop_last() =~= decimal(n / 10));
        assert(decimal(n).last() == decimal_digit(n % 10));
        assert(decimal_digit(n % 10) as int == 48 + n % 10);
        assert(forall|i: int| 0 <= i < decimal(n).len() ==> is_decimal_digit(#[trigger] decimal(n)[i])) by {
            assert forall|i: int| 0 <= i < decimal(n).len() implies is_decimal_digit(#[trigger] decimal(n)[i]) by {
                if i < decimal(n).len() - 1 {
                    assert(decimal(n)[i] == decimal(n / 10)[i]);
                }
            }
        }
    }
}

/// The decimal numeral written for a number reads back as that number, when
/// no digit follows it.
pub proof fn lemma_decimal_reads_back(n: nat, rest: Seq<char>)
    requires
        rest.len() == 0 || !is_decimal_digit(rest[0]),
    ensures
        read_decimal(decimal(n) + rest) == Some((n, rest)),
{
    lemma_decimal_digits(n);
    lemma_read_digits(decimal(n), rest, 0);
    assert((decimal(n) + rest)[0] == decimal(n)[0]);
}

/// Reads `lit` from the front of `t`: the text after it.
pub open spec fn skip_literal(lit: Seq<char>, t: Seq<char>) -> Option<Seq<char>> {
    if lit.len() <= t.len() && t.take(lit.len() as int) == lit {
        Some(t.skip(lit.len() as int))
    } else {
        None
    }
}

pub proof fn lemma_skip_literal(lit: Seq<char>, rest: Seq<char>)
    ensures
        skip_literal(lit, lit + rest) == Some(rest),
{
    assert((lit + rest).take(lit.len() as int) =~= lit);
    assert((lit + rest).skip(lit.len() as int) =~= rest);
}

/// Reads a JSON boolean literal from the front of `t`.
pub open spec fn read_json_bool(t: Seq<char>) -> Option<(bool, Seq<char>)> {
    match skip_literal(json_bool(true), t) {
        Some(rest) => Some((true, rest)),
        None => match skip_literal(json_bool(false), t) {
            Some(rest) => Some((false, rest)),
            None => None,
        },
    }
}

/// The boolean literal written for a boolean reads back as it.
pub proof fn lemma_json_bool_reads_back(b: bool, rest: Seq<char>)
    ensures
        read_json_bool(json_bool(b) + rest) == Some((b, rest)),
{
    lemma_skip_literal(json_bool(b), rest);
    if !b {
        let t = json_bool(false) + rest;
        assert(t.take(4)[0] == 'f');
        assert(t.take(4) != json_bool(true));
    }
}

} // verus!
