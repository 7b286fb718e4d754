//! Record ids. The database keys rows by UUIDs (`sqlx::types::Uuid`); the
//! library holds one as the `u128` that `Uuid::as_u128` gives (the sixteen
//! bytes read big-endian) and leaves making, parsing and printing them to the
//! uuid crate.
use vstd::prelude::*;

use crate::file_names::is_ascii_letter_either_case;

verus! {

/// The lower-case hexadecimal digit of `n` (`n < 16`).
pub open spec fn hex_digit(n: u128) -> char {
    if n < 10 {
        (48 + n) as char
    } else {
        (87 + n) as char
    }
}

/// The `j`-th four-bit group of `v`, counted from the most significant one.
pub open spec fn uuid_nibble(v: u128, j: int) -> u128 {
    (v >> ((124 - 4 * j) as u128)) & 15
}

pub open spec fn is_hyphen_position(i: int) -> bool {
    i == 8 || i == 13 || i == 18 || i == 23
}

/// How many hyphens the hyphenated form holds before position `i`.
pub open spec fn hyphens_before(i: int) -> int {
    if i < 8 {
        0
    } else if i < 13 {
        1
    } else if i < 18 {
        2
    } else if i < 23 {
        3
    } else {
        4
    }
}

/// The hyphenated, lower-case text of the id `v`:
/// 8-4-4-4-12 hexadecimal digits, most significant first.
pub open spec fn uuid_text(v: u128) -> Seq<char> {
    Seq::new(
        36,
        |i: int|
            if is_hyphen_position(i) {
                '-'
            } else {
                hex_digit(uuid_nibble(v, i - hyphens_before(i)))
            },
    )
}

pub open spec fn is_hex_char(c: char) -> bool {
    ||| '0' <= c && c <= '9'
    ||| 'a' <= c && c <= 'f'
    ||| 'A' <= c && c <= 'F'
}

/// The value of a hexadecimal digit.
pub open spec fn hex_char_value(c: char) -> int {
    if '0' <= c && c <= '9' {
        c as int - 48
    } else if 'a' <= c && c <= 'f' {
        c as int - 87
    } else {
        c as int - 55
    }
}

/// The number that the hexadecimal digits `d` write, most significant first.
pub open spec fn hex_digits_value(d: Seq<char>) -> int
    decreases d.len(),
{
    if d.len() == 0 {
        0
    } else {
        hex_digits_value(d.drop_last()) * 16 + hex_char_value(d.last())
    }
}

/// Thirty-two hexadecimal digits, in either case, read as an id.
pub open spec fn parse_hex32(d: Seq<char>) -> Option<u128> {
    if d.len() == 32 && forall|i: int| 0 <= i < 32 ==> is_hex_char(#[trigger] d[i]) {
        Some(hex_digits_value(d) as u128)
    } else {
        None
    }
}

/// The digits of a hyphenated text: all but positions 8, 13, 18 and 23.
pub open spec fn hyphenated_digits(s: Seq<char>) -> Seq<char> {
    s.subrange(0, 8) + s.subrange(9, 13) + s.subrange(14, 18) + s.subrange(19, 23) + s.subrange(
        24,
        36,
    )
}

/// An 8-4-4-4-12 text read as an id.
pub open spec fn parse_hyphenated(s: Seq<char>) -> Option<u128> {
    if s.len() == 36 && s[8] == '-' && s[13] == '-' && s[18] == '-' && s[23] == '-' {
        parse_hex32(hyphenated_digits(s))
    } else {
        None
    }
}

/// `urn:uuid:`, the letters in either case.
pub open spec fn is_urn_prefix(p: Seq<char>) -> bool {
    &&& p.len() == 9
    &&& is_ascii_letter_either_case(p[0], 'u')
    &&& is_ascii_letter_either_case(p[1], 'r')
    &&& is_ascii_letter_either_case(p[2], 'n')
    &&& p[3] == ':'
    &&& is_ascii_letter_either_case(p[4], 'u')
    &&& is_ascii_letter_either_case(p[5], 'u')
    &&& is_ascii_letter_either_case(p[6], 'i')
    &&& is_ascii_letter_either_case(p[7], 'd')
    &&& p[8] == ':'
}

/// What `Uuid::parse_str` makes of a text: 32 hexadecimal digits; the
/// hyphenated form; the hyphenated form in braces; or `urn:uuid:` followed
/// by the hyphenated form. Digits may be in either case; any other text,
/// and any text with a character outside ASCII, is refused (`None`).
pub open spec fn uuid_parse(text: Seq<char>) -> Option<u128> {
    if exists|i: int| 0 <= i < text.len() && (#[trigger] text[i] as u32) >= 128 {
        None
    } else if text.len() == 32 {
        parse_hex32(text)
    } else if text.len() == 36 {
        parse_hyphenated(text)
    } else if text.len() == 38 && text[0] == '{' && text[37] == '}' {
        parse_hyphenated(text.subrange(1, 37))
    } else if text.len() == 45 && is_urn_prefix(text.subrange(0, 9)) {
        parse_hyphenated(text.subrange(9, 45))
    } else {
        None
    }
}

#[verifier::external_type_specification]
#[verifier::external_body]
pub struct ExUuidError(sqlx::types::uuid::Error);

/// Calls `Display` of `sqlx::types::Uuid` (the uuid crate) on the id.
///
/// Trusted: the uuid crate documents, and its `fmt.rs` implements, `Display`
/// as the hyphenated lower-case form, which `uuid_text` spells out.
#[verifier::external_body]
pub(crate) fn uuid_to_text(id: u128) -> (text: String)
    ensures
        text@ == uuid_text(id),
{
    sqlx::types::Uuid::from_u128(id).to_string()
}

/// Calls `sqlx::types::Uuid::parse_str` and reads the result as a `u128`.
///
/// Trusted: the result is `uuid_parse` of the text, as restated from the
/// crate's `parser.rs` (version 1.29.1): the forms it accepts are told apart
/// by the text's length in bytes, which is its length in characters for an
/// ASCII text, and a text with any other byte fails the digit check.
#[verifier::external_body]
fn uuid_from_text(text: &str) -> (parsed: Result<u128, sqlx::types::uuid::Error>)
    ensures
        parsed is Ok <==> uuid_parse(text@) is Some,
        parsed matches Ok(v) ==> uuid_parse(text@) == Some(v),
{
    match sqlx::types::Uuid::parse_str(text) {
        Ok(id) => Ok(id.as_u128()),
        Err(e) => Err(e),
    }
}

/// Calls `sqlx::types::Uuid::new_v4`.
///
/// Trusted: the value is random; the crate sets the version field to 4 and
/// the variant to the RFC 4122 one, which is all the contract states.
#[verifier::external_body]
pub(crate) fn uuid_new_v4() -> (id: u128)
    ensures
        (id >> 76u128) & 15 == 4,
        (id >> 62u128) & 3 == 2,
{
    sqlx::types::Uuid::new_v4().as_u128()
}

/// Why a text is no record id.
#[derive(Debug, PartialEq, Eq, Structural)]
pub enum IdError {
    /// The uuid crate rejected the text.
    Invalid,
}

/// Reads a record id from a route parameter.
pub fn parse_record_id(text: &str) -> (parsed: Result<u128, IdError>)
    ensures
        parsed is Ok <==> uuid_parse(text@) is Some,
        parsed matches Ok(v) ==> uuid_parse(text@) == Some(v),
        parsed is Err ==> parsed == Err::<u128, IdError>(IdError::Invalid),
        forall|v: u128| #[trigger] uuid_text(v) == text@ ==> parsed == Ok::<u128, IdError>(v),
{
    proof {
        assert forall|v: u128| #[trigger] uuid_text(v) == text@ implies uuid_parse(text@) == Some(
            v,
        ) by {
            law_uuid_text_parses_back(v);
        }
    }
    match uuid_from_text(text) {
        Ok(v) => Ok(v),
        Err(_) => Err(IdError::Invalid),
    }
}

proof fn lemma_nibble_bound(v: u128, sh: u128)
    ensures
        (v >> sh) & 15 <= 15,
{
    assert((v >> sh) & 15 <= 15) by (bit_vector);
}

proof fn lemma_hex_digit_value(n: u128)
    requires
        n < 16,
    ensures
        is_hex_char(hex_digit(n)),
        hex_char_value(hex_digit(n)) == n,
        (hex_digit(n) as u32) < 128,
{
}

/// Shifting by four more bits and adding back the four bits dropped.
proof fn lemma_nibble_step(v: u128, s: u128)
    requires
        s <= 124,
    ensures
        ((v >> (s + 4)) as int) * 16 + (((v >> s) & 15) as int) == (v >> s) as int,
{
    assert(((v >> (s + 4)) << 4u128) | ((v >> s) & 15) == v >> s) by (bit_vector)
        requires
            s <= 124,
    ;
    assert((v >> (s + 4)) < 0x1000_0000_0000_0000_0000_0000_0000_0000u128) by (bit_vector)
        requires
            s <= 124,
    ;
    let x = v >> (s + 4);
    let y = (v >> s) & 15;
    assert(y <= 15) by (bit_vector)
        requires
            y == (v >> s) & 15,
    ;
    assert((x << 4u128) | y == x * 16 + y) by (bit_vector)
        requires
            x < 0x1000_0000_0000_0000_0000_0000_0000_0000u128,
            y <= 15,
    ;
}

/// The digits of the hyphenated text of `v` write `v >> (128 - 4k)` in their
/// first `k` places.
proof fn lemma_digits_value(v: u128, d: Seq<char>, k: int)
    requires
        d.len() == 32,
        forall|j: int| 0 <= j < 32 ==> #[trigger] d[j] == hex_digit(uuid_nibble(v, j)),
        1 <= k <= 32,
    ensures
        hex_digits_value(d.take(k)) == (v >> ((128 - 4 * k) as u128)) as int,
    decreases k,
{
    let n = uuid_nibble(v, k - 1);
    lemma_nibble_bound(v, (124 - 4 * (k - 1)) as u128);
    lemma_hex_digit_value(n);
    assert(d.take(k).drop_last() =~= d.take(k - 1));
    assert(d.take(k).last() == d[k - 1]);
    if k == 1 {
        assert(d.take(0) =~= Seq::<char>::empty());
        let top = v >> 124u128;
        assert(top & 15 == top) by (bit_vector)
            requires
                top == v >> 124u128,
        ;
        assert(hex_digits_value(d.take(0)) == 0);
        assert(hex_digits_value(d.take(1)) == hex_char_value(d[0]));
        assert(n == top & 15);
        assert(hex_digits_value(d.take(1)) == top as int);
    } else {
        lemma_digits_value(v, d, k - 1);
        let sh: u128 = (128 - 4 * k) as u128;
        let wider: u128 = (128 - 4 * (k - 1)) as u128;
        assert(sh + 4 == wider);
        lemma_nibble_step(v, sh);
        assert(hex_digits_value(d.take(k)) == hex_digits_value(d.take(k - 1)) * 16 + n);
        assert(n == (v >> sh) & 15);
        assert((v >> (sh + 4)) == (v >> wider));
        assert(hex_digits_value(d.take(k)) == (v >> sh) as int);
    }
}

/// Law: the hyphenated text of an id is read back as the id.
pub proof fn law_uuid_text_parses_back(v: u128)
    ensures
        uuid_parse(uuid_text(v)) == Some(v),
{
    let t = uuid_text(v);
    assert forall|i: int| 0 <= i < 36 implies (#[trigger] t[i] as u32) < 128 && (!is_hyphen_position(i) ==> is_hex_char(t[i])) by {
        if !is_hyphen_position(i) {
            let n = uuid_nibble(v, i - hyphens_before(i));
            lemma_nibble_bound(v, (124 - 4 * (i - hyphens_before(i))) as u128);
            lemma_hex_digit_value(n);
        }
    }
    assert(!exists|i: int| 0 <= i < t.len() && (#[trigger] t[i] as u32) >= 128);
    let d = hyphenated_digits(t);
    assert(d.len() == 32);
    assert forall|j: int| 0 <= j < 32 implies #[trigger] d[j] == hex_digit(uuid_nibble(v, j)) by {
        let i = if j < 8 { j } else if j < 12 { j + 1 } else if j < 16 { j + 2 } else if j < 20 { j + 3 } else { j + 4 };
        assert(d[j] == t[i]);
        assert(!is_hyphen_position(i));
        assert(i - hyphens_before(i) == j);
    }
    assert forall|j: int| 0 <= j < 32 implies is_hex_char(#[trigger] d[j]) by {
        let n = uuid_nibble(v, j);
        lemma_nibble_bound(v, (124 - 4 * j) as u128);
        lemma_hex_digit_value(n);
    }
    lemma_digits_value(v, d, 32);
    assert(d.take(32) =~= d);
    let z = v >> 0u128;
    assert(z == v) by (bit_vector)
        requires
            z == v >> 0u128,
    ;
}

/// The hyphenated text of an id is 36 characters long and holds neither a
/// `/` nor a `.`.
pub proof fn lemma_uuid_text_shape(v: u128)
    ensures
        uuid_text(v).len() == 36,
        forall|i: int| 0 <= i < 36 ==> #[trigger] uuid_text(v)[i] != '/' && uuid_text(v)[i] != '.',
{
    assert forall|i: int| 0 <= i < 36 implies #[trigger] uuid_text(v)[i] != '/' && uuid_text(v)[i]
        != '.' by {
        if !is_hyphen_position(i) {
            let j = i - hyphens_before(i);
            let shift = (124 - 4 * j) as u128;
            let n = (v >> shift) & 15;
            assert(n <= 15) by (bit_vector)
                requires
                    n == (v >> shift) & 15,
            ;
        }
    }
}

} // verus!
