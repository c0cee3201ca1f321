//! Record identifiers.
//!
//! Every record is identified by a UUID, held here as its 128-bit value
//! (most significant byte first, as the UUID crate orders it).  Its text is
//! the hyphenated lowercase form `xxxxxxxx-xxxx-xxxx-xxxx-xxxxxxxxxxxx`.
use vstd::prelude::*;

verus! {

/// The value of the hexadecimal digit `c`, in either case.
pub open spec fn hex_value(c: char) -> Option<int> {
    if '0' <= c && c <= '9' {
        Some(c as int - 48)
    } else if 'a' <= c && c <= 'f' {
        Some(c as int - 87)
    } else if 'A' <= c && c <= 'F' {
        Some(c as int - 55)
    } else {
        None
    }
}

/// The lowercase hexadecimal digit for `d` in `0..16`.
pub open spec fn hex_digit_lower(d: int) -> char {
    if d < 10 {
        (d + 48) as char
    } else {
        (d + 87) as char
    }
}

/// The `i`-th hexadecimal digit of `id`, counted from the most significant one
/// (`i` in `0..32`).
pub open spec fn nibble(id: u128, i: int) -> int {
    ((id >> ((124 - 4 * i) as u128)) & 15u128) as int
}

/// The 32 lowercase hexadecimal digits of `id`, most significant first.
pub open spec fn hex_digits_of(id: u128) -> Seq<char> {
    Seq::new(32, |i: int| hex_digit_lower(nibble(id, i)))
}

/// The hyphenated lowercase text of a UUID.
pub open spec fn uuid_text(id: u128) -> Seq<char> {
    let d = hex_digits_of(id);
    d.subrange(0, 8) + seq!['-'] + d.subrange(8, 12) + seq!['-'] + d.subrange(12, 16) + seq!['-']
        + d.subrange(16, 20) + seq!['-'] + d.subrange(20, 32)
}

/// The number that a sequence of hexadecimal digits spells, most significant first.
pub open spec fn hex_number(digits: Seq<char>) -> int
    decreases digits.len(),
{
    if digits.len() == 0 {
        0
    } else {
        hex_number(digits.drop_last()) * 16 + hex_value(digits.last()).unwrap()
    }
}

/// The 32 digit positions of a 36-character hyphenated UUID text.
pub open spec fn hyphenated_digits(s: Seq<char>) -> Seq<char> {
    s.subrange(0, 8) + s.subrange(9, 13) + s.subrange(14, 18) + s.subrange(19, 23) + s.subrange(
        24,
        36,
    )
}

/// The value of a 36-character text in the hyphenated form, if it is one:
/// hyphens at positions 8, 13, 18 and 23 and hexadecimal digits, in either
/// case, everywhere else.
pub open spec fn hyphenated_value(s: Seq<char>) -> Option<u128> {
    let d = hyphenated_digits(s);
    if s.len() == 36 && s[8] == '-' && s[13] == '-' && s[18] == '-' && s[23] == '-' && (forall|
        i: int,
    |
        0 <= i < 32 ==> (#[trigger] hex_value(d[i])) is Some) {
        Some(hex_number(d) as u128)
    } else {
        None
    }
}

/// The value of a 32-character text of hexadecimal digits, in either case,
/// if it is one.
pub open spec fn simple_value(s: Seq<char>) -> Option<u128> {
    if s.len() == 32 && (forall|i: int| 0 <= i < 32 ==> (#[trigger] hex_value(s[i])) is Some) {
        Some(hex_number(s) as u128)
    } else {
        None
    }
}

/// The character `c` is `lower` (a lowercase letter or a colon) in either
/// case.
pub open spec fn same_ignoring_ascii_case(c: char, lower: char) -> bool {
    c == lower || ('a' <= lower && lower <= 'z' && c as int == lower as int - 32)
}

/// The text is `urn:uuid:`, its letters in either case.
pub open spec fn is_urn_prefix(p: Seq<char>) -> bool {
    let urn = seq!['u', 'r', 'n', ':', 'u', 'u', 'i', 'd', ':'];
    p.len() == 9 && forall|i: int| 0 <= i < 9 ==> same_ignoring_ascii_case(#[trigger] p[i], urn[i])
}

/// What `uuid::Uuid::parse_str` accepts, as the 128-bit value.  The shape
/// goes by the length: 32 characters are the simple form; 36 the hyphenated
/// one; 38 the hyphenated one in braces; 45 the hyphenated one after a
/// `urn:uuid:` prefix.  Any other text, and any text with a character outside
/// ASCII, is refused.
pub open spec fn uuid_parse(s: Seq<char>) -> Option<u128> {
    if s.len() == 32 {
        simple_value(s)
    } else if s.len() == 36 {
        hyphenated_value(s)
    } else if s.len() == 38 {
        if s[0] == '{' && s[37] == '}' {
            hyphenated_value(s.subrange(1, 37))
        } else {
            None
        }
    } else if s.len() == 45 {
        if is_urn_prefix(s.subrange(0, 9)) {
            hyphenated_value(s.subrange(9, 45))
        } else {
            None
        }
    } else {
        None
    }
}

/// Calls `uuid::Uuid::parse_str`.  Claimed: the result is `uuid_parse` of the
/// text.  The parser reads bytes; a text with a non-ASCII character can
/// match none of the shapes, as every position of each holds an ASCII
/// character, so reading characters gives the same answer.
#[verifier::external_body]
pub(crate) fn parse_uuid(s: &str) -> (r: Option<u128>)
    ensures
        r == uuid_parse(s@),
{
    match uuid::Uuid::parse_str(s) {
        Ok(u) => Some(u.as_u128()),
        Err(_) => None,
    }
}

/// Calls `Display` of `uuid::Uuid`, which writes the hyphenated lowercase
/// form.  Claimed: the text is `uuid_text(id)`.
#[verifier::external_body]
pub(crate) fn uuid_to_text(id: u128) -> (r: String)
    ensures
        r@ == uuid_text(id),
{
    uuid::Uuid::from_u128(id).to_string()
}

proof fn lemma_hex_digit_roundtrip(d: int)
    requires
        0 <= d < 16,
    ensures
        hex_value(hex_digit_lower(d)) == Some(d),
{
}

proof fn lemma_nibble_step(id: u128, k: int)
    requires
        1 <= k < 32,
    ensures
        (id >> ((128 - 4 * (k + 1)) as u128)) as int == (id >> ((128 - 4 * k) as u128)) as int * 16
            + nibble(id, k),
{
    let s: u128 = (124 - 4 * k) as u128;
    assert(s + 4 <= 128);
    assert(((id >> (s + 4)) as int) * 16 + ((id >> s) & 15u128) as int == (id >> s) as int)
        by (bit_vector)
        requires
            s + 4 <= 128,
    ;
    assert((128 - 4 * k) as u128 == s + 4);
}

proof fn lemma_prefix_value(id: u128, k: int)
    requires
        1 <= k <= 32,
    ensures
        hex_number(hex_digits_of(id).subrange(0, k)) == (id >> ((128 - 4 * k) as u128)) as int,
    decreases k,
{
    let d = hex_digits_of(id);
    if k == 1 {
        let p = d.subrange(0, 1);
        assert(p.drop_last() =~= Seq::<char>::empty());
        assert(p.last() == d[0]);
        assert(hex_number(p) == hex_number(p.drop_last()) * 16 + hex_value(p.last()).unwrap());
        assert(hex_number(Seq::<char>::empty()) == 0);
        assert((124 - 4 * 0) as u128 == 124u128);
        assert(nibble(id, 0) == ((id >> 124u128) & 15u128) as int);
        assert((id >> 124u128) & 15u128 == id >> 124u128) by (bit_vector);
        assert(((id >> 124u128) & 15u128) <= 15u128) by (bit_vector);
        lemma_hex_digit_roundtrip(nibble(id, 0));
        assert(d[0] == hex_digit_lower(nibble(id, 0)));
        assert(hex_number(p) == nibble(id, 0));
        assert((128 - 4 * k) as u128 == 124u128);
    } else {
        lemma_prefix_value(id, k - 1);
        let p = d.subrange(0, k);
        assert(p.drop_last() =~= d.subrange(0, k - 1));
        assert(p.last() == d[k - 1]);
        let s: u128 = (124 - 4 * (k - 1)) as u128;
        assert(((id >> s) & 15u128) <= 15u128) by (bit_vector);
        assert(nibble(id, k - 1) == ((id >> s) & 15u128) as int);
        lemma_hex_digit_roundtrip(nibble(id, k - 1));
        assert(d[k - 1] == hex_digit_lower(nibble(id, k - 1)));
        lemma_nibble_step(id, k - 1);
        assert(hex_number(p) == hex_number(p.drop_last()) * 16 + hex_value(p.last()).unwrap());
        assert((128 - 4 * ((k - 1) + 1)) as u128 == (128 - 4 * k) as u128);
    }
}

/// The text of an identifier reads back as the identifier: parsing what
/// `uuid_text` writes gives the same 128-bit value.
pub proof fn lemma_uuid_text_parses_back(id: u128)
    ensures
        hyphenated_value(uuid_text(id)) == Some(id),
        uuid_parse(uuid_text(id)) == Some(id),
{
    let t = uuid_text(id);
    let d = hex_digits_of(id);
    assert(t.len() == 36);
    assert(hyphenated_digits(t) =~= d);
    assert forall|i: int| 0 <= i < 32 implies (#[trigger] hex_value(d[i])) is Some by {
        let s: u128 = (124 - 4 * i) as u128;
        assert(((id >> s) & 15u128) <= 15u128) by (bit_vector);
        lemma_hex_digit_roundtrip(nibble(id, i));
    }
    lemma_prefix_value(id, 32);
    assert(d.subrange(0, 32) =~= d);
    assert(id >> 0u128 == id) by (bit_vector);
}

} // verus!
