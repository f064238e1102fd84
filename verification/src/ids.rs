use vstd::prelude::*;

verus! {

/// The lowercase hexadecimal digit for a value below 16.
pub open spec fn hex_digit(v: u8) -> char {
    if v < 10 {
        (48 + v) as char
    } else {
        (87 + v) as char
    }
}

/// The `k`-th hexadecimal digit of `id`, counted from the most significant one.
pub open spec fn nibble(id: u128, k: int) -> u8 {
    ((id >> ((124 - 4 * k) as u128)) & 15u128) as u8
}

/// Whether position `p` of the hyphenated form holds a hyphen.
pub open spec fn is_hyphen_position(p: int) -> bool {
    p == 8 || p == 13 || p == 18 || p == 23
}

/// Number of hyphens that stand before position `p` of the hyphenated form.
pub open spec fn hyphens_before(p: int) -> int {
    if p <= 8 {
        0
    } else if p <= 13 {
        1
    } else if p <= 18 {
        2
    } else if p <= 23 {
        3
    } else {
        4
    }
}

/// Length of the hyphenated text once its first `k` digits are written.
pub open spec fn text_len(k: int) -> int {
    if k <= 8 {
        k
    } else if k <= 12 {
        k + 1
    } else if k <= 16 {
        k + 2
    } else if k <= 20 {
        k + 3
    } else {
        k + 4
    }
}

/// The canonical text of a UUID: 32 lowercase hexadecimal digits of its
/// big-endian value in groups of 8-4-4-4-12, joined by hyphens.
pub open spec fn uuid_hyphenated(id: u128) -> Seq<char> {
    Seq::new(
        36,
        |p: int|
            if is_hyphen_position(p) {
                '-'
            } else {
                hex_digit(nibble(id, p - hyphens_before(p)))
            },
    )
}

/// Whether `id` has the version (4) and variant (RFC 4122) bits of a random UUID.
pub open spec fn is_random_uuid(id: u128) -> bool {
    &&& (id >> 76u128) & 15u128 == 4
    &&& (id >> 62u128) & 3u128 == 2
}

/// Appends one character to a `String` (`String::push`).
#[verifier::external_body]
pub(crate) fn push_char(s: &mut String, c: char)
    ensures
        final(s)@ == old(s)@.push(c),
{
    s.push(c);
}

/// A fresh random UUID (`uuid::Uuid::new_v4`), as its 128-bit big-endian value.
/// The value is drawn at random; what is stated is that its version and variant
/// bits are those of a random UUID, which `new_v4` sets by masking.
#[verifier::external_body]
pub fn new_v4_id() -> (id: u128)
    ensures
        is_random_uuid(id),
{
    uuid::Uuid::new_v4().as_u128()
}

fn hex_char(v: u8) -> (c: char)
    requires
        v < 16,
    ensures
        c == hex_digit(v),
{
    if v < 10 {
        (48 + v) as char
    } else {
        (87 + v) as char
    }
}

/// The canonical hyphenated text of a UUID, as `uuid::Uuid`'s `Display` writes it.
pub fn uuid_text(id: u128) -> (s: String)
    ensures
        s@ == uuid_hyphenated(id),
{
    let mut s = String::new();
    let mut k: u32 = 0;
    while k < 32
        invariant
            k <= 32,
            s@.len() == text_len(k as int),
            forall|p: int| 0 <= p < s@.len() ==> s@[p] == uuid_hyphenated(id)[p],
        decreases 32 - k,
    {
        if k == 8 || k == 12 || k == 16 || k == 20 {
            push_char(&mut s, '-');
        }
        let shift: u128 = (124 - 4 * k) as u128;
        let v: u128 = (id >> shift) & 15u128;
        assert(v <= 15) by (bit_vector)
            requires v == (id >> shift) & 15u128;
        let c = hex_char(v as u8);
        push_char(&mut s, c);
        k = k + 1;
    }
    assert(s@ =~= uuid_hyphenated(id));
    s
}

} // verus!
