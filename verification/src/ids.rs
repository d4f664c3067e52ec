use vstd::prelude::*;
use crate::text::append_str;

verus! {

/// The text of one lower-case hexadecimal digit.
pub open spec fn hex_text(d: int) -> Seq<char> {
    if d < 10 {
        crate::text::digit_text(d)
    } else if d == 10 {
        "a"@
    } else if d == 11 {
        "b"@
    } else if d == 12 {
        "c"@
    } else if d == 13 {
        "d"@
    } else if d == 14 {
        "e"@
    } else {
        "f"@
    }
}

/// The `k` lowest hexadecimal digits of `n`, most significant first.
pub open spec fn hex_digits(n: nat, k: nat) -> Seq<char>
    decreases k,
{
    if k == 0 {
        Seq::empty()
    } else {
        hex_digits(n / 16, (k - 1) as nat) + hex_text((n % 16) as int)
    }
}

/// The hyphenated lower-case text of an id: its 32 hexadecimal digits in
/// groups of 8, 4, 4, 4 and 12.
pub open spec fn uuid_text(id: u128) -> Seq<char> {
    hex_digits((id / 0x1_0000_0000_0000_0000_0000_0000) as nat, 8) + "-"@
        + hex_digits((id / 0x1_0000_0000_0000_0000_0000) as nat, 4) + "-"@
        + hex_digits((id / 0x1_0000_0000_0000_0000) as nat, 4) + "-"@
        + hex_digits((id / 0x1_0000_0000_0000) as nat, 4) + "-"@
        + hex_digits(id as nat, 12)
}

/// Two lower-case hexadecimal digits per byte.
pub open spec fn hex_bytes(b: Seq<u8>) -> Seq<char>
    decreases b.len(),
{
    if b.len() == 0 {
        Seq::empty()
    } else {
        hex_bytes(b.drop_last()) + hex_digits(b.last() as nat, 2)
    }
}

fn append_hex_digit(s: &mut String, d: u128)
    requires
        d < 16,
    ensures
        final(s)@ == old(s)@ + hex_text(d as int),
{
    if d == 0 {
        append_str(s, "0");
    } else if d == 1 {
        append_str(s, "1");
    } else if d == 2 {
        append_str(s, "2");
    } else if d == 3 {
        append_str(s, "3");
    } else if d == 4 {
        append_str(s, "4");
    } else if d == 5 {
        append_str(s, "5");
    } else if d == 6 {
        append_str(s, "6");
    } else if d == 7 {
        append_str(s, "7");
    } else if d == 8 {
        append_str(s, "8");
    } else if d == 9 {
        append_str(s, "9");
    } else if d == 10 {
        append_str(s, "a");
    } else if d == 11 {
        append_str(s, "b");
    } else if d == 12 {
        append_str(s, "c");
    } else if d == 13 {
        append_str(s, "d");
    } else if d == 14 {
        append_str(s, "e");
    } else {
        append_str(s, "f");
    }
}

fn append_hex_digits(s: &mut String, n: u128, k: u32)
    ensures
        final(s)@ == old(s)@ + hex_digits(n as nat, k as nat),
    decreases k,
{
    if k > 0 {
        append_hex_digits(s, n / 16, k - 1);
        append_hex_digit(s, n % 16);
        proof {
            assert(final(s)@ =~= old(s)@ + hex_digits(n as nat, k as nat));
        }
    }
}

/// Appends the hyphenated lower-case text of `id` to `s`.
pub fn append_uuid(s: &mut String, id: u128)
    ensures
        final(s)@ == old(s)@ + uuid_text(id),
{
    let ghost s0 = s@;
    append_hex_digits(s, id / 0x1_0000_0000_0000_0000_0000_0000, 8);
    append_str(s, "-");
    append_hex_digits(s, id / 0x1_0000_0000_0000_0000_0000, 4);
    append_str(s, "-");
    append_hex_digits(s, id / 0x1_0000_0000_0000_0000, 4);
    append_str(s, "-");
    append_hex_digits(s, id / 0x1_0000_0000_0000, 4);
    append_str(s, "-");
    append_hex_digits(s, id, 12);
    proof {
        assert(s@ =~= s0 + uuid_text(id));
    }
}

/// The hyphenated lower-case text of an id, as the server writes ids into
/// messages, names and cache keys.
pub fn uuid_to_string(id: u128) -> (s: String)
    ensures
        s@ == uuid_text(id),
{
    let mut s = String::new();
    append_uuid(&mut s, id);
    proof {
        assert(s@ =~= uuid_text(id));
    }
    s
}

/// The lower-case hexadecimal text of a byte string, two digits per byte.
pub fn hex_encode(bytes: &[u8]) -> (s: String)
    ensures
        s@ == hex_bytes(bytes@),
{
    let mut s = String::new();
    let mut i: usize = 0;
    while i < bytes.len()
        invariant
            i <= bytes@.len(),
            s@ == hex_bytes(bytes@.take(i as int)),
        decreases bytes@.len() - i,
    {
        append_hex_digits(&mut s, bytes[i] as u128, 2);
        proof {
            assert(bytes@.take(i + 1).drop_last() =~= bytes@.take(i as int));
        }
        i += 1;
    }
    proof {
        assert(bytes@.take(i as int) =~= bytes@);
    }
    s
}

/// The value of a hexadecimal digit, in either case.
pub open spec fn hex_digit_value(c: char) -> Option<nat> {
    let n = c as u32;
    if 48 <= n <= 57 {
        Some((n - 48) as nat)
    } else if 97 <= n <= 102 {
        Some((n - 87) as nat)
    } else if 65 <= n <= 70 {
        Some((n - 55) as nat)
    } else {
        None
    }
}

/// The number a text of hexadecimal digits spells, most significant first;
/// `None` where a character is no hexadecimal digit.
pub open spec fn hex_number(s: Seq<char>) -> Option<nat>
    decreases s.len(),
{
    if s.len() == 0 {
        Some(0)
    } else {
        match (hex_number(s.drop_last()), hex_digit_value(s.last())) {
            (Some(a), Some(d)) => Some(a * 16 + d),
            _ => None,
        }
    }
}

/// The 32 digits of an id written with hyphens after its 8th, 12th, 16th
/// and 20th digit.
pub open spec fn hyphenated_digits(s: Seq<char>) -> Option<Seq<char>> {
    if s.len() == 36 && s[8] == '-' && s[13] == '-' && s[18] == '-' && s[23] == '-' {
        Some(s.subrange(0, 8) + s.subrange(9, 13) + s.subrange(14, 18) + s.subrange(19, 23) + s.subrange(24, 36))
    } else {
        None
    }
}

/// A character with ASCII capitals made small.
pub open spec fn ascii_lower(c: char) -> char {
    if 65 <= (c as u32) <= 90 {
        ((c as u32) + 32) as char
    } else {
        c
    }
}

/// The 32 digits of an id in one of the accepted forms: 32 digits; the
/// hyphenated form; the hyphenated form in braces; or the hyphenated form
/// after `urn:uuid:` (in any case).
pub open spec fn uuid_digits(s: Seq<char>) -> Option<Seq<char>> {
    if s.len() == 32 {
        Some(s)
    } else if s.len() == 36 {
        hyphenated_digits(s)
    } else if s.len() == 38 && s[0] == '{' && s[37] == '}' {
        hyphenated_digits(s.subrange(1, 37))
    } else if s.len() == 45 && s.subrange(0, 9).map_values(|c: char| ascii_lower(c)) == "urn:uuid:"@ {
        hyphenated_digits(s.subrange(9, 45))
    } else {
        None
    }
}

/// The id a text names: its 32 hexadecimal digits read as one number, most
/// significant first; `None` where the text is in none of the accepted forms.
pub open spec fn parsed_uuid(text: Seq<char>) -> Option<u128> {
    match uuid_digits(text) {
        Some(d) => match hex_number(d) {
            Some(n) => Some(n as u128),
            None => None,
        },
        None => None,
    }
}

/// Parses an id with `uuid::Uuid::parse_str` and takes its 128 bits with
/// `as_u128` (big-endian). The crate's parser (`parser.rs`) accepts, by
/// byte length, 32 hexadecimal digits, the hyphenated form of 36, the same
/// in braces, and the same after a case-insensitive `urn:uuid:`; digits are
/// accepted in either case. That is `parsed_uuid`; any character outside
/// ASCII makes every form fail on both sides.
#[verifier::external_body]
pub(crate) fn parse_uuid(text: &str) -> (r: Option<u128>)
    ensures
        r == parsed_uuid(text@),
{
    uuid::Uuid::parse_str(text).ok().map(|u| u.as_u128())
}

/// The number that bytes spell, most significant first.
pub open spec fn be_number(b: Seq<u8>) -> nat
    decreases b.len(),
{
    if b.len() == 0 {
        0
    } else {
        be_number(b.drop_last()) * 256 + (b.last() as nat)
    }
}

/// 256 to the power `k`.
pub open spec fn pow256(k: nat) -> nat
    decreases k,
{
    if k == 0 {
        1
    } else {
        pow256((k - 1) as nat) * 256
    }
}

proof fn lemma_pow256_bound(k: nat)
    requires
        k <= 16,
    ensures
        pow256(k) <= 0x1_0000_0000_0000_0000_0000_0000_0000_0000,
    decreases 16 - k,
{
    if k < 16 {
        lemma_pow256_bound(k + 1);
    } else {
        reveal_with_fuel(pow256, 17);
    }
}

/// The id that 16 bytes spell, most significant first, as `uuid::Uuid`
/// reads its bytes.
pub fn id_from_bytes(b: &[u8; 16]) -> (r: u128)
    ensures
        r == be_number(b@),
{
    let mut n: u128 = 0;
    let mut i: usize = 0;
    while i < 16
        invariant
            i <= 16,
            b@.len() == 16,
            n == be_number(b@.take(i as int)),
            n < pow256(i as nat),
        decreases 16 - i,
    {
        proof {
            assert(b@.take(i + 1).drop_last() =~= b@.take(i as int));
            lemma_pow256_bound((i + 1) as nat);
        }
        n = n * 256 + b[i] as u128;
        i += 1;
    }
    proof {
        assert(b@.take(16) =~= b@);
    }
    n
}

} // verus!
