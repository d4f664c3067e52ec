use vstd::prelude::*;
use vstd::string::StrSliceExecFns;
use vstd::string::StringExecFns;

verus! {

/// The text of one decimal digit.
pub open spec fn digit_text(d: int) -> Seq<char> {
    if d == 0 {
        "0"@
    } else if d == 1 {
        "1"@
    } else if d == 2 {
        "2"@
    } else if d == 3 {
        "3"@
    } else if d == 4 {
        "4"@
    } else if d == 5 {
        "5"@
    } else if d == 6 {
        "6"@
    } else if d == 7 {
        "7"@
    } else if d == 8 {
        "8"@
    } else {
        "9"@
    }
}

/// The decimal digits of a natural number, most significant first, with no
/// leading zeros.
pub open spec fn nat_decimal(n: nat) -> Seq<char>
    decreases n,
{
    if n < 10 {
        digit_text(n as int)
    } else {
        nat_decimal(n / 10) + digit_text((n % 10) as int)
    }
}

/// The decimal text of an integer, as Rust's `Display` writes it: a minus
/// sign before the digits of a negative number.
pub open spec fn decimal(n: int) -> Seq<char> {
    if n < 0 {
        "-"@ + nat_decimal((-n) as nat)
    } else {
        nat_decimal(n as nat)
    }
}

fn append_digit(s: &mut String, d: u64)
    requires
        d < 10,
    ensures
        final(s)@ == old(s)@ + digit_text(d as int),
{
    if d == 0 {
        s.append("0");
    } else if d == 1 {
        s.append("1");
    } else if d == 2 {
        s.append("2");
    } else if d == 3 {
        s.append("3");
    } else if d == 4 {
        s.append("4");
    } else if d == 5 {
        s.append("5");
    } else if d == 6 {
        s.append("6");
    } else if d == 7 {
        s.append("7");
    } else if d == 8 {
        s.append("8");
    } else {
        s.append("9");
    }
}

fn append_nat_decimal(s: &mut String, n: u64)
    ensures
        final(s)@ == old(s)@ + nat_decimal(n as nat),
    decreases n,
{
    if n < 10 {
        append_digit(s, n);
    } else {
        append_nat_decimal(s, n / 10);
        append_digit(s, n % 10);
        proof {
            assert(final(s)@ =~= old(s)@ + nat_decimal(n as nat));
        }
    }
}

/// Appends the decimal text of `n` to `s`.
pub fn append_decimal(s: &mut String, n: i64)
    ensures
        final(s)@ == old(s)@ + decimal(n as int),
{
    if n < 0 {
        s.append("-");
        let m: u64 = if n == i64::MIN {
            9223372036854775808u64
        } else {
            (-n) as u64
        };
        append_nat_decimal(s, m);
        proof {
            assert(final(s)@ =~= old(s)@ + decimal(n as int));
        }
    } else {
        append_nat_decimal(s, n as u64);
    }
}

/// Appends `t` to `s`.
pub fn append_str(s: &mut String, t: &str)
    ensures
        final(s)@ == old(s)@ + t@,
{
    s.append(t);
}

/// Whether `c` is white space in Unicode's sense (the White_Space property),
/// the characters that `str::trim` strips.
pub open spec fn is_white_space(c: char) -> bool {
    let n = c as u32;
    ||| 9 <= n <= 13
    ||| n == 32
    ||| n == 0x85
    ||| n == 0xa0
    ||| n == 0x1680
    ||| 0x2000 <= n <= 0x200a
    ||| n == 0x2028
    ||| n == 0x2029
    ||| n == 0x202f
    ||| n == 0x205f
    ||| n == 0x3000
}

/// Whether `c` is white space.
pub fn white_space(c: char) -> (r: bool)
    ensures
        r == is_white_space(c),
{
    let n = c as u32;
    (9 <= n && n <= 13) || n == 32 || n == 0x85 || n == 0xa0 || n == 0x1680 || (0x2000 <= n && n <= 0x200a)
        || n == 0x2028 || n == 0x2029 || n == 0x202f || n == 0x205f || n == 0x3000
}

/// `s` without its leading white space.
pub open spec fn trim_start(s: Seq<char>) -> Seq<char>
    decreases s.len(),
{
    if s.len() > 0 && is_white_space(s[0]) {
        trim_start(s.drop_first())
    } else {
        s
    }
}

/// `s` without its trailing white space.
pub open spec fn trim_end(s: Seq<char>) -> Seq<char>
    decreases s.len(),
{
    if s.len() > 0 && is_white_space(s.last()) {
        trim_end(s.drop_last())
    } else {
        s
    }
}

/// `s` without its leading and trailing white space.
pub open spec fn trimmed(s: Seq<char>) -> Seq<char> {
    trim_end(trim_start(s))
}

/// The text without its leading and trailing white space.
pub fn trim(s: &str) -> (r: String)
    ensures
        r@ == trimmed(s@),
{
    let n = s.unicode_len();
    let mut a: usize = 0;
    proof {
        assert(s@.subrange(0, n as int) =~= s@);
    }
    while a < n && white_space(s.get_char(a))
        invariant
            n == s@.len(),
            a <= n,
            trim_start(s@) == trim_start(s@.subrange(a as int, n as int)),
        decreases n - a,
    {
        proof {
            assert(s@.subrange(a as int, n as int).drop_first() =~= s@.subrange(a + 1, n as int));
        }
        a += 1;
    }
    proof {
        if a == n {
            assert(s@.subrange(a as int, n as int) =~= Seq::<char>::empty());
        }
    }
    let mut b: usize = n;
    while b > a && white_space(s.get_char(b - 1))
        invariant
            n == s@.len(),
            a <= b <= n,
            trim_start(s@) == s@.subrange(a as int, n as int),
            trimmed(s@) == trim_end(s@.subrange(a as int, b as int)),
        decreases b - a,
    {
        proof {
            assert(s@.subrange(a as int, b as int).drop_last() =~= s@.subrange(a as int, b - 1));
        }
        b -= 1;
    }
    let t = s.substring_char(a, b);
    String::from_str(t)
}

/// The pieces joined together, with `sep` between each two.
pub open spec fn join(pieces: Seq<Seq<char>>, sep: char) -> Seq<char>
    decreases pieces.len(),
{
    if pieces.len() == 0 {
        Seq::empty()
    } else if pieces.len() == 1 {
        pieces[0]
    } else {
        join(pieces.drop_last(), sep) + seq![sep] + pieces.last()
    }
}

/// Whether `pieces` is `s` cut at each `sep`: joined with `sep` they give
/// `s` back, and none of them holds `sep`. There is always one piece more
/// than `s` has separators, so an empty text gives one empty piece.
pub open spec fn split_into(s: Seq<char>, sep: char, pieces: Seq<Seq<char>>) -> bool {
    &&& pieces.len() >= 1
    &&& join(pieces, sep) == s
    &&& forall|i: int| 0 <= i < pieces.len() ==> !(#[trigger] pieces[i]).contains(sep)
}

/// The texts of a list of strings.
pub open spec fn texts(v: Seq<String>) -> Seq<Seq<char>> {
    v.map_values(|t: String| t@)
}

proof fn lemma_join_push(pieces: Seq<Seq<char>>, sep: char, last: Seq<char>)
    requires
        pieces.len() >= 1,
    ensures
        join(pieces.push(last), sep) == join(pieces, sep) + seq![sep] + last,
{
    assert(pieces.push(last).drop_last() =~= pieces);
}

/// The text cut at each `sep`, as `str::split` cuts it.
pub fn split(s: &str, sep: char) -> (r: Vec<String>)
    ensures
        split_into(s@, sep, texts(r@)),
{
    let n = s.unicode_len();
    let mut pieces: Vec<String> = Vec::new();
    let mut start: usize = 0;
    let mut i: usize = 0;
    while i < n
        invariant
            n == s@.len(),
            start <= i <= n,
            join(texts(pieces@).push(s@.subrange(start as int, i as int)), sep) == s@.subrange(0, i as int),
            forall|k: int| 0 <= k < pieces@.len() ==> !(#[trigger] texts(pieces@)[k]).contains(sep),
            !s@.subrange(start as int, i as int).contains(sep),
        decreases n - i,
    {
        let c = s.get_char(i);
        let ghost before = texts(pieces@);
        let ghost cur = s@.subrange(start as int, i as int);
        if c == sep {
            let piece = String::from_str(s.substring_char(start, i));
            pieces.push(piece);
            proof {
                assert(texts(pieces@) =~= before.push(cur));
                lemma_join_push(before.push(cur), sep, Seq::empty());
                assert(s@.subrange(i + 1, i + 1) =~= Seq::<char>::empty());
                assert(s@.subrange(0, i + 1) =~= s@.subrange(0, i as int) + seq![sep] + Seq::<char>::empty());
                assert forall|k: int| 0 <= k < pieces@.len() implies !(#[trigger] texts(pieces@)[k]).contains(sep) by {
                    if k < before.len() {
                        assert(texts(pieces@)[k] == before[k]);
                    }
                }
            }
            start = i + 1;
        } else {
            proof {
                let next = s@.subrange(start as int, i + 1);
                assert(next =~= cur.push(c));
                if before.len() == 0 {
                    assert(before.push(cur) =~= seq![cur]);
                    assert(before.push(next) =~= seq![next]);
                } else {
                    lemma_join_push(before, sep, cur);
                    lemma_join_push(before, sep, next);
                }
                assert(s@.subrange(0, i + 1) =~= s@.subrange(0, i as int).push(c));
                assert(!next.contains(sep)) by {
                    if next.contains(sep) {
                        let j = choose|j: int| 0 <= j < next.len() && next[j] == sep;
                        if j < cur.len() {
                            assert(cur[j] == sep);
                        }
                    }
                }
            }
        }
        i += 1;
    }
    let last = String::from_str(s.substring_char(start, n));
    let ghost before = texts(pieces@);
    pieces.push(last);
    proof {
        assert(texts(pieces@) =~= before.push(s@.subrange(start as int, n as int)));
        assert(s@.subrange(0, n as int) =~= s@);
        assert forall|k: int| 0 <= k < pieces@.len() implies !(#[trigger] texts(pieces@)[k]).contains(sep) by {
            if k < before.len() {
                assert(texts(pieces@)[k] == before[k]);
            }
        }
    }
    pieces
}

/// The comma-separated entries of a list, each without surrounding white
/// space.
pub fn comma_list(s: &str) -> (r: Vec<String>)
    ensures
        exists|pieces: Seq<Seq<char>>| {
            &&& split_into(s@, ',', pieces)
            &&& r@.len() == pieces.len()
            &&& forall|i: int| 0 <= i < pieces.len() ==> (#[trigger] r@[i])@ == trimmed(pieces[i])
        },
{
    let pieces = split(s, ',');
    let mut r: Vec<String> = Vec::new();
    let mut i: usize = 0;
    while i < pieces.len()
        invariant
            i <= pieces@.len(),
            r@.len() == i,
            forall|k: int| 0 <= k < i ==> (#[trigger] r@[k])@ == trimmed(pieces@[k]@),
        decreases pieces@.len() - i,
    {
        r.push(trim(pieces[i].as_str()));
        i += 1;
    }
    proof {
        assert(texts(pieces@).len() == r@.len());
        assert forall|k: int| 0 <= k < texts(pieces@).len() implies (#[trigger] r@[k])@ == trimmed(texts(pieces@)[k]) by {
            assert(texts(pieces@)[k] == pieces@[k]@);
        }
    }
    r
}

/// Whether `prefix` begins `s`.
pub open spec fn has_prefix(s: Seq<char>, prefix: Seq<char>) -> bool {
    prefix.len() <= s.len() && s.subrange(0, prefix.len() as int) == prefix
}

/// Whether `s` begins with `prefix`.
pub fn starts_with(s: &str, prefix: &str) -> (r: bool)
    ensures
        r == has_prefix(s@, prefix@),
{
    let n = s.unicode_len();
    let k = prefix.unicode_len();
    if k > n {
        return false;
    }
    let mut i: usize = 0;
    while i < k
        invariant
            n == s@.len(),
            k == prefix@.len(),
            k <= n,
            i <= k,
            forall|j: int| 0 <= j < i ==> s@[j] == prefix@[j],
        decreases k - i,
    {
        if s.get_char(i) != prefix.get_char(i) {
            proof {
                assert(s@.subrange(0, k as int)[i as int] != prefix@[i as int]);
            }
            return false;
        }
        i += 1;
    }
    proof {
        assert(s@.subrange(0, k as int) =~= prefix@);
    }
    true
}

/// Whether the text is empty.
pub fn is_empty_text(s: &str) -> (r: bool)
    ensures
        r == (s@.len() == 0),
{
    s.unicode_len() == 0
}

/// Whether `suffix` ends `s`.
pub open spec fn has_suffix(s: Seq<char>, suffix: Seq<char>) -> bool {
    suffix.len() <= s.len() && s.subrange(s.len() - suffix.len(), s.len() as int) == suffix
}

/// Whether `s` ends with `suffix`.
pub fn ends_with(s: &str, suffix: &str) -> (r: bool)
    ensures
        r == has_suffix(s@, suffix@),
{
    let n = s.unicode_len();
    let k = suffix.unicode_len();
    if k > n {
        return false;
    }
    let mut i: usize = 0;
    while i < k
        invariant
            n == s@.len(),
            k == suffix@.len(),
            k <= n,
            i <= k,
            forall|j: int| 0 <= j < i ==> s@[n - k + j] == suffix@[j],
        decreases k - i,
    {
        if s.get_char(n - k + i) != suffix.get_char(i) {
            proof {
                assert(s@.subrange(n - k, n as int)[i as int] != suffix@[i as int]);
            }
            return false;
        }
        i += 1;
    }
    proof {
        assert(s@.subrange(n - k, n as int) =~= suffix@);
    }
    true
}

} // verus!
