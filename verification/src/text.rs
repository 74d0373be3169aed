//! Verified text utilities: comparison, prefix and substring search, and
//! decimal rendering and parsing over character sequences.

use vstd::prelude::*;
use vstd::string::*;

verus! {

/// Compare two string slices by contents.
pub fn str_eq(a: &str, b: &str) -> (r: bool)
    ensures
        r <==> a@ == b@,
{
    let x: String = a.to_owned();
    let y: String = b.to_owned();
    x == y
}

/// A string with the given contents occurs in the list.
pub fn contains_string(v: &Vec<String>, s: &str) -> (r: bool)
    ensures
        r <==> exists|i: int| 0 <= i < v@.len() && #[trigger] v@[i]@ == s@,
{
    let mut i: usize = 0;
    while i < v.len()
        invariant
            i <= v@.len(),
            forall|j: int| 0 <= j < i ==> #[trigger] v@[j]@ != s@,
        decreases v@.len() - i,
    {
        if str_eq(v[i].as_str(), s) {
            return true;
        }
        i = i + 1;
    }
    false
}

/// The position of a string with the given contents in the list, if any.
pub fn find_string_index(v: &Vec<String>, s: &str) -> (r: Option<usize>)
    ensures
        r matches Some(j) ==> j < v@.len() && v@[j as int]@ == s@,
        r is None ==> forall|i: int| 0 <= i < v@.len() ==> #[trigger] v@[i]@ != s@,
{
    let mut i: usize = 0;
    while i < v.len()
        invariant
            i <= v@.len(),
            forall|j: int| 0 <= j < i ==> #[trigger] v@[j]@ != s@,
        decreases v@.len() - i,
    {
        if str_eq(v[i].as_str(), s) {
            return Some(i);
        }
        i = i + 1;
    }
    None
}

/// `p` is a prefix of `s`.
pub open spec fn spec_has_prefix(s: Seq<char>, p: Seq<char>) -> bool {
    p.len() <= s.len() && s.subrange(0, p.len() as int) == p
}

/// Check whether `s` starts with `p`.
pub fn has_prefix(s: &str, p: &str) -> (r: bool)
    ensures
        r <==> spec_has_prefix(s@, p@),
{
    let sl = s.unicode_len();
    let pl = p.unicode_len();
    if pl > sl {
        return false;
    }
    let head = s.substring_char(0, pl);
    str_eq(head, p)
}

/// `n` occurs in `h` starting at some position.
pub open spec fn spec_contains_seq(h: Seq<char>, n: Seq<char>) -> bool {
    exists|i: int|
        0 <= i && i + n.len() <= h.len() && #[trigger] h.subrange(i, i + n.len() as int) == n
}

/// Check whether `needle` occurs anywhere in `hay`.
pub fn contains_sub(hay: &str, needle: &str) -> (r: bool)
    ensures
        r <==> spec_contains_seq(hay@, needle@),
{
    let hl = hay.unicode_len();
    let nl = needle.unicode_len();
    if nl > hl {
        return false;
    }
    if nl == 0 {
        assert(spec_contains_seq(hay@, needle@)) by {
            assert(hay@.subrange(0, 0 + needle@.len() as int) == needle@);
        }
        return true;
    }
    let mut i: usize = 0;
    while i <= hl - nl
        invariant
            1 <= nl <= hl,
            hl == hay@.len(),
            nl == needle@.len(),
            i <= hl - nl + 1,
            forall|j: int|
                0 <= j < i ==> #[trigger] hay@.subrange(j, j + needle@.len() as int)
                    != needle@,
        decreases hl - nl - i + 1,
    {
        let piece = hay.substring_char(i, i + nl);
        if str_eq(piece, needle) {
            assert(hay@.subrange(i as int, i + needle@.len() as int) == needle@);
            return true;
        }
        i = i + 1;
    }
    return false;
}

/// The character for one decimal digit.
pub open spec fn spec_digit_char(d: int) -> char {
    if d == 0 { '0' }
    else if d == 1 { '1' }
    else if d == 2 { '2' }
    else if d == 3 { '3' }
    else if d == 4 { '4' }
    else if d == 5 { '5' }
    else if d == 6 { '6' }
    else if d == 7 { '7' }
    else if d == 8 { '8' }
    else { '9' }
}

/// The decimal rendering of `n`, most significant digit first.
pub open spec fn spec_dec(n: nat) -> Seq<char>
    decreases n,
{
    if n < 10 {
        seq![spec_digit_char(n as int)]
    } else {
        spec_dec(n / 10) + seq![spec_digit_char((n % 10) as int)]
    }
}

/// One decimal digit as a string slice.
fn digit_str(d: u64) -> (r: &'static str)
    requires
        d < 10,
    ensures
        r@ == seq![spec_digit_char(d as int)],
{
    proof {
        reveal_strlit("0");
        reveal_strlit("1");
        reveal_strlit("2");
        reveal_strlit("3");
        reveal_strlit("4");
        reveal_strlit("5");
        reveal_strlit("6");
        reveal_strlit("7");
        reveal_strlit("8");
        reveal_strlit("9");
    }
    match d {
        0 => "0",
        1 => "1",
        2 => "2",
        3 => "3",
        4 => "4",
        5 => "5",
        6 => "6",
        7 => "7",
        8 => "8",
        _ => "9",
    }
}

/// Render `n` in decimal.
pub fn u64_to_string(n: u64) -> (r: String)
    ensures
        r@ == spec_dec(n as nat),
    decreases n,
{
    if n < 10 {
        digit_str(n).to_owned()
    } else {
        let mut s = u64_to_string(n / 10);
        s.append(digit_str(n % 10));
        s
    }
}

/// Render `n` in decimal, left-padded with a zero to at least two digits.
pub fn u64_to_string_pad2(n: u64) -> (r: String)
    ensures
        n < 10 ==> r@ == seq!['0'] + spec_dec(n as nat),
        n >= 10 ==> r@ == spec_dec(n as nat),
{
    if n < 10 {
        proof {
            reveal_strlit("0");
        }
        let mut s = String::from_str("0");
        let d = digit_str(n);
        s.append(d);
        s
    } else {
        u64_to_string(n)
    }
}

/// Every character of `s` is a decimal digit.
pub open spec fn spec_all_digits(s: Seq<char>) -> bool {
    forall|i: int| 0 <= i < s.len() ==> '0' <= #[trigger] s[i] <= '9'
}

/// The numeric value of a digit string, most significant digit first.
pub open spec fn spec_dec_val(s: Seq<char>) -> int
    decreases s.len(),
{
    if s.len() == 0 {
        0
    } else {
        spec_dec_val(s.drop_last()) * 10 + (s.last() as int - '0' as int)
    }
}

/// Parse a decimal number. Returns the value exactly when `s` is non-empty,
/// holds only digits, and the value fits in a `u64`.
pub fn parse_u64_dec(s: &str) -> (r: Option<u64>)
    ensures
        r is Some <==> s@.len() > 0 && spec_all_digits(s@) && spec_dec_val(s@) <= u64::MAX,
        r is Some ==> r->0 == spec_dec_val(s@),
{
    let n = s.unicode_len();
    if n == 0 {
        return None;
    }
    let mut i: usize = 0;
    let mut acc: u64 = 0;
    while i < n
        invariant
            n == s@.len(),
            0 <= i <= n,
            spec_all_digits(s@.subrange(0, i as int)),
            acc == spec_dec_val(s@.subrange(0, i as int)),
        decreases n - i,
    {
        let c = s.get_char(i);
        if c < '0' || c > '9' {
            assert(!spec_all_digits(s@)) by {
                assert('0' > s@[i as int] || s@[i as int] > '9');
            }
            return None;
        }
        let d: u64 = (c as u32 as u64) - ('0' as u32 as u64);
        assert(d == s@[i as int] as int - '0' as int);
        proof {
            let pre = s@.subrange(0, (i + 1) as int);
            assert(pre.drop_last() == s@.subrange(0, i as int));
            assert(pre.last() == s@[i as int]);
            assert(spec_dec_val(pre) == acc * 10 + d);
        }
        if acc > (u64::MAX - d) / 10 {
            proof {
                if spec_all_digits(s@) {
                    lemma_dec_val_prefix_le(s@, (i + 1) as int);
                    lemma_mul_step_exceeds(acc as int, d as int);
                }
            }
            return None;
        }
        proof {
            lemma_mul_step_fits(acc as int, d as int);
        }
        acc = acc * 10 + d;
        i = i + 1;
    }
    assert(s@.subrange(0, n as int) == s@);
    Some(acc)
}

/// When the accumulator is above `(u64::MAX - d) / 10`, one more digit
/// overflows the range.
proof fn lemma_mul_step_exceeds(acc: int, d: int)
    requires
        0 <= d < 10,
        acc > (u64::MAX - d) / 10,
    ensures
        acc * 10 + d > u64::MAX,
{
    let q = (u64::MAX - d) / 10;
    vstd::arithmetic::div_mod::lemma_fundamental_div_mod(u64::MAX - d, 10);
    vstd::arithmetic::mul::lemma_mul_inequality(q + 1, acc, 10);
}

/// When the accumulator is at most `(u64::MAX - d) / 10`, one more digit
/// still fits.
proof fn lemma_mul_step_fits(acc: int, d: int)
    requires
        0 <= d < 10,
        0 <= acc <= (u64::MAX - d) / 10,
    ensures
        acc * 10 + d <= u64::MAX,
{
    let q = (u64::MAX - d) / 10;
    vstd::arithmetic::div_mod::lemma_fundamental_div_mod(u64::MAX - d, 10);
    vstd::arithmetic::mul::lemma_mul_inequality(acc, q, 10);
}

/// A digit string's value is at least the value of any of its prefixes.
proof fn lemma_dec_val_prefix_le(s: Seq<char>, k: int)
    requires
        0 <= k <= s.len(),
        spec_all_digits(s),
    ensures
        spec_dec_val(s.subrange(0, k)) <= spec_dec_val(s),
    decreases s.len() - k,
{
    if k == s.len() {
        assert(s.subrange(0, k) == s);
    } else {
        lemma_dec_val_prefix_le(s, k + 1);
        let p1 = s.subrange(0, k + 1);
        assert(p1.drop_last() == s.subrange(0, k));
        assert('0' <= s[k] <= '9');
        assert(p1.last() == s[k]);
        assert(spec_dec_val(s.subrange(0, k)) * 10 >= spec_dec_val(s.subrange(0, k))) by {
            lemma_dec_val_nonneg(s.subrange(0, k));
        }
    }
}

/// The value of an all-digit string is non-negative.
proof fn lemma_dec_val_nonneg(s: Seq<char>)
    requires
        spec_all_digits(s),
    ensures
        spec_dec_val(s) >= 0,
    decreases s.len(),
{
    if s.len() > 0 {
        assert(spec_all_digits(s.drop_last())) by {
            assert(forall|i: int|
                0 <= i < s.drop_last().len() ==> s.drop_last()[i] == s[i]);
        }
        lemma_dec_val_nonneg(s.drop_last());
        assert('0' <= s.last() <= '9');
    }
}

/// Append `sep` between successive items of `parts`.
pub open spec fn spec_join_sep(parts: Seq<Seq<char>>, sep: Seq<char>) -> Seq<char>
    decreases parts.len(),
{
    if parts.len() == 0 {
        Seq::empty()
    } else if parts.len() == 1 {
        parts[0]
    } else {
        spec_join_sep(parts.drop_last(), sep) + sep + parts.last()
    }
}

/// Append `", "` between successive items of `parts`.
pub open spec fn spec_join_comma(parts: Seq<Seq<char>>) -> Seq<char> {
    spec_join_sep(parts, ", "@)
}

/// Join strings with the given separator.
pub fn join_with(parts: &Vec<String>, sep: &str) -> (r: String)
    ensures
        r@ == spec_join_sep(parts@.map_values(|p: String| p@), sep@),
{
    let ghost views = parts@.map_values(|p: String| p@);
    let mut out = String::new();
    let mut i: usize = 0;
    while i < parts.len()
        invariant
            0 <= i <= parts.len(),
            views == parts@.map_values(|p: String| p@),
            views.len() == parts@.len(),
            out@ == spec_join_sep(views.subrange(0, i as int), sep@),
        decreases parts.len() - i,
    {
        if i > 0 {
            out.append(sep);
        }
        out.append(parts[i].as_str());
        proof {
            let pre = views.subrange(0, (i + 1) as int);
            assert(pre.drop_last() == views.subrange(0, i as int));
            assert(pre.last() == views[i as int]);
            if i == 0 {
                assert(out@ == spec_join_sep(pre, sep@));
            }
        }
        i = i + 1;
    }
    assert(views.subrange(0, parts@.len() as int) == views);
    out
}

/// Join strings with `", "` separators.
pub fn join_comma(parts: &Vec<String>) -> (r: String)
    ensures
        r@ == spec_join_comma(parts@.map_values(|p: String| p@)),
{
    join_with(parts, ", ")
}

} // verus!
