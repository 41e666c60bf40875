//! Small operations on text: whitespace, trimming, prefixes and decimal
//! numbers.
use vstd::prelude::*;

verus! {

/// `String::push` (std) appends one character to the string; vstd gives it
/// no specification of its own, so this one is trusted.
pub assume_specification[ String::push ](s: &mut String, ch: char)
    ensures
        final(s)@ == old(s)@.push(ch),
;

/// The characters of Unicode's `White_Space` property, which `char::is_whitespace`
/// and `str::trim` go by.
pub open spec fn is_whitespace(c: char) -> bool {
    ||| ('\t' <= c && c <= '\r')
    ||| c == ' '
    ||| c == '\u{85}'
    ||| c == '\u{a0}'
    ||| c == '\u{1680}'
    ||| ('\u{2000}' <= c && c <= '\u{200a}')
    ||| c == '\u{2028}'
    ||| c == '\u{2029}'
    ||| c == '\u{202f}'
    ||| c == '\u{205f}'
    ||| c == '\u{3000}'
}

pub fn is_whitespace_char(c: char) -> (b: bool)
    ensures
        b == is_whitespace(c),
{
    ('\t' <= c && c <= '\r') || c == ' ' || c == '\u{85}' || c == '\u{a0}' || c == '\u{1680}'
        || ('\u{2000}' <= c && c <= '\u{200a}') || c == '\u{2028}' || c == '\u{2029}'
        || c == '\u{202f}' || c == '\u{205f}' || c == '\u{3000}'
}

/// `s` without its leading whitespace.
pub open spec fn trim_start_spec(s: Seq<char>) -> Seq<char>
    decreases s.len(),
{
    if s.len() > 0 && is_whitespace(s[0]) {
        trim_start_spec(s.drop_first())
    } else {
        s
    }
}

/// `s` without its trailing whitespace.
pub open spec fn trim_end_spec(s: Seq<char>) -> Seq<char>
    decreases s.len(),
{
    if s.len() > 0 && is_whitespace(s.last()) {
        trim_end_spec(s.drop_last())
    } else {
        s
    }
}

/// `s` without its leading and trailing whitespace.
pub open spec fn trim_spec(s: Seq<char>) -> Seq<char> {
    trim_end_spec(trim_start_spec(s))
}

/// The index of the first character of `s@.skip(from)` that is not
/// whitespace, and what trimming the start leaves.
fn skip_whitespace(s: &str, from: usize) -> (lo: usize)
    requires
        from <= s@.len(),
    ensures
        from <= lo <= s@.len(),
        trim_start_spec(s@.skip(from as int)) == s@.skip(lo as int),
{
    let n = s.unicode_len();
    let mut lo = from;
    while lo < n && is_whitespace_char(s.get_char(lo))
        invariant
            n == s@.len(),
            from <= lo <= n,
            trim_start_spec(s@.skip(from as int)) == trim_start_spec(s@.skip(lo as int)),
        decreases n - lo,
    {
        assert(s@.skip(lo as int).drop_first() =~= s@.skip(lo + 1));
        lo = lo + 1;
    }
    lo
}

/// The end of `s@.subrange(lo, hi)` once its trailing whitespace is gone.
fn drop_trailing_whitespace(s: &str, lo: usize, hi: usize) -> (end: usize)
    requires
        lo <= hi <= s@.len(),
    ensures
        lo <= end <= hi,
        trim_end_spec(s@.subrange(lo as int, hi as int)) == s@.subrange(lo as int, end as int),
{
    let mut end = hi;
    while end > lo && is_whitespace_char(s.get_char(end - 1))
        invariant
            lo <= end <= hi <= s@.len(),
            trim_end_spec(s@.subrange(lo as int, hi as int)) == trim_end_spec(
                s@.subrange(lo as int, end as int),
            ),
        decreases end - lo,
    {
        assert(s@.subrange(lo as int, end as int).drop_last() =~= s@.subrange(lo as int, end - 1));
        end = end - 1;
    }
    end
}

/// `str::trim`: the text without leading and trailing whitespace.
pub fn trim(s: &str) -> (res: String)
    ensures
        res@ == trim_spec(s@),
{
    let n = s.unicode_len();
    assert(s@.skip(0) =~= s@);
    let lo = skip_whitespace(s, 0);
    assert(s@.skip(lo as int) =~= s@.subrange(lo as int, n as int));
    let end = drop_trailing_whitespace(s, lo, n);
    String::from_str(s.substring_char(lo, end))
}

/// `str::trim_end`: the text without trailing whitespace.
pub fn trim_end(s: &str) -> (res: String)
    ensures
        res@ == trim_end_spec(s@),
{
    let n = s.unicode_len();
    assert(s@.subrange(0, n as int) =~= s@);
    let end = drop_trailing_whitespace(s, 0, n);
    String::from_str(s.substring_char(0, end))
}

/// Whether `s` begins with `prefix`.
pub fn starts_with(s: &str, prefix: &str) -> (b: bool)
    ensures
        b == (prefix@.len() <= s@.len() && s@.take(prefix@.len() as int) == prefix@),
{
    let n = s.unicode_len();
    let m = prefix.unicode_len();
    if m > n {
        return false;
    }
    let mut i: usize = 0;
    while i < m
        invariant
            m == prefix@.len(),
            n == s@.len(),
            m <= n,
            i <= m,
            s@.take(i as int) == prefix@.take(i as int),
        decreases m - i,
    {
        if s.get_char(i) != prefix.get_char(i) {
            assert(s@.take(m as int)[i as int] != prefix@[i as int]);
            return false;
        }
        assert(s@.take(i + 1) =~= s@.take(i as int).push(s@[i as int]));
        assert(prefix@.take(i + 1) =~= prefix@.take(i as int).push(prefix@[i as int]));
        i = i + 1;
    }
    assert(prefix@.take(m as int) =~= prefix@);
    true
}

/// Whether the text of `a` is the word `w`.
pub fn is_word(a: &String, w: &str) -> (b: bool)
    ensures
        b == (a@ == w@),
{
    let t = String::from_str(w);
    *a == t
}

/// The character of the decimal digit `d`.
pub open spec fn digit_char(d: nat) -> char {
    (d + 48) as char
}

/// The decimal notation of `n`, without leading zeros.
pub open spec fn decimal(n: nat) -> Seq<char>
    decreases n,
{
    if n < 10 {
        seq![digit_char(n)]
    } else {
        decimal(n / 10).push(digit_char(n % 10))
    }
}

fn digit(d: u64) -> (c: char)
    requires
        d < 10,
    ensures
        c == digit_char(d as nat),
{
    let b: u8 = d as u8 + 48;
    b as char
}

/// The decimal notation of `n`, as `n.to_string()` writes it.
pub fn decimal_string(n: u64) -> (res: String)
    ensures
        res@ == decimal(n as nat),
    decreases n,
{
    let d = digit(n % 10);
    if n < 10 {
        let mut s = String::new();
        s.push(d);
        assert(s@ =~= seq![d]);
        s
    } else {
        let mut s = decimal_string(n / 10);
        s.push(d);
        s
    }
}

} // verus!
