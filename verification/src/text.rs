//! Character-level string helpers used by the renderer and the parsers.
use vstd::prelude::*;

verus! {

broadcast use vstd::string::group_string_axioms;

/// The characters of `s`, one by one.
pub fn chars_of(s: &str) -> (v: Vec<char>)
    ensures
        v@ == s@,
{
    let mut v: Vec<char> = Vec::new();
    for c in it: s.chars()
        invariant
            it.seq() == s@,
            v@ == it.seq().take(it.index() as int),
    {
        v.push(c);
    }
    v
}

/// Appends one character to a string (`String::push`).
#[verifier::external_body]
pub(crate) fn push_char(s: &mut String, c: char)
    ensures
        final(s)@ == old(s)@.push(c),
{
    s.push(c)
}

/// A new string holding the characters of `s`.
pub fn string_of(s: &str) -> (r: String)
    ensures
        r@ == s@,
{
    String::from_str(s)
}

/// Appends `t` to `out`.
pub fn append(out: &mut String, t: &str)
    ensures
        final(out)@ == old(out)@ + t@,
{
    out.append(t);
}

/// Whether two strings hold the same characters.
pub fn str_eq(a: &str, b: &str) -> (r: bool)
    ensures
        r == (a@ == b@),
{
    let x = chars_of(a);
    let y = chars_of(b);
    if x.len() != y.len() {
        return false;
    }
    let n = x.len();
    let mut i: usize = 0;
    while i < n
        invariant
            x@ == a@,
            y@ == b@,
            n == x.len(),
            n == y.len(),
            i <= n,
            forall|j: int| 0 <= j < i ==> x@[j] == y@[j],
        decreases n - i,
    {
        if x[i] != y[i] {
            return false;
        }
        i = i + 1;
    }
    assert(x@ =~= y@);
    true
}

// ---------------------------------------------------------------------
// Decimal digits
// ---------------------------------------------------------------------

/// Whether `c` is an ASCII decimal digit.
pub open spec fn is_digit(c: char) -> bool {
    '0' <= c && c <= '9'
}

/// The value of the ASCII digit `c`.
pub open spec fn digit_value(c: char) -> int {
    c as int - 48
}

/// The decimal digit character for `d < 10`.
pub open spec fn digit_char(d: int) -> char {
    (48 + d) as char
}

/// Whether every character of `s` is an ASCII decimal digit.
pub open spec fn all_digits(s: Seq<char>) -> bool {
    forall|i: int| 0 <= i < s.len() ==> is_digit(#[trigger] s[i])
}

/// The number written by the digits `s` (most significant first).
pub open spec fn digits_value(s: Seq<char>) -> nat
    decreases s.len(),
{
    if s.len() == 0 {
        0
    } else {
        (digits_value(s.drop_last()) * 10 + digit_value(s.last())) as nat
    }
}

/// Decimal representation of a natural number, without leading zeros.
pub open spec fn decimal(n: nat) -> Seq<char>
    decreases n,
{
    if n < 10 {
        seq![digit_char(n as int)]
    } else {
        decimal(n / 10).push(digit_char((n % 10) as int))
    }
}

/// Appends the decimal representation of `n` to `out`.
pub fn push_decimal(out: &mut String, n: u64)
    ensures
        final(out)@ == old(out)@ + decimal(n as nat),
    decreases n,
{
    if n >= 10 {
        push_decimal(out, n / 10);
    }
    let d: u8 = (n % 10) as u8;
    push_char(out, (48u8 + d) as char);
    assert(out@ == old(out)@ + decimal(n as nat));
}

/// The decimal representation of `n` as a new string.
pub fn decimal_string(n: u64) -> (r: String)
    ensures
        r@ == decimal(n as nat),
{
    let mut r = String::new();
    push_decimal(&mut r, n);
    assert(r@ =~= decimal(n as nat));
    r
}

/// The decimal representation of a number is a non-empty run of digits
/// that reads back as the number.
pub proof fn lemma_decimal_digits(n: nat)
    ensures
        decimal(n).len() >= 1,
        all_digits(decimal(n)),
        digits_value(decimal(n)) == n,
        is_digit(decimal(n)[0]),
    decreases n,
{
    if n >= 10 {
        lemma_decimal_digits(n / 10);
        let d = decimal(n / 10);
        assert(decimal(n).drop_last() =~= d);
        assert(decimal(n).last() == digit_char((n % 10) as int));
        assert(digit_value(digit_char((n % 10) as int)) == n % 10);
        assert(digits_value(decimal(n)) == digits_value(d) * 10 + n % 10);
        assert(digits_value(d) == n / 10);
        assert((n / 10) * 10 + n % 10 == n);
        assert forall|i: int| 0 <= i < decimal(n).len() implies is_digit(#[trigger] decimal(n)[i]) by {
            if i < d.len() {
                assert(decimal(n)[i] == d[i]);
            }
        }
    } else {
        assert(decimal(n).drop_last() =~= Seq::<char>::empty());
        assert(decimal(n).last() == digit_char(n as int));
        assert(digit_value(digit_char(n as int)) == n);
        assert(digits_value(decimal(n)) == digits_value(Seq::<char>::empty()) * 10 + n);
    }
}

/// The text form of a `u64` as Rust's `FromStr` reads it: an optional
/// `+` followed by the digits.
pub open spec fn unsigned_body(s: Seq<char>) -> Seq<char> {
    if s.len() > 0 && s[0] == '+' {
        s.drop_first()
    } else {
        s
    }
}

/// What `str::parse::<u64>` gives back: `Some` exactly for an optional
/// `+` followed by one or more ASCII digits whose value fits in a `u64`.
pub open spec fn parse_u64_spec(s: Seq<char>) -> Option<u64> {
    let d = unsigned_body(s);
    if d.len() > 0 && all_digits(d) && digits_value(d) <= u64::MAX {
        Some(digits_value(d) as u64)
    } else {
        None
    }
}

/// A longer run of digits is worth at least as much as its prefix.
pub proof fn lemma_digits_value_prefix(s: Seq<char>, k: int)
    requires
        0 <= k <= s.len(),
        all_digits(s),
    ensures
        digits_value(s.take(k)) <= digits_value(s),
    decreases s.len() - k,
{
    if k < s.len() {
        lemma_digits_value_prefix(s, k + 1);
        assert(s.take(k + 1).drop_last() =~= s.take(k));
        assert(is_digit(s[k]));
        assert(s.take(k + 1).last() == s[k]);
        assert(digit_value(s[k]) >= 0);
        assert(digits_value(s.take(k + 1)) == digits_value(s.take(k)) * 10 + digit_value(s[k]));
    } else {
        assert(s.take(k) =~= s);
    }
}

/// Parses an unsigned decimal number as `str::parse::<u64>` does.
pub fn parse_u64(s: &str) -> (r: Option<u64>)
    ensures
        r == parse_u64_spec(s@),
{
    let v = chars_of(s);
    let n = v.len();
    let start: usize = if n > 0 && v[0] == '+' { 1 } else { 0 };
    let ghost d = unsigned_body(s@);
    assert(d =~= v@.skip(start as int));
    if start == n {
        return None;
    }
    let mut acc: u64 = 0;
    let mut i: usize = start;
    while i < n
        invariant
            v@ == s@,
            n == v.len(),
            start <= i <= n,
            start < n,
            d == v@.skip(start as int),
            d == unsigned_body(s@),
            all_digits(d.take(i - start)),
            acc as nat == digits_value(d.take(i - start)),
        decreases n - i,
    {
        let c = v[i];
        assert(d[i - start] == c);
        if !(c >= '0' && c <= '9') {
            assert(!all_digits(d));
            return None;
        }
        let dv: u64 = (c as u32 - 48) as u64;
        assert(d.take(i + 1 - start).drop_last() =~= d.take(i - start));
        assert forall|j: int| 0 <= j < i + 1 - start implies is_digit(#[trigger] d.take(i + 1 - start)[j]) by {
            if j < i - start {
                assert(d.take(i + 1 - start)[j] == d.take(i - start)[j]);
            }
        }
        if acc > (u64::MAX - dv) / 10 {
            proof {
                let k = i + 1 - start;
                if all_digits(d) {
                    lemma_digits_value_prefix(d, k);
                }
            }
            return None;
        }
        acc = acc * 10 + dv;
        i = i + 1;
    }
    assert(d.take(n - start) =~= d);
    Some(acc)
}

/// Reading back the decimal form of a `u64` gives the number.
pub proof fn lemma_parse_decimal(n: u64)
    ensures
        parse_u64_spec(decimal(n as nat)) == Some(n),
{
    lemma_decimal_digits(n as nat);
    let s = decimal(n as nat);
    assert(s[0] != '+');
    assert(unsigned_body(s) == s);
}


// ---------------------------------------------------------------------
// Substrings
// ---------------------------------------------------------------------

/// `pat` stands in `s` at position `i`.
pub open spec fn occurs_at(s: Seq<char>, pat: Seq<char>, i: int) -> bool {
    0 <= i && i + pat.len() <= s.len() && s.subrange(i, i + pat.len()) == pat
}

/// `pat` stands somewhere in `s` (`str::contains`).
pub open spec fn contains(s: Seq<char>, pat: Seq<char>) -> bool {
    exists|i: int| #[trigger] occurs_at(s, pat, i)
}

/// Whether `pat` stands in `s` at position `i`.
pub fn matches_at(s: &Vec<char>, pat: &Vec<char>, i: usize) -> (r: bool)
    ensures
        r == occurs_at(s@, pat@, i as int),
{
    if i > s.len() || pat.len() > s.len() - i {
        return false;
    }
    let n = pat.len();
    let mut j: usize = 0;
    while j < n
        invariant
            n == pat.len(),
            i + n <= s.len(),
            j <= n,
            forall|k: int| 0 <= k < j ==> s@[i + k] == pat@[k],
        decreases n - j,
    {
        if s[i + j] != pat[j] {
            assert(s@.subrange(i as int, i + n)[j as int] != pat@[j as int]);
            return false;
        }
        j = j + 1;
    }
    assert(s@.subrange(i as int, i + n) =~= pat@);
    true
}

/// Whether `pat` stands somewhere in `s`.
pub fn contains_chars(s: &Vec<char>, pat: &Vec<char>) -> (r: bool)
    ensures
        r == contains(s@, pat@),
{
    if pat.len() > s.len() {
        assert forall|i: int| !#[trigger] occurs_at(s@, pat@, i) by {}
        return false;
    }
    let last = s.len() - pat.len();
    let mut i: usize = 0;
    while i < last
        invariant
            last == s.len() - pat.len(),
            pat.len() <= s.len(),
            i <= last,
            forall|k: int| 0 <= k < i ==> !#[trigger] occurs_at(s@, pat@, k),
        decreases last - i,
    {
        if matches_at(s, pat, i) {
            return true;
        }
        i = i + 1;
    }
    if matches_at(s, pat, last) {
        return true;
    }
    assert forall|k: int| !#[trigger] occurs_at(s@, pat@, k) by {
        if 0 <= k < i {
        }
    }
    false
}

/// Whether `pat` stands somewhere in `s` (`str::contains`).
pub fn str_contains(s: &str, pat: &str) -> (r: bool)
    ensures
        r == contains(s@, pat@),
{
    let a = chars_of(s);
    let b = chars_of(pat);
    contains_chars(&a, &b)
}

/// `s` begins with `p`.
pub open spec fn starts_with(s: Seq<char>, p: Seq<char>) -> bool {
    s.len() >= p.len() && s.take(p.len() as int) == p
}

/// `s` read once from the left, where each occurrence of `p1` is replaced
/// by `r1` and each occurrence of `p2` by `r2` (`p1` first where both
/// would start); the inserted text is not read again. Both patterns are
/// non-empty.
pub open spec fn replace_pair(
    s: Seq<char>,
    p1: Seq<char>,
    r1: Seq<char>,
    p2: Seq<char>,
    r2: Seq<char>,
) -> Seq<char>
    decreases s.len(),
{
    if s.len() == 0 || p1.len() == 0 || p2.len() == 0 {
        s
    } else if starts_with(s, p1) {
        r1 + replace_pair(s.skip(p1.len() as int), p1, r1, p2, r2)
    } else if starts_with(s, p2) {
        r2 + replace_pair(s.skip(p2.len() as int), p1, r1, p2, r2)
    } else {
        seq![s[0]] + replace_pair(s.drop_first(), p1, r1, p2, r2)
    }
}

/// Replaces, in one pass from the left, every `p1` in `s` by `r1` and
/// every `p2` by `r2`, without reading the replacements again.
pub fn replace_pair_str(s: &str, p1: &str, r1: &str, p2: &str, r2: &str) -> (r: String)
    requires
        p1@.len() > 0,
        p2@.len() > 0,
    ensures
        r@ == replace_pair(s@, p1@, r1@, p2@, r2@),
{
    let v = chars_of(s);
    let q1 = chars_of(p1);
    let q2 = chars_of(p2);
    let n = v.len();
    let m1 = q1.len();
    let m2 = q2.len();
    let mut out = String::new();
    let mut i: usize = 0;
    assert(v@.skip(0) =~= v@);
    while i < n
        invariant
            v@ == s@,
            q1@ == p1@,
            q2@ == p2@,
            n == v.len(),
            m1 == q1.len(),
            m2 == q2.len(),
            m1 > 0,
            m2 > 0,
            i <= n,
            replace_pair(s@, p1@, r1@, p2@, r2@) == out@ + replace_pair(
                v@.skip(i as int),
                p1@,
                r1@,
                p2@,
                r2@,
            ),
        decreases n - i,
    {
        let ghost rest = v@.skip(i as int);
        proof {
            if rest.len() >= m1 {
                assert(rest.take(m1 as int) =~= v@.subrange(i as int, i + m1));
            }
            if rest.len() >= m2 {
                assert(rest.take(m2 as int) =~= v@.subrange(i as int, i + m2));
            }
        }
        if matches_at(&v, &q1, i) {
            assert(rest.skip(m1 as int) =~= v@.skip(i + m1));
            append(&mut out, r1);
            i = i + m1;
        } else if matches_at(&v, &q2, i) {
            assert(rest.skip(m2 as int) =~= v@.skip(i + m2));
            append(&mut out, r2);
            i = i + m2;
        } else {
            assert(rest.drop_first() =~= v@.skip(i + 1));
            assert(rest[0] == v@[i as int]);
            push_char(&mut out, v[i]);
            i = i + 1;
        }
    }
    assert(v@.skip(i as int) =~= Seq::<char>::empty());
    assert(out@ + Seq::<char>::empty() =~= out@);
    out
}

// ---------------------------------------------------------------------
// White space
// ---------------------------------------------------------------------

/// Unicode `White_Space` (what `char::is_whitespace` tests).
pub open spec fn is_ws(c: char) -> bool {
    ||| ('\t' <= c && c <= '\r')
    ||| c == ' '
    ||| c == '\u{85}'
    ||| c == '\u{a0}'
    ||| c == '\u{1680}'
    ||| ('\u{2000}' <= c && c <= '\u{200a}')
    ||| c == '\u{2028}'
    ||| c == '\u{2029}'
    ||| c == '\u{202f}'
    ||| c == '\u{205f}'
    ||| c == '\u{3000}'
}

/// Whether `c` is white space.
pub fn is_whitespace(c: char) -> (r: bool)
    ensures
        r == is_ws(c),
{
    ('\t' <= c && c <= '\r') || c == ' ' || c == '\u{85}' || c == '\u{a0}' || c == '\u{1680}'
        || ('\u{2000}' <= c && c <= '\u{200a}') || c == '\u{2028}' || c == '\u{2029}' || c
        == '\u{202f}' || c == '\u{205f}' || c == '\u{3000}'
}

/// Splitting `s` into maximal runs of non-white-space characters, where
/// `cur` is the run read so far.
pub open spec fn tokens_from(s: Seq<char>, cur: Seq<char>) -> Seq<Seq<char>>
    decreases s.len(),
{
    if s.len() == 0 {
        if cur.len() == 0 {
            seq![]
        } else {
            seq![cur]
        }
    } else if is_ws(s[0]) {
        if cur.len() == 0 {
            tokens_from(s.drop_first(), seq![])
        } else {
            seq![cur] + tokens_from(s.drop_first(), seq![])
        }
    } else {
        tokens_from(s.drop_first(), cur.push(s[0]))
    }
}

/// The white-space separated words of `s` (`str::split_whitespace`).
pub open spec fn tokens(s: Seq<char>) -> Seq<Seq<char>> {
    tokens_from(s, seq![])
}

/// The views of a sequence of strings.
pub open spec fn views(v: Seq<Vec<char>>) -> Seq<Seq<char>> {
    v.map_values(|t: Vec<char>| t@)
}

/// The white-space separated words of `s`.
pub fn split_whitespace(s: &str) -> (r: Vec<Vec<char>>)
    ensures
        views(r@) == tokens(s@),
{
    let v = chars_of(s);
    let n = v.len();
    let mut out: Vec<Vec<char>> = Vec::new();
    let mut cur: Vec<char> = Vec::new();
    let mut i: usize = 0;
    assert(v@.skip(0) =~= v@);
    assert(views(out@) =~= Seq::<Seq<char>>::empty());
    while i < n
        invariant
            v@ == s@,
            n == v.len(),
            i <= n,
            tokens(s@) == views(out@) + tokens_from(v@.skip(i as int), cur@),
        decreases n - i,
    {
        let ghost rest = v@.skip(i as int);
        assert(rest[0] == v@[i as int]);
        assert(rest.drop_first() =~= v@.skip(i + 1));
        let c = v[i];
        if is_whitespace(c) {
            if cur.len() > 0 {
                let ghost before = out@;
                let ghost word = cur@;
                let done = cur;
                out.push(done);
                cur = Vec::new();
                assert(views(out@) =~= views(before) + seq![word]);
            } else {
                assert(cur@ =~= Seq::<char>::empty());
            }
        } else {
            cur.push(c);
        }
        i = i + 1;
    }
    let ghost before = out@;
    if cur.len() > 0 {
        let ghost word = cur@;
        out.push(cur);
        assert(views(out@) =~= views(before) + seq![word]);
    }
    assert(views(out@) =~= tokens(s@));
    out
}

/// A run without white space read after `cur` extends the current word.
pub proof fn lemma_tokens_word(w: Seq<char>, r: Seq<char>, cur: Seq<char>)
    requires
        forall|j: int| 0 <= j < w.len() ==> !is_ws(#[trigger] w[j]),
    ensures
        tokens_from(w + r, cur) == tokens_from(r, cur + w),
    decreases w.len(),
{
    if w.len() == 0 {
        assert(w + r =~= r);
        assert(cur + w =~= cur);
    } else {
        assert((w + r)[0] == w[0]);
        assert((w + r).drop_first() =~= w.drop_first() + r);
        lemma_tokens_word(w.drop_first(), r, cur.push(w[0]));
        assert(cur.push(w[0]) + w.drop_first() =~= cur + w);
    }
}

/// A word read so far ends where the text ends or white space follows.
pub proof fn lemma_tokens_word_ends(r: Seq<char>, cur: Seq<char>)
    requires
        cur.len() > 0,
        r.len() == 0 || is_ws(r[0]),
    ensures
        tokens_from(r, cur) == seq![cur] + tokens_from(r, seq![]),
{
    if r.len() == 0 {
        assert(seq![cur] + Seq::<Seq<char>>::empty() =~= seq![cur]);
    }
}

// ---------------------------------------------------------------------
// Trimming from the end
// ---------------------------------------------------------------------

/// `s` without its trailing white space (`str::trim_end`).
pub open spec fn trim_end_ws(s: Seq<char>) -> Seq<char>
    decreases s.len(),
{
    if s.len() > 0 && is_ws(s.last()) {
        trim_end_ws(s.drop_last())
    } else {
        s
    }
}

/// `s` with `suf` removed from its end as often as it stands there
/// (`str::trim_end_matches` for a non-empty pattern).
pub open spec fn strip_suffixes(s: Seq<char>, suf: Seq<char>) -> Seq<char>
    decreases s.len(),
{
    if suf.len() > 0 && s.len() >= suf.len() && s.skip(s.len() - suf.len()) == suf {
        strip_suffixes(s.take(s.len() - suf.len()), suf)
    } else {
        s
    }
}

/// The length of `s.take(n)` once trailing white space is trimmed.
pub fn trim_end_len(s: &Vec<char>, n: usize) -> (k: usize)
    requires
        n <= s.len(),
    ensures
        k <= n,
        s@.take(k as int) == trim_end_ws(s@.take(n as int)),
{
    let mut k = n;
    while k > 0 && is_whitespace(s[k - 1])
        invariant
            k <= n <= s.len(),
            trim_end_ws(s@.take(n as int)) == trim_end_ws(s@.take(k as int)),
        decreases k,
    {
        assert(s@.take(k as int).drop_last() =~= s@.take(k - 1));
        assert(s@.take(k as int).last() == s@[k - 1]);
        k = k - 1;
    }
    if k > 0 {
        assert(s@.take(k as int).last() == s@[k - 1]);
    }
    k
}

/// The length of `s.take(n)` once every trailing `suf` is removed.
pub fn strip_suffixes_len(s: &Vec<char>, n: usize, suf: &Vec<char>) -> (k: usize)
    requires
        n <= s.len(),
        suf.len() > 0,
    ensures
        k <= n,
        s@.take(k as int) == strip_suffixes(s@.take(n as int), suf@),
{
    let m = suf.len();
    let mut k = n;
    while k >= m && matches_at(s, suf, k - m)
        invariant
            k <= n <= s.len(),
            m == suf.len(),
            m > 0,
            strip_suffixes(s@.take(n as int), suf@) == strip_suffixes(s@.take(k as int), suf@),
        decreases k,
    {
        assert(s@.take(k as int).skip(k - m) =~= s@.subrange(k - m, k as int));
        assert(s@.take(k as int).take(k - m) =~= s@.take(k - m));
        k = k - m;
    }
    if k >= m {
        assert(s@.take(k as int).skip(k - m) =~= s@.subrange(k - m, k as int));
    }
    k
}

} // verus!
