//! Character-sequence utilities shared by the rest of the library:
//! joining with a separator, decimal rendering and line splitting.

use vstd::prelude::*;

verus! {

/// The characters of `parts` separated by `sep`, as `[String]::join` produces them.
pub open spec fn seq_join(parts: Seq<Seq<char>>, sep: Seq<char>) -> Seq<char>
    decreases parts.len(),
{
    if parts.len() == 0 {
        Seq::empty()
    } else if parts.len() == 1 {
        parts[0]
    } else {
        seq_join(parts.drop_last(), sep) + sep + parts.last()
    }
}

/// The views of a vector of strings.
pub open spec fn string_views(v: Seq<String>) -> Seq<Seq<char>> {
    v.map_values(|s: String| s@)
}

/// The ASCII digit for a value below ten.
pub open spec fn digit_char(d: nat) -> char {
    if d == 0 { '0' } else if d == 1 { '1' } else if d == 2 { '2' } else if d == 3 { '3' }
    else if d == 4 { '4' } else if d == 5 { '5' } else if d == 6 { '6' } else if d == 7 { '7' }
    else if d == 8 { '8' } else { '9' }
}

/// Decimal rendering of a natural number, without leading zeros.
pub open spec fn decimal(n: nat) -> Seq<char>
    decreases n,
{
    if n < 10 {
        seq![digit_char(n)]
    } else {
        decimal(n / 10).push(digit_char(n % 10))
    }
}

/// Appends one character to a string (`String::push`).
#[verifier::external_body]
pub(crate) fn string_push_char(s: &mut String, c: char)
    ensures
        final(s)@ == old(s)@.push(c),
{
    s.push(c);
}

fn digit_of(d: u64) -> (c: char)
    requires
        d < 10,
    ensures
        c == digit_char(d as nat),
{
    if d == 0 { '0' } else if d == 1 { '1' } else if d == 2 { '2' } else if d == 3 { '3' }
    else if d == 4 { '4' } else if d == 5 { '5' } else if d == 6 { '6' } else if d == 7 { '7' }
    else if d == 8 { '8' } else { '9' }
}

/// Appends the decimal rendering of `n` to `s`.
pub fn push_decimal(s: &mut String, n: u64)
    ensures
        final(s)@ == old(s)@ + decimal(n as nat),
    decreases n,
{
    if n >= 10 {
        push_decimal(s, n / 10);
    }
    let c = digit_of(n % 10);
    string_push_char(s, c);
    proof {
        if n < 10 {
            assert(old(s)@ + decimal(n as nat) =~= old(s)@.push(c));
        } else {
            assert(decimal(n as nat) == decimal((n / 10) as nat).push(digit_char((n % 10) as nat)));
            assert(old(s)@ + decimal(n as nat) =~= (old(s)@ + decimal((n / 10) as nat)).push(c));
        }
    }
}

/// The decimal rendering of `n` (`n.to_string()` for an unsigned integer).
pub fn u64_to_decimal(n: u64) -> (res: String)
    ensures
        res@ == decimal(n as nat),
{
    let mut s = String::new();
    push_decimal(&mut s, n);
    assert(s@ =~= decimal(n as nat));
    s
}

/// Joins the strings of `parts` with `sep` between neighbours.
pub fn join_strings(parts: &Vec<String>, sep: &str) -> (res: String)
    ensures
        res@ == seq_join(string_views(parts@), sep@),
{
    let mut res = String::new();
    let ghost views = string_views(parts@);
    let mut i: usize = 0;
    while i < parts.len()
        invariant
            i <= parts.len(),
            views == string_views(parts@),
            res@ == seq_join(views.take(i as int), sep@),
        decreases parts.len() - i,
    {
        let ghost before = res@;
        if i != 0 {
            res.append(sep);
        }
        res.append(parts[i].as_str());
        proof {
            assert(views.take(i + 1).drop_last() =~= views.take(i as int));
            assert(views.take(i + 1).last() == parts@[i as int]@);
            if i == 0 {
                assert(views.take(0) =~= Seq::<Seq<char>>::empty());
                assert(res@ =~= seq_join(views.take(1), sep@));
            }
        }
        i = i + 1;
    }
    assert(views.take(parts.len() as int) =~= views);
    res
}


/// Line splitting as `str::lines` performs it, with `cur` the characters of the
/// line read so far: a line ends at `'\n'`, a `'\r'` just before that `'\n'` is
/// dropped, and a final line without a terminator is kept as it stands.
pub open spec fn lines_from(s: Seq<char>, cur: Seq<char>) -> Seq<Seq<char>>
    decreases s.len(),
{
    if s.len() == 0 {
        if cur.len() == 0 { Seq::empty() } else { seq![cur] }
    } else if s[0] == '\n' {
        seq![strip_cr(cur)] + lines_from(s.drop_first(), Seq::empty())
    } else {
        lines_from(s.drop_first(), cur.push(s[0]))
    }
}

/// A line without the carriage return that preceded its newline.
pub open spec fn strip_cr(line: Seq<char>) -> Seq<char> {
    if line.len() > 0 && line.last() == '\r' { line.drop_last() } else { line }
}

/// The lines of `s` (`str::lines`).
pub open spec fn split_lines(s: Seq<char>) -> Seq<Seq<char>> {
    lines_from(s, Seq::empty())
}

/// Copies a sequence of characters into a fresh string.
pub(crate) fn string_of_chars(cs: &Vec<char>) -> (res: String)
    ensures
        res@ == cs@,
{
    let mut res = String::new();
    let mut i: usize = 0;
    while i < cs.len()
        invariant
            i <= cs.len(),
            res@ == cs@.take(i as int),
        decreases cs.len() - i,
    {
        string_push_char(&mut res, cs[i]);
        assert(cs@.take(i + 1) =~= cs@.take(i as int).push(cs@[i as int]));
        i = i + 1;
    }
    assert(cs@.take(cs.len() as int) =~= cs@);
    res
}

/// The lines of `s`, as `s.lines()` yields them.
pub fn str_lines(s: &str) -> (res: Vec<String>)
    ensures
        string_views(res@) == split_lines(s@),
{
    let n = s.unicode_len();
    let mut res: Vec<String> = Vec::new();
    let mut cur: Vec<char> = Vec::new();
    let mut i: usize = 0;
    assert(s@.skip(0) =~= s@);
    assert(string_views(res@) =~= Seq::<Seq<char>>::empty());
    while i < n
        invariant
            n == s@.len(),
            i <= n,
            split_lines(s@) == string_views(res@) + lines_from(s@.skip(i as int), cur@),
        decreases n - i,
    {
        let c = s.get_char(i);
        let ghost rest = s@.skip(i as int);
        assert(rest[0] == c);
        assert(rest.drop_first() =~= s@.skip(i + 1));
        let ghost cur0 = cur@;
        let ghost res0 = string_views(res@);
        if c == '\n' {
            if cur.len() > 0 && cur[cur.len() - 1] == '\r' {
                cur.pop();
            }
            let line = string_of_chars(&cur);
            assert(line@ == strip_cr(cur0));
            res.push(line);
            cur = Vec::new();
            assert(string_views(res@) =~= res0 + seq![strip_cr(cur0)]);
        } else {
            cur.push(c);
            assert(string_views(res@) =~= res0);
        }
        i = i + 1;
    }
    let ghost res0 = string_views(res@);
    if cur.len() > 0 {
        let line = string_of_chars(&cur);
        res.push(line);
        assert(string_views(res@) =~= res0 + seq![cur@]);
    }
    assert(s@.skip(n as int) =~= Seq::<char>::empty());
    res
}


/// Whether `s` is one of the strings of `v`.
pub fn contains_string(v: &Vec<String>, s: &str) -> (b: bool)
    ensures
        b == string_views(v@).contains(s@),
{
    let t = String::from_str(s);
    let mut i: usize = 0;
    while i < v.len()
        invariant
            i <= v.len(),
            t@ == s@,
            forall|j: int| 0 <= j < i ==> v@[j]@ != s@,
        decreases v.len() - i,
    {
        if v[i] == t {
            assert(string_views(v@)[i as int] == s@);
            return true;
        }
        i = i + 1;
    }
    assert(!string_views(v@).contains(s@)) by {
        if string_views(v@).contains(s@) {
            let j = choose|j: int| 0 <= j < string_views(v@).len() && string_views(v@)[j] == s@;
            assert(v@[j]@ == s@);
        }
    }
    false
}

} // verus!
verus! {

/// The characters of `s`, in order.
pub fn chars_of(s: &str) -> (res: Vec<char>)
    ensures
        res@ == s@,
{
    let mut res: Vec<char> = Vec::new();
    for c in it: s.chars()
        invariant
            res@ == it.seq().take(it.index() as int),
    {
        assert(it.seq().take(it.index() + 1) =~= it.seq().take(it.index() as int).push(c));
        res.push(c);
    }
    res
}

} // verus!
verus! {

/// Whether `c` has the Unicode White_Space property (`char::is_whitespace`).
pub open spec fn is_ws(c: char) -> bool {
    ||| ('\u{9}' <= c && c <= '\u{d}')
    ||| c == ' '
    ||| c == '\u{85}'
    ||| c == '\u{a0}'
    ||| c == '\u{1680}'
    ||| ('\u{2000}' <= c && c <= '\u{200a}')
    ||| c == '\u{2028}'
    ||| c == '\u{2029}'
    ||| c == '\u{202f}'
    ||| c == '\u{205f}'
    ||| c == '\u{3000}'
}

/// Whether `c` is white space (`char::is_whitespace`).
pub fn is_whitespace_char(c: char) -> (b: bool)
    ensures
        b == is_ws(c),
{
    ('\u{9}' <= c && c <= '\u{d}') || c == ' ' || c == '\u{85}' || c == '\u{a0}' || c == '\u{1680}'
        || ('\u{2000}' <= c && c <= '\u{200a}') || c == '\u{2028}' || c == '\u{2029}' || c == '\u{202f}'
        || c == '\u{205f}' || c == '\u{3000}'
}

/// `s` without its leading characters that satisfy `p`.
pub open spec fn strip_start(s: Seq<char>, p: spec_fn(char) -> bool) -> Seq<char>
    decreases s.len(),
{
    if s.len() > 0 && p(s[0]) { strip_start(s.drop_first(), p) } else { s }
}

/// `s` without its trailing characters that satisfy `p`.
pub open spec fn strip_end(s: Seq<char>, p: spec_fn(char) -> bool) -> Seq<char>
    decreases s.len(),
{
    if s.len() > 0 && p(s.last()) { strip_end(s.drop_last(), p) } else { s }
}

/// `s` without leading and trailing white space (`str::trim`).
pub open spec fn trim_ws(s: Seq<char>) -> Seq<char> {
    strip_end(strip_start(s, |c: char| is_ws(c)), |c: char| is_ws(c))
}

/// `s` without leading and trailing copies of `ch` (`str::trim_matches(ch)`).
pub open spec fn trim_char(s: Seq<char>, ch: char) -> Seq<char> {
    strip_end(strip_start(s, is_char(ch)), is_char(ch))
}

/// The predicate "is the character `ch`".
pub open spec fn is_char(ch: char) -> spec_fn(char) -> bool {
    |c: char| c == ch
}

/// The parts of `s` before and after its first `ch` (`str::split_once(ch)`).
pub open spec fn split_once(s: Seq<char>, ch: char) -> Option<(Seq<char>, Seq<char>)> {
    if exists|i: int| 0 <= i < s.len() && s[i] == ch {
        let i = choose|i: int| 0 <= i < s.len() && s[i] == ch && forall|j: int| 0 <= j < i ==> s[j] != ch;
        Some((s.take(i), s.skip(i + 1)))
    } else {
        None
    }
}

proof fn lemma_strip_start(s: Seq<char>, p: spec_fn(char) -> bool, i: int)
    requires
        0 <= i <= s.len(),
        forall|k: int| 0 <= k < i ==> p(s[k]),
        i == s.len() || !p(s[i]),
    ensures
        strip_start(s, p) == s.skip(i),
    decreases i,
{
    if i == 0 {
        assert(s.skip(0) =~= s);
    } else {
        lemma_strip_start(s.drop_first(), p, i - 1);
        assert(s.drop_first().skip(i - 1) =~= s.skip(i));
    }
}

proof fn lemma_strip_end(s: Seq<char>, p: spec_fn(char) -> bool, j: int)
    requires
        0 <= j <= s.len(),
        forall|k: int| j <= k < s.len() ==> p(s[k]),
        j == 0 || !p(s[j - 1]),
    ensures
        strip_end(s, p) == s.take(j),
    decreases s.len() - j,
{
    if j == s.len() {
        assert(s.take(j) =~= s);
    } else {
        lemma_strip_end(s.drop_last(), p, j);
        assert(s.drop_last().take(j) =~= s.take(j));
    }
}

/// The characters of `s[lo..hi]` as a string.
pub(crate) fn string_of_range(s: &Vec<char>, lo: usize, hi: usize) -> (res: String)
    requires
        lo <= hi <= s.len(),
    ensures
        res@ == s@.subrange(lo as int, hi as int),
{
    let mut res = String::new();
    let mut i = lo;
    while i < hi
        invariant
            lo <= i <= hi <= s.len(),
            res@ == s@.subrange(lo as int, i as int),
        decreases hi - i,
    {
        string_push_char(&mut res, s[i]);
        assert(s@.subrange(lo as int, i + 1) =~= s@.subrange(lo as int, i as int).push(s@[i as int]));
        i = i + 1;
    }
    res
}

/// `cs` without leading and trailing white space (`str::trim`).
pub fn trim_chars(cs: &Vec<char>) -> (res: String)
    ensures
        res@ == trim_ws(cs@),
{
    let n = cs.len();
    let mut i: usize = 0;
    while i < n && is_whitespace_char(cs[i])
        invariant
            i <= n == cs@.len(),
            forall|k: int| 0 <= k < i ==> is_ws(cs@[k]),
        decreases n - i,
    {
        i = i + 1;
    }
    let ghost p = |c: char| is_ws(c);
    proof { lemma_strip_start(cs@, p, i as int); }
    let ghost st = cs@.skip(i as int);
    let mut j: usize = n;
    while j > i && is_whitespace_char(cs[j - 1])
        invariant
            i <= j <= n == cs@.len(),
            forall|k: int| j <= k < n ==> is_ws(cs@[k]),
        decreases j,
    {
        j = j - 1;
    }
    proof {
        lemma_strip_end(st, p, j - i);
        assert(st.take(j - i) =~= cs@.subrange(i as int, j as int));
    }
    string_of_range(cs, i, j)
}

/// `cs` without leading and trailing copies of `ch` (`str::trim_matches(ch)`).
pub fn trim_char_chars(cs: &Vec<char>, ch: char) -> (res: String)
    ensures
        res@ == trim_char(cs@, ch),
{
    let n = cs.len();
    let mut i: usize = 0;
    while i < n && cs[i] == ch
        invariant
            i <= n == cs@.len(),
            forall|k: int| 0 <= k < i ==> cs@[k] == ch,
        decreases n - i,
    {
        i = i + 1;
    }
    let ghost p = is_char(ch);
    proof { lemma_strip_start(cs@, p, i as int); }
    let ghost st = cs@.skip(i as int);
    let mut j: usize = n;
    while j > i && cs[j - 1] == ch
        invariant
            i <= j <= n == cs@.len(),
            forall|k: int| j <= k < n ==> cs@[k] == ch,
        decreases j,
    {
        j = j - 1;
    }
    proof {
        lemma_strip_end(st, p, j - i);
        assert(st.take(j - i) =~= cs@.subrange(i as int, j as int));
    }
    string_of_range(cs, i, j)
}

/// The parts of `cs` before and after its first `ch`.
pub fn split_once_chars(cs: &Vec<char>, ch: char) -> (res: Option<(Vec<char>, Vec<char>)>)
    ensures
        match res {
            Some((a, b)) => split_once(cs@, ch) == Some((a@, b@)),
            None => split_once(cs@, ch) is None,
        },
{
    let n = cs.len();
    let mut i: usize = 0;
    while i < n && cs[i] != ch
        invariant
            i <= n == cs@.len(),
            forall|k: int| 0 <= k < i ==> cs@[k] != ch,
        decreases n - i,
    {
        i = i + 1;
    }
    if i == n {
        return None;
    }
    let ghost w = choose|w: int| 0 <= w < cs@.len() && cs@[w] == ch && forall|j: int| 0 <= j < w ==> cs@[j] != ch;
    assert(0 <= i < cs@.len() && cs@[i as int] == ch && forall|j: int| 0 <= j < i ==> cs@[j] != ch);
    assert(w == i) by {
        if w < i { assert(cs@[w] != ch); }
        if w > i { assert(cs@[i as int] != ch); }
    }
    let mut a: Vec<char> = Vec::new();
    let mut k: usize = 0;
    while k < i
        invariant
            k <= i < n == cs@.len(),
            a@ == cs@.take(k as int),
        decreases i - k,
    {
        a.push(cs[k]);
        assert(cs@.take(k + 1) =~= cs@.take(k as int).push(cs@[k as int]));
        k = k + 1;
    }
    let mut b: Vec<char> = Vec::new();
    let mut m: usize = i + 1;
    while m < n
        invariant
            i + 1 <= m <= n == cs@.len(),
            b@ == cs@.subrange(i + 1, m as int),
        decreases n - m,
    {
        b.push(cs[m]);
        assert(cs@.subrange(i + 1, m + 1) =~= cs@.subrange(i + 1, m as int).push(cs@[m as int]));
        m = m + 1;
    }
    assert(b@ =~= cs@.skip(i + 1));
    Some((a, b))
}

} // verus!
verus! {

/// Whether `c` is an ASCII decimal digit.
pub open spec fn is_digit(c: char) -> bool {
    '0' <= c && c <= '9'
}

/// The value of a sequence of decimal digits.
pub open spec fn digits_value(d: Seq<char>) -> nat
    decreases d.len(),
{
    if d.len() == 0 { 0 } else { digits_value(d.drop_last()) * 10 + ((d.last() as nat) - ('0' as nat)) as nat }
}

/// The digits of an unsigned number: an optional leading `+` is dropped; an
/// empty text, or a lone `+`, has none.
pub open spec fn unsigned_digits(s: Seq<char>) -> Option<Seq<char>> {
    if s.len() == 0 {
        None
    } else if s[0] == '+' {
        if s.len() == 1 { None } else { Some(s.drop_first()) }
    } else {
        Some(s)
    }
}

/// The unsigned integer `s` denotes when it is at most `max`, as `str::parse`
/// reads it for an unsigned type whose largest value is `max`.
pub open spec fn parse_unsigned(s: Seq<char>, max: nat) -> Option<nat> {
    match unsigned_digits(s) {
        Some(d) => if (forall|i: int| 0 <= i < d.len() ==> is_digit(#[trigger] d[i])) && digits_value(d) <= max {
            Some(digits_value(d))
        } else {
            None
        },
        None => None,
    }
}

proof fn lemma_digits_value_grows(d: Seq<char>, k: int)
    requires
        0 <= k <= d.len(),
        forall|i: int| 0 <= i < d.len() ==> is_digit(#[trigger] d[i]),
    ensures
        digits_value(d.take(k)) <= digits_value(d),
    decreases d.len() - k,
{
    if k < d.len() {
        lemma_digits_value_grows(d, k + 1);
        assert(d.take(k + 1).drop_last() =~= d.take(k));
        assert(is_digit(d[k]));
    } else {
        assert(d.take(k) =~= d);
    }
}

/// The unsigned integer of at most `max` that `s` denotes, if it denotes one.
pub fn parse_unsigned_str(s: &str, max: u64) -> (res: Option<u64>)
    ensures
        match res {
            Some(v) => parse_unsigned(s@, max as nat) == Some(v as nat),
            None => parse_unsigned(s@, max as nat) is None,
        },
{
    let cs = chars_of(s);
    let n = cs.len();
    if n == 0 {
        return None;
    }
    let start: usize = if cs[0] == '+' { 1 } else { 0 };
    if start == 1 && n == 1 {
        return None;
    }
    let ghost d = if cs@[0] == '+' { cs@.drop_first() } else { cs@ };
    assert(unsigned_digits(s@) == Some(d));
    assert(forall|i: int| 0 <= i < d.len() ==> d[i] == cs@[i + start]);
    let mut acc: u64 = 0;
    let mut k: usize = start;
    while k < n
        invariant
            start <= k <= n == cs@.len(),
            d.len() == n - start,
            unsigned_digits(s@) == Some(d),
            forall|i: int| 0 <= i < d.len() ==> d[i] == cs@[i + start],
            forall|i: int| 0 <= i < k - start ==> is_digit(#[trigger] d[i]),
            acc == digits_value(d.take(k - start)),
            acc <= max,
        decreases n - k,
    {
        let c = cs[k];
        assert(c == d[k - start]);
        assert(d.take(k - start + 1).drop_last() =~= d.take(k - start));
        if !('0' <= c && c <= '9') {
            assert(!is_digit(d[k - start]));
            return None;
        }
        let v = ((c as u32) - ('0' as u32)) as u64;
        if v > max || acc > (max - v) / 10 {
            proof {
                assert(digits_value(d.take(k - start + 1)) == acc * 10 + v);
                assert(acc * 10 + v > max) by (nonlinear_arith)
                    requires v > max || acc > (max - v) / 10, v <= 9;
                if forall|i: int| 0 <= i < d.len() ==> is_digit(#[trigger] d[i]) {
                    lemma_digits_value_grows(d, k - start + 1);
                }
            }
            return None;
        }
        assert(acc * 10 + v <= max) by (nonlinear_arith)
            requires acc <= (max - v) / 10, v <= max;
        acc = acc * 10 + v;
        k = k + 1;
    }
    assert(d.take(n - start) =~= d);
    Some(acc)
}

/// `s` read as a `u32`, or `default` when it is not one (`s.parse().unwrap_or(default)`).
pub fn parse_u32_or(s: &str, default: u32) -> (v: u32)
    ensures
        v == match parse_unsigned(s@, u32::MAX as nat) { Some(x) => x, None => default as nat },
{
    match parse_unsigned_str(s, u32::MAX as u64) {
        Some(x) => x as u32,
        None => default,
    }
}

/// `s` read as a `u64`, or `default` when it is not one.
pub fn parse_u64_or(s: &str, default: u64) -> (v: u64)
    ensures
        v == match parse_unsigned(s@, u64::MAX as nat) { Some(x) => x, None => default as nat },
{
    match parse_unsigned_str(s, u64::MAX) {
        Some(x) => x,
        None => default,
    }
}

/// `s` read as a `usize`, or `default` when it is not one.
pub fn parse_usize_or(s: &str, default: usize) -> (v: usize)
    ensures
        v == match parse_unsigned(s@, usize::MAX as nat) { Some(x) => x, None => default as nat },
{
    match parse_unsigned_str(s, usize::MAX as u64) {
        Some(x) => x as usize,
        None => default,
    }
}

/// The boolean `s` denotes: exactly `true` or `false` (`str::parse::<bool>`).
pub open spec fn parse_bool(s: Seq<char>) -> Option<bool> {
    if s == "true"@ { Some(true) } else if s == "false"@ { Some(false) } else { None }
}

/// `s` read as a boolean, or `default` when it is neither `true` nor `false`.
pub fn parse_bool_or(s: &str, default: bool) -> (v: bool)
    ensures
        v == match parse_bool(s@) { Some(b) => b, None => default },
{
    let t = String::from_str(s);
    let yes = String::from_str("true");
    let no = String::from_str("false");
    if t == yes { true } else if t == no { false } else { default }
}

} // verus!
verus! {

/// Whether `t` occurs in `s` as a contiguous run (`str::contains` with a
/// string pattern; the empty pattern occurs everywhere).
pub open spec fn has_substring(s: Seq<char>, t: Seq<char>) -> bool {
    exists|i: int| 0 <= i && i + t.len() <= s.len() && #[trigger] s.subrange(i, i + t.len()) == t
}

/// Whether `t` occurs in `s`.
pub fn contains_str(s: &str, t: &str) -> (b: bool)
    ensures
        b == has_substring(s@, t@),
{
    let sc = chars_of(s);
    let tc = chars_of(t);
    let n = sc.len();
    let m = tc.len();
    if m > n {
        proof {
            assert forall|i: int| 0 <= i && i + t@.len() <= s@.len() implies #[trigger] s@.subrange(i, i + t@.len()) != t@ by {}
        }
        return false;
    }
    let mut i: usize = 0;
    while i <= n - m
        invariant
            sc@ == s@,
            tc@ == t@,
            n == sc@.len(),
            m == tc@.len(),
            m <= n,
            i <= n - m + 1,
            forall|k: int| 0 <= k < i ==> #[trigger] s@.subrange(k, k + m) != t@,
        decreases n - m + 1 - i,
    {
        let mut j: usize = 0;
        while j < m && sc[i + j] == tc[j]
            invariant
                sc@ == s@,
                tc@ == t@,
                n == sc@.len(),
                m == tc@.len(),
                i + m <= n,
                j <= m,
                forall|k: int| 0 <= k < j ==> sc@[i + k] == tc@[k],
            decreases m - j,
        {
            j = j + 1;
        }
        if j == m {
            assert(s@.subrange(i as int, i + m) =~= t@);
            return true;
        }
        assert(s@.subrange(i as int, i + m)[j as int] != t@[j as int]);
        i = i + 1;
    }
    proof {
        assert forall|k: int| 0 <= k && k + t@.len() <= s@.len() implies #[trigger] s@.subrange(k, k + t@.len()) != t@ by {
            assert(k < i);
        }
    }
    false
}

} // verus!
verus! {

/// Whether `s` begins with `p`.
pub open spec fn has_prefix(s: Seq<char>, p: Seq<char>) -> bool {
    p.len() <= s.len() && s.subrange(0, p.len() as int) == p
}

/// Whether `s` ends with `p`.
pub open spec fn has_suffix(s: Seq<char>, p: Seq<char>) -> bool {
    p.len() <= s.len() && s.subrange(s.len() - p.len(), s.len() as int) == p
}

/// Whether the characters `cs` begin with `p`.
pub fn chars_start_with(cs: &Vec<char>, p: &str) -> (b: bool)
    ensures
        b == has_prefix(cs@, p@),
{
    let pc = chars_of(p);
    if pc.len() > cs.len() {
        return false;
    }
    let mut i: usize = 0;
    while i < pc.len()
        invariant
            pc@ == p@,
            pc@.len() <= cs@.len(),
            i <= pc@.len(),
            forall|k: int| 0 <= k < i ==> cs@[k] == pc@[k],
        decreases pc.len() - i,
    {
        if cs[i] != pc[i] {
            assert(cs@.subrange(0, p@.len() as int)[i as int] != p@[i as int]);
            return false;
        }
        i = i + 1;
    }
    assert(cs@.subrange(0, p@.len() as int) =~= p@);
    true
}

/// Whether `s` begins with `p` (`str::starts_with`).
pub fn starts_with_str(s: &str, p: &str) -> (b: bool)
    ensures
        b == has_prefix(s@, p@),
{
    let cs = chars_of(s);
    chars_start_with(&cs, p)
}

/// Whether `s` ends with `p` (`str::ends_with`).
pub fn ends_with_str(s: &str, p: &str) -> (b: bool)
    ensures
        b == has_suffix(s@, p@),
{
    let cs = chars_of(s);
    let pc = chars_of(p);
    if pc.len() > cs.len() {
        return false;
    }
    let off = cs.len() - pc.len();
    let mut i: usize = 0;
    while i < pc.len()
        invariant
            cs@ == s@,
            pc@ == p@,
            off + pc@.len() == cs@.len(),
            cs@.len() == cs.len(),
            i <= pc@.len(),
            forall|k: int| 0 <= k < i ==> cs@[off + k] == pc@[k],
        decreases pc.len() - i,
    {
        if cs[off + i] != pc[i] {
            assert(s@.subrange(off as int, s@.len() as int)[i as int] != p@[i as int]);
            return false;
        }
        i = i + 1;
    }
    assert(s@.subrange(off as int, s@.len() as int) =~= p@);
    true
}

} // verus!
verus! {

/// Whether `p` occurs in `s` starting at index `i`.
pub open spec fn occurs_at(s: Seq<char>, p: Seq<char>, i: int) -> bool {
    0 <= i && i + p.len() <= s.len() && s.subrange(i, i + p.len()) == p
}

/// The first index from `k` on at which `p` occurs in `s`.
pub open spec fn find_from(s: Seq<char>, p: Seq<char>, k: int) -> Option<int>
    decreases s.len() + 1 - k,
{
    if k < 0 || k + p.len() > s.len() {
        None
    } else if occurs_at(s, p, k) {
        Some(k)
    } else {
        find_from(s, p, k + 1)
    }
}

/// The pieces of `s` between the occurrences of the separator `p`, taken
/// from the left without overlap (`str::split` with a string pattern).
pub open spec fn split_str(s: Seq<char>, p: Seq<char>) -> Seq<Seq<char>>
    decreases s.len(),
{
    if p.len() == 0 {
        seq![s]
    } else {
        match find_from(s, p, 0) {
            Some(i) => if 0 <= i && i + p.len() <= s.len() {
                seq![s.subrange(0, i)] + split_str(s.subrange(i + p.len(), s.len() as int), p)
            } else {
                seq![s]
            },
            None => seq![s],
        }
    }
}

/// The characters `cs[lo..hi]`.
pub fn chars_range(cs: &Vec<char>, lo: usize, hi: usize) -> (res: Vec<char>)
    requires
        lo <= hi <= cs.len(),
    ensures
        res@ == cs@.subrange(lo as int, hi as int),
{
    let mut res: Vec<char> = Vec::new();
    let mut i = lo;
    while i < hi
        invariant
            lo <= i <= hi <= cs.len(),
            res@ == cs@.subrange(lo as int, i as int),
        decreases hi - i,
    {
        res.push(cs[i]);
        assert(cs@.subrange(lo as int, i + 1) =~= cs@.subrange(lo as int, i as int).push(cs@[i as int]));
        i = i + 1;
    }
    res
}

/// Whether `p` occurs in `cs` at index `k`.
fn occurs_at_chars(cs: &Vec<char>, p: &Vec<char>, k: usize) -> (b: bool)
    ensures
        b == occurs_at(cs@, p@, k as int),
{
    if p.len() > cs.len() || k > cs.len() - p.len() {
        return false;
    }
    let mut j: usize = 0;
    while j < p.len()
        invariant
            k + p@.len() <= cs@.len(),
            k + p.len() <= cs.len(),
            j <= p@.len(),
            forall|m: int| 0 <= m < j ==> cs@[k + m] == p@[m],
        decreases p.len() - j,
    {
        if cs[k + j] != p[j] {
            assert(cs@.subrange(k as int, k + p@.len())[j as int] != p@[j as int]);
            return false;
        }
        j = j + 1;
    }
    assert(cs@.subrange(k as int, k + p@.len()) =~= p@);
    true
}

/// The first index at which `p` occurs in `cs` (`str::find`).
pub fn find_chars(cs: &Vec<char>, p: &Vec<char>) -> (res: Option<usize>)
    ensures
        match res {
            Some(i) => find_from(cs@, p@, 0) == Some(i as int) && occurs_at(cs@, p@, i as int),
            None => find_from(cs@, p@, 0) is None,
        },
{
    if p.len() > cs.len() {
        return None;
    }
    if p.len() == 0 {
        assert(cs@.subrange(0, 0) =~= p@);
        return Some(0);
    }
    let last = cs.len() - p.len();
    let mut k: usize = 0;
    while k <= last
        invariant
            last + p@.len() == cs@.len(),
            last < cs.len(),
            find_from(cs@, p@, 0) == find_from(cs@, p@, k as int),
        decreases last + 1 - k,
    {
        if occurs_at_chars(cs, p, k) {
            return Some(k);
        }
        k = k + 1;
    }
    None
}

/// The pieces of `cs` between the occurrences of `p`.
pub fn split_str_chars(cs: &Vec<char>, p: &Vec<char>) -> (res: Vec<Vec<char>>)
    requires
        p.len() > 0,
    ensures
        res@.map_values(|w: Vec<char>| w@) == split_str(cs@, p@),
{
    let mut res: Vec<Vec<char>> = Vec::new();
    let mut rest = chars_range(cs, 0, cs.len());
    assert(cs@.subrange(0, cs@.len() as int) =~= cs@);
    assert(res@.map_values(|w: Vec<char>| w@) =~= Seq::<Seq<char>>::empty());
    loop
        invariant
            p@.len() > 0,
            res@.map_values(|w: Vec<char>| w@) + split_str(rest@, p@) == split_str(cs@, p@),
        decreases rest.len(),
    {
        let ghost before = res@.map_values(|w: Vec<char>| w@);
        match find_chars(&rest, p) {
            None => {
                let ghost r = rest@;
                res.push(rest);
                assert(res@.map_values(|w: Vec<char>| w@) =~= before.push(r));
                assert(split_str(r, p@) == seq![r]);
                assert(before + seq![r] =~= before.push(r));
                return res;
            },
            Some(i) => {
                let piece = chars_range(&rest, 0, i);
                let next = chars_range(&rest, i + p.len(), rest.len());
                let ghost r = rest@;
                assert(split_str(r, p@) == seq![piece@] + split_str(next@, p@));
                res.push(piece);
                assert(res@.map_values(|w: Vec<char>| w@) =~= before.push(piece@));
                assert(before + (seq![piece@] + split_str(next@, p@)) =~= before.push(piece@) + split_str(next@, p@));
                rest = next;
            },
        }
    }
}

} // verus!
