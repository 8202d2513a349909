//! Small text utilities for parsing spooler tool output: tokenizing on
//! ASCII whitespace, substring search, trimming, and decimal rendering.

use vstd::prelude::*;

verus! {

/// An ASCII blank: space, tab, line feed or carriage return.
/// Tokenization here splits on these, so a whole multi-line capture can
/// be tokenized as the original whitespace splitting did.
pub open spec fn is_blank(c: char) -> bool {
    c == ' ' || c == '\t' || c == '\n' || c == '\r'
}

/// The first position at or after `i` holding a non-blank, or the end.
pub open spec fn skip_blanks_spec(s: Seq<char>, i: int) -> int
    recommends
        0 <= i <= s.len(),
    decreases s.len() - i when 0 <= i <= s.len()
{
    if i < 0 || i >= s.len() {
        s.len() as int
    } else if is_blank(s[i]) {
        skip_blanks_spec(s, i + 1)
    } else {
        i
    }
}

/// The first position at or after `i` holding a blank, or the end.
pub open spec fn token_end_spec(s: Seq<char>, i: int) -> int
    recommends
        0 <= i <= s.len(),
    decreases s.len() - i when 0 <= i <= s.len()
{
    if i < 0 || i >= s.len() {
        s.len() as int
    } else if is_blank(s[i]) {
        i
    } else {
        token_end_spec(s, i + 1)
    }
}

/// The first position at or after `i` holding `c`, or the end.
pub open spec fn find_char_spec(s: Seq<char>, c: char, i: int) -> int
    recommends
        0 <= i <= s.len(),
    decreases s.len() - i when 0 <= i <= s.len()
{
    if i < 0 || i >= s.len() {
        s.len() as int
    } else if s[i] == c {
        i
    } else {
        find_char_spec(s, c, i + 1)
    }
}

/// The position after the last occurrence of `c` strictly before `j`, or
/// zero when none occurs there.
pub open spec fn after_last_char_spec(s: Seq<char>, c: char, j: int) -> int
    recommends
        0 <= j <= s.len(),
    decreases j when 0 <= j
{
    if j <= 0 {
        0
    } else if s[j - 1] == c {
        j
    } else {
        after_last_char_spec(s, c, j - 1)
    }
}

/// Whether `s` starts with `p`.
pub open spec fn starts_with_spec(s: Seq<char>, p: Seq<char>) -> bool {
    p.len() <= s.len() && s.subrange(0, p.len() as int) == p
}

/// The first position at or after `i` where `sub` occurs in `s`, or -1
/// when it occurs nowhere there.
pub open spec fn find_sub_spec(s: Seq<char>, sub: Seq<char>, i: int) -> int
    recommends
        0 <= i,
    decreases s.len() - i when i <= s.len()
{
    if i < 0 || i + sub.len() > s.len() {
        -1
    } else if sub.len() == 0 {
        i
    } else if s.subrange(i, i + sub.len() as int) == sub {
        i
    } else {
        find_sub_spec(s, sub, i + 1)
    }
}

/// Whether `sub` occurs anywhere in `s`.
pub open spec fn contains_spec(s: Seq<char>, sub: Seq<char>) -> bool {
    find_sub_spec(s, sub, 0) >= 0
}

/// `s` with leading and trailing blanks removed.
pub open spec fn trim_spec(s: Seq<char>) -> Seq<char> {
    let start = skip_blanks_spec(s, 0);
    let end = rtrim_end_spec(s, s.len() as int);
    if start <= end {
        s.subrange(start, end)
    } else {
        Seq::empty()
    }
}

/// The end of `s` with trailing blanks stripped: the least `e` such that
/// everything from `e` to `j` is blank.
pub open spec fn rtrim_end_spec(s: Seq<char>, j: int) -> int
    recommends
        0 <= j <= s.len(),
    decreases j when 0 <= j
{
    if j <= 0 {
        0
    } else if is_blank(s[j - 1]) {
        rtrim_end_spec(s, j - 1)
    } else {
        j
    }
}

/// The decimal digits of `n`, most significant first.
pub open spec fn dec_spec(n: int) -> Seq<char>
    recommends
        0 <= n,
    decreases n when 0 <= n
{
    let d = digit_char(n % 10);
    if n < 10 {
        seq![d]
    } else {
        dec_spec(n / 10) + seq![d]
    }
}

/// The character for one decimal digit.
pub open spec fn digit_char(d: int) -> char {
    "0123456789"@[d]
}

/// `skip_blanks_spec` stays between its start and the end, and lands on
/// a non-blank unless it reaches the end.
pub proof fn lemma_skip_blanks_bounds(s: Seq<char>, i: int)
    requires
        0 <= i <= s.len(),
    ensures
        i <= skip_blanks_spec(s, i) <= s.len(),
        skip_blanks_spec(s, i) < s.len() ==> !is_blank(s[skip_blanks_spec(s, i)]),
    decreases s.len() - i,
{
    if i < s.len() && is_blank(s[i]) {
        lemma_skip_blanks_bounds(s, i + 1);
    }
}

/// `token_end_spec` stays between its start and the end, and moves past
/// at least one character when it starts on a non-blank.
pub proof fn lemma_token_end_bounds(s: Seq<char>, i: int)
    requires
        0 <= i <= s.len(),
    ensures
        i <= token_end_spec(s, i) <= s.len(),
        i < s.len() && !is_blank(s[i]) ==> token_end_spec(s, i) > i,
    decreases s.len() - i,
{
    if i < s.len() && !is_blank(s[i]) {
        lemma_token_end_bounds(s, i + 1);
    }
}

/// The first position at or after `i` and before `end` holding something
/// other than an asterisk, or `end`.
pub open spec fn first_non_star_spec(s: Seq<char>, i: int, end: int) -> int
    recommends
        0 <= i <= end <= s.len(),
    decreases end - i when 0 <= i <= end
{
    if i >= end {
        end
    } else if s[i] == '*' {
        first_non_star_spec(s, i + 1, end)
    } else {
        i
    }
}

/// The first position at or after `from` and before `to` holding
/// something other than an asterisk, or `to`.
pub fn first_non_star(s: &str, from: usize, to: usize) -> (r: usize)
    requires
        from <= to <= s@.len(),
    ensures
        r == first_non_star_spec(s@, from as int, to as int),
        from <= r <= to,
{
    let mut i: usize = from;
    while i < to
        invariant
            from <= i <= to,
            to <= s@.len(),
            first_non_star_spec(s@, from as int, to as int) == first_non_star_spec(
                s@,
                i as int,
                to as int,
            ),
        decreases to - i,
    {
        if s.get_char(i) != '*' {
            return i;
        }
        i = i + 1;
    }
    to
}

/// Whether two string slices hold the same characters.
pub fn str_eq(a: &str, b: &str) -> (r: bool)
    ensures
        r == (a@ == b@),
{
    let na: usize = a.unicode_len();
    let nb: usize = b.unicode_len();
    if na != nb {
        proof {
            assert(a@ != b@);
        }
        return false;
    }
    let mut i: usize = 0;
    while i < na
        invariant
            0 <= i <= na,
            na == a@.len(),
            na == b@.len(),
            forall|j: int| 0 <= j < i ==> a@[j] == b@[j],
        decreases na - i,
    {
        if a.get_char(i) != b.get_char(i) {
            return false;
        }
        i = i + 1;
    }
    proof {
        assert(a@ =~= b@);
    }
    true
}

/// Whether `s` starts with `p`.
pub fn str_starts_with(s: &str, p: &str) -> (r: bool)
    ensures
        r == starts_with_spec(s@, p@),
{
    let ns: usize = s.unicode_len();
    let np: usize = p.unicode_len();
    if np > ns {
        return false;
    }
    let mut i: usize = 0;
    while i < np
        invariant
            0 <= i <= np,
            np == p@.len(),
            np <= s@.len(),
            ns == s@.len(),
            forall|j: int| 0 <= j < i ==> s@[j] == p@[j],
        decreases np - i,
    {
        if s.get_char(i) != p.get_char(i) {
            proof {
                assert(s@.subrange(0, np as int)[i as int] != p@[i as int]);
            }
            return false;
        }
        i = i + 1;
    }
    proof {
        assert(s@.subrange(0, np as int) =~= p@);
    }
    true
}

/// The first position at or after `from` holding a non-blank, or the end.
pub fn skip_blanks(s: &str, from: usize) -> (r: usize)
    requires
        from <= s@.len(),
    ensures
        r == skip_blanks_spec(s@, from as int),
        from <= r <= s@.len(),
{
    let n: usize = s.unicode_len();
    let mut i: usize = from;
    while i < n
        invariant
            from <= i <= n,
            n == s@.len(),
            skip_blanks_spec(s@, from as int) == skip_blanks_spec(s@, i as int),
        decreases n - i,
    {
        let c = s.get_char(i);
        if !(c == ' ' || c == '\t' || c == '\n' || c == '\r') {
            return i;
        }
        i = i + 1;
    }
    n
}

/// The first position at or after `from` holding a blank, or the end.
pub fn token_end(s: &str, from: usize) -> (r: usize)
    requires
        from <= s@.len(),
    ensures
        r == token_end_spec(s@, from as int),
        from <= r <= s@.len(),
{
    let n: usize = s.unicode_len();
    let mut i: usize = from;
    while i < n
        invariant
            from <= i <= n,
            n == s@.len(),
            token_end_spec(s@, from as int) == token_end_spec(s@, i as int),
        decreases n - i,
    {
        let c = s.get_char(i);
        if c == ' ' || c == '\t' || c == '\n' || c == '\r' {
            return i;
        }
        i = i + 1;
    }
    n
}

/// The first position at or after `from` holding `c`, or the end.
pub fn find_char(s: &str, c: char, from: usize) -> (r: usize)
    requires
        from <= s@.len(),
    ensures
        r == find_char_spec(s@, c, from as int),
        from <= r <= s@.len(),
{
    let n: usize = s.unicode_len();
    let mut i: usize = from;
    while i < n
        invariant
            from <= i <= n,
            n == s@.len(),
            find_char_spec(s@, c, from as int) == find_char_spec(s@, c, i as int),
        decreases n - i,
    {
        if s.get_char(i) == c {
            return i;
        }
        i = i + 1;
    }
    n
}

/// The position after the last occurrence of `c` in `s`, or zero.
pub fn after_last_char(s: &str, c: char) -> (r: usize)
    ensures
        r == after_last_char_spec(s@, c, s@.len() as int),
        r <= s@.len(),
{
    let n: usize = s.unicode_len();
    let mut j: usize = n;
    while j > 0
        invariant
            0 <= j <= n,
            n == s@.len(),
            after_last_char_spec(s@, c, n as int) == after_last_char_spec(s@, c, j as int),
        decreases j,
    {
        if s.get_char(j - 1) == c {
            return j;
        }
        j = j - 1;
    }
    0
}

/// Whether the characters of `s` from `i` on match `sub` exactly.
fn matches_at(s: &str, sub: &str, i: usize) -> (r: bool)
    requires
        i + sub@.len() <= s@.len(),
        s@.len() <= usize::MAX,
    ensures
        r == (s@.subrange(i as int, i + sub@.len()) == sub@),
{
    let m: usize = sub.unicode_len();
    let mut k: usize = 0;
    let mut pos: usize = i;
    while k < m
        invariant
            0 <= k <= m,
            m == sub@.len(),
            i + m <= s@.len(),
            s@.len() <= usize::MAX,
            pos == i + k,
            forall|j: int| 0 <= j < k ==> s@[i + j] == sub@[j],
        decreases m - k,
    {
        if s.get_char(pos) != sub.get_char(k) {
            proof {
                assert(s@.subrange(i as int, i + sub@.len())[k as int] != sub@[k as int]);
            }
            return false;
        }
        k = k + 1;
        pos = pos + 1;
    }
    proof {
        assert(s@.subrange(i as int, i + sub@.len()) =~= sub@);
    }
    true
}

/// The first position where `sub` occurs in `s`, or `None`.
pub fn find_sub(s: &str, sub: &str) -> (r: Option<usize>)
    ensures
        match r {
            Option::Some(i) => i == find_sub_spec(s@, sub@, 0) && 0 <= i && i + sub@.len()
                <= s@.len(),
            Option::None => find_sub_spec(s@, sub@, 0) == -1,
        },
{
    let n: usize = s.unicode_len();
    let m: usize = sub.unicode_len();
    if m > n {
        return Option::None;
    }
    if m == 0 {
        return Option::Some(0);
    }
    let limit: usize = n - m;
    let mut i: usize = 0;
    while i <= limit
        invariant
            0 <= i <= limit + 1,
            limit == n - m,
            0 < m <= n,
            n == s@.len(),
            m == sub@.len(),
            find_sub_spec(s@, sub@, 0) == find_sub_spec(s@, sub@, i as int),
        decreases limit + 1 - i,
    {
        if matches_at(s, sub, i) {
            return Option::Some(i);
        }
        i = i + 1;
    }
    Option::None
}

/// Whether `sub` occurs anywhere in `s`.
pub fn str_contains(s: &str, sub: &str) -> (r: bool)
    ensures
        r == contains_spec(s@, sub@),
{
    match find_sub(s, sub) {
        Option::Some(_) => true,
        Option::None => false,
    }
}

/// A copy of `s` between the given character positions.
pub fn substring_copy(s: &str, from: usize, to: usize) -> (r: String)
    requires
        from <= to <= s@.len(),
    ensures
        r@ == s@.subrange(from as int, to as int),
{
    s.substring_char(from, to).to_owned()
}

/// The end of `s` with trailing blanks stripped.
fn rtrim_end(s: &str) -> (r: usize)
    ensures
        r == rtrim_end_spec(s@, s@.len() as int),
        r <= s@.len(),
{
    let n: usize = s.unicode_len();
    let mut end: usize = n;
    while end > 0
        invariant
            0 <= end <= n,
            n == s@.len(),
            rtrim_end_spec(s@, n as int) == rtrim_end_spec(s@, end as int),
        decreases end,
    {
        let c = s.get_char(end - 1);
        if !(c == ' ' || c == '\t' || c == '\n' || c == '\r') {
            return end;
        }
        end = end - 1;
    }
    0
}

/// A copy of `s` with leading and trailing blanks removed.
pub fn trim_copy(s: &str) -> (r: String)
    ensures
        r@ == trim_spec(s@),
{
    let start = skip_blanks(s, 0);
    let end = rtrim_end(s);
    if start <= end {
        substring_copy(s, start, end)
    } else {
        let r = String::new();
        proof {
            assert(r@ =~= trim_spec(s@));
        }
        r
    }
}

/// Render a nonnegative number in decimal.
pub fn u32_to_string(n: u32) -> (r: String)
    ensures
        r@ == dec_spec(n as int),
    decreases n,
{
    let digits = "0123456789";
    proof {
        reveal_strlit("0123456789");
    }
    let d: usize = (n % 10) as usize;
    let ds: &str = digits.substring_char(d, d + 1);
    if n < 10 {
        let r = ds.to_owned();
        proof {
            assert(r@ =~= dec_spec(n as int));
        }
        r
    } else {
        let mut s = u32_to_string(n / 10);
        s.append(ds);
        proof {
            assert(s@ =~= dec_spec(n as int));
        }
        s
    }
}

} // verus!
