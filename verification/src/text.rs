//! Character-level text primitives: whitespace trimming, substring search,
//! counting, UTF-8 widths and decimal rendering, each stated over `Seq<char>`.
use vstd::prelude::*;

verus! {

// ---------------------------------------------------------------------------
// Specifications
// ---------------------------------------------------------------------------

/// The Unicode `White_Space` characters: the set `char::is_whitespace` accepts,
/// and so the set that `str::trim` and `str::split_whitespace` split on.
pub open spec fn is_space(c: char) -> bool {
    let u = c as u32;
    ||| 0x09 <= u <= 0x0D
    ||| u == 0x20
    ||| u == 0x85
    ||| u == 0xA0
    ||| u == 0x1680
    ||| 0x2000 <= u <= 0x200A
    ||| u == 0x2028
    ||| u == 0x2029
    ||| u == 0x202F
    ||| u == 0x205F
    ||| u == 0x3000
}

/// The first index at or after `i` that does not hold whitespace (or the length).
pub open spec fn lead_end(s: Seq<char>, i: int) -> int
    decreases s.len() - i,
{
    if 0 <= i < s.len() && is_space(s[i]) {
        lead_end(s, i + 1)
    } else {
        i
    }
}

/// Walking down from `j`, the end of `s[lo..j]` once trailing whitespace is gone.
pub open spec fn trail_start(s: Seq<char>, lo: int, j: int) -> int
    decreases j - lo,
{
    if lo < j <= s.len() && is_space(s[j - 1]) {
        trail_start(s, lo, j - 1)
    } else {
        j
    }
}

/// `str::trim_start`: `s` without its leading whitespace.
pub open spec fn trim_start(s: Seq<char>) -> Seq<char> {
    s.subrange(lead_end(s, 0), s.len() as int)
}

/// `str::trim`: `s` without its leading and trailing whitespace.
pub open spec fn trim(s: Seq<char>) -> Seq<char> {
    let a = lead_end(s, 0);
    s.subrange(a, trail_start(s, a, s.len() as int))
}

/// `p` occurs in `s` starting at index `i`.
pub open spec fn matches_at(s: Seq<char>, p: Seq<char>, i: int) -> bool {
    0 <= i && i + p.len() <= s.len() && s.subrange(i, i + p.len()) == p
}

/// `str::contains` with a string pattern.
pub open spec fn contains(s: Seq<char>, p: Seq<char>) -> bool {
    exists|i: int| matches_at(s, p, i)
}

/// A character that can stand in a name: an ASCII letter or digit, or `_`.
pub open spec fn is_name_char(c: char) -> bool {
    ('a' <= c && c <= 'z') || ('A' <= c && c <= 'Z') || ('0' <= c && c <= '9') || c == '_'
}

/// `p` occurs in `s` at index `i` and does not continue a name that starts
/// earlier: with `p` a function's name and its `(`, a call of that function,
/// and not of a longer name that ends in it.
pub open spec fn call_at(s: Seq<char>, p: Seq<char>, i: int) -> bool {
    matches_at(s, p, i) && (i == 0 || !is_name_char(s[i - 1]))
}

/// `s` holds a call of the function that `p` names (see `call_at`).
#[verifier::opaque]
pub open spec fn calls(s: Seq<char>, p: Seq<char>) -> bool {
    exists|i: int| call_at(s, p, i)
}

/// `str::starts_with` with a string pattern.
pub open spec fn starts_with(s: Seq<char>, p: Seq<char>) -> bool {
    matches_at(s, p, 0)
}

/// The first occurrence of `p` in `s` at or after index `i`.
pub open spec fn find_from(s: Seq<char>, p: Seq<char>, i: int) -> Option<int>
    decreases s.len() + 1 - i,
{
    if i < 0 || i + p.len() > s.len() {
        None
    } else if matches_at(s, p, i) {
        Some(i)
    } else {
        find_from(s, p, i + 1)
    }
}

/// `str::find` (in characters rather than bytes): the first occurrence of `p`.
pub open spec fn find(s: Seq<char>, p: Seq<char>) -> Option<int> {
    find_from(s, p, 0)
}

/// How many times the character `c` occurs in `s`.
pub open spec fn count_char(s: Seq<char>, c: char) -> nat
    decreases s.len(),
{
    if s.len() == 0 {
        0
    } else {
        count_char(s.drop_last(), c) + (if s.last() == c { 1nat } else { 0nat })
    }
}

/// Number of leading `' '` characters (`chars().take_while(|c| *c == ' ').count()`).
pub open spec fn leading_blanks(s: Seq<char>) -> nat
    decreases s.len(),
{
    if s.len() > 0 && s[0] == ' ' {
        1 + leading_blanks(s.drop_first())
    } else {
        0
    }
}

/// Width of a character in UTF-8.
pub open spec fn utf8_width(c: char) -> nat {
    let u = c as u32;
    if u < 0x80 {
        1
    } else if u < 0x800 {
        2
    } else if u < 0x10000 {
        3
    } else {
        4
    }
}

/// Width of a character sequence in UTF-8 (`str::len` of its text).
pub open spec fn utf8_len(s: Seq<char>) -> nat
    decreases s.len(),
{
    if s.len() == 0 {
        0
    } else {
        utf8_len(s.drop_last()) + utf8_width(s.last())
    }
}

/// `char::to_ascii_lowercase`.
pub open spec fn ascii_lower_char(c: char) -> char {
    if 'A' <= c <= 'Z' {
        ((c as u32) + 32) as char
    } else {
        c
    }
}

/// `str::to_ascii_lowercase`.
pub open spec fn ascii_lower(s: Seq<char>) -> Seq<char> {
    s.map_values(|c: char| ascii_lower_char(c))
}

/// The decimal digit for `d < 10`.
pub open spec fn digit(d: nat) -> char {
    ((d + 48) as u32) as char
}

/// Decimal rendering of a natural number, as `to_string` gives it.
pub open spec fn decimal(n: nat) -> Seq<char>
    decreases n,
{
    if n < 10 {
        seq![digit(n)]
    } else {
        decimal(n / 10).push(digit(n % 10))
    }
}

/// The text after the last whitespace character of `s` (all of `s` if none).
pub open spec fn last_word_start(s: Seq<char>, j: int) -> int
    decreases j,
{
    if 0 < j <= s.len() && !is_space(s[j - 1]) {
        last_word_start(s, j - 1)
    } else {
        j
    }
}

/// `split_whitespace().last()` on an already trimmed text.
pub open spec fn last_word(s: Seq<char>) -> Option<Seq<char>> {
    if s.len() == 0 {
        None
    } else {
        Some(s.subrange(last_word_start(s, s.len() as int), s.len() as int))
    }
}

/// The index of the first `'\n'` at or after `i` (the length if none).
pub open spec fn next_newline(s: Seq<char>, i: int) -> int
    decreases s.len() - i,
{
    if i < 0 || i >= s.len() {
        s.len() as int
    } else if s[i] == '\n' {
        i
    } else {
        next_newline(s, i + 1)
    }
}

/// A line without the `'\r'` of a `"\r\n"` ending.
pub open spec fn strip_cr(s: Seq<char>) -> Seq<char> {
    if s.len() > 0 && s.last() == '\r' {
        s.drop_last()
    } else {
        s
    }
}

/// `str::lines`: the lines of a text, split at `"\n"` or `"\r\n"`; the final
/// line ending is optional, and an empty text has no lines.
pub open spec fn split_lines_spec(s: Seq<char>) -> Seq<Seq<char>>
    decreases s.len(),
{
    if s.len() == 0 {
        Seq::empty()
    } else {
        let k = next_newline(s, 0);
        if k >= s.len() {
            seq![s]
        } else {
            proof {
                lemma_next_newline_bounds(s, 0);
            }
            seq![strip_cr(s.take(k))] + split_lines_spec(s.skip(k + 1))
        }
    }
}

// ---------------------------------------------------------------------------
// Lemmas
// ---------------------------------------------------------------------------

pub proof fn lemma_lead_end_bounds(s: Seq<char>, i: int)
    requires
        0 <= i <= s.len(),
    ensures
        i <= lead_end(s, i) <= s.len(),
    decreases s.len() - i,
{
    if i < s.len() && is_space(s[i]) {
        lemma_lead_end_bounds(s, i + 1);
    }
}

pub proof fn lemma_trail_start_bounds(s: Seq<char>, lo: int, j: int)
    requires
        0 <= lo <= j <= s.len(),
    ensures
        lo <= trail_start(s, lo, j) <= j,
    decreases j - lo,
{
    if lo < j && is_space(s[j - 1]) {
        lemma_trail_start_bounds(s, lo, j - 1);
    }
}

pub proof fn lemma_trim_bounds(s: Seq<char>)
    ensures
        0 <= lead_end(s, 0) <= trail_start(s, lead_end(s, 0), s.len() as int) <= s.len(),
        trim(s).len() <= s.len(),
        trim_start(s).len() <= s.len(),
{
    lemma_lead_end_bounds(s, 0);
    lemma_trail_start_bounds(s, lead_end(s, 0), s.len() as int);
}

/// `find_from` answers exactly with the first occurrence at or after `i`.
pub proof fn lemma_find_from(s: Seq<char>, p: Seq<char>, i: int)
    requires
        0 <= i,
    ensures
        find_from(s, p, i) matches Some(k) ==> i <= k && matches_at(s, p, k) && forall|j: int|
            i <= j < k ==> !matches_at(s, p, j),
        find_from(s, p, i) is None ==> forall|j: int| i <= j ==> !matches_at(s, p, j),
    decreases s.len() + 1 - i,
{
    if i + p.len() > s.len() {
    } else if matches_at(s, p, i) {
    } else {
        lemma_find_from(s, p, i + 1);
        assert forall|j: int| i <= j && find_from(s, p, i) is None implies !matches_at(s, p, j) by {
            if j > i {
            }
        }
    }
}

/// `find` succeeds exactly when the pattern occurs.
pub proof fn lemma_find_contains(s: Seq<char>, p: Seq<char>)
    ensures
        find(s, p) is Some <==> contains(s, p),
        find(s, p) matches Some(k) ==> matches_at(s, p, k) && 0 <= k && k + p.len() <= s.len(),
{
    lemma_find_from(s, p, 0);
    if find(s, p) is None {
        assert forall|j: int| !matches_at(s, p, j) by {
            if j >= 0 {
            }
        }
    }
}

pub proof fn lemma_count_char_le(s: Seq<char>, c: char)
    ensures
        count_char(s, c) <= s.len(),
    decreases s.len(),
{
    if s.len() > 0 {
        lemma_count_char_le(s.drop_last(), c);
    }
}

pub proof fn lemma_utf8_len_ge(s: Seq<char>)
    ensures
        s.len() <= utf8_len(s),
    decreases s.len(),
{
    if s.len() > 0 {
        lemma_utf8_len_ge(s.drop_last());
    }
}

pub proof fn lemma_utf8_len_prefix(s: Seq<char>, i: int)
    requires
        0 <= i <= s.len(),
    ensures
        utf8_len(s.take(i)) <= utf8_len(s),
    decreases s.len() - i,
{
    if i < s.len() {
        lemma_utf8_len_prefix(s, i + 1);
        assert(s.take(i + 1).drop_last() == s.take(i));
    } else {
        assert(s.take(i) == s);
    }
}

pub proof fn lemma_next_newline_bounds(s: Seq<char>, i: int)
    requires
        0 <= i <= s.len(),
    ensures
        i <= next_newline(s, i) <= s.len(),
        next_newline(s, i) < s.len() ==> s[next_newline(s, i)] == '\n',
    decreases s.len() - i,
{
    if i < s.len() && s[i] != '\n' {
        lemma_next_newline_bounds(s, i + 1);
    }
}

/// Searching a suffix finds the same newline, shifted.
pub proof fn lemma_next_newline_skip(s: Seq<char>, a: int, j: int)
    requires
        0 <= a <= j <= s.len(),
    ensures
        next_newline(s.skip(a), j - a) == next_newline(s, j) - a,
    decreases s.len() - j,
{
    if j < s.len() && s[j] != '\n' {
        lemma_next_newline_skip(s, a, j + 1);
    }
}

/// UTF-8 size is additive over concatenation.
pub proof fn lemma_utf8_len_add(a: Seq<char>, b: Seq<char>)
    ensures
        utf8_len(a + b) == utf8_len(a) + utf8_len(b),
    decreases b.len(),
{
    if b.len() > 0 {
        lemma_utf8_len_add(a, b.drop_last());
        assert((a + b).drop_last() == a + b.drop_last());
    } else {
        assert(a + b == a);
    }
}

// ---------------------------------------------------------------------------
// Building a `String`
// ---------------------------------------------------------------------------

/// `String::push`: appends one character.
#[verifier::external_body]
pub fn string_push(s: &mut String, c: char)
    ensures
        final(s)@ == old(s)@.push(c),
{
    s.push(c);
}

/// The text made of the given characters, in order.
pub fn string_from_chars(v: &[char]) -> (s: String)
    ensures
        s@ == v@,
{
    let mut s = String::new();
    let mut i: usize = 0;
    while i < v.len()
        invariant
            0 <= i <= v.len(),
            s@ == v@.take(i as int),
        decreases v.len() - i,
    {
        string_push(&mut s, v[i]);
        i += 1;
        assert(s@ =~= v@.take(i as int));
    }
    assert(v@.take(v.len() as int) =~= v@);
    s
}

// ---------------------------------------------------------------------------
// Executable primitives
// ---------------------------------------------------------------------------

/// The characters of a text, in order.
pub fn chars_of(s: &str) -> (r: Vec<char>)
    ensures
        r@ == s@,
{
    let mut v: Vec<char> = Vec::new();
    for c in it: s.chars()
        invariant
            v@ == it.seq().take(it.index() as int),
    {
        v.push(c);
    }
    v
}

/// `char::is_whitespace`.
pub fn is_space_char(c: char) -> (r: bool)
    ensures
        r == is_space(c),
{
    let u = c as u32;
    (0x09 <= u && u <= 0x0D) || u == 0x20 || u == 0x85 || u == 0xA0 || u == 0x1680 || (0x2000
        <= u && u <= 0x200A) || u == 0x2028 || u == 0x2029 || u == 0x202F || u == 0x205F || u
        == 0x3000
}

/// Copy of `s[a..b]`.
pub fn copy_range(s: &[char], a: usize, b: usize) -> (r: Vec<char>)
    requires
        a <= b <= s.len(),
    ensures
        r@ == s@.subrange(a as int, b as int),
{
    let mut v: Vec<char> = Vec::new();
    let mut i = a;
    while i < b
        invariant
            a <= i <= b <= s.len(),
            v@ == s@.subrange(a as int, i as int),
        decreases b - i,
    {
        v.push(s[i]);
        i += 1;
    }
    v
}

/// Bounds of `trim(s)` within `s`.
pub fn trim_bounds(s: &[char]) -> (r: (usize, usize))
    ensures
        r.0 == lead_end(s@, 0),
        r.1 == trail_start(s@, r.0 as int, s@.len() as int),
        r.0 <= r.1 <= s.len(),
        trim(s@) == s@.subrange(r.0 as int, r.1 as int),
{
    let mut i: usize = 0;
    while i < s.len() && is_space_char(s[i])
        invariant
            0 <= i <= s.len(),
            lead_end(s@, i as int) == lead_end(s@, 0),
        decreases s.len() - i,
    {
        i += 1;
    }
    let mut j: usize = s.len();
    while j > i && is_space_char(s[j - 1])
        invariant
            i <= j <= s.len(),
            trail_start(s@, i as int, j as int) == trail_start(s@, i as int, s@.len() as int),
        decreases j,
    {
        j -= 1;
    }
    (i, j)
}

/// `str::trim` on characters.
pub fn trim_chars(s: &[char]) -> (r: Vec<char>)
    ensures
        r@ == trim(s@),
{
    let (a, b) = trim_bounds(s);
    copy_range(s, a, b)
}

/// `str::trim_start` on characters.
pub fn trim_start_chars(s: &[char]) -> (r: Vec<char>)
    ensures
        r@ == trim_start(s@),
{
    let mut i: usize = 0;
    while i < s.len() && is_space_char(s[i])
        invariant
            0 <= i <= s.len(),
            lead_end(s@, i as int) == lead_end(s@, 0),
        decreases s.len() - i,
    {
        i += 1;
    }
    copy_range(s, i, s.len())
}

/// Whether `p` occurs in `s` at index `i`.
pub fn matches_at_exec(s: &[char], p: &[char], i: usize) -> (r: bool)
    ensures
        r == matches_at(s@, p@, i as int),
{
    if i > s.len() || p.len() > s.len() - i {
        return false;
    }
    let mut k: usize = 0;
    while k < p.len()
        invariant
            i + p.len() <= s.len(),
            0 <= k <= p.len(),
            forall|m: int| 0 <= m < k ==> s@[i + m] == p@[m],
        decreases p.len() - k,
    {
        if s[i + k] != p[k] {
            assert(s@.subrange(i as int, i + p.len())[k as int] != p@[k as int]);
            return false;
        }
        k += 1;
    }
    assert(s@.subrange(i as int, i + p.len()) =~= p@);
    true
}

/// `str::find` on characters.
pub fn find_chars(s: &[char], p: &[char]) -> (r: Option<usize>)
    ensures
        match r {
            Some(k) => find(s@, p@) == Some(k as int) && k + p.len() <= s.len(),
            None => find(s@, p@) is None,
        },
{
    proof {
        lemma_find_contains(s@, p@);
    }
    if p.len() > s.len() {
        return None;
    }
    let last = s.len() - p.len();
    let mut i: usize = 0;
    loop
        invariant
            0 <= i <= last,
            last + p.len() == s.len(),
            find_from(s@, p@, i as int) == find(s@, p@),
        decreases last - i,
    {
        if matches_at_exec(s, p, i) {
            return Some(i);
        }
        if i == last {
            assert(find_from(s@, p@, i + 1) is None);
            return None;
        }
        i += 1;
    }
}

/// `str::contains` on characters.
pub fn contains_chars(s: &[char], p: &[char]) -> (r: bool)
    ensures
        r == contains(s@, p@),
{
    proof {
        lemma_find_contains(s@, p@);
    }
    find_chars(s, p).is_some()
}

/// `str::starts_with` on characters.
pub fn starts_with_chars(s: &[char], p: &[char]) -> (r: bool)
    ensures
        r == starts_with(s@, p@),
{
    matches_at_exec(s, p, 0)
}

/// Whether `s` contains the text `p`.
pub fn has(s: &[char], p: &str) -> (r: bool)
    ensures
        r == contains(s@, p@),
{
    let pc = chars_of(p);
    contains_chars(s, pc.as_slice())
}

/// Whether `c` can stand in a name.
pub fn is_name_char_exec(c: char) -> (r: bool)
    ensures
        r == is_name_char(c),
{
    ('a' <= c && c <= 'z') || ('A' <= c && c <= 'Z') || ('0' <= c && c <= '9') || c == '_'
}

/// Whether `s` holds a call of the function that `p` names: `p` occurs
/// where no name character stands right before it.
pub fn has_call(s: &[char], p: &str) -> (r: bool)
    ensures
        r == calls(s@, p@),
{
    let pc = chars_of(p);
    let mut i: usize = 0;
    while i < s.len()
        invariant
            0 <= i <= s.len(),
            pc@ == p@,
            forall|j: int| 0 <= j < i ==> !call_at(s@, p@, j),
        decreases s.len() - i,
    {
        if matches_at_exec(s, pc.as_slice(), i) && (i == 0 || !is_name_char_exec(s[i - 1])) {
            assert(call_at(s@, p@, i as int));
            reveal(calls);
            return true;
        }
        i += 1;
    }
    let last = matches_at_exec(s, pc.as_slice(), i) && (i == 0 || !is_name_char_exec(s[i - 1]));
    proof {
        reveal(calls);
        if last {
            assert(call_at(s@, p@, i as int));
        } else {
            assert forall|j: int| !call_at(s@, p@, j) by {
                if j > i {
                    assert(!matches_at(s@, p@, j));
                }
            }
        }
    }
    last
}

/// Whether `s` begins with the text `p`.
pub fn begins(s: &[char], p: &str) -> (r: bool)
    ensures
        r == starts_with(s@, p@),
{
    let pc = chars_of(p);
    starts_with_chars(s, pc.as_slice())
}

/// Whether `s` is exactly the text `p`.
pub fn same_text(s: &[char], p: &str) -> (r: bool)
    ensures
        r == (s@ == p@),
{
    let pc = chars_of(p);
    if s.len() != pc.len() {
        return false;
    }
    let r = matches_at_exec(s, pc.as_slice(), 0);
    proof {
        if r {
            assert(s@ =~= s@.subrange(0, pc@.len() as int));
        } else {
            assert(s@.subrange(0, pc@.len() as int) =~= s@);
        }
    }
    r
}

/// Number of occurrences of `c` in `s`.
pub fn count_char_exec(s: &[char], c: char) -> (r: usize)
    ensures
        r == count_char(s@, c),
{
    let mut n: usize = 0;
    let mut i: usize = 0;
    while i < s.len()
        invariant
            0 <= i <= s.len(),
            n == count_char(s@.take(i as int), c),
            n <= i,
        decreases s.len() - i,
    {
        assert(s@.take(i + 1).drop_last() == s@.take(i as int));
        if s[i] == c {
            n += 1;
        }
        i += 1;
    }
    assert(s@.take(s.len() as int) == s@);
    n
}

/// Leading `' '` characters of `s`.
pub fn leading_blanks_exec(s: &[char]) -> (r: usize)
    ensures
        r == leading_blanks(s@),
{
    let mut i: usize = 0;
    assert(s@.skip(0) == s@);
    while i < s.len() && s[i] == ' '
        invariant
            0 <= i <= s.len(),
            leading_blanks(s@) == i + leading_blanks(s@.skip(i as int)),
        decreases s.len() - i,
    {
        assert(s@.skip(i as int).drop_first() == s@.skip(i + 1));
        i += 1;
    }
    proof {
        lemma_no_leading_blanks(s@, i as int);
    }
    i
}

proof fn lemma_no_leading_blanks(s: Seq<char>, i: int)
    requires
        0 <= i <= s.len(),
        i == s.len() || s[i] != ' ',
    ensures
        leading_blanks(s.skip(i)) == 0,
{
}

/// UTF-8 width of one character (`char::len_utf8`).
pub fn utf8_width_exec(c: char) -> (r: usize)
    ensures
        r == utf8_width(c),
{
    let u = c as u32;
    if u < 0x80 {
        1
    } else if u < 0x800 {
        2
    } else if u < 0x10000 {
        3
    } else {
        4
    }
}

/// UTF-8 width of `s[..n]`.
pub fn utf8_len_prefix(s: &[char], n: usize) -> (r: usize)
    requires
        n <= s.len(),
        utf8_len(s@) <= usize::MAX,
    ensures
        r == utf8_len(s@.take(n as int)),
{
    let mut total: usize = 0;
    let mut i: usize = 0;
    while i < n
        invariant
            0 <= i <= n <= s.len(),
            utf8_len(s@) <= usize::MAX,
            total == utf8_len(s@.take(i as int)),
        decreases n - i,
    {
        proof {
            lemma_utf8_len_prefix(s@, i + 1);
            assert(s@.take(i + 1).drop_last() == s@.take(i as int));
        }
        total = total + utf8_width_exec(s[i]);
        i += 1;
    }
    total
}

/// `to_ascii_lowercase` on characters.
pub fn ascii_lower_exec(s: &[char]) -> (r: Vec<char>)
    ensures
        r@ == ascii_lower(s@),
{
    let mut v: Vec<char> = Vec::new();
    let mut i: usize = 0;
    while i < s.len()
        invariant
            0 <= i <= s.len(),
            v@ == ascii_lower(s@.take(i as int)),
        decreases s.len() - i,
    {
        let c = s[i];
        let d = if 'A' <= c && c <= 'Z' {
            let u = (c as u32) + 32;
            assert(0x61 <= u <= 0x7A);
            char_from_ascii(u)
        } else {
            c
        };
        v.push(d);
        i += 1;
        assert(v@ =~= ascii_lower(s@.take(i as int)));
    }
    assert(s@.take(s.len() as int) == s@);
    v
}

/// The ASCII character with code `u`.
fn char_from_ascii(u: u32) -> (c: char)
    requires
        u < 0x80,
    ensures
        c == u as char,
{
    let b = u as u8;
    b as char
}

/// The start of the last whitespace-free run of `s[..j]`.
pub fn last_word_start_exec(s: &[char], j: usize) -> (r: usize)
    requires
        j <= s.len(),
    ensures
        r == last_word_start(s@, j as int),
        r <= j,
{
    let mut k = j;
    while k > 0 && !is_space_char(s[k - 1])
        invariant
            k <= j <= s.len(),
            last_word_start(s@, k as int) == last_word_start(s@, j as int),
        decreases k,
    {
        k -= 1;
    }
    k
}

/// Appends the decimal rendering of `n`.
pub fn push_decimal(out: &mut String, n: u64)
    ensures
        final(out)@ == old(out)@ + decimal(n as nat),
    decreases n,
{
    if n >= 10 {
        push_decimal(out, n / 10);
    }
    let d = (n % 10) as u32;
    let c = char_from_ascii(d + 48);
    string_push(out, c);
    proof {
        if n >= 10 {
            assert(decimal(n as nat) == decimal((n / 10) as nat).push(digit((n % 10) as nat)));
        }
        assert(out@ =~= old(out)@ + decimal(n as nat));
    }
}

/// `str::lines` on characters: the lines of a text.
pub fn split_lines(text: &str) -> (r: Vec<Vec<char>>)
    ensures
        r@.map_values(|l: Vec<char>| l@) == split_lines_spec(text@),
{
    let c = chars_of(text);
    let ghost s = c@;
    let mut lines: Vec<Vec<char>> = Vec::new();
    let mut start: usize = 0;
    assert(s.skip(0) == s);
    while start < c.len()
        invariant
            s == c@,
            s == text@,
            0 <= start <= c.len(),
            split_lines_spec(s) == lines@.map_values(|l: Vec<char>| l@) + split_lines_spec(
                s.skip(start as int),
            ),
        decreases c.len() - start,
    {
        let ghost t = s.skip(start as int);
        let mut k: usize = start;
        while k < c.len() && c[k] != '\n'
            invariant
                start <= k <= c.len(),
                s == c@,
                next_newline(s, k as int) == next_newline(s, start as int),
            decreases c.len() - k,
        {
            k += 1;
        }
        proof {
            lemma_next_newline_skip(s, start as int, start as int);
            assert(t.skip(0) == t);
        }
        let mut end = k;
        if end > start && c[end - 1] == '\r' && k < c.len() {
            end = end - 1;
        }
        let piece = copy_range(c.as_slice(), start, end);
        let ghost before = lines@.map_values(|l: Vec<char>| l@);
        lines.push(piece);
        proof {
            let kk = (k - start) as int;
            assert(next_newline(t, 0) == kk);
            assert(lines@.map_values(|l: Vec<char>| l@) =~= before.push(piece@));
            if k < c.len() {
                assert(t.take(kk) =~= s.subrange(start as int, k as int));
                assert(piece@ == strip_cr(t.take(kk)));
                assert(t.skip(kk + 1) =~= s.skip(k + 1));
                assert(split_lines_spec(t) == seq![strip_cr(t.take(kk))] + split_lines_spec(
                    t.skip(kk + 1),
                ));
            } else {
                assert(piece@ =~= t);
                assert(s.skip(k as int) =~= Seq::<char>::empty());
            }
        }
        if k < c.len() {
            start = k + 1;
        } else {
            start = k;
        }
        assert(split_lines_spec(s) == lines@.map_values(|l: Vec<char>| l@) + split_lines_spec(
            s.skip(start as int),
        ));
    }
    proof {
        assert(s.skip(start as int) =~= Seq::<char>::empty());
        assert(lines@.map_values(|l: Vec<char>| l@) + Seq::<Seq<char>>::empty()
            =~= lines@.map_values(|l: Vec<char>| l@));
    }
    lines
}

} // verus!
