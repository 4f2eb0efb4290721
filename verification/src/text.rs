//! Text primitives over sequences of characters.
//!
//! Every string of the library is viewed as a `Seq<char>`. The functions
//! here state substring search, trimming, removal of markers and decimal
//! rendering over that view, and implement them on `Vec<char>`.

use vstd::prelude::*;
use vstd::std_specs::iter::IteratorSpec;
use vstd::string::*;

verus! {

// ---------------------------------------------------------------------
// Conversions between strings and character vectors
// ---------------------------------------------------------------------

/// The characters of `s`, in order.
pub fn to_chars(s: &str) -> (v: Vec<char>)
    ensures
        v@ == s@,
{
    broadcast use vstd::string::group_string_axioms;

    let mut v: Vec<char> = Vec::new();
    let mut it = s.chars();
    loop
        invariant
            it.obeys_prophetic_iter_laws(),
            it.decrease() is Some,
            v@ + it.remaining() == s@,
        ensures
            v@ == s@,
        decreases it.decrease()->0,
    {
        match it.next() {
            Some(c) => {
                v.push(c);
            },
            None => {
                break ;
            },
        }
    }
    v
}

/// `String::push`: appends one character to the end of the string.
#[verifier::external_body]
fn push_char(s: &mut String, c: char)
    ensures
        final(s)@ == old(s)@.push(c),
{
    s.push(c)
}

/// The string made of the characters `v[from..to]`.
pub fn string_of_range(v: &Vec<char>, from: usize, to: usize) -> (s: String)
    requires
        from <= to <= v.len(),
    ensures
        s@ == v@.subrange(from as int, to as int),
{
    let mut s = String::new();
    let mut i: usize = from;
    while i < to
        invariant
            from <= i <= to <= v.len(),
            s@ == v@.subrange(from as int, i as int),
        decreases to - i,
    {
        push_char(&mut s, v[i]);
        i = i + 1;
    }
    s
}

/// The string made of the characters of `v`.
pub fn string_of(v: &Vec<char>) -> (s: String)
    ensures
        s@ == v@,
{
    string_of_range(v, 0, v.len())
}

/// `str::eq`: two string slices are equal when they hold the same characters.
#[verifier::external_body]
pub(crate) fn str_eq(a: &str, b: &str) -> (r: bool)
    ensures
        r == (a@ == b@),
{
    a == b
}

/// What `str::to_lowercase` returns for a string: its lowercase equivalent
/// by the Unicode tables that the standard library carries.
pub uninterp spec fn lowercase_of(s: Seq<char>) -> Seq<char>;

/// `str::to_lowercase`: the lowercase equivalent of the string, as a new `String`.
#[verifier::external_body]
pub(crate) fn to_lowercase(s: &str) -> (r: String)
    ensures
        r@ == lowercase_of(s@),
{
    s.to_lowercase()
}

// ---------------------------------------------------------------------
// Substring search
// ---------------------------------------------------------------------

/// `pattern` stands in `text` at index `at`.
pub open spec fn occurs_at(text: Seq<char>, pattern: Seq<char>, at: int) -> bool {
    &&& 0 <= at
    &&& at + pattern.len() <= text.len()
    &&& text.subrange(at, at + pattern.len()) == pattern
}

/// `pattern` stands somewhere in `text`.
pub open spec fn has_substring(text: Seq<char>, pattern: Seq<char>) -> bool {
    exists|at: int| #[trigger] occurs_at(text, pattern, at)
}

/// The least index at or after `from` at which `pattern` stands in `text`.
pub open spec fn first_occurrence_from(text: Seq<char>, pattern: Seq<char>, from: int) -> Option<
    int,
>
    decreases text.len() - from + 1,
{
    if from < 0 || from + pattern.len() > text.len() {
        None
    } else if occurs_at(text, pattern, from) {
        Some(from)
    } else {
        first_occurrence_from(text, pattern, from + 1)
    }
}

/// `first_occurrence_from` finds an occurrence, the least one, whenever there is one.
pub proof fn lemma_first_occurrence(text: Seq<char>, pattern: Seq<char>, from: int)
    requires
        0 <= from,
    ensures
        match first_occurrence_from(text, pattern, from) {
            Some(at) => {
                &&& from <= at
                &&& occurs_at(text, pattern, at)
                &&& forall|j: int| from <= j < at ==> !#[trigger] occurs_at(text, pattern, j)
            },
            None => forall|j: int| from <= j ==> !#[trigger] occurs_at(text, pattern, j),
        },
    decreases text.len() - from + 1,
{
    if from + pattern.len() > text.len() {
    } else if occurs_at(text, pattern, from) {
    } else {
        lemma_first_occurrence(text, pattern, from + 1);
    }
}

/// A text holds a pattern exactly when the search from its start finds it.
pub proof fn lemma_has_substring_iff_found(text: Seq<char>, pattern: Seq<char>)
    ensures
        has_substring(text, pattern) <==> first_occurrence_from(text, pattern, 0) is Some,
{
    lemma_first_occurrence(text, pattern, 0);
}

/// A pattern that stands in a part of a text stands in the whole text.
pub proof fn lemma_substring_of_concat(
    before: Seq<char>,
    middle: Seq<char>,
    after: Seq<char>,
    pattern: Seq<char>,
)
    requires
        has_substring(middle, pattern),
    ensures
        has_substring(before + middle + after, pattern),
{
    let at = choose|at: int| occurs_at(middle, pattern, at);
    let whole = before + middle + after;
    assert(whole.subrange(before.len() + at, before.len() + at + pattern.len())
        =~= middle.subrange(at, at + pattern.len()));
    assert(occurs_at(whole, pattern, before.len() + at));
}

/// Whether `pattern` stands in `text` at index `at`.
pub fn occurs_at_index(text: &Vec<char>, pattern: &Vec<char>, at: usize) -> (r: bool)
    ensures
        r == occurs_at(text@, pattern@, at as int),
{
    if at > text.len() || pattern.len() > text.len() - at {
        return false;
    }
    let mut k: usize = 0;
    while k < pattern.len()
        invariant
            k <= pattern.len(),
            at + pattern.len() <= text.len(),
            forall|j: int| 0 <= j < k ==> text@[at + j] == pattern@[j],
        decreases pattern.len() - k,
    {
        if text[at + k] != pattern[k] {
            assert(text@.subrange(at as int, at + pattern.len())[k as int] == text@[at + k]);
            return false;
        }
        k = k + 1;
    }
    assert(text@.subrange(at as int, at + pattern.len()) =~= pattern@);
    true
}

/// The least index at or after `from` at which `pattern` stands in `text`.
pub fn find_from(text: &Vec<char>, pattern: &Vec<char>, from: usize) -> (r: Option<usize>)
    ensures
        match r {
            Some(at) => {
                &&& first_occurrence_from(text@, pattern@, from as int) == Some(at as int)
                &&& from <= at
                &&& at + pattern.len() <= text.len()
                &&& occurs_at(text@, pattern@, at as int)
            },
            None => first_occurrence_from(text@, pattern@, from as int) is None,
        },
{
    if pattern.len() > text.len() || from > text.len() - pattern.len() {
        return None;
    }
    let last: usize = text.len() - pattern.len();
    let mut i: usize = from;
    loop
        invariant
            from <= i <= last,
            last == text.len() - pattern.len(),
            first_occurrence_from(text@, pattern@, from as int) == first_occurrence_from(
                text@,
                pattern@,
                i as int,
            ),
        decreases last - i,
    {
        if occurs_at_index(text, pattern, i) {
            return Some(i);
        }
        if i == last {
            assert(first_occurrence_from(text@, pattern@, i + 1) is None);
            return None;
        }
        i = i + 1;
    }
}

/// Whether `pattern` stands somewhere in `text`.
pub fn contains(text: &Vec<char>, pattern: &Vec<char>) -> (r: bool)
    ensures
        r == has_substring(text@, pattern@),
{
    proof {
        lemma_has_substring_iff_found(text@, pattern@);
    }
    find_from(text, pattern, 0).is_some()
}

/// Whether the literal `pattern` stands somewhere in `text`.
pub fn contains_str(text: &Vec<char>, pattern: &str) -> (r: bool)
    ensures
        r == has_substring(text@, pattern@),
{
    let p = to_chars(pattern);
    contains(text, &p)
}

/// The text ends with the pattern.
pub open spec fn has_suffix(text: Seq<char>, pattern: Seq<char>) -> bool {
    pattern.len() <= text.len() && occurs_at(text, pattern, text.len() - pattern.len())
}

/// Whether `text` ends with the literal `pattern`.
pub fn ends_with_str(text: &Vec<char>, pattern: &str) -> (r: bool)
    ensures
        r == has_suffix(text@, pattern@),
{
    let p = to_chars(pattern);
    if p.len() > text.len() {
        return false;
    }
    occurs_at_index(text, &p, text.len() - p.len())
}

// ---------------------------------------------------------------------
// Whitespace
// ---------------------------------------------------------------------

/// The characters with the Unicode property `White_Space`.
pub open spec fn is_whitespace_char(c: char) -> bool {
    let n = c as u32;
    ||| 0x09 <= n <= 0x0D
    ||| n == 0x20
    ||| n == 0x85
    ||| n == 0xA0
    ||| n == 0x1680
    ||| 0x2000 <= n <= 0x200A
    ||| n == 0x2028
    ||| n == 0x2029
    ||| n == 0x202F
    ||| n == 0x205F
    ||| n == 0x3000
}

/// Whether `c` has the Unicode property `White_Space`.
pub fn is_whitespace(c: char) -> (r: bool)
    ensures
        r == is_whitespace_char(c),
{
    let n: u32 = c as u32;
    (0x09 <= n && n <= 0x0D) || n == 0x20 || n == 0x85 || n == 0xA0 || n == 0x1680 || (0x2000 <= n
        && n <= 0x200A) || n == 0x2028 || n == 0x2029 || n == 0x202F || n == 0x205F || n == 0x3000
}

/// The index of the first character at or after `from` that is no whitespace,
/// or the length of `s` where there is none.
pub open spec fn skip_whitespace(s: Seq<char>, from: int) -> int
    decreases s.len() - from,
{
    if 0 <= from < s.len() && is_whitespace_char(s[from]) {
        skip_whitespace(s, from + 1)
    } else {
        from
    }
}

/// The end of the text `s[lo..to]` once its trailing whitespace is cut off.
pub open spec fn cut_trailing_whitespace(s: Seq<char>, lo: int, to: int) -> int
    decreases to,
{
    if 0 <= lo < to <= s.len() && is_whitespace_char(s[to - 1]) {
        cut_trailing_whitespace(s, lo, to - 1)
    } else {
        to
    }
}

/// The index at which the trimmed text starts.
pub open spec fn trim_start(s: Seq<char>) -> int {
    skip_whitespace(s, 0)
}

/// The index at which the trimmed text ends.
pub open spec fn trim_end(s: Seq<char>) -> int {
    cut_trailing_whitespace(s, trim_start(s), s.len() as int)
}

/// `s` without its leading and trailing whitespace.
pub open spec fn trimmed(s: Seq<char>) -> Seq<char> {
    s.subrange(trim_start(s), trim_end(s))
}

/// `s` holds nothing but whitespace.
pub open spec fn is_blank(s: Seq<char>) -> bool {
    forall|i: int| 0 <= i < s.len() ==> is_whitespace_char(#[trigger] s[i])
}

/// What `skip_whitespace` returns: everything it passed is whitespace, and it
/// stopped at the end or at a character that is none.
pub proof fn lemma_skip_whitespace(s: Seq<char>, from: int)
    requires
        0 <= from <= s.len(),
    ensures
        from <= skip_whitespace(s, from) <= s.len(),
        forall|i: int| from <= i < skip_whitespace(s, from) ==> is_whitespace_char(#[trigger] s[i]),
        skip_whitespace(s, from) < s.len() ==> !is_whitespace_char(s[skip_whitespace(s, from)]),
    decreases s.len() - from,
{
    if from < s.len() && is_whitespace_char(s[from]) {
        lemma_skip_whitespace(s, from + 1);
    }
}

/// What `cut_trailing_whitespace` returns: everything it cut is whitespace, and
/// it stopped at `lo` or behind a character that is none.
pub proof fn lemma_cut_trailing_whitespace(s: Seq<char>, lo: int, to: int)
    requires
        0 <= lo <= to <= s.len(),
    ensures
        lo <= cut_trailing_whitespace(s, lo, to) <= to,
        forall|i: int|
            cut_trailing_whitespace(s, lo, to) <= i < to ==> is_whitespace_char(#[trigger] s[i]),
        lo < cut_trailing_whitespace(s, lo, to) ==> !is_whitespace_char(
            s[cut_trailing_whitespace(s, lo, to) - 1],
        ),
    decreases to,
{
    if lo < to && is_whitespace_char(s[to - 1]) {
        lemma_cut_trailing_whitespace(s, lo, to - 1);
    }
}

/// The trimmed text neither starts nor ends with whitespace, and it is empty
/// exactly when the text is blank.
pub proof fn lemma_trimmed(s: Seq<char>)
    ensures
        0 <= trim_start(s) <= trim_end(s) <= s.len(),
        trimmed(s).len() > 0 ==> !is_whitespace_char(trimmed(s).first()) && !is_whitespace_char(
            trimmed(s).last(),
        ),
        trimmed(s).len() == 0 <==> is_blank(s),
{
    lemma_skip_whitespace(s, 0);
    lemma_cut_trailing_whitespace(s, trim_start(s), s.len() as int);
    if trimmed(s).len() == 0 {
        assert(trim_start(s) == trim_end(s));
        if trim_start(s) < s.len() {
            assert(!is_whitespace_char(s[trim_start(s)]));
            assert(is_whitespace_char(s[trim_end(s)]));
        }
    } else {
        assert(!is_whitespace_char(s[trim_start(s)]));
    }
}

/// The bounds of the trimmed text within `v`.
pub fn trim_bounds(v: &Vec<char>) -> (r: (usize, usize))
    ensures
        r.0 == trim_start(v@),
        r.1 == trim_end(v@),
        r.0 <= r.1 <= v.len(),
{
    let mut a: usize = 0;
    while a < v.len() && is_whitespace(v[a])
        invariant
            a <= v.len(),
            skip_whitespace(v@, a as int) == skip_whitespace(v@, 0),
        decreases v.len() - a,
    {
        a = a + 1;
    }
    let mut b: usize = v.len();
    while a < b && is_whitespace(v[b - 1])
        invariant
            a <= b <= v.len(),
            cut_trailing_whitespace(v@, a as int, b as int) == cut_trailing_whitespace(
                v@,
                a as int,
                v@.len() as int,
            ),
        decreases b,
    {
        b = b - 1;
    }
    (a, b)
}

/// Whether `s` holds nothing but whitespace.
pub fn is_blank_str(s: &str) -> (r: bool)
    ensures
        r == is_blank(s@),
{
    let v = to_chars(s);
    let (a, b) = trim_bounds(&v);
    proof {
        lemma_trimmed(v@);
    }
    a == b
}

// ---------------------------------------------------------------------
// Removal of markers and trailing characters
// ---------------------------------------------------------------------

/// `s` with every occurrence of `marker` taken out, scanning from the left;
/// occurrences that overlap an earlier one are not counted.
pub open spec fn without(s: Seq<char>, marker: Seq<char>) -> Seq<char>
    decreases s.len(),
{
    if marker.len() == 0 || s.len() < marker.len() {
        s
    } else if occurs_at(s, marker, 0) {
        without(s.skip(marker.len() as int), marker)
    } else {
        seq![s[0]] + without(s.skip(1), marker)
    }
}

/// `v` with every occurrence of `marker` taken out.
pub fn remove_all(v: &Vec<char>, marker: &Vec<char>) -> (out: Vec<char>)
    ensures
        out@ == without(v@, marker@),
{
    let mut out: Vec<char> = Vec::new();
    let mut i: usize = 0;
    assert(v@.skip(0) =~= v@);
    while i < v.len() && marker.len() > 0 && marker.len() <= v.len() - i
        invariant
            i <= v.len(),
            out@ + without(v@.skip(i as int), marker@) == without(v@, marker@),
        decreases v.len() - i,
    {
        let ghost rest = v@.skip(i as int);
        if occurs_at_index(v, marker, i) {
            proof {
                assert(rest.subrange(0, marker@.len() as int) =~= v@.subrange(
                    i as int,
                    i + marker@.len(),
                ));
                assert(rest.skip(marker@.len() as int) =~= v@.skip(i + marker@.len()));
            }
            i = i + marker.len();
        } else {
            proof {
                assert(rest.subrange(0, marker@.len() as int) =~= v@.subrange(
                    i as int,
                    i + marker@.len(),
                ));
                assert(rest.skip(1) =~= v@.skip(i + 1));
                assert(out@.push(v@[i as int]) + without(rest.skip(1), marker@) =~= out@ + (
                seq![rest[0]] + without(rest.skip(1), marker@)));
            }
            out.push(v[i]);
            i = i + 1;
        }
    }
    while i < v.len()
        invariant
            i <= v.len(),
            marker@.len() == 0 || v@.len() - i < marker@.len(),
            out@ + v@.skip(i as int) == without(v@, marker@),
        decreases v.len() - i,
    {
        proof {
            assert(out@.push(v@[i as int]) + v@.skip(i + 1) =~= out@ + v@.skip(i as int));
        }
        out.push(v[i]);
        i = i + 1;
    }
    assert(out@ + v@.skip(i as int) =~= out@);
    out
}

/// The length of `s` once every `c` at its end is cut off.
pub open spec fn cut_trailing(s: Seq<char>, c: char, to: int) -> int
    decreases to,
{
    if 0 < to <= s.len() && s[to - 1] == c {
        cut_trailing(s, c, to - 1)
    } else {
        to
    }
}

/// `s` without the run of `c` at its end.
pub open spec fn without_trailing(s: Seq<char>, c: char) -> Seq<char> {
    s.subrange(0, cut_trailing(s, c, s.len() as int))
}

/// The length of `v` once every `c` at its end is cut off.
pub fn trailing_cut(v: &Vec<char>, c: char) -> (n: usize)
    ensures
        n == cut_trailing(v@, c, v@.len() as int),
        n <= v.len(),
{
    let mut n: usize = v.len();
    while n > 0 && v[n - 1] == c
        invariant
            n <= v.len(),
            cut_trailing(v@, c, n as int) == cut_trailing(v@, c, v@.len() as int),
        decreases n,
    {
        n = n - 1;
    }
    n
}

// ---------------------------------------------------------------------
// ASCII lowercase and decimal numbers
// ---------------------------------------------------------------------

/// `c` with the letters `A` to `Z` turned into `a` to `z`.
pub open spec fn ascii_lower_char(c: char) -> char {
    if 'A' <= c <= 'Z' {
        ((c as u8) + 32) as char
    } else {
        c
    }
}

/// `s` with the letters `A` to `Z` turned into `a` to `z`.
pub open spec fn ascii_lower(s: Seq<char>) -> Seq<char> {
    Seq::new(s.len(), |i: int| ascii_lower_char(s[i]))
}

/// `c` with the letters `A` to `Z` turned into `a` to `z`.
pub fn to_ascii_lower_char(c: char) -> (r: char)
    ensures
        r == ascii_lower_char(c),
{
    if 'A' <= c && c <= 'Z' {
        ((c as u8) + 32) as char
    } else {
        c
    }
}

/// The characters of `s` with the letters `A` to `Z` turned into `a` to `z`.
pub fn to_ascii_lower(s: &str) -> (out: Vec<char>)
    ensures
        out@ == ascii_lower(s@),
{
    let v = to_chars(s);
    let mut out: Vec<char> = Vec::new();
    let mut i: usize = 0;
    while i < v.len()
        invariant
            i <= v.len(),
            v@ == s@,
            out@.len() == i,
            forall|j: int| 0 <= j < i ==> out@[j] == ascii_lower_char(v@[j]),
        decreases v.len() - i,
    {
        out.push(to_ascii_lower_char(v[i]));
        i = i + 1;
    }
    assert(out@ =~= ascii_lower(s@));
    out
}

/// The character of a decimal digit.
pub open spec fn digit_char(d: int) -> char {
    if d == 0 {
        '0'
    } else if d == 1 {
        '1'
    } else if d == 2 {
        '2'
    } else if d == 3 {
        '3'
    } else if d == 4 {
        '4'
    } else if d == 5 {
        '5'
    } else if d == 6 {
        '6'
    } else if d == 7 {
        '7'
    } else if d == 8 {
        '8'
    } else {
        '9'
    }
}

/// The decimal digits of `n`, without leading zeros.
pub open spec fn decimal(n: nat) -> Seq<char>
    decreases n,
{
    if n < 10 {
        seq![digit_char(n as int)]
    } else {
        decimal(n / 10).push(digit_char((n % 10) as int))
    }
}

fn digit(d: u64) -> (c: char)
    requires
        d < 10,
    ensures
        c == digit_char(d as int),
{
    if d == 0 {
        '0'
    } else if d == 1 {
        '1'
    } else if d == 2 {
        '2'
    } else if d == 3 {
        '3'
    } else if d == 4 {
        '4'
    } else if d == 5 {
        '5'
    } else if d == 6 {
        '6'
    } else if d == 7 {
        '7'
    } else if d == 8 {
        '8'
    } else {
        '9'
    }
}

/// Appends the decimal digits of `n` to `out`.
pub fn push_decimal(out: &mut String, n: u64)
    ensures
        final(out)@ == old(out)@ + decimal(n as nat),
    decreases n,
{
    if n < 10 {
        push_char(out, digit(n));
        assert(out@ =~= old(out)@ + decimal(n as nat));
    } else {
        push_decimal(out, n / 10);
        push_char(out, digit(n % 10));
        assert(out@ =~= old(out)@ + decimal(n as nat));
    }
}

} // verus!
