//! Character-level text operations and their mathematical meaning.
//!
//! Every operation is stated over `Seq<char>`, the view of a string, and the
//! executable functions are proved to compute exactly that.

use vstd::prelude::*;
use vstd::std_specs::iter::IteratorSpec;
use vstd::utf8::encode_utf8;

verus! {

/// `String::push` appends exactly the given character.
pub assume_specification[ std::string::String::push ](s: &mut std::string::String, ch: char)
    ensures
        final(s)@ == old(s)@.push(ch),
;

// ---------------------------------------------------------------------------
// White space and trimming
// ---------------------------------------------------------------------------
/// The characters with the Unicode property `White_Space`.
pub open spec fn is_whitespace(c: char) -> bool {
    let u: u32 = c as u32;
    ||| 0x09 <= u <= 0x0d
    ||| u == 0x20
    ||| u == 0x85
    ||| u == 0xa0
    ||| u == 0x1680
    ||| 0x2000 <= u <= 0x200a
    ||| u == 0x2028
    ||| u == 0x2029
    ||| u == 0x202f
    ||| u == 0x205f
    ||| u == 0x3000
}

/// `s` without its leading white space.
pub open spec fn trim_start(s: Seq<char>) -> Seq<char>
    decreases s.len(),
{
    if s.len() > 0 && is_whitespace(s[0]) {
        trim_start(s.drop_first())
    } else {
        s
    }
}

/// `s` without its trailing white space.
pub open spec fn trim_end(s: Seq<char>) -> Seq<char>
    decreases s.len(),
{
    if s.len() > 0 && is_whitespace(s.last()) {
        trim_end(s.drop_last())
    } else {
        s
    }
}

/// `s` without leading and trailing white space.
pub open spec fn trim(s: Seq<char>) -> Seq<char> {
    trim_end(trim_start(s))
}

/// `s` without the copies of `c` at its end.
pub open spec fn trim_end_char(s: Seq<char>, c: char) -> Seq<char>
    decreases s.len(),
{
    if s.len() > 0 && s.last() == c {
        trim_end_char(s.drop_last(), c)
    } else {
        s
    }
}

// ---------------------------------------------------------------------------
// Searching
// ---------------------------------------------------------------------------
/// `pattern` occurs in `s` at index `i`.
pub open spec fn occurs_at(s: Seq<char>, pattern: Seq<char>, i: int) -> bool {
    &&& 0 <= i
    &&& i + pattern.len() <= s.len()
    &&& s.subrange(i, i + pattern.len()) == pattern
}

/// `pattern` occurs somewhere in `s`.
pub open spec fn contains_pattern(s: Seq<char>, pattern: Seq<char>) -> bool {
    exists|i: int| occurs_at(s, pattern, i)
}

/// The largest index below `bound` at which `pattern` occurs in `s`, or -1.
pub open spec fn last_occurrence_below(s: Seq<char>, pattern: Seq<char>, bound: int) -> int
    decreases bound,
{
    if bound <= 0 {
        -1
    } else if occurs_at(s, pattern, bound - 1) {
        bound - 1
    } else {
        last_occurrence_below(s, pattern, bound - 1)
    }
}

/// The largest index at which `pattern` occurs in `s`, or -1 where it does
/// not occur.
pub open spec fn last_occurrence(s: Seq<char>, pattern: Seq<char>) -> int {
    last_occurrence_below(s, pattern, s.len() as int + 1)
}

/// What follows the last occurrence of `pattern` in `s`; all of `s` where
/// there is none.
pub open spec fn after_last(s: Seq<char>, pattern: Seq<char>) -> Seq<char> {
    let at = last_occurrence(s, pattern);
    if at < 0 {
        s
    } else {
        s.skip(at + pattern.len())
    }
}

/// What precedes the last occurrence of `pattern` in `s`; all of `s` where
/// there is none.
pub open spec fn before_last(s: Seq<char>, pattern: Seq<char>) -> Seq<char> {
    let at = last_occurrence(s, pattern);
    if at < 0 {
        s
    } else {
        s.take(at)
    }
}

/// `s` begins with the character `c`.
pub open spec fn starts_with_char(s: Seq<char>, c: char) -> bool {
    s.len() > 0 && s[0] == c
}

/// `s` ends with the character `c`.
pub open spec fn ends_with_char(s: Seq<char>, c: char) -> bool {
    s.len() > 0 && s.last() == c
}

/// `s` begins with `pattern`.
pub open spec fn starts_with(s: Seq<char>, pattern: Seq<char>) -> bool {
    occurs_at(s, pattern, 0)
}

// ---------------------------------------------------------------------------
// Rewriting
// ---------------------------------------------------------------------------
/// `s` with every `from` replaced by `to`.
pub open spec fn replace_char(s: Seq<char>, from: char, to: Seq<char>) -> Seq<char>
    decreases s.len(),
{
    if s.len() == 0 {
        Seq::empty()
    } else {
        replace_char(s.drop_last(), from, to) + (if s.last() == from {
            to
        } else {
            seq![s.last()]
        })
    }
}

/// At most the first `n` characters of `s`.
pub open spec fn prefix(s: Seq<char>, n: nat) -> Seq<char> {
    if s.len() <= n {
        s
    } else {
        s.take(n as int)
    }
}

/// `n` spaces.
pub open spec fn spaces(n: nat) -> Seq<char> {
    Seq::new(n, |i: int| ' ')
}

/// The number of bytes of `s` in UTF-8.
pub open spec fn byte_len(s: Seq<char>) -> nat {
    encode_utf8(s).len()
}

// ---------------------------------------------------------------------------
// Decimal numerals
// ---------------------------------------------------------------------------
/// The digit character of `d`, for `d` below ten.
pub open spec fn digit(d: nat) -> char {
    if d == 0 {
        '0'
    } else if d == 1 {
        '1'
    } else if d == 2 {
        '2'
    } else if d == 3 {
        '3'
    } else if d == 4 {
        '4'
    } else if d == 5 {
        '5'
    } else if d == 6 {
        '6'
    } else if d == 7 {
        '7'
    } else if d == 8 {
        '8'
    } else {
        '9'
    }
}

/// The decimal numeral of `n`, without leading zeros.
pub open spec fn decimal(n: nat) -> Seq<char>
    decreases n,
{
    if n < 10 {
        seq![digit(n)]
    } else {
        decimal(n / 10).push(digit(n % 10))
    }
}

/// The decimal numeral of `i`, with a minus sign where it is negative.
pub open spec fn signed_decimal(i: int) -> Seq<char> {
    if i < 0 {
        seq!['-'] + decimal((-i) as nat)
    } else {
        decimal(i as nat)
    }
}

/// The value of a digit character, or ten for any other character.
pub open spec fn digit_value(c: char) -> nat {
    if c == '0' {
        0
    } else if c == '1' {
        1
    } else if c == '2' {
        2
    } else if c == '3' {
        3
    } else if c == '4' {
        4
    } else if c == '5' {
        5
    } else if c == '6' {
        6
    } else if c == '7' {
        7
    } else if c == '8' {
        8
    } else if c == '9' {
        9
    } else {
        10
    }
}

/// The number that a sequence of digits denotes.
pub open spec fn decimal_value(s: Seq<char>) -> nat
    decreases s.len(),
{
    if s.len() == 0 {
        0
    } else {
        10 * decimal_value(s.drop_last()) + digit_value(s.last())
    }
}

/// Reading a numeral back gives the number it was written for.
pub proof fn lemma_decimal_value(n: nat)
    ensures
        decimal_value(decimal(n)) == n,
        decimal(n).len() >= 1,
    decreases n,
{
    if n < 10 {
        assert(decimal_value(decimal(n).drop_last()) == 0);
    } else {
        lemma_decimal_value(n / 10);
        assert(decimal(n).drop_last() =~= decimal(n / 10));
    }
}

// ---------------------------------------------------------------------------
// Executable functions
// ---------------------------------------------------------------------------
/// The characters of `s`, in order.
pub fn chars_of(s: &str) -> (v: Vec<char>)
    ensures
        v@ == s@,
{
    let mut v: Vec<char> = Vec::new();
    let mut it = s.chars();
    loop
        invariant
            it.obeys_prophetic_iter_laws(),
            it.decrease() is Some,
            v@ + it.remaining() == s@,
        ensures
            v@ == s@,
        decreases it.decrease()->0,
    {
        match it.next() {
            Some(c) => {
                v.push(c);
            },
            None => {
                break ;
            },
        }
    }
    v
}

/// Appends the characters `v[from..to]` to `out`.
pub fn push_range(out: &mut String, v: &Vec<char>, from: usize, to: usize)
    requires
        from <= to <= v.len(),
    ensures
        final(out)@ == old(out)@ + v@.subrange(from as int, to as int),
{
    let mut i: usize = from;
    while i < to
        invariant
            from <= i <= to <= v.len(),
            out@ == old(out)@ + v@.subrange(from as int, i as int),
        decreases to - i,
    {
        out.push(v[i]);
        i += 1;
    }
}

/// The string that holds the characters `v[from..to]`.
pub fn string_of_range(v: &Vec<char>, from: usize, to: usize) -> (r: String)
    requires
        from <= to <= v.len(),
    ensures
        r@ == v@.subrange(from as int, to as int),
{
    let mut r = String::new();
    push_range(&mut r, v, from, to);
    r
}

/// Whether `c` is white space.
pub fn is_whitespace_char(c: char) -> (b: bool)
    ensures
        b == is_whitespace(c),
{
    let u: u32 = c as u32;
    (0x09 <= u && u <= 0x0d) || u == 0x20 || u == 0x85 || u == 0xa0 || u == 0x1680 || (0x2000 <= u
        && u <= 0x200a) || u == 0x2028 || u == 0x2029 || u == 0x202f || u == 0x205f || u == 0x3000
}

/// The bounds of `v` without its leading and trailing white space.
pub fn trim_bounds(v: &Vec<char>) -> (r: (usize, usize))
    ensures
        r.0 <= r.1 <= v.len(),
        v@.subrange(r.0 as int, r.1 as int) == trim(v@),
{
    let n = v.len();
    let mut start: usize = 0;
    assert(v@.skip(0) =~= v@);
    while start < n && is_whitespace_char(v[start])
        invariant
            start <= n == v.len(),
            trim_start(v@) == trim_start(v@.skip(start as int)),
        decreases n - start,
    {
        assert(v@.skip(start as int).drop_first() =~= v@.skip(start + 1));
        start += 1;
    }
    let mut end: usize = n;
    while end > start && is_whitespace_char(v[end - 1])
        invariant
            start <= end <= n == v.len(),
            trim(v@) == trim_end(v@.subrange(start as int, end as int)),
        decreases end,
    {
        assert(v@.subrange(start as int, end as int).drop_last() =~= v@.subrange(
            start as int,
            end - 1,
        ));
        end -= 1;
    }
    (start, end)
}

/// `s` without leading and trailing white space.
pub fn trimmed(s: &str) -> (r: String)
    ensures
        r@ == trim(s@),
{
    let v = chars_of(s);
    let (start, end) = trim_bounds(&v);
    string_of_range(&v, start, end)
}

/// `s` without the copies of `c` at its end.
pub fn trimmed_end_char(s: &str, c: char) -> (r: String)
    ensures
        r@ == trim_end_char(s@, c),
{
    let v = chars_of(s);
    let mut end: usize = v.len();
    assert(v@.subrange(0, end as int) =~= v@);
    while end > 0 && v[end - 1] == c
        invariant
            end <= v.len(),
            trim_end_char(v@, c) == trim_end_char(v@.subrange(0, end as int), c),
        decreases end,
    {
        assert(v@.subrange(0, end as int).drop_last() =~= v@.subrange(0, end - 1));
        end -= 1;
    }
    string_of_range(&v, 0, end)
}

/// Whether `pattern` occurs in `s` at index `i`.
pub fn occurs_at_index(s: &Vec<char>, pattern: &Vec<char>, i: usize) -> (b: bool)
    ensures
        b == occurs_at(s@, pattern@, i as int),
{
    if pattern.len() > s.len() || i > s.len() - pattern.len() {
        return false;
    }
    let mut k: usize = 0;
    while k < pattern.len()
        invariant
            k <= pattern.len(),
            i + pattern.len() <= s.len(),
            forall|j: int| 0 <= j < k ==> s@[i + j] == pattern@[j],
        decreases pattern.len() - k,
    {
        if s[i + k] != pattern[k] {
            return false;
        }
        k += 1;
    }
    assert(s@.subrange(i as int, i + pattern.len()) =~= pattern@);
    true
}

/// The largest index at which `pattern` occurs in `s`.
pub fn find_last(s: &Vec<char>, pattern: &Vec<char>) -> (r: Option<usize>)
    ensures
        match r {
            Some(i) => i as int == last_occurrence(s@, pattern@),
            None => last_occurrence(s@, pattern@) == -1,
        },
{
    let mut bound: usize = s.len();
    if occurs_at_index(s, pattern, bound) {
        return Some(bound);
    }
    while bound > 0
        invariant
            bound <= s.len(),
            last_occurrence(s@, pattern@) == last_occurrence_below(s@, pattern@, bound as int),
        decreases bound,
    {
        if occurs_at_index(s, pattern, bound - 1) {
            return Some(bound - 1);
        }
        bound -= 1;
    }
    None
}

/// Whether `pattern` occurs in `s`.
pub fn contains(s: &str, pattern: &str) -> (b: bool)
    ensures
        b == contains_pattern(s@, pattern@),
{
    let v = chars_of(s);
    let p = chars_of(pattern);
    let r = find_last(&v, &p);
    proof {
        lemma_last_occurrence(s@, pattern@);
    }
    r.is_some()
}

/// Whether `s` begins with `pattern`.
pub fn begins_with(s: &str, pattern: &str) -> (b: bool)
    ensures
        b == starts_with(s@, pattern@),
{
    let v = chars_of(s);
    let p = chars_of(pattern);
    occurs_at_index(&v, &p, 0)
}

/// What follows the last occurrence of `pattern` in `s`; all of `s` where
/// there is none.
pub fn tail_after_last(s: &str, pattern: &str) -> (r: String)
    ensures
        r@ == after_last(s@, pattern@),
{
    let v = chars_of(s);
    let p = chars_of(pattern);
    match find_last(&v, &p) {
        Some(at) => {
            proof {
                lemma_last_occurrence(s@, pattern@);
            }
            string_of_range(&v, at + p.len(), v.len())
        },
        None => {
            assert(v@.subrange(0, v.len() as int) =~= v@);
            string_of_range(&v, 0, v.len())
        },
    }
}

/// What precedes the last occurrence of `pattern` in `s`, where there is one.
pub fn head_before_last(s: &str, pattern: &str) -> (r: Option<String>)
    ensures
        r is Some == (last_occurrence(s@, pattern@) >= 0),
        r matches Some(head) ==> head@ == before_last(s@, pattern@),
{
    let v = chars_of(s);
    let p = chars_of(pattern);
    match find_last(&v, &p) {
        Some(at) => {
            proof {
                lemma_last_occurrence(s@, pattern@);
            }
            Some(string_of_range(&v, 0, at))
        },
        None => None,
    }
}

/// Whether `a` and `b` hold the same characters.
pub fn same_text(a: &str, b: &str) -> (r: bool)
    ensures
        r == (a@ == b@),
{
    let v = chars_of(a);
    let w = chars_of(b);
    if v.len() != w.len() {
        return false;
    }
    let r = occurs_at_index(&v, &w, 0);
    assert(v@.subrange(0, v.len() as int) =~= v@);
    r
}

/// Whether `s` begins with the character `c`.
pub fn begins_with_char(s: &str, c: char) -> (b: bool)
    ensures
        b == starts_with_char(s@, c),
{
    let v = chars_of(s);
    v.len() > 0 && v[0] == c
}

/// Whether `s` ends with the character `c`.
pub fn finishes_with_char(s: &str, c: char) -> (b: bool)
    ensures
        b == ends_with_char(s@, c),
{
    let v = chars_of(s);
    v.len() > 0 && v[v.len() - 1] == c
}

/// `s` with every `from` replaced by `to`.
pub fn replaced(s: &str, from: char, to: &str) -> (r: String)
    ensures
        r@ == replace_char(s@, from, to@),
{
    let v = chars_of(s);
    let mut r = String::new();
    let mut i: usize = 0;
    while i < v.len()
        invariant
            i <= v.len(),
            r@ == replace_char(v@.take(i as int), from, to@),
        decreases v.len() - i,
    {
        assert(v@.take(i + 1).drop_last() =~= v@.take(i as int));
        if v[i] == from {
            r.append(to);
        } else {
            r.push(v[i]);
        }
        i += 1;
    }
    assert(v@.take(v.len() as int) =~= v@);
    r
}

/// At most the first `n` characters of `s`.
pub fn prefix_of(s: &str, n: usize) -> (r: String)
    ensures
        r@ == prefix(s@, n as nat),
{
    let v = chars_of(s);
    if v.len() <= n {
        string_of_range(&v, 0, v.len())
    } else {
        string_of_range(&v, 0, n)
    }
}

/// The number of characters of `s`.
pub fn char_count(s: &str) -> (n: usize)
    ensures
        n == s@.len(),
{
    s.unicode_len()
}

/// The number of bytes of `s`.
pub fn byte_count(s: &str) -> (n: usize)
    ensures
        n == byte_len(s@),
{
    s.as_bytes().len()
}

/// Appends `n` spaces to `out`.
pub fn push_spaces(out: &mut String, n: usize)
    ensures
        final(out)@ == old(out)@ + spaces(n as nat),
{
    let mut i: usize = 0;
    while i < n
        invariant
            i <= n,
            out@ == old(out)@ + spaces(i as nat),
        decreases n - i,
    {
        out.push(' ');
        i += 1;
    }
}

/// The digit character of `d`.
pub fn digit_char(d: u8) -> (c: char)
    requires
        d < 10,
    ensures
        c == digit(d as nat),
{
    if d == 0 {
        '0'
    } else if d == 1 {
        '1'
    } else if d == 2 {
        '2'
    } else if d == 3 {
        '3'
    } else if d == 4 {
        '4'
    } else if d == 5 {
        '5'
    } else if d == 6 {
        '6'
    } else if d == 7 {
        '7'
    } else if d == 8 {
        '8'
    } else {
        '9'
    }
}

/// Appends the decimal numeral of `n` to `out`.
pub fn push_decimal(out: &mut String, n: u64)
    ensures
        final(out)@ == old(out)@ + decimal(n as nat),
    decreases n,
{
    if n >= 10 {
        push_decimal(out, n / 10);
    }
    let d: u8 = (n % 10) as u8;
    out.push(digit_char(d));
}

/// The decimal numeral of `n`.
pub fn decimal_string(n: u64) -> (r: String)
    ensures
        r@ == decimal(n as nat),
{
    let mut r = String::new();
    push_decimal(&mut r, n);
    r
}

/// The decimal numeral of `i`, with a minus sign where it is negative.
pub fn signed_decimal_string(i: i64) -> (r: String)
    ensures
        r@ == signed_decimal(i as int),
{
    let mut r = String::new();
    if i < 0 {
        r.push('-');
        let magnitude: u64 = ((-(i + 1)) as u64) + 1;
        push_decimal(&mut r, magnitude);
    } else {
        push_decimal(&mut r, i as u64);
    }
    r
}

// ---------------------------------------------------------------------------
// Facts about trimming
// ---------------------------------------------------------------------------
/// `trim_start` drops the longest run of white space at the start: it gives
/// the number of characters dropped.
pub proof fn lemma_trim_start(s: Seq<char>) -> (dropped: int)
    ensures
        0 <= dropped <= s.len(),
        trim_start(s) == s.skip(dropped),
        forall|i: int| 0 <= i < dropped ==> is_whitespace(s[i]),
        dropped < s.len() ==> !is_whitespace(s[dropped]),
    decreases s.len(),
{
    if s.len() > 0 && is_whitespace(s[0]) {
        let rest = lemma_trim_start(s.drop_first());
        assert forall|i: int| 0 <= i < rest + 1 implies is_whitespace(s[i]) by {
            if i > 0 {
                assert(s[i] == s.drop_first()[i - 1]);
            }
        }
        rest + 1
    } else {
        0
    }
}

/// `trim_end` drops the longest run of white space at the end: it gives the
/// number of characters kept.
pub proof fn lemma_trim_end(s: Seq<char>) -> (kept: int)
    ensures
        0 <= kept <= s.len(),
        trim_end(s) == s.take(kept),
        forall|i: int| kept <= i < s.len() ==> is_whitespace(s[i]),
        kept > 0 ==> !is_whitespace(s[kept - 1]),
    decreases s.len(),
{
    if s.len() > 0 && is_whitespace(s.last()) {
        let kept = lemma_trim_end(s.drop_last());
        assert forall|i: int| kept <= i < s.len() implies is_whitespace(s[i]) by {
            if i < s.len() - 1 {
                assert(s[i] == s.drop_last()[i]);
            }
        }
        kept
    } else {
        s.len() as int
    }
}

/// `trim` gives the part of `s` between its first and its last character
/// that is no white space, and nothing where `s` has no such character.
pub proof fn lemma_trim(s: Seq<char>) -> (bounds: (int, int))
    ensures
        0 <= bounds.0 <= bounds.1 <= s.len(),
        trim(s) == s.subrange(bounds.0, bounds.1),
        forall|i: int| 0 <= i < bounds.0 ==> is_whitespace(s[i]),
        forall|i: int| bounds.1 <= i < s.len() ==> is_whitespace(s[i]),
        bounds.0 < bounds.1 ==> !is_whitespace(s[bounds.0]) && !is_whitespace(s[bounds.1 - 1]),
{
    let dropped = lemma_trim_start(s);
    let tail = s.skip(dropped);
    let kept = lemma_trim_end(tail);
    assert forall|i: int| dropped + kept <= i < s.len() implies is_whitespace(s[i]) by {
        assert(s[i] == tail[i - dropped]);
    }
    (dropped, dropped + kept)
}

// ---------------------------------------------------------------------------
// Facts about searching
// ---------------------------------------------------------------------------
/// `last_occurrence_below` finds the largest occurrence below its bound.
pub proof fn lemma_last_occurrence_below(s: Seq<char>, pattern: Seq<char>, bound: int)
    ensures
        ({
            let at = last_occurrence_below(s, pattern, bound);
            &&& -1 <= at
            &&& at < bound || at == -1
            &&& at >= 0 ==> occurs_at(s, pattern, at)
            &&& forall|i: int| at < i < bound ==> !occurs_at(s, pattern, i)
        }),
    decreases bound,
{
    if bound > 0 && !occurs_at(s, pattern, bound - 1) {
        lemma_last_occurrence_below(s, pattern, bound - 1);
    }
}

/// `last_occurrence` is an occurrence after which there is none, and it is -1
/// exactly where the pattern does not occur.
pub proof fn lemma_last_occurrence(s: Seq<char>, pattern: Seq<char>)
    ensures
        ({
            let at = last_occurrence(s, pattern);
            &&& -1 <= at <= s.len()
            &&& at >= 0 ==> occurs_at(s, pattern, at)
            &&& forall|i: int| at < i ==> !occurs_at(s, pattern, i)
            &&& at >= 0 <==> contains_pattern(s, pattern)
        }),
{
    lemma_last_occurrence_below(s, pattern, s.len() as int + 1);
}

} // verus!
