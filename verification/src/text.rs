//! Character-level helpers over `String` and their mathematical meaning.
use vstd::prelude::*;
use vstd::string::*;

verus! {

/// The character of a decimal digit.
pub open spec fn digit_char(d: nat) -> char {
    ((d + 48) as u32) as char
}

/// The decimal text of a natural number, without sign or leading zeros.
pub open spec fn decimal(n: nat) -> Seq<char>
    decreases n,
{
    if n < 10 {
        seq![digit_char(n)]
    } else {
        decimal(n / 10).push(digit_char(n % 10))
    }
}

/// Appends one character to a string with `String::push`. Claims that the
/// string's characters are the old ones followed by `c`.
#[verifier::external_body]
pub(crate) fn push_char(s: &mut String, c: char)
    ensures
        final(s)@ == old(s)@.push(c),
{
    s.push(c)
}

fn digit(d: u64) -> (c: char)
    requires
        d < 10,
    ensures
        c == digit_char(d as nat),
{
    let b: u8 = 48u8 + (d as u8);
    b as char
}

/// Appends the decimal text of `n` to `s`.
pub fn push_decimal(s: &mut String, n: u64)
    ensures
        final(s)@ == old(s)@ + decimal(n as nat),
    decreases n,
{
    if n >= 10 {
        push_decimal(s, n / 10);
    }
    push_char(s, digit(n % 10));
    proof {
        if n >= 10 {
            assert(decimal(n as nat) == decimal((n / 10) as nat).push(digit_char((n % 10) as nat)));
        }
    }
}

/// The decimal text of `n`, as `to_string` writes it.
pub fn decimal_string(n: u64) -> (s: String)
    ensures
        s@ == decimal(n as nat),
{
    let mut s = String::new();
    push_decimal(&mut s, n);
    s
}

/// The characters of a string, one element each.
pub fn to_chars(s: &str) -> (v: Vec<char>)
    ensures
        v@ == s@,
{
    let n = s.unicode_len();
    let mut v: Vec<char> = Vec::new();
    let mut i: usize = 0;
    while i < n
        invariant
            n == s@.len(),
            i <= n,
            v@ == s@.subrange(0, i as int),
        decreases n - i,
    {
        let c = s.get_char(i);
        v.push(c);
        i = i + 1;
    }
    v
}

/// The string made of the given characters, in order.
pub fn from_chars(v: &[char]) -> (s: String)
    ensures
        s@ == v@,
{
    let mut s = String::new();
    let mut i: usize = 0;
    while i < v.len()
        invariant
            i <= v@.len(),
            s@ == v@.subrange(0, i as int),
        decreases v@.len() - i,
    {
        push_char(&mut s, v[i]);
        i = i + 1;
    }
    s
}


/// Whether a character is white space in Unicode's `White_Space` sense, the
/// set that `char::is_whitespace` tests.
pub open spec fn is_ws(c: char) -> bool {
    let u = c as u32;
    ||| (9 <= u && u <= 13)
    ||| u == 32
    ||| u == 0x85
    ||| u == 0xA0
    ||| u == 0x1680
    ||| (0x2000 <= u && u <= 0x200A)
    ||| u == 0x2028
    ||| u == 0x2029
    ||| u == 0x202F
    ||| u == 0x205F
    ||| u == 0x3000
}

/// Tests `is_ws`.
pub fn is_whitespace(c: char) -> (b: bool)
    ensures
        b == is_ws(c),
{
    let u = c as u32;
    (9 <= u && u <= 13) || u == 32 || u == 0x85 || u == 0xA0 || u == 0x1680 || (0x2000 <= u
        && u <= 0x200A) || u == 0x2028 || u == 0x2029 || u == 0x202F || u == 0x205F || u == 0x3000
}

/// The text with its leading white space removed.
pub open spec fn skip_ws(s: Seq<char>) -> Seq<char>
    decreases s.len(),
{
    if s.len() > 0 && is_ws(s[0]) {
        skip_ws(s.drop_first())
    } else {
        s
    }
}

/// The length of the run of non-white-space characters at the start.
pub open spec fn word_len(s: Seq<char>) -> nat
    decreases s.len(),
{
    if s.len() > 0 && !is_ws(s[0]) {
        1 + word_len(s.drop_first())
    } else {
        0
    }
}

/// The first white-space separated word (empty when there is none).
pub open spec fn first_word(s: Seq<char>) -> Seq<char> {
    skip_ws(s).take(word_len(skip_ws(s)) as int)
}

/// What follows the first word.
pub open spec fn after_first_word(s: Seq<char>) -> Seq<char> {
    skip_ws(s).skip(word_len(skip_ws(s)) as int)
}

/// The second white-space separated word (empty when there is none).
pub open spec fn second_word(s: Seq<char>) -> Seq<char> {
    first_word(after_first_word(s))
}

/// Whether the text holds at least two white-space separated words.
pub open spec fn has_two_words(s: Seq<char>) -> bool {
    skip_ws(s).len() > 0 && skip_ws(after_first_word(s)).len() > 0
}

/// The first position at which `p` occurs in `s`.
pub open spec fn find(s: Seq<char>, p: Seq<char>) -> Option<nat>
    decreases s.len(),
{
    if s.len() < p.len() {
        None
    } else if s.take(p.len() as int) == p {
        Some(0)
    } else if s.len() == 0 {
        None
    } else {
        match find(s.drop_first(), p) {
            Some(i) => Some(i + 1),
            None => None,
        }
    }
}

/// Whether `p` occurs in `s`.
pub open spec fn contains(s: Seq<char>, p: Seq<char>) -> bool {
    find(s, p) is Some
}

/// Shifts a found position.
pub open spec fn shift(o: Option<nat>, k: nat) -> Option<nat> {
    match o {
        Some(i) => Some(i + k),
        None => None,
    }
}

/// Index of the first position at or after `lo`, below `hi`, whose character
/// is not white space (`hi` when there is none).
pub fn skip_ws_at(v: &Vec<char>, lo: usize, hi: usize) -> (j: usize)
    requires
        lo <= hi <= v@.len(),
    ensures
        lo <= j <= hi,
        v@.subrange(j as int, hi as int) == skip_ws(v@.subrange(lo as int, hi as int)),
{
    let mut j = lo;
    while j < hi && is_whitespace(v[j])
        invariant
            lo <= j <= hi <= v@.len(),
            skip_ws(v@.subrange(j as int, hi as int)) == skip_ws(v@.subrange(lo as int, hi as int)),
        decreases hi - j,
    {
        assert(v@.subrange(j as int, hi as int).drop_first() =~= v@.subrange(j + 1, hi as int));
        j = j + 1;
    }
    j
}

/// Index just past the run of non-white-space characters starting at `lo`.
pub fn word_end_at(v: &Vec<char>, lo: usize, hi: usize) -> (j: usize)
    requires
        lo <= hi <= v@.len(),
    ensures
        lo <= j <= hi,
        j - lo == word_len(v@.subrange(lo as int, hi as int)),
{
    let mut j = lo;
    while j < hi && !is_whitespace(v[j])
        invariant
            lo <= j <= hi <= v@.len(),
            word_len(v@.subrange(lo as int, hi as int)) == (j - lo) + word_len(v@.subrange(j as int, hi as int)),
        decreases hi - j,
    {
        assert(v@.subrange(j as int, hi as int).drop_first() =~= v@.subrange(j + 1, hi as int));
        j = j + 1;
    }
    j
}

/// Whether `p` occurs in `v` at position `i`.
fn matches_at(v: &Vec<char>, i: usize, hi: usize, p: &Vec<char>) -> (b: bool)
    requires
        i <= hi <= v@.len(),
    ensures
        b == (v@.subrange(i as int, hi as int).len() >= p@.len() && v@.subrange(i as int, hi as int).take(p@.len() as int) == p@),
{
    if hi - i < p.len() {
        return false;
    }
    let mut k: usize = 0;
    while k < p.len()
        invariant
            i + p@.len() <= hi <= v@.len(),
            k <= p@.len(),
            forall|m: int| 0 <= m < k ==> v@[i + m] == p@[m],
        decreases p@.len() - k,
    {
        if v[i + k] != p[k] {
            assert(v@.subrange(i as int, hi as int).take(p@.len() as int)[k as int] != p@[k as int]);
            return false;
        }
        k = k + 1;
    }
    assert(v@.subrange(i as int, hi as int).take(p@.len() as int) =~= p@);
    true
}

/// The first position of `p` in `v[lo..hi]`, counted from `lo`.
pub fn find_in(v: &Vec<char>, lo: usize, hi: usize, p: &Vec<char>) -> (r: Option<usize>)
    requires
        lo <= hi <= v@.len(),
    ensures
        match r {
            Some(i) => find(v@.subrange(lo as int, hi as int), p@) == Some(i as nat),
            None => find(v@.subrange(lo as int, hi as int), p@) is None,
        },
{
    let mut i = lo;
    loop
        invariant
            lo <= i <= hi <= v@.len(),
            find(v@.subrange(lo as int, hi as int), p@) == shift(find(v@.subrange(i as int, hi as int), p@), (i - lo) as nat),
        decreases hi - i,
    {
        let ghost t = v@.subrange(i as int, hi as int);
        if matches_at(v, i, hi, p) {
            return Some(i - lo);
        }
        if hi - i < p.len() || i == hi {
            return None;
        }
        assert(t.drop_first() =~= v@.subrange(i + 1, hi as int));
        i = i + 1;
    }
}

/// Copies `v[lo..hi]` into a string.
pub fn substring(v: &Vec<char>, lo: usize, hi: usize) -> (s: String)
    requires
        lo <= hi <= v@.len(),
    ensures
        s@ == v@.subrange(lo as int, hi as int),
{
    let mut s = String::new();
    let mut i = lo;
    while i < hi
        invariant
            lo <= i <= hi <= v@.len(),
            s@ == v@.subrange(lo as int, i as int),
        decreases hi - i,
    {
        push_char(&mut s, v[i]);
        assert(v@.subrange(lo as int, i + 1) =~= v@.subrange(lo as int, i as int).push(v@[i as int]));
        i = i + 1;
    }
    s
}


/// The position of the first line feed (the length when there is none).
pub open spec fn nl_index(s: Seq<char>) -> nat
    decreases s.len(),
{
    if s.len() == 0 {
        0
    } else if s[0] == '\n' {
        0
    } else {
        1 + nl_index(s.drop_first())
    }
}

proof fn lemma_nl_index_bound(s: Seq<char>)
    ensures
        nl_index(s) <= s.len(),
        nl_index(s) < s.len() ==> s[nl_index(s) as int] == '\n',
    decreases s.len(),
{
    if s.len() > 0 && s[0] != '\n' {
        lemma_nl_index_bound(s.drop_first());
    }
}

/// A line without its carriage return, if it ends with one.
pub open spec fn strip_cr(l: Seq<char>) -> Seq<char> {
    if l.len() > 0 && l.last() == '\r' {
        l.drop_last()
    } else {
        l
    }
}

/// The first line of a text, as `str::lines` yields it: up to the first line
/// feed, without a carriage return just before that line feed.
pub open spec fn first_line(s: Seq<char>) -> Seq<char> {
    if nl_index(s) < s.len() {
        strip_cr(s.take(nl_index(s) as int))
    } else {
        s
    }
}

/// What follows the first line and its line feed.
pub open spec fn rest_after_line(s: Seq<char>) -> Seq<char> {
    if nl_index(s) < s.len() {
        s.skip(nl_index(s) + 1int)
    } else {
        Seq::empty()
    }
}

/// The lines of a text, as `str::lines` yields them.
pub open spec fn lines(s: Seq<char>) -> Seq<Seq<char>>
    decreases s.len(),
{
    if s.len() == 0 {
        Seq::empty()
    } else {
        seq![first_line(s)] + lines(rest_after_line(s))
    }
}

/// Finds the end of the line starting at `lo`: returns the end of the line's
/// text (a carriage return before the line feed excluded) and where the next
/// line starts.
pub fn line_at(v: &Vec<char>, lo: usize) -> (r: (usize, usize))
    requires
        lo < v@.len(),
    ensures
        lo <= r.0 <= r.1 <= v@.len(),
        lo < r.1,
        v@.subrange(lo as int, r.0 as int) == first_line(v@.subrange(lo as int, v@.len() as int)),
        v@.subrange(r.1 as int, v@.len() as int) == rest_after_line(v@.subrange(lo as int, v@.len() as int)),
{
    let n = v.len();
    let ghost s = v@.subrange(lo as int, n as int);
    let mut j = lo;
    while j < n && v[j] != '\n'
        invariant
            lo <= j <= n == v@.len(),
            s == v@.subrange(lo as int, n as int),
            nl_index(s) == (j - lo) + nl_index(v@.subrange(j as int, n as int)),
        decreases n - j,
    {
        assert(v@.subrange(j as int, n as int).drop_first() =~= v@.subrange(j + 1, n as int));
        j = j + 1;
    }
    proof {
        lemma_nl_index_bound(s);
    }
    if j == n {
        assert(nl_index(s) == s.len());
        assert(rest_after_line(s) =~= v@.subrange(n as int, n as int));
        (n, n)
    } else {
        assert(nl_index(s) == j - lo);
        assert(s.take(nl_index(s) as int) =~= v@.subrange(lo as int, j as int));
        assert(s.skip(nl_index(s) + 1int) =~= v@.subrange(j + 1, n as int));
        if j > lo && v[j - 1] == '\r' {
            assert(v@.subrange(lo as int, j as int).drop_last() =~= v@.subrange(lo as int, j - 1));
            (j - 1, j + 1)
        } else {
            (j, j + 1)
        }
    }
}

} // verus!
