//! Character-sequence helpers shared by every module: joining, searching,
//! prefix tests, splitting, trimming and decimal rendering, each with the
//! mathematical definition it computes.

use vstd::prelude::*;

verus! {

// ---------------------------------------------------------------------
// Definitions
// ---------------------------------------------------------------------

/// `parts` joined with `sep` between consecutive parts (the empty sequence
/// when there are no parts).
pub open spec fn join(parts: Seq<Seq<char>>, sep: Seq<char>) -> Seq<char>
    decreases parts.len(),
{
    if parts.len() == 0 {
        Seq::empty()
    } else if parts.len() == 1 {
        parts[0]
    } else {
        join(parts.drop_last(), sep) + sep + parts.last()
    }
}

/// The parts concatenated in order.
pub open spec fn concat_all(parts: Seq<Seq<char>>) -> Seq<char>
    decreases parts.len(),
{
    if parts.len() == 0 {
        Seq::empty()
    } else {
        concat_all(parts.drop_last()) + parts.last()
    }
}

/// The views of a sequence of strings.
pub open spec fn views(v: Seq<String>) -> Seq<Seq<char>> {
    v.map_values(|x: String| x@)
}

/// The view of an optional string.
pub open spec fn opt_view(o: Option<String>) -> Option<Seq<char>> {
    match o {
        Some(s) => Some(s@),
        None => None,
    }
}

/// `p` occurs in `s` starting at position `i`.
pub open spec fn occurs_at(s: Seq<char>, p: Seq<char>, i: int) -> bool {
    0 <= i && i + p.len() <= s.len() && s.subrange(i, i + p.len()) == p
}

/// `p` occurs somewhere in `s` (the empty sequence occurs in every `s`).
pub open spec fn contains_sub(s: Seq<char>, p: Seq<char>) -> bool {
    exists|i: int| occurs_at(s, p, i)
}

/// `s` starts with `p`.
pub open spec fn has_prefix(s: Seq<char>, p: Seq<char>) -> bool {
    p.len() <= s.len() && s.subrange(0, p.len() as int) == p
}

/// Index of the first occurrence of `c` in `s`, or `s.len()` when absent.
pub open spec fn first_index(s: Seq<char>, c: char) -> nat
    decreases s.len(),
{
    if s.len() == 0 {
        0
    } else if s[0] == c {
        0
    } else {
        1 + first_index(s.subrange(1, s.len() as int), c)
    }
}

/// The pieces of `s` between occurrences of `c` (one piece when `c` does
/// not occur, so an empty `s` gives one empty piece).
pub open spec fn split_on(s: Seq<char>, c: char) -> Seq<Seq<char>>
    decreases s.len(),
{
    let i = first_index(s, c);
    if i >= s.len() {
        seq![s]
    } else {
        seq![s.subrange(0, i as int)] + split_on(s.subrange(i as int + 1, s.len() as int), c)
    }
}

/// The characters that `char::is_whitespace` accepts: the Unicode
/// `White_Space` property.
pub open spec fn is_white_space(c: char) -> bool {
    ||| ('\u{9}' <= c && c <= '\u{d}')
    ||| c == ' '
    ||| c == '\u{85}'
    ||| c == '\u{a0}'
    ||| c == '\u{1680}'
    ||| ('\u{2000}' <= c && c <= '\u{200a}')
    ||| c == '\u{2028}'
    ||| c == '\u{2029}'
    ||| c == '\u{202f}'
    ||| c == '\u{205f}'
    ||| c == '\u{3000}'
}

/// Which characters a trim removes from both ends.
pub enum TrimSet {
    /// Unicode white space, as `str::trim` removes.
    Whitespace,
    /// Spaces and dots.
    SpacesAndDots,
}

pub open spec fn trimmed_by(set: TrimSet, c: char) -> bool {
    match set {
        TrimSet::Whitespace => is_white_space(c),
        TrimSet::SpacesAndDots => c == ' ' || c == '.',
    }
}

/// `s` without its leading characters of `set`.
pub open spec fn trim_start(s: Seq<char>, set: TrimSet) -> Seq<char>
    decreases s.len(),
{
    if s.len() > 0 && trimmed_by(set, s[0]) {
        trim_start(s.subrange(1, s.len() as int), set)
    } else {
        s
    }
}

/// `s` without its trailing characters of `set`.
pub open spec fn trim_end(s: Seq<char>, set: TrimSet) -> Seq<char>
    decreases s.len(),
{
    if s.len() > 0 && trimmed_by(set, s.last()) {
        trim_end(s.drop_last(), set)
    } else {
        s
    }
}

/// `s` without leading and trailing characters of `set`.
pub open spec fn trim(s: Seq<char>, set: TrimSet) -> Seq<char> {
    trim_end(trim_start(s, set), set)
}

/// The decimal digit character for `d < 10`.
pub open spec fn digit_char(d: nat) -> char {
    if d == 0 {
        '0'
    } else if d == 1 {
        '1'
    } else if d == 2 {
        '2'
    } else if d == 3 {
        '3'
    } else if d == 4 {
        '4'
    } else if d == 5 {
        '5'
    } else if d == 6 {
        '6'
    } else if d == 7 {
        '7'
    } else if d == 8 {
        '8'
    } else {
        '9'
    }
}

/// The decimal rendering of `n`, without leading zeros.
pub open spec fn decimal(n: nat) -> Seq<char>
    decreases n,
{
    if n < 10 {
        seq![digit_char(n)]
    } else {
        decimal(n / 10).push(digit_char(n % 10))
    }
}

/// The views of a vector of character vectors.
pub open spec fn char_vec_views(v: Seq<Vec<char>>) -> Seq<Seq<char>> {
    v.map_values(|x: Vec<char>| x@)
}

// ---------------------------------------------------------------------
// Calls into std
// ---------------------------------------------------------------------

/// The characters of `s`, in order (`str::chars`).
#[verifier::external_body]
pub(crate) fn chars_of(s: &str) -> (r: Vec<char>)
    ensures
        r@ == s@,
{
    s.chars().collect()
}

/// Appends one character (`String::push`).
#[verifier::external_body]
pub(crate) fn push_char(s: &mut String, c: char)
    ensures
        final(s)@ == old(s)@.push(c),
{
    s.push(c)
}

/// Whether `c` is white space: the Unicode `White_Space` property, which
/// is what `char::is_whitespace` tests.
pub(crate) fn char_is_whitespace(c: char) -> (r: bool)
    ensures
        r == is_white_space(c),
{
    ('\u{9}' <= c && c <= '\u{d}') || c == ' ' || c == '\u{85}' || c == '\u{a0}' || c
        == '\u{1680}' || ('\u{2000}' <= c && c <= '\u{200a}') || c == '\u{2028}' || c
        == '\u{2029}' || c == '\u{202f}' || c == '\u{205f}' || c == '\u{3000}'
}

// ---------------------------------------------------------------------
// Executable helpers
// ---------------------------------------------------------------------

/// A string holding exactly the characters of `cs`.
pub fn string_of(cs: &Vec<char>) -> (r: String)
    ensures
        r@ == cs@,
{
    let mut r = String::new();
    let mut i: usize = 0;
    while i < cs.len()
        invariant
            0 <= i <= cs.len(),
            r@ == cs@.subrange(0, i as int),
        decreases cs.len() - i,
    {
        push_char(&mut r, cs[i]);
        i = i + 1;
        assert(r@ =~= cs@.subrange(0, i as int));
    }
    assert(cs@.subrange(0, cs@.len() as int) =~= cs@);
    r
}

/// A string holding the characters of `cs` from `from` up to `to`.
pub fn string_of_range(cs: &Vec<char>, from: usize, to: usize) -> (r: String)
    requires
        from <= to <= cs.len(),
    ensures
        r@ == cs@.subrange(from as int, to as int),
{
    let mut r = String::new();
    let mut i: usize = from;
    while i < to
        invariant
            from <= i <= to <= cs.len(),
            r@ == cs@.subrange(from as int, i as int),
        decreases to - i,
    {
        push_char(&mut r, cs[i]);
        i = i + 1;
        assert(r@ =~= cs@.subrange(from as int, i as int));
    }
    r
}

/// Appends the characters of `cs` to `s`.
pub(crate) fn push_chars(s: &mut String, cs: &Vec<char>)
    ensures
        final(s)@ == old(s)@ + cs@,
{
    let mut i: usize = 0;
    while i < cs.len()
        invariant
            0 <= i <= cs.len(),
            s@ == old(s)@ + cs@.subrange(0, i as int),
        decreases cs.len() - i,
    {
        push_char(s, cs[i]);
        i = i + 1;
        assert(s@ =~= old(s)@ + cs@.subrange(0, i as int));
    }
    assert(cs@.subrange(0, cs@.len() as int) =~= cs@);
}

/// A copy of a vector of strings.
pub fn clone_strings(v: &Vec<String>) -> (r: Vec<String>)
    ensures
        r@ == v@,
{
    let mut r: Vec<String> = Vec::new();
    let mut i: usize = 0;
    while i < v.len()
        invariant
            0 <= i <= v.len(),
            r@ == v@.subrange(0, i as int),
        decreases v.len() - i,
    {
        r.push(v[i].clone());
        i = i + 1;
        assert(r@ =~= v@.subrange(0, i as int));
    }
    assert(v@.subrange(0, v@.len() as int) =~= v@);
    r
}

/// A copy of an optional string.
pub fn clone_opt(o: &Option<String>) -> (r: Option<String>)
    ensures
        r == *o,
{
    match o {
        Some(s) => Some(s.clone()),
        None => None,
    }
}

/// A copy of `s` as an owned string.
pub fn owned(s: &str) -> (r: String)
    ensures
        r@ == s@,
{
    let cs = chars_of(s);
    string_of(&cs)
}

/// The concatenation of two strings.
pub fn concat2(a: &str, b: &str) -> (r: String)
    ensures
        r@ == a@ + b@,
{
    let mut r = owned(a);
    r.append(b);
    r
}

/// The concatenation of three strings.
pub fn concat3(a: &str, b: &str, c: &str) -> (r: String)
    ensures
        r@ == a@ + b@ + c@,
{
    let mut r = owned(a);
    r.append(b);
    r.append(c);
    r
}

/// Whether `p` occurs in `s` at position `i`.
pub fn occurs_at_exec(s: &Vec<char>, p: &Vec<char>, i: usize) -> (r: bool)
    ensures
        r == occurs_at(s@, p@, i as int),
{
    if i > s.len() || p.len() > s.len() - i {
        return false;
    }
    let mut k: usize = 0;
    while k < p.len()
        invariant
            i + p.len() <= s.len(),
            0 <= k <= p.len(),
            forall|j: int| 0 <= j < k ==> s@[i + j] == p@[j],
        decreases p.len() - k,
    {
        if s[i + k] != p[k] {
            assert(s@.subrange(i as int, i + p.len())[k as int] != p@[k as int]);
            return false;
        }
        k = k + 1;
    }
    assert(s@.subrange(i as int, i + p.len()) =~= p@);
    true
}

/// Whether `s` starts with `p`.
pub fn starts_with(s: &str, p: &str) -> (r: bool)
    ensures
        r == has_prefix(s@, p@),
{
    let sc = chars_of(s);
    let pc = chars_of(p);
    let r = occurs_at_exec(&sc, &pc, 0);
    assert(r == has_prefix(s@, p@));
    r
}

/// Whether `p` occurs in `s`, both given as characters.
pub fn contains_chars(s: &Vec<char>, p: &Vec<char>) -> (r: bool)
    ensures
        r == contains_sub(s@, p@),
{
    if p.len() > s.len() {
        assert forall|j: int| !occurs_at(s@, p@, j) by {}
        return false;
    }
    if p.len() == 0 {
        assert(s@.subrange(0, 0) =~= p@);
        assert(occurs_at(s@, p@, 0));
        return true;
    }
    let last = s.len() - p.len();
    let mut i: usize = 0;
    while i <= last
        invariant
            0 < p.len() <= s.len(),
            last == s.len() - p.len(),
            0 <= i <= last + 1,
            forall|j: int| 0 <= j < i ==> !occurs_at(s@, p@, j),
        decreases last + 1 - i,
    {
        if occurs_at_exec(s, p, i) {
            return true;
        }
        i = i + 1;
    }
    assert forall|j: int| !occurs_at(s@, p@, j) by {
        if j >= i {
            assert(j + p@.len() > s@.len());
        }
    }
    false
}

/// Whether `p` occurs in `s`.
pub fn contains(s: &str, p: &str) -> (r: bool)
    ensures
        r == contains_sub(s@, p@),
{
    let sc = chars_of(s);
    let pc = chars_of(p);
    contains_chars(&sc, &pc)
}

/// Whether two strings are equal.
pub fn str_eq(a: &str, b: &str) -> (r: bool)
    ensures
        r == (a@ == b@),
{
    let ac = chars_of(a);
    let bc = chars_of(b);
    if ac.len() != bc.len() {
        return false;
    }
    let r = occurs_at_exec(&ac, &bc, 0);
    assert(ac@ =~= ac@.subrange(0, bc@.len() as int));
    r
}

/// Joins the strings of `parts` with `sep` between consecutive ones.
pub fn join_strings(parts: &Vec<String>, sep: &str) -> (r: String)
    ensures
        r@ == join(views(parts@), sep@),
{
    let mut r = String::new();
    let mut i: usize = 0;
    while i < parts.len()
        invariant
            0 <= i <= parts.len(),
            r@ == join(views(parts@.subrange(0, i as int)), sep@),
        decreases parts.len() - i,
    {
        let ghost before = r@;
        if i > 0 {
            r.append(sep);
        }
        r.append(parts[i].as_str());
        proof {
            let v = views(parts@.subrange(0, i + 1));
            assert(v.drop_last() =~= views(parts@.subrange(0, i as int)));
            assert(v.last() == parts@[i as int]@);
            if i == 0 {
                assert(v.len() == 1);
                assert(r@ =~= join(v, sep@));
            }
        }
        i = i + 1;
    }
    assert(parts@.subrange(0, parts@.len() as int) =~= parts@);
    r
}

/// The decimal digit character of `d < 10`.
pub fn digit(d: usize) -> (c: char)
    requires
        d < 10,
    ensures
        c == digit_char(d as nat),
{
    if d == 0 {
        '0'
    } else if d == 1 {
        '1'
    } else if d == 2 {
        '2'
    } else if d == 3 {
        '3'
    } else if d == 4 {
        '4'
    } else if d == 5 {
        '5'
    } else if d == 6 {
        '6'
    } else if d == 7 {
        '7'
    } else if d == 8 {
        '8'
    } else {
        '9'
    }
}

/// The decimal rendering of `n`.
pub fn usize_to_string(n: usize) -> (r: String)
    ensures
        r@ == decimal(n as nat),
    decreases n,
{
    if n < 10 {
        let mut r = String::new();
        push_char(&mut r, digit(n));
        assert(r@ =~= decimal(n as nat));
        r
    } else {
        let mut r = usize_to_string(n / 10);
        push_char(&mut r, digit(n % 10));
        r
    }
}

/// Index of the first `c` at or after `start`, or `s.len()`.
pub fn find_char_from(s: &Vec<char>, start: usize, c: char) -> (j: usize)
    requires
        start <= s.len(),
    ensures
        j == start + first_index(s@.subrange(start as int, s.len() as int), c),
        start <= j <= s.len(),
        j < s.len() ==> s@[j as int] == c,
        forall|k: int| start <= k < j ==> s@[k] != c,
{
    let mut j = start;
    while j < s.len() && s[j] != c
        invariant
            start <= j <= s.len(),
            forall|k: int| start <= k < j ==> s@[k] != c,
        decreases s.len() - j,
    {
        j = j + 1;
    }
    proof {
        lemma_first_index(s@.subrange(start as int, s.len() as int), c, (j - start) as int);
    }
    j
}

/// When `s[..m]` holds no `c` and `m` is the end or a `c`, `m` is the first
/// index of `c`.
pub proof fn lemma_first_index(s: Seq<char>, c: char, m: int)
    requires
        0 <= m <= s.len(),
        forall|k: int| 0 <= k < m ==> s[k] != c,
        m < s.len() ==> s[m] == c,
    ensures
        first_index(s, c) == m,
    decreases s.len(),
{
    if s.len() > 0 && s[0] != c {
        let t = s.subrange(1, s.len() as int);
        assert forall|k: int| 0 <= k < m - 1 implies t[k] != c by {
            assert(t[k] == s[k + 1]);
        }
        if m - 1 < t.len() {
            assert(t[m - 1] == s[m]);
        }
        lemma_first_index(t, c, m - 1);
    }
}

/// The pieces of `s[start..]` between occurrences of `c`.
pub fn split_from(s: &Vec<char>, start: usize, c: char) -> (r: Vec<Vec<char>>)
    requires
        start <= s.len(),
    ensures
        char_vec_views(r@) == split_on(s@.subrange(start as int, s.len() as int), c),
    decreases s.len() - start,
{
    let ghost sub = s@.subrange(start as int, s.len() as int);
    let j = find_char_from(s, start, c);
    let mut piece: Vec<char> = Vec::new();
    let mut k = start;
    while k < j
        invariant
            start <= k <= j <= s.len(),
            piece@ == s@.subrange(start as int, k as int),
        decreases j - k,
    {
        piece.push(s[k]);
        k = k + 1;
        assert(piece@ =~= s@.subrange(start as int, k as int));
    }
    if j == s.len() {
        let mut r: Vec<Vec<char>> = Vec::new();
        r.push(piece);
        assert(sub =~= s@.subrange(start as int, j as int));
        assert(char_vec_views(r@) =~= seq![sub]);
        r
    } else {
        let rest = split_from(s, j + 1, c);
        let mut r: Vec<Vec<char>> = Vec::new();
        r.push(piece);
        let mut m: usize = 0;
        while m < rest.len()
            invariant
                0 <= m <= rest.len(),
                r@.len() == m + 1,
                r@[0]@ == s@.subrange(start as int, j as int),
                forall|q: int| 0 <= q < m ==> r@[q + 1]@ == rest@[q]@,
            decreases rest.len() - m,
        {
            r.push(rest[m].clone());
            m = m + 1;
        }
        proof {
            let fi = first_index(sub, c);
            assert(fi == j - start);
            assert(sub.subrange(0, fi as int) =~= s@.subrange(start as int, j as int));
            assert(sub.subrange(fi as int + 1, sub.len() as int) =~= s@.subrange(j + 1, s.len() as int));
            assert(char_vec_views(r@) =~= seq![s@.subrange(start as int, j as int)]
                + char_vec_views(rest@));
        }
        r
    }
}

/// The pieces of `s` between occurrences of `c`.
pub fn split_chars(s: &Vec<char>, c: char) -> (r: Vec<Vec<char>>)
    ensures
        char_vec_views(r@) == split_on(s@, c),
{
    let r = split_from(s, 0, c);
    assert(s@.subrange(0, s@.len() as int) =~= s@);
    r
}

/// Whether `c` belongs to `set`.
pub fn in_trim_set(set: &TrimSet, c: char) -> (r: bool)
    ensures
        r == trimmed_by(*set, c),
{
    match set {
        TrimSet::Whitespace => char_is_whitespace(c),
        TrimSet::SpacesAndDots => c == ' ' || c == '.',
    }
}

proof fn lemma_trim_start_step(s: Seq<char>, set: TrimSet, i: int)
    requires
        0 <= i < s.len(),
        trimmed_by(set, s[i]),
    ensures
        trim_start(s.subrange(i, s.len() as int), set) == trim_start(
            s.subrange(i + 1, s.len() as int),
            set,
        ),
{
    let t = s.subrange(i, s.len() as int);
    assert(t.subrange(1, t.len() as int) =~= s.subrange(i + 1, s.len() as int));
}

proof fn lemma_trim_end_step(s: Seq<char>, set: TrimSet, a: int, b: int)
    requires
        0 <= a < b <= s.len(),
        trimmed_by(set, s[b - 1]),
    ensures
        trim_end(s.subrange(a, b), set) == trim_end(s.subrange(a, b - 1), set),
{
    let t = s.subrange(a, b);
    assert(t.drop_last() =~= s.subrange(a, b - 1));
}

/// The bounds of `cs` once leading and trailing characters of `set` are
/// removed.
pub fn trim_range(cs: &Vec<char>, set: &TrimSet) -> (r: (usize, usize))
    ensures
        r.0 <= r.1 <= cs.len(),
        cs@.subrange(r.0 as int, r.1 as int) == trim(cs@, *set),
{
    let n = cs.len();
    let mut a: usize = 0;
    assert(cs@.subrange(0, n as int) =~= cs@);
    while a < n && in_trim_set(set, cs[a])
        invariant
            n == cs.len(),
            0 <= a <= n,
            trim_start(cs@, *set) == trim_start(cs@.subrange(a as int, n as int), *set),
        decreases n - a,
    {
        proof {
            lemma_trim_start_step(cs@, *set, a as int);
        }
        a = a + 1;
    }
    assert(trim_start(cs@.subrange(a as int, n as int), *set) == cs@.subrange(a as int, n as int));
    let mut b: usize = n;
    while b > a && in_trim_set(set, cs[b - 1])
        invariant
            n == cs.len(),
            0 <= a <= b <= n,
            trim(cs@, *set) == trim_end(cs@.subrange(a as int, b as int), *set),
        decreases b,
    {
        proof {
            lemma_trim_end_step(cs@, *set, a as int, b as int);
        }
        b = b - 1;
    }
    (a, b)
}

/// `cs` without leading and trailing characters of `set`.
pub fn trim_chars(cs: &Vec<char>, set: TrimSet) -> (r: Vec<char>)
    ensures
        r@ == trim(cs@, set),
{
    let (a, b) = trim_range(cs, &set);
    let mut r: Vec<char> = Vec::new();
    let mut k = a;
    while k < b
        invariant
            a <= k <= b <= cs.len(),
            r@ == cs@.subrange(a as int, k as int),
        decreases b - k,
    {
        r.push(cs[k]);
        k = k + 1;
        assert(r@ =~= cs@.subrange(a as int, k as int));
    }
    r
}

/// The part of `s` left once leading and trailing white space is removed
/// (`str::trim`).
pub fn trim_str(s: &str) -> (r: &str)
    ensures
        r@ == trim(s@, TrimSet::Whitespace),
{
    let cs = chars_of(s);
    let (a, b) = trim_range(&cs, &TrimSet::Whitespace);
    s.substring_char(a, b)
}

/// `s` without leading and trailing white space (`str::trim`).
pub fn trim_whitespace(s: &str) -> (r: String)
    ensures
        r@ == trim(s@, TrimSet::Whitespace),
{
    let cs = chars_of(s);
    let t = trim_chars(&cs, TrimSet::Whitespace);
    string_of(&t)
}

// ---------------------------------------------------------------------
// Length facts
// ---------------------------------------------------------------------

/// A trimmed sequence is no longer than its input.
pub proof fn lemma_trim_len(s: Seq<char>, set: TrimSet)
    ensures
        trim(s, set).len() <= s.len(),
{
    lemma_trim_start_len(s, set);
    lemma_trim_end_len(trim_start(s, set), set);
}

proof fn lemma_trim_start_len(s: Seq<char>, set: TrimSet)
    ensures
        trim_start(s, set).len() <= s.len(),
    decreases s.len(),
{
    if s.len() > 0 && trimmed_by(set, s[0]) {
        lemma_trim_start_len(s.subrange(1, s.len() as int), set);
    }
}

proof fn lemma_trim_end_len(s: Seq<char>, set: TrimSet)
    ensures
        trim_end(s, set).len() <= s.len(),
    decreases s.len(),
{
    if s.len() > 0 && trimmed_by(set, s.last()) {
        lemma_trim_end_len(s.drop_last(), set);
    }
}

/// `first_index` never exceeds the length.
pub proof fn lemma_first_index_bound(s: Seq<char>, c: char)
    ensures
        first_index(s, c) <= s.len(),
        first_index(s, c) < s.len() ==> s[first_index(s, c) as int] == c,
    decreases s.len(),
{
    if s.len() > 0 && s[0] != c {
        lemma_first_index_bound(s.subrange(1, s.len() as int), c);
    }
}

/// No piece of a split is longer than the split sequence.
pub proof fn lemma_split_pieces_len(s: Seq<char>, c: char)
    ensures
        split_on(s, c).len() >= 1,
        forall|i: int| 0 <= i < split_on(s, c).len() ==> #[trigger] split_on(s, c)[i].len() <= s.len(),
    decreases s.len(),
{
    lemma_first_index_bound(s, c);
    let i = first_index(s, c);
    if i < s.len() {
        let rest = s.subrange(i as int + 1, s.len() as int);
        lemma_split_pieces_len(rest, c);
        let r = split_on(s, c);
        assert forall|j: int| 0 <= j < r.len() implies #[trigger] r[j].len() <= s.len() by {
            if j > 0 {
                assert(r[j] == split_on(rest, c)[j - 1]);
            }
        }
    }
}

} // verus!
