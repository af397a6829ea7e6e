//! Identifier casing transforms for language backends.
//! Spec authors write snake_case; backends convert to each
//! language's idiomatic casing convention.

use vstd::prelude::*;
use crate::text::{first_index, lemma_first_index_bound, split_on, chars_of, split_chars, char_vec_views, push_char, push_chars};

verus! {

/// What `char::to_uppercase` yields for `c`, as a sequence of characters.
pub uninterp spec fn char_uppercase(c: char) -> Seq<char>;

/// The ASCII uppercase of `c`: `a`..`z` become `A`..`Z`, every other
/// character stays.
pub open spec fn ascii_upper(c: char) -> char {
    if 'a' <= c && c <= 'z' {
        ((c as u32) - 32) as char
    } else {
        c
    }
}

/// `c` is an ASCII character.
pub open spec fn is_ascii_char(c: char) -> bool {
    (c as u32) < 128
}

/// The Unicode uppercase mapping of `c` (`char::to_uppercase`), as a string.
/// Stated: the result is a function of `c`; on ASCII it is the ASCII
/// uppercase. The mapping of other characters is left to Unicode's tables
/// and not stated.
#[verifier::external_body]
pub(crate) fn uppercase_of(c: char) -> (r: String)
    ensures
        r@ == char_uppercase(c),
        is_ascii_char(c) ==> r@ == seq![ascii_upper(c)],
{
    c.to_uppercase().to_string()
}

/// The ASCII uppercase of `c`, as `char::to_ascii_uppercase` gives it.
pub(crate) fn to_ascii_uppercase(c: char) -> (r: char)
    ensures
        r == ascii_upper(c),
{
    if 'a' <= c && c <= 'z' {
        let n: u32 = c as u32;
        let b: u8 = c as u8;
        assert(b == n) by (bit_vector)
            requires
                97 <= n <= 122,
                b == n as u8;
        ((b - 32) as char)
    } else {
        c
    }
}

/// The uppercase of one character: the ASCII uppercase for an ASCII
/// character, Unicode's mapping otherwise.
pub open spec fn upper_char(c: char) -> Seq<char> {
    if is_ascii_char(c) {
        seq![ascii_upper(c)]
    } else {
        char_uppercase(c)
    }
}

/// A piece with its first character uppercased.
pub open spec fn capitalize(p: Seq<char>) -> Seq<char> {
    if p.len() == 0 {
        Seq::empty()
    } else {
        upper_char(p[0]) + p.subrange(1, p.len() as int)
    }
}

/// The capitalized pieces, concatenated.
pub open spec fn capitalize_all(parts: Seq<Seq<char>>) -> Seq<char>
    decreases parts.len(),
{
    if parts.len() == 0 {
        Seq::empty()
    } else {
        capitalize_all(parts.drop_last()) + capitalize(parts.last())
    }
}

/// PascalCase: every non-empty piece between underscores, capitalized and
/// concatenated.
pub open spec fn pascal_case(s: Seq<char>) -> Seq<char> {
    capitalize_all(split_on(s, '_'))
}

/// camelCase of `s`, where `upper` tells whether an underscore came just
/// before: underscores vanish and the character after one becomes ASCII
/// uppercase.
pub open spec fn camel_from(s: Seq<char>, upper: bool) -> Seq<char>
    decreases s.len(),
{
    if s.len() == 0 {
        Seq::empty()
    } else if s[0] == '_' {
        camel_from(s.subrange(1, s.len() as int), true)
    } else if upper {
        seq![ascii_upper(s[0])] + camel_from(s.subrange(1, s.len() as int), false)
    } else {
        seq![s[0]] + camel_from(s.subrange(1, s.len() as int), false)
    }
}

/// camelCase of `s`.
pub open spec fn camel_case(s: Seq<char>) -> Seq<char> {
    camel_from(s, false)
}

/// Convert snake_case to PascalCase.
/// `is_empty` → `IsEmpty`, `new` → `New`
pub fn to_pascal_case(s: &str) -> (r: String)
    ensures
        r@ == pascal_case(s@),
{
    let cs = chars_of(s);
    let parts = split_chars(&cs, '_');
    let ghost ps = char_vec_views(parts@);
    let mut r = String::new();
    let mut i: usize = 0;
    while i < parts.len()
        invariant
            0 <= i <= parts.len(),
            ps == char_vec_views(parts@),
            r@ == capitalize_all(ps.subrange(0, i as int)),
        decreases parts.len() - i,
    {
        let p = &parts[i];
        if p.len() > 0 {
            let first = uppercase_of(p[0]);
            r.append(first.as_str());
            let mut k: usize = 1;
            while k < p.len()
                invariant
                    1 <= k <= p.len(),
                    r@ == capitalize_all(ps.subrange(0, i as int)) + upper_char(p@[0])
                        + p@.subrange(1, k as int),
                decreases p.len() - k,
            {
                push_char(&mut r, p[k]);
                k = k + 1;
                assert(p@.subrange(1, k as int) =~= p@.subrange(1, k - 1).push(p@[k - 1]));
            }
        }
        proof {
            let sub = ps.subrange(0, i + 1);
            assert(sub.drop_last() =~= ps.subrange(0, i as int));
            assert(sub.last() == p@);
            assert(r@ =~= capitalize_all(sub));
        }
        i = i + 1;
    }
    assert(ps.subrange(0, ps.len() as int) =~= ps);
    r
}

/// Convert snake_case to camelCase.
/// `is_empty` → `isEmpty`, `pop_front` → `popFront`
pub fn to_camel_case(s: &str) -> (r: String)
    ensures
        r@ == camel_case(s@),
{
    let cs = chars_of(s);
    let mut result = String::new();
    let mut upper = false;
    let mut i: usize = 0;
    assert(cs@.subrange(0, cs.len() as int) =~= cs@);
    assert(result@ + camel_from(cs@, false) =~= camel_from(cs@, false));
    while i < cs.len()
        invariant
            0 <= i <= cs.len(),
            camel_case(cs@) == result@ + camel_from(cs@.subrange(i as int, cs.len() as int), upper),
        decreases cs.len() - i,
    {
        let ghost rest = cs@.subrange(i as int, cs.len() as int);
        assert(rest.subrange(1, rest.len() as int) =~= cs@.subrange(i + 1, cs.len() as int));
        let ch = cs[i];
        if ch == '_' {
            upper = true;
        } else if upper {
            push_char(&mut result, to_ascii_uppercase(ch));
            upper = false;
        } else {
            push_char(&mut result, ch);
        }
        i = i + 1;
    }
    assert(cs@.subrange(cs.len() as int, cs.len() as int) =~= Seq::<char>::empty());
    assert(result@ + Seq::<char>::empty() =~= result@);
    result
}

// ---------------------------------------------------------------------
// Laws
// ---------------------------------------------------------------------

proof fn lemma_camel_from_no_underscore(s: Seq<char>, upper: bool)
    ensures
        !camel_from(s, upper).contains('_'),
    decreases s.len(),
{
    if s.len() > 0 {
        let rest = s.subrange(1, s.len() as int);
        lemma_camel_from_no_underscore(rest, true);
        lemma_camel_from_no_underscore(rest, false);
        if s[0] != '_' {
            let c = if upper { ascii_upper(s[0]) } else { s[0] };
            assert(c != '_');
            let t = camel_from(rest, false);
            assert forall|j: int| 0 <= j < t.len() + 1 implies (seq![c] + t)[j] != '_' by {
                if j > 0 {
                    assert((seq![c] + t)[j] == t[j - 1]);
                }
            }
        }
    }
}

proof fn lemma_camel_from_plain(s: Seq<char>)
    requires
        !s.contains('_'),
    ensures
        camel_from(s, false) == s,
    decreases s.len(),
{
    if s.len() > 0 {
        let rest = s.subrange(1, s.len() as int);
        assert(s[0] != '_');
        assert(!rest.contains('_')) by {
            if rest.contains('_') {
                let j = choose|j: int| 0 <= j < rest.len() && rest[j] == '_';
                assert(s[j + 1] == '_');
            }
        }
        lemma_camel_from_plain(rest);
        assert(seq![s[0]] + rest =~= s);
    }
}

/// camelCase output never holds an underscore.
pub proof fn law_camel_case_has_no_underscore(s: Seq<char>)
    ensures
        !camel_case(s).contains('_'),
{
    lemma_camel_from_no_underscore(s, false);
}

/// camelCase is idempotent: converting its output again changes nothing.
pub proof fn law_camel_case_idempotent(s: Seq<char>)
    ensures
        camel_case(camel_case(s)) == camel_case(s),
{
    lemma_camel_from_no_underscore(s, false);
    lemma_camel_from_plain(camel_case(s));
}

/// `x` with its first character ASCII-uppercased.
pub open spec fn ascii_capitalized(x: Seq<char>) -> Seq<char> {
    if x.len() == 0 {
        x
    } else {
        seq![ascii_upper(x[0])] + x.subrange(1, x.len() as int)
    }
}

proof fn lemma_first_index_prefix(s: Seq<char>, c: char)
    ensures
        forall|k: int| 0 <= k < first_index(s, c) && k < s.len() ==> s[k] != c,
    decreases s.len(),
{
    if s.len() > 0 && s[0] != c {
        let t = s.subrange(1, s.len() as int);
        lemma_first_index_prefix(t, c);
        assert forall|k: int| 0 <= k < first_index(s, c) && k < s.len() implies s[k] != c by {
            if k > 0 {
                assert(s[k] == t[k - 1]);
            }
        }
    }
}

proof fn lemma_capitalize_all_cons(p: Seq<char>, rest: Seq<Seq<char>>)
    ensures
        capitalize_all(seq![p] + rest) == capitalize(p) + capitalize_all(rest),
    decreases rest.len(),
{
    let q = seq![p] + rest;
    if rest.len() == 0 {
        assert(q =~= seq![p]);
        assert(q.drop_last() =~= Seq::<Seq<char>>::empty());
        assert(q.last() == p);
        assert(capitalize_all(q) == capitalize_all(q.drop_last()) + capitalize(q.last()));
        assert(capitalize_all(q) =~= capitalize(p));
        assert(capitalize(p) + capitalize_all(rest) =~= capitalize(p));
    } else {
        assert(q.drop_last() =~= seq![p] + rest.drop_last());
        assert(q.last() == rest.last());
        lemma_capitalize_all_cons(p, rest.drop_last());
        assert(capitalize_all(q) == capitalize_all(q.drop_last()) + capitalize(q.last()));
        assert(capitalize_all(rest) == capitalize_all(rest.drop_last()) + capitalize(rest.last()));
        assert(capitalize_all(q) =~= capitalize(p) + capitalize_all(rest));
    }
}

proof fn lemma_camel_split(p: Seq<char>, t: Seq<char>, u: bool)
    requires
        !p.contains('_'),
    ensures
        camel_from(p + seq!['_'] + t, u) == camel_from(p, u) + camel_from(t, true),
    decreases p.len(),
{
    let s = p + seq!['_'] + t;
    if p.len() == 0 {
        assert(s.subrange(1, s.len() as int) =~= t);
        assert(camel_from(p, u) + camel_from(t, true) =~= camel_from(t, true));
    } else {
        let q = p.subrange(1, p.len() as int);
        assert(!q.contains('_')) by {
            if q.contains('_') {
                let j = choose|j: int| 0 <= j < q.len() && q[j] == '_';
                assert(p[j + 1] == '_');
            }
        }
        assert(p[0] != '_');
        assert(s[0] == p[0]);
        assert(s.subrange(1, s.len() as int) =~= q + seq!['_'] + t);
        lemma_camel_split(q, t, false);
        let c = if u { ascii_upper(p[0]) } else { p[0] };
        assert(camel_from(s, u) =~= seq![c] + camel_from(q, false) + camel_from(t, true));
    }
}

proof fn lemma_camel_plain_upper(p: Seq<char>)
    requires
        !p.contains('_'),
        all_ascii(p),
    ensures
        camel_from(p, true) == capitalize(p),
{
    if p.len() > 0 {
        let q = p.subrange(1, p.len() as int);
        assert(!q.contains('_')) by {
            if q.contains('_') {
                let j = choose|j: int| 0 <= j < q.len() && q[j] == '_';
                assert(p[j + 1] == '_');
            }
        }
        assert(p[0] != '_');
        assert(is_ascii_char(p[0]));
        lemma_camel_from_plain(q);
    }
}

proof fn lemma_pascal_is_camel_upper(s: Seq<char>)
    requires
        all_ascii(s),
    ensures
        pascal_case(s) == camel_from(s, true),
    decreases s.len(),
{
    let i = first_index(s, '_');
    lemma_first_index_bound(s, '_');
    lemma_first_index_prefix(s, '_');
    if i >= s.len() {
        assert(!s.contains('_'));
        lemma_capitalize_all_cons(s, Seq::empty());
        assert(seq![s] + Seq::<Seq<char>>::empty() =~= seq![s]);
        lemma_camel_plain_upper(s);
    } else {
        let p = s.subrange(0, i as int);
        let t = s.subrange(i as int + 1, s.len() as int);
        assert(!p.contains('_')) by {
            if p.contains('_') {
                let j = choose|j: int| 0 <= j < p.len() && p[j] == '_';
                assert(s[j] == '_');
            }
        }
        assert(all_ascii(p)) by {
            assert forall|k: int| 0 <= k < p.len() implies is_ascii_char(#[trigger] p[k]) by {
                assert(p[k] == s[k]);
            }
        }
        assert(all_ascii(t)) by {
            assert forall|k: int| 0 <= k < t.len() implies is_ascii_char(#[trigger] t[k]) by {
                assert(t[k] == s[k + i + 1]);
            }
        }
        assert(s =~= p + seq!['_'] + t);
        lemma_pascal_is_camel_upper(t);
        lemma_capitalize_all_cons(p, split_on(t, '_'));
        lemma_camel_split(p, t, true);
        lemma_camel_plain_upper(p);
    }
}

proof fn lemma_cap_camel(s: Seq<char>, u: bool)
    ensures
        ascii_capitalized(camel_from(s, u)) == camel_from(s, true),
    decreases s.len(),
{
    if s.len() > 0 {
        let rest = s.subrange(1, s.len() as int);
        if s[0] == '_' {
            lemma_cap_camel(rest, true);
        } else {
            let x = camel_from(rest, false);
            let c = if u { ascii_upper(s[0]) } else { s[0] };
            assert(ascii_upper(ascii_upper(s[0])) == ascii_upper(s[0]));
            let v = seq![c] + x;
            assert(v.subrange(1, v.len() as int) =~= x);
            assert(ascii_capitalized(v) =~= seq![ascii_upper(s[0])] + x);
        }
    }
}

/// On ASCII names, PascalCase holds no underscore and is the camelCase
/// with its first character uppercased (`foo_bar`: `fooBar`, `FooBar`).
pub proof fn law_pascal_case_is_capitalized_camel_case(s: Seq<char>)
    requires
        all_ascii(s),
    ensures
        !pascal_case(s).contains('_'),
        pascal_case(s) == ascii_capitalized(camel_case(s)),
{
    lemma_pascal_is_camel_upper(s);
    lemma_camel_from_no_underscore(s, true);
    lemma_cap_camel(s, false);
}

// ---------------------------------------------------------------------
// Lowercase and alphanumeric characters
// ---------------------------------------------------------------------

/// What `str::to_lowercase` yields for `s`.
pub uninterp spec fn unicode_lowercase(s: Seq<char>) -> Seq<char>;

/// Whether `char::is_alphanumeric` holds of `c`.
pub uninterp spec fn unicode_alphanumeric(c: char) -> bool;

/// The ASCII lowercase of `c`: `A`..`Z` become `a`..`z`, every other
/// character stays.
pub open spec fn ascii_lower(c: char) -> char {
    if 'A' <= c && c <= 'Z' {
        ((c as u32) + 32) as char
    } else {
        c
    }
}

/// Every character of `s` is ASCII.
pub open spec fn all_ascii(s: Seq<char>) -> bool {
    forall|i: int| 0 <= i < s.len() ==> is_ascii_char(#[trigger] s[i])
}

/// The Unicode lowercase of `s` (`str::to_lowercase`).
/// Stated: the result is a function of `s`; on an ASCII string it is the
/// ASCII lowercase of each character. Unicode's mapping of other characters
/// is not stated.
#[verifier::external_body]
pub(crate) fn to_lowercase(s: &str) -> (r: String)
    ensures
        r@ == unicode_lowercase(s@),
        all_ascii(s@) ==> r@ == s@.map_values(|c: char| ascii_lower(c)),
{
    s.to_lowercase()
}

/// Whether `c` is alphabetic or numeric (`char::is_alphanumeric`).
/// Stated: the result is a function of `c`; on ASCII it holds exactly of
/// letters and digits. Unicode's classes for other characters are not
/// stated.
#[verifier::external_body]
pub(crate) fn is_alphanumeric(c: char) -> (r: bool)
    ensures
        r == unicode_alphanumeric(c),
        is_ascii_char(c) ==> (r <==> (('a' <= c && c <= 'z') || ('A' <= c && c <= 'Z') || ('0'
            <= c && c <= '9'))),
{
    c.is_alphanumeric()
}

} // verus!
