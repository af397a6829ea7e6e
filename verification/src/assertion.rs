//! Recognition of `assert!(expr)` and `assert_eq!(a, b)` test assertions.

use vstd::prelude::*;
use crate::text::{has_prefix, trim, TrimSet, chars_of, starts_with, trim_str};

verus! {

/// The view of an optional string slice.
pub open spec fn opt_str_view(o: Option<&str>) -> Option<Seq<char>> {
    match o {
        Some(s) => Some(s@),
        None => None,
    }
}

/// The view of an optional pair of string slices.
pub open spec fn opt_pair_view(o: Option<(&str, &str)>) -> Option<(Seq<char>, Seq<char>)> {
    match o {
        Some((a, b)) => Some((a@, b@)),
        None => None,
    }
}

/// `s` with `prefix` removed from its start and `suffix` from what is left,
/// when both are there.
pub open spec fn strip_both(s: Seq<char>, prefix: Seq<char>, suffix: char) -> Option<Seq<char>> {
    if has_prefix(s, prefix) && s.len() > prefix.len() && s.last() == suffix {
        Some(s.subrange(prefix.len() as int, s.len() - 1))
    } else {
        None
    }
}

/// The expression inside `assert!(...)`.
pub open spec fn assert_bang_inner(s: Seq<char>) -> Option<Seq<char>> {
    strip_both(s, "assert!("@, ')')
}

/// Nesting depths of `()`, `[]` and `{}`; a closing bracket never takes a
/// depth below zero.
pub struct Depths {
    pub paren: nat,
    pub bracket: nat,
    pub brace: nat,
}

pub open spec fn dec(n: nat) -> nat {
    if n == 0 {
        0
    } else {
        (n - 1) as nat
    }
}

pub open spec fn depth_step(d: Depths, c: char) -> Depths {
    if c == '(' {
        Depths { paren: d.paren + 1, ..d }
    } else if c == ')' {
        Depths { paren: dec(d.paren), ..d }
    } else if c == '[' {
        Depths { bracket: d.bracket + 1, ..d }
    } else if c == ']' {
        Depths { bracket: dec(d.bracket), ..d }
    } else if c == '{' {
        Depths { brace: d.brace + 1, ..d }
    } else if c == '}' {
        Depths { brace: dec(d.brace), ..d }
    } else {
        d
    }
}

/// The depths after reading all of `s`.
pub open spec fn depths(s: Seq<char>) -> Depths
    decreases s.len(),
{
    if s.len() == 0 {
        Depths { paren: 0, bracket: 0, brace: 0 }
    } else {
        depth_step(depths(s.drop_last()), s.last())
    }
}

/// `s[k]` is a comma outside every bracket.
pub open spec fn is_top_comma(s: Seq<char>, k: int) -> bool {
    &&& 0 <= k < s.len()
    &&& s[k] == ','
    &&& depths(s.subrange(0, k)) == (Depths { paren: 0, bracket: 0, brace: 0 })
}

/// `s[k]` is the first comma outside every bracket.
pub open spec fn is_first_top_comma(s: Seq<char>, k: int) -> bool {
    is_top_comma(s, k) && forall|j: int| 0 <= j < k ==> !is_top_comma(s, j)
}

/// The two sides of the first comma outside every bracket.
pub open spec fn split_args(s: Seq<char>) -> Option<(Seq<char>, Seq<char>)> {
    if exists|k: int| is_first_top_comma(s, k) {
        let k = choose|k: int| is_first_top_comma(s, k);
        Some((s.subrange(0, k), s.subrange(k + 1, s.len() as int)))
    } else {
        None
    }
}

/// The two trimmed arguments of `assert_eq!(a, b)`.
pub open spec fn assert_eq_args(s: Seq<char>) -> Option<(Seq<char>, Seq<char>)> {
    match strip_both(s, "assert_eq!("@, ')') {
        Some(inner) => match split_args(inner) {
            Some((l, r)) => Some((trim(l, TrimSet::Whitespace), trim(r, TrimSet::Whitespace))),
            None => None,
        },
        None => None,
    }
}

/// `prefix`, then what follows it up to a final `suffix`, when `s` is so built.
fn strip_prefix_and_suffix<'a>(s: &'a str, prefix: &str, suffix: char) -> (r: Option<&'a str>)
    ensures
        opt_str_view(r) == strip_both(s@, prefix@, suffix),
{
    if !starts_with(s, prefix) {
        return None;
    }
    let cs = chars_of(s);
    let pc = chars_of(prefix);
    let n = cs.len();
    if n <= pc.len() || cs[n - 1] != suffix {
        return None;
    }
    Some(s.substring_char(pc.len(), n - 1))
}

/// Extract inner expression from `assert!(expr)`.
pub fn parse_assert_bang(s: &str) -> (r: Option<&str>)
    ensures
        opt_str_view(r) == assert_bang_inner(s@),
{
    strip_prefix_and_suffix(s, "assert!(", ')')
}

proof fn lemma_first_top_comma_unique(s: Seq<char>, k: int)
    requires
        is_first_top_comma(s, k),
    ensures
        (choose|j: int| is_first_top_comma(s, j)) == k,
{
    let j = choose|j: int| is_first_top_comma(s, j);
    assert(is_first_top_comma(s, j));
    if j < k {
        assert(!is_top_comma(s, j));
    } else if k < j {
        assert(!is_top_comma(s, k));
    }
}

/// Split `assert_eq!` arguments at the top-level comma (depth 0).
pub fn split_assert_eq_args(s: &str) -> (r: Option<(&str, &str)>)
    ensures
        opt_pair_view(r) == split_args(s@),
{
    let cs = chars_of(s);
    let mut depth_paren: usize = 0;
    let mut depth_bracket: usize = 0;
    let mut depth_brace: usize = 0;
    let mut i: usize = 0;
    while i < cs.len()
        invariant
            0 <= i <= cs.len(),
            cs@ == s@,
            depth_paren <= i,
            depth_bracket <= i,
            depth_brace <= i,
            depths(cs@.subrange(0, i as int)) == (Depths {
                paren: depth_paren as nat,
                bracket: depth_bracket as nat,
                brace: depth_brace as nat,
            }),
            forall|j: int| 0 <= j < i ==> !is_top_comma(cs@, j),
        decreases cs.len() - i,
    {
        let ch = cs[i];
        proof {
            assert(cs@.subrange(0, i + 1).drop_last() =~= cs@.subrange(0, i as int));
        }
        if ch == '(' {
            depth_paren = depth_paren + 1;
        } else if ch == ')' {
            depth_paren = if depth_paren > 0 { depth_paren - 1 } else { 0 };
        } else if ch == '[' {
            depth_bracket = depth_bracket + 1;
        } else if ch == ']' {
            depth_bracket = if depth_bracket > 0 { depth_bracket - 1 } else { 0 };
        } else if ch == '{' {
            depth_brace = depth_brace + 1;
        } else if ch == '}' {
            depth_brace = if depth_brace > 0 { depth_brace - 1 } else { 0 };
        } else if ch == ',' && depth_paren == 0 && depth_bracket == 0 && depth_brace == 0 {
            proof {
                assert(is_top_comma(cs@, i as int));
                assert(is_first_top_comma(cs@, i as int));
                lemma_first_top_comma_unique(cs@, i as int);
            }
            let left = s.substring_char(0, i);
            let right = s.substring_char(i + 1, cs.len());
            return Some((left, right));
        }
        i = i + 1;
    }
    assert forall|k: int| !is_first_top_comma(cs@, k) by {
        if 0 <= k < cs@.len() {
            assert(!is_top_comma(cs@, k));
        }
    }
    None
}

/// Extract left and right from `assert_eq!(a, b)`.
pub fn parse_assert_eq(s: &str) -> (r: Option<(&str, &str)>)
    ensures
        opt_pair_view(r) == assert_eq_args(s@),
{
    let inner = match strip_prefix_and_suffix(s, "assert_eq!(", ')') {
        Some(inner) => inner,
        None => return None,
    };
    let (l, r) = match split_assert_eq_args(inner) {
        Some(p) => p,
        None => return None,
    };
    Some((trim_str(l), trim_str(r)))
}

// ---------------------------------------------------------------------
// Laws
// ---------------------------------------------------------------------

/// Wrapping any expression in `assert!(` and `)` and parsing it back gives
/// the expression.
pub proof fn law_assert_bang_roundtrip(e: Seq<char>)
    ensures
        assert_bang_inner("assert!("@ + e + seq![')']) == Some(e),
{
    let p = "assert!("@;
    let s = p + e + seq![')'];
    assert(s.subrange(0, p.len() as int) =~= p);
    assert(s.subrange(p.len() as int, s.len() - 1) =~= e);
}

/// When the arguments split, the two sides with the comma between them
/// give back the whole text, and the left side holds no comma outside
/// brackets.
pub proof fn law_split_args_reassembles(s: Seq<char>)
    ensures
        split_args(s) matches Some((l, r)) ==> {
            &&& l + seq![','] + r == s
            &&& forall|j: int| 0 <= j < l.len() ==> !is_top_comma(s, j)
        },
{
    if let Some((l, r)) = split_args(s) {
        let k = choose|k: int| is_first_top_comma(s, k);
        assert(is_first_top_comma(s, k));
        assert(l + seq![','] + r =~= s);
    }
}

} // verus!
