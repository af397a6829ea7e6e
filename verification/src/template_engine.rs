//! Checks and file names shared by the template-driven backends.

use vstd::prelude::*;
use crate::ast::{Spec, SpecModel, StructDefModel, MethodDefModel};
use crate::error::BackendError;
use crate::text::{
    chars_of, trim, trim_start, trim_end, trimmed_by, TrimSet, trim_chars, string_of, str_eq,
    owned, push_char,
};

verus! {

// ---------------------------------------------------------------------
// Unique names
// ---------------------------------------------------------------------

/// `names[j]` repeats an earlier name.
pub open spec fn is_dup(names: Seq<Seq<char>>, j: int) -> bool {
    0 <= j < names.len() && exists|i: int| 0 <= i < j && names[i] == names[j]
}

/// `names[j]` is the first name that repeats an earlier one.
pub open spec fn is_first_dup(names: Seq<Seq<char>>, j: int) -> bool {
    is_dup(names, j) && forall|k: int| 0 <= k < j ==> !is_dup(names, k)
}

/// The first repeated name, if any.
pub open spec fn first_dup(names: Seq<Seq<char>>) -> Option<Seq<char>> {
    if exists|j: int| is_first_dup(names, j) {
        Some(names[choose|j: int| is_first_dup(names, j)])
    } else {
        None
    }
}

pub open spec fn struct_names(s: SpecModel) -> Seq<Seq<char>> {
    s.structs.map_values(|d: StructDefModel| d.name)
}

pub open spec fn method_names(s: SpecModel) -> Seq<Seq<char>> {
    s.methods.map_values(|m: MethodDefModel| m.name)
}

/// The message of the error that a spec with a repeated struct name, or
/// else a repeated method name, gets; `None` when all names are unique.
pub open spec fn duplicate_name_message(s: SpecModel) -> Option<Seq<char>> {
    match first_dup(struct_names(s)) {
        Some(n) => Some("Duplicate struct name: '"@ + n + "'"@),
        None => match first_dup(method_names(s)) {
            Some(n) => Some("Duplicate method name: '"@ + n + "'"@),
            None => None,
        },
    }
}

proof fn lemma_first_dup_is(names: Seq<Seq<char>>, j: int)
    requires
        is_first_dup(names, j),
    ensures
        first_dup(names) == Some(names[j]),
{
    let c = choose|k: int| is_first_dup(names, k);
    assert(is_first_dup(names, c));
    if c < j {
        assert(!is_dup(names, c));
    } else if j < c {
        assert(!is_dup(names, j));
    }
}

/// The index of the first repeated name among `names`, if any.
fn find_first_dup(names: &Vec<&str>) -> (r: Option<usize>)
    ensures
        match r {
            Some(j) => j < names.len() && is_first_dup(names@.map_values(|n: &str| n@), j as int),
            None => first_dup(names@.map_values(|n: &str| n@)) is None,
        },
{
    let ghost ns = names@.map_values(|n: &str| n@);
    let mut j: usize = 0;
    while j < names.len()
        invariant
            0 <= j <= names.len(),
            ns == names@.map_values(|n: &str| n@),
            forall|k: int| 0 <= k < j ==> !is_dup(ns, k),
        decreases names.len() - j,
    {
        let mut i: usize = 0;
        while i < j
            invariant
                0 <= i <= j < names.len(),
                ns == names@.map_values(|n: &str| n@),
                forall|k: int| 0 <= k < j ==> !is_dup(ns, k),
                forall|k: int| 0 <= k < i ==> ns[k] != ns[j as int],
            decreases j - i,
        {
            if str_eq(names[i], names[j]) {
                assert(ns[i as int] == ns[j as int]);
                assert(is_dup(ns, j as int));
                return Some(j);
            }
            i = i + 1;
        }
        assert(!is_dup(ns, j as int));
        j = j + 1;
    }
    assert forall|k: int| !is_first_dup(ns, k) by {
        if 0 <= k < ns.len() {
            assert(!is_dup(ns, k));
        }
    }
    None
}

/// Check that struct names and method names are unique (no silent overwrites).
pub fn validate_unique_names(spec: &Spec) -> (r: Result<(), BackendError>)
    ensures
        match r {
            Ok(()) => duplicate_name_message(spec@) is None,
            Err(BackendError::TemplateInit { message }) => duplicate_name_message(spec@) == Some(
                message@,
            ),
            Err(_) => false,
        },
{
    let mut snames: Vec<&str> = Vec::new();
    let mut i: usize = 0;
    while i < spec.structs.len()
        invariant
            0 <= i <= spec.structs.len(),
            snames@.len() == i,
            forall|q: int| 0 <= q < i ==> #[trigger] snames@[q]@ == spec.structs@[q].name@,
        decreases spec.structs.len() - i,
    {
        let n = spec.structs[i].name.as_str();
        snames.push(n);
        i = i + 1;
    }
    assert(snames@.map_values(|n: &str| n@) =~= struct_names(spec@));
    match find_first_dup(&snames) {
        Some(j) => {
            proof {
                lemma_first_dup_is(struct_names(spec@), j as int);
            }
            let mut message = owned("Duplicate struct name: '");
            message.append(snames[j]);
            message.append("'");
            return Err(BackendError::TemplateInit { message });
        },
        None => {},
    }
    let mut mnames: Vec<&str> = Vec::new();
    let mut k: usize = 0;
    while k < spec.methods.len()
        invariant
            0 <= k <= spec.methods.len(),
            mnames@.len() == k,
            forall|q: int| 0 <= q < k ==> #[trigger] mnames@[q]@ == spec.methods@[q].name@,
        decreases spec.methods.len() - k,
    {
        let n = spec.methods[k].name.as_str();
        mnames.push(n);
        k = k + 1;
    }
    assert(mnames@.map_values(|n: &str| n@) =~= method_names(spec@));
    match find_first_dup(&mnames) {
        Some(j) => {
            proof {
                lemma_first_dup_is(method_names(spec@), j as int);
            }
            let mut message = owned("Duplicate method name: '");
            message.append(mnames[j]);
            message.append("'");
            Err(BackendError::TemplateInit { message })
        },
        None => Ok(()),
    }
}

/// No two of `names` are equal.
pub open spec fn all_distinct(names: Seq<Seq<char>>) -> bool {
    forall|i: int, j: int| 0 <= i < j < names.len() ==> names[i] != names[j]
}

proof fn lemma_dup_has_first(names: Seq<Seq<char>>, j: int)
    requires
        is_dup(names, j),
    ensures
        exists|k: int| is_first_dup(names, k),
    decreases j,
{
    if exists|k: int| 0 <= k < j && is_dup(names, k) {
        let k = choose|k: int| 0 <= k < j && is_dup(names, k);
        lemma_dup_has_first(names, k);
    } else {
        assert(is_first_dup(names, j));
    }
}

proof fn lemma_first_dup_none(names: Seq<Seq<char>>)
    ensures
        first_dup(names) is None <==> all_distinct(names),
{
    if !all_distinct(names) {
        let (i, j) = choose|i: int, j: int|
            0 <= i < j < names.len() && names[i] == names[j];
        assert(is_dup(names, j));
        lemma_dup_has_first(names, j);
    }
    if exists|j: int| is_first_dup(names, j) {
        let j = choose|j: int| is_first_dup(names, j);
        let i = choose|i: int| 0 <= i < j && names[i] == names[j];
        assert(!all_distinct(names));
    }
}

/// The name check accepts a spec exactly when no two of its structs, and
/// no two of its methods, share a name: one generated file never silently
/// overwrites another of the same name.
pub proof fn law_name_check_accepts_distinct_names(s: SpecModel)
    ensures
        duplicate_name_message(s) is None <==> (all_distinct(struct_names(s)) && all_distinct(
            method_names(s),
        )),
{
    lemma_first_dup_none(struct_names(s));
    lemma_first_dup_none(method_names(s));
}

// ---------------------------------------------------------------------
// File names
// ---------------------------------------------------------------------

/// The characters that cannot stand in a file name.
pub open spec fn is_unsafe_filename_char(c: char) -> bool {
    c == '/' || c == '\\' || c == ':' || c == '<' || c == '>' || c == '|' || c == '?' || c == '*'
        || c == '\0'
}

/// `s` with every unsafe character replaced by `_`.
pub open spec fn replace_unsafe(s: Seq<char>) -> Seq<char> {
    s.map_values(|c: char| if is_unsafe_filename_char(c) { '_' } else { c })
}

/// `s` with every run of dots shortened to a single dot.
pub open spec fn collapse_dots(s: Seq<char>) -> Seq<char>
    decreases s.len(),
{
    if s.len() == 0 {
        Seq::empty()
    } else if s.len() >= 2 && s.last() == '.' && s[s.len() - 2] == '.' {
        collapse_dots(s.drop_last())
    } else {
        collapse_dots(s.drop_last()).push(s.last())
    }
}

/// No `..` occurs in `s`.
pub open spec fn no_double_dot(s: Seq<char>) -> bool {
    forall|i: int| 0 <= i < s.len() - 1 ==> !(#[trigger] s[i] == '.' && s[i + 1] == '.')
}

/// The sanitized file name: unsafe characters replaced by `_`, every `..`
/// shortened to `.`, leading and trailing spaces and dots removed, and `_`
/// when nothing is left.
pub open spec fn sanitized(s: Seq<char>) -> Seq<char> {
    let t = trim(collapse_dots(replace_unsafe(s)), TrimSet::SpacesAndDots);
    if t.len() == 0 {
        seq!['_']
    } else {
        t
    }
}

/// Replace characters unsafe for filenames, prevent directory traversal.
///
/// Replaces `/`, `\0`, `:`, `<`, `>`, `|`, `?`, `*` and `\` by `_`,
/// shortens every `..` to `.`, and strips leading and trailing spaces and
/// dots. Returns `"_"` if the result would be empty.
pub fn sanitize_filename(name: &str) -> (r: String)
    ensures
        r@ == sanitized(name@),
        no_double_dot(r@),
{
    proof {
        law_sanitized_is_safe(name@);
    }
    let cs = chars_of(name);
    let mut replaced: Vec<char> = Vec::new();
    let mut i: usize = 0;
    while i < cs.len()
        invariant
            0 <= i <= cs.len(),
            cs@ == name@,
            replaced@ == replace_unsafe(cs@.subrange(0, i as int)),
        decreases cs.len() - i,
    {
        let c = cs[i];
        let d = if c == '/' || c == '\\' || c == ':' || c == '<' || c == '>' || c == '|' || c
            == '?' || c == '*' || c == '\0' {
            '_'
        } else {
            c
        };
        replaced.push(d);
        i = i + 1;
        assert(replaced@ =~= replace_unsafe(cs@.subrange(0, i as int)));
    }
    assert(cs@.subrange(0, cs@.len() as int) =~= cs@);
    let mut collapsed: Vec<char> = Vec::new();
    let mut k: usize = 0;
    while k < replaced.len()
        invariant
            0 <= k <= replaced.len(),
            collapsed@ == collapse_dots(replaced@.subrange(0, k as int)),
        decreases replaced.len() - k,
    {
        let ghost sub = replaced@.subrange(0, k + 1);
        assert(sub.drop_last() =~= replaced@.subrange(0, k as int));
        if !(replaced[k] == '.' && k > 0 && replaced[k - 1] == '.') {
            collapsed.push(replaced[k]);
        }
        k = k + 1;
        assert(collapsed@ =~= collapse_dots(replaced@.subrange(0, k as int)));
    }
    assert(replaced@.subrange(0, replaced@.len() as int) =~= replaced@);
    let t = trim_chars(&collapsed, TrimSet::SpacesAndDots);
    if t.len() == 0 {
        let mut r = String::new();
        push_char(&mut r, '_');
        assert(r@ =~= seq!['_']);
        r
    } else {
        string_of(&t)
    }
}

// ---------------------------------------------------------------------
// Laws
// ---------------------------------------------------------------------

proof fn lemma_trim_start_shape(s: Seq<char>, set: TrimSet)
    ensures
        exists|k: int| 0 <= k <= s.len() && trim_start(s, set) == s.subrange(k, s.len() as int),
        trim_start(s, set).len() == 0 || !trimmed_by(set, trim_start(s, set)[0]),
    decreases s.len(),
{
    if s.len() > 0 && trimmed_by(set, s[0]) {
        let t = s.subrange(1, s.len() as int);
        lemma_trim_start_shape(t, set);
        let k = choose|k: int| 0 <= k <= t.len() && trim_start(t, set) == t.subrange(k, t.len() as int);
        assert(t.subrange(k, t.len() as int) =~= s.subrange(k + 1, s.len() as int));
    } else {
        assert(s.subrange(0, s.len() as int) =~= s);
    }
}

proof fn lemma_trim_end_shape(s: Seq<char>, set: TrimSet)
    ensures
        exists|k: int| 0 <= k <= s.len() && trim_end(s, set) == s.subrange(0, k),
        trim_end(s, set).len() == 0 || !trimmed_by(set, trim_end(s, set).last()),
    decreases s.len(),
{
    if s.len() > 0 && trimmed_by(set, s.last()) {
        let t = s.drop_last();
        lemma_trim_end_shape(t, set);
        let k = choose|k: int| 0 <= k <= t.len() && trim_end(t, set) == t.subrange(0, k);
        assert(t.subrange(0, k) =~= s.subrange(0, k));
    } else {
        assert(s.subrange(0, s.len() as int) =~= s);
    }
}

proof fn lemma_trim_start_keeps_end(s: Seq<char>, set: TrimSet)
    requires
        s.len() > 0,
        !trimmed_by(set, s.last()),
    ensures
        trim_start(s, set).len() > 0,
        trim_start(s, set).last() == s.last(),
    decreases s.len(),
{
    if trimmed_by(set, s[0]) {
        let t = s.subrange(1, s.len() as int);
        assert(t.len() > 0);
        assert(t.last() == s.last());
        lemma_trim_start_keeps_end(t, set);
    }
}

/// The trim of `s` is a contiguous piece of `s` that neither starts nor
/// ends with a trimmed character.
pub proof fn lemma_trim_shape(s: Seq<char>, set: TrimSet)
    ensures
        exists|a: int, b: int| 0 <= a <= b <= s.len() && trim(s, set) == s.subrange(a, b),
        trim(s, set).len() == 0 || (!trimmed_by(set, trim(s, set)[0]) && !trimmed_by(
            set,
            trim(s, set).last(),
        )),
{
    let u = trim_start(s, set);
    lemma_trim_start_shape(s, set);
    lemma_trim_end_shape(u, set);
    let a = choose|k: int| 0 <= k <= s.len() && u == s.subrange(k, s.len() as int);
    let b = choose|k: int| 0 <= k <= u.len() && trim_end(u, set) == u.subrange(0, k);
    assert(u.subrange(0, b) =~= s.subrange(a, a + b));
    let t = trim(s, set);
    if t.len() > 0 {
        assert(t[0] == u[0]);
    }
}

/// Trimming a sequence that neither starts nor ends with a trimmed
/// character changes nothing.
pub proof fn lemma_trim_noop(s: Seq<char>, set: TrimSet)
    requires
        s.len() == 0 || (!trimmed_by(set, s[0]) && !trimmed_by(set, s.last())),
    ensures
        trim(s, set) == s,
{
}

proof fn lemma_collapse_dots(s: Seq<char>)
    ensures
        no_double_dot(collapse_dots(s)),
        s.len() > 0 ==> collapse_dots(s).len() > 0 && collapse_dots(s).last() == s.last(),
        forall|i: int|
            0 <= i < collapse_dots(s).len() ==> exists|j: int|
                0 <= j < s.len() && #[trigger] collapse_dots(s)[i] == s[j],
    decreases s.len(),
{
    if s.len() > 0 {
        let init = s.drop_last();
        lemma_collapse_dots(init);
        let c = collapse_dots(init);
        assert forall|i: int| 0 <= i < c.len() implies exists|j: int|
            0 <= j < s.len() && #[trigger] c[i] == s[j] by {
            let j = choose|j: int| 0 <= j < init.len() && c[i] == init[j];
            assert(s[j] == init[j]);
        }
        if s.len() >= 2 && s.last() == '.' && s[s.len() - 2] == '.' {
            assert(init.last() == s[s.len() - 2]);
        } else {
            let v = c.push(s.last());
            assert forall|i: int| 0 <= i < v.len() - 1 implies !(#[trigger] v[i] == '.' && v[i + 1]
                == '.') by {
                if i + 1 == v.len() - 1 {
                    if s.len() >= 2 {
                        assert(init.last() == s[s.len() - 2]);
                    }
                } else {
                    assert(v[i] == c[i] && v[i + 1] == c[i + 1]);
                }
            }
            assert forall|i: int| 0 <= i < v.len() implies exists|j: int|
                0 <= j < s.len() && #[trigger] v[i] == s[j] by {
                if i < c.len() {
                    assert(v[i] == c[i]);
                    let j = choose|j: int| 0 <= j < s.len() && c[i] == s[j];
                } else {
                    assert(v[i] == s[s.len() - 1]);
                }
            }
        }
    }
}

proof fn lemma_collapse_dots_noop(s: Seq<char>)
    requires
        no_double_dot(s),
    ensures
        collapse_dots(s) == s,
    decreases s.len(),
{
    if s.len() > 0 {
        let init = s.drop_last();
        assert(no_double_dot(init)) by {
            assert forall|i: int| 0 <= i < init.len() - 1 implies !(#[trigger] init[i] == '.'
                && init[i + 1] == '.') by {
                assert(init[i] == s[i] && init[i + 1] == s[i + 1]);
            }
        }
        lemma_collapse_dots_noop(init);
        if s.len() >= 2 {
            assert(!(s[s.len() - 2] == '.' && s[s.len() - 1] == '.'));
        }
        assert(init.push(s.last()) =~= s);
    }
}

/// A sanitized file name is never empty, holds no unsafe character and no
/// `..`, and neither starts nor ends with a space or a dot (so it is never
/// `.` or `..`): it cannot step out of its directory.
pub proof fn law_sanitized_is_safe(s: Seq<char>)
    ensures
        sanitized(s).len() > 0,
        forall|i: int| 0 <= i < sanitized(s).len() ==> !is_unsafe_filename_char(
            #[trigger] sanitized(s)[i],
        ),
        no_double_dot(sanitized(s)),
        sanitized(s)[0] != ' ' && sanitized(s)[0] != '.',
        sanitized(s).last() != ' ' && sanitized(s).last() != '.',
{
    let r = replace_unsafe(s);
    let c = collapse_dots(r);
    lemma_collapse_dots(r);
    lemma_trim_shape(c, TrimSet::SpacesAndDots);
    let t = trim(c, TrimSet::SpacesAndDots);
    if t.len() > 0 {
        let (a, b) = choose|a: int, b: int| 0 <= a <= b <= c.len() && t == c.subrange(a, b);
        assert forall|i: int| 0 <= i < t.len() implies !is_unsafe_filename_char(#[trigger] t[i]) by {
            assert(t[i] == c[a + i]);
            let j = choose|j: int| 0 <= j < r.len() && c[a + i] == r[j];
        }
        assert forall|i: int| 0 <= i < t.len() - 1 implies !(#[trigger] t[i] == '.' && t[i + 1]
            == '.') by {
            assert(t[i] == c[a + i] && t[i + 1] == c[a + i + 1]);
        }
    } else {
        assert(no_double_dot(seq!['_']));
    }
}

/// A name that is already safe (not empty, no unsafe character, no `..`,
/// neither starting nor ending with a space or a dot) is kept as it is.
pub proof fn law_safe_names_kept(s: Seq<char>)
    requires
        s.len() > 0,
        forall|i: int| 0 <= i < s.len() ==> !is_unsafe_filename_char(#[trigger] s[i]),
        no_double_dot(s),
        s[0] != ' ' && s[0] != '.',
        s.last() != ' ' && s.last() != '.',
    ensures
        sanitized(s) == s,
{
    assert(replace_unsafe(s) =~= s);
    lemma_collapse_dots_noop(s);
    lemma_trim_noop(s, TrimSet::SpacesAndDots);
}

/// Sanitizing is idempotent.
pub proof fn law_sanitize_idempotent(s: Seq<char>)
    ensures
        sanitized(sanitized(s)) == sanitized(s),
{
    law_sanitized_is_safe(s);
    law_safe_names_kept(sanitized(s));
}

} // verus!
