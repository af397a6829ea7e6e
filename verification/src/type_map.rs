//! Translation of spec types (written in Rust syntax) into the type syntax
//! of Python, TypeScript, C# and Go.
//!
//! A type name is first looked up in a table of exact names (`Option<T>`,
//! `usize`, ...); otherwise a leading `Option<`, `Vec<`, `HashMap<`
//! (Python only), `Result<` or `Box<` wrapper is unwrapped and its inner
//! type translated; any other name passes through unchanged.
//!
//! Unwrapping cuts the final byte of the name, so a name that is only the
//! wrapper's prefix, or whose last character is not ASCII, cannot be cut:
//! `translatable` tells which names translate.

use vstd::prelude::*;
use crate::ast::{Type, TypeModel, type_models, lemma_type_models};
use crate::casing::is_ascii_char;
use crate::text::{
    has_prefix, split_on, trim, TrimSet, first_index, chars_of, starts_with, str_eq, owned,
    concat2, concat3, string_of_range, split_chars, char_vec_views, trim_chars, string_of,
    find_char_from, push_char, lemma_trim_len, lemma_split_pieces_len, lemma_first_index_bound,
};

verus! {

/// A target language with its own type syntax.
#[derive(Clone, Copy)]
pub enum Lang {
    Python,
    TypeScript,
    CSharp,
    Go,
}

/// The translations of the names that the table knows.
pub open spec fn exact_translation(lang: Lang, s: Seq<char>) -> Option<Seq<char>> {
    if s == "Option<T>"@ {
        Some(
            match lang {
                Lang::Python => "Optional[T]"@,
                Lang::TypeScript => "T | null"@,
                Lang::CSharp => "T?"@,
                Lang::Go => "*T"@,
            },
        )
    } else if s == "Vec<T>"@ {
        Some(
            match lang {
                Lang::Python => "List[T]"@,
                Lang::TypeScript => "T[]"@,
                Lang::CSharp => "List<T>"@,
                Lang::Go => "[]T"@,
            },
        )
    } else if s == "HashMap<K,V>"@ {
        Some(
            match lang {
                Lang::Python => "Dict[K, V]"@,
                Lang::TypeScript => "Map<K, V>"@,
                Lang::CSharp => "Dictionary<K,V>"@,
                Lang::Go => "map[K]V"@,
            },
        )
    } else if s == "&T"@ {
        Some("T"@)
    } else if s == "&mut [T]"@ {
        Some(
            match lang {
                Lang::Python => "List[T]"@,
                Lang::TypeScript => "T[]"@,
                Lang::CSharp => "T[]"@,
                Lang::Go => "[]T"@,
            },
        )
    } else if s == "usize"@ {
        Some(
            match lang {
                Lang::TypeScript => "number"@,
                _ => "int"@,
            },
        )
    } else if s == "i32"@ {
        Some(
            match lang {
                Lang::Python => "int"@,
                Lang::TypeScript => "number"@,
                Lang::CSharp => "int"@,
                Lang::Go => "int32"@,
            },
        )
    } else if s == "bool"@ {
        Some(
            match lang {
                Lang::TypeScript => "boolean"@,
                _ => "bool"@,
            },
        )
    } else if s == "void"@ {
        Some(
            match lang {
                Lang::Python => "None"@,
                Lang::Go => ""@,
                _ => "void"@,
            },
        )
    } else {
        None
    }
}

/// How an optional type is written.
pub open spec fn option_form(lang: Lang, t: Seq<char>) -> Seq<char> {
    match lang {
        Lang::Python => "Optional["@ + t + "]"@,
        Lang::TypeScript => t + " | null"@,
        Lang::CSharp => t + "?"@,
        Lang::Go => "*"@ + t,
    }
}

/// How a list type is written (a TypeScript union is parenthesized).
pub open spec fn vec_form(lang: Lang, t: Seq<char>) -> Seq<char> {
    match lang {
        Lang::Python => "List["@ + t + "]"@,
        Lang::TypeScript => if first_index(t, '|') < t.len() {
            "("@ + t + ")[]"@
        } else {
            t + "[]"@
        },
        Lang::CSharp => "List<"@ + t + ">"@,
        Lang::Go => "[]"@ + t,
    }
}

/// How a result type is written from its success type: Go returns a
/// `(T, error)` pair, the others raise and return `T`.
pub open spec fn result_form(lang: Lang, t: Seq<char>) -> Seq<char> {
    match lang {
        Lang::Go => "("@ + t + ", error)"@,
        _ => t,
    }
}

/// How a Python dictionary is written.
pub open spec fn dict_form(k: Seq<char>, v: Seq<char>) -> Seq<char> {
    "Dict["@ + k + ", "@ + v + "]"@
}

/// `s` is long enough to lose `prefix` and one final ASCII character.
pub open spec fn unwrap_ok(s: Seq<char>, prefix: Seq<char>) -> bool {
    s.len() > prefix.len() && is_ascii_char(s.last())
}

/// `s` without `prefix` and its final character.
pub open spec fn unwrap(s: Seq<char>, prefix: Seq<char>) -> Seq<char> {
    s.subrange(prefix.len() as int, s.len() - 1)
}

/// The two trimmed pieces of `inner` when it holds exactly one comma.
pub open spec fn two_args(inner: Seq<char>) -> Option<(Seq<char>, Seq<char>)> {
    let parts = split_on(inner, ',');
    if parts.len() == 2 {
        Some((trim(parts[0], TrimSet::Whitespace), trim(parts[1], TrimSet::Whitespace)))
    } else {
        None
    }
}

/// The pieces found by `two_args` are no longer than what they came from.
pub proof fn lemma_two_args_len(inner: Seq<char>)
    ensures
        two_args(inner) matches Some((a, b)) ==> a.len() <= inner.len() && b.len() <= inner.len(),
{
    lemma_split_pieces_len(inner, ',');
    let parts = split_on(inner, ',');
    if parts.len() == 2 {
        lemma_trim_len(parts[0], TrimSet::Whitespace);
        lemma_trim_len(parts[1], TrimSet::Whitespace);
        assert(parts[0].len() <= inner.len());
        assert(parts[1].len() <= inner.len());
    }
}

/// The translation of a type name.
pub open spec fn translated(lang: Lang, s: Seq<char>) -> Seq<char>
    decreases s.len(),
{
    match exact_translation(lang, s) {
        Some(t) => t,
        None => if has_prefix(s, "Option<"@) {
            if unwrap_ok(s, "Option<"@) {
                option_form(lang, translated(lang, unwrap(s, "Option<"@)))
            } else {
                s
            }
        } else if has_prefix(s, "Vec<"@) {
            if unwrap_ok(s, "Vec<"@) {
                vec_form(lang, translated(lang, unwrap(s, "Vec<"@)))
            } else {
                s
            }
        } else if lang is Python && has_prefix(s, "HashMap<"@) {
            if unwrap_ok(s, "HashMap<"@) {
                proof {
                    lemma_two_args_len(unwrap(s, "HashMap<"@));
                }
                match two_args(unwrap(s, "HashMap<"@)) {
                    Some((k, v)) => dict_form(translated(lang, k), translated(lang, v)),
                    None => s,
                }
            } else {
                s
            }
        } else if has_prefix(s, "Result<"@) {
            if unwrap_ok(s, "Result<"@) {
                proof {
                    lemma_two_args_len(unwrap(s, "Result<"@));
                }
                match two_args(unwrap(s, "Result<"@)) {
                    Some((t, _e)) => result_form(lang, translated(lang, t)),
                    None => s,
                }
            } else {
                s
            }
        } else if has_prefix(s, "Box<"@) {
            if unwrap_ok(s, "Box<"@) {
                translated(lang, unwrap(s, "Box<"@))
            } else {
                s
            }
        } else {
            s
        },
    }
}

/// The type name translates without cutting a wrapper that is too short or
/// ends in a non-ASCII character.
pub open spec fn translatable(lang: Lang, s: Seq<char>) -> bool
    decreases s.len(),
{
    match exact_translation(lang, s) {
        Some(_) => true,
        None => if has_prefix(s, "Option<"@) {
            unwrap_ok(s, "Option<"@) && translatable(lang, unwrap(s, "Option<"@))
        } else if has_prefix(s, "Vec<"@) {
            unwrap_ok(s, "Vec<"@) && translatable(lang, unwrap(s, "Vec<"@))
        } else if lang is Python && has_prefix(s, "HashMap<"@) {
            if unwrap_ok(s, "HashMap<"@) {
                proof {
                    lemma_two_args_len(unwrap(s, "HashMap<"@));
                }
                match two_args(unwrap(s, "HashMap<"@)) {
                    Some((k, v)) => translatable(lang, k) && translatable(lang, v),
                    None => true,
                }
            } else {
                false
            }
        } else if has_prefix(s, "Result<"@) {
            if unwrap_ok(s, "Result<"@) {
                proof {
                    lemma_two_args_len(unwrap(s, "Result<"@));
                }
                match two_args(unwrap(s, "Result<"@)) {
                    Some((t, _e)) => translatable(lang, t),
                    None => true,
                }
            } else {
                false
            }
        } else if has_prefix(s, "Box<"@) {
            unwrap_ok(s, "Box<"@) && translatable(lang, unwrap(s, "Box<"@))
        } else {
            true
        },
    }
}

fn pick(lang: Lang, python: &str, typescript: &str, csharp: &str, go: &str) -> (r: String)
    ensures
        r@ == match lang {
            Lang::Python => python@,
            Lang::TypeScript => typescript@,
            Lang::CSharp => csharp@,
            Lang::Go => go@,
        },
{
    match lang {
        Lang::Python => owned(python),
        Lang::TypeScript => owned(typescript),
        Lang::CSharp => owned(csharp),
        Lang::Go => owned(go),
    }
}

/// The table's translation of `s`, if it has one.
fn exact_translation_of(lang: Lang, s: &str) -> (r: Option<String>)
    ensures
        match r {
            Some(t) => exact_translation(lang, s@) == Some(t@),
            None => exact_translation(lang, s@) is None,
        },
{
    if str_eq(s, "Option<T>") {
        Some(pick(lang, "Optional[T]", "T | null", "T?", "*T"))
    } else if str_eq(s, "Vec<T>") {
        Some(pick(lang, "List[T]", "T[]", "List<T>", "[]T"))
    } else if str_eq(s, "HashMap<K,V>") {
        Some(pick(lang, "Dict[K, V]", "Map<K, V>", "Dictionary<K,V>", "map[K]V"))
    } else if str_eq(s, "&T") {
        Some(owned("T"))
    } else if str_eq(s, "&mut [T]") {
        Some(pick(lang, "List[T]", "T[]", "T[]", "[]T"))
    } else if str_eq(s, "usize") {
        Some(pick(lang, "int", "number", "int", "int"))
    } else if str_eq(s, "i32") {
        Some(pick(lang, "int", "number", "int", "int32"))
    } else if str_eq(s, "bool") {
        Some(pick(lang, "bool", "boolean", "bool", "bool"))
    } else if str_eq(s, "void") {
        Some(pick(lang, "None", "void", "void", ""))
    } else {
        None
    }
}

/// `s` without `prefix` and its final character.
fn unwrap_exec(s: &str, prefix: &str) -> (r: String)
    requires
        unwrap_ok(s@, prefix@),
    ensures
        r@ == unwrap(s@, prefix@),
        r@.len() < s@.len(),
{
    let cs = chars_of(s);
    let pc = chars_of(prefix);
    string_of_range(&cs, pc.len(), cs.len() - 1)
}

/// Whether `s` can lose `prefix` and a final ASCII character.
fn unwrap_ok_exec(s: &str, prefix: &str) -> (r: bool)
    ensures
        r == unwrap_ok(s@, prefix@),
{
    let cs = chars_of(s);
    let pc = chars_of(prefix);
    cs.len() > pc.len() && (cs[cs.len() - 1] as u32) < 128
}

/// The two trimmed pieces of `inner` when it holds exactly one comma.
fn two_args_exec(inner: &str) -> (r: Option<(String, String)>)
    ensures
        match r {
            Some((a, b)) => two_args(inner@) == Some((a@, b@)),
            None => two_args(inner@) is None,
        },
{
    let cs = chars_of(inner);
    let parts = split_chars(&cs, ',');
    if parts.len() == 2 {
        let a = trim_chars(&parts[0], TrimSet::Whitespace);
        let b = trim_chars(&parts[1], TrimSet::Whitespace);
        assert(char_vec_views(parts@)[0] == parts@[0]@);
        assert(char_vec_views(parts@)[1] == parts@[1]@);
        Some((string_of(&a), string_of(&b)))
    } else {
        None
    }
}

fn option_form_exec(lang: Lang, t: &str) -> (r: String)
    ensures
        r@ == option_form(lang, t@),
{
    match lang {
        Lang::Python => concat3("Optional[", t, "]"),
        Lang::TypeScript => concat2(t, " | null"),
        Lang::CSharp => concat2(t, "?"),
        Lang::Go => concat2("*", t),
    }
}

fn vec_form_exec(lang: Lang, t: &str) -> (r: String)
    ensures
        r@ == vec_form(lang, t@),
{
    match lang {
        Lang::Python => concat3("List[", t, "]"),
        Lang::TypeScript => {
            let cs = chars_of(t);
            if find_char_from(&cs, 0, '|') < cs.len() {
                assert(cs@.subrange(0, cs@.len() as int) =~= cs@);
                concat3("(", t, ")[]")
            } else {
                assert(cs@.subrange(0, cs@.len() as int) =~= cs@);
                concat2(t, "[]")
            }
        },
        Lang::CSharp => concat3("List<", t, ">"),
        Lang::Go => concat2("[]", t),
    }
}

fn result_form_exec(lang: Lang, t: String) -> (r: String)
    ensures
        r@ == result_form(lang, t@),
{
    match lang {
        Lang::Go => concat3("(", t.as_str(), ", error)"),
        _ => t,
    }
}

/// Whether a type name translates (see [`translatable`]).
pub fn is_translatable(lang: Lang, s: &str) -> (r: bool)
    ensures
        r == translatable(lang, s@),
    decreases s@.len(),
{
    if exact_translation_of(lang, s).is_some() {
        return true;
    }
    if starts_with(s, "Option<") {
        if !unwrap_ok_exec(s, "Option<") {
            return false;
        }
        let inner = unwrap_exec(s, "Option<");
        return is_translatable(lang, inner.as_str());
    }
    if starts_with(s, "Vec<") {
        if !unwrap_ok_exec(s, "Vec<") {
            return false;
        }
        let inner = unwrap_exec(s, "Vec<");
        return is_translatable(lang, inner.as_str());
    }
    if matches!(lang, Lang::Python) && starts_with(s, "HashMap<") {
        if !unwrap_ok_exec(s, "HashMap<") {
            return false;
        }
        let inner = unwrap_exec(s, "HashMap<");
        proof {
            lemma_two_args_len(inner@);
        }
        return match two_args_exec(inner.as_str()) {
            Some((k, v)) => is_translatable(lang, k.as_str()) && is_translatable(lang, v.as_str()),
            None => true,
        };
    }
    if starts_with(s, "Result<") {
        if !unwrap_ok_exec(s, "Result<") {
            return false;
        }
        let inner = unwrap_exec(s, "Result<");
        proof {
            lemma_two_args_len(inner@);
        }
        return match two_args_exec(inner.as_str()) {
            Some((t, _e)) => is_translatable(lang, t.as_str()),
            None => true,
        };
    }
    if starts_with(s, "Box<") {
        if !unwrap_ok_exec(s, "Box<") {
            return false;
        }
        let inner = unwrap_exec(s, "Box<");
        return is_translatable(lang, inner.as_str());
    }
    true
}

/// Translate a type name string to a type expression of `lang`.
pub fn translate_type_name(lang: Lang, s: &str) -> (r: String)
    requires
        translatable(lang, s@),
    ensures
        r@ == translated(lang, s@),
    decreases s@.len(),
{
    match exact_translation_of(lang, s) {
        Some(t) => return t,
        None => {},
    }
    if starts_with(s, "Option<") {
        let inner = unwrap_exec(s, "Option<");
        let t = translate_type_name(lang, inner.as_str());
        return option_form_exec(lang, t.as_str());
    }
    if starts_with(s, "Vec<") {
        let inner = unwrap_exec(s, "Vec<");
        let t = translate_type_name(lang, inner.as_str());
        return vec_form_exec(lang, t.as_str());
    }
    if matches!(lang, Lang::Python) && starts_with(s, "HashMap<") {
        let inner = unwrap_exec(s, "HashMap<");
        proof {
            lemma_two_args_len(inner@);
        }
        return match two_args_exec(inner.as_str()) {
            Some((k, v)) => {
                let tk = translate_type_name(lang, k.as_str());
                let tv = translate_type_name(lang, v.as_str());
                let mut r = concat3("Dict[", tk.as_str(), ", ");
                r.append(tv.as_str());
                r.append("]");
                r
            },
            None => owned(s),
        };
    }
    if starts_with(s, "Result<") {
        let inner = unwrap_exec(s, "Result<");
        proof {
            lemma_two_args_len(inner@);
        }
        return match two_args_exec(inner.as_str()) {
            Some((t, _e)) => {
                let tt = translate_type_name(lang, t.as_str());
                result_form_exec(lang, tt)
            },
            None => owned(s),
        };
    }
    if starts_with(s, "Box<") {
        let inner = unwrap_exec(s, "Box<");
        return translate_type_name(lang, inner.as_str());
    }
    owned(s)
}

// ---------------------------------------------------------------------
// Whole types
// ---------------------------------------------------------------------

/// The bracket that opens type parameters.
pub open spec fn params_open(lang: Lang) -> Seq<char> {
    match lang {
        Lang::Python => "["@,
        Lang::Go => "["@,
        _ => "<"@,
    }
}

/// The bracket that closes type parameters.
pub open spec fn params_close(lang: Lang) -> Seq<char> {
    match lang {
        Lang::Python => "]"@,
        Lang::Go => "]"@,
        _ => ">"@,
    }
}

/// The translation of a whole type: a simple type by its name, a
/// parameterized one as its translated base with the translated parameters
/// in brackets, separated by `", "`.
pub open spec fn type_translated(lang: Lang, t: TypeModel) -> Seq<char>
    decreases t,
{
    match t {
        TypeModel::Simple(s) => translated(lang, s),
        TypeModel::Parameterized { base, params } => translated(lang, base) + params_open(lang)
            + translated_list(lang, params) + params_close(lang),
    }
}

/// The translations of `ts` joined by `", "`.
pub open spec fn translated_list(lang: Lang, ts: Seq<TypeModel>) -> Seq<char>
    decreases ts,
{
    if ts.len() == 0 {
        Seq::empty()
    } else if ts.len() == 1 {
        type_translated(lang, ts[0])
    } else {
        translated_list(lang, ts.subrange(0, ts.len() - 1)) + ", "@ + type_translated(
            lang,
            ts[ts.len() - 1],
        )
    }
}

/// Every name in the type translates.
pub open spec fn type_translatable(lang: Lang, t: TypeModel) -> bool
    decreases t,
{
    match t {
        TypeModel::Simple(s) => translatable(lang, s),
        TypeModel::Parameterized { base, params } => translatable(lang, base)
            && all_translatable(lang, params),
    }
}

/// Every type of `ts` translates.
pub open spec fn all_translatable(lang: Lang, ts: Seq<TypeModel>) -> bool
    decreases ts,
{
    if ts.len() == 0 {
        true
    } else {
        all_translatable(lang, ts.subrange(0, ts.len() - 1)) && type_translatable(
            lang,
            ts[ts.len() - 1],
        )
    }
}

proof fn lemma_all_translatable(lang: Lang, ts: Seq<TypeModel>)
    ensures
        all_translatable(lang, ts) <==> forall|i: int|
            0 <= i < ts.len() ==> #[trigger] type_translatable(lang, ts[i]),
    decreases ts.len(),
{
    if ts.len() > 0 {
        let init = ts.subrange(0, ts.len() - 1);
        lemma_all_translatable(lang, init);
        assert(all_translatable(lang, ts) == (all_translatable(lang, init) && type_translatable(
            lang,
            ts[ts.len() - 1],
        )));
        assert forall|i: int| 0 <= i < init.len() implies init[i] == ts[i] by {}
        if all_translatable(lang, ts) {
            assert forall|i: int| 0 <= i < ts.len() implies #[trigger] type_translatable(
                lang,
                ts[i],
            ) by {
                if i < ts.len() - 1 {
                    assert(init[i] == ts[i]);
                    assert(type_translatable(lang, init[i]));
                }
            }
        }
        if forall|i: int| 0 <= i < ts.len() ==> #[trigger] type_translatable(lang, ts[i]) {
            assert forall|i: int| 0 <= i < init.len() implies #[trigger] type_translatable(
                lang,
                init[i],
            ) by {
                assert(init[i] == ts[i]);
                assert(type_translatable(lang, ts[i]));
            }
            assert(type_translatable(lang, ts[ts.len() - 1]));
        }
    }
}

/// Translate a whole type to a type expression of `lang`.
#[verifier::loop_isolation(false)]
pub fn translate_type(lang: Lang, t: &Type) -> (r: String)
    requires
        type_translatable(lang, t@),
    ensures
        r@ == type_translated(lang, t@),
    decreases t,
{
    match t {
        Type::Simple(s) => translate_type_name(lang, s.as_str()),
        Type::Parameterized { base, params } => {
            proof {
                lemma_type_models(params@);
                lemma_all_translatable(lang, type_models(params@));
                reveal_strlit("[");
                reveal_strlit("]");
                reveal_strlit("<");
                reveal_strlit(">");
                reveal_strlit(", ");
            }
            let mut r = translate_type_name(lang, base.as_str());
            match lang {
                Lang::Python => push_char(&mut r, '['),
                Lang::Go => push_char(&mut r, '['),
                _ => push_char(&mut r, '<'),
            }
            let ghost head = r@;
            let ghost ms = type_models(params@);
            let mut i: usize = 0;
            while i < params.len()
                invariant
                    0 <= i <= params.len(),
                    r@ == head + translated_list(lang, ms.subrange(0, i as int)),
                decreases params.len() - i,
            {
                if i > 0 {
                    push_char(&mut r, ',');
                    push_char(&mut r, ' ');
                }
                assert(ms[i as int] == params@[i as int]@);
                assert(type_translatable(lang, ms[i as int]));
                let p = translate_type(lang, &params[i]);
                r.append(p.as_str());
                proof {
                    let sub = ms.subrange(0, i + 1);
                    assert(sub.subrange(0, sub.len() - 1) =~= ms.subrange(0, i as int));
                    assert(sub[sub.len() - 1] == ms[i as int]);
                    if i == 0 {
                        assert(translated_list(lang, sub) == type_translated(lang, ms[0]));
                    }
                    assert(r@ =~= head + translated_list(lang, sub));
                }
                i = i + 1;
            }
            match lang {
                Lang::Python => push_char(&mut r, ']'),
                Lang::Go => push_char(&mut r, ']'),
                _ => push_char(&mut r, '>'),
            }
            assert(ms.subrange(0, ms.len() as int) =~= ms);
            assert(r@ =~= type_translated(lang, t@));
            r
        },
    }
}

/// Whether every name in the type translates.
#[verifier::loop_isolation(false)]
pub fn is_type_translatable(lang: Lang, t: &Type) -> (r: bool)
    ensures
        r == type_translatable(lang, t@),
    decreases t,
{
    match t {
        Type::Simple(s) => is_translatable(lang, s.as_str()),
        Type::Parameterized { base, params } => {
            proof {
                lemma_type_models(params@);
                lemma_all_translatable(lang, type_models(params@));
            }
            if !is_translatable(lang, base.as_str()) {
                return false;
            }
            let ghost ms = type_models(params@);
            let mut i: usize = 0;
            while i < params.len()
                invariant
                    0 <= i <= params.len(),
                    forall|k: int| 0 <= k < i ==> #[trigger] type_translatable(lang, ms[k]),
                decreases params.len() - i,
            {
                assert(ms[i as int] == params@[i as int]@);
                if !is_type_translatable(lang, &params[i]) {
                    return false;
                }
                i = i + 1;
            }
            true
        },
    }
}

// ---------------------------------------------------------------------
// Laws
// ---------------------------------------------------------------------

proof fn lemma_wrapped(prefix: Seq<char>, x: Seq<char>)
    ensures
        has_prefix(prefix + x + seq!['>'], prefix),
        unwrap_ok(prefix + x + seq!['>'], prefix),
        unwrap(prefix + x + seq!['>'], prefix) == x,
{
    let s = prefix + x + seq!['>'];
    assert(s.subrange(0, prefix.len() as int) =~= prefix);
    assert(s.last() == '>');
    assert(is_ascii_char('>'));
    assert(s.subrange(prefix.len() as int, s.len() - 1) =~= x);
}

proof fn lemma_not_prefix(s: Seq<char>, p: Seq<char>)
    requires
        s.len() > 0,
        p.len() > 0,
        s[0] != p[0],
    ensures
        !has_prefix(s, p),
{
    if has_prefix(s, p) {
        assert(s.subrange(0, p.len() as int)[0] == s[0]);
    }
}

proof fn lemma_plain_t(lang: Lang)
    ensures
        translated(lang, "T"@) == "T"@,
{
    reveal_strlit("T");
    reveal_strlit("Option<T>");
    reveal_strlit("Vec<T>");
    reveal_strlit("HashMap<K,V>");
    reveal_strlit("&T");
    reveal_strlit("&mut [T]");
    reveal_strlit("usize");
    reveal_strlit("i32");
    reveal_strlit("bool");
    reveal_strlit("void");
    reveal_strlit("Option<");
    reveal_strlit("Vec<");
    reveal_strlit("HashMap<");
    reveal_strlit("Result<");
    reveal_strlit("Box<");
    let t = "T"@;
    assert(t.len() == 1);
    assert(!has_prefix(t, "Option<"@));
    assert(!has_prefix(t, "Vec<"@));
    assert(!has_prefix(t, "HashMap<"@));
    assert(!has_prefix(t, "Result<"@));
    assert(!has_prefix(t, "Box<"@));
    assert(exact_translation(lang, t) is None);
}

/// A list type `Vec<X>` translates to a list of the translation of `X`:
/// `List[X']` in Python, `X'[]` in TypeScript (`(X')[]` when `X'` is a
/// union), `List<X'>` in C# and `[]X'` in Go.
pub proof fn law_vec_translation(lang: Lang, x: Seq<char>)
    ensures
        ({
            let v = translated(lang, "Vec<"@ + x + seq!['>']);
            let tx = translated(lang, x);
            &&& lang is Python ==> v == "List["@ + tx + "]"@
            &&& lang is TypeScript ==> (v == tx + "[]"@ || v == "("@ + tx + ")[]"@)
            &&& (lang is TypeScript && !tx.contains('|')) ==> v == tx + "[]"@
            &&& lang is CSharp ==> v == "List<"@ + tx + ">"@
            &&& lang is Go ==> v == "[]"@ + tx
        }),
{
    reveal_strlit("Vec<");
    reveal_strlit("Vec<T>");
    reveal_strlit("T");
    reveal_strlit("Option<T>");
    reveal_strlit("HashMap<K,V>");
    reveal_strlit("&T");
    reveal_strlit("&mut [T]");
    reveal_strlit("usize");
    reveal_strlit("i32");
    reveal_strlit("bool");
    reveal_strlit("void");
    reveal_strlit("Option<");
    reveal_strlit("List[");
    reveal_strlit("]");
    reveal_strlit("[]");
    reveal_strlit("List<");
    reveal_strlit(">");
    reveal_strlit("List[T]");
    reveal_strlit("T[]");
    reveal_strlit("List<T>");
    reveal_strlit("[]T");
    let s = "Vec<"@ + x + seq!['>'];
    lemma_wrapped("Vec<"@, x);
    lemma_not_prefix(s, "Option<"@);
    let tx = translated(lang, x);
    if s == "Vec<T>"@ {
        assert(x =~= "T"@) by {
            assert(x =~= s.subrange(4, s.len() - 1));
        }
        lemma_plain_t(lang);
        assert(!tx.contains('|'));
        assert("List["@ + tx + "]"@ =~= "List[T]"@);
        assert(tx + "[]"@ =~= "T[]"@);
        assert("List<"@ + tx + ">"@ =~= "List<T>"@);
        assert("[]"@ + tx =~= "[]T"@);
    } else {
        assert(s != "Option<T>"@ && s != "HashMap<K,V>"@ && s != "&T"@ && s != "&mut [T]"@
            && s != "usize"@ && s != "i32"@ && s != "bool"@ && s != "void"@) by {
            assert(s[0] == 'V');
        }
        assert(exact_translation(lang, s) is None);
        if lang is TypeScript && !tx.contains('|') {
            if first_index(tx, '|') < tx.len() {
                lemma_first_index_bound(tx, '|');
                assert(tx[first_index(tx, '|') as int] == '|');
            }
        }
    }
}

proof fn lemma_reveal_table()
    ensures
        "Option<T>"@.len() == 9 && "Option<T>"@[0] == 'O',
        "Vec<T>"@.len() == 6 && "Vec<T>"@[0] == 'V',
        "HashMap<K,V>"@[0] == 'H',
        "&T"@[0] == '&',
        "&mut [T]"@[0] == '&',
        "usize"@[0] == 'u',
        "i32"@[0] == 'i',
        "bool"@[0] == 'b',
        "void"@[0] == 'v',
        "Option<"@.len() == 7 && "Option<"@[0] == 'O',
        "Vec<"@.len() == 4 && "Vec<"@[0] == 'V',
        "HashMap<"@.len() == 8 && "HashMap<"@[0] == 'H',
        "Result<"@.len() == 7 && "Result<"@[0] == 'R',
        "Box<"@.len() == 4 && "Box<"@[0] == 'B',
{
    reveal_strlit("Option<T>");
    reveal_strlit("Vec<T>");
    reveal_strlit("HashMap<K,V>");
    reveal_strlit("&T");
    reveal_strlit("&mut [T]");
    reveal_strlit("usize");
    reveal_strlit("i32");
    reveal_strlit("bool");
    reveal_strlit("void");
    reveal_strlit("Option<");
    reveal_strlit("Vec<");
    reveal_strlit("HashMap<");
    reveal_strlit("Result<");
    reveal_strlit("Box<");
}

/// An optional type `Option<X>` translates to an optional form of the
/// translation of `X`: `Optional[X']` in Python, `X' | null` in
/// TypeScript, `X'?` in C# and `*X'` in Go.
pub proof fn law_option_translation(lang: Lang, x: Seq<char>)
    ensures
        ({
            let v = translated(lang, "Option<"@ + x + seq!['>']);
            let tx = translated(lang, x);
            &&& lang is Python ==> v == "Optional["@ + tx + "]"@
            &&& lang is TypeScript ==> v == tx + " | null"@
            &&& lang is CSharp ==> v == tx + "?"@
            &&& lang is Go ==> v == "*"@ + tx
        }),
{
    lemma_reveal_table();
    reveal_strlit("Optional[");
    reveal_strlit("]");
    reveal_strlit(" | null");
    reveal_strlit("?");
    reveal_strlit("*");
    reveal_strlit("Optional[T]");
    reveal_strlit("T | null");
    reveal_strlit("T?");
    reveal_strlit("*T");
    reveal_strlit("Option<T>");
    reveal_strlit("T");
    let s = "Option<"@ + x + seq!['>'];
    lemma_wrapped("Option<"@, x);
    let tx = translated(lang, x);
    if s == "Option<T>"@ {
        assert(x =~= "T"@) by {
            assert(x =~= s.subrange(7, s.len() - 1));
        }
        lemma_plain_t(lang);
        assert("Optional["@ + tx + "]"@ =~= "Optional[T]"@);
        assert(tx + " | null"@ =~= "T | null"@);
        assert(tx + "?"@ =~= "T?"@);
        assert("*"@ + tx =~= "*T"@);
    } else {
        assert(s[0] == 'O');
        assert(exact_translation(lang, s) is None);
    }
}

/// A boxed type `Box<X>` translates as `X` itself.
pub proof fn law_box_translation(lang: Lang, x: Seq<char>)
    ensures
        translated(lang, "Box<"@ + x + seq!['>']) == translated(lang, x),
{
    lemma_reveal_table();
    let s = "Box<"@ + x + seq!['>'];
    lemma_wrapped("Box<"@, x);
    assert(s[0] == 'B');
    lemma_not_prefix(s, "Option<"@);
    lemma_not_prefix(s, "Vec<"@);
    lemma_not_prefix(s, "HashMap<"@);
    lemma_not_prefix(s, "Result<"@);
    assert(exact_translation(lang, s) is None);
}

/// A result type `Result<X>` whose arguments are a success type `T` and an
/// error type translates to the translation of `T` (the error is raised)
/// in Python, TypeScript and C#, and to the pair `(T', error)` in Go; with
/// any other number of arguments it is kept as written.
pub proof fn law_result_translation(lang: Lang, x: Seq<char>)
    ensures
        ({
            let v = translated(lang, "Result<"@ + x + seq!['>']);
            match two_args(x) {
                Some((t, _e)) => {
                    &&& lang is Go ==> v == "("@ + translated(lang, t) + ", error)"@
                    &&& !(lang is Go) ==> v == translated(lang, t)
                },
                None => v == "Result<"@ + x + seq!['>'],
            }
        }),
{
    lemma_reveal_table();
    let s = "Result<"@ + x + seq!['>'];
    lemma_wrapped("Result<"@, x);
    assert(s[0] == 'R');
    lemma_not_prefix(s, "Option<"@);
    lemma_not_prefix(s, "Vec<"@);
    lemma_not_prefix(s, "HashMap<"@);
    assert(exact_translation(lang, s) is None);
}

/// In Python a map type `HashMap<X>` whose arguments are a key type `K`
/// and a value type `V` translates to `Dict[K', V']`.
pub proof fn law_python_dict_translation(x: Seq<char>, k: Seq<char>, v: Seq<char>)
    requires
        two_args(x) == Some((k, v)),
        "HashMap<"@ + x + seq!['>'] != "HashMap<K,V>"@,
    ensures
        translated(Lang::Python, "HashMap<"@ + x + seq!['>']) == "Dict["@ + translated(
            Lang::Python,
            k,
        ) + ", "@ + translated(Lang::Python, v) + "]"@,
{
    lemma_reveal_table();
    let s = "HashMap<"@ + x + seq!['>'];
    lemma_wrapped("HashMap<"@, x);
    assert(s[0] == 'H');
    lemma_not_prefix(s, "Option<"@);
    lemma_not_prefix(s, "Vec<"@);
    assert(exact_translation(Lang::Python, s) is None);
}

} // verus!
