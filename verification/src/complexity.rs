//! Complexity reports across specifications: a markdown table, a JSON
//! report and a Mermaid time/space chart.

use vstd::prelude::*;
use crate::ast::{Spec, SpecModel, MetadataModel};
use crate::casing::{unicode_lowercase, to_lowercase};
use crate::error::SpecError;
use vstd::seq_lib::seq_to_set_is_finite;
use vstd::set_lib::{lemma_int_range, lemma_subset_equality, set_int_range};
use crate::text::{
    join, views, opt_view, chars_of, owned, concat2, concat3, join_strings, contains_sub,
    contains, trim, TrimSet, trim_whitespace, push_char, digit, digit_char, decimal,
};

verus! {

// ---------------------------------------------------------------------
// Ordering by category, then name
// ---------------------------------------------------------------------

/// `a` comes strictly before `b` in lexicographic character order (the
/// order of `str` comparison, since UTF-8 preserves code point order).
pub open spec fn chars_less(a: Seq<char>, b: Seq<char>) -> bool
    decreases a.len(),
{
    if a.len() == 0 {
        b.len() > 0
    } else if b.len() == 0 {
        false
    } else if a[0] != b[0] {
        a[0] < b[0]
    } else {
        chars_less(a.subrange(1, a.len() as int), b.subrange(1, b.len() as int))
    }
}

proof fn lemma_chars_less_irreflexive(a: Seq<char>)
    ensures
        !chars_less(a, a),
    decreases a.len(),
{
    if a.len() > 0 {
        lemma_chars_less_irreflexive(a.subrange(1, a.len() as int));
    }
}

proof fn lemma_chars_less_asym(a: Seq<char>, b: Seq<char>)
    ensures
        chars_less(a, b) ==> !chars_less(b, a),
    decreases a.len(),
{
    if a.len() > 0 && b.len() > 0 && a[0] == b[0] {
        lemma_chars_less_asym(a.subrange(1, a.len() as int), b.subrange(1, b.len() as int));
    }
}

proof fn lemma_chars_less_trans(a: Seq<char>, b: Seq<char>, c: Seq<char>)
    ensures
        chars_less(a, b) && chars_less(b, c) ==> chars_less(a, c),
    decreases a.len(),
{
    if a.len() > 0 && b.len() > 0 && c.len() > 0 {
        lemma_chars_less_trans(
            a.subrange(1, a.len() as int),
            b.subrange(1, b.len() as int),
            c.subrange(1, c.len() as int),
        );
    }
}

proof fn lemma_chars_less_total(a: Seq<char>, b: Seq<char>)
    ensures
        a != b ==> chars_less(a, b) || chars_less(b, a),
    decreases a.len(),
{
    if a.len() > 0 && b.len() > 0 && a[0] == b[0] {
        let ta = a.subrange(1, a.len() as int);
        let tb = b.subrange(1, b.len() as int);
        lemma_chars_less_total(ta, tb);
        if ta == tb {
            assert(a =~= seq![a[0]] + ta);
            assert(b =~= seq![b[0]] + tb);
        }
    } else if a.len() == 0 && b.len() == 0 {
        assert(a =~= b);
    }
}

/// The sort key of a spec: category, then name.
pub open spec fn key_less(x: MetadataModel, y: MetadataModel) -> bool {
    chars_less(x.category, y.category) || (x.category == y.category && chars_less(x.name, y.name))
}

pub open spec fn same_key(x: MetadataModel, y: MetadataModel) -> bool {
    x.category == y.category && x.name == y.name
}

proof fn lemma_key_facts(x: MetadataModel, y: MetadataModel, z: MetadataModel)
    ensures
        !key_less(x, x),
        key_less(x, y) ==> !key_less(y, x) && !same_key(x, y),
        key_less(x, y) && key_less(y, z) ==> key_less(x, z),
        !key_less(x, y) && !key_less(y, x) ==> same_key(x, y),
{
    lemma_chars_less_irreflexive(x.category);
    lemma_chars_less_irreflexive(x.name);
    lemma_chars_less_asym(x.category, y.category);
    lemma_chars_less_asym(x.name, y.name);
    lemma_chars_less_trans(x.category, y.category, z.category);
    lemma_chars_less_trans(x.name, y.name, z.name);
    lemma_chars_less_total(x.category, y.category);
    lemma_chars_less_total(x.name, y.name);
}

/// `order` lists every spec once, sorted by category and name; specs with
/// the same category and name keep their input order (a stable sort).
pub open spec fn is_report_order(ms: Seq<MetadataModel>, order: Seq<int>) -> bool {
    &&& order.len() == ms.len()
    &&& forall|a: int| 0 <= a < order.len() ==> 0 <= #[trigger] order[a] < ms.len()
    &&& forall|a: int, b: int| 0 <= a < b < order.len() ==> order[a] != order[b]
    &&& forall|a: int, b: int|
        #![trigger order[a], order[b]]
        0 <= a < b < order.len() ==> !key_less(ms[order[b]], ms[order[a]]) && (same_key(
            ms[order[a]],
            ms[order[b]],
        ) ==> order[a] < order[b])
}

proof fn lemma_order_covers(ms: Seq<MetadataModel>, o: Seq<int>, x: int)
    requires
        is_report_order(ms, o),
        0 <= x < ms.len(),
    ensures
        exists|c: int| 0 <= c < o.len() && o[c] == x,
{
    assert(o.no_duplicates()) by {
        assert forall|a: int, b: int| 0 <= a < o.len() && 0 <= b < o.len() && a != b implies o[a]
            != o[b] by {
            if a > b {
                assert(o[b] != o[a]);
            }
        }
    }
    o.unique_seq_to_set();
    lemma_int_range(0, ms.len() as int);
    seq_to_set_is_finite(o);
    assert(o.to_set().subset_of(set_int_range(0, ms.len() as int))) by {
        assert forall|v: int| o.to_set().contains(v) implies set_int_range(
            0,
            ms.len() as int,
        ).contains(v) by {
            let c = choose|c: int| 0 <= c < o.len() && o[c] == v;
            assert(0 <= o[c] < ms.len());
        }
    }
    lemma_subset_equality(o.to_set(), set_int_range(0, ms.len() as int));
    assert(set_int_range(0, ms.len() as int).contains(x));
    assert(o.to_set().contains(x));
}

proof fn lemma_first_difference(o1: Seq<int>, o2: Seq<int>, a: int)
    requires
        o1.len() == o2.len(),
        0 <= a < o1.len(),
        o1[a] != o2[a],
    ensures
        exists|f: int|
            0 <= f < o1.len() && o1[f] != o2[f] && forall|b: int| 0 <= b < f ==> o1[b] == o2[b],
    decreases a,
{
    if exists|b: int| 0 <= b < a && o1[b] != o2[b] {
        let b = choose|b: int| 0 <= b < a && o1[b] != o2[b];
        lemma_first_difference(o1, o2, b);
    }
}

/// The row order of the complexity table is fully determined: only one
/// order lists every spec once, sorted by category and name, with specs of
/// equal category and name in input order.
pub proof fn law_report_order_unique(ms: Seq<MetadataModel>, o1: Seq<int>, o2: Seq<int>)
    requires
        is_report_order(ms, o1),
        is_report_order(ms, o2),
    ensures
        o1 == o2,
{
    if exists|a: int| 0 <= a < o1.len() && o1[a] != o2[a] {
        let a0 = choose|a: int| 0 <= a < o1.len() && o1[a] != o2[a];
        lemma_first_difference(o1, o2, a0);
        let a = choose|f: int|
            0 <= f < o1.len() && o1[f] != o2[f] && forall|b: int| 0 <= b < f ==> o1[b] == o2[b];
        let x = o1[a];
        let y = o2[a];
        lemma_order_covers(ms, o2, x);
        lemma_order_covers(ms, o1, y);
        let c = choose|c: int| 0 <= c < o2.len() && o2[c] == x;
        let d = choose|d: int| 0 <= d < o1.len() && o1[d] == y;
        if c < a {
            assert(o1[c] == o2[c]);
            assert(o1[c] != o1[a]);
        }
        if d < a {
            assert(o2[d] == o1[d]);
            assert(o2[d] != o2[a]);
        }
        assert(c > a && d > a);
        // x comes before y in o1, and y before x in o2.
        assert(!key_less(ms[o1[d]], ms[o1[a]]));
        assert(!key_less(ms[o2[c]], ms[o2[a]]));
        lemma_key_facts(ms[x], ms[y], ms[x]);
        assert(same_key(ms[x], ms[y]));
        assert(o1[a] < o1[d]);
        assert(same_key(ms[o2[a]], ms[o2[c]]));
        assert(o2[a] < o2[c]);
        assert(false);
    }
    assert(o1 =~= o2);
}

/// `o` or `N/A`.
pub open spec fn or_na(o: Option<Seq<char>>) -> Seq<char> {
    match o {
        Some(x) => x,
        None => "N/A"@,
    }
}

pub open spec fn report_row(m: MetadataModel) -> Seq<char> {
    "| "@ + m.name + " | "@ + m.category + " | "@ + or_na(m.complexity.time) + " | "@ + or_na(
        m.complexity.space,
    ) + " |"@
}

/// The table: header, separator, one row per spec in `order`, and a final
/// empty line, joined by newlines.
pub open spec fn report_text(ms: Seq<MetadataModel>, order: Seq<int>) -> Seq<char> {
    join(
        seq![
            "| DSA | Category | Time Complexity | Space Complexity |"@,
            "|---|---|---|---|"@,
        ] + order.map_values(|i: int| report_row(ms[i])) + seq![Seq::<char>::empty()],
        "\n"@,
    )
}

pub open spec fn metadata_of(specs: Seq<Spec>) -> Seq<MetadataModel> {
    specs.map_values(|s: Spec| s.metadata@)
}

fn chars_less_exec(a: &Vec<char>, b: &Vec<char>) -> (r: bool)
    ensures
        r == chars_less(a@, b@),
{
    let mut i: usize = 0;
    assert(a@.subrange(0, a@.len() as int) =~= a@);
    assert(b@.subrange(0, b@.len() as int) =~= b@);
    while i < a.len() && i < b.len() && a[i] == b[i]
        invariant
            0 <= i <= a.len(),
            i <= b.len(),
            chars_less(a@, b@) == chars_less(
                a@.subrange(i as int, a.len() as int),
                b@.subrange(i as int, b.len() as int),
            ),
        decreases a.len() - i,
    {
        proof {
            let sa = a@.subrange(i as int, a.len() as int);
            let sb = b@.subrange(i as int, b.len() as int);
            assert(sa.subrange(1, sa.len() as int) =~= a@.subrange(i + 1, a.len() as int));
            assert(sb.subrange(1, sb.len() as int) =~= b@.subrange(i + 1, b.len() as int));
        }
        i = i + 1;
    }
    if i == a.len() {
        i < b.len()
    } else if i == b.len() {
        false
    } else {
        a[i] < b[i]
    }
}

/// Spec `i` sorts strictly before spec `j`.
fn key_less_exec(cats: &Vec<Vec<char>>, names: &Vec<Vec<char>>, i: usize, j: usize) -> (r: bool)
    requires
        i < cats.len(),
        j < cats.len(),
        cats.len() == names.len(),
    ensures
        r == (chars_less(cats@[i as int]@, cats@[j as int]@) || (cats@[i as int]@
            == cats@[j as int]@ && chars_less(names@[i as int]@, names@[j as int]@))),
{
    if chars_less_exec(&cats[i], &cats[j]) {
        return true;
    }
    if chars_less_exec(&cats[j], &cats[i]) {
        proof {
            lemma_chars_less_asym(cats@[j as int]@, cats@[i as int]@);
            lemma_chars_less_irreflexive(cats@[i as int]@);
        }
        return false;
    }
    proof {
        lemma_chars_less_total(cats@[i as int]@, cats@[j as int]@);
    }
    chars_less_exec(&names[i], &names[j])
}

/// The stable sort order of the specs by category and name.
fn report_order(specs: &[Spec]) -> (order: Vec<usize>)
    ensures
        is_report_order(metadata_of(specs@), order@.map_values(|x: usize| x as int)),
{
    let ghost ms = metadata_of(specs@);
    let mut cats: Vec<Vec<char>> = Vec::new();
    let mut names: Vec<Vec<char>> = Vec::new();
    let mut k: usize = 0;
    while k < specs.len()
        invariant
            0 <= k <= specs.len(),
            ms == metadata_of(specs@),
            cats@.len() == k,
            names@.len() == k,
            forall|q: int| 0 <= q < k ==> #[trigger] cats@[q]@ == ms[q].category,
            forall|q: int| 0 <= q < k ==> #[trigger] names@[q]@ == ms[q].name,
        decreases specs.len() - k,
    {
        cats.push(chars_of(specs[k].metadata.category.as_str()));
        names.push(chars_of(specs[k].metadata.name.as_str()));
        k = k + 1;
    }
    assert(ms.len() == specs.len());
    let mut order: Vec<usize> = Vec::new();
    let mut i: usize = 0;
    while i < specs.len()
        invariant
            0 <= i <= specs.len(),
            ms == metadata_of(specs@),
            ms.len() == specs.len(),
            cats@.len() == specs.len(),
            names@.len() == specs.len(),
            forall|q: int| 0 <= q < specs.len() ==> #[trigger] cats@[q]@ == ms[q].category,
            forall|q: int| 0 <= q < specs.len() ==> #[trigger] names@[q]@ == ms[q].name,
            order@.len() == i,
            forall|a: int| 0 <= a < i ==> #[trigger] order@[a] < i,
            forall|a: int, b: int| 0 <= a < b < i ==> order@[a] != order@[b],
            forall|a: int, b: int|
                #![trigger order@[a], order@[b]]
                0 <= a < b < i ==> !key_less(ms[order@[b] as int], ms[order@[a] as int]) && (
                same_key(ms[order@[a] as int], ms[order@[b] as int]) ==> order@[a] < order@[b]),
        decreases specs.len() - i,
    {
        let mut p: usize = 0;
        while p < order.len() && !key_less_exec(&cats, &names, i, order[p])
            invariant
                0 <= p <= order.len(),
                order@.len() == i,
                i < specs.len(),
                cats@.len() == specs.len(),
                names@.len() == specs.len(),
                forall|a: int| 0 <= a < i ==> #[trigger] order@[a] < i,
                forall|q: int| 0 <= q < specs.len() ==> #[trigger] cats@[q]@ == ms[q].category,
            forall|q: int| 0 <= q < specs.len() ==> #[trigger] names@[q]@ == ms[q].name,
                forall|a: int| 0 <= a < p ==> !key_less(ms[i as int], ms[#[trigger] order@[a] as int]),
            decreases order.len() - p,
        {
            p = p + 1;
        }
        let ghost old_order = order@;
        proof {
            if p < order.len() {
                assert(key_less(ms[i as int], ms[order@[p as int] as int]));
            }
        }
        order.insert(p, i);
        proof {
            assert forall|a: int| 0 <= a < i + 1 implies #[trigger] order@[a] < i + 1 by {
                if a < p {
                    assert(order@[a] == old_order[a]);
                } else if a > p {
                    assert(order@[a] == old_order[a - 1]);
                }
            }
            assert forall|a: int, b: int| 0 <= a < b < i + 1 implies order@[a] != order@[b] by {
                if a < p && b < p {
                    assert(order@[a] == old_order[a] && order@[b] == old_order[b]);
                } else if a < p && b == p {
                    assert(old_order[a] < i);
                } else if a < p {
                    assert(order@[a] == old_order[a] && order@[b] == old_order[b - 1]);
                } else if a == p {
                    assert(old_order[b - 1] < i);
                } else {
                    assert(order@[a] == old_order[a - 1] && order@[b] == old_order[b - 1]);
                }
            }
            assert forall|a: int, b: int| 0 <= a < b < i + 1 implies !key_less(
                ms[#[trigger] order@[b] as int],
                ms[#[trigger] order@[a] as int],
            ) && (same_key(ms[order@[a] as int], ms[order@[b] as int]) ==> order@[a] < order@[b]) by {
                let x = ms[order@[a] as int];
                let y = ms[order@[b] as int];
                if a < p && b < p {
                    assert(order@[a] == old_order[a] && order@[b] == old_order[b]);
                } else if a < p && b == p {
                    assert(order@[a] == old_order[a]);
                    assert(old_order[a] < i);
                    lemma_key_facts(y, x, y);
                } else if a < p {
                    assert(order@[a] == old_order[a] && order@[b] == old_order[b - 1]);
                } else if a == p {
                    assert(order@[b] == old_order[b - 1]);
                    let z = ms[old_order[p as int] as int];
                    if b - 1 > p {
                        assert(!key_less(ms[old_order[b - 1] as int], ms[old_order[p as int] as int]));
                    }
                    lemma_key_facts(x, z, y);
                    lemma_key_facts(y, z, x);
                    lemma_key_facts(z, y, z);
                    lemma_key_facts(y, x, y);
                    if !key_less(y, z) && !key_less(z, y) {
                        assert(same_key(z, y));
                        assert(key_less(x, y));
                    }
                } else {
                    assert(order@[a] == old_order[a - 1] && order@[b] == old_order[b - 1]);
                }
            }
        }
        i = i + 1;
    }
    order
}

/// A spec's row of the table.
fn report_row_of(s: &Spec) -> (r: String)
    ensures
        r@ == report_row(s.metadata@),
{
    let md = &s.metadata;
    let mut r = concat3("| ", md.name.as_str(), " | ");
    r.append(md.category.as_str());
    r.append(" | ");
    match &md.complexity.time {
        Some(t) => r.append(t.as_str()),
        None => r.append("N/A"),
    }
    r.append(" | ");
    match &md.complexity.space {
        Some(t) => r.append(t.as_str()),
        None => r.append("N/A"),
    }
    r.append(" |");
    r
}

/// Generates a markdown comparison table of complexity across specs.
pub fn generate_report(specs: &[Spec]) -> (r: String)
    ensures
        exists|order: Seq<int>|
            is_report_order(metadata_of(specs@), order) && r@ == report_text(
                metadata_of(specs@),
                order,
            ),
{
    let ghost ms = metadata_of(specs@);
    let order = report_order(specs);
    let ghost o = order@.map_values(|x: usize| x as int);
    let mut lines: Vec<String> = Vec::new();
    lines.push(owned("| DSA | Category | Time Complexity | Space Complexity |"));
    lines.push(owned("|---|---|---|---|"));
    let mut k: usize = 0;
    while k < order.len()
        invariant
            0 <= k <= order.len(),
            ms == metadata_of(specs@),
            o == order@.map_values(|x: usize| x as int),
            is_report_order(ms, o),
            ms.len() == specs.len(),
            lines@.len() == k + 2,
            lines@[0]@ == "| DSA | Category | Time Complexity | Space Complexity |"@,
            lines@[1]@ == "|---|---|---|---|"@,
            forall|q: int| 0 <= q < k ==> #[trigger] lines@[q + 2]@ == report_row(ms[o[q]]),
        decreases order.len() - k,
    {
        assert(0 <= o[k as int] < ms.len());
        let row = report_row_of(&specs[order[k]]);
        lines.push(row);
        k = k + 1;
    }
    lines.push(String::new());
    let r = join_strings(&lines, "\n");
    proof {
        let want = seq![
            "| DSA | Category | Time Complexity | Space Complexity |"@,
            "|---|---|---|---|"@,
        ] + o.map_values(|i: int| report_row(ms[i])) + seq![Seq::<char>::empty()];
        assert forall|q: int| 0 <= q < want.len() implies #[trigger] views(lines@)[q] == want[q] by {
            if 2 <= q < want.len() - 1 {
                assert(lines@[(q - 2) + 2]@ == report_row(ms[o[q - 2]]));
            }
        }
        assert(views(lines@) =~= want);
    }
    r
}

// ---------------------------------------------------------------------
// Ordinals and the chart
// ---------------------------------------------------------------------

/// The position of a Big-O text on a slow/heavy scale, in hundredths of
/// the unit interval: exponential 95, quadratic 80, `n log n` 60, graph
/// (`V+E`) 55, linear 40, logarithmic 20, constant 5; `None` when the text
/// is not recognized. Read from the lowercased text.
pub open spec fn ordinal_of_lowered(s: Seq<char>) -> Option<u32> {
    if contains_sub(s, "2^n"@) || contains_sub(s, "2\u{207f}"@) || contains_sub(s, "exponential"@) {
        Some(95)
    } else if contains_sub(s, "n^2"@) || contains_sub(s, "n\u{b2}"@) || contains_sub(
        s,
        "quadratic"@,
    ) {
        Some(80)
    } else if contains_sub(s, "n log n"@) || contains_sub(s, "nlogn"@) {
        Some(60)
    } else if contains_sub(s, "v+e"@) || contains_sub(s, "v + e"@) {
        Some(55)
    } else if contains_sub(s, "v"@) && contains_sub(s, "e"@) {
        Some(55)
    } else if contains_sub(s, "(n)"@) || contains_sub(s, "linear"@) {
        Some(40)
    } else if contains_sub(s, "log n"@) || contains_sub(s, "logn"@) || contains_sub(
        s,
        "logarithmic"@,
    ) {
        Some(20)
    } else if contains_sub(s, "(1)"@) || contains_sub(s, "constant"@) {
        Some(5)
    } else {
        None
    }
}

/// The ordinal of a Big-O text: the text trimmed, then lowercased.
pub open spec fn ordinal(s: Seq<char>) -> Option<u32> {
    ordinal_of_lowered(unicode_lowercase(trim(s, TrimSet::Whitespace)))
}

/// The ordinal of an already trimmed and lowercased Big-O text.
pub fn ordinal_from_lowered(s: &str) -> (r: Option<u32>)
    ensures
        r == ordinal_of_lowered(s@),
{
    if contains(s, "2^n") || contains(s, "2\u{207f}") || contains(s, "exponential") {
        return Some(95);
    }
    if contains(s, "n^2") || contains(s, "n\u{b2}") || contains(s, "quadratic") {
        return Some(80);
    }
    if contains(s, "n log n") || contains(s, "nlogn") {
        return Some(60);
    }
    if contains(s, "v+e") || contains(s, "v + e") {
        return Some(55);
    }
    if contains(s, "v") && contains(s, "e") {
        return Some(55);
    }
    if contains(s, "(n)") || contains(s, "linear") {
        return Some(40);
    }
    if contains(s, "log n") || contains(s, "logn") || contains(s, "logarithmic") {
        return Some(20);
    }
    if contains(s, "(1)") || contains(s, "constant") {
        return Some(5);
    }
    None
}

/// Parse a Big-O string to a numeric ordinal for chart positioning, in
/// hundredths of [0, 1], where higher = slower/more memory.
pub fn complexity_to_ordinal(s: &str) -> (r: Option<u32>)
    ensures
        r == ordinal(s@),
{
    let t = trim_whitespace(s);
    let lowered = to_lowercase(t.as_str());
    ordinal_from_lowered(lowered.as_str())
}

/// The decimal text of `h` hundredths, `0 < h < 100`, in shortest form
/// (`0.05`, `0.2`, `0.55`).
pub open spec fn hundredths_text(h: nat) -> Seq<char> {
    if h % 10 == 0 {
        "0."@ + seq![digit_char(h / 10)]
    } else {
        "0."@ + seq![digit_char(h / 10), digit_char(h % 10)]
    }
}

fn hundredths_text_of(h: u32) -> (r: String)
    requires
        h < 100,
    ensures
        r@ == hundredths_text(h as nat),
{
    let mut r = owned("0.");
    push_char(&mut r, digit((h / 10) as usize));
    if h % 10 != 0 {
        push_char(&mut r, digit((h % 10) as usize));
    }
    r
}

/// The chart line of a spec, when both its time and space texts have an
/// ordinal.
pub open spec fn chart_point(m: MetadataModel) -> Option<Seq<char>> {
    match (m.complexity.time, m.complexity.space) {
        (Some(t), Some(s)) => match (ordinal(t), ordinal(s)) {
            (Some(a), Some(b)) => Some(
                "    \""@ + m.name + "\": ["@ + hundredths_text(a as nat) + ", "@
                    + hundredths_text(b as nat) + "]"@,
            ),
            _ => None,
        },
        _ => None,
    }
}

/// The chart lines of the specs that have one, in input order.
pub open spec fn chart_points(ms: Seq<MetadataModel>) -> Seq<Seq<char>>
    decreases ms.len(),
{
    if ms.len() == 0 {
        Seq::empty()
    } else {
        match chart_point(ms.last()) {
            Some(p) => chart_points(ms.drop_last()).push(p),
            None => chart_points(ms.drop_last()),
        }
    }
}

pub open spec fn chart_header() -> Seq<Seq<char>> {
    seq![
        "```mermaid"@,
        "quadrantChart"@,
        "    title Time vs Space Complexity"@,
        "    x-axis \"Fast Time\" --> \"Slow Time\""@,
        "    y-axis \"Low Memory\" --> \"High Memory\""@,
        "    quadrant-1 \"Ideal\""@,
        "    quadrant-2 \"Memory Heavy\""@,
        "    quadrant-3 \"Slow & Heavy\""@,
        "    quadrant-4 \"Time Heavy\""@,
    ]
}

/// The chart: a fenced Mermaid quadrant chart with one point per spec whose
/// time and space both have an ordinal.
pub open spec fn chart_text(ms: Seq<MetadataModel>) -> Seq<char> {
    join(chart_header() + chart_points(ms) + seq!["```"@], "\n"@)
}

/// A recognized Big-O text sits strictly inside the unit interval, in
/// hundredths: 0 < h < 100.
pub proof fn law_ordinal_in_unit_interval(s: Seq<char>)
    ensures
        ordinal(s) matches Some(h) ==> 0 < h < 100,
{
}

/// Generates a Mermaid quadrant chart visualizing time vs space tradeoffs.
pub fn generate_tradeoff_chart(specs: &[Spec]) -> (r: String)
    ensures
        r@ == chart_text(metadata_of(specs@)),
{
    let ghost ms = metadata_of(specs@);
    let mut lines: Vec<String> = Vec::new();
    lines.push(owned("```mermaid"));
    lines.push(owned("quadrantChart"));
    lines.push(owned("    title Time vs Space Complexity"));
    lines.push(owned("    x-axis \"Fast Time\" --> \"Slow Time\""));
    lines.push(owned("    y-axis \"Low Memory\" --> \"High Memory\""));
    lines.push(owned("    quadrant-1 \"Ideal\""));
    lines.push(owned("    quadrant-2 \"Memory Heavy\""));
    lines.push(owned("    quadrant-3 \"Slow & Heavy\""));
    lines.push(owned("    quadrant-4 \"Time Heavy\""));
    assert(views(lines@) =~= chart_header());
    let mut i: usize = 0;
    while i < specs.len()
        invariant
            0 <= i <= specs.len(),
            ms == metadata_of(specs@),
            views(lines@) == chart_header() + chart_points(ms.subrange(0, i as int)),
        decreases specs.len() - i,
    {
        let md = &specs[i].metadata;
        let ghost sub = ms.subrange(0, i + 1);
        assert(sub.drop_last() =~= ms.subrange(0, i as int));
        assert(sub.last() == md@);
        match (&md.complexity.time, &md.complexity.space) {
            (Some(t), Some(s)) => {
                let time_ord = complexity_to_ordinal(t.as_str());
                let space_ord = complexity_to_ordinal(s.as_str());
                match (time_ord, space_ord) {
                    (Some(a), Some(b)) => {
                        proof {
                            law_ordinal_in_unit_interval(t@);
                            law_ordinal_in_unit_interval(s@);
                        }
                        let mut line = concat3("    \"", md.name.as_str(), "\": [");
                        line.append(hundredths_text_of(a).as_str());
                        line.append(", ");
                        line.append(hundredths_text_of(b).as_str());
                        line.append("]");
                        let ghost before = views(lines@);
                        lines.push(line);
                        assert(chart_point(md@) == Some(line@));
                        assert(chart_points(sub) == chart_points(ms.subrange(0, i as int)).push(line@));
                        assert(views(lines@) =~= before.push(line@));
                        assert(views(lines@) =~= chart_header() + chart_points(sub));
                    },
                    _ => {},
                }
            },
            _ => {},
        }
        i = i + 1;
    }
    lines.push(owned("```"));
    assert(ms.subrange(0, ms.len() as int) =~= ms);
    assert(views(lines@) =~= chart_header() + chart_points(ms) + seq!["```"@]);
    join_strings(&lines, "\n")
}

// ---------------------------------------------------------------------
// JSON report
// ---------------------------------------------------------------------

/// The JSON error type.
#[verifier::external_type_specification]
#[verifier::external_body]
pub struct ExJsonError(serde_json::Error);

/// One key of a JSON object with its value, `None` standing for `null`.
pub type JsonPair = (String, Option<String>);

pub open spec fn pair_view(p: JsonPair) -> (Seq<char>, Option<Seq<char>>) {
    (p.0@, opt_view(p.1))
}

pub open spec fn object_view(o: Vec<JsonPair>) -> Seq<(Seq<char>, Option<Seq<char>>)> {
    o@.map_values(|p: JsonPair| pair_view(p))
}

/// What `serde_json::to_string_pretty` writes for the array of objects
/// given as key/value pairs, each object a map from string keys to a string
/// or `null` (keys sorted, a later pair with a key replacing an earlier one).
pub uninterp spec fn pretty_json_objects(objs: Seq<Seq<(Seq<char>, Option<Seq<char>>)>>) -> Seq<char>;

/// The pretty-printed JSON array of the objects (`serde_json::to_string_pretty`
/// on one `BTreeMap` per object). Stated: it succeeds (serde_json fails only
/// when a `Serialize` impl fails or a map key is not a string, and maps from
/// `&str` to optional `&str` do neither), and the text is a function of the
/// pairs alone; what the text is, is left to serde_json.
#[verifier::external_body]
fn objects_to_pretty_json(objs: &Vec<Vec<JsonPair>>) -> (r: Result<String, serde_json::Error>)
    ensures
        r is Ok,
        r matches Ok(s) ==> s@ == pretty_json_objects(
            objs@.map_values(|o: Vec<JsonPair>| object_view(o)),
        ),
{
    let maps: Vec<std::collections::BTreeMap<&str, Option<&str>>> = objs
        .iter()
        .map(|o| o.iter().map(|(k, v)| (k.as_str(), v.as_deref())).collect())
        .collect();
    serde_json::to_string_pretty(&maps)
}

/// The message of a JSON error (its `Display`). Nothing is stated of it.
#[verifier::external_body]
fn json_error_text(e: &serde_json::Error) -> (r: String) {
    e.to_string()
}

/// The JSON object of one spec: `name`, `category`, `time` and `space`,
/// the last two `null` when absent.
pub open spec fn json_object(m: MetadataModel) -> Seq<(Seq<char>, Option<Seq<char>>)> {
    seq![
        ("name"@, Some(m.name)),
        ("category"@, Some(m.category)),
        ("time"@, m.complexity.time),
        ("space"@, m.complexity.space),
    ]
}

/// The objects of the JSON report, one per spec in input order.
pub open spec fn json_objects(ms: Seq<MetadataModel>) -> Seq<Seq<(Seq<char>, Option<Seq<char>>)>> {
    ms.map_values(|m: MetadataModel| json_object(m))
}

/// Generates a JSON report of complexity across specs: the pretty JSON of
/// one object per spec, in input order, with the keys `name`, `category`,
/// `time` and `space`.
pub fn generate_json_report(specs: &[Spec]) -> (r: String)
    ensures
        r@ == pretty_json_objects(json_objects(metadata_of(specs@))),
{
    let mut objs: Vec<Vec<JsonPair>> = Vec::new();
    let mut i: usize = 0;
    while i < specs.len()
        invariant
            0 <= i <= specs.len(),
            objs@.len() == i,
            forall|k: int|
                0 <= k < i ==> #[trigger] object_view(objs@[k]) == json_objects(metadata_of(specs@))[k],
        decreases specs.len() - i,
    {
        let md = &specs[i].metadata;
        let mut o: Vec<JsonPair> = Vec::new();
        o.push((owned("name"), Some(md.name.clone())));
        o.push((owned("category"), Some(md.category.clone())));
        o.push((owned("time"), crate::text::clone_opt(&md.complexity.time)));
        o.push((owned("space"), crate::text::clone_opt(&md.complexity.space)));
        assert(object_view(o) =~= json_object(md@));
        objs.push(o);
        i = i + 1;
    }
    assert(objs@.map_values(|o: Vec<JsonPair>| object_view(o)) =~= json_objects(metadata_of(specs@)));
    match objects_to_pretty_json(&objs) {
        Ok(s) => s,
        Err(e) => {
            let mut r = owned("{\"error\": \"");
            r.append(json_error_text(&e).as_str());
            r.append("\"}");
            r
        },
    }
}

// ---------------------------------------------------------------------
// Loading a directory
// ---------------------------------------------------------------------

/// The outcome of loading the spec files of a directory: the parsed specs,
/// unless none parsed and there were errors.
pub fn load_outcome(specs: Vec<Spec>, errors: Vec<SpecError>) -> (r: Result<Vec<Spec>, Vec<SpecError>>)
    ensures
        match r {
            Ok(v) => v@ == specs@ && !(specs@.len() == 0 && errors@.len() > 0),
            Err(v) => v@ == errors@ && specs@.len() == 0 && errors@.len() > 0,
        },
{
    if specs.len() == 0 && errors.len() > 0 {
        Err(errors)
    } else {
        Ok(specs)
    }
}

} // verus!
