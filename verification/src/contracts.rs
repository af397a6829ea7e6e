//! Injection of contract assertions into each method of a specification.

use vstd::prelude::*;
use crate::ast::{Spec, StructDef, MethodDef, MethodDefModel, SpecModel};
use crate::text::{views, concat2};

verus! {

/// Each item of `items` with `tag` in front.
pub open spec fn tagged(tag: Seq<char>, items: Seq<Seq<char>>) -> Seq<Seq<char>> {
    items.map_values(|x: Seq<char>| tag + x)
}

/// The assertions injected into a method: its preconditions, its
/// postconditions and then the spec's invariants, each tagged with its kind.
pub open spec fn method_assertions(m: MethodDefModel, invariants: Seq<Seq<char>>) -> Seq<
    Seq<char>,
> {
    tagged("precondition: "@, m.preconditions) + tagged("postcondition: "@, m.postconditions)
        + tagged("invariant: "@, invariants)
}

/// `m` with its injected assertions replaced.
pub open spec fn with_assertions(m: MethodDefModel, invariants: Seq<Seq<char>>) -> MethodDefModel {
    MethodDefModel { injected_assertions: method_assertions(m, invariants), ..m }
}

/// The spec with assertions injected into every method; nothing else changes.
pub open spec fn injected(s: SpecModel) -> SpecModel {
    SpecModel {
        methods: s.methods.map_values(
            |m: MethodDefModel| with_assertions(m, s.contracts.invariants),
        ),
        ..s
    }
}

/// Appends `tag + item` for every item.
fn push_tagged(out: &mut Vec<String>, tag: &str, items: &Vec<String>)
    ensures
        views(final(out)@) == views(old(out)@) + tagged(tag@, views(items@)),
{
    let mut i: usize = 0;
    while i < items.len()
        invariant
            0 <= i <= items.len(),
            views(out@) == views(old(out)@) + tagged(tag@, views(items@.subrange(0, i as int))),
        decreases items.len() - i,
    {
        let ghost before = out@;
        let t = concat2(tag, items[i].as_str());
        out.push(t);
        proof {
            assert(views(out@) =~= views(before).push(t@));
            assert(views(items@.subrange(0, i + 1)) =~= views(items@.subrange(0, i as int)).push(
                items@[i as int]@,
            ));
            assert(tagged(tag@, views(items@.subrange(0, i + 1))) =~= tagged(
                tag@,
                views(items@.subrange(0, i as int)),
            ).push(tag@ + items@[i as int]@));
        }
        i = i + 1;
        assert(views(out@) =~= views(old(out)@) + tagged(
            tag@,
            views(items@.subrange(0, i as int)),
        ));
    }
    assert(items@.subrange(0, items@.len() as int) =~= items@);
}

/// Injects contract assertions into each method's `injected_assertions` field.
///
/// For each method, collects precondition, postcondition, and spec-level
/// invariant conditions as raw strings (language-agnostic). Backends
/// render these into language-specific assertion syntax when
/// `contracts_enabled` is set.
pub fn inject_assertions(spec: &Spec) -> (r: Spec)
    ensures
        r@ == injected(spec@),
{
    let mut methods: Vec<MethodDef> = Vec::new();
    let mut i: usize = 0;
    while i < spec.methods.len()
        invariant
            0 <= i <= spec.methods.len(),
            methods@.len() == i,
            forall|k: int|
                0 <= k < i ==> #[trigger] methods@[k]@ == with_assertions(
                    spec.methods@[k]@,
                    spec.contracts@.invariants,
                ),
        decreases spec.methods.len() - i,
    {
        let m = &spec.methods[i];
        let mut assertions: Vec<String> = Vec::new();
        push_tagged(&mut assertions, "precondition: ", &m.preconditions);
        push_tagged(&mut assertions, "postcondition: ", &m.postconditions);
        push_tagged(&mut assertions, "invariant: ", &spec.contracts.invariants);
        let mut c = m.clone();
        c.injected_assertions = assertions;
        assert(c@ =~= with_assertions(m@, spec.contracts@.invariants));
        methods.push(c);
        i = i + 1;
    }
    let mut structs: Vec<StructDef> = Vec::new();
    let mut j: usize = 0;
    while j < spec.structs.len()
        invariant
            0 <= j <= spec.structs.len(),
            structs@.len() == j,
            forall|k: int| 0 <= k < j ==> #[trigger] structs@[k]@ == spec.structs@[k]@,
        decreases spec.structs.len() - j,
    {
        structs.push(spec.structs[j].clone());
        j = j + 1;
    }
    let r = Spec {
        spec_version: spec.spec_version.clone(),
        metadata: spec.metadata.clone(),
        contracts: spec.contracts.clone(),
        structs,
        methods,
        verification: spec.verification.clone(),
    };
    assert(r@.structs =~= spec@.structs);
    assert(r@.methods =~= injected(spec@).methods);
    r
}

// ---------------------------------------------------------------------
// Laws
// ---------------------------------------------------------------------

/// Injection is idempotent: the injected assertions are computed from the
/// conditions alone, so injecting twice gives the same spec as once.
pub proof fn law_inject_idempotent(s: SpecModel)
    ensures
        injected(injected(s)) == injected(s),
{
    let once = injected(s);
    assert(injected(once).methods =~= once.methods);
}

/// Every method receives exactly one assertion per precondition,
/// postcondition and invariant, and keeps its name, parameters, return type
/// and conditions.
pub proof fn law_inject_counts(s: SpecModel, k: int)
    requires
        0 <= k < s.methods.len(),
    ensures
        injected(s).methods.len() == s.methods.len(),
        injected(s).methods[k].injected_assertions.len() == s.methods[k].preconditions.len()
            + s.methods[k].postconditions.len() + s.contracts.invariants.len(),
        injected(s).methods[k].name == s.methods[k].name,
        injected(s).methods[k].params == s.methods[k].params,
        injected(s).methods[k].returns == s.methods[k].returns,
        injected(s).methods[k].preconditions == s.methods[k].preconditions,
        injected(s).methods[k].postconditions == s.methods[k].postconditions,
{
}

/// Every injected assertion names the kind of condition it came from: a
/// method gets `precondition: <p>` for each of its preconditions, then
/// `postcondition: <q>` for each of its postconditions, then
/// `invariant: <i>` for each invariant of the spec, all in order.
pub proof fn law_injected_assertions_are_tagged(s: SpecModel, k: int)
    requires
        0 <= k < s.methods.len(),
    ensures
        forall|i: int|
            #![trigger s.methods[k].preconditions[i]]
            0 <= i < s.methods[k].preconditions.len() ==> injected(s).methods[k].injected_assertions[i]
                == "precondition: "@ + s.methods[k].preconditions[i],
        forall|j: int|
            #![trigger s.methods[k].postconditions[j]]
            0 <= j < s.methods[k].postconditions.len() ==> injected(s).methods[k].injected_assertions[s.methods[k].preconditions.len()
                + j] == "postcondition: "@ + s.methods[k].postconditions[j],
        forall|j: int|
            #![trigger s.contracts.invariants[j]]
            0 <= j < s.contracts.invariants.len() ==> injected(s).methods[k].injected_assertions[s.methods[k].preconditions.len()
                + s.methods[k].postconditions.len() + j] == "invariant: "@ + s.contracts.invariants[j],
{
    let m = s.methods[k];
    let pre = tagged("precondition: "@, m.preconditions);
    let post = tagged("postcondition: "@, m.postconditions);
    let inv = tagged("invariant: "@, s.contracts.invariants);
    assert(injected(s).methods[k].injected_assertions == pre + post + inv);
    assert forall|j: int| 0 <= j < m.postconditions.len() implies (pre + post + inv)[pre.len() + j]
        == #[trigger] post[j] by {}
    assert forall|j: int| 0 <= j < s.contracts.invariants.len() implies (pre + post + inv)[pre.len()
        + post.len() + j] == #[trigger] inv[j] by {}
}

} // verus!
