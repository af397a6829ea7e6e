//! Graphviz DOT and Mermaid class diagrams of a specification's data
//! structures, and Mermaid sequence diagrams of its calls and test cases.
//!
//! An edge goes from a struct's field to every struct whose name occurs in
//! the field's type text. Struct names are taken once each, in the order of
//! their first declaration, and the edges of a field follow that order.

use vstd::prelude::*;
use crate::ast::{
    Spec, SpecModel, StructDef, StructDefModel, FieldDef, FieldDefModel, MethodDef, MethodDefModel,
    ParamDefModel, TestCase, TestCaseModel, display,
};
use crate::casing::{unicode_lowercase, to_lowercase};
use crate::text::{
    join, concat_all, contains_sub, views, owned, str_eq, join_strings, contains, push_char,
    chars_of, concat2, concat3,
};

verus! {

// ---------------------------------------------------------------------
// Struct names and edges
// ---------------------------------------------------------------------

/// `names` without repetitions, each kept at its first position.
pub open spec fn unique(names: Seq<Seq<char>>) -> Seq<Seq<char>>
    decreases names.len(),
{
    if names.len() == 0 {
        Seq::empty()
    } else {
        let u = unique(names.drop_last());
        if u.contains(names.last()) {
            u
        } else {
            u.push(names.last())
        }
    }
}

/// The distinct struct names of the spec.
pub open spec fn struct_names(s: SpecModel) -> Seq<Seq<char>> {
    unique(s.structs.map_values(|d: StructDefModel| d.name))
}

/// The names that occur in `type_text`, in the order of `names`.
pub open spec fn edge_targets(type_text: Seq<char>, names: Seq<Seq<char>>) -> Seq<Seq<char>>
    decreases names.len(),
{
    if names.len() == 0 {
        Seq::empty()
    } else {
        let t = edge_targets(type_text, names.drop_last());
        if contains_sub(type_text, names.last()) {
            t.push(names.last())
        } else {
            t
        }
    }
}

/// One DOT edge; a self edge is drawn both ways.
pub open spec fn dot_edge(from: Seq<char>, field: Seq<char>, to: Seq<char>) -> Seq<char> {
    if from == to {
        "    "@ + from + ":"@ + field + " -> "@ + to + " [dir=both];\n"@
    } else {
        "    "@ + from + ":"@ + field + " -> "@ + to + ";\n"@
    }
}

/// One Mermaid relationship.
pub open spec fn mermaid_edge(from: Seq<char>, field: Seq<char>, to: Seq<char>) -> Seq<char> {
    "    "@ + from + " --> "@ + to + " : "@ + field + "\n"@
}

pub open spec fn edge(mermaid: bool, from: Seq<char>, field: Seq<char>, to: Seq<char>) -> Seq<char> {
    if mermaid {
        mermaid_edge(from, field, to)
    } else {
        dot_edge(from, field, to)
    }
}

/// The edges of one field.
pub open spec fn field_edges(mermaid: bool, from: Seq<char>, f: FieldDefModel, names: Seq<Seq<char>>) -> Seq<char> {
    concat_all(
        edge_targets(display(f.field_type), names).map_values(
            |t: Seq<char>| edge(mermaid, from, f.name, t),
        ),
    )
}

/// The edges of one struct's fields.
pub open spec fn struct_edges(mermaid: bool, d: StructDefModel, names: Seq<Seq<char>>) -> Seq<char> {
    concat_all(d.fields.map_values(|f: FieldDefModel| field_edges(mermaid, d.name, f, names)))
}

/// The edges of every struct.
pub open spec fn all_edges(mermaid: bool, s: SpecModel) -> Seq<char> {
    concat_all(
        s.structs.map_values(|d: StructDefModel| struct_edges(mermaid, d, struct_names(s))),
    )
}

// ---------------------------------------------------------------------
// DOT
// ---------------------------------------------------------------------

pub open spec fn dot_param(p: ParamDefModel) -> Seq<char> {
    p.name + ": "@ + display(p.param_type)
}

/// A method's signature: `name(p: T, ...) -> R`, `()` when it returns
/// nothing.
pub open spec fn dot_signature(m: MethodDefModel) -> Seq<char> {
    m.name + "("@ + join(m.params.map_values(|p: ParamDefModel| dot_param(p)), ", "@) + ") -> "@
        + match m.returns {
        Some(r) => r,
        None => "()"@,
    }
}

pub open spec fn dot_method_port(m: MethodDefModel) -> Seq<char> {
    "<"@ + m.name + "> "@ + dot_signature(m)
}

pub open spec fn dot_field_port(f: FieldDefModel) -> Seq<char> {
    "<"@ + f.name + "> "@ + f.name + ": "@ + display(f.field_type)
}

pub open spec fn dot_struct_node(d: StructDefModel) -> Seq<char> {
    "    "@ + d.name + " [label=\"{"@ + join(
        d.fields.map_values(|f: FieldDefModel| dot_field_port(f)),
        " | "@,
    ) + "}\"];\n"@
}

/// The nodes: one per struct, or, without structs, one node listing the
/// methods.
pub open spec fn dot_nodes(s: SpecModel) -> Seq<char> {
    if s.structs.len() == 0 {
        "    \""@ + s.metadata.name + "\" [label=\"{"@ + join(
            s.methods.map_values(|m: MethodDefModel| dot_method_port(m)),
            "|"@,
        ) + "}\"];\n"@
    } else {
        concat_all(s.structs.map_values(|d: StructDefModel| dot_struct_node(d)))
    }
}

pub open spec fn dot_header(s: SpecModel) -> Seq<char> {
    "digraph \""@ + s.metadata.name + "\" {\n"@ + "    rankdir=TB;\n"@
        + "    node [shape=record, fontname=\"monospace\"];\n"@ + "    splines=true;\n\n"@
}

/// The DOT diagram.
pub open spec fn dot_text(s: SpecModel) -> Seq<char> {
    dot_header(s) + dot_nodes(s) + "\n"@ + all_edges(false, s) + "}\n"@
}

// ---------------------------------------------------------------------
// Mermaid
// ---------------------------------------------------------------------

/// The Mermaid form of a type: `<` and `>` become `~`, `&` becomes `&amp;`.
pub open spec fn escape_char(c: char) -> Seq<char> {
    if c == '<' || c == '>' {
        "~"@
    } else if c == '&' {
        "&amp;"@
    } else {
        seq![c]
    }
}

pub open spec fn escaped(s: Seq<char>) -> Seq<char> {
    concat_all(s.map_values(|c: char| escape_char(c)))
}

pub open spec fn mermaid_param(p: ParamDefModel) -> Seq<char> {
    p.name + ": "@ + escaped(display(p.param_type))
}

pub open spec fn mermaid_signature(m: MethodDefModel) -> Seq<char> {
    "+"@ + m.name + "("@ + join(m.params.map_values(|p: ParamDefModel| mermaid_param(p)), ", "@)
        + ") "@ + match m.returns {
        Some(r) => escaped(r),
        None => "void"@,
    }
}

pub open spec fn mermaid_field(f: FieldDefModel) -> Seq<char> {
    "        +"@ + f.name + ": "@ + escaped(display(f.field_type)) + "\n"@
}

pub open spec fn mermaid_class(d: StructDefModel) -> Seq<char> {
    "    class "@ + d.name + " {\n"@ + concat_all(
        d.fields.map_values(|f: FieldDefModel| mermaid_field(f)),
    ) + "    }\n"@
}

/// The classes: one per struct, or, without structs, one class listing the
/// methods.
pub open spec fn mermaid_classes(s: SpecModel) -> Seq<char> {
    if s.structs.len() == 0 {
        "    class "@ + s.metadata.name + " {\n"@ + concat_all(
            s.methods.map_values(|m: MethodDefModel| "        "@ + mermaid_signature(m) + "\n"@),
        ) + "    }\n"@
    } else {
        concat_all(s.structs.map_values(|d: StructDefModel| mermaid_class(d)))
    }
}

/// The Mermaid class diagram.
pub open spec fn mermaid_text(s: SpecModel) -> Seq<char> {
    "classDiagram\n"@ + mermaid_classes(s) + "\n"@ + all_edges(true, s) + "\n"@
}

// ---------------------------------------------------------------------
// Mermaid sequence diagram
// ---------------------------------------------------------------------

/// A character of a sequence-diagram message: `;` and `#` are written as
/// Mermaid entity codes, so that they neither end the statement nor start
/// an entity.
pub open spec fn message_char(c: char) -> Seq<char> {
    if c == ';' {
        "#59;"@
    } else if c == '#' {
        "#35;"@
    } else {
        seq![c]
    }
}

/// The text of a sequence-diagram message.
pub open spec fn message_text(s: Seq<char>) -> Seq<char> {
    concat_all(s.map_values(|c: char| message_char(c)))
}

/// The participant the calls go to: the first struct, or the spec itself
/// when it has no struct.
pub open spec fn sequence_target(s: SpecModel) -> Seq<char> {
    if s.structs.len() == 0 {
        s.metadata.name
    } else {
        s.structs[0].name
    }
}

/// A method call as written on its arrow: `name(param: type, ...)`.
pub open spec fn call_text(m: MethodDefModel) -> Seq<char> {
    m.name + "("@ + join(m.params.map_values(|p: ParamDefModel| dot_param(p)), ", "@) + ")"@
}

/// One call of a method and its reply (`void` when nothing is returned).
pub open spec fn sequence_call(m: MethodDefModel) -> Seq<char> {
    "    Client->>Target: "@ + message_text(call_text(m)) + "\n"@ + "    Target-->>Client: "@
        + message_text(
        match m.returns {
            Some(r) => r,
            None => "void"@,
        },
    ) + "\n"@
}

pub open spec fn client_message(a: Seq<char>) -> Seq<char> {
    "    Client->>Target: "@ + message_text(a) + "\n"@
}

pub open spec fn target_note(a: Seq<char>) -> Seq<char> {
    "    Note over Target: "@ + message_text(a) + "\n"@
}

/// One test case: a note with its name, its setup and actions as calls,
/// and its assertions as notes on the target.
pub open spec fn sequence_test(t: TestCaseModel) -> Seq<char> {
    "    Note over Client,Target: "@ + message_text(t.name) + "\n"@ + match t.setup {
        Some(x) => client_message(x),
        None => Seq::empty(),
    } + concat_all(t.actions.map_values(|a: Seq<char>| client_message(a))) + concat_all(
        t.assertions.map_values(|a: Seq<char>| target_note(a)),
    )
}

/// The Mermaid sequence diagram: a client and the target, one call and
/// reply per method in order, then the test cases in order.
pub open spec fn sequence_text(s: SpecModel) -> Seq<char> {
    "sequenceDiagram\n    participant Client\n    participant Target as "@ + message_text(
        sequence_target(s),
    ) + "\n"@ + concat_all(s.methods.map_values(|m: MethodDefModel| sequence_call(m)))
        + concat_all(s.verification.test_cases.map_values(|t: TestCaseModel| sequence_test(t)))
}

/// The diagram in the requested format, read in any case: Mermaid class
/// diagram for `mermaid`, Mermaid sequence diagram for `sequence`, DOT for
/// anything else (`dot`, `graphviz` or unknown).
pub open spec fn diagram(s: SpecModel, format: Seq<char>) -> Seq<char> {
    if unicode_lowercase(format) == "mermaid"@ {
        mermaid_text(s)
    } else if unicode_lowercase(format) == "sequence"@ {
        sequence_text(s)
    } else {
        dot_text(s)
    }
}

// ---------------------------------------------------------------------
// Executable
// ---------------------------------------------------------------------

/// Generate a visualization for a spec in the given format.
pub fn generate(spec: &Spec, format: &str) -> (r: String)
    ensures
        r@ == diagram(spec@, format@),
{
    let lower = to_lowercase(format);
    proof {
        reveal_strlit("dot");
        reveal_strlit("graphviz");
        reveal_strlit("mermaid");
        reveal_strlit("sequence");
    }
    let is_dot = str_eq(lower.as_str(), "dot");
    let is_graphviz = str_eq(lower.as_str(), "graphviz");
    if is_dot || is_graphviz {
        assert(lower@ != "mermaid"@ && lower@ != "sequence"@) by {
            if is_dot {
                assert(lower@[0] == 'd');
            } else {
                assert(lower@[0] == 'g');
            }
        }
        generate_dot(spec)
    } else if str_eq(lower.as_str(), "mermaid") {
        generate_mermaid(spec)
    } else if str_eq(lower.as_str(), "sequence") {
        generate_sequence(spec)
    } else {
        generate_dot(spec)
    }
}

/// Appends the pieces of `items` concatenated.
fn push_all(out: &mut String, items: &Vec<String>)
    ensures
        final(out)@ == old(out)@ + concat_all(views(items@)),
{
    let ghost vs = views(items@);
    let mut i: usize = 0;
    while i < items.len()
        invariant
            0 <= i <= items.len(),
            vs == views(items@),
            out@ == old(out)@ + concat_all(vs.subrange(0, i as int)),
        decreases items.len() - i,
    {
        out.append(items[i].as_str());
        assert(vs.subrange(0, i + 1).drop_last() =~= vs.subrange(0, i as int));
        i = i + 1;
        assert(out@ =~= old(out)@ + concat_all(vs.subrange(0, i as int)));
    }
    assert(vs.subrange(0, vs.len() as int) =~= vs);
}

/// The distinct struct names, each at its first position.
fn unique_struct_names(spec: &Spec) -> (r: Vec<String>)
    ensures
        views(r@) == struct_names(spec@),
{
    let ghost all = spec@.structs.map_values(|d: StructDefModel| d.name);
    let mut r: Vec<String> = Vec::new();
    let mut i: usize = 0;
    while i < spec.structs.len()
        invariant
            0 <= i <= spec.structs.len(),
            all == spec@.structs.map_values(|d: StructDefModel| d.name),
            views(r@) == unique(all.subrange(0, i as int)),
        decreases spec.structs.len() - i,
    {
        let name = &spec.structs[i].name;
        let mut seen = false;
        let mut k: usize = 0;
        while k < r.len()
            invariant
                0 <= k <= r.len(),
                seen <==> exists|q: int| 0 <= q < k && r@[q]@ == name@,
            decreases r.len() - k,
        {
            if str_eq(r[k].as_str(), name.as_str()) {
                seen = true;
            }
            k = k + 1;
        }
        proof {
            let sub = all.subrange(0, i + 1);
            assert(sub.drop_last() =~= all.subrange(0, i as int));
            assert(sub.last() == name@);
            if views(r@).contains(name@) {
                let q = choose|q: int| 0 <= q < views(r@).len() && views(r@)[q] == name@;
                assert(r@[q]@ == name@);
            }
            if seen {
                let q = choose|q: int| 0 <= q < k && r@[q]@ == name@;
                assert(views(r@)[q] == name@);
            }
        }
        if !seen {
            r.push(name.clone());
            assert(views(r@) =~= unique(all.subrange(0, i + 1)));
        }
        i = i + 1;
    }
    assert(all.subrange(0, all.len() as int) =~= all);
    r
}

/// The names that occur in `type_text`, in the order of `names`.
fn find_edge_targets(type_text: &str, names: &Vec<String>) -> (r: Vec<String>)
    ensures
        views(r@) == edge_targets(type_text@, views(names@)),
{
    let ghost ns = views(names@);
    let mut r: Vec<String> = Vec::new();
    let mut i: usize = 0;
    while i < names.len()
        invariant
            0 <= i <= names.len(),
            ns == views(names@),
            views(r@) == edge_targets(type_text@, ns.subrange(0, i as int)),
        decreases names.len() - i,
    {
        let ghost sub = ns.subrange(0, i + 1);
        assert(sub.drop_last() =~= ns.subrange(0, i as int));
        if contains(type_text, names[i].as_str()) {
            r.push(names[i].clone());
            assert(views(r@) =~= edge_targets(type_text@, sub));
        }
        i = i + 1;
    }
    assert(ns.subrange(0, ns.len() as int) =~= ns);
    r
}

/// The Mermaid form of a type text.
fn escape_mermaid_type(s: &str) -> (r: String)
    ensures
        r@ == escaped(s@),
{
    let cs = chars_of(s);
    let mut r = String::new();
    let mut i: usize = 0;
    while i < cs.len()
        invariant
            0 <= i <= cs.len(),
            r@ == escaped(cs@.subrange(0, i as int)),
        decreases cs.len() - i,
    {
        let c = cs[i];
        if c == '<' || c == '>' {
            r.append("~");
        } else if c == '&' {
            r.append("&amp;");
        } else {
            push_char(&mut r, c);
        }
        proof {
            let m = cs@.subrange(0, i + 1).map_values(|c: char| escape_char(c));
            assert(m.drop_last() =~= cs@.subrange(0, i as int).map_values(|c: char| escape_char(c)));
            assert(m.last() == escape_char(c));
        }
        i = i + 1;
        assert(r@ =~= escaped(cs@.subrange(0, i as int)));
    }
    assert(cs@.subrange(0, cs@.len() as int) =~= cs@);
    r
}

/// The edges of one field.
#[verifier::rlimit(40)]
fn push_field_edges(out: &mut String, s: &StructDef, f: &FieldDef, names: &Vec<String>, mermaid: bool)
    ensures
        final(out)@ == old(out)@ + field_edges(mermaid, s@.name, f@, views(names@)),
{
    let type_str = f.field_type.to_string();
    let targets = find_edge_targets(type_str.as_str(), names);
    let ghost ts = views(targets@);
    let mut k: usize = 0;
    while k < targets.len()
        invariant
            0 <= k <= targets.len(),
            ts == views(targets@),
            out@ == old(out)@ + concat_all(
                ts.subrange(0, k as int).map_values(
                    |t: Seq<char>| edge(mermaid, s@.name, f@.name, t),
                ),
            ),
        decreases targets.len() - k,
    {
        let target = &targets[k];
        out.append("    ");
        out.append(s.name.as_str());
        if mermaid {
            out.append(" --> ");
            out.append(target.as_str());
            out.append(" : ");
            out.append(f.name.as_str());
            out.append("\n");
        } else {
            out.append(":");
            out.append(f.name.as_str());
            out.append(" -> ");
            out.append(target.as_str());
            if str_eq(s.name.as_str(), target.as_str()) {
                out.append(" [dir=both];\n");
            } else {
                out.append(";\n");
            }
        }
        proof {
            let m = ts.subrange(0, k + 1).map_values(
                |t: Seq<char>| edge(mermaid, s@.name, f@.name, t),
            );
            assert(m.drop_last() =~= ts.subrange(0, k as int).map_values(
                |t: Seq<char>| edge(mermaid, s@.name, f@.name, t),
            ));
            assert(m.last() == edge(mermaid, s@.name, f@.name, target@));
        }
        k = k + 1;
        assert(out@ =~= old(out)@ + concat_all(
            ts.subrange(0, k as int).map_values(
                |t: Seq<char>| edge(mermaid, s@.name, f@.name, t),
            ),
        ));
    }
    assert(ts.subrange(0, ts.len() as int) =~= ts);
}

/// The edges of every struct, DOT or Mermaid.
fn push_edges(out: &mut String, spec: &Spec, names: &Vec<String>, mermaid: bool)
    requires
        views(names@) == struct_names(spec@),
    ensures
        final(out)@ == old(out)@ + all_edges(mermaid, spec@),
{
    let ghost ns = views(names@);
    let ghost ds = spec@.structs;
    let mut i: usize = 0;
    while i < spec.structs.len()
        invariant
            0 <= i <= spec.structs.len(),
            ns == views(names@),
            ns == struct_names(spec@),
            ds == spec@.structs,
            out@ == old(out)@ + concat_all(
                ds.subrange(0, i as int).map_values(|d: StructDefModel| struct_edges(mermaid, d, ns)),
            ),
        decreases spec.structs.len() - i,
    {
        let s = &spec.structs[i];
        assert(ds[i as int] == s@);
        let ghost before = out@;
        let ghost fs = s@.fields;
        let mut j: usize = 0;
        while j < s.fields.len()
            invariant
                0 <= j <= s.fields.len(),
                fs == s@.fields,
                ns == views(names@),
                out@ == before + concat_all(
                    fs.subrange(0, j as int).map_values(
                        |f: FieldDefModel| field_edges(mermaid, s@.name, f, ns),
                    ),
                ),
            decreases s.fields.len() - j,
        {
            let f = &s.fields[j];
            assert(fs[j as int] == f@);
            push_field_edges(out, s, f, names, mermaid);
            proof {
                let m = fs.subrange(0, j + 1).map_values(
                    |f: FieldDefModel| field_edges(mermaid, s@.name, f, ns),
                );
                assert(m.drop_last() =~= fs.subrange(0, j as int).map_values(
                    |f: FieldDefModel| field_edges(mermaid, s@.name, f, ns),
                ));
                assert(m.last() == field_edges(mermaid, s@.name, f@, ns));
            }
            j = j + 1;
            assert(out@ =~= before + concat_all(
                fs.subrange(0, j as int).map_values(
                    |f: FieldDefModel| field_edges(mermaid, s@.name, f, ns),
                ),
            ));
        }
        proof {
            assert(fs.subrange(0, fs.len() as int) =~= fs);
            let m = ds.subrange(0, i + 1).map_values(
                |d: StructDefModel| struct_edges(mermaid, d, ns),
            );
            assert(m.drop_last() =~= ds.subrange(0, i as int).map_values(
                |d: StructDefModel| struct_edges(mermaid, d, ns),
            ));
            assert(m.last() == struct_edges(mermaid, s@, ns));
        }
        i = i + 1;
        assert(out@ =~= old(out)@ + concat_all(
            ds.subrange(0, i as int).map_values(|d: StructDefModel| struct_edges(mermaid, d, ns)),
        ));
    }
    assert(ds.subrange(0, ds.len() as int) =~= ds);
}

/// The DOT signature of a method.
fn dot_signature_of(m: &MethodDef) -> (r: String)
    ensures
        r@ == dot_signature(m@),
{
    let mut params: Vec<String> = Vec::new();
    let mut i: usize = 0;
    while i < m.params.len()
        invariant
            0 <= i <= m.params.len(),
            params@.len() == i,
            forall|k: int| 0 <= k < i ==> #[trigger] params@[k]@ == dot_param(m.params@[k]@),
        decreases m.params.len() - i,
    {
        let p = &m.params[i];
        params.push(concat3(p.name.as_str(), ": ", p.param_type.to_string().as_str()));
        i = i + 1;
    }
    assert(views(params@) =~= m@.params.map_values(|p: ParamDefModel| dot_param(p)));
    let mut r = concat3(m.name.as_str(), "(", join_strings(&params, ", ").as_str());
    r.append(") -> ");
    match &m.returns {
        Some(ret) => r.append(ret.as_str()),
        None => r.append("()"),
    }
    r
}

/// Generate a Graphviz DOT diagram for a spec's data structures.
pub fn generate_dot(spec: &Spec) -> (dot: String)
    ensures
        dot@ == dot_text(spec@),
{
    let names = unique_struct_names(spec);
    let mut dot = owned("digraph \"");
    dot.append(spec.metadata.name.as_str());
    dot.append("\" {\n");
    dot.append("    rankdir=TB;\n");
    dot.append("    node [shape=record, fontname=\"monospace\"];\n");
    dot.append("    splines=true;\n\n");
    assert(dot@ =~= dot_header(spec@));
    let ghost h = dot@;
    if spec.structs.len() == 0 {
        let mut ports: Vec<String> = Vec::new();
        let mut i: usize = 0;
        while i < spec.methods.len()
            invariant
                0 <= i <= spec.methods.len(),
                ports@.len() == i,
                forall|k: int|
                    0 <= k < i ==> #[trigger] ports@[k]@ == dot_method_port(spec.methods@[k]@),
            decreases spec.methods.len() - i,
        {
            let m = &spec.methods[i];
            let mut port = concat3("<", m.name.as_str(), "> ");
            port.append(dot_signature_of(m).as_str());
            ports.push(port);
            i = i + 1;
        }
        assert(views(ports@) =~= spec@.methods.map_values(|m: MethodDefModel| dot_method_port(m)));
        dot.append("    \"");
        dot.append(spec.metadata.name.as_str());
        dot.append("\" [label=\"{");
        dot.append(join_strings(&ports, "|").as_str());
        dot.append("}\"];\n");
    } else {
        let mut nodes: Vec<String> = Vec::new();
        let mut i: usize = 0;
        while i < spec.structs.len()
            invariant
                0 <= i <= spec.structs.len(),
                nodes@.len() == i,
                forall|k: int|
                    0 <= k < i ==> #[trigger] nodes@[k]@ == dot_struct_node(spec.structs@[k]@),
            decreases spec.structs.len() - i,
        {
            let s = &spec.structs[i];
            let mut ports: Vec<String> = Vec::new();
            let mut j: usize = 0;
            while j < s.fields.len()
                invariant
                    0 <= j <= s.fields.len(),
                    ports@.len() == j,
                    forall|k: int|
                        0 <= k < j ==> #[trigger] ports@[k]@ == dot_field_port(s.fields@[k]@),
                decreases s.fields.len() - j,
            {
                let f = &s.fields[j];
                let mut port = concat3("<", f.name.as_str(), "> ");
                port.append(f.name.as_str());
                port.append(": ");
                port.append(f.field_type.to_string().as_str());
                ports.push(port);
                j = j + 1;
            }
            assert(views(ports@) =~= s@.fields.map_values(|f: FieldDefModel| dot_field_port(f)));
            let mut node = concat3("    ", s.name.as_str(), " [label=\"{");
            node.append(join_strings(&ports, " | ").as_str());
            node.append("}\"];\n");
            nodes.push(node);
            i = i + 1;
        }
        assert(views(nodes@) =~= spec@.structs.map_values(|d: StructDefModel| dot_struct_node(d)));
        push_all(&mut dot, &nodes);
    }
    assert(dot@ =~= h + dot_nodes(spec@));
    dot.append("\n");
    push_edges(&mut dot, spec, &names, false);
    dot.append("}\n");
    assert(dot@ =~= dot_text(spec@));
    dot
}

/// The Mermaid signature of a method.
fn mermaid_signature_of(m: &MethodDef) -> (r: String)
    ensures
        r@ == mermaid_signature(m@),
{
    let mut params: Vec<String> = Vec::new();
    let mut i: usize = 0;
    while i < m.params.len()
        invariant
            0 <= i <= m.params.len(),
            params@.len() == i,
            forall|k: int| 0 <= k < i ==> #[trigger] params@[k]@ == mermaid_param(m.params@[k]@),
        decreases m.params.len() - i,
    {
        let p = &m.params[i];
        let t = escape_mermaid_type(p.param_type.to_string().as_str());
        params.push(concat3(p.name.as_str(), ": ", t.as_str()));
        i = i + 1;
    }
    assert(views(params@) =~= m@.params.map_values(|p: ParamDefModel| mermaid_param(p)));
    let mut r = concat3("+", m.name.as_str(), "(");
    r.append(join_strings(&params, ", ").as_str());
    r.append(") ");
    match &m.returns {
        Some(ret) => r.append(escape_mermaid_type(ret.as_str()).as_str()),
        None => r.append("void"),
    }
    r
}

/// Generate a Mermaid class diagram for a spec.
pub fn generate_mermaid(spec: &Spec) -> (mermaid: String)
    ensures
        mermaid@ == mermaid_text(spec@),
{
    let names = unique_struct_names(spec);
    let mut mermaid = owned("classDiagram\n");
    let ghost h = mermaid@;
    if spec.structs.len() == 0 {
        mermaid.append("    class ");
        mermaid.append(spec.metadata.name.as_str());
        mermaid.append(" {\n");
        let mut lines: Vec<String> = Vec::new();
        let mut i: usize = 0;
        while i < spec.methods.len()
            invariant
                0 <= i <= spec.methods.len(),
                lines@.len() == i,
                forall|k: int|
                    0 <= k < i ==> #[trigger] lines@[k]@ == "        "@ + mermaid_signature(
                        spec.methods@[k]@,
                    ) + "\n"@,
            decreases spec.methods.len() - i,
        {
            let sig = mermaid_signature_of(&spec.methods[i]);
            lines.push(concat3("        ", sig.as_str(), "\n"));
            i = i + 1;
        }
        assert(views(lines@) =~= spec@.methods.map_values(
            |m: MethodDefModel| "        "@ + mermaid_signature(m) + "\n"@,
        ));
        push_all(&mut mermaid, &lines);
        mermaid.append("    }\n");
    } else {
        let mut classes: Vec<String> = Vec::new();
        let mut i: usize = 0;
        while i < spec.structs.len()
            invariant
                0 <= i <= spec.structs.len(),
                classes@.len() == i,
                forall|k: int|
                    0 <= k < i ==> #[trigger] classes@[k]@ == mermaid_class(spec.structs@[k]@),
            decreases spec.structs.len() - i,
        {
            let s = &spec.structs[i];
            let mut lines: Vec<String> = Vec::new();
            let mut j: usize = 0;
            while j < s.fields.len()
                invariant
                    0 <= j <= s.fields.len(),
                    lines@.len() == j,
                    forall|k: int|
                        0 <= k < j ==> #[trigger] lines@[k]@ == mermaid_field(s.fields@[k]@),
                decreases s.fields.len() - j,
            {
                let f = &s.fields[j];
                let t = escape_mermaid_type(f.field_type.to_string().as_str());
                let mut line = concat3("        +", f.name.as_str(), ": ");
                line.append(t.as_str());
                line.append("\n");
                lines.push(line);
                j = j + 1;
            }
            assert(views(lines@) =~= s@.fields.map_values(|f: FieldDefModel| mermaid_field(f)));
            let mut class = concat3("    class ", s.name.as_str(), " {\n");
            push_all(&mut class, &lines);
            class.append("    }\n");
            classes.push(class);
            i = i + 1;
        }
        assert(views(classes@) =~= spec@.structs.map_values(|d: StructDefModel| mermaid_class(d)));
        push_all(&mut mermaid, &classes);
    }
    assert(mermaid@ =~= h + mermaid_classes(spec@));
    mermaid.append("\n");
    push_edges(&mut mermaid, spec, &names, true);
    mermaid.append("\n");
    assert(mermaid@ =~= mermaid_text(spec@));
    mermaid
}

/// The message form of a text.
fn message_text_of(s: &str) -> (r: String)
    ensures
        r@ == message_text(s@),
{
    let cs = chars_of(s);
    let mut r = String::new();
    let mut i: usize = 0;
    while i < cs.len()
        invariant
            0 <= i <= cs.len(),
            r@ == message_text(cs@.subrange(0, i as int)),
        decreases cs.len() - i,
    {
        let c = cs[i];
        if c == ';' {
            r.append("#59;");
        } else if c == '#' {
            r.append("#35;");
        } else {
            push_char(&mut r, c);
        }
        proof {
            let m = cs@.subrange(0, i + 1).map_values(|c: char| message_char(c));
            assert(m.drop_last() =~= cs@.subrange(0, i as int).map_values(|c: char| message_char(c)));
            assert(m.last() == message_char(c));
        }
        i = i + 1;
        assert(r@ =~= message_text(cs@.subrange(0, i as int)));
    }
    assert(cs@.subrange(0, cs@.len() as int) =~= cs@);
    r
}

/// `    Client->>Target: <message>` and a line break.
fn client_message_of(a: &str) -> (r: String)
    ensures
        r@ == client_message(a@),
{
    concat3("    Client->>Target: ", message_text_of(a).as_str(), "\n")
}

/// The call and reply of one method.
fn sequence_call_of(m: &MethodDef) -> (r: String)
    ensures
        r@ == sequence_call(m@),
{
    let mut params: Vec<String> = Vec::new();
    let mut i: usize = 0;
    while i < m.params.len()
        invariant
            0 <= i <= m.params.len(),
            params@.len() == i,
            forall|k: int| 0 <= k < i ==> #[trigger] params@[k]@ == dot_param(m.params@[k]@),
        decreases m.params.len() - i,
    {
        let p = &m.params[i];
        params.push(concat3(p.name.as_str(), ": ", p.param_type.to_string().as_str()));
        i = i + 1;
    }
    assert(views(params@) =~= m@.params.map_values(|p: ParamDefModel| dot_param(p)));
    let call = concat3(m.name.as_str(), "(", join_strings(&params, ", ").as_str());
    let call = concat2(call.as_str(), ")");
    let mut r = client_message_of(call.as_str());
    r.append("    Target-->>Client: ");
    match &m.returns {
        Some(ret) => r.append(message_text_of(ret.as_str()).as_str()),
        None => r.append(message_text_of("void").as_str()),
    }
    r.append("\n");
    r
}

/// The lines of one test case.
fn sequence_test_of(t: &TestCase) -> (r: String)
    ensures
        r@ == sequence_test(t@),
{
    let mut r = concat3("    Note over Client,Target: ", message_text_of(t.name.as_str()).as_str(), "\n");
    match &t.setup {
        Some(x) => r.append(client_message_of(x.as_str()).as_str()),
        None => {},
    }
    let mut actions: Vec<String> = Vec::new();
    let mut i: usize = 0;
    while i < t.actions.len()
        invariant
            0 <= i <= t.actions.len(),
            actions@.len() == i,
            forall|k: int| 0 <= k < i ==> #[trigger] actions@[k]@ == client_message(t.actions@[k]@),
        decreases t.actions.len() - i,
    {
        actions.push(client_message_of(t.actions[i].as_str()));
        i = i + 1;
    }
    assert(views(actions@) =~= t@.actions.map_values(|a: Seq<char>| client_message(a)));
    push_all(&mut r, &actions);
    let mut notes: Vec<String> = Vec::new();
    let mut j: usize = 0;
    while j < t.assertions.len()
        invariant
            0 <= j <= t.assertions.len(),
            notes@.len() == j,
            forall|k: int| 0 <= k < j ==> #[trigger] notes@[k]@ == target_note(t.assertions@[k]@),
        decreases t.assertions.len() - j,
    {
        notes.push(concat3("    Note over Target: ", message_text_of(t.assertions[j].as_str()).as_str(), "\n"));
        j = j + 1;
    }
    assert(views(notes@) =~= t@.assertions.map_values(|a: Seq<char>| target_note(a)));
    push_all(&mut r, &notes);
    r
}

/// Generate a Mermaid sequence diagram for a spec: a client calling each
/// method of the first struct (or of the spec, without structs) and the
/// spec's test cases.
pub fn generate_sequence(spec: &Spec) -> (seq_diagram: String)
    ensures
        seq_diagram@ == sequence_text(spec@),
{
    let target = if spec.structs.len() == 0 {
        spec.metadata.name.as_str()
    } else {
        spec.structs[0].name.as_str()
    };
    let mut out = owned("sequenceDiagram\n    participant Client\n    participant Target as ");
    out.append(message_text_of(target).as_str());
    out.append("\n");
    let mut calls: Vec<String> = Vec::new();
    let mut i: usize = 0;
    while i < spec.methods.len()
        invariant
            0 <= i <= spec.methods.len(),
            calls@.len() == i,
            forall|k: int| 0 <= k < i ==> #[trigger] calls@[k]@ == sequence_call(spec.methods@[k]@),
        decreases spec.methods.len() - i,
    {
        calls.push(sequence_call_of(&spec.methods[i]));
        i = i + 1;
    }
    assert(views(calls@) =~= spec@.methods.map_values(|m: MethodDefModel| sequence_call(m)));
    push_all(&mut out, &calls);
    let tests = &spec.verification.test_cases;
    let mut parts: Vec<String> = Vec::new();
    let mut j: usize = 0;
    while j < tests.len()
        invariant
            0 <= j <= tests.len(),
            parts@.len() == j,
            forall|k: int| 0 <= k < j ==> #[trigger] parts@[k]@ == sequence_test(tests@[k]@),
        decreases tests.len() - j,
    {
        parts.push(sequence_test_of(&tests[j]));
        j = j + 1;
    }
    assert(views(parts@) =~= spec@.verification.test_cases.map_values(
        |t: TestCaseModel| sequence_test(t),
    ));
    push_all(&mut out, &parts);
    out
}

// ---------------------------------------------------------------------
// Laws
// ---------------------------------------------------------------------

proof fn lemma_unique(names: Seq<Seq<char>>)
    ensures
        unique(names).no_duplicates(),
        forall|x: Seq<char>| #[trigger] unique(names).contains(x) <==> names.contains(x),
    decreases names.len(),
{
    if names.len() > 0 {
        let init = names.drop_last();
        lemma_unique(init);
        let u = unique(init);
        assert forall|x: Seq<char>| names.contains(x) <==> init.contains(x) || x == names.last() by {
            if names.contains(x) {
                let i = choose|i: int| 0 <= i < names.len() && names[i] == x;
                if i < names.len() - 1 {
                    assert(init[i] == x);
                }
            }
            if init.contains(x) {
                let i = choose|i: int| 0 <= i < init.len() && init[i] == x;
                assert(names[i] == x);
            }
            if x == names.last() {
                assert(names[names.len() - 1] == x);
            }
        }
        if !u.contains(names.last()) {
            let v = u.push(names.last());
            assert forall|x: Seq<char>| v.contains(x) <==> u.contains(x) || x == names.last() by {
                if v.contains(x) {
                    let i = choose|i: int| 0 <= i < v.len() && v[i] == x;
                    if i < u.len() {
                        assert(u[i] == x);
                    }
                }
                if u.contains(x) {
                    let i = choose|i: int| 0 <= i < u.len() && u[i] == x;
                    assert(v[i] == x);
                }
                if x == names.last() {
                    assert(v[u.len() as int] == x);
                }
            }
            assert forall|i: int, j: int| 0 <= i < v.len() && 0 <= j < v.len() && i != j implies v[i]
                != v[j] by {
                if i < u.len() && j < u.len() {
                } else if i < u.len() {
                    assert(u.contains(v[i]));
                } else {
                    assert(u.contains(v[j]));
                }
            }
        }
    }
}

proof fn lemma_edge_targets(t: Seq<char>, names: Seq<Seq<char>>)
    ensures
        names.no_duplicates() ==> edge_targets(t, names).no_duplicates(),
        forall|x: Seq<char>| #[trigger] edge_targets(t, names).contains(x) <==> names.contains(x)
            && contains_sub(t, x),
    decreases names.len(),
{
    if names.len() > 0 {
        let init = names.drop_last();
        lemma_edge_targets(t, init);
        let e = edge_targets(t, init);
        assert forall|x: Seq<char>| names.contains(x) <==> init.contains(x) || x == names.last() by {
            if names.contains(x) {
                let i = choose|i: int| 0 <= i < names.len() && names[i] == x;
                if i < names.len() - 1 {
                    assert(init[i] == x);
                }
            }
            if init.contains(x) {
                let i = choose|i: int| 0 <= i < init.len() && init[i] == x;
                assert(names[i] == x);
            }
            if x == names.last() {
                assert(names[names.len() - 1] == x);
            }
        }
        if names.no_duplicates() {
            assert(init.no_duplicates()) by {
                assert forall|i: int, j: int| 0 <= i < init.len() && 0 <= j < init.len() && i != j implies init[i]
                    != init[j] by {
                    assert(names[i] == init[i] && names[j] == init[j]);
                }
            }
            assert(!init.contains(names.last())) by {
                if init.contains(names.last()) {
                    let i = choose|i: int| 0 <= i < init.len() && init[i] == names.last();
                    assert(names[i] == names[names.len() - 1]);
                }
            }
        }
        if contains_sub(t, names.last()) {
            let v = e.push(names.last());
            assert forall|x: Seq<char>| v.contains(x) <==> e.contains(x) || x == names.last() by {
                if v.contains(x) {
                    let i = choose|i: int| 0 <= i < v.len() && v[i] == x;
                    if i < e.len() {
                        assert(e[i] == x);
                    }
                }
                if e.contains(x) {
                    let i = choose|i: int| 0 <= i < e.len() && e[i] == x;
                    assert(v[i] == x);
                }
                if x == names.last() {
                    assert(v[e.len() as int] == x);
                }
            }
            if names.no_duplicates() {
                assert forall|i: int, j: int| 0 <= i < v.len() && 0 <= j < v.len() && i != j implies v[i]
                    != v[j] by {
                    if i < e.len() && j < e.len() {
                    } else if i < e.len() {
                        assert(e.contains(v[i]));
                    } else {
                        assert(e.contains(v[j]));
                    }
                }
            }
        }
    }
}

/// The edges leaving a field go to the declared structs whose name occurs
/// in the field's type text: to each of them, and to each only once.
pub proof fn law_edges_reach_each_named_struct_once(s: SpecModel, type_text: Seq<char>)
    ensures
        edge_targets(type_text, struct_names(s)).no_duplicates(),
        forall|x: Seq<char>| #[trigger] edge_targets(type_text, struct_names(s)).contains(x) <==> (
        exists|i: int| 0 <= i < s.structs.len() && s.structs[i].name == x) && contains_sub(
            type_text,
            x,
        ),
{
    let names = s.structs.map_values(|d: StructDefModel| d.name);
    lemma_unique(names);
    lemma_edge_targets(type_text, struct_names(s));
    assert forall|x: Seq<char>| names.contains(x) <==> exists|i: int|
        0 <= i < s.structs.len() && s.structs[i].name == x by {
        if names.contains(x) {
            let i = choose|i: int| 0 <= i < names.len() && names[i] == x;
            assert(s.structs[i].name == x);
        }
        if exists|i: int| 0 <= i < s.structs.len() && s.structs[i].name == x {
            let i = choose|i: int| 0 <= i < s.structs.len() && s.structs[i].name == x;
            assert(names[i] == x);
        }
    }
}

/// Every method signature in a diagram ends with the method's declared
/// return type, or with the placeholder for none: in DOT
/// `name(...) -> R`, `-> ()` when nothing is returned; in a Mermaid class
/// `+name(...) R`, `void` when nothing is returned (with `<`, `>` and `&`
/// escaped); in a sequence diagram the reply arrow carries `R`, or `void`.
pub proof fn law_signatures_carry_return_type(m: MethodDefModel)
    ensures
        exists|params: Seq<char>|
            dot_signature(m) == m.name + "("@ + params + ") -> "@ + match m.returns {
                Some(r) => r,
                None => "()"@,
            },
        exists|params: Seq<char>|
            mermaid_signature(m) == "+"@ + m.name + "("@ + params + ") "@ + match m.returns {
                Some(r) => escaped(r),
                None => "void"@,
            },
        exists|call: Seq<char>|
            sequence_call(m) == "    Client->>Target: "@ + call + "\n"@ + "    Target-->>Client: "@
                + message_text(
                match m.returns {
                    Some(r) => r,
                    None => "void"@,
                },
            ) + "\n"@,
{
    let dp = join(m.params.map_values(|p: ParamDefModel| dot_param(p)), ", "@);
    let mp = join(m.params.map_values(|p: ParamDefModel| mermaid_param(p)), ", "@);
    let call = message_text(call_text(m));
    assert(dot_signature(m) == m.name + "("@ + dp + ") -> "@ + match m.returns {
        Some(r) => r,
        None => "()"@,
    });
    assert(mermaid_signature(m) == "+"@ + m.name + "("@ + mp + ") "@ + match m.returns {
        Some(r) => escaped(r),
        None => "void"@,
    });
    assert(sequence_call(m) == "    Client->>Target: "@ + call + "\n"@ + "    Target-->>Client: "@
        + message_text(
        match m.returns {
            Some(r) => r,
            None => "void"@,
        },
    ) + "\n"@);
}

} // verus!
