//! Markdown documentation of a specification.

use vstd::prelude::*;
use crate::ast::{
    Spec, SpecModel, StructDef, StructDefModel, FieldDefModel, MethodDef, MethodDefModel,
    TestCase, TestCaseModel, display,
};
use crate::text::{join, views, join_strings, push_char, concat_all, occurs_at, contains_sub, has_prefix};

verus! {

/// Each item between `before` and `after`, concatenated.
pub open spec fn bracketed(items: Seq<Seq<char>>, before: Seq<char>, after: Seq<char>) -> Seq<char> {
    concat_all(items.map_values(|x: Seq<char>| before + x + after))
}

/// A bulleted list under a heading line, then a blank line; nothing for an
/// empty list.
pub open spec fn titled_list(
    items: Seq<Seq<char>>,
    heading: Seq<char>,
    before: Seq<char>,
    after: Seq<char>,
) -> Seq<char> {
    if items.len() == 0 {
        Seq::empty()
    } else {
        heading + bracketed(items, before, after) + "\n"@
    }
}

pub open spec fn doc_header(s: SpecModel) -> Seq<char> {
    "# "@ + s.metadata.name + "\n\n"@ + "**Category:** "@ + s.metadata.category + "\n\n"@
}

pub open spec fn doc_complexity(s: SpecModel) -> Seq<char> {
    let c = s.metadata.complexity;
    (match c.time {
        Some(t) => "- **Time complexity:** "@ + t + "\n"@,
        None => Seq::empty(),
    }) + (match c.space {
        Some(t) => "- **Space complexity:** "@ + t + "\n"@,
        None => Seq::empty(),
    }) + (if c.time is Some || c.space is Some {
        "\n"@
    } else {
        Seq::empty()
    })
}

pub open spec fn doc_tags(s: SpecModel) -> Seq<char> {
    if s.metadata.tags.len() == 0 {
        Seq::empty()
    } else {
        "**Tags:** "@ + join(s.metadata.tags, ", "@) + "\n\n"@
    }
}

pub open spec fn doc_invariants(s: SpecModel) -> Seq<char> {
    titled_list(s.contracts.invariants, "## Invariants\n\n"@, "- "@, "\n"@)
}

pub open spec fn field_row(f: FieldDefModel) -> Seq<char> {
    "| `"@ + f.name + "` | `"@ + display(f.field_type) + "` |\n"@
}

pub open spec fn struct_section(d: StructDefModel) -> Seq<char> {
    "### `"@ + d.name + "`\n\n"@ + if d.fields.len() == 0 {
        Seq::empty()
    } else {
        "| Field | Type |\n|------|------|\n"@ + concat_all(
            d.fields.map_values(|f: FieldDefModel| field_row(f)),
        ) + "\n"@
    }
}

pub open spec fn doc_structs(s: SpecModel) -> Seq<char> {
    if s.structs.len() == 0 {
        Seq::empty()
    } else {
        "## Data Structures\n\n"@ + concat_all(
            s.structs.map_values(|d: StructDefModel| struct_section(d)),
        )
    }
}

pub open spec fn method_section(m: MethodDefModel) -> Seq<char> {
    "### `"@ + m.name + "`\n\n"@ + (match m.returns {
        Some(r) => "**Returns:** `"@ + r + "`\n\n"@,
        None => Seq::empty(),
    }) + titled_list(m.preconditions, "**Preconditions:**\n"@, "- "@, "\n"@) + titled_list(
        m.postconditions,
        "**Postconditions:**\n"@,
        "- "@,
        "\n"@,
    )
}

pub open spec fn doc_methods(s: SpecModel) -> Seq<char> {
    if s.methods.len() == 0 {
        Seq::empty()
    } else {
        "## Methods\n\n"@ + concat_all(s.methods.map_values(|m: MethodDefModel| method_section(m)))
    }
}

pub open spec fn test_section(t: TestCaseModel) -> Seq<char> {
    "### "@ + t.name + "\n\n"@ + (match t.setup {
        Some(x) => "**Setup:**\n```\n"@ + x + "\n```\n\n"@,
        None => Seq::empty(),
    }) + titled_list(t.actions, "**Actions:**\n"@, "- `"@, "`\n"@) + titled_list(
        t.assertions,
        "**Assertions:**\n"@,
        "- `"@,
        "`\n"@,
    )
}

pub open spec fn doc_tests(s: SpecModel) -> Seq<char> {
    if s.verification.test_cases.len() == 0 {
        Seq::empty()
    } else {
        "## Test Cases\n\n"@ + concat_all(
            s.verification.test_cases.map_values(|t: TestCaseModel| test_section(t)),
        )
    }
}

/// The whole document: title and category, complexity, tags, invariants,
/// structs with their fields, methods with their contracts, test cases.
pub open spec fn doc_text(s: SpecModel) -> Seq<char> {
    doc_header(s) + doc_complexity(s) + doc_tags(s) + doc_invariants(s) + doc_structs(s)
        + doc_methods(s) + doc_tests(s)
}

/// Appends `before + item + after` for every item.
fn push_bracketed(doc: &mut String, items: &Vec<String>, before: &str, after: &str)
    ensures
        final(doc)@ == old(doc)@ + bracketed(views(items@), before@, after@),
{
    let ghost vs = views(items@);
    let mut i: usize = 0;
    while i < items.len()
        invariant
            0 <= i <= items.len(),
            vs == views(items@),
            doc@ == old(doc)@ + bracketed(vs.subrange(0, i as int), before@, after@),
        decreases items.len() - i,
    {
        doc.append(before);
        doc.append(items[i].as_str());
        doc.append(after);
        proof {
            let f = |x: Seq<char>| before@ + x + after@;
            let m = vs.subrange(0, i + 1).map_values(f);
            assert(m.drop_last() =~= vs.subrange(0, i as int).map_values(f));
            assert(m.last() == before@ + items@[i as int]@ + after@);
        }
        i = i + 1;
        assert(doc@ =~= old(doc)@ + bracketed(vs.subrange(0, i as int), before@, after@));
    }
    assert(vs.subrange(0, vs.len() as int) =~= vs);
}

/// Appends a titled list (nothing when the list is empty).
fn push_titled_list(doc: &mut String, items: &Vec<String>, heading: &str, before: &str, after: &str)
    ensures
        final(doc)@ == old(doc)@ + titled_list(views(items@), heading@, before@, after@),
{
    if items.len() > 0 {
        doc.append(heading);
        push_bracketed(doc, items, before, after);
        doc.append("\n");
        assert(doc@ =~= old(doc)@ + titled_list(views(items@), heading@, before@, after@));
    } else {
        assert(doc@ =~= old(doc)@ + titled_list(views(items@), heading@, before@, after@));
    }
}

fn push_struct_section(doc: &mut String, d: &StructDef)
    ensures
        final(doc)@ == old(doc)@ + struct_section(d@),
{
    doc.append("### `");
    doc.append(d.name.as_str());
    doc.append("`\n\n");
    if d.fields.len() > 0 {
        doc.append("| Field | Type |\n|------|------|\n");
        let ghost start = doc@;
        let ghost fs = d@.fields;
        let mut i: usize = 0;
        while i < d.fields.len()
            invariant
                0 <= i <= d.fields.len(),
                fs == d@.fields,
                doc@ == start + concat_all(
                    fs.subrange(0, i as int).map_values(|f: FieldDefModel| field_row(f)),
                ),
            decreases d.fields.len() - i,
        {
            let f = &d.fields[i];
            doc.append("| `");
            doc.append(f.name.as_str());
            doc.append("` | `");
            doc.append(f.field_type.to_string().as_str());
            doc.append("` |\n");
            proof {
                let m = fs.subrange(0, i + 1).map_values(|f: FieldDefModel| field_row(f));
                assert(m.drop_last() =~= fs.subrange(0, i as int).map_values(
                    |f: FieldDefModel| field_row(f),
                ));
                assert(fs[i as int] == f@);
            }
            i = i + 1;
            assert(doc@ =~= start + concat_all(
                fs.subrange(0, i as int).map_values(|f: FieldDefModel| field_row(f)),
            ));
        }
        assert(fs.subrange(0, fs.len() as int) =~= fs);
        doc.append("\n");
    }
    assert(doc@ =~= old(doc)@ + struct_section(d@));
}

fn push_method_section(doc: &mut String, m: &MethodDef)
    ensures
        final(doc)@ == old(doc)@ + method_section(m@),
{
    doc.append("### `");
    doc.append(m.name.as_str());
    doc.append("`\n\n");
    let ghost after_name = doc@;
    match &m.returns {
        Some(r) => {
            doc.append("**Returns:** `");
            doc.append(r.as_str());
            doc.append("`\n\n");
        },
        None => {},
    }
    let ghost after_returns = doc@;
    push_titled_list(doc, &m.preconditions, "**Preconditions:**\n", "- ", "\n");
    push_titled_list(doc, &m.postconditions, "**Postconditions:**\n", "- ", "\n");
    assert(doc@ =~= old(doc)@ + method_section(m@));
}

fn push_test_section(doc: &mut String, t: &TestCase)
    ensures
        final(doc)@ == old(doc)@ + test_section(t@),
{
    doc.append("### ");
    doc.append(t.name.as_str());
    doc.append("\n\n");
    match &t.setup {
        Some(x) => {
            doc.append("**Setup:**\n```\n");
            doc.append(x.as_str());
            doc.append("\n```\n\n");
        },
        None => {},
    }
    push_titled_list(doc, &t.actions, "**Actions:**\n", "- `", "`\n");
    push_titled_list(doc, &t.assertions, "**Assertions:**\n", "- `", "`\n");
    assert(doc@ =~= old(doc)@ + test_section(t@));
}

fn push_structs(doc: &mut String, structs: &Vec<StructDef>)
    ensures
        final(doc)@ == old(doc)@ + concat_all(
            structs@.map_values(|d: StructDef| d@).map_values(|d: StructDefModel| struct_section(d)),
        ),
{
    let ghost ds = structs@.map_values(|d: StructDef| d@);
    let mut i: usize = 0;
    while i < structs.len()
        invariant
            0 <= i <= structs.len(),
            ds == structs@.map_values(|d: StructDef| d@),
            doc@ == old(doc)@ + concat_all(
                ds.subrange(0, i as int).map_values(|d: StructDefModel| struct_section(d)),
            ),
        decreases structs.len() - i,
    {
        push_struct_section(doc, &structs[i]);
        proof {
            let m = ds.subrange(0, i + 1).map_values(|d: StructDefModel| struct_section(d));
            assert(m.drop_last() =~= ds.subrange(0, i as int).map_values(
                |d: StructDefModel| struct_section(d),
            ));
        }
        i = i + 1;
        assert(doc@ =~= old(doc)@ + concat_all(
            ds.subrange(0, i as int).map_values(|d: StructDefModel| struct_section(d)),
        ));
    }
    assert(ds.subrange(0, ds.len() as int) =~= ds);
}

fn push_methods(doc: &mut String, methods: &Vec<MethodDef>)
    ensures
        final(doc)@ == old(doc)@ + concat_all(
            methods@.map_values(|m: MethodDef| m@).map_values(|m: MethodDefModel| method_section(m)),
        ),
{
    let ghost ms = methods@.map_values(|m: MethodDef| m@);
    let mut i: usize = 0;
    while i < methods.len()
        invariant
            0 <= i <= methods.len(),
            ms == methods@.map_values(|m: MethodDef| m@),
            doc@ == old(doc)@ + concat_all(
                ms.subrange(0, i as int).map_values(|m: MethodDefModel| method_section(m)),
            ),
        decreases methods.len() - i,
    {
        push_method_section(doc, &methods[i]);
        proof {
            let m = ms.subrange(0, i + 1).map_values(|m: MethodDefModel| method_section(m));
            assert(m.drop_last() =~= ms.subrange(0, i as int).map_values(
                |m: MethodDefModel| method_section(m),
            ));
        }
        i = i + 1;
        assert(doc@ =~= old(doc)@ + concat_all(
            ms.subrange(0, i as int).map_values(|m: MethodDefModel| method_section(m)),
        ));
    }
    assert(ms.subrange(0, ms.len() as int) =~= ms);
}

fn push_tests(doc: &mut String, tests: &Vec<TestCase>)
    ensures
        final(doc)@ == old(doc)@ + concat_all(
            tests@.map_values(|t: TestCase| t@).map_values(|t: TestCaseModel| test_section(t)),
        ),
{
    let ghost ts = tests@.map_values(|t: TestCase| t@);
    let mut i: usize = 0;
    while i < tests.len()
        invariant
            0 <= i <= tests.len(),
            ts == tests@.map_values(|t: TestCase| t@),
            doc@ == old(doc)@ + concat_all(
                ts.subrange(0, i as int).map_values(|t: TestCaseModel| test_section(t)),
            ),
        decreases tests.len() - i,
    {
        push_test_section(doc, &tests[i]);
        proof {
            let m = ts.subrange(0, i + 1).map_values(|t: TestCaseModel| test_section(t));
            assert(m.drop_last() =~= ts.subrange(0, i as int).map_values(
                |t: TestCaseModel| test_section(t),
            ));
        }
        i = i + 1;
        assert(doc@ =~= old(doc)@ + concat_all(
            ts.subrange(0, i as int).map_values(|t: TestCaseModel| test_section(t)),
        ));
    }
    assert(ts.subrange(0, ts.len() as int) =~= ts);
}

/// Generates a markdown summary from a specification's metadata and contracts.
#[verifier::rlimit(50)]
pub fn generate_doc(spec: &Spec) -> (doc: String)
    ensures
        doc@ == doc_text(spec@),
{
    let mut doc = String::new();
    doc.append("# ");
    doc.append(spec.metadata.name.as_str());
    doc.append("\n\n");
    doc.append("**Category:** ");
    doc.append(spec.metadata.category.as_str());
    doc.append("\n\n");
    assert(doc@ =~= doc_header(spec@));
    let ghost d1 = doc@;

    match &spec.metadata.complexity.time {
        Some(time) => {
            doc.append("- **Time complexity:** ");
            doc.append(time.as_str());
            doc.append("\n");
        },
        None => {},
    }
    match &spec.metadata.complexity.space {
        Some(space) => {
            doc.append("- **Space complexity:** ");
            doc.append(space.as_str());
            doc.append("\n");
        },
        None => {},
    }
    if spec.metadata.complexity.time.is_some() || spec.metadata.complexity.space.is_some() {
        push_char(&mut doc, '\n');
        proof {
            reveal_strlit("\n");
        }
    }
    assert(doc@ =~= d1 + doc_complexity(spec@));
    let ghost d2 = doc@;

    if spec.metadata.tags.len() > 0 {
        doc.append("**Tags:** ");
        doc.append(join_strings(&spec.metadata.tags, ", ").as_str());
        doc.append("\n\n");
    }
    assert(doc@ =~= d2 + doc_tags(spec@));
    let ghost d3 = doc@;

    push_titled_list(&mut doc, &spec.contracts.invariants, "## Invariants\n\n", "- ", "\n");
    let ghost d4 = doc@;

    if spec.structs.len() > 0 {
        doc.append("## Data Structures\n\n");
        push_structs(&mut doc, &spec.structs);
    }
    assert(doc@ =~= d4 + doc_structs(spec@));
    let ghost d5 = doc@;

    if spec.methods.len() > 0 {
        doc.append("## Methods\n\n");
        push_methods(&mut doc, &spec.methods);
    }
    assert(doc@ =~= d5 + doc_methods(spec@));
    let ghost d6 = doc@;

    if spec.verification.test_cases.len() > 0 {
        doc.append("## Test Cases\n\n");
        push_tests(&mut doc, &spec.verification.test_cases);
    }
    assert(doc@ =~= d6 + doc_tests(spec@));
    assert(doc@ =~= doc_text(spec@));
    doc
}

// ---------------------------------------------------------------------
// Laws
// ---------------------------------------------------------------------

/// The document opens with the spec's name as its title and its category;
/// right after come the time complexity line, when the spec gives one, and
/// then the space complexity line, when it gives one, each carrying the
/// spec's own text.
pub proof fn law_doc_header_and_complexity(s: SpecModel)
    ensures
        ({
            let head = "# "@ + s.metadata.name + "\n\n"@ + "**Category:** "@
                + s.metadata.category + "\n\n"@;
            let time_line = match s.metadata.complexity.time {
                Some(t) => "- **Time complexity:** "@ + t + "\n"@,
                None => Seq::<char>::empty(),
            };
            let space_line = match s.metadata.complexity.space {
                Some(t) => "- **Space complexity:** "@ + t + "\n"@,
                None => Seq::<char>::empty(),
            };
            &&& occurs_at(doc_text(s), head, 0)
            &&& occurs_at(doc_text(s), time_line, head.len() as int)
            &&& occurs_at(doc_text(s), space_line, (head.len() + time_line.len()) as int)
        }),
        s.metadata.complexity.time matches Some(t) ==> contains_sub(
            doc_text(s),
            "- **Time complexity:** "@ + t + "\n"@,
        ),
        s.metadata.complexity.space matches Some(t) ==> contains_sub(
            doc_text(s),
            "- **Space complexity:** "@ + t + "\n"@,
        ),
{
    let head = "# "@ + s.metadata.name + "\n\n"@ + "**Category:** "@ + s.metadata.category
        + "\n\n"@;
    let c = s.metadata.complexity;
    let time_line = match c.time {
        Some(t) => "- **Time complexity:** "@ + t + "\n"@,
        None => Seq::<char>::empty(),
    };
    let space_line = match c.space {
        Some(t) => "- **Space complexity:** "@ + t + "\n"@,
        None => Seq::<char>::empty(),
    };
    let end = if c.time is Some || c.space is Some {
        "\n"@
    } else {
        Seq::<char>::empty()
    };
    assert(doc_header(s) == head);
    assert(doc_complexity(s) == time_line + space_line + end);
    let p0 = head + (time_line + space_line + end);
    assert(p0 =~= head + time_line + (space_line + end));
    lemma_occurs_mid(Seq::empty(), head, time_line + space_line + end);
    assert(Seq::<char>::empty() + head + (time_line + space_line + end) =~= p0);
    lemma_occurs_mid(head, time_line, space_line + end);
    assert(p0 =~= (head + time_line) + space_line + end);
    lemma_occurs_mid(head + time_line, space_line, end);
    let d = doc_text(s);
    let p1 = p0 + doc_tags(s);
    let p2 = p1 + doc_invariants(s);
    let p3 = p2 + doc_structs(s);
    let p4 = p3 + doc_methods(s);
    assert(d == p4 + doc_tests(s));
    let i1 = head.len() as int;
    let i2 = (head.len() + time_line.len()) as int;
    lemma_occurs_extend(p0, doc_tags(s), head, 0);
    lemma_occurs_extend(p1, doc_invariants(s), head, 0);
    lemma_occurs_extend(p2, doc_structs(s), head, 0);
    lemma_occurs_extend(p3, doc_methods(s), head, 0);
    lemma_occurs_extend(p4, doc_tests(s), head, 0);
    lemma_occurs_extend(p0, doc_tags(s), time_line, i1);
    lemma_occurs_extend(p1, doc_invariants(s), time_line, i1);
    lemma_occurs_extend(p2, doc_structs(s), time_line, i1);
    lemma_occurs_extend(p3, doc_methods(s), time_line, i1);
    lemma_occurs_extend(p4, doc_tests(s), time_line, i1);
    lemma_occurs_extend(p0, doc_tags(s), space_line, i2);
    lemma_occurs_extend(p1, doc_invariants(s), space_line, i2);
    lemma_occurs_extend(p2, doc_structs(s), space_line, i2);
    lemma_occurs_extend(p3, doc_methods(s), space_line, i2);
    lemma_occurs_extend(p4, doc_tests(s), space_line, i2);
}

proof fn lemma_occurs_extend(a: Seq<char>, b: Seq<char>, p: Seq<char>, i: int)
    requires
        occurs_at(a, p, i),
    ensures
        occurs_at(a + b, p, i),
{
    assert((a + b).subrange(i, i + p.len()) =~= a.subrange(i, i + p.len()));
}

proof fn lemma_occurs_mid(a: Seq<char>, b: Seq<char>, c: Seq<char>)
    ensures
        occurs_at(a + b + c, b, a.len() as int),
{
    assert((a + b + c).subrange(a.len() as int, (a.len() + b.len()) as int) =~= b);
}

/// A method's section opens with its name as a heading and, when the
/// method returns something, a `Returns` line with the declared type.
pub proof fn law_method_section_names_return(m: MethodDefModel)
    ensures
        has_prefix(method_section(m), "### `"@ + m.name + "`\n\n"@),
        m.returns matches Some(r) ==> occurs_at(
            method_section(m),
            "**Returns:** `"@ + r + "`\n\n"@,
            ("### `"@ + m.name + "`\n\n"@).len() as int,
        ),
{
    let head = "### `"@ + m.name + "`\n\n"@;
    let ret = match m.returns {
        Some(r) => "**Returns:** `"@ + r + "`\n\n"@,
        None => Seq::<char>::empty(),
    };
    let rest = titled_list(m.preconditions, "**Preconditions:**\n"@, "- "@, "\n"@) + titled_list(
        m.postconditions,
        "**Postconditions:**\n"@,
        "- "@,
        "\n"@,
    );
    let t = method_section(m);
    assert(t =~= head + ret + rest);
    assert(t.subrange(0, head.len() as int) =~= head);
    assert(t.subrange(head.len() as int, (head.len() + ret.len()) as int) =~= ret);
}

/// A method's conditions are listed under the heading of their kind:
/// preconditions as `- <p>` items under `**Preconditions:**`, then
/// postconditions under `**Postconditions:**`; a kind with no condition
/// gets no heading.
pub proof fn law_method_conditions_under_their_heading(m: MethodDefModel)
    ensures
        method_section(m) == "### `"@ + m.name + "`\n\n"@ + (match m.returns {
                Some(r) => "**Returns:** `"@ + r + "`\n\n"@,
                None => Seq::empty(),
            }) + (if m.preconditions.len() == 0 {
                Seq::empty()
            } else {
                "**Preconditions:**\n"@ + concat_all(
                    m.preconditions.map_values(|p: Seq<char>| "- "@ + p + "\n"@),
                ) + "\n"@
            }) + (if m.postconditions.len() == 0 {
                Seq::empty()
            } else {
                "**Postconditions:**\n"@ + concat_all(
                    m.postconditions.map_values(|p: Seq<char>| "- "@ + p + "\n"@),
                ) + "\n"@
            }),
{
    let head = "### `"@ + m.name + "`\n\n"@ + (match m.returns {
        Some(r) => "**Returns:** `"@ + r + "`\n\n"@,
        None => Seq::empty(),
    });
    assert(method_section(m) == head + titled_list(m.preconditions, "**Preconditions:**\n"@, "- "@, "\n"@)
        + titled_list(m.postconditions, "**Postconditions:**\n"@, "- "@, "\n"@));
}

/// A test case's section is headed by its name; its setup follows in a
/// code block, then its actions as `- `-quoted items under `**Actions:**`,
/// then its assertions likewise under `**Assertions:**`; a missing setup
/// or an empty list gets no block.
pub proof fn law_test_section_layout(t: TestCaseModel)
    ensures
        test_section(t) == "### "@ + t.name + "\n\n"@ + (match t.setup {
            Some(x) => "**Setup:**\n```\n"@ + x + "\n```\n\n"@,
            None => Seq::empty(),
        }) + (if t.actions.len() == 0 {
            Seq::empty()
        } else {
            "**Actions:**\n"@ + concat_all(t.actions.map_values(|a: Seq<char>| "- `"@ + a + "`\n"@))
                + "\n"@
        }) + (if t.assertions.len() == 0 {
            Seq::empty()
        } else {
            "**Assertions:**\n"@ + concat_all(
                t.assertions.map_values(|a: Seq<char>| "- `"@ + a + "`\n"@),
            ) + "\n"@
        }),
{
}

/// The invariants are listed as `- <i>` items under `## Invariants`, and
/// the tags are joined by commas on a `**Tags:**` line; neither appears
/// when empty.
pub proof fn law_invariants_and_tags(s: SpecModel)
    ensures
        doc_invariants(s) == if s.contracts.invariants.len() == 0 {
            Seq::empty()
        } else {
            "## Invariants\n\n"@ + concat_all(
                s.contracts.invariants.map_values(|i: Seq<char>| "- "@ + i + "\n"@),
            ) + "\n"@
        },
        doc_tags(s) == if s.metadata.tags.len() == 0 {
            Seq::empty()
        } else {
            "**Tags:** "@ + join(s.metadata.tags, ", "@) + "\n\n"@
        },
{
}

} // verus!
