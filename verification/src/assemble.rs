//! The page assembler: walks a module's top-level declarations in source
//! order and emits one Markdown document — frontmatter, module header and
//! docstring, one section per class (with reconstructed source and one
//! subsection per method) and one section per top-level function.

use vstd::prelude::*;
use vstd::string::*;

use crate::ast::{args_wf, tops_wf, top_stmt_wf, ClassDef, Expr, FunctionDef, TopStmt};
use crate::docstring::{
    body_docstring, clean_doc_spec, clean_docstring, doc_description, doc_description_spec,
    first_docstring, first_top_docstring, tops_docstring, trim_by, trim_spec,
};
use crate::reconstruct::{function_def_text, reconstruct_function_def};
use crate::tables::{args_table, format_args_table, format_returns_table, returns_table};

verus! {

/// A decorator that marks a method as a classmethod: the bare name
/// `classmethod`.
pub open spec fn is_classmethod_marker(e: Expr) -> bool {
    e matches Expr::Name { id } && id@ == "classmethod"@
}

pub open spec fn spec_is_classmethod(ds: Seq<Expr>) -> bool {
    exists|i: int| 0 <= i < ds.len() && is_classmethod_marker(#[trigger] ds[i])
}

/// Whether some decorator in the list is the classmethod marker.
pub fn is_classmethod(decorators: &Vec<Expr>) -> (res: bool)
    ensures
        res == spec_is_classmethod(decorators@),
{
    let cm = String::from_str("classmethod");
    let n = decorators.len();
    for i in 0..n
        invariant
            n == decorators@.len(),
            cm@ == "classmethod"@,
            forall|j: int| 0 <= j < i ==> !is_classmethod_marker(#[trigger] decorators@[j]),
    {
        if let Expr::Name { id } = &decorators[i] {
            if *id == cm {
                proof {
                    assert(is_classmethod_marker(decorators@[i as int]));
                }
                return true;
            }
        }
    }
    false
}

/// The documentation section of one top-level function: heading, cleaned
/// docstring, parameter table, return table, and the prose description that
/// follows the docstring's first blank line.
pub open spec fn function_doc(f: FunctionDef) -> Seq<char> {
    "### `"@ + trim_spec(f.name@, Option::Some('`')) + "`\n\n"@ + (match body_docstring(f.body@) {
        Option::Some(d) => clean_doc_spec(d) + "\n\n"@,
        Option::None => Seq::<char>::empty(),
    }) + args_table(f.args) + returns_table(f.returns) + "\n**Description:**\n\n"@ + (
    match body_docstring(f.body@) {
        Option::Some(d) => trim_spec(doc_description_spec(d), Option::None) + "\n"@,
        Option::None => Seq::<char>::empty(),
    })
}

/// The subsection of one method of a class: tagged heading, parameter
/// table, raw docstring, collapsible reconstructed source, return table.
pub open spec fn method_section(name: Seq<char>, f: FunctionDef) -> Seq<char> {
    "#### `"@ + f.name@ + "()` `"@ + (if spec_is_classmethod(f.decorators@) {
        "classmethod"@
    } else {
        Seq::<char>::empty()
    }) + "`\n\n"@ + args_table(f.args) + (match body_docstring(f.body@) {
        Option::Some(d) => d + "\n"@,
        Option::None => Seq::<char>::empty(),
    }) + "<Accordion\n  title=\"Source code in `zenml/"@ + name + "/"@ + name + ".py`\"\n\n>\n"@
        + "```py\n"@ + function_def_text(f) + "```\n"@ + "</Accordion>\n\n"@ + returns_table(
        f.returns,
    )
}

/// The reconstructed source of every method of a class body, in order;
/// statements that are not function declarations contribute nothing.
pub open spec fn class_source(body: Seq<TopStmt>) -> Seq<char>
    decreases body.len(),
{
    if body.len() == 0 {
        Seq::<char>::empty()
    } else {
        class_source(body.drop_last()) + (match body.last() {
            TopStmt::Func(f) => function_def_text(f),
            _ => Seq::<char>::empty(),
        })
    }
}

/// The method subsections of a class body, in order.
pub open spec fn method_sections(name: Seq<char>, body: Seq<TopStmt>) -> Seq<char>
    decreases body.len(),
{
    if body.len() == 0 {
        Seq::<char>::empty()
    } else {
        method_sections(name, body.drop_last()) + (match body.last() {
            TopStmt::Func(f) => method_section(name, f),
            _ => Seq::<char>::empty(),
        })
    }
}

/// The section of one class: heading, fixed relationship annotation, raw
/// docstring, collapsible reconstructed class body, then one subsection per
/// method.
pub open spec fn class_text(name: Seq<char>, c: ClassDef) -> Seq<char> {
    "### `"@ + c.name@ + "`\n"@
        + " ([Integration](/integrations-integration/#zenml.integrations.integration.Integration \"zenml.integrations.integration.Integration\"))\n\n"@
        + (match tops_docstring(c.body@) {
        Option::Some(d) => d + "\n"@,
        Option::None => Seq::<char>::empty(),
    }) + "<Accordion\n  title=\"Source code in `zenml/"@ + name + "/"@ + name + ".py`\"\n>\n"@
        + "```py\n"@ + "class "@ + c.name@ + ":\n"@ + class_source(c.body@) + "```\n"@
        + "</Accordion>\n\n"@ + method_sections(name, c.body@)
}

/// The sections of the top-level statements, in source order: classes and
/// functions are documented, anything else is ignored.
pub open spec fn tops_text(name: Seq<char>, body: Seq<TopStmt>) -> Seq<char>
    decreases body.len(),
{
    if body.len() == 0 {
        Seq::<char>::empty()
    } else {
        tops_text(name, body.drop_last()) + (match body.last() {
            TopStmt::Class(c) => class_text(name, c),
            TopStmt::Func(f) => function_doc(f),
            TopStmt::Simple(_) => Seq::<char>::empty(),
        })
    }
}

/// The whole document: frontmatter, fixed qualified-name header, the
/// module docstring when the first statement carries one, then every
/// top-level section.
pub open spec fn document_text(name: Seq<char>, body: Seq<TopStmt>) -> Seq<char> {
    "---\ntitle: "@ + name + "\n---\n\n## `zenml."@ + name + "` `special`\n\n"@ + (
    match tops_docstring(body) {
        Option::Some(d) => d + "\n\n"@,
        Option::None => Seq::<char>::empty(),
    }) + tops_text(name, body)
}

/// Builds the documentation section of one top-level function.
#[verifier::rlimit(50)]
pub fn format_function_doc(f: &FunctionDef) -> (res: String)
    requires
        args_wf(f.args),
    ensures
        res@ == function_doc(*f),
{
    let mut doc = String::from_str("### `");
    let clean_name = trim_by(f.name.as_str(), Option::Some('`'));
    doc.append(clean_name.as_str());
    doc.append("`\n\n");
    if let Option::Some(d) = first_docstring(&f.body) {
        let c = clean_docstring(d.as_str());
        doc.append(c.as_str());
        doc.append("\n\n");
    }
    let ghost head = "### `"@ + trim_spec(f.name@, Option::Some('`')) + "`\n\n"@ + (
    match body_docstring(f.body@) {
        Option::Some(d) => clean_doc_spec(d) + "\n\n"@,
        Option::None => Seq::<char>::empty(),
    });
    proof {
        assert(doc@ =~= head);
    }
    let t = format_args_table(&f.args);
    doc.append(t.as_str());
    let r = format_returns_table(&f.returns);
    doc.append(r.as_str());
    doc.append("\n**Description:**\n\n");
    let ghost mid = head + args_table(f.args) + returns_table(f.returns)
        + "\n**Description:**\n\n"@;
    proof {
        assert(doc@ =~= mid);
    }
    if let Option::Some(d) = first_docstring(&f.body) {
        let de = doc_description(d.as_str());
        let det = trim_by(de.as_str(), Option::None);
        doc.append(det.as_str());
        doc.append("\n");
    }
    proof {
        assert(doc@ =~= function_doc(*f));
    }
    doc
}

/// Builds the subsection of one method of a class.
#[verifier::rlimit(50)]
fn render_method(module_name: &str, f: &FunctionDef) -> (res: String)
    requires
        args_wf(f.args),
    ensures
        res@ == method_section(module_name@, *f),
{
    let mut md = String::from_str("#### `");
    md.append(f.name.as_str());
    md.append("()` `");
    if is_classmethod(&f.decorators) {
        md.append("classmethod");
    }
    md.append("`\n\n");
    let ghost head = "#### `"@ + f.name@ + "()` `"@ + (if spec_is_classmethod(f.decorators@) {
        "classmethod"@
    } else {
        Seq::<char>::empty()
    }) + "`\n\n"@;
    proof {
        assert(md@ =~= head);
    }
    let t = format_args_table(&f.args);
    md.append(t.as_str());
    if let Option::Some(d) = first_docstring(&f.body) {
        md.append(d.as_str());
        md.append("\n");
    }
    let ghost mid = head + args_table(f.args) + (match body_docstring(f.body@) {
        Option::Some(d) => d + "\n"@,
        Option::None => Seq::<char>::empty(),
    });
    proof {
        assert(md@ =~= mid);
    }
    md.append("<Accordion\n  title=\"Source code in `zenml/");
    md.append(module_name);
    md.append("/");
    md.append(module_name);
    md.append(".py`\"\n\n>\n");
    md.append("```py\n");
    let src = reconstruct_function_def(f);
    md.append(src.as_str());
    md.append("```\n");
    md.append("</Accordion>\n\n");
    let r = format_returns_table(&f.returns);
    md.append(r.as_str());
    proof {
        assert(md@ =~= method_section(module_name@, *f));
    }
    md
}

/// Builds the section of one class.
#[verifier::rlimit(50)]
fn render_class(module_name: &str, c: &ClassDef) -> (res: String)
    requires
        tops_wf(c.body@),
    ensures
        res@ == class_text(module_name@, *c),
{
    let mut md = String::from_str("### `");
    md.append(c.name.as_str());
    md.append("`\n");
    md.append(
        " ([Integration](/integrations-integration/#zenml.integrations.integration.Integration \"zenml.integrations.integration.Integration\"))\n\n",
    );
    if let Option::Some(d) = first_top_docstring(&c.body) {
        md.append(d.as_str());
        md.append("\n");
    }
    md.append("<Accordion\n  title=\"Source code in `zenml/");
    md.append(module_name);
    md.append("/");
    md.append(module_name);
    md.append(".py`\"\n>\n");
    md.append("```py\n");
    md.append("class ");
    md.append(c.name.as_str());
    md.append(":\n");
    let ghost head = "### `"@ + c.name@ + "`\n"@
        + " ([Integration](/integrations-integration/#zenml.integrations.integration.Integration \"zenml.integrations.integration.Integration\"))\n\n"@
        + (match tops_docstring(c.body@) {
        Option::Some(d) => d + "\n"@,
        Option::None => Seq::<char>::empty(),
    }) + "<Accordion\n  title=\"Source code in `zenml/"@ + module_name@ + "/"@ + module_name@
        + ".py`\"\n>\n"@ + "```py\n"@ + "class "@ + c.name@ + ":\n"@;
    proof {
        assert(md@ =~= head);
    }
    let n = c.body.len();
    for i in 0..n
        invariant
            tops_wf(c.body@),
            n == c.body@.len(),
            md@ == head + class_source(c.body@.take(i as int)),
    {
        proof {
            assert(top_stmt_wf(c.body@[i as int]));
        }
        if let TopStmt::Func(f) = &c.body[i] {
            let src = reconstruct_function_def(f);
            md.append(src.as_str());
        }
        proof {
            assert(c.body@.take(i as int + 1).drop_last() =~= c.body@.take(i as int));
            assert(c.body@.take(i as int + 1).last() == c.body@[i as int]);
            assert(md@ =~= head + class_source(c.body@.take(i as int + 1)));
        }
    }
    proof {
        assert(c.body@.take(n as int) =~= c.body@);
    }
    md.append("```\n");
    md.append("</Accordion>\n\n");
    let ghost mid = head + class_source(c.body@) + "```\n"@ + "</Accordion>\n\n"@;
    proof {
        assert(md@ =~= mid);
    }
    for i in 0..n
        invariant
            tops_wf(c.body@),
            n == c.body@.len(),
            md@ == mid + method_sections(module_name@, c.body@.take(i as int)),
    {
        proof {
            assert(top_stmt_wf(c.body@[i as int]));
        }
        if let TopStmt::Func(f) = &c.body[i] {
            let sec = render_method(module_name, f);
            md.append(sec.as_str());
        }
        proof {
            assert(c.body@.take(i as int + 1).drop_last() =~= c.body@.take(i as int));
            assert(c.body@.take(i as int + 1).last() == c.body@[i as int]);
            assert(md@ =~= mid + method_sections(module_name@, c.body@.take(i as int + 1)));
        }
    }
    proof {
        assert(c.body@.take(n as int) =~= c.body@);
        assert(md@ =~= class_text(module_name@, *c));
    }
    md
}

/// Builds the whole document for a module: its display name and its
/// top-level statements, in source order.
#[verifier::rlimit(50)]
pub fn generate_document(module_name: &str, body: &Vec<TopStmt>) -> (res: String)
    requires
        tops_wf(body@),
    ensures
        res@ == document_text(module_name@, body@),
{
    let mut md = String::from_str("---\ntitle: ");
    md.append(module_name);
    md.append("\n---\n\n## `zenml.");
    md.append(module_name);
    md.append("` `special`\n\n");
    if let Option::Some(d) = first_top_docstring(body) {
        md.append(d.as_str());
        md.append("\n\n");
    }
    let ghost head = "---\ntitle: "@ + module_name@ + "\n---\n\n## `zenml."@ + module_name@
        + "` `special`\n\n"@ + (match tops_docstring(body@) {
        Option::Some(d) => d + "\n\n"@,
        Option::None => Seq::<char>::empty(),
    });
    proof {
        assert(md@ =~= head);
    }
    let n = body.len();
    for i in 0..n
        invariant
            tops_wf(body@),
            n == body@.len(),
            md@ == head + tops_text(module_name@, body@.take(i as int)),
    {
        proof {
            assert(top_stmt_wf(body@[i as int]));
        }
        match &body[i] {
            TopStmt::Class(c) => {
                let sec = render_class(module_name, c);
                md.append(sec.as_str());
            },
            TopStmt::Func(f) => {
                let sec = format_function_doc(f);
                md.append(sec.as_str());
            },
            TopStmt::Simple(_) => {},
        }
        proof {
            assert(body@.take(i as int + 1).drop_last() =~= body@.take(i as int));
            assert(body@.take(i as int + 1).last() == body@[i as int]);
            assert(md@ =~= head + tops_text(module_name@, body@.take(i as int + 1)));
        }
    }
    proof {
        assert(body@.take(n as int) =~= body@);
        assert(md@ =~= document_text(module_name@, body@));
    }
    md
}

} // verus!
