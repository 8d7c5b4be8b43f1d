//! The statement reconstructor: an indented pseudo-source rendering of a
//! function declaration and its body, for the bounded statement grammar of
//! [`crate::ast::Stmt`]. Unsupported statements degrade to one placeholder
//! comment line; reconstruction never fails.
//!
//! Nested block bodies receive one fixed additional indentation step rather
//! than depth-proportional indentation; that flat-indent rendering is kept
//! deliberately.

use vstd::prelude::*;
use vstd::string::*;

use crate::ast::{args_wf, Arguments, Expr, FunctionDef, Stmt};
use crate::docstring::{body_docstring, first_docstring, trim_by, trim_spec};
use crate::stringify::{comma_join_types, extract_type, join_types, type_str};

verus! {

/// Rendering of one statement in a nested block (no indentation of its own
/// first line; nested bodies below it get one fixed four-space step).
pub open spec fn stmt_str(s: Stmt) -> Seq<char>
    decreases s, 0int,
{
    match s {
        Stmt::ExprStmt { value } => type_str(value),
        Stmt::Pass => "pass"@,
        Stmt::Return { value: Option::Some(v) } => "return "@ + type_str(v),
        Stmt::Return { value: Option::None } => "return"@,
        Stmt::If { test, body, orelse } => "if "@ + type_str(test) + ":\n"@ + body_lines(
            body@,
            "    "@,
        ) + (if orelse@.len() > 0 {
            "else:\n"@ + body_lines(orelse@, "    "@)
        } else {
            Seq::<char>::empty()
        }),
        Stmt::Assign { targets, value } => comma_join_types(targets@) + " = "@ + type_str(value),
        Stmt::AugAssign { target, op, value } => type_str(target) + " "@ + op@ + "= "@ + type_str(
            value,
        ),
        Stmt::For { target, iterable, body } => "for "@ + type_str(target) + " in "@ + type_str(
            iterable,
        ) + ":\n"@ + body_lines(body@, "    "@),
        Stmt::While { test, body } => "while "@ + type_str(test) + ":\n"@ + body_lines(
            body@,
            "    "@,
        ),
        Stmt::Raise { exc: Option::Some(e) } => "raise "@ + type_str(e),
        Stmt::Raise { exc: Option::None } => "raise"@,
        Stmt::Other { dump } => "# Unhandled statement: "@ + dump@,
    }
}

/// One line per statement of a nested block: the given indentation prefix,
/// the statement's rendering, a newline.
pub open spec fn body_lines(body: Seq<Stmt>, prefix: Seq<char>) -> Seq<char>
    decreases body, 1int,
{
    if body.len() == 0 {
        Seq::<char>::empty()
    } else {
        body_lines(body.drop_last(), prefix) + prefix + stmt_str(body.last()) + "\n"@
    }
}

/// Rendering of one direct child of a function body: four spaces of
/// indentation, with nested block bodies below it taking eight. A bare
/// string-literal expression statement renders as nothing here (the
/// docstring block is emitted separately); an unsupported statement
/// renders as a single placeholder comment line.
pub open spec fn top_stmt_text(s: Stmt) -> Seq<char> {
    match s {
        Stmt::ExprStmt { value: Expr::StrLit { value: _, dump: _ } } => Seq::<char>::empty(),
        Stmt::ExprStmt { value } => "    "@ + type_str(value) + "\n"@,
        Stmt::Pass => "    pass\n"@,
        Stmt::Return { value: Option::Some(v) } => "    return "@ + type_str(v) + "\n"@,
        Stmt::Return { value: Option::None } => "    return\n"@,
        Stmt::If { test, body, orelse } => "    if "@ + type_str(test) + ":\n"@ + body_lines(
            body@,
            "        "@,
        ) + (if orelse@.len() > 0 {
            "    else:\n"@ + body_lines(orelse@, "        "@)
        } else {
            Seq::<char>::empty()
        }),
        Stmt::Assign { targets, value } => "    "@ + comma_join_types(targets@) + " = "@
            + type_str(value) + "\n"@,
        Stmt::AugAssign { target, op, value } => "    "@ + type_str(target) + " "@ + op@ + "= "@
            + type_str(value) + "\n"@,
        Stmt::For { target, iterable, body } => "    for "@ + type_str(target) + " in "@
            + type_str(iterable) + ":\n"@ + body_lines(body@, "        "@),
        Stmt::While { test, body } => "    while "@ + type_str(test) + ":\n"@ + body_lines(
            body@,
            "        "@,
        ),
        Stmt::Raise { exc: Option::Some(e) } => "    raise "@ + type_str(e) + "\n"@,
        Stmt::Raise { exc: Option::None } => "    raise\n"@,
        Stmt::Other { dump } => "    # Unhandled statement: "@ + dump@ + "\n"@,
    }
}

/// Rendering of a whole function body, one direct child after another.
pub open spec fn top_body_text(body: Seq<Stmt>) -> Seq<char>
    decreases body.len(),
{
    if body.len() == 0 {
        Seq::<char>::empty()
    } else {
        top_body_text(body.drop_last()) + top_stmt_text(body.last())
    }
}

/// One parameter inside a signature: name, `: annotation` when present, and
/// ` = default` for the trailing parameters that own a default.
pub open spec fn param_sig(a: Arguments, i: int) -> Seq<char> {
    a.args@[i].name@ + (match a.args@[i].annotation {
        Option::Some(t) => ": "@ + type_str(t),
        Option::None => Seq::<char>::empty(),
    }) + (if i >= a.args@.len() - a.defaults@.len() {
        " = "@ + a.defaults@[i - (a.args@.len() - a.defaults@.len())]@
    } else {
        Seq::<char>::empty()
    })
}

/// The first `n` parameters of a signature, joined with `", "`.
pub open spec fn params_sig_n(a: Arguments, n: int) -> Seq<char>
    decreases n,
{
    if n <= 0 {
        Seq::<char>::empty()
    } else if n == 1 {
        param_sig(a, 0)
    } else {
        params_sig_n(a, n - 1) + ", "@ + param_sig(a, n - 1)
    }
}

/// One `@decorator` line per decorator, in order.
pub open spec fn decorators_text(ds: Seq<Expr>) -> Seq<char>
    decreases ds.len(),
{
    if ds.len() == 0 {
        Seq::<char>::empty()
    } else {
        decorators_text(ds.drop_last()) + "@"@ + type_str(ds.last()) + "\n"@
    }
}

/// The `def` line of a function: name, positional parameters, optional
/// return annotation.
pub open spec fn fn_signature(f: FunctionDef) -> Seq<char> {
    "def "@ + f.name@ + "("@ + params_sig_n(f.args, f.args.args@.len() as int) + ")"@ + (
    match f.returns {
        Option::Some(r) => " -> "@ + type_str(r),
        Option::None => Seq::<char>::empty(),
    }) + ":\n"@
}

/// The indented triple-quoted docstring block, when the body opens with a
/// bare string literal; empty otherwise.
pub open spec fn doc_block(body: Seq<Stmt>) -> Seq<char> {
    match body_docstring(body) {
        Option::Some(d) => "    \"\"\"\n    "@ + trim_spec(d, Option::None) + "\n    \"\"\"\n"@,
        Option::None => Seq::<char>::empty(),
    }
}

/// The whole reconstruction of a function declaration: decorators,
/// signature, docstring block, body.
pub open spec fn function_def_text(f: FunctionDef) -> Seq<char> {
    decorators_text(f.decorators@) + fn_signature(f) + doc_block(f.body@) + top_body_text(f.body@)
}

/// Renders one statement of a nested block.
pub fn reconstruct_stmt(s: &Stmt) -> (res: String)
    ensures
        res@ == stmt_str(*s),
    decreases *s, 0int,
{
    match s {
        Stmt::ExprStmt { value } => extract_type(value),
        Stmt::Pass => String::from_str("pass"),
        Stmt::Return { value } => {
            if let Option::Some(v) = value {
                let mut r = String::from_str("return ");
                let t = extract_type(v);
                r.append(t.as_str());
                r
            } else {
                String::from_str("return")
            }
        },
        Stmt::If { test, body, orelse } => {
            let mut r = String::from_str("if ");
            let t = extract_type(test);
            r.append(t.as_str());
            r.append(":\n");
            let bl = render_body_lines(body, "    ");
            r.append(bl.as_str());
            if orelse.len() > 0 {
                r.append("else:\n");
                let el = render_body_lines(orelse, "    ");
                r.append(el.as_str());
            }
            proof {
                assert(r@ =~= stmt_str(*s));
            }
            r
        },
        Stmt::Assign { targets, value } => {
            let mut r = join_types(targets);
            r.append(" = ");
            let t = extract_type(value);
            r.append(t.as_str());
            r
        },
        Stmt::AugAssign { target, op, value } => {
            let mut r = extract_type(target);
            r.append(" ");
            r.append(op.as_str());
            r.append("= ");
            let t = extract_type(value);
            r.append(t.as_str());
            r
        },
        Stmt::For { target, iterable, body } => {
            let mut r = String::from_str("for ");
            let t = extract_type(target);
            r.append(t.as_str());
            r.append(" in ");
            let it = extract_type(iterable);
            r.append(it.as_str());
            r.append(":\n");
            let bl = render_body_lines(body, "    ");
            r.append(bl.as_str());
            proof {
                assert(r@ =~= stmt_str(*s));
            }
            r
        },
        Stmt::While { test, body } => {
            let mut r = String::from_str("while ");
            let t = extract_type(test);
            r.append(t.as_str());
            r.append(":\n");
            let bl = render_body_lines(body, "    ");
            r.append(bl.as_str());
            proof {
                assert(r@ =~= stmt_str(*s));
            }
            r
        },
        Stmt::Raise { exc } => {
            if let Option::Some(e) = exc {
                let mut r = String::from_str("raise ");
                let t = extract_type(e);
                r.append(t.as_str());
                r
            } else {
                String::from_str("raise")
            }
        },
        Stmt::Other { dump } => {
            let mut r = String::from_str("# Unhandled statement: ");
            r.append(dump.as_str());
            r
        },
    }
}

/// Renders every statement of a nested block as one indented line.
pub fn render_body_lines(body: &Vec<Stmt>, prefix: &str) -> (res: String)
    ensures
        res@ == body_lines(body@, prefix@),
    decreases *body, 1int,
{
    let mut s = String::new();
    let n = body.len();
    for i in 0..n
        invariant
            n == body@.len(),
            s@ == body_lines(body@.take(i as int), prefix@),
    {
        proof {
            assert(decreases_to!(*body => body@[i as int]));
        }
        s.append(prefix);
        let t = reconstruct_stmt(&body[i]);
        s.append(t.as_str());
        s.append("\n");
        proof {
            assert(body@.take(i as int + 1).drop_last() =~= body@.take(i as int));
            assert(body@.take(i as int + 1).last() == body@[i as int]);
            assert(s@ =~= body_lines(body@.take(i as int + 1), prefix@));
        }
    }
    proof {
        assert(body@.take(n as int) =~= body@);
    }
    s
}

/// Renders one direct child of a function body.
pub fn reconstruct_top_stmt(s: &Stmt) -> (res: String)
    ensures
        res@ == top_stmt_text(*s),
{
    match s {
        Stmt::ExprStmt { value: Expr::StrLit { value: _, dump: _ } } => String::new(),
        Stmt::ExprStmt { value } => {
            let mut r = String::from_str("    ");
            let t = extract_type(value);
            r.append(t.as_str());
            r.append("\n");
            r
        },
        Stmt::Pass => String::from_str("    pass\n"),
        Stmt::Return { value } => {
            if let Option::Some(v) = value {
                let mut r = String::from_str("    return ");
                let t = extract_type(v);
                r.append(t.as_str());
                r.append("\n");
                r
            } else {
                String::from_str("    return\n")
            }
        },
        Stmt::If { test, body, orelse } => {
            let mut r = String::from_str("    if ");
            let t = extract_type(test);
            r.append(t.as_str());
            r.append(":\n");
            let bl = render_body_lines(body, "        ");
            r.append(bl.as_str());
            if orelse.len() > 0 {
                r.append("    else:\n");
                let el = render_body_lines(orelse, "        ");
                r.append(el.as_str());
            }
            proof {
                assert(r@ =~= top_stmt_text(*s));
            }
            r
        },
        Stmt::Assign { targets, value } => {
            let mut r = String::from_str("    ");
            let j = join_types(targets);
            r.append(j.as_str());
            r.append(" = ");
            let t = extract_type(value);
            r.append(t.as_str());
            r.append("\n");
            r
        },
        Stmt::AugAssign { target, op, value } => {
            let mut r = String::from_str("    ");
            let t = extract_type(target);
            r.append(t.as_str());
            r.append(" ");
            r.append(op.as_str());
            r.append("= ");
            let v = extract_type(value);
            r.append(v.as_str());
            r.append("\n");
            r
        },
        Stmt::For { target, iterable, body } => {
            let mut r = String::from_str("    for ");
            let t = extract_type(target);
            r.append(t.as_str());
            r.append(" in ");
            let it = extract_type(iterable);
            r.append(it.as_str());
            r.append(":\n");
            let bl = render_body_lines(body, "        ");
            r.append(bl.as_str());
            proof {
                assert(r@ =~= top_stmt_text(*s));
            }
            r
        },
        Stmt::While { test, body } => {
            let mut r = String::from_str("    while ");
            let t = extract_type(test);
            r.append(t.as_str());
            r.append(":\n");
            let bl = render_body_lines(body, "        ");
            r.append(bl.as_str());
            proof {
                assert(r@ =~= top_stmt_text(*s));
            }
            r
        },
        Stmt::Raise { exc } => {
            if let Option::Some(e) = exc {
                let mut r = String::from_str("    raise ");
                let t = extract_type(e);
                r.append(t.as_str());
                r.append("\n");
                r
            } else {
                String::from_str("    raise\n")
            }
        },
        Stmt::Other { dump } => {
            let mut r = String::from_str("    # Unhandled statement: ");
            r.append(dump.as_str());
            r.append("\n");
            r
        },
    }
}

/// Reconstructs a whole function declaration as pseudo-source.
pub fn reconstruct_function_def(f: &FunctionDef) -> (res: String)
    requires
        args_wf(f.args),
    ensures
        res@ == function_def_text(*f),
{
    let mut out = String::new();
    let dn = f.decorators.len();
    for i in 0..dn
        invariant
            dn == f.decorators@.len(),
            out@ == decorators_text(f.decorators@.take(i as int)),
    {
        out.append("@");
        let t = extract_type(&f.decorators[i]);
        out.append(t.as_str());
        out.append("\n");
        proof {
            assert(f.decorators@.take(i as int + 1).drop_last() =~= f.decorators@.take(i as int));
            assert(f.decorators@.take(i as int + 1).last() == f.decorators@[i as int]);
            assert(out@ =~= decorators_text(f.decorators@.take(i as int + 1)));
        }
    }
    proof {
        assert(f.decorators@.take(dn as int) =~= f.decorators@);
    }
    let ghost decs = decorators_text(f.decorators@);
    out.append("def ");
    out.append(f.name.as_str());
    out.append("(");
    let ghost sig_head = decs + "def "@ + f.name@ + "("@;
    let args_len = f.args.args.len();
    let defaults_len = f.args.defaults.len();
    for i in 0..args_len
        invariant
            args_wf(f.args),
            args_len == f.args.args@.len(),
            defaults_len == f.args.defaults@.len(),
            out@ == sig_head + params_sig_n(f.args, i as int),
    {
        let p = &f.args.args[i];
        let mut ptext = p.name.clone();
        if let Option::Some(t) = &p.annotation {
            ptext.append(": ");
            let ts = extract_type(t);
            ptext.append(ts.as_str());
        }
        if i >= args_len - defaults_len {
            ptext.append(" = ");
            ptext.append(f.args.defaults[i - (args_len - defaults_len)].as_str());
        }
        proof {
            assert(ptext@ =~= param_sig(f.args, i as int));
        }
        if i > 0 {
            out.append(", ");
        }
        out.append(ptext.as_str());
        proof {
            if i == 0 {
                assert(out@ =~= sig_head + params_sig_n(f.args, 1));
            } else {
                assert(out@ =~= sig_head + params_sig_n(f.args, i as int + 1));
            }
        }
    }
    out.append(")");
    if let Option::Some(r) = &f.returns {
        out.append(" -> ");
        let ts = extract_type(r);
        out.append(ts.as_str());
    }
    out.append(":\n");
    proof {
        assert(out@ =~= decs + fn_signature(*f));
    }
    let ghost after_sig = decs + fn_signature(*f);
    if let Option::Some(d) = first_docstring(&f.body) {
        out.append("    \"\"\"\n    ");
        let tr = trim_by(d.as_str(), Option::None);
        out.append(tr.as_str());
        out.append("\n    \"\"\"\n");
    }
    proof {
        assert(out@ =~= after_sig + doc_block(f.body@));
    }
    let ghost with_doc = after_sig + doc_block(f.body@);
    let bn = f.body.len();
    for i in 0..bn
        invariant
            bn == f.body@.len(),
            out@ == with_doc + top_body_text(f.body@.take(i as int)),
    {
        let t = reconstruct_top_stmt(&f.body[i]);
        out.append(t.as_str());
        proof {
            assert(f.body@.take(i as int + 1).drop_last() =~= f.body@.take(i as int));
            assert(f.body@.take(i as int + 1).last() == f.body@[i as int]);
            assert(out@ =~= with_doc + top_body_text(f.body@.take(i as int + 1)));
        }
    }
    proof {
        assert(f.body@.take(bn as int) =~= f.body@);
        assert(out@ =~= function_def_text(*f));
    }
    out
}

/// Body rendering distributes over concatenation: a body split anywhere
/// renders as the two halves rendered one after the other.
pub proof fn lemma_top_body_concat(a: Seq<Stmt>, b: Seq<Stmt>)
    ensures
        top_body_text(a + b) == top_body_text(a) + top_body_text(b),
    decreases b.len(),
{
    if b.len() == 0 {
        assert(a + b =~= a);
        assert(top_body_text(a) + top_body_text(b) =~= top_body_text(a));
    } else {
        lemma_top_body_concat(a, b.drop_last());
        assert((a + b).drop_last() =~= a + b.drop_last());
        assert((a + b).last() == b.last());
        assert(top_body_text(a) + top_body_text(b) =~= top_body_text(a) + top_body_text(
            b.drop_last(),
        ) + top_stmt_text(b.last()));
    }
}

/// An unsupported statement anywhere in a body yields exactly one
/// placeholder comment line, and reconstruction of the statements after it
/// continues unchanged.
pub proof fn lemma_unsupported_one_placeholder_line(body: Seq<Stmt>, i: int, dump: String)
    requires
        0 <= i < body.len(),
        body[i] == (Stmt::Other { dump }),
    ensures
        top_body_text(body) =~= top_body_text(body.take(i)) + ("    # Unhandled statement: "@
            + dump@ + "\n"@) + top_body_text(body.skip(i + 1)),
{
    reveal_with_fuel(top_body_text, 3);
    let mid = seq![body[i]];
    assert(body =~= body.take(i) + mid + body.skip(i + 1));
    lemma_top_body_concat(body.take(i) + mid, body.skip(i + 1));
    lemma_top_body_concat(body.take(i), mid);
    assert(mid.drop_last() =~= Seq::<Stmt>::empty());
    assert(top_body_text(mid.drop_last()) == top_body_text(Seq::<Stmt>::empty()));
    assert(top_body_text(mid) =~= "    # Unhandled statement: "@ + dump@ + "\n"@);
}

/// A function whose body is a docstring statement followed by one `return`
/// with a value reconstructs to its signature, exactly one docstring block,
/// and exactly one return line.
pub proof fn lemma_docstring_then_return(f: FunctionDef, d: String, dmp: String, v: Expr)
    requires
        f.body@ =~= seq![
            (Stmt::ExprStmt { value: Expr::StrLit { value: d, dump: dmp } }),
            (Stmt::Return { value: Option::Some(v) }),
        ],
    ensures
        function_def_text(f) =~= decorators_text(f.decorators@) + fn_signature(f) + (
        "    \"\"\"\n    "@ + trim_spec(d@, Option::None) + "\n    \"\"\"\n"@) + ("    return "@
            + type_str(v) + "\n"@),
{
    reveal_with_fuel(top_body_text, 4);
    let body = f.body@;
    assert(body_docstring(body) == Option::Some(d@));
    assert(body.drop_last() =~= seq![
        (Stmt::ExprStmt { value: Expr::StrLit { value: d, dump: dmp } }),
    ]);
    assert(body.drop_last().drop_last() =~= Seq::<Stmt>::empty());
    assert(top_body_text(body.drop_last()) =~= Seq::<char>::empty());
    assert(top_body_text(body) =~= "    return "@ + type_str(v) + "\n"@);
}

} // verus!
