//! The recursive type-expression stringifier.
//!
//! [`type_str`] is the canonical rendering of an annotation expression as a
//! sequence of characters; [`extract_type`] is the executable renderer and
//! returns exactly that sequence. Rendering is total over every [`Expr`]:
//! unknown expression kinds fall back to their structural dump.

use vstd::prelude::*;
use vstd::string::*;

use crate::ast::Expr;

verus! {

/// Canonical rendering of an annotation expression:
/// - a name renders as itself;
/// - attribute access `a.b` renders base, `.`, attribute;
/// - `X[Y]` renders the base, then the slice in brackets, a tuple slice
///   losing its parentheses (`Dict[str, int]`);
/// - list and tuple literals render their comma-joined elements in `[]`
///   resp. `()`;
/// - a call `f(x, y)` renders as generic application `f[x, y]`;
/// - a binary operator renders as the union `left | right`;
/// - string literals and all other kinds render as their structural dump.
pub open spec fn type_str(e: Expr) -> Seq<char>
    decreases e, 0int,
{
    match e {
        Expr::Name { id } => id@,
        Expr::Attribute { value, attr } => type_str(*value) + "."@ + attr@,
        Expr::Subscript { value, slice } => type_str(*value) + "["@ + subscript_slice_str(*slice)
            + "]"@,
        Expr::List { elts } => "["@ + comma_join_types(elts@) + "]"@,
        Expr::Tuple { elts } => "("@ + comma_join_types(elts@) + ")"@,
        Expr::Call { func, args } => type_str(*func) + "["@ + comma_join_types(args@) + "]"@,
        Expr::BinOp { left, right } => type_str(*left) + " | "@ + type_str(*right),
        Expr::StrLit { value: _, dump } => dump@,
        Expr::Other { dump } => dump@,
    }
}

/// A subscript slice renders without surrounding parentheses when it is a
/// tuple, and as an ordinary expression otherwise.
pub open spec fn subscript_slice_str(s: Expr) -> Seq<char>
    decreases s, 1int,
{
    match s {
        Expr::Tuple { elts } => comma_join_types(elts@),
        _ => type_str(s),
    }
}

/// The renderings of `elems`, joined with `", "`.
pub open spec fn comma_join_types(elems: Seq<Expr>) -> Seq<char>
    decreases elems, 2int,
{
    if elems.len() == 0 {
        Seq::<char>::empty()
    } else if elems.len() == 1 {
        type_str(elems[0])
    } else {
        comma_join_types(elems.drop_last()) + ", "@ + type_str(elems.last())
    }
}

/// Renders an annotation expression into its canonical string.
pub fn extract_type(e: &Expr) -> (res: String)
    ensures
        res@ == type_str(*e),
    decreases *e, 0int,
{
    match e {
        Expr::Name { id } => id.clone(),
        Expr::Attribute { value, attr } => {
            let mut s = extract_type(&**value);
            s.append(".");
            s.append(attr.as_str());
            s
        },
        Expr::Subscript { value, slice } => {
            let mut s = extract_type(&**value);
            s.append("[");
            let t = extract_slice(&**slice);
            s.append(t.as_str());
            s.append("]");
            s
        },
        Expr::List { elts } => {
            let mut s = String::from_str("[");
            let j = join_types(elts);
            s.append(j.as_str());
            s.append("]");
            s
        },
        Expr::Tuple { elts } => {
            let mut s = String::from_str("(");
            let j = join_types(elts);
            s.append(j.as_str());
            s.append(")");
            s
        },
        Expr::Call { func, args } => {
            let mut s = extract_type(&**func);
            s.append("[");
            let j = join_types(args);
            s.append(j.as_str());
            s.append("]");
            s
        },
        Expr::BinOp { left, right } => {
            let mut s = extract_type(&**left);
            s.append(" | ");
            let t = extract_type(&**right);
            s.append(t.as_str());
            s
        },
        Expr::StrLit { value: _, dump } => dump.clone(),
        Expr::Other { dump } => dump.clone(),
    }
}

/// Renders a subscript slice: a tuple loses its parentheses.
pub fn extract_slice(s: &Expr) -> (res: String)
    ensures
        res@ == subscript_slice_str(*s),
    decreases *s, 1int,
{
    match s {
        Expr::Tuple { elts } => join_types(elts),
        _ => extract_type(s),
    }
}

/// Renders every element and joins the results with `", "`.
pub fn join_types(elems: &Vec<Expr>) -> (res: String)
    ensures
        res@ == comma_join_types(elems@),
    decreases *elems, 2int,
{
    let mut s = String::new();
    let n = elems.len();
    for i in 0..n
        invariant
            n == elems@.len(),
            s@ == comma_join_types(elems@.take(i as int)),
    {
        proof {
            assert(decreases_to!(*elems => elems@[i as int]));
        }
        if i > 0 {
            s.append(", ");
        }
        let t = extract_type(&elems[i]);
        s.append(t.as_str());
        proof {
            let pre = elems@.take(i as int);
            let cur = elems@.take(i as int + 1);
            assert(cur.drop_last() =~= pre);
            assert(cur.last() == elems@[i as int]);
            if i == 0 {
                assert(s@ =~= comma_join_types(cur));
            } else {
                assert(s@ == comma_join_types(cur));
            }
        }
    }
    proof {
        assert(elems@.take(n as int) =~= elems@);
    }
    s
}

/// Stringification is total and deterministic by construction — `type_str`
/// is a function of the expression alone — and on well-formed trees it never
/// yields the empty string.
pub proof fn lemma_type_str_nonempty(e: Expr)
    requires
        crate::ast::expr_wf(e),
    ensures
        type_str(e).len() > 0,
{
    match e {
        Expr::Name { id } => {},
        Expr::Attribute { value, attr } => {
            reveal_strlit(".");
        },
        Expr::Subscript { value, slice } => {
            reveal_strlit("[");
            reveal_strlit("]");
        },
        Expr::List { elts } => {
            reveal_strlit("[");
            reveal_strlit("]");
        },
        Expr::Tuple { elts } => {
            reveal_strlit("(");
            reveal_strlit(")");
        },
        Expr::Call { func, args } => {
            reveal_strlit("[");
            reveal_strlit("]");
        },
        Expr::BinOp { left, right } => {
            reveal_strlit(" | ");
        },
        Expr::StrLit { value, dump } => {},
        Expr::Other { dump } => {},
    }
}

} // verus!
