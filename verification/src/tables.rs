//! Markdown table builders for a function's parameters and return type.

use vstd::prelude::*;
use vstd::string::*;

use crate::ast::{args_wf, Arguments, Expr, Param};
use crate::stringify::{extract_type, type_str};

verus! {

/// The type cell of a parameter row: its stringified annotation, or the
/// generic `Any` marker when no annotation is present.
pub open spec fn param_type_str(p: Param) -> Seq<char> {
    match p.annotation {
        Option::Some(a) => type_str(a),
        Option::None => "Any"@,
    }
}

/// The default cell of positional row `i`: with `n` parameters and `d`
/// defaults, the trailing `d` rows show their default's literal text, every
/// earlier row shows the required marker (Python's own trailing alignment).
pub open spec fn param_default_cell(a: Arguments, i: int) -> Seq<char> {
    if i >= a.args@.len() - a.defaults@.len() {
        a.defaults@[i - (a.args@.len() - a.defaults@.len())]@
    } else {
        "_required_"@
    }
}

/// One positional-parameter row.
pub open spec fn pos_param_row(a: Arguments, i: int) -> Seq<char> {
    "| `"@ + a.args@[i].name@ + "` | `"@ + param_type_str(a.args@[i]) + "` |  | "@
        + param_default_cell(a, i) + " |\n"@
}

/// One keyword-only-parameter row. Keyword-only defaults are not carried by
/// [`Arguments`], so the default cell is always the required marker.
pub open spec fn kw_param_row(a: Arguments, i: int) -> Seq<char> {
    "| `"@ + a.kwonlyargs@[i].name@ + "` | `"@ + param_type_str(a.kwonlyargs@[i])
        + "` |  | _required_ |\n"@
}

/// The first `n` positional rows, in declaration order.
pub open spec fn pos_rows(a: Arguments, n: int) -> Seq<char>
    decreases n,
{
    if n <= 0 {
        Seq::<char>::empty()
    } else {
        pos_rows(a, n - 1) + pos_param_row(a, n - 1)
    }
}

/// The first `n` keyword-only rows, in declaration order.
pub open spec fn kw_rows(a: Arguments, n: int) -> Seq<char>
    decreases n,
{
    if n <= 0 {
        Seq::<char>::empty()
    } else {
        kw_rows(a, n - 1) + kw_param_row(a, n - 1)
    }
}

/// The whole parameter table: header, every positional row, then every
/// keyword-only row.
pub open spec fn args_table(a: Arguments) -> Seq<char> {
    "\n**Parameters:**\n\n| Name | Type | Description | Default |\n| --- | --- | --- | --- |\n"@
        + pos_rows(a, a.args@.len() as int) + kw_rows(a, a.kwonlyargs@.len() as int)
}

/// The return table: a single row with the stringified return annotation,
/// or the fixed no-return row when there is none.
pub open spec fn returns_table(r: Option<Expr>) -> Seq<char> {
    match r {
        Option::Some(e) => "\n**Returns:**\n\n| Type | Description |\n| --- | --- |\n"@ + "| `"@
            + type_str(e) + "` |  |\n"@,
        Option::None => "\n**Returns:**\n\n| Type | Description |\n| --- | --- |\n"@
            + "| None | This function doesn't return a value. |\n"@,
    }
}

/// Builds the Markdown parameter table for a parameter list.
pub fn format_args_table(args: &Arguments) -> (res: String)
    requires
        args_wf(*args),
    ensures
        res@ == args_table(*args),
{
    let mut table = String::from_str(
        "\n**Parameters:**\n\n| Name | Type | Description | Default |\n| --- | --- | --- | --- |\n",
    );
    let ghost header: Seq<char> =
        "\n**Parameters:**\n\n| Name | Type | Description | Default |\n| --- | --- | --- | --- |\n"@;
    let args_len = args.args.len();
    let defaults_len = args.defaults.len();
    for i in 0..args_len
        invariant
            args_wf(*args),
            args_len == args.args@.len(),
            defaults_len == args.defaults@.len(),
            table@ == header + pos_rows(*args, i as int),
    {
        let p = &args.args[i];
        table.append("| `");
        table.append(p.name.as_str());
        table.append("` | `");
        if let Option::Some(a) = &p.annotation {
            let t = extract_type(a);
            table.append(t.as_str());
        } else {
            table.append("Any");
        }
        table.append("` |  | ");
        if i >= args_len - defaults_len {
            table.append(args.defaults[i - (args_len - defaults_len)].as_str());
        } else {
            table.append("_required_");
        }
        table.append(" |\n");
        proof {
            assert(table@ =~= header + pos_rows(*args, i as int) + pos_param_row(
                *args,
                i as int,
            ));
            assert(table@ =~= header + pos_rows(*args, i as int + 1));
        }
    }
    let kw_len = args.kwonlyargs.len();
    for i in 0..kw_len
        invariant
            args_wf(*args),
            args_len == args.args@.len(),
            kw_len == args.kwonlyargs@.len(),
            table@ == header + pos_rows(*args, args_len as int) + kw_rows(*args, i as int),
    {
        let p = &args.kwonlyargs[i];
        table.append("| `");
        table.append(p.name.as_str());
        table.append("` | `");
        if let Option::Some(a) = &p.annotation {
            let t = extract_type(a);
            table.append(t.as_str());
        } else {
            table.append("Any");
        }
        table.append("` |  | _required_ |\n");
        proof {
            assert(table@ =~= header + pos_rows(*args, args_len as int) + kw_rows(
                *args,
                i as int,
            ) + kw_param_row(*args, i as int));
            assert(table@ =~= header + pos_rows(*args, args_len as int) + kw_rows(
                *args,
                i as int + 1,
            ));
        }
    }
    table
}

/// Builds the Markdown return table for an optional return annotation.
pub fn format_returns_table(ret: &Option<Expr>) -> (res: String)
    ensures
        res@ == returns_table(*ret),
{
    let mut table = String::from_str("\n**Returns:**\n\n| Type | Description |\n| --- | --- |\n");
    if let Option::Some(r) = ret {
        let t = extract_type(r);
        table.append("| `");
        table.append(t.as_str());
        table.append("` |  |\n");
        proof {
            assert(table@ =~= returns_table(*ret));
        }
    } else {
        table.append("| None | This function doesn't return a value. |\n");
    }
    table
}

/// Parameter-alignment law: with `n` positional parameters and `d` defaults,
/// exactly the trailing `d` rows are rendered with a default — row `i` shows
/// the literal text of default `i - (n - d)`, in the defaults' own order —
/// and every row before them shows the required marker.
pub proof fn lemma_default_alignment(a: Arguments, i: int)
    requires
        args_wf(a),
        0 <= i < a.args@.len(),
    ensures
        i >= a.args@.len() - a.defaults@.len() ==> param_default_cell(a, i) == a.defaults@[i - (
        a.args@.len() - a.defaults@.len())]@,
        i < a.args@.len() - a.defaults@.len() ==> param_default_cell(a, i) == "_required_"@,
{
}

/// Keyword-only parameters are always rendered as required: every
/// keyword-only row carries the required marker in its default cell,
/// whatever defaults the source declared.
pub proof fn lemma_kwonly_always_required(a: Arguments, i: int)
    requires
        0 <= i < a.kwonlyargs@.len(),
    ensures
        kw_param_row(a, i) == "| `"@ + a.kwonlyargs@[i].name@ + "` | `"@ + param_type_str(
            a.kwonlyargs@[i],
        ) + "` |  | "@ + "_required_"@ + " |\n"@,
{
    reveal_strlit("` |  | _required_ |\n");
    reveal_strlit("` |  | ");
    reveal_strlit("_required_");
    reveal_strlit(" |\n");
    assert(kw_param_row(a, i) =~= "| `"@ + a.kwonlyargs@[i].name@ + "` | `"@ + param_type_str(
        a.kwonlyargs@[i],
    ) + "` |  | "@ + "_required_"@ + " |\n"@);
}

} // verus!
