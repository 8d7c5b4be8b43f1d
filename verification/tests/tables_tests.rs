use pydocgen::ast::{Arguments, Expr, Param};
use pydocgen::tables::{format_args_table, format_returns_table};

fn annotated(name: &str, ty: &str) -> Param {
    Param { name: name.to_string(), annotation: Some(Expr::Name { id: ty.to_string() }) }
}

const TABLE_HEAD: &str =
    "\n**Parameters:**\n\n| Name | Type | Description | Default |\n| --- | --- | --- | --- |\n";

#[test]
fn three_params_two_defaults_align_to_tail() {
    let args = Arguments {
        args: vec![annotated("a", "int"), annotated("b", "int"), annotated("c", "str")],
        defaults: vec!["1".to_string(), "\"x\"".to_string()],
        kwonlyargs: vec![],
    };
    let table = format_args_table(&args);
    let expected = format!(
        "{}{}{}{}",
        TABLE_HEAD,
        "| `a` | `int` |  | _required_ |\n",
        "| `b` | `int` |  | 1 |\n",
        "| `c` | `str` |  | \"x\" |\n",
    );
    assert_eq!(table, expected);
}

#[test]
fn no_defaults_marks_every_param_required() {
    let args = Arguments {
        args: vec![annotated("x", "int"), annotated("y", "int")],
        defaults: vec![],
        kwonlyargs: vec![],
    };
    let table = format_args_table(&args);
    let expected = format!(
        "{}{}{}",
        TABLE_HEAD,
        "| `x` | `int` |  | _required_ |\n",
        "| `y` | `int` |  | _required_ |\n",
    );
    assert_eq!(table, expected);
}

#[test]
fn missing_annotation_renders_any() {
    let args = Arguments {
        args: vec![Param { name: "x".to_string(), annotation: None }],
        defaults: vec![],
        kwonlyargs: vec![],
    };
    let table = format_args_table(&args);
    let expected = format!("{}{}", TABLE_HEAD, "| `x` | `Any` |  | _required_ |\n");
    assert_eq!(table, expected);
}

#[test]
fn kwonly_params_always_render_required() {
    let args = Arguments {
        args: vec![annotated("a", "int")],
        defaults: vec!["0".to_string()],
        kwonlyargs: vec![annotated("k", "str"), Param { name: "j".to_string(), annotation: None }],
    };
    let table = format_args_table(&args);
    let expected = format!(
        "{}{}{}{}",
        TABLE_HEAD,
        "| `a` | `int` |  | 0 |\n",
        "| `k` | `str` |  | _required_ |\n",
        "| `j` | `Any` |  | _required_ |\n",
    );
    assert_eq!(table, expected);
}

#[test]
fn empty_parameter_list_renders_header_only() {
    let args = Arguments { args: vec![], defaults: vec![], kwonlyargs: vec![] };
    assert_eq!(format_args_table(&args), TABLE_HEAD);
}

#[test]
fn returns_table_with_annotation() {
    let ret = Some(Expr::Name { id: "str".to_string() });
    assert_eq!(
        format_returns_table(&ret),
        "\n**Returns:**\n\n| Type | Description |\n| --- | --- |\n| `str` |  |\n",
    );
}

#[test]
fn returns_table_without_annotation() {
    assert_eq!(
        format_returns_table(&None),
        "\n**Returns:**\n\n| Type | Description |\n| --- | --- |\n| None | This function doesn't return a value. |\n",
    );
}
