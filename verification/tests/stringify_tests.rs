use pydocgen::ast::Expr;
use pydocgen::stringify::extract_type;

fn name(s: &str) -> Expr {
    Expr::Name { id: s.to_string() }
}

#[test]
fn plain_name_renders_as_itself() {
    assert_eq!(extract_type(&name("int")), "int");
}

#[test]
fn dotted_attribute_renders_base_dot_attr() {
    let e = Expr::Attribute { value: Box::new(name("typing")), attr: "Optional".to_string() };
    assert_eq!(extract_type(&e), "typing.Optional");
}

#[test]
fn nested_attribute_renders_left_to_right() {
    let inner = Expr::Attribute { value: Box::new(name("a")), attr: "b".to_string() };
    let e = Expr::Attribute { value: Box::new(inner), attr: "c".to_string() };
    assert_eq!(extract_type(&e), "a.b.c");
}

#[test]
fn subscript_with_tuple_slice_drops_parens() {
    let slice = Expr::Tuple { elts: vec![name("str"), name("int")] };
    let e = Expr::Subscript { value: Box::new(name("Dict")), slice: Box::new(slice) };
    assert_eq!(extract_type(&e), "Dict[str, int]");
}

#[test]
fn subscript_with_single_slice_has_no_extra_comma() {
    let e = Expr::Subscript { value: Box::new(name("X")), slice: Box::new(name("Y")) };
    assert_eq!(extract_type(&e), "X[Y]");
}

#[test]
fn nested_subscripts_render_recursively() {
    let inner = Expr::Subscript { value: Box::new(name("List")), slice: Box::new(name("int")) };
    let e = Expr::Subscript { value: Box::new(name("Optional")), slice: Box::new(inner) };
    assert_eq!(extract_type(&e), "Optional[List[int]]");
}

#[test]
fn binop_renders_as_union() {
    let e = Expr::BinOp { left: Box::new(name("int")), right: Box::new(name("None")) };
    assert_eq!(extract_type(&e), "int | None");
}

#[test]
fn list_literal_renders_in_brackets() {
    let e = Expr::List { elts: vec![name("str"), name("int"), name("bool")] };
    assert_eq!(extract_type(&e), "[str, int, bool]");
}

#[test]
fn empty_list_literal_renders_as_brackets() {
    let e = Expr::List { elts: vec![] };
    assert_eq!(extract_type(&e), "[]");
}

#[test]
fn tuple_literal_renders_in_parens() {
    let e = Expr::Tuple { elts: vec![name("str"), name("int")] };
    assert_eq!(extract_type(&e), "(str, int)");
}

#[test]
fn call_renders_as_generic_application() {
    let e = Expr::Call {
        func: Box::new(name("Annotated")),
        args: vec![name("str"), name("Gt")],
    };
    assert_eq!(extract_type(&e), "Annotated[str, Gt]");
}

#[test]
fn fallback_renders_structural_dump() {
    let e = Expr::Other { dump: "Constant(ExprConstant { value: Int(3) })".to_string() };
    assert_eq!(extract_type(&e), "Constant(ExprConstant { value: Int(3) })");
}

#[test]
fn string_literal_renders_its_dump() {
    let e = Expr::StrLit { value: "hi".to_string(), dump: "Constant(Str(\"hi\"))".to_string() };
    assert_eq!(extract_type(&e), "Constant(Str(\"hi\"))");
}

#[test]
fn rendering_is_deterministic_and_nonempty() {
    let e = Expr::BinOp {
        left: Box::new(Expr::Subscript {
            value: Box::new(name("Dict")),
            slice: Box::new(Expr::Tuple { elts: vec![name("str"), name("int")] }),
        }),
        right: Box::new(name("None")),
    };
    let first = extract_type(&e);
    let second = extract_type(&e);
    assert_eq!(first, second);
    assert!(!first.is_empty());
    assert_eq!(first, "Dict[str, int] | None");
}
