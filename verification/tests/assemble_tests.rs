use pydocgen::assemble::{format_function_doc, generate_document, is_classmethod};
use pydocgen::ast::{Arguments, ClassDef, Expr, FunctionDef, Param, Stmt, TopStmt};

fn name(s: &str) -> Expr {
    Expr::Name { id: s.to_string() }
}

fn docstring_stmt(text: &str) -> Stmt {
    Stmt::ExprStmt {
        value: Expr::StrLit { value: text.to_string(), dump: format!("Constant({:?})", text) },
    }
}

fn greet_fn() -> FunctionDef {
    FunctionDef {
        name: "greet".to_string(),
        decorators: vec![],
        args: Arguments {
            args: vec![
                Param { name: "name".to_string(), annotation: Some(name("str")) },
                Param { name: "greeting".to_string(), annotation: Some(name("str")) },
            ],
            defaults: vec!["\"hi\"".to_string()],
            kwonlyargs: vec![],
        },
        returns: Some(name("str")),
        body: vec![
            docstring_stmt("Say hi."),
            Stmt::Return { value: Some(name("greeting")) },
        ],
    }
}

#[test]
fn classmethod_marker_is_recognised() {
    assert!(is_classmethod(&vec![name("classmethod")]));
    assert!(is_classmethod(&vec![name("staticmethod"), name("classmethod")]));
    assert!(!is_classmethod(&vec![name("staticmethod")]));
    assert!(!is_classmethod(&vec![]));
}

#[test]
fn greet_module_documents_params_returns_and_source() {
    let module = vec![TopStmt::Func(greet_fn())];
    let doc = generate_document("hello", &module);
    assert!(doc.starts_with("---\ntitle: hello\n---\n\n## `zenml.hello` `special`\n\n"));
    assert!(doc.contains("### `greet`\n\nSay hi.\n\n"));
    assert!(doc.contains("| `name` | `str` |  | _required_ |\n"));
    assert!(doc.contains("| `greeting` | `str` |  | \"hi\" |\n"));
    assert!(doc.contains("\n**Returns:**\n\n| Type | Description |\n| --- | --- |\n| `str` |  |\n"));
}

#[test]
fn function_doc_includes_description_after_blank_line() {
    let mut f = greet_fn();
    f.body[0] = docstring_stmt("Say hi.\n\nGreets the given name\npolitely.");
    let doc = format_function_doc(&f);
    assert!(doc.contains("\n**Description:**\n\nGreets the given name\npolitely.\n"));
}

#[test]
fn function_doc_without_docstring_has_empty_description() {
    let f = FunctionDef {
        name: "f".to_string(),
        decorators: vec![],
        args: Arguments { args: vec![], defaults: vec![], kwonlyargs: vec![] },
        returns: None,
        body: vec![Stmt::Pass],
    };
    let doc = format_function_doc(&f);
    assert!(doc.ends_with("\n**Description:**\n\n"));
    assert!(doc.starts_with("### `f`\n\n"));
}

#[test]
fn class_with_classmethod_tags_only_that_method() {
    let m1 = FunctionDef {
        name: "build".to_string(),
        decorators: vec![name("classmethod")],
        args: Arguments { args: vec![], defaults: vec![], kwonlyargs: vec![] },
        returns: None,
        body: vec![Stmt::Pass],
    };
    let m2 = FunctionDef {
        name: "run".to_string(),
        decorators: vec![],
        args: Arguments { args: vec![], defaults: vec![], kwonlyargs: vec![] },
        returns: None,
        body: vec![Stmt::Pass],
    };
    let class = ClassDef {
        name: "Job".to_string(),
        body: vec![
            docstring_into_top("A job."),
            TopStmt::Func(m1),
            TopStmt::Func(m2),
        ],
    };
    let doc = generate_document("jobs", &vec![TopStmt::Class(class)]);
    assert!(doc.contains("#### `build()` `classmethod`\n\n"));
    assert!(doc.contains("#### `run()` ``\n\n"));
    assert!(doc.contains("### `Job`\n ([Integration]"));
    assert!(doc.contains("```py\nclass Job:\n@classmethod\ndef build():\n    pass\ndef run():\n    pass\n```\n"));
}

fn docstring_into_top(text: &str) -> TopStmt {
    TopStmt::Simple(docstring_stmt(text))
}

#[test]
fn empty_module_is_frontmatter_and_header_only() {
    let doc = generate_document("empty", &vec![]);
    assert_eq!(doc, "---\ntitle: empty\n---\n\n## `zenml.empty` `special`\n\n");
}

#[test]
fn module_docstring_follows_the_header() {
    let module = vec![docstring_into_top("Module things.")];
    let doc = generate_document("m", &module);
    assert_eq!(doc, "---\ntitle: m\n---\n\n## `zenml.m` `special`\n\nModule things.\n\n");
}

#[test]
fn non_declaration_top_statements_are_ignored() {
    let module = vec![
        TopStmt::Simple(Stmt::Pass),
        TopStmt::Simple(Stmt::Assign { targets: vec![name("x")], value: name("y") }),
    ];
    let doc = generate_document("m", &module);
    assert_eq!(doc, "---\ntitle: m\n---\n\n## `zenml.m` `special`\n\n");
}

#[test]
fn class_docstring_and_accordion_frame_the_source() {
    let class = ClassDef { name: "Empty".to_string(), body: vec![docstring_into_top("Doc.")] };
    let doc = generate_document("mod", &vec![TopStmt::Class(class)]);
    assert!(doc.contains("### `Empty`\n"));
    assert!(doc.contains("Doc.\n"));
    assert!(doc.contains(
        "<Accordion\n  title=\"Source code in `zenml/mod/mod.py`\"\n>\n```py\nclass Empty:\n```\n</Accordion>\n\n"
    ));
}
