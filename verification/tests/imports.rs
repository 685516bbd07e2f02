use alya::ast::{Expr, Stmt};
use alya::parser::imports::{apply_module_alias, local_functions, validate_unique_functions};
use alya::parser::resolve::{
    embedded_stdlib_name, normalize_path, std_module_name, Action, Event, ImportResolver,
};
use alya::parser::source::{load_module, parse_source};

/// Resolves the imports of `main` against the modules in `files` (path
/// relative to the program's directory, text), as a file system would.
fn resolve(main: &str, files: &[(&str, &str)]) -> Result<Vec<Stmt>, String> {
    let program = parse_source(main)?;
    let mut resolver = ImportResolver::new(program.statements, "/project".to_string());
    loop {
        match resolver.step() {
            Action::Continue => {}
            Action::Load { dir, path, .. } => {
                let wanted = if path.ends_with(".alya") { path.clone() } else { format!("{}.alya", path) };
                let event = match files.iter().find(|(name, _)| *name == wanted) {
                    Some((name, text)) => Event::Found {
                        key: format!("{}/{}", dir, name),
                        dir: dir.clone(),
                        source: text.to_string(),
                    },
                    None => Event::Failed(format!(
                        "Cannot find imported module '{}' (looked at '{}/{}')",
                        path, dir, path
                    )),
                };
                resolver.supply(event);
            }
            Action::Finished(result) => return result,
        }
    }
}

fn function_names(stmts: &[Stmt]) -> Vec<String> {
    stmts
        .iter()
        .filter_map(|s| match s {
            Stmt::Function { name, .. } => Some(name.clone()),
            _ => None,
        })
        .collect()
}

#[test]
fn resolver_merges_imported_functions() {
    let stmts = resolve(
        "import \"helper.alya\"\nlet ans = get_val()\nsay ans",
        &[("helper.alya", "function get_val()\n    return 42\nend\n")],
    )
    .expect("Failed to resolve imports");
    assert_eq!(stmts.len(), 3);
    match &stmts[0] {
        Stmt::Function { name, .. } => assert_eq!(name, "get_val"),
        other => panic!("Expected Stmt::Function, got {:?}", other),
    }
}

#[test]
fn resolver_prefixes_aliased_modules() {
    let stmts = resolve(
        "import \"calc.alya\" as c\nlet ans = c::square(5)\nsay ans",
        &[(
            "calc.alya",
            "function mult(a, b)\n    return a * b\nend\nfunction square(x)\n    return mult(x, x)\nend\n",
        )],
    )
    .expect("Resolve imports should succeed");
    let names = function_names(&stmts);
    assert!(names.contains(&"c::mult".to_string()));
    assert!(names.contains(&"c::square".to_string()));
    match &stmts[1] {
        Stmt::Function { body, .. } => match &body[0] {
            Stmt::Return(Some(Expr::Call { name, .. })) => assert_eq!(name, "c::mult"),
            other => panic!("Expected a return of a call, got {:?}", other),
        },
        other => panic!("Expected Stmt::Function, got {:?}", other),
    }
}

#[test]
fn resolver_refuses_duplicate_functions() {
    let err = resolve(
        "import \"m1.alya\"\nimport \"m2.alya\"\nsay abc()",
        &[
            ("m1.alya", "function abc()\n    return 1\nend\n"),
            ("m2.alya", "function abc()\n    return 2\nend\n"),
        ],
    )
    .unwrap_err();
    assert!(err.contains("Duplicate function definition 'abc'"));
    assert!(err.contains("use 'import \"...\" as <alias>'"));
}

#[test]
fn resolver_aliases_resolve_conflicts() {
    let stmts = resolve(
        "import \"m1.alya\" as one\nimport \"m2.alya\" as two\nsay one::abc()\nsay two::abc()",
        &[
            ("m1.alya", "function abc()\n    return 1\nend\n"),
            ("m2.alya", "function abc()\n    return 2\nend\n"),
        ],
    )
    .expect("Aliased imports should resolve conflict successfully");
    let names = function_names(&stmts);
    assert!(names.contains(&"one::abc".to_string()));
    assert!(names.contains(&"two::abc".to_string()));
}

#[test]
fn resolver_merges_a_module_once() {
    let stmts = resolve(
        "import \"math\"\nimport \"math\"\nsay PI",
        &[("math.alya", "function hypot(a, b)\n    return a\nend\n")],
    )
    .expect("Resolution should succeed");
    assert_eq!(function_names(&stmts), vec!["hypot".to_string()]);
}

#[test]
fn resolver_reports_missing_modules() {
    let err = resolve("import \"nowhere.alya\"", &[]).unwrap_err();
    assert_eq!(err, "Cannot find imported module 'nowhere.alya' (looked at '/project/nowhere.alya')");
}

#[test]
fn resolver_names_the_module_that_does_not_lex() {
    let err = resolve("import \"bad.alya\"", &[("bad.alya", "say @")]).unwrap_err();
    assert_eq!(
        err,
        "Lexer error in imported module '/project/bad.alya': Unexpected character '@' at line 1, column 5"
    );
}

#[test]
fn resolver_names_the_module_that_does_not_parse() {
    let err = resolve("import \"bad.alya\"", &[("bad.alya", "if x\n say 1")]).unwrap_err();
    assert!(err.starts_with("Parser error in imported module '/project/bad.alya': "));
}

#[test]
fn resolver_without_imports_keeps_the_program() {
    let stmts = resolve("let a = 1\nsay a", &[]).expect("no imports");
    assert_eq!(stmts, parse_source("let a = 1\nsay a").unwrap().statements);
}

#[test]
fn resolver_nested_imports_are_relative_to_their_module() {
    let stmts = resolve(
        "import \"outer.alya\" as o\nsay o::f()",
        &[
            ("outer.alya", "import \"inner.alya\"\nfunction f()\n return g()\nend\n"),
            ("inner.alya", "function g()\n return 1\nend\n"),
        ],
    )
    .expect("nested imports");
    assert_eq!(function_names(&stmts), vec!["g".to_string(), "o::f".to_string()]);
}

#[test]
fn test_validate_unique_functions_accepts_distinct_names() {
    let program = parse_source("function a()\nend\nfunction b()\nend\nsay 1").unwrap();
    assert_eq!(validate_unique_functions(&program.statements), Ok(()));
}

#[test]
fn validate_unique_functions_names_the_first_repeat() {
    let program = parse_source("function a()\nend\nfunction b()\nend\nfunction b()\nend\nfunction a()\nend").unwrap();
    assert_eq!(
        validate_unique_functions(&program.statements),
        Err("Duplicate function definition 'b'. If importing multiple modules containing 'b', use 'import \"...\" as <alias>' to assign distinct namespaces.".to_string())
    );
}

#[test]
fn module_alias_renames_only_local_functions() {
    let mut stmts = parse_source("function f(x)\n return g(h(x))\nend\nsay f(1)").unwrap().statements;
    let locals = local_functions(&stmts);
    assert_eq!(locals, vec!["f".to_string()]);
    apply_module_alias(&mut stmts, "m", &locals);
    let expected = parse_source("function m::f(x)\n return g(h(x))\nend\nsay m::f(1)").unwrap().statements;
    assert_eq!(stmts, expected);
}

#[test]
fn import_paths_use_forward_slashes() {
    assert_eq!(normalize_path(&"sub\\dir\\calc.alya".to_string()), "sub/dir/calc.alya");
}

#[test]
fn standard_library_module_names() {
    assert_eq!(std_module_name("std/math"), Some("math".to_string()));
    assert_eq!(std_module_name("std::json"), Some("json".to_string()));
    assert_eq!(std_module_name("lib/std/x"), None);
    assert_eq!(embedded_stdlib_name("std/math.alya"), Some("math".to_string()));
    assert_eq!(embedded_stdlib_name("std::collections"), Some("collections".to_string()));
    assert_eq!(embedded_stdlib_name("bench"), Some("bench".to_string()));
    assert_eq!(embedded_stdlib_name("std/net"), None);
}

#[test]
fn load_module_names_the_module() {
    let err = load_module("m.alya", "a | b").unwrap_err();
    assert_eq!(
        err,
        "Lexer error in imported module 'm.alya': Unexpected character '|' at line 1, column 3. Did you mean '||'?"
    );
    let program = load_module("m.alya", "say 1").unwrap();
    assert_eq!(program.statements.len(), 1);
    let err = load_module("m.alya", "say\nwhile x").unwrap_err();
    assert_eq!(
        err,
        "Parser error in imported module 'm.alya': Unexpected token Newline at line 1, column 4"
    );
}
