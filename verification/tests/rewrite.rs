use oxjest::ast::{Arg, Declarator, Expr, ImportSpec, Program, Stmt};
use oxjest::convert_mocks::ConvertMocks;
use oxjest::import_actual::ImportActual;
use oxjest::inject_globals::InjectGlobals;
use oxjest::transformer::Transformer;

fn ident(name: &str) -> Expr {
    Expr::Ident {
        name: name.to_string(),
    }
}

fn member(object: Expr, property: &str) -> Expr {
    Expr::Member {
        object: Box::new(object),
        property: property.to_string(),
    }
}

fn call(callee: Expr, args: Vec<Arg>) -> Expr {
    Expr::Call {
        callee: Box::new(callee),
        args,
    }
}

fn string(value: &str) -> Expr {
    Expr::Str {
        value: value.to_string(),
    }
}

fn item(expr: Expr) -> Arg {
    Arg::Item { expr }
}

fn await_import(id: &str) -> Expr {
    Expr::Await {
        argument: Box::new(Expr::ImportExpr {
            source: Box::new(string(id)),
        }),
    }
}

fn named(imported: &str, local: &str) -> ImportSpec {
    ImportSpec::Named {
        imported: imported.to_string(),
        local: local.to_string(),
    }
}

fn import(source: &str, specifiers: Vec<ImportSpec>) -> Stmt {
    Stmt::Import {
        source: source.to_string(),
        specifiers,
    }
}

fn expr_stmt(expr: Expr) -> Stmt {
    Stmt::Expr { expr }
}

fn declarator(name: &str, init: Expr) -> Declarator {
    Declarator {
        name: name.to_string(),
        init,
    }
}

/// The generated factory `__oxjest__.createMockFactory(await import(id))`.
fn created_factory(id: &str) -> Expr {
    call(
        member(ident("__oxjest__"), "createMockFactory"),
        vec![item(await_import(id))],
    )
}

/// The runtime import that InjectGlobals inserts.
fn runtime_import() -> Stmt {
    import(
        "oxjest/runtime",
        vec![ImportSpec::Namespace {
            local: "__oxjest__".to_string(),
        }],
    )
}

/// The qualified mocking object `import.meta.jest`.
fn import_meta_jest() -> Expr {
    member(member(ident("import"), "meta"), "jest")
}

/// An opaque factory expression with the given sub-expressions.
fn opaque(children: Vec<Expr>) -> Expr {
    Expr::Other { children }
}

#[test]
fn test_mock() {
    // import { greet } from "./greeter.js";
    // jest.mock("./greeter.js", () => ({ greet: () => "Hello, world!" }));
    let factory = opaque(vec![]);
    let input = Program {
        body: vec![
            import("./greeter.js", vec![named("greet", "greet")]),
            expr_stmt(call(
                member(ident("jest"), "mock"),
                vec![item(string("./greeter.js")), item(factory)],
            )),
        ],
    };

    let output = ConvertMocks::new().process(input);

    // jest.unstable_mockModule("./greeter.js", () => ({ ... }));
    // const __oxjest_import_0__ = await import("./greeter.js"),
    //     greet = __oxjest_import_0__.greet;
    let expected = Program {
        body: vec![
            expr_stmt(call(
                member(ident("jest"), "unstable_mockModule"),
                vec![item(string("./greeter.js")), item(opaque(vec![]))],
            )),
            Stmt::ConstDecl {
                declarators: vec![
                    declarator("__oxjest_import_0__", await_import("./greeter.js")),
                    declarator("greet", member(ident("__oxjest_import_0__"), "greet")),
                ],
            },
        ],
    };
    assert_eq!(output, expected);
}

#[test]
fn test_mock_auto() {
    // import { greet } from "./greeter.js";
    // jest.mock("./greeter.js");
    let input = Program {
        body: vec![
            import("./greeter.js", vec![named("greet", "greet")]),
            expr_stmt(call(
                member(ident("jest"), "mock"),
                vec![item(string("./greeter.js"))],
            )),
        ],
    };

    let output = ConvertMocks::new().process(input);

    // jest.unstable_mockModule("./greeter.js",
    //     __oxjest__.createMockFactory(await import("./greeter.js")));
    // const __oxjest_import_0__ = await import("./greeter.js"),
    //     greet = __oxjest_import_0__.greet;
    let expected = Program {
        body: vec![
            expr_stmt(call(
                member(ident("jest"), "unstable_mockModule"),
                vec![
                    item(string("./greeter.js")),
                    item(created_factory("./greeter.js")),
                ],
            )),
            Stmt::ConstDecl {
                declarators: vec![
                    declarator("__oxjest_import_0__", await_import("./greeter.js")),
                    declarator("greet", member(ident("__oxjest_import_0__"), "greet")),
                ],
            },
        ],
    };
    assert_eq!(output, expected);
}

#[test]
fn test_do_mock() {
    // import { greet } from "./greeter.js";
    // jest.doMock("./greeter.js", () => ({ greet: () => "Hello, world!" }));
    let input = Program {
        body: vec![
            import("./greeter.js", vec![named("greet", "greet")]),
            expr_stmt(call(
                member(ident("jest"), "doMock"),
                vec![item(string("./greeter.js")), item(opaque(vec![]))],
            )),
        ],
    };

    let output = ConvertMocks::new().process(input);

    // import { greet } from "./greeter.js";
    // jest.unstable_mockModule("./greeter.js", () => ({ ... }));
    let expected = Program {
        body: vec![
            import("./greeter.js", vec![named("greet", "greet")]),
            expr_stmt(call(
                member(ident("jest"), "unstable_mockModule"),
                vec![item(string("./greeter.js")), item(opaque(vec![]))],
            )),
        ],
    };
    assert_eq!(output, expected);
}

#[test]
fn test_do_mock_auto() {
    // import { greet } from "./greeter.js";
    // jest.doMock("./greeter.js");
    let input = Program {
        body: vec![
            import("./greeter.js", vec![named("greet", "greet")]),
            expr_stmt(call(
                member(ident("jest"), "doMock"),
                vec![item(string("./greeter.js"))],
            )),
        ],
    };

    let output = ConvertMocks::new().process(input);

    // import { greet } from "./greeter.js";
    // jest.unstable_mockModule("./greeter.js",
    //     __oxjest__.createMockFactory(await import("./greeter.js")));
    let expected = Program {
        body: vec![
            import("./greeter.js", vec![named("greet", "greet")]),
            expr_stmt(call(
                member(ident("jest"), "unstable_mockModule"),
                vec![
                    item(string("./greeter.js")),
                    item(created_factory("./greeter.js")),
                ],
            )),
        ],
    };
    assert_eq!(output, expected);
}

#[test]
fn test_inject_globals() {
    // jest.mock("./greeter.js");
    let input = Program {
        body: vec![expr_stmt(call(
            member(ident("jest"), "mock"),
            vec![item(string("./greeter.js"))],
        ))],
    };

    let output = InjectGlobals::new().process(input);

    // import * as __oxjest__ from "oxjest/runtime";
    // import.meta.jest.mock("./greeter.js");
    let expected = Program {
        body: vec![
            runtime_import(),
            expr_stmt(call(
                member(import_meta_jest(), "mock"),
                vec![item(string("./greeter.js"))],
            )),
        ],
    };
    assert_eq!(output, expected);
}

#[test]
fn test_import_actual() {
    // jest.unstable_mockModule("./greeter.js", () => ({
    //     ...jest.requireActual("./greeter.js"),
    //     greet: () => "Hello, world!",
    // }));
    let factory = opaque(vec![call(
        member(ident("jest"), "requireActual"),
        vec![item(string("./greeter.js"))],
    )]);
    let input = Program {
        body: vec![expr_stmt(call(
            member(ident("jest"), "unstable_mockModule"),
            vec![item(string("./greeter.js")), item(factory)],
        ))],
    };

    let output = ImportActual::new().process(input);

    // const __oxjest_actual_0__ = await import("./greeter.js");
    // jest.unstable_mockModule("./greeter.js", () => ({
    //     ...__oxjest_actual_0__, greet: () => "Hello, world!" }));
    let expected = Program {
        body: vec![
            Stmt::ConstDecl {
                declarators: vec![declarator(
                    "__oxjest_actual_0__",
                    await_import("./greeter.js"),
                )],
            },
            expr_stmt(call(
                member(ident("jest"), "unstable_mockModule"),
                vec![
                    item(string("./greeter.js")),
                    item(opaque(vec![ident("__oxjest_actual_0__")])),
                ],
            )),
        ],
    };
    assert_eq!(output, expected);
}

#[test]
fn specifier_mapping() {
    // import X, { a, b as c }, * as ns from "./m.js"; with one hoisted mock:
    // X binds .default, a binds .a, c binds .b, ns binds the namespace itself.
    let input = Program {
        body: vec![
            import(
                "./m.js",
                vec![
                    ImportSpec::Default {
                        local: "X".to_string(),
                    },
                    named("a", "a"),
                    named("b", "c"),
                    ImportSpec::Namespace {
                        local: "ns".to_string(),
                    },
                ],
            ),
            expr_stmt(call(
                member(ident("jest"), "mock"),
                vec![item(string("./m.js"))],
            )),
        ],
    };

    let output = ConvertMocks::new().process(input);

    let expected = Program {
        body: vec![
            expr_stmt(call(
                member(ident("jest"), "unstable_mockModule"),
                vec![item(string("./m.js")), item(created_factory("./m.js"))],
            )),
            Stmt::ConstDecl {
                declarators: vec![
                    declarator("__oxjest_import_0__", await_import("./m.js")),
                    declarator("X", member(ident("__oxjest_import_0__"), "default")),
                    declarator("a", member(ident("__oxjest_import_0__"), "a")),
                    declarator("c", member(ident("__oxjest_import_0__"), "b")),
                    declarator("ns", ident("__oxjest_import_0__")),
                ],
            },
        ],
    };
    assert_eq!(output, expected);
}

#[test]
fn no_dedup_two_require_actual() {
    // Two requireActual("./m.js") calls get two distinct indexed bindings and
    // two distinct import expressions.
    let require_actual = || {
        call(
            member(ident("jest"), "requireActual"),
            vec![item(string("./m.js"))],
        )
    };
    let input = Program {
        body: vec![
            expr_stmt(require_actual()),
            expr_stmt(require_actual()),
        ],
    };

    let output = ImportActual::new().process(input);

    let expected = Program {
        body: vec![
            Stmt::ConstDecl {
                declarators: vec![
                    declarator("__oxjest_actual_0__", await_import("./m.js")),
                    declarator("__oxjest_actual_1__", await_import("./m.js")),
                ],
            },
            expr_stmt(ident("__oxjest_actual_0__")),
            expr_stmt(ident("__oxjest_actual_1__")),
        ],
    };
    assert_eq!(output, expected);
}

#[test]
fn no_mock_fast_path() {
    // A file with zero mock-registration calls keeps every import
    // declaration byte-identical.
    let input = Program {
        body: vec![
            import("./a.js", vec![named("a", "a")]),
            import(
                "./b.js",
                vec![ImportSpec::Default {
                    local: "b".to_string(),
                }],
            ),
            expr_stmt(call(ident("main"), vec![])),
        ],
    };
    let expected = Program {
        body: vec![
            import("./a.js", vec![named("a", "a")]),
            import(
                "./b.js",
                vec![ImportSpec::Default {
                    local: "b".to_string(),
                }],
            ),
            expr_stmt(call(ident("main"), vec![])),
        ],
    };

    let output = ConvertMocks::new().process(input);
    assert_eq!(output, expected);
}

#[test]
fn non_literal_mock_id_hoisted_without_factory() {
    // jest.mock(target) with a non-literal id is renamed, gets no generated
    // factory, and is still hoisted, so the import is deferred too.
    let input = Program {
        body: vec![
            import("./a.js", vec![named("a", "a")]),
            expr_stmt(call(member(ident("jest"), "mock"), vec![item(ident("target"))])),
        ],
    };

    let output = ConvertMocks::new().process(input);

    let expected = Program {
        body: vec![
            expr_stmt(call(
                member(ident("jest"), "unstable_mockModule"),
                vec![item(ident("target"))],
            )),
            Stmt::ConstDecl {
                declarators: vec![
                    declarator("__oxjest_import_0__", await_import("./a.js")),
                    declarator("a", member(ident("__oxjest_import_0__"), "a")),
                ],
            },
        ],
    };
    assert_eq!(output, expected);
}

#[test]
fn decision_functions() {
    // The argument-shape decisions that the host side takes from the
    // library: which mock calls are owed a factory, which are hoisted, and
    // which "require actual" calls are rewritten.
    let one_literal = call(member(ident("jest"), "mock"), vec![item(string("./m.js"))]);
    assert_eq!(
        oxjest::convert_mocks::mock_factory_id(&one_literal),
        Some("./m.js".to_string())
    );
    assert!(oxjest::convert_mocks::mock_call_hoisted(&one_literal));

    let non_literal = call(member(ident("jest"), "mock"), vec![item(ident("target"))]);
    assert_eq!(oxjest::convert_mocks::mock_factory_id(&non_literal), None);
    assert!(oxjest::convert_mocks::mock_call_hoisted(&non_literal));

    let zero_args = call(member(ident("jest"), "mock"), vec![]);
    assert_eq!(oxjest::convert_mocks::mock_factory_id(&zero_args), None);
    assert!(!oxjest::convert_mocks::mock_call_hoisted(&zero_args));

    let two_args = call(
        member(ident("jest"), "requireActual"),
        vec![item(string("./m.js")), item(ident("x"))],
    );
    assert_eq!(
        oxjest::import_actual::require_actual_id(&two_args),
        Some("./m.js".to_string())
    );
    let ra_non_literal = call(
        member(ident("jest"), "requireActual"),
        vec![item(ident("x"))],
    );
    assert_eq!(oxjest::import_actual::require_actual_id(&ra_non_literal), None);
}

#[test]
fn hoist_ordering_two_mocks() {
    // Two jest.mock calls interleaved with other statements come out first,
    // in the original encounter order.
    let mock = |id: &str| {
        expr_stmt(call(
            member(ident("jest"), "mock"),
            vec![item(string(id))],
        ))
    };
    let input = Program {
        body: vec![
            expr_stmt(call(ident("before"), vec![])),
            mock("./a.js"),
            expr_stmt(call(ident("between"), vec![])),
            mock("./b.js"),
        ],
    };

    let output = ConvertMocks::new().process(input);

    let rewritten = |id: &str| {
        expr_stmt(call(
            member(ident("jest"), "unstable_mockModule"),
            vec![item(string(id)), item(created_factory(id))],
        ))
    };
    let expected = Program {
        body: vec![
            rewritten("./a.js"),
            rewritten("./b.js"),
            expr_stmt(call(ident("before"), vec![])),
            expr_stmt(call(ident("between"), vec![])),
        ],
    };
    assert_eq!(output, expected);
}

#[test]
fn inject_globals_idempotent_on_accesses() {
    // Re-running InjectGlobals does not double-qualify an already-qualified
    // access: the second run adds only its own runtime import in front.
    let input = Program {
        body: vec![expr_stmt(call(
            member(ident("jest"), "mock"),
            vec![item(string("./g.js"))],
        ))],
    };
    let mut once = InjectGlobals::new().process(input);
    let first = once.body.remove(0);
    assert_eq!(first, runtime_import());
    let again = InjectGlobals::new().process(Program { body: once.body });
    let expected = Program {
        body: vec![
            runtime_import(),
            expr_stmt(call(
                member(import_meta_jest(), "mock"),
                vec![item(string("./g.js"))],
            )),
        ],
    };
    assert_eq!(again, expected);
}

#[test]
fn pipeline_scenario() {
    // The full pipeline over: import of greet from "./g.js", then
    // jest.mock("./g.js", factory).
    let input = Program {
        body: vec![
            import("./g.js", vec![named("greet", "greet")]),
            expr_stmt(call(
                member(ident("jest"), "mock"),
                vec![item(string("./g.js")), item(opaque(vec![]))],
            )),
        ],
    };

    let output = Transformer::new().process(input);

    // The hoisted call is qualified by InjectGlobals, and the runtime import
    // stands in front of it.
    let expected = Program {
        body: vec![
            runtime_import(),
            expr_stmt(call(
                member(import_meta_jest(), "unstable_mockModule"),
                vec![item(string("./g.js")), item(opaque(vec![]))],
            )),
            Stmt::ConstDecl {
                declarators: vec![
                    declarator("__oxjest_import_0__", await_import("./g.js")),
                    declarator("greet", member(ident("__oxjest_import_0__"), "greet")),
                ],
            },
        ],
    };
    assert_eq!(output, expected);
}

#[test]
fn shadowed_name_is_still_matched() {
    // The matchers key off literal spelling, not resolved bindings: a local
    // binding named like the mocking object is matched all the same. This
    // documents the current behavior.
    let input = Program {
        body: vec![
            // const jest = makeFake(); jest.mock("./g.js");
            Stmt::ConstDecl {
                declarators: vec![declarator("jest", call(ident("makeFake"), vec![]))],
            },
            expr_stmt(call(
                member(ident("jest"), "mock"),
                vec![item(string("./g.js"))],
            )),
        ],
    };

    let output = ConvertMocks::new().process(input);

    let expected = Program {
        body: vec![
            expr_stmt(call(
                member(ident("jest"), "unstable_mockModule"),
                vec![item(string("./g.js")), item(created_factory("./g.js"))],
            )),
            Stmt::ConstDecl {
                declarators: vec![declarator("jest", call(ident("makeFake"), vec![]))],
            },
        ],
    };
    assert_eq!(output, expected);
}

#[test]
fn decimal_names() {
    assert_eq!(oxjest::names::make_import_name(0), "__oxjest_import_0__");
    assert_eq!(oxjest::names::make_import_name(12), "__oxjest_import_12__");
    assert_eq!(oxjest::names::make_actual_name(305), "__oxjest_actual_305__");
}

#[test]
fn finish_source_appends_map_comment() {
    let out = oxjest::transform::finish_source(
        "let x = 1;".to_string(),
        "{\"version\":3}".to_string(),
    );
    assert_eq!(
        out.code,
        "let x = 1;\n//# sourceMappingURL=data:application/json;base64,eyJ2ZXJzaW9uIjozfQ=="
    );
    assert_eq!(out.map, "{\"version\":3}");
}

#[test]
fn predicates_match_both_object_forms() {
    let bare = call(
        member(ident("jest"), "unstable_mockModule"),
        vec![item(string("./m.js"))],
    );
    assert!(oxjest::jest::is_jest_mock_module_call(&bare));
    let qualified = call(
        member(import_meta_jest(), "requireActual"),
        vec![item(string("./m.js"))],
    );
    assert!(oxjest::jest::is_jest_require_actual_call(&qualified));
    assert!(!oxjest::jest::is_jest_mock_call(&bare));
    let other_object = call(
        member(ident("vitest"), "mock"),
        vec![item(string("./m.js"))],
    );
    assert!(!oxjest::jest::is_jest_mock_call(&other_object));
}

#[test]
fn empty_program_gains_only_the_runtime_import() {
    let output = Transformer::new().process(Program { body: vec![] });
    let expected = Program {
        body: vec![runtime_import()],
    };
    assert_eq!(output, expected);
}

#[test]
fn mock_inside_another_statement_is_hoisted() {
    // A jest.mock call nested in an unmodelled statement form is rewritten,
    // hoisted to the front, and leaves its placeholder behind in the nest.
    let input = Program {
        body: vec![Stmt::Other {
            exprs: vec![call(
                member(ident("jest"), "mock"),
                vec![item(string("./m.js"))],
            )],
        }],
    };

    let output = ConvertMocks::new().process(input);

    let expected = Program {
        body: vec![
            expr_stmt(call(
                member(ident("jest"), "unstable_mockModule"),
                vec![item(string("./m.js")), item(created_factory("./m.js"))],
            )),
            Stmt::Other {
                exprs: vec![Expr::Null],
            },
        ],
    };
    assert_eq!(output, expected);
}

#[test]
fn zero_argument_mock_is_renamed_in_place() {
    let input = Program {
        body: vec![expr_stmt(call(member(ident("jest"), "mock"), vec![]))],
    };

    let output = ConvertMocks::new().process(input);

    let expected = Program {
        body: vec![expr_stmt(call(
            member(ident("jest"), "unstable_mockModule"),
            vec![],
        ))],
    };
    assert_eq!(output, expected);
}

#[test]
fn require_actual_with_non_literal_id_is_left_alone() {
    let input = Program {
        body: vec![expr_stmt(call(
            member(ident("jest"), "requireActual"),
            vec![item(ident("target"))],
        ))],
    };
    let expected = Program {
        body: vec![expr_stmt(call(
            member(ident("jest"), "requireActual"),
            vec![item(ident("target"))],
        ))],
    };

    let output = ImportActual::new().process(input);
    assert_eq!(output, expected);
}
