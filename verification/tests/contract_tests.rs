use dusk_forge::ast::{
    BehaviorBlock, ContractError, Dispatch, Expr, FieldDecl, FieldInit, Item, Method,
    ModuleDeclaration, Param, PathRef, StateDeclaration, Stmt, TypeDeclaration, WrapperFunction,
};
use dusk_forge::parser::parse_contract;
use dusk_forge::pipeline::expand_contract;
use dusk_forge::state::generate_state_declaration;

fn pub_type(name: &str) -> Item {
    Item::TypeDecl(TypeDeclaration {
        name: name.to_string(),
        is_public: true,
        fields: vec![FieldDecl { name: "value".to_string(), ty: "int".to_string() }],
    })
}

fn priv_type(name: &str) -> Item {
    Item::TypeDecl(TypeDeclaration { name: name.to_string(), is_public: false, fields: vec![] })
}

fn method(name: &str, params: Vec<Param>, has_receiver: bool, is_public: bool, body: Vec<Stmt>) -> Method {
    Method { name: name.to_string(), params, has_receiver, is_public, body }
}

fn param(name: &str, ty: &str) -> Param {
    Param { name: name.to_string(), ty: ty.to_string() }
}

/// `new() -> Self { Self { value: n } }`, as a constructor method.
fn new_method(n: u64) -> Method {
    method(
        "new",
        vec![],
        false,
        true,
        vec![Stmt::Bare(Expr::StructLit(
            PathRef::SelfRef,
            vec![FieldInit { name: "value".to_string(), value: Expr::IntLit(n) }],
        ))],
    )
}

fn block(target: &str, methods: Vec<Method>) -> Item {
    Item::Behavior(BehaviorBlock { target: target.to_string(), capability: None, methods })
}

fn module(name: &str, items: Vec<Item>) -> ModuleDeclaration {
    ModuleDeclaration { name: name.to_string(), items }
}

fn counter_module() -> ModuleDeclaration {
    module(
        "counter_mod",
        vec![
            pub_type("Counter"),
            block(
                "Counter",
                vec![
                    new_method(0),
                    method(
                        "increment",
                        vec![param("n", "int")],
                        true,
                        true,
                        vec![Stmt::Opaque],
                    ),
                ],
            ),
        ],
    )
}

#[test]
fn zero_public_types_fails() {
    let m = module("m", vec![priv_type("Hidden"), block("Hidden", vec![new_method(0)]), Item::Opaque]);
    assert_eq!(expand_contract(&m), Err(ContractError::MissingPublicType));
}

#[test]
fn two_public_types_fail() {
    let m = module("m", vec![pub_type("A"), block("A", vec![new_method(0)]), pub_type("B")]);
    assert_eq!(expand_contract(&m), Err(ContractError::MultiplePublicTypes));
}

#[test]
fn missing_constructor_fails() {
    let m = module(
        "m",
        vec![
            pub_type("A"),
            block("A", vec![method("go", vec![], true, true, vec![Stmt::Opaque])]),
        ],
    );
    assert_eq!(expand_contract(&m), Err(ContractError::MissingConstructor));
}

#[test]
fn constructor_without_bare_expression_fails() {
    // The first constructor encountered decides; its body starts with a
    // non-expression statement, so no constructor expression is captured,
    // and a later constructor does not take its place.
    let m = module(
        "m",
        vec![
            pub_type("A"),
            block("A", vec![method("new", vec![], false, true, vec![Stmt::Opaque])]),
            block("A", vec![new_method(3)]),
        ],
    );
    assert_eq!(expand_contract(&m), Err(ContractError::MissingConstructor));
}

#[test]
fn counter_example_expands() {
    let out = expand_contract(&counter_module()).unwrap();

    assert_eq!(out.module.name, "counter_mod".to_string());
    assert_eq!(out.module.items.len(), 3);
    assert_eq!(out.module.items[0], pub_type("Counter"));
    // The constructor is consumed: the emitted block keeps only `increment`.
    assert_eq!(
        out.module.items[1],
        block(
            "Counter",
            vec![method("increment", vec![param("n", "int")], true, true, vec![Stmt::Opaque])],
        )
    );
    // The singleton state: `STATE: Counter = Counter { value: 0 }`, with no
    // residual self-reference.
    assert_eq!(
        out.module.items[2],
        Item::State(StateDeclaration {
            ty_name: "Counter".to_string(),
            init: Expr::StructLit(
                PathRef::Named("Counter".to_string()),
                vec![FieldInit { name: "value".to_string(), value: Expr::IntLit(0) }],
            ),
        })
    );
    // Exactly one wrapper, for `increment`, dispatching through the state.
    assert_eq!(
        out.wrappers,
        vec![WrapperFunction {
            name: "increment".to_string(),
            params: vec![param("n", "int")],
            dispatch: Dispatch::ThroughState,
        }]
    );
}

#[test]
fn non_receiver_method_dispatches_on_type() {
    let mut m = counter_module();
    if let Item::Behavior(b) = &mut m.items[1] {
        b.methods.push(method("helper", vec![param("x", "int")], false, true, vec![Stmt::Opaque]));
    }
    let out = expand_contract(&m).unwrap();
    assert_eq!(out.wrappers.len(), 2);
    assert_eq!(
        out.wrappers[1],
        WrapperFunction {
            name: "helper".to_string(),
            params: vec![param("x", "int")],
            dispatch: Dispatch::StaticOnType("Counter".to_string()),
        }
    );
}

#[test]
fn one_wrapper_per_public_method_in_order() {
    let m = module(
        "m",
        vec![
            pub_type("T"),
            block(
                "T",
                vec![
                    method("m1", vec![], true, true, vec![Stmt::Opaque]),
                    method("m2", vec![], true, false, vec![Stmt::Opaque]),
                    new_method(0),
                    method("m3", vec![], false, true, vec![Stmt::Opaque]),
                ],
            ),
            block("T", vec![method("m4", vec![], true, true, vec![Stmt::Opaque])]),
        ],
    );
    let out = expand_contract(&m).unwrap();
    let names: Vec<&str> = out.wrappers.iter().map(|w| w.name.as_str()).collect();
    assert_eq!(names, vec!["m1", "m3", "m4"]);
}

#[test]
fn first_constructor_wins_second_dropped() {
    let m = module(
        "m",
        vec![
            pub_type("T"),
            block("T", vec![new_method(1)]),
            block("T", vec![new_method(2)]),
        ],
    );
    let out = expand_contract(&m).unwrap();
    // The state is initialized from the first constructor encountered.
    assert_eq!(
        out.module.items[3],
        Item::State(StateDeclaration {
            ty_name: "T".to_string(),
            init: Expr::StructLit(
                PathRef::Named("T".to_string()),
                vec![FieldInit { name: "value".to_string(), value: Expr::IntLit(1) }],
            ),
        })
    );
    // Both constructors are removed from the emitted blocks, and neither
    // receives a wrapper.
    assert_eq!(out.module.items[1], block("T", vec![]));
    assert_eq!(out.module.items[2], block("T", vec![]));
    assert_eq!(out.wrappers, vec![]);
}

#[test]
fn parse_strips_constructors_and_keeps_order() {
    let m = counter_module();
    let parsed = parse_contract(&m).unwrap();
    assert_eq!(parsed.struct_name, "Counter".to_string());
    assert_eq!(parsed.blocks.len(), 1);
    assert_eq!(parsed.blocks[0].methods.len(), 1);
    assert_eq!(parsed.blocks[0].methods[0].name, "increment".to_string());
    assert_eq!(
        parsed.constructor,
        Some(Expr::StructLit(
            PathRef::SelfRef,
            vec![FieldInit { name: "value".to_string(), value: Expr::IntLit(0) }],
        ))
    );
    assert_eq!(parsed.module.items.len(), 2);
}

#[test]
fn state_generation_without_constructor_leaves_module_untouched() {
    let mut m = module("m", vec![pub_type("T")]);
    let r = generate_state_declaration(&"T".to_string(), None, &mut m);
    assert_eq!(r, Err(ContractError::MissingConstructor));
    assert_eq!(m, module("m", vec![pub_type("T")]));
}

#[test]
fn state_generation_rewrites_self_reference() {
    let mut m = module("m", vec![]);
    let body = Expr::Call(PathRef::SelfRef, vec![Expr::IntLit(4)]);
    let r = generate_state_declaration(&"Thing".to_string(), Some(body), &mut m);
    assert_eq!(r, Ok(()));
    assert_eq!(
        m.items,
        vec![Item::State(StateDeclaration {
            ty_name: "Thing".to_string(),
            init: Expr::Call(PathRef::Named("Thing".to_string()), vec![Expr::IntLit(4)]),
        })]
    );
}

#[test]
fn empty_module_fails() {
    let m = module("m", vec![]);
    assert_eq!(expand_contract(&m), Err(ContractError::MissingPublicType));
}

#[test]
fn capability_block_methods_get_wrappers() {
    let m = module(
        "m",
        vec![
            pub_type("T"),
            block("T", vec![new_method(0)]),
            Item::Behavior(BehaviorBlock {
                target: "T".to_string(),
                capability: Some("Resettable".to_string()),
                methods: vec![method("reset", vec![], true, true, vec![Stmt::Opaque])],
            }),
        ],
    );
    let out = expand_contract(&m).unwrap();
    assert_eq!(
        out.wrappers,
        vec![WrapperFunction {
            name: "reset".to_string(),
            params: vec![],
            dispatch: Dispatch::ThroughState,
        }]
    );
    // The capability tag itself is carried through unchanged.
    if let Item::Behavior(b) = &out.module.items[2] {
        assert_eq!(b.capability, Some("Resettable".to_string()));
    } else {
        panic!("expected a behavior block");
    }
}

#[test]
fn deeply_nested_self_reference_is_rewritten_in_state() {
    // The constructor nests the self-reference inside a literal's field
    // value and inside a call; a shallow, top-level-only substitution
    // would leave residues.
    let ctor = Expr::StructLit(
        PathRef::SelfRef,
        vec![FieldInit {
            name: "value".to_string(),
            value: Expr::Call(PathRef::SelfRef, vec![Expr::Ref(PathRef::SelfRef)]),
        }],
    );
    let m = module(
        "m",
        vec![
            pub_type("Deep"),
            block(
                "Deep",
                vec![method("new", vec![], false, true, vec![Stmt::Bare(ctor)])],
            ),
        ],
    );
    let out = expand_contract(&m).unwrap();
    assert_eq!(
        out.module.items[2],
        Item::State(StateDeclaration {
            ty_name: "Deep".to_string(),
            init: Expr::StructLit(
                PathRef::Named("Deep".to_string()),
                vec![FieldInit {
                    name: "value".to_string(),
                    value: Expr::Call(
                        PathRef::Named("Deep".to_string()),
                        vec![Expr::Ref(PathRef::Named("Deep".to_string()))],
                    ),
                }],
            ),
        })
    );
}
