use dusk_forge::ast::{Expr, FieldInit, PathRef};
use dusk_forge::transformation::ReplaceSelfWithStructName;

fn field(name: &str, value: Expr) -> FieldInit {
    FieldInit { name: name.to_string(), value }
}

/// A tree with self-references at several depths: one at the struct
/// literal's own path, one nested inside a literal field value, one as a
/// call callee and one as a call argument.
fn deep_tree() -> Expr {
    Expr::StructLit(
        PathRef::Named("Outer".to_string()),
        vec![field(
            "inner",
            Expr::StructLit(
                PathRef::SelfRef,
                vec![field(
                    "leaf",
                    Expr::Call(PathRef::SelfRef, vec![Expr::Ref(PathRef::SelfRef), Expr::IntLit(7)]),
                )],
            ),
        )],
    )
}

fn deep_tree_rewritten(name: &str) -> Expr {
    Expr::StructLit(
        PathRef::Named("Outer".to_string()),
        vec![field(
            "inner",
            Expr::StructLit(
                PathRef::Named(name.to_string()),
                vec![field(
                    "leaf",
                    Expr::Call(
                        PathRef::Named(name.to_string()),
                        vec![Expr::Ref(PathRef::Named(name.to_string())), Expr::IntLit(7)],
                    ),
                )],
            ),
        )],
    )
}

#[test]
fn test_replace_self_with_struct_name() {
    let mut path = PathRef::SelfRef;

    ReplaceSelfWithStructName { struct_name: "MyStruct".to_string() }.visit_path_mut(&mut path);

    assert_eq!(path, PathRef::Named("MyStruct".to_string()));
}

#[test]
fn rewriter_reaches_nested_literal_fields() {
    let mut tree = deep_tree();
    let visitor = ReplaceSelfWithStructName { struct_name: "MyType".to_string() };
    visitor.visit_expr_mut(&mut tree);
    assert_eq!(tree, deep_tree_rewritten("MyType"));
}

#[test]
fn rewriter_is_idempotent() {
    let mut once = deep_tree();
    let visitor = ReplaceSelfWithStructName { struct_name: "MyType".to_string() };
    visitor.visit_expr_mut(&mut once);

    let mut twice = deep_tree();
    visitor.visit_expr_mut(&mut twice);
    visitor.visit_expr_mut(&mut twice);

    assert_eq!(twice, once);
}

#[test]
fn rewriter_leaves_concrete_names_alone() {
    let mut tree = Expr::Call(
        PathRef::Named("Counter".to_string()),
        vec![Expr::Ref(PathRef::Named("Other".to_string()))],
    );
    let visitor = ReplaceSelfWithStructName { struct_name: "MyType".to_string() };
    visitor.visit_expr_mut(&mut tree);
    assert_eq!(
        tree,
        Expr::Call(
            PathRef::Named("Counter".to_string()),
            vec![Expr::Ref(PathRef::Named("Other".to_string()))],
        )
    );
}
