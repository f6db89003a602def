//! The state synthesizer.
//!
//! Builds the singleton state declaration from the captured constructor
//! expression — rewriting the self-reference placeholder into the concrete
//! type name, since the placeholder is not valid in the singleton's scope —
//! and appends it to the module's item list exactly once.

use crate::ast::{
    ContractError, Expr, Item, ItemV, ModuleDeclaration, StateDeclaration,
    StateV,
};
use crate::transformation::{subst_expr, ReplaceSelfWithStructName};
use vstd::prelude::*;

verus! {

/// Appends the singleton state declaration to the module: a single
/// instance of the public type, initialized from the constructor
/// expression with every self-reference placeholder replaced by the type
/// name.
///
/// Fails with `MissingConstructor`, leaving the module untouched, when no
/// constructor expression was captured.
pub fn generate_state_declaration(
    struct_name: &String,
    new_function_body: Option<Expr>,
    input_mod: &mut ModuleDeclaration,
) -> (r: Result<(), ContractError>)
    ensures
        new_function_body is None ==> (r matches Err(e) && e
            == ContractError::MissingConstructor) && final(input_mod)@ == old(input_mod)@,
        new_function_body matches Some(body) ==> r is Ok && final(input_mod)@.name == old(
            input_mod,
        )@.name && final(input_mod)@.items == old(input_mod)@.items.push(
            ItemV::State(
                StateV { ty_name: struct_name@, init: subst_expr(body@, struct_name@) },
            ),
        ),
{
    let mut transformed_body = match new_function_body {
        Some(body) => body,
        None => {
            return Err(ContractError::MissingConstructor);
        },
    };
    let visitor = ReplaceSelfWithStructName { struct_name: struct_name.clone() };
    visitor.visit_expr_mut(&mut transformed_body);
    let state = StateDeclaration { ty_name: struct_name.clone(), init: transformed_body };
    input_mod.items.push(Item::State(state));
    proof {
        assert(input_mod@.items =~= old(input_mod)@.items.push(
            ItemV::State(
                StateV {
                    ty_name: struct_name@,
                    init: subst_expr(new_function_body->0@, struct_name@),
                },
            ),
        ));
    }
    Ok(())
}

} // verus!
