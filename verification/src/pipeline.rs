//! The pipeline orchestrator.
//!
//! Sequences parsing, state synthesis and wrapper generation, short-circuits
//! on the first terminal diagnostic, and merges the stripped module, the
//! state declaration and the generated wrappers into one output: original
//! item order preserved, generated items appended afterward.

use crate::ast::{
    wrappers_view, ContractError, ExpandedContract, ItemV, ModuleDeclaration, StateV,
};
use crate::functions::{
    all_wrappers, generate_public_functions, lemma_qualifying_of_strip,
    lemma_wrappers_one_per_method, qualifying_methods, wrapper_of,
};
use crate::parser::{
    first_pub_type, module_blocks, module_ctor, parse_contract, pub_type_count, strip_block,
    strip_items, stripped_blocks,
};
use crate::state::generate_state_declaration;
use crate::transformation::{has_self_ref, lemma_subst_no_self_ref, subst_expr};
use vstd::prelude::*;

verus! {

/// The state declaration a valid module expands to: the public type's
/// name, with the constructor expression rewritten to it.
pub open spec fn expanded_state(items: Seq<ItemV>) -> StateV {
    StateV {
        ty_name: first_pub_type(items).name,
        init: subst_expr(module_ctor(items)->0, first_pub_type(items).name),
    }
}

/// Expands a contract module.
///
/// Fails with `MissingPublicType` or `MultiplePublicTypes` when the module
/// does not declare exactly one public type, and with `MissingConstructor`
/// when no constructor expression can be captured; a failure produces no
/// output. Otherwise the result holds the module with constructors
/// stripped and the state declaration appended, followed by one wrapper
/// per public, non-constructor method.
pub fn expand_contract(input_mod: &ModuleDeclaration) -> (r: Result<
    ExpandedContract,
    ContractError,
>)
    ensures
        (r matches Err(e) && e == ContractError::MissingPublicType) == (pub_type_count(
            input_mod@.items,
        ) == 0),
        (r matches Err(e) && e == ContractError::MultiplePublicTypes) == (pub_type_count(
            input_mod@.items,
        ) >= 2),
        (r matches Err(e) && e == ContractError::MissingConstructor) == (pub_type_count(
            input_mod@.items,
        ) == 1 && module_ctor(input_mod@.items) is None),
        (r is Ok) == (pub_type_count(input_mod@.items) == 1 && module_ctor(
            input_mod@.items,
        ) is Some),
        r matches Ok(out) ==> {
            &&& out.module@.name == input_mod@.name
            &&& out.module@.items == strip_items(input_mod@.items).push(
                ItemV::State(expanded_state(input_mod@.items)),
            )
            &&& wrappers_view(out.wrappers@) == all_wrappers(
                first_pub_type(input_mod@.items).name,
                stripped_blocks(input_mod@.items),
            )
        },
{
    let parsed = match parse_contract(input_mod) {
        Ok(parsed) => parsed,
        Err(e) => {
            return Err(e);
        },
    };
    let mut module = parsed.module;
    if let Err(e) = generate_state_declaration(
        &parsed.struct_name,
        parsed.constructor,
        &mut module,
    ) {
        return Err(e);
    }
    let wrappers = generate_public_functions(&parsed.blocks, &parsed.struct_name);
    Ok(ExpandedContract { module, wrappers })
}

/// Stripping the constructors leaves the qualifying methods of a module's
/// blocks unchanged.
pub proof fn lemma_stripped_blocks_qualifying(items: Seq<ItemV>)
    ensures
        qualifying_methods(stripped_blocks(items))
            == qualifying_methods(module_blocks(items)),
    decreases items,
{
    if items.len() > 0 {
        lemma_stripped_blocks_qualifying(items.drop_last());
        let sb = stripped_blocks(items);
        let mb = module_blocks(items);
        let sb_prev = stripped_blocks(items.drop_last());
        let mb_prev = module_blocks(items.drop_last());
        match items.last() {
            ItemV::Behavior(b) => {
                assert(sb =~= sb_prev.push(strip_block(b)));
                assert(mb =~= mb_prev.push(b));
                assert(sb.drop_last() =~= sb_prev);
                assert(mb.drop_last() =~= mb_prev);
                lemma_qualifying_of_strip(b.methods);
            },
            _ => {
                assert(sb =~= sb_prev);
                assert(mb =~= mb_prev);
            },
        }
    }
}

/// One wrapper per public, non-constructor method of the module's blocks,
/// in block-then-method encounter order: the emitted wrapper list of a
/// valid module corresponds one-to-one, in order, to the qualifying
/// methods of the module as declared.
pub proof fn lemma_one_wrapper_per_public_method(ty: Seq<char>, items: Seq<ItemV>)
    ensures
        all_wrappers(ty, stripped_blocks(items)).len() == qualifying_methods(
            module_blocks(items),
        ).len(),
        forall|i: int|
            0 <= i < qualifying_methods(
                module_blocks(items),
            ).len() ==> all_wrappers(ty, stripped_blocks(items))[i]
                == wrapper_of(
                ty,
                #[trigger] qualifying_methods(
                    module_blocks(items),
                )[i],
            ),
{
    lemma_stripped_blocks_qualifying(items);
    lemma_wrappers_one_per_method(ty, stripped_blocks(items));
}

/// No residual self-reference placeholder survives in the emitted state
/// declaration of any valid module.
pub proof fn lemma_no_residual_self_reference(items: Seq<ItemV>)
    requires
        module_ctor(items) is Some,
    ensures
        !has_self_ref(expanded_state(items).init),
{
    lemma_subst_no_self_ref(module_ctor(items)->0, first_pub_type(items).name);
}

} // verus!
