//! The export wrapper generator.
//!
//! Emits one wrapper function per public, non-constructor method of the
//! behavior blocks, in block-then-method encounter order. A receiver
//! method's wrapper dispatches through the singleton state; a non-receiver
//! method's wrapper dispatches statically on the type. The wrapper's
//! exported signature is fixed regardless of the method's own signature:
//! the runtime bridge decodes the argument buffer into the typed tuple and
//! encodes the returned value.

use crate::ast::{
    block_view, blocks_seq_view, clone_params, method_view, wrappers_view, BehaviorBlock, BlockV, Dispatch, DispatchV, Method, MethodV, WrapperFunction,
    WrapperV,
};
use crate::parser::{is_new_method, is_new_name, strip_methods};
use vstd::prelude::*;

verus! {

/// Whether a method receives a wrapper: public and not a constructor.
pub open spec fn qualifies(m: MethodV) -> bool {
    m.is_public && !is_new_method(m)
}

/// The wrapper emitted for one method.
pub open spec fn wrapper_of(ty: Seq<char>, m: MethodV) -> WrapperV {
    WrapperV {
        name: m.name,
        params: m.params,
        dispatch: if m.has_receiver {
            DispatchV::ThroughState
        } else {
            DispatchV::StaticOnType(ty)
        },
    }
}

/// The wrappers of one block's methods, in method order.
pub open spec fn block_wrappers(ty: Seq<char>, ms: Seq<MethodV>) -> Seq<WrapperV>
    decreases ms,
{
    if ms.len() == 0 {
        Seq::empty()
    } else {
        block_wrappers(ty, ms.drop_last()) + if qualifies(ms.last()) {
            seq![wrapper_of(ty, ms.last())]
        } else {
            Seq::empty()
        }
    }
}

/// The wrappers of all blocks, in block-then-method order.
pub open spec fn all_wrappers(ty: Seq<char>, blocks: Seq<BlockV>) -> Seq<WrapperV>
    decreases blocks,
{
    if blocks.len() == 0 {
        Seq::empty()
    } else {
        all_wrappers(ty, blocks.drop_last()) + block_wrappers(ty, blocks.last().methods)
    }
}

/// The qualifying methods of one block, in order.
pub open spec fn qualifying_of(ms: Seq<MethodV>) -> Seq<MethodV>
    decreases ms,
{
    if ms.len() == 0 {
        Seq::empty()
    } else {
        qualifying_of(ms.drop_last()) + if qualifies(ms.last()) {
            seq![ms.last()]
        } else {
            Seq::empty()
        }
    }
}

/// The qualifying methods of all blocks, in block-then-method order.
pub open spec fn qualifying_methods(blocks: Seq<BlockV>) -> Seq<MethodV>
    decreases blocks,
{
    if blocks.len() == 0 {
        Seq::empty()
    } else {
        qualifying_methods(blocks.drop_last()) + qualifying_of(blocks.last().methods)
    }
}

/// One block emits exactly one wrapper per qualifying method, in order.
pub proof fn lemma_block_wrappers_one_per_method(ty: Seq<char>, ms: Seq<MethodV>)
    ensures
        block_wrappers(ty, ms).len() == qualifying_of(ms).len(),
        forall|i: int|
            0 <= i < qualifying_of(ms).len() ==> block_wrappers(ty, ms)[i] == wrapper_of(
                ty,
                #[trigger] qualifying_of(ms)[i],
            ),
    decreases ms,
{
    if ms.len() > 0 {
        lemma_block_wrappers_one_per_method(ty, ms.drop_last());
    }
}

/// The generator emits exactly one wrapper per public, non-constructor
/// method across all blocks, in block-then-method encounter order; each
/// wrapper carries its method's name and parameters and dispatches through
/// the state singleton exactly when the method has a receiver.
pub proof fn lemma_wrappers_one_per_method(ty: Seq<char>, blocks: Seq<BlockV>)
    ensures
        all_wrappers(ty, blocks).len() == qualifying_methods(blocks).len(),
        forall|i: int|
            0 <= i < qualifying_methods(blocks).len() ==> all_wrappers(ty, blocks)[i]
                == wrapper_of(ty, #[trigger] qualifying_methods(blocks)[i]),
    decreases blocks,
{
    if blocks.len() > 0 {
        lemma_wrappers_one_per_method(ty, blocks.drop_last());
        lemma_block_wrappers_one_per_method(ty, blocks.last().methods);
    }
}

/// Removing the constructors does not change which methods qualify for a
/// wrapper: a constructor never qualifies.
pub proof fn lemma_qualifying_of_strip(ms: Seq<MethodV>)
    ensures
        qualifying_of(strip_methods(ms)) == qualifying_of(ms),
    decreases ms,
{
    if ms.len() > 0 {
        lemma_qualifying_of_strip(ms.drop_last());
        let stripped = strip_methods(ms);
        let prev = strip_methods(ms.drop_last());
        if is_new_method(ms.last()) {
            assert(stripped =~= prev);
        } else {
            assert(stripped =~= prev.push(ms.last()));
            assert(stripped.drop_last() =~= prev);
        }
    }
}

/// Whether a method is public.
pub fn is_public_method(method: &Method) -> (r: bool)
    ensures
        r == method@.is_public,
{
    method.is_public
}

/// Builds the wrapper for one qualifying method.
fn generate_wrapper_function(method: &Method, struct_name: &String) -> (r: WrapperFunction)
    ensures
        r@ == wrapper_of(struct_name@, method@),
{
    let params = clone_params(&method.params);
    let dispatch = if method.has_receiver {
        Dispatch::ThroughState
    } else {
        Dispatch::StaticOnType(struct_name.clone())
    };
    let r = WrapperFunction { name: method.name.clone(), params, dispatch };
    proof {
        assert(r@ =~= wrapper_of(struct_name@, method@));
    }
    r
}

/// Generates the wrappers for one behavior block.
#[verifier::loop_isolation(false)]
fn generate_no_mangle_functions(block: &BehaviorBlock, struct_name: &String) -> (r: Vec<
    WrapperFunction,
>)
    ensures
        wrappers_view(r@) == block_wrappers(struct_name@, block@.methods),
{
    let ghost ms: Seq<MethodV> = block@.methods;
    let mut out: Vec<WrapperFunction> = Vec::new();
    let mut i: usize = 0;
    proof {
        assert(ms.take(0) =~= Seq::empty());
        assert(wrappers_view(out@) =~= block_wrappers(struct_name@, ms.take(0)));
    }
    while i < block.methods.len()
        invariant
            i <= block.methods.len(),
            wrappers_view(out@) == block_wrappers(struct_name@, ms.take(i as int)),
        decreases block.methods.len() - i,
    {
        let m = &block.methods[i];
        proof {
            assert(ms[i as int] == method_view(block.methods@[i as int]));
            assert(ms.take(i as int + 1).drop_last() =~= ms.take(i as int));
            assert(ms.take(i as int + 1).last() == ms[i as int]);
        }
        if is_public_method(m) && !is_new_name(&m.name) {
            let w = generate_wrapper_function(m, struct_name);
            out.push(w);
        }
        proof {
            assert(wrappers_view(out@) =~= block_wrappers(struct_name@, ms.take(i as int + 1)));
        }
        i += 1;
    }
    proof {
        assert(ms.take(i as int) =~= ms);
    }
    out
}

/// Generates the wrapper functions for all behavior blocks, one per
/// public, non-constructor method, in block-then-method order.
#[verifier::loop_isolation(false)]
pub fn generate_public_functions(impl_blocks: &Vec<BehaviorBlock>, struct_name: &String) -> (r: Vec<
    WrapperFunction,
>)
    ensures
        wrappers_view(r@) == all_wrappers(struct_name@, blocks_seq_view(impl_blocks@)),
{
    let ghost bs: Seq<BlockV> = blocks_seq_view(impl_blocks@);
    let mut out: Vec<WrapperFunction> = Vec::new();
    let mut i: usize = 0;
    proof {
        assert(bs.take(0) =~= Seq::empty());
        assert(wrappers_view(out@) =~= all_wrappers(struct_name@, bs.take(0)));
    }
    while i < impl_blocks.len()
        invariant
            i <= impl_blocks.len(),
            wrappers_view(out@) == all_wrappers(struct_name@, bs.take(i as int)),
        decreases impl_blocks.len() - i,
    {
        proof {
            assert(bs[i as int] == block_view(impl_blocks@[i as int]));
            assert(bs.take(i as int + 1).drop_last() =~= bs.take(i as int));
            assert(bs.take(i as int + 1).last() == bs[i as int]);
        }
        let ghost prev: Seq<WrapperV> = wrappers_view(out@);
        let mut ws = generate_no_mangle_functions(&impl_blocks[i], struct_name);
        let ghost wsv: Seq<WrapperV> = wrappers_view(ws@);
        out.append(&mut ws);
        proof {
            assert(wrappers_view(out@) =~= prev + wsv);
            assert(wrappers_view(out@) =~= all_wrappers(struct_name@, bs.take(i as int + 1)));
        }
        i += 1;
    }
    proof {
        assert(bs.take(i as int) =~= bs);
    }
    out
}

} // verus!
