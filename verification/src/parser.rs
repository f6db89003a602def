//! The module parser.
//!
//! Scans a contract module's items once, in declaration order: records the
//! single public type declaration (zero or several are terminal errors),
//! strips every constructor method out of the behavior blocks, and captures
//! the constructor expression of the first constructor method encountered.

use crate::ast::{
    blocks_seq_view, expr_view, item_view, method_view, methods_view,
    clone_expr, stmts_view, BehaviorBlock, BlockV, ContractError, Expr, ExprV, Item, ItemV,
    Method, MethodV, ModuleDeclaration, Stmt, TypeDeclV, TypeDeclaration,
};
use vstd::prelude::*;

verus! {

/// Whether a method is a constructor: literally named "new".
pub open spec fn is_new_method(m: MethodV) -> bool {
    m.name == "new"@
}

/// The methods of a block that survive parsing: all but the constructors.
pub open spec fn strip_methods(ms: Seq<MethodV>) -> Seq<MethodV>
    decreases ms,
{
    if ms.len() == 0 {
        Seq::empty()
    } else {
        strip_methods(ms.drop_last()) + if is_new_method(ms.last()) {
            Seq::empty()
        } else {
            seq![ms.last()]
        }
    }
}

/// A block with its constructors removed.
pub open spec fn strip_block(b: BlockV) -> BlockV {
    BlockV { target: b.target, capability: b.capability, methods: strip_methods(b.methods) }
}

/// An item after parsing: behavior blocks lose their constructors, all
/// other items are untouched.
pub open spec fn strip_item(it: ItemV) -> ItemV {
    match it {
        ItemV::Behavior(b) => ItemV::Behavior(strip_block(b)),
        _ => it,
    }
}

pub open spec fn strip_items(items: Seq<ItemV>) -> Seq<ItemV> {
    Seq::new(items.len(), |i: int| strip_item(items[i]))
}

/// Whether an item is a public type declaration.
pub open spec fn is_pub_type_item(it: ItemV) -> bool {
    &&& it is TypeDecl
    &&& it->TypeDecl_0.is_public
}

/// How many public type declarations a module holds.
pub open spec fn pub_type_count(items: Seq<ItemV>) -> nat
    decreases items,
{
    if items.len() == 0 {
        0
    } else {
        (if is_pub_type_item(items[0]) {
            1nat
        } else {
            0nat
        }) + pub_type_count(items.drop_first())
    }
}

/// The first public type declaration, meaningful when at least one exists.
pub open spec fn first_pub_type(items: Seq<ItemV>) -> TypeDeclV
    decreases items,
{
    if items.len() == 0 {
        arbitrary()
    } else if is_pub_type_item(items[0]) {
        items[0]->TypeDecl_0
    } else {
        first_pub_type(items.drop_first())
    }
}

/// What a constructor method contributes: its first body statement, if that
/// statement is a bare expression. All later statements are discarded by
/// design.
pub open spec fn capture_of(m: MethodV) -> Option<ExprV> {
    if m.body.len() > 0 && m.body[0] is Bare {
        Option::Some(m.body[0]->Bare_0)
    } else {
        Option::None
    }
}

/// The first constructor method of a method list.
pub open spec fn first_new(ms: Seq<MethodV>) -> Option<MethodV>
    decreases ms,
{
    if ms.len() == 0 {
        Option::None
    } else if is_new_method(ms[0]) {
        Option::Some(ms[0])
    } else {
        first_new(ms.drop_first())
    }
}

/// The module's constructor expression: the capture of the first
/// constructor method encountered in block-then-method order. Later
/// constructors contribute nothing.
pub open spec fn module_ctor(items: Seq<ItemV>) -> Option<ExprV>
    decreases items,
{
    if items.len() == 0 {
        Option::None
    } else {
        match items[0] {
            ItemV::Behavior(b) => match first_new(b.methods) {
                Option::Some(m) => capture_of(m),
                Option::None => module_ctor(items.drop_first()),
            },
            _ => module_ctor(items.drop_first()),
        }
    }
}

/// The behavior blocks of a module, in order, each with its constructors
/// removed.
pub open spec fn stripped_blocks(items: Seq<ItemV>) -> Seq<BlockV>
    decreases items,
{
    if items.len() == 0 {
        Seq::empty()
    } else {
        stripped_blocks(items.drop_last()) + match items.last() {
            ItemV::Behavior(b) => seq![strip_block(b)],
            _ => Seq::empty(),
        }
    }
}

/// The behavior blocks of a module, in order, as declared.
pub open spec fn module_blocks(items: Seq<ItemV>) -> Seq<BlockV>
    decreases items,
{
    if items.len() == 0 {
        Seq::empty()
    } else {
        module_blocks(items.drop_last()) + match items.last() {
            ItemV::Behavior(b) => seq![b],
            _ => Seq::empty(),
        }
    }
}

pub open spec fn opt_expr_view(o: Option<Expr>) -> Option<ExprV> {
    match o {
        Option::Some(e) => Option::Some(expr_view(e)),
        Option::None => Option::None,
    }
}

/// A public-type count splits over any cut of the item list.
pub proof fn lemma_pub_type_count_split(items: Seq<ItemV>, k: int)
    requires
        0 <= k <= items.len(),
    ensures
        pub_type_count(items) == pub_type_count(items.take(k)) + pub_type_count(items.skip(k)),
    decreases k,
{
    if k == 0 {
        assert(items.take(0) =~= Seq::empty());
        assert(items.skip(0) =~= items);
    } else {
        lemma_pub_type_count_split(items.drop_first(), k - 1);
        assert(items.take(k).drop_first() =~= items.drop_first().take(k - 1));
        assert(items.skip(k) =~= items.drop_first().skip(k - 1));
        assert(items.take(k)[0] == items[0]);
    }
}

/// Tests whether a method name is the constructor name.
pub fn is_new_name(s: &String) -> (r: bool)
    ensures
        r == (s@ == "new"@),
{
    let lit: String = "new".to_owned();
    *s == lit
}

/// Records the public type declaration, rejecting a second one: only one
/// public type is allowed in a contract module.
pub fn handle_public_struct(public_struct: &mut Option<String>, ty: &TypeDeclaration) -> (r: Result<
    (),
    ContractError,
>)
    ensures
        !ty@.is_public ==> r is Ok && *final(public_struct) == *old(public_struct),
        ty@.is_public && *old(public_struct) is Some ==> (r matches Err(e)
            && e == ContractError::MultiplePublicTypes) && *final(public_struct) == *old(
            public_struct,
        ),
        ty@.is_public && *old(public_struct) is None ==> r is Ok && *final(public_struct) is Some
            && (*final(public_struct))->0@ == ty@.name,
{
    if ty.is_public {
        if public_struct.is_some() {
            return Err(ContractError::MultiplePublicTypes);
        }
        *public_struct = Some(ty.name.clone());
    }
    Ok(())
}

/// Processes one behavior block: removes every constructor method, and
/// captures the contribution of the block's first constructor, if any.
///
/// Returns the stripped block, the captured constructor expression, and
/// whether the block held a constructor at all.
#[verifier::loop_isolation(false)]
pub fn process_impl_block(block: &BehaviorBlock) -> (res: (BehaviorBlock, Option<Expr>, bool))
    ensures
        res.0@ == strip_block(block@),
        res.2 == (first_new(block@.methods) is Some),
        res.2 ==> opt_expr_view(res.1) == capture_of(first_new(block@.methods)->0),
        !res.2 ==> res.1 is None,
{
    let ghost ms: Seq<MethodV> = block@.methods;
    let mut filtered: Vec<Method> = Vec::new();
    let mut capture: Option<Expr> = None;
    let mut found_new: bool = false;
    let mut i: usize = 0;
    proof {
        assert(ms.take(0) =~= Seq::empty());
        assert(methods_view(filtered@) =~= strip_methods(ms.take(0)));
        assert(ms.skip(0) =~= ms);
    }
    while i < block.methods.len()
        invariant
            i <= block.methods.len(),
            methods_view(filtered@) == strip_methods(ms.take(i as int)),
            found_new ==> first_new(ms) is Some && opt_expr_view(capture) == capture_of(
                first_new(ms)->0,
            ),
            !found_new ==> capture is None && first_new(ms) == first_new(ms.skip(i as int)),
        decreases block.methods.len() - i,
    {
        let m = &block.methods[i];
        proof {
            assert(ms[i as int] == method_view(block.methods@[i as int]));
            assert(ms.skip(i as int)[0] == ms[i as int]);
            assert(ms.skip(i as int).drop_first() =~= ms.skip(i as int + 1));
            assert(ms.take(i as int + 1).drop_last() =~= ms.take(i as int));
            assert(ms.take(i as int + 1).last() == ms[i as int]);
        }
        if is_new_name(&m.name) {
            if !found_new {
                found_new = true;
                proof {
                    assert(first_new(ms.skip(i as int)) == Option::Some(ms[i as int]));
                    assert(ms[i as int].body =~= stmts_view(block.methods@[i as int].body@));
                }
                if m.body.len() > 0 {
                    match &m.body[0] {
                        Stmt::Bare(e) => {
                            capture = Some(clone_expr(e));
                        },
                        Stmt::Opaque => {},
                    }
                }
            }
        } else {
            filtered.push(m.clone());
            proof {
                assert(methods_view(filtered@) =~= strip_methods(ms.take(i as int + 1)));
            }
        }
        i += 1;
    }
    proof {
        assert(ms.take(i as int) =~= ms);
        assert(ms.skip(i as int) =~= Seq::empty());
    }
    let target = block.target.clone();
    let capability = match &block.capability {
        Some(s) => Some(s.clone()),
        None => None,
    };
    let stripped = BehaviorBlock { target, capability, methods: filtered };
    proof {
        assert(stripped@ =~= strip_block(block@));
    }
    (stripped, capture, found_new)
}

/// The outcome of parsing a contract module: the public type's name, the
/// module and its behavior blocks with constructors removed, and the
/// captured constructor expression.
pub struct ParsedContract {
    pub struct_name: String,
    pub module: ModuleDeclaration,
    pub blocks: Vec<BehaviorBlock>,
    pub constructor: Option<Expr>,
}

/// Parses the contract module: identifies the single public type
/// declaration, collects the behavior blocks with constructors removed, and
/// extracts the constructor expression.
///
/// Fails with `MissingPublicType` when no public type declaration exists,
/// and with `MultiplePublicTypes` when more than one does; a failure
/// produces no partial output.
#[verifier::loop_isolation(false)]
pub fn parse_contract(input_mod: &ModuleDeclaration) -> (r: Result<ParsedContract, ContractError>)
    ensures
        (r is Ok) == (pub_type_count(input_mod@.items) == 1),
        (r matches Err(e) && e == ContractError::MissingPublicType) == (pub_type_count(
            input_mod@.items,
        ) == 0),
        (r matches Err(e) && e == ContractError::MultiplePublicTypes) == (pub_type_count(
            input_mod@.items,
        ) >= 2),
        r matches Ok(p) ==> {
            &&& p.struct_name@ == first_pub_type(input_mod@.items).name
            &&& p.module@.name == input_mod@.name
            &&& p.module@.items == strip_items(input_mod@.items)
            &&& blocks_seq_view(p.blocks@) == stripped_blocks(input_mod@.items)
            &&& opt_expr_view(p.constructor) == module_ctor(input_mod@.items)
        },
{
    let ghost iv: Seq<ItemV> = input_mod@.items;
    let mut public_struct: Option<String> = None;
    let mut out_items: Vec<Item> = Vec::new();
    let mut out_blocks: Vec<BehaviorBlock> = Vec::new();
    let mut constructor: Option<Expr> = None;
    let mut seen_new: bool = false;
    let mut i: usize = 0;
    proof {
        assert(iv.take(0) =~= Seq::empty());
        assert(iv.skip(0) =~= iv);
        assert(blocks_seq_view(out_blocks@) =~= stripped_blocks(iv.take(0)));
    }
    while i < input_mod.items.len()
        invariant
            i <= input_mod.items.len(),
            public_struct is None ==> pub_type_count(iv.take(i as int)) == 0 && first_pub_type(iv)
                == first_pub_type(iv.skip(i as int)),
            public_struct matches Some(s) ==> pub_type_count(iv.take(i as int)) == 1 && s@
                == first_pub_type(iv).name,
            out_items@.len() == i,
            forall|j: int|
                0 <= j < i ==> item_view(#[trigger] out_items@[j]) == strip_item(iv[j]),
            blocks_seq_view(out_blocks@) == stripped_blocks(iv.take(i as int)),
            seen_new ==> opt_expr_view(constructor) == module_ctor(iv),
            !seen_new ==> constructor is None && module_ctor(iv) == module_ctor(
                iv.skip(i as int),
            ),
        decreases input_mod.items.len() - i,
    {
        let it = &input_mod.items[i];
        proof {
            assert(iv[i as int] == item_view(input_mod.items@[i as int]));
            assert(iv.skip(i as int)[0] == iv[i as int]);
            assert(iv.skip(i as int).drop_first() =~= iv.skip(i as int + 1));
            assert(iv.take(i as int + 1).drop_last() =~= iv.take(i as int));
            assert(iv.take(i as int + 1).last() == iv[i as int]);
            assert(iv.take(i as int + 1)[0] == iv[0]);
        }
        match it {
            Item::TypeDecl(t) => {
                if let Err(e) = handle_public_struct(&mut public_struct, t) {
                    proof {
                        lemma_pub_type_count_split(iv, i as int);
                        assert(pub_type_count(iv.skip(i as int)) >= 1);
                    }
                    return Err(e);
                }
                out_items.push(Item::TypeDecl(t.clone()));
                proof {
                    if is_pub_type_item(iv[i as int]) {
                        assert(first_pub_type(iv.skip(i as int)) == iv[i as int]->TypeDecl_0);
                        lemma_pub_type_count_take_grows(iv, i as int);
                    } else {
                        lemma_pub_type_count_take_grows(iv, i as int);
                    }
                }
            },
            Item::Behavior(b) => {
                let (stripped, cap, had_new) = process_impl_block(b);
                if !seen_new && had_new {
                    constructor = cap;
                    seen_new = true;
                }
                out_blocks.push(stripped.clone());
                out_items.push(Item::Behavior(stripped));
                proof {
                    lemma_pub_type_count_take_grows(iv, i as int);
                    assert(blocks_seq_view(out_blocks@) =~= stripped_blocks(
                        iv.take(i as int + 1),
                    ));
                }
            },
            Item::State(_) | Item::Opaque => {
                out_items.push(it.clone());
                proof {
                    lemma_pub_type_count_take_grows(iv, i as int);
                }
            },
        }
        proof {
            if !(iv[i as int] is Behavior) {
                assert(blocks_seq_view(out_blocks@) =~= stripped_blocks(iv.take(i as int + 1)));
            }
        }
        i += 1;
    }
    proof {
        assert(iv.take(i as int) =~= iv);
        assert(iv.skip(i as int) =~= Seq::empty());
    }
    let struct_name = match public_struct {
        Some(s) => s,
        None => {
            return Err(ContractError::MissingPublicType);
        },
    };
    let module = ModuleDeclaration { name: input_mod.name.clone(), items: out_items };
    proof {
        assert(module@.items =~= strip_items(iv));
    }
    Ok(ParsedContract { struct_name, module, blocks: out_blocks, constructor })
}

/// One step of the public-type count along a prefix.
pub proof fn lemma_pub_type_count_take_grows(items: Seq<ItemV>, i: int)
    requires
        0 <= i < items.len(),
    ensures
        pub_type_count(items.take(i + 1)) == pub_type_count(items.take(i)) + (
        if is_pub_type_item(items[i]) {
            1nat
        } else {
            0nat
        }),
    decreases i,
{
    if i == 0 {
        assert(items.take(1).drop_first() =~= Seq::empty());
        assert(items.take(1)[0] == items[0]);
        assert(items.take(0) =~= Seq::empty());
    } else {
        lemma_pub_type_count_take_grows(items.drop_first(), i - 1);
        assert(items.take(i + 1).drop_first() =~= items.drop_first().take(i));
        assert(items.take(i).drop_first() =~= items.drop_first().take(i - 1));
        assert(items.take(i + 1)[0] == items[0]);
        assert(items.take(i)[0] == items[0]);
        assert(items.drop_first()[i - 1] == items[i]);
    }
}

} // verus!
