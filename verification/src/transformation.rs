//! The self-reference rewriter.
//!
//! A generic tree visitor that substitutes the self-reference placeholder
//! with a concrete type name wherever it occurs in an expression tree, at
//! any nesting depth. The substitution is exhaustive (no placeholder
//! survives) and idempotent (a second pass is a no-op); both facts are
//! proved below.

use crate::ast::{
    expr_view, exprs_view, field_view, fields_view, lemma_exprs_view, lemma_fields_view, Expr,
    ExprV, FieldInit, FieldV, PathRef, PathV,
};
use vstd::prelude::*;

verus! {

/// Substitution on one path position.
pub open spec fn subst_path(p: PathV, name: Seq<char>) -> PathV {
    match p {
        PathV::SelfRef => PathV::Named(name),
        PathV::Named(s) => PathV::Named(s),
    }
}

/// Substitution on one struct-literal field.
pub open spec fn subst_field(f: FieldV, name: Seq<char>) -> FieldV
    decreases f,
{
    FieldV { name: f.name, value: subst_expr(f.value, name) }
}

/// Substitution over a whole expression tree: every path position is
/// rewritten, including those nested inside literal field values and
/// nested calls.
pub open spec fn subst_expr(e: ExprV, name: Seq<char>) -> ExprV
    decreases e,
{
    match e {
        ExprV::Ref(p) => ExprV::Ref(subst_path(p, name)),
        ExprV::IntLit(n) => ExprV::IntLit(n),
        ExprV::StructLit(p, fs) => ExprV::StructLit(subst_path(p, name), subst_fields(fs, name)),
        ExprV::Call(p, es) => ExprV::Call(subst_path(p, name), subst_exprs(es, name)),
    }
}

pub open spec fn subst_exprs(es: Seq<ExprV>, name: Seq<char>) -> Seq<ExprV>
    decreases es,
{
    if es.len() == 0 {
        Seq::empty()
    } else {
        seq![subst_expr(es[0], name)] + subst_exprs(es.drop_first(), name)
    }
}

pub open spec fn subst_fields(fs: Seq<FieldV>, name: Seq<char>) -> Seq<FieldV>
    decreases fs,
{
    if fs.len() == 0 {
        Seq::empty()
    } else {
        seq![subst_field(fs[0], name)] + subst_fields(fs.drop_first(), name)
    }
}

/// Whether a path position is the self-reference placeholder.
pub open spec fn path_has_self_ref(p: PathV) -> bool {
    p is SelfRef
}

/// Whether the placeholder occurs anywhere in the tree.
pub open spec fn has_self_ref(e: ExprV) -> bool
    decreases e,
{
    match e {
        ExprV::Ref(p) => path_has_self_ref(p),
        ExprV::IntLit(_) => false,
        ExprV::StructLit(p, fs) => path_has_self_ref(p) || fields_have_self_ref(fs),
        ExprV::Call(p, es) => path_has_self_ref(p) || exprs_have_self_ref(es),
    }
}

pub open spec fn exprs_have_self_ref(es: Seq<ExprV>) -> bool
    decreases es,
{
    if es.len() == 0 {
        false
    } else {
        has_self_ref(es[0]) || exprs_have_self_ref(es.drop_first())
    }
}

pub open spec fn fields_have_self_ref(fs: Seq<FieldV>) -> bool
    decreases fs,
{
    if fs.len() == 0 {
        false
    } else {
        has_self_ref(fs[0].value) || fields_have_self_ref(fs.drop_first())
    }
}

/// Length and index characterization of `subst_exprs`.
pub proof fn lemma_subst_exprs(es: Seq<ExprV>, name: Seq<char>)
    ensures
        subst_exprs(es, name).len() == es.len(),
        forall|i: int| 0 <= i < es.len() ==> subst_exprs(es, name)[i] == subst_expr(es[i], name),
    decreases es,
{
    if es.len() > 0 {
        lemma_subst_exprs(es.drop_first(), name);
    }
}

/// Length and index characterization of `subst_fields`.
pub proof fn lemma_subst_fields(fs: Seq<FieldV>, name: Seq<char>)
    ensures
        subst_fields(fs, name).len() == fs.len(),
        forall|i: int| 0 <= i < fs.len() ==> subst_fields(fs, name)[i] == subst_field(fs[i], name),
    decreases fs,
{
    if fs.len() > 0 {
        lemma_subst_fields(fs.drop_first(), name);
    }
}

/// Index characterization of `exprs_have_self_ref`.
pub proof fn lemma_exprs_have_self_ref(es: Seq<ExprV>)
    ensures
        exprs_have_self_ref(es) <==> exists|i: int|
            0 <= i < es.len() && has_self_ref(#[trigger] es[i]),
    decreases es,
{
    if es.len() > 0 {
        lemma_exprs_have_self_ref(es.drop_first());
        if has_self_ref(es[0]) {
            assert(exprs_have_self_ref(es));
        }
        if exprs_have_self_ref(es.drop_first()) {
            let i = choose|i: int|
                0 <= i < es.drop_first().len() && has_self_ref(#[trigger] es.drop_first()[i]);
            assert(es[i + 1] == es.drop_first()[i]);
        }
        if exists|i: int| 0 <= i < es.len() && has_self_ref(#[trigger] es[i]) {
            let i = choose|i: int| 0 <= i < es.len() && has_self_ref(#[trigger] es[i]);
            if i > 0 {
                assert(es.drop_first()[i - 1] == es[i]);
            }
        }
    }
}

/// Index characterization of `fields_have_self_ref`.
pub proof fn lemma_fields_have_self_ref(fs: Seq<FieldV>)
    ensures
        fields_have_self_ref(fs) <==> exists|i: int|
            0 <= i < fs.len() && has_self_ref(#[trigger] fs[i].value),
    decreases fs,
{
    if fs.len() > 0 {
        lemma_fields_have_self_ref(fs.drop_first());
        if has_self_ref(fs[0].value) {
            assert(fields_have_self_ref(fs));
        }
        if fields_have_self_ref(fs.drop_first()) {
            let i = choose|i: int|
                0 <= i < fs.drop_first().len() && has_self_ref(#[trigger] fs.drop_first()[i].value);
            assert(fs[i + 1] == fs.drop_first()[i]);
        }
        if exists|i: int| 0 <= i < fs.len() && has_self_ref(#[trigger] fs[i].value) {
            let i = choose|i: int| 0 <= i < fs.len() && has_self_ref(#[trigger] fs[i].value);
            if i > 0 {
                assert(fs.drop_first()[i - 1] == fs[i]);
            }
        }
    }
}

/// Exhaustiveness: no self-reference placeholder survives the substitution,
/// at any nesting depth.
pub proof fn lemma_subst_no_self_ref(e: ExprV, name: Seq<char>)
    ensures
        !has_self_ref(subst_expr(e, name)),
    decreases e,
{
    match e {
        ExprV::StructLit(p, fs) => {
            lemma_subst_fields_no_self_ref(fs, name);
        },
        ExprV::Call(p, es) => {
            lemma_subst_exprs_no_self_ref(es, name);
        },
        _ => {},
    }
}

pub proof fn lemma_subst_exprs_no_self_ref(es: Seq<ExprV>, name: Seq<char>)
    ensures
        !exprs_have_self_ref(subst_exprs(es, name)),
    decreases es,
{
    lemma_subst_exprs(es, name);
    lemma_exprs_have_self_ref(subst_exprs(es, name));
    assert forall|i: int| 0 <= i < es.len() implies !has_self_ref(
        #[trigger] subst_exprs(es, name)[i],
    ) by {
        lemma_subst_no_self_ref(es[i], name);
    }
}

pub proof fn lemma_subst_fields_no_self_ref(fs: Seq<FieldV>, name: Seq<char>)
    ensures
        !fields_have_self_ref(subst_fields(fs, name)),
    decreases fs,
{
    lemma_subst_fields(fs, name);
    lemma_fields_have_self_ref(subst_fields(fs, name));
    assert forall|i: int| 0 <= i < fs.len() implies !has_self_ref(
        (#[trigger] subst_fields(fs, name)[i]).value,
    ) by {
        lemma_subst_no_self_ref(fs[i].value, name);
    }
}

/// A tree without the placeholder is left untouched by the substitution.
pub proof fn lemma_subst_noop(e: ExprV, name: Seq<char>)
    requires
        !has_self_ref(e),
    ensures
        subst_expr(e, name) == e,
    decreases e,
{
    match e {
        ExprV::StructLit(p, fs) => {
            lemma_subst_fields_noop(fs, name);
        },
        ExprV::Call(p, es) => {
            lemma_subst_exprs_noop(es, name);
        },
        _ => {},
    }
}

pub proof fn lemma_subst_exprs_noop(es: Seq<ExprV>, name: Seq<char>)
    requires
        !exprs_have_self_ref(es),
    ensures
        subst_exprs(es, name) == es,
    decreases es,
{
    lemma_subst_exprs(es, name);
    lemma_exprs_have_self_ref(es);
    assert forall|i: int| 0 <= i < es.len() implies #[trigger] subst_exprs(es, name)[i] == es[i] by {
        lemma_subst_noop(es[i], name);
    }
    assert(subst_exprs(es, name) =~= es);
}

pub proof fn lemma_subst_fields_noop(fs: Seq<FieldV>, name: Seq<char>)
    requires
        !fields_have_self_ref(fs),
    ensures
        subst_fields(fs, name) == fs,
    decreases fs,
{
    lemma_subst_fields(fs, name);
    lemma_fields_have_self_ref(fs);
    assert forall|i: int| 0 <= i < fs.len() implies #[trigger] subst_fields(fs, name)[i] == fs[i] by {
        lemma_subst_noop(fs[i].value, name);
        assert(subst_field(fs[i], name) =~= fs[i]);
    }
    assert(subst_fields(fs, name) =~= fs);
}

/// Idempotence: applying the substitution twice with the same type name
/// yields the same tree as applying it once.
pub proof fn lemma_subst_idempotent(e: ExprV, name: Seq<char>)
    ensures
        subst_expr(subst_expr(e, name), name) == subst_expr(e, name),
{
    lemma_subst_no_self_ref(e, name);
    lemma_subst_noop(subst_expr(e, name), name);
}

/// The visitor that replaces the self-reference placeholder with the
/// concrete name of the contract's public type.
pub struct ReplaceSelfWithStructName {
    pub struct_name: String,
}

impl ReplaceSelfWithStructName {
    /// Rewrites one path position in place.
    pub fn visit_path_mut(&self, path: &mut PathRef)
        ensures
            final(path)@ == subst_path(old(path)@, self.struct_name@),
    {
        let is_self = match &*path {
            PathRef::SelfRef => true,
            PathRef::Named(_) => false,
        };
        if is_self {
            *path = PathRef::Named(self.struct_name.clone());
        }
    }

    /// Rewrites a whole expression tree in place, visiting every nested
    /// path position.
    pub fn visit_expr_mut(&self, e: &mut Expr)
        ensures
            final(e)@ == subst_expr(old(e)@, self.struct_name@),
    {
        let rewritten = rewrite_expr(&*e, &self.struct_name);
        *e = rewritten;
    }
}

/// Functional core of the rewriter on one path.
fn rewrite_path(p: &PathRef, name: &String) -> (r: PathRef)
    ensures
        r@ == subst_path(p@, name@),
{
    match p {
        PathRef::SelfRef => PathRef::Named(name.clone()),
        PathRef::Named(s) => PathRef::Named(s.clone()),
    }
}

/// Functional core of the rewriter on a tree.
#[verifier::loop_isolation(false)]
pub fn rewrite_expr(e: &Expr, name: &String) -> (r: Expr)
    ensures
        r@ == subst_expr(e@, name@),
    decreases *e,
{
    match e {
        Expr::Ref(p) => Expr::Ref(rewrite_path(p, name)),
        Expr::IntLit(n) => Expr::IntLit(*n),
        Expr::StructLit(p, fields) => {
            let mut out: Vec<FieldInit> = Vec::new();
            let mut i: usize = 0;
            while i < fields.len()
                invariant
                    i <= fields.len(),
                    out@.len() == i,
                    forall|j: int|
                        0 <= j < i ==> field_view(#[trigger] out@[j]) == subst_field(
                            field_view(fields@[j]),
                            name@,
                        ),
                decreases fields.len() - i,
            {
                let f = &fields[i];
                proof {
                    assert(*fields == e->StructLit_1);
                    assert(decreases_to!(*e => e->StructLit_1));
                    assert(decreases_to!(e->StructLit_1 => fields@));
                    assert(decreases_to!(fields@ => fields@[i as int]));
                    assert(decreases_to!(fields@[i as int] => fields@[i as int].value));
                    assert(decreases_to!(*e => f.value));
                }
                let value = rewrite_expr(&f.value, name);
                out.push(FieldInit { name: f.name.clone(), value });
                i += 1;
            }
            let rp = rewrite_path(p, name);
            let r = Expr::StructLit(rp, out);
            proof {
                lemma_fields_view(r->StructLit_1@);
                lemma_fields_view(fields@);
                lemma_subst_fields(fields_view(fields@), name@);
                assert(fields_view(r->StructLit_1@) =~= subst_fields(fields_view(fields@), name@));
            }
            r
        },
        Expr::Call(p, args) => {
            let mut out: Vec<Expr> = Vec::new();
            let mut i: usize = 0;
            while i < args.len()
                invariant
                    i <= args.len(),
                    out@.len() == i,
                    forall|j: int|
                        0 <= j < i ==> expr_view(#[trigger] out@[j]) == subst_expr(
                            expr_view(args@[j]),
                            name@,
                        ),
                decreases args.len() - i,
            {
                let a = &args[i];
                proof {
                    assert(*args == e->Call_1);
                    assert(decreases_to!(*e => e->Call_1));
                    assert(decreases_to!(e->Call_1 => args@));
                    assert(decreases_to!(args@ => args@[i as int]));
                    assert(decreases_to!(*e => *a));
                }
                let value = rewrite_expr(a, name);
                out.push(value);
                i += 1;
            }
            let rp = rewrite_path(p, name);
            let r = Expr::Call(rp, out);
            proof {
                lemma_exprs_view(r->Call_1@);
                lemma_exprs_view(args@);
                lemma_subst_exprs(exprs_view(args@), name@);
                assert(exprs_view(r->Call_1@) =~= subst_exprs(exprs_view(args@), name@));
            }
            r
        },
    }
}

} // verus!
