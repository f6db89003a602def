//! Data model of the contract module tree.
//!
//! Executable types mirror the host syntax as plain values; each has a deep
//! mathematical view (`...V`) over `Seq` and `Seq<char>` that the contracts
//! of the pipeline speak about.

use vstd::prelude::*;

verus! {

/// A path position in an expression: either the self-reference placeholder
/// (the construct meaning "the type currently being defined") or a concrete
/// name.
#[derive(Debug, PartialEq)]
pub enum PathRef {
    SelfRef,
    Named(String),
}

/// One `name: value` entry of a struct literal.
#[derive(Debug, PartialEq)]
pub struct FieldInit {
    pub name: String,
    pub value: Expr,
}

/// An expression tree. Paths stand at every reference position; struct
/// literals and calls nest arbitrarily deep.
#[derive(Debug, PartialEq)]
pub enum Expr {
    /// A bare path reference.
    Ref(PathRef),
    /// An integer literal.
    IntLit(u64),
    /// A struct literal: path, then field initializers in order.
    StructLit(PathRef, Vec<FieldInit>),
    /// A call: callee path, then arguments in order.
    Call(PathRef, Vec<Expr>),
}

/// Mathematical view of `PathRef`.
pub enum PathV {
    SelfRef,
    Named(Seq<char>),
}

/// Mathematical view of `FieldInit`.
#[verifier::ext_equal]
pub struct FieldV {
    pub name: Seq<char>,
    pub value: ExprV,
}

/// Mathematical view of `Expr`.
#[verifier::ext_equal]
pub enum ExprV {
    Ref(PathV),
    IntLit(u64),
    StructLit(PathV, Seq<FieldV>),
    Call(PathV, Seq<ExprV>),
}

pub open spec fn path_view(p: PathRef) -> PathV {
    match p {
        PathRef::SelfRef => PathV::SelfRef,
        PathRef::Named(s) => PathV::Named(s@),
    }
}

pub open spec fn expr_view(e: Expr) -> ExprV
    decreases e,
{
    match e {
        Expr::Ref(p) => ExprV::Ref(path_view(p)),
        Expr::IntLit(n) => ExprV::IntLit(n),
        Expr::StructLit(p, fields) => ExprV::StructLit(path_view(p), fields_view(fields@)),
        Expr::Call(p, args) => ExprV::Call(path_view(p), exprs_view(args@)),
    }
}

pub open spec fn exprs_view(es: Seq<Expr>) -> Seq<ExprV>
    decreases es,
{
    if es.len() == 0 {
        Seq::empty()
    } else {
        seq![expr_view(es[0])] + exprs_view(es.drop_first())
    }
}

pub open spec fn fields_view(fs: Seq<FieldInit>) -> Seq<FieldV>
    decreases fs,
{
    if fs.len() == 0 {
        Seq::empty()
    } else {
        seq![field_view(fs[0])] + fields_view(fs.drop_first())
    }
}

pub open spec fn field_view(f: FieldInit) -> FieldV
    decreases f,
{
    FieldV { name: f.name@, value: expr_view(f.value) }
}

/// Length and index characterization of `exprs_view`.
pub proof fn lemma_exprs_view(es: Seq<Expr>)
    ensures
        exprs_view(es).len() == es.len(),
        forall|i: int| 0 <= i < es.len() ==> exprs_view(es)[i] == expr_view(es[i]),
    decreases es,
{
    if es.len() > 0 {
        lemma_exprs_view(es.drop_first());
    }
}

/// Length and index characterization of `fields_view`.
pub proof fn lemma_fields_view(fs: Seq<FieldInit>)
    ensures
        fields_view(fs).len() == fs.len(),
        forall|i: int| 0 <= i < fs.len() ==> fields_view(fs)[i] == field_view(fs[i]),
    decreases fs,
{
    if fs.len() > 0 {
        lemma_fields_view(fs.drop_first());
    }
}

impl View for PathRef {
    type V = PathV;

    open spec fn view(&self) -> PathV {
        path_view(*self)
    }
}

impl View for Expr {
    type V = ExprV;

    open spec fn view(&self) -> ExprV {
        expr_view(*self)
    }
}

impl View for FieldInit {
    type V = FieldV;

    open spec fn view(&self) -> FieldV {
        field_view(*self)
    }
}

/// One named parameter of a method; the receiver is not listed here but
/// recorded by `Method::has_receiver`.
#[derive(Debug, PartialEq)]
pub struct Param {
    pub name: String,
    pub ty: String,
}

/// One statement of a method body: a bare expression, or anything else,
/// which the pipeline carries through untouched.
#[derive(Debug, PartialEq)]
pub enum Stmt {
    Bare(Expr),
    Opaque,
}

/// A method of a behavior block.
#[derive(Debug, PartialEq)]
pub struct Method {
    pub name: String,
    pub params: Vec<Param>,
    pub has_receiver: bool,
    pub is_public: bool,
    pub body: Vec<Stmt>,
}

/// A behavior block: methods grouped under one target type, optionally
/// tagged with a capability (the trait the block implements).
#[derive(Debug, PartialEq)]
pub struct BehaviorBlock {
    pub target: String,
    pub capability: Option<String>,
    pub methods: Vec<Method>,
}

/// One field of a type declaration.
#[derive(Debug, PartialEq)]
pub struct FieldDecl {
    pub name: String,
    pub ty: String,
}

/// A type declaration: the candidate for the contract's state type.
#[derive(Debug, PartialEq)]
pub struct TypeDeclaration {
    pub name: String,
    pub is_public: bool,
    pub fields: Vec<FieldDecl>,
}

/// The singleton state declaration synthesized by the pipeline: one live
/// instance of the contract's type, initialized from the rewritten
/// constructor expression.
#[derive(Debug, PartialEq)]
pub struct StateDeclaration {
    pub ty_name: String,
    pub init: Expr,
}

/// How a wrapper function reaches the method it bridges to.
#[derive(Debug, PartialEq)]
pub enum Dispatch {
    /// Through the singleton state instance (receiver methods).
    ThroughState,
    /// Statically on the named type (non-receiver methods).
    StaticOnType(String),
}

/// A generated wrapper function. Its exported signature is fixed (one size
/// descriptor in, one out); only the name, the decoded argument tuple and
/// the dispatch vary with the method.
#[derive(Debug, PartialEq)]
pub struct WrapperFunction {
    pub name: String,
    pub params: Vec<Param>,
    pub dispatch: Dispatch,
}

/// A top-level item of a module.
#[derive(Debug, PartialEq)]
pub enum Item {
    TypeDecl(TypeDeclaration),
    Behavior(BehaviorBlock),
    State(StateDeclaration),
    Opaque,
}

/// A module: an ordered sequence of top-level items.
#[derive(Debug, PartialEq)]
pub struct ModuleDeclaration {
    pub name: String,
    pub items: Vec<Item>,
}

/// The terminal diagnostics of the pipeline. Every failure is total: no
/// partial output accompanies an error.
#[derive(Clone, Copy, Debug, PartialEq, Eq, Structural)]
pub enum ContractError {
    MissingPublicType,
    MultiplePublicTypes,
    MissingConstructor,
}

/// The merged output of the pipeline: the module (behavior blocks stripped
/// of constructors, state appended) followed by the generated wrappers.
#[derive(Debug, PartialEq)]
pub struct ExpandedContract {
    pub module: ModuleDeclaration,
    pub wrappers: Vec<WrapperFunction>,
}

/// Mathematical view of `Param`.
#[verifier::ext_equal]
pub struct ParamV {
    pub name: Seq<char>,
    pub ty: Seq<char>,
}

/// Mathematical view of `Stmt`.
#[verifier::ext_equal]
pub enum StmtV {
    Bare(ExprV),
    Opaque,
}

/// Mathematical view of `Method`.
#[verifier::ext_equal]
pub struct MethodV {
    pub name: Seq<char>,
    pub params: Seq<ParamV>,
    pub has_receiver: bool,
    pub is_public: bool,
    pub body: Seq<StmtV>,
}

/// Mathematical view of `BehaviorBlock`.
#[verifier::ext_equal]
pub struct BlockV {
    pub target: Seq<char>,
    pub capability: Option<Seq<char>>,
    pub methods: Seq<MethodV>,
}

/// Mathematical view of `FieldDecl`.
#[verifier::ext_equal]
pub struct FieldDeclV {
    pub name: Seq<char>,
    pub ty: Seq<char>,
}

/// Mathematical view of `TypeDeclaration`.
#[verifier::ext_equal]
pub struct TypeDeclV {
    pub name: Seq<char>,
    pub is_public: bool,
    pub fields: Seq<FieldDeclV>,
}

/// Mathematical view of `StateDeclaration`.
#[verifier::ext_equal]
pub struct StateV {
    pub ty_name: Seq<char>,
    pub init: ExprV,
}

/// Mathematical view of `Dispatch`.
#[verifier::ext_equal]
pub enum DispatchV {
    ThroughState,
    StaticOnType(Seq<char>),
}

/// Mathematical view of `WrapperFunction`.
#[verifier::ext_equal]
pub struct WrapperV {
    pub name: Seq<char>,
    pub params: Seq<ParamV>,
    pub dispatch: DispatchV,
}

/// Mathematical view of `Item`.
#[verifier::ext_equal]
pub enum ItemV {
    TypeDecl(TypeDeclV),
    Behavior(BlockV),
    State(StateV),
    Opaque,
}

/// Mathematical view of `ModuleDeclaration`.
#[verifier::ext_equal]
pub struct ModuleV {
    pub name: Seq<char>,
    pub items: Seq<ItemV>,
}

/// Mathematical view of `ExpandedContract`.
#[verifier::ext_equal]
pub struct ExpandedV {
    pub module: ModuleV,
    pub wrappers: Seq<WrapperV>,
}

pub open spec fn param_view(p: Param) -> ParamV {
    ParamV { name: p.name@, ty: p.ty@ }
}

pub open spec fn params_view(ps: Seq<Param>) -> Seq<ParamV> {
    Seq::new(ps.len(), |i: int| param_view(ps[i]))
}

pub open spec fn stmt_view(s: Stmt) -> StmtV {
    match s {
        Stmt::Bare(e) => StmtV::Bare(expr_view(e)),
        Stmt::Opaque => StmtV::Opaque,
    }
}

pub open spec fn stmts_view(ss: Seq<Stmt>) -> Seq<StmtV> {
    Seq::new(ss.len(), |i: int| stmt_view(ss[i]))
}

pub open spec fn method_view(m: Method) -> MethodV {
    MethodV {
        name: m.name@,
        params: params_view(m.params@),
        has_receiver: m.has_receiver,
        is_public: m.is_public,
        body: stmts_view(m.body@),
    }
}

pub open spec fn methods_view(ms: Seq<Method>) -> Seq<MethodV> {
    Seq::new(ms.len(), |i: int| method_view(ms[i]))
}

pub open spec fn option_string_view(o: Option<String>) -> Option<Seq<char>> {
    match o {
        Option::Some(s) => Option::Some(s@),
        Option::None => Option::None,
    }
}

pub open spec fn block_view(b: BehaviorBlock) -> BlockV {
    BlockV {
        target: b.target@,
        capability: option_string_view(b.capability),
        methods: methods_view(b.methods@),
    }
}

pub open spec fn field_decl_view(f: FieldDecl) -> FieldDeclV {
    FieldDeclV { name: f.name@, ty: f.ty@ }
}

pub open spec fn type_decl_view(t: TypeDeclaration) -> TypeDeclV {
    TypeDeclV {
        name: t.name@,
        is_public: t.is_public,
        fields: Seq::new(t.fields@.len(), |i: int| field_decl_view(t.fields@[i])),
    }
}

pub open spec fn state_view(s: StateDeclaration) -> StateV {
    StateV { ty_name: s.ty_name@, init: expr_view(s.init) }
}

pub open spec fn dispatch_view(d: Dispatch) -> DispatchV {
    match d {
        Dispatch::ThroughState => DispatchV::ThroughState,
        Dispatch::StaticOnType(s) => DispatchV::StaticOnType(s@),
    }
}

pub open spec fn wrapper_view(w: WrapperFunction) -> WrapperV {
    WrapperV {
        name: w.name@,
        params: params_view(w.params@),
        dispatch: dispatch_view(w.dispatch),
    }
}

pub open spec fn wrappers_view(ws: Seq<WrapperFunction>) -> Seq<WrapperV> {
    Seq::new(ws.len(), |i: int| wrapper_view(ws[i]))
}

pub open spec fn blocks_seq_view(bs: Seq<BehaviorBlock>) -> Seq<BlockV> {
    Seq::new(bs.len(), |i: int| block_view(bs[i]))
}

pub open spec fn item_view(it: Item) -> ItemV {
    match it {
        Item::TypeDecl(t) => ItemV::TypeDecl(type_decl_view(t)),
        Item::Behavior(b) => ItemV::Behavior(block_view(b)),
        Item::State(s) => ItemV::State(state_view(s)),
        Item::Opaque => ItemV::Opaque,
    }
}

pub open spec fn items_view(its: Seq<Item>) -> Seq<ItemV> {
    Seq::new(its.len(), |i: int| item_view(its[i]))
}

pub open spec fn module_view(m: ModuleDeclaration) -> ModuleV {
    ModuleV { name: m.name@, items: items_view(m.items@) }
}

impl View for Param {
    type V = ParamV;

    open spec fn view(&self) -> ParamV {
        param_view(*self)
    }
}

impl View for Stmt {
    type V = StmtV;

    open spec fn view(&self) -> StmtV {
        stmt_view(*self)
    }
}

impl View for Method {
    type V = MethodV;

    open spec fn view(&self) -> MethodV {
        method_view(*self)
    }
}

impl View for BehaviorBlock {
    type V = BlockV;

    open spec fn view(&self) -> BlockV {
        block_view(*self)
    }
}

impl View for FieldDecl {
    type V = FieldDeclV;

    open spec fn view(&self) -> FieldDeclV {
        field_decl_view(*self)
    }
}

impl View for TypeDeclaration {
    type V = TypeDeclV;

    open spec fn view(&self) -> TypeDeclV {
        type_decl_view(*self)
    }
}

impl View for StateDeclaration {
    type V = StateV;

    open spec fn view(&self) -> StateV {
        state_view(*self)
    }
}

impl View for Dispatch {
    type V = DispatchV;

    open spec fn view(&self) -> DispatchV {
        dispatch_view(*self)
    }
}

impl View for WrapperFunction {
    type V = WrapperV;

    open spec fn view(&self) -> WrapperV {
        wrapper_view(*self)
    }
}

impl View for Item {
    type V = ItemV;

    open spec fn view(&self) -> ItemV {
        item_view(*self)
    }
}

impl View for ModuleDeclaration {
    type V = ModuleV;

    open spec fn view(&self) -> ModuleV {
        module_view(*self)
    }
}

impl View for ExpandedContract {
    type V = ExpandedV;

    open spec fn view(&self) -> ExpandedV {
        ExpandedV { module: module_view(self.module), wrappers: wrappers_view(self.wrappers@) }
    }
}


/// Deep copy of an expression tree, preserving its view.
#[verifier::loop_isolation(false)]
pub fn clone_expr(e: &Expr) -> (r: Expr)
    ensures
        r@ == e@,
    decreases *e,
{
    match e {
        Expr::Ref(p) => Expr::Ref(p.clone()),
        Expr::IntLit(n) => Expr::IntLit(*n),
        Expr::StructLit(p, fields) => {
            let mut out: Vec<FieldInit> = Vec::new();
            let mut i: usize = 0;
            while i < fields.len()
                invariant
                    i <= fields.len(),
                    out@.len() == i,
                    forall|j: int|
                        0 <= j < i ==> field_view(#[trigger] out@[j]) == field_view(fields@[j]),
                decreases fields.len() - i,
            {
                let f = &fields[i];
                proof {
                    assert(*fields == e->StructLit_1);
                    assert(decreases_to!(*e => e->StructLit_1));
                    assert(decreases_to!(e->StructLit_1 => fields@));
                    assert(decreases_to!(fields@ => fields@[i as int]));
                    assert(decreases_to!(fields@[i as int] => fields@[i as int].value));
                    assert(decreases_to!(*e => f.value));
                }
                let value = clone_expr(&f.value);
                out.push(FieldInit { name: f.name.clone(), value });
                i += 1;
            }
            let r = Expr::StructLit(p.clone(), out);
            proof {
                lemma_fields_view(r->StructLit_1@);
                lemma_fields_view(fields@);
                assert(fields_view(r->StructLit_1@) =~= fields_view(fields@));
            }
            r
        },
        Expr::Call(p, args) => {
            let mut out: Vec<Expr> = Vec::new();
            let mut i: usize = 0;
            while i < args.len()
                invariant
                    i <= args.len(),
                    out@.len() == i,
                    forall|j: int|
                        0 <= j < i ==> expr_view(#[trigger] out@[j]) == expr_view(args@[j]),
                decreases args.len() - i,
            {
                let a = &args[i];
                proof {
                    assert(*args == e->Call_1);
                    assert(decreases_to!(*e => e->Call_1));
                    assert(decreases_to!(e->Call_1 => args@));
                    assert(decreases_to!(args@ => args@[i as int]));
                    assert(decreases_to!(*e => *a));
                }
                let value = clone_expr(a);
                out.push(value);
                i += 1;
            }
            let r = Expr::Call(p.clone(), out);
            proof {
                lemma_exprs_view(r->Call_1@);
                lemma_exprs_view(args@);
                assert(exprs_view(r->Call_1@) =~= exprs_view(args@));
            }
            r
        },
    }
}

impl Clone for PathRef {
    fn clone(&self) -> (r: Self)
        ensures
            r@ == self@,
    {
        match self {
            PathRef::SelfRef => PathRef::SelfRef,
            PathRef::Named(s) => PathRef::Named(s.clone()),
        }
    }
}

impl Clone for Expr {
    fn clone(&self) -> (r: Self)
        ensures
            r@ == self@,
    {
        clone_expr(self)
    }
}

impl Clone for FieldInit {
    fn clone(&self) -> (r: Self)
        ensures
            r@ == self@,
    {
        FieldInit { name: self.name.clone(), value: clone_expr(&self.value) }
    }
}

impl Clone for Param {
    fn clone(&self) -> (r: Self)
        ensures
            r@ == self@,
    {
        Param { name: self.name.clone(), ty: self.ty.clone() }
    }
}

impl Clone for Stmt {
    fn clone(&self) -> (r: Self)
        ensures
            r@ == self@,
    {
        match self {
            Stmt::Bare(e) => Stmt::Bare(clone_expr(e)),
            Stmt::Opaque => Stmt::Opaque,
        }
    }
}

/// Deep copy of a parameter list, preserving its view.
#[verifier::loop_isolation(false)]
pub fn clone_params(ps: &Vec<Param>) -> (r: Vec<Param>)
    ensures
        params_view(r@) == params_view(ps@),
{
    let mut out: Vec<Param> = Vec::new();
    let mut i: usize = 0;
    while i < ps.len()
        invariant
            i <= ps.len(),
            out@.len() == i,
            forall|j: int| 0 <= j < i ==> param_view(#[trigger] out@[j]) == param_view(ps@[j]),
        decreases ps.len() - i,
    {
        out.push(ps[i].clone());
        i += 1;
    }
    proof {
        assert(params_view(out@) =~= params_view(ps@));
    }
    out
}

impl Clone for Method {
    fn clone(&self) -> (r: Self)
        ensures
            r@ == self@,
    {
        let params = clone_params(&self.params);
        let mut body: Vec<Stmt> = Vec::new();
        let mut i: usize = 0;
        while i < self.body.len()
            invariant
                i <= self.body.len(),
                body@.len() == i,
                forall|j: int|
                    0 <= j < i ==> stmt_view(#[trigger] body@[j]) == stmt_view(self.body@[j]),
            decreases self.body.len() - i,
        {
            body.push(self.body[i].clone());
            i += 1;
        }
        let r = Method {
            name: self.name.clone(),
            params,
            has_receiver: self.has_receiver,
            is_public: self.is_public,
            body,
        };
        proof {
            assert(stmts_view(r.body@) =~= stmts_view(self.body@));
            assert(r@ =~= self@);
        }
        r
    }
}

impl Clone for BehaviorBlock {
    fn clone(&self) -> (r: Self)
        ensures
            r@ == self@,
    {
        let capability = match &self.capability {
            Option::Some(s) => Option::Some(s.clone()),
            Option::None => Option::None,
        };
        let mut methods: Vec<Method> = Vec::new();
        let mut i: usize = 0;
        while i < self.methods.len()
            invariant
                i <= self.methods.len(),
                methods@.len() == i,
                forall|j: int|
                    0 <= j < i ==> method_view(#[trigger] methods@[j]) == method_view(
                        self.methods@[j],
                    ),
            decreases self.methods.len() - i,
        {
            methods.push(self.methods[i].clone());
            i += 1;
        }
        let r = BehaviorBlock { target: self.target.clone(), capability, methods };
        proof {
            assert(methods_view(r.methods@) =~= methods_view(self.methods@));
            assert(r@ =~= self@);
        }
        r
    }
}

impl Clone for FieldDecl {
    fn clone(&self) -> (r: Self)
        ensures
            r@ == self@,
    {
        FieldDecl { name: self.name.clone(), ty: self.ty.clone() }
    }
}

impl Clone for TypeDeclaration {
    fn clone(&self) -> (r: Self)
        ensures
            r@ == self@,
    {
        let mut fields: Vec<FieldDecl> = Vec::new();
        let mut i: usize = 0;
        while i < self.fields.len()
            invariant
                i <= self.fields.len(),
                fields@.len() == i,
                forall|j: int|
                    0 <= j < i ==> field_decl_view(#[trigger] fields@[j]) == field_decl_view(
                        self.fields@[j],
                    ),
            decreases self.fields.len() - i,
        {
            fields.push(self.fields[i].clone());
            i += 1;
        }
        let r = TypeDeclaration {
            name: self.name.clone(),
            is_public: self.is_public,
            fields,
        };
        proof {
            assert(r@ =~= self@);
        }
        r
    }
}

impl Clone for StateDeclaration {
    fn clone(&self) -> (r: Self)
        ensures
            r@ == self@,
    {
        StateDeclaration { ty_name: self.ty_name.clone(), init: clone_expr(&self.init) }
    }
}

impl Clone for Item {
    fn clone(&self) -> (r: Self)
        ensures
            r@ == self@,
    {
        match self {
            Item::TypeDecl(t) => Item::TypeDecl(t.clone()),
            Item::Behavior(b) => Item::Behavior(b.clone()),
            Item::State(s) => Item::State(s.clone()),
            Item::Opaque => Item::Opaque,
        }
    }
}

} // verus!
