use vstd::prelude::*;

verus! {

/// Source-position metadata. Every tree node carries one; the passes
/// propagate it unchanged and never compute over it.
#[derive(Clone, Copy, PartialEq, Eq, Structural, Debug)]
pub struct Pos {
    pub line: u64,
    pub col: u64,
}

/// Identity of a module. The `tag` is the process-wide unique numeric
/// discriminator assigned by whatever component constructs module ids;
/// two ids denote the same module exactly when their tags are equal.
#[derive(Clone, Copy, PartialEq, Eq, Structural, Debug, Hash)]
pub struct ModuleId {
    pub tag: u64,
}

/// An interned name. A name is either written in source, or the result of
/// hygienic renaming: the original name qualified with the owning module's
/// unique tag. Qualified names built from distinct tags can never collide,
/// and a qualified name never collides with a source-written one.
#[derive(PartialEq, Eq, Debug)]
pub enum Symbol {
    Named(String),
    Tagged(Box<Symbol>, u64),
}

/// A symbol together with the source position of its occurrence.
#[derive(PartialEq, Eq, Debug)]
pub struct CtxSym {
    pub pos: Pos,
    pub sym: Symbol,
}

/// Compile-time const expressions: sizes and range bounds that must be
/// known without full evaluation.
#[derive(PartialEq, Eq, Debug)]
pub struct ConstExpr {
    pub pos: Pos,
    pub kind: ConstKind,
}

#[derive(PartialEq, Eq, Debug)]
pub enum ConstKind {
    Sym(Symbol),
    Lit(u64),
    Plus(Box<ConstExpr>, Box<ConstExpr>),
    Mult(Box<ConstExpr>, Box<ConstExpr>),
}

/// Type expressions.
#[derive(PartialEq, Eq, Debug)]
pub struct TypeExpr {
    pub pos: Pos,
    pub kind: TypeKind,
}

#[derive(PartialEq, Eq, Debug)]
pub enum TypeKind {
    Sym(Symbol),
    Union(Box<TypeExpr>, Box<TypeExpr>),
    Vector(TypeList),
    Vectorof(Box<TypeExpr>, Box<ConstExpr>),
    NatRange(Box<ConstExpr>, Box<ConstExpr>),
}

#[derive(PartialEq, Eq, Debug)]
pub enum TypeList {
    Nil,
    Cons(Box<TypeExpr>, Box<TypeList>),
}

/// Binary operators; carried through the passes untouched.
#[derive(Clone, Copy, PartialEq, Eq, Structural, Debug)]
pub enum BinOp {
    Add,
    Sub,
    Mul,
    Div,
    Eq,
    Append,
}

/// Expression trees.
#[derive(PartialEq, Eq, Debug)]
pub struct Expr {
    pub pos: Pos,
    pub kind: ExprKind,
}

#[derive(PartialEq, Eq, Debug)]
pub enum ExprKind {
    LitNum(u64),
    LitVec(ExprList),
    LitStruct(Symbol, FieldList),
    Var(Symbol),
    CgVar(Symbol),
    Let(Symbol, Box<Expr>, Box<Expr>),
    If(Box<Expr>, Box<Expr>, Box<Expr>),
    BinOp(BinOp, Box<Expr>, Box<Expr>),
    Apply(Box<Expr>, ExprList),
    Field(Box<Expr>, Symbol),
    VectorRef(Box<Expr>, Box<Expr>),
    VectorSlice(Box<Expr>, Box<Expr>, Box<Expr>),
    VectorUpdate(Box<Expr>, Box<Expr>, Box<Expr>),
    Loop(Box<ConstExpr>, BindList, Box<Expr>),
    IsType(Symbol, Box<TypeExpr>),
    AsType(Box<Expr>, Box<TypeExpr>),
    Fail,
}

#[derive(PartialEq, Eq, Debug)]
pub enum ExprList {
    Nil,
    Cons(Box<Expr>, Box<ExprList>),
}

/// Struct-literal fields: field name paired with the value expression.
/// Field names are not subject to renaming.
#[derive(PartialEq, Eq, Debug)]
pub enum FieldList {
    Nil,
    Cons(Symbol, Box<Expr>, Box<FieldList>),
}

/// Named accumulator bindings of the bounded loop form.
#[derive(PartialEq, Eq, Debug)]
pub enum BindList {
    Nil,
    Cons(Symbol, Box<Expr>, Box<BindList>),
}

/// A function argument: name and type annotation.
#[derive(PartialEq, Eq, Debug)]
pub struct Param {
    pub pos: Pos,
    pub name: Symbol,
    pub bind: TypeExpr,
}

/// Top-level definitions.
#[derive(PartialEq, Eq, Debug)]
pub struct Defn {
    pub pos: Pos,
    pub kind: DefnKind,
}

#[derive(PartialEq, Eq, Debug)]
pub enum DefnKind {
    Function {
        name: CtxSym,
        cgvars: Vec<Symbol>,
        genvars: Vec<Symbol>,
        params: Vec<Param>,
        rettype: Option<TypeExpr>,
        body: Expr,
    },
    Struct {
        name: CtxSym,
        fields: Vec<Param>,
    },
    Constant {
        name: CtxSym,
        value: Expr,
    },
    Require(ModuleId),
    Provide(Symbol),
}

/// A module's parsed contents: top-level definitions plus one body expression.
#[derive(PartialEq, Eq, Debug)]
pub struct Program {
    pub defs: Vec<Defn>,
    pub body: Expr,
}

// ----- mathematical mirrors of the tree types, used by all contracts -----

pub enum SymV {
    Named(Seq<char>),
    Tagged(Box<SymV>, u64),
}

pub struct CtxSymV {
    pub pos: Pos,
    pub sym: SymV,
}

pub struct ConstExprV {
    pub pos: Pos,
    pub kind: ConstKindV,
}

pub enum ConstKindV {
    Sym(SymV),
    Lit(u64),
    Plus(Box<ConstExprV>, Box<ConstExprV>),
    Mult(Box<ConstExprV>, Box<ConstExprV>),
}

pub struct TypeExprV {
    pub pos: Pos,
    pub kind: TypeKindV,
}

pub enum TypeKindV {
    Sym(SymV),
    Union(Box<TypeExprV>, Box<TypeExprV>),
    Vector(Box<TypeListV>),
    Vectorof(Box<TypeExprV>, Box<ConstExprV>),
    NatRange(Box<ConstExprV>, Box<ConstExprV>),
}

pub enum TypeListV {
    Nil,
    Cons(Box<TypeExprV>, Box<TypeListV>),
}

pub struct ExprV {
    pub pos: Pos,
    pub kind: ExprKindV,
}

pub enum ExprKindV {
    LitNum(u64),
    LitVec(Box<ExprListV>),
    LitStruct(SymV, Box<FieldListV>),
    Var(SymV),
    CgVar(SymV),
    Let(SymV, Box<ExprV>, Box<ExprV>),
    If(Box<ExprV>, Box<ExprV>, Box<ExprV>),
    BinOp(BinOp, Box<ExprV>, Box<ExprV>),
    Apply(Box<ExprV>, Box<ExprListV>),
    Field(Box<ExprV>, SymV),
    VectorRef(Box<ExprV>, Box<ExprV>),
    VectorSlice(Box<ExprV>, Box<ExprV>, Box<ExprV>),
    VectorUpdate(Box<ExprV>, Box<ExprV>, Box<ExprV>),
    Loop(Box<ConstExprV>, Box<BindListV>, Box<ExprV>),
    IsType(SymV, Box<TypeExprV>),
    AsType(Box<ExprV>, Box<TypeExprV>),
    Fail,
}

pub enum ExprListV {
    Nil,
    Cons(Box<ExprV>, Box<ExprListV>),
}

pub enum FieldListV {
    Nil,
    Cons(SymV, Box<ExprV>, Box<FieldListV>),
}

pub enum BindListV {
    Nil,
    Cons(SymV, Box<ExprV>, Box<BindListV>),
}

pub struct ParamV {
    pub pos: Pos,
    pub name: SymV,
    pub bind: TypeExprV,
}

pub struct DefnV {
    pub pos: Pos,
    pub kind: DefnKindV,
}

pub enum DefnKindV {
    Function {
        name: CtxSymV,
        cgvars: Seq<SymV>,
        genvars: Seq<SymV>,
        params: Seq<ParamV>,
        rettype: Option<TypeExprV>,
        body: ExprV,
    },
    Struct {
        name: CtxSymV,
        fields: Seq<ParamV>,
    },
    Constant {
        name: CtxSymV,
        value: ExprV,
    },
    Require(ModuleId),
    Provide(SymV),
}

pub struct ProgV {
    pub defs: Seq<DefnV>,
    pub body: ExprV,
}

// ----- views -----

pub open spec fn sym_view(s: Symbol) -> SymV
    decreases s,
{
    match s {
        Symbol::Named(t) => SymV::Named(t@),
        Symbol::Tagged(b, tag) => SymV::Tagged(Box::new(sym_view(*b)), tag),
    }
}

impl View for Symbol {
    type V = SymV;

    open spec fn view(&self) -> SymV {
        sym_view(*self)
    }
}

impl View for CtxSym {
    type V = CtxSymV;

    open spec fn view(&self) -> CtxSymV {
        CtxSymV { pos: self.pos, sym: self.sym@ }
    }
}

pub open spec fn const_view(c: ConstExpr) -> ConstExprV
    decreases c,
{
    ConstExprV {
        pos: c.pos,
        kind: match c.kind {
            ConstKind::Sym(s) => ConstKindV::Sym(s@),
            ConstKind::Lit(l) => ConstKindV::Lit(l),
            ConstKind::Plus(a, b) => ConstKindV::Plus(
                Box::new(const_view(*a)),
                Box::new(const_view(*b)),
            ),
            ConstKind::Mult(a, b) => ConstKindV::Mult(
                Box::new(const_view(*a)),
                Box::new(const_view(*b)),
            ),
        },
    }
}

impl View for ConstExpr {
    type V = ConstExprV;

    open spec fn view(&self) -> ConstExprV {
        const_view(*self)
    }
}

pub open spec fn type_view(t: TypeExpr) -> TypeExprV
    decreases t,
{
    TypeExprV {
        pos: t.pos,
        kind: match t.kind {
            TypeKind::Sym(s) => TypeKindV::Sym(s@),
            TypeKind::Union(a, b) => TypeKindV::Union(
                Box::new(type_view(*a)),
                Box::new(type_view(*b)),
            ),
            TypeKind::Vector(l) => TypeKindV::Vector(Box::new(type_list_view(l))),
            TypeKind::Vectorof(a, n) => TypeKindV::Vectorof(
                Box::new(type_view(*a)),
                Box::new(const_view(*n)),
            ),
            TypeKind::NatRange(i, j) => TypeKindV::NatRange(
                Box::new(const_view(*i)),
                Box::new(const_view(*j)),
            ),
        },
    }
}

pub open spec fn type_list_view(l: TypeList) -> TypeListV
    decreases l,
{
    match l {
        TypeList::Nil => TypeListV::Nil,
        TypeList::Cons(h, t) => TypeListV::Cons(
            Box::new(type_view(*h)),
            Box::new(type_list_view(*t)),
        ),
    }
}

impl View for TypeExpr {
    type V = TypeExprV;

    open spec fn view(&self) -> TypeExprV {
        type_view(*self)
    }
}

impl View for TypeList {
    type V = TypeListV;

    open spec fn view(&self) -> TypeListV {
        type_list_view(*self)
    }
}

pub open spec fn expr_view(e: Expr) -> ExprV
    decreases e,
{
    ExprV {
        pos: e.pos,
        kind: match e.kind {
            ExprKind::LitNum(n) => ExprKindV::LitNum(n),
            ExprKind::LitVec(l) => ExprKindV::LitVec(Box::new(expr_list_view(l))),
            ExprKind::LitStruct(s, fs) => ExprKindV::LitStruct(s@, Box::new(field_list_view(fs))),
            ExprKind::Var(s) => ExprKindV::Var(s@),
            ExprKind::CgVar(s) => ExprKindV::CgVar(s@),
            ExprKind::Let(x, b, body) => ExprKindV::Let(
                x@,
                Box::new(expr_view(*b)),
                Box::new(expr_view(*body)),
            ),
            ExprKind::If(c, a, b) => ExprKindV::If(
                Box::new(expr_view(*c)),
                Box::new(expr_view(*a)),
                Box::new(expr_view(*b)),
            ),
            ExprKind::BinOp(op, a, b) => ExprKindV::BinOp(
                op,
                Box::new(expr_view(*a)),
                Box::new(expr_view(*b)),
            ),
            ExprKind::Apply(f, args) => ExprKindV::Apply(
                Box::new(expr_view(*f)),
                Box::new(expr_list_view(args)),
            ),
            ExprKind::Field(a, f) => ExprKindV::Field(Box::new(expr_view(*a)), f@),
            ExprKind::VectorRef(v, i) => ExprKindV::VectorRef(
                Box::new(expr_view(*v)),
                Box::new(expr_view(*i)),
            ),
            ExprKind::VectorSlice(v, i, j) => ExprKindV::VectorSlice(
                Box::new(expr_view(*v)),
                Box::new(expr_view(*i)),
                Box::new(expr_view(*j)),
            ),
            ExprKind::VectorUpdate(v, i, x) => ExprKindV::VectorUpdate(
                Box::new(expr_view(*v)),
                Box::new(expr_view(*i)),
                Box::new(expr_view(*x)),
            ),
            ExprKind::Loop(n, binds, end) => ExprKindV::Loop(
                Box::new(const_view(*n)),
                Box::new(bind_list_view(binds)),
                Box::new(expr_view(*end)),
            ),
            ExprKind::IsType(s, t) => ExprKindV::IsType(s@, Box::new(type_view(*t))),
            ExprKind::AsType(a, t) => ExprKindV::AsType(
                Box::new(expr_view(*a)),
                Box::new(type_view(*t)),
            ),
            ExprKind::Fail => ExprKindV::Fail,
        },
    }
}

pub open spec fn expr_list_view(l: ExprList) -> ExprListV
    decreases l,
{
    match l {
        ExprList::Nil => ExprListV::Nil,
        ExprList::Cons(h, t) => ExprListV::Cons(
            Box::new(expr_view(*h)),
            Box::new(expr_list_view(*t)),
        ),
    }
}

pub open spec fn field_list_view(l: FieldList) -> FieldListV
    decreases l,
{
    match l {
        FieldList::Nil => FieldListV::Nil,
        FieldList::Cons(k, v, t) => FieldListV::Cons(
            k@,
            Box::new(expr_view(*v)),
            Box::new(field_list_view(*t)),
        ),
    }
}

pub open spec fn bind_list_view(l: BindList) -> BindListV
    decreases l,
{
    match l {
        BindList::Nil => BindListV::Nil,
        BindList::Cons(k, v, t) => BindListV::Cons(
            k@,
            Box::new(expr_view(*v)),
            Box::new(bind_list_view(*t)),
        ),
    }
}

impl View for Expr {
    type V = ExprV;

    open spec fn view(&self) -> ExprV {
        expr_view(*self)
    }
}

impl View for ExprList {
    type V = ExprListV;

    open spec fn view(&self) -> ExprListV {
        expr_list_view(*self)
    }
}

impl View for FieldList {
    type V = FieldListV;

    open spec fn view(&self) -> FieldListV {
        field_list_view(*self)
    }
}

impl View for BindList {
    type V = BindListV;

    open spec fn view(&self) -> BindListV {
        bind_list_view(*self)
    }
}

impl View for Param {
    type V = ParamV;

    open spec fn view(&self) -> ParamV {
        ParamV { pos: self.pos, name: self.name@, bind: self.bind@ }
    }
}

pub open spec fn syms_view(s: Seq<Symbol>) -> Seq<SymV> {
    s.map_values(|x: Symbol| x@)
}

pub open spec fn params_view(s: Seq<Param>) -> Seq<ParamV> {
    s.map_values(|p: Param| p@)
}

pub open spec fn defn_view(d: Defn) -> DefnV {
    DefnV {
        pos: d.pos,
        kind: match d.kind {
            DefnKind::Function { name, cgvars, genvars, params, rettype, body } => {
                DefnKindV::Function {
                    name: name@,
                    cgvars: syms_view(cgvars@),
                    genvars: syms_view(genvars@),
                    params: params_view(params@),
                    rettype: match rettype {
                        Option::Some(rt) => Option::Some(rt@),
                        Option::None => Option::None,
                    },
                    body: body@,
                }
            },
            DefnKind::Struct { name, fields } => DefnKindV::Struct {
                name: name@,
                fields: params_view(fields@),
            },
            DefnKind::Constant { name, value } => DefnKindV::Constant {
                name: name@,
                value: value@,
            },
            DefnKind::Require(m) => DefnKindV::Require(m),
            DefnKind::Provide(s) => DefnKindV::Provide(s@),
        },
    }
}

impl View for Defn {
    type V = DefnV;

    open spec fn view(&self) -> DefnV {
        defn_view(*self)
    }
}

pub open spec fn defs_view(s: Seq<Defn>) -> Seq<DefnV> {
    s.map_values(|d: Defn| d@)
}

impl View for Program {
    type V = ProgV;

    open spec fn view(&self) -> ProgV {
        ProgV { defs: defs_view(self.defs@), body: self.body@ }
    }
}

} // verus!
