use vstd::prelude::*;

use crate::ast::{
    BindList, BindListV, ConstExpr, ConstExprV, ConstKind, ConstKindV, CtxSym, CtxSymV, Defn,
    DefnKind, DefnKindV, DefnV, Expr, ExprKind, ExprKindV, ExprList, ExprListV, ExprV, FieldList,
    FieldListV, ModuleId, Param, ParamV, Program, SymV, Symbol, TypeExpr, TypeExprV, TypeKind,
    TypeKindV, TypeList, TypeListV, defs_view, params_view, syms_view,
};

verus! {

// ----- symbol sets: the do-not-mangle ("provided or locally bound") sets -----

/// The set of names denoted by a sequence of symbols.
pub open spec fn symset(vs: Seq<SymV>) -> Set<SymV> {
    Set::new(|v: SymV| exists|i: int| 0 <= i < vs.len() && vs[i] == v)
}

pub proof fn lemma_symset_concat(a: Seq<SymV>, b: Seq<SymV>)
    ensures
        symset(a + b) =~= symset(a).union(symset(b)),
{
    assert forall|v: SymV| symset(a + b).contains(v) implies symset(a).union(
        symset(b),
    ).contains(v) by {
        let i = choose|i: int| 0 <= i < (a + b).len() && (a + b)[i] == v;
        if i < a.len() {
            assert(a[i] == v);
        } else {
            assert(b[i - a.len()] == v);
        }
    }
    assert forall|v: SymV| symset(a).union(symset(b)).contains(v) implies symset(
        a + b,
    ).contains(v) by {
        if symset(a).contains(v) {
            let i = choose|i: int| 0 <= i < a.len() && a[i] == v;
            assert((a + b)[i] == v);
        } else {
            let i = choose|i: int| 0 <= i < b.len() && b[i] == v;
            assert((a + b)[a.len() + i] == v);
        }
    }
}

pub proof fn lemma_symset_push(a: Seq<SymV>, v: SymV)
    ensures
        symset(a.push(v)) =~= symset(a).insert(v),
{
    assert(a.push(v) =~= a + seq![v]);
    lemma_symset_concat(a, seq![v]);
    assert(symset(seq![v]) =~= Set::<SymV>::empty().insert(v)) by {
        assert(seq![v][0] == v);
    }
}

pub proof fn lemma_take_step<A>(s: Seq<A>, i: int)
    requires
        0 <= i < s.len(),
    ensures
        s.take(i + 1) == s.take(i).push(s[i]),
{
    assert(s.take(i + 1) =~= s.take(i).push(s[i]));
}

pub proof fn lemma_push_concat<A>(a: Seq<A>, b: Seq<A>, x: A)
    ensures
        (a + b).push(x) == a + b.push(x),
{
    assert((a + b).push(x) =~= a + b.push(x));
}

pub proof fn lemma_syms_view_push(s: Seq<Symbol>, x: Symbol)
    ensures
        syms_view(s.push(x)) == syms_view(s).push(x@),
{
    assert(syms_view(s.push(x)).len() == s.push(x).len());
    assert(syms_view(s).len() == s.len());
    assert(syms_view(s.push(x)) =~= syms_view(s).push(x@));
}

pub proof fn lemma_params_view_push(s: Seq<Param>, x: Param)
    ensures
        params_view(s.push(x)) == params_view(s).push(x@),
{
    assert(params_view(s.push(x)).len() == s.push(x).len());
    assert(params_view(s).len() == s.len());
    assert(params_view(s.push(x)) =~= params_view(s).push(x@));
}

pub proof fn lemma_defs_view_concat(a: Seq<Defn>, b: Seq<Defn>)
    ensures
        defs_view(a + b) == defs_view(a) + defs_view(b),
{
    assert(defs_view(a + b).len() == (a + b).len());
    assert(defs_view(a).len() == a.len());
    assert(defs_view(b).len() == b.len());
    assert(defs_view(a + b) =~= defs_view(a) + defs_view(b));
}

pub proof fn lemma_defs_view_push(s: Seq<Defn>, x: Defn)
    ensures
        defs_view(s.push(x)) == defs_view(s).push(x@),
{
    assert(defs_view(s.push(x)).len() == s.push(x).len());
    assert(defs_view(s).len() == s.len());
    assert(defs_view(s.push(x)) =~= defs_view(s).push(x@));
}

// ----- the renaming rule, stated over the mirrors -----

/// The rule for one symbol: a member of the do-not-mangle set passes through
/// unchanged; any other name is qualified with the owning module's tag.
pub open spec fn spec_mangle_sym(s: SymV, source: ModuleId, ns: Set<SymV>) -> SymV {
    if ns.contains(s) {
        s
    } else {
        SymV::Tagged(Box::new(s), source.tag)
    }
}

pub open spec fn spec_mangle_ctx_sym(s: CtxSymV, source: ModuleId, ns: Set<SymV>) -> CtxSymV {
    CtxSymV { pos: s.pos, sym: spec_mangle_sym(s.sym, source, ns) }
}

pub open spec fn spec_mangle_const(c: ConstExprV, source: ModuleId, ns: Set<SymV>) -> ConstExprV
    decreases c,
{
    ConstExprV {
        pos: c.pos,
        kind: match c.kind {
            ConstKindV::Sym(s) => ConstKindV::Sym(spec_mangle_sym(s, source, ns)),
            ConstKindV::Lit(l) => ConstKindV::Lit(l),
            ConstKindV::Plus(a, b) => ConstKindV::Plus(
                Box::new(spec_mangle_const(*a, source, ns)),
                Box::new(spec_mangle_const(*b, source, ns)),
            ),
            ConstKindV::Mult(a, b) => ConstKindV::Mult(
                Box::new(spec_mangle_const(*a, source, ns)),
                Box::new(spec_mangle_const(*b, source, ns)),
            ),
        },
    }
}

pub open spec fn spec_mangle_type(t: TypeExprV, source: ModuleId, ns: Set<SymV>) -> TypeExprV
    decreases t,
{
    TypeExprV {
        pos: t.pos,
        kind: match t.kind {
            TypeKindV::Sym(s) => TypeKindV::Sym(spec_mangle_sym(s, source, ns)),
            TypeKindV::Union(a, b) => TypeKindV::Union(
                Box::new(spec_mangle_type(*a, source, ns)),
                Box::new(spec_mangle_type(*b, source, ns)),
            ),
            TypeKindV::Vector(l) => TypeKindV::Vector(
                Box::new(spec_mangle_type_list(*l, source, ns)),
            ),
            TypeKindV::Vectorof(a, n) => TypeKindV::Vectorof(
                Box::new(spec_mangle_type(*a, source, ns)),
                Box::new(spec_mangle_const(*n, source, ns)),
            ),
            TypeKindV::NatRange(i, j) => TypeKindV::NatRange(
                Box::new(spec_mangle_const(*i, source, ns)),
                Box::new(spec_mangle_const(*j, source, ns)),
            ),
        },
    }
}

pub open spec fn spec_mangle_type_list(l: TypeListV, source: ModuleId, ns: Set<SymV>) -> TypeListV
    decreases l,
{
    match l {
        TypeListV::Nil => TypeListV::Nil,
        TypeListV::Cons(h, t) => TypeListV::Cons(
            Box::new(spec_mangle_type(*h, source, ns)),
            Box::new(spec_mangle_type_list(*t, source, ns)),
        ),
    }
}

/// The scope-aware traversal of expressions. The do-not-mangle set `ns` is
/// extended, never globally, when the traversal enters a binding form: a
/// `Let` body sees the bound name added, while the bound value is traversed
/// under the enclosing set, since it executes before the binding exists.
pub open spec fn spec_mangle_expr(e: ExprV, source: ModuleId, ns: Set<SymV>) -> ExprV
    decreases e,
{
    ExprV {
        pos: e.pos,
        kind: match e.kind {
            ExprKindV::LitNum(n) => ExprKindV::LitNum(n),
            ExprKindV::LitVec(l) => ExprKindV::LitVec(
                Box::new(spec_mangle_expr_list(*l, source, ns)),
            ),
            ExprKindV::LitStruct(s, fs) => ExprKindV::LitStruct(
                spec_mangle_sym(s, source, ns),
                Box::new(spec_mangle_field_list(*fs, source, ns)),
            ),
            ExprKindV::Var(s) => ExprKindV::Var(spec_mangle_sym(s, source, ns)),
            ExprKindV::CgVar(s) => ExprKindV::CgVar(spec_mangle_sym(s, source, ns)),
            ExprKindV::Let(x, b, body) => ExprKindV::Let(
                x,
                Box::new(spec_mangle_expr(*b, source, ns)),
                Box::new(spec_mangle_expr(*body, source, ns.insert(x))),
            ),
            ExprKindV::If(c, a, b) => ExprKindV::If(
                Box::new(spec_mangle_expr(*c, source, ns)),
                Box::new(spec_mangle_expr(*a, source, ns)),
                Box::new(spec_mangle_expr(*b, source, ns)),
            ),
            ExprKindV::BinOp(op, a, b) => ExprKindV::BinOp(
                op,
                Box::new(spec_mangle_expr(*a, source, ns)),
                Box::new(spec_mangle_expr(*b, source, ns)),
            ),
            ExprKindV::Apply(f, args) => ExprKindV::Apply(
                Box::new(spec_mangle_expr(*f, source, ns)),
                Box::new(spec_mangle_expr_list(*args, source, ns)),
            ),
            ExprKindV::Field(a, f) => ExprKindV::Field(
                Box::new(spec_mangle_expr(*a, source, ns)),
                f,
            ),
            ExprKindV::VectorRef(v, i) => ExprKindV::VectorRef(
                Box::new(spec_mangle_expr(*v, source, ns)),
                Box::new(spec_mangle_expr(*i, source, ns)),
            ),
            ExprKindV::VectorSlice(v, i, j) => ExprKindV::VectorSlice(
                Box::new(spec_mangle_expr(*v, source, ns)),
                Box::new(spec_mangle_expr(*i, source, ns)),
                Box::new(spec_mangle_expr(*j, source, ns)),
            ),
            ExprKindV::VectorUpdate(v, i, x) => ExprKindV::VectorUpdate(
                Box::new(spec_mangle_expr(*v, source, ns)),
                Box::new(spec_mangle_expr(*i, source, ns)),
                Box::new(spec_mangle_expr(*x, source, ns)),
            ),
            ExprKindV::Loop(n, binds, end) => ExprKindV::Loop(
                Box::new(spec_mangle_const(*n, source, ns)),
                Box::new(spec_mangle_bind_list(*binds, source, ns)),
                Box::new(spec_mangle_expr(*end, source, ns)),
            ),
            ExprKindV::IsType(s, t) => ExprKindV::IsType(
                spec_mangle_sym(s, source, ns),
                Box::new(spec_mangle_type(*t, source, ns)),
            ),
            ExprKindV::AsType(a, t) => ExprKindV::AsType(
                Box::new(spec_mangle_expr(*a, source, ns)),
                Box::new(spec_mangle_type(*t, source, ns)),
            ),
            ExprKindV::Fail => ExprKindV::Fail,
        },
    }
}

pub open spec fn spec_mangle_expr_list(l: ExprListV, source: ModuleId, ns: Set<SymV>) -> ExprListV
    decreases l,
{
    match l {
        ExprListV::Nil => ExprListV::Nil,
        ExprListV::Cons(h, t) => ExprListV::Cons(
            Box::new(spec_mangle_expr(*h, source, ns)),
            Box::new(spec_mangle_expr_list(*t, source, ns)),
        ),
    }
}

/// Struct-literal fields: the field names pass through; only the value
/// expressions are traversed.
pub open spec fn spec_mangle_field_list(
    l: FieldListV,
    source: ModuleId,
    ns: Set<SymV>,
) -> FieldListV
    decreases l,
{
    match l {
        FieldListV::Nil => FieldListV::Nil,
        FieldListV::Cons(k, v, t) => FieldListV::Cons(
            k,
            Box::new(spec_mangle_expr(*v, source, ns)),
            Box::new(spec_mangle_field_list(*t, source, ns)),
        ),
    }
}

/// Loop accumulator bindings: each bound name is treated as a plain symbol
/// reference at its position, so it is renamed under the current set.
pub open spec fn spec_mangle_bind_list(l: BindListV, source: ModuleId, ns: Set<SymV>) -> BindListV
    decreases l,
{
    match l {
        BindListV::Nil => BindListV::Nil,
        BindListV::Cons(k, v, t) => BindListV::Cons(
            spec_mangle_sym(k, source, ns),
            Box::new(spec_mangle_expr(*v, source, ns)),
            Box::new(spec_mangle_bind_list(*t, source, ns)),
        ),
    }
}

pub open spec fn param_names(ps: Seq<ParamV>) -> Seq<SymV> {
    ps.map_values(|p: ParamV| p.name)
}

/// The set in force inside a function: the outer set plus the function's
/// compile-time-generic names, generic names, and argument names.
pub open spec fn inner_scope(
    ns: Set<SymV>,
    cgvars: Seq<SymV>,
    genvars: Seq<SymV>,
    params: Seq<ParamV>,
) -> Set<SymV> {
    ns.union(symset(cgvars)).union(symset(genvars)).union(symset(param_names(params)))
}

/// Renaming of one definition. A function's own name is renamed under the
/// outer set; its argument types and body under the inner set; its return
/// type under the outer set. A struct renames only its own name. A constant
/// renames its name like a function's and traverses its value under the
/// unchanged set (a constant binds nothing).
pub open spec fn spec_mangle_defn(d: DefnV, source: ModuleId, ns: Set<SymV>) -> DefnV {
    DefnV {
        pos: d.pos,
        kind: match d.kind {
            DefnKindV::Function { name, cgvars, genvars, params, rettype, body } => {
                let inner = inner_scope(ns, cgvars, genvars, params);
                DefnKindV::Function {
                    name: spec_mangle_ctx_sym(name, source, ns),
                    cgvars,
                    genvars,
                    params: params.map_values(
                        |p: ParamV| ParamV {
                            pos: p.pos,
                            name: p.name,
                            bind: spec_mangle_type(p.bind, source, inner),
                        },
                    ),
                    rettype: match rettype {
                        Option::Some(rt) => Option::Some(spec_mangle_type(rt, source, ns)),
                        Option::None => Option::None,
                    },
                    body: spec_mangle_expr(body, source, inner),
                }
            },
            DefnKindV::Struct { name, fields } => DefnKindV::Struct {
                name: spec_mangle_ctx_sym(name, source, ns),
                fields,
            },
            DefnKindV::Constant { name, value } => DefnKindV::Constant {
                name: spec_mangle_ctx_sym(name, source, ns),
                value: spec_mangle_expr(value, source, ns),
            },
            DefnKindV::Require(m) => DefnKindV::Require(m),
            DefnKindV::Provide(s) => DefnKindV::Provide(s),
        },
    }
}

/// The names a definition sequence marks as provided: its do-not-mangle seed.
pub open spec fn spec_provides(defs: Seq<DefnV>) -> Set<SymV> {
    Set::new(|v: SymV| exists|i: int| 0 <= i < defs.len() && defs[i].kind == DefnKindV::Provide(v))
}

pub proof fn lemma_provides_push(s: Seq<DefnV>, d: DefnV)
    ensures
        spec_provides(s.push(d)) =~= (match d.kind {
            DefnKindV::Provide(x) => spec_provides(s).insert(x),
            _ => spec_provides(s),
        }),
{
    assert forall|v: SymV| spec_provides(s.push(d)).contains(v) implies (match d.kind {
        DefnKindV::Provide(x) => spec_provides(s).insert(x),
        _ => spec_provides(s),
    }).contains(v) by {
        let i = choose|i: int|
            0 <= i < s.push(d).len() && s.push(d)[i].kind == DefnKindV::Provide(v);
        if i < s.len() {
            assert(s[i].kind == DefnKindV::Provide(v));
        }
    }
    assert forall|v: SymV| (match d.kind {
        DefnKindV::Provide(x) => spec_provides(s).insert(x),
        _ => spec_provides(s),
    }).contains(v) implies spec_provides(s.push(d)).contains(v) by {
        if spec_provides(s).contains(v) {
            let i = choose|i: int| 0 <= i < s.len() && s[i].kind == DefnKindV::Provide(v);
            assert(s.push(d)[i].kind == DefnKindV::Provide(v));
        } else {
            assert(s.push(d)[s.len() as int].kind == DefnKindV::Provide(v));
        }
    }
}

/// What one definition contributes to the renamed sequence: `Require` and
/// `Provide` are consumed; everything else is renamed.
pub open spec fn spec_mangle_one(d: DefnV, source: ModuleId, ns: Set<SymV>) -> Seq<DefnV> {
    match d.kind {
        DefnKindV::Require(_) => Seq::empty(),
        DefnKindV::Provide(_) => Seq::empty(),
        _ => seq![spec_mangle_defn(d, source, ns)],
    }
}

pub open spec fn spec_mangle_defs_with(
    defs: Seq<DefnV>,
    source: ModuleId,
    ns: Set<SymV>,
) -> Seq<DefnV>
    decreases defs.len(),
{
    if defs.len() == 0 {
        Seq::empty()
    } else {
        spec_mangle_defs_with(defs.drop_last(), source, ns) + spec_mangle_one(
            defs.last(),
            source,
            ns,
        )
    }
}

/// The whole renaming of an inlined module's definition sequence: the
/// do-not-mangle set is seeded from the sequence's own `Provide` markers.
pub open spec fn spec_mangle_defs(defs: Seq<DefnV>, source: ModuleId) -> Seq<DefnV> {
    spec_mangle_defs_with(defs, source, spec_provides(defs))
}

// ----- executable code -----

/// Name equality.
fn sym_eq(a: &Symbol, b: &Symbol) -> (r: bool)
    ensures
        r == (a@ == b@),
    decreases a,
{
    match (a, b) {
        (Symbol::Named(x), Symbol::Named(y)) => *x == *y,
        (Symbol::Tagged(b1, t1), Symbol::Tagged(b2, t2)) => *t1 == *t2 && sym_eq(b1, b2),
        _ => false,
    }
}

/// Membership in a do-not-mangle set.
fn contains_sym(ns: &Vec<Symbol>, s: &Symbol) -> (r: bool)
    ensures
        r == symset(syms_view(ns@)).contains(s@),
{
    let mut i: usize = 0;
    while i < ns.len()
        invariant
            0 <= i <= ns.len(),
            forall|j: int| 0 <= j < i ==> syms_view(ns@)[j] != s@,
        decreases ns.len() - i,
    {
        if sym_eq(&ns[i], s) {
            assert(syms_view(ns@)[i as int] == s@);
            return true;
        }
        i += 1;
    }
    assert(!symset(syms_view(ns@)).contains(s@));
    false
}

// ----- structure-preserving copies, each proved to keep the view -----

pub fn copy_sym(s: &Symbol) -> (r: Symbol)
    ensures
        r@ == s@,
    decreases s,
{
    match s {
        Symbol::Named(x) => Symbol::Named(x.clone()),
        Symbol::Tagged(b, t) => Symbol::Tagged(Box::new(copy_sym(b)), *t),
    }
}

pub fn copy_ctx_sym(s: &CtxSym) -> (r: CtxSym)
    ensures
        r@ == s@,
{
    CtxSym { pos: s.pos, sym: copy_sym(&s.sym) }
}

pub fn copy_const_expr(c: &ConstExpr) -> (r: ConstExpr)
    ensures
        r@ == c@,
    decreases c,
{
    ConstExpr {
        pos: c.pos,
        kind: match &c.kind {
            ConstKind::Sym(s) => ConstKind::Sym(copy_sym(s)),
            ConstKind::Lit(l) => ConstKind::Lit(*l),
            ConstKind::Plus(a, b) => ConstKind::Plus(
                Box::new(copy_const_expr(a)),
                Box::new(copy_const_expr(b)),
            ),
            ConstKind::Mult(a, b) => ConstKind::Mult(
                Box::new(copy_const_expr(a)),
                Box::new(copy_const_expr(b)),
            ),
        },
    }
}

pub fn copy_type_expr(t: &TypeExpr) -> (r: TypeExpr)
    ensures
        r@ == t@,
    decreases t,
{
    TypeExpr {
        pos: t.pos,
        kind: match &t.kind {
            TypeKind::Sym(s) => TypeKind::Sym(copy_sym(s)),
            TypeKind::Union(a, b) => TypeKind::Union(
                Box::new(copy_type_expr(a)),
                Box::new(copy_type_expr(b)),
            ),
            TypeKind::Vector(l) => TypeKind::Vector(copy_type_list(l)),
            TypeKind::Vectorof(a, n) => TypeKind::Vectorof(
                Box::new(copy_type_expr(a)),
                Box::new(copy_const_expr(n)),
            ),
            TypeKind::NatRange(i, j) => TypeKind::NatRange(
                Box::new(copy_const_expr(i)),
                Box::new(copy_const_expr(j)),
            ),
        },
    }
}

pub fn copy_type_list(l: &TypeList) -> (r: TypeList)
    ensures
        r@ == l@,
    decreases l,
{
    match l {
        TypeList::Nil => TypeList::Nil,
        TypeList::Cons(h, t) => TypeList::Cons(
            Box::new(copy_type_expr(h)),
            Box::new(copy_type_list(t)),
        ),
    }
}

pub fn copy_expr(e: &Expr) -> (r: Expr)
    ensures
        r@ == e@,
    decreases e,
{
    Expr {
        pos: e.pos,
        kind: match &e.kind {
            ExprKind::LitNum(n) => ExprKind::LitNum(*n),
            ExprKind::LitVec(l) => ExprKind::LitVec(copy_expr_list(l)),
            ExprKind::LitStruct(s, fs) => ExprKind::LitStruct(copy_sym(s), copy_field_list(fs)),
            ExprKind::Var(s) => ExprKind::Var(copy_sym(s)),
            ExprKind::CgVar(s) => ExprKind::CgVar(copy_sym(s)),
            ExprKind::Let(x, b, body) => ExprKind::Let(
                copy_sym(x),
                Box::new(copy_expr(b)),
                Box::new(copy_expr(body)),
            ),
            ExprKind::If(c, a, b) => ExprKind::If(
                Box::new(copy_expr(c)),
                Box::new(copy_expr(a)),
                Box::new(copy_expr(b)),
            ),
            ExprKind::BinOp(op, a, b) => ExprKind::BinOp(
                *op,
                Box::new(copy_expr(a)),
                Box::new(copy_expr(b)),
            ),
            ExprKind::Apply(f, args) => ExprKind::Apply(
                Box::new(copy_expr(f)),
                copy_expr_list(args),
            ),
            ExprKind::Field(a, f) => ExprKind::Field(Box::new(copy_expr(a)), copy_sym(f)),
            ExprKind::VectorRef(v, i) => ExprKind::VectorRef(
                Box::new(copy_expr(v)),
                Box::new(copy_expr(i)),
            ),
            ExprKind::VectorSlice(v, i, j) => ExprKind::VectorSlice(
                Box::new(copy_expr(v)),
                Box::new(copy_expr(i)),
                Box::new(copy_expr(j)),
            ),
            ExprKind::VectorUpdate(v, i, x) => ExprKind::VectorUpdate(
                Box::new(copy_expr(v)),
                Box::new(copy_expr(i)),
                Box::new(copy_expr(x)),
            ),
            ExprKind::Loop(n, binds, end) => ExprKind::Loop(
                Box::new(copy_const_expr(n)),
                copy_bind_list(binds),
                Box::new(copy_expr(end)),
            ),
            ExprKind::IsType(s, t) => ExprKind::IsType(copy_sym(s), Box::new(copy_type_expr(t))),
            ExprKind::AsType(a, t) => ExprKind::AsType(
                Box::new(copy_expr(a)),
                Box::new(copy_type_expr(t)),
            ),
            ExprKind::Fail => ExprKind::Fail,
        },
    }
}

pub fn copy_expr_list(l: &ExprList) -> (r: ExprList)
    ensures
        r@ == l@,
    decreases l,
{
    match l {
        ExprList::Nil => ExprList::Nil,
        ExprList::Cons(h, t) => ExprList::Cons(Box::new(copy_expr(h)), Box::new(copy_expr_list(t))),
    }
}

pub fn copy_field_list(l: &FieldList) -> (r: FieldList)
    ensures
        r@ == l@,
    decreases l,
{
    match l {
        FieldList::Nil => FieldList::Nil,
        FieldList::Cons(k, v, t) => FieldList::Cons(
            copy_sym(k),
            Box::new(copy_expr(v)),
            Box::new(copy_field_list(t)),
        ),
    }
}

pub fn copy_bind_list(l: &BindList) -> (r: BindList)
    ensures
        r@ == l@,
    decreases l,
{
    match l {
        BindList::Nil => BindList::Nil,
        BindList::Cons(k, v, t) => BindList::Cons(
            copy_sym(k),
            Box::new(copy_expr(v)),
            Box::new(copy_bind_list(t)),
        ),
    }
}

pub fn copy_syms(v: &Vec<Symbol>) -> (r: Vec<Symbol>)
    ensures
        syms_view(r@) == syms_view(v@),
{
    let mut r: Vec<Symbol> = Vec::new();
    let mut i: usize = 0;
    while i < v.len()
        invariant
            0 <= i <= v.len(),
            syms_view(r@) == syms_view(v@).take(i as int),
        decreases v.len() - i,
    {
        let ghost pre = r@;
        let c = copy_sym(&v[i]);
        let ghost cx = c;
        r.push(c);
        proof {
            lemma_syms_view_push(pre, cx);
            assert(syms_view(v@).len() == v@.len());
            lemma_take_step(syms_view(v@), i as int);
            assert(syms_view(v@)[i as int] == v@[i as int]@);
            assert(syms_view(r@) == syms_view(v@).take(i + 1));
        }
        i += 1;
    }
    proof {
        assert(syms_view(v@).len() == v@.len());
        assert(syms_view(v@).take(v@.len() as int) =~= syms_view(v@));
    }
    r
}

pub fn copy_param(p: &Param) -> (r: Param)
    ensures
        r@ == p@,
{
    Param { pos: p.pos, name: copy_sym(&p.name), bind: copy_type_expr(&p.bind) }
}

pub fn copy_params(v: &Vec<Param>) -> (r: Vec<Param>)
    ensures
        params_view(r@) == params_view(v@),
{
    let mut r: Vec<Param> = Vec::new();
    let mut i: usize = 0;
    while i < v.len()
        invariant
            0 <= i <= v.len(),
            params_view(r@) == params_view(v@).take(i as int),
        decreases v.len() - i,
    {
        let ghost pre = r@;
        let c = copy_param(&v[i]);
        let ghost cx = c;
        r.push(c);
        proof {
            lemma_params_view_push(pre, cx);
            assert(params_view(v@).len() == v@.len());
            lemma_take_step(params_view(v@), i as int);
            assert(params_view(v@)[i as int] == v@[i as int]@);
            assert(params_view(r@) == params_view(v@).take(i + 1));
        }
        i += 1;
    }
    proof {
        assert(params_view(v@).len() == v@.len());
        assert(params_view(v@).take(v@.len() as int) =~= params_view(v@));
    }
    r
}

pub fn copy_defn(d: &Defn) -> (r: Defn)
    ensures
        r@ == d@,
{
    Defn {
        pos: d.pos,
        kind: match &d.kind {
            DefnKind::Function { name, cgvars, genvars, params, rettype, body } => {
                DefnKind::Function {
                    name: copy_ctx_sym(name),
                    cgvars: copy_syms(cgvars),
                    genvars: copy_syms(genvars),
                    params: copy_params(params),
                    rettype: match rettype {
                        Option::Some(rt) => Option::Some(copy_type_expr(rt)),
                        Option::None => Option::None,
                    },
                    body: copy_expr(body),
                }
            },
            DefnKind::Struct { name, fields } => DefnKind::Struct {
                name: copy_ctx_sym(name),
                fields: copy_params(fields),
            },
            DefnKind::Constant { name, value } => DefnKind::Constant {
                name: copy_ctx_sym(name),
                value: copy_expr(value),
            },
            DefnKind::Require(m) => DefnKind::Require(*m),
            DefnKind::Provide(s) => DefnKind::Provide(copy_sym(s)),
        },
    }
}

pub fn copy_program(p: &Program) -> (r: Program)
    ensures
        r@ == p@,
{
    let mut defs: Vec<Defn> = Vec::new();
    let mut i: usize = 0;
    while i < p.defs.len()
        invariant
            0 <= i <= p.defs.len(),
            defs_view(defs@) == defs_view(p.defs@).take(i as int),
        decreases p.defs.len() - i,
    {
        let ghost pre = defs@;
        let c = copy_defn(&p.defs[i]);
        let ghost cx = c;
        defs.push(c);
        proof {
            lemma_defs_view_push(pre, cx);
            assert(defs_view(p.defs@).len() == p.defs@.len());
            lemma_take_step(defs_view(p.defs@), i as int);
            assert(defs_view(p.defs@)[i as int] == p.defs@[i as int]@);
            assert(defs_view(defs@) == defs_view(p.defs@).take(i + 1));
        }
        i += 1;
    }
    proof {
        assert(defs_view(p.defs@).len() == p.defs@.len());
        assert(defs_view(p.defs@).take(p.defs@.len() as int) =~= defs_view(p.defs@));
    }
    Program { defs, body: copy_expr(&p.body) }
}

// ----- the renamer itself -----

/// Renames one symbol: unchanged when the set holds it, else qualified with
/// the owning module's tag.
pub fn mangle_sym(sym: Symbol, source: ModuleId, no_mangle: &Vec<Symbol>) -> (r: Symbol)
    ensures
        r@ == spec_mangle_sym(sym@, source, symset(syms_view(no_mangle@))),
{
    if contains_sym(no_mangle, &sym) {
        sym
    } else {
        Symbol::Tagged(Box::new(sym), source.tag)
    }
}

/// Renames a symbol occurrence, keeping its source position.
pub fn mangle_ctx_sym(sym: CtxSym, source: ModuleId, no_mangle: &Vec<Symbol>) -> (r: CtxSym)
    ensures
        r@ == spec_mangle_ctx_sym(sym@, source, symset(syms_view(no_mangle@))),
{
    CtxSym { pos: sym.pos, sym: mangle_sym(sym.sym, source, no_mangle) }
}

pub fn mangle_const_expr(c: &ConstExpr, source: ModuleId, no_mangle: &Vec<Symbol>) -> (r: ConstExpr)
    ensures
        r@ == spec_mangle_const(c@, source, symset(syms_view(no_mangle@))),
    decreases c,
{
    ConstExpr {
        pos: c.pos,
        kind: match &c.kind {
            ConstKind::Sym(s) => ConstKind::Sym(mangle_sym(copy_sym(s), source, no_mangle)),
            ConstKind::Lit(l) => ConstKind::Lit(*l),
            ConstKind::Plus(a, b) => ConstKind::Plus(
                Box::new(mangle_const_expr(a, source, no_mangle)),
                Box::new(mangle_const_expr(b, source, no_mangle)),
            ),
            ConstKind::Mult(a, b) => ConstKind::Mult(
                Box::new(mangle_const_expr(a, source, no_mangle)),
                Box::new(mangle_const_expr(b, source, no_mangle)),
            ),
        },
    }
}

pub fn mangle_type_expr(t: &TypeExpr, source: ModuleId, no_mangle: &Vec<Symbol>) -> (r: TypeExpr)
    ensures
        r@ == spec_mangle_type(t@, source, symset(syms_view(no_mangle@))),
    decreases t,
{
    TypeExpr {
        pos: t.pos,
        kind: match &t.kind {
            TypeKind::Sym(s) => TypeKind::Sym(mangle_sym(copy_sym(s), source, no_mangle)),
            TypeKind::Union(a, b) => TypeKind::Union(
                Box::new(mangle_type_expr(a, source, no_mangle)),
                Box::new(mangle_type_expr(b, source, no_mangle)),
            ),
            TypeKind::Vector(l) => TypeKind::Vector(mangle_type_list(l, source, no_mangle)),
            TypeKind::Vectorof(a, n) => TypeKind::Vectorof(
                Box::new(mangle_type_expr(a, source, no_mangle)),
                Box::new(mangle_const_expr(n, source, no_mangle)),
            ),
            TypeKind::NatRange(i, j) => TypeKind::NatRange(
                Box::new(mangle_const_expr(i, source, no_mangle)),
                Box::new(mangle_const_expr(j, source, no_mangle)),
            ),
        },
    }
}

fn mangle_type_list(l: &TypeList, source: ModuleId, no_mangle: &Vec<Symbol>) -> (r: TypeList)
    ensures
        r@ == spec_mangle_type_list(l@, source, symset(syms_view(no_mangle@))),
    decreases l,
{
    match l {
        TypeList::Nil => TypeList::Nil,
        TypeList::Cons(h, t) => TypeList::Cons(
            Box::new(mangle_type_expr(h, source, no_mangle)),
            Box::new(mangle_type_list(t, source, no_mangle)),
        ),
    }
}

/// Renames every free symbol of an expression, extending the do-not-mangle
/// set as the traversal enters binding forms, and keeping every node's
/// source position.
pub fn mangle_expr(e: &Expr, source: ModuleId, no_mangle: &Vec<Symbol>) -> (r: Expr)
    ensures
        r@ == spec_mangle_expr(e@, source, symset(syms_view(no_mangle@))),
    decreases e,
{
    Expr {
        pos: e.pos,
        kind: match &e.kind {
            ExprKind::LitNum(n) => ExprKind::LitNum(*n),
            ExprKind::LitVec(l) => ExprKind::LitVec(mangle_expr_list(l, source, no_mangle)),
            ExprKind::LitStruct(s, fs) => ExprKind::LitStruct(
                mangle_sym(copy_sym(s), source, no_mangle),
                mangle_field_list(fs, source, no_mangle),
            ),
            ExprKind::Var(s) => ExprKind::Var(mangle_sym(copy_sym(s), source, no_mangle)),
            ExprKind::CgVar(s) => ExprKind::CgVar(mangle_sym(copy_sym(s), source, no_mangle)),
            ExprKind::Let(x, b, body) => {
                let bound = mangle_expr(b, source, no_mangle);
                let mut inner: Vec<Symbol> = copy_syms(no_mangle);
                let ghost pre = inner@;
                let c = copy_sym(x);
                let ghost cx = c;
                inner.push(c);
                proof {
                    lemma_syms_view_push(pre, cx);
                    assert(syms_view(inner@) == syms_view(no_mangle@).push(x@));
                    lemma_symset_push(syms_view(no_mangle@), x@);
                }
                let body2 = mangle_expr(body, source, &inner);
                ExprKind::Let(copy_sym(x), Box::new(bound), Box::new(body2))
            },
            ExprKind::If(c, a, b) => ExprKind::If(
                Box::new(mangle_expr(c, source, no_mangle)),
                Box::new(mangle_expr(a, source, no_mangle)),
                Box::new(mangle_expr(b, source, no_mangle)),
            ),
            ExprKind::BinOp(op, a, b) => ExprKind::BinOp(
                *op,
                Box::new(mangle_expr(a, source, no_mangle)),
                Box::new(mangle_expr(b, source, no_mangle)),
            ),
            ExprKind::Apply(f, args) => ExprKind::Apply(
                Box::new(mangle_expr(f, source, no_mangle)),
                mangle_expr_list(args, source, no_mangle),
            ),
            ExprKind::Field(a, f) => ExprKind::Field(
                Box::new(mangle_expr(a, source, no_mangle)),
                copy_sym(f),
            ),
            ExprKind::VectorRef(v, i) => ExprKind::VectorRef(
                Box::new(mangle_expr(v, source, no_mangle)),
                Box::new(mangle_expr(i, source, no_mangle)),
            ),
            ExprKind::VectorSlice(v, i, j) => ExprKind::VectorSlice(
                Box::new(mangle_expr(v, source, no_mangle)),
                Box::new(mangle_expr(i, source, no_mangle)),
                Box::new(mangle_expr(j, source, no_mangle)),
            ),
            ExprKind::VectorUpdate(v, i, x) => ExprKind::VectorUpdate(
                Box::new(mangle_expr(v, source, no_mangle)),
                Box::new(mangle_expr(i, source, no_mangle)),
                Box::new(mangle_expr(x, source, no_mangle)),
            ),
            ExprKind::Loop(n, binds, end) => ExprKind::Loop(
                Box::new(mangle_const_expr(n, source, no_mangle)),
                mangle_bind_list(binds, source, no_mangle),
                Box::new(mangle_expr(end, source, no_mangle)),
            ),
            ExprKind::IsType(s, t) => ExprKind::IsType(
                mangle_sym(copy_sym(s), source, no_mangle),
                Box::new(mangle_type_expr(t, source, no_mangle)),
            ),
            ExprKind::AsType(a, t) => ExprKind::AsType(
                Box::new(mangle_expr(a, source, no_mangle)),
                Box::new(mangle_type_expr(t, source, no_mangle)),
            ),
            ExprKind::Fail => ExprKind::Fail,
        },
    }
}

fn mangle_expr_list(l: &ExprList, source: ModuleId, no_mangle: &Vec<Symbol>) -> (r: ExprList)
    ensures
        r@ == spec_mangle_expr_list(l@, source, symset(syms_view(no_mangle@))),
    decreases l,
{
    match l {
        ExprList::Nil => ExprList::Nil,
        ExprList::Cons(h, t) => ExprList::Cons(
            Box::new(mangle_expr(h, source, no_mangle)),
            Box::new(mangle_expr_list(t, source, no_mangle)),
        ),
    }
}

fn mangle_field_list(l: &FieldList, source: ModuleId, no_mangle: &Vec<Symbol>) -> (r: FieldList)
    ensures
        r@ == spec_mangle_field_list(l@, source, symset(syms_view(no_mangle@))),
    decreases l,
{
    match l {
        FieldList::Nil => FieldList::Nil,
        FieldList::Cons(k, v, t) => FieldList::Cons(
            copy_sym(k),
            Box::new(mangle_expr(v, source, no_mangle)),
            Box::new(mangle_field_list(t, source, no_mangle)),
        ),
    }
}

fn mangle_bind_list(l: &BindList, source: ModuleId, no_mangle: &Vec<Symbol>) -> (r: BindList)
    ensures
        r@ == spec_mangle_bind_list(l@, source, symset(syms_view(no_mangle@))),
    decreases l,
{
    match l {
        BindList::Nil => BindList::Nil,
        BindList::Cons(k, v, t) => BindList::Cons(
            mangle_sym(copy_sym(k), source, no_mangle),
            Box::new(mangle_expr(v, source, no_mangle)),
            Box::new(mangle_bind_list(t, source, no_mangle)),
        ),
    }
}

/// Renames one top-level definition under the given do-not-mangle set.
fn mangle_defn(d: &Defn, source: ModuleId, no_mangle: &Vec<Symbol>) -> (r: Defn)
    ensures
        r@ == spec_mangle_defn(d@, source, symset(syms_view(no_mangle@))),
{
    let ghost ns = symset(syms_view(no_mangle@));
    Defn {
        pos: d.pos,
        kind: match &d.kind {
            DefnKind::Function { name, cgvars, genvars, params, rettype, body } => {
                let mut inner: Vec<Symbol> = copy_syms(no_mangle);
                let mut i: usize = 0;
                while i < cgvars.len()
                    invariant
                        0 <= i <= cgvars.len(),
                        syms_view(inner@) == syms_view(no_mangle@) + syms_view(cgvars@).take(
                            i as int,
                        ),
                    decreases cgvars.len() - i,
                {
                    let ghost pre = inner@;
                    let c = copy_sym(&cgvars[i]);
                    let ghost cx = c;
                    inner.push(c);
                    proof {
                        lemma_syms_view_push(pre, cx);
                        assert(syms_view(cgvars@).len() == cgvars@.len());
                        lemma_take_step(syms_view(cgvars@), i as int);
                        assert(syms_view(cgvars@)[i as int] == cgvars@[i as int]@);
                        lemma_push_concat(
                            syms_view(no_mangle@),
                            syms_view(cgvars@).take(i as int),
                            cx@,
                        );
                        assert(syms_view(inner@) == syms_view(no_mangle@) + syms_view(
                            cgvars@,
                        ).take(i + 1));
                    }
                    i += 1;
                }
                let mut i: usize = 0;
                while i < genvars.len()
                    invariant
                        0 <= i <= genvars.len(),
                        syms_view(inner@) == syms_view(no_mangle@) + syms_view(cgvars@) + syms_view(
                            genvars@,
                        ).take(i as int),
                    decreases genvars.len() - i,
                {
                    let ghost pre = inner@;
                    let c = copy_sym(&genvars[i]);
                    let ghost cx = c;
                    inner.push(c);
                    proof {
                        lemma_syms_view_push(pre, cx);
                        assert(syms_view(genvars@).len() == genvars@.len());
                        lemma_take_step(syms_view(genvars@), i as int);
                        assert(syms_view(genvars@)[i as int] == genvars@[i as int]@);
                        lemma_push_concat(
                            syms_view(no_mangle@) + syms_view(cgvars@),
                            syms_view(genvars@).take(i as int),
                            cx@,
                        );
                        assert(syms_view(inner@) == syms_view(no_mangle@) + syms_view(cgvars@)
                            + syms_view(genvars@).take(i + 1));
                    }
                    i += 1;
                }
                let mut i: usize = 0;
                while i < params.len()
                    invariant
                        0 <= i <= params.len(),
                        syms_view(inner@) == syms_view(no_mangle@) + syms_view(cgvars@) + syms_view(
                            genvars@,
                        ) + param_names(params_view(params@)).take(i as int),
                    decreases params.len() - i,
                {
                    let ghost pre = inner@;
                    let c = copy_sym(&params[i].name);
                    let ghost cx = c;
                    inner.push(c);
                    proof {
                        let pn = param_names(params_view(params@));
                        lemma_syms_view_push(pre, cx);
                        assert(params_view(params@).len() == params@.len());
                        assert(pn.len() == params@.len());
                        lemma_take_step(pn, i as int);
                        assert(params_view(params@)[i as int] == params@[i as int]@);
                        assert(pn[i as int] == params@[i as int]@.name);
                        lemma_push_concat(
                            syms_view(no_mangle@) + syms_view(cgvars@) + syms_view(genvars@),
                            pn.take(i as int),
                            cx@,
                        );
                        assert(syms_view(inner@) == syms_view(no_mangle@) + syms_view(cgvars@)
                            + syms_view(genvars@) + pn.take(i + 1));
                    }
                    i += 1;
                }
                proof {
                    let a = syms_view(no_mangle@);
                    let b = syms_view(cgvars@);
                    let c = syms_view(genvars@);
                    let d2 = param_names(params_view(params@));
                    assert(syms_view(cgvars@).take(cgvars@.len() as int) =~= syms_view(cgvars@));
                    assert(syms_view(genvars@).take(genvars@.len() as int) =~= syms_view(genvars@));
                    assert(d2.take(params@.len() as int) =~= d2);
                    lemma_symset_concat(a + b + c, d2);
                    lemma_symset_concat(a + b, c);
                    lemma_symset_concat(a, b);
                    assert(symset(syms_view(inner@)) =~= inner_scope(
                        ns,
                        b,
                        c,
                        params_view(params@),
                    ));
                }
                let mut new_params: Vec<Param> = Vec::new();
                let mut i: usize = 0;
                while i < params.len()
                    invariant
                        0 <= i <= params.len(),
                        symset(syms_view(inner@)) == inner_scope(
                            ns,
                            syms_view(cgvars@),
                            syms_view(genvars@),
                            params_view(params@),
                        ),
                        ns == symset(syms_view(no_mangle@)),
                        params_view(new_params@) == params_view(params@).map_values(
                            |p: ParamV| ParamV {
                                pos: p.pos,
                                name: p.name,
                                bind: spec_mangle_type(p.bind, source, symset(syms_view(inner@))),
                            },
                        ).take(i as int),
                    decreases params.len() - i,
                {
                    let p = &params[i];
                    let ghost pre = new_params@;
                    let c = Param {
                        pos: p.pos,
                        name: copy_sym(&p.name),
                        bind: mangle_type_expr(&p.bind, source, &inner),
                    };
                    let ghost cx = c;
                    new_params.push(c);
                    proof {
                        let f = |p: ParamV| ParamV {
                            pos: p.pos,
                            name: p.name,
                            bind: spec_mangle_type(p.bind, source, symset(syms_view(inner@))),
                        };
                        let mapped = params_view(params@).map_values(f);
                        lemma_params_view_push(pre, cx);
                        assert(params_view(params@).len() == params@.len());
                        assert(mapped.len() == params@.len());
                        lemma_take_step(mapped, i as int);
                        assert(params_view(params@)[i as int] == params@[i as int]@);
                        assert(mapped[i as int] == f(params@[i as int]@));
                        assert(cx@ == f(params@[i as int]@));
                        assert(params_view(new_params@) == mapped.take(i + 1));
                    }
                    i += 1;
                }
                proof {
                    let f = |p: ParamV| ParamV {
                        pos: p.pos,
                        name: p.name,
                        bind: spec_mangle_type(p.bind, source, symset(syms_view(inner@))),
                    };
                    assert(params_view(params@).map_values(f).take(params@.len() as int)
                        =~= params_view(params@).map_values(f));
                }
                DefnKind::Function {
                    name: mangle_ctx_sym(copy_ctx_sym(name), source, no_mangle),
                    cgvars: copy_syms(cgvars),
                    genvars: copy_syms(genvars),
                    params: new_params,
                    rettype: match rettype {
                        Option::Some(rt) => Option::Some(mangle_type_expr(rt, source, no_mangle)),
                        Option::None => Option::None,
                    },
                    body: mangle_expr(body, source, &inner),
                }
            },
            DefnKind::Struct { name, fields } => DefnKind::Struct {
                name: mangle_ctx_sym(copy_ctx_sym(name), source, no_mangle),
                fields: copy_params(fields),
            },
            DefnKind::Constant { name, value } => DefnKind::Constant {
                name: mangle_ctx_sym(copy_ctx_sym(name), source, no_mangle),
                value: mangle_expr(value, source, no_mangle),
            },
            DefnKind::Require(m) => DefnKind::Require(*m),
            DefnKind::Provide(s) => DefnKind::Provide(copy_sym(s)),
        },
    }
}

/// Renames an inlined module's definition sequence: seeds the do-not-mangle
/// set from the sequence's own `Provide` markers, renames every remaining
/// definition, and consumes the `Require` and `Provide` directives.
pub fn mangle(defs: &Vec<Defn>, source: ModuleId) -> (r: Vec<Defn>)
    ensures
        defs_view(r@) == spec_mangle_defs(defs_view(defs@), source),
{
    let mut no_mangle: Vec<Symbol> = Vec::new();
    let mut i: usize = 0;
    while i < defs.len()
        invariant
            0 <= i <= defs.len(),
            symset(syms_view(no_mangle@)) == spec_provides(defs_view(defs@).take(i as int)),
        decreases defs.len() - i,
    {
        let ghost pre = no_mangle@;
        match &defs[i].kind {
            DefnKind::Provide(s) => {
                let c = copy_sym(s);
                let ghost cx = c;
                no_mangle.push(c);
                proof {
                    lemma_syms_view_push(pre, cx);
                    lemma_symset_push(syms_view(pre), s@);
                }
            },
            _ => {},
        }
        proof {
            assert(defs_view(defs@).len() == defs@.len());
            lemma_take_step(defs_view(defs@), i as int);
            assert(defs_view(defs@)[i as int] == defs@[i as int]@);
            lemma_provides_push(defs_view(defs@).take(i as int), defs@[i as int]@);
        }
        i += 1;
    }
    proof {
        assert(defs_view(defs@).len() == defs@.len());
        assert(defs_view(defs@).take(defs@.len() as int) =~= defs_view(defs@));
    }
    let ghost ns = spec_provides(defs_view(defs@));
    let mut out: Vec<Defn> = Vec::new();
    let mut i: usize = 0;
    while i < defs.len()
        invariant
            0 <= i <= defs.len(),
            symset(syms_view(no_mangle@)) == ns,
            ns == spec_provides(defs_view(defs@)),
            defs_view(out@) == spec_mangle_defs_with(defs_view(defs@).take(i as int), source, ns),
        decreases defs.len() - i,
    {
        let d = &defs[i];
        let ghost pre = out@;
        match &d.kind {
            DefnKind::Require(_) => {},
            DefnKind::Provide(_) => {},
            _ => {
                let c = mangle_defn(d, source, &no_mangle);
                let ghost cx = c;
                out.push(c);
                proof {
                    lemma_defs_view_push(pre, cx);
                }
            },
        }
        proof {
            let dv = defs_view(defs@);
            assert(dv.len() == defs@.len());
            assert(dv[i as int] == defs@[i as int]@);
            assert(dv.take(i + 1).len() == i + 1);
            assert(dv.take(i + 1).drop_last() =~= dv.take(i as int));
            assert(dv.take(i + 1).last() == dv[i as int]);
            assert(spec_mangle_defs_with(dv.take(i + 1), source, ns) == spec_mangle_defs_with(
                dv.take(i as int),
                source,
                ns,
            ) + spec_mangle_one(dv[i as int], source, ns));
            match defs@[i as int]@.kind {
                DefnKindV::Require(_) => {
                    assert(defs_view(pre) + spec_mangle_one(dv[i as int], source, ns)
                        =~= defs_view(pre));
                },
                DefnKindV::Provide(_) => {
                    assert(defs_view(pre) + spec_mangle_one(dv[i as int], source, ns)
                        =~= defs_view(pre));
                },
                _ => {
                    assert(defs_view(pre) + spec_mangle_one(dv[i as int], source, ns)
                        =~= defs_view(pre).push(spec_mangle_defn(dv[i as int], source, ns)));
                },
            }
        }
        i += 1;
    }
    proof {
        assert(defs_view(defs@).len() == defs@.len());
        assert(defs_view(defs@).take(defs@.len() as int) =~= defs_view(defs@));
    }
    out
}

} // verus!
