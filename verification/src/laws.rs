use vstd::prelude::*;

use crate::ast::{
    BindListV, ConstExprV, ConstKindV, DefnKindV, DefnV, ExprKindV, ExprListV, ExprV, FieldListV,
    ModuleId, Pos, ProgV, SymV, TypeExprV, TypeKindV, TypeListV,
};
use crate::mangling::{
    spec_mangle_bind_list, spec_mangle_const, spec_mangle_defn, spec_mangle_defs,
    spec_mangle_defs_with, spec_mangle_expr, spec_mangle_expr_list, spec_mangle_field_list,
    spec_mangle_one, spec_mangle_sym, spec_mangle_type, spec_mangle_type_list, spec_provides,
};
use crate::resolver::{ResolveErr, resolve_spec, splice_one, splice_spec, table_find};

verus! {

/// Hygiene: a name that its module does not provide is renamed with that
/// module's tag, so two such names renamed for modules with distinct tags
/// can never collide afterwards — even when the written names were equal.
/// The renamed form is always a tagged name, so it can never collide with
/// a plain written name either.
pub proof fn lemma_hygiene_distinct_modules(
    s1: SymV,
    s2: SymV,
    m1: ModuleId,
    m2: ModuleId,
    ns1: Set<SymV>,
    ns2: Set<SymV>,
)
    requires
        m1.tag != m2.tag,
        !ns1.contains(s1),
        !ns2.contains(s2),
    ensures
        spec_mangle_sym(s1, m1, ns1) != spec_mangle_sym(s2, m2, ns2),
        spec_mangle_sym(s1, m1, ns1) is Tagged,
{
}

/// The name a surviving top-level definition carries, if it is a form that
/// declares one.
pub open spec fn defn_name(d: DefnV) -> Option<SymV> {
    match d.kind {
        DefnKindV::Function { name, .. } => Option::Some(name.sym),
        DefnKindV::Struct { name, .. } => Option::Some(name.sym),
        DefnKindV::Constant { name, .. } => Option::Some(name.sym),
        DefnKindV::Require(_) => Option::None,
        DefnKindV::Provide(_) => Option::None,
    }
}

/// A name admissible in the output of renaming for `source`: either kept
/// verbatim because `provided` holds it, or qualified with `source`'s tag.
pub open spec fn name_from(v: SymV, provided: Set<SymV>, source: ModuleId) -> bool {
    provided.contains(v) || (v matches SymV::Tagged(_, t) && t == source.tag)
}

proof fn lemma_mangle_defs_with_names(defs: Seq<DefnV>, source: ModuleId, ns: Set<SymV>)
    ensures
        forall|j: int|
            0 <= j < spec_mangle_defs_with(defs, source, ns).len() ==> {
                let d = #[trigger] spec_mangle_defs_with(defs, source, ns)[j];
                &&& !(d.kind is Require)
                &&& !(d.kind is Provide)
                &&& (defn_name(d) matches Option::Some(v) && name_from(v, ns, source))
            },
    decreases defs.len(),
{
    if defs.len() != 0 {
        lemma_mangle_defs_with_names(defs.drop_last(), source, ns);
        let front = spec_mangle_defs_with(defs.drop_last(), source, ns);
        let one = spec_mangle_one(defs.last(), source, ns);
        assert forall|j: int|
            0 <= j < spec_mangle_defs_with(defs, source, ns).len() implies {
            let d = #[trigger] spec_mangle_defs_with(defs, source, ns)[j];
            &&& !(d.kind is Require)
            &&& !(d.kind is Provide)
            &&& (defn_name(d) matches Option::Some(v) && name_from(v, ns, source))
        } by {
            if j < front.len() {
                assert(spec_mangle_defs_with(defs, source, ns)[j] == front[j]);
            } else {
                assert(spec_mangle_defs_with(defs, source, ns)[j] == one[j - front.len()]);
                assert(one[j - front.len()] == spec_mangle_defn(defs.last(), source, ns));
            }
        }
    }
}

/// Explicit re-export only: after renaming an inlined module's definition
/// sequence, every surviving top-level name is either one the sequence
/// itself provides — kept verbatim — or is qualified with that module's own
/// tag; and no `Require` or `Provide` survives. A name that only a deeper
/// dependency provided, and this sequence does not re-provide, therefore
/// never stays plain.
pub proof fn lemma_mangle_defs_names(defs: Seq<DefnV>, source: ModuleId)
    ensures
        forall|j: int|
            0 <= j < spec_mangle_defs(defs, source).len() ==> {
                let d = #[trigger] spec_mangle_defs(defs, source)[j];
                &&& !(d.kind is Require)
                &&& !(d.kind is Provide)
                &&& (defn_name(d) matches Option::Some(v) && name_from(
                    v,
                    spec_provides(defs),
                    source,
                ))
            },
{
    lemma_mangle_defs_with_names(defs, source, spec_provides(defs));
}

/// Local bindings survive renaming: a `Let` keeps its binder verbatim, its
/// bound value is traversed under the enclosing set, and only its body sees
/// the binder added to the do-not-mangle set.
pub proof fn lemma_let_binding_kept(
    pos: Pos,
    x: SymV,
    b: ExprV,
    body: ExprV,
    source: ModuleId,
    ns: Set<SymV>,
)
    ensures
        spec_mangle_expr(
            (ExprV { pos, kind: ExprKindV::Let(x, Box::new(b), Box::new(body)) }),
            source,
            ns,
        ) == (ExprV {
            pos,
            kind: ExprKindV::Let(
                x,
                Box::new(spec_mangle_expr(b, source, ns)),
                Box::new(spec_mangle_expr(body, source, ns.insert(x))),
            ),
        }),
{
}

/// A reference to a locally bound name is not renamed: under a set that
/// holds the name — as the set in a `Let` body or a function body holds the
/// binders in scope — a variable reference passes through unchanged.
pub proof fn lemma_bound_var_not_renamed(pos: Pos, x: SymV, source: ModuleId, ns: Set<SymV>)
    ensures
        spec_mangle_expr((ExprV { pos, kind: ExprKindV::Var(x) }), source, ns.insert(x)) == (ExprV {
            pos,
            kind: ExprKindV::Var(x),
        }),
{
}

/// Order preservation: for a definition list `[d1, Require(m), d2]` where
/// `m` resolves to `p` and `d1`, `d2` are ordinary definitions, splicing
/// yields `d1`, then `p`'s renamed definitions, then `d2`, in that order.
pub proof fn lemma_order_preserved(
    t: Seq<(u64, ProgV)>,
    stack2: Set<u64>,
    d1: DefnV,
    rq: DefnV,
    d2: DefnV,
    m: ModuleId,
    p: ProgV,
)
    requires
        !(d1.kind is Require),
        !(d2.kind is Require),
        rq.kind == DefnKindV::Require(m),
        resolve_spec(t, m, stack2) == Result::<ProgV, ResolveErr>::Ok(p),
    ensures
        splice_spec(t, stack2, seq![d1, rq, d2]) == Result::<Seq<DefnV>, ResolveErr>::Ok(
            seq![d1] + spec_mangle_defs(p.defs, m) + seq![d2],
        ),
{
    let s = seq![d1, rq, d2];
    assert(s.drop_last() =~= seq![d1, rq]);
    assert(seq![d1, rq].drop_last() =~= seq![d1]);
    assert(seq![d1].drop_last() =~= Seq::<DefnV>::empty());
    assert(seq![d1].last() == d1);
    assert(seq![d1, rq].last() == rq);
    assert(s.last() == d2);
    assert(splice_spec(t, stack2, Seq::<DefnV>::empty()) == Result::<Seq<DefnV>, ResolveErr>::Ok(
        Seq::<DefnV>::empty(),
    ));
    assert(splice_one(t, stack2, d1) == Result::<Seq<DefnV>, ResolveErr>::Ok(seq![d1]));
    assert(splice_spec(t, stack2, seq![d1]) == Result::<Seq<DefnV>, ResolveErr>::Ok(
        Seq::<DefnV>::empty() + seq![d1],
    ));
    assert(Seq::<DefnV>::empty() + seq![d1] =~= seq![d1]);
    assert(splice_one(t, stack2, rq) == Result::<Seq<DefnV>, ResolveErr>::Ok(
        spec_mangle_defs(p.defs, m),
    ));
    assert(splice_spec(t, stack2, seq![d1, rq]) == Result::<Seq<DefnV>, ResolveErr>::Ok(
        seq![d1] + spec_mangle_defs(p.defs, m),
    ));
    assert(splice_one(t, stack2, d2) == Result::<Seq<DefnV>, ResolveErr>::Ok(seq![d2]));
    assert(splice_spec(t, stack2, s) == Result::<Seq<DefnV>, ResolveErr>::Ok(
        (seq![d1] + spec_mangle_defs(p.defs, m)) + seq![d2],
    ));
    assert((seq![d1] + spec_mangle_defs(p.defs, m)) + seq![d2] =~= seq![d1] + spec_mangle_defs(
        p.defs,
        m,
    ) + seq![d2]);
}

/// Cycle behavior, as designed: resolution fails fast and deterministically
/// on a cyclic graph. With `a` requiring `b` and `b` requiring `a`, each
/// module's only definition the `Require` of the other, resolving `a`
/// reports the cycle at `a` rather than recursing forever.
pub proof fn lemma_two_module_cycle(
    t: Seq<(u64, ProgV)>,
    a: ModuleId,
    b: ModuleId,
    pa: ProgV,
    pb: ProgV,
)
    requires
        a.tag != b.tag,
        table_find(t, a.tag) == Option::Some(pa),
        table_find(t, b.tag) == Option::Some(pb),
        pa.defs.len() == 1,
        pa.defs[0].kind == DefnKindV::Require(b),
        pb.defs.len() == 1,
        pb.defs[0].kind == DefnKindV::Require(a),
    ensures
        resolve_spec(t, a, Set::empty()) == Result::<ProgV, ResolveErr>::Err(ResolveErr::Cycle(a)),
{
    let s0 = Set::<u64>::empty();
    let s1 = s0.insert(a.tag);
    let s2 = s1.insert(b.tag);
    assert(!s0.contains(a.tag));
    assert(!s1.contains(b.tag));
    assert(s2.contains(a.tag));
    assert(resolve_spec(t, a, s2) == Result::<ProgV, ResolveErr>::Err(ResolveErr::Cycle(a)));
    assert(pb.defs.drop_last() =~= Seq::<DefnV>::empty());
    assert(pb.defs.last() == pb.defs[0]);
    assert(splice_spec(t, s2, Seq::<DefnV>::empty()) == Result::<Seq<DefnV>, ResolveErr>::Ok(
        Seq::<DefnV>::empty(),
    ));
    assert(splice_one(t, s2, pb.defs[0]) == Result::<Seq<DefnV>, ResolveErr>::Err(
        ResolveErr::Cycle(a),
    ));
    assert(splice_spec(t, s2, pb.defs) == Result::<Seq<DefnV>, ResolveErr>::Err(
        ResolveErr::Cycle(a),
    ));
    assert(resolve_spec(t, b, s1) == Result::<ProgV, ResolveErr>::Err(ResolveErr::Cycle(a)));
    assert(pa.defs.drop_last() =~= Seq::<DefnV>::empty());
    assert(pa.defs.last() == pa.defs[0]);
    assert(splice_spec(t, s1, Seq::<DefnV>::empty()) == Result::<Seq<DefnV>, ResolveErr>::Ok(
        Seq::<DefnV>::empty(),
    ));
    assert(splice_one(t, s1, pa.defs[0]) == Result::<Seq<DefnV>, ResolveErr>::Err(
        ResolveErr::Cycle(a),
    ));
    assert(splice_spec(t, s1, pa.defs) == Result::<Seq<DefnV>, ResolveErr>::Err(
        ResolveErr::Cycle(a),
    ));
    assert(resolve_spec(t, a, s0) == Result::<ProgV, ResolveErr>::Err(ResolveErr::Cycle(a)));
}

} // verus!

verus! {

// ----- no `Require` survives resolution -----

/// Splicing leaves the output clean: no `Require` survives, and any
/// surviving `Provide` is one the spliced list itself contained — renamed
/// dependency definitions contribute neither.
pub proof fn lemma_splice_output_clean(t: Seq<(u64, ProgV)>, stack2: Set<u64>, defs: Seq<DefnV>)
    ensures
        (match splice_spec(t, stack2, defs) {
            Result::Ok(out) => forall|j: int|
                0 <= j < out.len() ==> {
                    let d = #[trigger] out[j];
                    &&& !(d.kind is Require)
                    &&& (d.kind is Provide ==> defs.contains(d))
                },
            Result::Err(_) => true,
        }),
    decreases defs.len(),
{
    if defs.len() != 0 && splice_spec(t, stack2, defs) is Ok {
        lemma_splice_output_clean(t, stack2, defs.drop_last());
        let front = splice_spec(t, stack2, defs.drop_last())->Ok_0;
        let one = splice_one(t, stack2, defs.last())->Ok_0;
        match defs.last().kind {
            DefnKindV::Require(m) => {
                lemma_mangle_defs_names(resolve_spec(t, m, stack2)->Ok_0.defs, m);
            },
            _ => {},
        }
        let out = splice_spec(t, stack2, defs)->Ok_0;
        assert forall|j: int| 0 <= j < out.len() implies {
            let d = #[trigger] out[j];
            &&& !(d.kind is Require)
            &&& (d.kind is Provide ==> defs.contains(d))
        } by {
            if j < front.len() {
                assert(out[j] == front[j]);
                if front[j].kind is Provide {
                    let i = choose|i: int|
                        0 <= i < defs.drop_last().len() && defs.drop_last()[i] == front[j];
                    assert(defs[i] == front[j]);
                }
            } else {
                assert(out[j] == one[j - front.len()]);
                if one[j - front.len()].kind is Provide {
                    assert(one[j - front.len()] == defs.last());
                    assert(defs[defs.len() - 1] == defs.last());
                }
            }
        }
    }
}

/// After a successful resolution the result holds no `Require` definition,
/// and every surviving `Provide` marker is one the root module itself
/// wrote: inlined dependencies contribute neither.
pub proof fn lemma_resolution_require_free(t: Seq<(u64, ProgV)>, id: ModuleId, stack: Set<u64>)
    ensures
        (match resolve_spec(t, id, stack) {
            Result::Ok(p) => forall|j: int|
                0 <= j < p.defs.len() ==> {
                    let d = #[trigger] p.defs[j];
                    &&& !(d.kind is Require)
                    &&& (d.kind is Provide ==> table_find(t, id.tag)->Some_0.defs.contains(d))
                },
            Result::Err(_) => true,
        }),
{
    if !stack.contains(id.tag) {
        match table_find(t, id.tag) {
            Option::Some(p0) => {
                lemma_splice_output_clean(t, stack.insert(id.tag), p0.defs);
            },
            Option::None => {},
        }
    }
}

// ----- body-level hygiene -----

/// A name qualified with `source`'s tag.
pub open spec fn from_tag(v: SymV, source: ModuleId) -> bool {
    v matches SymV::Tagged(_, t) && t == source.tag
}

/// Every symbol occurring anywhere in an expression: references, binders,
/// struct and field names, and the symbols of embedded types and
/// compile-time expressions.
pub open spec fn expr_syms(e: ExprV) -> Set<SymV>
    decreases e,
{
    match e.kind {
        ExprKindV::LitNum(_) => Set::empty(),
        ExprKindV::LitVec(l) => expr_list_syms(*l),
        ExprKindV::LitStruct(s, fs) => field_list_syms(*fs).insert(s),
        ExprKindV::Var(s) => Set::empty().insert(s),
        ExprKindV::CgVar(s) => Set::empty().insert(s),
        ExprKindV::Let(x, b, body) => expr_syms(*b).union(expr_syms(*body)).insert(x),
        ExprKindV::If(c, a, b) => expr_syms(*c).union(expr_syms(*a)).union(expr_syms(*b)),
        ExprKindV::BinOp(_, a, b) => expr_syms(*a).union(expr_syms(*b)),
        ExprKindV::Apply(f, args) => expr_syms(*f).union(expr_list_syms(*args)),
        ExprKindV::Field(a, f) => expr_syms(*a).insert(f),
        ExprKindV::VectorRef(v, i) => expr_syms(*v).union(expr_syms(*i)),
        ExprKindV::VectorSlice(v, i, j) => expr_syms(*v).union(expr_syms(*i)).union(expr_syms(*j)),
        ExprKindV::VectorUpdate(v, i, x) => expr_syms(*v).union(expr_syms(*i)).union(
            expr_syms(*x),
        ),
        ExprKindV::Loop(n, binds, end) => const_syms(*n).union(bind_list_syms(*binds)).union(
            expr_syms(*end),
        ),
        ExprKindV::IsType(s, t) => type_syms(*t).insert(s),
        ExprKindV::AsType(a, t) => expr_syms(*a).union(type_syms(*t)),
        ExprKindV::Fail => Set::empty(),
    }
}

pub open spec fn expr_list_syms(l: ExprListV) -> Set<SymV>
    decreases l,
{
    match l {
        ExprListV::Nil => Set::empty(),
        ExprListV::Cons(h, t) => expr_syms(*h).union(expr_list_syms(*t)),
    }
}

pub open spec fn field_list_syms(l: FieldListV) -> Set<SymV>
    decreases l,
{
    match l {
        FieldListV::Nil => Set::empty(),
        FieldListV::Cons(k, v, t) => expr_syms(*v).union(field_list_syms(*t)).insert(k),
    }
}

pub open spec fn bind_list_syms(l: BindListV) -> Set<SymV>
    decreases l,
{
    match l {
        BindListV::Nil => Set::empty(),
        BindListV::Cons(k, v, t) => expr_syms(*v).union(bind_list_syms(*t)).insert(k),
    }
}

pub open spec fn const_syms(c: ConstExprV) -> Set<SymV>
    decreases c,
{
    match c.kind {
        ConstKindV::Sym(s) => Set::empty().insert(s),
        ConstKindV::Lit(_) => Set::empty(),
        ConstKindV::Plus(a, b) => const_syms(*a).union(const_syms(*b)),
        ConstKindV::Mult(a, b) => const_syms(*a).union(const_syms(*b)),
    }
}

pub open spec fn type_syms(t: TypeExprV) -> Set<SymV>
    decreases t,
{
    match t.kind {
        TypeKindV::Sym(s) => Set::empty().insert(s),
        TypeKindV::Union(a, b) => type_syms(*a).union(type_syms(*b)),
        TypeKindV::Vector(l) => type_list_syms(*l),
        TypeKindV::Vectorof(a, n) => type_syms(*a).union(const_syms(*n)),
        TypeKindV::NatRange(i, j) => const_syms(*i).union(const_syms(*j)),
    }
}

pub open spec fn type_list_syms(l: TypeListV) -> Set<SymV>
    decreases l,
{
    match l {
        TypeListV::Nil => Set::empty(),
        TypeListV::Cons(h, t) => type_syms(*h).union(type_list_syms(*t)),
    }
}

pub proof fn lemma_mangled_const_syms(c: ConstExprV, source: ModuleId, ns: Set<SymV>)
    ensures
        forall|v: SymV|
            const_syms(spec_mangle_const(c, source, ns)).contains(v) ==> from_tag(v, source)
                || const_syms(c).contains(v),
    decreases c,
{
    match c.kind {
        ConstKindV::Plus(a, b) => {
            lemma_mangled_const_syms(*a, source, ns);
            lemma_mangled_const_syms(*b, source, ns);
        },
        ConstKindV::Mult(a, b) => {
            lemma_mangled_const_syms(*a, source, ns);
            lemma_mangled_const_syms(*b, source, ns);
        },
        _ => {},
    }
}

pub proof fn lemma_mangled_type_syms(t: TypeExprV, source: ModuleId, ns: Set<SymV>)
    ensures
        forall|v: SymV|
            type_syms(spec_mangle_type(t, source, ns)).contains(v) ==> from_tag(v, source)
                || type_syms(t).contains(v),
    decreases t,
{
    match t.kind {
        TypeKindV::Union(a, b) => {
            lemma_mangled_type_syms(*a, source, ns);
            lemma_mangled_type_syms(*b, source, ns);
        },
        TypeKindV::Vector(l) => {
            lemma_mangled_type_list_syms(*l, source, ns);
        },
        TypeKindV::Vectorof(a, n) => {
            lemma_mangled_type_syms(*a, source, ns);
            lemma_mangled_const_syms(*n, source, ns);
        },
        TypeKindV::NatRange(i, j) => {
            lemma_mangled_const_syms(*i, source, ns);
            lemma_mangled_const_syms(*j, source, ns);
        },
        _ => {},
    }
}

pub proof fn lemma_mangled_type_list_syms(l: TypeListV, source: ModuleId, ns: Set<SymV>)
    ensures
        forall|v: SymV|
            type_list_syms(spec_mangle_type_list(l, source, ns)).contains(v) ==> from_tag(
                v,
                source,
            ) || type_list_syms(l).contains(v),
    decreases l,
{
    match l {
        TypeListV::Cons(h, t) => {
            lemma_mangled_type_syms(*h, source, ns);
            lemma_mangled_type_list_syms(*t, source, ns);
        },
        TypeListV::Nil => {},
    }
}

/// Body-level hygiene: every symbol occurring in a renamed expression is
/// either qualified with the renaming module's own tag, or occurs verbatim
/// in the expression as written. Renaming for one module can therefore
/// never produce another module's qualified names.
pub proof fn lemma_mangled_expr_syms(e: ExprV, source: ModuleId, ns: Set<SymV>)
    ensures
        forall|v: SymV|
            expr_syms(spec_mangle_expr(e, source, ns)).contains(v) ==> from_tag(v, source)
                || expr_syms(e).contains(v),
    decreases e,
{
    match e.kind {
        ExprKindV::LitVec(l) => {
            lemma_mangled_expr_list_syms(*l, source, ns);
        },
        ExprKindV::LitStruct(_, fs) => {
            lemma_mangled_field_list_syms(*fs, source, ns);
        },
        ExprKindV::Let(x, b, body) => {
            lemma_mangled_expr_syms(*b, source, ns);
            lemma_mangled_expr_syms(*body, source, ns.insert(x));
        },
        ExprKindV::If(c, a, b) => {
            lemma_mangled_expr_syms(*c, source, ns);
            lemma_mangled_expr_syms(*a, source, ns);
            lemma_mangled_expr_syms(*b, source, ns);
        },
        ExprKindV::BinOp(_, a, b) => {
            lemma_mangled_expr_syms(*a, source, ns);
            lemma_mangled_expr_syms(*b, source, ns);
        },
        ExprKindV::Apply(f, args) => {
            lemma_mangled_expr_syms(*f, source, ns);
            lemma_mangled_expr_list_syms(*args, source, ns);
        },
        ExprKindV::Field(a, _) => {
            lemma_mangled_expr_syms(*a, source, ns);
        },
        ExprKindV::VectorRef(v, i) => {
            lemma_mangled_expr_syms(*v, source, ns);
            lemma_mangled_expr_syms(*i, source, ns);
        },
        ExprKindV::VectorSlice(v, i, j) => {
            lemma_mangled_expr_syms(*v, source, ns);
            lemma_mangled_expr_syms(*i, source, ns);
            lemma_mangled_expr_syms(*j, source, ns);
        },
        ExprKindV::VectorUpdate(v, i, x) => {
            lemma_mangled_expr_syms(*v, source, ns);
            lemma_mangled_expr_syms(*i, source, ns);
            lemma_mangled_expr_syms(*x, source, ns);
        },
        ExprKindV::Loop(n, binds, end) => {
            lemma_mangled_const_syms(*n, source, ns);
            lemma_mangled_bind_list_syms(*binds, source, ns);
            lemma_mangled_expr_syms(*end, source, ns);
        },
        ExprKindV::IsType(_, t) => {
            lemma_mangled_type_syms(*t, source, ns);
        },
        ExprKindV::AsType(a, t) => {
            lemma_mangled_expr_syms(*a, source, ns);
            lemma_mangled_type_syms(*t, source, ns);
        },
        _ => {},
    }
}

pub proof fn lemma_mangled_expr_list_syms(l: ExprListV, source: ModuleId, ns: Set<SymV>)
    ensures
        forall|v: SymV|
            expr_list_syms(spec_mangle_expr_list(l, source, ns)).contains(v) ==> from_tag(
                v,
                source,
            ) || expr_list_syms(l).contains(v),
    decreases l,
{
    match l {
        ExprListV::Cons(h, t) => {
            lemma_mangled_expr_syms(*h, source, ns);
            lemma_mangled_expr_list_syms(*t, source, ns);
        },
        ExprListV::Nil => {},
    }
}

pub proof fn lemma_mangled_field_list_syms(l: FieldListV, source: ModuleId, ns: Set<SymV>)
    ensures
        forall|v: SymV|
            field_list_syms(spec_mangle_field_list(l, source, ns)).contains(v) ==> from_tag(
                v,
                source,
            ) || field_list_syms(l).contains(v),
    decreases l,
{
    match l {
        FieldListV::Cons(_, v0, t) => {
            lemma_mangled_expr_syms(*v0, source, ns);
            lemma_mangled_field_list_syms(*t, source, ns);
        },
        FieldListV::Nil => {},
    }
}

pub proof fn lemma_mangled_bind_list_syms(l: BindListV, source: ModuleId, ns: Set<SymV>)
    ensures
        forall|v: SymV|
            bind_list_syms(spec_mangle_bind_list(l, source, ns)).contains(v) ==> from_tag(
                v,
                source,
            ) || bind_list_syms(l).contains(v),
    decreases l,
{
    match l {
        BindListV::Cons(_, v0, t) => {
            lemma_mangled_expr_syms(*v0, source, ns);
            lemma_mangled_bind_list_syms(*t, source, ns);
        },
        BindListV::Nil => {},
    }
}

} // verus!
