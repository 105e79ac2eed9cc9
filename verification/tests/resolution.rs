use demod::ast::{
    CtxSym, Defn, DefnKind, Expr, ExprKind, ModuleId, Pos, Program, Symbol,
};
use demod::resolver::{Demodularizer, ModuleTable, ResolveErr};

fn pos() -> Pos {
    Pos { line: 1, col: 1 }
}

fn name(s: &str) -> Symbol {
    Symbol::Named(s.to_string())
}

fn tagged(s: &str, t: u64) -> Symbol {
    Symbol::Tagged(Box::new(name(s)), t)
}

fn mid(t: u64) -> ModuleId {
    ModuleId { tag: t }
}

fn num(n: u64) -> Expr {
    Expr { pos: pos(), kind: ExprKind::LitNum(n) }
}

fn var(s: &str) -> Expr {
    Expr { pos: pos(), kind: ExprKind::Var(name(s)) }
}

fn func(fname: &str, body: Expr) -> Defn {
    Defn {
        pos: pos(),
        kind: DefnKind::Function {
            name: CtxSym { pos: pos(), sym: name(fname) },
            cgvars: vec![],
            genvars: vec![],
            params: vec![],
            rettype: None,
            body,
        },
    }
}

fn require(m: ModuleId) -> Defn {
    Defn { pos: pos(), kind: DefnKind::Require(m) }
}

fn provide(s: &str) -> Defn {
    Defn { pos: pos(), kind: DefnKind::Provide(name(s)) }
}

fn prog(defs: Vec<Defn>, body: Expr) -> Program {
    Program { defs, body }
}

fn defn_name(d: &Defn) -> &Symbol {
    match &d.kind {
        DefnKind::Function { name, .. } => &name.sym,
        DefnKind::Struct { name, .. } => &name.sym,
        DefnKind::Constant { name, .. } => &name.sym,
        _ => panic!("definition without a name"),
    }
}

#[test]
fn missing_module_is_unavailable() {
    let mut d = Demodularizer::new(ModuleTable::new());
    let r = d.demod(mid(42));
    assert_eq!(r.unwrap_err(), ResolveErr::Unavailable(mid(42)));
}

#[test]
fn single_module_passes_through() {
    let mut t = ModuleTable::new();
    t.add(mid(1), prog(vec![provide("f"), func("f", num(1))], num(0)));
    let mut d = Demodularizer::new(t);
    let p = d.demod(mid(1)).unwrap();
    // the root module's own definitions are untouched: its provide marker
    // survives and nothing is renamed
    assert_eq!(p.defs.len(), 2);
    assert_eq!(p.defs[0].kind, DefnKind::Provide(name("f")));
    assert_eq!(*defn_name(&p.defs[1]), name("f"));
}

#[test]
fn private_names_of_distinct_modules_stay_apart() {
    // both modules define a private `f`; after inlining they must differ,
    // and each body reference follows its own module's name
    let mut t = ModuleTable::new();
    t.add(mid(1), prog(vec![require(mid(2)), func("f", var("f"))], num(0)));
    t.add(mid(2), prog(vec![func("f", var("f"))], num(0)));
    let mut d = Demodularizer::new(t);
    let p = d.demod(mid(1)).unwrap();
    assert_eq!(p.defs.len(), 2);
    // the dependency's copy is renamed with its own tag, reference included
    assert_eq!(*defn_name(&p.defs[0]), tagged("f", 2));
    match &p.defs[0].kind {
        DefnKind::Function { body, .. } => {
            assert_eq!(body.kind, ExprKind::Var(tagged("f", 2)));
        },
        _ => panic!("shape changed"),
    }
    // the root's own copy is untouched
    assert_eq!(*defn_name(&p.defs[1]), name("f"));
    assert_ne!(defn_name(&p.defs[0]), defn_name(&p.defs[1]));
}

#[test]
fn reexport_must_be_explicit() {
    // C provides g; B requires C but does not re-provide g; A requires B.
    // No top-level definition of A's result may be plainly named g.
    let mut t = ModuleTable::new();
    t.add(mid(1), prog(vec![require(mid(2))], num(0)));
    t.add(mid(2), prog(vec![require(mid(3))], num(0)));
    t.add(mid(3), prog(vec![provide("g"), func("g", num(3))], num(0)));
    let mut d = Demodularizer::new(t);
    let p = d.demod(mid(1)).unwrap();
    assert_eq!(p.defs.len(), 1);
    // g stayed plain while B was resolved, but B does not provide it, so
    // inlining B into A renames it with B's tag
    assert_eq!(*defn_name(&p.defs[0]), tagged("g", 2));
    for d in &p.defs {
        assert_ne!(*defn_name(d), name("g"));
    }
}

#[test]
fn reexport_keeps_provided_names_visible() {
    // as above, but B re-provides g: A then sees it plainly
    let mut t = ModuleTable::new();
    t.add(mid(1), prog(vec![require(mid(2))], num(0)));
    t.add(mid(2), prog(vec![require(mid(3)), provide("g")], num(0)));
    t.add(mid(3), prog(vec![provide("g"), func("g", num(3))], num(0)));
    let mut d = Demodularizer::new(t);
    let p = d.demod(mid(1)).unwrap();
    assert_eq!(p.defs.len(), 1);
    assert_eq!(*defn_name(&p.defs[0]), name("g"));
}

#[test]
fn order_is_preserved() {
    // [F1, Require(M), F2] with M flattening to [G1, G2] yields
    // [F1, renamed G1, renamed G2, F2]
    let mut t = ModuleTable::new();
    t.add(
        mid(1),
        prog(vec![func("f1", num(1)), require(mid(9)), func("f2", num(2))], num(0)),
    );
    t.add(mid(9), prog(vec![func("g1", num(3)), func("g2", num(4))], num(0)));
    let mut d = Demodularizer::new(t);
    let p = d.demod(mid(1)).unwrap();
    assert_eq!(p.defs.len(), 4);
    assert_eq!(*defn_name(&p.defs[0]), name("f1"));
    assert_eq!(*defn_name(&p.defs[1]), tagged("g1", 9));
    assert_eq!(*defn_name(&p.defs[2]), tagged("g2", 9));
    assert_eq!(*defn_name(&p.defs[3]), name("f2"));
}

#[test]
fn body_of_dependency_is_not_inlined() {
    let mut t = ModuleTable::new();
    t.add(mid(1), prog(vec![require(mid(2))], num(7)));
    t.add(mid(2), prog(vec![func("g", num(1))], num(8)));
    let mut d = Demodularizer::new(t);
    let p = d.demod(mid(1)).unwrap();
    // the root's body is kept; the dependency's body is dropped with it
    assert_eq!(p.body, num(7));
}

#[test]
fn second_resolution_is_cached() {
    let mut t = ModuleTable::new();
    t.add(mid(1), prog(vec![require(mid(2)), func("f", num(1))], num(0)));
    t.add(mid(2), prog(vec![func("g", num(2))], num(0)));
    let mut d = Demodularizer::new(t);
    let first = d.demod(mid(1)).unwrap();
    let after_first = d.load_count();
    let second = d.demod(mid(1)).unwrap();
    let after_second = d.load_count();
    // value-equal results, and the second call consulted no module source
    assert_eq!(first, second);
    assert_eq!(after_first, after_second);
    assert!(after_first > 0);
}

#[test]
fn caching_is_per_module() {
    let mut t = ModuleTable::new();
    t.add(mid(1), prog(vec![func("f", num(1))], num(0)));
    t.add(mid(2), prog(vec![func("g", num(2))], num(0)));
    let mut d = Demodularizer::new(t);
    let p1a = d.demod(mid(1)).unwrap();
    let p2 = d.demod(mid(2)).unwrap();
    let p1b = d.demod(mid(1)).unwrap();
    assert_eq!(p1a, p1b);
    assert_ne!(p1a, p2);
}

#[test]
fn two_module_cycle_fails_fast() {
    let mut t = ModuleTable::new();
    t.add(mid(1), prog(vec![require(mid(2))], num(0)));
    t.add(mid(2), prog(vec![require(mid(1))], num(0)));
    let mut d = Demodularizer::new(t);
    let r = d.demod(mid(1));
    assert_eq!(r.unwrap_err(), ResolveErr::Cycle(mid(1)));
}

#[test]
fn self_cycle_fails_fast() {
    let mut t = ModuleTable::new();
    t.add(mid(1), prog(vec![require(mid(1))], num(0)));
    let mut d = Demodularizer::new(t);
    let r = d.demod(mid(1));
    assert_eq!(r.unwrap_err(), ResolveErr::Cycle(mid(1)));
}

#[test]
fn missing_dependency_fails_whole_resolution() {
    let mut t = ModuleTable::new();
    t.add(mid(1), prog(vec![require(mid(5))], num(0)));
    let mut d = Demodularizer::new(t);
    let r = d.demod(mid(1));
    assert_eq!(r.unwrap_err(), ResolveErr::Unavailable(mid(5)));
}

#[test]
fn failures_are_not_cached() {
    let mut t = ModuleTable::new();
    t.add(mid(1), prog(vec![require(mid(5))], num(0)));
    let mut d = Demodularizer::new(t);
    assert!(d.demod(mid(1)).is_err());
    let n1 = d.load_count();
    assert!(d.demod(mid(1)).is_err());
    let n2 = d.load_count();
    // the failed resolution was retried: the table was consulted again
    assert!(n2 > n1);
}

#[test]
fn diamond_dependencies_are_expanded_twice() {
    // A requires B and C; both require D: D's definitions appear once per
    // require edge, each renamed with D's tag
    let mut t = ModuleTable::new();
    t.add(mid(1), prog(vec![require(mid(2)), require(mid(3))], num(0)));
    t.add(mid(2), prog(vec![require(mid(4))], num(0)));
    t.add(mid(3), prog(vec![require(mid(4))], num(0)));
    t.add(mid(4), prog(vec![func("d", num(4))], num(0)));
    let mut d = Demodularizer::new(t);
    let p = d.demod(mid(1)).unwrap();
    assert_eq!(p.defs.len(), 2);
    // both copies carry first D's tag, then the inliner's tag on top
    assert_eq!(
        *defn_name(&p.defs[0]),
        Symbol::Tagged(Box::new(tagged("d", 4)), 2)
    );
    assert_eq!(
        *defn_name(&p.defs[1]),
        Symbol::Tagged(Box::new(tagged("d", 4)), 3)
    );
}
