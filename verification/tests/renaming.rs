use demod::ast::{
    BinOp, BindList, ConstExpr, ConstKind, CtxSym, Defn, DefnKind, Expr, ExprKind, ExprList,
    FieldList, ModuleId, Param, Pos, Symbol, TypeExpr, TypeKind,
};
use demod::mangling::{mangle, mangle_const_expr, mangle_ctx_sym, mangle_expr, mangle_sym,
    mangle_type_expr};

fn pos() -> Pos {
    Pos { line: 1, col: 1 }
}

fn name(s: &str) -> Symbol {
    Symbol::Named(s.to_string())
}

fn tagged(s: &str, t: u64) -> Symbol {
    Symbol::Tagged(Box::new(name(s)), t)
}

fn mid(t: u64) -> ModuleId {
    ModuleId { tag: t }
}

fn num(n: u64) -> Expr {
    Expr { pos: pos(), kind: ExprKind::LitNum(n) }
}

fn func(fname: &str, body: Expr) -> Defn {
    Defn {
        pos: pos(),
        kind: DefnKind::Function {
            name: CtxSym { pos: pos(), sym: name(fname) },
            cgvars: vec![],
            genvars: vec![],
            params: vec![],
            rettype: None,
            body,
        },
    }
}

fn provide(s: &str) -> Defn {
    Defn { pos: pos(), kind: DefnKind::Provide(name(s)) }
}

fn defn_name(d: &Defn) -> Symbol {
    match &d.kind {
        DefnKind::Function { name, .. } => clone_sym(&name.sym),
        DefnKind::Struct { name, .. } => clone_sym(&name.sym),
        DefnKind::Constant { name, .. } => clone_sym(&name.sym),
        _ => panic!("definition without a name"),
    }
}

fn clone_sym(s: &Symbol) -> Symbol {
    match s {
        Symbol::Named(x) => Symbol::Named(x.clone()),
        Symbol::Tagged(b, t) => Symbol::Tagged(Box::new(clone_sym(b)), *t),
    }
}

#[test]
fn unprovided_symbol_is_tagged() {
    let r = mangle_sym(name("f"), mid(7), &vec![]);
    assert_eq!(r, tagged("f", 7));
}

#[test]
fn provided_symbol_is_kept() {
    let r = mangle_sym(name("f"), mid(7), &vec![name("f")]);
    assert_eq!(r, name("f"));
}

#[test]
fn renaming_twice_nests_tags() {
    let once = mangle_sym(name("f"), mid(1), &vec![]);
    let twice = mangle_sym(once, mid(2), &vec![]);
    assert_eq!(twice, Symbol::Tagged(Box::new(tagged("f", 1)), 2));
}

#[test]
fn ctx_sym_keeps_position() {
    let c = CtxSym { pos: Pos { line: 4, col: 9 }, sym: name("f") };
    let r = mangle_ctx_sym(c, mid(3), &vec![]);
    assert_eq!(r.pos, Pos { line: 4, col: 9 });
    assert_eq!(r.sym, tagged("f", 3));
}

#[test]
fn const_expr_renames_symbols_and_keeps_literals() {
    let c = ConstExpr {
        pos: pos(),
        kind: ConstKind::Plus(
            Box::new(ConstExpr { pos: pos(), kind: ConstKind::Sym(name("n")) }),
            Box::new(ConstExpr { pos: pos(), kind: ConstKind::Lit(2) }),
        ),
    };
    let r = mangle_const_expr(&c, mid(5), &vec![name("m")]);
    match r.kind {
        ConstKind::Plus(a, b) => {
            assert_eq!(a.kind, ConstKind::Sym(tagged("n", 5)));
            assert_eq!(b.kind, ConstKind::Lit(2));
        },
        _ => panic!("shape changed"),
    }
}

#[test]
fn type_expr_renames_embedded_symbols() {
    let t = TypeExpr {
        pos: pos(),
        kind: TypeKind::Vectorof(
            Box::new(TypeExpr { pos: pos(), kind: TypeKind::Sym(name("T")) }),
            Box::new(ConstExpr { pos: pos(), kind: ConstKind::Sym(name("n")) }),
        ),
    };
    let r = mangle_type_expr(&t, mid(6), &vec![name("n")]);
    match r.kind {
        TypeKind::Vectorof(elem, len) => {
            assert_eq!(elem.kind, TypeKind::Sym(tagged("T", 6)));
            assert_eq!(len.kind, ConstKind::Sym(name("n")));
        },
        _ => panic!("shape changed"),
    }
}

#[test]
fn let_body_sees_binder_but_value_does_not() {
    // let x = x in x + y  — the bound value's x refers to the outer (module
    // scope) x and is renamed; the body's x is the local binding and is not.
    let e = Expr {
        pos: pos(),
        kind: ExprKind::Let(
            name("x"),
            Box::new(Expr { pos: pos(), kind: ExprKind::Var(name("x")) }),
            Box::new(Expr {
                pos: pos(),
                kind: ExprKind::BinOp(
                    BinOp::Add,
                    Box::new(Expr { pos: pos(), kind: ExprKind::Var(name("x")) }),
                    Box::new(Expr { pos: pos(), kind: ExprKind::Var(name("y")) }),
                ),
            }),
        ),
    };
    let r = mangle_expr(&e, mid(8), &vec![]);
    match r.kind {
        ExprKind::Let(binder, value, body) => {
            assert_eq!(binder, name("x"));
            assert_eq!(value.kind, ExprKind::Var(tagged("x", 8)));
            match body.kind {
                ExprKind::BinOp(BinOp::Add, a, b) => {
                    assert_eq!(a.kind, ExprKind::Var(name("x")));
                    assert_eq!(b.kind, ExprKind::Var(tagged("y", 8)));
                },
                _ => panic!("shape changed"),
            }
        },
        _ => panic!("shape changed"),
    }
}

#[test]
fn struct_literal_field_names_are_kept() {
    let e = Expr {
        pos: pos(),
        kind: ExprKind::LitStruct(
            name("Point"),
            FieldList::Cons(name("x"), Box::new(num(1)), Box::new(FieldList::Nil)),
        ),
    };
    let r = mangle_expr(&e, mid(4), &vec![]);
    match r.kind {
        ExprKind::LitStruct(s, FieldList::Cons(k, v, rest)) => {
            assert_eq!(s, tagged("Point", 4));
            assert_eq!(k, name("x"));
            assert_eq!(v.kind, ExprKind::LitNum(1));
            assert_eq!(*rest, FieldList::Nil);
        },
        _ => panic!("shape changed"),
    }
}

#[test]
fn function_arguments_shield_body_but_not_return_type() {
    let d = Defn {
        pos: pos(),
        kind: DefnKind::Function {
            name: CtxSym { pos: pos(), sym: name("f") },
            cgvars: vec![],
            genvars: vec![],
            params: vec![Param {
                pos: pos(),
                name: name("a"),
                bind: TypeExpr { pos: pos(), kind: TypeKind::Sym(name("a")) },
            }],
            rettype: Some(TypeExpr { pos: pos(), kind: TypeKind::Sym(name("a")) }),
            body: Expr { pos: pos(), kind: ExprKind::Var(name("a")) },
        },
    };
    let r = mangle(&vec![d], mid(2));
    assert_eq!(r.len(), 1);
    match &r[0].kind {
        DefnKind::Function { name: n, params, rettype, body, .. } => {
            assert_eq!(n.sym, tagged("f", 2));
            // the argument's type annotation is renamed under the inner set,
            // which holds the argument name itself
            assert_eq!(params[0].name, name("a"));
            assert_eq!(params[0].bind.kind, TypeKind::Sym(name("a")));
            // the return type sees only the outer set
            assert_eq!(rettype.as_ref().unwrap().kind, TypeKind::Sym(tagged("a", 2)));
            assert_eq!(body.kind, ExprKind::Var(name("a")));
        },
        _ => panic!("shape changed"),
    }
}

#[test]
fn mangle_drops_directives_and_respects_provides() {
    let defs = vec![
        provide("g"),
        func("g", num(1)),
        func("h", num(2)),
    ];
    let r = mangle(&defs, mid(3));
    assert_eq!(r.len(), 2);
    assert_eq!(defn_name(&r[0]), name("g"));
    assert_eq!(defn_name(&r[1]), tagged("h", 3));
}

#[test]
fn constants_rename_like_functions() {
    let d = Defn {
        pos: pos(),
        kind: DefnKind::Constant {
            name: CtxSym { pos: pos(), sym: name("c") },
            value: Expr { pos: pos(), kind: ExprKind::Var(name("g")) },
        },
    };
    let r = mangle(&vec![provide("g"), d], mid(9));
    assert_eq!(r.len(), 1);
    match &r[0].kind {
        DefnKind::Constant { name: n, value } => {
            assert_eq!(n.sym, tagged("c", 9));
            assert_eq!(value.kind, ExprKind::Var(name("g")));
        },
        _ => panic!("shape changed"),
    }
}

#[test]
fn positions_survive_renaming() {
    let d = func("f", Expr { pos: Pos { line: 7, col: 3 }, kind: ExprKind::Var(name("g")) });
    let r = mangle(&vec![d], mid(1));
    match &r[0].kind {
        DefnKind::Function { body, .. } => {
            assert_eq!(body.pos, Pos { line: 7, col: 3 });
        },
        _ => panic!("shape changed"),
    }
}

#[test]
fn loop_accumulator_bindings_are_renamed_as_references() {
    let e = Expr {
        pos: pos(),
        kind: ExprKind::Loop(
            Box::new(ConstExpr { pos: pos(), kind: ConstKind::Lit(3) }),
            BindList::Cons(
                name("acc"),
                Box::new(Expr { pos: pos(), kind: ExprKind::Var(name("acc")) }),
                Box::new(BindList::Nil),
            ),
            Box::new(Expr { pos: pos(), kind: ExprKind::Var(name("acc")) }),
        ),
    };
    let r = mangle_expr(&e, mid(5), &vec![]);
    match r.kind {
        ExprKind::Loop(n, BindList::Cons(k, v, rest), end) => {
            assert_eq!(n.kind, ConstKind::Lit(3));
            // the accumulator binder is treated as a plain reference under
            // the unchanged set, like every name at that position
            assert_eq!(k, tagged("acc", 5));
            assert_eq!(v.kind, ExprKind::Var(tagged("acc", 5)));
            assert_eq!(end.kind, ExprKind::Var(tagged("acc", 5)));
            assert_eq!(*rest, BindList::Nil);
        },
        _ => panic!("shape changed"),
    }
}

#[test]
fn application_and_type_tests_recurse() {
    let e = Expr {
        pos: pos(),
        kind: ExprKind::Apply(
            Box::new(Expr { pos: pos(), kind: ExprKind::Var(name("f")) }),
            ExprList::Cons(
                Box::new(Expr {
                    pos: pos(),
                    kind: ExprKind::IsType(
                        name("v"),
                        Box::new(TypeExpr { pos: pos(), kind: TypeKind::Sym(name("T")) }),
                    ),
                }),
                Box::new(ExprList::Nil),
            ),
        ),
    };
    let r = mangle_expr(&e, mid(2), &vec![name("f")]);
    match r.kind {
        ExprKind::Apply(f, ExprList::Cons(arg, rest)) => {
            assert_eq!(f.kind, ExprKind::Var(name("f")));
            match &arg.kind {
                ExprKind::IsType(s, t) => {
                    assert_eq!(*s, tagged("v", 2));
                    assert_eq!(t.kind, TypeKind::Sym(tagged("T", 2)));
                },
                _ => panic!("shape changed"),
            }
            assert_eq!(*rest, ExprList::Nil);
        },
        _ => panic!("shape changed"),
    }
}

#[test]
fn generic_parameters_shield_the_body() {
    let d = Defn {
        pos: pos(),
        kind: DefnKind::Function {
            name: CtxSym { pos: pos(), sym: name("f") },
            cgvars: vec![name("n")],
            genvars: vec![name("T")],
            params: vec![],
            rettype: None,
            body: Expr {
                pos: pos(),
                kind: ExprKind::BinOp(
                    BinOp::Add,
                    Box::new(Expr { pos: pos(), kind: ExprKind::CgVar(name("n")) }),
                    Box::new(Expr { pos: pos(), kind: ExprKind::Var(name("T")) }),
                ),
            },
        },
    };
    let r = mangle(&vec![d], mid(6));
    match &r[0].kind {
        DefnKind::Function { body, .. } => match &body.kind {
            ExprKind::BinOp(BinOp::Add, a, b) => {
                assert_eq!(a.kind, ExprKind::CgVar(name("n")));
                assert_eq!(b.kind, ExprKind::Var(name("T")));
            },
            _ => panic!("shape changed"),
        },
        _ => panic!("shape changed"),
    }
}
