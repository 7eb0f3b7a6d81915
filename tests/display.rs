use id_arena::Arena;
use ir_display::display::DisplayIr;
use ir_display::ir::{
    BinaryOp, Expr, ExprId, Function, FunctionKind, ImportedFunction, Local, LocalFunction,
    UnaryOp,
};

fn eid(index: usize) -> ExprId {
    ExprId { index }
}

fn local_function(exprs: Vec<Expr>, entry: usize) -> Function {
    Function { kind: FunctionKind::Local(LocalFunction::new(exprs, eid(entry))) }
}

#[test]
fn imported_function_prints_placeholder() {
    let f = Function { kind: FunctionKind::Import(ImportedFunction { import: 3 }) };
    assert_eq!(f.display(), "(import func)");
}

#[test]
fn imported_function_display_ir_appends() {
    let i = ImportedFunction { import: 0 };
    let mut s = String::from("x");
    i.display_ir(&mut s, &(), 0);
    assert_eq!(s, "x(import func)");
}

#[test]
fn single_leaf_body() {
    let f = local_function(vec![Expr::Const { value: 5 }], 0);
    assert_eq!(f.display(), "        (func\n(;  0;)   (i64.const 5)\n        )");
}

#[test]
fn binary_node_over_two_leaves() {
    let mut locals: Arena<Local> = Arena::new();
    let l0 = locals.alloc(Local { name: None });
    let exprs = vec![
        Expr::Binop { op: BinaryOp::I32Add, lhs: eid(1), rhs: eid(2) },
        Expr::LocalGet { local: l0 },
        Expr::Const { value: -3 },
    ];
    let f = local_function(exprs, 0);
    let expected = "        (func\n\
(;  0;)   (i32.add\n\
(;  1;)     (local.get 0)\n\
(;  2;)     (i64.const -3)\n          \
)\n        )";
    assert_eq!(f.display(), expected);
}

#[test]
fn children_allocated_before_parent() {
    let exprs = vec![
        Expr::Const { value: 1 },
        Expr::Unop { op: UnaryOp::I32Eqz, expr: eid(0) },
    ];
    let f = local_function(exprs, 1);
    let expected = "        (func\n\
(;  1;)   (i32.eqz\n\
(;  0;)     (i64.const 1)\n          \
)\n        )";
    assert_eq!(f.display(), expected);
}

#[test]
fn nested_closers_align_with_their_nodes() {
    let exprs = vec![
        Expr::Drop { expr: eid(1) },
        Expr::Unop { op: UnaryOp::I32Clz, expr: eid(2) },
        Expr::Unreachable,
    ];
    let f = local_function(exprs, 0);
    let expected = "        (func\n\
(;  0;)   (drop\n\
(;  1;)     (i32.clz\n\
(;  2;)       (unreachable)\n            \
)\n          \
)\n        )";
    assert_eq!(f.display(), expected);
}

#[test]
fn local_set_prints_reference_before_operand() {
    let mut locals: Arena<Local> = Arena::new();
    let _a = locals.alloc(Local { name: None });
    let b = locals.alloc(Local { name: Some(String::from("b")) });
    let exprs = vec![
        Expr::LocalSet { local: b, value: eid(1) },
        Expr::LocalTee { local: b, value: eid(2) },
        Expr::Const { value: 42 },
    ];
    let f = local_function(exprs, 0);
    let expected = "        (func\n\
(;  0;)   (local.set 1\n\
(;  1;)     (local.tee 1\n\
(;  2;)       (i64.const 42)\n            \
)\n          \
)\n        )";
    assert_eq!(f.display(), expected);
}

#[test]
fn block_with_three_operands() {
    let exprs = vec![
        Expr::Block { exprs: vec![eid(1), eid(2), eid(3)] },
        Expr::Unreachable,
        Expr::Const { value: 0 },
        Expr::Select { condition: eid(4), consequent: eid(5), alternative: eid(6) },
        Expr::Const { value: 7 },
        Expr::Const { value: 8 },
        Expr::Binop { op: BinaryOp::I32LtS, lhs: eid(4), rhs: eid(5) },
    ];
    let f = local_function(exprs, 0);
    let expected = "        (func\n\
(;  0;)   (block\n\
(;  1;)     (unreachable)\n\
(;  2;)     (i64.const 0)\n\
(;  3;)     (select\n\
(;  4;)       (i64.const 7)\n\
(;  5;)       (i64.const 8)\n\
(;  6;)       (i32.lt_s\n\
(;  4;)         (i64.const 7)\n\
(;  5;)         (i64.const 8)\n              \
)\n            \
)\n          \
)\n        )";
    assert_eq!(f.display(), expected);
}

#[test]
fn empty_block_is_a_leaf() {
    let f = local_function(vec![Expr::Block { exprs: Vec::new() }], 0);
    assert_eq!(f.display(), "        (func\n(;  0;)   (block)\n        )");
}

#[test]
fn index_header_is_three_wide_and_not_cut() {
    let mut exprs: Vec<Expr> = Vec::new();
    for _ in 0..1234 {
        exprs.push(Expr::Unreachable);
    }
    exprs.push(Expr::Binop { op: BinaryOp::I32Mul, lhs: eid(42), rhs: eid(123) });
    exprs.push(Expr::Binop { op: BinaryOp::I32Sub, lhs: eid(1234), rhs: eid(7) });
    let f = local_function(exprs, 1235);
    let expected = "        (func\n\
(;1235;)   (i32.sub\n\
(;1234;)     (i32.mul\n\
(; 42;)       (unreachable)\n\
(;123;)       (unreachable)\n            \
)\n\
(;  7;)     (unreachable)\n          \
)\n        )";
    assert_eq!(f.display(), expected);
}

#[test]
fn extreme_constants() {
    let exprs = vec![
        Expr::Binop { op: BinaryOp::I32Eq, lhs: eid(1), rhs: eid(2) },
        Expr::Const { value: i64::MIN },
        Expr::Const { value: i64::MAX },
    ];
    let f = local_function(exprs, 0);
    let expected = "        (func\n\
(;  0;)   (i32.eq\n\
(;  1;)     (i64.const -9223372036854775808)\n\
(;  2;)     (i64.const 9223372036854775807)\n          \
)\n        )";
    assert_eq!(f.display(), expected);
}

#[test]
fn unary_tokens() {
    let f = local_function(
        vec![Expr::Unop { op: UnaryOp::I32Ctz, expr: eid(1) }, Expr::Const { value: 10 }],
        0,
    );
    assert_eq!(
        f.display(),
        "        (func\n(;  0;)   (i32.ctz\n(;  1;)     (i64.const 10)\n          )\n        )"
    );
}

#[test]
fn display_twice_is_identical() {
    let exprs = vec![
        Expr::Binop { op: BinaryOp::I32Add, lhs: eid(1), rhs: eid(2) },
        Expr::Const { value: 1 },
        Expr::Const { value: 2 },
    ];
    let f = local_function(exprs, 0);
    let first = f.display();
    let second = f.display();
    assert_eq!(first, second);
    let g = local_function(
        vec![
            Expr::Binop { op: BinaryOp::I32Add, lhs: eid(1), rhs: eid(2) },
            Expr::Const { value: 1 },
            Expr::Const { value: 2 },
        ],
        0,
    );
    assert_eq!(g.display(), first);
}

#[test]
fn local_display_ir_appends_to_existing_text() {
    let lf = LocalFunction::new(vec![Expr::Unreachable], eid(0));
    let mut s = String::from("prefix:");
    lf.display_ir(&mut s, &(), 0);
    assert_eq!(s, "prefix:        (func\n(;  0;)   (unreachable)\n        )");
    let mut t = String::new();
    lf.display_ir(&mut t, &(), 0);
    assert_eq!(t, "        (func\n(;  0;)   (unreachable)\n        )");
    assert!(t.starts_with("        (func\n"));
    assert!(t.ends_with("        )"));
    assert!(!t.ends_with('\n'));
}

#[test]
fn entry_block_is_the_root() {
    let lf = LocalFunction::new(vec![Expr::Unreachable, Expr::Unreachable], eid(1));
    assert_eq!(lf.entry_block(), eid(1));
}
