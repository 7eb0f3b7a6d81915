//! The function bodies that the printer walks: expressions stored in a flat
//! arena and referring to their operands by arena index.

use vstd::prelude::*;

verus! {

#[verifier::external_type_specification]
#[verifier::external_body]
#[verifier::reject_recursive_types(T)]
pub struct ExId<T>(id_arena::Id<T>);

/// A local variable. Locals live in an `id_arena::Arena<Local>` owned by the
/// module; expressions refer to them by `id_arena::Id<Local>`.
pub struct Local {
    pub name: Option<String>,
}

/// The index that `id_arena::Id::index` reports for a local's id.
pub uninterp spec fn local_index(id: id_arena::Id<Local>) -> usize;

/// Relies on `id_arena::Id::index`: the id's position in its arena, a
/// function of the id value alone.
#[verifier::external_body]
pub(crate) fn local_index_of(id: &id_arena::Id<Local>) -> (r: usize)
    ensures
        r == local_index(*id),
{
    id.index()
}

/// A reference to an expression: its index in the owning function's arena.
#[derive(Clone, Copy, Debug, PartialEq, Eq, Structural)]
pub struct ExprId {
    pub index: usize,
}

/// Unary operators.
#[derive(Clone, Copy, Debug, PartialEq, Eq, Structural)]
pub enum UnaryOp {
    I32Eqz,
    I32Clz,
    I32Ctz,
}

/// Binary operators.
#[derive(Clone, Copy, Debug, PartialEq, Eq, Structural)]
pub enum BinaryOp {
    I32Add,
    I32Sub,
    I32Mul,
    I32Eq,
    I32LtS,
}

/// One expression node. Immediates (constants, local references) come
/// before the expression operands in every kind.
#[derive(Debug)]
#[allow(inconsistent_fields)]
pub enum Expr {
    Unreachable,
    Const { value: i64 },
    LocalGet { local: id_arena::Id<Local> },
    LocalSet { local: id_arena::Id<Local>, value: ExprId },
    LocalTee { local: id_arena::Id<Local>, value: ExprId },
    Unop { op: UnaryOp, expr: ExprId },
    Binop { op: BinaryOp, lhs: ExprId, rhs: ExprId },
    Select { condition: ExprId, consequent: ExprId, alternative: ExprId },
    Drop { expr: ExprId },
    Block { exprs: Vec<ExprId> },
}

/// The expression operands of a node, in the order they are printed.
pub open spec fn operands(e: Expr) -> Seq<ExprId> {
    match e {
        Expr::Unreachable => seq![],
        Expr::Const { .. } => seq![],
        Expr::LocalGet { .. } => seq![],
        Expr::LocalSet { value, .. } => seq![value],
        Expr::LocalTee { value, .. } => seq![value],
        Expr::Unop { expr, .. } => seq![expr],
        Expr::Binop { lhs, rhs, .. } => seq![lhs, rhs],
        Expr::Select { condition, consequent, alternative } => seq![
            condition,
            consequent,
            alternative,
        ],
        Expr::Drop { expr } => seq![expr],
        Expr::Block { exprs } => exprs@,
    }
}

/// Collects the expression operands of `e`.
pub fn operand_list(e: &Expr) -> (r: Vec<ExprId>)
    ensures
        r@ == operands(*e),
{
    match e {
        Expr::Unreachable | Expr::Const { .. } | Expr::LocalGet { .. } => Vec::new(),
        Expr::LocalSet { value, .. } | Expr::LocalTee { value, .. } => vec![*value],
        Expr::Unop { expr, .. } | Expr::Drop { expr } => vec![*expr],
        Expr::Binop { lhs, rhs, .. } => vec![*lhs, *rhs],
        Expr::Select { condition, consequent, alternative } => vec![
            *condition,
            *consequent,
            *alternative,
        ],
        Expr::Block { exprs } => exprs.clone(),
    }
}

/// `id` lies in `items`, and every path of operands that starts at it reaches
/// only nodes of `items` and has fewer than `h` nodes. With `h` the arena's
/// size this says that the expressions reachable from `id` form a finite,
/// acyclic structure.
pub open spec fn bounded_tree(items: Seq<Expr>, id: ExprId, h: nat) -> bool
    decreases h,
{
    if h == 0 || id.index >= items.len() {
        false
    } else {
        forall|k: int|
            0 <= k < operands(items[id.index as int]).len() ==> bounded_tree(
                items,
                #[trigger] operands(items[id.index as int])[k],
                (h - 1) as nat,
            )
    }
}

/// A node within a bounded tree lies in the arena, and its operands are
/// bounded trees one level lower.
pub proof fn lemma_bounded_tree_operands(items: Seq<Expr>, id: ExprId, h: nat)
    requires
        bounded_tree(items, id, h),
    ensures
        h > 0,
        id.index < items.len(),
        forall|k: int|
            0 <= k < operands(items[id.index as int]).len() ==> bounded_tree(
                items,
                #[trigger] operands(items[id.index as int])[k],
                (h - 1) as nat,
            ),
{
}

/// A function defined in this module: an arena of expressions and the root
/// of its body.
#[derive(Debug)]
pub struct LocalFunction {
    pub exprs: Vec<Expr>,
    pub entry: ExprId,
}

impl LocalFunction {
    /// The body's nodes reachable from the entry form a finite acyclic tree
    /// inside the arena.
    pub open spec fn well_formed(&self) -> bool {
        bounded_tree(self.exprs@, self.entry, self.exprs@.len())
    }

    pub fn new(exprs: Vec<Expr>, entry: ExprId) -> (r: LocalFunction)
        ensures
            r.exprs@ == exprs@,
            r.entry == entry,
    {
        LocalFunction { exprs, entry }
    }

    /// The root expression of the body.
    pub fn entry_block(&self) -> (r: ExprId)
        ensures
            r == self.entry,
    {
        self.entry
    }
}

/// A function brought in from another module; it has no body to print.
#[derive(Debug)]
pub struct ImportedFunction {
    pub import: usize,
}

/// What a function is.
#[derive(Debug)]
pub enum FunctionKind {
    Import(ImportedFunction),
    Local(LocalFunction),
    /// A placeholder used while a module is being built; never printed.
    Uninitialized,
}

/// A function of a module.
#[derive(Debug)]
pub struct Function {
    pub kind: FunctionKind,
}

} // verus!
