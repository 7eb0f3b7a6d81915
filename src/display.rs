//! The recursive printer: every node on its own line, headed by its arena
//! index, with operands indented below their parent.

use vstd::prelude::*;
use vstd::string::*;
use crate::ir::{
    bounded_tree, lemma_bounded_tree_operands, local_index, local_index_of, operand_list,
    operands, BinaryOp, Expr, ExprId, Function, FunctionKind, ImportedFunction, LocalFunction,
    UnaryOp,
};
use crate::text::{
    decimal, indent_text, padded3, push_decimal, push_padded3, push_signed_decimal,
    signed_decimal, steps,
};

verus! {

/// Text printed between the start of a closing line and the indentation; it
/// is as wide as a node's index header.
pub open spec fn closer_filler() -> Seq<char> {
    seq![' ', ' ', ' ', ' ', ' ', ' ', ' ']
}

/// A reference to an arena-indexed entity: one space, then its index.
pub open spec fn ref_text(index: nat) -> Seq<char> {
    seq![' '] + decimal(index)
}

/// The header that starts a node's line: its arena index in a three-wide field.
pub open spec fn header(index: nat) -> Seq<char> {
    seq!['(', ';'] + padded3(index) + seq![';', ')']
}

/// The token of a unary operator.
pub open spec fn unop_token(op: UnaryOp) -> Seq<char> {
    match op {
        UnaryOp::I32Eqz => "i32.eqz"@,
        UnaryOp::I32Clz => "i32.clz"@,
        UnaryOp::I32Ctz => "i32.ctz"@,
    }
}

/// The token of a binary operator.
pub open spec fn binop_token(op: BinaryOp) -> Seq<char> {
    match op {
        BinaryOp::I32Add => "i32.add"@,
        BinaryOp::I32Sub => "i32.sub"@,
        BinaryOp::I32Mul => "i32.mul"@,
        BinaryOp::I32Eq => "i32.eq"@,
        BinaryOp::I32LtS => "i32.lt_s"@,
    }
}

/// The operator token of a node.
pub open spec fn op_token(e: Expr) -> Seq<char> {
    match e {
        Expr::Unreachable => "unreachable"@,
        Expr::Const { .. } => "i64.const"@,
        Expr::LocalGet { .. } => "local.get"@,
        Expr::LocalSet { .. } => "local.set"@,
        Expr::LocalTee { .. } => "local.tee"@,
        Expr::Unop { op, .. } => unop_token(op),
        Expr::Binop { op, .. } => binop_token(op),
        Expr::Select { .. } => "select"@,
        Expr::Drop { .. } => "drop"@,
        Expr::Block { .. } => "block"@,
    }
}

/// What a node prints inline after its opening parenthesis: the operator
/// token, then its immediates.
pub open spec fn op_text(e: Expr) -> Seq<char> {
    op_token(e) + match e {
        Expr::Const { value } => seq![' '] + signed_decimal(value as int),
        Expr::LocalGet { local } => ref_text(local_index(local) as nat),
        Expr::LocalSet { local, .. } => ref_text(local_index(local) as nat),
        Expr::LocalTee { local, .. } => ref_text(local_index(local) as nat),
        _ => Seq::empty(),
    }
}

/// The rendering of node `id` visited at nesting depth `depth`. `lead` says
/// whether it is the first operand of its parent, which starts it on a new
/// line. `h` bounds the height of the tree below it (see `bounded_tree`).
#[verifier::opaque]
pub open spec fn node_text(items: Seq<Expr>, id: ExprId, depth: nat, lead: bool, h: nat) -> Seq<
    char,
>
    decreases h, 0nat, 0nat,
{
    if h == 0 || id.index >= items.len() {
        Seq::empty()
    } else {
        let e = items[id.index as int];
        let kids = operands(e);
        (if lead {
            seq!['\n']
        } else {
            Seq::empty()
        }) + header(id.index as nat) + indent_text(depth + 1) + seq!['('] + op_text(e)
            + kids_text(items, kids, depth + 1, (h - 1) as nat, kids.len()) + (if kids.len() > 0 {
            closer_filler() + indent_text(depth + 1)
        } else {
            Seq::empty()
        }) + seq![')', '\n']
    }
}

/// The rendering of the first `n` operands in `kids`, each visited at depth
/// `depth`; only the first of them is a leading operand.
pub open spec fn kids_text(items: Seq<Expr>, kids: Seq<ExprId>, depth: nat, h: nat, n: nat) -> Seq<
    char,
>
    decreases h, 1nat, n,
{
    if n == 0 || n > kids.len() {
        Seq::empty()
    } else {
        kids_text(items, kids, depth, h, (n - 1) as nat) + node_text(
            items,
            kids[n - 1],
            depth,
            n == 1,
            h,
        )
    }
}

/// What the per-kind renderer prints for node `e` whose operands are visited
/// at depth `depth`.
pub open spec fn body_text(items: Seq<Expr>, e: Expr, depth: nat, h: nat) -> Seq<char> {
    op_text(e) + kids_text(items, operands(e), depth, h, operands(e).len())
}

/// A leading operand starts with a line break; any other node starts with
/// its header.
pub proof fn lemma_node_text_unfold(items: Seq<Expr>, id: ExprId, depth: nat, lead: bool, h: nat)
    requires
        h > 0,
        id.index < items.len(),
    ensures
        node_text(items, id, depth, lead, h) == (if lead {
            seq!['\n']
        } else {
            Seq::<char>::empty()
        }) + header(id.index as nat) + indent_text(depth + 1) + seq!['('] + body_text(
            items,
            items[id.index as int],
            depth + 1,
            (h - 1) as nat,
        ) + (if operands(items[id.index as int]).len() > 0 {
            closer_filler() + indent_text(depth + 1)
        } else {
            Seq::<char>::empty()
        }) + seq![')', '\n'],
{
    reveal(node_text);
    let e = items[id.index as int];
    let kids = operands(e);
    let k = kids_text(items, kids, depth + 1, (h - 1) as nat, kids.len());
    assert(seq![] + header(id.index as nat) + indent_text(depth + 1) + seq!['('] + op_text(e) + k
        =~= seq![] + header(id.index as nat) + indent_text(depth + 1) + seq!['('] + (op_text(e)
        + k));
    assert((seq!['\n'] + header(id.index as nat) + indent_text(depth + 1) + seq!['('] + op_text(e)
        + k) =~= seq!['\n'] + header(id.index as nat) + indent_text(depth + 1) + seq!['('] + (
    op_text(e) + k));
}

/// One more operand appends its own rendering; only the first one leads.
pub proof fn lemma_kids_text_step(items: Seq<Expr>, kids: Seq<ExprId>, depth: nat, h: nat, i: nat)
    requires
        i < kids.len(),
    ensures
        kids_text(items, kids, depth, h, i + 1) == kids_text(items, kids, depth, h, i) + node_text(
            items,
            kids[i as int],
            depth,
            i == 0,
            h,
        ),
{
    reveal(node_text);
}

/// The printed length of the first `n` operands never exceeds that of all
/// of them.
pub proof fn lemma_kids_text_len_mono(
    items: Seq<Expr>,
    kids: Seq<ExprId>,
    depth: nat,
    h: nat,
    n: nat,
)
    requires
        n <= kids.len(),
    ensures
        kids_text(items, kids, depth, h, n).len() <= kids_text(
            items,
            kids,
            depth,
            h,
            kids.len(),
        ).len(),
    decreases kids.len() - n,
{
    if n < kids.len() {
        lemma_kids_text_len_mono(items, kids, depth, h, n + 1);
    }
}

/// The operator token of `e`.
fn token(e: &Expr) -> (r: &'static str)
    ensures
        r@ == op_token(*e),
{
    proof {
        reveal_strlit("unreachable");
        reveal_strlit("i64.const");
        reveal_strlit("local.get");
        reveal_strlit("local.set");
        reveal_strlit("local.tee");
        reveal_strlit("i32.eqz");
        reveal_strlit("i32.clz");
        reveal_strlit("i32.ctz");
        reveal_strlit("i32.add");
        reveal_strlit("i32.sub");
        reveal_strlit("i32.mul");
        reveal_strlit("i32.eq");
        reveal_strlit("i32.lt_s");
        reveal_strlit("select");
        reveal_strlit("drop");
        reveal_strlit("block");
    }
    match e {
        Expr::Unreachable => "unreachable",
        Expr::Const { .. } => "i64.const",
        Expr::LocalGet { .. } => "local.get",
        Expr::LocalSet { .. } => "local.set",
        Expr::LocalTee { .. } => "local.tee",
        Expr::Unop { op, .. } => match op {
            UnaryOp::I32Eqz => "i32.eqz",
            UnaryOp::I32Clz => "i32.clz",
            UnaryOp::I32Ctz => "i32.ctz",
        },
        Expr::Binop { op, .. } => match op {
            BinaryOp::I32Add => "i32.add",
            BinaryOp::I32Sub => "i32.sub",
            BinaryOp::I32Mul => "i32.mul",
            BinaryOp::I32Eq => "i32.eq",
            BinaryOp::I32LtS => "i32.lt_s",
        },
        Expr::Select { .. } => "select",
        Expr::Drop { .. } => "drop",
        Expr::Block { .. } => "block",
    }
}

/// Printing state carried through one traversal of a function body.
pub struct DisplayExpr<'a> {
    /// The function whose arena is printed.
    pub func: &'a LocalFunction,
    /// The text printed so far.
    pub f: String,
    /// Current nesting depth.
    pub indent: usize,
    /// Whether the next node visited is the first operand of its parent.
    pub first_arg: bool,
    /// Number of line breaks printed so far.
    pub line: usize,
}

impl<'a> DisplayExpr<'a> {
    /// The arena being printed.
    pub open spec fn items(&self) -> Seq<Expr> {
        self.func.exprs@
    }

    /// Prints the index of an entity such as a local.
    pub fn id(&mut self, index: usize)
        ensures
            final(self).f@ == old(self).f@ + ref_text(index as nat),
            final(self).func == old(self).func,
            final(self).indent == old(self).indent,
            final(self).first_arg == old(self).first_arg,
            final(self).line == old(self).line,
    {
        self.f.append(" ");
        proof {
            reveal_strlit(" ");
        }
        push_decimal(&mut self.f, index as u64);
        assert(self.f@ =~= old(self).f@ + ref_text(index as nat));
    }

    /// Ends the current line.
    pub fn line(&mut self)
        requires
            old(self).line < usize::MAX,
        ensures
            final(self).f@ == old(self).f@ + seq!['\n'],
            final(self).func == old(self).func,
            final(self).indent == old(self).indent,
            final(self).first_arg == old(self).first_arg,
            final(self).line == old(self).line + 1,
    {
        self.line += 1;
        self.f.append("\n");
        proof {
            reveal_strlit("\n");
        }
    }

    /// Prints the indentation for the current depth.
    pub fn indent(&mut self)
        ensures
            final(self).f@ == old(self).f@ + indent_text(old(self).indent as nat),
            final(self).func == old(self).func,
            final(self).indent == old(self).indent,
            final(self).first_arg == old(self).first_arg,
            final(self).line == old(self).line,
    {
        self.f.append(" ");
        proof {
            reveal_strlit(" ");
        }
        let mut i: usize = 0;
        while i < self.indent
            invariant
                i <= self.indent,
                self.f@ == old(self).f@ + seq![' '] + steps(i as nat),
                self.func == old(self).func,
                self.indent == old(self).indent,
                self.first_arg == old(self).first_arg,
                self.line == old(self).line,
            decreases self.indent - i,
        {
            self.f.append("  ");
            proof {
                reveal_strlit("  ");
            }
            i += 1;
            assert(self.f@ =~= old(self).f@ + seq![' '] + steps(i as nat));
        }
        assert(self.f@ =~= old(self).f@ + indent_text(old(self).indent as nat));
    }

    /// The per-kind renderer's token and immediates for `e`.
    fn op(&mut self, e: &Expr)
        ensures
            final(self).f@ == old(self).f@ + op_text(*e),
            final(self).func == old(self).func,
            final(self).indent == old(self).indent,
            final(self).first_arg == old(self).first_arg,
            final(self).line == old(self).line,
    {
        self.f.append(token(e));
        match e {
            Expr::Const { value } => {
                self.f.append(" ");
                proof {
                    reveal_strlit(" ");
                }
                push_signed_decimal(&mut self.f, *value);
            },
            Expr::LocalGet { local } | Expr::LocalSet { local, .. } | Expr::LocalTee {
                local,
                ..
            } => {
                let n = local_index_of(local);
                self.id(n);
            },
            _ => {},
        }
        assert(self.f@ =~= old(self).f@ + op_text(*e));
    }

    /// The per-kind renderer: prints the node's token and immediates, then
    /// visits each of its expression operands.
    fn visit(&mut self, id: ExprId, Ghost(h): Ghost<nat>)
        requires
            id.index < old(self).items().len(),
            forall|k: int|
                0 <= k < operands(old(self).items()[id.index as int]).len() ==> bounded_tree(
                    old(self).items(),
                    #[trigger] operands(old(self).items()[id.index as int])[k],
                    h,
                ),
            old(self).indent + h <= usize::MAX,
            old(self).first_arg,
            old(self).line + body_text(
                old(self).items(),
                old(self).items()[id.index as int],
                old(self).indent as nat,
                h,
            ).len() <= usize::MAX,
        ensures
            final(self).f@ == old(self).f@ + body_text(
                old(self).items(),
                old(self).items()[id.index as int],
                old(self).indent as nat,
                h,
            ),
            final(self).func == old(self).func,
            final(self).indent == old(self).indent,
            old(self).line <= final(self).line,
            final(self).line <= old(self).line + body_text(
                old(self).items(),
                old(self).items()[id.index as int],
                old(self).indent as nat,
                h,
            ).len(),
            (final(self).line == old(self).line) <==> operands(
                old(self).items()[id.index as int],
            ).len() == 0,
        decreases h, 2nat,
    {
        let func = self.func;
        let e = &func.exprs[id.index];
        self.op(e);
        let kids = operand_list(e);
        let ghost items = old(self).items();
        let ghost depth = old(self).indent as nat;
        let ghost base = self.f@;
        let ghost line0 = old(self).line;
        let ghost op_len = op_text(*e).len();
        let ghost all = kids_text(items, kids@, depth, h, kids@.len());
        let mut i: usize = 0;
        while i < kids.len()
            invariant
                i <= kids.len(),
                kids@ == operands(*e),
                id.index < items.len(),
                *e == items[id.index as int],
                i == 0 ==> self.line == line0,
                items == self.items(),
                self.func == old(self).func,
                self.indent == old(self).indent,
                depth == self.indent,
                self.indent + h <= usize::MAX,
                self.f@ == base + kids_text(items, kids@, depth, h, i as nat),
                base == old(self).f@ + op_text(*e),
                self.first_arg == (i == 0),
                line0 + i <= self.line,
                self.line <= line0 + op_len + kids_text(items, kids@, depth, h, i as nat).len(),
                line0 + op_len + all.len() <= usize::MAX,
                all == kids_text(items, kids@, depth, h, kids@.len()),
                forall|k: int|
                    0 <= k < kids@.len() ==> bounded_tree(items, #[trigger] kids@[k], h),
            decreases kids.len() - i,
        {
            proof {
                lemma_kids_text_len_mono(items, kids@, depth, h, (i + 1) as nat);
                lemma_kids_text_step(items, kids@, depth, h, i as nat);
            }
            self.expr_id(kids[i], Ghost(h));
            i += 1;
            assert(self.f@ =~= base + kids_text(items, kids@, depth, h, i as nat));
        }
    }

    /// Visits one node: prints its header and parenthesised rendering, with
    /// its operands on the lines below and a closing line under them if it
    /// has any.
    #[verifier::rlimit(40)]
    pub fn expr_id(&mut self, id: ExprId, Ghost(h): Ghost<nat>)
        requires
            bounded_tree(old(self).items(), id, h),
            old(self).indent + h <= usize::MAX,
            old(self).line + node_text(
                old(self).items(),
                id,
                old(self).indent as nat,
                old(self).first_arg,
                h,
            ).len() <= usize::MAX,
        ensures
            final(self).f@ == old(self).f@ + node_text(
                old(self).items(),
                id,
                old(self).indent as nat,
                old(self).first_arg,
                h,
            ),
            final(self).func == old(self).func,
            final(self).indent == old(self).indent,
            !final(self).first_arg,
            old(self).line < final(self).line,
            final(self).line <= old(self).line + node_text(
                old(self).items(),
                id,
                old(self).indent as nat,
                old(self).first_arg,
                h,
            ).len(),
        decreases h, 1nat,
    {
        let ghost items = old(self).items();
        let ghost depth = old(self).indent as nat;
        let ghost lead = old(self).first_arg;
        let ghost e = items[id.index as int];
        let ghost body = body_text(items, e, depth + 1, (h - 1) as nat);
        proof {
            lemma_node_text_unfold(items, id, depth, lead, h);
            lemma_bounded_tree_operands(items, id, h);
        }
        let ghost lead_s = if lead {
            seq!['\n']
        } else {
            Seq::<char>::empty()
        };
        let ghost opened = lead_s + header(id.index as nat) + indent_text(depth + 1) + seq!['('];
        let ghost closer = if operands(e).len() > 0 {
            closer_filler() + indent_text(depth + 1)
        } else {
            Seq::<char>::empty()
        };
        let first_arg = self.first_arg;
        self.first_arg = true;
        if first_arg {
            self.line();
        }
        self.f.append("(;");
        push_padded3(&mut self.f, id.index);
        self.f.append(";)");
        self.indent += 1;
        self.indent();
        self.f.append("(");
        proof {
            reveal_strlit("(;");
            reveal_strlit(";)");
            reveal_strlit("(");
            assert(self.f@ =~= old(self).f@ + opened);
            assert(self.line <= old(self).line + lead_s.len());
        }
        let start = self.line;
        let ghost mid = self.f@;
        self.visit(id, Ghost((h - 1) as nat));
        assert(self.f@ == mid + body);
        if start != self.line {
            self.f.append("       ");
            proof {
                reveal_strlit("       ");
            }
            self.indent();
        }
        assert(self.f@ =~= mid + body + closer);
        self.indent -= 1;
        self.f.append(")");
        proof {
            reveal_strlit(")");
        }
        self.line();
        self.first_arg = false;
        assert(self.f@ =~= old(self).f@ + (opened + body + closer + seq![')', '\n']));
        assert(opened + body + closer + seq![')', '\n'] =~= node_text(items, id, depth, lead, h));
    }
}

/// Header line of a function body; the leading spaces leave room for the
/// index headers of the lines below.
pub open spec fn func_open() -> Seq<char> {
    "        (func\n"@
}

/// Closing line of a function body, aligned with its header.
pub open spec fn func_close() -> Seq<char> {
    "        )"@
}

/// The rendering of a function body's entry tree.
pub open spec fn body_tree_text(func: LocalFunction) -> Seq<char> {
    node_text(func.exprs@, func.entry, 0, false, func.exprs@.len())
}

/// Displaying IR as text.
pub trait DisplayIr {
    /// Extra context needed to display this thing.
    type Context;

    /// The value can be displayed: its structure is sound and its text fits
    /// in memory.
    spec fn can_display(&self) -> bool;

    /// The text that displaying the value produces.
    spec fn ir_text(&self) -> Seq<char>;

    /// Appends the display of the value to `f`. Displaying always starts at
    /// nesting depth zero.
    fn display_ir(&self, f: &mut String, ctx: &Self::Context, indent: usize)
        requires
            indent == 0,
            self.can_display(),
        ensures
            final(f)@ == old(f)@ + self.ir_text(),
    ;
}

impl DisplayIr for ImportedFunction {
    type Context = ();

    open spec fn can_display(&self) -> bool {
        true
    }

    open spec fn ir_text(&self) -> Seq<char> {
        "(import func)"@
    }

    fn display_ir(&self, f: &mut String, ctx: &(), indent: usize) {
        f.append("(import func)");
    }
}

impl DisplayIr for LocalFunction {
    type Context = ();

    open spec fn can_display(&self) -> bool {
        &&& self.well_formed()
        &&& body_tree_text(*self).len() <= usize::MAX
    }

    open spec fn ir_text(&self) -> Seq<char> {
        func_open() + body_tree_text(*self) + func_close()
    }

    fn display_ir(&self, f: &mut String, ctx: &(), indent: usize) {
        let n: usize = self.exprs.len();
        let mut visitor = DisplayExpr { func: self, f: String::new(), indent, first_arg: false, line: 0 };
        std::mem::swap(f, &mut visitor.f);
        // leading spaces to leave room for the expression ids
        visitor.f.append("        (func\n");
        proof {
            reveal_strlit("        (func\n");
        }
        visitor.expr_id(self.entry_block(), Ghost(n as nat));
        visitor.f.append("        )");
        proof {
            reveal_strlit("        )");
        }
        std::mem::swap(f, &mut visitor.f);
        assert(f@ =~= old(f)@ + self.ir_text());
    }
}

impl DisplayIr for Function {
    type Context = ();

    open spec fn can_display(&self) -> bool {
        match self.kind {
            FunctionKind::Import(_) => true,
            FunctionKind::Local(l) => l.can_display(),
            FunctionKind::Uninitialized => false,
        }
    }

    open spec fn ir_text(&self) -> Seq<char> {
        match self.kind {
            FunctionKind::Import(i) => i.ir_text(),
            FunctionKind::Local(l) => l.ir_text(),
            FunctionKind::Uninitialized => Seq::empty(),
        }
    }

    fn display_ir(&self, f: &mut String, ctx: &(), indent: usize) {
        match &self.kind {
            FunctionKind::Import(i) => i.display_ir(f, &(), indent),
            FunctionKind::Local(l) => l.display_ir(f, &(), indent),
            FunctionKind::Uninitialized => {},
        }
    }
}

impl Function {
    /// The function's display as a new string.
    pub fn display(&self) -> (r: String)
        requires
            self.can_display(),
        ensures
            r@ == self.ir_text(),
    {
        let mut f = String::new();
        self.display_ir(&mut f, &(), 0);
        f
    }
}

} // verus!
