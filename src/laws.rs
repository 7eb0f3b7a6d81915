//! Properties of the printed text, proved from the definitions that the
//! printer's contracts use.

use vstd::prelude::*;
use crate::display::{
    body_text, closer_filler, func_close, func_open, header, kids_text, lemma_kids_text_step,
    lemma_node_text_unfold, node_text, op_text, DisplayIr,
};
use crate::ir::{
    bounded_tree, lemma_bounded_tree_operands, operands, Expr, ExprId, Function, FunctionKind,
    LocalFunction,
};
use crate::text::{indent_text, steps};

verus! {

/// Displaying an imported function gives exactly `(import func)`.
pub proof fn lemma_imported_display(func: Function)
    requires
        func.kind is Import,
    ensures
        func.can_display(),
        func.ir_text() == "(import func)"@,
{
}

/// The display of a local function starts with the line `        (func` and
/// ends with `        )`, with no line break after it.
pub proof fn lemma_local_display_frame(func: LocalFunction)
    requires
        func.can_display(),
    ensures
        func.ir_text().len() >= 23,
        func.ir_text().subrange(0, 14) == "        (func\n"@,
        func.ir_text().subrange(func.ir_text().len() - 9, func.ir_text().len() as int)
            == "        )"@,
        func.ir_text().last() != '\n',
{
    reveal_strlit("        (func\n");
    reveal_strlit("        )");
    let t = func.ir_text();
    let b = node_text(func.exprs@, func.entry, 0, false, func.exprs@.len());
    assert(t == func_open() + b + func_close());
    assert(t.subrange(0, 14) =~= func_open());
    assert(t.subrange(t.len() - 9, t.len() as int) =~= func_close());
}

/// A node's rendering ends its line.
pub proof fn lemma_node_text_ends_line(items: Seq<Expr>, id: ExprId, depth: nat, lead: bool, h: nat)
    requires
        bounded_tree(items, id, h),
    ensures
        node_text(items, id, depth, lead, h).len() > 0,
        node_text(items, id, depth, lead, h).last() == '\n',
{
    lemma_bounded_tree_operands(items, id, h);
    lemma_node_text_unfold(items, id, depth, lead, h);
}

/// A node without expression operands is rendered on one line: its header,
/// the indentation for the level below, `(`, its token and immediates, `)`
/// and a line break; a leading operand is preceded by a line break.
pub proof fn lemma_leaf_line(items: Seq<Expr>, id: ExprId, depth: nat, lead: bool, h: nat)
    requires
        bounded_tree(items, id, h),
        operands(items[id.index as int]).len() == 0,
    ensures
        node_text(items, id, depth, lead, h) == (if lead {
            seq!['\n']
        } else {
            Seq::<char>::empty()
        }) + header(id.index as nat) + indent_text(depth + 1) + seq!['('] + op_text(
            items[id.index as int],
        ) + seq![')', '\n'],
{
    lemma_bounded_tree_operands(items, id, h);
    lemma_node_text_unfold(items, id, depth, lead, h);
    let e = items[id.index as int];
    assert(body_text(items, e, depth + 1, (h - 1) as nat) =~= op_text(e));
}

/// A node with expression operands prints them in order after its token,
/// each starting on a line of its own with its header and an indentation two
/// spaces deeper than the node's own; the node's `)` follows on a line of its
/// own, after the seven-space filler and the node's indentation.
pub proof fn lemma_parent_layout(items: Seq<Expr>, id: ExprId, depth: nat, lead: bool, h: nat)
    requires
        bounded_tree(items, id, h),
        operands(items[id.index as int]).len() > 0,
    ensures
        ({
            let e = items[id.index as int];
            let kids = operands(e);
            let g = (h - 1) as nat;
            &&& node_text(items, id, depth, lead, h) == (if lead {
                seq!['\n']
            } else {
                Seq::<char>::empty()
            }) + header(id.index as nat) + indent_text(depth + 1) + seq!['('] + op_text(e)
                + kids_text(items, kids, depth + 1, g, kids.len()) + closer_filler()
                + indent_text(depth + 1) + seq![')', '\n']
            &&& forall|k: int|
                0 <= k < kids.len() ==> #[trigger] kids_text(
                    items,
                    kids,
                    depth + 1,
                    g,
                    (k + 1) as nat,
                ) == kids_text(items, kids, depth + 1, g, k as nat) + node_text(
                    items,
                    kids[k],
                    depth + 1,
                    k == 0,
                    g,
                )
            &&& forall|k: int|
                0 < k <= kids.len() ==> #[trigger] kids_text(
                    items,
                    kids,
                    depth + 1,
                    g,
                    k as nat,
                ).last() == '\n'
            &&& forall|k: int|
                #![trigger kids[k]]
                0 <= k < kids.len() ==> node_text(
                    items,
                    kids[k],
                    depth + 1,
                    k == 0,
                    g,
                ) == (if k == 0 {
                    seq!['\n']
                } else {
                    Seq::<char>::empty()
                }) + header(kids[k].index as nat) + indent_text(depth + 1) + seq![' ', ' ']
                    + seq!['('] + body_text(items, items[kids[k].index as int], depth + 2, (g - 1) as nat)
                    + (if operands(items[kids[k].index as int]).len() > 0 {
                    closer_filler() + indent_text(depth + 2)
                } else {
                    Seq::<char>::empty()
                }) + seq![')', '\n']
        }),
{
    lemma_bounded_tree_operands(items, id, h);
    lemma_node_text_unfold(items, id, depth, lead, h);
    let e = items[id.index as int];
    let kids = operands(e);
    let g = (h - 1) as nat;
    assert(indent_text(depth + 2) =~= indent_text(depth + 1) + seq![' ', ' ']);
    assert forall|k: int| 0 <= k < kids.len() implies #[trigger] kids_text(
        items,
        kids,
        depth + 1,
        g,
        (k + 1) as nat,
    ) == kids_text(items, kids, depth + 1, g, k as nat) + node_text(
        items,
        kids[k],
        depth + 1,
        k == 0,
        g,
    ) by {
        lemma_kids_text_step(items, kids, depth + 1, g, k as nat);
    }
    assert forall|k: int| 0 < k <= kids.len() implies #[trigger] kids_text(
        items,
        kids,
        depth + 1,
        g,
        k as nat,
    ).last() == '\n' by {
        lemma_kids_text_step(items, kids, depth + 1, g, (k - 1) as nat);
        lemma_node_text_ends_line(items, kids[k - 1], depth + 1, k - 1 == 0, g);
    }
    assert forall|k: int| #![trigger kids[k]] 0 <= k < kids.len() implies node_text(
        items,
        kids[k],
        depth + 1,
        k == 0,
        g,
    ) == (if k == 0 {
        seq!['\n']
    } else {
        Seq::<char>::empty()
    }) + header(kids[k].index as nat) + indent_text(depth + 1) + seq![' ', ' '] + seq!['(']
        + body_text(items, items[kids[k].index as int], depth + 2, (g - 1) as nat) + (if operands(
        items[kids[k].index as int],
    ).len() > 0 {
        closer_filler() + indent_text(depth + 2)
    } else {
        Seq::<char>::empty()
    }) + seq![')', '\n'] by {
        lemma_bounded_tree_operands(items, kids[k], g);
        lemma_node_text_unfold(items, kids[k], depth + 1, k == 0, g);
        assert(indent_text(depth + 2) =~= indent_text(depth + 1) + seq![' ', ' ']);
    }
    assert(node_text(items, id, depth, lead, h) =~= (if lead {
        seq!['\n']
    } else {
        Seq::<char>::empty()
    }) + header(id.index as nat) + indent_text(depth + 1) + seq!['('] + op_text(e) + kids_text(
        items,
        kids,
        depth + 1,
        g,
        kids.len(),
    ) + closer_filler() + indent_text(depth + 1) + seq![')', '\n']);
}

/// The display of a function depends on the function alone: two displays of
/// equal functions give the same text, whatever was displayed before.
pub proof fn lemma_display_deterministic(a: Function, b: Function)
    requires
        a == b,
        a.can_display(),
    ensures
        b.can_display(),
        a.ir_text() == b.ir_text(),
{
}

} // verus!
