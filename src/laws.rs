//! Laws that hold of every documentation tree.
use vstd::prelude::*;
use crate::model::{DocNode, flat, flat_node, line_count, nested_pair_count, sub_count, text, text_node};

verus! {

/// Flattening a tree made of the nodes of `a` followed by those of `b` gives
/// the pairs of `a` followed by the pairs of `b`.
pub proof fn lemma_flat_concat(a: Seq<DocNode>, b: Seq<DocNode>)
    ensures
        flat(a + b) == flat(a) + flat(b),
    decreases b.len(),
{
    if b.len() == 0 {
        assert(a + b =~= a);
        assert(flat(a) + flat(b) =~= flat(a));
    } else {
        lemma_flat_concat(a, b.drop_last());
        assert((a + b).drop_last() =~= a + b.drop_last());
        assert((a + b).last() == b.last());
        assert(flat(a + b) =~= flat(a) + flat(b));
    }
}

/// Rendering a tree made of the nodes of `a` followed by those of `b` gives
/// the text of `a` followed by the text of `b`.
pub proof fn lemma_text_concat(a: Seq<DocNode>, b: Seq<DocNode>)
    ensures
        text(a + b) == text(a) + text(b),
    decreases b.len(),
{
    if b.len() == 0 {
        assert(a + b =~= a);
        assert(text(a) + text(b) =~= text(a));
    } else {
        lemma_text_concat(a, b.drop_last());
        assert((a + b).drop_last() =~= a + b.drop_last());
        assert((a + b).last() == b.last());
        assert(text(a + b) =~= text(a) + text(b));
    }
}

/// Both traversals keep declaration order: what the node at position `i`
/// gives comes after what every earlier node gives and before what every
/// later node gives.
pub proof fn lemma_declaration_order(nodes: Seq<DocNode>, i: int)
    requires
        0 <= i < nodes.len(),
    ensures
        flat(nodes) == flat(nodes.take(i)) + flat_node(nodes[i]) + flat(nodes.skip(i + 1)),
        text(nodes) == text(nodes.take(i)) + text_node(nodes[i]) + text(nodes.skip(i + 1)),
{
    let head = nodes.take(i + 1);
    let tail = nodes.skip(i + 1);
    assert(nodes =~= head + tail);
    assert(head.drop_last() =~= nodes.take(i));
    assert(head.last() == nodes[i]);
    lemma_flat_concat(head, tail);
    lemma_text_concat(head, tail);
}

/// The number of pairs of a tree is its number of lines, plus its number of
/// nested trees, plus the number of pairs that the children of each nested
/// tree flatten to.
pub proof fn lemma_flat_len(nodes: Seq<DocNode>)
    ensures
        flat(nodes).len() == line_count(nodes) + sub_count(nodes) + nested_pair_count(nodes),
    decreases nodes.len(),
{
    if nodes.len() > 0 {
        lemma_flat_len(nodes.drop_last());
        let last = nodes.last();
        match last {
            DocNode::Line { key, description } => {
                assert(flat_node(last).len() == 1);
            },
            DocNode::Sub { key, children } => {
                assert(flat_node(last).len() == 1 + flat(children).len());
            },
        }
    }
}

/// Flattening and rendering read the tree alone: two results, each of which
/// flattens or renders the same tree, are the same.
pub proof fn lemma_reads_repeat(
    nodes: Seq<DocNode>,
    pairs1: Seq<(Seq<char>, Seq<char>)>,
    pairs2: Seq<(Seq<char>, Seq<char>)>,
    text1: Seq<char>,
    text2: Seq<char>,
)
    requires
        pairs1 == flat(nodes),
        pairs2 == flat(nodes),
        text1 == text(nodes),
        text2 == text(nodes),
    ensures
        pairs1 == pairs2,
        text1 == text2,
{
}

/// The empty tree flattens to no pairs and renders to no text.
pub proof fn lemma_empty_tree()
    ensures
        flat(Seq::<DocNode>::empty()) == Seq::<(Seq<char>, Seq<char>)>::empty(),
        text(Seq::<DocNode>::empty()) == Seq::<char>::empty(),
{
}

/// Two trees are equal exactly when they have as many nodes and the nodes at
/// each position are equal: same kind, same key, and the same description or
/// equal children.
pub proof fn lemma_structural_equality(a: Seq<DocNode>, b: Seq<DocNode>)
    ensures
        (a == b) <==> (a.len() == b.len() && forall|i: int| 0 <= i < a.len() ==> #[trigger] a[i] == b[i]),
{
    if a.len() == b.len() && forall|i: int| 0 <= i < a.len() ==> #[trigger] a[i] == b[i] {
        assert(a =~= b);
    }
}

} // verus!
