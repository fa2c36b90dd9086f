//! The mathematical model of a documentation tree and the meaning of its two
//! traversals.
use vstd::prelude::*;

verus! {

/// One node of a documentation tree, as a mathematical value.
pub enum DocNode {
    /// A documented field that holds no nested schema.
    Line { key: Seq<char>, description: Seq<char> },
    /// A field whose value is a documented schema of its own.
    Sub { key: Seq<char>, children: Seq<DocNode> },
}

/// A key and its description, as a pair of character sequences.
pub type DocPair = (Seq<char>, Seq<char>);

/// Depth-first, pre-order list of the pairs of a sequence of nodes.
pub open spec fn flat(nodes: Seq<DocNode>) -> Seq<DocPair>
    decreases nodes,
{
    if nodes.len() == 0 {
        Seq::empty()
    } else {
        flat(nodes.drop_last()) + flat_node(nodes.last())
    }
}

/// The pairs of one node: the node's own pair, then those of its children.
pub open spec fn flat_node(node: DocNode) -> Seq<DocPair>
    decreases node,
{
    match node {
        DocNode::Line { key, description } => seq![(key, description)],
        DocNode::Sub { key, children } => seq![(key, Seq::<char>::empty())] + flat(children),
    }
}

/// The column that a line's key and colon are padded to.
pub const KEY_WIDTH: usize = 20;

/// `n` spaces.
pub open spec fn spaces(n: nat) -> Seq<char> {
    Seq::new(n, |i: int| ' ')
}

/// `s` followed by as many spaces as make it `width` characters long; `s`
/// itself where it is that long already.
pub open spec fn padded(s: Seq<char>, width: nat) -> Seq<char> {
    if s.len() >= width {
        s
    } else {
        s + spaces((width - s.len()) as nat)
    }
}

/// The text of a line: the key and a colon, padded to the key column, a
/// space, the description and a newline.
pub open spec fn line_text(key: Seq<char>, description: Seq<char>) -> Seq<char> {
    padded(key.push(':'), KEY_WIDTH as nat) + seq![' '] + description + seq!['\n']
}

/// The rendered text of a sequence of nodes, one after the other.
pub open spec fn text(nodes: Seq<DocNode>) -> Seq<char>
    decreases nodes,
{
    if nodes.len() == 0 {
        Seq::empty()
    } else {
        text(nodes.drop_last()) + text_node(nodes.last())
    }
}

/// The rendered text of one node: a line's text, or a nested tree's key on a
/// line of its own followed by the text of its children.
pub open spec fn text_node(node: DocNode) -> Seq<char>
    decreases node,
{
    match node {
        DocNode::Line { key, description } => line_text(key, description),
        DocNode::Sub { key, children } => key.push('\n') + text(children),
    }
}

/// The number of lines among `nodes` (nested trees not entered).
pub open spec fn line_count(nodes: Seq<DocNode>) -> nat
    decreases nodes,
{
    if nodes.len() == 0 {
        0
    } else {
        line_count(nodes.drop_last()) + if nodes.last() is Line { 1nat } else { 0nat }
    }
}

/// The number of nested trees among `nodes` (nested trees not entered).
pub open spec fn sub_count(nodes: Seq<DocNode>) -> nat
    decreases nodes,
{
    if nodes.len() == 0 {
        0
    } else {
        sub_count(nodes.drop_last()) + if nodes.last() is Sub { 1nat } else { 0nat }
    }
}

/// The sum, over the nested trees among `nodes`, of the number of pairs that
/// their children flatten to.
pub open spec fn nested_pair_count(nodes: Seq<DocNode>) -> nat
    decreases nodes,
{
    if nodes.len() == 0 {
        0
    } else {
        nested_pair_count(nodes.drop_last()) + match nodes.last() {
            DocNode::Line { .. } => 0nat,
            DocNode::Sub { children, .. } => flat(children).len(),
        }
    }
}

} // verus!
