//! The documentation tree: an ordered sequence of parts, each a documented
//! line or a named nested tree.
use vstd::prelude::*;
use crate::model::{DocNode, DocPair, KEY_WIDTH, flat, flat_node, line_text, padded, spaces, text, text_node};

verus! {

/// A schema type that can describe itself as a documentation tree.
pub trait ConfigDocs {
    /// The documentation tree of the type, fixed by the type alone.
    spec fn docs() -> Seq<DocNode>;

    /// The fields of the type with their documentation, in declaration order:
    /// the same tree on every call.
    fn config_docs() -> (r: ConfigDocumentation)
        ensures
            r@ == Self::docs(),
    ;
}

/// A documentation tree: its parts in declaration order.
#[derive(Debug)]
pub struct ConfigDocumentation(pub Vec<ConfigDocumentationPart>);

/// One part of a documentation tree.
#[derive(Debug)]
pub enum ConfigDocumentationPart {
    /// A field's key and the first line of its documentation.
    Line(String, String),
    /// A field's key and the documentation tree of its nested schema.
    SubPart(String, ConfigDocumentation),
}

impl View for ConfigDocumentation {
    type V = Seq<DocNode>;

    open spec fn view(&self) -> Seq<DocNode>
        decreases self,
    {
        Seq::new(
            self.0@.len(),
            |i: int|
                if 0 <= i < self.0@.len() {
                    self.0@[i].node()
                } else {
                    DocNode::Line { key: Seq::empty(), description: Seq::empty() }
                },
        )
    }
}

impl ConfigDocumentationPart {
    /// The part as a node of the model.
    pub open spec fn node(&self) -> DocNode
        decreases self,
    {
        match self {
            ConfigDocumentationPart::Line(key, description) => DocNode::Line {
                key: key@,
                description: description@,
            },
            ConfigDocumentationPart::SubPart(key, docs) => DocNode::Sub {
                key: key@,
                children: docs@,
            },
        }
    }
}

/// The pairs of a list of owned strings, as character sequences.
pub open spec fn pairs_view(v: Seq<(String, String)>) -> Seq<DocPair> {
    v.map_values(|p: (String, String)| (p.0@, p.1@))
}

impl ConfigDocumentation {
    /// The parts of the tree, in declaration order.
    pub fn parts(&self) -> (r: &[ConfigDocumentationPart])
        ensures
            r@ == self.0@,
    {
        self.0.as_slice()
    }

    /// The key and description pairs of the tree, depth first and in order:
    /// a line gives its own pair, a nested tree gives its key with an empty
    /// description and then the pairs of its children.
    pub fn as_tuples(&self) -> (r: Vec<(String, String)>)
        ensures
            pairs_view(r@) == flat(self@),
        decreases self,
    {
        let mut out: Vec<(String, String)> = Vec::new();
        let n = self.0.len();
        let mut i: usize = 0;
        while i < n
            invariant
                n == self.0@.len(),
                0 <= i <= n,
                pairs_view(out@) == flat(self@.take(i as int)),
            decreases n - i,
        {
            let ghost before = out@;
            let part = &self.0[i];
            match part {
                ConfigDocumentationPart::Line(key, description) => {
                    out.push((key.clone(), description.clone()));
                },
                ConfigDocumentationPart::SubPart(key, docs) => {
                    out.push((key.clone(), String::new()));
                    proof {
                        assert(decreases_to!(self => self.0));
                        assert(decreases_to!(self.0 => self.0[i as int]));
                        assert(decreases_to!(*part => *docs));
                    }
                    let mut inner = docs.as_tuples();
                    out.append(&mut inner);
                },
            }
            proof {
                assert(self@.take(i + 1).drop_last() =~= self@.take(i as int));
                assert(self@.take(i + 1).last() == part.node());
                assert(pairs_view(out@) =~= pairs_view(before) + flat_node(part.node()));
            }
            i += 1;
        }
        proof {
            assert(self@.take(n as int) =~= self@);
        }
        out
    }
}

impl ConfigDocumentation {
    /// The tree as text: the text of each part, in order.
    pub fn render(&self) -> (r: String)
        ensures
            r@ == text(self@),
        decreases self,
    {
        let mut out = String::new();
        let n = self.0.len();
        let mut i: usize = 0;
        while i < n
            invariant
                n == self.0@.len(),
                0 <= i <= n,
                out@ == text(self@.take(i as int)),
            decreases n - i,
        {
            let part = &self.0[i];
            proof {
                assert(decreases_to!(self => self.0));
                assert(decreases_to!(self.0 => self.0[i as int]));
            }
            let piece = part.render();
            out.append(piece.as_str());
            proof {
                assert(self@.take(i + 1).drop_last() =~= self@.take(i as int));
                assert(self@.take(i + 1).last() == part.node());
            }
            i += 1;
        }
        proof {
            assert(self@.take(n as int) =~= self@);
        }
        out
    }
}

impl ConfigDocumentationPart {
    /// The part as text: a line's key and colon padded to the key column, a
    /// space, its description and a newline; or a nested tree's key and a
    /// newline, followed by the text of the nested tree.
    pub fn render(&self) -> (r: String)
        ensures
            r@ == text_node(self.node()),
        decreases self,
    {
        match self {
            ConfigDocumentationPart::Line(key, description) => {
                let mut out = padded_key(key);
                out.append(" ");
                out.append(description.as_str());
                out.append("\n");
                proof {
                    reveal_strlit(" ");
                    reveal_strlit("\n");
                    assert(out@ =~= line_text(key@, description@));
                }
                out
            },
            ConfigDocumentationPart::SubPart(key, docs) => {
                let mut out = key.clone();
                out.append("\n");
                proof {
                    reveal_strlit("\n");
                    assert(decreases_to!(*self => *docs));
                }
                let inner = docs.render();
                out.append(inner.as_str());
                proof {
                    assert(out@ =~= key@.push('\n') + text(docs@));
                }
                out
            },
        }
    }
}

/// The key and a colon, padded with spaces to the key column.
fn padded_key(key: &String) -> (r: String)
    ensures
        r@ == padded(key@.push(':'), KEY_WIDTH as nat),
{
    let mut out = key.clone();
    out.append(":");
    proof {
        reveal_strlit(":");
    }
    let ghost head = out@;
    assert(head =~= key@.push(':'));
    let len = out.as_str().unicode_len();
    let mut k: usize = len;
    while k < KEY_WIDTH
        invariant
            len == head.len(),
            len <= k,
            k < KEY_WIDTH ==> out@ == head + spaces((k - len) as nat),
            k >= KEY_WIDTH ==> out@ == padded(head, KEY_WIDTH as nat),
        decreases KEY_WIDTH - k,
    {
        out.append(" ");
        proof {
            reveal_strlit(" ");
            assert(out@ =~= head + spaces((k + 1 - len) as nat));
        }
        k += 1;
    }
    if len >= KEY_WIDTH {
        assert(out@ =~= padded(head, KEY_WIDTH as nat));
    }
    out
}

/// Whether two trees have the same parts, in the same order, down to every
/// nested tree.
fn docs_equal(a: &ConfigDocumentation, b: &ConfigDocumentation) -> (r: bool)
    ensures
        r == (a@ == b@),
    decreases a,
{
    let n = a.0.len();
    if n != b.0.len() {
        assert(a@.len() != b@.len());
        return false;
    }
    let mut i: usize = 0;
    while i < n
        invariant
            n == a.0@.len(),
            n == b.0@.len(),
            0 <= i <= n,
            forall|j: int| 0 <= j < i ==> #[trigger] a@[j] == b@[j],
        decreases n - i,
    {
        proof {
            assert(decreases_to!(*a => a.0));
            assert(decreases_to!(a.0 => a.0[i as int]));
        }
        if !parts_equal(&a.0[i], &b.0[i]) {
            assert(a@[i as int] != b@[i as int]);
            return false;
        }
        i += 1;
    }
    assert(a@ =~= b@);
    true
}

/// Whether two parts are of the same kind with the same key, and hold the
/// same description or equal nested trees.
fn parts_equal(a: &ConfigDocumentationPart, b: &ConfigDocumentationPart) -> (r: bool)
    ensures
        r == (a.node() == b.node()),
    decreases a,
{
    match (a, b) {
        (
            ConfigDocumentationPart::Line(ka, da),
            ConfigDocumentationPart::Line(kb, db),
        ) => *ka == *kb && *da == *db,
        (
            ConfigDocumentationPart::SubPart(ka, ca),
            ConfigDocumentationPart::SubPart(kb, cb),
        ) => {
            if *ka == *kb {
                proof {
                    assert(decreases_to!(*a => *ca));
                }
                docs_equal(ca, cb)
            } else {
                false
            }
        },
        _ => false,
    }
}

impl PartialEq for ConfigDocumentation {
    fn eq(&self, other: &ConfigDocumentation) -> (r: bool) {
        docs_equal(self, other)
    }
}

impl vstd::std_specs::cmp::PartialEqSpecImpl for ConfigDocumentation {
    open spec fn obeys_eq_spec() -> bool {
        true
    }

    open spec fn eq_spec(&self, other: &ConfigDocumentation) -> bool {
        self@ == other@
    }
}

impl PartialEq for ConfigDocumentationPart {
    fn eq(&self, other: &ConfigDocumentationPart) -> (r: bool) {
        parts_equal(self, other)
    }
}

impl vstd::std_specs::cmp::PartialEqSpecImpl for ConfigDocumentationPart {
    open spec fn obeys_eq_spec() -> bool {
        true
    }

    open spec fn eq_spec(&self, other: &ConfigDocumentationPart) -> bool {
        self.node() == other.node()
    }
}

} // verus!
