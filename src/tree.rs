//! The node tree that the collection walks: an arena of nodes addressed by
//! index, where every child stands after its parent.

use crate::style::StyleSnapshot;
use vstd::prelude::*;

verus! {

/// The element kinds the collection treats specially; every other element is
/// `Other`.
#[derive(Clone, Copy, Debug, PartialEq, Eq, Structural)]
pub enum ElementTag {
    Canvas,
    Image,
    IFrame,
    Object,
    Input,
    TextArea,
    Media,
    Select,
    OptGroup,
    OptionItem,
    Br,
    Paragraph,
    Other,
}

/// What a node is.
#[derive(Clone, Copy, Debug, PartialEq, Eq, Structural)]
pub enum NodeKind {
    Text,
    Element(ElementTag),
    /// Comments, documents and the like: they yield nothing.
    Other,
}

/// One node of the tree.
pub struct Node {
    pub connected: bool,
    pub kind: NodeKind,
    pub parent: Option<usize>,
    /// Child indices in tree order.
    pub children: Vec<usize>,
    pub style: Option<StyleSnapshot>,
    /// The text of a text node; empty for other nodes.
    pub text: String,
}

/// A tree of nodes stored in an arena.
pub struct Tree {
    pub nodes: Vec<Node>,
}

/// Elements whose rendered content is not their children (media and form
/// controls): text inside them is ignored.
pub open spec fn is_replaced(tag: ElementTag) -> bool {
    match tag {
        ElementTag::Canvas | ElementTag::Image | ElementTag::IFrame | ElementTag::Object
        | ElementTag::Input | ElementTag::TextArea | ElementTag::Media => true,
        _ => false,
    }
}

/// Executable form of [`is_replaced`].
pub fn replaced(tag: ElementTag) -> (r: bool)
    ensures
        r == is_replaced(tag),
{
    match tag {
        ElementTag::Canvas | ElementTag::Image | ElementTag::IFrame | ElementTag::Object
        | ElementTag::Input | ElementTag::TextArea | ElementTag::Media => true,
        _ => false,
    }
}

impl Tree {
    /// Number of nodes.
    pub open spec fn len(&self) -> int {
        self.nodes@.len() as int
    }

    /// Node `i` is in place: its parent stands before it, and each of its
    /// children stands after it, inside the arena, and names `i` as parent.
    pub open spec fn node_wf(&self, i: int) -> bool {
        let n = self.nodes@[i];
        &&& (n.parent matches Some(p) ==> p < i)
        &&& forall|k: int|
            0 <= k < n.children@.len() ==> i < #[trigger] n.children@[k] < self.len()
                && self.nodes@[n.children@[k] as int].parent == Some(i as usize)
    }

    /// Every node is in place; in particular the child relation has no cycle.
    pub open spec fn wf(&self) -> bool {
        forall|i: int| 0 <= i < self.len() ==> #[trigger] self.node_wf(i)
    }

    /// An empty tree.
    pub fn new() -> (r: Tree)
        ensures
            r.wf(),
            r.len() == 0,
    {
        Tree { nodes: Vec::new() }
    }

    /// Adds a connected node with no children as the last child of `parent`
    /// (or as a root) and returns its index.
    pub fn add_node(
        &mut self,
        parent: Option<usize>,
        kind: NodeKind,
        style: Option<StyleSnapshot>,
        text: &str,
    ) -> (r: usize)
        requires
            old(self).wf(),
            parent matches Some(p) ==> p < old(self).len(),
            old(self).len() < usize::MAX,
        ensures
            final(self).wf(),
            r == old(self).len(),
            final(self).len() == old(self).len() + 1,
            final(self).nodes@[r as int].connected,
            final(self).nodes@[r as int].kind == kind,
            final(self).nodes@[r as int].parent == parent,
            final(self).nodes@[r as int].children@.len() == 0,
            final(self).nodes@[r as int].style == style,
            final(self).nodes@[r as int].text@ == text@,
            forall|j: int|
                0 <= j < old(self).len() && parent != Some(j as usize) ==> #[trigger] final(self).nodes@[j] == old(self).nodes@[j],
            parent matches Some(p) ==> final(self).nodes@[p as int] == (Node {
                children: final(self).nodes@[p as int].children,
                ..old(self).nodes@[p as int]
            }) && final(self).nodes@[p as int].children@ == old(self).nodes@[p as int].children@.push(r),
    {
        let idx = self.nodes.len();
        if let Some(p) = parent {
            self.nodes[p].children.push(idx);
        }
        self.nodes.push(
            Node {
                connected: true,
                kind,
                parent,
                children: Vec::new(),
                style,
                text: String::from_str(text),
            },
        );
        proof {
            assert forall|i: int| 0 <= i < self.len() implies #[trigger] self.node_wf(i) by {
                if i < idx {
                    assert(old(self).node_wf(i));
                    let n = self.nodes@[i];
                    assert forall|k: int| 0 <= k < n.children@.len() implies i < #[trigger] n.children@[k]
                        < self.len() && self.nodes@[n.children@[k] as int].parent == Some(i as usize) by {
                        if k < old(self).nodes@[i].children@.len() {
                            assert(n.children@[k] == old(self).nodes@[i].children@[k]);
                        }
                    }
                }
            }
        }
        idx
    }

    /// Marks node `i` as connected to a document or not.
    pub fn set_connected(&mut self, i: usize, connected: bool)
        requires
            old(self).wf(),
            i < old(self).len(),
        ensures
            final(self).wf(),
            final(self).len() == old(self).len(),
            final(self).nodes@[i as int] == (Node { connected, ..old(self).nodes@[i as int] }),
            forall|j: int| 0 <= j < old(self).len() && j != i ==> #[trigger] final(self).nodes@[j] == old(self).nodes@[j],
    {
        self.nodes[i].connected = connected;
        proof {
            assert forall|k: int| 0 <= k < self.len() implies #[trigger] self.node_wf(k) by {
                assert(old(self).node_wf(k));
            }
        }
    }
}

} // verus!
