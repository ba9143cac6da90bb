//! The diagram primitives: a closed tree of nodes and its mathematical model.

use vstd::prelude::*;

verus! {

/// One node of a railroad diagram.
///
/// The set of primitives is closed: leaves carry their text, containers own
/// their children. A tree is owned by exactly one holder at a time.
#[derive(Debug, PartialEq, Eq)]
pub enum Node {
    /// A literal token box.
    Terminal(String),
    /// A box that refers to a separately drawn track by its label.
    NonTerminal(String),
    /// A free-standing annotation.
    Comment(String),
    /// The marker that opens a track.
    Start,
    /// The marker that closes a track.
    End,
    /// A plain piece of track that depicts nothing.
    Empty,
    /// The children one after another, left to right.
    Sequence(Vec<Node>),
    /// Exactly one of the children.
    Choice(Vec<Node>),
    /// The child, or a path that skips it.
    Optional(Box<Node>),
    /// The first child repeated, the second between two repetitions.
    Repeat(Box<Node>, Box<Node>),
    /// The first child inside a box, the second as the label of that box.
    Labeled(Box<Node>, Box<Node>),
    /// The children below one another, not connected.
    Stack(Vec<Node>),
}

/// What a [`Node`] depicts, as a mathematical value.
pub enum NodeView {
    Terminal(Seq<char>),
    NonTerminal(Seq<char>),
    Comment(Seq<char>),
    Start,
    End,
    Empty,
    Sequence(Seq<NodeView>),
    Choice(Seq<NodeView>),
    Optional(Box<NodeView>),
    Repeat(Box<NodeView>, Box<NodeView>),
    Labeled(Box<NodeView>, Box<NodeView>),
    Stack(Seq<NodeView>),
}

impl View for Node {
    type V = NodeView;

    open spec fn view(&self) -> NodeView
        decreases self,
    {
        match self {
            Node::Terminal(label) => NodeView::Terminal(label@),
            Node::NonTerminal(label) => NodeView::NonTerminal(label@),
            Node::Comment(text) => NodeView::Comment(text@),
            Node::Start => NodeView::Start,
            Node::End => NodeView::End,
            Node::Empty => NodeView::Empty,
            Node::Sequence(children) => NodeView::Sequence(
                Seq::new(
                    children@.len(),
                    |i: int|
                        if 0 <= i < children@.len() {
                            children@[i]@
                        } else {
                            NodeView::Empty
                        },
                ),
            ),
            Node::Choice(children) => NodeView::Choice(
                Seq::new(
                    children@.len(),
                    |i: int|
                        if 0 <= i < children@.len() {
                            children@[i]@
                        } else {
                            NodeView::Empty
                        },
                ),
            ),
            Node::Optional(inner) => NodeView::Optional(Box::new((**inner)@)),
            Node::Repeat(inner, separator) => NodeView::Repeat(
                Box::new((**inner)@),
                Box::new((**separator)@),
            ),
            Node::Labeled(inner, label) => NodeView::Labeled(
                Box::new((**inner)@),
                Box::new((**label)@),
            ),
            Node::Stack(children) => NodeView::Stack(
                Seq::new(
                    children@.len(),
                    |i: int|
                        if 0 <= i < children@.len() {
                            children@[i]@
                        } else {
                            NodeView::Empty
                        },
                ),
            ),
        }
    }
}

/// The models of a run of nodes.
pub type NodeViews = Seq<NodeView>;

/// The models of a run of nodes, in order.
pub open spec fn views(nodes: Seq<Node>) -> Seq<NodeView> {
    Seq::new(nodes.len(), |i: int| nodes[i]@)
}

/// The model of a node that wraps `inner` in a skip-path branch.
pub open spec fn optional_of(inner: NodeView) -> NodeView {
    NodeView::Optional(Box::new(inner))
}

/// The model of a node that repeats `inner` with nothing in between.
pub open spec fn repeated_of(inner: NodeView) -> NodeView {
    NodeView::Repeat(Box::new(inner), Box::new(NodeView::Empty))
}

/// The model of a box around `inner` whose label is a comment reading `label`.
pub open spec fn labeled_of(inner: NodeView, label: Seq<char>) -> NodeView {
    NodeView::Labeled(Box::new(inner), Box::new(NodeView::Comment(label)))
}

/// A sequence node depicts the models of its children, and so do a choice and
/// a stack.
pub proof fn lemma_children_views(children: Vec<Node>)
    ensures
        Node::Sequence(children)@ == NodeView::Sequence(views(children@)),
        Node::Choice(children)@ == NodeView::Choice(views(children@)),
        Node::Stack(children)@ == NodeView::Stack(views(children@)),
{
    let stack = Node::Stack(children)@;
    assert(stack is Stack);
    assert(stack->Stack_0 =~= views(children@));
    let sequence = Node::Sequence(children)@;
    assert(sequence is Sequence);
    assert(sequence->Sequence_0 =~= views(children@));
    let choice = Node::Choice(children)@;
    assert(choice is Choice);
    assert(choice->Choice_0 =~= views(children@));
}

impl Node {
    /// A sequence of the given children.
    pub fn sequence(children: Vec<Node>) -> (node: Node)
        ensures
            node@ == NodeView::Sequence(views(children@)),
    {
        proof {
            lemma_children_views(children);
        }
        Node::Sequence(children)
    }

    /// A choice between the given alternatives.
    pub fn choice(children: Vec<Node>) -> (node: Node)
        ensures
            node@ == NodeView::Choice(views(children@)),
    {
        proof {
            lemma_children_views(children);
        }
        Node::Choice(children)
    }

    /// Wraps `inner` in a skip-path branch.
    pub fn optional(inner: Node) -> (node: Node)
        ensures
            node@ == optional_of(inner@),
    {
        Node::Optional(Box::new(inner))
    }

    /// Wraps `inner` in a repetition with an empty separator.
    pub fn repeated(inner: Node) -> (node: Node)
        ensures
            node@ == repeated_of(inner@),
    {
        assert(Node::Empty@ == NodeView::Empty);
        Node::Repeat(Box::new(inner), Box::new(Node::Empty))
    }

    /// The given tracks below one another.
    pub fn stack(children: Vec<Node>) -> (node: Node)
        ensures
            node@ == NodeView::Stack(views(children@)),
    {
        proof {
            lemma_children_views(children);
        }
        Node::Stack(children)
    }

    /// Puts `inner` in a box labeled with a comment that reads `label`.
    pub fn labeled(inner: Node, label: String) -> (node: Node)
        ensures
            node@ == labeled_of(inner@, label@),
    {
        let ghost text = label@;
        let tag = Node::Comment(label);
        assert(tag@ == NodeView::Comment(text));
        Node::Labeled(Box::new(inner), Box::new(tag))
    }

    /// An independent copy of this tree.
    pub fn duplicate(&self) -> (copy: Node)
        ensures
            copy@ == self@,
        decreases self,
    {
        match self {
            Node::Terminal(label) => Node::Terminal(label.clone()),
            Node::NonTerminal(label) => Node::NonTerminal(label.clone()),
            Node::Comment(text) => Node::Comment(text.clone()),
            Node::Start => Node::Start,
            Node::End => Node::End,
            Node::Empty => Node::Empty,
            Node::Sequence(children) => {
                let copies = Node::duplicate_all(children);
                proof {
                    lemma_children_views(*children);
                    assert(views(copies@) =~= views(children@));
                }
                Node::sequence(copies)
            },
            Node::Choice(children) => {
                let copies = Node::duplicate_all(children);
                proof {
                    lemma_children_views(*children);
                    assert(views(copies@) =~= views(children@));
                }
                Node::choice(copies)
            },
            Node::Optional(inner) => Node::Optional(Box::new(inner.duplicate())),
            Node::Repeat(inner, separator) => Node::Repeat(
                Box::new(inner.duplicate()),
                Box::new(separator.duplicate()),
            ),
            Node::Labeled(inner, label) => Node::Labeled(
                Box::new(inner.duplicate()),
                Box::new(label.duplicate()),
            ),
            Node::Stack(children) => {
                let copies = Node::duplicate_all(children);
                proof {
                    lemma_children_views(*children);
                    assert(views(copies@) =~= views(children@));
                }
                Node::stack(copies)
            },
        }
    }

    /// Independent copies of the given trees, in order.
    pub fn duplicate_all(nodes: &Vec<Node>) -> (copies: Vec<Node>)
        ensures
            copies@.len() == nodes@.len(),
            forall|i: int| 0 <= i < nodes@.len() ==> (#[trigger] copies@[i])@ == nodes@[i]@,
        decreases nodes,
    {
        let mut copies: Vec<Node> = Vec::with_capacity(nodes.len());
        let mut i: usize = 0;
        while i < nodes.len()
            invariant
                i <= nodes@.len(),
                copies@.len() == i,
                forall|j: int| 0 <= j < i ==> (#[trigger] copies@[j])@ == nodes@[j]@,
            decreases nodes@.len() - i,
        {
            let copy = nodes[i].duplicate();
            copies.push(copy);
            i = i + 1;
        }
        copies
    }
}

} // verus!
