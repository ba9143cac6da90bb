//! The accumulator that holds the tracks of one diagram and hands them to
//! the rendering engine.

use vstd::prelude::*;
use crate::railroad::engine::{EngineDiagram, document, document_root, document_sheets, rendered, text};
use crate::railroad::node::{Node, NodeView, views};

verus! {

/// What a [`Diagram`] holds, as a mathematical value.
pub struct DiagramView {
    /// The main track, if one was set.
    pub toplevel: Option<NodeView>,
    /// The named tracks, in the order in which they were added.
    pub nonterms: Seq<NodeView>,
}

impl DiagramView {
    /// The diagram without any track.
    pub open spec fn empty() -> DiagramView {
        DiagramView { toplevel: None, nonterms: Seq::empty() }
    }

    /// The diagram whose only track is the main track `track`.
    pub open spec fn new(track: NodeView) -> DiagramView {
        DiagramView { toplevel: Some(track), nonterms: Seq::empty() }
    }

    /// This diagram with `track` as its main track, in place of any other.
    pub open spec fn set_track(self, track: NodeView) -> DiagramView {
        DiagramView { toplevel: Some(track), nonterms: self.nonterms }
    }

    /// This diagram with one more named track at the end.
    pub open spec fn add_nonterm(self, name: Seq<char>, node: NodeView) -> DiagramView {
        DiagramView {
            toplevel: self.toplevel,
            nonterms: self.nonterms.push(nonterm_track(name, node)),
        }
    }

    /// The tracks in the order in which they are drawn: the main track first,
    /// if there is one, then the named tracks as they were added.
    pub open spec fn tracks(self) -> Seq<NodeView> {
        match self.toplevel {
            Some(track) => seq![track] + self.nonterms,
            None => self.nonterms,
        }
    }
}

/// The track drawn for a nonterminal: its name as a comment, a start marker,
/// the node itself, and an end marker.
pub open spec fn nonterm_track(name: Seq<char>, node: NodeView) -> NodeView {
    NodeView::Sequence(seq![NodeView::Comment(name), NodeView::Start, node, NodeView::End])
}

/// The tracks drawn for a run of named nodes, in order.
pub open spec fn nonterm_tracks(pairs: Seq<(String, Node)>) -> Seq<NodeView> {
    Seq::new(pairs.len(), |i: int| nonterm_track(pairs[i].0@, pairs[i].1@))
}

/// One main track and any number of named tracks, drawn together.
///
/// The diagram owns every node it holds.
#[derive(Debug, PartialEq, Eq)]
pub struct Diagram {
    /// The node to make the main track with.
    toplevel: Option<Node>,
    /// The tracks of the nonterminals, already wrapped.
    nonterms: Vec<Node>,
}

impl View for Diagram {
    type V = DiagramView;

    closed spec fn view(&self) -> DiagramView {
        DiagramView {
            toplevel: match self.toplevel {
                Some(track) => Some(track@),
                None => None,
            },
            nonterms: views(self.nonterms@),
        }
    }
}

impl Default for Diagram {
    fn default() -> (diagram: Diagram)
        ensures
            diagram@ == DiagramView::empty(),
    {
        Diagram::empty()
    }
}

impl Diagram {
    /// A diagram without any track.
    pub fn empty() -> (diagram: Diagram)
        ensures
            diagram@ == DiagramView::empty(),
    {
        let diagram = Diagram { toplevel: None, nonterms: Vec::new() };
        assert(diagram@.nonterms =~= Seq::<NodeView>::empty());
        diagram
    }

    /// A diagram without any track, with room for `capacity` nonterminals.
    pub fn empty_with_capacity(capacity: usize) -> (diagram: Diagram)
        ensures
            diagram@ == DiagramView::empty(),
    {
        let diagram = Diagram { toplevel: None, nonterms: Vec::with_capacity(capacity) };
        assert(diagram@.nonterms =~= Seq::<NodeView>::empty());
        diagram
    }

    /// A diagram whose main track is `track`.
    pub fn new(track: Node) -> (diagram: Diagram)
        ensures
            diagram@ == DiagramView::new(track@),
    {
        let diagram = Diagram { toplevel: Some(track), nonterms: Vec::new() };
        assert(diagram@.nonterms =~= Seq::<NodeView>::empty());
        diagram
    }

    /// A diagram whose main track is `track`, with room for `capacity`
    /// nonterminals.
    pub fn with_capacity(track: Node, capacity: usize) -> (diagram: Diagram)
        ensures
            diagram@ == DiagramView::new(track@),
    {
        let diagram = Diagram { toplevel: Some(track), nonterms: Vec::with_capacity(capacity) };
        assert(diagram@.nonterms =~= Seq::<NodeView>::empty());
        diagram
    }

    /// A diagram whose main track is `track` and whose named tracks are made
    /// of `nonterms`, in the order given.
    pub fn with_nonterms(track: Node, nonterms: Vec<(String, Node)>) -> (diagram: Diagram)
        ensures
            diagram@.toplevel == Some(track@),
            diagram@.nonterms == nonterm_tracks(nonterms@),
    {
        let ghost pairs = nonterms@;
        let ghost main = track@;
        let mut diagram = Diagram::with_capacity(track, nonterms.len());
        for pair in it: nonterms
            invariant
                it.seq() == pairs,
                diagram@.toplevel == Some(main),
                diagram@.nonterms == nonterm_tracks(pairs.take(it.index() as int)),
        {
            let (name, node) = pair;
            assert(pairs.take(it.index() + 1) =~= pairs.take(it.index() as int).push(pair));
            diagram.add_nonterm(name, node);
            assert(diagram@.nonterms =~= nonterm_tracks(pairs.take(it.index() + 1)));
        }
        assert(pairs.take(pairs.len() as int) =~= pairs);
        diagram
    }

    /// Sets the main track and hands back the one it displaces, if any.
    pub fn set_track(&mut self, track: Node) -> (previous: Option<Node>)
        ensures
            match previous {
                Some(node) => old(self)@.toplevel == Some(node@),
                None => old(self)@.toplevel is None,
            },
            final(self)@ == old(self)@.set_track(track@),
    {
        let previous = self.toplevel.take();
        self.toplevel = Some(track);
        previous
    }

    /// Appends a named track: the name as a comment, a start marker, the
    /// node, and an end marker.
    pub fn add_nonterm(&mut self, name: String, nonterm: Node)
        ensures
            final(self)@ == old(self)@.add_nonterm(name@, nonterm@),
    {
        let ghost label = name@;
        let ghost inner = nonterm@;
        let mut parts: Vec<Node> = Vec::with_capacity(4);
        parts.push(Node::Comment(name));
        parts.push(Node::Start);
        parts.push(nonterm);
        parts.push(Node::End);
        proof {
            assert(parts@[0]@ == NodeView::Comment(label));
            assert(parts@[1]@ == NodeView::Start);
            assert(parts@[3]@ == NodeView::End);
            assert(views(parts@) =~= seq![
                NodeView::Comment(label),
                NodeView::Start,
                inner,
                NodeView::End,
            ]);
        }
        let track = Node::sequence(parts);
        self.nonterms.push(track);
        assert(final(self)@.nonterms =~= old(self)@.nonterms.push(nonterm_track(label, inner)));
    }

    /// Hands the tracks to the rendering engine: the main track first, if
    /// there is one, then the named tracks in the order in which they were
    /// added, below one another, with the default style sheet embedded once.
    pub fn into_svg(self) -> (formatter: DiagramSvgFormatter)
        ensures
            formatter.root() == NodeView::Stack(self@.tracks()),
            formatter.sheets() == 1,
    {
        let ghost before = self@;
        let Diagram { toplevel, nonterms } = self;
        let mut rest = nonterms;
        let mut items: Vec<Node> = Vec::with_capacity(rest.len());
        match toplevel {
            Some(track) => {
                items.push(track);
            },
            None => {},
        }
        items.append(&mut rest);
        assert(views(items@) =~= before.tracks());
        DiagramSvgFormatter { diag: document(&items) }
    }
}

/// A diagram in the hands of the rendering engine.
///
/// The conversion is done: writing the text again builds nothing anew.
pub struct DiagramSvgFormatter {
    /// The engine's document.
    diag: EngineDiagram,
}

impl DiagramSvgFormatter {
    /// What the root of the document depicts.
    pub closed spec fn root(&self) -> NodeView {
        document_root(self.diag)
    }

    /// How many copies of the default style sheet the document holds.
    pub closed spec fn sheets(&self) -> nat {
        document_sheets(self.diag)
    }

    /// The document as the text of a vector graphic.
    pub fn to_text(&self) -> (svg: String)
        ensures
            svg@ == rendered(self.root(), self.sheets()),
    {
        text(&self.diag)
    }
}

} // verus!
