//! The structural derivation: from the shape of a node type to the node tree
//! that describes it, and the tracks of the types it refers to.

use vstd::prelude::*;
use crate::railroad::attrs::{DeriveError, DeriveErrorView, Path, PathView};
use crate::railroad::config::{
    FieldAttrs, FieldAttrsView, FieldKind, FieldKindView, ToplevelAttrs, field_config,
    toplevel_config,
};
use crate::railroad::diagram::{Diagram, nonterm_tracks};
use crate::railroad::node::{Node, NodeView, labeled_of, optional_of, repeated_of, views};
use crate::railroad::schema::{Data, DeriveInput, Field, TypeDesc, TypeView, Variant};

verus! {

/// A named track, as a mathematical value: its label and its node.
pub type TrackView = (Seq<char>, NodeView);

/// The models of a run of named tracks, in order.
pub open spec fn track_views(tracks: Seq<(String, Node)>) -> Seq<TrackView> {
    Seq::new(tracks.len(), |i: int| (tracks[i].0@, tracks[i].1@))
}

/// Whether one of the tracks carries the given label.
pub open spec fn has_label(tracks: Seq<TrackView>, label: Seq<char>) -> bool {
    exists|i: int| 0 <= i < tracks.len() && (#[trigger] tracks[i]).0 == label
}

/// The tracks after one more is registered: a track whose label is already
/// there changes nothing, any other is appended.
pub open spec fn register(tracks: Seq<TrackView>, track: Option<TrackView>) -> Seq<TrackView> {
    match track {
        Some(named) => if has_label(tracks, named.0) {
            tracks
        } else {
            tracks.push(named)
        },
        None => tracks,
    }
}

/// Whether no two of the tracks share a label.
pub open spec fn distinct_labels(tracks: Seq<TrackView>) -> bool {
    forall|i: int, j: int|
        0 <= i < j < tracks.len() ==> (#[trigger] tracks[i]).0 != (#[trigger] tracks[j]).0
}

/// What one field contributes: its child in the sequence, and the track it
/// asks for, if any.
pub struct Piece {
    pub child: NodeView,
    pub track: Option<TrackView>,
}

/// The position of the first field from `from` on that has the given name.
pub open spec fn first_named(fields: Seq<Field>, name: Seq<char>, from: int) -> Option<int>
    decreases fields.len() - from,
{
    if from < 0 || from >= fields.len() {
        None
    } else if fields[from].name@ == name {
        Some(from)
    } else {
        first_named(fields, name, from + 1)
    }
}

/// The type that a field is drawn from: a manual override replaces the
/// outermost optional or collection layer of the declared type.
pub open spec fn field_type(attrs: FieldAttrsView, ty: TypeView) -> TypeView {
    if attrs.optional || attrs.repeated {
        ty.element()
    } else {
        ty
    }
}

/// `node` with the manual overrides applied: repeated first, then optional.
pub open spec fn shaped(attrs: FieldAttrsView, node: NodeView) -> NodeView {
    let repeated = if attrs.repeated {
        repeated_of(node)
    } else {
        node
    };
    if attrs.optional {
        optional_of(repeated)
    } else {
        repeated
    }
}

/// `node` with the manual overrides applied, in a box labeled with the
/// comment where the field has one.
pub open spec fn finished(attrs: FieldAttrsView, node: NodeView) -> NodeView {
    match attrs.comment {
        Some(text) => labeled_of(shaped(attrs, node), text),
        None => shaped(attrs, node),
    }
}

/// The text in the box that refers to a type: the comment of the field, or
/// the label of the type.
pub open spec fn reference_text(attrs: FieldAttrsView, ty: TypeView) -> Seq<char> {
    match attrs.comment {
        Some(text) => text,
        None => ty.label(),
    }
}

/// The error for a delimiter field whose contents are missing or are the
/// field itself, or whose own type is no delimiter.
pub open spec fn bad_delim(field: Field, name: Seq<char>) -> DeriveErrorView {
    DeriveErrorView::Malformed { key: name, location: field.location }
}

/// What the field at position `at` contributes.
///
/// A terminal is the inline form of its type. A nonterminal is a reference
/// to its type, whose full form it asks to be drawn as a track under the
/// label of the type. A delimiter field names the sibling that holds its
/// contents: it is the inline form of that sibling's type between the
/// delimiters of its own type.
#[verifier::opaque]
pub open spec fn field_piece(fields: Seq<Field>, at: int) -> Result<Piece, DeriveErrorView> {
    let field = fields[at];
    match field_config(field.attrs@) {
        Err(error) => Err(error),
        Ok(attrs) => {
            let ty = field_type(attrs, field.ty@);
            match attrs.kind {
                FieldKindView::Terminal => Ok(
                    Piece { child: finished(attrs, ty.describe_inline()), track: None },
                ),
                FieldKindView::NonTerminal => Ok(
                    Piece {
                        child: shaped(attrs, ty.reference(reference_text(attrs, ty))),
                        track: Some((ty.label(), ty.named_full())),
                    },
                ),
                FieldKindView::Delim(name) => match first_named(fields, name, 0) {
                    Some(contents) => if contents == at {
                        Err(bad_delim(field, name))
                    } else {
                        match field.ty@.wrap(fields[contents].ty@.describe_inline()) {
                            Some(node) => Ok(Piece { child: finished(attrs, node), track: None }),
                            None => Err(bad_delim(field, name)),
                        }
                    },
                    None => Err(bad_delim(field, name)),
                },
            }
        },
    }
}

/// The children and the tracks after the first `upto` fields, read in the
/// order in which they are declared; the error of the first field that has
/// one.
pub open spec fn fields_outcome(fields: Seq<Field>, upto: int, tracks: Seq<TrackView>) -> Result<
    (Seq<NodeView>, Seq<TrackView>),
    DeriveErrorView,
>
    decreases upto,
{
    if upto <= 0 {
        Ok((Seq::empty(), tracks))
    } else {
        match fields_outcome(fields, upto - 1, tracks) {
            Err(error) => Err(error),
            Ok((children, known)) => match field_piece(fields, upto - 1) {
                Err(error) => Err(error),
                Ok(piece) => Ok((children.push(piece.child), register(known, piece.track))),
            },
        }
    }
}

/// The alternative drawn for a variant with the given children: nothing but
/// track for a variant without fields, and else their sequence.
pub open spec fn variant_node(children: Seq<NodeView>) -> NodeView {
    if children.len() == 0 {
        NodeView::Empty
    } else {
        NodeView::Sequence(children)
    }
}

/// The alternatives and the tracks after the first `upto` variants, read in
/// the order in which they are declared; the error of the first field that
/// has one.
pub open spec fn variants_outcome(
    variants: Seq<Variant>,
    upto: int,
    tracks: Seq<TrackView>,
) -> Result<(Seq<NodeView>, Seq<TrackView>), DeriveErrorView>
    decreases upto,
{
    if upto <= 0 {
        Ok((Seq::empty(), tracks))
    } else {
        match variants_outcome(variants, upto - 1, tracks) {
            Err(error) => Err(error),
            Ok((alternatives, known)) => {
                let fields = variants[upto - 1].fields@;
                match fields_outcome(fields, fields.len() as int, known) {
                    Err(error) => Err(error),
                    Ok((children, found)) => Ok(
                        (alternatives.push(variant_node(children)), found),
                    ),
                }
            },
        }
    }
}

/// What a derivation produces, as a mathematical value.
pub struct DerivationView {
    pub prefix: PathView,
    pub label: Seq<char>,
    pub node: NodeView,
    pub nonterms: Seq<TrackView>,
}

/// What the derivation makes of a type definition.
///
/// The attributes of the type are resolved first, and what is wrong with
/// them is reported whatever the shape is. Then a union is refused. Of a
/// product or sum type the fields are read in the order in which they are
/// declared: a product type becomes the sequence of its fields, a sum type
/// the choice between its variants.
pub open spec fn derivation(input: DeriveInput) -> Result<DerivationView, DeriveErrorView> {
    match toplevel_config(input.attrs@) {
        Err(error) => Err(error),
        Ok(prefix) => match input.data {
            Data::Union(location) => Err(DeriveErrorView::UnsupportedShape { location }),
            Data::Struct(fields) => match fields_outcome(
                fields@,
                fields@.len() as int,
                Seq::empty(),
            ) {
                Err(error) => Err(error),
                Ok((children, tracks)) => Ok(
                    DerivationView {
                        prefix,
                        label: input.ident@,
                        node: NodeView::Sequence(children),
                        nonterms: tracks,
                    },
                ),
            },
            Data::Enum(variants) => match variants_outcome(
                variants@,
                variants@.len() as int,
                Seq::empty(),
            ) {
                Err(error) => Err(error),
                Ok((alternatives, tracks)) => Ok(
                    DerivationView {
                        prefix,
                        label: input.ident@,
                        node: NodeView::Choice(alternatives),
                        nonterms: tracks,
                    },
                ),
            },
        },
    }
}

/// An error among the first fields stays the outcome when more are read.
pub proof fn lemma_fields_error_stays(
    fields: Seq<Field>,
    at: int,
    upto: int,
    tracks: Seq<TrackView>,
)
    requires
        0 <= at <= upto,
        fields_outcome(fields, at, tracks) is Err,
    ensures
        fields_outcome(fields, upto, tracks) == fields_outcome(fields, at, tracks),
    decreases upto - at,
{
    if at < upto {
        lemma_fields_error_stays(fields, at, upto - 1, tracks);
    }
}

/// An error among the first variants stays the outcome when more are read.
pub proof fn lemma_variants_error_stays(
    variants: Seq<Variant>,
    at: int,
    upto: int,
    tracks: Seq<TrackView>,
)
    requires
        0 <= at <= upto,
        variants_outcome(variants, at, tracks) is Err,
    ensures
        variants_outcome(variants, upto, tracks) == variants_outcome(variants, at, tracks),
    decreases upto - at,
{
    if at < upto {
        lemma_variants_error_stays(variants, at, upto - 1, tracks);
    }
}

/// Finds the first field with the given name.
pub fn find_field(fields: &Vec<Field>, name: &String) -> (found: Option<usize>)
    ensures
        match found {
            Some(i) => first_named(fields@, name@, 0) == Some(i as int) && i < fields@.len(),
            None => first_named(fields@, name@, 0) is None,
        },
{
    let mut i: usize = 0;
    while i < fields.len()
        invariant
            i <= fields@.len(),
            first_named(fields@, name@, 0) == first_named(fields@, name@, i as int),
        decreases fields@.len() - i,
    {
        if fields[i].name == *name {
            return Some(i);
        }
        i = i + 1;
    }
    None
}

/// Registers a track: one whose label is already there is dropped.
pub fn register_track(tracks: &mut Vec<(String, Node)>, track: Option<(String, Node)>)
    ensures
        track_views(final(tracks)@) == register(
            track_views(old(tracks)@),
            match track {
                Some(named) => Some((named.0@, named.1@)),
                None => None,
            },
        ),
{
    match track {
        None => {
            assert(track_views(tracks@) =~= track_views(old(tracks)@));
        },
        Some(named) => {
            let ghost before = track_views(tracks@);
            let mut i: usize = 0;
            while i < tracks.len()
                invariant
                    i <= tracks@.len(),
                    tracks@ == old(tracks)@,
                    track == Some(named),
                    before == track_views(tracks@),
                    forall|j: int| 0 <= j < i ==> (#[trigger] before[j]).0 != named.0@,
                decreases tracks@.len() - i,
            {
                if tracks[i].0 == named.0 {
                    assert(before[i as int].0 == named.0@);
                    assert(has_label(before, named.0@));
                    return ;
                }
                i = i + 1;
            }
            assert(!has_label(before, named.0@));
            let ghost added = (named.0@, named.1@);
            tracks.push(named);
            assert(track_views(tracks@) =~= before.push(added));
        },
    }
}

/// `node` with the manual overrides applied.
fn shape(attrs: &FieldAttrs, node: Node) -> (shaped_node: Node)
    ensures
        shaped_node@ == shaped(attrs@, node@),
{
    let repeated = if attrs.repeated {
        Node::repeated(node)
    } else {
        node
    };
    if attrs.optional {
        Node::optional(repeated)
    } else {
        repeated
    }
}

/// `node` with the manual overrides applied, labeled with the comment where
/// there is one.
fn finish(attrs: &FieldAttrs, node: Node) -> (finished_node: Node)
    ensures
        finished_node@ == finished(attrs@, node@),
{
    let shaped_node = shape(attrs, node);
    match &attrs.comment {
        Some(text) => Node::labeled(shaped_node, text.clone()),
        None => shaped_node,
    }
}

/// Builds what the field at position `at` contributes: its child, and the
/// track it asks for.
fn generate_field_railroad_expr(fields: &Vec<Field>, at: usize) -> (piece: Result<
    (Node, Option<(String, Node)>),
    DeriveError,
>)
    requires
        at < fields@.len(),
    ensures
        match piece {
            Ok((child, track)) => field_piece(fields@, at as int) == Ok::<Piece, DeriveErrorView>(
                Piece {
                    child: child@,
                    track: match track {
                        Some(named) => Some((named.0@, named.1@)),
                        None => None,
                    },
                },
            ),
            Err(error) => field_piece(fields@, at as int) == Err::<Piece, DeriveErrorView>(error@),
        },
{
    reveal(field_piece);
    let field = &fields[at];
    let attrs = match FieldAttrs::try_from(&field.attrs) {
        Ok(attrs) => attrs,
        Err(error) => {
            return Err(error);
        },
    };
    let ty: &TypeDesc = if attrs.optional || attrs.repeated {
        field.ty.element()
    } else {
        &field.ty
    };
    match &attrs.kind {
        FieldKind::Terminal => Ok((finish(&attrs, ty.describe_inline()), None)),
        FieldKind::NonTerminal => {
            let label = ty.label();
            let reference = match &attrs.comment {
                Some(text) => ty.reference(text),
                None => ty.reference(&label),
            };
            let child = shape(&attrs, reference);
            Ok((child, Some((label, ty.named_full()))))
        },
        FieldKind::Delim(name) => {
            let contents = match find_field(fields, name) {
                Some(i) => i,
                None => {
                    return Err(
                        DeriveError::Malformed { key: name.clone(), location: field.location },
                    );
                },
            };
            if contents == at {
                return Err(DeriveError::Malformed { key: name.clone(), location: field.location });
            }
            match field.ty.wrap(fields[contents].ty.describe_inline()) {
                Ok(node) => Ok((finish(&attrs, node), None)),
                Err(_) => Err(
                    DeriveError::Malformed { key: name.clone(), location: field.location },
                ),
            }
        },
    }
}

/// Builds the children of a run of fields, in the order in which they are
/// declared, and registers the tracks they ask for.
pub fn generate_fields_railroad_expr(fields: &Vec<Field>, tracks: Vec<(String, Node)>) -> (built:
    Result<(Vec<Node>, Vec<(String, Node)>), DeriveError>)
    ensures
        match built {
            Ok((children, found)) => fields_outcome(
                fields@,
                fields@.len() as int,
                track_views(tracks@),
            ) == Ok::<(Seq<NodeView>, Seq<TrackView>), DeriveErrorView>(
                (views(children@), track_views(found@)),
            ),
            Err(error) => fields_outcome(fields@, fields@.len() as int, track_views(tracks@))
                == Err::<(Seq<NodeView>, Seq<TrackView>), DeriveErrorView>(error@),
        },
{
    let ghost start = track_views(tracks@);
    let mut found = tracks;
    let mut children: Vec<Node> = Vec::with_capacity(fields.len());
    let mut i: usize = 0;
    assert(views(children@) =~= Seq::<NodeView>::empty());
    while i < fields.len()
        invariant
            i <= fields@.len(),
            start == track_views(tracks@),
            fields_outcome(fields@, i as int, start) == Ok::<
                (Seq<NodeView>, Seq<TrackView>),
                DeriveErrorView,
            >((views(children@), track_views(found@))),
        decreases fields@.len() - i,
    {
        let ghost before = views(children@);
        match generate_field_railroad_expr(fields, i) {
            Ok((child, track)) => {
                let ghost added = child@;
                children.push(child);
                register_track(&mut found, track);
                assert(views(children@) =~= before.push(added));
            },
            Err(error) => {
                proof {
                    assert(fields_outcome(fields@, i + 1, start) == Err::<
                        (Seq<NodeView>, Seq<TrackView>),
                        DeriveErrorView,
                    >(error@));
                    lemma_fields_error_stays(fields@, i + 1, fields@.len() as int, start);
                }
                return Err(error);
            },
        }
        i = i + 1;
    }
    Ok((children, found))
}

/// Builds the sequence that describes a product type, and registers the
/// tracks its fields ask for.
pub fn generate_struct_railroad_expr(fields: &Vec<Field>, tracks: Vec<(String, Node)>) -> (built:
    Result<(Node, Vec<(String, Node)>), DeriveError>)
    ensures
        match built {
            Ok((node, found)) => {
                &&& fields_outcome(fields@, fields@.len() as int, track_views(tracks@)) matches Ok(
                    (children, known),
                )
                &&& node@ == NodeView::Sequence(children)
                &&& track_views(found@) == known
            },
            Err(error) => fields_outcome(fields@, fields@.len() as int, track_views(tracks@))
                == Err::<(Seq<NodeView>, Seq<TrackView>), DeriveErrorView>(error@),
        },
{
    match generate_fields_railroad_expr(fields, tracks) {
        Ok((children, found)) => Ok((Node::sequence(children), found)),
        Err(error) => Err(error),
    }
}

/// Builds the choice that describes a sum type, and registers the tracks the
/// fields of its variants ask for.
pub fn generate_enum_railroad_expr(variants: &Vec<Variant>, tracks: Vec<(String, Node)>) -> (built:
    Result<(Node, Vec<(String, Node)>), DeriveError>)
    ensures
        match built {
            Ok((node, found)) => {
                &&& variants_outcome(
                    variants@,
                    variants@.len() as int,
                    track_views(tracks@),
                ) matches Ok((alternatives, known))
                &&& node@ == NodeView::Choice(alternatives)
                &&& track_views(found@) == known
            },
            Err(error) => variants_outcome(variants@, variants@.len() as int, track_views(tracks@))
                == Err::<(Seq<NodeView>, Seq<TrackView>), DeriveErrorView>(error@),
        },
{
    let ghost start = track_views(tracks@);
    let mut found = tracks;
    let mut alternatives: Vec<Node> = Vec::with_capacity(variants.len());
    let mut i: usize = 0;
    assert(views(alternatives@) =~= Seq::<NodeView>::empty());
    while i < variants.len()
        invariant
            i <= variants@.len(),
            start == track_views(tracks@),
            variants_outcome(variants@, i as int, start) == Ok::<
                (Seq<NodeView>, Seq<TrackView>),
                DeriveErrorView,
            >((views(alternatives@), track_views(found@))),
        decreases variants@.len() - i,
    {
        let ghost before = views(alternatives@);
        match generate_fields_railroad_expr(&variants[i].fields, found) {
            Ok((children, known)) => {
                let alternative = if children.len() == 0 {
                    Node::Empty
                } else {
                    Node::sequence(children)
                };
                assert(alternative@ == variant_node(views(children@)));
                let ghost added = alternative@;
                alternatives.push(alternative);
                found = known;
                assert(views(alternatives@) =~= before.push(added));
            },
            Err(error) => {
                proof {
                    assert(variants_outcome(variants@, i + 1, start) == Err::<
                        (Seq<NodeView>, Seq<TrackView>),
                        DeriveErrorView,
                    >(error@));
                    lemma_variants_error_stays(variants@, i + 1, variants@.len() as int, start);
                }
                return Err(error);
            },
        }
        i = i + 1;
    }
    Ok((Node::choice(alternatives), found))
}

/// What a derivation produces: the description of the type and the tracks
/// of the types it refers to.
#[derive(Debug, PartialEq, Eq)]
pub struct Derivation {
    /// The path at which the generated code finds this library.
    pub prefix: Path,
    /// The label under which the type is referred to.
    pub label: String,
    /// The full form of the type.
    pub node: Node,
    /// The tracks to draw beside it, by label, in the order in which they
    /// were first asked for.
    pub nonterms: Vec<(String, Node)>,
}

impl View for Derivation {
    type V = DerivationView;

    open spec fn view(&self) -> DerivationView {
        DerivationView {
            prefix: self.prefix@,
            label: self.label@,
            node: self.node@,
            nonterms: track_views(self.nonterms@),
        }
    }
}

impl Derivation {
    /// The diagram of the type: its full form as the main track, and one
    /// named track for each type it refers to.
    pub fn into_diagram(self) -> (diagram: Diagram)
        ensures
            diagram@.toplevel == Some(self.node@),
            diagram@.nonterms == nonterm_tracks(self.nonterms@),
    {
        Diagram::with_nonterms(self.node, self.nonterms)
    }

    /// The type as the declared type of a field elsewhere: its inline form
    /// is its full form, and it is no delimiter.
    pub fn into_type(self) -> (ty: TypeDesc)
        ensures
            ty@ == (TypeView::Named {
                label: self.label@,
                full: self.node@,
                inline: self.node@,
                delim: None,
            }),
    {
        let inline = self.node.duplicate();
        TypeDesc::Named { label: self.label, full: self.node, inline, delim: None }
    }
}

/// Derives the description of a type from its shape.
pub fn railroad(input: &DeriveInput) -> (derived: Result<Derivation, DeriveError>)
    ensures
        match derived {
            Ok(found) => derivation(*input) == Ok::<DerivationView, DeriveErrorView>(found@),
            Err(error) => derivation(*input) == Err::<DerivationView, DeriveErrorView>(error@),
        },
{
    let attrs = match ToplevelAttrs::try_from(&input.attrs) {
        Ok(attrs) => attrs,
        Err(error) => {
            return Err(error);
        },
    };
    let tracks: Vec<(String, Node)> = Vec::new();
    assert(track_views(tracks@) =~= Seq::<TrackView>::empty());
    let built = match &input.data {
        Data::Union(location) => {
            return Err(DeriveError::UnsupportedShape { location: *location });
        },
        Data::Struct(fields) => generate_struct_railroad_expr(fields, tracks),
        Data::Enum(variants) => generate_enum_railroad_expr(variants, tracks),
    };
    match built {
        Ok((node, nonterms)) => Ok(
            Derivation { prefix: attrs.prefix, label: input.ident.clone(), node, nonterms },
        ),
        Err(error) => Err(error),
    }
}

} // verus!
