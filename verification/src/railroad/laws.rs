//! What holds of the library as a whole: of sequences of calls on a diagram,
//! and of every derivation.

use vstd::prelude::*;
use crate::railroad::attrs::{Attribute, DeriveErrorView, entries};
use crate::railroad::config::{
    field_attr, field_config, field_valid, lemma_first_invalid, lemma_first_invalid_toplevel,
    toplevel_attr, toplevel_config, toplevel_valid, unknown,
};
use crate::railroad::derive::{
    DerivationView, Piece, TrackView, derivation, distinct_labels, field_piece, fields_outcome,
    first_named, has_label, register, variant_node, variants_outcome,
};
use crate::railroad::describe::{DescribedDelim, Railroad, RailroadDelim};
use crate::railroad::diagram::{DiagramView, nonterm_track};
use crate::railroad::node::{NodeView, optional_of, repeated_of};
use crate::railroad::schema::{Data, Described, DeriveInput, Field, TypeView, Variant};
use std::rc::Rc;
use std::sync::Arc;

verus! {

/// A diagram without any track draws nothing.
pub proof fn lemma_empty_draws_nothing()
    ensures
        DiagramView::empty().tracks() == Seq::<NodeView>::empty(),
{
}

/// Named tracks are drawn in the order in which they were added, after what
/// was there before, and adding them leaves the main track alone.
pub proof fn lemma_add_nonterm_appends(
    diagram: DiagramView,
    first: (Seq<char>, NodeView),
    second: (Seq<char>, NodeView),
)
    ensures
        diagram.add_nonterm(first.0, first.1).add_nonterm(second.0, second.1).tracks()
            == diagram.tracks() + seq![
            nonterm_track(first.0, first.1),
            nonterm_track(second.0, second.1),
        ],
        diagram.add_nonterm(first.0, first.1).add_nonterm(second.0, second.1).toplevel
            == diagram.toplevel,
{
    let after = diagram.add_nonterm(first.0, first.1).add_nonterm(second.0, second.1);
    assert(after.tracks() =~= diagram.tracks() + seq![
        nonterm_track(first.0, first.1),
        nonterm_track(second.0, second.1),
    ]);
}

/// Only the main track that was set last is drawn: it comes first, the
/// named tracks follow unchanged, and nothing is left of an earlier one.
pub proof fn lemma_set_track_replaces(diagram: DiagramView, older: NodeView, newer: NodeView)
    ensures
        diagram.set_track(older).set_track(newer) == diagram.set_track(newer),
        diagram.set_track(newer).tracks() == seq![newer] + diagram.nonterms,
{
}

/// A pointer to a type, or a guard of it, is described exactly as the type
/// itself, in both forms.
pub proof fn lemma_transparent_type(inner: TypeView)
    ensures
        TypeView::Transparent(Box::new(inner)).describe() == inner.describe(),
        TypeView::Transparent(Box::new(inner)).describe_inline() == inner.describe_inline(),
{
}

/// The pointers and guards of the standard library describe themselves
/// exactly as what they hold does: in both forms, and in the named tracks of
/// their diagram.
pub proof fn lemma_transparent_wrappers<'a, T: Railroad + 'a>()
    ensures
        <&'a T as Railroad>::full() == T::full(),
        <&'a T as Railroad>::inline() == T::inline(),
        <&'a T as Railroad>::nonterms() == T::nonterms(),
        <&'a mut T as Railroad>::full() == T::full(),
        <&'a mut T as Railroad>::inline() == T::inline(),
        <&'a mut T as Railroad>::nonterms() == T::nonterms(),
        <Box<T> as Railroad>::full() == T::full(),
        <Box<T> as Railroad>::inline() == T::inline(),
        <Box<T> as Railroad>::nonterms() == T::nonterms(),
        <Rc<T> as Railroad>::full() == T::full(),
        <Rc<T> as Railroad>::inline() == T::inline(),
        <Rc<T> as Railroad>::nonterms() == T::nonterms(),
        <Arc<T> as Railroad>::full() == T::full(),
        <Arc<T> as Railroad>::inline() == T::inline(),
        <Arc<T> as Railroad>::nonterms() == T::nonterms(),
        <std::cell::Ref<'a, T> as Railroad>::full() == T::full(),
        <std::cell::Ref<'a, T> as Railroad>::inline() == T::inline(),
        <std::cell::Ref<'a, T> as Railroad>::nonterms() == T::nonterms(),
        <std::cell::RefMut<'a, T> as Railroad>::full() == T::full(),
        <std::cell::RefMut<'a, T> as Railroad>::inline() == T::inline(),
        <std::cell::RefMut<'a, T> as Railroad>::nonterms() == T::nonterms(),
        <std::sync::MutexGuard<'a, T> as Railroad>::full() == T::full(),
        <std::sync::MutexGuard<'a, T> as Railroad>::inline() == T::inline(),
        <std::sync::MutexGuard<'a, T> as Railroad>::nonterms() == T::nonterms(),
        <std::sync::RwLockReadGuard<'a, T> as Railroad>::full() == T::full(),
        <std::sync::RwLockReadGuard<'a, T> as Railroad>::inline() == T::inline(),
        <std::sync::RwLockReadGuard<'a, T> as Railroad>::nonterms() == T::nonterms(),
        <std::sync::RwLockWriteGuard<'a, T> as Railroad>::full() == T::full(),
        <std::sync::RwLockWriteGuard<'a, T> as Railroad>::inline() == T::inline(),
        <std::sync::RwLockWriteGuard<'a, T> as Railroad>::nonterms() == T::nonterms(),
{
}

/// The pointers and guards of the standard library delimit exactly as what
/// they hold does.
pub proof fn lemma_transparent_delimiters<'a, T: RailroadDelim + 'a>(inner: NodeView)
    ensures
        <&'a T as RailroadDelim>::delim(inner) == T::delim(inner),
        <&'a mut T as RailroadDelim>::delim(inner) == T::delim(inner),
        <Box<T> as RailroadDelim>::delim(inner) == T::delim(inner),
        <Rc<T> as RailroadDelim>::delim(inner) == T::delim(inner),
        <Arc<T> as RailroadDelim>::delim(inner) == T::delim(inner),
        <std::cell::Ref<'a, T> as RailroadDelim>::delim(inner) == T::delim(inner),
        <std::cell::RefMut<'a, T> as RailroadDelim>::delim(inner) == T::delim(inner),
        <std::sync::MutexGuard<'a, T> as RailroadDelim>::delim(inner) == T::delim(inner),
        <std::sync::RwLockReadGuard<'a, T> as RailroadDelim>::delim(inner) == T::delim(inner),
        <std::sync::RwLockWriteGuard<'a, T> as RailroadDelim>::delim(inner) == T::delim(inner),
{
}

/// A delimiter field without a comment and without overrides, whose type is
/// `D` and whose contents are held by another field, is drawn as `D` draws
/// its delimiters around the inline form of the type of that field.
pub proof fn lemma_delimited_field<D: DescribedDelim>(
    fields: Seq<Field>,
    at: int,
    name: Seq<char>,
    contents: int,
)
    requires
        0 <= at < fields.len(),
        fields[at].ty@ == <D as Described>::desc(),
        field_config(fields[at].attrs@) matches Ok(attrs) && attrs.kind
            == crate::railroad::config::FieldKindView::Delim(name) && attrs.comment is None
            && !attrs.optional && !attrs.repeated,
        first_named(fields, name, 0) == Some(contents),
        contents != at,
    ensures
        field_piece(fields, at) == Ok::<Piece, DeriveErrorView>(
            Piece {
                child: <D as RailroadDelim>::delim(fields[contents].ty@.describe_inline()),
                track: None,
            },
        ),
{
    reveal(field_piece);
    D::lemma_wraps(fields[contents].ty@.describe_inline());
}

/// A field that is an optional value of some type, with the default kind,
/// no comment and no `repeated` override, is drawn as the optional form of
/// the inline description of that type, whatever the other fields carry.
pub proof fn lemma_optional_field(fields: Seq<Field>, at: int, inner: TypeView)
    requires
        0 <= at < fields.len(),
        fields[at].ty@ == TypeView::Optional(Box::new(inner)),
        field_config(fields[at].attrs@) matches Ok(attrs) && attrs.kind is Terminal
            && attrs.comment is None && !attrs.repeated,
    ensures
        field_piece(fields, at) == Ok::<Piece, DeriveErrorView>(
            Piece { child: optional_of(inner.describe_inline()), track: None },
        ),
{
    reveal(field_piece);
}

/// A field that is a collection of some type, with the default kind, no
/// comment and no `optional` override, is drawn as the repetition of the
/// inline description of that type with nothing in between, whatever the
/// other fields carry.
pub proof fn lemma_repeated_field(fields: Seq<Field>, at: int, inner: TypeView)
    requires
        0 <= at < fields.len(),
        fields[at].ty@ == TypeView::Repeated(Box::new(inner)),
        field_config(fields[at].attrs@) matches Ok(attrs) && attrs.kind is Terminal
            && attrs.comment is None && !attrs.optional,
    ensures
        field_piece(fields, at) == Ok::<Piece, DeriveErrorView>(
            Piece { child: repeated_of(inner.describe_inline()), track: None },
        ),
{
    reveal(field_piece);
}

/// Where a run of fields is read without error, there is one child for each
/// field, at the position of the field, and it is what that field
/// contributes.
pub proof fn lemma_fields_children(fields: Seq<Field>, upto: int, tracks: Seq<TrackView>)
    requires
        0 <= upto <= fields.len(),
        fields_outcome(fields, upto, tracks) is Ok,
    ensures
        fields_outcome(fields, upto, tracks)->Ok_0.0.len() == upto,
        forall|i: int|
            0 <= i < upto ==> ((#[trigger] field_piece(fields, i)) matches Ok(piece)
                && fields_outcome(fields, upto, tracks)->Ok_0.0[i] == piece.child),
    decreases upto,
{
    if upto > 0 {
        lemma_fields_children(fields, upto - 1, tracks);
    }
}

/// What a run of fields is drawn as does not depend on the tracks that were
/// registered before, and neither does the error.
pub proof fn lemma_children_independent(
    fields: Seq<Field>,
    upto: int,
    one: Seq<TrackView>,
    other: Seq<TrackView>,
)
    requires
        0 <= upto <= fields.len(),
    ensures
        match fields_outcome(fields, upto, one) {
            Ok((children, _)) => fields_outcome(fields, upto, other) matches Ok((same, _))
                && same == children,
            Err(error) => fields_outcome(fields, upto, other) == Err::<
                (Seq<NodeView>, Seq<TrackView>),
                DeriveErrorView,
            >(error),
        },
    decreases upto,
{
    if upto > 0 {
        lemma_children_independent(fields, upto - 1, one, other);
    }
}

/// A product type with N fields is described by a sequence with exactly N
/// children, in the order in which the fields are declared: each child is
/// what the field at its position contributes.
pub proof fn lemma_struct_is_sequence(input: DeriveInput)
    requires
        input.data is Struct,
        derivation(input) is Ok,
    ensures
        derivation(input)->Ok_0.node matches NodeView::Sequence(children) && children.len()
            == input.data->Struct_0@.len() && forall|i: int|
            0 <= i < children.len() ==> ((#[trigger] field_piece(input.data->Struct_0@, i))
                matches Ok(piece) && children[i] == piece.child),
{
    let fields = input.data->Struct_0@;
    lemma_fields_children(fields, fields.len() as int, Seq::empty());
}

/// Where a run of variants is read without error, there is one alternative
/// for each variant, at the position of the variant: the sequence of its
/// fields, or an empty piece of track for a variant without fields.
pub proof fn lemma_variants_alternatives(
    variants: Seq<Variant>,
    upto: int,
    tracks: Seq<TrackView>,
)
    requires
        0 <= upto <= variants.len(),
        variants_outcome(variants, upto, tracks) is Ok,
    ensures
        variants_outcome(variants, upto, tracks)->Ok_0.0.len() == upto,
        forall|i: int|
            0 <= i < upto ==> ((#[trigger] fields_outcome(
                variants[i].fields@,
                variants[i].fields@.len() as int,
                Seq::empty(),
            )) matches Ok((children, _)) && variants_outcome(variants, upto, tracks)->Ok_0.0[i]
                == variant_node(children)),
    decreases upto,
{
    if upto > 0 {
        lemma_variants_alternatives(variants, upto - 1, tracks);
        let known = variants_outcome(variants, upto - 1, tracks)->Ok_0.1;
        let fields = variants[upto - 1].fields@;
        lemma_children_independent(fields, fields.len() as int, known, Seq::empty());
    }
}

/// A sum type with N variants is described by a choice with exactly N
/// alternatives, in the order in which the variants are declared.
pub proof fn lemma_enum_is_choice(input: DeriveInput)
    requires
        input.data is Enum,
        derivation(input) is Ok,
    ensures
        derivation(input)->Ok_0.node matches NodeView::Choice(alternatives) && alternatives.len()
            == input.data->Enum_0@.len() && forall|i: int|
            0 <= i < alternatives.len() ==> ((#[trigger] fields_outcome(
                input.data->Enum_0@[i].fields@,
                input.data->Enum_0@[i].fields@.len() as int,
                Seq::empty(),
            )) matches Ok((children, _)) && alternatives[i] == variant_node(children)),
{
    let variants = input.data->Enum_0@;
    lemma_variants_alternatives(variants, variants.len() as int, Seq::empty());
}

/// Registering a label a second time changes nothing, whatever node comes
/// with it.
pub proof fn lemma_register_once(tracks: Seq<TrackView>, track: TrackView, again: NodeView)
    ensures
        register(register(tracks, Some(track)), Some((track.0, again))) == register(
            tracks,
            Some(track),
        ),
        has_label(register(tracks, Some(track)), track.0),
{
    let once = register(tracks, Some(track));
    if has_label(tracks, track.0) {
    } else {
        assert(once[tracks.len() as int].0 == track.0);
    }
}

/// Registering keeps labels apart: where no two tracks share a label before,
/// none do after.
pub proof fn lemma_register_distinct(tracks: Seq<TrackView>, track: Option<TrackView>)
    requires
        distinct_labels(tracks),
    ensures
        distinct_labels(register(tracks, track)),
{
    match track {
        Some(named) => {
            if !has_label(tracks, named.0) {
                let after = tracks.push(named);
                assert forall|i: int, j: int| 0 <= i < j < after.len() implies (
                #[trigger] after[i]).0 != (#[trigger] after[j]).0 by {
                    if j == tracks.len() {
                        assert(tracks[i].0 != named.0);
                    }
                }
            }
        },
        None => {},
    }
}

/// Reading fields keeps labels apart.
pub proof fn lemma_fields_distinct(fields: Seq<Field>, upto: int, tracks: Seq<TrackView>)
    requires
        0 <= upto <= fields.len(),
        distinct_labels(tracks),
        fields_outcome(fields, upto, tracks) is Ok,
    ensures
        distinct_labels(fields_outcome(fields, upto, tracks)->Ok_0.1),
    decreases upto,
{
    if upto > 0 {
        lemma_fields_distinct(fields, upto - 1, tracks);
        let known = fields_outcome(fields, upto - 1, tracks)->Ok_0.1;
        let piece = field_piece(fields, upto - 1)->Ok_0;
        lemma_register_distinct(known, piece.track);
    }
}

/// Reading variants keeps labels apart.
pub proof fn lemma_variants_distinct(variants: Seq<Variant>, upto: int, tracks: Seq<TrackView>)
    requires
        0 <= upto <= variants.len(),
        distinct_labels(tracks),
        variants_outcome(variants, upto, tracks) is Ok,
    ensures
        distinct_labels(variants_outcome(variants, upto, tracks)->Ok_0.1),
    decreases upto,
{
    if upto > 0 {
        lemma_variants_distinct(variants, upto - 1, tracks);
        let known = variants_outcome(variants, upto - 1, tracks)->Ok_0.1;
        let fields = variants[upto - 1].fields@;
        lemma_fields_distinct(fields, fields.len() as int, known);
    }
}

/// In what a derivation produces no two tracks share a label: a type that is
/// referred to many times is drawn once.
pub proof fn lemma_one_track_per_label(input: DeriveInput)
    requires
        derivation(input) is Ok,
    ensures
        distinct_labels(derivation(input)->Ok_0.nonterms),
{
    match input.data {
        Data::Struct(fields) => {
            lemma_fields_distinct(fields@, fields@.len() as int, Seq::empty());
        },
        Data::Enum(variants) => {
            lemma_variants_distinct(variants@, variants@.len() as int, Seq::empty());
        },
        Data::Union(_) => {},
    }
}

/// What is wrong with the attributes of a type is the outcome of its
/// derivation, whatever the shape of the type.
pub proof fn lemma_config_error_first(input: DeriveInput)
    requires
        toplevel_config(input.attrs@) is Err,
    ensures
        derivation(input) == Err::<DerivationView, DeriveErrorView>(
            toplevel_config(input.attrs@)->Err_0,
        ),
{
}

/// A union whose attributes resolve is always refused as an unsupported
/// shape, so nothing of it is ever drawn.
pub proof fn lemma_union_refused(input: DeriveInput)
    requires
        input.data is Union,
        toplevel_config(input.attrs@) is Ok,
    ensures
        derivation(input) == Err::<DerivationView, DeriveErrorView>(
            DeriveErrorView::UnsupportedShape { location: input.data->Union_0 },
        ),
{
}

/// A union is never derived.
pub proof fn lemma_union_never_derived(input: DeriveInput)
    requires
        input.data is Union,
    ensures
        derivation(input) is Err,
{
}

/// An entry of a type whose key is not `prefix`, after valid entries only,
/// is refused as an unknown attribute that names the key and its place.
pub proof fn lemma_unknown_toplevel_key(attrs: Seq<Attribute>, at: int)
    requires
        0 <= at < entries(attrs).len(),
        toplevel_valid(entries(attrs), at),
        !entries(attrs)[at].key@.is_ident("prefix"@),
    ensures
        toplevel_config(attrs) == Err::<crate::railroad::attrs::PathView, DeriveErrorView>(
            unknown(entries(attrs)[at]),
        ),
{
    let items = entries(attrs);
    assert(toplevel_attr(items[at]) is Err);
    lemma_first_invalid_toplevel(items, at);
    let first = choose|i: int|
        0 <= i < items.len() && toplevel_valid(items, i) && (#[trigger] toplevel_attr(
            items[i],
        )) is Err;
    assert(first == at);
}

/// An entry of a field whose key is none of `kind`, `comment`, `optional`
/// and `repeated`, after valid entries only, is refused as an unknown
/// attribute that names the key and its place.
pub proof fn lemma_unknown_field_key(attrs: Seq<Attribute>, at: int)
    requires
        0 <= at < entries(attrs).len(),
        field_valid(entries(attrs), at),
        !entries(attrs)[at].key@.is_ident("kind"@),
        !entries(attrs)[at].key@.is_ident("comment"@),
        !entries(attrs)[at].key@.is_ident("optional"@),
        !entries(attrs)[at].key@.is_ident("repeated"@),
    ensures
        field_config(attrs) == Err::<crate::railroad::config::FieldAttrsView, DeriveErrorView>(
            unknown(entries(attrs)[at]),
        ),
{
    let items = entries(attrs);
    assert(field_attr(items[at]) is Err);
    lemma_first_invalid(items, at);
    let first = choose|i: int|
        0 <= i < items.len() && field_valid(items, i) && (#[trigger] field_attr(items[i])) is Err;
    assert(first == at);
}

/// A type that carries an entry with a key other than `prefix`, after valid
/// entries only, is not derived, whatever its shape: the error is the
/// unknown attribute, with its key and its place.
pub proof fn lemma_unknown_key_fails(input: DeriveInput, at: int)
    requires
        0 <= at < entries(input.attrs@).len(),
        toplevel_valid(entries(input.attrs@), at),
        !entries(input.attrs@)[at].key@.is_ident("prefix"@),
    ensures
        derivation(input) == Err::<DerivationView, DeriveErrorView>(
            unknown(entries(input.attrs@)[at]),
        ),
{
    lemma_unknown_toplevel_key(input.attrs@, at);
}

} // verus!
