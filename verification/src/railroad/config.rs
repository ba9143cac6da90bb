//! The configuration resolved from attributes: one prefix for the type, and
//! for each field its kind, its comment and its manual overrides.

use vstd::prelude::*;
use crate::railroad::attrs::{
    Attribute, DeriveError, DeriveErrorView, Meta, MetaItem, MetaValue, Path, PathView, entries,
    entries_of,
};

verus! {

/// Gathers the configuration entries of `attrs`, in the order in which they
/// are written.
pub fn collect_entries(attrs: &Vec<Attribute>) -> (items: Vec<&MetaItem>)
    ensures
        items@.len() == entries(attrs@).len(),
        forall|i: int| 0 <= i < items@.len() ==> *(#[trigger] items@[i]) == entries(attrs@)[i],
{
    let mut items: Vec<&MetaItem> = Vec::new();
    let mut k: usize = 0;
    assert(attrs@.take(0) =~= Seq::<Attribute>::empty());
    while k < attrs.len()
        invariant
            k <= attrs@.len(),
            items@.len() == entries(attrs@.take(k as int)).len(),
            forall|i: int|
                0 <= i < items@.len() ==> *(#[trigger] items@[i]) == entries(
                    attrs@.take(k as int),
                )[i],
        decreases attrs@.len() - k,
    {
        let attr = &attrs[k];
        let ghost done = entries(attrs@.take(k as int));
        proof {
            assert(attrs@.take(k + 1).drop_last() =~= attrs@.take(k as int));
            assert(attrs@.take(k + 1).last() == attrs@[k as int]);
            assert(entries(attrs@.take(k + 1)) == done + entries_of(*attr));
        }
        match &attr.meta {
            Meta::List(list) => {
                if attr.path.is_ident("railroad") {
                    let mut j: usize = 0;
                    while j < list.len()
                        invariant
                            j <= list@.len(),
                            entries_of(*attr) == list@,
                            items@.len() == done.len() + j,
                            forall|i: int|
                                0 <= i < items@.len() ==> *(#[trigger] items@[i]) == (done
                                    + list@)[i],
                        decreases list@.len() - j,
                    {
                        items.push(&list[j]);
                        j = j + 1;
                    }
                }
            },
            _ => {},
        }
        k = k + 1;
    }
    assert(attrs@.take(attrs@.len() as int) =~= attrs@);
    items
}

/// The error for an entry whose value does not fit its key.
pub open spec fn malformed(item: MetaItem) -> DeriveErrorView {
    DeriveErrorView::Malformed { key: item.key@.text(), location: item.location }
}

/// The error for an entry whose key is not known.
pub open spec fn unknown(item: MetaItem) -> DeriveErrorView {
    DeriveErrorView::UnknownAttribute { key: item.key@.text(), location: item.location }
}

fn malformed_entry(item: &MetaItem) -> (error: DeriveError)
    ensures
        error@ == malformed(*item),
{
    DeriveError::Malformed { key: item.key.to_text(), location: item.location }
}

fn unknown_entry(item: &MetaItem) -> (error: DeriveError)
    ensures
        error@ == unknown(*item),
{
    DeriveError::UnknownAttribute { key: item.key.to_text(), location: item.location }
}

/// One configuration entry of a type.
#[derive(Debug, PartialEq, Eq)]
pub enum ToplevelAttr {
    /// `prefix = <path>`: where the generated code finds this library.
    Prefix(Path),
}

/// What a toplevel entry means: `prefix` with a path sets the prefix, with
/// anything else it is malformed, and every other key is unknown.
pub open spec fn toplevel_attr(item: MetaItem) -> Result<PathView, DeriveErrorView> {
    if item.key@.is_ident("prefix"@) {
        match item.value {
            MetaValue::Path(path) => Ok(path@),
            _ => Err(malformed(item)),
        }
    } else {
        Err(unknown(item))
    }
}

impl ToplevelAttr {
    /// Reads one configuration entry of a type.
    pub fn parse(item: &MetaItem) -> (parsed: Result<ToplevelAttr, DeriveError>)
        ensures
            match parsed {
                Ok(ToplevelAttr::Prefix(path)) => toplevel_attr(*item) == Ok::<
                    PathView,
                    DeriveErrorView,
                >(path@),
                Err(error) => toplevel_attr(*item) == Err::<PathView, DeriveErrorView>(error@),
            },
    {
        if item.key.is_ident("prefix") {
            match &item.value {
                MetaValue::Path(path) => Ok(ToplevelAttr::Prefix(path.duplicate())),
                _ => Err(malformed_entry(item)),
            }
        } else {
            Err(unknown_entry(item))
        }
    }
}

/// What the derivation learns from the attributes of a type.
#[derive(Debug, PartialEq, Eq)]
pub struct ToplevelAttrs {
    /// The path at which the generated code finds this library.
    pub prefix: Path,
}

/// The prefix of a type that sets none: `::ast_toolkit_2::railroad`.
pub open spec fn default_prefix() -> PathView {
    PathView { leading_colon: true, segments: seq!["ast_toolkit_2"@, "railroad"@] }
}

/// Whether the first `upto` entries are all valid toplevel entries.
pub open spec fn toplevel_valid(items: Seq<MetaItem>, upto: int) -> bool {
    forall|i: int| 0 <= i < upto ==> (#[trigger] toplevel_attr(items[i])) is Ok
}

/// The prefix after the given valid entries: that of the last one, or the
/// default where there is none.
pub open spec fn toplevel_prefix(items: Seq<MetaItem>) -> PathView {
    if items.len() == 0 {
        default_prefix()
    } else {
        match toplevel_attr(items.last()) {
            Ok(path) => path,
            Err(_) => default_prefix(),
        }
    }
}

/// What the attributes of a type resolve to: the prefix where every entry
/// is valid, and else the error of the first entry that is not.
pub open spec fn toplevel_config(attrs: Seq<Attribute>) -> Result<PathView, DeriveErrorView> {
    let items = entries(attrs);
    if toplevel_valid(items, items.len() as int) {
        Ok(toplevel_prefix(items))
    } else {
        let first = choose|i: int|
            0 <= i < items.len() && toplevel_valid(items, i) && (#[trigger] toplevel_attr(
                items[i],
            )) is Err;
        match toplevel_attr(items[first]) {
            Ok(_) => Ok(toplevel_prefix(items)),
            Err(error) => Err(error),
        }
    }
}

/// A toplevel entry that is not valid, with only valid entries before it, is
/// the one that decides the outcome.
pub proof fn lemma_first_invalid_toplevel(items: Seq<MetaItem>, at: int)
    requires
        0 <= at < items.len(),
        toplevel_valid(items, at),
        toplevel_attr(items[at]) is Err,
    ensures
        !toplevel_valid(items, items.len() as int),
        forall|i: int|
            0 <= i < items.len() && toplevel_valid(items, i) && (#[trigger] toplevel_attr(
                items[i],
            )) is Err ==> i == at,
{
    assert forall|i: int|
        0 <= i < items.len() && toplevel_valid(items, i) && (#[trigger] toplevel_attr(
            items[i],
        )) is Err implies i == at by {
        if i < at {
            assert(toplevel_attr(items[i]) is Ok);
        }
        if at < i {
            assert(toplevel_attr(items[at]) is Ok);
        }
    }
}

impl Default for ToplevelAttrs {
    fn default() -> (attrs: ToplevelAttrs)
        ensures
            attrs.prefix@ == default_prefix(),
    {
        let mut segments: Vec<String> = Vec::with_capacity(2);
        segments.push("ast_toolkit_2".to_owned());
        segments.push("railroad".to_owned());
        let attrs = ToplevelAttrs { prefix: Path { leading_colon: true, segments } };
        assert(attrs.prefix@.segments =~= default_prefix().segments);
        attrs
    }
}

impl ToplevelAttrs {
    /// Resolves the configuration of a type from its attributes.
    ///
    /// Succeeds exactly when every entry is a valid toplevel entry; the
    /// prefix is then that of the last entry, or the default. Otherwise the
    /// error is that of the first entry that is not valid.
    pub fn try_from(attrs: &Vec<Attribute>) -> (resolved: Result<ToplevelAttrs, DeriveError>)
        ensures
            match resolved {
                Ok(found) => toplevel_config(attrs@) == Ok::<PathView, DeriveErrorView>(
                    found.prefix@,
                ),
                Err(error) => toplevel_config(attrs@) == Err::<PathView, DeriveErrorView>(error@),
            },
    {
        let items = collect_entries(attrs);
        let ghost all = entries(attrs@);
        let mut found = ToplevelAttrs::default();
        let mut i: usize = 0;
        assert(all.take(0) =~= Seq::<MetaItem>::empty());
        while i < items.len()
            invariant
                i <= items@.len(),
                all == entries(attrs@),
                items@.len() == all.len(),
                forall|j: int| 0 <= j < items@.len() ==> *(#[trigger] items@[j]) == all[j],
                toplevel_valid(all, i as int),
                found.prefix@ == toplevel_prefix(all.take(i as int)),
            decreases items@.len() - i,
        {
            assert(*items@[i as int] == all[i as int]);
            match ToplevelAttr::parse(items[i]) {
                Ok(ToplevelAttr::Prefix(path)) => {
                    assert(all.take(i + 1).last() == all[i as int]);
                    found.prefix = path;
                },
                Err(error) => {
                    proof {
                        lemma_first_invalid_toplevel(all, i as int);
                        let first = choose|k: int|
                            0 <= k < all.len() && toplevel_valid(all, k) && (
                            #[trigger] toplevel_attr(all[k])) is Err;
                        assert(first == i);
                    }
                    return Err(error);
                },
            }
            i = i + 1;
        }
        assert(all.take(all.len() as int) =~= all);
        Ok(found)
    }
}

/// How a field appears in the sequence of its type.
#[derive(Debug, PartialEq, Eq)]
pub enum FieldKind {
    /// The field's own description, inline.
    Terminal,
    /// A reference to a track that is drawn separately.
    NonTerminal,
    /// The field is a pair of delimiters: the sibling field with the given
    /// name holds what stands between them.
    Delim(String),
}

/// What a [`FieldKind`] holds, as a mathematical value.
pub enum FieldKindView {
    Terminal,
    NonTerminal,
    Delim(Seq<char>),
}

impl View for FieldKind {
    type V = FieldKindView;

    open spec fn view(&self) -> FieldKindView {
        match self {
            FieldKind::Terminal => FieldKindView::Terminal,
            FieldKind::NonTerminal => FieldKindView::NonTerminal,
            FieldKind::Delim(name) => FieldKindView::Delim(name@),
        }
    }
}

/// One configuration entry of a field.
#[derive(Debug, PartialEq, Eq)]
pub enum FieldAttr {
    /// `kind = terminal`, `kind = nonterminal`, or, on a delimiter,
    /// `kind = <sibling field>` for the field that holds its contents.
    Kind(FieldKind),
    /// `comment = <text>`: a label for the field.
    Comment(String),
    /// `optional`: the field may be absent, whatever its type.
    Optional,
    /// `repeated`: the field may occur many times, whatever its type.
    Repeated,
}

/// What a [`FieldAttr`] holds, as a mathematical value.
pub enum FieldAttrView {
    Kind(FieldKindView),
    Comment(Seq<char>),
    Optional,
    Repeated,
}

impl View for FieldAttr {
    type V = FieldAttrView;

    open spec fn view(&self) -> FieldAttrView {
        match self {
            FieldAttr::Kind(kind) => FieldAttrView::Kind(kind@),
            FieldAttr::Comment(text) => FieldAttrView::Comment(text@),
            FieldAttr::Optional => FieldAttrView::Optional,
            FieldAttr::Repeated => FieldAttrView::Repeated,
        }
    }
}

/// The kind that the value of a `kind` entry names, if any: `terminal`,
/// `nonterminal`, or a sibling field, named by a single identifier or, for a
/// field without a name, by its position.
pub open spec fn kind_of(value: MetaValue) -> Option<FieldKindView> {
    match value {
        MetaValue::Absent => None,
        MetaValue::Path(path) => if path@.is_ident("terminal"@) {
            Some(FieldKindView::Terminal)
        } else if path@.is_ident("nonterminal"@) {
            Some(FieldKindView::NonTerminal)
        } else if !path@.leading_colon && path@.segments.len() == 1 {
            Some(FieldKindView::Delim(path@.segments[0]))
        } else {
            None
        },
        MetaValue::Expr(text) => Some(FieldKindView::Delim(text@)),
    }
}

/// The text that the value of a `comment` entry gives, if any.
pub open spec fn comment_of(value: MetaValue) -> Option<Seq<char>> {
    match value {
        MetaValue::Absent => None,
        MetaValue::Path(path) => Some(path@.text()),
        MetaValue::Expr(text) => Some(text@),
    }
}

/// What a field entry means. `kind` and `comment` need a value that fits,
/// `optional` and `repeated` take none, and every other key is unknown.
pub open spec fn field_attr(item: MetaItem) -> Result<FieldAttrView, DeriveErrorView> {
    if item.key@.is_ident("kind"@) {
        match kind_of(item.value) {
            Some(kind) => Ok(FieldAttrView::Kind(kind)),
            None => Err(malformed(item)),
        }
    } else if item.key@.is_ident("comment"@) {
        match comment_of(item.value) {
            Some(text) => Ok(FieldAttrView::Comment(text)),
            None => Err(malformed(item)),
        }
    } else if item.key@.is_ident("optional"@) {
        if item.value is Absent {
            Ok(FieldAttrView::Optional)
        } else {
            Err(malformed(item))
        }
    } else if item.key@.is_ident("repeated"@) {
        if item.value is Absent {
            Ok(FieldAttrView::Repeated)
        } else {
            Err(malformed(item))
        }
    } else {
        Err(unknown(item))
    }
}

impl FieldAttr {
    /// Reads one configuration entry of a field.
    pub fn parse(item: &MetaItem) -> (parsed: Result<FieldAttr, DeriveError>)
        ensures
            match parsed {
                Ok(attr) => field_attr(*item) == Ok::<FieldAttrView, DeriveErrorView>(attr@),
                Err(error) => field_attr(*item) == Err::<FieldAttrView, DeriveErrorView>(error@),
            },
    {
        if item.key.is_ident("kind") {
            match &item.value {
                MetaValue::Absent => Err(malformed_entry(item)),
                MetaValue::Path(path) => {
                    if path.is_ident("terminal") {
                        Ok(FieldAttr::Kind(FieldKind::Terminal))
                    } else if path.is_ident("nonterminal") {
                        Ok(FieldAttr::Kind(FieldKind::NonTerminal))
                    } else if !path.leading_colon && path.segments.len() == 1 {
                        Ok(FieldAttr::Kind(FieldKind::Delim(path.segments[0].clone())))
                    } else {
                        Err(malformed_entry(item))
                    }
                },
                MetaValue::Expr(text) => Ok(FieldAttr::Kind(FieldKind::Delim(text.clone()))),
            }
        } else if item.key.is_ident("comment") {
            match &item.value {
                MetaValue::Absent => Err(malformed_entry(item)),
                MetaValue::Path(path) => Ok(FieldAttr::Comment(path.to_text())),
                MetaValue::Expr(text) => Ok(FieldAttr::Comment(text.clone())),
            }
        } else if item.key.is_ident("optional") {
            match &item.value {
                MetaValue::Absent => Ok(FieldAttr::Optional),
                _ => Err(malformed_entry(item)),
            }
        } else if item.key.is_ident("repeated") {
            match &item.value {
                MetaValue::Absent => Ok(FieldAttr::Repeated),
                _ => Err(malformed_entry(item)),
            }
        } else {
            Err(unknown_entry(item))
        }
    }
}

/// What the derivation learns from the attributes of a field.
#[derive(Debug, PartialEq, Eq)]
pub struct FieldAttrs {
    /// The kind of the field.
    pub kind: FieldKind,
    /// A label for the field.
    pub comment: Option<String>,
    /// The field is drawn as optional, whatever its type.
    pub optional: bool,
    /// The field is drawn as repeated, whatever its type.
    pub repeated: bool,
}

/// What a [`FieldAttrs`] holds, as a mathematical value.
pub struct FieldAttrsView {
    pub kind: FieldKindView,
    pub comment: Option<Seq<char>>,
    pub optional: bool,
    pub repeated: bool,
}

impl View for FieldAttrs {
    type V = FieldAttrsView;

    open spec fn view(&self) -> FieldAttrsView {
        FieldAttrsView {
            kind: self.kind@,
            comment: match self.comment {
                Some(text) => Some(text@),
                None => None,
            },
            optional: self.optional,
            repeated: self.repeated,
        }
    }
}

/// The configuration of a field that carries no entry: a terminal without a
/// comment and without overrides.
pub open spec fn default_field_attrs() -> FieldAttrsView {
    FieldAttrsView {
        kind: FieldKindView::Terminal,
        comment: None,
        optional: false,
        repeated: false,
    }
}

/// The configuration after one more entry: a kind or a comment replaces the
/// one before it, a marker sets its override.
pub open spec fn with_field_attr(attrs: FieldAttrsView, attr: FieldAttrView) -> FieldAttrsView {
    match attr {
        FieldAttrView::Kind(kind) => FieldAttrsView { kind, ..attrs },
        FieldAttrView::Comment(text) => FieldAttrsView { comment: Some(text), ..attrs },
        FieldAttrView::Optional => FieldAttrsView { optional: true, ..attrs },
        FieldAttrView::Repeated => FieldAttrsView { repeated: true, ..attrs },
    }
}

/// Whether the first `upto` entries are all valid field entries.
pub open spec fn field_valid(items: Seq<MetaItem>, upto: int) -> bool {
    forall|i: int| 0 <= i < upto ==> (#[trigger] field_attr(items[i])) is Ok
}

/// The configuration after the given valid entries, read from first to last.
pub open spec fn field_attrs_of(items: Seq<MetaItem>) -> FieldAttrsView
    decreases items.len(),
{
    if items.len() == 0 {
        default_field_attrs()
    } else {
        match field_attr(items.last()) {
            Ok(attr) => with_field_attr(field_attrs_of(items.drop_last()), attr),
            Err(_) => field_attrs_of(items.drop_last()),
        }
    }
}

/// What the attributes of a field resolve to: the configuration where every
/// entry is valid, and else the error of the first entry that is not.
pub open spec fn field_config(attrs: Seq<Attribute>) -> Result<FieldAttrsView, DeriveErrorView> {
    let items = entries(attrs);
    if field_valid(items, items.len() as int) {
        Ok(field_attrs_of(items))
    } else {
        let first = choose|i: int|
            0 <= i < items.len() && field_valid(items, i) && (#[trigger] field_attr(
                items[i],
            )) is Err;
        match field_attr(items[first]) {
            Ok(_) => Ok(field_attrs_of(items)),
            Err(error) => Err(error),
        }
    }
}

impl Default for FieldAttrs {
    fn default() -> (attrs: FieldAttrs)
        ensures
            attrs@ == default_field_attrs(),
    {
        FieldAttrs { kind: FieldKind::Terminal, comment: None, optional: false, repeated: false }
    }
}

impl FieldAttrs {
    /// Resolves the configuration of a field from its attributes.
    ///
    /// Succeeds exactly when every entry is a valid field entry. Otherwise
    /// the error is that of the first entry that is not valid.
    pub fn try_from(attrs: &Vec<Attribute>) -> (resolved: Result<FieldAttrs, DeriveError>)
        ensures
            match resolved {
                Ok(found) => field_config(attrs@) == Ok::<FieldAttrsView, DeriveErrorView>(found@),
                Err(error) => field_config(attrs@) == Err::<FieldAttrsView, DeriveErrorView>(
                    error@,
                ),
            },
    {
        let items = collect_entries(attrs);
        let ghost all = entries(attrs@);
        let mut found = FieldAttrs::default();
        let mut i: usize = 0;
        assert(all.take(0) =~= Seq::<MetaItem>::empty());
        while i < items.len()
            invariant
                i <= items@.len(),
                all == entries(attrs@),
                items@.len() == all.len(),
                forall|j: int| 0 <= j < items@.len() ==> *(#[trigger] items@[j]) == all[j],
                field_valid(all, i as int),
                found@ == field_attrs_of(all.take(i as int)),
            decreases items@.len() - i,
        {
            assert(*items@[i as int] == all[i as int]);
            proof {
                assert(all.take(i + 1).last() == all[i as int]);
                assert(all.take(i + 1).drop_last() =~= all.take(i as int));
            }
            match FieldAttr::parse(items[i]) {
                Ok(FieldAttr::Kind(kind)) => {
                    found.kind = kind;
                },
                Ok(FieldAttr::Comment(text)) => {
                    found.comment = Some(text);
                },
                Ok(FieldAttr::Optional) => {
                    found.optional = true;
                },
                Ok(FieldAttr::Repeated) => {
                    found.repeated = true;
                },
                Err(error) => {
                    proof {
                        lemma_first_invalid(all, i as int);
                        let first = choose|k: int|
                            0 <= k < all.len() && field_valid(all, k) && (#[trigger] field_attr(
                                all[k],
                            )) is Err;
                        assert(first == i);
                    }
                    return Err(error);
                },
            }
            i = i + 1;
        }
        assert(all.take(all.len() as int) =~= all);
        Ok(found)
    }
}

/// An entry that is not valid, with only valid entries before it, is the one
/// that decides the outcome.
pub proof fn lemma_first_invalid(items: Seq<MetaItem>, at: int)
    requires
        0 <= at < items.len(),
        field_valid(items, at),
        field_attr(items[at]) is Err,
    ensures
        !field_valid(items, items.len() as int),
        forall|i: int|
            0 <= i < items.len() && field_valid(items, i) && (#[trigger] field_attr(
                items[i],
            )) is Err ==> i == at,
{
    assert forall|i: int|
        0 <= i < items.len() && field_valid(items, i) && (#[trigger] field_attr(
            items[i],
        )) is Err implies i == at by {
        if i < at {
            assert(field_attr(items[i]) is Ok);
        }
        if at < i {
            assert(field_attr(items[at]) is Ok);
        }
    }
}

} // verus!
