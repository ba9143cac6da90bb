//! The configuration that a type and its fields carry: what an attribute
//! list holds, and what the derivation learns from it.

use vstd::prelude::*;

verus! {

/// A place in the source text of a type definition.
#[derive(Debug, Clone, Copy, PartialEq, Eq, Structural)]
pub struct Location {
    pub line: usize,
    pub column: usize,
}

/// A namespace path such as `::a::b`.
#[derive(Debug, PartialEq, Eq)]
pub struct Path {
    /// Whether the path starts with `::`.
    pub leading_colon: bool,
    /// The identifiers between the colons.
    pub segments: Vec<String>,
}

/// What a [`Path`] holds, as a mathematical value.
pub struct PathView {
    pub leading_colon: bool,
    pub segments: Seq<Seq<char>>,
}

/// The texts of a run of strings, in order.
pub open spec fn texts(strings: Seq<String>) -> Seq<Seq<char>> {
    Seq::new(strings.len(), |i: int| strings[i]@)
}

/// The segments joined by `::`.
pub open spec fn joined(segments: Seq<Seq<char>>) -> Seq<char>
    decreases segments.len(),
{
    if segments.len() == 0 {
        Seq::empty()
    } else if segments.len() == 1 {
        segments[0]
    } else {
        joined(segments.drop_last()) + "::"@ + segments.last()
    }
}

impl PathView {
    /// Whether the path is the single identifier `name`, without a leading
    /// `::`.
    pub open spec fn is_ident(self, name: Seq<char>) -> bool {
        &&& !self.leading_colon
        &&& self.segments.len() == 1
        &&& self.segments[0] == name
    }

    /// The path as it is written.
    pub open spec fn text(self) -> Seq<char> {
        if self.leading_colon {
            "::"@ + joined(self.segments)
        } else {
            joined(self.segments)
        }
    }
}

impl View for Path {
    type V = PathView;

    open spec fn view(&self) -> PathView {
        PathView { leading_colon: self.leading_colon, segments: texts(self.segments@) }
    }
}

impl Path {
    /// The path made of the single identifier `name`.
    pub fn from_ident(name: &str) -> (path: Path)
        ensures
            path@.is_ident(name@),
            path@ == (PathView { leading_colon: false, segments: seq![name@] }),
    {
        let mut segments: Vec<String> = Vec::with_capacity(1);
        segments.push(name.to_owned());
        let path = Path { leading_colon: false, segments };
        assert(path@.segments =~= seq![name@]);
        path
    }

    /// Whether the path is the single identifier `name`, without a leading
    /// `::`.
    pub fn is_ident(&self, name: &str) -> (yes: bool)
        ensures
            yes == self@.is_ident(name@),
    {
        if self.leading_colon || self.segments.len() != 1 {
            return false;
        }
        let wanted = name.to_owned();
        self.segments[0] == wanted
    }

    /// An independent copy of the path.
    pub fn duplicate(&self) -> (copy: Path)
        ensures
            copy@ == self@,
    {
        let mut segments: Vec<String> = Vec::with_capacity(self.segments.len());
        let mut i: usize = 0;
        while i < self.segments.len()
            invariant
                i <= self.segments@.len(),
                segments@.len() == i,
                forall|j: int| 0 <= j < i ==> (#[trigger] segments@[j])@ == self.segments@[j]@,
            decreases self.segments@.len() - i,
        {
            segments.push(self.segments[i].clone());
            i = i + 1;
        }
        let copy = Path { leading_colon: self.leading_colon, segments };
        assert(copy@.segments =~= self@.segments);
        copy
    }

    /// The path as it is written: the segments joined by `::`, after a
    /// leading `::` where the path has one.
    pub fn to_text(&self) -> (text: String)
        ensures
            text@ == self@.text(),
    {
        let mut text = String::new();
        if self.leading_colon {
            text.append("::");
        }
        let ghost lead = text@;
        let mut i: usize = 0;
        assert(texts(self.segments@).take(0) =~= Seq::<Seq<char>>::empty());
        assert(text@ =~= lead + joined(texts(self.segments@).take(0)));
        while i < self.segments.len()
            invariant
                i <= self.segments@.len(),
                lead == (if self.leading_colon {
                    "::"@
                } else {
                    Seq::<char>::empty()
                }),
                text@ == lead + joined(texts(self.segments@).take(i as int)),
            decreases self.segments@.len() - i,
        {
            let ghost before = texts(self.segments@).take(i as int);
            let ghost after = texts(self.segments@).take(i + 1);
            proof {
                assert(after.drop_last() =~= before);
                assert(after.last() == self.segments@[i as int]@);
                if i == 0 {
                    assert(joined(before) =~= Seq::<char>::empty());
                    assert(joined(after) == self.segments@[0]@);
                } else {
                    assert(joined(after) == joined(before) + "::"@ + self.segments@[i as int]@);
                }
            }
            if i > 0 {
                text.append("::");
            }
            text.append(self.segments[i].as_str());
            assert(text@ =~= lead + joined(after));
            i = i + 1;
        }
        assert(texts(self.segments@).take(self.segments@.len() as int) =~= texts(self.segments@));
        assert(text@ =~= self@.text());
        text
    }
}

/// What stands behind the key of a configuration entry.
#[derive(Debug, PartialEq, Eq)]
pub enum MetaValue {
    /// Nothing: the entry is a bare marker.
    Absent,
    /// `= ` and a path.
    Path(Path),
    /// `= ` and an expression that is no path, as it is written; for a text
    /// literal, the text it denotes.
    Expr(String),
}

/// One entry of a configuration list: `key` or `key = value`.
#[derive(Debug, PartialEq, Eq)]
pub struct MetaItem {
    pub key: Path,
    pub value: MetaValue,
    /// Where the key stands.
    pub location: Location,
}

/// The three forms of an attribute.
#[derive(Debug, PartialEq, Eq)]
pub enum Meta {
    /// `#[name]`
    Path,
    /// `#[name = value]`
    NameValue,
    /// `#[name(entry, ...)]`
    List(Vec<MetaItem>),
}

/// One attribute of a type or of a field.
#[derive(Debug, PartialEq, Eq)]
pub struct Attribute {
    pub path: Path,
    pub meta: Meta,
}

/// Why a derivation produced no description.
#[derive(Debug, PartialEq, Eq)]
pub enum DeriveError {
    /// A configuration entry with a key that is not known at its level.
    UnknownAttribute { key: String, location: Location },
    /// A configuration entry whose value does not fit its key, or that
    /// refers to a field that cannot serve.
    Malformed { key: String, location: Location },
    /// A type that is neither a product nor a sum type.
    UnsupportedShape { location: Location },
}

/// What a [`DeriveError`] holds, as a mathematical value.
pub enum DeriveErrorView {
    UnknownAttribute { key: Seq<char>, location: Location },
    Malformed { key: Seq<char>, location: Location },
    UnsupportedShape { location: Location },
}

impl View for DeriveError {
    type V = DeriveErrorView;

    open spec fn view(&self) -> DeriveErrorView {
        match self {
            DeriveError::UnknownAttribute { key, location } => DeriveErrorView::UnknownAttribute {
                key: key@,
                location: *location,
            },
            DeriveError::Malformed { key, location } => DeriveErrorView::Malformed {
                key: key@,
                location: *location,
            },
            DeriveError::UnsupportedShape { location } => DeriveErrorView::UnsupportedShape {
                location: *location,
            },
        }
    }
}

/// The entries that an attribute contributes to the configuration: those of
/// a list named `railroad`, and none otherwise.
pub open spec fn entries_of(attr: Attribute) -> Seq<MetaItem> {
    match attr.meta {
        Meta::List(items) => if attr.path@.is_ident("railroad"@) {
            items@
        } else {
            Seq::empty()
        },
        _ => Seq::empty(),
    }
}

/// The configuration entries of a run of attributes, in the order in which
/// they are written.
pub open spec fn entries(attrs: Seq<Attribute>) -> Seq<MetaItem>
    decreases attrs.len(),
{
    if attrs.len() == 0 {
        Seq::empty()
    } else {
        entries(attrs.drop_last()) + entries_of(attrs.last())
    }
}

} // verus!
