//! The input side of the engine: descriptions of a record type's fields as
//! the host front end hands them over, and the diagnostics the engine can
//! raise about them.

use vstd::prelude::*;
use vstd::string::StringExecFns;

verus! {

/// An opaque marker for a position in the host's source text. The front end
/// assigns markers when it builds the field descriptions and maps them back
/// to real source spans when it reports a diagnostic.
#[derive(Clone, Copy, PartialEq, Eq, Structural, Debug)]
pub struct SourceLocation {
    pub marker: usize,
}

/// A structural description of a declared type: either one of the two
/// recognized single-parameter generic wrappers (the optional wrapper and the
/// growable collection wrapper), each holding the description of its inner
/// type, or any other type, carried only as its rendered text.
#[derive(Debug, PartialEq, Eq)]
pub enum TypeDesc {
    Optional { inner: Box<TypeDesc> },
    Collection { inner: Box<TypeDesc> },
    Plain { repr: String },
}

impl Clone for TypeDesc {
    fn clone(&self) -> (res: Self)
        ensures
            res == *self,
        decreases self,
    {
        match self {
            TypeDesc::Optional { inner } => TypeDesc::Optional {
                inner: Box::new((**inner).clone()),
            },
            TypeDesc::Collection { inner } => TypeDesc::Collection {
                inner: Box::new((**inner).clone()),
            },
            TypeDesc::Plain { repr } => TypeDesc::Plain { repr: repr.clone() },
        }
    }
}

impl TypeDesc {
    /// Is this type the recognized optional wrapper?
    pub fn is_option_wrapper(&self) -> (r: bool)
        ensures
            r == (self is Optional),
    {
        matches!(self, TypeDesc::Optional { .. })
    }

    /// Is this type the recognized collection wrapper?
    pub fn is_collection_wrapper(&self) -> (r: bool)
        ensures
            r == (self is Collection),
    {
        matches!(self, TypeDesc::Collection { .. })
    }

    /// The inner type of the optional wrapper, where this is one.
    pub fn option_inner(&self) -> (r: Option<&TypeDesc>)
        ensures
            (match *self {
                TypeDesc::Optional { inner } => r matches Some(t) && *t == *inner,
                _ => r is None,
            }),
    {
        match self {
            TypeDesc::Optional { inner } => Some(&**inner),
            _ => None,
        }
    }

    /// The inner type of the collection wrapper, where this is one.
    pub fn collection_inner(&self) -> (r: Option<&TypeDesc>)
        ensures
            (match *self {
                TypeDesc::Collection { inner } => r matches Some(t) && *t == *inner,
                _ => r is None,
            }),
    {
        match self {
            TypeDesc::Collection { inner } => Some(&**inner),
            _ => None,
        }
    }
}

/// The shape of one annotation found on a field, as the front end parsed it:
/// a `key = "literal"` assignment, an assignment whose right-hand side is not
/// a string literal, a bare word, or any other argument shape (such as a
/// nested list).
#[derive(Debug, PartialEq, Eq)]
pub enum AnnotationShape {
    StrAssign { key: String, value: String },
    OtherAssign { key: String },
    Bare { word: String },
    List,
}

/// One raw annotation on a field, together with where it stands in the
/// source.
#[derive(Debug, PartialEq, Eq)]
pub struct AnnotationToken {
    pub shape: AnnotationShape,
    pub loc: SourceLocation,
}

/// The description of one declared field: its name, the structural shape of
/// its declared type, the raw annotations attached to it, and its source
/// position. Field descriptions arrive in declaration order and that order is
/// preserved into every emitted artifact.
#[derive(Debug, PartialEq, Eq)]
pub struct FieldDescriptor {
    pub name: String,
    pub ty: TypeDesc,
    pub annotations: Vec<AnnotationToken>,
    pub loc: SourceLocation,
}

/// The validated annotation state of one field: either no (well-formed)
/// annotation at all, or a single `each = "..."` assignment carrying the name
/// the appender will get.
#[derive(Debug, PartialEq, Eq)]
pub enum AnnotationState {
    Absent,
    Each { name: String },
}

/// The construction strategy chosen for one field.
#[derive(Debug, PartialEq, Eq)]
pub enum FieldStrategy {
    /// The value must be supplied before finalization; storage wraps the
    /// declared type in an optional slot.
    Required { ty: TypeDesc },
    /// The declared type is already the optional wrapper; an absent value is
    /// a valid final value.
    AlreadyOptional { inner: TypeDesc },
    /// Elements of the inner type are appended one at a time through an
    /// appender named by the annotation.
    Accumulating { appender: String, inner: TypeDesc },
}

/// What a generation-time diagnostic complains about.
#[derive(Clone, Copy, PartialEq, Eq, Structural, Debug)]
pub enum DiagnosticKind {
    /// An annotation was present but not a single `each = "..."` assignment.
    MalformedAnnotation,
    /// `each` was used on a field whose type is not the collection wrapper.
    EachRequiresCollection,
}

/// A generation-time diagnostic: what went wrong and where in the source.
#[derive(Clone, Copy, PartialEq, Eq, Structural, Debug)]
pub struct Diagnostic {
    pub kind: DiagnosticKind,
    pub loc: SourceLocation,
}

impl Diagnostic {
    /// The human-readable message for this diagnostic.
    pub fn message(&self) -> (r: String)
        ensures
            self.kind is MalformedAnnotation ==> r@ == "expected `builder(each = \"...\")`"@,
            self.kind is EachRequiresCollection ==> r@ == "`each` requires a collection-typed field"@,
    {
        match self.kind {
            DiagnosticKind::MalformedAnnotation => String::from_str(
                "expected `builder(each = \"...\")`",
            ),
            DiagnosticKind::EachRequiresCollection => String::from_str(
                "`each` requires a collection-typed field",
            ),
        }
    }
}

} // verus!
