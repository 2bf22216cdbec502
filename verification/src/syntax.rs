//! Input model: the structured description of an annotated record that the
//! parsing collaborator hands to the generator.
//!
//! The generator never sees host-language surface syntax. A record arrives as
//! a [`RawRecordSyntax`]: an identifier, a visibility marker, an opaque list
//! of generic parameters, record-level annotations, and an ordered field
//! list. Each field carries its identifier, a shallowly classified type
//! descriptor, and its own annotation directives.

use vstd::prelude::*;
use vstd::string::StrSliceExecFns;

verus! {

/// A field's type descriptor, classified by shape only.
///
/// The generator performs exactly one shallow check on a field type: whether
/// it is a reference, and if so whether the borrow is exclusive. Everything
/// else about the type is opaque text that is copied verbatim into the
/// generated artifacts.
#[derive(Clone, Debug, PartialEq, Eq)]
pub enum TypeSyntax {
    /// A reference type; `mutable` marks an exclusive (`&mut`) borrow.
    Reference { mutable: bool, lifetime: Option<String>, referent: String },
    /// Any non-reference shape, held as opaque text.
    Owned(String),
}

/// Mathematical model of [`TypeSyntax`].
pub enum TypeSyntaxView {
    Reference { mutable: bool, lifetime: Option<Seq<char>>, referent: Seq<char> },
    Owned(Seq<char>),
}

impl View for TypeSyntax {
    type V = TypeSyntaxView;

    open spec fn view(&self) -> TypeSyntaxView {
        match self {
            TypeSyntax::Reference { mutable, lifetime, referent } => {
                TypeSyntaxView::Reference {
                    mutable: *mutable,
                    lifetime: match lifetime {
                        Some(l) => Some(l@),
                        None => None,
                    },
                    referent: referent@,
                }
            },
            TypeSyntax::Owned(text) => TypeSyntaxView::Owned(text@),
        }
    }
}

impl DeepView for TypeSyntax {
    type V = TypeSyntaxView;

    open spec fn deep_view(&self) -> TypeSyntaxView {
        self.view()
    }
}

/// Whether a type descriptor is an exclusively mutable reference.
pub open spec fn is_mutable_reference(t: TypeSyntaxView) -> bool {
    t matches TypeSyntaxView::Reference { mutable: true, .. }
}

/// Whether a type descriptor is a shared (non-mutable) reference.
pub open spec fn is_shared_reference(t: TypeSyntaxView) -> bool {
    t matches TypeSyntaxView::Reference { mutable: false, .. }
}

impl TypeSyntax {
    /// An equal copy of this type descriptor.
    ///
    /// Derived `Clone` implementations carry no specification, so the copy
    /// that verified code needs is spelled out here.
    pub fn duplicate(&self) -> (r: TypeSyntax)
        ensures
            r == *self,
    {
        match self {
            TypeSyntax::Reference { mutable, lifetime, referent } => {
                TypeSyntax::Reference {
                    mutable: *mutable,
                    lifetime: match lifetime {
                        Some(l) => Some(l.clone()),
                        None => None,
                    },
                    referent: referent.clone(),
                }
            },
            TypeSyntax::Owned(text) => TypeSyntax::Owned(text.clone()),
        }
    }

    /// The shallow shape check: is this type an exclusively mutable reference?
    pub fn check_mutable_reference(&self) -> (r: bool)
        ensures
            r == is_mutable_reference(self@),
    {
        match self {
            TypeSyntax::Reference { mutable, .. } => *mutable,
            TypeSyntax::Owned(_) => false,
        }
    }

    /// The shallow shape check: is this type a shared reference?
    pub fn check_shared_reference(&self) -> (r: bool)
        ensures
            r == is_shared_reference(self@),
    {
        match self {
            TypeSyntax::Reference { mutable, .. } => !*mutable,
            TypeSyntax::Owned(_) => false,
        }
    }
}

/// One annotation directive attached to a field.
///
/// `arguments` is `None` for a bare directive written without an argument
/// list, and `Some` (possibly empty) when an argument list is present. Each
/// argument is one raw token of the comma-separated list; the extractor
/// decides whether it is a well-formed identifier.
#[derive(Clone, Debug, PartialEq, Eq)]
pub struct FieldAnnotation {
    pub name: String,
    pub arguments: Option<Vec<String>>,
}

/// Mathematical model of [`FieldAnnotation`].
pub struct FieldAnnotationView {
    pub name: Seq<char>,
    pub arguments: Option<Seq<Seq<char>>>,
}

impl View for FieldAnnotation {
    type V = FieldAnnotationView;

    open spec fn view(&self) -> FieldAnnotationView {
        FieldAnnotationView {
            name: self.name@,
            arguments: match &self.arguments {
                Some(args) => Some(args.deep_view()),
                None => None,
            },
        }
    }
}

impl DeepView for FieldAnnotation {
    type V = FieldAnnotationView;

    open spec fn deep_view(&self) -> FieldAnnotationView {
        self.view()
    }
}

/// The argument carried by a record-level annotation.
///
/// The forwarding marker must carry exactly one nested attribute-list
/// argument; [`ForwardArgument::Attributes`] holds that nested list's tokens.
/// Any other argument shape is kept as opaque text so the extractor can
/// reject it.
#[derive(Clone, Debug, PartialEq, Eq)]
pub enum ForwardArgument {
    /// The annotation carries no argument at all.
    Missing,
    /// One nested attribute-list argument, as verbatim decorator tokens.
    Attributes(String),
    /// An argument that is not an attribute-list shape.
    Other(String),
}

/// Mathematical model of [`ForwardArgument`].
pub enum ForwardArgumentView {
    Missing,
    Attributes(Seq<char>),
    Other(Seq<char>),
}

impl View for ForwardArgument {
    type V = ForwardArgumentView;

    open spec fn view(&self) -> ForwardArgumentView {
        match self {
            ForwardArgument::Missing => ForwardArgumentView::Missing,
            ForwardArgument::Attributes(t) => ForwardArgumentView::Attributes(t@),
            ForwardArgument::Other(t) => ForwardArgumentView::Other(t@),
        }
    }
}

impl DeepView for ForwardArgument {
    type V = ForwardArgumentView;

    open spec fn deep_view(&self) -> ForwardArgumentView {
        self.view()
    }
}

/// One annotation attached to the record itself.
#[derive(Clone, Debug, PartialEq, Eq)]
pub struct RecordAnnotation {
    pub name: String,
    pub argument: ForwardArgument,
}

/// Mathematical model of [`RecordAnnotation`].
pub struct RecordAnnotationView {
    pub name: Seq<char>,
    pub argument: ForwardArgumentView,
}

impl View for RecordAnnotation {
    type V = RecordAnnotationView;

    open spec fn view(&self) -> RecordAnnotationView {
        RecordAnnotationView { name: self.name@, argument: self.argument@ }
    }
}

impl DeepView for RecordAnnotation {
    type V = RecordAnnotationView;

    open spec fn deep_view(&self) -> RecordAnnotationView {
        self.view()
    }
}

/// One declared field of the source record, as handed in by the parser.
#[derive(Clone, Debug, PartialEq, Eq)]
pub struct RawFieldSyntax {
    pub name: String,
    pub ty: TypeSyntax,
    pub annotations: Vec<FieldAnnotation>,
}

/// Mathematical model of [`RawFieldSyntax`].
pub struct RawFieldSyntaxView {
    pub name: Seq<char>,
    pub ty: TypeSyntaxView,
    pub annotations: Seq<FieldAnnotationView>,
}

impl View for RawFieldSyntax {
    type V = RawFieldSyntaxView;

    open spec fn view(&self) -> RawFieldSyntaxView {
        RawFieldSyntaxView {
            name: self.name@,
            ty: self.ty@,
            annotations: self.annotations.deep_view(),
        }
    }
}

impl DeepView for RawFieldSyntax {
    type V = RawFieldSyntaxView;

    open spec fn deep_view(&self) -> RawFieldSyntaxView {
        self.view()
    }
}

/// The annotated input record.
#[derive(Clone, Debug, PartialEq, Eq)]
pub struct RawRecordSyntax {
    pub name: String,
    pub visibility: String,
    pub generics: Vec<String>,
    pub annotations: Vec<RecordAnnotation>,
    pub fields: Vec<RawFieldSyntax>,
}

/// Mathematical model of [`RawRecordSyntax`].
pub struct RawRecordSyntaxView {
    pub name: Seq<char>,
    pub visibility: Seq<char>,
    pub generics: Seq<Seq<char>>,
    pub annotations: Seq<RecordAnnotationView>,
    pub fields: Seq<RawFieldSyntaxView>,
}

impl View for RawRecordSyntax {
    type V = RawRecordSyntaxView;

    open spec fn view(&self) -> RawRecordSyntaxView {
        RawRecordSyntaxView {
            name: self.name@,
            visibility: self.visibility@,
            generics: self.generics.deep_view(),
            annotations: self.annotations.deep_view(),
            fields: self.fields.deep_view(),
        }
    }
}

impl DeepView for RawRecordSyntax {
    type V = RawRecordSyntaxView;

    open spec fn deep_view(&self) -> RawRecordSyntaxView {
        self.view()
    }
}

/// Whether `c` may begin an identifier: an ASCII letter or an underscore.
pub open spec fn is_identifier_start(c: char) -> bool {
    ((c as u32) >= 97 && (c as u32) <= 122)  // 'a' ..= 'z'
    || ((c as u32) >= 65 && (c as u32) <= 90)  // 'A' ..= 'Z'
    || (c as u32) == 95  // '_'
}

/// Whether `c` may continue an identifier: a start character or an ASCII digit.
pub open spec fn is_identifier_char(c: char) -> bool {
    is_identifier_start(c) || ((c as u32) >= 48 && (c as u32) <= 57)  // '0' ..= '9'
}

/// The generator's notion of a bare identifier: non-empty, opening with a
/// letter or underscore, continuing with letters, digits or underscores.
pub open spec fn is_identifier(s: Seq<char>) -> bool {
    &&& s.len() > 0
    &&& is_identifier_start(s[0])
    &&& forall|i: int| 1 <= i < s.len() ==> is_identifier_char(#[trigger] s[i])
}

/// Decides [`is_identifier`] on a string.
pub fn check_identifier(s: &String) -> (r: bool)
    ensures
        r == is_identifier(s@),
{
    let text = s.as_str();
    let n = text.unicode_len();
    if n == 0 {
        return false;
    }
    let first = text.get_char(0);
    let fu = first as u32;
    if !((fu >= 97 && fu <= 122) || (fu >= 65 && fu <= 90) || fu == 95) {
        return false;
    }
    let mut i: usize = 1;
    while i < n
        invariant
            1 <= i <= n,
            n == s@.len(),
            text@ == s@,
            forall|j: int| 1 <= j < i ==> is_identifier_char(#[trigger] s@[j]),
        decreases n - i,
    {
        let c = text.get_char(i);
        let cu = c as u32;
        if !((cu >= 97 && cu <= 122) || (cu >= 65 && cu <= 90) || cu == 95 || (cu >= 48 && cu <= 57)) {
            return false;
        }
        i += 1;
    }
    true
}

} // verus!
