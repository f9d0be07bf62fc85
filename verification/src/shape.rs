//! Declared shapes: the statically known structures that descriptors are
//! matched against.

use vstd::prelude::*;

verus! {

/// Chooses which directional acceptance interface recursive field checks
/// dispatch through (outbound serialization or inbound deserialization).
/// The matchers treat it as an opaque key: it is threaded through every
/// recursive call unchanged and never inspected.
#[derive(Clone, Copy, Debug, PartialEq, Eq, Structural)]
pub enum TraitSelector {
    Serialize,
    Deserialize,
}

/// One declared field of a composite shape: a field name together with the
/// declared shape of the field's type.
pub struct FieldDecl {
    pub name: String,
    pub shape: Shape,
}

/// A statically declared data shape.
///
/// Field names of a `Composite` are meant to be unique within the shape;
/// see [`Shape::wf`]. A shape is a finite tree, so matching against it
/// always terminates.
pub enum Shape {
    /// A leaf type whose acceptance rule is name equality with the
    /// descriptor; it stands for the primitive types whose own acceptance
    /// checks live outside this crate.
    Scalar { name: String },
    /// A named alias wrapping exactly one inner declared type.
    Domain { name: String, inner: Box<Shape> },
    /// A named enumeration with a closed set of variant names.
    Enum { name: String, variants: Vec<String> },
    /// A named record of named, typed fields.
    Composite { name: String, fields: Vec<FieldDecl> },
}

impl Shape {
    /// The declared name the shape's own matcher checks descriptors
    /// against.
    pub open spec fn spec_name(self) -> Seq<char> {
        match self {
            Shape::Scalar { name } => name@,
            Shape::Domain { name, .. } => name@,
            Shape::Enum { name, .. } => name@,
            Shape::Composite { name, .. } => name@,
        }
    }

    /// Well-formedness of a declared shape: within every composite, field
    /// names are unique, and every nested shape is well-formed in turn.
    /// Matching is total and does not require this; it is the invariant a
    /// declaration produced from a record definition satisfies.
    pub open spec fn wf(self) -> bool
        decreases self,
    {
        match self {
            Shape::Scalar { .. } => true,
            Shape::Domain { inner, .. } => inner.wf(),
            Shape::Enum { .. } => true,
            Shape::Composite { fields, .. } => {
                &&& forall|i: int, j: int|
                    0 <= i < j < fields@.len() ==> fields@[i].name@ != fields@[j].name@
                &&& forall|i: int| 0 <= i < fields@.len() ==> (#[trigger] fields@[i].shape).wf()
            },
        }
    }
}

} // verus!
