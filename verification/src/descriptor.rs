//! Schema descriptors: the runtime-introspected external types that
//! declared shapes are matched against.

use vstd::prelude::*;

verus! {

/// One field of a composite descriptor: the field's name and the
/// descriptor of its own type.
pub struct FieldDesc {
    pub name: String,
    pub descriptor: Descriptor,
}

/// The kind of an external schema type.
pub enum Kind {
    /// An alias type wrapping one inner type.
    Domain(Box<Descriptor>),
    /// An enumeration with the variant names the live schema reports.
    Enum(Vec<String>),
    /// A record with the fields the live schema reports.
    Composite(Vec<FieldDesc>),
    /// Any other kind of type; the matchers always reject it.
    Other,
}

/// A runtime-observed description of an external schema type: its name
/// and its kind.
pub struct Descriptor {
    pub name: String,
    pub kind: Kind,
}

} // verus!
