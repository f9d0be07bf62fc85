//! The acceptance matchers: pure predicates deciding whether an external
//! schema descriptor is compatible with a declared shape.
//!
//! Each matcher first checks the descriptor's name, then its kind, then
//! applies the kind-specific structural rule, recursing into field
//! matchers as needed. Every mismatch is reported uniformly as `false`;
//! the matchers never error and never mutate their inputs.

use vstd::prelude::*;

use crate::descriptor::{Descriptor, FieldDesc, Kind};
use crate::shape::{FieldDecl, Shape, TraitSelector};

verus! {

/// Holds when the variant name `name` occurs among the declared variant
/// names `declared`.
pub open spec fn name_declared(declared: Seq<String>, name: Seq<char>) -> bool {
    exists|i: int| 0 <= i < declared.len() && #[trigger] declared[i]@ == name
}

/// What the enum matcher decides: the descriptor's name equals the
/// declared name, its kind is `Enum`, and every variant name the live
/// schema reports occurs among the declared variants. The declared set
/// may hold names the descriptor lacks; no variant count is compared.
pub open spec fn spec_matches_enum(
    declared_name: Seq<char>,
    declared_variants: Seq<String>,
    descriptor: Descriptor,
) -> bool {
    &&& descriptor.name@ == declared_name
    &&& match descriptor.kind {
        Kind::Enum(reported) => forall|i: int|
            0 <= i < reported@.len() ==> name_declared(
                declared_variants,
                (#[trigger] reported@[i])@,
            ),
        _ => false,
    }
}

/// Whether the declared shape `shape` accepts the descriptor: the shape's
/// own matcher applied to `descriptor`. A scalar accepts exactly the
/// descriptors carrying its name.
pub open spec fn spec_accepts(
    shape: Shape,
    selector: TraitSelector,
    descriptor: Descriptor,
) -> bool
    decreases shape, 0int,
{
    match shape {
        Shape::Scalar { name } => descriptor.name@ == name@,
        Shape::Domain { name, inner } => spec_matches_domain(name@, *inner, selector, descriptor),
        Shape::Enum { name, variants } => spec_matches_enum(name@, variants@, descriptor),
        Shape::Composite { name, fields } => spec_matches_composite(
            name@,
            fields@,
            selector,
            descriptor,
        ),
    }
}

/// What the domain matcher decides: the descriptor's name equals the
/// declared name, its kind is `Domain`, and the wrapped inner descriptor
/// is accepted by the inner declared type's own matcher.
pub open spec fn spec_matches_domain(
    declared_name: Seq<char>,
    inner: Shape,
    selector: TraitSelector,
    descriptor: Descriptor,
) -> bool
    decreases inner, 1int,
{
    &&& descriptor.name@ == declared_name
    &&& match descriptor.kind {
        Kind::Domain(wrapped) => spec_accepts(inner, selector, *wrapped),
        _ => false,
    }
}

/// What one reported composite field contributes to the match: the first
/// declared field carrying the same name must accept the reported field's
/// descriptor; a reported field whose name is declared nowhere is
/// ignored.
pub open spec fn spec_field_ok(
    declared: Seq<FieldDecl>,
    selector: TraitSelector,
    field: FieldDesc,
) -> bool
    decreases declared, 0int,
{
    if declared.len() == 0 {
        true
    } else if declared[0].name@ == field.name@ {
        spec_accepts(declared[0].shape, selector, field.descriptor)
    } else {
        spec_field_ok(declared.drop_first(), selector, field)
    }
}

/// What the composite matcher decides: the descriptor's name equals the
/// declared name, its kind is `Composite`, the live schema reports at
/// least as many fields as are declared, and every reported field is in
/// order per [`spec_field_ok`]. Extra reported fields are tolerated; a
/// declared field the descriptor lacks is rejected only through the
/// field-count floor.
pub open spec fn spec_matches_composite(
    declared_name: Seq<char>,
    declared_fields: Seq<FieldDecl>,
    selector: TraitSelector,
    descriptor: Descriptor,
) -> bool
    decreases declared_fields, 1int,
{
    &&& descriptor.name@ == declared_name
    &&& match descriptor.kind {
        Kind::Composite(reported) => {
            &&& reported@.len() >= declared_fields.len()
            &&& forall|i: int|
                0 <= i < reported@.len() ==> spec_field_ok(
                    declared_fields,
                    selector,
                    #[trigger] reported@[i],
                )
        },
        _ => false,
    }
}

/// Whether `name` occurs among the declared variant names.
fn contains_name(declared: &Vec<String>, name: &String) -> (r: bool)
    ensures
        r == name_declared(declared@, name@),
{
    let mut i: usize = 0;
    while i < declared.len()
        invariant
            i <= declared@.len(),
            forall|k: int| 0 <= k < i ==> (#[trigger] declared@[k])@ != name@,
        decreases declared@.len() - i,
    {
        if declared[i] == *name {
            return true;
        }
        i += 1;
    }
    false
}

/// The enum matcher. Accepts exactly when the descriptor carries the
/// declared name, is an enumeration, and reports no variant name outside
/// the declared set; a descriptor reporting no variants matches
/// vacuously.
#[verifier::loop_isolation(false)]
pub fn matches_enum(
    declared_name: &String,
    declared_variants: &Vec<String>,
    descriptor: &Descriptor,
) -> (r: bool)
    ensures
        r == spec_matches_enum(declared_name@, declared_variants@, *descriptor),
{
    if descriptor.name != *declared_name {
        return false;
    }
    match &descriptor.kind {
        Kind::Enum(reported) => {
            let mut i: usize = 0;
            while i < reported.len()
                invariant
                    i <= reported@.len(),
                    forall|k: int|
                        0 <= k < i ==> name_declared(declared_variants@, (#[trigger] reported@[k])@),
                decreases reported@.len() - i,
            {
                if !contains_name(declared_variants, &reported[i]) {
                    proof {
                        assert(!name_declared(declared_variants@, (reported@[i as int])@));
                    }
                    return false;
                }
                i += 1;
            }
            true
        },
        _ => false,
    }
}

/// The domain matcher. Accepts exactly when the descriptor carries the
/// declared name, is an alias type, and its wrapped inner descriptor is
/// accepted by the inner declared type's own matcher; the inner result is
/// returned unchanged.
pub fn matches_domain(
    declared_name: &String,
    inner: &Shape,
    selector: TraitSelector,
    descriptor: &Descriptor,
) -> (r: bool)
    ensures
        r == spec_matches_domain(declared_name@, *inner, selector, *descriptor),
    decreases *inner, 1int,
{
    if descriptor.name != *declared_name {
        return false;
    }
    match &descriptor.kind {
        Kind::Domain(wrapped) => accepts(inner, selector, wrapped),
        _ => false,
    }
}

/// Whether one reported field is in order: the first declared field with
/// the reported name, if any, must accept the reported field's
/// descriptor; a reported name declared nowhere passes.
#[verifier::loop_isolation(false)]
fn field_ok(declared: &Vec<FieldDecl>, selector: TraitSelector, field: &FieldDesc) -> (r: bool)
    ensures
        r == spec_field_ok(declared@, selector, *field),
    decreases declared@, 0int,
{
    let mut i: usize = 0;
    proof {
        assert(declared@.skip(0) =~= declared@);
    }
    while i < declared.len()
        invariant
            i <= declared@.len(),
            spec_field_ok(declared@, selector, *field) == spec_field_ok(
                declared@.skip(i as int),
                selector,
                *field,
            ),
        decreases declared@.len() - i,
    {
        if declared[i].name == field.name {
            proof {
                assert(declared@.skip(i as int)[0] == declared@[i as int]);
            }
            return accepts(&declared[i].shape, selector, &field.descriptor);
        }
        proof {
            assert(declared@.skip(i as int).drop_first() =~= declared@.skip(i as int + 1));
        }
        i += 1;
    }
    proof {
        assert(declared@.skip(i as int).len() == 0);
    }
    true
}

/// The composite matcher. Accepts exactly when the descriptor carries
/// the declared name, is a record, reports at least as many fields as
/// are declared, and every reported field passes its declared field's
/// own matcher; reported fields with undeclared names are ignored.
#[verifier::loop_isolation(false)]
pub fn matches_composite(
    declared_name: &String,
    declared_fields: &Vec<FieldDecl>,
    selector: TraitSelector,
    descriptor: &Descriptor,
) -> (r: bool)
    ensures
        r == spec_matches_composite(declared_name@, declared_fields@, selector, *descriptor),
    decreases declared_fields@, 1int,
{
    if descriptor.name != *declared_name {
        return false;
    }
    match &descriptor.kind {
        Kind::Composite(reported) => {
            if reported.len() < declared_fields.len() {
                return false;
            }
            let mut i: usize = 0;
            while i < reported.len()
                invariant
                    i <= reported@.len(),
                    forall|k: int|
                        0 <= k < i ==> spec_field_ok(
                            declared_fields@,
                            selector,
                            #[trigger] reported@[k],
                        ),
                decreases reported@.len() - i,
            {
                if !field_ok(declared_fields, selector, &reported[i]) {
                    return false;
                }
                i += 1;
            }
            true
        },
        _ => false,
    }
}

/// Dispatches a descriptor to the declared shape's own matcher: name
/// equality for a scalar, and the domain, enum, or composite matcher for
/// the other shapes.
pub fn accepts(shape: &Shape, selector: TraitSelector, descriptor: &Descriptor) -> (r: bool)
    ensures
        r == spec_accepts(*shape, selector, *descriptor),
    decreases *shape, 0int,
{
    match shape {
        Shape::Scalar { name } => descriptor.name == *name,
        Shape::Domain { name, inner } => matches_domain(name, inner, selector, descriptor),
        Shape::Enum { name, variants } => matches_enum(name, variants, descriptor),
        Shape::Composite { name, fields } => matches_composite(name, fields, selector, descriptor),
    }
}

} // verus!
