//! The laws the matchers obey, stated and proved once for all inputs.

use vstd::prelude::*;

use crate::descriptor::{Descriptor, FieldDesc, Kind};
use crate::matcher::{
    name_declared, spec_accepts, spec_field_ok, spec_matches_composite, spec_matches_domain,
    spec_matches_enum,
};
use crate::shape::{FieldDecl, Shape, TraitSelector};

verus! {

/// A descriptor whose name differs from the declared name is rejected by
/// every matcher, whatever its kind and contents.
pub proof fn lemma_name_mismatch_rejected(
    declared_name: Seq<char>,
    inner: Shape,
    variants: Seq<String>,
    fields: Seq<FieldDecl>,
    selector: TraitSelector,
    descriptor: Descriptor,
)
    requires
        descriptor.name@ != declared_name,
    ensures
        !spec_matches_domain(declared_name, inner, selector, descriptor),
        !spec_matches_enum(declared_name, variants, descriptor),
        !spec_matches_composite(declared_name, fields, selector, descriptor),
{
}

/// A descriptor whose name differs from a shape's own declared name is
/// rejected by that shape's matcher, for every shape.
pub proof fn lemma_name_mismatch_rejected_by_shape(
    shape: Shape,
    selector: TraitSelector,
    descriptor: Descriptor,
)
    requires
        descriptor.name@ != shape.spec_name(),
    ensures
        !spec_accepts(shape, selector, descriptor),
{
}

/// A descriptor whose kind is not the one a matcher expects is rejected,
/// whatever its name and contents.
pub proof fn lemma_kind_mismatch_rejected(
    declared_name: Seq<char>,
    inner: Shape,
    variants: Seq<String>,
    fields: Seq<FieldDecl>,
    selector: TraitSelector,
    descriptor: Descriptor,
)
    ensures
        !(descriptor.kind is Domain) ==> !spec_matches_domain(
            declared_name,
            inner,
            selector,
            descriptor,
        ),
        !(descriptor.kind is Enum) ==> !spec_matches_enum(declared_name, variants, descriptor),
        !(descriptor.kind is Composite) ==> !spec_matches_composite(
            declared_name,
            fields,
            selector,
            descriptor,
        ),
{
}

/// Once name and kind agree, the domain matcher returns exactly what the
/// inner declared type's own matcher says of the wrapped inner
/// descriptor.
pub proof fn lemma_domain_delegates_to_inner(
    declared_name: Seq<char>,
    inner: Shape,
    selector: TraitSelector,
    descriptor: Descriptor,
)
    requires
        descriptor.name@ == declared_name,
        descriptor.kind is Domain,
    ensures
        spec_matches_domain(declared_name, inner, selector, descriptor) == spec_accepts(
            inner,
            selector,
            *descriptor.kind->Domain_0,
        ),
{
}

/// An enum descriptor that reports no variants matches any declared
/// variant set, provided its name agrees: the per-variant rule holds
/// vacuously.
pub proof fn lemma_empty_variant_list_matches(
    declared_name: Seq<char>,
    variants: Seq<String>,
    descriptor: Descriptor,
)
    requires
        descriptor.name@ == declared_name,
        descriptor.kind matches Kind::Enum(reported) && reported@.len() == 0,
    ensures
        spec_matches_enum(declared_name, variants, descriptor),
{
}

/// An enum descriptor reporting even one variant name outside the
/// declared set is rejected.
pub proof fn lemma_unknown_variant_rejected(
    declared_name: Seq<char>,
    variants: Seq<String>,
    descriptor: Descriptor,
    i: int,
)
    requires
        descriptor.kind matches Kind::Enum(reported) && 0 <= i < reported@.len()
            && !name_declared(variants, reported@[i]@),
    ensures
        !spec_matches_enum(declared_name, variants, descriptor),
{
}

/// A composite descriptor reporting fewer fields than are declared is
/// rejected: the live schema must provide at least the declared fields'
/// count.
pub proof fn lemma_missing_fields_rejected(
    declared_name: Seq<char>,
    fields: Seq<FieldDecl>,
    selector: TraitSelector,
    descriptor: Descriptor,
)
    requires
        descriptor.kind matches Kind::Composite(reported) && reported@.len() < fields.len(),
    ensures
        !spec_matches_composite(declared_name, fields, selector, descriptor),
{
}

/// A reported field whose name is declared nowhere never fails the
/// match: extra fields of the live schema are ignored.
pub proof fn lemma_undeclared_field_ignored(
    declared: Seq<FieldDecl>,
    selector: TraitSelector,
    field: FieldDesc,
)
    requires
        forall|i: int| 0 <= i < declared.len() ==> (#[trigger] declared[i]).name@ != field.name@,
    ensures
        spec_field_ok(declared, selector, field),
    decreases declared.len(),
{
    if declared.len() > 0 {
        assert(forall|i: int|
            0 <= i < declared.drop_first().len() ==> (#[trigger] declared.drop_first()[i]).name@
                != field.name@) by {
            assert(forall|i: int|
                0 <= i < declared.drop_first().len() ==> declared.drop_first()[i]
                    == declared[i + 1]);
        }
        lemma_undeclared_field_ignored(declared.drop_first(), selector, field);
    }
}

/// Under the declared-shape invariant that field names are unique, a
/// reported field whose name is declared is checked against exactly that
/// declared field's type.
pub proof fn lemma_matched_field_checks_declared_type(
    declared: Seq<FieldDecl>,
    selector: TraitSelector,
    field: FieldDesc,
    i: int,
)
    requires
        forall|a: int, b: int|
            0 <= a < b < declared.len() ==> (#[trigger] declared[a]).name@ != (
            #[trigger] declared[b]).name@,
        0 <= i < declared.len(),
        declared[i].name@ == field.name@,
    ensures
        spec_field_ok(declared, selector, field) == spec_accepts(
            declared[i].shape,
            selector,
            field.descriptor,
        ),
    decreases declared.len(),
{
    if i > 0 {
        assert(declared[0].name@ != field.name@);
        assert(forall|k: int|
            0 <= k < declared.drop_first().len() ==> declared.drop_first()[k] == declared[k + 1]);
        lemma_matched_field_checks_declared_type(declared.drop_first(), selector, field, i - 1);
    }
}

/// Matching is pure: the result of a matcher is a function of the shape,
/// the selector, and the descriptor alone, so two invocations on
/// identical inputs yield identical results. Each executable matcher's
/// contract pins its result to [`spec_accepts`] or to one of the three
/// matcher predicates, of which this is the determinism.
pub proof fn lemma_matching_deterministic(
    shape: Shape,
    selector: TraitSelector,
    descriptor: Descriptor,
    first: bool,
    second: bool,
)
    requires
        first == spec_accepts(shape, selector, descriptor),
        second == spec_accepts(shape, selector, descriptor),
    ensures
        first == second,
{
}

} // verus!
