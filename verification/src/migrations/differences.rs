//! Fields in which two index definitions differ.
use vstd::prelude::*;

use super::definitions::{
    option_text_same, DefinitionShape, ValidatedDynamicIndexDefinition,
};

verus! {

/// One field of an index definition.
#[derive(Debug, Clone, Copy, PartialEq, Eq, Structural)]
pub enum DefinitionField {
    Family,
    ElementType,
    Kind,
    Label,
    Property,
    Unique,
    Direction,
    TenantProperty,
    Dimension,
    Metric,
    M,
    M0,
    EfConstruction,
    Ml,
    SimhashThreshold,
    SamplingRatio,
    AdaptiveEnabled,
    AdaptiveFailureProbability,
    Analyzer,
    PositionsEnabled,
}

/// Every field, in the order in which differences are reported.
pub open spec fn every_field() -> Seq<DefinitionField> {
    seq![
        DefinitionField::Family,
        DefinitionField::ElementType,
        DefinitionField::Kind,
        DefinitionField::Label,
        DefinitionField::Property,
        DefinitionField::Unique,
        DefinitionField::Direction,
        DefinitionField::TenantProperty,
        DefinitionField::Dimension,
        DefinitionField::Metric,
        DefinitionField::M,
        DefinitionField::M0,
        DefinitionField::EfConstruction,
        DefinitionField::Ml,
        DefinitionField::SimhashThreshold,
        DefinitionField::SamplingRatio,
        DefinitionField::AdaptiveEnabled,
        DefinitionField::AdaptiveFailureProbability,
        DefinitionField::Analyzer,
        DefinitionField::PositionsEnabled,
    ]
}

/// Whether two definitions differ in a field; definitions of two families differ in their
/// family alone.
pub open spec fn differ_in(
    left: DefinitionShape,
    right: DefinitionShape,
    field: DefinitionField,
) -> bool {
    match (left, right) {
        (DefinitionShape::Secondary(left), DefinitionShape::Secondary(right)) => match field {
            DefinitionField::ElementType => left.element_type != right.element_type,
            DefinitionField::Kind => left.kind != right.kind,
            DefinitionField::Label => left.label != right.label,
            DefinitionField::Property => left.property != right.property,
            DefinitionField::Unique => left.unique != right.unique,
            DefinitionField::Direction => left.direction != right.direction,
            _ => false,
        },
        (DefinitionShape::Vector(left), DefinitionShape::Vector(right)) => match field {
            DefinitionField::ElementType => left.element_type != right.element_type,
            DefinitionField::Label => left.label != right.label,
            DefinitionField::Property => left.property != right.property,
            DefinitionField::TenantProperty => left.tenant_property != right.tenant_property,
            DefinitionField::Dimension => left.dimension != right.dimension,
            DefinitionField::Metric => left.metric != right.metric,
            DefinitionField::M => left.m != right.m,
            DefinitionField::M0 => left.m0 != right.m0,
            DefinitionField::EfConstruction => left.ef_construction != right.ef_construction,
            DefinitionField::Ml => left.ml_bits != right.ml_bits,
            DefinitionField::SimhashThreshold => left.simhash_threshold
                != right.simhash_threshold,
            DefinitionField::SamplingRatio => left.sampling_ratio_bits
                != right.sampling_ratio_bits,
            DefinitionField::AdaptiveEnabled => left.adaptive_enabled != right.adaptive_enabled,
            DefinitionField::AdaptiveFailureProbability => left.adaptive_failure_prob_bits
                != right.adaptive_failure_prob_bits,
            _ => false,
        },
        (DefinitionShape::Text(left), DefinitionShape::Text(right)) => match field {
            DefinitionField::ElementType => left.element_type != right.element_type,
            DefinitionField::Label => left.label != right.label,
            DefinitionField::Property => left.property != right.property,
            DefinitionField::TenantProperty => left.tenant_property != right.tenant_property,
            DefinitionField::Analyzer => left.analyzer != right.analyzer,
            DefinitionField::PositionsEnabled => left.positions_enabled
                != right.positions_enabled,
            _ => false,
        },
        _ => field is Family,
    }
}

/// The fields in which two definitions differ.
pub open spec fn differing(left: DefinitionShape, right: DefinitionShape) -> Seq<DefinitionField> {
    every_field().filter(|field: DefinitionField| differ_in(left, right, field))
}

/// Two definitions that are not the same differ in some field, and the differences that
/// are reported are exactly the fields in which they differ.
pub proof fn law_differences_are_exact(left: DefinitionShape, right: DefinitionShape)
    ensures
        forall|field: DefinitionField| #[trigger] differing(left, right).contains(field) <==> differ_in(
            left,
            right,
            field,
        ),
        differing(left, right).len() > 0 <==> left != right,
{
    let differs = |field: DefinitionField| differ_in(left, right, field);
    let all = every_field();
    let found = differing(left, right);
    assert forall|field: DefinitionField| #[trigger] found.contains(field) <==> differ_in(
        left,
        right,
        field,
    ) by {
        lemma_every_field_is_listed(field);
        if differs(field) {
            all.lemma_filter_contains(differs, all.index_of(field));
        }
        if found.contains(field) {
            all.lemma_filter_pred(differs, found.index_of(field));
        }
    }
    if found.len() > 0 {
        assert(found.contains(found[0]));
    }
    if left != right {
        let field = lemma_some_field_differs(left, right);
        assert(found.contains(field));
    }
}

proof fn lemma_every_field_is_listed(field: DefinitionField)
    ensures
        every_field().contains(field),
{
    let all = every_field();
    let place: int = match field {
        DefinitionField::Family => 0,
        DefinitionField::ElementType => 1,
        DefinitionField::Kind => 2,
        DefinitionField::Label => 3,
        DefinitionField::Property => 4,
        DefinitionField::Unique => 5,
        DefinitionField::Direction => 6,
        DefinitionField::TenantProperty => 7,
        DefinitionField::Dimension => 8,
        DefinitionField::Metric => 9,
        DefinitionField::M => 10,
        DefinitionField::M0 => 11,
        DefinitionField::EfConstruction => 12,
        DefinitionField::Ml => 13,
        DefinitionField::SimhashThreshold => 14,
        DefinitionField::SamplingRatio => 15,
        DefinitionField::AdaptiveEnabled => 16,
        DefinitionField::AdaptiveFailureProbability => 17,
        DefinitionField::Analyzer => 18,
        DefinitionField::PositionsEnabled => 19,
    };
    assert(all[place] == field);
}

proof fn lemma_some_field_differs(left: DefinitionShape, right: DefinitionShape) -> (field:
    DefinitionField)
    requires
        left != right,
    ensures
        differ_in(left, right, field),
{
    match (left, right) {
        (DefinitionShape::Secondary(a), DefinitionShape::Secondary(b)) => {
            if !(exists|field: DefinitionField| differ_in(left, right, field)) {
                assert(!differ_in(left, right, DefinitionField::ElementType));
                assert(!differ_in(left, right, DefinitionField::Kind));
                assert(!differ_in(left, right, DefinitionField::Label));
                assert(!differ_in(left, right, DefinitionField::Property));
                assert(!differ_in(left, right, DefinitionField::Unique));
                assert(!differ_in(left, right, DefinitionField::Direction));
                assert(a =~= b);
            }
        },
        (DefinitionShape::Vector(a), DefinitionShape::Vector(b)) => {
            if !(exists|field: DefinitionField| differ_in(left, right, field)) {
                assert(!differ_in(left, right, DefinitionField::ElementType));
                assert(!differ_in(left, right, DefinitionField::Label));
                assert(!differ_in(left, right, DefinitionField::Property));
                assert(!differ_in(left, right, DefinitionField::TenantProperty));
                assert(!differ_in(left, right, DefinitionField::Dimension));
                assert(!differ_in(left, right, DefinitionField::Metric));
                assert(!differ_in(left, right, DefinitionField::M));
                assert(!differ_in(left, right, DefinitionField::M0));
                assert(!differ_in(left, right, DefinitionField::EfConstruction));
                assert(!differ_in(left, right, DefinitionField::Ml));
                assert(!differ_in(left, right, DefinitionField::SimhashThreshold));
                assert(!differ_in(left, right, DefinitionField::SamplingRatio));
                assert(!differ_in(left, right, DefinitionField::AdaptiveEnabled));
                assert(!differ_in(left, right, DefinitionField::AdaptiveFailureProbability));
                assert(a =~= b);
            }
        },
        (DefinitionShape::Text(a), DefinitionShape::Text(b)) => {
            if !(exists|field: DefinitionField| differ_in(left, right, field)) {
                assert(!differ_in(left, right, DefinitionField::ElementType));
                assert(!differ_in(left, right, DefinitionField::Label));
                assert(!differ_in(left, right, DefinitionField::Property));
                assert(!differ_in(left, right, DefinitionField::TenantProperty));
                assert(!differ_in(left, right, DefinitionField::Analyzer));
                assert(!differ_in(left, right, DefinitionField::PositionsEnabled));
                assert(a =~= b);
            }
        },
        _ => {
            assert(differ_in(left, right, DefinitionField::Family));
        },
    }
    choose|field: DefinitionField| differ_in(left, right, field)
}

fn field_list() -> (fields: Vec<DefinitionField>)
    ensures
        fields@ == every_field(),
{
    let mut fields: Vec<DefinitionField> = Vec::new();
    fields.push(DefinitionField::Family);
    fields.push(DefinitionField::ElementType);
    fields.push(DefinitionField::Kind);
    fields.push(DefinitionField::Label);
    fields.push(DefinitionField::Property);
    fields.push(DefinitionField::Unique);
    fields.push(DefinitionField::Direction);
    fields.push(DefinitionField::TenantProperty);
    fields.push(DefinitionField::Dimension);
    fields.push(DefinitionField::Metric);
    fields.push(DefinitionField::M);
    fields.push(DefinitionField::M0);
    fields.push(DefinitionField::EfConstruction);
    fields.push(DefinitionField::Ml);
    fields.push(DefinitionField::SimhashThreshold);
    fields.push(DefinitionField::SamplingRatio);
    fields.push(DefinitionField::AdaptiveEnabled);
    fields.push(DefinitionField::AdaptiveFailureProbability);
    fields.push(DefinitionField::Analyzer);
    fields.push(DefinitionField::PositionsEnabled);
    assert(fields@ =~= every_field());
    fields
}

impl ValidatedDynamicIndexDefinition {
    fn differs_in(&self, other: &Self, field: DefinitionField) -> (differs: bool)
        ensures
            differs == differ_in(self@, other@, field),
    {
        match (self, other) {
            (
                ValidatedDynamicIndexDefinition::Secondary(left),
                ValidatedDynamicIndexDefinition::Secondary(right),
            ) => match field {
                DefinitionField::ElementType => left.element_type != right.element_type,
                DefinitionField::Kind => left.kind != right.kind,
                DefinitionField::Label => left.label != right.label,
                DefinitionField::Property => left.property != right.property,
                DefinitionField::Unique => left.unique != right.unique,
                DefinitionField::Direction => left.direction != right.direction,
                _ => false,
            },
            (
                ValidatedDynamicIndexDefinition::Vector(left),
                ValidatedDynamicIndexDefinition::Vector(right),
            ) => match field {
                DefinitionField::ElementType => left.element_type != right.element_type,
                DefinitionField::Label => left.label != right.label,
                DefinitionField::Property => left.property != right.property,
                DefinitionField::TenantProperty => !option_text_same(
                    &left.tenant_property,
                    &right.tenant_property,
                ),
                DefinitionField::Dimension => left.dimension != right.dimension,
                DefinitionField::Metric => left.metric != right.metric,
                DefinitionField::M => left.m != right.m,
                DefinitionField::M0 => left.m0 != right.m0,
                DefinitionField::EfConstruction => left.ef_construction != right.ef_construction,
                DefinitionField::Ml => left.ml_bits != right.ml_bits,
                DefinitionField::SimhashThreshold => left.simhash_threshold
                    != right.simhash_threshold,
                DefinitionField::SamplingRatio => left.sampling_ratio_bits
                    != right.sampling_ratio_bits,
                DefinitionField::AdaptiveEnabled => left.adaptive_enabled
                    != right.adaptive_enabled,
                DefinitionField::AdaptiveFailureProbability => left.adaptive_failure_prob_bits
                    != right.adaptive_failure_prob_bits,
                _ => false,
            },
            (
                ValidatedDynamicIndexDefinition::Text(left),
                ValidatedDynamicIndexDefinition::Text(right),
            ) => match field {
                DefinitionField::ElementType => left.element_type != right.element_type,
                DefinitionField::Label => left.label != right.label,
                DefinitionField::Property => left.property != right.property,
                DefinitionField::TenantProperty => !option_text_same(
                    &left.tenant_property,
                    &right.tenant_property,
                ),
                DefinitionField::Analyzer => left.analyzer != right.analyzer,
                DefinitionField::PositionsEnabled => left.positions_enabled
                    != right.positions_enabled,
                _ => false,
            },
            _ => match field {
                DefinitionField::Family => true,
                _ => false,
            },
        }
    }

    /// The fields in which two definitions differ.
    pub fn differences(&self, other: &Self) -> (fields: Vec<DefinitionField>)
        ensures
            fields@ == differing(self@, other@),
    {
        let all = field_list();
        let ghost differs = |field: DefinitionField| differ_in(self@, other@, field);
        let mut fields: Vec<DefinitionField> = Vec::new();
        let mut position: usize = 0;
        proof {
            reveal(Seq::filter);
            assert(all@.take(0).filter(differs) =~= Seq::empty());
        }
        while position < all.len()
            invariant
                position <= all.len(),
                differs == (|field: DefinitionField| differ_in(self@, other@, field)),
                fields@ == all@.take(position as int).filter(differs),
            decreases all.len() - position,
        {
            let field = all[position];
            proof {
                reveal(Seq::filter);
                assert(all@.take(position + 1).drop_last() =~= all@.take(position as int));
            }
            if self.differs_in(other, field) {
                fields.push(field);
            }
            position = position + 1;
        }
        assert(all@.take(position as int) =~= all@);
        fields
    }
}

/// Secondary definitions are reported to differ in exactly the settings in which they do.
pub proof fn law_secondary_differences_are_reported(left: DefinitionShape, right: DefinitionShape)
    requires
        left is Secondary,
        right is Secondary,
    ensures
        ({
            let a = left->Secondary_0;
            let b = right->Secondary_0;
            let found = differing(left, right);
            &&& found.contains(DefinitionField::ElementType) <==> a.element_type != b.element_type
            &&& found.contains(DefinitionField::Kind) <==> a.kind != b.kind
            &&& found.contains(DefinitionField::Label) <==> a.label != b.label
            &&& found.contains(DefinitionField::Property) <==> a.property != b.property
            &&& found.contains(DefinitionField::Unique) <==> a.unique != b.unique
            &&& found.contains(DefinitionField::Direction) <==> a.direction != b.direction
            &&& !found.contains(DefinitionField::Family)
        }),
{
    law_differences_are_exact(left, right);
}

/// Vector definitions are reported to differ in exactly the settings in which they do.
pub proof fn law_vector_differences_are_reported(left: DefinitionShape, right: DefinitionShape)
    requires
        left is Vector,
        right is Vector,
    ensures
        ({
            let a = left->Vector_0;
            let b = right->Vector_0;
            let found = differing(left, right);
            &&& found.contains(DefinitionField::ElementType) <==> a.element_type != b.element_type
            &&& found.contains(DefinitionField::Label) <==> a.label != b.label
            &&& found.contains(DefinitionField::Property) <==> a.property != b.property
            &&& found.contains(DefinitionField::TenantProperty) <==> a.tenant_property
                != b.tenant_property
            &&& found.contains(DefinitionField::Dimension) <==> a.dimension != b.dimension
            &&& found.contains(DefinitionField::Metric) <==> a.metric != b.metric
            &&& found.contains(DefinitionField::M) <==> a.m != b.m
            &&& found.contains(DefinitionField::M0) <==> a.m0 != b.m0
            &&& found.contains(DefinitionField::EfConstruction) <==> a.ef_construction
                != b.ef_construction
            &&& found.contains(DefinitionField::Ml) <==> a.ml_bits != b.ml_bits
            &&& found.contains(DefinitionField::SimhashThreshold) <==> a.simhash_threshold
                != b.simhash_threshold
            &&& found.contains(DefinitionField::SamplingRatio) <==> a.sampling_ratio_bits
                != b.sampling_ratio_bits
            &&& found.contains(DefinitionField::AdaptiveEnabled) <==> a.adaptive_enabled
                != b.adaptive_enabled
            &&& found.contains(DefinitionField::AdaptiveFailureProbability)
                <==> a.adaptive_failure_prob_bits != b.adaptive_failure_prob_bits
            &&& !found.contains(DefinitionField::Family)
        }),
{
    law_differences_are_exact(left, right);
}

/// Text definitions are reported to differ in exactly the settings in which they do.
pub proof fn law_text_differences_are_reported(left: DefinitionShape, right: DefinitionShape)
    requires
        left is Text,
        right is Text,
    ensures
        ({
            let a = left->Text_0;
            let b = right->Text_0;
            let found = differing(left, right);
            &&& found.contains(DefinitionField::ElementType) <==> a.element_type != b.element_type
            &&& found.contains(DefinitionField::Label) <==> a.label != b.label
            &&& found.contains(DefinitionField::Property) <==> a.property != b.property
            &&& found.contains(DefinitionField::TenantProperty) <==> a.tenant_property
                != b.tenant_property
            &&& found.contains(DefinitionField::Analyzer) <==> a.analyzer != b.analyzer
            &&& found.contains(DefinitionField::PositionsEnabled) <==> a.positions_enabled
                != b.positions_enabled
            &&& !found.contains(DefinitionField::Family)
        }),
{
    law_differences_are_exact(left, right);
}

/// Definitions of two families are reported to differ in their family and in nothing else,
/// and no difference is reported twice.
pub proof fn law_families_differ_as_a_whole(left: DefinitionShape, right: DefinitionShape)
    ensures
        differing(left, right).no_duplicates(),
        (left is Secondary && !(right is Secondary)) || (left is Vector && !(right is Vector)) || (
        left is Text && !(right is Text)) ==> forall|field: DefinitionField| #[trigger]
            differing(left, right).contains(field) <==> field is Family,
{
    law_differences_are_exact(left, right);
    let all = every_field();
    assert(all.no_duplicates());
    let differs = |field: DefinitionField| differ_in(left, right, field);
    lemma_filter_keeps_distinct(all, differs);
}

proof fn lemma_filter_keeps_distinct(
    fields: Seq<DefinitionField>,
    keep: spec_fn(DefinitionField) -> bool,
)
    requires
        fields.no_duplicates(),
    ensures
        fields.filter(keep).no_duplicates(),
        forall|i: int|
            0 <= i < fields.filter(keep).len() ==> fields.contains(
                #[trigger] fields.filter(keep)[i],
            ),
    decreases fields.len(),
{
    reveal(Seq::filter);
    if fields.len() > 0 {
        let before = fields.drop_last();
        assert(before.no_duplicates());
        lemma_filter_keeps_distinct(before, keep);
        let kept = fields.filter(keep);
        assert forall|i: int| 0 <= i < kept.len() implies fields.contains(#[trigger] kept[i]) by {
            if i < before.filter(keep).len() {
                let at = before.index_of(before.filter(keep)[i]);
                assert(before.contains(before.filter(keep)[i]));
                assert(fields[at] == kept[i]);
            } else {
                assert(fields[fields.len() - 1] == kept[i]);
            }
        }
        assert forall|i: int, j: int| 0 <= i < j < kept.len() implies kept[i] != kept[j] by {
            if j == before.filter(keep).len() {
                assert(before.contains(before.filter(keep)[i]));
                let at = before.index_of(before.filter(keep)[i]);
                assert(fields[at] != fields[fields.len() - 1]);
            }
        }
    }
}

} // verus!
