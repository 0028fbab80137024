//! Index definitions of the legacy catalog and of the current one.
use vstd::prelude::*;

use crate::error::HelixDbError;
use crate::text::joined3;

verus! {

/// Graph element that an index covers.
#[derive(Debug, Clone, Copy, PartialEq, Eq, Structural)]
pub enum IndexElementKind {
    Node,
    Edge,
}

/// Lookup that a secondary index serves.
#[derive(Debug, Clone, Copy, PartialEq, Eq, Structural)]
pub enum SecondaryIndexKind {
    Equality,
    Range,
}

/// Order in which a range index is stored.
#[derive(Debug, Clone, Copy, PartialEq, Eq, Structural)]
pub enum RangeIndexDirection {
    Asc,
    Desc,
}

/// Distance that a vector index ranks by.
#[derive(Debug, Clone, Copy, PartialEq, Eq, Structural)]
pub enum VectorDistanceMetric {
    Cosine,
    Euclidean,
    Manhattan,
}

/// Text analyzer, by its stable number.
#[derive(Debug, Clone, Copy, PartialEq, Eq, Structural)]
pub struct TextAnalyzerKind(pub u8);

/// Family of an index definition.
#[derive(Debug, Clone, Copy, PartialEq, Eq, Structural)]
pub enum IndexDefinitionFamily {
    Secondary,
    Vector,
    Text,
}

/// Family part of a logical index identity.
#[derive(Debug, Clone, Copy, PartialEq, Eq, Structural)]
pub enum IndexIdentityFamily {
    SecondaryEquality,
    SecondaryRange,
    Vector,
    Text,
}

/// A secondary definition as a mathematical value.
#[verifier::ext_equal]
pub struct SecondaryShape {
    pub element_type: IndexElementKind,
    pub kind: SecondaryIndexKind,
    pub label: Seq<char>,
    pub property: Seq<char>,
    pub unique: bool,
    pub direction: RangeIndexDirection,
}

impl SecondaryShape {
    /// Whether the settings belong together: only node equality can be unique,
    /// and only a range can be stored in descending order.
    pub open spec fn is_coherent(self) -> bool {
        &&& self.unique ==> self.element_type is Node && self.kind is Equality
        &&& self.direction is Desc ==> self.kind is Range
    }

    /// The failure that names what does not belong together.
    pub open spec fn incoherence(self, error: HelixDbError) -> bool {
        if self.unique {
            error.is_config(
                "invalid legacy unique secondary definition: "@ + element_name(self.element_type)
                    + " "@ + kind_name(self.kind),
            )
        } else {
            error.is_config("legacy equality definition has descending direction"@)
        }
    }

    /// Whether the current form takes the definition: its settings belong together, and
    /// the constructors of the form do not refuse it.
    pub open spec fn is_admitted(self, refusal: Option<Seq<char>>) -> bool {
        self.is_coherent() && refusal is None
    }

    /// The failure of a definition that is not taken.
    pub open spec fn is_refused_with(self, refusal: Option<Seq<char>>, error: HelixDbError) -> bool {
        if self.is_coherent() {
            refusal matches Some(text) && error.is_config(text)
        } else {
            self.incoherence(error)
        }
    }
}

/// Diagnostic name of an element.
pub open spec fn element_name(element: IndexElementKind) -> Seq<char> {
    match element {
        IndexElementKind::Node => "Node"@,
        IndexElementKind::Edge => "Edge"@,
    }
}

/// Diagnostic name of a secondary kind.
pub open spec fn kind_name(kind: SecondaryIndexKind) -> Seq<char> {
    match kind {
        SecondaryIndexKind::Equality => "Equality"@,
        SecondaryIndexKind::Range => "Range"@,
    }
}

/// A vector definition as a mathematical value.
#[verifier::ext_equal]
pub struct VectorShape {
    pub element_type: IndexElementKind,
    pub label: Seq<char>,
    pub property: Seq<char>,
    pub tenant_property: Option<Seq<char>>,
    pub dimension: int,
    pub metric: VectorDistanceMetric,
    pub m: int,
    pub m0: int,
    pub ef_construction: int,
    pub ml_bits: u32,
    pub simhash_threshold: int,
    pub sampling_ratio_bits: u32,
    pub adaptive_enabled: bool,
    pub adaptive_failure_prob_bits: u32,
}

/// A text definition as a mathematical value.
#[verifier::ext_equal]
pub struct TextShape {
    pub element_type: IndexElementKind,
    pub label: Seq<char>,
    pub property: Seq<char>,
    pub tenant_property: Option<Seq<char>>,
    pub analyzer: TextAnalyzerKind,
    pub positions_enabled: bool,
}

/// A definition of any family as a mathematical value.
#[verifier::ext_equal]
pub enum DefinitionShape {
    Secondary(SecondaryShape),
    Vector(VectorShape),
    Text(TextShape),
}

/// A logical identity as a mathematical value.
#[verifier::ext_equal]
pub struct IdentityShape {
    pub family: IndexIdentityFamily,
    pub element_kind: IndexElementKind,
    pub label: Seq<char>,
    pub property: Seq<char>,
}

/// A legacy catalog key as a mathematical value.
#[verifier::ext_equal]
pub enum LegacyKeyShape {
    Secondary(SecondaryShape),
    Vector { element_type: IndexElementKind, label: Seq<char>, property: Seq<char> },
    Text { element_type: IndexElementKind, label: Seq<char>, property: Seq<char> },
}

/// Optional text as a mathematical value.
pub open spec fn text_option(text: Option<String>) -> Option<Seq<char>> {
    match text {
        Some(text) => Some(text@),
        None => None,
    }
}

impl SecondaryShape {
    /// The identity of the definition: settings other than its kind are no part of it.
    pub open spec fn identity(self) -> IdentityShape {
        IdentityShape {
            family: match self.kind {
                SecondaryIndexKind::Equality => IndexIdentityFamily::SecondaryEquality,
                SecondaryIndexKind::Range => IndexIdentityFamily::SecondaryRange,
            },
            element_kind: self.element_type,
            label: self.label,
            property: self.property,
        }
    }
}

impl DefinitionShape {
    /// The identity of the definition.
    pub open spec fn identity(self) -> IdentityShape {
        match self {
            DefinitionShape::Secondary(shape) => shape.identity(),
            DefinitionShape::Vector(shape) => IdentityShape {
                family: IndexIdentityFamily::Vector,
                element_kind: shape.element_type,
                label: shape.label,
                property: shape.property,
            },
            DefinitionShape::Text(shape) => IdentityShape {
                family: IndexIdentityFamily::Text,
                element_kind: shape.element_type,
                label: shape.label,
                property: shape.property,
            },
        }
    }

    /// The key under which the legacy catalog holds the definition.
    pub open spec fn legacy_key(self) -> LegacyKeyShape {
        match self {
            DefinitionShape::Secondary(shape) => LegacyKeyShape::Secondary(shape),
            DefinitionShape::Vector(shape) => LegacyKeyShape::Vector {
                element_type: shape.element_type,
                label: shape.label,
                property: shape.property,
            },
            DefinitionShape::Text(shape) => LegacyKeyShape::Text {
                element_type: shape.element_type,
                label: shape.label,
                property: shape.property,
            },
        }
    }

    /// Whether the settings of the definition belong together.
    pub open spec fn is_coherent(self) -> bool {
        self matches DefinitionShape::Secondary(shape) ==> shape.is_coherent()
    }

    /// Whether the current form takes the definition.
    pub open spec fn is_admitted(self, refusal: Option<Seq<char>>) -> bool {
        self.is_coherent() && refusal is None
    }

    /// The failure of a definition that is not taken.
    pub open spec fn is_refused_with(self, refusal: Option<Seq<char>>, error: HelixDbError) -> bool {
        if self.is_coherent() {
            refusal matches Some(text) && error.is_config(text)
        } else {
            self->Secondary_0.incoherence(error)
        }
    }
}

impl LegacyKeyShape {
    /// Whether the key names an index that can exist.
    pub open spec fn is_coherent(self) -> bool {
        self matches LegacyKeyShape::Secondary(shape) ==> shape.is_coherent()
    }

    /// Whether the current catalog takes the identity of the key.
    pub open spec fn is_admitted(self, refusal: Option<Seq<char>>) -> bool {
        self.is_coherent() && refusal is None
    }

    /// The failure of an identity that is not taken.
    pub open spec fn is_refused_with(self, refusal: Option<Seq<char>>, error: HelixDbError) -> bool {
        if self.is_coherent() {
            refusal matches Some(text) && error.is_config(text)
        } else {
            self->Secondary_0.incoherence(error)
        }
    }

    /// The identity that the key stands for.
    pub open spec fn identity(self) -> IdentityShape {
        match self {
            LegacyKeyShape::Secondary(shape) => shape.identity(),
            LegacyKeyShape::Vector { element_type, label, property } => IdentityShape {
                family: IndexIdentityFamily::Vector,
                element_kind: element_type,
                label,
                property,
            },
            LegacyKeyShape::Text { element_type, label, property } => IdentityShape {
                family: IndexIdentityFamily::Text,
                element_kind: element_type,
                label,
                property,
            },
        }
    }
}

/// Secondary definition of the current catalog.
#[derive(Debug, PartialEq, Eq)]
pub struct SecondaryIndexDefinition {
    pub element_type: IndexElementKind,
    pub kind: SecondaryIndexKind,
    pub label: String,
    pub property: String,
    pub unique: bool,
    pub direction: RangeIndexDirection,
}

/// Vector definition of the current catalog.
///
/// Ratios and probabilities are carried as the bit patterns of their numbers.
#[derive(Debug, PartialEq, Eq)]
pub struct VectorIndexDefinition {
    pub element_type: IndexElementKind,
    pub label: String,
    pub property: String,
    pub tenant_property: Option<String>,
    pub dimension: u64,
    pub metric: VectorDistanceMetric,
    pub m: u64,
    pub m0: u64,
    pub ef_construction: u64,
    pub ml_bits: u32,
    pub simhash_threshold: u64,
    pub sampling_ratio_bits: u32,
    pub adaptive_enabled: bool,
    pub adaptive_failure_prob_bits: u32,
}

/// Text definition of the current catalog.
#[derive(Debug, PartialEq, Eq)]
pub struct TextIndexDefinition {
    pub element_type: IndexElementKind,
    pub label: String,
    pub property: String,
    pub tenant_property: Option<String>,
    pub analyzer: TextAnalyzerKind,
    pub positions_enabled: bool,
}

/// Definition of the current catalog.
#[derive(Debug, PartialEq, Eq)]
pub enum ValidatedDynamicIndexDefinition {
    Secondary(SecondaryIndexDefinition),
    Vector(VectorIndexDefinition),
    Text(TextIndexDefinition),
}

/// Secondary definition of the legacy catalog.
#[derive(Debug, PartialEq, Eq)]
pub struct LegacySecondaryIndexDefinition {
    pub element_type: IndexElementKind,
    pub kind: SecondaryIndexKind,
    pub label: String,
    pub property: String,
    pub unique: bool,
    pub direction: RangeIndexDirection,
}

/// Vector definition of the legacy catalog.
///
/// Ratios and probabilities are carried as the bit patterns of their numbers.
#[derive(Debug, PartialEq, Eq)]
pub struct LegacyVectorIndexDefinition {
    pub element_type: IndexElementKind,
    pub label: String,
    pub property: String,
    pub tenant_property: Option<String>,
    pub dimension: usize,
    pub metric: VectorDistanceMetric,
    pub m: usize,
    pub m0: usize,
    pub ef_construction: usize,
    pub ml_bits: u32,
    pub simhash_threshold: usize,
    pub sampling_ratio_bits: u32,
    pub adaptive_enabled: bool,
    pub adaptive_failure_prob_bits: u32,
}

/// Text definition of the legacy catalog.
#[derive(Debug, PartialEq, Eq)]
pub struct LegacyTextIndexDefinition {
    pub element_type: IndexElementKind,
    pub label: String,
    pub property: String,
    pub tenant_property: Option<String>,
    pub analyzer: TextAnalyzerKind,
    pub positions_enabled: bool,
}

/// Definition of the legacy catalog.
#[derive(Debug, PartialEq, Eq)]
pub enum LegacyDynamicIndexDefinition {
    Secondary(LegacySecondaryIndexDefinition),
    Vector(LegacyVectorIndexDefinition),
    Text(LegacyTextIndexDefinition),
}

/// One row of the legacy catalog.
#[derive(Debug, PartialEq, Eq)]
pub enum LegacyDynamicIndexCatalogEntry {
    Definition(LegacyDynamicIndexDefinition),
    Tombstone { tombstone: bool },
}

/// Identity under which the legacy catalog holds a row.
#[derive(Debug, PartialEq, Eq)]
pub enum LegacyDynamicIndexKey {
    Secondary(LegacySecondaryIndexDefinition),
    Vector { element_type: IndexElementKind, label: String, property: String },
    Text { element_type: IndexElementKind, label: String, property: String },
}

/// Logical identity of an index.
#[derive(Debug, PartialEq, Eq)]
pub struct IndexIdentity {
    pub family: IndexIdentityFamily,
    pub element_kind: IndexElementKind,
    pub label: String,
    pub property: String,
}

impl View for IndexIdentity {
    type V = IdentityShape;

    open spec fn view(&self) -> IdentityShape {
        IdentityShape {
            family: self.family,
            element_kind: self.element_kind,
            label: self.label@,
            property: self.property@,
        }
    }
}

impl View for SecondaryIndexDefinition {
    type V = SecondaryShape;

    open spec fn view(&self) -> SecondaryShape {
        SecondaryShape {
            element_type: self.element_type,
            kind: self.kind,
            label: self.label@,
            property: self.property@,
            unique: self.unique,
            direction: self.direction,
        }
    }
}

impl View for LegacySecondaryIndexDefinition {
    type V = SecondaryShape;

    open spec fn view(&self) -> SecondaryShape {
        SecondaryShape {
            element_type: self.element_type,
            kind: self.kind,
            label: self.label@,
            property: self.property@,
            unique: self.unique,
            direction: self.direction,
        }
    }
}

impl View for VectorIndexDefinition {
    type V = VectorShape;

    open spec fn view(&self) -> VectorShape {
        VectorShape {
            element_type: self.element_type,
            label: self.label@,
            property: self.property@,
            tenant_property: text_option(self.tenant_property),
            dimension: self.dimension as int,
            metric: self.metric,
            m: self.m as int,
            m0: self.m0 as int,
            ef_construction: self.ef_construction as int,
            ml_bits: self.ml_bits,
            simhash_threshold: self.simhash_threshold as int,
            sampling_ratio_bits: self.sampling_ratio_bits,
            adaptive_enabled: self.adaptive_enabled,
            adaptive_failure_prob_bits: self.adaptive_failure_prob_bits,
        }
    }
}

impl View for LegacyVectorIndexDefinition {
    type V = VectorShape;

    open spec fn view(&self) -> VectorShape {
        VectorShape {
            element_type: self.element_type,
            label: self.label@,
            property: self.property@,
            tenant_property: text_option(self.tenant_property),
            dimension: self.dimension as int,
            metric: self.metric,
            m: self.m as int,
            m0: self.m0 as int,
            ef_construction: self.ef_construction as int,
            ml_bits: self.ml_bits,
            simhash_threshold: self.simhash_threshold as int,
            sampling_ratio_bits: self.sampling_ratio_bits,
            adaptive_enabled: self.adaptive_enabled,
            adaptive_failure_prob_bits: self.adaptive_failure_prob_bits,
        }
    }
}

impl View for TextIndexDefinition {
    type V = TextShape;

    open spec fn view(&self) -> TextShape {
        TextShape {
            element_type: self.element_type,
            label: self.label@,
            property: self.property@,
            tenant_property: text_option(self.tenant_property),
            analyzer: self.analyzer,
            positions_enabled: self.positions_enabled,
        }
    }
}

impl View for LegacyTextIndexDefinition {
    type V = TextShape;

    open spec fn view(&self) -> TextShape {
        TextShape {
            element_type: self.element_type,
            label: self.label@,
            property: self.property@,
            tenant_property: text_option(self.tenant_property),
            analyzer: self.analyzer,
            positions_enabled: self.positions_enabled,
        }
    }
}

impl View for ValidatedDynamicIndexDefinition {
    type V = DefinitionShape;

    open spec fn view(&self) -> DefinitionShape {
        match self {
            ValidatedDynamicIndexDefinition::Secondary(definition) => DefinitionShape::Secondary(
                definition@,
            ),
            ValidatedDynamicIndexDefinition::Vector(definition) => DefinitionShape::Vector(
                definition@,
            ),
            ValidatedDynamicIndexDefinition::Text(definition) => DefinitionShape::Text(definition@),
        }
    }
}

impl View for LegacyDynamicIndexDefinition {
    type V = DefinitionShape;

    open spec fn view(&self) -> DefinitionShape {
        match self {
            LegacyDynamicIndexDefinition::Secondary(definition) => DefinitionShape::Secondary(
                definition@,
            ),
            LegacyDynamicIndexDefinition::Vector(definition) => DefinitionShape::Vector(
                definition@,
            ),
            LegacyDynamicIndexDefinition::Text(definition) => DefinitionShape::Text(definition@),
        }
    }
}

impl View for LegacyDynamicIndexKey {
    type V = LegacyKeyShape;

    open spec fn view(&self) -> LegacyKeyShape {
        match self {
            LegacyDynamicIndexKey::Secondary(definition) => LegacyKeyShape::Secondary(definition@),
            LegacyDynamicIndexKey::Vector { element_type, label, property } =>
                LegacyKeyShape::Vector {
                    element_type: *element_type,
                    label: label@,
                    property: property@,
                },
            LegacyDynamicIndexKey::Text { element_type, label, property } =>
                LegacyKeyShape::Text {
                    element_type: *element_type,
                    label: label@,
                    property: property@,
                },
        }
    }
}

fn element_text(element: IndexElementKind) -> (name: &'static str)
    ensures
        name@ == element_name(element),
{
    match element {
        IndexElementKind::Node => "Node",
        IndexElementKind::Edge => "Edge",
    }
}

fn kind_text(kind: SecondaryIndexKind) -> (name: &'static str)
    ensures
        name@ == kind_name(kind),
{
    match kind {
        SecondaryIndexKind::Equality => "Equality",
        SecondaryIndexKind::Range => "Range",
    }
}

pub(crate) fn option_text_copy(text: &Option<String>) -> (copy: Option<String>)
    ensures
        text_option(copy) == text_option(*text),
{
    match text {
        Some(text) => Some(text.clone()),
        None => None,
    }
}

pub(crate) fn option_text_same(left: &Option<String>, right: &Option<String>) -> (same: bool)
    ensures
        same == (text_option(*left) == text_option(*right)),
{
    match (left, right) {
        (None, None) => true,
        (Some(left), Some(right)) => *left == *right,
        _ => false,
    }
}

impl LegacySecondaryIndexDefinition {
    /// A copy of the definition.
    pub fn duplicate(&self) -> (copy: Self)
        ensures
            copy@ == self@,
    {
        LegacySecondaryIndexDefinition {
            element_type: self.element_type,
            kind: self.kind,
            label: self.label.clone(),
            property: self.property.clone(),
            unique: self.unique,
            direction: self.direction,
        }
    }

    /// Whether two definitions agree in every setting.
    pub fn same_as(&self, other: &Self) -> (same: bool)
        ensures
            same == (self@ == other@),
    {
        let same = self.element_type == other.element_type && self.kind == other.kind && self.label
            == other.label && self.property == other.property && self.unique == other.unique
            && self.direction == other.direction;
        same
    }

    /// Takes the definition into the current catalog's form.
    ///
    /// `refusal` is what the constructors of that form have against the settings, if
    /// anything; they are asked only where the settings belong together.
    pub fn into_runtime(self, refusal: Option<String>) -> (definition: Result<
        SecondaryIndexDefinition,
        HelixDbError,
    >)
        ensures
            definition is Ok <==> self@.is_admitted(text_option(refusal)),
            definition matches Ok(definition) ==> definition@ == self@,
            definition matches Err(error) ==> self@.is_refused_with(text_option(refusal), error),
            (self.kind is Range && !self.unique && refusal is None) ==> definition is Ok,
            (self.kind is Equality && self.direction is Asc && (self.element_type is Node
                || !self.unique) && refusal is None) ==> definition is Ok,
            definition matches Ok(definition) ==> {
                &&& definition.element_type == self.element_type
                &&& definition.kind == self.kind
                &&& definition.label@ == self.label@
                &&& definition.property@ == self.property@
                &&& definition.unique == self.unique
                &&& definition.direction == self.direction
            },
    {
        let coherent = match (self.element_type, self.kind, self.unique, self.direction) {
            (
                IndexElementKind::Node,
                SecondaryIndexKind::Equality,
                _,
                RangeIndexDirection::Asc,
            ) => true,
            (IndexElementKind::Edge, SecondaryIndexKind::Equality, false, RangeIndexDirection::Asc)
                => true,
            (_, SecondaryIndexKind::Range, false, _) => true,
            _ => false,
        };
        if coherent {
            match refusal {
                Some(text) => Err(HelixDbError::Config(text)),
                None => Ok(
                    SecondaryIndexDefinition {
                        element_type: self.element_type,
                        kind: self.kind,
                        label: self.label,
                        property: self.property,
                        unique: self.unique,
                        direction: self.direction,
                    },
                ),
            }
        } else if self.unique {
            let subject = joined3(
                "invalid legacy unique secondary definition: ",
                element_text(self.element_type),
                " ",
            );
            Err(
                HelixDbError::Config(
                    crate::text::joined(subject.as_str(), kind_text(self.kind)),
                ),
            )
        } else {
            Err(
                HelixDbError::Config(
                    "legacy equality definition has descending direction".to_owned(),
                ),
            )
        }
    }
}

impl LegacyVectorIndexDefinition {
    /// Takes the definition into the current catalog's form.
    ///
    /// `refusal` is what the constructors of that form have against the settings, if
    /// anything.
    pub fn into_runtime(self, refusal: Option<String>) -> (definition: Result<
        VectorIndexDefinition,
        HelixDbError,
    >)
        ensures
            match refusal {
                None => definition matches Ok(definition) && definition@ == self@,
                Some(text) => definition matches Err(error) && error.is_config(text@),
            },
            definition matches Ok(definition) ==> {
                &&& definition.element_type == self.element_type
                &&& definition.label@ == self.label@
                &&& definition.property@ == self.property@
                &&& definition.dimension == self.dimension
                &&& definition.metric == self.metric
                &&& definition.m == self.m
                &&& definition.m0 == self.m0
                &&& definition.ef_construction == self.ef_construction
                &&& definition.ml_bits == self.ml_bits
                &&& definition.simhash_threshold == self.simhash_threshold
                &&& definition.sampling_ratio_bits == self.sampling_ratio_bits
                &&& definition.adaptive_enabled == self.adaptive_enabled
                &&& definition.adaptive_failure_prob_bits == self.adaptive_failure_prob_bits
                &&& definition.tenant_property is Some <==> self.tenant_property is Some
                &&& self.tenant_property is Some ==> definition.tenant_property->0@
                    == self.tenant_property->0@
            },
    {
        if let Some(text) = refusal {
            return Err(HelixDbError::Config(text));
        }
        Ok(
            VectorIndexDefinition {
                element_type: self.element_type,
                label: self.label,
                property: self.property,
                tenant_property: self.tenant_property,
                dimension: self.dimension as u64,
                metric: self.metric,
                m: self.m as u64,
                m0: self.m0 as u64,
                ef_construction: self.ef_construction as u64,
                ml_bits: self.ml_bits,
                simhash_threshold: self.simhash_threshold as u64,
                sampling_ratio_bits: self.sampling_ratio_bits,
                adaptive_enabled: self.adaptive_enabled,
                adaptive_failure_prob_bits: self.adaptive_failure_prob_bits,
            },
        )
    }

    /// A copy of the definition.
    pub fn duplicate(&self) -> (copy: Self)
        ensures
            copy@ == self@,
    {
        LegacyVectorIndexDefinition {
            element_type: self.element_type,
            label: self.label.clone(),
            property: self.property.clone(),
            tenant_property: option_text_copy(&self.tenant_property),
            dimension: self.dimension,
            metric: self.metric,
            m: self.m,
            m0: self.m0,
            ef_construction: self.ef_construction,
            ml_bits: self.ml_bits,
            simhash_threshold: self.simhash_threshold,
            sampling_ratio_bits: self.sampling_ratio_bits,
            adaptive_enabled: self.adaptive_enabled,
            adaptive_failure_prob_bits: self.adaptive_failure_prob_bits,
        }
    }
}

impl VectorIndexDefinition {
    /// A copy of the definition.
    pub fn duplicate(&self) -> (copy: Self)
        ensures
            copy@ == self@,
    {
        VectorIndexDefinition {
            element_type: self.element_type,
            label: self.label.clone(),
            property: self.property.clone(),
            tenant_property: option_text_copy(&self.tenant_property),
            dimension: self.dimension,
            metric: self.metric,
            m: self.m,
            m0: self.m0,
            ef_construction: self.ef_construction,
            ml_bits: self.ml_bits,
            simhash_threshold: self.simhash_threshold,
            sampling_ratio_bits: self.sampling_ratio_bits,
            adaptive_enabled: self.adaptive_enabled,
            adaptive_failure_prob_bits: self.adaptive_failure_prob_bits,
        }
    }

    /// Whether two definitions agree in every setting.
    pub fn same_as(&self, other: &Self) -> (same: bool)
        ensures
            same == (self@ == other@),
    {
        self.element_type == other.element_type && self.label == other.label && self.property
            == other.property && option_text_same(&self.tenant_property, &other.tenant_property)
            && self.dimension == other.dimension && self.metric == other.metric && self.m == other.m
            && self.m0 == other.m0 && self.ef_construction == other.ef_construction && self.ml_bits
            == other.ml_bits && self.simhash_threshold == other.simhash_threshold
            && self.sampling_ratio_bits == other.sampling_ratio_bits && self.adaptive_enabled
            == other.adaptive_enabled && self.adaptive_failure_prob_bits
            == other.adaptive_failure_prob_bits
    }
}

impl LegacyTextIndexDefinition {
    /// Takes the definition into the current catalog's form.
    ///
    /// `refusal` is what the constructors of that form have against the settings, if
    /// anything.
    pub fn into_runtime(self, refusal: Option<String>) -> (definition: Result<
        TextIndexDefinition,
        HelixDbError,
    >)
        ensures
            match refusal {
                None => definition matches Ok(definition) && definition@ == self@,
                Some(text) => definition matches Err(error) && error.is_config(text@),
            },
    {
        if let Some(text) = refusal {
            return Err(HelixDbError::Config(text));
        }
        Ok(
            TextIndexDefinition {
                element_type: self.element_type,
                label: self.label,
                property: self.property,
                tenant_property: self.tenant_property,
                analyzer: self.analyzer,
                positions_enabled: self.positions_enabled,
            },
        )
    }

    /// A copy of the definition.
    pub fn duplicate(&self) -> (copy: Self)
        ensures
            copy@ == self@,
    {
        LegacyTextIndexDefinition {
            element_type: self.element_type,
            label: self.label.clone(),
            property: self.property.clone(),
            tenant_property: option_text_copy(&self.tenant_property),
            analyzer: self.analyzer,
            positions_enabled: self.positions_enabled,
        }
    }
}

impl LegacyDynamicIndexDefinition {
    /// The key under which the legacy catalog holds the definition.
    pub fn key(&self) -> (key: LegacyDynamicIndexKey)
        ensures
            key@ == self@.legacy_key(),
    {
        match self {
            LegacyDynamicIndexDefinition::Secondary(definition) =>
                LegacyDynamicIndexKey::Secondary(definition.duplicate()),
            LegacyDynamicIndexDefinition::Vector(definition) => LegacyDynamicIndexKey::Vector {
                element_type: definition.element_type,
                label: definition.label.clone(),
                property: definition.property.clone(),
            },
            LegacyDynamicIndexDefinition::Text(definition) => LegacyDynamicIndexKey::Text {
                element_type: definition.element_type,
                label: definition.label.clone(),
                property: definition.property.clone(),
            },
        }
    }

    /// A copy of the definition.
    pub fn duplicate(&self) -> (copy: Self)
        ensures
            copy@ == self@,
    {
        match self {
            LegacyDynamicIndexDefinition::Secondary(definition) =>
                LegacyDynamicIndexDefinition::Secondary(definition.duplicate()),
            LegacyDynamicIndexDefinition::Vector(definition) =>
                LegacyDynamicIndexDefinition::Vector(definition.duplicate()),
            LegacyDynamicIndexDefinition::Text(definition) =>
                LegacyDynamicIndexDefinition::Text(definition.duplicate()),
        }
    }

    /// Takes the definition into the current catalog's form.
    ///
    /// `refusal` is what the constructors of that form have against the settings, if
    /// anything.
    pub fn into_validated(self, refusal: Option<String>) -> (definition: Result<
        ValidatedDynamicIndexDefinition,
        HelixDbError,
    >)
        ensures
            definition is Ok <==> self@.is_admitted(text_option(refusal)),
            definition matches Ok(definition) ==> definition@ == self@,
            definition matches Err(error) ==> self@.is_refused_with(text_option(refusal), error),
    {
        match self {
            LegacyDynamicIndexDefinition::Secondary(definition) => {
                match definition.into_runtime(refusal) {
                    Ok(definition) => Ok(ValidatedDynamicIndexDefinition::Secondary(definition)),
                    Err(error) => Err(error),
                }
            },
            LegacyDynamicIndexDefinition::Vector(definition) => {
                match definition.into_runtime(refusal) {
                    Ok(definition) => Ok(ValidatedDynamicIndexDefinition::Vector(definition)),
                    Err(error) => Err(error),
                }
            },
            LegacyDynamicIndexDefinition::Text(definition) => {
                match definition.into_runtime(refusal) {
                    Ok(definition) => Ok(ValidatedDynamicIndexDefinition::Text(definition)),
                    Err(error) => Err(error),
                }
            },
        }
    }
}

impl SecondaryIndexDefinition {
    /// A copy of the definition.
    pub fn duplicate(&self) -> (copy: Self)
        ensures
            copy@ == self@,
    {
        SecondaryIndexDefinition {
            element_type: self.element_type,
            kind: self.kind,
            label: self.label.clone(),
            property: self.property.clone(),
            unique: self.unique,
            direction: self.direction,
        }
    }

    /// The identity of the definition.
    pub fn identity(&self) -> (identity: IndexIdentity)
        ensures
            identity@ == self@.identity(),
    {
        IndexIdentity {
            family: match self.kind {
                SecondaryIndexKind::Equality => IndexIdentityFamily::SecondaryEquality,
                SecondaryIndexKind::Range => IndexIdentityFamily::SecondaryRange,
            },
            element_kind: self.element_type,
            label: self.label.clone(),
            property: self.property.clone(),
        }
    }

    /// Whether two definitions agree in every setting.
    pub fn same_as(&self, other: &Self) -> (same: bool)
        ensures
            same == (self@ == other@),
    {
        self.element_type == other.element_type && self.kind == other.kind && self.label
            == other.label && self.property == other.property && self.unique == other.unique
            && self.direction == other.direction
    }
}

impl TextIndexDefinition {
    /// A copy of the definition.
    pub fn duplicate(&self) -> (copy: Self)
        ensures
            copy@ == self@,
    {
        TextIndexDefinition {
            element_type: self.element_type,
            label: self.label.clone(),
            property: self.property.clone(),
            tenant_property: option_text_copy(&self.tenant_property),
            analyzer: self.analyzer,
            positions_enabled: self.positions_enabled,
        }
    }

    /// Whether two definitions agree in every setting.
    pub fn same_as(&self, other: &Self) -> (same: bool)
        ensures
            same == (self@ == other@),
    {
        self.element_type == other.element_type && self.label == other.label && self.property
            == other.property && option_text_same(&self.tenant_property, &other.tenant_property)
            && self.analyzer == other.analyzer && self.positions_enabled == other.positions_enabled
    }
}

impl ValidatedDynamicIndexDefinition {
    /// A copy of the definition.
    pub fn duplicate(&self) -> (copy: Self)
        ensures
            copy@ == self@,
    {
        match self {
            ValidatedDynamicIndexDefinition::Secondary(definition) =>
                ValidatedDynamicIndexDefinition::Secondary(definition.duplicate()),
            ValidatedDynamicIndexDefinition::Vector(definition) =>
                ValidatedDynamicIndexDefinition::Vector(definition.duplicate()),
            ValidatedDynamicIndexDefinition::Text(definition) =>
                ValidatedDynamicIndexDefinition::Text(definition.duplicate()),
        }
    }

    /// The identity of the definition.
    pub fn identity(&self) -> (identity: IndexIdentity)
        ensures
            identity@ == self@.identity(),
    {
        match self {
            ValidatedDynamicIndexDefinition::Secondary(definition) => definition.identity(),
            ValidatedDynamicIndexDefinition::Vector(definition) => IndexIdentity {
                family: IndexIdentityFamily::Vector,
                element_kind: definition.element_type,
                label: definition.label.clone(),
                property: definition.property.clone(),
            },
            ValidatedDynamicIndexDefinition::Text(definition) => IndexIdentity {
                family: IndexIdentityFamily::Text,
                element_kind: definition.element_type,
                label: definition.label.clone(),
                property: definition.property.clone(),
            },
        }
    }

    /// The family of the definition.
    pub fn family(&self) -> (family: IndexDefinitionFamily)
        ensures
            family is Secondary <==> self@ is Secondary,
            family is Vector <==> self@ is Vector,
            family is Text <==> self@ is Text,
    {
        match self {
            ValidatedDynamicIndexDefinition::Secondary(_) => IndexDefinitionFamily::Secondary,
            ValidatedDynamicIndexDefinition::Vector(_) => IndexDefinitionFamily::Vector,
            ValidatedDynamicIndexDefinition::Text(_) => IndexDefinitionFamily::Text,
        }
    }

    /// Whether two definitions agree in every setting.
    pub fn same_as(&self, other: &Self) -> (same: bool)
        ensures
            same == (self@ == other@),
    {
        match (self, other) {
            (
                ValidatedDynamicIndexDefinition::Secondary(left),
                ValidatedDynamicIndexDefinition::Secondary(right),
            ) => left.same_as(right),
            (
                ValidatedDynamicIndexDefinition::Vector(left),
                ValidatedDynamicIndexDefinition::Vector(right),
            ) => left.same_as(right),
            (
                ValidatedDynamicIndexDefinition::Text(left),
                ValidatedDynamicIndexDefinition::Text(right),
            ) => left.same_as(right),
            _ => false,
        }
    }
}

impl IndexIdentity {
    /// Whether two identities name the same index.
    pub fn same_as(&self, other: &Self) -> (same: bool)
        ensures
            same == (self@ == other@),
    {
        self.family == other.family && self.element_kind == other.element_kind && self.label
            == other.label && self.property == other.property
    }
}

impl LegacyDynamicIndexKey {
    /// Whether two keys are the same.
    pub fn same_as(&self, other: &Self) -> (same: bool)
        ensures
            same == (self@ == other@),
    {
        match (self, other) {
            (
                LegacyDynamicIndexKey::Secondary(left),
                LegacyDynamicIndexKey::Secondary(right),
            ) => left.same_as(right),
            (
                LegacyDynamicIndexKey::Vector { element_type, label, property },
                LegacyDynamicIndexKey::Vector {
                    element_type: other_type,
                    label: other_label,
                    property: other_property,
                },
            ) => *element_type == *other_type && *label == *other_label && *property
                == *other_property,
            (
                LegacyDynamicIndexKey::Text { element_type, label, property },
                LegacyDynamicIndexKey::Text {
                    element_type: other_type,
                    label: other_label,
                    property: other_property,
                },
            ) => *element_type == *other_type && *label == *other_label && *property
                == *other_property,
            _ => false,
        }
    }

    /// The identity that the key stands for.
    ///
    /// `refusal` is what the constructors of identities have against its label or property,
    /// if anything.
    pub fn identity(&self, refusal: Option<String>) -> (identity: Result<
        IndexIdentity,
        HelixDbError,
    >)
        ensures
            identity is Ok <==> self@.is_admitted(text_option(refusal)),
            identity matches Ok(identity) ==> identity@ == self@.identity(),
            identity matches Err(error) ==> self@.is_refused_with(text_option(refusal), error),
    {
        let (family, element_kind, label, property) = match self {
            LegacyDynamicIndexKey::Secondary(definition) => {
                return match definition.duplicate().into_runtime(refusal) {
                    Ok(definition) => Ok(definition.identity()),
                    Err(error) => Err(error),
                };
            },
            LegacyDynamicIndexKey::Vector { element_type, label, property } => (
                IndexIdentityFamily::Vector,
                *element_type,
                label,
                property,
            ),
            LegacyDynamicIndexKey::Text { element_type, label, property } => (
                IndexIdentityFamily::Text,
                *element_type,
                label,
                property,
            ),
        };
        match refusal {
            Some(text) => Err(HelixDbError::Config(text)),
            None => Ok(
                IndexIdentity {
                    family,
                    element_kind,
                    label: label.clone(),
                    property: property.clone(),
                },
            ),
        }
    }
}

/// A definition and the key that the legacy catalog holds it under name the same
/// index, so taking a definition into the current form never changes its identity.
pub proof fn law_legacy_key_keeps_identity(definition: DefinitionShape)
    ensures
        definition.legacy_key().identity() == definition.identity(),
        definition.legacy_key().is_coherent() == definition.is_coherent(),
{
}

/// Two secondary definitions that differ only in uniqueness or order share their
/// identity, and so conflict.
pub proof fn law_settings_are_no_part_of_identity(left: SecondaryShape, right: SecondaryShape)
    requires
        left.element_type == right.element_type,
        left.kind == right.kind,
        left.label == right.label,
        left.property == right.property,
    ensures
        left.identity() == right.identity(),
{
}

/// A secondary definition is taken exactly where its settings can go together: a range in
/// either order that is not unique, and an ascending equality that is unique on nodes only.
/// Nothing is taken that the constructors refuse.
pub proof fn law_secondary_definitions_are_admitted(
    shape: SecondaryShape,
    refusal: Option<Seq<char>>,
)
    ensures
        refusal is Some ==> !shape.is_admitted(refusal),
        (shape.kind is Range && refusal is None) ==> (shape.is_admitted(refusal) <==> !shape.unique),
        (shape.kind is Equality && shape.direction is Desc) ==> !shape.is_admitted(refusal),
        (shape.kind is Equality && shape.direction is Asc && refusal is None) ==> (
        shape.is_admitted(refusal) <==> !(shape.unique && shape.element_type is Edge)),
        DefinitionShape::Secondary(shape).is_admitted(refusal) <==> shape.is_admitted(refusal),
        LegacyKeyShape::Secondary(shape).is_admitted(refusal) <==> shape.is_admitted(refusal),
{
}

/// Vector and text definitions, and the keys that they stand under, are taken wherever the
/// constructors do not refuse them.
pub proof fn law_vector_and_text_definitions_are_admitted(
    vector: VectorShape,
    text: TextShape,
    element_type: IndexElementKind,
    label: Seq<char>,
    property: Seq<char>,
    refusal: Option<Seq<char>>,
)
    ensures
        DefinitionShape::Vector(vector).is_admitted(refusal) <==> refusal is None,
        DefinitionShape::Text(text).is_admitted(refusal) <==> refusal is None,
        (LegacyKeyShape::Vector { element_type, label, property }).is_admitted(refusal)
            <==> refusal is None,
        (LegacyKeyShape::Text { element_type, label, property }).is_admitted(refusal)
            <==> refusal is None,
{
}

/// A definition that is not taken is refused in the words of what is wrong with it: its
/// uniqueness, else its order, else what the constructors say.
pub proof fn law_refusals_name_what_is_wrong(
    shape: SecondaryShape,
    refusal: Option<Seq<char>>,
    error: HelixDbError,
)
    requires
        shape.is_refused_with(refusal, error),
    ensures
        (shape.unique && shape.element_type is Edge && shape.kind is Equality) ==> error.is_config(
            "invalid legacy unique secondary definition: "@ + "Edge"@ + " "@ + "Equality"@,
        ),
        (shape.unique && shape.element_type is Edge && shape.kind is Range) ==> error.is_config(
            "invalid legacy unique secondary definition: "@ + "Edge"@ + " "@ + "Range"@,
        ),
        (shape.unique && shape.element_type is Node && shape.kind is Range) ==> error.is_config(
            "invalid legacy unique secondary definition: "@ + "Node"@ + " "@ + "Range"@,
        ),
        (shape.unique && shape.element_type is Node && shape.kind is Equality && shape.direction
            is Desc) ==> error.is_config(
            "invalid legacy unique secondary definition: "@ + "Node"@ + " "@ + "Equality"@,
        ),
        (!shape.unique && shape.kind is Equality && shape.direction is Desc) ==> error.is_config(
            "legacy equality definition has descending direction"@,
        ),
        (!shape.unique && shape.kind is Range) ==> (refusal matches Some(text) && error.is_config(
            text,
        )),
        (shape.kind is Equality && shape.direction is Asc && !shape.unique) ==> (refusal matches
            Some(text) && error.is_config(text)),
        DefinitionShape::Secondary(shape).is_refused_with(refusal, error),
        LegacyKeyShape::Secondary(shape).is_refused_with(refusal, error),
{
}

/// The constructors' words reach the caller for vector and text definitions as they are.
pub proof fn law_constructors_speak_for_vectors_and_texts(
    definition: DefinitionShape,
    key: LegacyKeyShape,
    refusal: Option<Seq<char>>,
    error: HelixDbError,
)
    requires
        !(definition is Secondary),
        !(key is Secondary),
    ensures
        definition.is_refused_with(refusal, error) <==> (refusal matches Some(text)
            && error.is_config(text)),
        key.is_refused_with(refusal, error) <==> (refusal matches Some(text) && error.is_config(
            text,
        )),
{
}

/// Two definitions name the same index exactly where they are of one family, secondary
/// ones of one kind too, and cover the same property of the same label of the same element.
pub proof fn law_identities_name_what_is_indexed(left: DefinitionShape, right: DefinitionShape)
    ensures
        left.identity() == right.identity() <==> match (left, right) {
            (DefinitionShape::Secondary(a), DefinitionShape::Secondary(b)) => a.kind == b.kind
                && a.element_type == b.element_type && a.label == b.label && a.property
                == b.property,
            (DefinitionShape::Vector(a), DefinitionShape::Vector(b)) => a.element_type
                == b.element_type && a.label == b.label && a.property == b.property,
            (DefinitionShape::Text(a), DefinitionShape::Text(b)) => a.element_type
                == b.element_type && a.label == b.label && a.property == b.property,
            _ => false,
        },
        left matches DefinitionShape::Secondary(a) ==> left.identity().element_kind
            == a.element_type && left.identity().label == a.label && left.identity().property
            == a.property && (left.identity().family is SecondaryRange <==> a.kind is Range) && (
        left.identity().family is SecondaryEquality <==> a.kind is Equality),
        left matches DefinitionShape::Vector(a) ==> left.identity().family is Vector
            && left.identity().element_kind == a.element_type && left.identity().label == a.label
            && left.identity().property == a.property,
        left matches DefinitionShape::Text(a) ==> left.identity().family is Text
            && left.identity().element_kind == a.element_type && left.identity().label == a.label
            && left.identity().property == a.property,
{
}

/// A legacy key holds the whole of a secondary definition, and what a vector or text
/// definition indexes.
pub proof fn law_legacy_keys_hold_what_they_stand_for(left: DefinitionShape, right: DefinitionShape)
    ensures
        left.legacy_key() == right.legacy_key() <==> match (left, right) {
            (DefinitionShape::Secondary(a), DefinitionShape::Secondary(b)) => a == b,
            (DefinitionShape::Vector(a), DefinitionShape::Vector(b)) => a.element_type
                == b.element_type && a.label == b.label && a.property == b.property,
            (DefinitionShape::Text(a), DefinitionShape::Text(b)) => a.element_type
                == b.element_type && a.label == b.label && a.property == b.property,
            _ => false,
        },
{
}

/// A secondary definition as a mathematical value has every setting of it, in both forms.
pub proof fn law_secondary_settings_are_seen(
    legacy: LegacySecondaryIndexDefinition,
    current: SecondaryIndexDefinition,
)
    ensures
        legacy@.element_type == legacy.element_type && legacy@.kind == legacy.kind
            && legacy@.label == legacy.label@ && legacy@.property == legacy.property@
            && legacy@.unique == legacy.unique && legacy@.direction == legacy.direction,
        current@.element_type == current.element_type && current@.kind == current.kind
            && current@.label == current.label@ && current@.property == current.property@
            && current@.unique == current.unique && current@.direction == current.direction,
{
}

/// A text definition as a mathematical value has every setting of it, in both forms.
pub proof fn law_text_settings_are_seen(
    legacy: LegacyTextIndexDefinition,
    current: TextIndexDefinition,
)
    ensures
        legacy@.element_type == legacy.element_type && legacy@.label == legacy.label@
            && legacy@.property == legacy.property@ && legacy@.analyzer == legacy.analyzer
            && legacy@.positions_enabled == legacy.positions_enabled,
        legacy@.tenant_property is Some <==> legacy.tenant_property is Some,
        legacy.tenant_property matches Some(tenant) ==> legacy@.tenant_property == Some(tenant@),
        current@.element_type == current.element_type && current@.label == current.label@
            && current@.property == current.property@ && current@.analyzer == current.analyzer
            && current@.positions_enabled == current.positions_enabled,
        current@.tenant_property is Some <==> current.tenant_property is Some,
        current.tenant_property matches Some(tenant) ==> current@.tenant_property == Some(tenant@),
{
}

/// A vector definition as a mathematical value has every setting of it, in both forms.
pub proof fn law_vector_settings_are_seen(
    legacy: LegacyVectorIndexDefinition,
    current: VectorIndexDefinition,
)
    ensures
        legacy@.element_type == legacy.element_type && legacy@.label == legacy.label@
            && legacy@.property == legacy.property@ && legacy@.dimension == legacy.dimension
            && legacy@.metric == legacy.metric && legacy@.m == legacy.m && legacy@.m0 == legacy.m0
            && legacy@.ef_construction == legacy.ef_construction && legacy@.ml_bits
            == legacy.ml_bits && legacy@.simhash_threshold == legacy.simhash_threshold
            && legacy@.sampling_ratio_bits == legacy.sampling_ratio_bits
            && legacy@.adaptive_enabled == legacy.adaptive_enabled
            && legacy@.adaptive_failure_prob_bits == legacy.adaptive_failure_prob_bits,
        legacy@.tenant_property is Some <==> legacy.tenant_property is Some,
        legacy.tenant_property matches Some(tenant) ==> legacy@.tenant_property == Some(tenant@),
        current@.element_type == current.element_type && current@.label == current.label@
            && current@.property == current.property@ && current@.dimension == current.dimension
            && current@.metric == current.metric && current@.m == current.m && current@.m0
            == current.m0 && current@.ef_construction == current.ef_construction
            && current@.ml_bits == current.ml_bits && current@.simhash_threshold
            == current.simhash_threshold && current@.sampling_ratio_bits
            == current.sampling_ratio_bits && current@.adaptive_enabled
            == current.adaptive_enabled && current@.adaptive_failure_prob_bits
            == current.adaptive_failure_prob_bits,
        current@.tenant_property is Some <==> current.tenant_property is Some,
        current.tenant_property matches Some(tenant) ==> current@.tenant_property == Some(tenant@),
{
}

/// Definitions, keys and identities as mathematical values keep their family and all that
/// they name.
pub proof fn law_definitions_are_seen_as_they_are(
    legacy: LegacyDynamicIndexDefinition,
    current: ValidatedDynamicIndexDefinition,
    key: LegacyDynamicIndexKey,
    identity: IndexIdentity,
)
    ensures
        legacy matches LegacyDynamicIndexDefinition::Secondary(inner) ==> legacy@
            == DefinitionShape::Secondary(inner@),
        legacy matches LegacyDynamicIndexDefinition::Vector(inner) ==> legacy@
            == DefinitionShape::Vector(inner@),
        legacy matches LegacyDynamicIndexDefinition::Text(inner) ==> legacy@
            == DefinitionShape::Text(inner@),
        current matches ValidatedDynamicIndexDefinition::Secondary(inner) ==> current@
            == DefinitionShape::Secondary(inner@),
        current matches ValidatedDynamicIndexDefinition::Vector(inner) ==> current@
            == DefinitionShape::Vector(inner@),
        current matches ValidatedDynamicIndexDefinition::Text(inner) ==> current@
            == DefinitionShape::Text(inner@),
        key matches LegacyDynamicIndexKey::Secondary(inner) ==> key@ == LegacyKeyShape::Secondary(
            inner@,
        ),
        key matches LegacyDynamicIndexKey::Vector { element_type, label, property } ==> key@ == (
        LegacyKeyShape::Vector { element_type, label: label@, property: property@ }),
        key matches LegacyDynamicIndexKey::Text { element_type, label, property } ==> key@ == (
        LegacyKeyShape::Text { element_type, label: label@, property: property@ }),
        identity@.family == identity.family && identity@.element_kind == identity.element_kind
            && identity@.label == identity.label@ && identity@.property == identity.property@,
{
}

/// A refusal is seen with its text, and the lack of one as such.
pub proof fn law_refusals_are_seen_as_they_are(text: String)
    ensures
        text_option(Some(text)) == Some(text@),
        text_option(None) is None,
{
}

} // verus!
