//! The rules a group has to meet, and the violations of a group that does
//! not meet them.

use vstd::prelude::*;
use crate::attribute::{AttributeModel, AttributeTypeModel, PrimitiveOrArrayTypeSpec};
use crate::error::ErrorModel;
use crate::group::{GroupModel, GroupType};

verus! {

/// The message for a group that is no span and has a span kind.
pub const SPAN_KIND_OUTSIDE_SPAN: &'static str =
    "This group contains a span_kind field but the type is not set to span.";

/// The message for a group that is no span and lists events.
pub const EVENTS_OUTSIDE_SPAN: &'static str =
    "This group contains an events field but the type is not set to span.";

/// The message for an event with neither a prefix nor a name.
pub const EVENT_WITHOUT_NAME: &'static str =
    "This group contains an event type but the prefix is empty and the name is not set.";

/// The message for a metric without a name.
pub const METRIC_WITHOUT_NAME: &'static str =
    "This group contains a metric type but the metric_name is not set.";

/// The message for a metric without an instrument.
pub const METRIC_WITHOUT_INSTRUMENT: &'static str =
    "This group contains a metric type but the instrument is not set.";

/// The message for a metric without a unit.
pub const METRIC_WITHOUT_UNIT: &'static str =
    "This group contains a metric type but the unit is not set.";

/// The message for an attribute with neither a brief nor a deprecation
/// notice.
pub const ATTRIBUTE_WITHOUT_BRIEF: &'static str =
    "This attribute is not deprecated and does not contain a brief field.";

/// The message for a string attribute without examples.
pub const STRING_WITHOUT_EXAMPLES: &'static str =
    "This attribute is a string but it does not contain any examples.";

/// The message for a string array attribute without examples.
pub const STRINGS_WITHOUT_EXAMPLES: &'static str =
    "This attribute is a string array but it does not contain any examples.";

/// The violation, if the rule is broken; nothing otherwise.
pub open spec fn violation_if(broken: bool, violation: ErrorModel) -> Seq<ErrorModel> {
    if broken {
        seq![violation]
    } else {
        Seq::empty()
    }
}

impl AttributeModel {
    /// The attribute is defined in place and has neither a brief nor a
    /// deprecation notice.
    pub open spec fn lacks_brief(self) -> bool {
        self matches AttributeModel::Id { brief, deprecated, .. } && brief is None
            && deprecated is None
    }

    /// The attribute is defined in place with exactly the type `primitive`
    /// and has no examples.
    pub open spec fn lacks_examples_as(self, primitive: PrimitiveOrArrayTypeSpec) -> bool {
        self matches AttributeModel::Id { ty, examples, .. } && examples is None && ty
            == AttributeTypeModel::PrimitiveOrArray(primitive)
    }

    /// The attribute is acceptable: a reference always is; a definition made
    /// in place has a brief unless it is deprecated, and has examples if its
    /// type is exactly string or array of strings.
    pub open spec fn conforms(self) -> bool {
        match self {
            AttributeModel::Ref { .. } => true,
            AttributeModel::Id { ty, brief, deprecated, examples, .. } => {
                &&& (brief is Some || deprecated is Some)
                &&& (ty == AttributeTypeModel::PrimitiveOrArray(PrimitiveOrArrayTypeSpec::String)
                    || ty == AttributeTypeModel::PrimitiveOrArray(
                    PrimitiveOrArrayTypeSpec::Strings,
                )) ==> examples is Some
            },
        }
    }
}

impl GroupModel {
    /// A group error about this group.
    pub open spec fn invalid_group(self, provenance: Seq<char>, message: Seq<char>) -> ErrorModel {
        ErrorModel::InvalidGroup { path_or_url: provenance, group_id: self.id, error: message }
    }

    /// A metric error about this group.
    pub open spec fn invalid_metric(self, provenance: Seq<char>, message: Seq<char>) -> ErrorModel {
        ErrorModel::InvalidMetric { path_or_url: provenance, group_id: self.id, error: message }
    }

    /// An attribute error about the attribute `attribute_id` of this group.
    pub open spec fn invalid_attribute(
        self,
        provenance: Seq<char>,
        attribute_id: Seq<char>,
        message: Seq<char>,
    ) -> ErrorModel {
        ErrorModel::InvalidAttribute {
            path_or_url: provenance,
            group_id: self.id,
            attribute_id,
            error: message,
        }
    }

    /// The group is no span and yet has a span kind.
    pub open spec fn has_stray_span_kind(self) -> bool {
        self.kind != GroupType::Span && self.span_kind is Some
    }

    /// The group is no span and yet lists events.
    pub open spec fn has_stray_events(self) -> bool {
        self.kind != GroupType::Span && self.events.len() > 0
    }

    /// The group is an event with neither a prefix nor a name.
    pub open spec fn is_unnamed_event(self) -> bool {
        self.kind == GroupType::Event && self.prefix.len() == 0 && self.name is None
    }

    /// The violations of the rules on the fields reserved to spans: the span
    /// kind first, then the events.
    pub open spec fn span_violations(self, provenance: Seq<char>) -> Seq<ErrorModel> {
        violation_if(
            self.has_stray_span_kind(),
            self.invalid_group(provenance, SPAN_KIND_OUTSIDE_SPAN@),
        ) + violation_if(
            self.has_stray_events(),
            self.invalid_group(provenance, EVENTS_OUTSIDE_SPAN@),
        )
    }

    /// The violation of the rule on the name of an event.
    pub open spec fn event_violations(self, provenance: Seq<char>) -> Seq<ErrorModel> {
        violation_if(self.is_unnamed_event(), self.invalid_group(provenance, EVENT_WITHOUT_NAME@))
    }

    /// The violations of the rules on the fields a metric must have: the
    /// name first, then the instrument, then the unit.
    pub open spec fn metric_violations(self, provenance: Seq<char>) -> Seq<ErrorModel> {
        violation_if(
            self.kind == GroupType::Metric && self.metric_name is None,
            self.invalid_metric(provenance, METRIC_WITHOUT_NAME@),
        ) + violation_if(
            self.kind == GroupType::Metric && self.instrument is None,
            self.invalid_metric(provenance, METRIC_WITHOUT_INSTRUMENT@),
        ) + violation_if(
            self.kind == GroupType::Metric && self.unit is None,
            self.invalid_metric(provenance, METRIC_WITHOUT_UNIT@),
        )
    }

    /// The violations of the rules that depend on the kind of the group.
    pub open spec fn kind_violations(self, provenance: Seq<char>) -> Seq<ErrorModel> {
        self.span_violations(provenance) + self.event_violations(provenance)
            + self.metric_violations(provenance)
    }

    /// The violations of one attribute: the missing brief first, then the
    /// missing examples.
    pub open spec fn attribute_violations(
        self,
        provenance: Seq<char>,
        attribute: AttributeModel,
    ) -> Seq<ErrorModel> {
        violation_if(
            attribute.lacks_brief(),
            self.invalid_attribute(provenance, attribute.id(), ATTRIBUTE_WITHOUT_BRIEF@),
        ) + violation_if(
            attribute.lacks_examples_as(PrimitiveOrArrayTypeSpec::String),
            self.invalid_attribute(provenance, attribute.id(), STRING_WITHOUT_EXAMPLES@),
        ) + violation_if(
            attribute.lacks_examples_as(PrimitiveOrArrayTypeSpec::Strings),
            self.invalid_attribute(provenance, attribute.id(), STRINGS_WITHOUT_EXAMPLES@),
        )
    }

    /// For each attribute of the group, in their order, its violations.
    pub open spec fn per_attribute(self, provenance: Seq<char>) -> Seq<Seq<ErrorModel>> {
        Seq::new(
            self.attributes.len(),
            |i: int| self.attribute_violations(provenance, self.attributes[i]),
        )
    }

    /// All violations of the group, in the order in which they are reported:
    /// those of the rules on the kind, then those of the attributes, one
    /// attribute after the other.
    pub open spec fn violations(self, provenance: Seq<char>) -> Seq<ErrorModel> {
        self.kind_violations(provenance) + self.per_attribute(provenance).flatten()
    }

    /// How many of the fields that a metric must have are missing: none for
    /// a group that is no metric.
    pub open spec fn missing_metric_fields(self) -> nat {
        if self.kind == GroupType::Metric {
            (if self.metric_name is None {
                1nat
            } else {
                0nat
            }) + (if self.instrument is None {
                1nat
            } else {
                0nat
            }) + (if self.unit is None {
                1nat
            } else {
                0nat
            })
        } else {
            0
        }
    }

    /// The group is acceptable: only a span has a span kind or events, an
    /// event without a prefix has a name, a metric has a name, an instrument
    /// and a unit, and each attribute is acceptable.
    pub open spec fn conforms(self) -> bool {
        &&& self.kind != GroupType::Span ==> self.span_kind is None && self.events.len() == 0
        &&& self.kind == GroupType::Event && self.prefix.len() == 0 ==> self.name is Some
        &&& self.kind == GroupType::Metric ==> self.metric_name is Some && self.instrument is Some
            && self.unit is Some
        &&& forall|i: int|
            0 <= i < self.attributes.len() ==> (#[trigger] self.attributes[i]).conforms()
    }
}

/// Holds of the violations that are metric errors.
pub open spec fn is_invalid_metric() -> spec_fn(ErrorModel) -> bool {
    |violation: ErrorModel| violation is InvalidMetric
}

} // verus!
