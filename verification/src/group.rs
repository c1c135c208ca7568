//! Group records.

use vstd::prelude::*;
use crate::attribute::{AttributeModel, AttributeSpec, AttributeType, PrimitiveOrArrayTypeSpec};
use crate::error::{aggregate, handle_errors, reported, result_model, Error};
use crate::rules::{
    ATTRIBUTE_WITHOUT_BRIEF, EVENTS_OUTSIDE_SPAN, EVENT_WITHOUT_NAME, METRIC_WITHOUT_INSTRUMENT,
    METRIC_WITHOUT_NAME, METRIC_WITHOUT_UNIT, SPAN_KIND_OUTSIDE_SPAN, STRINGS_WITHOUT_EXAMPLES,
    STRING_WITHOUT_EXAMPLES,
};
use crate::stability::Stability;

verus! {

/// The kinds of groups.
#[derive(Debug, Clone, Copy, PartialEq, Eq, Hash, Structural)]
pub enum GroupType {
    /// A set of attributes that other groups refer to.
    AttributeGroup,
    /// A span.
    Span,
    /// An event.
    Event,
    /// A metric.
    Metric,
    /// A set of metric attributes that metric groups refer to.
    MetricGroup,
    /// A resource.
    Resource,
    /// An instrumentation scope.
    Scope,
}

impl Default for GroupType {
    /// A group is a span unless it says otherwise.
    fn default() -> (kind: GroupType)
        ensures
            kind == GroupType::Span,
    {
        GroupType::Span
    }
}

/// The kinds of spans.
#[derive(Debug, Clone, Copy, PartialEq, Eq, Hash, Structural)]
pub enum SpanKindSpec {
    /// An internal span.
    Internal,
    /// A client span.
    Client,
    /// A server span.
    Server,
    /// A producer span.
    Producer,
    /// A consumer span.
    Consumer,
}

/// The instruments that record a metric.
#[derive(Debug, Clone, Copy, PartialEq, Eq, Hash, Structural)]
pub enum InstrumentSpec {
    /// An up-down counter.
    UpDownCounter,
    /// A counter.
    Counter,
    /// A gauge.
    Gauge,
    /// A histogram.
    Histogram,
}

impl InstrumentSpec {
    /// The name under which the instrument is written in a record.
    pub open spec fn name(self) -> Seq<char> {
        match self {
            InstrumentSpec::UpDownCounter => "updowncounter"@,
            InstrumentSpec::Counter => "counter"@,
            InstrumentSpec::Gauge => "gauge"@,
            InstrumentSpec::Histogram => "histogram"@,
        }
    }

    /// The name under which the instrument is written in a record.
    pub fn to_string(&self) -> (name: String)
        ensures
            name@ == self.name(),
    {
        match self {
            InstrumentSpec::UpDownCounter => "updowncounter".to_owned(),
            InstrumentSpec::Counter => "counter".to_owned(),
            InstrumentSpec::Gauge => "gauge".to_owned(),
            InstrumentSpec::Histogram => "histogram".to_owned(),
        }
    }
}

/// A further requirement on a group. It is carried with the group and not
/// evaluated here.
#[derive(Debug, Clone)]
pub struct ConstraintSpec {
    /// Sequences of attribute ids; the attributes of at least one sequence
    /// have to be set.
    pub any_of: Vec<String>,
    /// The id of a group whose constraints and required attributes are
    /// taken over.
    pub include_group: Option<String>,
}

/// The mathematical value of a [`ConstraintSpec`].
pub struct ConstraintModel {
    pub any_of: Seq<Seq<char>>,
    pub include_group: Option<Seq<char>>,
}

impl DeepView for ConstraintSpec {
    type V = ConstraintModel;

    open spec fn deep_view(&self) -> ConstraintModel {
        ConstraintModel {
            any_of: self.any_of.deep_view(),
            include_group: self.include_group.deep_view(),
        }
    }
}

/// One semantic-convention group.
#[derive(Debug, Clone)]
pub struct GroupSpec {
    /// The id of the group.
    pub id: String,
    /// The kind of the group.
    pub kind: GroupType,
    /// A short description.
    pub brief: String,
    /// A longer description.
    pub note: String,
    /// The prefix of the group's attributes.
    pub prefix: String,
    /// The id of a group whose prefix, constraints and attributes are taken
    /// over.
    pub extends: Option<String>,
    /// How settled the group is.
    pub stability: Option<Stability>,
    /// Why the group is deprecated, or what replaces it.
    pub deprecated: Option<String>,
    /// The attributes of the group, in the order they were declared.
    pub attributes: Vec<AttributeSpec>,
    /// Further requirements on the group.
    pub constraints: Vec<ConstraintSpec>,
    /// The kind of the span. Only a span may have one.
    pub span_kind: Option<SpanKindSpec>,
    /// The ids of the event groups that belong to the span. Only a span may
    /// have any.
    pub events: Vec<String>,
    /// The name of the metric. A metric must have one.
    pub metric_name: Option<String>,
    /// The instrument that records the metric. A metric must have one.
    pub instrument: Option<InstrumentSpec>,
    /// The unit in which the metric is measured. A metric must have one.
    pub unit: Option<String>,
    /// The name of the event. An event without a prefix must have one.
    pub name: Option<String>,
}

/// The mathematical value of a [`GroupSpec`].
pub struct GroupModel {
    pub id: Seq<char>,
    pub kind: GroupType,
    pub brief: Seq<char>,
    pub note: Seq<char>,
    pub prefix: Seq<char>,
    pub extends: Option<Seq<char>>,
    pub stability: Option<Stability>,
    pub deprecated: Option<Seq<char>>,
    pub attributes: Seq<AttributeModel>,
    pub constraints: Seq<ConstraintModel>,
    pub span_kind: Option<SpanKindSpec>,
    pub events: Seq<Seq<char>>,
    pub metric_name: Option<Seq<char>>,
    pub instrument: Option<InstrumentSpec>,
    pub unit: Option<Seq<char>>,
    pub name: Option<Seq<char>>,
}

impl DeepView for GroupSpec {
    type V = GroupModel;

    open spec fn deep_view(&self) -> GroupModel {
        GroupModel {
            id: self.id@,
            kind: self.kind,
            brief: self.brief@,
            note: self.note@,
            prefix: self.prefix@,
            extends: self.extends.deep_view(),
            stability: self.stability,
            deprecated: self.deprecated.deep_view(),
            attributes: self.attributes.deep_view(),
            constraints: self.constraints.deep_view(),
            span_kind: self.span_kind,
            events: self.events.deep_view(),
            metric_name: self.metric_name.deep_view(),
            instrument: self.instrument,
            unit: self.unit.deep_view(),
            name: self.name.deep_view(),
        }
    }
}

/// Appends one violation to those found so far.
fn report(errors: &mut Vec<Error>, error: Error)
    ensures
        final(errors).deep_view() == old(errors).deep_view().push(error.deep_view()),
{
    errors.push(error);
    assert(errors.deep_view() =~= old(errors).deep_view().push(error.deep_view()));
}

impl GroupSpec {
    /// Checks the group against every rule and reports all violations at
    /// once: first those of the rules on the kind of the group, then those of
    /// the attributes in their order. `path_or_url` says where the group was
    /// read from and is copied into each violation. The result is `Ok` if
    /// and only if the group is acceptable; one violation is returned as it
    /// is, several as one compound error.
    pub fn validate(&self, path_or_url: &str) -> (result: Result<(), Error>)
        ensures
            result_model(result) == aggregate(self.deep_view().violations(path_or_url@)),
            reported(result_model(result)) == self.deep_view().violations(path_or_url@),
            result is Ok <==> self.deep_view().conforms(),
    {
        let ghost group = self.deep_view();
        let ghost provenance = path_or_url@;
        let mut errors: Vec<Error> = Vec::new();

        // Only a span may have a span kind or events.
        if self.kind != GroupType::Span {
            if self.span_kind.is_some() {
                report(
                    &mut errors,
                    Error::InvalidGroup {
                        path_or_url: path_or_url.to_owned(),
                        group_id: self.id.clone(),
                        error: SPAN_KIND_OUTSIDE_SPAN.to_owned(),
                    },
                );
            }
            if !self.events.is_empty() {
                report(
                    &mut errors,
                    Error::InvalidGroup {
                        path_or_url: path_or_url.to_owned(),
                        group_id: self.id.clone(),
                        error: EVENTS_OUTSIDE_SPAN.to_owned(),
                    },
                );
            }
        }
        assert(errors.deep_view() =~= group.span_violations(provenance));

        // An event without a prefix needs a name.
        if self.kind == GroupType::Event && self.prefix.as_str().is_empty() && self.name.is_none() {
            report(
                &mut errors,
                Error::InvalidGroup {
                    path_or_url: path_or_url.to_owned(),
                    group_id: self.id.clone(),
                    error: EVENT_WITHOUT_NAME.to_owned(),
                },
            );
        }
        assert(errors.deep_view() =~= group.span_violations(provenance) + group.event_violations(
            provenance,
        ));

        // A metric needs a name, an instrument and a unit.
        if self.kind == GroupType::Metric {
            if self.metric_name.is_none() {
                report(
                    &mut errors,
                    Error::InvalidMetric {
                        path_or_url: path_or_url.to_owned(),
                        group_id: self.id.clone(),
                        error: METRIC_WITHOUT_NAME.to_owned(),
                    },
                );
            }
            if self.instrument.is_none() {
                report(
                    &mut errors,
                    Error::InvalidMetric {
                        path_or_url: path_or_url.to_owned(),
                        group_id: self.id.clone(),
                        error: METRIC_WITHOUT_INSTRUMENT.to_owned(),
                    },
                );
            }
            if self.unit.is_none() {
                report(
                    &mut errors,
                    Error::InvalidMetric {
                        path_or_url: path_or_url.to_owned(),
                        group_id: self.id.clone(),
                        error: METRIC_WITHOUT_UNIT.to_owned(),
                    },
                );
            }
        }
        assert(errors.deep_view() =~= group.kind_violations(provenance));
        assert(group.per_attribute(provenance).take(0).flatten() =~= Seq::empty());

        let mut i: usize = 0;
        while i < self.attributes.len()
            invariant
                group == self.deep_view(),
                provenance == path_or_url@,
                i <= self.attributes.len(),
                errors.deep_view() == group.kind_violations(provenance) + group.per_attribute(
                    provenance,
                ).take(i as int).flatten(),
            decreases self.attributes.len() - i,
        {
            let attribute = &self.attributes[i];
            let ghost found = errors.deep_view();

            match attribute {
                AttributeSpec::Id { ty, brief, deprecated, examples, .. } => {
                    // A definition needs a brief unless it is deprecated.
                    if brief.is_none() && deprecated.is_none() {
                        report(
                            &mut errors,
                            Error::InvalidAttribute {
                                path_or_url: path_or_url.to_owned(),
                                group_id: self.id.clone(),
                                attribute_id: attribute.id(),
                                error: ATTRIBUTE_WITHOUT_BRIEF.to_owned(),
                            },
                        );
                    }
                    // Only strings and arrays of strings need examples.
                    if examples.is_none() {
                        match ty {
                            AttributeType::PrimitiveOrArray(PrimitiveOrArrayTypeSpec::String) => {
                                report(
                                    &mut errors,
                                    Error::InvalidAttribute {
                                        path_or_url: path_or_url.to_owned(),
                                        group_id: self.id.clone(),
                                        attribute_id: attribute.id(),
                                        error: STRING_WITHOUT_EXAMPLES.to_owned(),
                                    },
                                );
                            },
                            AttributeType::PrimitiveOrArray(PrimitiveOrArrayTypeSpec::Strings) => {
                                report(
                                    &mut errors,
                                    Error::InvalidAttribute {
                                        path_or_url: path_or_url.to_owned(),
                                        group_id: self.id.clone(),
                                        attribute_id: attribute.id(),
                                        error: STRINGS_WITHOUT_EXAMPLES.to_owned(),
                                    },
                                );
                            },
                            _ => {},
                        }
                    }
                },
                AttributeSpec::Ref { .. } => {},
            }

            proof {
                let each = group.per_attribute(provenance);
                assert(errors.deep_view() =~= found + group.attribute_violations(
                    provenance,
                    attribute.deep_view(),
                ));
                assert(each.take(i + 1) =~= each.take(i as int).push(each[i as int]));
                each.take(i as int).lemma_flatten_push(each[i as int]);
            }
            i += 1;
        }
        proof {
            assert(group.per_attribute(provenance).take(i as int) =~= group.per_attribute(
                provenance,
            ));
            group.lemma_conforms(provenance);
            group.lemma_every_violation_is_reported(provenance);
        }

        handle_errors(errors)
    }
}

/// A group together with the place it was read from.
#[derive(Debug, Clone)]
pub struct GroupSpecWithProvenance {
    /// The group.
    pub spec: GroupSpec,
    /// The path or URL the group was read from.
    pub provenance: String,
}

/// The mathematical value of a [`GroupSpecWithProvenance`].
pub struct GroupWithProvenanceModel {
    pub spec: GroupModel,
    pub provenance: Seq<char>,
}

impl DeepView for GroupSpecWithProvenance {
    type V = GroupWithProvenanceModel;

    open spec fn deep_view(&self) -> GroupWithProvenanceModel {
        GroupWithProvenanceModel { spec: self.spec.deep_view(), provenance: self.provenance@ }
    }
}

} // verus!
