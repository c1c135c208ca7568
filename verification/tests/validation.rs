use weaver_semconv::attribute::{
    AttributeSpec, AttributeType, BasicRequirementLevelSpec, Examples, PrimitiveOrArrayTypeSpec,
    RequirementLevel,
};
use weaver_semconv::error::handle_errors;
use weaver_semconv::group::{
    ConstraintSpec, GroupSpec, GroupSpecWithProvenance, GroupType, InstrumentSpec, SpanKindSpec,
};
use weaver_semconv::rules::{
    ATTRIBUTE_WITHOUT_BRIEF, EVENTS_OUTSIDE_SPAN, EVENT_WITHOUT_NAME, METRIC_WITHOUT_INSTRUMENT,
    METRIC_WITHOUT_NAME, METRIC_WITHOUT_UNIT, SPAN_KIND_OUTSIDE_SPAN, STRINGS_WITHOUT_EXAMPLES,
    STRING_WITHOUT_EXAMPLES,
};
use weaver_semconv::stability::Stability;
use weaver_semconv::Error;

fn group(kind: GroupType) -> GroupSpec {
    GroupSpec {
        id: "http.server".to_owned(),
        kind,
        brief: "An HTTP server".to_owned(),
        note: String::new(),
        prefix: "http".to_owned(),
        extends: None,
        stability: None,
        deprecated: None,
        attributes: vec![],
        constraints: vec![],
        span_kind: None,
        events: vec![],
        metric_name: None,
        instrument: None,
        unit: None,
        name: None,
    }
}

fn definition(
    id: &str,
    ty: AttributeType,
    brief: Option<&str>,
    deprecated: Option<&str>,
    examples: Option<Examples>,
) -> AttributeSpec {
    AttributeSpec::Id {
        id: id.to_owned(),
        ty,
        brief: brief.map(str::to_owned),
        examples,
        tag: None,
        requirement_level: RequirementLevel::default(),
        sampling_relevant: None,
        note: String::new(),
        stability: None,
        deprecated: deprecated.map(str::to_owned),
    }
}

fn reference(id: &str) -> AttributeSpec {
    AttributeSpec::Ref {
        ref_id: id.to_owned(),
        tag: None,
        requirement_level: None,
        sampling_relevant: None,
        note: None,
        stability: None,
        deprecated: None,
    }
}

fn primitive(p: PrimitiveOrArrayTypeSpec) -> AttributeType {
    AttributeType::PrimitiveOrArray(p)
}

fn invalid_group(message: &str) -> Error {
    Error::InvalidGroup {
        path_or_url: "registry/http.yaml".to_owned(),
        group_id: "http.server".to_owned(),
        error: message.to_owned(),
    }
}

fn invalid_metric(message: &str) -> Error {
    Error::InvalidMetric {
        path_or_url: "registry/http.yaml".to_owned(),
        group_id: "http.server".to_owned(),
        error: message.to_owned(),
    }
}

fn invalid_attribute(attribute_id: &str, message: &str) -> Error {
    Error::InvalidAttribute {
        path_or_url: "registry/http.yaml".to_owned(),
        group_id: "http.server".to_owned(),
        attribute_id: attribute_id.to_owned(),
        error: message.to_owned(),
    }
}

const SOURCE: &str = "registry/http.yaml";

#[test]
fn messages_have_their_fixed_text() {
    assert_eq!(
        SPAN_KIND_OUTSIDE_SPAN,
        "This group contains a span_kind field but the type is not set to span."
    );
    assert_eq!(
        EVENTS_OUTSIDE_SPAN,
        "This group contains an events field but the type is not set to span."
    );
    assert_eq!(
        EVENT_WITHOUT_NAME,
        "This group contains an event type but the prefix is empty and the name is not set."
    );
    assert_eq!(
        METRIC_WITHOUT_NAME,
        "This group contains a metric type but the metric_name is not set."
    );
    assert_eq!(
        METRIC_WITHOUT_INSTRUMENT,
        "This group contains a metric type but the instrument is not set."
    );
    assert_eq!(METRIC_WITHOUT_UNIT, "This group contains a metric type but the unit is not set.");
    assert_eq!(
        ATTRIBUTE_WITHOUT_BRIEF,
        "This attribute is not deprecated and does not contain a brief field."
    );
    assert_eq!(
        STRING_WITHOUT_EXAMPLES,
        "This attribute is a string but it does not contain any examples."
    );
    assert_eq!(
        STRINGS_WITHOUT_EXAMPLES,
        "This attribute is a string array but it does not contain any examples."
    );
}

#[test]
fn no_errors_fold_into_success() {
    assert_eq!(handle_errors(vec![]), Ok(()));
}

#[test]
fn one_error_is_returned_as_it_is() {
    let only = invalid_metric("no unit");
    assert_eq!(handle_errors(vec![only.clone()]), Err(only));
}

#[test]
fn several_errors_fold_into_a_compound_in_their_order() {
    let first = invalid_group("first");
    let second = invalid_attribute("a", "second");
    let third = invalid_metric("third");
    assert_eq!(
        handle_errors(vec![first.clone(), second.clone(), third.clone()]),
        Err(Error::CompoundError(vec![first, second, third]))
    );
}

#[test]
fn a_copy_of_an_error_equals_the_error() {
    let nested = Error::CompoundError(vec![
        invalid_group("g"),
        Error::CompoundError(vec![invalid_metric("m"), invalid_attribute("a", "x")]),
    ]);
    assert_eq!(nested.clone(), nested);
    let leaf = invalid_attribute("http.method", "x");
    assert_eq!(leaf.clone(), leaf);
}

#[test]
fn a_group_is_a_span_by_default() {
    assert_eq!(GroupType::default(), GroupType::Span);
}

#[test]
fn an_attribute_is_recommended_by_default() {
    assert_eq!(
        RequirementLevel::default(),
        RequirementLevel::Basic(BasicRequirementLevelSpec::Recommended)
    );
}

#[test]
fn an_attribute_is_known_by_its_own_id_or_the_one_it_refers_to() {
    assert_eq!(reference("http.method").id(), "http.method");
    assert_eq!(
        definition("http.route", primitive(PrimitiveOrArrayTypeSpec::Int), None, None, None).id(),
        "http.route"
    );
}

#[test]
fn a_bare_span_is_accepted() {
    assert_eq!(group(GroupType::Span).validate(SOURCE), Ok(()));
}

#[test]
fn a_span_may_have_a_span_kind_and_events() {
    let mut span = group(GroupType::Span);
    span.span_kind = Some(SpanKindSpec::Server);
    span.events = vec!["exception".to_owned()];
    assert_eq!(span.validate(SOURCE), Ok(()));
}

#[test]
fn every_other_kind_is_accepted_without_span_fields() {
    for kind in [
        GroupType::AttributeGroup,
        GroupType::MetricGroup,
        GroupType::Resource,
        GroupType::Scope,
    ] {
        assert_eq!(group(kind).validate(SOURCE), Ok(()));
    }
}

#[test]
fn a_span_kind_outside_a_span_is_rejected_for_every_other_kind() {
    for kind in [
        GroupType::AttributeGroup,
        GroupType::MetricGroup,
        GroupType::Resource,
        GroupType::Scope,
    ] {
        let mut other = group(kind);
        other.span_kind = Some(SpanKindSpec::Internal);
        assert_eq!(other.validate(SOURCE), Err(invalid_group(SPAN_KIND_OUTSIDE_SPAN)));
    }
}

#[test]
fn events_outside_a_span_are_rejected_alone() {
    let mut resource = group(GroupType::Resource);
    resource.events = vec!["exception".to_owned()];
    assert_eq!(resource.validate(SOURCE), Err(invalid_group(EVENTS_OUTSIDE_SPAN)));
}

#[test]
fn span_kind_and_events_outside_a_span_are_both_rejected() {
    let mut scope = group(GroupType::Scope);
    scope.span_kind = Some(SpanKindSpec::Producer);
    scope.events = vec!["exception".to_owned()];
    assert_eq!(
        scope.validate(SOURCE),
        Err(Error::CompoundError(vec![
            invalid_group(SPAN_KIND_OUTSIDE_SPAN),
            invalid_group(EVENTS_OUTSIDE_SPAN),
        ]))
    );
}

#[test]
fn an_event_needs_a_prefix_or_a_name() {
    let mut event = group(GroupType::Event);
    event.prefix = String::new();
    assert_eq!(event.validate(SOURCE), Err(invalid_group(EVENT_WITHOUT_NAME)));

    event.name = Some("request".to_owned());
    assert_eq!(event.validate(SOURCE), Ok(()));

    event.name = None;
    event.prefix = "http".to_owned();
    assert_eq!(event.validate(SOURCE), Ok(()));
}

#[test]
fn only_an_event_needs_a_name() {
    let mut span = group(GroupType::Span);
    span.prefix = String::new();
    assert_eq!(span.validate(SOURCE), Ok(()));
    let mut metric_group = group(GroupType::MetricGroup);
    metric_group.prefix = String::new();
    assert_eq!(metric_group.validate(SOURCE), Ok(()));
}

#[test]
fn a_complete_metric_is_accepted() {
    let mut metric = group(GroupType::Metric);
    metric.metric_name = Some("http.server.duration".to_owned());
    metric.instrument = Some(InstrumentSpec::Histogram);
    metric.unit = Some("s".to_owned());
    assert_eq!(metric.validate(SOURCE), Ok(()));
}

#[test]
fn each_missing_metric_field_is_reported_once() {
    let mut metric = group(GroupType::Metric);
    assert_eq!(
        metric.validate(SOURCE),
        Err(Error::CompoundError(vec![
            invalid_metric(METRIC_WITHOUT_NAME),
            invalid_metric(METRIC_WITHOUT_INSTRUMENT),
            invalid_metric(METRIC_WITHOUT_UNIT),
        ]))
    );

    metric.instrument = Some(InstrumentSpec::Counter);
    assert_eq!(
        metric.validate(SOURCE),
        Err(Error::CompoundError(vec![
            invalid_metric(METRIC_WITHOUT_NAME),
            invalid_metric(METRIC_WITHOUT_UNIT),
        ]))
    );

    metric.metric_name = Some("http.server.requests".to_owned());
    assert_eq!(metric.validate(SOURCE), Err(invalid_metric(METRIC_WITHOUT_UNIT)));

    metric.unit = Some("1".to_owned());
    metric.instrument = None;
    assert_eq!(metric.validate(SOURCE), Err(invalid_metric(METRIC_WITHOUT_INSTRUMENT)));

    metric.instrument = Some(InstrumentSpec::UpDownCounter);
    metric.metric_name = None;
    assert_eq!(metric.validate(SOURCE), Err(invalid_metric(METRIC_WITHOUT_NAME)));
}

#[test]
fn metric_fields_are_asked_of_metrics_only() {
    assert_eq!(group(GroupType::MetricGroup).validate(SOURCE), Ok(()));
    assert_eq!(group(GroupType::Event).validate(SOURCE), Ok(()));
}

#[test]
fn a_definition_without_brief_and_examples_is_reported_twice() {
    let mut span = group(GroupType::Span);
    span.attributes =
        vec![definition("http.method", primitive(PrimitiveOrArrayTypeSpec::String), None, None, None)];
    assert_eq!(
        span.validate(SOURCE),
        Err(Error::CompoundError(vec![
            invalid_attribute("http.method", ATTRIBUTE_WITHOUT_BRIEF),
            invalid_attribute("http.method", STRING_WITHOUT_EXAMPLES),
        ]))
    );
}

#[test]
fn a_brief_or_a_deprecation_notice_is_enough() {
    let int = primitive(PrimitiveOrArrayTypeSpec::Int);
    let mut span = group(GroupType::Span);

    span.attributes = vec![definition("a", int.clone(), None, None, None)];
    assert_eq!(span.validate(SOURCE), Err(invalid_attribute("a", ATTRIBUTE_WITHOUT_BRIEF)));

    span.attributes = vec![definition("a", int.clone(), Some("The count"), None, None)];
    assert_eq!(span.validate(SOURCE), Ok(()));

    span.attributes = vec![definition("a", int.clone(), None, Some("Use b"), None)];
    assert_eq!(span.validate(SOURCE), Ok(()));

    span.attributes = vec![definition("a", int, Some("The count"), Some("Use b"), None)];
    assert_eq!(span.validate(SOURCE), Ok(()));
}

#[test]
fn an_empty_brief_counts_as_a_brief() {
    let mut span = group(GroupType::Span);
    span.attributes =
        vec![definition("a", primitive(PrimitiveOrArrayTypeSpec::Boolean), Some(""), None, None)];
    assert_eq!(span.validate(SOURCE), Ok(()));
}

#[test]
fn only_strings_and_string_arrays_need_examples() {
    let mut span = group(GroupType::Span);
    for p in [
        PrimitiveOrArrayTypeSpec::Boolean,
        PrimitiveOrArrayTypeSpec::Int,
        PrimitiveOrArrayTypeSpec::Double,
        PrimitiveOrArrayTypeSpec::Ints,
        PrimitiveOrArrayTypeSpec::Doubles,
        PrimitiveOrArrayTypeSpec::Booleans,
    ] {
        span.attributes = vec![definition("a", primitive(p), Some("brief"), None, None)];
        assert_eq!(span.validate(SOURCE), Ok(()));
    }

    span.attributes = vec![definition(
        "a",
        AttributeType::Enum { allow_custom_values: false, members: vec!["GET".to_owned()] },
        Some("brief"),
        None,
        None,
    )];
    assert_eq!(span.validate(SOURCE), Ok(()));

    span.attributes =
        vec![definition("a", primitive(PrimitiveOrArrayTypeSpec::String), Some("brief"), None, None)];
    assert_eq!(span.validate(SOURCE), Err(invalid_attribute("a", STRING_WITHOUT_EXAMPLES)));

    span.attributes = vec![definition(
        "a",
        primitive(PrimitiveOrArrayTypeSpec::Strings),
        Some("brief"),
        None,
        None,
    )];
    assert_eq!(span.validate(SOURCE), Err(invalid_attribute("a", STRINGS_WITHOUT_EXAMPLES)));
}

#[test]
fn examples_of_any_form_are_enough() {
    let mut span = group(GroupType::Span);
    let all = [
        Examples::Bool(true),
        Examples::Int(7),
        Examples::Double(1.5f64.to_bits()),
        Examples::String("GET".to_owned()),
        Examples::Ints(vec![1, 2]),
        Examples::Doubles(vec![0.5f64.to_bits()]),
        Examples::Bools(vec![]),
        Examples::Strings(vec!["GET".to_owned(), "POST".to_owned()]),
    ];
    for examples in all {
        for p in [PrimitiveOrArrayTypeSpec::String, PrimitiveOrArrayTypeSpec::Strings] {
            span.attributes =
                vec![definition("a", primitive(p), Some("brief"), None, Some(examples.clone()))];
            assert_eq!(span.validate(SOURCE), Ok(()));
        }
    }
}

#[test]
fn a_reference_is_never_reported() {
    let mut span = group(GroupType::Span);
    span.attributes = vec![reference("http.method"), reference("http.route")];
    assert_eq!(span.validate(SOURCE), Ok(()));
}

#[test]
fn attributes_are_reported_in_their_order_after_the_group() {
    let mut metric = group(GroupType::Metric);
    metric.metric_name = Some("http.server.duration".to_owned());
    metric.instrument = Some(InstrumentSpec::Gauge);
    metric.span_kind = Some(SpanKindSpec::Consumer);
    metric.attributes = vec![
        definition("first", primitive(PrimitiveOrArrayTypeSpec::Strings), None, None, None),
        reference("second"),
        definition("third", primitive(PrimitiveOrArrayTypeSpec::Int), Some("ok"), None, None),
        definition("fourth", primitive(PrimitiveOrArrayTypeSpec::String), None, Some("old"), None),
        definition("fifth", primitive(PrimitiveOrArrayTypeSpec::Double), None, None, None),
    ];
    assert_eq!(
        metric.validate(SOURCE),
        Err(Error::CompoundError(vec![
            invalid_group(SPAN_KIND_OUTSIDE_SPAN),
            invalid_metric(METRIC_WITHOUT_UNIT),
            invalid_attribute("first", ATTRIBUTE_WITHOUT_BRIEF),
            invalid_attribute("first", STRINGS_WITHOUT_EXAMPLES),
            invalid_attribute("fourth", STRING_WITHOUT_EXAMPLES),
            invalid_attribute("fifth", ATTRIBUTE_WITHOUT_BRIEF),
        ]))
    );
}

#[test]
fn an_unnamed_event_with_span_fields_is_reported_three_times() {
    let mut event = group(GroupType::Event);
    event.prefix = String::new();
    event.span_kind = Some(SpanKindSpec::Client);
    event.events = vec!["e1".to_owned()];
    assert_eq!(
        event.validate(SOURCE),
        Err(Error::CompoundError(vec![
            invalid_group(SPAN_KIND_OUTSIDE_SPAN),
            invalid_group(EVENTS_OUTSIDE_SPAN),
            invalid_group(EVENT_WITHOUT_NAME),
        ]))
    );
}

#[test]
fn two_definitions_of_one_id_are_reported_each() {
    let mut span = group(GroupType::Span);
    span.attributes = vec![
        definition("a", primitive(PrimitiveOrArrayTypeSpec::Int), None, None, None),
        definition("a", primitive(PrimitiveOrArrayTypeSpec::Int), None, None, None),
    ];
    assert_eq!(
        span.validate(SOURCE),
        Err(Error::CompoundError(vec![
            invalid_attribute("a", ATTRIBUTE_WITHOUT_BRIEF),
            invalid_attribute("a", ATTRIBUTE_WITHOUT_BRIEF),
        ]))
    );
}

#[test]
fn the_provenance_and_the_group_id_are_copied_into_each_error() {
    let mut event = group(GroupType::Event);
    event.id = "".to_owned();
    event.prefix = String::new();
    assert_eq!(
        event.validate(""),
        Err(Error::InvalidGroup {
            path_or_url: String::new(),
            group_id: String::new(),
            error: EVENT_WITHOUT_NAME.to_owned(),
        })
    );
    event.id = "db.client".to_owned();
    assert_eq!(
        event.validate("https://example.com/db.yaml"),
        Err(Error::InvalidGroup {
            path_or_url: "https://example.com/db.yaml".to_owned(),
            group_id: "db.client".to_owned(),
            error: EVENT_WITHOUT_NAME.to_owned(),
        })
    );
}

#[test]
fn validation_does_not_depend_on_unchecked_fields() {
    let mut span = group(GroupType::Span);
    span.extends = Some("base".to_owned());
    span.stability = Some(Stability::Experimental);
    span.deprecated = Some("gone".to_owned());
    span.constraints = vec![ConstraintSpec {
        any_of: vec!["missing.attribute".to_owned()],
        include_group: Some("nowhere".to_owned()),
    }];
    span.metric_name = Some("stray".to_owned());
    span.instrument = Some(InstrumentSpec::Counter);
    span.unit = Some("1".to_owned());
    span.name = Some("stray".to_owned());
    assert_eq!(span.validate(SOURCE), Ok(()));
}

#[test]
fn validating_twice_gives_the_same_result() {
    let mut metric = group(GroupType::Metric);
    metric.events = vec!["e".to_owned()];
    let before = metric.clone();
    let first = metric.validate(SOURCE);
    let second = metric.validate(SOURCE);
    assert_eq!(first, second);
    assert_eq!(metric.id, before.id);
    assert_eq!(metric.events, before.events);
}

#[test]
fn a_group_is_validated_under_its_provenance() {
    let mut resource = group(GroupType::Resource);
    resource.span_kind = Some(SpanKindSpec::Server);
    let read = GroupSpecWithProvenance { spec: resource, provenance: SOURCE.to_owned() };
    assert_eq!(read.spec.validate(&read.provenance), Err(invalid_group(SPAN_KIND_OUTSIDE_SPAN)));
}
