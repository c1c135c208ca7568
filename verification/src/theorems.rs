//! Theorems about the violations of a group: which records are reported for
//! what, how often, and in which form.

use vstd::prelude::*;
use crate::attribute::{AttributeModel, PrimitiveOrArrayTypeSpec};
use crate::error::{aggregate, lemma_aggregate_reports_all, reported, ErrorModel};
use crate::group::{GroupModel, GroupType};
use crate::rules::{
    is_invalid_metric, violation_if, ATTRIBUTE_WITHOUT_BRIEF, EVENTS_OUTSIDE_SPAN,
    EVENT_WITHOUT_NAME, METRIC_WITHOUT_INSTRUMENT, METRIC_WITHOUT_NAME, METRIC_WITHOUT_UNIT,
    SPAN_KIND_OUTSIDE_SPAN, STRINGS_WITHOUT_EXAMPLES, STRING_WITHOUT_EXAMPLES,
};

verus! {

/// Two messages that go with the same kind of error are never the same text.
pub proof fn lemma_messages_are_distinct()
    ensures
        SPAN_KIND_OUTSIDE_SPAN@ != EVENTS_OUTSIDE_SPAN@,
        SPAN_KIND_OUTSIDE_SPAN@ != EVENT_WITHOUT_NAME@,
        EVENTS_OUTSIDE_SPAN@ != EVENT_WITHOUT_NAME@,
        METRIC_WITHOUT_NAME@ != METRIC_WITHOUT_INSTRUMENT@,
        METRIC_WITHOUT_NAME@ != METRIC_WITHOUT_UNIT@,
        METRIC_WITHOUT_INSTRUMENT@ != METRIC_WITHOUT_UNIT@,
        ATTRIBUTE_WITHOUT_BRIEF@ != STRING_WITHOUT_EXAMPLES@,
        ATTRIBUTE_WITHOUT_BRIEF@ != STRINGS_WITHOUT_EXAMPLES@,
        STRING_WITHOUT_EXAMPLES@ != STRINGS_WITHOUT_EXAMPLES@,
{
    reveal_strlit(
        "This group contains a span_kind field but the type is not set to span.",
    );
    assert(SPAN_KIND_OUTSIDE_SPAN@.len() == 70);
    reveal_strlit(
        "This group contains an events field but the type is not set to span.",
    );
    assert(EVENTS_OUTSIDE_SPAN@.len() == 68);
    reveal_strlit(
        "This group contains an event type but the prefix is empty and the name is not set.",
    );
    assert(EVENT_WITHOUT_NAME@.len() == 82);
    reveal_strlit(
        "This group contains a metric type but the metric_name is not set.",
    );
    assert(METRIC_WITHOUT_NAME@.len() == 65);
    reveal_strlit(
        "This group contains a metric type but the instrument is not set.",
    );
    assert(METRIC_WITHOUT_INSTRUMENT@.len() == 64);
    reveal_strlit(
        "This group contains a metric type but the unit is not set.",
    );
    assert(METRIC_WITHOUT_UNIT@.len() == 58);
    reveal_strlit(
        "This attribute is not deprecated and does not contain a brief field.",
    );
    assert(ATTRIBUTE_WITHOUT_BRIEF@.len() == 68);
    reveal_strlit(
        "This attribute is a string but it does not contain any examples.",
    );
    assert(STRING_WITHOUT_EXAMPLES@.len() == 64);
    reveal_strlit(
        "This attribute is a string array but it does not contain any examples.",
    );
    assert(STRINGS_WITHOUT_EXAMPLES@.len() == 70);
}

/// A rule contributes its violation if it is broken, and nothing else.
proof fn lemma_rule_contributes(broken: bool, violation: ErrorModel, x: ErrorModel)
    ensures
        violation_if(broken, violation).contains(x) <==> broken && x == violation,
{
    if broken {
        assert(violation_if(broken, violation)[0] == violation);
    }
}

/// Three rules in a row contribute as many violations as rules are broken,
/// each of them the violation of one of the rules, and none of them twice if
/// the violations of the rules differ.
proof fn lemma_three_rules(
    first: (bool, ErrorModel),
    second: (bool, ErrorModel),
    third: (bool, ErrorModel),
)
    ensures
        ({
            let found = violation_if(first.0, first.1) + violation_if(second.0, second.1)
                + violation_if(third.0, third.1);
            &&& found.len() == (if first.0 {
                1nat
            } else {
                0nat
            }) + (if second.0 {
                1nat
            } else {
                0nat
            }) + (if third.0 {
                1nat
            } else {
                0nat
            })
            &&& forall|i: int|
                0 <= i < found.len() ==> #[trigger] found[i] == first.1 || found[i] == second.1
                    || found[i] == third.1
            &&& first.1 != second.1 && first.1 != third.1 && second.1 != third.1
                ==> found.no_duplicates()
        }),
{
}

/// What is in the concatenation of some lists is in one of the lists.
proof fn lemma_flatten_contains(parts: Seq<Seq<ErrorModel>>, x: ErrorModel)
    ensures
        parts.flatten().contains(x) <==> exists|i: int|
            0 <= i < parts.len() && (#[trigger] parts[i]).contains(x),
    decreases parts.len(),
{
    if parts.len() > 0 {
        let rest = parts.drop_first();
        lemma_flatten_contains(rest, x);
        vstd::seq_lib::lemma_seq_concat_contains_all_elements(parts.first(), rest.flatten(), x);
        if parts.flatten().contains(x) {
            if parts.first().contains(x) {
                assert(parts[0].contains(x));
            } else {
                let i = choose|i: int| 0 <= i < rest.len() && (#[trigger] rest[i]).contains(x);
                assert(parts[i + 1].contains(x));
            }
        }
        if exists|i: int| 0 <= i < parts.len() && (#[trigger] parts[i]).contains(x) {
            let i = choose|i: int| 0 <= i < parts.len() && (#[trigger] parts[i]).contains(x);
            if i > 0 {
                assert(rest[i - 1].contains(x));
            }
        }
    }
}

impl GroupModel {
    /// The violations of one attribute are the missing brief, if the
    /// attribute lacks one, and the missing examples, if it is a string or an
    /// array of strings that lacks them, and nothing else.
    pub proof fn lemma_attribute_violations(
        self,
        provenance: Seq<char>,
        attribute: AttributeModel,
        x: ErrorModel,
    )
        ensures
            self.attribute_violations(provenance, attribute).contains(x) <==> {
                ||| attribute.lacks_brief() && x == self.invalid_attribute(
                    provenance,
                    attribute.id(),
                    ATTRIBUTE_WITHOUT_BRIEF@,
                )
                ||| attribute.lacks_examples_as(PrimitiveOrArrayTypeSpec::String) && x
                    == self.invalid_attribute(provenance, attribute.id(), STRING_WITHOUT_EXAMPLES@)
                ||| attribute.lacks_examples_as(PrimitiveOrArrayTypeSpec::Strings) && x
                    == self.invalid_attribute(provenance, attribute.id(), STRINGS_WITHOUT_EXAMPLES@)
            },
    {
        let brief = violation_if(
            attribute.lacks_brief(),
            self.invalid_attribute(provenance, attribute.id(), ATTRIBUTE_WITHOUT_BRIEF@),
        );
        let string = violation_if(
            attribute.lacks_examples_as(PrimitiveOrArrayTypeSpec::String),
            self.invalid_attribute(provenance, attribute.id(), STRING_WITHOUT_EXAMPLES@),
        );
        let strings = violation_if(
            attribute.lacks_examples_as(PrimitiveOrArrayTypeSpec::Strings),
            self.invalid_attribute(provenance, attribute.id(), STRINGS_WITHOUT_EXAMPLES@),
        );
        lemma_rule_contributes(
            attribute.lacks_brief(),
            self.invalid_attribute(provenance, attribute.id(), ATTRIBUTE_WITHOUT_BRIEF@),
            x,
        );
        lemma_rule_contributes(
            attribute.lacks_examples_as(PrimitiveOrArrayTypeSpec::String),
            self.invalid_attribute(provenance, attribute.id(), STRING_WITHOUT_EXAMPLES@),
            x,
        );
        lemma_rule_contributes(
            attribute.lacks_examples_as(PrimitiveOrArrayTypeSpec::Strings),
            self.invalid_attribute(provenance, attribute.id(), STRINGS_WITHOUT_EXAMPLES@),
            x,
        );
        vstd::seq_lib::lemma_seq_concat_contains_all_elements(brief, string, x);
        vstd::seq_lib::lemma_seq_concat_contains_all_elements(brief + string, strings, x);
    }

    /// The violations of the rules on the kind of a group are one violation
    /// for each broken rule, and nothing else.
    pub proof fn lemma_kind_violations(self, provenance: Seq<char>, x: ErrorModel)
        ensures
            self.kind_violations(provenance).contains(x) <==> {
                ||| self.has_stray_span_kind() && x == self.invalid_group(
                    provenance,
                    SPAN_KIND_OUTSIDE_SPAN@,
                )
                ||| self.has_stray_events() && x == self.invalid_group(
                    provenance,
                    EVENTS_OUTSIDE_SPAN@,
                )
                ||| self.is_unnamed_event() && x == self.invalid_group(
                    provenance,
                    EVENT_WITHOUT_NAME@,
                )
                ||| self.metric_violations(provenance).contains(x)
            },
            self.metric_violations(provenance).contains(x) <==> self.kind == GroupType::Metric && {
                ||| self.metric_name is None && x == self.invalid_metric(
                    provenance,
                    METRIC_WITHOUT_NAME@,
                )
                ||| self.instrument is None && x == self.invalid_metric(
                    provenance,
                    METRIC_WITHOUT_INSTRUMENT@,
                )
                ||| self.unit is None && x == self.invalid_metric(provenance, METRIC_WITHOUT_UNIT@)
            },
    {
        let span_kind = violation_if(
            self.has_stray_span_kind(),
            self.invalid_group(provenance, SPAN_KIND_OUTSIDE_SPAN@),
        );
        let events = violation_if(
            self.has_stray_events(),
            self.invalid_group(provenance, EVENTS_OUTSIDE_SPAN@),
        );
        let name = violation_if(
            self.kind == GroupType::Metric && self.metric_name is None,
            self.invalid_metric(provenance, METRIC_WITHOUT_NAME@),
        );
        let instrument = violation_if(
            self.kind == GroupType::Metric && self.instrument is None,
            self.invalid_metric(provenance, METRIC_WITHOUT_INSTRUMENT@),
        );
        let unit = violation_if(
            self.kind == GroupType::Metric && self.unit is None,
            self.invalid_metric(provenance, METRIC_WITHOUT_UNIT@),
        );
        lemma_rule_contributes(
            self.has_stray_span_kind(),
            self.invalid_group(provenance, SPAN_KIND_OUTSIDE_SPAN@),
            x,
        );
        lemma_rule_contributes(
            self.has_stray_events(),
            self.invalid_group(provenance, EVENTS_OUTSIDE_SPAN@),
            x,
        );
        lemma_rule_contributes(
            self.is_unnamed_event(),
            self.invalid_group(provenance, EVENT_WITHOUT_NAME@),
            x,
        );
        lemma_rule_contributes(
            self.kind == GroupType::Metric && self.metric_name is None,
            self.invalid_metric(provenance, METRIC_WITHOUT_NAME@),
            x,
        );
        lemma_rule_contributes(
            self.kind == GroupType::Metric && self.instrument is None,
            self.invalid_metric(provenance, METRIC_WITHOUT_INSTRUMENT@),
            x,
        );
        lemma_rule_contributes(
            self.kind == GroupType::Metric && self.unit is None,
            self.invalid_metric(provenance, METRIC_WITHOUT_UNIT@),
            x,
        );
        vstd::seq_lib::lemma_seq_concat_contains_all_elements(span_kind, events, x);
        vstd::seq_lib::lemma_seq_concat_contains_all_elements(name, instrument, x);
        vstd::seq_lib::lemma_seq_concat_contains_all_elements(name + instrument, unit, x);
        vstd::seq_lib::lemma_seq_concat_contains_all_elements(
            self.span_violations(provenance),
            self.event_violations(provenance),
            x,
        );
        vstd::seq_lib::lemma_seq_concat_contains_all_elements(
            self.span_violations(provenance) + self.event_violations(provenance),
            self.metric_violations(provenance),
            x,
        );
    }

    /// The violations of the attributes of a group are those of each
    /// attribute, and nothing else.
    pub proof fn lemma_attributes_violations(self, provenance: Seq<char>, x: ErrorModel)
        ensures
            self.per_attribute(provenance).flatten().contains(x) <==> exists|i: int|
                0 <= i < self.attributes.len() && self.attribute_violations(
                    provenance,
                    #[trigger] self.attributes[i],
                ).contains(x),
    {
        let each = self.per_attribute(provenance);
        lemma_flatten_contains(each, x);
        if each.flatten().contains(x) {
            let i = choose|i: int| 0 <= i < each.len() && (#[trigger] each[i]).contains(x);
            assert(self.attribute_violations(provenance, self.attributes[i]).contains(x));
        }
        if exists|i: int|
            0 <= i < self.attributes.len() && self.attribute_violations(
                provenance,
                #[trigger] self.attributes[i],
            ).contains(x) {
            let i = choose|i: int|
                0 <= i < self.attributes.len() && self.attribute_violations(
                    provenance,
                    #[trigger] self.attributes[i],
                ).contains(x);
            assert(each[i].contains(x));
        }
    }

    /// The violations of a group are those of the rules on its kind and
    /// those of each of its attributes, and nothing else.
    pub proof fn lemma_violations(self, provenance: Seq<char>, x: ErrorModel)
        ensures
            self.violations(provenance).contains(x) <==> {
                ||| self.kind_violations(provenance).contains(x)
                ||| exists|i: int|
                    0 <= i < self.attributes.len() && self.attribute_violations(
                        provenance,
                        #[trigger] self.attributes[i],
                    ).contains(x)
            },
    {
        self.lemma_attributes_violations(provenance, x);
        vstd::seq_lib::lemma_seq_concat_contains_all_elements(
            self.kind_violations(provenance),
            self.per_attribute(provenance).flatten(),
            x,
        );
    }
}

/// A filter keeps a list whose members all pass.
proof fn lemma_filter_keeps_all(list: Seq<ErrorModel>, pass: spec_fn(ErrorModel) -> bool)
    requires
        forall|i: int| 0 <= i < list.len() ==> pass(#[trigger] list[i]),
    ensures
        list.filter(pass) == list,
    decreases list.len(),
{
    reveal(Seq::filter);
    if list.len() > 0 {
        lemma_filter_keeps_all(list.drop_last(), pass);
        assert(list.drop_last().push(list.last()) =~= list);
    }
}

/// A filter leaves nothing of a list none of whose members pass.
proof fn lemma_filter_drops_all(list: Seq<ErrorModel>, pass: spec_fn(ErrorModel) -> bool)
    requires
        forall|i: int| 0 <= i < list.len() ==> !pass(#[trigger] list[i]),
    ensures
        list.filter(pass) == Seq::<ErrorModel>::empty(),
    decreases list.len(),
{
    reveal(Seq::filter);
    if list.len() > 0 {
        lemma_filter_drops_all(list.drop_last(), pass);
    }
}

impl GroupModel {
    /// A span kind on a group that is no span is reported, and so are events
    /// on such a group, each by a violation of its own, so that both may
    /// occur together. Neither is reported of a span, or of a group without
    /// the field.
    pub proof fn lemma_span_fields_outside_span(self, provenance: Seq<char>)
        ensures
            self.violations(provenance).contains(
                self.invalid_group(provenance, SPAN_KIND_OUTSIDE_SPAN@),
            ) <==> self.kind != GroupType::Span && self.span_kind is Some,
            self.violations(provenance).contains(
                self.invalid_group(provenance, EVENTS_OUTSIDE_SPAN@),
            ) <==> self.kind != GroupType::Span && self.events.len() > 0,
            self.invalid_group(provenance, SPAN_KIND_OUTSIDE_SPAN@) != self.invalid_group(
                provenance,
                EVENTS_OUTSIDE_SPAN@,
            ),
    {
        lemma_messages_are_distinct();
        let span_kind = self.invalid_group(provenance, SPAN_KIND_OUTSIDE_SPAN@);
        let events = self.invalid_group(provenance, EVENTS_OUTSIDE_SPAN@);
        self.lemma_violations(provenance, span_kind);
        self.lemma_kind_violations(provenance, span_kind);
        self.lemma_only_definitions_are_reported(provenance, span_kind);
        self.lemma_violations(provenance, events);
        self.lemma_kind_violations(provenance, events);
        self.lemma_only_definitions_are_reported(provenance, events);
    }

    /// An event with neither a prefix nor a name is reported as such, and no
    /// other group is.
    pub proof fn lemma_unnamed_event(self, provenance: Seq<char>)
        ensures
            self.violations(provenance).contains(
                self.invalid_group(provenance, EVENT_WITHOUT_NAME@),
            ) <==> self.kind == GroupType::Event && self.prefix.len() == 0 && self.name is None,
    {
        lemma_messages_are_distinct();
        let unnamed = self.invalid_group(provenance, EVENT_WITHOUT_NAME@);
        self.lemma_violations(provenance, unnamed);
        self.lemma_kind_violations(provenance, unnamed);
        self.lemma_only_definitions_are_reported(provenance, unnamed);
    }

    /// A missing metric field is among the violations of a group if and only
    /// if the group is a metric that lacks the field; the three fields are
    /// judged independently of each other.
    pub proof fn lemma_missing_metric_fields(self, provenance: Seq<char>)
        ensures
            self.violations(provenance).contains(
                self.invalid_metric(provenance, METRIC_WITHOUT_NAME@),
            ) <==> self.kind == GroupType::Metric && self.metric_name is None,
            self.violations(provenance).contains(
                self.invalid_metric(provenance, METRIC_WITHOUT_INSTRUMENT@),
            ) <==> self.kind == GroupType::Metric && self.instrument is None,
            self.violations(provenance).contains(
                self.invalid_metric(provenance, METRIC_WITHOUT_UNIT@),
            ) <==> self.kind == GroupType::Metric && self.unit is None,
    {
        lemma_messages_are_distinct();
        let name = self.invalid_metric(provenance, METRIC_WITHOUT_NAME@);
        let instrument = self.invalid_metric(provenance, METRIC_WITHOUT_INSTRUMENT@);
        let unit = self.invalid_metric(provenance, METRIC_WITHOUT_UNIT@);
        self.lemma_violations(provenance, name);
        self.lemma_kind_violations(provenance, name);
        self.lemma_only_definitions_are_reported(provenance, name);
        self.lemma_violations(provenance, instrument);
        self.lemma_kind_violations(provenance, instrument);
        self.lemma_only_definitions_are_reported(provenance, instrument);
        self.lemma_violations(provenance, unit);
        self.lemma_kind_violations(provenance, unit);
        self.lemma_only_definitions_are_reported(provenance, unit);
    }

    /// The rules on spans, events and attributes report no missing metric
    /// field.
    proof fn lemma_other_rules_report_no_metric_field(self, provenance: Seq<char>)
        ensures
            self.span_violations(provenance).filter(is_invalid_metric()) == Seq::<
                ErrorModel,
            >::empty(),
            self.event_violations(provenance).filter(is_invalid_metric()) == Seq::<
                ErrorModel,
            >::empty(),
            self.per_attribute(provenance).flatten().filter(is_invalid_metric()) == Seq::<
                ErrorModel,
            >::empty(),
    {
        let pass = is_invalid_metric();
        let rest = self.per_attribute(provenance).flatten();
        assert forall|i: int| 0 <= i < rest.len() implies !pass(#[trigger] rest[i]) by {
            assert(rest.contains(rest[i]));
            self.lemma_attributes_violations(provenance, rest[i]);
            self.lemma_only_definitions_are_reported(provenance, rest[i]);
        }
        lemma_filter_drops_all(rest, pass);
        lemma_filter_drops_all(self.span_violations(provenance), pass);
        lemma_filter_drops_all(self.event_violations(provenance), pass);
    }

    /// The rules on metrics report missing metric fields only, each missing
    /// field once.
    proof fn lemma_metric_rules_report_each_field_once(self, provenance: Seq<char>)
        ensures
            self.metric_violations(provenance).filter(is_invalid_metric())
                == self.metric_violations(provenance),
            self.metric_violations(provenance).len() == self.missing_metric_fields(),
            self.metric_violations(provenance).no_duplicates(),
    {
        lemma_messages_are_distinct();
        lemma_three_rules(
            (
                self.kind == GroupType::Metric && self.metric_name is None,
                self.invalid_metric(provenance, METRIC_WITHOUT_NAME@),
            ),
            (
                self.kind == GroupType::Metric && self.instrument is None,
                self.invalid_metric(provenance, METRIC_WITHOUT_INSTRUMENT@),
            ),
            (
                self.kind == GroupType::Metric && self.unit is None,
                self.invalid_metric(provenance, METRIC_WITHOUT_UNIT@),
            ),
        );
        lemma_filter_keeps_all(self.metric_violations(provenance), is_invalid_metric());
    }

    /// Each field that a metric lacks is reported by exactly one violation:
    /// the missing metric fields among the violations of a group are those of
    /// the rules on metrics, as many as fields are missing, and no two of
    /// them are the same.
    pub proof fn lemma_one_violation_per_missing_metric_field(self, provenance: Seq<char>)
        ensures
            self.violations(provenance).filter(is_invalid_metric()) == self.metric_violations(
                provenance,
            ),
            self.metric_violations(provenance).len() == self.missing_metric_fields(),
            self.metric_violations(provenance).no_duplicates(),
    {
        let pass = is_invalid_metric();
        let span = self.span_violations(provenance);
        let event = self.event_violations(provenance);
        let metric = self.metric_violations(provenance);
        let rest = self.per_attribute(provenance).flatten();
        self.lemma_other_rules_report_no_metric_field(provenance);
        self.lemma_metric_rules_report_each_field_once(provenance);
        assert(self.violations(provenance).filter(pass) == metric) by {
            Seq::filter_distributes_over_add(span, event, pass);
            Seq::filter_distributes_over_add(span + event, metric, pass);
            Seq::filter_distributes_over_add(span + event + metric, rest, pass);
            assert(Seq::<ErrorModel>::empty() + Seq::<ErrorModel>::empty() + metric
                + Seq::<ErrorModel>::empty() =~= metric);
        }
    }

    /// The violations of the attributes are attribute errors, and only
    /// definitions are reported: a violation of an attribute names a
    /// definition among the attributes of the group.
    pub proof fn lemma_only_definitions_are_reported(
        self,
        provenance: Seq<char>,
        x: ErrorModel,
    )
        ensures
            (exists|i: int|
                0 <= i < self.attributes.len() && self.attribute_violations(
                    provenance,
                    #[trigger] self.attributes[i],
                ).contains(x)) ==> x is InvalidAttribute && exists|i: int|
                0 <= i < self.attributes.len() && (#[trigger] self.attributes[i]) is Id
                    && self.attributes[i].id() == x->attribute_id,
    {
        if exists|i: int|
            0 <= i < self.attributes.len() && self.attribute_violations(
                provenance,
                #[trigger] self.attributes[i],
            ).contains(x) {
            let i = choose|i: int|
                0 <= i < self.attributes.len() && self.attribute_violations(
                    provenance,
                    #[trigger] self.attributes[i],
                ).contains(x);
            self.lemma_attribute_violations(provenance, self.attributes[i], x);
            assert(self.attributes[i] is Id);
        }
    }

    /// A missing brief is reported under an attribute id if and only if the
    /// group has a definition of that id with neither a brief nor a
    /// deprecation notice: either of the two is enough for a definition not
    /// to be reported.
    pub proof fn lemma_missing_brief(self, provenance: Seq<char>, attribute_id: Seq<char>)
        ensures
            self.violations(provenance).contains(
                self.invalid_attribute(provenance, attribute_id, ATTRIBUTE_WITHOUT_BRIEF@),
            ) <==> exists|i: int|
                0 <= i < self.attributes.len() && (#[trigger] self.attributes[i]).id()
                    == attribute_id && self.attributes[i].lacks_brief(),
    {
        lemma_messages_are_distinct();
        let x = self.invalid_attribute(provenance, attribute_id, ATTRIBUTE_WITHOUT_BRIEF@);
        self.lemma_attribute_error_comes_from_attribute(provenance, x);
        if self.violations(provenance).contains(x) {
            let i = choose|i: int|
                0 <= i < self.attributes.len() && self.attribute_violations(
                    provenance,
                    #[trigger] self.attributes[i],
                ).contains(x);
            self.lemma_attribute_violations(provenance, self.attributes[i], x);
        }
        if exists|i: int|
            0 <= i < self.attributes.len() && (#[trigger] self.attributes[i]).id() == attribute_id
                && self.attributes[i].lacks_brief() {
            let i = choose|i: int|
                0 <= i < self.attributes.len() && (#[trigger] self.attributes[i]).id()
                    == attribute_id && self.attributes[i].lacks_brief();
            self.lemma_attribute_violations(provenance, self.attributes[i], x);
        }
    }

    /// Missing examples are reported under an attribute id if and only if
    /// the group has a definition of that id without examples whose type is
    /// exactly string, or exactly array of strings, each type with a message
    /// of its own.
    pub proof fn lemma_missing_examples(self, provenance: Seq<char>, attribute_id: Seq<char>)
        ensures
            self.violations(provenance).contains(
                self.invalid_attribute(provenance, attribute_id, STRING_WITHOUT_EXAMPLES@),
            ) <==> exists|i: int|
                0 <= i < self.attributes.len() && (#[trigger] self.attributes[i]).id()
                    == attribute_id && self.attributes[i].lacks_examples_as(
                    PrimitiveOrArrayTypeSpec::String,
                ),
            self.violations(provenance).contains(
                self.invalid_attribute(provenance, attribute_id, STRINGS_WITHOUT_EXAMPLES@),
            ) <==> exists|i: int|
                0 <= i < self.attributes.len() && (#[trigger] self.attributes[i]).id()
                    == attribute_id && self.attributes[i].lacks_examples_as(
                    PrimitiveOrArrayTypeSpec::Strings,
                ),
    {
        self.lemma_missing_examples_as(
            provenance,
            attribute_id,
            PrimitiveOrArrayTypeSpec::String,
            STRING_WITHOUT_EXAMPLES@,
        );
        self.lemma_missing_examples_as(
            provenance,
            attribute_id,
            PrimitiveOrArrayTypeSpec::Strings,
            STRINGS_WITHOUT_EXAMPLES@,
        );
    }

    /// The part of the rule on examples that is the same for both types.
    proof fn lemma_missing_examples_as(
        self,
        provenance: Seq<char>,
        attribute_id: Seq<char>,
        primitive: PrimitiveOrArrayTypeSpec,
        message: Seq<char>,
    )
        requires
            primitive == PrimitiveOrArrayTypeSpec::String && message == STRING_WITHOUT_EXAMPLES@
                || primitive == PrimitiveOrArrayTypeSpec::Strings && message
                == STRINGS_WITHOUT_EXAMPLES@,
        ensures
            self.violations(provenance).contains(
                self.invalid_attribute(provenance, attribute_id, message),
            ) <==> exists|i: int|
                0 <= i < self.attributes.len() && (#[trigger] self.attributes[i]).id()
                    == attribute_id && self.attributes[i].lacks_examples_as(primitive),
    {
        lemma_messages_are_distinct();
        let x = self.invalid_attribute(provenance, attribute_id, message);
        self.lemma_attribute_error_comes_from_attribute(provenance, x);
        if self.violations(provenance).contains(x) {
            let i = choose|i: int|
                0 <= i < self.attributes.len() && self.attribute_violations(
                    provenance,
                    #[trigger] self.attributes[i],
                ).contains(x);
            self.lemma_attribute_violations(provenance, self.attributes[i], x);
        }
        if exists|i: int|
            0 <= i < self.attributes.len() && (#[trigger] self.attributes[i]).id() == attribute_id
                && self.attributes[i].lacks_examples_as(primitive) {
            let i = choose|i: int|
                0 <= i < self.attributes.len() && (#[trigger] self.attributes[i]).id()
                    == attribute_id && self.attributes[i].lacks_examples_as(primitive);
            self.lemma_attribute_violations(provenance, self.attributes[i], x);
        }
    }

    /// An attribute error is among the violations of the group if and only
    /// if it is a violation of one of the attributes.
    proof fn lemma_attribute_error_comes_from_attribute(self, provenance: Seq<char>, x: ErrorModel)
        requires
            x is InvalidAttribute,
        ensures
            self.violations(provenance).contains(x) <==> exists|i: int|
                0 <= i < self.attributes.len() && self.attribute_violations(
                    provenance,
                    #[trigger] self.attributes[i],
                ).contains(x),
    {
        self.lemma_violations(provenance, x);
        self.lemma_kind_violations(provenance, x);
    }

    /// Examples of any form satisfy the rule on examples, whatever the
    /// declared type: a definition that has examples is reported at most for
    /// its missing brief.
    pub proof fn lemma_examples_suffice(self, provenance: Seq<char>, attribute: AttributeModel)
        requires
            attribute matches AttributeModel::Id { examples, .. } && examples is Some,
        ensures
            self.attribute_violations(provenance, attribute) == violation_if(
                attribute.lacks_brief(),
                self.invalid_attribute(provenance, attribute.id(), ATTRIBUTE_WITHOUT_BRIEF@),
            ),
    {
        assert(self.attribute_violations(provenance, attribute) =~= violation_if(
            attribute.lacks_brief(),
            self.invalid_attribute(provenance, attribute.id(), ATTRIBUTE_WITHOUT_BRIEF@),
        ));
    }

    /// A reference has no violations.
    pub proof fn lemma_reference_is_exempt(self, provenance: Seq<char>, attribute: AttributeModel)
        requires
            attribute is Ref,
        ensures
            self.attribute_violations(provenance, attribute) == Seq::<ErrorModel>::empty(),
    {
        assert(self.attribute_violations(provenance, attribute) =~= Seq::<ErrorModel>::empty());
    }

    /// A group whose attributes are all references has no violations but
    /// those of the rules on its kind.
    pub proof fn lemma_references_are_exempt(self, provenance: Seq<char>)
        requires
            forall|i: int|
                0 <= i < self.attributes.len() ==> (#[trigger] self.attributes[i]) is Ref,
        ensures
            self.violations(provenance) == self.kind_violations(provenance),
    {
        let rest = self.per_attribute(provenance).flatten();
        if rest.len() > 0 {
            assert(rest.contains(rest[0]));
            self.lemma_attributes_violations(provenance, rest[0]);
            self.lemma_only_definitions_are_reported(provenance, rest[0]);
        }
        assert(self.violations(provenance) =~= self.kind_violations(provenance));
    }

    /// A group has no violations if and only if it is acceptable, and
    /// exactly then its validation succeeds.
    pub proof fn lemma_conforms(self, provenance: Seq<char>)
        ensures
            self.conforms() <==> self.violations(provenance).len() == 0,
            self.conforms() <==> aggregate(self.violations(provenance)) is Ok,
    {
        let found = self.violations(provenance);
        if found.len() > 0 {
            let x = found[0];
            assert(found.contains(x));
            self.lemma_violations(provenance, x);
            self.lemma_kind_violations(provenance, x);
            if !self.kind_violations(provenance).contains(x) {
                let i = choose|i: int|
                    0 <= i < self.attributes.len() && self.attribute_violations(
                        provenance,
                        #[trigger] self.attributes[i],
                    ).contains(x);
                self.lemma_attribute_violations(provenance, self.attributes[i], x);
                assert(!self.attributes[i].conforms());
            }
            assert(!self.conforms());
        }
        if !self.conforms() {
            self.lemma_broken_rule_is_reported(provenance);
        }
    }

    /// A group that is not acceptable has a violation.
    proof fn lemma_broken_rule_is_reported(self, provenance: Seq<char>)
        requires
            !self.conforms(),
        ensures
            self.violations(provenance).len() > 0,
    {
        let found = self.violations(provenance);
        let x = if self.has_stray_span_kind() {
            self.invalid_group(provenance, SPAN_KIND_OUTSIDE_SPAN@)
        } else if self.has_stray_events() {
            self.invalid_group(provenance, EVENTS_OUTSIDE_SPAN@)
        } else if self.is_unnamed_event() {
            self.invalid_group(provenance, EVENT_WITHOUT_NAME@)
        } else if self.kind == GroupType::Metric && self.metric_name is None {
            self.invalid_metric(provenance, METRIC_WITHOUT_NAME@)
        } else if self.kind == GroupType::Metric && self.instrument is None {
            self.invalid_metric(provenance, METRIC_WITHOUT_INSTRUMENT@)
        } else if self.kind == GroupType::Metric && self.unit is None {
            self.invalid_metric(provenance, METRIC_WITHOUT_UNIT@)
        } else {
            let i = choose|i: int|
                0 <= i < self.attributes.len() && !(#[trigger] self.attributes[i]).conforms();
            let attribute = self.attributes[i];
            if attribute.lacks_brief() {
                self.invalid_attribute(provenance, attribute.id(), ATTRIBUTE_WITHOUT_BRIEF@)
            } else if attribute.lacks_examples_as(PrimitiveOrArrayTypeSpec::String) {
                self.invalid_attribute(provenance, attribute.id(), STRING_WITHOUT_EXAMPLES@)
            } else {
                self.invalid_attribute(provenance, attribute.id(), STRINGS_WITHOUT_EXAMPLES@)
            }
        };
        self.lemma_violations(provenance, x);
        self.lemma_kind_violations(provenance, x);
        if !self.kind_violations(provenance).contains(x) {
            let i = choose|i: int|
                0 <= i < self.attributes.len() && !(#[trigger] self.attributes[i]).conforms();
            self.lemma_attribute_violations(provenance, self.attributes[i], x);
        }
        assert(found.contains(x));
    }

    /// Each violation of a group is a single one, not a compound, and
    /// carries the provenance that was given and the id of the group.
    pub proof fn lemma_every_violation_names_the_group(self, provenance: Seq<char>)
        ensures
            forall|i: int|
                0 <= i < self.violations(provenance).len() ==> match #[trigger] self.violations(
                    provenance,
                )[i] {
                    ErrorModel::InvalidGroup { path_or_url, group_id, .. } => path_or_url
                        == provenance && group_id == self.id,
                    ErrorModel::InvalidMetric { path_or_url, group_id, .. } => path_or_url
                        == provenance && group_id == self.id,
                    ErrorModel::InvalidAttribute { path_or_url, group_id, .. } => path_or_url
                        == provenance && group_id == self.id,
                    ErrorModel::CompoundError(_) => false,
                },
    {
        let found = self.violations(provenance);
        assert forall|i: int| 0 <= i < found.len() implies match #[trigger] found[i] {
            ErrorModel::InvalidGroup { path_or_url, group_id, .. } => path_or_url == provenance
                && group_id == self.id,
            ErrorModel::InvalidMetric { path_or_url, group_id, .. } => path_or_url == provenance
                && group_id == self.id,
            ErrorModel::InvalidAttribute { path_or_url, group_id, .. } => path_or_url
                == provenance && group_id == self.id,
            ErrorModel::CompoundError(_) => false,
        } by {
            let x = found[i];
            assert(found.contains(x));
            self.lemma_violations(provenance, x);
            self.lemma_kind_violations(provenance, x);
            if !self.kind_violations(provenance).contains(x) {
                let j = choose|j: int|
                    0 <= j < self.attributes.len() && self.attribute_violations(
                        provenance,
                        #[trigger] self.attributes[j],
                    ).contains(x);
                self.lemma_attribute_violations(provenance, self.attributes[j], x);
            }
        }
    }

    /// The result of a validation reports exactly the violations of the
    /// group, in their order: none is dropped and none is added.
    pub proof fn lemma_every_violation_is_reported(self, provenance: Seq<char>)
        ensures
            reported(aggregate(self.violations(provenance))) == self.violations(provenance),
    {
        let found = self.violations(provenance);
        self.lemma_every_violation_names_the_group(provenance);
        if found.len() == 1 {
            assert(!(found[0] is CompoundError));
        }
        lemma_aggregate_reports_all(found);
    }
}

} // verus!
