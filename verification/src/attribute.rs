//! Attributes of a group: defined in place, or referring to a definition
//! made elsewhere.

use vstd::prelude::*;
use crate::stability::Stability;

verus! {

/// The primitive types and the arrays of them.
#[derive(Debug, Clone, Copy, PartialEq, Eq, Hash, Structural)]
pub enum PrimitiveOrArrayTypeSpec {
    /// A boolean.
    Boolean,
    /// A 64-bit signed integer.
    Int,
    /// A double-precision number.
    Double,
    /// A string.
    String,
    /// An array of strings.
    Strings,
    /// An array of integers.
    Ints,
    /// An array of double-precision numbers.
    Doubles,
    /// An array of booleans.
    Booleans,
}

/// The declared type of an attribute.
#[derive(Debug, Clone, PartialEq, Eq)]
pub enum AttributeType {
    /// A primitive type or an array of one.
    PrimitiveOrArray(PrimitiveOrArrayTypeSpec),
    /// A closed or open set of named members.
    Enum {
        /// Whether values outside `members` are allowed.
        allow_custom_values: bool,
        /// The ids of the members.
        members: Vec<String>,
    },
}

/// The mathematical value of an [`AttributeType`].
pub enum AttributeTypeModel {
    PrimitiveOrArray(PrimitiveOrArrayTypeSpec),
    Enum { allow_custom_values: bool, members: Seq<Seq<char>> },
}

impl DeepView for AttributeType {
    type V = AttributeTypeModel;

    open spec fn deep_view(&self) -> AttributeTypeModel {
        match self {
            AttributeType::PrimitiveOrArray(primitive) => AttributeTypeModel::PrimitiveOrArray(
                *primitive,
            ),
            AttributeType::Enum { allow_custom_values, members } => AttributeTypeModel::Enum {
                allow_custom_values: *allow_custom_values,
                members: members.deep_view(),
            },
        }
    }
}

/// Example values of an attribute. A double-precision number is held as its
/// IEEE 754 binary64 bit pattern.
#[derive(Debug, Clone, PartialEq, Eq)]
pub enum Examples {
    /// One boolean.
    Bool(bool),
    /// One integer.
    Int(i64),
    /// One double-precision number, as its bit pattern.
    Double(u64),
    /// One string.
    String(String),
    /// Several integers.
    Ints(Vec<i64>),
    /// Several double-precision numbers, each as its bit pattern.
    Doubles(Vec<u64>),
    /// Several booleans.
    Bools(Vec<bool>),
    /// Several strings.
    Strings(Vec<String>),
}

/// The mathematical value of [`Examples`].
pub enum ExamplesModel {
    Bool(bool),
    Int(i64),
    Double(u64),
    String(Seq<char>),
    Ints(Seq<i64>),
    Doubles(Seq<u64>),
    Bools(Seq<bool>),
    Strings(Seq<Seq<char>>),
}

impl DeepView for Examples {
    type V = ExamplesModel;

    open spec fn deep_view(&self) -> ExamplesModel {
        match self {
            Examples::Bool(b) => ExamplesModel::Bool(*b),
            Examples::Int(n) => ExamplesModel::Int(*n),
            Examples::Double(bits) => ExamplesModel::Double(*bits),
            Examples::String(s) => ExamplesModel::String(s@),
            Examples::Ints(ns) => ExamplesModel::Ints(ns@),
            Examples::Doubles(bits) => ExamplesModel::Doubles(bits@),
            Examples::Bools(bs) => ExamplesModel::Bools(bs@),
            Examples::Strings(ss) => ExamplesModel::Strings(ss.deep_view()),
        }
    }
}

/// The requirement levels that need no explanation.
#[derive(Debug, Clone, Copy, PartialEq, Eq, Hash, Structural)]
pub enum BasicRequirementLevelSpec {
    /// The attribute must be set.
    Required,
    /// The attribute should be set.
    Recommended,
    /// The attribute is set only on request.
    OptIn,
}

/// How strongly an attribute is asked for.
#[derive(Debug, Clone, PartialEq, Eq)]
pub enum RequirementLevel {
    /// One of the basic levels.
    Basic(BasicRequirementLevelSpec),
    /// Required when the condition given in `text` holds.
    ConditionallyRequired {
        /// The condition.
        text: String,
    },
    /// Recommended, for the reason given in `text`.
    Recommended {
        /// The reason.
        text: String,
    },
}

/// The mathematical value of a [`RequirementLevel`].
pub enum RequirementLevelModel {
    Basic(BasicRequirementLevelSpec),
    ConditionallyRequired { text: Seq<char> },
    Recommended { text: Seq<char> },
}

impl DeepView for RequirementLevel {
    type V = RequirementLevelModel;

    open spec fn deep_view(&self) -> RequirementLevelModel {
        match self {
            RequirementLevel::Basic(level) => RequirementLevelModel::Basic(*level),
            RequirementLevel::ConditionallyRequired { text } => {
                RequirementLevelModel::ConditionallyRequired { text: text@ }
            },
            RequirementLevel::Recommended { text } => RequirementLevelModel::Recommended {
                text: text@,
            },
        }
    }
}

impl Default for RequirementLevel {
    /// An attribute is recommended unless it says otherwise.
    fn default() -> (level: RequirementLevel)
        ensures
            level == RequirementLevel::Basic(BasicRequirementLevelSpec::Recommended),
    {
        RequirementLevel::Basic(BasicRequirementLevelSpec::Recommended)
    }
}

/// An attribute of a group.
#[derive(Debug, Clone, PartialEq, Eq)]
pub enum AttributeSpec {
    /// A reference to an attribute that is defined elsewhere.
    Ref {
        /// The id of the attribute referred to.
        ref_id: String,
        /// A tag by which attributes are grouped.
        tag: Option<String>,
        /// Replaces the requirement level of the definition.
        requirement_level: Option<RequirementLevel>,
        /// Replaces the sampling relevance of the definition.
        sampling_relevant: Option<bool>,
        /// Replaces the note of the definition.
        note: Option<String>,
        /// Replaces the stability of the definition.
        stability: Option<Stability>,
        /// Replaces the deprecation notice of the definition.
        deprecated: Option<String>,
    },
    /// A definition made in place.
    Id {
        /// The id of the attribute.
        id: String,
        /// The declared type.
        ty: AttributeType,
        /// A short description.
        brief: Option<String>,
        /// Example values.
        examples: Option<Examples>,
        /// A tag by which attributes are grouped.
        tag: Option<String>,
        /// How strongly the attribute is asked for.
        requirement_level: RequirementLevel,
        /// Whether a sampler may need the attribute.
        sampling_relevant: Option<bool>,
        /// A longer description.
        note: String,
        /// How settled the attribute is.
        stability: Option<Stability>,
        /// Why the attribute is deprecated, or what replaces it.
        deprecated: Option<String>,
    },
}

/// The mathematical value of an [`AttributeSpec`].
pub enum AttributeModel {
    Ref {
        ref_id: Seq<char>,
        tag: Option<Seq<char>>,
        requirement_level: Option<RequirementLevelModel>,
        sampling_relevant: Option<bool>,
        note: Option<Seq<char>>,
        stability: Option<Stability>,
        deprecated: Option<Seq<char>>,
    },
    Id {
        id: Seq<char>,
        ty: AttributeTypeModel,
        brief: Option<Seq<char>>,
        examples: Option<ExamplesModel>,
        tag: Option<Seq<char>>,
        requirement_level: RequirementLevelModel,
        sampling_relevant: Option<bool>,
        note: Seq<char>,
        stability: Option<Stability>,
        deprecated: Option<Seq<char>>,
    },
}

impl AttributeModel {
    /// The id by which the attribute is known: its own, or the one it
    /// refers to.
    pub open spec fn id(self) -> Seq<char> {
        match self {
            AttributeModel::Ref { ref_id, .. } => ref_id,
            AttributeModel::Id { id, .. } => id,
        }
    }
}

impl DeepView for AttributeSpec {
    type V = AttributeModel;

    open spec fn deep_view(&self) -> AttributeModel {
        match self {
            AttributeSpec::Ref {
                ref_id,
                tag,
                requirement_level,
                sampling_relevant,
                note,
                stability,
                deprecated,
            } => AttributeModel::Ref {
                ref_id: ref_id@,
                tag: tag.deep_view(),
                requirement_level: requirement_level.deep_view(),
                sampling_relevant: *sampling_relevant,
                note: note.deep_view(),
                stability: *stability,
                deprecated: deprecated.deep_view(),
            },
            AttributeSpec::Id {
                id,
                ty,
                brief,
                examples,
                tag,
                requirement_level,
                sampling_relevant,
                note,
                stability,
                deprecated,
            } => AttributeModel::Id {
                id: id@,
                ty: ty.deep_view(),
                brief: brief.deep_view(),
                examples: examples.deep_view(),
                tag: tag.deep_view(),
                requirement_level: requirement_level.deep_view(),
                sampling_relevant: *sampling_relevant,
                note: note@,
                stability: *stability,
                deprecated: deprecated.deep_view(),
            },
        }
    }
}

impl AttributeSpec {
    /// The id by which the attribute is known: its own, or the one it
    /// refers to.
    pub fn id(&self) -> (id: String)
        ensures
            id@ == self.deep_view().id(),
    {
        match self {
            AttributeSpec::Ref { ref_id, .. } => ref_id.clone(),
            AttributeSpec::Id { id, .. } => id.clone(),
        }
    }
}

} // verus!
