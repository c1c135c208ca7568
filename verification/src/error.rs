//! Validation errors and how a list of them is folded into one result.

use vstd::prelude::*;

verus! {

/// A violation found in a group record.
#[derive(Debug, PartialEq, Eq)]
pub enum Error {
    /// A group-level rule was broken.
    InvalidGroup {
        /// Where the record came from.
        path_or_url: String,
        /// The id of the offending group.
        group_id: String,
        /// What is wrong.
        error: String,
    },
    /// A metric group lacks a required field.
    InvalidMetric {
        /// Where the record came from.
        path_or_url: String,
        /// The id of the offending group.
        group_id: String,
        /// What is wrong.
        error: String,
    },
    /// An attribute of the group broke a rule.
    InvalidAttribute {
        /// Where the record came from.
        path_or_url: String,
        /// The id of the group that holds the attribute.
        group_id: String,
        /// The id of the offending attribute.
        attribute_id: String,
        /// What is wrong.
        error: String,
    },
    /// Several violations found in one pass, in the order they were found.
    CompoundError(Vec<Error>),
}

/// The mathematical value of an [`Error`].
pub enum ErrorModel {
    InvalidGroup { path_or_url: Seq<char>, group_id: Seq<char>, error: Seq<char> },
    InvalidMetric { path_or_url: Seq<char>, group_id: Seq<char>, error: Seq<char> },
    InvalidAttribute {
        path_or_url: Seq<char>,
        group_id: Seq<char>,
        attribute_id: Seq<char>,
        error: Seq<char>,
    },
    CompoundError(Seq<ErrorModel>),
}

impl Error {
    /// The mathematical value of this error: its strings as sequences of
    /// characters, a compound error as the sequence of its members' values.
    pub open spec fn model(self) -> ErrorModel
        decreases self,
    {
        match self {
            Error::InvalidGroup { path_or_url, group_id, error } => ErrorModel::InvalidGroup {
                path_or_url: path_or_url@,
                group_id: group_id@,
                error: error@,
            },
            Error::InvalidMetric { path_or_url, group_id, error } => ErrorModel::InvalidMetric {
                path_or_url: path_or_url@,
                group_id: group_id@,
                error: error@,
            },
            Error::InvalidAttribute {
                path_or_url,
                group_id,
                attribute_id,
                error,
            } => ErrorModel::InvalidAttribute {
                path_or_url: path_or_url@,
                group_id: group_id@,
                attribute_id: attribute_id@,
                error: error@,
            },
            Error::CompoundError(errors) => ErrorModel::CompoundError(
                Seq::new(
                    errors@.len(),
                    |i: int|
                        if 0 <= i < errors@.len() {
                            errors@[i].model()
                        } else {
                            arbitrary()
                        },
                ),
            ),
        }
    }
}

impl DeepView for Error {
    type V = ErrorModel;

    open spec fn deep_view(&self) -> ErrorModel {
        self.model()
    }
}

impl Error {
    /// The value of a compound error is the compound of its members' values.
    pub proof fn lemma_compound_model(errors: Vec<Error>)
        ensures
            Error::CompoundError(errors).deep_view() == ErrorModel::CompoundError(
                errors.deep_view(),
            ),
    {
        assert(Error::CompoundError(errors).deep_view()->CompoundError_0 =~= errors.deep_view());
    }
}

impl Clone for Error {
    /// A copy with the same mathematical value.
    fn clone(&self) -> (result: Error)
        ensures
            result.deep_view() == self.deep_view(),
        decreases self,
    {
        match self {
            Error::InvalidGroup { path_or_url, group_id, error } => Error::InvalidGroup {
                path_or_url: path_or_url.clone(),
                group_id: group_id.clone(),
                error: error.clone(),
            },
            Error::InvalidMetric { path_or_url, group_id, error } => Error::InvalidMetric {
                path_or_url: path_or_url.clone(),
                group_id: group_id.clone(),
                error: error.clone(),
            },
            Error::InvalidAttribute {
                path_or_url,
                group_id,
                attribute_id,
                error,
            } => Error::InvalidAttribute {
                path_or_url: path_or_url.clone(),
                group_id: group_id.clone(),
                attribute_id: attribute_id.clone(),
                error: error.clone(),
            },
            Error::CompoundError(errors) => {
                let mut copies: Vec<Error> = Vec::new();
                let mut i: usize = 0;
                while i < errors.len()
                    invariant
                        *self == Error::CompoundError(*errors),
                        i <= errors.len(),
                        copies.len() == i,
                        forall|j: int|
                            0 <= j < i ==> (#[trigger] copies[j]).deep_view()
                                == errors[j].deep_view(),
                    decreases errors.len() - i,
                {
                    assert(decreases_to!(*self => self->CompoundError_0));
                    copies.push(errors[i].clone());
                    i += 1;
                }
                proof {
                    assert(copies.deep_view() =~= errors.deep_view());
                    Error::lemma_compound_model(copies);
                    Error::lemma_compound_model(*errors);
                }
                Error::CompoundError(copies)
            },
        }
    }
}

impl ErrorModel {
    /// The violations that this error reports: the members of a compound
    /// error, or the error itself.
    pub open spec fn parts(self) -> Seq<ErrorModel> {
        match self {
            ErrorModel::CompoundError(members) => members,
            _ => seq![self],
        }
    }
}

/// The mathematical value of what a validation returns.
pub open spec fn result_model(result: Result<(), Error>) -> Result<(), ErrorModel> {
    match result {
        Ok(_) => Ok(()),
        Err(error) => Err(error.deep_view()),
    }
}

/// What a list of violations comes to: success if there is none, the
/// violation itself if there is one, else one compound error that holds them
/// all in their order.
pub open spec fn aggregate(violations: Seq<ErrorModel>) -> Result<(), ErrorModel> {
    if violations.len() == 0 {
        Ok(())
    } else if violations.len() == 1 {
        Err(violations[0])
    } else {
        Err(ErrorModel::CompoundError(violations))
    }
}

/// The violations that an outcome reports.
pub open spec fn reported(outcome: Result<(), ErrorModel>) -> Seq<ErrorModel> {
    match outcome {
        Ok(_) => Seq::empty(),
        Err(error) => error.parts(),
    }
}

/// The outcome of a list of violations reports exactly the list, in the
/// same order, as long as the list does not consist of one compound error.
pub proof fn lemma_aggregate_reports_all(violations: Seq<ErrorModel>)
    requires
        violations.len() == 1 ==> !(violations[0] is CompoundError),
    ensures
        reported(aggregate(violations)) == violations,
{
    assert(reported(aggregate(violations)) =~= violations);
}

/// Folds the violations found in one pass into one result: success if there
/// is none, the violation itself if there is one, else a compound error that
/// holds them all in their order.
pub fn handle_errors(errors: Vec<Error>) -> (result: Result<(), Error>)
    ensures
        result_model(result) == aggregate(errors.deep_view()),
{
    let mut errors = errors;
    if errors.is_empty() {
        Ok(())
    } else if errors.len() == 1 {
        Err(errors.pop().unwrap())
    } else {
        proof {
            Error::lemma_compound_model(errors);
        }
        Err(Error::CompoundError(errors))
    }
}

} // verus!
