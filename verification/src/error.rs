use vstd::prelude::*;

verus! {

/// Spec-level image of a compilation error: the same cases as `PolicyError`,
/// with the texts as character sequences.
pub enum ErrorModel {
    MissingLabelName,
    UnknownTransform { label: Seq<char>, transform: Seq<char> },
    InvalidPattern { pattern: Seq<char> },
    DuplicatePath { path: Seq<char> },
}

/// A configuration error.  Compilation is all-or-nothing: any of these aborts
/// the whole compilation and no partial policy set is returned.
#[derive(Debug, PartialEq, Eq)]
pub enum PolicyError {
    /// A label declaration lacks a string `name`.
    MissingLabelName,
    /// A label references a transform name that is not registered; carries
    /// both the label and the unknown name.
    UnknownTransform { label: String, transform: String },
    /// An `except_uri` or `users` value is not a syntactically valid pattern.
    InvalidPattern { pattern: String },
    /// The same endpoint path was declared twice.
    DuplicatePath { path: String },
}

impl View for PolicyError {
    type V = ErrorModel;

    open spec fn view(&self) -> ErrorModel {
        match self {
            PolicyError::MissingLabelName => ErrorModel::MissingLabelName,
            PolicyError::UnknownTransform { label, transform } => (ErrorModel::UnknownTransform {
                label: label@,
                transform: transform@,
            }),
            PolicyError::InvalidPattern { pattern } => (ErrorModel::InvalidPattern {
                pattern: pattern@,
            }),
            PolicyError::DuplicatePath { path } => (ErrorModel::DuplicatePath { path: path@ }),
        }
    }
}

} // verus!
