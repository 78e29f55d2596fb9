//! The closed set of errors the pipeline can report.

use vstd::prelude::*;
use vstd::string::StringExecFns;

verus! {

/// Mathematical model of a [`SigError`]: the same variants over character
/// sequences.
pub ghost enum ErrModel {
    /// The metadata document could not be read or parsed; carries the path of
    /// the offending document.
    MetadataParse(Seq<char>),
    /// The declared sample encoding is not one of the supported ones; carries
    /// the offending identifier.
    UnsupportedDatatype(Seq<char>),
    /// The companion binary file is absent; carries the expected path.
    MissingDataFile(Seq<char>),
    /// A directory scan yielded no usable rows at all.
    NoValidFiles,
    /// A filter mapping could not be evaluated against the table schema;
    /// carries the offending column name.
    FilterEvaluation(Seq<char>),
}

/// A structured error of the ingestion and filtering pipeline.
#[derive(Debug)]
pub enum SigError {
    /// The metadata document at the carried path could not be read or parsed.
    MetadataParseError(String),
    /// The carried sample-encoding identifier is unsupported.
    UnsupportedDatatype(String),
    /// The companion binary file at the carried path does not exist.
    MissingDataFile(String),
    /// A directory yielded zero usable rows.
    NoValidFiles,
    /// Filtering failed structurally; carries the offending column name.
    FilterEvaluationError(String),
}

impl View for SigError {
    type V = ErrModel;

    open spec fn view(&self) -> ErrModel {
        match self {
            SigError::MetadataParseError(p) => ErrModel::MetadataParse(p@),
            SigError::UnsupportedDatatype(s) => ErrModel::UnsupportedDatatype(s@),
            SigError::MissingDataFile(p) => ErrModel::MissingDataFile(p@),
            SigError::NoValidFiles => ErrModel::NoValidFiles,
            SigError::FilterEvaluationError(c) => ErrModel::FilterEvaluation(c@),
        }
    }
}

impl SigError {
    /// A human-readable description of the error.
    pub fn message(&self) -> (r: String)
        ensures
            r@ == match self@ {
                ErrModel::MetadataParse(p) => "failed to parse metadata document: "@ + p,
                ErrModel::UnsupportedDatatype(s) => "unsupported datatype: "@ + s,
                ErrModel::MissingDataFile(p) => "data file does not exist: "@ + p,
                ErrModel::NoValidFiles => "no valid SigMF files found in directory"@,
                ErrModel::FilterEvaluation(c) => "cannot filter on column: "@ + c,
            },
    {
        match self {
            SigError::MetadataParseError(p) => {
                String::from_str("failed to parse metadata document: ").concat(p.as_str())
            },
            SigError::UnsupportedDatatype(s) => {
                String::from_str("unsupported datatype: ").concat(s.as_str())
            },
            SigError::MissingDataFile(p) => {
                String::from_str("data file does not exist: ").concat(p.as_str())
            },
            SigError::NoValidFiles => {
                String::from_str("no valid SigMF files found in directory")
            },
            SigError::FilterEvaluationError(c) => {
                String::from_str("cannot filter on column: ").concat(c.as_str())
            },
        }
    }
}

} // verus!
