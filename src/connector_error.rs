//! Errors reported while parsing and validating native types.

use vstd::prelude::*;

verus! {

/// An error about a native type, with the names it concerns.
#[derive(Debug)]
pub enum ConnectorError {
    /// The scale of a decimal type exceeds its precision.
    ScaleLargerThanPrecision { native_type: String, connector_name: String },
    /// An argument lies outside the range that the database accepts.
    ArgumentOutOfRange { message: String, native_type: String, connector_name: String },
    /// A large-object type on a field of a unique constraint.
    IncompatibleNativeTypeWithUnique { native_type: String, connector_name: String },
    /// A large-object type on a field of the primary key.
    IncompatibleNativeTypeWithId { native_type: String, connector_name: String },
    /// A large-object type on a field of an index.
    IncompatibleNativeTypeWithIndex { native_type: String, connector_name: String },
    /// A type was given another number of arguments than it takes.
    ArgumentCountMismatch { native_type: String, required_count: usize, given_count: usize },
    /// An argument is not a number.
    ValueParserError { expected_type: String, raw: String },
    /// No constructor of the connector carries this name.
    NativeTypeNameUnknown { native_type: String, connector_name: String },
}

/// The mathematical value of a [`ConnectorError`].
pub enum ErrorView {
    ScaleLargerThanPrecision { native_type: Seq<char>, connector_name: Seq<char> },
    ArgumentOutOfRange { message: Seq<char>, native_type: Seq<char>, connector_name: Seq<char> },
    IncompatibleNativeTypeWithUnique { native_type: Seq<char>, connector_name: Seq<char> },
    IncompatibleNativeTypeWithId { native_type: Seq<char>, connector_name: Seq<char> },
    IncompatibleNativeTypeWithIndex { native_type: Seq<char>, connector_name: Seq<char> },
    ArgumentCountMismatch { native_type: Seq<char>, required_count: nat, given_count: nat },
    ValueParserError { expected_type: Seq<char>, raw: Seq<char> },
    NativeTypeNameUnknown { native_type: Seq<char>, connector_name: Seq<char> },
}

impl View for ConnectorError {
    type V = ErrorView;

    open spec fn view(&self) -> ErrorView {
        match self {
            ConnectorError::ScaleLargerThanPrecision { native_type, connector_name } =>
                ErrorView::ScaleLargerThanPrecision {
                native_type: native_type@,
                connector_name: connector_name@,
            },
            ConnectorError::ArgumentOutOfRange { message, native_type, connector_name } =>
                ErrorView::ArgumentOutOfRange {
                message: message@,
                native_type: native_type@,
                connector_name: connector_name@,
            },
            ConnectorError::IncompatibleNativeTypeWithUnique { native_type, connector_name } =>
                ErrorView::IncompatibleNativeTypeWithUnique {
                native_type: native_type@,
                connector_name: connector_name@,
            },
            ConnectorError::IncompatibleNativeTypeWithId { native_type, connector_name } =>
                ErrorView::IncompatibleNativeTypeWithId {
                native_type: native_type@,
                connector_name: connector_name@,
            },
            ConnectorError::IncompatibleNativeTypeWithIndex { native_type, connector_name } =>
                ErrorView::IncompatibleNativeTypeWithIndex {
                native_type: native_type@,
                connector_name: connector_name@,
            },
            ConnectorError::ArgumentCountMismatch { native_type, required_count, given_count } =>
                ErrorView::ArgumentCountMismatch {
                native_type: native_type@,
                required_count: *required_count as nat,
                given_count: *given_count as nat,
            },
            ConnectorError::ValueParserError { expected_type, raw } => ErrorView::ValueParserError {
                expected_type: expected_type@,
                raw: raw@,
            },
            ConnectorError::NativeTypeNameUnknown { native_type, connector_name } =>
                ErrorView::NativeTypeNameUnknown {
                native_type: native_type@,
                connector_name: connector_name@,
            },
        }
    }
}

/// The view of a result whose success carries a view too.
pub open spec fn result_view<T: View>(r: Result<T, ConnectorError>) -> Result<T::V, ErrorView> {
    match r {
        Ok(v) => Ok(v@),
        Err(e) => Err(e@),
    }
}

/// The view of a result that carries nothing on success.
pub open spec fn unit_result_view(r: Result<(), ConnectorError>) -> Result<(), ErrorView> {
    match r {
        Ok(_) => Ok(()),
        Err(e) => Err(e@),
    }
}

} // verus!
