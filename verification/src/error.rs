use vstd::prelude::*;

verus! {

/// The kind of a conversion failure.
#[derive(Clone, Copy, PartialEq, Eq, Structural, Debug)]
pub enum ErrorKind {
    /// A conversion target mismatch, failed coercion, failed iteration
    /// step or isolation-domain violation.
    Type,
    /// The engine has already raised its own exception; no further
    /// message is attached.
    Unspecified,
}

/// The human-readable message attached to a typed conversion failure.
#[derive(Clone, Copy, PartialEq, Eq, Structural, Debug)]
pub enum ErrorMessage {
    ExpectedBooleanInStrictConversion,
    ExpectedNumberInStrictConversion,
    ExpectedStringInStrictConversion,
    ExpectedObject,
    ExpectedArray,
    ExpectedDate,
    ExpectedPromise,
    ExpectedFunction,
    UnableToConvertValueToNumber,
    UnableToConvertValueToString,
    ValueOutOfRange,
    FailedToInitialiseIterator,
    ExpectedIterable,
    FailedToExecuteNextOnIterator,
}

/// A conversion failure: a kind, with an optional message. Errors are
/// values returned to the immediate caller, never control-flow signals,
/// and are never silently swallowed.
#[derive(Clone, Copy, PartialEq, Eq, Structural, Debug)]
pub struct Error {
    pub kind: ErrorKind,
    pub message: Option<ErrorMessage>,
}

impl Error {
    /// A new error of the given kind carrying a message.
    pub fn new(message: ErrorMessage, kind: ErrorKind) -> (e: Error)
        ensures
            e == (Error { kind, message: Some(message) }),
    {
        Error { kind, message: Some(message) }
    }

    /// The error that stands for an exception the engine has already
    /// raised itself.
    pub fn unspecified() -> (e: Error)
        ensures
            e == (Error { kind: ErrorKind::Unspecified, message: None::<ErrorMessage> }),
    {
        Error { kind: ErrorKind::Unspecified, message: None }
    }

    /// The spec-level shorthand for a `Type` error with the given message.
    pub open spec fn typed(message: ErrorMessage) -> Error {
        Error { kind: ErrorKind::Type, message: Some(message) }
    }

    /// The spec-level shorthand for the unspecified-kind error.
    pub open spec fn none_spec() -> Error {
        Error { kind: ErrorKind::Unspecified, message: None }
    }
}

} // verus!

verus! {

impl ErrorMessage {
    /// The message's wording.
    pub open spec fn text_spec(&self) -> Seq<char> {
        match *self {
            ErrorMessage::ExpectedBooleanInStrictConversion => "Expected Boolean in Strict Conversion"@,
            ErrorMessage::ExpectedNumberInStrictConversion => "Expected Number in Strict Conversion"@,
            ErrorMessage::ExpectedStringInStrictConversion => "Expected String in Strict Conversion"@,
            ErrorMessage::ExpectedObject => "Expected Object"@,
            ErrorMessage::ExpectedArray => "Expected Array"@,
            ErrorMessage::ExpectedDate => "Expected Date"@,
            ErrorMessage::ExpectedPromise => "Expected Promise"@,
            ErrorMessage::ExpectedFunction => "Expected Function"@,
            ErrorMessage::UnableToConvertValueToNumber => "Unable to Convert Value to Number"@,
            ErrorMessage::UnableToConvertValueToString => "Unable to Convert Value to String"@,
            ErrorMessage::ValueOutOfRange => "Value Out of Range"@,
            ErrorMessage::FailedToInitialiseIterator => "Failed to Initialise Iterator"@,
            ErrorMessage::ExpectedIterable => "Expected Iterable"@,
            ErrorMessage::FailedToExecuteNextOnIterator => "Failed to Execute Next on Iterator"@,
        }
    }

    pub fn text(&self) -> (s: &'static str)
        ensures
            s@ == self.text_spec(),
    {
        match *self {
            ErrorMessage::ExpectedBooleanInStrictConversion => "Expected Boolean in Strict Conversion",
            ErrorMessage::ExpectedNumberInStrictConversion => "Expected Number in Strict Conversion",
            ErrorMessage::ExpectedStringInStrictConversion => "Expected String in Strict Conversion",
            ErrorMessage::ExpectedObject => "Expected Object",
            ErrorMessage::ExpectedArray => "Expected Array",
            ErrorMessage::ExpectedDate => "Expected Date",
            ErrorMessage::ExpectedPromise => "Expected Promise",
            ErrorMessage::ExpectedFunction => "Expected Function",
            ErrorMessage::UnableToConvertValueToNumber => "Unable to Convert Value to Number",
            ErrorMessage::UnableToConvertValueToString => "Unable to Convert Value to String",
            ErrorMessage::ValueOutOfRange => "Value Out of Range",
            ErrorMessage::FailedToInitialiseIterator => "Failed to Initialise Iterator",
            ErrorMessage::ExpectedIterable => "Expected Iterable",
            ErrorMessage::FailedToExecuteNextOnIterator => "Failed to Execute Next on Iterator",
        }
    }
}

} // verus!
