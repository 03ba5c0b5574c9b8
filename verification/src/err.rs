//! The closed set of failures that discovery, parsing and commands report.

use core::num::ParseIntError;
use vstd::prelude::*;
use vstd::std_specs::convert::FromSpecImpl;
use vstd::string::StringExecFns;

verus! {

/// The standard library's I/O error, carried through as an opaque value.
#[verifier::external_type_specification]
#[verifier::external_body]
pub struct ExIoError(std::io::Error);

/// The standard library's integer parsing error, carried through as an opaque value.
#[verifier::external_type_specification]
#[verifier::external_body]
pub struct ExParseIntError(core::num::ParseIntError);

/// Why an operation of this library failed.
#[derive(Debug)]
#[allow(inconsistent_fields)]
pub enum YeeError {
    /// The value of a required field did not parse; `source` is the numeric cause, if any.
    ParseFieldFailed { field_name: &'static str, source: Option<ParseIntError> },
    /// A required advertisement header was absent.
    FieldNotFound { field_name: &'static str },
    /// A socket or stream failed.
    IoError { source: std::io::Error },
    /// The device does not list the method among those it supports.
    MethodNotSupported { method_name: &'static str },
    /// The caller gave a value outside the protocol's range.
    InvalidValue { field_name: &'static str, value: String },
    /// The device answered a command with an error.
    ChangeFailed { message: String },
}

/// What an error says, without the opaque causes it may carry.
#[allow(inconsistent_fields)]
pub enum ErrorView {
    ParseFieldFailed { field_name: Seq<char>, has_source: bool },
    FieldNotFound { field_name: Seq<char> },
    IoError,
    MethodNotSupported { method_name: Seq<char> },
    InvalidValue { field_name: Seq<char>, value: Seq<char> },
    ChangeFailed { message: Seq<char> },
}

impl ErrorView {
    /// The name of the kind, as it opens the rendered message.
    pub open spec fn kind_name(self) -> Seq<char> {
        match self {
            ErrorView::ParseFieldFailed { .. } => "ParseFieldFailed"@,
            ErrorView::FieldNotFound { .. } => "FieldNotFound"@,
            ErrorView::IoError => "IoError"@,
            ErrorView::MethodNotSupported { .. } => "MethodNotSupported"@,
            ErrorView::InvalidValue { .. } => "InvalidValue"@,
            ErrorView::ChangeFailed { .. } => "ChangeFailed"@,
        }
    }

    /// The part of the rendered message that follows the kind and `": "`. For an I/O
    /// error this is only the beginning: the cause's own description follows it.
    pub open spec fn detail(self) -> Seq<char> {
        match self {
            ErrorView::ParseFieldFailed { field_name, .. } => "failed to parse required field: "@
                + field_name,
            ErrorView::FieldNotFound { field_name } => "did not find the required field: "@
                + field_name,
            ErrorView::IoError => "IO error: "@,
            ErrorView::MethodNotSupported { method_name } => "cannot use method: "@ + method_name,
            ErrorView::InvalidValue { field_name, value } => "invalid value for "@ + field_name
                + ": "@ + value,
            ErrorView::ChangeFailed { message } => "changing param failed: "@ + message,
        }
    }

    /// The rendered message up to the cause's own description.
    pub open spec fn text(self) -> Seq<char> {
        self.kind_name() + ": "@ + self.detail()
    }
}

impl View for YeeError {
    type V = ErrorView;

    open spec fn view(&self) -> ErrorView {
        match self {
            YeeError::ParseFieldFailed { field_name, source } => ErrorView::ParseFieldFailed {
                field_name: field_name@,
                has_source: source is Some,
            },
            YeeError::FieldNotFound { field_name } => ErrorView::FieldNotFound {
                field_name: field_name@,
            },
            YeeError::IoError { .. } => ErrorView::IoError,
            YeeError::MethodNotSupported { method_name } => ErrorView::MethodNotSupported {
                method_name: method_name@,
            },
            YeeError::InvalidValue { field_name, value } => ErrorView::InvalidValue {
                field_name: field_name@,
                value: value@,
            },
            YeeError::ChangeFailed { message } => ErrorView::ChangeFailed { message: message@ },
        }
    }
}

/// A result with its error reduced to what the error says.
pub open spec fn outcome<T>(r: Result<T, YeeError>) -> Result<T, ErrorView> {
    match r {
        Ok(v) => Ok(v),
        Err(e) => Err(e@),
    }
}

/// The standard library's `Display` rendering of an I/O error. Its wording depends on
/// the platform, so nothing is claimed of it.
#[verifier::external_body]
fn io_error_string(e: &std::io::Error) -> (r: String) {
    format!("{}", e)
}

/// `std::io::Error::new` of the standard library with the kind `InvalidInput`: an
/// I/O error that carries `message`.
#[verifier::external_body]
pub(crate) fn invalid_input(message: &str) -> (r: std::io::Error) {
    std::io::Error::new(std::io::ErrorKind::InvalidInput, message.to_string())
}

/// A message: the kind, `": "`, and the detail in two parts.
fn render(kind: &str, lead: &str, rest: &str) -> (r: String)
    ensures
        r@ == kind@ + ": "@ + (lead@ + rest@),
{
    String::from_str(kind).concat(": ").concat(lead).concat(rest)
}

impl YeeError {
    /// The message of this error: its kind, `": "`, and the detail. For an I/O error
    /// the cause's own description is appended.
    pub fn to_string(&self) -> (r: String)
        ensures
            self@ !is IoError ==> r@ == self@.text(),
            self@ is IoError ==> r@.len() >= self@.text().len() && r@.take(
                self@.text().len() as int,
            ) == self@.text(),
    {
        match self {
            YeeError::ParseFieldFailed { field_name, .. } => render(
                "ParseFieldFailed",
                "failed to parse required field: ",
                field_name,
            ),
            YeeError::FieldNotFound { field_name } => render(
                "FieldNotFound",
                "did not find the required field: ",
                field_name,
            ),
            YeeError::IoError { source } => {
                let cause = io_error_string(source);
                render("IoError", "IO error: ", cause.as_str())
            },
            YeeError::MethodNotSupported { method_name } => render(
                "MethodNotSupported",
                "cannot use method: ",
                method_name,
            ),
            YeeError::InvalidValue { field_name, value } => {
                let lead = String::from_str("invalid value for ").concat(field_name).concat(": ");
                render("InvalidValue", lead.as_str(), value.as_str())
            },
            YeeError::ChangeFailed { message } => render(
                "ChangeFailed",
                "changing param failed: ",
                message.as_str(),
            ),
        }
    }

    /// The numeric parsing error behind a field that did not parse, if there is one.
    pub fn parse_cause(&self) -> (r: Option<&ParseIntError>)
        ensures
            r is Some <==> (self@ matches ErrorView::ParseFieldFailed { has_source, .. }
                && has_source),
            r matches Some(cause) ==> (self matches YeeError::ParseFieldFailed {
                source: Some(held),
                ..
            } && held == cause),
    {
        match self {
            YeeError::ParseFieldFailed { source: Some(cause), .. } => Some(cause),
            _ => None,
        }
    }

    /// The I/O error behind a socket or stream failure.
    pub fn io_cause(&self) -> (r: Option<&std::io::Error>)
        ensures
            r is Some <==> self@ is IoError,
            r matches Some(cause) ==> (self matches YeeError::IoError { source }
                && source == cause),
    {
        match self {
            YeeError::IoError { source } => Some(source),
            _ => None,
        }
    }
}

impl From<std::io::Error> for YeeError {
    fn from(e: std::io::Error) -> (r: YeeError) {
        YeeError::IoError { source: e }
    }
}

impl FromSpecImpl<std::io::Error> for YeeError {
    open spec fn obeys_from_spec() -> bool {
        true
    }

    open spec fn from_spec(e: std::io::Error) -> YeeError {
        YeeError::IoError { source: e }
    }
}

} // verus!
