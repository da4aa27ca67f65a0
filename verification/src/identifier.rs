//! Identifiers of issuers and holders, validated before anything is done
//! with them.

use crate::error::{ErrorKind, Failure, FailureView};
use indy_utils::Qualifiable;
use vstd::prelude::*;

verus! {

/// What `indy_utils::did::DidValue::from_str` makes of a text: the
/// identifier that it accepts, or the message of the error that it returns.
pub uninterp spec fn did_from_str(text: Seq<char>) -> Result<Seq<char>, Seq<char>>;

/// Calls `indy_utils::did::DidValue::from_str`. Not proved: that the call,
/// which depends on the text alone, returns what `did_from_str` names, and
/// that an identifier it accepts is the text it was given (the function wraps
/// the text as it stands and then only validates it). The error is handed on
/// as the message that it displays.
#[verifier::external_body]
fn did_value_from_str(text: &str) -> (outcome: Result<String, String>)
    ensures
        match outcome {
            Ok(value) => did_from_str(text@) == Ok::<Seq<char>, Seq<char>>(value@) && value@
                == text@,
            Err(message) => did_from_str(text@) == Err::<Seq<char>, Seq<char>>(message@),
        },
{
    match indy_utils::did::DidValue::from_str(text) {
        Ok(did) => Ok(did.0),
        Err(err) => Err(err.to_string()),
    }
}

/// An identifier of an issuer or a holder. The functions of this module
/// make one only from a text that validation has accepted.
#[derive(Clone, Debug, PartialEq, Eq)]
pub struct DidValue(pub String);

impl View for DidValue {
    type V = Seq<char>;

    open spec fn view(&self) -> Seq<char> {
        self.0@
    }
}

/// The failure for a text argument that must be there and is not.
pub open spec fn missing_text() -> FailureView {
    FailureView { kind: ErrorKind::Input, message: "Missing required text argument"@ }
}

/// A text argument that may be absent, as a sequence of characters.
pub open spec fn text_view(text: Option<&str>) -> Option<Seq<char>> {
    match text {
        Some(t) => Some(t@),
        None => None,
    }
}

/// The text of an argument that must be there.
pub open spec fn required_text_spec(text: Option<Seq<char>>) -> Result<Seq<char>, FailureView> {
    match text {
        Some(t) => Ok(t),
        None => Err(missing_text()),
    }
}

/// The identifier that a validation outcome stands for: the accepted value,
/// or an input failure that carries the validator's message.
pub open spec fn did_from_outcome_spec(outcome: Result<Seq<char>, Seq<char>>) -> Result<
    Seq<char>,
    FailureView,
> {
    match outcome {
        Ok(value) => Ok(value),
        Err(message) => Err(FailureView { kind: ErrorKind::Input, message }),
    }
}

/// What validating an identifier argument gives: a failure where it is
/// absent, else what the validator's outcome stands for.
pub open spec fn did_spec(text: Option<Seq<char>>) -> Result<Seq<char>, FailureView> {
    match text {
        Some(t) => did_from_outcome_spec(did_from_str(t)),
        None => Err(missing_text()),
    }
}

/// The view of the result of a validation.
pub open spec fn did_result_view(result: Result<DidValue, Failure>) -> Result<
    Seq<char>,
    FailureView,
> {
    match result {
        Ok(did) => Ok(did@),
        Err(failure) => Err(failure@),
    }
}

/// The text of an argument that must be there, or an input failure.
pub fn required_text<'a>(text: Option<&'a str>) -> (result: Result<&'a str, Failure>)
    ensures
        match result {
            Ok(t) => text == Some(t),
            Err(failure) => text is None && failure@ == missing_text(),
        },
{
    match text {
        Some(t) => Ok(t),
        None => Err(Failure::new(ErrorKind::Input, "Missing required text argument")),
    }
}

/// Turns the outcome of the validator into an identifier or an input
/// failure with the validator's message.
pub fn did_from_outcome(outcome: Result<String, String>) -> (result: Result<DidValue, Failure>)
    ensures
        match outcome {
            Ok(value) => result == Ok::<DidValue, Failure>(DidValue(value)),
            Err(message) => result == Err::<DidValue, Failure>(
                Failure { kind: ErrorKind::Input, message },
            ),
        },
{
    match outcome {
        Ok(value) => Ok(DidValue(value)),
        Err(message) => Err(Failure { kind: ErrorKind::Input, message }),
    }
}

/// Validates an identifier argument. An identifier that is accepted is the
/// text that was given, unchanged.
pub fn parse_did(text: Option<&str>) -> (result: Result<DidValue, Failure>)
    ensures
        did_result_view(result) == did_spec(text_view(text)),
        result matches Ok(did) ==> text matches Some(t) && did@ == t@,
{
    match required_text(text) {
        Ok(t) => did_from_outcome(did_value_from_str(t)),
        Err(failure) => Err(failure),
    }
}

} // verus!
