//! Errors of resolver lookup and execution, and the record of one N+1 risk.

use crate::text::{join, joined};
use vstd::prelude::*;
use vstd::std_specs::convert::FromSpecImpl;

verus! {

/// The error of `serde_json`, carried as it is.
#[verifier::external_type_specification]
#[verifier::external_body]
pub struct ExJsonError(serde_json::Error);

/// The message of a JSON error, as its `Display` gives it.
pub uninterp spec fn json_error_message(error: serde_json::Error) -> Seq<char>;

/// Formats a `serde_json::Error` with its `Display`. The contract names the
/// text: it is the message of that error.
#[verifier::external_body]
fn json_error_text(error: &serde_json::Error) -> (text: String)
    ensures
        text@ == json_error_message(*error),
{
    error.to_string()
}

/// Why a resolver could not be found or did not give a value.
#[derive(Debug)]
pub enum ResolverError {
    /// No resolver is registered under the name.
    NotFound(String),
    /// An argument is missing or has the wrong shape.
    Argument(String),
    /// The resolver failed.
    Execution(String),
    /// A value could not be converted to or from JSON.
    Serialization(serde_json::Error),
}

impl ResolverError {
    /// The text of the error: the kind, a colon, and the detail.
    pub open spec fn text(self) -> Seq<char> {
        match self {
            ResolverError::NotFound(name) => "Resolver not found: "@ + name@,
            ResolverError::Argument(detail) => "Argument error: "@ + detail@,
            ResolverError::Execution(detail) => "Execution error: "@ + detail@,
            ResolverError::Serialization(error) => "Serialization error: "@ + json_error_message(
                error,
            ),
        }
    }

    /// The error as text.
    pub fn to_string(&self) -> (text: String)
        ensures
            text@ == self.text(),
    {
        match self {
            ResolverError::NotFound(name) => {
                let mut text = "Resolver not found: ".to_owned();
                text.append(name.as_str());
                text
            },
            ResolverError::Argument(detail) => {
                let mut text = "Argument error: ".to_owned();
                text.append(detail.as_str());
                text
            },
            ResolverError::Execution(detail) => {
                let mut text = "Execution error: ".to_owned();
                text.append(detail.as_str());
                text
            },
            ResolverError::Serialization(error) => {
                let mut text = "Serialization error: ".to_owned();
                let message = json_error_text(error);
                text.append(message.as_str());
                text
            },
        }
    }
}

impl From<serde_json::Error> for ResolverError {
    fn from(error: serde_json::Error) -> (wrapped: ResolverError) {
        ResolverError::Serialization(error)
    }
}

impl FromSpecImpl<serde_json::Error> for ResolverError {
    open spec fn obeys_from_spec() -> bool {
        true
    }

    open spec fn from_spec(error: serde_json::Error) -> ResolverError {
        ResolverError::Serialization(error)
    }
}

/// One field that would be resolved once per item of a list: the path of
/// field names from the root that reaches it, its name, the type that
/// declares it, and a message that names the remedy.
#[derive(Debug, Clone)]
pub struct N1Error {
    pub path: Vec<String>,
    pub field_name: String,
    pub parent_type: String,
    pub message: String,
}

/// Mathematical model of an [`N1Error`].
pub struct N1ErrorView {
    pub path: Seq<Seq<char>>,
    pub field_name: Seq<char>,
    pub parent_type: Seq<char>,
    pub message: Seq<char>,
}

impl N1ErrorView {
    /// The text of the error: where it was detected, and the message.
    pub open spec fn text(self) -> Seq<char> {
        "N+1 detected at "@ + joined(self.path, "."@) + ": "@ + self.message
    }
}

impl DeepView for N1Error {
    type V = N1ErrorView;

    open spec fn deep_view(&self) -> N1ErrorView {
        N1ErrorView {
            path: self.path.deep_view(),
            field_name: self.field_name@,
            parent_type: self.parent_type@,
            message: self.message@,
        }
    }
}

impl View for N1Error {
    type V = N1ErrorView;

    open spec fn view(&self) -> N1ErrorView {
        self.deep_view()
    }
}

impl N1Error {
    /// The error as text: `N+1 detected at `, the path joined by dots, a
    /// colon, and the message.
    pub fn to_string(&self) -> (text: String)
        ensures
            text@ == self@.text(),
    {
        let mut text = "N+1 detected at ".to_owned();
        let path = join(&self.path, ".");
        text.append(path.as_str());
        text.append(": ");
        text.append(self.message.as_str());
        text
    }
}

} // verus!
