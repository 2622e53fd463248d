//! What a device reports when an action fails.
use vstd::prelude::*;
use crate::json::{Json, JsonValue, Members};
use crate::text::owned;

verus! {

/// The kinds of failure of an action.
#[derive(Debug, PartialEq, Eq, Clone, Copy, Structural)]
pub enum ActionError {
    /// The data given to the action is not correct.
    InvalidData,
    /// The device failed while it ran the action.
    Internal,
}

impl ActionError {
    /// The name of each kind of failure.
    pub open spec fn spec_name(self) -> Seq<char> {
        match self {
            ActionError::InvalidData => "InvalidData"@,
            ActionError::Internal => "Internal"@,
        }
    }

    /// The name of the kind of failure.
    pub fn name(self) -> (r: &'static str)
        ensures
            r@ == self.spec_name(),
    {
        match self {
            ActionError::InvalidData => "InvalidData",
            ActionError::Internal => "Internal",
        }
    }
}

/// The status code with which every error response is sent.
pub const ERROR_STATUS: u16 = 500;

/// A response containing structured information about an error occurred during
/// the execution of an action.
///
/// It describes the kind of error, the cause, and optional information.
#[derive(Debug)]
pub struct ErrorResponse {
    /// The kind of failure.
    pub error: ActionError,
    /// What went wrong.
    pub description: String,
    /// What the failing component said about it, if it said anything.
    pub info: Option<String>,
}

impl ErrorResponse {
    /// The document of an error response without information.
    pub open spec fn spec_json(
        error: ActionError,
        description: Seq<char>,
        info: Option<Seq<char>>,
    ) -> Json {
        Json::Object(
            seq![
                ("error"@, Json::Text(error.spec_name())),
                ("description"@, Json::Text(description)),
                (
                    "info"@,
                    match info {
                        Some(text) => Json::Text(text),
                        None => Json::Null,
                    },
                ),
            ],
        )
    }

    /// The information by its characters.
    pub open spec fn spec_info(&self) -> Option<Seq<char>> {
        match self.info {
            Some(text) => Some(text@),
            None => None,
        }
    }

    /// Creates an [`ErrorResponse`] with a specific [`ActionError`] and
    /// a description.
    pub fn with_description(error: ActionError, description: &str) -> (r: Self)
        ensures
            r.error == error,
            r.description@ == description@,
            r.info is None,
    {
        Self { error, description: owned(description), info: None }
    }

    /// Creates an [`ErrorResponse`] with a specific [`ActionError`], an
    /// error description, and additional information about the error.
    pub fn with_description_error(error: ActionError, description: &str, info: &str) -> (r: Self)
        ensures
            r.error == error,
            r.description@ == description@,
            r.spec_info() == Some(info@),
    {
        Self { error, description: owned(description), info: Some(owned(info)) }
    }

    /// Creates an [`ErrorResponse`] for invalid data with a description.
    pub fn invalid_data(description: &str) -> (r: Self)
        ensures
            r.error == ActionError::InvalidData,
            r.description@ == description@,
            r.info is None,
    {
        Self::with_description(ActionError::InvalidData, description)
    }

    /// Creates an [`ErrorResponse`] for invalid data with a description and
    /// additional information about the error.
    pub fn invalid_data_with_error(description: &str, error: &str) -> (r: Self)
        ensures
            r.error == ActionError::InvalidData,
            r.description@ == description@,
            r.spec_info() == Some(error@),
    {
        Self::with_description_error(ActionError::InvalidData, description, error)
    }

    /// Creates an [`ErrorResponse`] for an internal error with a description.
    pub fn internal(description: &str) -> (r: Self)
        ensures
            r.error == ActionError::Internal,
            r.description@ == description@,
            r.info is None,
    {
        Self::with_description(ActionError::Internal, description)
    }

    /// Creates an [`ErrorResponse`] for an internal error with a description and
    /// additional information about the error.
    pub fn internal_with_error(description: &str, error: &str) -> (r: Self)
        ensures
            r.error == ActionError::Internal,
            r.description@ == description@,
            r.spec_info() == Some(error@),
    {
        Self::with_description_error(ActionError::Internal, description, error)
    }

    /// The document that is sent as the body of the response: the kind of
    /// failure, the description, and the information or nothing.
    pub fn to_json(&self) -> (r: JsonValue)
        ensures
            r@ == Self::spec_json(self.error, self.description@, self.spec_info()),
    {
        let info = match &self.info {
            Some(text) => JsonValue::text(text.as_str()),
            None => JsonValue::Null,
        };
        let members = Members::new().with("error", JsonValue::text(self.error.name())).with(
            "description",
            JsonValue::text(self.description.as_str()),
        ).with("info", info);
        assert(members@ =~= Self::spec_json(
            self.error,
            self.description@,
            self.spec_info(),
        )->Object_0);
        members.finish()
    }
}

} // verus!
