//! The error contract shared by every operation that the interface can call.

use vstd::prelude::*;

verus! {

/// Structured data that an error may carry to help the interface. It is
/// opaque here: the library never builds one.
#[verifier::external_type_specification]
#[verifier::external_body]
pub struct ExJsonValue(serde_json::Value);

/// An error with a stable code, a safe Spanish message for the user, optional
/// structured details, and a technical description that is kept for the local
/// log and never serialized.
#[derive(Debug, Clone, PartialEq)]
pub struct AppError {
    pub code: String,
    pub message: String,
    pub details: Option<serde_json::Value>,
    technical: String,
}

/// `result` is an error with the given code and message.
pub open spec fn failed_with<T>(result: Result<T, AppError>, code: Seq<char>, message: Seq<char>) -> bool {
    match result {
        Err(e) => e.is(code, message),
        Ok(_) => false,
    }
}

impl AppError {
    /// The code of the error.
    pub closed spec fn code_text(&self) -> Seq<char> {
        self.code@
    }

    /// The message of the error.
    pub closed spec fn message_text(&self) -> Seq<char> {
        self.message@
    }

    /// The details of the error.
    pub closed spec fn details_value(&self) -> Option<serde_json::Value> {
        self.details
    }

    /// The technical description carried by the error.
    pub closed spec fn technical_text(&self) -> Seq<char> {
        self.technical@
    }

    /// The error has the given code and message and carries no details.
    pub closed spec fn is(&self, code: Seq<char>, message: Seq<char>) -> bool {
        &&& self.code_text() == code
        &&& self.message_text() == message
        &&& self.details_value() is None
    }

    /// An error is of a given code and message exactly when those are its code
    /// and message and it carries no details.
    pub proof fn lemma_is_parts(self, code: Seq<char>, message: Seq<char>)
        ensures
            self.is(code, message) <==> {
                &&& self.code_text() == code
                &&& self.message_text() == message
                &&& self.details_value() is None
            },
    {
    }

    /// An error has one code and one message.
    pub proof fn lemma_is_unique(self, c1: Seq<char>, m1: Seq<char>, c2: Seq<char>, m2: Seq<char>)
        requires
            self.is(c1, m1),
            self.is(c2, m2),
        ensures
            c1 == c2,
            m1 == m2,
    {
    }

    pub fn new(code: &'static str, message: &'static str, technical: &str) -> (error: Self)
        ensures
            error.is(code@, message@),
            error.technical_text() == technical@,
    {
        AppError {
            code: code.to_owned(),
            message: message.to_owned(),
            details: None,
            technical: technical.to_owned(),
        }
    }

    /// An error from all of its parts, as another layer of the application
    /// holds them.
    pub fn from_parts(
        code: String,
        message: String,
        details: Option<serde_json::Value>,
        technical: String,
    ) -> (error: Self)
        ensures
            error.code_text() == code@,
            error.message_text() == message@,
            error.details_value() == details,
            error.technical_text() == technical@,
    {
        AppError { code, message, details, technical }
    }

    /// The stable code, as the public field `code` holds it.
    pub fn code_str(&self) -> (text: &str)
        ensures
            text@ == self.code_text(),
    {
        self.code.as_str()
    }

    /// The user-facing message, as the public field `message` holds it.
    pub fn message_str(&self) -> (text: &str)
        ensures
            text@ == self.message_text(),
    {
        self.message.as_str()
    }

    /// The structured details, as the public field `details` holds them.
    pub fn details_ref(&self) -> (details: &Option<serde_json::Value>)
        ensures
            *details == self.details_value(),
    {
        &self.details
    }

    pub fn technical(&self) -> (text: &str)
        ensures
            text@ == self.technical_text(),
    {
        self.technical.as_str()
    }
}

} // verus!
