//! The failures of the recovery of a credential.

use vstd::prelude::*;

verus! {

/// Why an operation failed.
#[derive(Debug, Clone, Copy, PartialEq, Eq, Structural)]
pub enum WlanError {
    /// The wireless service reported a failure. The value is its status code,
    /// mapped to an `HRESULT`.
    Service(i32),
    /// The service reported success and handed back nothing.
    NullResult,
    /// A buffer that the service returned holds no valid text.
    Decode,
    /// The profile document is not well-formed markup. The value is the code
    /// that the parser gave.
    Markup(i32),
    /// The profile document names no authentication scheme.
    MissingAuthentication,
    /// The profile document of a keyed scheme holds no key material.
    MissingPassword,
}

/// What every fallible operation of the crate returns.
pub type AnyResult<T> = Result<T, WlanError>;

impl WlanError {
    /// The text that `message` gives for each failure.
    pub open spec fn message_text(self) -> Seq<char> {
        match self {
            WlanError::Service(_) => "wireless service call failed"@,
            WlanError::NullResult => "null pointer"@,
            WlanError::Decode => "couldn't decode text"@,
            WlanError::Markup(_) => "couldn't parse document"@,
            WlanError::MissingAuthentication => "couldn't get authentication"@,
            WlanError::MissingPassword => "couldn't get password"@,
        }
    }

    /// The code that the failure carries: the service's or the parser's.
    pub open spec fn code_of(self) -> Option<i32> {
        match self {
            WlanError::Service(code) => Some(code),
            WlanError::Markup(code) => Some(code),
            _ => None,
        }
    }

    /// A short description of the failure.
    pub fn message(&self) -> (text: String)
        ensures
            text@ == self.message_text(),
    {
        match self {
            WlanError::Service(_) => "wireless service call failed".to_owned(),
            WlanError::NullResult => "null pointer".to_owned(),
            WlanError::Decode => "couldn't decode text".to_owned(),
            WlanError::Markup(_) => "couldn't parse document".to_owned(),
            WlanError::MissingAuthentication => "couldn't get authentication".to_owned(),
            WlanError::MissingPassword => "couldn't get password".to_owned(),
        }
    }

    /// The underlying code, where the failure carries one.
    pub fn code(&self) -> (code: Option<i32>)
        ensures
            code == self.code_of(),
    {
        match self {
            WlanError::Service(code) => Some(*code),
            WlanError::Markup(code) => Some(*code),
            _ => None,
        }
    }
}

} // verus!
