//! Response status categories and their numeric codes.

use vstd::prelude::*;

verus! {

/// Outcome category of a response.  Every response carries exactly one.
#[derive(Clone, Copy, Debug, PartialEq, Eq, Structural)]
pub enum Status {
    /// The request was served; a body follows the header.
    Success,
    /// The resource exists but could not be delivered this time.
    TemporaryFailure,
    /// Reserved: nothing in this crate produces it.
    PermanentFailure,
    /// The request is well formed but addressed to another scheme, port or host.
    ProxyRequestRefused,
    /// No resource exists at the requested path.
    NotFound,
    /// The request line is malformed.
    BadRequest,
}

impl Status {
    /// The two-digit code that goes on the wire.
    pub open spec fn spec_code(&self) -> u8 {
        match self {
            Status::Success => 20,
            Status::TemporaryFailure => 40,
            Status::PermanentFailure => 50,
            Status::ProxyRequestRefused => 53,
            Status::NotFound => 51,
            Status::BadRequest => 59,
        }
    }

    #[verifier::when_used_as_spec(spec_code)]
    pub fn code(&self) -> (code: u8)
        ensures
            code == self.spec_code(),
    {
        match self {
            Status::Success => 20,
            Status::TemporaryFailure => 40,
            Status::PermanentFailure => 50,
            Status::ProxyRequestRefused => 53,
            Status::NotFound => 51,
            Status::BadRequest => 59,
        }
    }

    /// The status that a code stands for, if any.
    pub open spec fn of_code(code: int) -> Option<Status> {
        if code == 20 {
            Some(Status::Success)
        } else if code == 40 {
            Some(Status::TemporaryFailure)
        } else if code == 50 {
            Some(Status::PermanentFailure)
        } else if code == 53 {
            Some(Status::ProxyRequestRefused)
        } else if code == 51 {
            Some(Status::NotFound)
        } else if code == 59 {
            Some(Status::BadRequest)
        } else {
            None
        }
    }

    /// Every code has two decimal digits, and no two statuses share one.
    pub proof fn lemma_code_identifies_status(self)
        ensures
            10 <= self.code() <= 99,
            Status::of_code(self.code() as int) == Some(self),
    {
    }
}

} // verus!
