//! The result of one credential check, and the one-shot flash data derived
//! from it for the redirect to the result page.

use vstd::prelude::*;

verus! {

/// What one login attempt decided: either the credentials were accepted, or
/// they were rejected with a user-visible reason.
pub enum VerificationOutcome {
    Success,
    Failure(String),
}

/// Two outcomes agree: same branch, and for rejections the same reason text.
pub open spec fn outcome_equiv(a: VerificationOutcome, b: VerificationOutcome) -> bool {
    match (a, b) {
        (VerificationOutcome::Success, VerificationOutcome::Success) => true,
        (VerificationOutcome::Failure(m1), VerificationOutcome::Failure(m2)) => m1@ == m2@,
        _ => false,
    }
}

impl VerificationOutcome {
    pub fn is_success(&self) -> (r: bool)
        ensures
            r == (self is Success),
    {
        match self {
            VerificationOutcome::Success => true,
            VerificationOutcome::Failure(_) => false,
        }
    }

    /// The rejection reason, absent when the attempt succeeded.
    pub fn failure_reason(&self) -> (r: Option<&String>)
        ensures
            match self {
                VerificationOutcome::Success => r is None,
                VerificationOutcome::Failure(m) => (r matches Some(s) && s@ == m@),
            },
    {
        match self {
            VerificationOutcome::Success => None,
            VerificationOutcome::Failure(m) => Some(m),
        }
    }
}

/// A one-shot status message carried across the redirect to the result page:
/// a kind tag and a human-readable message, consumed once by the renderer.
#[derive(Debug)]
pub struct FlashData {
    pub kind: String,
    pub message: String,
}

/// Builds the flash data for an outcome: kind `success` with the fixed
/// success message, or kind `failure` carrying the rejection reason.
pub fn outcome_flash(outcome: &VerificationOutcome) -> (f: FlashData)
    ensures
        outcome is Success ==> f.kind@ == "success"@ && f.message@ == "Login successful."@,
        outcome matches VerificationOutcome::Failure(m) ==> f.kind@ == "failure"@ && f.message@
            == m@,
{
    match outcome {
        VerificationOutcome::Success => FlashData {
            kind: "success".to_owned(),
            message: "Login successful.".to_owned(),
        },
        VerificationOutcome::Failure(m) => FlashData {
            kind: "failure".to_owned(),
            message: m.clone(),
        },
    }
}

} // verus!
