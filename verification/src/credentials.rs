//! Submitted credentials, the login form model, and the static-pair verifier.

use vstd::prelude::*;

use crate::outcome::VerificationOutcome;
use crate::outcome::outcome_equiv;

verus! {

/// A username/password pair submitted with one login request; ephemeral,
/// never persisted beyond the request.
pub struct Credentials {
    pub username: String,
    pub password: String,
}

/// The body of a submitted login form.
pub struct LoginForm {
    pub username: String,
    pub password: String,
}

/// The one pair that the static verifier accepts.
pub open spec fn static_pair_accepts(username: Seq<char>, password: Seq<char>) -> bool {
    username == "take"@ && password == "yama"@
}

/// What the static verifier's contract admits as an outcome for the given
/// credentials: success exactly on the configured pair, otherwise a
/// rejection whose reason reads `Not Found`.
pub open spec fn verify_decides(submitted: Credentials, outcome: VerificationOutcome) -> bool {
    &&& (outcome is Success <==> static_pair_accepts(submitted.username@, submitted.password@))
    &&& (outcome matches VerificationOutcome::Failure(m) ==> m@ == "Not Found"@)
}

/// The static credential verifier: accepts exactly the configured pair,
/// and rejects every other pair with reason `Not Found`.
pub fn verify(submitted: &Credentials) -> (outcome: VerificationOutcome)
    ensures
        outcome is Success <==> static_pair_accepts(submitted.username@, submitted.password@),
        outcome matches VerificationOutcome::Failure(m) ==> m@ == "Not Found"@,
        verify_decides(*submitted, outcome),
{
    if submitted.username == "take".to_owned() && submitted.password == "yama".to_owned() {
        VerificationOutcome::Success
    } else {
        VerificationOutcome::Failure("Not Found".to_owned())
    }
}

/// The static verifier is a pure function of the submitted characters: any
/// two outcomes its contract admits for equal credentials agree.
pub proof fn lemma_verify_pure(
    c1: Credentials,
    c2: Credentials,
    r1: VerificationOutcome,
    r2: VerificationOutcome,
)
    requires
        c1.username@ == c2.username@,
        c1.password@ == c2.password@,
        verify_decides(c1, r1),
        verify_decides(c2, r2),
    ensures
        outcome_equiv(r1, r2),
{
}

} // verus!
