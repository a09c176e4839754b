//! The computed part of each route: the literal reception body, the
//! template contexts, and the login route's decision from form to flash.

use vstd::prelude::*;

use crate::credentials::Credentials;
use crate::credentials::LoginForm;
use crate::outcome::FlashData;
use crate::outcome::VerificationOutcome;
use crate::outcome::outcome_flash;
use crate::store::LookupError;
use crate::store::Users;
use crate::store::verify_lookup;

verus! {

/// The exact body served for the root route of the demo.
pub fn index() -> (r: &'static str)
    ensures
        r@ == "Hello, world!"@,
{
    "Hello, world!"
}

/// The data handed to the reception (login form) template.
pub struct ReceptionContext {
    pub foo: String,
}

/// The context for the reception page: its one field is empty.
pub fn reception() -> (c: ReceptionContext)
    ensures
        c.foo@ == ""@,
{
    ReceptionContext { foo: "".to_owned() }
}

/// The data handed to the result-page template: the flash's kind tag and
/// message, echoed under the same keys.
pub struct ResultContext {
    pub kind: String,
    pub message: String,
}

/// The context for the result page: the flash set by the prior redirect is
/// echoed field for field, and with no flash set the context is absent, so
/// the page renders with empty message fields.
pub fn login_result(flash: Option<FlashData>) -> (c: Option<ResultContext>)
    ensures
        flash matches Some(f) ==> (c matches Some(rc) && rc.kind@ == f.kind@ && rc.message@
            == f.message@),
        flash is None ==> c is None,
{
    match flash {
        Some(f) => Some(ResultContext { kind: f.kind, message: f.message }),
        None => None,
    }
}

/// The login route's decision: verifies the submitted form against the
/// store's answer for its username, and wraps the outcome as the flash for
/// the redirect — `Ok` with the success flash exactly when a record came
/// back whose stored password equals the submitted one, else `Err` with the
/// failure flash whose message reads `Not Found`.
pub fn login(form: &LoginForm, lookup: Result<Users, LookupError>) -> (r: Result<
    FlashData,
    FlashData,
>)
    ensures
        r is Ok <==> (lookup matches Ok(u) && u.password@ == form.password@),
        r matches Ok(f) ==> f.kind@ == "success"@ && f.message@ == "Login successful."@,
        r matches Err(f) ==> f.kind@ == "failure"@ && f.message@ == "Not Found"@,
{
    let submitted = Credentials {
        username: form.username.clone(),
        password: form.password.clone(),
    };
    let outcome = verify_lookup(&submitted, lookup);
    let success = outcome.is_success();
    let flash = outcome_flash(&outcome);
    if success {
        Ok(flash)
    } else {
        Err(flash)
    }
}

} // verus!
