use vstd::prelude::*;

use validator::ValidateEmail;

verus! {

/// The submitted signup form: one field, the email address to register.
/// It lives only for the request that carries it.
pub struct SignUp {
    pub email: String,
}

/// A client-input fault: the form failed validation. Handled entirely
/// within the handler (a 400 reply), never escalated as a server failure.
pub struct ValidationError {}

/// What the email grammar accepts. The grammar is the HTML5 one, owned by
/// the checker behind `email_format_ok`; the library's contracts only need
/// the name, and the two refusals stated there.
pub uninterp spec fn email_ok(s: Seq<char>) -> bool;

/// Relies on `validator::ValidateEmail::validate_email` for `&str`, which
/// checks the HTML5 email grammar: the result is a function of the
/// characters alone, and a string that is empty or has no `@` is refused.
#[verifier::external_body]
fn email_format_ok(s: &str) -> (r: bool)
    ensures
        r == email_ok(s@),
        s@.len() == 0 ==> !r,
        (forall|i: int| 0 <= i < s@.len() ==> s@[i] != '@') ==> !r,
{
    s.validate_email()
}

/// Structural validation of the signup form: its email must match the
/// well-formed email grammar, and nothing else is checked.
///
/// Law: every valid email is accepted, and only those — acceptance is
/// exactly `email_ok`; in particular a string without an `@`-domain
/// structure (no `@` at all, or nothing at all) is rejected.
pub fn validate(form: &SignUp) -> (r: Result<(), ValidationError>)
    ensures
        r is Ok <==> email_ok(form.email@),
        form.email@.len() == 0 ==> r is Err,
        (forall|i: int| 0 <= i < form.email@.len() ==> form.email@[i] != '@') ==> r is Err,
{
    if email_format_ok(form.email.as_str()) {
        Ok(())
    } else {
        Err(ValidationError {  })
    }
}

} // verus!
