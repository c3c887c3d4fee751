use vstd::prelude::*;

use crate::errors::CustomError;
use crate::pool::{pool_exhausted_message, Pool};
use crate::response::HttpResponse;
use crate::storage::{
    duplicate_email_message, ids_exhausted_message, views_of, Storage, UserRecordView, UserView,
};
use crate::users::page_spec;
use crate::validation::{email_ok, validate, SignUp};

verus! {

/// `GET /`: acquire a connection, read every user, render the page. On an
/// exhausted pool the request fails with a database error instead. The
/// pool's availability is back to its pre-request value when the handler
/// returns, on either path.
pub fn users(pool: &mut Pool, storage: &Storage) -> (r: Result<String, CustomError>)
    requires
        old(pool).wf(),
        storage.wf(),
    ensures
        final(pool).wf(),
        final(pool).spec_available() == old(pool).spec_available(),
        final(pool).spec_capacity() == old(pool).spec_capacity(),
        old(pool).spec_available() > 0 ==> (r matches Ok(page) && page@ == page_spec(
            storage.users_view(),
        )),
        old(pool).spec_available() == 0 ==> (r matches Err(e) && e matches CustomError::Database(m)
            && m@ == pool_exhausted_message()),
{
    let client = match pool.acquire() {
        Ok(c) => c,
        Err(e) => {
            return Err(CustomError::from(e));
        },
    };
    let list = storage.get_users(&client);
    pool.release(client);
    proof {
        assert(views_of(list@) == storage.users_view());
        assert forall|i: int| 0 <= i < list@.len() implies (#[trigger] list@[i])@.id >= 0 by {
            assert(views_of(list@)[i] == list@[i]@);
            assert(storage.records_view()[i].id >= 1);
        }
    }
    let page = crate::users::users(list);
    Ok(page)
}

/// `POST /sign_up`: validate the form; on a malformed email answer 400 at
/// once, before the pool is touched. Otherwise acquire a connection and
/// persist the new user under a placeholder credential (hashing is out of
/// scope), answering with a redirect to `/`; any pool or storage failure
/// becomes a database error. The pool's availability is back to its
/// pre-request value when the handler returns, on every path.
pub fn accept_form(pool: &mut Pool, storage: &mut Storage, form: SignUp) -> (r: Result<
    HttpResponse,
    CustomError,
>)
    requires
        old(pool).wf(),
        old(storage).wf(),
    ensures
        final(pool).wf(),
        final(storage).wf(),
        final(pool).spec_available() == old(pool).spec_available(),
        final(pool).spec_capacity() == old(pool).spec_capacity(),
        !email_ok(form.email@) ==> (r matches Ok(resp) && resp.status == 400 && resp.body@
            == "Bad request"@ && resp.location is None && *final(storage) == *old(storage)),
        email_ok(form.email@) && old(pool).spec_available() == 0 ==> (r matches Err(e)
            && e matches CustomError::Database(m) && m@ == pool_exhausted_message() && *final(storage) == *old(storage)),
        email_ok(form.email@) && old(pool).spec_available() > 0 && old(storage).has_email(
            form.email@,
        ) ==> (r matches Err(e) && e matches CustomError::Database(m) && m@
            == duplicate_email_message() && *final(storage) == *old(storage)),
        email_ok(form.email@) && old(pool).spec_available() > 0 && !old(storage).has_email(
            form.email@,
        ) && old(storage).spec_next_id() == i64::MAX ==> (r matches Err(e)
            && e matches CustomError::Database(m) && m@ == ids_exhausted_message() && *final(storage) == *old(storage)),
        email_ok(form.email@) && old(pool).spec_available() > 0 && !old(storage).has_email(
            form.email@,
        ) && old(storage).spec_next_id() < i64::MAX ==> (r matches Ok(resp) && resp.status == 303
            && (resp.location matches Some(l) && l@ == "/"@) && final(storage).users_view()
            == old(storage).users_view().push(
            UserView { id: old(storage).spec_next_id(), email: form.email@ },
        )
            && final(storage).records_view() == old(storage).records_view().push(
            UserRecordView {
                id: old(storage).spec_next_id(),
                email: form.email@,
                hashed_password: "aaaa"@,
            },
        )),
{
    if validate(&form).is_err() {
        return Ok(HttpResponse::bad_request());
    }
    let client = match pool.acquire() {
        Ok(c) => c,
        Err(e) => {
            return Err(CustomError::from(e));
        },
    };
    let email = form.email;
    // Hashing is explicitly out of scope: a placeholder credential is stored.
    let hashed_password = String::from_str("aaaa");
    let created = storage.create_user(&client, email.as_str(), hashed_password.as_str());
    pool.release(client);
    match created {
        Ok(()) => Ok(HttpResponse::see_other("/")),
        Err(e) => Err(CustomError::from(e)),
    }
}

/// The route `GET /` end to end, responder included: a successful read
/// renders as a 200 page; a server-side failure as the 422 error body.
pub fn handle_get_users(pool: &mut Pool, storage: &Storage) -> (r: HttpResponse)
    requires
        old(pool).wf(),
        storage.wf(),
    ensures
        final(pool).wf(),
        final(pool).spec_available() == old(pool).spec_available(),
        final(pool).spec_capacity() == old(pool).spec_capacity(),
        old(pool).spec_available() > 0 ==> r.status == 200 && r.body@ == page_spec(
            storage.users_view(),
        ) && r.location is None,
        old(pool).spec_available() == 0 ==> r.status == 422 && r.body@ == "status=422, message="@
            + pool_exhausted_message() && r.location is None,
{
    match users(pool, storage) {
        Ok(page) => HttpResponse::html_ok(page),
        Err(e) => e.into_response(),
    }
}

/// The route `POST /sign_up` end to end, responder included: a malformed
/// email answers 400 with the fixed body; a persisted signup answers with
/// a 303 redirect to `/`; a pool or storage failure answers 422 with its
/// cause. The store is only changed on the redirect path.
pub fn handle_sign_up(pool: &mut Pool, storage: &mut Storage, form: SignUp) -> (r: HttpResponse)
    requires
        old(pool).wf(),
        old(storage).wf(),
    ensures
        final(pool).wf(),
        final(storage).wf(),
        final(pool).spec_available() == old(pool).spec_available(),
        final(pool).spec_capacity() == old(pool).spec_capacity(),
        !email_ok(form.email@) ==> r.status == 400 && r.body@ == "Bad request"@ && r.location
            is None && *final(storage) == *old(storage),
        email_ok(form.email@) && old(pool).spec_available() == 0 ==> r.status == 422 && r.body@
            == "status=422, message="@ + pool_exhausted_message() && *final(storage) == *old(storage),
        email_ok(form.email@) && old(pool).spec_available() > 0 && old(storage).has_email(
            form.email@,
        ) ==> r.status == 422 && r.body@ == "status=422, message="@ + duplicate_email_message()
            && *final(storage) == *old(storage),
        email_ok(form.email@) && old(pool).spec_available() > 0 && !old(storage).has_email(
            form.email@,
        ) && old(storage).spec_next_id() == i64::MAX ==> r.status == 422 && r.body@
            == "status=422, message="@ + ids_exhausted_message() && *final(storage) == *old(storage),
        email_ok(form.email@) && old(pool).spec_available() > 0 && !old(storage).has_email(
            form.email@,
        ) && old(storage).spec_next_id() < i64::MAX ==> r.status == 303 && (r.location matches Some(
            l,
        ) && l@ == "/"@) && final(storage).users_view() == old(storage).users_view().push(
            UserView { id: old(storage).spec_next_id(), email: form.email@ },
        ),
{
    match accept_form(pool, storage, form) {
        Ok(resp) => resp,
        Err(e) => e.into_response(),
    }
}

} // verus!
