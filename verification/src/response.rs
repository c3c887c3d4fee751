use vstd::prelude::*;

verus! {

/// The shape of everything the service sends back: a status code, a body,
/// and, for redirects, a target location. The transport layer turns this
/// into a wire-level response; the library only decides its contents.
pub struct HttpResponse {
    pub status: u16,
    pub body: String,
    pub location: Option<String>,
}

impl HttpResponse {
    /// A successful page: status 200 with an HTML body.
    pub fn html_ok(body: String) -> (r: HttpResponse)
        ensures
            r.status == 200,
            r.body == body,
            r.location is None,
    {
        HttpResponse { status: 200, body, location: None }
    }

    /// The fixed reply to a client-input fault: status 400, body "Bad request".
    pub fn bad_request() -> (r: HttpResponse)
        ensures
            r.status == 400,
            r.body@ == "Bad request"@,
            r.location is None,
    {
        HttpResponse { status: 400, body: String::from_str("Bad request"), location: None }
    }

    /// A "see other" redirect: status 303 with an empty body and a location.
    pub fn see_other(location: &str) -> (r: HttpResponse)
        ensures
            r.status == 303,
            r.body@ == Seq::<char>::empty(),
            r.location matches Some(l) && l@ == location@,
    {
        HttpResponse { status: 303, body: String::new(), location: Some(String::from_str(location)) }
    }
}

} // verus!
