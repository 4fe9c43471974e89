use vstd::prelude::*;

verus! {

/// The status code of every health reply (`200 OK`).
pub const STATUS_OK: u16 = 200;

/// The exact body of every health reply.
pub open spec fn health_body() -> Seq<char> {
    "{ \"status\": \"ok\" }"@
}

/// The media type of every health reply.
pub open spec fn json_content_type() -> Seq<char> {
    "application/json"@
}

/// The body of the health endpoint: a fixed JSON object reporting success.
pub fn health() -> (r: &'static str)
    ensures
        r@ == health_body(),
{
    "{ \"status\": \"ok\" }"
}

/// A complete reply: status code, media type and body.
pub struct HealthResponse {
    pub status: u16,
    pub content_type: &'static str,
    pub body: &'static str,
}

impl View for HealthResponse {
    type V = (u16, Seq<char>, Seq<char>);

    open spec fn view(&self) -> (u16, Seq<char>, Seq<char>) {
        (self.status, self.content_type@, self.body@)
    }
}

impl HealthResponse {
    /// The reply of the health endpoint: `200`, `application/json`, the fixed body.
    pub open spec fn is_health_reply(&self) -> bool {
        self@ == (STATUS_OK, json_content_type(), health_body())
    }
}

/// Answers a `GET /health` request. The handler reads nothing of the request,
/// holds no state and cannot fail.
pub fn health_response() -> (r: HealthResponse)
    ensures
        r.is_health_reply(),
        r.status == 200,
        r.content_type@ == json_content_type(),
        r.body@ == health_body(),
{
    HealthResponse { status: STATUS_OK, content_type: "application/json", body: health() }
}

/// Any two invocations of the handler, in whatever order or interleaving they
/// run, give the same reply: it depends on no input and no shared state.
pub proof fn invocations_agree(a: HealthResponse, b: HealthResponse)
    requires
        a.is_health_reply(),
        b.is_health_reply(),
    ensures
        a@ == b@,
{
}

} // verus!
