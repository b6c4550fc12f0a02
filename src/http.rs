use vstd::prelude::*;
use vstd::string::StringExecFns;

verus! {

/// The two methods the proxy commands issue.
#[derive(Clone, Copy, Debug, PartialEq, Eq, Structural)]
pub enum HttpMethod {
    Get,
    Post,
}

/// A request as the proxy commands hand it to the HTTP client: method, target,
/// an optional `Content-Type` header and an optional body sent as raw bytes.
#[derive(Clone, Debug)]
pub struct HttpRequest {
    pub method: HttpMethod,
    pub url: String,
    pub content_type: Option<String>,
    pub body: Option<String>,
}

/// The content type that a proxied POST declares.
pub open spec fn json_content_type() -> Seq<char> {
    "application/json"@
}

/// A GET of `url`, with no header of its own and no body.
pub fn get_request(url: String) -> (r: HttpRequest)
    ensures
        r.method == HttpMethod::Get,
        r.url == url,
        r.content_type is None,
        r.body is None,
{
    HttpRequest { method: HttpMethod::Get, url, content_type: None, body: None }
}

/// A POST of `body` to `url`, declared as JSON. The body is carried
/// unmodified: it is neither validated nor re-serialised.
pub fn post_request(url: String, body: String) -> (r: HttpRequest)
    ensures
        r.method == HttpMethod::Post,
        r.url == url,
        r.content_type matches Some(c) && c@ == json_content_type(),
        r.body == Some(body),
{
    let content_type = String::from_str("application/json");
    HttpRequest { method: HttpMethod::Post, url, content_type: Some(content_type), body: Some(body) }
}

/// What came of one exchange with the HTTP client. The status code is kept
/// for the record; it does not decide the result.
#[derive(Clone, Debug)]
pub enum HttpOutcome {
    /// The request could not be sent or no response arrived.
    SendFailed { reason: String },
    /// A response arrived but its body could not be decoded as text.
    BodyUnreadable { status: u16, reason: String },
    /// A response arrived and its body was decoded as text.
    BodyRead { status: u16, text: String },
}

/// Why a proxied request produced no body text.
#[derive(Clone, Debug)]
pub enum HttpFailure {
    /// Network-level failure: resolution, connection, TLS, client timeout.
    Request { reason: String },
    /// The response body could not be decoded.
    Body { reason: String },
}

/// The message shown to the caller for a failure.
pub open spec fn failure_message(f: HttpFailure) -> Seq<char> {
    match f {
        HttpFailure::Request { reason } => "HTTP request failed: "@ + reason@,
        HttpFailure::Body { reason } => "Failed to read response body: "@ + reason@,
    }
}

/// The body text or the failure that an outcome stands for.
pub open spec fn outcome_classified(o: HttpOutcome) -> Result<String, HttpFailure> {
    match o {
        HttpOutcome::SendFailed { reason } => Err(HttpFailure::Request { reason }),
        HttpOutcome::BodyUnreadable { reason, .. } => Err(HttpFailure::Body { reason }),
        HttpOutcome::BodyRead { text, .. } => Ok(text),
    }
}

/// What the caller of a proxy command receives for an outcome: the body text,
/// or the failure's message.
pub open spec fn outcome_result(o: HttpOutcome) -> Result<Seq<char>, Seq<char>> {
    match outcome_classified(o) {
        Ok(text) => Ok(text@),
        Err(f) => Err(failure_message(f)),
    }
}

/// A command result seen as character sequences.
pub open spec fn result_view(r: Result<String, String>) -> Result<Seq<char>, Seq<char>> {
    match r {
        Ok(t) => Ok(t@),
        Err(m) => Err(m@),
    }
}

impl HttpFailure {
    /// The message shown to the caller.
    pub fn message(&self) -> (r: String)
        ensures
            r@ == failure_message(*self),
    {
        match self {
            HttpFailure::Request { reason } => {
                let mut m = String::from_str("HTTP request failed: ");
                m.append(reason.as_str());
                m
            },
            HttpFailure::Body { reason } => {
                let mut m = String::from_str("Failed to read response body: ");
                m.append(reason.as_str());
                m
            },
        }
    }
}

/// Sorts an outcome into the body text or a failure kind.
pub fn classify(outcome: HttpOutcome) -> (r: Result<String, HttpFailure>)
    ensures
        r == outcome_classified(outcome),
{
    match outcome {
        HttpOutcome::SendFailed { reason } => Err(HttpFailure::Request { reason }),
        HttpOutcome::BodyUnreadable { status: _, reason } => Err(HttpFailure::Body { reason }),
        HttpOutcome::BodyRead { status: _, text } => Ok(text),
    }
}

/// The result that a proxy command returns for an outcome.
pub fn http_result(outcome: HttpOutcome) -> (r: Result<String, String>)
    ensures
        result_view(r) == outcome_result(outcome),
{
    match classify(outcome) {
        Ok(text) => Ok(text),
        Err(f) => Err(f.message()),
    }
}

/// Whatever status code came with it, a readable body is returned as it is.
pub proof fn lemma_status_does_not_decide(a: u16, b: u16, text: String)
    ensures
        outcome_result(HttpOutcome::BodyRead { status: a, text }) == Ok::<Seq<char>, Seq<char>>(
            text@,
        ),
        outcome_result(HttpOutcome::BodyRead { status: a, text }) == outcome_result(
            HttpOutcome::BodyRead { status: b, text },
        ),
{
}

/// A request that could not be sent always ends in an error, and its message
/// is never empty.
pub proof fn lemma_unsent_is_error(reason: String)
    ensures
        outcome_result(HttpOutcome::SendFailed { reason }) is Err,
        outcome_result(HttpOutcome::SendFailed { reason })->Err_0.len() > 0,
{
    reveal_strlit("HTTP request failed: ");
}

} // verus!
