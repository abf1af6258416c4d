//! Mapping render outcomes to HTTP responses: a successful render becomes
//! the HTML body of an OK response, a failed one a generic
//! internal-server-error response, the error text kept for the log.

use vstd::prelude::*;
use crate::engine::error_text;

verus! {

/// Status code of a successful response.
pub const HTTP_OK: u16 = 200;

/// Status code of the generic server-error response a failed render maps to.
pub const HTTP_INTERNAL_SERVER_ERROR: u16 = 500;

/// An HTML response body.
pub struct Html(pub String);

/// A render failure as the adapter reports it: the response stays generic,
/// `message` is the engine's error text for the log.
#[derive(Debug)]
pub struct RenderError {
    /// The engine's description of the render failure.
    pub message: String,
}

/// What a request handler's render call produces.
pub type TeraTemplatingResult = Result<String, tera::Error>;

/// An HTTP response, reduced to what this adapter determines of it.
pub struct Response {
    /// The HTTP status code.
    pub status: u16,
    /// The response body.
    pub body: String,
}

/// Maps a render outcome to the handler's result: the rendered text becomes
/// an HTML body exactly when the render succeeded; a render failure becomes
/// a `RenderError`, isolating that request.
pub fn into_result(outcome: TeraTemplatingResult) -> (result: Result<Html, RenderError>)
    ensures
        outcome matches Ok(body) ==> result matches Ok(html) && html.0 == body,
        outcome matches Err(_) ==> result matches Err(_),
{
    match outcome {
        Ok(body) => Ok(Html(body)),
        Err(err) => Err(RenderError { message: error_text(&err) }),
    }
}

/// Converts a handler's result to the HTTP response: rendered HTML is sent
/// with status 200 and the rendered text as body; a render failure with
/// status 500 and an empty, generic body.
pub fn into_response(result: Result<Html, RenderError>) -> (resp: Response)
    ensures
        result matches Ok(html) ==> resp.status == HTTP_OK && resp.body == html.0,
        result matches Err(_) ==> resp.status == HTTP_INTERNAL_SERVER_ERROR && resp.body@ == Seq::<char>::empty(),
{
    match result {
        Ok(html) => Response { status: HTTP_OK, body: html.0 },
        Err(_) => Response { status: HTTP_INTERNAL_SERVER_ERROR, body: String::new() },
    }
}

/// The whole per-request mapping: a render outcome straight to the HTTP
/// response — status 200 with the rendered text exactly when the render
/// succeeded, status 500 with an empty body exactly when it failed.
pub fn render_response(outcome: TeraTemplatingResult) -> (resp: Response)
    ensures
        outcome matches Ok(body) ==> resp.status == HTTP_OK && resp.body == body,
        outcome matches Err(_) ==> resp.status == HTTP_INTERNAL_SERVER_ERROR && resp.body@ == Seq::<char>::empty(),
{
    into_response(into_result(outcome))
}

} // verus!
