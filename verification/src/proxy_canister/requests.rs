use super::constants::{
    MAX_HTTP_HEADERS_COUNT, MAX_HTTP_REQUEST_TIMEOUT_MS, MIN_HTTP_REQUEST_TIMEOUT_MS,
};
use crate::http_over_ws::http_connection::HttpRequestTimeoutMs;
use crate::proxy_canister_types::{HttpRequestEndpointArgs, InvalidRequest, InvalidRequestView};
use vstd::prelude::*;

verus! {

/// What is wrong with the given text as an absolute URL, in the words of the `url` crate;
/// nothing where the text is such a URL.
pub uninterp spec fn url_parse_error(url: Seq<char>) -> Option<Seq<char>>;

/// `url::Url::parse`, with the error it gives written out by its `Display`. What is returned
/// depends on the text alone.
#[verifier::external_body]
fn parse_url(url: &str) -> (error: Option<String>)
    ensures
        match error {
            Some(reason) => url_parse_error(url@) == Some(reason@),
            None => url_parse_error(url@) is None,
        },
{
    match url::Url::parse(url) {
        Ok(_) => None,
        Err(error) => Some(error.to_string()),
    }
}

/// Whether a request is accepted, and why not, given what parsing its URL gave, the number
/// of its headers and its timeout: the URL has to parse, the headers must not be too many,
/// and the timeout, if there is one, has to lie within the limits. The first of these that
/// fails is the one reported.
pub open spec fn validation(
    url_error: Option<Seq<char>>,
    headers_count: nat,
    timeout_ms: Option<HttpRequestTimeoutMs>,
) -> Result<(), InvalidRequestView> {
    if let Some(reason) = url_error {
        Err(InvalidRequestView::InvalidUrl(reason))
    } else if headers_count > MAX_HTTP_HEADERS_COUNT {
        Err(InvalidRequestView::TooManyHeaders)
    } else if timeout_ms matches Some(timeout_ms) && (timeout_ms > MAX_HTTP_REQUEST_TIMEOUT_MS
        || timeout_ms < MIN_HTTP_REQUEST_TIMEOUT_MS) {
        Err(InvalidRequestView::InvalidTimeout)
    } else {
        Ok(())
    }
}

/// The model of what a validation reports.
pub open spec fn validation_view(validated: Result<(), InvalidRequest>) -> Result<
    (),
    InvalidRequestView,
> {
    match validated {
        Ok(()) => Ok(()),
        Err(error) => Err(error@),
    }
}

/// Validates a request of which the outcome of parsing its URL is known.
pub fn validate_parsed_request(
    url_error: Option<String>,
    headers_count: usize,
    timeout_ms: Option<HttpRequestTimeoutMs>,
) -> (validated: Result<(), InvalidRequest>)
    ensures
        validation_view(validated) == validation(
            match url_error {
                Some(reason) => Some(reason@),
                None => None,
            },
            headers_count as nat,
            timeout_ms,
        ),
{
    if let Some(reason) = url_error {
        return Err(InvalidRequest::InvalidUrl(reason));
    }
    if headers_count > MAX_HTTP_HEADERS_COUNT {
        return Err(InvalidRequest::TooManyHeaders);
    }
    if let Some(timeout_ms) = timeout_ms {
        if timeout_ms > MAX_HTTP_REQUEST_TIMEOUT_MS || timeout_ms < MIN_HTTP_REQUEST_TIMEOUT_MS {
            return Err(InvalidRequest::InvalidTimeout);
        }
    }
    Ok(())
}

/// Validates a request that a canister makes: its URL is parsed, and the rest is checked as
/// [`validate_parsed_request`] does.
pub fn validate_incoming_request(args: &HttpRequestEndpointArgs) -> (validated: Result<
    (),
    InvalidRequest,
>)
    ensures
        validation_view(validated) == validation(
            url_parse_error(args.request.url@),
            args.request.headers@.len(),
            args.timeout_ms,
        ),
{
    let url_error = parse_url(args.request.url.as_str());
    validate_parsed_request(url_error, args.request.headers.len(), args.timeout_ms)
}

} // verus!
