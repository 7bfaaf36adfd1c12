use vstd::prelude::*;

verus! {

/// `candid::Principal`, the identity of a WebSocket client: carried and compared, never opened.
#[verifier::external_type_specification]
#[verifier::external_body]
pub struct ExPrincipal(candid::Principal);

/// `ic_cdk`'s `HttpHeader`, carried through unread.
#[verifier::external_type_specification]
#[verifier::external_body]
pub struct ExHttpHeader(ic_cdk::api::management_canister::http_request::HttpHeader);

/// `ic_cdk`'s `HttpResponse`, carried through unread.
#[verifier::external_type_specification]
#[verifier::external_body]
pub struct ExHttpResponse(ic_cdk::api::management_canister::http_request::HttpResponse);

/// `ic_cdk_timers::TimerId`, the handle of an armed timer.
#[verifier::external_type_specification]
#[verifier::external_body]
pub struct ExTimerId(ic_cdk_timers::TimerId);

/// `Clone` of `ic_cdk`'s `HttpHeader` is derived: the copy has the same name and value.
pub assume_specification[ <ic_cdk::api::management_canister::http_request::HttpHeader as Clone>::clone ](
    header: &ic_cdk::api::management_canister::http_request::HttpHeader,
) -> (copy: ic_cdk::api::management_canister::http_request::HttpHeader)
    ensures
        copy == *header,
;

/// `Clone` of `ic_cdk`'s `HttpResponse` is derived: the copy has the same status, headers and body.
pub assume_specification[ <ic_cdk::api::management_canister::http_request::HttpResponse as Clone>::clone ](
    response: &ic_cdk::api::management_canister::http_request::HttpResponse,
) -> (copy: ic_cdk::api::management_canister::http_request::HttpResponse)
    ensures
        copy == *response,
;

/// `PartialEq` of `candid::Principal` is derived over its length and bytes: two principals
/// compare equal exactly when they are the same principal.
#[verifier::external_body]
pub(crate) fn same_principal(a: &candid::Principal, b: &candid::Principal) -> (same: bool)
    ensures
        same == (*a == *b),
{
    a == b
}

/// `ic_cdk_timers::clear_timer` cancels the timer; it does nothing if the timer has already
/// run or been cancelled.
#[verifier::external_body]
pub(crate) fn clear_timer(timer_id: ic_cdk_timers::TimerId) {
    ic_cdk_timers::clear_timer(timer_id)
}

} // verus!
