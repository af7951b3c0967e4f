//! The two operations the UI shell can invoke, and the laws they obey.
//!
//! Each operation is one request/response exchange. The shell builds nothing
//! itself: it takes the URL and `User-Agent` value from here, performs the
//! GET, and hands the [`HttpOutcome`] back to the operation's function, which
//! decides the response. Nothing is kept between invocations.

use vstd::prelude::*;
use crate::error::BridgeError;
use crate::error::ErrorModel;
use crate::error::message_model;
use crate::error::protocol_message;
use crate::error::protocol_message_carries_status;
use crate::http::HttpOutcome;
use crate::http::OutcomeModel;
use crate::http::adapter_model;
use crate::http::adapter_result;
use crate::http::is_success_code;
use crate::http::result_model;
use crate::json::json_parse_error;
use crate::json::json_rate_text;
use crate::json::lookup_rate;
use crate::text::dec_seq;

verus! {

/// The fixed item-catalog endpoint.
pub open spec fn items_endpoint() -> Seq<char> {
    "https://api.rolimons.com/items/v1/itemdetails"@
}

/// The URL the shell fetches for the item catalog.
pub fn items_url() -> (r: String)
    ensures
        r@ == items_endpoint(),
{
    String::from_str("https://api.rolimons.com/items/v1/itemdetails")
}

/// The fixed self-identifying value sent as the `User-Agent` header of every
/// outbound request.
pub open spec fn user_agent_value() -> Seq<char> {
    "Mozilla/5.0 (Tauri)"@
}

/// The `User-Agent` header value for the shell to send.
pub fn user_agent() -> (r: String)
    ensures
        r@ == user_agent_value(),
{
    String::from_str("Mozilla/5.0 (Tauri)")
}

/// The conversion endpoint's URL for a given amount (already rendered to
/// text), source code and target code, with the three query parameters
/// embedded in order.
pub open spec fn conversion_endpoint(amount: Seq<char>, from: Seq<char>, to: Seq<char>) -> Seq<
    char,
> {
    "https://api.frankfurter.app/latest?amount="@ + amount + "&from="@ + from + "&to="@ + to
}

/// Builds the URL the shell fetches for a conversion. The amount reaches the
/// bridge as the text the shell rendered it to; it is embedded verbatim, as
/// are the two codes — the bridge does not validate them, an unknown code
/// surfaces later as a missing rate in the upstream response.
pub fn conversion_url(amount: &str, from: &str, to: &str) -> (r: String)
    ensures
        r@ == conversion_endpoint(amount@, from@, to@),
{
    let mut r = String::from_str("https://api.frankfurter.app/latest?amount=");
    r.append(amount);
    r.append("&from=");
    r.append(from);
    r.append("&to=");
    r.append(to);
    proof {
        assert(r@ =~= conversion_endpoint(amount@, from@, to@));
    }
    r
}

/// What the catalog operation returns for an outcome: exactly the adapter's
/// verdict — the upstream body verbatim on a success status, the failure
/// otherwise. No parsing, no shaping.
pub open spec fn catalog_model(o: OutcomeModel) -> Result<Seq<char>, ErrorModel> {
    adapter_model(o)
}

/// The fixed message of the shape failure reported when a conversion
/// response carries no rate for the target code.
pub open spec fn no_rate_message() -> Seq<char> {
    "No rate field in response"@
}

/// What the conversion operation returns for a target code and an outcome:
/// the adapter's failure if there is one; else a shape failure carrying the
/// parser's description if the body is not valid JSON; else the decimal text
/// of the number under `rates` -> `code`, or the fixed not-found failure when
/// there is no such number.
pub open spec fn exchange_model(code: Seq<char>, o: OutcomeModel) -> Result<Seq<char>, ErrorModel> {
    match adapter_model(o) {
        Err(e) => Err(e),
        Ok(body) => match json_parse_error(body) {
            Some(description) => Err(ErrorModel::Shape(description)),
            None => match json_rate_text(body, code) {
                Some(text) => Ok(text),
                None => Err(ErrorModel::Shape(no_rate_message())),
            },
        },
    }
}

/// The item-catalog operation: returns the upstream body as an opaque text
/// payload, or the failure.
pub fn get_rolimon_items(outcome: HttpOutcome) -> (r: Result<String, BridgeError>)
    ensures
        result_model(r) == catalog_model(outcome@),
{
    adapter_result(outcome)
}

/// The currency-conversion operation, given the outcome of fetching the URL
/// from [`conversion_url`]: returns the rate found for `to` in the response,
/// as the number's decimal text, or the failure.
pub fn get_exchange_rate(to: &str, outcome: HttpOutcome) -> (r: Result<String, BridgeError>)
    ensures
        result_model(r) == exchange_model(to@, outcome@),
{
    let body = match adapter_result(outcome) {
        Ok(body) => body,
        Err(e) => {
            return Err(e);
        },
    };
    match lookup_rate(body.as_str(), to) {
        Ok(Some(text)) => Ok(text),
        Ok(None) => Err(BridgeError::Shape(String::from_str("No rate field in response"))),
        Err(description) => Err(BridgeError::Shape(description)),
    }
}

/// A success-range response from the catalog endpoint is returned verbatim:
/// the payload is the upstream body, character for character.
pub proof fn catalog_returns_body_verbatim(status: u16, body: Seq<char>)
    requires
        is_success_code(status),
    ensures
        catalog_model(OutcomeModel::Response { status, body }) == Ok::<Seq<char>, ErrorModel>(
            body,
        ),
{
}

/// A response outside the success range makes either operation fail — never
/// succeed — with a protocol failure whose message carries the decimal status
/// code as a contiguous piece.
pub proof fn protocol_failure_names_status(status: u16, body: Seq<char>, code: Seq<char>)
    requires
        !is_success_code(status),
    ensures
        catalog_model(OutcomeModel::Response { status, body }) == Err::<Seq<char>, ErrorModel>(
            ErrorModel::Protocol(status),
        ),
        exchange_model(code, OutcomeModel::Response { status, body }) == Err::<
            Seq<char>,
            ErrorModel,
        >(ErrorModel::Protocol(status)),
        message_model(ErrorModel::Protocol(status)) == protocol_message(status),
        exists|i: int|
            0 <= i && i + dec_seq(status as nat).len() <= protocol_message(status).len()
                && #[trigger] protocol_message(status).subrange(
                i,
                i + dec_seq(status as nat).len() as int,
            ) == dec_seq(status as nat),
{
    protocol_message_carries_status(status);
}

/// A success-range conversion response whose body is valid JSON but carries
/// no number under `rates` -> `code` yields the fixed not-found failure:
/// never a success, never an invented value.
pub proof fn missing_rate_is_reported(status: u16, body: Seq<char>, code: Seq<char>)
    requires
        is_success_code(status),
        json_parse_error(body) is None,
        json_rate_text(body, code) is None,
    ensures
        exchange_model(code, OutcomeModel::Response { status, body }) == Err::<
            Seq<char>,
            ErrorModel,
        >(ErrorModel::Shape(no_rate_message())),
{
}

/// The conversion succeeds exactly when the outcome is a success-range
/// response whose body is valid JSON carrying a number under `rates` ->
/// `code`, and then it returns exactly that number's text.
pub proof fn exchange_success_characterized(code: Seq<char>, o: OutcomeModel)
    ensures
        exchange_model(code, o) is Ok <==> (o matches OutcomeModel::Response { status, body }
            && is_success_code(status) && json_parse_error(body) is None && json_rate_text(
            body,
            code,
        ) is Some),
        exchange_model(code, o) matches Ok(text) ==> (o matches OutcomeModel::Response {
            status,
            body,
        } && json_rate_text(body, code) == Some(text)),
{
}

/// Both operations are stateless: the result is a function of the arguments
/// alone, so two invocations with identical arguments and identical upstream
/// outcomes return identical responses. Nothing is cached between calls — a
/// changed upstream outcome is never masked; each invocation's network call
/// is the shell's, one per invocation.
pub proof fn operations_stateless(first: OutcomeModel, second: OutcomeModel, code: Seq<char>)
    requires
        first == second,
    ensures
        catalog_model(first) == catalog_model(second),
        exchange_model(code, first) == exchange_model(code, second),
{
}

} // verus!
