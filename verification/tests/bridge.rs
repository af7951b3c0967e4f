use command_bridge::bridge::conversion_url;
use command_bridge::bridge::get_exchange_rate;
use command_bridge::bridge::get_rolimon_items;
use command_bridge::bridge::items_url;
use command_bridge::bridge::user_agent;
use command_bridge::error::BridgeError;
use command_bridge::http::HttpOutcome;
use command_bridge::http::adapter_result;
use command_bridge::text::u16_dec;

fn response(status: u16, body: &str) -> HttpOutcome {
    HttpOutcome::Response { status, body: body.to_string() }
}

fn err_message(r: Result<String, BridgeError>) -> String {
    match r {
        Ok(_) => panic!("expected a failure"),
        Err(e) => e.message(),
    }
}

#[test]
fn catalog_success_returns_body_verbatim() {
    let body = "{\"1029025\":[\"Dominus Frigidus\",\"\",8500000]}";
    let r = get_rolimon_items(response(200, body));
    assert_eq!(r.unwrap(), body);
}

#[test]
fn catalog_failure_names_status() {
    let r = get_rolimon_items(response(404, "not found"));
    let message = err_message(r);
    assert_eq!(message, "Failed to fetch: 404");
    assert!(message.contains("404"));
}

#[test]
fn catalog_transport_failure_passes_description_through() {
    let r = get_rolimon_items(HttpOutcome::Transport("connection refused".to_string()));
    assert_eq!(err_message(r), "connection refused");
}

#[test]
fn adapter_accepts_the_whole_success_range() {
    assert!(adapter_result(response(200, "x")).is_ok());
    assert!(adapter_result(response(204, "x")).is_ok());
    assert!(adapter_result(response(299, "x")).is_ok());
    assert!(adapter_result(response(199, "x")).is_err());
    assert!(adapter_result(response(300, "x")).is_err());
    assert!(adapter_result(response(500, "x")).is_err());
}

#[test]
fn exchange_returns_the_rate_for_the_target_code() {
    let body = "{\"amount\":100.0,\"base\":\"USD\",\"date\":\"2024-05-31\",\"rates\":{\"EUR\":92.3}}";
    let r = get_exchange_rate("EUR", response(200, body));
    let text = r.unwrap();
    assert_eq!(text, "92.3");
    let rate: f64 = text.parse().unwrap();
    assert!(rate.is_finite());
    assert!(rate >= 0.0);
    assert_eq!(rate, 92.3);
}

#[test]
fn exchange_unknown_code_gives_the_fixed_not_found_failure() {
    let body = "{\"amount\":100.0,\"base\":\"USD\",\"date\":\"2024-05-31\",\"rates\":{\"EUR\":92.3}}";
    let r = get_exchange_rate("ZZZ", response(200, body));
    assert_eq!(err_message(r), "No rate field in response");
}

#[test]
fn exchange_missing_rates_object_gives_the_fixed_not_found_failure() {
    let r = get_exchange_rate("EUR", response(200, "{\"amount\":100.0,\"base\":\"USD\"}"));
    assert_eq!(err_message(r), "No rate field in response");
}

#[test]
fn exchange_non_numeric_rate_gives_the_fixed_not_found_failure() {
    let body = "{\"rates\":{\"EUR\":\"ninety-two\"}}";
    let r = get_exchange_rate("EUR", response(200, body));
    assert_eq!(err_message(r), "No rate field in response");
}

#[test]
fn exchange_invalid_json_reports_the_parse_error() {
    let r = get_exchange_rate("EUR", response(200, "this is not json"));
    let message = err_message(r);
    assert_ne!(message, "No rate field in response");
    assert!(message.contains("line 1"));
}

#[test]
fn exchange_checks_the_status_before_the_body() {
    let body = "{\"rates\":{\"EUR\":92.3}}";
    let r = get_exchange_rate("EUR", response(500, body));
    assert_eq!(err_message(r), "Failed to fetch: 500");
}

#[test]
fn exchange_transport_failure_passes_description_through() {
    let r = get_exchange_rate("EUR", HttpOutcome::Transport("dns error".to_string()));
    assert_eq!(err_message(r), "dns error");
}

#[test]
fn repeated_invocations_with_equal_arguments_agree() {
    let body = "{\"rates\":{\"EUR\":92.3}}";
    let first = get_exchange_rate("EUR", response(200, body));
    let second = get_exchange_rate("EUR", response(200, body));
    assert_eq!(first.unwrap(), second.unwrap());

    let first = get_rolimon_items(response(200, body));
    let second = get_rolimon_items(response(200, body));
    assert_eq!(first.unwrap(), second.unwrap());
}

#[test]
fn conversion_url_embeds_the_three_parameters() {
    assert_eq!(
        conversion_url("100", "USD", "EUR"),
        "https://api.frankfurter.app/latest?amount=100&from=USD&to=EUR"
    );
}

#[test]
fn fixed_endpoint_and_header_values() {
    assert_eq!(items_url(), "https://api.rolimons.com/items/v1/itemdetails");
    assert_eq!(user_agent(), "Mozilla/5.0 (Tauri)");
}

#[test]
fn status_codes_render_in_decimal() {
    assert_eq!(u16_dec(0), "0");
    assert_eq!(u16_dec(7), "7");
    assert_eq!(u16_dec(404), "404");
    assert_eq!(u16_dec(65535), "65535");
}

#[test]
fn integer_rates_render_as_their_integer_text() {
    let body = "{\"rates\":{\"JPY\":157}}";
    let r = get_exchange_rate("JPY", response(200, body));
    let text = r.unwrap();
    assert_eq!(text, "157");
    let rate: f64 = text.parse().unwrap();
    assert_eq!(rate, 157.0);
}
