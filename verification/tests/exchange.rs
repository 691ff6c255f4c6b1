//! One exchange from request to result, with the answers of the server
//! played by hand.

use nhl_api::client::Client;
use nhl_api::config::ClientConfig;
use nhl_api::error::{ErrorKind, NHLApiError};
use nhl_api::http_client::{Endpoint, HttpClient};
use nhl_api::query::QueryParams;

fn http() -> HttpClient {
    HttpClient::new(ClientConfig::default())
}

fn transport_failure() -> reqwest::Error {
    reqwest::Client::new()
        .get("this is no url")
        .build()
        .unwrap_err()
}

#[test]
fn request_for_standings_joins_base_and_resource() {
    let request = http().get_json(Endpoint::ApiWebV1, "standings/now", None);
    assert_eq!(request.url, "https://api-web.nhle.com/v1/standings/now");
    assert_eq!(request.resource, "standings/now");
    assert!(request.query.is_none());
}

#[test]
fn request_keeps_its_query() {
    let mut params = QueryParams::new();
    params.insert("q".to_string(), "test".to_string());
    params.insert("limit".to_string(), "10".to_string());
    let request = http().get_json(
        Endpoint::Custom("http://127.0.0.1:1234".to_string()),
        "search",
        Some(params),
    );
    assert_eq!(request.url, "http://127.0.0.1:1234/search");
    let query = request.query.unwrap();
    assert_eq!(query.len(), 2);
    assert_eq!(query.get("q"), Some("test"));
    assert_eq!(query.get("limit"), Some("10"));
}

#[test]
fn success_lets_the_body_be_decoded() {
    let client = http();
    let request = client.get_json(Endpoint::ApiWebV1, "standings/now", None);
    assert!(client.on_response(&request, Ok(200)).is_ok());

    let decoded = serde_json::from_str::<serde_json::Value>(r#"{"standings": []}"#);
    let value = client.on_body(decoded).unwrap();
    assert!(value.get("standings").unwrap().as_array().unwrap().is_empty());
}

#[test]
fn every_success_status_is_a_success() {
    let client = http();
    let request = client.get_json(Endpoint::ApiWebV1, "standings/now", None);
    for status in 200..=299u16 {
        assert!(client.on_response(&request, Ok(status)).is_ok());
    }
    assert!(client.on_response(&request, Ok(199)).is_err());
    assert!(client.on_response(&request, Ok(300)).is_err());
}

#[test]
fn not_found_ends_the_exchange_before_the_body() {
    let client = http();
    let request = client.get_json(Endpoint::ApiWebV1, "standings/now", None);
    match client.on_response(&request, Ok(404)) {
        Err(NHLApiError::ResourceNotFound {
            status_code,
            message,
        }) => {
            assert_eq!(status_code, 404);
            assert_eq!(message, "Request to standings/now failed");
        }
        other => panic!("expected ResourceNotFound, got {:?}", other),
    }
}

#[test]
fn server_error_and_rate_limit_keep_their_status() {
    let client = http();
    let request = client.get_json(Endpoint::ApiWebV1, "error", None);
    match client.on_response(&request, Ok(503)) {
        Err(NHLApiError::ServerError { status_code, .. }) => assert_eq!(status_code, 503),
        other => panic!("expected ServerError, got {:?}", other),
    }
    match client.on_response(&request, Ok(429)) {
        Err(NHLApiError::RateLimitExceeded { status_code, .. }) => assert_eq!(status_code, 429),
        other => panic!("expected RateLimitExceeded, got {:?}", other),
    }
}

#[test]
fn transport_failure_is_not_classified_by_status() {
    let client = http();
    let request = client.get_json(Endpoint::ApiWebV1, "standings/now", None);
    let error = client
        .on_response(&request, Err(transport_failure()))
        .unwrap_err();
    assert_eq!(error.kind(), ErrorKind::RequestError);
    assert_eq!(error.status_code(), None);
    assert_eq!(error.message(), None);
    assert!(error.to_string().starts_with("HTTP request failed: "));
}

#[test]
fn body_that_lacks_a_part_is_a_decode_failure() {
    let client = http();
    let decoded = serde_json::from_str::<(i32, String)>("[42]");
    let error = client.on_body(decoded).unwrap_err();
    assert!(matches!(error, NHLApiError::JsonError(_)));
    assert_eq!(error.kind(), ErrorKind::JsonError);
    assert_eq!(error.status_code(), None);
    assert!(error.to_string().starts_with("JSON parsing failed: "));
}

#[test]
fn body_that_is_no_json_is_a_decode_failure() {
    let client = http();
    let decoded = serde_json::from_str::<Vec<i32>>("not json");
    assert!(matches!(
        client.on_body(decoded),
        Err(NHLApiError::JsonError(_))
    ));
}

#[test]
fn outside_errors_convert_into_their_variants() {
    let transport: NHLApiError = transport_failure().into();
    assert!(matches!(transport, NHLApiError::RequestError(_)));
    let decode: NHLApiError = serde_json::from_str::<i32>("x").unwrap_err().into();
    assert!(matches!(decode, NHLApiError::JsonError(_)));
}

#[test]
fn handle_response_reads_the_status_only() {
    let client = http();
    assert!(client.handle_response(200, "/test").is_ok());
    assert!(client.handle_response(204, "/test").is_ok());
    let error = client.handle_response(404, "/test/resource").unwrap_err();
    assert_eq!(error.kind(), ErrorKind::ResourceNotFound);
    assert_eq!(error.status_code(), Some(404));
}

#[test]
fn classification_by_status() {
    let table: [(u16, ErrorKind); 12] = [
        (404, ErrorKind::ResourceNotFound),
        (429, ErrorKind::RateLimitExceeded),
        (400, ErrorKind::BadRequest),
        (401, ErrorKind::Unauthorized),
        (500, ErrorKind::ServerError),
        (599, ErrorKind::ServerError),
        (100, ErrorKind::ApiError),
        (300, ErrorKind::ApiError),
        (402, ErrorKind::ApiError),
        (499, ErrorKind::ApiError),
        (600, ErrorKind::ApiError),
        (65535, ErrorKind::ApiError),
    ];
    for (status, kind) in table {
        let error = HttpClient::error_from_status(status, "teams");
        assert_eq!(error.kind(), kind);
        assert_eq!(error.status_code(), Some(status));
    }
}

#[test]
fn messages_name_the_request() {
    let specific = HttpClient::error_from_status(500, "standings/now");
    assert_eq!(specific.message(), Some("Request to standings/now failed"));
    assert_eq!(
        specific.to_string(),
        "Server error: Request to standings/now failed"
    );
    let general = HttpClient::error_from_status(418, "standings/now");
    assert_eq!(
        general.message(),
        Some("Unexpected error: Request to standings/now failed")
    );
    assert_eq!(
        general.to_string(),
        "NHL API error: Unexpected error: Request to standings/now failed"
    );
}

#[test]
fn every_kind_prints_under_its_heading() {
    let cases = [
        (404, "Resource not found: "),
        (429, "Rate limit exceeded: "),
        (400, "Bad request: "),
        (401, "Unauthorized: "),
        (502, "Server error: "),
        (302, "NHL API error: "),
    ];
    for (status, heading) in cases {
        let text = HttpClient::error_from_status(status, "x").to_string();
        assert!(text.starts_with(heading), "{}", text);
    }
    let other = NHLApiError::Other("Invalid Season Id 7".to_string());
    assert_eq!(other.to_string(), "Invalid Season Id 7");
    assert_eq!(other.kind(), ErrorKind::Other);
    assert_eq!(other.message(), Some("Invalid Season Id 7"));
}

#[test]
fn join_with_every_combination_of_slashes() {
    for base in ["https://h/v1", "https://h/v1/"] {
        for resource in ["teams", "/teams"] {
            assert_eq!(HttpClient::build_url(base, resource), "https://h/v1/teams");
        }
    }
}

#[test]
fn join_with_an_empty_resource_gives_the_base() {
    assert_eq!(HttpClient::build_url("https://h/v1", ""), "https://h/v1");
    assert_eq!(HttpClient::build_url("https://h/v1/", ""), "https://h/v1/");
    assert_eq!(HttpClient::build_url("", ""), "");
}

#[test]
fn join_drops_one_slash_only() {
    assert_eq!(HttpClient::build_url("https://h//", "//a"), "https://h///a");
    assert_eq!(HttpClient::build_url("", "a"), "/a");
    assert_eq!(HttpClient::build_url("", "/"), "/");
    assert_eq!(HttpClient::build_url("é", "ü"), "é/ü");
}

#[test]
fn base_urls_of_the_endpoints() {
    assert_eq!(Endpoint::ApiWebV1.base_url(), "https://api-web.nhle.com/v1/");
    assert_eq!(Endpoint::ApiCore.base_url(), "https://api.nhle.com/");
    assert_eq!(Endpoint::ApiStats.base_url(), "https://api.nhle.com/stats/rest/");
    assert_eq!(Endpoint::SearchV1.base_url(), "https://search.d3.nhle.com/api/v1/");
}

#[test]
fn client_hands_out_its_transport_settings() {
    let client = Client::with_config(ClientConfig {
        timeout: std::time::Duration::from_millis(1500),
        ssl_verify: false,
        follow_redirects: true,
    });
    assert_eq!(client.http().timeout(), std::time::Duration::from_millis(1500));
    assert!(client.http().accept_invalid_certs());
}
