use httperr::Error;
use httperr::HttpErrorDetails;
use httperr::u16_string;

#[test]
fn summary_is_deterministic_and_formatted() {
    let d = HttpErrorDetails::new(
        401,
        "Unauthorized",
        "https://api.example.com/v1/me",
        "GET",
        Some(r#"{"error":{"message":"Invalid token"}}"#),
    );
    let first = d.summary();
    let second = d.summary();
    assert_eq!(first, second);
    assert_eq!(first, format!("HTTP {} - {}", 401, d.message));
}

#[test]
fn details_shows_status_url_method_and_body() {
    let d = HttpErrorDetails::new(404, "Not Found", "https://api.example.com/v1/x", "GET", Some("gone"));
    assert_eq!(
        d.details(),
        "HTTP Error:\n  Status: 404 Not Found\n  URL: https://api.example.com/v1/x\n  Method: GET\n  Response: gone"
    );
}

#[test]
fn details_without_body_has_no_response_line() {
    let d = HttpErrorDetails::new(404, "Not Found", "https://api.example.com/v1/x", "DELETE", None::<&str>);
    assert_eq!(
        d.details(),
        "HTTP Error:\n  Status: 404 Not Found\n  URL: https://api.example.com/v1/x\n  Method: DELETE"
    );
}

#[test]
fn details_truncates_bodies_over_500_characters() {
    let body = "a".repeat(501);
    let d = HttpErrorDetails::new(500, "Internal Server Error", "https://api.example.com", "GET", Some(body.as_str()));
    let shown = d.details();
    assert!(shown.ends_with(&format!("{}... (truncated)", "a".repeat(500))));
    assert!(!shown.contains(&"a".repeat(501)));
}

#[test]
fn details_shows_body_of_exactly_500_characters_whole() {
    let body = "b".repeat(500);
    let d = HttpErrorDetails::new(500, "Internal Server Error", "https://api.example.com", "GET", Some(body.as_str()));
    let shown = d.details();
    assert!(shown.ends_with(&body));
    assert!(!shown.contains("truncated"));
}

#[test]
fn web_api_renders_message_verbatim() {
    let e = Error::web_api("connection reset");
    assert_eq!(e.render(), "connection reset");
}

#[test]
fn http_renders_the_summary() {
    let e = Error::http(
        503,
        "Service Unavailable",
        "https://api.example.com/v1/me",
        "GET",
        None::<&str>,
    );
    assert_eq!(e.render(), "HTTP 503 - Service Unavailable (503)");
    match e {
        Error::HttpError(d) => {
            assert_eq!(d.status_code, 503);
            assert_eq!(d.status_text, "Service Unavailable");
            assert_eq!(d.url, "https://api.example.com/v1/me");
            assert_eq!(d.method, "GET");
            assert_eq!(d.body, None);
            assert_eq!(d.message, "Service Unavailable (503)");
        }
        Error::WebApiError(_) => panic!("expected the detailed variant"),
    }
}

#[test]
fn structural_equality() {
    let a = Error::http(401, "Unauthorized", "https://api.example.com", "GET", Some("x"));
    let b = Error::http(401, "Unauthorized", "https://api.example.com", "GET", Some("x"));
    let c = Error::http(403, "Forbidden", "https://api.example.com", "GET", Some("x"));
    assert_eq!(a, b);
    assert_ne!(a, c);
    assert_ne!(a, Error::web_api("x"));
    assert_eq!(Error::web_api("x"), Error::web_api("x"));
    assert_ne!(Error::web_api("x"), Error::web_api("y"));
}

#[test]
fn clones_are_equal() {
    let a = Error::http(418, "I'm a teapot", "https://api.example.com/brew", "POST", Some("short and stout"));
    let b = a.clone();
    assert_eq!(a, b);
    assert_eq!(b.render(), "HTTP 418 - short and stout");
}

#[test]
fn status_codes_render_in_decimal() {
    assert_eq!(u16_string(0), "0");
    assert_eq!(u16_string(7), "7");
    assert_eq!(u16_string(404), "404");
    assert_eq!(u16_string(65535), "65535");
}
