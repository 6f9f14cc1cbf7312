use httperr::HttpErrorDetails;
use httperr::extract_message;

#[test]
fn error_object_message() {
    let d = HttpErrorDetails::new(
        401,
        "Unauthorized",
        "https://api.example.com/v1/me",
        "GET",
        Some(r#"{"error":{"status":401,"message":"Invalid token"}}"#),
    );
    assert_eq!(d.message, "Invalid token");
    assert_eq!(d.summary(), "HTTP 401 - Invalid token");
}

#[test]
fn error_plain_string() {
    let d = HttpErrorDetails::new(
        400,
        "Bad Request",
        "https://api.example.com/v1/tracks",
        "GET",
        Some(r#"{"error":"invalid id"}"#),
    );
    assert_eq!(d.message, "invalid id");
}

#[test]
fn top_level_message() {
    let d = HttpErrorDetails::new(
        403,
        "Forbidden",
        "https://api.example.com/v1/me",
        "GET",
        Some(r#"{"message":"no access"}"#),
    );
    assert_eq!(d.message, "no access");
}

#[test]
fn top_level_detail() {
    let d = HttpErrorDetails::new(
        422,
        "Unprocessable Entity",
        "https://api.example.com/v1/albums",
        "POST",
        Some(r#"{"detail":"missing field"}"#),
    );
    assert_eq!(d.message, "missing field");
}

#[test]
fn error_message_wins_over_top_level_message() {
    let d = HttpErrorDetails::new(
        500,
        "Internal Server Error",
        "https://api.example.com/v1/search",
        "GET",
        Some(r#"{"error":{"message":"from error"},"message":"from top"}"#),
    );
    assert_eq!(d.message, "from error");
}

#[test]
fn error_object_without_string_message_falls_through() {
    let d = HttpErrorDetails::new(
        500,
        "Internal Server Error",
        "https://api.example.com/v1/search",
        "GET",
        Some(r#"{"error":{"message":5},"message":"from top"}"#),
    );
    assert_eq!(d.message, "from top");
}

#[test]
fn short_plain_body_verbatim() {
    let d = HttpErrorDetails::new(
        500,
        "Internal Server Error",
        "https://api.example.com/v1/player",
        "PUT",
        Some("Internal error occurred"),
    );
    assert_eq!(d.message, "Internal error occurred");
    assert_eq!(d.summary(), "HTTP 500 - Internal error occurred");
}

#[test]
fn plain_body_of_199_characters_verbatim() {
    let body = "x".repeat(199);
    let d = HttpErrorDetails::new(502, "Bad Gateway", "https://api.example.com", "GET", Some(body.as_str()));
    assert_eq!(d.message, body);
}

#[test]
fn plain_body_of_200_characters_falls_back() {
    let body = "x".repeat(200);
    let d = HttpErrorDetails::new(502, "Bad Gateway", "https://api.example.com", "GET", Some(body.as_str()));
    assert_eq!(d.message, "Bad Gateway (502)");
}

#[test]
fn unparseable_brace_body_falls_back() {
    let d = HttpErrorDetails::new(
        500,
        "Internal Server Error",
        "https://api.example.com",
        "GET",
        Some("{this is not json"),
    );
    assert_eq!(d.message, "Internal Server Error (500)");
}

#[test]
fn empty_body_falls_back() {
    let d = HttpErrorDetails::new(404, "Not Found", "https://api.example.com", "GET", Some(""));
    assert_eq!(d.message, "Not Found (404)");
}

#[test]
fn absent_body_falls_back() {
    let d = HttpErrorDetails::new(
        503,
        "Service Unavailable",
        "https://api.example.com/v1/me",
        "GET",
        None::<&str>,
    );
    assert_eq!(d.message, "Service Unavailable (503)");
    assert_eq!(d.summary(), "HTTP 503 - Service Unavailable (503)");
}

#[test]
fn parsed_array_without_message_falls_back() {
    let d = HttpErrorDetails::new(500, "Internal Server Error", "https://api.example.com", "GET", Some("[1,2,3]"));
    assert_eq!(d.message, "Internal Server Error (500)");
}

#[test]
fn parsed_object_without_message_falls_back() {
    let d = HttpErrorDetails::new(
        429,
        "Too Many Requests",
        "https://api.example.com",
        "GET",
        Some(r#"{"error":{"code":17}}"#),
    );
    assert_eq!(d.message, "Too Many Requests (429)");
}

#[test]
fn extract_message_directly() {
    assert_eq!(
        extract_message(&Some(String::from(r#"{"error":"rate limited"}"#)), "Too Many Requests", 429),
        "rate limited"
    );
    assert_eq!(extract_message(&None, "Gone", 410), "Gone (410)");
    assert_eq!(extract_message(&Some(String::from("oops")), "Gone", 410), "oops");
}
