use mnml_msg_buttondown::buttondown::{
    check_reply, email_url, extract_bd_error, list_emails_request, list_subscribers_request,
    mask_secret, schedule_draft_request, subscriber_url, unsubscribe_request, urlencode, Auth,
    Method,
};

#[test]
fn auth_base_urls() {
    let a = Auth {
        api_key: "k".into(),
    };
    assert_eq!(a.api_base(), "https://api.buttondown.email/v1");
    assert_eq!(a.web_base(), "https://buttondown.email");
}

#[test]
fn missing_api_key_errors() {
    let r = Auth::from_env(None);
    assert!(r.is_err());
    assert!(Auth::from_env(Some(String::new())).is_err());
    assert_eq!(Auth::from_env(Some("abc".into())).unwrap().api_key, "abc");
    assert_eq!(
        r.unwrap_err().message(),
        "BUTTONDOWN_API_KEY not set — export it from Buttondown (Settings → Programming)"
    );
}

#[test]
fn bd_error_detail_envelope() {
    let body = r#"{"detail":"Invalid token."}"#;
    let msg = extract_bd_error(reqwest::StatusCode::UNAUTHORIZED.as_u16(), body);
    assert!(msg.contains("Invalid token"));
    assert!(msg.starts_with("buttondown:"));
}

#[test]
fn bd_error_non_field_errors_envelope() {
    let body = r#"{"non_field_errors":["Cannot schedule an already-sent email."]}"#;
    let msg = extract_bd_error(reqwest::StatusCode::BAD_REQUEST.as_u16(), body);
    assert!(msg.contains("Cannot schedule"));
    assert!(msg.starts_with("buttondown:"));
}

#[test]
fn bd_error_per_field_validation_envelope() {
    let body = r#"{"publish_date":["This field is required."]}"#;
    let msg = extract_bd_error(reqwest::StatusCode::BAD_REQUEST.as_u16(), body);
    assert!(msg.contains("publish_date"));
    assert!(msg.contains("required"));
}

#[test]
fn email_and_subscriber_url_shapes() {
    let a = Auth {
        api_key: "k".into(),
    };
    assert_eq!(
        email_url(&a, "abc-1"),
        "https://buttondown.email/emails/abc-1"
    );
    assert_eq!(
        subscriber_url(&a, "sub-1"),
        "https://buttondown.email/subscribers/sub-1"
    );
}

// ── error messages, exactly ─────────────────────────────────────────

#[test]
fn bd_error_exact_messages() {
    assert_eq!(
        extract_bd_error(401, r#"{"detail":"Invalid token."}"#),
        "buttondown: Invalid token."
    );
    // `detail` wins over everything else.
    assert_eq!(
        extract_bd_error(400, r#"{"a":["x"],"detail":"d","non_field_errors":["n"]}"#),
        "buttondown: d"
    );
    // A non-string detail falls through to non_field_errors.
    assert_eq!(
        extract_bd_error(400, r#"{"detail":3,"non_field_errors":["n"]}"#),
        "buttondown: n"
    );
    // Per-field arrays: the first field in key order.
    assert_eq!(
        extract_bd_error(400, r#"{"zeta":["z"],"alpha":["a"]}"#),
        "buttondown: alpha: a"
    );
    assert_eq!(
        extract_bd_error(400, r#"{"alpha":[1],"beta":["b"]}"#),
        "buttondown: beta: b"
    );
}

#[test]
fn bd_error_falls_back_to_status_line() {
    assert_eq!(
        extract_bd_error(502, "<html>bad gateway</html>"),
        "HTTP 502 Bad Gateway: <html>bad gateway</html>"
    );
    assert_eq!(extract_bd_error(404, "[1,2]"), "HTTP 404 Not Found: [1,2]");
    assert_eq!(
        extract_bd_error(599, "{}"),
        "HTTP 599 <unknown status code>: {}"
    );
    let long = "é".repeat(300);
    let msg = extract_bd_error(500, &long);
    assert_eq!(
        msg,
        format!("HTTP 500 Internal Server Error: {}", "é".repeat(200))
    );
}

#[test]
fn check_reply_accepts_2xx_only() {
    assert!(check_reply(200, "").is_ok());
    assert!(check_reply(204, "").is_ok());
    assert_eq!(
        check_reply(429, r#"{"detail":"Slow down."}"#),
        Err("buttondown: Slow down.".to_string())
    );
    assert!(check_reply(302, "").is_err());
}

// ── requests ────────────────────────────────────────────────────────

#[test]
fn urlencode_escapes_reserved_bytes() {
    assert_eq!(urlencode("draft"), "draft");
    assert_eq!(urlencode("a b&c=d"), "a%20b%26c%3Dd");
    assert_eq!(urlencode("A-z_0.9~"), "A-z_0.9~");
    assert_eq!(urlencode("é"), "%C3%A9");
    assert_eq!(urlencode(""), "");
}

#[test]
fn request_shapes() {
    let a = Auth {
        api_key: "secret".into(),
    };
    let r = list_emails_request(&a, "sent");
    assert_eq!(r.method, Method::Get);
    assert_eq!(r.url, "https://api.buttondown.email/v1/emails?status=sent&page=1");
    assert_eq!(r.authorization, "Token secret");
    assert!(r.json_content_type);
    assert!(r.body.is_none());

    let r = list_emails_request(&a, "a b");
    assert_eq!(r.url, "https://api.buttondown.email/v1/emails?status=a%20b&page=1");

    let r = list_subscribers_request(&a);
    assert_eq!(r.url, "https://api.buttondown.email/v1/subscribers?page=1");

    let r = schedule_draft_request(&a, "abc-1", "2026-06-07T13:00:00Z");
    assert_eq!(r.method, Method::Patch);
    assert_eq!(r.url, "https://api.buttondown.email/v1/emails/abc-1");
    assert_eq!(
        r.body.as_deref(),
        Some(r#"{"publish_date":"2026-06-07T13:00:00Z","status":"scheduled"}"#)
    );
    let r = schedule_draft_request(&a, "x", "a\"b");
    assert_eq!(
        r.body.as_deref(),
        Some(r#"{"publish_date":"a\"b","status":"scheduled"}"#)
    );

    let r = unsubscribe_request(&a, "sub-1");
    assert_eq!(r.method, Method::Delete);
    assert_eq!(r.url, "https://api.buttondown.email/v1/subscribers/sub-1");
    assert!(!r.json_content_type);
}

#[test]
fn mask_secret_reports_length_and_tail() {
    assert_eq!(mask_secret(None), "(unset)");
    assert_eq!(mask_secret(Some("")), "(unset)");
    assert_eq!(mask_secret(Some("abcd")), "set (4 chars)");
    assert_eq!(mask_secret(Some("é")), "set (2 chars)");
    assert_eq!(mask_secret(Some("secret-key-1234")), "set (15 chars, ends …1234)");
    assert_eq!(mask_secret(Some("xxé€ab")), "set (9 chars, ends …é€ab)");
}
