use tokensaver::json::{find_text, JsonObject};
use tokensaver::portal::{
    activate_endpoint, describe_post_failure, interpret_activate_response,
    interpret_parsed_response, portal_url_from, PostFailure, DEFAULT_GREETING, DEFAULT_PORTAL_URL,
};

fn object(members: &[(&str, Option<&str>)]) -> Option<JsonObject> {
    Some(JsonObject {
        members: members
            .iter()
            .map(|(name, text)| (name.to_string(), text.map(str::to_string)))
            .collect(),
    })
}

#[test]
fn portal_url_from_prefers_override_and_falls_back() {
    assert_eq!(
        portal_url_from(Some("https://example.test".to_string())),
        "https://example.test"
    );
    assert_eq!(
        portal_url_from(Some("  https://example.test  ".to_string())),
        "https://example.test"
    );
    assert_eq!(portal_url_from(None), DEFAULT_PORTAL_URL);
    // Blank overrides are ignored, not honored as an empty base URL.
    assert_eq!(portal_url_from(Some(String::new())), DEFAULT_PORTAL_URL);
    assert_eq!(portal_url_from(Some("   ".to_string())), DEFAULT_PORTAL_URL);
}

#[test]
fn activate_endpoint_tolerates_trailing_slash() {
    assert_eq!(
        activate_endpoint("https://portal.tokensaver.dev"),
        "https://portal.tokensaver.dev/api/v1/activate"
    );
    assert_eq!(
        activate_endpoint("https://portal.tokensaver.dev/"),
        "https://portal.tokensaver.dev/api/v1/activate"
    );
}

#[test]
fn activate_endpoint_drops_every_slash_at_the_end() {
    assert_eq!(activate_endpoint("http://a/b///"), "http://a/b/api/v1/activate");
    assert_eq!(activate_endpoint("//"), "/api/v1/activate");
    assert_eq!(activate_endpoint(""), "/api/v1/activate");
}

#[test]
fn interpret_activate_response_success_uses_portal_greeting() {
    let body = r#"{"ok":true,"activated":true,"first_activation":true,
            "org":"Acme","device":"laptop","plan":"pro","share_pct":20,
            "message":"Token Saver activated for Acme — you pay 20% of what we save you. Run /tokensaverstats to watch it work."}"#;
    let greeting = interpret_activate_response(200, body).expect("success");
    assert!(greeting.contains("Token Saver activated for Acme"));
}

#[test]
fn interpret_activate_response_success_without_message_field() {
    let greeting = interpret_activate_response(200, r#"{"ok":true}"#).expect("success");
    assert!(greeting.contains("Token Saver activated"));
}

#[test]
fn interpret_activate_response_surfaces_portal_errors() {
    let unauthorized = interpret_activate_response(
        401,
        r#"{"error":"Unknown or revoked key. Create one on the portal Settings page."}"#,
    )
    .expect_err("401 fails");
    assert!(unauthorized.contains("Unknown or revoked key"));

    let no_credits = interpret_activate_response(402, r#"{"error":"Out of credits."}"#)
        .expect_err("402 fails");
    assert_eq!(no_credits, "Out of credits.");

    let opaque = interpret_activate_response(500, "boom").expect_err("500 fails");
    assert!(opaque.contains("HTTP 500"));
    assert!(opaque.contains("boom"));

    let empty = interpret_activate_response(503, "").expect_err("503 fails");
    assert!(empty.contains("HTTP 503"));
}

#[test]
fn answers_are_exact() {
    assert_eq!(
        interpret_activate_response(299, r#" {"message":"a\n\"b\""} "#),
        Ok("a\n\"b\"".to_string())
    );
    assert_eq!(
        interpret_activate_response(500, r#"{"message":"m","error":"e"}"#),
        Err("portal returned HTTP 500: e".to_string())
    );
    assert_eq!(
        interpret_activate_response(500, " boom\n"),
        Err("portal returned HTTP 500: boom".to_string())
    );
    assert_eq!(
        interpret_activate_response(503, " \n"),
        Err("portal returned HTTP 503: HTTP 503".to_string())
    );
    assert_eq!(interpret_activate_response(401, ""), Err("HTTP 401".to_string()));
    assert_eq!(
        interpret_activate_response(0, ""),
        Err("portal returned HTTP 0: HTTP 0".to_string())
    );
    assert_eq!(
        interpret_activate_response(65535, "x"),
        Err("portal returned HTTP 65535: x".to_string())
    );
}

#[test]
fn the_status_alone_decides() {
    for status in [0, 100, 199, 300, 302, 400, 401, 402, 404, 500, 65535] {
        assert!(interpret_activate_response(status, r#"{"message":"welcome"}"#).is_err());
    }
    for status in [200, 201, 250, 299] {
        assert!(interpret_activate_response(status, r#"{"error":"sorry"}"#).is_ok());
        assert!(interpret_activate_response(status, "not json").is_ok());
    }
}

#[test]
fn members_that_are_not_texts_do_not_count() {
    for body in [
        r#"{"message":1}"#,
        r#"{"message":null}"#,
        r#"{"message":true}"#,
        r#"{"message":["hello"]}"#,
        r#"{"message":{"message":"hello"}}"#,
        r#"[{"message":"hello"}]"#,
        r#""message""#,
        r#"{"message":"hello""#,
        r#"{"message":"hello"} x"#,
        "{}",
        "",
    ] {
        assert_eq!(interpret_activate_response(200, body), Ok(DEFAULT_GREETING.to_string()));
    }
}

#[test]
fn of_two_members_of_one_name_the_last_in_the_text_counts() {
    assert_eq!(
        interpret_activate_response(200, r#"{"message":"first","message":"second"}"#),
        Ok("second".to_string())
    );
}

#[test]
fn a_text_that_only_looks_like_json_is_shown_as_it_is() {
    assert_eq!(
        interpret_activate_response(402, " {error} "),
        Err("{error}".to_string())
    );
    assert_eq!(
        interpret_activate_response(402, r#"{"error":7}"#),
        Err(r#"{"error":7}"#.to_string())
    );
}

#[test]
fn parsed_members_are_looked_up_by_name() {
    let parsed = object(&[("ok", None), ("message", Some("hi")), ("error", Some("no"))]);
    assert_eq!(find_text(&parsed, "message"), Some("hi"));
    assert_eq!(find_text(&parsed, "ok"), None);
    assert_eq!(find_text(&parsed, "missing"), None);
    assert_eq!(find_text(&None, "message"), None);
    assert_eq!(interpret_parsed_response(200, "", &parsed), Ok("hi".to_string()));
    assert_eq!(interpret_parsed_response(401, "", &parsed), Err("no".to_string()));
    assert_eq!(
        interpret_parsed_response(404, "text", &None),
        Err("portal returned HTTP 404: text".to_string())
    );
}

#[test]
fn missing_answers_are_described() {
    assert_eq!(
        describe_post_failure("http://a", &PostFailure::Client("tls".to_string())),
        "Failed to build HTTP client: tls"
    );
    assert_eq!(
        describe_post_failure("http://a", &PostFailure::Unreachable("refused".to_string())),
        "Could not reach the Token Saver portal at http://a: refused"
    );
}
