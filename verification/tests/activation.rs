use tokensaver::activation::{
    activation_answered, activation_stored, run_tokensaver_activation, ActivationProgress,
    ActivationStep,
};
use tokensaver::app::TokensaverCommandPayload;
use tokensaver::credentials::Credentials;
use tokensaver::portal::{ActivateRequest, PostFailure};

const KEY: &str = "cook-1234-abcd";

fn replied(reply: Result<(u16, &str), PostFailure>) -> ActivationStep {
    run_tokensaver_activation(ActivationProgress::Replied {
        key: KEY.to_string(),
        portal_url: "https://example.test".to_string(),
        reply: reply.map(|(status, body)| (status, body.to_string())),
    })
}

fn failed(message: &str) -> ActivationStep {
    ActivationStep::Finish(Err(message.to_string()))
}

fn store(greeting: &str) -> ActivationStep {
    ActivationStep::Store {
        key: KEY.to_string(),
        greeting: greeting.to_string(),
        credentials: Credentials {
            portal_url: "https://example.test".to_string(),
            device_token: KEY.to_string(),
        },
    }
}

#[test]
fn an_activation_starts_with_a_request() {
    assert_eq!(
        run_tokensaver_activation(ActivationProgress::Start {
            key: KEY.to_string(),
            portal_override: Some(" https://example.test/ ".to_string()),
        }),
        ActivationStep::Post {
            key: KEY.to_string(),
            portal_url: "https://example.test/".to_string(),
            request: ActivateRequest {
                url: "https://example.test/api/v1/activate".to_string(),
                bearer: KEY.to_string(),
            },
        }
    );
}

#[test]
fn a_verified_key_is_stored() {
    assert_eq!(replied(Ok((200, r#"{"message":"Welcome"}"#))), store("Welcome"));
}

#[test]
fn a_rejected_key_is_not_stored() {
    assert_eq!(
        replied(Ok((401, r#"{"error":"Unknown key cook-1234-abcd."}"#))),
        failed("Token Saver activation failed: Unknown key **********abcd.")
    );
    assert_eq!(
        replied(Ok((402, r#"{"error":"Out of credits."}"#))),
        failed("Token Saver activation failed: Out of credits.")
    );
    assert_eq!(
        replied(Ok((500, "boom"))),
        failed("Token Saver activation failed: portal returned HTTP 500: boom")
    );
}

#[test]
fn an_unreachable_portal_stores_nothing() {
    assert_eq!(
        replied(Err(PostFailure::Unreachable("sent cook-1234-abcd".to_string()))),
        failed("Could not reach the Token Saver portal at https://example.test: sent **********abcd")
    );
    assert_eq!(
        replied(Err(PostFailure::Client("tls".to_string()))),
        failed("Failed to build HTTP client: tls")
    );
}

#[test]
fn a_given_answer_decides_the_step() {
    assert_eq!(
        activation_answered(
            KEY.to_string(),
            "https://example.test".to_string(),
            Ok("Hi".to_string())
        ),
        store("Hi")
    );
    assert_eq!(
        activation_answered(
            KEY.to_string(),
            "https://example.test".to_string(),
            Err("no".to_string())
        ),
        failed("Token Saver activation failed: no")
    );
}

#[test]
fn a_stored_key_is_reported_by_its_mask() {
    assert_eq!(
        run_tokensaver_activation(ActivationProgress::Stored {
            key: KEY.to_string(),
            greeting: "Welcome, cook-1234-abcd".to_string(),
            path: "/home/a/.config/tokensaver/credentials.json".to_string(),
            result: Ok(()),
        }),
        ActivationStep::Finish(Ok(TokensaverCommandPayload {
            message: "Welcome, **********abcd\n\nKey **********abcd stored in /home/a/.config/tokensaver/credentials.json.".to_string(),
            notice: "Token Saver activated".to_string(),
        }))
    );
}

#[test]
fn a_key_that_could_not_be_stored_is_reported() {
    assert_eq!(
        activation_stored(KEY, "Welcome", "/tmp/c.json", Err("disk full".to_string())),
        Err("Key verified, but storing credentials in /tmp/c.json failed: disk full".to_string())
    );
}
