use tokensaver::app::{
    App, DisplayMessage, Session, TokensaverCommandCompleted, TokensaverCommandPayload,
};
use tokensaver::command::{handle_tokensaverstats_command, Handling, Job};

fn running() -> App {
    App {
        session: Session { id: "s1".to_string() },
        tokensaver_command_running: true,
        display_messages: vec![DisplayMessage::System("before".to_string())],
        status_notice: None,
    }
}

fn success(session: &str) -> TokensaverCommandCompleted {
    TokensaverCommandCompleted {
        session_id: session.to_string(),
        result: Ok(TokensaverCommandPayload {
            message: "saved 12000 tokens".to_string(),
            notice: "ready".to_string(),
        }),
    }
}

#[test]
fn a_successful_end_is_shown() {
    let mut app = running();
    app.handle_tokensaver_command_completed(success("s1"));
    assert!(!app.tokensaver_command_running);
    assert_eq!(
        app.display_messages,
        vec![
            DisplayMessage::System("before".to_string()),
            DisplayMessage::System("saved 12000 tokens".to_string())
        ]
    );
    assert_eq!(app.status_notice.as_deref(), Some("ready"));
}

#[test]
fn a_failed_end_is_shown_as_an_error() {
    let mut app = running();
    app.handle_tokensaver_command_completed(TokensaverCommandCompleted {
        session_id: "s1".to_string(),
        result: Err("rtk gain failed: boom".to_string()),
    });
    assert!(!app.tokensaver_command_running);
    assert_eq!(
        app.display_messages[1],
        DisplayMessage::Error("rtk gain failed: boom".to_string())
    );
    assert_eq!(app.status_notice.as_deref(), Some("Token Saver command failed"));
}

#[test]
fn the_end_of_another_session_changes_nothing() {
    let mut app = running();
    app.handle_tokensaver_command_completed(success("s2"));
    assert_eq!(app, running());
}

#[test]
fn after_its_end_a_command_can_start_again() {
    let mut app = running();
    assert_eq!(handle_tokensaverstats_command(&mut app, "/tokensaverstats"), Handling::Done);
    app.handle_tokensaver_command_completed(success("s1"));
    assert_eq!(
        handle_tokensaverstats_command(&mut app, "/tokensaverstats"),
        Handling::Run(Job::Stats { session_id: "s1".to_string() })
    );
}
