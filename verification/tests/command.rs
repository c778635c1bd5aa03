use tokensaver::app::{App, DisplayMessage, Session};
use tokensaver::command::{
    handle_tokensaver_command, handle_tokensaverstats_command, parse_tokensaver_key,
    tokensaver_usage, Handling, Job, KEY_USAGE,
};

fn idle() -> App {
    App {
        session: Session { id: "s1".to_string() },
        tokensaver_command_running: false,
        display_messages: Vec::new(),
        status_notice: None,
    }
}

fn system(text: &str) -> DisplayMessage {
    DisplayMessage::System(text.to_string())
}

#[test]
fn parse_tokensaver_key_accepts_bare_and_activate_forms() {
    assert_eq!(parse_tokensaver_key("my-key"), Ok(Some("my-key")));
    assert_eq!(parse_tokensaver_key("activate my-key"), Ok(Some("my-key")));
    assert_eq!(
        parse_tokensaver_key("  activate   my-key  "),
        Ok(Some("my-key"))
    );
    // A key that merely starts with the word `activate` stays intact.
    assert_eq!(
        parse_tokensaver_key("activate9999"),
        Ok(Some("activate9999"))
    );
}

#[test]
fn parse_tokensaver_key_without_key_asks_for_instructions() {
    assert_eq!(parse_tokensaver_key(""), Ok(None));
    assert_eq!(parse_tokensaver_key("activate"), Ok(None));
    assert_eq!(parse_tokensaver_key("   "), Ok(None));
}

#[test]
fn parse_tokensaver_key_rejects_extra_tokens() {
    assert!(parse_tokensaver_key("one two").is_err());
    assert!(parse_tokensaver_key("activate one two").is_err());
}

#[test]
fn parse_tokensaver_key_takes_the_verb_once() {
    assert_eq!(parse_tokensaver_key("activate activate"), Ok(Some("activate")));
    assert_eq!(parse_tokensaver_key("activate activate key"), Err(KEY_USAGE.to_string()));
}

#[test]
fn parse_tokensaver_key_wants_a_space_behind_the_verb() {
    assert_eq!(parse_tokensaver_key("activate\tkey"), Err(KEY_USAGE.to_string()));
    assert_eq!(parse_tokensaver_key("activate \tkey"), Ok(Some("key")));
}

#[test]
fn parse_tokensaver_key_ignores_outer_white_space() {
    assert_eq!(parse_tokensaver_key("\u{3000}\tkey\u{a0}\n"), Ok(Some("key")));
}

#[test]
fn parse_tokensaver_key_complains_with_the_usage() {
    assert_eq!(
        parse_tokensaver_key("a b"),
        Err("Usage: /tokensaver <key> (a single portal key, no spaces)".to_string())
    );
}

#[test]
fn usage_names_both_commands() {
    assert_eq!(
        tokensaver_usage(),
        "Token Saver activation\n\nGrab your key from the Token Saver portal Settings page\n(https://portal.tokensaver.dev), then paste it here:\n\n/tokensaver <key>\n\nOnce activated, run /tokensaverstats to see your savings."
    );
}

#[test]
fn stats_command_starts_a_job() {
    let mut app = idle();
    assert_eq!(
        handle_tokensaverstats_command(&mut app, "/tokensaverstats"),
        Handling::Run(Job::Stats { session_id: "s1".to_string() })
    );
    assert!(app.tokensaver_command_running);
    assert_eq!(
        app.display_messages,
        vec![system("Fetching your Token Saver token savings…")]
    );
    assert_eq!(app.status_notice.as_deref(), Some("Token Saver → fetching savings"));
}

#[test]
fn other_input_is_left_alone() {
    for input in ["", "tokensaver", "/tokensaverstats ", "/tokensaverstats x", "/tokensaver2"] {
        let mut app = idle();
        assert_eq!(handle_tokensaverstats_command(&mut app, input), Handling::NotMine);
        assert_eq!(handle_tokensaver_command(&mut app, input), Handling::NotMine);
        assert_eq!(app, idle());
    }
}

#[test]
fn tokensaver_command_starts_an_activation() {
    let mut app = idle();
    assert_eq!(
        handle_tokensaver_command(&mut app, "/tokensaver activate cook-1234-abcd"),
        Handling::Run(Job::Activate {
            session_id: "s1".to_string(),
            key: "cook-1234-abcd".to_string()
        })
    );
    assert!(app.tokensaver_command_running);
    assert_eq!(
        app.display_messages,
        vec![system("Activating Token Saver with key **********abcd…")]
    );
    assert_eq!(app.status_notice.as_deref(), Some("Token Saver → activating"));
}

#[test]
fn tokensaver_command_without_key_shows_the_usage() {
    for input in ["/tokensaver", "/tokensaver ", "/tokensaver activate"] {
        let mut app = idle();
        assert_eq!(handle_tokensaver_command(&mut app, input), Handling::Done);
        assert_eq!(app.display_messages, vec![system(tokensaver_usage())]);
        assert!(!app.tokensaver_command_running);
        assert_eq!(app.status_notice, None);
    }
}

#[test]
fn tokensaver_command_with_two_words_complains() {
    let mut app = idle();
    assert_eq!(handle_tokensaver_command(&mut app, "/tokensaver a b"), Handling::Done);
    assert_eq!(app.display_messages, vec![DisplayMessage::Error(KEY_USAGE.to_string())]);
    assert!(!app.tokensaver_command_running);
}

#[test]
fn a_second_command_is_refused_while_one_runs() {
    let mut app = idle();
    app.tokensaver_command_running = true;
    assert_eq!(handle_tokensaverstats_command(&mut app, "/tokensaverstats"), Handling::Done);
    assert_eq!(
        app.status_notice.as_deref(),
        Some("Token Saver command already running…")
    );
    app.status_notice = None;
    assert_eq!(handle_tokensaver_command(&mut app, "/tokensaver key"), Handling::Done);
    assert_eq!(
        app.status_notice.as_deref(),
        Some("Token Saver command already running…")
    );
    assert!(app.tokensaver_command_running);
    assert!(app.display_messages.is_empty());
}
