//! The part of the application's state that the Token Saver commands read and change.
use vstd::prelude::*;

use crate::text::same;

verus! {

/// A line of the transcript. The text is a `String`, and a `Seq<char>` in the view.
#[derive(Debug, PartialEq, Eq)]
pub enum DisplayMessage<T = String> {
    System(T),
    Error(T),
}

impl View for DisplayMessage<String> {
    type V = DisplayMessage<Seq<char>>;

    open spec fn view(&self) -> DisplayMessage<Seq<char>> {
        match *self {
            DisplayMessage::System(text) => DisplayMessage::System(text@),
            DisplayMessage::Error(text) => DisplayMessage::Error(text@),
        }
    }
}

/// What a Token Saver command that succeeded has to show.
#[derive(Debug, PartialEq, Eq)]
pub struct TokensaverCommandPayload<T = String> {
    pub message: T,
    pub notice: T,
}

impl View for TokensaverCommandPayload<String> {
    type V = TokensaverCommandPayload<Seq<char>>;

    open spec fn view(&self) -> TokensaverCommandPayload<Seq<char>> {
        TokensaverCommandPayload { message: self.message@, notice: self.notice@ }
    }
}

/// The result of a Token Saver command over the texts that it holds.
pub open spec fn outcome(result: Result<TokensaverCommandPayload, String>) -> Result<
    TokensaverCommandPayload<Seq<char>>,
    Seq<char>,
> {
    match result {
        Ok(payload) => Ok(payload@),
        Err(message) => Err(message@),
    }
}

/// The event that a Token Saver command of a session has ended.
#[derive(Debug, PartialEq, Eq)]
pub struct TokensaverCommandCompleted {
    pub session_id: String,
    pub result: Result<TokensaverCommandPayload, String>,
}

/// The session that the application shows.
#[derive(Debug, PartialEq, Eq)]
pub struct Session {
    pub id: String,
}

/// The application, as far as the Token Saver commands are concerned.
#[derive(Debug, PartialEq, Eq)]
pub struct App {
    pub session: Session,
    pub tokensaver_command_running: bool,
    pub display_messages: Vec<DisplayMessage>,
    pub status_notice: Option<String>,
}

/// The view of an `App`.
#[verifier::ext_equal]
pub struct AppState {
    pub session_id: Seq<char>,
    pub running: bool,
    pub messages: Seq<DisplayMessage<Seq<char>>>,
    pub notice: Option<Seq<char>>,
}

impl View for App {
    type V = AppState;

    open spec fn view(&self) -> AppState {
        AppState {
            session_id: self.session.id@,
            running: self.tokensaver_command_running,
            messages: self.display_messages@.map_values(|m: DisplayMessage| m@),
            notice: match self.status_notice {
                Some(text) => Some(text@),
                None => None,
            },
        }
    }
}

impl AppState {
    /// The state after `message` was added to the transcript.
    pub open spec fn with_message(self, message: DisplayMessage<Seq<char>>) -> AppState {
        AppState { messages: self.messages.push(message), ..self }
    }

    /// The state after `text` was put into the status line.
    pub open spec fn with_notice(self, text: Seq<char>) -> AppState {
        AppState { notice: Some(text), ..self }
    }

    /// The state in which a Token Saver command is, or is not, under way.
    pub open spec fn with_running(self, running: bool) -> AppState {
        AppState { running, ..self }
    }

    /// The state after a Token Saver command of session `session_id` ended with `result`: the
    /// result is shown and the next command may start, but only in the session that the command
    /// belongs to.
    pub open spec fn completed(
        self,
        session_id: Seq<char>,
        result: Result<TokensaverCommandPayload<Seq<char>>, Seq<char>>,
    ) -> AppState {
        if session_id != self.session_id {
            self
        } else {
            match result {
                Ok(payload) => self.with_running(false).with_message(
                    DisplayMessage::System(payload.message),
                ).with_notice(payload.notice),
                Err(message) => self.with_running(false).with_message(
                    DisplayMessage::Error(message),
                ).with_notice("Token Saver command failed"@),
            }
        }
    }
}

/// Whether `after` shows the session that `before` shows, and has kept its transcript.
pub open spec fn grows(before: AppState, after: AppState) -> bool {
    &&& after.session_id == before.session_id
    &&& before.messages.is_prefix_of(after.messages)
}

impl App {
    /// Adds a line to the transcript.
    pub fn push_display_message(&mut self, message: DisplayMessage)
        ensures
            final(self)@ == old(self)@.with_message(message@),
    {
        self.display_messages.push(message);
        proof {
            assert(self@.messages =~= old(self)@.messages.push(message@));
        }
    }

    /// Puts `notice` into the status line.
    pub fn set_status_notice(&mut self, notice: String)
        ensures
            final(self)@ == old(self)@.with_notice(notice@),
    {
        self.status_notice = Some(notice);
    }

    /// Shows the result of a Token Saver command, unless it belongs to another session.
    pub fn handle_tokensaver_command_completed(&mut self, event: TokensaverCommandCompleted)
        ensures
            final(self)@ == old(self)@.completed(event.session_id@, outcome(event.result)),
    {
        if !same(event.session_id.as_str(), self.session.id.as_str()) {
            return;
        }
        self.tokensaver_command_running = false;
        match event.result {
            Ok(payload) => {
                self.push_display_message(DisplayMessage::System(payload.message));
                self.set_status_notice(payload.notice);
            },
            Err(message) => {
                self.push_display_message(DisplayMessage::Error(message));
                self.set_status_notice("Token Saver command failed".to_owned());
            },
        }
    }
}

/// The view of an application, of its messages and of a command's result holds just their texts.
pub proof fn views_hold_the_texts(app: App, text: String, payload: TokensaverCommandPayload)
    ensures
        app@.session_id == app.session.id@,
        app@.running == app.tokensaver_command_running,
        app@.messages.len() == app.display_messages@.len(),
        forall|i: int|
            0 <= i < app.display_messages@.len() ==> #[trigger] app@.messages[i]
                == app.display_messages@[i]@,
        app.status_notice is None ==> app@.notice is None,
        app.status_notice matches Some(notice) ==> app@.notice == Some(notice@),
        DisplayMessage::System(text)@ == DisplayMessage::System(text@),
        DisplayMessage::Error(text)@ == DisplayMessage::Error(text@),
        payload@.message == payload.message@,
        payload@.notice == payload.notice@,
        outcome(Ok(payload)) == Ok::<TokensaverCommandPayload<Seq<char>>, Seq<char>>(payload@),
        outcome(Err(text)) == Err::<TokensaverCommandPayload<Seq<char>>, Seq<char>>(text@),
{
}

/// Each change of the state changes one thing: a message is added behind the others, the notice is
/// replaced, or the flag is set.
pub proof fn each_change_changes_one_thing(
    app: AppState,
    message: DisplayMessage<Seq<char>>,
    text: Seq<char>,
    running: bool,
)
    ensures
        app.with_message(message) == (AppState {
            session_id: app.session_id,
            running: app.running,
            messages: app.messages.push(message),
            notice: app.notice,
        }),
        app.with_notice(text) == (AppState {
            session_id: app.session_id,
            running: app.running,
            messages: app.messages,
            notice: Some(text),
        }),
        app.with_running(running) == (AppState {
            session_id: app.session_id,
            running,
            messages: app.messages,
            notice: app.notice,
        }),
{
}

/// The end of a command lowers the flag and shows its result, as a message and a notice where it
/// succeeded and as an error where it failed, and does so in its own session alone.
pub proof fn an_end_shows_its_result_in_its_session(
    app: AppState,
    session_id: Seq<char>,
    message: Seq<char>,
    notice: Seq<char>,
)
    ensures
        app.completed(
            app.session_id,
            Ok(TokensaverCommandPayload { message, notice }),
        ) == (AppState {
            session_id: app.session_id,
            running: false,
            messages: app.messages.push(DisplayMessage::System(message)),
            notice: Some(notice),
        }),
        app.completed(app.session_id, Err(message)) == (AppState {
            session_id: app.session_id,
            running: false,
            messages: app.messages.push(DisplayMessage::Error(message)),
            notice: Some("Token Saver command failed"@),
        }),
        session_id != app.session_id ==> app.completed(
            session_id,
            Ok(TokensaverCommandPayload { message, notice }),
        ) == app && app.completed(session_id, Err(message)) == app,
{
}

} // verus!
