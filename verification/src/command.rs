//! The slash commands `/tokensaverstats` and `/tokensaver`.
use vstd::prelude::*;

use crate::app::{grows, App, AppState, DisplayMessage, TokensaverCommandPayload};
use crate::redact::{mask_key, masked};
use crate::text::{
    blank, contains_white_space, has_white_space, same, strip_prefix, trim, trimmed,
    trimmed_has_no_outer_white_space, trimmed_ignores_outer_white_space, trimmed_is_idempotent,
    trimmed_parts, trimming_leaves_the_core, white_space,
};

verus! {

/// The work that a command hands to a background thread. The texts are `String`s, and `Seq<char>`s
/// in the view.
#[derive(Debug, PartialEq, Eq)]
pub enum Job<T = String> {
    /// Fetch the savings.
    Stats { session_id: T },
    /// Activate Token Saver with a portal key.
    Activate { session_id: T, key: T },
}

/// What became of a line of input.
#[derive(Debug, PartialEq, Eq)]
pub enum Handling<T = String> {
    /// The line is not this command.
    NotMine,
    /// The command is done.
    Done,
    /// The command goes on in the background; its end is reported to the session that the job
    /// names.
    Run(Job<T>),
}

impl View for Handling<String> {
    type V = Handling<Seq<char>>;

    open spec fn view(&self) -> Handling<Seq<char>> {
        match *self {
            Handling::NotMine => Handling::NotMine,
            Handling::Done => Handling::Done,
            Handling::Run(Job::Stats { session_id }) => Handling::Run(
                Job::Stats { session_id: session_id@ },
            ),
            Handling::Run(Job::Activate { session_id, key }) => Handling::Run(
                Job::Activate { session_id: session_id@, key: key@ },
            ),
        }
    }
}

/// Shown for an argument of `/tokensaver` that is not one word.
pub const KEY_USAGE: &'static str = "Usage: /tokensaver <key> (a single portal key, no spaces)";

/// Shown when a command is refused because another one is under way.
pub const ALREADY_RUNNING: &'static str = "Token Saver command already running…";

/// What is left of the argument of `/tokensaver` without the white space around it and without the
/// verb `activate`, which is a verb only as a word of its own.
pub open spec fn key_argument(rest: Seq<char>) -> Seq<char> {
    let t = trimmed(rest);
    if t == "activate"@ {
        Seq::empty()
    } else if "activate "@.is_prefix_of(t) {
        trimmed(t.skip("activate "@.len() as int))
    } else {
        t
    }
}

/// What the argument of `/tokensaver` asks for: instructions, an activation with a key, or, where
/// the argument is more than one word, a complaint.
pub open spec fn parsed_key(rest: Seq<char>) -> Result<Option<Seq<char>>, Seq<char>> {
    let key = key_argument(rest);
    if key.len() == 0 {
        Ok(None)
    } else if has_white_space(key) {
        Err(KEY_USAGE@)
    } else {
        Ok(Some(key))
    }
}

/// The key or the complaint in a parser's answer.
pub open spec fn key_answer(r: Result<Option<&str>, String>) -> Result<
    Option<Seq<char>>,
    Seq<char>,
> {
    match r {
        Ok(Some(key)) => Ok(Some(key@)),
        Ok(None) => Ok(None),
        Err(message) => Err(message@),
    }
}

/// Parses the argument of `/tokensaver`, which may begin with the verb `activate`: `Ok(None)` when
/// no key was given, `Ok(Some(key))` for a key of one word, and `Err(usage)` otherwise.
pub fn parse_tokensaver_key(rest: &str) -> (r: Result<Option<&str>, String>)
    ensures
        key_answer(r) == parsed_key(rest@),
{
    let rest = trim(rest);
    let key = if same(rest, "activate") {
        ""
    } else {
        match strip_prefix(rest, "activate ") {
            Some(tail) => trim(tail),
            None => rest,
        }
    };
    proof {
        reveal_strlit("");
        assert(""@ =~= Seq::<char>::empty());
    }
    if key.is_empty() {
        return Ok(None);
    }
    if contains_white_space(key) {
        return Err(KEY_USAGE.to_owned());
    }
    Ok(Some(key))
}

/// The instructions that `/tokensaver` shows without a key.
pub const TOKENSAVER_USAGE: &'static str = "Token Saver activation\n\
     \n\
     Grab your key from the Token Saver portal Settings page\n\
     (https://portal.tokensaver.dev), then paste it here:\n\
     \n\
     /tokensaver <key>\n\
     \n\
     Once activated, run /tokensaverstats to see your savings.";

/// Gives the instructions that `/tokensaver` shows without a key.
pub fn tokensaver_usage() -> (r: &'static str)
    ensures
        r@ == TOKENSAVER_USAGE@,
{
    TOKENSAVER_USAGE
}

/// What `/tokensaverstats` does to the application, and what becomes of the input.
pub open spec fn stats_command(app: AppState, input: Seq<char>) -> (AppState, Handling<Seq<char>>) {
    if input != "/tokensaverstats"@ {
        (app, Handling::NotMine)
    } else if app.running {
        (app.with_notice(ALREADY_RUNNING@), Handling::Done)
    } else {
        (
            app.with_running(true).with_message(
                DisplayMessage::System("Fetching your Token Saver token savings…"@),
            ).with_notice("Token Saver → fetching savings"@),
            Handling::Run(Job::Stats { session_id: app.session_id }),
        )
    }
}

/// Handles `/tokensaverstats`: shows how much Token Saver has saved.
pub fn handle_tokensaverstats_command(app: &mut App, input: &str) -> (r: Handling)
    ensures
        (final(app)@, r@) == stats_command(old(app)@, input@),
{
    if !same(input, "/tokensaverstats") {
        return Handling::NotMine;
    }
    if app.tokensaver_command_running {
        app.set_status_notice(ALREADY_RUNNING.to_owned());
        return Handling::Done;
    }
    app.tokensaver_command_running = true;
    app.push_display_message(
        DisplayMessage::System("Fetching your Token Saver token savings…".to_owned()),
    );
    app.set_status_notice("Token Saver → fetching savings".to_owned());
    Handling::Run(Job::Stats { session_id: app.session.id.clone() })
}

/// The argument of `/tokensaver` in `input`, where `input` is that command.
pub open spec fn tokensaver_argument(input: Seq<char>) -> Option<Seq<char>> {
    if input == "/tokensaver"@ {
        Some(Seq::empty())
    } else if "/tokensaver "@.is_prefix_of(input) {
        Some(input.skip("/tokensaver "@.len() as int))
    } else {
        None
    }
}

/// The line that announces an activation: of the key it holds the mask.
pub open spec fn activating(key: Seq<char>) -> Seq<char> {
    "Activating Token Saver with key "@ + masked(key) + "…"@
}

/// What `/tokensaver` does to the application, and what becomes of the input.
pub open spec fn tokensaver_command(app: AppState, input: Seq<char>) -> (
    AppState,
    Handling<Seq<char>>,
) {
    match tokensaver_argument(input) {
        None => (app, Handling::NotMine),
        Some(rest) => match parsed_key(rest) {
            Ok(None) => (app.with_message(DisplayMessage::System(TOKENSAVER_USAGE@)), Handling::Done),
            Err(message) => (app.with_message(DisplayMessage::Error(message)), Handling::Done),
            Ok(Some(key)) => if app.running {
                (app.with_notice(ALREADY_RUNNING@), Handling::Done)
            } else {
                (
                    app.with_running(true).with_message(
                        DisplayMessage::System(activating(key)),
                    ).with_notice("Token Saver → activating"@),
                    Handling::Run(Job::Activate { session_id: app.session_id, key }),
                )
            },
        },
    }
}

/// Handles `/tokensaver [activate] <key>`: activates the savings sync.
pub fn handle_tokensaver_command(app: &mut App, input: &str) -> (r: Handling)
    ensures
        (final(app)@, r@) == tokensaver_command(old(app)@, input@),
{
    proof {
        reveal_strlit("");
        assert(""@ =~= Seq::<char>::empty());
    }
    let rest = if same(input, "/tokensaver") {
        ""
    } else {
        match strip_prefix(input, "/tokensaver ") {
            Some(rest) => rest,
            None => return Handling::NotMine,
        }
    };
    let key: String = match parse_tokensaver_key(rest) {
        Ok(None) => {
            app.push_display_message(DisplayMessage::System(tokensaver_usage().to_owned()));
            return Handling::Done;
        },
        Ok(Some(key)) => key.to_owned(),
        Err(message) => {
            app.push_display_message(DisplayMessage::Error(message));
            return Handling::Done;
        },
    };
    if app.tokensaver_command_running {
        app.set_status_notice(ALREADY_RUNNING.to_owned());
        return Handling::Done;
    }
    app.tokensaver_command_running = true;
    let mut line: String = "Activating Token Saver with key ".to_owned();
    line.append(mask_key(key.as_str()).as_str());
    line.append("…");
    app.push_display_message(DisplayMessage::System(line));
    app.set_status_notice("Token Saver → activating".to_owned());
    Handling::Run(Job::Activate { session_id: app.session.id.clone(), key })
}

/// A key that the parser hands out is one word: it is not empty and holds no white space.
pub proof fn parsed_key_is_one_word(rest: Seq<char>)
    ensures
        parsed_key(rest) matches Ok(Some(key)) ==> key.len() > 0 && !has_white_space(key),
{
}

/// White space around the argument changes nothing.
pub proof fn parse_ignores_outer_white_space(front: Seq<char>, rest: Seq<char>, back: Seq<char>)
    requires
        blank(front),
        blank(back),
    ensures
        parsed_key(front + rest + back) == parsed_key(rest),
{
    trimmed_ignores_outer_white_space(front, rest, back);
}

/// Whether `t` is the verb `activate`, or begins with it as a word of its own.
pub open spec fn has_verb(t: Seq<char>) -> bool {
    t == "activate"@ || "activate "@.is_prefix_of(t)
}

/// A word that is not the verb itself is taken as the key, also where it merely starts with the
/// letters of the verb.
pub proof fn parse_accepts_a_bare_word(key: Seq<char>)
    requires
        key.len() > 0,
        !has_white_space(key),
        key != "activate"@,
    ensures
        parsed_key(key) == Ok::<Option<Seq<char>>, Seq<char>>(Some(key)),
{
    assert(!white_space(key.first()));
    assert(!white_space(key.last()));
    reveal_strlit("activate ");
    if "activate "@.is_prefix_of(key) {
        assert(key[8] == "activate "@[8]);
        assert(white_space(key[8]));
    }
}

/// The verb `activate` in front of an argument changes nothing, unless the argument begins with the
/// verb already and has no more than one word behind it.
pub proof fn parse_accepts_the_verb(rest: Seq<char>)
    requires
        has_verb(trimmed(rest)) ==> parsed_key(rest) is Err,
    ensures
        parsed_key("activate "@ + rest) == parsed_key(rest),
{
    let verb = "activate"@;
    let space = seq![' '];
    reveal_strlit("activate");
    reveal_strlit("activate ");
    assert("activate "@ =~= verb + space);
    let whole = "activate "@ + rest;
    if blank(rest) {
        trimmed_has_no_outer_white_space(rest);
        assert(whole =~= Seq::<char>::empty() + verb + (space + rest));
        trimmed_ignores_outer_white_space(Seq::empty(), verb, space + rest);
        assert(trimmed(verb) == verb);
    } else {
        let t = trimmed(whole);
        lemma_trimmed_behind_the_verb(rest);
        assert("activate "@.is_prefix_of(t));
        assert(t != verb);
        if has_verb(trimmed(rest)) {
            assert(trimmed(rest)[8] == "activate "@[8]);
            assert(white_space(trimmed(rest)[8]));
        }
    }
}

/// Trimming the verb and an argument behind it trims the argument alone.
proof fn lemma_trimmed_behind_the_verb(rest: Seq<char>)
    requires
        !blank(rest),
    ensures
        "activate "@.is_prefix_of(trimmed("activate "@ + rest)),
        trimmed(trimmed("activate "@ + rest).skip("activate "@.len() as int)) == trimmed(rest),
        trimmed("activate "@ + rest).len() > "activate "@.len(),
{
    trimmed_parts(rest);
    let (front, back) = choose|front: Seq<char>, back: Seq<char>|
        blank(front) && blank(back) && rest == #[trigger] (front + trimmed(rest) + back);
    let verb = "activate "@;
    reveal_strlit("activate ");
    let core = verb + front + trimmed(rest);
    trimmed_has_no_outer_white_space(rest);
    assert(verb + rest =~= Seq::<char>::empty() + core + back);
    trimmed_ignores_outer_white_space(Seq::empty(), core, back);
    assert(core.last() == trimmed(rest).last());
    assert(trimmed(core) == core);
    assert(core.subrange(0, verb.len() as int) =~= verb);
    assert(core.skip(verb.len() as int) =~= front + trimmed(rest) + Seq::<char>::empty());
    trimmed_ignores_outer_white_space(front, trimmed(rest), Seq::empty());
    trimmed_is_idempotent(rest);
}

/// A command, and the end of one, keep the session and take nothing out of the transcript.
pub proof fn the_transcript_only_grows(
    app: AppState,
    input: Seq<char>,
    session_id: Seq<char>,
    result: Result<TokensaverCommandPayload<Seq<char>>, Seq<char>>,
)
    ensures
        grows(app, stats_command(app, input).0),
        grows(app, tokensaver_command(app, input).0),
        grows(app, app.completed(session_id, result)),
{
}

/// While a command is under way no other one starts, and the flag stays up.
pub proof fn one_command_at_a_time(app: AppState, input: Seq<char>)
    requires
        app.running,
    ensures
        stats_command(app, input).1 !is Run,
        stats_command(app, input).0.running,
        tokensaver_command(app, input).1 !is Run,
        tokensaver_command(app, input).0.running,
{
}

/// A command that starts raises the flag, and the end of its job, reported under the session that
/// the job names, lowers it whatever the result.
pub proof fn a_started_command_ends(
    app: AppState,
    input: Seq<char>,
    result: Result<TokensaverCommandPayload<Seq<char>>, Seq<char>>,
)
    ensures
        stats_command(app, input).1 matches Handling::Run(Job::Stats { session_id }) ==> {
            &&& stats_command(app, input).0.running
            &&& !stats_command(app, input).0.completed(session_id, result).running
        },
        tokensaver_command(app, input).1 matches Handling::Run(Job::Activate { session_id, key }) ==> {
            &&& tokensaver_command(app, input).0.running
            &&& !tokensaver_command(app, input).0.completed(session_id, result).running
        },
{
}

/// The view of what became of an input, and of a parser's answer, holds just the texts.
pub proof fn views_hold_the_texts(session_id: String, key: String, word: &str)
    ensures
        Handling::<String>::NotMine@ == Handling::<Seq<char>>::NotMine,
        Handling::<String>::Done@ == Handling::<Seq<char>>::Done,
        Handling::Run(Job::Stats { session_id })@ == Handling::Run(
            Job::Stats { session_id: session_id@ },
        ),
        Handling::Run(Job::Activate { session_id, key })@ == Handling::Run(
            Job::Activate { session_id: session_id@, key: key@ },
        ),
        key_answer(Ok(Some(word))) == Ok::<Option<Seq<char>>, Seq<char>>(Some(word@)),
        key_answer(Ok(None)) == Ok::<Option<Seq<char>>, Seq<char>>(None),
        key_answer(Err(key)) == Err::<Option<Seq<char>>, Seq<char>>(key@),
{
}

/// One word, whatever white space stands around it, is the key, unless it is the verb.
pub proof fn a_single_word_is_the_key(front: Seq<char>, key: Seq<char>, back: Seq<char>)
    requires
        forall|i: int| 0 <= i < front.len() ==> white_space(#[trigger] front[i]),
        forall|i: int| 0 <= i < back.len() ==> white_space(#[trigger] back[i]),
        forall|i: int| 0 <= i < key.len() ==> !white_space(#[trigger] key[i]),
        key.len() > 0,
        key != "activate"@,
    ensures
        parsed_key(front + key + back) == Ok::<Option<Seq<char>>, Seq<char>>(Some(key)),
{
    parse_ignores_outer_white_space(front, key, back);
    parse_accepts_a_bare_word(key);
}

/// One word behind the verb is the key, whatever white space stands around the two and, behind the
/// space that ends the verb, between them.
pub proof fn the_word_behind_the_verb_is_the_key(
    front: Seq<char>,
    gap: Seq<char>,
    key: Seq<char>,
    back: Seq<char>,
)
    requires
        forall|i: int| 0 <= i < front.len() ==> white_space(#[trigger] front[i]),
        forall|i: int| 0 <= i < gap.len() ==> white_space(#[trigger] gap[i]),
        forall|i: int| 0 <= i < back.len() ==> white_space(#[trigger] back[i]),
        forall|i: int| 0 <= i < key.len() ==> !white_space(#[trigger] key[i]),
        key.len() > 0,
    ensures
        parsed_key(front + ("activate "@ + gap + key) + back) == Ok::<
            Option<Seq<char>>,
            Seq<char>,
        >(Some(key)),
{
    lemma_argument_behind_the_verb(front, gap, key, back);
}

/// The verb and the white space behind it are no part of the key.
proof fn lemma_argument_behind_the_verb(
    front: Seq<char>,
    gap: Seq<char>,
    core: Seq<char>,
    back: Seq<char>,
)
    requires
        blank(front),
        blank(gap),
        blank(back),
        core.len() > 0,
        !white_space(core[0]),
        !white_space(core[core.len() - 1]),
    ensures
        key_argument(front + ("activate "@ + gap + core) + back) == core,
{
    let verb = "activate "@;
    let whole = verb + gap + core;
    reveal_strlit("activate ");
    reveal_strlit("activate");
    assert(whole[0] == 'a');
    assert(whole[whole.len() - 1] == core[core.len() - 1]);
    trimming_leaves_the_core(front, whole, back);
    assert(whole.subrange(0, verb.len() as int) =~= verb);
    assert(whole.skip(verb.len() as int) =~= gap + core + Seq::<char>::empty());
    trimming_leaves_the_core(gap, core, Seq::empty());
}

/// White space alone holds no key, and neither does the verb alone.
pub proof fn without_a_word_there_is_no_key(front: Seq<char>, back: Seq<char>)
    requires
        forall|i: int| 0 <= i < front.len() ==> white_space(#[trigger] front[i]),
        forall|i: int| 0 <= i < back.len() ==> white_space(#[trigger] back[i]),
    ensures
        parsed_key(front) == Ok::<Option<Seq<char>>, Seq<char>>(None),
        parsed_key(front + "activate"@ + back) == Ok::<Option<Seq<char>>, Seq<char>>(None),
{
    let none = Seq::<char>::empty();
    assert(front =~= front + none + none);
    trimming_leaves_the_core(front, none, none);
    reveal_strlit("activate");
    reveal_strlit("activate ");
    trimming_leaves_the_core(front, "activate"@, back);
}

/// More than one word is refused with the usage, where the verb does not count: `core` begins and
/// ends with a word, and at `i` there is white space between two words.
pub proof fn more_words_are_refused(
    front: Seq<char>,
    gap: Seq<char>,
    core: Seq<char>,
    i: int,
    back: Seq<char>,
)
    requires
        forall|k: int| 0 <= k < front.len() ==> white_space(#[trigger] front[k]),
        forall|k: int| 0 <= k < gap.len() ==> white_space(#[trigger] gap[k]),
        forall|k: int| 0 <= k < back.len() ==> white_space(#[trigger] back[k]),
        0 <= i < core.len(),
        white_space(core[i]),
        !white_space(core[0]),
        !white_space(core[core.len() - 1]),
    ensures
        core.len() < 9 || core.take(9) != "activate "@ ==> parsed_key(front + core + back) == Err::<
            Option<Seq<char>>,
            Seq<char>,
        >("Usage: /tokensaver <key> (a single portal key, no spaces)"@),
        parsed_key(front + ("activate "@ + gap + core) + back) == Err::<
            Option<Seq<char>>,
            Seq<char>,
        >("Usage: /tokensaver <key> (a single portal key, no spaces)"@),
{
    lemma_argument_behind_the_verb(front, gap, core, back);
    trimming_leaves_the_core(front, core, back);
    reveal_strlit("activate ");
    reveal_strlit("activate");
    if core == "activate"@ {
        assert(!white_space(core[i]));
    }
    if "activate "@.is_prefix_of(core) {
        assert(core.take(9) =~= "activate "@);
    }
}

/// `/tokensaverstats`, and no other input, starts to fetch the savings for the session that is
/// shown, or is refused with a notice while a command is under way.
pub proof fn tokensaverstats_fetches_the_savings(app: AppState, input: Seq<char>)
    ensures
        input != "/tokensaverstats"@ ==> stats_command(app, input) == (
            app,
            Handling::<Seq<char>>::NotMine,
        ),
        app.running ==> stats_command(app, "/tokensaverstats"@) == (
            (AppState {
                session_id: app.session_id,
                running: true,
                messages: app.messages,
                notice: Some("Token Saver command already running…"@),
            }),
            Handling::<Seq<char>>::Done,
        ),
        !app.running ==> stats_command(app, "/tokensaverstats"@) == (
            (AppState {
                session_id: app.session_id,
                running: true,
                messages: app.messages.push(
                    DisplayMessage::System("Fetching your Token Saver token savings…"@),
                ),
                notice: Some("Token Saver → fetching savings"@),
            }),
            Handling::Run(Job::Stats { session_id: app.session_id }),
        ),
{
}

/// `/tokensaver` alone asks for the instructions, just as with a blank argument, and an input that is
/// neither the command nor the command and a space is not this command.
pub proof fn other_input_is_not_tokensaver(app: AppState, input: Seq<char>)
    ensures
        tokensaver_command(app, "/tokensaver"@) == (
            (AppState {
                session_id: app.session_id,
                running: app.running,
                messages: app.messages.push(DisplayMessage::System(TOKENSAVER_USAGE@)),
                notice: app.notice,
            }),
            Handling::<Seq<char>>::Done,
        ),
        input != "/tokensaver"@ && (input.len() < 12 || input.take(12) != "/tokensaver "@)
            ==> tokensaver_command(app, input) == (app, Handling::<Seq<char>>::NotMine),
{
    without_a_word_there_is_no_key(Seq::empty(), Seq::empty());
    reveal_strlit("/tokensaver ");
    if "/tokensaver "@.is_prefix_of(input) {
        assert(input.take(12) =~= "/tokensaver "@);
    }
}

/// What `/tokensaver` and an argument do depends on what the argument asks for: the instructions and
/// the complaint are shown at any time, and a key starts an activation with that very key, announced
/// by its mask, unless a command is under way.
pub proof fn the_argument_decides(app: AppState, rest: Seq<char>)
    ensures
        match parsed_key(rest) {
            Ok(None) => tokensaver_command(app, "/tokensaver "@ + rest) == (
                (AppState {
                    session_id: app.session_id,
                    running: app.running,
                    messages: app.messages.push(DisplayMessage::System(TOKENSAVER_USAGE@)),
                    notice: app.notice,
                }),
                Handling::<Seq<char>>::Done,
            ),
            Err(message) => tokensaver_command(app, "/tokensaver "@ + rest) == (
                (AppState {
                    session_id: app.session_id,
                    running: app.running,
                    messages: app.messages.push(DisplayMessage::Error(message)),
                    notice: app.notice,
                }),
                Handling::<Seq<char>>::Done,
            ),
            Ok(Some(key)) => if app.running {
                tokensaver_command(app, "/tokensaver "@ + rest) == (
                    (AppState {
                        session_id: app.session_id,
                        running: true,
                        messages: app.messages,
                        notice: Some("Token Saver command already running…"@),
                    }),
                    Handling::<Seq<char>>::Done,
                )
            } else {
                tokensaver_command(app, "/tokensaver "@ + rest) == (
                    (AppState {
                        session_id: app.session_id,
                        running: true,
                        messages: app.messages.push(
                            DisplayMessage::System(
                                "Activating Token Saver with key "@ + masked(key) + "…"@,
                            ),
                        ),
                        notice: Some("Token Saver → activating"@),
                    }),
                    Handling::Run(Job::Activate { session_id: app.session_id, key }),
                )
            },
        },
{
    let command = "/tokensaver "@;
    let input = command + rest;
    reveal_strlit("/tokensaver ");
    reveal_strlit("/tokensaver");
    assert(input.subrange(0, command.len() as int) =~= command);
    assert(input.skip(command.len() as int) =~= rest);
    if input == "/tokensaver"@ {
        assert(input.len() >= 12);
    }
}

/// In an idle application every key of one word starts an activation with that key, whether the verb
/// stands in front of it or not, and whatever white space stands around it.
pub proof fn every_key_starts_an_activation(
    app: AppState,
    front: Seq<char>,
    gap: Seq<char>,
    key: Seq<char>,
    back: Seq<char>,
)
    requires
        !app.running,
        forall|i: int| 0 <= i < front.len() ==> white_space(#[trigger] front[i]),
        forall|i: int| 0 <= i < gap.len() ==> white_space(#[trigger] gap[i]),
        forall|i: int| 0 <= i < back.len() ==> white_space(#[trigger] back[i]),
        forall|i: int| 0 <= i < key.len() ==> !white_space(#[trigger] key[i]),
        key.len() > 0,
    ensures
        ({
            let started = (
                (AppState {
                    session_id: app.session_id,
                    running: true,
                    messages: app.messages.push(
                        DisplayMessage::System(
                            "Activating Token Saver with key "@ + masked(key) + "…"@,
                        ),
                    ),
                    notice: Some("Token Saver → activating"@),
                }),
                Handling::Run(Job::Activate { session_id: app.session_id, key }),
            );
            &&& key != "activate"@ ==> tokensaver_command(
                app,
                "/tokensaver "@ + (front + key + back),
            ) == started
            &&& tokensaver_command(
                app,
                "/tokensaver "@ + (front + ("activate "@ + gap + key) + back),
            ) == started
        }),
{
    if key != "activate"@ {
        a_single_word_is_the_key(front, key, back);
        the_argument_decides(app, front + key + back);
    }
    the_word_behind_the_verb_is_the_key(front, gap, key, back);
    the_argument_decides(app, front + ("activate "@ + gap + key) + back);
}

} // verus!
