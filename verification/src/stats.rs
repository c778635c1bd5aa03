//! `/tokensaverstats`: what is shown of the savings that `rtk gain` reports.
use vstd::prelude::*;

use crate::app::{outcome, TokensaverCommandPayload};
use crate::rtk::{run_result, RtkError, RtkOutput};
use crate::text::{blank, trim, trimmed, trimmed_has_no_outer_white_space};

verus! {

/// The head of the block.
pub const STATS_HEADER: &'static str = "Token Saver\n===========\n\n";

/// Stands in the block where there are no savings yet.
pub const NO_SAVINGS: &'static str =
    "No savings recorded yet - rtk starts metering as soon as jcode routes commands through it.";

/// The head of the block's second part.
pub const HISTORY_HEADER: &'static str = "\n\nRecent history\n--------------\n";

/// The pointer to the installer that is shown, in place of an error, where `rtk` is not installed.
pub const RTK_MISSING: &'static str =
    "Token Saver stats need the rtk CLI, which is not installed yet.\n\
     \n\
     Install it with:\n\
     \n\
     curl -fsSL https://raw.githubusercontent.com/mintoriakamoto/rtk/refs/heads/master/install.sh | sh\n\
     \n\
     Then run /tokensaverstats again.";

/// Gives the pointer to the installer of `rtk`.
pub fn rtk_missing_message() -> (r: String)
    ensures
        r@ == RTK_MISSING@,
{
    RTK_MISSING.to_owned()
}

/// The part of the block about the savings themselves.
pub open spec fn savings_part(gain: Seq<char>) -> Seq<char> {
    STATS_HEADER@ + if trimmed(gain).len() == 0 {
        NO_SAVINGS@
    } else {
        trimmed(gain)
    }
}

/// The part of the block about the history, which is left out where there is none to show.
pub open spec fn history_part(history: Option<Seq<char>>) -> Seq<char> {
    match history {
        Some(history) => if trimmed(history).len() == 0 {
            Seq::empty()
        } else {
            HISTORY_HEADER@ + trimmed(history)
        },
        None => Seq::empty(),
    }
}

/// The block that `/tokensaverstats` shows.
pub open spec fn stats_block(gain: Seq<char>, history: Option<Seq<char>>) -> Seq<char> {
    savings_part(gain) + history_part(history)
}

/// Formats the block that `/tokensaverstats` shows.
pub fn format_stats_block(gain: &str, history: Option<&str>) -> (r: String)
    ensures
        r@ == stats_block(
            gain@,
            match history {
                Some(history) => Some(history@),
                None => None,
            },
        ),
{
    let mut r: String = STATS_HEADER.to_owned();
    let gain = trim(gain);
    if gain.is_empty() {
        r.append(NO_SAVINGS);
    } else {
        r.append(gain);
    }
    if let Some(history) = history {
        let history = trim(history);
        if !history.is_empty() {
            r.append(HISTORY_HEADER);
            r.append(history);
        }
    }
    r
}

/// How far `/tokensaverstats` has come in the background.
#[derive(Debug, PartialEq, Eq)]
pub enum StatsProgress<T = String> {
    /// Nothing was run yet.
    Start,
    /// `rtk gain` was run.
    GainRan(Result<RtkOutput<T>, RtkError<T>>),
    /// `rtk gain` reported `gain`, and `rtk gain --history` was run.
    HistoryRan { gain: T, run: Result<RtkOutput<T>, RtkError<T>> },
}

impl View for StatsProgress<String> {
    type V = StatsProgress<Seq<char>>;

    open spec fn view(&self) -> StatsProgress<Seq<char>> {
        match *self {
            StatsProgress::Start => StatsProgress::Start,
            StatsProgress::GainRan(run) => StatsProgress::GainRan(run_result(run)),
            StatsProgress::HistoryRan { gain, run } => StatsProgress::HistoryRan {
                gain: gain@,
                run: run_result(run),
            },
        }
    }
}

/// What `/tokensaverstats` does next in the background.
#[derive(Debug, PartialEq, Eq)]
pub enum StatsStep<T = String> {
    /// Run `rtk` with the arguments of `gain_args`.
    RunGain,
    /// Run `rtk` with the arguments of `history_args`, and keep what `rtk gain` reported.
    RunHistory { gain: T },
    /// Report the result.
    Finish(Result<TokensaverCommandPayload<T>, T>),
}

impl View for StatsStep<String> {
    type V = StatsStep<Seq<char>>;

    open spec fn view(&self) -> StatsStep<Seq<char>> {
        match *self {
            StatsStep::RunGain => StatsStep::RunGain,
            StatsStep::RunHistory { gain } => StatsStep::RunHistory { gain: gain@ },
            StatsStep::Finish(result) => StatsStep::Finish(outcome(result)),
        }
    }
}

/// The arguments with which `rtk` reports the savings.
pub fn gain_args() -> (r: [&'static str; 1])
    ensures
        r@ == seq!["gain"],
{
    ["gain"]
}

/// The arguments with which `rtk` reports the history of the savings.
pub fn history_args() -> (r: [&'static str; 2])
    ensures
        r@ == seq!["gain", "--history"],
{
    ["gain", "--history"]
}

/// The complaint about a run of `rtk gain` that failed: what it wrote to its error stream, or, if
/// that is blank, what it wrote otherwise.
pub open spec fn gain_failed(stdout: Seq<char>, stderr: Seq<char>) -> Seq<char> {
    "rtk gain failed: "@ + if trimmed(stderr).len() == 0 {
        trimmed(stdout)
    } else {
        trimmed(stderr)
    }
}

/// The history that a run reported, where it succeeded.
pub open spec fn reported_history(
    run: Result<RtkOutput<Seq<char>>, RtkError<Seq<char>>>,
) -> Option<Seq<char>> {
    match run {
        Ok(output) => if output.success {
            Some(output.stdout)
        } else {
            None
        },
        Err(_) => None,
    }
}

/// The step that `/tokensaverstats` takes from each point of its way.
pub open spec fn stats_step(progress: StatsProgress<Seq<char>>) -> StatsStep<Seq<char>> {
    match progress {
        StatsProgress::Start => StatsStep::RunGain,
        StatsProgress::GainRan(Err(RtkError::NotFound)) => StatsStep::Finish(
            Ok(
                TokensaverCommandPayload { message: RTK_MISSING@, notice: "rtk not installed"@ },
            ),
        ),
        StatsProgress::GainRan(Err(RtkError::Failed(message))) => StatsStep::Finish(Err(message)),
        StatsProgress::GainRan(Ok(output)) => if output.success {
            StatsStep::RunHistory { gain: output.stdout }
        } else {
            StatsStep::Finish(Err(gain_failed(output.stdout, output.stderr)))
        },
        StatsProgress::HistoryRan { gain, run } => StatsStep::Finish(
            Ok(
                TokensaverCommandPayload {
                    message: stats_block(gain, reported_history(run)),
                    notice: "Token Saver stats ready"@,
                },
            ),
        ),
    }
}

/// Decides the next step of `/tokensaverstats` in the background.
pub fn run_tokensaverstats(progress: StatsProgress) -> (r: StatsStep)
    ensures
        r@ == stats_step(progress@),
{
    match progress {
        StatsProgress::Start => StatsStep::RunGain,
        StatsProgress::GainRan(run) => match run {
            Ok(output) => {
                if output.success {
                    StatsStep::RunHistory { gain: output.stdout }
                } else {
                    let errors = trim(output.stderr.as_str());
                    let detail = if errors.is_empty() {
                        trim(output.stdout.as_str())
                    } else {
                        errors
                    };
                    let mut message: String = "rtk gain failed: ".to_owned();
                    message.append(detail);
                    StatsStep::Finish(Err(message))
                }
            },
            Err(RtkError::NotFound) => StatsStep::Finish(
                Ok(
                    TokensaverCommandPayload {
                        message: rtk_missing_message(),
                        notice: "rtk not installed".to_owned(),
                    },
                ),
            ),
            Err(RtkError::Failed(message)) => StatsStep::Finish(Err(message)),
        },
        StatsProgress::HistoryRan { gain, run } => {
            // The history is an extra: without it the savings are still shown.
            let history: Option<&str> = match &run {
                Ok(output) => if output.success {
                    Some(output.stdout.as_str())
                } else {
                    None
                },
                Err(_) => None,
            };
            StatsStep::Finish(
                Ok(
                    TokensaverCommandPayload {
                        message: format_stats_block(gain.as_str(), history),
                        notice: "Token Saver stats ready".to_owned(),
                    },
                ),
            )
        },
    }
}

/// `rtk` is run once for the savings and, only after that run succeeded, once for the history; then
/// the command is at its end.
pub proof fn rtk_is_run_at_most_twice(progress: StatsProgress<Seq<char>>)
    ensures
        stats_step(progress) is RunGain <==> progress is Start,
        stats_step(progress) is RunHistory <==> (progress matches StatsProgress::GainRan(Ok(output))
            && output.success),
        progress is HistoryRan ==> stats_step(progress) is Finish,
{
}

/// Once `rtk gain` has succeeded, the savings are shown at the head of the message whatever becomes
/// of the run for the history.
pub proof fn history_never_hides_the_savings(
    output: RtkOutput<Seq<char>>,
    run: Result<RtkOutput<Seq<char>>, RtkError<Seq<char>>>,
)
    requires
        output.success,
    ensures
        stats_step(StatsProgress::GainRan(Ok(output))) == (StatsStep::RunHistory {
            gain: output.stdout,
        }),
        stats_step(StatsProgress::HistoryRan { gain: output.stdout, run }) matches StatsStep::Finish(
            Ok(payload),
        ) && savings_part(output.stdout).is_prefix_of(payload.message),
{
    let block = stats_block(output.stdout, reported_history(run));
    let head = savings_part(output.stdout);
    assert(block.subrange(0, head.len() as int) =~= head);
}

/// The block always begins with the name of the product, and what `rtk` reported stands in it
/// without the white space around it.
pub proof fn block_shows_what_was_reported(gain: Seq<char>, history: Option<Seq<char>>)
    ensures
        STATS_HEADER@.is_prefix_of(stats_block(gain, history)),
        trimmed(gain).len() > 0 ==> (STATS_HEADER@ + trimmed(gain)).is_prefix_of(
            stats_block(gain, history),
        ),
        trimmed(gain).len() == 0 ==> (STATS_HEADER@ + NO_SAVINGS@).is_prefix_of(
            stats_block(gain, history),
        ),
        match history {
            Some(h) => if trimmed(h).len() > 0 {
                (HISTORY_HEADER@ + trimmed(h)).is_suffix_of(stats_block(gain, history))
            } else {
                stats_block(gain, history) == savings_part(gain)
            },
            None => stats_block(gain, history) == savings_part(gain),
        },
{
    let block = stats_block(gain, history);
    let head = savings_part(gain);
    let tail = history_part(history);
    assert(block.subrange(0, head.len() as int) =~= head);
    assert(block.subrange(0, STATS_HEADER@.len() as int) =~= STATS_HEADER@);
    assert(block.subrange(block.len() - tail.len(), block.len() as int) =~= tail);
    assert(head + Seq::<char>::empty() =~= head);
}

/// The views of the way and of the steps of `/tokensaverstats` hold just the texts.
pub proof fn views_hold_the_texts(progress: StatsProgress, step: StatsStep)
    ensures
        match progress {
            StatsProgress::Start => progress@ == StatsProgress::<Seq<char>>::Start,
            StatsProgress::GainRan(run) => progress@ == StatsProgress::GainRan(run_result(run)),
            StatsProgress::HistoryRan { gain, run } => progress@ == (StatsProgress::HistoryRan {
                gain: gain@,
                run: run_result(run),
            }),
        },
        match step {
            StatsStep::RunGain => step@ == StatsStep::<Seq<char>>::RunGain,
            StatsStep::RunHistory { gain } => step@ == (StatsStep::RunHistory { gain: gain@ }),
            StatsStep::Finish(result) => step@ == StatsStep::Finish(outcome(result)),
        },
{
}

/// The block is its head and the savings without the white space around them, or a remark where there
/// are none; a history that is not blank is added behind its own head, and any other adds nothing.
pub proof fn the_block_is_head_savings_and_history(gain: Seq<char>, history: Seq<char>)
    ensures
        stats_block(gain, None) == "Token Saver\n===========\n\n"@ + if blank(gain) {
            "No savings recorded yet - rtk starts metering as soon as jcode routes commands through it."@
        } else {
            trimmed(gain)
        },
        stats_block(gain, Some(history)) == if blank(history) {
            stats_block(gain, None)
        } else {
            stats_block(gain, None) + "\n\nRecent history\n--------------\n"@ + trimmed(history)
        },
{
    trimmed_has_no_outer_white_space(gain);
    trimmed_has_no_outer_white_space(history);
    let none = Seq::<char>::empty();
    assert(savings_part(gain) + none =~= savings_part(gain));
    assert(savings_part(gain) + (HISTORY_HEADER@ + trimmed(history)) =~= savings_part(gain)
        + HISTORY_HEADER@ + trimmed(history));
}

/// What a run of `rtk gain` leads to: a missing `rtk` to the pointer to its installer, another failure
/// to report itself, a run without success to what it wrote, errors before anything else, and a
/// success to the run for the history with what was reported kept as it is.
pub proof fn each_gain_leads_to_its_step(
    message: Seq<char>,
    stdout: Seq<char>,
    stderr: Seq<char>,
)
    ensures
        stats_step(StatsProgress::Start) == StatsStep::<Seq<char>>::RunGain,
        stats_step(StatsProgress::GainRan(Err(RtkError::NotFound))) == StatsStep::Finish(
            Ok::<TokensaverCommandPayload<Seq<char>>, Seq<char>>(
                TokensaverCommandPayload { message: RTK_MISSING@, notice: "rtk not installed"@ },
            ),
        ),
        stats_step(StatsProgress::GainRan(Err(RtkError::Failed(message)))) == StatsStep::Finish(
            Err::<TokensaverCommandPayload<Seq<char>>, Seq<char>>(message),
        ),
        stats_step(
            StatsProgress::GainRan(Ok(RtkOutput { success: true, stdout, stderr })),
        ) == (StatsStep::RunHistory { gain: stdout }),
        !blank(stderr) ==> stats_step(
            StatsProgress::GainRan(Ok(RtkOutput { success: false, stdout, stderr })),
        ) == StatsStep::Finish(
            Err::<TokensaverCommandPayload<Seq<char>>, Seq<char>>(
                "rtk gain failed: "@ + trimmed(stderr),
            ),
        ),
        blank(stderr) ==> stats_step(
            StatsProgress::GainRan(Ok(RtkOutput { success: false, stdout, stderr })),
        ) == StatsStep::Finish(
            Err::<TokensaverCommandPayload<Seq<char>>, Seq<char>>(
                "rtk gain failed: "@ + trimmed(stdout),
            ),
        ),
{
    trimmed_has_no_outer_white_space(stderr);
}

/// The savings are reported as ready after every run for the history. The message is the block with
/// what the run wrote to its standard output, if the run succeeded, whatever it wrote to its error
/// stream; and otherwise the block without a history.
pub proof fn each_history_leads_to_its_message(
    gain: Seq<char>,
    success: bool,
    stdout: Seq<char>,
    stderr: Seq<char>,
    error: RtkError<Seq<char>>,
)
    ensures
        ({
            let ran = StatsProgress::HistoryRan {
                gain,
                run: Ok(RtkOutput { success, stdout, stderr }),
            };
            stats_step(ran) matches StatsStep::Finish(Ok(payload)) && {
                &&& payload.notice == "Token Saver stats ready"@
                &&& payload.message == if success && !blank(stdout) {
                    stats_block(gain, None) + "\n\nRecent history\n--------------\n"@ + trimmed(stdout)
                } else {
                    stats_block(gain, None)
                }
            }
        }),
        stats_step(StatsProgress::HistoryRan { gain, run: Err(error) }) == StatsStep::Finish(
            Ok::<TokensaverCommandPayload<Seq<char>>, Seq<char>>(
                TokensaverCommandPayload {
                    message: stats_block(gain, None),
                    notice: "Token Saver stats ready"@,
                },
            ),
        ),
{
    the_block_is_head_savings_and_history(gain, stdout);
}

} // verus!
