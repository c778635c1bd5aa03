use tokensaver::app::TokensaverCommandPayload;
use tokensaver::rtk::{RtkError, RtkOutput};
use tokensaver::stats::{
    format_stats_block, gain_args, history_args, rtk_missing_message, run_tokensaverstats,
    StatsProgress, StatsStep,
};

fn output(success: bool, stdout: &str, stderr: &str) -> RtkOutput {
    RtkOutput { success, stdout: stdout.to_string(), stderr: stderr.to_string() }
}

fn finished(run: Result<RtkOutput, RtkError>) -> StatsStep {
    run_tokensaverstats(StatsProgress::HistoryRan { gain: " saved 1 \n".to_string(), run })
}

fn ready(message: &str) -> StatsStep {
    StatsStep::Finish(Ok(TokensaverCommandPayload {
        message: message.to_string(),
        notice: "Token Saver stats ready".to_string(),
    }))
}

#[test]
fn format_stats_block_includes_header_and_history() {
    let block = format_stats_block("saved 12000 tokens", Some("git log: 80%\n"));
    assert!(block.starts_with("Token Saver\n"));
    assert!(block.contains("saved 12000 tokens"));
    assert!(block.contains("Recent history"));
    assert!(block.contains("git log: 80%"));
}

#[test]
fn format_stats_block_without_history_or_data() {
    let block = format_stats_block("  ", None);
    assert!(block.starts_with("Token Saver\n"));
    assert!(block.contains("No savings recorded yet"));
    assert!(!block.contains("Recent history"));
}

#[test]
fn format_stats_block_is_exact() {
    assert_eq!(
        format_stats_block("\n saved 12000 tokens \n", Some(" git log: 80%\n")),
        "Token Saver\n===========\n\nsaved 12000 tokens\n\nRecent history\n--------------\ngit log: 80%"
    );
    assert_eq!(
        format_stats_block("", Some(" \n")),
        "Token Saver\n===========\n\nNo savings recorded yet - rtk starts metering as soon as jcode routes commands through it."
    );
}

#[test]
fn the_savings_are_asked_for_first() {
    assert_eq!(run_tokensaverstats(StatsProgress::Start), StatsStep::RunGain);
    assert_eq!(gain_args(), ["gain"]);
    assert_eq!(history_args(), ["gain", "--history"]);
}

#[test]
fn a_missing_rtk_is_no_failure() {
    assert_eq!(
        run_tokensaverstats(StatsProgress::GainRan(Err(RtkError::NotFound))),
        StatsStep::Finish(Ok(TokensaverCommandPayload {
            message: rtk_missing_message(),
            notice: "rtk not installed".to_string(),
        }))
    );
    assert_eq!(
        rtk_missing_message(),
        "Token Saver stats need the rtk CLI, which is not installed yet.\n\nInstall it with:\n\ncurl -fsSL https://raw.githubusercontent.com/mintoriakamoto/rtk/refs/heads/master/install.sh | sh\n\nThen run /tokensaverstats again."
    );
}

#[test]
fn a_run_that_fails_is_reported() {
    assert_eq!(
        run_tokensaverstats(StatsProgress::GainRan(Err(RtkError::Failed("late".to_string())))),
        StatsStep::Finish(Err("late".to_string()))
    );
    assert_eq!(
        run_tokensaverstats(StatsProgress::GainRan(Ok(output(false, "out", " boom\n")))),
        StatsStep::Finish(Err("rtk gain failed: boom".to_string()))
    );
    assert_eq!(
        run_tokensaverstats(StatsProgress::GainRan(Ok(output(false, " out\n", " \n")))),
        StatsStep::Finish(Err("rtk gain failed: out".to_string()))
    );
}

#[test]
fn the_history_is_asked_for_next() {
    assert_eq!(
        run_tokensaverstats(StatsProgress::GainRan(Ok(output(true, "saved 1", "warning")))),
        StatsStep::RunHistory { gain: "saved 1".to_string() }
    );
}

#[test]
fn the_savings_are_shown_with_or_without_the_history() {
    assert_eq!(
        finished(Ok(output(true, "git log: 80%", ""))),
        ready("Token Saver\n===========\n\nsaved 1\n\nRecent history\n--------------\ngit log: 80%")
    );
    let plain = "Token Saver\n===========\n\nsaved 1";
    assert_eq!(finished(Ok(output(false, "git log: 80%", ""))), ready(plain));
    assert_eq!(finished(Err(RtkError::NotFound)), ready(plain));
    assert_eq!(finished(Err(RtkError::Failed("late".to_string()))), ready(plain));
}
