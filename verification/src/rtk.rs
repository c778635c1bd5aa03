//! Running the `rtk` program: its results, and the decisions of the loop that waits for it.
use vstd::prelude::*;

use crate::text::{decimal, decimal_is_positional, join, joined, to_decimal};

verus! {

/// The hard limit on one run of `rtk`, in seconds.
pub const RTK_TIMEOUT_SECS: u16 = 10;

/// How long to sleep between two looks at a running `rtk`, in milliseconds.
pub const RTK_POLL_MS: u64 = 50;

/// What a finished run of `rtk` left. The texts are `String`s, and `Seq<char>`s in the view.
#[derive(Debug, PartialEq, Eq)]
pub struct RtkOutput<T = String> {
    pub success: bool,
    pub stdout: T,
    pub stderr: T,
}

/// Why `rtk` could not be run to its end: it is not installed, or something failed.
#[derive(Debug, PartialEq, Eq)]
pub enum RtkError<T = String> {
    NotFound,
    Failed(T),
}

impl View for RtkOutput<String> {
    type V = RtkOutput<Seq<char>>;

    open spec fn view(&self) -> RtkOutput<Seq<char>> {
        RtkOutput { success: self.success, stdout: self.stdout@, stderr: self.stderr@ }
    }
}

impl View for RtkError<String> {
    type V = RtkError<Seq<char>>;

    open spec fn view(&self) -> RtkError<Seq<char>> {
        match *self {
            RtkError::NotFound => RtkError::NotFound,
            RtkError::Failed(message) => RtkError::Failed(message@),
        }
    }
}

/// The result of a run over the texts that it holds.
pub open spec fn run_result(run: Result<RtkOutput, RtkError>) -> Result<
    RtkOutput<Seq<char>>,
    RtkError<Seq<char>>,
> {
    match run {
        Ok(output) => Ok(output@),
        Err(error) => Err(error@),
    }
}

/// Tells a missing `rtk` from one that could not be started for another reason.
pub fn rtk_start_error(not_found: bool, error: &str) -> (r: RtkError)
    ensures
        r@ == if not_found {
            RtkError::NotFound
        } else {
            RtkError::Failed("Failed to start rtk: "@ + error@)
        },
{
    if not_found {
        RtkError::NotFound
    } else {
        let mut message: String = "Failed to start rtk: ".to_owned();
        message.append(error);
        RtkError::Failed(message)
    }
}

/// What a look at the started `rtk` showed.
#[derive(Debug, PartialEq, Eq)]
pub enum RtkPoll<T = String> {
    /// It has exited.
    Exited { success: bool },
    /// It is running, so many milliseconds after its start.
    Running { elapsed_ms: u128 },
    /// The look itself failed.
    WaitFailed(T),
}

impl View for RtkPoll<String> {
    type V = RtkPoll<Seq<char>>;

    open spec fn view(&self) -> RtkPoll<Seq<char>> {
        match *self {
            RtkPoll::Exited { success } => RtkPoll::Exited { success },
            RtkPoll::Running { elapsed_ms } => RtkPoll::Running { elapsed_ms },
            RtkPoll::WaitFailed(error) => RtkPoll::WaitFailed(error@),
        }
    }
}

/// What to do after a look at the started `rtk`.
#[derive(Debug, PartialEq, Eq)]
pub enum RtkStep<T = String> {
    /// Collect what it wrote.
    Collect { success: bool },
    /// Sleep so many milliseconds and look again.
    Sleep { ms: u64 },
    /// Kill it and give up.
    Kill(RtkError<T>),
    /// Give up.
    Fail(RtkError<T>),
}

impl View for RtkStep<String> {
    type V = RtkStep<Seq<char>>;

    open spec fn view(&self) -> RtkStep<Seq<char>> {
        match *self {
            RtkStep::Collect { success } => RtkStep::Collect { success },
            RtkStep::Sleep { ms } => RtkStep::Sleep { ms },
            RtkStep::Kill(error) => RtkStep::Kill(error@),
            RtkStep::Fail(error) => RtkStep::Fail(error@),
        }
    }
}

/// The complaint about a run with the arguments `args` that did not end in time.
pub open spec fn timed_out(args: Seq<&str>) -> Seq<char> {
    "rtk "@ + joined(args) + " timed out after "@ + decimal(RTK_TIMEOUT_SECS as nat) + "s"@
}

/// The step that follows a look at `rtk`, started with the arguments `args`.
pub open spec fn rtk_step(args: Seq<&str>, poll: RtkPoll<Seq<char>>) -> RtkStep<Seq<char>> {
    match poll {
        RtkPoll::Exited { success } => RtkStep::Collect { success },
        RtkPoll::Running { elapsed_ms } => if elapsed_ms >= 1000 * RTK_TIMEOUT_SECS {
            RtkStep::Kill(RtkError::Failed(timed_out(args)))
        } else {
            RtkStep::Sleep { ms: RTK_POLL_MS }
        },
        RtkPoll::WaitFailed(error) => RtkStep::Fail(
            RtkError::Failed("Failed to wait for rtk: "@ + error),
        ),
    }
}

/// Decides what to do after a look at the started `rtk`.
pub fn run_rtk_step(args: &[&str], poll: RtkPoll) -> (r: RtkStep)
    ensures
        r@ == rtk_step(args@, poll@),
{
    match poll {
        RtkPoll::Exited { success } => RtkStep::Collect { success },
        RtkPoll::Running { elapsed_ms } => {
            if elapsed_ms >= 1000 * RTK_TIMEOUT_SECS as u128 {
                let mut message: String = "rtk ".to_owned();
                message.append(join(args).as_str());
                message.append(" timed out after ");
                message.append(to_decimal(RTK_TIMEOUT_SECS).as_str());
                message.append("s");
                RtkStep::Kill(RtkError::Failed(message))
            } else {
                RtkStep::Sleep { ms: RTK_POLL_MS }
            }
        },
        RtkPoll::WaitFailed(error) => {
            let mut message: String = "Failed to wait for rtk: ".to_owned();
            message.append(error.as_str());
            RtkStep::Fail(RtkError::Failed(message))
        },
    }
}

/// The wait ends: ten seconds after the start no step sleeps again, and before that a running `rtk`
/// is not killed.
pub proof fn the_wait_is_bounded(args: Seq<&str>, poll: RtkPoll<Seq<char>>)
    ensures
        poll matches RtkPoll::Running { elapsed_ms } ==> {
            &&& rtk_step(args, poll) is Sleep <==> elapsed_ms < 10_000
            &&& rtk_step(args, poll) is Kill <==> elapsed_ms >= 10_000
        },
        poll !is Running ==> rtk_step(args, poll) !is Sleep,
{
}

/// The views of the results, of a look at `rtk` and of a step hold just the texts.
pub proof fn views_hold_the_texts(
    output: RtkOutput,
    error: RtkError,
    poll: RtkPoll,
    step: RtkStep,
)
    ensures
        output@.success == output.success,
        output@.stdout == output.stdout@,
        output@.stderr == output.stderr@,
        match error {
            RtkError::NotFound => error@ == RtkError::<Seq<char>>::NotFound,
            RtkError::Failed(text) => error@ == RtkError::Failed(text@),
        },
        run_result(Ok(output)) == Ok::<RtkOutput<Seq<char>>, RtkError<Seq<char>>>(output@),
        run_result(Err(error)) == Err::<RtkOutput<Seq<char>>, RtkError<Seq<char>>>(error@),
        match poll {
            RtkPoll::Exited { success } => poll@ == (RtkPoll::<Seq<char>>::Exited { success }),
            RtkPoll::Running { elapsed_ms } => poll@ == (RtkPoll::<Seq<char>>::Running {
                elapsed_ms,
            }),
            RtkPoll::WaitFailed(text) => poll@ == RtkPoll::WaitFailed(text@),
        },
        match step {
            RtkStep::Collect { success } => step@ == (RtkStep::<Seq<char>>::Collect { success }),
            RtkStep::Sleep { ms } => step@ == (RtkStep::<Seq<char>>::Sleep { ms }),
            RtkStep::Kill(e) => step@ == RtkStep::Kill(e@),
            RtkStep::Fail(e) => step@ == RtkStep::Fail(e@),
        },
{
}

/// An exited `rtk` is collected with the success that it had; a running one is looked at again after
/// fifty milliseconds until ten seconds have passed, and is then killed with a complaint that names
/// its arguments; and a failed look gives up with the error of that look.
pub proof fn each_look_leads_to_its_step(
    args: Seq<&str>,
    success: bool,
    elapsed_ms: u128,
    error: Seq<char>,
)
    ensures
        rtk_step(args, RtkPoll::Exited { success }) == (RtkStep::<Seq<char>>::Collect { success }),
        elapsed_ms < 10_000 ==> rtk_step(args, RtkPoll::Running { elapsed_ms }) == (RtkStep::<
            Seq<char>,
        >::Sleep { ms: 50 }),
        elapsed_ms >= 10_000 ==> rtk_step(args, RtkPoll::Running { elapsed_ms }) == RtkStep::Kill(
            RtkError::Failed("rtk "@ + joined(args) + " timed out after 10s"@),
        ),
        rtk_step(args, RtkPoll::WaitFailed(error)) == RtkStep::Fail(
            RtkError::Failed("Failed to wait for rtk: "@ + error),
        ),
{
    reveal_strlit(" timed out after 10s");
    reveal_strlit(" timed out after ");
    reveal_strlit("s");
    decimal_is_positional(1, 0);
    decimal_is_positional(1, 1);
    assert(timed_out(args) =~= "rtk "@ + joined(args) + " timed out after 10s"@);
}

} // verus!
