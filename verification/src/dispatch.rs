//! Which process to launch, and whether another follows it.
//!
//! A dispatch launches at most two processes, one after the other. Where a
//! `Gemfile` was found the command goes through `bundle exec`; where that
//! attempt cannot be started, or fails within the grace period, the command is
//! launched directly. Where none was found the command is launched directly
//! at once. Launching and timing are the caller's part: [`dispatch_start`]
//! names the first process, and [`dispatch_next`] decides after each one what
//! comes next.
use crate::errors::BWErrors;
use crate::text::{from_index, push_strings_from, strings_from};
use vstd::prelude::*;

verus! {

/// The tool that runs a command inside a bundle.
pub const WRAPPER_TOOL: &'static str = "bundle";

/// The sub-command of [`WRAPPER_TOOL`] that runs a command.
pub const WRAPPER_SUBCOMMAND: &'static str = "exec";

/// A failed attempt through the wrapper tool is followed by a direct launch
/// only if it took fewer whole seconds than this.
pub const RETRY_GRACE_PERIOD_SEC: u64 = 2;

/// The characters of [`WRAPPER_TOOL`].
pub open spec fn wrapper_tool() -> Seq<char> {
    seq!['b', 'u', 'n', 'd', 'l', 'e']
}

/// The characters of [`WRAPPER_SUBCOMMAND`].
pub open spec fn wrapper_subcommand() -> Seq<char> {
    seq!['e', 'x', 'e', 'c']
}

/// A process to launch: the program and the arguments handed to it.
#[derive(Debug, PartialEq, Eq)]
pub struct Invocation {
    pub program: String,
    pub args: Vec<String>,
}

/// An [`Invocation`] as sequences of characters.
pub struct InvocationView {
    pub program: Seq<char>,
    pub args: Seq<Seq<char>>,
}

impl View for Invocation {
    type V = InvocationView;

    open spec fn view(&self) -> InvocationView {
        InvocationView { program: self.program@, args: self.args.deep_view() }
    }
}

impl DeepView for Invocation {
    type V = InvocationView;

    open spec fn deep_view(&self) -> InvocationView {
        self@
    }
}

/// How a launched process ended.
#[derive(Debug, Clone, Copy, PartialEq, Eq, Structural)]
pub enum ChildOutcome {
    /// The program could not be started.
    SpawnFailed,
    /// The process ran and exited, with success or without.
    Exited { success: bool },
}

/// Where a dispatch stands.
#[derive(Debug, Clone, Copy, PartialEq, Eq, Structural)]
pub enum DispatchState {
    /// The command was launched through the wrapper tool.
    WrappedAttempt,
    /// The command was launched directly.
    DirectAttempt,
    /// Nothing is left to launch.
    Done,
}

/// One step of a dispatch: what the caller does next.
#[derive(Debug, PartialEq, Eq)]
pub struct DispatchStep {
    /// The state the dispatch is in from here on.
    pub state: DispatchState,
    /// The process to launch now, if any.
    pub launch: Option<Invocation>,
    /// Whether the wrapper tool could not be started, which the caller
    /// reports as a fatal condition before it launches anything else.
    pub report_spawn_failure: bool,
}

/// A [`DispatchStep`] as sequences of characters.
pub struct DispatchStepView {
    pub state: DispatchState,
    pub launch: Option<InvocationView>,
    pub report_spawn_failure: bool,
}

impl View for DispatchStep {
    type V = DispatchStepView;

    open spec fn view(&self) -> DispatchStepView {
        DispatchStepView {
            state: self.state,
            launch: self.launch.deep_view(),
            report_spawn_failure: self.report_spawn_failure,
        }
    }
}

/// The launch of `command` through the wrapper tool: the sub-command, the
/// command, then all of `arguments`.
pub open spec fn wrapped_launch(command: Seq<char>, arguments: Seq<Seq<char>>) -> InvocationView {
    InvocationView {
        program: wrapper_tool(),
        args: seq![wrapper_subcommand(), command] + arguments,
    }
}

/// The direct launch of `command` with `arguments`.
pub open spec fn direct_launch(command: Seq<char>, arguments: Seq<Seq<char>>) -> InvocationView {
    InvocationView { program: command, args: arguments }
}

/// The direct launch that follows a failed attempt through the wrapper tool:
/// `command` with `arguments` less the first of them.
pub open spec fn fallback_launch(command: Seq<char>, arguments: Seq<Seq<char>>) -> InvocationView {
    direct_launch(command, from_index(arguments, 1))
}

/// Whether an attempt through the wrapper tool that ended with `outcome` after
/// `elapsed_secs` whole seconds is followed by a direct launch: it is where
/// the tool could not be started, and where it ran and failed within the
/// grace period.
pub open spec fn falls_back(outcome: ChildOutcome, elapsed_secs: u64) -> bool {
    match outcome {
        ChildOutcome::SpawnFailed => true,
        ChildOutcome::Exited { success } => !success && elapsed_secs < RETRY_GRACE_PERIOD_SEC,
    }
}

/// The step that ends a dispatch.
pub open spec fn finished() -> DispatchStepView {
    DispatchStepView { state: DispatchState::Done, launch: None, report_spawn_failure: false }
}

/// The first step of a dispatch of `command` with `arguments`: through the
/// wrapper tool where a `Gemfile` was found, directly and with all arguments
/// where none was.
pub open spec fn start(
    command: Seq<char>,
    arguments: Seq<Seq<char>>,
    gemfile_found: bool,
) -> DispatchStepView {
    if gemfile_found {
        DispatchStepView {
            state: DispatchState::WrappedAttempt,
            launch: Some(wrapped_launch(command, arguments)),
            report_spawn_failure: false,
        }
    } else {
        DispatchStepView {
            state: DispatchState::DirectAttempt,
            launch: Some(direct_launch(command, arguments)),
            report_spawn_failure: false,
        }
    }
}

/// The step that follows the end of the process launched in `state`, which
/// ended with `outcome` after `elapsed_secs` whole seconds.
///
/// Only an attempt through the wrapper tool can be followed by another
/// launch, and only where [`falls_back`] holds of its end; everything else
/// ends the dispatch.
pub open spec fn next(
    state: DispatchState,
    command: Seq<char>,
    arguments: Seq<Seq<char>>,
    outcome: ChildOutcome,
    elapsed_secs: u64,
) -> DispatchStepView {
    if state == DispatchState::WrappedAttempt && falls_back(outcome, elapsed_secs) {
        DispatchStepView {
            state: DispatchState::DirectAttempt,
            launch: Some(fallback_launch(command, arguments)),
            report_spawn_failure: outcome == ChildOutcome::SpawnFailed,
        }
    } else {
        finished()
    }
}

/// Decides whether an attempt through the wrapper tool that ended with
/// `outcome` after `elapsed_secs` whole seconds is followed by a direct
/// launch.
pub fn should_fall_back(outcome: ChildOutcome, elapsed_secs: u64) -> (retry: bool)
    ensures
        retry == falls_back(outcome, elapsed_secs),
{
    match outcome {
        ChildOutcome::SpawnFailed => true,
        ChildOutcome::Exited { success } => !success && elapsed_secs < RETRY_GRACE_PERIOD_SEC,
    }
}

/// The launch of `command` through the wrapper tool.
pub fn wrapped_invocation(command: &str, arguments: &Vec<String>) -> (launch: Invocation)
    ensures
        launch@ == wrapped_launch(command@, arguments.deep_view()),
{
    proof {
        reveal_strlit("bundle");
        reveal_strlit("exec");
        assert(WRAPPER_TOOL@ =~= wrapper_tool());
        assert(WRAPPER_SUBCOMMAND@ =~= wrapper_subcommand());
    }
    let mut args: Vec<String> = Vec::new();
    args.push(WRAPPER_SUBCOMMAND.to_owned());
    args.push(command.to_owned());
    assert(args.deep_view() =~= seq![wrapper_subcommand(), command@]);
    push_strings_from(&mut args, arguments, 0);
    assert(from_index(arguments.deep_view(), 0) =~= arguments.deep_view());
    Invocation { program: WRAPPER_TOOL.to_owned(), args }
}

/// The direct launch of `command` with all of `arguments`.
pub fn direct_invocation(command: &str, arguments: &Vec<String>) -> (launch: Invocation)
    ensures
        launch@ == direct_launch(command@, arguments.deep_view()),
{
    assert(from_index(arguments.deep_view(), 0) =~= arguments.deep_view());
    Invocation { program: command.to_owned(), args: strings_from(arguments, 0) }
}

/// The direct launch of `command` that follows a failed attempt through the
/// wrapper tool: `arguments` go along less the first of them.
pub fn fallback_invocation(command: &str, arguments: &Vec<String>) -> (launch: Invocation)
    ensures
        launch@ == fallback_launch(command@, arguments.deep_view()),
{
    Invocation { program: command.to_owned(), args: strings_from(arguments, 1) }
}

/// Starts a dispatch of `command` with `arguments`, given the result of the
/// search for a `Gemfile`: any directory found sends the command through the
/// wrapper tool, either failure of the search launches it directly.
pub fn dispatch_start<T>(
    command: &str,
    arguments: &Vec<String>,
    gemfile: &Result<T, BWErrors>,
) -> (step: DispatchStep)
    ensures
        step@ == start(command@, arguments.deep_view(), gemfile is Ok),
{
    match gemfile {
        Ok(_) => DispatchStep {
            state: DispatchState::WrappedAttempt,
            launch: Some(wrapped_invocation(command, arguments)),
            report_spawn_failure: false,
        },
        Err(_) => DispatchStep {
            state: DispatchState::DirectAttempt,
            launch: Some(direct_invocation(command, arguments)),
            report_spawn_failure: false,
        },
    }
}

/// Continues a dispatch of `command` with `arguments` once the process
/// launched last has ended: `state` is the state it was launched in,
/// `outcome` how it ended and `elapsed_secs` the whole seconds it took.
pub fn dispatch_next(
    state: DispatchState,
    command: &str,
    arguments: &Vec<String>,
    outcome: ChildOutcome,
    elapsed_secs: u64,
) -> (step: DispatchStep)
    ensures
        step@ == next(state, command@, arguments.deep_view(), outcome, elapsed_secs),
{
    let retry = match state {
        DispatchState::WrappedAttempt => should_fall_back(outcome, elapsed_secs),
        _ => false,
    };
    if retry {
        DispatchStep {
            state: DispatchState::DirectAttempt,
            launch: Some(fallback_invocation(command, arguments)),
            report_spawn_failure: match outcome {
                ChildOutcome::SpawnFailed => true,
                _ => false,
            },
        }
    } else {
        DispatchStep { state: DispatchState::Done, launch: None, report_spawn_failure: false }
    }
}

/// A process is launched in every state but `Done`: each step of a dispatch
/// names a process exactly where it does not end the dispatch.
pub proof fn lemma_launch_unless_done(
    state: DispatchState,
    command: Seq<char>,
    arguments: Seq<Seq<char>>,
    gemfile_found: bool,
    outcome: ChildOutcome,
    elapsed_secs: u64,
)
    ensures
        start(command, arguments, gemfile_found).launch is Some,
        start(command, arguments, gemfile_found).state != DispatchState::Done,
        next(state, command, arguments, outcome, elapsed_secs).launch is Some <==> next(
            state,
            command,
            arguments,
            outcome,
            elapsed_secs,
        ).state != DispatchState::Done,
{
}

/// A dispatch launches at most two processes, and the second only after an
/// attempt through the wrapper tool: a direct launch ends the dispatch
/// however it ends, and so does whatever follows the first step's successor.
pub proof fn lemma_at_most_two_launches(
    command: Seq<char>,
    arguments: Seq<Seq<char>>,
    gemfile_found: bool,
    first: (ChildOutcome, u64),
    second: (ChildOutcome, u64),
)
    ensures
        ({
            let begun = start(command, arguments, gemfile_found);
            let after_first = next(begun.state, command, arguments, first.0, first.1);
            let after_second = next(after_first.state, command, arguments, second.0, second.1);
            &&& !gemfile_found ==> after_first == finished()
            &&& after_first.launch is Some ==> after_first.launch == Some(
                fallback_launch(command, arguments),
            )
            &&& after_second == finished()
        }),
{
}

} // verus!
