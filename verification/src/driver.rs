//! The top-level pipeline, as a state machine: resolve the executable,
//! resolve the ignore rules, list the managed resources, filter them, build
//! the destroy arguments, invoke the destroy subcommand, and translate the
//! outcome into an exit code.
//!
//! The machine only decides; it performs no outside work itself. The caller
//! asks [`next_action`] what to do for the current phase, performs that
//! action (a process invocation, a file read), and hands the outcome back
//! through [`step`]. Phases advance strictly forward; any failure enters the
//! terminal [`Phase::Failed`] and short-circuits every remaining stage.

use vstd::prelude::*;

use crate::error::{CommandErrorCapture, Error};
use crate::filter::{interleave_targets, filter_targets, spec_apply_rules, spec_interleave};
use crate::ignore::{parse_ignore, spec_exact_rules, Ignore};
use crate::listing::{spec_tokenize, tokenize};
use crate::status::{exit_status_to_code, spec_exit_code, spec_success, TerminationStatus};

verus! {

/// Exit code for every failure other than a failed destroy invocation.
pub const OTHER_ERROR_EXIT_CODE: i32 = 1;

/// Caller-declared configuration for one run: an optional explicit path to
/// the external tool, the verbosity level for diagnostics, and arguments
/// passed through verbatim to the destroy invocation.
pub struct Config {
    /// Explicit path to the external tool's executable; when absent the
    /// tool is located on the search path.
    pub tf_cmd: Option<String>,
    /// Verbosity level: the number of verbose flags given.
    pub verbose: u8,
    /// Additional arguments appended verbatim to the destroy invocation.
    pub pass_args: Vec<String>,
}

/// Where the pipeline stands. Phases advance strictly in the order they are
/// declared; `Done` and `Failed` are terminal.
pub enum Phase {
    /// Nothing has happened yet; the executable must be located.
    Init,
    /// The executable is known; the ignore rules must be resolved.
    Located {
        /// Path of the external tool's executable.
        exe: String,
    },
    /// The ignore rules are resolved; the resources must be listed.
    RulesResolved {
        /// Path of the external tool's executable.
        exe: String,
        /// The parsed rules, or `None` when no ignore file exists.
        rules: Option<Ignore>,
    },
    /// The resources are listed; the survivors must be computed.
    Listed {
        /// Path of the external tool's executable.
        exe: String,
        /// The parsed rules, or `None` when no ignore file exists.
        rules: Option<Ignore>,
        /// The listed resource names, in the order reported.
        targets: Vec<String>,
    },
    /// The destroy arguments are built; the destroy must be invoked.
    Filtered {
        /// Path of the external tool's executable.
        exe: String,
        /// The `-target <name>` pairs for the surviving resources.
        target_args: Vec<String>,
    },
    /// The destroy invocation succeeded.
    Destroyed,
    /// The run succeeded; exit with code zero.
    Done,
    /// The run failed; report the error and exit with its code.
    Failed {
        /// What went wrong.
        error: Error,
        /// The process exit code to report.
        code: i32,
    },
}

/// The outcome of an action, handed back to [`step`].
pub enum Event {
    /// The executable was found and, when given explicitly, is executable.
    ExecutableLocated {
        /// Path of the executable.
        exe: String,
    },
    /// The explicitly given command path is not an executable file.
    ExecutableRejected,
    /// The search-path lookup failed.
    ExecutableNotFound {
        /// The lookup's error message.
        detail: String,
    },
    /// No ignore file exists in the working directory.
    IgnoreMissing,
    /// The ignore file exists and was read whole.
    IgnoreRead {
        /// The file's text.
        content: String,
    },
    /// The ignore file exists but could not be read.
    IgnoreUnreadable {
        /// The read's error message.
        detail: String,
    },
    /// The child process could not be started.
    LaunchFailed {
        /// The launch error's message.
        detail: String,
    },
    /// The child process ran to termination.
    Completed {
        /// How the child ended.
        status: TerminationStatus,
        /// Captured standard output (empty where not captured).
        stdout: String,
        /// Captured standard error.
        stderr: String,
    },
    /// Nothing outside happened; the phase only computes.
    Advance,
}

/// What the caller must do next for a phase.
pub enum Action {
    /// Locate the executable: check the explicit path when given, else
    /// search the path for the tool's fixed name.
    LocateExecutable {
        /// The explicitly configured path, when there is one.
        explicit: Option<String>,
    },
    /// Read the ignore file from the working directory, if it exists.
    ReadIgnoreFile,
    /// Run the tool's listing subcommand, capturing output and error.
    RunList {
        /// Path of the executable to run.
        exe: String,
    },
    /// Hand back [`Event::Advance`]: the next step only computes.
    Advance,
    /// Run the tool's destroy subcommand with the given arguments,
    /// capturing standard error only.
    RunDestroy {
        /// Path of the executable to run.
        exe: String,
        /// The full argument list of the invocation.
        args: Vec<String>,
    },
    /// Print the banner for the phase and exit with the given code.
    Finish {
        /// The process exit code.
        code: i32,
    },
}

/// Which events a phase can receive: exactly the outcomes of the action
/// that [`next_action`] requests for it. Terminal phases receive none.
pub open spec fn event_fits(phase: Phase, event: Event) -> bool {
    match phase {
        Phase::Init => event matches Event::ExecutableLocated { .. } || event matches Event::ExecutableRejected
            || event matches Event::ExecutableNotFound { .. },
        Phase::Located { .. } => event matches Event::IgnoreMissing || event matches Event::IgnoreRead { .. }
            || event matches Event::IgnoreUnreadable { .. },
        Phase::RulesResolved { .. } => event matches Event::LaunchFailed { .. }
            || event matches Event::Completed { .. },
        Phase::Listed { .. } => event matches Event::Advance,
        Phase::Filtered { .. } => event matches Event::LaunchFailed { .. }
            || event matches Event::Completed { .. },
        Phase::Destroyed => event matches Event::Advance,
        Phase::Done => false,
        Phase::Failed { .. } => false,
    }
}

/// How the machine advances: the full transition relation of the pipeline.
/// Every failure moves to `Failed` with the generic exit code, except a
/// failed destroy invocation, whose captured status is translated into the
/// exit code.
pub open spec fn spec_step(phase: Phase, event: Event, next: Phase) -> bool {
    match (phase, event) {
        (Phase::Init, Event::ExecutableLocated { exe }) => next == Phase::Located { exe },
        (Phase::Init, Event::ExecutableRejected) => next == Phase::Failed {
            error: Error::NotExecutable,
            code: OTHER_ERROR_EXIT_CODE,
        },
        (Phase::Init, Event::ExecutableNotFound { detail }) => next == Phase::Failed {
            error: Error::Which(detail),
            code: OTHER_ERROR_EXIT_CODE,
        },
        (Phase::Located { exe }, Event::IgnoreMissing) => next == Phase::RulesResolved {
            exe,
            rules: None,
        },
        (Phase::Located { exe }, Event::IgnoreRead { content }) => match spec_exact_rules(
            content@,
        ) {
            Some(names) => next matches Phase::RulesResolved { exe: next_exe, rules: Some(ignore) }
                && next_exe == exe && ignore.exclusions() == names,
            None => next matches Phase::Failed { error: Error::TomlDe(_), code: 1 },
        },
        (Phase::Located { exe }, Event::IgnoreUnreadable { detail }) => next == Phase::Failed {
            error: Error::Io(detail),
            code: OTHER_ERROR_EXIT_CODE,
        },
        (Phase::RulesResolved { exe, rules }, Event::LaunchFailed { detail }) => next
            == Phase::Failed { error: Error::Command(detail), code: OTHER_ERROR_EXIT_CODE },
        (
            Phase::RulesResolved { exe, rules },
            Event::Completed { status, stdout, stderr },
        ) => if spec_success(status) {
            next matches Phase::Listed { exe: next_exe, rules: next_rules, targets }
                && next_exe == exe && next_rules == rules && targets.deep_view() == spec_tokenize(
                stdout@,
            )
        } else {
            next == Phase::Failed {
                error: Error::CommandError(
                    CommandErrorCapture { exit_status: status, err_msg: stderr },
                ),
                code: OTHER_ERROR_EXIT_CODE,
            }
        },
        (Phase::Listed { exe, rules, targets }, Event::Advance) => next matches Phase::Filtered {
            exe: next_exe,
            target_args,
        } && next_exe == exe && target_args.deep_view() == spec_interleave(
            spec_apply_rules(targets.deep_view(), rules),
        ),
        (Phase::Filtered { exe, target_args }, Event::LaunchFailed { detail }) => next
            == Phase::Failed { error: Error::Command(detail), code: OTHER_ERROR_EXIT_CODE },
        (
            Phase::Filtered { exe, target_args },
            Event::Completed { status, stdout, stderr },
        ) => if spec_success(status) {
            next == Phase::Destroyed
        } else {
            next == Phase::Failed {
                error: Error::CommandError(
                    CommandErrorCapture { exit_status: status, err_msg: stderr },
                ),
                code: spec_exit_code(status) as i32,
            }
        },
        (Phase::Destroyed, Event::Advance) => next == Phase::Done,
        _ => true,
    }
}

/// Advances the pipeline by one transition: consumes the outcome of the
/// action requested for `phase` and returns the next phase.
pub fn step(phase: Phase, event: Event) -> (next: Phase)
    requires
        event_fits(phase, event),
    ensures
        spec_step(phase, event, next),
{
    match (phase, event) {
        (Phase::Init, Event::ExecutableLocated { exe }) => Phase::Located { exe },
        (Phase::Init, Event::ExecutableRejected) => Phase::Failed {
            error: Error::NotExecutable,
            code: OTHER_ERROR_EXIT_CODE,
        },
        (Phase::Init, Event::ExecutableNotFound { detail }) => Phase::Failed {
            error: Error::Which(detail),
            code: OTHER_ERROR_EXIT_CODE,
        },
        (Phase::Located { exe }, Event::IgnoreMissing) => Phase::RulesResolved {
            exe,
            rules: None,
        },
        (Phase::Located { exe }, Event::IgnoreRead { content }) => match parse_ignore(
            content.as_str(),
        ) {
            Ok(ignore) => Phase::RulesResolved { exe, rules: Some(ignore) },
            Err(error) => Phase::Failed { error, code: OTHER_ERROR_EXIT_CODE },
        },
        (Phase::Located { exe }, Event::IgnoreUnreadable { detail }) => Phase::Failed {
            error: Error::Io(detail),
            code: OTHER_ERROR_EXIT_CODE,
        },
        (Phase::RulesResolved { exe, rules }, Event::LaunchFailed { detail }) => Phase::Failed {
            error: Error::Command(detail),
            code: OTHER_ERROR_EXIT_CODE,
        },
        (Phase::RulesResolved { exe, rules }, Event::Completed { status, stdout, stderr }) => {
            if status.success() {
                let targets = tokenize(stdout.as_str());
                Phase::Listed { exe, rules, targets }
            } else {
                Phase::Failed {
                    error: Error::CommandError(CommandErrorCapture::new(status, stderr)),
                    code: OTHER_ERROR_EXIT_CODE,
                }
            }
        },
        (Phase::Listed { exe, rules, targets }, Event::Advance) => {
            let survivors = filter_targets(targets, &rules);
            let target_args = interleave_targets(&survivors);
            Phase::Filtered { exe, target_args }
        },
        (Phase::Filtered { exe, target_args }, Event::LaunchFailed { detail }) => Phase::Failed {
            error: Error::Command(detail),
            code: OTHER_ERROR_EXIT_CODE,
        },
        (Phase::Filtered { exe, target_args }, Event::Completed { status, stdout, stderr }) => {
            if status.success() {
                Phase::Destroyed
            } else {
                let code = exit_status_to_code(&status);
                Phase::Failed {
                    error: Error::CommandError(CommandErrorCapture::new(status, stderr)),
                    code,
                }
            }
        },
        (Phase::Destroyed, Event::Advance) => Phase::Done,
        (other_phase, _) => other_phase,
    }
}

/// What the caller must do for the current phase. The destroy invocation's
/// argument list is the literal subcommand `destroy`, then the `-target`
/// pairs of the surviving resources, then the caller's passthrough
/// arguments, verbatim and in the order given.
pub fn next_action(phase: &Phase, config: &Config) -> (action: Action)
    ensures
        match *phase {
            Phase::Init => action matches Action::LocateExecutable { explicit }
                && match config.tf_cmd {
                    Some(ref path) => explicit matches Some(given) && given@ == path@,
                    None => explicit is None,
                },
            Phase::Located { .. } => action matches Action::ReadIgnoreFile,
            Phase::RulesResolved { ref exe, .. } => action matches Action::RunList { exe: run_exe }
                && run_exe@ == exe@,
            Phase::Listed { .. } => action matches Action::Advance,
            Phase::Filtered { ref exe, ref target_args } => action matches Action::RunDestroy {
                exe: run_exe,
                args,
            } && run_exe@ == exe@ && args.deep_view() == seq!["destroy"@]
                + target_args.deep_view() + config.pass_args.deep_view(),
            Phase::Destroyed => action matches Action::Advance,
            Phase::Done => action matches Action::Finish { code: 0i32 },
            Phase::Failed { code, .. } => action matches Action::Finish { code: finish_code }
                && finish_code == code,
        },
{
    match phase {
        Phase::Init => {
            let explicit = match &config.tf_cmd {
                Some(path) => Some(path.clone()),
                None => None,
            };
            Action::LocateExecutable { explicit }
        },
        Phase::Located { .. } => Action::ReadIgnoreFile,
        Phase::RulesResolved { exe, .. } => Action::RunList { exe: exe.clone() },
        Phase::Listed { .. } => Action::Advance,
        Phase::Filtered { exe, target_args } => {
            let mut args: Vec<String> = Vec::new();
            args.push("destroy".to_owned());
            args.extend_from_slice(target_args.as_slice());
            args.extend_from_slice(config.pass_args.as_slice());
            proof {
                assert(args.deep_view() =~= seq!["destroy"@] + target_args.deep_view()
                    + config.pass_args.deep_view());
            }
            Action::RunDestroy { exe: exe.clone(), args }
        },
        Phase::Destroyed => Action::Advance,
        Phase::Done => Action::Finish { code: 0 },
        Phase::Failed { code, .. } => Action::Finish { code: *code },
    }
}

} // verus!
