use crate::config::{spec_config_error, ConfigError, Flags};
use crate::machine::{CapturedOutcome, Input, ProcessOutcome, State};
use crate::text::{decimal_i32, spec_decimal_int};
use vstd::prelude::*;
use vstd::string::*;

verus! {

/// The wording a configuration conflict aborts the build with.
pub open spec fn spec_config_error_message(e: ConfigError) -> Seq<char> {
    match e {
        ConfigError::CompilerConflict => "gcc OR clang compiler must be enabled, not both."@,
        ConfigError::CompilerMissing => "one of the gcc and clang compiler features must be enabled."@,
        ConfigError::LinkModeConflict => "static OR dynamic linking must be enabled, not both."@,
        ConfigError::VariantConflict => "light OR standard variant must be enabled, not both."@,
    }
}

/// The wording a configuration conflict aborts the build with.
pub fn config_error_message(e: ConfigError) -> (r: &'static str)
    ensures
        r@ == spec_config_error_message(e),
{
    match e {
        ConfigError::CompilerConflict => "gcc OR clang compiler must be enabled, not both.",
        ConfigError::CompilerMissing => "one of the gcc and clang compiler features must be enabled.",
        ConfigError::LinkModeConflict => "static OR dynamic linking must be enabled, not both.",
        ConfigError::VariantConflict => "light OR standard variant must be enabled, not both.",
    }
}

/// The failure message of the external library build, with both captured
/// streams attached verbatim: such failures are otherwise opaque.
pub open spec fn spec_build_failure_message(out: Seq<char>, err: Seq<char>) -> Seq<char> {
    "building hardened_malloc failed:\n"@ + out + "\n"@ + err
}

/// The failure message of the external library build.
pub fn build_failure_message(stdout: &str, stderr: &str) -> (m: String)
    ensures
        m@ == spec_build_failure_message(stdout@, stderr@),
{
    String::from_str("building hardened_malloc failed:\n").concat(stdout).concat("\n").concat(
        stderr,
    )
}

/// The failure message of the archiver invocation, with both captured
/// streams attached verbatim.
pub open spec fn spec_archive_failure_message(out: Seq<char>, err: Seq<char>) -> Seq<char> {
    "creating static lib of hardened_malloc failed:\n"@ + out + "\n"@ + err
}

/// The failure message of the archiver invocation.
pub fn archive_failure_message(stdout: &str, stderr: &str) -> (m: String)
    ensures
        m@ == spec_archive_failure_message(stdout@, stderr@),
{
    String::from_str("creating static lib of hardened_malloc failed:\n").concat(stdout).concat(
        "\n",
    ).concat(stderr)
}

/// The message a fatal transition reports, determined by the state that
/// failed and the answer that failed it. A clean non-zero exit names the
/// code; a termination without an exit code is worded apart from it; a
/// failed spawn carries the spawn error's rendering.
pub open spec fn spec_abort_message(flags: Flags, s: State, i: Input) -> Seq<char> {
    match s {
        State::Start => spec_config_error_message(spec_config_error(flags)),
        State::SourceFetch => match i {
            Input::Finished(ProcessOutcome::Exited(code)) => "updating submodules failed with error code "@
                + spec_decimal_int(code as int),
            Input::Finished(ProcessOutcome::Killed) => "updating submodules exited with no error code, possibly killed by system, exiting."@,
            Input::Finished(ProcessOutcome::SpawnFailed(e)) => "updating submodules failed with error: "@
                + e@,
            _ => spec_default_abort_message(),
        },
        State::ProbeCompiler => match i {
            Input::Finished(ProcessOutcome::Exited(code)) => "compiler check failed with error code "@
                + spec_decimal_int(code as int),
            Input::Finished(ProcessOutcome::Killed) => "compiler check exited with no error code, possibly killed by system"@,
            Input::Finished(ProcessOutcome::SpawnFailed(e)) => "compiler check failed with error: "@
                + e@,
            _ => spec_default_abort_message(),
        },
        State::ProbeLinker => match i {
            Input::Finished(ProcessOutcome::Killed) => "linker check exited with no error code, possibly killed by system"@,
            Input::Finished(ProcessOutcome::SpawnFailed(e)) => "linker check failed with error: "@
                + e@,
            _ => spec_default_abort_message(),
        },
        State::LibraryBuild => match i {
            Input::Captured(CapturedOutcome::Completed { stdout, stderr, .. }) => spec_build_failure_message(
                stdout@,
                stderr@,
            ),
            Input::Captured(CapturedOutcome::SpawnFailed(e)) => "failed to run the hardened_malloc build: "@
                + e@,
            _ => spec_default_abort_message(),
        },
        State::StaticArchive => match i {
            Input::Captured(CapturedOutcome::Completed { stdout, stderr, .. }) => spec_archive_failure_message(
                stdout@,
                stderr@,
            ),
            Input::Captured(CapturedOutcome::SpawnFailed(e)) => "failed to run the archiver: "@
                + e@,
            _ => spec_default_abort_message(),
        },
        _ => spec_default_abort_message(),
    }
}

/// The wording for a fatal transition out of a state and answer that carry
/// no failure detail of their own.
pub open spec fn spec_default_abort_message() -> Seq<char> {
    "build aborted"@
}

/// The message a fatal transition reports: to be raised by the surrounding
/// shell when a step of the machine lands in the fatal state, over the
/// state that was stepped and the answer that was consumed.
pub fn abort_message(flags: Flags, s: &State, input: &Input) -> (m: String)
    ensures
        m@ == spec_abort_message(flags, *s, *input),
{
    match s {
        State::Start => {
            let e = if flags.gcc && flags.clang {
                ConfigError::CompilerConflict
            } else if !flags.gcc && !flags.clang {
                ConfigError::CompilerMissing
            } else if flags.static_link && flags.dynamic_link {
                ConfigError::LinkModeConflict
            } else {
                ConfigError::VariantConflict
            };
            String::from_str(config_error_message(e))
        },
        State::SourceFetch => match input {
            Input::Finished(ProcessOutcome::Exited(code)) => {
                let rendered = decimal_i32(*code);
                String::from_str("updating submodules failed with error code ").concat(
                    rendered.as_str(),
                )
            },
            Input::Finished(ProcessOutcome::Killed) => String::from_str(
                "updating submodules exited with no error code, possibly killed by system, exiting.",
            ),
            Input::Finished(ProcessOutcome::SpawnFailed(e)) => String::from_str(
                "updating submodules failed with error: ",
            ).concat(e.as_str()),
            _ => String::from_str("build aborted"),
        },
        State::ProbeCompiler => match input {
            Input::Finished(ProcessOutcome::Exited(code)) => {
                let rendered = decimal_i32(*code);
                String::from_str("compiler check failed with error code ").concat(rendered.as_str())
            },
            Input::Finished(ProcessOutcome::Killed) => String::from_str(
                "compiler check exited with no error code, possibly killed by system",
            ),
            Input::Finished(ProcessOutcome::SpawnFailed(e)) => String::from_str(
                "compiler check failed with error: ",
            ).concat(e.as_str()),
            _ => String::from_str("build aborted"),
        },
        State::ProbeLinker => match input {
            Input::Finished(ProcessOutcome::Killed) => String::from_str(
                "linker check exited with no error code, possibly killed by system",
            ),
            Input::Finished(ProcessOutcome::SpawnFailed(e)) => String::from_str(
                "linker check failed with error: ",
            ).concat(e.as_str()),
            _ => String::from_str("build aborted"),
        },
        State::LibraryBuild => match input {
            Input::Captured(CapturedOutcome::Completed { stdout, stderr, .. }) => {
                build_failure_message(stdout.as_str(), stderr.as_str())
            },
            Input::Captured(CapturedOutcome::SpawnFailed(e)) => String::from_str(
                "failed to run the hardened_malloc build: ",
            ).concat(e.as_str()),
            _ => String::from_str("build aborted"),
        },
        State::StaticArchive => match input {
            Input::Captured(CapturedOutcome::Completed { stdout, stderr, .. }) => {
                archive_failure_message(stdout.as_str(), stderr.as_str())
            },
            Input::Captured(CapturedOutcome::SpawnFailed(e)) => String::from_str(
                "failed to run the archiver: ",
            ).concat(e.as_str()),
            _ => String::from_str("build aborted"),
        },
        _ => String::from_str("build aborted"),
    }
}

} // verus!
