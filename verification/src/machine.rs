use crate::commands::{
    archive_args, build_args, descriptor_path, fetch_args, fetch_program, link_directives,
    models_of, probe_flag, source_dir, spec_archive_args, spec_build_args, spec_descriptor_path,
    spec_fetch_args, spec_link_directives, spec_source_dir, Directive,
};
use crate::config::{
    compiler_name, config_of, spec_compiler, spec_compiler_name, spec_config,
    spec_flags_conflict, spec_link_mode, spec_variant, Flags, LinkMode,
};
use crate::target::TargetFamily;
use crate::text::views_of;
use vstd::prelude::*;
use vstd::string::*;

verus! {

/// One position in the build orchestration: the strictly sequential chain
/// from `Start` through source check and fetch, the two toolchain probes,
/// configuration resolution, the library build, the optional static
/// archive, and the linkage emission, to `Done` — with every position able
/// to fall to `FatalAbort`, from which nothing recovers.
#[derive(Clone, Copy, Debug, PartialEq, Eq, Structural)]
pub enum State {
    Start,
    SourceCheck,
    SourceFetch,
    ProbeCompiler,
    ProbeLinker,
    ConfigResolve,
    LibraryBuild,
    StaticArchive,
    LinkEmit,
    Done,
    FatalAbort,
}

/// What a status-only external invocation came back with: an exit code, a
/// termination without one (killed by the environment), or no process at
/// all (the spawn itself failed, with the error's rendering).
#[derive(Debug)]
pub enum ProcessOutcome {
    Exited(i32),
    Killed,
    SpawnFailed(String),
}

/// What an output-capturing external invocation came back with: a
/// completed process with its success bit and both captured streams, or no
/// process at all.
#[derive(Debug)]
pub enum CapturedOutcome {
    Completed { success: bool, stdout: String, stderr: String },
    SpawnFailed(String),
}

/// The observation one step of the machine consumes: the answer to the
/// action its current state asked for.
#[derive(Debug)]
pub enum Input {
    Ready,
    SourcePresent(bool),
    Finished(ProcessOutcome),
    Captured(CapturedOutcome),
}

/// What the surrounding shell must perform for the current state before it
/// can step the machine. Every payload is computed, and pinned by a
/// contract, here; the shell only carries it out.
#[derive(Debug)]
pub enum Action {
    /// Nothing external: answer with `Ready`.
    Proceed,
    /// Test whether the build descriptor file exists at this relative path;
    /// answer with `SourcePresent`.
    CheckSource { path: String },
    /// Run the source fetch; answer with `Finished`.
    RunFetch { program: String, args: Vec<String> },
    /// Run a toolchain probe; answer with `Finished`.
    Probe { program: String, flag: String },
    /// Run the external build tool in the source directory; answer with
    /// `Captured`.
    RunBuild { dir: String, program: String, args: Vec<String> },
    /// Run the archiver; answer with `Captured`.
    RunArchive { program: String, args: Vec<String> },
    /// Hand the linkage instructions to the host build system; answer with
    /// `Ready`.
    EmitDirectives { directives: Vec<Directive> },
    /// The build has failed; nothing is left to perform.
    Aborted,
    /// The build is complete; nothing is left to perform.
    Finished,
}

/// The transition relation of the orchestration. A state that is handed an
/// answer of the wrong shape stands still; the shell never produces one.
///
/// The probes are deliberately asymmetric: the compiler probe must exit
/// zero, while the linker probe tolerates any exit code — only a missing
/// exit code or a failed spawn is fatal there, the check being advisory.
pub open spec fn next_state(flags: Flags, s: State, i: Input) -> State {
    match s {
        State::Start => match i {
            Input::Ready => if spec_flags_conflict(flags) {
                State::FatalAbort
            } else {
                State::SourceCheck
            },
            _ => State::Start,
        },
        State::SourceCheck => match i {
            Input::SourcePresent(present) => if present {
                State::ProbeCompiler
            } else {
                State::SourceFetch
            },
            _ => State::SourceCheck,
        },
        State::SourceFetch => match i {
            Input::Finished(o) => match o {
                ProcessOutcome::Exited(code) => if code == 0 {
                    State::ProbeCompiler
                } else {
                    State::FatalAbort
                },
                _ => State::FatalAbort,
            },
            _ => State::SourceFetch,
        },
        State::ProbeCompiler => match i {
            Input::Finished(o) => match o {
                ProcessOutcome::Exited(code) => if code == 0 {
                    State::ProbeLinker
                } else {
                    State::FatalAbort
                },
                _ => State::FatalAbort,
            },
            _ => State::ProbeCompiler,
        },
        State::ProbeLinker => match i {
            Input::Finished(o) => match o {
                ProcessOutcome::Exited(_) => State::ConfigResolve,
                _ => State::FatalAbort,
            },
            _ => State::ProbeLinker,
        },
        State::ConfigResolve => match i {
            Input::Ready => State::LibraryBuild,
            _ => State::ConfigResolve,
        },
        State::LibraryBuild => match i {
            Input::Captured(o) => match o {
                CapturedOutcome::Completed { success, .. } => if success {
                    if spec_link_mode(flags) == Some(LinkMode::Static) {
                        State::StaticArchive
                    } else {
                        State::LinkEmit
                    }
                } else {
                    State::FatalAbort
                },
                _ => State::FatalAbort,
            },
            _ => State::LibraryBuild,
        },
        State::StaticArchive => match i {
            Input::Captured(o) => match o {
                CapturedOutcome::Completed { success, .. } => if success {
                    State::LinkEmit
                } else {
                    State::FatalAbort
                },
                _ => State::FatalAbort,
            },
            _ => State::StaticArchive,
        },
        State::LinkEmit => match i {
            Input::Ready => State::Done,
            _ => State::LinkEmit,
        },
        State::Done => State::Done,
        State::FatalAbort => State::FatalAbort,
    }
}

/// One step of the orchestration: consumes the answer to the current
/// state's action and moves to the next state.
pub fn step(flags: Flags, s: State, input: &Input) -> (next: State)
    ensures
        next == next_state(flags, s, *input),
{
    match s {
        State::Start => match input {
            Input::Ready => {
                let conflict = (flags.gcc && flags.clang) || (!flags.gcc && !flags.clang) || (
                flags.static_link && flags.dynamic_link) || (flags.light && flags.standard);
                if conflict {
                    State::FatalAbort
                } else {
                    State::SourceCheck
                }
            },
            _ => State::Start,
        },
        State::SourceCheck => match input {
            Input::SourcePresent(present) => if *present {
                State::ProbeCompiler
            } else {
                State::SourceFetch
            },
            _ => State::SourceCheck,
        },
        State::SourceFetch => match input {
            Input::Finished(ProcessOutcome::Exited(code)) => if *code == 0 {
                State::ProbeCompiler
            } else {
                State::FatalAbort
            },
            Input::Finished(_) => State::FatalAbort,
            _ => State::SourceFetch,
        },
        State::ProbeCompiler => match input {
            Input::Finished(ProcessOutcome::Exited(code)) => if *code == 0 {
                State::ProbeLinker
            } else {
                State::FatalAbort
            },
            Input::Finished(_) => State::FatalAbort,
            _ => State::ProbeCompiler,
        },
        State::ProbeLinker => match input {
            Input::Finished(ProcessOutcome::Exited(_)) => State::ConfigResolve,
            Input::Finished(_) => State::FatalAbort,
            _ => State::ProbeLinker,
        },
        State::ConfigResolve => match input {
            Input::Ready => State::LibraryBuild,
            _ => State::ConfigResolve,
        },
        State::LibraryBuild => match input {
            Input::Captured(CapturedOutcome::Completed { success, .. }) => if *success {
                if flags.static_link {
                    State::StaticArchive
                } else {
                    State::LinkEmit
                }
            } else {
                State::FatalAbort
            },
            Input::Captured(_) => State::FatalAbort,
            _ => State::LibraryBuild,
        },
        State::StaticArchive => match input {
            Input::Captured(CapturedOutcome::Completed { success, .. }) => if *success {
                State::LinkEmit
            } else {
                State::FatalAbort
            },
            Input::Captured(_) => State::FatalAbort,
            _ => State::StaticArchive,
        },
        State::LinkEmit => match input {
            Input::Ready => State::Done,
            _ => State::LinkEmit,
        },
        State::Done => State::Done,
        State::FatalAbort => State::FatalAbort,
    }
}

/// Whether the orchestration has nothing left to do.
pub fn is_terminal(s: State) -> (b: bool)
    ensures
        b == (s is Done || s is FatalAbort),
{
    match s {
        State::Done => true,
        State::FatalAbort => true,
        _ => false,
    }
}

/// The action the current state asks the surrounding shell to perform,
/// with every payload pinned: the descriptor path, the fetch command, the
/// probe commands, the build tool's and the archiver's argument lists, and
/// the linkage instructions.
pub fn action_of(flags: Flags, family: TargetFamily, out_dir: &str, s: State) -> (a: Action)
    ensures
        s is Start ==> a is Proceed,
        s is ConfigResolve ==> a is Proceed,
        s is SourceCheck ==> (a matches Action::CheckSource { path } && path@
            == spec_descriptor_path()),
        s is SourceFetch ==> (a matches Action::RunFetch { program, args } && program@ == "git"@
            && views_of(args@) == spec_fetch_args()),
        s is ProbeCompiler ==> (a matches Action::Probe { program, flag } && program@
            == spec_compiler_name(spec_compiler(flags)) && flag@ == "--version"@),
        s is ProbeLinker ==> (a matches Action::Probe { program, flag } && program@ == "ld"@
            && flag@ == "--version"@),
        s is LibraryBuild ==> (a matches Action::RunBuild { dir, program, args } && dir@
            == spec_source_dir() && program@ == "make"@ && views_of(args@) == spec_build_args(
            spec_config(flags),
            out_dir@,
        )),
        s is StaticArchive ==> (a matches Action::RunArchive { program, args } && program@ == "ar"@
            && views_of(args@) == spec_archive_args(spec_variant(flags), out_dir@)),
        s is LinkEmit ==> (a matches Action::EmitDirectives { directives } && models_of(directives@)
            == spec_link_directives(spec_link_mode(flags), spec_variant(flags), family, out_dir@)),
        s is Done ==> a is Finished,
        s is FatalAbort ==> a is Aborted,
{
    match s {
        State::Start => Action::Proceed,
        State::SourceCheck => Action::CheckSource { path: String::from_str(descriptor_path()) },
        State::SourceFetch => Action::RunFetch {
            program: String::from_str(fetch_program()),
            args: fetch_args(),
        },
        State::ProbeCompiler => Action::Probe {
            program: String::from_str(compiler_name(config_of(flags).compiler)),
            flag: String::from_str(probe_flag()),
        },
        State::ProbeLinker => Action::Probe {
            program: String::from_str("ld"),
            flag: String::from_str(probe_flag()),
        },
        State::ConfigResolve => Action::Proceed,
        State::LibraryBuild => Action::RunBuild {
            dir: String::from_str(source_dir()),
            program: String::from_str("make"),
            args: build_args(&config_of(flags), out_dir),
        },
        State::StaticArchive => Action::RunArchive {
            program: String::from_str("ar"),
            args: archive_args(config_of(flags).variant, out_dir),
        },
        State::LinkEmit => Action::EmitDirectives {
            directives: link_directives(&config_of(flags), family, out_dir),
        },
        State::Done => Action::Finished,
        State::FatalAbort => Action::Aborted,
    }
}

/// Whether an answer has the shape the state's action asks for. The
/// surrounding shell, answering each action as the `Action` variants
/// prescribe, only ever produces fitting answers.
pub open spec fn input_fits(s: State, i: Input) -> bool {
    match s {
        State::Start => i is Ready,
        State::ConfigResolve => i is Ready,
        State::LinkEmit => i is Ready,
        State::SourceCheck => i is SourcePresent,
        State::SourceFetch => i is Finished,
        State::ProbeCompiler => i is Finished,
        State::ProbeLinker => i is Finished,
        State::LibraryBuild => i is Captured,
        State::StaticArchive => i is Captured,
        State::Done => true,
        State::FatalAbort => true,
    }
}

/// The states a run visits, the starting state included: position `k + 1`
/// holds the state after consuming `inputs[k]`.
pub open spec fn run_states(flags: Flags, s: State, inputs: Seq<Input>) -> Seq<State>
    decreases inputs.len(),
{
    if inputs.len() == 0 {
        seq![s]
    } else {
        seq![s] + run_states(flags, next_state(flags, s, inputs[0]), inputs.drop_first())
    }
}

/// The shape of a run: one state more than there are inputs, starting at
/// `s`, each following state reached by the transition relation.
pub proof fn lemma_run_states_index(flags: Flags, s: State, inputs: Seq<Input>)
    ensures
        run_states(flags, s, inputs).len() == inputs.len() + 1,
        run_states(flags, s, inputs)[0] == s,
        forall|j: int|
            0 <= j < inputs.len() ==> run_states(flags, s, inputs)[j + 1] == next_state(
                flags,
                #[trigger] run_states(flags, s, inputs)[j],
                inputs[j],
            ),
    decreases inputs.len(),
{
    if inputs.len() > 0 {
        let next = next_state(flags, s, inputs[0]);
        lemma_run_states_index(flags, next, inputs.drop_first());
        let run = run_states(flags, s, inputs);
        let tail = run_states(flags, next, inputs.drop_first());
        assert forall|j: int| 0 <= j < inputs.len() implies run[j + 1] == next_state(
            flags,
            #[trigger] run[j],
            inputs[j],
        ) by {
            if j > 0 {
                assert(run[j] == tail[j - 1]);
                assert(run[j + 1] == tail[j]);
                assert(inputs[j] == inputs.drop_first()[j - 1]);
            }
        }
    }
}

} // verus!
