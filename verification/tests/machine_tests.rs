use hardened_malloc_sys::{
    abort_message, action_of, build_failure_message, config_error_message, is_terminal, step,
    Action, CapturedOutcome, ConfigError, Flags, Input, ProcessOutcome, State, TargetFamily,
};

fn gcc_dynamic() -> Flags {
    Flags {
        gcc: true,
        clang: false,
        static_link: false,
        dynamic_link: true,
        light: false,
        standard: true,
    }
}

fn gcc_static() -> Flags {
    Flags {
        gcc: true,
        clang: false,
        static_link: true,
        dynamic_link: false,
        light: false,
        standard: false,
    }
}

fn completed(success: bool, stdout: &str, stderr: &str) -> Input {
    Input::Captured(CapturedOutcome::Completed {
        success,
        stdout: stdout.to_string(),
        stderr: stderr.to_string(),
    })
}

#[test]
fn conflicting_flags_abort_at_the_start() {
    let flags = Flags {
        gcc: true,
        clang: true,
        static_link: true,
        dynamic_link: false,
        light: false,
        standard: true,
    };
    let next = step(flags, State::Start, &Input::Ready);
    assert_eq!(next, State::FatalAbort);
    assert!(is_terminal(next));
    assert_eq!(
        abort_message(flags, &State::Start, &Input::Ready),
        "gcc OR clang compiler must be enabled, not both."
    );
}

#[test]
fn missing_compiler_aborts_at_the_start() {
    let flags = Flags {
        gcc: false,
        clang: false,
        static_link: true,
        dynamic_link: false,
        light: true,
        standard: false,
    };
    assert_eq!(step(flags, State::Start, &Input::Ready), State::FatalAbort);
    assert_eq!(
        abort_message(flags, &State::Start, &Input::Ready),
        "one of the gcc and clang compiler features must be enabled."
    );
}

#[test]
fn present_source_skips_the_fetch() {
    let flags = gcc_dynamic();
    let mut visited = vec![State::Start];
    let mut state = step(flags, State::Start, &Input::Ready);
    visited.push(state);
    state = step(flags, state, &Input::SourcePresent(true));
    visited.push(state);
    assert_eq!(visited, vec![State::Start, State::SourceCheck, State::ProbeCompiler]);
    assert!(!visited.contains(&State::SourceFetch));
}

#[test]
fn absent_source_fetches_once_before_the_compiler_probe() {
    let flags = gcc_dynamic();
    let mut visited = vec![State::Start];
    let mut state = step(flags, State::Start, &Input::Ready);
    visited.push(state);
    state = step(flags, state, &Input::SourcePresent(false));
    visited.push(state);
    state = step(flags, state, &Input::Finished(ProcessOutcome::Exited(0)));
    visited.push(state);
    assert_eq!(
        visited,
        vec![State::Start, State::SourceCheck, State::SourceFetch, State::ProbeCompiler]
    );
    let fetches = visited.iter().filter(|s| **s == State::SourceFetch).count();
    assert_eq!(fetches, 1);
    let fetch_at = visited.iter().position(|s| *s == State::SourceFetch).unwrap();
    let probe_at = visited.iter().position(|s| *s == State::ProbeCompiler).unwrap();
    assert!(fetch_at < probe_at);
}

#[test]
fn dynamic_build_runs_to_done_without_archiving() {
    let flags = gcc_dynamic();
    let mut state = State::Start;
    let script: Vec<Input> = vec![
        Input::Ready,
        Input::SourcePresent(true),
        Input::Finished(ProcessOutcome::Exited(0)),
        Input::Finished(ProcessOutcome::Exited(1)),
        Input::Ready,
        completed(true, "", ""),
        Input::Ready,
    ];
    let mut visited = vec![state];
    for input in &script {
        state = step(flags, state, input);
        visited.push(state);
    }
    assert_eq!(
        visited,
        vec![
            State::Start,
            State::SourceCheck,
            State::ProbeCompiler,
            State::ProbeLinker,
            State::ConfigResolve,
            State::LibraryBuild,
            State::LinkEmit,
            State::Done,
        ]
    );
    assert!(!visited.contains(&State::StaticArchive));
}

#[test]
fn static_build_archives_before_emitting() {
    let flags = gcc_static();
    let mut state = State::Start;
    let script: Vec<Input> = vec![
        Input::Ready,
        Input::SourcePresent(true),
        Input::Finished(ProcessOutcome::Exited(0)),
        Input::Finished(ProcessOutcome::Exited(0)),
        Input::Ready,
        completed(true, "", ""),
        completed(true, "", ""),
        Input::Ready,
    ];
    let mut visited = vec![state];
    for input in &script {
        state = step(flags, state, input);
        visited.push(state);
    }
    let archive_at = visited.iter().position(|s| *s == State::StaticArchive).unwrap();
    let emit_at = visited.iter().position(|s| *s == State::LinkEmit).unwrap();
    assert!(archive_at < emit_at);
    assert_eq!(*visited.last().unwrap(), State::Done);
}

#[test]
fn linker_probe_tolerates_a_nonzero_exit() {
    let flags = gcc_dynamic();
    let next = step(flags, State::ProbeLinker, &Input::Finished(ProcessOutcome::Exited(1)));
    assert_eq!(next, State::ConfigResolve);
    let next = step(flags, State::ProbeLinker, &Input::Finished(ProcessOutcome::Exited(3)));
    assert_eq!(next, State::ConfigResolve);
}

#[test]
fn linker_probe_killed_is_fatal() {
    let flags = gcc_dynamic();
    let next = step(flags, State::ProbeLinker, &Input::Finished(ProcessOutcome::Killed));
    assert_eq!(next, State::FatalAbort);
    assert_eq!(
        abort_message(flags, &State::ProbeLinker, &Input::Finished(ProcessOutcome::Killed)),
        "linker check exited with no error code, possibly killed by system"
    );
}

#[test]
fn compiler_probe_requires_a_zero_exit() {
    let flags = gcc_dynamic();
    let input = Input::Finished(ProcessOutcome::Exited(2));
    assert_eq!(step(flags, State::ProbeCompiler, &input), State::FatalAbort);
    assert_eq!(
        abort_message(flags, &State::ProbeCompiler, &input),
        "compiler check failed with error code 2"
    );
}

#[test]
fn fetch_failure_names_the_exit_code() {
    let flags = gcc_dynamic();
    let input = Input::Finished(ProcessOutcome::Exited(128));
    assert_eq!(step(flags, State::SourceFetch, &input), State::FatalAbort);
    assert_eq!(
        abort_message(flags, &State::SourceFetch, &input),
        "updating submodules failed with error code 128"
    );
}

#[test]
fn fetch_killed_is_worded_apart_from_a_clean_failure() {
    let flags = gcc_dynamic();
    let input = Input::Finished(ProcessOutcome::Killed);
    assert_eq!(step(flags, State::SourceFetch, &input), State::FatalAbort);
    assert_eq!(
        abort_message(flags, &State::SourceFetch, &input),
        "updating submodules exited with no error code, possibly killed by system, exiting."
    );
}

#[test]
fn spawn_failure_carries_the_spawn_error() {
    let flags = gcc_dynamic();
    let input = Input::Finished(ProcessOutcome::SpawnFailed("no such file".to_string()));
    assert_eq!(step(flags, State::SourceFetch, &input), State::FatalAbort);
    assert_eq!(
        abort_message(flags, &State::SourceFetch, &input),
        "updating submodules failed with error: no such file"
    );
}

#[test]
fn build_failure_message_carries_both_streams_verbatim() {
    let flags = gcc_dynamic();
    let input = completed(false, "compile log line", "fatal error: oh no");
    assert_eq!(step(flags, State::LibraryBuild, &input), State::FatalAbort);
    let message = abort_message(flags, &State::LibraryBuild, &input);
    assert!(message.contains("compile log line"));
    assert!(message.contains("fatal error: oh no"));
    assert_eq!(
        build_failure_message("compile log line", "fatal error: oh no"),
        "building hardened_malloc failed:\ncompile log line\nfatal error: oh no"
    );
}

#[test]
fn archive_failure_message_carries_both_streams_verbatim() {
    let flags = gcc_static();
    let input = completed(false, "ar chatter", "missing new.o");
    assert_eq!(step(flags, State::StaticArchive, &input), State::FatalAbort);
    let message = abort_message(flags, &State::StaticArchive, &input);
    assert!(message.contains("ar chatter"));
    assert!(message.contains("missing new.o"));
}

#[test]
fn config_error_messages_are_pinned() {
    assert_eq!(
        config_error_message(ConfigError::LinkModeConflict),
        "static OR dynamic linking must be enabled, not both."
    );
    assert_eq!(
        config_error_message(ConfigError::VariantConflict),
        "light OR standard variant must be enabled, not both."
    );
}

#[test]
fn actions_hand_the_shell_everything_it_performs() {
    let flags = gcc_static();
    let family = TargetFamily::Linux;
    match action_of(flags, family, "/o", State::Start) {
        Action::Proceed => {},
        other => panic!("unexpected action: {:?}", other),
    }
    match action_of(flags, family, "/o", State::SourceCheck) {
        Action::CheckSource { path } => assert_eq!(path, "src/hardened_malloc/Makefile"),
        other => panic!("unexpected action: {:?}", other),
    }
    match action_of(flags, family, "/o", State::SourceFetch) {
        Action::RunFetch { program, args } => {
            assert_eq!(program, "git");
            assert_eq!(args, vec!["submodule", "update", "--init", "--recursive"]);
        },
        other => panic!("unexpected action: {:?}", other),
    }
    match action_of(flags, family, "/o", State::ProbeCompiler) {
        Action::Probe { program, flag } => {
            assert_eq!(program, "gcc");
            assert_eq!(flag, "--version");
        },
        other => panic!("unexpected action: {:?}", other),
    }
    match action_of(flags, family, "/o", State::ProbeLinker) {
        Action::Probe { program, flag } => {
            assert_eq!(program, "ld");
            assert_eq!(flag, "--version");
        },
        other => panic!("unexpected action: {:?}", other),
    }
    match action_of(flags, family, "/o", State::LibraryBuild) {
        Action::RunBuild { dir, program, args } => {
            assert_eq!(dir, "src/hardened_malloc/");
            assert_eq!(program, "make");
            assert_eq!(args, vec!["VARIANT=default", "V=1", "OUT=/o", "CC=gcc"]);
        },
        other => panic!("unexpected action: {:?}", other),
    }
    match action_of(flags, family, "/o", State::StaticArchive) {
        Action::RunArchive { program, args } => {
            assert_eq!(program, "ar");
            assert_eq!(args[0], "rcs");
            assert_eq!(args[1], "/o/libhardened_malloc.a");
        },
        other => panic!("unexpected action: {:?}", other),
    }
    match action_of(flags, family, "/o", State::LinkEmit) {
        Action::EmitDirectives { directives } => assert_eq!(directives.len(), 2),
        other => panic!("unexpected action: {:?}", other),
    }
    match action_of(flags, family, "/o", State::Done) {
        Action::Finished => {},
        other => panic!("unexpected action: {:?}", other),
    }
    match action_of(flags, family, "/o", State::FatalAbort) {
        Action::Aborted => {},
        other => panic!("unexpected action: {:?}", other),
    }
}

#[test]
fn an_answer_of_the_wrong_shape_moves_nothing() {
    let flags = gcc_dynamic();
    assert_eq!(step(flags, State::SourceCheck, &Input::Ready), State::SourceCheck);
    assert_eq!(
        step(flags, State::LibraryBuild, &Input::Finished(ProcessOutcome::Exited(0))),
        State::LibraryBuild
    );
}

#[test]
fn terminal_states_stay_terminal() {
    let flags = gcc_dynamic();
    assert_eq!(step(flags, State::Done, &Input::Ready), State::Done);
    assert_eq!(step(flags, State::FatalAbort, &Input::Ready), State::FatalAbort);
    assert!(is_terminal(State::Done));
    assert!(is_terminal(State::FatalAbort));
    assert!(!is_terminal(State::LibraryBuild));
}
