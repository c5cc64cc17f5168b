use crate::commands::{spec_archive_file_name, spec_link_directives, DirectiveKind, DirectiveModel};
use crate::config::{spec_flags_conflict, spec_library_name, spec_link_mode, Flags, LinkMode, Variant};
use crate::machine::{
    input_fits, lemma_run_states_index, next_state, run_states, CapturedOutcome, Input, State,
};
use crate::messages::{
    spec_abort_message, spec_archive_failure_message, spec_build_failure_message,
};
use crate::target::TargetFamily;
use crate::text::{spec_contains, spec_ends_with};
use vstd::prelude::*;

verus! {

/// A run of the orchestration on a contradictory flag selection never
/// leaves the starting state except for the fatal state: configuration
/// conflicts fail before any external process — no fetch, no probe, no
/// build — is as much as requested.
pub proof fn lemma_conflict_spawns_nothing(flags: Flags, inputs: Seq<Input>)
    requires
        spec_flags_conflict(flags),
    ensures
        forall|k: int|
            0 <= k < run_states(flags, State::Start, inputs).len() ==> (#[trigger] run_states(
                flags,
                State::Start,
                inputs,
            )[k] == State::Start || run_states(flags, State::Start, inputs)[k]
                == State::FatalAbort),
{
    lemma_conflict_stays(flags, State::Start, inputs);
}

proof fn lemma_conflict_stays(flags: Flags, s: State, inputs: Seq<Input>)
    requires
        spec_flags_conflict(flags),
        s == State::Start || s == State::FatalAbort,
    ensures
        forall|k: int|
            0 <= k < run_states(flags, s, inputs).len() ==> (#[trigger] run_states(
                flags,
                s,
                inputs,
            )[k] == State::Start || run_states(flags, s, inputs)[k] == State::FatalAbort),
    decreases inputs.len(),
{
    if inputs.len() > 0 {
        let next = next_state(flags, s, inputs[0]);
        lemma_conflict_stays(flags, next, inputs.drop_first());
        let run = run_states(flags, s, inputs);
        let tail = run_states(flags, next, inputs.drop_first());
        assert forall|k: int| 0 <= k < run.len() implies (#[trigger] run[k] == State::Start
            || run[k] == State::FatalAbort) by {
            if k > 0 {
                assert(run[k] == tail[k - 1]);
            }
        }
    }
}

/// A run whose one source check is answered `present` never enters the
/// fetch state: with the build descriptor file already there, no source
/// fetch is invoked.
pub proof fn lemma_source_present_never_fetches(flags: Flags, inputs: Seq<Input>)
    requires
        forall|j: int|
            0 <= j < inputs.len() && #[trigger] run_states(flags, State::Start, inputs)[j]
                == State::SourceCheck ==> inputs[j] == Input::SourcePresent(true),
    ensures
        forall|k: int|
            0 <= k < run_states(flags, State::Start, inputs).len() ==> #[trigger] run_states(
                flags,
                State::Start,
                inputs,
            )[k] != State::SourceFetch,
{
    let run = run_states(flags, State::Start, inputs);
    lemma_run_states_index(flags, State::Start, inputs);
    assert forall|k: int| 0 <= k < run.len() implies #[trigger] run[k] != State::SourceFetch by {
        lemma_no_fetch_upto(flags, inputs, k);
    }
}

proof fn lemma_no_fetch_upto(flags: Flags, inputs: Seq<Input>, k: int)
    requires
        forall|j: int|
            0 <= j < inputs.len() && #[trigger] run_states(flags, State::Start, inputs)[j]
                == State::SourceCheck ==> inputs[j] == Input::SourcePresent(true),
        0 <= k < run_states(flags, State::Start, inputs).len(),
    ensures
        run_states(flags, State::Start, inputs)[k] != State::SourceFetch,
    decreases k,
{
    lemma_run_states_index(flags, State::Start, inputs);
    let run = run_states(flags, State::Start, inputs);
    if k > 0 {
        lemma_no_fetch_upto(flags, inputs, k - 1);
        assert(run[k] == next_state(flags, run[k - 1], inputs[k - 1]));
        if run[k - 1] == State::SourceCheck {
            assert(inputs[k - 1] == Input::SourcePresent(true));
        }
    }
}

/// The states that lie strictly after the fetch opportunity: once a run is
/// in one of them it stays among them, whatever is answered.
pub open spec fn past_fetch(s: State) -> bool {
    ||| s is ProbeCompiler
    ||| s is ProbeLinker
    ||| s is ConfigResolve
    ||| s is LibraryBuild
    ||| s is StaticArchive
    ||| s is LinkEmit
    ||| s is Done
    ||| s is FatalAbort
}

proof fn lemma_past_fetch_step(flags: Flags, s: State, i: Input)
    requires
        past_fetch(s),
    ensures
        past_fetch(next_state(flags, s, i)),
{
}

#[verifier::rlimit(50)]
proof fn lemma_past_fetch_stays(flags: Flags, inputs: Seq<Input>, k0: int, k: int)
    requires
        0 <= k0 <= k < run_states(flags, State::Start, inputs).len(),
        past_fetch(run_states(flags, State::Start, inputs)[k0]),
    ensures
        past_fetch(run_states(flags, State::Start, inputs)[k]),
    decreases k - k0,
{
    lemma_run_states_index(flags, State::Start, inputs);
    if k > k0 {
        lemma_past_fetch_stays(flags, inputs, k0, k - 1);
        let run = run_states(flags, State::Start, inputs);
        assert(run[k] == next_state(flags, run[k - 1], inputs[k - 1]));
        lemma_past_fetch_step(flags, run[k - 1], inputs[k - 1]);
    }
}

/// A run on an admissible flag selection whose source check is answered
/// `absent`, and whose answers fit the actions asked for, performs exactly
/// one source fetch — at its third position — and reaches any compiler
/// probe only after it.
pub proof fn lemma_source_absent_fetches_once(flags: Flags, inputs: Seq<Input>)
    requires
        !spec_flags_conflict(flags),
        inputs.len() >= 2,
        forall|j: int|
            0 <= j < inputs.len() ==> input_fits(
                #[trigger] run_states(flags, State::Start, inputs)[j],
                inputs[j],
            ),
        inputs[1] == Input::SourcePresent(false),
    ensures
        run_states(flags, State::Start, inputs)[2] == State::SourceFetch,
        forall|k: int|
            0 <= k < run_states(flags, State::Start, inputs).len() && #[trigger] run_states(
                flags,
                State::Start,
                inputs,
            )[k] == State::SourceFetch ==> k == 2,
        forall|k: int|
            0 <= k < run_states(flags, State::Start, inputs).len() && #[trigger] run_states(
                flags,
                State::Start,
                inputs,
            )[k] == State::ProbeCompiler ==> k > 2,
{
    lemma_run_states_index(flags, State::Start, inputs);
    let run = run_states(flags, State::Start, inputs);
    assert(input_fits(run[0], inputs[0]));
    assert(run[1] == State::SourceCheck);
    assert(run[2] == State::SourceFetch);
    assert forall|k: int| 0 <= k < run.len() && #[trigger] run[k] == State::SourceFetch implies k
        == 2 by {
        if k >= 3 {
            assert(input_fits(run[2], inputs[2]));
            assert(past_fetch(run[3]));
            lemma_past_fetch_stays(flags, inputs, 3, k);
        }
    }
    assert forall|k: int| 0 <= k < run.len() && #[trigger] run[k] == State::ProbeCompiler implies k
        > 2 by {}
}

/// Under a static-link configuration, the linkage emission always pairs
/// with a prior successful archiver invocation: every position at the
/// emission state is preceded by one at the archive state whose answer
/// reported success.
pub proof fn lemma_static_emit_needs_archive(flags: Flags, inputs: Seq<Input>)
    requires
        spec_link_mode(flags) == Some(LinkMode::Static),
    ensures
        forall|k: int|
            0 <= k < run_states(flags, State::Start, inputs).len() && #[trigger] run_states(
                flags,
                State::Start,
                inputs,
            )[k] == State::LinkEmit ==> exists|j: int|
                0 <= j < k && #[trigger] run_states(flags, State::Start, inputs)[j]
                    == State::StaticArchive && (inputs[j] matches Input::Captured(
                    CapturedOutcome::Completed { success: true, .. },
                )),
{
    let run = run_states(flags, State::Start, inputs);
    assert forall|k: int| 0 <= k < run.len() && #[trigger] run[k] == State::LinkEmit implies exists|
        j: int,
    |
        0 <= j < k && #[trigger] run[j] == State::StaticArchive && (inputs[j]
            matches Input::Captured(CapturedOutcome::Completed { success: true, .. })) by {
        lemma_emit_preceded(flags, inputs, k);
    }
}

proof fn lemma_emit_preceded(flags: Flags, inputs: Seq<Input>, k: int)
    requires
        spec_link_mode(flags) == Some(LinkMode::Static),
        0 <= k < run_states(flags, State::Start, inputs).len(),
        run_states(flags, State::Start, inputs)[k] == State::LinkEmit,
    ensures
        exists|j: int|
            0 <= j < k && #[trigger] run_states(flags, State::Start, inputs)[j]
                == State::StaticArchive && (inputs[j] matches Input::Captured(
                CapturedOutcome::Completed { success: true, .. },
            )),
    decreases k,
{
    lemma_run_states_index(flags, State::Start, inputs);
    let run = run_states(flags, State::Start, inputs);
    assert(k > 0);
    assert(run[k] == next_state(flags, run[k - 1], inputs[k - 1]));
    if run[k - 1] == State::StaticArchive {
        assert(run[k - 1] == State::StaticArchive && (inputs[k - 1] matches Input::Captured(
            CapturedOutcome::Completed { success: true, .. },
        )));
    } else {
        assert(run[k - 1] == State::LinkEmit);
        lemma_emit_preceded(flags, inputs, k - 1);
        let j = choose|j: int|
            0 <= j < k - 1 && #[trigger] run[j] == State::StaticArchive && (inputs[j]
                matches Input::Captured(CapturedOutcome::Completed { success: true, .. }));
        assert(0 <= j < k && run[j] == State::StaticArchive && (inputs[j] matches Input::Captured(
            CapturedOutcome::Completed { success: true, .. },
        )));
    }
}

/// Under a dynamic-link configuration on the Linux family, the emitted
/// directives carry the GNU C++ standard runtime as a dynamic dependency:
/// the external library's objects may need it despite the C interface.
pub proof fn lemma_dynamic_linux_carries_cxx_runtime(v: Variant, out_dir: Seq<char>)
    ensures
        exists|i: int|
            0 <= i < spec_link_directives(
                Some(LinkMode::Dynamic),
                v,
                TargetFamily::Linux,
                out_dir,
            ).len() && #[trigger] spec_link_directives(
                Some(LinkMode::Dynamic),
                v,
                TargetFamily::Linux,
                out_dir,
            )[i] == (DirectiveModel { kind: DirectiveKind::LinkDylib, name: "stdc++"@ }),
{
    let dirs = spec_link_directives(Some(LinkMode::Dynamic), v, TargetFamily::Linux, out_dir);
    assert(dirs[0] == (DirectiveModel { kind: DirectiveKind::LinkDylib, name: "stdc++"@ }));
}

/// When the external library build fails with captured output, the abort
/// message carries both captured streams verbatim.
pub proof fn lemma_build_abort_message_verbatim(
    flags: Flags,
    success: bool,
    stdout: String,
    stderr: String,
)
    ensures
        spec_contains(
            spec_abort_message(
                flags,
                State::LibraryBuild,
                Input::Captured(CapturedOutcome::Completed { success, stdout, stderr }),
            ),
            stdout@,
        ),
        spec_contains(
            spec_abort_message(
                flags,
                State::LibraryBuild,
                Input::Captured(CapturedOutcome::Completed { success, stdout, stderr }),
            ),
            stderr@,
        ),
{
    lemma_failure_message_verbatim(
        "building hardened_malloc failed:\n"@,
        stdout@,
        stderr@,
        spec_build_failure_message(stdout@, stderr@),
    );
}

/// When the archiver fails with captured output, the abort message carries
/// both captured streams verbatim.
pub proof fn lemma_archive_abort_message_verbatim(
    flags: Flags,
    success: bool,
    stdout: String,
    stderr: String,
)
    ensures
        spec_contains(
            spec_abort_message(
                flags,
                State::StaticArchive,
                Input::Captured(CapturedOutcome::Completed { success, stdout, stderr }),
            ),
            stdout@,
        ),
        spec_contains(
            spec_abort_message(
                flags,
                State::StaticArchive,
                Input::Captured(CapturedOutcome::Completed { success, stdout, stderr }),
            ),
            stderr@,
        ),
{
    lemma_failure_message_verbatim(
        "creating static lib of hardened_malloc failed:\n"@,
        stdout@,
        stderr@,
        spec_archive_failure_message(stdout@, stderr@),
    );
}

proof fn lemma_failure_message_verbatim(head: Seq<char>, out: Seq<char>, err: Seq<char>, m: Seq<char>)
    requires
        m == head + out + "\n"@ + err,
    ensures
        spec_contains(m, out),
        spec_contains(m, err),
{
    let i = head.len() as int;
    assert(m.subrange(i, i + out.len()) =~= out);
    let j = (head + out + "\n"@).len() as int;
    assert(m.subrange(j, j + err.len()) =~= err);
}

/// Variant naming: the light profile, and only it, suffixes the library
/// name and the static archive's file name with the light marker; and every
/// library name a linkage directive carries — leaving aside search paths
/// and the two C++ runtime names — is the variant-qualified one.
pub proof fn lemma_variant_naming(
    v: Variant,
    link: Option<LinkMode>,
    f: TargetFamily,
    out_dir: Seq<char>,
)
    ensures
        spec_ends_with(spec_library_name(v), "-light"@) <==> v is Light,
        spec_ends_with(spec_archive_file_name(v), "-light.a"@) <==> v is Light,
        forall|i: int|
            0 <= i < spec_link_directives(link, v, f, out_dir).len() && (#[trigger]
            spec_link_directives(link, v, f, out_dir)[i]).kind != DirectiveKind::SearchPath
                && spec_link_directives(link, v, f, out_dir)[i].name != "c++"@
                && spec_link_directives(link, v, f, out_dir)[i].name != "stdc++"@
                ==> spec_link_directives(link, v, f, out_dir)[i].name == spec_library_name(v),
{
    reveal_strlit("hardened_malloc");
    reveal_strlit("hardened_malloc-light");
    reveal_strlit("-light");
    reveal_strlit("-light.a");
    reveal_strlit("lib");
    reveal_strlit(".a");
    match v {
        Variant::Light => {
            let nm = "hardened_malloc-light"@;
            assert(nm.subrange(nm.len() - 6, nm.len() as int) =~= "-light"@);
            let arch = "lib"@ + nm + ".a"@;
            assert(spec_archive_file_name(v) == arch);
            assert(arch.subrange(arch.len() - 8, arch.len() as int) =~= "-light.a"@);
        },
        Variant::Standard => {
            let nm = "hardened_malloc"@;
            if spec_ends_with(nm, "-light"@) {
                assert(nm.subrange(nm.len() - 6, nm.len() as int)[0] == nm[9]);
                assert(false);
            }
            let arch = "lib"@ + nm + ".a"@;
            assert(spec_archive_file_name(v) == arch);
            if spec_ends_with(arch, "-light.a"@) {
                assert(arch.subrange(arch.len() - 8, arch.len() as int)[0] == arch[12]);
                assert(arch[12] == nm[9]);
                assert(false);
            }
        },
    }
}

} // verus!
