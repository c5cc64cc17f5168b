use crate::text::{contains_sub, spec_contains};
use vstd::prelude::*;

verus! {

/// The platform families the linkage step tells apart, read off the target
/// triple. The first three need the LLVM C++ runtime beside a dynamically
/// linked library, the Linux family needs the GNU one, and any other family
/// needs none.
#[derive(Clone, Copy, Debug, PartialEq, Eq, Structural)]
pub enum TargetFamily {
    Apple,
    Freebsd,
    Openbsd,
    Linux,
    Other,
}

/// The family a target triple falls in: the same substring tests, in the
/// same order, as the executable classification applies.
pub open spec fn spec_classify(t: Seq<char>) -> TargetFamily {
    if spec_contains(t, "apple"@) {
        TargetFamily::Apple
    } else if spec_contains(t, "freebsd"@) {
        TargetFamily::Freebsd
    } else if spec_contains(t, "openbsd"@) {
        TargetFamily::Openbsd
    } else if spec_contains(t, "linux"@) {
        TargetFamily::Linux
    } else {
        TargetFamily::Other
    }
}

/// Reads the platform family off a target triple.
pub fn classify_target(target: &str) -> (f: TargetFamily)
    ensures
        f == spec_classify(target@),
{
    if contains_sub(target, "apple") {
        TargetFamily::Apple
    } else if contains_sub(target, "freebsd") {
        TargetFamily::Freebsd
    } else if contains_sub(target, "openbsd") {
        TargetFamily::Openbsd
    } else if contains_sub(target, "linux") {
        TargetFamily::Linux
    } else {
        TargetFamily::Other
    }
}

/// The C++ standard runtime a dynamically linked library needs beside it on
/// this family, if any: the external library's object files may hold C++
/// runtime references despite the C interface.
pub open spec fn spec_cxx_runtime(f: TargetFamily) -> Option<Seq<char>> {
    match f {
        TargetFamily::Apple => Some("c++"@),
        TargetFamily::Freebsd => Some("c++"@),
        TargetFamily::Openbsd => Some("c++"@),
        TargetFamily::Linux => Some("stdc++"@),
        TargetFamily::Other => None,
    }
}

} // verus!
