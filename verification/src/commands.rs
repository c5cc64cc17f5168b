use crate::config::{
    compiler_name, library_name, spec_compiler_name, spec_library_name, spec_variant_name,
    variant_name, BuildConfig, Compiler, LinkMode, Variant,
};
use crate::target::{spec_cxx_runtime, TargetFamily};
use crate::text::views_of;
use vstd::prelude::*;
use vstd::string::*;

verus! {

/// The relative path of the external library's build descriptor file: its
/// presence means the source tree is checked out and ready to build.
pub open spec fn spec_descriptor_path() -> Seq<char> {
    "src/hardened_malloc/Makefile"@
}

/// The relative path of the external library's build descriptor file.
pub fn descriptor_path() -> (r: &'static str)
    ensures
        r@ == spec_descriptor_path(),
{
    "src/hardened_malloc/Makefile"
}

/// The directory the external build tool runs in.
pub open spec fn spec_source_dir() -> Seq<char> {
    "src/hardened_malloc/"@
}

/// The directory the external build tool runs in.
pub fn source_dir() -> (r: &'static str)
    ensures
        r@ == spec_source_dir(),
{
    "src/hardened_malloc/"
}

/// The program that fetches the external library's sources when absent.
pub fn fetch_program() -> (r: &'static str)
    ensures
        r@ == "git"@,
{
    "git"
}

/// The arguments of the source fetch: a recursive submodule sync against
/// the pinned external source location.
pub open spec fn spec_fetch_args() -> Seq<Seq<char>> {
    seq!["submodule"@, "update"@, "--init"@, "--recursive"@]
}

/// The arguments of the source fetch.
pub fn fetch_args() -> (r: Vec<String>)
    ensures
        views_of(r@) == spec_fetch_args(),
{
    let mut args: Vec<String> = Vec::new();
    args.push(String::from_str("submodule"));
    args.push(String::from_str("update"));
    args.push(String::from_str("--init"));
    args.push(String::from_str("--recursive"));
    proof {
        assert(views_of(args@) =~~= spec_fetch_args());
    }
    args
}

/// The flag a toolchain probe invokes its program with.
pub fn probe_flag() -> (r: &'static str)
    ensures
        r@ == "--version"@,
{
    "--version"
}

/// The arguments handed to the external library's own build tool: the
/// variant selector, a static-configuration switch for the one compiler and
/// link-mode combination that takes it, the verbosity flag, the output
/// directory override and the compiler override, in that order.
pub open spec fn spec_build_args(c: BuildConfig, out_dir: Seq<char>) -> Seq<Seq<char>> {
    let head = seq!["VARIANT="@ + spec_variant_name(c.variant)];
    let tail = seq!["V=1"@, "OUT="@ + out_dir, "CC="@ + spec_compiler_name(c.compiler)];
    if c.compiler is Clang && c.link_mode == Some(LinkMode::Static) {
        head + seq!["CONFIG_STATIC=true"@] + tail
    } else {
        head + tail
    }
}

/// The arguments handed to the external library's own build tool.
pub fn build_args(c: &BuildConfig, out_dir: &str) -> (r: Vec<String>)
    ensures
        views_of(r@) == spec_build_args(*c, out_dir@),
{
    let clang_static = match (c.compiler, c.link_mode) {
        (Compiler::Clang, Some(LinkMode::Static)) => true,
        _ => false,
    };
    let mut args: Vec<String> = Vec::new();
    args.push(String::from_str("VARIANT=").concat(variant_name(c.variant)));
    if clang_static {
        args.push(String::from_str("CONFIG_STATIC=true"));
    }
    args.push(String::from_str("V=1"));
    args.push(String::from_str("OUT=").concat(out_dir));
    args.push(String::from_str("CC=").concat(compiler_name(c.compiler)));
    proof {
        assert(views_of(args@) =~~= spec_build_args(*c, out_dir@));
    }
    args
}

/// The file name of the static archive, variant-qualified.
pub open spec fn spec_archive_file_name(v: Variant) -> Seq<char> {
    "lib"@ + spec_library_name(v) + ".a"@
}

/// The file name of the static archive, variant-qualified.
pub fn archive_file_name(v: Variant) -> (r: String)
    ensures
        r@ == spec_archive_file_name(v),
{
    String::from_str("lib").concat(library_name(v)).concat(".a")
}

/// The object files the external library's build lays down in the output
/// directory, in the order the archiver bundles them. The list is a fixed
/// contract with the external source tree's layout, duplicate entry
/// included: a rename upstream breaks the archive step, which must then
/// fail loudly.
pub open spec fn spec_object_names() -> Seq<Seq<char>> {
    seq![
        "chacha.o"@,
        "h_malloc.o"@,
        "memory.o"@,
        "new.o"@,
        "pages.o"@,
        "random.o"@,
        "util.o"@,
        "new.o"@,
    ]
}

/// The arguments of the archiver invocation: create with a symbol table,
/// the archive path, then the enumerated object files.
pub open spec fn spec_archive_args(v: Variant, out_dir: Seq<char>) -> Seq<Seq<char>> {
    seq!["rcs"@, out_dir + "/"@ + spec_archive_file_name(v)]
        + spec_object_names().map_values(|o: Seq<char>| out_dir + "/"@ + o)
}

fn out_path(out_dir: &str, name: &str) -> (r: String)
    ensures
        r@ == out_dir@ + "/"@ + name@,
{
    String::from_str(out_dir).concat("/").concat(name)
}

/// The arguments of the archiver invocation.
pub fn archive_args(v: Variant, out_dir: &str) -> (r: Vec<String>)
    ensures
        views_of(r@) == spec_archive_args(v, out_dir@),
{
    let mut args: Vec<String> = Vec::new();
    args.push(String::from_str("rcs"));
    let archive = archive_file_name(v);
    args.push(out_path(out_dir, archive.as_str()));
    args.push(out_path(out_dir, "chacha.o"));
    args.push(out_path(out_dir, "h_malloc.o"));
    args.push(out_path(out_dir, "memory.o"));
    args.push(out_path(out_dir, "new.o"));
    args.push(out_path(out_dir, "pages.o"));
    args.push(out_path(out_dir, "random.o"));
    args.push(out_path(out_dir, "util.o"));
    args.push(out_path(out_dir, "new.o"));
    proof {
        assert(views_of(args@) =~~= spec_archive_args(v, out_dir@));
    }
    args
}

/// One linkage instruction for the host build system: where to search, or
/// what to link and how.
#[derive(Debug, PartialEq, Eq)]
pub enum Directive {
    SearchPath(String),
    LinkStatic(String),
    LinkDylib(String),
}

/// The kind of one linkage instruction.
#[derive(Clone, Copy, Debug, PartialEq, Eq, Structural)]
pub enum DirectiveKind {
    SearchPath,
    LinkStatic,
    LinkDylib,
}

/// A linkage instruction as the contracts see it: its kind and its payload,
/// a search path or a library name.
pub ghost struct DirectiveModel {
    pub kind: DirectiveKind,
    pub name: Seq<char>,
}

impl Directive {
    /// The kind and payload of this directive.
    pub open spec fn model(&self) -> DirectiveModel {
        match self {
            Directive::SearchPath(s) => DirectiveModel { kind: DirectiveKind::SearchPath, name: s@ },
            Directive::LinkStatic(s) => DirectiveModel { kind: DirectiveKind::LinkStatic, name: s@ },
            Directive::LinkDylib(s) => DirectiveModel { kind: DirectiveKind::LinkDylib, name: s@ },
        }
    }
}

/// The models of a sequence of directives, element by element.
pub open spec fn models_of(v: Seq<Directive>) -> Seq<DirectiveModel> {
    v.map_values(|d: Directive| d.model())
}

/// The linkage instructions a successful build emits. Static linking names
/// the archive next to its search path; dynamic linking first names the
/// platform's C++ standard runtime where the family needs one, then the
/// library and its search path. With no link mode selected nothing is
/// emitted.
pub open spec fn spec_link_directives(
    link: Option<LinkMode>,
    v: Variant,
    f: TargetFamily,
    out_dir: Seq<char>,
) -> Seq<DirectiveModel> {
    match link {
        Some(LinkMode::Static) => seq![
            DirectiveModel { kind: DirectiveKind::SearchPath, name: out_dir },
            DirectiveModel { kind: DirectiveKind::LinkStatic, name: spec_library_name(v) },
        ],
        Some(LinkMode::Dynamic) => {
            let runtime = match spec_cxx_runtime(f) {
                Some(r) => seq![DirectiveModel { kind: DirectiveKind::LinkDylib, name: r }],
                None => Seq::<DirectiveModel>::empty(),
            };
            runtime + seq![
                DirectiveModel { kind: DirectiveKind::LinkDylib, name: spec_library_name(v) },
                DirectiveModel { kind: DirectiveKind::SearchPath, name: out_dir },
            ]
        },
        None => Seq::<DirectiveModel>::empty(),
    }
}

/// The linkage instructions a successful build emits.
pub fn link_directives(c: &BuildConfig, f: TargetFamily, out_dir: &str) -> (r: Vec<Directive>)
    ensures
        models_of(r@) == spec_link_directives(c.link_mode, c.variant, f, out_dir@),
{
    let mut dirs: Vec<Directive> = Vec::new();
    match c.link_mode {
        Some(LinkMode::Static) => {
            dirs.push(Directive::SearchPath(String::from_str(out_dir)));
            dirs.push(Directive::LinkStatic(String::from_str(library_name(c.variant))));
        },
        Some(LinkMode::Dynamic) => {
            match f {
                TargetFamily::Apple | TargetFamily::Freebsd | TargetFamily::Openbsd => {
                    dirs.push(Directive::LinkDylib(String::from_str("c++")));
                },
                TargetFamily::Linux => {
                    dirs.push(Directive::LinkDylib(String::from_str("stdc++")));
                },
                TargetFamily::Other => {},
            }
            dirs.push(Directive::LinkDylib(String::from_str(library_name(c.variant))));
            dirs.push(Directive::SearchPath(String::from_str(out_dir)));
        },
        None => {},
    }
    proof {
        assert(models_of(dirs@) =~~= spec_link_directives(c.link_mode, c.variant, f, out_dir@));
    }
    dirs
}

} // verus!
