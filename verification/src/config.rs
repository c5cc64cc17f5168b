use vstd::prelude::*;

verus! {

/// Which C compiler builds the external library.
#[derive(Clone, Copy, Debug, PartialEq, Eq)]
pub enum Compiler {
    Gcc,
    Clang,
}

/// Whether the external library is bound to the host at build time or at load time.
#[derive(Clone, Copy, Debug, PartialEq, Eq)]
pub enum LinkMode {
    Static,
    Dynamic,
}

/// The security profile the external library is built with. The external
/// build tool calls the standard profile `default`; the reduced-hardening
/// profile is `light`.
#[derive(Clone, Copy, Debug, PartialEq, Eq)]
pub enum Variant {
    Standard,
    Light,
}

/// The raw feature selection of one build invocation, one boolean per
/// feature flag, exactly as the host build system hands it over.
#[derive(Clone, Copy, Debug, PartialEq, Eq)]
pub struct Flags {
    pub gcc: bool,
    pub clang: bool,
    pub static_link: bool,
    pub dynamic_link: bool,
    pub light: bool,
    pub standard: bool,
}

/// A configuration conflict: a mutually exclusive flag pair both set, or
/// no compiler chosen at all.
#[derive(Clone, Copy, Debug, PartialEq, Eq)]
pub enum ConfigError {
    CompilerConflict,
    CompilerMissing,
    LinkModeConflict,
    VariantConflict,
}

/// The resolved choices for one build invocation, immutable once derived.
/// `link_mode` is `None` when neither link-mode flag is set: the library is
/// then built but no linkage directive is emitted.
#[derive(Clone, Copy, Debug, PartialEq, Eq)]
pub struct BuildConfig {
    pub compiler: Compiler,
    pub link_mode: Option<LinkMode>,
    pub variant: Variant,
}

/// The flag selection is contradictory: both compilers, neither compiler,
/// both link modes, or both variants.
pub open spec fn spec_flags_conflict(f: Flags) -> bool {
    ||| f.gcc && f.clang
    ||| !f.gcc && !f.clang
    ||| f.static_link && f.dynamic_link
    ||| f.light && f.standard
}

/// The compiler a conflict-free selection names.
pub open spec fn spec_compiler(f: Flags) -> Compiler {
    if f.gcc {
        Compiler::Gcc
    } else {
        Compiler::Clang
    }
}

/// The link mode a conflict-free selection names, if any.
pub open spec fn spec_link_mode(f: Flags) -> Option<LinkMode> {
    if f.static_link {
        Some(LinkMode::Static)
    } else if f.dynamic_link {
        Some(LinkMode::Dynamic)
    } else {
        None
    }
}

/// The variant a conflict-free selection names; the standard profile is the
/// fallback when the light flag is unset.
pub open spec fn spec_variant(f: Flags) -> Variant {
    if f.light {
        Variant::Light
    } else {
        Variant::Standard
    }
}

/// The configuration a conflict-free selection resolves to.
pub open spec fn spec_config(f: Flags) -> BuildConfig {
    BuildConfig { compiler: spec_compiler(f), link_mode: spec_link_mode(f), variant: spec_variant(f) }
}

/// The error a contradictory selection is reported with, checking the
/// compiler pair first, then the link-mode pair, then the variant pair.
pub open spec fn spec_config_error(f: Flags) -> ConfigError {
    if f.gcc && f.clang {
        ConfigError::CompilerConflict
    } else if !f.gcc && !f.clang {
        ConfigError::CompilerMissing
    } else if f.static_link && f.dynamic_link {
        ConfigError::LinkModeConflict
    } else {
        ConfigError::VariantConflict
    }
}

/// Derives the build configuration from the feature selection. This fails,
/// and the orchestration machine aborts before spawning any external
/// process, exactly when a mutually exclusive pair is violated: both or
/// neither compiler selected, both link modes selected, or both variants
/// selected.
pub fn resolve_config(f: Flags) -> (r: Result<BuildConfig, ConfigError>)
    ensures
        r is Ok <==> !spec_flags_conflict(f),
        r matches Ok(c) ==> c == spec_config(f),
        r matches Err(e) ==> e == spec_config_error(f),
{
    if f.gcc && f.clang {
        Err(ConfigError::CompilerConflict)
    } else if !f.gcc && !f.clang {
        Err(ConfigError::CompilerMissing)
    } else if f.static_link && f.dynamic_link {
        Err(ConfigError::LinkModeConflict)
    } else if f.light && f.standard {
        Err(ConfigError::VariantConflict)
    } else {
        Ok(config_of(f))
    }
}

/// The configuration a selection resolves to, conflicts notwithstanding:
/// the total counterpart of `resolve_config`, for positions that are only
/// reached once the selection has already been admitted.
pub fn config_of(f: Flags) -> (c: BuildConfig)
    ensures
        c == spec_config(f),
{
    let compiler = if f.gcc {
        Compiler::Gcc
    } else {
        Compiler::Clang
    };
    let link_mode = if f.static_link {
        Some(LinkMode::Static)
    } else if f.dynamic_link {
        Some(LinkMode::Dynamic)
    } else {
        None
    };
    let variant = if f.light {
        Variant::Light
    } else {
        Variant::Standard
    };
    BuildConfig { compiler, link_mode, variant }
}

/// The name the selected compiler is invoked under.
pub open spec fn spec_compiler_name(c: Compiler) -> Seq<char> {
    match c {
        Compiler::Gcc => "gcc"@,
        Compiler::Clang => "clang"@,
    }
}

/// The name the selected compiler is invoked under.
pub fn compiler_name(c: Compiler) -> (r: &'static str)
    ensures
        r@ == spec_compiler_name(c),
{
    match c {
        Compiler::Gcc => "gcc",
        Compiler::Clang => "clang",
    }
}

/// The variant selector the external build tool expects.
pub open spec fn spec_variant_name(v: Variant) -> Seq<char> {
    match v {
        Variant::Standard => "default"@,
        Variant::Light => "light"@,
    }
}

/// The variant selector the external build tool expects.
pub fn variant_name(v: Variant) -> (r: &'static str)
    ensures
        r@ == spec_variant_name(v),
{
    match v {
        Variant::Standard => "default",
        Variant::Light => "light",
    }
}

/// The variant-qualified library name the linkage directives use: the
/// standard profile carries no suffix, the light profile appends one.
pub open spec fn spec_library_name(v: Variant) -> Seq<char> {
    match v {
        Variant::Standard => "hardened_malloc"@,
        Variant::Light => "hardened_malloc-light"@,
    }
}

/// The variant-qualified library name the linkage directives use.
pub fn library_name(v: Variant) -> (r: &'static str)
    ensures
        r@ == spec_library_name(v),
{
    match v {
        Variant::Standard => "hardened_malloc",
        Variant::Light => "hardened_malloc-light",
    }
}

} // verus!
