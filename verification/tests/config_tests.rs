use hardened_malloc_sys::{
    compiler_name, config_of, library_name, resolve_config, variant_name, BuildConfig, Compiler,
    ConfigError, Flags, LinkMode, Variant,
};

fn flags(
    gcc: bool,
    clang: bool,
    static_link: bool,
    dynamic_link: bool,
    light: bool,
    standard: bool,
) -> Flags {
    Flags { gcc, clang, static_link, dynamic_link, light, standard }
}

#[test]
fn both_compilers_selected_is_a_conflict() {
    let r = resolve_config(flags(true, true, true, false, false, true));
    assert_eq!(r, Err(ConfigError::CompilerConflict));
}

#[test]
fn no_compiler_selected_is_a_conflict() {
    let r = resolve_config(flags(false, false, true, false, true, false));
    assert_eq!(r, Err(ConfigError::CompilerMissing));
}

#[test]
fn both_link_modes_selected_is_a_conflict() {
    let r = resolve_config(flags(true, false, true, true, false, false));
    assert_eq!(r, Err(ConfigError::LinkModeConflict));
}

#[test]
fn both_variants_selected_is_a_conflict() {
    let r = resolve_config(flags(false, true, false, true, true, true));
    assert_eq!(r, Err(ConfigError::VariantConflict));
}

#[test]
fn gcc_static_standard_resolves() {
    let r = resolve_config(flags(true, false, true, false, false, true));
    assert_eq!(
        r,
        Ok(BuildConfig {
            compiler: Compiler::Gcc,
            link_mode: Some(LinkMode::Static),
            variant: Variant::Standard,
        })
    );
}

#[test]
fn clang_dynamic_light_resolves() {
    let r = resolve_config(flags(false, true, false, true, true, false));
    assert_eq!(
        r,
        Ok(BuildConfig {
            compiler: Compiler::Clang,
            link_mode: Some(LinkMode::Dynamic),
            variant: Variant::Light,
        })
    );
}

#[test]
fn unset_optional_pairs_fall_back_to_defaults() {
    let r = resolve_config(flags(false, true, false, false, false, false));
    assert_eq!(
        r,
        Ok(BuildConfig {
            compiler: Compiler::Clang,
            link_mode: None,
            variant: Variant::Standard,
        })
    );
}

#[test]
fn config_of_matches_resolution_on_admissible_flags() {
    let f = flags(true, false, false, true, true, false);
    assert_eq!(resolve_config(f), Ok(config_of(f)));
}

#[test]
fn compiler_names_are_the_invoked_programs() {
    assert_eq!(compiler_name(Compiler::Gcc), "gcc");
    assert_eq!(compiler_name(Compiler::Clang), "clang");
}

#[test]
fn variant_selector_names_standard_as_default() {
    assert_eq!(variant_name(Variant::Standard), "default");
    assert_eq!(variant_name(Variant::Light), "light");
}

#[test]
fn library_names_qualify_the_light_variant_only() {
    assert_eq!(library_name(Variant::Standard), "hardened_malloc");
    assert_eq!(library_name(Variant::Light), "hardened_malloc-light");
    assert!(library_name(Variant::Light).ends_with("-light"));
    assert!(!library_name(Variant::Standard).contains("-light"));
}
