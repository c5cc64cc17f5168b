//! Bindings support for a hardened C heap allocator.
//!
//! Two concerns live here, both stated and proved with Verus:
//!
//! * the configuration and orchestration of the external library's own
//!   build: resolving mutually exclusive feature flags into a build
//!   configuration, the argument lists handed to the build tool and the
//!   archiver, the linkage directives emitted for the host toolchain, and
//!   the state machine that sequences those external invocations; and
//! * the allocator adapter's argument handling: which foreign call each
//!   host allocation operation forwards to, and with which size arguments.
//!
//! Running external processes and calling the foreign allocation symbols
//! are left to an unverified shell around this crate; every decision that
//! shell takes is computed here, under a contract.

pub mod adapter;
pub mod commands;
pub mod config;
pub mod laws;
pub mod machine;
pub mod messages;
pub mod target;
pub mod text;

pub use adapter::{ForeignCall, HardenedMalloc};
pub use commands::{archive_args, archive_file_name, build_args, descriptor_path, fetch_args, fetch_program, link_directives, probe_flag, source_dir, Directive, DirectiveKind};
pub use machine::{action_of, is_terminal, step, Action, CapturedOutcome, Input, ProcessOutcome, State};
pub use config::{BuildConfig, Compiler, ConfigError, Flags, LinkMode, Variant};
pub use config::{compiler_name, config_of, library_name, resolve_config, variant_name};
pub use messages::{abort_message, archive_failure_message, build_failure_message, config_error_message};
pub use target::{classify_target, TargetFamily};
pub use text::{contains_sub, decimal_i32};
