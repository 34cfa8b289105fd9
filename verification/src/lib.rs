//! Build-time helpers for projects that embed BPF programs.
//!
//! A build script that compiles a BPF program needs the version of the
//! kernel headers it builds against, bindings for the program's interface
//! header, and the program's skeleton. This crate computes what those steps
//! need, on plain values:
//!
//! - [`version::vmlinux_h_version`] reads version and commit hash out of a
//!   header archive;
//! - [`bindings::bindgen_bpf_intf`] plans the generation of bindings;
//! - [`skeleton::gen_bpf_skel`] plans the build of a skeleton, and
//!   [`rerun::watch_directives`] says which files the build system has to
//!   watch afterwards.
//!
//! Reading the environment, running the tools and touching the file system
//! are left to the caller. The `tar` crate reads the archive and `std::path`
//! does the path arithmetic; what is taken from them on trust is said where
//! they are called, in [`archive`] and [`paths`].

pub mod archive;
pub mod bindings;
pub mod link_name;
pub mod paths;
pub mod release;
pub mod rerun;
pub mod skeleton;
pub mod text;
pub mod vars;
pub mod version;
pub mod words;

pub use bindings::bindgen_bpf_intf;
pub use skeleton::gen_bpf_skel;
pub use version::vmlinux_h_version;
