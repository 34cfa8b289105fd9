//! Planning the generation of bindings for the BPF interface header.

use crate::paths::{join, joined};
use crate::rerun::{directive, rerun_if_changed};
use crate::text::{opt_view, views};
use crate::vars::{EnvVar, Unset};
use crate::words::{split_whitespace, words};
use vstd::prelude::*;
use vstd::string::*;

verus! {

/// Interface header where the caller gives none.
pub const DEFAULT_INTF_H: &'static str = "src/bpf/intf.h";

/// Name of the generated bindings where the caller gives none.
pub const DEFAULT_BPF_INTF_RS: &'static str = "bpf_intf.rs";

/// What a binding generation does, with every path and flag it needs.
#[derive(Debug, PartialEq, Eq)]
pub struct BindgenPlan {
    /// The interface header to generate bindings for.
    pub header: String,
    /// The directive that has the step run again when the header changes.
    pub rerun: String,
    /// The flags for the C parser, one per word of the compiler flags.
    pub clang_args: Vec<String>,
    /// Where the generated bindings go.
    pub output: String,
}

/// A [`BindgenPlan`] as the contracts see it.
pub ghost struct BindgenPlanView {
    pub header: Seq<char>,
    pub rerun: Seq<char>,
    pub clang_args: Seq<Seq<char>>,
    pub output: Seq<char>,
}

impl View for BindgenPlan {
    type V = BindgenPlanView;

    open spec fn view(&self) -> BindgenPlanView {
        BindgenPlanView {
            header: self.header@,
            rerun: self.rerun@,
            clang_args: views(self.clang_args@),
            output: self.output@,
        }
    }
}

/// The plan for a binding generation, or the variable that it lacks.
///
/// The compiler flags are looked at before the output directory, and the
/// first of the two that is unset is reported.
///
/// The bindings get the name `bpf_intf_rs`, joined to the output directory
/// as `Path::join` joins: the file lies in the output directory, but a name
/// that is an absolute path makes `Path::join` drop the directory and keep
/// the name alone.
pub open spec fn bindgen_plan(
    bpf_intf_rs: Option<Seq<char>>,
    intf_h: Option<Seq<char>>,
    bpf_cflags: Option<Seq<char>>,
    out_dir: Option<Seq<char>>,
) -> Result<BindgenPlanView, Unset> {
    let header = intf_h.unwrap_or(DEFAULT_INTF_H@);
    let name = bpf_intf_rs.unwrap_or(DEFAULT_BPF_INTF_RS@);
    if bpf_cflags is None {
        Err(Unset(EnvVar::BpfCflags))
    } else if out_dir is None {
        Err(Unset(EnvVar::OutDir))
    } else {
        Ok(
            BindgenPlanView {
                header,
                rerun: directive(header),
                clang_args: words(bpf_cflags->0),
                output: joined(out_dir->0, name),
            },
        )
    }
}

/// Plans the generation of bindings for an interface header.
///
/// `bpf_intf_rs` and `intf_h` default to [`DEFAULT_BPF_INTF_RS`] and
/// [`DEFAULT_INTF_H`]. `bpf_cflags` and `out_dir` are the values of the
/// environment variables [`EnvVar::BpfCflags`] and [`EnvVar::OutDir`],
/// `None` for one that is unset.
pub fn bindgen_bpf_intf(
    bpf_intf_rs: Option<&str>,
    intf_h: Option<&str>,
    bpf_cflags: Option<&str>,
    out_dir: Option<&str>,
) -> (r: Result<BindgenPlan, Unset>)
    ensures
        match r {
            Ok(plan) => bindgen_plan(
                opt_view(bpf_intf_rs),
                opt_view(intf_h),
                opt_view(bpf_cflags),
                opt_view(out_dir),
            ) == Ok::<BindgenPlanView, Unset>(plan@),
            Err(e) => bindgen_plan(
                opt_view(bpf_intf_rs),
                opt_view(intf_h),
                opt_view(bpf_cflags),
                opt_view(out_dir),
            ) == Err::<BindgenPlanView, Unset>(e),
        },
{
    let intf_h = intf_h.unwrap_or(DEFAULT_INTF_H);
    let bpf_intf_rs = bpf_intf_rs.unwrap_or(DEFAULT_BPF_INTF_RS);
    let cflags = match bpf_cflags {
        Some(flags) => flags,
        None => return Err(Unset(EnvVar::BpfCflags)),
    };
    let out_dir = match out_dir {
        Some(dir) => dir,
        None => return Err(Unset(EnvVar::OutDir)),
    };
    Ok(
        BindgenPlan {
            header: String::from_str(intf_h),
            rerun: rerun_if_changed(intf_h),
            clang_args: split_whitespace(cflags),
            output: join(out_dir, bpf_intf_rs),
        },
    )
}

} // verus!
