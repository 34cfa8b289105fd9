//! Planning the build of a BPF skeleton.

use crate::paths::{join, joined, parent, parent_of};
use crate::text::opt_view;
use crate::vars::EnvVar;
use vstd::prelude::*;
use vstd::string::*;

verus! {

/// Name of the skeleton where the caller gives none.
pub const DEFAULT_SKEL_NAME: &'static str = "bpf";

/// Main BPF source file where the caller gives none.
pub const DEFAULT_MAIN_BPF_C: &'static str = "src/bpf/main.bpf.c";

/// What a skeleton build does, with every path and flag it needs.
#[derive(Debug, PartialEq, Eq)]
pub struct SkelPlan {
    /// The main BPF source file to compile.
    pub source: String,
    /// Where the compiled object goes.
    pub obj: String,
    /// Where the generated skeleton goes.
    pub skel: String,
    /// The BPF compiler.
    pub clang: String,
    /// The compiler's flags, as the environment gave them.
    pub clang_args: String,
    /// The pattern to search the source directory with for files to watch:
    /// `None` where the caller listed the files.
    pub search: Option<String>,
}

/// A [`SkelPlan`] as the contracts see it.
pub ghost struct SkelPlanView {
    pub source: Seq<char>,
    pub obj: Seq<char>,
    pub skel: Seq<char>,
    pub clang: Seq<char>,
    pub clang_args: Seq<char>,
    pub search: Option<Seq<char>>,
}

impl View for SkelPlan {
    type V = SkelPlanView;

    open spec fn view(&self) -> SkelPlanView {
        SkelPlanView {
            source: self.source@,
            obj: self.obj@,
            skel: self.skel@,
            clang: self.clang@,
            clang_args: self.clang_args@,
            search: match self.search {
                Some(p) => Some(p@),
                None => None,
            },
        }
    }
}

/// Why no skeleton build was planned.
#[derive(Debug, Clone, Copy, PartialEq, Eq, Structural)]
pub enum SkelError {
    /// The environment does not hold this variable.
    Unset(EnvVar),
    /// No file list was given and the source file has no parent directory
    /// to search.
    NoSourceDir,
}

/// The pattern that matches the `.h` and `.c` files directly inside the
/// directory `dir`, and nothing below it. The empty `dir` is what a source
/// file without a directory part has for its parent: such a file lies in the
/// current directory, and the pattern names no directory.
pub open spec fn search_pattern(dir: Seq<char>) -> Seq<char> {
    if dir.len() == 0 {
        "*.[hc]"@
    } else {
        dir + "/*.[hc]"@
    }
}

/// The plan for a skeleton build, or the reason why there is none.
///
/// The three variables are looked at in the order compiler flags, compiler,
/// output directory, and the first one that is unset is reported. The search
/// pattern is made only where no file list was given: it is the
/// [`search_pattern`] of the directory that the source file lies in.
///
/// Object and skeleton get the names `<skel_name>.bpf.o` and
/// `<skel_name>_skel.rs`, joined to the output directory as `Path::join`
/// joins: the files lie in the output directory, but a skeleton name that is
/// an absolute path makes `Path::join` drop the directory and keep the name
/// alone.
pub open spec fn skel_plan(
    skel_name: Option<Seq<char>>,
    main_bpf_c: Option<Seq<char>>,
    deps_listed: bool,
    bpf_cflags: Option<Seq<char>>,
    bpf_clang: Option<Seq<char>>,
    out_dir: Option<Seq<char>>,
) -> Result<SkelPlanView, SkelError> {
    let source = main_bpf_c.unwrap_or(DEFAULT_MAIN_BPF_C@);
    let name = skel_name.unwrap_or(DEFAULT_SKEL_NAME@);
    if bpf_cflags is None {
        Err(SkelError::Unset(EnvVar::BpfCflags))
    } else if bpf_clang is None {
        Err(SkelError::Unset(EnvVar::BpfClang))
    } else if out_dir is None {
        Err(SkelError::Unset(EnvVar::OutDir))
    } else if !deps_listed && parent_of(source) is None {
        Err(SkelError::NoSourceDir)
    } else {
        Ok(
            SkelPlanView {
                source,
                obj: joined(out_dir->0, name + ".bpf.o"@),
                skel: joined(out_dir->0, name + "_skel.rs"@),
                clang: bpf_clang->0,
                clang_args: bpf_cflags->0,
                search: if deps_listed {
                    None
                } else {
                    Some(search_pattern(parent_of(source)->0))
                },
            },
        )
    }
}

/// Without the compiler flags or without the compiler there is no plan,
/// whatever else is given: the first of the two that is unset is reported,
/// and nothing stands in for it. So nothing is compiled, and no file is
/// watched, on the strength of a plan that lacks one of them.
pub proof fn lemma_no_plan_without_flags_and_compiler(
    skel_name: Option<Seq<char>>,
    main_bpf_c: Option<Seq<char>>,
    deps_listed: bool,
    bpf_cflags: Option<Seq<char>>,
    bpf_clang: Option<Seq<char>>,
    out_dir: Option<Seq<char>>,
)
    requires
        bpf_cflags is None || bpf_clang is None,
    ensures
        skel_plan(skel_name, main_bpf_c, deps_listed, bpf_cflags, bpf_clang, out_dir) == Err::<
            SkelPlanView,
            SkelError,
        >(
            SkelError::Unset(
                if bpf_cflags is None {
                    EnvVar::BpfCflags
                } else {
                    EnvVar::BpfClang
                },
            ),
        ),
{
}

/// Plans the build of a skeleton.
///
/// `skel_name` and `main_bpf_c` default to [`DEFAULT_SKEL_NAME`] and
/// [`DEFAULT_MAIN_BPF_C`]. `bpf_cflags`, `bpf_clang` and `out_dir` are the
/// values of the environment variables [`EnvVar::BpfCflags`],
/// [`EnvVar::BpfClang`] and [`EnvVar::OutDir`], `None` for one that is
/// unset: without all three there is no plan, so nothing can be compiled.
pub fn gen_bpf_skel(
    skel_name: Option<&str>,
    main_bpf_c: Option<&str>,
    deps: Option<&Vec<&str>>,
    bpf_cflags: Option<&str>,
    bpf_clang: Option<&str>,
    out_dir: Option<&str>,
) -> (r: Result<SkelPlan, SkelError>)
    ensures
        match r {
            Ok(plan) => skel_plan(
                opt_view(skel_name),
                opt_view(main_bpf_c),
                deps is Some,
                opt_view(bpf_cflags),
                opt_view(bpf_clang),
                opt_view(out_dir),
            ) == Ok::<SkelPlanView, SkelError>(plan@),
            Err(e) => skel_plan(
                opt_view(skel_name),
                opt_view(main_bpf_c),
                deps is Some,
                opt_view(bpf_cflags),
                opt_view(bpf_clang),
                opt_view(out_dir),
            ) == Err::<SkelPlanView, SkelError>(e),
        },
        bpf_cflags is None || bpf_clang is None ==> r is Err,
{
    let main_bpf_c = main_bpf_c.unwrap_or(DEFAULT_MAIN_BPF_C);
    let skel_name = skel_name.unwrap_or(DEFAULT_SKEL_NAME);
    let cflags = match bpf_cflags {
        Some(flags) => flags,
        None => return Err(SkelError::Unset(EnvVar::BpfCflags)),
    };
    let clang = match bpf_clang {
        Some(clang) => clang,
        None => return Err(SkelError::Unset(EnvVar::BpfClang)),
    };
    let out_dir = match out_dir {
        Some(dir) => dir,
        None => return Err(SkelError::Unset(EnvVar::OutDir)),
    };
    let search = match deps {
        Some(_) => None,
        None => match parent(main_bpf_c) {
            Some(dir) => Some(
                if dir.as_str().is_empty() {
                    String::from_str("*.[hc]")
                } else {
                    dir.concat("/*.[hc]")
                },
            ),
            None => return Err(SkelError::NoSourceDir),
        },
    };
    let obj_name = String::from_str(skel_name).concat(".bpf.o");
    let skel_file = String::from_str(skel_name).concat("_skel.rs");
    Ok(
        SkelPlan {
            source: String::from_str(main_bpf_c),
            obj: join(out_dir, obj_name.as_str()),
            skel: join(out_dir, skel_file.as_str()),
            clang: String::from_str(clang),
            clang_args: String::from_str(cflags),
            search,
        },
    )
}

} // verus!
