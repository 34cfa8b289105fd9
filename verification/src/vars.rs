//! The environment variables that a build step reads.

use vstd::prelude::*;

verus! {

/// An environment variable that the build steps need.
#[derive(Clone, Copy, PartialEq, Eq, Debug, Structural)]
pub enum EnvVar {
    /// Flags for the BPF compiler, separated by white space.
    BpfCflags,
    /// Path of the BPF compiler.
    BpfClang,
    /// Directory that receives what the build generates.
    OutDir,
}

/// The environment does not hold a variable that a build step needs.
#[derive(Clone, Copy, PartialEq, Eq, Debug, Structural)]
pub struct Unset(pub EnvVar);

impl EnvVar {
    /// The variable's name in the environment.
    pub open spec fn spec_name(self) -> Seq<char> {
        match self {
            EnvVar::BpfCflags => "BPF_CFLAGS"@,
            EnvVar::BpfClang => "BPF_CLANG"@,
            EnvVar::OutDir => "OUT_DIR"@,
        }
    }

    /// The variable's name in the environment.
    pub fn name(self) -> (r: &'static str)
        ensures
            r@ == self.spec_name(),
    {
        match self {
            EnvVar::BpfCflags => "BPF_CFLAGS",
            EnvVar::BpfClang => "BPF_CLANG",
            EnvVar::OutDir => "OUT_DIR",
        }
    }
}

} // verus!
