use vstd::prelude::*;

use crate::platform::Platform;

verus! {

/// A word width alone, for fuzzy comparison with a `Platform`.
#[derive(Debug, PartialEq, Eq, Hash, Structural)]
pub enum Architecture {
    X64,
    X32,
}

/// `p` has the word width `arch`, in any family; `Unknown` has none.
pub open spec fn arch_matches(arch: Architecture, p: Platform) -> bool {
    match arch {
        Architecture::X64 => p == Platform::Win64 || p == Platform::Nix64 || p == Platform::Mac64,
        Architecture::X32 => p == Platform::Win32 || p == Platform::Nix32 || p == Platform::Mac32,
    }
}

impl PartialEq<Platform> for Architecture {
    fn eq(&self, other: &Platform) -> (r: bool) {
        match (self, other) {
            (Architecture::X64, Platform::Nix64) => true,
            (Architecture::X32, Platform::Nix32) => true,
            (Architecture::X64, Platform::Win64) => true,
            (Architecture::X32, Platform::Win32) => true,
            (Architecture::X64, Platform::Mac64) => true,
            (Architecture::X32, Platform::Mac32) => true,
            (_, _) => false,
        }
    }
}

impl vstd::std_specs::cmp::PartialEqSpecImpl<Platform> for Architecture {
    open spec fn obeys_eq_spec() -> bool {
        true
    }

    open spec fn eq_spec(&self, other: &Platform) -> bool {
        arch_matches(*self, *other)
    }
}

impl PartialEq<Architecture> for Platform {
    fn eq(&self, other: &Architecture) -> (r: bool) {
        other.eq(self)
    }
}

impl vstd::std_specs::cmp::PartialEqSpecImpl<Architecture> for Platform {
    open spec fn obeys_eq_spec() -> bool {
        true
    }

    open spec fn eq_spec(&self, other: &Architecture) -> bool {
        arch_matches(*other, *self)
    }
}

} // verus!
