use vstd::prelude::*;

use crate::platform::Platform;

verus! {

/// An operating-system family alone, for fuzzy comparison with a `Platform`.
#[derive(Debug, PartialEq, Eq, Hash, Structural)]
pub enum PartialPlatform {
    Windows,
    Linux,
    Mac,
}

/// `p` belongs to the family `os`, at either width; `Unknown` belongs to none.
pub open spec fn os_matches(os: PartialPlatform, p: Platform) -> bool {
    match os {
        PartialPlatform::Windows => p == Platform::Win64 || p == Platform::Win32,
        PartialPlatform::Linux => p == Platform::Nix64 || p == Platform::Nix32,
        PartialPlatform::Mac => p == Platform::Mac64 || p == Platform::Mac32,
    }
}

impl PartialEq<Platform> for PartialPlatform {
    fn eq(&self, other: &Platform) -> (r: bool) {
        match (self, other) {
            (PartialPlatform::Linux, Platform::Nix64) => true,
            (PartialPlatform::Linux, Platform::Nix32) => true,
            (PartialPlatform::Windows, Platform::Win64) => true,
            (PartialPlatform::Windows, Platform::Win32) => true,
            (PartialPlatform::Mac, Platform::Mac64) => true,
            (PartialPlatform::Mac, Platform::Mac32) => true,
            (_, _) => false,
        }
    }
}

impl vstd::std_specs::cmp::PartialEqSpecImpl<Platform> for PartialPlatform {
    open spec fn obeys_eq_spec() -> bool {
        true
    }

    open spec fn eq_spec(&self, other: &Platform) -> bool {
        os_matches(*self, *other)
    }
}

impl PartialEq<PartialPlatform> for Platform {
    fn eq(&self, other: &PartialPlatform) -> (r: bool) {
        other.eq(self)
    }
}

impl vstd::std_specs::cmp::PartialEqSpecImpl<PartialPlatform> for Platform {
    open spec fn obeys_eq_spec() -> bool {
        true
    }

    open spec fn eq_spec(&self, other: &PartialPlatform) -> bool {
        os_matches(*other, *self)
    }
}

} // verus!
