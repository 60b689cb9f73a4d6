//! Platform values: an operating-system family (Windows, Linux/Unix, macOS)
//! paired with a word width (32 or 64 bits), a lenient parser from free-form
//! text, execution-compatibility rules, and fuzzy comparison with partial
//! descriptors.
//!
//! `Platform::Unknown` stands for text that names no platform; it renders as
//! `"None"`. Parsing never fails. `PartialPlatform` (a family alone) and
//! `Architecture` (a width alone) compare equal, in both directions, to every
//! platform they cover.
//!
//! The short token (`"nix64"`) is the wire form of a platform. It is decoded
//! leniently, by `Platform::new`, so any text that `new` accepts decodes too.
//!
//! The host is passed in as a family and a width, so that every function here
//! is a pure function of its arguments.

pub mod platform;
pub use platform::Platform;

pub mod partialplatform;
pub use partialplatform::PartialPlatform;

pub mod architecture;
pub use architecture::Architecture;

pub mod laws;
