use vstd::prelude::*;

use crate::architecture::Architecture;
use crate::partialplatform::PartialPlatform;

verus! {

/// A concrete platform: an operating-system family paired with a word width,
/// or `Unknown` when no platform could be determined.
#[derive(Debug, PartialEq, Eq, Hash, Structural)]
pub enum Platform {
    Win64,
    Win32,
    Nix64,
    Nix32,
    Mac64,
    Mac32,
    Unknown,
}

/// The long, human-readable name of each platform.
pub open spec fn long_form(p: Platform) -> Seq<char> {
    match p {
        Platform::Win64 => "Windows x86_64"@,
        Platform::Win32 => "Windows x32"@,
        Platform::Nix64 => "Linux x86_64"@,
        Platform::Nix32 => "Linux x32"@,
        Platform::Mac64 => "Mac OS x86_64"@,
        Platform::Mac32 => "Mac OS x32"@,
        Platform::Unknown => "None"@,
    }
}

/// The short token of each platform, its stable wire form.
pub open spec fn short_form(p: Platform) -> Seq<char> {
    match p {
        Platform::Win64 => "win64"@,
        Platform::Win32 => "win32"@,
        Platform::Nix64 => "nix64"@,
        Platform::Nix32 => "nix32"@,
        Platform::Mac64 => "mac64"@,
        Platform::Mac32 => "mac32"@,
        Platform::Unknown => "None"@,
    }
}

/// Phase one of parsing: the platform whose long form is exactly `text`.
pub open spec fn from_long_form(text: Seq<char>) -> Platform {
    if text == "Linux x86_64"@ {
        Platform::Nix64
    } else if text == "Linux x32"@ {
        Platform::Nix32
    } else if text == "Windows x86_64"@ {
        Platform::Win64
    } else if text == "Windows x32"@ {
        Platform::Win32
    } else if text == "Mac OS x86_64"@ {
        Platform::Mac64
    } else if text == "Mac OS x32"@ {
        Platform::Mac32
    } else {
        Platform::Unknown
    }
}

/// Phase two of parsing: the platform that a lowercase alias names, if any.
pub open spec fn alias_of(folded: Seq<char>) -> Option<Platform> {
    if folded == "linux64"@ || folded == "lin64"@ || folded == "nix64"@ || folded == "l64"@ {
        Some(Platform::Nix64)
    } else if folded == "linux32"@ || folded == "lin32"@ || folded == "nix32"@ || folded
        == "l32"@ {
        Some(Platform::Nix32)
    } else if folded == "windows64"@ || folded == "win64"@ || folded == "w64"@ {
        Some(Platform::Win64)
    } else if folded == "windows32"@ || folded == "win32"@ || folded == "w32"@ {
        Some(Platform::Win32)
    } else if folded == "macos64"@ || folded == "mac64"@ || folded == "m64"@ {
        Some(Platform::Mac64)
    } else if folded == "macos32"@ || folded == "mac32"@ || folded == "m32"@ {
        Some(Platform::Mac32)
    } else {
        None
    }
}

/// `pat` occurs in `s` as a contiguous run of characters.
pub open spec fn has_substring(s: Seq<char>, pat: Seq<char>) -> bool {
    exists|i: int|
        0 <= i && i + pat.len() <= s.len() && #[trigger] s.subrange(i, i + pat.len()) == pat
}

/// Maps `A` to `Z` onto `a` to `z` and leaves every other character alone.
pub open spec fn ascii_lower_char(c: char) -> char {
    if 'A' <= c && c <= 'Z' {
        ((c as u32) + 32) as char
    } else {
        c
    }
}

/// ASCII lowercase of each character.
pub open spec fn ascii_lower(s: Seq<char>) -> Seq<char> {
    s.map_values(|c: char| ascii_lower_char(c))
}

/// The Unicode lowercase of a string.
pub uninterp spec fn lower_of(s: Seq<char>) -> Seq<char>;

/// The lowercase of a string: on ASCII text it is the ASCII lowercase.
pub open spec fn case_fold(s: Seq<char>) -> Seq<char> {
    if vstd::utf8::is_ascii_chars(s) {
        ascii_lower(s)
    } else {
        lower_of(s)
    }
}

/// The platform that free-form `text` describes, given `folded`, its lowercase.
///
/// A family keyword in `folded` decides the family, and the width is 64 bits
/// exactly when `"64"` occurs in it. Of several family keywords, `"mac"` or
/// `"apple"` wins over `"nix"` or `"lin"`, which wins over `"win"`. Without any
/// family keyword, a lowercase alias decides, and otherwise an exact long form.
pub open spec fn parse_folded(text: Seq<char>, folded: Seq<char>) -> Platform {
    let wide = has_substring(folded, "64"@);
    if has_substring(folded, "mac"@) || has_substring(folded, "apple"@) {
        if wide {
            Platform::Mac64
        } else {
            Platform::Mac32
        }
    } else if has_substring(folded, "nix"@) || has_substring(folded, "lin"@) {
        if wide {
            Platform::Nix64
        } else {
            Platform::Nix32
        }
    } else if has_substring(folded, "win"@) {
        if wide {
            Platform::Win64
        } else {
            Platform::Win32
        }
    } else {
        match alias_of(folded) {
            Some(p) => p,
            None => from_long_form(text),
        }
    }
}

/// The platform that free-form `text` describes.
pub open spec fn parse(text: Seq<char>) -> Platform {
    parse_folded(text, case_fold(text))
}

/// The concrete platform of an operating-system family at a word width.
pub open spec fn platform_of(os: PartialPlatform, arch: Architecture) -> Platform {
    match (os, arch) {
        (PartialPlatform::Windows, Architecture::X64) => Platform::Win64,
        (PartialPlatform::Windows, Architecture::X32) => Platform::Win32,
        (PartialPlatform::Linux, Architecture::X64) => Platform::Nix64,
        (PartialPlatform::Linux, Architecture::X32) => Platform::Nix32,
        (PartialPlatform::Mac, Architecture::X64) => Platform::Mac64,
        (PartialPlatform::Mac, Architecture::X32) => Platform::Mac32,
    }
}

/// The platforms whose binaries run on `host`: a 64-bit host runs its own
/// and the matching 32-bit binaries, a 32-bit host only its own, and
/// `Unknown` none.
pub open spec fn execution_platforms_for(host: Platform) -> Seq<Platform> {
    match host {
        Platform::Win64 => seq![Platform::Win64, Platform::Win32],
        Platform::Win32 => seq![Platform::Win32],
        Platform::Nix64 => seq![Platform::Nix64, Platform::Nix32],
        Platform::Nix32 => seq![Platform::Nix32],
        Platform::Mac64 => seq![Platform::Mac64, Platform::Mac32],
        Platform::Mac32 => seq![Platform::Mac32],
        Platform::Unknown => seq![],
    }
}

/// A binary built for `p` runs on a host described by `host`.
pub open spec fn compatible(p: Platform, host: Platform) -> bool {
    execution_platforms_for(host).contains(p)
}

/// The six concrete platforms, in their fixed order.
pub open spec fn all_platforms() -> Seq<Platform> {
    seq![
        Platform::Win64,
        Platform::Win32,
        Platform::Nix64,
        Platform::Nix32,
        Platform::Mac64,
        Platform::Mac32,
    ]
}

/// Relies on `str::to_lowercase`: the result depends on the characters alone,
/// and on ASCII text the Unicode lowercase mapping only turns `A`..`Z` into
/// `a`..`z`.
#[verifier::external_body]
fn lowercase(s: &str) -> (r: String)
    ensures
        r@ == (if vstd::utf8::is_ascii_chars(s@) {
            ascii_lower(s@)
        } else {
            lower_of(s@)
        }),
{
    s.to_lowercase()
}

/// Relies on `str::contains` with a `&str` pattern: true exactly when `pat`
/// matches a sub-slice of `s`.
#[verifier::external_body]
fn contains(s: &str, pat: &str) -> (r: bool)
    ensures
        r == has_substring(s@, pat@),
{
    s.contains(pat)
}

/// Whether two strings hold the same characters.
fn same_text(a: &str, b: &str) -> (r: bool)
    ensures
        r == (a@ == b@),
{
    a.to_owned() == b.to_owned()
}

/// The platform that a lowercase alias names, if any.
fn alias(folded: &str) -> (r: Option<Platform>)
    ensures
        r == alias_of(folded@),
{
    if same_text(folded, "linux64") || same_text(folded, "lin64") || same_text(folded, "nix64")
        || same_text(folded, "l64") {
        Some(Platform::Nix64)
    } else if same_text(folded, "linux32") || same_text(folded, "lin32") || same_text(
        folded,
        "nix32",
    ) || same_text(folded, "l32") {
        Some(Platform::Nix32)
    } else if same_text(folded, "windows64") || same_text(folded, "win64") || same_text(
        folded,
        "w64",
    ) {
        Some(Platform::Win64)
    } else if same_text(folded, "windows32") || same_text(folded, "win32") || same_text(
        folded,
        "w32",
    ) {
        Some(Platform::Win32)
    } else if same_text(folded, "macos64") || same_text(folded, "mac64") || same_text(
        folded,
        "m64",
    ) {
        Some(Platform::Mac64)
    } else if same_text(folded, "macos32") || same_text(folded, "mac32") || same_text(
        folded,
        "m32",
    ) {
        Some(Platform::Mac32)
    } else {
        None
    }
}

impl Platform {
    /// Parses free-form text into a platform; text that names none is `Unknown`.
    ///
    /// An exact long form is recognised first, then a lowercase alias such as
    /// `"l64"` or `"win32"`, and last keywords anywhere in the lowercase text
    /// (`"win"`, `"nix"`, `"lin"`, `"mac"`, `"apple"`, with `"64"` for the
    /// width), each phase overriding the one before. Where several family
    /// keywords occur, the order of the tests decides and not their place in
    /// the text, which may surprise: `"winmac64"` is `Mac64`.
    pub fn new(platform: &str) -> (r: Platform)
        ensures
            r == parse(platform@),
    {
        let lowered = lowercase(platform);
        Platform::from_lowercase(platform, lowered.as_str())
    }

    /// Parses `platform` as `new` does, given `lowered`, its lowercase.
    pub fn from_lowercase(platform: &str, lowered: &str) -> (r: Platform)
        ensures
            r == parse_folded(platform@, lowered@),
    {
        let mut plat = if same_text(platform, "Linux x86_64") {
            Platform::Nix64
        } else if same_text(platform, "Linux x32") {
            Platform::Nix32
        } else if same_text(platform, "Windows x86_64") {
            Platform::Win64
        } else if same_text(platform, "Windows x32") {
            Platform::Win32
        } else if same_text(platform, "Mac OS x86_64") {
            Platform::Mac64
        } else if same_text(platform, "Mac OS x32") {
            Platform::Mac32
        } else {
            Platform::Unknown
        };

        match alias(lowered) {
            Some(p) => {
                plat = p;
            },
            None => {},
        }

        let mut arch: u8 = 32;
        if contains(lowered, "64") {
            arch = 64;
        }
        if contains(lowered, "win") {
            plat = if arch == 32 {
                Platform::Win32
            } else {
                Platform::Win64
            };
        }
        if contains(lowered, "nix") || contains(lowered, "lin") {
            plat = if arch == 32 {
                Platform::Nix32
            } else {
                Platform::Nix64
            };
        }
        if contains(lowered, "mac") || contains(lowered, "apple") {
            plat = if arch == 32 {
                Platform::Mac32
            } else {
                Platform::Mac64
            };
        }
        plat
    }

    /// Returns the long name of the platform, such as `"Linux x86_64"`.
    pub fn as_str(&self) -> (r: &'static str)
        ensures
            r@ == long_form(*self),
    {
        match self {
            Platform::Win64 => "Windows x86_64",
            Platform::Win32 => "Windows x32",
            Platform::Nix64 => "Linux x86_64",
            Platform::Nix32 => "Linux x32",
            Platform::Mac64 => "Mac OS x86_64",
            Platform::Mac32 => "Mac OS x32",
            Platform::Unknown => "None",
        }
    }

    /// Returns the short token of the platform, such as `"nix64"`.
    pub fn as_short_str(&self) -> (r: &'static str)
        ensures
            r@ == short_form(*self),
    {
        match self {
            Platform::Win64 => "win64",
            Platform::Win32 => "win32",
            Platform::Nix64 => "nix64",
            Platform::Nix32 => "nix32",
            Platform::Mac64 => "mac64",
            Platform::Mac32 => "mac32",
            Platform::Unknown => "None",
        }
    }

    /// Returns an independent value with the same platform.
    pub fn clone(&self) -> (r: Platform)
        ensures
            r == *self,
    {
        match self {
            Platform::Win64 => Platform::Win64,
            Platform::Win32 => Platform::Win32,
            Platform::Nix64 => Platform::Nix64,
            Platform::Nix32 => Platform::Nix32,
            Platform::Mac64 => Platform::Mac64,
            Platform::Mac32 => Platform::Mac32,
            Platform::Unknown => Platform::Unknown,
        }
    }

    /// The text to show for the platform: its long name.
    pub fn display(&self) -> (r: &'static str)
        ensures
            r@ == long_form(*self),
    {
        self.as_str()
    }

    /// The long name of the platform as a `String`.
    pub fn to_string(&self) -> (r: String)
        ensures
            r@ == long_form(*self),
    {
        self.as_str().to_owned()
    }

    /// The short token of the platform as a `String`.
    pub fn to_short_string(&self) -> (r: String)
        ensures
            r@ == short_form(*self),
    {
        self.as_short_str().to_owned()
    }

    /// Whether a binary built for this platform runs on the host that `os` and
    /// `arch` describe.
    ///
    /// 32-bit binaries are taken to run on 64-bit hosts of the same family.
    pub fn is_valid_execution_platform(&self, os: PartialPlatform, arch: Architecture) -> (r: bool)
        ensures
            r == compatible(*self, platform_of(os, arch)),
    {
        let valid_platforms = Platform::get_valid_execution_platform(os, arch);
        let mut i: usize = 0;
        while i < valid_platforms.len()
            invariant
                valid_platforms@ == execution_platforms_for(platform_of(os, arch)),
                0 <= i <= valid_platforms.len(),
                forall|j: int| 0 <= j < i ==> valid_platforms@[j] != *self,
            decreases valid_platforms.len() - i,
        {
            if valid_platforms[i] == *self {
                return true;
            }
            i = i + 1;
        }
        false
    }

    /// Whether a binary built for this platform runs on a host described by
    /// `other`.
    ///
    /// 32-bit binaries are taken to run on 64-bit hosts of the same family, so
    /// the relation is not symmetric.
    pub fn is_compatible(&self, other: &Platform) -> (r: bool)
        ensures
            r == compatible(*self, *other),
    {
        let exec_plats = Platform::get_execution_platform_for(other);
        let mut i: usize = 0;
        while i < exec_plats.len()
            invariant
                exec_plats@ == execution_platforms_for(*other),
                0 <= i <= exec_plats.len(),
                forall|j: int| 0 <= j < i ==> exec_plats@[j] != *self,
            decreases exec_plats.len() - i,
        {
            if exec_plats[i] == *self {
                return true;
            }
            i = i + 1;
        }
        false
    }

    /// The platform of a host, from its operating-system family and word width.
    pub fn get_user_platform(os: PartialPlatform, arch: Architecture) -> (r: Platform)
        ensures
            r == platform_of(os, arch),
    {
        match (os, arch) {
            (PartialPlatform::Windows, Architecture::X64) => Platform::Win64,
            (PartialPlatform::Windows, Architecture::X32) => Platform::Win32,
            (PartialPlatform::Linux, Architecture::X64) => Platform::Nix64,
            (PartialPlatform::Linux, Architecture::X32) => Platform::Nix32,
            (PartialPlatform::Mac, Architecture::X64) => Platform::Mac64,
            (PartialPlatform::Mac, Architecture::X32) => Platform::Mac32,
        }
    }

    /// The platforms whose binaries run on `platform`, the host.
    pub fn get_execution_platform_for(platform: &Platform) -> (r: Vec<Platform>)
        ensures
            r@ == execution_platforms_for(*platform),
    {
        match platform {
            Platform::Win64 => vec![Platform::Win64, Platform::Win32],
            Platform::Win32 => vec![Platform::Win32],
            Platform::Nix64 => vec![Platform::Nix64, Platform::Nix32],
            Platform::Nix32 => vec![Platform::Nix32],
            Platform::Mac64 => vec![Platform::Mac64, Platform::Mac32],
            Platform::Mac32 => vec![Platform::Mac32],
            Platform::Unknown => Vec::new(),
        }
    }

    /// The platforms whose binaries run on the host that `os` and `arch`
    /// describe: its own, and on a 64-bit host also the 32-bit one.
    pub fn get_valid_execution_platform(os: PartialPlatform, arch: Architecture) -> (r: Vec<
        Platform,
    >)
        ensures
            r@ == execution_platforms_for(platform_of(os, arch)),
    {
        Platform::get_execution_platform_for(&Platform::get_user_platform(os, arch))
    }

    /// All six concrete platforms, in the order `Win64`, `Win32`, `Nix64`,
    /// `Nix32`, `Mac64`, `Mac32`.
    pub fn iterator() -> (r: Vec<Platform>)
        ensures
            r@ == all_platforms(),
    {
        vec![
            Platform::Win64,
            Platform::Win32,
            Platform::Nix64,
            Platform::Nix32,
            Platform::Mac64,
            Platform::Mac32,
        ]
    }
}

} // verus!
