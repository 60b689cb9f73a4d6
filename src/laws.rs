//! Properties of parsing, compatibility and the partial descriptors, stated
//! over the spec functions that the executable contracts use.

use vstd::prelude::*;

use crate::architecture::{Architecture, arch_matches};
use crate::partialplatform::{PartialPlatform, os_matches};
use crate::platform::{
    Platform, alias_of, ascii_lower, ascii_lower_char, case_fold, compatible,
    execution_platforms_for, from_long_form, has_substring, long_form, parse, parse_folded,
    platform_of, short_form,
};

verus! {

/// `pat` agrees with `s` from position `i` on, for the pattern's characters from `j`.
spec fn agrees_at(s: Seq<char>, pat: Seq<char>, i: int, j: nat) -> bool
    decreases pat.len() - j,
{
    if j >= pat.len() {
        true
    } else {
        s[i + j] == pat[j as int] && agrees_at(s, pat, i, j + 1)
    }
}

/// `pat` occurs in `s` at some position from `i` on, found by a left-to-right scan.
spec fn occurs_from(s: Seq<char>, pat: Seq<char>, i: nat) -> bool
    decreases s.len() - i,
{
    if i + pat.len() > s.len() {
        false
    } else if pat.len() == 0 {
        true
    } else {
        agrees_at(s, pat, i as int, 0) || occurs_from(s, pat, i + 1)
    }
}

/// `agrees_at` is a character-by-character comparison.
proof fn lemma_agrees_at(s: Seq<char>, pat: Seq<char>, i: int, j: nat)
    requires
        0 <= i,
        i + pat.len() <= s.len(),
        j <= pat.len(),
    ensures
        agrees_at(s, pat, i, j) <==> (forall|k: int| j <= k < pat.len() ==> s[i + k] == pat[k]),
    decreases pat.len() - j,
{
    if j < pat.len() {
        lemma_agrees_at(s, pat, i, j + 1);
    }
}

/// `occurs_from` finds exactly the occurrences from `i` on.
proof fn lemma_occurs_from(s: Seq<char>, pat: Seq<char>, i: nat)
    ensures
        occurs_from(s, pat, i) <==> (exists|k: int|
            i <= k && k + pat.len() <= s.len() && #[trigger] s.subrange(k, k + pat.len()) == pat),
    decreases s.len() - i,
{
    if pat.len() == 0 && i <= s.len() {
        assert(s.subrange(i as int, i as int) =~= pat);
    } else if i + pat.len() <= s.len() {
        lemma_occurs_from(s, pat, i + 1);
        lemma_agrees_at(s, pat, i as int, 0);
        if agrees_at(s, pat, i as int, 0) {
            assert(s.subrange(i as int, i + pat.len() as int) =~= pat);
        }
        if exists|k: int|
            i <= k && k + pat.len() <= s.len() && #[trigger] s.subrange(k, k + pat.len()) == pat {
            let k = choose|k: int|
                i <= k && k + pat.len() <= s.len() && #[trigger] s.subrange(k, k + pat.len())
                    == pat;
            if k == i {
                assert forall|m: int| 0 <= m < pat.len() implies s[i + m] == pat[m] by {
                    assert(s.subrange(k, k + pat.len())[m] == s[i + m]);
                }
            }
        }
    }
}

/// The scan decides `has_substring`.
proof fn lemma_substring_scan(s: Seq<char>, pat: Seq<char>)
    ensures
        has_substring(s, pat) == occurs_from(s, pat, 0),
{
    lemma_occurs_from(s, pat, 0);
}

/// `folded` holds a keyword that names an operating-system family.
pub open spec fn names_family(folded: Seq<char>) -> bool {
    has_substring(folded, "mac"@) || has_substring(folded, "apple"@) || has_substring(
        folded,
        "nix"@,
    ) || has_substring(folded, "lin"@) || has_substring(folded, "win"@)
}

/// `names_family` with each keyword test done by the scan.
spec fn names_family_by_scan(folded: Seq<char>) -> bool {
    occurs_from(folded, "mac"@, 0) || occurs_from(folded, "apple"@, 0) || occurs_from(
        folded,
        "nix"@,
        0,
    ) || occurs_from(folded, "lin"@, 0) || occurs_from(folded, "win"@, 0)
}

/// `parse_folded` with each keyword test done by the scan.
spec fn parse_by_scan(text: Seq<char>, folded: Seq<char>) -> Platform {
    let wide = occurs_from(folded, "64"@, 0);
    if occurs_from(folded, "mac"@, 0) || occurs_from(folded, "apple"@, 0) {
        if wide {
            Platform::Mac64
        } else {
            Platform::Mac32
        }
    } else if occurs_from(folded, "nix"@, 0) || occurs_from(folded, "lin"@, 0) {
        if wide {
            Platform::Nix64
        } else {
            Platform::Nix32
        }
    } else if occurs_from(folded, "win"@, 0) {
        if wide {
            Platform::Win64
        } else {
            Platform::Win32
        }
    } else {
        match alias_of(folded) {
            Some(p) => p,
            None => from_long_form(text),
        }
    }
}

/// Parsing may be computed with the scan in place of `has_substring`.
proof fn lemma_parse_by_scan(text: Seq<char>, folded: Seq<char>)
    ensures
        parse_folded(text, folded) == parse_by_scan(text, folded),
        names_family(folded) == names_family_by_scan(folded),
{
    lemma_substring_scan(folded, "64"@);
    lemma_substring_scan(folded, "mac"@);
    lemma_substring_scan(folded, "apple"@);
    lemma_substring_scan(folded, "nix"@);
    lemma_substring_scan(folded, "lin"@);
    lemma_substring_scan(folded, "win"@);
}

/// The lowercase of ASCII text `s` is `t` when `t` lowercases `s` character by
/// character; its parse is then computed by the scan.
proof fn lemma_fold(s: Seq<char>, t: Seq<char>)
    requires
        s.len() == t.len(),
        forall|i: int|
            0 <= i < s.len() ==> '\0' <= #[trigger] s[i] <= '\u{7f}' && ascii_lower_char(s[i])
                == t[i],
    ensures
        case_fold(s) == t,
        parse(s) == parse_by_scan(s, t),
        names_family(case_fold(s)) == names_family_by_scan(t),
{
    assert(ascii_lower(s) =~= t);
    lemma_parse_by_scan(s, t);
}

/// Parsing the long name of a platform gives back that platform; the long
/// name of each concrete platform names its family.
pub proof fn lemma_long_form_round_trip(p: Platform)
    ensures
        parse(long_form(p)) == p,
        p != Platform::Unknown ==> names_family(case_fold(long_form(p))),
{
    reveal_strlit("64");
    reveal_strlit("mac");
    reveal_strlit("apple");
    reveal_strlit("nix");
    reveal_strlit("lin");
    reveal_strlit("win");
    match p {
        Platform::Win64 => {
            reveal_strlit("Windows x86_64");
            reveal_strlit("windows x86_64");
            lemma_fold(long_form(p), "windows x86_64"@);
            assert(parse_by_scan(long_form(p), "windows x86_64"@) == p && names_family_by_scan("windows x86_64"@)) by {
                reveal_with_fuel(occurs_from, 16);
                reveal_with_fuel(agrees_at, 6);
            }
        },
        Platform::Win32 => {
            reveal_strlit("Windows x32");
            reveal_strlit("windows x32");
            lemma_fold(long_form(p), "windows x32"@);
            assert(parse_by_scan(long_form(p), "windows x32"@) == p && names_family_by_scan("windows x32"@)) by {
                reveal_with_fuel(occurs_from, 16);
                reveal_with_fuel(agrees_at, 6);
            }
        },
        Platform::Nix64 => {
            reveal_strlit("Linux x86_64");
            reveal_strlit("linux x86_64");
            lemma_fold(long_form(p), "linux x86_64"@);
            assert(parse_by_scan(long_form(p), "linux x86_64"@) == p && names_family_by_scan("linux x86_64"@)) by {
                reveal_with_fuel(occurs_from, 16);
                reveal_with_fuel(agrees_at, 6);
            }
        },
        Platform::Nix32 => {
            reveal_strlit("Linux x32");
            reveal_strlit("linux x32");
            lemma_fold(long_form(p), "linux x32"@);
            assert(parse_by_scan(long_form(p), "linux x32"@) == p && names_family_by_scan("linux x32"@)) by {
                reveal_with_fuel(occurs_from, 16);
                reveal_with_fuel(agrees_at, 6);
            }
        },
        Platform::Mac64 => {
            reveal_strlit("Mac OS x86_64");
            reveal_strlit("mac os x86_64");
            lemma_fold(long_form(p), "mac os x86_64"@);
            assert(parse_by_scan(long_form(p), "mac os x86_64"@) == p && names_family_by_scan("mac os x86_64"@)) by {
                reveal_with_fuel(occurs_from, 16);
                reveal_with_fuel(agrees_at, 6);
            }
        },
        Platform::Mac32 => {
            reveal_strlit("Mac OS x32");
            reveal_strlit("mac os x32");
            lemma_fold(long_form(p), "mac os x32"@);
            assert(parse_by_scan(long_form(p), "mac os x32"@) == p && names_family_by_scan("mac os x32"@)) by {
                reveal_with_fuel(occurs_from, 16);
                reveal_with_fuel(agrees_at, 6);
            }
        },
        Platform::Unknown => {
            reveal_strlit("None");
            reveal_strlit("none");
            reveal_strlit("linux64");
            reveal_strlit("lin64");
            reveal_strlit("nix64");
            reveal_strlit("l64");
            reveal_strlit("linux32");
            reveal_strlit("lin32");
            reveal_strlit("nix32");
            reveal_strlit("l32");
            reveal_strlit("windows64");
            reveal_strlit("win64");
            reveal_strlit("w64");
            reveal_strlit("windows32");
            reveal_strlit("win32");
            reveal_strlit("w32");
            reveal_strlit("macos64");
            reveal_strlit("mac64");
            reveal_strlit("m64");
            reveal_strlit("macos32");
            reveal_strlit("mac32");
            reveal_strlit("m32");
            reveal_strlit("Linux x86_64");
            reveal_strlit("Linux x32");
            reveal_strlit("Windows x86_64");
            reveal_strlit("Windows x32");
            reveal_strlit("Mac OS x86_64");
            reveal_strlit("Mac OS x32");
            lemma_fold(long_form(p), "none"@);
            assert(parse_by_scan(long_form(p), "none"@) == p) by {
                reveal_with_fuel(occurs_from, 16);
                reveal_with_fuel(agrees_at, 6);
            }
        },
    }
}

/// Parsing the short token of a platform gives back that platform, so the
/// short token is a faithful wire form.
pub proof fn lemma_short_form_round_trip(p: Platform)
    ensures
        parse(short_form(p)) == p,
{
    reveal_strlit("64");
    reveal_strlit("mac");
    reveal_strlit("apple");
    reveal_strlit("nix");
    reveal_strlit("lin");
    reveal_strlit("win");
    match p {
        Platform::Win64 => {
            reveal_strlit("win64");
            lemma_fold(short_form(p), "win64"@);
            assert(parse_by_scan(short_form(p), "win64"@) == p && names_family_by_scan("win64"@)) by {
                reveal_with_fuel(occurs_from, 16);
                reveal_with_fuel(agrees_at, 6);
            }
        },
        Platform::Win32 => {
            reveal_strlit("win32");
            lemma_fold(short_form(p), "win32"@);
            assert(parse_by_scan(short_form(p), "win32"@) == p && names_family_by_scan("win32"@)) by {
                reveal_with_fuel(occurs_from, 16);
                reveal_with_fuel(agrees_at, 6);
            }
        },
        Platform::Nix64 => {
            reveal_strlit("nix64");
            lemma_fold(short_form(p), "nix64"@);
            assert(parse_by_scan(short_form(p), "nix64"@) == p && names_family_by_scan("nix64"@)) by {
                reveal_with_fuel(occurs_from, 16);
                reveal_with_fuel(agrees_at, 6);
            }
        },
        Platform::Nix32 => {
            reveal_strlit("nix32");
            lemma_fold(short_form(p), "nix32"@);
            assert(parse_by_scan(short_form(p), "nix32"@) == p && names_family_by_scan("nix32"@)) by {
                reveal_with_fuel(occurs_from, 16);
                reveal_with_fuel(agrees_at, 6);
            }
        },
        Platform::Mac64 => {
            reveal_strlit("mac64");
            lemma_fold(short_form(p), "mac64"@);
            assert(parse_by_scan(short_form(p), "mac64"@) == p && names_family_by_scan("mac64"@)) by {
                reveal_with_fuel(occurs_from, 16);
                reveal_with_fuel(agrees_at, 6);
            }
        },
        Platform::Mac32 => {
            reveal_strlit("mac32");
            lemma_fold(short_form(p), "mac32"@);
            assert(parse_by_scan(short_form(p), "mac32"@) == p && names_family_by_scan("mac32"@)) by {
                reveal_with_fuel(occurs_from, 16);
                reveal_with_fuel(agrees_at, 6);
            }
        },
        Platform::Unknown => {
            reveal_strlit("None");
            reveal_strlit("none");
            reveal_strlit("linux64");
            reveal_strlit("lin64");
            reveal_strlit("nix64");
            reveal_strlit("l64");
            reveal_strlit("linux32");
            reveal_strlit("lin32");
            reveal_strlit("nix32");
            reveal_strlit("l32");
            reveal_strlit("windows64");
            reveal_strlit("win64");
            reveal_strlit("w64");
            reveal_strlit("windows32");
            reveal_strlit("win32");
            reveal_strlit("w32");
            reveal_strlit("macos64");
            reveal_strlit("mac64");
            reveal_strlit("m64");
            reveal_strlit("macos32");
            reveal_strlit("mac32");
            reveal_strlit("m32");
            reveal_strlit("Linux x86_64");
            reveal_strlit("Linux x32");
            reveal_strlit("Windows x86_64");
            reveal_strlit("Windows x32");
            reveal_strlit("Mac OS x86_64");
            reveal_strlit("Mac OS x32");
            lemma_fold(short_form(p), "none"@);
            assert(parse_by_scan(short_form(p), "none"@) == p) by {
                reveal_with_fuel(occurs_from, 16);
                reveal_with_fuel(agrees_at, 6);
            }
        },
    }
}

/// Text whose lowercase names no family and is no alias parses to `Unknown`.
pub proof fn lemma_unrecognized_is_unknown(text: Seq<char>)
    ensures
        (alias_of(case_fold(text)) is None && !names_family(case_fold(text))) ==> parse(text)
            == Platform::Unknown,
{
    lemma_long_form_round_trip(from_long_form(text));
}

/// Parsing ignores case: two texts with the same lowercase parse alike.
pub proof fn lemma_case_insensitive(t: Seq<char>, u: Seq<char>)
    ensures
        case_fold(t) == case_fold(u) ==> parse(t) == parse(u),
{
    lemma_long_form_round_trip(from_long_form(t));
    lemma_long_form_round_trip(from_long_form(u));
}

/// Family keywords decide the family in a fixed order, whatever else the text
/// holds and wherever they stand: `"mac"` or `"apple"` first, then `"nix"` or
/// `"lin"`, then `"win"`. With a family decided, the width is 64 bits exactly
/// when `"64"` occurs, and 32 bits otherwise.
pub proof fn lemma_keyword_precedence(text: Seq<char>, folded: Seq<char>)
    ensures
        has_substring(folded, "mac"@) || has_substring(folded, "apple"@) ==> os_matches(
            PartialPlatform::Mac,
            parse_folded(text, folded),
        ),
        !has_substring(folded, "mac"@) && !has_substring(folded, "apple"@) && (has_substring(
            folded,
            "nix"@,
        ) || has_substring(folded, "lin"@)) ==> os_matches(
            PartialPlatform::Linux,
            parse_folded(text, folded),
        ),
        !has_substring(folded, "mac"@) && !has_substring(folded, "apple"@) && !has_substring(
            folded,
            "nix"@,
        ) && !has_substring(folded, "lin"@) && has_substring(folded, "win"@) ==> os_matches(
            PartialPlatform::Windows,
            parse_folded(text, folded),
        ),
        names_family(folded) ==> (arch_matches(Architecture::X64, parse_folded(text, folded))
            <==> has_substring(folded, "64"@)),
        names_family(folded) ==> (arch_matches(Architecture::X32, parse_folded(text, folded))
            <==> !has_substring(folded, "64"@)),
{
}

/// Compatibility is not symmetric: of two different platforms, at most one
/// runs binaries built for the other.
pub proof fn lemma_compatibility_asymmetric(p: Platform, q: Platform)
    requires
        p != q,
    ensures
        !(compatible(p, q) && compatible(q, p)),
{
}

/// A 64-bit host runs the 32-bit binaries of its family, and a 32-bit host
/// does not run the 64-bit ones.
pub proof fn lemma_narrow_runs_on_wide(os: PartialPlatform)
    ensures
        compatible(platform_of(os, Architecture::X32), platform_of(os, Architecture::X64)),
        !compatible(platform_of(os, Architecture::X64), platform_of(os, Architecture::X32)),
{
}

/// Each concrete platform is the one platform that both its family and its
/// width match.
pub proof fn lemma_partials_pin_platform(os: PartialPlatform, arch: Architecture, p: Platform)
    ensures
        os_matches(os, platform_of(os, arch)),
        arch_matches(arch, platform_of(os, arch)),
        os_matches(os, p) && arch_matches(arch, p) ==> p == platform_of(os, arch),
{
}

/// `Unknown` equals no family and no width, runs no binaries, and nothing is
/// built to run as it.
pub proof fn lemma_unknown_matches_nothing(os: PartialPlatform, arch: Architecture, p: Platform)
    ensures
        !os_matches(os, Platform::Unknown),
        !arch_matches(arch, Platform::Unknown),
        execution_platforms_for(Platform::Unknown).len() == 0,
        !compatible(p, Platform::Unknown),
        !compatible(Platform::Unknown, p),
{
}

} // verus!
