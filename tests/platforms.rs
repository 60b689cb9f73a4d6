use platform_lp::{Architecture, PartialPlatform, Platform};

#[test]
fn renderings() {
    assert_eq!(Platform::Mac32.as_short_str(), "mac32");
    assert_eq!(Platform::Mac32.as_str(), "Mac OS x32");
    assert_eq!(Platform::Win64.as_str(), "Windows x86_64");
    assert_eq!(Platform::Win32.as_str(), "Windows x32");
    assert_eq!(Platform::Nix64.as_str(), "Linux x86_64");
    assert_eq!(Platform::Nix32.as_str(), "Linux x32");
    assert_eq!(Platform::Mac64.as_str(), "Mac OS x86_64");
    assert_eq!(Platform::Unknown.as_str(), "None");
    assert_eq!(Platform::Win64.as_short_str(), "win64");
    assert_eq!(Platform::Win32.as_short_str(), "win32");
    assert_eq!(Platform::Nix64.as_short_str(), "nix64");
    assert_eq!(Platform::Nix32.as_short_str(), "nix32");
    assert_eq!(Platform::Mac64.as_short_str(), "mac64");
    assert_eq!(Platform::Unknown.as_short_str(), "None");
    assert_eq!(Platform::Nix32.display(), "Linux x32");
    assert_eq!(Platform::Nix32.to_string(), String::from("Linux x32"));
    assert_eq!(Platform::Mac64.to_short_string(), String::from("mac64"));
}

#[test]
fn iterator_order() {
    assert_eq!(
        Platform::iterator(),
        vec![
            Platform::Win64,
            Platform::Win32,
            Platform::Nix64,
            Platform::Nix32,
            Platform::Mac64,
            Platform::Mac32,
        ]
    );
}

#[test]
fn compatibility_asymmetry() {
    assert!(Platform::Win32.is_compatible(&Platform::Win64));
    assert!(!Platform::Win64.is_compatible(&Platform::Win32));
    assert!(Platform::Nix64.is_compatible(&Platform::Nix64));
    assert!(!Platform::Nix32.is_compatible(&Platform::Win64));
    assert!(!Platform::Unknown.is_compatible(&Platform::Unknown));
}

#[test]
fn execution_platforms() {
    assert_eq!(
        Platform::get_execution_platform_for(&Platform::Win64),
        vec![Platform::Win64, Platform::Win32]
    );
    assert_eq!(Platform::get_execution_platform_for(&Platform::Win32), vec![Platform::Win32]);
    assert_eq!(
        Platform::get_execution_platform_for(&Platform::Nix64),
        vec![Platform::Nix64, Platform::Nix32]
    );
    assert_eq!(Platform::get_execution_platform_for(&Platform::Nix32), vec![Platform::Nix32]);
    assert_eq!(
        Platform::get_execution_platform_for(&Platform::Mac64),
        vec![Platform::Mac64, Platform::Mac32]
    );
    assert_eq!(Platform::get_execution_platform_for(&Platform::Mac32), vec![Platform::Mac32]);
    assert!(Platform::get_execution_platform_for(&Platform::Unknown).is_empty());
}

#[test]
fn host_platform() {
    assert_eq!(
        Platform::get_user_platform(PartialPlatform::Linux, Architecture::X64),
        Platform::Nix64
    );
    assert_eq!(
        Platform::get_user_platform(PartialPlatform::Windows, Architecture::X32),
        Platform::Win32
    );
    assert_eq!(
        Platform::get_user_platform(PartialPlatform::Mac, Architecture::X64),
        Platform::Mac64
    );
    assert_eq!(
        Platform::get_valid_execution_platform(PartialPlatform::Mac, Architecture::X64),
        vec![Platform::Mac64, Platform::Mac32]
    );
    assert!(Platform::Win32.is_valid_execution_platform(PartialPlatform::Windows, Architecture::X64));
    assert!(!Platform::Win64.is_valid_execution_platform(PartialPlatform::Windows, Architecture::X32));
    assert!(!Platform::Nix64.is_valid_execution_platform(PartialPlatform::Mac, Architecture::X64));
    assert!(!Platform::Unknown.is_valid_execution_platform(PartialPlatform::Linux, Architecture::X64));
}

#[test]
fn partial_equality() {
    assert!(Platform::Nix64 == PartialPlatform::Linux);
    assert!(Platform::Nix64 == Architecture::X64);
    assert!(!(Platform::Nix64 == PartialPlatform::Windows));
    assert!(PartialPlatform::Linux == Platform::Nix64);
    assert!(Architecture::X64 == Platform::Nix64);
    assert!(PartialPlatform::Windows == Platform::Win32);
    assert!(PartialPlatform::Mac == Platform::Mac64);
    assert!(Architecture::X32 == Platform::Mac32);
    assert!(Architecture::X32 != Platform::Win64);
}

#[test]
fn unknown_equals_no_partial() {
    for os in [PartialPlatform::Windows, PartialPlatform::Linux, PartialPlatform::Mac] {
        assert!(Platform::Unknown != os);
        assert!(os != Platform::Unknown);
    }
    for arch in [Architecture::X64, Architecture::X32] {
        assert!(Platform::Unknown != arch);
        assert!(arch != Platform::Unknown);
    }
}

#[test]
fn clone_keeps_platform() {
    for p in Platform::iterator() {
        assert_eq!(p.clone(), p);
    }
    assert_eq!(Platform::Unknown.clone(), Platform::Unknown);
}
