use platform_lp::{Architecture, PartialPlatform, Platform};

#[test]
fn new() {
    assert_eq!(Platform::new("linux64"), Platform::Nix64);
    assert_eq!(Platform::new("w32"), Platform::Win32);
    assert_eq!(Platform::new("linux i686"), Platform::Nix32);
    assert_eq!(Platform::new("aPpLe 64 bit"), Platform::Mac64);
}

#[test]
fn clone() {
    let plat1 = Platform::new("linux64");
    let plat2 = plat1.clone();
    let plat3 = &plat1;

    assert_eq!(plat1, plat2);
    assert_eq!(std::ptr::eq(&plat1, plat3), true);
    assert_eq!(std::ptr::eq(&plat1, &plat2), false);
}

#[test]
fn trait_display() {
    let platform = Platform::new("linux 64)");
    println!("{}", platform.to_string());
}

#[test]
fn partials() {
    let platform = Platform::new("linux 64)");

    assert!(platform == PartialPlatform::Linux);
    assert!(platform != PartialPlatform::Windows);
    assert!(platform != Architecture::X32);
    assert!(platform == Architecture::X64);
}
