use platform_lp::Platform;

fn concrete() -> Vec<Platform> {
    Platform::iterator()
}

#[test]
fn long_form_round_trip() {
    for p in concrete() {
        assert_eq!(Platform::new(p.as_str()), p);
    }
    assert_eq!(Platform::new(Platform::Unknown.as_str()), Platform::Unknown);
}

#[test]
fn short_form_round_trip() {
    for p in concrete() {
        assert_eq!(Platform::new(p.as_short_str()), p);
        assert_eq!(Platform::new(&p.to_short_string()), p);
    }
    assert_eq!(Platform::new("None"), Platform::Unknown);
}

#[test]
fn unrecognized_text_is_unknown() {
    assert_eq!(Platform::new(""), Platform::Unknown);
    assert_eq!(Platform::new("hello world"), Platform::Unknown);
    assert_eq!(Platform::new("solaris sparc"), Platform::Unknown);
    assert_eq!(Platform::new("64"), Platform::Unknown);
}

#[test]
fn case_insensitive() {
    assert_eq!(Platform::new("LINUX64"), Platform::Nix64);
    assert_eq!(Platform::new("LINUX64"), Platform::new("linux64"));
    assert_eq!(Platform::new("W32"), Platform::Win32);
    assert_eq!(Platform::new("MAC OS X32"), Platform::Mac32);
}

#[test]
fn keyword_override_order() {
    assert_eq!(Platform::new("winmac64"), Platform::Mac64);
    assert_eq!(Platform::new("mac-on-windows"), Platform::Mac32);
    assert_eq!(Platform::new("win lin 64"), Platform::Nix64);
    assert_eq!(Platform::new("apple linux"), Platform::Mac32);
}

#[test]
fn width_defaults_to_32() {
    assert_eq!(Platform::new("linux"), Platform::Nix32);
    assert_eq!(Platform::new("windows"), Platform::Win32);
    assert_eq!(Platform::new("macos"), Platform::Mac32);
}

#[test]
fn aliases() {
    assert_eq!(Platform::new("l64"), Platform::Nix64);
    assert_eq!(Platform::new("l32"), Platform::Nix32);
    assert_eq!(Platform::new("w64"), Platform::Win64);
    assert_eq!(Platform::new("m64"), Platform::Mac64);
    assert_eq!(Platform::new("M32"), Platform::Mac32);
    assert_eq!(Platform::new("nix32"), Platform::Nix32);
}

#[test]
fn exact_long_names() {
    assert_eq!(Platform::new("Linux x86_64"), Platform::Nix64);
    assert_eq!(Platform::new("Windows x32"), Platform::Win32);
    assert_eq!(Platform::new("Mac OS x86_64"), Platform::Mac64);
}

#[test]
fn from_lowercase_takes_the_given_lowercase() {
    assert_eq!(Platform::from_lowercase("LINUX64", "linux64"), Platform::Nix64);
    assert_eq!(Platform::from_lowercase("LINUX64", "LINUX64"), Platform::Unknown);
    assert_eq!(Platform::from_lowercase("Mac OS x32", "zzz"), Platform::Mac32);
    assert_eq!(Platform::from_lowercase("x", "w64"), Platform::Win64);
}
