use sdl2_version::version::{NativeVersion, Version};

#[test]
fn equal_triples_compare_equal() {
    let a = Version { major: 2, minor: 0, patch: 4 };
    let b = Version { major: 2, minor: 0, patch: 4 };
    assert_eq!(a, b);
    let z1 = Version { major: 0, minor: 0, patch: 0 };
    let z2 = Version { major: 0, minor: 0, patch: 0 };
    assert_eq!(z1, z2);
    let m1 = Version { major: 255, minor: 255, patch: 255 };
    let m2 = Version { major: 255, minor: 255, patch: 255 };
    assert_eq!(m1, m2);
}

#[test]
fn different_triples_compare_unequal() {
    let a = Version { major: 2, minor: 0, patch: 4 };
    assert_ne!(a, Version { major: 3, minor: 0, patch: 4 });
    assert_ne!(a, Version { major: 2, minor: 1, patch: 4 });
    assert_ne!(a, Version { major: 2, minor: 0, patch: 5 });
}

#[test]
fn renders_zero_triple() {
    let v = Version { major: 0, minor: 0, patch: 0 };
    assert_eq!(v.to_string(), "0.0.0");
}

#[test]
fn renders_max_triple() {
    let v = Version { major: 255, minor: 255, patch: 255 };
    assert_eq!(v.to_string(), "255.255.255");
}

#[test]
fn renders_mixed_width_triple() {
    let v = Version { major: 10, minor: 3, patch: 99 };
    assert_eq!(v.to_string(), "10.3.99");
    let w = Version { major: 100, minor: 0, patch: 7 };
    assert_eq!(w.to_string(), "100.0.7");
}

#[test]
fn from_ll_returns_the_filled_record() {
    let filled = NativeVersion { major: 2, minor: 0, patch: 4 };
    let v = Version::from_ll(&filled);
    assert_eq!(v, Version { major: 2, minor: 0, patch: 4 });
    assert_eq!(v.to_string(), "2.0.4");
}

#[test]
fn from_ll_returns_the_zero_record() {
    let filled = NativeVersion { major: 0, minor: 0, patch: 0 };
    let v = Version::from_ll(&filled);
    assert_eq!(v, Version { major: 0, minor: 0, patch: 0 });
    assert_eq!(v.to_string(), "0.0.0");
}
