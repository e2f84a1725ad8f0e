use kekbit::version::Version;

#[test]
fn version_check_version_creation() {
    for i in 1..1024u16 {
        let v = Version::new(i, i, i as u32);
        assert!(v.major() == i);
        assert!(v.minor() == i);
        assert!(v.patch() == i as u32);
        let v_u64: u64 = v.into();
        assert!(v_u64 == v.packed());
        assert!(v.to_string() == format!("{}.{}.{}", i, i, i));
    }
}

#[test]
fn check_version_creation() {
    for i in 1..1024u16 {
        let v = Version::new(i, i, i as u32);
        assert!(v.major() == i);
        assert!(v.minor() == i);
        assert!(v.patch() == i as u32);
        let v_u64: u64 = v.into();
        assert!(v_u64 == u64::from(v));
        assert!(v.to_string() == format!("{}.{}.{}", i, i, i));
    }
}

#[test]
fn check_conversion() {
    let v1 = Version::new(1, 2, 3);
    let v_u64: u64 = v1.into();
    let v2 = Version::from(v_u64);
    assert_eq!(v1, v2);
    let v3: Version = v_u64.into();
    assert_eq!(v1, v3);
}

#[test]
fn version_packing_layout() {
    let v = Version::new(1, 2, 3);
    assert_eq!(v.packed(), (1u64 << 48) | (2u64 << 32) | 3);
    assert_eq!(Version::latest().packed(), 1u64 << 48);
    assert_eq!(Version::latest().to_string(), "1.0.0");
    assert_eq!(Version::new(65535, 65535, u32::MAX).packed(), u64::MAX);
}

#[test]
fn version_compatibility() {
    let latest = Version::latest();
    assert!(latest.is_compatible(Version::new(0, 9, 9)));
    assert!(latest.is_compatible(latest));
    assert!(!latest.is_compatible(Version::new(1, 0, 1)));
    assert!(!latest.is_compatible(Version::new(2, 0, 0)));
}
