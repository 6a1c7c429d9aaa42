use updater::version::{parse_tag, read_marker, version_string, Version};

fn v(major: u64, minor: u64, patch: u64) -> Version {
    Version {
        major,
        minor,
        patch,
        pre: String::new(),
        build: String::new(),
    }
}

#[test]
fn parse_tag_with_v_prefix() {
    let p = parse_tag("v1.3.0").unwrap();
    assert_eq!(p.major, 1);
    assert_eq!(p.minor, 3);
    assert_eq!(p.patch, 0);
    assert_eq!(p.pre, "");
    assert_eq!(p.build, "");
}

#[test]
fn parse_tag_without_prefix() {
    let p = parse_tag("2.0.11").unwrap();
    assert_eq!(p.major, 2);
    assert_eq!(p.minor, 0);
    assert_eq!(p.patch, 11);
}

#[test]
fn parse_tag_pre_and_build() {
    let p = parse_tag("v1.2.3-rc.1+build.5").unwrap();
    assert_eq!(p.major, 1);
    assert_eq!(p.pre, "rc.1");
    assert_eq!(p.build, "build.5");
}

#[test]
fn parse_tag_rejects_garbage() {
    assert!(parse_tag("").is_none());
    assert!(parse_tag("not-a-version").is_none());
    assert!(parse_tag("1.2").is_none());
    assert!(parse_tag("1.02.3").is_none());
    assert!(parse_tag("vv1.2.3").is_none());
}

#[test]
fn read_marker_missing_is_zero() {
    let r = read_marker(None);
    assert_eq!((r.major, r.minor, r.patch), (0, 0, 0));
    assert_eq!(r.pre, "");
}

#[test]
fn read_marker_empty_is_zero() {
    let r = read_marker(Some(&String::new()));
    assert_eq!((r.major, r.minor, r.patch), (0, 0, 0));
}

#[test]
fn read_marker_garbage_is_zero() {
    let r = read_marker(Some(&"three point one".to_string()));
    assert_eq!((r.major, r.minor, r.patch), (0, 0, 0));
}

#[test]
fn read_marker_trims_and_strips_v() {
    let r = read_marker(Some(&"  v4.5.6\r\n".to_string()));
    assert_eq!((r.major, r.minor, r.patch), (4, 5, 6));
    let r = read_marker(Some(&"\u{a0}2.7.1\u{a0}".to_string()));
    assert_eq!((r.major, r.minor, r.patch), (2, 7, 1));
}

#[test]
fn marker_round_trip() {
    let w = Version {
        major: 1,
        minor: 3,
        patch: 0,
        pre: "rc.2".to_string(),
        build: "e0f".to_string(),
    };
    let text = version_string(&w);
    assert_eq!(text, "1.3.0-rc.2+e0f");
    let r = read_marker(Some(&text));
    assert_eq!((r.major, r.minor, r.patch), (1, 3, 0));
    assert_eq!(r.pre, "rc.2");
    assert_eq!(r.build, "e0f");
}

#[test]
fn version_string_plain() {
    assert_eq!(version_string(&v(10, 0, 7)), "10.0.7");
}

#[test]
fn version_zero() {
    let z = Version::zero();
    assert_eq!(version_string(&z), "0.0.0");
}

#[test]
fn version_string_largest_fields() {
    assert_eq!(
        version_string(&v(18446744073709551615, 0, 18446744073709551615)),
        "18446744073709551615.0.18446744073709551615"
    );
}
