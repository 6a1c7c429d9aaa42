use updater::release::{check_release, release_url, Asset, Release};
use updater::version::Version;

fn v(major: u64, minor: u64, patch: u64) -> Version {
    Version {
        major,
        minor,
        patch,
        pre: String::new(),
        build: String::new(),
    }
}

fn asset(name: &str, url: &str, size: u64) -> Asset {
    Asset {
        name: name.to_string(),
        url: url.to_string(),
        size,
    }
}

#[test]
fn newer_release_with_zip_asset_is_update() {
    let rel = Release {
        tag_name: "v1.3.0".to_string(),
        assets: vec![asset("app-1.3.0.zip", "https://dl.example/app-1.3.0.zip", 1000)],
    };
    let (tag, a) = check_release(&rel, &v(1, 2, 0)).unwrap();
    assert_eq!(tag, "v1.3.0");
    assert_eq!(a.name, "app-1.3.0.zip");
    assert_eq!(a.url, "https://dl.example/app-1.3.0.zip");
    assert_eq!(a.size, 1000);
}

#[test]
fn equal_version_is_no_update() {
    let rel = Release {
        tag_name: "v1.2.0".to_string(),
        assets: vec![asset("app-1.2.0.zip", "u", 10)],
    };
    assert!(check_release(&rel, &v(1, 2, 0)).is_none());
}

#[test]
fn older_version_is_no_update() {
    let rel = Release {
        tag_name: "v1.1.9".to_string(),
        assets: vec![asset("app.zip", "u", 10)],
    };
    assert!(check_release(&rel, &v(1, 2, 0)).is_none());
}

#[test]
fn newer_without_archive_asset_is_no_update() {
    let rel = Release {
        tag_name: "v9.9.9".to_string(),
        assets: vec![
            asset("notes.txt", "u", 1),
            asset("app.tar.gz", "u", 2),
            asset("zip-manual.pdf", "u", 3),
        ],
    };
    assert!(check_release(&rel, &v(1, 2, 0)).is_none());
}

#[test]
fn first_zip_asset_wins() {
    let rel = Release {
        tag_name: "v2.0.0".to_string(),
        assets: vec![
            asset("readme.md", "u0", 1),
            asset("first.zip", "u1", 2),
            asset("second.zip", "u2", 3),
        ],
    };
    let (_, a) = check_release(&rel, &v(1, 0, 0)).unwrap();
    assert_eq!(a.name, "first.zip");
    assert_eq!(a.url, "u1");
}

#[test]
fn unparsable_tag_is_no_update() {
    let rel = Release {
        tag_name: "nightly".to_string(),
        assets: vec![asset("app.zip", "u", 10)],
    };
    assert!(check_release(&rel, &v(0, 0, 0)).is_none());
}

#[test]
fn zero_version_takes_any_release() {
    let rel = Release {
        tag_name: "v0.0.1".to_string(),
        assets: vec![asset("a.zip", "u", 1)],
    };
    assert!(check_release(&rel, &Version::zero()).is_some());
}

#[test]
fn release_outranks_prerelease_of_same_triple() {
    let current = Version {
        major: 1,
        minor: 0,
        patch: 0,
        pre: "alpha".to_string(),
        build: String::new(),
    };
    let rel = Release {
        tag_name: "v1.0.0".to_string(),
        assets: vec![asset("a.zip", "u", 1)],
    };
    assert!(check_release(&rel, &current).is_some());

    let rel_pre = Release {
        tag_name: "v1.0.0-alpha".to_string(),
        assets: vec![asset("a.zip", "u", 1)],
    };
    assert!(check_release(&rel_pre, &v(1, 0, 0)).is_none());

    let rel_beta = Release {
        tag_name: "v1.0.0-beta".to_string(),
        assets: vec![asset("a.zip", "u", 1)],
    };
    assert!(check_release(&rel_beta, &current).is_some());
}

#[test]
fn archive_extension_is_case_sensitive() {
    let rel = Release {
        tag_name: "v9.0.0".to_string(),
        assets: vec![asset("APP.ZIP", "u", 1), asset("app.Zip", "u", 2)],
    };
    assert!(check_release(&rel, &v(1, 0, 0)).is_none());
}

#[test]
fn release_url_shape() {
    assert_eq!(
        release_url("cytsai1008/let-me-sleep"),
        "https://api.github.com/repos/cytsai1008/let-me-sleep/releases/latest"
    );
}
