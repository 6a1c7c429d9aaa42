use std::io::Write;

use updater::archive::{entry_out_path, extract_plan};
use updater::Config;

fn build_zip(entries: &[(&str, Option<&[u8]>)]) -> Vec<u8> {
    let cursor = std::io::Cursor::new(Vec::new());
    let mut w = zip::ZipWriter::new(cursor);
    let opts = zip::write::SimpleFileOptions::default()
        .compression_method(zip::CompressionMethod::Stored);
    for (name, data) in entries {
        match data {
            Some(bytes) => {
                w.start_file(*name, opts).unwrap();
                w.write_all(bytes).unwrap();
            }
            None => {
                w.add_directory(*name, opts).unwrap();
            }
        }
    }
    w.finish().unwrap().into_inner()
}

#[test]
fn staging_rule_on_paths() {
    let cfg = Config::standard();
    assert_eq!(
        entry_out_path(&cfg, "LetMeSleep-Updater.exe"),
        "LetMeSleep-Updater.new.exe"
    );
    assert_eq!(
        entry_out_path(&cfg, "deep/nested/LETMESLEEP-UPDATER.EXE"),
        "LetMeSleep-Updater.new.exe"
    );
    assert_eq!(
        entry_out_path(&cfg, "deep\\letmesleep-updater.exe"),
        "LetMeSleep-Updater.new.exe"
    );
    assert_eq!(entry_out_path(&cfg, "LetMeSleep.exe"), "LetMeSleep.exe");
    assert_eq!(entry_out_path(&cfg, "sub/data.bin"), "sub/data.bin");
    assert_eq!(entry_out_path(&cfg, "sub\\deep\\data.bin"), "sub/deep/data.bin");
}

#[test]
fn plan_maps_every_entry() {
    let cfg = Config::standard();
    let bytes = build_zip(&[
        ("LetMeSleep.exe", Some(b"app-bytes".as_slice())),
        ("docs/", None),
        ("docs/readme.txt", Some(b"hello".as_slice())),
        ("tools/LetMeSleep-Updater.exe", Some(b"new-updater".as_slice())),
    ]);
    let plan = extract_plan(&cfg, bytes).unwrap();
    assert_eq!(plan.len(), 4);

    assert_eq!(plan[0].path, "LetMeSleep.exe");
    assert!(!plan[0].is_dir);
    assert_eq!(plan[0].data, b"app-bytes");

    assert_eq!(plan[1].path, "docs/");
    assert!(plan[1].is_dir);

    assert_eq!(plan[2].path, "docs/readme.txt");
    assert_eq!(plan[2].data, b"hello");

    assert_eq!(plan[3].path, "LetMeSleep-Updater.new.exe");
    assert!(!plan[3].is_dir);
    assert_eq!(plan[3].data, b"new-updater");
}

#[test]
fn staging_applies_in_any_case_and_depth() {
    let cfg = Config::standard();
    let bytes = build_zip(&[("a/b/LETMESLEEP-UPDATER.EXE", Some(b"x".as_slice()))]);
    let plan = extract_plan(&cfg, bytes).unwrap();
    assert_eq!(plan.len(), 1);
    assert_eq!(plan[0].path, "LetMeSleep-Updater.new.exe");
}

#[test]
fn plan_normalizes_separators() {
    let cfg = Config::standard();
    let bytes = build_zip(&[("dir\\file.txt", Some(b"d".as_slice()))]);
    let plan = extract_plan(&cfg, bytes).unwrap();
    assert_eq!(plan.len(), 1);
    assert_eq!(plan[0].path, "dir/file.txt");
}

#[test]
fn invalid_bytes_fail() {
    let cfg = Config::standard();
    assert!(extract_plan(&cfg, vec![1, 2, 3, 4]).is_err());
    assert!(extract_plan(&cfg, Vec::new()).is_err());
}

#[test]
fn empty_archive_plans_nothing() {
    let cfg = Config::standard();
    let bytes = build_zip(&[]);
    let plan = extract_plan(&cfg, bytes).unwrap();
    assert!(plan.is_empty());
}
