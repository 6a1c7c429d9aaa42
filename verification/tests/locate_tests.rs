use updater::locate::{file_ext, resolve, FsEntry};
use updater::Config;

fn f(name: &str) -> FsEntry {
    FsEntry {
        name: name.to_string(),
        is_dir: false,
    }
}

fn d(name: &str) -> FsEntry {
    FsEntry {
        name: name.to_string(),
        is_dir: true,
    }
}

#[test]
fn root_executable_preferred_over_dist() {
    let cfg = Config::standard();
    let root = vec![d("App.dist"), f("LetMeSleep.exe")];
    let subs = vec![vec![f("LetMeSleep.exe")], vec![]];
    let r = resolve(&cfg, &root, &subs).unwrap();
    assert!(r.dir.is_none());
    assert_eq!(r.file, "LetMeSleep.exe");
}

#[test]
fn root_executable_found_case_insensitively() {
    let cfg = Config::standard();
    let root = vec![f("letmesleep.EXE")];
    let subs = vec![vec![]];
    let r = resolve(&cfg, &root, &subs).unwrap();
    assert!(r.dir.is_none());
    assert_eq!(r.file, "LetMeSleep.exe");
}

#[test]
fn dist_well_known_name_preferred_over_other_exe() {
    let cfg = Config::standard();
    let root = vec![f("VERSION"), d("App.dist")];
    let subs = vec![vec![], vec![f("Other.exe"), f("LetMeSleep.exe")]];
    let r = resolve(&cfg, &root, &subs).unwrap();
    assert_eq!(r.dir.as_deref(), Some("App.dist"));
    assert_eq!(r.file, "LetMeSleep.exe");
}

#[test]
fn dist_fallback_skips_updater_and_staged() {
    let cfg = Config::standard();
    let root = vec![d("App.dist")];
    let subs = vec![vec![
        f("LetMeSleep-Updater.exe"),
        f("letmesleep-updater.NEW.exe"),
        f("readme.txt"),
        f("Player.exe"),
        f("Second.exe"),
    ]];
    let r = resolve(&cfg, &root, &subs).unwrap();
    assert_eq!(r.dir.as_deref(), Some("App.dist"));
    assert_eq!(r.file, "Player.exe");
}

#[test]
fn non_dist_directories_are_ignored() {
    let cfg = Config::standard();
    let root = vec![d("data"), d("App.dist2")];
    let subs = vec![vec![f("LetMeSleep.exe")], vec![f("LetMeSleep.exe")]];
    assert!(resolve(&cfg, &root, &subs).is_none());
}

#[test]
fn nothing_found_is_none() {
    let cfg = Config::standard();
    let root = vec![f("VERSION"), f("LetMeSleep-Updater.exe")];
    let subs = vec![vec![], vec![]];
    assert!(resolve(&cfg, &root, &subs).is_none());
}

#[test]
fn first_dist_dir_with_candidate_wins() {
    let cfg = Config::standard();
    let root = vec![d("a.dist"), d("b.dist")];
    let subs = vec![vec![f("notes.md")], vec![f("Run.exe")]];
    let r = resolve(&cfg, &root, &subs).unwrap();
    assert_eq!(r.dir.as_deref(), Some("b.dist"));
    assert_eq!(r.file, "Run.exe");
}

#[test]
fn dist_suffix_is_case_sensitive() {
    let cfg = Config::standard();
    let root = vec![d("App.DIST")];
    let subs = vec![vec![f("LetMeSleep.exe")]];
    assert!(resolve(&cfg, &root, &subs).is_none());
}

#[test]
fn extension_rules() {
    assert_eq!(file_ext("a.exe"), Some("exe"));
    assert_eq!(file_ext("a.tar.gz"), Some("gz"));
    assert_eq!(file_ext("noext"), None);
    assert_eq!(file_ext(".hidden"), None);
    assert_eq!(file_ext("trailing."), Some(""));
}
