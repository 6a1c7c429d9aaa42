use updater::pretty_path;
use updater::selfreplace::{escape_quotes, replacement_script};
use updater::strutil::{base_name, ends_with_str, normalize_seps, str_eq_ic, trim_ws};

#[test]
fn pretty_path_cases() {
    assert_eq!(pretty_path("C:/app", "C:/app"), ".");
    assert_eq!(pretty_path("C:/app/sub/file.txt", "C:/app"), "sub/file.txt");
    assert_eq!(pretty_path("C:\\app\\sub", "C:\\app"), "sub");
    assert_eq!(pretty_path("D:/other", "C:/app"), "D:/other");
    assert_eq!(pretty_path("C:/apps", "C:/app"), "C:/apps");
}

#[test]
fn suffix_test() {
    assert!(ends_with_str("app-1.3.0.zip", ".zip"));
    assert!(!ends_with_str("app.zip.txt", ".zip"));
    assert!(!ends_with_str("zip", ".zip"));
    assert!(ends_with_str("anything", ""));
}

#[test]
fn base_name_cases() {
    assert_eq!(base_name("a/b/c.exe"), "c.exe");
    assert_eq!(base_name("c.exe"), "c.exe");
    assert_eq!(base_name("a\\b\\c.exe"), "c.exe");
    assert_eq!(base_name("mixed/path\\c.exe"), "c.exe");
    assert_eq!(base_name("dir/"), "");
    assert_eq!(base_name(""), "");
}

#[test]
fn case_insensitive_equality() {
    assert!(str_eq_ic("LetMeSleep.EXE", "letmesleep.exe"));
    assert!(!str_eq_ic("LetMeSleep.exe", "LetMeSleep.ex"));
    assert!(!str_eq_ic("a", "b"));
    assert!(str_eq_ic("", ""));
}

#[test]
fn trimming() {
    assert_eq!(trim_ws("  v1.2.3\r\n"), "v1.2.3");
    assert_eq!(trim_ws("\u{a0}7.0.1\u{3000}"), "7.0.1");
    assert_eq!(trim_ws("x"), "x");
    assert_eq!(trim_ws("   "), "");
    assert_eq!(trim_ws(""), "");
}

#[test]
fn separator_normalization() {
    assert_eq!(normalize_seps("a\\b\\c.txt"), "a/b/c.txt");
    assert_eq!(normalize_seps("a/b"), "a/b");
    assert_eq!(normalize_seps(""), "");
}

#[test]
fn quote_escaping() {
    assert_eq!(escape_quotes("plain"), "plain");
    assert_eq!(escape_quotes("a\"b"), "a\"\"b");
    assert_eq!(escape_quotes("\"\""), "\"\"\"\"");
}

#[test]
fn helper_script_text() {
    let s = replacement_script("C:/a/LetMeSleep-Updater.new.exe", "C:/a/LetMeSleep-Updater.exe");
    assert_eq!(
        s,
        "$src=\"C:/a/LetMeSleep-Updater.new.exe\"; $dst=\"C:/a/LetMeSleep-Updater.exe\"; \
         for($i=0; $i -lt 40; $i++) { try { Move-Item -LiteralPath $src -Destination $dst \
         -Force -ErrorAction Stop; exit 0 } catch { Start-Sleep -Milliseconds 500 } }; exit 1"
    );
}
