//! A self-updating launcher library: version bookkeeping, release
//! selection, archive deployment planning, executable discovery and the
//! update orchestration state machine, all with verified contracts.
//! Filesystem, network and process work is left to a thin driver that
//! feeds results back in as events.
use vstd::prelude::*;
use vstd::string::StrSliceExecFns;

pub mod strutil;
pub mod version;
pub mod release;
pub mod locate;
pub mod archive;
pub mod selfreplace;
pub mod machine;

verus! {

/// Installation-specific names, injected at startup so that the logic can
/// be exercised against fakes.
pub struct Config {
    /// Well-known image name of the application executable.
    pub app_exe: String,
    /// Image name of the updater itself.
    pub updater_exe: String,
    /// Name under which a fresh copy of the updater is staged.
    pub staged_name: String,
    /// `owner/repo` identifier of the hosted release index.
    pub repo: String,
}

pub ghost struct ConfigV {
    pub app_exe: Seq<char>,
    pub updater_exe: Seq<char>,
    pub staged_name: Seq<char>,
    pub repo: Seq<char>,
}

impl View for Config {
    type V = ConfigV;

    open spec fn view(&self) -> ConfigV {
        ConfigV {
            app_exe: self.app_exe@,
            updater_exe: self.updater_exe@,
            staged_name: self.staged_name@,
            repo: self.repo@,
        }
    }
}

impl ConfigV {
    /// The compiled-in names of the shipped installation.
    pub open spec fn standard_spec() -> ConfigV {
        ConfigV {
            app_exe: "LetMeSleep.exe"@,
            updater_exe: "LetMeSleep-Updater.exe"@,
            staged_name: "LetMeSleep-Updater.new.exe"@,
            repo: "cytsai1008/let-me-sleep"@,
        }
    }
}

impl Config {
    /// The compiled-in configuration of the shipped installation.
    pub fn standard() -> (r: Config)
        ensures
            r@ == ConfigV::standard_spec(),
    {
        Config {
            app_exe: "LetMeSleep.exe".to_owned(),
            updater_exe: "LetMeSleep-Updater.exe".to_owned(),
            staged_name: "LetMeSleep-Updater.new.exe".to_owned(),
            repo: "cytsai1008/let-me-sleep".to_owned(),
        }
    }
}

/// A path rendered relative to a base directory: the base itself shows as
/// `.`, a path below the base (after either separator) shows without the
/// base prefix, and anything else shows unchanged.
pub open spec fn pretty_path_spec(p: Seq<char>, base: Seq<char>) -> Seq<char> {
    if p == base {
        "."@
    } else if base.len() < p.len() && p.take(base.len() as int) == base && strutil::is_sep(
        p[base.len() as int],
    ) {
        p.skip(base.len() as int + 1)
    } else {
        p
    }
}

/// Renders `path` relative to `base_dir` for display.
pub fn pretty_path(path: &str, base_dir: &str) -> (r: String)
    ensures
        r@ == pretty_path_spec(path@, base_dir@),
{
    let plen = path.unicode_len();
    let blen = base_dir.unicode_len();
    if strutil::str_eq(path, base_dir) {
        return ".".to_owned();
    }
    if blen < plen && strutil::str_eq(path.substring_char(0, blen), base_dir) {
        proof {
            assert(path@.take(blen as int) == base_dir@);
        }
        let c = path.get_char(blen);
        if c == '/' || c == '\\' {
            return path.substring_char(blen + 1, plen).to_owned();
        }
    }
    path.to_owned()
}

} // verus!
