//! Executable discovery: the well-known name in the installation root
//! wins; otherwise the first distribution subdirectory supplies either its
//! own copy of the well-known name or its first executable file that is
//! neither the updater nor a staged replacement.
use vstd::prelude::*;
use vstd::string::StrSliceExecFns;
use crate::strutil::{seq_eq_ic, str_eq_ic, spec_ends_with, ends_with_str};
use crate::{Config, ConfigV};

verus! {

/// One directory entry, as the driver lists it.
pub struct FsEntry {
    pub name: String,
    pub is_dir: bool,
}

pub ghost struct FsEntryV {
    pub name: Seq<char>,
    pub is_dir: bool,
}

impl View for FsEntry {
    type V = FsEntryV;

    open spec fn view(&self) -> FsEntryV {
        FsEntryV { name: self.name@, is_dir: self.is_dir }
    }
}

/// A resolved executable: a file name, optionally inside one
/// distribution subdirectory of the installation root.
pub struct ResolvedExe {
    pub dir: Option<String>,
    pub file: String,
}

pub ghost struct ResolvedV {
    pub dir: Option<Seq<char>>,
    pub file: Seq<char>,
}

impl View for ResolvedExe {
    type V = ResolvedV;

    open spec fn view(&self) -> ResolvedV {
        ResolvedV {
            dir: match self.dir {
                Option::None => Option::None,
                Option::Some(d) => Option::Some(d@),
            },
            file: self.file@,
        }
    }
}

pub open spec fn entries_view(v: Vec<FsEntry>) -> Seq<FsEntryV> {
    v@.map_values(|e: FsEntry| e@)
}

pub open spec fn subs_view(v: Vec<Vec<FsEntry>>) -> Seq<Seq<FsEntryV>> {
    v@.map_values(|s: Vec<FsEntry>| entries_view(s))
}

/// Whether some entry carries this name, up to ASCII case (the listing
/// models a case-insensitive filesystem).
pub open spec fn has_entry_ic(entries: Seq<FsEntryV>, name: Seq<char>) -> bool {
    exists|i: int| 0 <= i < entries.len() && seq_eq_ic(#[trigger] entries[i].name, name)
}

/// A subdirectory holding a standalone distribution: its name ends in
/// `.dist`.
pub open spec fn is_dist_dir(e: FsEntryV) -> bool {
    e.is_dir && spec_ends_with(e.name, seq!['.', 'd', 'i', 's', 't'])
}

/// Index of the last `.` that begins an extension.
pub open spec fn last_dot(s: Seq<char>) -> Option<int>
    decreases s.len(),
{
    if s.len() == 0 {
        Option::None
    } else if s.last() == '.' {
        Option::Some(s.len() - 1)
    } else {
        last_dot(s.drop_last())
    }
}

/// The extension of a file name: what follows the last dot, provided that
/// dot is not the leading character.
pub open spec fn ext_spec(s: Seq<char>) -> Option<Seq<char>> {
    match last_dot(s) {
        Option::None => Option::None,
        Option::Some(j) => if j >= 1 {
            Option::Some(s.skip(j + 1))
        } else {
            Option::None
        },
    }
}

proof fn lemma_last_dot(s: Seq<char>, k: int)
    requires
        0 <= k <= s.len(),
        k == 0 || s[k - 1] == '.',
        forall|j: int| k <= j < s.len() ==> s[j] != '.',
    ensures
        last_dot(s) == if k == 0 {
            Option::<int>::None
        } else {
            Option::<int>::Some(k - 1)
        },
    decreases s.len() - k,
{
    if k == s.len() {
        if s.len() > 0 {
            assert(s.last() == s[k - 1]);
        }
    } else {
        assert(s.last() != '.');
        lemma_last_dot(s.drop_last(), k);
    }
}

/// Returns the extension of a file name, if it has one.
pub fn file_ext(s: &str) -> (r: Option<&str>)
    ensures
        r is Some <==> ext_spec(s@) is Some,
        r is Some ==> r.unwrap()@ == ext_spec(s@).unwrap(),
{
    let len = s.unicode_len();
    let mut k: usize = len;
    loop
        invariant
            k <= len,
            len == s@.len(),
            forall|j: int| k <= j < len ==> s@[j] != '.',
        ensures
            k <= len,
            len == s@.len(),
            forall|j: int| k <= j < len ==> s@[j] != '.',
            k == 0 || s@[k - 1] == '.',
        decreases k,
    {
        if k == 0 {
            break ;
        }
        if s.get_char(k - 1) == '.' {
            break ;
        }
        k -= 1;
    }
    proof {
        lemma_last_dot(s@, k as int);
    }
    if k <= 1 {
        None
    } else {
        Some(s.substring_char(k, len))
    }
}

/// A usable fallback inside a distribution directory: a file with the
/// executable extension that is neither the updater nor a staged
/// replacement.
pub open spec fn fallback_ok(cfg: ConfigV, e: FsEntryV) -> bool {
    &&& !e.is_dir
    &&& ext_spec(e.name) matches Some(x) && seq_eq_ic(x, seq!['e', 'x', 'e'])
    &&& !seq_eq_ic(e.name, cfg.updater_exe)
    &&& !seq_eq_ic(e.name, cfg.staged_name)
}

/// Name of the first usable fallback, scanning from `i`.
pub open spec fn first_fallback_from(cfg: ConfigV, entries: Seq<FsEntryV>, i: int) -> Option<
    Seq<char>,
>
    decreases entries.len() - i,
{
    if i < 0 || i >= entries.len() {
        Option::None
    } else if fallback_ok(cfg, entries[i]) {
        Option::Some(entries[i].name)
    } else {
        first_fallback_from(cfg, entries, i + 1)
    }
}

/// What one distribution directory offers: its own well-known executable,
/// else its first usable fallback.
pub open spec fn dist_result(cfg: ConfigV, dname: Seq<char>, entries: Seq<FsEntryV>) -> Option<
    ResolvedV,
> {
    if has_entry_ic(entries, cfg.app_exe) {
        Option::Some(ResolvedV { dir: Option::Some(dname), file: cfg.app_exe })
    } else {
        match first_fallback_from(cfg, entries, 0) {
            Option::None => Option::None,
            Option::Some(f) => Option::Some(ResolvedV { dir: Option::Some(dname), file: f }),
        }
    }
}

/// First distribution directory that offers an executable, scanning from
/// `i`.
pub open spec fn scan_from(
    cfg: ConfigV,
    root: Seq<FsEntryV>,
    subs: Seq<Seq<FsEntryV>>,
    i: int,
) -> Option<ResolvedV>
    decreases root.len() - i,
{
    if i < 0 || i >= root.len() {
        Option::None
    } else if is_dist_dir(root[i]) {
        match dist_result(cfg, root[i].name, subs[i]) {
            Option::Some(r) => Option::Some(r),
            Option::None => scan_from(cfg, root, subs, i + 1),
        }
    } else {
        scan_from(cfg, root, subs, i + 1)
    }
}

/// Where the application executable resolves: the installation root's
/// well-known name first, else the first distribution subdirectory that
/// offers one.
pub open spec fn resolve_spec(cfg: ConfigV, root: Seq<FsEntryV>, subs: Seq<Seq<FsEntryV>>) -> Option<
    ResolvedV,
> {
    if has_entry_ic(root, cfg.app_exe) {
        Option::Some(ResolvedV { dir: Option::None, file: cfg.app_exe })
    } else {
        scan_from(cfg, root, subs, 0)
    }
}

/// Whether some entry carries this name, up to ASCII case.
pub fn has_entry_ic_exec(entries: &Vec<FsEntry>, name: &str) -> (r: bool)
    ensures
        r == has_entry_ic(entries_view(*entries), name@),
{
    let n = entries.len();
    let mut i: usize = 0;
    while i < n
        invariant
            i <= n,
            n == entries@.len(),
            forall|j: int| 0 <= j < i ==> !seq_eq_ic(#[trigger] entries_view(*entries)[j].name, name@),
        decreases n - i,
    {
        if str_eq_ic(entries[i].name.as_str(), name) {
            proof {
                assert(entries_view(*entries)[i as int] == entries@[i as int]@);
                assert(seq_eq_ic(entries_view(*entries)[i as int].name, name@));
            }
            return true;
        }
        proof {
            assert(entries_view(*entries)[i as int] == entries@[i as int]@);
        }
        i += 1;
    }
    false
}

/// First usable fallback executable among the entries.
fn first_fallback(cfg: &Config, entries: &Vec<FsEntry>) -> (r: Option<String>)
    ensures
        r is Some <==> first_fallback_from(cfg@, entries_view(*entries), 0) is Some,
        r is Some ==> r.unwrap()@ == first_fallback_from(cfg@, entries_view(*entries), 0).unwrap(),
{
    let n = entries.len();
    let mut i: usize = 0;
    loop
        invariant
            i <= n,
            n == entries@.len(),
            first_fallback_from(cfg@, entries_view(*entries), 0) == first_fallback_from(
                cfg@,
                entries_view(*entries),
                i as int,
            ),
        ensures
            i == n,
            first_fallback_from(cfg@, entries_view(*entries), 0) is None,
        decreases n - i,
    {
        if i == n {
            break ;
        }
        let e = &entries[i];
        let ghost ev = entries_view(*entries)[i as int];
        let mut ok = false;
        if !e.is_dir {
            match file_ext(e.name.as_str()) {
                Some(x) => {
                    proof {
                        reveal_strlit("exe");
                        assert("exe"@ =~= seq!['e', 'x', 'e']);
                    }
                    if str_eq_ic(x, "exe") {
                        if !str_eq_ic(e.name.as_str(), cfg.updater_exe.as_str()) && !str_eq_ic(
                            e.name.as_str(),
                            cfg.staged_name.as_str(),
                        ) {
                            ok = true;
                        }
                    }
                },
                None => {},
            }
        }
        proof {
            assert(ok == fallback_ok(cfg@, ev));
        }
        if ok {
            proof {
                assert(first_fallback_from(cfg@, entries_view(*entries), i as int)
                    == Option::Some(ev.name));
            }
            return Some(e.name.clone());
        }
        i += 1;
    }
    None
}

/// Resolves the application executable from a listing of the installation
/// root and the listings of its subdirectories (`subs[i]` lists `root[i]`
/// when that entry is a directory).
pub fn resolve(cfg: &Config, root: &Vec<FsEntry>, subs: &Vec<Vec<FsEntry>>) -> (r: Option<
    ResolvedExe,
>)
    requires
        root@.len() == subs@.len(),
    ensures
        r is Some <==> resolve_spec(cfg@, entries_view(*root), subs_view(*subs)) is Some,
        r is Some ==> r.unwrap()@ == resolve_spec(cfg@, entries_view(*root), subs_view(*subs)).unwrap(),
{
    if has_entry_ic_exec(root, cfg.app_exe.as_str()) {
        return Some(ResolvedExe { dir: None, file: cfg.app_exe.clone() });
    }
    let n = root.len();
    let mut i: usize = 0;
    loop
        invariant
            i <= n,
            n == root@.len(),
            root@.len() == subs@.len(),
            !has_entry_ic(entries_view(*root), cfg@.app_exe),
            scan_from(cfg@, entries_view(*root), subs_view(*subs), 0) == scan_from(
                cfg@,
                entries_view(*root),
                subs_view(*subs),
                i as int,
            ),
        ensures
            i == n,
            scan_from(cfg@, entries_view(*root), subs_view(*subs), 0) is None,
        decreases n - i,
    {
        if i == n {
            break ;
        }
        let e = &root[i];
        proof {
            reveal_strlit(".dist");
            assert(".dist"@ =~= seq!['.', 'd', 'i', 's', 't']);
        }
        if e.is_dir && ends_with_str(e.name.as_str(), ".dist") {
            let sub = &subs[i];
            proof {
                assert(subs_view(*subs)[i as int] == entries_view(subs@[i as int]));
            }
            if has_entry_ic_exec(sub, cfg.app_exe.as_str()) {
                return Some(ResolvedExe { dir: Some(e.name.clone()), file: cfg.app_exe.clone() });
            }
            match first_fallback(cfg, sub) {
                Some(f) => {
                    return Some(ResolvedExe { dir: Some(e.name.clone()), file: f });
                },
                None => {},
            }
        }
        i += 1;
    }
    None
}

proof fn lemma_scan_reaches(
    cfg: ConfigV,
    root: Seq<FsEntryV>,
    subs: Seq<Seq<FsEntryV>>,
    i: int,
    k: int,
)
    requires
        0 <= i <= k <= root.len(),
        forall|j: int|
            i <= j < k ==> !(is_dist_dir(#[trigger] root[j]) && dist_result(
                cfg,
                root[j].name,
                subs[j],
            ) is Some),
    ensures
        scan_from(cfg, root, subs, i) == scan_from(cfg, root, subs, k),
    decreases k - i,
{
    if i < k {
        lemma_scan_reaches(cfg, root, subs, i + 1, k);
    }
}

/// When the installation root lacks the well-known executable and no
/// earlier distribution directory offers any executable, the first
/// distribution directory holding the well-known name resolves to its
/// own copy of that name.
pub proof fn lemma_first_dist_well_known(
    cfg: ConfigV,
    root: Seq<FsEntryV>,
    subs: Seq<Seq<FsEntryV>>,
    k: int,
)
    requires
        !has_entry_ic(root, cfg.app_exe),
        0 <= k < root.len(),
        root.len() == subs.len(),
        is_dist_dir(root[k]),
        has_entry_ic(subs[k], cfg.app_exe),
        forall|j: int|
            0 <= j < k ==> !(is_dist_dir(#[trigger] root[j]) && dist_result(
                cfg,
                root[j].name,
                subs[j],
            ) is Some),
    ensures
        resolve_spec(cfg, root, subs) == Option::Some(
            ResolvedV { dir: Option::Some(root[k].name), file: cfg.app_exe },
        ),
{
    lemma_scan_reaches(cfg, root, subs, 0, k);
}

/// The installation-root executable wins over every fallback.
pub proof fn lemma_resolve_prefers_root(cfg: ConfigV, root: Seq<FsEntryV>, subs: Seq<Seq<FsEntryV>>)
    requires
        has_entry_ic(root, cfg.app_exe),
    ensures
        resolve_spec(cfg, root, subs) == Option::Some(
            ResolvedV { dir: Option::None, file: cfg.app_exe },
        ),
{
}

/// Inside a distribution directory the well-known name wins over any
/// other executable file.
pub proof fn lemma_dist_prefers_known_name(cfg: ConfigV, dname: Seq<char>, entries: Seq<FsEntryV>)
    requires
        has_entry_ic(entries, cfg.app_exe),
    ensures
        dist_result(cfg, dname, entries) == Option::Some(
            ResolvedV { dir: Option::Some(dname), file: cfg.app_exe },
        ),
{
}

proof fn lemma_fallback_not_excluded(cfg: ConfigV, entries: Seq<FsEntryV>, i: int)
    requires
        first_fallback_from(cfg, entries, i) is Some,
    ensures
        !seq_eq_ic(first_fallback_from(cfg, entries, i).unwrap(), cfg.updater_exe),
        !seq_eq_ic(first_fallback_from(cfg, entries, i).unwrap(), cfg.staged_name),
    decreases entries.len() - i,
{
    if 0 <= i < entries.len() && !fallback_ok(cfg, entries[i]) {
        lemma_fallback_not_excluded(cfg, entries, i + 1);
    }
}

proof fn lemma_scan_not_excluded(cfg: ConfigV, root: Seq<FsEntryV>, subs: Seq<Seq<FsEntryV>>, i: int)
    requires
        !seq_eq_ic(cfg.app_exe, cfg.updater_exe),
        !seq_eq_ic(cfg.app_exe, cfg.staged_name),
        scan_from(cfg, root, subs, i) is Some,
    ensures
        !seq_eq_ic(scan_from(cfg, root, subs, i).unwrap().file, cfg.updater_exe),
        !seq_eq_ic(scan_from(cfg, root, subs, i).unwrap().file, cfg.staged_name),
    decreases root.len() - i,
{
    if 0 <= i < root.len() {
        if is_dist_dir(root[i]) && dist_result(cfg, root[i].name, subs[i]) is Some {
            if !has_entry_ic(subs[i], cfg.app_exe) {
                lemma_fallback_not_excluded(cfg, subs[i], 0);
            }
        } else {
            lemma_scan_not_excluded(cfg, root, subs, i + 1);
        }
    }
}

/// A resolved path never names the updater itself nor a staged
/// replacement.
pub proof fn lemma_resolve_never_updater(cfg: ConfigV, root: Seq<FsEntryV>, subs: Seq<Seq<FsEntryV>>)
    requires
        !seq_eq_ic(cfg.app_exe, cfg.updater_exe),
        !seq_eq_ic(cfg.app_exe, cfg.staged_name),
    ensures
        resolve_spec(cfg, root, subs) matches Some(r) ==> !seq_eq_ic(r.file, cfg.updater_exe)
            && !seq_eq_ic(r.file, cfg.staged_name),
{
    if resolve_spec(cfg, root, subs) is Some && !has_entry_ic(root, cfg.app_exe) {
        lemma_scan_not_excluded(cfg, root, subs, 0);
    }
}

} // verus!
