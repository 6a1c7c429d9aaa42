//! Archive deployment: turning the entries of a downloaded archive into
//! the write actions that deploy it, with the staging rule for the
//! updater's own executable. Decoding is delegated to the `zip` crate
//! over an in-memory cursor, behind trusted wrappers.
use vstd::prelude::*;
use vstd::string::StrSliceExecFns;
use crate::strutil::{base_name_spec, base_name, normalize_seps_spec, normalize_seps, seq_eq_ic, str_eq_ic};
use crate::{Config, ConfigV};

verus! {

/// One entry of an archive: its stored name, whether it is a directory,
/// and its uncompressed bytes.
pub struct ZipEntry {
    pub name: String,
    pub is_dir: bool,
    pub data: Vec<u8>,
}

pub ghost struct ZipEntryV {
    pub name: Seq<char>,
    pub is_dir: bool,
    pub data: Seq<u8>,
}

impl View for ZipEntry {
    type V = ZipEntryV;

    open spec fn view(&self) -> ZipEntryV {
        ZipEntryV { name: self.name@, is_dir: self.is_dir, data: self.data@ }
    }
}

/// One step of deploying an archive: create a directory or write a file,
/// at a path relative to the installation directory.
pub struct FileAction {
    pub path: String,
    pub is_dir: bool,
    pub data: Vec<u8>,
}

pub ghost struct FileActionV {
    pub path: Seq<char>,
    pub is_dir: bool,
    pub data: Seq<u8>,
}

impl View for FileAction {
    type V = FileActionV;

    open spec fn view(&self) -> FileActionV {
        FileActionV { path: self.path@, is_dir: self.is_dir, data: self.data@ }
    }
}

pub open spec fn actions_view(v: Vec<FileAction>) -> Seq<FileActionV> {
    v@.map_values(|a: FileAction| a@)
}

/// The staging rule: an entry whose base name (after normalizing both
/// separators) is the updater's own image name, in any character case, is
/// redirected to the fixed staging file name; every other entry keeps its
/// archive-relative path with the separators normalized.
pub open spec fn out_path_spec(cfg: ConfigV, entry_name: Seq<char>) -> Seq<char> {
    if seq_eq_ic(base_name_spec(entry_name), cfg.updater_exe) {
        cfg.staged_name
    } else {
        normalize_seps_spec(entry_name)
    }
}

/// An entry that delivers a new copy of the updater always deploys to the
/// staging name, never to its archive-relative path, whatever its depth
/// or character case.
pub proof fn lemma_staging_rule(cfg: ConfigV, entry_name: Seq<char>)
    ensures
        seq_eq_ic(base_name_spec(entry_name), cfg.updater_exe) ==> out_path_spec(cfg, entry_name)
            == cfg.staged_name,
        !seq_eq_ic(base_name_spec(entry_name), cfg.updater_exe) ==> out_path_spec(cfg, entry_name)
            == normalize_seps_spec(entry_name),
{
}

/// Deployment path of one archive entry.
pub fn entry_out_path(cfg: &Config, entry_name: &str) -> (r: String)
    ensures
        r@ == out_path_spec(cfg@, entry_name@),
{
    let b = base_name(entry_name);
    if str_eq_ic(b, cfg.updater_exe.as_str()) {
        cfg.staged_name.clone()
    } else {
        normalize_seps(entry_name)
    }
}

/// The whole deployment plan: one action per entry, in archive order,
/// each path following the staging rule.
pub open spec fn plan_spec(cfg: ConfigV, entries: Seq<ZipEntryV>) -> Seq<FileActionV> {
    entries.map_values(
        |e: ZipEntryV|
            FileActionV { path: out_path_spec(cfg, e.name), is_dir: e.is_dir, data: e.data },
    )
}

#[verifier::external_type_specification]
#[verifier::external_body]
#[verifier::reject_recursive_types(T)]
pub struct ExCursor<T>(std::io::Cursor<T>);

#[verifier::external_type_specification]
#[verifier::external_body]
#[verifier::reject_recursive_types(R)]
pub struct ExZipArchive<R>(zip::ZipArchive<R>);

/// What an opened archive holds: each entry's stored name, directory flag
/// and uncompressed bytes, in archive order.
pub uninterp spec fn zip_contents(a: zip::ZipArchive<std::io::Cursor<Vec<u8>>>) -> Seq<ZipEntryV>;

/// The byte buffer an opened archive reads from.
pub uninterp spec fn zip_source(a: zip::ZipArchive<std::io::Cursor<Vec<u8>>>) -> Seq<u8>;

/// What a byte string decodes to as a zip archive: `None` exactly when it
/// is not a readable archive.
pub uninterp spec fn zip_decode(b: Seq<u8>) -> Option<Seq<ZipEntryV>>;

/// Whether entry `i` of the archive encoded by `b` decompresses without
/// error: a function of the bytes alone.
pub uninterp spec fn zip_entry_ok(b: Seq<u8>, i: int) -> bool;

/// Relies on `zip::ZipArchive::new` over an in-memory cursor: it parses
/// the archive's central directory, failing exactly when the bytes are
/// not a readable archive, and the opened archive reads from exactly the
/// given buffer.
#[verifier::external_body]
fn zip_open(bytes: Vec<u8>) -> (r: Result<zip::ZipArchive<std::io::Cursor<Vec<u8>>>, String>)
    ensures
        r is Ok <==> zip_decode(bytes@) is Some,
        r matches Ok(a) ==> zip_contents(a) == zip_decode(bytes@).unwrap() && zip_source(a)
            == bytes@,
{
    match zip::ZipArchive::new(std::io::Cursor::new(bytes)) {
        Ok(a) => Ok(a),
        Err(e) => Err(format!("Invalid zip: {e}")),
    }
}

/// Relies on `zip::ZipArchive::len`: the number of entries.
#[verifier::external_body]
fn zip_len(a: &zip::ZipArchive<std::io::Cursor<Vec<u8>>>) -> (r: usize)
    ensures
        r == zip_contents(*a).len(),
{
    a.len()
}

/// Relies on `zip::ZipArchive::by_index` and `Read::read_to_end`: they
/// succeed exactly when the entry's data decompresses from the in-memory
/// buffer, a function of the bytes and the index alone; on success they
/// give the stored name, the directory flag and the uncompressed bytes of
/// the entry at this index. Reading moves only the cursor: the entry list
/// and the buffer stay as they were.
#[verifier::external_body]
fn zip_entry_at(a: &mut zip::ZipArchive<std::io::Cursor<Vec<u8>>>, i: usize) -> (r: Result<
    ZipEntry,
    String,
>)
    requires
        i < zip_contents(*old(a)).len(),
    ensures
        zip_contents(*final (a)) == zip_contents(*old(a)),
        zip_source(*final (a)) == zip_source(*old(a)),
        r is Ok <==> zip_entry_ok(zip_source(*old(a)), i as int),
        r matches Ok(e) ==> e@ == zip_contents(*old(a))[i as int],
{
    let mut file = match a.by_index(i) {
        Ok(f) => f,
        Err(e) => return Err(format!("Zip entry: {e}")),
    };
    let name = file.name().to_owned();
    let is_dir = file.is_dir();
    let mut data = Vec::new();
    if let Err(e) = std::io::Read::read_to_end(&mut file, &mut data) {
        return Err(format!("Extract: {e}"));
    }
    Ok(ZipEntry { name, is_dir, data })
}

/// Plans the deployment of a downloaded archive: decodes it and maps
/// every entry to its action. It succeeds exactly when the bytes are a
/// readable archive whose every entry decompresses, and fails otherwise;
/// nothing is planned past a failure.
#[verifier::loop_isolation(false)]
pub fn extract_plan(cfg: &Config, bytes: Vec<u8>) -> (r: Result<Vec<FileAction>, String>)
    ensures
        r is Ok <==> (zip_decode(bytes@) is Some && (forall|i: int|
            0 <= i < zip_decode(bytes@).unwrap().len() ==> #[trigger] zip_entry_ok(bytes@, i))),
        r matches Ok(acts) ==> actions_view(acts) == plan_spec(cfg@, zip_decode(bytes@).unwrap()),
{
    let ghost bv = bytes@;
    let mut archive = match zip_open(bytes) {
        Ok(a) => a,
        Err(e) => {
            return Err(e);
        },
    };
    let n = zip_len(&archive);
    let mut out: Vec<FileAction> = Vec::new();
    let mut i: usize = 0;
    proof {
        assert(actions_view(out) =~= plan_spec(cfg@, zip_contents(archive).take(0)));
    }
    while i < n
        invariant
            i <= n,
            n == zip_contents(archive).len(),
            zip_decode(bv) is Some,
            zip_contents(archive) == zip_decode(bv).unwrap(),
            zip_source(archive) == bv,
            forall|j: int| 0 <= j < i ==> #[trigger] zip_entry_ok(bv, j),
            actions_view(out) == plan_spec(cfg@, zip_contents(archive).take(i as int)),
        decreases n - i,
    {
        let e = match zip_entry_at(&mut archive, i) {
            Ok(e) => e,
            Err(err) => {
                proof {
                    assert(!zip_entry_ok(bv, i as int));
                }
                return Err(err);
            },
        };
        let path = entry_out_path(cfg, e.name.as_str());
        let ghost before = actions_view(out);
        out.push(FileAction { path, is_dir: e.is_dir, data: e.data });
        proof {
            assert(actions_view(out) =~= before.push(
                FileActionV {
                    path: out_path_spec(cfg@, zip_contents(archive)[i as int].name),
                    is_dir: zip_contents(archive)[i as int].is_dir,
                    data: zip_contents(archive)[i as int].data,
                },
            ));
            assert(actions_view(out) =~= plan_spec(
                cfg@,
                zip_contents(archive).take(i as int + 1),
            ));
        }
        i += 1;
    }
    proof {
        assert(zip_contents(archive).take(n as int) =~= zip_contents(archive));
    }
    Ok(out)
}

} // verus!
