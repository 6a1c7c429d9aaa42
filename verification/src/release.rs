//! Release discovery: given the latest release of the remote index, decide
//! whether it is an update and which asset to download.
use vstd::prelude::*;
use vstd::string::StrSliceExecFns;
use vstd::string::StringExecFns;
use crate::strutil::{spec_ends_with, ends_with_str};
use crate::version::{Version, VersionV, valid_version, version_gt, parse_tag, parse_tag_spec};

verus! {

/// One downloadable file of a release.
pub struct Asset {
    pub name: String,
    pub url: String,
    pub size: u64,
}

pub ghost struct AssetV {
    pub name: Seq<char>,
    pub url: Seq<char>,
    pub size: int,
}

impl View for Asset {
    type V = AssetV;

    open spec fn view(&self) -> AssetV {
        AssetV { name: self.name@, url: self.url@, size: self.size as int }
    }
}

impl Asset {
    /// A field-for-field copy.
    pub fn duplicate(&self) -> (r: Asset)
        ensures
            r@ == self@,
    {
        Asset { name: self.name.clone(), url: self.url.clone(), size: self.size }
    }
}

/// The latest release: its tag and its assets, in the order the index
/// lists them.
pub struct Release {
    pub tag_name: String,
    pub assets: Vec<Asset>,
}

pub ghost struct ReleaseV {
    pub tag_name: Seq<char>,
    pub assets: Seq<AssetV>,
}

impl View for Release {
    type V = ReleaseV;

    open spec fn view(&self) -> ReleaseV {
        ReleaseV { tag_name: self.tag_name@, assets: self.assets@.map_values(|a: Asset| a@) }
    }
}

/// The archive-extension rule: an asset is eligible when its name ends in
/// `.zip`.
pub open spec fn is_zip_name(n: Seq<char>) -> bool {
    spec_ends_with(n, seq!['.', 'z', 'i', 'p'])
}

/// Index of the first eligible asset, scanning from `i`.
pub open spec fn first_zip_from(assets: Seq<AssetV>, i: int) -> Option<int>
    decreases assets.len() - i,
{
    if i < 0 || i >= assets.len() {
        Option::None
    } else if is_zip_name(assets[i].name) {
        Option::Some(i)
    } else {
        first_zip_from(assets, i + 1)
    }
}

/// What `check` answers for a given release and installed version:
/// nothing unless the tag parses, the tagged version is strictly newer and
/// some asset name ends in the archive extension; otherwise the tag and
/// the first such asset.
pub open spec fn check_spec(rel: ReleaseV, cur: VersionV) -> Option<(Seq<char>, AssetV)> {
    match parse_tag_spec(rel.tag_name) {
        Option::None => Option::None,
        Option::Some(latest) => if !version_gt(latest, cur) {
            Option::None
        } else {
            match first_zip_from(rel.assets, 0) {
                Option::None => Option::None,
                Option::Some(i) => Option::Some((rel.tag_name, rel.assets[i])),
            }
        },
    }
}

/// A release whose tagged version does not exceed the current one is never
/// an update, whatever its assets hold.
pub proof fn lemma_no_update_when_not_newer(rel: ReleaseV, cur: VersionV)
    requires
        parse_tag_spec(rel.tag_name) matches Some(latest) ==> !version_gt(latest, cur),
    ensures
        check_spec(rel, cur) is None,
{
}

/// No asset in a scan tail is eligible exactly when the scan finds none.
proof fn lemma_first_zip_none(assets: Seq<AssetV>, i: int)
    requires
        0 <= i <= assets.len(),
    ensures
        first_zip_from(assets, i) is None <==> (forall|j: int|
            i <= j < assets.len() ==> !is_zip_name(#[trigger] assets[j].name)),
    decreases assets.len() - i,
{
    if i < assets.len() {
        lemma_first_zip_none(assets, i + 1);
    }
}

/// A newer release without any asset in the archive extension is still no
/// update.
pub proof fn lemma_no_update_without_archive(rel: ReleaseV, cur: VersionV)
    requires
        forall|j: int| 0 <= j < rel.assets.len() ==> !is_zip_name(#[trigger] rel.assets[j].name),
    ensures
        check_spec(rel, cur) is None,
{
    lemma_first_zip_none(rel.assets, 0);
}

/// Decides whether the given latest release is an update over `current`,
/// and if so which asset to fetch: the first whose name ends in `.zip`.
pub fn check_release(release: &Release, current: &Version) -> (r: Option<(String, Asset)>)
    requires
        valid_version(current@),
    ensures
        r is Some <==> check_spec(release@, current@) is Some,
        r is Some ==> (r.unwrap().0@, r.unwrap().1@) == check_spec(release@, current@).unwrap(),
        r is Some ==> parse_tag_spec(release@.tag_name) is Some,
{
    let latest = match parse_tag(release.tag_name.as_str()) {
        Some(l) => l,
        None => {
            return None;
        },
    };
    if !crate::version::version_greater(&latest, current) {
        return None;
    }
    let n = release.assets.len();
    let mut i: usize = 0;
    loop
        invariant
            0 <= i <= n,
            n == release.assets.len(),
            valid_version(current@),
            first_zip_from(release@.assets, 0) == first_zip_from(release@.assets, i as int),
        ensures
            n == release.assets.len(),
            match first_zip_from(release@.assets, 0) {
                Option::None => i == n,
                Option::Some(k) => i as int == k && i < n && is_zip_name(
                    release@.assets[i as int].name,
                ),
            },
        decreases n - i,
    {
        if i == n {
            break ;
        }
        if ends_with_str(release.assets[i].name.as_str(), ".zip") {
            proof {
                reveal_strlit(".zip");
                assert(".zip"@ =~= seq!['.', 'z', 'i', 'p']);
                assert(is_zip_name(release@.assets[i as int].name));
            }
            break ;
        }
        proof {
            reveal_strlit(".zip");
            assert(".zip"@ =~= seq!['.', 'z', 'i', 'p']);
        }
        i += 1;
    }
    if i == n {
        proof {
            if first_zip_from(release@.assets, 0) is Some {
                let k = first_zip_from(release@.assets, 0).unwrap();
                assert(k == i as int && k < n);
            }
        }
        return None;
    }
    Some((release.tag_name.clone(), release.assets[i].duplicate()))
}

/// The endpoint that serves the latest release of a repository.
pub open spec fn release_url_spec(repo: Seq<char>) -> Seq<char> {
    "https://api.github.com/repos/"@ + repo + "/releases/latest"@
}

/// Builds the latest-release endpoint for a repository identifier.
pub fn release_url(repo: &str) -> (r: String)
    ensures
        r@ == release_url_spec(repo@),
{
    let mut s = String::from_str("https://api.github.com/repos/");
    s.append(repo);
    s.append("/releases/latest");
    proof {
        assert(s@ =~= release_url_spec(repo@));
    }
    s
}

} // verus!
