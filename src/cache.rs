use vstd::prelude::*;
use vstd::string::*;

use crate::config::PackageType;
use crate::index::{index_step, is_fresh, IndexStep};
use crate::platform::Platform;
use crate::resolve::{is_last_pair, lists_verbatim, Release, Resolution};

verus! {

/// What zstd's frame decoder yields for a byte string: the decompressed bytes,
/// or nothing when the input is not valid zstd data.
pub uninterp spec fn zstd_decoded(data: Seq<u8>) -> Option<Seq<u8>>;

/// Relies on `zstd::stream::decode_all`: decompresses every frame of the
/// input from memory, failing on input that is not valid zstd data.
#[verifier::external_body]
fn zstd_decode(data: &Vec<u8>) -> (r: Option<Vec<u8>>)
    ensures
        match r {
            Some(v) => zstd_decoded(data@) == Some(v@),
            None => zstd_decoded(data@) is None,
        },
{
    zstd::stream::decode_all(data.as_slice()).ok()
}

/// Why installing into the cache failed.
#[derive(Clone, Copy, Debug, PartialEq, Eq, Structural)]
pub enum InstallError {
    /// A network error while fetching the payload or a side artifact.
    DownloadFailed,
    /// The payload is not valid for its declared encoding.
    DecodeFailed,
    /// Creating a directory or a file, setting permissions or renaming failed.
    CacheWriteFailed,
}

pub open spec fn decoded(kind: PackageType, payload: Seq<u8>) -> Option<Seq<u8>> {
    match kind {
        PackageType::SingleFile => Some(payload),
        PackageType::ZstdSingleFile => zstd_decoded(payload),
    }
}

/// Decodes a payload by its package encoding: a single file is taken verbatim,
/// a compressed one is decompressed.
pub fn decode_payload(kind: PackageType, payload: Vec<u8>) -> (r: Result<Vec<u8>, InstallError>)
    ensures
        match (r, decoded(kind, payload@)) {
            (Ok(v), Some(d)) => v@ == d,
            (Err(e), None) => e == InstallError::DecodeFailed,
            _ => false,
        },
{
    match kind {
        PackageType::SingleFile => Ok(payload),
        PackageType::ZstdSingleFile => match zstd_decode(&payload) {
            Some(v) => Ok(v),
            None => Err(InstallError::DecodeFailed),
        },
    }
}

pub open spec fn join_path(dir: Seq<char>, name: Seq<char>) -> Seq<char> {
    dir + "/"@ + name
}

/// The directory of a release within the cache: `<archive>/<identity>`.
pub fn entry_dir(archive: &str, identity: &str) -> (r: String)
    ensures
        r@ == join_path(archive@, identity@),
{
    let mut s = String::from_str(archive);
    s.append("/");
    s.append(identity);
    s
}

/// A file of a release within the cache: `<archive>/<identity>/<name>`.
pub fn entry_file(archive: &str, identity: &str, name: &str) -> (r: String)
    ensures
        r@ == join_path(join_path(archive@, identity@), name@),
{
    let mut s = entry_dir(archive, identity);
    s.append("/");
    s.append(name);
    s
}

/// Where an asset is fetched from: its own URL, or `<mirror>/<tag>/<name>`
/// when a mirror of the provider's downloads is configured.
pub open spec fn asset_url(mirror: Option<Seq<char>>, tag: Seq<char>, asset_name: Seq<char>, own_url: Seq<char>) -> Seq<char> {
    match mirror {
        Some(base) => join_path(join_path(base, tag), asset_name),
        None => own_url,
    }
}

fn fetch_url(mirror: Option<&str>, tag: &str, asset_name: &str, own_url: &str) -> (r: String)
    ensures
        r@ == asset_url(match mirror { Some(m) => Some(m@), None => None }, tag@, asset_name@, own_url@),
{
    match mirror {
        Some(base) => entry_file(base, tag, asset_name),
        None => String::from_str(own_url),
    }
}

/// One file to fetch into the cache directory.
#[derive(Clone, Debug, PartialEq, Eq)]
pub struct Fetch {
    /// Its name within the release's cache directory.
    pub file_name: String,
    pub url: String,
}

/// What to do to make a resolved release's executable available.
#[derive(Clone, Debug, PartialEq, Eq)]
pub enum Materialize {
    /// The executable is already in place: nothing is fetched.
    UseCached,
    /// Fetch the side artifacts verbatim, then the payload, which is decoded
    /// and installed under the binary's name.
    Download { verbatim: Vec<Fetch>, payload_url: String, package_type: PackageType },
}

pub open spec fn mirror_view(mirror: Option<&str>) -> Option<Seq<char>> {
    match mirror {
        Some(m) => Some(m@),
        None => None,
    }
}

/// `f` fetches asset `j` of the release under the asset's own name.
pub open spec fn fetches_asset(f: Fetch, mirror: Option<Seq<char>>, rel: Release, j: int) -> bool {
    let a = rel.assets@[j];
    f.file_name@ == a.name@ && f.url@ == asset_url(mirror, rel.tag_name@, a.name@, a.browser_download_url@)
}

/// The download plan for a resolution, as its parts.
pub open spec fn plans_download(
    m: Materialize,
    rel: Release,
    res: Resolution,
    mirror: Option<Seq<char>>,
    kind: PackageType,
) -> bool {
    match m {
        Materialize::UseCached => false,
        Materialize::Download { verbatim, payload_url, package_type } => {
            &&& package_type == kind
            &&& payload_url@ == asset_url(mirror, rel.tag_name@, rel.assets@[res.asset as int].name@,
                rel.assets@[res.asset as int].browser_download_url@)
            &&& verbatim@.len() == res.verbatim@.len()
            &&& forall|k: int| 0 <= k < verbatim@.len() ==> #[trigger] fetches_asset(verbatim@[k], mirror, rel, res.verbatim@[k] as int)
        },
    }
}

/// Decides whether a resolved release must be fetched: only when its
/// executable is not already in the cache.
pub fn plan_materialize(
    executable_present: bool,
    release: &Release,
    res: &Resolution,
    mirror: Option<&str>,
    package_type: PackageType,
) -> (r: Materialize)
    requires
        res.asset < release.assets@.len(),
        lists_verbatim(release.assets@, res.verbatim@),
    ensures
        executable_present ==> r == Materialize::UseCached,
        !executable_present ==> plans_download(r, *release, *res, mirror_view(mirror), package_type),
{
    if executable_present {
        return Materialize::UseCached;
    }
    let asset = &release.assets[res.asset];
    let payload_url = fetch_url(mirror, release.tag_name.as_str(), asset.name.as_str(), asset.browser_download_url.as_str());
    let mut verbatim: Vec<Fetch> = Vec::new();
    let mut k: usize = 0;
    while k < res.verbatim.len()
        invariant
            k <= res.verbatim@.len(),
            lists_verbatim(release.assets@, res.verbatim@),
            verbatim@.len() == k,
            forall|x: int| 0 <= x < k ==> #[trigger] fetches_asset(verbatim@[x], mirror_view(mirror), *release, res.verbatim@[x] as int),
        decreases res.verbatim@.len() - k,
    {
        let a = &release.assets[res.verbatim[k]];
        let url = fetch_url(mirror, release.tag_name.as_str(), a.name.as_str(), a.browser_download_url.as_str());
        verbatim.push(Fetch { file_name: String::from_str(a.name.as_str()), url });
        assert(fetches_asset(verbatim@[k as int], mirror_view(mirror), *release, res.verbatim@[k as int] as int));
        k += 1;
    }
    Materialize::Download { verbatim, payload_url, package_type }
}

/// Resolving the same binary and version again, within the snapshot's
/// freshness window, makes no network request for the listing, which comes
/// from the snapshot; it chooses the same release and asset, hence the same
/// cache directory; and with the executable there, nothing is fetched
/// (`plan_materialize` answers `UseCached`).
pub proof fn lemma_repeat_resolution(
    rs: Seq<Release>,
    vp: Seq<char>,
    ap: Seq<char>,
    p: Platform,
    now: i64,
    mtime: i64,
    i1: int,
    j1: int,
    i2: int,
    j2: int,
)
    requires
        is_fresh(now as int, mtime as int),
        is_last_pair(rs, vp, ap, p, i1, j1),
        is_last_pair(rs, vp, ap, p, i2, j2),
    ensures
        index_step(Some(mtime), now) == IndexStep::ReadSnapshot,
        i1 == i2 && j1 == j2,
        rs[i1].identity() == rs[i2].identity(),
{
}

} // verus!
