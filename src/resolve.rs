use vstd::prelude::*;
use vstd::string::*;

use crate::pattern::{pattern_compiles, pattern_matches, regex_compiles, regex_matches};
use crate::platform::Platform;
use crate::template::{expand, expand_artifact_pattern, facts_of};
use crate::text::same_text;

verus! {

/// A downloadable file attached to a release.
#[derive(Clone, Debug, PartialEq, Eq)]
pub struct Asset {
    pub name: String,
    pub browser_download_url: String,
}

/// A release in a provider's listing.
#[derive(Clone, Debug, PartialEq, Eq)]
pub struct Release {
    pub name: Option<String>,
    pub tag_name: String,
    pub target_commitish: String,
    pub assets: Vec<Asset>,
}

/// The name of the side artifact that is copied verbatim next to the executable.
pub open spec fn prelude_label() -> Seq<char> {
    "prelude_hash"@
}

pub open spec fn is_verbatim(a: Asset) -> bool {
    a.name@ == prelude_label()
}

impl Release {
    /// The human-readable name: the release's name, or its tag when it has none.
    pub open spec fn display(self) -> Seq<char> {
        match self.name {
            Some(n) => n@,
            None => self.tag_name@,
        }
    }

    /// The key of the release's cache directory: its commit, or its display
    /// name when it names no commit.
    pub open spec fn identity(self) -> Seq<char> {
        if self.target_commitish@.len() > 0 {
            self.target_commitish@
        } else {
            self.display()
        }
    }

    pub fn display_name(&self) -> (r: &str)
        ensures
            r@ == self.display(),
    {
        match &self.name {
            Some(n) => n.as_str(),
            None => self.tag_name.as_str(),
        }
    }

    pub fn cache_identity(&self) -> (r: &str)
        ensures
            r@ == self.identity(),
    {
        if self.target_commitish.unicode_len() > 0 {
            self.target_commitish.as_str()
        } else {
            self.display_name()
        }
    }
}

#[derive(Clone, Copy, Debug, PartialEq, Eq, Structural)]
pub enum ResolveError {
    /// The version pattern is not a valid regular expression.
    InvalidVersionPattern,
    /// The artifact pattern, expanded for a selected release, is not a valid
    /// regular expression.
    InvalidArtifactPattern,
    /// No selected release has an asset that the artifact pattern matches.
    ArtifactNotFound,
}

/// The chosen release and asset (indices into the listing and into the
/// release's assets), and the release's verbatim side artifacts.
#[derive(Clone, Debug, PartialEq, Eq)]
pub struct Resolution {
    pub release: usize,
    pub asset: usize,
    pub verbatim: Vec<usize>,
}

pub open spec fn release_selected(rs: Seq<Release>, vp: Seq<char>, i: int) -> bool {
    regex_matches(vp, rs[i].display())
}

/// The artifact pattern of release `i`: the template expanded with its version.
pub open spec fn artifact_regex(rs: Seq<Release>, ap: Seq<char>, p: Platform, i: int) -> Seq<char> {
    expand(ap, facts_of(p, rs[i].display()))
}

/// Asset `j` of release `i` is a candidate for the executable.
pub open spec fn pair_ok(rs: Seq<Release>, vp: Seq<char>, ap: Seq<char>, p: Platform, i: int, j: int) -> bool {
    &&& 0 <= i < rs.len()
    &&& 0 <= j < rs[i].assets@.len()
    &&& release_selected(rs, vp, i)
    &&& !is_verbatim(rs[i].assets@[j])
    &&& regex_matches(artifact_regex(rs, ap, p, i), rs[i].assets@[j].name@)
}

/// Every selected release's artifact pattern compiles.
pub open spec fn artifact_patterns_compile(rs: Seq<Release>, vp: Seq<char>, ap: Seq<char>, p: Platform) -> bool {
    forall|i: int| 0 <= i < rs.len() && release_selected(rs, vp, i) ==> regex_compiles(artifact_regex(rs, ap, p, i))
}

pub open spec fn some_pair(rs: Seq<Release>, vp: Seq<char>, ap: Seq<char>, p: Platform) -> bool {
    exists|i: int, j: int| pair_ok(rs, vp, ap, p, i, j)
}

/// `(i, j)` is the last candidate in listing order.
pub open spec fn is_last_pair(rs: Seq<Release>, vp: Seq<char>, ap: Seq<char>, p: Platform, i: int, j: int) -> bool {
    &&& pair_ok(rs, vp, ap, p, i, j)
    &&& forall|i2: int, j2: int| pair_ok(rs, vp, ap, p, i2, j2) ==> i2 < i || (i2 == i && j2 <= j)
}

/// `v` lists, in increasing order, exactly the verbatim assets of `assets`.
pub open spec fn lists_verbatim(assets: Seq<Asset>, v: Seq<usize>) -> bool {
    &&& forall|k: int| 0 <= k < v.len() ==> v[k] < assets.len() && is_verbatim(assets[v[k] as int])
    &&& forall|k: int, m: int| 0 <= k < m < v.len() ==> v[k] < v[m]
    &&& forall|j: int| 0 <= j < assets.len() && is_verbatim(assets[j]) ==> exists|k: int| 0 <= k < v.len() && v[k] == j
}

fn is_verbatim_asset(a: &Asset) -> (r: bool)
    ensures
        r == is_verbatim(*a),
{
    same_text(a.name.as_str(), "prelude_hash")
}

fn verbatim_assets(assets: &Vec<Asset>) -> (r: Vec<usize>)
    ensures
        lists_verbatim(assets@, r@),
{
    let mut v: Vec<usize> = Vec::new();
    let mut j: usize = 0;
    while j < assets.len()
        invariant
            j <= assets@.len(),
            forall|k: int| 0 <= k < v@.len() ==> v@[k] < j && is_verbatim(assets@[v@[k] as int]),
            forall|k: int, m: int| 0 <= k < m < v@.len() ==> v@[k] < v@[m],
            forall|x: int| 0 <= x < j && is_verbatim(assets@[x]) ==> exists|k: int| 0 <= k < v@.len() && v@[k] == x,
        decreases assets@.len() - j,
    {
        if is_verbatim_asset(&assets[j]) {
            let ghost before = v@;
            v.push(j);
            proof {
                assert forall|x: int| 0 <= x < j + 1 && is_verbatim(assets@[x]) implies exists|k: int| 0 <= k < v@.len() && v@[k] == x by {
                    if x < j {
                        let k = choose|k: int| 0 <= k < before.len() && before[k] == x;
                        assert(v@[k] == x);
                    } else {
                        assert(v@[before.len() as int] == x);
                    }
                }
            }
        }
        j += 1;
    }
    v
}

/// `(i, j)` is the last true entry of the table, rows first.
pub open spec fn is_last_true(t: Seq<Vec<bool>>, i: int, j: int) -> bool {
    &&& 0 <= i < t.len()
    &&& 0 <= j < t[i]@.len()
    &&& t[i]@[j]
    &&& forall|x: int, y: int| 0 <= x < t.len() && 0 <= y < t[x]@.len() && t[x]@[y] ==> x < i || (x == i && y <= j)
}

pub open spec fn any_true(t: Seq<Vec<bool>>) -> bool {
    exists|x: int, y: int| 0 <= x < t.len() && 0 <= y < t[x]@.len() && t[x]@[y]
}

/// The tie-break: of the candidates (row: release, column: asset), the last
/// one in listing order.
pub fn last_candidate(candidates: &Vec<Vec<bool>>) -> (r: Option<(usize, usize)>)
    ensures
        match r {
            Some((i, j)) => is_last_true(candidates@, i as int, j as int),
            None => !any_true(candidates@),
        },
{
    let mut best: Option<(usize, usize)> = None;
    let mut i: usize = 0;
    while i < candidates.len()
        invariant
            i <= candidates@.len(),
            match best {
                None => forall|x: int, y: int| 0 <= x < i && 0 <= y < candidates@[x]@.len() ==> !candidates@[x]@[y],
                Some((bi, bj)) => bi < i && bj < candidates@[bi as int]@.len() && candidates@[bi as int]@[bj as int]
                    && forall|x: int, y: int| 0 <= x < i && 0 <= y < candidates@[x]@.len() && candidates@[x]@[y]
                        ==> x < bi || (x == bi && y <= bj),
            },
        decreases candidates@.len() - i,
    {
        let row = &candidates[i];
        let mut j: usize = 0;
        while j < row.len()
            invariant
                i < candidates@.len(),
                row == candidates@[i as int],
                j <= row@.len(),
                match best {
                    None => forall|x: int, y: int| 0 <= x && (x < i || (x == i && y < j)) && 0 <= y < candidates@[x]@.len()
                        ==> !candidates@[x]@[y],
                    Some((bi, bj)) => bi <= i && bj < candidates@[bi as int]@.len() && candidates@[bi as int]@[bj as int]
                        && forall|x: int, y: int| 0 <= x && (x < i || (x == i && y < j)) && 0 <= y < candidates@[x]@.len()
                            && candidates@[x]@[y] ==> x < bi || (x == bi && y <= bj),
                },
            decreases row@.len() - j,
        {
            if row[j] {
                best = Some((i, j));
            }
            j += 1;
        }
        i += 1;
    }
    best
}

/// Chooses the release and the asset to install: among the releases whose
/// display name the version pattern matches, the assets whose name the
/// expanded artifact pattern matches (the verbatim side artifact excepted);
/// the last such pair in listing order wins.
pub fn resolve_release(releases: &Vec<Release>, version_pattern: &str, artifact_pattern: &str, platform: &Platform) -> (r: Result<Resolution, ResolveError>)
    ensures
        !regex_compiles(version_pattern@) ==> r == Err::<Resolution, ResolveError>(ResolveError::InvalidVersionPattern),
        regex_compiles(version_pattern@) && !artifact_patterns_compile(releases@, version_pattern@, artifact_pattern@, *platform)
            ==> r == Err::<Resolution, ResolveError>(ResolveError::InvalidArtifactPattern),
        regex_compiles(version_pattern@) && artifact_patterns_compile(releases@, version_pattern@, artifact_pattern@, *platform)
            ==> (r is Ok <==> some_pair(releases@, version_pattern@, artifact_pattern@, *platform)),
        r == Err::<Resolution, ResolveError>(ResolveError::ArtifactNotFound)
            ==> !some_pair(releases@, version_pattern@, artifact_pattern@, *platform),
        r matches Ok(res) ==> is_last_pair(releases@, version_pattern@, artifact_pattern@, *platform, res.release as int, res.asset as int)
            && lists_verbatim(releases@[res.release as int].assets@, res.verbatim@),
{
    let ghost rs = releases@;
    let ghost vp = version_pattern@;
    let ghost ap = artifact_pattern@;
    let ghost p = *platform;
    if !pattern_compiles(version_pattern) {
        return Err(ResolveError::InvalidVersionPattern);
    }
    let mut table: Vec<Vec<bool>> = Vec::new();
    let mut i: usize = 0;
    while i < releases.len()
        invariant
            rs == releases@,
            vp == version_pattern@,
            ap == artifact_pattern@,
            p == *platform,
            regex_compiles(vp),
            i <= rs.len(),
            forall|x: int| 0 <= x < i && release_selected(rs, vp, x) ==> regex_compiles(artifact_regex(rs, ap, p, x)),
            table@.len() == i,
            forall|x: int| 0 <= x < i ==> #[trigger] table@[x]@.len() == rs[x].assets@.len(),
            forall|x: int, y: int| 0 <= x < i && 0 <= y < rs[x].assets@.len() ==> table@[x]@[y] == pair_ok(rs, vp, ap, p, x, y),
        decreases rs.len() - i,
    {
        let release = &releases[i];
        let selected = pattern_matches(version_pattern, release.display_name());
        let mut row: Vec<bool> = Vec::new();
        if selected {
            let expanded = expand_artifact_pattern(artifact_pattern, platform, release.display_name());
            assert(expanded@ == artifact_regex(rs, ap, p, i as int));
            if !pattern_compiles(expanded.as_str()) {
                assert(release_selected(rs, vp, i as int) && !regex_compiles(artifact_regex(rs, ap, p, i as int)));
                return Err(ResolveError::InvalidArtifactPattern);
            }
            let mut j: usize = 0;
            while j < release.assets.len()
                invariant
                    rs == releases@,
                    release == rs[i as int],
                    i < rs.len(),
                    release_selected(rs, vp, i as int),
                    expanded@ == artifact_regex(rs, ap, p, i as int),
                    regex_compiles(expanded@),
                    j <= release.assets@.len(),
                    row@.len() == j,
                    forall|y: int| 0 <= y < j ==> row@[y] == pair_ok(rs, vp, ap, p, i as int, y),
                decreases release.assets@.len() - j,
            {
                let asset = &release.assets[j];
                let candidate = !is_verbatim_asset(asset) && pattern_matches(expanded.as_str(), asset.name.as_str());
                row.push(candidate);
                j += 1;
            }
        } else {
            let mut j: usize = 0;
            while j < release.assets.len()
                invariant
                    release == rs[i as int],
                    i < rs.len(),
                    !release_selected(rs, vp, i as int),
                    j <= release.assets@.len(),
                    row@.len() == j,
                    forall|y: int| 0 <= y < j ==> row@[y] == pair_ok(rs, vp, ap, p, i as int, y),
                decreases release.assets@.len() - j,
            {
                row.push(false);
                j += 1;
            }
        }
        table.push(row);
        proof {
            assert(table@[i as int]@.len() == rs[i as int].assets@.len());
        }
        i += 1;
    }
    match last_candidate(&table) {
        Some((bi, bj)) => {
            proof {
                assert forall|x: int, y: int| pair_ok(rs, vp, ap, p, x, y) implies x < bi || (x == bi && y <= bj) by {
                    assert(table@[x]@.len() == rs[x].assets@.len());
                    assert(table@[x]@[y]);
                }
                assert(table@[bi as int]@.len() == rs[bi as int].assets@.len());
                assert(pair_ok(rs, vp, ap, p, bi as int, bj as int));
            }
            let verbatim = verbatim_assets(&releases[bi].assets);
            Ok(Resolution { release: bi, asset: bj, verbatim })
        },
        None => {
            proof {
                assert forall|x: int, y: int| !pair_ok(rs, vp, ap, p, x, y) by {
                    if pair_ok(rs, vp, ap, p, x, y) {
                        assert(table@[x]@.len() == rs[x].assets@.len());
                        assert(table@[x]@[y]);
                    }
                }
            }
            Err(ResolveError::ArtifactNotFound)
        },
    }
}

pub open spec fn not_found_text(owner: Seq<char>, repo: Seq<char>, vp: Seq<char>, ap: Seq<char>) -> Seq<char> {
    "buckle: no release of "@ + owner + "/"@ + repo + " matching version pattern '"@ + vp
        + "' has an asset matching artifact pattern '"@ + ap
        + "'; the release format upstream may have changed, please report it"@
}

/// The message for `ArtifactNotFound`: the provider and both patterns, so that
/// a change of the release format upstream can be reported.
pub fn artifact_not_found_message(owner: &str, repo: &str, version_pattern: &str, artifact_pattern: &str) -> (r: String)
    ensures
        r@ == not_found_text(owner@, repo@, version_pattern@, artifact_pattern@),
{
    let mut s = String::from_str("buckle: no release of ");
    s.append(owner);
    s.append("/");
    s.append(repo);
    s.append(" matching version pattern '");
    s.append(version_pattern);
    s.append("' has an asset matching artifact pattern '");
    s.append(artifact_pattern);
    s.append("'; the release format upstream may have changed, please report it");
    s
}

/// Of two releases that both offer a candidate asset, the one listed later
/// wins: the chosen release is never listed before it.
pub proof fn lemma_later_release_wins(
    rs: Seq<Release>,
    vp: Seq<char>,
    ap: Seq<char>,
    p: Platform,
    earlier: int,
    ea: int,
    later: int,
    la: int,
    chosen: int,
    ca: int,
)
    requires
        pair_ok(rs, vp, ap, p, earlier, ea),
        pair_ok(rs, vp, ap, p, later, la),
        earlier < later,
        is_last_pair(rs, vp, ap, p, chosen, ca),
    ensures
        chosen >= later,
        chosen != earlier,
{
}

/// The choice is a function of the listing, the patterns and the platform:
/// resolving twice gives the same release and asset.
pub proof fn lemma_last_pair_unique(rs: Seq<Release>, vp: Seq<char>, ap: Seq<char>, p: Platform, i1: int, j1: int, i2: int, j2: int)
    requires
        is_last_pair(rs, vp, ap, p, i1, j1),
        is_last_pair(rs, vp, ap, p, i2, j2),
    ensures
        i1 == i2 && j1 == j2,
{
}

} // verus!
