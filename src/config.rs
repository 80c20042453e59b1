use vstd::prelude::*;
use vstd::string::*;

use crate::text::same_text;

verus! {

/// A release provider on GitHub, and the pattern that selects a release by
/// its display name.
#[derive(Clone, Debug, PartialEq, Eq)]
pub struct GithubRelease {
    pub owner: String,
    pub repo: String,
    /// Version string regex
    pub version: String,
}

/// Where an archive's releases are listed.
#[derive(Clone, Debug, PartialEq, Eq)]
pub enum BuckleSource {
    Github(GithubRelease),
}

impl BuckleSource {
    pub open spec fn github(self) -> GithubRelease {
        match self {
            BuckleSource::Github(g) => g,
        }
    }
}

/// How the main payload of an archive is encoded.
#[derive(Clone, Copy, Debug, PartialEq, Eq, Structural)]
pub enum PackageType {
    SingleFile,
    ZstdSingleFile,
}

/// Archives contain binaries; they are downloaded from sources.
#[derive(Clone, Debug, PartialEq, Eq)]
pub struct ArchiveConfig {
    pub source: BuckleSource,
    pub package_type: PackageType,
    /// Artifact name template, a regex once its tokens are substituted
    pub artifact_pattern: String,
}

/// Binaries are runnable from the expanded archive in the cache area.
#[derive(Clone, Debug, PartialEq, Eq)]
pub struct BinaryConfig {
    pub provided_by: String,
}

/// Top level configuration: named archives and the named binaries they
/// provide. Names are keys: each occurs at most once in its list.
#[derive(Clone, Debug, PartialEq, Eq)]
pub struct BuckleConfig {
    pub archives: Vec<(String, ArchiveConfig)>,
    pub binaries: Vec<(String, BinaryConfig)>,
}

/// Which binary was chosen, and which archive provides it (indices into
/// `binaries` and `archives`).
#[derive(Clone, Copy, Debug, PartialEq, Eq, Structural)]
pub struct BinaryChoice {
    pub binary: usize,
    pub archive: usize,
}

#[derive(Clone, Copy, Debug, PartialEq, Eq, Structural)]
pub enum ConfigError {
    /// No binary was asked for and the configuration does not have exactly one.
    NoBinarySelected,
    /// The binary asked for is not declared.
    UnknownBinary,
    /// The binary is provided by an archive that is not declared.
    UnknownArchive,
}

pub open spec fn archive_names(c: BuckleConfig) -> Seq<Seq<char>> {
    c.archives@.map_values(|e: (String, ArchiveConfig)| e.0@)
}

pub open spec fn binary_names(c: BuckleConfig) -> Seq<Seq<char>> {
    c.binaries@.map_values(|e: (String, BinaryConfig)| e.0@)
}

pub open spec fn keys_unique(names: Seq<Seq<char>>) -> bool {
    forall|i: int, j: int| 0 <= i < names.len() && 0 <= j < names.len() && i != j ==> names[i] != names[j]
}

/// Index of `key` among `names`, if it occurs.
pub open spec fn find_key(names: Seq<Seq<char>>, key: Seq<char>) -> Option<int> {
    if exists|i: int| 0 <= i < names.len() && names[i] == key {
        Some(choose|i: int| 0 <= i < names.len() && names[i] == key)
    } else {
        None
    }
}

/// The binary that an invocation runs: the one asked for, or the only one
/// declared when none is asked for.
pub open spec fn chosen_binary(c: BuckleConfig, requested: Option<Seq<char>>) -> Result<int, ConfigError> {
    match requested {
        Some(name) => match find_key(binary_names(c), name) {
            Some(i) => Ok(i),
            None => Err(ConfigError::UnknownBinary),
        },
        None => if c.binaries@.len() == 1 {
            Ok(0)
        } else {
            Err(ConfigError::NoBinarySelected)
        },
    }
}

/// The binary and the archive that provides it.
pub open spec fn choice_of(c: BuckleConfig, requested: Option<Seq<char>>) -> Result<(int, int), ConfigError> {
    match chosen_binary(c, requested) {
        Ok(b) => match find_key(archive_names(c), c.binaries@[b].1.provided_by@) {
            Some(a) => Ok((b, a)),
            None => Err(ConfigError::UnknownArchive),
        },
        Err(e) => Err(e),
    }
}

fn lookup_archive(archives: &Vec<(String, ArchiveConfig)>, name: &str) -> (r: Option<usize>)
    ensures
        match r {
            Some(i) => i < archives@.len() && archives@[i as int].0@ == name@,
            None => forall|i: int| 0 <= i < archives@.len() ==> archives@[i].0@ != name@,
        },
{
    let mut i: usize = 0;
    while i < archives.len()
        invariant
            i <= archives@.len(),
            forall|k: int| 0 <= k < i ==> archives@[k].0@ != name@,
        decreases archives@.len() - i,
    {
        if same_text(archives[i].0.as_str(), name) {
            return Some(i);
        }
        i += 1;
    }
    None
}

fn lookup_binary(binaries: &Vec<(String, BinaryConfig)>, name: &str) -> (r: Option<usize>)
    ensures
        match r {
            Some(i) => i < binaries@.len() && binaries@[i as int].0@ == name@,
            None => forall|i: int| 0 <= i < binaries@.len() ==> binaries@[i].0@ != name@,
        },
{
    let mut i: usize = 0;
    while i < binaries.len()
        invariant
            i <= binaries@.len(),
            forall|k: int| 0 <= k < i ==> binaries@[k].0@ != name@,
        decreases binaries@.len() - i,
    {
        if same_text(binaries[i].0.as_str(), name) {
            return Some(i);
        }
        i += 1;
    }
    None
}

proof fn lemma_find_key_unique(names: Seq<Seq<char>>, key: Seq<char>, i: int)
    requires
        keys_unique(names),
        0 <= i < names.len(),
        names[i] == key,
    ensures
        find_key(names, key) == Some(i),
{
}

proof fn lemma_find_key_none(names: Seq<Seq<char>>, key: Seq<char>)
    requires
        forall|i: int| 0 <= i < names.len() ==> names[i] != key,
    ensures
        find_key(names, key) is None,
{
}

impl BuckleConfig {
    /// Archive names and binary names are each unique.
    pub open spec fn wf(self) -> bool {
        keys_unique(archive_names(self)) && keys_unique(binary_names(self))
    }

    /// The built-in configuration: `buck2` from `facebook/buck2`, latest release.
    pub open spec fn is_buck2_latest(self) -> bool {
        &&& self.archives@.len() == 1
        &&& self.binaries@.len() == 1
        &&& self.archives@[0].0@ == "buck2"@
        &&& self.archives@[0].1.source.github().owner@ == "facebook"@
        &&& self.archives@[0].1.source.github().repo@ == "buck2"@
        &&& self.archives@[0].1.source.github().version@ == "latest"@
        &&& self.archives@[0].1.artifact_pattern@ == "buck2-%target%.zst"@
        &&& self.archives@[0].1.package_type == PackageType::ZstdSingleFile
        &&& self.binaries@[0].0@ == "buck2"@
        &&& self.binaries@[0].1.provided_by@ == "buck2"@
    }

    /// A fallback for when no configuration is found.
    pub fn buck2_latest() -> (r: Self)
        ensures
            r.is_buck2_latest(),
            r.wf(),
    {
        let github = GithubRelease {
            owner: String::from_str("facebook"),
            repo: String::from_str("buck2"),
            version: String::from_str("latest"),
        };
        let archive = ArchiveConfig {
            source: BuckleSource::Github(github),
            package_type: PackageType::ZstdSingleFile,
            artifact_pattern: String::from_str("buck2-%target%.zst"),
        };
        let binary = BinaryConfig { provided_by: String::from_str("buck2") };
        let mut archives: Vec<(String, ArchiveConfig)> = Vec::new();
        archives.push((String::from_str("buck2"), archive));
        let mut binaries: Vec<(String, BinaryConfig)> = Vec::new();
        binaries.push((String::from_str("buck2"), binary));
        BuckleConfig { archives, binaries }
    }

    /// Whether every archive name and every binary name occurs once.
    pub fn has_unique_names(&self) -> (r: bool)
        ensures
            r == self.wf(),
    {
        let mut i: usize = 0;
        while i < self.archives.len()
            invariant
                i <= self.archives@.len(),
                forall|a: int, b: int| 0 <= a < i && 0 <= b < self.archives@.len() && a != b
                    ==> self.archives@[a].0@ != self.archives@[b].0@,
            decreases self.archives@.len() - i,
        {
            let mut j: usize = 0;
            while j < self.archives.len()
                invariant
                    i < self.archives@.len(),
                    j <= self.archives@.len(),
                    forall|a: int, b: int| 0 <= a < i && 0 <= b < self.archives@.len() && a != b
                        ==> self.archives@[a].0@ != self.archives@[b].0@,
                    forall|b: int| 0 <= b < j && b != i ==> self.archives@[i as int].0@ != self.archives@[b].0@,
                decreases self.archives@.len() - j,
            {
                if j != i && same_text(self.archives[i].0.as_str(), self.archives[j].0.as_str()) {
                    assert(archive_names(*self)[i as int] == archive_names(*self)[j as int]);
                    return false;
                }
                j += 1;
            }
            i += 1;
        }
        let mut i: usize = 0;
        while i < self.binaries.len()
            invariant
                keys_unique(archive_names(*self)),
                i <= self.binaries@.len(),
                forall|a: int, b: int| 0 <= a < i && 0 <= b < self.binaries@.len() && a != b
                    ==> self.binaries@[a].0@ != self.binaries@[b].0@,
            decreases self.binaries@.len() - i,
        {
            let mut j: usize = 0;
            while j < self.binaries.len()
                invariant
                    i < self.binaries@.len(),
                    j <= self.binaries@.len(),
                    forall|a: int, b: int| 0 <= a < i && 0 <= b < self.binaries@.len() && a != b
                        ==> self.binaries@[a].0@ != self.binaries@[b].0@,
                    forall|b: int| 0 <= b < j && b != i ==> self.binaries@[i as int].0@ != self.binaries@[b].0@,
                decreases self.binaries@.len() - j,
            {
                if j != i && same_text(self.binaries[i].0.as_str(), self.binaries[j].0.as_str()) {
                    assert(binary_names(*self)[i as int] == binary_names(*self)[j as int]);
                    return false;
                }
                j += 1;
            }
            i += 1;
        }
        true
    }

    /// Resolves which binary to run and the archive that provides it. With no
    /// binary asked for, a configuration with exactly one binary runs that one.
    pub fn resolve_binary(&self, requested: Option<&str>) -> (r: Result<BinaryChoice, ConfigError>)
        requires
            self.wf(),
        ensures
            match (r, choice_of(*self, match requested { Some(s) => Some(s@), None => None })) {
                (Ok(c), Ok((b, a))) => c.binary == b && c.archive == a,
                (Err(e), Err(f)) => e == f,
                _ => false,
            },
            r matches Ok(c) ==> c.binary < self.binaries@.len() && c.archive < self.archives@.len(),
    {
        let ghost req = match requested { Some(s) => Some(s@), None => None };
        let b = match requested {
            Some(name) => match lookup_binary(&self.binaries, name) {
                Some(i) => {
                    proof { lemma_find_key_unique(binary_names(*self), name@, i as int); }
                    i
                },
                None => {
                    proof { lemma_find_key_none(binary_names(*self), name@); }
                    return Err(ConfigError::UnknownBinary);
                },
            },
            None => {
                if self.binaries.len() == 1 {
                    0
                } else {
                    return Err(ConfigError::NoBinarySelected);
                }
            },
        };
        assert(chosen_binary(*self, req) == Ok::<int, ConfigError>(b as int));
        match lookup_archive(&self.archives, self.binaries[b].1.provided_by.as_str()) {
            Some(a) => {
                proof { lemma_find_key_unique(archive_names(*self), self.binaries@[b as int].1.provided_by@, a as int); }
                Ok(BinaryChoice { binary: b, archive: a })
            },
            None => {
                proof { lemma_find_key_none(archive_names(*self), self.binaries@[b as int].1.provided_by@); }
                Err(ConfigError::UnknownArchive)
            },
        }
    }
}

} // verus!
