use vstd::prelude::*;
use vstd::string::*;
use vstd::utf8::{decode_utf8, valid_utf8};

use crate::text::{same_text, trim_text, trimmed, utf8_text};

verus! {

/// The hash that a release pins its prelude to, as stored in its cache
/// directory: the file's text without surrounding white space, or nothing
/// when the file is not text.
pub open spec fn expected_hash_of(bytes: Seq<u8>) -> Option<Seq<char>> {
    if valid_utf8(bytes) {
        Some(trimmed(decode_utf8(bytes)))
    } else {
        None
    }
}

/// Reads the expected prelude hash from the bytes of the cached hash file.
pub fn expected_prelude_hash(bytes: &Vec<u8>) -> (r: Option<String>)
    ensures
        match (r, expected_hash_of(bytes@)) {
            (Some(s), Some(t)) => s@ == t,
            (None, None) => true,
            _ => false,
        },
{
    match utf8_text(bytes) {
        Some(text) => Some(trim_text(text.as_str())),
        None => None,
    }
}

/// The outcome of the advisory consistency check.
#[derive(Clone, Debug, PartialEq, Eq)]
pub enum PreludeCheck {
    /// The working tree's submodule is at the expected commit.
    Consistent,
    /// It is at another commit; launching goes on regardless.
    Mismatch { expected: String, found: String },
    /// Nothing to check: no repository, no submodule there, or no readable
    /// expected hash.
    NotApplicable,
}

/// Compares the expected hash with the submodule's commit in the working tree.
pub fn check_prelude(expected: Option<&str>, found: Option<&str>) -> (r: PreludeCheck)
    ensures
        match (expected, found) {
            (Some(e), Some(f)) => if e@ == f@ {
                r == PreludeCheck::Consistent
            } else {
                r matches PreludeCheck::Mismatch { expected: x, found: y } && x@ == e@ && y@ == f@
            },
            _ => r == PreludeCheck::NotApplicable,
        },
{
    match (expected, found) {
        (Some(e), Some(f)) => if same_text(e, f) {
            PreludeCheck::Consistent
        } else {
            PreludeCheck::Mismatch { expected: String::from_str(e), found: String::from_str(f) }
        },
        _ => PreludeCheck::NotApplicable,
    }
}

pub open spec fn mismatch_line(found: Seq<char>, expected: Seq<char>) -> Seq<char> {
    "buckle: Git submodule for prelude ("@ + found + ") is not the expected "@ + expected + "."@
}

pub open spec fn remedy_line(path: Seq<char>, expected: Seq<char>) -> Seq<char> {
    "buckle: cd "@ + path + " && git fetch && git checkout "@ + expected
}

/// The two lines that tell the user of a mismatch and how to mend it.
pub fn mismatched_prelude_msg(prelude_path: &str, found: &str, expected: &str) -> (r: Vec<String>)
    ensures
        r@.len() == 2,
        r@[0]@ == mismatch_line(found@, expected@),
        r@[1]@ == remedy_line(prelude_path@, expected@),
{
    let mut first = String::from_str("buckle: Git submodule for prelude (");
    first.append(found);
    first.append(") is not the expected ");
    first.append(expected);
    first.append(".");
    let mut second = String::from_str("buckle: cd ");
    second.append(prelude_path);
    second.append(" && git fetch && git checkout ");
    second.append(expected);
    let mut lines: Vec<String> = Vec::new();
    lines.push(first);
    lines.push(second);
    lines
}

/// What the check reports: the two mismatch lines, or nothing.
pub fn prelude_report(check: &PreludeCheck, prelude_path: &str) -> (r: Vec<String>)
    ensures
        match check {
            PreludeCheck::Mismatch { expected, found } => r@.len() == 2
                && r@[0]@ == mismatch_line(found@, expected@)
                && r@[1]@ == remedy_line(prelude_path@, expected@),
            _ => r@.len() == 0,
        },
{
    match check {
        PreludeCheck::Mismatch { expected, found } => mismatched_prelude_msg(prelude_path, found.as_str(), expected.as_str()),
        _ => Vec::new(),
    }
}

/// The components of `path` below `base`, when `base` is a prefix of it.
pub fn strip_components(path: &Vec<String>, base: &Vec<String>) -> (r: Option<Vec<String>>)
    ensures
        match r {
            Some(rest) => base@.len() <= path@.len()
                && (forall|i: int| 0 <= i < base@.len() ==> path@[i]@ == base@[i]@)
                && rest@.len() == path@.len() - base@.len()
                && (forall|i: int| 0 <= i < rest@.len() ==> rest@[i]@ == path@[base@.len() + i]@),
            None => !(base@.len() <= path@.len() && (forall|i: int| 0 <= i < base@.len() ==> path@[i]@ == base@[i]@)),
        },
{
    if base.len() > path.len() {
        return None;
    }
    let mut i: usize = 0;
    while i < base.len()
        invariant
            base@.len() <= path@.len(),
            i <= base@.len(),
            forall|k: int| 0 <= k < i ==> path@[k]@ == base@[k]@,
        decreases base@.len() - i,
    {
        if !same_text(path[i].as_str(), base[i].as_str()) {
            return None;
        }
        i += 1;
    }
    let mut rest: Vec<String> = Vec::new();
    let mut j: usize = base.len();
    while j < path.len()
        invariant
            base@.len() <= j <= path@.len(),
            rest@.len() == j - base@.len(),
            forall|k: int| 0 <= k < rest@.len() ==> rest@[k]@ == path@[base@.len() + k]@,
        decreases path@.len() - j,
    {
        rest.push(String::from_str(path[j].as_str()));
        j += 1;
    }
    Some(rest)
}

} // verus!
