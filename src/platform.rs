use vstd::prelude::*;
use vstd::string::*;

use crate::text::same_text;

verus! {

#[derive(Clone, Copy, Debug, PartialEq, Eq, Structural)]
pub enum PlatformError {
    /// The architecture is known, the operating system is not supported on it.
    UnsupportedOs,
    /// The architecture is not supported.
    UnsupportedArch,
}

/// The target triple of released binaries for an architecture and an
/// operating system, as Rust names them.
pub open spec fn triple_of(arch: Seq<char>, os: Seq<char>) -> Result<Seq<char>, PlatformError> {
    if arch == "x86_64"@ {
        if os == "linux"@ {
            Ok("x86_64-unknown-linux-musl"@)
        } else if os == "darwin"@ || os == "macos"@ {
            Ok("x86_64-apple-darwin"@)
        } else if os == "windows"@ {
            Ok("x86_64-pc-windows-msvc"@)
        } else {
            Err(PlatformError::UnsupportedOs)
        }
    } else if arch == "aarch64"@ {
        if os == "linux"@ {
            Ok("aarch64-unknown-linux-gnu"@)
        } else if os == "darwin"@ || os == "macos"@ {
            Ok("aarch64-apple-darwin"@)
        } else {
            Err(PlatformError::UnsupportedOs)
        }
    } else {
        Err(PlatformError::UnsupportedArch)
    }
}

/// Maps an architecture and an operating system to a target triple.
pub fn target_triple(arch: &str, os: &str) -> (r: Result<String, PlatformError>)
    ensures
        match (r, triple_of(arch@, os@)) {
            (Ok(s), Ok(t)) => s@ == t,
            (Err(e), Err(f)) => e == f,
            _ => false,
        },
{
    if same_text(arch, "x86_64") {
        if same_text(os, "linux") {
            Ok(String::from_str("x86_64-unknown-linux-musl"))
        } else if same_text(os, "darwin") || same_text(os, "macos") {
            Ok(String::from_str("x86_64-apple-darwin"))
        } else if same_text(os, "windows") {
            Ok(String::from_str("x86_64-pc-windows-msvc"))
        } else {
            Err(PlatformError::UnsupportedOs)
        }
    } else if same_text(arch, "aarch64") {
        if same_text(os, "linux") {
            Ok(String::from_str("aarch64-unknown-linux-gnu"))
        } else if same_text(os, "darwin") || same_text(os, "macos") {
            Ok(String::from_str("aarch64-apple-darwin"))
        } else {
            Err(PlatformError::UnsupportedOs)
        }
    } else {
        Err(PlatformError::UnsupportedArch)
    }
}

/// The runtime facts that artifact templates refer to.
#[derive(Clone, Debug, PartialEq, Eq)]
pub struct Platform {
    pub arch: String,
    pub os: String,
    pub target: String,
}

impl Platform {
    /// The platform named by `arch` and `os`, with its target triple.
    pub fn new(arch: &str, os: &str) -> (r: Result<Platform, PlatformError>)
        ensures
            match (r, triple_of(arch@, os@)) {
                (Ok(p), Ok(t)) => p.arch@ == arch@ && p.os@ == os@ && p.target@ == t,
                (Err(e), Err(f)) => e == f,
                _ => false,
            },
    {
        match target_triple(arch, os) {
            Ok(target) => Ok(Platform { arch: String::from_str(arch), os: String::from_str(os), target }),
            Err(e) => Err(e),
        }
    }
}

} // verus!
