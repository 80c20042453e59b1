//! A toolchain launcher's core: choosing a release and an asset from a
//! provider's listing, deciding when the local release snapshot is fresh,
//! materialising an executable in the cache, and checking a pinned prelude
//! hash against the working tree.
pub mod text;
pub mod config;
pub mod platform;
pub mod template;
pub mod pattern;
pub mod resolve;
pub mod index;
pub mod cache;
pub mod install;
pub mod consistency;
pub mod project;
pub mod settings;
