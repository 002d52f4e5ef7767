//! Verified core of a package-scaffolding tool.
//!
//! The library decides which files a freshly initialized package needs and
//! what each of them contains: an entry-point stub, a manifest, an ignore
//! file, and optionally a README and an MIT license.  The manifest is an
//! ordered line document with a designated insertion point for optional
//! fields, and insertion is idempotent per key.  All filesystem and
//! repository work happens outside the library: every operation here is a
//! pure computation from plain values to plain values, and file writes are
//! described as relative path / content pairs for a thin runner to perform.

pub mod args;
pub mod errors;
pub mod generator;
pub mod manifest;
pub mod pathname;
pub mod strutil;
pub mod templates;
pub mod year;
