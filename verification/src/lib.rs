//! Batch file-renaming library.
//!
//! Given the files listed from a source directory, a destination directory
//! and a prefix, every file is assigned a destination name built from the
//! prefix, its position in the listing, and its original extension; each
//! pair is then transferred by moving, copying, or simulating (dry run).
//! This crate holds the verified core: directory-entry filtering, pair
//! generation, prefix derivation, and the per-pair transfer decisions and
//! report lines. The filesystem calls themselves live with the caller.

pub mod listing;
pub mod pairing;
pub mod paths;
pub mod transfer;
