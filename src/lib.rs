//! A content-addressed store of home files: digests of files and directory
//! trees, hash-named store entries, the decisions around creating, listing,
//! adding to and deleting from the store directory, and the file entries of
//! the configuration table.

pub mod config;
pub mod error;
pub mod hash;
pub mod paths;
pub mod store;
pub mod tomlx;
pub mod xdg;
