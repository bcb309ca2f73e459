//! Verified core of a game-installation updater: it turns manifest
//! descriptions (libraries, assets, runtime, game artifact) into a set of
//! pending downloads, drives a bounded retry loop over failed transfers,
//! and checks every installed file against its expected content hash.
//!
//! Network and file-system effects live outside this crate; the modules
//! here hold the decision logic, fully specified and proved.
#![allow(non_snake_case)]

pub mod auth;
pub mod downloads;
pub mod errors;
pub mod hashing;
pub mod java;
pub mod launch;
pub mod mc_assets;
pub mod mc_libs;
pub mod mc_versions;
pub mod paths;
pub mod transfer;
pub mod updater;
