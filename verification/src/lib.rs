//! Turns the entries of a bun lockfile into descriptions of how Nix fetches
//! each package.
//!
//! An entry is a name and a short list of JSON values; nothing but the length
//! of that list says which kind of package it describes. [`lockfile`] tells
//! the kinds apart and reads the fields out of the values. [`package`] holds
//! the descriptions that come out and builds the URLs of npm archives.
//! [`text`] is the character-level model that the contracts are written in,
//! [`json`] what is taken on trust of `serde_json`, and [`error`] the ways in
//! which an entry fails.

pub mod error;
pub mod json;
pub mod lockfile;
pub mod model;
pub mod package;
pub mod text;
