//! Word-case conversion driven by small integer codes.
//!
//! A host hands over plain values: a string, and integer codes that name a
//! case, a pattern or a word boundary. This crate checks every code against
//! the closed set of members it may name, builds the conversion that the codes
//! describe, and has `convert_case` split, mutate and join the words.
//!
//! The four entry points are [`ops::to_case`], [`ops::is_case`],
//! [`ops::mutate`] and [`ops::list_from`].

pub mod boundary;
pub mod case;
pub mod pattern;
pub mod converter;
pub mod engine;
pub mod error;
pub mod ops;
pub mod laws;
