//! Verified core of a command-line translation client.
//!
//! The library covers the translation request pipeline: proxy resolution,
//! language-code normalization, request signing, response interpretation and
//! provider error classification. Network transport, terminal output and
//! configuration persistence are left to the surrounding application, which
//! hands this library plain values and receives plain values back.

pub mod baidu;
pub mod cli;
pub mod config;
pub mod error;
pub mod json;
pub mod lang;
pub mod proxy;
pub mod sign;
pub mod text;
pub mod translator;
