//! Klumo turns source text of any kind into JavaScript, runs it, and has
//! it repaired when it fails.
//!
//! This crate holds the rules of that pipeline: how a source is
//! classified, under which key a translation is cached, in which order the
//! providers are tried, what is made of their answers, what an interactive
//! session remembers, and how often a failure is repaired.  Reading files,
//! talking to providers and running JavaScript are left to the program
//! around it, which hands in plain values and the implementations of the
//! traits `LlmClient`, `ReachabilityProbe`, `CompileCache` and `JsEngine`.

pub mod cache;
pub mod cli;
pub mod clients;
pub mod compiler;
pub mod config;
pub mod engine;
pub mod heal;
pub mod paths;
pub mod provider;
pub mod run;
pub mod session;
pub mod text;
pub mod web;
