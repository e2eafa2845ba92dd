//! The verified core of `vibevoicecli`, a portable command-line front end to
//! neural text-to-speech: the speaker presets and the voice model each
//! selects, the download and offline rules for the engine and its models,
//! the `--set-config` assignments, the interactive prompt, and the text
//! handling they rest on.
use vstd::prelude::*;

pub mod audio;
pub mod config;
pub mod decimal;
pub mod engine;
pub mod presets;
pub mod session;
pub mod text;
pub mod voices;

verus! {

} // verus!
