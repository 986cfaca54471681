//! Verified core of the NeuronPrompter prompt manager.
use vstd::prelude::*;

pub mod text;
pub mod errors;
pub mod token;
pub mod metadata;
pub mod copy;
pub mod associations;
pub mod changes;
pub mod markdown;
pub mod session;
pub mod clipboard;
pub mod access;
pub mod files;
pub mod requests;
pub mod server;
pub mod export;
pub mod settings;
pub mod ollama;

verus! {

} // verus!
