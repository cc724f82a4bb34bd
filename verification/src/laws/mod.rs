//! What the operations are for: each law is said of inputs and results, in the words that they are
//! made of, and not in those of the functions that make them.

pub mod client;
pub mod clone_source;
pub mod environment;
pub mod git;
pub mod initialize;
pub mod models;
pub mod provider;
pub mod record;
pub mod sandbox;
pub mod text;
