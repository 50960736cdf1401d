//! A typed interface over the `rustup target` command: listing the compilation
//! targets that rustup knows, which of them are installed, and installing more.
//!
//! The process itself is run by the caller; this library decides what to run,
//! cleans and decodes what came back, classifies failures and parses listings.
mod error;
mod lexicon;
pub mod laws;
pub mod output;
pub mod target;
pub mod text;

pub use error::RustupTargetError;
pub use lexicon::lexicon_canonical;
pub use output::CommandOutput;

