//! Resolution of one configuration value from an ordered chain of sources:
//! command-line arguments, environment variables, a JSON file searched for a
//! nested key, a plain-text file and a fixed default. The first source that
//! supplies a value wins.
//!
//! The library decides; it never touches the environment or the file system
//! itself. A handler answers a request either with the final result or with
//! the one piece of outside information it needs next, and the caller does
//! that work: step by step through `Outcome::resume`, or by handing
//! `resolve` a function that does it.

pub mod args;
pub mod chain;
pub mod driver;
pub mod json;
pub mod laws;

pub use chain::{
    AnyHandler, ArgHandler, DefaultHandler, EnvHandler, FileHandler, Handler, JSONFileHandler,
    Outcome, Request,
};
pub use driver::resolve;
pub use json::{JsonNode, Member};
