//! Command-line options of a terminal plotting tool.
//!
//! The crate turns the arguments that a `lexopt::Parser` hands out into an
//! [`Opt`] record, or into an [`ArgError`] that says which argument was at
//! fault. [`Opt::parse_from_env`] is the way in.
//!
//! Every function here is verified against its contract, with three kinds of
//! exception, each marked where it stands: the calls into `lexopt` in
//! [`lexer`], whose contracts say what this crate takes that parser to do;
//! the names given there to what the parser computes; and the one call into
//! the standard library in [`text`] that decides whether bytes are UTF-8.
//! What holds of the rules as a whole is stated and proved in [`laws`].

pub mod args;
pub mod canvas;
pub mod error;
pub mod laws;
pub mod lexer;
pub mod number;
pub mod text;
pub mod token;

pub use args::{LogAxis, Opt};
pub use canvas::Mode;
pub use error::ArgError;
pub use token::{Flag, Token};
