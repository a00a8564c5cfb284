//! Command-line argument classification for a coverage tool that wraps a
//! build-and-test pipeline.
//!
//! A command line has the shape
//! `<program> llvm-cov [options] [subcommand] [options and values] [-- rest]`.
//! The library turns it into one [`args::Args`] value: options of the tool
//! itself are stored in typed fields, options that it does not know are
//! handed on to the wrapped build tool, and everything behind the first bare
//! `--` is kept as it is.
//!
//! The parse is one pass. [`envelope`] decodes the raw arguments, checks the
//! two arguments in front and cuts the line at the bare `--`. [`lexer`] lets
//! `lexopt` cut what stands before it into tokens. [`parse`] resolves each
//! token against the options in [`flags`] and gathers what it says in a
//! [`draft::Draft`], which at the end is checked and assembled.
//!
//! What a parse returns is stated over a mathematical model: [`parse::run`]
//! says how a parse ends from any point on, and [`envelope::parsed`] how a
//! whole command line is read. [`laws`] proves from the model what holds of
//! every parse.
pub mod args;
pub mod draft;
pub mod envelope;
pub mod error;
pub mod flags;
pub mod laws;
pub mod lexer;
pub mod names;
pub mod options;
pub mod parse;
pub mod text;
