//! An attribute processor for change-tracked types: it reads an optional
//! `serialization = "<identifier>"` argument and rewrites one type declaration
//! into the same declaration decorated with the automatic derivations, plus a
//! trackable-capability implementation binding the type to the chosen
//! serialization strategy and an empty marker-capability implementation.
//! A malformed argument list yields a diagnostic instead of code.

pub mod args;
pub mod emit;
pub mod expand;
pub mod syntax;
