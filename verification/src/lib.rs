//! A cyclic alphabetic shift over ASCII letters, a generalised Caesar cipher
//! whose default of 13 places is ROT13, and the rules of the `rot` command
//! built on it.
//!
//! - [`alphabet`]: the 26 letters and the position of each.
//! - [`rotator`]: the shift of one character and of a text, with the laws it
//!   obeys: shifts add up, a shift by a multiple of 26 changes nothing, and
//!   the shift by `26 - n` undoes the shift by `n`.
//! - [`number`]: reading a shift from its decimal spelling.
//! - [`args`]: reading the command line.
//! - [`run`]: from the configuration and the input to the text to write and
//!   the exit status.
//! - [`strings`]: what is assumed of the standard `String`.
//!
//! The library reads no file and writes nothing: its caller hands it the
//! argument list and what reading the input gave.

pub mod alphabet;
pub mod args;
pub mod number;
pub mod rotator;
pub mod run;
pub mod strings;
