//! Why a header could not be read.
use vstd::prelude::*;

verus! {

#[derive(Debug, Clone, Copy, PartialEq, Eq, Structural)]
pub enum Error {
    /// The signature or byte-order mark that the format requires is absent.
    FormatMismatch,
    /// The source ends before a field that the format requires.
    Truncated,
    /// A field holds a value that the format's structure cannot take.
    ParseError,
    /// The file name's extension names no supported format.
    UnsupportedExtension,
}

} // verus!
