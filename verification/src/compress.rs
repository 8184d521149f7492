//! Compression algorithm selection.
//!
//! The compression pass itself walks the filesystem and lives with the
//! program around this library; the choice of algorithm from the mode flags
//! is plain logic and is made here.

use vstd::prelude::*;

verus! {

/// The compression algorithms the tool offers.
#[derive(Clone, Copy, Debug, PartialEq, Eq, Structural)]
pub enum Algorithm {
    Huffman,
    LZ,
}

/// Decides which algorithm the two mode flags select: Huffman coding takes
/// precedence, Lempel-Ziv comes second, and no flag at all selects nothing.
pub fn choose_algorithm(huffman: bool, lz: bool) -> (chosen: Option<Algorithm>)
    ensures
        huffman ==> chosen == Some(Algorithm::Huffman),
        !huffman && lz ==> chosen == Some(Algorithm::LZ),
        !huffman && !lz ==> chosen is None,
{
    if huffman {
        Some(Algorithm::Huffman)
    } else if lz {
        Some(Algorithm::LZ)
    } else {
        None
    }
}

} // verus!
