//! Type-level tracking of the serial transaction length, in bytes.
//!
//! The transaction length is represented in the type domain by marker
//! types, one per byte count, plus [`DynLength`] for a length chosen at
//! run time. The length determines the natural word type a transaction
//! exchanges: lengths one to four fit a single primitive word and can be
//! moved atomically, longer transactions use a byte array.

use vstd::prelude::*;

verus! {

/// Type-level enum representing the transaction length, in bytes.
///
/// Acts both as a type class for transaction lengths and as a type-level
/// function mapping each length to its word type. [`DynLength`] stands
/// for a length chosen at run time; its reported byte count is zero.
pub trait Length {
    /// Word type the transaction exchanges for this length.
    type Word;

    /// The length in bytes, as seen by specifications.
    spec fn spec_len() -> usize;

    /// The length in bytes; zero for the run-time dynamic length.
    fn len_bytes() -> (r: usize)
        ensures
            r == Self::spec_len(),
    ;
}

/// Marker type for a run-time dynamic transaction length.
pub struct DynLength;

impl Length for DynLength {
    type Word = ();

    closed spec fn spec_len() -> usize {
        0
    }

    fn len_bytes() -> (r: usize) {
        0
    }
}

/// Marker trait for statically known transaction lengths.
pub trait StaticLength: Length {

}

/// Marker trait for transaction lengths greater than four, which no
/// longer fit one primitive word.
pub trait GreaterThan4: Length {

}

/// Transaction length of one byte.
pub struct U1;

impl Length for U1 {
    type Word = u8;

    closed spec fn spec_len() -> usize {
        1
    }

    fn len_bytes() -> (r: usize) {
        1
    }
}

impl StaticLength for U1 {

}

/// Transaction length of two bytes.
pub struct U2;

impl Length for U2 {
    type Word = u16;

    closed spec fn spec_len() -> usize {
        2
    }

    fn len_bytes() -> (r: usize) {
        2
    }
}

impl StaticLength for U2 {

}

/// Transaction length of three bytes.
pub struct U3;

impl Length for U3 {
    type Word = u32;

    closed spec fn spec_len() -> usize {
        3
    }

    fn len_bytes() -> (r: usize) {
        3
    }
}

impl StaticLength for U3 {

}

/// Transaction length of four bytes.
pub struct U4;

impl Length for U4 {
    type Word = u32;

    closed spec fn spec_len() -> usize {
        4
    }

    fn len_bytes() -> (r: usize) {
        4
    }
}

impl StaticLength for U4 {

}

/// Transaction length of five bytes.
pub struct U5;

impl Length for U5 {
    type Word = [u8; 5];

    closed spec fn spec_len() -> usize {
        5
    }

    fn len_bytes() -> (r: usize) {
        5
    }
}

impl StaticLength for U5 {

}

impl GreaterThan4 for U5 {

}

/// Transaction length of six bytes.
pub struct U6;

impl Length for U6 {
    type Word = [u8; 6];

    closed spec fn spec_len() -> usize {
        6
    }

    fn len_bytes() -> (r: usize) {
        6
    }
}

impl StaticLength for U6 {

}

impl GreaterThan4 for U6 {

}

/// Transaction length of seven bytes.
pub struct U7;

impl Length for U7 {
    type Word = [u8; 7];

    closed spec fn spec_len() -> usize {
        7
    }

    fn len_bytes() -> (r: usize) {
        7
    }
}

impl StaticLength for U7 {

}

impl GreaterThan4 for U7 {

}

/// Transaction length of eight bytes.
pub struct U8;

impl Length for U8 {
    type Word = [u8; 8];

    closed spec fn spec_len() -> usize {
        8
    }

    fn len_bytes() -> (r: usize) {
        8
    }
}

impl StaticLength for U8 {

}

impl GreaterThan4 for U8 {

}

/// Type alias to recover the word type from an implementation of
/// [`Length`].
pub type Word<L> = <L as Length>::Word;

} // verus!
