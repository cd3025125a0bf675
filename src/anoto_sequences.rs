//! The Anoto sequences as published, and a corrected A4.
//!
//! This module contains (cut-down, quasi) De Bruijn sequences used
//! in Anoto products according to Anoto patents. These sequences
//! can be used together with the encoder/decoder class to recreate
//! Anoto patterns.
//!
//! In total there are 5 different sequences required:
//!     - The Main Number Sequence (MNS)
//!     - Four secondary number sequences A1,...,A4
//!
//! Each sequence is a cut-down or quasi De Bruijn sequence meaning
//! that each substring appears _at most_ once.
use vstd::prelude::*;

verus! {

/// Main number sequence.
///
/// A quasi De Bruijn sequence of order 6 and length 63. In a quasi De Bruijn
/// sequence of order n, each possible substring of length n appears _at most_
/// once.
pub open spec fn mns_seq() -> Seq<i8> {
    seq![
        0, 0, 0, 0, 0, 0, 1, 0, 0, 1, 1, 1, 1, 1, 0, 1, 0, 0, 1, 0, 0, 0, 0, 1,
        1, 1, 0, 1, 1, 1, 0, 0, 1, 0, 1, 0, 1, 0, 0, 0, 1, 0, 1, 1, 0, 1, 1, 0,
        0, 1, 1, 0, 1, 0, 1, 1, 1, 1, 0, 0, 0, 1, 1,
    ]
}

/// The sequence `mns_seq`, 63 entries long.
pub fn mns() -> (r: Vec<i8>)
    ensures
        r@ == mns_seq(),
{
    vec![
        0, 0, 0, 0, 0, 0, 1, 0, 0, 1, 1, 1, 1, 1, 0, 1, 0, 0, 1, 0, 0, 0, 0, 1,
        1, 1, 0, 1, 1, 1, 0, 0, 1, 0, 1, 0, 1, 0, 0, 0, 1, 0, 1, 1, 0, 1, 1, 0,
        0, 1, 1, 0, 1, 0, 1, 1, 1, 1, 0, 0, 0, 1, 1,
    ]
}

/// Secondary number sequence for the a1 coefficient.
///
/// A quasi De Bruijn sequence of order 5 and length 236.
pub open spec fn a1_seq() -> Seq<i8> {
    seq![
        0, 0, 0, 0, 0, 1, 0, 0, 0, 0, 2, 0, 1, 0, 0, 1, 0, 1, 0, 0, 2, 0, 0, 0,
        1, 1, 0, 0, 0, 1, 2, 0, 0, 1, 0, 2, 0, 0, 2, 0, 2, 0, 1, 1, 0, 1, 0, 1,
        1, 0, 2, 0, 1, 2, 0, 1, 0, 1, 2, 0, 2, 1, 0, 0, 1, 1, 1, 0, 1, 1, 1, 1,
        0, 2, 1, 0, 1, 0, 2, 1, 1, 0, 0, 1, 2, 1, 0, 1, 1, 2, 0, 0, 0, 2, 1, 0,
        2, 0, 2, 1, 1, 1, 0, 0, 2, 1, 2, 0, 1, 1, 1, 2, 0, 2, 0, 0, 1, 1, 2, 1,
        0, 0, 0, 2, 2, 0, 1, 0, 2, 2, 0, 0, 1, 2, 2, 0, 2, 0, 2, 2, 1, 0, 1, 2,
        1, 2, 1, 0, 2, 1, 2, 1, 1, 0, 2, 2, 1, 2, 1, 2, 0, 2, 2, 0, 2, 2, 2, 0,
        1, 1, 2, 2, 1, 1, 0, 1, 2, 2, 2, 2, 1, 2, 0, 0, 2, 2, 1, 1, 2, 1, 2, 2,
        1, 0, 2, 2, 2, 2, 2, 0, 2, 1, 2, 2, 2, 1, 1, 1, 2, 1, 1, 2, 0, 1, 2, 2,
        1, 2, 2, 0, 1, 2, 1, 1, 1, 1, 2, 2, 2, 0, 0, 2, 1, 1, 2, 2,
    ]
}

/// The sequence `a1_seq`, 236 entries long.
pub fn a1() -> (r: Vec<i8>)
    ensures
        r@ == a1_seq(),
{
    vec![
        0, 0, 0, 0, 0, 1, 0, 0, 0, 0, 2, 0, 1, 0, 0, 1, 0, 1, 0, 0, 2, 0, 0, 0,
        1, 1, 0, 0, 0, 1, 2, 0, 0, 1, 0, 2, 0, 0, 2, 0, 2, 0, 1, 1, 0, 1, 0, 1,
        1, 0, 2, 0, 1, 2, 0, 1, 0, 1, 2, 0, 2, 1, 0, 0, 1, 1, 1, 0, 1, 1, 1, 1,
        0, 2, 1, 0, 1, 0, 2, 1, 1, 0, 0, 1, 2, 1, 0, 1, 1, 2, 0, 0, 0, 2, 1, 0,
        2, 0, 2, 1, 1, 1, 0, 0, 2, 1, 2, 0, 1, 1, 1, 2, 0, 2, 0, 0, 1, 1, 2, 1,
        0, 0, 0, 2, 2, 0, 1, 0, 2, 2, 0, 0, 1, 2, 2, 0, 2, 0, 2, 2, 1, 0, 1, 2,
        1, 2, 1, 0, 2, 1, 2, 1, 1, 0, 2, 2, 1, 2, 1, 2, 0, 2, 2, 0, 2, 2, 2, 0,
        1, 1, 2, 2, 1, 1, 0, 1, 2, 2, 2, 2, 1, 2, 0, 0, 2, 2, 1, 1, 2, 1, 2, 2,
        1, 0, 2, 2, 2, 2, 2, 0, 2, 1, 2, 2, 2, 1, 1, 1, 2, 1, 1, 2, 0, 1, 2, 2,
        1, 2, 2, 0, 1, 2, 1, 1, 1, 1, 2, 2, 2, 0, 0, 2, 1, 1, 2, 2,
    ]
}

/// Secondary number sequence for the a2 coefficient.
///
/// A quasi De Bruijn sequence of order 5 and length 233.
pub open spec fn a2_seq() -> Seq<i8> {
    seq![
        0, 0, 0, 0, 0, 1, 0, 0, 0, 0, 2, 0, 1, 0, 0, 1, 0, 1, 0, 1, 1, 0, 0, 0,
        1, 1, 1, 1, 0, 0, 1, 1, 0, 1, 0, 0, 2, 0, 0, 0, 1, 2, 0, 1, 0, 1, 2, 1,
        0, 0, 0, 2, 1, 1, 1, 0, 1, 1, 1, 0, 2, 1, 0, 0, 1, 2, 1, 2, 1, 0, 1, 0,
        2, 0, 1, 1, 0, 2, 0, 0, 1, 0, 2, 1, 2, 0, 0, 0, 2, 2, 0, 0, 1, 1, 2, 0,
        2, 0, 0, 2, 0, 2, 0, 1, 2, 0, 0, 2, 2, 1, 1, 0, 0, 2, 1, 0, 1, 1, 2, 1,
        0, 2, 0, 2, 2, 1, 0, 0, 2, 2, 2, 1, 0, 1, 2, 2, 0, 0, 2, 1, 2, 2, 1, 1,
        1, 1, 1, 2, 0, 0, 1, 2, 2, 1, 2, 0, 1, 1, 1, 2, 1, 1, 2, 0, 1, 2, 1, 1,
        1, 2, 2, 0, 2, 2, 0, 1, 1, 2, 2, 2, 2, 1, 2, 1, 2, 2, 0, 1, 2, 2, 2, 0,
        2, 0, 2, 1, 1, 2, 2, 1, 0, 2, 2, 0, 2, 1, 0, 2, 1, 1, 0, 2, 2, 2, 2, 0,
        1, 0, 2, 2, 1, 2, 2, 2, 1, 1, 2, 1, 2, 0, 2, 2, 2,
    ]
}

/// The sequence `a2_seq`, 233 entries long.
pub fn a2() -> (r: Vec<i8>)
    ensures
        r@ == a2_seq(),
{
    vec![
        0, 0, 0, 0, 0, 1, 0, 0, 0, 0, 2, 0, 1, 0, 0, 1, 0, 1, 0, 1, 1, 0, 0, 0,
        1, 1, 1, 1, 0, 0, 1, 1, 0, 1, 0, 0, 2, 0, 0, 0, 1, 2, 0, 1, 0, 1, 2, 1,
        0, 0, 0, 2, 1, 1, 1, 0, 1, 1, 1, 0, 2, 1, 0, 0, 1, 2, 1, 2, 1, 0, 1, 0,
        2, 0, 1, 1, 0, 2, 0, 0, 1, 0, 2, 1, 2, 0, 0, 0, 2, 2, 0, 0, 1, 1, 2, 0,
        2, 0, 0, 2, 0, 2, 0, 1, 2, 0, 0, 2, 2, 1, 1, 0, 0, 2, 1, 0, 1, 1, 2, 1,
        0, 2, 0, 2, 2, 1, 0, 0, 2, 2, 2, 1, 0, 1, 2, 2, 0, 0, 2, 1, 2, 2, 1, 1,
        1, 1, 1, 2, 0, 0, 1, 2, 2, 1, 2, 0, 1, 1, 1, 2, 1, 1, 2, 0, 1, 2, 1, 1,
        1, 2, 2, 0, 2, 2, 0, 1, 1, 2, 2, 2, 2, 1, 2, 1, 2, 2, 0, 1, 2, 2, 2, 0,
        2, 0, 2, 1, 1, 2, 2, 1, 0, 2, 2, 0, 2, 1, 0, 2, 1, 1, 0, 2, 2, 2, 2, 0,
        1, 0, 2, 2, 1, 2, 2, 2, 1, 1, 2, 1, 2, 0, 2, 2, 2,
    ]
}

/// Secondary number sequence for the a3 coefficient.
///
/// A quasi De Bruijn sequence of order 5 and length 31.
pub open spec fn a3_seq() -> Seq<i8> {
    seq![
        0, 0, 0, 0, 0, 1, 0, 0, 1, 1, 0, 0, 0, 1, 1, 1, 1, 0, 0, 1, 0, 1, 0, 1,
        1, 0, 1, 1, 1, 0, 1,
    ]
}

/// The sequence `a3_seq`, 31 entries long.
pub fn a3() -> (r: Vec<i8>)
    ensures
        r@ == a3_seq(),
{
    vec![
        0, 0, 0, 0, 0, 1, 0, 0, 1, 1, 0, 0, 0, 1, 1, 1, 1, 0, 0, 1, 0, 1, 0, 1,
        1, 0, 1, 1, 1, 0, 1,
    ]
}

/// The published A4 sequence (not De Bruijn).
///
/// Note: This sequence has issues with duplicate substrings.
pub open spec fn a4_seq() -> Seq<i8> {
    seq![
        0, 0, 0, 0, 0, 1, 0, 2, 0, 0, 0, 0, 2, 0, 0, 2, 0, 1, 0, 0, 0, 1, 1, 2,
        0, 0, 0, 1, 2, 0, 0, 2, 1, 0, 0, 0, 2, 1, 1, 2, 0, 1, 0, 1, 0, 0, 1, 2,
        1, 0, 0, 1, 0, 0, 2, 2, 0, 0, 0, 2, 2, 1, 0, 2, 0, 1, 1, 0, 0, 1, 1, 1,
        0, 1, 0, 1, 1, 0, 1, 2, 0, 1, 1, 1, 1, 0, 0, 2, 0, 2, 0, 1, 2, 0, 2, 2,
        0, 1, 0, 2, 1, 0, 1, 2, 1, 1, 0, 1, 1, 1, 2, 2, 0, 0, 1, 0, 1, 2, 2, 2,
        0, 0, 2, 2, 2, 0, 1, 2, 1, 2, 0, 2, 0, 0, 1, 2, 2, 0, 1, 1, 2, 1, 0, 2,
        1, 1, 0, 2, 0, 2, 1, 2, 0, 0, 1, 1, 0, 2, 1, 2, 1, 0, 1, 0, 2, 2, 0, 2,
        1, 0, 2, 2, 1, 1, 1, 2, 0, 2, 1, 1, 1, 0, 2, 2, 2, 2, 0, 2, 0, 2, 2, 1,
        2, 1, 1, 1, 1, 2, 1, 2, 1, 2, 2, 2, 1, 0, 0, 2, 1, 2, 2, 1, 0, 1, 1, 2,
        2, 1, 1, 2, 1, 2, 2, 2, 2, 1, 2, 0, 1, 2, 2, 1, 2, 2, 0, 2, 2, 2, 1, 1,
        1,
    ]
}

/// The sequence `a4_seq`, 241 entries long.
pub fn a4() -> (r: Vec<i8>)
    ensures
        r@ == a4_seq(),
{
    vec![
        0, 0, 0, 0, 0, 1, 0, 2, 0, 0, 0, 0, 2, 0, 0, 2, 0, 1, 0, 0, 0, 1, 1, 2,
        0, 0, 0, 1, 2, 0, 0, 2, 1, 0, 0, 0, 2, 1, 1, 2, 0, 1, 0, 1, 0, 0, 1, 2,
        1, 0, 0, 1, 0, 0, 2, 2, 0, 0, 0, 2, 2, 1, 0, 2, 0, 1, 1, 0, 0, 1, 1, 1,
        0, 1, 0, 1, 1, 0, 1, 2, 0, 1, 1, 1, 1, 0, 0, 2, 0, 2, 0, 1, 2, 0, 2, 2,
        0, 1, 0, 2, 1, 0, 1, 2, 1, 1, 0, 1, 1, 1, 2, 2, 0, 0, 1, 0, 1, 2, 2, 2,
        0, 0, 2, 2, 2, 0, 1, 2, 1, 2, 0, 2, 0, 0, 1, 2, 2, 0, 1, 1, 2, 1, 0, 2,
        1, 1, 0, 2, 0, 2, 1, 2, 0, 0, 1, 1, 0, 2, 1, 2, 1, 0, 1, 0, 2, 2, 0, 2,
        1, 0, 2, 2, 1, 1, 1, 2, 0, 2, 1, 1, 1, 0, 2, 2, 2, 2, 0, 2, 0, 2, 2, 1,
        2, 1, 1, 1, 1, 2, 1, 2, 1, 2, 2, 2, 1, 0, 0, 2, 1, 2, 2, 1, 0, 1, 1, 2,
        2, 1, 1, 2, 1, 2, 2, 2, 2, 1, 2, 0, 1, 2, 2, 1, 2, 2, 0, 2, 2, 2, 1, 1,
        1,
    ]
}

/// Alternative A4 sequence that is properly De Bruijn.
///
/// This is a corrected version that maintains the De Bruijn property.
pub open spec fn a4_alt_seq() -> Seq<i8> {
    seq![
        0, 0, 0, 0, 2, 2, 2, 2, 0, 2, 2, 2, 1, 0, 2, 2, 2, 0, 0, 2, 2, 1, 2, 0,
        2, 2, 1, 1, 0, 2, 2, 1, 0, 0, 2, 2, 0, 0, 0, 2, 1, 2, 2, 0, 2, 1, 2, 1,
        0, 2, 1, 2, 0, 0, 2, 1, 1, 2, 0, 2, 1, 1, 1, 0, 2, 1, 1, 0, 0, 2, 1, 0,
        0, 0, 2, 0, 2, 2, 0, 2, 0, 2, 1, 0, 2, 0, 2, 0, 0, 2, 0, 1, 0, 0, 2, 0,
        0, 0, 0, 1, 2, 2, 2, 0, 1, 2, 2, 1, 0, 1, 2, 2, 0, 0, 1, 2, 1, 2, 0, 1,
        2, 1, 1, 0, 1, 2, 1, 0, 0, 1, 2, 0, 0, 0, 1, 1, 2, 2, 0, 1, 1, 2, 1, 0,
        1, 1, 2, 0, 0, 1, 1, 1, 2, 0, 1, 1, 1, 1, 2, 2, 2, 2, 1, 2, 2, 2, 1, 1,
        2, 2, 1, 1, 1, 2, 1, 2, 2, 1, 2, 1, 2, 1, 1, 2, 1, 1, 1, 1, 1, 0, 1, 1,
        1, 0, 0, 1, 1, 0, 0, 0, 1, 0, 2, 2, 0, 1, 0, 2, 1, 0, 1, 0, 2, 0, 0, 1,
        0, 1, 2, 0, 2, 0, 1, 2, 0, 1, 0, 1, 1, 0, 2, 0, 1, 1, 0, 1, 0, 1, 0, 0,
        1,
    ]
}

/// The sequence `a4_alt_seq`, 241 entries long.
pub fn a4_alt() -> (r: Vec<i8>)
    ensures
        r@ == a4_alt_seq(),
{
    vec![
        0, 0, 0, 0, 2, 2, 2, 2, 0, 2, 2, 2, 1, 0, 2, 2, 2, 0, 0, 2, 2, 1, 2, 0,
        2, 2, 1, 1, 0, 2, 2, 1, 0, 0, 2, 2, 0, 0, 0, 2, 1, 2, 2, 0, 2, 1, 2, 1,
        0, 2, 1, 2, 0, 0, 2, 1, 1, 2, 0, 2, 1, 1, 1, 0, 2, 1, 1, 0, 0, 2, 1, 0,
        0, 0, 2, 0, 2, 2, 0, 2, 0, 2, 1, 0, 2, 0, 2, 0, 0, 2, 0, 1, 0, 0, 2, 0,
        0, 0, 0, 1, 2, 2, 2, 0, 1, 2, 2, 1, 0, 1, 2, 2, 0, 0, 1, 2, 1, 2, 0, 1,
        2, 1, 1, 0, 1, 2, 1, 0, 0, 1, 2, 0, 0, 0, 1, 1, 2, 2, 0, 1, 1, 2, 1, 0,
        1, 1, 2, 0, 0, 1, 1, 1, 2, 0, 1, 1, 1, 1, 2, 2, 2, 2, 1, 2, 2, 2, 1, 1,
        2, 2, 1, 1, 1, 2, 1, 2, 2, 1, 2, 1, 2, 1, 1, 2, 1, 1, 1, 1, 1, 0, 1, 1,
        1, 0, 0, 1, 1, 0, 0, 0, 1, 0, 2, 2, 0, 1, 0, 2, 1, 0, 1, 0, 2, 0, 0, 1,
        0, 1, 2, 0, 2, 0, 1, 2, 0, 1, 0, 1, 1, 0, 2, 0, 1, 1, 0, 1, 0, 1, 0, 0,
        1,
    ]
}

} // verus!
