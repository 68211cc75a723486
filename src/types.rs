use vstd::prelude::*;

verus! {

/// A position on one chain: revision number first, then height within it.
#[derive(Clone, Copy, Debug, PartialEq, Eq, Structural)]
pub struct Height {
    pub revision_number: u64,
    pub revision_height: u64,
}

/// The total order on heights of one chain, as a pair of integers.
pub open spec fn height_le(a: Height, b: Height) -> bool {
    a.revision_number < b.revision_number || (a.revision_number == b.revision_number
        && a.revision_height <= b.revision_height)
}

pub open spec fn height_lt(a: Height, b: Height) -> bool {
    height_le(a, b) && a != b
}

impl Height {
    pub fn new(revision_number: u64, revision_height: u64) -> (r: Height)
        ensures
            r.revision_number == revision_number,
            r.revision_height == revision_height,
    {
        Height { revision_number, revision_height }
    }

    pub fn le(&self, other: &Height) -> (r: bool)
        ensures
            r == height_le(*self, *other),
    {
        self.revision_number < other.revision_number || (self.revision_number
            == other.revision_number && self.revision_height <= other.revision_height)
    }

    pub fn lt(&self, other: &Height) -> (r: bool)
        ensures
            r == height_lt(*self, *other),
    {
        self.le(other) && !(self.revision_number == other.revision_number
            && self.revision_height == other.revision_height)
    }
}

} // verus!

verus! {

/// A protocol message waiting to be submitted. `source_height` is the height of
/// the counterparty chain that the destination's light client must already
/// certify before the message is valid, when there is one.
#[derive(Clone, Debug)]
pub struct IbcMessage {
    pub source_height: Option<Height>,
    pub payload: Vec<u8>,
}

impl IbcMessage {
    pub fn new(source_height: Option<Height>, payload: Vec<u8>) -> (r: IbcMessage)
        ensures
            r.source_height == source_height,
            r.payload@ == payload@,
    {
        IbcMessage { source_height, payload }
    }
}

} // verus!
