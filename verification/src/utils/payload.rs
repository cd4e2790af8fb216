//! What a packet carries.

use vstd::prelude::*;

verus! {

/// What a packet carried, as it is read: the part that was sent in the
/// clear and the part that was sent masked. Either may be missing.
#[derive(Debug, Clone, PartialEq, Eq)]
pub struct Envelope {
    pub public: Option<Vec<u8>>,
    pub masked: Option<Vec<u8>>,
}

/// One part as it is read: nothing where nothing was written.
pub open spec fn part_of(data: Vec<u8>) -> Option<Vec<u8>> {
    if data@.len() == 0 {
        None
    } else {
        Some(data)
    }
}

/// Reads one part of a payload.
pub fn read_part(data: Vec<u8>) -> (part: Option<Vec<u8>>)
    ensures
        part == part_of(data),
{
    if data.len() == 0 {
        None
    } else {
        Some(data)
    }
}

impl Envelope {
    /// Reads the two parts that the engine took out of a packet. Each is
    /// there or not by itself.
    pub fn open(public: Vec<u8>, masked: Vec<u8>) -> (envelope: Envelope)
        ensures
            envelope.public == part_of(public),
            envelope.masked == part_of(masked),
    {
        Envelope { public: read_part(public), masked: read_part(masked) }
    }
}

} // verus!
