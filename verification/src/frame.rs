//! Single bus frames: an identifier and a payload of at most eight bytes.
//! The extended/remote flags of the wire format are not used by this
//! protocol; the identifier's kind carries the only flag that matters.

use vstd::prelude::*;

use crate::addressing::Identifier;

verus! {

/// Longest payload one unsegmented frame can carry.
pub const MAX_FRAME_PAYLOAD: usize = 8;

/// One unsegmented frame.
#[derive(Debug)]
pub struct Frame {
    pub id: Identifier,
    pub payload: Vec<u8>,
}

impl Frame {
    /// A well-formed frame: a width-respecting identifier and at most eight
    /// payload bytes.
    pub open spec fn wf(self) -> bool {
        self.id.wf() && self.payload@.len() <= MAX_FRAME_PAYLOAD
    }

    /// The frame's identifier.
    pub open spec fn spec_id(self) -> Identifier {
        self.id
    }

    /// The frame's payload bytes.
    pub open spec fn spec_payload(self) -> Seq<u8> {
        self.payload@
    }

    /// Construct a frame; refuses a payload over eight bytes or an
    /// identifier that overflows its kind's width.
    pub fn new(id: Identifier, payload: Vec<u8>) -> (r: Option<Frame>)
        ensures
            r is Some <==> id.wf() && payload@.len() <= MAX_FRAME_PAYLOAD,
            r is Some ==> r->0 == (Frame { id, payload }) && r->0.wf(),
    {
        let id_ok = match id {
            Identifier::Standard(v) => v < 0x800,
            Identifier::Extended(v) => v < 0x2000_0000,
        };
        if id_ok && payload.len() <= MAX_FRAME_PAYLOAD {
            Some(Frame { id, payload })
        } else {
            None
        }
    }

    /// The frame's identifier.
    pub fn id(&self) -> (r: Identifier)
        ensures
            r == self.spec_id(),
    {
        self.id
    }

    /// The frame's payload bytes.
    pub fn payload(&self) -> (r: &Vec<u8>)
        ensures
            r@ == self.spec_payload(),
    {
        &self.payload
    }
}

} // verus!
