//! The available-PID decoder: a state machine that walks the bitmap-based
//! query protocol for one control unit to completion.
//!
//! The state is the next offset to query (a multiple of 32, starting at 0)
//! and the ordered list of PIDs confirmed so far. Each validated response
//! carries a 4-byte bitmap: bit positions 0 to 30 (most significant bit
//! first within each byte) mark PIDs `offset + position + 1` as supported;
//! bit position 31 is the continuation flag that decides whether offset + 32
//! is queried next or the walk is done.

use vstd::prelude::*;

verus! {

/// Distance between two successive query offsets.
pub const PID_QUERY_STRIDE: u8 = 32;

/// Whether bit position `i` (0-based, most significant bit of the first
/// byte first) is set in a 4-byte bitmap.
pub open spec fn spec_bit_set(data: Seq<u8>, i: int) -> bool {
    data[i / 8] & (1u8 << ((7 - (i % 8)) as u8)) != 0
}

/// Whether a bitmap's continuation flag (bit position 31, the least
/// significant bit of the fourth byte) is set.
pub open spec fn spec_continuation(data: Seq<u8>) -> bool {
    data[3] & 1u8 == 1u8
}

/// The PIDs reported by the first `n` bit positions of a bitmap for a given
/// offset, in ascending order: bit `i` set means PID `offset + i + 1`.
pub open spec fn spec_decoded_upto(offset: u8, data: Seq<u8>, n: int) -> Seq<u8>
    decreases n,
{
    if n <= 0 {
        Seq::empty()
    } else {
        let prev = spec_decoded_upto(offset, data, n - 1);
        if spec_bit_set(data, n - 1) {
            prev.push((offset + n) as u8)
        } else {
            prev
        }
    }
}

/// All PIDs one bitmap reports for a given offset (bit positions 0 to 30).
pub open spec fn spec_decoded_pids(offset: u8, data: Seq<u8>) -> Seq<u8> {
    spec_decoded_upto(offset, data, 31)
}

/// A sequence with no repeated or out-of-order elements.
pub open spec fn strictly_ascending(s: Seq<u8>) -> bool {
    forall|i: int, j: int| 0 <= i < j < s.len() ==> s[i] < s[j]
}

/// The PIDs a bitmap reports lie strictly between the offset and
/// offset + n, and come out in ascending order.
pub proof fn lemma_decoded_upto_props(offset: u8, data: Seq<u8>, n: int)
    requires
        0 <= n <= 31,
        offset <= 224,
    ensures
        forall|k: int|
            0 <= k < spec_decoded_upto(offset, data, n).len() ==> offset < #[trigger] spec_decoded_upto(
                offset,
                data,
                n,
            )[k] <= offset + n,
        strictly_ascending(spec_decoded_upto(offset, data, n)),
    decreases n,
{
    if n > 0 {
        lemma_decoded_upto_props(offset, data, n - 1);
    }
}

/// The decoder for one control unit's enumeration.
pub struct AvailablePidDecoder {
    pub pids: Vec<u8>,
    pub next_query_pid: Option<u8>,
}

impl AvailablePidDecoder {
    /// The decoder's invariant: while another offset is awaited it is a
    /// multiple of the stride and bounds every PID found so far, and the
    /// found PIDs are strictly ascending.
    pub open spec fn wf(self) -> bool {
        &&& strictly_ascending(self.pids@)
        &&& match self.next_query_pid {
            Some(o) => o % 32 == 0 && forall|k: int|
                0 <= k < self.pids@.len() ==> #[trigger] self.pids@[k] <= o,
            None => true,
        }
    }

    /// A fresh decoder: no PIDs yet, awaiting offset 0.
    pub fn new() -> (r: AvailablePidDecoder)
        ensures
            r.pids@ == Seq::<u8>::empty(),
            r.next_query_pid == Some(0u8),
            r.wf(),
    {
        AvailablePidDecoder { pids: Vec::new(), next_query_pid: Some(0) }
    }

    /// Fold one validated bitmap response into the state: append the PIDs
    /// the bitmap reports (ascending, each in `offset + 1 ..= offset + 31`),
    /// then await offset + 32 if the continuation flag is set, or finish.
    ///
    /// The response must be for the awaited offset, and the protocol never
    /// continues past the last offset of the one-byte PID space.
    pub fn integrate_response(&mut self, offset: u8, data: [u8; 4])
        requires
            old(self).wf(),
            old(self).next_query_pid == Some(offset),
            offset == 224 ==> !spec_continuation(data@),
        ensures
            final(self).pids@ == old(self).pids@ + spec_decoded_pids(offset, data@),
            final(self).next_query_pid == (if spec_continuation(data@) {
                Some((offset + PID_QUERY_STRIDE) as u8)
            } else {
                None::<u8>
            }),
            final(self).wf(),
    {
        proof {
            assert(offset <= 224 && offset % 32 == 0) by (bit_vector)
                requires
                    offset % 32 == 0,
            ;
        }
        let should_continue = data[3] & 1 == 1;
        let mut i: usize = 0;
        while i < 31
            invariant
                i <= 31,
                offset <= 224,
                self.pids@ == old(self).pids@ + spec_decoded_upto(offset, data@, i as int),
                self.next_query_pid == old(self).next_query_pid,
            decreases 31 - i,
        {
            let byte_idx = i / 8;
            let bit_idx: u8 = 7 - (i % 8) as u8;
            if data[byte_idx] & (1u8 << bit_idx) > 0 {
                self.pids.push(offset + i as u8 + 1);
            }
            proof {
                assert(spec_decoded_upto(offset, data@, i as int + 1) == (if spec_bit_set(
                    data@,
                    i as int,
                ) {
                    spec_decoded_upto(offset, data@, i as int).push((offset + i + 1) as u8)
                } else {
                    spec_decoded_upto(offset, data@, i as int)
                }));
                assert(self.pids@ == old(self).pids@ + spec_decoded_upto(
                    offset,
                    data@,
                    i as int + 1,
                ));
            }
            i += 1;
        }
        self.next_query_pid = if should_continue {
            Some(offset + PID_QUERY_STRIDE)
        } else {
            None
        };
        proof {
            lemma_decoded_upto_props(offset, data@, 31);
            if spec_continuation(data@) {
                assert(((offset + 32) as u8) % 32 == 0) by (bit_vector)
                    requires
                        offset % 32 == 0,
                        offset <= 192,
                ;
            }
        }
    }

    /// The next offset to query, or nothing once the walk is done.
    pub fn next_query_pid(&self) -> (r: Option<u8>)
        ensures
            r == self.next_query_pid,
    {
        self.next_query_pid
    }

    /// Surrender the ordered list of every PID found.
    pub fn into_available_pids(self) -> (r: Vec<u8>)
        ensures
            r@ == self.pids@,
    {
        self.pids
    }
}

} // verus!
