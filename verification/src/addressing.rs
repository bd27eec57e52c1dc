//! Reserved diagnostic identifier spaces and request/response translation.
//!
//! A session runs in exactly one addressing mode: standard (11-bit
//! identifiers) or extended (29-bit identifiers). Each mode fixes a broadcast
//! address, a range of eight response addresses, and a translation formula
//! between request and response identifiers: standard mode subtracts or adds
//! eight, extended mode swaps the low two bytes of the identifier (a
//! self-inverse transform fixed by the protocol standard).

use vstd::prelude::*;

verus! {

/// Broadcast request identifier in standard (11-bit) mode.
pub const OBD_BROADCAST_STANDARD: u16 = 0x7DF;

/// Broadcast request identifier in extended (29-bit) mode.
pub const OBD_BROADCAST_EXTENDED: u32 = 0x18DB33F1;

/// First response identifier in standard mode.
pub const OBD_RESPONSE_BASE_STANDARD: u16 = 0x7E8;

/// Last response identifier in standard mode (eight slots).
pub const OBD_RESPONSE_LAST_STANDARD: u16 = 0x7EF;

/// First response identifier in extended mode.
pub const OBD_RESPONSE_BASE_EXTENDED: u32 = 0x18DAF101;

/// Last response identifier in extended mode (eight slots).
pub const OBD_RESPONSE_LAST_EXTENDED: u32 = 0x18DAF108;

/// A bus identifier: an 11-bit standard value or a 29-bit extended value.
///
/// The kind never changes after construction, and construction refuses a
/// numeric value that exceeds the kind's bit width.
#[derive(Clone, Copy, Debug, PartialEq, Eq, Structural)]
pub enum Identifier {
    Standard(u16),
    Extended(u32),
}

impl Identifier {
    /// The identifier's numeric value fits its kind's bit width.
    pub open spec fn wf(self) -> bool {
        match self {
            Identifier::Standard(v) => v < 0x800,
            Identifier::Extended(v) => v < 0x2000_0000,
        }
    }

    /// The numeric value, regardless of kind.
    pub open spec fn spec_raw(self) -> u32 {
        match self {
            Identifier::Standard(v) => v as u32,
            Identifier::Extended(v) => v,
        }
    }

    /// Construct a standard (11-bit) identifier; refuses values over 0x7FF.
    pub fn standard(value: u16) -> (r: Option<Identifier>)
        ensures
            value < 0x800 ==> r == Some(Identifier::Standard(value)),
            value >= 0x800 ==> r is None,
            r is Some ==> r->0.wf(),
    {
        if value < 0x800 {
            Some(Identifier::Standard(value))
        } else {
            None
        }
    }

    /// Construct an extended (29-bit) identifier; refuses values over
    /// 0x1FFFFFFF.
    pub fn extended(value: u32) -> (r: Option<Identifier>)
        ensures
            value < 0x2000_0000 ==> r == Some(Identifier::Extended(value)),
            value >= 0x2000_0000 ==> r is None,
            r is Some ==> r->0.wf(),
    {
        if value < 0x2000_0000 {
            Some(Identifier::Extended(value))
        } else {
            None
        }
    }

    /// The numeric value, regardless of kind.
    pub fn as_raw(&self) -> (r: u32)
        ensures
            r == self.spec_raw(),
    {
        match self {
            Identifier::Standard(v) => *v as u32,
            Identifier::Extended(v) => *v,
        }
    }

    /// Whether this is an extended (29-bit) identifier.
    pub fn is_extended(&self) -> (r: bool)
        ensures
            r == (self matches Identifier::Extended(_)),
    {
        match self {
            Identifier::Standard(_) => false,
            Identifier::Extended(_) => true,
        }
    }
}

/// A receive filter in the bus convention: a frame with identifier `id`
/// passes when `id & mask == filter.id & mask`.
#[derive(Clone, Copy, Debug, PartialEq, Eq, Structural)]
pub struct CanFilter {
    pub id: u32,
    pub mask: u32,
}

/// Whether a received identifier passes the filter.
pub open spec fn filter_matches(f: CanFilter, id: u32) -> bool {
    id & f.mask == f.id & f.mask
}

/// The session-wide choice of identifier space.
#[derive(Clone, Copy, Debug, PartialEq, Eq, Structural)]
pub enum Addressing {
    Standard,
    Extended,
}

/// The mode's fixed broadcast request identifier.
pub open spec fn spec_broadcast_address(mode: Addressing) -> Identifier {
    match mode {
        Addressing::Standard => Identifier::Standard(OBD_BROADCAST_STANDARD),
        Addressing::Extended => Identifier::Extended(OBD_BROADCAST_EXTENDED),
    }
}

/// The mode's receive filters for response traffic: a fixed set whose
/// union accepts exactly the response range. Standard mode needs one mask;
/// the extended range is not mask-alignable as one pair, so it is covered
/// by four.
pub open spec fn spec_response_filters(mode: Addressing) -> Seq<CanFilter> {
    match mode {
        Addressing::Standard => seq![CanFilter { id: 0x7E8, mask: 0x7F8 }],
        Addressing::Extended => seq![
            CanFilter { id: 0x18DAF101, mask: 0x1FFF_FFFF },
            CanFilter { id: 0x18DAF102, mask: 0x1FFF_FFFE },
            CanFilter { id: 0x18DAF104, mask: 0x1FFF_FFFC },
            CanFilter { id: 0x18DAF108, mask: 0x1FFF_FFFF },
        ],
    }
}

/// Whether a received identifier passes at least one filter of the set.
pub open spec fn filters_match(filters: Seq<CanFilter>, id: u32) -> bool {
    exists|i: int| 0 <= i < filters.len() && #[trigger] filter_matches(filters[i], id)
}

/// One past the largest raw value of the mode's identifier space.
pub open spec fn spec_id_space(mode: Addressing) -> u32 {
    match mode {
        Addressing::Standard => 0x800,
        Addressing::Extended => 0x2000_0000,
    }
}

/// What `get_diagnostic_response_id` returns: the identifier, tagged with
/// the mode's kind, when the raw value lies in the response range.
pub open spec fn spec_diagnostic_response_id(mode: Addressing, id: u32) -> Option<Identifier> {
    if in_response_range(mode, id) {
        match mode {
            Addressing::Standard => Some(Identifier::Standard(id as u16)),
            Addressing::Extended => Some(Identifier::Extended(id)),
        }
    } else {
        None
    }
}

/// Swap the low two bytes of a 32-bit value, leaving the high 16 bits
/// unchanged. This is the extended-mode translation between request and
/// response identifiers; it is its own inverse.
pub open spec fn spec_swap_low_bytes(id: u32) -> u32 {
    (id & 0xFFFF_0000) | ((id & 0xFF) << 8) | ((id >> 8) & 0xFF)
}

/// Whether `id` lies in the mode's reserved response identifier range.
pub open spec fn in_response_range(mode: Addressing, id: u32) -> bool {
    match mode {
        Addressing::Standard => 0x7E8 <= id <= 0x7EF,
        Addressing::Extended => 0x18DAF101 <= id <= 0x18DAF108,
    }
}

/// Whether `id` lies in the mode's request identifier range: the image of
/// the response range under the mode's translation.
pub open spec fn in_request_range(mode: Addressing, id: u32) -> bool {
    match mode {
        Addressing::Standard => 0x7E0 <= id <= 0x7E7,
        Addressing::Extended => in_response_range(mode, spec_swap_low_bytes(id)),
    }
}

/// What `response_to_request` returns: the request identifier for a response
/// identifier in range, nothing for any other identifier.
pub open spec fn spec_response_to_request(mode: Addressing, id: Identifier) -> Option<Identifier> {
    match (mode, id) {
        (Addressing::Standard, Identifier::Standard(v)) => if in_response_range(
            mode,
            v as u32,
        ) {
            Some(Identifier::Standard((v - 8) as u16))
        } else {
            None
        },
        (Addressing::Extended, Identifier::Extended(v)) => if in_response_range(mode, v) {
            Some(Identifier::Extended(spec_swap_low_bytes(v)))
        } else {
            None
        },
        _ => None,
    }
}

/// What `request_to_response` returns: the response identifier for a request
/// identifier in range, nothing for any other identifier.
pub open spec fn spec_request_to_response(mode: Addressing, id: Identifier) -> Option<Identifier> {
    match (mode, id) {
        (Addressing::Standard, Identifier::Standard(v)) => if in_request_range(
            mode,
            v as u32,
        ) {
            Some(Identifier::Standard((v + 8) as u16))
        } else {
            None
        },
        (Addressing::Extended, Identifier::Extended(v)) => if in_request_range(mode, v) {
            Some(Identifier::Extended(spec_swap_low_bytes(v)))
        } else {
            None
        },
        _ => None,
    }
}

/// Exec counterpart of `spec_swap_low_bytes`.
fn swap_low_bytes(id: u32) -> (r: u32)
    ensures
        r == spec_swap_low_bytes(id),
{
    (id & 0xFFFF_0000) | ((id & 0xFF) << 8) | ((id >> 8) & 0xFF)
}

impl Addressing {
    /// The mode's fixed broadcast request identifier.
    pub fn obd_broadcast_address(&self) -> (r: Identifier)
        ensures
            r == spec_broadcast_address(*self),
            r.wf(),
    {
        match self {
            Addressing::Standard => Identifier::Standard(OBD_BROADCAST_STANDARD),
            Addressing::Extended => Identifier::Extended(OBD_BROADCAST_EXTENDED),
        }
    }

    /// The receive filters for the mode's response traffic. Their union
    /// accepts an identifier of the mode's space exactly when it lies in
    /// the response range, so installing them on the raw transport discards
    /// all other traffic at the socket level.
    pub fn obd_response_address_filter(&self) -> (r: Vec<CanFilter>)
        ensures
            r@ == spec_response_filters(*self),
            forall|id: u32| in_response_range(*self, id) ==> #[trigger] filters_match(r@, id),
            forall|id: u32|
                id < spec_id_space(*self) ==> (#[trigger] filters_match(r@, id)
                    <==> in_response_range(*self, id)),
    {
        match self {
            Addressing::Standard => {
                let r = vec![CanFilter { id: 0x7E8, mask: 0x7F8 }];
                proof {
                    assert(r@ =~= spec_response_filters(*self));
                    lemma_standard_filters_exact();
                }
                r
            },
            Addressing::Extended => {
                let r = vec![
                    CanFilter { id: 0x18DAF101, mask: 0x1FFF_FFFF },
                    CanFilter { id: 0x18DAF102, mask: 0x1FFF_FFFE },
                    CanFilter { id: 0x18DAF104, mask: 0x1FFF_FFFC },
                    CanFilter { id: 0x18DAF108, mask: 0x1FFF_FFFF },
                ];
                proof {
                    assert(r@ =~= spec_response_filters(*self));
                    lemma_extended_filters_exact();
                }
                r
            },
        }
    }

    /// Check whether a raw identifier observed on the bus is one of the
    /// mode's diagnostic response addresses, and tag it with its kind.
    /// Returns nothing for an identifier outside the range: such traffic is
    /// irrelevant, not malformed.
    pub fn get_diagnostic_response_id(&self, id: u32) -> (r: Option<Identifier>)
        ensures
            r == spec_diagnostic_response_id(*self, id),
            r is Some <==> in_response_range(*self, id),
            r is Some ==> r->0.wf() && r->0.spec_raw() == id,
    {
        match self {
            Addressing::Standard => if 0x7E8 <= id && id <= 0x7EF {
                Some(Identifier::Standard(id as u16))
            } else {
                None
            },
            Addressing::Extended => if 0x18DAF101 <= id && id <= 0x18DAF108 {
                Some(Identifier::Extended(id))
            } else {
                None
            },
        }
    }

    /// Translate a response identifier to the matching request identifier:
    /// standard mode subtracts eight, extended mode swaps the low two bytes.
    /// Returns nothing for an identifier outside the mode's response range.
    pub fn response_to_request(&self, id: Identifier) -> (r: Option<Identifier>)
        ensures
            r == spec_response_to_request(*self, id),
            id.wf() && r is Some ==> r->0.wf(),
    {
        proof {
            lemma_swap_low_bytes_preserves_width();
        }
        match (self, id) {
            (Addressing::Standard, Identifier::Standard(v)) => if 0x7E8 <= v && v <= 0x7EF {
                Some(Identifier::Standard(v - 8))
            } else {
                None
            },
            (Addressing::Extended, Identifier::Extended(v)) => if 0x18DAF101 <= v && v
                <= 0x18DAF108 {
                Some(Identifier::Extended(swap_low_bytes(v)))
            } else {
                None
            },
            _ => None,
        }
    }

    /// Translate a request identifier to the matching response identifier:
    /// standard mode adds eight, extended mode applies the same self-inverse
    /// byte swap. Returns nothing for an identifier outside the mode's
    /// request range.
    pub fn request_to_response(&self, id: Identifier) -> (r: Option<Identifier>)
        ensures
            r == spec_request_to_response(*self, id),
            id.wf() && r is Some ==> r->0.wf(),
    {
        proof {
            lemma_swap_low_bytes_preserves_width();
        }
        match (self, id) {
            (Addressing::Standard, Identifier::Standard(v)) => if 0x7E0 <= v && v <= 0x7E7 {
                Some(Identifier::Standard(v + 8))
            } else {
                None
            },
            (Addressing::Extended, Identifier::Extended(v)) => {
                let swapped = swap_low_bytes(v);
                if 0x18DAF101 <= swapped && swapped <= 0x18DAF108 {
                    Some(Identifier::Extended(swapped))
                } else {
                    None
                }
            },
            _ => None,
        }
    }
}

/// The standard-mode filter set accepts an 11-bit identifier exactly when
/// it lies in the response range.
proof fn lemma_standard_filters_exact()
    ensures
        forall|id: u32|
            in_response_range(Addressing::Standard, id) ==> #[trigger] filters_match(
                spec_response_filters(Addressing::Standard),
                id,
            ),
        forall|id: u32|
            id < 0x800 ==> (#[trigger] filters_match(spec_response_filters(Addressing::Standard), id)
                <==> in_response_range(Addressing::Standard, id)),
{
    let fs = spec_response_filters(Addressing::Standard);
    assert forall|id: u32| in_response_range(Addressing::Standard, id) implies #[trigger] filters_match(
        fs,
        id,
    ) by {
        assert((id & 0x7F8) == (0x7E8u32 & 0x7F8)) by (bit_vector)
            requires
                0x7E8 <= id <= 0x7EF,
        ;
        assert(filter_matches(fs[0], id));
    }
    assert forall|id: u32| id < 0x800 && #[trigger] filters_match(fs, id) implies in_response_range(
        Addressing::Standard,
        id,
    ) by {
        let i = choose|i: int| 0 <= i < fs.len() && #[trigger] filter_matches(fs[i], id);
        assert(i == 0);
        assert(id < 0x800 && (id & 0x7F8) == (0x7E8u32 & 0x7F8) ==> 0x7E8 <= id <= 0x7EF)
            by (bit_vector);
    }
}

/// The four extended-mode filters together accept a 29-bit identifier
/// exactly when it lies in the response range.
proof fn lemma_extended_filters_exact()
    ensures
        forall|id: u32|
            in_response_range(Addressing::Extended, id) ==> #[trigger] filters_match(
                spec_response_filters(Addressing::Extended),
                id,
            ),
        forall|id: u32|
            id < 0x2000_0000 ==> (#[trigger] filters_match(
                spec_response_filters(Addressing::Extended),
                id,
            ) <==> in_response_range(Addressing::Extended, id)),
{
    let fs = spec_response_filters(Addressing::Extended);
    assert forall|id: u32| in_response_range(Addressing::Extended, id) implies #[trigger] filters_match(
        fs,
        id,
    ) by {
        if id == 0x18DAF101 {
            assert((id & 0x1FFF_FFFF) == (0x18DAF101u32 & 0x1FFF_FFFF)) by (bit_vector)
                requires
                    id == 0x18DAF101,
            ;
            assert(filter_matches(fs[0], id));
        } else if id <= 0x18DAF103 {
            assert((id & 0x1FFF_FFFE) == (0x18DAF102u32 & 0x1FFF_FFFE)) by (bit_vector)
                requires
                    0x18DAF102 <= id <= 0x18DAF103,
            ;
            assert(filter_matches(fs[1], id));
        } else if id <= 0x18DAF107 {
            assert((id & 0x1FFF_FFFC) == (0x18DAF104u32 & 0x1FFF_FFFC)) by (bit_vector)
                requires
                    0x18DAF104 <= id <= 0x18DAF107,
            ;
            assert(filter_matches(fs[2], id));
        } else {
            assert((id & 0x1FFF_FFFF) == (0x18DAF108u32 & 0x1FFF_FFFF)) by (bit_vector)
                requires
                    id == 0x18DAF108,
            ;
            assert(filter_matches(fs[3], id));
        }
    }
    assert forall|id: u32|
        id < 0x2000_0000 && #[trigger] filters_match(fs, id) implies in_response_range(
        Addressing::Extended,
        id,
    ) by {
        let i = choose|i: int| 0 <= i < fs.len() && #[trigger] filter_matches(fs[i], id);
        if i == 0 {
            assert(id < 0x2000_0000 && (id & 0x1FFF_FFFF) == (0x18DAF101u32 & 0x1FFF_FFFF)
                ==> 0x18DAF101 <= id <= 0x18DAF108) by (bit_vector);
        } else if i == 1 {
            assert(id < 0x2000_0000 && (id & 0x1FFF_FFFE) == (0x18DAF102u32 & 0x1FFF_FFFE)
                ==> 0x18DAF101 <= id <= 0x18DAF108) by (bit_vector);
        } else if i == 2 {
            assert(id < 0x2000_0000 && (id & 0x1FFF_FFFC) == (0x18DAF104u32 & 0x1FFF_FFFC)
                ==> 0x18DAF101 <= id <= 0x18DAF108) by (bit_vector);
        } else {
            assert(i == 3);
            assert(id < 0x2000_0000 && (id & 0x1FFF_FFFF) == (0x18DAF108u32 & 0x1FFF_FFFF)
                ==> 0x18DAF101 <= id <= 0x18DAF108) by (bit_vector);
        }
    }
}

/// The byte swap is its own inverse.
pub proof fn lemma_swap_low_bytes_involutive()
    ensures
        forall|id: u32| #[trigger] spec_swap_low_bytes(spec_swap_low_bytes(id)) == id,
{
    assert forall|id: u32| #[trigger] spec_swap_low_bytes(spec_swap_low_bytes(id)) == id by {
        let s = spec_swap_low_bytes(id);
        assert(s == (id & 0xFFFF_0000) | ((id & 0xFF) << 8) | ((id >> 8) & 0xFF) ==> (s
            & 0xFFFF_0000) | ((s & 0xFF) << 8) | ((s >> 8) & 0xFF) == id) by (bit_vector);
    }
}

/// The byte swap keeps a 29-bit value within 29 bits.
pub proof fn lemma_swap_low_bytes_preserves_width()
    ensures
        forall|id: u32|
            id < 0x2000_0000 ==> #[trigger] spec_swap_low_bytes(id) < 0x2000_0000,
{
    assert forall|id: u32| id < 0x2000_0000 implies #[trigger] spec_swap_low_bytes(id)
        < 0x2000_0000 by {
        assert(id < 0x2000_0000 ==> (id & 0xFFFF_0000) | ((id & 0xFF) << 8) | ((id >> 8) & 0xFF)
            < 0x2000_0000) by (bit_vector);
    }
}

/// Address-translation round trip: translating a response identifier to its
/// request identifier and back yields the original identifier, and likewise
/// starting from a request identifier, in both addressing modes.
pub proof fn lemma_address_round_trip(mode: Addressing, id: Identifier)
    requires
        id.wf(),
    ensures
        match spec_response_to_request(mode, id) {
            Some(req) => spec_request_to_response(mode, req) == Some(id),
            None => true,
        },
        match spec_request_to_response(mode, id) {
            Some(resp) => spec_response_to_request(mode, resp) == Some(id),
            None => true,
        },
{
    lemma_swap_low_bytes_involutive();
    match (mode, id) {
        (Addressing::Extended, Identifier::Extended(v)) => {
            if in_response_range(mode, v) {
                let s = spec_swap_low_bytes(v);
                assert(spec_swap_low_bytes(s) == v);
            }
        },
        _ => {},
    }
}

/// Address translation is a pure function of the mode and the identifier:
/// two results that both satisfy the translation contract are equal.
pub proof fn lemma_translation_deterministic(
    mode: Addressing,
    id: Identifier,
    r1: Option<Identifier>,
    r2: Option<Identifier>,
)
    requires
        r1 == spec_response_to_request(mode, id),
        r2 == spec_response_to_request(mode, id),
    ensures
        r1 == r2,
{
}

} // verus!
