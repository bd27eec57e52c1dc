//! The "current data" diagnostic service: request framing and response
//! validation for the available-PID query, and the service handle that owns
//! a session's bus parameters.

use vstd::prelude::*;

use crate::config::CANParameters;
use crate::errors::{FieldIdentifier, FieldValue, InvalidResponse, InvalidResponseKind};

verus! {

/// Service identifier of the "current data" service.
pub const CURRENT_DATA_SERVICE_ID: u8 = 0x01;

/// Expected first byte of a success response: the request service
/// identifier plus 0x40.
pub const CURRENT_DATA_RESPONSE_ID: u8 = 0x41;

/// Length of a valid available-PID response on the segmented transport.
pub const AVAILABLE_PID_RESPONSE_LEN: usize = 6;

/// Whether an inbound message is a valid response to a query for the given
/// offset: exactly six bytes, the response service identifier first, then
/// an echo of the offset.
pub open spec fn valid_response(query_pid: u8, data: Seq<u8>) -> bool {
    data.len() == AVAILABLE_PID_RESPONSE_LEN && data[0] == CURRENT_DATA_RESPONSE_ID && data[1]
        == query_pid
}

/// One available-PID query, parameterised by the offset it asks about.
#[derive(Clone, Copy, Debug, PartialEq, Eq, Structural)]
pub struct AvailablePidRequest {
    pub query_pid: u8,
}

impl AvailablePidRequest {
    /// A query for the given offset.
    pub fn from_query_pid(query_pid: u8) -> (r: AvailablePidRequest)
        ensures
            r.query_pid == query_pid,
    {
        AvailablePidRequest { query_pid }
    }

    /// The outbound message on the segmented transport: service identifier,
    /// then the queried offset.
    pub fn payload(&self) -> (r: [u8; 2])
        ensures
            r@ =~= seq![CURRENT_DATA_SERVICE_ID, self.query_pid],
    {
        [CURRENT_DATA_SERVICE_ID, self.query_pid]
    }

    /// The outbound message for the raw, unsegmented broadcast variant: the
    /// same two bytes preceded by an explicit length byte, because no
    /// segmentation layer adds one.
    pub fn payload_with_length_byte(&self) -> (r: [u8; 3])
        ensures
            r@ =~= seq![2u8, CURRENT_DATA_SERVICE_ID, self.query_pid],
    {
        [2, CURRENT_DATA_SERVICE_ID, self.query_pid]
    }

    /// Validate an inbound message against this query. A valid response is
    /// exactly six bytes: the response service identifier, an echo of the
    /// queried offset, and the 4-byte bitmap. Anything else is rejected,
    /// naming the offending field and both actual and expected values:
    /// first a wrong length, then a wrong service identifier, then a wrong
    /// offset echo at byte position 1.
    pub fn parse_response(&self, data: &[u8]) -> (r: Result<
        AvailablePidResponse,
        InvalidResponse,
    >)
        ensures
            r is Ok <==> valid_response(self.query_pid, data@),
            data@.len() != AVAILABLE_PID_RESPONSE_LEN ==> r == Err::<
                AvailablePidResponse,
                _,
            >(
                InvalidResponse(
                    InvalidResponseKind::PayloadSize {
                        actual: data@.len() as usize,
                        expected: AVAILABLE_PID_RESPONSE_LEN,
                    },
                ),
            ),
            data@.len() == AVAILABLE_PID_RESPONSE_LEN && data@[0] != CURRENT_DATA_RESPONSE_ID
                ==> r == Err::<AvailablePidResponse, _>(
                InvalidResponse(
                    InvalidResponseKind::ServiceId {
                        actual: data@[0],
                        expected: CURRENT_DATA_RESPONSE_ID,
                    },
                ),
            ),
            data@.len() == AVAILABLE_PID_RESPONSE_LEN && data@[0] == CURRENT_DATA_RESPONSE_ID
                && data@[1] != self.query_pid ==> r == Err::<AvailablePidResponse, _>(
                InvalidResponse(
                    InvalidResponseKind::FieldValue {
                        field_id: FieldIdentifier::Position(1),
                        actual: FieldValue::Byte(data@[1]),
                        expected: FieldValue::Byte(self.query_pid),
                    },
                ),
            ),
            r matches Ok(resp) ==> resp.offset == self.query_pid && resp.data@ == data@.subrange(
                2,
                6,
            ),
    {
        if data.len() != AVAILABLE_PID_RESPONSE_LEN {
            return Err(
                InvalidResponse(
                    InvalidResponseKind::PayloadSize {
                        actual: data.len(),
                        expected: AVAILABLE_PID_RESPONSE_LEN,
                    },
                ),
            );
        }
        if data[0] != CURRENT_DATA_RESPONSE_ID {
            return Err(
                InvalidResponse(
                    InvalidResponseKind::ServiceId {
                        actual: data[0],
                        expected: CURRENT_DATA_RESPONSE_ID,
                    },
                ),
            );
        }
        if data[1] != self.query_pid {
            return Err(
                InvalidResponse(
                    InvalidResponseKind::FieldValue {
                        field_id: FieldIdentifier::Position(1),
                        actual: FieldValue::Byte(data[1]),
                        expected: FieldValue::Byte(self.query_pid),
                    },
                ),
            );
        }
        let resp = AvailablePidResponse {
            offset: self.query_pid,
            data: [data[2], data[3], data[4], data[5]],
        };
        proof {
            assert(resp.data@ =~= data@.subrange(2, 6));
        }
        Ok(resp)
    }
}

/// A validated available-PID response: the echoed offset and the 4-byte
/// support bitmap.
#[derive(Clone, Copy, Debug, PartialEq, Eq)]
pub struct AvailablePidResponse {
    pub data: [u8; 4],
    pub offset: u8,
}

impl AvailablePidResponse {
    /// The offset this response answers.
    pub fn offset(&self) -> (r: u8)
        ensures
            r == self.offset,
    {
        self.offset
    }

    /// The support bitmap.
    pub fn data(&self) -> (r: [u8; 4])
        ensures
            r@ == self.data@,
    {
        self.data
    }
}

/// Handle on the "current data" service for one session.
pub struct CurrentDataService {
    pub can_parameters: CANParameters,
}

impl CurrentDataService {
    /// A service handle over the session's bus parameters.
    pub fn new(can_parameters: CANParameters) -> (r: CurrentDataService)
        ensures
            r.can_parameters == can_parameters,
    {
        CurrentDataService { can_parameters }
    }
}

} // verus!
