//! The discovery orchestrator: the decision core of the two-phase
//! enumeration run.
//!
//! Phase one broadcasts an offset-0 query on a raw socket filtered to the
//! mode's response range and collects the distinct identifiers that answer
//! within the listening window. Phase two visits each responder in turn:
//! its response identifier is translated to the request identifier, one
//! segmented channel is opened (source = response, destination = request),
//! and the decoder's offset loop is driven to completion.
//!
//! The session is a state machine. Every step consumes one observed event
//! and returns the next action for the I/O layer to perform; all socket
//! work happens outside. Any transport or validation failure aborts the
//! whole run with the first error; there is no partial-results mode.

use vstd::prelude::*;

use crate::addressing::{
    in_response_range, spec_diagnostic_response_id, spec_response_filters,
    spec_response_to_request,
    spec_broadcast_address, Identifier,
};
use crate::config::CANParameters;
use crate::decoder::{spec_continuation, spec_decoded_pids, AvailablePidDecoder};
use crate::errors::{
    FieldIdentifier, FieldValue, InvalidResponse, InvalidResponseKind, QueryError,
    SocketBuildError, SocketError,
};
use crate::frame::Frame;
use crate::service::{
    valid_response, AvailablePidRequest, CurrentDataService, AVAILABLE_PID_RESPONSE_LEN,
    CURRENT_DATA_RESPONSE_ID, CURRENT_DATA_SERVICE_ID,
};
use crate::sockets::{ISOTPSocketBuilder, IsoTpSocketConfig, RawSocketBuilder, RawSocketConfig};

verus! {

/// Where the session stands.
#[derive(Clone, Copy, Debug, PartialEq, Eq, Structural)]
pub enum DiscoveryPhase {
    /// The raw broadcast socket is being opened.
    OpeningRawSocket,
    /// The broadcast frame is being sent.
    SendingBroadcast,
    /// The listening window is open; responses are being collected.
    Listening,
    /// A segmented channel to the current responder is being opened.
    OpeningChannel,
    /// A query for the pending offset is being sent.
    SendingQuery,
    /// The reply for the pending offset is awaited.
    AwaitingReply,
    /// Every responder has been enumerated; the results are ready.
    Complete,
    /// The run aborted with its first error.
    Failed,
}

/// What the I/O layer must do next.
#[derive(Debug)]
pub enum DiscoveryAction {
    /// Open the raw broadcast socket from this configuration.
    OpenRawSocket(RawSocketConfig),
    /// Send this frame on the raw socket.
    SendBroadcast(Frame),
    /// Read one frame from the raw socket, racing the listening window.
    AwaitFrame,
    /// Open a segmented channel from this configuration.
    OpenChannel(IsoTpSocketConfig),
    /// Send this message on the segmented channel.
    SendQuery(Vec<u8>),
    /// Read one message from the segmented channel.
    AwaitReply,
    /// The run is complete; take the results.
    Finished,
    /// The run failed; take the error.
    Aborted,
}

/// What the I/O layer observed.
#[derive(Debug)]
pub enum DiscoveryEvent {
    /// The raw socket opened.
    RawSocketOpened,
    /// The raw socket could not be opened.
    RawSocketFailed(SocketBuildError),
    /// The broadcast frame went out.
    BroadcastSent,
    /// Sending the broadcast failed.
    BroadcastSendFailed(SocketError),
    /// A frame with this identifier arrived within the window.
    FrameReceived(u32),
    /// Reading from the raw socket failed.
    FrameReadFailed(SocketError),
    /// The listening window elapsed.
    WindowElapsed,
    /// The segmented channel opened.
    ChannelOpened,
    /// The segmented channel could not be opened.
    ChannelOpenFailed(SocketBuildError),
    /// The query message went out.
    QuerySent,
    /// Sending the query failed.
    QuerySendFailed(SocketError),
    /// A reply arrived on the segmented channel.
    ReplyReceived(Vec<u8>),
    /// Reading the reply failed (an I/O error or the configured timeout).
    ReplyReadFailed(SocketError),
}

/// Which events a phase can consume.
pub open spec fn accepts(phase: DiscoveryPhase, event: DiscoveryEvent) -> bool {
    match (phase, event) {
        (DiscoveryPhase::OpeningRawSocket, DiscoveryEvent::RawSocketOpened) => true,
        (DiscoveryPhase::OpeningRawSocket, DiscoveryEvent::RawSocketFailed(_)) => true,
        (DiscoveryPhase::SendingBroadcast, DiscoveryEvent::BroadcastSent) => true,
        (DiscoveryPhase::SendingBroadcast, DiscoveryEvent::BroadcastSendFailed(_)) => true,
        (DiscoveryPhase::Listening, DiscoveryEvent::FrameReceived(_)) => true,
        (DiscoveryPhase::Listening, DiscoveryEvent::FrameReadFailed(_)) => true,
        (DiscoveryPhase::Listening, DiscoveryEvent::WindowElapsed) => true,
        (DiscoveryPhase::OpeningChannel, DiscoveryEvent::ChannelOpened) => true,
        (DiscoveryPhase::OpeningChannel, DiscoveryEvent::ChannelOpenFailed(_)) => true,
        (DiscoveryPhase::SendingQuery, DiscoveryEvent::QuerySent) => true,
        (DiscoveryPhase::SendingQuery, DiscoveryEvent::QuerySendFailed(_)) => true,
        (DiscoveryPhase::AwaitingReply, DiscoveryEvent::ReplyReceived(_)) => true,
        (DiscoveryPhase::AwaitingReply, DiscoveryEvent::ReplyReadFailed(_)) => true,
        _ => false,
    }
}

/// Whether some collected identifier already has this raw value.
pub open spec fn seq_contains_raw(ids: Seq<Identifier>, raw: u32) -> bool {
    exists|i: int| 0 <= i < ids.len() && #[trigger] ids[i].spec_raw() == raw
}

/// The collected responder identifiers are well-formed: each is in the
/// mode's response range with the mode's kind, and no raw value repeats.
pub open spec fn ids_wf(mode: crate::addressing::Addressing, ids: Seq<Identifier>) -> bool {
    &&& forall|i: int|
        0 <= i < ids.len() ==> (#[trigger] ids[i]) == spec_diagnostic_response_id(
            mode,
            ids[i].spec_raw(),
        )->0 && in_response_range(mode, ids[i].spec_raw())
    &&& forall|i: int, j: int|
        0 <= i < j < ids.len() ==> #[trigger] ids[i].spec_raw() != #[trigger] ids[j].spec_raw()
}

/// The open configuration phase two uses for one responder: the session's
/// device and timeouts, the responder's identifier as source, and its
/// translation as destination.
pub open spec fn channel_config_matches(
    params: CANParameters,
    response_id: Identifier,
    cfg: IsoTpSocketConfig,
) -> bool {
    &&& cfg.socket_name@ == params.socket_name@
    &&& cfg.source_id == response_id
    &&& Some(cfg.destination_id) == spec_response_to_request(params.addressing, response_id)
    &&& cfg.tx_padding == (if params.disable_isotp_frame_padding {
        None::<u8>
    } else {
        Some(params.tx_frame_padding)
    })
    &&& cfg.read_timeout_ms == params.read_timeout_ms
    &&& cfg.write_timeout_ms == params.write_timeout_ms
}

/// The open configuration phase one uses for the broadcast socket: the
/// session's device and timeouts, filtered to the mode's response range.
pub open spec fn raw_config_matches(params: CANParameters, cfg: RawSocketConfig) -> bool {
    &&& cfg.socket_name@ == params.socket_name@
    &&& cfg.filter is Some
    &&& cfg.filter->0@ == spec_response_filters(params.addressing)
    &&& cfg.read_timeout_ms == params.read_timeout_ms
    &&& cfg.write_timeout_ms == params.write_timeout_ms
}

/// Whether a reply would drive the decoder past the last offset of the
/// one-byte PID space: a valid reply for offset 224 whose continuation
/// flag is still set. The protocol never sends one; the caller must not
/// feed one in.
pub open spec fn spec_reply_overflows(pending: u8, bytes: Seq<u8>) -> bool {
    pending == 224 && valid_response(pending, bytes) && spec_continuation(bytes.subrange(2, 6))
}

/// One discovery run's state.
pub struct DiscoverySession {
    pub params: CANParameters,
    pub phase: DiscoveryPhase,
    pub response_ids: Vec<Identifier>,
    pub current_ecu: usize,
    pub decoder: AvailablePidDecoder,
    pub pending_query: u8,
    pub results: Vec<(Identifier, Vec<u8>)>,
    pub failure: Option<QueryError>,
}

impl DiscoverySession {
    /// The session invariant: collected identifiers are well-formed and
    /// distinct, indices stay in bounds, each finished responder's result
    /// is keyed by its identifier in collection order, and in the query
    /// phases the decoder awaits exactly the pending offset.
    pub open spec fn wf(self) -> bool {
        let mode = self.params.addressing;
        let n = self.response_ids@.len();
        &&& ids_wf(mode, self.response_ids@)
        &&& self.current_ecu <= n
        &&& self.results@.len() <= n
        &&& forall|i: int|
            0 <= i < self.results@.len() ==> (#[trigger] self.results@[i]).0
                == self.response_ids@[i]
        &&& match self.phase {
            DiscoveryPhase::OpeningRawSocket => self.current_ecu == 0 && self.results@.len() == 0,
            DiscoveryPhase::SendingBroadcast => self.current_ecu == 0 && self.results@.len() == 0,
            DiscoveryPhase::Listening => self.current_ecu == 0 && self.results@.len() == 0,
            DiscoveryPhase::OpeningChannel => self.current_ecu < n && self.results@.len()
                == self.current_ecu,
            DiscoveryPhase::SendingQuery => self.current_ecu < n && self.results@.len()
                == self.current_ecu && self.decoder.wf() && self.decoder.next_query_pid == Some(
                self.pending_query,
            ),
            DiscoveryPhase::AwaitingReply => self.current_ecu < n && self.results@.len()
                == self.current_ecu && self.decoder.wf() && self.decoder.next_query_pid == Some(
                self.pending_query,
            ),
            DiscoveryPhase::Complete => self.current_ecu == n && self.results@.len() == n,
            DiscoveryPhase::Failed => self.failure is Some,
        }
    }

    /// A fresh session over the given bus parameters, about to open the
    /// broadcast socket.
    pub fn new(params: CANParameters) -> (r: DiscoverySession)
        ensures
            r.params == params,
            r.phase == DiscoveryPhase::OpeningRawSocket,
            r.response_ids@.len() == 0,
            r.results@.len() == 0,
            r.wf(),
    {
        DiscoverySession {
            params,
            phase: DiscoveryPhase::OpeningRawSocket,
            response_ids: Vec::new(),
            current_ecu: 0,
            decoder: AvailablePidDecoder::new(),
            pending_query: 0,
            results: Vec::new(),
            failure: None,
        }
    }

    /// The first action of a fresh session: open the filtered broadcast
    /// socket.
    pub fn initial_action(&self) -> (r: DiscoveryAction)
        requires
            self.phase == DiscoveryPhase::OpeningRawSocket,
        ensures
            r matches DiscoveryAction::OpenRawSocket(cfg) && raw_config_matches(self.params, cfg),
    {
        let cfg = match RawSocketBuilder::default().can_parameters(
            self.params.clone(),
        ).source_id_filter(self.params.addressing.obd_response_address_filter()).build() {
            Ok(cfg) => cfg,
            Err(_) => unreached(),
        };
        DiscoveryAction::OpenRawSocket(cfg)
    }

    /// Consume one observed event and decide the next action.
    ///
    /// Phase one: a received frame's identifier is recorded once (the
    /// installed filter makes it a response identifier; one that is not is
    /// an invariant violation the caller must refuse); the window elapsing
    /// moves to phase two, or completes with no results if nothing
    /// answered. Phase two: each valid reply is folded into the decoder and
    /// either the next offset is queried or the responder's PID list is
    /// recorded and the next responder opened. The first build, transport
    /// or validation failure aborts the whole run with that error.
    pub fn step(&mut self, event: DiscoveryEvent) -> (r: DiscoveryAction)
        requires
            old(self).wf(),
            accepts(old(self).phase, event),
            event matches DiscoveryEvent::FrameReceived(raw) ==> in_response_range(
                old(self).params.addressing,
                raw,
            ),
            event matches DiscoveryEvent::ReplyReceived(bytes) ==> !spec_reply_overflows(
                old(self).pending_query,
                bytes@,
            ),
        ensures
            final(self).wf(),
            final(self).params == old(self).params,
            // Opening the raw socket.
            old(self).phase == DiscoveryPhase::OpeningRawSocket ==> (event
                == DiscoveryEvent::RawSocketOpened ==> (final(self).phase
                == DiscoveryPhase::SendingBroadcast && final(self).response_ids == old(
                self,
            ).response_ids && final(self).results == old(self).results && final(self).current_ecu
                == old(self).current_ecu && (r matches DiscoveryAction::SendBroadcast(
                frame,
            ) && frame.id == spec_broadcast_address(old(self).params.addressing)
                && frame.payload@ == seq![2u8, CURRENT_DATA_SERVICE_ID, 0u8]))),
            old(self).phase == DiscoveryPhase::OpeningRawSocket ==> (event matches
                DiscoveryEvent::RawSocketFailed(e) ==> (final(self).phase
                == DiscoveryPhase::Failed && final(self).failure == Some(
                QueryError::Initialization(e),
            ) && r is Aborted)),
            // Sending the broadcast.
            old(self).phase == DiscoveryPhase::SendingBroadcast ==> (event
                == DiscoveryEvent::BroadcastSent ==> (final(self).phase
                == DiscoveryPhase::Listening && final(self).response_ids == old(
                self,
            ).response_ids && final(self).results == old(self).results && final(self).current_ecu
                == old(self).current_ecu && r is AwaitFrame)),
            old(self).phase == DiscoveryPhase::SendingBroadcast ==> (event matches
                DiscoveryEvent::BroadcastSendFailed(e) ==> (final(self).phase
                == DiscoveryPhase::Failed && final(self).failure == Some(QueryError::Io(e))
                && r is Aborted)),
            // Listening inside the window.
            old(self).phase == DiscoveryPhase::Listening ==> (event matches
                DiscoveryEvent::FrameReceived(raw) ==> (final(self).phase
                == DiscoveryPhase::Listening && r is AwaitFrame && final(self).response_ids@ == (
            if seq_contains_raw(old(self).response_ids@, raw) {
                old(self).response_ids@
            } else {
                old(self).response_ids@.push(
                    spec_diagnostic_response_id(old(self).params.addressing, raw)->0,
                )
            }))),
            old(self).phase == DiscoveryPhase::Listening ==> (event matches
                DiscoveryEvent::FrameReadFailed(e) ==> (final(self).phase
                == DiscoveryPhase::Failed && final(self).failure == Some(QueryError::Io(e))
                && r is Aborted)),
            old(self).phase == DiscoveryPhase::Listening ==> (event
                == DiscoveryEvent::WindowElapsed ==> (final(self).response_ids == old(self).response_ids && (if old(self).response_ids@.len() == 0 {
                final(self).phase == DiscoveryPhase::Complete && final(self).results@.len() == 0
                    && r is Finished
            } else {
                final(self).phase == DiscoveryPhase::OpeningChannel && final(self).current_ecu == 0
                    && (r matches DiscoveryAction::OpenChannel(cfg) && channel_config_matches(
                    old(self).params,
                    old(self).response_ids@[0],
                    cfg,
                ))
            }))),
            // Opening one responder's channel.
            old(self).phase == DiscoveryPhase::OpeningChannel ==> (event
                == DiscoveryEvent::ChannelOpened ==> (final(self).phase
                == DiscoveryPhase::SendingQuery && final(self).pending_query == 0
                && final(self).decoder.pids@.len() == 0 && final(self).decoder.next_query_pid
                == Some(0u8) && final(self).current_ecu == old(self).current_ecu && final(self).response_ids == old(self).response_ids && final(self).results == old(self).results
                && (r matches DiscoveryAction::SendQuery(p) && p@ == seq![
                CURRENT_DATA_SERVICE_ID,
                0u8,
            ]))),
            old(self).phase == DiscoveryPhase::OpeningChannel ==> (event matches
                DiscoveryEvent::ChannelOpenFailed(e) ==> (final(self).phase
                == DiscoveryPhase::Failed && final(self).failure == Some(
                QueryError::Initialization(e),
            ) && r is Aborted)),
            // Sending one offset's query.
            old(self).phase == DiscoveryPhase::SendingQuery ==> (event
                == DiscoveryEvent::QuerySent ==> (final(self).phase
                == DiscoveryPhase::AwaitingReply && final(self).pending_query == old(self).pending_query && final(self).decoder == old(self).decoder && final(self).response_ids
                == old(self).response_ids && final(self).results == old(self).results && final(self).current_ecu == old(self).current_ecu && r is AwaitReply)),
            old(self).phase == DiscoveryPhase::SendingQuery ==> (event matches
                DiscoveryEvent::QuerySendFailed(e) ==> (final(self).phase
                == DiscoveryPhase::Failed && final(self).failure == Some(QueryError::Io(e))
                && r is Aborted)),
            // Awaiting one offset's reply.
            old(self).phase == DiscoveryPhase::AwaitingReply ==> (event matches
                DiscoveryEvent::ReplyReadFailed(e) ==> (final(self).phase
                == DiscoveryPhase::Failed && final(self).failure == Some(QueryError::Io(e))
                && r is Aborted)),
            old(self).phase == DiscoveryPhase::AwaitingReply ==> (event matches
                DiscoveryEvent::ReplyReceived(bytes) ==> final(self).reply_transition(
                *old(self),
                bytes@,
                r,
            )),
    {
        let ghost pre = *self;
        match (self.phase, event) {
            (DiscoveryPhase::OpeningRawSocket, DiscoveryEvent::RawSocketOpened) => {
                self.phase = DiscoveryPhase::SendingBroadcast;
                let request = AvailablePidRequest::from_query_pid(0);
                let bytes = request.payload_with_length_byte();
                let mut payload: Vec<u8> = Vec::new();
                payload.push(bytes[0]);
                payload.push(bytes[1]);
                payload.push(bytes[2]);
                proof {
                    assert(payload@ =~= seq![2u8, CURRENT_DATA_SERVICE_ID, 0u8]);
                }
                let frame = match Frame::new(
                    self.params.addressing.obd_broadcast_address(),
                    payload,
                ) {
                    Some(frame) => frame,
                    None => unreached(),
                };
                DiscoveryAction::SendBroadcast(frame)
            },
            (DiscoveryPhase::OpeningRawSocket, DiscoveryEvent::RawSocketFailed(e)) => {
                self.phase = DiscoveryPhase::Failed;
                self.failure = Some(QueryError::Initialization(e));
                DiscoveryAction::Aborted
            },
            (DiscoveryPhase::SendingBroadcast, DiscoveryEvent::BroadcastSent) => {
                self.phase = DiscoveryPhase::Listening;
                DiscoveryAction::AwaitFrame
            },
            (DiscoveryPhase::SendingBroadcast, DiscoveryEvent::BroadcastSendFailed(e)) => {
                self.phase = DiscoveryPhase::Failed;
                self.failure = Some(QueryError::Io(e));
                DiscoveryAction::Aborted
            },
            (DiscoveryPhase::Listening, DiscoveryEvent::FrameReceived(raw)) => {
                if !contains_raw(&self.response_ids, raw) {
                    let id = match self.params.addressing.get_diagnostic_response_id(raw) {
                        Some(id) => id,
                        None => unreached(),
                    };
                    self.response_ids.push(id);
                }
                DiscoveryAction::AwaitFrame
            },
            (DiscoveryPhase::Listening, DiscoveryEvent::FrameReadFailed(e)) => {
                self.phase = DiscoveryPhase::Failed;
                self.failure = Some(QueryError::Io(e));
                DiscoveryAction::Aborted
            },
            (DiscoveryPhase::Listening, DiscoveryEvent::WindowElapsed) => {
                if self.response_ids.len() == 0 {
                    self.phase = DiscoveryPhase::Complete;
                    DiscoveryAction::Finished
                } else {
                    self.current_ecu = 0;
                    self.phase = DiscoveryPhase::OpeningChannel;
                    let cfg = channel_config(&self.params, self.response_ids[0]);
                    DiscoveryAction::OpenChannel(cfg)
                }
            },
            (DiscoveryPhase::OpeningChannel, DiscoveryEvent::ChannelOpened) => {
                self.decoder = AvailablePidDecoder::new();
                self.pending_query = 0;
                self.phase = DiscoveryPhase::SendingQuery;
                let mut payload: Vec<u8> = Vec::new();
                payload.push(CURRENT_DATA_SERVICE_ID);
                payload.push(0);
                proof {
                    assert(payload@ =~= seq![CURRENT_DATA_SERVICE_ID, 0u8]);
                }
                DiscoveryAction::SendQuery(payload)
            },
            (DiscoveryPhase::OpeningChannel, DiscoveryEvent::ChannelOpenFailed(e)) => {
                self.phase = DiscoveryPhase::Failed;
                self.failure = Some(QueryError::Initialization(e));
                DiscoveryAction::Aborted
            },
            (DiscoveryPhase::SendingQuery, DiscoveryEvent::QuerySent) => {
                self.phase = DiscoveryPhase::AwaitingReply;
                DiscoveryAction::AwaitReply
            },
            (DiscoveryPhase::SendingQuery, DiscoveryEvent::QuerySendFailed(e)) => {
                self.phase = DiscoveryPhase::Failed;
                self.failure = Some(QueryError::Io(e));
                DiscoveryAction::Aborted
            },
            (DiscoveryPhase::AwaitingReply, DiscoveryEvent::ReplyReadFailed(e)) => {
                self.phase = DiscoveryPhase::Failed;
                self.failure = Some(QueryError::Io(e));
                DiscoveryAction::Aborted
            },
            (DiscoveryPhase::AwaitingReply, DiscoveryEvent::ReplyReceived(bytes)) => {
                self.reply_received(Ghost(pre), bytes)
            },
            _ => unreached(),
        }
    }

    /// What one received reply does to the session: an invalid reply
    /// aborts the run naming the first offending field; a valid reply's
    /// bitmap extends the decoder's PID list, and its continuation flag
    /// either queries the next offset or records this responder's list and
    /// moves to the next responder (or completes the run after the last).
    pub open spec fn reply_transition(
        self,
        pre: DiscoverySession,
        bytes: Seq<u8>,
        r: DiscoveryAction,
    ) -> bool {
        let q = pre.pending_query;
        let bitmap = bytes.subrange(2, 6);
        let pids = pre.decoder.pids@ + spec_decoded_pids(q, bitmap);
        let n = pre.response_ids@.len();
        &&& (bytes.len() != AVAILABLE_PID_RESPONSE_LEN ==> self.phase == DiscoveryPhase::Failed
            && self.failure == Some(
            QueryError::InvalidResponse(
                InvalidResponse(
                    InvalidResponseKind::PayloadSize {
                        actual: bytes.len() as usize,
                        expected: AVAILABLE_PID_RESPONSE_LEN,
                    },
                ),
            ),
        ) && r is Aborted)
        &&& (bytes.len() == AVAILABLE_PID_RESPONSE_LEN && bytes[0] != CURRENT_DATA_RESPONSE_ID
            ==> self.phase == DiscoveryPhase::Failed && self.failure == Some(
            QueryError::InvalidResponse(
                InvalidResponse(
                    InvalidResponseKind::ServiceId {
                        actual: bytes[0],
                        expected: CURRENT_DATA_RESPONSE_ID,
                    },
                ),
            ),
        ) && r is Aborted)
        &&& (bytes.len() == AVAILABLE_PID_RESPONSE_LEN && bytes[0] == CURRENT_DATA_RESPONSE_ID
            && bytes[1] != q ==> self.phase == DiscoveryPhase::Failed && self.failure == Some(
            QueryError::InvalidResponse(
                InvalidResponse(
                    InvalidResponseKind::FieldValue {
                        field_id: FieldIdentifier::Position(1),
                        actual: FieldValue::Byte(bytes[1]),
                        expected: FieldValue::Byte(q),
                    },
                ),
            ),
        ) && r is Aborted)
        &&& (valid_response(q, bytes) && spec_continuation(bitmap) ==> self.phase
            == DiscoveryPhase::SendingQuery && self.pending_query == q + 32
            && self.decoder.pids@ == pids && self.decoder.next_query_pid == Some((q + 32) as u8)
            && self.response_ids == pre.response_ids && self.results == pre.results
            && self.current_ecu == pre.current_ecu && (r matches DiscoveryAction::SendQuery(p)
            && p@ == seq![CURRENT_DATA_SERVICE_ID, (q + 32) as u8]))
        &&& (valid_response(q, bytes) && !spec_continuation(bitmap) ==> self.response_ids
            == pre.response_ids && self.results@.len() == pre.results@.len() + 1
            && self.results@.subrange(0, pre.results@.len() as int) == pre.results@
            && self.results@.last().0 == pre.response_ids@[pre.current_ecu as int]
            && self.results@.last().1@ == pids && self.current_ecu == pre.current_ecu + 1 && (
        if pre.current_ecu + 1 < n {
            self.phase == DiscoveryPhase::OpeningChannel && (r matches
                DiscoveryAction::OpenChannel(cfg) && channel_config_matches(
                pre.params,
                pre.response_ids@[pre.current_ecu + 1],
                cfg,
            ))
        } else {
            self.phase == DiscoveryPhase::Complete && r is Finished
        }))
    }

    /// Handle a received reply; split out of `step` to keep each proof
    /// small.
    fn reply_received(&mut self, Ghost(pre): Ghost<DiscoverySession>, bytes: Vec<u8>) -> (r:
        DiscoveryAction)
        requires
            pre == *old(self),
            old(self).wf(),
            old(self).phase == DiscoveryPhase::AwaitingReply,
            !spec_reply_overflows(old(self).pending_query, bytes@),
        ensures
            final(self).wf(),
            final(self).params == old(self).params,
            final(self).reply_transition(pre, bytes@, r),
    {
        let request = AvailablePidRequest::from_query_pid(self.pending_query);
        match request.parse_response(bytes.as_slice()) {
            Err(e) => {
                self.phase = DiscoveryPhase::Failed;
                self.failure = Some(QueryError::InvalidResponse(e));
                DiscoveryAction::Aborted
            },
            Ok(resp) => {
                self.decoder.integrate_response(resp.offset(), resp.data());
                match self.decoder.next_query_pid() {
                    Some(next) => {
                        self.pending_query = next;
                        self.phase = DiscoveryPhase::SendingQuery;
                        let mut payload: Vec<u8> = Vec::new();
                        payload.push(CURRENT_DATA_SERVICE_ID);
                        payload.push(next);
                        proof {
                            assert(payload@ =~= seq![CURRENT_DATA_SERVICE_ID, next]);
                        }
                        DiscoveryAction::SendQuery(payload)
                    },
                    None => {
                        let mut finished = AvailablePidDecoder::new();
                        core::mem::swap(&mut self.decoder, &mut finished);
                        let pids = finished.into_available_pids();
                        let id = self.response_ids[self.current_ecu];
                        self.results.push((id, pids));
                        let total = self.response_ids.len();
                        proof {
                            assert(self.current_ecu < total);
                        }
                        self.current_ecu = self.current_ecu + 1;
                        proof {
                            assert(self.results@.subrange(0, pre.results@.len() as int)
                                =~= pre.results@);
                        }
                        if self.current_ecu < self.response_ids.len() {
                            self.phase = DiscoveryPhase::OpeningChannel;
                            let cfg = channel_config(
                                &self.params,
                                self.response_ids[self.current_ecu],
                            );
                            DiscoveryAction::OpenChannel(cfg)
                        } else {
                            self.phase = DiscoveryPhase::Complete;
                            DiscoveryAction::Finished
                        }
                    },
                }
            },
        }
    }

    /// Take the finished run's results: one entry per responder, in the
    /// order the responders were first heard, each an identifier and its
    /// ordered PID list.
    pub fn into_results(self) -> (r: Vec<(Identifier, Vec<u8>)>)
        requires
            self.phase == DiscoveryPhase::Complete,
        ensures
            r == self.results,
    {
        self.results
    }

    /// Take the failed run's first error.
    pub fn into_failure(self) -> (r: QueryError)
        requires
            self.phase == DiscoveryPhase::Failed,
            self.wf(),
        ensures
            Some(r) == self.failure,
    {
        match self.failure {
            Some(e) => e,
            None => unreached(),
        }
    }

    /// Whether a reply would violate `spec_reply_overflows`; the caller
    /// checks before feeding the reply in, and treats a hit as the
    /// invariant violation it is.
    pub fn reply_would_overflow(&self, bytes: &Vec<u8>) -> (r: bool)
        ensures
            r == spec_reply_overflows(self.pending_query, bytes@),
    {
        if self.pending_query != 224 {
            return false;
        }
        if !(bytes.len() == AVAILABLE_PID_RESPONSE_LEN && bytes[0] == CURRENT_DATA_RESPONSE_ID
            && bytes[1] == self.pending_query) {
            return false;
        }
        let continues = bytes[5] & 1 == 1;
        proof {
            assert(bytes@.subrange(2, 6)[3] == bytes@[5]);
        }
        continues
    }
}

/// Build the open configuration for one responder's channel.
fn channel_config(params: &CANParameters, response_id: Identifier) -> (cfg: IsoTpSocketConfig)
    requires
        response_id == spec_diagnostic_response_id(params.addressing, response_id.spec_raw())->0,
        in_response_range(params.addressing, response_id.spec_raw()),
    ensures
        channel_config_matches(*params, response_id, cfg),
{
    let request_id = match params.addressing.response_to_request(response_id) {
        Some(id) => id,
        None => unreached(),
    };
    match ISOTPSocketBuilder::default().source_id(response_id).destination_id(
        request_id,
    ).can_parameters(params.clone()).build() {
        Ok(cfg) => cfg,
        Err(_) => unreached(),
    }
}

/// Whether some collected identifier already has this raw value.
fn contains_raw(ids: &Vec<Identifier>, raw: u32) -> (r: bool)
    ensures
        r == seq_contains_raw(ids@, raw),
{
    let mut k: usize = 0;
    while k < ids.len()
        invariant
            k <= ids@.len(),
            forall|i: int| 0 <= i < k ==> #[trigger] ids@[i].spec_raw() != raw,
        decreases ids@.len() - k,
    {
        if ids[k].as_raw() == raw {
            return true;
        }
        k += 1;
    }
    false
}

impl CurrentDataService {
    /// Start the available-PID enumeration: a fresh discovery session over
    /// this service's bus parameters.
    pub fn begin_query_available_pids(&self) -> (r: DiscoverySession)
        ensures
            r.params == self.can_parameters,
            r.phase == DiscoveryPhase::OpeningRawSocket,
            r.response_ids@.len() == 0,
            r.results@.len() == 0,
            r.wf(),
    {
        DiscoverySession::new(self.can_parameters.clone())
    }
}

} // verus!
