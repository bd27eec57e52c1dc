//! Socket configuration: builders that validate what a raw or segmented
//! (ISO-TP) socket needs before anything touches the operating system, and
//! the validated configuration values that the I/O layer opens sockets from.
//!
//! A build rejects a missing required field with a typed error naming the
//! field; everything past that point works from a configuration that is
//! known complete.

use vstd::prelude::*;

use crate::addressing::{CanFilter, Identifier};
use crate::config::CANParameters;
use crate::errors::SocketBuildError;

verus! {

/// Everything needed to open one raw, unsegmented socket: the device name,
/// an optional receive filter, and the per-operation timeouts in
/// milliseconds.
#[derive(Debug)]
pub struct RawSocketConfig {
    pub socket_name: String,
    pub filter: Option<Vec<CanFilter>>,
    pub read_timeout_ms: u64,
    pub write_timeout_ms: u64,
}

/// Step-by-step configuration of a raw socket.
pub struct RawSocketBuilder {
    pub source_id_filter: Option<Vec<CanFilter>>,
    pub can_parameters: Option<CANParameters>,
}

impl Default for RawSocketBuilder {
    /// A builder with nothing configured.
    fn default() -> (r: Self)
        ensures
            r.source_id_filter is None,
            r.can_parameters is None,
    {
        RawSocketBuilder { source_id_filter: None, can_parameters: None }
    }
}

impl RawSocketBuilder {
    /// Install a receive filter set; without one, all traffic is accepted.
    pub fn source_id_filter(self, filter: Vec<CanFilter>) -> (r: Self)
        ensures
            r.source_id_filter == Some(filter),
            r.can_parameters == self.can_parameters,
    {
        RawSocketBuilder { source_id_filter: Some(filter), ..self }
    }

    /// Supply the session's bus parameters.
    pub fn can_parameters(self, params: CANParameters) -> (r: Self)
        ensures
            r.can_parameters == Some(params),
            r.source_id_filter == self.source_id_filter,
    {
        RawSocketBuilder { can_parameters: Some(params), ..self }
    }

    /// Validate the builder. Fails naming the missing field when the bus
    /// parameters were never supplied; otherwise yields the complete open
    /// configuration, carrying the optional filter and the parameters'
    /// device name and timeouts through unchanged.
    pub fn build(self) -> (r: Result<RawSocketConfig, SocketBuildError>)
        ensures
            r is Ok <==> self.can_parameters is Some,
            self.can_parameters is None ==> (r matches Err(
                SocketBuildError::MissingRequiredField { field_name },
            ) && field_name@ == "can_parameters"@),
            self.can_parameters matches Some(params) ==> (r matches Ok(cfg) && cfg.socket_name@
                == params.socket_name@ && cfg.filter == self.source_id_filter
                && cfg.read_timeout_ms == params.read_timeout_ms && cfg.write_timeout_ms
                == params.write_timeout_ms),
    {
        let params = match self.can_parameters {
            Some(params) => params,
            None => {
                return Err(SocketBuildError::MissingRequiredField {
                    field_name: "can_parameters",
                });
            },
        };
        Ok(
            RawSocketConfig {
                socket_name: params.socket_name,
                filter: self.source_id_filter,
                read_timeout_ms: params.read_timeout_ms,
                write_timeout_ms: params.write_timeout_ms,
            },
        )
    }
}

/// Everything needed to open one segmented (ISO-TP) channel: the device
/// name, the local and remote identifiers, the transmit padding byte if
/// padding is enabled, and the per-operation timeouts in milliseconds.
#[derive(Debug)]
pub struct IsoTpSocketConfig {
    pub socket_name: String,
    pub source_id: Identifier,
    pub destination_id: Identifier,
    pub tx_padding: Option<u8>,
    pub read_timeout_ms: u64,
    pub write_timeout_ms: u64,
}

/// Step-by-step configuration of a segmented (ISO-TP) channel.
pub struct ISOTPSocketBuilder {
    pub source_id: Option<Identifier>,
    pub destination_id: Option<Identifier>,
    pub can_parameters: Option<CANParameters>,
}

impl Default for ISOTPSocketBuilder {
    /// A builder with nothing configured.
    fn default() -> (r: Self)
        ensures
            r.source_id is None,
            r.destination_id is None,
            r.can_parameters is None,
    {
        ISOTPSocketBuilder { source_id: None, destination_id: None, can_parameters: None }
    }
}

impl ISOTPSocketBuilder {
    /// Supply the local (receiving) identifier.
    pub fn source_id(self, id: Identifier) -> (r: Self)
        ensures
            r.source_id == Some(id),
            r.destination_id == self.destination_id,
            r.can_parameters == self.can_parameters,
    {
        ISOTPSocketBuilder { source_id: Some(id), ..self }
    }

    /// Supply the remote (queried) identifier.
    pub fn destination_id(self, id: Identifier) -> (r: Self)
        ensures
            r.destination_id == Some(id),
            r.source_id == self.source_id,
            r.can_parameters == self.can_parameters,
    {
        ISOTPSocketBuilder { destination_id: Some(id), ..self }
    }

    /// Supply the session's bus parameters.
    pub fn can_parameters(self, params: CANParameters) -> (r: Self)
        ensures
            r.can_parameters == Some(params),
            r.source_id == self.source_id,
            r.destination_id == self.destination_id,
    {
        ISOTPSocketBuilder { can_parameters: Some(params), ..self }
    }

    /// Validate the builder. Fails naming the first missing required field
    /// (source, then destination, then bus parameters); otherwise yields the
    /// complete open configuration. Transmit padding defaults to on, with
    /// the parameters' fill byte, and is absent when the parameters disable
    /// it.
    pub fn build(self) -> (r: Result<IsoTpSocketConfig, SocketBuildError>)
        ensures
            r is Ok <==> self.source_id is Some && self.destination_id is Some
                && self.can_parameters is Some,
            self.source_id is None ==> (r matches Err(
                SocketBuildError::MissingRequiredField { field_name },
            ) && field_name@ == "source_id"@),
            self.source_id is Some && self.destination_id is None ==> (r matches Err(
                SocketBuildError::MissingRequiredField { field_name },
            ) && field_name@ == "destination_id"@),
            self.source_id is Some && self.destination_id is Some && self.can_parameters is None
                ==> (r matches Err(SocketBuildError::MissingRequiredField { field_name })
                && field_name@ == "can_parameters"@),
            r matches Ok(cfg) ==> (cfg.socket_name@ == self.can_parameters->0.socket_name@
                && cfg.source_id == self.source_id->0 && cfg.destination_id
                == self.destination_id->0 && cfg.tx_padding == (
            if self.can_parameters->0.disable_isotp_frame_padding {
                None::<u8>
            } else {
                Some(self.can_parameters->0.tx_frame_padding)
            }) && cfg.read_timeout_ms == self.can_parameters->0.read_timeout_ms
                && cfg.write_timeout_ms == self.can_parameters->0.write_timeout_ms),
    {
        let source_id = match self.source_id {
            Some(id) => id,
            None => {
                return Err(SocketBuildError::MissingRequiredField { field_name: "source_id" });
            },
        };
        let destination_id = match self.destination_id {
            Some(id) => id,
            None => {
                return Err(
                    SocketBuildError::MissingRequiredField { field_name: "destination_id" },
                );
            },
        };
        let params = match self.can_parameters {
            Some(params) => params,
            None => {
                return Err(
                    SocketBuildError::MissingRequiredField { field_name: "can_parameters" },
                );
            },
        };
        let tx_padding = if params.disable_isotp_frame_padding {
            None
        } else {
            Some(params.tx_frame_padding)
        };
        Ok(
            IsoTpSocketConfig {
                socket_name: params.socket_name,
                source_id,
                destination_id,
                tx_padding,
                read_timeout_ms: params.read_timeout_ms,
                write_timeout_ms: params.write_timeout_ms,
            },
        )
    }
}

} // verus!
