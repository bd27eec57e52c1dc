//! Session configuration: the bus parameters shared by every socket of one
//! run, the chosen operation, and the logging level.

use vstd::prelude::*;

use crate::addressing::Addressing;

verus! {

/// The bus parameters of one session: device name, per-operation timeouts
/// (milliseconds), transmit-padding policy for the segmented transport, and
/// the addressing mode. Fixed once at construction for the whole run.
pub struct CANParameters {
    pub socket_name: String,
    pub read_timeout_ms: u64,
    pub write_timeout_ms: u64,
    pub disable_isotp_frame_padding: bool,
    pub tx_frame_padding: u8,
    pub addressing: Addressing,
}

impl Clone for CANParameters {
    fn clone(&self) -> (r: Self)
        ensures
            r == *self,
    {
        CANParameters {
            socket_name: self.socket_name.clone(),
            read_timeout_ms: self.read_timeout_ms,
            write_timeout_ms: self.write_timeout_ms,
            disable_isotp_frame_padding: self.disable_isotp_frame_padding,
            tx_frame_padding: self.tx_frame_padding,
            addressing: self.addressing,
        }
    }
}

/// How much the session logs.
#[derive(Clone, Copy, Debug, PartialEq, Eq, Structural)]
pub enum LogLevel {
    Trace,
    Debug,
    Info,
}

/// Which operation the session runs: check that the configured socket
/// opens, or enumerate the available PIDs of every responding unit.
#[derive(Clone, Copy, Debug, PartialEq, Eq, Structural)]
pub enum Command {
    ValidateSocket,
    QueryAvailablePIDs,
}

/// The whole session configuration, validated once at startup.
pub struct AppConfig {
    pub log_level: LogLevel,
    pub can_parameters: CANParameters,
    pub operation: Command,
}

impl AppConfig {
    /// Assemble a configuration from its parts.
    pub fn new(log_level: LogLevel, can_parameters: CANParameters, operation: Command) -> (r:
        AppConfig)
        ensures
            r.log_level == log_level,
            r.can_parameters == can_parameters,
            r.operation == operation,
    {
        AppConfig { log_level, can_parameters, operation }
    }

    /// The bus parameters.
    pub fn can_parameters(&self) -> (r: CANParameters)
        ensures
            r == self.can_parameters,
    {
        self.can_parameters.clone()
    }

    /// The operation to run.
    pub fn command(&self) -> (r: Command)
        ensures
            r == self.operation,
    {
        self.operation
    }

    /// The configured logging level.
    pub fn log_level(&self) -> (r: LogLevel)
        ensures
            r == self.log_level,
    {
        self.log_level
    }
}

} // verus!
