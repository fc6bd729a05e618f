//! The error type of the library.

use vstd::prelude::*;

verus! {

/// Errors reported by the library's conversions and checks.
#[derive(Clone, Debug, PartialEq, Eq)]
pub enum KiCadError {
    /// Invalid configuration or arguments.
    Config { reason: String },
    /// A response that does not have the expected shape.
    InvalidResponse { reason: String },
    /// A per-item status other than OK, with its status name and detail.
    ItemStatus { code: String },
    /// A non-OK API status returned by KiCad.
    ApiStatus { code: String, message: String },
    /// A response without the expected payload.
    MissingPayload { expected_type_url: String },
    /// A payload whose type URL differs from the expected one.
    UnexpectedPayloadType { expected_type_url: String, actual_type_url: String },
    /// A payload that does not hold a message of the named type.
    ProtobufDecode(String),
    /// No board document is open.
    BoardNotOpen,
    /// More than one board document is open.
    AmbiguousBoardSelection { boards: Vec<String> },
    /// The open documents name more than one project path.
    AmbiguousProjectPath { paths: Vec<String> },
    /// The IPC socket does not exist.
    SocketUnavailable { socket_uri: String },
    /// A lock guarding client state was poisoned.
    InternalPoisoned,
    /// The blocking runtime failed to start or join.
    RuntimeJoin(String),
    /// The blocking runtime has shut down.
    BlockingRuntimeClosed,
}

} // verus!
