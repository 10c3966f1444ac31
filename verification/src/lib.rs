//! Structured view of the quality-of-service (QoS) configuration surface of a
//! publish/subscribe middleware.
//!
//! The library decodes an in-memory model of the native configuration object
//! into a [`qos::Qos`] aggregate that records, for each policy, whether it was
//! ever explicitly set, and encodes such an aggregate back into a freshly
//! created configuration object.  It also serializes the aggregate to a
//! self-describing text form and a compact binary form, both proved to round
//! trip exactly.

use vstd::prelude::*;

pub mod binary;
pub mod elide;
pub mod marshal;
pub mod native;
pub mod policy;
pub mod props;
pub mod qos;
pub mod text;
pub mod textqos;
pub mod wire;

verus! {

/// Reserved duration meaning "infinite": the maximum representable number of
/// nanoseconds.  It must round trip exactly through every codec.
pub const DDS_INFINITE_TIME: i64 = 0x7FFF_FFFF_FFFF_FFFF;

/// One hundred milliseconds, in nanoseconds.
pub const DDS_100MS_DURATION: i64 = 100_000_000;

/// One second, in nanoseconds.
pub const DDS_1S_DURATION: i64 = 1_000_000_000;

/// Reserved count meaning "unlimited".
pub const DDS_LENGTH_UNLIMITED: i32 = -1;

/// How a marshaling or serialization operation can fail.
#[derive(Debug, Clone, Copy, PartialEq, Eq, Structural)]
pub enum QosError {
    /// The configuration object reports an enumeration code that matches no
    /// known variant: the binding disagrees with the configuration library.
    /// Unrecoverable by design.
    ProtocolViolation,
    /// The configuration library could not allocate a buffer.  Unrecoverable;
    /// the in-memory model of this crate never reports it, but callers that
    /// marshal against a live library must be able to name it.
    AllocationFailure,
    /// Malformed input handed to the text or binary decoder.  Recoverable:
    /// it reflects bad external data, not an internal contract breach.
    SerializationError,
}

} // verus!
