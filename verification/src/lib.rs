//! Open-enum model for integer-coded classification fields of a remote API.
//!
//! The code space of such a field is controlled by the remote side and may
//! grow after a client is built. Each enumeration is therefore modelled as an
//! open enum: a finite set of known variants, each bound to one wire code,
//! plus a fallback variant that carries any other code verbatim. Decoding is
//! total and encoding recovers exactly the byte that was decoded, so unknown
//! codes survive a round trip unchanged.

pub mod command_type;

pub use command_type::CommandType;
