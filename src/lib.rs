//! Bit-granular decoding of binary protocol headers.
//!
//! A decode runs over one in-memory buffer of known bit length. Every step
//! takes a [`bits::BitCursor`] and hands back a new one, so a failed attempt
//! leaves nothing behind and the caller can always tell how many bits of the
//! declared total were consumed.
pub mod bits;
pub mod chained;
pub mod computed;
pub mod context;
pub mod error;
pub mod field;
pub mod fixed_format;
pub mod option_list;
pub mod pdu;
pub mod record;
pub mod sample;
pub mod stun;
pub mod tcp;
pub mod tcp_option;
pub mod udp;
