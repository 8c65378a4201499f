use vstd::prelude::*;

verus! {

/// Longest display name of a realm, dimension or area, in bytes.
pub const MAX_NAME_LEN: usize = 80;

/// Longest realm details text, in bytes.
pub const MAX_DETAILS_LEN: usize = 250;

/// Longest tileset or tilemap path, in bytes.
pub const MAX_RESOURCE_PATH_LEN: usize = 128;

/// Bytes that tag the kind of every stored record.
pub const DISCRIMINATOR_LEN: usize = 8;

/// Bytes of the length prefix of a string or a list.
pub const LEN_PREFIX: usize = 4;

/// Bytes of a key.
pub const PUBKEY_LEN: usize = 32;

/// Bytes of a timestamp.
pub const TIMESTAMP_LEN: usize = 8;

/// Bytes of one master entry: a key and a one-byte role.
pub const REALM_MASTER_LEN: usize = 33;

/// Bytes of a position: two 32-bit coordinates.
pub const POSITION_LEN: usize = 8;

/// Bytes of a rectangle: two positions.
pub const RECT_LEN: usize = 16;

/// Bytes of an optional key: a one-byte tag and room for the key.
pub const OPTION_PUBKEY_LEN: usize = 33;

/// Bytes of a stat block: eight 64-bit values.
pub const HERO_STATS_LEN: usize = 64;

/// Bytes of a 64-bit counter.
pub const U64_LEN: usize = 8;

} // verus!
