//! The mathematical model of a handle: the value each encoder produces, and
//! the bit fields a reader of a handle finds in it.
use vstd::prelude::*;

verus! {

/// `x` reduced to a signed 32-bit value with two's-complement wraparound.
pub open spec fn wrap_i32(x: int) -> int {
    let m = x % 0x1_0000_0000;
    if m > 0x7fff_ffff {
        m - 0x1_0000_0000
    } else {
        m
    }
}

/// The arguments of `rust_create_handle` that give a real handle: a
/// non-negative index and a type tag in `1..=127`.
pub open spec fn valid_handle_args(index: i16, handle_type: u8) -> bool {
    index >= 0 && 1 <= handle_type <= 127
}

/// The upper half of a generic handle before it is truncated: the type tag
/// one byte up, plus the version.
pub open spec fn type_version_word(handle_type: u8, version: i16) -> int {
    handle_type * 0x100 + version
}

/// A generic handle: `((handle_type << 8) + version) << 16` plus the index,
/// or the invalid handle `0` when the arguments are out of range.
pub open spec fn handle_spec(index: i16, handle_type: u8, version: i16) -> int {
    if valid_handle_args(index, handle_type) {
        wrap_i32(type_version_word(handle_type, version) * 0x1_0000 + index)
    } else {
        0
    }
}

/// A port handle: the base handle shifted into the top byte, the module in
/// the second byte from the bottom and the channel in the lowest byte.
pub open spec fn port_handle_spec(base_handle: i32, channel: u8, module: u8) -> int {
    wrap_i32(base_handle * 0x100_0000 + module * 0x100 + channel)
}

/// An SPI port handle: the base handle in the top byte, the module byte `1`
/// in bits 16 to 23, bits 8 to 15 clear and the channel in the lowest byte.
pub open spec fn spi_port_handle_spec(base_handle: i32, channel: u8) -> int {
    wrap_i32(base_handle * 0x100_0000 + 0x1_0000 + channel)
}

/// The index field of a generic handle: its low 16 bits.
pub open spec fn index_field(h: i32) -> i32 {
    h & 0xffff
}

/// The type-and-version field of a generic handle: its high 16 bits.
pub open spec fn type_version_field(h: i32) -> i32 {
    (h >> 16u32) & 0xffff
}

/// The lowest byte of a handle: the channel of a port handle.
pub open spec fn channel_field(h: i32) -> i32 {
    h & 0xff
}

/// Bits 8 to 15 of a handle: the module of a port handle.
pub open spec fn module_field(h: i32) -> i32 {
    (h >> 8u32) & 0xff
}

/// Bits 16 to 23 of a handle: the module byte of an SPI port handle.
pub open spec fn spi_module_field(h: i32) -> i32 {
    (h >> 16u32) & 0xff
}

/// The top byte of a handle: the low byte of a port handle's base handle.
pub open spec fn base_field(h: i32) -> i32 {
    (h >> 24u32) & 0xff
}

} // verus!
