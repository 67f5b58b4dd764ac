//! The handle encoders.
use vstd::prelude::*;
use crate::layout::{
    base_field,
    channel_field,
    handle_spec,
    module_field,
    port_handle_spec,
    spi_module_field,
    spi_port_handle_spec,
    wrap_i32,
};

verus! {

/// The reserved handle value that means "invalid handle".
pub const HAL_K_INVALID_HANDLE: i32 = 0;

proof fn lemma_handle_steps(index: i16, handle_type: u8, version: i16)
    by (bit_vector)
    requires
        index >= 0,
        1 <= handle_type <= 127,
    ensures
        ((handle_type as i32) << 8u32) == handle_type * 0x100,
        i32::MIN <= (handle_type * 0x100) + version <= i32::MAX,
        i32::MIN <= ((((handle_type * 0x100) + version) as i32) << 16u32) + index <= i32::MAX,
        ((((handle_type * 0x100) + version) as i32) << 16u32) + index
            == wrap_i32((handle_type * 0x100 + version) * 0x1_0000 + index),
{
}

/// Encodes a generic resource handle: the type tag in the top byte, the
/// version added into the upper 16 bits and the index in the lower 16 bits,
/// with two's-complement wraparound. Returns `HAL_K_INVALID_HANDLE` when the
/// index is negative or the type tag is `0` or above `127`.
pub fn rust_create_handle(index: i16, handle_type: u8, version: i16) -> (r: i32)
    ensures
        r == handle_spec(index, handle_type, version),
        index < 0 ==> r == HAL_K_INVALID_HANDLE,
        handle_type == 0 || handle_type > 127 ==> r == HAL_K_INVALID_HANDLE,
{
    if index < 0 {
        return HAL_K_INVALID_HANDLE;
    }
    if handle_type == 0 || handle_type > 127 {
        return HAL_K_INVALID_HANDLE;
    }
    proof {
        lemma_handle_steps(index, handle_type, version);
    }
    let mut handle: i32 = handle_type as i32;
    handle = handle.wrapping_shl(8);
    handle = handle + version as i32;
    handle = handle.wrapping_shl(16);
    handle = handle + index as i32;
    handle
}

proof fn lemma_port_handle_steps(base_handle: i32, channel: u8, module: u8)
    by (bit_vector)
    ensures
        (((module as i32) << 8u32) & 0xff00) == module * 0x100,
        i32::MIN <= (base_handle << 24u32) + module * 0x100 + channel <= i32::MAX,
        (base_handle << 24u32) + module * 0x100 + channel
            == wrap_i32(base_handle * 0x100_0000 + module * 0x100 + channel),
{
}

proof fn lemma_port_handle_fields(base_handle: i32, channel: u8, module: u8, h: i32)
    by (bit_vector)
    requires
        h == wrap_i32(base_handle * 0x100_0000 + module * 0x100 + channel),
    ensures
        channel_field(h) == channel,
        module_field(h) == module,
        (h >> 16u32) & 0xff == 0,
        base_field(h) == base_handle & 0xff,
{
}

/// Encodes a port handle: `(base_handle << 24) + ((module << 8) & 0xff00) +
/// channel`, with two's-complement wraparound. The base handle keeps only
/// its low byte, in the top byte of the result; bits 16 to 23 are clear.
pub fn rust_create_port_handle(base_handle: i32, channel: u8, module: u8) -> (r: i32)
    ensures
        r == port_handle_spec(base_handle, channel, module),
        channel_field(r) == channel,
        module_field(r) == module,
        (r >> 16u32) & 0xff == 0,
        base_field(r) == base_handle & 0xff,
{
    proof {
        lemma_port_handle_steps(base_handle, channel, module);
        lemma_port_handle_fields(
            base_handle,
            channel,
            module,
            port_handle_spec(base_handle, channel, module) as i32,
        );
    }
    let mut handle: i32 = base_handle;
    handle = handle.wrapping_shl(24);
    let mut temp: i32 = module as i32;
    temp = temp.wrapping_shl(8) & 0xff00;
    handle = handle + temp;
    handle = handle + channel as i32;
    handle
}

proof fn lemma_spi_port_handle_steps(base_handle: i32, channel: u8)
    by (bit_vector)
    ensures
        ((1i32 << 8u32) & 0xff00) == 0x100,
        i32::MIN <= (base_handle << 16u32) + 0x100 <= i32::MAX,
        i32::MIN <= ((((base_handle << 16u32) + 0x100) as i32) << 8u32) + channel <= i32::MAX,
        ((((base_handle << 16u32) + 0x100) as i32) << 8u32) + channel
            == wrap_i32(base_handle * 0x100_0000 + 0x1_0000 + channel),
{
}

proof fn lemma_spi_port_handle_fields(base_handle: i32, channel: u8, h: i32)
    by (bit_vector)
    requires
        h == wrap_i32(base_handle * 0x100_0000 + 0x1_0000 + channel),
    ensures
        channel_field(h) == channel,
        module_field(h) == 0,
        spi_module_field(h) == 1,
        base_field(h) == base_handle & 0xff,
{
}

/// Encodes an SPI port handle: `(((base_handle << 16) + (1 << 8)) << 8) +
/// channel`, with two's-complement wraparound. The module byte `1` lands in
/// bits 16 to 23, the channel in the lowest byte and the low byte of the base
/// handle in the top byte.
pub fn rust_create_port_handle_for_spi(base_handle: i32, channel: u8) -> (r: i32)
    ensures
        r == spi_port_handle_spec(base_handle, channel),
        spi_module_field(r) == 1,
        channel_field(r) == channel,
        module_field(r) == 0,
        base_field(r) == base_handle & 0xff,
{
    proof {
        lemma_spi_port_handle_steps(base_handle, channel);
        lemma_spi_port_handle_fields(
            base_handle,
            channel,
            spi_port_handle_spec(base_handle, channel) as i32,
        );
    }
    let mut handle: i32 = base_handle;
    handle = handle.wrapping_shl(16);
    let mut temp: i32 = 1;
    temp = temp.wrapping_shl(8) & 0xff00;
    handle = handle + temp;
    handle = handle.wrapping_shl(8);
    handle = handle + channel as i32;
    handle
}

} // verus!
