//! Opaque handle encoding for a hardware abstraction layer: pure functions
//! that pack a type tag, a version, a module, a channel and an index into
//! one signed 32-bit handle.
//!
//! Port handles carry the base handle's low byte in their top byte. A port
//! handle from `rust_create_port_handle` holds its module in bits 8 to 15,
//! while one from `rust_create_port_handle_for_spi` holds the module byte `1`
//! in bits 16 to 23: the two layouts are read differently.
pub mod layout;
pub mod encode;
pub mod laws;

pub use encode::{
    HAL_K_INVALID_HANDLE,
    rust_create_handle,
    rust_create_port_handle,
    rust_create_port_handle_for_spi,
};
