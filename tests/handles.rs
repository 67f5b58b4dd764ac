use hal_handles::{
    rust_create_handle, rust_create_port_handle, rust_create_port_handle_for_spi,
    HAL_K_INVALID_HANDLE,
};

fn handle_by_shifts(index: i16, handle_type: u8, version: i16) -> i32 {
    let upper = ((handle_type as i32) << 8).wrapping_add(version as i32);
    upper.wrapping_shl(16).wrapping_add(index as i32)
}

#[test]
fn create_handle_type_one() {
    assert_eq!(rust_create_handle(5, 1, 0), (((1 << 8) + 0) << 16) + 5);
    assert_eq!(rust_create_handle(5, 1, 0), 16777221);
}

#[test]
fn create_handle_negative_index() {
    assert_eq!(rust_create_handle(-1, 1, 0), 0);
    assert_eq!(rust_create_handle(i16::MIN, 5, 3), HAL_K_INVALID_HANDLE);
    assert_eq!(rust_create_handle(-7, 0, 0), HAL_K_INVALID_HANDLE);
}

#[test]
fn create_handle_type_zero() {
    assert_eq!(rust_create_handle(0, 0, 0), 0);
    assert_eq!(rust_create_handle(100, 0, -5), HAL_K_INVALID_HANDLE);
}

#[test]
fn create_handle_type_too_large() {
    assert_eq!(rust_create_handle(0, 128, 0), 0);
    assert_eq!(rust_create_handle(12, 255, 9), HAL_K_INVALID_HANDLE);
}

#[test]
fn create_handle_type_bounds_valid() {
    assert_eq!(rust_create_handle(0, 1, 0), 0x0100_0000);
    assert_eq!(rust_create_handle(0, 127, 0), 0x7f00_0000);
    assert_eq!(rust_create_handle(32767, 127, 0), 0x7f00_7fff);
}

#[test]
fn create_handle_version_added() {
    assert_eq!(rust_create_handle(3, 2, 7), (2 << 24) + (7 << 16) + 3);
    assert_eq!(rust_create_handle(0, 1, -1), 0x00ff_0000);
}

#[test]
fn create_handle_wraps_at_extremes() {
    assert_eq!(rust_create_handle(32767, 127, 32767), -16809985);
    assert_eq!(rust_create_handle(0, 1, i16::MIN), -2130706432);
    assert_eq!(rust_create_handle(0, 127, 512), -2130706432);
}

#[test]
fn create_handle_matches_shift_layout() {
    let indices: [i16; 4] = [0, 1, 255, 32767];
    let types: [u8; 4] = [1, 2, 64, 127];
    let versions: [i16; 6] = [i16::MIN, -256, -1, 0, 255, i16::MAX];
    for &i in indices.iter() {
        for &t in types.iter() {
            for &v in versions.iter() {
                assert_eq!(rust_create_handle(i, t, v), handle_by_shifts(i, t, v));
            }
        }
    }
}

#[test]
fn create_handle_fields_read_back() {
    let h = rust_create_handle(1234, 9, 17);
    assert_eq!(h & 0xffff, 1234);
    assert_eq!((h >> 16) & 0xffff, 9 * 256 + 17);
}

#[test]
fn create_handle_distinct_triples_differ() {
    let a = rust_create_handle(1, 3, 4);
    assert_ne!(a, rust_create_handle(2, 3, 4));
    assert_ne!(a, rust_create_handle(1, 4, 4));
    assert_ne!(a, rust_create_handle(1, 3, 5));
}

#[test]
fn create_handle_version_overlaps_type() {
    assert_eq!(rust_create_handle(0, 1, 0), rust_create_handle(0, 2, -256));
    assert_eq!(rust_create_handle(0, 1, -256), 0);
}

#[test]
fn create_port_handle_layout() {
    assert_eq!(rust_create_port_handle(1, 2, 3), 16777986);
    assert_eq!(rust_create_port_handle(0, 0, 0), 0);
    assert_eq!(rust_create_port_handle(0, 255, 255), 0xffff);
}

#[test]
fn create_port_handle_wraps_base() {
    assert_eq!(rust_create_port_handle(0x1ff, 0, 0), -16777216);
    assert_eq!(rust_create_port_handle(0x100, 4, 5), 0x0504);
    assert_eq!(rust_create_port_handle(-1, 1, 1), -16777216 + 0x0101);
}

#[test]
fn create_port_handle_fields() {
    let bases: [i32; 5] = [i32::MIN, -1, 0, 77, i32::MAX];
    for &b in bases.iter() {
        let h = rust_create_port_handle(b, 200, 17);
        assert_eq!(h & 0xff, 200);
        assert_eq!((h >> 8) & 0xff, 17);
        assert_eq!((h >> 16) & 0xff, 0);
        assert_eq!((h >> 24) & 0xff, b & 0xff);
    }
}

#[test]
fn create_port_handle_for_spi_layout() {
    assert_eq!(rust_create_port_handle_for_spi(0, 5), 65541);
    assert_eq!(rust_create_port_handle_for_spi(2, 7), 33619975);
    assert_eq!(rust_create_port_handle_for_spi(-1, 255), -16711425);
}

#[test]
fn create_port_handle_for_spi_module_byte() {
    let bases: [i32; 6] = [i32::MIN, -1, 0, 1, 0x12345, i32::MAX];
    let channels: [u8; 4] = [0, 1, 128, 255];
    for &b in bases.iter() {
        for &c in channels.iter() {
            let h = rust_create_port_handle_for_spi(b, c);
            assert_eq!((h >> 16) & 0xff, 1);
            assert_eq!((h >> 8) & 0xff, 0);
            assert_eq!(h & 0xff, c as i32);
            assert_eq!((h >> 24) & 0xff, b & 0xff);
        }
    }
}

#[test]
fn encoders_never_fault() {
    let wide: [i32; 4] = [i32::MIN, -1, 0, i32::MAX];
    for &b in wide.iter() {
        for &c in [0u8, 255u8].iter() {
            for &m in [0u8, 255u8].iter() {
                let _ = rust_create_port_handle(b, c, m);
            }
            let _ = rust_create_port_handle_for_spi(b, c);
        }
    }
    for &i in [i16::MIN, -1, 0, i16::MAX].iter() {
        for &t in [0u8, 1, 127, 128, 255].iter() {
            for &v in [i16::MIN, 0, i16::MAX].iter() {
                let _ = rust_create_handle(i, t, v);
            }
        }
    }
}
