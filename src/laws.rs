//! Properties that relate handles to one another.
use vstd::prelude::*;
use crate::layout::{
    handle_spec,
    index_field,
    type_version_field,
    type_version_word,
    valid_handle_args,
    wrap_i32,
};

verus! {

proof fn lemma_handle_fields_bits(index: i16, handle_type: u8, version: i16, h: i32)
    by (bit_vector)
    requires
        index >= 0,
        1 <= handle_type <= 127,
        h == wrap_i32((handle_type * 0x100 + version) * 0x1_0000 + index),
    ensures
        index_field(h) == index,
        type_version_field(h) == ((handle_type * 0x100 + version) as i32) & 0xffff,
{
}

proof fn lemma_handle_zero_bits(index: i16, handle_type: u8, version: i16, h: i32)
    by (bit_vector)
    requires
        index >= 0,
        1 <= handle_type <= 127,
        h == wrap_i32((handle_type * 0x100 + version) * 0x1_0000 + index),
    ensures
        h == 0 <==> (index == 0 && ((handle_type * 0x100 + version) as i32) & 0xffff == 0),
{
}

proof fn lemma_low_half(x: i32)
    by (bit_vector)
    requires
        -0x8000 <= x < 0x1_0000,
    ensures
        x & 0xffff == x % 0x1_0000,
{
}

/// A valid generic handle can be read back: its low 16 bits are the index,
/// and its high 16 bits are the type-and-version word modulo `2^16`.
pub proof fn lemma_handle_fields(index: i16, handle_type: u8, version: i16)
    requires
        valid_handle_args(index, handle_type),
    ensures
        index_field(handle_spec(index, handle_type, version) as i32) == index,
        type_version_field(handle_spec(index, handle_type, version) as i32)
            == type_version_word(handle_type, version) % 0x1_0000,
{
    let h = handle_spec(index, handle_type, version) as i32;
    lemma_handle_fields_bits(index, handle_type, version, h);
    lemma_low_half((handle_type * 0x100 + version) as i32);
}

/// Two valid argument triples that give the same generic handle are the
/// same triple, unless their type-and-version words differ by a multiple of
/// `2^16` (the version is added into the type byte, so for instance type
/// `1` with version `0` and type `2` with version `-256` agree).
pub proof fn lemma_handle_injective(
    index1: i16,
    handle_type1: u8,
    version1: i16,
    index2: i16,
    handle_type2: u8,
    version2: i16,
)
    requires
        valid_handle_args(index1, handle_type1),
        valid_handle_args(index2, handle_type2),
        (handle_type1 == handle_type2 && version1 == version2) || type_version_word(
            handle_type1,
            version1,
        ) % 0x1_0000 != type_version_word(handle_type2, version2) % 0x1_0000,
    ensures
        handle_spec(index1, handle_type1, version1) == handle_spec(index2, handle_type2, version2)
            ==> index1 == index2 && handle_type1 == handle_type2 && version1 == version2,
{
    lemma_handle_fields(index1, handle_type1, version1);
    lemma_handle_fields(index2, handle_type2, version2);
}

/// A valid generic handle equals the invalid handle `0` exactly when its
/// index is `0` and its type-and-version word is a multiple of `2^16`; in
/// particular never when the version is non-negative.
pub proof fn lemma_handle_zero(index: i16, handle_type: u8, version: i16)
    requires
        valid_handle_args(index, handle_type),
    ensures
        handle_spec(index, handle_type, version) == 0 <==> (index == 0 && type_version_word(
            handle_type,
            version,
        ) % 0x1_0000 == 0),
        version >= 0 ==> handle_spec(index, handle_type, version) != 0,
{
    let h = handle_spec(index, handle_type, version) as i32;
    lemma_handle_zero_bits(index, handle_type, version, h);
    lemma_low_half((handle_type * 0x100 + version) as i32);
}

} // verus!
