//! Bit-level facts about the fixed-width integers, proved once by bit-blasting
//! and used wherever a core masks, shifts or merges register fields.

use vstd::prelude::*;

verus! {

/// Masking, merging and shifting a `u8`: a mask bounds the result, an OR
/// is at most the sum, and a shift by a constant is a division or (without
/// overflow) a multiplication by a power of two.
pub proof fn lemma_u8(x: u8, m: u8)
    by (bit_vector)
    ensures
        x & m <= m,
        x & m <= x,
        (x | m) as int <= x + m,
        x >> m <= x,
        x >> 1u8 == x / 2,
        x >> 2u8 == x / 4,
        x >> 3u8 == x / 8,
        x >> 4u8 == x / 16,
        x >> 5u8 == x / 32,
        x >> 6u8 == x / 64,
        x >> 7u8 == x / 128,
        x & 1 == x % 2,
        x & 3 == x % 4,
        x & 7 == x % 8,
        x & 15 == x % 16,
        x & 31 == x % 32,
        x & 63 == x % 64,
        x & 127 == x % 128,
        x < 128 ==> x << 1u8 == x * 2,
        x < 64 ==> x << 2u8 == x * 4,
        x < 32 ==> x << 3u8 == x * 8,
        x < 16 ==> x << 4u8 == x * 16,
        x < 8 ==> x << 5u8 == x * 32,
        x < 4 ==> x << 6u8 == x * 64,
        x < 2 ==> x << 7u8 == x * 128,
{
}

/// Masking, merging and shifting a `u16`: a mask bounds the result, an OR
/// is at most the sum, and a shift by a constant is a division or (without
/// overflow) a multiplication by a power of two.
pub proof fn lemma_u16(x: u16, m: u16)
    by (bit_vector)
    ensures
        x & m <= m,
        x & m <= x,
        (x | m) as int <= x + m,
        x >> m <= x,
        x >> 1u16 == x / 2,
        x >> 2u16 == x / 4,
        x >> 3u16 == x / 8,
        x >> 4u16 == x / 16,
        x >> 5u16 == x / 32,
        x >> 6u16 == x / 64,
        x >> 7u16 == x / 128,
        x >> 8u16 == x / 256,
        x >> 9u16 == x / 512,
        x >> 10u16 == x / 1024,
        x >> 11u16 == x / 2048,
        x >> 12u16 == x / 4096,
        x >> 13u16 == x / 8192,
        x >> 14u16 == x / 16384,
        x >> 15u16 == x / 32768,
        x & 1 == x % 2,
        x & 3 == x % 4,
        x & 7 == x % 8,
        x & 15 == x % 16,
        x & 31 == x % 32,
        x & 63 == x % 64,
        x & 127 == x % 128,
        x & 255 == x % 256,
        x & 511 == x % 512,
        x & 1023 == x % 1024,
        x & 2047 == x % 2048,
        x & 4095 == x % 4096,
        x & 8191 == x % 8192,
        x & 16383 == x % 16384,
        x & 32767 == x % 32768,
        x < 32768 ==> x << 1u16 == x * 2,
        x < 16384 ==> x << 2u16 == x * 4,
        x < 8192 ==> x << 3u16 == x * 8,
        x < 4096 ==> x << 4u16 == x * 16,
        x < 2048 ==> x << 5u16 == x * 32,
        x < 1024 ==> x << 6u16 == x * 64,
        x < 512 ==> x << 7u16 == x * 128,
        x < 256 ==> x << 8u16 == x * 256,
        x < 128 ==> x << 9u16 == x * 512,
        x < 64 ==> x << 10u16 == x * 1024,
        x < 32 ==> x << 11u16 == x * 2048,
        x < 16 ==> x << 12u16 == x * 4096,
        x < 8 ==> x << 13u16 == x * 8192,
        x < 4 ==> x << 14u16 == x * 16384,
        x < 2 ==> x << 15u16 == x * 32768,
{
}

/// Masking, merging and shifting a `u32`: a mask bounds the result, an OR
/// is at most the sum, and a shift by a constant is a division or (without
/// overflow) a multiplication by a power of two.
pub proof fn lemma_u32(x: u32, m: u32)
    by (bit_vector)
    ensures
        x & m <= m,
        x & m <= x,
        (x | m) as int <= x + m,
        x >> m <= x,
        x >> 1u32 == x / 2,
        x >> 2u32 == x / 4,
        x >> 3u32 == x / 8,
        x >> 4u32 == x / 16,
        x >> 5u32 == x / 32,
        x >> 6u32 == x / 64,
        x >> 7u32 == x / 128,
        x >> 8u32 == x / 256,
        x >> 9u32 == x / 512,
        x >> 10u32 == x / 1024,
        x >> 11u32 == x / 2048,
        x >> 12u32 == x / 4096,
        x >> 13u32 == x / 8192,
        x >> 14u32 == x / 16384,
        x >> 15u32 == x / 32768,
        x >> 16u32 == x / 65536,
        x >> 17u32 == x / 131072,
        x >> 18u32 == x / 262144,
        x >> 19u32 == x / 524288,
        x >> 20u32 == x / 1048576,
        x >> 21u32 == x / 2097152,
        x >> 22u32 == x / 4194304,
        x >> 23u32 == x / 8388608,
        x >> 24u32 == x / 16777216,
        x >> 25u32 == x / 33554432,
        x >> 26u32 == x / 67108864,
        x >> 27u32 == x / 134217728,
        x >> 28u32 == x / 268435456,
        x >> 29u32 == x / 536870912,
        x >> 30u32 == x / 1073741824,
        x >> 31u32 == x / 2147483648,
        x & 1 == x % 2,
        x & 3 == x % 4,
        x & 7 == x % 8,
        x & 15 == x % 16,
        x & 31 == x % 32,
        x & 63 == x % 64,
        x & 127 == x % 128,
        x & 255 == x % 256,
        x & 511 == x % 512,
        x & 1023 == x % 1024,
        x & 2047 == x % 2048,
        x & 4095 == x % 4096,
        x & 8191 == x % 8192,
        x & 16383 == x % 16384,
        x & 32767 == x % 32768,
        x & 65535 == x % 65536,
        x & 131071 == x % 131072,
        x & 262143 == x % 262144,
        x & 524287 == x % 524288,
        x & 1048575 == x % 1048576,
        x & 2097151 == x % 2097152,
        x & 4194303 == x % 4194304,
        x & 8388607 == x % 8388608,
        x & 16777215 == x % 16777216,
        x & 33554431 == x % 33554432,
        x & 67108863 == x % 67108864,
        x & 134217727 == x % 134217728,
        x & 268435455 == x % 268435456,
        x & 536870911 == x % 536870912,
        x & 1073741823 == x % 1073741824,
        x & 2147483647 == x % 2147483648,
        x < 2147483648 ==> x << 1u32 == x * 2,
        x < 1073741824 ==> x << 2u32 == x * 4,
        x < 536870912 ==> x << 3u32 == x * 8,
        x < 268435456 ==> x << 4u32 == x * 16,
        x < 134217728 ==> x << 5u32 == x * 32,
        x < 67108864 ==> x << 6u32 == x * 64,
        x < 33554432 ==> x << 7u32 == x * 128,
        x < 16777216 ==> x << 8u32 == x * 256,
        x < 8388608 ==> x << 9u32 == x * 512,
        x < 4194304 ==> x << 10u32 == x * 1024,
        x < 2097152 ==> x << 11u32 == x * 2048,
        x < 1048576 ==> x << 12u32 == x * 4096,
        x < 524288 ==> x << 13u32 == x * 8192,
        x < 262144 ==> x << 14u32 == x * 16384,
        x < 131072 ==> x << 15u32 == x * 32768,
        x < 65536 ==> x << 16u32 == x * 65536,
        x < 32768 ==> x << 17u32 == x * 131072,
        x < 16384 ==> x << 18u32 == x * 262144,
        x < 8192 ==> x << 19u32 == x * 524288,
        x < 4096 ==> x << 20u32 == x * 1048576,
        x < 2048 ==> x << 21u32 == x * 2097152,
        x < 1024 ==> x << 22u32 == x * 4194304,
        x < 512 ==> x << 23u32 == x * 8388608,
        x < 256 ==> x << 24u32 == x * 16777216,
        x < 128 ==> x << 25u32 == x * 33554432,
        x < 64 ==> x << 26u32 == x * 67108864,
        x < 32 ==> x << 27u32 == x * 134217728,
        x < 16 ==> x << 28u32 == x * 268435456,
        x < 8 ==> x << 29u32 == x * 536870912,
        x < 4 ==> x << 30u32 == x * 1073741824,
        x < 2 ==> x << 31u32 == x * 2147483648,
{
}

/// Masking, merging and shifting a `u64`: a mask bounds the result, an OR
/// is at most the sum, and a shift by a constant is a division or (without
/// overflow) a multiplication by a power of two.
pub proof fn lemma_u64(x: u64, m: u64)
    by (bit_vector)
    ensures
        x & m <= m,
        x & m <= x,
        (x | m) as int <= x + m,
        x >> m <= x,
        x >> 1u64 == x / 2,
        x >> 2u64 == x / 4,
        x >> 3u64 == x / 8,
        x >> 4u64 == x / 16,
        x >> 5u64 == x / 32,
        x >> 6u64 == x / 64,
        x >> 7u64 == x / 128,
        x >> 8u64 == x / 256,
        x >> 9u64 == x / 512,
        x >> 10u64 == x / 1024,
        x >> 11u64 == x / 2048,
        x >> 12u64 == x / 4096,
        x >> 13u64 == x / 8192,
        x >> 14u64 == x / 16384,
        x >> 15u64 == x / 32768,
        x >> 16u64 == x / 65536,
        x >> 17u64 == x / 131072,
        x >> 18u64 == x / 262144,
        x >> 19u64 == x / 524288,
        x >> 20u64 == x / 1048576,
        x >> 21u64 == x / 2097152,
        x >> 22u64 == x / 4194304,
        x >> 23u64 == x / 8388608,
        x >> 24u64 == x / 16777216,
        x >> 25u64 == x / 33554432,
        x >> 26u64 == x / 67108864,
        x >> 27u64 == x / 134217728,
        x >> 28u64 == x / 268435456,
        x >> 29u64 == x / 536870912,
        x >> 30u64 == x / 1073741824,
        x >> 31u64 == x / 2147483648,
        x >> 32u64 == x / 4294967296,
        x >> 33u64 == x / 8589934592,
        x >> 34u64 == x / 17179869184,
        x >> 35u64 == x / 34359738368,
        x >> 36u64 == x / 68719476736,
        x >> 37u64 == x / 137438953472,
        x >> 38u64 == x / 274877906944,
        x >> 39u64 == x / 549755813888,
        x >> 40u64 == x / 1099511627776,
        x >> 41u64 == x / 2199023255552,
        x >> 42u64 == x / 4398046511104,
        x >> 43u64 == x / 8796093022208,
        x >> 44u64 == x / 17592186044416,
        x >> 45u64 == x / 35184372088832,
        x >> 46u64 == x / 70368744177664,
        x >> 47u64 == x / 140737488355328,
        x >> 48u64 == x / 281474976710656,
        x >> 49u64 == x / 562949953421312,
        x >> 50u64 == x / 1125899906842624,
        x >> 51u64 == x / 2251799813685248,
        x >> 52u64 == x / 4503599627370496,
        x >> 53u64 == x / 9007199254740992,
        x >> 54u64 == x / 18014398509481984,
        x >> 55u64 == x / 36028797018963968,
        x >> 56u64 == x / 72057594037927936,
        x >> 57u64 == x / 144115188075855872,
        x >> 58u64 == x / 288230376151711744,
        x >> 59u64 == x / 576460752303423488,
        x >> 60u64 == x / 1152921504606846976,
        x >> 61u64 == x / 2305843009213693952,
        x >> 62u64 == x / 4611686018427387904,
        x >> 63u64 == x / 9223372036854775808,
        x & 1 == x % 2,
        x & 3 == x % 4,
        x & 7 == x % 8,
        x & 15 == x % 16,
        x & 31 == x % 32,
        x & 63 == x % 64,
        x & 127 == x % 128,
        x & 255 == x % 256,
        x & 511 == x % 512,
        x & 1023 == x % 1024,
        x & 2047 == x % 2048,
        x & 4095 == x % 4096,
        x & 8191 == x % 8192,
        x & 16383 == x % 16384,
        x & 32767 == x % 32768,
        x & 65535 == x % 65536,
        x & 131071 == x % 131072,
        x & 262143 == x % 262144,
        x & 524287 == x % 524288,
        x & 1048575 == x % 1048576,
        x & 2097151 == x % 2097152,
        x & 4194303 == x % 4194304,
        x & 8388607 == x % 8388608,
        x & 16777215 == x % 16777216,
        x & 33554431 == x % 33554432,
        x & 67108863 == x % 67108864,
        x & 134217727 == x % 134217728,
        x & 268435455 == x % 268435456,
        x & 536870911 == x % 536870912,
        x & 1073741823 == x % 1073741824,
        x & 2147483647 == x % 2147483648,
        x & 4294967295 == x % 4294967296,
        x & 8589934591 == x % 8589934592,
        x & 17179869183 == x % 17179869184,
        x & 34359738367 == x % 34359738368,
        x & 68719476735 == x % 68719476736,
        x & 137438953471 == x % 137438953472,
        x & 274877906943 == x % 274877906944,
        x & 549755813887 == x % 549755813888,
        x & 1099511627775 == x % 1099511627776,
        x & 2199023255551 == x % 2199023255552,
        x & 4398046511103 == x % 4398046511104,
        x & 8796093022207 == x % 8796093022208,
        x & 17592186044415 == x % 17592186044416,
        x & 35184372088831 == x % 35184372088832,
        x & 70368744177663 == x % 70368744177664,
        x & 140737488355327 == x % 140737488355328,
        x & 281474976710655 == x % 281474976710656,
        x & 562949953421311 == x % 562949953421312,
        x & 1125899906842623 == x % 1125899906842624,
        x & 2251799813685247 == x % 2251799813685248,
        x & 4503599627370495 == x % 4503599627370496,
        x & 9007199254740991 == x % 9007199254740992,
        x & 18014398509481983 == x % 18014398509481984,
        x & 36028797018963967 == x % 36028797018963968,
        x & 72057594037927935 == x % 72057594037927936,
        x & 144115188075855871 == x % 144115188075855872,
        x & 288230376151711743 == x % 288230376151711744,
        x & 576460752303423487 == x % 576460752303423488,
        x & 1152921504606846975 == x % 1152921504606846976,
        x & 2305843009213693951 == x % 2305843009213693952,
        x & 4611686018427387903 == x % 4611686018427387904,
        x & 9223372036854775807 == x % 9223372036854775808,
        x < 9223372036854775808 ==> x << 1u64 == x * 2,
        x < 4611686018427387904 ==> x << 2u64 == x * 4,
        x < 2305843009213693952 ==> x << 3u64 == x * 8,
        x < 1152921504606846976 ==> x << 4u64 == x * 16,
        x < 576460752303423488 ==> x << 5u64 == x * 32,
        x < 288230376151711744 ==> x << 6u64 == x * 64,
        x < 144115188075855872 ==> x << 7u64 == x * 128,
        x < 72057594037927936 ==> x << 8u64 == x * 256,
        x < 36028797018963968 ==> x << 9u64 == x * 512,
        x < 18014398509481984 ==> x << 10u64 == x * 1024,
        x < 9007199254740992 ==> x << 11u64 == x * 2048,
        x < 4503599627370496 ==> x << 12u64 == x * 4096,
        x < 2251799813685248 ==> x << 13u64 == x * 8192,
        x < 1125899906842624 ==> x << 14u64 == x * 16384,
        x < 562949953421312 ==> x << 15u64 == x * 32768,
        x < 281474976710656 ==> x << 16u64 == x * 65536,
        x < 140737488355328 ==> x << 17u64 == x * 131072,
        x < 70368744177664 ==> x << 18u64 == x * 262144,
        x < 35184372088832 ==> x << 19u64 == x * 524288,
        x < 17592186044416 ==> x << 20u64 == x * 1048576,
        x < 8796093022208 ==> x << 21u64 == x * 2097152,
        x < 4398046511104 ==> x << 22u64 == x * 4194304,
        x < 2199023255552 ==> x << 23u64 == x * 8388608,
        x < 1099511627776 ==> x << 24u64 == x * 16777216,
        x < 549755813888 ==> x << 25u64 == x * 33554432,
        x < 274877906944 ==> x << 26u64 == x * 67108864,
        x < 137438953472 ==> x << 27u64 == x * 134217728,
        x < 68719476736 ==> x << 28u64 == x * 268435456,
        x < 34359738368 ==> x << 29u64 == x * 536870912,
        x < 17179869184 ==> x << 30u64 == x * 1073741824,
        x < 8589934592 ==> x << 31u64 == x * 2147483648,
        x < 4294967296 ==> x << 32u64 == x * 4294967296,
        x < 2147483648 ==> x << 33u64 == x * 8589934592,
        x < 1073741824 ==> x << 34u64 == x * 17179869184,
        x < 536870912 ==> x << 35u64 == x * 34359738368,
        x < 268435456 ==> x << 36u64 == x * 68719476736,
        x < 134217728 ==> x << 37u64 == x * 137438953472,
        x < 67108864 ==> x << 38u64 == x * 274877906944,
        x < 33554432 ==> x << 39u64 == x * 549755813888,
        x < 16777216 ==> x << 40u64 == x * 1099511627776,
        x < 8388608 ==> x << 41u64 == x * 2199023255552,
        x < 4194304 ==> x << 42u64 == x * 4398046511104,
        x < 2097152 ==> x << 43u64 == x * 8796093022208,
        x < 1048576 ==> x << 44u64 == x * 17592186044416,
        x < 524288 ==> x << 45u64 == x * 35184372088832,
        x < 262144 ==> x << 46u64 == x * 70368744177664,
        x < 131072 ==> x << 47u64 == x * 140737488355328,
        x < 65536 ==> x << 48u64 == x * 281474976710656,
        x < 32768 ==> x << 49u64 == x * 562949953421312,
        x < 16384 ==> x << 50u64 == x * 1125899906842624,
        x < 8192 ==> x << 51u64 == x * 2251799813685248,
        x < 4096 ==> x << 52u64 == x * 4503599627370496,
        x < 2048 ==> x << 53u64 == x * 9007199254740992,
        x < 1024 ==> x << 54u64 == x * 18014398509481984,
        x < 512 ==> x << 55u64 == x * 36028797018963968,
        x < 256 ==> x << 56u64 == x * 72057594037927936,
        x < 128 ==> x << 57u64 == x * 144115188075855872,
        x < 64 ==> x << 58u64 == x * 288230376151711744,
        x < 32 ==> x << 59u64 == x * 576460752303423488,
        x < 16 ==> x << 60u64 == x * 1152921504606846976,
        x < 8 ==> x << 61u64 == x * 2305843009213693952,
        x < 4 ==> x << 62u64 == x * 4611686018427387904,
        x < 2 ==> x << 63u64 == x * 9223372036854775808,
{
}

/// An arithmetic right shift of an `i32` by a constant is floor division by
/// a power of two: the quotient times the power is at most `x`, and less than
/// a power below it.
pub proof fn lemma_i32_shr(x: i32)
    by (bit_vector)
    ensures
        (x >> 1i32) * 2 <= x < (x >> 1i32) * 2 + 2,
        (x >> 2i32) * 4 <= x < (x >> 2i32) * 4 + 4,
        (x >> 3i32) * 8 <= x < (x >> 3i32) * 8 + 8,
        (x >> 4i32) * 16 <= x < (x >> 4i32) * 16 + 16,
        (x >> 5i32) * 32 <= x < (x >> 5i32) * 32 + 32,
        (x >> 6i32) * 64 <= x < (x >> 6i32) * 64 + 64,
        (x >> 7i32) * 128 <= x < (x >> 7i32) * 128 + 128,
        (x >> 8i32) * 256 <= x < (x >> 8i32) * 256 + 256,
        (x >> 9i32) * 512 <= x < (x >> 9i32) * 512 + 512,
        (x >> 10i32) * 1024 <= x < (x >> 10i32) * 1024 + 1024,
        (x >> 11i32) * 2048 <= x < (x >> 11i32) * 2048 + 2048,
        (x >> 12i32) * 4096 <= x < (x >> 12i32) * 4096 + 4096,
        (x >> 16i32) * 65536 <= x < (x >> 16i32) * 65536 + 65536,
        (x >> 18i32) * 262144 <= x < (x >> 18i32) * 262144 + 262144,
{
}

/// An arithmetic right shift of an `i64` by eight is floor division by 256.
pub proof fn lemma_i64_shr8(x: i64)
    by (bit_vector)
    ensures
        (x >> 8i64) * 256 <= x < (x >> 8i64) * 256 + 256,
{
}

/// Replacing one byte of a 24-bit field with `d` keeps it within 24 bits.
pub proof fn lemma_byte_merges(x: u32, d: u8)
    ensures
        (x & 0xFF_FF00) | (d as u32) <= 0xFF_FFFF,
        (x & 0xFF_00FF) | ((d as u32) << 8u32) <= 0xFF_FFFF,
        (x & 0x00_FFFF) | ((d as u32) << 16u32) <= 0xFF_FFFF,
{
    let w = d as u32;
    lemma_u32(w, 0);
    lemma_u32(x, 0xFF_FF00);
    lemma_u32(x & 0xFF_FF00, w);
    lemma_u32(x, 0xFF_00FF);
    lemma_u32(x & 0xFF_00FF, w << 8u32);
    lemma_u32(x, 0x00_FFFF);
    lemma_u32(x & 0x00_FFFF, w << 16u32);
}

} // verus!
