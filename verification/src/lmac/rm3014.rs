//! The shortened Reed-Muller code (30,14) of the access assignment channel.
use vstd::prelude::*;

verus! {

/// The parity part of the generator matrix.
pub const RM_30_14_GEN: [[u8; 16]; 14] = [
    [1, 0, 0, 1, 1, 0, 1, 1, 0, 1, 1, 0, 0, 0, 0, 0],
    [0, 0, 1, 0, 1, 1, 0, 1, 1, 1, 1, 0, 0, 0, 0, 0],
    [1, 1, 1, 1, 1, 1, 0, 0, 0, 0, 1, 0, 0, 0, 0, 0],
    [1, 1, 1, 0, 0, 0, 0, 0, 0, 0, 1, 1, 1, 1, 0, 0],
    [1, 0, 0, 1, 1, 0, 0, 0, 0, 0, 1, 1, 1, 0, 1, 0],
    [0, 1, 0, 1, 0, 1, 0, 0, 0, 0, 1, 1, 0, 1, 1, 0],
    [0, 0, 1, 0, 1, 1, 0, 0, 0, 0, 1, 0, 1, 1, 1, 0],
    [1, 1, 1, 1, 1, 1, 1, 1, 1, 1, 0, 1, 1, 1, 1, 1],
    [1, 0, 0, 0, 0, 0, 1, 1, 0, 0, 1, 1, 1, 0, 0, 1],
    [0, 1, 0, 0, 0, 0, 1, 0, 1, 0, 1, 1, 0, 1, 0, 1],
    [0, 0, 1, 0, 0, 0, 0, 1, 1, 0, 1, 0, 1, 1, 0, 1],
    [0, 0, 0, 1, 0, 0, 1, 0, 0, 1, 1, 1, 0, 0, 1, 1],
    [0, 0, 0, 0, 1, 0, 0, 1, 0, 1, 1, 0, 1, 0, 1, 1],
    [0, 0, 0, 0, 0, 1, 0, 0, 1, 1, 1, 0, 0, 1, 1, 1],
];

/// The rows of the generator matrix: one bit of data with its parity.
pub const RM_30_14_ROWS_PRECOMPUTED: [u32; 14] = [
    0x20009b60,
    0x10002de0,
    0x0800fc20,
    0x0400e03c,
    0x0200983a,
    0x01005436,
    0x00802c2e,
    0x0040ffdf,
    0x00208339,
    0x001042b5,
    0x000821ad,
    0x00041273,
    0x0002096b,
    0x000104e7,
];

/// The syndrome of each single bit of a codeword, from the first bit on.
pub const COL_SYNDROMES: [u16; 30] = [
    0x06d9,
    0x07b4,
    0x043f,
    0x3c07,
    0x5c19,
    0x6c2a,
    0x7434,
    0xfbff,
    0x9cc1,
    0xad42,
    0xb584,
    0xce48,
    0xd690,
    0xe720,
    0x0001,
    0x0002,
    0x0004,
    0x0008,
    0x0010,
    0x0020,
    0x0040,
    0x0080,
    0x0100,
    0x0200,
    0x0400,
    0x0800,
    0x1000,
    0x2000,
    0x4000,
    0x8000,
];

/// Data that was decoded.
#[derive(Debug, Clone, Copy, PartialEq, Eq, Structural)]
pub struct Rm3014Decoded {
    pub data: u16,
    pub corrected_bits: u8,
}

/// A word that is too far from every codeword.
#[derive(Debug, Clone, Copy, PartialEq, Eq, Structural)]
pub struct Rm3014Uncorrectable {
    pub syndrome: u16,
}

/// Bit `index` of a codeword, counted from the first of its thirty.
pub open spec fn code_bit(word: u32, index: int) -> bool {
    (word >> ((29 - index) as u32)) & 1 == 1
}

/// The word with only that bit set.
pub open spec fn single(index: int) -> u32 {
    1u32 << ((29 - index) as u32)
}

/// The sum of the rows of the data bits that are set, among the first `n`.
pub open spec fn sum_of_rows(input: u16, n: nat) -> u32
    decreases n,
{
    if n == 0 {
        0
    } else {
        sum_of_rows(input, (n - 1) as nat) ^ (if (input >> ((14 - n) as u16)) & 1 == 1 {
            RM_30_14_ROWS_PRECOMPUTED@[n - 1]
        } else {
            0
        })
    }
}

/// The codeword of fourteen bits of data.
pub open spec fn encoded(input: u16) -> u32 {
    sum_of_rows(input, 14)
}

/// The sum of the syndromes of the bits that are set, among the first `n`.
pub open spec fn sum_of_columns(word: u32, n: nat) -> u16
    decreases n,
{
    if n == 0 {
        0
    } else {
        sum_of_columns(word, (n - 1) as nat) ^ (if code_bit(word, n - 1) {
            COL_SYNDROMES@[n - 1]
        } else {
            0
        })
    }
}

/// The syndrome of a word: zero for codewords.
pub open spec fn syndrome(word: u32) -> u16 {
    sum_of_columns(word, 30)
}

/// The number of bits that are set among the first `n`.
pub open spec fn weight(word: u32, n: nat) -> nat
    decreases n,
{
    if n == 0 {
        0
    } else {
        weight(word, (n - 1) as nat) + if code_bit(word, n - 1) {
            1nat
        } else {
            0
        }
    }
}

/// Up to three places in a word, in order.
pub open spec fn in_order(n: nat, i: int, j: int, k: int) -> bool {
    &&& n <= 3
    &&& n >= 1 ==> 0 <= i < 30
    &&& n >= 2 ==> i < j < 30
    &&& n >= 3 ==> j < k < 30
}

/// The error pattern with the bits at these places set.
pub open spec fn errors(n: nat, i: int, j: int, k: int) -> u32 {
    if n == 0 {
        0
    } else if n == 1 {
        single(i)
    } else if n == 2 {
        single(i) ^ single(j)
    } else {
        single(i) ^ single(j) ^ single(k)
    }
}

/// The codeword of fourteen bits of data, written out.
spec fn encoded_explicit(x: u16) -> u32 {
    0u32
        ^ (if (x >> 13u16) & 1 == 1 { 0x20009b60u32 } else { 0u32 })
        ^ (if (x >> 12u16) & 1 == 1 { 0x10002de0u32 } else { 0u32 })
        ^ (if (x >> 11u16) & 1 == 1 { 0x0800fc20u32 } else { 0u32 })
        ^ (if (x >> 10u16) & 1 == 1 { 0x0400e03cu32 } else { 0u32 })
        ^ (if (x >> 9u16) & 1 == 1 { 0x0200983au32 } else { 0u32 })
        ^ (if (x >> 8u16) & 1 == 1 { 0x01005436u32 } else { 0u32 })
        ^ (if (x >> 7u16) & 1 == 1 { 0x00802c2eu32 } else { 0u32 })
        ^ (if (x >> 6u16) & 1 == 1 { 0x0040ffdfu32 } else { 0u32 })
        ^ (if (x >> 5u16) & 1 == 1 { 0x00208339u32 } else { 0u32 })
        ^ (if (x >> 4u16) & 1 == 1 { 0x001042b5u32 } else { 0u32 })
        ^ (if (x >> 3u16) & 1 == 1 { 0x000821adu32 } else { 0u32 })
        ^ (if (x >> 2u16) & 1 == 1 { 0x00041273u32 } else { 0u32 })
        ^ (if (x >> 1u16) & 1 == 1 { 0x0002096bu32 } else { 0u32 })
        ^ (if (x >> 0u16) & 1 == 1 { 0x000104e7u32 } else { 0u32 })
}

/// The syndrome of a word, written out.
spec fn syndrome_explicit(w: u32) -> u16 {
    0u16
        ^ (if (w >> 29u32) & 1 == 1 { 0x06d9u16 } else { 0u16 })
        ^ (if (w >> 28u32) & 1 == 1 { 0x07b4u16 } else { 0u16 })
        ^ (if (w >> 27u32) & 1 == 1 { 0x043fu16 } else { 0u16 })
        ^ (if (w >> 26u32) & 1 == 1 { 0x3c07u16 } else { 0u16 })
        ^ (if (w >> 25u32) & 1 == 1 { 0x5c19u16 } else { 0u16 })
        ^ (if (w >> 24u32) & 1 == 1 { 0x6c2au16 } else { 0u16 })
        ^ (if (w >> 23u32) & 1 == 1 { 0x7434u16 } else { 0u16 })
        ^ (if (w >> 22u32) & 1 == 1 { 0xfbffu16 } else { 0u16 })
        ^ (if (w >> 21u32) & 1 == 1 { 0x9cc1u16 } else { 0u16 })
        ^ (if (w >> 20u32) & 1 == 1 { 0xad42u16 } else { 0u16 })
        ^ (if (w >> 19u32) & 1 == 1 { 0xb584u16 } else { 0u16 })
        ^ (if (w >> 18u32) & 1 == 1 { 0xce48u16 } else { 0u16 })
        ^ (if (w >> 17u32) & 1 == 1 { 0xd690u16 } else { 0u16 })
        ^ (if (w >> 16u32) & 1 == 1 { 0xe720u16 } else { 0u16 })
        ^ (if (w >> 15u32) & 1 == 1 { 0x0001u16 } else { 0u16 })
        ^ (if (w >> 14u32) & 1 == 1 { 0x0002u16 } else { 0u16 })
        ^ (if (w >> 13u32) & 1 == 1 { 0x0004u16 } else { 0u16 })
        ^ (if (w >> 12u32) & 1 == 1 { 0x0008u16 } else { 0u16 })
        ^ (if (w >> 11u32) & 1 == 1 { 0x0010u16 } else { 0u16 })
        ^ (if (w >> 10u32) & 1 == 1 { 0x0020u16 } else { 0u16 })
        ^ (if (w >> 9u32) & 1 == 1 { 0x0040u16 } else { 0u16 })
        ^ (if (w >> 8u32) & 1 == 1 { 0x0080u16 } else { 0u16 })
        ^ (if (w >> 7u32) & 1 == 1 { 0x0100u16 } else { 0u16 })
        ^ (if (w >> 6u32) & 1 == 1 { 0x0200u16 } else { 0u16 })
        ^ (if (w >> 5u32) & 1 == 1 { 0x0400u16 } else { 0u16 })
        ^ (if (w >> 4u32) & 1 == 1 { 0x0800u16 } else { 0u16 })
        ^ (if (w >> 3u32) & 1 == 1 { 0x1000u16 } else { 0u16 })
        ^ (if (w >> 2u32) & 1 == 1 { 0x2000u16 } else { 0u16 })
        ^ (if (w >> 1u32) & 1 == 1 { 0x4000u16 } else { 0u16 })
        ^ (if (w >> 0u32) & 1 == 1 { 0x8000u16 } else { 0u16 })
}

proof fn lemma_encoded_explicit(x: u16)
    ensures
        encoded(x) == encoded_explicit(x),
{
    reveal_with_fuel(sum_of_rows, 15);
    assert(RM_30_14_ROWS_PRECOMPUTED@[0] == 0x20009b60u32);
    assert(RM_30_14_ROWS_PRECOMPUTED@[1] == 0x10002de0u32);
    assert(RM_30_14_ROWS_PRECOMPUTED@[2] == 0x0800fc20u32);
    assert(RM_30_14_ROWS_PRECOMPUTED@[3] == 0x0400e03cu32);
    assert(RM_30_14_ROWS_PRECOMPUTED@[4] == 0x0200983au32);
    assert(RM_30_14_ROWS_PRECOMPUTED@[5] == 0x01005436u32);
    assert(RM_30_14_ROWS_PRECOMPUTED@[6] == 0x00802c2eu32);
    assert(RM_30_14_ROWS_PRECOMPUTED@[7] == 0x0040ffdfu32);
    assert(RM_30_14_ROWS_PRECOMPUTED@[8] == 0x00208339u32);
    assert(RM_30_14_ROWS_PRECOMPUTED@[9] == 0x001042b5u32);
    assert(RM_30_14_ROWS_PRECOMPUTED@[10] == 0x000821adu32);
    assert(RM_30_14_ROWS_PRECOMPUTED@[11] == 0x00041273u32);
    assert(RM_30_14_ROWS_PRECOMPUTED@[12] == 0x0002096bu32);
    assert(RM_30_14_ROWS_PRECOMPUTED@[13] == 0x000104e7u32);
}

proof fn lemma_syndrome_explicit(w: u32)
    ensures
        syndrome(w) == syndrome_explicit(w),
{
    let s0 = 0u16;
    assert(sum_of_columns(w, 0) == s0);
    assert(COL_SYNDROMES@[0] == 0x06d9u16);
    let s1 = s0 ^ (if (w >> 29u32) & 1 == 1 { 0x06d9u16 } else { 0u16 });
    assert(sum_of_columns(w, 1) == s1);
    assert(COL_SYNDROMES@[1] == 0x07b4u16);
    let s2 = s1 ^ (if (w >> 28u32) & 1 == 1 { 0x07b4u16 } else { 0u16 });
    assert(sum_of_columns(w, 2) == s2);
    assert(COL_SYNDROMES@[2] == 0x043fu16);
    let s3 = s2 ^ (if (w >> 27u32) & 1 == 1 { 0x043fu16 } else { 0u16 });
    assert(sum_of_columns(w, 3) == s3);
    assert(COL_SYNDROMES@[3] == 0x3c07u16);
    let s4 = s3 ^ (if (w >> 26u32) & 1 == 1 { 0x3c07u16 } else { 0u16 });
    assert(sum_of_columns(w, 4) == s4);
    assert(COL_SYNDROMES@[4] == 0x5c19u16);
    let s5 = s4 ^ (if (w >> 25u32) & 1 == 1 { 0x5c19u16 } else { 0u16 });
    assert(sum_of_columns(w, 5) == s5);
    assert(COL_SYNDROMES@[5] == 0x6c2au16);
    let s6 = s5 ^ (if (w >> 24u32) & 1 == 1 { 0x6c2au16 } else { 0u16 });
    assert(sum_of_columns(w, 6) == s6);
    assert(COL_SYNDROMES@[6] == 0x7434u16);
    let s7 = s6 ^ (if (w >> 23u32) & 1 == 1 { 0x7434u16 } else { 0u16 });
    assert(sum_of_columns(w, 7) == s7);
    assert(COL_SYNDROMES@[7] == 0xfbffu16);
    let s8 = s7 ^ (if (w >> 22u32) & 1 == 1 { 0xfbffu16 } else { 0u16 });
    assert(sum_of_columns(w, 8) == s8);
    assert(COL_SYNDROMES@[8] == 0x9cc1u16);
    let s9 = s8 ^ (if (w >> 21u32) & 1 == 1 { 0x9cc1u16 } else { 0u16 });
    assert(sum_of_columns(w, 9) == s9);
    assert(COL_SYNDROMES@[9] == 0xad42u16);
    let s10 = s9 ^ (if (w >> 20u32) & 1 == 1 { 0xad42u16 } else { 0u16 });
    assert(sum_of_columns(w, 10) == s10);
    assert(COL_SYNDROMES@[10] == 0xb584u16);
    let s11 = s10 ^ (if (w >> 19u32) & 1 == 1 { 0xb584u16 } else { 0u16 });
    assert(sum_of_columns(w, 11) == s11);
    assert(COL_SYNDROMES@[11] == 0xce48u16);
    let s12 = s11 ^ (if (w >> 18u32) & 1 == 1 { 0xce48u16 } else { 0u16 });
    assert(sum_of_columns(w, 12) == s12);
    assert(COL_SYNDROMES@[12] == 0xd690u16);
    let s13 = s12 ^ (if (w >> 17u32) & 1 == 1 { 0xd690u16 } else { 0u16 });
    assert(sum_of_columns(w, 13) == s13);
    assert(COL_SYNDROMES@[13] == 0xe720u16);
    let s14 = s13 ^ (if (w >> 16u32) & 1 == 1 { 0xe720u16 } else { 0u16 });
    assert(sum_of_columns(w, 14) == s14);
    assert(COL_SYNDROMES@[14] == 0x0001u16);
    let s15 = s14 ^ (if (w >> 15u32) & 1 == 1 { 0x0001u16 } else { 0u16 });
    assert(sum_of_columns(w, 15) == s15);
    assert(COL_SYNDROMES@[15] == 0x0002u16);
    let s16 = s15 ^ (if (w >> 14u32) & 1 == 1 { 0x0002u16 } else { 0u16 });
    assert(sum_of_columns(w, 16) == s16);
    assert(COL_SYNDROMES@[16] == 0x0004u16);
    let s17 = s16 ^ (if (w >> 13u32) & 1 == 1 { 0x0004u16 } else { 0u16 });
    assert(sum_of_columns(w, 17) == s17);
    assert(COL_SYNDROMES@[17] == 0x0008u16);
    let s18 = s17 ^ (if (w >> 12u32) & 1 == 1 { 0x0008u16 } else { 0u16 });
    assert(sum_of_columns(w, 18) == s18);
    assert(COL_SYNDROMES@[18] == 0x0010u16);
    let s19 = s18 ^ (if (w >> 11u32) & 1 == 1 { 0x0010u16 } else { 0u16 });
    assert(sum_of_columns(w, 19) == s19);
    assert(COL_SYNDROMES@[19] == 0x0020u16);
    let s20 = s19 ^ (if (w >> 10u32) & 1 == 1 { 0x0020u16 } else { 0u16 });
    assert(sum_of_columns(w, 20) == s20);
    assert(COL_SYNDROMES@[20] == 0x0040u16);
    let s21 = s20 ^ (if (w >> 9u32) & 1 == 1 { 0x0040u16 } else { 0u16 });
    assert(sum_of_columns(w, 21) == s21);
    assert(COL_SYNDROMES@[21] == 0x0080u16);
    let s22 = s21 ^ (if (w >> 8u32) & 1 == 1 { 0x0080u16 } else { 0u16 });
    assert(sum_of_columns(w, 22) == s22);
    assert(COL_SYNDROMES@[22] == 0x0100u16);
    let s23 = s22 ^ (if (w >> 7u32) & 1 == 1 { 0x0100u16 } else { 0u16 });
    assert(sum_of_columns(w, 23) == s23);
    assert(COL_SYNDROMES@[23] == 0x0200u16);
    let s24 = s23 ^ (if (w >> 6u32) & 1 == 1 { 0x0200u16 } else { 0u16 });
    assert(sum_of_columns(w, 24) == s24);
    assert(COL_SYNDROMES@[24] == 0x0400u16);
    let s25 = s24 ^ (if (w >> 5u32) & 1 == 1 { 0x0400u16 } else { 0u16 });
    assert(sum_of_columns(w, 25) == s25);
    assert(COL_SYNDROMES@[25] == 0x0800u16);
    let s26 = s25 ^ (if (w >> 4u32) & 1 == 1 { 0x0800u16 } else { 0u16 });
    assert(sum_of_columns(w, 26) == s26);
    assert(COL_SYNDROMES@[26] == 0x1000u16);
    let s27 = s26 ^ (if (w >> 3u32) & 1 == 1 { 0x1000u16 } else { 0u16 });
    assert(sum_of_columns(w, 27) == s27);
    assert(COL_SYNDROMES@[27] == 0x2000u16);
    let s28 = s27 ^ (if (w >> 2u32) & 1 == 1 { 0x2000u16 } else { 0u16 });
    assert(sum_of_columns(w, 28) == s28);
    assert(COL_SYNDROMES@[28] == 0x4000u16);
    let s29 = s28 ^ (if (w >> 1u32) & 1 == 1 { 0x4000u16 } else { 0u16 });
    assert(sum_of_columns(w, 29) == s29);
    assert(COL_SYNDROMES@[29] == 0x8000u16);
    let s30 = s29 ^ (if (w >> 0u32) & 1 == 1 { 0x8000u16 } else { 0u16 });
    assert(sum_of_columns(w, 30) == s30);
}

/// The bits of a word that are set, counted.
spec fn count_explicit(c: u32) -> int {
    (if (c >> 29u32) & 1 == 1 { 1int } else { 0int })
        + (if (c >> 28u32) & 1 == 1 { 1int } else { 0int })
        + (if (c >> 27u32) & 1 == 1 { 1int } else { 0int })
        + (if (c >> 26u32) & 1 == 1 { 1int } else { 0int })
        + (if (c >> 25u32) & 1 == 1 { 1int } else { 0int })
        + (if (c >> 24u32) & 1 == 1 { 1int } else { 0int })
        + (if (c >> 23u32) & 1 == 1 { 1int } else { 0int })
        + (if (c >> 22u32) & 1 == 1 { 1int } else { 0int })
        + (if (c >> 21u32) & 1 == 1 { 1int } else { 0int })
        + (if (c >> 20u32) & 1 == 1 { 1int } else { 0int })
        + (if (c >> 19u32) & 1 == 1 { 1int } else { 0int })
        + (if (c >> 18u32) & 1 == 1 { 1int } else { 0int })
        + (if (c >> 17u32) & 1 == 1 { 1int } else { 0int })
        + (if (c >> 16u32) & 1 == 1 { 1int } else { 0int })
        + (if (c >> 15u32) & 1 == 1 { 1int } else { 0int })
        + (if (c >> 14u32) & 1 == 1 { 1int } else { 0int })
        + (if (c >> 13u32) & 1 == 1 { 1int } else { 0int })
        + (if (c >> 12u32) & 1 == 1 { 1int } else { 0int })
        + (if (c >> 11u32) & 1 == 1 { 1int } else { 0int })
        + (if (c >> 10u32) & 1 == 1 { 1int } else { 0int })
        + (if (c >> 9u32) & 1 == 1 { 1int } else { 0int })
        + (if (c >> 8u32) & 1 == 1 { 1int } else { 0int })
        + (if (c >> 7u32) & 1 == 1 { 1int } else { 0int })
        + (if (c >> 6u32) & 1 == 1 { 1int } else { 0int })
        + (if (c >> 5u32) & 1 == 1 { 1int } else { 0int })
        + (if (c >> 4u32) & 1 == 1 { 1int } else { 0int })
        + (if (c >> 3u32) & 1 == 1 { 1int } else { 0int })
        + (if (c >> 2u32) & 1 == 1 { 1int } else { 0int })
        + (if (c >> 1u32) & 1 == 1 { 1int } else { 0int })
        + (if (c >> 0u32) & 1 == 1 { 1int } else { 0int })
}

proof fn lemma_count_explicit(c: u32)
    ensures
        weight(c, 30) == count_explicit(c),
{
    assert(weight(c, 0) == 0);
    lemma_weight_step(c, 0, 29);
    lemma_weight_step(c, 1, 28);
    lemma_weight_step(c, 2, 27);
    lemma_weight_step(c, 3, 26);
    lemma_weight_step(c, 4, 25);
    lemma_weight_step(c, 5, 24);
    lemma_weight_step(c, 6, 23);
    lemma_weight_step(c, 7, 22);
    lemma_weight_step(c, 8, 21);
    lemma_weight_step(c, 9, 20);
    lemma_weight_step(c, 10, 19);
    lemma_weight_step(c, 11, 18);
    lemma_weight_step(c, 12, 17);
    lemma_weight_step(c, 13, 16);
    lemma_weight_step(c, 14, 15);
    lemma_weight_step(c, 15, 14);
    lemma_weight_step(c, 16, 13);
    lemma_weight_step(c, 17, 12);
    lemma_weight_step(c, 18, 11);
    lemma_weight_step(c, 19, 10);
    lemma_weight_step(c, 20, 9);
    lemma_weight_step(c, 21, 8);
    lemma_weight_step(c, 22, 7);
    lemma_weight_step(c, 23, 6);
    lemma_weight_step(c, 24, 5);
    lemma_weight_step(c, 25, 4);
    lemma_weight_step(c, 26, 3);
    lemma_weight_step(c, 27, 2);
    lemma_weight_step(c, 28, 1);
    lemma_weight_step(c, 29, 0);
}

proof fn lemma_weight_step(c: u32, n: nat, shift: u32)
    requires
        n < 30,
        shift == 29 - n,
    ensures
        weight(c, n + 1) == weight(c, n) + (if (c >> shift) & 1 == 1 {
            1int
        } else {
            0int
        }),
{
}

/// Every codeword but zero has at least eight bits set.
#[verifier::rlimit(100)]
proof fn lemma_minimum_weight(x: u16, c: u32)
    by (bit_vector)
    requires
        x < 0x4000,
        x != 0,
        c == encoded_explicit(x),
    ensures
        ((c >> 29u32) & 1) + ((c >> 28u32) & 1) + ((c >> 27u32) & 1) + ((c >> 26u32) & 1)
            + ((c >> 25u32) & 1) + ((c >> 24u32) & 1) + ((c >> 23u32) & 1) + ((c >> 22u32) & 1)
            + ((c >> 21u32) & 1) + ((c >> 20u32) & 1) + ((c >> 19u32) & 1) + ((c >> 18u32) & 1)
            + ((c >> 17u32) & 1) + ((c >> 16u32) & 1) + ((c >> 15u32) & 1) + ((c >> 14u32) & 1)
            + ((c >> 13u32) & 1) + ((c >> 12u32) & 1) + ((c >> 11u32) & 1) + ((c >> 10u32) & 1)
            + ((c >> 9u32) & 1) + ((c >> 8u32) & 1) + ((c >> 7u32) & 1) + ((c >> 6u32) & 1)
            + ((c >> 5u32) & 1) + ((c >> 4u32) & 1) + ((c >> 3u32) & 1) + ((c >> 2u32) & 1)
            + ((c >> 1u32) & 1) + ((c >> 0u32) & 1) >= 8,
{
}

proof fn lemma_codeword(x: u16, c: u32)
    by (bit_vector)
    requires
        x < 0x4000,
        c == encoded_explicit(x),
    ensures
        syndrome_explicit(c) == 0,
        c < 0x4000_0000,
        (c >> 16u32) as u16 == x,
{
}

proof fn lemma_kernel(w: u32, x: u16)
    by (bit_vector)
    requires
        w < 0x4000_0000,
        syndrome_explicit(w) == 0,
        x == (w >> 16u32) as u16,
    ensures
        w == encoded_explicit(x),
        x < 0x4000,
{
}

proof fn lemma_linear(a: u32, b: u32)
    by (bit_vector)
    ensures
        syndrome_explicit(a ^ b) == syndrome_explicit(a) ^ syndrome_explicit(b),
{
}

proof fn lemma_xor_u16(a: u16, b: u16)
    by (bit_vector)
    ensures
        a ^ 0 == a,
        0 ^ a == a,
        a ^ a == 0,
        a ^ b == 0 ==> a == b,
{
}

proof fn lemma_xor_u32(a: u32, b: u32)
    by (bit_vector)
    ensures
        a ^ 0 == a,
        0 ^ a == a,
        a ^ b == 0 ==> a == b,
        a < 0x4000_0000 && b < 0x4000_0000 ==> a ^ b < 0x4000_0000,
        (a ^ b) ^ b == a,
{
}

proof fn lemma_flip(p: u32, a: u32, b: u32)
    by (bit_vector)
    requires
        a < 30,
        b < 30,
    ensures
        ((p ^ (1u32 << b)) >> a) & 1 == 1 <==> (((p >> a) & 1 == 1) != (a == b)),
        (0u32 >> a) & 1 != 1,
        (1u32 << b) < 0x4000_0000,
{
}

/// The syndrome of a sum is the sum of the syndromes.
pub proof fn law_syndrome_is_linear(a: u32, b: u32)
    ensures
        syndrome(a ^ b) == syndrome(a) ^ syndrome(b),
{
    lemma_syndrome_explicit(a);
    lemma_syndrome_explicit(b);
    lemma_syndrome_explicit(a ^ b);
    lemma_linear(a, b);
}

/// The code is systematic: a codeword begins with its data, and its syndrome is
/// zero.
pub proof fn law_codeword_holds_its_data(input: u16)
    requires
        input < 0x4000,
    ensures
        (encoded(input) >> 16u32) as u16 == input,
        encoded(input) < 0x4000_0000,
        syndrome(encoded(input)) == 0,
{
    lemma_encoded_explicit(input);
    lemma_syndrome_explicit(encoded(input));
    lemma_codeword(input, encoded(input));
}

/// A word without a syndrome is a codeword.
pub proof fn law_zero_syndrome_is_a_codeword(word: u32)
    requires
        word < 0x4000_0000,
        syndrome(word) == 0,
    ensures
        word == encoded((word >> 16u32) as u16),
{
    let x = (word >> 16u32) as u16;
    lemma_syndrome_explicit(word);
    lemma_encoded_explicit(x);
    lemma_kernel(word, x);
}

/// The words of zero syndrome are the codewords.
pub proof fn law_zero_syndrome_is_exact(word: u32)
    requires
        word < 0x4000_0000,
    ensures
        syndrome(word) == 0 <==> word == encoded((word >> 16u32) as u16),
{
    if syndrome(word) == 0 {
        law_zero_syndrome_is_a_codeword(word);
    }
    if word == encoded((word >> 16u32) as u16) {
        assert((word >> 16u32) < 0x4000) by (bit_vector)
            requires
                word < 0x4000_0000,
        ;
        law_codeword_holds_its_data((word >> 16u32) as u16);
    }
}

/// Two codewords differ in at least eight places.
pub proof fn law_minimum_distance(a: u16, b: u16)
    requires
        a < 0x4000,
        b < 0x4000,
        a != b,
    ensures
        weight(encoded(a) ^ encoded(b), 30) >= 8,
{
    law_codeword_holds_its_data(a);
    law_codeword_holds_its_data(b);
    let w = encoded(a) ^ encoded(b);
    lemma_xor_u32(encoded(a), encoded(b));
    law_syndrome_is_linear(encoded(a), encoded(b));
    lemma_xor_u16(0, 0);
    lemma_kernel_weight(w);
}

proof fn lemma_kernel_weight(w: u32)
    requires
        w < 0x4000_0000,
        w != 0,
        syndrome(w) == 0,
    ensures
        weight(w, 30) >= 8,
{
    let x = (w >> 16u32) as u16;
    lemma_syndrome_explicit(w);
    lemma_kernel(w, x);
    if x == 0 {
        assert(encoded_explicit(0) == 0) by (bit_vector);
    }
    lemma_minimum_weight(x, w);
    lemma_count_explicit(w);
    lemma_bits_are_binary(w);
}

proof fn lemma_bits_are_binary(c: u32)
    ensures
        count_explicit(c) == ((c >> 29u32) & 1) + ((c >> 28u32) & 1) + ((c >> 27u32) & 1)
            + ((c >> 26u32) & 1) + ((c >> 25u32) & 1) + ((c >> 24u32) & 1) + ((c >> 23u32) & 1)
            + ((c >> 22u32) & 1) + ((c >> 21u32) & 1) + ((c >> 20u32) & 1) + ((c >> 19u32) & 1)
            + ((c >> 18u32) & 1) + ((c >> 17u32) & 1) + ((c >> 16u32) & 1) + ((c >> 15u32) & 1)
            + ((c >> 14u32) & 1) + ((c >> 13u32) & 1) + ((c >> 12u32) & 1) + ((c >> 11u32) & 1)
            + ((c >> 10u32) & 1) + ((c >> 9u32) & 1) + ((c >> 8u32) & 1) + ((c >> 7u32) & 1)
            + ((c >> 6u32) & 1) + ((c >> 5u32) & 1) + ((c >> 4u32) & 1) + ((c >> 3u32) & 1)
            + ((c >> 2u32) & 1) + ((c >> 1u32) & 1) + ((c >> 0u32) & 1),
{
    lemma_binary(c >> 29u32);
    lemma_binary(c >> 28u32);
    lemma_binary(c >> 27u32);
    lemma_binary(c >> 26u32);
    lemma_binary(c >> 25u32);
    lemma_binary(c >> 24u32);
    lemma_binary(c >> 23u32);
    lemma_binary(c >> 22u32);
    lemma_binary(c >> 21u32);
    lemma_binary(c >> 20u32);
    lemma_binary(c >> 19u32);
    lemma_binary(c >> 18u32);
    lemma_binary(c >> 17u32);
    lemma_binary(c >> 16u32);
    lemma_binary(c >> 15u32);
    lemma_binary(c >> 14u32);
    lemma_binary(c >> 13u32);
    lemma_binary(c >> 12u32);
    lemma_binary(c >> 11u32);
    lemma_binary(c >> 10u32);
    lemma_binary(c >> 9u32);
    lemma_binary(c >> 8u32);
    lemma_binary(c >> 7u32);
    lemma_binary(c >> 6u32);
    lemma_binary(c >> 5u32);
    lemma_binary(c >> 4u32);
    lemma_binary(c >> 3u32);
    lemma_binary(c >> 2u32);
    lemma_binary(c >> 1u32);
    lemma_binary(c >> 0u32);
}

proof fn lemma_binary(v: u32)
    by (bit_vector)
    ensures
        v & 1 == 0 || v & 1 == 1,
{
}

proof fn lemma_weight_flip(p: u32, place: int, n: nat)
    requires
        0 <= place < 30,
        n <= 30,
    ensures
        weight(p ^ single(place), n) as int == weight(p, n) + if place >= n {
            0int
        } else if code_bit(p, place) {
            -1
        } else {
            1
        },
    decreases n,
{
    if n > 0 {
        lemma_weight_flip(p, place, (n - 1) as nat);
        lemma_flip(p, (29 - (n - 1)) as u32, (29 - place) as u32);
    }
}

proof fn lemma_zero_weight(n: nat)
    requires
        n <= 30,
    ensures
        weight(0, n) == 0,
    decreases n,
{
    if n > 0 {
        lemma_zero_weight((n - 1) as nat);
        lemma_flip(0, (29 - (n - 1)) as u32, 0);
    }
}

/// An error pattern has as many bits set as it has places.
proof fn lemma_errors_weight(n: nat, i: int, j: int, k: int)
    requires
        in_order(n, i, j, k),
    ensures
        weight(errors(n, i, j, k), 30) == n,
        errors(n, i, j, k) < 0x4000_0000,
{
    lemma_zero_weight(30);
    if n >= 1 {
        lemma_weight_flip(0, i, 30);
        lemma_flip(0, (29 - i) as u32, (29 - i) as u32);
        lemma_xor_u32(single(i), 0);
    }
    if n >= 2 {
        lemma_weight_flip(single(i), j, 30);
        lemma_flip(0, (29 - j) as u32, (29 - i) as u32);
        lemma_flip(0, (29 - j) as u32, (29 - j) as u32);
        lemma_xor_u32(single(i), single(j));
    }
    if n >= 3 {
        lemma_weight_flip(single(i) ^ single(j), k, 30);
        lemma_flip(0, (29 - k) as u32, (29 - i) as u32);
        lemma_flip(single(i), (29 - k) as u32, (29 - j) as u32);
        lemma_flip(0, (29 - k) as u32, (29 - k) as u32);
        lemma_xor_u32(single(i) ^ single(j), single(k));
    }
}

proof fn lemma_weight_of_sum(a: u32, b: u32, n: nat)
    requires
        n <= 30,
    ensures
        weight(a ^ b, n) <= weight(a, n) + weight(b, n),
    decreases n,
{
    if n > 0 {
        lemma_weight_of_sum(a, b, (n - 1) as nat);
        lemma_bit_of_sum(a, b, (29 - (n - 1)) as u32);
    }
}

proof fn lemma_bit_of_sum(a: u32, b: u32, s: u32)
    by (bit_vector)
    requires
        s < 30,
    ensures
        ((a ^ b) >> s) & 1 == 1 ==> (a >> s) & 1 == 1 || (b >> s) & 1 == 1,
{
}

/// No two error patterns of up to three bits have the same syndrome.
pub proof fn law_syndrome_determines_the_errors(
    n: nat,
    i: int,
    j: int,
    k: int,
    m: nat,
    p: int,
    q: int,
    r: int,
)
    requires
        in_order(n, i, j, k),
        in_order(m, p, q, r),
        syndrome(errors(n, i, j, k)) == syndrome(errors(m, p, q, r)),
    ensures
        errors(n, i, j, k) == errors(m, p, q, r),
        n == m,
{
    let a = errors(n, i, j, k);
    let b = errors(m, p, q, r);
    lemma_errors_weight(n, i, j, k);
    lemma_errors_weight(m, p, q, r);
    law_syndrome_is_linear(a, b);
    lemma_xor_u16(syndrome(a), syndrome(b));
    lemma_weight_of_sum(a, b, 30);
    lemma_xor_u32(a, b);
    if a ^ b != 0 {
        lemma_kernel_weight(a ^ b);
    }
}

/// The syndrome of one bit is its column.
proof fn lemma_syndrome_of_single(place: int, n: nat)
    requires
        0 <= place < 30,
        n <= 30,
    ensures
        sum_of_columns(single(place), n) == if place < n {
            COL_SYNDROMES@[place]
        } else {
            0
        },
    decreases n,
{
    if n > 0 {
        lemma_syndrome_of_single(place, (n - 1) as nat);
        lemma_flip(0, (29 - (n - 1)) as u32, (29 - place) as u32);
        lemma_xor_u32(single(place), 0);
        lemma_xor_u16(COL_SYNDROMES@[n - 1], 0);
        lemma_xor_u16(COL_SYNDROMES@[place], 0);
        lemma_xor_u16(0, 0);
    }
}

proof fn lemma_syndrome_of_errors(n: nat, i: int, j: int, k: int)
    requires
        in_order(n, i, j, k),
    ensures
        n == 0 ==> syndrome(errors(n, i, j, k)) == 0,
        n == 1 ==> syndrome(errors(n, i, j, k)) == COL_SYNDROMES@[i],
        n == 2 ==> syndrome(errors(n, i, j, k)) == two_columns(i, j),
        n == 3 ==> syndrome(errors(n, i, j, k)) == three_columns(i, j, k),
{
    if n == 0 {
        law_syndrome_is_linear(0, 0);
        lemma_xor_u32(0, 0);
        lemma_xor_u16(syndrome(0), syndrome(0));
    }
    if n >= 1 {
        lemma_syndrome_of_single(i, 30);
    }
    if n >= 2 {
        lemma_syndrome_of_single(j, 30);
        law_syndrome_is_linear(single(i), single(j));
    }
    if n >= 3 {
        lemma_syndrome_of_single(k, 30);
        law_syndrome_is_linear(single(i) ^ single(j), single(k));
    }
}

/// The codeword of fourteen bits of data.
pub fn tetra_rm3014_compute(input: u16) -> (codeword: u32)
    ensures
        codeword == encoded(input),
{
    let mut codeword: u32 = 0;
    let mut i: usize = 0;
    while i < 14
        invariant
            i <= 14,
            codeword == sum_of_rows(input, i as nat),
        decreases 14 - i,
    {
        let shift: u16 = (13 - i) as u16;
        let row: u32 = if (input >> shift) & 1 == 1 {
            RM_30_14_ROWS_PRECOMPUTED[i]
        } else {
            0
        };
        codeword = codeword ^ row;
        i = i + 1;
    }
    codeword
}

/// The data of a codeword, without any correction.
pub fn tetra_rm3014_decode_naive(codeword: u32) -> (data: u16)
    ensures
        data == (codeword >> 16u32) as u16,
{
    #[verifier::truncate] ((codeword >> 16u32) as u16)
}

/// The column of one bit, read from the generator matrix: bit `row` is set where
/// that parity covers the bit.
#[verifier::opaque]
pub open spec fn column_bit(column: int, row: int) -> bool {
    if column < 14 {
        RM_30_14_GEN@[column]@[row] == 1
    } else {
        column - 14 == row
    }
}

/// Whether bit `index` is set, counted from the least significant one.
pub open spec fn bit_at(value: u16, index: int) -> bool {
    (value >> (index as u16)) & 1 == 1
}

fn column_of(k: usize) -> (column: u16)
    requires
        k < 30,
    ensures
        forall|r: int|
            0 <= r < 16 ==> #[trigger] bit_at(column, r) == column_bit(k as int, r),
{
    let mut column: u16 = 0;
    let mut j: u16 = 0;
    proof {
        assert forall|r: int| 0 <= r < 16 implies !#[trigger] bit_at(0, r) by {
            lemma_set_bit(0, 0, r as u16);
        }
    }
    while j < 16
        invariant
            j <= 16,
            k < 30,
            forall|r: int|
                0 <= r < j ==> #[trigger] bit_at(column, r) == column_bit(k as int, r),
            forall|r: int| j <= r < 16 ==> !#[trigger] bit_at(column, r),
        decreases 16 - j,
    {
        let bit: bool = if k < 14 {
            RM_30_14_GEN[k][j as usize] == 1
        } else {
            k - 14 == j as usize
        };
        assert(bit == column_bit(k as int, j as int)) by {
            reveal(column_bit);
        }
        let ghost before = column;
        if bit {
            column = column | (1u16 << j);
        }
        proof {
            assert forall|r: int| 0 <= r < 16 implies #[trigger] bit_at(column, r) == (bit_at(
                before,
                r,
            ) || (bit && r == j)) by {
                lemma_set_bit(before, j, r as u16);
            }
        }
        j = j + 1;
    }
    column
}

/// The bits of the columns of the data, written out.
proof fn lemma_column_constants()
    by (bit_vector)
    ensures
        (0x06d9u16 >> 0u16) & 1 == 1,
        (0x06d9u16 >> 1u16) & 1 != 1,
        (0x06d9u16 >> 2u16) & 1 != 1,
        (0x06d9u16 >> 3u16) & 1 == 1,
        (0x06d9u16 >> 4u16) & 1 == 1,
        (0x06d9u16 >> 5u16) & 1 != 1,
        (0x06d9u16 >> 6u16) & 1 == 1,
        (0x06d9u16 >> 7u16) & 1 == 1,
        (0x06d9u16 >> 8u16) & 1 != 1,
        (0x06d9u16 >> 9u16) & 1 == 1,
        (0x06d9u16 >> 10u16) & 1 == 1,
        (0x06d9u16 >> 11u16) & 1 != 1,
        (0x06d9u16 >> 12u16) & 1 != 1,
        (0x06d9u16 >> 13u16) & 1 != 1,
        (0x06d9u16 >> 14u16) & 1 != 1,
        (0x06d9u16 >> 15u16) & 1 != 1,
        (0x07b4u16 >> 0u16) & 1 != 1,
        (0x07b4u16 >> 1u16) & 1 != 1,
        (0x07b4u16 >> 2u16) & 1 == 1,
        (0x07b4u16 >> 3u16) & 1 != 1,
        (0x07b4u16 >> 4u16) & 1 == 1,
        (0x07b4u16 >> 5u16) & 1 == 1,
        (0x07b4u16 >> 6u16) & 1 != 1,
        (0x07b4u16 >> 7u16) & 1 == 1,
        (0x07b4u16 >> 8u16) & 1 == 1,
        (0x07b4u16 >> 9u16) & 1 == 1,
        (0x07b4u16 >> 10u16) & 1 == 1,
        (0x07b4u16 >> 11u16) & 1 != 1,
        (0x07b4u16 >> 12u16) & 1 != 1,
        (0x07b4u16 >> 13u16) & 1 != 1,
        (0x07b4u16 >> 14u16) & 1 != 1,
        (0x07b4u16 >> 15u16) & 1 != 1,
        (0x043fu16 >> 0u16) & 1 == 1,
        (0x043fu16 >> 1u16) & 1 == 1,
        (0x043fu16 >> 2u16) & 1 == 1,
        (0x043fu16 >> 3u16) & 1 == 1,
        (0x043fu16 >> 4u16) & 1 == 1,
        (0x043fu16 >> 5u16) & 1 == 1,
        (0x043fu16 >> 6u16) & 1 != 1,
        (0x043fu16 >> 7u16) & 1 != 1,
        (0x043fu16 >> 8u16) & 1 != 1,
        (0x043fu16 >> 9u16) & 1 != 1,
        (0x043fu16 >> 10u16) & 1 == 1,
        (0x043fu16 >> 11u16) & 1 != 1,
        (0x043fu16 >> 12u16) & 1 != 1,
        (0x043fu16 >> 13u16) & 1 != 1,
        (0x043fu16 >> 14u16) & 1 != 1,
        (0x043fu16 >> 15u16) & 1 != 1,
        (0x3c07u16 >> 0u16) & 1 == 1,
        (0x3c07u16 >> 1u16) & 1 == 1,
        (0x3c07u16 >> 2u16) & 1 == 1,
        (0x3c07u16 >> 3u16) & 1 != 1,
        (0x3c07u16 >> 4u16) & 1 != 1,
        (0x3c07u16 >> 5u16) & 1 != 1,
        (0x3c07u16 >> 6u16) & 1 != 1,
        (0x3c07u16 >> 7u16) & 1 != 1,
        (0x3c07u16 >> 8u16) & 1 != 1,
        (0x3c07u16 >> 9u16) & 1 != 1,
        (0x3c07u16 >> 10u16) & 1 == 1,
        (0x3c07u16 >> 11u16) & 1 == 1,
        (0x3c07u16 >> 12u16) & 1 == 1,
        (0x3c07u16 >> 13u16) & 1 == 1,
        (0x3c07u16 >> 14u16) & 1 != 1,
        (0x3c07u16 >> 15u16) & 1 != 1,
        (0x5c19u16 >> 0u16) & 1 == 1,
        (0x5c19u16 >> 1u16) & 1 != 1,
        (0x5c19u16 >> 2u16) & 1 != 1,
        (0x5c19u16 >> 3u16) & 1 == 1,
        (0x5c19u16 >> 4u16) & 1 == 1,
        (0x5c19u16 >> 5u16) & 1 != 1,
        (0x5c19u16 >> 6u16) & 1 != 1,
        (0x5c19u16 >> 7u16) & 1 != 1,
        (0x5c19u16 >> 8u16) & 1 != 1,
        (0x5c19u16 >> 9u16) & 1 != 1,
        (0x5c19u16 >> 10u16) & 1 == 1,
        (0x5c19u16 >> 11u16) & 1 == 1,
        (0x5c19u16 >> 12u16) & 1 == 1,
        (0x5c19u16 >> 13u16) & 1 != 1,
        (0x5c19u16 >> 14u16) & 1 == 1,
        (0x5c19u16 >> 15u16) & 1 != 1,
        (0x6c2au16 >> 0u16) & 1 != 1,
        (0x6c2au16 >> 1u16) & 1 == 1,
        (0x6c2au16 >> 2u16) & 1 != 1,
        (0x6c2au16 >> 3u16) & 1 == 1,
        (0x6c2au16 >> 4u16) & 1 != 1,
        (0x6c2au16 >> 5u16) & 1 == 1,
        (0x6c2au16 >> 6u16) & 1 != 1,
        (0x6c2au16 >> 7u16) & 1 != 1,
        (0x6c2au16 >> 8u16) & 1 != 1,
        (0x6c2au16 >> 9u16) & 1 != 1,
        (0x6c2au16 >> 10u16) & 1 == 1,
        (0x6c2au16 >> 11u16) & 1 == 1,
        (0x6c2au16 >> 12u16) & 1 != 1,
        (0x6c2au16 >> 13u16) & 1 == 1,
        (0x6c2au16 >> 14u16) & 1 == 1,
        (0x6c2au16 >> 15u16) & 1 != 1,
        (0x7434u16 >> 0u16) & 1 != 1,
        (0x7434u16 >> 1u16) & 1 != 1,
        (0x7434u16 >> 2u16) & 1 == 1,
        (0x7434u16 >> 3u16) & 1 != 1,
        (0x7434u16 >> 4u16) & 1 == 1,
        (0x7434u16 >> 5u16) & 1 == 1,
        (0x7434u16 >> 6u16) & 1 != 1,
        (0x7434u16 >> 7u16) & 1 != 1,
        (0x7434u16 >> 8u16) & 1 != 1,
        (0x7434u16 >> 9u16) & 1 != 1,
        (0x7434u16 >> 10u16) & 1 == 1,
        (0x7434u16 >> 11u16) & 1 != 1,
        (0x7434u16 >> 12u16) & 1 == 1,
        (0x7434u16 >> 13u16) & 1 == 1,
        (0x7434u16 >> 14u16) & 1 == 1,
        (0x7434u16 >> 15u16) & 1 != 1,
        (0xfbffu16 >> 0u16) & 1 == 1,
        (0xfbffu16 >> 1u16) & 1 == 1,
        (0xfbffu16 >> 2u16) & 1 == 1,
        (0xfbffu16 >> 3u16) & 1 == 1,
        (0xfbffu16 >> 4u16) & 1 == 1,
        (0xfbffu16 >> 5u16) & 1 == 1,
        (0xfbffu16 >> 6u16) & 1 == 1,
        (0xfbffu16 >> 7u16) & 1 == 1,
        (0xfbffu16 >> 8u16) & 1 == 1,
        (0xfbffu16 >> 9u16) & 1 == 1,
        (0xfbffu16 >> 10u16) & 1 != 1,
        (0xfbffu16 >> 11u16) & 1 == 1,
        (0xfbffu16 >> 12u16) & 1 == 1,
        (0xfbffu16 >> 13u16) & 1 == 1,
        (0xfbffu16 >> 14u16) & 1 == 1,
        (0xfbffu16 >> 15u16) & 1 == 1,
        (0x9cc1u16 >> 0u16) & 1 == 1,
        (0x9cc1u16 >> 1u16) & 1 != 1,
        (0x9cc1u16 >> 2u16) & 1 != 1,
        (0x9cc1u16 >> 3u16) & 1 != 1,
        (0x9cc1u16 >> 4u16) & 1 != 1,
        (0x9cc1u16 >> 5u16) & 1 != 1,
        (0x9cc1u16 >> 6u16) & 1 == 1,
        (0x9cc1u16 >> 7u16) & 1 == 1,
        (0x9cc1u16 >> 8u16) & 1 != 1,
        (0x9cc1u16 >> 9u16) & 1 != 1,
        (0x9cc1u16 >> 10u16) & 1 == 1,
        (0x9cc1u16 >> 11u16) & 1 == 1,
        (0x9cc1u16 >> 12u16) & 1 == 1,
        (0x9cc1u16 >> 13u16) & 1 != 1,
        (0x9cc1u16 >> 14u16) & 1 != 1,
        (0x9cc1u16 >> 15u16) & 1 == 1,
        (0xad42u16 >> 0u16) & 1 != 1,
        (0xad42u16 >> 1u16) & 1 == 1,
        (0xad42u16 >> 2u16) & 1 != 1,
        (0xad42u16 >> 3u16) & 1 != 1,
        (0xad42u16 >> 4u16) & 1 != 1,
        (0xad42u16 >> 5u16) & 1 != 1,
        (0xad42u16 >> 6u16) & 1 == 1,
        (0xad42u16 >> 7u16) & 1 != 1,
        (0xad42u16 >> 8u16) & 1 == 1,
        (0xad42u16 >> 9u16) & 1 != 1,
        (0xad42u16 >> 10u16) & 1 == 1,
        (0xad42u16 >> 11u16) & 1 == 1,
        (0xad42u16 >> 12u16) & 1 != 1,
        (0xad42u16 >> 13u16) & 1 == 1,
        (0xad42u16 >> 14u16) & 1 != 1,
        (0xad42u16 >> 15u16) & 1 == 1,
        (0xb584u16 >> 0u16) & 1 != 1,
        (0xb584u16 >> 1u16) & 1 != 1,
        (0xb584u16 >> 2u16) & 1 == 1,
        (0xb584u16 >> 3u16) & 1 != 1,
        (0xb584u16 >> 4u16) & 1 != 1,
        (0xb584u16 >> 5u16) & 1 != 1,
        (0xb584u16 >> 6u16) & 1 != 1,
        (0xb584u16 >> 7u16) & 1 == 1,
        (0xb584u16 >> 8u16) & 1 == 1,
        (0xb584u16 >> 9u16) & 1 != 1,
        (0xb584u16 >> 10u16) & 1 == 1,
        (0xb584u16 >> 11u16) & 1 != 1,
        (0xb584u16 >> 12u16) & 1 == 1,
        (0xb584u16 >> 13u16) & 1 == 1,
        (0xb584u16 >> 14u16) & 1 != 1,
        (0xb584u16 >> 15u16) & 1 == 1,
        (0xce48u16 >> 0u16) & 1 != 1,
        (0xce48u16 >> 1u16) & 1 != 1,
        (0xce48u16 >> 2u16) & 1 != 1,
        (0xce48u16 >> 3u16) & 1 == 1,
        (0xce48u16 >> 4u16) & 1 != 1,
        (0xce48u16 >> 5u16) & 1 != 1,
        (0xce48u16 >> 6u16) & 1 == 1,
        (0xce48u16 >> 7u16) & 1 != 1,
        (0xce48u16 >> 8u16) & 1 != 1,
        (0xce48u16 >> 9u16) & 1 == 1,
        (0xce48u16 >> 10u16) & 1 == 1,
        (0xce48u16 >> 11u16) & 1 == 1,
        (0xce48u16 >> 12u16) & 1 != 1,
        (0xce48u16 >> 13u16) & 1 != 1,
        (0xce48u16 >> 14u16) & 1 == 1,
        (0xce48u16 >> 15u16) & 1 == 1,
        (0xd690u16 >> 0u16) & 1 != 1,
        (0xd690u16 >> 1u16) & 1 != 1,
        (0xd690u16 >> 2u16) & 1 != 1,
        (0xd690u16 >> 3u16) & 1 != 1,
        (0xd690u16 >> 4u16) & 1 == 1,
        (0xd690u16 >> 5u16) & 1 != 1,
        (0xd690u16 >> 6u16) & 1 != 1,
        (0xd690u16 >> 7u16) & 1 == 1,
        (0xd690u16 >> 8u16) & 1 != 1,
        (0xd690u16 >> 9u16) & 1 == 1,
        (0xd690u16 >> 10u16) & 1 == 1,
        (0xd690u16 >> 11u16) & 1 != 1,
        (0xd690u16 >> 12u16) & 1 == 1,
        (0xd690u16 >> 13u16) & 1 != 1,
        (0xd690u16 >> 14u16) & 1 == 1,
        (0xd690u16 >> 15u16) & 1 == 1,
        (0xe720u16 >> 0u16) & 1 != 1,
        (0xe720u16 >> 1u16) & 1 != 1,
        (0xe720u16 >> 2u16) & 1 != 1,
        (0xe720u16 >> 3u16) & 1 != 1,
        (0xe720u16 >> 4u16) & 1 != 1,
        (0xe720u16 >> 5u16) & 1 == 1,
        (0xe720u16 >> 6u16) & 1 != 1,
        (0xe720u16 >> 7u16) & 1 != 1,
        (0xe720u16 >> 8u16) & 1 == 1,
        (0xe720u16 >> 9u16) & 1 == 1,
        (0xe720u16 >> 10u16) & 1 == 1,
        (0xe720u16 >> 11u16) & 1 != 1,
        (0xe720u16 >> 12u16) & 1 != 1,
        (0xe720u16 >> 13u16) & 1 == 1,
        (0xe720u16 >> 14u16) & 1 == 1,
        (0xe720u16 >> 15u16) & 1 == 1,
        0x0001u16 == 0 | (1u16 << 0u16),
        0x0002u16 == 0 | (1u16 << 1u16),
        0x0004u16 == 0 | (1u16 << 2u16),
        0x0008u16 == 0 | (1u16 << 3u16),
        0x0010u16 == 0 | (1u16 << 4u16),
        0x0020u16 == 0 | (1u16 << 5u16),
        0x0040u16 == 0 | (1u16 << 6u16),
        0x0080u16 == 0 | (1u16 << 7u16),
        0x0100u16 == 0 | (1u16 << 8u16),
        0x0200u16 == 0 | (1u16 << 9u16),
        0x0400u16 == 0 | (1u16 << 10u16),
        0x0800u16 == 0 | (1u16 << 11u16),
        0x1000u16 == 0 | (1u16 << 12u16),
        0x2000u16 == 0 | (1u16 << 13u16),
        0x4000u16 == 0 | (1u16 << 14u16),
        0x8000u16 == 0 | (1u16 << 15u16),
{
}

proof fn lemma_sixteen(holds: spec_fn(int) -> bool)
    requires
        holds(0),
        holds(1),
        holds(2),
        holds(3),
        holds(4),
        holds(5),
        holds(6),
        holds(7),
        holds(8),
        holds(9),
        holds(10),
        holds(11),
        holds(12),
        holds(13),
        holds(14),
        holds(15),
    ensures
        forall|j: int| 0 <= j < 16 ==> #[trigger] holds(j),
{
}

proof fn lemma_data_column(k: int)
    requires
        0 <= k < 14,
    ensures
        forall|j: int|
            0 <= j < 16 ==> #[trigger] bit_at(COL_SYNDROMES@[k], j) == column_bit(k, j),
{
    reveal(column_bit);
    lemma_column_constants();
    let agree = |j: int| bit_at(COL_SYNDROMES@[k], j) == column_bit(k, j);
    if k == 0 {
        assert(COL_SYNDROMES@[0] == 0x06d9);
        lemma_sixteen(agree);
    } else if k == 1 {
        assert(COL_SYNDROMES@[1] == 0x07b4);
        lemma_sixteen(agree);
    } else if k == 2 {
        assert(COL_SYNDROMES@[2] == 0x043f);
        lemma_sixteen(agree);
    } else if k == 3 {
        assert(COL_SYNDROMES@[3] == 0x3c07);
        lemma_sixteen(agree);
    } else if k == 4 {
        assert(COL_SYNDROMES@[4] == 0x5c19);
        lemma_sixteen(agree);
    } else if k == 5 {
        assert(COL_SYNDROMES@[5] == 0x6c2a);
        lemma_sixteen(agree);
    } else if k == 6 {
        assert(COL_SYNDROMES@[6] == 0x7434);
        lemma_sixteen(agree);
    } else if k == 7 {
        assert(COL_SYNDROMES@[7] == 0xfbff);
        lemma_sixteen(agree);
    } else if k == 8 {
        assert(COL_SYNDROMES@[8] == 0x9cc1);
        lemma_sixteen(agree);
    } else if k == 9 {
        assert(COL_SYNDROMES@[9] == 0xad42);
        lemma_sixteen(agree);
    } else if k == 10 {
        assert(COL_SYNDROMES@[10] == 0xb584);
        lemma_sixteen(agree);
    } else if k == 11 {
        assert(COL_SYNDROMES@[11] == 0xce48);
        lemma_sixteen(agree);
    } else if k == 12 {
        assert(COL_SYNDROMES@[12] == 0xd690);
        lemma_sixteen(agree);
    } else if k == 13 {
        assert(COL_SYNDROMES@[13] == 0xe720);
        lemma_sixteen(agree);
    }
    assert forall|j: int| 0 <= j < 16 implies #[trigger] bit_at(COL_SYNDROMES@[k], j)
        == column_bit(k, j) by {
        assert(agree(j));
    }
}

proof fn lemma_parity_column(k: int)
    requires
        14 <= k < 30,
    ensures
        forall|j: int|
            0 <= j < 16 ==> #[trigger] bit_at(COL_SYNDROMES@[k], j) == column_bit(k, j),
{
    reveal(column_bit);
    lemma_column_constants();
    assert(COL_SYNDROMES@[k] == 0 | (1u16 << ((k - 14) as u16)));
    assert forall|j: int| 0 <= j < 16 implies #[trigger] bit_at(COL_SYNDROMES@[k], j)
        == column_bit(k, j) by {
        lemma_set_bit(0, (k - 14) as u16, j as u16);
    }
}

/// The table of columns is the one that the generator matrix gives.
pub proof fn law_columns_are_of_the_generator(k: int)
    requires
        0 <= k < 30,
    ensures
        forall|j: int|
            0 <= j < 16 ==> #[trigger] bit_at(COL_SYNDROMES@[k], j) == column_bit(k, j),
{
    if k < 14 {
        lemma_data_column(k);
    } else {
        lemma_parity_column(k);
    }
}

proof fn lemma_same_bits(a: u16, b: u16)
    requires
        forall|j: int| 0 <= j < 16 ==> #[trigger] bit_at(a, j) == bit_at(b, j),
    ensures
        a == b,
{
    assert(bit_at(a, 0) == bit_at(b, 0));
    assert(bit_at(a, 1) == bit_at(b, 1));
    assert(bit_at(a, 2) == bit_at(b, 2));
    assert(bit_at(a, 3) == bit_at(b, 3));
    assert(bit_at(a, 4) == bit_at(b, 4));
    assert(bit_at(a, 5) == bit_at(b, 5));
    assert(bit_at(a, 6) == bit_at(b, 6));
    assert(bit_at(a, 7) == bit_at(b, 7));
    assert(bit_at(a, 8) == bit_at(b, 8));
    assert(bit_at(a, 9) == bit_at(b, 9));
    assert(bit_at(a, 10) == bit_at(b, 10));
    assert(bit_at(a, 11) == bit_at(b, 11));
    assert(bit_at(a, 12) == bit_at(b, 12));
    assert(bit_at(a, 13) == bit_at(b, 13));
    assert(bit_at(a, 14) == bit_at(b, 14));
    assert(bit_at(a, 15) == bit_at(b, 15));
    assert(a == b) by (bit_vector)
        requires
            ((a >> 0u16) & 1 == 1) == ((b >> 0u16) & 1 == 1),
            ((a >> 1u16) & 1 == 1) == ((b >> 1u16) & 1 == 1),
            ((a >> 2u16) & 1 == 1) == ((b >> 2u16) & 1 == 1),
            ((a >> 3u16) & 1 == 1) == ((b >> 3u16) & 1 == 1),
            ((a >> 4u16) & 1 == 1) == ((b >> 4u16) & 1 == 1),
            ((a >> 5u16) & 1 == 1) == ((b >> 5u16) & 1 == 1),
            ((a >> 6u16) & 1 == 1) == ((b >> 6u16) & 1 == 1),
            ((a >> 7u16) & 1 == 1) == ((b >> 7u16) & 1 == 1),
            ((a >> 8u16) & 1 == 1) == ((b >> 8u16) & 1 == 1),
            ((a >> 9u16) & 1 == 1) == ((b >> 9u16) & 1 == 1),
            ((a >> 10u16) & 1 == 1) == ((b >> 10u16) & 1 == 1),
            ((a >> 11u16) & 1 == 1) == ((b >> 11u16) & 1 == 1),
            ((a >> 12u16) & 1 == 1) == ((b >> 12u16) & 1 == 1),
            ((a >> 13u16) & 1 == 1) == ((b >> 13u16) & 1 == 1),
            ((a >> 14u16) & 1 == 1) == ((b >> 14u16) & 1 == 1),
            ((a >> 15u16) & 1 == 1) == ((b >> 15u16) & 1 == 1),
    ;
}

/// The syndrome of a single bit is its column.
pub proof fn law_syndrome_of_a_single_bit(place: int)
    requires
        0 <= place < 30,
    ensures
        syndrome(single(place)) == COL_SYNDROMES@[place],
{
    lemma_syndrome_of_single(place, 30);
}

/// The syndrome of each single bit, computed from the generator matrix.
pub fn compute_col_syndromes() -> (columns: [u16; 30])
    ensures
        forall|k: int, j: int|
            0 <= k < 30 && 0 <= j < 16 ==> #[trigger] bit_at(columns@[k], j) == column_bit(k, j),
        columns@ == COL_SYNDROMES@,
        forall|k: int| 0 <= k < 30 ==> #[trigger] columns@[k] == syndrome(single(k)),
{
    let mut columns: [u16; 30] = [0; 30];
    let mut k: usize = 0;
    while k < 30
        invariant
            k <= 30,
            forall|c: int, j: int|
                0 <= c < k && 0 <= j < 16 ==> #[trigger] bit_at(columns@[c], j) == column_bit(c, j),
        decreases 30 - k,
    {
        columns[k] = column_of(k);
        k = k + 1;
    }
    proof {
        assert forall|c: int| 0 <= c < 30 implies #[trigger] columns@[c] == COL_SYNDROMES@[c] by {
            law_columns_are_of_the_generator(c);
            assert forall|j: int| 0 <= j < 16 implies #[trigger] bit_at(columns@[c], j) == bit_at(
                COL_SYNDROMES@[c],
                j,
            ) by {
                assert(bit_at(COL_SYNDROMES@[c], j) == column_bit(c, j));
            }
            lemma_same_bits(columns@[c], COL_SYNDROMES@[c]);
        }
        assert(columns@ =~= COL_SYNDROMES@);
        assert forall|c: int| 0 <= c < 30 implies #[trigger] columns@[c] == syndrome(
            single(c),
        ) by {
            law_syndrome_of_a_single_bit(c);
        }
    }
    columns
}

proof fn lemma_set_bit(v: u16, j: u16, r: u16)
    by (bit_vector)
    requires
        j < 16,
        r < 16,
    ensures
        (((v | (1u16 << j)) >> r) & 1 == 1) == ((v >> r) & 1 == 1 || r == j),
        (0u16 >> r) & 1 != 1,
{
}

/// The syndrome of a word of thirty bits.
pub fn compute_syndrome(codeword: u32) -> (s: u16)
    ensures
        s == syndrome(codeword),
{
    let mut s: u16 = 0;
    let mut k: usize = 0;
    while k < 30
        invariant
            k <= 30,
            s == sum_of_columns(codeword, k as nat),
        decreases 30 - k,
    {
        let shift: u32 = (29 - k) as u32;
        let column: u16 = if (codeword >> shift) & 1 == 1 {
            COL_SYNDROMES[k]
        } else {
            0
        };
        s = s ^ column;
        k = k + 1;
    }
    s
}

fn bit_mask(place: usize) -> (mask: u32)
    requires
        place < 30,
    ensures
        mask == single(place as int),
{
    let shift: u32 = (29 - place) as u32;
    1u32 << shift
}

fn find_one(s: u16) -> (place: Option<usize>)
    ensures
        match place {
            Some(i) => i < 30 && COL_SYNDROMES@[i as int] == s,
            None => forall|i: int| 0 <= i < 30 ==> #[trigger] COL_SYNDROMES@[i] != s,
        },
{
    let mut i: usize = 0;
    while i < 30
        invariant
            i <= 30,
            forall|a: int| 0 <= a < i ==> #[trigger] COL_SYNDROMES@[a] != s,
        decreases 30 - i,
    {
        if COL_SYNDROMES[i] == s {
            return Some(i);
        }
        i = i + 1;
    }
    None
}

/// The syndrome of two bits.
pub open spec fn two_columns(i: int, j: int) -> u16 {
    COL_SYNDROMES@[i] ^ COL_SYNDROMES@[j]
}

/// The syndrome of three bits.
pub open spec fn three_columns(i: int, j: int, k: int) -> u16 {
    COL_SYNDROMES@[i] ^ COL_SYNDROMES@[j] ^ COL_SYNDROMES@[k]
}

fn find_two(s: u16) -> (places: Option<(usize, usize)>)
    ensures
        match places {
            Some((i, j)) => i < j < 30 && two_columns(i as int, j as int) == s,
            None => forall|i: int, j: int|
                0 <= i < j < 30 ==> #[trigger] two_columns(i, j) != s,
        },
{
    let mut i: usize = 0;
    while i < 29
        invariant
            i <= 29,
            forall|a: int, b: int|
                0 <= a < i && a < b < 30 ==> #[trigger] two_columns(a, b) != s,
        decreases 29 - i,
    {
        let mut j: usize = i + 1;
        while j < 30
            invariant
                i < j <= 30,
                i < 29,
                forall|b: int|
                    i < b < j ==> #[trigger] two_columns(i as int, b) != s,
            decreases 30 - j,
        {
            if COL_SYNDROMES[i] ^ COL_SYNDROMES[j] == s {
                return Some((i, j));
            }
            j = j + 1;
        }
        i = i + 1;
    }
    None
}

fn find_three(s: u16) -> (places: Option<(usize, usize, usize)>)
    ensures
        match places {
            Some((i, j, k)) => i < j < k < 30 && three_columns(i as int, j as int, k as int) == s,
            None => forall|i: int, j: int, k: int|
                0 <= i < j < k < 30 ==> #[trigger] three_columns(i, j, k) != s,
        },
{
    let mut i: usize = 0;
    while i < 28
        invariant
            i <= 28,
            forall|a: int, b: int, c: int|
                0 <= a < i && a < b < c < 30 ==> #[trigger] three_columns(a, b, c) != s,
        decreases 28 - i,
    {
        let mut j: usize = i + 1;
        while j < 29
            invariant
                i < j <= 29,
                i < 28,
                forall|b: int, c: int|
                    i < b < j && b < c < 30 ==> #[trigger] three_columns(i as int, b, c) != s,
            decreases 29 - j,
        {
            let mut k: usize = j + 1;
            while k < 30
                invariant
                    i < j < k <= 30,
                    j < 29,
                    forall|c: int|
                        j < c < k ==> #[trigger] three_columns(i as int, j as int, c) != s,
                decreases 30 - k,
            {
                if COL_SYNDROMES[i] ^ COL_SYNDROMES[j] ^ COL_SYNDROMES[k] == s {
                    return Some((i, j, k));
                }
                k = k + 1;
            }
            j = j + 1;
        }
        i = i + 1;
    }
    None
}

/// Whether the data is that of a word with the errors at these places undone,
/// and the errors explain the syndrome.
pub open spec fn corrects(
    codeword: u32,
    decoded: Rm3014Decoded,
    i: int,
    j: int,
    k: int,
) -> bool {
    let pattern = errors(decoded.corrected_bits as nat, i, j, k);
    &&& in_order(decoded.corrected_bits as nat, i, j, k)
    &&& syndrome(pattern) == syndrome(codeword)
    &&& decoded.data == ((codeword ^ pattern) >> 16u32) as u16
}

/// Whether the data is that of a word with up to three errors undone that
/// explain the syndrome.
pub open spec fn is_corrected(codeword: u32, decoded: Rm3014Decoded) -> bool {
    exists|i: int, j: int, k: int| #[trigger] corrects(codeword, decoded, i, j, k)
}

proof fn lemma_is_corrected(codeword: u32, decoded: Rm3014Decoded, i: int, j: int, k: int)
    requires
        corrects(codeword, decoded, i, j, k),
    ensures
        is_corrected(codeword, decoded),
{
}

/// How many bits of a word differ from the codeword of some data.
pub open spec fn distance(codeword: u32, data: u16) -> nat {
    weight(codeword ^ encoded(data), 30)
}

proof fn lemma_last_place(e: u32, m: nat) -> (place: int)
    requires
        m <= 30,
        weight(e, m) > 0,
    ensures
        0 <= place < m,
        code_bit(e, place),
        weight(e, m) == weight(e, place as nat) + 1,
    decreases m,
{
    if code_bit(e, m - 1) {
        m - 1
    } else {
        lemma_last_place(e, (m - 1) as nat)
    }
}

proof fn lemma_no_bits(e: u32)
    requires
        e < 0x4000_0000,
        weight(e, 30) == 0,
    ensures
        e == 0,
{
    lemma_count_explicit(e);
    assert(e == 0) by (bit_vector)
        requires
            e < 0x4000_0000,
            (e >> 0u32) & 1 != 1,
            (e >> 1u32) & 1 != 1,
            (e >> 2u32) & 1 != 1,
            (e >> 3u32) & 1 != 1,
            (e >> 4u32) & 1 != 1,
            (e >> 5u32) & 1 != 1,
            (e >> 6u32) & 1 != 1,
            (e >> 7u32) & 1 != 1,
            (e >> 8u32) & 1 != 1,
            (e >> 9u32) & 1 != 1,
            (e >> 10u32) & 1 != 1,
            (e >> 11u32) & 1 != 1,
            (e >> 12u32) & 1 != 1,
            (e >> 13u32) & 1 != 1,
            (e >> 14u32) & 1 != 1,
            (e >> 15u32) & 1 != 1,
            (e >> 16u32) & 1 != 1,
            (e >> 17u32) & 1 != 1,
            (e >> 18u32) & 1 != 1,
            (e >> 19u32) & 1 != 1,
            (e >> 20u32) & 1 != 1,
            (e >> 21u32) & 1 != 1,
            (e >> 22u32) & 1 != 1,
            (e >> 23u32) & 1 != 1,
            (e >> 24u32) & 1 != 1,
            (e >> 25u32) & 1 != 1,
            (e >> 26u32) & 1 != 1,
            (e >> 27u32) & 1 != 1,
            (e >> 28u32) & 1 != 1,
            (e >> 29u32) & 1 != 1,
    ;
}

proof fn lemma_xor_back(e: u32, a: u32, b: u32, c: u32)
    by (bit_vector)
    ensures
        (e ^ a) == 0 ==> e == a,
        ((e ^ b) ^ a) == 0 ==> e == a ^ b,
        (((e ^ c) ^ b) ^ a) == 0 ==> e == (a ^ b) ^ c,
{
}

/// Every word of weight three or less is an error pattern.
pub proof fn law_light_word_is_an_error_pattern(e: u32) -> (places: (int, int, int))
    requires
        e < 0x4000_0000,
        weight(e, 30) <= 3,
    ensures
        in_order(weight(e, 30), places.0, places.1, places.2),
        errors(weight(e, 30), places.0, places.1, places.2) == e,
{
    let n = weight(e, 30);
    if n == 0 {
        lemma_no_bits(e);
        (0, 0, 0)
    } else {
        let p = lemma_last_place(e, 30);
        let without_p = e ^ single(p);
        lemma_weight_flip(e, p, 30);
        lemma_flip(e, 0, (29 - p) as u32);
        lemma_xor_u32(e, single(p));
        if n == 1 {
            lemma_no_bits(without_p);
            lemma_xor_back(e, single(p), 0, 0);
            (p, p, p)
        } else {
            let q = lemma_last_place(e, p as nat);
            lemma_flip(e, (29 - q) as u32, (29 - p) as u32);
            let without_q = without_p ^ single(q);
            lemma_weight_flip(without_p, q, 30);
            lemma_flip(e, 0, (29 - q) as u32);
            lemma_xor_u32(without_p, single(q));
            if n == 2 {
                lemma_no_bits(without_q);
                lemma_xor_back(e, single(q), single(p), 0);
                (q, p, p)
            } else {
                let r = lemma_last_place(e, q as nat);
                lemma_flip(e, (29 - r) as u32, (29 - p) as u32);
                lemma_flip(without_p, (29 - r) as u32, (29 - q) as u32);
                let without_r = without_q ^ single(r);
                lemma_weight_flip(without_q, r, 30);
                lemma_flip(e, 0, (29 - r) as u32);
                lemma_xor_u32(without_q, single(r));
                lemma_no_bits(without_r);
                lemma_xor_back(e, single(r), single(q), single(p));
                (r, q, p)
            }
        }
    }
}

proof fn lemma_xor_parts(w: u32, c: u32)
    by (bit_vector)
    ensures
        c ^ (w ^ c) == w,
        w ^ (w ^ c) == c,
{
}

/// A word that is near a codeword is corrected to its data.
pub proof fn law_near_word_is_corrected(codeword: u32, data: u16)
    requires
        codeword < 0x4000_0000,
        data < 0x4000,
        distance(codeword, data) <= 3,
    ensures
        exists|n: nat, i: int, j: int, k: int|
            in_order(n, i, j, k) && syndrome(#[trigger] errors(n, i, j, k)) == syndrome(codeword),
        forall|decoded: Rm3014Decoded| #[trigger]
            is_corrected(codeword, decoded) ==> decoded.data == data && decoded.corrected_bits
                == distance(codeword, data),
{
    let e = codeword ^ encoded(data);
    law_codeword_holds_its_data(data);
    lemma_xor_u32(codeword, encoded(data));
    lemma_xor_parts(codeword, encoded(data));
    let (i, j, k) = law_light_word_is_an_error_pattern(e);
    let n = weight(e, 30);
    law_three_errors_are_explained(data, n, i, j, k);
    assert(in_order(n, i, j, k) && syndrome(errors(n, i, j, k)) == syndrome(codeword));
    assert forall|decoded: Rm3014Decoded| #[trigger]
        is_corrected(codeword, decoded) implies decoded.data == data && decoded.corrected_bits
        == distance(codeword, data) by {
        law_three_errors_are_corrected(data, n, i, j, k, decoded);
    }
}

/// What corrects a word is near it.
pub proof fn law_correction_is_near(codeword: u32, decoded: Rm3014Decoded)
    requires
        codeword < 0x4000_0000,
        is_corrected(codeword, decoded),
    ensures
        decoded.data < 0x4000,
        decoded.corrected_bits <= 3,
        distance(codeword, decoded.data) == decoded.corrected_bits,
{
    let (i, j, k) = choose|i: int, j: int, k: int| #[trigger] corrects(codeword, decoded, i, j, k);
    let pattern = errors(decoded.corrected_bits as nat, i, j, k);
    let w = codeword ^ pattern;
    lemma_errors_weight(decoded.corrected_bits as nat, i, j, k);
    lemma_xor_u32(codeword, pattern);
    law_syndrome_is_linear(codeword, pattern);
    lemma_xor_u16(syndrome(codeword), syndrome(pattern));
    law_zero_syndrome_is_a_codeword(w);
    lemma_syndrome_explicit(w);
    lemma_kernel(w, decoded.data);
    lemma_xor_parts(codeword, pattern);
    assert(codeword ^ encoded(decoded.data) == pattern) by {
        lemma_xor_parts(pattern, codeword);
        lemma_xor_commutes(codeword, pattern);
    }
}

proof fn lemma_xor_commutes(a: u32, b: u32)
    by (bit_vector)
    ensures
        a ^ b == b ^ a,
        a ^ (a ^ b) == b,
{
}

/// At most one codeword is near a word.
pub proof fn law_near_codeword_is_unique(codeword: u32, first: u16, second: u16)
    requires
        first < 0x4000,
        second < 0x4000,
        distance(codeword, first) <= 3,
        distance(codeword, second) <= 3,
    ensures
        first == second,
{
    if first != second {
        let (a, b) = (encoded(first), encoded(second));
        law_minimum_distance(first, second);
        lemma_weight_of_sum(codeword ^ a, codeword ^ b, 30);
        assert((codeword ^ a) ^ (codeword ^ b) == a ^ b) by (bit_vector);
    }
}

/// Decodes within the guaranteed radius of the code: up to three errors are
/// corrected, and every other word is rejected.
pub fn tetra_rm3014_decode(codeword: u32) -> (decoded: Result<Rm3014Decoded, Rm3014Uncorrectable>)
    ensures
        match decoded {
            Ok(d) => is_corrected(codeword, d),
            Err(e) => e.syndrome == syndrome(codeword) && forall|n: nat, i: int, j: int, k: int|
                in_order(n, i, j, k) ==> syndrome(#[trigger] errors(n, i, j, k)) != syndrome(
                    codeword,
                ),
        },
        codeword < 0x4000_0000 ==> match decoded {
            Ok(d) => d.data < 0x4000 && d.corrected_bits <= 3 && distance(codeword, d.data)
                == d.corrected_bits,
            Err(_) => forall|m: u16| m < 0x4000 ==> #[trigger] distance(codeword, m) > 3,
        },
{
    let decoded: Result<Rm3014Decoded, Rm3014Uncorrectable> = decode_errors(codeword);
    proof {
        if codeword < 0x4000_0000 {
            match decoded {
                Ok(d) => law_correction_is_near(codeword, d),
                Err(_) => {
                    assert forall|m: u16| m < 0x4000 implies #[trigger] distance(codeword, m)
                        > 3 by {
                        if distance(codeword, m) <= 3 {
                            law_near_word_is_corrected(codeword, m);
                        }
                    }
                },
            }
        }
    }
    decoded
}

/// Decodes by the error pattern that explains the syndrome.
fn decode_errors(codeword: u32) -> (decoded: Result<Rm3014Decoded, Rm3014Uncorrectable>)
    ensures
        match decoded {
            Ok(d) => is_corrected(codeword, d),
            Err(e) => e.syndrome == syndrome(codeword) && forall|n: nat, i: int, j: int, k: int|
                in_order(n, i, j, k) ==> syndrome(#[trigger] errors(n, i, j, k)) != syndrome(
                    codeword,
                ),
        },
{
    let s: u16 = compute_syndrome(codeword);
    if s == 0 {
        let d = Rm3014Decoded { data: tetra_rm3014_decode_naive(codeword), corrected_bits: 0 };
        proof {
            let any = codeword as int;
            lemma_syndrome_of_errors(0, any, any, any);
            lemma_xor_u32(codeword, 0);
            lemma_is_corrected(codeword, d, any, any, any);
        }
        return Ok(d);
    }
    if let Some(i) = find_one(s) {
        let d = Rm3014Decoded {
            data: tetra_rm3014_decode_naive(codeword ^ bit_mask(i)),
            corrected_bits: 1,
        };
        proof {
            lemma_syndrome_of_errors(1, i as int, i as int, i as int);
            lemma_is_corrected(codeword, d, i as int, i as int, i as int);
        }
        return Ok(d);
    }
    if let Some((i, j)) = find_two(s) {
        let pattern: u32 = bit_mask(i) ^ bit_mask(j);
        let d = Rm3014Decoded {
            data: tetra_rm3014_decode_naive(codeword ^ pattern),
            corrected_bits: 2,
        };
        proof {
            lemma_syndrome_of_errors(2, i as int, j as int, j as int);
            lemma_is_corrected(codeword, d, i as int, j as int, j as int);
        }
        return Ok(d);
    }
    if let Some((i, j, k)) = find_three(s) {
        let pattern: u32 = bit_mask(i) ^ bit_mask(j) ^ bit_mask(k);
        let d = Rm3014Decoded {
            data: tetra_rm3014_decode_naive(codeword ^ pattern),
            corrected_bits: 3,
        };
        proof {
            lemma_syndrome_of_errors(3, i as int, j as int, k as int);
            lemma_is_corrected(codeword, d, i as int, j as int, k as int);
        }
        return Ok(d);
    }
    proof {
        assert forall|n: nat, i: int, j: int, k: int| in_order(n, i, j, k) implies syndrome(
            #[trigger] errors(n, i, j, k),
        ) != syndrome(codeword) by {
            lemma_syndrome_of_errors(n, i, j, k);
        }
    }
    Err(Rm3014Uncorrectable { syndrome: s })
}

/// The data of a word with up to three errors corrected; without any correction
/// where it is too far from every codeword. Receivers that must not accept such
/// a word use `tetra_rm3014_decode`.
pub fn tetra_rm3014_decode_limited_ecc(codeword: u32) -> (data: u16)
    ensures
        ({
            ||| exists|n: u8| #[trigger]
                is_corrected(codeword, Rm3014Decoded { data, corrected_bits: n })
            ||| data == (codeword >> 16u32) as u16 && forall|n: nat, i: int, j: int, k: int|
                in_order(n, i, j, k) ==> syndrome(#[trigger] errors(n, i, j, k)) != syndrome(
                    codeword,
                )
        }),
        codeword < 0x4000_0000 ==> {
            &&& forall|m: u16|
                m < 0x4000 && #[trigger] distance(codeword, m) <= 3 ==> data == m
            &&& (forall|m: u16| m < 0x4000 ==> #[trigger] distance(codeword, m) > 3) ==> data == (
            codeword >> 16u32) as u16
        },
{
    match tetra_rm3014_decode(codeword) {
        Ok(decoded) => {
            proof {
                if codeword < 0x4000_0000 {
                    assert forall|m: u16|
                        m < 0x4000 && #[trigger] distance(codeword, m) <= 3 implies decoded.data
                        == m by {
                        law_near_codeword_is_unique(codeword, decoded.data, m);
                    }
                }
            }
            assert(is_corrected(
                codeword,
                Rm3014Decoded { data: decoded.data, corrected_bits: decoded.corrected_bits },
            ));
            decoded.data
        },
        Err(_) => tetra_rm3014_decode_naive(codeword),
    }
}

/// Up to three errors anywhere in a codeword are corrected: whatever corrects
/// the word gives the data back and names the number of errors.
pub proof fn law_three_errors_are_corrected(
    input: u16,
    n: nat,
    i: int,
    j: int,
    k: int,
    decoded: Rm3014Decoded,
)
    requires
        input < 0x4000,
        in_order(n, i, j, k),
        is_corrected(encoded(input) ^ errors(n, i, j, k), decoded),
    ensures
        decoded.data == input,
        decoded.corrected_bits == n,
{
    let word = encoded(input) ^ errors(n, i, j, k);
    let (p, q, r) = choose|p: int, q: int, r: int| #[trigger] corrects(word, decoded, p, q, r);
    law_codeword_holds_its_data(input);
    law_syndrome_is_linear(encoded(input), errors(n, i, j, k));
    lemma_xor_u16(syndrome(errors(n, i, j, k)), 0);
    law_syndrome_determines_the_errors(
        n,
        i,
        j,
        k,
        decoded.corrected_bits as nat,
        p,
        q,
        r,
    );
    lemma_xor_u32(encoded(input), errors(n, i, j, k));
}

/// A codeword with up to three errors is never rejected.
pub proof fn law_three_errors_are_explained(input: u16, n: nat, i: int, j: int, k: int)
    requires
        input < 0x4000,
        in_order(n, i, j, k),
    ensures
        syndrome(errors(n, i, j, k)) == syndrome(encoded(input) ^ errors(n, i, j, k)),
{
    law_codeword_holds_its_data(input);
    law_syndrome_is_linear(encoded(input), errors(n, i, j, k));
    lemma_xor_u16(syndrome(errors(n, i, j, k)), 0);
}

/// What damages a codeword is how far the word is from it.
pub proof fn law_damage_is_the_distance(data: u16, damage: u32)
    requires
        data < 0x4000,
        damage < 0x4000_0000,
    ensures
        encoded(data) ^ damage < 0x4000_0000,
        distance(encoded(data) ^ damage, data) == weight(damage, 30),
{
    law_codeword_holds_its_data(data);
    lemma_xor_u32(encoded(data), damage);
    lemma_xor_commutes(encoded(data), damage);
    lemma_xor_parts(damage, encoded(data));
    lemma_xor_commutes(encoded(data) ^ damage, encoded(data));
}

} // verus!
