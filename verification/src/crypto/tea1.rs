//! The TEA1 key stream generator.
use vstd::prelude::*;

verus! {

/// The substitution box.
pub const TEA1_SBOX: [u8; 256] = [
    0x9b, 0xf8, 0x3b, 0x72, 0x75, 0x62, 0x88, 0x22, 0xff, 0xa6, 0x10, 0x4d,
    0xa9, 0x97, 0xc3, 0x7b, 0x9f, 0x78, 0xf3, 0xb6, 0xa0, 0xcc, 0x17, 0xab,
    0x4a, 0x41, 0x8d, 0x89, 0x25, 0x87, 0xd3, 0xe3, 0xce, 0x47, 0x35, 0x2c,
    0x6d, 0xfc, 0xe7, 0x6a, 0xb8, 0xb7, 0xfa, 0x8b, 0xcd, 0x74, 0xee, 0x11,
    0x23, 0xde, 0x39, 0x6c, 0x1e, 0x8e, 0xed, 0x30, 0x73, 0xbe, 0xbb, 0x91,
    0xca, 0x69, 0x60, 0x49, 0x5f, 0xb9, 0xc0, 0x06, 0x34, 0x2a, 0x63, 0x4b,
    0x90, 0x28, 0xac, 0x50, 0xe4, 0x6f, 0x36, 0xb0, 0xa4, 0xd2, 0xd4, 0x96,
    0xd5, 0xc9, 0x66, 0x45, 0xc5, 0x55, 0xdd, 0xb2, 0xa1, 0xa8, 0xbf, 0x37,
    0x32, 0x2b, 0x3e, 0xb5, 0x5c, 0x54, 0x67, 0x92, 0x56, 0x4c, 0x20, 0x6b,
    0x42, 0x9d, 0xa7, 0x58, 0x0e, 0x52, 0x68, 0x95, 0x09, 0x7f, 0x59, 0x9c,
    0x65, 0xb1, 0x64, 0x5e, 0x4f, 0xba, 0x81, 0x1c, 0xc2, 0x0c, 0x02, 0xb4,
    0x31, 0x5b, 0xfd, 0x1d, 0x0a, 0xc8, 0x19, 0x8f, 0x83, 0x8a, 0xcf, 0x33,
    0x9e, 0x3a, 0x80, 0xf2, 0xf9, 0x76, 0x26, 0x44, 0xf1, 0xe2, 0xc4, 0xf5,
    0xd6, 0x51, 0x46, 0x07, 0x14, 0x61, 0xf4, 0xc1, 0x24, 0x7a, 0x94, 0x27,
    0x00, 0xfb, 0x04, 0xdf, 0x1f, 0x93, 0x71, 0x53, 0xea, 0xd8, 0xbd, 0x3d,
    0xd0, 0x79, 0xe6, 0x7e, 0x4e, 0x9a, 0xd7, 0x98, 0x1b, 0x05, 0xae, 0x03,
    0xc7, 0xbc, 0x86, 0xdb, 0x84, 0xe8, 0xd1, 0xf7, 0x16, 0x21, 0x6e, 0xe5,
    0xcb, 0xa3, 0x1a, 0xec, 0xa2, 0x7d, 0x18, 0x85, 0x48, 0xda, 0xaa, 0xf0,
    0x08, 0xc6, 0x40, 0xad, 0x57, 0x0d, 0x29, 0x82, 0x7c, 0xe9, 0x8c, 0xfe,
    0xdc, 0x0f, 0x2d, 0x3c, 0x2e, 0xf6, 0x15, 0x2f, 0xaf, 0xe1, 0xeb, 0x3f,
    0x99, 0x43, 0x13, 0x0b, 0xe0, 0xa5, 0x12, 0x77, 0x5d, 0xb3, 0x38, 0xd9,
    0xef, 0x5a, 0x01, 0x70,
];

/// The Boolean functions of state bytes one and two, one per output bit.
pub const TEA1_LUT_LOW: [u16; 8] = [0xda86, 0x85e9, 0x29b5, 0x2bc6, 0x8c6b, 0x974c, 0xc671, 0x93e2];

/// The Boolean functions of state bytes five and six, one per output bit.
pub const TEA1_LUT_HIGH: [u16; 8] = [0x85d6, 0x791a, 0xe985, 0xc671, 0x2b9c, 0xec92, 0xc62b, 0x9c47];

/// The state of the generator: the reduced key register and the state register.
pub struct Tea1State {
    pub key: u32,
    pub reg: u64,
}

/// The substitution of a byte.
pub open spec fn substituted(byte: u8) -> u8 {
    TEA1_SBOX@[byte as int]
}

/// A byte turned right by one bit.
pub open spec fn turned(byte: u8) -> u8 {
    (byte >> 1) | (byte << 7)
}

/// A byte turned right by `n` bits.
pub open spec fn turned_by(byte: u8, n: nat) -> u8
    decreases n,
{
    if n == 0 {
        byte
    } else {
        turned(turned_by(byte, (n - 1) as nat))
    }
}

/// Which entry of a Boolean function two state bytes select.
pub open spec fn tap(low: u8, high: u8) -> u8 {
    ((low >> 7) & 1) | ((low << 1) & 2) | ((high << 1) & 12)
}

/// The `n` low bits of the byte that Boolean functions make of two state bytes.
/// Bit `i` is the entry of function `i` that the bytes, turned by `i`, select.
pub open spec fn mixed(low: u8, high: u8, functions: Seq<u16>, n: nat) -> u8
    decreases n,
{
    if n == 0 {
        0
    } else {
        let i = (n - 1) as nat;
        let entry = tap(turned_by(low, i), turned_by(high, i));
        mixed(low, high, functions, i) | ((((functions[i as int] >> (entry as u16)) & 1) as u8) << (
        i as u8))
    }
}

/// A state byte with its bits in another order.
pub open spec fn reordered(byte: u8) -> u8 {
    ((byte << 6) & 0x40) | ((byte << 1) & 0x20) | ((byte << 2) & 0x08) | ((byte >> 3) & 0x14) | ((
    byte >> 2) & 0x01) | ((byte >> 5) & 0x02) | ((byte << 4) & 0x80)
}

impl Tea1State {
    /// The state after one step.
    pub open spec fn step(self) -> Tea1State {
        let s = substituted(((self.key >> 24) ^ self.key) as u8);
        let low = mixed((self.reg >> 8) as u8, (self.reg >> 16) as u8, TEA1_LUT_LOW@, 8);
        let high = mixed((self.reg >> 40) as u8, (self.reg >> 48) as u8, TEA1_LUT_HIGH@, 8);
        let fresh = high ^ ((self.reg >> 56) as u8) ^ reordered((self.reg >> 32) as u8) ^ s;
        Tea1State {
            key: (self.key << 8) | (s as u32),
            reg: ((self.reg << 8) ^ ((low as u64) << 32)) | (fresh as u64),
        }
    }

    /// The state after `n` steps.
    pub open spec fn steps(self, n: nat) -> Tea1State
        decreases n,
    {
        if n == 0 {
            self
        } else {
            self.steps((n - 1) as nat).step()
        }
    }

    /// The state after one step.
    fn advance(self) -> (next: Tea1State)
        ensures
            next == self.step(),
    {
        let s: u8 = substitute(#[verifier::truncate] (((self.key >> 24) ^ self.key) as u8));
        let low: u8 = mix(
            #[verifier::truncate] ((self.reg >> 8) as u8),
            #[verifier::truncate] ((self.reg >> 16) as u8),
            &TEA1_LUT_LOW,
        );
        let high: u8 = mix(
            #[verifier::truncate] ((self.reg >> 40) as u8),
            #[verifier::truncate] ((self.reg >> 48) as u8),
            &TEA1_LUT_HIGH,
        );
        let order: u8 = reorder(#[verifier::truncate] ((self.reg >> 32) as u8));
        let fresh: u8 = high ^ (#[verifier::truncate] ((self.reg >> 56) as u8)) ^ order ^ s;
        Tea1State {
            key: (self.key << 8) | (s as u32),
            reg: ((self.reg << 8) ^ ((low as u64) << 32)) | (fresh as u64),
        }
    }
}

/// The reduced key register after the first `n` key bytes.
pub open spec fn reduced_key(key: Seq<u8>, n: nat) -> u32
    decreases n,
{
    if n == 0 {
        0
    } else {
        let before = reduced_key(key, (n - 1) as nat);
        let s = substituted(((before >> 24) ^ (key[n - 1] as u32) ^ before) as u8);
        (before << 8) | (s as u32)
    }
}

/// The state register that an IV stands for.
pub open spec fn expanded_iv(iv: u32) -> u64 {
    let mask = iv ^ 0x9672_4fa1;
    let turned = (mask << 8) | (mask >> 24);
    let joined = ((iv as u64) << 32) | (turned as u64);
    (joined >> 8) | (joined << 56)
}

/// The state before the first step.
pub open spec fn initial(iv: u32, key: Seq<u8>) -> Tea1State {
    Tea1State { key: reduced_key(key, 10), reg: expanded_iv(iv) }
}

/// Byte `index` of the key stream: the top of the state register, first after 54
/// steps and then after every 19.
pub open spec fn key_stream(iv: u32, key: Seq<u8>, index: int) -> u8 {
    (initial(iv, key).steps((54 + 19 * index) as nat).reg >> 56) as u8
}

fn substitute(byte: u8) -> (r: u8)
    ensures
        r == substituted(byte),
{
    TEA1_SBOX[byte as usize]
}

fn reorder(byte: u8) -> (r: u8)
    ensures
        r == reordered(byte),
{
    ((byte << 6) & 0x40) | ((byte << 1) & 0x20) | ((byte << 2) & 0x08) | ((byte >> 3) & 0x14) | ((
    byte >> 2) & 0x01) | ((byte >> 5) & 0x02) | ((byte << 4) & 0x80)
}

fn mix(low: u8, high: u8, functions: &[u16; 8]) -> (r: u8)
    ensures
        r == mixed(low, high, functions@, 8),
{
    let mut out: u8 = 0;
    let mut first: u8 = low;
    let mut second: u8 = high;
    let mut i: u8 = 0;
    while i < 8
        invariant
            i <= 8,
            first == turned_by(low, i as nat),
            second == turned_by(high, i as nat),
            out == mixed(low, high, functions@, i as nat),
        decreases 8 - i,
    {
        let entry: u8 = ((first >> 7) & 1) | ((first << 1) & 2) | ((second << 1) & 12);
        assert(((first >> 7) & 1) | ((first << 1) & 2) | ((second << 1) & 12) < 16) by (bit_vector);
        let function: u16 = functions[i as usize];
        let bit: u8 = #[verifier::truncate] (((function >> (entry as u16)) & 1) as u8);
        out = out | (bit << i);
        first = (first >> 1) | (first << 7);
        second = (second >> 1) | (second << 7);
        i = i + 1;
    }
    out
}

/// Fills `out` with the key stream of an IV and a key.
pub fn tea1(iv: u32, key: &[u8; 10], out: &mut Vec<u8>)
    ensures
        final(out)@.len() == old(out)@.len(),
        forall|i: int|
            0 <= i < final(out)@.len() ==> #[trigger] final(out)@[i] == key_stream(iv, key@, i),
{
    let mut register: u32 = 0;
    let mut n: usize = 0;
    while n < 10
        invariant
            n <= 10,
            register == reduced_key(key@, n as nat),
        decreases 10 - n,
    {
        let s: u8 = substitute(
            #[verifier::truncate] (((register >> 24) ^ (key[n] as u32) ^ register) as u8),
        );
        register = (register << 8) | (s as u32);
        n = n + 1;
    }
    let mask: u32 = iv ^ 0x9672_4fa1;
    let turned: u32 = (mask << 8) | (mask >> 24);
    let joined: u64 = ((iv as u64) << 32) | (turned as u64);
    let mut state = Tea1State { key: register, reg: (joined >> 8) | (joined << 56) };
    let ghost start = initial(iv, key@);
    let mut index: usize = 0;
    let mut skip: u32 = 54;
    while index < out.len()
        invariant
            index <= out@.len(),
            out@.len() == old(out)@.len(),
            start == initial(iv, key@),
            skip == if index == 0 {
                54u32
            } else {
                19u32
            },
            state == start.steps(
                if index == 0 {
                    0
                } else {
                    (54 + 19 * (index - 1)) as nat
                },
            ),
            forall|i: int| 0 <= i < index ==> #[trigger] out@[i] == key_stream(iv, key@, i),
        decreases out@.len() - index,
    {
        let ghost done: nat = if index == 0 {
            0
        } else {
            (54 + 19 * (index - 1)) as nat
        };
        let mut round: u32 = 0;
        while round < skip
            invariant
                round <= skip,
                state == start.steps((done + round) as nat),
            decreases skip - round,
        {
            state = state.advance();
            round = round + 1;
        }
        assert((done + skip) as nat == (54 + 19 * index) as nat);
        out.set(index, #[verifier::truncate] ((state.reg >> 56) as u8));
        index = index + 1;
        skip = 19;
    }
}

} // verus!
