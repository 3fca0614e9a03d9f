//! Air-interface cryptographic primitives.
//!
//! There is no key storage, no protocol state and no source of randomness here:
//! those belong to the callers.
use vstd::prelude::*;

pub mod taa1;
pub mod tea1;
pub mod tea3;

verus! {

/// Errors returned when a value cannot be represented in the TETRA bit field
/// required by a primitive.
#[derive(Debug, Clone, Copy, PartialEq, Eq, Structural)]
pub enum InputError {
    CarrierNumberOutOfRange,
    LocationAreaOutOfRange,
    ColourCodeOutOfRange,
    KeyNumberOutOfRange,
}

/// The time and direction that a key stream is for.
#[derive(Debug, Clone, Copy, PartialEq, Eq, Structural)]
pub struct FrameNumbers {
    /// TDMA timeslot, in the range 1..=4.
    pub timeslot: u8,
    /// Frame number, in the range 1..=18.
    pub frame: u8,
    /// Multiframe number, in the range 1..=60.
    pub multiframe: u8,
    /// Hyperframe number; only its low 15 bits enter the IV.
    pub hyperframe: u16,
    /// `false` for downlink, `true` for uplink.
    pub uplink: bool,
}

impl FrameNumbers {
    /// Every number is within its range on the air.
    pub open spec fn wf(self) -> bool {
        1 <= self.timeslot <= 4 && 1 <= self.frame <= 18 && 1 <= self.multiframe <= 60
    }

    /// The packed IV: two bits of timeslot, five of frame, six of multiframe,
    /// fifteen of hyperframe and the direction.
    pub open spec fn packed(self) -> int {
        (self.timeslot - 1) + self.frame * 4 + self.multiframe * 128 + (self.hyperframe as int
            % 32768) * 8192 + if self.uplink {
            0x1000_0000int
        } else {
            0
        }
    }

    /// The packed air-interface IV.
    pub fn iv(self) -> (iv: u32)
        requires
            self.wf(),
        ensures
            iv == self.packed(),
    {
        let timeslot: u32 = self.timeslot as u32 - 1;
        let frame: u32 = self.frame as u32;
        let multiframe: u32 = self.multiframe as u32;
        let hyperframe: u32 = self.hyperframe as u32;
        let direction: u32 = if self.uplink {
            1
        } else {
            0
        };
        assert(timeslot | (frame << 2) | (multiframe << 7) | ((hyperframe & 0x7fff) << 13) | (
        direction << 28) == timeslot + frame * 4 + multiframe * 128 + (hyperframe % 32768) * 8192
            + direction * 0x1000_0000) by (bit_vector)
            requires
                timeslot < 4,
                frame < 32,
                multiframe < 64,
                hyperframe < 0x1_0000,
                direction < 2,
        ;
        timeslot | (frame << 2) | (multiframe << 7) | ((hyperframe & 0x7fff) << 13) | (direction
            << 28)
    }
}

/// No two slots and directions share an IV, as long as their hyperframes differ
/// by less than 32768.
pub proof fn law_iv_is_unique(left: FrameNumbers, right: FrameNumbers)
    requires
        left.wf(),
        right.wf(),
        left.packed() == right.packed(),
    ensures
        left.timeslot == right.timeslot,
        left.frame == right.frame,
        left.multiframe == right.multiframe,
        left.hyperframe % 32768 == right.hyperframe % 32768,
        left.uplink == right.uplink,
{
    let low_left = (left.timeslot - 1) + left.frame * 4 + left.multiframe * 128;
    let low_right = (right.timeslot - 1) + right.frame * 4 + right.multiframe * 128;
    assert(left.packed() % 8192 == low_left);
    assert(right.packed() % 8192 == low_right);
    assert(low_left % 128 == (left.timeslot - 1) + left.frame * 4);
    assert(low_right % 128 == (right.timeslot - 1) + right.frame * 4);
}

/// The IV has 29 bits, the timeslot lowest: two bits of timeslot counted from zero,
/// five of frame, six of multiframe, fifteen of hyperframe, and the direction on
/// top, which is set for the uplink.
pub proof fn law_iv_holds_the_slot(numbers: FrameNumbers)
    requires
        numbers.wf(),
    ensures
        0 <= numbers.packed() < 0x2000_0000,
        numbers.packed() % 4 == numbers.timeslot - 1,
        numbers.packed() / 4 % 32 == numbers.frame,
        numbers.packed() / 128 % 64 == numbers.multiframe,
        numbers.packed() / 8192 % 32768 == numbers.hyperframe % 32768,
        numbers.packed() / 0x1000_0000 == 1 <==> numbers.uplink,
{
    let hyperframe = numbers.hyperframe as int % 32768;
    let direction = if numbers.uplink {
        1int
    } else {
        0
    };
    let slot = (numbers.timeslot - 1) + numbers.frame * 4;
    let multiframes = hyperframe * 64 + direction * 0x20_0000 + numbers.multiframe;
    assert(numbers.packed() == multiframes * 128 + slot);
    lemma_split(numbers.packed(), 128, multiframes, slot);
    lemma_split(slot, 4, numbers.frame as int, numbers.timeslot - 1);
    lemma_split(numbers.packed(), 4, multiframes * 32 + numbers.frame, numbers.timeslot - 1);
    lemma_split(multiframes * 32 + numbers.frame, 32, multiframes, numbers.frame as int);
    let hyperframes = direction * 32768 + hyperframe;
    let low = slot + numbers.multiframe * 128;
    lemma_split(multiframes, 64, hyperframes, numbers.multiframe as int);
    lemma_split(numbers.packed(), 8192, hyperframes, low);
    lemma_split(hyperframes, 32768, direction, hyperframe);
    lemma_split(numbers.packed(), 0x1000_0000, direction, low + hyperframe * 8192);
}

/// The quotient and the remainder of a number that is written with them.
proof fn lemma_split(n: int, d: int, q: int, r: int)
    requires
        n == q * d + r,
        0 <= r < d,
    ensures
        n / d == q,
        n % d == r,
{
    vstd::arithmetic::div_mod::lemma_fundamental_div_mod_converse(n, d, q, r);
}

} // verus!
