//! TDMA air-interface time.
//!
//! A hyperframe holds 60 multiframes of 18 frames of 4 timeslots. Time is a
//! point on a circle: after hyperframe 65535 the count starts again at zero.
use vstd::arithmetic::div_mod::*;
use vstd::prelude::*;

verus! {

/// Timeslots in one frame.
pub const SLOTS_PER_FRAME: i32 = 4;

/// Timeslots in one multiframe.
pub const SLOTS_PER_MULTIFRAME: i32 = 72;

/// Timeslots in one hyperframe.
pub const SLOTS_PER_HYPERFRAME: i32 = 4320;

/// Timeslots until the 16-bit hyperframe count starts again.
pub const SLOTS_PER_CYCLE: i32 = 283_115_520;

/// An exact air-interface slot.
#[derive(Debug, Clone, Copy, PartialEq, Eq, Structural)]
pub struct TdmaTime {
    /// Hyperframe number.
    pub h: u16,
    /// Multiframe number, 1..=60.
    pub m: u8,
    /// Frame number, 1..=18.
    pub f: u8,
    /// Timeslot number, 1..=4.
    pub t: u8,
}

/// Whether the slot with this number carries the SYSINFO that names the SC2
/// key: timeslot 1 of frames 4, 8, 12 and 16.
pub open spec fn slot_is_security_sysinfo(slot: int) -> bool {
    let frame = slot / 4 % 18 + 1;
    slot % 4 == 0 && (frame == 4 || frame == 8 || frame == 12 || frame == 16)
}

/// The difference of two slot numbers, taken the short way round the circle.
pub open spec fn centred(difference: int) -> int {
    let forward = difference % (SLOTS_PER_CYCLE as int);
    if forward < SLOTS_PER_CYCLE / 2 {
        forward
    } else {
        forward - SLOTS_PER_CYCLE
    }
}

impl TdmaTime {
    /// Every field is within its range on the air.
    pub open spec fn wf(self) -> bool {
        1 <= self.m <= 60 && 1 <= self.f <= 18 && 1 <= self.t <= 4
    }

    /// The number of the slot, counted from the start of hyperframe zero.
    pub open spec fn slots(self) -> int {
        self.h * SLOTS_PER_HYPERFRAME + (self.m - 1) * SLOTS_PER_MULTIFRAME + (self.f - 1)
            * SLOTS_PER_FRAME + (self.t - 1)
    }

    /// The time whose slot number is `slot`, for a slot number in one cycle.
    pub open spec fn at(slot: int) -> TdmaTime {
        TdmaTime {
            h: (slot / 4320) as u16,
            m: (slot % 4320 / 72 + 1) as u8,
            f: (slot % 72 / 4 + 1) as u8,
            t: (slot % 4 + 1) as u8,
        }
    }

    /// The time `slots` timeslots later.
    pub open spec fn plus(self, slots: int) -> TdmaTime {
        TdmaTime::at((self.slots() + slots) % (SLOTS_PER_CYCLE as int))
    }

    /// How many timeslots `self` lies after `reference`.
    pub open spec fn since(self, reference: TdmaTime) -> int {
        centred(self.slots() - reference.slots())
    }

    /// `slots` timeslots after `self`; before it where `slots` is negative.
    pub fn add_timeslots(self, slots: i32) -> (later: TdmaTime)
        ensures
            later == self.plus(slots as int),
            later.wf(),
            later.slots() == (self.slots() + slots) % (SLOTS_PER_CYCLE as int),
    {
        let total: i64 = self.h as i64 * 4320 + (self.m as i64 - 1) * 72 + (self.f as i64 - 1) * 4
            + (self.t as i64 - 1) + slots as i64 + 16 * 283_115_520;
        let slot: u64 = total as u64 % 283_115_520;
        assert(slot as int == (self.slots() + slots) % (SLOTS_PER_CYCLE as int));
        proof {
            lemma_at(slot as int);
        }
        TdmaTime {
            h: (slot / 4320) as u16,
            m: (slot % 4320 / 72 + 1) as u8,
            f: (slot % 72 / 4 + 1) as u8,
            t: (slot % 4 + 1) as u8,
        }
    }

    /// How many timeslots `self` lies after `reference`: negative where it lies
    /// before it. Of the two ways round the circle the shorter one is taken.
    pub fn age(self, reference: TdmaTime) -> (slots: i32)
        ensures
            slots == self.since(reference),
    {
        let difference: i64 = (self.h as i64 - reference.h as i64) * 4320 + (self.m as i64
            - reference.m as i64) * 72 + (self.f as i64 - reference.f as i64) * 4 + (self.t as i64
            - reference.t as i64) + 2 * 283_115_520;
        let forward: u64 = difference as u64 % 283_115_520;
        assert(forward as int == (self.slots() - reference.slots()) % (SLOTS_PER_CYCLE as int));
        if forward < 141_557_760 {
            forward as i32
        } else {
            (forward as i64 - 283_115_520) as i32
        }
    }

    /// The first slot at or after `self` with timeslot number `t`.
    pub fn forward_to_timeslot(self, t: u8) -> (next: TdmaTime)
        requires
            self.wf(),
            1 <= t <= 4,
        ensures
            next.wf(),
            next.t == t,
            next == self.plus((t - self.t) % 4),
    {
        let wait: i32 = if t >= self.t {
            (t - self.t) as i32
        } else {
            (t + 4 - self.t) as i32
        };
        proof {
            law_forward_reaches_the_timeslot(self, t);
        }
        self.add_timeslots(wait)
    }

    /// Whether this slot carries the SYSINFO that names the SC2 key.
    pub fn is_sc2_security_sysinfo_opportunity(self) -> (r: bool)
        ensures
            r == (self.t == 1 && (self.f == 4 || self.f == 8 || self.f == 12 || self.f == 16)),
            self.wf() ==> r == slot_is_security_sysinfo(self.slots()),
    {
        proof {
            if self.wf() {
                law_slots_that_name_the_key(self);
            }
        }
        self.t == 1 && (self.f == 4 || self.f == 8 || self.f == 12 || self.f == 16)
    }

    /// The first slot at or after `self` that carries the SYSINFO that names
    /// the SC2 key.
    pub open spec fn next_security_sysinfo(self, wait: int) -> bool {
        &&& 0 <= wait < 32
        &&& slot_is_security_sysinfo((self.slots() + wait) % (SLOTS_PER_CYCLE as int))
        &&& forall|earlier: int|
            0 <= earlier < wait ==> !#[trigger] slot_is_security_sysinfo(
                (self.slots() + earlier) % (SLOTS_PER_CYCLE as int),
            )
    }

    /// The first slot at or after `self` that carries the SYSINFO that names
    /// the SC2 key.
    pub fn forward_to_sc2_security_sysinfo(self) -> (next: TdmaTime)
        ensures
            next.wf(),
            exists|wait: int| #[trigger]
                self.next_security_sysinfo(wait) && next == self.plus(wait),
    {
        let mut next: TdmaTime = self.add_timeslots(0);
        let mut wait: i32 = 0;
        while !next.is_sc2_security_sysinfo_opportunity()
            invariant
                0 <= wait < 32,
                next.wf(),
                next == self.plus(wait as int),
                next.slots() == (self.slots() + wait) % (SLOTS_PER_CYCLE as int),
                forall|earlier: int|
                    0 <= earlier < wait ==> !#[trigger] slot_is_security_sysinfo(
                        (self.slots() + earlier) % (SLOTS_PER_CYCLE as int),
                    ),
            decreases 32 - wait,
        {
            assert(wait < 31) by {
                if wait == 31 {
                    lemma_sysinfo_within_a_frame_group(self.slots());
                }
            }
            wait = wait + 1;
            next = self.add_timeslots(wait);
        }
        assert(self.next_security_sysinfo(wait as int));
        next
    }
}

impl Default for TdmaTime {
    /// The first slot of hyperframe zero.
    fn default() -> (time: Self)
        ensures
            time == (TdmaTime { h: 0, m: 1, f: 1, t: 1 }),
    {
        TdmaTime { h: 0, m: 1, f: 1, t: 1 }
    }
}

/// A slot number and the time it names determine each other.
pub proof fn lemma_at(slot: int)
    requires
        0 <= slot < SLOTS_PER_CYCLE,
    ensures
        TdmaTime::at(slot).wf(),
        TdmaTime::at(slot).slots() == slot,
{
    assert(0 <= slot / 4320 < 65536);
    assert(slot % 4320 / 72 * 72 + slot % 72 == slot % 4320);
    assert(slot % 72 / 4 * 4 + slot % 4 == slot % 72);
}

/// Of any 32 consecutive slots one carries the SYSINFO that names the SC2 key.
proof fn lemma_sysinfo_within_a_frame_group(start: int)
    ensures
        exists|wait: int|
            0 <= wait < 32 && #[trigger] slot_is_security_sysinfo(
                (start + wait) % (SLOTS_PER_CYCLE as int),
            ),
{
    let s = start % (SLOTS_PER_CYCLE as int);
    let phase = s % 72;
    let wait = if phase <= 12 {
        12 - phase
    } else if phase <= 28 {
        28 - phase
    } else if phase <= 44 {
        44 - phase
    } else if phase <= 60 {
        60 - phase
    } else {
        84 - phase
    };
    let target = (start + wait) % (SLOTS_PER_CYCLE as int);
    assert(target % 72 == (phase + wait) % 72);
    assert(target % 4 == target % 72 % 4);
    assert(target / 4 % 18 == target % 72 / 4);
    assert(slot_is_security_sysinfo((start + wait) % (SLOTS_PER_CYCLE as int)));
}

/// Stepping on to timeslot number `t` takes at most three slots and reaches it.
pub proof fn law_forward_reaches_the_timeslot(time: TdmaTime, t: u8)
    requires
        time.wf(),
        1 <= t <= 4,
    ensures
        (t - time.t) % 4 == if t >= time.t {
            t - time.t
        } else {
            t + 4 - time.t
        },
        time.plus((t - time.t) % 4).t == t,
{
    let slot = time.slots();
    let wait = (t - time.t) % 4;
    let frames = (time.h * 60 + (time.m - 1)) * 18 + (time.f - 1);
    assert(slot == frames * 4 + (time.t - 1));
    let carry = if t < time.t {
        1int
    } else {
        0
    };
    assert(slot + wait == (frames + carry) * 4 + (t - 1));
    lemma_fundamental_div_mod_converse(slot + wait, 4, frames + carry, t - 1);
    lemma_mod_mod(slot + wait, 4, 70_778_880);
}

/// Two steps in time add up.
pub proof fn law_steps_add_up(time: TdmaTime, first: int, second: int)
    ensures
        time.plus(first).plus(second) == time.plus(first + second),
{
    let cycle = SLOTS_PER_CYCLE as int;
    lemma_at((time.slots() + first) % cycle);
    assert(((time.slots() + first) % cycle + second) % cycle == (time.slots() + first + second)
        % cycle);
}

/// The age of a later time is the number of slots it was moved by, as long as
/// the step is less than half the cycle, also across the hyperframe wrap.
pub proof fn law_age_of_a_step(time: TdmaTime, slots: int)
    requires
        -(SLOTS_PER_CYCLE / 2) <= slots < SLOTS_PER_CYCLE / 2,
    ensures
        time.plus(slots).since(time) == slots,
{
    let cycle = SLOTS_PER_CYCLE as int;
    lemma_at((time.slots() + slots) % cycle);
    assert(((time.slots() + slots) % cycle - time.slots()) % cycle == slots % cycle);
}

/// The time named by the slot number of a time on the air is that time.
proof fn lemma_at_slots(time: TdmaTime)
    requires
        time.wf(),
    ensures
        0 <= time.slots() < SLOTS_PER_CYCLE,
        TdmaTime::at(time.slots()) == time,
{
    let slot = time.slots();
    let in_frame = time.t - 1;
    let in_multiframe = (time.f - 1) * 4 + in_frame;
    let in_hyperframe = (time.m - 1) * 72 + in_multiframe;
    lemma_fundamental_div_mod_converse(slot, 4320, time.h as int, in_hyperframe);
    lemma_fundamental_div_mod_converse(in_hyperframe, 72, time.m - 1, in_multiframe);
    lemma_fundamental_div_mod_converse(
        slot,
        72,
        time.h * 60 + (time.m - 1),
        in_multiframe,
    );
    lemma_fundamental_div_mod_converse(in_multiframe, 4, time.f - 1, in_frame);
    lemma_fundamental_div_mod_converse(
        slot,
        4,
        (time.h * 60 + (time.m - 1)) * 18 + (time.f - 1),
        in_frame,
    );
}

/// On the air a time is determined by its slot number, and neither an empty
/// step nor a whole cycle moves it.
pub proof fn law_slot_number_determines_time(left: TdmaTime, right: TdmaTime)
    requires
        left.wf(),
        right.wf(),
        left.slots() == right.slots(),
    ensures
        left == right,
        left.plus(0) == left,
        left.plus(SLOTS_PER_CYCLE as int) == left,
{
    lemma_at_slots(left);
    lemma_at_slots(right);
}

/// The slots follow each other as on the air: four in a frame, 18 frames in a
/// multiframe, 60 multiframes in a hyperframe, and after the last hyperframe the
/// first one again.
pub proof fn law_slots_follow_each_other(time: TdmaTime)
    requires
        time.wf(),
    ensures
        time.plus(1) == if time.t < 4 {
            TdmaTime { t: (time.t + 1) as u8, ..time }
        } else if time.f < 18 {
            TdmaTime { t: 1, f: (time.f + 1) as u8, ..time }
        } else if time.m < 60 {
            TdmaTime { t: 1, f: 1, m: (time.m + 1) as u8, ..time }
        } else if time.h < 65535 {
            TdmaTime { t: 1, f: 1, m: 1, h: (time.h + 1) as u16 }
        } else {
            TdmaTime { t: 1, f: 1, m: 1, h: 0 }
        },
{
    let next = if time.t < 4 {
        TdmaTime { t: (time.t + 1) as u8, ..time }
    } else if time.f < 18 {
        TdmaTime { t: 1, f: (time.f + 1) as u8, ..time }
    } else if time.m < 60 {
        TdmaTime { t: 1, f: 1, m: (time.m + 1) as u8, ..time }
    } else if time.h < 65535 {
        TdmaTime { t: 1, f: 1, m: 1, h: (time.h + 1) as u16 }
    } else {
        TdmaTime { t: 1, f: 1, m: 1, h: 0 }
    };
    lemma_at_slots(time);
    lemma_at_slots(next);
}

/// A time lies as far after another as the other lies before it, except where
/// they are exactly half the cycle apart.
pub proof fn law_age_has_a_sign(left: TdmaTime, right: TdmaTime)
    requires
        left.since(right) != -141_557_760,
    ensures
        right.since(left) == -left.since(right),
        left.since(left) == 0,
        -141_557_760 < left.since(right) < 141_557_760,
{
    let cycle = SLOTS_PER_CYCLE as int;
    let difference = left.slots() - right.slots();
    lemma_fundamental_div_mod(difference, cycle);
    lemma_fundamental_div_mod(-difference, cycle);
    let r = difference % cycle;
    let q = difference / cycle;
    if r == 0 {
        assert(-difference == (-q) * cycle) by (nonlinear_arith)
            requires
                difference == cycle * q + r,
                r == 0,
        ;
        lemma_fundamental_div_mod_converse(-difference, cycle, -q, 0);
    } else {
        assert(-difference == (-q - 1) * cycle + (cycle - r)) by (nonlinear_arith)
            requires
                difference == cycle * q + r,
        ;
        lemma_fundamental_div_mod_converse(-difference, cycle, -q - 1, cycle - r);
    }
}

/// The slots that name the SC2 key are timeslot 1 of frames 4, 8, 12 and 16.
pub proof fn law_slots_that_name_the_key(time: TdmaTime)
    requires
        time.wf(),
    ensures
        slot_is_security_sysinfo(time.slots()) <==> time.t == 1 && time.f % 4 == 0,
{
    let frames = (time.h * 60 + (time.m - 1)) * 18 + (time.f - 1);
    lemma_fundamental_div_mod_converse(time.slots(), 4, frames, time.t - 1);
    lemma_fundamental_div_mod_converse(
        frames,
        18,
        time.h * 60 + (time.m - 1),
        time.f - 1,
    );
}

} // verus!
