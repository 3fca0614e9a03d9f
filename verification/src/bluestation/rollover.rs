//! The SC2 key in use and its rollover to the next one.
use crate::aie::{AieDirection, Sc2KeyIdentifier};
use crate::bluestation::aie_state::{RuntimeAieSessions, RuntimeSc2Aie, RuntimeSc2Binding};
use crate::tdma::TdmaTime;
use vstd::prelude::*;

verus! {

/// Errors from the station's SC2 context and key provider.
#[derive(Debug, Clone, Copy, PartialEq, Eq, Structural)]
pub enum AieContextError {
    Sc2Disabled,
    SubjectNotProvisioned,
    UnsupportedSubject,
    StaleKeyIdentity,
    InvalidContext,
    CryptoInput,
}

/// A key that is no longer sent with, and until when it is received with.
#[derive(Clone, Copy)]
pub struct RetiredKey {
    pub key: RuntimeSc2Aie,
    pub until: TdmaTime,
}

/// The station's state of an announced key rollover. The target network time is
/// common to all cells; the key changes at the first suitable local downlink
/// slot at or after it, so cells may differ by a bounded slot phase.
#[derive(Clone, Copy)]
pub struct RuntimeSc2Rollover {
    pub rollover_id: u64,
    pub activation_network_time: u64,
    /// The serving cell's exact downlink slot for this rollover. It is sent to
    /// terminals as Absolute IV and is not a network-wide value.
    pub local_activation_tdma: Option<TdmaTime>,
    pub activated: bool,
    pub future: RuntimeSc2Aie,
    pub retired_rx: Option<RetiredKey>,
}

/// Encryption policy cached from the authenticated SwMI.
#[derive(Clone, Copy)]
pub struct RuntimeAieConfig {
    pub enabled: bool,
    pub sc1_allowed: bool,
    pub sc2: Option<RuntimeSc2Aie>,
    /// A single prepared network-wide rollover.
    pub rollover: Option<RuntimeSc2Rollover>,
}

/// The days of the years from 2000 up to `year`.
pub open spec fn days_before(year: int) -> int
    decreases year,
{
    if year <= 2000 {
        0
    } else {
        days_before(year - 1) + if is_leap(year - 1) {
            366int
        } else {
            365
        }
    }
}

/// Whether the year has a leap day.
pub open spec fn is_leap(year: int) -> bool {
    year % 4 == 0 && (year % 100 != 0 || year % 400 == 0)
}

/// The two-second units from the year 2000 to a packed network time, if it is
/// one. The offset and the reserved field do not determine the instant.
pub open spec fn network_time_units(value: u64) -> Option<int> {
    if value < 0x1_0000_0000_0000 {
        Some(days_before(2000 + value as int / 2048 % 64) * 43_200 + value as int / 0x100_0000)
    } else {
        None
    }
}

/// The slots from one network time to another, rounded up: a slot lasts 17/1200
/// of a second. None where the other is not later.
pub open spec fn slots_until(current: int, target: int) -> int {
    if target <= current {
        0
    } else {
        ((target - current) * 2400 + 16) / 17
    }
}

/// Whether `slot` is the first one with a security SYSINFO that lies `slots` or
/// more after `now`.
#[verifier::opaque]
pub open spec fn security_slot_after(now: TdmaTime, slots: int, slot: TdmaTime) -> bool {
    exists|wait: int| #[trigger]
        now.plus(slots).next_security_sysinfo(wait) && slot == now.plus(slots).plus(wait)
}

impl RuntimeSc2Rollover {
    /// Whether the slot of the rollover has come and the key has not changed.
    pub open spec fn due(self, now: TdmaTime) -> bool {
        !self.activated && self.local_activation_tdma is Some && now.since(
            self.local_activation_tdma->0,
        ) >= 0
    }
}

impl RuntimeAieConfig {
    /// The key numbers fit their five bits.
    pub open spec fn wf(self) -> bool {
        &&& self.sc2 is Some ==> self.sc2->0.wf()
        &&& self.rollover is Some ==> {
            &&& self.rollover->0.future.wf()
            &&& self.rollover->0.retired_rx is Some ==> self.rollover->0.retired_rx->0.key.wf()
        }
    }

    /// The key in use.
    pub open spec fn active(self) -> Result<RuntimeSc2Aie, AieContextError> {
        match self.sc2 {
            Some(key) if self.enabled => Ok(key),
            _ => Err(AieContextError::Sc2Disabled),
        }
    }

    /// The key for a slot on the air. Downlink changes at the slot of the
    /// rollover, uplink two slots later, whether or not the change has been
    /// made in this state already.
    pub open spec fn air_key(self, direction: AieDirection, time: TdmaTime) -> Result<
        RuntimeSc2Aie,
        AieContextError,
    > {
        if self.active() is Err || self.rollover is None
            || self.rollover->0.local_activation_tdma is None {
            self.active()
        } else {
            let rollover = self.rollover->0;
            let after = time.since(rollover.local_activation_tdma->0);
            let former = if !rollover.activated {
                self.active()
            } else if rollover.retired_rx is Some {
                Ok(rollover.retired_rx->0.key)
            } else {
                Err(AieContextError::StaleKeyIdentity)
            };
            if after < 0 {
                former
            } else if direction == AieDirection::Downlink {
                Ok(rollover.future)
            } else if after < 2 {
                former
            } else if rollover.activated {
                self.active()
            } else {
                Ok(rollover.future)
            }
        }
    }

    /// Why a rollover cannot be staged, if it cannot. A key of the first
    /// rollover has the next version number. One that takes the place of
    /// another has a version number of the other parity, so that the selector
    /// on the air stays unambiguous.
    pub open spec fn staging_fault(
        self,
        rollover_id: u64,
        active: RuntimeSc2Binding,
        future: RuntimeSc2Aie,
        activation_network_time: u64,
    ) -> Option<Seq<char>> {
        if activation_network_time >= 0x1_0000_0000_0000 {
            Some("rollover network time exceeds 48 bits"@)
        } else if self.active() is Err {
            Some("SC2 is not enabled"@)
        } else {
            let current = self.active()->Ok_0;
            if RuntimeSc2Binding::of(current) != active {
                Some("rollover active identity does not match local SC2 state"@)
            } else if self.repeats(rollover_id) {
                let existing = self.rollover->0;
                if existing.activation_network_time != activation_network_time || existing.future
                    != future {
                    Some("repeated SC2 rollover command does not match staged key"@)
                } else {
                    None
                }
            } else if self.overlaps(activation_network_time) {
                Some("new SC2 rollover overlaps the activated rollover"@)
            } else if current.algorithm != future.algorithm {
                Some("rollover may not change the SC2 TEA algorithm"@)
            } else if current.sckn == future.sckn {
                Some("rollover future SCK must use a different SCKN"@)
            } else if self.rollover is None && future.sck_vn as int != (current.sck_vn + 1)
                % 0x1_0000 {
                Some("rollover SCK-VN must increment by exactly one"@)
            } else if future.sck_vn % 2 == current.sck_vn % 2 {
                Some("rollover SCK-VN must increment by exactly one"@)
            } else {
                None
            }
        }
    }

    /// Whether the rollover is already known.
    pub open spec fn repeats(self, rollover_id: u64) -> bool {
        self.rollover is Some && self.rollover->0.rollover_id == rollover_id
    }

    /// Whether a new rollover would not be later than the activated one.
    pub open spec fn overlaps(self, activation_network_time: u64) -> bool {
        self.rollover is Some && self.rollover->0.activated && !(network_time_units(
            activation_network_time,
        ) is Some && network_time_units(self.rollover->0.activation_network_time) is Some
            && network_time_units(activation_network_time)->0 > network_time_units(
            self.rollover->0.activation_network_time,
        )->0)
    }

    /// With a rollover staged.
    pub open spec fn staged(
        self,
        rollover_id: u64,
        future: RuntimeSc2Aie,
        activation_network_time: u64,
    ) -> RuntimeAieConfig {
        if self.repeats(rollover_id) {
            self
        } else {
            RuntimeAieConfig {
                rollover: Some(
                    RuntimeSc2Rollover {
                        rollover_id,
                        activation_network_time,
                        local_activation_tdma: None,
                        activated: false,
                        future,
                        retired_rx: None,
                    },
                ),
                ..self
            }
        }
    }

    /// With the rollover promoted, if it is due.
    pub open spec fn promoted(self, now: TdmaTime) -> RuntimeAieConfig {
        match self.rollover {
            Some(rollover) if rollover.due(now) => match self.sc2 {
                Some(former) => RuntimeAieConfig {
                    sc2: Some(rollover.future),
                    rollover: Some(
                        RuntimeSc2Rollover {
                            activated: true,
                            retired_rx: Some(RetiredKey { key: former, until: now.plus(2) }),
                            ..rollover
                        },
                    ),
                    ..self
                },
                None => RuntimeAieConfig { sc2: Some(rollover.future), ..self },
            },
            _ => self,
        }
    }

    /// The rollover that is promoted at `now`.
    pub open spec fn promotes(self, now: TdmaTime) -> Option<u64> {
        match self.rollover {
            Some(rollover) if rollover.due(now) && self.sc2 is Some => Some(rollover.rollover_id),
            _ => None,
        }
    }

    /// The slots until the target of the rollover, if its slot is still open.
    pub open spec fn slots_to_target(self, current_network_time: u64) -> Option<int> {
        match self.rollover {
            Some(rollover) if !rollover.activated && rollover.local_activation_tdma is None
                && network_time_units(current_network_time) is Some && network_time_units(
                rollover.activation_network_time,
            ) is Some => {
                let slots = slots_until(
                    network_time_units(current_network_time)->0,
                    network_time_units(rollover.activation_network_time)->0,
                );
                if slots <= i32::MAX {
                    Some(slots)
                } else {
                    None
                }
            },
            _ => None,
        }
    }

    /// Whether `slot` is the slot of the rollover: the first one with a
    /// security SYSINFO at or after the target.
    pub open spec fn is_rollover_slot(
        self,
        current_network_time: u64,
        now: TdmaTime,
        slot: TdmaTime,
    ) -> bool {
        security_slot_after(now, self.slots_to_target(current_network_time)->0, slot)
    }

    /// With the slot of the rollover set.
    pub open spec fn scheduled(self, slot: TdmaTime) -> RuntimeAieConfig {
        RuntimeAieConfig {
            rollover: Some(
                RuntimeSc2Rollover { local_activation_tdma: Some(slot), ..self.rollover->0 },
            ),
            ..self
        }
    }

    /// What a terminal that registers is told of the rollover.
    pub open spec fn notification(self) -> Option<(RuntimeSc2Binding, Option<TdmaTime>)> {
        match self.rollover {
            None => None,
            Some(rollover) => if rollover.activated {
                match self.sc2 {
                    Some(key) => Some((RuntimeSc2Binding::of(key), None)),
                    None => None,
                }
            } else {
                match rollover.local_activation_tdma {
                    Some(slot) => Some((RuntimeSc2Binding::of(rollover.future), Some(slot))),
                    None => None,
                }
            },
        }
    }
}

impl Default for RuntimeAieConfig {
    fn default() -> (config: Self)
        ensures
            config == (RuntimeAieConfig {
                enabled: false,
                sc1_allowed: true,
                sc2: None,
                rollover: None,
            }),
    {
        RuntimeAieConfig { enabled: false, sc1_allowed: true, sc2: None, rollover: None }
    }
}

/// The key in use.
pub fn active_sc2(aie: &RuntimeAieConfig) -> (key: Result<RuntimeSc2Aie, AieContextError>)
    ensures
        key == aie.active(),
{
    match aie.sc2 {
        Some(key) => if aie.enabled {
            Ok(key)
        } else {
            Err(AieContextError::Sc2Disabled)
        },
        None => Err(AieContextError::Sc2Disabled),
    }
}

/// The two-second units from the year 2000 to a packed network time.
pub fn tetra_network_time_units(value: u64) -> (units: Option<i64>)
    ensures
        match units {
            Some(n) => network_time_units(value) == Some(n as int) && 0 <= n < 1_100_000_000_000,
            None => network_time_units(value) is None,
        },
{
    if value >= 0x1_0000_0000_0000 {
        return None;
    }
    let year: i64 = 2000 + (value / 2048 % 64) as i64;
    let mut days: i64 = 0;
    let mut y: i64 = 2000;
    while y < year
        invariant
            2000 <= y <= year < 2064,
            days == days_before(y as int),
            0 <= days <= (y - 2000) * 366,
        decreases year - y,
    {
        if y % 4 == 0 && (y % 100 != 0 || y % 400 == 0) {
            days = days + 366;
        } else {
            days = days + 365;
        }
        y = y + 1;
    }
    Some(days * 43_200 + (value / 0x100_0000) as i64)
}

fn next_security_slot(now: TdmaTime, slots: i32) -> (slot: TdmaTime)
    ensures
        slot.wf(),
        security_slot_after(now, slots as int, slot),
{
    reveal(security_slot_after);
    now.add_timeslots(slots).forward_to_sc2_security_sysinfo()
}

fn slots_between(current: i64, target: i64) -> (slots: i64)
    requires
        0 <= current < 1_100_000_000_000,
        0 <= target < 1_100_000_000_000,
    ensures
        slots == slots_until(current as int, target as int),
        0 <= slots,
{
    if target <= current {
        return 0;
    }
    ((target - current) * 2400 + 16) / 17
}

impl RuntimeAieConfig {
    /// The key-free identity which must be advertised for an exact downlink
    /// slot. Downlink is prepared one slot ahead, so the key in use now does
    /// not decide.
    pub fn downlink_sc2_identity_at(&self, time: TdmaTime) -> (identity: Option<Sc2KeyIdentifier>)
        requires
            self.wf(),
        ensures
            identity == match self.air_key(AieDirection::Downlink, time) {
                Ok(key) => Some(key.identity()),
                Err(_) => None,
            },
    {
        if !self.enabled {
            return None;
        }
        match self.sc2_for_air_time(AieDirection::Downlink, time) {
            Ok(key) => Some(RuntimeSc2Binding::from_sc2(&key).key),
            Err(_) => None,
        }
    }

    /// Stages a future key from an authenticated command. A command that is
    /// repeated after a reconnect changes nothing. A new one takes the place of
    /// one that was never activated here, and follows one that was.
    pub fn stage_rollover(
        &mut self,
        rollover_id: u64,
        active: RuntimeSc2Binding,
        future: RuntimeSc2Aie,
        activation_network_time: u64,
    ) -> (r: Result<(), &'static str>)
        requires
            old(self).wf(),
        ensures
            match r {
                Ok(_) => {
                    &&& old(self).staging_fault(
                        rollover_id,
                        active,
                        future,
                        activation_network_time,
                    ) is None
                    &&& *final(self) == old(self).staged(
                        rollover_id,
                        future,
                        activation_network_time,
                    )
                },
                Err(text) => {
                    &&& old(self).staging_fault(
                        rollover_id,
                        active,
                        future,
                        activation_network_time,
                    ) == Some(text@)
                    &&& *final(self) == *old(self)
                },
            },
            future.wf() ==> final(self).wf(),
    {
        if activation_network_time >= 0x1_0000_0000_0000 {
            return Err("rollover network time exceeds 48 bits");
        }
        let current: RuntimeSc2Aie = match active_sc2(self) {
            Ok(key) => key,
            Err(_) => return Err("SC2 is not enabled"),
        };
        if RuntimeSc2Binding::from_sc2(&current) != active {
            return Err("rollover active identity does not match local SC2 state");
        }
        let replaces: bool = self.rollover.is_some();
        if let Some(existing) = self.rollover {
            if existing.rollover_id == rollover_id {
                if existing.activation_network_time != activation_network_time
                    || !existing.future.same_as(&future) {
                    return Err("repeated SC2 rollover command does not match staged key");
                }
                return Ok(());
            }
            if existing.activated {
                let later: bool = match (
                    tetra_network_time_units(activation_network_time),
                    tetra_network_time_units(existing.activation_network_time),
                ) {
                    (Some(new), Some(former)) => new > former,
                    _ => false,
                };
                if !later {
                    return Err("new SC2 rollover overlaps the activated rollover");
                }
            }
        }
        if current.algorithm != future.algorithm {
            return Err("rollover may not change the SC2 TEA algorithm");
        }
        if current.sckn == future.sckn {
            return Err("rollover future SCK must use a different SCKN");
        }
        if !replaces && future.sck_vn as u32 != (current.sck_vn as u32 + 1) % 0x1_0000 {
            return Err("rollover SCK-VN must increment by exactly one");
        }
        if future.sck_vn % 2 == current.sck_vn % 2 {
            return Err("rollover SCK-VN must increment by exactly one");
        }
        self.rollover = Some(
            RuntimeSc2Rollover {
                rollover_id,
                activation_network_time,
                local_activation_tdma: None,
                activated: false,
                future,
                retired_rx: None,
            },
        );
        Ok(())
    }

    /// Whether the rollover has been activated here.
    pub fn rollover_is_activated(&self, rollover_id: u64) -> (r: bool)
        ensures
            r == (self.repeats(rollover_id) && self.rollover->0.activated),
    {
        match self.rollover {
            Some(rollover) => rollover.rollover_id == rollover_id && rollover.activated,
            None => false,
        }
    }

    /// The rollover that is staged and not activated.
    pub fn staged_rollover_id(&self) -> (id: Option<u64>)
        ensures
            id == match self.rollover {
                Some(rollover) if !rollover.activated => Some(rollover.rollover_id),
                _ => None,
            },
    {
        match self.rollover {
            Some(rollover) => if rollover.activated {
                None
            } else {
                Some(rollover.rollover_id)
            },
            None => None,
        }
    }

    /// Cancels a rollover, which is possible only before the station has
    /// crossed its slot; tells whether it did.
    pub fn cancel_staged_rollover(&mut self, rollover_id: u64) -> (cancelled: bool)
        ensures
            cancelled == (old(self).repeats(rollover_id) && !old(self).rollover->0.activated),
            *final(self) == if cancelled {
                RuntimeAieConfig { rollover: None, ..*old(self) }
            } else {
                *old(self)
            },
    {
        let staged: bool = match self.rollover {
            Some(rollover) => rollover.rollover_id == rollover_id && !rollover.activated,
            None => false,
        };
        if staged {
            self.rollover = None;
        }
        staged
    }

    /// Derives the serving cell's slot before the rollover is announced: the
    /// first one at or after the target whose SYSINFO carries the key identity,
    /// so that the matching identity is on the air before any voice channel
    /// uses the new key.
    pub fn schedule_rollover_absolute_iv(
        &mut self,
        current_network_time: u64,
        current_tdma_time: TdmaTime,
    ) -> (scheduled: Option<(u64, TdmaTime)>)
        ensures
            match scheduled {
                Some((id, slot)) => {
                    &&& old(self).slots_to_target(current_network_time) is Some
                    &&& id == old(self).rollover->0.rollover_id
                    &&& slot.wf()
                    &&& old(self).is_rollover_slot(current_network_time, current_tdma_time, slot)
                    &&& *final(self) == old(self).scheduled(slot)
                },
                None => old(self).slots_to_target(current_network_time) is None && *final(self)
                    == *old(self),
            },
    {
        let mut rollover: RuntimeSc2Rollover = match self.rollover {
            Some(rollover) => rollover,
            None => return None,
        };
        if rollover.activated || rollover.local_activation_tdma.is_some() {
            return None;
        }
        let current: i64 = match tetra_network_time_units(current_network_time) {
            Some(units) => units,
            None => return None,
        };
        let target: i64 = match tetra_network_time_units(rollover.activation_network_time) {
            Some(units) => units,
            None => return None,
        };
        let slots: i64 = slots_between(current, target);
        if slots > 0x7fff_ffff {
            return None;
        }
        let time: TdmaTime = next_security_slot(current_tdma_time, slots as i32);
        rollover.local_activation_tdma = Some(time);
        self.rollover = Some(rollover);
        Some((rollover.rollover_id, time))
    }

    /// Promotes a staged key exactly once at its announced slot. The former key
    /// stays for reception during the next two slots, and all sessions move to
    /// the new one.
    pub fn activate_rollover_if_due(
        &mut self,
        current_tdma_time: TdmaTime,
        sessions: &mut RuntimeAieSessions,
    ) -> (activated: Option<u64>)
        requires
            old(self).wf(),
        ensures
            activated == old(self).promotes(current_tdma_time),
            *final(self) == old(self).promoted(current_tdma_time),
            final(sessions)@ == if activated is Some {
                old(sessions)@.rebound(RuntimeSc2Binding::of(old(self).rollover->0.future))
            } else {
                old(sessions)@
            },
            final(self).wf(),
            old(sessions)@.wf() ==> final(sessions)@.wf(),
    {
        let mut rollover: RuntimeSc2Rollover = match self.rollover {
            Some(rollover) => rollover,
            None => return None,
        };
        let due: bool = match rollover.local_activation_tdma {
            Some(activation) => current_tdma_time.age(activation) >= 0,
            None => false,
        };
        if rollover.activated || !due {
            return None;
        }
        let former: Option<RuntimeSc2Aie> = self.sc2;
        self.sc2 = Some(rollover.future);
        match former {
            None => None,
            Some(key) => {
                sessions.rebind_all_to(&rollover.future);
                rollover.retired_rx = Some(
                    RetiredKey { key, until: current_tdma_time.add_timeslots(2) },
                );
                rollover.activated = true;
                self.rollover = Some(rollover);
                Some(rollover.rollover_id)
            },
        }
    }

    /// The key for the actual slot on the air rather than for the instant at
    /// which a block happens to be built.
    pub fn sc2_for_air_time(&self, direction: AieDirection, time: TdmaTime) -> (key: Result<
        RuntimeSc2Aie,
        AieContextError,
    >)
        ensures
            key == self.air_key(direction, time),
    {
        let active: RuntimeSc2Aie = match active_sc2(self) {
            Ok(key) => key,
            Err(error) => return Err(error),
        };
        let rollover: RuntimeSc2Rollover = match self.rollover {
            Some(rollover) => rollover,
            None => return Ok(active),
        };
        let activation: TdmaTime = match rollover.local_activation_tdma {
            Some(activation) => activation,
            None => return Ok(active),
        };
        let slots_after_activation: i32 = time.age(activation);
        let in_grace: bool = slots_after_activation < 0 || (direction == AieDirection::Uplink
            && slots_after_activation < 2);
        if in_grace {
            if !rollover.activated {
                return Ok(active);
            }
            return match rollover.retired_rx {
                Some(retired) => Ok(retired.key),
                None => Err(AieContextError::StaleKeyIdentity),
            };
        }
        if direction == AieDirection::Downlink || !rollover.activated {
            return Ok(rollover.future);
        }
        Ok(active)
    }

    /// What a newly registered or roamed terminal must be told. Before the
    /// local change it repeats the cell's scheduled slot; after it the new key
    /// is reported as in use.
    pub fn rollover_notification(&self) -> (notification: Option<
        (RuntimeSc2Binding, Option<TdmaTime>),
    >)
        requires
            self.wf(),
        ensures
            notification == self.notification(),
    {
        let rollover: RuntimeSc2Rollover = match self.rollover {
            Some(rollover) => rollover,
            None => return None,
        };
        if rollover.activated {
            match self.sc2 {
                Some(key) => Some((RuntimeSc2Binding::from_sc2(&key), None)),
                None => None,
            }
        } else {
            match rollover.local_activation_tdma {
                Some(slot) => Some((RuntimeSc2Binding::from_sc2(&rollover.future), Some(slot))),
                None => None,
            }
        }
    }
}

/// No slot on the air changes its key when the change is made in this state:
/// neither a burst that is still to be sent for an earlier slot, nor one that
/// was prepared ahead, nor an uplink slot of the grace interval.
pub proof fn law_promotion_changes_no_slot(
    config: RuntimeAieConfig,
    now: TdmaTime,
    direction: AieDirection,
    time: TdmaTime,
)
    requires
        config.enabled,
        config.sc2 is Some,
    ensures
        config.promoted(now).air_key(direction, time) == config.air_key(direction, time),
{
}

/// A rollover is promoted exactly once, and cannot be promoted before its slot.
pub proof fn law_promotion_happens_once(
    config: RuntimeAieConfig,
    now: TdmaTime,
    later: TdmaTime,
)
    requires
        config.promotes(now) is Some,
    ensures
        now.since(config.rollover->0.local_activation_tdma->0) >= 0,
        config.promoted(now).promotes(later) is None,
        config.promoted(now).promoted(later) == config.promoted(now),
        config.promoted(now).sc2 == Some(config.rollover->0.future),
{
}

/// Downlink changes its key exactly at the slot of the rollover, uplink exactly
/// two slots after it.
pub proof fn law_cutover_slots(config: RuntimeAieConfig, time: TdmaTime)
    requires
        config.enabled,
        config.sc2 is Some,
        config.rollover is Some,
        !config.rollover->0.activated,
        config.rollover->0.local_activation_tdma is Some,
    ensures
        config.air_key(AieDirection::Downlink, time) == if time.since(
            config.rollover->0.local_activation_tdma->0,
        ) >= 0 {
            Ok::<RuntimeSc2Aie, AieContextError>(config.rollover->0.future)
        } else {
            Ok(config.sc2->0)
        },
        config.air_key(AieDirection::Uplink, time) == if time.since(
            config.rollover->0.local_activation_tdma->0,
        ) >= 2 {
            Ok::<RuntimeSc2Aie, AieContextError>(config.rollover->0.future)
        } else {
            Ok(config.sc2->0)
        },
{
}

/// A staged key differs from the one in use in its number and in the parity of
/// its version, and has the same algorithm.
pub proof fn law_staged_key_is_told_apart(
    config: RuntimeAieConfig,
    rollover_id: u64,
    active: RuntimeSc2Binding,
    future: RuntimeSc2Aie,
    activation_network_time: u64,
)
    requires
        config.staging_fault(rollover_id, active, future, activation_network_time) is None,
        !config.repeats(rollover_id),
    ensures
        future.sckn != active.key.sckn,
        future.sck_vn % 2 != active.key.sck_vn % 2,
        future.identity().algorithm == active.key.algorithm,
{
}

/// A command may be repeated: what was staged stays as it is.
pub proof fn law_staging_can_be_repeated(
    config: RuntimeAieConfig,
    rollover_id: u64,
    active: RuntimeSc2Binding,
    future: RuntimeSc2Aie,
    activation_network_time: u64,
)
    requires
        config.staging_fault(rollover_id, active, future, activation_network_time) is None,
    ensures
        ({
            let staged = config.staged(rollover_id, future, activation_network_time);
            &&& staged.staging_fault(rollover_id, active, future, activation_network_time) is None
            &&& staged.staged(rollover_id, future, activation_network_time) == staged
        }),
{
}

/// The slot of a rollover carries the SYSINFO that names the key.
pub proof fn law_rollover_slot_names_the_key(now: TdmaTime, slots: int, slot: TdmaTime)
    requires
        security_slot_after(now, slots, slot),
    ensures
        slot.wf(),
        crate::tdma::slot_is_security_sysinfo(slot.slots()),
{
    reveal(security_slot_after);
    let start = now.plus(slots);
    let wait = choose|wait: int| #[trigger]
        start.next_security_sysinfo(wait) && slot == start.plus(wait);
    crate::tdma::lemma_at((start.slots() + wait) % (crate::tdma::SLOTS_PER_CYCLE as int));
}

/// The slots until a target are the fewest that reach it.
pub proof fn law_target_is_rounded_up(current: int, target: int)
    requires
        current <= target,
    ensures
        slots_until(current, target) * 17 >= (target - current) * 2400,
        (slots_until(current, target) - 1) * 17 < (target - current) * 2400,
{
}

} // verus!
