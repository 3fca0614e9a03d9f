//! Timeslots and the circuits that run on them.
use crate::cmce::pdu::{CircuitModeType, CmceCircuit, CommunicationType, Direction};
use crate::table::Table;
use vstd::prelude::*;

verus! {

/// Who holds a timeslot.
#[derive(Debug, Clone, Copy, PartialEq, Eq, Structural)]
pub enum TimeslotOwner {
    Brew,
    Cmce,
}

/// The traffic timeslots of the carrier. Timeslot 1 is reserved for cell
/// control and never handed out.
#[derive(Debug, Clone, Copy, PartialEq, Eq, Structural)]
pub struct TimeslotAllocator {
    pub ts2: Option<TimeslotOwner>,
    pub ts3: Option<TimeslotOwner>,
    pub ts4: Option<TimeslotOwner>,
}

impl TimeslotAllocator {
    /// Who holds `ts`; nobody where it is free or no traffic timeslot.
    pub open spec fn owner(self, ts: u8) -> Option<TimeslotOwner> {
        if ts == 2 {
            self.ts2
        } else if ts == 3 {
            self.ts3
        } else if ts == 4 {
            self.ts4
        } else {
            None
        }
    }

    /// With `ts` held by `owner`.
    pub open spec fn with(self, ts: u8, owner: Option<TimeslotOwner>) -> TimeslotAllocator {
        if ts == 2 {
            TimeslotAllocator { ts2: owner, ..self }
        } else if ts == 3 {
            TimeslotAllocator { ts3: owner, ..self }
        } else if ts == 4 {
            TimeslotAllocator { ts4: owner, ..self }
        } else {
            self
        }
    }

    /// The lowest free traffic timeslot.
    pub open spec fn lowest_free(self) -> Option<u8> {
        if self.ts2 is None {
            Some(2u8)
        } else if self.ts3 is None {
            Some(3u8)
        } else if self.ts4 is None {
            Some(4u8)
        } else {
            None
        }
    }

    /// Hands the lowest free traffic timeslot to `owner`.
    pub fn allocate_any(&mut self, owner: TimeslotOwner) -> (ts: Option<u8>)
        ensures
            ts == old(self).lowest_free(),
            match ts {
                Some(slot) => *final(self) == old(self).with(slot, Some(owner)),
                None => *final(self) == *old(self),
            },
    {
        if self.ts2.is_none() {
            self.ts2 = Some(owner);
            Some(2)
        } else if self.ts3.is_none() {
            self.ts3 = Some(owner);
            Some(3)
        } else if self.ts4.is_none() {
            self.ts4 = Some(owner);
            Some(4)
        } else {
            None
        }
    }

    /// Frees `ts` if `owner` holds it; tells whether it did.
    pub fn release(&mut self, owner: TimeslotOwner, ts: u8) -> (released: bool)
        ensures
            released == (old(self).owner(ts) == Some(owner)),
            *final(self) == if released {
                old(self).with(ts, None)
            } else {
                *old(self)
            },
    {
        let holder: Option<TimeslotOwner> = match ts {
            2 => self.ts2,
            3 => self.ts3,
            4 => self.ts4,
            _ => None,
        };
        let held: bool = match holder {
            Some(current) => current == owner,
            None => false,
        };
        if held {
            match ts {
                2 => { self.ts2 = None; },
                3 => { self.ts3 = None; },
                _ => { self.ts4 = None; },
            }
        }
        held
    }
}

impl Default for TimeslotAllocator {
    /// Every traffic timeslot is free.
    fn default() -> (slots: Self)
        ensures
            slots == (TimeslotAllocator { ts2: None, ts3: None, ts4: None }),
    {
        TimeslotAllocator { ts2: None, ts3: None, ts4: None }
    }
}

/// The lowest call identifier that the station gives to a call of its own.
pub const FIRST_CALL_ID: u16 = 4;

/// The highest 14-bit call identifier.
pub const LAST_CALL_ID: u16 = 0x3fff;

/// The lowest usage marker of a traffic channel.
pub const FIRST_USAGE: u8 = 4;

/// The highest six-bit usage marker.
pub const LAST_USAGE: u8 = 63;

/// The open circuits.
#[derive(Debug)]
pub struct CircuitMgr {
    circuits: Table<u8, CmceCircuit>,
    next_call_id: u16,
    next_usage: u8,
}

/// The open circuits by timeslot, with the numbers that come next.
#[verifier::ext_equal]
pub struct CircuitView {
    pub circuits: Seq<(u8, CmceCircuit)>,
    pub next_call_id: u16,
    pub next_usage: u8,
}

/// The call identifier after `id`.
pub open spec fn call_id_after(id: u16) -> u16 {
    if FIRST_CALL_ID <= id < LAST_CALL_ID {
        (id + 1) as u16
    } else {
        FIRST_CALL_ID
    }
}

/// The usage marker after `usage`.
pub open spec fn usage_after(usage: u8) -> u8 {
    if FIRST_USAGE <= usage < LAST_USAGE {
        (usage + 1) as u8
    } else {
        FIRST_USAGE
    }
}

impl View for CircuitMgr {
    type V = CircuitView;

    closed spec fn view(&self) -> CircuitView {
        CircuitView {
            circuits: self.circuits@,
            next_call_id: self.next_call_id,
            next_usage: self.next_usage,
        }
    }
}

impl CircuitView {
    /// The circuit that opens on `ts`. It belongs to the call `call_id`, or to
    /// a new call of the station.
    pub open spec fn circuit(
        self,
        ts: u8,
        comm_type: CommunicationType,
        call_id: Option<u16>,
        duplex: bool,
    ) -> CmceCircuit {
        CmceCircuit {
            call_id: match call_id {
                Some(id) => id,
                None => self.next_call_id,
            },
            direction: Direction::Both,
            ts,
            usage: self.next_usage,
            circuit_mode: CircuitModeType::TchS,
            comm_type,
            duplex,
            speech_service: Some(0u8),
            etee_encrypted: false,
        }
    }

    /// After `circuit` has opened. An identifier of the station is used up only
    /// where the call had none.
    pub open spec fn opened(self, circuit: CmceCircuit, call_id: Option<u16>) -> CircuitView {
        CircuitView {
            circuits: crate::table::put(self.circuits, circuit.ts, circuit),
            next_call_id: if call_id is None {
                call_id_after(self.next_call_id)
            } else {
                self.next_call_id
            },
            next_usage: usage_after(self.next_usage),
        }
    }
}

impl CircuitMgr {
    /// No circuit is open.
    pub fn new() -> (manager: Self)
        ensures
            manager@ == (CircuitView {
                circuits: Seq::empty(),
                next_call_id: FIRST_CALL_ID,
                next_usage: FIRST_USAGE,
            }),
    {
        CircuitMgr { circuits: Table::new(), next_call_id: FIRST_CALL_ID, next_usage: FIRST_USAGE }
    }

    /// Opens a circuit on the lowest free timeslot, for the call `call_id` or,
    /// where there is none, for a new call. Fails where no timeslot is free.
    pub fn allocate_circuit(
        &mut self,
        slots: &mut TimeslotAllocator,
        comm_type: CommunicationType,
        call_id: Option<u16>,
        duplex: bool,
    ) -> (opened: Option<CmceCircuit>)
        ensures
            match old(slots).lowest_free() {
                Some(ts) => {
                    let circuit = old(self)@.circuit(ts, comm_type, call_id, duplex);
                    &&& opened == Some(circuit)
                    &&& final(self)@ == old(self)@.opened(circuit, call_id)
                    &&& *final(slots) == old(slots).with(ts, Some(TimeslotOwner::Cmce))
                },
                None => {
                    &&& opened is None
                    &&& final(self)@ == old(self)@
                    &&& *final(slots) == *old(slots)
                },
            },
    {
        let ts: u8 = match slots.allocate_any(TimeslotOwner::Cmce) {
            Some(ts) => ts,
            None => return None,
        };
        let id: u16 = match call_id {
            Some(id) => id,
            None => {
                let id: u16 = self.next_call_id;
                self.next_call_id = if FIRST_CALL_ID <= id && id < LAST_CALL_ID {
                    id + 1
                } else {
                    FIRST_CALL_ID
                };
                id
            },
        };
        let usage: u8 = self.next_usage;
        self.next_usage = if FIRST_USAGE <= usage && usage < LAST_USAGE {
            usage + 1
        } else {
            FIRST_USAGE
        };
        let circuit = CmceCircuit {
            call_id: id,
            direction: Direction::Both,
            ts,
            usage,
            circuit_mode: CircuitModeType::TchS,
            comm_type,
            duplex,
            speech_service: Some(0),
            etee_encrypted: false,
        };
        self.circuits.insert(ts, circuit);
        Some(circuit)
    }

    /// Closes the circuit on `ts` and returns it.
    pub fn close_circuit(&mut self, ts: u8) -> (closed: Option<CmceCircuit>)
        ensures
            closed == crate::table::lookup(old(self)@.circuits, ts),
            final(self)@ == (CircuitView {
                circuits: crate::table::del(old(self)@.circuits, ts),
                ..old(self)@
            }),
    {
        self.circuits.remove(ts)
    }
}

/// A timeslot is handed out only while it is free and is one for traffic, the
/// lower ones first, and none only while all three are held.
pub proof fn law_free_timeslot_is_handed_out(slots: TimeslotAllocator, ts: u8)
    requires
        2 <= ts <= 4,
    ensures
        match slots.lowest_free() {
            Some(lowest) => {
                &&& 2 <= lowest <= 4
                &&& slots.owner(lowest) is None
                &&& ts < lowest ==> slots.owner(ts) is Some
            },
            None => slots.owner(ts) is Some,
        },
{
}

/// A timeslot is held by who it was handed to, no other one is touched, and
/// timeslot 1 is held by nobody.
pub proof fn law_timeslots_are_held_apart(
    slots: TimeslotAllocator,
    ts: u8,
    other: u8,
    owner: Option<TimeslotOwner>,
)
    requires
        2 <= ts <= 4,
    ensures
        slots.with(ts, owner).owner(ts) == owner,
        other != ts ==> slots.with(ts, owner).owner(other) == slots.owner(other),
        slots.with(ts, owner).owner(1) is None,
{
}

/// A circuit opens on its timeslot for the call that asked for it, as speech in
/// both directions; a call of the station's own gets an identifier that no other
/// circuit was just opened with, and every circuit a usage marker of its own.
pub proof fn law_circuit_is_opened_for_its_call(
    view: CircuitView,
    ts: u8,
    other: u8,
    comm_type: CommunicationType,
    call_id: Option<u16>,
    duplex: bool,
)
    requires
        other != ts,
        4 <= view.next_call_id <= 16383,
        4 <= view.next_usage <= 63,
    ensures
        ({
            let circuit = view.circuit(ts, comm_type, call_id, duplex);
            let opened = view.opened(circuit, call_id);
            &&& circuit.ts == ts && circuit.comm_type == comm_type && circuit.duplex == duplex
            &&& circuit.direction == Direction::Both
            &&& circuit.circuit_mode == CircuitModeType::TchS
            &&& circuit.speech_service == Some(0u8) && !circuit.etee_encrypted
            &&& call_id is Some ==> circuit.call_id == call_id->0 && opened.next_call_id
                == view.next_call_id
            &&& call_id is None ==> circuit.call_id == view.next_call_id && opened.next_call_id
                == if view.next_call_id == 16383 {
                4int
            } else {
                view.next_call_id + 1
            }
            &&& circuit.usage == view.next_usage
            &&& opened.next_usage == if view.next_usage == 63 {
                4int
            } else {
                view.next_usage + 1
            }
            &&& crate::table::lookup(opened.circuits, ts) == Some(circuit)
            &&& crate::table::lookup(opened.circuits, other) == crate::table::lookup(
                view.circuits,
                other,
            )
        }),
{
    let circuit = view.circuit(ts, comm_type, call_id, duplex);
    crate::table::law_lookup_after_put(view.circuits, ts, circuit, ts);
    crate::table::law_lookup_after_put(view.circuits, ts, circuit, other);
}

} // verus!
