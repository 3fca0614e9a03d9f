//! Call control of the base station.
//!
//! The procedures are stated in `cc_model`, `cc_procedures` and `cc_events`;
//! here they are carried out.
use crate::cmce::cc_model::{
    ActiveCall, CachedSetup, CallOrigin, Candidates, CcRun, CcView, CentralSetup, CircuitMgrCmd,
    FloorTimer, ListeningCandidate, ListeningService, PrivateCallLocal, ReleasingCall,
    ReleasingPrivateCircuit, RemoteCall, SubscriberAction, CLOSE_AFTER_SEND_TIMESLOTS,
    HANGTIME_TIMESLOTS, NOTIFICATION_LE_ACKNOWLEDGEMENT, NOTIFICATION_LE_BROADCAST,
    PREEMPTION_GUARD_TIMESLOTS, PRIVATE_FLOOR_RESPONSE_GRACE_TIMESLOTS,
    RESTORE_FLOOR_INDICATION_DELAY_TIMESLOTS,
};
use crate::cmce::circuit::{CircuitMgr, TimeslotAllocator, TimeslotOwner};
use crate::cmce::pdu::{
    AssociatedChannel, BasicServiceInformation, CallControl, CallMessage, CallParty, CallTimeout,
    CallTimeoutSetupPhase, CcMessage, ChanAllocReq, CircuitModeType, CmceCircuit,
    CommunicationType, DConnect, DSetup, DisconnectCause, DownlinkPdu, HandoverChannelAllocation,
    Layer2Service, Membership, PartyTypeIdentifier, SetupRequest, SsiType, SwmiLink, TetraAddress,
    TetraEntity, TransmissionGrant, USetup, UnitdataReq, UplinkPdu, UplinkPrim,
};
use crate::table::Table;
use crate::tdma::TdmaTime;
use vstd::prelude::*;

verus! {

/// What call control sees and reaches.
pub struct CcPort {
    /// The messages that call control has handed on.
    pub queue: Vec<CcMessage>,
    /// The timeslots of the carrier.
    pub timeslots: TimeslotAllocator,
    /// The connection to the central SwMI.
    pub swmi: SwmiLink,
    /// The groups that Brew carries, as closed ranges.
    pub brew: Vec<(u32, u32)>,
    /// The number of the main carrier.
    pub main_carrier: u16,
}

impl CcPort {
    /// Whether `later` differs from `self` at most in what was handed on.
    pub open spec fn same_but_queue(self, later: CcPort) -> bool {
        &&& later.timeslots == self.timeslots
        &&& later.swmi == self.swmi
        &&& later.brew@ == self.brew@
        &&& later.main_carrier == self.main_carrier
    }

    /// Hands `message` on.
    fn emit(&mut self, message: CcMessage)
        ensures
            final(self).queue@ == old(self).queue@.push(message),
            old(self).same_but_queue(*final(self)),
    {
        self.queue.push(message);
    }

    /// Hands a control message on.
    fn control(&mut self, dest: TetraEntity, message: CallControl)
        ensures
            final(self).queue@ == old(self).queue@.push(CcMessage::Control(dest, message)),
            old(self).same_but_queue(*final(self)),
    {
        self.queue.push(CcMessage::Control(dest, message));
    }

    /// Hands a message for the central SwMI on.
    fn submit(&mut self, message: CallMessage)
        ensures
            final(self).queue@ == old(self).queue@.push(CcMessage::Swmi(message)),
            old(self).same_but_queue(*final(self)),
    {
        self.queue.push(CcMessage::Swmi(message));
    }

    /// Whether Brew carries the group.
    fn brew_carries(&self, gssi: u32) -> (r: bool)
        ensures
            r == crate::cmce::cc_model::brew_carries(self.brew@, gssi),
    {
        let mut i: usize = 0;
        while i < self.brew.len()
            invariant
                i <= self.brew@.len(),
                forall|j: int|
                    0 <= j < i ==> !((#[trigger] self.brew@[j]).0 <= gssi <= self.brew@[j].1),
            decreases self.brew@.len() - i,
        {
            let (low, high) = self.brew[i];
            if low <= gssi && gssi <= high {
                assert(self.brew@[i as int].0 <= gssi <= self.brew@[i as int].1);
                return true;
            }
            i = i + 1;
        }
        false
    }

    /// Frees the timeslot if call control holds it.
    fn free_slot(&mut self, ts: u8)
        ensures
            final(self).queue@ == old(self).queue@,
            final(self).timeslots == if old(self).timeslots.owner(ts) == Some(TimeslotOwner::Cmce) {
                old(self).timeslots.with(ts, None)
            } else {
                old(self).timeslots
            },
            final(self).swmi == old(self).swmi,
            final(self).brew@ == old(self).brew@,
            final(self).main_carrier == old(self).main_carrier,
    {
        self.timeslots.release(TimeslotOwner::Cmce, ts);
    }
}

/// The channel assignment of one timeslot.
fn allocation(usage: Option<u8>, ts: u8) -> (request: ChanAllocReq)
    ensures
        request == crate::cmce::cc_model::allocation(usage, ts),
{
    ChanAllocReq { usage, timeslots: (ts == 1, ts == 2, ts == 3, ts == 4) }
}

/// A downlink PDU of call control's own.
fn unitdata(
    pdu: DownlinkPdu,
    chan_alloc: Option<ChanAllocReq>,
    address: TetraAddress,
    layer2service: Layer2Service,
    receipt: Option<u64>,
    associated_channel: Option<AssociatedChannel>,
) -> (message: CcMessage)
    ensures
        message == crate::cmce::cc_model::unitdata(
            pdu,
            chan_alloc,
            address,
            layer2service,
            receipt,
            associated_channel,
        ),
{
    CcMessage::Downlink(
        UnitdataReq {
            pdu,
            handle: 0,
            endpoint_id: 0,
            link_id: 0,
            layer2service,
            stealing_permission: false,
            chan_alloc,
            associated_channel,
            main_address: address,
            receipt,
        },
    )
}

/// A downlink PDU that is stolen from the traffic channel on `ts`.
fn stolen(pdu: DownlinkPdu, address: TetraAddress, ts: u8) -> (message: CcMessage)
    ensures
        message == crate::cmce::cc_model::stolen(pdu, address, ts),
{
    CcMessage::Downlink(
        UnitdataReq {
            pdu,
            handle: 0,
            endpoint_id: 0,
            link_id: 0,
            layer2service: Layer2Service::Unacknowledged,
            stealing_permission: true,
            chan_alloc: Some(allocation(None, ts)),
            associated_channel: None,
            main_address: address,
            receipt: None,
        },
    )
}

/// A downlink PDU that answers an uplink PDU on its link.
fn reply(
    prim: UplinkPrim,
    pdu: DownlinkPdu,
    chan_alloc: Option<ChanAllocReq>,
    address: TetraAddress,
    layer2service: Layer2Service,
) -> (message: CcMessage)
    ensures
        message == crate::cmce::cc_model::reply(prim, pdu, chan_alloc, address, layer2service),
{
    CcMessage::Downlink(
        UnitdataReq {
            pdu,
            handle: prim.handle,
            endpoint_id: prim.endpoint_id,
            link_id: prim.link_id,
            layer2service,
            stealing_permission: false,
            chan_alloc,
            associated_channel: None,
            main_address: address,
            receipt: None,
        },
    )
}

/// Call control of the base station.
pub struct CcBsSubentity {
    dltime: TdmaTime,
    /// The D-SETUP of each group call, for late entry.
    cached_setups: Table<u16, CachedSetup>,
    /// The calls that wait for a terminal to restore its transmission. Their
    /// D-SETUP names another speaker and is not repeated.
    restore_prepared: Table<u16, bool>,
    circuits: CircuitMgr,
    active_calls: Table<u16, ActiveCall>,
    /// The terminals of this cell.
    known: Table<u32, bool>,
    /// Which terminal is a member of which group.
    members: Table<Membership, bool>,
    /// The class of usage that a terminal attached a group with.
    class_of_usage: Table<Membership, u8>,
    scanning: Table<u32, bool>,
    /// The last channels of each terminal.
    candidates: Table<u32, Candidates>,
    /// The released calls whose circuit is still open.
    releasing_calls: Vec<ReleasingCall>,
    /// The U-SETUPs that the central SwMI decides on.
    pending_setups: Table<Membership, SetupRequest>,
    central_setups: Table<Membership, CentralSetup>,
    /// The central calls that wait for a listener.
    pending_remote: Table<u16, RemoteCall>,
    /// The floor grants that wait for an interruption.
    pending_grants: Table<u16, FloorTimer>,
    /// The floor requests in private calls that the central SwMI decides on.
    pending_private_floors: Table<CallParty, TdmaTime>,
    /// The speakers to be named after a restoration.
    pending_restore_floors: Table<CallParty, FloorTimer>,
    next_command: u64,
    next_receipt: u64,
    private_calls: Table<u16, PrivateCallLocal>,
    pending_private_setups: Table<u32, SetupRequest>,
    private_circuits: Table<CallParty, CmceCircuit>,
    releasing_private: Vec<ReleasingPrivateCircuit>,
}

impl View for CcBsSubentity {
    type V = CcView;

    closed spec fn view(&self) -> CcView {
        CcView {
            dltime: self.dltime,
            cached_setups: self.cached_setups@,
            restore_prepared: self.restore_prepared@,
            circuits: self.circuits@,
            active_calls: self.active_calls@,
            known: self.known@,
            members: self.members@,
            class_of_usage: self.class_of_usage@,
            scanning: self.scanning@,
            candidates: self.candidates@,
            releasing_calls: self.releasing_calls@,
            pending_setups: self.pending_setups@,
            central_setups: self.central_setups@,
            pending_remote: self.pending_remote@,
            pending_grants: self.pending_grants@,
            pending_private_floors: self.pending_private_floors@,
            pending_restore_floors: self.pending_restore_floors@,
            next_command: self.next_command,
            next_receipt: self.next_receipt,
            private_calls: self.private_calls@,
            pending_private_setups: self.pending_private_setups@,
            private_circuits: self.private_circuits@,
            releasing_private: self.releasing_private@,
        }
    }
}

/// The state of call control before anything has happened.
pub open spec fn fresh() -> CcView {
    CcView {
        dltime: TdmaTime { h: 0, m: 1, f: 1, t: 1 },
        cached_setups: Seq::empty(),
        restore_prepared: Seq::empty(),
        circuits: crate::cmce::circuit::CircuitView {
            circuits: Seq::empty(),
            next_call_id: crate::cmce::circuit::FIRST_CALL_ID,
            next_usage: crate::cmce::circuit::FIRST_USAGE,
        },
        active_calls: Seq::empty(),
        known: Seq::empty(),
        members: Seq::empty(),
        class_of_usage: Seq::empty(),
        scanning: Seq::empty(),
        candidates: Seq::empty(),
        releasing_calls: Seq::empty(),
        pending_setups: Seq::empty(),
        central_setups: Seq::empty(),
        pending_remote: Seq::empty(),
        pending_grants: Seq::empty(),
        pending_private_floors: Seq::empty(),
        pending_restore_floors: Seq::empty(),
        next_command: 1,
        next_receipt: 1,
        private_calls: Seq::empty(),
        pending_private_setups: Seq::empty(),
        private_circuits: Seq::empty(),
        releasing_private: Seq::empty(),
    }
}

impl CcBsSubentity {
    /// Call control together with what it sees and reaches.
    pub open spec fn run(&self, port: CcPort) -> CcRun {
        CcRun {
            st: self@,
            queue: port.queue@,
            slots: port.timeslots,
            swmi: port.swmi,
            brew: port.brew@,
            carrier: port.main_carrier,
        }
    }

    /// Call control before anything has happened.
    pub fn new() -> (cc: Self)
        ensures
            cc@ == fresh(),
    {
        CcBsSubentity {
            dltime: TdmaTime::default(),
            cached_setups: Table::new(),
            restore_prepared: Table::new(),
            circuits: CircuitMgr::new(),
            active_calls: Table::new(),
            known: Table::new(),
            members: Table::new(),
            class_of_usage: Table::new(),
            scanning: Table::new(),
            candidates: Table::new(),
            releasing_calls: Vec::new(),
            pending_setups: Table::new(),
            central_setups: Table::new(),
            pending_remote: Table::new(),
            pending_grants: Table::new(),
            pending_private_floors: Table::new(),
            pending_restore_floors: Table::new(),
            next_command: 1,
            next_receipt: 1,
            private_calls: Table::new(),
            pending_private_setups: Table::new(),
            private_circuits: Table::new(),
            releasing_private: Vec::new(),
        }
    }

    // -----------------------------------------------------------------------
    // Subscribers and what they listen to
    // -----------------------------------------------------------------------

    /// Whether a terminal of this cell is a member of the group.
    pub fn has_listener(&self, gssi: u32) -> (r: bool)
        ensures
            r == self@.has_listener(gssi),
    {
        let mut i: usize = 0;
        while i < self.members.len()
            invariant
                i <= self.members@.len(),
                forall|j: int| 0 <= j < i ==> (#[trigger] self.members@[j]).0.gssi != gssi,
            decreases self.members@.len() - i,
        {
            let (member, _) = self.members.entry(i);
            if member.gssi == gssi {
                assert(self@.members[i as int].0.gssi == gssi);
                return true;
            }
            i = i + 1;
        }
        false
    }

    /// Whether the floor holder is a terminal of this cell and a member of the
    /// group.
    fn floor_holder_is_local_member(&self, gssi: u32, floor_itsi: u32) -> (r: bool)
        ensures
            r == self@.floor_holder_is_local_member(gssi, floor_itsi),
    {
        floor_itsi != 0 && self.members.contains_key(Membership { issi: floor_itsi, gssi })
    }

    /// The scan priority of a group for a terminal.
    pub fn effective_scan_priority(&self, issi: u32, gssi: u32) -> (priority: Option<u8>)
        ensures
            priority == self@.scan_priority(issi, gssi),
    {
        match self.class_of_usage.get(Membership { issi, gssi }) {
            Some(class_of_usage) => match class_of_usage {
                2 => Some(2),
                3 => Some(3),
                4 => Some(4),
                5 => Some(5),
                7 => Some(3),
                _ => None,
            },
            None => None,
        }
    }

    /// Whether a group is locked for the terminal.
    fn has_locked_group(&self, issi: u32) -> (r: bool)
        ensures
            r == self@.has_locked_group(issi),
    {
        let mut i: usize = 0;
        while i < self.class_of_usage.len()
            invariant
                i <= self.class_of_usage@.len(),
                forall|j: int|
                    0 <= j < i ==> !((#[trigger] self.class_of_usage@[j]).0.issi == issi
                        && self.class_of_usage@[j].1 == 6),
            decreases self.class_of_usage@.len() - i,
        {
            let (member, class_of_usage) = self.class_of_usage.entry(i);
            if member.issi == issi && class_of_usage == 6 {
                assert(self@.class_of_usage[i as int].0.issi == issi);
                return true;
            }
            i = i + 1;
        }
        false
    }

    /// Whether the terminal receives calls of the group.
    pub fn group_is_receivable(&self, issi: u32, gssi: u32) -> (r: bool)
        ensures
            r == self@.is_receivable(issi, gssi),
    {
        let class_of_usage: u8 = match self.class_of_usage.get(Membership { issi, gssi }) {
            Some(class_of_usage) => class_of_usage,
            None => return false,
        };
        if class_of_usage == 6 {
            return true;
        }
        if self.has_locked_group(issi) || class_of_usage == 0 || class_of_usage == 1 {
            return false;
        }
        if class_of_usage == 4 || class_of_usage == 7 {
            return true;
        }
        match self.scanning.get(issi) {
            Some(enabled) => enabled,
            None => true,
        }
    }

    /// Whether the terminal is in a connected private call with a circuit here.
    pub fn private_call_is_connected_for(&self, issi: u32) -> (r: bool)
        ensures
            r == self@.in_private_call(issi),
    {
        let mut i: usize = 0;
        while i < self.private_calls.len()
            invariant
                i <= self.private_calls@.len(),
                forall|j: int| 0 <= j < i ==> !#[trigger] self@.private_call_holds(issi, j),
            decreases self.private_calls@.len() - i,
        {
            let (call_id, call) = self.private_calls.entry(i);
            if call.connected && (call.caller_itsi == issi || call.callee_itsi == issi)
                && self.private_circuits.contains_key(CallParty { call_id, issi }) {
                assert(self@.private_call_holds(issi, i as int));
                return true;
            }
            assert(!self@.private_call_holds(issi, i as int));
            i = i + 1;
        }
        false
    }

    /// The last channels of a terminal.
    fn candidates_of(&self, issi: u32) -> (held: Candidates)
        ensures
            held == self@.candidates_of(issi),
    {
        match self.candidates.get(issi) {
            Some(held) => held,
            None => Candidates { first: None, second: None, third: None },
        }
    }

    /// Records a channel of a terminal.
    fn record_listening_candidate(
        &mut self,
        issi: u32,
        candidate: ListeningCandidate,
        Ghost(port): Ghost<CcPort>,
    )
        ensures
            final(self).run(port) == old(self).run(port).record(issi, candidate),
    {
        let held = self.candidates_of(issi);
        let pushed = pushed(held, candidate);
        self.candidates.insert(issi, pushed);
    }

    /// Records the channel on which a terminal was heard.
    fn record_uplink_call_location(
        &mut self,
        issi: u32,
        call_id: u16,
        Ghost(port): Ghost<CcPort>,
    )
        ensures
            final(self).run(port) == old(self).run(port).record_uplink(issi, call_id),
    {
        proof {
            reveal(CcRun::record_uplink);
        }
        match self.private_circuits.get(CallParty { call_id, issi }) {
            Some(circuit) => {
                let peer_issi: u32 = match self.private_calls.get(call_id) {
                    Some(call) => peer_of(call, issi),
                    None => 0,
                };
                let candidate = ListeningCandidate {
                    call_id,
                    timeslot: circuit.ts,
                    usage: circuit.usage,
                    service: ListeningService::Private { peer_issi },
                    last_seen: self.dltime,
                    confirmed: true,
                };
                self.record_listening_candidate(issi, candidate, Ghost(port));
            },
            None => {
                if let Some(call) = self.active_calls.get(call_id) {
                    let candidate = self.group_candidate(call_id, call, true);
                    self.record_listening_candidate(issi, candidate, Ghost(port));
                }
            },
        }
    }

    /// The channel of a group call.
    fn group_candidate(&self, call_id: u16, call: ActiveCall, confirmed: bool) -> (candidate:
        ListeningCandidate)
        ensures
            candidate == self@.group_candidate(call_id, call, confirmed),
    {
        ListeningCandidate {
            call_id,
            timeslot: call.ts,
            usage: call.usage,
            service: ListeningService::Group { gssi: call.dest_gssi },
            last_seen: self.dltime,
            confirmed,
        }
    }

    /// Whether a private circuit is the one that was recorded.
    fn has_private_circuit(&self, candidate: ListeningCandidate) -> (r: bool)
        ensures
            r == self@.has_private_circuit(candidate),
    {
        let mut i: usize = 0;
        while i < self.private_circuits.len()
            invariant
                i <= self.private_circuits@.len(),
                forall|j: int|
                    0 <= j < i ==> !((#[trigger] self.private_circuits@[j]).1.call_id
                        == candidate.call_id && self.private_circuits@[j].1.ts
                        == candidate.timeslot && self.private_circuits@[j].1.usage
                        == candidate.usage),
            decreases self.private_circuits@.len() - i,
        {
            let (_, circuit) = self.private_circuits.entry(i);
            if circuit.call_id == candidate.call_id && circuit.ts == candidate.timeslot
                && circuit.usage == candidate.usage {
                assert(self@.private_circuits[i as int].1.call_id == candidate.call_id);
                return true;
            }
            i = i + 1;
        }
        false
    }

    /// The recorded channel, if its circuit is still open.
    pub fn active_associated_channel(&self, candidate: ListeningCandidate) -> (channel: Option<
        AssociatedChannel,
    >)
        ensures
            channel == self@.live_channel(candidate),
    {
        let valid: bool = match candidate.service {
            ListeningService::Group { gssi: _ } => match self.active_calls.get(
                candidate.call_id,
            ) {
                Some(call) => call.ts == candidate.timeslot && call.usage == candidate.usage,
                None => false,
            },
            ListeningService::Private { peer_issi: _ } => self.has_private_circuit(candidate),
        };
        if valid {
            Some(
                AssociatedChannel {
                    call_id: candidate.call_id,
                    timeslot: candidate.timeslot,
                    usage: candidate.usage,
                },
            )
        } else {
            None
        }
    }

    /// The channel of the first private circuit that belongs to the terminal
    /// and to a connected call.
    fn first_private_channel(&self, issi: u32) -> (channel: Option<AssociatedChannel>)
        ensures
            channel == self@.first_private_channel(issi, 0),
    {
        let mut i: usize = 0;
        while i < self.private_circuits.len()
            invariant
                i <= self.private_circuits@.len(),
                self@.first_private_channel(issi, 0) == self@.first_private_channel(
                    issi,
                    i as int,
                ),
            decreases self.private_circuits@.len() - i,
        {
            let (party, circuit) = self.private_circuits.entry(i);
            let connected: bool = match self.private_calls.get(party.call_id) {
                Some(call) => call.connected,
                None => false,
            };
            if party.issi == issi && connected {
                return Some(
                    AssociatedChannel {
                        call_id: circuit.call_id,
                        timeslot: circuit.ts,
                        usage: circuit.usage,
                    },
                );
            }
            i = i + 1;
        }
        None
    }

    /// A channel with its rank.
    fn ranked(&self, issi: u32, held: Option<ListeningCandidate>) -> (r: Option<
        (u8, bool, AssociatedChannel),
    >)
        ensures
            r == self@.ranked(issi, held),
    {
        let candidate = match held {
            Some(candidate) => candidate,
            None => return None,
        };
        let channel = match self.active_associated_channel(candidate) {
            Some(channel) => channel,
            None => return None,
        };
        let priority: u8 = match candidate.service {
            ListeningService::Group { gssi } => match self.effective_scan_priority(issi, gssi) {
                Some(priority) => priority,
                None => 0,
            },
            ListeningService::Private { peer_issi: _ } => 255,
        };
        Some((priority, candidate.confirmed, channel))
    }

    /// The traffic channel on which a terminal is reached.
    pub fn preferred_listener_channel(&self, issi: u32) -> (channel: Option<AssociatedChannel>)
        ensures
            channel == self@.preferred_channel(issi),
    {
        proof {
            reveal(CcView::preferred_channel);
        }
        if self.private_call_is_connected_for(issi) {
            if let Some(channel) = self.first_private_channel(issi) {
                return Some(channel);
            }
        }
        let held = self.candidates_of(issi);
        let first = self.ranked(issi, held.first);
        let second = self.ranked(issi, held.second);
        let third = self.ranked(issi, held.third);
        match higher(higher(first, second), third) {
            Some((_, _, channel)) => Some(channel),
            None => None,
        }
    }

    /// Records the channel of a group call for every terminal that follows it.
    fn track_group_call_listeners(&mut self, call_id: u16, Ghost(port): Ghost<CcPort>)
        ensures
            final(self).run(port) == old(self).run(port).track_listeners(call_id),
    {
        proof {
            reveal(CcRun::track_listeners);
        }
        let call = match self.active_calls.get(call_id) {
            Some(call) => call,
            None => return ,
        };
        let ghost before = self.run(port);
        let mut i: usize = 0;
        assert(before.st.known.take(0) =~= Seq::empty());
        while i < self.known.len()
            invariant
                i <= before.st.known.len(),
                self.run(port) == before.track_each(
                    before.st.known.take(i as int),
                    call_id,
                    call,
                ),
                self@ == (CcView { candidates: self@.candidates, ..before.st }),
            decreases before.st.known.len() - i,
        {
            let (issi, _) = self.known.entry(i);
            proof {
                assert(before.st.known.take(i + 1).drop_last() =~= before.st.known.take(i as int));
                assert(before.st.known.take(i + 1).last() == before.st.known[i as int]);
                lemma_follows_ignores_candidates(self@, before.st, issi, call.dest_gssi);
            }
            if self.members.contains_key(Membership { issi, gssi: call.dest_gssi })
                && self.group_is_receivable(issi, call.dest_gssi)
                && !self.private_call_is_connected_for(issi) {
                assert(before.st.follows(issi, call.dest_gssi));
                let candidate = self.group_candidate(call_id, call, false);
                self.record_listening_candidate(issi, candidate, Ghost(port));
            } else {
                assert(!before.st.follows(issi, call.dest_gssi));
            }
            i = i + 1;
        }
        assert(before.st.known.take(before.st.known.len() as int) =~= before.st.known);
    }
}

/// Who follows a group does not depend on the last channels.
proof fn lemma_follows_ignores_candidates(left: CcView, right: CcView, issi: u32, gssi: u32)
    requires
        left == (CcView { candidates: left.candidates, ..right }),
    ensures
        left.follows(issi, gssi) == right.follows(issi, gssi),
{
    assert forall|i: int|
        left.private_call_holds(issi, i) == #[trigger] right.private_call_holds(issi, i) by {}
    if left.in_private_call(issi) {
        let i = choose|i: int| #[trigger] left.private_call_holds(issi, i);
        assert(right.private_call_holds(issi, i));
    }
    if right.in_private_call(issi) {
        let i = choose|i: int| #[trigger] right.private_call_holds(issi, i);
        assert(left.private_call_holds(issi, i));
    }
}

/// The other party of a private call.
fn peer_of(call: PrivateCallLocal, issi: u32) -> (peer: u32)
    ensures
        peer == crate::cmce::cc_model::peer_of(call, issi),
{
    if call.caller_itsi == issi {
        call.callee_itsi
    } else {
        call.caller_itsi
    }
}

/// The channel, unless it is of the same call and timeslot as `candidate`.
fn unless_same(held: Option<ListeningCandidate>, candidate: ListeningCandidate) -> (r: Option<
    ListeningCandidate,
>)
    ensures
        r == crate::cmce::cc_model::unless_same(held, candidate),
{
    match held {
        Some(h) => if h.call_id == candidate.call_id && h.timeslot == candidate.timeslot {
            None
        } else {
            held
        },
        None => None,
    }
}

/// The channels with `candidate` in front, no call and timeslot twice, and no
/// more than three.
fn pushed(held: Candidates, candidate: ListeningCandidate) -> (r: Candidates)
    ensures
        r == crate::cmce::cc_model::pushed(held, candidate),
{
    let first = unless_same(held.first, candidate);
    let second = unless_same(held.second, candidate);
    let third = unless_same(held.third, candidate);
    Candidates {
        first: Some(candidate),
        second: if first.is_some() {
            first
        } else if second.is_some() {
            second
        } else {
            third
        },
        third: if first.is_some() && second.is_some() {
            second
        } else if first.is_some() || second.is_some() {
            third
        } else {
            None
        },
    }
}

/// The higher ranked of two channels; of two with one rank the later.
fn higher(
    a: Option<(u8, bool, AssociatedChannel)>,
    b: Option<(u8, bool, AssociatedChannel)>,
) -> (r: Option<(u8, bool, AssociatedChannel)>)
    ensures
        r == crate::cmce::cc_model::higher(a, b),
{
    match (a, b) {
        (Some(left), Some(right)) => if left.0 > right.0 || (left.0 == right.0 && left.1
            && !right.1) {
            a
        } else {
            b
        },
        (Some(_), None) => a,
        _ => b,
    }
}

impl CcBsSubentity {
    /// The group channel of a terminal that would leave it for a call of
    /// `gssi`.
    fn leaving_channel(&self, issi: u32, gssi: u32) -> (channel: Option<AssociatedChannel>)
        ensures
            channel == self@.leaving_channel(issi, gssi),
    {
        if !self.group_is_receivable(issi, gssi) || self.private_call_is_connected_for(issi) {
            return None;
        }
        let new_priority: u8 = match self.effective_scan_priority(issi, gssi) {
            Some(priority) => priority,
            None => return None,
        };
        let current = match first_group_candidate(self.candidates_of(issi)) {
            Some(current) => current,
            None => return None,
        };
        let current_gssi: u32 = match current.service {
            ListeningService::Group { gssi } => gssi,
            ListeningService::Private { peer_issi: _ } => return None,
        };
        match self.effective_scan_priority(issi, current_gssi) {
            Some(current_priority) => if new_priority <= current_priority {
                None
            } else {
                self.active_associated_channel(current)
            },
            None => None,
        }
    }

    /// The group channels on which a call of `gssi` is announced, because a
    /// terminal there would leave for it.
    pub fn pgs_listener_channels_for(&self, gssi: u32) -> (channels: Vec<AssociatedChannel>)
        ensures
            channels@ == self@.announcement_channels(gssi),
    {
        proof {
            reveal(CcView::announcement_channels);
        }
        let mut channels: Vec<AssociatedChannel> = Vec::new();
        let ghost classes = self@.class_of_usage;
        let mut i: usize = 0;
        assert(classes.take(0) =~= Seq::empty());
        while i < self.class_of_usage.len()
            invariant
                i <= classes.len(),
                classes == self@.class_of_usage,
                channels@ == self@.leaving_channels(classes.take(i as int), gssi),
            decreases classes.len() - i,
        {
            let (member, _) = self.class_of_usage.entry(i);
            proof {
                assert(classes.take(i + 1).drop_last() =~= classes.take(i as int));
                assert(classes.take(i + 1).last() == classes[i as int]);
            }
            if member.gssi == gssi {
                if let Some(channel) = self.leaving_channel(member.issi, gssi) {
                    if !lists_channel(&channels, channel) {
                        channels.push(channel);
                    }
                }
            }
            i = i + 1;
        }
        assert(classes.take(classes.len() as int) =~= classes);
        channels
    }

    /// Sends D-SETUP to its group on the control channel.
    fn send_setup(
        &self,
        port: &mut CcPort,
        setup: DSetup,
        dest: TetraAddress,
        usage: u8,
        ts: u8,
        receipt: Option<u64>,
    )
        ensures
            self.run(*final(port)) == self.run(*old(port)).send_setup(
                setup,
                dest,
                usage,
                ts,
                receipt,
            ),
    {
        port.emit(
            unitdata(
                DownlinkPdu::DSetup(setup),
                Some(allocation(Some(usage), ts)),
                dest,
                Layer2Service::Unacknowledged,
                receipt,
                None,
            ),
        );
    }

    /// Sends D-SETUP to its group on each of `channels` as well.
    fn announce_on(
        &self,
        port: &mut CcPort,
        setup: DSetup,
        dest: TetraAddress,
        usage: u8,
        ts: u8,
        channels: &Vec<AssociatedChannel>,
    )
        ensures
            self.run(*final(port)) == self.run(*old(port)).announce_on(
                setup,
                dest,
                usage,
                ts,
                channels@,
            ),
    {
        let ghost before = self.run(*port);
        let mut i: usize = 0;
        assert(channels@.take(0) =~= Seq::empty());
        while i < channels.len()
            invariant
                i <= channels@.len(),
                self.run(*port) == before.announce_on(
                    setup,
                    dest,
                    usage,
                    ts,
                    channels@.take(i as int),
                ),
            decreases channels@.len() - i,
        {
            proof {
                assert(channels@.take(i + 1).drop_last() =~= channels@.take(i as int));
                assert(channels@.take(i + 1).last() == channels@[i as int]);
            }
            port.emit(
                unitdata(
                    DownlinkPdu::DSetup(setup),
                    Some(allocation(Some(usage), ts)),
                    dest,
                    Layer2Service::Unacknowledged,
                    None,
                    Some(channels[i]),
                ),
            );
            i = i + 1;
        }
        assert(channels@.take(channels@.len() as int) =~= channels@);
    }

    // -----------------------------------------------------------------------
    // Release
    // -----------------------------------------------------------------------

    /// Brings a released group call to its end: closes its circuit, frees its
    /// timeslot and tells everyone beside call control.
    fn finalize_release(
        &mut self,
        port: &mut CcPort,
        call_id: u16,
        ts: u8,
        dest_gssi: u32,
        is_local: bool,
        brew_uuid: Option<u128>,
    )
        ensures
            final(self).run(*final(port)) == old(self).run(*old(port)).finalize_release(
                call_id,
                ts,
                dest_gssi,
                is_local,
                brew_uuid,
            ),
    {
        proof {
            reveal(CcRun::finalize_release);
        }
        if let Some(circuit) = self.circuits.close_circuit(ts) {
            port.control(TetraEntity::Umac, CallControl::Close(circuit.direction, circuit.ts));
        }
        port.control(TetraEntity::Umac, CallControl::CallEnded { call_id, ts });
        if port.swmi.is_present() {
            port.control(TetraEntity::Swmi, CallControl::CallEnded { call_id, ts });
        }
        port.free_slot(ts);
        if port.brew_carries(dest_gssi) {
            if is_local {
                port.control(TetraEntity::Brew, CallControl::CallEnded { call_id, ts });
            }
            if let Some(brew_uuid) = brew_uuid {
                port.control(TetraEntity::Brew, CallControl::NetworkCallEnd { brew_uuid });
            }
        }
    }

    /// Releases a group call. It can no longer be joined; its circuit stays
    /// until the release is transmitted.
    pub fn release_call(&mut self, port: &mut CcPort, call_id: u16, cause: DisconnectCause)
        ensures
            final(self).run(*final(port)) == old(self).run(*old(port)).release_call(call_id, cause),
    {
        proof {
            reveal(CcRun::release_call);
        }
        self.pending_grants.remove(call_id);
        self.restore_prepared.remove(call_id);
        self.forget_restore_floors(call_id);
        let call = match self.active_calls.remove(call_id) {
            Some(call) => call,
            None => return ,
        };
        let is_local: bool = match call.origin {
            CallOrigin::Local { caller: _ } => true,
            _ => false,
        };
        let brew_uuid: Option<u128> = match call.brew_uuid {
            Some(uuid) => Some(uuid),
            None => match call.origin {
                CallOrigin::Network { brew_uuid } => Some(brew_uuid),
                _ => None,
            },
        };
        match self.cached_setups.remove(call_id) {
            Some(cached) => {
                port.emit(
                    stolen(
                        DownlinkPdu::DRelease {
                            call_identifier: cached.setup.call_identifier,
                            disconnect_cause: cause,
                        },
                        cached.dest,
                        call.ts,
                    ),
                );
                self.releasing_calls.push(
                    ReleasingCall {
                        call_id,
                        ts: call.ts,
                        dest_gssi: call.dest_gssi,
                        is_local,
                        brew_uuid,
                        sent_at: self.dltime,
                    },
                );
            },
            None => self.finalize_release(
                port,
                call_id,
                call.ts,
                call.dest_gssi,
                is_local,
                brew_uuid,
            ),
        }
    }

    /// Forgets the speakers to be named in a call.
    fn forget_restore_floors(&mut self, call_id: u16)
        ensures
            final(self)@ == (CcView {
                pending_restore_floors: crate::cmce::cc_model::without_call(
                    old(self)@.pending_restore_floors,
                    call_id,
                ),
                ..old(self)@
            }),
    {
        self.pending_restore_floors = without_call(&self.pending_restore_floors, call_id);
    }

    /// Releases the calls of a group where nobody listens to it.
    pub fn drop_group_calls_if_unlistened(&mut self, port: &mut CcPort, gssi: u32)
        ensures
            final(self).run(*final(port)) == old(self).run(*old(port)).drop_unlistened(gssi),
    {
        proof {
            reveal(CcRun::drop_unlistened);
        }
        if self.has_listener(gssi) {
            return ;
        }
        let ghost before = self.run(*port);
        let calls = entries_of(&self.active_calls);
        let mut i: usize = 0;
        assert(calls@.take(0) =~= Seq::empty());
        while i < calls.len()
            invariant
                i <= calls@.len(),
                port.brew@ == before.brew,
                self.run(*port) == before.drop_each(calls@.take(i as int), gssi),
            decreases calls@.len() - i,
        {
            proof {
                assert(calls@.take(i + 1).drop_last() =~= calls@.take(i as int));
                assert(calls@.take(i + 1).last() == calls@[i as int]);
                before.lemma_drop_each_keeps_surroundings(calls@.take(i as int), gssi);
            }
            let (call_id, call) = calls[i];
            if call.dest_gssi == gssi {
                if let CallOrigin::Network { brew_uuid } = call.origin {
                    if port.brew_carries(gssi) {
                        port.control(TetraEntity::Brew, CallControl::NetworkCallEnd { brew_uuid });
                    }
                }
                proof {
                    self.run(*port).lemma_release_keeps_surroundings(
                        call_id,
                        DisconnectCause::SwmiRequestedDisconnection,
                    );
                }
                self.release_call(port, call_id, DisconnectCause::SwmiRequestedDisconnection);
            }
            i = i + 1;
        }
        assert(calls@.take(calls@.len() as int) =~= calls@);
    }

    /// Releases the calls of each of `groups` where nobody listens to it.
    fn drop_unlistened_groups(&mut self, port: &mut CcPort, groups: &Vec<u32>)
        ensures
            final(self).run(*final(port)) == old(self).run(*old(port)).drop_unlistened_groups(
                groups@,
            ),
    {
        let ghost before = self.run(*port);
        let mut i: usize = 0;
        assert(groups@.take(0) =~= Seq::empty());
        while i < groups.len()
            invariant
                i <= groups@.len(),
                self.run(*port) == before.drop_unlistened_groups(groups@.take(i as int)),
            decreases groups@.len() - i,
        {
            proof {
                assert(groups@.take(i + 1).drop_last() =~= groups@.take(i as int));
                assert(groups@.take(i + 1).last() == groups@[i as int]);
            }
            self.drop_group_calls_if_unlistened(port, groups[i]);
            i = i + 1;
        }
        assert(groups@.take(groups@.len() as int) =~= groups@);
    }
}

impl CcRun {
    /// Whether `later` sees the same Brew groups, connection and carrier.
    pub open spec fn same_surroundings(self, later: CcRun) -> bool {
        later.swmi == self.swmi && later.brew == self.brew && later.carrier == self.carrier
    }

    proof fn lemma_release_keeps_surroundings(self, call_id: u16, cause: DisconnectCause)
        ensures
            self.same_surroundings(self.release_call(call_id, cause)),
    {
        reveal(CcRun::release_call);
        reveal(CcRun::finalize_release);
    }

    proof fn lemma_drop_each_keeps_surroundings(self, calls: Seq<(u16, ActiveCall)>, gssi: u32)
        ensures
            self.same_surroundings(self.drop_each(calls, gssi)),
        decreases calls.len(),
    {
        if calls.len() > 0 {
            let before = self.drop_each(calls.drop_last(), gssi);
            let (call_id, call) = calls.last();
            self.lemma_drop_each_keeps_surroundings(calls.drop_last(), gssi);
            let told = match call.origin {
                CallOrigin::Network { brew_uuid } => before.control(
                    TetraEntity::Brew,
                    CallControl::NetworkCallEnd { brew_uuid },
                ),
                _ => before,
            };
            told.lemma_release_keeps_surroundings(
                call_id,
                DisconnectCause::SwmiRequestedDisconnection,
            );
            before.lemma_release_keeps_surroundings(
                call_id,
                DisconnectCause::SwmiRequestedDisconnection,
            );
        }
    }
}

/// The first of the last channels that is of a group call.
fn first_group_candidate(held: Candidates) -> (r: Option<ListeningCandidate>)
    ensures
        r == crate::cmce::cc_model::first_group_candidate(held),
{
    if is_group(held.first) {
        held.first
    } else if is_group(held.second) {
        held.second
    } else if is_group(held.third) {
        held.third
    } else {
        None
    }
}

/// Whether there is a channel and it is of a group call.
fn is_group(held: Option<ListeningCandidate>) -> (r: bool)
    ensures
        r == (held is Some && held->0.service is Group),
{
    match held {
        Some(candidate) => match candidate.service {
            ListeningService::Group { gssi: _ } => true,
            ListeningService::Private { peer_issi: _ } => false,
        },
        None => false,
    }
}

/// Whether one of `channels` has the call and timeslot of `channel`.
fn lists_channel(channels: &Vec<AssociatedChannel>, channel: AssociatedChannel) -> (r: bool)
    ensures
        r == crate::cmce::cc_model::lists_channel(channels@, channel),
{
    let mut i: usize = 0;
    while i < channels.len()
        invariant
            i <= channels@.len(),
            forall|j: int|
                0 <= j < i ==> !((#[trigger] channels@[j]).timeslot == channel.timeslot
                    && channels@[j].call_id == channel.call_id),
        decreases channels@.len() - i,
    {
        if channels[i].timeslot == channel.timeslot && channels[i].call_id == channel.call_id {
            assert(channels@[i as int].timeslot == channel.timeslot);
            return true;
        }
        i = i + 1;
    }
    false
}

/// The entries of other calls.
fn without_call<V: Copy>(entries: &Table<CallParty, V>, call_id: u16) -> (kept: Table<CallParty, V>)
    ensures
        kept@ == crate::cmce::cc_model::without_call(entries@, call_id),
{
    let ghost keep = |entry: (CallParty, V)| entry.0.call_id != call_id;
    let mut kept: Vec<(CallParty, V)> = Vec::new();
    let mut i: usize = 0;
    proof {
        reveal(Seq::filter);
        assert(entries@.take(0) =~= Seq::empty());
    }
    while i < entries.len()
        invariant
            i <= entries@.len(),
            keep == (|entry: (CallParty, V)| entry.0.call_id != call_id),
            kept@ == entries@.take(i as int).filter(keep),
        decreases entries@.len() - i,
    {
        let (party, value) = entries.entry(i);
        proof {
            reveal(Seq::filter);
            assert(entries@.take(i + 1).drop_last() =~= entries@.take(i as int));
            assert(entries@.take(i + 1).last() == entries@[i as int]);
        }
        if party.call_id != call_id {
            kept.push((party, value));
        }
        i = i + 1;
    }
    assert(entries@.take(entries@.len() as int) =~= entries@);
    Table::from_entries(kept)
}

/// The entries in their order.
fn entries_of<K: crate::table::Key, V: Copy>(table: &Table<K, V>) -> (entries: Vec<(K, V)>)
    ensures
        entries@ == table@,
{
    let mut entries: Vec<(K, V)> = Vec::new();
    let mut i: usize = 0;
    while i < table.len()
        invariant
            i <= table@.len(),
            entries@ == table@.take(i as int),
        decreases table@.len() - i,
    {
        let entry = table.entry(i);
        proof {
            assert(table@.take(i + 1) =~= table@.take(i as int).push(table@[i as int]));
        }
        entries.push(entry);
        i = i + 1;
    }
    assert(table@.take(table@.len() as int) =~= table@);
    entries
}

impl CcBsSubentity {
    // -----------------------------------------------------------------------
    // Central group calls
    // -----------------------------------------------------------------------

    /// Opens a circuit on the lowest free timeslot and tells the MAC.
    fn open_circuit(
        &mut self,
        port: &mut CcPort,
        comm_type: CommunicationType,
        call_id: Option<u16>,
        duplex: bool,
    ) -> (opened: Option<CmceCircuit>)
        ensures
            match old(port).timeslots.lowest_free() {
                Some(ts) => {
                    &&& opened == Some(old(self)@.circuits.circuit(ts, comm_type, call_id, duplex))
                    &&& final(self).run(*final(port)) == old(self).run(*old(port)).open_circuit(
                        ts,
                        comm_type,
                        call_id,
                        duplex,
                    )
                },
                None => {
                    &&& opened is None
                    &&& final(self).run(*final(port)) == old(self).run(*old(port))
                },
            },
    {
        let opened = self.circuits.allocate_circuit(
            &mut port.timeslots,
            comm_type,
            call_id,
            duplex,
        );
        if let Some(circuit) = opened {
            port.control(TetraEntity::Umac, CallControl::Open(circuit));
        }
        opened
    }

    /// Starts a central group call in this cell, if somebody listens to it, it
    /// is not yet active and a timeslot is free.
    pub fn start_remote_swmi_call(
        &mut self,
        port: &mut CcPort,
        call_id: u16,
        remote: RemoteCall,
        announce: bool,
    )
        ensures
            final(self).run(*final(port)) == old(self).run(*old(port)).start_remote(
                call_id,
                remote,
                announce,
            ),
    {
        proof {
            reveal(CcRun::start_remote);
        }
        if !self.has_listener(remote.gssi) || self.active_calls.contains_key(call_id) {
            return ;
        }
        let comm_type = if remote.acknowledged {
            CommunicationType::P2MpAcked
        } else {
            CommunicationType::P2Mp
        };
        let circuit = match self.open_circuit(port, comm_type, Some(call_id), false) {
            Some(circuit) => circuit,
            None => return ,
        };
        let setup = DSetup {
            call_identifier: call_id,
            call_time_out: CallTimeout::T5m,
            hook_method_selection: false,
            simplex_duplex_selection: false,
            basic_service_information: speech_service(comm_type),
            transmission_grant: if remote.floor_itsi == 0 {
                TransmissionGrant::NotGranted
            } else {
                TransmissionGrant::GrantedToOtherUser
            },
            transmission_request_permission: false,
            call_priority: remote.priority,
            notification_indicator: late_entry_notification(remote.acknowledged),
            calling_party_address_ssi: Some(remote.owner_itsi),
        };
        let dest = TetraAddress::gssi(remote.gssi);
        self.cached_setups.insert(call_id, CachedSetup { setup, dest, receipt: None });
        if announce {
            let channels = self.pgs_listener_channels_for(remote.gssi);
            self.restore_prepared.remove(call_id);
            self.send_setup(port, setup, dest, circuit.usage, circuit.ts, None);
            self.announce_on(port, setup, dest, circuit.usage, circuit.ts, &channels);
        } else {
            self.restore_prepared.insert(call_id, true);
        }
        self.active_calls.insert(
            call_id,
            ActiveCall {
                origin: CallOrigin::Swmi,
                dest_gssi: remote.gssi,
                source_issi: remote.floor_itsi,
                ts: circuit.ts,
                usage: circuit.usage,
                priority: remote.priority,
                acknowledged: remote.acknowledged,
                tx_active: remote.floor_itsi != 0,
                hangtime_start: None,
                brew_uuid: None,
            },
        );
        self.track_group_call_listeners(call_id, Ghost(*port));
        if remote.floor_itsi != 0 {
            let granted = CallControl::FloorGranted {
                call_id,
                source_issi: remote.floor_itsi,
                dest_gssi: remote.gssi,
                ts: circuit.ts,
            };
            port.control(TetraEntity::Umac, granted);
            port.control(TetraEntity::Swmi, granted);
        }
    }

    /// Starts the central calls that waited for a listener of one of `groups`.
    pub fn activate_pending_remote_swmi_calls(&mut self, port: &mut CcPort, groups: &Vec<u32>)
        ensures
            final(self).run(*final(port)) == old(self).run(*old(port)).activate_pending(groups@),
    {
        proof {
            reveal(CcRun::activate_pending);
        }
        let ghost before = self.run(*port);
        let waiting = entries_of(&self.pending_remote);
        let mut i: usize = 0;
        assert(waiting@.take(0) =~= Seq::empty());
        while i < waiting.len()
            invariant
                i <= waiting@.len(),
                self@.members == before.st.members,
                self.run(*port) == before.activate_each(waiting@.take(i as int), groups@),
            decreases waiting@.len() - i,
        {
            proof {
                assert(waiting@.take(i + 1).drop_last() =~= waiting@.take(i as int));
                assert(waiting@.take(i + 1).last() == waiting@[i as int]);
            }
            let (call_id, remote) = waiting[i];
            if contains_group(groups, remote.gssi) && self.has_listener(remote.gssi) {
                let announce: bool = !self.floor_holder_is_local_member(
                    remote.gssi,
                    remote.floor_itsi,
                );
                self.pending_remote.remove(call_id);
                proof {
                    self.run(*port).lemma_start_remote_keeps_members(call_id, remote, announce);
                }
                self.start_remote_swmi_call(port, call_id, remote, announce);
            }
            i = i + 1;
        }
        assert(waiting@.take(waiting@.len() as int) =~= waiting@);
    }

    /// Names the speaker to one terminal on the traffic channel.
    fn grant_to(
        &self,
        port: &mut CcPort,
        call_id: u16,
        recipient: u32,
        speaker: u32,
        ts: u8,
        grant: TransmissionGrant,
    )
        ensures
            self.run(*final(port)) == self.run(*old(port)).grant_to(
                call_id,
                recipient,
                speaker,
                ts,
                grant,
            ),
    {
        port.emit(
            stolen(
                DownlinkPdu::DTxGranted {
                    call_identifier: call_id,
                    transmission_grant: grant,
                    transmission_request_permission: false,
                    transmitting_party_ssi: speaker,
                },
                TetraAddress::issi(recipient),
                ts,
            ),
        );
    }

    /// Names the speaker to its group on the traffic channel.
    fn grant_to_group(&self, port: &mut CcPort, call_id: u16, speaker: u32, gssi: u32, ts: u8)
        ensures
            self.run(*final(port)) == self.run(*old(port)).grant_to_group(
                call_id,
                speaker,
                gssi,
                ts,
            ),
    {
        port.emit(
            stolen(
                DownlinkPdu::DTxGranted {
                    call_identifier: call_id,
                    transmission_grant: TransmissionGrant::GrantedToOtherUser,
                    transmission_request_permission: false,
                    transmitting_party_ssi: speaker,
                },
                TetraAddress::gssi(gssi),
                ts,
            ),
        );
    }

    /// Tells the end of a transmission on the traffic channel.
    fn ceased(&self, port: &mut CcPort, call_id: u16, address: TetraAddress, ts: u8)
        ensures
            self.run(*final(port)) == self.run(*old(port)).ceased(call_id, address, ts),
    {
        port.emit(
            stolen(
                DownlinkPdu::DTxCeased {
                    call_identifier: call_id,
                    transmission_request_permission: false,
                },
                address,
                ts,
            ),
        );
    }

    /// Tells the interruption of the speaker on the traffic channel.
    fn interrupt(
        &self,
        port: &mut CcPort,
        call_id: u16,
        next_itsi: u32,
        address: TetraAddress,
        ts: u8,
    )
        ensures
            self.run(*final(port)) == self.run(*old(port)).interrupt(
                call_id,
                next_itsi,
                address,
                ts,
            ),
    {
        port.emit(
            stolen(
                DownlinkPdu::DTxInterrupt {
                    call_identifier: call_id,
                    transmission_grant: TransmissionGrant::GrantedToOtherUser,
                    transmission_request_permission: false,
                    transmitting_party_ssi: next_itsi,
                },
                address,
                ts,
            ),
        );
    }

    /// Grants the floor of a central group call. The explicit answer goes
    /// before the indication to the group, which a waiting terminal would take
    /// for a refusal.
    pub fn apply_central_floor_grant(&mut self, port: &mut CcPort, call_id: u16, itsi: u32)
        ensures
            final(self).run(*final(port)) == old(self).run(*old(port)).central_grant(call_id, itsi),
    {
        proof {
            reveal(CcRun::central_grant);
        }
        let call = match self.active_calls.get(call_id) {
            Some(call) => call,
            None => return ,
        };
        self.active_calls.insert(
            call_id,
            ActiveCall { source_issi: itsi, tx_active: true, hangtime_start: None, ..call },
        );
        if self.known.contains_key(itsi) {
            self.grant_to(port, call_id, itsi, itsi, call.ts, TransmissionGrant::Granted);
        }
        self.grant_to_group(port, call_id, itsi, call.dest_gssi, call.ts);
        let granted = CallControl::FloorGranted {
            call_id,
            source_issi: itsi,
            dest_gssi: call.dest_gssi,
            ts: call.ts,
        };
        port.control(TetraEntity::Umac, granted);
        port.control(TetraEntity::Swmi, granted);
    }

    /// Takes the floor from the speaker; tells whether it was the current one.
    pub fn apply_floor_preemption(
        &mut self,
        port: &mut CcPort,
        call_id: u16,
        previous_itsi: u32,
        next_itsi: u32,
    ) -> (taken: bool)
        ensures
            taken == old(self)@.preemption_applies(call_id, previous_itsi),
            final(self).run(*final(port)) == old(self).run(*old(port)).preempt(
                call_id,
                previous_itsi,
                next_itsi,
            ),
    {
        proof {
            reveal(CcRun::preempt);
        }
        let call = match self.active_calls.get(call_id) {
            Some(call) => call,
            None => return false,
        };
        if call.source_issi != previous_itsi || !call.tx_active {
            return false;
        }
        self.active_calls.insert(
            call_id,
            ActiveCall { tx_active: false, hangtime_start: Some(self.dltime), ..call },
        );
        if self.known.contains_key(previous_itsi) {
            self.interrupt(port, call_id, next_itsi, TetraAddress::issi(previous_itsi), call.ts);
        }
        self.interrupt(port, call_id, next_itsi, TetraAddress::gssi(call.dest_gssi), call.ts);
        let released = CallControl::FloorReleased { call_id, ts: call.ts };
        port.control(TetraEntity::Umac, released);
        port.control(TetraEntity::Swmi, released);
        true
    }

    // -----------------------------------------------------------------------
    // Call set-up
    // -----------------------------------------------------------------------

    /// Uses up a command identifier.
    fn next_swmi_command_id(&mut self) -> (id: u64)
        ensures
            id == old(self)@.next_command,
            final(self)@ == (CcView {
                next_command: crate::cmce::cc_model::command_after(old(self)@.next_command),
                ..old(self)@
            }),
    {
        let id: u64 = self.next_command;
        self.next_command = command_after(id);
        id
    }

    /// Answers a U-SETUP that cannot be served.
    fn reject_setup(&self, port: &mut CcPort, prim: UplinkPrim, cause: DisconnectCause)
        ensures
            self.run(*final(port)) == self.run(*old(port)).reject_setup(prim, cause),
    {
        port.emit(
            reply(
                prim,
                DownlinkPdu::DRelease { call_identifier: 0, disconnect_cause: cause },
                None,
                prim.received,
                Layer2Service::Unacknowledged,
            ),
        );
    }

    /// Answers a floor request that has to wait.
    fn tx_wait(&self, port: &mut CcPort, prim: UplinkPrim, call_id: u16)
        ensures
            self.run(*final(port)) == self.run(*old(port)).tx_wait(prim, call_id),
    {
        port.emit(
            reply(
                prim,
                DownlinkPdu::DTxWait {
                    call_identifier: call_id,
                    transmission_request_permission: false,
                },
                None,
                prim.received,
                Layer2Service::Unacknowledged,
            ),
        );
    }

    /// Gives the first answer to a U-SETUP.
    fn call_proceeding(&self, port: &mut CcPort, prim: UplinkPrim, pdu: USetup, call_id: u16)
        ensures
            self.run(*final(port)) == self.run(*old(port)).call_proceeding(prim, pdu, call_id),
    {
        port.emit(
            reply(
                prim,
                DownlinkPdu::DCallProceeding {
                    call_identifier: call_id,
                    call_time_out_set_up_phase: if pdu.basic_service_information.communication_type
                        == CommunicationType::P2p {
                        CallTimeoutSetupPhase::T30s
                    } else {
                        CallTimeoutSetupPhase::T10s
                    },
                    hook_method_selection: pdu.hook_method_selection,
                    simplex_duplex_selection: pdu.simplex_duplex_selection,
                },
                None,
                prim.received,
                Layer2Service::Acknowledged,
            ),
        );
    }

    /// Joins a U-SETUP to the circuit of a group call.
    fn connect_setup(
        &self,
        port: &mut CcPort,
        request: SetupRequest,
        call_id: u16,
        ts: u8,
        usage: u8,
        grant: TransmissionGrant,
        ownership: bool,
        priority: u8,
    )
        ensures
            self.run(*final(port)) == self.run(*old(port)).connect_setup(
                request,
                call_id,
                ts,
                usage,
                grant,
                ownership,
                priority,
            ),
    {
        self.call_proceeding(port, request.prim, request.pdu, call_id);
        port.emit(
            reply(
                request.prim,
                DownlinkPdu::DConnect(
                    DConnect {
                        call_identifier: call_id,
                        call_time_out: CallTimeout::T5m,
                        hook_method_selection: request.pdu.hook_method_selection,
                        simplex_duplex_selection: request.pdu.simplex_duplex_selection,
                        transmission_grant: grant,
                        transmission_request_permission: false,
                        call_ownership: ownership,
                        call_priority: Some(priority as u64),
                    },
                ),
                Some(allocation(Some(usage), ts)),
                request.prim.received,
                Layer2Service::Unacknowledged,
            ),
        );
    }

    /// A U-SETUP for a private call.
    fn rx_private_u_setup(&mut self, port: &mut CcPort, request: SetupRequest)
        ensures
            final(self).run(*final(port)) == old(self).run(*old(port)).private_setup(request),
    {
        proof {
            reveal(CcRun::private_setup);
        }
        let unavailable = DisconnectCause::RequestedServiceNotAvailable;
        let pdu = request.pdu;
        let callee: u32 = match pdu.called_party_ssi {
            Some(callee) => callee,
            None => {
                self.reject_setup(port, request.prim, unavailable);
                return ;
            },
        };
        if pdu.called_party_type_identifier != PartyTypeIdentifier::Ssi
            || pdu.called_party_extension.is_some() || !port.swmi.is_online() {
            self.reject_setup(port, request.prim, unavailable);
            return ;
        }
        let caller: u32 = request.prim.received.ssi;
        let command_id: u64 = self.next_swmi_command_id();
        if port.swmi.takes() {
            port.submit(
                CallMessage::PrivateCallRequest {
                    command_id,
                    caller_itsi: caller as u64,
                    callee_itsi: callee as u64,
                    hook: pdu.hook_method_selection,
                    duplex: pdu.simplex_duplex_selection,
                    request_to_transmit: pdu.request_to_transmit_send_data,
                    priority: pdu.call_priority,
                },
            );
            self.pending_private_setups.insert(caller, request);
        } else {
            let rejected = match self.pending_private_setups.remove(caller) {
                Some(earlier) => earlier,
                None => request,
            };
            self.reject_setup(port, rejected.prim, unavailable);
        }
    }

    /// The latest call of a group.
    fn call_of_group(&self, gssi: u32) -> (found: Option<(u16, ActiveCall)>)
        ensures
            found == crate::cmce::cc_procedures::call_of_group(self@.active_calls, gssi),
    {
        let ghost calls = self@.active_calls;
        let mut n: usize = self.active_calls.len();
        assert(calls.take(n as int) =~= calls);
        while n > 0
            invariant
                n <= calls.len(),
                calls == self@.active_calls,
                crate::cmce::cc_procedures::call_of_group(calls, gssi)
                    == crate::cmce::cc_procedures::call_of_group(calls.take(n as int), gssi),
            decreases n,
        {
            let (call_id, call) = self.active_calls.entry(n - 1);
            proof {
                assert(calls.take(n as int).drop_last() =~= calls.take(n - 1));
                assert(calls.take(n as int).last() == calls[n - 1]);
            }
            if call.dest_gssi == gssi {
                return Some((call_id, call));
            }
            n = n - 1;
        }
        None
    }

    /// Sets up a group call of a terminal of this cell, with what the central
    /// SwMI decided on it, if it did.
    fn open_group_call(
        &mut self,
        port: &mut CcPort,
        request: SetupRequest,
        gssi: u32,
        central: Option<CentralSetup>,
    )
        ensures
            final(self).run(*final(port)) == old(self).run(*old(port)).open_group_call(
                request,
                gssi,
                central,
            ),
    {
        proof {
            reveal(CcRun::open_group_call);
        }
        let pdu = request.pdu;
        let caller = request.prim.received;
        let comm_type = pdu.basic_service_information.communication_type;
        let acknowledged: bool = comm_type == CommunicationType::P2MpAcked;
        let brew_carries: bool = port.brew_carries(gssi);
        let central_id: Option<u16> = match central {
            Some(decision) => Some(decision.call_id),
            None => None,
        };
        let priority: u8 = match central {
            Some(decision) => decision.priority,
            None => pdu.call_priority,
        };
        let source_issi: u32 = match central {
            Some(decision) => decision.floor_itsi,
            None => caller.ssi,
        };
        let caller_has_floor: bool = source_issi == caller.ssi;
        let other_has_floor: bool = match central {
            Some(decision) => decision.floor_itsi != 0 && decision.floor_itsi != caller.ssi,
            None => false,
        };
        let circuit = match self.open_circuit(port, comm_type, central_id, false) {
            Some(circuit) => circuit,
            None => return ,
        };
        let grant = if caller_has_floor {
            TransmissionGrant::Granted
        } else if other_has_floor {
            TransmissionGrant::GrantedToOtherUser
        } else {
            TransmissionGrant::NotGranted
        };
        self.connect_setup(
            port,
            request,
            circuit.call_id,
            circuit.ts,
            circuit.usage,
            grant,
            caller_has_floor,
            priority,
        );
        let setup = DSetup {
            call_identifier: circuit.call_id,
            call_time_out: CallTimeout::T5m,
            hook_method_selection: pdu.hook_method_selection,
            simplex_duplex_selection: pdu.simplex_duplex_selection,
            basic_service_information: pdu.basic_service_information,
            transmission_grant: TransmissionGrant::GrantedToOtherUser,
            transmission_request_permission: false,
            call_priority: priority,
            notification_indicator: late_entry_notification(acknowledged),
            calling_party_address_ssi: Some(caller.ssi),
        };
        let dest = TetraAddress::gssi(gssi);
        self.cached_setups.insert(circuit.call_id, CachedSetup { setup, dest, receipt: None });
        let channels = self.pgs_listener_channels_for(gssi);
        self.send_setup(port, setup, dest, circuit.usage, circuit.ts, None);
        self.announce_on(port, setup, dest, circuit.usage, circuit.ts, &channels);
        self.active_calls.insert(
            circuit.call_id,
            ActiveCall {
                origin: if central.is_some() {
                    CallOrigin::Swmi
                } else {
                    CallOrigin::Local { caller }
                },
                dest_gssi: gssi,
                source_issi,
                ts: circuit.ts,
                usage: circuit.usage,
                priority,
                acknowledged,
                tx_active: caller_has_floor || other_has_floor,
                hangtime_start: None,
                brew_uuid: None,
            },
        );
        self.track_group_call_listeners(circuit.call_id, Ghost(*port));
        let granted = CallControl::FloorGranted {
            call_id: circuit.call_id,
            source_issi: caller.ssi,
            dest_gssi: gssi,
            ts: circuit.ts,
        };
        if brew_carries {
            port.control(TetraEntity::Brew, granted);
        }
        if central.is_some() && caller_has_floor {
            port.control(TetraEntity::Swmi, granted);
        }
    }

    /// A U-SETUP.
    pub fn rx_u_setup(&mut self, port: &mut CcPort, request: SetupRequest)
        ensures
            final(self).run(*final(port)) == old(self).run(*old(port)).u_setup(request),
    {
        proof {
            reveal(CcRun::u_setup);
        }
        let pdu = request.pdu;
        let caller = request.prim.received;
        if pdu.basic_service_information.communication_type == CommunicationType::P2p {
            self.rx_private_u_setup(port, request);
            return ;
        }
        if !feature_check_u_setup(&pdu) {
            return ;
        }
        let gssi: u32 = match pdu.called_party_ssi {
            Some(gssi) => gssi,
            None => return ,
        };
        if !self.has_listener(gssi) {
            // A caller is not left waiting for its setup timer.
            self.reject_setup(
                port,
                request.prim,
                DisconnectCause::RequestedServiceNotAvailable,
            );
            return ;
        }
        let key = Membership { issi: caller.ssi, gssi };
        let central = self.central_setups.remove(key);
        let priority: u8 = match central {
            Some(decision) => decision.priority,
            None => pdu.call_priority,
        };
        if let Some((call_id, call)) = self.call_of_group(gssi) {
            let joins: bool = match central {
                Some(decision) => decision.call_id == call_id,
                None => !port.swmi.is_online(),
            };
            if joins {
                let floor_itsi: u32 = match central {
                    Some(decision) => decision.floor_itsi,
                    None => if call.tx_active {
                        call.source_issi
                    } else {
                        0
                    },
                };
                let has_floor: bool = floor_itsi == 0 || floor_itsi == caller.ssi;
                let grant = if has_floor {
                    TransmissionGrant::Granted
                } else {
                    TransmissionGrant::GrantedToOtherUser
                };
                self.connect_setup(
                    port,
                    request,
                    call_id,
                    call.ts,
                    call.usage,
                    grant,
                    has_floor,
                    priority,
                );
                return ;
            }
        }
        if port.swmi.is_online() && central.is_none() {
            let command_id: u64 = self.next_swmi_command_id();
            if port.swmi.takes() {
                port.submit(
                    CallMessage::GroupCallRequest {
                        command_id,
                        itsi: caller.ssi as u64,
                        gssi,
                        priority: pdu.call_priority,
                        acknowledged: pdu.basic_service_information.communication_type
                            == CommunicationType::P2MpAcked,
                    },
                );
                self.pending_setups.insert(key, request);
                return ;
            }
        }
        self.open_group_call(port, request, gssi, central);
    }
}

impl CcRun {
    proof fn lemma_track_each_keeps_members(
        self,
        terminals: Seq<(u32, bool)>,
        call_id: u16,
        call: ActiveCall,
    )
        ensures
            self.track_each(terminals, call_id, call).st.members == self.st.members,
        decreases terminals.len(),
    {
        if terminals.len() > 0 {
            self.lemma_track_each_keeps_members(terminals.drop_last(), call_id, call);
        }
    }

    proof fn lemma_announce_keeps_members(
        self,
        setup: DSetup,
        dest: TetraAddress,
        usage: u8,
        ts: u8,
        channels: Seq<AssociatedChannel>,
    )
        ensures
            self.announce_on(setup, dest, usage, ts, channels).st == self.st,
        decreases channels.len(),
    {
        if channels.len() > 0 {
            self.lemma_announce_keeps_members(setup, dest, usage, ts, channels.drop_last());
        }
    }

    proof fn lemma_start_remote_keeps_members(
        self,
        call_id: u16,
        remote: RemoteCall,
        announce: bool,
    )
        ensures
            self.start_remote(call_id, remote, announce).st.members == self.st.members,
    {
        reveal(CcRun::start_remote);
        reveal(CcRun::track_listeners);
        assert forall|r: CcRun, terminals: Seq<(u32, bool)>, id: u16, call: ActiveCall|
            (#[trigger] r.track_each(terminals, id, call)).st.members == r.st.members by {
            r.lemma_track_each_keeps_members(terminals, id, call);
        }
        assert forall|
            r: CcRun,
            setup: DSetup,
            dest: TetraAddress,
            usage: u8,
            ts: u8,
            channels: Seq<AssociatedChannel>,
        |
            (#[trigger] r.announce_on(setup, dest, usage, ts, channels)).st == r.st by {
            r.lemma_announce_keeps_members(setup, dest, usage, ts, channels);
        }
    }
}

/// Whether the station can serve a group call with these features.
pub fn feature_check_u_setup(pdu: &USetup) -> (supported: bool)
    ensures
        supported == crate::cmce::cc_procedures::group_features_supported(*pdu),
{
    (pdu.area_selection == 0 || pdu.area_selection == 1) && !pdu.hook_method_selection
        && !pdu.simplex_duplex_selection
}

/// The command identifier after `id`; zero is never used.
fn command_after(id: u64) -> (next: u64)
    ensures
        next == crate::cmce::cc_model::command_after(id),
{
    if id == u64::MAX {
        1
    } else {
        id + 1
    }
}

/// The bearer of a speech call.
fn speech_service(communication_type: CommunicationType) -> (service: BasicServiceInformation)
    ensures
        service == crate::cmce::cc_model::speech_service(communication_type),
{
    BasicServiceInformation {
        circuit_mode_type: CircuitModeType::TchS,
        encryption_flag: false,
        communication_type,
        slots_per_frame: None,
        speech_service: Some(0),
    }
}

/// How late entry to a group call is announced.
fn late_entry_notification(acknowledged: bool) -> (notification: Option<u64>)
    ensures
        notification == crate::cmce::cc_model::late_entry_notification(acknowledged),
{
    if acknowledged {
        Some(NOTIFICATION_LE_ACKNOWLEDGEMENT)
    } else {
        Some(NOTIFICATION_LE_BROADCAST)
    }
}

/// Whether the group is among `groups`.
fn contains_group(groups: &Vec<u32>, gssi: u32) -> (r: bool)
    ensures
        r == groups@.contains(gssi),
{
    let mut i: usize = 0;
    while i < groups.len()
        invariant
            i <= groups@.len(),
            forall|j: int| 0 <= j < i ==> groups@[j] != gssi,
        decreases groups@.len() - i,
    {
        if groups[i] == gssi {
            return true;
        }
        i = i + 1;
    }
    false
}

impl CcBsSubentity {
    // -----------------------------------------------------------------------
    // Service restoration and late entry
    // -----------------------------------------------------------------------

    /// How a group call is restored for a terminal.
    fn group_restoration(&self, call_id: u16, itsi: u32, Ghost(port): Ghost<CcPort>) -> (answer:
        Option<(TransmissionGrant, u8, u8)>)
        ensures
            answer == self.run(port).group_restoration(call_id, itsi),
    {
        let call = match self.active_calls.get(call_id) {
            Some(call) => call,
            None => return None,
        };
        if !self.members.contains_key(Membership { issi: itsi, gssi: call.dest_gssi }) {
            return None;
        }
        let grant = if call.tx_active && call.source_issi == itsi {
            TransmissionGrant::Granted
        } else if call.tx_active {
            TransmissionGrant::GrantedToOtherUser
        } else {
            // In hangtime there is no speaker to receive.
            TransmissionGrant::NotGranted
        };
        Some((grant, call.usage, call.ts))
    }

    /// How a private call is restored for a terminal.
    fn private_restoration(
        &self,
        call_id: u16,
        itsi: u32,
        other_party: Option<u32>,
        Ghost(port): Ghost<CcPort>,
    ) -> (answer: Option<(TransmissionGrant, u8, u8)>)
        ensures
            answer == self.run(port).private_restoration(call_id, itsi, other_party),
    {
        let call = match self.private_calls.get(call_id) {
            Some(call) => call,
            None => return None,
        };
        let circuit = match self.private_circuits.get(CallParty { call_id, issi: itsi }) {
            Some(circuit) => circuit,
            None => return None,
        };
        let named: bool = match other_party {
            Some(peer) => peer == peer_of(call, itsi),
            None => true,
        };
        if !call.connected || !(call.caller_itsi == itsi || call.callee_itsi == itsi) || !named {
            return None;
        }
        let grant = if call.duplex || call.floor_itsi == itsi {
            TransmissionGrant::Granted
        } else if call.floor_itsi == 0 {
            TransmissionGrant::NotGranted
        } else {
            TransmissionGrant::GrantedToOtherUser
        };
        Some((grant, circuit.usage, circuit.ts))
    }

    /// A U-CALL RESTORE.
    pub fn rx_u_call_restore(
        &mut self,
        port: &mut CcPort,
        prim: UplinkPrim,
        call_id: u16,
        other_party: Option<u32>,
    )
        ensures
            final(self).run(*final(port)) == old(self).run(*old(port)).u_call_restore(
                prim,
                call_id,
                other_party,
            ),
    {
        proof {
            reveal(CcRun::u_call_restore);
        }
        let itsi: u32 = prim.received.ssi;
        let group = self.group_restoration(call_id, itsi, Ghost(*port));
        let answer = if group.is_some() {
            group
        } else {
            self.private_restoration(call_id, itsi, other_party, Ghost(*port))
        };
        let (grant, usage, ts) = match answer {
            Some(answer) => answer,
            None => {
                self.send_restore_failure(port, itsi);
                return ;
            },
        };
        port.emit(
            unitdata(
                DownlinkPdu::DCallRestore {
                    call_identifier: call_id,
                    transmission_grant: grant,
                    transmission_request_permission: false,
                    reset_call_time_out_timer: true,
                },
                Some(allocation(Some(usage), ts)),
                TetraAddress::issi(itsi),
                Layer2Service::Acknowledged,
                None,
                None,
            ),
        );
        if group.is_some() {
            if let Some(call) = self.active_calls.get(call_id) {
                if call.tx_active {
                    let due = self.dltime.add_timeslots(RESTORE_FLOOR_INDICATION_DELAY_TIMESLOTS);
                    self.pending_restore_floors.insert(
                        CallParty { call_id, issi: itsi },
                        FloorTimer { itsi: call.source_issi, due },
                    );
                }
            }
        }
        self.record_uplink_call_location(itsi, call_id, Ghost(*port));
    }

    /// Tells the mobile link entity that a restoration failed.
    fn send_restore_failure(&self, port: &mut CcPort, itsi: u32)
        ensures
            self.run(*final(port)) == self.run(*old(port)).restore_failure(itsi),
    {
        port.emit(
            unitdata(
                DownlinkPdu::RestoreFailure,
                None,
                TetraAddress::issi(itsi),
                Layer2Service::Acknowledged,
                None,
                None,
            ),
        );
    }

    /// A U-INFO.
    pub fn rx_u_info(
        &mut self,
        port: &mut CcPort,
        prim: UplinkPrim,
        call_id: u16,
        poll_response: bool,
    )
        ensures
            final(self).run(*final(port)) == old(self).run(*old(port)).u_info(
                prim,
                call_id,
                poll_response,
            ),
    {
        proof {
            reveal(CcRun::u_info);
        }
        if !poll_response {
            return ;
        }
        let call = match self.active_calls.get(call_id) {
            Some(call) => call,
            None => return ,
        };
        if !call.acknowledged {
            return ;
        }
        let candidate = self.group_candidate(call_id, call, true);
        self.record_listening_candidate(prim.received.ssi, candidate, Ghost(*port));
    }

    // -----------------------------------------------------------------------
    // The floor
    // -----------------------------------------------------------------------

    /// A U-TX CEASED.
    pub fn rx_u_tx_ceased(&mut self, port: &mut CcPort, prim: UplinkPrim, call_id: u16)
        ensures
            final(self).run(*final(port)) == old(self).run(*old(port)).u_tx_ceased(prim, call_id),
    {
        proof {
            reveal(CcRun::u_tx_ceased);
        }
        let itsi: u32 = prim.received.ssi;
        self.record_uplink_call_location(itsi, call_id, Ghost(*port));
        if let Some(call) = self.private_calls.get(call_id) {
            if call.connected && !call.duplex && port.swmi.is_online() {
                port.submit(
                    CallMessage::PrivateFloorReleased {
                        call_id: call_id as u64,
                        itsi: itsi as u64,
                    },
                );
            }
            return ;
        }
        if port.swmi.is_online() {
            let command_id: u64 = self.next_swmi_command_id();
            if port.swmi.takes() {
                port.submit(
                    CallMessage::FloorReleaseRequest {
                        command_id,
                        call_id: call_id as u64,
                        itsi: itsi as u64,
                    },
                );
                return ;
            }
        }
        self.cease_locally(port, call_id);
    }

    /// Ends the transmission in a group call on which the station decides.
    fn cease_locally(&mut self, port: &mut CcPort, call_id: u16)
        ensures
            final(self).run(*final(port)) == old(self).run(*old(port)).cease_locally(call_id),
    {
        proof {
            reveal(CcRun::cease_locally);
        }
        let call = match self.active_calls.get(call_id) {
            Some(call) => call,
            None => return ,
        };
        if !call.tx_active && call.hangtime_start.is_some() {
            // A repeated U-TX CEASED does not restart the hangtime.
            return ;
        }
        self.active_calls.insert(
            call_id,
            ActiveCall { tx_active: false, hangtime_start: Some(self.dltime), ..call },
        );
        let cached = match self.cached_setups.get(call_id) {
            Some(cached) => cached,
            None => return ,
        };
        self.ceased(port, call_id, cached.dest, call.ts);
        let released = CallControl::FloorReleased { call_id, ts: call.ts };
        port.control(TetraEntity::Umac, released);
        if port.brew_carries(call.dest_gssi) {
            port.control(TetraEntity::Brew, released);
        }
    }

    /// A U-TX DEMAND.
    pub fn rx_u_tx_demand(
        &mut self,
        port: &mut CcPort,
        prim: UplinkPrim,
        call_id: u16,
        priority: u8,
    )
        ensures
            final(self).run(*final(port)) == old(self).run(*old(port)).u_tx_demand(
                prim,
                call_id,
                priority,
            ),
    {
        proof {
            reveal(CcRun::u_tx_demand);
        }
        let itsi: u32 = prim.received.ssi;
        self.record_uplink_call_location(itsi, call_id, Ghost(*port));
        if let Some(call) = self.private_calls.get(call_id) {
            self.private_demand(port, prim, call_id, call);
            return ;
        }
        if port.swmi.is_online() {
            if let Some(call) = self.active_calls.get(call_id) {
                self.grant_to(
                    port,
                    call_id,
                    itsi,
                    itsi,
                    call.ts,
                    TransmissionGrant::RequestQueued,
                );
            }
            let command_id: u64 = self.next_swmi_command_id();
            if port.swmi.takes() {
                port.submit(
                    CallMessage::FloorRequest {
                        command_id,
                        call_id: call_id as u64,
                        itsi: itsi as u64,
                        tx_demand_priority: priority,
                    },
                );
                return ;
            }
        }
        self.demand_locally(port, prim, call_id);
    }

    /// A floor request in a private call.
    fn private_demand(
        &mut self,
        port: &mut CcPort,
        prim: UplinkPrim,
        call_id: u16,
        call: PrivateCallLocal,
    )
        ensures
            final(self).run(*final(port)) == old(self).run(*old(port)).private_demand(
                prim,
                call_id,
                call,
            ),
    {
        proof {
            reveal(CcRun::private_demand);
        }
        if !call.connected || call.duplex {
            return ;
        }
        let party = CallParty { call_id, issi: prim.received.ssi };
        if !self.private_circuits.contains_key(party) {
            self.tx_wait(port, prim, call_id);
            return ;
        }
        if self.pending_private_floors.contains_key(party) {
            // A repeated request neither restarts the grace period nor is sent
            // to the SwMI again.
            return ;
        }
        if port.swmi.takes() {
            port.submit(
                CallMessage::PrivateFloorGranted {
                    call_id: call_id as u64,
                    itsi: prim.received.ssi as u64,
                },
            );
            let due = self.dltime.add_timeslots(PRIVATE_FLOOR_RESPONSE_GRACE_TIMESLOTS);
            self.pending_private_floors.insert(party, due);
        } else {
            self.tx_wait(port, prim, call_id);
        }
    }

    /// A floor request in a group call on which the station decides.
    fn demand_locally(&mut self, port: &mut CcPort, prim: UplinkPrim, call_id: u16)
        ensures
            final(self).run(*final(port)) == old(self).run(*old(port)).demand_locally(
                prim,
                call_id,
            ),
    {
        proof {
            reveal(CcRun::demand_locally);
        }
        let itsi: u32 = prim.received.ssi;
        let call = match self.active_calls.get(call_id) {
            Some(call) => call,
            None => return ,
        };
        if call.tx_active {
            self.tx_wait(port, prim, call_id);
            return ;
        }
        let origin = match call.origin {
            CallOrigin::Local { caller: _ } => CallOrigin::Local { caller: prim.received },
            other => other,
        };
        self.active_calls.insert(
            call_id,
            ActiveCall { tx_active: true, hangtime_start: None, source_issi: itsi, origin, ..call },
        );
        let cached = match self.cached_setups.get(call_id) {
            Some(cached) => cached,
            None => return ,
        };
        // The explicit answer goes before the indication to the group, which a
        // waiting terminal would take for a refusal.
        self.grant_to(port, call_id, itsi, itsi, call.ts, TransmissionGrant::Granted);
        self.grant_to_group(port, call_id, itsi, cached.dest.ssi, call.ts);
        let granted = CallControl::FloorGranted {
            call_id,
            source_issi: itsi,
            dest_gssi: cached.dest.ssi,
            ts: call.ts,
        };
        port.control(TetraEntity::Umac, granted);
        if port.brew_carries(cached.dest.ssi) {
            port.control(TetraEntity::Brew, granted);
        }
    }

    // -----------------------------------------------------------------------
    // The end of a call
    // -----------------------------------------------------------------------

    /// Tells one party that its private call ends.
    fn release_party(
        &mut self,
        port: &mut CcPort,
        call_id: u16,
        itsi: u32,
        cause: DisconnectCause,
        torn_down: Option<u8>,
    ) -> (r: Option<u8>)
        ensures
            (final(self).run(*final(port)), r) == old(self).run(*old(port)).release_party(
                call_id,
                itsi,
                cause,
                torn_down,
            ),
    {
        let release = DownlinkPdu::DRelease { call_identifier: call_id, disconnect_cause: cause };
        match self.private_circuits.remove(CallParty { call_id, issi: itsi }) {
            Some(circuit) => {
                port.emit(stolen(release, TetraAddress::issi(itsi), circuit.ts));
                let again: bool = match torn_down {
                    Some(ts) => ts == circuit.ts,
                    None => false,
                };
                if again {
                    torn_down
                } else {
                    self.releasing_private.push(
                        ReleasingPrivateCircuit { call_id, itsi, circuit, sent_at: self.dltime },
                    );
                    Some(circuit.ts)
                }
            },
            None => {
                // An offered call has no circuit yet.
                port.emit(
                    unitdata(
                        release,
                        None,
                        TetraAddress::issi(itsi),
                        Layer2Service::Acknowledged,
                        None,
                        None,
                    ),
                );
                torn_down
            },
        }
    }

    /// Releases a private call in this cell.
    pub fn release_private_call_local(
        &mut self,
        port: &mut CcPort,
        call_id: u16,
        cause: DisconnectCause,
    )
        ensures
            final(self).run(*final(port)) == old(self).run(*old(port)).release_private(
                call_id,
                cause,
            ),
    {
        proof {
            reveal(CcRun::release_private);
        }
        self.pending_private_floors = without_call(&self.pending_private_floors, call_id);
        let call = match self.private_calls.remove(call_id) {
            Some(call) => call,
            None => return ,
        };
        let mut torn_down: Option<u8> = None;
        if call.local_mask & 1 != 0 {
            torn_down = self.release_party(port, call_id, call.caller_itsi, cause, None);
        }
        if call.local_mask & 2 != 0 {
            self.release_party(port, call_id, call.callee_itsi, cause, torn_down);
        }
    }

    /// A party wants to end its private call.
    fn private_release(
        &mut self,
        port: &mut CcPort,
        prim: UplinkPrim,
        call_id: u16,
        cause: DisconnectCause,
    )
        ensures
            final(self).run(*final(port)) == old(self).run(*old(port)).private_release(
                prim,
                call_id,
                cause,
            ),
    {
        if port.swmi.is_online() {
            port.submit(
                CallMessage::PrivateCallRelease {
                    call_id: call_id as u64,
                    itsi: prim.received.ssi as u64,
                    cause: cause.code(),
                },
            );
        } else {
            self.release_private_call_local(port, call_id, cause);
        }
    }

    /// A U-RELEASE.
    pub fn rx_u_release(
        &mut self,
        port: &mut CcPort,
        prim: UplinkPrim,
        call_id: u16,
        cause: DisconnectCause,
    )
        ensures
            final(self).run(*final(port)) == old(self).run(*old(port)).u_release(
                prim,
                call_id,
                cause,
            ),
    {
        proof {
            reveal(CcRun::u_release);
        }
        if self.private_calls.contains_key(call_id) {
            self.private_release(port, prim, call_id, cause);
        } else {
            self.release_call(port, call_id, DisconnectCause::UserRequestedDisconnection);
        }
    }

    /// A U-DISCONNECT.
    pub fn rx_u_disconnect(
        &mut self,
        port: &mut CcPort,
        prim: UplinkPrim,
        call_id: u16,
        cause: DisconnectCause,
    )
        ensures
            final(self).run(*final(port)) == old(self).run(*old(port)).u_disconnect(
                prim,
                call_id,
                cause,
            ),
    {
        proof {
            reveal(CcRun::u_disconnect);
        }
        if self.private_calls.contains_key(call_id) {
            self.private_release(port, prim, call_id, cause);
            return ;
        }
        if port.swmi.is_online() {
            let command_id: u64 = self.next_swmi_command_id();
            if port.swmi.takes() {
                port.submit(
                    CallMessage::CallDisconnectRequest {
                        command_id,
                        call_id: call_id as u64,
                        itsi: prim.received.ssi as u64,
                    },
                );
                return ;
            }
        }
        let call = match self.active_calls.get(call_id) {
            Some(call) => call,
            None => return ,
        };
        let owner: bool = match call.origin {
            CallOrigin::Local { caller } => caller.ssi == prim.received.ssi,
            _ => false,
        };
        if owner {
            self.release_call(port, call_id, DisconnectCause::UserRequestedDisconnection);
        } else {
            port.emit(
                reply(
                    prim,
                    DownlinkPdu::DRelease {
                        call_identifier: call_id,
                        disconnect_cause: DisconnectCause::RequestedServiceNotAvailable,
                    },
                    None,
                    TetraAddress::issi(prim.received.ssi),
                    Layer2Service::Unacknowledged,
                ),
            );
        }
    }

    // -----------------------------------------------------------------------
    // Private calls
    // -----------------------------------------------------------------------

    /// A U-ALERT.
    pub fn rx_private_u_alert(&mut self, port: &mut CcPort, prim: UplinkPrim, call_id: u16)
        ensures
            final(self).run(*final(port)) == old(self).run(*old(port)).u_alert(prim, call_id),
    {
        let itsi: u32 = prim.received.ssi;
        if let Some(call) = self.private_calls.get(call_id) {
            if call.callee_itsi == itsi && port.swmi.is_online() {
                port.submit(
                    CallMessage::PrivateCallAlert {
                        call_id: call_id as u64,
                        callee_itsi: itsi as u64,
                    },
                );
            }
        }
    }

    /// A U-CONNECT.
    pub fn rx_private_u_connect(&mut self, port: &mut CcPort, prim: UplinkPrim, call_id: u16)
        ensures
            final(self).run(*final(port)) == old(self).run(*old(port)).u_connect(prim, call_id),
    {
        let itsi: u32 = prim.received.ssi;
        if let Some(call) = self.private_calls.get(call_id) {
            if call.callee_itsi == itsi && port.swmi.is_online() {
                let command_id: u64 = self.next_swmi_command_id();
                port.submit(
                    CallMessage::PrivateCallConnectRequest {
                        command_id,
                        call_id: call_id as u64,
                        itsi: itsi as u64,
                    },
                );
            }
        }
    }

    /// Routes the media of an endpoint through the SwMI.
    fn start_private_media(&self, port: &mut CcPort, call_id: u16, itsi: u32, peer: u32, ts: u8)
        ensures
            self.run(*final(port)) == self.run(*old(port)).start_media(call_id, itsi, peer, ts),
    {
        let start = CallControl::PrivateMediaStart {
            call_id,
            source_issi: itsi,
            destination_issi: peer,
            ts,
        };
        port.control(TetraEntity::Swmi, start);
        port.control(TetraEntity::Umac, start);
    }

    /// Stops routing the media on a timeslot through the SwMI.
    fn stop_private_media(&self, port: &mut CcPort, call_id: u16, ts: u8)
        ensures
            self.run(*final(port)) == self.run(*old(port)).stop_media(call_id, ts),
    {
        let stop = CallControl::PrivateMediaStop { call_id, ts };
        port.control(TetraEntity::Swmi, stop);
        port.control(TetraEntity::Umac, stop);
    }

    /// The circuit of one party.
    fn party_circuit(&self, call_id: u16, itsi: u32, Ghost(port): Ghost<CcPort>) -> (circuit:
        Option<CmceCircuit>)
        ensures
            circuit == self.run(port).party_circuit(call_id, itsi),
    {
        self.private_circuits.get(CallParty { call_id, issi: itsi })
    }

    /// Seizes a circuit for one party: that of the other party where they share
    /// one, else a new one. Returns the circuit that was opened, and whether no
    /// timeslot was free.
    fn seize_party(
        &mut self,
        port: &mut CcPort,
        call_id: u16,
        itsi: u32,
        wanted: bool,
        shared: Option<CmceCircuit>,
        duplex: bool,
    ) -> (r: (Option<CmceCircuit>, bool))
        ensures
            ({
                let seizure = old(self).run(*old(port)).seize_party(
                    call_id,
                    itsi,
                    wanted,
                    shared,
                    duplex,
                );
                &&& final(self).run(*final(port)) == seizure.run
                &&& r.0 == seizure.opened
                &&& r.1 == seizure.failed
            }),
    {
        let party = CallParty { call_id, issi: itsi };
        if !wanted || self.private_circuits.contains_key(party) {
            return (None, false);
        }
        if let Some(circuit) = shared {
            self.private_circuits.insert(party, circuit);
            return (None, false);
        }
        match self.open_circuit(port, CommunicationType::P2p, Some(call_id), duplex) {
            Some(circuit) => {
                self.private_circuits.insert(party, circuit);
                (Some(circuit), false)
            },
            None => (None, true),
        }
    }

    /// Gives a circuit of a party up.
    fn yield_party(&mut self, port: &mut CcPort, call_id: u16, itsi: u32, circuit: CmceCircuit)
        ensures
            final(self).run(*final(port)) == old(self).run(*old(port)).yield_party(
                call_id,
                itsi,
                circuit,
            ),
    {
        self.private_circuits.remove(CallParty { call_id, issi: itsi });
        self.circuits.close_circuit(circuit.ts);
        port.control(TetraEntity::Umac, CallControl::Close(circuit.direction, circuit.ts));
        port.free_slot(circuit.ts);
    }

    /// Seizes circuits for the parties of a private call in `endpoint_mask`;
    /// tells whether all of them have one.
    pub fn allocate_private_call_resources(
        &mut self,
        port: &mut CcPort,
        call_id: u16,
        caller_itsi: u32,
        callee_itsi: u32,
        endpoint_mask: u8,
        duplex: bool,
    ) -> (accepted: bool)
        ensures
            (final(self).run(*final(port)), accepted) == old(self).run(*old(port)).seize_private(
                call_id,
                caller_itsi,
                callee_itsi,
                endpoint_mask,
                duplex,
            ),
    {
        proof {
            reveal(CcRun::seize_private);
        }
        let call = match self.private_calls.get(call_id) {
            Some(call) => call,
            None => return false,
        };
        let local_mask: u8 = call.local_mask | endpoint_mask;
        self.private_calls.insert(call_id, PrivateCallLocal { local_mask, ..call });
        let shares: bool = !duplex && local_mask & 3 == 3;
        let mut shared: Option<CmceCircuit> = None;
        if shares {
            shared = self.party_circuit(call_id, caller_itsi, Ghost(*port));
            if shared.is_none() {
                shared = self.party_circuit(call_id, callee_itsi, Ghost(*port));
            }
        }
        let (opened, failed) = self.seize_party(
            port,
            call_id,
            caller_itsi,
            endpoint_mask & 1 != 0,
            shared,
            duplex,
        );
        if failed {
            self.private_calls.insert(call_id, call);
            return false;
        }
        if shares && opened.is_some() {
            shared = opened;
        }
        let (_, failed) = self.seize_party(
            port,
            call_id,
            callee_itsi,
            endpoint_mask & 2 != 0,
            shared,
            duplex,
        );
        if failed {
            if let Some(circuit) = opened {
                self.yield_party(port, call_id, caller_itsi, circuit);
            }
            self.private_calls.insert(call_id, call);
            return false;
        }
        true
    }

    /// Whether a circuit of the private call is on `ts`.
    fn slot_in_private_call(&self, call_id: u16, ts: u8, Ghost(port): Ghost<CcPort>) -> (r: bool)
        ensures
            r == self.run(port).slot_in_private_call(call_id, ts),
    {
        let mut i: usize = 0;
        while i < self.private_circuits.len()
            invariant
                i <= self.private_circuits@.len(),
                forall|j: int|
                    0 <= j < i ==> !((#[trigger] self.private_circuits@[j]).1.call_id == call_id
                        && self.private_circuits@[j].1.ts == ts),
            decreases self.private_circuits@.len() - i,
        {
            let (_, circuit) = self.private_circuits.entry(i);
            if circuit.call_id == call_id && circuit.ts == ts {
                assert(self.run(port).st.private_circuits[i as int].1.call_id == call_id);
                return true;
            }
            i = i + 1;
        }
        false
    }

    /// Bridges an endpoint of this cell, if it has a circuit.
    fn bridge_party(&self, port: &mut CcPort, call_id: u16, wanted: bool, itsi: u32, peer: u32)
        ensures
            self.run(*final(port)) == self.run(*old(port)).bridge_party(
                call_id,
                wanted,
                itsi,
                peer,
            ),
    {
        if let Some(circuit) = self.party_circuit(call_id, itsi, Ghost(*port)) {
            if wanted {
                self.start_private_media(port, call_id, itsi, peer, circuit.ts);
            }
        }
    }

    /// Removes the party of a private call that has registered in another cell.
    /// The call goes on: the circuit of the other party is bridged.
    pub fn detach_roamed_private_endpoint(
        &mut self,
        port: &mut CcPort,
        call_id: u16,
        departed_itsi: u32,
    )
        ensures
            final(self).run(*final(port)) == old(self).run(*old(port)).detach_party(
                call_id,
                departed_itsi,
            ),
    {
        proof {
            reveal(CcRun::detach_party);
        }
        let call = match self.private_calls.get(call_id) {
            Some(call) => call,
            None => return ,
        };
        let bit: u8 = if departed_itsi == call.caller_itsi {
            1
        } else if departed_itsi == call.callee_itsi {
            2
        } else {
            return ;
        };
        if call.local_mask & bit == 0 {
            return ;
        }
        let party = CallParty { call_id, issi: departed_itsi };
        let remaining = PrivateCallLocal { local_mask: call.local_mask & !bit, ..call };
        self.pending_private_floors.remove(party);
        let departed = self.private_circuits.remove(party);
        if remaining.local_mask == 0 {
            self.private_calls.remove(call_id);
        } else {
            self.private_calls.insert(call_id, remaining);
        }
        if let Some(circuit) = departed {
            if !self.slot_in_private_call(call_id, circuit.ts, Ghost(*port)) {
                self.circuits.close_circuit(circuit.ts);
                port.control(TetraEntity::Umac, CallControl::Close(circuit.direction, circuit.ts));
                port.free_slot(circuit.ts);
                self.stop_private_media(port, call_id, circuit.ts);
            }
        }
        if remaining.local_mask != 0 {
            self.bridge_party(
                port,
                call_id,
                remaining.local_mask & 1 != 0,
                call.caller_itsi,
                call.callee_itsi,
            );
            self.bridge_party(
                port,
                call_id,
                remaining.local_mask & 2 != 0,
                call.callee_itsi,
                call.caller_itsi,
            );
        }
    }

    /// Offers a private call to the called party.
    fn send_private_d_setup(&self, port: &mut CcPort, call_id: u16, call: PrivateCallLocal)
        ensures
            self.run(*final(port)) == self.run(*old(port)).private_offer(call_id, call),
    {
        port.emit(
            unitdata(
                DownlinkPdu::DSetup(
                    DSetup {
                        call_identifier: call_id,
                        call_time_out: CallTimeout::T30s,
                        hook_method_selection: call.hook,
                        simplex_duplex_selection: call.duplex,
                        basic_service_information: speech_service(CommunicationType::P2p),
                        transmission_grant: TransmissionGrant::NotGranted,
                        transmission_request_permission: false,
                        call_priority: call.priority,
                        notification_indicator: None,
                        calling_party_address_ssi: Some(call.caller_itsi),
                    },
                ),
                None,
                TetraAddress::issi(call.callee_itsi),
                Layer2Service::Acknowledged,
                None,
                None,
            ),
        );
    }

    /// Tells a party that its private call is connected.
    fn send_private_connect(
        &self,
        port: &mut CcPort,
        call_id: u16,
        call: PrivateCallLocal,
        itsi: u32,
        circuit: CmceCircuit,
        floor_itsi: u32,
    )
        ensures
            self.run(*final(port)) == self.run(*old(port)).private_connect(
                call_id,
                call,
                itsi,
                circuit,
                floor_itsi,
            ),
    {
        let grant = if call.duplex || floor_itsi == itsi {
            TransmissionGrant::Granted
        } else {
            TransmissionGrant::GrantedToOtherUser
        };
        let pdu = if itsi == call.caller_itsi {
            DownlinkPdu::DConnect(
                DConnect {
                    call_identifier: call_id,
                    call_time_out: CallTimeout::T5m,
                    hook_method_selection: call.hook,
                    simplex_duplex_selection: call.duplex,
                    transmission_grant: grant,
                    transmission_request_permission: false,
                    call_ownership: true,
                    call_priority: Some(call.priority as u64),
                },
            )
        } else {
            DownlinkPdu::DConnectAcknowledge {
                call_identifier: call_id,
                call_time_out: CallTimeout::T5m,
                transmission_grant: grant,
                transmission_request_permission: false,
            }
        };
        port.emit(
            unitdata(
                pdu,
                Some(allocation(Some(circuit.usage), circuit.ts)),
                TetraAddress::issi(itsi),
                Layer2Service::Acknowledged,
                None,
                None,
            ),
        );
    }

    /// The timeslot that both parties of a simplex call in this cell share.
    fn shared_slot(&self, call_id: u16, call: PrivateCallLocal, Ghost(port): Ghost<CcPort>) -> (ts:
        Option<u8>)
        ensures
            ts == self.run(port).shared_slot(call_id, call),
    {
        let caller = self.party_circuit(call_id, call.caller_itsi, Ghost(port));
        let callee = self.party_circuit(call_id, call.callee_itsi, Ghost(port));
        match (caller, callee) {
            (Some(caller), Some(callee)) => if !call.duplex && call.local_mask & 3 == 3 && caller.ts
                == callee.ts {
                Some(caller.ts)
            } else {
                None
            },
            _ => None,
        }
    }

    /// Connects one party with a circuit here.
    fn connect_party(
        &self,
        port: &mut CcPort,
        call_id: u16,
        call: PrivateCallLocal,
        itsi: u32,
        floor_itsi: u32,
        shares: bool,
    )
        ensures
            self.run(*final(port)) == self.run(*old(port)).connect_party(
                call_id,
                call,
                itsi,
                floor_itsi,
                shares,
            ),
    {
        if let Some(circuit) = self.party_circuit(call_id, itsi, Ghost(*port)) {
            self.send_private_connect(port, call_id, call, itsi, circuit, floor_itsi);
            if !shares {
                self.start_private_media(port, call_id, itsi, peer_of(call, itsi), circuit.ts);
            }
        }
    }

    /// A private call is connected.
    fn private_connected(&mut self, port: &mut CcPort, call_id: u16, floor_itsi: u32)
        ensures
            final(self).run(*final(port)) == old(self).run(*old(port)).private_connected(
                call_id,
                floor_itsi,
            ),
    {
        proof {
            reveal(CcRun::private_connected);
        }
        let call = match self.private_calls.get(call_id) {
            Some(earlier) => PrivateCallLocal { connected: true, floor_itsi, ..earlier },
            None => return ,
        };
        self.private_calls.insert(call_id, call);
        let shares: bool = self.shared_slot(call_id, call, Ghost(*port)).is_some();
        self.connect_party(port, call_id, call, call.caller_itsi, floor_itsi, shares);
        self.connect_party(port, call_id, call, call.callee_itsi, floor_itsi, shares);
        self.record_uplink_call_location(call.caller_itsi, call_id, Ghost(*port));
        self.record_uplink_call_location(call.callee_itsi, call_id, Ghost(*port));
    }

    /// What the MAC is told of the floor on a restored circuit.
    fn restored_floor(
        &self,
        call_id: u16,
        call: PrivateCallLocal,
        ts: u8,
        Ghost(port): Ghost<CcPort>,
    ) -> (control: CallControl)
        ensures
            control == self.run(port).restored_floor(call_id, call, ts),
    {
        if call.duplex {
            CallControl::PrivateCallTrafficActive { call_id, ts }
        } else if call.floor_itsi == 0 {
            CallControl::FloorReleased { call_id, ts }
        } else {
            CallControl::FloorGranted { call_id, source_issi: call.floor_itsi, dest_gssi: 0, ts }
        }
    }

    /// Tells the MAC of the floor on the circuit of each party, once for each
    /// timeslot.
    fn restore_floors(&self, port: &mut CcPort, call_id: u16, call: PrivateCallLocal)
        ensures
            self.run(*final(port)) == self.run(*old(port)).restore_floors(call_id, call),
    {
        let caller = self.party_circuit(call_id, call.caller_itsi, Ghost(*port));
        let callee = self.party_circuit(call_id, call.callee_itsi, Ghost(*port));
        let mut told: Option<u8> = None;
        if let Some(circuit) = caller {
            let control = self.restored_floor(call_id, call, circuit.ts, Ghost(*port));
            port.control(TetraEntity::Umac, control);
            told = Some(circuit.ts);
        }
        if let Some(circuit) = callee {
            let again: bool = match told {
                Some(ts) => ts == circuit.ts,
                None => false,
            };
            if !again {
                let control = self.restored_floor(call_id, call, circuit.ts, Ghost(*port));
                port.control(TetraEntity::Umac, control);
            }
        }
    }

    /// A connected private call comes back with a party that moved here. It
    /// neither reports resources to the SwMI nor sends D-CONNECT.
    fn private_restore(
        &mut self,
        port: &mut CcPort,
        call_id: u16,
        restored: PrivateCallLocal,
        endpoint_mask: u8,
    )
        ensures
            final(self).run(*final(port)) == old(self).run(*old(port)).private_restore(
                call_id,
                restored,
                endpoint_mask,
            ),
    {
        proof {
            reveal(CcRun::private_restore);
        }
        let held = match self.private_calls.get(call_id) {
            Some(existing) => PrivateCallLocal {
                local_mask: existing.local_mask | endpoint_mask,
                connected: true,
                floor_itsi: restored.floor_itsi,
                ..existing
            },
            None => restored,
        };
        self.private_calls.insert(call_id, held);
        let accepted: bool = self.allocate_private_call_resources(
            port,
            call_id,
            restored.caller_itsi,
            restored.callee_itsi,
            endpoint_mask,
            restored.duplex,
        );
        if !accepted {
            return ;
        }
        let call = match self.private_calls.get(call_id) {
            Some(call) => call,
            None => return ,
        };
        match self.shared_slot(call_id, call, Ghost(*port)) {
            Some(ts) => self.stop_private_media(port, call_id, ts),
            None => {
                self.bridge_party(
                    port,
                    call_id,
                    endpoint_mask & 1 != 0,
                    call.caller_itsi,
                    call.callee_itsi,
                );
                self.bridge_party(
                    port,
                    call_id,
                    endpoint_mask & 2 != 0,
                    call.callee_itsi,
                    call.caller_itsi,
                );
            },
        }
        self.restore_floors(port, call_id, call);
        if call.local_mask & 1 != 0 {
            self.record_uplink_call_location(call.caller_itsi, call_id, Ghost(*port));
        }
        if call.local_mask & 2 != 0 {
            self.record_uplink_call_location(call.callee_itsi, call_id, Ghost(*port));
        }
    }

    /// Tells one party who has the floor; its circuit leaves hangtime unless
    /// `resumed` is its timeslot.
    fn private_grant_party(
        &self,
        port: &mut CcPort,
        call_id: u16,
        itsi: u32,
        recipient: u32,
        resumed: Option<u8>,
    ) -> (r: Option<u8>)
        ensures
            (self.run(*final(port)), r) == self.run(*old(port)).private_grant_party(
                call_id,
                itsi,
                recipient,
                resumed,
            ),
    {
        let circuit = match self.party_circuit(call_id, recipient, Ghost(*port)) {
            Some(circuit) => circuit,
            None => return resumed,
        };
        let grant = if itsi == recipient {
            TransmissionGrant::Granted
        } else {
            TransmissionGrant::GrantedToOtherUser
        };
        self.grant_to(port, call_id, recipient, itsi, circuit.ts, grant);
        let again: bool = match resumed {
            Some(ts) => ts == circuit.ts,
            None => false,
        };
        if again {
            return resumed;
        }
        port.control(
            TetraEntity::Umac,
            CallControl::FloorGranted { call_id, source_issi: itsi, dest_gssi: 0, ts: circuit.ts },
        );
        Some(circuit.ts)
    }

    /// The floor of a private call is granted.
    fn private_floor_granted(&mut self, port: &mut CcPort, call_id: u16, itsi: u32)
        ensures
            final(self).run(*final(port)) == old(self).run(*old(port)).private_floor_granted(
                call_id,
                itsi,
            ),
    {
        proof {
            reveal(CcRun::private_floor_granted);
        }
        self.pending_private_floors.remove(CallParty { call_id, issi: itsi });
        let call = match self.private_calls.get(call_id) {
            Some(call) => call,
            None => return ,
        };
        self.private_calls.insert(call_id, PrivateCallLocal { floor_itsi: itsi, ..call });
        let resumed = self.private_grant_party(port, call_id, itsi, call.caller_itsi, None);
        self.private_grant_party(port, call_id, itsi, call.callee_itsi, resumed);
    }

    /// Tells one party that nobody has the floor; its circuit enters hangtime
    /// unless `released` is its timeslot.
    fn private_cease_party(
        &self,
        port: &mut CcPort,
        call_id: u16,
        itsi: u32,
        released: Option<u8>,
    ) -> (r: Option<u8>)
        ensures
            (self.run(*final(port)), r) == self.run(*old(port)).private_cease_party(
                call_id,
                itsi,
                released,
            ),
    {
        let circuit = match self.party_circuit(call_id, itsi, Ghost(*port)) {
            Some(circuit) => circuit,
            None => return released,
        };
        self.ceased(port, call_id, TetraAddress::issi(itsi), circuit.ts);
        let again: bool = match released {
            Some(ts) => ts == circuit.ts,
            None => false,
        };
        if again {
            return released;
        }
        port.control(TetraEntity::Umac, CallControl::FloorReleased { call_id, ts: circuit.ts });
        Some(circuit.ts)
    }

    /// Nobody has the floor of a private call any more.
    fn private_floor_released(&mut self, port: &mut CcPort, call_id: u16)
        ensures
            final(self).run(*final(port)) == old(self).run(*old(port)).private_floor_released(
                call_id,
            ),
    {
        proof {
            reveal(CcRun::private_floor_released);
        }
        let call = match self.private_calls.get(call_id) {
            Some(call) => call,
            None => return ,
        };
        self.private_calls.insert(call_id, PrivateCallLocal { floor_itsi: 0, ..call });
        let released = self.private_cease_party(port, call_id, call.caller_itsi, None);
        self.private_cease_party(port, call_id, call.callee_itsi, released);
    }
}

impl CcBsSubentity {
    // -----------------------------------------------------------------------
    // Handover
    // -----------------------------------------------------------------------

    /// Takes the terminal for known and a member of the group, as it will be
    /// once it has arrived.
    fn expect_member(&mut self, itsi: u32, gssi: u32, Ghost(port): Ghost<CcPort>)
        ensures
            final(self).run(port) == old(self).run(port).expect_member(itsi, gssi),
    {
        let member = Membership { issi: itsi, gssi };
        if !self.known.contains_key(itsi) {
            self.known.insert(itsi, true);
        }
        if !self.members.contains_key(member) {
            self.members.insert(member, true);
        }
        if !self.scanning.contains_key(itsi) {
            self.scanning.insert(itsi, true);
        }
    }

    /// Reserves the channel of a group call, if the call is active and the
    /// channel can be told to the terminal.
    fn reserve_channel(
        &mut self,
        carrier: u16,
        itsi: u32,
        call_id: u16,
        Ghost(port): Ghost<CcPort>,
    ) -> (channel: Option<HandoverChannelAllocation>)
        requires
            carrier == port.main_carrier,
        ensures
            (final(self).run(port), channel) == old(self).run(port).reserve_channel(itsi, call_id),
    {
        let call = match self.active_calls.get(call_id) {
            Some(call) => call,
            None => return None,
        };
        let channel = HandoverChannelAllocation {
            carrier,
            timeslot_bitmap: slot_bit(call.ts),
            usage: call.usage,
        };
        if !channel.validate() {
            return None;
        }
        self.record_uplink_call_location(itsi, call_id, Ghost(port));
        Some(channel)
    }

    /// Reserves a channel of a group call for a terminal that is about to
    /// arrive.
    pub fn reserve_seamless_handover_group_call(
        &mut self,
        port: &mut CcPort,
        itsi: u32,
        central_call_id: u64,
        remote: RemoteCall,
    ) -> (channel: Option<HandoverChannelAllocation>)
        ensures
            (final(self).run(*final(port)), channel) == old(self).run(*old(port)).reserve_handover(
                itsi,
                central_call_id,
                remote,
            ),
    {
        proof {
            reveal(CcRun::reserve_handover);
        }
        if central_call_id > 0xffff || central_call_id == 0 {
            return None;
        }
        let call_id: u16 = central_call_id as u16;
        let carrier: u16 = port.main_carrier;
        self.expect_member(itsi, remote.gssi, Ghost(*port));
        match self.active_calls.get(call_id) {
            Some(existing) => {
                if existing.dest_gssi != remote.gssi {
                    return None;
                }
            },
            None => {
                proof {
                    self.run(*port).lemma_start_remote_keeps_surroundings(call_id, remote, false);
                }
                self.start_remote_swmi_call(port, call_id, remote, false);
            },
        }
        self.reserve_channel(carrier, itsi, call_id, Ghost(*port))
    }

    // -----------------------------------------------------------------------
    // Decisions of the central SwMI
    // -----------------------------------------------------------------------

    /// The latest U-SETUP that waits for a call of the group.
    fn waiting_for_group(&self, gssi: u32) -> (found: Option<(Membership, SetupRequest)>)
        ensures
            found == crate::cmce::cc_events::waiting_for_group(self@.pending_setups, gssi),
    {
        let ghost setups = self@.pending_setups;
        let mut n: usize = self.pending_setups.len();
        assert(setups.take(n as int) =~= setups);
        while n > 0
            invariant
                n <= setups.len(),
                setups == self@.pending_setups,
                crate::cmce::cc_events::waiting_for_group(setups, gssi)
                    == crate::cmce::cc_events::waiting_for_group(setups.take(n as int), gssi),
            decreases n,
        {
            let (key, request) = self.pending_setups.entry(n - 1);
            proof {
                assert(setups.take(n as int).drop_last() =~= setups.take(n - 1));
                assert(setups.take(n as int).last() == setups[n - 1]);
            }
            if key.gssi == gssi {
                return Some((key, request));
            }
            n = n - 1;
        }
        None
    }

    /// The latest U-SETUP of a terminal that waits for a group call.
    fn waiting_from_terminal(&self, issi: u32) -> (found: Option<(Membership, SetupRequest)>)
        ensures
            found == crate::cmce::cc_events::waiting_from_terminal(self@.pending_setups, issi),
    {
        let ghost setups = self@.pending_setups;
        let mut n: usize = self.pending_setups.len();
        assert(setups.take(n as int) =~= setups);
        while n > 0
            invariant
                n <= setups.len(),
                setups == self@.pending_setups,
                crate::cmce::cc_events::waiting_from_terminal(setups, issi)
                    == crate::cmce::cc_events::waiting_from_terminal(setups.take(n as int), issi),
            decreases n,
        {
            let (key, request) = self.pending_setups.entry(n - 1);
            proof {
                assert(setups.take(n as int).drop_last() =~= setups.take(n - 1));
                assert(setups.take(n as int).last() == setups[n - 1]);
            }
            if key.issi == issi {
                return Some((key, request));
            }
            n = n - 1;
        }
        None
    }

    /// A central group call starts.
    fn group_call_start(&mut self, port: &mut CcPort, call_id: u16, remote: RemoteCall)
        ensures
            final(self).run(*final(port)) == old(self).run(*old(port)).group_call_start(
                call_id,
                remote,
            ),
    {
        let owner = Membership { issi: remote.owner_itsi, gssi: remote.gssi };
        // The U-SETUP of a terminal that joins a call of another owner waits
        // under its own identity.
        let waiting = match self.pending_setups.get(owner) {
            Some(request) => Some((owner, request)),
            None => self.waiting_for_group(remote.gssi),
        };
        if let Some((key, request)) = waiting {
            self.pending_setups.remove(key);
            self.central_setups.insert(
                key,
                CentralSetup {
                    call_id,
                    floor_itsi: remote.floor_itsi,
                    priority: remote.priority,
                },
            );
            self.rx_u_setup(port, request);
        } else if !self.has_listener(remote.gssi) {
            self.pending_remote.insert(call_id, remote);
        } else {
            let announce: bool = !self.floor_holder_is_local_member(
                remote.gssi,
                remote.floor_itsi,
            );
            self.start_remote_swmi_call(port, call_id, remote, announce);
        }
    }

    /// The priority of a group call changes.
    fn priority_changed(&mut self, port: &mut CcPort, call_id: u16, priority: u8)
        ensures
            final(self).run(*final(port)) == old(self).run(*old(port)).priority_changed(
                call_id,
                priority,
            ),
    {
        if let Some(call) = self.active_calls.get(call_id) {
            self.active_calls.insert(call_id, ActiveCall { priority, ..call });
        }
        if let Some(cached) = self.cached_setups.get(call_id) {
            let setup = DSetup { call_priority: priority, ..cached.setup };
            self.cached_setups.insert(call_id, CachedSetup { setup, ..cached });
        }
    }

    /// The floor is taken from a speaker.
    fn floor_preempted(
        &mut self,
        port: &mut CcPort,
        call_id: u16,
        previous_itsi: u32,
        next_itsi: u32,
    )
        ensures
            final(self).run(*final(port)) == old(self).run(*old(port)).floor_preempted(
                call_id,
                previous_itsi,
                next_itsi,
            ),
    {
        let due = self.dltime.add_timeslots(PREEMPTION_GUARD_TIMESLOTS);
        if self.apply_floor_preemption(port, call_id, previous_itsi, next_itsi) {
            self.pending_grants.insert(call_id, FloorTimer { itsi: next_itsi, due });
        }
    }

    /// The floor of a group call is granted, unless the grant waits for an
    /// interruption.
    fn floor_granted(&mut self, port: &mut CcPort, call_id: u16, itsi: u32)
        ensures
            final(self).run(*final(port)) == old(self).run(*old(port)).floor_granted(call_id, itsi),
    {
        if let Some(timer) = self.pending_grants.get(call_id) {
            if timer.itsi == itsi {
                return ;
            }
        }
        self.apply_central_floor_grant(port, call_id, itsi);
    }

    /// Nobody has the floor of a group call any more.
    fn floor_released(&mut self, port: &mut CcPort, call_id: u16)
        ensures
            final(self).run(*final(port)) == old(self).run(*old(port)).floor_released(call_id),
    {
        self.pending_grants.remove(call_id);
        if let Some(call) = self.active_calls.get(call_id) {
            self.active_calls.insert(
                call_id,
                ActiveCall { tx_active: false, hangtime_start: Some(self.dltime), ..call },
            );
            let released = CallControl::FloorReleased { call_id, ts: call.ts };
            port.control(TetraEntity::Umac, released);
            port.control(TetraEntity::Swmi, released);
        }
    }

    /// The central SwMI ends a group call.
    fn central_release(&mut self, port: &mut CcPort, call_id: u64, cause: u8)
        ensures
            final(self).run(*final(port)) == old(self).run(*old(port)).central_release(
                call_id,
                cause,
            ),
    {
        self.pending_remote.remove(call_id as u16);
        if call_id <= 0xffff {
            let cause = DisconnectCause::from_code_or(
                cause,
                DisconnectCause::SwmiRequestedDisconnection,
            );
            self.release_call(port, call_id as u16, cause);
        }
    }

    /// The central SwMI refuses a call that has no identifier yet.
    fn call_rejected(&mut self, port: &mut CcPort, itsi: u32, cause: u8)
        ensures
            final(self).run(*final(port)) == old(self).run(*old(port)).call_rejected(itsi, cause),
    {
        if let Some(request) = self.pending_private_setups.get(itsi) {
            self.pending_private_setups.remove(itsi);
            let cause = DisconnectCause::from_code_or(
                cause,
                DisconnectCause::RequestedServiceNotAvailable,
            );
            self.reject_setup(port, request.prim, cause);
        } else if let Some((key, request)) = self.waiting_from_terminal(itsi) {
            self.pending_setups.remove(key);
            self.reject_setup(
                port,
                request.prim,
                DisconnectCause::RequestedServiceNotAvailable,
            );
        }
    }

    /// The central SwMI has taken up a private call of a terminal of this cell.
    fn private_proceeding(&mut self, port: &mut CcPort, call_id: u16, call: PrivateCallLocal)
        ensures
            final(self).run(*final(port)) == old(self).run(*old(port)).private_proceeding(
                call_id,
                call,
            ),
    {
        if let Some(request) = self.pending_private_setups.get(call.caller_itsi) {
            self.pending_private_setups.remove(call.caller_itsi);
            self.private_calls.insert(call_id, call);
            self.call_proceeding(port, request.prim, request.pdu, call_id);
        }
    }

    /// A private call is offered to a terminal of this cell.
    fn private_offered(&mut self, port: &mut CcPort, call_id: u16, call: PrivateCallLocal)
        ensures
            final(self).run(*final(port)) == old(self).run(*old(port)).private_offered(
                call_id,
                call,
            ),
    {
        let held = match self.private_calls.get(call_id) {
            Some(existing) => PrivateCallLocal {
                local_mask: existing.local_mask | 2,
                ..existing
            },
            None => call,
        };
        self.private_calls.insert(call_id, held);
        self.send_private_d_setup(port, call_id, call);
    }

    /// The called party of a private call is being alerted.
    fn private_alerted(&mut self, port: &mut CcPort, call_id: u16)
        ensures
            final(self).run(*final(port)) == old(self).run(*old(port)).private_alerted(call_id),
    {
        if let Some(call) = self.private_calls.get(call_id) {
            port.emit(
                unitdata(
                    DownlinkPdu::DAlert {
                        call_identifier: call_id,
                        call_time_out_set_up_phase: CallTimeoutSetupPhase::T30s,
                        simplex_duplex_selection: call.duplex,
                        call_queued: false,
                    },
                    None,
                    TetraAddress::issi(call.caller_itsi),
                    Layer2Service::Acknowledged,
                    None,
                    None,
                ),
            );
        }
    }

    /// A party of a private call is told that the call goes on.
    fn private_keepalive(&mut self, port: &mut CcPort, call_id: u16, itsi: u32)
        ensures
            final(self).run(*final(port)) == old(self).run(*old(port)).private_keepalive(
                call_id,
                itsi,
            ),
    {
        if let Some(circuit) = self.party_circuit(call_id, itsi, Ghost(*port)) {
            port.emit(
                stolen(
                    DownlinkPdu::DInfo {
                        call_identifier: call_id,
                        reset_call_time_out_timer: true,
                        poll_request: false,
                    },
                    TetraAddress::issi(itsi),
                    circuit.ts,
                ),
            );
        }
    }

    /// A message of the central SwMI.
    pub fn handle_swmi_action(&mut self, port: &mut CcPort, action: CallMessage)
        ensures
            final(self).run(*final(port)) == old(self).run(*old(port)).swmi_action(action),
    {
        proof {
            reveal(CcRun::swmi_action);
        }
        match action {
            CallMessage::HandoverReserveGroupCall {
                reservation_id,
                itsi,
                call_id,
                owner_itsi,
                gssi,
                priority,
                floor_itsi,
                acknowledged,
            } => {
                let online: bool = port.swmi.is_online();
                let remote = RemoteCall {
                    owner_itsi: owner_itsi as u32,
                    gssi,
                    priority,
                    floor_itsi: floor_itsi as u32,
                    acknowledged,
                };
                let allocation = self.reserve_seamless_handover_group_call(
                    port,
                    itsi as u32,
                    call_id,
                    remote,
                );
                if online {
                    port.submit(
                        CallMessage::HandoverReservationResult {
                            reservation_id,
                            accepted: allocation.is_some(),
                            allocation,
                        },
                    );
                }
            },
            CallMessage::GroupCallStart {
                call_id,
                owner_itsi,
                gssi,
                priority,
                floor_itsi,
                acknowledged,
            } => {
                if call_id <= 0xffff {
                    let remote = RemoteCall {
                        owner_itsi: owner_itsi as u32,
                        gssi,
                        priority,
                        floor_itsi: floor_itsi as u32,
                        acknowledged,
                    };
                    self.group_call_start(port, call_id as u16, remote);
                }
            },
            CallMessage::GroupCallPriorityChanged { call_id, priority } => {
                if call_id <= 0xffff {
                    self.priority_changed(port, call_id as u16, priority);
                }
            },
            CallMessage::FloorPreempted { call_id, previous_itsi, next_itsi } => {
                if call_id <= 0xffff {
                    self.floor_preempted(
                        port,
                        call_id as u16,
                        previous_itsi as u32,
                        next_itsi as u32,
                    );
                }
            },
            CallMessage::FloorGranted { call_id, itsi } => {
                if call_id <= 0xffff {
                    self.floor_granted(port, call_id as u16, itsi as u32);
                }
            },
            CallMessage::FloorReleased { call_id } => {
                if call_id <= 0xffff {
                    self.floor_released(port, call_id as u16);
                }
            },
            CallMessage::CallRelease { call_id, cause } => {
                self.central_release(port, call_id, cause);
            },
            // Group calls end with D-RELEASE, whichever way the SwMI puts it.
            CallMessage::CallDisconnect { call_id, cause } => {
                self.central_release(port, call_id, cause);
            },
            CallMessage::CallReject { call_id, itsi, cause } => {
                if call_id == 0 {
                    self.call_rejected(port, itsi as u32, cause);
                }
            },
            CallMessage::PrivateCallProceeding {
                call_id,
                caller_itsi,
                callee_itsi,
                hook,
                duplex,
                request_to_transmit,
                priority,
            } => {
                if call_id <= 0xffff {
                    let call = PrivateCallLocal {
                        caller_itsi: caller_itsi as u32,
                        callee_itsi: callee_itsi as u32,
                        hook,
                        duplex,
                        request_to_transmit,
                        priority,
                        floor_itsi: 0,
                        connected: false,
                        local_mask: 1,
                    };
                    self.private_proceeding(port, call_id as u16, call);
                }
            },
            CallMessage::PrivateCallOffer {
                call_id,
                caller_itsi,
                callee_itsi,
                hook,
                duplex,
                request_to_transmit,
                priority,
            } => {
                if call_id <= 0xffff {
                    let call = PrivateCallLocal {
                        caller_itsi: caller_itsi as u32,
                        callee_itsi: callee_itsi as u32,
                        hook,
                        duplex,
                        request_to_transmit,
                        priority,
                        floor_itsi: 0,
                        connected: false,
                        local_mask: 2,
                    };
                    self.private_offered(port, call_id as u16, call);
                }
            },
            CallMessage::PrivateCallAlert { call_id, callee_itsi: _ } => {
                if call_id <= 0xffff {
                    self.private_alerted(port, call_id as u16);
                }
            },
            CallMessage::PrivateCallReserve {
                call_id,
                caller_itsi,
                callee_itsi,
                endpoint_mask,
                duplex,
            } => {
                if call_id <= 0xffff {
                    let present: bool = port.swmi.is_present();
                    let accepted: bool = self.allocate_private_call_resources(
                        port,
                        call_id as u16,
                        caller_itsi as u32,
                        callee_itsi as u32,
                        endpoint_mask,
                        duplex,
                    );
                    if present {
                        port.submit(
                            CallMessage::PrivateCallResourceResult {
                                call_id,
                                endpoint_mask,
                                accepted,
                            },
                        );
                    }
                }
            },
            CallMessage::PrivateCallConnected { call_id, initial_floor_itsi } => {
                if call_id <= 0xffff {
                    self.private_connected(port, call_id as u16, initial_floor_itsi as u32);
                }
            },
            CallMessage::PrivateCallRestore {
                call_id,
                caller_itsi,
                callee_itsi,
                hook,
                duplex,
                request_to_transmit,
                priority,
                initial_floor_itsi,
                endpoint_mask,
            } => {
                if call_id <= 0xffff {
                    let call = PrivateCallLocal {
                        caller_itsi: caller_itsi as u32,
                        callee_itsi: callee_itsi as u32,
                        hook,
                        duplex,
                        request_to_transmit,
                        priority,
                        floor_itsi: initial_floor_itsi as u32,
                        connected: true,
                        local_mask: endpoint_mask,
                    };
                    self.private_restore(port, call_id as u16, call, endpoint_mask);
                }
            },
            CallMessage::PrivateCallEndpointMoved { call_id, itsi } => {
                if call_id <= 0xffff && itsi <= 0xffff_ffff {
                    self.detach_roamed_private_endpoint(port, call_id as u16, itsi as u32);
                }
            },
            CallMessage::PrivateCallRelease { call_id, itsi: _, cause } => {
                if call_id <= 0xffff {
                    let cause = DisconnectCause::from_code_or(
                        cause,
                        DisconnectCause::SwmiRequestedDisconnection,
                    );
                    self.release_private_call_local(port, call_id as u16, cause);
                }
            },
            CallMessage::PrivateFloorGranted { call_id, itsi } => {
                if call_id <= 0xffff {
                    self.private_floor_granted(port, call_id as u16, itsi as u32);
                }
            },
            CallMessage::PrivateFloorReleased { call_id, itsi: _ } => {
                if call_id <= 0xffff {
                    self.private_floor_released(port, call_id as u16);
                }
            },
            CallMessage::PrivateCallKeepalive { call_id, itsi } => {
                if call_id <= 0xffff {
                    self.private_keepalive(port, call_id as u16, itsi as u32);
                }
            },
            _ => {},
        }
    }

    // -----------------------------------------------------------------------
    // Uplink
    // -----------------------------------------------------------------------

    /// An uplink PDU.
    pub fn route_xx_deliver(&mut self, port: &mut CcPort, prim: UplinkPrim, pdu: UplinkPdu)
        ensures
            final(self).run(*final(port)) == old(self).run(*old(port)).uplink(prim, pdu),
    {
        proof {
            reveal(CcRun::uplink);
        }
        match pdu {
            UplinkPdu::USetup(setup) => self.rx_u_setup(port, SetupRequest { prim, pdu: setup }),
            UplinkPdu::UTxCeased { call_identifier } => self.rx_u_tx_ceased(
                port,
                prim,
                call_identifier,
            ),
            UplinkPdu::UTxDemand { call_identifier, tx_demand_priority } => self.rx_u_tx_demand(
                port,
                prim,
                call_identifier,
                tx_demand_priority,
            ),
            UplinkPdu::URelease { call_identifier, disconnect_cause } => self.rx_u_release(
                port,
                prim,
                call_identifier,
                disconnect_cause,
            ),
            UplinkPdu::UDisconnect { call_identifier, disconnect_cause } => self.rx_u_disconnect(
                port,
                prim,
                call_identifier,
                disconnect_cause,
            ),
            UplinkPdu::UAlert { call_identifier } => self.rx_private_u_alert(
                port,
                prim,
                call_identifier,
            ),
            UplinkPdu::UConnect { call_identifier } => self.rx_private_u_connect(
                port,
                prim,
                call_identifier,
            ),
            UplinkPdu::UInfo { call_identifier, poll_response } => self.rx_u_info(
                port,
                prim,
                call_identifier,
                poll_response,
            ),
            UplinkPdu::UCallRestore { call_identifier, other_party_ssi } => self.rx_u_call_restore(
                port,
                prim,
                call_identifier,
                other_party_ssi,
            ),
            UplinkPdu::MalformedUCallRestore => self.send_restore_failure(port, prim.received.ssi),
            UplinkPdu::UStatus => {},
        }
    }

    // -----------------------------------------------------------------------
    // Subscribers
    // -----------------------------------------------------------------------

    /// Makes the terminal a member of each of `groups`; returns the groups that
    /// it was no member of.
    fn affiliate_each(
        &mut self,
        issi: u32,
        groups: &Vec<u32>,
        classes: &Vec<u8>,
        Ghost(port): Ghost<CcPort>,
    ) -> (fresh: Vec<u32>)
        ensures
            (final(self).run(port), fresh@) == old(self).run(port).affiliate_each(
                issi,
                groups@,
                classes@,
            ),
    {
        let ghost before = self.run(port);
        let mut fresh: Vec<u32> = Vec::new();
        let mut i: usize = 0;
        assert(groups@.take(0) =~= Seq::empty());
        while i < groups.len()
            invariant
                i <= groups@.len(),
                (self.run(port), fresh@) == before.affiliate_each(
                    issi,
                    groups@.take(i as int),
                    classes@,
                ),
            decreases groups@.len() - i,
        {
            proof {
                assert(groups@.take(i + 1).drop_last() =~= groups@.take(i as int));
                assert(groups@.take(i + 1).last() == groups@[i as int]);
            }
            let member = Membership { issi, gssi: groups[i] };
            let class_of_usage: u8 = if i < classes.len() {
                classes[i]
            } else {
                0
            };
            self.class_of_usage.insert(member, class_of_usage);
            if !self.members.contains_key(member) {
                self.members.insert(member, true);
                fresh.push(groups[i]);
            }
            i = i + 1;
        }
        assert(groups@.take(groups@.len() as int) =~= groups@);
        fresh
    }

    /// Makes the terminal no member of any of `groups`; returns the groups that
    /// it was a member of.
    fn deaffiliate_each(&mut self, issi: u32, groups: &Vec<u32>, Ghost(port): Ghost<CcPort>) -> (
        left: Vec<u32>)
        ensures
            (final(self).run(port), left@) == old(self).run(port).deaffiliate_each(issi, groups@),
    {
        let ghost before = self.run(port);
        let mut left: Vec<u32> = Vec::new();
        let mut i: usize = 0;
        assert(groups@.take(0) =~= Seq::empty());
        while i < groups.len()
            invariant
                i <= groups@.len(),
                (self.run(port), left@) == before.deaffiliate_each(issi, groups@.take(i as int)),
            decreases groups@.len() - i,
        {
            proof {
                assert(groups@.take(i + 1).drop_last() =~= groups@.take(i as int));
                assert(groups@.take(i + 1).last() == groups@[i as int]);
            }
            let member = Membership { issi, gssi: groups[i] };
            self.class_of_usage.remove(member);
            if self.members.remove(member).is_some() {
                left.push(groups[i]);
            }
            i = i + 1;
        }
        assert(groups@.take(groups@.len() as int) =~= groups@);
        left
    }

    /// The groups of a terminal.
    fn groups_of(&self, issi: u32) -> (groups: Vec<u32>)
        ensures
            groups@ == crate::cmce::cc_events::groups_of(self@.members, issi),
    {
        let ghost members = self@.members;
        let mut groups: Vec<u32> = Vec::new();
        let mut i: usize = 0;
        assert(members.take(0) =~= Seq::empty());
        while i < self.members.len()
            invariant
                i <= members.len(),
                members == self@.members,
                groups@ == crate::cmce::cc_events::groups_of(members.take(i as int), issi),
            decreases members.len() - i,
        {
            let (member, _) = self.members.entry(i);
            proof {
                assert(members.take(i + 1).drop_last() =~= members.take(i as int));
                assert(members.take(i + 1).last() == members[i as int]);
            }
            if member.issi == issi {
                groups.push(member.gssi);
            }
            i = i + 1;
        }
        assert(members.take(members.len() as int) =~= members);
        groups
    }

    /// A terminal has left the cell.
    fn deregistered(&mut self, port: &mut CcPort, issi: u32)
        ensures
            final(self).run(*final(port)) == old(self).run(*old(port)).deregistered(issi),
    {
        let groups = self.groups_of(issi);
        self.known.remove(issi);
        self.members = without_terminal(&self.members, issi);
        self.drop_unlistened_groups(port, &groups);
        self.class_of_usage = without_terminal(&self.class_of_usage, issi);
        self.scanning.remove(issi);
        self.candidates.remove(issi);
    }

    /// What the mobility management tells of a subscriber.
    pub fn handle_subscriber_update(
        &mut self,
        port: &mut CcPort,
        action: SubscriberAction,
        issi: u32,
        groups: &Vec<u32>,
        classes: &Vec<u8>,
        scanning_enabled: Option<bool>,
    )
        ensures
            final(self).run(*final(port)) == old(self).run(*old(port)).subscriber_update(
                action,
                issi,
                groups@,
                classes@,
                scanning_enabled,
            ),
    {
        proof {
            reveal(CcRun::subscriber_update);
        }
        match action {
            SubscriberAction::Register => {
                if !self.known.contains_key(issi) {
                    self.known.insert(issi, true);
                }
                if !self.scanning.contains_key(issi) {
                    self.scanning.insert(issi, true);
                }
            },
            SubscriberAction::Deregister => self.deregistered(port, issi),
            SubscriberAction::Affiliate => {
                if !self.known.contains_key(issi) {
                    self.known.insert(issi, true);
                }
                let fresh = self.affiliate_each(issi, groups, classes, Ghost(*port));
                self.activate_pending_remote_swmi_calls(port, &fresh);
            },
            SubscriberAction::Deaffiliate => {
                if self.known.contains_key(issi) {
                    let left = self.deaffiliate_each(issi, groups, Ghost(*port));
                    self.drop_unlistened_groups(port, &left);
                } else {
                    self.drop_unlistened_groups(port, groups);
                }
            },
            SubscriberAction::ScanningState => {
                if let Some(enabled) = scanning_enabled {
                    self.scanning.insert(issi, enabled);
                }
            },
        }
    }

    // -----------------------------------------------------------------------
    // Brew
    // -----------------------------------------------------------------------

    /// A speaker of the network takes the floor of a group call in hangtime.
    fn network_speaker(
        &mut self,
        port: &mut CcPort,
        brew_uuid: u128,
        source_issi: u32,
        gssi: u32,
        call_id: u16,
        call: ActiveCall,
    )
        ensures
            final(self).run(*final(port)) == old(self).run(*old(port)).network_speaker(
                brew_uuid,
                source_issi,
                gssi,
                call_id,
                call,
            ),
    {
        let origin = match call.origin {
            CallOrigin::Network { brew_uuid: _ } => CallOrigin::Network { brew_uuid },
            other => other,
        };
        self.active_calls.insert(
            call_id,
            ActiveCall {
                source_issi,
                tx_active: true,
                hangtime_start: None,
                brew_uuid: Some(brew_uuid),
                origin,
                ..call
            },
        );
        self.grant_to_group(port, call_id, source_issi, gssi, call.ts);
        self.grant_to(port, call_id, source_issi, source_issi, call.ts, TransmissionGrant::Granted);
        port.control(
            TetraEntity::Umac,
            CallControl::FloorGranted { call_id, source_issi, dest_gssi: gssi, ts: call.ts },
        );
        port.control(
            TetraEntity::Brew,
            CallControl::NetworkCallReady { brew_uuid, call_id, ts: call.ts, usage: call.usage },
        );
    }

    /// Opens a group call of the network in this cell, if a timeslot is free.
    fn open_network_call(
        &mut self,
        port: &mut CcPort,
        brew_uuid: u128,
        source_issi: u32,
        gssi: u32,
    )
        ensures
            final(self).run(*final(port)) == old(self).run(*old(port)).open_network_call(
                brew_uuid,
                source_issi,
                gssi,
            ),
    {
        let circuit = match self.open_circuit(port, CommunicationType::P2Mp, None, false) {
            Some(circuit) => circuit,
            None => return ,
        };
        let call_id: u16 = circuit.call_id;
        let dest = TetraAddress::gssi(gssi);
        let setup = DSetup {
            call_identifier: call_id,
            call_time_out: CallTimeout::T5m,
            hook_method_selection: false,
            simplex_duplex_selection: false,
            basic_service_information: speech_service(CommunicationType::P2Mp),
            transmission_grant: TransmissionGrant::GrantedToOtherUser,
            transmission_request_permission: false,
            call_priority: 0,
            notification_indicator: Some(NOTIFICATION_LE_BROADCAST),
            calling_party_address_ssi: Some(source_issi),
        };
        self.cached_setups.insert(call_id, CachedSetup { setup, dest, receipt: None });
        let channels = self.pgs_listener_channels_for(gssi);
        self.send_setup(port, setup, dest, circuit.usage, circuit.ts, None);
        self.announce_on(port, setup, dest, circuit.usage, circuit.ts, &channels);
        port.emit(
            unitdata(
                DownlinkPdu::DConnect(
                    DConnect {
                        call_identifier: call_id,
                        call_time_out: CallTimeout::T5m,
                        hook_method_selection: false,
                        simplex_duplex_selection: false,
                        transmission_grant: TransmissionGrant::GrantedToOtherUser,
                        transmission_request_permission: false,
                        call_ownership: false,
                        call_priority: None,
                    },
                ),
                None,
                dest,
                Layer2Service::Unacknowledged,
                None,
                None,
            ),
        );
        self.active_calls.insert(
            call_id,
            ActiveCall {
                origin: CallOrigin::Network { brew_uuid },
                dest_gssi: gssi,
                source_issi,
                ts: circuit.ts,
                usage: circuit.usage,
                priority: 0,
                acknowledged: false,
                tx_active: true,
                hangtime_start: None,
                brew_uuid: Some(brew_uuid),
            },
        );
        self.track_group_call_listeners(call_id, Ghost(*port));
        port.control(
            TetraEntity::Brew,
            CallControl::NetworkCallReady {
                brew_uuid,
                call_id,
                ts: circuit.ts,
                usage: circuit.usage,
            },
        );
    }

    /// A group call of the network starts, or its next speaker does. Brew
    /// announces only calls of groups that it carries.
    pub fn rx_network_call_start(
        &mut self,
        port: &mut CcPort,
        brew_uuid: u128,
        source_issi: u32,
        gssi: u32,
    )
        requires
            crate::cmce::cc_model::brew_carries(old(port).brew@, gssi),
        ensures
            final(self).run(*final(port)) == old(self).run(*old(port)).network_call_start(
                brew_uuid,
                source_issi,
                gssi,
            ),
    {
        proof {
            reveal(CcRun::network_call_start);
        }
        if !self.has_listener(gssi) {
            self.drop_group_calls_if_unlistened(port, gssi);
            port.control(TetraEntity::Brew, CallControl::NetworkCallEnd { brew_uuid });
            return ;
        }
        match self.call_of_group(gssi) {
            Some((call_id, call)) => {
                if call.tx_active {
                    port.control(TetraEntity::Brew, CallControl::NetworkCallEnd { brew_uuid });
                } else {
                    self.network_speaker(port, brew_uuid, source_issi, gssi, call_id, call);
                }
            },
            None => self.open_network_call(port, brew_uuid, source_issi, gssi),
        }
    }

    /// The latest call with a network speaker of this Brew session.
    fn call_of_session(&self, uuid: u128) -> (found: Option<(u16, ActiveCall)>)
        ensures
            found == crate::cmce::cc_events::call_of_session(self@.active_calls, uuid),
    {
        let ghost calls = self@.active_calls;
        let mut n: usize = self.active_calls.len();
        assert(calls.take(n as int) =~= calls);
        while n > 0
            invariant
                n <= calls.len(),
                calls == self@.active_calls,
                crate::cmce::cc_events::call_of_session(calls, uuid)
                    == crate::cmce::cc_events::call_of_session(calls.take(n as int), uuid),
            decreases n,
        {
            let (call_id, call) = self.active_calls.entry(n - 1);
            proof {
                assert(calls.take(n as int).drop_last() =~= calls.take(n - 1));
                assert(calls.take(n as int).last() == calls[n - 1]);
            }
            if let Some(held) = call.brew_uuid {
                if held == uuid {
                    return Some((call_id, call));
                }
            }
            n = n - 1;
        }
        None
    }

    /// The latest call with a speaker on this timeslot.
    fn speaking_on(&self, ts: u8) -> (found: Option<(u16, ActiveCall)>)
        ensures
            found == crate::cmce::cc_events::speaking_on(self@.active_calls, ts),
    {
        let ghost calls = self@.active_calls;
        let mut n: usize = self.active_calls.len();
        assert(calls.take(n as int) =~= calls);
        while n > 0
            invariant
                n <= calls.len(),
                calls == self@.active_calls,
                crate::cmce::cc_events::speaking_on(calls, ts)
                    == crate::cmce::cc_events::speaking_on(calls.take(n as int), ts),
            decreases n,
        {
            let (call_id, call) = self.active_calls.entry(n - 1);
            proof {
                assert(calls.take(n as int).drop_last() =~= calls.take(n - 1));
                assert(calls.take(n as int).last() == calls[n - 1]);
            }
            if call.ts == ts && call.tx_active {
                return Some((call_id, call));
            }
            n = n - 1;
        }
        None
    }

    /// A speaker of the network stops; a call without one ends.
    pub fn rx_network_call_end(&mut self, port: &mut CcPort, brew_uuid: u128)
        ensures
            final(self).run(*final(port)) == old(self).run(*old(port)).network_call_end(brew_uuid),
    {
        proof {
            reveal(CcRun::network_call_end);
        }
        let (call_id, call) = match self.call_of_session(brew_uuid) {
            Some(found) => found,
            None => return ,
        };
        if call.tx_active {
            self.active_calls.insert(
                call_id,
                ActiveCall {
                    tx_active: false,
                    hangtime_start: Some(self.dltime),
                    brew_uuid: None,
                    ..call
                },
            );
            self.ceased(port, call_id, TetraAddress::gssi(call.dest_gssi), call.ts);
            port.control(TetraEntity::Umac, CallControl::FloorReleased { call_id, ts: call.ts });
        } else {
            self.release_call(port, call_id, DisconnectCause::SwmiRequestedDisconnection);
        }
    }

    /// The speaker on a timeslot has disappeared.
    pub fn handle_ul_inactivity_timeout(&mut self, port: &mut CcPort, ts: u8)
        ensures
            final(self).run(*final(port)) == old(self).run(*old(port)).ul_inactivity(ts),
    {
        proof {
            reveal(CcRun::ul_inactivity);
        }
        let (call_id, call) = match self.speaking_on(ts) {
            Some(found) => found,
            None => return ,
        };
        self.active_calls.insert(
            call_id,
            ActiveCall { tx_active: false, hangtime_start: Some(self.dltime), ..call },
        );
        self.ceased(port, call_id, TetraAddress::gssi(call.dest_gssi), ts);
        let released = CallControl::FloorReleased { call_id, ts };
        port.control(TetraEntity::Umac, released);
        if port.brew_carries(call.dest_gssi) {
            port.control(TetraEntity::Brew, released);
        }
    }

    /// A control message of Brew or the MAC. Brew announces only calls of
    /// groups that it carries.
    pub fn rx_call_control(&mut self, port: &mut CcPort, message: CallControl)
        requires
            message matches CallControl::NetworkCallStart { dest_gssi, .. }
                ==> crate::cmce::cc_model::brew_carries(old(port).brew@, dest_gssi),
        ensures
            final(self).run(*final(port)) == old(self).run(*old(port)).call_control(message),
    {
        proof {
            reveal(CcRun::call_control);
        }
        match message {
            CallControl::NetworkCallStart { brew_uuid, source_issi, dest_gssi, priority: _ } =>
                self.rx_network_call_start(port, brew_uuid, source_issi, dest_gssi),
            CallControl::NetworkCallEnd { brew_uuid } => self.rx_network_call_end(port, brew_uuid),
            CallControl::UlInactivityTimeout { ts } => self.handle_ul_inactivity_timeout(port, ts),
            _ => {},
        }
    }
}

impl HandoverChannelAllocation {
    /// Whether every field fits its element on the air and a timeslot is named.
    pub fn validate(&self) -> (r: bool)
        ensures
            r == self.representable(),
    {
        self.carrier <= 0x0fff && 1 <= self.timeslot_bitmap && self.timeslot_bitmap <= 0x0f
            && self.usage <= 63
    }
}

impl CcRun {
    proof fn lemma_track_each_keeps_surroundings(
        self,
        terminals: Seq<(u32, bool)>,
        call_id: u16,
        call: ActiveCall,
    )
        ensures
            self.same_surroundings(self.track_each(terminals, call_id, call)),
        decreases terminals.len(),
    {
        if terminals.len() > 0 {
            self.lemma_track_each_keeps_surroundings(terminals.drop_last(), call_id, call);
        }
    }

    proof fn lemma_start_remote_keeps_surroundings(
        self,
        call_id: u16,
        remote: RemoteCall,
        announce: bool,
    )
        requires
            !announce,
        ensures
            self.same_surroundings(self.start_remote(call_id, remote, announce)),
    {
        reveal(CcRun::start_remote);
        reveal(CcRun::track_listeners);
        assert forall|r: CcRun, terminals: Seq<(u32, bool)>, id: u16, call: ActiveCall|
            r.same_surroundings(#[trigger] r.track_each(terminals, id, call)) by {
            r.lemma_track_each_keeps_surroundings(terminals, id, call);
        }
    }
}

/// The bit of a timeslot in a bitmap of the four timeslots.
fn slot_bit(ts: u8) -> (bit: u8)
    ensures
        bit == crate::cmce::cc_procedures::slot_bit(ts),
{
    match ts {
        1 => 1,
        2 => 2,
        3 => 4,
        4 => 8,
        _ => 0,
    }
}

/// The entries of other terminals.
fn without_terminal<V: Copy>(entries: &Table<Membership, V>, issi: u32) -> (kept: Table<
    Membership,
    V,
>)
    ensures
        kept@ == crate::cmce::cc_events::without_terminal(entries@, issi),
{
    let ghost keep = |entry: (Membership, V)| entry.0.issi != issi;
    let mut kept: Vec<(Membership, V)> = Vec::new();
    let mut i: usize = 0;
    proof {
        reveal(Seq::filter);
        assert(entries@.take(0) =~= Seq::empty());
    }
    while i < entries.len()
        invariant
            i <= entries@.len(),
            keep == (|entry: (Membership, V)| entry.0.issi != issi),
            kept@ == entries@.take(i as int).filter(keep),
        decreases entries@.len() - i,
    {
        let (member, value) = entries.entry(i);
        proof {
            reveal(Seq::filter);
            assert(entries@.take(i + 1).drop_last() =~= entries@.take(i as int));
            assert(entries@.take(i + 1).last() == entries@[i as int]);
        }
        if member.issi != issi {
            kept.push((member, value));
        }
        i = i + 1;
    }
    assert(entries@.take(entries@.len() as int) =~= entries@);
    Table::from_entries(kept)
}

impl CcBsSubentity {
    // -----------------------------------------------------------------------
    // Time
    // -----------------------------------------------------------------------

    /// Grants the floors that waited for an interruption and are due.
    fn process_pending_preemptive_floor_grants(&mut self, port: &mut CcPort)
        ensures
            final(self).run(*final(port)) == old(self).run(*old(port)).due_grants(
                old(self)@.pending_grants,
            ),
    {
        let ghost before = self.run(*port);
        let now = self.dltime;
        let timers = entries_of(&self.pending_grants);
        let mut i: usize = 0;
        assert(timers@.take(0) =~= Seq::empty());
        while i < timers.len()
            invariant
                i <= timers@.len(),
                now == before.st.dltime,
                self.run(*port) == before.due_grants(timers@.take(i as int)),
            decreases timers@.len() - i,
        {
            proof {
                assert(timers@.take(i + 1).drop_last() =~= timers@.take(i as int));
                assert(timers@.take(i + 1).last() == timers@[i as int]);
            }
            let (call_id, timer) = timers[i];
            if now.age(timer.due) >= 0 {
                self.pending_grants.remove(call_id);
                self.apply_central_floor_grant(port, call_id, timer.itsi);
            }
            i = i + 1;
        }
        assert(timers@.take(timers@.len() as int) =~= timers@);
    }

    /// Answers the floor requests in private calls that the central SwMI has
    /// not decided on in time.
    fn process_pending_private_floor_requests(&mut self, port: &mut CcPort)
        ensures
            final(self).run(*final(port)) == old(self).run(*old(port)).due_private_floors(
                old(self)@.pending_private_floors,
            ),
    {
        let ghost before = self.run(*port);
        let now = self.dltime;
        let timers = entries_of(&self.pending_private_floors);
        let mut i: usize = 0;
        assert(timers@.take(0) =~= Seq::empty());
        while i < timers.len()
            invariant
                i <= timers@.len(),
                now == before.st.dltime,
                self.run(*port) == before.due_private_floors(timers@.take(i as int)),
            decreases timers@.len() - i,
        {
            proof {
                assert(timers@.take(i + 1).drop_last() =~= timers@.take(i as int));
                assert(timers@.take(i + 1).last() == timers@[i as int]);
            }
            let (party, due) = timers[i];
            if now.age(due) >= 0 {
                self.pending_private_floors.remove(party);
                if let Some(call) = self.private_calls.get(party.call_id) {
                    if call.connected && !call.duplex {
                        if let Some(circuit) = self.private_circuits.get(party) {
                            self.grant_to(
                                port,
                                party.call_id,
                                party.issi,
                                party.issi,
                                circuit.ts,
                                TransmissionGrant::RequestQueued,
                            );
                        }
                    }
                }
            }
            i = i + 1;
        }
        assert(timers@.take(timers@.len() as int) =~= timers@);
    }

    /// Names the speakers after a restoration. The restored speaker is told on
    /// its own, because the indication to the group would revoke its floor.
    fn process_pending_restore_floor_indications(&mut self, port: &mut CcPort)
        ensures
            final(self).run(*final(port)) == old(self).run(*old(port)).due_restore_floors(
                old(self)@.pending_restore_floors,
            ),
    {
        let ghost before = self.run(*port);
        let now = self.dltime;
        let timers = entries_of(&self.pending_restore_floors);
        let mut i: usize = 0;
        assert(timers@.take(0) =~= Seq::empty());
        while i < timers.len()
            invariant
                i <= timers@.len(),
                now == before.st.dltime,
                self.run(*port) == before.due_restore_floors(timers@.take(i as int)),
            decreases timers@.len() - i,
        {
            proof {
                assert(timers@.take(i + 1).drop_last() =~= timers@.take(i as int));
                assert(timers@.take(i + 1).last() == timers@[i as int]);
            }
            let (party, timer) = timers[i];
            if now.age(timer.due) >= 0 {
                self.pending_restore_floors.remove(party);
                if let Some(call) = self.active_calls.get(party.call_id) {
                    if call.tx_active && call.source_issi == timer.itsi {
                        if call.source_issi == party.issi {
                            self.grant_to(
                                port,
                                party.call_id,
                                party.issi,
                                call.source_issi,
                                call.ts,
                                TransmissionGrant::Granted,
                            );
                        } else {
                            port.emit(
                                unitdata(
                                    DownlinkPdu::DTxGranted {
                                        call_identifier: party.call_id,
                                        transmission_grant: TransmissionGrant::GrantedToOtherUser,
                                        transmission_request_permission: false,
                                        transmitting_party_ssi: call.source_issi,
                                    },
                                    None,
                                    TetraAddress::gssi(call.dest_gssi),
                                    Layer2Service::Unacknowledged,
                                    None,
                                    Some(
                                        AssociatedChannel {
                                            call_id: party.call_id,
                                            timeslot: call.ts,
                                            usage: call.usage,
                                        },
                                    ),
                                ),
                            );
                        }
                    }
                }
            }
            i = i + 1;
        }
        assert(timers@.take(timers@.len() as int) =~= timers@);
    }

    /// Ends the calls that have been without a speaker for too long.
    fn check_hangtime_expiry(&mut self, port: &mut CcPort)
        ensures
            final(self).run(*final(port)) == old(self).run(*old(port)).expire_each(
                old(self)@.active_calls,
            ),
    {
        let ghost before = self.run(*port);
        let now = self.dltime;
        let online: bool = port.swmi.is_online();
        let calls = entries_of(&self.active_calls);
        let mut i: usize = 0;
        assert(calls@.take(0) =~= Seq::empty());
        while i < calls.len()
            invariant
                i <= calls@.len(),
                now == before.st.dltime,
                online == before.swmi.is_online(),
                self.run(*port) == before.expire_each(calls@.take(i as int)),
            decreases calls@.len() - i,
        {
            proof {
                assert(calls@.take(i + 1).drop_last() =~= calls@.take(i as int));
                assert(calls@.take(i + 1).last() == calls@[i as int]);
            }
            let (call_id, call) = calls[i];
            let central: bool = match call.origin {
                CallOrigin::Swmi => true,
                _ => false,
            };
            if let Some(start) = call.hangtime_start {
                if !(online && central) && now.age(start) > HANGTIME_TIMESLOTS {
                    self.release_call(port, call_id, DisconnectCause::ExpiryOfTimer);
                }
            }
            i = i + 1;
        }
        assert(calls@.take(calls@.len() as int) =~= calls@);
    }

    /// Brings the released calls to their end whose release has been
    /// transmitted.
    fn process_releasing_calls(&mut self, port: &mut CcPort)
        ensures
            final(self).run(*final(port)) == old(self).run(*old(port)).process_releasing(),
    {
        proof {
            reveal(CcRun::process_releasing);
        }
        let ghost before = self.run(*port);
        let now = self.dltime;
        let calls = copied(&self.releasing_calls);
        let circuits = copied(&self.releasing_private);
        let mut kept: Vec<ReleasingCall> = Vec::new();
        let ghost keep = |call: ReleasingCall| !before.transmitted(call.sent_at);
        let mut i: usize = 0;
        proof {
            reveal(Seq::filter);
            assert(calls@.take(0) =~= Seq::empty());
        }
        while i < calls.len()
            invariant
                i <= calls@.len(),
                now == before.st.dltime,
                keep == (|call: ReleasingCall| !before.transmitted(call.sent_at)),
                kept@ == calls@.take(i as int).filter(keep),
                self.run(*port) == before.finalize_each(calls@.take(i as int)),
            decreases calls@.len() - i,
        {
            proof {
                reveal(Seq::filter);
                assert(calls@.take(i + 1).drop_last() =~= calls@.take(i as int));
                assert(calls@.take(i + 1).last() == calls@[i as int]);
            }
            let call = calls[i];
            if now.age(call.sent_at) >= CLOSE_AFTER_SEND_TIMESLOTS {
                self.finalize_release(
                    port,
                    call.call_id,
                    call.ts,
                    call.dest_gssi,
                    call.is_local,
                    call.brew_uuid,
                );
            } else {
                kept.push(call);
            }
            i = i + 1;
        }
        assert(calls@.take(calls@.len() as int) =~= calls@);
        proof {
            before.lemma_finalize_each_keeps_time(calls@);
        }
        self.releasing_calls = kept;
        let ghost groups = self.run(*port);
        let mut kept: Vec<ReleasingPrivateCircuit> = Vec::new();
        let ghost keep = |circuit: ReleasingPrivateCircuit| !before.transmitted(circuit.sent_at);
        let mut i: usize = 0;
        assert(circuits@.take(0) =~= Seq::empty());
        while i < circuits.len()
            invariant
                i <= circuits@.len(),
                now == before.st.dltime,
                now == groups.st.dltime,
                keep == (|circuit: ReleasingPrivateCircuit| !before.transmitted(circuit.sent_at)),
                kept@ == circuits@.take(i as int).filter(keep),
                self.run(*port) == groups.close_each(circuits@.take(i as int)),
            decreases circuits@.len() - i,
        {
            proof {
                reveal(Seq::filter);
                assert(circuits@.take(i + 1).drop_last() =~= circuits@.take(i as int));
                assert(circuits@.take(i + 1).last() == circuits@[i as int]);
            }
            let released = circuits[i];
            if now.age(released.sent_at) >= CLOSE_AFTER_SEND_TIMESLOTS {
                let circuit = released.circuit;
                self.circuits.close_circuit(circuit.ts);
                port.control(TetraEntity::Umac, CallControl::Close(circuit.direction, circuit.ts));
                port.free_slot(circuit.ts);
                self.stop_private_media(port, released.call_id, circuit.ts);
            } else {
                kept.push(released);
            }
            i = i + 1;
        }
        assert(circuits@.take(circuits@.len() as int) =~= circuits@);
        self.releasing_private = kept;
    }

    /// Whether `ts` carries a private call, or did until a moment ago.
    fn is_private_circuit(&self, call_id: u16, ts: u8, Ghost(port): Ghost<CcPort>) -> (r: bool)
        ensures
            r == self.run(port).is_private_circuit(call_id, ts),
    {
        if self.private_calls.contains_key(call_id) {
            return true;
        }
        let mut i: usize = 0;
        while i < self.private_circuits.len()
            invariant
                i <= self.private_circuits@.len(),
                forall|j: int|
                    0 <= j < i ==> !((#[trigger] self.private_circuits@[j]).0.call_id == call_id
                        && self.private_circuits@[j].1.ts == ts),
            decreases self.private_circuits@.len() - i,
        {
            let (party, circuit) = self.private_circuits.entry(i);
            if party.call_id == call_id && circuit.ts == ts {
                assert(self.run(port).st.private_circuits[i as int].0.call_id == call_id);
                return true;
            }
            i = i + 1;
        }
        let mut i: usize = 0;
        while i < self.releasing_private.len()
            invariant
                i <= self.releasing_private@.len(),
                forall|j: int|
                    0 <= j < i ==> !((#[trigger] self.releasing_private@[j]).call_id == call_id
                        && self.releasing_private@[j].circuit.ts == ts),
            decreases self.releasing_private@.len() - i,
        {
            let released = self.releasing_private[i];
            if released.call_id == call_id && released.circuit.ts == ts {
                assert(self.run(port).st.releasing_private[i as int].call_id == call_id);
                return true;
            }
            i = i + 1;
        }
        false
    }

    /// Repeats the D-SETUP of a group call for late entry.
    fn repeat_setup(
        &mut self,
        port: &mut CcPort,
        call_id: u16,
        usage: u8,
        ts: u8,
        unsent: &Vec<u64>,
    )
        ensures
            final(self).run(*final(port)) == old(self).run(*old(port)).repeat_setup(
                call_id,
                usage,
                ts,
                unsent@,
            ),
    {
        proof {
            reveal(CcRun::repeat_setup);
        }
        if self.restore_prepared.contains_key(call_id) {
            // It would overwrite the floor of a restored speaker.
            return ;
        }
        if self.is_private_circuit(call_id, ts, Ghost(*port)) {
            return ;
        }
        let call = self.active_calls.get(call_id);
        if let Some(active) = call {
            if active.hangtime_start.is_some() {
                return ;
            }
        }
        let cached = match self.cached_setups.get(call_id) {
            Some(cached) => cached,
            None => return ,
        };
        if let Some(receipt) = cached.receipt {
            if contains_receipt(unsent, receipt) {
                return ;
            }
        }
        let transmission_grant = match call {
            Some(active) => if active.tx_active {
                TransmissionGrant::GrantedToOtherUser
            } else {
                TransmissionGrant::NotGranted
            },
            None => cached.setup.transmission_grant,
        };
        let setup = DSetup { transmission_grant, ..cached.setup };
        let receipt: u64 = self.next_receipt;
        self.next_receipt = command_after(receipt);
        self.cached_setups.insert(call_id, CachedSetup { setup, receipt: Some(receipt), ..cached });
        self.send_setup(port, setup, cached.dest, usage, ts, Some(receipt));
    }

    /// Closes a circuit that has timed out.
    fn close_timed_out(&mut self, port: &mut CcPort, call_id: u16, circuit: CmceCircuit)
        ensures
            final(self).run(*final(port)) == old(self).run(*old(port)).close_timed_out(
                call_id,
                circuit,
            ),
    {
        proof {
            reveal(CcRun::close_timed_out);
        }
        if self.is_private_circuit(call_id, circuit.ts, Ghost(*port)) {
            return ;
        }
        if let Some(cached) = self.cached_setups.get(call_id) {
            port.emit(
                unitdata(
                    DownlinkPdu::DRelease {
                        call_identifier: cached.setup.call_identifier,
                        disconnect_cause: DisconnectCause::ExpiryOfTimer,
                    },
                    None,
                    cached.dest,
                    Layer2Service::Unacknowledged,
                    None,
                    None,
                ),
            );
        }
        self.cached_setups.remove(call_id);
        self.restore_prepared.remove(call_id);
        self.forget_restore_floors(call_id);
        self.active_calls.remove(call_id);
        self.circuits.close_circuit(circuit.ts);
        port.control(TetraEntity::Umac, CallControl::Close(circuit.direction, circuit.ts));
        port.free_slot(circuit.ts);
    }

    /// The time of the slot that starts.
    pub(crate) fn start_slot(&mut self, now: TdmaTime)
        ensures
            forall|port: CcPort| #[trigger]
                final(self).run(port) == old(self).run(port).at(now),
    {
        self.dltime = now;
    }

    /// What is due at the current slot.
    pub(crate) fn run_timers(&mut self, port: &mut CcPort)
        ensures
            final(self).run(*final(port)) == old(self).run(*old(port)).timers(),
    {
        self.process_pending_preemptive_floor_grants(port);
        self.process_pending_private_floor_requests(port);
        self.process_pending_restore_floor_indications(port);
        self.check_hangtime_expiry(port);
        self.process_releasing_calls(port);
    }

    /// A timeslot starts: first the decisions of the central SwMI, then what is
    /// due. The tasks of the circuit manager follow, in `run_tasks`.
    pub fn tick_start(&mut self, port: &mut CcPort, now: TdmaTime, actions: &Vec<CallMessage>)
        ensures
            final(self).run(*final(port)) == old(self).run(*old(port)).tick(now, actions@),
    {
        proof {
            reveal(CcRun::tick);
        }
        self.start_slot(now);
        let ghost start = self.run(*port);
        let mut i: usize = 0;
        assert(actions@.take(0) =~= Seq::empty());
        while i < actions.len()
            invariant
                i <= actions@.len(),
                self.run(*port) == start.swmi_actions(actions@.take(i as int)),
            decreases actions@.len() - i,
        {
            proof {
                assert(actions@.take(i + 1).drop_last() =~= actions@.take(i as int));
                assert(actions@.take(i + 1).last() == actions@[i as int]);
            }
            self.handle_swmi_action(port, actions[i]);
            i = i + 1;
        }
        assert(actions@.take(actions@.len() as int) =~= actions@);
        self.run_timers(port);
    }

    /// The tasks that the circuit manager has for the slot, once it has started.
    /// `unsent` are the receipts of the messages that have not been sent yet.
    pub fn run_tasks(
        &mut self,
        port: &mut CcPort,
        tasks: &Vec<CircuitMgrCmd>,
        unsent: &Vec<u64>,
    )
        ensures
            final(self).run(*final(port)) == old(self).run(*old(port)).tasks(tasks@, unsent@),
    {
        let ghost due = self.run(*port);
        let mut i: usize = 0;
        assert(tasks@.take(0) =~= Seq::empty());
        while i < tasks.len()
            invariant
                i <= tasks@.len(),
                self.run(*port) == due.tasks(tasks@.take(i as int), unsent@),
            decreases tasks@.len() - i,
        {
            proof {
                assert(tasks@.take(i + 1).drop_last() =~= tasks@.take(i as int));
                assert(tasks@.take(i + 1).last() == tasks@[i as int]);
            }
            match tasks[i] {
                CircuitMgrCmd::SendDSetup { call_id, usage, ts } => self.repeat_setup(
                    port,
                    call_id,
                    usage,
                    ts,
                    unsent,
                ),
                CircuitMgrCmd::SendClose { call_id, circuit } => self.close_timed_out(
                    port,
                    call_id,
                    circuit,
                ),
            }
            i = i + 1;
        }
        assert(tasks@.take(tasks@.len() as int) =~= tasks@);
    }

    /// The traffic channel on which a downlink PDU is sent.
    fn channel_for(&self, request: &UnitdataReq) -> (channel: Option<AssociatedChannel>)
        ensures
            channel == self@.channel_for(*request),
    {
        if request.associated_channel.is_some() || request.stealing_permission
            || request.chan_alloc.is_some() {
            return request.associated_channel;
        }
        let address = request.main_address;
        match address.ssi_type {
            SsiType::Issi => match request.pdu {
                DownlinkPdu::DCallProceeding { .. } => None,
                _ => self.preferred_listener_channel(address.ssi),
            },
            SsiType::Gssi => match request.pdu {
                DownlinkPdu::DSdsData { content: _ } => match self.call_of_group(address.ssi) {
                    Some((call_id, call)) => Some(
                        AssociatedChannel { call_id, timeslot: call.ts, usage: call.usage },
                    ),
                    None => None,
                },
                _ => None,
            },
            _ => None,
        }
    }

    /// Adds to each downlink PDU in `queue` the traffic channel on which it is
    /// sent.
    pub fn decorate_pending_downlinks(&self, queue: &mut Vec<CcMessage>)
        ensures
            final(queue)@ == old(queue)@.map_values(|message: CcMessage| self@.decorated(message)),
    {
        let ghost before = queue@;
        let mut i: usize = 0;
        while i < queue.len()
            invariant
                i <= queue@.len(),
                queue@.len() == before.len(),
                forall|j: int| 0 <= j < i ==> queue@[j] == self@.decorated(before[j]),
                forall|j: int| i <= j < before.len() ==> queue@[j] == before[j],
            decreases queue@.len() - i,
        {
            if let CcMessage::Downlink(request) = queue[i] {
                let channel = self.channel_for(&request);
                queue.set(
                    i,
                    CcMessage::Downlink(UnitdataReq { associated_channel: channel, ..request }),
                );
            }
            i = i + 1;
        }
        assert(queue@ =~= before.map_values(|message: CcMessage| self@.decorated(message)));
    }
}

impl CcRun {
    proof fn lemma_finalize_each_keeps_time(self, calls: Seq<ReleasingCall>)
        ensures
            self.finalize_each(calls).st.dltime == self.st.dltime,
            self.finalize_each(calls).st.releasing_private == self.st.releasing_private,
        decreases calls.len(),
    {
        if calls.len() > 0 {
            reveal(CcRun::finalize_release);
            self.lemma_finalize_each_keeps_time(calls.drop_last());
        }
    }
}

/// The same elements.
fn copied<T: Copy>(list: &Vec<T>) -> (copy: Vec<T>)
    ensures
        copy@ == list@,
{
    let mut copy: Vec<T> = Vec::new();
    let mut i: usize = 0;
    while i < list.len()
        invariant
            i <= list@.len(),
            copy@ == list@.take(i as int),
        decreases list@.len() - i,
    {
        proof {
            assert(list@.take(i + 1) =~= list@.take(i as int).push(list@[i as int]));
        }
        copy.push(list[i]);
        i = i + 1;
    }
    assert(list@.take(list@.len() as int) =~= list@);
    copy
}

/// Whether the receipt is among `receipts`.
fn contains_receipt(receipts: &Vec<u64>, receipt: u64) -> (r: bool)
    ensures
        r == receipts@.contains(receipt),
{
    let mut i: usize = 0;
    while i < receipts.len()
        invariant
            i <= receipts@.len(),
            forall|j: int| 0 <= j < i ==> receipts@[j] != receipt,
        decreases receipts@.len() - i,
    {
        if receipts[i] == receipt {
            return true;
        }
        i = i + 1;
    }
    false
}

} // verus!
