//! The subscribers of the cell and the groups they are attached to.
use crate::cmce::pdu::Membership;
use crate::table::Table;
use crate::tdma::TdmaTime;
use vstd::prelude::*;

verus! {

/// Two multiframes: they cover the immediate response to a received MAC-ACCESS
/// and remain much shorter than an energy economy monitoring interval.
pub const DIRECT_RESPONSE_WINDOW_TIMESLOTS: i32 = 144;

/// What the station knows of a registered terminal, besides its groups.
#[derive(Debug, Clone, Copy, PartialEq, Eq, Structural)]
pub struct Subscriber {
    pub issi: u32,
    /// Energy economy assignment last accepted by the SwMI.
    pub energy_economy_mode: u8,
    pub energy_economy_frame_number: Option<u8>,
    pub energy_economy_multiframe_number: Option<u8>,
    /// One control response establishes a new energy economy phase before
    /// ordinary traffic is gated.
    pub energy_economy_activation_pending: bool,
    /// Group replay is relevant only while the terminal scans groups.
    pub scanning_enabled: bool,
    /// Last assignment state observed on the air, if there was any.
    pub rua_assigned: Option<bool>,
}

impl Subscriber {
    /// A terminal of which nothing but the identity is known.
    pub open spec fn fresh(issi: u32) -> Subscriber {
        Subscriber {
            issi,
            energy_economy_mode: 0,
            energy_economy_frame_number: None,
            energy_economy_multiframe_number: None,
            energy_economy_activation_pending: false,
            scanning_enabled: true,
            rua_assigned: None,
        }
    }

    /// A terminal of which nothing but the identity is known.
    pub fn new(issi: u32) -> (subscriber: Self)
        ensures
            subscriber == Subscriber::fresh(issi),
    {
        Subscriber {
            issi,
            energy_economy_mode: 0,
            energy_economy_frame_number: None,
            energy_economy_multiframe_number: None,
            energy_economy_activation_pending: false,
            scanning_enabled: true,
            rua_assigned: None,
        }
    }
}

/// The energy economy of a terminal: its identity, mode, frame and multiframe.
#[derive(Debug, Clone, Copy, PartialEq, Eq, Structural)]
pub struct EnergyEconomy {
    pub issi: u32,
    pub mode: u8,
    pub frame_number: Option<u8>,
    pub multiframe_number: Option<u8>,
}

/// The model of the registry.
#[verifier::ext_equal]
pub ghost struct RegistryView {
    pub subscribers: Seq<(u32, Subscriber)>,
    pub affiliations: Seq<(Membership, bool)>,
    pub active: Seq<(u32, bool)>,
    pub pending: Seq<(u32, bool)>,
    pub deadlines: Seq<(u32, TdmaTime)>,
    pub failures: u16,
}

/// Whether an affiliation is not one of the terminal.
pub open spec fn of_another(issi: u32) -> spec_fn((Membership, bool)) -> bool {
    |entry: (Membership, bool)| entry.0.issi != issi
}

/// Whether a deadline has not passed.
pub open spec fn still_open(now: TdmaTime) -> spec_fn((u32, TdmaTime)) -> bool {
    |entry: (u32, TdmaTime)| now.since(entry.1) <= 0
}

/// The energy economy of an entry.
pub open spec fn economy_of(subscriber: Subscriber) -> EnergyEconomy {
    EnergyEconomy {
        issi: subscriber.issi,
        mode: subscriber.energy_economy_mode,
        frame_number: subscriber.energy_economy_frame_number,
        multiframe_number: subscriber.energy_economy_multiframe_number,
    }
}

/// Whether each terminal stands under its own identity.
pub open spec fn under_their_own_identity(subscribers: Seq<(u32, Subscriber)>) -> bool {
    forall|i: int|
        0 <= i < subscribers.len() ==> (#[trigger] subscribers[i]).0 == subscribers[i].1.issi
}

impl RegistryView {
    /// Every terminal that is attached to a group is registered.
    pub open spec fn attached_are_registered(self) -> bool {
        forall|issi: u32, gssi: u32| #[trigger]
            self.affiliated(issi, gssi) ==> self.registered(issi)
    }

    /// No registration is both delivered and on its way.
    pub open spec fn delivered_or_awaited(self) -> bool {
        forall|issi: u32| #[trigger] self.is_active(issi) ==> !self.is_pending(issi)
    }

    /// No terminal stands twice and each stands under its own identity, every
    /// attached terminal is registered, and no registration is both delivered and
    /// on its way.
    pub open spec fn wf(self) -> bool {
        &&& under_their_own_identity(self.subscribers)
        &&& self.attached_are_registered()
        &&& self.delivered_or_awaited()
        &&& crate::table::distinct(self.subscribers)
        &&& crate::table::distinct(self.affiliations)
        &&& crate::table::distinct(self.active)
        &&& crate::table::distinct(self.pending)
        &&& crate::table::distinct(self.deadlines)
    }

    /// No terminal is known.
    pub open spec fn empty() -> RegistryView {
        RegistryView {
            subscribers: Seq::empty(),
            affiliations: Seq::empty(),
            active: Seq::empty(),
            pending: Seq::empty(),
            deadlines: Seq::empty(),
            failures: 0,
        }
    }

    /// Whether the terminal is registered.
    pub open spec fn registered(self, issi: u32) -> bool {
        crate::table::contains(self.subscribers, issi)
    }

    /// Whether the registration has been delivered.
    pub open spec fn is_active(self, issi: u32) -> bool {
        crate::table::contains(self.active, issi)
    }

    /// Whether the delivery of the registration is awaited.
    pub open spec fn is_pending(self, issi: u32) -> bool {
        crate::table::contains(self.pending, issi)
    }

    /// Whether the terminal is attached to the group.
    pub open spec fn affiliated(self, issi: u32, gssi: u32) -> bool {
        crate::table::contains(self.affiliations, Membership { issi, gssi })
    }

    /// Whether any terminal is attached to the group.
    pub open spec fn has_members(self, gssi: u32) -> bool {
        exists|i: int|
            0 <= i < self.affiliations.len() && (#[trigger] self.affiliations[i]).0.gssi == gssi
    }

    /// What is known of the terminal, as far as anything is.
    pub open spec fn known(self, issi: u32) -> Subscriber {
        match crate::table::lookup(self.subscribers, issi) {
            Some(subscriber) => subscriber,
            None => Subscriber::fresh(issi),
        }
    }

    /// With what is known of the terminal replaced.
    pub open spec fn with(self, issi: u32, subscriber: Subscriber) -> RegistryView {
        RegistryView {
            subscribers: crate::table::put(self.subscribers, issi, subscriber),
            ..self
        }
    }

    /// With the terminal known.
    pub open spec fn introduced(self, issi: u32) -> RegistryView {
        if self.registered(issi) {
            self
        } else {
            self.with(issi, Subscriber::fresh(issi))
        }
    }

    /// With the registration delivered.
    pub open spec fn activated(self, issi: u32) -> RegistryView {
        RegistryView {
            active: crate::table::put(self.active, issi, true),
            pending: crate::table::del(self.pending, issi),
            ..self
        }
    }

    /// With the registration neither delivered nor awaiting it.
    pub open spec fn deactivated(self, issi: u32) -> RegistryView {
        RegistryView {
            active: crate::table::del(self.active, issi),
            pending: crate::table::del(self.pending, issi),
            ..self
        }
    }

    /// With the delivery of the registration awaited, or not.
    pub open spec fn awaiting(self, issi: u32, pending: bool) -> RegistryView {
        if pending {
            RegistryView {
                pending: crate::table::put(self.pending, issi, true),
                active: crate::table::del(self.active, issi),
                ..self
            }
        } else {
            RegistryView { pending: crate::table::del(self.pending, issi), ..self }
        }
    }

    /// Without the terminal and its attachments.
    pub open spec fn deregistered(self, issi: u32) -> RegistryView {
        RegistryView {
            deadlines: crate::table::del(self.deadlines, issi),
            subscribers: crate::table::del(self.subscribers, issi),
            affiliations: self.affiliations.filter(of_another(issi)),
            ..self.deactivated(issi)
        }
    }

    /// With the terminal registered anew.
    pub open spec fn registering(self, issi: u32) -> RegistryView {
        self.deregistered(issi).with(issi, Subscriber::fresh(issi))
    }

    /// With the terminal attached to the group.
    pub open spec fn attached(self, issi: u32, gssi: u32) -> RegistryView {
        RegistryView {
            affiliations: crate::table::put(self.affiliations, Membership { issi, gssi }, true),
            ..self.introduced(issi)
        }
    }

    /// With the terminal detached from the group.
    pub open spec fn detached(self, issi: u32, gssi: u32) -> RegistryView {
        RegistryView {
            affiliations: crate::table::del(self.affiliations, Membership { issi, gssi }),
            ..self.introduced(issi)
        }
    }

    /// With a window for a direct response opened.
    pub open spec fn with_window(self, issi: u32, now: TdmaTime) -> RegistryView {
        RegistryView {
            deadlines: crate::table::put(
                self.deadlines,
                issi,
                now.plus(DIRECT_RESPONSE_WINDOW_TIMESLOTS as int),
            ),
            ..self
        }
    }

    /// With the windows dropped that have passed.
    pub open spec fn expired(self, now: TdmaTime) -> RegistryView {
        RegistryView { deadlines: self.deadlines.filter(still_open(now)), ..self }
    }

    /// Whether the terminal listens for group traffic.
    pub open spec fn listens(self, subscriber: Subscriber, issi: u32, gssi: u32) -> bool {
        self.affiliated(issi, gssi) && subscriber.scanning_enabled && self.is_active(
            subscriber.issi,
        )
    }

    /// The energy economies of those who listen for the group.
    pub open spec fn group_economies(self, subscribers: Seq<(u32, Subscriber)>, gssi: u32) -> Seq<
        EnergyEconomy,
    >
        decreases subscribers.len(),
    {
        if subscribers.len() == 0 {
            Seq::empty()
        } else {
            let before = self.group_economies(subscribers.drop_last(), gssi);
            let (issi, subscriber) = subscribers.last();
            if self.listens(subscriber, issi, gssi) {
                before.push(economy_of(subscriber))
            } else {
                before
            }
        }
    }
}

/// The locally registered terminals and their group affiliations.
#[derive(Debug)]
pub struct SubscriberRegistry {
    subscribers: Table<u32, Subscriber>,
    affiliations: Table<Membership, bool>,
    /// Terminals whose registration has been delivered.
    active: Table<u32, bool>,
    /// Terminals whose registration is on its way.
    pending: Table<u32, bool>,
    /// Short-lived MAC-ACCESS contexts. They do not depend on registration, so
    /// that the first response is immediate too.
    deadlines: Table<u32, TdmaTime>,
    /// Failed deliveries since they were last taken.
    failures: u16,
}

impl View for SubscriberRegistry {
    type V = RegistryView;

    closed spec fn view(&self) -> RegistryView {
        RegistryView {
            subscribers: self.subscribers@,
            affiliations: self.affiliations@,
            active: self.active@,
            pending: self.pending@,
            deadlines: self.deadlines@,
            failures: self.failures,
        }
    }
}

impl SubscriberRegistry {
    /// The registry without terminals.
    pub fn new() -> (registry: Self)
        ensures
            registry@ == RegistryView::empty(),
            registry@.wf(),
    {
        SubscriberRegistry {
            subscribers: Table::new(),
            affiliations: Table::new(),
            active: Table::new(),
            pending: Table::new(),
            deadlines: Table::new(),
            failures: 0,
        }
    }

    /// Whether the terminal is registered.
    pub fn is_registered(&self, issi: u32) -> (r: bool)
        ensures
            r == self@.registered(issi),
    {
        self.subscribers.contains_key(issi)
    }

    /// Whether the registration has been delivered.
    pub fn is_active(&self, issi: u32) -> (r: bool)
        ensures
            r == self@.is_active(issi),
    {
        self.active.contains_key(issi)
    }

    /// The terminals whose registration has been delivered.
    pub fn active_issis(&self) -> (list: Vec<u32>)
        ensures
            list@ == crate::table::keys(self@.active),
    {
        self.active.key_list()
    }

    /// Notes that the registration has been delivered.
    pub fn mark_active(&mut self, issi: u32)
        ensures
            final(self)@ == old(self)@.activated(issi),
            old(self)@.wf() ==> final(self)@.wf(),
    {
        proof {
            if self@.wf() {
                law_delivery_keeps_wf(self@, issi);
            }
        }
        self.active.insert(issi, true);
        self.pending.remove(issi);
    }

    /// Notes that the registration is neither delivered nor on its way.
    pub fn mark_inactive(&mut self, issi: u32)
        ensures
            final(self)@ == old(self)@.deactivated(issi),
            old(self)@.wf() ==> final(self)@.wf(),
    {
        proof {
            if self@.wf() {
                law_delivery_keeps_wf(self@, issi);
            }
        }
        self.active.remove(issi);
        self.pending.remove(issi);
    }

    /// A terminal that just used MAC-ACCESS listens for the direct outcome: the
    /// response must not wait for its ordinary monitoring phase.
    pub fn mark_direct_response_window(&mut self, issi: u32, now: TdmaTime)
        ensures
            final(self)@ == old(self)@.with_window(issi, now),
            old(self)@.wf() ==> final(self)@.wf(),
    {
        proof {
            if self@.wf() {
                law_windows_keep_wf(self@, issi, now);
            }
        }
        let deadline: TdmaTime = now.add_timeslots(DIRECT_RESPONSE_WINDOW_TIMESLOTS);
        self.deadlines.insert(issi, deadline);
    }

    /// Whether the terminal still listens for a direct response. Windows that
    /// have passed are dropped.
    pub fn direct_response_window_active(&mut self, issi: u32, now: TdmaTime) -> (r: bool)
        ensures
            final(self)@ == old(self)@.expired(now),
            r == crate::table::contains(old(self)@.expired(now).deadlines, issi),
            old(self)@.wf() ==> final(self)@.wf(),
    {
        let ghost before = self@;
        let ghost keep = still_open(now);
        let mut kept: Vec<(u32, TdmaTime)> = Vec::new();
        let mut i: usize = 0;
        proof {
            reveal(Seq::filter);
            assert(before.deadlines.take(0) =~= Seq::empty());
        }
        while i < self.deadlines.len()
            invariant
                i <= self.deadlines@.len(),
                self@ == before,
                keep == still_open(now),
                kept@ == before.deadlines.take(i as int).filter(keep),
            decreases self.deadlines@.len() - i,
        {
            let entry = self.deadlines.entry(i);
            proof {
                reveal(Seq::filter);
                assert(before.deadlines.take(i + 1).drop_last() =~= before.deadlines.take(
                    i as int,
                ));
                assert(before.deadlines.take(i + 1).last() == before.deadlines[i as int]);
            }
            if now.age(entry.1) <= 0 {
                kept.push(entry);
            }
            i = i + 1;
        }
        assert(before.deadlines.take(before.deadlines.len() as int) =~= before.deadlines);
        self.deadlines = Table::from_entries(kept);
        proof {
            if before.wf() {
                law_windows_keep_wf(before, issi, now);
            }
        }
        self.deadlines.contains_key(issi)
    }

    /// Sets whether the delivery of the registration is awaited.
    pub fn set_registration_delivery_pending(&mut self, issi: u32, pending: bool)
        ensures
            final(self)@ == old(self)@.awaiting(issi, pending),
            old(self)@.wf() ==> final(self)@.wf(),
    {
        proof {
            if self@.wf() {
                law_delivery_keeps_wf(self@, issi);
            }
        }
        if pending {
            self.pending.insert(issi, true);
            self.active.remove(issi);
        } else {
            self.pending.remove(issi);
        }
    }

    /// Whether the delivery of the registration is awaited.
    pub fn is_registration_pending(&self, issi: u32) -> (r: bool)
        ensures
            r == self@.is_pending(issi),
    {
        self.pending.contains_key(issi)
    }

    /// The number of registrations on their way, as far as it can be told.
    pub fn pending_registration_count(&self) -> (n: u16)
        ensures
            n == if self@.pending.len() <= u16::MAX {
                self@.pending.len()
            } else {
                u16::MAX as nat
            },
    {
        let n: usize = self.pending.len();
        if n <= 65535 {
            n as u16
        } else {
            65535
        }
    }

    /// Counts a failed delivery.
    pub fn note_registration_delivery_failure(&mut self)
        ensures
            final(self)@ == (RegistryView {
                failures: if old(self)@.failures < u16::MAX {
                    (old(self)@.failures + 1) as u16
                } else {
                    u16::MAX
                },
                ..old(self)@
            }),
            old(self)@.wf() ==> final(self)@.wf(),
    {
        proof {
            lemma_wf_is_of_the_tables(self@);
        }
        if self.failures < 65535 {
            self.failures = self.failures + 1;
        }
    }

    /// The failed deliveries since this was last asked.
    pub fn take_registration_delivery_failures(&mut self) -> (n: u16)
        ensures
            n == old(self)@.failures,
            final(self)@ == (RegistryView { failures: 0, ..old(self)@ }),
            old(self)@.wf() ==> final(self)@.wf(),
    {
        proof {
            lemma_wf_is_of_the_tables(self@);
        }
        let n: u16 = self.failures;
        self.failures = 0;
        n
    }

    /// Registers a terminal. One that is registered already starts anew.
    pub fn register(&mut self, issi: u32)
        ensures
            final(self)@ == old(self)@.registering(issi),
            old(self)@.wf() ==> final(self)@.wf(),
    {
        self.deregister(issi);
        proof {
            if self@.wf() {
                law_with_keeps_wf(self@, issi, Subscriber::fresh(issi));
            }
        }
        self.subscribers.insert(issi, Subscriber::new(issi));
    }

    /// What is known of a terminal, for changing all but its identity. One that
    /// is not registered becomes known.
    pub fn get_subscriber_mut(&mut self, issi: u32) -> (subscriber: &mut Subscriber)
        requires
            old(self)@.wf(),
        ensures
            *subscriber == old(self)@.known(issi),
            final(self)@ == old(self)@.with(issi, *final(subscriber)),
            final(subscriber).issi == issi ==> final(self)@.wf(),
    {
        let ghost before = self.subscribers@;
        let ghost known = self@;
        proof {
            assert forall|subscriber: Subscriber| subscriber.issi == issi implies #[trigger]
                known.with(issi, subscriber).wf() by {
                law_with_keeps_wf(known, issi, subscriber);
            }
        }
        if !self.subscribers.contains_key(issi) {
            proof {
                crate::table::law_put_keeps_distinct(before, issi, Subscriber::fresh(issi));
                crate::table::law_lookup_after_put(before, issi, Subscriber::fresh(issi), issi);
                assert(before.push((issi, Subscriber::fresh(issi))).drop_last() =~= before);
            }
            self.subscribers.insert(issi, Subscriber::new(issi));
        }
        self.subscribers.value_mut(issi)
    }

    /// Deregisters a terminal and drops its attachments.
    pub fn deregister(&mut self, issi: u32)
        ensures
            final(self)@ == old(self)@.deregistered(issi),
            old(self)@.wf() ==> final(self)@.wf(),
    {
        let ghost before = self@;
        proof {
            if self@.wf() {
                law_deregistration_keeps_wf(self@, issi);
            }
        }
        self.mark_inactive(issi);
        self.deadlines.remove(issi);
        self.subscribers.remove(issi);
        let ghost keep = of_another(issi);
        let ghost now = self@;
        let mut kept: Vec<(Membership, bool)> = Vec::new();
        let mut i: usize = 0;
        proof {
            reveal(Seq::filter);
            assert(before.affiliations.take(0) =~= Seq::empty());
        }
        while i < self.affiliations.len()
            invariant
                i <= self.affiliations@.len(),
                self@ == now,
                self.affiliations@ == before.affiliations,
                keep == of_another(issi),
                kept@ == before.affiliations.take(i as int).filter(keep),
            decreases self.affiliations@.len() - i,
        {
            let entry = self.affiliations.entry(i);
            proof {
                reveal(Seq::filter);
                assert(before.affiliations.take(i + 1).drop_last() =~= before.affiliations.take(
                    i as int,
                ));
                assert(before.affiliations.take(i + 1).last() == before.affiliations[i as int]);
            }
            if entry.0.issi != issi {
                kept.push(entry);
            }
            i = i + 1;
        }
        assert(before.affiliations.take(before.affiliations.len() as int) =~= before.affiliations);
        self.affiliations = Table::from_entries(kept);
    }

    /// Attaches a terminal to a group.
    pub fn affiliate(&mut self, issi: u32, gssi: u32)
        ensures
            final(self)@ == old(self)@.attached(issi, gssi),
            old(self)@.wf() ==> final(self)@.wf(),
    {
        proof {
            if self@.wf() {
                law_attachment_keeps_wf(self@, issi, gssi);
            }
        }
        self.introduce(issi);
        self.affiliations.insert(Membership { issi, gssi }, true);
    }

    /// Detaches a terminal from a group.
    pub fn deaffiliate(&mut self, issi: u32, gssi: u32)
        ensures
            final(self)@ == old(self)@.detached(issi, gssi),
            old(self)@.wf() ==> final(self)@.wf(),
    {
        proof {
            if self@.wf() {
                law_attachment_keeps_wf(self@, issi, gssi);
            }
        }
        self.introduce(issi);
        self.affiliations.remove(Membership { issi, gssi });
    }

    fn introduce(&mut self, issi: u32)
        ensures
            final(self)@ == old(self)@.introduced(issi),
            old(self)@.wf() ==> final(self)@.wf(),
    {
        if !self.subscribers.contains_key(issi) {
            proof {
                if self@.wf() {
                    law_with_keeps_wf(self@, issi, Subscriber::fresh(issi));
                }
            }
            self.subscribers.insert(issi, Subscriber::new(issi));
        }
    }

    /// Whether the terminal is attached to the group.
    pub fn is_affiliated(&self, issi: u32, gssi: u32) -> (r: bool)
        ensures
            r == self@.affiliated(issi, gssi),
    {
        self.affiliations.contains_key(Membership { issi, gssi })
    }

    /// Whether any terminal is attached to the group.
    pub fn has_group_members(&self, gssi: u32) -> (r: bool)
        ensures
            r == self@.has_members(gssi),
    {
        let mut i: usize = 0;
        while i < self.affiliations.len()
            invariant
                i <= self.affiliations@.len(),
                forall|j: int|
                    0 <= j < i ==> (#[trigger] self.affiliations@[j]).0.gssi != gssi,
            decreases self.affiliations@.len() - i,
        {
            let entry = self.affiliations.entry(i);
            if entry.0.gssi == gssi {
                assert(self@.affiliations[i as int].0.gssi == gssi);
                return true;
            }
            i = i + 1;
        }
        false
    }

    fn update(&mut self, issi: u32, subscriber: Subscriber)
        ensures
            final(self)@ == old(self)@.with(issi, subscriber),
            old(self)@.wf() && subscriber.issi == issi ==> final(self)@.wf(),
    {
        proof {
            if self@.wf() && subscriber.issi == issi {
                law_with_keeps_wf(self@, issi, subscriber);
            }
        }
        self.subscribers.insert(issi, subscriber);
    }

    /// Stores the energy economy of a registered terminal; tells whether it is
    /// one.
    pub fn set_energy_economy(
        &mut self,
        issi: u32,
        mode: u8,
        frame_number: Option<u8>,
        multiframe_number: Option<u8>,
    ) -> (stored: bool)
        ensures
            stored == old(self)@.registered(issi),
            final(self)@ == if stored {
                old(self)@.with(
                    issi,
                    Subscriber {
                        energy_economy_mode: mode,
                        energy_economy_frame_number: frame_number,
                        energy_economy_multiframe_number: multiframe_number,
                        ..old(self)@.known(issi)
                    },
                )
            } else {
                old(self)@
            },
            old(self)@.wf() ==> final(self)@.wf(),
    {
        proof {
            lemma_known_has_its_identity(self@, issi);
        }
        match self.subscribers.get(issi) {
            Some(known) => {
                self.update(
                    issi,
                    Subscriber {
                        energy_economy_mode: mode,
                        energy_economy_frame_number: frame_number,
                        energy_economy_multiframe_number: multiframe_number,
                        ..known
                    },
                );
                true
            },
            None => false,
        }
    }

    /// Sets whether the energy economy phase of a registered terminal is still
    /// to be established.
    pub fn set_energy_economy_activation_pending(&mut self, issi: u32, pending: bool)
        ensures
            final(self)@ == if old(self)@.registered(issi) {
                old(self)@.with(
                    issi,
                    Subscriber {
                        energy_economy_activation_pending: pending,
                        ..old(self)@.known(issi)
                    },
                )
            } else {
                old(self)@
            },
            old(self)@.wf() ==> final(self)@.wf(),
    {
        proof {
            lemma_known_has_its_identity(self@, issi);
        }
        if let Some(known) = self.subscribers.get(issi) {
            self.update(issi, Subscriber { energy_economy_activation_pending: pending, ..known });
        }
    }

    /// Whether the energy economy phase was still to be established; from now
    /// on it is not.
    pub fn take_energy_economy_activation_pending(&mut self, issi: u32) -> (pending: bool)
        ensures
            pending == (old(self)@.registered(issi) && old(self)@.known(
                issi,
            ).energy_economy_activation_pending),
            final(self)@ == if old(self)@.registered(issi) {
                old(self)@.with(
                    issi,
                    Subscriber {
                        energy_economy_activation_pending: false,
                        ..old(self)@.known(issi)
                    },
                )
            } else {
                old(self)@
            },
            old(self)@.wf() ==> final(self)@.wf(),
    {
        proof {
            lemma_known_has_its_identity(self@, issi);
        }
        match self.subscribers.get(issi) {
            Some(known) => {
                self.update(issi, Subscriber { energy_economy_activation_pending: false, ..known });
                known.energy_economy_activation_pending
            },
            None => false,
        }
    }

    /// Sets whether a registered terminal scans groups.
    pub fn set_scanning_enabled(&mut self, issi: u32, enabled: bool)
        ensures
            final(self)@ == if old(self)@.registered(issi) {
                old(self)@.with(
                    issi,
                    Subscriber { scanning_enabled: enabled, ..old(self)@.known(issi) },
                )
            } else {
                old(self)@
            },
            old(self)@.wf() ==> final(self)@.wf(),
    {
        proof {
            lemma_known_has_its_identity(self@, issi);
        }
        if let Some(known) = self.subscribers.get(issi) {
            self.update(issi, Subscriber { scanning_enabled: enabled, ..known });
        }
    }

    /// Sets the assignment state of a registered terminal.
    pub fn set_rua_assignment_state(&mut self, issi: u32, assigned: Option<bool>)
        ensures
            final(self)@ == if old(self)@.registered(issi) {
                old(self)@.with(
                    issi,
                    Subscriber { rua_assigned: assigned, ..old(self)@.known(issi) },
                )
            } else {
                old(self)@
            },
            old(self)@.wf() ==> final(self)@.wf(),
    {
        proof {
            lemma_known_has_its_identity(self@, issi);
        }
        if let Some(known) = self.subscribers.get(issi) {
            self.update(issi, Subscriber { rua_assigned: assigned, ..known });
        }
    }

    /// The assignment state of a terminal, if one was observed.
    pub fn rua_assignment_state(&self, issi: u32) -> (assigned: Option<bool>)
        ensures
            assigned == self@.known(issi).rua_assigned,
    {
        match self.subscribers.get(issi) {
            Some(known) => known.rua_assigned,
            None => None,
        }
    }

    /// Mode, frame and multiframe of a registered terminal's energy economy.
    pub fn energy_economy(&self, issi: u32) -> (economy: Option<(u8, Option<u8>, Option<u8>)>)
        ensures
            economy == if self@.registered(issi) {
                Some(
                    (
                        self@.known(issi).energy_economy_mode,
                        self@.known(issi).energy_economy_frame_number,
                        self@.known(issi).energy_economy_multiframe_number,
                    ),
                )
            } else {
                None
            },
    {
        match self.subscribers.get(issi) {
            Some(known) => Some(
                (
                    known.energy_economy_mode,
                    known.energy_economy_frame_number,
                    known.energy_economy_multiframe_number,
                ),
            ),
            None => None,
        }
    }

    /// The energy economies of those who listen for the group.
    pub fn group_energy_economies(&self, gssi: u32) -> (list: Vec<EnergyEconomy>)
        ensures
            list@ == self@.group_economies(self@.subscribers, gssi),
    {
        let mut list: Vec<EnergyEconomy> = Vec::new();
        let mut i: usize = 0;
        while i < self.subscribers.len()
            invariant
                i <= self.subscribers@.len(),
                self.subscribers@ == self@.subscribers,
                list@ == self@.group_economies(self@.subscribers.take(i as int), gssi),
            decreases self.subscribers@.len() - i,
        {
            let (issi, known) = self.subscribers.entry(i);
            proof {
                let all = self@.subscribers;
                assert(all.take(i + 1).drop_last() =~= all.take(i as int));
                assert(all.take(i + 1).last() == all[i as int]);
            }
            if self.is_affiliated(issi, gssi) && known.scanning_enabled && self.is_active(
                known.issi,
            ) {
                list.push(
                    EnergyEconomy {
                        issi: known.issi,
                        mode: known.energy_economy_mode,
                        frame_number: known.energy_economy_frame_number,
                        multiframe_number: known.energy_economy_multiframe_number,
                    },
                );
            }
            i = i + 1;
        }
        assert(self@.subscribers.take(self@.subscribers.len() as int) =~= self@.subscribers);
        list
    }
}

/// After a terminal registers it is registered and attached to no group, and
/// nothing of its former registration is left.
pub proof fn law_registration_starts_anew(registry: RegistryView, issi: u32, gssi: u32)
    ensures
        registry.registering(issi).registered(issi),
        registry.registering(issi).known(issi) == Subscriber::fresh(issi),
        !registry.registering(issi).affiliated(issi, gssi),
        !registry.registering(issi).is_active(issi),
        !registry.registering(issi).is_pending(issi),
{
    crate::table::law_lookup_after_put(
        registry.deregistered(issi).subscribers,
        issi,
        Subscriber::fresh(issi),
        issi,
    );
    law_deregistration(registry, issi, issi, gssi);
}

/// A terminal that deregisters takes its own attachments with it, and leaves
/// those of the others.
pub proof fn law_deregistration(registry: RegistryView, issi: u32, other: u32, gssi: u32)
    ensures
        registry.deregistered(issi).registered(other) == (other != issi && registry.registered(
            other,
        )),
        registry.deregistered(issi).affiliated(other, gssi) == (other != issi
            && registry.affiliated(other, gssi)),
        registry.deregistered(issi).is_active(other) == (other != issi && registry.is_active(
            other,
        )),
        registry.deregistered(issi).is_pending(other) == (other != issi && registry.is_pending(
            other,
        )),
        crate::table::contains(registry.deregistered(issi).deadlines, other) == (other != issi
            && crate::table::contains(registry.deadlines, other)),
        registry.deregistered(issi).failures == registry.failures,
{
    crate::table::law_lookup_after_del(registry.deadlines, issi, other);
    crate::table::law_lookup_after_del(registry.subscribers, issi, other);
    crate::table::law_lookup_after_del(registry.active, issi, other);
    crate::table::law_lookup_after_del(registry.pending, issi, other);
    crate::table::law_lookup_after_key_filter(
        registry.affiliations,
        of_another(issi),
        Membership { issi: other, gssi },
    );
}

/// A group has members exactly as long as some terminal is attached to it.
pub proof fn law_members_are_the_affiliated(registry: RegistryView, gssi: u32)
    ensures
        registry.has_members(gssi) <==> exists|issi: u32| #[trigger] registry.affiliated(issi, gssi),
{
    if registry.has_members(gssi) {
        let i = choose|i: int|
            0 <= i < registry.affiliations.len() && (#[trigger] registry.affiliations[i]).0.gssi
                == gssi;
        let member = registry.affiliations[i].0;
        crate::table::lemma_contains(registry.affiliations, member);
        assert(registry.affiliated(member.issi, gssi));
    }
    if exists|issi: u32| #[trigger] registry.affiliated(issi, gssi) {
        let issi = choose|issi: u32| #[trigger] registry.affiliated(issi, gssi);
        crate::table::lemma_contains(registry.affiliations, Membership { issi, gssi });
    }
}

/// Attaching and detaching touch one terminal and one group only.
pub proof fn law_attachment(
    registry: RegistryView,
    issi: u32,
    gssi: u32,
    other: u32,
    group: u32,
)
    ensures
        registry.attached(issi, gssi).affiliated(other, group) == ((other == issi && group == gssi)
            || registry.affiliated(other, group)),
        registry.detached(issi, gssi).affiliated(other, group) == (!(other == issi && group == gssi)
            && registry.affiliated(other, group)),
{
    let member = Membership { issi, gssi };
    let asked = Membership { issi: other, gssi: group };
    crate::table::law_lookup_after_put(registry.affiliations, member, true, asked);
    crate::table::law_lookup_after_del(registry.affiliations, member, asked);
}

/// A registration is never both delivered and on its way because of a change to
/// it.
pub proof fn law_delivery_states_exclude_each_other(registry: RegistryView, issi: u32)
    ensures
        registry.activated(issi).is_active(issi) && !registry.activated(issi).is_pending(issi),
        !registry.deactivated(issi).is_active(issi) && !registry.deactivated(issi).is_pending(issi),
        registry.awaiting(issi, true).is_pending(issi) && !registry.awaiting(issi, true).is_active(
            issi,
        ),
        !registry.awaiting(issi, false).is_pending(issi),
{
    crate::table::law_lookup_after_put(registry.active, issi, true, issi);
    crate::table::law_lookup_after_put(registry.pending, issi, true, issi);
    crate::table::law_lookup_after_del(registry.active, issi, issi);
    crate::table::law_lookup_after_del(registry.pending, issi, issi);
}

/// The window for a direct response is open for exactly its length from when it
/// was opened.
pub proof fn law_window_expires(registry: RegistryView, issi: u32, now: TdmaTime, slots: int)
    requires
        registry.wf(),
        now.wf(),
        0 <= slots < crate::tdma::SLOTS_PER_CYCLE / 2,
    ensures
        crate::table::contains(
            registry.with_window(issi, now).expired(now.plus(slots)).deadlines,
            issi,
        ) <==> slots <= DIRECT_RESPONSE_WINDOW_TIMESLOTS,
{
    let window = DIRECT_RESPONSE_WINDOW_TIMESLOTS as int;
    let opened = registry.with_window(issi, now);
    let deadline = now.plus(window);
    crate::table::law_put_keeps_distinct(registry.deadlines, issi, deadline);
    crate::table::law_lookup_after_put(registry.deadlines, issi, deadline, issi);
    crate::table::law_lookup_after_filter(opened.deadlines, still_open(now.plus(slots)), issi);
    crate::tdma::law_steps_add_up(now, window, slots - window);
    crate::tdma::law_age_of_a_step(deadline, slots - window);
}

proof fn lemma_wf_is_of_the_tables(registry: RegistryView)
    ensures
        forall|failures: u16|
            registry.wf() ==> #[trigger] (RegistryView { failures, ..registry }).wf(),
{
    assert forall|failures: u16| registry.wf() implies #[trigger] (RegistryView {
        failures,
        ..registry
    }).wf() by {
        let after = RegistryView { failures, ..registry };
        assert forall|issi: u32, gssi: u32| #[trigger]
            after.affiliated(issi, gssi) implies after.registered(issi) by {
            assert(registry.affiliated(issi, gssi));
        }
        assert forall|issi: u32| #[trigger] after.is_active(issi) implies !after.is_pending(
            issi,
        ) by {
            assert(registry.is_active(issi));
        }
    }
}

/// Whatever is noted of a terminal, every attached terminal stays registered and
/// no registration is both delivered and on its way.
pub proof fn law_with_keeps_wf(registry: RegistryView, issi: u32, subscriber: Subscriber)
    requires
        registry.wf(),
        subscriber.issi == issi,
    ensures
        registry.with(issi, subscriber).wf(),
        registry.introduced(issi).wf(),
{
    lemma_with_keeps_wf(registry, issi, subscriber);
    lemma_with_keeps_wf(registry, issi, Subscriber::fresh(issi));
}

proof fn lemma_known_has_its_identity(registry: RegistryView, issi: u32)
    ensures
        registry.wf() ==> registry.known(issi).issi == issi,
{
    if registry.wf() && registry.registered(issi) {
        let i = crate::table::lemma_entry_of_lookup(registry.subscribers, issi);
        assert(registry.subscribers[i].0 == registry.subscribers[i].1.issi);
    }
}

proof fn lemma_with_keeps_wf(registry: RegistryView, issi: u32, subscriber: Subscriber)
    requires
        registry.wf(),
        subscriber.issi == issi,
    ensures
        registry.with(issi, subscriber).wf(),
{
    let after = registry.with(issi, subscriber);
    assert(under_their_own_identity(after.subscribers)) by {
        let (before, now) = (registry.subscribers, after.subscribers);
        assert forall|i: int| 0 <= i < now.len() implies (#[trigger] now[i]).0
            == now[i].1.issi by {
            if i < before.len() {
                assert(before[i].0 == before[i].1.issi);
            }
        }
    }
    crate::table::law_put_keeps_distinct(registry.subscribers, issi, subscriber);
    assert forall|other: u32, gssi: u32| #[trigger]
        after.affiliated(other, gssi) implies after.registered(other) by {
        assert(registry.affiliated(other, gssi));
        crate::table::law_lookup_after_put(registry.subscribers, issi, subscriber, other);
    }
    assert forall|other: u32| #[trigger] after.is_active(other) implies !after.is_pending(
        other,
    ) by {
        assert(registry.is_active(other));
    }
}

/// However a delivery goes, every attached terminal stays registered and no
/// registration is both delivered and on its way.
pub proof fn law_delivery_keeps_wf(registry: RegistryView, issi: u32)
    requires
        registry.wf(),
    ensures
        registry.activated(issi).wf(),
        registry.deactivated(issi).wf(),
        registry.awaiting(issi, true).wf(),
        registry.awaiting(issi, false).wf(),
{
    crate::table::law_put_keeps_distinct(registry.active, issi, true);
    crate::table::law_put_keeps_distinct(registry.pending, issi, true);
    crate::table::law_del_keeps_distinct(registry.active, issi);
    crate::table::law_del_keeps_distinct(registry.pending, issi);
    assert forall|after: RegistryView|
        after.affiliations == registry.affiliations && after.subscribers
            == registry.subscribers implies #[trigger] after.attached_are_registered() by {
        assert forall|other: u32, gssi: u32| #[trigger]
            after.affiliated(other, gssi) implies after.registered(other) by {
            assert(registry.affiliated(other, gssi));
        }
    }
    assert forall|other: u32| #[trigger] registry.is_active(other) implies !registry.is_pending(
        other,
    ) by {}
    assert forall|other: u32| #[trigger]
        registry.activated(issi).is_active(other) implies !registry.activated(issi).is_pending(
        other,
    ) by {
        crate::table::law_lookup_after_put(registry.active, issi, true, other);
        crate::table::law_lookup_after_del(registry.pending, issi, other);
        assert(other == issi || registry.is_active(other));
    }
    assert forall|other: u32| #[trigger]
        registry.deactivated(issi).is_active(other) implies !registry.deactivated(issi).is_pending(
        other,
    ) by {
        crate::table::law_lookup_after_del(registry.active, issi, other);
        crate::table::law_lookup_after_del(registry.pending, issi, other);
        assert(registry.is_active(other));
    }
    assert forall|other: u32| #[trigger]
        registry.awaiting(issi, true).is_active(other) implies !registry.awaiting(
        issi,
        true,
    ).is_pending(other) by {
        crate::table::law_lookup_after_del(registry.active, issi, other);
        crate::table::law_lookup_after_put(registry.pending, issi, true, other);
        assert(registry.is_active(other));
    }
    assert forall|other: u32| #[trigger]
        registry.awaiting(issi, false).is_active(other) implies !registry.awaiting(
        issi,
        false,
    ).is_pending(other) by {
        crate::table::law_lookup_after_del(registry.pending, issi, other);
        assert(registry.is_active(other));
    }
}

/// Whatever window opens or passes, every attached terminal stays registered and
/// no registration is both delivered and on its way.
pub proof fn law_windows_keep_wf(registry: RegistryView, issi: u32, now: TdmaTime)
    requires
        registry.wf(),
    ensures
        registry.with_window(issi, now).wf(),
        registry.expired(now).wf(),
{
    crate::table::law_put_keeps_distinct(
        registry.deadlines,
        issi,
        now.plus(DIRECT_RESPONSE_WINDOW_TIMESLOTS as int),
    );
    crate::table::law_lookup_after_filter(registry.deadlines, still_open(now), issi);
    assert forall|after: RegistryView|
        after.affiliations == registry.affiliations && after.subscribers == registry.subscribers
            && after.active == registry.active && after.pending
            == registry.pending implies #[trigger] after.attached_are_registered()
        && after.delivered_or_awaited() by {
        assert forall|other: u32, gssi: u32| #[trigger]
            after.affiliated(other, gssi) implies after.registered(other) by {
            assert(registry.affiliated(other, gssi));
        }
        assert forall|other: u32| #[trigger] after.is_active(other) implies !after.is_pending(
            other,
        ) by {
            assert(registry.is_active(other));
        }
    }
    assert(registry.with_window(issi, now).attached_are_registered());
    assert(registry.expired(now).attached_are_registered());
}

proof fn lemma_fewer_under_their_own_identity(subscribers: Seq<(u32, Subscriber)>, issi: u32)
    requires
        under_their_own_identity(subscribers),
    ensures
        under_their_own_identity(crate::table::del(subscribers, issi)),
    decreases subscribers.len(),
{
    reveal(Seq::filter);
    if subscribers.len() > 0 {
        let rest = subscribers.drop_last();
        assert forall|i: int| 0 <= i < rest.len() implies (#[trigger] rest[i]).0
            == rest[i].1.issi by {
            assert(subscribers[i].0 == subscribers[i].1.issi);
        }
        lemma_fewer_under_their_own_identity(rest, issi);
        assert(subscribers[subscribers.len() - 1].0 == subscribers.last().1.issi);
    }
}

/// Whoever registers or deregisters, every attached terminal stays registered
/// and no registration is both delivered and on its way.
pub proof fn law_deregistration_keeps_wf(registry: RegistryView, issi: u32)
    requires
        registry.wf(),
    ensures
        registry.deregistered(issi).wf(),
        registry.registering(issi).wf(),
{
    let after = registry.deregistered(issi);
    lemma_fewer_under_their_own_identity(registry.subscribers, issi);
    crate::table::law_del_keeps_distinct(registry.deadlines, issi);
    crate::table::law_del_keeps_distinct(registry.subscribers, issi);
    crate::table::law_del_keeps_distinct(registry.active, issi);
    crate::table::law_del_keeps_distinct(registry.pending, issi);
    crate::table::law_lookup_after_filter(
        registry.affiliations,
        of_another(issi),
        Membership { issi, gssi: 0 },
    );
    assert forall|other: u32, gssi: u32| #[trigger]
        after.affiliated(other, gssi) implies after.registered(other) by {
        law_deregistration(registry, issi, other, gssi);
    }
    assert forall|other: u32| #[trigger] after.is_active(other) implies !after.is_pending(
        other,
    ) by {
        law_deregistration(registry, issi, other, 0);
    }
    law_with_keeps_wf(after, issi, Subscriber::fresh(issi));
}

/// Whoever is attached or detached, every attached terminal stays registered and
/// no registration is both delivered and on its way.
pub proof fn law_attachment_keeps_wf(registry: RegistryView, issi: u32, gssi: u32)
    requires
        registry.wf(),
    ensures
        registry.attached(issi, gssi).wf(),
        registry.detached(issi, gssi).wf(),
{
    let member = Membership { issi, gssi };
    let known = registry.introduced(issi);
    let (attached, detached) = (registry.attached(issi, gssi), registry.detached(issi, gssi));
    law_with_keeps_wf(registry, issi, Subscriber::fresh(issi));
    crate::table::law_put_keeps_distinct(registry.affiliations, member, true);
    crate::table::law_del_keeps_distinct(registry.affiliations, member);
    crate::table::law_lookup_after_put(
        registry.subscribers,
        issi,
        Subscriber::fresh(issi),
        issi,
    );
    assert(known.registered(issi));
    assert forall|other: u32, group: u32| #[trigger]
        attached.affiliated(other, group) implies attached.registered(other) by {
        law_attachment(registry, issi, gssi, other, group);
        assert(other == issi || known.affiliated(other, group));
    }
    assert forall|other: u32, group: u32| #[trigger]
        detached.affiliated(other, group) implies detached.registered(other) by {
        law_attachment(registry, issi, gssi, other, group);
        assert(known.affiliated(other, group));
    }
    assert forall|other: u32| #[trigger] attached.is_active(other) implies !attached.is_pending(
        other,
    ) by {
        assert(known.is_active(other));
    }
    assert forall|other: u32| #[trigger] detached.is_active(other) implies !detached.is_pending(
        other,
    ) by {
        assert(known.is_active(other));
    }
}

/// Whether a terminal that is known listens for the group.
pub open spec fn is_listener(registry: RegistryView, issi: u32, gssi: u32) -> bool {
    &&& registry.registered(issi)
    &&& registry.affiliated(issi, gssi)
    &&& registry.known(issi).scanning_enabled
    &&& registry.is_active(issi)
}

proof fn lemma_economies(registry: RegistryView, subscribers: Seq<(u32, Subscriber)>, gssi: u32)
    requires
        crate::table::distinct(subscribers),
        under_their_own_identity(subscribers),
    ensures
        ({
            let list = registry.group_economies(subscribers, gssi);
            &&& forall|e: EnergyEconomy| #[trigger]
                list.contains(e) ==> crate::table::contains(subscribers, e.issi) && e == economy_of(
                    crate::table::lookup(subscribers, e.issi)->0,
                ) && registry.listens(
                    crate::table::lookup(subscribers, e.issi)->0,
                    e.issi,
                    gssi,
                )
            &&& forall|issi: u32| #[trigger]
                crate::table::contains(subscribers, issi) && registry.listens(
                    crate::table::lookup(subscribers, issi)->0,
                    issi,
                    gssi,
                ) ==> list.contains(economy_of(crate::table::lookup(subscribers, issi)->0))
            &&& forall|i: int, j: int|
                0 <= i < j < list.len() ==> (#[trigger] list[i]).issi != (#[trigger] list[j]).issi
        }),
    decreases subscribers.len(),
{
    if subscribers.len() > 0 {
        let rest = subscribers.drop_last();
        let (own, last) = subscribers.last();
        assert(subscribers[subscribers.len() - 1].0 == subscribers.last().1.issi);
        assert forall|i: int| 0 <= i < rest.len() implies (#[trigger] rest[i]).0
            == rest[i].1.issi by {
            assert(subscribers[i].0 == subscribers[i].1.issi);
        }
        assert forall|i: int, j: int|
            0 <= i < rest.len() && 0 <= j < rest.len() && i != j implies (#[trigger] rest[i]).0 != (
        #[trigger] rest[j]).0 by {
            assert(subscribers[i].0 != subscribers[j].0);
        }
        crate::table::lemma_contains(rest, own);
        assert(!crate::table::contains(rest, own)) by {
            if crate::table::contains(rest, own) {
                let i = choose|i: int| 0 <= i < rest.len() && (#[trigger] rest[i]).0 == own;
                assert(subscribers[i].0 != subscribers[subscribers.len() - 1].0);
            }
        }
        lemma_economies(registry, rest, gssi);
        let before = registry.group_economies(rest, gssi);
        let list = registry.group_economies(subscribers, gssi);
        let entry = economy_of(last);
        if registry.listens(last, own, gssi) {
            assert(list == before.push(entry));
            assert forall|e: EnergyEconomy| #[trigger] list.contains(e) implies before.contains(e)
                || e == entry by {
                vstd::seq_lib::lemma_seq_contains_after_push(before, entry, e);
            }
            assert forall|e: EnergyEconomy| before.contains(e) || e == entry implies #[trigger]
                list.contains(e) by {
                vstd::seq_lib::lemma_seq_contains_after_push(before, entry, e);
            }
            assert forall|i: int, j: int| 0 <= i < j < list.len() implies (#[trigger] list[i]).issi
                != (#[trigger] list[j]).issi by {
                if j == before.len() {
                    assert(before.contains(before[i]));
                }
            }
        }
        assert forall|e: EnergyEconomy| #[trigger]
            list.contains(e) implies crate::table::contains(subscribers, e.issi) && e == economy_of(
            crate::table::lookup(subscribers, e.issi)->0,
        ) && registry.listens(crate::table::lookup(subscribers, e.issi)->0, e.issi, gssi) by {
            if before.contains(e) {
                assert(crate::table::contains(rest, e.issi));
            }
        }
        assert forall|issi: u32| #[trigger]
            crate::table::contains(subscribers, issi) && registry.listens(
                crate::table::lookup(subscribers, issi)->0,
                issi,
                gssi,
            ) implies list.contains(
            economy_of(crate::table::lookup(subscribers, issi)->0),
        ) by {
            if issi != own {
                assert(crate::table::contains(rest, issi));
            }
        }
    }
}

/// The energy economies of a group are those of its listeners, each once and
/// under its own identity.
pub proof fn law_each_listener_is_listed_once(registry: RegistryView, gssi: u32)
    requires
        registry.wf(),
    ensures
        ({
            let list = registry.group_economies(registry.subscribers, gssi);
            &&& forall|e: EnergyEconomy| #[trigger]
                list.contains(e) <==> is_listener(registry, e.issi, gssi) && e == economy_of(
                    registry.known(e.issi),
                )
            &&& forall|issi: u32| #[trigger]
                is_listener(registry, issi, gssi) ==> list.contains(
                    economy_of(registry.known(issi)),
                ) && economy_of(registry.known(issi)).issi == issi
            &&& forall|i: int, j: int|
                0 <= i < j < list.len() ==> (#[trigger] list[i]).issi != (#[trigger] list[j]).issi
        }),
{
    let list = registry.group_economies(registry.subscribers, gssi);
    lemma_economies(registry, registry.subscribers, gssi);
    assert forall|issi: u32| #[trigger] is_listener(registry, issi, gssi) implies list.contains(
        economy_of(registry.known(issi)),
    ) && economy_of(registry.known(issi)).issi == issi by {
        lemma_known_has_its_identity(registry, issi);
        assert(crate::table::contains(registry.subscribers, issi));
    }
    assert forall|e: EnergyEconomy| #[trigger] list.contains(e) <==> is_listener(
        registry,
        e.issi,
        gssi,
    ) && e == economy_of(registry.known(e.issi)) by {
        lemma_known_has_its_identity(registry, e.issi);
        if list.contains(e) {
            assert(crate::table::contains(registry.subscribers, e.issi));
        }
    }
}

} // verus!
