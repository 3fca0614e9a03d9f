//! The terminals that mobility management knows.
use crate::cmce::pdu::Membership;
use crate::mm::pdu::{EnergyEconomyAssignment, RecoveryGroup};
use crate::table::Table;
use vstd::prelude::*;

verus! {

/// Whether a terminal is attached.
#[derive(Debug, Clone, Copy, PartialEq, Eq, Structural)]
pub enum MmClientState {
    Attached,
    Detached,
}

/// A terminal, besides its groups.
#[derive(Debug, Clone, Copy, PartialEq, Eq, Structural)]
pub struct MmClient {
    pub state: MmClientState,
    pub energy_economy: EnergyEconomyAssignment,
    pub scanning_enabled: bool,
    pub class_of_ms: Option<u32>,
}

/// Why a change to a terminal is refused.
#[derive(Debug, Clone, Copy, PartialEq, Eq, Structural)]
pub enum ClientMgrErr {
    /// The identity does not name a terminal.
    NotIndividual,
    /// The identity does not name a group.
    NotGroup,
    ClientNotFound,
}

/// Whether a short identity fits its 24 bits and is in use.
#[verifier::allow_in_spec]
pub fn is_assigned_ssi(ssi: u32) -> bool
    returns
        (0 < ssi && ssi <= 0x00ff_ffff),
{
    0 < ssi && ssi <= 0x00ff_ffff
}

/// The model of the terminals.
#[verifier::ext_equal]
pub ghost struct ClientsView {
    pub clients: Seq<(u32, MmClient)>,
    /// The groups, each with its class of usage.
    pub groups: Seq<(Membership, u8)>,
}

/// Whether a membership is not one of the terminal.
pub open spec fn not_of(issi: u32) -> spec_fn((Membership, u8)) -> bool {
    |entry: (Membership, u8)| entry.0.issi != issi
}

/// The groups of a terminal.
pub open spec fn groups_of(groups: Seq<(Membership, u8)>, issi: u32) -> Seq<u32>
    decreases groups.len(),
{
    if groups.len() == 0 {
        Seq::empty()
    } else {
        let before = groups_of(groups.drop_last(), issi);
        if groups.last().0.issi == issi {
            before.push(groups.last().0.gssi)
        } else {
            before
        }
    }
}

impl ClientsView {
    /// No terminal is known.
    pub open spec fn empty() -> ClientsView {
        ClientsView { clients: Seq::empty(), groups: Seq::empty() }
    }

    /// Whether the terminal is known.
    pub open spec fn known(self, issi: u32) -> bool {
        crate::table::contains(self.clients, issi)
    }

    /// The terminal.
    pub open spec fn client(self, issi: u32) -> MmClient {
        crate::table::lookup(self.clients, issi)->0
    }

    /// The groups of the terminal.
    pub open spec fn groups(self, issi: u32) -> Seq<u32> {
        groups_of(self.groups, issi)
    }

    /// Whether the terminal is in the group.
    pub open spec fn in_group(self, issi: u32, gssi: u32) -> bool {
        crate::table::contains(self.groups, Membership { issi, gssi })
    }

    /// The class of usage of a group; the lowest where the terminal is not in
    /// it.
    pub open spec fn class(self, issi: u32, gssi: u32) -> u8 {
        match crate::table::lookup(self.groups, Membership { issi, gssi }) {
            Some(class) => class,
            None => 0,
        }
    }

    /// With a terminal that starts anew.
    pub open spec fn registered(self, issi: u32, state: MmClientState) -> ClientsView {
        ClientsView {
            clients: crate::table::put(
                self.clients,
                issi,
                MmClient {
                    state,
                    energy_economy: EnergyEconomyAssignment::stay_alive(),
                    scanning_enabled: true,
                    class_of_ms: None,
                },
            ),
            groups: self.groups.filter(not_of(issi)),
        }
    }

    /// With a terminal changed, if it is known.
    pub open spec fn with(self, issi: u32, client: MmClient) -> ClientsView {
        if self.known(issi) {
            ClientsView { clients: crate::table::put(self.clients, issi, client), ..self }
        } else {
            self
        }
    }

    /// Without the groups of a terminal.
    pub open spec fn without_groups(self, issi: u32) -> ClientsView {
        if self.known(issi) {
            ClientsView { groups: self.groups.filter(not_of(issi)), ..self }
        } else {
            self
        }
    }

    /// Without a terminal.
    pub open spec fn removed(self, issi: u32) -> ClientsView {
        if self.known(issi) {
            ClientsView {
                clients: crate::table::del(self.clients, issi),
                groups: self.groups.filter(not_of(issi)),
            }
        } else {
            self
        }
    }

    /// Why the groups of a terminal cannot be changed, if they cannot.
    pub open spec fn group_fault(self, issi: u32, gssi: u32) -> Option<ClientMgrErr> {
        if !self.known(issi) {
            Some(ClientMgrErr::ClientNotFound)
        } else if !is_assigned_ssi(gssi) {
            Some(ClientMgrErr::NotGroup)
        } else {
            None
        }
    }

    /// With a terminal in a group, or not.
    pub open spec fn with_group(self, issi: u32, gssi: u32, attach: bool, class: u8) -> ClientsView {
        if self.group_fault(issi, gssi) is Some {
            self
        } else if attach {
            ClientsView {
                groups: crate::table::put(self.groups, Membership { issi, gssi }, class),
                ..self
            }
        } else {
            ClientsView {
                groups: crate::table::del(self.groups, Membership { issi, gssi }),
                ..self
            }
        }
    }
}

/// The terminals that mobility management knows.
#[derive(Debug)]
pub struct MmClientMgr {
    clients: Table<u32, MmClient>,
    groups: Table<Membership, u8>,
}

impl View for MmClientMgr {
    type V = ClientsView;

    closed spec fn view(&self) -> ClientsView {
        ClientsView { clients: self.clients@, groups: self.groups@ }
    }
}

impl MmClientMgr {
    /// No terminal is known.
    pub fn new() -> (mgr: Self)
        ensures
            mgr@ == ClientsView::empty(),
    {
        MmClientMgr { clients: Table::new(), groups: Table::new() }
    }

    /// The number of terminals.
    pub fn len(&self) -> (n: usize)
        ensures
            n == self@.clients.len(),
    {
        self.clients.len()
    }

    /// The terminal at `index`.
    pub fn entry(&self, index: usize) -> (entry: (u32, MmClient))
        requires
            index < self@.clients.len(),
        ensures
            entry == self@.clients[index as int],
    {
        self.clients.entry(index)
    }

    /// Whether the terminal is known.
    pub fn client_is_known(&self, issi: u32) -> (r: bool)
        ensures
            r == self@.known(issi),
    {
        self.clients.contains_key(issi)
    }

    /// Makes a terminal known, without groups.
    pub fn try_register_client(&mut self, issi: u32, attached: bool) -> (r: Result<
        (),
        ClientMgrErr,
    >)
        ensures
            r == if is_assigned_ssi(issi) {
                Ok::<(), ClientMgrErr>(())
            } else {
                Err(ClientMgrErr::NotIndividual)
            },
            final(self)@ == if is_assigned_ssi(issi) {
                old(self)@.registered(
                    issi,
                    if attached {
                        MmClientState::Attached
                    } else {
                        MmClientState::Detached
                    },
                )
            } else {
                old(self)@
            },
    {
        if !is_assigned_ssi(issi) {
            return Err(ClientMgrErr::NotIndividual);
        }
        let state = if attached {
            MmClientState::Attached
        } else {
            MmClientState::Detached
        };
        self.clients.insert(
            issi,
            MmClient {
                state,
                energy_economy: EnergyEconomyAssignment::stay_alive(),
                scanning_enabled: true,
                class_of_ms: None,
            },
        );
        self.drop_groups(issi);
        Ok(())
    }

    fn drop_groups(&mut self, issi: u32)
        ensures
            final(self)@ == (ClientsView {
                groups: old(self)@.groups.filter(not_of(issi)),
                ..old(self)@
            }),
    {
        let ghost before = self@;
        let ghost keep = not_of(issi);
        let mut kept: Vec<(Membership, u8)> = Vec::new();
        let mut i: usize = 0;
        proof {
            reveal(Seq::filter);
            assert(before.groups.take(0) =~= Seq::empty());
        }
        while i < self.groups.len()
            invariant
                i <= self.groups@.len(),
                self@ == before,
                self.groups@ == before.groups,
                keep == not_of(issi),
                kept@ == before.groups.take(i as int).filter(keep),
            decreases self.groups@.len() - i,
        {
            let entry = self.groups.entry(i);
            proof {
                reveal(Seq::filter);
                assert(before.groups.take(i + 1).drop_last() =~= before.groups.take(i as int));
                assert(before.groups.take(i + 1).last() == before.groups[i as int]);
            }
            if entry.0.issi != issi {
                kept.push(entry);
            }
            i = i + 1;
        }
        assert(before.groups.take(before.groups.len() as int) =~= before.groups);
        self.groups = Table::from_entries(kept);
    }

    fn update(&mut self, issi: u32, client: MmClient)
        requires
            old(self)@.known(issi),
        ensures
            final(self)@ == old(self)@.with(issi, client),
    {
        self.clients.insert(issi, client);
    }

    /// Sets whether a known terminal is attached.
    pub fn set_client_state(&mut self, issi: u32, state: MmClientState) -> (r: Result<
        (),
        ClientMgrErr,
    >)
        ensures
            r == if old(self)@.known(issi) {
                Ok::<(), ClientMgrErr>(())
            } else {
                Err(ClientMgrErr::ClientNotFound)
            },
            final(self)@ == old(self)@.with(
                issi,
                MmClient { state, ..old(self)@.client(issi) },
            ),
    {
        match self.clients.get(issi) {
            Some(client) => {
                self.update(issi, MmClient { state, ..client });
                Ok(())
            },
            None => Err(ClientMgrErr::ClientNotFound),
        }
    }

    /// Sets the energy economy of a known terminal.
    pub fn set_client_energy_saving(&mut self, issi: u32, energy_economy: EnergyEconomyAssignment)
        ensures
            final(self)@ == old(self)@.with(
                issi,
                MmClient { energy_economy, ..old(self)@.client(issi) },
            ),
    {
        if let Some(client) = self.clients.get(issi) {
            self.update(issi, MmClient { energy_economy, ..client });
        }
    }

    /// Sets whether a known terminal scans groups; tells whether it is known.
    pub fn set_client_scanning_enabled(&mut self, issi: u32, enabled: bool) -> (known: bool)
        ensures
            known == old(self)@.known(issi),
            final(self)@ == old(self)@.with(
                issi,
                MmClient { scanning_enabled: enabled, ..old(self)@.client(issi) },
            ),
    {
        match self.clients.get(issi) {
            Some(client) => {
                self.update(issi, MmClient { scanning_enabled: enabled, ..client });
                true
            },
            None => false,
        }
    }

    /// Sets the class of a known terminal.
    pub fn set_client_class_of_ms(&mut self, issi: u32, class_of_ms: Option<u32>)
        ensures
            final(self)@ == old(self)@.with(
                issi,
                MmClient { class_of_ms, ..old(self)@.client(issi) },
            ),
    {
        if let Some(client) = self.clients.get(issi) {
            self.update(issi, MmClient { class_of_ms, ..client });
        }
    }

    /// The groups of a terminal.
    pub fn client_groups(&self, issi: u32) -> (list: Vec<u32>)
        ensures
            list@ == self@.groups(issi),
    {
        let mut list: Vec<u32> = Vec::new();
        let mut i: usize = 0;
        while i < self.groups.len()
            invariant
                i <= self.groups@.len(),
                list@ == groups_of(self.groups@.take(i as int), issi),
            decreases self.groups@.len() - i,
        {
            let (member, _) = self.groups.entry(i);
            proof {
                assert(self.groups@.take(i + 1).drop_last() =~= self.groups@.take(i as int));
                assert(self.groups@.take(i + 1).last() == self.groups@[i as int]);
            }
            if member.issi == issi {
                list.push(member.gssi);
            }
            i = i + 1;
        }
        assert(self.groups@.take(self.groups@.len() as int) =~= self.groups@);
        list
    }

    /// The class of usage of a group; the lowest where the terminal is not in
    /// it.
    pub fn client_group_class_of_usage(&self, issi: u32, gssi: u32) -> (class: u8)
        ensures
            class == self@.class(issi, gssi),
    {
        match self.groups.get(Membership { issi, gssi }) {
            Some(class) => class,
            None => 0,
        }
    }

    /// Detaches a known terminal from all groups; tells whether it is known.
    pub fn client_detach_all_groups(&mut self, issi: u32) -> (known: bool)
        ensures
            known == old(self)@.known(issi),
            final(self)@ == old(self)@.without_groups(issi),
    {
        if !self.clients.contains_key(issi) {
            return false;
        }
        self.drop_groups(issi);
        true
    }

    /// Attaches a known terminal to a group or detaches it; tells whether that
    /// changed anything.
    pub fn client_group_attach_with_class_of_usage(
        &mut self,
        issi: u32,
        gssi: u32,
        attach: bool,
        class_of_usage: u8,
    ) -> (changed: Result<bool, ClientMgrErr>)
        ensures
            changed == match old(self)@.group_fault(issi, gssi) {
                Some(error) => Err(error),
                None => Ok::<bool, ClientMgrErr>(old(self)@.in_group(issi, gssi) != attach),
            },
            final(self)@ == old(self)@.with_group(issi, gssi, attach, class_of_usage),
    {
        if !self.clients.contains_key(issi) {
            return Err(ClientMgrErr::ClientNotFound);
        }
        if !is_assigned_ssi(gssi) {
            return Err(ClientMgrErr::NotGroup);
        }
        let member = Membership { issi, gssi };
        let before: bool = self.groups.contains_key(member);
        if attach {
            self.groups.insert(member, class_of_usage);
        } else {
            self.groups.remove(member);
        }
        Ok(before != attach)
    }

    /// Forgets a terminal; tells whether it was known.
    pub fn remove_client(&mut self, issi: u32) -> (known: bool)
        ensures
            known == old(self)@.known(issi),
            final(self)@ == old(self)@.removed(issi),
    {
        if !self.clients.contains_key(issi) {
            return false;
        }
        self.clients.remove(issi);
        self.drop_groups(issi);
        true
    }
}

impl MmClientMgr {
    /// The groups of all terminals, as they are reported.
    pub fn recovery_groups(&self) -> (list: Vec<RecoveryGroup>)
        ensures
            list@ == self@.groups.map_values(
                |entry: (Membership, u8)|
                    RecoveryGroup {
                        itsi: entry.0.issi as u64,
                        gssi: entry.0.gssi,
                        class_of_usage: entry.1,
                    },
            ),
    {
        let ghost wanted = self@.groups.map_values(
            |entry: (Membership, u8)|
                RecoveryGroup {
                    itsi: entry.0.issi as u64,
                    gssi: entry.0.gssi,
                    class_of_usage: entry.1,
                },
        );
        let mut list: Vec<RecoveryGroup> = Vec::new();
        let mut i: usize = 0;
        while i < self.groups.len()
            invariant
                i <= self.groups@.len(),
                wanted.len() == self.groups@.len(),
                forall|j: int|
                    0 <= j < wanted.len() ==> #[trigger] wanted[j] == (RecoveryGroup {
                        itsi: self.groups@[j].0.issi as u64,
                        gssi: self.groups@[j].0.gssi,
                        class_of_usage: self.groups@[j].1,
                    }),
                list@ == wanted.take(i as int),
            decreases self.groups@.len() - i,
        {
            let (member, class_of_usage) = self.groups.entry(i);
            list.push(
                RecoveryGroup { itsi: member.issi as u64, gssi: member.gssi, class_of_usage },
            );
            i = i + 1;
            assert(list@ =~= wanted.take(i as int));
        }
        assert(list@ =~= wanted);
        list
    }
}

} // verus!
