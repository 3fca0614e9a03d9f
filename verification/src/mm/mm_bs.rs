//! Mobility management of the base station.
use crate::bitbuffer::byte_of;
use crate::bluestation::gateways::{DmGatewayRegistry, DmMsRouteAddress};
use crate::bluestation::sec_cell::SsiRanges;
use crate::bluestation::subscribers::SubscriberRegistry;
use crate::cmce::pdu::HandoverChannelAllocation;
use crate::mm::clients::{is_assigned_ssi, MmClientMgr, MmClientState};
use crate::mm::model::T351_TIMESLOTS;
use crate::mm::pdu::{
    AcceptHead, AttachmentAttemptHead, AttachmentOperation, AttachmentResult, AuthenticationKey,
    AuthenticationMessage, EnergyEconomyAssignment, EnergySavingMode, GatewayAnswer,
    GatewayPayload, GatewayStateHead, GroupAccept, GroupIdentityAttachment, GroupIdentityDownlink,
    GroupIdentityUplink, LocationUpdateType, MmMessage, MmPdu, MmRequest, MmSwmiMessage,
    RecoveryAccepted, RecoveryGroup, RecoverySubscriber, RegistrationAttemptHead,
    RegistrationDecision, SeamlessHandover, ShortElement, StatusDownlink, StatusUplink,
    SubscriberUpdateAction, Type3FieldGeneric, UAttachDetachGroupIdentity, UAuthentication,
    ULocationUpdateDemand, UMmStatus, UpdateHead, UpdateReceiver, REATTACH_AFTER_REGISTRATION,
    REJECT_AUTHENTICATION_FAILURE, REJECT_MIGRATION_NOT_SUPPORTED, REJECT_NETWORK_FAILURE,
};
use crate::mm::pending::{
    asked_operations, local_attachment_results, named_groups, EnergyRequest, GroupOperation,
    PendingAttachment, PendingLocationAttachment, PendingRegistration, RegistrationHead,
};
use crate::store::Store;
use crate::table::Table;
use crate::swmi::SwmiEndpoint;
use crate::tdma::TdmaTime;
use vstd::prelude::*;

verus! {

/// What mobility management sees and reaches.
pub struct MmPort {
    pub subscribers: SubscriberRegistry,
    pub dm_gateways: DmGatewayRegistry,
    /// The messages that mobility management has handed on.
    pub queue: Vec<MmMessage>,
    /// The endpoint to the central SwMI.
    pub link: SwmiEndpoint,
    /// The groups and terminals that Brew carries, if it is in use.
    pub brew: Option<SsiRanges>,
}

/// The ranges that Brew carries.
pub open spec fn brew_view(brew: Option<SsiRanges>) -> Option<Seq<(u32, u32)>> {
    match brew {
        Some(ranges) => Some(ranges.ranges@),
        None => None,
    }
}

impl MmPort {
    /// Whether `later` differs at most in what was handed on.
    pub open spec fn same_but_queue(self, later: MmPort) -> bool {
        &&& later.subscribers == self.subscribers
        &&& later.dm_gateways == self.dm_gateways
        &&& later.link == self.link
        &&& later.brew == self.brew
    }

    /// Hands a message on.
    pub fn push(&mut self, message: MmMessage)
        ensures
            old(self).same_but_queue(*final(self)),
            crate::mm::pdu::message_views(final(self).queue@) == crate::mm::pdu::message_views(
                old(self).queue@,
            ).push(message@),
    {
        let ghost before = self.queue@;
        self.queue.push(message);
        assert(crate::mm::pdu::message_views(self.queue@) =~= crate::mm::pdu::message_views(
            before,
        ).push(message@));
    }

    /// Submits a message to the SwMI; tells whether it was taken.
    pub fn submit(&mut self, message: MmMessage) -> (taken: bool)
        ensures
            taken == old(self).link.takes(),
            old(self).same_but_queue(*final(self)),
            crate::mm::pdu::message_views(final(self).queue@) == if taken {
                crate::mm::pdu::message_views(old(self).queue@).push(message@)
            } else {
                crate::mm::pdu::message_views(old(self).queue@)
            },
    {
        if self.link.takes() {
            self.push(message);
            true
        } else {
            false
        }
    }
}

/// What an uplink PDU came with.
#[derive(Debug)]
pub struct MmUplink {
    pub ssi: u32,
    pub handle: u32,
    /// The cell that will serve the terminal, where the PDU came inside a
    /// handover preparation.
    pub forward_registration_target_station_id: Option<String>,
}

/// Mobility management.
pub struct MmBs {
    client_mgr: MmClientMgr,
    next_id: u64,
    registrations: Store<u64, PendingRegistration>,
    deadlines: Table<u64, TdmaTime>,
    attachments: Store<u64, PendingAttachment>,
    location_attachments: Store<u64, PendingLocationAttachment>,
    energy: Table<u64, EnergyRequest>,
    auth: Table<AuthenticationKey, u64>,
    authenticated: Table<u64, bool>,
    recoveries: Table<u64, bool>,
    now: TdmaTime,
}

impl View for MmBs {
    type V = crate::mm::model::MmView;

    closed spec fn view(&self) -> crate::mm::model::MmView {
        crate::mm::model::MmView {
            clients: self.client_mgr@,
            next_id: self.next_id,
            registrations: self.registrations@,
            deadlines: self.deadlines@,
            attachments: self.attachments@,
            location_attachments: self.location_attachments@,
            energy: self.energy@,
            auth: self.auth@,
            authenticated: self.authenticated@,
            recoveries: self.recoveries@,
            now: self.now,
        }
    }
}

/// Bit `index` of an element, counted from its first bit. Bits that are not
/// there are not set.
pub open spec fn element_bit(field: Type3FieldGeneric, index: int) -> bool {
    if index < 64 {
        (field.data >> ((63 - index) as u64)) & 1 == 1
    } else if (index - 64) / 8 < field.raw@.len() {
        crate::bitbuffer::byte_bit(field.raw@, index - 64)
    } else {
        false
    }
}

/// The random number at the end of an authentication element: its last 80 bits.
pub open spec fn challenge_of(field: Type3FieldGeneric, rand: Seq<u8>) -> bool {
    &&& rand.len() == 10
    &&& forall|i: int|
        0 <= i < 80 ==> crate::bitbuffer::byte_bit(rand, i) == #[trigger] element_bit(
            field,
            field.len - 80 + i,
        )
}

impl MmBs {
    /// No request stands twice.
    pub open spec fn wf(&self) -> bool {
        &&& crate::table::distinct(self@.registrations)
        &&& crate::table::distinct(self@.attachments)
        &&& crate::table::distinct(self@.location_attachments)
    }

    /// The state with what surrounds it.
    pub open spec fn run(&self, port: MmPort) -> crate::mm::model::MmRun {
        crate::mm::model::MmRun {
            mm: self@,
            subscribers: port.subscribers@,
            gateways: port.dm_gateways@,
            queue: crate::mm::pdu::message_views(port.queue@),
            link: port.link,
            brew: brew_view(port.brew),
        }
    }

    /// Nothing is known and nothing waits.
    pub fn new() -> (mm: Self)
        ensures
            mm.wf(),
            mm@ == (crate::mm::model::MmView {
                clients: crate::mm::clients::ClientsView::empty(),
                next_id: 1,
                registrations: Seq::empty(),
                deadlines: Seq::empty(),
                attachments: Seq::empty(),
                location_attachments: Seq::empty(),
                energy: Seq::empty(),
                auth: Seq::empty(),
                authenticated: Seq::empty(),
                recoveries: Seq::empty(),
                now: TdmaTime { h: 0, m: 1, f: 1, t: 1 },
            }),
    {
        MmBs {
            client_mgr: MmClientMgr::new(),
            next_id: 1,
            registrations: Store::new(),
            deadlines: Table::new(),
            attachments: Store::new(),
            location_attachments: Store::new(),
            energy: Table::new(),
            auth: Table::new(),
            authenticated: Table::new(),
            recoveries: Table::new(),
            now: TdmaTime::default(),
        }
    }

    /// The random number at the end of an authentication element, whether or
    /// not a cipher key is asked for before it; none where it is too short.
    pub fn authentication_uplink(field: &Type3FieldGeneric) -> (challenge: Option<[u8; 10]>)
        ensures
            match challenge {
                Some(rand) => field.len >= 80 && challenge_of(*field, rand@),
                None => field.len < 80,
            },
    {
        if field.len < 80 {
            return None;
        }
        let start: usize = field.len - 80;
        let mut rand: [u8; 10] = [0; 10];
        let mut byte: usize = 0;
        while byte < 10
            invariant
                byte <= 10,
                start == field.len - 80,
                forall|i: int|
                    0 <= i < byte * 8 ==> crate::bitbuffer::byte_bit(rand@, i)
                        == #[trigger] element_bit(*field, start + i),
            decreases 10 - byte,
        {
            let b0: bool = get_element_bit(field, start + byte * 8);
            let b1: bool = get_element_bit(field, start + byte * 8 + 1);
            let b2: bool = get_element_bit(field, start + byte * 8 + 2);
            let b3: bool = get_element_bit(field, start + byte * 8 + 3);
            let b4: bool = get_element_bit(field, start + byte * 8 + 4);
            let b5: bool = get_element_bit(field, start + byte * 8 + 5);
            let b6: bool = get_element_bit(field, start + byte * 8 + 6);
            let b7: bool = get_element_bit(field, start + byte * 8 + 7);
            let value: u8 = byte_of(b0, b1, b2, b3, b4, b5, b6, b7);
            let ghost before = rand@;
            rand[byte] = value;
            proof {
                assert forall|i: int| 0 <= i < (byte + 1) * 8 implies crate::bitbuffer::byte_bit(
                    rand@,
                    i,
                ) == #[trigger] element_bit(*field, start + i) by {
                    if i < byte * 8 {
                        assert(i / 8 < byte);
                        assert(crate::bitbuffer::byte_bit(before, i) == element_bit(
                            *field,
                            start + i,
                        ));
                    } else {
                        assert(i / 8 == byte);
                        let k = i % 8;
                        assert(i == byte * 8 + k);
                    }
                }
            }
            byte = byte + 1;
        }
        Some(rand)
    }

    fn next_swmi_command_id(&mut self) -> (id: u64)
        ensures
            id == old(self)@.next_id,
            final(self)@ == (crate::mm::model::MmView {
                next_id: crate::mm::model::number_after(old(self)@.next_id),
                ..old(self)@
            }),
    {
        let id: u64 = self.next_id;
        self.next_id = if id == 0xffff_ffff_ffff_ffff {
            1
        } else {
            id + 1
        };
        id
    }

    /// The key of a terminal's authentication on a handle.
    pub fn authentication_correlation_key(issi: u32, air_handle: u32) -> (key: AuthenticationKey)
        ensures
            key == (AuthenticationKey { issi, air_handle }),
    {
        AuthenticationKey { issi, air_handle }
    }

    /// The energy economy that a terminal is given: the mode it asks for, from
    /// the next slot of the control channel on.
    pub fn energy_economy_assignment(&self, mode: EnergySavingMode) -> (assignment:
        EnergyEconomyAssignment)
        ensures
            assignment == crate::mm::model::economy_at(self@.now, mode),
    {
        if mode == EnergySavingMode::StayAlive {
            return EnergyEconomyAssignment::stay_alive();
        }
        let start: TdmaTime = self.now.add_timeslots(1).forward_to_timeslot(1);
        EnergyEconomyAssignment {
            mode,
            frame_number: Some(start.f),
            multiframe_number: Some(start.m),
        }
    }

    fn store_energy_economy(
        &mut self,
        port: &mut MmPort,
        issi: u32,
        assignment: EnergyEconomyAssignment,
    )
        requires
            old(self).wf(),
        ensures
            final(self).wf(),
            final(self).run(*final(port)) == old(self).run(*old(port)).energy_stored(
                issi,
                assignment,
            ),
    {
        self.client_mgr.set_client_energy_saving(issi, assignment);
        port.subscribers.set_energy_economy(
            issi,
            assignment.mode.code(),
            assignment.frame_number,
            assignment.multiframe_number,
        );
    }

    fn apply_energy_economy(
        &mut self,
        port: &mut MmPort,
        issi: u32,
        assignment: EnergyEconomyAssignment,
    )
        requires
            old(self).wf(),
        ensures
            final(self).wf(),
            final(self).run(*final(port)) == old(self).run(*old(port)).energy_applied(
                issi,
                assignment,
            ),
    {
        self.store_energy_economy(port, issi, assignment);
        if assignment.mode != EnergySavingMode::StayAlive {
            port.subscribers.set_energy_economy_activation_pending(issi, true);
        }
    }

    fn emit_subscriber_update(
        &self,
        port: &mut MmPort,
        issi: u32,
        groups: Vec<u32>,
        action: SubscriberUpdateAction,
    )
        ensures
            self.run(*final(port)) == self.run(*old(port)).emitted(issi, groups@, action),
    {
        let ghost all = groups@;
        let mut classes: Vec<u8> = Vec::new();
        let mut i: usize = 0;
        while i < groups.len()
            invariant
                i <= groups@.len(),
                groups@ == all,
                classes@ == all.map_values(
                    |gssi: u32| self@.clients.class(issi, gssi),
                ).take(i as int),
            decreases groups@.len() - i,
        {
            classes.push(self.client_mgr.client_group_class_of_usage(issi, groups[i]));
            i = i + 1;
            assert(classes@ =~= all.map_values(
                |gssi: u32| self@.clients.class(issi, gssi),
            ).take(i as int));
        }
        assert(classes@ =~= all.map_values(|gssi: u32| self@.clients.class(issi, gssi)));
        let update: Option<MmMessage> = match &port.brew {
            Some(ranges) => {
                let brew_groups: Vec<u32> = carried_groups(ranges, &groups);
                let wanted: bool = match action {
                    SubscriberUpdateAction::Register
                    | SubscriberUpdateAction::Deregister => ranges.contains(issi),
                    SubscriberUpdateAction::Affiliate
                    | SubscriberUpdateAction::Deaffiliate => brew_groups.len() > 0,
                    SubscriberUpdateAction::ScanningState => false,
                };
                if wanted {
                    Some(
                        MmMessage::Update {
                            head: UpdateHead {
                                to: UpdateReceiver::Brew,
                                issi,
                                action,
                                scanning_enabled: None,
                            },
                            groups: brew_groups,
                            classes: Vec::new(),
                        },
                    )
                } else {
                    None
                }
            },
            None => None,
        };
        if let Some(message) = update {
            port.push(message);
        }
        port.push(
            MmMessage::Update {
                head: UpdateHead {
                    to: UpdateReceiver::Cmce,
                    issi,
                    action,
                    scanning_enabled: None,
                },
                groups,
                classes,
            },
        );
    }

    fn publish_dm_gateway_state(&mut self, port: &mut MmPort, gateway_issi: u32, active: bool)
        requires
            old(self).wf(),
        ensures
            final(self).wf(),
            final(self).run(*final(port)) == old(self).run(*old(port)).published(
                gateway_issi,
                active,
            ),
    {
        if !port.link.is_online() {
            return;
        }
        let session = port.dm_gateways.session(gateway_issi);
        let addresses: Vec<DmMsRouteAddress> = if session.is_some() {
            port.dm_gateways.addresses_of(gateway_issi)
        } else {
            Vec::new()
        };
        let dmo_carrier = match session {
            Some(found) => found.dmo_carrier,
            None => None,
        };
        let command_id: u64 = self.next_swmi_command_id();
        port.submit(
            MmMessage::GatewayState {
                head: GatewayStateHead {
                    command_id,
                    gateway_issi: gateway_issi as u64,
                    active,
                    dmo_carrier,
                },
                addresses,
            },
        );
    }

    /// Removes a terminal's local state: because it detaches, or because the
    /// SwMI has moved it to another cell, in which case nothing is echoed.
    pub fn remove_local_subscriber(&mut self, port: &mut MmPort, issi: u32) -> (known: bool)
        requires
            old(self).wf(),
        ensures
            final(self).wf(),
            known == old(self)@.clients.known(issi),
            final(self).run(*final(port)) == old(self).run(*old(port)).removed(issi),
    {
        proof {
            reveal(crate::mm::model::MmRun::removed);
        }
        let groups: Vec<u32> = self.client_mgr.client_groups(issi);
        if !self.client_mgr.remove_client(issi) {
            return false;
        }
        port.subscribers.deregister(issi);
        if port.dm_gateways.is_active(issi) {
            port.dm_gateways.deactivate(issi);
            self.publish_dm_gateway_state(port, issi, false);
        }
        if groups.len() > 0 {
            self.emit_subscriber_update(port, issi, groups, SubscriberUpdateAction::Deaffiliate);
        }
        self.emit_subscriber_update(port, issi, Vec::new(), SubscriberUpdateAction::Deregister);
        true
    }

    /// U-ITSI DETACH.
    pub fn rx_u_itsi_detach(&mut self, port: &mut MmPort, issi: u32)
        requires
            old(self).wf(),
        ensures
            final(self).wf(),
            final(self).run(*final(port)) == old(self).run(*old(port)).itsi_detach(issi),
    {
        if port.link.is_online() {
            let command_id: u64 = self.next_swmi_command_id();
            port.submit(
                MmMessage::Request(
                    MmRequest::DeregistrationNotice { command_id, itsi: issi as u64 },
                ),
            );
        }
        self.remove_local_subscriber(port, issi);
    }
}

fn get_element_bit(field: &Type3FieldGeneric, index: usize) -> (bit: bool)
    ensures
        bit == element_bit(*field, index as int),
{
    if index < 64 {
        let shift: u64 = (63 - index) as u64;
        (field.data >> shift) & 1 == 1
    } else {
        let place: usize = index - 64;
        if place / 8 < field.raw.len() {
            let shift: u8 = (7 - place % 8) as u8;
            (field.raw[place / 8] >> shift) & 1 == 1
        } else {
            false
        }
    }
}

fn carried_groups(ranges: &SsiRanges, groups: &Vec<u32>) -> (list: Vec<u32>)
    ensures
        list@ == crate::mm::model::carried(ranges.ranges@, groups@),
{
    let mut list: Vec<u32> = Vec::new();
    let mut i: usize = 0;
    while i < groups.len()
        invariant
            i <= groups@.len(),
            list@ == crate::mm::model::carried(ranges.ranges@, groups@.take(i as int)),
        decreases groups@.len() - i,
    {
        proof {
            assert(groups@.take(i + 1).drop_last() =~= groups@.take(i as int));
            assert(groups@.take(i + 1).last() == groups@[i as int]);
        }
        if ranges.contains(groups[i]) {
            list.push(groups[i]);
        }
        i = i + 1;
    }
    assert(groups@.take(groups@.len() as int) =~= groups@);
    list
}

/// Whether a challenge is the one in an element, if there is one.
pub open spec fn is_challenge(
    field: Option<Type3FieldGeneric>,
    challenge: Option<[u8; 10]>,
) -> bool {
    match (field, challenge) {
        (Some(element), Some(rand)) => element.len >= 80 && challenge_of(element, rand@),
        (Some(element), None) => element.len < 80,
        (None, None) => true,
        (None, Some(_)) => false,
    }
}

/// An element holds at most one challenge.
pub proof fn law_challenge_is_unique(
    field: Option<Type3FieldGeneric>,
    left: Option<[u8; 10]>,
    right: Option<[u8; 10]>,
)
    requires
        is_challenge(field, left),
        is_challenge(field, right),
    ensures
        left == right,
{
    if let Some(element) = field {
        if element.len >= 80 {
            let a = left->0;
            let b = right->0;
            assert forall|k: int| 0 <= k < 10 implies a@[k] == b@[k] by {
                assert forall|n: int| 0 <= n < 8 implies crate::bitbuffer::bit_of(a@[k], n)
                    == #[trigger] crate::bitbuffer::bit_of(b@[k], n) by {
                    let i = k * 8 + n;
                    assert(i / 8 == k && i % 8 == n);
                    assert(element_bit(element, element.len - 80 + i)
                        == crate::bitbuffer::byte_bit(a@, i));
                }
                assert(crate::bitbuffer::bit_of(b@[k], 0) == crate::bitbuffer::bit_of(a@[k], 0));
                assert(crate::bitbuffer::bit_of(b@[k], 1) == crate::bitbuffer::bit_of(a@[k], 1));
                assert(crate::bitbuffer::bit_of(b@[k], 2) == crate::bitbuffer::bit_of(a@[k], 2));
                assert(crate::bitbuffer::bit_of(b@[k], 3) == crate::bitbuffer::bit_of(a@[k], 3));
                assert(crate::bitbuffer::bit_of(b@[k], 4) == crate::bitbuffer::bit_of(a@[k], 4));
                assert(crate::bitbuffer::bit_of(b@[k], 5) == crate::bitbuffer::bit_of(a@[k], 5));
                assert(crate::bitbuffer::bit_of(b@[k], 6) == crate::bitbuffer::bit_of(a@[k], 6));
                assert(crate::bitbuffer::bit_of(b@[k], 7) == crate::bitbuffer::bit_of(a@[k], 7));
                lemma_bits_determine_byte(a@[k], b@[k]);
            }
            assert(a =~= b);
        }
    }
}

proof fn lemma_bits_determine_byte(a: u8, b: u8)
    by (bit_vector)
    requires
        ((a >> 7u8) & 1 == 1) == ((b >> 7u8) & 1 == 1),
        ((a >> 6u8) & 1 == 1) == ((b >> 6u8) & 1 == 1),
        ((a >> 5u8) & 1 == 1) == ((b >> 5u8) & 1 == 1),
        ((a >> 4u8) & 1 == 1) == ((b >> 4u8) & 1 == 1),
        ((a >> 3u8) & 1 == 1) == ((b >> 3u8) & 1 == 1),
        ((a >> 2u8) & 1 == 1) == ((b >> 2u8) & 1 == 1),
        ((a >> 1u8) & 1 == 1) == ((b >> 1u8) & 1 == 1),
        ((a >> 0u8) & 1 == 1) == ((b >> 0u8) & 1 == 1),
    ensures
        a == b,
{
}

/// The groups that a location update names.
pub open spec fn demand_groups(pdu: ULocationUpdateDemand) -> Option<
    (bool, Option<Seq<GroupIdentityUplink>>),
> {
    match pdu.group_identity_location_demand {
        Some(demand) => Some(
            (
                demand.replace_all,
                match demand.group_identity_uplink {
                    Some(groups) => Some(groups@),
                    None => None,
                },
            ),
        ),
        None => None,
    }
}

/// Whether the station supports what a location update asks for.
pub open spec fn supports(pdu: ULocationUpdateDemand) -> bool {
    &&& pdu.location_update_type != LocationUpdateType::MigratingLocationUpdating
    &&& pdu.location_update_type != LocationUpdateType::DisabledMsUpdating
    &&& !pdu.request_to_append_la
    &&& !pdu.cipher_control
    &&& !pdu.has_ciphering_parameters
}

/// A location update as the station reads it.
pub open spec fn demand_view(
    prim: MmUplink,
    pdu: ULocationUpdateDemand,
    challenge: Option<[u8; 10]>,
) -> crate::mm::model::DemandView {
    crate::mm::model::DemandView {
        issi: prim.ssi,
        handle: prim.handle,
        target: prim.forward_registration_target_station_id,
        location_update_type: pdu.location_update_type,
        supported: supports(pdu),
        class_of_ms: pdu.class_of_ms,
        energy_saving_mode: pdu.energy_saving_mode,
        address_extension: pdu.address_extension,
        groups: demand_groups(pdu),
        challenge,
    }
}

fn copy_name(name: &Option<String>) -> (copy: Option<String>)
    ensures
        copy == *name,
{
    match name {
        Some(text) => Some(text.clone()),
        None => None,
    }
}

impl MmBs {
    /// Whether the station supports what a location update asks for.
    pub fn feature_check_u_location_update_demand(pdu: &ULocationUpdateDemand) -> (supported: bool)
        ensures
            supported == supports(*pdu),
    {
        pdu.location_update_type != LocationUpdateType::MigratingLocationUpdating
            && pdu.location_update_type != LocationUpdateType::DisabledMsUpdating
            && !pdu.request_to_append_la && !pdu.cipher_control && !pdu.has_ciphering_parameters
    }

    /// Whether the station supports what a change to groups asks for: it must
    /// name groups.
    pub fn feature_check_u_attach_detach_group_identity(pdu: &UAttachDetachGroupIdentity) -> (
        supported: bool)
        ensures
            supported == (pdu.group_identity_uplink is Some),
    {
        pdu.group_identity_uplink.is_some()
    }

    fn register_client(&mut self, port: &mut MmPort, issi: u32)
        requires
            old(self).wf(),
            is_assigned_ssi(issi),
        ensures
            final(self).wf(),
            final(self).run(*final(port)) == old(self).run(*old(port)).registered(issi),
    {
        let _ = self.client_mgr.try_register_client(issi, true);
        port.subscribers.register(issi);
        self.emit_subscriber_update(port, issi, Vec::new(), SubscriberUpdateAction::Register);
    }

    fn attach_client(&mut self, port: &mut MmPort, issi: u32)
        requires
            old(self).wf(),
        ensures
            final(self).wf(),
            *final(port) == *old(port),
            final(self).run(*final(port)) == old(self).run(*old(port)).attached(issi),
    {
        let _ = self.client_mgr.set_client_state(issi, MmClientState::Attached);
    }

    fn clear_groups(&mut self, port: &mut MmPort, issi: u32)
        requires
            old(self).wf(),
        ensures
            final(self).wf(),
            final(self).run(*final(port)) == old(self).run(*old(port)).groups_cleared(issi),
    {
        proof {
            reveal(crate::mm::model::MmRun::groups_cleared);
        }
        let groups: Vec<u32> = self.client_mgr.client_groups(issi);
        let known: bool = self.client_mgr.client_detach_all_groups(issi);
        if known && groups.len() > 0 {
            let ghost before = port.subscribers@;
            let ghost start = *port;
            let mut i: usize = 0;
            while i < groups.len()
                invariant
                    i <= groups@.len(),
                    port.subscribers@ == crate::mm::model::registry_detached(
                        before,
                        issi,
                        groups@.take(i as int),
                    ),
                    port.dm_gateways == start.dm_gateways,
                    port.queue == start.queue,
                    port.link == start.link,
                    port.brew == start.brew,
                decreases groups@.len() - i,
            {
                proof {
                    assert(groups@.take(i + 1).drop_last() =~= groups@.take(i as int));
                    assert(groups@.take(i + 1).last() == groups@[i as int]);
                }
                port.subscribers.deaffiliate(issi, groups[i]);
                i = i + 1;
            }
            assert(groups@.take(groups@.len() as int) =~= groups@);
            self.emit_subscriber_update(port, issi, groups, SubscriberUpdateAction::Deaffiliate);
        }
    }

    fn change_group(
        &mut self,
        port: &mut MmPort,
        issi: u32,
        gssi: u32,
        attach: bool,
        class_of_usage: u8,
    ) -> (changed: Option<bool>)
        requires
            old(self).wf(),
        ensures
            final(self).wf(),
            match changed {
                Some(c) => {
                    &&& old(self)@.clients.group_fault(issi, gssi) is None
                    &&& c == (old(self)@.clients.in_group(issi, gssi) != attach)
                    &&& final(self).run(*final(port)) == old(self).run(*old(port)).with_group(
                        issi,
                        gssi,
                        attach,
                        class_of_usage,
                    )
                },
                None => {
                    &&& old(self)@.clients.group_fault(issi, gssi) is Some
                    &&& final(self).run(*final(port)) == old(self).run(*old(port))
                },
            },
    {
        match self.client_mgr.client_group_attach_with_class_of_usage(
            issi,
            gssi,
            attach,
            class_of_usage,
        ) {
            Ok(changed) => {
                if changed {
                    if attach {
                        port.subscribers.affiliate(issi, gssi);
                    } else {
                        port.subscribers.deaffiliate(issi, gssi);
                    }
                }
                Some(changed)
            },
            Err(_) => None,
        }
    }

    fn tell_groups(
        &self,
        port: &mut MmPort,
        issi: u32,
        affiliated: Vec<u32>,
        deaffiliated: Vec<u32>,
    )
        ensures
            self.run(*final(port)) == self.run(*old(port)).emitted_some(
                issi,
                affiliated@,
                SubscriberUpdateAction::Affiliate,
            ).emitted_some(issi, deaffiliated@, SubscriberUpdateAction::Deaffiliate),
    {
        if affiliated.len() > 0 {
            self.emit_subscriber_update(port, issi, affiliated, SubscriberUpdateAction::Affiliate);
        }
        if deaffiliated.len() > 0 {
            self.emit_subscriber_update(
                port,
                issi,
                deaffiliated,
                SubscriberUpdateAction::Deaffiliate,
            );
        }
    }

    /// Attaches and detaches the groups of a request; returns those that the
    /// response names.
    pub fn try_attach_detach_groups(
        &mut self,
        port: &mut MmPort,
        issi: u32,
        groups: &Vec<GroupIdentityUplink>,
    ) -> (answer: Vec<GroupIdentityDownlink>)
        requires
            old(self).wf(),
        ensures
            final(self).wf(),
            final(self).run(*final(port)) == old(self).run(*old(port)).groups_tried(issi, groups@),
            answer@ == old(self).run(*old(port)).groups_answered(issi, groups@),
    {
        let ghost before = self.run(*port);
        let mut answer: Vec<GroupIdentityDownlink> = Vec::new();
        let mut affiliated: Vec<u32> = Vec::new();
        let mut deaffiliated: Vec<u32> = Vec::new();
        let mut i: usize = 0;
        while i < groups.len()
            invariant
                i <= groups@.len(),
                self.wf(),
                ({
                    let done = before.groups_changed(issi, groups@.take(i as int));
                    &&& self.run(*port) == done.run
                    &&& answer@ == done.answer
                    &&& affiliated@ == done.affiliated
                    &&& deaffiliated@ == done.deaffiliated
                }),
            decreases groups@.len() - i,
        {
            proof {
                assert(groups@.take(i + 1).drop_last() =~= groups@.take(i as int));
                assert(groups@.take(i + 1).last() == groups@[i as int]);
            }
            let group: GroupIdentityUplink = groups[i];
            i = i + 1;
            let gssi: u32 = match group.gssi {
                Some(gssi) => gssi,
                None => continue,
            };
            if group.vgssi.is_some() || group.address_extension.is_some() {
                continue;
            }
            let detach: bool = group.group_identity_detachment_uplink.is_some();
            let class: u8 = if detach {
                0
            } else {
                group.class()
            };
            if let Some(changed) = self.change_group(port, issi, gssi, !detach, class) {
                if changed {
                    if detach {
                        deaffiliated.push(gssi);
                    } else {
                        affiliated.push(gssi);
                    }
                }
                answer.push(
                    GroupIdentityDownlink {
                        gssi,
                        attachment: if detach {
                            None
                        } else {
                            Some(
                                GroupIdentityAttachment {
                                    lifetime: REATTACH_AFTER_REGISTRATION,
                                    class_of_usage: group.class(),
                                },
                            )
                        },
                        detachment: group.group_identity_detachment_uplink,
                    },
                );
            }
        }
        assert(groups@.take(groups@.len() as int) =~= groups@);
        self.tell_groups(port, issi, affiliated, deaffiliated);
        answer
    }

    /// Carries out a decision of the SwMI on groups; returns whether one was
    /// rejected and those that the response names.
    fn apply_swmi_attachment_state(
        &mut self,
        port: &mut MmPort,
        has_rejection: bool,
        pending: &PendingAttachment,
        results: &Vec<AttachmentResult>,
    ) -> (outcome: (bool, Vec<GroupIdentityDownlink>))
        requires
            old(self).wf(),
            results@.len() == pending.operations@.len(),
        ensures
            final(self).wf(),
            ({
                let settled = old(self).run(*old(port)).groups_settled(
                    has_rejection,
                    pending@,
                    results@,
                );
                &&& final(self).run(*final(port)) == settled.run
                &&& outcome.0 == settled.rejected
                &&& outcome.1@ == settled.answer
            }),
    {
        proof {
            reveal(crate::mm::model::MmRun::groups_settled);
        }
        let issi: u32 = pending.itsi;
        if pending.replace_all && any_attached(results) {
            self.clear_groups(port, issi);
        }
        let ghost before = self.run(*port);
        let mut rejected: bool = has_rejection;
        let mut answer: Vec<GroupIdentityDownlink> = Vec::new();
        let mut affiliated: Vec<u32> = Vec::new();
        let mut deaffiliated: Vec<u32> = Vec::new();
        let mut i: usize = 0;
        while i < results.len()
            invariant
                i <= results@.len(),
                results@.len() == pending.operations@.len(),
                issi == pending.itsi,
                self.wf(),
                ({
                    let done = before.groups_decided(
                        issi,
                        has_rejection,
                        results@,
                        pending.operations@,
                        i as nat,
                    );
                    &&& self.run(*port) == done.run
                    &&& answer@ == done.answer
                    &&& affiliated@ == done.affiliated
                    &&& deaffiliated@ == done.deaffiliated
                    &&& rejected == done.rejected
                }),
            decreases results@.len() - i,
        {
            let result: AttachmentResult = results[i];
            let operation: GroupOperation = pending.operations[i];
            i = i + 1;
            let gssi: u32 = result.operation.gssi;
            let detach: bool = result.operation.detach;
            if !result.accepted {
                rejected = true;
                answer.push(
                    GroupIdentityDownlink { gssi, attachment: None, detachment: Some(0) },
                );
                continue;
            }
            match self.change_group(port, issi, gssi, !detach, result.operation.class_of_usage) {
                Some(changed) => {
                    if changed {
                        if detach {
                            deaffiliated.push(gssi);
                        } else {
                            affiliated.push(gssi);
                        }
                    }
                    answer.push(
                        GroupIdentityDownlink {
                            gssi,
                            attachment: if detach {
                                None
                            } else {
                                Some(
                                    GroupIdentityAttachment {
                                        lifetime: REATTACH_AFTER_REGISTRATION,
                                        class_of_usage: result.operation.class_of_usage,
                                    },
                                )
                            },
                            detachment: if detach {
                                match operation.detachment {
                                    Some(reason) => Some(reason),
                                    None => Some(0),
                                }
                            } else {
                                None
                            },
                        },
                    );
                },
                None => {
                    rejected = true;
                },
            }
        }
        self.tell_groups(port, issi, affiliated, deaffiliated);
        (rejected, answer)
    }
}

fn any_attached(results: &Vec<AttachmentResult>) -> (r: bool)
    ensures
        r == crate::mm::model::attaches(results@),
{
    let mut i: usize = 0;
    while i < results.len()
        invariant
            i <= results@.len(),
            forall|j: int|
                0 <= j < i ==> !((#[trigger] results@[j]).accepted && !results@[j].operation.detach),
        decreases results@.len() - i,
    {
        if results[i].accepted && !results[i].operation.detach {
            assert(results@[i as int].accepted);
            return true;
        }
        i = i + 1;
    }
    false
}

impl MmBs {
    fn send_d_location_update_accept_with_handover(
        &self,
        port: &mut MmPort,
        registration: RegistrationHead,
        group_accept: Option<GroupAccept>,
        groups: Vec<GroupIdentityDownlink>,
        seamless_handover: Option<SeamlessHandover>,
        rua_requested: bool,
    )
        ensures
            self.run(*final(port)) == self.run(*old(port)).pushed(
                crate::mm::model::accept(
                    registration,
                    group_accept,
                    groups@,
                    seamless_handover,
                    rua_requested,
                ),
            ),
    {
        let authentication_downlink: Option<ShortElement> =
            if registration.authentication_successful {
            Some(ShortElement { len: 3, data: 4 })
        } else {
            None
        };
        let proprietary: Option<ShortElement> = if rua_requested {
            Some(ShortElement { len: 15, data: 148 })
        } else {
            None
        };
        port.push(
            MmMessage::Accept {
                handle: registration.air_handle,
                head: AcceptHead {
                    location_update_type: registration.location_update_type,
                    ssi: registration.itsi,
                    energy_saving_information: registration.energy_saving_information,
                    group_accept,
                    authentication_downlink,
                    proprietary,
                    seamless_handover,
                },
                groups,
            },
        );
    }

    fn send_d_location_update_reject_with_cause(
        &self,
        port: &mut MmPort,
        issi: u32,
        handle: u32,
        location_update_type: LocationUpdateType,
        address_extension: Option<u64>,
        reject_cause: u8,
    )
        ensures
            self.run(*final(port)) == self.run(*old(port)).pushed(
                crate::mm::model::reject(
                    issi,
                    handle,
                    location_update_type,
                    address_extension,
                    reject_cause,
                ),
            ),
    {
        port.push(
            MmMessage::Downlink {
                issi,
                handle,
                pdu: MmPdu::LocationUpdateReject {
                    location_update_type,
                    reject_cause,
                    address_extension,
                },
            },
        );
    }

    fn send_d_location_update_command(&self, port: &mut MmPort, issi: u32, handle: u32)
        ensures
            self.run(*final(port)) == self.run(*old(port)).pushed(
                crate::mm::model::command_report(issi, handle),
            ),
    {
        port.push(
            MmMessage::Downlink {
                issi,
                handle,
                pdu: MmPdu::LocationUpdateCommand { group_identity_report: true },
            },
        );
    }

    fn send_d_mm_status_energy_saving(
        &self,
        port: &mut MmPort,
        issi: u32,
        handle: u32,
        information: EnergyEconomyAssignment,
    )
        ensures
            self.run(*final(port)) == self.run(*old(port)).pushed(
                crate::mm::pdu::MmMessageView::Downlink {
                    issi,
                    handle,
                    pdu: MmPdu::EnergySavingResponse { information },
                },
            ),
    {
        port.push(
            MmMessage::Downlink { issi, handle, pdu: MmPdu::EnergySavingResponse { information } },
        );
    }

    fn send_d_mm_status_gateway(
        &self,
        port: &mut MmPort,
        issi: u32,
        handle: u32,
        status_downlink: StatusDownlink,
        answer: GatewayAnswer,
    )
        ensures
            self.run(*final(port)) == self.run(*old(port)).pushed(
                crate::mm::model::gateway_status(issi, handle, status_downlink, answer),
            ),
    {
        port.push(
            MmMessage::Downlink {
                issi,
                handle,
                pdu: MmPdu::GatewayStatus { status_downlink, answer },
            },
        );
    }

    /// U-LOCATION UPDATE DEMAND. While the SwMI is connected it owns the
    /// decision; otherwise the station registers the terminal alone.
    pub fn rx_u_location_update_demand(
        &mut self,
        port: &mut MmPort,
        prim: &MmUplink,
        pdu: &ULocationUpdateDemand,
    )
        requires
            old(self).wf(),
        ensures
            final(self).wf(),
            exists|challenge: Option<[u8; 10]>| #[trigger]
                is_challenge(pdu.authentication_uplink, challenge) && final(self).run(*final(port))
                    == old(self).run(*old(port)).location_update(
                    demand_view(*prim, *pdu, challenge),
                ),
    {
        proof {
            reveal(crate::mm::model::MmRun::location_update);
        }
        let challenge: Option<[u8; 10]> = match &pdu.authentication_uplink {
            Some(field) => MmBs::authentication_uplink(field),
            None => None,
        };
        let ghost demand = demand_view(*prim, *pdu, challenge);
        let ghost before = self.run(*port);
        assert(is_challenge(pdu.authentication_uplink, challenge));
        let migrates: bool = pdu.location_update_type
            == LocationUpdateType::MigratingLocationUpdating || pdu.location_update_type
            == LocationUpdateType::ServiceRestorationMigratingLocationUpdating;
        if migrates {
            self.send_d_location_update_reject_with_cause(
                port,
                prim.ssi,
                prim.handle,
                pdu.location_update_type,
                pdu.address_extension,
                REJECT_MIGRATION_NOT_SUPPORTED,
            );
            assert(self.run(*port) == before.location_update(demand));
            return;
        }
        if !MmBs::feature_check_u_location_update_demand(pdu) {
            assert(self.run(*port) == before.location_update(demand));
            return;
        }
        if port.link.is_online() {
            let command_id: u64 = self.next_swmi_command_id();
            if port.link.takes() {
                self.forward_registration(port, prim, pdu, challenge, command_id);
                assert(self.run(*port) == before.location_update(demand));
                return;
            }
        }
        self.register_alone(port, prim, pdu, Ghost(challenge));
        assert(self.run(*port) == before.location_update(demand));
    }

    fn forward_registration(
        &mut self,
        port: &mut MmPort,
        prim: &MmUplink,
        pdu: &ULocationUpdateDemand,
        challenge: Option<[u8; 10]>,
        command_id: u64,
    )
        requires
            old(self).wf(),
            old(port).link.takes(),
        ensures
            final(self).wf(),
            final(self).run(*final(port)) == ({
                let demand = demand_view(*prim, *pdu, challenge);
                let run = old(self).run(*old(port));
                run.pushed(demand.attempt(command_id, run.mm.now)).awaiting(
                    demand.issi,
                    true,
                ).waiting_for(command_id, demand.waiting(run.mm.now))
            }),
    {
        let economy: EnergyEconomyAssignment = self.energy_economy_assignment(
            match pdu.energy_saving_mode {
                Some(mode) => mode,
                None => EnergySavingMode::StayAlive,
            },
        );
        let authentication: Option<AuthenticationMessage> = match challenge {
            Some(rand_2) => Some(
                AuthenticationMessage {
                    command_id,
                    itsi: prim.ssi as u64,
                    air_handle: prim.handle,
                    response_1: None,
                    rand_2: Some(rand_2),
                    mutual: true,
                    authentication_result: None,
                },
            ),
            None => None,
        };
        port.push(
            MmMessage::RegistrationAttempt {
                head: RegistrationAttemptHead {
                    command_id,
                    itsi: prim.ssi as u64,
                    air_handle: prim.handle,
                    location_update_type: pdu.location_update_type.code(),
                    address_extension: pdu.address_extension,
                    energy_economy: economy,
                    authentication,
                },
                target: copy_name(&prim.forward_registration_target_station_id),
            },
        );
        port.subscribers.set_registration_delivery_pending(prim.ssi, true);
        let attachment: Option<PendingAttachment> = match &pdu.group_identity_location_demand {
            Some(demand) => match &demand.group_identity_uplink {
                Some(groups) => match named_groups(groups) {
                    Some(operations) => Some(
                        PendingAttachment {
                            itsi: prim.ssi,
                            air_handle: prim.handle,
                            replace_all: demand.replace_all,
                            operations,
                        },
                    ),
                    None => None,
                },
                None => None,
            },
            None => None,
        };
        let head = RegistrationHead {
            itsi: prim.ssi,
            air_handle: prim.handle,
            location_update_type: pdu.location_update_type,
            address_extension: pdu.address_extension,
            energy_saving_information: match pdu.energy_saving_mode {
                Some(_) => Some(economy),
                None => None,
            },
            has_group_identity_location_demand: pdu.group_identity_location_demand.is_some(),
            authentication_successful: false,
        };
        let pending = PendingRegistration {
            head,
            attachment,
            target: copy_name(&prim.forward_registration_target_station_id),
        };
        assert(pending@ == demand_view(*prim, *pdu, challenge).waiting(self@.now));
        self.registrations.insert(command_id, pending);
        self.deadlines.insert(command_id, self.now.add_timeslots(T351_TIMESLOTS));
    }

    fn register_alone(
        &mut self,
        port: &mut MmPort,
        prim: &MmUplink,
        pdu: &ULocationUpdateDemand,
        Ghost(challenge): Ghost<Option<[u8; 10]>>,
    )
        requires
            old(self).wf(),
        ensures
            final(self).wf(),
            final(self).run(*final(port)) == old(self).run(*old(port)).location_update_alone(
                demand_view(*prim, *pdu, challenge),
            ),
    {
        proof {
            reveal(crate::mm::model::MmRun::location_update_alone);
        }
        let issi: u32 = prim.ssi;
        let is_new: bool = !self.client_mgr.client_is_known(issi);
        let economy: EnergyEconomyAssignment = self.energy_economy_assignment(
            match pdu.energy_saving_mode {
                Some(mode) => mode,
                None => EnergySavingMode::StayAlive,
            },
        );
        if is_new {
            if !is_assigned_ssi(issi) {
                return;
            }
            self.register_client(port, issi);
        } else {
            self.attach_client(port, issi);
        }
        port.subscribers.set_registration_delivery_pending(issi, true);
        self.apply_energy_economy(port, issi, economy);
        let mut listed: Vec<GroupIdentityDownlink> = Vec::new();
        let mut group_accept: Option<GroupAccept> = None;
        if let Some(demand) = &pdu.group_identity_location_demand {
            if demand.replace_all {
                self.clear_groups(port, issi);
            }
            group_accept = Some(
                GroupAccept { rejected: false, listed: demand.group_identity_uplink.is_some() },
            );
            if let Some(groups) = &demand.group_identity_uplink {
                listed = self.try_attach_detach_groups(port, issi, groups);
            }
        }
        self.client_mgr.set_client_class_of_ms(issi, pdu.class_of_ms);
        let head = RegistrationHead {
            itsi: issi,
            air_handle: prim.handle,
            location_update_type: pdu.location_update_type,
            address_extension: pdu.address_extension,
            energy_saving_information: match pdu.energy_saving_mode {
                Some(_) => Some(economy),
                None => None,
            },
            has_group_identity_location_demand: pdu.group_identity_location_demand.is_some(),
            authentication_successful: false,
        };
        self.send_d_location_update_accept_with_handover(
            port,
            head,
            group_accept,
            listed,
            None,
            false,
        );
        port.subscribers.mark_active(issi);
        if is_new && pdu.location_update_type != LocationUpdateType::ItsiAttach
            && pdu.group_identity_location_demand.is_none() {
            self.send_d_location_update_command(port, issi, prim.handle);
        }
    }

    fn energy_mode_of(information: Option<u64>, len: Option<u8>) -> (mode: EnergySavingMode)
        requires
            information is Some && len is Some ==> len->0 <= 66,
        ensures
            mode == crate::mm::model::mode_in(information, len),
    {
        match (information, len) {
            (Some(bits), Some(n)) => if n >= 3 {
                let shift: u64 = (n - 3) as u64;
                match EnergySavingMode::from_code(bits >> shift) {
                    Some(mode) => mode,
                    None => EnergySavingMode::StayAlive,
                }
            } else {
                EnergySavingMode::StayAlive
            },
            _ => EnergySavingMode::StayAlive,
        }
    }

    fn scanning_of(information: Option<u64>, len: Option<u8>) -> (enabled: bool)
        requires
            information is Some && len is Some ==> len->0 <= 64,
        ensures
            enabled == crate::mm::model::scanning_in(information, len),
    {
        match (information, len) {
            (Some(bits), Some(n)) => if n > 0 {
                let shift: u64 = (n - 1) as u64;
                (bits >> shift) & 1 == 0
            } else {
                true
            },
            _ => true,
        }
    }

    fn request_energy_economy(
        &mut self,
        port: &mut MmPort,
        issi: u32,
        handle: u32,
        mode: EnergySavingMode,
    )
        requires
            old(self).wf(),
        ensures
            final(self).wf(),
            final(self).run(*final(port)) == old(self).run(*old(port)).energy_requested(
                issi,
                handle,
                mode,
            ),
    {
        let assignment: EnergyEconomyAssignment = self.energy_economy_assignment(mode);
        if port.link.is_online() {
            let command_id: u64 = self.next_swmi_command_id();
            let request = MmMessage::Request(
                MmRequest::EnergyEconomyUpdate {
                    command_id,
                    itsi: issi as u64,
                    air_handle: handle,
                    energy_economy: assignment,
                },
            );
            if port.submit(request) {
                self.energy.insert(command_id, EnergyRequest { issi, air_handle: handle });
                return;
            }
        }
        self.apply_energy_economy(port, issi, assignment);
        self.send_d_mm_status_energy_saving(port, issi, handle, assignment);
    }

    fn push_scanning_state(&self, port: &mut MmPort, issi: u32, enabled: bool)
        ensures
            self.run(*final(port)) == self.run(*old(port)).scanning_told(issi, enabled),
    {
        let groups: Vec<u32> = Vec::new();
        let classes: Vec<u8> = Vec::new();
        assert(groups@ =~= Seq::empty());
        assert(classes@ =~= Seq::empty());
        port.push(
            MmMessage::Update {
                head: UpdateHead {
                    to: UpdateReceiver::Cmce,
                    issi,
                    action: SubscriberUpdateAction::ScanningState,
                    scanning_enabled: Some(enabled),
                },
                groups,
                classes,
            },
        );
    }

    fn change_scanning_state(&mut self, port: &mut MmPort, issi: u32, enabled: bool)
        requires
            old(self).wf(),
        ensures
            final(self).wf(),
            final(self).run(*final(port)) == old(self).run(*old(port)).scanning_changed(
                issi,
                enabled,
            ),
    {
        if self.client_mgr.set_client_scanning_enabled(issi, enabled) {
            port.subscribers.set_scanning_enabled(issi, enabled);
        }
        if port.link.is_online() {
            let command_id: u64 = self.next_swmi_command_id();
            port.submit(
                MmMessage::Request(
                    MmRequest::ScanningStateUpdate {
                        command_id,
                        itsi: issi as u64,
                        scanning_enabled: enabled,
                    },
                ),
            );
        }
        self.push_scanning_state(port, issi, enabled);
    }

    fn change_addresses(
        &mut self,
        port: &mut MmPort,
        issi: u32,
        handle: u32,
        status: StatusUplink,
        payload: &Option<GatewayPayload>,
    )
        requires
            old(self).wf(),
            status == StatusUplink::RequestToAddDmMsAddresses || status
                == StatusUplink::RequestToRemoveDmMsAddresses || status
                == StatusUplink::RequestToReplaceDmMsAddresses,
        ensures
            final(self).wf(),
            final(self).run(*final(port)) == old(self).run(*old(port)).status_reported(
                issi,
                handle,
                status,
                None,
                None,
                payload_view(*payload),
            ),
    {
        proof {
            reveal(crate::mm::model::MmRun::status_reported);
        }
        let addresses: &Vec<DmMsRouteAddress> = match payload {
            Some(GatewayPayload::Addresses(addresses)) => addresses,
            _ => return,
        };
        if !port.dm_gateways.is_active(issi) {
            return;
        }
        match status {
            StatusUplink::RequestToAddDmMsAddresses => {
                port.dm_gateways.add_addresses(issi, addresses, self.now);
            },
            StatusUplink::RequestToRemoveDmMsAddresses => {
                port.dm_gateways.remove_addresses(issi, addresses, self.now);
            },
            _ => {
                port.dm_gateways.replace_addresses(issi, addresses, self.now);
            },
        }
        self.publish_dm_gateway_state(port, issi, true);
        self.send_d_mm_status_gateway(
            port,
            issi,
            handle,
            StatusDownlink::AcceptanceOfDmMsAddresses,
            GatewayAnswer::NoRejectedAddresses,
        );
    }

    /// U-MM STATUS.
    pub fn rx_u_mm_status(&mut self, port: &mut MmPort, issi: u32, handle: u32, pdu: &UMmStatus)
        requires
            old(self).wf(),
            pdu.is_readable(),
        ensures
            final(self).wf(),
            final(self).run(*final(port)) == old(self).run(*old(port)).status_reported(
                issi,
                handle,
                pdu.status_uplink,
                pdu.information,
                pdu.information_len,
                payload_view(pdu.gateway_payload),
            ),
    {
        proof {
            reveal(crate::mm::model::MmRun::status_reported);
        }
        match pdu.status_uplink {
            StatusUplink::ChangeOfEnergySavingModeRequest => {
                let mode = MmBs::energy_mode_of(pdu.information, pdu.information_len);
                self.request_energy_economy(port, issi, handle, mode);
            },
            StatusUplink::ChangeOfEnergySavingModeResponse => {
                let mode = MmBs::energy_mode_of(pdu.information, pdu.information_len);
                let assignment = self.energy_economy_assignment(mode);
                self.store_energy_economy(port, issi, assignment);
            },
            StatusUplink::ChangeOfScanningState => {
                let enabled: bool = MmBs::scanning_of(pdu.information, pdu.information_len);
                self.change_scanning_state(port, issi, enabled);
            },
            StatusUplink::RequestToStartDmGatewayOperation => {
                if let Some(GatewayPayload::Start { addresses, dmo_carrier }) =
                    &pdu.gateway_payload {
                    if !port.subscribers.is_registered(issi) {
                        self.send_d_mm_status_gateway(
                            port,
                            issi,
                            handle,
                            StatusDownlink::RejectionToStartDmGatewayOperation,
                            GatewayAnswer::Empty,
                        );
                        return;
                    }
                    port.dm_gateways.activate(issi, *dmo_carrier, addresses, self.now);
                    self.publish_dm_gateway_state(port, issi, true);
                    self.send_d_mm_status_gateway(
                        port,
                        issi,
                        handle,
                        StatusDownlink::AcceptanceToStartDmGatewayOperation,
                        GatewayAnswer::NoRejectedAddresses,
                    );
                }
            },
            StatusUplink::RequestToContinueDmGatewayOperation => {
                if let Some(GatewayPayload::Continue { dmo_carrier }) = &pdu.gateway_payload {
                    if port.dm_gateways.is_active(issi) {
                        port.dm_gateways.update_carrier(issi, *dmo_carrier, self.now);
                        self.publish_dm_gateway_state(port, issi, true);
                        self.send_d_mm_status_gateway(
                            port,
                            issi,
                            handle,
                            StatusDownlink::AcceptanceToContinueDmGatewayOperation,
                            GatewayAnswer::RetainedAddressSet(true),
                        );
                    } else {
                        self.send_d_mm_status_gateway(
                            port,
                            issi,
                            handle,
                            StatusDownlink::RejectionToContinueDmGatewayOperation,
                            GatewayAnswer::Empty,
                        );
                    }
                }
            },
            StatusUplink::RequestToStopDmGatewayOperation => {
                port.dm_gateways.deactivate(issi);
                self.publish_dm_gateway_state(port, issi, false);
                self.send_d_mm_status_gateway(
                    port,
                    issi,
                    handle,
                    StatusDownlink::AcceptanceToStopDmGatewayOperation,
                    GatewayAnswer::Empty,
                );
            },
            StatusUplink::RequestToAddDmMsAddresses
            | StatusUplink::RequestToRemoveDmMsAddresses
            | StatusUplink::RequestToReplaceDmMsAddresses => {
                self.change_addresses(
                    port,
                    issi,
                    handle,
                    pdu.status_uplink,
                    &pdu.gateway_payload,
                );
            },
            StatusUplink::AcceptanceToRemovalOfDmMsAddresses
            | StatusUplink::AcceptanceToChangeRegistrationLabel
            | StatusUplink::AcceptanceToStopDmGatewayOperation => {
                port.dm_gateways.touch(issi, self.now);
            },
            StatusUplink::Other(_) => {
                port.push(
                    MmMessage::Downlink {
                        issi,
                        handle,
                        pdu: MmPdu::FunctionNotSupported { status_uplink: pdu.status_uplink },
                    },
                );
            },
        }
    }

    /// U-ATTACH/DETACH GROUP IDENTITY. One that names no groups is not
    /// supported.
    pub fn rx_u_attach_detach_group_identity(
        &mut self,
        port: &mut MmPort,
        issi: u32,
        handle: u32,
        pdu: &UAttachDetachGroupIdentity,
    )
        requires
            old(self).wf(),
        ensures
            final(self).wf(),
            final(self).run(*final(port)) == match pdu.group_identity_uplink {
                Some(groups) => old(self).run(*old(port)).groups_requested(
                    issi,
                    handle,
                    pdu.replace_all,
                    groups@,
                ),
                None => old(self).run(*old(port)),
            },
    {
        proof {
            reveal(crate::mm::model::MmRun::groups_requested);
        }
        let groups: &Vec<GroupIdentityUplink> = match &pdu.group_identity_uplink {
            Some(groups) => groups,
            None => return,
        };
        if port.link.is_online() {
            if let Some(operations) = named_groups(groups) {
                let command_id: u64 = self.next_swmi_command_id();
                if port.link.takes() {
                    port.push(
                        MmMessage::AttachmentAttempt {
                            head: AttachmentAttemptHead {
                                command_id,
                                itsi: issi as u64,
                                air_handle: handle,
                                replace_all: pdu.replace_all,
                            },
                            operations: asked_operations(&operations),
                        },
                    );
                    self.attachments.insert(
                        command_id,
                        PendingAttachment {
                            itsi: issi,
                            air_handle: handle,
                            replace_all: pdu.replace_all,
                            operations,
                        },
                    );
                    return;
                }
            }
        }
        self.change_groups_alone(port, issi, handle, pdu.replace_all, groups);
    }

    fn change_groups_alone(
        &mut self,
        port: &mut MmPort,
        issi: u32,
        handle: u32,
        replace_all: bool,
        groups: &Vec<GroupIdentityUplink>,
    )
        requires
            old(self).wf(),
        ensures
            final(self).wf(),
            final(self).run(*final(port)) == old(self).run(*old(port)).groups_requested_alone(
                issi,
                handle,
                replace_all,
                groups@,
            ),
    {
        proof {
            reveal(crate::mm::model::MmRun::groups_requested_alone);
        }
        if replace_all {
            if self.client_mgr.client_is_known(issi) {
                self.clear_groups(port, issi);
            } else {
                if !is_assigned_ssi(issi) {
                    return;
                }
                self.register_client(port, issi);
            }
        }
        let answer: Vec<GroupIdentityDownlink> = self.try_attach_detach_groups(port, issi, groups);
        port.push(MmMessage::Acknowledge { issi, handle, rejected: false, groups: answer });
    }

    fn note_authentication(&mut self, id: u64, outcome: bool)
        requires
            old(self).wf(),
        ensures
            final(self).wf(),
            final(self)@ == (crate::mm::model::MmView {
                authenticated: if outcome {
                    crate::table::put(old(self)@.authenticated, id, true)
                } else {
                    crate::table::del(old(self)@.authenticated, id)
                },
                ..old(self)@
            }),
    {
        if outcome {
            self.authenticated.insert(id, true);
        } else {
            self.authenticated.remove(id);
        }
    }

    /// U-AUTHENTICATION.
    pub fn rx_u_authentication(
        &mut self,
        port: &mut MmPort,
        issi: u32,
        handle: u32,
        pdu: UAuthentication,
    )
        requires
            old(self).wf(),
        ensures
            final(self).wf(),
            final(self).run(*final(port)) == old(self).run(*old(port)).authentication_received(
                issi,
                handle,
                pdu,
            ),
    {
        let key: AuthenticationKey = MmBs::authentication_correlation_key(issi, handle);
        let command_id: u64 = match self.auth.get(key) {
            Some(id) => id,
            None => self.next_swmi_command_id(),
        };
        if !port.link.present {
            return;
        }
        port.submit(
            MmMessage::Request(
                MmRequest::AuthenticationResponse(
                    AuthenticationMessage {
                        command_id,
                        itsi: issi as u64,
                        air_handle: handle,
                        response_1: pdu.response_1,
                        rand_2: pdu.rand_2,
                        mutual: pdu.mutual,
                        authentication_result: pdu.authentication_result,
                    },
                ),
            ),
        );
        if let Some(outcome) = pdu.authentication_result {
            self.note_authentication(command_id, outcome);
        }
    }
}

/// The model of an optional gateway payload.
pub open spec fn payload_view(payload: Option<GatewayPayload>) -> Option<
    crate::mm::pdu::GatewayPayloadView,
> {
    match payload {
        Some(held) => Some(held@),
        None => None,
    }
}

/// Outcomes that the station decides alone, by command number.
struct LocalDecision {
    command_id: u64,
    itsi: u32,
    air_handle: u32,
    results: Vec<AttachmentResult>,
}

impl MmBs {
    /// Carries out a decision of the SwMI on a registration. One that does not
    /// match what is waiting leaves it waiting.
    pub fn apply_swmi_registration_decision(
        &mut self,
        port: &mut MmPort,
        decision: RegistrationDecision,
    )
        requires
            old(self).wf(),
        ensures
            final(self).wf(),
            final(self).run(*final(port)) == old(self).run(*old(port)).registration_decided(
                decision,
            ),
    {
        proof {
            reveal(crate::mm::model::MmRun::registration_decided);
        }
        let id: u64 = decision.command_id;
        let head: RegistrationHead = match self.registrations.find(id) {
            Some(index) => self.registrations.value(index).head,
            None => return,
        };
        self.deadlines.remove(id);
        if head.itsi as u64 != decision.itsi || head.air_handle != decision.air_handle {
            return;
        }
        let authentication_successful: bool = self.authenticated.contains_key(id);
        let mut pending: PendingRegistration = match self.registrations.remove(id) {
            Some(pending) => pending,
            None => return,
        };
        self.authenticated.remove(id);
        let key: AuthenticationKey = MmBs::authentication_correlation_key(
            head.itsi,
            head.air_handle,
        );
        if let Some(current) = self.auth.get(key) {
            if current == id {
                self.auth.remove(key);
            }
        }
        if !decision.accepted {
            port.subscribers.set_registration_delivery_pending(head.itsi, false);
            let cause: u8 = #[verifier::truncate] (decision.cause as u8);
            self.send_d_location_update_reject_with_cause(
                port,
                head.itsi,
                head.air_handle,
                head.location_update_type,
                head.address_extension,
                cause,
            );
            return;
        }
        pending.head = RegistrationHead { authentication_successful, ..head };
        self.accept_registration(port, decision, pending);
    }

    fn accept_registration(
        &mut self,
        port: &mut MmPort,
        decision: RegistrationDecision,
        pending: PendingRegistration,
    )
        requires
            old(self).wf(),
        ensures
            final(self).wf(),
            final(self).run(*final(port)) == old(self).run(*old(port)).registration_accepted(
                decision,
                pending@,
            ),
    {
        proof {
            reveal(crate::mm::model::MmRun::registration_accepted);
        }
        let economy: EnergyEconomyAssignment = decision.energy_economy;
        let issi: u32 = pending.head.itsi;
        let head = RegistrationHead {
            energy_saving_information: if economy.mode != EnergySavingMode::StayAlive {
                Some(economy)
            } else {
                None
            },
            ..pending.head
        };
        let plain: Option<GroupAccept> = if head.has_group_identity_location_demand {
            Some(GroupAccept { rejected: false, listed: false })
        } else {
            None
        };
        if pending.target.is_some() {
            port.subscribers.set_registration_delivery_pending(issi, false);
            let seamless: Option<SeamlessHandover> = match decision.handover_allocation {
                Some(allocation) => Some(seamless_handover(allocation)),
                None => None,
            };
            self.send_d_location_update_accept_with_handover(
                port,
                head,
                plain,
                Vec::new(),
                seamless,
                decision.rua_requested,
            );
            return;
        }
        if !self.client_mgr.client_is_known(issi) {
            if !is_assigned_ssi(issi) {
                self.send_d_location_update_reject_with_cause(
                    port,
                    issi,
                    head.air_handle,
                    head.location_update_type,
                    head.address_extension,
                    REJECT_NETWORK_FAILURE,
                );
                return;
            }
            self.register_client(port, issi);
        } else {
            self.attach_client(port, issi);
        }
        port.subscribers.set_registration_delivery_pending(issi, true);
        self.apply_energy_economy(port, issi, economy);
        match pending.attachment {
            Some(attachment) => {
                self.decide_location_groups(port, head, attachment, decision.rua_requested);
            },
            None => {
                self.send_d_location_update_accept_with_handover(
                    port,
                    head,
                    plain,
                    Vec::new(),
                    None,
                    decision.rua_requested,
                );
                port.subscribers.mark_active(issi);
            },
        }
    }

    fn decide_location_groups(
        &mut self,
        port: &mut MmPort,
        head: RegistrationHead,
        attachment: PendingAttachment,
        rua_requested: bool,
    )
        requires
            old(self).wf(),
        ensures
            final(self).wf(),
            final(self).run(*final(port)) == old(self).run(*old(port)).location_groups(
                head,
                attachment@,
                rua_requested,
            ),
    {
        proof {
            reveal(crate::mm::model::MmRun::location_groups);
        }
        if port.link.is_online() {
            let command_id: u64 = self.next_swmi_command_id();
            if port.link.takes() {
                port.push(
                    MmMessage::AttachmentAttempt {
                        head: AttachmentAttemptHead {
                            command_id,
                            itsi: head.itsi as u64,
                            air_handle: head.air_handle,
                            replace_all: attachment.replace_all,
                        },
                        operations: asked_operations(&attachment.operations),
                    },
                );
                self.location_attachments.insert(
                    command_id,
                    PendingLocationAttachment { registration: head, attachment, rua_requested },
                );
                return;
            }
        }
        let results: Vec<AttachmentResult> = local_attachment_results(&attachment.operations);
        let pending = PendingLocationAttachment { registration: head, attachment, rua_requested };
        self.settle_location_groups(port, &pending, false, &results);
    }

    fn settle_location_groups(
        &mut self,
        port: &mut MmPort,
        pending: &PendingLocationAttachment,
        has_rejection: bool,
        results: &Vec<AttachmentResult>,
    )
        requires
            old(self).wf(),
            results@.len() == pending.attachment.operations@.len(),
        ensures
            final(self).wf(),
            final(self).run(*final(port)) == old(self).run(*old(port)).location_groups_settled(
                pending@,
                has_rejection,
                results@,
            ),
    {
        let (rejected, groups) = self.apply_swmi_attachment_state(
            port,
            has_rejection,
            &pending.attachment,
            results,
        );
        self.send_d_location_update_accept_with_handover(
            port,
            pending.registration,
            Some(GroupAccept { rejected, listed: true }),
            groups,
            None,
            pending.rua_requested,
        );
        port.subscribers.mark_active(pending.registration.itsi);
    }

    /// Carries out a decision of the SwMI on groups.
    pub fn apply_swmi_attachment_decision(
        &mut self,
        port: &mut MmPort,
        command_id: u64,
        itsi: u64,
        air_handle: u32,
        has_rejection: bool,
        results: &Vec<AttachmentResult>,
    )
        requires
            old(self).wf(),
        ensures
            final(self).wf(),
            final(self).run(*final(port)) == old(self).run(*old(port)).groups_answered_by_swmi(
                command_id,
                itsi,
                air_handle,
                has_rejection,
                results@,
            ),
    {
        proof {
            reveal(crate::mm::model::MmRun::groups_answered_by_swmi);
            crate::table::lemma_del_absent_if(self@.attachments, command_id);
        }
        let pending: PendingAttachment = match self.attachments.remove(command_id) {
            Some(pending) => pending,
            None => return,
        };
        if pending.itsi as u64 != itsi || pending.air_handle != air_handle
            || pending.operations.len() != results.len() {
            return;
        }
        let (rejected, groups) = self.apply_swmi_attachment_state(
            port,
            has_rejection,
            &pending,
            results,
        );
        port.push(
            MmMessage::Acknowledge {
                issi: pending.itsi,
                handle: pending.air_handle,
                rejected,
                groups,
            },
        );
    }

    /// Carries out a decision of the SwMI on the groups of a location update.
    pub fn apply_swmi_location_attachment_decision(
        &mut self,
        port: &mut MmPort,
        command_id: u64,
        itsi: u64,
        air_handle: u32,
        has_rejection: bool,
        results: &Vec<AttachmentResult>,
    )
        requires
            old(self).wf(),
        ensures
            final(self).wf(),
            final(self).run(*final(port)) == old(self).run(*old(port)).location_groups_decided(
                command_id,
                itsi,
                air_handle,
                has_rejection,
                results@,
            ),
    {
        proof {
            reveal(crate::mm::model::MmRun::location_groups_decided);
            crate::table::lemma_del_absent_if(self@.location_attachments, command_id);
        }
        let pending: PendingLocationAttachment = match self.location_attachments.remove(
            command_id,
        ) {
            Some(pending) => pending,
            None => return,
        };
        if pending.registration.itsi as u64 != itsi || pending.registration.air_handle != air_handle
            || pending.attachment.operations.len() != results.len() {
            return;
        }
        self.settle_location_groups(port, &pending, has_rejection, results);
    }

    fn restore_groups(
        &mut self,
        port: &mut MmPort,
        issi: u32,
        groups: &Vec<AttachmentOperation>,
    ) -> (restored: Vec<u32>)
        requires
            old(self).wf(),
        ensures
            final(self).wf(),
            (final(self).run(*final(port)), restored@) == old(self).run(
                *old(port),
            ).groups_restored(issi, groups@),
    {
        let ghost before = self.run(*port);
        let mut restored: Vec<u32> = Vec::new();
        let mut i: usize = 0;
        assert(restored@ =~= Seq::empty());
        while i < groups.len()
            invariant
                i <= groups@.len(),
                self.wf(),
                (self.run(*port), restored@) == before.groups_restored(
                    issi,
                    groups@.take(i as int),
                ),
            decreases groups@.len() - i,
        {
            proof {
                assert(groups@.take(i + 1).drop_last() =~= groups@.take(i as int));
                assert(groups@.take(i + 1).last() == groups@[i as int]);
            }
            let group: AttachmentOperation = groups[i];
            i = i + 1;
            if group.detach {
                continue;
            }
            if self.client_mgr.client_group_attach_with_class_of_usage(
                issi,
                group.gssi,
                true,
                group.class_of_usage,
            ).is_ok() {
                port.subscribers.affiliate(issi, group.gssi);
                restored.push(group.gssi);
            }
        }
        assert(groups@.take(groups@.len() as int) =~= groups@);
        restored
    }

    /// Restores the state of a subscriber as the SwMI has it. Nothing is sent
    /// to the terminal, which has completed its location update.
    pub fn apply_swmi_subscriber_state_sync(
        &mut self,
        port: &mut MmPort,
        itsi: u64,
        groups: &Vec<AttachmentOperation>,
        scanning_enabled: bool,
        energy_economy: EnergyEconomyAssignment,
    )
        requires
            old(self).wf(),
        ensures
            final(self).wf(),
            final(self).run(*final(port)) == old(self).run(*old(port)).state_synced(
                itsi,
                groups@,
                scanning_enabled,
                energy_economy,
            ),
    {
        proof {
            reveal(crate::mm::model::MmRun::state_synced);
        }
        if itsi > 0xffff_ffff {
            return;
        }
        let issi: u32 = itsi as u32;
        if !self.client_mgr.client_is_known(issi) {
            if !is_assigned_ssi(issi) {
                return;
            }
            self.register_client(port, issi);
        }
        self.store_energy_economy(port, issi, energy_economy);
        self.clear_groups(port, issi);
        let restored: Vec<u32> = self.restore_groups(port, issi, groups);
        if restored.len() > 0 {
            self.emit_subscriber_update(port, issi, restored, SubscriberUpdateAction::Affiliate);
        }
        if self.client_mgr.set_client_scanning_enabled(issi, scanning_enabled) {
            port.subscribers.set_scanning_enabled(issi, scanning_enabled);
            self.push_scanning_state(port, issi, scanning_enabled);
        }
    }

    fn recovery_subscribers(&self, port: &MmPort) -> (list: Vec<RecoverySubscriber>)
        ensures
            list@ == self@.clients.clients.map_values(
                |entry: (u32, crate::mm::clients::MmClient)|
                    RecoverySubscriber {
                        itsi: entry.0 as u64,
                        scanning_enabled: entry.1.scanning_enabled,
                        energy_economy: entry.1.energy_economy,
                        rua_assigned: port.subscribers@.known(entry.0).rua_assigned,
                    },
            ),
    {
        let ghost wanted = self@.clients.clients.map_values(
            |entry: (u32, crate::mm::clients::MmClient)|
                RecoverySubscriber {
                    itsi: entry.0 as u64,
                    scanning_enabled: entry.1.scanning_enabled,
                    energy_economy: entry.1.energy_economy,
                    rua_assigned: port.subscribers@.known(entry.0).rua_assigned,
                },
        );
        let mut list: Vec<RecoverySubscriber> = Vec::new();
        let mut i: usize = 0;
        while i < self.client_mgr.len()
            invariant
                i <= self@.clients.clients.len(),
                wanted.len() == self@.clients.clients.len(),
                forall|j: int|
                    0 <= j < wanted.len() ==> #[trigger] wanted[j] == (RecoverySubscriber {
                        itsi: self@.clients.clients[j].0 as u64,
                        scanning_enabled: self@.clients.clients[j].1.scanning_enabled,
                        energy_economy: self@.clients.clients[j].1.energy_economy,
                        rua_assigned: port.subscribers@.known(
                            self@.clients.clients[j].0,
                        ).rua_assigned,
                    }),
                list@ == wanted.take(i as int),
            decreases self@.clients.clients.len() - i,
        {
            let (issi, client) = self.client_mgr.entry(i);
            list.push(
                RecoverySubscriber {
                    itsi: issi as u64,
                    scanning_enabled: client.scanning_enabled,
                    energy_economy: client.energy_economy,
                    rua_assigned: port.subscribers.rua_assignment_state(issi),
                },
            );
            i = i + 1;
            assert(list@ =~= wanted.take(i as int));
        }
        assert(list@ =~= wanted);
        list
    }

    fn answer_recovery_request(&mut self, port: &mut MmPort, command_id: u64)
        requires
            old(self).wf(),
        ensures
            final(self).wf(),
            final(self).run(*final(port)) == old(self).run(*old(port)).recovery_requested(
                command_id,
            ),
    {
        if self.recoveries.contains_key(command_id) || !port.link.takes() {
            return;
        }
        let subscribers: Vec<RecoverySubscriber> = self.recovery_subscribers(port);
        let groups: Vec<RecoveryGroup> = self.client_mgr.recovery_groups();
        self.recoveries.insert(command_id, true);
        port.push(MmMessage::RecoverySnapshot { command_id, subscribers, groups });
    }

    fn accept_recovery(&mut self, port: &mut MmPort, subscriber: &RecoveryAccepted)
        requires
            old(self).wf(),
        ensures
            final(self).wf(),
            final(self).run(*final(port)) == old(self).run(*old(port)).recovery_accepted(
                subscriber@,
            ),
    {
        let unassigned: bool = match subscriber.rua_assigned {
            Some(assigned) => !assigned,
            None => false,
        };
        let reassign: bool = if unassigned && subscriber.itsi <= 0xffff_ffff {
            match port.subscribers.rua_assignment_state(subscriber.itsi as u32) {
                Some(assigned) => assigned,
                None => false,
            }
        } else {
            false
        };
        self.apply_swmi_subscriber_state_sync(
            port,
            subscriber.itsi,
            &subscriber.groups,
            subscriber.scanning_enabled,
            subscriber.energy_economy,
        );
        if reassign {
            let issi: u32 = subscriber.itsi as u32;
            port.subscribers.set_rua_assignment_state(issi, None);
            self.send_d_location_update_command(port, issi, 0);
        }
    }

    fn discard(&mut self, port: &mut MmPort, itsi: u64)
        requires
            old(self).wf(),
        ensures
            final(self).wf(),
            final(self).run(*final(port)) == old(self).run(*old(port)).discarded(itsi),
    {
        if itsi <= 0xffff_ffff {
            self.remove_local_subscriber(port, itsi as u32);
        }
    }

    fn apply_recovery_result(
        &mut self,
        port: &mut MmPort,
        command_id: u64,
        accepted: &Vec<RecoveryAccepted>,
        rejected: &Vec<u64>,
    )
        requires
            old(self).wf(),
        ensures
            final(self).wf(),
            final(self).run(*final(port)) == old(self).run(*old(port)).recovery_answered(
                command_id,
                accepted_views(accepted@),
                rejected@,
            ),
    {
        if !self.recoveries.contains_key(command_id) {
            return;
        }
        self.recoveries.remove(command_id);
        let ghost before = self.run(*port);
        let ghost views = accepted_views(accepted@);
        let mut i: usize = 0;
        while i < accepted.len()
            invariant
                i <= accepted@.len(),
                self.wf(),
                views == accepted_views(accepted@),
                self.run(*port) == before.recoveries_accepted(views.take(i as int)),
            decreases accepted@.len() - i,
        {
            proof {
                assert(views.take(i + 1).drop_last() =~= views.take(i as int));
                assert(views.take(i + 1).last() == accepted@[i as int]@);
            }
            self.accept_recovery(port, &accepted[i]);
            i = i + 1;
        }
        assert(views.take(views.len() as int) =~= views);
        let ghost middle = self.run(*port);
        let mut n: usize = 0;
        while n < rejected.len()
            invariant
                n <= rejected@.len(),
                self.wf(),
                self.run(*port) == middle.all_discarded(rejected@.take(n as int)),
            decreases rejected@.len() - n,
        {
            proof {
                assert(rejected@.take(n + 1).drop_last() =~= rejected@.take(n as int));
                assert(rejected@.take(n + 1).last() == rejected@[n as int]);
            }
            self.discard(port, rejected[n]);
            n = n + 1;
        }
        assert(rejected@.take(rejected@.len() as int) =~= rejected@);
    }

    fn apply_energy_decision(
        &mut self,
        port: &mut MmPort,
        command_id: u64,
        itsi: u64,
        air_handle: u32,
        accepted: bool,
        economy: EnergyEconomyAssignment,
    )
        requires
            old(self).wf(),
        ensures
            final(self).wf(),
            final(self).run(*final(port)) == old(self).run(*old(port)).energy_decided(
                command_id,
                itsi,
                air_handle,
                accepted,
                economy,
            ),
    {
        proof {
            crate::table::lemma_del_absent_if(self@.energy, command_id);
        }
        let request: EnergyRequest = match self.energy.remove(command_id) {
            Some(request) => request,
            None => return,
        };
        let issi: u32 = #[verifier::truncate] (itsi as u32);
        if request.issi != issi || request.air_handle != air_handle || !accepted {
            return;
        }
        self.apply_energy_economy(port, request.issi, economy);
        self.send_d_mm_status_energy_saving(port, request.issi, request.air_handle, economy);
    }

    fn answer_rebase_request(&mut self, port: &mut MmPort, request_id: u64, itsi: u64, mode: u8)
        requires
            old(self).wf(),
        ensures
            final(self).wf(),
            final(self).run(*final(port)) == old(self).run(*old(port)).rebase_requested(
                request_id,
                itsi,
                mode,
            ),
    {
        if itsi > 0xffff_ffff {
            return;
        }
        if let Some(wanted) = EnergySavingMode::from_code(mode as u64) {
            if wanted != EnergySavingMode::StayAlive {
                let energy_economy = self.energy_economy_assignment(wanted);
                port.submit(
                    MmMessage::Request(
                        MmRequest::EnergyEconomyRebaseResult { request_id, itsi, energy_economy },
                    ),
                );
            }
        }
    }

    fn apply_authentication_result(
        &mut self,
        port: &mut MmPort,
        command_id: u64,
        itsi: u64,
        air_handle: u32,
        success: bool,
        response_2: Option<u32>,
    )
        requires
            old(self).wf(),
        ensures
            final(self).wf(),
            final(self).run(*final(port)) == old(self).run(*old(port)).authentication_decided(
                command_id,
                itsi,
                air_handle,
                success,
                response_2,
            ),
    {
        let issi: u32 = #[verifier::truncate] (itsi as u32);
        self.note_authentication(command_id, success);
        port.push(
            MmMessage::Downlink {
                issi,
                handle: air_handle,
                pdu: MmPdu::AuthenticationResult {
                    success,
                    mutual: response_2.is_some(),
                    response_2,
                },
            },
        );
        if !success {
            self.send_d_location_update_reject_with_cause(
                port,
                issi,
                air_handle,
                LocationUpdateType::ItsiAttach,
                None,
                REJECT_AUTHENTICATION_FAILURE,
            );
        }
    }

    /// A message from the SwMI.
    pub fn rx_swmi(&mut self, port: &mut MmPort, message: &MmSwmiMessage)
        requires
            old(self).wf(),
        ensures
            final(self).wf(),
            final(self).run(*final(port)) == swmi_received(old(self).run(*old(port)), *message),
    {
        match message {
            MmSwmiMessage::RegistrationDecision(decision) => {
                self.apply_swmi_registration_decision(port, *decision);
            },
            MmSwmiMessage::AuthenticationChallenge {
                command_id,
                itsi,
                air_handle,
                rand_1,
                random_seed,
            } => {
                let issi: u32 = #[verifier::truncate] (*itsi as u32);
                let key = MmBs::authentication_correlation_key(issi, *air_handle);
                self.auth.insert(key, *command_id);
                port.push(
                    MmMessage::Downlink {
                        issi,
                        handle: *air_handle,
                        pdu: MmPdu::AuthenticationDemand {
                            rand_1: *rand_1,
                            random_seed: *random_seed,
                        },
                    },
                );
            },
            MmSwmiMessage::AuthenticationResult {
                command_id,
                itsi,
                air_handle,
                success,
                response_2,
            } => {
                self.apply_authentication_result(
                    port,
                    *command_id,
                    *itsi,
                    *air_handle,
                    *success,
                    *response_2,
                );
            },
            MmSwmiMessage::AuthenticationResponseDemand {
                command_id,
                itsi,
                air_handle,
                random_seed,
                response_2,
                mutual,
                rand_1,
            } => {
                let issi: u32 = #[verifier::truncate] (*itsi as u32);
                port.push(
                    MmMessage::Downlink {
                        issi,
                        handle: *air_handle,
                        pdu: MmPdu::AuthenticationResponse {
                            random_seed: *random_seed,
                            response_2: *response_2,
                            mutual: *mutual,
                            rand_1: *rand_1,
                        },
                    },
                );
                let key = MmBs::authentication_correlation_key(issi, *air_handle);
                self.auth.insert(key, *command_id);
            },
            MmSwmiMessage::AttachmentDecision {
                command_id,
                itsi,
                air_handle,
                has_rejection,
                results,
            } => {
                if self.location_attachments.contains(*command_id) {
                    self.apply_swmi_location_attachment_decision(
                        port,
                        *command_id,
                        *itsi,
                        *air_handle,
                        *has_rejection,
                        results,
                    );
                } else {
                    self.apply_swmi_attachment_decision(
                        port,
                        *command_id,
                        *itsi,
                        *air_handle,
                        *has_rejection,
                        results,
                    );
                }
            },
            MmSwmiMessage::SubscriberStateSync {
                itsi,
                groups,
                scanning_enabled,
                energy_economy,
            } => {
                self.apply_swmi_subscriber_state_sync(
                    port,
                    *itsi,
                    groups,
                    *scanning_enabled,
                    *energy_economy,
                );
            },
            MmSwmiMessage::LstRecoveryRequest { command_id } => {
                self.answer_recovery_request(port, *command_id);
            },
            MmSwmiMessage::LstRecoveryResult { command_id, accepted, rejected } => {
                self.apply_recovery_result(port, *command_id, accepted, rejected);
            },
            MmSwmiMessage::DeregistrationNotice { command_id, itsi } => {
                if *command_id == 0 {
                    self.discard(port, *itsi);
                }
            },
            MmSwmiMessage::EnergyEconomyDecision {
                command_id,
                itsi,
                air_handle,
                accepted,
                energy_economy,
            } => {
                self.apply_energy_decision(
                    port,
                    *command_id,
                    *itsi,
                    *air_handle,
                    *accepted,
                    *energy_economy,
                );
            },
            MmSwmiMessage::EnergyEconomyRebaseRequest { request_id, itsi, mode } => {
                self.answer_rebase_request(port, *request_id, *itsi, *mode);
            },
        }
    }

    fn expired_deadlines(&self) -> (ids: Vec<u64>)
        ensures
            ids@ == crate::mm::model::expired(self@.deadlines, self@.now),
    {
        let mut ids: Vec<u64> = Vec::new();
        let mut i: usize = 0;
        while i < self.deadlines.len()
            invariant
                i <= self.deadlines@.len(),
                ids@ == crate::mm::model::expired(self.deadlines@.take(i as int), self@.now),
            decreases self.deadlines@.len() - i,
        {
            proof {
                assert(self.deadlines@.take(i + 1).drop_last() =~= self.deadlines@.take(i as int));
                assert(self.deadlines@.take(i + 1).last() == self.deadlines@[i as int]);
            }
            let (id, deadline) = self.deadlines.entry(i);
            if self.now.age(deadline) >= 0 {
                ids.push(id);
            }
            i = i + 1;
        }
        assert(self.deadlines@.take(self.deadlines@.len() as int) =~= self.deadlines@);
        ids
    }

    fn time_out(&mut self, port: &mut MmPort, id: u64)
        requires
            old(self).wf(),
        ensures
            final(self).wf(),
            final(self).run(*final(port)) == old(self).run(*old(port)).timed_out(id),
    {
        proof {
            crate::table::lemma_del_absent_if(self@.registrations, id);
        }
        self.deadlines.remove(id);
        if let Some(pending) = self.registrations.remove(id) {
            port.subscribers.set_registration_delivery_pending(pending.head.itsi, false);
            self.send_d_location_update_reject_with_cause(
                port,
                pending.head.itsi,
                pending.head.air_handle,
                pending.head.location_update_type,
                pending.head.address_extension,
                REJECT_NETWORK_FAILURE,
            );
        }
    }

    /// One slot passes: location updates whose time is up are given up, the
    /// messages of the SwMI are carried out, and where the connection has
    /// failed the station completes alone what waits for it.
    pub fn tick_start(&mut self, port: &mut MmPort, ts: TdmaTime, messages: &Vec<MmSwmiMessage>)
        requires
            old(self).wf(),
        ensures
            final(self).wf(),
            final(self).run(*final(port)) == ticked(old(self).run(*old(port)), ts, messages@),
    {
        self.now = ts;
        let ids: Vec<u64> = self.expired_deadlines();
        let ghost before = self.run(*port);
        let mut i: usize = 0;
        while i < ids.len()
            invariant
                i <= ids@.len(),
                self.wf(),
                self.run(*port) == before.all_timed_out(ids@.take(i as int)),
            decreases ids@.len() - i,
        {
            proof {
                assert(ids@.take(i + 1).drop_last() =~= ids@.take(i as int));
                assert(ids@.take(i + 1).last() == ids@[i as int]);
            }
            self.time_out(port, ids[i]);
            i = i + 1;
        }
        assert(ids@.take(ids@.len() as int) =~= ids@);
        let ghost timed = self.run(*port);
        let mut n: usize = 0;
        while n < messages.len()
            invariant
                n <= messages@.len(),
                self.wf(),
                self.run(*port) == all_received(timed, messages@.take(n as int)),
            decreases messages@.len() - n,
        {
            proof {
                assert(messages@.take(n + 1).drop_last() =~= messages@.take(n as int));
                assert(messages@.take(n + 1).last() == messages@[n as int]);
            }
            self.rx_swmi(port, &messages[n]);
            n = n + 1;
        }
        assert(messages@.take(messages@.len() as int) =~= messages@);
        if port.link.present && !port.link.online {
            self.recover_registrations(port);
            self.recover_groups(port);
            self.recover_location_groups(port);
        }
    }

    fn recover_registrations(&mut self, port: &mut MmPort)
        requires
            old(self).wf(),
        ensures
            final(self).wf(),
            final(self).run(*final(port)) == old(self).run(*old(port)).registrations_recovered(
                old(self)@.registrations,
            ),
    {
        let ghost before = self.run(*port);
        let ghost entries = self@.registrations;
        let mut decisions: Vec<RegistrationDecision> = Vec::new();
        let mut i: usize = 0;
        while i < self.registrations.len()
            invariant
                i <= self.registrations@.len(),
                self.registrations@ == entries,
                decisions@.len() == i,
                forall|j: int|
                    0 <= j < i ==> #[trigger] decisions@[j] == local_registration(entries[j]),
            decreases self.registrations@.len() - i,
        {
            let id: u64 = self.registrations.key(i);
            let head: RegistrationHead = self.registrations.value(i).head;
            decisions.push(
                RegistrationDecision {
                    command_id: id,
                    itsi: head.itsi as u64,
                    air_handle: head.air_handle,
                    accepted: true,
                    cause: 0,
                    energy_economy: match head.energy_saving_information {
                        Some(economy) => economy,
                        None => EnergyEconomyAssignment::stay_alive(),
                    },
                    rua_requested: false,
                    handover_allocation: None,
                },
            );
            i = i + 1;
        }
        let mut n: usize = 0;
        while n < decisions.len()
            invariant
                n <= decisions@.len(),
                decisions@.len() == entries.len(),
                self.wf(),
                forall|j: int|
                    0 <= j < decisions@.len() ==> #[trigger] decisions@[j] == local_registration(
                        entries[j],
                    ),
                self.run(*port) == before.registrations_recovered(entries.take(n as int)),
            decreases decisions@.len() - n,
        {
            proof {
                assert(entries.take(n + 1).drop_last() =~= entries.take(n as int));
                assert(entries.take(n + 1).last() == entries[n as int]);
            }
            self.apply_swmi_registration_decision(port, decisions[n]);
            n = n + 1;
        }
        assert(entries.take(entries.len() as int) =~= entries);
    }

    fn recover_groups(&mut self, port: &mut MmPort)
        requires
            old(self).wf(),
        ensures
            final(self).wf(),
            final(self).run(*final(port)) == old(self).run(*old(port)).groups_recovered(
                old(self)@.attachments,
            ),
    {
        let ghost before = self.run(*port);
        let ghost entries = self@.attachments;
        let mut decisions: Vec<LocalDecision> = Vec::new();
        let mut i: usize = 0;
        while i < self.attachments.len()
            invariant
                i <= self.attachments@.len(),
                self.attachments@ == entries,
                decisions@.len() == i,
                forall|j: int|
                    0 <= j < i ==> {
                        &&& (#[trigger] decisions@[j]).command_id == entries[j].0
                        &&& decisions@[j].itsi == entries[j].1.itsi
                        &&& decisions@[j].air_handle == entries[j].1.air_handle
                        &&& decisions@[j].results@ == crate::mm::pending::all_accepted(
                            entries[j].1.operations,
                        )
                    },
            decreases self.attachments@.len() - i,
        {
            let command_id: u64 = self.attachments.key(i);
            let pending: &PendingAttachment = self.attachments.value(i);
            decisions.push(
                LocalDecision {
                    command_id,
                    itsi: pending.itsi,
                    air_handle: pending.air_handle,
                    results: local_attachment_results(&pending.operations),
                },
            );
            i = i + 1;
        }
        let mut n: usize = 0;
        while n < decisions.len()
            invariant
                n <= decisions@.len(),
                decisions@.len() == entries.len(),
                self.wf(),
                forall|j: int|
                    0 <= j < decisions@.len() ==> {
                        &&& (#[trigger] decisions@[j]).command_id == entries[j].0
                        &&& decisions@[j].itsi == entries[j].1.itsi
                        &&& decisions@[j].air_handle == entries[j].1.air_handle
                        &&& decisions@[j].results@ == crate::mm::pending::all_accepted(
                            entries[j].1.operations,
                        )
                    },
                self.run(*port) == before.groups_recovered(entries.take(n as int)),
            decreases decisions@.len() - n,
        {
            proof {
                assert(entries.take(n + 1).drop_last() =~= entries.take(n as int));
                assert(entries.take(n + 1).last() == entries[n as int]);
            }
            let decision: &LocalDecision = &decisions[n];
            self.apply_swmi_attachment_decision(
                port,
                decision.command_id,
                decision.itsi as u64,
                decision.air_handle,
                false,
                &decision.results,
            );
            n = n + 1;
        }
        assert(entries.take(entries.len() as int) =~= entries);
    }

    fn recover_location_groups(&mut self, port: &mut MmPort)
        requires
            old(self).wf(),
        ensures
            final(self).wf(),
            final(self).run(*final(port)) == old(self).run(*old(port)).location_groups_recovered(
                old(self)@.location_attachments,
            ),
    {
        let ghost before = self.run(*port);
        let ghost entries = self@.location_attachments;
        let mut decisions: Vec<LocalDecision> = Vec::new();
        let mut i: usize = 0;
        while i < self.location_attachments.len()
            invariant
                i <= self.location_attachments@.len(),
                self.location_attachments@ == entries,
                decisions@.len() == i,
                forall|j: int|
                    0 <= j < i ==> {
                        &&& (#[trigger] decisions@[j]).command_id == entries[j].0
                        &&& decisions@[j].itsi == entries[j].1.registration.itsi
                        &&& decisions@[j].air_handle == entries[j].1.registration.air_handle
                        &&& decisions@[j].results@ == crate::mm::pending::all_accepted(
                            entries[j].1.attachment.operations,
                        )
                    },
            decreases self.location_attachments@.len() - i,
        {
            let command_id: u64 = self.location_attachments.key(i);
            let pending: &PendingLocationAttachment = self.location_attachments.value(i);
            decisions.push(
                LocalDecision {
                    command_id,
                    itsi: pending.registration.itsi,
                    air_handle: pending.registration.air_handle,
                    results: local_attachment_results(&pending.attachment.operations),
                },
            );
            i = i + 1;
        }
        let mut n: usize = 0;
        while n < decisions.len()
            invariant
                n <= decisions@.len(),
                decisions@.len() == entries.len(),
                self.wf(),
                forall|j: int|
                    0 <= j < decisions@.len() ==> {
                        &&& (#[trigger] decisions@[j]).command_id == entries[j].0
                        &&& decisions@[j].itsi == entries[j].1.registration.itsi
                        &&& decisions@[j].air_handle == entries[j].1.registration.air_handle
                        &&& decisions@[j].results@ == crate::mm::pending::all_accepted(
                            entries[j].1.attachment.operations,
                        )
                    },
                self.run(*port) == before.location_groups_recovered(entries.take(n as int)),
            decreases decisions@.len() - n,
        {
            proof {
                assert(entries.take(n + 1).drop_last() =~= entries.take(n as int));
                assert(entries.take(n + 1).last() == entries[n as int]);
            }
            let decision: &LocalDecision = &decisions[n];
            self.apply_swmi_location_attachment_decision(
                port,
                decision.command_id,
                decision.itsi as u64,
                decision.air_handle,
                false,
                &decision.results,
            );
            n = n + 1;
        }
        assert(entries.take(entries.len() as int) =~= entries);
    }
}

fn seamless_handover(allocation: HandoverChannelAllocation) -> (channel: SeamlessHandover)
    ensures
        channel == crate::mm::model::seamless(allocation),
{
    SeamlessHandover {
        carrier: allocation.carrier,
        ts1: allocation.timeslot_bitmap & 1 != 0,
        ts2: allocation.timeslot_bitmap & 2 != 0,
        ts3: allocation.timeslot_bitmap & 4 != 0,
        ts4: allocation.timeslot_bitmap & 8 != 0,
        usage: allocation.usage,
    }
}

/// The decision that the station takes alone on a location update.
pub open spec fn local_registration(
    entry: (u64, crate::mm::pending::RegistrationView),
) -> RegistrationDecision {
    RegistrationDecision {
        command_id: entry.0,
        itsi: entry.1.head.itsi as u64,
        air_handle: entry.1.head.air_handle,
        accepted: true,
        cause: 0,
        energy_economy: match entry.1.head.energy_saving_information {
            Some(economy) => economy,
            None => EnergyEconomyAssignment::stay_alive(),
        },
        rua_requested: false,
        handover_allocation: None,
    }
}

/// The models of accepted recoveries.
pub open spec fn accepted_views(accepted: Seq<RecoveryAccepted>) -> Seq<
    crate::mm::pdu::RecoveryAcceptedView,
> {
    accepted.map_values(|subscriber: RecoveryAccepted| subscriber@)
}

/// What a message of the SwMI does.
pub open spec fn swmi_received(run: crate::mm::model::MmRun, message: MmSwmiMessage) -> crate::mm::model::MmRun {
    match message {
        MmSwmiMessage::RegistrationDecision(decision) => run.registration_decided(decision),
        MmSwmiMessage::AuthenticationChallenge {
            command_id,
            itsi,
            air_handle,
            rand_1,
            random_seed,
        } => run.authentication_expected(itsi, air_handle, command_id).pushed(
            crate::mm::pdu::MmMessageView::Downlink {
                issi: itsi as u32,
                handle: air_handle,
                pdu: MmPdu::AuthenticationDemand { rand_1, random_seed },
            },
        ),
        MmSwmiMessage::AuthenticationResult {
            command_id,
            itsi,
            air_handle,
            success,
            response_2,
        } => run.authentication_decided(command_id, itsi, air_handle, success, response_2),
        MmSwmiMessage::AuthenticationResponseDemand {
            command_id,
            itsi,
            air_handle,
            random_seed,
            response_2,
            mutual,
            rand_1,
        } => run.pushed(
            crate::mm::pdu::MmMessageView::Downlink {
                issi: itsi as u32,
                handle: air_handle,
                pdu: MmPdu::AuthenticationResponse { random_seed, response_2, mutual, rand_1 },
            },
        ).authentication_expected(itsi, air_handle, command_id),
        MmSwmiMessage::AttachmentDecision {
            command_id,
            itsi,
            air_handle,
            has_rejection,
            results,
        } => run.attachment_decided(command_id, itsi, air_handle, has_rejection, results@),
        MmSwmiMessage::SubscriberStateSync { itsi, groups, scanning_enabled, energy_economy } =>
            run.state_synced(itsi, groups@, scanning_enabled, energy_economy),
        MmSwmiMessage::LstRecoveryRequest { command_id } => run.recovery_requested(command_id),
        MmSwmiMessage::LstRecoveryResult { command_id, accepted, rejected } =>
            run.recovery_answered(command_id, accepted_views(accepted@), rejected@),
        MmSwmiMessage::DeregistrationNotice { command_id, itsi } => if command_id == 0 {
            run.discarded(itsi)
        } else {
            run
        },
        MmSwmiMessage::EnergyEconomyDecision {
            command_id,
            itsi,
            air_handle,
            accepted,
            energy_economy,
        } => run.energy_decided(command_id, itsi, air_handle, accepted, energy_economy),
        MmSwmiMessage::EnergyEconomyRebaseRequest { request_id, itsi, mode } =>
            run.rebase_requested(request_id, itsi, mode),
    }
}

/// What messages of the SwMI do.
pub open spec fn all_received(
    run: crate::mm::model::MmRun,
    messages: Seq<MmSwmiMessage>,
) -> crate::mm::model::MmRun
    decreases messages.len(),
{
    if messages.len() == 0 {
        run
    } else {
        swmi_received(all_received(run, messages.drop_last()), messages.last())
    }
}

/// What happens in one slot.
pub open spec fn ticked(
    run: crate::mm::model::MmRun,
    now: TdmaTime,
    messages: Seq<MmSwmiMessage>,
) -> crate::mm::model::MmRun {
    let started = crate::mm::model::MmRun {
        mm: crate::mm::model::MmView { now, ..run.mm },
        ..run
    };
    let timed = started.all_timed_out(crate::mm::model::expired(run.mm.deadlines, now));
    all_received(timed, messages).recovered()
}

/// An uplink PDU for mobility management.
#[derive(Debug)]
pub enum MmUplinkPdu {
    Authentication(UAuthentication),
    ItsiDetach,
    LocationUpdateDemand(ULocationUpdateDemand),
    Status(UMmStatus),
    AttachDetachGroupIdentity(UAttachDetachGroupIdentity),
    /// A PDU that the station does not act on.
    Other,
}

/// Whether an uplink PDU leads from one state to another.
pub open spec fn uplink_received(
    run: crate::mm::model::MmRun,
    prim: MmUplink,
    pdu: MmUplinkPdu,
    after: crate::mm::model::MmRun,
) -> bool {
    match pdu {
        MmUplinkPdu::Authentication(authentication) => after == run.authentication_received(
            prim.ssi,
            prim.handle,
            authentication,
        ),
        MmUplinkPdu::ItsiDetach => after == run.itsi_detach(prim.ssi),
        MmUplinkPdu::LocationUpdateDemand(demand) => exists|challenge: Option<[u8; 10]>|
            #[trigger]
            is_challenge(demand.authentication_uplink, challenge) && after == run.location_update(
                demand_view(prim, demand, challenge),
            ),
        MmUplinkPdu::Status(status) => after == run.status_reported(
            prim.ssi,
            prim.handle,
            status.status_uplink,
            status.information,
            status.information_len,
            payload_view(status.gateway_payload),
        ),
        MmUplinkPdu::AttachDetachGroupIdentity(request) => after
            == match request.group_identity_uplink {
            Some(groups) => run.groups_requested(
                prim.ssi,
                prim.handle,
                request.replace_all,
                groups@,
            ),
            None => run,
        },
        MmUplinkPdu::Other => after == run,
    }
}

impl MmBs {
    /// An uplink PDU.
    pub fn rx_lmm_mle_unitdata_ind(
        &mut self,
        port: &mut MmPort,
        prim: &MmUplink,
        pdu: &MmUplinkPdu,
    )
        requires
            old(self).wf(),
            pdu matches MmUplinkPdu::Status(status) ==> status.is_readable(),
        ensures
            final(self).wf(),
            uplink_received(old(self).run(*old(port)), *prim, *pdu, final(self).run(*final(port))),
    {
        match pdu {
            MmUplinkPdu::Authentication(authentication) => {
                self.rx_u_authentication(port, prim.ssi, prim.handle, *authentication);
            },
            MmUplinkPdu::ItsiDetach => {
                self.rx_u_itsi_detach(port, prim.ssi);
            },
            MmUplinkPdu::LocationUpdateDemand(demand) => {
                self.rx_u_location_update_demand(port, prim, demand);
            },
            MmUplinkPdu::Status(status) => {
                self.rx_u_mm_status(port, prim.ssi, prim.handle, status);
            },
            MmUplinkPdu::AttachDetachGroupIdentity(request) => {
                self.rx_u_attach_detach_group_identity(port, prim.ssi, prim.handle, request);
            },
            MmUplinkPdu::Other => {},
        }
    }
}

} // verus!
