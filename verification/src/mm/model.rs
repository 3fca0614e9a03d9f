//! What mobility management does, as functions from state to state.
use crate::bluestation::gateways::{DmMsRouteAddress, GatewaysView};
use crate::bluestation::subscribers::{RegistryView, Subscriber};
use crate::cmce::pdu::HandoverChannelAllocation;
use crate::mm::clients::{ClientsView, MmClient, MmClientState};
use crate::mm::pdu::{
    AcceptHead, AttachmentAttemptHead, AttachmentOperation, AttachmentResult, AuthenticationKey,
    AuthenticationMessage, EnergyEconomyAssignment, EnergySavingMode, GatewayAnswer,
    GatewayPayloadView, GatewayStateHead, GroupAccept, GroupIdentityAttachment,
    GroupIdentityDownlink, GroupIdentityUplink, LocationUpdateType, MmMessageView, MmPdu,
    MmRequest, RecoveryAcceptedView, RecoveryGroup, RecoverySubscriber, RegistrationAttemptHead,
    RegistrationDecision, SeamlessHandover, ShortElement, StatusDownlink, StatusUplink,
    SubscriberUpdateAction, UAuthentication, UpdateHead, UpdateReceiver,
    REATTACH_AFTER_REGISTRATION, REJECT_AUTHENTICATION_FAILURE, REJECT_MIGRATION_NOT_SUPPORTED,
    REJECT_NETWORK_FAILURE,
};
use crate::mm::pending::{
    AttachmentView, EnergyRequest, GroupOperation, LocationAttachmentView, RegistrationHead,
    RegistrationView,
};
use crate::swmi::SwmiEndpoint;
use crate::tdma::TdmaTime;
use vstd::prelude::*;

verus! {

/// The time a terminal waits for the response to a location update: ten
/// seconds.
pub const T351_TIMESLOTS: i32 = 720;

/// The state of mobility management.
#[verifier::ext_equal]
pub ghost struct MmView {
    pub clients: ClientsView,
    pub next_id: u64,
    pub registrations: Seq<(u64, RegistrationView)>,
    pub deadlines: Seq<(u64, TdmaTime)>,
    pub attachments: Seq<(u64, AttachmentView)>,
    pub location_attachments: Seq<(u64, LocationAttachmentView)>,
    pub energy: Seq<(u64, EnergyRequest)>,
    pub auth: Seq<(AuthenticationKey, u64)>,
    pub authenticated: Seq<(u64, bool)>,
    pub recoveries: Seq<(u64, bool)>,
    pub now: TdmaTime,
}

/// The state of mobility management with what surrounds it.
#[verifier::ext_equal]
pub ghost struct MmRun {
    pub mm: MmView,
    pub subscribers: RegistryView,
    pub gateways: GatewaysView,
    pub queue: Seq<MmMessageView>,
    pub link: SwmiEndpoint,
    pub brew: Option<Seq<(u32, u32)>>,
}

/// The command number after another. Zero is never one.
pub open spec fn number_after(id: u64) -> u64 {
    if id == u64::MAX {
        1
    } else {
        (id + 1) as u64
    }
}

/// The energy economy that a terminal is given: the mode it asks for, from the
/// next slot of the control channel on.
pub open spec fn economy_at(now: TdmaTime, mode: EnergySavingMode) -> EnergyEconomyAssignment {
    if mode == EnergySavingMode::StayAlive {
        EnergyEconomyAssignment::stay_alive()
    } else {
        let next = now.plus(1);
        let start = next.plus((1 - next.t) % 4);
        EnergyEconomyAssignment {
            mode,
            frame_number: Some(start.f),
            multiframe_number: Some(start.m),
        }
    }
}

/// The energy saving mode in the dependent information of a status: its first
/// three bits.
pub open spec fn mode_in(information: Option<u64>, len: Option<u8>) -> EnergySavingMode {
    match (information, len) {
        (Some(bits), Some(n)) if n >= 3 => match EnergySavingMode::from_code(
            bits >> ((n - 3) as u64),
        ) {
            Some(mode) => mode,
            None => EnergySavingMode::StayAlive,
        },
        _ => EnergySavingMode::StayAlive,
    }
}

/// Whether a terminal scans groups, by the first bit of the dependent
/// information of a status.
pub open spec fn scanning_in(information: Option<u64>, len: Option<u8>) -> bool {
    match (information, len) {
        (Some(bits), Some(n)) if n > 0 => (bits >> ((n - 1) as u64)) & 1 == 0,
        _ => true,
    }
}

/// With the energy economy of a registered terminal.
pub open spec fn registry_energy(
    registry: RegistryView,
    issi: u32,
    economy: EnergyEconomyAssignment,
) -> RegistryView {
    if registry.registered(issi) {
        registry.with(
            issi,
            Subscriber {
                energy_economy_mode: economy.mode.code(),
                energy_economy_frame_number: economy.frame_number,
                energy_economy_multiframe_number: economy.multiframe_number,
                ..registry.known(issi)
            },
        )
    } else {
        registry
    }
}

/// With the energy economy of a registered terminal still to be established.
pub open spec fn registry_activation(registry: RegistryView, issi: u32) -> RegistryView {
    if registry.registered(issi) {
        registry.with(
            issi,
            Subscriber { energy_economy_activation_pending: true, ..registry.known(issi) },
        )
    } else {
        registry
    }
}

/// With a registered terminal scanning groups, or not.
pub open spec fn registry_scanning(registry: RegistryView, issi: u32, enabled: bool) -> RegistryView {
    if registry.registered(issi) {
        registry.with(issi, Subscriber { scanning_enabled: enabled, ..registry.known(issi) })
    } else {
        registry
    }
}

/// With the assignment state of a registered terminal forgotten.
pub open spec fn registry_unassigned(registry: RegistryView, issi: u32) -> RegistryView {
    if registry.registered(issi) {
        registry.with(issi, Subscriber { rua_assigned: None, ..registry.known(issi) })
    } else {
        registry
    }
}

/// With a terminal detached from all of the groups.
pub open spec fn registry_detached(registry: RegistryView, issi: u32, groups: Seq<u32>) -> RegistryView
    decreases groups.len(),
{
    if groups.len() == 0 {
        registry
    } else {
        registry_detached(registry, issi, groups.drop_last()).detached(issi, groups.last())
    }
}

/// The groups that Brew carries.
pub open spec fn carried(brew: Seq<(u32, u32)>, groups: Seq<u32>) -> Seq<u32>
    decreases groups.len(),
{
    if groups.len() == 0 {
        Seq::empty()
    } else {
        let before = carried(brew, groups.drop_last());
        if crate::cmce::cc_model::brew_carries(brew, groups.last()) {
            before.push(groups.last())
        } else {
            before
        }
    }
}

/// The channel at the new cell.
pub open spec fn seamless(allocation: HandoverChannelAllocation) -> SeamlessHandover {
    SeamlessHandover {
        carrier: allocation.carrier,
        ts1: allocation.timeslot_bitmap & 1 != 0,
        ts2: allocation.timeslot_bitmap & 2 != 0,
        ts3: allocation.timeslot_bitmap & 4 != 0,
        ts4: allocation.timeslot_bitmap & 8 != 0,
        usage: allocation.usage,
    }
}

/// The authentication element of a location update accept: accepted, without
/// asking for the equipment identity or providing a cipher key.
pub open spec fn authentication_element(successful: bool) -> Option<ShortElement> {
    if successful {
        Some(ShortElement { len: 3, data: 4 })
    } else {
        None
    }
}

/// The proprietary element of a location update accept that asks for a radio
/// user assignment: owner 1, request 2, with an alpha tag.
pub open spec fn assignment_element(requested: bool) -> Option<ShortElement> {
    if requested {
        Some(ShortElement { len: 15, data: 148 })
    } else {
        None
    }
}

/// The response that accepts a location update.
pub open spec fn accept(
    registration: RegistrationHead,
    group_accept: Option<GroupAccept>,
    groups: Seq<GroupIdentityDownlink>,
    seamless_handover: Option<SeamlessHandover>,
    rua_requested: bool,
) -> MmMessageView {
    MmMessageView::Accept {
        handle: registration.air_handle,
        head: AcceptHead {
            location_update_type: registration.location_update_type,
            ssi: registration.itsi,
            energy_saving_information: registration.energy_saving_information,
            group_accept,
            authentication_downlink: authentication_element(registration.authentication_successful),
            proprietary: assignment_element(rua_requested),
            seamless_handover,
        },
        groups,
    }
}

/// The response that rejects a location update.
pub open spec fn reject(
    issi: u32,
    handle: u32,
    location_update_type: LocationUpdateType,
    address_extension: Option<u64>,
    reject_cause: u8,
) -> MmMessageView {
    MmMessageView::Downlink {
        issi,
        handle,
        pdu: MmPdu::LocationUpdateReject { location_update_type, reject_cause, address_extension },
    }
}

/// The command to register with a full group report.
pub open spec fn command_report(issi: u32, handle: u32) -> MmMessageView {
    MmMessageView::Downlink {
        issi,
        handle,
        pdu: MmPdu::LocationUpdateCommand { group_identity_report: true },
    }
}

/// A response on gateway operation.
pub open spec fn gateway_status(
    issi: u32,
    handle: u32,
    status_downlink: StatusDownlink,
    answer: GatewayAnswer,
) -> MmMessageView {
    MmMessageView::Downlink { issi, handle, pdu: MmPdu::GatewayStatus { status_downlink, answer } }
}

/// Changes to groups as they are carried out one by one.
#[verifier::ext_equal]
pub ghost struct GroupRun {
    pub run: MmRun,
    /// The groups that the response names.
    pub answer: Seq<GroupIdentityDownlink>,
    pub affiliated: Seq<u32>,
    pub deaffiliated: Seq<u32>,
    pub rejected: bool,
}

impl MmRun {
    /// With a message handed on.
    pub open spec fn pushed(self, message: MmMessageView) -> MmRun {
        MmRun { queue: self.queue.push(message), ..self }
    }

    /// With a message submitted to the SwMI, if it is taken.
    pub open spec fn submitted(self, message: MmMessageView) -> MmRun {
        if self.link.takes() {
            self.pushed(message)
        } else {
            self
        }
    }

    /// With a command number used.
    pub open spec fn numbered(self) -> MmRun {
        MmRun { mm: MmView { next_id: number_after(self.mm.next_id), ..self.mm }, ..self }
    }

    /// With a subscriber's change told: to Brew as far as Brew carries it, and
    /// always to call control.
    pub open spec fn emitted(self, issi: u32, groups: Seq<u32>, action: SubscriberUpdateAction) -> MmRun {
        let told = match self.brew {
            Some(brew) => {
                let brew_groups = carried(brew, groups);
                let wanted = match action {
                    SubscriberUpdateAction::Register | SubscriberUpdateAction::Deregister =>
                        crate::cmce::cc_model::brew_carries(brew, issi),
                    SubscriberUpdateAction::Affiliate | SubscriberUpdateAction::Deaffiliate =>
                        brew_groups.len() > 0,
                    SubscriberUpdateAction::ScanningState => false,
                };
                if wanted {
                    self.pushed(
                        MmMessageView::Update {
                            head: UpdateHead {
                                to: UpdateReceiver::Brew,
                                issi,
                                action,
                                scanning_enabled: None,
                            },
                            groups: brew_groups,
                            classes: Seq::empty(),
                        },
                    )
                } else {
                    self
                }
            },
            None => self,
        };
        told.pushed(
            MmMessageView::Update {
                head: UpdateHead {
                    to: UpdateReceiver::Cmce,
                    issi,
                    action,
                    scanning_enabled: None,
                },
                groups,
                classes: groups.map_values(|gssi: u32| self.mm.clients.class(issi, gssi)),
            },
        )
    }

    /// With a subscriber's change told, if there are groups.
    pub open spec fn emitted_some(
        self,
        issi: u32,
        groups: Seq<u32>,
        action: SubscriberUpdateAction,
    ) -> MmRun {
        if groups.len() > 0 {
            self.emitted(issi, groups, action)
        } else {
            self
        }
    }

    /// With the scanning state of a terminal told to call control.
    pub open spec fn scanning_told(self, issi: u32, enabled: bool) -> MmRun {
        self.pushed(
            MmMessageView::Update {
                head: UpdateHead {
                    to: UpdateReceiver::Cmce,
                    issi,
                    action: SubscriberUpdateAction::ScanningState,
                    scanning_enabled: Some(enabled),
                },
                groups: Seq::empty(),
                classes: Seq::empty(),
            },
        )
    }

    /// With an energy economy stored.
    pub open spec fn energy_stored(self, issi: u32, economy: EnergyEconomyAssignment) -> MmRun {
        MmRun {
            mm: MmView {
                clients: self.mm.clients.with(
                    issi,
                    MmClient { energy_economy: economy, ..self.mm.clients.client(issi) },
                ),
                ..self.mm
            },
            subscribers: registry_energy(self.subscribers, issi, economy),
            ..self
        }
    }

    /// With an energy economy stored, to be established by the next response.
    pub open spec fn energy_applied(self, issi: u32, economy: EnergyEconomyAssignment) -> MmRun {
        let stored = self.energy_stored(issi, economy);
        if economy.mode != EnergySavingMode::StayAlive {
            MmRun { subscribers: registry_activation(stored.subscribers, issi), ..stored }
        } else {
            stored
        }
    }

    /// With the state of a gateway published.
    pub open spec fn published(self, gateway_issi: u32, active: bool) -> MmRun {
        if !self.link.is_online() {
            self
        } else {
            let session = self.gateways.session(gateway_issi);
            self.numbered().submitted(
                MmMessageView::GatewayState {
                    head: GatewayStateHead {
                        command_id: self.mm.next_id,
                        gateway_issi: gateway_issi as u64,
                        active,
                        dmo_carrier: match session {
                            Some(found) => found.dmo_carrier,
                            None => None,
                        },
                    },
                    addresses: if session is Some {
                        crate::bluestation::gateways::addresses_behind(
                            self.gateways.routes,
                            gateway_issi,
                        )
                    } else {
                        Seq::empty()
                    },
                },
            )
        }
    }

    /// Without a terminal: its registration, its gateway and its groups.
    #[verifier::opaque]
    pub open spec fn removed(self, issi: u32) -> MmRun {
        if !self.mm.clients.known(issi) {
            self
        } else {
            let groups = self.mm.clients.groups(issi);
            let forgotten = MmRun {
                mm: MmView { clients: self.mm.clients.removed(issi), ..self.mm },
                subscribers: self.subscribers.deregistered(issi),
                ..self
            };
            let closed = if forgotten.gateways.is_active(issi) {
                MmRun { gateways: forgotten.gateways.deactivated(issi), ..forgotten }.published(
                    issi,
                    false,
                )
            } else {
                forgotten
            };
            closed.emitted_some(issi, groups, SubscriberUpdateAction::Deaffiliate).emitted(
                issi,
                Seq::empty(),
                SubscriberUpdateAction::Deregister,
            )
        }
    }

    /// U-ITSI DETACH: the SwMI is told, and the terminal forgotten.
    pub open spec fn itsi_detach(self, issi: u32) -> MmRun {
        let told = if self.link.is_online() {
            self.numbered().submitted(
                MmMessageView::Request(
                    MmRequest::DeregistrationNotice {
                        command_id: self.mm.next_id,
                        itsi: issi as u64,
                    },
                ),
            )
        } else {
            self
        };
        told.removed(issi)
    }

    /// With a terminal registered, which is told.
    pub open spec fn registered(self, issi: u32) -> MmRun {
        MmRun {
            mm: MmView {
                clients: self.mm.clients.registered(issi, MmClientState::Attached),
                ..self.mm
            },
            subscribers: self.subscribers.registering(issi),
            ..self
        }.emitted(issi, Seq::empty(), SubscriberUpdateAction::Register)
    }

    /// With a known terminal attached.
    pub open spec fn attached(self, issi: u32) -> MmRun {
        MmRun {
            mm: MmView {
                clients: self.mm.clients.with(
                    issi,
                    MmClient { state: MmClientState::Attached, ..self.mm.clients.client(issi) },
                ),
                ..self.mm
            },
            ..self
        }
    }

    /// With the delivery of a registration awaited, or not.
    pub open spec fn awaiting(self, issi: u32, pending: bool) -> MmRun {
        MmRun { subscribers: self.subscribers.awaiting(issi, pending), ..self }
    }

    /// With a registration delivered.
    pub open spec fn activated(self, issi: u32) -> MmRun {
        MmRun { subscribers: self.subscribers.activated(issi), ..self }
    }

    /// With all groups of a known terminal detached, which is told.
    #[verifier::opaque]
    pub open spec fn groups_cleared(self, issi: u32) -> MmRun {
        let groups = self.mm.clients.groups(issi);
        let cleared = MmRun {
            mm: MmView { clients: self.mm.clients.without_groups(issi), ..self.mm },
            ..self
        };
        if self.mm.clients.known(issi) && groups.len() > 0 {
            MmRun {
                subscribers: registry_detached(cleared.subscribers, issi, groups),
                ..cleared
            }.emitted(issi, groups, SubscriberUpdateAction::Deaffiliate)
        } else {
            cleared
        }
    }

    /// With a terminal in a group, or not; the registry follows where that is a
    /// change.
    pub open spec fn with_group(self, issi: u32, gssi: u32, attach: bool, class: u8) -> MmRun {
        let changed = self.mm.clients.in_group(issi, gssi) != attach;
        MmRun {
            mm: MmView {
                clients: self.mm.clients.with_group(issi, gssi, attach, class),
                ..self.mm
            },
            subscribers: if !changed {
                self.subscribers
            } else if attach {
                self.subscribers.attached(issi, gssi)
            } else {
                self.subscribers.detached(issi, gssi)
            },
            ..self
        }
    }

    /// Nothing done to groups yet.
    pub open spec fn group_run(self, rejected: bool) -> GroupRun {
        GroupRun {
            run: self,
            answer: Seq::empty(),
            affiliated: Seq::empty(),
            deaffiliated: Seq::empty(),
            rejected,
        }
    }

    /// The groups that the station changes alone.
    pub open spec fn groups_changed(self, issi: u32, groups: Seq<GroupIdentityUplink>) -> GroupRun
        decreases groups.len(),
    {
        if groups.len() == 0 {
            self.group_run(false)
        } else {
            self.groups_changed(issi, groups.drop_last()).requested(issi, groups.last())
        }
    }

    /// The groups that the station changes alone, told.
    pub open spec fn groups_tried(self, issi: u32, groups: Seq<GroupIdentityUplink>) -> MmRun {
        self.groups_changed(issi, groups).told(issi)
    }

    /// The groups that the response names.
    pub open spec fn groups_answered(self, issi: u32, groups: Seq<GroupIdentityUplink>) -> Seq<
        GroupIdentityDownlink,
    > {
        self.groups_changed(issi, groups).answer
    }

    /// The first `n` changes that the SwMI decided on.
    pub open spec fn groups_decided(
        self,
        issi: u32,
        has_rejection: bool,
        results: Seq<AttachmentResult>,
        operations: Seq<GroupOperation>,
        n: nat,
    ) -> GroupRun
        decreases n,
    {
        if n == 0 {
            self.group_run(has_rejection)
        } else {
            self.groups_decided(issi, has_rejection, results, operations, (n - 1) as nat).decided(
                issi,
                results[n - 1],
                operations[n - 1],
            )
        }
    }

    /// A decision of the SwMI on groups, carried out: where all groups are
    /// replaced and at least one is attached, the others go first.
    #[verifier::opaque]
    pub open spec fn groups_settled(
        self,
        has_rejection: bool,
        pending: AttachmentView,
        results: Seq<AttachmentResult>,
    ) -> GroupRun {
        let cleared = if pending.replace_all && attaches(results) {
            self.groups_cleared(pending.itsi)
        } else {
            self
        };
        let after = cleared.groups_decided(
            pending.itsi,
            has_rejection,
            results,
            pending.operations,
            results.len(),
        );
        GroupRun { run: after.told(pending.itsi), ..after }
    }

    /// With an energy economy request that waits.
    pub open spec fn awaiting_energy(self, id: u64, request: EnergyRequest) -> MmRun {
        MmRun {
            mm: MmView { energy: crate::table::put(self.mm.energy, id, request), ..self.mm },
            ..self
        }
    }
}

/// Whether a group is attached by the decisions.
pub open spec fn attaches(results: Seq<AttachmentResult>) -> bool {
    exists|i: int|
        0 <= i < results.len() && (#[trigger] results[i]).accepted && !results[i].operation.detach
}

impl GroupRun {
    /// With one change of a request carried out. A group that is not named by
    /// its short identity, or that the terminal cannot be in, is passed over.
    pub open spec fn requested(self, issi: u32, group: GroupIdentityUplink) -> GroupRun {
        if group.gssi is None || group.vgssi is Some || group.address_extension is Some {
            self
        } else if self.run.mm.clients.group_fault(issi, group.gssi->0) is Some {
            self
        } else {
            let gssi = group.gssi->0;
            let detach = group.group_identity_detachment_uplink is Some;
            let changed = self.run.mm.clients.in_group(issi, gssi) == detach;
            GroupRun {
                run: self.run.with_group(
                    issi,
                    gssi,
                    !detach,
                    if detach {
                        0
                    } else {
                        group.class()
                    },
                ),
                answer: self.answer.push(
                    GroupIdentityDownlink {
                        gssi,
                        attachment: if detach {
                            None
                        } else {
                            Some(
                                GroupIdentityAttachment {
                                    lifetime: REATTACH_AFTER_REGISTRATION,
                                    class_of_usage: group.class(),
                                },
                            )
                        },
                        detachment: group.group_identity_detachment_uplink,
                    },
                ),
                affiliated: if changed && !detach {
                    self.affiliated.push(gssi)
                } else {
                    self.affiliated
                },
                deaffiliated: if changed && detach {
                    self.deaffiliated.push(gssi)
                } else {
                    self.deaffiliated
                },
                rejected: self.rejected,
            }
        }
    }

    /// With one decision of the SwMI carried out. A group that is rejected is
    /// named as detached, so that the terminal does not take it for accepted.
    pub open spec fn decided(
        self,
        issi: u32,
        result: AttachmentResult,
        operation: GroupOperation,
    ) -> GroupRun {
        let gssi = result.operation.gssi;
        let detach = result.operation.detach;
        if !result.accepted {
            GroupRun {
                answer: self.answer.push(
                    GroupIdentityDownlink { gssi, attachment: None, detachment: Some(0) },
                ),
                rejected: true,
                ..self
            }
        } else if self.run.mm.clients.group_fault(issi, gssi) is Some {
            GroupRun { rejected: true, ..self }
        } else {
            let changed = self.run.mm.clients.in_group(issi, gssi) == detach;
            GroupRun {
                run: self.run.with_group(issi, gssi, !detach, result.operation.class_of_usage),
                answer: self.answer.push(
                    GroupIdentityDownlink {
                        gssi,
                        attachment: if detach {
                            None
                        } else {
                            Some(
                                GroupIdentityAttachment {
                                    lifetime: REATTACH_AFTER_REGISTRATION,
                                    class_of_usage: result.operation.class_of_usage,
                                },
                            )
                        },
                        detachment: if detach {
                            match operation.detachment {
                                Some(reason) => Some(reason),
                                None => Some(0),
                            }
                        } else {
                            None
                        },
                    },
                ),
                affiliated: if changed && !detach {
                    self.affiliated.push(gssi)
                } else {
                    self.affiliated
                },
                deaffiliated: if changed && detach {
                    self.deaffiliated.push(gssi)
                } else {
                    self.deaffiliated
                },
                rejected: self.rejected,
            }
        }
    }

    /// The changes, told.
    pub open spec fn told(self, issi: u32) -> MmRun {
        self.run.emitted_some(
            issi,
            self.affiliated,
            SubscriberUpdateAction::Affiliate,
        ).emitted_some(issi, self.deaffiliated, SubscriberUpdateAction::Deaffiliate)
    }
}

/// A location update as the station reads it.
#[verifier::ext_equal]
pub ghost struct DemandView {
    pub issi: u32,
    pub handle: u32,
    pub target: Option<String>,
    pub location_update_type: LocationUpdateType,
    pub supported: bool,
    pub class_of_ms: Option<u32>,
    pub energy_saving_mode: Option<EnergySavingMode>,
    pub address_extension: Option<u64>,
    /// Whether the groups replace all others, and the groups, if any are named.
    pub groups: Option<(bool, Option<Seq<GroupIdentityUplink>>)>,
    /// The random number of the terminal, if it authenticates the network.
    pub challenge: Option<[u8; 10]>,
}

impl DemandView {
    /// The energy economy that the terminal is given.
    pub open spec fn economy(self, now: TdmaTime) -> EnergyEconomyAssignment {
        economy_at(
            now,
            match self.energy_saving_mode {
                Some(mode) => mode,
                None => EnergySavingMode::StayAlive,
            },
        )
    }

    /// The energy economy that the response names.
    pub open spec fn information(self, now: TdmaTime) -> Option<EnergyEconomyAssignment> {
        if self.energy_saving_mode is Some {
            Some(self.economy(now))
        } else {
            None
        }
    }

    /// The groups that the SwMI decides on, if every one is named.
    pub open spec fn attachment(self) -> Option<AttachmentView> {
        match self.groups {
            Some((replace_all, Some(groups))) => match crate::mm::pending::named(groups) {
                Some(operations) => Some(
                    AttachmentView {
                        itsi: self.issi,
                        air_handle: self.handle,
                        replace_all,
                        operations,
                    },
                ),
                None => None,
            },
            _ => None,
        }
    }

    /// The attempt that is submitted to the SwMI.
    pub open spec fn attempt(self, id: u64, now: TdmaTime) -> MmMessageView {
        MmMessageView::RegistrationAttempt {
            head: RegistrationAttemptHead {
                command_id: id,
                itsi: self.issi as u64,
                air_handle: self.handle,
                location_update_type: self.location_update_type.code(),
                address_extension: self.address_extension,
                energy_economy: self.economy(now),
                authentication: match self.challenge {
                    Some(rand_2) => Some(
                        AuthenticationMessage {
                            command_id: id,
                            itsi: self.issi as u64,
                            air_handle: self.handle,
                            response_1: None,
                            rand_2: Some(rand_2),
                            mutual: true,
                            authentication_result: None,
                        },
                    ),
                    None => None,
                },
            },
            target: self.target,
        }
    }

    /// The location update as it waits for the SwMI.
    pub open spec fn waiting(self, now: TdmaTime) -> RegistrationView {
        RegistrationView {
            head: self.head(now),
            attachment: self.attachment(),
            target: self.target,
        }
    }

    /// The location update, besides its groups.
    pub open spec fn head(self, now: TdmaTime) -> RegistrationHead {
        RegistrationHead {
            itsi: self.issi,
            air_handle: self.handle,
            location_update_type: self.location_update_type,
            address_extension: self.address_extension,
            energy_saving_information: self.information(now),
            has_group_identity_location_demand: self.groups is Some,
            authentication_successful: false,
        }
    }

    /// Whether the terminal asks to migrate.
    pub open spec fn migrates(self) -> bool {
        self.location_update_type == LocationUpdateType::MigratingLocationUpdating
            || self.location_update_type
            == LocationUpdateType::ServiceRestorationMigratingLocationUpdating
    }
}

impl MmRun {
    /// U-LOCATION UPDATE DEMAND.
    #[verifier::opaque]
    pub open spec fn location_update(self, demand: DemandView) -> MmRun {
        if demand.migrates() {
            self.pushed(
                reject(
                    demand.issi,
                    demand.handle,
                    demand.location_update_type,
                    demand.address_extension,
                    REJECT_MIGRATION_NOT_SUPPORTED,
                ),
            )
        } else if !demand.supported {
            self
        } else if self.link.is_online() {
            let asked = self.numbered();
            if self.link.takes() {
                asked.pushed(demand.attempt(self.mm.next_id, self.mm.now)).awaiting(
                    demand.issi,
                    true,
                ).waiting_for(self.mm.next_id, demand.waiting(self.mm.now))
            } else {
                asked.location_update_alone(demand)
            }
        } else {
            self.location_update_alone(demand)
        }
    }

    /// With a location update that waits for the SwMI.
    pub open spec fn waiting_for(self, id: u64, registration: RegistrationView) -> MmRun {
        MmRun {
            mm: MmView {
                registrations: crate::table::put(self.mm.registrations, id, registration),
                deadlines: crate::table::put(
                    self.mm.deadlines,
                    id,
                    self.mm.now.plus(T351_TIMESLOTS as int),
                ),
                ..self.mm
            },
            ..self
        }
    }

    /// A location update that the station decides alone.
    #[verifier::opaque]
    pub open spec fn location_update_alone(self, demand: DemandView) -> MmRun {
        let issi = demand.issi;
        let is_new = !self.mm.clients.known(issi);
        if is_new && !crate::mm::clients::is_assigned_ssi(issi) {
            self
        } else {
            let entered = if is_new {
                self.registered(issi)
            } else {
                self.attached(issi)
            };
            let prepared = entered.awaiting(issi, true).energy_applied(
                issi,
                demand.economy(self.mm.now),
            );
            let cleared = match demand.groups {
                Some((true, _)) => prepared.groups_cleared(issi),
                _ => prepared,
            };
            let grouped = match demand.groups {
                Some((_, Some(groups))) => cleared.groups_tried(issi, groups),
                _ => cleared,
            };
            let classed = MmRun {
                mm: MmView {
                    clients: grouped.mm.clients.with(
                        issi,
                        MmClient {
                            class_of_ms: demand.class_of_ms,
                            ..grouped.mm.clients.client(issi)
                        },
                    ),
                    ..grouped.mm
                },
                ..grouped
            };
            let answered = classed.pushed(
                accept(
                    demand.head(self.mm.now),
                    match demand.groups {
                        Some((_, groups)) => Some(
                            GroupAccept { rejected: false, listed: groups is Some },
                        ),
                        None => None,
                    },
                    match demand.groups {
                        Some((_, Some(groups))) => cleared.groups_answered(issi, groups),
                        _ => Seq::empty(),
                    },
                    None,
                    false,
                ),
            ).activated(issi);
            if is_new && demand.location_update_type != LocationUpdateType::ItsiAttach
                && demand.groups is None {
                answered.pushed(command_report(issi, demand.handle))
            } else {
                answered
            }
        }
    }

    /// A change of the energy saving mode that a terminal asks for.
    pub open spec fn energy_requested(self, issi: u32, handle: u32, mode: EnergySavingMode) -> MmRun {
        let economy = economy_at(self.mm.now, mode);
        if self.link.is_online() && self.link.takes() {
            self.numbered().pushed(
                MmMessageView::Request(
                    MmRequest::EnergyEconomyUpdate {
                        command_id: self.mm.next_id,
                        itsi: issi as u64,
                        air_handle: handle,
                        energy_economy: economy,
                    },
                ),
            ).awaiting_energy(self.mm.next_id, EnergyRequest { issi, air_handle: handle })
        } else {
            let before = if self.link.is_online() {
                self.numbered()
            } else {
                self
            };
            before.energy_applied(issi, economy).pushed(
                MmMessageView::Downlink {
                    issi,
                    handle,
                    pdu: MmPdu::EnergySavingResponse { information: economy },
                },
            )
        }
    }

    /// A change of the scanning state that a terminal reports.
    pub open spec fn scanning_changed(self, issi: u32, enabled: bool) -> MmRun {
        let stored = if self.mm.clients.known(issi) {
            MmRun {
                mm: MmView {
                    clients: self.mm.clients.with(
                        issi,
                        MmClient { scanning_enabled: enabled, ..self.mm.clients.client(issi) },
                    ),
                    ..self.mm
                },
                subscribers: registry_scanning(self.subscribers, issi, enabled),
                ..self
            }
        } else {
            self
        };
        let told = if self.link.is_online() {
            stored.numbered().submitted(
                MmMessageView::Request(
                    MmRequest::ScanningStateUpdate {
                        command_id: self.mm.next_id,
                        itsi: issi as u64,
                        scanning_enabled: enabled,
                    },
                ),
            )
        } else {
            stored
        };
        told.scanning_told(issi, enabled)
    }

    /// With the gateways changed, published and answered.
    pub open spec fn gateway_changed(
        self,
        gateways: GatewaysView,
        issi: u32,
        handle: u32,
        active: bool,
        status_downlink: StatusDownlink,
        answer: GatewayAnswer,
    ) -> MmRun {
        MmRun { gateways, ..self }.published(issi, active).pushed(
            gateway_status(issi, handle, status_downlink, answer),
        )
    }

    /// U-MM STATUS.
    #[verifier::opaque]
    pub open spec fn status_reported(
        self,
        issi: u32,
        handle: u32,
        status: StatusUplink,
        information: Option<u64>,
        len: Option<u8>,
        payload: Option<GatewayPayloadView>,
    ) -> MmRun {
        match status {
            StatusUplink::ChangeOfEnergySavingModeRequest => self.energy_requested(
                issi,
                handle,
                mode_in(information, len),
            ),
            StatusUplink::ChangeOfEnergySavingModeResponse => self.energy_stored(
                issi,
                economy_at(self.mm.now, mode_in(information, len)),
            ),
            StatusUplink::ChangeOfScanningState => self.scanning_changed(
                issi,
                scanning_in(information, len),
            ),
            StatusUplink::RequestToStartDmGatewayOperation => match payload {
                Some(GatewayPayloadView::Start { addresses, dmo_carrier }) => if self.subscribers.registered(
                    issi,
                ) {
                    self.gateway_changed(
                        self.gateways.activated(issi, dmo_carrier, addresses, self.mm.now),
                        issi,
                        handle,
                        true,
                        StatusDownlink::AcceptanceToStartDmGatewayOperation,
                        GatewayAnswer::NoRejectedAddresses,
                    )
                } else {
                    self.pushed(
                        gateway_status(
                            issi,
                            handle,
                            StatusDownlink::RejectionToStartDmGatewayOperation,
                            GatewayAnswer::Empty,
                        ),
                    )
                },
                _ => self,
            },
            StatusUplink::RequestToContinueDmGatewayOperation => match payload {
                Some(GatewayPayloadView::Continue { dmo_carrier }) => if self.gateways.is_active(
                    issi,
                ) {
                    self.gateway_changed(
                        self.gateways.retuned(issi, dmo_carrier, self.mm.now),
                        issi,
                        handle,
                        true,
                        StatusDownlink::AcceptanceToContinueDmGatewayOperation,
                        GatewayAnswer::RetainedAddressSet(true),
                    )
                } else {
                    self.pushed(
                        gateway_status(
                            issi,
                            handle,
                            StatusDownlink::RejectionToContinueDmGatewayOperation,
                            GatewayAnswer::Empty,
                        ),
                    )
                },
                _ => self,
            },
            StatusUplink::RequestToStopDmGatewayOperation => self.gateway_changed(
                self.gateways.deactivated(issi),
                issi,
                handle,
                false,
                StatusDownlink::AcceptanceToStopDmGatewayOperation,
                GatewayAnswer::Empty,
            ),
            StatusUplink::RequestToAddDmMsAddresses => self.addresses_changed(
                issi,
                handle,
                payload,
                |addresses: Seq<DmMsRouteAddress>|
                    self.gateways.extended(issi, addresses, self.mm.now),
            ),
            StatusUplink::RequestToRemoveDmMsAddresses => self.addresses_changed(
                issi,
                handle,
                payload,
                |addresses: Seq<DmMsRouteAddress>|
                    self.gateways.reduced(issi, addresses, self.mm.now),
            ),
            StatusUplink::RequestToReplaceDmMsAddresses => self.addresses_changed(
                issi,
                handle,
                payload,
                |addresses: Seq<DmMsRouteAddress>|
                    self.gateways.replaced(issi, addresses, self.mm.now),
            ),
            StatusUplink::AcceptanceToRemovalOfDmMsAddresses
            | StatusUplink::AcceptanceToChangeRegistrationLabel
            | StatusUplink::AcceptanceToStopDmGatewayOperation => MmRun {
                gateways: self.gateways.seen(issi, self.mm.now),
                ..self
            },
            StatusUplink::Other(_) => self.pushed(
                MmMessageView::Downlink {
                    issi,
                    handle,
                    pdu: MmPdu::FunctionNotSupported { status_uplink: status },
                },
            ),
        }
    }

    /// With the addresses behind an active gateway changed.
    pub open spec fn addresses_changed(
        self,
        issi: u32,
        handle: u32,
        payload: Option<GatewayPayloadView>,
        change: spec_fn(Seq<DmMsRouteAddress>) -> GatewaysView,
    ) -> MmRun {
        match payload {
            Some(GatewayPayloadView::Addresses(addresses)) => if self.gateways.is_active(issi) {
                self.gateway_changed(
                    change(addresses),
                    issi,
                    handle,
                    true,
                    StatusDownlink::AcceptanceOfDmMsAddresses,
                    GatewayAnswer::NoRejectedAddresses,
                )
            } else {
                self
            },
            _ => self,
        }
    }

    /// U-ATTACH/DETACH GROUP IDENTITY.
    #[verifier::opaque]
    pub open spec fn groups_requested(
        self,
        issi: u32,
        handle: u32,
        replace_all: bool,
        groups: Seq<GroupIdentityUplink>,
    ) -> MmRun {
        match crate::mm::pending::named(groups) {
            Some(operations) if self.link.is_online() => if self.link.takes() {
                self.numbered().pushed(
                    MmMessageView::AttachmentAttempt {
                        head: AttachmentAttemptHead {
                            command_id: self.mm.next_id,
                            itsi: issi as u64,
                            air_handle: handle,
                            replace_all,
                        },
                        operations: crate::mm::pending::asked(operations),
                    },
                ).awaiting_groups(
                    self.mm.next_id,
                    AttachmentView { itsi: issi, air_handle: handle, replace_all, operations },
                )
            } else {
                self.numbered().groups_requested_alone(issi, handle, replace_all, groups)
            },
            _ => self.groups_requested_alone(issi, handle, replace_all, groups),
        }
    }

    /// With a change to groups that waits for the SwMI.
    pub open spec fn awaiting_groups(self, id: u64, attachment: AttachmentView) -> MmRun {
        MmRun {
            mm: MmView {
                attachments: crate::table::put(self.mm.attachments, id, attachment),
                ..self.mm
            },
            ..self
        }
    }

    /// A change to groups that the station decides alone. A terminal that is
    /// not known and replaces all its groups is registered.
    #[verifier::opaque]
    pub open spec fn groups_requested_alone(
        self,
        issi: u32,
        handle: u32,
        replace_all: bool,
        groups: Seq<GroupIdentityUplink>,
    ) -> MmRun {
        let known = self.mm.clients.known(issi);
        if replace_all && !known && !crate::mm::clients::is_assigned_ssi(issi) {
            self
        } else {
            let cleared = if !replace_all {
                self
            } else if known {
                self.groups_cleared(issi)
            } else {
                self.registered(issi)
            };
            cleared.groups_tried(issi, groups).pushed(
                MmMessageView::Acknowledge {
                    issi,
                    handle,
                    rejected: false,
                    groups: cleared.groups_answered(issi, groups),
                },
            )
        }
    }

    /// U-AUTHENTICATION.
    pub open spec fn authentication_received(
        self,
        issi: u32,
        handle: u32,
        pdu: UAuthentication,
    ) -> MmRun {
        let found = crate::table::lookup(
            self.mm.auth,
            AuthenticationKey { issi, air_handle: handle },
        );
        let (id, counted) = match found {
            Some(id) => (id, self),
            None => (self.mm.next_id, self.numbered()),
        };
        if !self.link.present {
            counted
        } else {
            counted.submitted(
                MmMessageView::Request(
                    MmRequest::AuthenticationResponse(
                        AuthenticationMessage {
                            command_id: id,
                            itsi: issi as u64,
                            air_handle: handle,
                            response_1: pdu.response_1,
                            rand_2: pdu.rand_2,
                            mutual: pdu.mutual,
                            authentication_result: pdu.authentication_result,
                        },
                    ),
                ),
            ).authenticated(id, pdu.authentication_result)
        }
    }

    /// With the outcome of an authentication noted, if there is one.
    pub open spec fn authenticated(self, id: u64, outcome: Option<bool>) -> MmRun {
        MmRun {
            mm: MmView {
                authenticated: match outcome {
                    Some(true) => crate::table::put(self.mm.authenticated, id, true),
                    Some(false) => crate::table::del(self.mm.authenticated, id),
                    None => self.mm.authenticated,
                },
                ..self.mm
            },
            ..self
        }
    }

    /// Without the authentication of a registration, as far as it is the
    /// current one.
    pub open spec fn authentication_closed(self, key: AuthenticationKey, id: u64) -> MmRun {
        MmRun {
            mm: MmView {
                authenticated: crate::table::del(self.mm.authenticated, id),
                auth: if crate::table::lookup(self.mm.auth, key) == Some(id) {
                    crate::table::del(self.mm.auth, key)
                } else {
                    self.mm.auth
                },
                ..self.mm
            },
            ..self
        }
    }

    /// A decision of the SwMI on a registration.
    #[verifier::opaque]
    pub open spec fn registration_decided(self, decision: RegistrationDecision) -> MmRun {
        let id = decision.command_id;
        match crate::table::lookup(self.mm.registrations, id) {
            None => self,
            Some(pending) => {
                let untimed = MmRun {
                    mm: MmView {
                        deadlines: crate::table::del(self.mm.deadlines, id),
                        ..self.mm
                    },
                    ..self
                };
                if pending.head.itsi as u64 != decision.itsi || pending.head.air_handle
                    != decision.air_handle {
                    untimed
                } else {
                    let taken = MmRun {
                        mm: MmView {
                            registrations: crate::table::del(untimed.mm.registrations, id),
                            ..untimed.mm
                        },
                        ..untimed
                    };
                    let closed = taken.authentication_closed(
                        AuthenticationKey {
                            issi: pending.head.itsi,
                            air_handle: pending.head.air_handle,
                        },
                        id,
                    );
                    let head = RegistrationHead {
                        authentication_successful: crate::table::contains(
                            self.mm.authenticated,
                            id,
                        ),
                        ..pending.head
                    };
                    if decision.accepted {
                        closed.registration_accepted(
                            decision,
                            RegistrationView { head, ..pending },
                        )
                    } else {
                        closed.awaiting(head.itsi, false).pushed(
                            reject(
                                head.itsi,
                                head.air_handle,
                                head.location_update_type,
                                head.address_extension,
                                decision.cause as u8,
                            ),
                        )
                    }
                }
            },
        }
    }

    /// A registration that the SwMI accepts.
    #[verifier::opaque]
    pub open spec fn registration_accepted(
        self,
        decision: RegistrationDecision,
        pending: RegistrationView,
    ) -> MmRun {
        let economy = decision.energy_economy;
        let issi = pending.head.itsi;
        let head = RegistrationHead {
            energy_saving_information: if economy.mode != EnergySavingMode::StayAlive {
                Some(economy)
            } else {
                None
            },
            ..pending.head
        };
        let plain = if head.has_group_identity_location_demand {
            Some(GroupAccept { rejected: false, listed: false })
        } else {
            None
        };
        let is_new = !self.mm.clients.known(issi);
        if pending.target is Some {
            self.awaiting(issi, false).pushed(
                accept(
                    head,
                    plain,
                    Seq::empty(),
                    match decision.handover_allocation {
                        Some(allocation) => Some(seamless(allocation)),
                        None => None,
                    },
                    decision.rua_requested,
                ),
            )
        } else if is_new && !crate::mm::clients::is_assigned_ssi(issi) {
            self.pushed(
                reject(
                    issi,
                    head.air_handle,
                    head.location_update_type,
                    head.address_extension,
                    REJECT_NETWORK_FAILURE,
                ),
            )
        } else {
            let entered = if is_new {
                self.registered(issi)
            } else {
                self.attached(issi)
            };
            let prepared = entered.awaiting(issi, true).energy_applied(issi, economy);
            match pending.attachment {
                Some(attachment) => prepared.location_groups(
                    head,
                    attachment,
                    decision.rua_requested,
                ),
                None => prepared.pushed(
                    accept(head, plain, Seq::empty(), None, decision.rua_requested),
                ).activated(issi),
            }
        }
    }

    /// The groups of an accepted registration: the SwMI decides, or the station
    /// alone.
    #[verifier::opaque]
    pub open spec fn location_groups(
        self,
        head: RegistrationHead,
        attachment: AttachmentView,
        rua_requested: bool,
    ) -> MmRun {
        if self.link.is_online() && self.link.takes() {
            self.numbered().pushed(
                MmMessageView::AttachmentAttempt {
                    head: AttachmentAttemptHead {
                        command_id: self.mm.next_id,
                        itsi: head.itsi as u64,
                        air_handle: head.air_handle,
                        replace_all: attachment.replace_all,
                    },
                    operations: crate::mm::pending::asked(attachment.operations),
                },
            ).awaiting_location_groups(
                self.mm.next_id,
                LocationAttachmentView { registration: head, attachment, rua_requested },
            )
        } else {
            let before = if self.link.is_online() {
                self.numbered()
            } else {
                self
            };
            before.location_groups_settled(
                LocationAttachmentView { registration: head, attachment, rua_requested },
                false,
                crate::mm::pending::all_accepted(attachment.operations),
            )
        }
    }

    /// With the groups of a location update waiting for the SwMI.
    pub open spec fn awaiting_location_groups(
        self,
        id: u64,
        attachment: LocationAttachmentView,
    ) -> MmRun {
        MmRun {
            mm: MmView {
                location_attachments: crate::table::put(
                    self.mm.location_attachments,
                    id,
                    attachment,
                ),
                ..self.mm
            },
            ..self
        }
    }

    /// The groups of a location update settled, and the location update
    /// accepted with them.
    pub open spec fn location_groups_settled(
        self,
        pending: LocationAttachmentView,
        has_rejection: bool,
        results: Seq<AttachmentResult>,
    ) -> MmRun {
        let settled = self.groups_settled(has_rejection, pending.attachment, results);
        settled.run.pushed(
            accept(
                pending.registration,
                Some(GroupAccept { rejected: settled.rejected, listed: true }),
                settled.answer,
                None,
                pending.rua_requested,
            ),
        ).activated(pending.registration.itsi)
    }

    /// A decision of the SwMI on the groups of a location update.
    #[verifier::opaque]
    pub open spec fn location_groups_decided(
        self,
        id: u64,
        itsi: u64,
        air_handle: u32,
        has_rejection: bool,
        results: Seq<AttachmentResult>,
    ) -> MmRun {
        match crate::table::lookup(self.mm.location_attachments, id) {
            None => self,
            Some(pending) => {
                let taken = MmRun {
                    mm: MmView {
                        location_attachments: crate::table::del(
                            self.mm.location_attachments,
                            id,
                        ),
                        ..self.mm
                    },
                    ..self
                };
                if pending.registration.itsi as u64 != itsi || pending.registration.air_handle
                    != air_handle || pending.attachment.operations.len() != results.len() {
                    taken
                } else {
                    taken.location_groups_settled(pending, has_rejection, results)
                }
            },
        }
    }

    /// A decision of the SwMI on groups.
    #[verifier::opaque]
    pub open spec fn groups_answered_by_swmi(
        self,
        id: u64,
        itsi: u64,
        air_handle: u32,
        has_rejection: bool,
        results: Seq<AttachmentResult>,
    ) -> MmRun {
        match crate::table::lookup(self.mm.attachments, id) {
            None => self,
            Some(pending) => {
                let taken = MmRun {
                    mm: MmView {
                        attachments: crate::table::del(self.mm.attachments, id),
                        ..self.mm
                    },
                    ..self
                };
                if pending.itsi as u64 != itsi || pending.air_handle != air_handle
                    || pending.operations.len() != results.len() {
                    taken
                } else {
                    let settled = taken.groups_settled(has_rejection, pending, results);
                    settled.run.pushed(
                        MmMessageView::Acknowledge {
                            issi: pending.itsi,
                            handle: pending.air_handle,
                            rejected: settled.rejected,
                            groups: settled.answer,
                        },
                    )
                }
            },
        }
    }

    /// A decision of the SwMI on groups, of a location update or not.
    pub open spec fn attachment_decided(
        self,
        id: u64,
        itsi: u64,
        air_handle: u32,
        has_rejection: bool,
        results: Seq<AttachmentResult>,
    ) -> MmRun {
        if crate::table::contains(self.mm.location_attachments, id) {
            self.location_groups_decided(id, itsi, air_handle, has_rejection, results)
        } else {
            self.groups_answered_by_swmi(id, itsi, air_handle, has_rejection, results)
        }
    }

    /// The groups restored that are not detached, and their list.
    pub open spec fn groups_restored(self, issi: u32, groups: Seq<AttachmentOperation>) -> (
        MmRun,
        Seq<u32>,
    )
        decreases groups.len(),
    {
        if groups.len() == 0 {
            (self, Seq::empty())
        } else {
            let (run, restored) = self.groups_restored(issi, groups.drop_last());
            let group = groups.last();
            if group.detach || run.mm.clients.group_fault(issi, group.gssi) is Some {
                (run, restored)
            } else {
                (
                    MmRun {
                        mm: MmView {
                            clients: run.mm.clients.with_group(
                                issi,
                                group.gssi,
                                true,
                                group.class_of_usage,
                            ),
                            ..run.mm
                        },
                        subscribers: run.subscribers.attached(issi, group.gssi),
                        ..run
                    },
                    restored.push(group.gssi),
                )
            }
        }
    }

    /// The state of a subscriber as the SwMI has it, after a roam. Nothing is
    /// sent to the terminal.
    #[verifier::opaque]
    pub open spec fn state_synced(
        self,
        itsi: u64,
        groups: Seq<AttachmentOperation>,
        scanning_enabled: bool,
        economy: EnergyEconomyAssignment,
    ) -> MmRun {
        if itsi > u32::MAX {
            self
        } else {
            let issi = itsi as u32;
            let is_new = !self.mm.clients.known(issi);
            if is_new && !crate::mm::clients::is_assigned_ssi(issi) {
                self
            } else {
                let entered = if is_new {
                    self.registered(issi)
                } else {
                    self
                };
                let cleared = entered.energy_stored(issi, economy).groups_cleared(issi);
                let (restored, list) = cleared.groups_restored(issi, groups);
                let told = restored.emitted_some(issi, list, SubscriberUpdateAction::Affiliate);
                if told.mm.clients.known(issi) {
                    MmRun {
                        mm: MmView {
                            clients: told.mm.clients.with(
                                issi,
                                MmClient {
                                    scanning_enabled,
                                    ..told.mm.clients.client(issi)
                                },
                            ),
                            ..told.mm
                        },
                        subscribers: registry_scanning(told.subscribers, issi, scanning_enabled),
                        ..told
                    }.scanning_told(issi, scanning_enabled)
                } else {
                    told
                }
            }
        }
    }

    /// What the station reports after working alone.
    pub open spec fn recovery_snapshot(self, command_id: u64) -> MmMessageView {
        MmMessageView::RecoverySnapshot {
            command_id,
            subscribers: self.mm.clients.clients.map_values(
                |entry: (u32, MmClient)|
                    RecoverySubscriber {
                        itsi: entry.0 as u64,
                        scanning_enabled: entry.1.scanning_enabled,
                        energy_economy: entry.1.energy_economy,
                        rua_assigned: self.subscribers.known(entry.0).rua_assigned,
                    },
            ),
            groups: self.mm.clients.groups.map_values(
                |entry: (crate::cmce::pdu::Membership, u8)|
                    RecoveryGroup {
                        itsi: entry.0.issi as u64,
                        gssi: entry.0.gssi,
                        class_of_usage: entry.1,
                    },
            ),
        }
    }

    /// A request of the SwMI for what the station knows. A repeated one is
    /// ignored; one that cannot be answered is forgotten.
    pub open spec fn recovery_requested(self, command_id: u64) -> MmRun {
        if crate::table::contains(self.mm.recoveries, command_id) || !self.link.takes() {
            self
        } else {
            MmRun {
                mm: MmView {
                    recoveries: crate::table::put(self.mm.recoveries, command_id, true),
                    ..self.mm
                },
                ..self
            }.pushed(self.recovery_snapshot(command_id))
        }
    }

    /// A subscriber whose recovery the SwMI accepts.
    pub open spec fn recovery_accepted(self, subscriber: RecoveryAcceptedView) -> MmRun {
        let reassign = subscriber.rua_assigned == Some(false) && subscriber.itsi <= u32::MAX
            && self.subscribers.known(subscriber.itsi as u32).rua_assigned == Some(true);
        let synced = self.state_synced(
            subscriber.itsi,
            subscriber.groups,
            subscriber.scanning_enabled,
            subscriber.energy_economy,
        );
        if reassign {
            MmRun {
                subscribers: registry_unassigned(synced.subscribers, subscriber.itsi as u32),
                ..synced
            }.pushed(command_report(subscriber.itsi as u32, 0))
        } else {
            synced
        }
    }

    /// Subscribers whose recovery the SwMI accepts.
    pub open spec fn recoveries_accepted(self, accepted: Seq<RecoveryAcceptedView>) -> MmRun
        decreases accepted.len(),
    {
        if accepted.len() == 0 {
            self
        } else {
            self.recoveries_accepted(accepted.drop_last()).recovery_accepted(accepted.last())
        }
    }

    /// Without a subscriber that the SwMI does not want here.
    pub open spec fn discarded(self, itsi: u64) -> MmRun {
        if itsi > u32::MAX {
            self
        } else {
            self.removed(itsi as u32)
        }
    }

    /// Without the subscribers that the SwMI does not want here.
    pub open spec fn all_discarded(self, rejected: Seq<u64>) -> MmRun
        decreases rejected.len(),
    {
        if rejected.len() == 0 {
            self
        } else {
            self.all_discarded(rejected.drop_last()).discarded(rejected.last())
        }
    }

    /// The answer of the SwMI to what the station reported. One that was not
    /// awaited is ignored.
    pub open spec fn recovery_answered(
        self,
        command_id: u64,
        accepted: Seq<RecoveryAcceptedView>,
        rejected: Seq<u64>,
    ) -> MmRun {
        if !crate::table::contains(self.mm.recoveries, command_id) {
            self
        } else {
            MmRun {
                mm: MmView {
                    recoveries: crate::table::del(self.mm.recoveries, command_id),
                    ..self.mm
                },
                ..self
            }.recoveries_accepted(accepted).all_discarded(rejected)
        }
    }

    /// A decision of the SwMI on an energy economy.
    pub open spec fn energy_decided(
        self,
        id: u64,
        itsi: u64,
        air_handle: u32,
        accepted: bool,
        economy: EnergyEconomyAssignment,
    ) -> MmRun {
        match crate::table::lookup(self.mm.energy, id) {
            None => self,
            Some(request) => {
                let taken = MmRun {
                    mm: MmView { energy: crate::table::del(self.mm.energy, id), ..self.mm },
                    ..self
                };
                if request.issi != itsi as u32 || request.air_handle != air_handle || !accepted {
                    taken
                } else {
                    taken.energy_applied(request.issi, economy).pushed(
                        MmMessageView::Downlink {
                            issi: request.issi,
                            handle: request.air_handle,
                            pdu: MmPdu::EnergySavingResponse { information: economy },
                        },
                    )
                }
            },
        }
    }

    /// A request of the SwMI for the phase that a terminal would be given here.
    pub open spec fn rebase_requested(self, request_id: u64, itsi: u64, mode: u8) -> MmRun {
        match EnergySavingMode::from_code(mode as u64) {
            Some(wanted) if itsi <= u32::MAX && wanted != EnergySavingMode::StayAlive =>
                self.submitted(
                    MmMessageView::Request(
                        MmRequest::EnergyEconomyRebaseResult {
                            request_id,
                            itsi,
                            energy_economy: economy_at(self.mm.now, wanted),
                        },
                    ),
                ),
            _ => self,
        }
    }

    /// With a terminal's authentication expected under a command number.
    pub open spec fn authentication_expected(self, itsi: u64, air_handle: u32, id: u64) -> MmRun {
        MmRun {
            mm: MmView {
                auth: crate::table::put(
                    self.mm.auth,
                    AuthenticationKey { issi: itsi as u32, air_handle },
                    id,
                ),
                ..self.mm
            },
            ..self
        }
    }

    /// The outcome of an authentication that the SwMI reports.
    pub open spec fn authentication_decided(
        self,
        id: u64,
        itsi: u64,
        air_handle: u32,
        success: bool,
        response_2: Option<u32>,
    ) -> MmRun {
        let told = self.authenticated(id, Some(success)).pushed(
            MmMessageView::Downlink {
                issi: itsi as u32,
                handle: air_handle,
                pdu: MmPdu::AuthenticationResult {
                    success,
                    mutual: response_2 is Some,
                    response_2,
                },
            },
        );
        if success {
            told
        } else {
            told.pushed(
                reject(
                    itsi as u32,
                    air_handle,
                    LocationUpdateType::ItsiAttach,
                    None,
                    REJECT_AUTHENTICATION_FAILURE,
                ),
            )
        }
    }

    /// With a location update given up because the SwMI did not answer in time.
    pub open spec fn timed_out(self, id: u64) -> MmRun {
        let untimed = MmRun {
            mm: MmView { deadlines: crate::table::del(self.mm.deadlines, id), ..self.mm },
            ..self
        };
        match crate::table::lookup(self.mm.registrations, id) {
            None => untimed,
            Some(pending) => MmRun {
                mm: MmView {
                    registrations: crate::table::del(untimed.mm.registrations, id),
                    ..untimed.mm
                },
                ..untimed
            }.awaiting(pending.head.itsi, false).pushed(
                reject(
                    pending.head.itsi,
                    pending.head.air_handle,
                    pending.head.location_update_type,
                    pending.head.address_extension,
                    REJECT_NETWORK_FAILURE,
                ),
            ),
        }
    }

    /// With location updates given up.
    pub open spec fn all_timed_out(self, ids: Seq<u64>) -> MmRun
        decreases ids.len(),
    {
        if ids.len() == 0 {
            self
        } else {
            self.all_timed_out(ids.drop_last()).timed_out(ids.last())
        }
    }

    /// A location update that was under way when the connection failed,
    /// accepted by the station alone.
    pub open spec fn registration_recovered(self, entry: (u64, RegistrationView)) -> MmRun {
        self.registration_decided(
            RegistrationDecision {
                command_id: entry.0,
                itsi: entry.1.head.itsi as u64,
                air_handle: entry.1.head.air_handle,
                accepted: true,
                cause: 0,
                energy_economy: match entry.1.head.energy_saving_information {
                    Some(economy) => economy,
                    None => EnergyEconomyAssignment::stay_alive(),
                },
                rua_requested: false,
                handover_allocation: None,
            },
        )
    }

    /// Location updates that were under way when the connection failed.
    pub open spec fn registrations_recovered(self, entries: Seq<(u64, RegistrationView)>) -> MmRun
        decreases entries.len(),
    {
        if entries.len() == 0 {
            self
        } else {
            self.registrations_recovered(entries.drop_last()).registration_recovered(entries.last())
        }
    }

    /// Changes to groups that were under way when the connection failed.
    pub open spec fn groups_recovered(self, entries: Seq<(u64, AttachmentView)>) -> MmRun
        decreases entries.len(),
    {
        if entries.len() == 0 {
            self
        } else {
            let (id, pending) = entries.last();
            self.groups_recovered(entries.drop_last()).groups_answered_by_swmi(
                id,
                pending.itsi as u64,
                pending.air_handle,
                false,
                crate::mm::pending::all_accepted(pending.operations),
            )
        }
    }

    /// Groups of location updates that were under way when the connection
    /// failed.
    pub open spec fn location_groups_recovered(
        self,
        entries: Seq<(u64, LocationAttachmentView)>,
    ) -> MmRun
        decreases entries.len(),
    {
        if entries.len() == 0 {
            self
        } else {
            let (id, pending) = entries.last();
            self.location_groups_recovered(entries.drop_last()).location_groups_decided(
                id,
                pending.registration.itsi as u64,
                pending.registration.air_handle,
                false,
                crate::mm::pending::all_accepted(pending.attachment.operations),
            )
        }
    }

    /// Everything that waits for the SwMI, completed by the station alone.
    pub open spec fn recovered(self) -> MmRun {
        if self.link.present && !self.link.online {
            let registered = self.registrations_recovered(self.mm.registrations);
            let grouped = registered.groups_recovered(registered.mm.attachments);
            grouped.location_groups_recovered(grouped.mm.location_attachments)
        } else {
            self
        }
    }
}

/// The command numbers whose time is up.
pub open spec fn expired(deadlines: Seq<(u64, TdmaTime)>, now: TdmaTime) -> Seq<u64>
    decreases deadlines.len(),
{
    if deadlines.len() == 0 {
        Seq::empty()
    } else {
        let before = expired(deadlines.drop_last(), now);
        if now.since(deadlines.last().1) >= 0 {
            before.push(deadlines.last().0)
        } else {
            before
        }
    }
}

} // verus!
