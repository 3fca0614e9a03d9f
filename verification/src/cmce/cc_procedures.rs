//! The procedures of call control, as functions on a `CcRun`: what an uplink
//! PDU, a decision of the central SwMI, a message of Brew and the passage of
//! time do.
use crate::cmce::cc_model::{
    ActiveCall, CallOrigin, CcRun, CcView, CentralSetup, FloorTimer, PrivateCallLocal,
    ReleasingPrivateCircuit, RemoteCall, PRIVATE_FLOOR_RESPONSE_GRACE_TIMESLOTS,
    RESTORE_FLOOR_INDICATION_DELAY_TIMESLOTS,
};
use crate::cmce::pdu::{
    CallControl, CallMessage, CallParty, CallTimeout, CmceCircuit, CommunicationType, DConnect,
    DSetup, DisconnectCause, DownlinkPdu, HandoverChannelAllocation, Layer2Service, Membership,
    PartyTypeIdentifier, SetupRequest, TetraAddress, TetraEntity, TransmissionGrant, USetup,
    UplinkPrim,
};

use vstd::prelude::*;

verus! {

// ---------------------------------------------------------------------------
// Call set-up
// ---------------------------------------------------------------------------

/// Whether the station can serve a group call with these features.
pub open spec fn group_features_supported(pdu: USetup) -> bool {
    (pdu.area_selection == 0 || pdu.area_selection == 1) && !pdu.hook_method_selection
        && !pdu.simplex_duplex_selection
}

/// The latest call of a group.
pub open spec fn call_of_group(calls: Seq<(u16, ActiveCall)>, gssi: u32) -> Option<
    (u16, ActiveCall),
>
    decreases calls.len(),
{
    if calls.len() == 0 {
        None
    } else if calls.last().1.dest_gssi == gssi {
        Some(calls.last())
    } else {
        call_of_group(calls.drop_last(), gssi)
    }
}

/// The D-SETUP of a group call that a terminal of this cell sets up.
pub open spec fn local_setup(call_id: u16, request: SetupRequest, priority: u8) -> DSetup {
    let acknowledged = request.pdu.basic_service_information.communication_type
        == CommunicationType::P2MpAcked;
    DSetup {
        call_identifier: call_id,
        call_time_out: CallTimeout::T5m,
        hook_method_selection: request.pdu.hook_method_selection,
        simplex_duplex_selection: request.pdu.simplex_duplex_selection,
        basic_service_information: request.pdu.basic_service_information,
        transmission_grant: TransmissionGrant::GrantedToOtherUser,
        transmission_request_permission: false,
        call_priority: priority,
        notification_indicator: crate::cmce::cc_model::late_entry_notification(acknowledged),
        calling_party_address_ssi: Some(request.prim.received.ssi),
    }
}

impl CcRun {
    /// A U-SETUP for a private call: the central SwMI decides on it.
    #[verifier::opaque]
    pub open spec fn private_setup(self, request: SetupRequest) -> CcRun {
        let pdu = request.pdu;
        let unavailable = DisconnectCause::RequestedServiceNotAvailable;
        if pdu.called_party_ssi is None || pdu.called_party_type_identifier
            != PartyTypeIdentifier::Ssi || pdu.called_party_extension is Some
            || !self.swmi.is_online() {
            self.reject_setup(request.prim, unavailable)
        } else {
            let caller = request.prim.received.ssi;
            let numbered = self.use_command();
            if self.swmi.takes() {
                let sent = numbered.submit(
                    CallMessage::PrivateCallRequest {
                        command_id: self.st.next_command,
                        caller_itsi: caller as u64,
                        callee_itsi: pdu.called_party_ssi->0 as u64,
                        hook: pdu.hook_method_selection,
                        duplex: pdu.simplex_duplex_selection,
                        request_to_transmit: pdu.request_to_transmit_send_data,
                        priority: pdu.call_priority,
                    },
                );
                CcRun {
                    st: CcView {
                        pending_private_setups: crate::table::put(
                            sent.st.pending_private_setups,
                            caller,
                            request,
                        ),
                        ..sent.st
                    },
                    ..sent
                }
            } else {
                let rejected = match crate::table::lookup(
                    self.st.pending_private_setups,
                    caller,
                ) {
                    Some(earlier) => earlier,
                    None => request,
                };
                CcRun {
                    st: CcView {
                        pending_private_setups: crate::table::del(
                            numbered.st.pending_private_setups,
                            caller,
                        ),
                        ..numbered.st
                    },
                    ..numbered
                }.reject_setup(rejected.prim, unavailable)
            }
        }
    }

    /// A terminal of this cell sets up a group call here, with what the central
    /// SwMI decided on it, if it did.
    #[verifier::opaque]
    pub open spec fn open_group_call(
        self,
        request: SetupRequest,
        gssi: u32,
        central: Option<CentralSetup>,
    ) -> CcRun {
        let comm_type = request.pdu.basic_service_information.communication_type;
        let caller = request.prim.received;
        let central_id = match central {
            Some(decision) => Some(decision.call_id),
            None => None,
        };
        let priority = match central {
            Some(decision) => decision.priority,
            None => request.pdu.call_priority,
        };
        let caller_has_floor = match central {
            Some(decision) => decision.floor_itsi == caller.ssi,
            None => true,
        };
        let other_has_floor = match central {
            Some(decision) => decision.floor_itsi != 0 && decision.floor_itsi != caller.ssi,
            None => false,
        };
        match self.slots.lowest_free() {
            None => self,
            Some(ts) => {
                let circuit = self.st.circuits.circuit(ts, comm_type, central_id, false);
                let call_id = circuit.call_id;
                let dest = TetraAddress::gssi(gssi);
                let setup = local_setup(call_id, request, priority);
                let cached = self.open_circuit(ts, comm_type, central_id, false).connect_setup(
                    request,
                    call_id,
                    ts,
                    circuit.usage,
                    if caller_has_floor {
                        TransmissionGrant::Granted
                    } else if other_has_floor {
                        TransmissionGrant::GrantedToOtherUser
                    } else {
                        TransmissionGrant::NotGranted
                    },
                    caller_has_floor,
                    priority,
                ).cache_setup(call_id, setup, dest);
                let held = cached.send_setup(
                    setup,
                    dest,
                    circuit.usage,
                    ts,
                    None,
                ).announce_on(
                    setup,
                    dest,
                    circuit.usage,
                    ts,
                    cached.st.announcement_channels(gssi),
                ).hold_call(
                    call_id,
                    ActiveCall {
                        origin: if central is Some {
                            CallOrigin::Swmi
                        } else {
                            CallOrigin::Local { caller }
                        },
                        dest_gssi: gssi,
                        source_issi: match central {
                            Some(decision) => decision.floor_itsi,
                            None => caller.ssi,
                        },
                        ts,
                        usage: circuit.usage,
                        priority,
                        acknowledged: comm_type == CommunicationType::P2MpAcked,
                        tx_active: caller_has_floor || other_has_floor,
                        hangtime_start: None,
                        brew_uuid: None,
                    },
                ).track_listeners(call_id);
                let granted = CallControl::FloorGranted {
                    call_id,
                    source_issi: caller.ssi,
                    dest_gssi: gssi,
                    ts,
                };
                let told_brew = if crate::cmce::cc_model::brew_carries(self.brew, gssi) {
                    held.control(TetraEntity::Brew, granted)
                } else {
                    held
                };
                if central is Some && caller_has_floor {
                    told_brew.control(TetraEntity::Swmi, granted)
                } else {
                    told_brew
                }
            },
        }
    }

    /// A U-SETUP.
    #[verifier::opaque]
    pub open spec fn u_setup(self, request: SetupRequest) -> CcRun {
        let pdu = request.pdu;
        let caller = request.prim.received;
        if pdu.basic_service_information.communication_type == CommunicationType::P2p {
            self.private_setup(request)
        } else if !group_features_supported(pdu) || pdu.called_party_ssi is None {
            self
        } else if !self.st.has_listener(pdu.called_party_ssi->0) {
            self.reject_setup(request.prim, DisconnectCause::RequestedServiceNotAvailable)
        } else {
            let gssi = pdu.called_party_ssi->0;
            let key = Membership { issi: caller.ssi, gssi };
            let central = crate::table::lookup(self.st.central_setups, key);
            let priority = match central {
                Some(decision) => decision.priority,
                None => pdu.call_priority,
            };
            let taken = CcRun {
                st: CcView {
                    central_setups: crate::table::del(self.st.central_setups, key),
                    ..self.st
                },
                ..self
            };
            let existing = call_of_group(self.st.active_calls, gssi);
            let joins = match existing {
                Some(found) => match central {
                    Some(decision) => decision.call_id == found.0,
                    None => !self.swmi.is_online(),
                },
                None => false,
            };
            if joins {
                let (call_id, call) = existing->0;
                let floor_itsi = match central {
                    Some(decision) => decision.floor_itsi,
                    None => if call.tx_active {
                        call.source_issi
                    } else {
                        0
                    },
                };
                let has_floor = floor_itsi == 0 || floor_itsi == caller.ssi;
                taken.connect_setup(
                    request,
                    call_id,
                    call.ts,
                    call.usage,
                    if has_floor {
                        TransmissionGrant::Granted
                    } else {
                        TransmissionGrant::GrantedToOtherUser
                    },
                    has_floor,
                    priority,
                )
            } else if self.swmi.is_online() && central is None {
                let numbered = taken.use_command();
                if self.swmi.takes() {
                    let sent = numbered.submit(
                        CallMessage::GroupCallRequest {
                            command_id: self.st.next_command,
                            itsi: caller.ssi as u64,
                            gssi,
                            priority: pdu.call_priority,
                            acknowledged: pdu.basic_service_information.communication_type
                                == CommunicationType::P2MpAcked,
                        },
                    );
                    CcRun {
                        st: CcView {
                            pending_setups: crate::table::put(sent.st.pending_setups, key, request),
                            ..sent.st
                        },
                        ..sent
                    }
                } else {
                    numbered.open_group_call(request, gssi, None)
                }
            } else {
                taken.open_group_call(request, gssi, central)
            }
        }
    }

    // -----------------------------------------------------------------------
    // Service restoration and late entry
    // -----------------------------------------------------------------------

    /// How a group call is restored for a terminal: it has to be a member.
    pub open spec fn group_restoration(self, call_id: u16, itsi: u32) -> Option<
        (TransmissionGrant, u8, u8),
    > {
        match crate::table::lookup(self.st.active_calls, call_id) {
            Some(call) => if crate::table::contains(
                self.st.members,
                Membership { issi: itsi, gssi: call.dest_gssi },
            ) {
                Some(
                    (
                        if call.tx_active && call.source_issi == itsi {
                            TransmissionGrant::Granted
                        } else if call.tx_active {
                            TransmissionGrant::GrantedToOtherUser
                        } else {
                            TransmissionGrant::NotGranted
                        },
                        call.usage,
                        call.ts,
                    ),
                )
            } else {
                None
            },
            None => None,
        }
    }

    /// How a private call is restored for a terminal: it has to be connected,
    /// the terminal a party with a circuit, and the other party the one that
    /// the terminal names.
    pub open spec fn private_restoration(
        self,
        call_id: u16,
        itsi: u32,
        other_party: Option<u32>,
    ) -> Option<(TransmissionGrant, u8, u8)> {
        match (
            crate::table::lookup(self.st.private_calls, call_id),
            crate::table::lookup(self.st.private_circuits, CallParty { call_id, issi: itsi }),
        ) {
            (Some(call), Some(circuit)) => if call.connected && (call.caller_itsi == itsi
                || call.callee_itsi == itsi) && match other_party {
                Some(peer) => peer == crate::cmce::cc_model::peer_of(call, itsi),
                None => true,
            } {
                Some(
                    (
                        if call.duplex || call.floor_itsi == itsi {
                            TransmissionGrant::Granted
                        } else if call.floor_itsi == 0 {
                            TransmissionGrant::NotGranted
                        } else {
                            TransmissionGrant::GrantedToOtherUser
                        },
                        circuit.usage,
                        circuit.ts,
                    ),
                )
            } else {
                None
            },
            _ => None,
        }
    }

    /// A U-CALL RESTORE.
    #[verifier::opaque]
    pub open spec fn u_call_restore(
        self,
        prim: UplinkPrim,
        call_id: u16,
        other_party: Option<u32>,
    ) -> CcRun {
        let itsi = prim.received.ssi;
        let group = self.group_restoration(call_id, itsi);
        let answer = if group is Some {
            group
        } else {
            self.private_restoration(call_id, itsi, other_party)
        };
        match answer {
            None => self.restore_failure(itsi),
            Some((grant, usage, ts)) => {
                let told = self.emit(
                    crate::cmce::cc_model::unitdata(
                        DownlinkPdu::DCallRestore {
                            call_identifier: call_id,
                            transmission_grant: grant,
                            transmission_request_permission: false,
                            reset_call_time_out_timer: true,
                        },
                        Some(crate::cmce::cc_model::allocation(Some(usage), ts)),
                        TetraAddress::issi(itsi),
                        Layer2Service::Acknowledged,
                        None,
                        None,
                    ),
                );
                let call = crate::table::lookup(self.st.active_calls, call_id);
                let timed = if group is Some && call->0.tx_active {
                    CcRun {
                        st: CcView {
                            pending_restore_floors: crate::table::put(
                                told.st.pending_restore_floors,
                                CallParty { call_id, issi: itsi },
                                FloorTimer {
                                    itsi: call->0.source_issi,
                                    due: self.st.dltime.plus(
                                        RESTORE_FLOOR_INDICATION_DELAY_TIMESLOTS as int,
                                    ),
                                },
                            ),
                            ..told.st
                        },
                        ..told
                    }
                } else {
                    told
                };
                timed.record_uplink(itsi, call_id)
            },
        }
    }

    /// A U-INFO: the answer to a late-entry poll shows where the terminal is.
    #[verifier::opaque]
    pub open spec fn u_info(self, prim: UplinkPrim, call_id: u16, poll_response: bool) -> CcRun {
        match crate::table::lookup(self.st.active_calls, call_id) {
            Some(call) => if poll_response && call.acknowledged {
                self.record(prim.received.ssi, self.st.group_candidate(call_id, call, true))
            } else {
                self
            },
            None => self,
        }
    }

    // -----------------------------------------------------------------------
    // The floor
    // -----------------------------------------------------------------------

    /// A U-TX CEASED.
    #[verifier::opaque]
    pub open spec fn u_tx_ceased(self, prim: UplinkPrim, call_id: u16) -> CcRun {
        let itsi = prim.received.ssi;
        let heard = self.record_uplink(itsi, call_id);
        match crate::table::lookup(heard.st.private_calls, call_id) {
            Some(call) => if call.connected && !call.duplex && self.swmi.is_online() {
                heard.submit(
                    CallMessage::PrivateFloorReleased {
                        call_id: call_id as u64,
                        itsi: itsi as u64,
                    },
                )
            } else {
                heard
            },
            None => if self.swmi.takes() {
                heard.use_command().submit(
                    CallMessage::FloorReleaseRequest {
                        command_id: heard.st.next_command,
                        call_id: call_id as u64,
                        itsi: itsi as u64,
                    },
                )
            } else if self.swmi.is_online() {
                heard.use_command().cease_locally(call_id)
            } else {
                heard.cease_locally(call_id)
            },
        }
    }

    /// The speaker of a group call stops, and the station decides.
    #[verifier::opaque]
    pub open spec fn cease_locally(self, call_id: u16) -> CcRun {
        match crate::table::lookup(self.st.active_calls, call_id) {
            None => self,
            Some(call) => if !call.tx_active && call.hangtime_start is Some {
                self
            } else {
                let held = self.hold_call(
                    call_id,
                    ActiveCall {
                        tx_active: false,
                        hangtime_start: Some(self.st.dltime),
                        ..call
                    },
                );
                match crate::table::lookup(self.st.cached_setups, call_id) {
                    None => held,
                    Some(cached) => {
                        let released = CallControl::FloorReleased { call_id, ts: call.ts };
                        let told = held.ceased(call_id, cached.dest, call.ts).control(
                            TetraEntity::Umac,
                            released,
                        );
                        if crate::cmce::cc_model::brew_carries(self.brew, call.dest_gssi) {
                            told.control(TetraEntity::Brew, released)
                        } else {
                            told
                        }
                    },
                }
            },
        }
    }

    /// A U-TX DEMAND.
    #[verifier::opaque]
    pub open spec fn u_tx_demand(self, prim: UplinkPrim, call_id: u16, priority: u8) -> CcRun {
        let itsi = prim.received.ssi;
        let heard = self.record_uplink(itsi, call_id);
        match crate::table::lookup(heard.st.private_calls, call_id) {
            Some(call) => heard.private_demand(prim, call_id, call),
            None => if self.swmi.is_online() {
                let queued = match crate::table::lookup(heard.st.active_calls, call_id) {
                    Some(call) => heard.grant_to(
                        call_id,
                        itsi,
                        itsi,
                        call.ts,
                        TransmissionGrant::RequestQueued,
                    ),
                    None => heard,
                };
                let numbered = queued.use_command();
                if self.swmi.takes() {
                    numbered.submit(
                        CallMessage::FloorRequest {
                            command_id: queued.st.next_command,
                            call_id: call_id as u64,
                            itsi: itsi as u64,
                            tx_demand_priority: priority,
                        },
                    )
                } else {
                    numbered.demand_locally(prim, call_id)
                }
            } else {
                heard.demand_locally(prim, call_id)
            },
        }
    }

    /// A floor request in a private call: the central SwMI decides on it.
    #[verifier::opaque]
    pub open spec fn private_demand(
        self,
        prim: UplinkPrim,
        call_id: u16,
        call: PrivateCallLocal,
    ) -> CcRun {
        let party = CallParty { call_id, issi: prim.received.ssi };
        if !call.connected || call.duplex {
            self
        } else if !crate::table::contains(self.st.private_circuits, party) {
            self.tx_wait(prim, call_id)
        } else if crate::table::contains(self.st.pending_private_floors, party) {
            self
        } else if self.swmi.takes() {
            let sent = self.submit(
                CallMessage::PrivateFloorGranted {
                    call_id: call_id as u64,
                    itsi: prim.received.ssi as u64,
                },
            );
            CcRun {
                st: CcView {
                    pending_private_floors: crate::table::put(
                        sent.st.pending_private_floors,
                        party,
                        self.st.dltime.plus(PRIVATE_FLOOR_RESPONSE_GRACE_TIMESLOTS as int),
                    ),
                    ..sent.st
                },
                ..sent
            }
        } else {
            self.tx_wait(prim, call_id)
        }
    }

    /// A floor request in a group call on which the station decides.
    #[verifier::opaque]
    pub open spec fn demand_locally(self, prim: UplinkPrim, call_id: u16) -> CcRun {
        let itsi = prim.received.ssi;
        match crate::table::lookup(self.st.active_calls, call_id) {
            None => self,
            Some(call) => if call.tx_active {
                self.tx_wait(prim, call_id)
            } else {
                let held = self.hold_call(
                    call_id,
                    ActiveCall {
                        tx_active: true,
                        hangtime_start: None,
                        source_issi: itsi,
                        origin: match call.origin {
                            CallOrigin::Local { caller } => CallOrigin::Local {
                                caller: prim.received,
                            },
                            other => other,
                        },
                        ..call
                    },
                );
                match crate::table::lookup(self.st.cached_setups, call_id) {
                    None => held,
                    Some(cached) => {
                        let granted = CallControl::FloorGranted {
                            call_id,
                            source_issi: itsi,
                            dest_gssi: cached.dest.ssi,
                            ts: call.ts,
                        };
                        let told = held.grant_to(
                            call_id,
                            itsi,
                            itsi,
                            call.ts,
                            TransmissionGrant::Granted,
                        ).grant_to_group(call_id, itsi, cached.dest.ssi, call.ts).control(
                            TetraEntity::Umac,
                            granted,
                        );
                        if crate::cmce::cc_model::brew_carries(self.brew, cached.dest.ssi) {
                            told.control(TetraEntity::Brew, granted)
                        } else {
                            told
                        }
                    },
                }
            },
        }
    }

    // -----------------------------------------------------------------------
    // The end of a call
    // -----------------------------------------------------------------------

    /// One party is told that its private call ends. Its circuit stays until
    /// the release is transmitted; a timeslot that is already torn down, because
    /// both parties share it, is not torn down twice.
    pub open spec fn release_party(
        self,
        call_id: u16,
        itsi: u32,
        cause: DisconnectCause,
        torn_down: Option<u8>,
    ) -> (CcRun, Option<u8>) {
        let party = CallParty { call_id, issi: itsi };
        let release = DownlinkPdu::DRelease { call_identifier: call_id, disconnect_cause: cause };
        let removed = CcRun {
            st: CcView {
                private_circuits: crate::table::del(self.st.private_circuits, party),
                ..self.st
            },
            ..self
        };
        match crate::table::lookup(self.st.private_circuits, party) {
            Some(circuit) => {
                let told = removed.emit(
                    crate::cmce::cc_model::stolen(release, TetraAddress::issi(itsi), circuit.ts),
                );
                if torn_down == Some(circuit.ts) {
                    (told, torn_down)
                } else {
                    (
                        CcRun {
                            st: CcView {
                                releasing_private: told.st.releasing_private.push(
                                    ReleasingPrivateCircuit {
                                        call_id,
                                        itsi,
                                        circuit,
                                        sent_at: self.st.dltime,
                                    },
                                ),
                                ..told.st
                            },
                            ..told
                        },
                        Some(circuit.ts),
                    )
                }
            },
            None => (
                removed.emit(
                    crate::cmce::cc_model::unitdata(
                        release,
                        None,
                        TetraAddress::issi(itsi),
                        Layer2Service::Acknowledged,
                        None,
                        None,
                    ),
                ),
                torn_down,
            ),
        }
    }

    /// The release of a private call in this cell.
    #[verifier::opaque]
    pub open spec fn release_private(self, call_id: u16, cause: DisconnectCause) -> CcRun {
        let forgotten = CcRun {
            st: CcView {
                pending_private_floors: crate::cmce::cc_model::without_call(
                    self.st.pending_private_floors,
                    call_id,
                ),
                private_calls: crate::table::del(self.st.private_calls, call_id),
                ..self.st
            },
            ..self
        };
        match crate::table::lookup(self.st.private_calls, call_id) {
            None => forgotten,
            Some(call) => {
                let (first, torn_down) = if call.local_mask & 1 == 0 {
                    (forgotten, None::<u8>)
                } else {
                    forgotten.release_party(call_id, call.caller_itsi, cause, None)
                };
                if call.local_mask & 2 == 0 {
                    first
                } else {
                    first.release_party(call_id, call.callee_itsi, cause, torn_down).0
                }
            },
        }
    }

    /// A U-RELEASE.
    #[verifier::opaque]
    pub open spec fn u_release(
        self,
        prim: UplinkPrim,
        call_id: u16,
        cause: DisconnectCause,
    ) -> CcRun {
        if crate::table::contains(self.st.private_calls, call_id) {
            self.private_release(prim, call_id, cause)
        } else {
            self.release_call(call_id, DisconnectCause::UserRequestedDisconnection)
        }
    }

    /// A party wants to end its private call: the central SwMI decides, if it
    /// can be reached.
    pub open spec fn private_release(
        self,
        prim: UplinkPrim,
        call_id: u16,
        cause: DisconnectCause,
    ) -> CcRun {
        if self.swmi.is_online() {
            self.submit(
                CallMessage::PrivateCallRelease {
                    call_id: call_id as u64,
                    itsi: prim.received.ssi as u64,
                    cause: cause.code(),
                },
            )
        } else {
            self.release_private(call_id, cause)
        }
    }

    /// A U-DISCONNECT. The owner of a group call ends it for all; anyone else
    /// is refused.
    #[verifier::opaque]
    pub open spec fn u_disconnect(
        self,
        prim: UplinkPrim,
        call_id: u16,
        cause: DisconnectCause,
    ) -> CcRun {
        if crate::table::contains(self.st.private_calls, call_id) {
            self.private_release(prim, call_id, cause)
        } else if self.swmi.takes() {
            self.use_command().submit(
                CallMessage::CallDisconnectRequest {
                    command_id: self.st.next_command,
                    call_id: call_id as u64,
                    itsi: prim.received.ssi as u64,
                },
            )
        } else {
            let numbered = if self.swmi.is_online() {
                self.use_command()
            } else {
                self
            };
            match crate::table::lookup(self.st.active_calls, call_id) {
                None => numbered,
                Some(call) => {
                    let owner = match call.origin {
                        CallOrigin::Local { caller } => caller.ssi == prim.received.ssi,
                        _ => false,
                    };
                    if owner {
                        numbered.release_call(call_id, DisconnectCause::UserRequestedDisconnection)
                    } else {
                        numbered.emit(
                            crate::cmce::cc_model::reply(
                                prim,
                                DownlinkPdu::DRelease {
                                    call_identifier: call_id,
                                    disconnect_cause: DisconnectCause::RequestedServiceNotAvailable,
                                },
                                None,
                                TetraAddress::issi(prim.received.ssi),
                                Layer2Service::Unacknowledged,
                            ),
                        )
                    }
                },
            }
        }
    }

    // -----------------------------------------------------------------------
    // Private calls
    // -----------------------------------------------------------------------

    /// Whether the terminal is the called party of the private call.
    pub open spec fn is_called_party(self, call_id: u16, itsi: u32) -> bool {
        match crate::table::lookup(self.st.private_calls, call_id) {
            Some(call) => call.callee_itsi == itsi,
            None => false,
        }
    }

    /// A U-ALERT.
    pub open spec fn u_alert(self, prim: UplinkPrim, call_id: u16) -> CcRun {
        if self.is_called_party(call_id, prim.received.ssi) && self.swmi.is_online() {
            self.submit(
                CallMessage::PrivateCallAlert {
                    call_id: call_id as u64,
                    callee_itsi: prim.received.ssi as u64,
                },
            )
        } else {
            self
        }
    }

    /// A U-CONNECT.
    pub open spec fn u_connect(self, prim: UplinkPrim, call_id: u16) -> CcRun {
        if self.is_called_party(call_id, prim.received.ssi) && self.swmi.is_online() {
            self.use_command().submit(
                CallMessage::PrivateCallConnectRequest {
                    command_id: self.st.next_command,
                    call_id: call_id as u64,
                    itsi: prim.received.ssi as u64,
                },
            )
        } else {
            self
        }
    }

    /// The media of an endpoint go through the SwMI.
    pub open spec fn start_media(self, call_id: u16, itsi: u32, peer: u32, ts: u8) -> CcRun {
        self.control_both(
            TetraEntity::Swmi,
            TetraEntity::Umac,
            CallControl::PrivateMediaStart {
                call_id,
                source_issi: itsi,
                destination_issi: peer,
                ts,
            },
        )
    }

    /// The media on a timeslot no longer go through the SwMI.
    pub open spec fn stop_media(self, call_id: u16, ts: u8) -> CcRun {
        self.control_both(
            TetraEntity::Swmi,
            TetraEntity::Umac,
            CallControl::PrivateMediaStop { call_id, ts },
        )
    }

    /// The circuit of one party.
    pub open spec fn party_circuit(self, call_id: u16, itsi: u32) -> Option<CmceCircuit> {
        crate::table::lookup(self.st.private_circuits, CallParty { call_id, issi: itsi })
    }

    /// With `circuit` as that of one party.
    pub open spec fn with_party_circuit(
        self,
        call_id: u16,
        itsi: u32,
        circuit: CmceCircuit,
    ) -> CcRun {
        CcRun {
            st: CcView {
                private_circuits: crate::table::put(
                    self.st.private_circuits,
                    CallParty { call_id, issi: itsi },
                    circuit,
                ),
                ..self.st
            },
            ..self
        }
    }

    /// With the private call held under `call_id`.
    pub open spec fn hold_private(self, call_id: u16, call: PrivateCallLocal) -> CcRun {
        CcRun {
            st: CcView {
                private_calls: crate::table::put(self.st.private_calls, call_id, call),
                ..self.st
            },
            ..self
        }
    }

    /// The first timeslot of a party without a circuit: that of the other party
    /// where they share one, else a new one.
    pub open spec fn seize_party(
        self,
        call_id: u16,
        itsi: u32,
        wanted: bool,
        shared: Option<CmceCircuit>,
        duplex: bool,
    ) -> PartySeizure {
        if !wanted || self.party_circuit(call_id, itsi) is Some {
            PartySeizure { run: self, opened: None, failed: false }
        } else {
            match shared {
                Some(circuit) => PartySeizure {
                    run: self.with_party_circuit(call_id, itsi, circuit),
                    opened: None,
                    failed: false,
                },
                None => match self.slots.lowest_free() {
                    None => PartySeizure { run: self, opened: None, failed: true },
                    Some(ts) => {
                        let circuit = self.st.circuits.circuit(
                            ts,
                            CommunicationType::P2p,
                            Some(call_id),
                            duplex,
                        );
                        PartySeizure {
                            run: self.open_circuit(
                                ts,
                                CommunicationType::P2p,
                                Some(call_id),
                                duplex,
                            ).with_party_circuit(call_id, itsi, circuit),
                            opened: Some(circuit),
                            failed: false,
                        }
                    },
                },
            }
        }
    }

    /// A circuit of a party is given up.
    pub open spec fn yield_party(self, call_id: u16, itsi: u32, circuit: CmceCircuit) -> CcRun {
        CcRun {
            st: CcView {
                private_circuits: crate::table::del(
                    self.st.private_circuits,
                    CallParty { call_id, issi: itsi },
                ),
                ..self.st
            },
            ..self
        }.drop_circuit(circuit.ts).signal_close(circuit).free_slot(circuit.ts)
    }

    /// Circuits for the parties of a private call in `endpoint_mask`. Two
    /// parties of a simplex call in this cell share one. Either all parties get
    /// theirs or everything stays as it was.
    #[verifier::opaque]
    pub open spec fn seize_private(
        self,
        call_id: u16,
        caller_itsi: u32,
        callee_itsi: u32,
        endpoint_mask: u8,
        duplex: bool,
    ) -> (CcRun, bool) {
        match crate::table::lookup(self.st.private_calls, call_id) {
            None => (self, false),
            Some(call) => {
                let local_mask = call.local_mask | endpoint_mask;
                let masked = self.hold_private(call_id, PrivateCallLocal { local_mask, ..call });
                let shares = !duplex && local_mask & 3 == 3;
                let shared = if !shares {
                    None
                } else if masked.party_circuit(call_id, caller_itsi) is Some {
                    masked.party_circuit(call_id, caller_itsi)
                } else {
                    masked.party_circuit(call_id, callee_itsi)
                };
                let first = masked.seize_party(
                    call_id,
                    caller_itsi,
                    endpoint_mask & 1 != 0,
                    shared,
                    duplex,
                );
                if first.failed {
                    (first.run.hold_private(call_id, call), false)
                } else {
                    let shared = if shares && first.opened is Some {
                        first.opened
                    } else {
                        shared
                    };
                    let second = first.run.seize_party(
                        call_id,
                        callee_itsi,
                        endpoint_mask & 2 != 0,
                        shared,
                        duplex,
                    );
                    if second.failed {
                        let yielded = match first.opened {
                            Some(circuit) => second.run.yield_party(call_id, caller_itsi, circuit),
                            None => second.run,
                        };
                        (yielded.hold_private(call_id, call), false)
                    } else {
                        (second.run, true)
                    }
                }
            },
        }
    }

    /// Whether a circuit of the private call is on `ts`.
    pub open spec fn slot_in_private_call(self, call_id: u16, ts: u8) -> bool {
        exists|i: int|
            0 <= i < self.st.private_circuits.len() && (
            #[trigger] self.st.private_circuits[i]).1.call_id == call_id
                && self.st.private_circuits[i].1.ts == ts
    }

    /// The media of an endpoint of this cell go through the SwMI, if it has a
    /// circuit.
    pub open spec fn bridge_party(self, call_id: u16, wanted: bool, itsi: u32, peer: u32) -> CcRun {
        match self.party_circuit(call_id, itsi) {
            Some(circuit) => if wanted {
                self.start_media(call_id, itsi, peer, circuit.ts)
            } else {
                self
            },
            None => self,
        }
    }

    /// A party of a private call has registered in another cell. The call goes
    /// on: the circuit of the other party is bridged.
    #[verifier::opaque]
    pub open spec fn detach_party(self, call_id: u16, departed_itsi: u32) -> CcRun {
        match crate::table::lookup(self.st.private_calls, call_id) {
            None => self,
            Some(call) => {
                let bit = if departed_itsi == call.caller_itsi {
                    1u8
                } else if departed_itsi == call.callee_itsi {
                    2u8
                } else {
                    0u8
                };
                if bit == 0 || call.local_mask & bit == 0 {
                    self
                } else {
                    let party = CallParty { call_id, issi: departed_itsi };
                    let remaining = PrivateCallLocal {
                        local_mask: call.local_mask & !bit,
                        ..call
                    };
                    let left = CcRun {
                        st: CcView {
                            pending_private_floors: crate::table::del(
                                self.st.pending_private_floors,
                                party,
                            ),
                            private_circuits: crate::table::del(self.st.private_circuits, party),
                            private_calls: if remaining.local_mask == 0 {
                                crate::table::del(self.st.private_calls, call_id)
                            } else {
                                crate::table::put(self.st.private_calls, call_id, remaining)
                            },
                            ..self.st
                        },
                        ..self
                    };
                    let closed = match self.party_circuit(call_id, departed_itsi) {
                        Some(circuit) => if left.slot_in_private_call(call_id, circuit.ts) {
                            left
                        } else {
                            left.drop_circuit(circuit.ts).signal_close(circuit).free_slot(
                                circuit.ts,
                            ).stop_media(call_id, circuit.ts)
                        },
                        None => left,
                    };
                    if remaining.local_mask == 0 {
                        closed
                    } else {
                        closed.bridge_party(
                            call_id,
                            remaining.local_mask & 1 != 0,
                            call.caller_itsi,
                            call.callee_itsi,
                        ).bridge_party(
                            call_id,
                            remaining.local_mask & 2 != 0,
                            call.callee_itsi,
                            call.caller_itsi,
                        )
                    }
                }
            },
        }
    }

    /// A private call is offered to the called party.
    pub open spec fn private_offer(self, call_id: u16, call: PrivateCallLocal) -> CcRun {
        self.emit(
            crate::cmce::cc_model::unitdata(
                DownlinkPdu::DSetup(
                    DSetup {
                        call_identifier: call_id,
                        call_time_out: CallTimeout::T30s,
                        hook_method_selection: call.hook,
                        simplex_duplex_selection: call.duplex,
                        basic_service_information: crate::cmce::cc_model::speech_service(
                            CommunicationType::P2p,
                        ),
                        transmission_grant: TransmissionGrant::NotGranted,
                        transmission_request_permission: false,
                        call_priority: call.priority,
                        notification_indicator: None,
                        calling_party_address_ssi: Some(call.caller_itsi),
                    },
                ),
                None,
                TetraAddress::issi(call.callee_itsi),
                Layer2Service::Acknowledged,
                None,
                None,
            ),
        )
    }

    /// A party is told that its private call is connected.
    pub open spec fn private_connect(
        self,
        call_id: u16,
        call: PrivateCallLocal,
        itsi: u32,
        circuit: CmceCircuit,
        floor_itsi: u32,
    ) -> CcRun {
        let grant = if call.duplex || floor_itsi == itsi {
            TransmissionGrant::Granted
        } else {
            TransmissionGrant::GrantedToOtherUser
        };
        self.emit(
            crate::cmce::cc_model::unitdata(
                if itsi == call.caller_itsi {
                    DownlinkPdu::DConnect(
                        DConnect {
                            call_identifier: call_id,
                            call_time_out: CallTimeout::T5m,
                            hook_method_selection: call.hook,
                            simplex_duplex_selection: call.duplex,
                            transmission_grant: grant,
                            transmission_request_permission: false,
                            call_ownership: true,
                            call_priority: Some(call.priority as u64),
                        },
                    )
                } else {
                    DownlinkPdu::DConnectAcknowledge {
                        call_identifier: call_id,
                        call_time_out: CallTimeout::T5m,
                        transmission_grant: grant,
                        transmission_request_permission: false,
                    }
                },
                Some(crate::cmce::cc_model::allocation(Some(circuit.usage), circuit.ts)),
                TetraAddress::issi(itsi),
                Layer2Service::Acknowledged,
                None,
                None,
            ),
        )
    }

    /// The timeslot that both parties of a simplex call in this cell share.
    pub open spec fn shared_slot(self, call_id: u16, call: PrivateCallLocal) -> Option<u8> {
        match (
            self.party_circuit(call_id, call.caller_itsi),
            self.party_circuit(call_id, call.callee_itsi),
        ) {
            (Some(caller), Some(callee)) => if !call.duplex && call.local_mask & 3 == 3 && caller.ts
                == callee.ts {
                Some(caller.ts)
            } else {
                None
            },
            _ => None,
        }
    }

    /// One party with a circuit here is connected.
    pub open spec fn connect_party(
        self,
        call_id: u16,
        call: PrivateCallLocal,
        itsi: u32,
        floor_itsi: u32,
        shares: bool,
    ) -> CcRun {
        match self.party_circuit(call_id, itsi) {
            None => self,
            Some(circuit) => {
                let told = self.private_connect(call_id, call, itsi, circuit, floor_itsi);
                if shares {
                    told
                } else {
                    told.start_media(
                        call_id,
                        itsi,
                        crate::cmce::cc_model::peer_of(call, itsi),
                        circuit.ts,
                    )
                }
            },
        }
    }

    /// A private call is connected.
    #[verifier::opaque]
    pub open spec fn private_connected(self, call_id: u16, floor_itsi: u32) -> CcRun {
        match crate::table::lookup(self.st.private_calls, call_id) {
            None => self,
            Some(earlier) => {
                let call = PrivateCallLocal { connected: true, floor_itsi, ..earlier };
                let held = self.hold_private(call_id, call);
                let shares = held.shared_slot(call_id, call) is Some;
                held.connect_party(
                    call_id,
                    call,
                    call.caller_itsi,
                    floor_itsi,
                    shares,
                ).connect_party(
                    call_id,
                    call,
                    call.callee_itsi,
                    floor_itsi,
                    shares,
                ).record_uplink(call.caller_itsi, call_id).record_uplink(call.callee_itsi, call_id)
            },
        }
    }

    /// What the MAC is told of the floor on a restored circuit. A duplex call
    /// has no floor holder.
    pub open spec fn restored_floor(
        self,
        call_id: u16,
        call: PrivateCallLocal,
        ts: u8,
    ) -> CallControl {
        if call.duplex {
            CallControl::PrivateCallTrafficActive { call_id, ts }
        } else if call.floor_itsi == 0 {
            CallControl::FloorReleased { call_id, ts }
        } else {
            CallControl::FloorGranted {
                call_id,
                source_issi: call.floor_itsi,
                dest_gssi: 0,
                ts,
            }
        }
    }

    /// The MAC is told of the floor on the circuit of each party, once for each
    /// timeslot.
    pub open spec fn restore_floors(self, call_id: u16, call: PrivateCallLocal) -> CcRun {
        let caller = self.party_circuit(call_id, call.caller_itsi);
        let callee = self.party_circuit(call_id, call.callee_itsi);
        let first = match caller {
            Some(circuit) => self.control(
                TetraEntity::Umac,
                self.restored_floor(call_id, call, circuit.ts),
            ),
            None => self,
        };
        match callee {
            Some(circuit) => if caller is Some && caller->0.ts == circuit.ts {
                first
            } else {
                first.control(TetraEntity::Umac, self.restored_floor(call_id, call, circuit.ts))
            },
            None => first,
        }
    }

    /// A connected private call comes back with a party that moved here.
    #[verifier::opaque]
    pub open spec fn private_restore(
        self,
        call_id: u16,
        restored: PrivateCallLocal,
        endpoint_mask: u8,
    ) -> CcRun {
        let held = self.hold_private(
            call_id,
            match crate::table::lookup(self.st.private_calls, call_id) {
                Some(existing) => PrivateCallLocal {
                    local_mask: existing.local_mask | endpoint_mask,
                    connected: true,
                    floor_itsi: restored.floor_itsi,
                    ..existing
                },
                None => restored,
            },
        );
        let (seized, accepted) = held.seize_private(
            call_id,
            restored.caller_itsi,
            restored.callee_itsi,
            endpoint_mask,
            restored.duplex,
        );
        match crate::table::lookup(seized.st.private_calls, call_id) {
            Some(call) => if !accepted {
                seized
            } else {
                let bridged = match seized.shared_slot(call_id, call) {
                    Some(ts) => seized.stop_media(call_id, ts),
                    None => seized.bridge_party(
                        call_id,
                        endpoint_mask & 1 != 0,
                        call.caller_itsi,
                        call.callee_itsi,
                    ).bridge_party(
                        call_id,
                        endpoint_mask & 2 != 0,
                        call.callee_itsi,
                        call.caller_itsi,
                    ),
                };
                let floored = bridged.restore_floors(call_id, call);
                let first = if call.local_mask & 1 != 0 {
                    floored.record_uplink(call.caller_itsi, call_id)
                } else {
                    floored
                };
                if call.local_mask & 2 != 0 {
                    first.record_uplink(call.callee_itsi, call_id)
                } else {
                    first
                }
            },
            None => seized,
        }
    }

    /// One party is told who has the floor, and its circuit leaves hangtime
    /// unless `resumed` is its timeslot.
    pub open spec fn private_grant_party(
        self,
        call_id: u16,
        itsi: u32,
        recipient: u32,
        resumed: Option<u8>,
    ) -> (CcRun, Option<u8>) {
        match self.party_circuit(call_id, recipient) {
            None => (self, resumed),
            Some(circuit) => {
                let told = self.grant_to(
                    call_id,
                    recipient,
                    itsi,
                    circuit.ts,
                    if itsi == recipient {
                        TransmissionGrant::Granted
                    } else {
                        TransmissionGrant::GrantedToOtherUser
                    },
                );
                if resumed == Some(circuit.ts) {
                    (told, resumed)
                } else {
                    (
                        told.control(
                            TetraEntity::Umac,
                            CallControl::FloorGranted {
                                call_id,
                                source_issi: itsi,
                                dest_gssi: 0,
                                ts: circuit.ts,
                            },
                        ),
                        Some(circuit.ts),
                    )
                }
            },
        }
    }

    /// The floor of a private call is granted.
    #[verifier::opaque]
    pub open spec fn private_floor_granted(self, call_id: u16, itsi: u32) -> CcRun {
        let answered = CcRun {
            st: CcView {
                pending_private_floors: crate::table::del(
                    self.st.pending_private_floors,
                    CallParty { call_id, issi: itsi },
                ),
                ..self.st
            },
            ..self
        };
        match crate::table::lookup(self.st.private_calls, call_id) {
            None => answered,
            Some(call) => {
                let held = answered.hold_private(
                    call_id,
                    PrivateCallLocal { floor_itsi: itsi, ..call },
                );
                let (first, resumed) = held.private_grant_party(
                    call_id,
                    itsi,
                    call.caller_itsi,
                    None,
                );
                first.private_grant_party(call_id, itsi, call.callee_itsi, resumed).0
            },
        }
    }

    /// One party is told that nobody has the floor, and its circuit enters
    /// hangtime unless `released` is its timeslot.
    pub open spec fn private_cease_party(
        self,
        call_id: u16,
        itsi: u32,
        released: Option<u8>,
    ) -> (CcRun, Option<u8>) {
        match self.party_circuit(call_id, itsi) {
            None => (self, released),
            Some(circuit) => {
                let told = self.ceased(call_id, TetraAddress::issi(itsi), circuit.ts);
                if released == Some(circuit.ts) {
                    (told, released)
                } else {
                    (
                        told.control(
                            TetraEntity::Umac,
                            CallControl::FloorReleased { call_id, ts: circuit.ts },
                        ),
                        Some(circuit.ts),
                    )
                }
            },
        }
    }

    /// Nobody has the floor of a private call any more.
    #[verifier::opaque]
    pub open spec fn private_floor_released(self, call_id: u16) -> CcRun {
        match crate::table::lookup(self.st.private_calls, call_id) {
            None => self,
            Some(call) => {
                let held = self.hold_private(call_id, PrivateCallLocal { floor_itsi: 0, ..call });
                let (first, released) = held.private_cease_party(call_id, call.caller_itsi, None);
                first.private_cease_party(call_id, call.callee_itsi, released).0
            },
        }
    }

    // -----------------------------------------------------------------------
    // Handover
    // -----------------------------------------------------------------------

    /// With the terminal known and a member of the group, as it will be once it
    /// has arrived.
    pub open spec fn expect_member(self, itsi: u32, gssi: u32) -> CcRun {
        let member = Membership { issi: itsi, gssi };
        CcRun {
            st: CcView {
                known: if crate::table::contains(self.st.known, itsi) {
                    self.st.known
                } else {
                    crate::table::put(self.st.known, itsi, true)
                },
                members: if crate::table::contains(self.st.members, member) {
                    self.st.members
                } else {
                    crate::table::put(self.st.members, member, true)
                },
                scanning: if crate::table::contains(self.st.scanning, itsi) {
                    self.st.scanning
                } else {
                    crate::table::put(self.st.scanning, itsi, true)
                },
                ..self.st
            },
            ..self
        }
    }

    /// A channel of a group call is reserved for a terminal that is about to
    /// arrive.
    #[verifier::opaque]
    pub open spec fn reserve_handover(
        self,
        itsi: u32,
        central_call_id: u64,
        remote: RemoteCall,
    ) -> (CcRun, Option<HandoverChannelAllocation>) {
        if central_call_id > 0xffff || central_call_id == 0 {
            (self, None)
        } else {
            let call_id = central_call_id as u16;
            let expected = self.expect_member(itsi, remote.gssi);
            match crate::table::lookup(expected.st.active_calls, call_id) {
                Some(existing) => if existing.dest_gssi != remote.gssi {
                    (expected, None)
                } else {
                    expected.reserve_channel(itsi, call_id)
                },
                None => expected.start_remote(call_id, remote, false).reserve_channel(
                    itsi,
                    call_id,
                ),
            }
        }
    }

    /// The channel of a group call is reserved, if the call is active and the
    /// channel can be told to the terminal.
    pub open spec fn reserve_channel(self, itsi: u32, call_id: u16) -> (
        CcRun,
        Option<HandoverChannelAllocation>,
    ) {
        match crate::table::lookup(self.st.active_calls, call_id) {
            None => (self, None),
            Some(call) => {
                let channel = HandoverChannelAllocation {
                    carrier: self.carrier,
                    timeslot_bitmap: slot_bit(call.ts),
                    usage: call.usage,
                };
                if channel.representable() {
                    (self.record_uplink(itsi, call_id), Some(channel))
                } else {
                    (self, None)
                }
            },
        }
    }
}

/// The bit of a timeslot in a bitmap of the four timeslots.
pub open spec fn slot_bit(ts: u8) -> u8 {
    if ts == 1 {
        1
    } else if ts == 2 {
        2
    } else if ts == 3 {
        4
    } else if ts == 4 {
        8
    } else {
        0
    }
}

impl HandoverChannelAllocation {
    /// Every field fits its element on the air, and a timeslot is named.
    pub open spec fn representable(self) -> bool {
        self.carrier <= 0x0fff && 1 <= self.timeslot_bitmap <= 0x0f && self.usage <= 63
    }
}

/// What came of seizing a circuit for one party.
#[verifier::ext_equal]
pub struct PartySeizure {
    pub run: CcRun,
    pub opened: Option<CmceCircuit>,
    pub failed: bool,
}

} // verus!
