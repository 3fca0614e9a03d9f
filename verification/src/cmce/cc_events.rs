//! The events that reach call control, as functions on a `CcRun`: uplink PDUs,
//! decisions of the central SwMI, subscriber updates, messages of Brew and the
//! start of a timeslot.
use crate::cmce::cc_model::{
    ActiveCall, CachedSetup, CallOrigin, CcRun, CcView, CentralSetup, CircuitMgrCmd, FloorTimer,
    PrivateCallLocal, ReleasingCall, ReleasingPrivateCircuit, RemoteCall, SubscriberAction,
    CLOSE_AFTER_SEND_TIMESLOTS, HANGTIME_TIMESLOTS, NOTIFICATION_LE_BROADCAST,
    PREEMPTION_GUARD_TIMESLOTS,
};
use crate::cmce::pdu::{
    AssociatedChannel, CallControl, CallMessage, CallParty, CallTimeout, CallTimeoutSetupPhase,
    CcMessage, CommunicationType, DConnect, DSetup, DisconnectCause, DownlinkPdu, Layer2Service,
    Membership, SetupRequest, SsiType, TetraAddress, TetraEntity, TransmissionGrant, UnitdataReq,
    UplinkPdu, UplinkPrim,
};
use crate::tdma::TdmaTime;
use vstd::prelude::*;

verus! {

/// The latest U-SETUP that waits for a call of the group.
pub open spec fn waiting_for_group(
    setups: Seq<(Membership, SetupRequest)>,
    gssi: u32,
) -> Option<(Membership, SetupRequest)>
    decreases setups.len(),
{
    if setups.len() == 0 {
        None
    } else if setups.last().0.gssi == gssi {
        Some(setups.last())
    } else {
        waiting_for_group(setups.drop_last(), gssi)
    }
}

/// The latest U-SETUP of a terminal that waits for a group call.
pub open spec fn waiting_from_terminal(
    setups: Seq<(Membership, SetupRequest)>,
    issi: u32,
) -> Option<(Membership, SetupRequest)>
    decreases setups.len(),
{
    if setups.len() == 0 {
        None
    } else if setups.last().0.issi == issi {
        Some(setups.last())
    } else {
        waiting_from_terminal(setups.drop_last(), issi)
    }
}

/// The latest call with a network speaker of this Brew session.
pub open spec fn call_of_session(calls: Seq<(u16, ActiveCall)>, uuid: u128) -> Option<
    (u16, ActiveCall),
>
    decreases calls.len(),
{
    if calls.len() == 0 {
        None
    } else if calls.last().1.brew_uuid == Some(uuid) {
        Some(calls.last())
    } else {
        call_of_session(calls.drop_last(), uuid)
    }
}

/// The latest call with a speaker on this timeslot.
pub open spec fn speaking_on(calls: Seq<(u16, ActiveCall)>, ts: u8) -> Option<(u16, ActiveCall)>
    decreases calls.len(),
{
    if calls.len() == 0 {
        None
    } else if calls.last().1.ts == ts && calls.last().1.tx_active {
        Some(calls.last())
    } else {
        speaking_on(calls.drop_last(), ts)
    }
}

impl CcRun {
    // -----------------------------------------------------------------------
    // Uplink
    // -----------------------------------------------------------------------

    /// An uplink PDU.
    #[verifier::opaque]
    pub open spec fn uplink(self, prim: UplinkPrim, pdu: UplinkPdu) -> CcRun {
        match pdu {
            UplinkPdu::USetup(setup) => self.u_setup(SetupRequest { prim, pdu: setup }),
            UplinkPdu::UTxCeased { call_identifier } => self.u_tx_ceased(prim, call_identifier),
            UplinkPdu::UTxDemand { call_identifier, tx_demand_priority } => self.u_tx_demand(
                prim,
                call_identifier,
                tx_demand_priority,
            ),
            UplinkPdu::URelease { call_identifier, disconnect_cause } => self.u_release(
                prim,
                call_identifier,
                disconnect_cause,
            ),
            UplinkPdu::UDisconnect { call_identifier, disconnect_cause } => self.u_disconnect(
                prim,
                call_identifier,
                disconnect_cause,
            ),
            UplinkPdu::UAlert { call_identifier } => self.u_alert(prim, call_identifier),
            UplinkPdu::UConnect { call_identifier } => self.u_connect(prim, call_identifier),
            UplinkPdu::UInfo { call_identifier, poll_response } => self.u_info(
                prim,
                call_identifier,
                poll_response,
            ),
            UplinkPdu::UCallRestore { call_identifier, other_party_ssi } => self.u_call_restore(
                prim,
                call_identifier,
                other_party_ssi,
            ),
            UplinkPdu::MalformedUCallRestore => self.restore_failure(prim.received.ssi),
            UplinkPdu::UStatus => self,
        }
    }

    // -----------------------------------------------------------------------
    // Decisions of the central SwMI
    // -----------------------------------------------------------------------

    /// A central group call starts. A U-SETUP that waits for it is resumed;
    /// where nobody listens yet, the call waits for a listener.
    pub open spec fn group_call_start(self, call_id: u16, remote: RemoteCall) -> CcRun {
        let owner = Membership { issi: remote.owner_itsi, gssi: remote.gssi };
        let waiting = match crate::table::lookup(self.st.pending_setups, owner) {
            Some(request) => Some((owner, request)),
            None => waiting_for_group(self.st.pending_setups, remote.gssi),
        };
        match waiting {
            Some((key, request)) => CcRun {
                st: CcView {
                    pending_setups: crate::table::del(self.st.pending_setups, key),
                    central_setups: crate::table::put(
                        self.st.central_setups,
                        key,
                        CentralSetup {
                            call_id,
                            floor_itsi: remote.floor_itsi,
                            priority: remote.priority,
                        },
                    ),
                    ..self.st
                },
                ..self
            }.u_setup(request),
            None => if !self.st.has_listener(remote.gssi) {
                CcRun {
                    st: CcView {
                        pending_remote: crate::table::put(
                            self.st.pending_remote,
                            call_id,
                            remote,
                        ),
                        ..self.st
                    },
                    ..self
                }
            } else {
                self.start_remote(
                    call_id,
                    remote,
                    !self.st.floor_holder_is_local_member(remote.gssi, remote.floor_itsi),
                )
            },
        }
    }

    /// The priority of a group call changes.
    pub open spec fn priority_changed(self, call_id: u16, priority: u8) -> CcRun {
        CcRun {
            st: CcView {
                active_calls: match crate::table::lookup(self.st.active_calls, call_id) {
                    Some(call) => crate::table::put(
                        self.st.active_calls,
                        call_id,
                        ActiveCall { priority, ..call },
                    ),
                    None => self.st.active_calls,
                },
                cached_setups: match crate::table::lookup(self.st.cached_setups, call_id) {
                    Some(cached) => crate::table::put(
                        self.st.cached_setups,
                        call_id,
                        CachedSetup {
                            setup: DSetup { call_priority: priority, ..cached.setup },
                            ..cached
                        },
                    ),
                    None => self.st.cached_setups,
                },
                ..self.st
            },
            ..self
        }
    }

    /// The floor is taken from a speaker. The grant to the next one waits until
    /// the interruption is on the air.
    pub open spec fn floor_preempted(
        self,
        call_id: u16,
        previous_itsi: u32,
        next_itsi: u32,
    ) -> CcRun {
        let taken = self.preempt(call_id, previous_itsi, next_itsi);
        if self.st.preemption_applies(call_id, previous_itsi) {
            CcRun {
                st: CcView {
                    pending_grants: crate::table::put(
                        taken.st.pending_grants,
                        call_id,
                        FloorTimer {
                            itsi: next_itsi,
                            due: self.st.dltime.plus(PREEMPTION_GUARD_TIMESLOTS as int),
                        },
                    ),
                    ..taken.st
                },
                ..taken
            }
        } else {
            taken
        }
    }

    /// The floor of a group call is granted, unless the grant waits for an
    /// interruption.
    pub open spec fn floor_granted(self, call_id: u16, itsi: u32) -> CcRun {
        let waits = match crate::table::lookup(self.st.pending_grants, call_id) {
            Some(timer) => timer.itsi == itsi,
            None => false,
        };
        if waits {
            self
        } else {
            self.central_grant(call_id, itsi)
        }
    }

    /// Nobody has the floor of a group call any more.
    pub open spec fn floor_released(self, call_id: u16) -> CcRun {
        let forgotten = CcRun {
            st: CcView {
                pending_grants: crate::table::del(self.st.pending_grants, call_id),
                ..self.st
            },
            ..self
        };
        match crate::table::lookup(self.st.active_calls, call_id) {
            None => forgotten,
            Some(call) => forgotten.hold_call(
                call_id,
                ActiveCall { tx_active: false, hangtime_start: Some(self.st.dltime), ..call },
            ).control_both(
                TetraEntity::Umac,
                TetraEntity::Swmi,
                CallControl::FloorReleased { call_id, ts: call.ts },
            ),
        }
    }

    /// The central SwMI ends a group call.
    pub open spec fn central_release(self, call_id: u64, cause: u8) -> CcRun {
        let forgotten = CcRun {
            st: CcView {
                pending_remote: crate::table::del(self.st.pending_remote, call_id as u16),
                ..self.st
            },
            ..self
        };
        if call_id > 0xffff {
            forgotten
        } else {
            forgotten.release_call(
                call_id as u16,
                DisconnectCause::from_code_or(cause, DisconnectCause::SwmiRequestedDisconnection),
            )
        }
    }

    /// The central SwMI refuses a call that has no identifier yet.
    pub open spec fn call_rejected(self, itsi: u32, cause: u8) -> CcRun {
        match crate::table::lookup(self.st.pending_private_setups, itsi) {
            Some(request) => CcRun {
                st: CcView {
                    pending_private_setups: crate::table::del(
                        self.st.pending_private_setups,
                        itsi,
                    ),
                    ..self.st
                },
                ..self
            }.reject_setup(
                request.prim,
                DisconnectCause::from_code_or(cause, DisconnectCause::RequestedServiceNotAvailable),
            ),
            None => match waiting_from_terminal(self.st.pending_setups, itsi) {
                Some((key, request)) => CcRun {
                    st: CcView {
                        pending_setups: crate::table::del(self.st.pending_setups, key),
                        ..self.st
                    },
                    ..self
                }.reject_setup(request.prim, DisconnectCause::RequestedServiceNotAvailable),
                None => self,
            },
        }
    }

    /// The central SwMI has taken up a private call of a terminal of this cell.
    pub open spec fn private_proceeding(self, call_id: u16, call: PrivateCallLocal) -> CcRun {
        match crate::table::lookup(self.st.pending_private_setups, call.caller_itsi) {
            None => self,
            Some(request) => CcRun {
                st: CcView {
                    pending_private_setups: crate::table::del(
                        self.st.pending_private_setups,
                        call.caller_itsi,
                    ),
                    ..self.st
                },
                ..self
            }.hold_private(call_id, call).call_proceeding(request.prim, request.pdu, call_id),
        }
    }

    /// A private call is offered to a terminal of this cell.
    pub open spec fn private_offered(self, call_id: u16, call: PrivateCallLocal) -> CcRun {
        self.hold_private(
            call_id,
            match crate::table::lookup(self.st.private_calls, call_id) {
                Some(existing) => PrivateCallLocal {
                    local_mask: existing.local_mask | 2,
                    ..existing
                },
                None => call,
            },
        ).private_offer(call_id, call)
    }

    /// The called party of a private call is being alerted.
    pub open spec fn private_alerted(self, call_id: u16) -> CcRun {
        match crate::table::lookup(self.st.private_calls, call_id) {
            None => self,
            Some(call) => self.emit(
                crate::cmce::cc_model::unitdata(
                    DownlinkPdu::DAlert {
                        call_identifier: call_id,
                        call_time_out_set_up_phase: CallTimeoutSetupPhase::T30s,
                        simplex_duplex_selection: call.duplex,
                        call_queued: false,
                    },
                    None,
                    TetraAddress::issi(call.caller_itsi),
                    Layer2Service::Acknowledged,
                    None,
                    None,
                ),
            ),
        }
    }

    /// A party of a private call is told that the call goes on.
    pub open spec fn private_keepalive(self, call_id: u16, itsi: u32) -> CcRun {
        match self.party_circuit(call_id, itsi) {
            None => self,
            Some(circuit) => self.emit(
                crate::cmce::cc_model::stolen(
                    DownlinkPdu::DInfo {
                        call_identifier: call_id,
                        reset_call_time_out_timer: true,
                        poll_request: false,
                    },
                    TetraAddress::issi(itsi),
                    circuit.ts,
                ),
            ),
        }
    }

    /// A message of the central SwMI. A call identifier that does not fit the
    /// air interface is ignored, and so is a message that only the station
    /// sends.
    #[verifier::opaque]
    pub open spec fn swmi_action(self, action: CallMessage) -> CcRun {
        match action {
            CallMessage::HandoverReserveGroupCall {
                reservation_id,
                itsi,
                call_id,
                owner_itsi,
                gssi,
                priority,
                floor_itsi,
                acknowledged,
            } => {
                let (reserved, channel) = self.reserve_handover(
                    itsi as u32,
                    call_id,
                    RemoteCall {
                        owner_itsi: owner_itsi as u32,
                        gssi,
                        priority,
                        floor_itsi: floor_itsi as u32,
                        acknowledged,
                    },
                );
                if self.swmi.is_online() {
                    reserved.submit(
                        CallMessage::HandoverReservationResult {
                            reservation_id,
                            accepted: channel is Some,
                            allocation: channel,
                        },
                    )
                } else {
                    reserved
                }
            },
            CallMessage::GroupCallStart {
                call_id,
                owner_itsi,
                gssi,
                priority,
                floor_itsi,
                acknowledged,
            } => if call_id > 0xffff {
                self
            } else {
                self.group_call_start(
                    call_id as u16,
                    RemoteCall {
                        owner_itsi: owner_itsi as u32,
                        gssi,
                        priority,
                        floor_itsi: floor_itsi as u32,
                        acknowledged,
                    },
                )
            },
            CallMessage::GroupCallPriorityChanged { call_id, priority } => if call_id > 0xffff {
                self
            } else {
                self.priority_changed(call_id as u16, priority)
            },
            CallMessage::FloorPreempted { call_id, previous_itsi, next_itsi } => if call_id
                > 0xffff {
                self
            } else {
                self.floor_preempted(call_id as u16, previous_itsi as u32, next_itsi as u32)
            },
            CallMessage::FloorGranted { call_id, itsi } => if call_id > 0xffff {
                self
            } else {
                self.floor_granted(call_id as u16, itsi as u32)
            },
            CallMessage::FloorReleased { call_id } => if call_id > 0xffff {
                self
            } else {
                self.floor_released(call_id as u16)
            },
            CallMessage::CallRelease { call_id, cause } => self.central_release(call_id, cause),
            CallMessage::CallDisconnect { call_id, cause } => self.central_release(call_id, cause),
            CallMessage::CallReject { call_id, itsi, cause } => if call_id == 0 {
                self.call_rejected(itsi as u32, cause)
            } else {
                self
            },
            CallMessage::PrivateCallProceeding {
                call_id,
                caller_itsi,
                callee_itsi,
                hook,
                duplex,
                request_to_transmit,
                priority,
            } => if call_id > 0xffff {
                self
            } else {
                self.private_proceeding(
                    call_id as u16,
                    PrivateCallLocal {
                        caller_itsi: caller_itsi as u32,
                        callee_itsi: callee_itsi as u32,
                        hook,
                        duplex,
                        request_to_transmit,
                        priority,
                        floor_itsi: 0,
                        connected: false,
                        local_mask: 1,
                    },
                )
            },
            CallMessage::PrivateCallOffer {
                call_id,
                caller_itsi,
                callee_itsi,
                hook,
                duplex,
                request_to_transmit,
                priority,
            } => if call_id > 0xffff {
                self
            } else {
                self.private_offered(
                    call_id as u16,
                    PrivateCallLocal {
                        caller_itsi: caller_itsi as u32,
                        callee_itsi: callee_itsi as u32,
                        hook,
                        duplex,
                        request_to_transmit,
                        priority,
                        floor_itsi: 0,
                        connected: false,
                        local_mask: 2,
                    },
                )
            },
            CallMessage::PrivateCallAlert { call_id, callee_itsi } => if call_id > 0xffff {
                self
            } else {
                self.private_alerted(call_id as u16)
            },
            CallMessage::PrivateCallReserve {
                call_id,
                caller_itsi,
                callee_itsi,
                endpoint_mask,
                duplex,
            } => if call_id > 0xffff {
                self
            } else {
                let (seized, accepted) = self.seize_private(
                    call_id as u16,
                    caller_itsi as u32,
                    callee_itsi as u32,
                    endpoint_mask,
                    duplex,
                );
                if self.swmi.is_present() {
                    seized.submit(
                        CallMessage::PrivateCallResourceResult { call_id, endpoint_mask, accepted },
                    )
                } else {
                    seized
                }
            },
            CallMessage::PrivateCallConnected { call_id, initial_floor_itsi } => if call_id
                > 0xffff {
                self
            } else {
                self.private_connected(call_id as u16, initial_floor_itsi as u32)
            },
            CallMessage::PrivateCallRestore {
                call_id,
                caller_itsi,
                callee_itsi,
                hook,
                duplex,
                request_to_transmit,
                priority,
                initial_floor_itsi,
                endpoint_mask,
            } => if call_id > 0xffff {
                self
            } else {
                self.private_restore(
                    call_id as u16,
                    PrivateCallLocal {
                        caller_itsi: caller_itsi as u32,
                        callee_itsi: callee_itsi as u32,
                        hook,
                        duplex,
                        request_to_transmit,
                        priority,
                        floor_itsi: initial_floor_itsi as u32,
                        connected: true,
                        local_mask: endpoint_mask,
                    },
                    endpoint_mask,
                )
            },
            CallMessage::PrivateCallEndpointMoved { call_id, itsi } => if call_id > 0xffff || itsi
                > 0xffff_ffff {
                self
            } else {
                self.detach_party(call_id as u16, itsi as u32)
            },
            CallMessage::PrivateCallRelease { call_id, itsi, cause } => if call_id > 0xffff {
                self
            } else {
                self.release_private(
                    call_id as u16,
                    DisconnectCause::from_code_or(
                        cause,
                        DisconnectCause::SwmiRequestedDisconnection,
                    ),
                )
            },
            CallMessage::PrivateFloorGranted { call_id, itsi } => if call_id > 0xffff {
                self
            } else {
                self.private_floor_granted(call_id as u16, itsi as u32)
            },
            CallMessage::PrivateFloorReleased { call_id, itsi } => if call_id > 0xffff {
                self
            } else {
                self.private_floor_released(call_id as u16)
            },
            CallMessage::PrivateCallKeepalive { call_id, itsi } => if call_id > 0xffff {
                self
            } else {
                self.private_keepalive(call_id as u16, itsi as u32)
            },
            _ => self,
        }
    }

    /// The messages of the central SwMI, in their order.
    pub open spec fn swmi_actions(self, actions: Seq<CallMessage>) -> CcRun
        decreases actions.len(),
    {
        if actions.len() == 0 {
            self
        } else {
            self.swmi_actions(actions.drop_last()).swmi_action(actions.last())
        }
    }

    // -----------------------------------------------------------------------
    // Subscribers
    // -----------------------------------------------------------------------

    /// With the terminal a member of each of `groups`, and the groups that it
    /// was no member of.
    pub open spec fn affiliate_each(self, issi: u32, groups: Seq<u32>, classes: Seq<u8>) -> (
        CcRun,
        Seq<u32>,
    )
        decreases groups.len(),
    {
        if groups.len() == 0 {
            (self, Seq::empty())
        } else {
            let (before, fresh) = self.affiliate_each(issi, groups.drop_last(), classes);
            let index = groups.len() - 1;
            let member = Membership { issi, gssi: groups.last() };
            let class_of_usage = if index < classes.len() {
                classes[index]
            } else {
                0
            };
            let classed = CcRun {
                st: CcView {
                    class_of_usage: crate::table::put(
                        before.st.class_of_usage,
                        member,
                        class_of_usage,
                    ),
                    ..before.st
                },
                ..before
            };
            if crate::table::contains(before.st.members, member) {
                (classed, fresh)
            } else {
                (
                    CcRun {
                        st: CcView {
                            members: crate::table::put(before.st.members, member, true),
                            ..classed.st
                        },
                        ..classed
                    },
                    fresh.push(groups.last()),
                )
            }
        }
    }

    /// With the terminal no member of any of `groups`, and the groups that it
    /// was a member of.
    pub open spec fn deaffiliate_each(self, issi: u32, groups: Seq<u32>) -> (CcRun, Seq<u32>)
        decreases groups.len(),
    {
        if groups.len() == 0 {
            (self, Seq::empty())
        } else {
            let (before, left) = self.deaffiliate_each(issi, groups.drop_last());
            let member = Membership { issi, gssi: groups.last() };
            let removed = CcRun {
                st: CcView {
                    class_of_usage: crate::table::del(before.st.class_of_usage, member),
                    members: crate::table::del(before.st.members, member),
                    ..before.st
                },
                ..before
            };
            if crate::table::contains(before.st.members, member) {
                (removed, left.push(groups.last()))
            } else {
                (removed, left)
            }
        }
    }

    /// A terminal has left the cell.
    pub open spec fn deregistered(self, issi: u32) -> CcRun {
        let groups = crate::cmce::cc_events::groups_of(self.st.members, issi);
        let removed = CcRun {
            st: CcView {
                known: crate::table::del(self.st.known, issi),
                members: crate::cmce::cc_events::without_terminal(self.st.members, issi),
                ..self.st
            },
            ..self
        };
        let dropped = removed.drop_unlistened_groups(groups);
        CcRun {
            st: CcView {
                class_of_usage: crate::cmce::cc_events::without_terminal(
                    dropped.st.class_of_usage,
                    issi,
                ),
                scanning: crate::table::del(dropped.st.scanning, issi),
                candidates: crate::table::del(dropped.st.candidates, issi),
                ..dropped.st
            },
            ..dropped
        }
    }

    /// What the mobility management tells of a subscriber.
    #[verifier::opaque]
    pub open spec fn subscriber_update(
        self,
        action: SubscriberAction,
        issi: u32,
        groups: Seq<u32>,
        classes: Seq<u8>,
        scanning_enabled: Option<bool>,
    ) -> CcRun {
        match action {
            SubscriberAction::Register => CcRun {
                st: CcView {
                    known: if crate::table::contains(self.st.known, issi) {
                        self.st.known
                    } else {
                        crate::table::put(self.st.known, issi, true)
                    },
                    scanning: if crate::table::contains(self.st.scanning, issi) {
                        self.st.scanning
                    } else {
                        crate::table::put(self.st.scanning, issi, true)
                    },
                    ..self.st
                },
                ..self
            },
            SubscriberAction::Deregister => self.deregistered(issi),
            SubscriberAction::Affiliate => {
                let known = CcRun {
                    st: CcView {
                        known: if crate::table::contains(self.st.known, issi) {
                            self.st.known
                        } else {
                            crate::table::put(self.st.known, issi, true)
                        },
                        ..self.st
                    },
                    ..self
                };
                let (affiliated, fresh) = known.affiliate_each(issi, groups, classes);
                affiliated.activate_pending(fresh)
            },
            SubscriberAction::Deaffiliate => if crate::table::contains(self.st.known, issi) {
                let (left, removed) = self.deaffiliate_each(issi, groups);
                left.drop_unlistened_groups(removed)
            } else {
                self.drop_unlistened_groups(groups)
            },
            SubscriberAction::ScanningState => match scanning_enabled {
                Some(enabled) => CcRun {
                    st: CcView {
                        scanning: crate::table::put(self.st.scanning, issi, enabled),
                        ..self.st
                    },
                    ..self
                },
                None => self,
            },
        }
    }

    // -----------------------------------------------------------------------
    // Brew
    // -----------------------------------------------------------------------

    /// A speaker of the network takes the floor of a group call in hangtime.
    pub open spec fn network_speaker(
        self,
        brew_uuid: u128,
        source_issi: u32,
        gssi: u32,
        call_id: u16,
        call: ActiveCall,
    ) -> CcRun {
        self.hold_call(
            call_id,
            ActiveCall {
                source_issi,
                tx_active: true,
                hangtime_start: None,
                brew_uuid: Some(brew_uuid),
                origin: match call.origin {
                    CallOrigin::Network { brew_uuid: _ } => CallOrigin::Network { brew_uuid },
                    other => other,
                },
                ..call
            },
        ).grant_to_group(call_id, source_issi, gssi, call.ts).grant_to(
            call_id,
            source_issi,
            source_issi,
            call.ts,
            TransmissionGrant::Granted,
        ).control(
            TetraEntity::Umac,
            CallControl::FloorGranted { call_id, source_issi, dest_gssi: gssi, ts: call.ts },
        ).control(
            TetraEntity::Brew,
            CallControl::NetworkCallReady { brew_uuid, call_id, ts: call.ts, usage: call.usage },
        )
    }

    /// A group call of the network opens in this cell, if a timeslot is free.
    pub open spec fn open_network_call(
        self,
        brew_uuid: u128,
        source_issi: u32,
        gssi: u32,
    ) -> CcRun {
        match self.slots.lowest_free() {
            None => self,
            Some(ts) => {
                let circuit = self.st.circuits.circuit(ts, CommunicationType::P2Mp, None, false);
                let call_id = circuit.call_id;
                let dest = TetraAddress::gssi(gssi);
                let setup = DSetup {
                    call_identifier: call_id,
                    call_time_out: CallTimeout::T5m,
                    hook_method_selection: false,
                    simplex_duplex_selection: false,
                    basic_service_information: crate::cmce::cc_model::speech_service(
                        CommunicationType::P2Mp,
                    ),
                    transmission_grant: TransmissionGrant::GrantedToOtherUser,
                    transmission_request_permission: false,
                    call_priority: 0,
                    notification_indicator: Some(NOTIFICATION_LE_BROADCAST),
                    calling_party_address_ssi: Some(source_issi),
                };
                let cached = self.open_circuit(
                    ts,
                    CommunicationType::P2Mp,
                    None,
                    false,
                ).cache_setup(call_id, setup, dest);
                cached.send_setup(setup, dest, circuit.usage, ts, None).announce_on(
                    setup,
                    dest,
                    circuit.usage,
                    ts,
                    cached.st.announcement_channels(gssi),
                ).emit(
                    crate::cmce::cc_model::unitdata(
                        DownlinkPdu::DConnect(
                            DConnect {
                                call_identifier: call_id,
                                call_time_out: CallTimeout::T5m,
                                hook_method_selection: false,
                                simplex_duplex_selection: false,
                                transmission_grant: TransmissionGrant::GrantedToOtherUser,
                                transmission_request_permission: false,
                                call_ownership: false,
                                call_priority: None,
                            },
                        ),
                        None,
                        dest,
                        Layer2Service::Unacknowledged,
                        None,
                        None,
                    ),
                ).hold_call(
                    call_id,
                    ActiveCall {
                        origin: CallOrigin::Network { brew_uuid },
                        dest_gssi: gssi,
                        source_issi,
                        ts,
                        usage: circuit.usage,
                        priority: 0,
                        acknowledged: false,
                        tx_active: true,
                        hangtime_start: None,
                        brew_uuid: Some(brew_uuid),
                    },
                ).track_listeners(call_id).control(
                    TetraEntity::Brew,
                    CallControl::NetworkCallReady { brew_uuid, call_id, ts, usage: circuit.usage },
                )
            },
        }
    }

    /// A group call of the network starts, or its next speaker does.
    #[verifier::opaque]
    pub open spec fn network_call_start(
        self,
        brew_uuid: u128,
        source_issi: u32,
        gssi: u32,
    ) -> CcRun {
        let refused = CallControl::NetworkCallEnd { brew_uuid };
        if !self.st.has_listener(gssi) {
            self.drop_unlistened(gssi).control(TetraEntity::Brew, refused)
        } else {
            match crate::cmce::cc_procedures::call_of_group(self.st.active_calls, gssi) {
                Some((call_id, call)) => if call.tx_active {
                    self.control(TetraEntity::Brew, refused)
                } else {
                    self.network_speaker(brew_uuid, source_issi, gssi, call_id, call)
                },
                None => self.open_network_call(brew_uuid, source_issi, gssi),
            }
        }
    }

    /// A speaker of the network stops; a call without one ends.
    #[verifier::opaque]
    pub open spec fn network_call_end(self, brew_uuid: u128) -> CcRun {
        match call_of_session(self.st.active_calls, brew_uuid) {
            None => self,
            Some((call_id, call)) => if call.tx_active {
                self.hold_call(
                    call_id,
                    ActiveCall {
                        tx_active: false,
                        hangtime_start: Some(self.st.dltime),
                        brew_uuid: None,
                        ..call
                    },
                ).ceased(call_id, TetraAddress::gssi(call.dest_gssi), call.ts).control(
                    TetraEntity::Umac,
                    CallControl::FloorReleased { call_id, ts: call.ts },
                )
            } else {
                self.release_call(call_id, DisconnectCause::SwmiRequestedDisconnection)
            },
        }
    }

    /// The speaker on a timeslot has disappeared.
    #[verifier::opaque]
    pub open spec fn ul_inactivity(self, ts: u8) -> CcRun {
        match speaking_on(self.st.active_calls, ts) {
            None => self,
            Some((call_id, call)) => {
                let released = CallControl::FloorReleased { call_id, ts };
                let told = self.hold_call(
                    call_id,
                    ActiveCall { tx_active: false, hangtime_start: Some(self.st.dltime), ..call },
                ).ceased(call_id, TetraAddress::gssi(call.dest_gssi), ts).control(
                    TetraEntity::Umac,
                    released,
                );
                if crate::cmce::cc_model::brew_carries(self.brew, call.dest_gssi) {
                    told.control(TetraEntity::Brew, released)
                } else {
                    told
                }
            },
        }
    }

    /// A control message of Brew or the MAC.
    #[verifier::opaque]
    pub open spec fn call_control(self, message: CallControl) -> CcRun {
        match message {
            CallControl::NetworkCallStart { brew_uuid, source_issi, dest_gssi, priority } =>
                self.network_call_start(brew_uuid, source_issi, dest_gssi),
            CallControl::NetworkCallEnd { brew_uuid } => self.network_call_end(brew_uuid),
            CallControl::UlInactivityTimeout { ts } => self.ul_inactivity(ts),
            _ => self,
        }
    }

    // -----------------------------------------------------------------------
    // Time
    // -----------------------------------------------------------------------

    /// The floor grants that waited for an interruption and are due.
    pub open spec fn due_grants(self, timers: Seq<(u16, FloorTimer)>) -> CcRun
        decreases timers.len(),
    {
        if timers.len() == 0 {
            self
        } else {
            let before = self.due_grants(timers.drop_last());
            let (call_id, timer) = timers.last();
            if self.st.dltime.since(timer.due) >= 0 {
                CcRun {
                    st: CcView {
                        pending_grants: crate::table::del(before.st.pending_grants, call_id),
                        ..before.st
                    },
                    ..before
                }.central_grant(call_id, timer.itsi)
            } else {
                before
            }
        }
    }

    /// The floor requests in private calls that the central SwMI has not
    /// decided on in time.
    pub open spec fn due_private_floors(self, timers: Seq<(CallParty, TdmaTime)>) -> CcRun
        decreases timers.len(),
    {
        if timers.len() == 0 {
            self
        } else {
            let before = self.due_private_floors(timers.drop_last());
            let (party, due) = timers.last();
            if self.st.dltime.since(due) >= 0 {
                let forgotten = CcRun {
                    st: CcView {
                        pending_private_floors: crate::table::del(
                            before.st.pending_private_floors,
                            party,
                        ),
                        ..before.st
                    },
                    ..before
                };
                match (
                    crate::table::lookup(before.st.private_calls, party.call_id),
                    crate::table::lookup(before.st.private_circuits, party),
                ) {
                    (Some(call), Some(circuit)) => if call.connected && !call.duplex {
                        forgotten.grant_to(
                            party.call_id,
                            party.issi,
                            party.issi,
                            circuit.ts,
                            TransmissionGrant::RequestQueued,
                        )
                    } else {
                        forgotten
                    },
                    _ => forgotten,
                }
            } else {
                before
            }
        }
    }

    /// The speakers that are named after a restoration.
    pub open spec fn due_restore_floors(self, timers: Seq<(CallParty, FloorTimer)>) -> CcRun
        decreases timers.len(),
    {
        if timers.len() == 0 {
            self
        } else {
            let before = self.due_restore_floors(timers.drop_last());
            let (party, timer) = timers.last();
            if self.st.dltime.since(timer.due) >= 0 {
                let forgotten = CcRun {
                    st: CcView {
                        pending_restore_floors: crate::table::del(
                            before.st.pending_restore_floors,
                            party,
                        ),
                        ..before.st
                    },
                    ..before
                };
                match crate::table::lookup(before.st.active_calls, party.call_id) {
                    Some(call) => if call.tx_active && call.source_issi == timer.itsi {
                        if call.source_issi == party.issi {
                            forgotten.grant_to(
                                party.call_id,
                                party.issi,
                                call.source_issi,
                                call.ts,
                                TransmissionGrant::Granted,
                            )
                        } else {
                            forgotten.grant_to_group_beside_traffic(
                                party.call_id,
                                call.source_issi,
                                call.dest_gssi,
                                call.ts,
                                call.usage,
                            )
                        }
                    } else {
                        forgotten
                    },
                    None => forgotten,
                }
            } else {
                before
            }
        }
    }

    /// Whether a call has been without a speaker for too long. While the
    /// central SwMI can be reached it alone ends its calls.
    pub open spec fn hangtime_over(self, call: ActiveCall) -> bool {
        match call.hangtime_start {
            Some(start) => !(self.swmi.is_online() && call.origin is Swmi)
                && self.st.dltime.since(start) > HANGTIME_TIMESLOTS,
            None => false,
        }
    }

    /// The calls among `calls` whose hangtime is over end.
    pub open spec fn expire_each(self, calls: Seq<(u16, ActiveCall)>) -> CcRun
        decreases calls.len(),
    {
        if calls.len() == 0 {
            self
        } else {
            let before = self.expire_each(calls.drop_last());
            let (call_id, call) = calls.last();
            if self.hangtime_over(call) {
                before.release_call(call_id, DisconnectCause::ExpiryOfTimer)
            } else {
                before
            }
        }
    }

    /// Whether a release sent at `sent_at` has been transmitted.
    pub open spec fn transmitted(self, sent_at: TdmaTime) -> bool {
        self.st.dltime.since(sent_at) >= CLOSE_AFTER_SEND_TIMESLOTS
    }

    /// The released group calls among `calls` whose release has been
    /// transmitted come to their end.
    pub open spec fn finalize_each(self, calls: Seq<ReleasingCall>) -> CcRun
        decreases calls.len(),
    {
        if calls.len() == 0 {
            self
        } else {
            let before = self.finalize_each(calls.drop_last());
            let call = calls.last();
            if self.transmitted(call.sent_at) {
                before.finalize_release(
                    call.call_id,
                    call.ts,
                    call.dest_gssi,
                    call.is_local,
                    call.brew_uuid,
                )
            } else {
                before
            }
        }
    }

    /// The same for the circuits of private calls.
    pub open spec fn close_each(self, circuits: Seq<ReleasingPrivateCircuit>) -> CcRun
        decreases circuits.len(),
    {
        if circuits.len() == 0 {
            self
        } else {
            let before = self.close_each(circuits.drop_last());
            let released = circuits.last();
            if self.transmitted(released.sent_at) {
                before.drop_circuit(released.circuit.ts).signal_close(released.circuit).free_slot(
                    released.circuit.ts,
                ).control_both(
                    TetraEntity::Swmi,
                    TetraEntity::Umac,
                    CallControl::PrivateMediaStop {
                        call_id: released.call_id,
                        ts: released.circuit.ts,
                    },
                )
            } else {
                before
            }
        }
    }

    /// The released calls whose release has been transmitted come to their end.
    #[verifier::opaque]
    pub open spec fn process_releasing(self) -> CcRun {
        let finalized = self.finalize_each(self.st.releasing_calls);
        let groups = CcRun {
            st: CcView {
                releasing_calls: self.st.releasing_calls.filter(
                    |call: ReleasingCall| !self.transmitted(call.sent_at),
                ),
                ..finalized.st
            },
            ..finalized
        };
        let closed = groups.close_each(self.st.releasing_private);
        CcRun {
            st: CcView {
                releasing_private: self.st.releasing_private.filter(
                    |circuit: ReleasingPrivateCircuit| !self.transmitted(circuit.sent_at),
                ),
                ..closed.st
            },
            ..closed
        }
    }

    /// Whether `ts` carries a private call, or did until a moment ago.
    pub open spec fn is_private_circuit(self, call_id: u16, ts: u8) -> bool {
        ||| crate::table::contains(self.st.private_calls, call_id)
        ||| exists|i: int|
            0 <= i < self.st.private_circuits.len() && (
            #[trigger] self.st.private_circuits[i]).0.call_id == call_id
                && self.st.private_circuits[i].1.ts == ts
        ||| exists|i: int|
            0 <= i < self.st.releasing_private.len() && (
            #[trigger] self.st.releasing_private[i]).call_id == call_id
                && self.st.releasing_private[i].circuit.ts == ts
    }

    /// Late entry: the D-SETUP of a group call with a speaker is repeated,
    /// unless the one before it has not been sent yet.
    #[verifier::opaque]
    pub open spec fn repeat_setup(
        self,
        call_id: u16,
        usage: u8,
        ts: u8,
        unsent: Seq<u64>,
    ) -> CcRun {
        let call = crate::table::lookup(self.st.active_calls, call_id);
        match crate::table::lookup(self.st.cached_setups, call_id) {
            None => self,
            Some(cached) => if crate::table::contains(self.st.restore_prepared, call_id)
                || self.is_private_circuit(call_id, ts) || (call is Some
                && call->0.hangtime_start is Some) || (cached.receipt is Some && unsent.contains(
                cached.receipt->0,
            )) {
                self
            } else {
                let setup = DSetup {
                    transmission_grant: match call {
                        Some(active) => if active.tx_active {
                            TransmissionGrant::GrantedToOtherUser
                        } else {
                            TransmissionGrant::NotGranted
                        },
                        None => cached.setup.transmission_grant,
                    },
                    ..cached.setup
                };
                let receipt = self.st.next_receipt;
                CcRun {
                    st: CcView {
                        next_receipt: crate::cmce::cc_model::command_after(receipt),
                        cached_setups: crate::table::put(
                            self.st.cached_setups,
                            call_id,
                            CachedSetup { setup, receipt: Some(receipt), ..cached },
                        ),
                        ..self.st
                    },
                    ..self
                }.send_setup(setup, cached.dest, usage, ts, Some(receipt))
            },
        }
    }

    /// A circuit has timed out.
    #[verifier::opaque]
    pub open spec fn close_timed_out(
        self,
        call_id: u16,
        circuit: crate::cmce::pdu::CmceCircuit,
    ) -> CcRun {
        if self.is_private_circuit(call_id, circuit.ts) {
            self
        } else {
            let told = match crate::table::lookup(self.st.cached_setups, call_id) {
                Some(cached) => self.emit(
                    crate::cmce::cc_model::unitdata(
                        DownlinkPdu::DRelease {
                            call_identifier: cached.setup.call_identifier,
                            disconnect_cause: DisconnectCause::ExpiryOfTimer,
                        },
                        None,
                        cached.dest,
                        Layer2Service::Unacknowledged,
                        None,
                        None,
                    ),
                ),
                None => self,
            };
            CcRun {
                st: CcView {
                    cached_setups: crate::table::del(self.st.cached_setups, call_id),
                    restore_prepared: crate::table::del(self.st.restore_prepared, call_id),
                    pending_restore_floors: crate::cmce::cc_model::without_call(
                        self.st.pending_restore_floors,
                        call_id,
                    ),
                    active_calls: crate::table::del(self.st.active_calls, call_id),
                    ..self.st
                },
                ..told
            }.drop_circuit(circuit.ts).signal_close(circuit).free_slot(circuit.ts)
        }
    }

    /// The tasks of the circuit manager, in their order.
    pub open spec fn tasks(self, tasks: Seq<CircuitMgrCmd>, unsent: Seq<u64>) -> CcRun
        decreases tasks.len(),
    {
        if tasks.len() == 0 {
            self
        } else {
            let before = self.tasks(tasks.drop_last(), unsent);
            match tasks.last() {
                CircuitMgrCmd::SendDSetup { call_id, usage, ts } => before.repeat_setup(
                    call_id,
                    usage,
                    ts,
                    unsent,
                ),
                CircuitMgrCmd::SendClose { call_id, circuit } => before.close_timed_out(
                    call_id,
                    circuit,
                ),
            }
        }
    }

    /// What is due at the current slot, before the tasks of the circuit manager.
    pub open spec fn timers(self) -> CcRun {
        let granted = self.due_grants(self.st.pending_grants);
        let queued = granted.due_private_floors(granted.st.pending_private_floors);
        let named = queued.due_restore_floors(queued.st.pending_restore_floors);
        named.expire_each(named.st.active_calls).process_releasing()
    }

    /// With the time of the slot that starts.
    pub open spec fn at(self, now: TdmaTime) -> CcRun {
        CcRun { st: CcView { dltime: now, ..self.st }, ..self }
    }

    /// A timeslot starts: first the decisions of the central SwMI, then what is
    /// due.
    #[verifier::opaque]
    pub open spec fn tick(self, now: TdmaTime, actions: Seq<CallMessage>) -> CcRun {
        self.at(now).swmi_actions(actions).timers()
    }
}

/// The groups of a terminal.
pub open spec fn groups_of(members: Seq<(Membership, bool)>, issi: u32) -> Seq<u32>
    decreases members.len(),
{
    if members.len() == 0 {
        Seq::empty()
    } else {
        let before = groups_of(members.drop_last(), issi);
        if members.last().0.issi == issi {
            before.push(members.last().0.gssi)
        } else {
            before
        }
    }
}

/// The entries of other terminals.
pub open spec fn without_terminal<V>(entries: Seq<(Membership, V)>, issi: u32) -> Seq<
    (Membership, V),
> {
    entries.filter(|entry: (Membership, V)| entry.0.issi != issi)
}

impl CcView {
    /// The traffic channel of a group's call.
    pub open spec fn group_channel(self, gssi: u32) -> Option<AssociatedChannel> {
        match crate::cmce::cc_procedures::call_of_group(self.active_calls, gssi) {
            Some((call_id, call)) => Some(
                AssociatedChannel { call_id, timeslot: call.ts, usage: call.usage },
            ),
            None => None,
        }
    }

    /// On which traffic channel a downlink PDU is sent that has no channel yet.
    /// Short data goes to terminals and groups; other signalling goes to
    /// terminals, but the first answer to a U-SETUP stays on the control
    /// channel.
    pub open spec fn channel_for(self, request: UnitdataReq) -> Option<AssociatedChannel> {
        let address = request.main_address;
        if request.associated_channel is Some || request.stealing_permission
            || request.chan_alloc is Some {
            request.associated_channel
        } else if address.ssi_type == SsiType::Issi {
            if request.pdu is DCallProceeding {
                None
            } else {
                self.preferred_channel(address.ssi)
            }
        } else if address.ssi_type == SsiType::Gssi && request.pdu is DSdsData {
            self.group_channel(address.ssi)
        } else {
            None
        }
    }

    /// A message with the traffic channel on which it is sent.
    pub open spec fn decorated(self, message: CcMessage) -> CcMessage {
        match message {
            CcMessage::Downlink(request) => CcMessage::Downlink(
                UnitdataReq { associated_channel: self.channel_for(request), ..request },
            ),
            other => other,
        }
    }
}

} // verus!
