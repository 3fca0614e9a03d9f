//! What the messages of call control say, element by element.
use crate::cmce::cc_model::{CcRun, CcView, PrivateCallLocal, RemoteCall, SubscriberAction};
use crate::cmce::pdu::{
    AssociatedChannel, CallMessage, CallTimeout, CallTimeoutSetupPhase, CcMessage, ChanAllocReq,
    CircuitModeType, CmceCircuit, CommunicationType, DSetup, DisconnectCause, DownlinkPdu,
    Layer2Service, Membership, SetupRequest, TetraAddress, TransmissionGrant, UplinkPrim,
};
use vstd::prelude::*;

verus! {

/// A message to a terminal or a group goes out on no link of an uplink PDU and on
/// no stolen channel, with everything that it was given; one that is stolen goes
/// out unacknowledged on its traffic channel; one that answers goes out on the
/// link of the uplink PDU.
pub proof fn law_messages_go_out_as_they_are_given(
    pdu: DownlinkPdu,
    channel: Option<ChanAllocReq>,
    to: TetraAddress,
    service: Layer2Service,
    receipt: Option<u64>,
    beside: Option<AssociatedChannel>,
    prim: UplinkPrim,
    ts: u8,
)
    ensures
        crate::cmce::cc_model::unitdata(pdu, channel, to, service, receipt, beside) matches CcMessage::Downlink(
            sent,
        ) && {
            &&& sent.pdu == pdu && sent.main_address == to && sent.layer2service == service
            &&& sent.chan_alloc == channel && sent.receipt == receipt && sent.associated_channel
                == beside
            &&& sent.handle == 0 && sent.endpoint_id == 0 && sent.link_id == 0
            &&& !sent.stealing_permission
        },
        crate::cmce::cc_model::stolen(pdu, to, ts) matches CcMessage::Downlink(sent) && {
            &&& sent.pdu == pdu && sent.main_address == to && sent.stealing_permission
            &&& sent.layer2service == Layer2Service::Unacknowledged
            &&& crate::cmce::floor_laws::is_channel(sent.chan_alloc, None, ts)
            &&& sent.handle == 0 && sent.endpoint_id == 0 && sent.link_id == 0
            &&& sent.receipt is None && sent.associated_channel is None
        },
        crate::cmce::cc_model::reply(prim, pdu, channel, to, service) matches CcMessage::Downlink(
            sent,
        ) && {
            &&& sent.pdu == pdu && sent.main_address == to && sent.layer2service == service
            &&& sent.handle == prim.handle && sent.endpoint_id == prim.endpoint_id && sent.link_id
                == prim.link_id
            &&& sent.chan_alloc == channel && !sent.stealing_permission
            &&& sent.receipt is None && sent.associated_channel is None
        },
{
}

/// What a group is told of a call that one of its terminals sets up: the call lasts
/// five minutes, somebody else speaks, nobody may ask for the floor now, and the
/// service, hook and direction are those that the terminal asked for. Late entry
/// is acknowledged exactly in an acknowledged call.
pub proof fn law_group_is_called_by_its_terminal(
    call_id: u16,
    request: SetupRequest,
    priority: u8,
)
    ensures
        ({
            let setup = crate::cmce::cc_procedures::local_setup(call_id, request, priority);
            let service = request.pdu.basic_service_information;
            &&& setup.call_identifier == call_id && setup.call_priority == priority
            &&& setup.call_time_out == CallTimeout::T5m
            &&& setup.hook_method_selection == request.pdu.hook_method_selection
            &&& setup.simplex_duplex_selection == request.pdu.simplex_duplex_selection
            &&& setup.basic_service_information == service
            &&& setup.transmission_grant == TransmissionGrant::GrantedToOtherUser
            &&& !setup.transmission_request_permission
            &&& setup.calling_party_address_ssi == Some(request.prim.received.ssi)
            &&& setup.notification_indicator == if service.communication_type
                == CommunicationType::P2MpAcked {
                Some(1u64)
            } else {
                Some(0u64)
            }
        }),
{
}

/// What a group is told of a call of the SwMI: it is a plain speech call that lasts
/// five minutes, and somebody speaks exactly if the SwMI names a speaker.
pub proof fn law_group_is_called_by_the_swmi(call_id: u16, remote: RemoteCall)
    ensures
        ({
            let setup = crate::cmce::cc_model::remote_setup(call_id, remote);
            let service = setup.basic_service_information;
            &&& setup.call_identifier == call_id && setup.call_priority == remote.priority
            &&& setup.call_time_out == CallTimeout::T5m
            &&& !setup.hook_method_selection && !setup.simplex_duplex_selection
            &&& service.circuit_mode_type == CircuitModeType::TchS && !service.encryption_flag
                && service.slots_per_frame is None && service.speech_service == Some(0u8)
            &&& service.communication_type == if remote.acknowledged {
                CommunicationType::P2MpAcked
            } else {
                CommunicationType::P2Mp
            }
            &&& setup.notification_indicator == if remote.acknowledged {
                Some(1u64)
            } else {
                Some(0u64)
            }
            &&& setup.transmission_grant == if remote.floor_itsi == 0 {
                TransmissionGrant::NotGranted
            } else {
                TransmissionGrant::GrantedToOtherUser
            }
            &&& !setup.transmission_request_permission
            &&& setup.calling_party_address_ssi == Some(remote.owner_itsi)
        }),
{
}

/// The terminal that sets up a group call is answered twice on its link: first,
/// acknowledged, that the call proceeds, then, unacknowledged, that it is
/// connected for five minutes with the grant and the ownership that it has.
pub proof fn law_setup_is_answered_twice(
    run: CcRun,
    request: SetupRequest,
    call_id: u16,
    ts: u8,
    usage: u8,
    grant: TransmissionGrant,
    ownership: bool,
    priority: u8,
)
    ensures
        ({
            let after = run.connect_setup(
                request,
                call_id,
                ts,
                usage,
                grant,
                ownership,
                priority,
            );
            let n = run.queue.len() as int;
            &&& after.st == run.st && after.queue.len() == n + 2
            &&& after.queue[n] matches CcMessage::Downlink(first) && first.layer2service
                == Layer2Service::Acknowledged && first.chan_alloc is None
            &&& crate::cmce::group_call_laws::proceeds(after.queue[n], request, call_id)
            &&& crate::cmce::group_call_laws::connects(
                after.queue[n + 1],
                request,
                call_id,
                usage,
                ts,
                grant,
                ownership,
                priority,
            )
            &&& after.queue[n + 1] matches CcMessage::Downlink(second) && second.layer2service
                == Layer2Service::Unacknowledged && (second.pdu matches DownlinkPdu::DConnect(
                connect,
            ) && connect.call_time_out == CallTimeout::T5m
                && !connect.transmission_request_permission)
        }),
{
}

/// What the called party of a private call is told: who calls, with which priority,
/// whether to go off hook and whether the call is duplex; the call waits for it
/// for thirty seconds, and it may not speak yet.
pub proof fn law_called_party_is_called(run: CcRun, call_id: u16, call: PrivateCallLocal)
    ensures
        run.private_offer(call_id, call).queue.last() matches CcMessage::Downlink(sent) && {
            &&& sent.main_address == crate::cmce::floor_laws::terminal(call.callee_itsi)
            &&& sent.layer2service == Layer2Service::Acknowledged && sent.chan_alloc is None
            &&& sent.pdu matches DownlinkPdu::DSetup(setup) && {
                &&& setup.call_identifier == call_id && setup.call_priority == call.priority
                &&& setup.call_time_out == CallTimeout::T30s
                &&& setup.hook_method_selection == call.hook
                &&& setup.simplex_duplex_selection == call.duplex
                &&& setup.basic_service_information.communication_type == CommunicationType::P2p
                &&& setup.basic_service_information.circuit_mode_type == CircuitModeType::TchS
                &&& !setup.basic_service_information.encryption_flag
                &&& setup.transmission_grant == TransmissionGrant::NotGranted
                &&& !setup.transmission_request_permission
                &&& setup.notification_indicator is None
                &&& setup.calling_party_address_ssi == Some(call.caller_itsi)
            }
        },
{
}

/// The parties of a private call are connected for five minutes on their circuits:
/// the caller as its owner, with the hook, direction and priority of the call; the
/// called party by an acknowledgement.
pub proof fn law_parties_are_connected(
    run: CcRun,
    call_id: u16,
    call: PrivateCallLocal,
    circuit: CmceCircuit,
    floor: u32,
)
    requires
        call.caller_itsi != call.callee_itsi,
    ensures
        ({
            let caller = run.private_connect(call_id, call, call.caller_itsi, circuit, floor);
            let callee = run.private_connect(call_id, call, call.callee_itsi, circuit, floor);
            &&& caller.queue.last() matches CcMessage::Downlink(sent) && {
                &&& sent.layer2service == Layer2Service::Acknowledged
                &&& sent.pdu matches DownlinkPdu::DConnect(connect) && {
                    &&& connect.call_identifier == call_id
                    &&& connect.call_time_out == CallTimeout::T5m
                    &&& connect.hook_method_selection == call.hook
                    &&& connect.simplex_duplex_selection == call.duplex
                    &&& !connect.transmission_request_permission
                    &&& connect.call_ownership
                    &&& connect.call_priority == Some(call.priority as u64)
                }
            }
            &&& callee.queue.last() matches CcMessage::Downlink(sent) && {
                &&& sent.layer2service == Layer2Service::Acknowledged
                &&& sent.pdu matches DownlinkPdu::DConnectAcknowledge {
                    call_identifier,
                    call_time_out,
                    transmission_request_permission,
                    ..
                } && call_identifier == call_id && call_time_out == CallTimeout::T5m
                    && !transmission_request_permission
            }
        }),
{
}

/// What is answered without acknowledgement, on the link of the terminal: that a
/// call cannot be served, under no identifier, and that the floor has to wait. A
/// restoration that fails is told with acknowledgement.
pub proof fn law_refusals_are_answered(
    run: CcRun,
    prim: UplinkPrim,
    call_id: u16,
    cause: DisconnectCause,
    itsi: u32,
)
    ensures
        run.reject_setup(prim, cause).queue.last() matches CcMessage::Downlink(sent)
            && sent.layer2service == Layer2Service::Unacknowledged && sent.main_address
            == prim.received && sent.handle == prim.handle && sent.pdu == (DownlinkPdu::DRelease {
            call_identifier: 0,
            disconnect_cause: cause,
        }),
        run.tx_wait(prim, call_id).queue.last() matches CcMessage::Downlink(sent)
            && sent.layer2service == Layer2Service::Unacknowledged && sent.main_address
            == prim.received && sent.handle == prim.handle && sent.pdu == (DownlinkPdu::DTxWait {
            call_identifier: call_id,
            transmission_request_permission: false,
        }),
        run.restore_failure(itsi).queue.last() matches CcMessage::Downlink(sent)
            && sent.layer2service == Layer2Service::Acknowledged && sent.pdu
            == DownlinkPdu::RestoreFailure && sent.main_address
            == crate::cmce::floor_laws::terminal(itsi),
{
}

/// A call is announced on each channel that a terminal would leave for it, once and
/// beside the traffic there, with the channel of the call.
pub proof fn law_call_is_announced_on_other_channels(
    run: CcRun,
    setup: DSetup,
    to: TetraAddress,
    usage: u8,
    ts: u8,
    channels: Seq<AssociatedChannel>,
    i: int,
)
    requires
        0 <= i < channels.len(),
    ensures
        ({
            let after = run.announce_on(setup, to, usage, ts, channels);
            &&& after.queue.len() == run.queue.len() + channels.len()
            &&& after.queue[run.queue.len() + i] matches CcMessage::Downlink(sent) && {
                &&& sent.pdu == DownlinkPdu::DSetup(setup) && sent.main_address == to
                &&& sent.associated_channel == Some(channels[i])
                &&& crate::cmce::floor_laws::is_channel(sent.chan_alloc, Some(usage), ts)
                &&& sent.layer2service == Layer2Service::Unacknowledged && sent.receipt is None
            }
        }),
    decreases channels.len(),
{
    let rest = channels.drop_last();
    if i < rest.len() {
        law_call_is_announced_on_other_channels(run, setup, to, usage, ts, rest, i);
    } else if rest.len() > 0 {
        law_call_is_announced_on_other_channels(run, setup, to, usage, ts, rest, 0);
    } else {
        assert(run.announce_on(setup, to, usage, ts, rest) == run);
    }
}

/// What a restored call, an alert and a call that goes on are told with: the timer
/// of the call starts anew where the call goes on or is restored.
pub proof fn law_timer_of_a_call_starts_anew(run: CcRun, call_id: u16, itsi: u32)
    ensures
        run.party_circuit(call_id, itsi) matches Some(circuit) ==> {
            &&& run.private_keepalive(call_id, itsi).queue.last() matches CcMessage::Downlink(sent)
                && sent.main_address == crate::cmce::floor_laws::terminal(itsi)
                && crate::cmce::floor_laws::is_channel(sent.chan_alloc, None, circuit.ts)
                && sent.pdu == (DownlinkPdu::DInfo {
                call_identifier: call_id,
                reset_call_time_out_timer: true,
                poll_request: false,
            })
        },
        crate::table::lookup(run.st.private_calls, call_id) matches Some(call) ==> {
            &&& run.private_alerted(call_id).queue.last() matches CcMessage::Downlink(sent)
                && sent.main_address == crate::cmce::floor_laws::terminal(call.caller_itsi)
                && sent.layer2service == Layer2Service::Acknowledged && sent.pdu
                == (DownlinkPdu::DAlert {
                call_identifier: call_id,
                call_time_out_set_up_phase: CallTimeoutSetupPhase::T30s,
                simplex_duplex_selection: call.duplex,
                call_queued: false,
            })
        },
{
}

/// A terminal that restores a group call is told with acknowledgement, on the
/// channel of the call, that the timer of the call starts anew and that it may not
/// ask for the floor now; who speaks it is told one multiframe later.
pub proof fn law_restored_call_is_confirmed(
    run: CcRun,
    prim: UplinkPrim,
    call_id: u16,
    other_party: Option<u32>,
)
    requires
        crate::table::contains(run.st.active_calls, call_id),
        crate::table::contains(
            run.st.members,
            Membership {
                issi: prim.received.ssi,
                gssi: crate::table::lookup(run.st.active_calls, call_id)->0.dest_gssi,
            },
        ),
    ensures
        ({
            let after = run.u_call_restore(prim, call_id, other_party);
            let call = crate::table::lookup(run.st.active_calls, call_id)->0;
            let itsi = prim.received.ssi;
            &&& after.queue.last() matches CcMessage::Downlink(sent) && {
                &&& sent.main_address == crate::cmce::floor_laws::terminal(itsi)
                &&& sent.layer2service == Layer2Service::Acknowledged
                &&& crate::cmce::floor_laws::is_channel(sent.chan_alloc, Some(call.usage), call.ts)
                &&& sent.pdu matches DownlinkPdu::DCallRestore {
                    call_identifier,
                    transmission_request_permission,
                    reset_call_time_out_timer,
                    ..
                } && call_identifier == call_id && !transmission_request_permission
                    && reset_call_time_out_timer
            }
            &&& call.tx_active ==> (crate::table::lookup(
                after.st.pending_restore_floors,
                crate::cmce::pdu::CallParty { call_id, issi: itsi },
            ) matches Some(timer) && timer.itsi == call.source_issi && timer.due
                == run.st.dltime.plus(72))
            &&& !call.tx_active ==> after.st.pending_restore_floors
                == run.st.pending_restore_floors
        }),
{
    reveal(CcRun::u_call_restore);
    reveal(CcRun::record_uplink);
    let call = crate::table::lookup(run.st.active_calls, call_id)->0;
    let party = crate::cmce::pdu::CallParty { call_id, issi: prim.received.ssi };
    crate::table::law_lookup_after_put(
        run.st.pending_restore_floors,
        party,
        crate::cmce::cc_model::FloorTimer {
            itsi: call.source_issi,
            due: run.st.dltime.plus(72),
        },
        party,
    );
}

/// A private call that comes back with a party that moved here is connected, has
/// the floor that the SwMI names, and has that party in this cell. One that is not
/// known here is otherwise as the SwMI describes it; one that is known stays as it
/// was.
pub proof fn law_restored_private_call_is_held(
    run: CcRun,
    call_id: u16,
    call: PrivateCallLocal,
    mask: u8,
)
    requires
        crate::table::lookup(run.st.private_calls, call_id) matches Some(existing)
            ==> existing.caller_itsi == call.caller_itsi && existing.callee_itsi
            == call.callee_itsi && existing.duplex == call.duplex,
    ensures
        ({
            let after = run.swmi_action(
                CallMessage::PrivateCallRestore {
                    call_id: call_id as u64,
                    caller_itsi: call.caller_itsi as u64,
                    callee_itsi: call.callee_itsi as u64,
                    hook: call.hook,
                    duplex: call.duplex,
                    request_to_transmit: call.request_to_transmit,
                    priority: call.priority,
                    initial_floor_itsi: call.floor_itsi as u64,
                    endpoint_mask: mask,
                },
            );
            crate::table::lookup(after.st.private_calls, call_id) == match crate::table::lookup(
                run.st.private_calls,
                call_id,
            ) {
                None => Some(PrivateCallLocal { connected: true, local_mask: mask, ..call }),
                Some(existing) => Some(
                    PrivateCallLocal {
                        connected: true,
                        floor_itsi: call.floor_itsi,
                        local_mask: existing.local_mask | mask,
                        ..existing
                    },
                ),
            }
        }),
{
    reveal(CcRun::swmi_action);
    reveal(CcRun::private_restore);
    let restored = match crate::table::lookup(run.st.private_calls, call_id) {
        None => PrivateCallLocal { connected: true, local_mask: mask, ..call },
        Some(existing) => PrivateCallLocal {
            connected: true,
            floor_itsi: call.floor_itsi,
            local_mask: existing.local_mask | mask,
            ..existing
        },
    };
    let held = run.hold_private(call_id, restored);
    crate::table::law_lookup_after_put(run.st.private_calls, call_id, restored, call_id);
    lemma_seizing_keeps_the_call(held, call_id, restored, mask);
    assert(mask | mask == mask) by (bit_vector);
    if let Some(existing) = crate::table::lookup(run.st.private_calls, call_id) {
        let before = existing.local_mask;
        assert((before | mask) | mask == before | mask) by (bit_vector);
    }
    assert forall|at: CcRun, issi: u32, id: u16|
        (#[trigger] at.record_uplink(issi, id)).st.private_calls == at.st.private_calls by {
        reveal(CcRun::record_uplink);
    }
}

proof fn lemma_seizing_keeps_the_call(
    run: CcRun,
    call_id: u16,
    call: PrivateCallLocal,
    mask: u8,
)
    requires
        crate::table::lookup(run.st.private_calls, call_id) == Some(call),
    ensures
        ({
            let (seized, accepted) = run.seize_private(
                call_id,
                call.caller_itsi,
                call.callee_itsi,
                mask,
                call.duplex,
            );
            crate::table::lookup(seized.st.private_calls, call_id) == if accepted {
                Some(PrivateCallLocal { local_mask: call.local_mask | mask, ..call })
            } else {
                Some(call)
            }
        }),
{
    reveal(CcRun::seize_private);
    let masked = PrivateCallLocal { local_mask: call.local_mask | mask, ..call };
    let with_mask = crate::table::put(run.st.private_calls, call_id, masked);
    crate::table::law_lookup_after_put(run.st.private_calls, call_id, masked, call_id);
    crate::table::law_lookup_after_put(with_mask, call_id, call, call_id);
}

/// A terminal that leaves the cell leaves nothing behind: neither the classes of
/// its groups, nor whether it scans, nor where it was heard.
pub proof fn law_leaving_terminal_is_forgotten(run: CcRun, issi: u32, gssi: u32)
    ensures
        ({
            let after = run.subscriber_update(
                SubscriberAction::Deregister,
                issi,
                Seq::empty(),
                Seq::empty(),
                None,
            );
            &&& crate::table::lookup(after.st.class_of_usage, Membership { issi, gssi }) is None
            &&& crate::table::lookup(after.st.scanning, issi) is None
            &&& crate::table::lookup(after.st.candidates, issi) is None
        }),
{
    reveal(CcRun::subscriber_update);
    let groups = crate::cmce::cc_events::groups_of(run.st.members, issi);
    let removed = CcRun {
        st: CcView {
            known: crate::table::del(run.st.known, issi),
            members: crate::cmce::cc_events::without_terminal(run.st.members, issi),
            ..run.st
        },
        ..run
    };
    let dropped = removed.drop_unlistened_groups(groups);
    crate::table::law_lookup_after_del(dropped.st.scanning, issi, issi);
    crate::table::law_lookup_after_del(dropped.st.candidates, issi, issi);
    crate::table::law_lookup_after_key_filter(
        dropped.st.class_of_usage,
        |entry: (Membership, u8)| entry.0.issi != issi,
        Membership { issi, gssi },
    );
}

/// A terminal that registers scans groups until it says otherwise, and what it says
/// of scanning is taken at once.
pub proof fn law_scanning_is_noted(run: CcRun, issi: u32, enabled: bool)
    ensures
        crate::table::lookup(
            run.subscriber_update(
                SubscriberAction::ScanningState,
                issi,
                Seq::empty(),
                Seq::empty(),
                Some(enabled),
            ).st.scanning,
            issi,
        ) == Some(enabled),
        !crate::table::contains(run.st.scanning, issi) ==> crate::table::lookup(
            run.subscriber_update(
                SubscriberAction::Register,
                issi,
                Seq::empty(),
                Seq::empty(),
                None,
            ).st.scanning,
            issi,
        ) == Some(true),
        crate::table::contains(
            run.subscriber_update(
                SubscriberAction::Register,
                issi,
                Seq::empty(),
                Seq::empty(),
                None,
            ).st.known,
            issi,
        ),
{
    reveal(CcRun::subscriber_update);
    crate::table::law_lookup_after_put(run.st.scanning, issi, enabled, issi);
    crate::table::law_lookup_after_put(run.st.scanning, issi, true, issi);
    crate::table::law_lookup_after_put(run.st.known, issi, true, issi);
}

/// A terminal that joins groups has in each of them the class of usage that it is
/// told with; where none is told it is the lowest.
pub proof fn law_joined_groups_have_their_class(
    run: CcRun,
    issi: u32,
    groups: Seq<u32>,
    classes: Seq<u8>,
    i: int,
)
    requires
        0 <= i < groups.len(),
        forall|j: int, k: int| 0 <= j < k < groups.len() ==> groups[j] != groups[k],
    ensures
        crate::table::lookup(
            run.affiliate_each(issi, groups, classes).0.st.class_of_usage,
            Membership { issi, gssi: groups[i] },
        ) == if i < classes.len() {
            Some(classes[i])
        } else {
            Some(0)
        },
    decreases groups.len(),
{
    let rest = groups.drop_last();
    let before = run.affiliate_each(issi, rest, classes).0;
    let last = Membership { issi, gssi: groups.last() };
    let asked = Membership { issi, gssi: groups[i] };
    let class = if rest.len() < classes.len() {
        classes[rest.len() as int]
    } else {
        0
    };
    crate::table::law_lookup_after_put(before.st.class_of_usage, last, class, asked);
    if i < rest.len() {
        assert(forall|j: int| 0 <= j < rest.len() ==> #[trigger] rest[j] == groups[j]);
        law_joined_groups_have_their_class(run, issi, rest, classes, i);
        assert(groups[i] != groups[groups.len() - 1]);
    }
}

// ---------------------------------------------------------------------------
// The messages of the SwMI
// ---------------------------------------------------------------------------

/// The identifier of the call that a message of the SwMI changes.
pub open spec fn identifier_of(message: CallMessage) -> Option<u64> {
    match message {
        CallMessage::GroupCallStart { call_id, .. }
        | CallMessage::GroupCallPriorityChanged { call_id, .. }
        | CallMessage::FloorPreempted { call_id, .. }
        | CallMessage::FloorGranted { call_id, .. }
        | CallMessage::FloorReleased { call_id, .. }
        | CallMessage::CallReject { call_id, .. }
        | CallMessage::PrivateCallProceeding { call_id, .. }
        | CallMessage::PrivateCallOffer { call_id, .. }
        | CallMessage::PrivateCallAlert { call_id, .. }
        | CallMessage::PrivateCallReserve { call_id, .. }
        | CallMessage::PrivateCallConnected { call_id, .. }
        | CallMessage::PrivateCallRestore { call_id, .. }
        | CallMessage::PrivateCallEndpointMoved { call_id, .. }
        | CallMessage::PrivateCallRelease { call_id, .. }
        | CallMessage::PrivateFloorGranted { call_id, .. }
        | CallMessage::PrivateFloorReleased { call_id, .. }
        | CallMessage::PrivateCallKeepalive { call_id, .. } => Some(call_id),
        _ => None,
    }
}

/// A message about a call whose identifier does not fit the air interface changes
/// nothing.
pub proof fn law_identifiers_that_do_not_fit(run: CcRun, message: CallMessage)
    requires
        identifier_of(message) matches Some(call_id) && call_id > 65535,
    ensures
        run.swmi_action(message) == run,
{
    reveal(CcRun::swmi_action);
}

/// Each message about a call starts its procedure for that call and the terminal
/// that it names. A refusal concerns a call that has no identifier yet; others are
/// no refusals.
pub proof fn law_messages_start_their_procedure(run: CcRun, message: CallMessage)
    requires
        identifier_of(message) matches Some(call_id) && call_id <= 65535,
    ensures
        match message {
            CallMessage::CallReject { call_id, itsi, cause } => run.swmi_action(message) == if call_id
                == 0 {
                run.call_rejected(itsi as u32, cause)
            } else {
                run
            },
            CallMessage::PrivateCallEndpointMoved { call_id, itsi } => itsi <= 0xffff_ffff
                ==> run.swmi_action(message) == run.detach_party(call_id as u16, itsi as u32),
            CallMessage::PrivateFloorGranted { call_id, itsi } => run.swmi_action(message)
                == run.private_floor_granted(call_id as u16, itsi as u32),
            CallMessage::PrivateFloorReleased { call_id, itsi } => run.swmi_action(message)
                == run.private_floor_released(call_id as u16),
            CallMessage::PrivateCallKeepalive { call_id, itsi } => run.swmi_action(message)
                == run.private_keepalive(call_id as u16, itsi as u32),
            CallMessage::PrivateCallAlert { call_id, callee_itsi } => run.swmi_action(message)
                == run.private_alerted(call_id as u16),
            _ => true,
        },
{
    reveal(CcRun::swmi_action);
}

} // verus!
