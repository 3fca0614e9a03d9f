//! How group calls begin, are joined and end, stated of what comes in and what is
//! handed on.
use crate::cmce::cc_model::{
    ActiveCall, CallOrigin, CcRun, CcView, CentralSetup, RemoteCall, SubscriberAction,
};
use crate::cmce::circuit::TimeslotOwner;
use crate::cmce::pdu::{
    AssociatedChannel, CallControl, CallMessage, CallTimeoutSetupPhase, CcMessage,
    CommunicationType, DSetup, DisconnectCause, DownlinkPdu, Membership, SetupRequest, SwmiLink,
    TetraAddress, TetraEntity, TransmissionGrant, UplinkPrim,
};
use vstd::prelude::*;

verus! {

// ---------------------------------------------------------------------------
// Messages
// ---------------------------------------------------------------------------

/// Whether a message connects the terminal that asked for a call, on its link, to
/// the call on a channel.
pub open spec fn connects(
    message: CcMessage,
    request: SetupRequest,
    call_id: u16,
    usage: u8,
    ts: u8,
    grant: TransmissionGrant,
    owner: bool,
    priority: u8,
) -> bool {
    message matches CcMessage::Downlink(sent) && {
        &&& sent.main_address == request.prim.received
        &&& sent.handle == request.prim.handle
        &&& sent.endpoint_id == request.prim.endpoint_id
        &&& sent.link_id == request.prim.link_id
        &&& crate::cmce::floor_laws::is_channel(sent.chan_alloc, Some(usage), ts)
        &&& sent.pdu matches DownlinkPdu::DConnect(connect) && {
            &&& connect.call_identifier == call_id
            &&& connect.transmission_grant == grant
            &&& connect.call_ownership == owner
            &&& connect.call_priority == Some(priority as u64)
            &&& connect.hook_method_selection == request.pdu.hook_method_selection
            &&& connect.simplex_duplex_selection == request.pdu.simplex_duplex_selection
        }
    }
}

/// Whether a message tells the terminal that asked for a call that the call
/// proceeds.
pub open spec fn proceeds(message: CcMessage, request: SetupRequest, call_id: u16) -> bool {
    message matches CcMessage::Downlink(sent) && {
        &&& sent.main_address == request.prim.received
        &&& sent.handle == request.prim.handle
        &&& sent.endpoint_id == request.prim.endpoint_id
        &&& sent.link_id == request.prim.link_id
        &&& sent.pdu matches DownlinkPdu::DCallProceeding {
            call_identifier,
            call_time_out_set_up_phase,
            hook_method_selection,
            simplex_duplex_selection,
        } && {
            &&& call_identifier == call_id
            &&& hook_method_selection == request.pdu.hook_method_selection
            &&& simplex_duplex_selection == request.pdu.simplex_duplex_selection
            &&& request.pdu.basic_service_information.communication_type == CommunicationType::P2p
                ==> call_time_out_set_up_phase == CallTimeoutSetupPhase::T30s
            &&& request.pdu.basic_service_information.communication_type != CommunicationType::P2p
                ==> call_time_out_set_up_phase == CallTimeoutSetupPhase::T10s
        }
    }
}

/// Whether a message calls the members of a group to a call on a channel.
pub open spec fn calls_group(
    message: CcMessage,
    gssi: u32,
    call_id: u16,
    caller: u32,
    priority: u8,
    usage: u8,
    ts: u8,
) -> bool {
    message matches CcMessage::Downlink(sent) && {
        &&& sent.main_address == crate::cmce::floor_laws::group(gssi)
        &&& !sent.stealing_permission
        &&& crate::cmce::floor_laws::is_channel(sent.chan_alloc, Some(usage), ts)
        &&& sent.pdu matches DownlinkPdu::DSetup(setup) && {
            &&& setup.call_identifier == call_id
            &&& setup.calling_party_address_ssi == Some(caller)
            &&& setup.call_priority == priority
            &&& setup.transmission_grant != TransmissionGrant::Granted
        }
    }
}

/// Whether a message releases a call for those at an address.
pub open spec fn releases(
    message: CcMessage,
    to: TetraAddress,
    call_id: u16,
    cause: DisconnectCause,
) -> bool {
    message matches CcMessage::Downlink(sent) && sent.main_address == to && sent.pdu
        == (DownlinkPdu::DRelease { call_identifier: call_id, disconnect_cause: cause })
}

// ---------------------------------------------------------------------------
// What announcing and tracking leave alone
// ---------------------------------------------------------------------------

proof fn lemma_announced(
    run: CcRun,
    setup: DSetup,
    dest: TetraAddress,
    usage: u8,
    ts: u8,
    channels: Seq<AssociatedChannel>,
)
    ensures
        ({
            let after = run.announce_on(setup, dest, usage, ts, channels);
            &&& after == (CcRun { queue: after.queue, ..run })
            &&& crate::cmce::floor_laws::extends(run.queue, after.queue)
        }),
    decreases channels.len(),
{
    if channels.len() > 0 {
        lemma_announced(run, setup, dest, usage, ts, channels.drop_last());
    }
}

proof fn lemma_tracked(run: CcRun, call_id: u16)
    ensures
        run.track_listeners(call_id) == (CcRun {
            st: CcView { candidates: run.track_listeners(call_id).st.candidates, ..run.st },
            ..run
        }),
{
    reveal(CcRun::track_listeners);
    if let Some(call) = crate::table::lookup(run.st.active_calls, call_id) {
        lemma_tracked_each(run, run.st.known, call_id, call);
    }
}

proof fn lemma_tracked_each(
    run: CcRun,
    terminals: Seq<(u32, bool)>,
    call_id: u16,
    call: ActiveCall,
)
    ensures
        run.track_each(terminals, call_id, call) == (CcRun {
            st: CcView {
                candidates: run.track_each(terminals, call_id, call).st.candidates,
                ..run.st
            },
            ..run
        }),
    decreases terminals.len(),
{
    if terminals.len() > 0 {
        lemma_tracked_each(run, terminals.drop_last(), call_id, call);
    }
}

// ---------------------------------------------------------------------------
// Set-up by a terminal
// ---------------------------------------------------------------------------

/// Whether a terminal asks for a group call that the station can serve.
pub open spec fn asks_for_group_call(run: CcRun, request: SetupRequest, gssi: u32) -> bool {
    &&& request.pdu.basic_service_information.communication_type != CommunicationType::P2p
    &&& request.pdu.area_selection <= 1
    &&& !request.pdu.hook_method_selection && !request.pdu.simplex_duplex_selection
    &&& request.pdu.called_party_ssi == Some(gssi)
    &&& exists|i: int|
        0 <= i < run.st.members.len() && (#[trigger] run.st.members[i]).0.gssi == gssi
}

/// Whether a group call has been opened for the terminal that asked for it.
pub open spec fn is_opened(
    run: CcRun,
    after: CcRun,
    request: SetupRequest,
    gssi: u32,
    central: Option<CentralSetup>,
    ts: u8,
) -> bool {
    let caller = request.prim.received;
    let call_id = match central {
        Some(decision) => decision.call_id,
        None => run.st.circuits.next_call_id,
    };
    let priority = match central {
        Some(decision) => decision.priority,
        None => request.pdu.call_priority,
    };
    // Zero stands for nobody; a terminal that the station serves alone gets the
    // floor of its own call.
    let speaker = match central {
        Some(decision) => decision.floor_itsi,
        None => caller.ssi,
    };
    let grant = if speaker == caller.ssi {
        TransmissionGrant::Granted
    } else if speaker == 0 {
        TransmissionGrant::NotGranted
    } else {
        TransmissionGrant::GrantedToOtherUser
    };
    let n = run.queue.len() as int;
    let usage = run.st.circuits.next_usage;
    &&& crate::cmce::floor_laws::extends(run.queue, after.queue)
    &&& n + 4 <= after.queue.len()
    &&& after.queue[n] matches CcMessage::Control(TetraEntity::Umac, CallControl::Open(circuit))
    &&& (after.queue[n]->Control_1->Open_0).ts == ts
    &&& (after.queue[n]->Control_1->Open_0).call_id == call_id
    &&& (after.queue[n]->Control_1->Open_0).usage == usage
    &&& (after.queue[n]->Control_1->Open_0).comm_type
        == request.pdu.basic_service_information.communication_type
    &&& proceeds(after.queue[n + 1], request, call_id)
    &&& connects(
        after.queue[n + 2],
        request,
        call_id,
        usage,
        ts,
        grant,
        speaker == caller.ssi,
        priority,
    )
    &&& calls_group(after.queue[n + 3], gssi, call_id, caller.ssi, priority, usage, ts)
    &&& crate::cmce::floor_laws::call_of(after, call_id) matches Some(call)
    &&& (crate::cmce::floor_laws::call_of(after, call_id)->0).dest_gssi == gssi
    &&& (crate::cmce::floor_laws::call_of(after, call_id)->0).ts == ts
    &&& (crate::cmce::floor_laws::call_of(after, call_id)->0).usage == usage
    &&& (crate::cmce::floor_laws::call_of(after, call_id)->0).source_issi == speaker
    &&& (crate::cmce::floor_laws::call_of(after, call_id)->0).tx_active == (speaker == caller.ssi
        || speaker != 0)
    &&& (crate::cmce::floor_laws::call_of(after, call_id)->0).hangtime_start is None
    &&& (crate::cmce::floor_laws::call_of(after, call_id)->0).origin is Local <==> central is None
    &&& crate::table::lookup(after.st.cached_setups, call_id) is Some
    &&& (crate::table::lookup(after.st.cached_setups, call_id)->0).dest
        == crate::cmce::floor_laws::group(gssi)
    &&& crate::cmce::floor_laws::other_calls_stay(run, after, call_id)
    &&& after.slots.owner(ts) == Some(TimeslotOwner::Cmce)
    // The SwMI and Brew are told who speaks, each of its own calls.
    &&& central is Some && speaker == caller.ssi ==> after.queue.last() == CcMessage::Control(
        TetraEntity::Swmi,
        CallControl::FloorGranted {
            call_id,
            source_issi: caller.ssi,
            dest_gssi: gssi,
            ts,
        },
    )
    &&& central is None && crate::cmce::cc_model::brew_carries(run.brew, gssi)
        ==> after.queue.last() == CcMessage::Control(
        TetraEntity::Brew,
        CallControl::FloorGranted {
            call_id,
            source_issi: caller.ssi,
            dest_gssi: gssi,
            ts,
        },
    )
}

proof fn lemma_opened(
    run: CcRun,
    request: SetupRequest,
    gssi: u32,
    central: Option<CentralSetup>,
    ts: u8,
)
    requires
        run.slots.lowest_free() == Some(ts),
    ensures
        is_opened(run, run.open_group_call(request, gssi, central), request, gssi, central, ts),
{
    reveal(CcRun::open_group_call);
    let after = run.open_group_call(request, gssi, central);
    let comm_type = request.pdu.basic_service_information.communication_type;
    let caller = request.prim.received;
    let central_id = match central {
        Some(decision) => Some(decision.call_id),
        None => None,
    };
    let priority = match central {
        Some(decision) => decision.priority,
        None => request.pdu.call_priority,
    };
    let caller_has_floor = match central {
        Some(decision) => decision.floor_itsi == caller.ssi,
        None => true,
    };
    let other_has_floor = match central {
        Some(decision) => decision.floor_itsi != 0 && decision.floor_itsi != caller.ssi,
        None => false,
    };
    let circuit = run.st.circuits.circuit(ts, comm_type, central_id, false);
    let call_id = circuit.call_id;
    let dest = TetraAddress::gssi(gssi);
    let setup = crate::cmce::cc_procedures::local_setup(call_id, request, priority);
    let cached = run.open_circuit(ts, comm_type, central_id, false).connect_setup(
        request,
        call_id,
        ts,
        circuit.usage,
        if caller_has_floor {
            TransmissionGrant::Granted
        } else if other_has_floor {
            TransmissionGrant::GrantedToOtherUser
        } else {
            TransmissionGrant::NotGranted
        },
        caller_has_floor,
        priority,
    ).cache_setup(call_id, setup, dest);
    let sent = cached.send_setup(setup, dest, circuit.usage, ts, None);
    let channels = cached.st.announcement_channels(gssi);
    let announced = sent.announce_on(setup, dest, circuit.usage, ts, channels);
    lemma_announced(sent, setup, dest, circuit.usage, ts, channels);
    let call = ActiveCall {
        origin: if central is Some {
            CallOrigin::Swmi
        } else {
            CallOrigin::Local { caller }
        },
        dest_gssi: gssi,
        source_issi: match central {
            Some(decision) => decision.floor_itsi,
            None => caller.ssi,
        },
        ts,
        usage: circuit.usage,
        priority,
        acknowledged: comm_type == CommunicationType::P2MpAcked,
        tx_active: caller_has_floor || other_has_floor,
        hangtime_start: None,
        brew_uuid: None,
    };
    let held = announced.hold_call(call_id, call);
    crate::cmce::floor_laws::lemma_held(announced, call_id, call);
    lemma_tracked(held, call_id);
    let noted_all = held.track_listeners(call_id);
    crate::table::law_lookup_after_put(
        run.st.cached_setups,
        call_id,
        crate::cmce::cc_model::CachedSetup { setup, dest, receipt: None },
        call_id,
    );
    let n = run.queue.len() as int;
    assert(after.st == noted_all.st && after.slots == noted_all.slots);
    assert(crate::cmce::floor_laws::extends(noted_all.queue, after.queue));
    assert(noted_all.queue == announced.queue);
    assert(sent.queue.len() == n + 4);
    assert(sent.queue[n] == CcMessage::Control(TetraEntity::Umac, CallControl::Open(circuit)));
    assert(after.queue[n] == sent.queue[n]);
    assert(after.queue[n + 1] == sent.queue[n + 1]);
    assert(after.queue[n + 2] == sent.queue[n + 2]);
    assert(after.queue[n + 3] == sent.queue[n + 3]);
    assert(crate::cmce::floor_laws::extends(run.queue, after.queue)) by {
        assert forall|i: int| 0 <= i < n implies #[trigger] after.queue[i] == run.queue[i] by {
            assert(sent.queue[i] == run.queue[i]);
            assert(announced.queue[i] == sent.queue[i]);
        }
    }
    assert(crate::cmce::floor_laws::call_of(after, call_id) == Some(call));
}

/// A terminal that asks for a group call where the station decides alone, no call
/// of the group is here and a timeslot is free, gets its call: the MAC opens the
/// circuit, the terminal is told that its call proceeds and is connected with the
/// floor on the channel of the call, and the group is called there in the name of
/// the terminal. The terminal is the speaker, and the timeslot is taken.
pub proof fn law_local_call_is_set_up(run: CcRun, request: SetupRequest, gssi: u32, ts: u8)
    requires
        !(run.swmi is Online),
        asks_for_group_call(run, request, gssi),
        forall|i: int|
            0 <= i < run.st.active_calls.len() ==> (
            #[trigger] run.st.active_calls[i]).1.dest_gssi != gssi,
        !crate::table::contains(
            run.st.central_setups,
            Membership { issi: request.prim.received.ssi, gssi },
        ),
        2 <= ts <= 4,
        run.slots.owner(ts) is None,
        forall|lower: u8| 2 <= lower < ts ==> #[trigger] run.slots.owner(lower) is Some,
    ensures
        is_opened(run, run.u_setup(request), request, gssi, None, ts),
{
    reveal(CcRun::u_setup);
    lemma_no_call(run.st.active_calls, gssi);
    let key = Membership { issi: request.prim.received.ssi, gssi };
    let taken = CcRun {
        st: CcView {
            central_setups: crate::table::del(run.st.central_setups, key),
            ..run.st
        },
        ..run
    };
    assert(run.slots.owner(2) is None || ts > 2) by {
        if ts > 2 {
            assert(run.slots.owner(2u8) is Some);
        }
    }
    if ts > 2 {
        assert(run.slots.owner(2u8) is Some);
    }
    if ts > 3 {
        assert(run.slots.owner(3u8) is Some);
    }
    lemma_opened(taken, request, gssi, None, ts);
    assert(run.u_setup(request) == taken.open_group_call(request, gssi, None));
}

proof fn lemma_no_call(calls: Seq<(u16, ActiveCall)>, gssi: u32)
    requires
        forall|i: int| 0 <= i < calls.len() ==> (#[trigger] calls[i]).1.dest_gssi != gssi,
    ensures
        crate::cmce::cc_procedures::call_of_group(calls, gssi) is None,
    decreases calls.len(),
{
    if calls.len() > 0 {
        let rest = calls.drop_last();
        assert(forall|i: int| 0 <= i < rest.len() ==> #[trigger] rest[i] == calls[i]);
        assert(calls[calls.len() - 1] == calls.last());
        lemma_no_call(rest, gssi);
    }
}

proof fn lemma_call_of_group(calls: Seq<(u16, ActiveCall)>, gssi: u32)
    ensures
        crate::cmce::cc_procedures::call_of_group(calls, gssi) matches Some(found)
            ==> found.1.dest_gssi == gssi && calls.contains(found),
    decreases calls.len(),
{
    if calls.len() > 0 {
        let rest = calls.drop_last();
        lemma_call_of_group(rest, gssi);
        assert(calls[calls.len() - 1] == calls.last());
        if let Some(found) = crate::cmce::cc_procedures::call_of_group(rest, gssi) {
            if calls.last().1.dest_gssi != gssi {
                let i = choose|i: int| 0 <= i < rest.len() && rest[i] == found;
                assert(calls[i] == found);
            }
        }
    }
}

/// A terminal that asks for a group call that is here already, where the station
/// decides alone, is connected to that very call on its channel: with the floor
/// where nobody else speaks, and as a listener where somebody does.
pub proof fn law_joining_terminal_gets_the_channel(run: CcRun, request: SetupRequest, gssi: u32)
    requires
        !(run.swmi is Online),
        asks_for_group_call(run, request, gssi),
        crate::cmce::cc_procedures::call_of_group(run.st.active_calls, gssi) is Some,
        !crate::table::contains(
            run.st.central_setups,
            Membership { issi: request.prim.received.ssi, gssi },
        ),
    ensures
        ({
            let after = run.u_setup(request);
            let (call_id, call) = crate::cmce::cc_procedures::call_of_group(
                run.st.active_calls,
                gssi,
            )->0;
            let n = run.queue.len() as int;
            let free = !call.tx_active || call.source_issi == 0 || call.source_issi
                == request.prim.received.ssi;
            &&& call.dest_gssi == gssi
            &&& run.st.active_calls.contains((call_id, call))
            &&& after.queue.len() == n + 2
            &&& crate::cmce::floor_laws::extends(run.queue, after.queue)
            &&& proceeds(after.queue[n], request, call_id)
            &&& connects(
                after.queue[n + 1],
                request,
                call_id,
                call.usage,
                call.ts,
                if free {
                    TransmissionGrant::Granted
                } else {
                    TransmissionGrant::GrantedToOtherUser
                },
                free,
                request.pdu.call_priority,
            )
            &&& after.st.active_calls == run.st.active_calls
        }),
{
    reveal(CcRun::u_setup);
    lemma_call_of_group(run.st.active_calls, gssi);
}

/// A terminal that asks for a group call that nobody listens to is released, and
/// nothing else happens.
pub proof fn law_unheard_call_is_refused(run: CcRun, request: SetupRequest, gssi: u32)
    requires
        request.pdu.basic_service_information.communication_type != CommunicationType::P2p,
        request.pdu.area_selection <= 1,
        !request.pdu.hook_method_selection && !request.pdu.simplex_duplex_selection,
        request.pdu.called_party_ssi == Some(gssi),
        forall|i: int|
            0 <= i < run.st.members.len() ==> (#[trigger] run.st.members[i]).0.gssi != gssi,
    ensures
        ({
            let after = run.u_setup(request);
            &&& after.queue.len() == run.queue.len() + 1
            &&& crate::cmce::floor_laws::extends(run.queue, after.queue)
            &&& crate::cmce::floor_laws::answers(
                after.queue.last(),
                request.prim,
                DownlinkPdu::DRelease {
                    call_identifier: 0,
                    disconnect_cause: DisconnectCause::RequestedServiceNotAvailable,
                },
            )
            &&& after == (CcRun { queue: after.queue, ..run })
        }),
{
    reveal(CcRun::u_setup);
}

/// While the SwMI is connected and takes messages it is asked for a group call of
/// a terminal, with the group, the priority and the kind of call that the
/// terminal wants; the terminal is answered only when the SwMI has decided.
pub proof fn law_connected_call_is_asked_of_the_swmi(
    run: CcRun,
    request: SetupRequest,
    gssi: u32,
)
    requires
        run.swmi == (SwmiLink::Online { accepting: true }),
        asks_for_group_call(run, request, gssi),
        !crate::table::contains(
            run.st.central_setups,
            Membership { issi: request.prim.received.ssi, gssi },
        ),
    ensures
        ({
            let after = run.u_setup(request);
            &&& after.queue == run.queue.push(
                CcMessage::Swmi(
                    CallMessage::GroupCallRequest {
                        command_id: run.st.next_command,
                        itsi: request.prim.received.ssi as u64,
                        gssi,
                        priority: request.pdu.call_priority,
                        acknowledged: request.pdu.basic_service_information.communication_type
                            == CommunicationType::P2MpAcked,
                    },
                ),
            )
            &&& crate::table::lookup(
                after.st.pending_setups,
                Membership { issi: request.prim.received.ssi, gssi },
            ) == Some(request)
            &&& after.st.active_calls == run.st.active_calls && after.slots == run.slots
        }),
{
    reveal(CcRun::u_setup);
    let key = Membership { issi: request.prim.received.ssi, gssi };
    crate::table::law_lookup_after_put(run.st.pending_setups, key, request, key);
}

/// When the SwMI starts the group call that a terminal of this cell asked for,
/// that terminal is connected to it under the identifier of the SwMI: with the
/// floor if the SwMI gave it the floor, and otherwise as the SwMI decided. Its
/// request no longer waits.
pub proof fn law_granted_call_is_set_up(
    run: CcRun,
    request: SetupRequest,
    gssi: u32,
    call_id: u16,
    priority: u8,
    floor: u32,
    acknowledged: bool,
    ts: u8,
)
    requires
        asks_for_group_call(run, request, gssi),
        crate::table::lookup(
            run.st.pending_setups,
            Membership { issi: request.prim.received.ssi, gssi },
        ) == Some(request),
        forall|i: int|
            0 <= i < run.st.active_calls.len() ==> (
            #[trigger] run.st.active_calls[i]).1.dest_gssi != gssi,
        run.slots.lowest_free() == Some(ts),
    ensures
        ({
            let after = run.swmi_action(
                CallMessage::GroupCallStart {
                    call_id: call_id as u64,
                    owner_itsi: request.prim.received.ssi as u64,
                    gssi,
                    priority,
                    floor_itsi: floor as u64,
                    acknowledged,
                },
            );
            let key = Membership { issi: request.prim.received.ssi, gssi };
            &&& is_opened(
                run,
                after,
                request,
                gssi,
                Some(CentralSetup { call_id, floor_itsi: floor, priority }),
                ts,
            )
            &&& !crate::table::contains(after.st.pending_setups, key)
            &&& !crate::table::contains(after.st.central_setups, key)
        }),
{
    reveal(CcRun::swmi_action);
    reveal(CcRun::u_setup);
    let key = Membership { issi: request.prim.received.ssi, gssi };
    let decision = CentralSetup { call_id, floor_itsi: floor, priority };
    let noted = CcRun {
        st: CcView {
            pending_setups: crate::table::del(run.st.pending_setups, key),
            central_setups: crate::table::put(run.st.central_setups, key, decision),
            ..run.st
        },
        ..run
    };
    crate::table::law_lookup_after_put(run.st.central_setups, key, decision, key);
    crate::table::law_lookup_after_del(run.st.pending_setups, key, key);
    crate::table::law_lookup_after_del(noted.st.central_setups, key, key);
    lemma_no_call(run.st.active_calls, gssi);
    let taken = CcRun {
        st: CcView {
            central_setups: crate::table::del(noted.st.central_setups, key),
            ..noted.st
        },
        ..noted
    };
    lemma_opened(taken, request, gssi, Some(decision), ts);
    let remote = RemoteCall {
        owner_itsi: request.prim.received.ssi,
        gssi,
        priority,
        floor_itsi: floor,
        acknowledged,
    };
    let after = run.swmi_action(
        CallMessage::GroupCallStart {
            call_id: call_id as u64,
            owner_itsi: request.prim.received.ssi as u64,
            gssi,
            priority,
            floor_itsi: floor as u64,
            acknowledged,
        },
    );
    assert(after == run.group_call_start(call_id, remote));
    assert(after == noted.u_setup(request));
    assert(after == taken.open_group_call(request, gssi, Some(decision)));
    lemma_opening_keeps_waiting(taken, request, gssi, Some(decision));
}

proof fn lemma_opening_keeps_waiting(
    run: CcRun,
    request: SetupRequest,
    gssi: u32,
    central: Option<CentralSetup>,
)
    ensures
        ({
            let after = run.open_group_call(request, gssi, central);
            &&& after.st.pending_setups == run.st.pending_setups
            &&& after.st.central_setups == run.st.central_setups
        }),
{
    reveal(CcRun::open_group_call);
    assert forall|
        at: CcRun,
        setup: DSetup,
        dest: TetraAddress,
        usage: u8,
        ts: u8,
        channels: Seq<AssociatedChannel>,
    |
        (#[trigger] at.announce_on(setup, dest, usage, ts, channels)).st == at.st by {
        lemma_announced(at, setup, dest, usage, ts, channels);
    }
    assert forall|at: CcRun, call_id: u16|
        (#[trigger] at.track_listeners(call_id)).st.pending_setups == at.st.pending_setups
            && at.track_listeners(call_id).st.central_setups == at.st.central_setups by {
        lemma_tracked(at, call_id);
    }
}

// ---------------------------------------------------------------------------
// Calls of the SwMI
// ---------------------------------------------------------------------------

/// A group call that the SwMI starts, and that no terminal of this cell asked for,
/// is opened here if somebody listens: under the identifier of the SwMI, on a
/// free timeslot, with the speaker that the SwMI names; the group is called in
/// the name of its owner. Where nobody listens it waits for a listener.
pub proof fn law_central_call_is_opened_for_its_listeners(
    run: CcRun,
    call_id: u16,
    remote: RemoteCall,
    ts: u8,
)
    requires
        forall|i: int|
            0 <= i < run.st.pending_setups.len() ==> (
            #[trigger] run.st.pending_setups[i]).0.gssi != remote.gssi,
        !crate::table::contains(run.st.active_calls, call_id),
        run.slots.lowest_free() == Some(ts),
        !(remote.floor_itsi != 0 && crate::table::contains(
            run.st.members,
            Membership { issi: remote.floor_itsi, gssi: remote.gssi },
        )),
    ensures
        ({
            let after = run.swmi_action(
                CallMessage::GroupCallStart {
                    call_id: call_id as u64,
                    owner_itsi: remote.owner_itsi as u64,
                    gssi: remote.gssi,
                    priority: remote.priority,
                    floor_itsi: remote.floor_itsi as u64,
                    acknowledged: remote.acknowledged,
                },
            );
            let heard = exists|i: int|
                0 <= i < run.st.members.len() && (#[trigger] run.st.members[i]).0.gssi
                    == remote.gssi;
            let n = run.queue.len() as int;
            let usage = run.st.circuits.next_usage;
            &&& !heard ==> after.queue == run.queue && after.slots == run.slots
                && crate::table::lookup(after.st.pending_remote, call_id) == Some(remote)
            &&& heard ==> {
                &&& crate::cmce::floor_laws::extends(run.queue, after.queue)
                &&& n + 2 <= after.queue.len()
                &&& after.queue[n] matches CcMessage::Control(
                    TetraEntity::Umac,
                    CallControl::Open(circuit),
                ) && circuit.ts == ts && circuit.call_id == call_id
                &&& calls_group(
                    after.queue[n + 1],
                    remote.gssi,
                    call_id,
                    remote.owner_itsi,
                    remote.priority,
                    usage,
                    ts,
                )
                &&& crate::cmce::floor_laws::call_of(after, call_id) matches Some(call) && {
                    &&& call.dest_gssi == remote.gssi
                    &&& call.ts == ts && call.usage == usage
                    &&& call.source_issi == remote.floor_itsi
                    &&& call.tx_active == (remote.floor_itsi != 0)
                    &&& call.hangtime_start is None
                    &&& call.origin is Swmi
                    &&& call.priority == remote.priority
                    &&& call.acknowledged == remote.acknowledged
                }
                &&& remote.floor_itsi != 0 ==> after.queue.last() == CcMessage::Control(
                    TetraEntity::Swmi,
                    CallControl::FloorGranted {
                        call_id,
                        source_issi: remote.floor_itsi,
                        dest_gssi: remote.gssi,
                        ts,
                    },
                )
                &&& after.slots.owner(ts) == Some(TimeslotOwner::Cmce)
                &&& crate::cmce::floor_laws::other_calls_stay(run, after, call_id)
            }
        }),
{
    reveal(CcRun::swmi_action);
    let after = run.swmi_action(
        CallMessage::GroupCallStart {
            call_id: call_id as u64,
            owner_itsi: remote.owner_itsi as u64,
            gssi: remote.gssi,
            priority: remote.priority,
            floor_itsi: remote.floor_itsi as u64,
            acknowledged: remote.acknowledged,
        },
    );
    assert(after == run.group_call_start(call_id, remote));
    let owner = Membership { issi: remote.owner_itsi, gssi: remote.gssi };
    crate::table::lemma_contains(run.st.pending_setups, owner);
    lemma_nobody_waits(run.st.pending_setups, remote.gssi);
    crate::table::law_lookup_after_put(run.st.pending_remote, call_id, remote, call_id);
    if run.st.has_listener(remote.gssi) {
        assert(after == run.start_remote(call_id, remote, true));
        lemma_remote_started(run, call_id, remote, ts);
    }
}

proof fn lemma_nobody_waits(setups: Seq<(Membership, SetupRequest)>, gssi: u32)
    requires
        forall|i: int| 0 <= i < setups.len() ==> (#[trigger] setups[i]).0.gssi != gssi,
    ensures
        crate::cmce::cc_events::waiting_for_group(setups, gssi) is None,
    decreases setups.len(),
{
    if setups.len() > 0 {
        let rest = setups.drop_last();
        assert(forall|i: int| 0 <= i < rest.len() ==> #[trigger] rest[i] == setups[i]);
        assert(setups[setups.len() - 1] == setups.last());
        lemma_nobody_waits(rest, gssi);
    }
}

proof fn lemma_remote_started(run: CcRun, call_id: u16, remote: RemoteCall, ts: u8)
    requires
        run.st.has_listener(remote.gssi),
        !crate::table::contains(run.st.active_calls, call_id),
        run.slots.lowest_free() == Some(ts),
    ensures
        ({
            let after = run.start_remote(call_id, remote, true);
            let n = run.queue.len() as int;
            let usage = run.st.circuits.next_usage;
            &&& crate::cmce::floor_laws::extends(run.queue, after.queue)
            &&& n + 2 <= after.queue.len()
            &&& after.queue[n] == CcMessage::Control(
                TetraEntity::Umac,
                CallControl::Open(
                    run.st.circuits.circuit(
                        ts,
                        crate::cmce::cc_model::group_communication(remote.acknowledged),
                        Some(call_id),
                        false,
                    ),
                ),
            )
            &&& calls_group(
                after.queue[n + 1],
                remote.gssi,
                call_id,
                remote.owner_itsi,
                remote.priority,
                usage,
                ts,
            )
            &&& crate::cmce::floor_laws::call_of(after, call_id) == Some(
                ActiveCall {
                    origin: CallOrigin::Swmi,
                    dest_gssi: remote.gssi,
                    source_issi: remote.floor_itsi,
                    ts,
                    usage,
                    priority: remote.priority,
                    acknowledged: remote.acknowledged,
                    tx_active: remote.floor_itsi != 0,
                    hangtime_start: None,
                    brew_uuid: None,
                },
            )
            &&& remote.floor_itsi != 0 ==> after.queue.last() == CcMessage::Control(
                TetraEntity::Swmi,
                CallControl::FloorGranted {
                    call_id,
                    source_issi: remote.floor_itsi,
                    dest_gssi: remote.gssi,
                    ts,
                },
            )
            &&& after.slots.owner(ts) == Some(TimeslotOwner::Cmce)
            &&& crate::cmce::floor_laws::other_calls_stay(run, after, call_id)
        }),
{
    reveal(CcRun::start_remote);
    let after = run.start_remote(call_id, remote, true);
    let comm_type = crate::cmce::cc_model::group_communication(remote.acknowledged);
    let circuit = run.st.circuits.circuit(ts, comm_type, Some(call_id), false);
    let dest = TetraAddress::gssi(remote.gssi);
    let setup = crate::cmce::cc_model::remote_setup(call_id, remote);
    let cached = run.open_circuit(ts, comm_type, Some(call_id), false).cache_setup(
        call_id,
        setup,
        dest,
    );
    let clean = CcRun {
        st: CcView {
            restore_prepared: crate::table::del(cached.st.restore_prepared, call_id),
            ..cached.st
        },
        ..cached
    };
    let sent = clean.send_setup(setup, dest, circuit.usage, ts, None);
    let channels = cached.st.announcement_channels(remote.gssi);
    let announced = sent.announce_on(setup, dest, circuit.usage, ts, channels);
    lemma_announced(sent, setup, dest, circuit.usage, ts, channels);
    let call = ActiveCall {
        origin: CallOrigin::Swmi,
        dest_gssi: remote.gssi,
        source_issi: remote.floor_itsi,
        ts,
        usage: circuit.usage,
        priority: remote.priority,
        acknowledged: remote.acknowledged,
        tx_active: remote.floor_itsi != 0,
        hangtime_start: None,
        brew_uuid: None,
    };
    crate::cmce::floor_laws::lemma_held(announced, call_id, call);
    let held = announced.hold_call(call_id, call);
    lemma_tracked(held, call_id);
    let noted_all = held.track_listeners(call_id);
    let n = run.queue.len() as int;
    assert(after.st == noted_all.st && after.slots == noted_all.slots);
    assert(crate::cmce::floor_laws::extends(noted_all.queue, after.queue));
    assert(noted_all.queue == announced.queue);
    assert(sent.queue.len() == n + 2);
    assert(after.queue[n] == sent.queue[n]);
    assert(after.queue[n + 1] == sent.queue[n + 1]);
    assert forall|i: int| 0 <= i < n implies #[trigger] after.queue[i] == run.queue[i] by {
        assert(sent.queue[i] == run.queue[i]);
        assert(announced.queue[i] == sent.queue[i]);
    }
}

/// When the SwMI changes the priority of a group call, the call has it from now
/// on, and so has the set-up by which late-comers are called; nothing is sent.
pub proof fn law_priority_is_changed(run: CcRun, call_id: u16, priority: u8)
    requires
        crate::cmce::floor_laws::call_of(run, call_id) is Some,
        crate::table::contains(run.st.cached_setups, call_id),
    ensures
        ({
            let after = run.swmi_action(
                CallMessage::GroupCallPriorityChanged { call_id: call_id as u64, priority },
            );
            let cached = crate::table::lookup(run.st.cached_setups, call_id)->0;
            &&& after.queue == run.queue
            &&& crate::cmce::floor_laws::call_of(after, call_id) == Some(
                ActiveCall { priority, ..crate::cmce::floor_laws::call_of(run, call_id)->0 },
            )
            &&& crate::cmce::floor_laws::other_calls_stay(run, after, call_id)
            &&& (crate::table::lookup(after.st.cached_setups, call_id)->0).setup == (DSetup {
                call_priority: priority,
                ..cached.setup
            })
        }),
{
    reveal(CcRun::swmi_action);
    let call = crate::cmce::floor_laws::call_of(run, call_id)->0;
    let now = ActiveCall { priority, ..call };
    crate::cmce::floor_laws::lemma_held(run, call_id, now);
    let after = run.swmi_action(
        CallMessage::GroupCallPriorityChanged { call_id: call_id as u64, priority },
    );
    assert(after == run.priority_changed(call_id, priority));
    assert(after.st.active_calls == run.hold_call(call_id, now).st.active_calls);
    let cached = crate::table::lookup(run.st.cached_setups, call_id)->0;
    crate::table::law_lookup_after_put(
        run.st.cached_setups,
        call_id,
        crate::cmce::cc_model::CachedSetup {
            setup: DSetup { call_priority: priority, ..cached.setup },
            ..cached
        },
        call_id,
    );
}

// ---------------------------------------------------------------------------
// The end of a call
// ---------------------------------------------------------------------------

/// A group call that was announced is released on its own channel, for everyone
/// that was called to it, under its identifier and with the cause of its end; it
/// can no longer be joined, and every other call is as it was.
pub proof fn law_release_reaches_the_group(run: CcRun, call_id: u16, cause: DisconnectCause)
    requires
        crate::cmce::floor_laws::call_of(run, call_id) is Some,
        crate::table::contains(run.st.cached_setups, call_id),
    ensures
        ({
            let after = run.release_call(call_id, cause);
            let cached = crate::table::lookup(run.st.cached_setups, call_id)->0;
            &&& after.queue.len() == run.queue.len() + 1
            &&& crate::cmce::floor_laws::extends(run.queue, after.queue)
            &&& releases(
                after.queue.last(),
                cached.dest,
                cached.setup.call_identifier,
                cause,
            )
            &&& after.queue.last() matches CcMessage::Downlink(sent) && sent.stealing_permission
                && crate::cmce::floor_laws::is_channel(
                sent.chan_alloc,
                None,
                (crate::cmce::floor_laws::call_of(run, call_id)->0).ts,
            )
            &&& crate::cmce::floor_laws::call_of(after, call_id) is None
            &&& crate::cmce::floor_laws::other_calls_stay(run, after, call_id)
        }),
{
    reveal(CcRun::release_call);
    let after = run.release_call(call_id, cause);
    crate::table::law_lookup_after_del(run.st.active_calls, call_id, call_id);
    assert forall|other: u16| other != call_id implies #[trigger] crate::table::lookup(
        after.st.active_calls,
        other,
    ) == crate::table::lookup(run.st.active_calls, other) by {
        crate::table::law_lookup_after_del(run.st.active_calls, call_id, other);
    }
}

/// When the release of a group call has been transmitted, its circuit is closed
/// at the MAC and its timeslot is free again; MAC and SwMI are told that the call
/// has ended.
pub proof fn law_ended_call_frees_its_timeslot(
    run: CcRun,
    call_id: u16,
    ts: u8,
    gssi: u32,
    is_local: bool,
    brew_uuid: Option<u128>,
)
    requires
        run.slots.owner(ts) == Some(TimeslotOwner::Cmce),
    ensures
        ({
            let after = run.finalize_release(call_id, ts, gssi, is_local, brew_uuid);
            let circuit = crate::table::lookup(run.st.circuits.circuits, ts);
            let ended = CallControl::CallEnded { call_id, ts };
            &&& crate::cmce::floor_laws::extends(run.queue, after.queue)
            &&& after.slots.owner(ts) is None
            &&& forall|other: u8|
                other != ts ==> #[trigger] after.slots.owner(other) == run.slots.owner(other)
            &&& !crate::table::contains(after.st.circuits.circuits, ts)
            &&& circuit is Some ==> after.queue.contains(
                CcMessage::Control(
                    TetraEntity::Umac,
                    CallControl::Close(circuit->0.direction, circuit->0.ts),
                ),
            )
            &&& after.queue.contains(CcMessage::Control(TetraEntity::Umac, ended))
            &&& !(run.swmi is Absent) ==> after.queue.contains(
                CcMessage::Control(TetraEntity::Swmi, ended),
            )
        }),
{
    reveal(CcRun::finalize_release);
    let after = run.finalize_release(call_id, ts, gssi, is_local, brew_uuid);
    let circuit = crate::table::lookup(run.st.circuits.circuits, ts);
    crate::table::law_lookup_after_del(run.st.circuits.circuits, ts, ts);
    let n = run.queue.len() as int;
    let ended = CallControl::CallEnded { call_id, ts };
    if circuit is Some {
        assert(after.queue[n] == CcMessage::Control(
            TetraEntity::Umac,
            CallControl::Close(circuit->0.direction, circuit->0.ts),
        ));
        assert(after.queue[n + 1] == CcMessage::Control(TetraEntity::Umac, ended));
        if !(run.swmi is Absent) {
            assert(after.queue[n + 2] == CcMessage::Control(TetraEntity::Swmi, ended));
        }
    } else {
        assert(after.queue[n] == CcMessage::Control(TetraEntity::Umac, ended));
        if !(run.swmi is Absent) {
            assert(after.queue[n + 1] == CcMessage::Control(TetraEntity::Swmi, ended));
        }
    }
}

/// A call is without a speaker for too long after 360 slots, five seconds; the
/// SwMI ends its own calls while it is connected. A release has been transmitted
/// after 72 slots.
pub proof fn law_waiting_times(run: CcRun, call: ActiveCall, since: crate::tdma::TdmaTime)
    ensures
        run.hangtime_over(call) <==> call.hangtime_start is Some && run.st.dltime.since(
            call.hangtime_start->0,
        ) > 360 && !(run.swmi is Online && call.origin is Swmi),
        run.transmitted(since) <==> run.st.dltime.since(since) >= 72,
{
}

/// Where the station decides alone, the owner of a group call ends it for all by
/// disconnecting; anyone else is released for itself, and the call goes on. While
/// the SwMI is connected and takes messages it is asked.
pub proof fn law_owner_ends_its_call(
    run: CcRun,
    prim: UplinkPrim,
    call_id: u16,
    cause: DisconnectCause,
)
    requires
        !crate::table::contains(run.st.private_calls, call_id),
        crate::cmce::floor_laws::call_of(run, call_id) is Some,
        crate::table::contains(run.st.cached_setups, call_id),
    ensures
        ({
            let after = run.u_disconnect(prim, call_id, cause);
            let call = crate::cmce::floor_laws::call_of(run, call_id)->0;
            let cached = crate::table::lookup(run.st.cached_setups, call_id)->0;
            let owns = call.origin matches CallOrigin::Local { caller } && caller.ssi
                == prim.received.ssi;
            &&& run.swmi == (SwmiLink::Online { accepting: true }) ==> after.queue
                == run.queue.push(
                CcMessage::Swmi(
                    CallMessage::CallDisconnectRequest {
                        command_id: run.st.next_command,
                        call_id: call_id as u64,
                        itsi: prim.received.ssi as u64,
                    },
                ),
            ) && after.st.active_calls == run.st.active_calls
            &&& !(run.swmi is Online) && owns ==> {
                &&& releases(
                    after.queue.last(),
                    cached.dest,
                    cached.setup.call_identifier,
                    DisconnectCause::UserRequestedDisconnection,
                )
                &&& crate::cmce::floor_laws::call_of(after, call_id) is None
            }
            &&& !(run.swmi is Online) && !owns ==> {
                &&& releases(
                    after.queue.last(),
                    crate::cmce::floor_laws::terminal(prim.received.ssi),
                    call_id,
                    DisconnectCause::RequestedServiceNotAvailable,
                )
                &&& after.queue.last() matches CcMessage::Downlink(sent) && sent.layer2service
                    == crate::cmce::pdu::Layer2Service::Unacknowledged
                &&& after.queue.len() == run.queue.len() + 1
                &&& after.st.active_calls == run.st.active_calls
            }
        }),
{
    reveal(CcRun::u_disconnect);
    law_release_reaches_the_group(run, call_id, DisconnectCause::UserRequestedDisconnection);
}

/// When the SwMI ends a group call, the group is released with the cause that the
/// SwMI gave, and the call is gone; one that waited for a listener waits no more.
pub proof fn law_central_release_ends_the_call(run: CcRun, call_id: u16, cause: u8)
    requires
        crate::cmce::floor_laws::call_of(run, call_id) is Some,
        crate::table::contains(run.st.cached_setups, call_id),
    ensures
        ({
            let after = run.swmi_action(CallMessage::CallRelease { call_id: call_id as u64, cause });
            let cached = crate::table::lookup(run.st.cached_setups, call_id)->0;
            &&& after == run.swmi_action(
                CallMessage::CallDisconnect { call_id: call_id as u64, cause },
            )
            &&& releases(
                after.queue.last(),
                cached.dest,
                cached.setup.call_identifier,
                match DisconnectCause::from_code(cause) {
                    Some(known) => known,
                    None => DisconnectCause::SwmiRequestedDisconnection,
                },
            )
            &&& crate::cmce::floor_laws::call_of(after, call_id) is None
            &&& crate::cmce::floor_laws::other_calls_stay(run, after, call_id)
            &&& !crate::table::contains(after.st.pending_remote, call_id)
        }),
{
    reveal(CcRun::swmi_action);
    let forgotten = CcRun {
        st: CcView {
            pending_remote: crate::table::del(run.st.pending_remote, call_id),
            ..run.st
        },
        ..run
    };
    let reason = DisconnectCause::from_code_or(
        cause,
        DisconnectCause::SwmiRequestedDisconnection,
    );
    law_release_reaches_the_group(forgotten, call_id, reason);
    crate::table::law_lookup_after_del(run.st.pending_remote, call_id, call_id);
    let after = run.swmi_action(CallMessage::CallRelease { call_id: call_id as u64, cause });
    assert(after == forgotten.release_call(call_id, reason));
    assert(after.st.pending_remote == forgotten.st.pending_remote) by {
        reveal(CcRun::release_call);
    }
}

/// A group call that the SwMI refuses is refused to the terminal that asked for
/// it, on its link, and no longer waits.
pub proof fn law_refused_call_is_told(run: CcRun, itsi: u32, cause: u8)
    requires
        !crate::table::contains(run.st.pending_private_setups, itsi),
        crate::cmce::cc_events::waiting_from_terminal(run.st.pending_setups, itsi) is Some,
    ensures
        ({
            let after = run.swmi_action(
                CallMessage::CallReject { call_id: 0, itsi: itsi as u64, cause },
            );
            let (key, request) = crate::cmce::cc_events::waiting_from_terminal(
                run.st.pending_setups,
                itsi,
            )->0;
            &&& key.issi == itsi
            &&& run.st.pending_setups.contains((key, request))
            &&& after.queue.len() == run.queue.len() + 1
            &&& crate::cmce::floor_laws::extends(run.queue, after.queue)
            &&& crate::cmce::floor_laws::answers(
                after.queue.last(),
                request.prim,
                DownlinkPdu::DRelease {
                    call_identifier: 0,
                    disconnect_cause: DisconnectCause::RequestedServiceNotAvailable,
                },
            )
            &&& !crate::table::contains(after.st.pending_setups, key)
        }),
{
    reveal(CcRun::swmi_action);
    lemma_waiting_from(run.st.pending_setups, itsi);
    let (key, request) = crate::cmce::cc_events::waiting_from_terminal(
        run.st.pending_setups,
        itsi,
    )->0;
    crate::table::law_lookup_after_del(run.st.pending_setups, key, key);
    let after = run.swmi_action(CallMessage::CallReject { call_id: 0, itsi: itsi as u64, cause });
    assert(after == run.call_rejected(itsi, cause));
}

proof fn lemma_waiting_from(setups: Seq<(Membership, SetupRequest)>, issi: u32)
    ensures
        crate::cmce::cc_events::waiting_from_terminal(setups, issi) matches Some(found)
            ==> found.0.issi == issi && setups.contains(found),
    decreases setups.len(),
{
    if setups.len() > 0 {
        let rest = setups.drop_last();
        lemma_waiting_from(rest, issi);
        assert(setups[setups.len() - 1] == setups.last());
        if let Some(found) = crate::cmce::cc_events::waiting_from_terminal(rest, issi) {
            if setups.last().0.issi != issi {
                let i = choose|i: int| 0 <= i < rest.len() && rest[i] == found;
                assert(setups[i] == found);
            }
        }
    }
}

// ---------------------------------------------------------------------------
// Calls of the network
// ---------------------------------------------------------------------------

/// A speaker of the network that comes to a group call in which nobody speaks
/// takes the floor: the group is told who speaks, the MAC is told, Brew is told
/// on which channel of which call, and the call has that speaker. Where somebody
/// speaks already, or nobody listens, Brew is told that its call is over.
pub proof fn law_network_speaker_takes_a_free_floor(
    run: CcRun,
    brew_uuid: u128,
    source: u32,
    gssi: u32,
)
    requires
        exists|i: int|
            0 <= i < run.st.members.len() && (#[trigger] run.st.members[i]).0.gssi == gssi,
        crate::cmce::cc_procedures::call_of_group(run.st.active_calls, gssi) is Some,
    ensures
        ({
            let after = run.network_call_start(brew_uuid, source, gssi);
            let (call_id, call) = crate::cmce::cc_procedures::call_of_group(
                run.st.active_calls,
                gssi,
            )->0;
            let n = run.queue.len() as int;
            &&& call.dest_gssi == gssi
            &&& crate::cmce::floor_laws::extends(run.queue, after.queue)
            &&& call.tx_active ==> after == (CcRun {
                queue: run.queue.push(
                    CcMessage::Control(
                        TetraEntity::Brew,
                        CallControl::NetworkCallEnd { brew_uuid },
                    ),
                ),
                ..run
            })
            &&& !call.tx_active ==> {
                &&& after.queue.len() == n + 4
                &&& crate::cmce::floor_laws::tells_speaker(
                    after.queue[n],
                    crate::cmce::floor_laws::group(gssi),
                    call_id,
                    source,
                    TransmissionGrant::GrantedToOtherUser,
                    call.ts,
                )
                &&& crate::cmce::floor_laws::tells_speaker(
                    after.queue[n + 1],
                    crate::cmce::floor_laws::terminal(source),
                    call_id,
                    source,
                    TransmissionGrant::Granted,
                    call.ts,
                )
                &&& after.queue[n + 2] == CcMessage::Control(
                    TetraEntity::Umac,
                    CallControl::FloorGranted {
                        call_id,
                        source_issi: source,
                        dest_gssi: gssi,
                        ts: call.ts,
                    },
                )
                &&& after.queue[n + 3] == CcMessage::Control(
                    TetraEntity::Brew,
                    CallControl::NetworkCallReady {
                        brew_uuid,
                        call_id,
                        ts: call.ts,
                        usage: call.usage,
                    },
                )
                &&& crate::cmce::floor_laws::call_of(after, call_id) matches Some(now) && {
                    &&& now.source_issi == source
                    &&& now.tx_active
                    &&& now.hangtime_start is None
                    &&& now.brew_uuid == Some(brew_uuid)
                    &&& now.dest_gssi == gssi && now.ts == call.ts && now.usage == call.usage
                }
            }
        }),
{
    reveal(CcRun::network_call_start);
    lemma_call_of_group(run.st.active_calls, gssi);
    let (call_id, call) = crate::cmce::cc_procedures::call_of_group(run.st.active_calls, gssi)->0;
    let now = ActiveCall {
        source_issi: source,
        tx_active: true,
        hangtime_start: None,
        brew_uuid: Some(brew_uuid),
        origin: match call.origin {
            CallOrigin::Network { brew_uuid: _ } => CallOrigin::Network { brew_uuid },
            other => other,
        },
        ..call
    };
    crate::cmce::floor_laws::lemma_held(run, call_id, now);
    let after = run.network_call_start(brew_uuid, source, gssi);
    if !call.tx_active {
        assert(after.st.active_calls == run.hold_call(call_id, now).st.active_calls);
    }
}

/// A group call of the network for which somebody listens, and of which none is
/// here, is opened on a free timeslot: the MAC opens the circuit, the group is
/// called in the name of the speaker, Brew is told the channel, and the call has
/// that speaker.
pub proof fn law_network_call_is_opened(
    run: CcRun,
    brew_uuid: u128,
    source: u32,
    gssi: u32,
    ts: u8,
)
    requires
        exists|i: int|
            0 <= i < run.st.members.len() && (#[trigger] run.st.members[i]).0.gssi == gssi,
        forall|i: int|
            0 <= i < run.st.active_calls.len() ==> (
            #[trigger] run.st.active_calls[i]).1.dest_gssi != gssi,
        run.slots.lowest_free() == Some(ts),
    ensures
        ({
            let after = run.network_call_start(brew_uuid, source, gssi);
            let call_id = run.st.circuits.next_call_id;
            let usage = run.st.circuits.next_usage;
            let n = run.queue.len() as int;
            &&& crate::cmce::floor_laws::extends(run.queue, after.queue)
            &&& n + 3 <= after.queue.len()
            &&& after.queue[n] matches CcMessage::Control(
                TetraEntity::Umac,
                CallControl::Open(circuit),
            ) && circuit.ts == ts && circuit.call_id == call_id
            &&& calls_group(after.queue[n + 1], gssi, call_id, source, 0, usage, ts)
            &&& after.queue.last() == CcMessage::Control(
                TetraEntity::Brew,
                CallControl::NetworkCallReady { brew_uuid, call_id, ts, usage },
            )
            &&& crate::cmce::floor_laws::call_of(after, call_id) matches Some(call) && {
                &&& call.dest_gssi == gssi && call.ts == ts && call.usage == usage
                &&& call.source_issi == source && call.tx_active
                &&& call.brew_uuid == Some(brew_uuid)
                &&& call.origin == CallOrigin::Network { brew_uuid }
            }
            &&& after.slots.owner(ts) == Some(TimeslotOwner::Cmce)
            &&& crate::cmce::floor_laws::other_calls_stay(run, after, call_id)
        }),
{
    reveal(CcRun::network_call_start);
    lemma_no_call(run.st.active_calls, gssi);
    let after = run.network_call_start(brew_uuid, source, gssi);
    let circuit = run.st.circuits.circuit(ts, CommunicationType::P2Mp, None, false);
    let call_id = circuit.call_id;
    let dest = TetraAddress::gssi(gssi);
    let setup = DSetup {
        call_identifier: call_id,
        call_time_out: crate::cmce::pdu::CallTimeout::T5m,
        hook_method_selection: false,
        simplex_duplex_selection: false,
        basic_service_information: crate::cmce::cc_model::speech_service(CommunicationType::P2Mp),
        transmission_grant: TransmissionGrant::GrantedToOtherUser,
        transmission_request_permission: false,
        call_priority: 0,
        notification_indicator: Some(crate::cmce::cc_model::NOTIFICATION_LE_BROADCAST),
        calling_party_address_ssi: Some(source),
    };
    let cached = run.open_circuit(ts, CommunicationType::P2Mp, None, false).cache_setup(
        call_id,
        setup,
        dest,
    );
    let sent = cached.send_setup(setup, dest, circuit.usage, ts, None);
    let channels = cached.st.announcement_channels(gssi);
    let announced = sent.announce_on(setup, dest, circuit.usage, ts, channels);
    lemma_announced(sent, setup, dest, circuit.usage, ts, channels);
    let told = announced.emit(
        crate::cmce::cc_model::unitdata(
            DownlinkPdu::DConnect(
                crate::cmce::pdu::DConnect {
                    call_identifier: call_id,
                    call_time_out: crate::cmce::pdu::CallTimeout::T5m,
                    hook_method_selection: false,
                    simplex_duplex_selection: false,
                    transmission_grant: TransmissionGrant::GrantedToOtherUser,
                    transmission_request_permission: false,
                    call_ownership: false,
                    call_priority: None,
                },
            ),
            None,
            dest,
            crate::cmce::pdu::Layer2Service::Unacknowledged,
            None,
            None,
        ),
    );
    let call = ActiveCall {
        origin: CallOrigin::Network { brew_uuid },
        dest_gssi: gssi,
        source_issi: source,
        ts,
        usage: circuit.usage,
        priority: 0,
        acknowledged: false,
        tx_active: true,
        hangtime_start: None,
        brew_uuid: Some(brew_uuid),
    };
    crate::cmce::floor_laws::lemma_held(told, call_id, call);
    let held = told.hold_call(call_id, call);
    lemma_tracked(held, call_id);
    let n = run.queue.len() as int;
    assert(after.st == held.track_listeners(call_id).st);
    assert(sent.queue.len() == n + 2);
    assert(after.queue[n] == sent.queue[n]);
    assert(after.queue[n + 1] == sent.queue[n + 1]);
    assert forall|i: int| 0 <= i < n implies #[trigger] after.queue[i] == run.queue[i] by {
        assert(sent.queue[i] == run.queue[i]);
        assert(announced.queue[i] == sent.queue[i]);
    }
}

/// A speaker of the network that stops leaves the floor of its call free, and the
/// group is told; where nobody speaks any more the call is released.
pub proof fn law_network_speaker_stops(run: CcRun, brew_uuid: u128)
    requires
        crate::cmce::cc_events::call_of_session(run.st.active_calls, brew_uuid) is Some,
    ensures
        ({
            let after = run.network_call_end(brew_uuid);
            let (call_id, call) = crate::cmce::cc_events::call_of_session(
                run.st.active_calls,
                brew_uuid,
            )->0;
            let n = run.queue.len() as int;
            &&& call.brew_uuid == Some(brew_uuid)
            &&& call.tx_active ==> {
                &&& after.queue.len() == n + 2
                &&& crate::cmce::floor_laws::extends(run.queue, after.queue)
                &&& crate::cmce::floor_laws::tells_silence(
                    after.queue[n],
                    crate::cmce::floor_laws::group(call.dest_gssi),
                    call_id,
                    call.ts,
                )
                &&& crate::cmce::floor_laws::call_of(after, call_id) == Some(
                    ActiveCall {
                        tx_active: false,
                        hangtime_start: Some(run.st.dltime),
                        brew_uuid: None,
                        ..call
                    },
                )
            }
            &&& !call.tx_active ==> crate::cmce::floor_laws::call_of(after, call_id) is None
        }),
{
    reveal(CcRun::network_call_end);
    lemma_call_of_session(run.st.active_calls, brew_uuid);
    let (call_id, call) = crate::cmce::cc_events::call_of_session(
        run.st.active_calls,
        brew_uuid,
    )->0;
    let now = ActiveCall {
        tx_active: false,
        hangtime_start: Some(run.st.dltime),
        brew_uuid: None,
        ..call
    };
    crate::cmce::floor_laws::lemma_held(run, call_id, now);
    let after = run.network_call_end(brew_uuid);
    if call.tx_active {
        assert(after.st.active_calls == run.hold_call(call_id, now).st.active_calls);
    } else {
        crate::cmce::cc_laws::law_released_call_is_gone(
            run,
            call_id,
            DisconnectCause::SwmiRequestedDisconnection,
            call_id,
        );
    }
}

proof fn lemma_call_of_session(calls: Seq<(u16, ActiveCall)>, uuid: u128)
    ensures
        crate::cmce::cc_events::call_of_session(calls, uuid) matches Some(found)
            ==> found.1.brew_uuid == Some(uuid),
    decreases calls.len(),
{
    if calls.len() > 0 {
        lemma_call_of_session(calls.drop_last(), uuid);
    }
}

// ---------------------------------------------------------------------------
// Subscribers
// ---------------------------------------------------------------------------

/// Whether a terminal is a member of a group, as call control has it.
pub open spec fn is_member(run: CcRun, issi: u32, gssi: u32) -> bool {
    crate::table::contains(run.st.members, Membership { issi, gssi })
}

proof fn lemma_affiliated(run: CcRun, issi: u32, groups: Seq<u32>, classes: Seq<u8>)
    ensures
        ({
            let (after, fresh) = run.affiliate_each(issi, groups, classes);
            &&& forall|other: u32, gssi: u32| #[trigger]
                is_member(after, other, gssi) == (is_member(run, other, gssi) || (other == issi
                    && groups.contains(gssi)))
            &&& forall|gssi: u32| #[trigger]
                fresh.contains(gssi) <==> groups.contains(gssi) && !is_member(run, issi, gssi)
            &&& after.queue == run.queue
        }),
    decreases groups.len(),
{
    let (after, fresh) = run.affiliate_each(issi, groups, classes);
    if groups.len() > 0 {
        let rest = groups.drop_last();
        let (before, earlier) = run.affiliate_each(issi, rest, classes);
        lemma_affiliated(run, issi, rest, classes);
        let member = Membership { issi, gssi: groups.last() };
        assert(rest.push(groups.last()) =~= groups);
        assert forall|other: u32, gssi: u32| #[trigger]
            is_member(after, other, gssi) == (is_member(run, other, gssi) || (other == issi
                && groups.contains(gssi))) by {
            crate::table::law_lookup_after_put(
                before.st.members,
                member,
                true,
                Membership { issi: other, gssi },
            );
            vstd::seq_lib::lemma_seq_contains_after_push(rest, groups.last(), gssi);
            assert(is_member(before, other, gssi) == (is_member(run, other, gssi) || (other == issi
                && rest.contains(gssi))));
        }
        assert forall|gssi: u32| #[trigger]
            fresh.contains(gssi) <==> groups.contains(gssi) && !is_member(run, issi, gssi) by {
            vstd::seq_lib::lemma_seq_contains_after_push(rest, groups.last(), gssi);
            vstd::seq_lib::lemma_seq_contains_after_push(earlier, groups.last(), gssi);
            assert(earlier.contains(gssi) <==> rest.contains(gssi) && !is_member(run, issi, gssi));
            assert(is_member(before, issi, groups.last()) == (is_member(run, issi, groups.last())
                || rest.contains(groups.last())));
        }
    } else {
        assert forall|other: u32, gssi: u32| #[trigger]
            is_member(after, other, gssi) == is_member(run, other, gssi) by {}
    }
}

proof fn lemma_deaffiliated(run: CcRun, issi: u32, groups: Seq<u32>)
    ensures
        ({
            let (after, left) = run.deaffiliate_each(issi, groups);
            &&& forall|other: u32, gssi: u32| #[trigger]
                is_member(after, other, gssi) == (is_member(run, other, gssi) && !(other == issi
                    && groups.contains(gssi)))
            &&& after.queue == run.queue
        }),
    decreases groups.len(),
{
    let (after, left) = run.deaffiliate_each(issi, groups);
    if groups.len() > 0 {
        let rest = groups.drop_last();
        let (before, earlier) = run.deaffiliate_each(issi, rest);
        lemma_deaffiliated(run, issi, rest);
        let member = Membership { issi, gssi: groups.last() };
        assert(rest.push(groups.last()) =~= groups);
        assert forall|other: u32, gssi: u32| #[trigger]
            is_member(after, other, gssi) == (is_member(run, other, gssi) && !(other == issi
                && groups.contains(gssi))) by {
            crate::table::law_lookup_after_del(
                before.st.members,
                member,
                Membership { issi: other, gssi },
            );
            vstd::seq_lib::lemma_seq_contains_after_push(rest, groups.last(), gssi);
            assert(is_member(before, other, gssi) == (is_member(run, other, gssi) && !(other
                == issi && rest.contains(gssi))));
        }
    } else {
        assert forall|other: u32, gssi: u32| #[trigger]
            is_member(after, other, gssi) == is_member(run, other, gssi) by {}
    }
}

proof fn lemma_release_keeps_members(run: CcRun, call_id: u16, cause: DisconnectCause)
    ensures
        run.release_call(call_id, cause).st.members == run.st.members,
        run.release_call(call_id, cause).st.known == run.st.known,
{
    reveal(CcRun::release_call);
    reveal(CcRun::finalize_release);
}

proof fn lemma_drop_keeps_members(run: CcRun, calls: Seq<(u16, ActiveCall)>, gssi: u32)
    ensures
        run.drop_each(calls, gssi).st.members == run.st.members,
        run.drop_each(calls, gssi).st.known == run.st.known,
    decreases calls.len(),
{
    if calls.len() > 0 {
        lemma_drop_keeps_members(run, calls.drop_last(), gssi);
        assert forall|at: CcRun, call_id: u16, cause: DisconnectCause|
            (#[trigger] at.release_call(call_id, cause)).st.members == at.st.members
                && at.release_call(call_id, cause).st.known == at.st.known by {
            lemma_release_keeps_members(at, call_id, cause);
        }
    }
}

proof fn lemma_dropping_groups_keeps_members(run: CcRun, groups: Seq<u32>)
    ensures
        run.drop_unlistened_groups(groups).st.members == run.st.members,
        run.drop_unlistened_groups(groups).st.known == run.st.known,
    decreases groups.len(),
{
    if groups.len() > 0 {
        lemma_dropping_groups_keeps_members(run, groups.drop_last());
        reveal(CcRun::drop_unlistened);
        let before = run.drop_unlistened_groups(groups.drop_last());
        lemma_drop_keeps_members(before, before.st.active_calls, groups.last());
    }
}

proof fn lemma_start_keeps_members(run: CcRun, call_id: u16, remote: RemoteCall, announce: bool)
    ensures
        run.start_remote(call_id, remote, announce).st.members == run.st.members,
        run.start_remote(call_id, remote, announce).st.known == run.st.known,
{
    reveal(CcRun::start_remote);
    assert forall|
        at: CcRun,
        setup: DSetup,
        dest: TetraAddress,
        usage: u8,
        ts: u8,
        channels: Seq<AssociatedChannel>,
    |
        (#[trigger] at.announce_on(setup, dest, usage, ts, channels)).st == at.st by {
        lemma_announced(at, setup, dest, usage, ts, channels);
    }
    assert forall|at: CcRun, id: u16| (#[trigger] at.track_listeners(id)).st.members
        == at.st.members && at.track_listeners(id).st.known == at.st.known by {
        lemma_tracked(at, id);
    }
}

proof fn lemma_activate_keeps_members(
    run: CcRun,
    waiting: Seq<(u16, RemoteCall)>,
    groups: Seq<u32>,
)
    ensures
        run.activate_each(waiting, groups).st.members == run.st.members,
        run.activate_each(waiting, groups).st.known == run.st.known,
    decreases waiting.len(),
{
    if waiting.len() > 0 {
        lemma_activate_keeps_members(run, waiting.drop_last(), groups);
        assert forall|at: CcRun, id: u16, remote: RemoteCall, announce: bool|
            (#[trigger] at.start_remote(id, remote, announce)).st.members == at.st.members
                && at.start_remote(id, remote, announce).st.known == at.st.known by {
            lemma_start_keeps_members(at, id, remote, announce);
        }
    }
}

/// Call control follows what mobility management tells of a terminal: one that
/// joins groups is a member of them, one that leaves groups is not, one that
/// leaves the cell is a member of none, and the memberships of all other
/// terminals stay.
pub proof fn law_memberships_follow_the_subscribers(
    run: CcRun,
    issi: u32,
    groups: Seq<u32>,
    classes: Seq<u8>,
    other: u32,
    gssi: u32,
)
    requires
        crate::table::contains(run.st.known, issi),
    ensures
        is_member(
            run.subscriber_update(SubscriberAction::Affiliate, issi, groups, classes, None),
            other,
            gssi,
        ) == (is_member(run, other, gssi) || (other == issi && groups.contains(gssi))),
        is_member(
            run.subscriber_update(SubscriberAction::Deaffiliate, issi, groups, classes, None),
            other,
            gssi,
        ) == (is_member(run, other, gssi) && !(other == issi && groups.contains(gssi))),
        is_member(
            run.subscriber_update(SubscriberAction::Deregister, issi, groups, classes, None),
            other,
            gssi,
        ) == (is_member(run, other, gssi) && other != issi),
        !crate::table::contains(
            run.subscriber_update(
                SubscriberAction::Deregister,
                issi,
                groups,
                classes,
                None,
            ).st.known,
            issi,
        ),
{
    reveal(CcRun::subscriber_update);
    reveal(CcRun::activate_pending);
    lemma_affiliated(run, issi, groups, classes);
    lemma_deaffiliated(run, issi, groups);
    let (joined, fresh) = run.affiliate_each(issi, groups, classes);
    lemma_activate_keeps_members(joined, joined.st.pending_remote, fresh);
    let (left, removed) = run.deaffiliate_each(issi, groups);
    lemma_dropping_groups_keeps_members(left, removed);
    let all = crate::cmce::cc_events::groups_of(run.st.members, issi);
    let gone = CcRun {
        st: CcView {
            known: crate::table::del(run.st.known, issi),
            members: crate::cmce::cc_events::without_terminal(run.st.members, issi),
            ..run.st
        },
        ..run
    };
    lemma_dropping_groups_keeps_members(gone, all);
    crate::table::law_lookup_after_del(run.st.known, issi, issi);
    crate::table::law_lookup_after_key_filter(
        run.st.members,
        |entry: (Membership, bool)| entry.0.issi != issi,
        Membership { issi: other, gssi },
    );
    assert(is_member(joined, other, gssi) == (is_member(run, other, gssi) || (other == issi
        && groups.contains(gssi))));
    assert(is_member(left, other, gssi) == (is_member(run, other, gssi) && !(other == issi
        && groups.contains(gssi))));
    assert(run.subscriber_update(
        SubscriberAction::Affiliate,
        issi,
        groups,
        classes,
        None,
    ).st.members == joined.st.members);
}

// ---------------------------------------------------------------------------
// Late entry and handover
// ---------------------------------------------------------------------------

/// While somebody speaks in a group call its set-up is repeated for late-comers,
/// to the group, on the channel of the call and as one in which another speaks;
/// in hangtime, and before the one before it has been sent, it is not.
pub proof fn law_late_comers_are_called(
    run: CcRun,
    call_id: u16,
    usage: u8,
    ts: u8,
    unsent: Seq<u64>,
)
    requires
        crate::cmce::floor_laws::call_of(run, call_id) is Some,
        crate::table::contains(run.st.cached_setups, call_id),
        !crate::table::contains(run.st.restore_prepared, call_id),
        !run.is_private_circuit(call_id, ts),
    ensures
        ({
            let after = run.repeat_setup(call_id, usage, ts, unsent);
            let call = crate::cmce::floor_laws::call_of(run, call_id)->0;
            let cached = crate::table::lookup(run.st.cached_setups, call_id)->0;
            let held_back = call.hangtime_start is Some || (cached.receipt is Some
                && unsent.contains(cached.receipt->0));
            &&& held_back ==> after == run
            &&& !held_back ==> {
                &&& after.queue.len() == run.queue.len() + 1
                &&& crate::cmce::floor_laws::extends(run.queue, after.queue)
                &&& after.queue.last() matches CcMessage::Downlink(sent) && {
                    &&& sent.main_address == cached.dest
                    &&& crate::cmce::floor_laws::is_channel(sent.chan_alloc, Some(usage), ts)
                    &&& sent.receipt == Some(run.st.next_receipt)
                    &&& sent.pdu matches DownlinkPdu::DSetup(setup) && {
                        &&& setup.call_identifier == cached.setup.call_identifier
                        &&& setup.calling_party_address_ssi
                            == cached.setup.calling_party_address_ssi
                        &&& setup.transmission_grant == TransmissionGrant::GrantedToOtherUser
                            <==> call.tx_active
                        &&& setup.transmission_grant == TransmissionGrant::NotGranted
                            <==> !call.tx_active
                    }
                }
                &&& after.st.active_calls == run.st.active_calls
            }
        }),
{
    reveal(CcRun::repeat_setup);
}

/// The channel that is reserved for a terminal that is about to arrive is the one
/// of the group call that it takes part in: the carrier of the cell, and the
/// timeslot and usage of the call. The terminal is a member from then on.
pub proof fn law_reserved_channel_is_that_of_the_call(
    run: CcRun,
    reservation: u64,
    itsi: u32,
    call_id: u16,
    remote: RemoteCall,
)
    requires
        run.swmi is Online,
        call_id != 0,
        crate::cmce::floor_laws::call_of(run, call_id) is Some,
        (crate::cmce::floor_laws::call_of(run, call_id)->0).dest_gssi == remote.gssi,
        run.carrier <= 0x0fff,
        2 <= (crate::cmce::floor_laws::call_of(run, call_id)->0).ts <= 4,
        (crate::cmce::floor_laws::call_of(run, call_id)->0).usage <= 63,
    ensures
        ({
            let after = run.swmi_action(
                CallMessage::HandoverReserveGroupCall {
                    reservation_id: reservation,
                    itsi: itsi as u64,
                    call_id: call_id as u64,
                    owner_itsi: remote.owner_itsi as u64,
                    gssi: remote.gssi,
                    priority: remote.priority,
                    floor_itsi: remote.floor_itsi as u64,
                    acknowledged: remote.acknowledged,
                },
            );
            let call = crate::cmce::floor_laws::call_of(run, call_id)->0;
            &&& after.queue.len() == run.queue.len() + 1
            &&& crate::cmce::floor_laws::extends(run.queue, after.queue)
            &&& after.queue.last() matches CcMessage::Swmi(
                CallMessage::HandoverReservationResult {
                    reservation_id,
                    accepted,
                    allocation: Some(channel),
                },
            ) && {
                &&& reservation_id == reservation
                &&& accepted
                &&& channel.carrier == run.carrier
                &&& channel.usage == call.usage
                &&& call.ts == 2 ==> channel.timeslot_bitmap == 2
                &&& call.ts == 3 ==> channel.timeslot_bitmap == 4
                &&& call.ts == 4 ==> channel.timeslot_bitmap == 8
            }
            &&& is_member(after, itsi, remote.gssi)
            &&& after.st.active_calls == run.st.active_calls
        }),
{
    reveal(CcRun::swmi_action);
    reveal(CcRun::reserve_handover);
    let member = Membership { issi: itsi, gssi: remote.gssi };
    let expected = run.expect_member(itsi, remote.gssi);
    crate::table::law_lookup_after_put(run.st.members, member, true, member);
    crate::cmce::floor_laws::lemma_heard(expected, itsi, call_id);
    let after = run.swmi_action(
        CallMessage::HandoverReserveGroupCall {
            reservation_id: reservation,
            itsi: itsi as u64,
            call_id: call_id as u64,
            owner_itsi: remote.owner_itsi as u64,
            gssi: remote.gssi,
            priority: remote.priority,
            floor_itsi: remote.floor_itsi as u64,
            acknowledged: remote.acknowledged,
        },
    );
    let (reserved, channel) = run.reserve_handover(itsi, call_id as u64, remote);
    assert(reserved == expected.record_uplink(itsi, call_id));
    assert(after.st == reserved.st);
}

} // verus!
