//! How calls between two terminals go, stated of what comes in and what is handed
//! on.
use crate::cmce::cc_model::{CcRun, CcView, PrivateCallLocal};
use crate::cmce::pdu::{
    CallControl, CallMessage, CallParty, CcMessage, CmceCircuit, CommunicationType,
    DisconnectCause, DownlinkPdu, PartyTypeIdentifier, SetupRequest, SwmiLink, TetraAddress,
    TetraEntity, TransmissionGrant, UplinkPrim,
};
use vstd::prelude::*;

verus! {

/// The private call under an identifier.
pub open spec fn private_call(run: CcRun, call_id: u16) -> Option<PrivateCallLocal> {
    crate::table::lookup(run.st.private_calls, call_id)
}

/// The circuit of a party.
pub open spec fn circuit_of(run: CcRun, call_id: u16, issi: u32) -> Option<CmceCircuit> {
    crate::table::lookup(run.st.private_circuits, CallParty { call_id, issi })
}

/// Whether every private call but one is as it was.
pub open spec fn other_private_calls_stay(before: CcRun, after: CcRun, call_id: u16) -> bool {
    forall|other: u16|
        other != call_id ==> #[trigger] private_call(after, other) == private_call(before, other)
}

proof fn lemma_held(run: CcRun, call_id: u16, call: PrivateCallLocal)
    ensures
        private_call(run.hold_private(call_id, call), call_id) == Some(call),
        other_private_calls_stay(run, run.hold_private(call_id, call), call_id),
{
    let after = run.hold_private(call_id, call);
    crate::table::law_lookup_after_put(run.st.private_calls, call_id, call, call_id);
    assert forall|other: u16| other != call_id implies #[trigger] private_call(after, other)
        == private_call(run, other) by {
        crate::table::law_lookup_after_put(run.st.private_calls, call_id, call, other);
    }
}

// ---------------------------------------------------------------------------
// Set-up
// ---------------------------------------------------------------------------

/// A private call that a terminal asks for is asked of the connected SwMI: with
/// the terminal as the caller, the called party as the other, and the kind of
/// call and priority that the terminal wants. Where the SwMI cannot be asked, or
/// the called party is not named by a short identity alone, the terminal is
/// released on its link. The station never connects such a call by itself.
pub proof fn law_private_call_is_asked_of_the_swmi(run: CcRun, request: SetupRequest)
    requires
        request.pdu.basic_service_information.communication_type == CommunicationType::P2p,
        !crate::table::contains(run.st.pending_private_setups, request.prim.received.ssi),
    ensures
        ({
            let after = run.u_setup(request);
            let caller = request.prim.received.ssi;
            let named = request.pdu.called_party_ssi is Some
                && request.pdu.called_party_type_identifier == PartyTypeIdentifier::Ssi
                && request.pdu.called_party_extension is None;
            &&& after.queue.len() == run.queue.len() + 1
            &&& crate::cmce::floor_laws::extends(run.queue, after.queue)
            &&& named && run.swmi == (SwmiLink::Online { accepting: true }) ==> {
                &&& after.queue.last() == CcMessage::Swmi(
                    CallMessage::PrivateCallRequest {
                        command_id: run.st.next_command,
                        caller_itsi: caller as u64,
                        callee_itsi: request.pdu.called_party_ssi->0 as u64,
                        hook: request.pdu.hook_method_selection,
                        duplex: request.pdu.simplex_duplex_selection,
                        request_to_transmit: request.pdu.request_to_transmit_send_data,
                        priority: request.pdu.call_priority,
                    },
                )
                &&& crate::table::lookup(after.st.pending_private_setups, caller) == Some(request)
            }
            &&& !named || run.swmi != (SwmiLink::Online { accepting: true }) ==> {
                &&& crate::cmce::floor_laws::answers(
                    after.queue.last(),
                    request.prim,
                    DownlinkPdu::DRelease {
                        call_identifier: 0,
                        disconnect_cause: DisconnectCause::RequestedServiceNotAvailable,
                    },
                )
                &&& !crate::table::contains(after.st.pending_private_setups, caller)
            }
            &&& after.st.private_calls == run.st.private_calls
            &&& after.st.private_circuits == run.st.private_circuits
            &&& after.slots == run.slots
        }),
{
    reveal(CcRun::u_setup);
    reveal(CcRun::private_setup);
    let caller = request.prim.received.ssi;
    crate::table::law_lookup_after_put(run.st.pending_private_setups, caller, request, caller);
    crate::table::law_lookup_after_del(run.st.pending_private_setups, caller, caller);
}

/// When the SwMI takes up a private call, the terminal that asked for it is told
/// on its link that it proceeds under the identifier of the SwMI; the call is
/// held between the two parties, not connected and with nobody speaking.
pub proof fn law_private_call_proceeds(
    run: CcRun,
    call_id: u16,
    caller: u32,
    callee: u32,
    hook: bool,
    duplex: bool,
    request_to_transmit: bool,
    priority: u8,
)
    requires
        crate::table::contains(run.st.pending_private_setups, caller),
    ensures
        ({
            let after = run.swmi_action(
                CallMessage::PrivateCallProceeding {
                    call_id: call_id as u64,
                    caller_itsi: caller as u64,
                    callee_itsi: callee as u64,
                    hook,
                    duplex,
                    request_to_transmit,
                    priority,
                },
            );
            let request = crate::table::lookup(run.st.pending_private_setups, caller)->0;
            &&& after.queue.len() == run.queue.len() + 1
            &&& crate::cmce::floor_laws::extends(run.queue, after.queue)
            &&& crate::cmce::group_call_laws::proceeds(after.queue.last(), request, call_id)
            &&& private_call(after, call_id) matches Some(call) && {
                &&& call.caller_itsi == caller && call.callee_itsi == callee
                &&& call.duplex == duplex && call.hook == hook && call.priority == priority
                &&& !call.connected && call.floor_itsi == 0
                &&& call.local_mask == 1
            }
            &&& !crate::table::contains(after.st.pending_private_setups, caller)
            &&& other_private_calls_stay(run, after, call_id)
        }),
{
    reveal(CcRun::swmi_action);
    let call = PrivateCallLocal {
        caller_itsi: caller,
        callee_itsi: callee,
        hook,
        duplex,
        request_to_transmit,
        priority,
        floor_itsi: 0,
        connected: false,
        local_mask: 1,
    };
    let after = run.swmi_action(
        CallMessage::PrivateCallProceeding {
            call_id: call_id as u64,
            caller_itsi: caller as u64,
            callee_itsi: callee as u64,
            hook,
            duplex,
            request_to_transmit,
            priority,
        },
    );
    assert(after == run.private_proceeding(call_id, call));
    lemma_held(run, call_id, call);
    assert(after.st.private_calls == run.hold_private(call_id, call).st.private_calls);
    assert forall|other: u16| other != call_id implies #[trigger] private_call(after, other)
        == private_call(run, other) by {
        assert(private_call(run.hold_private(call_id, call), other) == private_call(run, other));
    }
    crate::table::law_lookup_after_del(run.st.pending_private_setups, caller, caller);
}

/// A private call that the SwMI offers is offered to the called party, and to it
/// alone, in the name of the caller and with the kind of call that the caller
/// wants; nobody has the floor yet.
pub proof fn law_private_call_is_offered_to_the_called_party(
    run: CcRun,
    call_id: u16,
    caller: u32,
    callee: u32,
    hook: bool,
    duplex: bool,
    request_to_transmit: bool,
    priority: u8,
)
    ensures
        ({
            let after = run.swmi_action(
                CallMessage::PrivateCallOffer {
                    call_id: call_id as u64,
                    caller_itsi: caller as u64,
                    callee_itsi: callee as u64,
                    hook,
                    duplex,
                    request_to_transmit,
                    priority,
                },
            );
            &&& after.queue.len() == run.queue.len() + 1
            &&& crate::cmce::floor_laws::extends(run.queue, after.queue)
            &&& after.queue.last() matches CcMessage::Downlink(sent) && {
                &&& sent.main_address == crate::cmce::floor_laws::terminal(callee)
                &&& sent.chan_alloc is None && !sent.stealing_permission
                &&& sent.pdu matches DownlinkPdu::DSetup(setup) && {
                    &&& setup.call_identifier == call_id
                    &&& setup.calling_party_address_ssi == Some(caller)
                    &&& setup.transmission_grant == TransmissionGrant::NotGranted
                    &&& setup.hook_method_selection == hook
                    &&& setup.simplex_duplex_selection == duplex
                    &&& setup.call_priority == priority
                    &&& setup.basic_service_information.communication_type == CommunicationType::P2p
                }
            }
            &&& private_call(run, call_id) is None ==> (private_call(after, call_id) matches Some(
                call,
            ) && call.caller_itsi == caller && call.callee_itsi == callee && !call.connected
                && call.local_mask == 2 && call.duplex == duplex)
            &&& other_private_calls_stay(run, after, call_id)
        }),
{
    reveal(CcRun::swmi_action);
    let call = PrivateCallLocal {
        caller_itsi: caller,
        callee_itsi: callee,
        hook,
        duplex,
        request_to_transmit,
        priority,
        floor_itsi: 0,
        connected: false,
        local_mask: 2,
    };
    let after = run.swmi_action(
        CallMessage::PrivateCallOffer {
            call_id: call_id as u64,
            caller_itsi: caller as u64,
            callee_itsi: callee as u64,
            hook,
            duplex,
            request_to_transmit,
            priority,
        },
    );
    assert(after == run.private_offered(call_id, call));
    let now = match private_call(run, call_id) {
        Some(existing) => PrivateCallLocal { local_mask: existing.local_mask | 2, ..existing },
        None => call,
    };
    lemma_held(run, call_id, now);
    assert(after.st.private_calls == run.hold_private(call_id, now).st.private_calls);
    assert forall|other: u16| other != call_id implies #[trigger] private_call(after, other)
        == private_call(run, other) by {
        assert(private_call(run.hold_private(call_id, now), other) == private_call(run, other));
    }
}

/// That the called party is being alerted, or takes the call, is told to the
/// connected SwMI for that call and in its name, but only if it is the called
/// party that says so.
pub proof fn law_called_party_answers(run: CcRun, prim: UplinkPrim, call_id: u16)
    requires
        run.swmi is Online,
    ensures
        ({
            let called = private_call(run, call_id) matches Some(call) && call.callee_itsi
                == prim.received.ssi;
            let alerted = run.u_alert(prim, call_id);
            let taken = run.u_connect(prim, call_id);
            &&& !called ==> alerted == run && taken == run
            &&& called ==> {
                &&& alerted.queue == run.queue.push(
                    CcMessage::Swmi(
                        CallMessage::PrivateCallAlert {
                            call_id: call_id as u64,
                            callee_itsi: prim.received.ssi as u64,
                        },
                    ),
                )
                &&& taken.queue == run.queue.push(
                    CcMessage::Swmi(
                        CallMessage::PrivateCallConnectRequest {
                            command_id: run.st.next_command,
                            call_id: call_id as u64,
                            itsi: prim.received.ssi as u64,
                        },
                    ),
                )
                &&& alerted.st == run.st
                &&& taken.st.private_calls == run.st.private_calls
            }
        }),
{
}

/// The caller, and the caller alone, is told that the called party is being
/// alerted.
pub proof fn law_caller_hears_the_alert(run: CcRun, call_id: u16, callee: u64)
    requires
        private_call(run, call_id) is Some,
    ensures
        ({
            let after = run.swmi_action(
                CallMessage::PrivateCallAlert { call_id: call_id as u64, callee_itsi: callee },
            );
            let call = private_call(run, call_id)->0;
            &&& after.queue.len() == run.queue.len() + 1
            &&& crate::cmce::floor_laws::extends(run.queue, after.queue)
            &&& after.queue.last() matches CcMessage::Downlink(sent) && {
                &&& sent.main_address == crate::cmce::floor_laws::terminal(call.caller_itsi)
                &&& sent.pdu matches DownlinkPdu::DAlert {
                    call_identifier,
                    simplex_duplex_selection,
                    call_queued,
                    ..
                } && call_identifier == call_id && simplex_duplex_selection == call.duplex
                    && !call_queued
            }
            &&& after.st == run.st
        }),
{
    reveal(CcRun::swmi_action);
}

// ---------------------------------------------------------------------------
// Connection
// ---------------------------------------------------------------------------

/// Whether a message connects a party of a private call on its circuit: the
/// caller by D-CONNECT, the called party by D-CONNECT ACKNOWLEDGE.
pub open spec fn connects_party(
    message: CcMessage,
    call_id: u16,
    call: PrivateCallLocal,
    issi: u32,
    circuit: CmceCircuit,
    grant: TransmissionGrant,
) -> bool {
    message matches CcMessage::Downlink(sent) && {
        &&& sent.main_address == crate::cmce::floor_laws::terminal(issi)
        &&& crate::cmce::floor_laws::is_channel(sent.chan_alloc, Some(circuit.usage), circuit.ts)
        &&& match sent.pdu {
            DownlinkPdu::DConnect(connect) => issi == call.caller_itsi && connect.call_identifier
                == call_id && connect.transmission_grant == grant && connect.call_ownership
                && connect.simplex_duplex_selection == call.duplex,
            DownlinkPdu::DConnectAcknowledge { call_identifier, transmission_grant, .. } => issi
                != call.caller_itsi && call_identifier == call_id && transmission_grant == grant,
            _ => false,
        }
    }
}

/// When the SwMI connects a private call, each party with a circuit here is told
/// so on its own circuit, the caller first: it may speak if the call is duplex or
/// if it has the floor, and otherwise hears that the other speaks. The call is
/// connected from then on, with that floor.
pub proof fn law_connected_parties_are_told(
    run: CcRun,
    call_id: u16,
    floor: u32,
)
    requires
        private_call(run, call_id) is Some,
        (private_call(run, call_id)->0).caller_itsi != (private_call(run, call_id)->0).callee_itsi,
        circuit_of(run, call_id, (private_call(run, call_id)->0).caller_itsi) is Some,
        circuit_of(run, call_id, (private_call(run, call_id)->0).callee_itsi) is Some,
    ensures
        ({
            let after = run.swmi_action(
                CallMessage::PrivateCallConnected {
                    call_id: call_id as u64,
                    initial_floor_itsi: floor as u64,
                },
            );
            let call = private_call(run, call_id)->0;
            let n = run.queue.len() as int;
            let caller = circuit_of(run, call_id, call.caller_itsi)->0;
            let callee = circuit_of(run, call_id, call.callee_itsi)->0;
            let shared = !call.duplex && call.local_mask & 3 == 3 && caller.ts == callee.ts;
            let second = if shared {
                n + 1
            } else {
                n + 3
            };
            let may = |issi: u32|
                if call.duplex || floor == issi {
                    TransmissionGrant::Granted
                } else {
                    TransmissionGrant::GrantedToOtherUser
                };
            &&& crate::cmce::floor_laws::extends(run.queue, after.queue)
            &&& after.queue.len() == if shared {
                n + 2
            } else {
                n + 6
            }
            &&& connects_party(
                after.queue[n],
                call_id,
                call,
                call.caller_itsi,
                caller,
                may(call.caller_itsi),
            )
            &&& connects_party(
                after.queue[second],
                call_id,
                call,
                call.callee_itsi,
                callee,
                may(call.callee_itsi),
            )
            &&& !shared ==> after.queue[n + 1] == CcMessage::Control(
                TetraEntity::Swmi,
                CallControl::PrivateMediaStart {
                    call_id,
                    source_issi: call.caller_itsi,
                    destination_issi: call.callee_itsi,
                    ts: caller.ts,
                },
            ) && after.queue[n + 4] == CcMessage::Control(
                TetraEntity::Swmi,
                CallControl::PrivateMediaStart {
                    call_id,
                    source_issi: call.callee_itsi,
                    destination_issi: call.caller_itsi,
                    ts: callee.ts,
                },
            )
            &&& private_call(after, call_id) == Some(
                PrivateCallLocal { connected: true, floor_itsi: floor, ..call },
            )
        }),
{
    reveal(CcRun::swmi_action);
    reveal(CcRun::private_connected);
    let after = run.swmi_action(
        CallMessage::PrivateCallConnected {
            call_id: call_id as u64,
            initial_floor_itsi: floor as u64,
        },
    );
    assert(after == run.private_connected(call_id, floor));
    let earlier = private_call(run, call_id)->0;
    let call = PrivateCallLocal { connected: true, floor_itsi: floor, ..earlier };
    lemma_held(run, call_id, call);
    let held = run.hold_private(call_id, call);
    let shares = held.shared_slot(call_id, call) is Some;
    let first = held.connect_party(call_id, call, call.caller_itsi, floor, shares);
    let both = first.connect_party(call_id, call, call.callee_itsi, floor, shares);
    crate::cmce::floor_laws::lemma_heard(both, call.caller_itsi, call_id);
    let heard = both.record_uplink(call.caller_itsi, call_id);
    crate::cmce::floor_laws::lemma_heard(heard, call.callee_itsi, call_id);
    assert(after == heard.record_uplink(call.callee_itsi, call_id));
    assert(after.queue == both.queue);
    assert(first.st == held.st);
    assert(both.st == held.st);
}

// ---------------------------------------------------------------------------
// The floor
// ---------------------------------------------------------------------------

/// A party with a circuit that asks for the floor of a connected simplex call has
/// the SwMI asked for it, in its name and for that call, and waits for one
/// multiframe; where the SwMI cannot be asked it is told to wait. The floor stays
/// where it is.
pub proof fn law_private_floor_request_goes_to_the_swmi(
    run: CcRun,
    prim: UplinkPrim,
    call_id: u16,
    priority: u8,
)
    requires
        private_call(run, call_id) is Some,
        (private_call(run, call_id)->0).connected,
        !(private_call(run, call_id)->0).duplex,
        circuit_of(run, call_id, prim.received.ssi) is Some,
        !crate::table::contains(
            run.st.pending_private_floors,
            CallParty { call_id, issi: prim.received.ssi },
        ),
    ensures
        ({
            let after = run.u_tx_demand(prim, call_id, priority);
            let party = CallParty { call_id, issi: prim.received.ssi };
            &&& after.queue.len() == run.queue.len() + 1
            &&& crate::cmce::floor_laws::extends(run.queue, after.queue)
            &&& run.swmi == (SwmiLink::Online { accepting: true }) ==> {
                &&& after.queue.last() == CcMessage::Swmi(
                    CallMessage::PrivateFloorGranted {
                        call_id: call_id as u64,
                        itsi: prim.received.ssi as u64,
                    },
                )
                &&& crate::table::lookup(after.st.pending_private_floors, party) == Some(
                    run.st.dltime.plus(72),
                )
            }
            &&& run.swmi != (SwmiLink::Online { accepting: true })
                ==> crate::cmce::floor_laws::answers(
                after.queue.last(),
                prim,
                DownlinkPdu::DTxWait {
                    call_identifier: call_id,
                    transmission_request_permission: false,
                },
            )
            &&& after.st.private_calls == run.st.private_calls
        }),
{
    reveal(CcRun::u_tx_demand);
    reveal(CcRun::private_demand);
    crate::cmce::floor_laws::lemma_heard(run, prim.received.ssi, call_id);
    let party = CallParty { call_id, issi: prim.received.ssi };
    crate::table::law_lookup_after_put(
        run.st.pending_private_floors,
        party,
        run.st.dltime.plus(72),
        party,
    );
}

/// When the SwMI gives the floor of a private call to a party, both parties with a
/// circuit here are told on it, the caller first: the party that has the floor
/// that it is its own, the other that another speaks, and who. The request no
/// longer waits.
pub proof fn law_private_floor_is_told_to_both(run: CcRun, call_id: u16, speaker: u32)
    requires
        private_call(run, call_id) is Some,
        circuit_of(run, call_id, (private_call(run, call_id)->0).caller_itsi) is Some,
        circuit_of(run, call_id, (private_call(run, call_id)->0).callee_itsi) is Some,
    ensures
        ({
            let after = run.swmi_action(
                CallMessage::PrivateFloorGranted {
                    call_id: call_id as u64,
                    itsi: speaker as u64,
                },
            );
            let call = private_call(run, call_id)->0;
            let n = run.queue.len() as int;
            let caller = circuit_of(run, call_id, call.caller_itsi)->0;
            let callee = circuit_of(run, call_id, call.callee_itsi)->0;
            let may = |issi: u32|
                if speaker == issi {
                    TransmissionGrant::Granted
                } else {
                    TransmissionGrant::GrantedToOtherUser
                };
            &&& crate::cmce::floor_laws::extends(run.queue, after.queue)
            &&& n + 3 <= after.queue.len()
            &&& crate::cmce::floor_laws::tells_speaker(
                after.queue[n],
                crate::cmce::floor_laws::terminal(call.caller_itsi),
                call_id,
                speaker,
                may(call.caller_itsi),
                caller.ts,
            )
            &&& after.queue[n + 1] == CcMessage::Control(
                TetraEntity::Umac,
                CallControl::FloorGranted {
                    call_id,
                    source_issi: speaker,
                    dest_gssi: 0,
                    ts: caller.ts,
                },
            )
            &&& crate::cmce::floor_laws::tells_speaker(
                after.queue[n + 2],
                crate::cmce::floor_laws::terminal(call.callee_itsi),
                call_id,
                speaker,
                may(call.callee_itsi),
                callee.ts,
            )
            &&& private_call(after, call_id) == Some(
                PrivateCallLocal { floor_itsi: speaker, ..call },
            )
            &&& !crate::table::contains(
                after.st.pending_private_floors,
                CallParty { call_id, issi: speaker },
            )
            &&& other_private_calls_stay(run, after, call_id)
        }),
{
    reveal(CcRun::swmi_action);
    reveal(CcRun::private_floor_granted);
    let after = run.swmi_action(
        CallMessage::PrivateFloorGranted { call_id: call_id as u64, itsi: speaker as u64 },
    );
    assert(after == run.private_floor_granted(call_id, speaker));
    let call = private_call(run, call_id)->0;
    let now = PrivateCallLocal { floor_itsi: speaker, ..call };
    let party = CallParty { call_id, issi: speaker };
    crate::table::law_lookup_after_del(run.st.pending_private_floors, party, party);
    let answered = CcRun {
        st: CcView {
            pending_private_floors: crate::table::del(run.st.pending_private_floors, party),
            ..run.st
        },
        ..run
    };
    lemma_held(answered, call_id, now);
    let held = answered.hold_private(call_id, now);
    assert(after.st == held.st);
    assert forall|other: u16| other != call_id implies #[trigger] private_call(after, other)
        == private_call(run, other) by {
        assert(private_call(held, other) == private_call(answered, other));
    }
}

/// When the floor of a private call is freed, both parties with a circuit here are
/// told on it that nobody speaks, and nobody has the floor.
pub proof fn law_freed_private_floor_is_told_to_both(run: CcRun, call_id: u16, itsi: u64)
    requires
        private_call(run, call_id) is Some,
        circuit_of(run, call_id, (private_call(run, call_id)->0).caller_itsi) is Some,
        circuit_of(run, call_id, (private_call(run, call_id)->0).callee_itsi) is Some,
    ensures
        ({
            let after = run.swmi_action(
                CallMessage::PrivateFloorReleased { call_id: call_id as u64, itsi },
            );
            let call = private_call(run, call_id)->0;
            let n = run.queue.len() as int;
            let caller = circuit_of(run, call_id, call.caller_itsi)->0;
            let callee = circuit_of(run, call_id, call.callee_itsi)->0;
            &&& crate::cmce::floor_laws::extends(run.queue, after.queue)
            &&& n + 3 <= after.queue.len()
            &&& crate::cmce::floor_laws::tells_silence(
                after.queue[n],
                crate::cmce::floor_laws::terminal(call.caller_itsi),
                call_id,
                caller.ts,
            )
            &&& after.queue[n + 1] == CcMessage::Control(
                TetraEntity::Umac,
                CallControl::FloorReleased { call_id, ts: caller.ts },
            )
            &&& crate::cmce::floor_laws::tells_silence(
                after.queue[n + 2],
                crate::cmce::floor_laws::terminal(call.callee_itsi),
                call_id,
                callee.ts,
            )
            &&& private_call(after, call_id) == Some(PrivateCallLocal { floor_itsi: 0, ..call })
        }),
{
    reveal(CcRun::swmi_action);
    reveal(CcRun::private_floor_released);
    let after = run.swmi_action(
        CallMessage::PrivateFloorReleased { call_id: call_id as u64, itsi },
    );
    assert(after == run.private_floor_released(call_id));
    let call = private_call(run, call_id)->0;
    let now = PrivateCallLocal { floor_itsi: 0, ..call };
    lemma_held(run, call_id, now);
    assert(after.st == run.hold_private(call_id, now).st);
}

/// A party that stops speaking in a connected simplex call is reported to the
/// connected SwMI, in its name and for that call; the floor stays until the SwMI
/// has decided.
pub proof fn law_private_speaker_stops(run: CcRun, prim: UplinkPrim, call_id: u16)
    requires
        run.swmi is Online,
        private_call(run, call_id) is Some,
        (private_call(run, call_id)->0).connected,
        !(private_call(run, call_id)->0).duplex,
    ensures
        ({
            let after = run.u_tx_ceased(prim, call_id);
            &&& after.queue == run.queue.push(
                CcMessage::Swmi(
                    CallMessage::PrivateFloorReleased {
                        call_id: call_id as u64,
                        itsi: prim.received.ssi as u64,
                    },
                ),
            )
            &&& after.st.private_calls == run.st.private_calls
        }),
{
    reveal(CcRun::u_tx_ceased);
    crate::cmce::floor_laws::lemma_heard(run, prim.received.ssi, call_id);
}

/// A party that restores its private call is told on its circuit whether it may
/// speak: it may if the call is duplex or it has the floor; otherwise another may
/// if another has the floor, and nobody if nobody has. The call has to be
/// connected, the terminal a party of it with a circuit, and the other party the
/// one that the terminal names.
pub proof fn law_restored_private_call_tells_the_floor(
    run: CcRun,
    prim: UplinkPrim,
    call_id: u16,
    other_party: Option<u32>,
)
    requires
        crate::table::lookup(run.st.active_calls, call_id) is None,
    ensures
        ({
            let after = run.u_call_restore(prim, call_id, other_party);
            let itsi = prim.received.ssi;
            let call = private_call(run, call_id)->0;
            let circuit = circuit_of(run, call_id, itsi)->0;
            let peer = if call.caller_itsi == itsi {
                call.callee_itsi
            } else {
                call.caller_itsi
            };
            let restores = private_call(run, call_id) is Some && circuit_of(run, call_id, itsi)
                is Some && call.connected && (call.caller_itsi == itsi || call.callee_itsi == itsi)
                && (other_party is Some ==> other_party->0 == peer);
            &&& after.queue.len() == run.queue.len() + 1
            &&& crate::cmce::floor_laws::extends(run.queue, after.queue)
            &&& after.queue.last() matches CcMessage::Downlink(sent) && {
                &&& sent.main_address == crate::cmce::floor_laws::terminal(itsi)
                &&& !restores ==> sent.pdu == DownlinkPdu::RestoreFailure
                &&& restores ==> {
                    &&& crate::cmce::floor_laws::is_channel(
                        sent.chan_alloc,
                        Some(circuit.usage),
                        circuit.ts,
                    )
                    &&& sent.pdu matches DownlinkPdu::DCallRestore {
                        call_identifier,
                        transmission_grant,
                        ..
                    } && {
                        &&& call_identifier == call_id
                        &&& transmission_grant == TransmissionGrant::Granted <==> call.duplex
                            || call.floor_itsi == itsi
                        &&& transmission_grant == TransmissionGrant::NotGranted <==> !call.duplex
                            && call.floor_itsi != itsi && call.floor_itsi == 0
                    }
                }
            }
            &&& after.st.private_calls == run.st.private_calls
        }),
{
    reveal(CcRun::u_call_restore);
    let itsi = prim.received.ssi;
    let after = run.u_call_restore(prim, call_id, other_party);
    if let Some((grant, usage, ts)) = run.private_restoration(call_id, itsi, other_party) {
        let told = run.emit(
            crate::cmce::cc_model::unitdata(
                DownlinkPdu::DCallRestore {
                    call_identifier: call_id,
                    transmission_grant: grant,
                    transmission_request_permission: false,
                    reset_call_time_out_timer: true,
                },
                Some(crate::cmce::cc_model::allocation(Some(usage), ts)),
                TetraAddress::issi(itsi),
                crate::cmce::pdu::Layer2Service::Acknowledged,
                None,
                None,
            ),
        );
        crate::cmce::floor_laws::lemma_heard(told, itsi, call_id);
        assert(after == told.record_uplink(itsi, call_id));
    }
}

// ---------------------------------------------------------------------------
// The end
// ---------------------------------------------------------------------------

/// When a private call ends, each of its parties in this cell, and nobody else, is
/// released under the identifier of the call and with the cause of its end; the
/// call is gone, and no other private call is touched.
pub proof fn law_ended_private_call_releases_its_parties(
    run: CcRun,
    call_id: u16,
    itsi: u64,
    cause: u8,
)
    requires
        private_call(run, call_id) is Some,
    ensures
        ({
            let after = run.swmi_action(
                CallMessage::PrivateCallRelease { call_id: call_id as u64, itsi, cause },
            );
            let call = private_call(run, call_id)->0;
            let reason = match DisconnectCause::from_code(cause) {
                Some(known) => known,
                None => DisconnectCause::SwmiRequestedDisconnection,
            };
            let n = run.queue.len() as int;
            let caller_here = call.local_mask & 1 != 0;
            let callee_here = call.local_mask & 2 != 0;
            let second = if caller_here {
                n + 1
            } else {
                n
            };
            &&& crate::cmce::floor_laws::extends(run.queue, after.queue)
            &&& after.queue.len() == second + if callee_here {
                1int
            } else {
                0int
            }
            &&& caller_here ==> crate::cmce::group_call_laws::releases(
                after.queue[n],
                crate::cmce::floor_laws::terminal(call.caller_itsi),
                call_id,
                reason,
            )
            &&& callee_here ==> crate::cmce::group_call_laws::releases(
                after.queue[second],
                crate::cmce::floor_laws::terminal(call.callee_itsi),
                call_id,
                reason,
            )
            &&& private_call(after, call_id) is None
            &&& other_private_calls_stay(run, after, call_id)
            &&& caller_here ==> circuit_of(after, call_id, call.caller_itsi) is None
            &&& callee_here ==> circuit_of(after, call_id, call.callee_itsi) is None
        }),
{
    reveal(CcRun::swmi_action);
    reveal(CcRun::release_private);
    let reason = DisconnectCause::from_code_or(
        cause,
        DisconnectCause::SwmiRequestedDisconnection,
    );
    let after = run.swmi_action(
        CallMessage::PrivateCallRelease { call_id: call_id as u64, itsi, cause },
    );
    assert(after == run.release_private(call_id, reason));
    let call = private_call(run, call_id)->0;
    crate::table::law_lookup_after_del(run.st.private_calls, call_id, call_id);
    assert forall|other: u16| other != call_id implies #[trigger] private_call(after, other)
        == private_call(run, other) by {
        crate::table::law_lookup_after_del(run.st.private_calls, call_id, other);
    }
    let caller = CallParty { call_id, issi: call.caller_itsi };
    let callee = CallParty { call_id, issi: call.callee_itsi };
    crate::table::law_lookup_after_del(run.st.private_circuits, caller, caller);
    crate::table::law_lookup_after_del(run.st.private_circuits, callee, callee);
    let less = crate::table::del(run.st.private_circuits, caller);
    crate::table::law_lookup_after_del(less, callee, callee);
    crate::table::law_lookup_after_del(less, callee, caller);
}

/// A party that wants to end its private call has the connected SwMI asked, in its
/// name, for that call and with its cause; without the SwMI the station ends the
/// call.
pub proof fn law_party_ends_its_call(
    run: CcRun,
    prim: UplinkPrim,
    call_id: u16,
    cause: DisconnectCause,
)
    requires
        private_call(run, call_id) is Some,
    ensures
        ({
            let released = run.u_release(prim, call_id, cause);
            let disconnected = run.u_disconnect(prim, call_id, cause);
            &&& released == disconnected
            &&& run.swmi is Online ==> released == (CcRun {
                queue: run.queue.push(
                    CcMessage::Swmi(
                        CallMessage::PrivateCallRelease {
                            call_id: call_id as u64,
                            itsi: prim.received.ssi as u64,
                            cause: cause.code(),
                        },
                    ),
                ),
                ..run
            })
            &&& !(run.swmi is Online) ==> private_call(released, call_id) is None
        }),
{
    reveal(CcRun::u_release);
    reveal(CcRun::u_disconnect);
    reveal(CcRun::release_private);
    crate::table::law_lookup_after_del(run.st.private_calls, call_id, call_id);
}

/// A private call that the SwMI refuses is refused to the terminal that asked for
/// it, on its link and with the cause that the SwMI gave, and no longer waits.
pub proof fn law_refused_private_call_is_told(run: CcRun, itsi: u32, cause: u8)
    requires
        crate::table::contains(run.st.pending_private_setups, itsi),
    ensures
        ({
            let after = run.swmi_action(
                CallMessage::CallReject { call_id: 0, itsi: itsi as u64, cause },
            );
            let request = crate::table::lookup(run.st.pending_private_setups, itsi)->0;
            &&& after.queue.len() == run.queue.len() + 1
            &&& crate::cmce::floor_laws::extends(run.queue, after.queue)
            &&& crate::cmce::floor_laws::answers(
                after.queue.last(),
                request.prim,
                DownlinkPdu::DRelease {
                    call_identifier: 0,
                    disconnect_cause: match DisconnectCause::from_code(cause) {
                        Some(known) => known,
                        None => DisconnectCause::RequestedServiceNotAvailable,
                    },
                },
            )
            &&& !crate::table::contains(after.st.pending_private_setups, itsi)
        }),
{
    reveal(CcRun::swmi_action);
    crate::table::law_lookup_after_del(run.st.pending_private_setups, itsi, itsi);
    let after = run.swmi_action(CallMessage::CallReject { call_id: 0, itsi: itsi as u64, cause });
    assert(after == run.call_rejected(itsi, cause));
}

/// A party that the SwMI wants kept in its call is told so on its circuit, and
/// nobody else is.
pub proof fn law_party_is_kept_in_its_call(run: CcRun, call_id: u16, itsi: u32)
    ensures
        ({
            let after = run.swmi_action(
                CallMessage::PrivateCallKeepalive { call_id: call_id as u64, itsi: itsi as u64 },
            );
            match circuit_of(run, call_id, itsi) {
                None => after == run,
                Some(circuit) => {
                    &&& after.queue.len() == run.queue.len() + 1
                    &&& crate::cmce::floor_laws::extends(run.queue, after.queue)
                    &&& after.queue.last() matches CcMessage::Downlink(sent) && {
                        &&& sent.main_address == crate::cmce::floor_laws::terminal(itsi)
                        &&& crate::cmce::floor_laws::is_channel(sent.chan_alloc, None, circuit.ts)
                        &&& sent.pdu matches DownlinkPdu::DInfo {
                            call_identifier,
                            reset_call_time_out_timer,
                            ..
                        } && call_identifier == call_id && reset_call_time_out_timer
                    }
                    &&& after.st == run.st
                },
            }
        }),
{
    reveal(CcRun::swmi_action);
}

/// What became of the circuits that the SwMI wanted for a private call is told to
/// it: for that call and those parties, and as accepted only if every party that
/// wanted one has one.
pub proof fn law_seized_circuits_are_reported(
    run: CcRun,
    call_id: u16,
    caller: u32,
    callee: u32,
    mask: u8,
    duplex: bool,
)
    requires
        !(run.swmi is Absent),
        caller != callee,
    ensures
        ({
            let after = run.swmi_action(
                CallMessage::PrivateCallReserve {
                    call_id: call_id as u64,
                    caller_itsi: caller as u64,
                    callee_itsi: callee as u64,
                    endpoint_mask: mask,
                    duplex,
                },
            );
            after.queue.last() matches CcMessage::Swmi(
                CallMessage::PrivateCallResourceResult { call_id: of, endpoint_mask, accepted },
            ) && {
                &&& of == call_id
                &&& endpoint_mask == mask
                &&& accepted && mask & 1 != 0 ==> circuit_of(after, call_id, caller) is Some
                &&& accepted && mask & 2 != 0 ==> circuit_of(after, call_id, callee) is Some
                &&& accepted ==> private_call(run, call_id) is Some
            }
        }),
{
    reveal(CcRun::swmi_action);
    crate::cmce::cc_laws::law_private_circuits_are_all_or_nothing(
        run,
        call_id,
        caller,
        callee,
        mask,
        duplex,
        CallParty { call_id, issi: caller },
        call_id,
    );
    let (seized, accepted) = run.seize_private(call_id, caller, callee, mask, duplex);
    assert(accepted ==> private_call(run, call_id) is Some) by {
        reveal(CcRun::seize_private);
    }
    assert(seized.swmi == run.swmi) by {
        reveal(CcRun::seize_private);
    }
}

} // verus!
