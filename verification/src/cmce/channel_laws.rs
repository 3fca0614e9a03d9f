//! On which channel a terminal is reached, and what time does to calls.
use crate::cmce::cc_model::{
    ActiveCall, CallOrigin, Candidates, CcRun, CcView, FloorTimer, ListeningCandidate,
    ListeningService, PrivateCallLocal, ReleasingCall, ReleasingPrivateCircuit, RemoteCall,
};
use crate::cmce::circuit::TimeslotOwner;
use crate::cmce::pdu::{
    AssociatedChannel, CallControl, CallParty, CcMessage, CmceCircuit, DisconnectCause,
    DownlinkPdu, HandoverChannelAllocation, Layer2Service, Membership, SetupRequest, SsiType, TetraEntity, TransmissionGrant, USetup,
    UnitdataReq, UplinkPdu, UplinkPrim,
};
use crate::tdma::TdmaTime;
use vstd::prelude::*;

verus! {

// ---------------------------------------------------------------------------
// Uplink
// ---------------------------------------------------------------------------

/// Each uplink PDU starts the procedure that it is named for, with its own call,
/// cause, priority and party; one that cannot be read as a restoration is
/// answered as a failed one.
pub proof fn law_pdus_start_their_procedure(
    run: CcRun,
    prim: UplinkPrim,
    setup: USetup,
    call_id: u16,
    cause: DisconnectCause,
    priority: u8,
    flag: bool,
    party: Option<u32>,
)
    ensures
        run.uplink(prim, UplinkPdu::USetup(setup)) == run.u_setup(
            SetupRequest { prim, pdu: setup },
        ),
        run.uplink(prim, UplinkPdu::UTxCeased { call_identifier: call_id }) == run.u_tx_ceased(
            prim,
            call_id,
        ),
        run.uplink(
            prim,
            UplinkPdu::UTxDemand { call_identifier: call_id, tx_demand_priority: priority },
        ) == run.u_tx_demand(prim, call_id, priority),
        run.uplink(
            prim,
            UplinkPdu::URelease { call_identifier: call_id, disconnect_cause: cause },
        ) == run.u_release(prim, call_id, cause),
        run.uplink(
            prim,
            UplinkPdu::UDisconnect { call_identifier: call_id, disconnect_cause: cause },
        ) == run.u_disconnect(prim, call_id, cause),
        run.uplink(prim, UplinkPdu::UAlert { call_identifier: call_id }) == run.u_alert(
            prim,
            call_id,
        ),
        run.uplink(prim, UplinkPdu::UConnect { call_identifier: call_id }) == run.u_connect(
            prim,
            call_id,
        ),
        run.uplink(prim, UplinkPdu::UInfo { call_identifier: call_id, poll_response: flag })
            == run.u_info(prim, call_id, flag),
        run.uplink(
            prim,
            UplinkPdu::UCallRestore { call_identifier: call_id, other_party_ssi: party },
        ) == run.u_call_restore(prim, call_id, party),
        run.uplink(prim, UplinkPdu::UStatus) == run,
        ({
            let after = run.uplink(prim, UplinkPdu::MalformedUCallRestore);
            &&& after.st == run.st && after.queue.len() == run.queue.len() + 1
            &&& after.queue.last() matches CcMessage::Downlink(sent) && sent.pdu
                == DownlinkPdu::RestoreFailure && sent.main_address
                == crate::cmce::floor_laws::terminal(prim.received.ssi)
        }),
{
    reveal(CcRun::uplink);
}

// ---------------------------------------------------------------------------
// Groups that a terminal receives
// ---------------------------------------------------------------------------

/// Whether a terminal has locked itself to a group.
pub open spec fn locked(st: CcView, issi: u32) -> bool {
    exists|i: int|
        0 <= i < st.class_of_usage.len() && (#[trigger] st.class_of_usage[i]).0.issi == issi
            && st.class_of_usage[i].1 == 6
}

/// A terminal receives the calls of a group by its class of usage: a locked group
/// always, and while one is locked no other; a group that is not for scanning
/// never; a selected one and one that is always scanned always; the others while
/// the terminal scans. A terminal that has said nothing of it scans.
pub proof fn law_groups_that_are_received(st: CcView, issi: u32, gssi: u32)
    ensures
        ({
            let class = crate::table::lookup(st.class_of_usage, Membership { issi, gssi });
            let scans = crate::table::lookup(st.scanning, issi) != Some(false);
            &&& class is None ==> !st.is_receivable(issi, gssi)
            &&& class == Some(6u8) ==> st.is_receivable(issi, gssi)
            &&& class is Some && class->0 != 6 && locked(st, issi) ==> !st.is_receivable(issi, gssi)
            &&& class is Some && class->0 < 2 ==> !st.is_receivable(issi, gssi)
            &&& !locked(st, issi) && (class == Some(4u8) || class == Some(7u8))
                ==> st.is_receivable(issi, gssi)
            &&& !locked(st, issi) && (class == Some(2u8) || class == Some(3u8) || class == Some(5u8))
                ==> st.is_receivable(issi, gssi) == scans
        }),
{
}

/// The scan priority of a group grows with its class of usage from 2 to 5; one that
/// is always scanned has that of class 3, and no other class has one.
pub proof fn law_scan_priorities(st: CcView, issi: u32, gssi: u32)
    ensures
        ({
            let class = crate::table::lookup(st.class_of_usage, Membership { issi, gssi });
            &&& class is Some && 2 <= class->0 <= 5 ==> st.scan_priority(issi, gssi) == class
            &&& class == Some(7u8) ==> st.scan_priority(issi, gssi) == Some(3u8)
            &&& class is None || class->0 < 2 || class->0 == 6 || class->0 > 7
                ==> st.scan_priority(issi, gssi) is None
        }),
{
}

// ---------------------------------------------------------------------------
// Channels
// ---------------------------------------------------------------------------

/// A terminal that is heard in a call is from then on noted first on the channel
/// of that call: its own circuit in a private call, with the other party, and
/// otherwise the channel of the group call. No other terminal is touched, and one
/// heard in no call that is here is not noted.
pub proof fn law_terminal_is_noted_where_it_is_heard(
    run: CcRun,
    issi: u32,
    call_id: u16,
    other: u32,
)
    requires
        other != issi,
    ensures
        ({
            let after = run.record_uplink(issi, call_id);
            let circuit = crate::table::lookup(
                run.st.private_circuits,
                CallParty { call_id, issi },
            );
            let private = crate::table::lookup(run.st.private_calls, call_id);
            let call = crate::table::lookup(run.st.active_calls, call_id);
            &&& after.st.candidates_of(other) == run.st.candidates_of(other)
            &&& after.queue == run.queue
            &&& circuit is None && call is None ==> after == run
            &&& circuit is Some || call is Some ==> (after.st.candidates_of(issi).first matches Some(
                noted,
            ) && {
                &&& noted.call_id == call_id
                &&& noted.confirmed
                &&& noted.last_seen == run.st.dltime
                &&& circuit is Some ==> noted.timeslot == circuit->0.ts && noted.usage
                    == circuit->0.usage
                &&& circuit is Some && private is Some ==> noted.service
                    == ListeningService::Private {
                    peer_issi: if private->0.caller_itsi == issi {
                        private->0.callee_itsi
                    } else {
                        private->0.caller_itsi
                    },
                }
                &&& circuit is None ==> noted.timeslot == call->0.ts && noted.usage == call->0.usage
                    && noted.service == ListeningService::Group { gssi: call->0.dest_gssi }
            })
        }),
{
    reveal(CcRun::record_uplink);
    let after = run.record_uplink(issi, call_id);
    if after != run {
        assert forall|noted: ListeningCandidate| #[trigger] run.record(issi, noted) == after implies {
            &&& after.st.candidates_of(issi).first == Some(noted)
            &&& after.st.candidates_of(other) == run.st.candidates_of(other)
        } by {
            let value = crate::cmce::cc_model::pushed(run.st.candidates_of(issi), noted);
            crate::table::law_lookup_after_put(run.st.candidates, issi, value, issi);
            crate::table::law_lookup_after_put(run.st.candidates, issi, value, other);
        }
    } else {
        if let Some(circuit) = crate::table::lookup(
            run.st.private_circuits,
            CallParty { call_id, issi },
        ) {
            let noted = ListeningCandidate {
                call_id,
                timeslot: circuit.ts,
                usage: circuit.usage,
                service: ListeningService::Private {
                    peer_issi: match crate::table::lookup(run.st.private_calls, call_id) {
                        Some(call) => crate::cmce::cc_model::peer_of(call, issi),
                        None => 0,
                    },
                },
                last_seen: run.st.dltime,
                confirmed: true,
            };
            let value = crate::cmce::cc_model::pushed(run.st.candidates_of(issi), noted);
            crate::table::law_lookup_after_put(run.st.candidates, issi, value, issi);
        } else if let Some(call) = crate::table::lookup(run.st.active_calls, call_id) {
            let noted = run.st.group_candidate(call_id, call, true);
            let value = crate::cmce::cc_model::pushed(run.st.candidates_of(issi), noted);
            crate::table::law_lookup_after_put(run.st.candidates, issi, value, issi);
        }
    }
}

/// An answer to a late-entry poll notes the terminal on the channel of the call,
/// if the call is one that is acknowledged; nothing else about a call is changed
/// by it.
pub proof fn law_poll_answer_is_noted(run: CcRun, prim: UplinkPrim, call_id: u16, answered: bool)
    ensures
        ({
            let after = run.u_info(prim, call_id, answered);
            let call = crate::table::lookup(run.st.active_calls, call_id);
            let notes = answered && call is Some && call->0.acknowledged;
            &&& after.queue == run.queue && after.st.active_calls == run.st.active_calls
            &&& !notes ==> after == run
            &&& notes ==> (after.st.candidates_of(prim.received.ssi).first matches Some(noted)
                && noted.call_id == call_id && noted.timeslot == call->0.ts && noted.usage
                == call->0.usage && noted.confirmed && noted.service == ListeningService::Group {
                gssi: call->0.dest_gssi,
            })
        }),
{
    reveal(CcRun::u_info);
    if let Some(call) = crate::table::lookup(run.st.active_calls, call_id) {
        let issi = prim.received.ssi;
        let noted = run.st.group_candidate(call_id, call, true);
        let value = crate::cmce::cc_model::pushed(run.st.candidates_of(issi), noted);
        crate::table::law_lookup_after_put(run.st.candidates, issi, value, issi);
    }
}

/// Whether the circuit of a noted channel is still there.
pub open spec fn is_live(st: CcView, noted: ListeningCandidate) -> bool {
    match noted.service {
        ListeningService::Group { .. } => {
            let call = crate::table::lookup(st.active_calls, noted.call_id);
            call is Some && call->0.ts == noted.timeslot && call->0.usage == noted.usage
        },
        ListeningService::Private { .. } => exists|i: int|
            0 <= i < st.private_circuits.len() && (#[trigger] st.private_circuits[i]).1.call_id
                == noted.call_id && st.private_circuits[i].1.ts == noted.timeslot
                && st.private_circuits[i].1.usage == noted.usage,
    }
}

/// How much a noted channel weighs: a private call more than any group, a group by
/// its scan priority, and of two alike the one on which the terminal was heard.
pub open spec fn weight(st: CcView, issi: u32, noted: ListeningCandidate) -> int {
    let priority: int = match noted.service {
        ListeningService::Private { .. } => 255,
        ListeningService::Group { gssi } => match st.scan_priority(issi, gssi) {
            Some(priority) => priority as int,
            None => 0,
        },
    };
    2 * priority + if noted.confirmed {
        1int
    } else {
        0
    }
}

/// Whether a channel is one that was noted.
pub open spec fn is_noted(held: Candidates, noted: ListeningCandidate) -> bool {
    held.first == Some(noted) || held.second == Some(noted) || held.third == Some(noted)
}

/// A terminal that is in no private call is reached on the weightiest of its noted
/// channels that are still there, and on the control channel only if none is.
pub proof fn law_terminal_is_reached_on_its_weightiest_channel(
    st: CcView,
    issi: u32,
    noted: ListeningCandidate,
)
    requires
        !st.in_private_call(issi),
        is_noted(st.candidates_of(issi), noted),
        is_live(st, noted),
    ensures
        st.preferred_channel(issi) matches Some(channel) && exists|best: ListeningCandidate|
            {
                &&& #[trigger] is_noted(st.candidates_of(issi), best)
                &&& is_live(st, best)
                &&& weight(st, issi, noted) <= weight(st, issi, best)
                &&& channel.call_id == best.call_id && channel.timeslot == best.timeslot
                    && channel.usage == best.usage
            },
{
    reveal(CcView::preferred_channel);
    let held = st.candidates_of(issi);
    assert forall|c: ListeningCandidate| is_noted(held, c) implies (#[trigger] is_live(st, c)
        <==> st.live_channel(c) is Some) by {}
    let best = crate::cmce::cc_model::higher(
        crate::cmce::cc_model::higher(st.ranked(issi, held.first), st.ranked(issi, held.second)),
        st.ranked(issi, held.third),
    );
    assert(best is Some);
    if best == st.ranked(issi, held.first) {
        assert(is_noted(held, held.first->0));
    } else if best == st.ranked(issi, held.second) {
        assert(is_noted(held, held.second->0));
    } else {
        assert(is_noted(held, held.third->0));
    }
}

/// A terminal in a connected private call is reached on its circuit in a connected
/// private call.
pub proof fn law_party_is_reached_on_its_circuit(st: CcView, issi: u32)
    requires
        st.in_private_call(issi),
        crate::table::distinct(st.private_calls),
    ensures
        st.preferred_channel(issi) matches Some(channel) && exists|i: int|
            0 <= i < st.private_circuits.len() && (#[trigger] st.private_circuits[i]).0.issi == issi
                && connected(st, st.private_circuits[i].0.call_id) && channel.timeslot
                == st.private_circuits[i].1.ts && channel.usage == st.private_circuits[i].1.usage
                && channel.call_id == st.private_circuits[i].1.call_id,
{
    reveal(CcView::preferred_channel);
    let n = choose|n: int| #[trigger] st.private_call_holds(issi, n);
    let call_id = st.private_calls[n].0;
    lemma_first_circuit(st, issi, 0);
    let party = CallParty { call_id, issi };
    let m = crate::table::lemma_entry_of_lookup(st.private_circuits, party);
    crate::table::lemma_lookup_of_entry(st.private_calls, n);
}

/// Whether a private call is connected.
pub open spec fn connected(st: CcView, call_id: u16) -> bool {
    crate::table::lookup(st.private_calls, call_id) is Some && crate::table::lookup(
        st.private_calls,
        call_id,
    )->0.connected
}

proof fn lemma_first_circuit(st: CcView, issi: u32, from: int)
    requires
        0 <= from,
    ensures
        match st.first_private_channel(issi, from) {
            Some(channel) => exists|i: int|
                from <= i < st.private_circuits.len() && (#[trigger] st.private_circuits[i]).0.issi
                    == issi && connected(st, st.private_circuits[i].0.call_id)
                    && channel.timeslot == st.private_circuits[i].1.ts && channel.usage
                    == st.private_circuits[i].1.usage && channel.call_id
                    == st.private_circuits[i].1.call_id,
            None => forall|i: int|
                from <= i < st.private_circuits.len() ==> !((#[trigger] st.private_circuits[i]).0.issi
                    == issi && connected(st, st.private_circuits[i].0.call_id)),
        },
    decreases st.private_circuits.len() - from,
{
    if from < st.private_circuits.len() {
        lemma_first_circuit(st, issi, from + 1);
        let entry = st.private_circuits[from];
    }
}

/// A downlink PDU goes out as call control made it, and where it names no channel,
/// on the channel on which its terminal is reached; the first answer to a set-up
/// stays on the control channel, and of what goes to a group only short data is
/// sent on the channel of the group's call. Other messages are not touched.
pub proof fn law_messages_go_where_they_are_heard(st: CcView, request: UnitdataReq)
    ensures
        st.decorated(CcMessage::Downlink(request)) matches CcMessage::Downlink(sent) && {
            let placed = request.associated_channel is Some || request.stealing_permission
                || request.chan_alloc is Some;
            let to = request.main_address;
            &&& sent == (UnitdataReq { associated_channel: sent.associated_channel, ..request })
            &&& placed ==> sent == request
            &&& !placed && to.ssi_type == SsiType::Issi && !(request.pdu is DCallProceeding)
                ==> sent.associated_channel == st.preferred_channel(to.ssi)
            &&& request.pdu is DCallProceeding ==> sent.associated_channel
                == request.associated_channel
            &&& !placed && to.ssi_type == SsiType::Gssi && !(request.pdu is DSdsData)
                ==> sent.associated_channel is None
            &&& !placed && to.ssi_type == SsiType::Gssi && request.pdu is DSdsData ==> {
                let call = crate::cmce::cc_procedures::call_of_group(st.active_calls, to.ssi);
                &&& sent.associated_channel is Some <==> call is Some
                &&& call is Some ==> sent.associated_channel == Some(
                    AssociatedChannel {
                        call_id: (call->0).0,
                        timeslot: (call->0).1.ts,
                        usage: (call->0).1.usage,
                    },
                )
            }
        },
{
}

/// A terminal on the channel of a group is called away from it only for a group
/// that it receives and that has a higher scan priority, and never out of a
/// private call.
pub proof fn law_terminals_leave_for_more_important_groups(st: CcView, issi: u32, gssi: u32)
    ensures
        st.leaving_channel(issi, gssi) matches Some(channel) ==> {
            &&& st.is_receivable(issi, gssi)
            &&& !st.in_private_call(issi)
            &&& exists|noted: ListeningCandidate| #[trigger]
                is_noted(st.candidates_of(issi), noted) && is_live(st, noted) && channel.call_id
                    == noted.call_id && channel.timeslot == noted.timeslot && channel.usage
                    == noted.usage && (noted.service matches ListeningService::Group { gssi: current }
                    && st.scan_priority(issi, gssi)->0 > st.scan_priority(issi, current)->0)
        },
{
    if st.leaving_channel(issi, gssi) is Some {
        let held = st.candidates_of(issi);
        let current = crate::cmce::cc_model::first_group_candidate(held)->0;
        assert(is_noted(held, current));
        assert(is_live(st, current));
    }
}

// ---------------------------------------------------------------------------
// Time
// ---------------------------------------------------------------------------

/// A grant that has waited for an interruption is made when it is due, and not
/// before: the terminal has the floor, it is told so if it is here, and the group
/// is told who speaks.
pub proof fn law_waiting_grant_is_made_when_due(
    run: CcRun,
    timers: Seq<(u16, FloorTimer)>,
    call_id: u16,
    timer: FloorTimer,
)
    ensures
        ({
            let before = run.due_grants(timers);
            let after = run.due_grants(timers.push((call_id, timer)));
            let call = crate::table::lookup(before.st.active_calls, call_id);
            let n = before.queue.len() as int;
            let here = crate::table::contains(before.st.known, timer.itsi);
            &&& run.st.dltime.since(timer.due) < 0 ==> after == before
            &&& run.st.dltime.since(timer.due) >= 0 ==> {
                &&& crate::cmce::floor_laws::extends(before.queue, after.queue)
                &&& crate::table::lookup(after.st.pending_grants, call_id) is None
                &&& call is Some ==> {
                    &&& crate::table::lookup(after.st.active_calls, call_id) matches Some(now)
                        && now.source_issi == timer.itsi && now.tx_active && now.hangtime_start
                        is None && now.ts == call->0.ts
                    &&& here ==> crate::cmce::floor_laws::tells_speaker(
                        after.queue[n],
                        crate::cmce::floor_laws::terminal(timer.itsi),
                        call_id,
                        timer.itsi,
                        TransmissionGrant::Granted,
                        call->0.ts,
                    )
                    &&& crate::cmce::floor_laws::tells_speaker(
                        after.queue[if here {
                            n + 1
                        } else {
                            n
                        }],
                        crate::cmce::floor_laws::group(call->0.dest_gssi),
                        call_id,
                        timer.itsi,
                        TransmissionGrant::GrantedToOtherUser,
                        call->0.ts,
                    )
                }
            }
        }),
{
    reveal(CcRun::central_grant);
    let all = timers.push((call_id, timer));
    assert(all.drop_last() =~= timers);
    let before = run.due_grants(timers);
    crate::table::law_lookup_after_del(before.st.pending_grants, call_id, call_id);
    if let Some(call) = crate::table::lookup(before.st.active_calls, call_id) {
        crate::table::law_lookup_after_put(
            before.st.active_calls,
            call_id,
            ActiveCall {
                source_issi: timer.itsi,
                tx_active: true,
                hangtime_start: None,
                ..call
            },
            call_id,
        );
    }
}

/// A party whose floor request the SwMI has not decided on in time is told, on its
/// circuit, that the request is queued, and the request waits no longer.
pub proof fn law_undecided_floor_request_is_queued(
    run: CcRun,
    timers: Seq<(CallParty, TdmaTime)>,
    party: CallParty,
    due: TdmaTime,
)
    ensures
        ({
            let before = run.due_private_floors(timers);
            let after = run.due_private_floors(timers.push((party, due)));
            let call = crate::table::lookup(before.st.private_calls, party.call_id);
            let circuit = crate::table::lookup(before.st.private_circuits, party);
            let told = call is Some && circuit is Some && call->0.connected && !call->0.duplex;
            &&& run.st.dltime.since(due) < 0 ==> after == before
            &&& run.st.dltime.since(due) >= 0 ==> {
                &&& crate::table::lookup(after.st.pending_private_floors, party) is None
                &&& !told ==> after.queue == before.queue
                &&& told ==> after.queue.len() == before.queue.len() + 1
                    && crate::cmce::floor_laws::extends(before.queue, after.queue)
                    && crate::cmce::floor_laws::tells_speaker(
                    after.queue.last(),
                    crate::cmce::floor_laws::terminal(party.issi),
                    party.call_id,
                    party.issi,
                    TransmissionGrant::RequestQueued,
                    circuit->0.ts,
                )
            }
        }),
{
    let all = timers.push((party, due));
    assert(all.drop_last() =~= timers);
    let before = run.due_private_floors(timers);
    crate::table::law_lookup_after_del(before.st.pending_private_floors, party, party);
}

/// A terminal that has restored a group call is told who speaks when that is due:
/// that it does itself, to itself on the traffic channel; that another does, to the
/// group beside the traffic. Where that speaker no longer speaks nothing is told.
pub proof fn law_speaker_is_named_after_a_restoration(
    run: CcRun,
    timers: Seq<(CallParty, FloorTimer)>,
    party: CallParty,
    timer: FloorTimer,
)
    ensures
        ({
            let before = run.due_restore_floors(timers);
            let after = run.due_restore_floors(timers.push((party, timer)));
            let call = crate::table::lookup(before.st.active_calls, party.call_id);
            let speaks = call is Some && call->0.tx_active && call->0.source_issi == timer.itsi;
            &&& run.st.dltime.since(timer.due) < 0 ==> after == before
            &&& run.st.dltime.since(timer.due) >= 0 ==> {
                &&& crate::table::lookup(after.st.pending_restore_floors, party) is None
                &&& !speaks ==> after.queue == before.queue
                &&& speaks ==> after.queue.len() == before.queue.len() + 1
                    && crate::cmce::floor_laws::extends(before.queue, after.queue)
                &&& speaks && timer.itsi == party.issi ==> crate::cmce::floor_laws::tells_speaker(
                    after.queue.last(),
                    crate::cmce::floor_laws::terminal(party.issi),
                    party.call_id,
                    party.issi,
                    TransmissionGrant::Granted,
                    call->0.ts,
                )
                &&& speaks && timer.itsi != party.issi ==> (after.queue.last() matches CcMessage::Downlink(
                    sent,
                ) && {
                    &&& sent.main_address == crate::cmce::floor_laws::group(call->0.dest_gssi)
                    &&& !sent.stealing_permission && sent.chan_alloc is None
                    &&& sent.associated_channel == Some(
                        AssociatedChannel {
                            call_id: party.call_id,
                            timeslot: call->0.ts,
                            usage: call->0.usage,
                        },
                    )
                    &&& sent.pdu matches DownlinkPdu::DTxGranted {
                        call_identifier,
                        transmission_grant,
                        transmitting_party_ssi,
                        ..
                    } && call_identifier == party.call_id && transmission_grant
                        == TransmissionGrant::GrantedToOtherUser && transmitting_party_ssi
                        == timer.itsi
                })
            }
        }),
{
    let all = timers.push((party, timer));
    assert(all.drop_last() =~= timers);
    let before = run.due_restore_floors(timers);
    crate::table::law_lookup_after_del(before.st.pending_restore_floors, party, party);
}

/// A circuit that has timed out is closed: its group is told that the call ends
/// because its time is over, the call and its set-up are gone, the MAC closes the
/// circuit and its timeslot is free. The circuit of a private call stays.
pub proof fn law_timed_out_circuit_is_closed(run: CcRun, call_id: u16, circuit: CmceCircuit)
    requires
        run.slots.owner(circuit.ts) == Some(TimeslotOwner::Cmce),
    ensures
        ({
            let after = run.close_timed_out(call_id, circuit);
            let cached = crate::table::lookup(run.st.cached_setups, call_id);
            let n = run.queue.len() as int;
            &&& run.is_private_circuit(call_id, circuit.ts) ==> after == run
            &&& !run.is_private_circuit(call_id, circuit.ts) ==> {
                &&& crate::cmce::floor_laws::extends(run.queue, after.queue)
                &&& after.queue.len() == n + if cached is Some {
                    2int
                } else {
                    1
                }
                &&& cached is Some ==> crate::cmce::group_call_laws::releases(
                    after.queue[n],
                    cached->0.dest,
                    cached->0.setup.call_identifier,
                    DisconnectCause::ExpiryOfTimer,
                )
                &&& cached is Some ==> (after.queue[n] matches CcMessage::Downlink(sent)
                    && sent.layer2service == Layer2Service::Unacknowledged)
                &&& after.queue.last() == CcMessage::Control(
                    TetraEntity::Umac,
                    CallControl::Close(circuit.direction, circuit.ts),
                )
                &&& crate::table::lookup(after.st.active_calls, call_id) is None
                &&& crate::table::lookup(after.st.cached_setups, call_id) is None
                &&& crate::table::lookup(after.st.circuits.circuits, circuit.ts) is None
                &&& after.slots.owner(circuit.ts) is None
            }
        }),
{
    reveal(CcRun::close_timed_out);
    crate::table::law_lookup_after_del(run.st.active_calls, call_id, call_id);
    crate::table::law_lookup_after_del(run.st.cached_setups, call_id, call_id);
    crate::table::law_lookup_after_del(run.st.circuits.circuits, circuit.ts, circuit.ts);
}

/// A released group call waits under its own identifier, timeslot, group and
/// session until its release has been transmitted, and ends as that call.
pub proof fn law_released_call_ends_as_itself(
    run: CcRun,
    call_id: u16,
    cause: DisconnectCause,
    calls: Seq<ReleasingCall>,
    releasing: ReleasingCall,
)
    requires
        crate::table::contains(run.st.active_calls, call_id),
        crate::table::contains(run.st.cached_setups, call_id),
    ensures
        ({
            let after = run.release_call(call_id, cause);
            let call = crate::table::lookup(run.st.active_calls, call_id)->0;
            let waiting = after.st.releasing_calls.last();
            &&& after.st.releasing_calls.len() == run.st.releasing_calls.len() + 1
            &&& waiting.call_id == call_id && waiting.ts == call.ts && waiting.dest_gssi
                == call.dest_gssi && waiting.sent_at == run.st.dltime
            &&& waiting.is_local <==> call.origin is Local
            &&& call.brew_uuid is Some ==> waiting.brew_uuid == call.brew_uuid
            &&& call.brew_uuid is None ==> match call.origin {
                CallOrigin::Network { brew_uuid } => waiting.brew_uuid == Some(brew_uuid),
                _ => waiting.brew_uuid is None,
            }
        }),
        ({
            let before = run.finalize_each(calls);
            let after = run.finalize_each(calls.push(releasing));
            &&& run.st.dltime.since(releasing.sent_at) < 72 ==> after == before
            &&& run.st.dltime.since(releasing.sent_at) >= 72 ==> after == before.finalize_release(
                releasing.call_id,
                releasing.ts,
                releasing.dest_gssi,
                releasing.is_local,
                releasing.brew_uuid,
            )
        }),
{
    reveal(CcRun::release_call);
    assert(calls.push(releasing).drop_last() =~= calls);
}

/// Brew is told of the end of a call whose group it carries: that the call has
/// ended if it is one of this cell, and that its session has if it has one. It is
/// told nothing of other groups.
pub proof fn law_brew_is_told_of_ended_calls(
    run: CcRun,
    call_id: u16,
    ts: u8,
    gssi: u32,
    is_local: bool,
    uuid: Option<u128>,
    i: int,
)
    requires
        run.queue.len() <= i < run.finalize_release(call_id, ts, gssi, is_local, uuid).queue.len(),
    ensures
        ({
            let after = run.finalize_release(call_id, ts, gssi, is_local, uuid);
            let carried = crate::cmce::cc_model::brew_carries(run.brew, gssi);
            &&& after.queue[i] matches CcMessage::Control(TetraEntity::Brew, told) ==> carried && (
            (is_local && told == CallControl::CallEnded { call_id, ts }) || (uuid is Some && told
                == CallControl::NetworkCallEnd { brew_uuid: uuid->0 }))
            &&& carried && uuid is Some ==> after.queue.last() == CcMessage::Control(
                TetraEntity::Brew,
                CallControl::NetworkCallEnd { brew_uuid: uuid->0 },
            )
            &&& carried && is_local && uuid is None ==> after.queue.last() == CcMessage::Control(
                TetraEntity::Brew,
                CallControl::CallEnded { call_id, ts },
            )
        }),
{
    reveal(CcRun::finalize_release);
}

/// The circuit of a party whose release has been transmitted is closed at the MAC,
/// its timeslot is free, and the media on it stop.
pub proof fn law_released_circuit_is_closed(
    run: CcRun,
    circuits: Seq<ReleasingPrivateCircuit>,
    released: ReleasingPrivateCircuit,
)
    ensures
        ({
            let before = run.close_each(circuits);
            let after = run.close_each(circuits.push(released));
            let n = before.queue.len() as int;
            let stop = CallControl::PrivateMediaStop {
                call_id: released.call_id,
                ts: released.circuit.ts,
            };
            &&& run.st.dltime.since(released.sent_at) < 72 ==> after == before
            &&& run.st.dltime.since(released.sent_at) >= 72 ==> {
                &&& crate::cmce::floor_laws::extends(before.queue, after.queue)
                &&& after.queue.len() == n + 3
                &&& after.queue[n] == CcMessage::Control(
                    TetraEntity::Umac,
                    CallControl::Close(released.circuit.direction, released.circuit.ts),
                )
                &&& after.queue[n + 1] == CcMessage::Control(TetraEntity::Swmi, stop)
                &&& after.queue[n + 2] == CcMessage::Control(TetraEntity::Umac, stop)
                &&& before.slots.owner(released.circuit.ts) == Some(TimeslotOwner::Cmce)
                    ==> after.slots.owner(released.circuit.ts) is None
                &&& crate::table::lookup(after.st.circuits.circuits, released.circuit.ts) is None
            }
        }),
{
    assert(circuits.push(released).drop_last() =~= circuits);
    let before = run.close_each(circuits);
    crate::table::law_lookup_after_del(
        before.st.circuits.circuits,
        released.circuit.ts,
        released.circuit.ts,
    );
}

/// When nobody listens to a group any more each of its calls is released, and Brew
/// is told of the end of a session of its own.
pub proof fn law_unlistened_call_is_released(
    run: CcRun,
    calls: Seq<(u16, ActiveCall)>,
    call_id: u16,
    call: ActiveCall,
    gssi: u32,
)
    ensures
        ({
            let before = run.drop_each(calls, gssi);
            let after = run.drop_each(calls.push((call_id, call)), gssi);
            let carried = crate::cmce::cc_model::brew_carries(run.brew, gssi);
            &&& call.dest_gssi != gssi ==> after == before
            &&& call.dest_gssi == gssi && !(call.origin is Network && carried) ==> after
                == before.release_call(call_id, DisconnectCause::SwmiRequestedDisconnection)
            &&& call.dest_gssi == gssi && carried ==> (call.origin matches CallOrigin::Network {
                brew_uuid,
            } ==> after == (CcRun {
                queue: before.queue.push(
                    CcMessage::Control(
                        TetraEntity::Brew,
                        CallControl::NetworkCallEnd { brew_uuid },
                    ),
                ),
                ..before
            }).release_call(call_id, DisconnectCause::SwmiRequestedDisconnection))
        }),
{
    assert(calls.push((call_id, call)).drop_last() =~= calls);
}

/// A call whose hangtime is over is released because its time is over; others stay.
pub proof fn law_silent_call_expires(
    run: CcRun,
    calls: Seq<(u16, ActiveCall)>,
    call_id: u16,
    call: ActiveCall,
)
    ensures
        ({
            let before = run.expire_each(calls);
            let after = run.expire_each(calls.push((call_id, call)));
            let over = call.hangtime_start is Some && run.st.dltime.since(call.hangtime_start->0)
                > 360 && !(run.swmi is Online && call.origin is Swmi);
            after == if over {
                before.release_call(call_id, DisconnectCause::ExpiryOfTimer)
            } else {
                before
            }
        }),
{
    assert(calls.push((call_id, call)).drop_last() =~= calls);
}

/// The decisions of the SwMI are carried out before what is due at the slot.
pub proof fn law_decisions_come_before_timers(
    run: CcRun,
    now: TdmaTime,
    actions: Seq<crate::cmce::pdu::CallMessage>,
    action: crate::cmce::pdu::CallMessage,
)
    ensures
        run.swmi_actions(actions.push(action)) == run.swmi_actions(actions).swmi_action(action),
        run.tick(now, actions) == run.at(now).swmi_actions(actions).tick(now, Seq::empty())
            || run.at(now).swmi_actions(actions).st.dltime != now,
        run.at(now).st.dltime == now,
{
    reveal(CcRun::tick);
    assert(actions.push(action).drop_last() =~= actions);
    let acted = run.at(now).swmi_actions(actions);
    if acted.st.dltime == now {
        assert(acted.at(now) == acted);
    }
}

// ---------------------------------------------------------------------------
// Parties of private calls that move
// ---------------------------------------------------------------------------

proof fn lemma_kept(
    circuits: Seq<(CallParty, CmceCircuit)>,
    party: CallParty,
    index: int,
)
    requires
        0 <= index < crate::table::del(circuits, party).len(),
    ensures
        crate::table::del(circuits, party)[index].0 != party,
        exists|i: int|
            0 <= i < circuits.len() && #[trigger] circuits[i] == crate::table::del(
                circuits,
                party,
            )[index],
    decreases circuits.len(),
{
    reveal(Seq::filter);
    let rest = circuits.drop_last();
    let fewer = crate::table::del(rest, party);
    if index < fewer.len() {
        lemma_kept(rest, party, index);
        let i = choose|i: int| 0 <= i < rest.len() && #[trigger] rest[i] == fewer[index];
        assert(circuits[i] == fewer[index]);
    } else {
        assert(circuits[circuits.len() - 1] == crate::table::del(circuits, party)[index]);
    }
}

/// When one of the two parties of a private call in this cell moves away, the call
/// goes on with the other one here: the circuit of the party that left is closed
/// and its timeslot is free, and the media of the other go through the SwMI to the
/// party that left.
pub proof fn law_remaining_party_is_bridged(
    run: CcRun,
    call_id: u16,
    call: PrivateCallLocal,
    leaving: CmceCircuit,
    staying: CmceCircuit,
    caller_leaves: bool,
)
    requires
        crate::table::lookup(run.st.private_calls, call_id) == Some(call),
        call.local_mask == 3,
        call.caller_itsi != call.callee_itsi,
        crate::table::lookup(
            run.st.private_circuits,
            CallParty {
                call_id,
                issi: if caller_leaves {
                    call.caller_itsi
                } else {
                    call.callee_itsi
                },
            },
        ) == Some(leaving),
        crate::table::lookup(
            run.st.private_circuits,
            CallParty {
                call_id,
                issi: if caller_leaves {
                    call.callee_itsi
                } else {
                    call.caller_itsi
                },
            },
        ) == Some(staying),
        run.slots.owner(leaving.ts) == Some(TimeslotOwner::Cmce),
        forall|i: int|
            0 <= i < run.st.private_circuits.len() && (
            #[trigger] run.st.private_circuits[i]).1.call_id == call_id
                && run.st.private_circuits[i].1.ts == leaving.ts ==> run.st.private_circuits[i].0
                == (CallParty {
                call_id,
                issi: if caller_leaves {
                    call.caller_itsi
                } else {
                    call.callee_itsi
                },
            }),
    ensures
        ({
            let (gone, here) = if caller_leaves {
                (call.caller_itsi, call.callee_itsi)
            } else {
                (call.callee_itsi, call.caller_itsi)
            };
            let after = run.detach_party(call_id, gone);
            let n = run.queue.len() as int;
            let stop = CallControl::PrivateMediaStop { call_id, ts: leaving.ts };
            let start = CallControl::PrivateMediaStart {
                call_id,
                source_issi: here,
                destination_issi: gone,
                ts: staying.ts,
            };
            &&& crate::cmce::floor_laws::extends(run.queue, after.queue)
            &&& after.queue.len() == n + 5
            &&& after.queue[n] == CcMessage::Control(
                TetraEntity::Umac,
                CallControl::Close(leaving.direction, leaving.ts),
            )
            &&& after.queue[n + 1] == CcMessage::Control(TetraEntity::Swmi, stop)
            &&& after.queue[n + 2] == CcMessage::Control(TetraEntity::Umac, stop)
            &&& after.queue[n + 3] == CcMessage::Control(TetraEntity::Swmi, start)
            &&& after.queue[n + 4] == CcMessage::Control(TetraEntity::Umac, start)
            &&& after.slots.owner(leaving.ts) is None
            &&& crate::table::lookup(after.st.private_calls, call_id) matches Some(left)
                && left.local_mask == if caller_leaves {
                2u8
            } else {
                1u8
            } && left.floor_itsi == call.floor_itsi && left.connected == call.connected
        }),
{
    reveal(CcRun::detach_party);
    let (gone, here) = if caller_leaves {
        (call.caller_itsi, call.callee_itsi)
    } else {
        (call.callee_itsi, call.caller_itsi)
    };
    let party = CallParty { call_id, issi: gone };
    let other = CallParty { call_id, issi: here };
    assert(3u8 & 1u8 == 1u8 && 3u8 & 2u8 == 2u8 && 3u8 & !1u8 == 2u8 && 3u8 & !2u8 == 1u8 && 2u8
        & 1u8 == 0u8 && 2u8 & 2u8 == 2u8 && 1u8 & 1u8 == 1u8 && 1u8 & 2u8 == 0u8) by (bit_vector);
    let fewer = crate::table::del(run.st.private_circuits, party);
    crate::table::law_lookup_after_del(run.st.private_circuits, party, party);
    crate::table::law_lookup_after_del(run.st.private_circuits, party, other);
    let remaining = PrivateCallLocal {
        local_mask: if caller_leaves {
            2
        } else {
            1
        },
        ..call
    };
    crate::table::law_lookup_after_put(run.st.private_calls, call_id, remaining, call_id);
    assert forall|i: int|
        0 <= i < fewer.len() && (#[trigger] fewer[i]).1.call_id == call_id implies fewer[i].1.ts
        != leaving.ts by {
        lemma_kept(run.st.private_circuits, party, i);
    }
}

/// What the MAC is told of a restored private call: in a duplex call that it is in
/// use; in a simplex call who has the floor, or that nobody has it.
pub proof fn law_restored_floor_is_told(
    run: CcRun,
    call_id: u16,
    call: PrivateCallLocal,
    circuit: CmceCircuit,
)
    requires
        run.party_circuit(call_id, call.caller_itsi) == Some(circuit),
        run.party_circuit(call_id, call.callee_itsi) is None,
    ensures
        ({
            let after = run.restore_floors(call_id, call);
            let ts = circuit.ts;
            &&& after.st == run.st && after.queue.len() == run.queue.len() + 1
            &&& crate::cmce::floor_laws::extends(run.queue, after.queue)
            &&& after.queue.last() matches CcMessage::Control(TetraEntity::Umac, told) && {
                &&& call.duplex ==> told == CallControl::PrivateCallTrafficActive { call_id, ts }
                &&& !call.duplex && call.floor_itsi == 0 ==> told == CallControl::FloorReleased {
                    call_id,
                    ts,
                }
                &&& !call.duplex && call.floor_itsi != 0 ==> told == CallControl::FloorGranted {
                    call_id,
                    source_issi: call.floor_itsi,
                    dest_gssi: 0,
                    ts,
                }
            }
        }),
{
}

// ---------------------------------------------------------------------------
// What is left alone
// ---------------------------------------------------------------------------

/// What becomes of a private call touches nothing but that call: its circuits, its
/// floor requests and where its parties were heard.
pub proof fn law_private_calls_touch_nothing_else(
    run: CcRun,
    call_id: u16,
    itsi: u32,
    cause: DisconnectCause,
)
    ensures
        ({
            let after = run.release_private(call_id, cause);
            &&& after.slots == run.slots
            &&& after.st == (CcView {
                private_calls: after.st.private_calls,
                private_circuits: after.st.private_circuits,
                pending_private_floors: after.st.pending_private_floors,
                releasing_private: after.st.releasing_private,
                ..run.st
            })
        }),
        ({
            let after = run.private_connected(call_id, itsi);
            &&& after.slots == run.slots
            &&& after.st == (CcView {
                private_calls: after.st.private_calls,
                candidates: after.st.candidates,
                ..run.st
            })
        }),
        ({
            let after = run.private_floor_granted(call_id, itsi);
            &&& after.slots == run.slots
            &&& after.st == (CcView {
                private_calls: after.st.private_calls,
                pending_private_floors: after.st.pending_private_floors,
                ..run.st
            })
        }),
        ({
            let after = run.private_floor_released(call_id);
            &&& after.slots == run.slots
            &&& after.st == (CcView { private_calls: after.st.private_calls, ..run.st })
        }),
        run.private_alerted(call_id).st == run.st,
        run.private_keepalive(call_id, itsi).st == run.st,
{
    reveal(CcRun::release_private);
    reveal(CcRun::private_connected);
    reveal(CcRun::private_floor_granted);
    reveal(CcRun::private_floor_released);
    reveal(CcRun::record_uplink);
}

/// What becomes of the floor of a group call touches nothing but that call, the
/// grants that wait, where the speaker was heard and the numbers of commands; the
/// end of a call takes its set-up with it, and a call whose end was announced
/// keeps its timeslot.
pub proof fn law_group_calls_touch_nothing_else(
    run: CcRun,
    prim: UplinkPrim,
    call_id: u16,
    itsi: u32,
    next: u32,
    cause: DisconnectCause,
)
    ensures
        ({
            let after = run.cease_locally(call_id);
            after.slots == run.slots && after.st == (CcView {
                active_calls: after.st.active_calls,
                ..run.st
            })
        }),
        ({
            let after = run.demand_locally(prim, call_id);
            after.slots == run.slots && after.st == (CcView {
                active_calls: after.st.active_calls,
                ..run.st
            })
        }),
        ({
            let after = run.floor_granted(call_id, itsi);
            after.slots == run.slots && after.st == (CcView {
                active_calls: after.st.active_calls,
                ..run.st
            })
        }),
        ({
            let after = run.floor_released(call_id);
            after.slots == run.slots && after.st == (CcView {
                active_calls: after.st.active_calls,
                pending_grants: after.st.pending_grants,
                ..run.st
            })
        }),
        ({
            let after = run.floor_preempted(call_id, itsi, next);
            after.slots == run.slots && after.st == (CcView {
                active_calls: after.st.active_calls,
                pending_grants: after.st.pending_grants,
                ..run.st
            })
        }),
        ({
            let after = run.release_call(call_id, cause);
            &&& crate::table::contains(run.st.cached_setups, call_id) ==> after.slots == run.slots
            &&& after.st == (CcView {
                active_calls: after.st.active_calls,
                cached_setups: after.st.cached_setups,
                pending_grants: after.st.pending_grants,
                restore_prepared: after.st.restore_prepared,
                pending_restore_floors: after.st.pending_restore_floors,
                releasing_calls: after.st.releasing_calls,
                circuits: after.st.circuits,
                ..run.st
            })
        }),
{
    reveal(CcRun::cease_locally);
    reveal(CcRun::demand_locally);
    reveal(CcRun::central_grant);
    reveal(CcRun::preempt);
    reveal(CcRun::release_call);
    reveal(CcRun::finalize_release);
}

/// A released group call leaves nothing that waits for it: no grant, no
/// preparation, and nobody who is to be told its speaker. What waits for other
/// calls goes on waiting.
pub proof fn law_released_call_leaves_nothing_waiting(
    run: CcRun,
    call_id: u16,
    cause: DisconnectCause,
    issi: u32,
    other: u16,
)
    requires
        other != call_id,
    ensures
        ({
            let after = run.release_call(call_id, cause);
            let mine = CallParty { call_id, issi };
            let theirs = CallParty { call_id: other, issi };
            &&& crate::table::lookup(after.st.pending_grants, call_id) is None
            &&& crate::table::lookup(after.st.restore_prepared, call_id) is None
            &&& crate::table::lookup(after.st.pending_restore_floors, mine) is None
            &&& crate::table::lookup(after.st.pending_grants, other) == crate::table::lookup(
                run.st.pending_grants,
                other,
            )
            &&& crate::table::lookup(after.st.pending_restore_floors, theirs)
                == crate::table::lookup(run.st.pending_restore_floors, theirs)
        }),
{
    reveal(CcRun::release_call);
    reveal(CcRun::finalize_release);
    crate::table::law_lookup_after_del(run.st.pending_grants, call_id, call_id);
    crate::table::law_lookup_after_del(run.st.pending_grants, call_id, other);
    crate::table::law_lookup_after_del(run.st.restore_prepared, call_id, call_id);
    let keep = |entry: (CallParty, FloorTimer)| entry.0.call_id != call_id;
    crate::table::law_lookup_after_key_filter(
        run.st.pending_restore_floors,
        keep,
        CallParty { call_id, issi },
    );
    crate::table::law_lookup_after_key_filter(
        run.st.pending_restore_floors,
        keep,
        CallParty { call_id: other, issi },
    );
}

/// A call of the SwMI that waited for a listener waits no longer once one of its
/// groups has one; where its speaker is here, it is prepared without calling the
/// group. Others go on waiting.
pub proof fn law_waiting_call_is_started(
    run: CcRun,
    waiting: Seq<(u16, RemoteCall)>,
    call_id: u16,
    remote: RemoteCall,
    groups: Seq<u32>,
)
    ensures
        ({
            let before = run.activate_each(waiting, groups);
            let after = run.activate_each(waiting.push((call_id, remote)), groups);
            let here = remote.floor_itsi != 0 && crate::table::contains(
                run.st.members,
                Membership { issi: remote.floor_itsi, gssi: remote.gssi },
            );
            let left = CcRun {
                st: CcView {
                    pending_remote: crate::table::del(before.st.pending_remote, call_id),
                    ..before.st
                },
                ..before
            };
            after == if groups.contains(remote.gssi) && run.st.has_listener(remote.gssi) {
                left.start_remote(call_id, remote, !here)
            } else {
                before
            }
        }),
{
    assert(waiting.push((call_id, remote)).drop_last() =~= waiting);
}

/// When a group call starts, every terminal that follows the group is noted on its
/// channel, as one that has not been heard there yet: a member that receives the
/// group and is in no private call. Others are not.
pub proof fn law_listeners_are_noted(
    run: CcRun,
    terminals: Seq<(u32, bool)>,
    issi: u32,
    call_id: u16,
    call: ActiveCall,
)
    ensures
        ({
            let before = run.track_each(terminals, call_id, call);
            let after = run.track_each(terminals.push((issi, true)), call_id, call);
            let follows = crate::table::contains(
                run.st.members,
                Membership { issi, gssi: call.dest_gssi },
            ) && run.st.is_receivable(issi, call.dest_gssi) && !run.st.in_private_call(issi);
            &&& !follows ==> after == before
            &&& follows ==> after.queue == before.queue && after.st.candidates_of(issi).first
                == Some(
                ListeningCandidate {
                    call_id,
                    timeslot: call.ts,
                    usage: call.usage,
                    service: ListeningService::Group { gssi: call.dest_gssi },
                    last_seen: run.st.dltime,
                    confirmed: false,
                },
            )
        }),
{
    assert(terminals.push((issi, true)).drop_last() =~= terminals);
    let before = run.track_each(terminals, call_id, call);
    let noted = run.st.group_candidate(call_id, call, false);
    let value = crate::cmce::cc_model::pushed(before.st.candidates_of(issi), noted);
    crate::table::law_lookup_after_put(before.st.candidates, issi, value, issi);
}

/// A terminal that is about to arrive for a group call is expected as a member that
/// scans; what is known of a terminal already stays.
pub proof fn law_arriving_terminal_is_expected(run: CcRun, itsi: u32, gssi: u32, other: u32)
    requires
        other != itsi,
    ensures
        ({
            let after = run.expect_member(itsi, gssi);
            &&& after.queue == run.queue && after.st.active_calls == run.st.active_calls
            &&& crate::table::contains(after.st.known, itsi)
            &&& crate::table::contains(after.st.members, Membership { issi: itsi, gssi })
            &&& crate::table::lookup(after.st.scanning, itsi) == match crate::table::lookup(
                run.st.scanning,
                itsi,
            ) {
                Some(enabled) => Some(enabled),
                None => Some(true),
            }
            &&& crate::table::contains(after.st.known, other) == crate::table::contains(
                run.st.known,
                other,
            )
            &&& crate::table::contains(after.st.members, Membership { issi: other, gssi })
                == crate::table::contains(run.st.members, Membership { issi: other, gssi })
        }),
{
    let member = Membership { issi: itsi, gssi };
    crate::table::law_lookup_after_put(run.st.known, itsi, true, itsi);
    crate::table::law_lookup_after_put(run.st.known, itsi, true, other);
    crate::table::law_lookup_after_put(run.st.members, member, true, member);
    crate::table::law_lookup_after_put(
        run.st.members,
        member,
        true,
        Membership { issi: other, gssi },
    );
    crate::table::law_lookup_after_put(run.st.scanning, itsi, true, itsi);
}

/// No channel is reserved under an identifier that is none on the air, nor in a
/// call of another group.
pub proof fn law_reservations_that_are_refused(
    run: CcRun,
    itsi: u32,
    central_call_id: u64,
    remote: RemoteCall,
)
    ensures
        central_call_id == 0 || central_call_id > 65535 ==> run.reserve_handover(
            itsi,
            central_call_id,
            remote,
        ) == (run, None::<HandoverChannelAllocation>),
        0 < central_call_id <= 65535 && crate::table::contains(
            run.st.active_calls,
            central_call_id as u16,
        ) && (crate::table::lookup(
            run.st.active_calls,
            central_call_id as u16,
        )->0).dest_gssi != remote.gssi ==> run.reserve_handover(
            itsi,
            central_call_id,
            remote,
        ).1 is None,
{
    reveal(CcRun::reserve_handover);
}

/// A set-up is not repeated on a timeslot that carries a private call, nor while
/// the call is only prepared for a terminal that restores it.
pub proof fn law_setups_that_are_not_repeated(
    run: CcRun,
    call_id: u16,
    usage: u8,
    ts: u8,
    unsent: Seq<u64>,
)
    requires
        crate::table::contains(run.st.restore_prepared, call_id) || crate::table::contains(
            run.st.private_calls,
            call_id,
        ) || !crate::table::contains(run.st.cached_setups, call_id),
    ensures
        run.repeat_setup(call_id, usage, ts, unsent) == run,
{
    reveal(CcRun::repeat_setup);
}

/// The two parties of a private call that are both here share a timeslot exactly if
/// the call is simplex: in a duplex call each has its own.
pub proof fn law_only_simplex_parties_share_a_timeslot(
    run: CcRun,
    call_id: u16,
    caller: u32,
    callee: u32,
    duplex: bool,
)
    requires
        caller != callee,
        run.party_circuit(call_id, caller) is None,
        run.party_circuit(call_id, callee) is None,
    ensures
        ({
            let (after, accepted) = run.seize_private(call_id, caller, callee, 3, duplex);
            accepted ==> {
                &&& after.party_circuit(call_id, caller) matches Some(first)
                    && after.party_circuit(call_id, callee) matches Some(second)
                    && (duplex ==> first.ts != second.ts) && (!duplex ==> first == second)
                    && first.duplex == duplex && first.call_id == call_id && second.call_id
                    == call_id
            }
        }),
{
    reveal(CcRun::seize_private);
    assert(3u8 & 1u8 == 1u8 && 3u8 & 2u8 == 2u8) by (bit_vector);
    if let Some(call) = crate::table::lookup(run.st.private_calls, call_id) {
        let mask = call.local_mask;
        assert((mask | 3u8) & 3u8 == 3u8) by (bit_vector);
        let masked = run.hold_private(
            call_id,
            PrivateCallLocal { local_mask: mask | 3, ..call },
        );
        let one = CallParty { call_id, issi: caller };
        let two = CallParty { call_id, issi: callee };
        if let Some(ts) = masked.slots.lowest_free() {
            let circuit = masked.st.circuits.circuit(
                ts,
                crate::cmce::pdu::CommunicationType::P2p,
                Some(call_id),
                duplex,
            );
            crate::table::law_lookup_after_put(masked.st.private_circuits, one, circuit, one);
            crate::table::law_lookup_after_put(masked.st.private_circuits, one, circuit, two);
            let first = masked.open_circuit(
                ts,
                crate::cmce::pdu::CommunicationType::P2p,
                Some(call_id),
                duplex,
            ).with_party_circuit(call_id, caller, circuit);
            if duplex {
                if let Some(next) = first.slots.lowest_free() {
                    let other = first.st.circuits.circuit(
                        next,
                        crate::cmce::pdu::CommunicationType::P2p,
                        Some(call_id),
                        duplex,
                    );
                    crate::table::law_lookup_after_put(
                        first.st.private_circuits,
                        two,
                        other,
                        two,
                    );
                    crate::table::law_lookup_after_put(
                        first.st.private_circuits,
                        two,
                        other,
                        one,
                    );
                }
            } else {
                crate::table::law_lookup_after_put(first.st.private_circuits, two, circuit, two);
                crate::table::law_lookup_after_put(first.st.private_circuits, two, circuit, one);
            }
        }
    }
}

} // verus!
