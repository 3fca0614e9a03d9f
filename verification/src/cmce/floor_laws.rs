//! Who may speak in a group call, stated of what comes in and what is handed on.
use crate::cmce::cc_model::{ActiveCall, CcRun};
use crate::cmce::pdu::{
    CallControl, CallMessage, CallParty, CcMessage, ChanAllocReq, DownlinkPdu, Layer2Service,
    SsiType, SwmiLink, TetraAddress, TetraEntity, TransmissionGrant, UplinkPrim,
};
use vstd::prelude::*;

verus! {

/// The address of a terminal.
pub open spec fn terminal(issi: u32) -> TetraAddress {
    TetraAddress { ssi: issi, ssi_type: SsiType::Issi }
}

/// The address of a group.
pub open spec fn group(gssi: u32) -> TetraAddress {
    TetraAddress { ssi: gssi, ssi_type: SsiType::Gssi }
}

/// Whether a channel is the one on this timeslot, with this usage marker if there
/// is one.
pub open spec fn is_channel(channel: Option<ChanAllocReq>, usage: Option<u8>, ts: u8) -> bool {
    channel is Some && channel->0.usage == usage && channel->0.timeslots == (
        ts == 1,
        ts == 2,
        ts == 3,
        ts == 4,
    )
}

/// Whether a queue goes on from another.
pub open spec fn extends(before: Seq<CcMessage>, after: Seq<CcMessage>) -> bool {
    &&& before.len() <= after.len()
    &&& forall|i: int| 0 <= i < before.len() ==> #[trigger] after[i] == before[i]
}

/// Whether a message tells `to`, on the traffic channel, who may speak.
pub open spec fn tells_speaker(
    message: CcMessage,
    to: TetraAddress,
    call_id: u16,
    speaker: u32,
    grant: TransmissionGrant,
    ts: u8,
) -> bool {
    message matches CcMessage::Downlink(request) && {
        &&& request.main_address == to
        &&& request.stealing_permission
        &&& is_channel(request.chan_alloc, None, ts)
        &&& request.pdu matches DownlinkPdu::DTxGranted {
            call_identifier,
            transmission_grant,
            transmission_request_permission,
            transmitting_party_ssi,
        } && call_identifier == call_id && transmission_grant == grant && transmitting_party_ssi
            == speaker && !transmission_request_permission
    }
}

/// Whether a message tells `to`, on the traffic channel, that nobody speaks any
/// more.
pub open spec fn tells_silence(message: CcMessage, to: TetraAddress, call_id: u16, ts: u8) -> bool {
    message matches CcMessage::Downlink(request) && {
        &&& request.main_address == to
        &&& request.stealing_permission
        &&& is_channel(request.chan_alloc, None, ts)
        &&& request.pdu matches DownlinkPdu::DTxCeased { call_identifier, .. } && call_identifier
            == call_id
    }
}

/// Whether a message tells `to`, on the traffic channel, that the speaker gives
/// way to another.
pub open spec fn tells_interruption(
    message: CcMessage,
    to: TetraAddress,
    call_id: u16,
    next: u32,
    ts: u8,
) -> bool {
    message matches CcMessage::Downlink(request) && {
        &&& request.main_address == to
        &&& request.stealing_permission
        &&& is_channel(request.chan_alloc, None, ts)
        &&& request.pdu matches DownlinkPdu::DTxInterrupt {
            call_identifier,
            transmission_grant,
            transmitting_party_ssi,
            ..
        } && call_identifier == call_id && transmission_grant
            == TransmissionGrant::GrantedToOtherUser && transmitting_party_ssi == next
    }
}

/// Whether a message answers an uplink PDU: to its sender, on its link.
pub open spec fn answers(message: CcMessage, prim: UplinkPrim, pdu: DownlinkPdu) -> bool {
    message matches CcMessage::Downlink(request) && {
        &&& request.pdu == pdu
        &&& request.main_address == prim.received
        &&& request.handle == prim.handle
        &&& request.endpoint_id == prim.endpoint_id
        &&& request.link_id == prim.link_id
        &&& !request.stealing_permission
    }
}

/// Whether every group call but one is as it was.
pub open spec fn other_calls_stay(before: CcRun, after: CcRun, call_id: u16) -> bool {
    forall|other: u16|
        other != call_id ==> #[trigger] crate::table::lookup(after.st.active_calls, other)
            == crate::table::lookup(before.st.active_calls, other)
}

/// The group call under an identifier.
pub open spec fn call_of(run: CcRun, call_id: u16) -> Option<ActiveCall> {
    crate::table::lookup(run.st.active_calls, call_id)
}

pub proof fn lemma_held(run: CcRun, call_id: u16, call: ActiveCall)
    ensures
        call_of(run.hold_call(call_id, call), call_id) == Some(call),
        other_calls_stay(run, run.hold_call(call_id, call), call_id),
{
    crate::table::law_lookup_after_put(run.st.active_calls, call_id, call, call_id);
    assert forall|other: u16| other != call_id implies #[trigger] crate::table::lookup(
        run.hold_call(call_id, call).st.active_calls,
        other,
    ) == crate::table::lookup(run.st.active_calls, other) by {
        crate::table::law_lookup_after_put(run.st.active_calls, call_id, call, other);
    }
}

/// Noting where a terminal was heard changes nothing but that note.
pub proof fn lemma_heard(run: CcRun, issi: u32, call_id: u16)
    ensures
        run.record_uplink(issi, call_id) == (CcRun {
            st: crate::cmce::cc_model::CcView {
                candidates: run.record_uplink(issi, call_id).st.candidates,
                ..run.st
            },
            ..run
        }),
{
    reveal(CcRun::record_uplink);
}

/// Where the station decides alone and nobody speaks in an announced group call,
/// the terminal that asks gets the floor: it is the first to be told, and is told
/// that the floor is its own; then the group is told that another speaks, and
/// who; the MAC is told; and the call has that terminal as its speaker. No other
/// call is touched.
pub proof fn law_free_floor_goes_to_who_asked(
    run: CcRun,
    prim: UplinkPrim,
    call_id: u16,
    priority: u8,
)
    requires
        !(run.swmi is Online),
        !crate::table::contains(run.st.private_calls, call_id),
        call_of(run, call_id) is Some,
        !(call_of(run, call_id)->0).tx_active,
        crate::table::contains(run.st.cached_setups, call_id),
    ensures
        ({
            let after = run.u_tx_demand(prim, call_id, priority);
            let call = call_of(run, call_id)->0;
            let listeners = (crate::table::lookup(run.st.cached_setups, call_id)->0).dest.ssi;
            let speaker = prim.received.ssi;
            let n = run.queue.len() as int;
            &&& extends(run.queue, after.queue)
            &&& n + 3 <= after.queue.len()
            &&& tells_speaker(
                after.queue[n],
                terminal(speaker),
                call_id,
                speaker,
                TransmissionGrant::Granted,
                call.ts,
            )
            &&& tells_speaker(
                after.queue[n + 1],
                group(listeners),
                call_id,
                speaker,
                TransmissionGrant::GrantedToOtherUser,
                call.ts,
            )
            &&& after.queue[n + 2] == CcMessage::Control(
                TetraEntity::Umac,
                CallControl::FloorGranted {
                    call_id,
                    source_issi: speaker,
                    dest_gssi: listeners,
                    ts: call.ts,
                },
            )
            &&& call_of(after, call_id) matches Some(now) && {
                &&& now.tx_active
                &&& now.source_issi == speaker
                &&& now.hangtime_start is None
                &&& now.dest_gssi == call.dest_gssi && now.ts == call.ts && now.usage == call.usage
            }
            &&& other_calls_stay(run, after, call_id)
        }),
{
    reveal(CcRun::u_tx_demand);
    reveal(CcRun::demand_locally);
    let heard = run.record_uplink(prim.received.ssi, call_id);
    lemma_heard(run, prim.received.ssi, call_id);
    let call = call_of(run, call_id)->0;
    let after = run.u_tx_demand(prim, call_id, priority);
    let now = ActiveCall {
        tx_active: true,
        hangtime_start: None,
        source_issi: prim.received.ssi,
        origin: match call.origin {
            crate::cmce::cc_model::CallOrigin::Local { caller } =>
                crate::cmce::cc_model::CallOrigin::Local { caller: prim.received },
            other => other,
        },
        ..call
    };
    lemma_held(heard, call_id, now);
    assert(after.st.active_calls == heard.hold_call(call_id, now).st.active_calls);
}

/// While somebody speaks in a group call, a terminal that asks the station for
/// the floor is told to wait, and the speaker keeps the floor.
pub proof fn law_taken_floor_is_kept(run: CcRun, prim: UplinkPrim, call_id: u16, priority: u8)
    requires
        !(run.swmi is Online),
        !crate::table::contains(run.st.private_calls, call_id),
        call_of(run, call_id) is Some,
        (call_of(run, call_id)->0).tx_active,
    ensures
        ({
            let after = run.u_tx_demand(prim, call_id, priority);
            &&& after.queue.len() == run.queue.len() + 1
            &&& extends(run.queue, after.queue)
            &&& answers(
                after.queue.last(),
                prim,
                DownlinkPdu::DTxWait {
                    call_identifier: call_id,
                    transmission_request_permission: false,
                },
            )
            &&& after.st.active_calls == run.st.active_calls
        }),
{
    reveal(CcRun::u_tx_demand);
    reveal(CcRun::demand_locally);
    lemma_heard(run, prim.received.ssi, call_id);
}

/// While the SwMI is connected and takes messages it alone gives the floor of a
/// group call: it is asked for it in the name of the terminal, for that call and
/// with the priority that the terminal gave; the terminal is told that its
/// request is queued, and the speaker stays.
pub proof fn law_connected_floor_request_goes_to_the_swmi(
    run: CcRun,
    prim: UplinkPrim,
    call_id: u16,
    priority: u8,
)
    requires
        run.swmi == (SwmiLink::Online { accepting: true }),
        !crate::table::contains(run.st.private_calls, call_id),
        call_of(run, call_id) is Some,
    ensures
        ({
            let after = run.u_tx_demand(prim, call_id, priority);
            let n = run.queue.len() as int;
            &&& after.queue.len() == n + 2
            &&& extends(run.queue, after.queue)
            &&& tells_speaker(
                after.queue[n],
                terminal(prim.received.ssi),
                call_id,
                prim.received.ssi,
                TransmissionGrant::RequestQueued,
                (call_of(run, call_id)->0).ts,
            )
            &&& after.queue[n + 1] == CcMessage::Swmi(
                CallMessage::FloorRequest {
                    command_id: run.st.next_command,
                    call_id: call_id as u64,
                    itsi: prim.received.ssi as u64,
                    tx_demand_priority: priority,
                },
            )
            &&& after.st.active_calls == run.st.active_calls
            &&& after.st.next_command != run.st.next_command && after.st.next_command != 0
        }),
{
    reveal(CcRun::u_tx_demand);
    lemma_heard(run, prim.received.ssi, call_id);
}

/// A speaker that stops leaves the floor free: the call has no speaker from now
/// on, its hangtime runs from now, the group is told that nobody speaks and the
/// MAC that the floor is free.
pub proof fn law_ceasing_frees_the_floor(run: CcRun, prim: UplinkPrim, call_id: u16)
    requires
        !(run.swmi is Online),
        !crate::table::contains(run.st.private_calls, call_id),
        call_of(run, call_id) is Some,
        (call_of(run, call_id)->0).tx_active,
        crate::table::contains(run.st.cached_setups, call_id),
    ensures
        ({
            let after = run.u_tx_ceased(prim, call_id);
            let call = call_of(run, call_id)->0;
            let n = run.queue.len() as int;
            &&& extends(run.queue, after.queue)
            &&& n + 2 <= after.queue.len()
            &&& tells_silence(
                after.queue[n],
                (crate::table::lookup(run.st.cached_setups, call_id)->0).dest,
                call_id,
                call.ts,
            )
            &&& after.queue[n + 1] == CcMessage::Control(
                TetraEntity::Umac,
                CallControl::FloorReleased { call_id, ts: call.ts },
            )
            &&& call_of(after, call_id) == Some(
                ActiveCall { tx_active: false, hangtime_start: Some(run.st.dltime), ..call },
            )
            &&& other_calls_stay(run, after, call_id)
            &&& after.st.cached_setups == run.st.cached_setups
            &&& after.st.private_calls == run.st.private_calls
            &&& after.swmi == run.swmi
        }),
{
    reveal(CcRun::u_tx_ceased);
    reveal(CcRun::cease_locally);
    let heard = run.record_uplink(prim.received.ssi, call_id);
    lemma_heard(run, prim.received.ssi, call_id);
    let call = call_of(run, call_id)->0;
    let now = ActiveCall { tx_active: false, hangtime_start: Some(run.st.dltime), ..call };
    lemma_held(heard, call_id, now);
    let after = run.u_tx_ceased(prim, call_id);
    assert(after.st.active_calls == heard.hold_call(call_id, now).st.active_calls);
}

/// The floor is handed from speaker to speaker: when one terminal stops and
/// another asks, the other is told that the floor is its own and is the speaker
/// of the call.
pub proof fn law_floor_passes_on(
    run: CcRun,
    first: UplinkPrim,
    second: UplinkPrim,
    call_id: u16,
    priority: u8,
)
    requires
        !(run.swmi is Online),
        !crate::table::contains(run.st.private_calls, call_id),
        call_of(run, call_id) is Some,
        (call_of(run, call_id)->0).tx_active,
        crate::table::contains(run.st.cached_setups, call_id),
    ensures
        ({
            let silent = run.u_tx_ceased(first, call_id);
            let after = silent.u_tx_demand(second, call_id, priority);
            &&& tells_speaker(
                after.queue[silent.queue.len() as int],
                terminal(second.received.ssi),
                call_id,
                second.received.ssi,
                TransmissionGrant::Granted,
                (call_of(run, call_id)->0).ts,
            )
            &&& call_of(after, call_id) is Some
            &&& (call_of(after, call_id)->0).source_issi == second.received.ssi
            &&& (call_of(after, call_id)->0).tx_active
        }),
{
    law_ceasing_frees_the_floor(run, first, call_id);
    law_free_floor_goes_to_who_asked(run.u_tx_ceased(first, call_id), second, call_id, priority);
}

/// A speaker that stops while the SwMI is connected and takes messages is
/// reported to it, for its call; the floor stays as it is until the SwMI has
/// decided.
pub proof fn law_connected_ceasing_goes_to_the_swmi(run: CcRun, prim: UplinkPrim, call_id: u16)
    requires
        run.swmi == (SwmiLink::Online { accepting: true }),
        !crate::table::contains(run.st.private_calls, call_id),
    ensures
        ({
            let after = run.u_tx_ceased(prim, call_id);
            &&& after.queue == run.queue.push(
                CcMessage::Swmi(
                    CallMessage::FloorReleaseRequest {
                        command_id: run.st.next_command,
                        call_id: call_id as u64,
                        itsi: prim.received.ssi as u64,
                    },
                ),
            )
            &&& after.st.active_calls == run.st.active_calls
        }),
{
    reveal(CcRun::u_tx_ceased);
    lemma_heard(run, prim.received.ssi, call_id);
}

/// When the SwMI grants the floor of a group call, a terminal of this cell that
/// gets it is told first that the floor is its own; the group is told who speaks;
/// the MAC and the SwMI side are told; and the call has that speaker.
pub proof fn law_granted_floor_is_told(run: CcRun, call_id: u16, itsi: u32)
    requires
        call_of(run, call_id) is Some,
        crate::table::lookup(run.st.pending_grants, call_id) is None,
    ensures
        ({
            let after = run.swmi_action(
                CallMessage::FloorGranted { call_id: call_id as u64, itsi: itsi as u64 },
            );
            let call = call_of(run, call_id)->0;
            let here = crate::table::contains(run.st.known, itsi);
            let n = if here {
                (run.queue.len() + 1) as int
            } else {
                run.queue.len() as int
            };
            let granted = CallControl::FloorGranted {
                call_id,
                source_issi: itsi,
                dest_gssi: call.dest_gssi,
                ts: call.ts,
            };
            &&& extends(run.queue, after.queue)
            &&& after.queue.len() == n + 3
            &&& here ==> tells_speaker(
                after.queue[n - 1],
                terminal(itsi),
                call_id,
                itsi,
                TransmissionGrant::Granted,
                call.ts,
            )
            &&& tells_speaker(
                after.queue[n],
                group(call.dest_gssi),
                call_id,
                itsi,
                TransmissionGrant::GrantedToOtherUser,
                call.ts,
            )
            &&& after.queue[n + 1] == CcMessage::Control(TetraEntity::Umac, granted)
            &&& after.queue[n + 2] == CcMessage::Control(TetraEntity::Swmi, granted)
            &&& call_of(after, call_id) == Some(
                ActiveCall { source_issi: itsi, tx_active: true, hangtime_start: None, ..call },
            )
            &&& other_calls_stay(run, after, call_id)
        }),
{
    reveal(CcRun::swmi_action);
    reveal(CcRun::central_grant);
    let call = call_of(run, call_id)->0;
    let now = ActiveCall { source_issi: itsi, tx_active: true, hangtime_start: None, ..call };
    lemma_held(run, call_id, now);
    let after = run.swmi_action(
        CallMessage::FloorGranted { call_id: call_id as u64, itsi: itsi as u64 },
    );
    assert(after == run.floor_granted(call_id, itsi));
    assert(after.st.active_calls == run.hold_call(call_id, now).st.active_calls);
}

/// When the SwMI takes the floor from the speaker of a group call for another, the
/// speaker is interrupted, if it is here, and the group is told who comes next;
/// the floor is free meanwhile, and the next speaker gets it six frames later. A
/// terminal that does not speak cannot lose the floor.
pub proof fn law_preemption_interrupts_the_speaker(
    run: CcRun,
    call_id: u16,
    previous: u32,
    next: u32,
)
    ensures
        ({
            let after = run.swmi_action(
                CallMessage::FloorPreempted {
                    call_id: call_id as u64,
                    previous_itsi: previous as u64,
                    next_itsi: next as u64,
                },
            );
            let speaks = call_of(run, call_id) matches Some(call) && call.tx_active
                && call.source_issi == previous;
            let call = call_of(run, call_id)->0;
            let here = crate::table::contains(run.st.known, previous);
            let n = if here {
                (run.queue.len() + 1) as int
            } else {
                run.queue.len() as int
            };
            &&& !speaks ==> after == run
            &&& speaks ==> {
                &&& extends(run.queue, after.queue)
                &&& after.queue.len() == n + 3
                &&& here ==> tells_interruption(
                    after.queue[n - 1],
                    terminal(previous),
                    call_id,
                    next,
                    call.ts,
                )
                &&& tells_interruption(
                    after.queue[n],
                    group(call.dest_gssi),
                    call_id,
                    next,
                    call.ts,
                )
                &&& call_of(after, call_id) == Some(
                    ActiveCall { tx_active: false, hangtime_start: Some(run.st.dltime), ..call },
                )
                &&& crate::table::lookup(after.st.pending_grants, call_id) matches Some(timer) && {
                    &&& timer.itsi == next
                    &&& timer.due == run.st.dltime.plus(24)
                }
                &&& other_calls_stay(run, after, call_id)
            }
        }),
{
    reveal(CcRun::swmi_action);
    reveal(CcRun::preempt);
    let after = run.swmi_action(
        CallMessage::FloorPreempted {
            call_id: call_id as u64,
            previous_itsi: previous as u64,
            next_itsi: next as u64,
        },
    );
    assert(after == run.floor_preempted(call_id, previous, next));
    if run.st.preemption_applies(call_id, previous) {
        let call = call_of(run, call_id)->0;
        let now = ActiveCall { tx_active: false, hangtime_start: Some(run.st.dltime), ..call };
        lemma_held(run, call_id, now);
        assert(after.st.active_calls == run.hold_call(call_id, now).st.active_calls);
        let taken = run.preempt(call_id, previous, next);
        crate::table::law_lookup_after_put(
            taken.st.pending_grants,
            call_id,
            crate::cmce::cc_model::FloorTimer { itsi: next, due: run.st.dltime.plus(24) },
            call_id,
        );
    }
}

/// When the SwMI frees the floor of a group call, the call has no speaker, its
/// hangtime runs from now, and no grant that waits is left; MAC and SwMI side are
/// told.
pub proof fn law_released_floor_is_free(run: CcRun, call_id: u16)
    requires
        call_of(run, call_id) is Some,
    ensures
        ({
            let after = run.swmi_action(CallMessage::FloorReleased { call_id: call_id as u64 });
            let call = call_of(run, call_id)->0;
            let n = run.queue.len() as int;
            let released = CallControl::FloorReleased { call_id, ts: call.ts };
            &&& extends(run.queue, after.queue)
            &&& after.queue.len() == n + 2
            &&& after.queue[n] == CcMessage::Control(TetraEntity::Umac, released)
            &&& after.queue[n + 1] == CcMessage::Control(TetraEntity::Swmi, released)
            &&& call_of(after, call_id) == Some(
                ActiveCall { tx_active: false, hangtime_start: Some(run.st.dltime), ..call },
            )
            &&& !crate::table::contains(after.st.pending_grants, call_id)
            &&& other_calls_stay(run, after, call_id)
        }),
{
    reveal(CcRun::swmi_action);
    let after = run.swmi_action(CallMessage::FloorReleased { call_id: call_id as u64 });
    assert(after == run.floor_released(call_id));
    let call = call_of(run, call_id)->0;
    let now = ActiveCall { tx_active: false, hangtime_start: Some(run.st.dltime), ..call };
    lemma_held(run, call_id, now);
    assert(after.st.active_calls == run.hold_call(call_id, now).st.active_calls);
    crate::table::law_lookup_after_del(run.st.pending_grants, call_id, call_id);
}

/// When the speaker on a timeslot is no longer heard, its call has no speaker,
/// its hangtime runs from now, and the group of that call is told that nobody
/// speaks. Where nobody speaks on the timeslot nothing happens.
pub proof fn law_lost_speaker_frees_the_floor(run: CcRun, ts: u8)
    ensures
        ({
            let after = run.call_control(CallControl::UlInactivityTimeout { ts });
            let n = run.queue.len() as int;
            match crate::cmce::cc_events::speaking_on(run.st.active_calls, ts) {
                None => after == run && forall|i: int|
                    0 <= i < run.st.active_calls.len() ==> !((
                    #[trigger] run.st.active_calls[i]).1.ts == ts
                        && run.st.active_calls[i].1.tx_active),
                Some((call_id, call)) => {
                    &&& call.ts == ts && call.tx_active
                    &&& run.st.active_calls.contains((call_id, call))
                    &&& extends(run.queue, after.queue)
                    &&& n + 2 <= after.queue.len()
                    &&& tells_silence(after.queue[n], group(call.dest_gssi), call_id, ts)
                    &&& after.queue[n + 1] == CcMessage::Control(
                        TetraEntity::Umac,
                        CallControl::FloorReleased { call_id, ts },
                    )
                    &&& call_of(after, call_id) == Some(
                        ActiveCall {
                            tx_active: false,
                            hangtime_start: Some(run.st.dltime),
                            ..call
                        },
                    )
                    &&& other_calls_stay(run, after, call_id)
                },
            }
        }),
{
    reveal(CcRun::call_control);
    reveal(CcRun::ul_inactivity);
    lemma_speaking_on(run.st.active_calls, ts);
    if let Some((call_id, call)) = crate::cmce::cc_events::speaking_on(run.st.active_calls, ts) {
        let now = ActiveCall { tx_active: false, hangtime_start: Some(run.st.dltime), ..call };
        lemma_held(run, call_id, now);
        let after = run.call_control(CallControl::UlInactivityTimeout { ts });
        assert(after.st.active_calls == run.hold_call(call_id, now).st.active_calls);
    }
}

proof fn lemma_speaking_on(calls: Seq<(u16, ActiveCall)>, ts: u8)
    ensures
        match crate::cmce::cc_events::speaking_on(calls, ts) {
            None => forall|i: int|
                0 <= i < calls.len() ==> !((#[trigger] calls[i]).1.ts == ts
                    && calls[i].1.tx_active),
            Some((call_id, call)) => call.ts == ts && call.tx_active && calls.contains(
                (call_id, call),
            ),
        },
    decreases calls.len(),
{
    if calls.len() > 0 {
        let rest = calls.drop_last();
        lemma_speaking_on(rest, ts);
        assert(calls[calls.len() - 1] == calls.last());
        assert(forall|i: int| 0 <= i < rest.len() ==> #[trigger] calls[i] == rest[i]);
        if let Some(found) = crate::cmce::cc_events::speaking_on(rest, ts) {
            if rest.contains(found) {
                let i = choose|i: int| 0 <= i < rest.len() && rest[i] == found;
                assert(calls[i] == found);
            }
        }
    }
}

/// A terminal that restores a group call of its group is told so on that call's
/// channel, and whether it may speak: it may if it is the speaker, another may if
/// somebody else speaks, and nobody may if nobody speaks. A terminal that is not
/// a member, or names no call, fails.
pub proof fn law_restored_group_call_tells_the_floor(
    run: CcRun,
    prim: UplinkPrim,
    call_id: u16,
    other_party: Option<u32>,
)
    requires
        crate::table::lookup(run.st.private_calls, call_id) is None,
    ensures
        ({
            let after = run.u_call_restore(prim, call_id, other_party);
            let itsi = prim.received.ssi;
            let member = call_of(run, call_id) matches Some(call) && crate::table::contains(
                run.st.members,
                crate::cmce::pdu::Membership { issi: itsi, gssi: call.dest_gssi },
            );
            let call = call_of(run, call_id)->0;
            &&& after.queue.len() == run.queue.len() + 1
            &&& extends(run.queue, after.queue)
            &&& after.queue.last() matches CcMessage::Downlink(request) && {
                &&& request.main_address == terminal(itsi)
                &&& request.layer2service == Layer2Service::Acknowledged
                &&& !member ==> request.pdu == DownlinkPdu::RestoreFailure
                    && request.chan_alloc is None
                &&& member ==> {
                    &&& is_channel(request.chan_alloc, Some(call.usage), call.ts)
                    &&& request.pdu matches DownlinkPdu::DCallRestore {
                        call_identifier,
                        transmission_grant,
                        ..
                    } && {
                        &&& call_identifier == call_id
                        &&& transmission_grant == TransmissionGrant::Granted <==> call.tx_active
                            && call.source_issi == itsi
                        &&& transmission_grant == TransmissionGrant::GrantedToOtherUser
                            <==> call.tx_active && call.source_issi != itsi
                        &&& transmission_grant == TransmissionGrant::NotGranted <==> !call.tx_active
                    }
                }
            }
            &&& after.st.active_calls == run.st.active_calls
            &&& member && call.tx_active ==> (crate::table::lookup(
                after.st.pending_restore_floors,
                CallParty { call_id, issi: itsi },
            ) matches Some(timer) && timer.itsi == call.source_issi && timer.due
                == run.st.dltime.plus(72))
        }),
{
    reveal(CcRun::u_call_restore);
    let itsi = prim.received.ssi;
    let after = run.u_call_restore(prim, call_id, other_party);
    let group = run.group_restoration(call_id, itsi);
    if let Some(call) = call_of(run, call_id) {
        crate::table::law_lookup_after_put(
            run.st.pending_restore_floors,
            CallParty { call_id, issi: itsi },
            crate::cmce::cc_model::FloorTimer {
                itsi: call.source_issi,
                due: run.st.dltime.plus(72),
            },
            CallParty { call_id, issi: itsi },
        );
    }
    if let Some((grant, usage, ts)) = group {
        let told = run.emit(
            crate::cmce::cc_model::unitdata(
                DownlinkPdu::DCallRestore {
                    call_identifier: call_id,
                    transmission_grant: grant,
                    transmission_request_permission: false,
                    reset_call_time_out_timer: true,
                },
                Some(crate::cmce::cc_model::allocation(Some(usage), ts)),
                TetraAddress::issi(itsi),
                Layer2Service::Acknowledged,
                None,
                None,
            ),
        );
        let call = call_of(run, call_id)->0;
        let timed = if call.tx_active {
            CcRun {
                st: crate::cmce::cc_model::CcView {
                    pending_restore_floors: crate::table::put(
                        told.st.pending_restore_floors,
                        CallParty { call_id, issi: itsi },
                        crate::cmce::cc_model::FloorTimer {
                            itsi: call.source_issi,
                            due: run.st.dltime.plus(72),
                        },
                    ),
                    ..told.st
                },
                ..told
            }
        } else {
            told
        };
        lemma_heard(timed, itsi, call_id);
        assert(after == timed.record_uplink(itsi, call_id));
    }
}

} // verus!
