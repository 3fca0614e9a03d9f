//! What holds of call control across its procedures.
use crate::cmce::cc_model::{ActiveCall, Candidates, CcRun, CcView, ListeningCandidate};
use crate::cmce::circuit::TimeslotOwner;
use crate::cmce::pdu::{
    CallMessage, CallParty, CcMessage, CommunicationType, DisconnectCause, Membership,
    SetupRequest,
};
use vstd::prelude::*;

verus! {

/// No channel stands twice among those of a terminal, and there is no gap.
pub open spec fn candidates_in_order(held: Candidates) -> bool {
    &&& held.first is None ==> held.second is None
    &&& held.second is None ==> held.third is None
    &&& held.second is Some ==> !crate::cmce::cc_model::same_channel(
        held.first->0,
        held.second->0,
    )
    &&& held.third is Some ==> !crate::cmce::cc_model::same_channel(held.first->0, held.third->0)
        && !crate::cmce::cc_model::same_channel(held.second->0, held.third->0)
}

/// The latest channel of a terminal comes first, no channel stands twice, and at
/// most three are kept; the others keep their order.
pub proof fn law_latest_channel_comes_first(held: Candidates, candidate: ListeningCandidate)
    requires
        candidates_in_order(held),
    ensures
        candidates_in_order(crate::cmce::cc_model::pushed(held, candidate)),
        crate::cmce::cc_model::pushed(held, candidate).first == Some(candidate),
        crate::cmce::cc_model::pushed(held, candidate).list().len() <= 3,
        forall|other: ListeningCandidate| #[trigger]
            crate::cmce::cc_model::pushed(held, candidate).list().contains(other) ==> other
                == candidate || held.list().contains(other),
{
    let after = crate::cmce::cc_model::pushed(held, candidate);
    assert forall|other: ListeningCandidate| #[trigger]
        after.list().contains(other) implies other == candidate || held.list().contains(other) by {
        if other != candidate {
            let i = choose|i: int| 0 <= i < after.list().len() && after.list()[i] == other;
            assert(after.first == Some(other) || after.second == Some(other) || after.third
                == Some(other));
            assert(held.first == Some(other) || held.second == Some(other) || held.third
                == Some(other));
            let list = held.list();
            if held.first == Some(other) {
                assert(list[0] == other);
            } else if held.second == Some(other) {
                assert(list[1] == other);
            } else {
                assert(list[2] == other);
            }
        }
    }
}

proof fn lemma_finalize_keeps_calls(
    run: CcRun,
    call_id: u16,
    ts: u8,
    gssi: u32,
    is_local: bool,
    uuid: Option<u128>,
)
    ensures
        run.finalize_release(call_id, ts, gssi, is_local, uuid).st.active_calls
            == run.st.active_calls,
        run.finalize_release(call_id, ts, gssi, is_local, uuid).swmi == run.swmi,
        run.finalize_release(call_id, ts, gssi, is_local, uuid).brew == run.brew,
{
    reveal(CcRun::finalize_release);
}

/// A released group call can no longer be joined, whatever becomes of its
/// circuit, and every other call is as it was.
pub proof fn law_released_call_is_gone(
    run: CcRun,
    call_id: u16,
    cause: DisconnectCause,
    other: u16,
)
    ensures
        crate::table::lookup(run.release_call(call_id, cause).st.active_calls, other) == if other
            == call_id {
            None
        } else {
            crate::table::lookup(run.st.active_calls, other)
        },
        run.release_call(call_id, cause).swmi == run.swmi,
        run.release_call(call_id, cause).brew == run.brew,
{
    reveal(CcRun::release_call);
    crate::table::law_lookup_after_del(run.st.active_calls, call_id, other);
    if let Some(call) = crate::table::lookup(run.st.active_calls, call_id) {
        if crate::table::lookup(run.st.cached_setups, call_id) is None {
            let removed = CcRun {
                st: CcView {
                    active_calls: crate::table::del(run.st.active_calls, call_id),
                    cached_setups: crate::table::del(run.st.cached_setups, call_id),
                    ..run.st.forget_pending(call_id)
                },
                ..run
            };
            lemma_finalize_keeps_calls(
                removed,
                call_id,
                call.ts,
                call.dest_gssi,
                call.origin is Local,
                crate::cmce::cc_model::session_of(call),
            );
        }
    }
}

/// The circuit of a released call that was announced stays open, and its
/// timeslot held, until the release has been transmitted.
pub proof fn law_release_is_transmitted_first(
    run: CcRun,
    call_id: u16,
    cause: DisconnectCause,
    call: ActiveCall,
)
    requires
        crate::table::lookup(run.st.active_calls, call_id) == Some(call),
        crate::table::contains(run.st.cached_setups, call_id),
    ensures
        ({
            let after = run.release_call(call_id, cause);
            &&& after.slots == run.slots
            &&& after.st.circuits == run.st.circuits
            &&& after.st.releasing_calls.len() == run.st.releasing_calls.len() + 1
            &&& after.st.releasing_calls.last().call_id == call_id
            &&& after.st.releasing_calls.last().ts == call.ts
            &&& after.st.releasing_calls.last().sent_at == run.st.dltime
            &&& after.queue.len() == run.queue.len() + 1
        }),
{
    reveal(CcRun::release_call);
}

/// Whether a call of the group stands under this identifier.
pub open spec fn listed(calls: Seq<(u16, ActiveCall)>, call_id: u16, gssi: u32) -> bool {
    exists|i: int|
        0 <= i < calls.len() && (#[trigger] calls[i]).0 == call_id && calls[i].1.dest_gssi == gssi
}

proof fn lemma_drop_each(run: CcRun, calls: Seq<(u16, ActiveCall)>, gssi: u32, call_id: u16)
    ensures
        crate::table::lookup(run.drop_each(calls, gssi).st.active_calls, call_id) == if listed(
            calls,
            call_id,
            gssi,
        ) {
            None
        } else {
            crate::table::lookup(run.st.active_calls, call_id)
        },
    decreases calls.len(),
{
    if calls.len() > 0 {
        let rest = calls.drop_last();
        lemma_drop_each(run, rest, gssi, call_id);
        let before = run.drop_each(rest, gssi);
        let (last_id, call) = calls.last();
        if listed(calls, call_id, gssi) {
            let i = choose|i: int|
                0 <= i < calls.len() && (#[trigger] calls[i]).0 == call_id
                    && calls[i].1.dest_gssi == gssi;
            if i < rest.len() {
                assert(rest[i] == calls[i]);
            }
        }
        if listed(rest, call_id, gssi) {
            let i = choose|i: int|
                0 <= i < rest.len() && (#[trigger] rest[i]).0 == call_id
                    && rest[i].1.dest_gssi == gssi;
            assert(calls[i] == rest[i]);
        }
        if call.dest_gssi == gssi {
            assert(calls[calls.len() - 1] == calls.last());
            let told = match call.origin {
                crate::cmce::cc_model::CallOrigin::Network { brew_uuid } =>
                    if crate::cmce::cc_model::brew_carries(run.brew, gssi) {
                    before.control(
                        crate::cmce::pdu::TetraEntity::Brew,
                        crate::cmce::pdu::CallControl::NetworkCallEnd { brew_uuid },
                    )
                } else {
                    before
                },
                _ => before,
            };
            law_released_call_is_gone(
                told,
                last_id,
                DisconnectCause::SwmiRequestedDisconnection,
                call_id,
            );
        }
    }
}

/// When the last listener of a group has left, no call of the group is left, and
/// every call of another group is as it was.
pub proof fn law_unlistened_group_has_no_call(run: CcRun, gssi: u32, call_id: u16)
    requires
        !run.st.has_listener(gssi),
    ensures
        crate::table::lookup(
            run.drop_unlistened(gssi).st.active_calls,
            call_id,
        ) matches Some(call) ==> call.dest_gssi != gssi,
        crate::table::lookup(run.drop_unlistened(gssi).st.active_calls, call_id) == if listed(
            run.st.active_calls,
            call_id,
            gssi,
        ) {
            None
        } else {
            crate::table::lookup(run.st.active_calls, call_id)
        },
{
    reveal(CcRun::drop_unlistened);
    let calls = run.st.active_calls;
    lemma_drop_each(run, calls, gssi, call_id);
    if crate::table::contains(calls, call_id) {
        let index = crate::table::lemma_entry_of_lookup(calls, call_id);
        assert(calls[index].0 == call_id);
    }
}

/// Whether a call under this identifier has been without a speaker for too
/// long.
pub open spec fn expires(run: CcRun, calls: Seq<(u16, ActiveCall)>, call_id: u16) -> bool {
    exists|i: int|
        0 <= i < calls.len() && (#[trigger] calls[i]).0 == call_id && run.hangtime_over(calls[i].1)
}

proof fn lemma_expire_each(run: CcRun, calls: Seq<(u16, ActiveCall)>, call_id: u16)
    ensures
        crate::table::lookup(run.expire_each(calls).st.active_calls, call_id) == if expires(
            run,
            calls,
            call_id,
        ) {
            None
        } else {
            crate::table::lookup(run.st.active_calls, call_id)
        },
    decreases calls.len(),
{
    if calls.len() > 0 {
        let rest = calls.drop_last();
        lemma_expire_each(run, rest, call_id);
        let (last_id, call) = calls.last();
        if expires(run, calls, call_id) {
            let i = choose|i: int|
                0 <= i < calls.len() && (#[trigger] calls[i]).0 == call_id && run.hangtime_over(
                    calls[i].1,
                );
            if i < rest.len() {
                assert(rest[i] == calls[i]);
            }
        }
        if expires(run, rest, call_id) {
            let i = choose|i: int|
                0 <= i < rest.len() && (#[trigger] rest[i]).0 == call_id && run.hangtime_over(
                    rest[i].1,
                );
            assert(calls[i] == rest[i]);
        }
        if run.hangtime_over(call) {
            assert(calls[calls.len() - 1] == calls.last());
            law_released_call_is_gone(
                run.expire_each(rest),
                last_id,
                DisconnectCause::ExpiryOfTimer,
                call_id,
            );
        }
    }
}

/// A call ends for want of a speaker exactly when its hangtime is over; while the
/// SwMI is connected that never ends a call of the SwMI.
pub proof fn law_hangtime_ends_calls(run: CcRun, call_id: u16)
    ensures
        crate::table::lookup(
            run.expire_each(run.st.active_calls).st.active_calls,
            call_id,
        ) matches Some(call) ==> !run.hangtime_over(call),
        crate::table::lookup(run.expire_each(run.st.active_calls).st.active_calls, call_id)
            == if expires(run, run.st.active_calls, call_id) {
            None
        } else {
            crate::table::lookup(run.st.active_calls, call_id)
        },
        forall|call: ActiveCall|
            run.swmi.is_online() && call.origin is Swmi ==> !#[trigger] run.hangtime_over(call),
{
    let calls = run.st.active_calls;
    lemma_expire_each(run, calls, call_id);
    if crate::table::contains(calls, call_id) {
        let index = crate::table::lemma_entry_of_lookup(calls, call_id);
        assert(calls[index].0 == call_id);
    }
}

/// A released call whose release has been transmitted does not wait any longer.
pub proof fn law_transmitted_releases_come_to_their_end(run: CcRun)
    ensures
        forall|i: int|
            0 <= i < run.process_releasing().st.releasing_calls.len() ==> !run.transmitted(
                (#[trigger] run.process_releasing().st.releasing_calls[i]).sent_at,
            ),
        forall|i: int|
            0 <= i < run.process_releasing().st.releasing_private.len() ==> !run.transmitted(
                (#[trigger] run.process_releasing().st.releasing_private[i]).sent_at,
            ),
{
    reveal(CcRun::process_releasing);
    lemma_close_keeps_releasing(run, run.st.releasing_private);
    let finalized = run.finalize_each(run.st.releasing_calls);
    let groups = CcRun {
        st: CcView {
            releasing_calls: run.st.releasing_calls.filter(
                |call: crate::cmce::cc_model::ReleasingCall| !run.transmitted(call.sent_at),
            ),
            ..finalized.st
        },
        ..finalized
    };
    lemma_close_keeps_releasing(groups, run.st.releasing_private);
    let waits = |call: crate::cmce::cc_model::ReleasingCall| !run.transmitted(call.sent_at);
    let waits_private = |circuit: crate::cmce::cc_model::ReleasingPrivateCircuit|
        !run.transmitted(circuit.sent_at);
    let after = run.process_releasing();
    assert forall|i: int| 0 <= i < after.st.releasing_calls.len() implies !run.transmitted(
        (#[trigger] after.st.releasing_calls[i]).sent_at,
    ) by {
        run.st.releasing_calls.lemma_filter_pred(waits, i);
    }
    assert forall|i: int| 0 <= i < after.st.releasing_private.len() implies !run.transmitted(
        (#[trigger] after.st.releasing_private[i]).sent_at,
    ) by {
        run.st.releasing_private.lemma_filter_pred(waits_private, i);
    }
}

proof fn lemma_close_keeps_releasing(
    run: CcRun,
    circuits: Seq<crate::cmce::cc_model::ReleasingPrivateCircuit>,
)
    ensures
        run.close_each(circuits).st.releasing_calls == run.st.releasing_calls,
    decreases circuits.len(),
{
    if circuits.len() > 0 {
        lemma_close_keeps_releasing(run, circuits.drop_last());
    }
}

/// While the SwMI is connected a terminal's group call waits for its decision:
/// no call is opened or joined, no timeslot taken, and the SwMI is asked once.
pub proof fn law_connected_setup_waits_for_the_decision(run: CcRun, request: SetupRequest)
    requires
        run.swmi.takes(),
        request.pdu.basic_service_information.communication_type != CommunicationType::P2p,
        crate::cmce::cc_procedures::group_features_supported(request.pdu),
        request.pdu.called_party_ssi is Some,
        run.st.has_listener(request.pdu.called_party_ssi->0),
        !crate::table::contains(
            run.st.central_setups,
            Membership {
                issi: request.prim.received.ssi,
                gssi: request.pdu.called_party_ssi->0,
            },
        ),
    ensures
        ({
            let after = run.u_setup(request);
            let key = Membership {
                issi: request.prim.received.ssi,
                gssi: request.pdu.called_party_ssi->0,
            };
            &&& after.st.active_calls == run.st.active_calls
            &&& after.st.circuits == run.st.circuits
            &&& after.slots == run.slots
            &&& crate::table::lookup(after.st.pending_setups, key) == Some(request)
            &&& after.queue.drop_last() == run.queue
            &&& after.queue.last() matches CcMessage::Swmi(CallMessage::GroupCallRequest {
                itsi,
                gssi,
                ..
            }) && itsi == key.issi && gssi == key.gssi
        }),
{
    reveal(CcRun::u_setup);
    let key = Membership {
        issi: request.prim.received.ssi,
        gssi: request.pdu.called_party_ssi->0,
    };
    crate::table::law_lookup_after_put(run.st.pending_setups, key, request, key);
    assert(run.u_setup(request).queue.drop_last() =~= run.queue);
}

/// A group call of this cell gets a timeslot that was free, and leaves the others
/// alone; where none is free nothing happens.
pub proof fn law_new_call_gets_a_free_timeslot(
    run: CcRun,
    request: SetupRequest,
    gssi: u32,
    central: Option<crate::cmce::cc_model::CentralSetup>,
)
    ensures
        match run.slots.lowest_free() {
            None => run.open_group_call(request, gssi, central) == run,
            Some(ts) => {
                &&& 2 <= ts <= 4
                &&& run.slots.owner(ts) is None
                &&& run.open_group_call(request, gssi, central).slots == run.slots.with(
                    ts,
                    Some(TimeslotOwner::Cmce),
                )
                &&& forall|other: u8|
                    other != ts ==> #[trigger] run.open_group_call(
                        request,
                        gssi,
                        central,
                    ).slots.owner(other) == run.slots.owner(other)
            },
        },
{
    reveal(CcRun::open_group_call);
    assert forall|
        at: CcRun,
        setup: crate::cmce::pdu::DSetup,
        dest: crate::cmce::pdu::TetraAddress,
        usage: u8,
        ts: u8,
        channels: Seq<crate::cmce::pdu::AssociatedChannel>,
    |
        (#[trigger] at.announce_on(setup, dest, usage, ts, channels)).slots == at.slots by {
        lemma_announcing_keeps_slots(at, setup, dest, usage, ts, channels);
    }
    assert forall|at: CcRun, call_id: u16| (#[trigger] at.track_listeners(call_id)).slots
        == at.slots by {
        lemma_tracking_keeps_slots(at, call_id);
    }
}

proof fn lemma_announcing_keeps_slots(
    run: CcRun,
    setup: crate::cmce::pdu::DSetup,
    dest: crate::cmce::pdu::TetraAddress,
    usage: u8,
    ts: u8,
    channels: Seq<crate::cmce::pdu::AssociatedChannel>,
)
    ensures
        run.announce_on(setup, dest, usage, ts, channels).slots == run.slots,
    decreases channels.len(),
{
    if channels.len() > 0 {
        lemma_announcing_keeps_slots(run, setup, dest, usage, ts, channels.drop_last());
    }
}

proof fn lemma_tracking_keeps_slots(run: CcRun, call_id: u16)
    ensures
        run.track_listeners(call_id).slots == run.slots,
{
    reveal(CcRun::track_listeners);
    if let Some(call) = crate::table::lookup(run.st.active_calls, call_id) {
        lemma_tracking_each_keeps_slots(run, run.st.known, call_id, call);
    }
}

proof fn lemma_tracking_each_keeps_slots(
    run: CcRun,
    terminals: Seq<(u32, bool)>,
    call_id: u16,
    call: ActiveCall,
)
    ensures
        run.track_each(terminals, call_id, call).slots == run.slots,
    decreases terminals.len(),
{
    if terminals.len() > 0 {
        lemma_tracking_each_keeps_slots(run, terminals.drop_last(), call_id, call);
    }
}

/// Where the circuits of a private call cannot all be had, none is kept: the
/// timeslots, the circuits of its parties and the calls are as they were. Where
/// they can, every party that wants one has one.
pub proof fn law_private_circuits_are_all_or_nothing(
    run: CcRun,
    call_id: u16,
    caller_itsi: u32,
    callee_itsi: u32,
    endpoint_mask: u8,
    duplex: bool,
    party: CallParty,
    other: u16,
)
    requires
        caller_itsi != callee_itsi,
    ensures
        ({
            let (after, seized) = run.seize_private(
                call_id,
                caller_itsi,
                callee_itsi,
                endpoint_mask,
                duplex,
            );
            &&& !seized ==> {
                &&& after.slots == run.slots
                &&& crate::table::lookup(after.st.private_circuits, party) == crate::table::lookup(
                    run.st.private_circuits,
                    party,
                )
                &&& crate::table::lookup(after.st.private_calls, other) == crate::table::lookup(
                    run.st.private_calls,
                    other,
                )
                &&& after.st.active_calls == run.st.active_calls
            }
            &&& seized ==> {
                &&& endpoint_mask & 1 != 0 ==> after.party_circuit(call_id, caller_itsi) is Some
                &&& endpoint_mask & 2 != 0 ==> after.party_circuit(call_id, callee_itsi) is Some
            }
        }),
{
    reveal(CcRun::seize_private);
    let caller = CallParty { call_id, issi: caller_itsi };
    let callee = CallParty { call_id, issi: callee_itsi };
    assert forall|
        entries: Seq<(CallParty, crate::cmce::pdu::CmceCircuit)>,
        key: CallParty,
        value: crate::cmce::pdu::CmceCircuit,
        at: CallParty,
    |
        #[trigger] crate::table::lookup(crate::table::put(entries, key, value), at) == if at
            == key {
            Some(value)
        } else {
            crate::table::lookup(entries, at)
        } by {
        crate::table::law_lookup_after_put(entries, key, value, at);
    }
    assert forall|
        entries: Seq<(CallParty, crate::cmce::pdu::CmceCircuit)>,
        key: CallParty,
        at: CallParty,
    |
        #[trigger] crate::table::lookup(crate::table::del(entries, key), at) == if at == key {
            None
        } else {
            crate::table::lookup(entries, at)
        } by {
        crate::table::law_lookup_after_del(entries, key, at);
    }
    assert forall|
        entries: Seq<(u16, crate::cmce::cc_model::PrivateCallLocal)>,
        key: u16,
        value: crate::cmce::cc_model::PrivateCallLocal,
        at: u16,
    |
        #[trigger] crate::table::lookup(crate::table::put(entries, key, value), at) == if at
            == key {
            Some(value)
        } else {
            crate::table::lookup(entries, at)
        } by {
        crate::table::law_lookup_after_put(entries, key, value, at);
    }
}

/// Whether a traffic channel is in use: by a group call, or by a party of a
/// private call.
pub open spec fn channel_in_use(st: CcView, channel: crate::cmce::pdu::AssociatedChannel) -> bool {
    ||| crate::table::lookup(st.active_calls, channel.call_id) matches Some(call) && call.ts
        == channel.timeslot && call.usage == channel.usage
    ||| exists|i: int|
        0 <= i < st.private_circuits.len() && (#[trigger] st.private_circuits[i]).1.call_id
            == channel.call_id && st.private_circuits[i].1.ts == channel.timeslot
            && st.private_circuits[i].1.usage == channel.usage
}

proof fn lemma_first_private_channel(st: CcView, issi: u32, from: int)
    ensures
        st.first_private_channel(issi, from) matches Some(channel) ==> channel_in_use(st, channel),
    decreases st.private_circuits.len() - from,
{
    if 0 <= from < st.private_circuits.len() {
        lemma_first_private_channel(st, issi, from + 1);
        let entry = st.private_circuits[from];
        assert(entry == st.private_circuits[from]);
    }
}

/// What a terminal was heard on before never sends a message astray: the channel
/// on which it is reached is in use now. Where none is, the control channel
/// serves.
pub proof fn law_preferred_channel_is_in_use(st: CcView, issi: u32)
    ensures
        st.preferred_channel(issi) matches Some(channel) ==> channel_in_use(st, channel),
{
    reveal(CcView::preferred_channel);
    lemma_first_private_channel(st, issi, 0);
}

/// A terminal that calls a group whose call is already here joins it: no circuit
/// is opened, no timeslot taken, no call announced anew; the terminal gets its
/// two answers.
pub proof fn law_joining_opens_nothing(run: CcRun, request: SetupRequest)
    requires
        !run.swmi.is_online(),
        request.pdu.basic_service_information.communication_type != CommunicationType::P2p,
        crate::cmce::cc_procedures::group_features_supported(request.pdu),
        request.pdu.called_party_ssi is Some,
        run.st.has_listener(request.pdu.called_party_ssi->0),
        crate::cmce::cc_procedures::call_of_group(
            run.st.active_calls,
            request.pdu.called_party_ssi->0,
        ) is Some,
        !crate::table::contains(
            run.st.central_setups,
            Membership {
                issi: request.prim.received.ssi,
                gssi: request.pdu.called_party_ssi->0,
            },
        ),
    ensures
        ({
            let after = run.u_setup(request);
            &&& after.st.active_calls == run.st.active_calls
            &&& after.st.circuits == run.st.circuits
            &&& after.st.cached_setups == run.st.cached_setups
            &&& after.slots == run.slots
            &&& after.queue.len() == run.queue.len() + 2
        }),
{
    reveal(CcRun::u_setup);
}

/// A party of a private call that has left the cell takes nothing from the other
/// one: its circuit stays, and so do all other calls.
pub proof fn law_departed_party_leaves_the_other(
    run: CcRun,
    call_id: u16,
    departed_itsi: u32,
    other: CallParty,
)
    requires
        other != (CallParty { call_id, issi: departed_itsi }),
    ensures
        crate::table::lookup(
            run.detach_party(call_id, departed_itsi).st.private_circuits,
            other,
        ) == crate::table::lookup(run.st.private_circuits, other),
        run.detach_party(call_id, departed_itsi).st.active_calls == run.st.active_calls,
{
    reveal(CcRun::detach_party);
    crate::table::law_lookup_after_del(
        run.st.private_circuits,
        CallParty { call_id, issi: departed_itsi },
        other,
    );
}

/// A floor request in a private call that waits for the SwMI is not sent again:
/// neither the request nor its time starts anew.
pub proof fn law_floor_request_is_sent_once(
    run: CcRun,
    prim: crate::cmce::pdu::UplinkPrim,
    call_id: u16,
    call: crate::cmce::cc_model::PrivateCallLocal,
)
    requires
        call.connected,
        !call.duplex,
        run.swmi.takes(),
        crate::table::contains(
            run.st.private_circuits,
            CallParty { call_id, issi: prim.received.ssi },
        ),
    ensures
        ({
            let once = run.private_demand(prim, call_id, call);
            once.private_demand(prim, call_id, call) == once
        }),
{
    reveal(CcRun::private_demand);
    let party = CallParty { call_id, issi: prim.received.ssi };
    crate::table::law_lookup_after_put(
        run.st.pending_private_floors,
        party,
        run.st.dltime.plus(crate::cmce::cc_model::PRIVATE_FLOOR_RESPONSE_GRACE_TIMESLOTS as int),
        party,
    );
}

/// Recording a channel keeps the channels of every terminal in order.
pub proof fn law_recorded_channels_stay_in_order(
    run: CcRun,
    issi: u32,
    candidate: ListeningCandidate,
    other: u32,
)
    requires
        candidates_in_order(run.st.candidates_of(issi)),
        candidates_in_order(run.st.candidates_of(other)),
    ensures
        candidates_in_order(run.record(issi, candidate).st.candidates_of(other)),
        run.record(issi, candidate).st.candidates_of(issi).first == Some(candidate),
        other != issi ==> run.record(issi, candidate).st.candidates_of(other)
            == run.st.candidates_of(other),
{
    let held = crate::cmce::cc_model::pushed(run.st.candidates_of(issi), candidate);
    law_latest_channel_comes_first(run.st.candidates_of(issi), candidate);
    crate::table::law_lookup_after_put(run.st.candidates, issi, held, other);
    crate::table::law_lookup_after_put(run.st.candidates, issi, held, issi);
}

} // verus!
