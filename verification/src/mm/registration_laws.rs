//! How terminals register and leave, and what else they arrange with the network,
//! stated of what comes in and what is handed on.
use crate::bluestation::gateways::{DmMsRouteAddress, DmoCarrierState};
use crate::mm::clients::MmClient;
use crate::mm::mm_bs::MmUplink;
use crate::mm::model::{DemandView, MmRun, MmView};
use crate::mm::pdu::{
    AuthenticationKey, EnergyEconomyAssignment, EnergySavingMode, GatewayPayloadView,
    LocationUpdateType, MmMessageView, MmPdu, MmRequest, MmSwmiMessage, RegistrationDecision,
    ShortElement, StatusDownlink, StatusUplink, SubscriberUpdateAction, UAuthentication,
    ULocationUpdateDemand, UpdateReceiver,
};
use crate::tdma::TdmaTime;
use vstd::prelude::*;

verus! {

/// Whether a queue goes on from another.
pub open spec fn extends(before: Seq<MmMessageView>, after: Seq<MmMessageView>) -> bool {
    &&& before.len() <= after.len()
    &&& forall|i: int| 0 <= i < before.len() ==> #[trigger] after[i] == before[i]
}

/// Whether a short identity is that of a terminal.
pub open spec fn is_identity(ssi: u32) -> bool {
    0 < ssi <= 16777215
}

/// Whether call control is told of a terminal.
pub open spec fn tells_call_control(
    message: MmMessageView,
    issi: u32,
    action: SubscriberUpdateAction,
) -> bool {
    message matches MmMessageView::Update { head, .. } && head.to == UpdateReceiver::Cmce
        && head.issi == issi && head.action == action
}

// ---------------------------------------------------------------------------
// Location updates
// ---------------------------------------------------------------------------

/// A terminal that wants to migrate is rejected, on the handle by which it came
/// and with the cause that migration is not supported; nothing else changes. A
/// location update that asks for what the station does not have comes to nothing.
pub proof fn law_migration_is_rejected(
    run: MmRun,
    prim: MmUplink,
    pdu: ULocationUpdateDemand,
    challenge: Option<[u8; 10]>,
)
    ensures
        ({
            let after = run.location_update(
                crate::mm::mm_bs::demand_view(prim, pdu, challenge),
            );
            let migrates = pdu.location_update_type == LocationUpdateType::MigratingLocationUpdating
                || pdu.location_update_type
                == LocationUpdateType::ServiceRestorationMigratingLocationUpdating;
            &&& migrates ==> after == (MmRun {
                queue: run.queue.push(
                    MmMessageView::Downlink {
                        issi: prim.ssi,
                        handle: prim.handle,
                        pdu: MmPdu::LocationUpdateReject {
                            location_update_type: pdu.location_update_type,
                            reject_cause: 12,
                            address_extension: pdu.address_extension,
                        },
                    },
                ),
                ..run
            })
            &&& !migrates && (pdu.location_update_type == LocationUpdateType::DisabledMsUpdating
                || pdu.request_to_append_la || pdu.cipher_control || pdu.has_ciphering_parameters)
                ==> after == run
        }),
{
    reveal(MmRun::location_update);
}

/// While the SwMI is connected and takes messages it decides on a location update:
/// it gets the terminal, the handle, the type of the update and the cell that the
/// terminal is to go to; the terminal is not known for it yet, is answered only
/// when the SwMI has decided, and waits for ten seconds.
pub proof fn law_connected_location_update_goes_to_the_swmi(
    run: MmRun,
    prim: MmUplink,
    pdu: ULocationUpdateDemand,
    challenge: Option<[u8; 10]>,
)
    requires
        run.link.present && run.link.online && run.link.accepting,
        crate::mm::mm_bs::supports(pdu),
        pdu.location_update_type != LocationUpdateType::ServiceRestorationMigratingLocationUpdating,
    ensures
        ({
            let after = run.location_update(
                crate::mm::mm_bs::demand_view(prim, pdu, challenge),
            );
            let id = run.mm.next_id;
            &&& after.queue.len() == run.queue.len() + 1
            &&& extends(run.queue, after.queue)
            &&& after.queue.last() matches MmMessageView::RegistrationAttempt { head, target } && {
                &&& head.command_id == id
                &&& head.itsi == prim.ssi
                &&& head.air_handle == prim.handle
                &&& head.location_update_type == pdu.location_update_type.code()
                &&& head.address_extension == pdu.address_extension
                &&& target == prim.forward_registration_target_station_id
                &&& pdu.energy_saving_mode is Some ==> head.energy_economy.mode
                    == pdu.energy_saving_mode->0
                &&& pdu.energy_saving_mode is None ==> head.energy_economy.mode
                    == EnergySavingMode::StayAlive
                &&& head.authentication is Some <==> challenge is Some
                &&& challenge is Some ==> {
                    &&& head.authentication->0.rand_2 == challenge
                    &&& head.authentication->0.itsi == prim.ssi
                    &&& head.authentication->0.air_handle == prim.handle
                    &&& head.authentication->0.response_1 is None
                    &&& head.authentication->0.authentication_result is None
                    &&& head.authentication->0.command_id == id
                    &&& head.authentication->0.mutual
                }
            }
            &&& after.mm.clients == run.mm.clients
            &&& crate::table::lookup(after.mm.registrations, id) matches Some(waiting) && {
                &&& waiting.head.itsi == prim.ssi
                &&& waiting.head.air_handle == prim.handle
                &&& waiting.head.location_update_type == pdu.location_update_type
                &&& waiting.target == prim.forward_registration_target_station_id
            }
            &&& crate::table::lookup(after.mm.deadlines, id) == Some(run.mm.now.plus(720))
            &&& after.subscribers.is_pending(prim.ssi) && !after.subscribers.is_active(prim.ssi)
            &&& after.mm.next_id != id && after.mm.next_id != 0
        }),
{
    reveal(MmRun::location_update);
    let demand = crate::mm::mm_bs::demand_view(prim, pdu, challenge);
    let id = run.mm.next_id;
    crate::table::law_lookup_after_put(run.mm.registrations, id, demand.waiting(run.mm.now), id);
    crate::table::law_lookup_after_put(run.mm.deadlines, id, run.mm.now.plus(720), id);
    crate::bluestation::subscribers::law_delivery_states_exclude_each_other(
        run.subscribers,
        prim.ssi,
    );
    lemma_economy(run.mm.now, demand);
}

proof fn lemma_economy(now: TdmaTime, demand: DemandView)
    ensures
        demand.economy(now).mode == match demand.energy_saving_mode {
            Some(mode) => mode,
            None => EnergySavingMode::StayAlive,
        },
{
}

/// Where the station decides alone, a terminal with an identity of its own is
/// registered: it is known and attached with the energy saving that it asked for,
/// and the registry has it as registered and delivered; it is accepted on its
/// handle, as the terminal and for the type of update that it sent. A terminal
/// that comes without its groups is asked to report them.
pub proof fn law_station_alone_registers(
    run: MmRun,
    prim: MmUplink,
    pdu: ULocationUpdateDemand,
    challenge: Option<[u8; 10]>,
)
    requires
        !(run.link.present && run.link.online),
        crate::mm::mm_bs::supports(pdu),
        pdu.location_update_type != LocationUpdateType::ServiceRestorationMigratingLocationUpdating,
        pdu.group_identity_location_demand is None,
        is_identity(prim.ssi),
        run.mm.clients.known(prim.ssi) ==> run.subscribers.registered(prim.ssi),
    ensures
        ({
            let after = run.location_update(
                crate::mm::mm_bs::demand_view(prim, pdu, challenge),
            );
            let is_new = !run.mm.clients.known(prim.ssi);
            let asks = is_new && pdu.location_update_type != LocationUpdateType::ItsiAttach;
            let at = if asks {
                after.queue.len() - 2
            } else {
                after.queue.len() - 1
            };
            &&& extends(run.queue, after.queue)
            &&& run.queue.len() <= at
            &&& after.queue[at] matches MmMessageView::Accept { handle, head, groups } && {
                &&& handle == prim.handle
                &&& head.ssi == prim.ssi
                &&& head.location_update_type == pdu.location_update_type
                &&& head.energy_saving_information is Some <==> pdu.energy_saving_mode is Some
                &&& pdu.energy_saving_mode is Some ==> head.energy_saving_information->0.mode
                    == pdu.energy_saving_mode->0
                &&& head.group_accept is None && groups.len() == 0
                &&& head.seamless_handover is None && head.proprietary is None
                &&& head.authentication_downlink is None
            }
            &&& asks ==> after.queue.last() == (MmMessageView::Downlink {
                issi: prim.ssi,
                handle: prim.handle,
                pdu: MmPdu::LocationUpdateCommand { group_identity_report: true },
            })
            &&& is_new ==> exists|i: int|
                run.queue.len() <= i < at && tells_call_control(
                    #[trigger] after.queue[i],
                    prim.ssi,
                    SubscriberUpdateAction::Register,
                )
            &&& after.mm.clients.known(prim.ssi)
            &&& after.mm.clients.client(prim.ssi).state == crate::mm::clients::MmClientState::Attached
            &&& after.mm.clients.client(prim.ssi).class_of_ms == pdu.class_of_ms
            &&& after.mm.clients.client(prim.ssi).energy_economy.mode
                == match pdu.energy_saving_mode {
                Some(mode) => mode,
                None => EnergySavingMode::StayAlive,
            }
            &&& after.subscribers.registered(prim.ssi)
            &&& after.subscribers.is_active(prim.ssi) && !after.subscribers.is_pending(prim.ssi)
        }),
{
    reveal(MmRun::location_update);
    reveal(MmRun::location_update_alone);
    let demand = crate::mm::mm_bs::demand_view(prim, pdu, challenge);
    let issi = prim.ssi;
    let is_new = !run.mm.clients.known(issi);
    let after = run.location_update(demand);
    assert(after == run.location_update_alone(demand));
    let entered = if is_new {
        run.registered(issi)
    } else {
        run.attached(issi)
    };
    lemma_entered(run, issi);
    let waiting = entered.awaiting(issi, true);
    let economy = demand.economy(run.mm.now);
    let prepared = waiting.energy_applied(issi, economy);
    lemma_energy(waiting, issi, economy);
    let classed = MmRun {
        mm: MmView {
            clients: prepared.mm.clients.with(
                issi,
                MmClient { class_of_ms: demand.class_of_ms, ..prepared.mm.clients.client(issi) },
            ),
            ..prepared.mm
        },
        ..prepared
    };
    crate::table::law_lookup_after_put(
        prepared.mm.clients.clients,
        issi,
        MmClient { class_of_ms: demand.class_of_ms, ..prepared.mm.clients.client(issi) },
        issi,
    );
    crate::bluestation::subscribers::law_delivery_states_exclude_each_other(
        classed.subscribers,
        issi,
    );
    assert(after.mm == classed.mm);
    assert(after.subscribers == classed.subscribers.activated(issi));
    assert(entered.queue == prepared.queue);
    if is_new {
        let i = entered.queue.len() - 1;
        assert(after.queue[i] == entered.queue[i]);
        assert(tells_call_control(after.queue[i], issi, SubscriberUpdateAction::Register));
    }
}

proof fn lemma_entered(run: MmRun, issi: u32)
    requires
        is_identity(issi),
        run.mm.clients.known(issi) ==> run.subscribers.registered(issi),
    ensures
        ({
            let is_new = !run.mm.clients.known(issi);
            let entered = if is_new {
                run.registered(issi)
            } else {
                run.attached(issi)
            };
            &&& entered.mm.clients.known(issi)
            &&& entered.mm.clients.client(issi).state == crate::mm::clients::MmClientState::Attached
            &&& entered.subscribers.registered(issi)
            &&& extends(run.queue, entered.queue)
            &&& is_new ==> run.queue.len() < entered.queue.len() && tells_call_control(
                entered.queue.last(),
                issi,
                SubscriberUpdateAction::Register,
            )
        }),
{
    let fresh = MmClient {
        state: crate::mm::clients::MmClientState::Attached,
        energy_economy: EnergyEconomyAssignment::stay_alive(),
        scanning_enabled: true,
        class_of_ms: None,
    };
    crate::table::law_lookup_after_put(run.mm.clients.clients, issi, fresh, issi);
    crate::table::law_lookup_after_put(
        run.mm.clients.clients,
        issi,
        MmClient {
            state: crate::mm::clients::MmClientState::Attached,
            ..run.mm.clients.client(issi)
        },
        issi,
    );
    crate::bluestation::subscribers::law_registration_starts_anew(run.subscribers, issi, 0);
}

proof fn lemma_energy(run: MmRun, issi: u32, economy: EnergyEconomyAssignment)
    requires
        run.mm.clients.known(issi),
        run.subscribers.registered(issi),
    ensures
        ({
            let after = run.energy_applied(issi, economy);
            &&& after.mm.clients.known(issi)
            &&& after.mm.clients.client(issi) == (MmClient {
                energy_economy: economy,
                ..run.mm.clients.client(issi)
            })
            &&& after.subscribers.registered(issi)
            &&& after.queue == run.queue
            &&& after.subscribers.known(issi).energy_economy_mode == economy.mode.code()
            &&& after.subscribers.known(issi).energy_economy_frame_number == economy.frame_number
            &&& after.subscribers.known(issi).energy_economy_multiframe_number
                == economy.multiframe_number
            &&& economy.mode != EnergySavingMode::StayAlive ==> after.subscribers.known(
                issi,
            ).energy_economy_activation_pending
            &&& after.subscribers.active == run.subscribers.active
            &&& after.subscribers.pending == run.subscribers.pending
        }),
{
    crate::table::law_lookup_after_put(
        run.mm.clients.clients,
        issi,
        MmClient { energy_economy: economy, ..run.mm.clients.client(issi) },
        issi,
    );
    let stored = run.energy_stored(issi, economy);
    let known = crate::bluestation::subscribers::Subscriber {
        energy_economy_mode: economy.mode.code(),
        energy_economy_frame_number: economy.frame_number,
        energy_economy_multiframe_number: economy.multiframe_number,
        ..run.subscribers.known(issi)
    };
    crate::table::law_lookup_after_put(run.subscribers.subscribers, issi, known, issi);
    crate::table::law_lookup_after_put(
        stored.subscribers.subscribers,
        issi,
        crate::bluestation::subscribers::Subscriber {
            energy_economy_activation_pending: true,
            ..stored.subscribers.known(issi)
        },
        issi,
    );
}

// ---------------------------------------------------------------------------
// Decisions of the SwMI
// ---------------------------------------------------------------------------

/// A location update that the SwMI rejects is rejected to the terminal that sent
/// it, on its handle, for its type of update and with the cause that the SwMI
/// gave; it no longer waits, the delivery is no longer awaited, and no terminal
/// becomes known.
pub proof fn law_rejected_location_update_is_told(run: MmRun, decision: RegistrationDecision)
    requires
        crate::table::contains(run.mm.registrations, decision.command_id),
        (crate::table::lookup(run.mm.registrations, decision.command_id)->0).head.itsi
            == decision.itsi,
        (crate::table::lookup(run.mm.registrations, decision.command_id)->0).head.air_handle
            == decision.air_handle,
        !decision.accepted,
    ensures
        ({
            let waiting = crate::table::lookup(run.mm.registrations, decision.command_id)->0;
            let after = crate::mm::mm_bs::swmi_received(
                run,
                MmSwmiMessage::RegistrationDecision(decision),
            );
            &&& after.queue == run.queue.push(
                MmMessageView::Downlink {
                    issi: waiting.head.itsi,
                    handle: waiting.head.air_handle,
                    pdu: MmPdu::LocationUpdateReject {
                        location_update_type: waiting.head.location_update_type,
                        reject_cause: decision.cause as u8,
                        address_extension: waiting.head.address_extension,
                    },
                },
            )
            &&& !crate::table::contains(after.mm.registrations, decision.command_id)
            &&& !crate::table::contains(after.mm.deadlines, decision.command_id)
            &&& after.mm.clients == run.mm.clients
            &&& !after.subscribers.is_pending(waiting.head.itsi)
        }),
{
    reveal(MmRun::registration_decided);
    let id = decision.command_id;
    let waiting = crate::table::lookup(run.mm.registrations, id)->0;
    crate::table::law_lookup_after_del(run.mm.registrations, id, id);
    crate::table::law_lookup_after_del(run.mm.deadlines, id, id);
    crate::bluestation::subscribers::law_delivery_states_exclude_each_other(
        run.subscribers,
        waiting.head.itsi,
    );
}

/// A location update that the SwMI accepts, and that named no groups, is accepted
/// to the terminal that sent it: on its handle, with the energy economy of the
/// SwMI, with the result of its authentication if it passed one, and with the
/// request for a user assignment if the SwMI wants one. The terminal is known,
/// registered and delivered.
pub proof fn law_accepted_location_update_registers(run: MmRun, decision: RegistrationDecision)
    requires
        crate::table::contains(run.mm.registrations, decision.command_id),
        (crate::table::lookup(run.mm.registrations, decision.command_id)->0).head.itsi
            == decision.itsi,
        (crate::table::lookup(run.mm.registrations, decision.command_id)->0).head.air_handle
            == decision.air_handle,
        (crate::table::lookup(run.mm.registrations, decision.command_id)->0).target is None,
        (crate::table::lookup(run.mm.registrations, decision.command_id)->0).attachment is None,
        decision.accepted,
        is_identity(
            (crate::table::lookup(run.mm.registrations, decision.command_id)->0).head.itsi,
        ),
        run.mm.clients.known(
            (crate::table::lookup(run.mm.registrations, decision.command_id)->0).head.itsi,
        ) ==> run.subscribers.registered(
            (crate::table::lookup(run.mm.registrations, decision.command_id)->0).head.itsi,
        ),
    ensures
        ({
            let waiting = crate::table::lookup(run.mm.registrations, decision.command_id)->0;
            let issi = waiting.head.itsi;
            let after = crate::mm::mm_bs::swmi_received(
                run,
                MmSwmiMessage::RegistrationDecision(decision),
            );
            &&& extends(run.queue, after.queue)
            &&& run.queue.len() < after.queue.len()
            &&& after.queue.last() matches MmMessageView::Accept { handle, head, groups } && {
                &&& handle == waiting.head.air_handle
                &&& head.ssi == issi
                &&& head.location_update_type == waiting.head.location_update_type
                &&& decision.energy_economy.mode != EnergySavingMode::StayAlive
                    ==> head.energy_saving_information == Some(decision.energy_economy)
                &&& decision.energy_economy.mode == EnergySavingMode::StayAlive
                    ==> head.energy_saving_information is None
                &&& head.authentication_downlink is Some <==> crate::table::contains(
                    run.mm.authenticated,
                    decision.command_id,
                )
                &&& head.proprietary is Some <==> decision.rua_requested
                &&& head.seamless_handover is None
                &&& head.group_accept is Some
                    <==> waiting.head.has_group_identity_location_demand
                &&& head.group_accept is Some ==> !head.group_accept->0.rejected
                    && !head.group_accept->0.listed
                &&& groups.len() == 0
            }
            &&& after.mm.clients.known(issi)
            &&& after.mm.clients.client(issi).energy_economy == decision.energy_economy
            &&& after.subscribers.registered(issi)
            &&& after.subscribers.is_active(issi) && !after.subscribers.is_pending(issi)
            &&& !crate::table::contains(after.mm.registrations, decision.command_id)
        }),
{
    reveal(MmRun::registration_decided);
    reveal(MmRun::registration_accepted);
    let id = decision.command_id;
    let waiting = crate::table::lookup(run.mm.registrations, id)->0;
    let issi = waiting.head.itsi;
    crate::table::law_lookup_after_del(run.mm.registrations, id, id);
    let untimed = MmRun {
        mm: MmView { deadlines: crate::table::del(run.mm.deadlines, id), ..run.mm },
        ..run
    };
    let taken = MmRun {
        mm: MmView {
            registrations: crate::table::del(untimed.mm.registrations, id),
            ..untimed.mm
        },
        ..untimed
    };
    let closed = taken.authentication_closed(
        AuthenticationKey { issi, air_handle: waiting.head.air_handle },
        id,
    );
    lemma_entered(closed, issi);
    let is_new = !closed.mm.clients.known(issi);
    let entered = if is_new {
        closed.registered(issi)
    } else {
        closed.attached(issi)
    };
    let delivering = entered.awaiting(issi, true);
    lemma_energy(delivering, issi, decision.energy_economy);
    let prepared = delivering.energy_applied(issi, decision.energy_economy);
    crate::bluestation::subscribers::law_delivery_states_exclude_each_other(
        prepared.subscribers,
        issi,
    );
    let after = crate::mm::mm_bs::swmi_received(
        run,
        MmSwmiMessage::RegistrationDecision(decision),
    );
    assert(after.mm == prepared.mm);
    assert(after.subscribers == prepared.subscribers.activated(issi));
    assert(prepared.mm.registrations == taken.mm.registrations);
}

/// A location update for another cell that the SwMI accepts is accepted with the
/// channel that is reserved there, carrier, timeslots and usage; the terminal is
/// not registered here.
pub proof fn law_forward_registration_is_accepted(run: MmRun, decision: RegistrationDecision)
    requires
        crate::table::contains(run.mm.registrations, decision.command_id),
        (crate::table::lookup(run.mm.registrations, decision.command_id)->0).head.itsi
            == decision.itsi,
        (crate::table::lookup(run.mm.registrations, decision.command_id)->0).head.air_handle
            == decision.air_handle,
        (crate::table::lookup(run.mm.registrations, decision.command_id)->0).target is Some,
        decision.accepted,
    ensures
        ({
            let waiting = crate::table::lookup(run.mm.registrations, decision.command_id)->0;
            let after = crate::mm::mm_bs::swmi_received(
                run,
                MmSwmiMessage::RegistrationDecision(decision),
            );
            let bits = (decision.handover_allocation->0).timeslot_bitmap as int;
            &&& after.queue.len() == run.queue.len() + 1
            &&& extends(run.queue, after.queue)
            &&& after.queue.last() matches MmMessageView::Accept { handle, head, .. } && {
                &&& handle == waiting.head.air_handle
                &&& head.ssi == waiting.head.itsi
                &&& head.seamless_handover is Some <==> decision.handover_allocation is Some
                &&& decision.handover_allocation is Some ==> {
                    let channel = head.seamless_handover->0;
                    &&& channel.carrier == (decision.handover_allocation->0).carrier
                    &&& channel.usage == (decision.handover_allocation->0).usage
                    &&& channel.ts1 <==> bits % 2 == 1
                    &&& channel.ts2 <==> bits / 2 % 2 == 1
                    &&& channel.ts3 <==> bits / 4 % 2 == 1
                    &&& channel.ts4 <==> bits / 8 % 2 == 1
                }
            }
            &&& after.mm.clients == run.mm.clients
            &&& !after.subscribers.is_pending(waiting.head.itsi)
        }),
{
    reveal(MmRun::registration_decided);
    reveal(MmRun::registration_accepted);
    let id = decision.command_id;
    let waiting = crate::table::lookup(run.mm.registrations, id)->0;
    crate::bluestation::subscribers::law_delivery_states_exclude_each_other(
        run.subscribers,
        waiting.head.itsi,
    );
    if decision.handover_allocation is Some {
        let bitmap = (decision.handover_allocation->0).timeslot_bitmap;
        assert((bitmap & 1 != 0) == (bitmap % 2 == 1) && (bitmap & 2 != 0) == (bitmap / 2 % 2 == 1)
            && (bitmap & 4 != 0) == (bitmap / 4 % 2 == 1) && (bitmap & 8 != 0) == (bitmap / 8 % 2
            == 1)) by (bit_vector);
    }
}

/// A location update that the SwMI has not decided on in time is rejected to the
/// terminal that sent it, on its handle, as a failure of the network; it waits no
/// longer.
pub proof fn law_late_location_update_fails(run: MmRun, id: u64)
    requires
        crate::table::contains(run.mm.registrations, id),
    ensures
        ({
            let waiting = crate::table::lookup(run.mm.registrations, id)->0;
            let after = run.timed_out(id);
            &&& after.queue == run.queue.push(
                MmMessageView::Downlink {
                    issi: waiting.head.itsi,
                    handle: waiting.head.air_handle,
                    pdu: MmPdu::LocationUpdateReject {
                        location_update_type: waiting.head.location_update_type,
                        reject_cause: 5,
                        address_extension: waiting.head.address_extension,
                    },
                },
            )
            &&& !crate::table::contains(after.mm.registrations, id)
            &&& !crate::table::contains(after.mm.deadlines, id)
            &&& !after.subscribers.is_pending(waiting.head.itsi)
            &&& after.mm.clients == run.mm.clients
        }),
{
    let waiting = crate::table::lookup(run.mm.registrations, id)->0;
    crate::table::law_lookup_after_del(run.mm.registrations, id, id);
    crate::table::law_lookup_after_del(run.mm.deadlines, id, id);
    crate::bluestation::subscribers::law_delivery_states_exclude_each_other(
        run.subscribers,
        waiting.head.itsi,
    );
}

// ---------------------------------------------------------------------------
// Leaving
// ---------------------------------------------------------------------------

/// A terminal that leaves is told to the connected SwMI, and to call control as
/// one that has left its groups and the cell; it is known no more. A terminal
/// that is not known is told to the SwMI all the same.
pub proof fn law_leaving_terminal_is_told(run: MmRun, issi: u32)
    ensures
        ({
            let after = run.itsi_detach(issi);
            let n = run.queue.len() as int;
            let taken = run.link.present && run.link.online && run.link.accepting;
            &&& extends(run.queue, after.queue)
            &&& taken ==> n < after.queue.len() && after.queue[n] == MmMessageView::Request(
                MmRequest::DeregistrationNotice { command_id: run.mm.next_id, itsi: issi as u64 },
            )
            &&& run.mm.clients.known(issi) ==> tells_call_control(
                after.queue.last(),
                issi,
                SubscriberUpdateAction::Deregister,
            )
            &&& !run.mm.clients.known(issi) && !taken ==> after.queue == run.queue
            &&& !after.mm.clients.known(issi)
            &&& forall|other: u32|
                other != issi ==> #[trigger] after.mm.clients.known(other)
                    == run.mm.clients.known(other)
        }),
{
    reveal(MmRun::removed);
    let after = run.itsi_detach(issi);
    crate::table::law_lookup_after_del(run.mm.clients.clients, issi, issi);
    assert forall|other: u32| other != issi implies #[trigger] after.mm.clients.known(other)
        == run.mm.clients.known(other) by {
        crate::table::law_lookup_after_del(run.mm.clients.clients, issi, other);
    }
}

// ---------------------------------------------------------------------------
// Energy economy and scanning
// ---------------------------------------------------------------------------

/// The mode in the information of a status is the number in its first three bits.
pub proof fn law_mode_is_the_first_three_bits(information: u64, len: u8)
    requires
        3 <= len <= 64,
        information < vstd::arithmetic::power2::pow2(len as nat),
    ensures
        crate::mm::model::mode_in(Some(information), Some(len)).code() == information
            / vstd::arithmetic::power2::pow2((len - 3) as nat) as u64,
        crate::mm::model::mode_in(None, Some(len)) == EnergySavingMode::StayAlive,
        crate::mm::model::mode_in(Some(information), None) == EnergySavingMode::StayAlive,
        crate::mm::model::mode_in(Some(information), Some(2)) == EnergySavingMode::StayAlive,
{
    let shift = (len - 3) as u64;
    vstd::bits::lemma_u64_shr_is_div(information, shift);
    vstd::arithmetic::power2::lemma_pow2_adds((len - 3) as nat, 3);
    vstd::arithmetic::power2::lemma2_to64();
    vstd::arithmetic::power2::lemma_pow2_pos((len - 3) as nat);
    let p = vstd::arithmetic::power2::pow2((len - 3) as nat) as int;
    let q = (information as int) / p;
    assert(q < 8) by (nonlinear_arith)
        requires
            p > 0,
            (information as int) < p * 8,
            q == (information as int) / p,
    ;
    assert((information >> shift) == q);
    crate::mm::pdu::law_energy_saving_code(EnergySavingMode::StayAlive, information >> shift);
    vstd::bits::lemma_u64_pow2_no_overflow((len - 3) as nat);
}

/// A terminal that asks for an energy saving mode is given that mode: the
/// connected SwMI is asked for it, in the name of the terminal and with the phase
/// that the station would give, or the station gives it itself, stores it and
/// tells the terminal on its handle.
pub proof fn law_energy_saving_is_given(
    run: MmRun,
    issi: u32,
    handle: u32,
    mode: EnergySavingMode,
)
    requires
        run.mm.clients.known(issi),
        run.subscribers.registered(issi),
    ensures
        ({
            let after = run.energy_requested(issi, handle, mode);
            let asked = run.link.present && run.link.online && run.link.accepting;
            &&& after.queue.len() == run.queue.len() + 1
            &&& extends(run.queue, after.queue)
            &&& asked ==> {
                &&& after.queue.last() matches MmMessageView::Request(
                    MmRequest::EnergyEconomyUpdate {
                        command_id,
                        itsi,
                        air_handle,
                        energy_economy,
                    },
                ) && command_id == run.mm.next_id && itsi == issi && air_handle == handle
                    && energy_economy.mode == mode
                &&& after.mm.clients == run.mm.clients
                &&& crate::table::lookup(after.mm.energy, run.mm.next_id) matches Some(waiting)
                    && waiting.issi == issi && waiting.air_handle == handle
            }
            &&& !asked ==> {
                &&& after.queue.last() matches MmMessageView::Downlink {
                    issi: to,
                    handle: by,
                    pdu: MmPdu::EnergySavingResponse { information },
                } && {
                    &&& to == issi && by == handle && information.mode == mode
                    &&& after.mm.clients.client(issi).energy_economy == information
                    &&& after.subscribers.known(issi).energy_economy_frame_number
                        == information.frame_number
                }
                &&& after.subscribers.known(issi).energy_economy_mode == mode.code()
                &&& mode != EnergySavingMode::StayAlive ==> after.subscribers.known(
                    issi,
                ).energy_economy_activation_pending
            }
        }),
{
    let economy = crate::mm::model::economy_at(run.mm.now, mode);
    crate::table::law_lookup_after_put(
        run.mm.energy,
        run.mm.next_id,
        crate::mm::pending::EnergyRequest { issi, air_handle: handle },
        run.mm.next_id,
    );
    lemma_energy(run, issi, economy);
    lemma_energy(run.numbered(), issi, economy);
}

/// An energy economy that the SwMI grants to a terminal that asked for it is
/// stored and told to that terminal, as the SwMI gave it; the request no longer
/// waits. One that the SwMI refuses is stored nowhere.
pub proof fn law_energy_decision_is_carried_out(
    run: MmRun,
    id: u64,
    accepted: bool,
    economy: EnergyEconomyAssignment,
)
    requires
        crate::table::contains(run.mm.energy, id),
        run.mm.clients.known((crate::table::lookup(run.mm.energy, id)->0).issi),
        run.subscribers.registered((crate::table::lookup(run.mm.energy, id)->0).issi),
    ensures
        ({
            let waiting = crate::table::lookup(run.mm.energy, id)->0;
            let after = run.energy_decided(
                id,
                waiting.issi as u64,
                waiting.air_handle,
                accepted,
                economy,
            );
            &&& !crate::table::contains(after.mm.energy, id)
            &&& accepted ==> {
                &&& after.queue == run.queue.push(
                    MmMessageView::Downlink {
                        issi: waiting.issi,
                        handle: waiting.air_handle,
                        pdu: MmPdu::EnergySavingResponse { information: economy },
                    },
                )
                &&& after.mm.clients.client(waiting.issi).energy_economy == economy
                &&& after.subscribers.known(waiting.issi).energy_economy_mode == economy.mode.code()
            }
            &&& !accepted ==> after.queue == run.queue && after.mm.clients == run.mm.clients
                && after.subscribers == run.subscribers
        }),
{
    let waiting = crate::table::lookup(run.mm.energy, id)->0;
    crate::table::law_lookup_after_del(run.mm.energy, id, id);
    let taken = MmRun {
        mm: MmView { energy: crate::table::del(run.mm.energy, id), ..run.mm },
        ..run
    };
    lemma_energy(taken, waiting.issi, economy);
}

/// The phase that the SwMI asks for is told to it, under its request and for its
/// terminal, with the mode that it named.
pub proof fn law_phase_is_told(run: MmRun, request_id: u64, itsi: u64, mode: u8)
    requires
        run.link.present && run.link.accepting,
        1 <= mode <= 7,
        itsi <= 0xffff_ffff,
    ensures
        run.rebase_requested(request_id, itsi, mode).queue.last() matches MmMessageView::Request(
            MmRequest::EnergyEconomyRebaseResult { request_id: of, itsi: to, energy_economy },
        ) && of == request_id && to == itsi && energy_economy.mode.code() == mode
            && energy_economy.frame_number is Some && energy_economy.multiframe_number is Some,
        run.rebase_requested(request_id, itsi, mode).queue.drop_last() == run.queue,
{
    crate::mm::pdu::law_energy_saving_code(EnergySavingMode::StayAlive, mode as u64);
    let after = run.rebase_requested(request_id, itsi, mode);
    assert(after.queue.drop_last() =~= run.queue);
}

/// A terminal that reports whether it scans groups is taken at its word, by its
/// first bit: mobility management and the registry store it, the connected SwMI
/// is told, and call control is told.
pub proof fn law_scanning_state_is_taken(run: MmRun, issi: u32, handle: u32, enabled: bool)
    requires
        run.mm.clients.known(issi),
        run.subscribers.registered(issi),
    ensures
        ({
            let after = run.status_reported(
                issi,
                handle,
                StatusUplink::ChangeOfScanningState,
                Some(
                    if enabled {
                        0
                    } else {
                        1
                    },
                ),
                Some(1),
                None,
            );
            &&& extends(run.queue, after.queue)
            &&& after.mm.clients.client(issi).scanning_enabled == enabled
            &&& after.subscribers.known(issi).scanning_enabled == enabled
            &&& after.queue.last() matches MmMessageView::Update { head, groups, .. } && {
                &&& head.to == UpdateReceiver::Cmce
                &&& head.issi == issi
                &&& head.action == SubscriberUpdateAction::ScanningState
                &&& head.scanning_enabled == Some(enabled)
            }
            &&& run.link.present && run.link.online && run.link.accepting
                ==> after.queue[run.queue.len() as int] == MmMessageView::Request(
                MmRequest::ScanningStateUpdate {
                    command_id: run.mm.next_id,
                    itsi: issi as u64,
                    scanning_enabled: enabled,
                },
            )
        }),
{
    reveal(MmRun::status_reported);
    assert((0u64 >> 0u64) & 1 == 0 && (1u64 >> 0u64) & 1 == 1) by (bit_vector);
    crate::table::law_lookup_after_put(
        run.mm.clients.clients,
        issi,
        MmClient { scanning_enabled: enabled, ..run.mm.clients.client(issi) },
        issi,
    );
    crate::table::law_lookup_after_put(
        run.subscribers.subscribers,
        issi,
        crate::bluestation::subscribers::Subscriber {
            scanning_enabled: enabled,
            ..run.subscribers.known(issi)
        },
        issi,
    );
}

// ---------------------------------------------------------------------------
// Gateways
// ---------------------------------------------------------------------------

/// Whether a message answers a gateway.
pub open spec fn answers_gateway(
    message: MmMessageView,
    issi: u32,
    handle: u32,
    status: StatusDownlink,
) -> bool {
    message matches MmMessageView::Downlink {
        issi: to,
        handle: by,
        pdu: MmPdu::GatewayStatus { status_downlink, .. },
    } && to == issi && by == handle && status_downlink == status
}

/// A registered terminal that starts as a gateway is one, with exactly the
/// addresses that it named behind it and on the carrier that it named, and is
/// told so; one that is not registered is refused and is none. One that stops is
/// none any more.
pub proof fn law_gateway_starts_and_stops(
    run: MmRun,
    issi: u32,
    handle: u32,
    addresses: Seq<DmMsRouteAddress>,
    carrier: Option<DmoCarrierState>,
    address: DmMsRouteAddress,
    other: u32,
)
    requires
        run.gateways.wf(),
        other != issi,
    ensures
        ({
            let started = run.status_reported(
                issi,
                handle,
                StatusUplink::RequestToStartDmGatewayOperation,
                None,
                None,
                Some(GatewayPayloadView::Start { addresses, dmo_carrier: carrier }),
            );
            let stopped = run.status_reported(
                issi,
                handle,
                StatusUplink::RequestToStopDmGatewayOperation,
                None,
                None,
                None,
            );
            &&& run.subscribers.registered(issi) ==> {
                &&& started.gateways.is_active(issi)
                &&& started.gateways.reaches(issi, address) == addresses.contains(address)
                &&& (started.gateways.session(issi)->0).dmo_carrier == carrier
                &&& answers_gateway(
                    started.queue.last(),
                    issi,
                    handle,
                    StatusDownlink::AcceptanceToStartDmGatewayOperation,
                )
            }
            &&& !run.subscribers.registered(issi) ==> {
                &&& started.gateways == run.gateways
                &&& answers_gateway(
                    started.queue.last(),
                    issi,
                    handle,
                    StatusDownlink::RejectionToStartDmGatewayOperation,
                )
            }
            &&& started.gateways.reaches(other, address) == run.gateways.reaches(other, address)
            &&& !stopped.gateways.is_active(issi)
            &&& !stopped.gateways.reaches(issi, address)
            &&& stopped.gateways.reaches(other, address) == run.gateways.reaches(other, address)
            &&& answers_gateway(
                stopped.queue.last(),
                issi,
                handle,
                StatusDownlink::AcceptanceToStopDmGatewayOperation,
            )
        }),
{
    reveal(MmRun::status_reported);
    crate::bluestation::gateways::law_activation(
        run.gateways,
        issi,
        carrier,
        addresses,
        run.mm.now,
        issi,
        address,
    );
    crate::bluestation::gateways::law_activation(
        run.gateways,
        issi,
        carrier,
        addresses,
        run.mm.now,
        other,
        address,
    );
    crate::bluestation::gateways::law_deactivation(run.gateways, issi, issi, address);
    crate::bluestation::gateways::law_deactivation(run.gateways, issi, other, address);
}

/// An active gateway that adds, removes or replaces addresses reaches what it
/// reached with them, without them, or them alone, and is told so; the connected
/// SwMI gets all that is behind it then. No other gateway is touched, and one
/// that is not active changes nothing.
pub proof fn law_gateway_addresses_change(
    run: MmRun,
    issi: u32,
    handle: u32,
    addresses: Seq<DmMsRouteAddress>,
    address: DmMsRouteAddress,
    other: u32,
)
    requires
        run.gateways.wf(),
        other != issi,
    ensures
        ({
            let payload = Some(GatewayPayloadView::Addresses(addresses));
            let status = |kind: StatusUplink|
                run.status_reported(issi, handle, kind, None, None, payload);
            let more = status(StatusUplink::RequestToAddDmMsAddresses);
            let fewer = status(StatusUplink::RequestToRemoveDmMsAddresses);
            let others = status(StatusUplink::RequestToReplaceDmMsAddresses);
            let named = addresses.contains(address);
            let accepted = StatusDownlink::AcceptanceOfDmMsAddresses;
            &&& !run.gateways.is_active(issi) ==> more == run && fewer == run && others == run
            &&& run.gateways.is_active(issi) ==> {
                &&& more.gateways.reaches(issi, address) == (run.gateways.reaches(issi, address)
                    || named)
                &&& fewer.gateways.reaches(issi, address) == (run.gateways.reaches(issi, address)
                    && !named)
                &&& others.gateways.reaches(issi, address) == named
                &&& more.gateways.reaches(other, address) == run.gateways.reaches(other, address)
                &&& fewer.gateways.reaches(other, address) == run.gateways.reaches(other, address)
                &&& others.gateways.reaches(other, address) == run.gateways.reaches(other, address)
                &&& answers_gateway(more.queue.last(), issi, handle, accepted)
                &&& answers_gateway(fewer.queue.last(), issi, handle, accepted)
                &&& answers_gateway(others.queue.last(), issi, handle, accepted)
            }
        }),
{
    reveal(MmRun::status_reported);
    crate::bluestation::gateways::law_addresses(
        run.gateways,
        issi,
        addresses,
        run.mm.now,
        issi,
        address,
    );
    crate::bluestation::gateways::law_addresses(
        run.gateways,
        issi,
        addresses,
        run.mm.now,
        other,
        address,
    );
    let carrier = match run.gateways.session(issi) {
        Some(session) => session.dmo_carrier,
        None => None,
    };
    crate::bluestation::gateways::law_activation(
        run.gateways,
        issi,
        carrier,
        addresses,
        run.mm.now,
        issi,
        address,
    );
    crate::bluestation::gateways::law_activation(
        run.gateways,
        issi,
        carrier,
        addresses,
        run.mm.now,
        other,
        address,
    );
}

/// What the connected SwMI is told of a gateway is what holds: the gateway, its
/// carrier, and exactly the addresses that are behind it.
pub proof fn law_published_gateway_state_holds(
    run: MmRun,
    issi: u32,
    active: bool,
    address: DmMsRouteAddress,
)
    requires
        run.link.present && run.link.online && run.link.accepting,
        run.gateways.is_active(issi),
    ensures
        ({
            let after = run.published(issi, active);
            &&& after.queue.len() == run.queue.len() + 1
            &&& extends(run.queue, after.queue)
            &&& after.queue.last() matches MmMessageView::GatewayState { head, addresses } && {
                &&& head.gateway_issi == issi
                &&& head.active == active
                &&& head.command_id == run.mm.next_id
                &&& head.dmo_carrier == (run.gateways.session(issi)->0).dmo_carrier
                &&& addresses.contains(address) <==> run.gateways.reaches(issi, address)
            }
        }),
{
    crate::bluestation::gateways::law_lists_hold_what_is_reached(run.gateways);
}

// ---------------------------------------------------------------------------
// Authentication
// ---------------------------------------------------------------------------

/// A challenge of the SwMI reaches its terminal on its handle unchanged, and what
/// that terminal answers on that handle goes back to the SwMI unchanged, in its
/// name and under the number of the challenge.
pub proof fn law_challenge_is_answered_under_its_number(
    run: MmRun,
    id: u64,
    issi: u32,
    handle: u32,
    rand_1: [u8; 10],
    seed: [u8; 10],
    answer: UAuthentication,
)
    requires
        run.link.present && run.link.accepting,
    ensures
        ({
            let asked = crate::mm::mm_bs::swmi_received(
                run,
                MmSwmiMessage::AuthenticationChallenge {
                    command_id: id,
                    itsi: issi as u64,
                    air_handle: handle,
                    rand_1,
                    random_seed: seed,
                },
            );
            let answered = asked.authentication_received(issi, handle, answer);
            &&& asked.queue == run.queue.push(
                MmMessageView::Downlink {
                    issi,
                    handle,
                    pdu: MmPdu::AuthenticationDemand { rand_1, random_seed: seed },
                },
            )
            &&& answered.queue.len() == asked.queue.len() + 1
            &&& extends(asked.queue, answered.queue)
            &&& answered.queue.last() matches MmMessageView::Request(
                MmRequest::AuthenticationResponse(message),
            ) && {
                &&& message.command_id == id
                &&& message.itsi == issi
                &&& message.air_handle == handle
                &&& message.response_1 == answer.response_1
                &&& message.rand_2 == answer.rand_2
                &&& message.mutual == answer.mutual
                &&& message.authentication_result == answer.authentication_result
            }
            &&& answer.authentication_result == Some(true) ==> crate::table::contains(
                answered.mm.authenticated,
                id,
            )
            &&& answer.authentication_result == Some(false) ==> !crate::table::contains(
                answered.mm.authenticated,
                id,
            )
        }),
{
    let key = AuthenticationKey { issi, air_handle: handle };
    crate::table::law_lookup_after_put(run.mm.auth, key, id, key);
    crate::table::law_lookup_after_put(run.mm.authenticated, id, true, id);
    crate::table::law_lookup_after_del(run.mm.authenticated, id, id);
}

/// The result of an authentication is told to its terminal on its handle; a
/// terminal that failed is rejected for it, and one that passed counts as
/// authenticated.
pub proof fn law_authentication_result_is_told(
    run: MmRun,
    id: u64,
    issi: u32,
    handle: u32,
    success: bool,
    response_2: Option<u32>,
)
    ensures
        ({
            let after = crate::mm::mm_bs::swmi_received(
                run,
                MmSwmiMessage::AuthenticationResult {
                    command_id: id,
                    itsi: issi as u64,
                    air_handle: handle,
                    success,
                    response_2,
                },
            );
            let n = run.queue.len() as int;
            &&& extends(run.queue, after.queue)
            &&& after.queue.len() == n + if success {
                1int
            } else {
                2int
            }
            &&& after.queue[n] == (MmMessageView::Downlink {
                issi,
                handle,
                pdu: MmPdu::AuthenticationResult {
                    success,
                    mutual: response_2 is Some,
                    response_2,
                },
            })
            &&& !success ==> (after.queue.last() matches MmMessageView::Downlink {
                issi: to,
                handle: by,
                pdu: MmPdu::LocationUpdateReject { reject_cause, .. },
            } && to == issi && by == handle && reject_cause == 19)
            &&& crate::table::contains(after.mm.authenticated, id) == success
        }),
{
    crate::table::law_lookup_after_put(run.mm.authenticated, id, true, id);
    crate::table::law_lookup_after_del(run.mm.authenticated, id, id);
}

/// The element that tells a terminal of its authentication says that it
/// succeeded; the one that asks for a user assignment is there only where one is
/// asked for.
pub proof fn law_elements_of_an_acceptance(wanted: bool)
    ensures
        crate::mm::model::authentication_element(wanted) == if wanted {
            Some(ShortElement { len: 3, data: 4 })
        } else {
            None
        },
        crate::mm::model::assignment_element(wanted) is Some <==> wanted,
{
}

// ---------------------------------------------------------------------------
// Recovery
// ---------------------------------------------------------------------------

/// A request of the SwMI for what the station knows is answered once, with every
/// terminal that is known, as it is known, and every group that one is in.
pub proof fn law_recovery_names_all(run: MmRun, id: u64, i: int, j: int)
    requires
        run.link.present && run.link.accepting,
        !crate::table::contains(run.mm.recoveries, id),
        0 <= i < run.mm.clients.clients.len(),
        0 <= j < run.mm.clients.groups.len(),
    ensures
        ({
            let after = run.recovery_requested(id);
            &&& after.queue.len() == run.queue.len() + 1
            &&& extends(run.queue, after.queue)
            &&& after.queue.last() matches MmMessageView::RecoverySnapshot {
                command_id,
                subscribers,
                groups,
            } && {
                &&& command_id == id
                &&& subscribers.len() == run.mm.clients.clients.len()
                &&& groups.len() == run.mm.clients.groups.len()
                &&& subscribers[i].itsi == run.mm.clients.clients[i].0
                &&& subscribers[i].scanning_enabled == run.mm.clients.clients[i].1.scanning_enabled
                &&& subscribers[i].energy_economy == run.mm.clients.clients[i].1.energy_economy
                &&& groups[j].itsi == run.mm.clients.groups[j].0.issi
                &&& groups[j].gssi == run.mm.clients.groups[j].0.gssi
                &&& groups[j].class_of_usage == run.mm.clients.groups[j].1
            }
            &&& after.recovery_requested(id) == after
        }),
{
    crate::table::law_lookup_after_put(run.mm.recoveries, id, true, id);
}

/// A terminal that the SwMI does not want here, after the station has worked
/// alone or at any other time, is known no more.
pub proof fn law_unwanted_terminal_is_removed(run: MmRun, issi: u32)
    ensures
        !crate::mm::mm_bs::swmi_received(
            run,
            MmSwmiMessage::DeregistrationNotice { command_id: 0, itsi: issi as u64 },
        ).mm.clients.known(issi),
{
    reveal(MmRun::removed);
    crate::table::law_lookup_after_del(run.mm.clients.clients, issi, issi);
}

} // verus!
