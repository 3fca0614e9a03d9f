//! Who is told of what: what reaches mobility management, and what it tells call
//! control, Brew and the SwMI.
use crate::bluestation::gateways::DmoCarrierState;
use crate::mm::mm_bs::{MmUplink, MmUplinkPdu};
use crate::mm::model::{GroupRun, MmRun};
use crate::mm::pdu::{
    AttachmentOperation, AttachmentResult, EnergyEconomyAssignment, EnergySavingMode,
    GatewayAnswer, GatewayPayloadView, LocationUpdateType, MmMessageView, MmPdu, MmSwmiMessage,
    RecoveryAcceptedView, RegistrationDecision, ShortElement, StatusDownlink, StatusUplink,
    SubscriberUpdateAction, UAttachDetachGroupIdentity, UAuthentication, ULocationUpdateDemand,
    UMmStatus, UpdateReceiver,
};
use crate::mm::pending::RegistrationView;
use crate::tdma::TdmaTime;
use vstd::prelude::*;

verus! {

// ---------------------------------------------------------------------------
// What comes in
// ---------------------------------------------------------------------------

/// Each uplink PDU starts its procedure in the name of the terminal and on the
/// handle by which it came, with what it holds; one without a meaning for the
/// station, and a change to groups that names none, changes nothing.
pub proof fn law_uplink_starts_its_procedure(
    run: MmRun,
    prim: MmUplink,
    after: MmRun,
    authentication: UAuthentication,
    status: UMmStatus,
    request: UAttachDetachGroupIdentity,
)
    ensures
        ({
            let leads = |pdu: MmUplinkPdu|
                crate::mm::mm_bs::uplink_received(run, prim, pdu, after);
            &&& leads(MmUplinkPdu::Authentication(authentication)) ==> after
                == run.authentication_received(prim.ssi, prim.handle, authentication)
            &&& leads(MmUplinkPdu::ItsiDetach) ==> after == run.itsi_detach(prim.ssi)
            &&& leads(MmUplinkPdu::Status(status)) && status.gateway_payload is None ==> after
                == run.status_reported(
                prim.ssi,
                prim.handle,
                status.status_uplink,
                status.information,
                status.information_len,
                None,
            )
            &&& leads(MmUplinkPdu::AttachDetachGroupIdentity(request))
                && request.group_identity_uplink is Some ==> after == run.groups_requested(
                prim.ssi,
                prim.handle,
                request.replace_all,
                request.group_identity_uplink->0@,
            )
            &&& leads(MmUplinkPdu::AttachDetachGroupIdentity(request))
                && request.group_identity_uplink is None ==> after == run
            &&& leads(MmUplinkPdu::Other) ==> after == run
        }),
{
}

/// A location update is read as it was sent: for the terminal and on the handle by
/// which it came, with its type, class, energy saving mode, groups and the cell
/// that it is for. What the station does not have is asked for by it: migration,
/// the update of a disabled terminal, a location area to append, or ciphering.
pub proof fn law_location_update_is_read_as_sent(
    run: MmRun,
    prim: MmUplink,
    pdu: ULocationUpdateDemand,
    after: MmRun,
)
    requires
        crate::mm::mm_bs::uplink_received(
            run,
            prim,
            MmUplinkPdu::LocationUpdateDemand(pdu),
            after,
        ),
    ensures
        exists|demand: crate::mm::model::DemandView|
            {
                &&& after == #[trigger] run.location_update(demand)
                &&& demand.issi == prim.ssi && demand.handle == prim.handle
                &&& demand.target == prim.forward_registration_target_station_id
                &&& demand.location_update_type == pdu.location_update_type
                &&& demand.class_of_ms == pdu.class_of_ms
                &&& demand.energy_saving_mode == pdu.energy_saving_mode
                &&& demand.address_extension == pdu.address_extension
                &&& demand.supported <==> !(pdu.location_update_type
                    == LocationUpdateType::MigratingLocationUpdating || pdu.location_update_type
                    == LocationUpdateType::DisabledMsUpdating || pdu.request_to_append_la
                    || pdu.cipher_control || pdu.has_ciphering_parameters)
                &&& demand.groups is Some <==> pdu.group_identity_location_demand is Some
                &&& demand.groups is Some ==> (demand.groups->0).0
                    == pdu.group_identity_location_demand->0.replace_all
                &&& demand.groups is Some && (demand.groups->0).1 is Some
                    ==> pdu.group_identity_location_demand->0.group_identity_uplink is Some && (
                demand.groups->0).1->0
                    == pdu.group_identity_location_demand->0.group_identity_uplink->0@
                &&& crate::mm::mm_bs::is_challenge(pdu.authentication_uplink, demand.challenge)
            },
{
    let challenge = choose|challenge: Option<[u8; 10]>| #[trigger]
        crate::mm::mm_bs::is_challenge(pdu.authentication_uplink, challenge) && after
            == run.location_update(crate::mm::mm_bs::demand_view(prim, pdu, challenge));
    let demand = crate::mm::mm_bs::demand_view(prim, pdu, challenge);
    assert(after == run.location_update(demand));
}

/// The decisions and requests of the SwMI that carry no message of their own to a
/// terminal start their procedures with what they hold.
pub proof fn law_swmi_messages_start_their_procedure(
    run: MmRun,
    id: u64,
    itsi: u64,
    handle: u32,
    flag: bool,
    mode: u8,
    economy: EnergyEconomyAssignment,
    results: Vec<AttachmentResult>,
    groups: Vec<AttachmentOperation>,
    decision: RegistrationDecision,
)
    ensures
        ({
            let received = |message: MmSwmiMessage|
                crate::mm::mm_bs::swmi_received(run, message);
            &&& received(MmSwmiMessage::RegistrationDecision(decision))
                == run.registration_decided(decision)
            &&& received(
                MmSwmiMessage::AttachmentDecision {
                    command_id: id,
                    itsi,
                    air_handle: handle,
                    has_rejection: flag,
                    results,
                },
            ) == run.attachment_decided(id, itsi, handle, flag, results@)
            &&& received(
                MmSwmiMessage::SubscriberStateSync {
                    itsi,
                    groups,
                    scanning_enabled: flag,
                    energy_economy: economy,
                },
            ) == run.state_synced(itsi, groups@, flag, economy)
            &&& received(MmSwmiMessage::LstRecoveryRequest { command_id: id })
                == run.recovery_requested(id)
            &&& received(
                MmSwmiMessage::EnergyEconomyDecision {
                    command_id: id,
                    itsi,
                    air_handle: handle,
                    accepted: flag,
                    energy_economy: economy,
                },
            ) == run.energy_decided(id, itsi, handle, flag, economy)
            &&& received(MmSwmiMessage::EnergyEconomyRebaseRequest { request_id: id, itsi, mode })
                == run.rebase_requested(id, itsi, mode)
            &&& id != 0 ==> received(MmSwmiMessage::DeregistrationNotice { command_id: id, itsi })
                == run
        }),
{
}

/// A response that the SwMI gives to the challenge of a terminal reaches that
/// terminal on its handle unchanged, and what the terminal answers is expected
/// under its number.
pub proof fn law_response_to_a_challenge_is_handed_on(
    run: MmRun,
    id: u64,
    issi: u32,
    handle: u32,
    seed: [u8; 10],
    response: u32,
    mutual: bool,
    rand: Option<[u8; 10]>,
)
    ensures
        ({
            let after = crate::mm::mm_bs::swmi_received(
                run,
                MmSwmiMessage::AuthenticationResponseDemand {
                    command_id: id,
                    itsi: issi as u64,
                    air_handle: handle,
                    random_seed: seed,
                    response_2: response,
                    mutual,
                    rand_1: rand,
                },
            );
            &&& after.queue == run.queue.push(
                MmMessageView::Downlink {
                    issi,
                    handle,
                    pdu: MmPdu::AuthenticationResponse {
                        random_seed: seed,
                        response_2: response,
                        mutual,
                        rand_1: rand,
                    },
                },
            )
            &&& crate::table::lookup(
                after.mm.auth,
                crate::mm::pdu::AuthenticationKey { issi, air_handle: handle },
            ) == Some(id)
        }),
{
    let key = crate::mm::pdu::AuthenticationKey { issi, air_handle: handle };
    crate::table::law_lookup_after_put(run.mm.auth, key, id, key);
}

/// A slot starts with its own time; first the location updates whose time is up
/// are given up, then the messages of the SwMI are taken in their order.
pub proof fn law_slot_runs_in_order(
    run: MmRun,
    now: TdmaTime,
    messages: Seq<MmSwmiMessage>,
    message: MmSwmiMessage,
    deadlines: Seq<(u64, TdmaTime)>,
    id: u64,
    deadline: TdmaTime,
)
    ensures
        crate::mm::mm_bs::all_received(run, messages.push(message))
            == crate::mm::mm_bs::swmi_received(
            crate::mm::mm_bs::all_received(run, messages),
            message,
        ),
        crate::mm::model::expired(deadlines.push((id, deadline)), now) == if now.since(deadline)
            >= 0 {
            crate::mm::model::expired(deadlines, now).push(id)
        } else {
            crate::mm::model::expired(deadlines, now)
        },
        run.mm.deadlines.len() == 0 && messages.len() == 0 && run.link.online
            ==> crate::mm::mm_bs::ticked(run, now, messages).mm.now == now,
{
    assert(messages.push(message).drop_last() =~= messages);
    assert(deadlines.push((id, deadline)).drop_last() =~= deadlines);
}

// ---------------------------------------------------------------------------
// What is told
// ---------------------------------------------------------------------------

/// A change of a subscriber is told to call control last, for that terminal, as
/// that change, and with all of the groups and the class of usage of each; Brew is
/// told before it, of nothing but the groups that it carries, and only if there is
/// such a group or, where no groups are meant, if it carries the terminal.
pub proof fn law_change_of_a_subscriber_is_told(
    run: MmRun,
    issi: u32,
    groups: Seq<u32>,
    action: SubscriberUpdateAction,
    i: int,
)
    requires
        0 <= i < groups.len(),
    ensures
        ({
            let after = run.emitted(issi, groups, action);
            let n = run.queue.len() as int;
            &&& after.mm == run.mm && after.subscribers == run.subscribers
            &&& crate::mm::registration_laws::extends(run.queue, after.queue)
            &&& n + 1 <= after.queue.len() <= n + 2
            &&& after.queue.last() matches MmMessageView::Update { head, groups: told, classes } && {
                &&& head.to == UpdateReceiver::Cmce && head.issi == issi && head.action == action
                &&& head.scanning_enabled is None
                &&& told == groups
                &&& classes.len() == groups.len()
                &&& classes[i] == match crate::table::lookup(
                    run.mm.clients.groups,
                    crate::cmce::pdu::Membership { issi, gssi: groups[i] },
                ) {
                    Some(class) => class,
                    None => 0,
                }
            }
            &&& run.brew is None ==> after.queue.len() == n + 1
            &&& after.queue.len() == n + 2 ==> (after.queue[n] matches MmMessageView::Update {
                head,
                groups: told,
                ..
            } && {
                &&& head.to == UpdateReceiver::Brew && head.issi == issi && head.action == action
                &&& action != SubscriberUpdateAction::ScanningState
                &&& told.contains(groups[i]) <==> crate::cmce::cc_model::brew_carries(
                    run.brew->0,
                    groups[i],
                )
            })
            &&& run.brew is Some && (action == SubscriberUpdateAction::Affiliate || action
                == SubscriberUpdateAction::Deaffiliate) && crate::cmce::cc_model::brew_carries(
                run.brew->0,
                groups[i],
            ) ==> after.queue.len() == n + 2
            &&& run.brew is Some && (action == SubscriberUpdateAction::Register || action
                == SubscriberUpdateAction::Deregister) ==> (after.queue.len() == n + 2
                <==> crate::cmce::cc_model::brew_carries(run.brew->0, issi))
        }),
{
    if let Some(brew) = run.brew {
        lemma_carried(brew, groups, i);
    }
}

proof fn lemma_carried(brew: Seq<(u32, u32)>, groups: Seq<u32>, i: int)
    requires
        0 <= i < groups.len(),
    ensures
        crate::mm::model::carried(brew, groups).contains(groups[i])
            <==> crate::cmce::cc_model::brew_carries(brew, groups[i]),
        crate::cmce::cc_model::brew_carries(brew, groups[i]) ==> crate::mm::model::carried(
            brew,
            groups,
        ).len() > 0,
    decreases groups.len(),
{
    let rest = groups.drop_last();
    let before = crate::mm::model::carried(brew, rest);
    let all = crate::mm::model::carried(brew, groups);
    lemma_all_carried(brew, groups);
    if i < rest.len() {
        lemma_carried(brew, rest, i);
        if before.contains(groups[i]) {
            let k = before.index_of(groups[i]);
            assert(all[k] == groups[i]);
        }
    } else if crate::cmce::cc_model::brew_carries(brew, groups[i]) {
        assert(all[all.len() - 1] == groups[i]);
    }
}

proof fn lemma_all_carried(brew: Seq<(u32, u32)>, groups: Seq<u32>)
    ensures
        forall|gssi: u32| #[trigger]
            crate::mm::model::carried(brew, groups).contains(gssi)
                ==> crate::cmce::cc_model::brew_carries(brew, gssi),
    decreases groups.len(),
{
    if groups.len() > 0 {
        let rest = groups.drop_last();
        lemma_all_carried(brew, rest);
        let before = crate::mm::model::carried(brew, rest);
        assert forall|gssi: u32| #[trigger]
            crate::mm::model::carried(brew, groups).contains(
                gssi,
            ) implies crate::cmce::cc_model::brew_carries(brew, gssi) by {
            let all = crate::mm::model::carried(brew, groups);
            let k = all.index_of(gssi);
            if k < before.len() {
                assert(before.contains(gssi));
            }
        }
    }
}

/// Of changes to groups those that were joined are told before those that were
/// left, each only if there are any.
pub proof fn law_joined_groups_are_told_before_left_ones(changes: GroupRun, issi: u32)
    requires
        changes.run.brew is None,
    ensures
        ({
            let after = changes.told(issi);
            let n = changes.run.queue.len() as int;
            let joined = changes.affiliated.len() > 0;
            let left = changes.deaffiliated.len() > 0;
            &&& after.queue.len() == n + if joined {
                1int
            } else {
                0
            } + if left {
                1int
            } else {
                0
            }
            &&& joined ==> (after.queue[n] matches MmMessageView::Update { head, groups, .. }
                && head.action == SubscriberUpdateAction::Affiliate && head.issi == issi && groups
                == changes.affiliated)
            &&& left ==> (after.queue.last() matches MmMessageView::Update { head, groups, .. }
                && head.action == SubscriberUpdateAction::Deaffiliate && head.issi == issi
                && groups == changes.deaffiliated)
        }),
{
}

// ---------------------------------------------------------------------------
// Status
// ---------------------------------------------------------------------------

/// A status of three or more bits names an energy saving mode; a shorter one, and
/// one without information, means that the terminal stays awake. A status without
/// information means that the terminal scans.
pub proof fn law_missing_information_has_a_meaning(bits: u64, len: u8)
    requires
        len < 3,
    ensures
        crate::mm::model::mode_in(None, Some(len)) == EnergySavingMode::StayAlive,
        crate::mm::model::mode_in(Some(bits), None) == EnergySavingMode::StayAlive,
        crate::mm::model::mode_in(Some(bits), Some(len)) == EnergySavingMode::StayAlive,
        crate::mm::model::scanning_in(None, Some(len)),
        crate::mm::model::scanning_in(Some(bits), None),
        crate::mm::model::scanning_in(Some(bits), Some(0)),
{
}

/// An active gateway that goes on is one on the carrier that it names, with what
/// was behind it, and is told so; a terminal that is none is refused and becomes
/// none.
pub proof fn law_gateway_goes_on(
    run: MmRun,
    issi: u32,
    handle: u32,
    carrier: Option<DmoCarrierState>,
)
    ensures
        ({
            let after = run.status_reported(
                issi,
                handle,
                StatusUplink::RequestToContinueDmGatewayOperation,
                None,
                None,
                Some(GatewayPayloadView::Continue { dmo_carrier: carrier }),
            );
            &&& run.gateways.is_active(issi) ==> {
                &&& after.gateways.session(issi) matches Some(session) && session.dmo_carrier
                    == carrier && session.last_seen == run.mm.now
                &&& after.gateways.routes == run.gateways.routes
                &&& after.queue.last() == (MmMessageView::Downlink {
                    issi,
                    handle,
                    pdu: MmPdu::GatewayStatus {
                        status_downlink: StatusDownlink::AcceptanceToContinueDmGatewayOperation,
                        answer: GatewayAnswer::RetainedAddressSet(true),
                    },
                })
            }
            &&& !run.gateways.is_active(issi) ==> after.gateways == run.gateways && after.queue
                == run.queue.push(
                MmMessageView::Downlink {
                    issi,
                    handle,
                    pdu: MmPdu::GatewayStatus {
                        status_downlink: StatusDownlink::RejectionToContinueDmGatewayOperation,
                        answer: GatewayAnswer::Empty,
                    },
                },
            )
        }),
{
    reveal(MmRun::status_reported);
    if let Some(session) = run.gateways.session(issi) {
        crate::table::law_lookup_after_put(
            run.gateways.gateways,
            issi,
            crate::bluestation::gateways::DmGatewaySession {
                dmo_carrier: carrier,
                last_seen: run.mm.now,
                ..session
            },
            issi,
        );
    }
}

/// A status that the station does not act on is answered to its terminal as a
/// function that is not supported, and names the status; an acceptance only shows
/// that the gateway is there. Neither changes anything else.
pub proof fn law_other_status_is_not_supported(run: MmRun, issi: u32, handle: u32, code: u8)
    ensures
        run.status_reported(issi, handle, StatusUplink::Other(code), None, None, None) == (MmRun {
            queue: run.queue.push(
                MmMessageView::Downlink {
                    issi,
                    handle,
                    pdu: MmPdu::FunctionNotSupported { status_uplink: StatusUplink::Other(code) },
                },
            ),
            ..run
        }),
        ({
            let after = run.status_reported(
                issi,
                handle,
                StatusUplink::AcceptanceToStopDmGatewayOperation,
                None,
                None,
                None,
            );
            &&& after.queue == run.queue && after.mm == run.mm && after.subscribers
                == run.subscribers
            &&& after.gateways.routes == run.gateways.routes
            &&& run.gateways.session(issi) is Some ==> (after.gateways.session(issi) matches Some(
                session,
            ) && session.last_seen == run.mm.now && session.dmo_carrier == (run.gateways.session(
                issi,
            )->0).dmo_carrier)
        }),
{
    reveal(MmRun::status_reported);
    if let Some(session) = run.gateways.session(issi) {
        crate::table::law_lookup_after_put(
            run.gateways.gateways,
            issi,
            crate::bluestation::gateways::DmGatewaySession { last_seen: run.mm.now, ..session },
            issi,
        );
    }
}

/// The element that asks for a radio user assignment has 15 bits: the owner, 1, in
/// eight bits, the request, 2, in four, and the flag of the alpha tag in the next.
pub proof fn law_assignment_is_asked_for()
    ensures
        crate::mm::model::assignment_element(true) matches Some(ShortElement { len, data }) && len
            == 15 && data / 128 == 1 && data / 8 % 16 == 2 && data / 4 % 2 == 1 && data % 4 == 0,
        crate::mm::model::assignment_element(false) is None,
{
}

// ---------------------------------------------------------------------------
// Recovery
// ---------------------------------------------------------------------------

/// The report after working alone says of every terminal whether its user is
/// assigned.
pub proof fn law_recovery_names_assignments(run: MmRun, id: u64, i: int)
    requires
        0 <= i < run.mm.clients.clients.len(),
    ensures
        run.recovery_snapshot(id) matches MmMessageView::RecoverySnapshot { subscribers, .. }
            && subscribers[i].rua_assigned == run.subscribers.known(
            run.mm.clients.clients[i].0,
        ).rua_assigned,
{
}

/// The answer of the SwMI to a report is taken once: each terminal that it accepts
/// gets the state that it names, and is asked for its user again if the user was
/// assigned here and is not any more; each that it rejects is removed. An answer
/// that was not awaited changes nothing.
pub proof fn law_answer_to_a_report_is_carried_out(
    run: MmRun,
    id: u64,
    accepted: Seq<RecoveryAcceptedView>,
    rejected: Seq<u64>,
    subscriber: RecoveryAcceptedView,
    issi: u32,
)
    requires
        subscriber.itsi == issi,
    ensures
        !crate::table::contains(run.mm.recoveries, id) ==> run.recovery_answered(
            id,
            accepted,
            rejected,
        ) == run,
        run.recoveries_accepted(accepted.push(subscriber)) == run.recoveries_accepted(
            accepted,
        ).recovery_accepted(subscriber),
        run.all_discarded(rejected.push(issi as u64)) == run.all_discarded(rejected).removed(issi),
        ({
            let synced = run.state_synced(
                issi as u64,
                subscriber.groups,
                subscriber.scanning_enabled,
                subscriber.energy_economy,
            );
            let after = run.recovery_accepted(subscriber);
            let again = subscriber.rua_assigned == Some(false) && run.subscribers.known(
                issi,
            ).rua_assigned == Some(true);
            &&& !again ==> after == synced
            &&& again ==> after.mm == synced.mm && after.queue == synced.queue.push(
                MmMessageView::Downlink {
                    issi,
                    handle: 0,
                    pdu: MmPdu::LocationUpdateCommand { group_identity_report: true },
                },
            )
        }),
{
    assert(accepted.push(subscriber).drop_last() =~= accepted);
    assert(rejected.push(issi as u64).drop_last() =~= rejected);
}

/// A location update that was under way when the connection failed is accepted by
/// the station itself: for its terminal and handle, with the energy economy that
/// it asked for, and without a channel elsewhere or a user assignment. Groups that
/// were under way are accepted as they were asked for.
pub proof fn law_station_completes_what_was_under_way(
    run: MmRun,
    id: u64,
    pending: RegistrationView,
    entries: Seq<(u64, RegistrationView)>,
)
    ensures
        exists|decision: RegistrationDecision|
            {
                &&& run.registrations_recovered(entries.push((id, pending)))
                    == #[trigger] run.registrations_recovered(entries).registration_decided(
                    decision,
                )
                &&& decision.command_id == id && decision.itsi == pending.head.itsi
                &&& decision.air_handle == pending.head.air_handle && decision.accepted
                &&& !decision.rua_requested && decision.handover_allocation is None
                &&& pending.head.energy_saving_information is Some ==> Some(decision.energy_economy)
                    == pending.head.energy_saving_information
                &&& pending.head.energy_saving_information is None ==> decision.energy_economy.mode
                    == EnergySavingMode::StayAlive
            },
{
    assert(entries.push((id, pending)).drop_last() =~= entries);
    let decision = RegistrationDecision {
        command_id: id,
        itsi: pending.head.itsi as u64,
        air_handle: pending.head.air_handle,
        accepted: true,
        cause: 0,
        energy_economy: match pending.head.energy_saving_information {
            Some(economy) => economy,
            None => EnergyEconomyAssignment::stay_alive(),
        },
        rua_requested: false,
        handover_allocation: None,
    };
    assert(run.registrations_recovered(entries.push((id, pending)))
        == run.registrations_recovered(entries).registration_decided(decision));
}

// ---------------------------------------------------------------------------
// What the messages say
// ---------------------------------------------------------------------------

/// What an acceptance says is what was decided: for the terminal and on the handle
/// of the location update, for its type, with its energy economy, groups and
/// channel.
pub proof fn law_acceptance_says_what_was_decided(
    registration: crate::mm::pending::RegistrationHead,
    group_accept: Option<crate::mm::pdu::GroupAccept>,
    listed: Seq<crate::mm::pdu::GroupIdentityDownlink>,
    channel: Option<crate::mm::pdu::SeamlessHandover>,
    rua: bool,
)
    ensures
        crate::mm::model::accept(registration, group_accept, listed, channel, rua) matches MmMessageView::Accept {
            handle,
            head,
            groups,
        } && {
            &&& handle == registration.air_handle
            &&& head.ssi == registration.itsi
            &&& head.location_update_type == registration.location_update_type
            &&& head.energy_saving_information == registration.energy_saving_information
            &&& head.group_accept == group_accept && groups == listed
            &&& head.seamless_handover == channel
            &&& head.authentication_downlink is Some <==> registration.authentication_successful
            &&& head.proprietary is Some <==> rua
        },
{
}

/// What a rejection says is what was refused: to the terminal, on its handle, for
/// its type of update, with its address extension and the cause.
pub proof fn law_rejection_says_what_was_refused(
    issi: u32,
    handle: u32,
    kind: LocationUpdateType,
    extension: Option<u64>,
    cause: u8,
)
    ensures
        crate::mm::model::reject(issi, handle, kind, extension, cause) == (MmMessageView::Downlink {
            issi,
            handle,
            pdu: MmPdu::LocationUpdateReject {
                location_update_type: kind,
                reject_cause: cause,
                address_extension: extension,
            },
        }),
{
}

/// A location update waits as it was sent: with the groups that it named, whether
/// they replace all others, and the terminal and handle that they are for. Its
/// groups are decided on only if it names every one of them.
pub proof fn law_location_update_waits_as_sent(
    demand: crate::mm::model::DemandView,
    now: TdmaTime,
    replace_all: bool,
    groups: Seq<crate::mm::pdu::GroupIdentityUplink>,
    i: int,
)
    requires
        demand.groups == Some((replace_all, Some(groups))),
        0 <= i < groups.len(),
    ensures
        ({
            let waiting = demand.waiting(now);
            &&& waiting.target == demand.target
            &&& waiting.head.itsi == demand.issi && waiting.head.air_handle == demand.handle
            &&& waiting.head.location_update_type == demand.location_update_type
            &&& waiting.head.address_extension == demand.address_extension
            &&& waiting.head.has_group_identity_location_demand
            &&& !waiting.head.authentication_successful
            &&& waiting.head.energy_saving_information is Some
                <==> demand.energy_saving_mode is Some
            &&& waiting.attachment is Some ==> {
                let pending = waiting.attachment->0;
                &&& pending.itsi == demand.issi && pending.air_handle == demand.handle
                &&& pending.replace_all == replace_all
                &&& pending.operations.len() == groups.len()
                &&& groups[i].gssi == Some(pending.operations[i].gssi)
                &&& pending.operations[i].detachment == groups[i].group_identity_detachment_uplink
                &&& pending.operations[i].class_of_usage == groups[i].class()
            }
            &&& (forall|j: int| 0 <= j < groups.len() ==> (#[trigger] groups[j]).gssi is Some)
                ==> waiting.attachment is Some
            &&& groups[i].gssi is None ==> waiting.attachment is None
        }),
{
}

/// The groups of an accepted location update are asked of the connected SwMI: for
/// the terminal and on its handle, group by group as they were named, and as ones
/// that replace all others exactly if they were; they wait with the location
/// update that they belong to.
pub proof fn law_groups_of_a_location_update_are_asked(
    run: MmRun,
    head: crate::mm::pending::RegistrationHead,
    attachment: crate::mm::pending::AttachmentView,
    rua: bool,
    i: int,
)
    requires
        run.link.present && run.link.online && run.link.accepting,
        0 <= i < attachment.operations.len(),
    ensures
        ({
            let after = run.location_groups(head, attachment, rua);
            &&& after.queue.len() == run.queue.len() + 1
            &&& after.queue.last() matches MmMessageView::AttachmentAttempt {
                head: asked,
                operations,
            } && {
                &&& asked.command_id == run.mm.next_id && asked.itsi == head.itsi
                &&& asked.air_handle == head.air_handle
                &&& asked.replace_all == attachment.replace_all
                &&& operations.len() == attachment.operations.len()
                &&& operations[i].gssi == attachment.operations[i].gssi
                &&& operations[i].detach <==> attachment.operations[i].detachment is Some
                &&& operations[i].class_of_usage == attachment.operations[i].class_of_usage
            }
            &&& crate::table::lookup(after.mm.location_attachments, run.mm.next_id) matches Some(
                waiting,
            ) && waiting.registration == head && waiting.attachment == attachment
                && waiting.rua_requested == rua
        }),
{
    reveal(MmRun::location_groups);
    crate::table::law_lookup_after_put(
        run.mm.location_attachments,
        run.mm.next_id,
        crate::mm::pending::LocationAttachmentView {
            registration: head,
            attachment,
            rua_requested: rua,
        },
        run.mm.next_id,
    );
}

/// What the station decides alone on groups accepts each of them as it was asked
/// for, without a cause.
pub proof fn law_station_alone_accepts_all(
    operations: Seq<crate::mm::pending::GroupOperation>,
    i: int,
)
    requires
        0 <= i < operations.len(),
    ensures
        ({
            let results = crate::mm::pending::all_accepted(operations);
            &&& results.len() == operations.len()
            &&& results[i].accepted && results[i].cause == 0
            &&& results[i].operation.gssi == operations[i].gssi
            &&& results[i].operation.detach <==> operations[i].detachment is Some
            &&& results[i].operation.class_of_usage == operations[i].class_of_usage
        }),
{
}

/// A terminal that becomes known is attached or not as it says, saves no energy,
/// scans groups, has said nothing of its class, and is in no group; no other
/// terminal is touched.
pub proof fn law_known_terminal_starts_anew(
    clients: crate::mm::clients::ClientsView,
    issi: u32,
    state: crate::mm::clients::MmClientState,
    other: u32,
    gssi: u32,
)
    requires
        other != issi,
    ensures
        ({
            let after = clients.registered(issi, state);
            let client = after.client(issi);
            &&& after.known(issi) && client.state == state
            &&& client.energy_economy.mode == EnergySavingMode::StayAlive
            &&& client.scanning_enabled && client.class_of_ms is None
            &&& !after.in_group(issi, gssi)
            &&& after.known(other) == clients.known(other)
            &&& after.client(other) == clients.client(other)
            &&& after.in_group(other, gssi) == clients.in_group(other, gssi)
            &&& after.class(other, gssi) == clients.class(other, gssi)
        }),
{
    let client = crate::mm::clients::MmClient {
        state,
        energy_economy: EnergyEconomyAssignment::stay_alive(),
        scanning_enabled: true,
        class_of_ms: None,
    };
    crate::table::law_lookup_after_put(clients.clients, issi, client, issi);
    crate::table::law_lookup_after_put(clients.clients, issi, client, other);
    crate::table::law_lookup_after_key_filter(
        clients.groups,
        crate::mm::clients::not_of(issi),
        crate::cmce::pdu::Membership { issi, gssi },
    );
    crate::table::law_lookup_after_key_filter(
        clients.groups,
        crate::mm::clients::not_of(issi),
        crate::cmce::pdu::Membership { issi: other, gssi },
    );
}

/// A group that a terminal joins has the class of usage that it joined with until
/// it leaves; what one terminal does in one group touches no other.
pub proof fn law_groups_of_terminals_are_apart(
    clients: crate::mm::clients::ClientsView,
    issi: u32,
    gssi: u32,
    class: u8,
    other: u32,
    group: u32,
)
    requires
        clients.known(issi),
        0 < gssi <= 16777215,
        other != issi || group != gssi,
    ensures
        clients.with_group(issi, gssi, true, class).in_group(issi, gssi),
        clients.with_group(issi, gssi, true, class).class(issi, gssi) == class,
        !clients.with_group(issi, gssi, false, class).in_group(issi, gssi),
        clients.with_group(issi, gssi, true, class).class(other, group) == clients.class(
            other,
            group,
        ),
        clients.with_group(issi, gssi, false, class).in_group(other, group) == clients.in_group(
            other,
            group,
        ),
        !clients.in_group(other, group) ==> clients.class(other, group) == 0,
{
    let member = crate::cmce::pdu::Membership { issi, gssi };
    let asked = crate::cmce::pdu::Membership { issi: other, gssi: group };
    crate::table::law_lookup_after_put(clients.groups, member, class, member);
    crate::table::law_lookup_after_put(clients.groups, member, class, asked);
    crate::table::law_lookup_after_del(clients.groups, member, member);
    crate::table::law_lookup_after_del(clients.groups, member, asked);
}

/// A terminal joins a group exactly if it is known and the group has an identity
/// that can be assigned; a terminal that is not known is told apart from a number
/// that is no group.
pub proof fn law_groups_that_can_be_joined(
    clients: crate::mm::clients::ClientsView,
    issi: u32,
    gssi: u32,
)
    ensures
        clients.group_fault(issi, gssi) is None <==> clients.known(issi) && 1 <= gssi <= 16777215,
        !clients.known(issi) ==> clients.group_fault(issi, gssi) == Some(
            crate::mm::clients::ClientMgrErr::ClientNotFound,
        ),
        clients.known(issi) && clients.group_fault(issi, gssi) is Some ==> clients.group_fault(
            issi,
            gssi,
        ) == Some(crate::mm::clients::ClientMgrErr::NotGroup),
{
}

/// Each decision of the SwMI on a group is answered to the terminal by itself: a
/// group that was joined with its class and until the next registration, one that
/// was left with the reason that the terminal gave, one that was refused as
/// detached. The answer says that something was refused exactly if a decision is
/// against the terminal or cannot be carried out, and call control is told of what
/// changed, and of nothing else.
pub proof fn law_each_decision_is_answered(
    run: MmRun,
    issi: u32,
    has_rejection: bool,
    results: Seq<AttachmentResult>,
    operations: Seq<crate::mm::pending::GroupOperation>,
    n: nat,
)
    ensures
        ({
            let done = run.groups_decided(issi, has_rejection, results, operations, n);
            let after = run.groups_decided(issi, has_rejection, results, operations, n + 1);
            let result = results[n as int];
            let gssi = result.operation.gssi;
            let detach = result.operation.detach;
            let possible = done.run.mm.clients.known(issi) && 1 <= gssi <= 16777215;
            let was_in = done.run.mm.clients.in_group(issi, gssi);
            &&& run.groups_decided(issi, has_rejection, results, operations, 0).rejected
                == has_rejection
            &&& after.rejected == (done.rejected || !result.accepted || !possible)
            &&& result.accepted && !possible ==> after.answer == done.answer
            &&& !result.accepted || possible ==> {
                &&& after.answer.len() == done.answer.len() + 1
                &&& after.answer.drop_last() == done.answer
                &&& after.answer.last().gssi == gssi
                &&& (after.answer.last().attachment is Some) == (result.accepted && !detach)
                &&& after.answer.last().attachment matches Some(attachment)
                    ==> attachment.lifetime == 1 && attachment.class_of_usage
                    == result.operation.class_of_usage
                &&& after.answer.last().detachment == if result.accepted && !detach {
                    None
                } else if result.accepted && operations[n as int].detachment is Some {
                    operations[n as int].detachment
                } else {
                    Some(0)
                }
            }
            &&& after.affiliated == if result.accepted && possible && !detach && !was_in {
                done.affiliated.push(gssi)
            } else {
                done.affiliated
            }
            &&& after.deaffiliated == if result.accepted && possible && detach && was_in {
                done.deaffiliated.push(gssi)
            } else {
                done.deaffiliated
            }
        }),
{
    let done = run.groups_decided(issi, has_rejection, results, operations, n);
    let after = run.groups_decided(issi, has_rejection, results, operations, n + 1);
    if after.answer.len() > done.answer.len() {
        assert(after.answer.drop_last() =~= done.answer);
    }
}

/// A terminal whose number is no identity is never registered: the station alone
/// leaves it unanswered, and one that the SwMI accepts is rejected for a failure of
/// the network.
pub proof fn law_unassignable_terminal_is_not_registered(
    run: MmRun,
    demand: crate::mm::model::DemandView,
    handle: u32,
    groups: Seq<crate::mm::pdu::GroupIdentityUplink>,
    decision: RegistrationDecision,
    pending: RegistrationView,
    operations: Seq<AttachmentOperation>,
    scanning: bool,
    economy: EnergyEconomyAssignment,
)
    requires
        demand.issi == 0 || demand.issi > 16777215,
        !run.mm.clients.known(demand.issi),
        pending.head.itsi == demand.issi,
        pending.target is None,
    ensures
        run.location_update_alone(demand) == run,
        run.groups_requested_alone(demand.issi, handle, true, groups) == run,
        run.state_synced(demand.issi as u64, operations, scanning, economy) == run,
        ({
            let after = run.registration_accepted(decision, pending);
            &&& after.mm == run.mm && after.subscribers == run.subscribers
            &&& after.queue.len() == run.queue.len() + 1
            &&& after.queue.drop_last() == run.queue
            &&& after.queue.last() == crate::mm::model::reject(
                demand.issi,
                pending.head.air_handle,
                pending.head.location_update_type,
                pending.head.address_extension,
                crate::mm::pdu::REJECT_NETWORK_FAILURE,
            )
        }),
{
    reveal(MmRun::location_update_alone);
    reveal(MmRun::groups_requested_alone);
    reveal(MmRun::state_synced);
    reveal(MmRun::registration_accepted);
    assert(run.registration_accepted(decision, pending).queue.drop_last() =~= run.queue);
}

/// A decision of the SwMI on groups that names another terminal or another handle,
/// or that does not decide on each group that was asked for, is not carried out:
/// what waited for it no longer waits, and nothing else changes.
pub proof fn law_mismatched_decision_on_groups_changes_nothing(
    run: MmRun,
    id: u64,
    itsi: u64,
    air_handle: u32,
    has_rejection: bool,
    results: Seq<AttachmentResult>,
)
    ensures
        crate::table::lookup(run.mm.attachments, id) matches Some(waiting) && (waiting.itsi != itsi
            || waiting.air_handle != air_handle || waiting.operations.len() != results.len())
            ==> run.groups_answered_by_swmi(id, itsi, air_handle, has_rejection, results)
            == (MmRun {
            mm: crate::mm::model::MmView {
                attachments: crate::table::del(run.mm.attachments, id),
                ..run.mm
            },
            ..run
        }),
        crate::table::lookup(run.mm.location_attachments, id) matches Some(waiting) && (
        waiting.registration.itsi != itsi || waiting.registration.air_handle != air_handle
            || waiting.attachment.operations.len() != results.len())
            ==> run.location_groups_decided(id, itsi, air_handle, has_rejection, results)
            == (MmRun {
            mm: crate::mm::model::MmView {
                location_attachments: crate::table::del(run.mm.location_attachments, id),
                ..run.mm
            },
            ..run
        }),
        !crate::table::contains(run.mm.attachments, id) ==> run.groups_answered_by_swmi(
            id,
            itsi,
            air_handle,
            has_rejection,
            results,
        ) == run,
        !crate::table::contains(run.mm.location_attachments, id) ==> run.location_groups_decided(
            id,
            itsi,
            air_handle,
            has_rejection,
            results,
        ) == run,
{
    reveal(MmRun::groups_answered_by_swmi);
    reveal(MmRun::location_groups_decided);
}

/// The answer of the SwMI to a report is taken once, and as a whole: those whom it
/// accepts are brought up to date first, and those whom it rejects are removed
/// after them.
pub proof fn law_rejected_terminals_are_removed_after_a_report(
    run: MmRun,
    id: u64,
    accepted: Seq<RecoveryAcceptedView>,
    rejected: Seq<u64>,
    issi: u32,
)
    requires
        crate::table::contains(run.mm.recoveries, id),
    ensures
        run.recovery_answered(id, accepted, rejected.push(issi as u64)) == run.recovery_answered(
            id,
            accepted,
            rejected,
        ).removed(issi),
        !run.recovery_answered(id, accepted, rejected.push(issi as u64)).mm.clients.known(issi),
        ({
            let taken = run.recovery_answered(id, Seq::empty(), Seq::empty());
            &&& !crate::table::contains(taken.mm.recoveries, id)
            &&& taken.queue == run.queue && taken.mm.clients == run.mm.clients
            &&& run.recovery_answered(id, accepted, Seq::empty()) == taken.recoveries_accepted(
                accepted,
            )
        }),
{
    reveal(MmRun::removed);
    assert(rejected.push(issi as u64).drop_last() =~= rejected);
    crate::table::law_lookup_after_del(run.mm.recoveries, id, id);
    let before = run.recovery_answered(id, accepted, rejected);
    crate::table::law_lookup_after_del(before.mm.clients.clients, issi, issi);
}

/// Nobody is given a phase who asks for none: a mode without saving, a code that
/// is no mode and an identity that is none lead to nothing.
pub proof fn law_no_phase_without_saving(run: MmRun, request_id: u64, itsi: u64, mode: u8)
    requires
        mode == 0 || mode > 7 || itsi > 0xffff_ffff,
    ensures
        run.rebase_requested(request_id, itsi, mode) == run,
{
    crate::mm::pdu::law_energy_saving_code(EnergySavingMode::StayAlive, mode as u64);
}

/// An energy economy holds for the terminal from now on; one that saves has still
/// to be established by the next response, and staying awake has not.
pub proof fn law_saving_starts_with_the_response(
    run: MmRun,
    issi: u32,
    economy: EnergyEconomyAssignment,
)
    requires
        run.mm.clients.known(issi),
        run.subscribers.registered(issi),
    ensures
        ({
            let before = run.subscribers.known(issi);
            let after = run.energy_applied(issi, economy).subscribers.known(issi);
            &&& after.energy_economy_mode == economy.mode.code()
            &&& after.energy_economy_frame_number == economy.frame_number
            &&& after.energy_economy_multiframe_number == economy.multiframe_number
            &&& after.energy_economy_activation_pending == (before.energy_economy_activation_pending
                || economy.mode != EnergySavingMode::StayAlive)
            &&& after.scanning_enabled == before.scanning_enabled && after.rua_assigned
                == before.rua_assigned
            &&& run.energy_applied(issi, economy).mm.clients.client(issi).energy_economy == economy
        }),
{
    let held = run.subscribers;
    let stored = crate::mm::model::registry_energy(held, issi, economy);
    crate::table::law_lookup_after_put(held.subscribers, issi, stored.known(issi), issi);
    let changed = crate::bluestation::subscribers::Subscriber {
        energy_economy_mode: economy.mode.code(),
        energy_economy_frame_number: economy.frame_number,
        energy_economy_multiframe_number: economy.multiframe_number,
        ..held.known(issi)
    };
    crate::table::law_lookup_after_put(held.subscribers, issi, changed, issi);
    let pending = crate::bluestation::subscribers::Subscriber {
        energy_economy_activation_pending: true,
        ..stored.known(issi)
    };
    crate::table::law_lookup_after_put(stored.subscribers, issi, pending, issi);
    let client = crate::mm::clients::MmClient {
        energy_economy: economy,
        ..run.mm.clients.client(issi)
    };
    crate::table::law_lookup_after_put(run.mm.clients.clients, issi, client, issi);
}

/// A decision on an energy economy that is a refusal, or that names another
/// terminal or another handle, only ends the waiting; one that nobody awaits
/// changes nothing.
pub proof fn law_mismatched_energy_decision_changes_nothing(
    run: MmRun,
    id: u64,
    itsi: u64,
    air_handle: u32,
    accepted: bool,
    economy: EnergyEconomyAssignment,
)
    ensures
        ({
            let after = run.energy_decided(id, itsi, air_handle, accepted, economy);
            &&& !crate::table::contains(run.mm.energy, id) ==> after == run
            &&& crate::table::lookup(run.mm.energy, id) matches Some(request) ==> {
                let named = request.issi == itsi as u32 && request.air_handle == air_handle;
                !accepted || !named ==> after == (MmRun {
                    mm: crate::mm::model::MmView {
                        energy: crate::table::del(run.mm.energy, id),
                        ..run.mm
                    },
                    ..run
                })
            }
        }),
{
}

/// Nothing that waits for the SwMI is completed by the station while the SwMI is
/// connected, or where there is none.
pub proof fn law_connected_station_completes_nothing(run: MmRun)
    requires
        run.link.online || !run.link.present,
    ensures
        run.recovered() == run,
{
}

} // verus!
