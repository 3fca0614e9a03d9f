//! What holds of mobility management as a whole.
use crate::mm::model::{MmRun, MmView};
use crate::mm::pdu::{
    AttachmentOperation, AttachmentResult, AuthenticationKey, EnergyEconomyAssignment,
    EnergySavingMode, GroupIdentityDownlink, RegistrationDecision, REJECT_NETWORK_FAILURE,
};
use crate::mm::pending::{AttachmentView, GroupOperation, RegistrationView};
use crate::tdma::TdmaTime;
use vstd::prelude::*;

verus! {

/// Terminals that use the same handle are told apart.
pub proof fn law_handles_do_not_confuse_terminals(
    issi: u32,
    other: u32,
    air_handle: u32,
    other_handle: u32,
)
    ensures
        (AuthenticationKey { issi, air_handle }) == (AuthenticationKey {
            issi: other,
            air_handle: other_handle,
        }) <==> issi == other && air_handle == other_handle,
{
}

/// The phase of an energy economy begins on the control channel, within the next
/// four slots.
pub proof fn law_energy_economy_starts_on_the_control_channel(now: TdmaTime, mode: EnergySavingMode)
    requires
        mode != EnergySavingMode::StayAlive,
    ensures
        exists|wait: int|
            1 <= wait <= 4 && (#[trigger] now.plus(wait)).t == 1 && now.plus(wait).wf()
                && crate::mm::model::economy_at(now, mode) == (EnergyEconomyAssignment {
                mode,
                frame_number: Some(now.plus(wait).f),
                multiframe_number: Some(now.plus(wait).m),
            }),
{
    let next = now.plus(1);
    let cycle = crate::tdma::SLOTS_PER_CYCLE as int;
    crate::tdma::lemma_at((now.slots() + 1) % cycle);
    let rest = (1 - next.t) % 4;
    assert(0 <= rest <= 3);
    crate::tdma::law_steps_add_up(now, 1, rest);
    crate::tdma::law_forward_reaches_the_timeslot(next, 1);
    let wait = 1 + rest;
    assert(now.plus(wait).t == 1);
}

/// A decision that does not match what waits leaves it waiting, and sends
/// nothing.
pub proof fn law_mismatched_decision_leaves_the_registration(
    run: MmRun,
    decision: RegistrationDecision,
    pending: RegistrationView,
)
    requires
        crate::table::lookup(run.mm.registrations, decision.command_id) == Some(pending),
        pending.head.itsi != decision.itsi || pending.head.air_handle != decision.air_handle,
    ensures
        run.registration_decided(decision).mm.registrations == run.mm.registrations,
        run.registration_decided(decision).queue == run.queue,
        run.registration_decided(decision).subscribers == run.subscribers,
{
    reveal(MmRun::registration_decided);
}

proof fn lemma_groups_cleared_keeps(run: MmRun, issi: u32)
    ensures
        run.groups_cleared(issi).mm == (MmView {
            clients: run.groups_cleared(issi).mm.clients,
            ..run.mm
        }),
        run.groups_cleared(issi).link == run.link,
{
    reveal(MmRun::groups_cleared);
}

proof fn lemma_groups_decided_keeps(
    run: MmRun,
    issi: u32,
    has_rejection: bool,
    results: Seq<AttachmentResult>,
    operations: Seq<GroupOperation>,
    n: nat,
)
    ensures
        ({
            let after = run.groups_decided(issi, has_rejection, results, operations, n).run;
            &&& after.mm == (MmView { clients: after.mm.clients, ..run.mm })
            &&& after.link == run.link
        }),
    decreases n,
{
    if n > 0 {
        lemma_groups_decided_keeps(
            run,
            issi,
            has_rejection,
            results,
            operations,
            (n - 1) as nat,
        );
    }
}

proof fn lemma_settled_keeps(
    run: MmRun,
    has_rejection: bool,
    pending: AttachmentView,
    results: Seq<AttachmentResult>,
)
    ensures
        ({
            let after = run.groups_settled(has_rejection, pending, results).run;
            &&& after.mm == (MmView { clients: after.mm.clients, ..run.mm })
            &&& after.link == run.link
        }),
{
    reveal(MmRun::groups_settled);
    lemma_groups_cleared_keeps(run, pending.itsi);
    let cleared = if pending.replace_all && crate::mm::model::attaches(results) {
        run.groups_cleared(pending.itsi)
    } else {
        run
    };
    lemma_groups_decided_keeps(
        cleared,
        pending.itsi,
        has_rejection,
        results,
        pending.operations,
        results.len(),
    );
}

/// What an accepted registration leaves as it is.
proof fn lemma_accepted_keeps(
    run: MmRun,
    decision: RegistrationDecision,
    pending: RegistrationView,
)
    ensures
        ({
            let after = run.registration_accepted(decision, pending);
            &&& after.mm.registrations == run.mm.registrations
            &&& after.mm.deadlines == run.mm.deadlines
            &&& after.mm.attachments == run.mm.attachments
            &&& after.mm.authenticated == run.mm.authenticated
            &&& after.mm.auth == run.mm.auth
            &&& after.link == run.link
            &&& !run.link.is_online() ==> after.mm.location_attachments
                == run.mm.location_attachments
        }),
{
    reveal(MmRun::registration_accepted);
    reveal(MmRun::location_groups);
    let issi = pending.head.itsi;
    let head = crate::mm::pending::RegistrationHead {
        energy_saving_information: if decision.energy_economy.mode != EnergySavingMode::StayAlive {
            Some(decision.energy_economy)
        } else {
            None
        },
        ..pending.head
    };
    if let Some(attachment) = pending.attachment {
        let entered = if !run.mm.clients.known(issi) {
            run.registered(issi)
        } else {
            run.attached(issi)
        };
        let prepared = entered.awaiting(issi, true).energy_applied(issi, decision.energy_economy);
        let before = if prepared.link.is_online() {
            prepared.numbered()
        } else {
            prepared
        };
        lemma_settled_keeps(
            before,
            false,
            attachment,
            crate::mm::pending::all_accepted(attachment.operations),
        );
        assert(prepared.link == run.link);
        assert(prepared.mm.registrations == run.mm.registrations);
    }
}

/// A decision that matches settles the registration for good: it no longer
/// waits, it can no longer time out, and a repeated decision changes nothing.
pub proof fn law_decision_is_final(run: MmRun, decision: RegistrationDecision, other: u64)
    requires
        crate::table::lookup(run.mm.registrations, decision.command_id) is Some,
        crate::table::lookup(run.mm.registrations, decision.command_id)->0.head.itsi
            == decision.itsi,
        crate::table::lookup(run.mm.registrations, decision.command_id)->0.head.air_handle
            == decision.air_handle,
    ensures
        ({
            let after = run.registration_decided(decision);
            &&& crate::table::lookup(after.mm.registrations, decision.command_id) is None
            &&& crate::table::lookup(after.mm.deadlines, decision.command_id) is None
            &&& other != decision.command_id ==> crate::table::lookup(
                after.mm.registrations,
                other,
            ) == crate::table::lookup(run.mm.registrations, other)
            &&& after.registration_decided(decision) == after
        }),
{
    let id = decision.command_id;
    lemma_decision_takes(run, decision);
    crate::table::law_lookup_after_del(run.mm.registrations, id, id);
    crate::table::law_lookup_after_del(run.mm.deadlines, id, id);
    crate::table::law_lookup_after_del(run.mm.registrations, id, other);
    reveal(MmRun::registration_decided);
}

proof fn lemma_decision_takes(run: MmRun, decision: RegistrationDecision)
    requires
        crate::table::lookup(run.mm.registrations, decision.command_id) is Some,
        crate::table::lookup(run.mm.registrations, decision.command_id)->0.head.itsi
            == decision.itsi,
        crate::table::lookup(run.mm.registrations, decision.command_id)->0.head.air_handle
            == decision.air_handle,
    ensures
        ({
            let after = run.registration_decided(decision);
            &&& after.mm.registrations == crate::table::del(
                run.mm.registrations,
                decision.command_id,
            )
            &&& after.mm.deadlines == crate::table::del(run.mm.deadlines, decision.command_id)
            &&& after.mm.attachments == run.mm.attachments
            &&& after.mm.authenticated == crate::table::del(
                run.mm.authenticated,
                decision.command_id,
            )
            &&& after.mm.auth == ({
                let key = AuthenticationKey {
                    issi: decision.itsi as u32,
                    air_handle: decision.air_handle,
                };
                if crate::table::lookup(run.mm.auth, key) == Some(decision.command_id) {
                    crate::table::del(run.mm.auth, key)
                } else {
                    run.mm.auth
                }
            })
            &&& after.link == run.link
            &&& !run.link.is_online() ==> after.mm.location_attachments
                == run.mm.location_attachments
        }),
{
    reveal(MmRun::registration_decided);
    let id = decision.command_id;
    let pending = crate::table::lookup(run.mm.registrations, id)->0;
    let untimed = MmRun {
        mm: MmView { deadlines: crate::table::del(run.mm.deadlines, id), ..run.mm },
        ..run
    };
    let taken = MmRun {
        mm: MmView {
            registrations: crate::table::del(untimed.mm.registrations, id),
            ..untimed.mm
        },
        ..untimed
    };
    let closed = taken.authentication_closed(
        AuthenticationKey { issi: pending.head.itsi, air_handle: pending.head.air_handle },
        id,
    );
    let head = crate::mm::pending::RegistrationHead {
        authentication_successful: crate::table::contains(run.mm.authenticated, id),
        ..pending.head
    };
    lemma_accepted_keeps(closed, decision, RegistrationView { head, ..pending });
}

/// A location update that the SwMI does not answer in time is rejected as a
/// network failure, and no longer waits.
pub proof fn law_unanswered_registration_is_rejected(run: MmRun, id: u64)
    requires
        crate::table::lookup(run.mm.registrations, id) is Some,
    ensures
        ({
            let pending = crate::table::lookup(run.mm.registrations, id)->0;
            let after = run.timed_out(id);
            &&& after.queue == run.queue.push(
                crate::mm::model::reject(
                    pending.head.itsi,
                    pending.head.air_handle,
                    pending.head.location_update_type,
                    pending.head.address_extension,
                    REJECT_NETWORK_FAILURE,
                ),
            )
            &&& crate::table::lookup(after.mm.registrations, id) is None
            &&& crate::table::lookup(after.mm.deadlines, id) is None
        }),
{
    crate::table::law_lookup_after_del(run.mm.registrations, id, id);
    crate::table::law_lookup_after_del(run.mm.deadlines, id, id);
}

/// Every group that is rejected is named in the response as detached, and marks
/// the whole response as one with a rejection.
pub proof fn law_rejected_groups_are_named(
    run: MmRun,
    issi: u32,
    has_rejection: bool,
    results: Seq<AttachmentResult>,
    operations: Seq<GroupOperation>,
    n: nat,
    i: int,
)
    requires
        0 <= i < n <= results.len(),
        !results[i].accepted,
    ensures
        ({
            let after = run.groups_decided(issi, has_rejection, results, operations, n);
            &&& after.rejected
            &&& after.answer.contains(
                GroupIdentityDownlink {
                    gssi: results[i].operation.gssi,
                    attachment: None,
                    detachment: Some(0),
                },
            )
        }),
    decreases n,
{
    let named = GroupIdentityDownlink {
        gssi: results[i].operation.gssi,
        attachment: None,
        detachment: Some(0),
    };
    let before = run.groups_decided(issi, has_rejection, results, operations, (n - 1) as nat);
    let after = run.groups_decided(issi, has_rejection, results, operations, n);
    if i == n - 1 {
        assert(after.answer[after.answer.len() - 1] == named);
    } else {
        law_rejected_groups_are_named(
            run,
            issi,
            has_rejection,
            results,
            operations,
            (n - 1) as nat,
            i,
        );
        let at = choose|at: int| 0 <= at < before.answer.len() && before.answer[at] == named;
        assert(after.answer[at] == named);
    }
}

/// A terminal that is removed is known nowhere: not as a terminal, not in the
/// registry and not as a gateway.
pub proof fn law_removed_terminal_is_gone(run: MmRun, issi: u32, gssi: u32)
    requires
        run.mm.clients.known(issi),
        run.gateways.wf(),
    ensures
        !run.removed(issi).mm.clients.known(issi),
        !run.removed(issi).subscribers.registered(issi),
        !run.removed(issi).subscribers.affiliated(issi, gssi),
        !run.removed(issi).gateways.is_active(issi),
{
    reveal(MmRun::removed);
    crate::table::law_lookup_after_del(run.mm.clients.clients, issi, issi);
    crate::bluestation::subscribers::law_deregistration(run.subscribers, issi, issi, gssi);
    crate::bluestation::gateways::law_deactivation(
        run.gateways,
        issi,
        issi,
        crate::bluestation::gateways::DmMsRouteAddress { ssi: 0, mcc: None, mnc: None },
    );
}

/// Whether only updates within the station were handed on.
pub open spec fn only_updates(before: MmRun, after: MmRun) -> bool {
    &&& before.queue.len() <= after.queue.len()
    &&& forall|i: int|
        0 <= i < before.queue.len() ==> #[trigger] after.queue[i] == before.queue[i]
    &&& forall|i: int|
        before.queue.len() <= i < after.queue.len() ==> (#[trigger] after.queue[i]) is Update
}

/// The state that the SwMI hands over after a roam is restored without sending
/// anything to the terminal.
pub proof fn law_roaming_state_is_restored_silently(
    run: MmRun,
    itsi: u64,
    groups: Seq<AttachmentOperation>,
    scanning_enabled: bool,
    economy: EnergyEconomyAssignment,
)
    ensures
        only_updates(run, run.state_synced(itsi, groups, scanning_enabled, economy)),
{
    reveal(MmRun::state_synced);
    reveal(MmRun::groups_cleared);
    if itsi <= u32::MAX {
        let issi = itsi as u32;
        let entered = if !run.mm.clients.known(issi) {
            run.registered(issi)
        } else {
            run
        };
        assert(only_updates(run, entered));
        let cleared = entered.energy_stored(issi, economy).groups_cleared(issi);
        assert(only_updates(run, cleared));
        lemma_restoring_sends_nothing(cleared, issi, groups);
        let (restored, list) = cleared.groups_restored(issi, groups);
        let told = restored.emitted_some(
            issi,
            list,
            crate::mm::pdu::SubscriberUpdateAction::Affiliate,
        );
        assert(only_updates(run, told));
    }
}

proof fn lemma_restoring_sends_nothing(run: MmRun, issi: u32, groups: Seq<AttachmentOperation>)
    ensures
        run.groups_restored(issi, groups).0.queue == run.queue,
    decreases groups.len(),
{
    if groups.len() > 0 {
        lemma_restoring_sends_nothing(run, issi, groups.drop_last());
    }
}

/// When the connection has failed nothing is left waiting for the SwMI: every
/// location update and every change to groups is completed by the station
/// alone.
pub proof fn law_nothing_waits_after_the_link_fails(run: MmRun)
    requires
        run.link.present,
        !run.link.online,
        crate::table::distinct(run.mm.registrations),
        crate::table::distinct(run.mm.attachments),
        crate::table::distinct(run.mm.location_attachments),
    ensures
        run.recovered().mm.registrations.len() == 0,
        run.recovered().mm.attachments.len() == 0,
        run.recovered().mm.location_attachments.len() == 0,
{
    let registered = run.registrations_recovered(run.mm.registrations);
    lemma_registrations_recovered(run, run.mm.registrations.len() as int);
    assert(run.mm.registrations.take(run.mm.registrations.len() as int)
        =~= run.mm.registrations);
    let grouped = registered.groups_recovered(registered.mm.attachments);
    lemma_groups_recovered(registered, registered.mm.attachments.len() as int);
    assert(registered.mm.attachments.take(registered.mm.attachments.len() as int)
        =~= registered.mm.attachments);
    lemma_location_groups_recovered(grouped, grouped.mm.location_attachments.len() as int);
    assert(grouped.mm.location_attachments.take(grouped.mm.location_attachments.len() as int)
        =~= grouped.mm.location_attachments);
}

/// The first `n` location updates are completed, and the others still wait.
proof fn lemma_registrations_recovered(run: MmRun, n: int)
    requires
        0 <= n <= run.mm.registrations.len(),
        !run.link.is_online(),
        crate::table::distinct(run.mm.registrations),
    ensures
        ({
            let after = run.registrations_recovered(run.mm.registrations.take(n));
            &&& after.mm.registrations == run.mm.registrations.skip(n)
            &&& after.mm.attachments == run.mm.attachments
            &&& after.mm.location_attachments == run.mm.location_attachments
            &&& after.link == run.link
        }),
    decreases n,
{
    let entries = run.mm.registrations;
    if n == 0 {
        assert(entries.skip(0) =~= entries);
        assert(entries.take(0).len() == 0);
    } else {
        lemma_registrations_recovered(run, n - 1);
        let before = run.registrations_recovered(entries.take(n - 1));
        assert(entries.take(n).drop_last() =~= entries.take(n - 1));
        assert(entries.take(n).last() == entries[n - 1]);
        let rest = entries.skip(n - 1);
        lemma_skip_distinct(entries, n - 1);
        assert(rest[0] == entries[n - 1]);
        crate::table::lemma_lookup_of_entry(rest, 0);
        crate::table::lemma_del_is_remove(rest, 0);
        assert(rest.remove(0) =~= entries.skip(n));
        lemma_decision_takes(before, crate::mm::mm_bs::local_registration(entries[n - 1]));
    }
}

proof fn lemma_skip_distinct<V>(entries: Seq<(u64, V)>, n: int)
    requires
        0 <= n <= entries.len(),
        crate::table::distinct(entries),
    ensures
        crate::table::distinct(entries.skip(n)),
{
    let rest = entries.skip(n);
    assert forall|i: int, j: int|
        0 <= i < rest.len() && 0 <= j < rest.len() && i != j implies (#[trigger] rest[i]).0 != (
    #[trigger] rest[j]).0 by {
        assert(entries[n + i].0 != entries[n + j].0);
    }
}

proof fn lemma_groups_recovered(run: MmRun, n: int)
    requires
        0 <= n <= run.mm.attachments.len(),
        crate::table::distinct(run.mm.attachments),
    ensures
        ({
            let after = run.groups_recovered(run.mm.attachments.take(n));
            &&& after.mm.attachments == run.mm.attachments.skip(n)
            &&& after.mm.registrations == run.mm.registrations
            &&& after.mm.location_attachments == run.mm.location_attachments
        }),
    decreases n,
{
    let entries = run.mm.attachments;
    if n == 0 {
        assert(entries.skip(0) =~= entries);
        assert(entries.take(0).len() == 0);
    } else {
        lemma_groups_recovered(run, n - 1);
        let before = run.groups_recovered(entries.take(n - 1));
        assert(entries.take(n).drop_last() =~= entries.take(n - 1));
        assert(entries.take(n).last() == entries[n - 1]);
        let rest = entries.skip(n - 1);
        lemma_skip_distinct(entries, n - 1);
        assert(rest[0] == entries[n - 1]);
        crate::table::lemma_lookup_of_entry(rest, 0);
        crate::table::lemma_del_is_remove(rest, 0);
        assert(rest.remove(0) =~= entries.skip(n));
        reveal(MmRun::groups_answered_by_swmi);
        let (id, pending) = entries[n - 1];
        let taken = MmRun {
            mm: MmView { attachments: crate::table::del(before.mm.attachments, id), ..before.mm },
            ..before
        };
        lemma_settled_keeps(
            taken,
            false,
            pending,
            crate::mm::pending::all_accepted(pending.operations),
        );
    }
}

proof fn lemma_location_groups_recovered(run: MmRun, n: int)
    requires
        0 <= n <= run.mm.location_attachments.len(),
        crate::table::distinct(run.mm.location_attachments),
    ensures
        ({
            let after = run.location_groups_recovered(run.mm.location_attachments.take(n));
            &&& after.mm.location_attachments == run.mm.location_attachments.skip(n)
            &&& after.mm.registrations == run.mm.registrations
            &&& after.mm.attachments == run.mm.attachments
        }),
    decreases n,
{
    let entries = run.mm.location_attachments;
    if n == 0 {
        assert(entries.skip(0) =~= entries);
        assert(entries.take(0).len() == 0);
    } else {
        lemma_location_groups_recovered(run, n - 1);
        let before = run.location_groups_recovered(entries.take(n - 1));
        assert(entries.take(n).drop_last() =~= entries.take(n - 1));
        assert(entries.take(n).last() == entries[n - 1]);
        let rest = entries.skip(n - 1);
        lemma_skip_distinct(entries, n - 1);
        assert(rest[0] == entries[n - 1]);
        crate::table::lemma_lookup_of_entry(rest, 0);
        crate::table::lemma_del_is_remove(rest, 0);
        assert(rest.remove(0) =~= entries.skip(n));
        reveal(MmRun::location_groups_decided);
        let (id, pending) = entries[n - 1];
        let taken = MmRun {
            mm: MmView {
                location_attachments: crate::table::del(before.mm.location_attachments, id),
                ..before.mm
            },
            ..before
        };
        lemma_settled_keeps(
            taken,
            false,
            pending.attachment,
            crate::mm::pending::all_accepted(pending.attachment.operations),
        );
    }
}

/// A decision on a registration ends its authentication: its number no longer
/// stands for one that succeeded, and the terminal no longer answers under it.
/// Those of other registrations stay.
pub proof fn law_decided_registration_ends_its_authentication(
    run: MmRun,
    decision: RegistrationDecision,
    other: u64,
)
    requires
        crate::table::lookup(run.mm.registrations, decision.command_id) is Some,
        crate::table::lookup(run.mm.registrations, decision.command_id)->0.head.itsi
            == decision.itsi,
        crate::table::lookup(run.mm.registrations, decision.command_id)->0.head.air_handle
            == decision.air_handle,
        other != decision.command_id,
    ensures
        ({
            let after = run.registration_decided(decision);
            let key = AuthenticationKey {
                issi: decision.itsi as u32,
                air_handle: decision.air_handle,
            };
            &&& !crate::table::contains(after.mm.authenticated, decision.command_id)
            &&& crate::table::contains(after.mm.authenticated, other) == crate::table::contains(
                run.mm.authenticated,
                other,
            )
            &&& crate::table::lookup(after.mm.auth, key) != Some(decision.command_id)
            &&& crate::table::lookup(run.mm.auth, key) == Some(other) ==> crate::table::lookup(
                after.mm.auth,
                key,
            ) == Some(other)
        }),
{
    let id = decision.command_id;
    let key = AuthenticationKey { issi: decision.itsi as u32, air_handle: decision.air_handle };
    lemma_decision_takes(run, decision);
    crate::table::law_lookup_after_del(run.mm.authenticated, id, id);
    crate::table::law_lookup_after_del(run.mm.authenticated, id, other);
    crate::table::law_lookup_after_del(run.mm.auth, key, key);
}

} // verus!
