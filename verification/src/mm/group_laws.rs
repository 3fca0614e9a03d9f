//! What becomes of the groups of a terminal, stated of what was asked for and
//! what holds afterwards.
use crate::cmce::pdu::Membership;
use crate::mm::model::{GroupRun, MmRun};
use crate::mm::pdu::{
    AttachmentOperation, AttachmentResult, EnergyEconomyAssignment, GroupIdentityAttachment,
    GroupIdentityDownlink, GroupIdentityUplink, MmMessageView, SubscriberUpdateAction,
    UpdateReceiver,
};
use crate::mm::pending::GroupOperation;
use vstd::prelude::*;

verus! {

/// Whether a terminal is in a group, as mobility management has it.
pub open spec fn in_group(run: MmRun, issi: u32, gssi: u32) -> bool {
    run.mm.clients.in_group(issi, gssi)
}

/// Whether mobility management and the registry agree on the groups of all
/// terminals.
pub open spec fn agrees(run: MmRun) -> bool {
    forall|issi: u32, gssi: u32| #[trigger]
        in_group(run, issi, gssi) == run.subscribers.affiliated(issi, gssi)
}

/// Whether a part of a request is about the group, by its short identity.
pub open spec fn is_about(group: GroupIdentityUplink, gssi: u32) -> bool {
    group.gssi == Some(gssi) && group.vgssi is None && group.address_extension is None && 0 < gssi
        <= 16777215
}

/// Whether a request is about the group.
pub open spec fn names(groups: Seq<GroupIdentityUplink>, gssi: u32) -> bool {
    exists|i: int| 0 <= i < groups.len() && is_about(#[trigger] groups[i], gssi)
}

/// Whether the last part of a request that is about the group attaches it.
pub open spec fn attaches(groups: Seq<GroupIdentityUplink>, gssi: u32) -> bool {
    exists|i: int|
        {
            &&& 0 <= i < groups.len()
            &&& is_about(#[trigger] groups[i], gssi)
            &&& groups[i].group_identity_detachment_uplink is None
            &&& forall|j: int| i < j < groups.len() ==> !is_about(#[trigger] groups[j], gssi)
        }
}

/// Whether call control was told of a change to a group of a terminal after the
/// first `from` messages.
pub open spec fn told(
    queue: Seq<MmMessageView>,
    from: int,
    issi: u32,
    gssi: u32,
    action: SubscriberUpdateAction,
) -> bool {
    exists|i: int|
        {
            &&& from <= i < queue.len()
            &&& #[trigger] queue[i] matches MmMessageView::Update { head, groups, .. }
            &&& queue[i]->Update_head.to == UpdateReceiver::Cmce
            &&& queue[i]->Update_head.issi == issi
            &&& queue[i]->Update_head.action == action
            &&& queue[i]->Update_groups.contains(gssi)
        }
}

// ---------------------------------------------------------------------------
// Steps
// ---------------------------------------------------------------------------

/// What no change to groups touches.
pub open spec fn same_but_groups(before: MmRun, after: MmRun) -> bool {
    &&& after.mm == (crate::mm::model::MmView { clients: after.mm.clients, ..before.mm })
    &&& after.mm.clients.clients == before.mm.clients.clients
    &&& after.gateways == before.gateways && after.link == before.link && after.brew == before.brew
}

proof fn lemma_with_group(run: MmRun, issi: u32, gssi: u32, attach: bool, class: u8)
    requires
        agrees(run),
        run.mm.clients.known(issi),
        0 < gssi <= 16777215,
    ensures
        ({
            let after = run.with_group(issi, gssi, attach, class);
            &&& agrees(after)
            &&& same_but_groups(run, after)
            &&& after.queue == run.queue
            &&& forall|other: u32, group: u32| #[trigger]
                in_group(after, other, group) == if other == issi && group == gssi {
                    attach
                } else {
                    in_group(run, other, group)
                }
            &&& attach ==> after.mm.clients.class(issi, gssi) == class
        }),
{
    let after = run.with_group(issi, gssi, attach, class);
    let member = Membership { issi, gssi };
    let groups = run.mm.clients.groups;
    crate::table::law_lookup_after_put(groups, member, class, member);
    assert forall|other: u32, group: u32| #[trigger]
        in_group(after, other, group) == (if other == issi && group == gssi {
            attach
        } else {
            in_group(run, other, group)
        }) && in_group(after, other, group) == after.subscribers.affiliated(other, group) by {
        let asked = Membership { issi: other, gssi: group };
        crate::table::law_lookup_after_put(groups, member, class, asked);
        crate::table::law_lookup_after_del(groups, member, asked);
        crate::bluestation::subscribers::law_attachment(
            run.subscribers,
            issi,
            gssi,
            other,
            group,
        );
        assert(in_group(run, other, group) == run.subscribers.affiliated(other, group));
        assert(in_group(run, issi, gssi) == run.subscribers.affiliated(issi, gssi));
    }
}

proof fn lemma_groups_of(groups: Seq<(Membership, u8)>, issi: u32, gssi: u32)
    ensures
        crate::mm::clients::groups_of(groups, issi).contains(gssi) <==> crate::table::contains(
            groups,
            Membership { issi, gssi },
        ),
    decreases groups.len(),
{
    if groups.len() > 0 {
        let rest = groups.drop_last();
        let before = crate::mm::clients::groups_of(rest, issi);
        lemma_groups_of(rest, issi, gssi);
        if groups.last().0.issi == issi {
            vstd::seq_lib::lemma_seq_contains_after_push(before, groups.last().0.gssi, gssi);
            assert(groups.last().0 == Membership { issi, gssi: groups.last().0.gssi });
        }
    }
}

proof fn lemma_detached(
    registry: crate::bluestation::subscribers::RegistryView,
    issi: u32,
    groups: Seq<u32>,
    other: u32,
    gssi: u32,
)
    ensures
        crate::mm::model::registry_detached(registry, issi, groups).affiliated(other, gssi) == (
        registry.affiliated(other, gssi) && !(other == issi && groups.contains(gssi))),
    decreases groups.len(),
{
    if groups.len() > 0 {
        let rest = groups.drop_last();
        lemma_detached(registry, issi, rest, other, gssi);
        let before = crate::mm::model::registry_detached(registry, issi, rest);
        crate::bluestation::subscribers::law_attachment(
            before,
            issi,
            groups.last(),
            other,
            gssi,
        );
        assert(rest.push(groups.last()) =~= groups);
        vstd::seq_lib::lemma_seq_contains_after_push(rest, groups.last(), gssi);
    }
}

proof fn lemma_emitted(run: MmRun, issi: u32, groups: Seq<u32>, action: SubscriberUpdateAction)
    ensures
        ({
            let after = run.emitted(issi, groups, action);
            &&& after == (MmRun { queue: after.queue, ..run })
            &&& run.queue.len() < after.queue.len()
            &&& forall|i: int| 0 <= i < run.queue.len() ==> #[trigger] after.queue[i] == run.queue[i]
            &&& forall|gssi: u32|
                groups.contains(gssi) ==> #[trigger] told(
                    after.queue,
                    run.queue.len() as int,
                    issi,
                    gssi,
                    action,
                )
        }),
{
    let after = run.emitted(issi, groups, action);
    let last = after.queue.len() - 1;
    assert forall|gssi: u32| groups.contains(gssi) implies #[trigger] told(
        after.queue,
        run.queue.len() as int,
        issi,
        gssi,
        action,
    ) by {
        assert(after.queue[last] is Update);
    }
}

proof fn lemma_told_later(
    before: Seq<MmMessageView>,
    after: Seq<MmMessageView>,
    from: int,
    issi: u32,
    gssi: u32,
    action: SubscriberUpdateAction,
)
    requires
        0 <= from,
        before.len() <= after.len(),
        forall|i: int| 0 <= i < before.len() ==> #[trigger] after[i] == before[i],
        told(before, from, issi, gssi, action),
    ensures
        told(after, from, issi, gssi, action),
{
    let i = choose|i: int|
        {
            &&& from <= i < before.len()
            &&& #[trigger] before[i] matches MmMessageView::Update { head, groups, .. }
            &&& before[i]->Update_head.to == UpdateReceiver::Cmce
            &&& before[i]->Update_head.issi == issi
            &&& before[i]->Update_head.action == action
            &&& before[i]->Update_groups.contains(gssi)
        };
    assert(after[i] == before[i]);
}

/// When all groups of a terminal are detached it is in none, as mobility
/// management has it and as the registry has it; call control is told of each
/// group that was left, and the groups of every other terminal are as they were.
pub proof fn law_cleared_terminal_is_in_no_group(run: MmRun, issi: u32)
    requires
        agrees(run),
        run.mm.clients.known(issi),
    ensures
        ({
            let after = run.groups_cleared(issi);
            &&& agrees(after)
            &&& same_but_groups(run, after)
            &&& forall|other: u32, gssi: u32| #[trigger]
                in_group(after, other, gssi) == (other != issi && in_group(run, other, gssi))
            &&& run.queue.len() <= after.queue.len()
            &&& forall|i: int|
                0 <= i < run.queue.len() ==> #[trigger] after.queue[i] == run.queue[i]
            &&& forall|gssi: u32|
                in_group(run, issi, gssi) ==> #[trigger] told(
                    after.queue,
                    run.queue.len() as int,
                    issi,
                    gssi,
                    SubscriberUpdateAction::Deaffiliate,
                )
        }),
{
    reveal(MmRun::groups_cleared);
    let after = run.groups_cleared(issi);
    let groups = run.mm.clients.groups(issi);
    let cleared = MmRun {
        mm: crate::mm::model::MmView {
            clients: run.mm.clients.without_groups(issi),
            ..run.mm
        },
        subscribers: crate::mm::model::registry_detached(run.subscribers, issi, groups),
        ..run
    };
    lemma_emitted(cleared, issi, groups, SubscriberUpdateAction::Deaffiliate);
    assert forall|other: u32, gssi: u32|
        #![trigger in_group(after, other, gssi)]
        in_group(after, other, gssi) == (other != issi && in_group(run, other, gssi)) && in_group(
            after,
            other,
            gssi,
        ) == after.subscribers.affiliated(other, gssi) by {
        crate::table::law_lookup_after_key_filter(
            run.mm.clients.groups,
            crate::mm::clients::not_of(issi),
            Membership { issi: other, gssi },
        );
        lemma_detached(run.subscribers, issi, groups, other, gssi);
        lemma_groups_of(run.mm.clients.groups, issi, gssi);
        assert(in_group(run, other, gssi) == run.subscribers.affiliated(other, gssi));
        if groups.len() == 0 {
            assert(!groups.contains(gssi));
        }
    }
    assert forall|gssi: u32| in_group(run, issi, gssi) implies #[trigger] told(
        after.queue,
        run.queue.len() as int,
        issi,
        gssi,
        SubscriberUpdateAction::Deaffiliate,
    ) by {
        lemma_groups_of(run.mm.clients.groups, issi, gssi);
    }
}

// ---------------------------------------------------------------------------
// Requests that the station decides alone
// ---------------------------------------------------------------------------

/// What a list of changes has done.
pub open spec fn carried_out(
    run: MmRun,
    issi: u32,
    groups: Seq<GroupIdentityUplink>,
    done: GroupRun,
) -> bool {
    &&& agrees(done.run)
    &&& same_but_groups(run, done.run)
    &&& done.run.queue == run.queue
    &&& forall|other: u32, gssi: u32| #[trigger]
        in_group(done.run, other, gssi) == if other == issi && names(groups, gssi) {
            attaches(groups, gssi)
        } else {
            in_group(run, other, gssi)
        }
    &&& forall|gssi: u32|
        !in_group(run, issi, gssi) && #[trigger] in_group(done.run, issi, gssi)
            ==> done.affiliated.contains(gssi)
    &&& forall|gssi: u32|
        in_group(run, issi, gssi) && !#[trigger] in_group(done.run, issi, gssi)
            ==> done.deaffiliated.contains(gssi)
}

proof fn lemma_names(groups: Seq<GroupIdentityUplink>, gssi: u32)
    requires
        groups.len() > 0,
    ensures
        names(groups, gssi) == (is_about(groups.last(), gssi) || names(groups.drop_last(), gssi)),
        attaches(groups, gssi) == if is_about(groups.last(), gssi) {
            groups.last().group_identity_detachment_uplink is None
        } else {
            attaches(groups.drop_last(), gssi)
        },
{
    let rest = groups.drop_last();
    let n = groups.len() - 1;
    assert(groups[n] == groups.last());
    assert(forall|i: int| 0 <= i < n ==> #[trigger] groups[i] == rest[i]);
    if names(rest, gssi) {
        let i = choose|i: int| 0 <= i < rest.len() && is_about(#[trigger] rest[i], gssi);
        assert(is_about(groups[i], gssi));
    }
    if names(groups, gssi) && !is_about(groups.last(), gssi) {
        let i = choose|i: int| 0 <= i < groups.len() && is_about(#[trigger] groups[i], gssi);
        assert(is_about(rest[i], gssi));
    }
    if is_about(groups.last(), gssi) {
        if groups.last().group_identity_detachment_uplink is None {
            assert(is_about(groups[n], gssi));
        }
        if attaches(groups, gssi) {
            let i = choose|i: int|
                {
                    &&& 0 <= i < groups.len()
                    &&& is_about(#[trigger] groups[i], gssi)
                    &&& groups[i].group_identity_detachment_uplink is None
                    &&& forall|j: int|
                        i < j < groups.len() ==> !is_about(#[trigger] groups[j], gssi)
                };
            assert(i == n);
        }
    } else {
        if attaches(rest, gssi) {
            let i = choose|i: int|
                {
                    &&& 0 <= i < rest.len()
                    &&& is_about(#[trigger] rest[i], gssi)
                    &&& rest[i].group_identity_detachment_uplink is None
                    &&& forall|j: int| i < j < rest.len() ==> !is_about(#[trigger] rest[j], gssi)
                };
            assert(is_about(groups[i], gssi));
            assert forall|j: int| i < j < groups.len() implies !is_about(
                #[trigger] groups[j],
                gssi,
            ) by {
                if j < n {
                    assert(groups[j] == rest[j]);
                }
            }
        }
        if attaches(groups, gssi) {
            let i = choose|i: int|
                {
                    &&& 0 <= i < groups.len()
                    &&& is_about(#[trigger] groups[i], gssi)
                    &&& groups[i].group_identity_detachment_uplink is None
                    &&& forall|j: int|
                        i < j < groups.len() ==> !is_about(#[trigger] groups[j], gssi)
                };
            assert(is_about(rest[i], gssi));
            assert forall|j: int| i < j < rest.len() implies !is_about(
                #[trigger] rest[j],
                gssi,
            ) by {
                assert(groups[j] == rest[j]);
            }
        }
    }
}

proof fn lemma_changed(run: MmRun, issi: u32, groups: Seq<GroupIdentityUplink>)
    requires
        agrees(run),
        run.mm.clients.known(issi),
    ensures
        carried_out(run, issi, groups, run.groups_changed(issi, groups)),
    decreases groups.len(),
{
    let done = run.groups_changed(issi, groups);
    if groups.len() == 0 {
        assert forall|other: u32, gssi: u32| #[trigger]
            in_group(done.run, other, gssi) == in_group(run, other, gssi) by {}
    } else {
        let rest = groups.drop_last();
        let before = run.groups_changed(issi, rest);
        let last = groups.last();
        lemma_changed(run, issi, rest);
        let applies = last.gssi is Some && is_about(last, last.gssi->0);
        if applies {
            let gssi = last.gssi->0;
            let detach = last.group_identity_detachment_uplink is Some;
            lemma_with_group(
                before.run,
                issi,
                gssi,
                !detach,
                if detach {
                    0
                } else {
                    last.class()
                },
            );
            assert(in_group(before.run, issi, gssi) == before.run.mm.clients.in_group(issi, gssi));
            vstd::seq_lib::lemma_seq_contains_after_push(before.affiliated, gssi, gssi);
            vstd::seq_lib::lemma_seq_contains_after_push(before.deaffiliated, gssi, gssi);
        }
        assert forall|other: u32, gssi: u32| #[trigger]
            in_group(done.run, other, gssi) == (if other == issi && names(groups, gssi) {
            attaches(groups, gssi)
        } else {
            in_group(run, other, gssi)
        }) by {
            lemma_names(groups, gssi);
            assert(in_group(before.run, other, gssi) == if other == issi && names(rest, gssi) {
                attaches(rest, gssi)
            } else {
                in_group(run, other, gssi)
            });
        }
        assert forall|gssi: u32|
            !in_group(run, issi, gssi) && #[trigger] in_group(
                done.run,
                issi,
                gssi,
            ) implies done.affiliated.contains(gssi) by {
            if applies {
                vstd::seq_lib::lemma_seq_contains_after_push(
                    before.affiliated,
                    last.gssi->0,
                    gssi,
                );
            }
            assert(in_group(before.run, issi, gssi) ==> before.affiliated.contains(gssi));
        }
        assert forall|gssi: u32|
            in_group(run, issi, gssi) && !#[trigger] in_group(
                done.run,
                issi,
                gssi,
            ) implies done.deaffiliated.contains(gssi) by {
            if applies {
                vstd::seq_lib::lemma_seq_contains_after_push(
                    before.deaffiliated,
                    last.gssi->0,
                    gssi,
                );
            }
            assert(!in_group(before.run, issi, gssi) ==> before.deaffiliated.contains(gssi));
        }
    }
}

proof fn lemma_change_is_told(run: MmRun, issi: u32, done: GroupRun)
    requires
        same_but_groups(run, done.run),
        done.run.queue == run.queue,
    ensures
        ({
            let after = done.told(issi);
            &&& after == (MmRun { queue: after.queue, ..done.run })
            &&& run.queue.len() <= after.queue.len()
            &&& forall|i: int| 0 <= i < run.queue.len() ==> #[trigger] after.queue[i] == run.queue[i]
            &&& forall|gssi: u32|
                done.affiliated.contains(gssi) ==> #[trigger] told(
                    after.queue,
                    run.queue.len() as int,
                    issi,
                    gssi,
                    SubscriberUpdateAction::Affiliate,
                )
            &&& forall|gssi: u32|
                done.deaffiliated.contains(gssi) ==> #[trigger] told(
                    after.queue,
                    run.queue.len() as int,
                    issi,
                    gssi,
                    SubscriberUpdateAction::Deaffiliate,
                )
        }),
{
    let from = run.queue.len() as int;
    lemma_emitted(done.run, issi, done.affiliated, SubscriberUpdateAction::Affiliate);
    let first = done.run.emitted_some(issi, done.affiliated, SubscriberUpdateAction::Affiliate);
    lemma_emitted(first, issi, done.deaffiliated, SubscriberUpdateAction::Deaffiliate);
    let after = done.told(issi);
    assert forall|gssi: u32| done.affiliated.contains(gssi) implies #[trigger] told(
        after.queue,
        from,
        issi,
        gssi,
        SubscriberUpdateAction::Affiliate,
    ) by {
        assert(told(first.queue, from, issi, gssi, SubscriberUpdateAction::Affiliate));
        lemma_told_later(
            first.queue,
            after.queue,
            from,
            issi,
            gssi,
            SubscriberUpdateAction::Affiliate,
        );
    }
    assert forall|gssi: u32| done.deaffiliated.contains(gssi) implies #[trigger] told(
        after.queue,
        from,
        issi,
        gssi,
        SubscriberUpdateAction::Deaffiliate,
    ) by {
        let i = choose|i: int|
            {
                &&& first.queue.len() <= i < after.queue.len()
                &&& #[trigger] after.queue[i] matches MmMessageView::Update { head, groups, .. }
                &&& after.queue[i]->Update_head.to == UpdateReceiver::Cmce
                &&& after.queue[i]->Update_head.issi == issi
                &&& after.queue[i]->Update_head.action == SubscriberUpdateAction::Deaffiliate
                &&& after.queue[i]->Update_groups.contains(gssi)
            };
        assert(told(
            after.queue,
            first.queue.len() as int,
            issi,
            gssi,
            SubscriberUpdateAction::Deaffiliate,
        ));
        assert(from <= i);
        assert(after.queue[i] is Update);
    }
}

/// After a request of a known terminal that the station decides alone, the
/// terminal is in a group exactly if the request attaches it, or if it was in the
/// group and the request neither names it nor replaces all groups. The registry
/// says the same, and call control is told of every group that the terminal has
/// joined or left. The groups of all other terminals are as they were, and the
/// terminal gets its answer.
pub proof fn law_terminal_is_in_the_groups_it_asked_for(
    run: MmRun,
    issi: u32,
    handle: u32,
    replace_all: bool,
    groups: Seq<GroupIdentityUplink>,
    gssi: u32,
    other: u32,
)
    requires
        agrees(run),
        run.mm.clients.known(issi),
        !(run.link.present && run.link.online),
        other != issi,
    ensures
        ({
            let after = run.groups_requested(issi, handle, replace_all, groups);
            let is_in = if names(groups, gssi) {
                attaches(groups, gssi)
            } else {
                !replace_all && in_group(run, issi, gssi)
            };
            &&& in_group(after, issi, gssi) == is_in
            &&& after.subscribers.affiliated(issi, gssi) == is_in
            &&& agrees(after)
            &&& in_group(after, other, gssi) == in_group(run, other, gssi)
            &&& after.subscribers.affiliated(other, gssi) == run.subscribers.affiliated(other, gssi)
            &&& after.mm.clients.clients == run.mm.clients.clients
            &&& is_in && !in_group(run, issi, gssi) ==> told(
                after.queue,
                run.queue.len() as int,
                issi,
                gssi,
                SubscriberUpdateAction::Affiliate,
            )
            &&& !is_in && in_group(run, issi, gssi) ==> told(
                after.queue,
                run.queue.len() as int,
                issi,
                gssi,
                SubscriberUpdateAction::Deaffiliate,
            )
            &&& after.queue.last() matches MmMessageView::Acknowledge {
                issi: to,
                handle: by,
                rejected,
                ..
            } && to == issi && by == handle && !rejected
        }),
{
    reveal(MmRun::groups_requested);
    reveal(MmRun::groups_requested_alone);
    let cleared = if replace_all {
        run.groups_cleared(issi)
    } else {
        run
    };
    if replace_all {
        law_cleared_terminal_is_in_no_group(run, issi);
    }
    assert(cleared.mm.clients.known(issi));
    lemma_changed(cleared, issi, groups);
    let done = cleared.groups_changed(issi, groups);
    lemma_change_is_told(cleared, issi, done);
    let after = run.groups_requested(issi, handle, replace_all, groups);
    let tried = cleared.groups_tried(issi, groups);
    assert(after.mm == done.run.mm && after.subscribers == done.run.subscribers);
    assert(in_group(after, issi, gssi) == in_group(done.run, issi, gssi));
    assert(in_group(after, other, gssi) == in_group(done.run, other, gssi));
    assert forall|a: u32, g: u32| #[trigger] in_group(after, a, g) == after.subscribers.affiliated(
        a,
        g,
    ) by {
        assert(in_group(done.run, a, g) == done.run.subscribers.affiliated(a, g));
    }
    assert(in_group(cleared, issi, gssi) == (!replace_all && in_group(run, issi, gssi)));
    assert(in_group(cleared, other, gssi) == in_group(run, other, gssi));
    assert(in_group(run, other, gssi) == run.subscribers.affiliated(other, gssi));
    assert(in_group(after, other, gssi) == after.subscribers.affiliated(other, gssi));
    let from = run.queue.len() as int;
    let is_in = in_group(after, issi, gssi);
    assert forall|i: int| 0 <= i < tried.queue.len() implies #[trigger] after.queue[i]
        == tried.queue[i] by {}
    if is_in && !in_group(run, issi, gssi) {
        let action = SubscriberUpdateAction::Affiliate;
        assert(told(tried.queue, cleared.queue.len() as int, issi, gssi, action));
        lemma_told_from(tried.queue, from, cleared.queue.len() as int, issi, gssi, action);
        lemma_told_later(tried.queue, after.queue, from, issi, gssi, action);
    }
    if !is_in && in_group(run, issi, gssi) {
        let action = SubscriberUpdateAction::Deaffiliate;
        if replace_all {
            assert(told(cleared.queue, from, issi, gssi, action));
            lemma_told_later(cleared.queue, tried.queue, from, issi, gssi, action);
        } else {
            assert(told(tried.queue, from, issi, gssi, action));
        }
        lemma_told_later(tried.queue, after.queue, from, issi, gssi, action);
    }
}

proof fn lemma_told_from(
    queue: Seq<MmMessageView>,
    from: int,
    later: int,
    issi: u32,
    gssi: u32,
    action: SubscriberUpdateAction,
)
    requires
        from <= later,
        told(queue, later, issi, gssi, action),
    ensures
        told(queue, from, issi, gssi, action),
{
    let i = choose|i: int|
        {
            &&& later <= i < queue.len()
            &&& #[trigger] queue[i] matches MmMessageView::Update { head, groups, .. }
            &&& queue[i]->Update_head.to == UpdateReceiver::Cmce
            &&& queue[i]->Update_head.issi == issi
            &&& queue[i]->Update_head.action == action
            &&& queue[i]->Update_groups.contains(gssi)
        };
    assert(queue[i] is Update);
}

/// The answer to a request names each group that the request is about, as
/// attached with its class of usage, to be attached again after the next
/// registration, or as detached for the reason that the terminal gave.
pub proof fn law_answer_names_the_groups(
    run: MmRun,
    issi: u32,
    groups: Seq<GroupIdentityUplink>,
    i: int,
)
    requires
        run.mm.clients.known(issi),
        0 <= i < groups.len(),
        groups[i].gssi is Some,
        is_about(groups[i], groups[i].gssi->0),
    ensures
        run.groups_answered(issi, groups).contains(
            GroupIdentityDownlink {
                gssi: groups[i].gssi->0,
                attachment: if groups[i].group_identity_detachment_uplink is None {
                    Some(
                        GroupIdentityAttachment {
                            lifetime: 1,
                            class_of_usage: if groups[i].class_of_usage is Some {
                                groups[i].class_of_usage->0
                            } else {
                                0
                            },
                        },
                    )
                } else {
                    None
                },
                detachment: groups[i].group_identity_detachment_uplink,
            },
        ),
        run.groups_changed(issi, groups).run.mm.clients.clients == run.mm.clients.clients,
    decreases groups.len(),
{
    let rest = groups.drop_last();
    let before = run.groups_changed(issi, rest);
    let all = run.groups_answered(issi, groups);
    lemma_clients_stay(run, issi, groups);
    lemma_clients_stay(run, issi, rest);
    if i < rest.len() {
        assert(rest[i] == groups[i]);
        law_answer_names_the_groups(run, issi, rest, i);
        let named = GroupIdentityDownlink {
            gssi: groups[i].gssi->0,
            attachment: if groups[i].group_identity_detachment_uplink is None {
                Some(
                    GroupIdentityAttachment {
                        lifetime: 1,
                        class_of_usage: if groups[i].class_of_usage is Some {
                            groups[i].class_of_usage->0
                        } else {
                            0
                        },
                    },
                )
            } else {
                None
            },
            detachment: groups[i].group_identity_detachment_uplink,
        };
        let k = choose|k: int| 0 <= k < before.answer.len() && before.answer[k] == named;
        assert(all[k] == named);
    } else {
        assert(all[all.len() - 1].gssi == groups[i].gssi->0);
    }
}

proof fn lemma_clients_stay(run: MmRun, issi: u32, groups: Seq<GroupIdentityUplink>)
    ensures
        run.groups_changed(issi, groups).run.mm.clients.clients == run.mm.clients.clients,
    decreases groups.len(),
{
    if groups.len() > 0 {
        lemma_clients_stay(run, issi, groups.drop_last());
    }
}

// ---------------------------------------------------------------------------
// Requests that the SwMI decides
// ---------------------------------------------------------------------------

/// While the SwMI is connected and takes messages, it alone decides on a request
/// that names every group: it gets the whole request, each change in its place
/// and under the name of the terminal, and no group is changed and no answer
/// given before it has decided.
pub proof fn law_swmi_is_asked_for_groups(
    run: MmRun,
    issi: u32,
    handle: u32,
    replace_all: bool,
    groups: Seq<GroupIdentityUplink>,
)
    requires
        run.link.present && run.link.online && run.link.accepting,
        forall|i: int| 0 <= i < groups.len() ==> (#[trigger] groups[i]).gssi is Some,
    ensures
        ({
            let after = run.groups_requested(issi, handle, replace_all, groups);
            &&& after.queue.len() == run.queue.len() + 1
            &&& after.queue.drop_last() == run.queue
            &&& after.queue.last() matches MmMessageView::AttachmentAttempt { head, operations } && {
                &&& head.itsi == issi
                &&& head.air_handle == handle
                &&& head.replace_all == replace_all
                &&& head.command_id == run.mm.next_id
                &&& operations.len() == groups.len()
                &&& forall|i: int|
                    0 <= i < groups.len() ==> {
                        &&& (#[trigger] operations[i]).gssi == groups[i].gssi->0
                        &&& operations[i].detach
                            == groups[i].group_identity_detachment_uplink is Some
                        &&& groups[i].class_of_usage is Some ==> operations[i].class_of_usage
                            == groups[i].class_of_usage->0
                    }
            }
            &&& after.mm.clients == run.mm.clients
            &&& after.subscribers == run.subscribers
            &&& crate::table::lookup(after.mm.attachments, run.mm.next_id) matches Some(waiting) && {
                &&& waiting.itsi == issi
                &&& waiting.air_handle == handle
                &&& waiting.replace_all == replace_all
                &&& waiting.operations.len() == groups.len()
            }
            &&& after.mm.next_id != run.mm.next_id && after.mm.next_id != 0
        }),
{
    reveal(MmRun::groups_requested);
    let after = run.groups_requested(issi, handle, replace_all, groups);
    assert(after.queue.drop_last() =~= run.queue);
    crate::table::law_lookup_after_put(
        run.mm.attachments,
        run.mm.next_id,
        crate::mm::pending::AttachmentView {
            itsi: issi,
            air_handle: handle,
            replace_all,
            operations: crate::mm::pending::named(groups)->0,
        },
        run.mm.next_id,
    );
}

/// Whether a decision is about the group, and accepts.
pub open spec fn grants(result: AttachmentResult, gssi: u32) -> bool {
    result.accepted && result.operation.gssi == gssi && 0 < gssi <= 16777215
}

/// Whether a list of decisions grants something about the group.
pub open spec fn decides(results: Seq<AttachmentResult>, gssi: u32) -> bool {
    exists|i: int| 0 <= i < results.len() && grants(#[trigger] results[i], gssi)
}

/// Whether the last decision that grants something about the group attaches it.
pub open spec fn grants_membership(results: Seq<AttachmentResult>, gssi: u32) -> bool {
    exists|i: int|
        {
            &&& 0 <= i < results.len()
            &&& grants(#[trigger] results[i], gssi)
            &&& !results[i].operation.detach
            &&& forall|j: int| i < j < results.len() ==> !grants(#[trigger] results[j], gssi)
        }
}

proof fn lemma_grants(results: Seq<AttachmentResult>, n: int, gssi: u32)
    requires
        0 < n <= results.len(),
    ensures
        decides(results.take(n), gssi) == (grants(results[n - 1], gssi) || decides(
            results.take(n - 1),
            gssi,
        )),
        grants_membership(results.take(n), gssi) == if grants(results[n - 1], gssi) {
            !results[n - 1].operation.detach
        } else {
            grants_membership(results.take(n - 1), gssi)
        },
{
    let all = results.take(n);
    let rest = results.take(n - 1);
    assert(forall|i: int| 0 <= i < n ==> #[trigger] all[i] == results[i]);
    assert(forall|i: int| 0 <= i < n - 1 ==> #[trigger] rest[i] == results[i]);
    assert(all[n - 1] == results[n - 1]);
    if decides(rest, gssi) {
        let i = choose|i: int| 0 <= i < rest.len() && grants(#[trigger] rest[i], gssi);
        assert(grants(all[i], gssi));
    }
    if decides(all, gssi) && !grants(results[n - 1], gssi) {
        let i = choose|i: int| 0 <= i < all.len() && grants(#[trigger] all[i], gssi);
        assert(grants(rest[i], gssi));
    }
    if grants(results[n - 1], gssi) {
        assert(grants(all[n - 1], gssi));
        if grants_membership(all, gssi) {
            let i = choose|i: int|
                {
                    &&& 0 <= i < all.len()
                    &&& grants(#[trigger] all[i], gssi)
                    &&& !all[i].operation.detach
                    &&& forall|j: int| i < j < all.len() ==> !grants(#[trigger] all[j], gssi)
                };
            assert(i == n - 1);
        }
    } else {
        if grants_membership(rest, gssi) {
            let i = choose|i: int|
                {
                    &&& 0 <= i < rest.len()
                    &&& grants(#[trigger] rest[i], gssi)
                    &&& !rest[i].operation.detach
                    &&& forall|j: int| i < j < rest.len() ==> !grants(#[trigger] rest[j], gssi)
                };
            assert(grants(all[i], gssi));
            assert forall|j: int| i < j < all.len() implies !grants(#[trigger] all[j], gssi) by {
                if j < n - 1 {
                    assert(all[j] == rest[j]);
                }
            }
        }
        if grants_membership(all, gssi) {
            let i = choose|i: int|
                {
                    &&& 0 <= i < all.len()
                    &&& grants(#[trigger] all[i], gssi)
                    &&& !all[i].operation.detach
                    &&& forall|j: int| i < j < all.len() ==> !grants(#[trigger] all[j], gssi)
                };
            assert(grants(rest[i], gssi));
            assert forall|j: int| i < j < rest.len() implies !grants(#[trigger] rest[j], gssi) by {
                assert(all[j] == rest[j]);
            }
        }
    }
}

proof fn lemma_decided(
    run: MmRun,
    issi: u32,
    has_rejection: bool,
    results: Seq<AttachmentResult>,
    operations: Seq<GroupOperation>,
    n: nat,
)
    requires
        agrees(run),
        run.mm.clients.known(issi),
        n <= results.len(),
    ensures
        ({
            let done = run.groups_decided(issi, has_rejection, results, operations, n);
            &&& agrees(done.run)
            &&& same_but_groups(run, done.run)
            &&& done.run.queue == run.queue
            &&& forall|other: u32, gssi: u32| #[trigger]
                in_group(done.run, other, gssi) == if other == issi && decides(
                    results.take(n as int),
                    gssi,
                ) {
                    grants_membership(results.take(n as int), gssi)
                } else {
                    in_group(run, other, gssi)
                }
        }),
    decreases n,
{
    let done = run.groups_decided(issi, has_rejection, results, operations, n);
    if n > 0 {
        let before = run.groups_decided(issi, has_rejection, results, operations, (n - 1) as nat);
        let last = results[n - 1];
        lemma_decided(run, issi, has_rejection, results, operations, (n - 1) as nat);
        let gssi = last.operation.gssi;
        if grants(last, gssi) {
            lemma_with_group(
                before.run,
                issi,
                gssi,
                !last.operation.detach,
                last.operation.class_of_usage,
            );
        }
        assert forall|other: u32, group: u32| #[trigger]
            in_group(done.run, other, group) == (if other == issi && decides(
            results.take(n as int),
            group,
        ) {
            grants_membership(results.take(n as int), group)
        } else {
            in_group(run, other, group)
        }) by {
            lemma_grants(results, n as int, group);
            assert(in_group(before.run, other, group) == if other == issi && decides(
                results.take(n - 1),
                group,
            ) {
                grants_membership(results.take(n - 1), group)
            } else {
                in_group(run, other, group)
            });
        }
    } else {
        assert forall|other: u32, group: u32| #[trigger]
            in_group(done.run, other, group) == in_group(run, other, group) by {}
    }
}

/// When the SwMI has decided on a request for groups, the terminal that asked is
/// in a group exactly if the decision attaches it, or if it was in the group and
/// the decision grants nothing about it; a request that replaces all groups takes
/// the others away as soon as it is granted one. The registry says the same, the
/// terminal gets its answer, and the request no longer waits.
pub proof fn law_decision_on_groups_is_carried_out(
    run: MmRun,
    id: u64,
    has_rejection: bool,
    results: Seq<AttachmentResult>,
    gssi: u32,
    other: u32,
)
    requires
        agrees(run),
        crate::table::lookup(run.mm.attachments, id) is Some,
        run.mm.clients.known((crate::table::lookup(run.mm.attachments, id)->0).itsi),
        (crate::table::lookup(run.mm.attachments, id)->0).operations.len() == results.len(),
        other != (crate::table::lookup(run.mm.attachments, id)->0).itsi,
    ensures
        ({
            let waiting = crate::table::lookup(run.mm.attachments, id)->0;
            let issi = waiting.itsi;
            let after = run.groups_answered_by_swmi(
                id,
                issi as u64,
                waiting.air_handle,
                has_rejection,
                results,
            );
            let starts_anew = waiting.replace_all && exists|i: int|
                0 <= i < results.len() && (#[trigger] results[i]).accepted
                    && !results[i].operation.detach;
            let is_in = if decides(results, gssi) {
                grants_membership(results, gssi)
            } else {
                !starts_anew && in_group(run, issi, gssi)
            };
            &&& in_group(after, issi, gssi) == is_in
            &&& after.subscribers.affiliated(issi, gssi) == is_in
            &&& in_group(after, other, gssi) == in_group(run, other, gssi)
            &&& after.queue.last() matches MmMessageView::Acknowledge {
                issi: to,
                handle,
                rejected,
                ..
            } && {
                &&& to == issi
                &&& handle == waiting.air_handle
                &&& has_rejection || (exists|i: int|
                    0 <= i < results.len() && !(#[trigger] results[i]).accepted) ==> rejected
            }
            &&& crate::table::lookup(after.mm.attachments, id) is None
        }),
{
    reveal(MmRun::groups_answered_by_swmi);
    reveal(MmRun::groups_settled);
    let waiting = crate::table::lookup(run.mm.attachments, id)->0;
    let issi = waiting.itsi;
    let taken = MmRun {
        mm: crate::mm::model::MmView {
            attachments: crate::table::del(run.mm.attachments, id),
            ..run.mm
        },
        ..run
    };
    crate::table::law_lookup_after_del(run.mm.attachments, id, id);
    assert(agrees(taken)) by {
        assert forall|a: u32, g: u32| #[trigger]
            in_group(taken, a, g) == taken.subscribers.affiliated(a, g) by {
            assert(in_group(run, a, g) == run.subscribers.affiliated(a, g));
        }
    }
    let starts_anew = waiting.replace_all && crate::mm::model::attaches(results);
    let cleared = if starts_anew {
        taken.groups_cleared(issi)
    } else {
        taken
    };
    if starts_anew {
        law_cleared_terminal_is_in_no_group(taken, issi);
    }
    assert(in_group(cleared, issi, gssi) == (!starts_anew && in_group(run, issi, gssi)));
    assert(in_group(cleared, other, gssi) == in_group(run, other, gssi));
    lemma_decided(cleared, issi, has_rejection, results, waiting.operations, results.len());
    assert(results.take(results.len() as int) =~= results);
    let done = cleared.groups_decided(
        issi,
        has_rejection,
        results,
        waiting.operations,
        results.len(),
    );
    lemma_change_is_told(cleared, issi, done);
    let after = run.groups_answered_by_swmi(
        id,
        issi as u64,
        waiting.air_handle,
        has_rejection,
        results,
    );
    assert(in_group(after, issi, gssi) == in_group(done.run, issi, gssi));
    assert(in_group(after, other, gssi) == in_group(done.run, other, gssi));
    assert(in_group(done.run, issi, gssi) == done.run.subscribers.affiliated(issi, gssi));
    lemma_rejection_stays(
        cleared,
        issi,
        has_rejection,
        results,
        waiting.operations,
        results.len(),
    );
}

proof fn lemma_rejection_stays(
    run: MmRun,
    issi: u32,
    has_rejection: bool,
    results: Seq<AttachmentResult>,
    operations: Seq<GroupOperation>,
    n: nat,
)
    requires
        n <= results.len(),
    ensures
        has_rejection || (exists|i: int| 0 <= i < n && !(#[trigger] results[i]).accepted)
            ==> run.groups_decided(issi, has_rejection, results, operations, n).rejected,
    decreases n,
{
    if n > 0 {
        lemma_rejection_stays(run, issi, has_rejection, results, operations, (n - 1) as nat);
        if (exists|i: int| 0 <= i < n && !(#[trigger] results[i]).accepted)
            && results[n - 1].accepted {
            let i = choose|i: int| 0 <= i < n && !(#[trigger] results[i]).accepted;
            assert(i < n - 1);
        }
    }
}

// ---------------------------------------------------------------------------
// State that is handed over
// ---------------------------------------------------------------------------

/// Whether the SwMI hands over the group as attached.
pub open spec fn hands_over(groups: Seq<AttachmentOperation>, gssi: u32) -> bool {
    exists|i: int|
        0 <= i < groups.len() && (#[trigger] groups[i]).gssi == gssi && !groups[i].detach && 0
            < gssi <= 16777215
}

proof fn lemma_restored(run: MmRun, issi: u32, groups: Seq<AttachmentOperation>)
    requires
        run.mm.clients.known(issi),
    ensures
        ({
            let (after, list) = run.groups_restored(issi, groups);
            &&& same_but_groups(run, after)
            &&& after.queue == run.queue
            &&& forall|other: u32, gssi: u32| #[trigger]
                in_group(after, other, gssi) == (in_group(run, other, gssi) || (other == issi
                    && hands_over(groups, gssi)))
            &&& forall|other: u32, gssi: u32| #[trigger]
                after.subscribers.affiliated(other, gssi) == (run.subscribers.affiliated(
                    other,
                    gssi,
                ) || (other == issi && hands_over(groups, gssi)))
            &&& forall|gssi: u32| #[trigger] list.contains(gssi) <==> hands_over(groups, gssi)
        }),
    decreases groups.len(),
{
    let (after, list) = run.groups_restored(issi, groups);
    if groups.len() > 0 {
        let rest = groups.drop_last();
        let (before, listed) = run.groups_restored(issi, rest);
        let last = groups.last();
        lemma_restored(run, issi, rest);
        let applies = !last.detach && 0 < last.gssi <= 16777215;
        let member = Membership { issi, gssi: last.gssi };
        assert forall|gssi: u32| #[trigger] hands_over(groups, gssi) == (hands_over(rest, gssi) || (
        applies && last.gssi == gssi)) by {
            if hands_over(groups, gssi) {
                let i = choose|i: int|
                    0 <= i < groups.len() && (#[trigger] groups[i]).gssi == gssi
                        && !groups[i].detach && 0 < gssi <= 16777215;
                if i < rest.len() {
                    assert(rest[i] == groups[i]);
                }
            }
            if hands_over(rest, gssi) {
                let i = choose|i: int|
                    0 <= i < rest.len() && (#[trigger] rest[i]).gssi == gssi && !rest[i].detach
                        && 0 < gssi <= 16777215;
                assert(groups[i] == rest[i]);
            }
            assert(groups[groups.len() - 1] == last);
        }
        assert forall|other: u32, gssi: u32| #[trigger]
            in_group(after, other, gssi) == (in_group(run, other, gssi) || (other == issi
                && hands_over(groups, gssi))) by {
            let asked = Membership { issi: other, gssi };
            crate::table::law_lookup_after_put(
                before.mm.clients.groups,
                member,
                last.class_of_usage,
                asked,
            );
            assert(in_group(before, other, gssi) == (in_group(run, other, gssi) || (other == issi
                && hands_over(rest, gssi))));
        }
        assert forall|other: u32, gssi: u32| #[trigger]
            after.subscribers.affiliated(other, gssi) == (run.subscribers.affiliated(other, gssi)
                || (other == issi && hands_over(groups, gssi))) by {
            crate::bluestation::subscribers::law_attachment(
                before.subscribers,
                issi,
                last.gssi,
                other,
                gssi,
            );
            assert(before.subscribers.affiliated(other, gssi) == (run.subscribers.affiliated(
                other,
                gssi,
            ) || (other == issi && hands_over(rest, gssi))));
        }
        assert forall|gssi: u32| #[trigger] list.contains(gssi) <==> hands_over(groups, gssi) by {
            if applies {
                vstd::seq_lib::lemma_seq_contains_after_push(listed, last.gssi, gssi);
            }
            assert(listed.contains(gssi) <==> hands_over(rest, gssi));
        }
    } else {
        assert forall|gssi: u32| !#[trigger] hands_over(groups, gssi) by {}
        assert forall|other: u32, gssi: u32| #[trigger]
            in_group(after, other, gssi) == in_group(run, other, gssi) by {}
    }
}

/// After the SwMI has handed over the state of a terminal that is known here, the
/// terminal is in exactly the groups that the SwMI named as attached, as mobility
/// management has it and as the registry has it; call control is told of each;
/// scanning and energy economy are those of the SwMI.
pub proof fn law_handed_over_state_holds(
    run: MmRun,
    issi: u32,
    groups: Seq<AttachmentOperation>,
    scanning: bool,
    economy: EnergyEconomyAssignment,
    gssi: u32,
    other: u32,
)
    requires
        agrees(run),
        run.mm.clients.known(issi),
        run.subscribers.registered(issi),
        other != issi,
    ensures
        ({
            let after = run.state_synced(issi as u64, groups, scanning, economy);
            &&& in_group(after, issi, gssi) == hands_over(groups, gssi)
            &&& after.subscribers.affiliated(issi, gssi) == hands_over(groups, gssi)
            &&& in_group(after, other, gssi) == in_group(run, other, gssi)
            &&& hands_over(groups, gssi) ==> told(
                after.queue,
                run.queue.len() as int,
                issi,
                gssi,
                SubscriberUpdateAction::Affiliate,
            )
            &&& after.mm.clients.client(issi).scanning_enabled == scanning
            &&& after.mm.clients.client(issi).energy_economy == economy
            &&& after.subscribers.known(issi).scanning_enabled == scanning
            &&& after.queue.last() matches MmMessageView::Update { head, .. } && head.to
                == UpdateReceiver::Cmce && head.issi == issi && head.scanning_enabled == Some(
                scanning,
            )
        }),
{
    reveal(MmRun::state_synced);
    let stored = run.energy_stored(issi, economy);
    crate::table::law_lookup_after_put(
        run.mm.clients.clients,
        issi,
        crate::mm::clients::MmClient { energy_economy: economy, ..run.mm.clients.client(issi) },
        issi,
    );
    assert(agrees(stored)) by {
        assert forall|a: u32, g: u32| #[trigger]
            in_group(stored, a, g) == stored.subscribers.affiliated(a, g) by {
            assert(in_group(run, a, g) == run.subscribers.affiliated(a, g));
        }
    }
    law_cleared_terminal_is_in_no_group(stored, issi);
    let cleared = stored.groups_cleared(issi);
    assert(in_group(stored, other, gssi) == in_group(run, other, gssi));
    lemma_restored(cleared, issi, groups);
    let (restored, list) = cleared.groups_restored(issi, groups);
    let action = SubscriberUpdateAction::Affiliate;
    lemma_emitted(restored, issi, list, action);
    let told_run = restored.emitted_some(issi, list, action);
    let after = run.state_synced(issi as u64, groups, scanning, economy);
    assert(told_run.mm.clients.known(issi));
    let client = crate::mm::clients::MmClient {
        scanning_enabled: scanning,
        ..told_run.mm.clients.client(issi)
    };
    crate::table::law_lookup_after_put(told_run.mm.clients.clients, issi, client, issi);
    assert(in_group(cleared, issi, gssi) == false);
    assert(in_group(restored, issi, gssi) == hands_over(groups, gssi));
    assert(in_group(restored, other, gssi) == in_group(run, other, gssi));
    assert(in_group(cleared, issi, gssi) == cleared.subscribers.affiliated(issi, gssi));
    assert(restored.subscribers.affiliated(issi, gssi) == hands_over(groups, gssi));
    lemma_still_registered(run, issi, groups, economy);
    let known = told_run.subscribers.known(issi);
    crate::table::law_lookup_after_put(
        told_run.subscribers.subscribers,
        issi,
        crate::bluestation::subscribers::Subscriber { scanning_enabled: scanning, ..known },
        issi,
    );
    if hands_over(groups, gssi) {
        assert(list.contains(gssi));
        assert(told(told_run.queue, restored.queue.len() as int, issi, gssi, action));
        let from = run.queue.len() as int;
        lemma_told_from(told_run.queue, from, restored.queue.len() as int, issi, gssi, action);
        lemma_told_later(told_run.queue, after.queue, from, issi, gssi, action);
    }
}

proof fn lemma_still_registered(
    run: MmRun,
    issi: u32,
    groups: Seq<AttachmentOperation>,
    economy: EnergyEconomyAssignment,
)
    requires
        run.mm.clients.known(issi),
        run.subscribers.registered(issi),
    ensures
        run.energy_stored(issi, economy).groups_cleared(issi).groups_restored(
            issi,
            groups,
        ).0.subscribers.registered(issi),
    decreases groups.len(),
{
    if groups.len() == 0 {
        reveal(MmRun::groups_cleared);
        let stored = run.energy_stored(issi, economy);
        let economy_known = crate::bluestation::subscribers::Subscriber {
            energy_economy_mode: economy.mode.code(),
            energy_economy_frame_number: economy.frame_number,
            energy_economy_multiframe_number: economy.multiframe_number,
            ..run.subscribers.known(issi)
        };
        crate::table::law_lookup_after_put(run.subscribers.subscribers, issi, economy_known, issi);
        assert(stored.subscribers.registered(issi));
        lemma_detaching_keeps_registered(
            stored.subscribers,
            issi,
            stored.mm.clients.groups(issi),
        );
    } else {
        lemma_still_registered(run, issi, groups.drop_last(), economy);
    }
}

proof fn lemma_detaching_keeps_registered(
    registry: crate::bluestation::subscribers::RegistryView,
    issi: u32,
    groups: Seq<u32>,
)
    requires
        registry.registered(issi),
    ensures
        crate::mm::model::registry_detached(registry, issi, groups).registered(issi),
    decreases groups.len(),
{
    if groups.len() > 0 {
        lemma_detaching_keeps_registered(registry, issi, groups.drop_last());
    }
}

// ---------------------------------------------------------------------------
// Groups of a location update
// ---------------------------------------------------------------------------

/// A run in which the terminal has entered.
#[verifier::opaque]
spec fn entered_for(run: MmRun, issi: u32) -> MmRun {
    if run.mm.clients.known(issi) {
        run.attached(issi)
    } else {
        run.registered(issi)
    }
}

proof fn lemma_entered_groups(run: MmRun, issi: u32)
    requires
        agrees(run),
        0 < issi <= 16777215,
    ensures
        ({
            let entered = entered_for(run, issi);
            &&& agrees(entered)
            &&& entered.mm.clients.known(issi)
            &&& forall|other: u32, gssi: u32| #[trigger]
                in_group(entered, other, gssi) == (in_group(run, other, gssi) && (other != issi
                    || run.mm.clients.known(issi)))
        }),
{
    reveal(entered_for);
    let is_known = run.mm.clients.known(issi);
    let entered = entered_for(run, issi);
    let fresh = crate::mm::clients::MmClient {
        state: crate::mm::clients::MmClientState::Attached,
        energy_economy: EnergyEconomyAssignment::stay_alive(),
        scanning_enabled: true,
        class_of_ms: None,
    };
    crate::table::law_lookup_after_put(run.mm.clients.clients, issi, fresh, issi);
    crate::table::law_lookup_after_put(
        run.mm.clients.clients,
        issi,
        crate::mm::clients::MmClient {
            state: crate::mm::clients::MmClientState::Attached,
            ..run.mm.clients.client(issi)
        },
        issi,
    );
    assert forall|other: u32, gssi: u32|
        #![trigger in_group(entered, other, gssi)]
        in_group(entered, other, gssi) == (in_group(run, other, gssi) && (other != issi
            || is_known)) && in_group(entered, other, gssi) == entered.subscribers.affiliated(
            other,
            gssi,
        ) by {
        crate::table::law_lookup_after_key_filter(
            run.mm.clients.groups,
            crate::mm::clients::not_of(issi),
            Membership { issi: other, gssi },
        );
        crate::bluestation::subscribers::law_deregistration(run.subscribers, issi, other, gssi);
        assert(in_group(run, other, gssi) == run.subscribers.affiliated(other, gssi));
    }
}

/// After a location update that the station decides alone, the terminal is in a
/// group exactly if the update attaches it, or if it was known and in the group
/// and the update neither names it nor replaces all groups. The registry says the
/// same, the groups of all other terminals stay, and the terminal is accepted with
/// the groups listed.
pub proof fn law_registering_terminal_is_in_its_groups(
    run: MmRun,
    prim: crate::mm::mm_bs::MmUplink,
    pdu: crate::mm::pdu::ULocationUpdateDemand,
    challenge: Option<[u8; 10]>,
    groups: Seq<GroupIdentityUplink>,
    gssi: u32,
    other: u32,
)
    requires
        agrees(run),
        !(run.link.present && run.link.online),
        crate::mm::mm_bs::supports(pdu),
        pdu.location_update_type
            != crate::mm::pdu::LocationUpdateType::ServiceRestorationMigratingLocationUpdating,
        pdu.group_identity_location_demand is Some,
        pdu.group_identity_location_demand->0.group_identity_uplink is Some,
        (pdu.group_identity_location_demand->0.group_identity_uplink->0)@ == groups,
        0 < prim.ssi <= 16777215,
        other != prim.ssi,
    ensures
        ({
            let after = run.location_update(
                crate::mm::mm_bs::demand_view(prim, pdu, challenge),
            );
            let replace_all = pdu.group_identity_location_demand->0.replace_all;
            let is_in = if names(groups, gssi) {
                attaches(groups, gssi)
            } else {
                !replace_all && run.mm.clients.known(prim.ssi) && in_group(run, prim.ssi, gssi)
            };
            &&& in_group(after, prim.ssi, gssi) == is_in
            &&& after.subscribers.affiliated(prim.ssi, gssi) == is_in
            &&& in_group(after, other, gssi) == in_group(run, other, gssi)
            &&& after.queue.last() matches MmMessageView::Accept { handle, head, .. } && {
                &&& handle == prim.handle
                &&& head.ssi == prim.ssi
                &&& head.group_accept matches Some(accepted) && accepted.listed
                    && !accepted.rejected
            }
        }),
{
    let demand = crate::mm::mm_bs::demand_view(prim, pdu, challenge);
    let replace_all = pdu.group_identity_location_demand->0.replace_all;
    assert(demand.groups == Some((replace_all, Some(groups))));
    assert(run.location_update(demand) == run.location_update_alone(demand)) by {
        reveal(MmRun::location_update);
    }
    let prepared = prepared_for(run, demand);
    lemma_prepared(run, demand);
    let issi = prim.ssi;
    let cleared = if replace_all {
        prepared.groups_cleared(issi)
    } else {
        prepared
    };
    lemma_alone_is_grouped(run, demand, replace_all, groups);
    if replace_all {
        law_cleared_terminal_is_in_no_group(prepared, issi);
    }
    lemma_changed(cleared, issi, groups);
    let done = cleared.groups_changed(issi, groups);
    lemma_change_is_told(cleared, issi, done);
    let after = run.location_update(demand);
    assert(in_group(after, issi, gssi) == in_group(done.run, issi, gssi));
    assert(in_group(after, other, gssi) == in_group(done.run, other, gssi));
    assert(in_group(done.run, issi, gssi) == done.run.subscribers.affiliated(issi, gssi));
    assert(after.subscribers.affiliated(issi, gssi) == done.run.subscribers.affiliated(issi, gssi));
    assert(in_group(cleared, issi, gssi) == (!replace_all && in_group(prepared, issi, gssi)));
    assert(in_group(cleared, other, gssi) == in_group(prepared, other, gssi));
}

/// A run in which the terminal has entered, before its groups are changed.
spec fn prepared_for(run: MmRun, demand: crate::mm::model::DemandView) -> MmRun {
    entered_for(run, demand.issi).awaiting(demand.issi, true).energy_applied(
        demand.issi,
        demand.economy(run.mm.now),
    )
}

proof fn lemma_prepared(run: MmRun, demand: crate::mm::model::DemandView)
    requires
        agrees(run),
        0 < demand.issi <= 16777215,
    ensures
        ({
            let prepared = prepared_for(run, demand);
            &&& agrees(prepared)
            &&& prepared.mm.clients.known(demand.issi)
            &&& forall|other: u32, gssi: u32| #[trigger]
                in_group(prepared, other, gssi) == (in_group(run, other, gssi) && (other
                    != demand.issi || run.mm.clients.known(demand.issi)))
        }),
{
    let issi = demand.issi;
    let entered = entered_for(run, issi);
    lemma_entered_groups(run, issi);
    let waiting = entered.awaiting(issi, true);
    lemma_energy_keeps_groups(waiting, issi, demand.economy(run.mm.now));
    let prepared = prepared_for(run, demand);
    assert(prepared.mm.clients.groups == entered.mm.clients.groups);
    assert(prepared.subscribers.affiliations == entered.subscribers.affiliations);
    assert forall|a: u32, g: u32|
        #![trigger in_group(prepared, a, g)]
        in_group(prepared, a, g) == in_group(entered, a, g) && in_group(prepared, a, g)
            == prepared.subscribers.affiliated(a, g) by {
        assert(in_group(entered, a, g) == entered.subscribers.affiliated(a, g));
    }
}

proof fn lemma_energy_keeps_groups(run: MmRun, issi: u32, economy: EnergyEconomyAssignment)
    requires
        run.mm.clients.known(issi),
    ensures
        ({
            let after = run.energy_applied(issi, economy);
            &&& after.mm.clients.groups == run.mm.clients.groups
            &&& after.subscribers.affiliations == run.subscribers.affiliations
            &&& after.mm.clients.known(issi)
        }),
{
    crate::table::law_lookup_after_put(
        run.mm.clients.clients,
        issi,
        crate::mm::clients::MmClient { energy_economy: economy, ..run.mm.clients.client(issi) },
        issi,
    );
}

proof fn lemma_alone_is_grouped(
    run: MmRun,
    demand: crate::mm::model::DemandView,
    replace_all: bool,
    groups: Seq<GroupIdentityUplink>,
)
    requires
        0 < demand.issi <= 16777215,
        demand.groups == Some((replace_all, Some(groups))),
    ensures
        ({
            let prepared = prepared_for(run, demand);
            let cleared = if replace_all {
                prepared.groups_cleared(demand.issi)
            } else {
                prepared
            };
            let grouped = cleared.groups_tried(demand.issi, groups);
            let after = run.location_update_alone(demand);
            &&& after.mm.clients.groups == grouped.mm.clients.groups
            &&& after.subscribers.affiliations == grouped.subscribers.affiliations
            &&& after.queue.last() matches MmMessageView::Accept { handle, head, .. } && {
                &&& handle == demand.handle
                &&& head.ssi == demand.issi
                &&& head.group_accept matches Some(accepted) && accepted.listed
                    && !accepted.rejected
            }
        }),
{
    reveal(MmRun::location_update_alone);
    reveal(entered_for);
}

/// When the SwMI has decided on the groups of a location update, the terminal is
/// in a group exactly if the decision attaches it, or if it was in the group and
/// the decision grants nothing about it and does not start its groups anew; it is
/// accepted with the groups, and with a rejection exactly where the decision holds
/// one or a group cannot be had.
pub proof fn law_decision_on_location_groups_is_carried_out(
    run: MmRun,
    id: u64,
    has_rejection: bool,
    results: Seq<AttachmentResult>,
    gssi: u32,
    other: u32,
)
    requires
        agrees(run),
        crate::table::lookup(run.mm.location_attachments, id) is Some,
        run.mm.clients.known(
            (crate::table::lookup(run.mm.location_attachments, id)->0).attachment.itsi,
        ),
        (crate::table::lookup(run.mm.location_attachments, id)->0).attachment.itsi == (
        crate::table::lookup(run.mm.location_attachments, id)->0).registration.itsi,
        (crate::table::lookup(run.mm.location_attachments, id)->0).attachment.operations.len()
            == results.len(),
        other != (crate::table::lookup(run.mm.location_attachments, id)->0).attachment.itsi,
    ensures
        ({
            let waiting = crate::table::lookup(run.mm.location_attachments, id)->0;
            let issi = waiting.registration.itsi;
            let after = run.attachment_decided(
                id,
                issi as u64,
                waiting.registration.air_handle,
                has_rejection,
                results,
            );
            let starts_anew = waiting.attachment.replace_all && exists|i: int|
                0 <= i < results.len() && (#[trigger] results[i]).accepted
                    && !results[i].operation.detach;
            let is_in = if decides(results, gssi) {
                grants_membership(results, gssi)
            } else {
                !starts_anew && in_group(run, issi, gssi)
            };
            &&& in_group(after, issi, gssi) == is_in
            &&& after.subscribers.affiliated(issi, gssi) == is_in
            &&& in_group(after, other, gssi) == in_group(run, other, gssi)
            &&& after.queue.last() matches MmMessageView::Accept { handle, head, .. } && {
                &&& handle == waiting.registration.air_handle
                &&& head.ssi == issi
                &&& head.location_update_type == waiting.registration.location_update_type
                &&& head.group_accept matches Some(accepted) && accepted.listed && (has_rejection
                    || (exists|i: int| 0 <= i < results.len() && !(#[trigger] results[i]).accepted)
                    ==> accepted.rejected)
            }
            &&& after.subscribers.is_active(issi)
            &&& crate::table::lookup(after.mm.location_attachments, id) is None
        }),
{
    reveal(MmRun::location_groups_decided);
    reveal(MmRun::groups_settled);
    let waiting = crate::table::lookup(run.mm.location_attachments, id)->0;
    let issi = waiting.registration.itsi;
    let taken = MmRun {
        mm: crate::mm::model::MmView {
            location_attachments: crate::table::del(run.mm.location_attachments, id),
            ..run.mm
        },
        ..run
    };
    crate::table::law_lookup_after_del(run.mm.location_attachments, id, id);
    assert(agrees(taken)) by {
        assert forall|a: u32, g: u32| #[trigger]
            in_group(taken, a, g) == taken.subscribers.affiliated(a, g) by {
            assert(in_group(run, a, g) == run.subscribers.affiliated(a, g));
        }
    }
    let starts_anew = waiting.attachment.replace_all && crate::mm::model::attaches(results);
    let cleared = if starts_anew {
        taken.groups_cleared(issi)
    } else {
        taken
    };
    if starts_anew {
        law_cleared_terminal_is_in_no_group(taken, issi);
    }
    assert(in_group(cleared, issi, gssi) == (!starts_anew && in_group(run, issi, gssi)));
    assert(in_group(cleared, other, gssi) == in_group(run, other, gssi));
    let operations = waiting.attachment.operations;
    lemma_decided(cleared, issi, has_rejection, results, operations, results.len());
    assert(results.take(results.len() as int) =~= results);
    let done = cleared.groups_decided(issi, has_rejection, results, operations, results.len());
    lemma_change_is_told(cleared, issi, done);
    let after = run.attachment_decided(
        id,
        issi as u64,
        waiting.registration.air_handle,
        has_rejection,
        results,
    );
    assert(after.mm.clients == done.run.mm.clients);
    assert(after.subscribers == done.run.subscribers.activated(issi));
    assert(in_group(after, issi, gssi) == in_group(done.run, issi, gssi));
    assert(in_group(after, other, gssi) == in_group(done.run, other, gssi));
    assert(in_group(done.run, issi, gssi) == done.run.subscribers.affiliated(issi, gssi));
    crate::bluestation::subscribers::law_delivery_states_exclude_each_other(
        done.run.subscribers,
        issi,
    );
    lemma_rejection_stays(cleared, issi, has_rejection, results, operations, results.len());
}

/// A terminal that is not known and replaces all its groups is registered by that,
/// in exactly the groups that it names.
pub proof fn law_unknown_terminal_registers_with_its_groups(
    run: MmRun,
    issi: u32,
    handle: u32,
    groups: Seq<GroupIdentityUplink>,
    gssi: u32,
)
    requires
        agrees(run),
        !run.mm.clients.known(issi),
        1 <= issi <= 16777215,
        !(run.link.present && run.link.online),
    ensures
        ({
            let after = run.groups_requested(issi, handle, true, groups);
            &&& after.mm.clients.known(issi)
            &&& after.subscribers.registered(issi)
            &&& in_group(after, issi, gssi) == (names(groups, gssi) && attaches(groups, gssi))
            &&& agrees(after)
        }),
{
    reveal(MmRun::groups_requested);
    reveal(MmRun::groups_requested_alone);
    reveal(entered_for);
    lemma_entered_groups(run, issi);
    let entered = run.registered(issi);
    assert(entered == entered_for(run, issi));
    lemma_changed(entered, issi, groups);
    let done = entered.groups_changed(issi, groups);
    lemma_change_is_told(entered, issi, done);
    let after = run.groups_requested(issi, handle, true, groups);
    assert(after.mm == done.run.mm && after.subscribers == done.run.subscribers);
    assert(in_group(after, issi, gssi) == in_group(done.run, issi, gssi));
    assert(!in_group(entered, issi, gssi));
    assert forall|a: u32, g: u32| #[trigger] in_group(after, a, g) == after.subscribers.affiliated(
        a,
        g,
    ) by {
        assert(in_group(done.run, a, g) == done.run.subscribers.affiliated(a, g));
    }
    crate::table::law_lookup_after_put(
        run.subscribers.deregistered(issi).subscribers,
        issi,
        crate::bluestation::subscribers::Subscriber::fresh(issi),
        issi,
    );
    lemma_changing_keeps_registered(entered, issi, groups);
}

proof fn lemma_changing_keeps_registered(
    run: MmRun,
    issi: u32,
    groups: Seq<GroupIdentityUplink>,
)
    requires
        run.subscribers.registered(issi),
    ensures
        run.groups_changed(issi, groups).run.subscribers.registered(issi),
    decreases groups.len(),
{
    if groups.len() > 0 {
        lemma_changing_keeps_registered(run, issi, groups.drop_last());
    }
}

} // verus!
