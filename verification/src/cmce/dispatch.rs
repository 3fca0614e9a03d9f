//! The messages of the central SwMI, handed to call control and to short data in
//! the order in which they came.
use crate::bluestation::subscribers::{RegistryView, SubscriberRegistry};
use crate::cmce::cc_bs::{CcBsSubentity, CcPort};
use crate::cmce::cc_model::{CcRun, CircuitMgrCmd};
use crate::cmce::pdu::{CallMessage, CcMessage};
use crate::cmce::sds_bs::{
    SdsBsSubentity, SdsMessage, SdsMessageView, SdsPort, SdsRun, SdsSwmiMessage,
};
use crate::tdma::TdmaTime;
use vstd::prelude::*;

verus! {

/// A message of the central SwMI for one of the sub-entities.
#[derive(Debug)]
pub enum SwmiAction {
    Call(CallMessage),
    ShortData(SdsSwmiMessage),
}

/// What the sub-entities hand on.
#[derive(Debug)]
pub enum CmceMessage {
    Call(CcMessage),
    ShortData(SdsMessage),
}

/// The model of what the sub-entities hand on.
pub ghost enum CmceMessageView {
    Call(CcMessage),
    ShortData(SdsMessageView),
}

impl View for CmceMessage {
    type V = CmceMessageView;

    open spec fn view(&self) -> CmceMessageView {
        match self {
            CmceMessage::Call(message) => CmceMessageView::Call(*message),
            CmceMessage::ShortData(message) => CmceMessageView::ShortData(message@),
        }
    }
}

/// The models of a queue of messages.
pub open spec fn cmce_messages(queue: Seq<CmceMessage>) -> Seq<CmceMessageView> {
    queue.map_values(|message: CmceMessage| message@)
}

/// The messages of call control among those of the entity.
pub open spec fn of_calls(queue: Seq<CcMessage>) -> Seq<CmceMessageView> {
    queue.map_values(|message: CcMessage| CmceMessageView::Call(message))
}

/// The messages of short data among those of the entity.
pub open spec fn of_short_data(queue: Seq<SdsMessageView>) -> Seq<CmceMessageView> {
    queue.map_values(|message: SdsMessageView| CmceMessageView::ShortData(message))
}

/// The sub-entities with what surrounds them, and what they have handed on.
#[verifier::ext_equal]
pub ghost struct CmceRun {
    pub cc: CcRun,
    pub sds: SdsRun,
    pub handed: Seq<CmceMessageView>,
}

impl CmceRun {
    /// With the messages of the sub-entities handed on.
    pub open spec fn collected(self) -> CmceRun {
        CmceRun {
            cc: CcRun { queue: Seq::empty(), ..self.cc },
            sds: SdsRun { queue: Seq::empty(), ..self.sds },
            handed: self.handed + of_calls(self.cc.queue) + of_short_data(self.sds.queue),
        }
    }

    /// One message of the central SwMI: short data takes its own, call control
    /// all others.
    pub open spec fn acted(self, registry: RegistryView, action: SwmiAction) -> CmceRun {
        match action {
            SwmiAction::Call(message) => CmceRun { cc: self.cc.swmi_action(message), ..self },
            SwmiAction::ShortData(message) => CmceRun {
                sds: self.sds.swmi_action(registry, message),
                ..self
            },
        }.collected()
    }

    /// The messages of the central SwMI, in their order.
    pub open spec fn all_acted(self, registry: RegistryView, actions: Seq<SwmiAction>) -> CmceRun
        decreases actions.len(),
    {
        if actions.len() == 0 {
            self
        } else {
            self.all_acted(registry, actions.drop_last()).acted(registry, actions.last())
        }
    }

    /// A timeslot starts: first the messages of the central SwMI, then what is
    /// due for the calls.
    pub open spec fn tick(
        self,
        registry: RegistryView,
        now: TdmaTime,
        actions: Seq<SwmiAction>,
    ) -> CmceRun {
        let acted = CmceRun { cc: self.cc.at(now), ..self }.all_acted(registry, actions);
        CmceRun { cc: acted.cc.timers(), ..acted }.collected()
    }

    /// The tasks of the circuit manager.
    pub open spec fn tasks(self, tasks: Seq<CircuitMgrCmd>, unsent: Seq<u64>) -> CmceRun {
        CmceRun { cc: self.cc.tasks(tasks, unsent), ..self }.collected()
    }
}

/// What the sub-entities work on, and what they have handed on.
pub struct CmcePort {
    pub cc: CcPort,
    pub sds: SdsPort,
    pub handed: Vec<CmceMessage>,
}

impl CmcePort {
    /// The state of the entity.
    pub open spec fn run(&self, cc: CcBsSubentity, sds: SdsBsSubentity) -> CmceRun {
        CmceRun {
            cc: cc.run(self.cc),
            sds: sds.run(self.sds),
            handed: cmce_messages(self.handed@),
        }
    }

    fn hand_on_calls(&mut self)
        ensures
            final(self).cc.queue@.len() == 0,
            old(self).cc.same_but_queue(final(self).cc),
            final(self).sds == old(self).sds,
            cmce_messages(final(self).handed@) == cmce_messages(old(self).handed@) + of_calls(
                old(self).cc.queue@,
            ),
    {
        let ghost queue = self.cc.queue@;
        let ghost handed = cmce_messages(self.handed@);
        let mut i: usize = 0;
        assert(of_calls(queue.take(0)) =~= Seq::empty());
        assert(handed + of_calls(queue.take(0)) =~= handed);
        while i < self.cc.queue.len()
            invariant
                i <= self.cc.queue@.len(),
                self.cc.queue@ == queue,
                old(self).cc == self.cc,
                self.sds == old(self).sds,
                cmce_messages(self.handed@) == handed + of_calls(queue.take(i as int)),
            decreases self.cc.queue@.len() - i,
        {
            let ghost before = self.handed@;
            let message: CcMessage = self.cc.queue[i];
            self.handed.push(CmceMessage::Call(message));
            proof {
                assert(cmce_messages(self.handed@) =~= cmce_messages(before).push(
                    CmceMessageView::Call(message),
                ));
                assert(of_calls(queue.take(i + 1)) =~= of_calls(queue.take(i as int)).push(
                    CmceMessageView::Call(message),
                ));
                assert(handed + of_calls(queue.take(i + 1)) =~= (handed + of_calls(
                    queue.take(i as int),
                )).push(CmceMessageView::Call(message)));
            }
            i = i + 1;
        }
        assert(queue.take(queue.len() as int) =~= queue);
        self.cc.queue = Vec::new();
    }

    fn hand_on_short_data(&mut self)
        ensures
            final(self).sds.queue@.len() == 0,
            final(self).sds.link == old(self).sds.link,
            final(self).cc == old(self).cc,
            cmce_messages(final(self).handed@) == cmce_messages(old(self).handed@) + of_short_data(
                crate::cmce::sds_bs::sds_messages(old(self).sds.queue@),
            ),
    {
        let ghost queue = self.sds.queue@;
        let ghost views = crate::cmce::sds_bs::sds_messages(queue);
        let ghost handed = cmce_messages(self.handed@);
        let ghost mut n: int = 0;
        assert(handed + of_short_data(views.take(0)) =~= handed);
        assert(queue.skip(0) =~= queue);
        while self.sds.queue.len() > 0
            invariant
                0 <= n <= queue.len(),
                views == crate::cmce::sds_bs::sds_messages(queue),
                self.sds.queue@ == queue.skip(n),
                self.sds.link == old(self).sds.link,
                self.cc == old(self).cc,
                cmce_messages(self.handed@) == handed + of_short_data(views.take(n)),
            decreases self.sds.queue@.len(),
        {
            let ghost before = self.handed@;
            let message: SdsMessage = self.sds.queue.remove(0);
            let ghost view = CmceMessageView::ShortData(message@);
            self.handed.push(CmceMessage::ShortData(message));
            proof {
                assert(views[n] == message@);
                assert(self.sds.queue@ =~= queue.skip(n + 1));
                assert(cmce_messages(self.handed@) =~= cmce_messages(before).push(view));
                assert(of_short_data(views.take(n + 1)) =~= of_short_data(views.take(n)).push(
                    view,
                ));
                assert(handed + of_short_data(views.take(n + 1)) =~= (handed + of_short_data(
                    views.take(n),
                )).push(view));
                n = n + 1;
            }
        }
        assert(views.take(n) =~= views);
    }

    fn collect(&mut self, cc: &CcBsSubentity, sds: &SdsBsSubentity)
        ensures
            final(self).run(*cc, *sds) == old(self).run(*cc, *sds).collected(),
    {
        let ghost before = self.run(*cc, *sds);
        self.hand_on_calls();
        self.hand_on_short_data();
        proof {
            assert(self.cc.queue@ =~= Seq::empty());
            assert(crate::cmce::sds_bs::sds_messages(self.sds.queue@) =~= Seq::empty());
            assert(self.run(*cc, *sds) =~= before.collected());
        }
    }
}

/// One message of the central SwMI: short data takes its own, call control all
/// others.
pub fn handle_swmi_action(
    cc: &mut CcBsSubentity,
    sds: &mut SdsBsSubentity,
    port: &mut CmcePort,
    subscribers: &SubscriberRegistry,
    action: SwmiAction,
)
    ensures
        final(port).run(*final(cc), *final(sds)) == old(port).run(*old(cc), *old(sds)).acted(
            subscribers@,
            action,
        ),
{
    match action {
        SwmiAction::Call(message) => cc.handle_swmi_action(&mut port.cc, message),
        SwmiAction::ShortData(message) => sds.handle_swmi_action(
            &mut port.sds,
            subscribers,
            message,
        ),
    }
    port.collect(cc, sds);
}

/// A timeslot starts: first the messages of the central SwMI, in the order in
/// which they came, then what is due for the calls. The tasks of the circuit
/// manager follow, in `run_tasks`.
pub fn tick_start(
    cc: &mut CcBsSubentity,
    sds: &mut SdsBsSubentity,
    port: &mut CmcePort,
    subscribers: &SubscriberRegistry,
    now: TdmaTime,
    actions: Vec<SwmiAction>,
)
    ensures
        final(port).run(*final(cc), *final(sds)) == old(port).run(*old(cc), *old(sds)).tick(
            subscribers@,
            now,
            actions@,
        ),
{
    cc.start_slot(now);
    let ghost start = port.run(*cc, *sds);
    let ghost all = actions@;
    let ghost mut n: int = 0;
    let mut left: Vec<SwmiAction> = actions;
    assert(all.skip(0) =~= all);
    assert(all.take(0) =~= Seq::empty());
    while left.len() > 0
        invariant
            0 <= n <= all.len(),
            left@ == all.skip(n),
            port.run(*cc, *sds) == start.all_acted(subscribers@, all.take(n)),
        decreases left@.len(),
    {
        let action: SwmiAction = left.remove(0);
        proof {
            assert(action == all[n]);
            assert(left@ =~= all.skip(n + 1));
            assert(all.take(n + 1).drop_last() =~= all.take(n));
            assert(all.take(n + 1).last() == all[n]);
            n = n + 1;
        }
        handle_swmi_action(cc, sds, port, subscribers, action);
    }
    assert(all.take(n) =~= all);
    cc.run_timers(&mut port.cc);
    port.collect(cc, sds);
}

/// The tasks that the circuit manager has for the slot, once it has started.
/// `unsent` are the receipts of the messages that have not been sent yet.
pub fn run_tasks(
    cc: &mut CcBsSubentity,
    sds: &SdsBsSubentity,
    port: &mut CmcePort,
    tasks: &Vec<CircuitMgrCmd>,
    unsent: &Vec<u64>,
)
    ensures
        final(port).run(*final(cc), *sds) == old(port).run(*old(cc), *sds).tasks(tasks@, unsent@),
{
    cc.run_tasks(&mut port.cc, tasks, unsent);
    port.collect(cc, sds);
}

/// What is handed on because of one message of the central SwMI comes before
/// what is handed on because of a later one, whichever sub-entities take them.
pub proof fn law_messages_keep_the_order_of_actions(
    run: CmceRun,
    registry: RegistryView,
    actions: Seq<SwmiAction>,
    n: int,
)
    requires
        0 <= n <= actions.len(),
    ensures
        run.all_acted(registry, actions.take(n)).handed.is_prefix_of(
            run.all_acted(registry, actions).handed,
        ),
    decreases actions.len(),
{
    if n == actions.len() {
        assert(actions.take(n) =~= actions);
    } else {
        let rest = actions.drop_last();
        assert(rest.take(n) =~= actions.take(n));
        law_messages_keep_the_order_of_actions(run, registry, rest, n);
        let earlier = run.all_acted(registry, actions.take(n)).handed;
        let before = run.all_acted(registry, rest).handed;
        let after = run.all_acted(registry, actions).handed;
        assert(before =~= after.subrange(0, before.len() as int));
        assert(earlier =~= after.subrange(0, earlier.len() as int));
    }
}

/// A message for one sub-entity leaves the other as it is.
pub proof fn law_actions_touch_one_entity(run: CmceRun, registry: RegistryView, action: SwmiAction)
    requires
        run.cc.queue.len() == 0,
        run.sds.queue.len() == 0,
    ensures
        action is Call ==> run.acted(registry, action).sds == run.sds,
        action is ShortData ==> run.acted(registry, action).cc == run.cc,
{
    assert(run.cc.queue =~= Seq::empty());
    assert(run.sds.queue =~= Seq::empty());
}

/// In a timeslot call control knows its time before it takes the messages of the
/// SwMI, and looks at its timers after the last of them, whose outcome is handed on
/// first; timers leave short data alone.
pub proof fn law_timers_run_after_the_messages(
    run: CmceRun,
    registry: RegistryView,
    now: TdmaTime,
    actions: Seq<SwmiAction>,
)
    ensures
        ({
            let started = CmceRun { cc: run.cc.at(now), ..run };
            let acted = started.all_acted(registry, actions);
            let timed = acted.cc.timers();
            let after = run.tick(registry, now, actions);
            &&& started.cc.st.dltime == now && started.cc.queue == run.cc.queue
            &&& after.cc.st == timed.st && after.cc.slots == timed.slots
            &&& after.cc.queue.len() == 0 && after.sds.queue.len() == 0
            &&& after.sds.pending == acted.sds.pending
            &&& acted.handed.is_prefix_of(after.handed)
            &&& forall|i: int|
                0 <= i < timed.queue.len() ==> after.handed[acted.handed.len() + i]
                    == CmceMessageView::Call(#[trigger] timed.queue[i])
            &&& after.handed.len() == acted.handed.len() + timed.queue.len()
                + acted.sds.queue.len()
        }),
{
    let acted = (CmceRun { cc: run.cc.at(now), ..run }).all_acted(registry, actions);
    let after = run.tick(registry, now, actions);
    assert(acted.handed =~= after.handed.subrange(0, acted.handed.len() as int));
}

} // verus!
