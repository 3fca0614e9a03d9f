//! Air-interface encryption as the authenticated SwMI configures it: the SC2 key
//! in use, its rollover to the next one, and who uses it.
use crate::aie::{AieAlgorithm, AieSubject, Sc2KeyIdentifier};
use crate::table::Table;
use vstd::prelude::*;

verus! {

/// The TEA variant selected by the SwMI for SC2.
#[derive(Debug, Clone, Copy, PartialEq, Eq, Structural)]
pub enum RuntimeSc2TeaAlgorithm {
    Tea1,
    Tea3,
}

/// The bytes of a key. They can be used by the key provider but not read out.
#[derive(Clone, Copy)]
pub struct KeyMaterial {
    bytes: [u8; 10],
}

impl View for KeyMaterial {
    type V = Seq<u8>;

    closed spec fn view(&self) -> Seq<u8> {
        self.bytes@
    }
}

impl KeyMaterial {
    /// The key material with these bytes.
    pub closed spec fn holding(bytes: [u8; 10]) -> KeyMaterial {
        KeyMaterial { bytes }
    }

    /// The bytes, for the key provider.
    pub(crate) fn expose(&self) -> (bytes: &[u8; 10])
        ensures
            bytes@ == self@,
    {
        &self.bytes
    }

    /// Whether two keys have the same bytes.
    pub fn same_as(&self, other: &KeyMaterial) -> (r: bool)
        ensures
            r == (*self == *other),
            r == (self@ == other@),
    {
        let mut i: usize = 0;
        while i < 10
            invariant
                i <= 10,
                forall|j: int| 0 <= j < i ==> self.bytes@[j] == other.bytes@[j],
            decreases 10 - i,
        {
            if self.bytes[i] != other.bytes[i] {
                assert(self@[i as int] != other@[i as int]);
                return false;
            }
            i = i + 1;
        }
        assert(self.bytes =~= other.bytes);
        assert(self@ =~= other@);
        true
    }
}

/// The authoritative SC2 key received from the SwMI. It stays in mutable state
/// because it can change while the station runs.
#[derive(Clone, Copy)]
pub struct RuntimeSc2Aie {
    pub algorithm: RuntimeSc2TeaAlgorithm,
    pub sckn: u8,
    pub sck_vn: u16,
    pub key: KeyMaterial,
}

impl RuntimeSc2Aie {
    /// The key number fits its five bits.
    pub open spec fn wf(self) -> bool {
        self.sckn <= 31
    }

    /// The identity of the key.
    pub open spec fn identity(self) -> Sc2KeyIdentifier {
        Sc2KeyIdentifier {
            algorithm: match self.algorithm {
                RuntimeSc2TeaAlgorithm::Tea1 => AieAlgorithm::Tea1,
                RuntimeSc2TeaAlgorithm::Tea3 => AieAlgorithm::Tea3,
            },
            sckn: self.sckn,
            sck_vn: self.sck_vn,
        }
    }

    /// Accepts key material at the authenticated configuration boundary.
    pub fn new(algorithm: RuntimeSc2TeaAlgorithm, sckn: u8, sck_vn: u16, key: [u8; 10]) -> (sc2:
        Self)
        ensures
            sc2.algorithm == algorithm,
            sc2.sckn == sckn,
            sc2.sck_vn == sck_vn,
            sc2.key == KeyMaterial::holding(key),
            sc2.key@ == key@,
    {
        RuntimeSc2Aie { algorithm, sckn, sck_vn, key: KeyMaterial { bytes: key } }
    }

    /// Whether two keys are the same in identity and material.
    pub fn same_as(&self, other: &RuntimeSc2Aie) -> (r: bool)
        ensures
            r == (*self == *other),
    {
        self.algorithm == other.algorithm && self.sckn == other.sckn && self.sck_vn == other.sck_vn
            && self.key.same_as(&other.key)
    }
}

/// Key material holds the bytes that it was made of.
pub proof fn law_key_material_holds_its_bytes(bytes: [u8; 10])
    ensures
        KeyMaterial::holding(bytes)@ == bytes@,
{
}

/// Two keys with the same identity and bytes are the same key.
pub proof fn law_key_is_its_identity_and_bytes(left: RuntimeSc2Aie, right: RuntimeSc2Aie)
    requires
        left.identity() == right.identity(),
        left.key@ == right.key@,
    ensures
        left == right,
{
    assert(left.key.bytes =~= right.key.bytes);
}

/// Key-free SC2 identity bound to a registered terminal or active call. The key
/// itself is never duplicated into subscriber or call state.
#[derive(Debug, Clone, Copy, PartialEq, Eq, Structural)]
pub struct RuntimeSc2Binding {
    pub key: Sc2KeyIdentifier,
}

impl RuntimeSc2Binding {
    /// The binding to a key.
    pub open spec fn of(sc2: RuntimeSc2Aie) -> RuntimeSc2Binding {
        RuntimeSc2Binding { key: sc2.identity() }
    }

    /// The binding to a key whose number fits its five bits.
    pub fn from_sc2(sc2: &RuntimeSc2Aie) -> (binding: Self)
        requires
            sc2.wf(),
        ensures
            binding == RuntimeSc2Binding::of(*sc2),
    {
        let algorithm = match sc2.algorithm {
            RuntimeSc2TeaAlgorithm::Tea1 => AieAlgorithm::Tea1,
            RuntimeSc2TeaAlgorithm::Tea3 => AieAlgorithm::Tea3,
        };
        RuntimeSc2Binding {
            key: Sc2KeyIdentifier { algorithm, sckn: sc2.sckn, sck_vn: sc2.sck_vn },
        }
    }
}

/// The model of the sessions: who is bound to which key.
#[verifier::ext_equal]
pub ghost struct SessionsView {
    pub terminals: Seq<(u32, RuntimeSc2Binding)>,
    pub calls: Seq<(AieSubject, RuntimeSc2Binding)>,
}

/// The call that a subject belongs to.
pub open spec fn subject_call(subject: AieSubject) -> Option<u32> {
    match subject {
        AieSubject::Call { call_id, .. } => Some(call_id),
        _ => None,
    }
}

/// The terminal of a call leg.
pub open spec fn leg_terminal(subject: AieSubject) -> Option<u32> {
    match subject {
        AieSubject::Call { issi, .. } => issi,
        _ => None,
    }
}

/// Whether an entry is bound to `current`.
pub open spec fn bound_to<K>(current: RuntimeSc2Binding) -> spec_fn((K, RuntimeSc2Binding)) -> bool {
    |entry: (K, RuntimeSc2Binding)| entry.1 == current
}

impl SessionsView {
    /// No subject stands twice.
    pub open spec fn wf(self) -> bool {
        &&& crate::table::distinct(self.terminals)
        &&& crate::table::distinct(self.calls)
    }

    /// The binding of a terminal.
    pub open spec fn terminal(self, issi: u32) -> Option<RuntimeSc2Binding> {
        crate::table::lookup(self.terminals, issi)
    }

    /// The binding of a leg of a call.
    pub open spec fn call(self, call_id: u32, subject: AieSubject) -> Option<RuntimeSc2Binding> {
        if subject_call(subject) == Some(call_id) {
            crate::table::lookup(self.calls, subject)
        } else {
            None
        }
    }

    /// With a terminal bound.
    pub open spec fn with_terminal(self, issi: u32, binding: RuntimeSc2Binding) -> SessionsView {
        SessionsView {
            terminals: crate::table::put(self.terminals, issi, binding),
            calls: self.calls,
        }
    }

    /// Without a terminal and its call legs.
    pub open spec fn without_terminal(self, issi: u32) -> SessionsView {
        SessionsView {
            terminals: crate::table::del(self.terminals, issi),
            calls: self.calls.filter(
                |entry: (AieSubject, RuntimeSc2Binding)| leg_terminal(entry.0) != Some(issi),
            ),
        }
    }

    /// With a call leg bound.
    pub open spec fn with_call(self, subject: AieSubject, binding: RuntimeSc2Binding) -> SessionsView {
        SessionsView {
            terminals: self.terminals,
            calls: crate::table::put(self.calls, subject, binding),
        }
    }

    /// Without the legs of a call.
    pub open spec fn without_call(self, call_id: u32) -> SessionsView {
        SessionsView {
            terminals: self.terminals,
            calls: self.calls.filter(
                |entry: (AieSubject, RuntimeSc2Binding)| subject_call(entry.0) != Some(call_id),
            ),
        }
    }

    /// With only those who are bound to `current`.
    pub open spec fn only(self, current: RuntimeSc2Binding) -> SessionsView {
        SessionsView {
            terminals: self.terminals.filter(bound_to::<u32>(current)),
            calls: self.calls.filter(bound_to::<AieSubject>(current)),
        }
    }

    /// With everyone bound to `binding`.
    pub open spec fn rebound(self, binding: RuntimeSc2Binding) -> SessionsView {
        SessionsView {
            terminals: self.terminals.map_values(
                |entry: (u32, RuntimeSc2Binding)| (entry.0, binding),
            ),
            calls: self.calls.map_values(
                |entry: (AieSubject, RuntimeSc2Binding)| (entry.0, binding),
            ),
        }
    }

    /// With no one bound.
    pub open spec fn none() -> SessionsView {
        SessionsView { terminals: Seq::empty(), calls: Seq::empty() }
    }
}

/// Central, key-free SC2 state: the terminals and the call legs that are
/// protected. A call can have several individually protected legs, each kept
/// under its own subject.
#[derive(Debug)]
pub struct RuntimeAieSessions {
    terminals: Table<u32, RuntimeSc2Binding>,
    calls: Table<AieSubject, RuntimeSc2Binding>,
}

impl View for RuntimeAieSessions {
    type V = SessionsView;

    closed spec fn view(&self) -> SessionsView {
        SessionsView { terminals: self.terminals@, calls: self.calls@ }
    }
}

impl Default for RuntimeAieSessions {
    /// No one is bound.
    fn default() -> (sessions: Self)
        ensures
            sessions@ == SessionsView::none(),
            sessions@.wf(),
    {
        RuntimeAieSessions { terminals: Table::new(), calls: Table::new() }
    }
}

impl RuntimeAieSessions {
    /// Binds a terminal to a key.
    pub fn activate_terminal(&mut self, issi: u32, sc2: &RuntimeSc2Aie)
        requires
            sc2.wf(),
        ensures
            final(self)@ == old(self)@.with_terminal(issi, RuntimeSc2Binding::of(*sc2)),
            old(self)@.wf() ==> final(self)@.wf(),
    {
        proof {
            if self@.wf() {
                crate::table::law_put_keeps_distinct(
                    self@.terminals,
                    issi,
                    RuntimeSc2Binding::of(*sc2),
                );
            }
        }
        self.terminals.insert(issi, RuntimeSc2Binding::from_sc2(sc2));
    }

    /// Drops the binding of a terminal and of its call legs.
    pub fn deactivate_terminal(&mut self, issi: u32)
        ensures
            final(self)@ == old(self)@.without_terminal(issi),
            old(self)@.wf() ==> final(self)@.wf(),
    {
        let ghost before = self@;
        let ghost keep = |entry: (AieSubject, RuntimeSc2Binding)|
            leg_terminal(entry.0) != Some(issi);
        self.terminals.remove(issi);
        let mut kept: Vec<(AieSubject, RuntimeSc2Binding)> = Vec::new();
        let mut i: usize = 0;
        proof {
            reveal(Seq::filter);
            assert(before.calls.take(0) =~= Seq::empty());
        }
        while i < self.calls.len()
            invariant
                i <= self.calls@.len(),
                self.calls@ == before.calls,
                self.terminals@ == crate::table::del(before.terminals, issi),
                keep == (|entry: (AieSubject, RuntimeSc2Binding)|
                    leg_terminal(entry.0) != Some(issi)),
                kept@ == before.calls.take(i as int).filter(keep),
            decreases self.calls@.len() - i,
        {
            let entry = self.calls.entry(i);
            proof {
                reveal(Seq::filter);
                assert(before.calls.take(i + 1).drop_last() =~= before.calls.take(i as int));
                assert(before.calls.take(i + 1).last() == before.calls[i as int]);
            }
            let of_terminal: bool = match entry.0 {
                AieSubject::Call { issi: Some(terminal), .. } => terminal == issi,
                _ => false,
            };
            if !of_terminal {
                kept.push(entry);
            }
            i = i + 1;
        }
        assert(before.calls.take(before.calls.len() as int) =~= before.calls);
        self.calls = Table::from_entries(kept);
        proof {
            if before.wf() {
                crate::table::law_del_keeps_distinct(before.terminals, issi);
                crate::table::law_lookup_after_filter(before.calls, keep, AieSubject::System);
            }
        }
    }

    /// The binding of a terminal.
    pub fn terminal(&self, issi: u32) -> (binding: Option<RuntimeSc2Binding>)
        ensures
            binding == self@.terminal(issi),
    {
        self.terminals.get(issi)
    }

    /// Binds a leg of a call to a key.
    pub fn bind_call(&mut self, call_id: u32, subject: AieSubject, sc2: &RuntimeSc2Aie)
        requires
            subject_call(subject) == Some(call_id),
            sc2.wf(),
        ensures
            final(self)@ == old(self)@.with_call(subject, RuntimeSc2Binding::of(*sc2)),
            old(self)@.wf() ==> final(self)@.wf(),
    {
        proof {
            if self@.wf() {
                crate::table::law_put_keeps_distinct(
                    self@.calls,
                    subject,
                    RuntimeSc2Binding::of(*sc2),
                );
            }
        }
        self.calls.insert(subject, RuntimeSc2Binding::from_sc2(sc2));
    }

    /// Drops the bindings of a call.
    pub fn unbind_call(&mut self, call_id: u32)
        ensures
            final(self)@ == old(self)@.without_call(call_id),
            old(self)@.wf() ==> final(self)@.wf(),
    {
        let ghost before = self@;
        let ghost keep = |entry: (AieSubject, RuntimeSc2Binding)|
            subject_call(entry.0) != Some(call_id);
        let mut kept: Vec<(AieSubject, RuntimeSc2Binding)> = Vec::new();
        let mut i: usize = 0;
        proof {
            reveal(Seq::filter);
            assert(before.calls.take(0) =~= Seq::empty());
        }
        while i < self.calls.len()
            invariant
                i <= self.calls@.len(),
                self@ == before,
                self.calls@ == before.calls,
                keep == (|entry: (AieSubject, RuntimeSc2Binding)|
                    subject_call(entry.0) != Some(call_id)),
                kept@ == before.calls.take(i as int).filter(keep),
            decreases self.calls@.len() - i,
        {
            let entry = self.calls.entry(i);
            proof {
                reveal(Seq::filter);
                assert(before.calls.take(i + 1).drop_last() =~= before.calls.take(i as int));
                assert(before.calls.take(i + 1).last() == before.calls[i as int]);
            }
            let of_call: bool = match entry.0 {
                AieSubject::Call { call_id: id, .. } => id == call_id,
                _ => false,
            };
            if !of_call {
                kept.push(entry);
            }
            i = i + 1;
        }
        assert(before.calls.take(before.calls.len() as int) =~= before.calls);
        self.calls = Table::from_entries(kept);
        proof {
            if before.wf() {
                crate::table::law_lookup_after_filter(before.calls, keep, AieSubject::System);
            }
        }
    }

    /// The binding of a leg of a call.
    pub fn call(&self, call_id: u32, subject: AieSubject) -> (binding: Option<RuntimeSc2Binding>)
        ensures
            binding == self@.call(call_id, subject),
    {
        match subject {
            AieSubject::Call { call_id: id, .. } => if id == call_id {
                self.calls.get(subject)
            } else {
                None
            },
            _ => None,
        }
    }

    /// Drops the bindings to a former key. This goes together with the
    /// replacement of the configured key.
    pub fn retain_current_key(&mut self, sc2: Option<&RuntimeSc2Aie>)
        requires
            sc2 is Some ==> sc2->0.wf(),
        ensures
            final(self)@ == match sc2 {
                Some(key) => old(self)@.only(RuntimeSc2Binding::of(*key)),
                None => SessionsView::none(),
            },
            old(self)@.wf() ==> final(self)@.wf(),
    {
        let current: RuntimeSc2Binding = match sc2 {
            Some(key) => RuntimeSc2Binding::from_sc2(key),
            None => {
                self.terminals.clear();
                self.calls.clear();
                return;
            },
        };
        let ghost before = self@;
        let ghost keep_terminal = bound_to::<u32>(current);
        let ghost keep_call = bound_to::<AieSubject>(current);
        let mut terminals: Vec<(u32, RuntimeSc2Binding)> = Vec::new();
        let mut calls: Vec<(AieSubject, RuntimeSc2Binding)> = Vec::new();
        let mut i: usize = 0;
        proof {
            reveal(Seq::filter);
            assert(before.terminals.take(0) =~= Seq::empty());
            assert(before.calls.take(0) =~= Seq::empty());
        }
        while i < self.terminals.len()
            invariant
                i <= self.terminals@.len(),
                self@ == before,
                self.terminals@ == before.terminals,
                keep_terminal == bound_to::<u32>(current),
                terminals@ == before.terminals.take(i as int).filter(keep_terminal),
            decreases self.terminals@.len() - i,
        {
            let entry = self.terminals.entry(i);
            proof {
                reveal(Seq::filter);
                assert(before.terminals.take(i + 1).drop_last() =~= before.terminals.take(
                    i as int,
                ));
                assert(before.terminals.take(i + 1).last() == before.terminals[i as int]);
            }
            if entry.1 == current {
                terminals.push(entry);
            }
            i = i + 1;
        }
        assert(before.terminals.take(before.terminals.len() as int) =~= before.terminals);
        let mut n: usize = 0;
        while n < self.calls.len()
            invariant
                n <= self.calls@.len(),
                self@ == before,
                self.calls@ == before.calls,
                keep_call == bound_to::<AieSubject>(current),
                calls@ == before.calls.take(n as int).filter(keep_call),
            decreases self.calls@.len() - n,
        {
            let entry = self.calls.entry(n);
            proof {
                reveal(Seq::filter);
                assert(before.calls.take(n + 1).drop_last() =~= before.calls.take(n as int));
                assert(before.calls.take(n + 1).last() == before.calls[n as int]);
            }
            if entry.1 == current {
                calls.push(entry);
            }
            n = n + 1;
        }
        assert(before.calls.take(before.calls.len() as int) =~= before.calls);
        self.terminals = Table::from_entries(terminals);
        self.calls = Table::from_entries(calls);
        proof {
            if before.wf() {
                crate::table::law_lookup_after_filter(before.terminals, keep_terminal, 0u32);
                crate::table::law_lookup_after_filter(before.calls, keep_call, AieSubject::System);
            }
        }
    }

    /// Moves all terminals and call legs to another key, without discarding
    /// registrations or calls.
    pub fn rebind_all_to(&mut self, sc2: &RuntimeSc2Aie)
        requires
            sc2.wf(),
        ensures
            final(self)@ == old(self)@.rebound(RuntimeSc2Binding::of(*sc2)),
            old(self)@.wf() ==> final(self)@.wf(),
    {
        let binding: RuntimeSc2Binding = RuntimeSc2Binding::from_sc2(sc2);
        let ghost before = self@;
        let mut terminals: Vec<(u32, RuntimeSc2Binding)> = Vec::new();
        let mut calls: Vec<(AieSubject, RuntimeSc2Binding)> = Vec::new();
        let mut i: usize = 0;
        while i < self.terminals.len()
            invariant
                i <= self.terminals@.len(),
                self@ == before,
                terminals@ == before.rebound(binding).terminals.take(i as int),
            decreases self.terminals@.len() - i,
        {
            let (issi, _) = self.terminals.entry(i);
            terminals.push((issi, binding));
            i = i + 1;
            assert(terminals@ =~= before.rebound(binding).terminals.take(i as int));
        }
        assert(terminals@ =~= before.rebound(binding).terminals);
        let mut n: usize = 0;
        while n < self.calls.len()
            invariant
                n <= self.calls@.len(),
                self@ == before,
                calls@ == before.rebound(binding).calls.take(n as int),
            decreases self.calls@.len() - n,
        {
            let (subject, _) = self.calls.entry(n);
            calls.push((subject, binding));
            n = n + 1;
            assert(calls@ =~= before.rebound(binding).calls.take(n as int));
        }
        assert(calls@ =~= before.rebound(binding).calls);
        self.terminals = Table::from_entries(terminals);
        self.calls = Table::from_entries(calls);
        proof {
            if before.wf() {
                crate::table::law_lookup_after_fill(before.terminals, binding, 0u32);
                crate::table::law_lookup_after_fill(before.calls, binding, AieSubject::System);
            }
        }
    }
}

/// A cutover keeps every terminal and every call leg, bound to the new key.
pub proof fn law_cutover_keeps_everyone(
    sessions: SessionsView,
    binding: RuntimeSc2Binding,
    issi: u32,
    call_id: u32,
    subject: AieSubject,
)
    ensures
        sessions.rebound(binding).terminal(issi) == if sessions.terminal(issi) is Some {
            Some(binding)
        } else {
            None
        },
        sessions.rebound(binding).call(call_id, subject) == if sessions.call(
            call_id,
            subject,
        ) is Some {
            Some(binding)
        } else {
            None
        },
{
    crate::table::law_lookup_after_fill(sessions.terminals, binding, issi);
    crate::table::law_lookup_after_fill(sessions.calls, binding, subject);
}

/// After a change of key exactly those are left who were bound to the new one.
pub proof fn law_former_keys_are_dropped(
    sessions: SessionsView,
    current: RuntimeSc2Binding,
    issi: u32,
    call_id: u32,
    subject: AieSubject,
)
    requires
        sessions.wf(),
    ensures
        sessions.only(current).terminal(issi) == if sessions.terminal(issi) == Some(current) {
            Some(current)
        } else {
            None
        },
        sessions.only(current).call(call_id, subject) == if sessions.call(call_id, subject) == Some(
            current,
        ) {
            Some(current)
        } else {
            None
        },
        SessionsView::none().terminal(issi) is None,
        SessionsView::none().call(call_id, subject) is None,
{
    crate::table::law_lookup_after_filter(
        sessions.terminals,
        bound_to::<u32>(current),
        issi,
    );
    crate::table::law_lookup_after_filter(
        sessions.calls,
        bound_to::<AieSubject>(current),
        subject,
    );
}

/// A call leg keeps its binding when another leg is bound.
pub proof fn law_each_leg_keeps_its_binding(
    sessions: SessionsView,
    bound: AieSubject,
    binding: RuntimeSc2Binding,
    call_id: u32,
    subject: AieSubject,
)
    requires
        subject_call(subject) == Some(call_id),
    ensures
        sessions.with_call(bound, binding).call(call_id, subject) == if subject == bound {
            Some(binding)
        } else {
            sessions.call(call_id, subject)
        },
{
    crate::table::law_lookup_after_put(sessions.calls, bound, binding, subject);
}

/// A terminal that leaves takes its own call legs with it, and no one else's.
pub proof fn law_leaving_terminal(
    sessions: SessionsView,
    leaving: u32,
    issi: u32,
    call_id: u32,
    subject: AieSubject,
)
    ensures
        sessions.without_terminal(leaving).terminal(issi) == if issi == leaving {
            None
        } else {
            sessions.terminal(issi)
        },
        sessions.without_terminal(leaving).call(call_id, subject) == if leg_terminal(subject)
            == Some(leaving) {
            None
        } else {
            sessions.call(call_id, subject)
        },
{
    crate::table::law_lookup_after_del(sessions.terminals, leaving, issi);
    crate::table::law_lookup_after_key_filter(
        sessions.calls,
        |entry: (AieSubject, RuntimeSc2Binding)| leg_terminal(entry.0) != Some(leaving),
        subject,
    );
}

/// A call that ends takes all its legs with it, and no other call's.
pub proof fn law_ending_call(
    sessions: SessionsView,
    ending: u32,
    call_id: u32,
    subject: AieSubject,
)
    ensures
        sessions.without_call(ending).call(call_id, subject) == if call_id == ending {
            None
        } else {
            sessions.call(call_id, subject)
        },
{
    crate::table::law_lookup_after_key_filter(
        sessions.calls,
        |entry: (AieSubject, RuntimeSc2Binding)| subject_call(entry.0) != Some(ending),
        subject,
    );
}

} // verus!
