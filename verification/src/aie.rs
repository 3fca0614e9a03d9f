//! Key-free air-interface encryption context carried between stack layers.
//!
//! An [`AieContext`] identifies what must be protected and at which exact
//! air-interface time. It holds no key bytes and is safe to carry in primitives
//! and diagnostic metadata.
use crate::table::Key;
use crate::tdma::TdmaTime;
use vstd::prelude::*;

verus! {

/// A direction on the air.
#[derive(Debug, Clone, Copy, PartialEq, Eq, Structural)]
pub enum AieDirection {
    Uplink,
    Downlink,
}

/// A key stream generator.
#[derive(Debug, Clone, Copy, PartialEq, Eq, Structural)]
pub enum AieAlgorithm {
    Tea1,
    Tea3,
}

/// The identity of an SC2 key.
#[derive(Debug, Clone, Copy, PartialEq, Eq, Structural)]
pub struct Sc2KeyIdentifier {
    pub algorithm: AieAlgorithm,
    pub sckn: u8,
    pub sck_vn: u16,
}

impl Sc2KeyIdentifier {
    /// The identity with this five-bit key number; none where it does not fit.
    pub fn new(algorithm: AieAlgorithm, sckn: u8, sck_vn: u16) -> (key: Option<Self>)
        ensures
            key == if sckn > 31 {
                None
            } else {
                Some(Sc2KeyIdentifier { algorithm, sckn, sck_vn })
            },
    {
        if sckn > 31 {
            return None;
        }
        Some(Sc2KeyIdentifier { algorithm, sckn, sck_vn })
    }
}

/// Stable identity of the air-interface peer or circuit. A group or call does
/// not imply end-to-end encryption; it only identifies the SC2 context to be
/// selected.
#[derive(Debug, Clone, Copy, PartialEq, Eq, Structural)]
pub enum AieSubject {
    /// Cell-wide broadcast and control signalling that is not bound to a
    /// terminal or call.
    System,
    Individual { issi: u32 },
    Group { gssi: u32 },
    Call { call_id: u32, issi: Option<u32>, gssi: Option<u32> },
}

impl Key for AieSubject {
    fn same(&self, other: &Self) -> (r: bool) {
        *self == *other
    }
}

/// The kind of PDU that is protected.
#[derive(Debug, Clone, Copy, PartialEq, Eq, Structural)]
pub enum AieScope {
    MacResource,
    MacData,
    MacFragment,
    BasicLink,
    Facch,
    Traffic,
}

/// Contiguous bit range covered by encryption. Clear header and fill bits lie
/// outside it.
#[derive(Debug, Clone, Copy, PartialEq, Eq, Structural)]
pub struct AieCipherRegion {
    pub start: usize,
    pub len: usize,
}

impl AieCipherRegion {
    /// The range of `len` bits from `start`.
    pub fn new(start: usize, len: usize) -> (region: Self)
        ensures
            region == (AieCipherRegion { start, len }),
    {
        AieCipherRegion { start, len }
    }
}

/// Policy request from an upper layer. It has no TDMA time: the MAC binds it
/// only when the actual slot is known.
#[derive(Debug, Clone, Copy, PartialEq, Eq, Structural)]
pub enum AieRequest {
    Clear { subject: AieSubject, scope: AieScope },
    Sc2 { subject: AieSubject, scope: AieScope },
}

impl AieRequest {
    /// What the request is about.
    pub open spec fn subject(self) -> AieSubject {
        match self {
            AieRequest::Clear { subject, scope } => subject,
            AieRequest::Sc2 { subject, scope } => subject,
        }
    }

    /// The kind of PDU that the request is for.
    pub open spec fn scope(self) -> AieScope {
        match self {
            AieRequest::Clear { subject, scope } => scope,
            AieRequest::Sc2 { subject, scope } => scope,
        }
    }

    /// Whether two requests require the same protection on the air. All clear
    /// requests do; protected ones do where their subject is the same.
    pub open spec fn protects_like(self, other: AieRequest) -> bool {
        match (self, other) {
            (AieRequest::Clear { .. }, AieRequest::Clear { .. }) => true,
            (AieRequest::Sc2 { .. }, AieRequest::Sc2 { .. }) => self.subject() == other.subject(),
            _ => false,
        }
    }

    /// A request for no protection.
    pub fn clear(subject: AieSubject, scope: AieScope) -> (request: Self)
        ensures
            request == (AieRequest::Clear { subject, scope }),
    {
        AieRequest::Clear { subject, scope }
    }

    /// A request for SC2 protection.
    pub fn sc2(subject: AieSubject, scope: AieScope) -> (request: Self)
        ensures
            request == (AieRequest::Sc2 { subject, scope }),
    {
        AieRequest::Sc2 { subject, scope }
    }

    /// The same policy and subject for another kind of PDU.
    pub fn with_scope(self, scope: AieScope) -> (request: Self)
        ensures
            request.scope() == scope,
            request.subject() == self.subject(),
            request is Sc2 <==> self is Sc2,
    {
        match self {
            AieRequest::Clear { subject, .. } => AieRequest::clear(subject, scope),
            AieRequest::Sc2 { subject, .. } => AieRequest::sc2(subject, scope),
        }
    }

    /// Whether the request is for protection.
    pub fn is_encrypted(self) -> (r: bool)
        ensures
            r == (self is Sc2),
    {
        match self {
            AieRequest::Sc2 { .. } => true,
            AieRequest::Clear { .. } => false,
        }
    }

    /// Whether two requests require the same protection on the air, whatever
    /// the kind of PDU.
    pub fn same_protection_as(self, other: Self) -> (r: bool)
        ensures
            r == self.protects_like(other),
    {
        match (self, other) {
            (AieRequest::Clear { .. }, AieRequest::Clear { .. }) => true,
            (
                AieRequest::Sc2 { subject: left, .. },
                AieRequest::Sc2 { subject: right, .. },
            ) => left == right,
            _ => false,
        }
    }
}

/// Requiring the same protection is an equivalence that does not depend on the
/// kind of PDU.
pub proof fn law_same_protection(a: AieRequest, b: AieRequest, c: AieRequest)
    ensures
        a.protects_like(a),
        a.protects_like(b) == b.protects_like(a),
        a.protects_like(b) && b.protects_like(c) ==> a.protects_like(c),
        a.subject() == b.subject() && (a is Sc2 <==> b is Sc2) ==> a.protects_like(b),
        a is Clear && b is Clear ==> a.protects_like(b),
        a.protects_like(b) ==> (a is Sc2 <==> b is Sc2),
        a is Sc2 && a.protects_like(b) ==> a.subject() == b.subject(),
{
}

/// Fully bound context for one direction and one exact TDMA slot.
#[derive(Debug, Clone, Copy, PartialEq, Eq, Structural)]
pub enum AieContext {
    Clear { subject: AieSubject, direction: AieDirection, time: TdmaTime, scope: AieScope },
    Sc2 {
        subject: AieSubject,
        direction: AieDirection,
        time: TdmaTime,
        scope: AieScope,
        key: Sc2KeyIdentifier,
    },
}

impl AieContext {
    /// Clear cell-wide signalling.
    pub fn system_clear(direction: AieDirection, time: TdmaTime, scope: AieScope) -> (context: Self)
        ensures
            context == (AieContext::Clear { subject: AieSubject::System, direction, time, scope }),
    {
        AieContext::clear(AieSubject::System, direction, time, scope)
    }

    /// A context without protection.
    pub fn clear(
        subject: AieSubject,
        direction: AieDirection,
        time: TdmaTime,
        scope: AieScope,
    ) -> (context: Self)
        ensures
            context == (AieContext::Clear { subject, direction, time, scope }),
    {
        AieContext::Clear { subject, direction, time, scope }
    }

    /// A context with SC2 protection.
    pub fn sc2(
        subject: AieSubject,
        direction: AieDirection,
        time: TdmaTime,
        scope: AieScope,
        key: Sc2KeyIdentifier,
    ) -> (context: Self)
        ensures
            context == (AieContext::Sc2 { subject, direction, time, scope, key }),
    {
        AieContext::Sc2 { subject, direction, time, scope, key }
    }

    /// Whether the context is one with protection.
    pub fn is_encrypted(self) -> (r: bool)
        ensures
            r == (self is Sc2),
    {
        match self {
            AieContext::Sc2 { .. } => true,
            AieContext::Clear { .. } => false,
        }
    }

    /// The slot of the context.
    pub fn time(self) -> (slot: TdmaTime)
        ensures
            slot == match self {
                AieContext::Clear { time, .. } => time,
                AieContext::Sc2 { time, .. } => time,
            },
    {
        match self {
            AieContext::Clear { time, .. } => time,
            AieContext::Sc2 { time, .. } => time,
        }
    }
}

/// Mobility management PDUs of the bootstrap stay clear. This is policy, never
/// an implicit fallback.
pub fn clear_mm_request(issi: u32) -> (request: AieRequest)
    ensures
        request == (AieRequest::Clear {
            subject: AieSubject::Individual { issi },
            scope: AieScope::BasicLink,
        }),
{
    AieRequest::clear(AieSubject::Individual { issi }, AieScope::BasicLink)
}

/// A key-free request for a protected individual MAC resource. The MAC supplies
/// direction and time.
pub fn sc2_resource_request(issi: u32) -> (request: AieRequest)
    ensures
        request == (AieRequest::Sc2 {
            subject: AieSubject::Individual { issi },
            scope: AieScope::MacResource,
        }),
{
    AieRequest::sc2(AieSubject::Individual { issi }, AieScope::MacResource)
}

} // verus!
