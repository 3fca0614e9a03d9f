//! The station's SC2 context and key provider: the one place that uses key
//! material after the configuration boundary.
use crate::aie::{AieContext, AieDirection, AieRequest, AieScope, AieSubject};
use crate::bitbuffer::BitBuffer;
use crate::bluestation::aie_state::{RuntimeSc2Aie, RuntimeSc2Binding, RuntimeSc2TeaAlgorithm};
use crate::bluestation::rollover::{active_sc2, AieContextError};
use crate::bluestation::state::{SharedConfig, StackState};
use crate::crypto::taa1::{ta61, ta61_inverse, tb5, IdentityBox};
use crate::crypto::tea1::tea1;
use crate::crypto::tea3::tea3;
use crate::crypto::FrameNumbers;
use crate::tdma::TdmaTime;
use vstd::arithmetic::div_mod::*;
use vstd::prelude::*;

verus! {

/// The three octets of a short identity.
pub open spec fn ssi_octets(ssi: u32) -> (u8, u8, u8) {
    ((ssi / 65536) as u8, (ssi / 256 % 256) as u8, (ssi % 256) as u8)
}

/// The short identity of three octets.
pub open spec fn octets_ssi(octets: (u8, u8, u8)) -> u32 {
    (octets.0 * 65536 + octets.1 * 256 + octets.2) as u32
}

fn to_octets(ssi: u32) -> (octets: [u8; 3])
    requires
        ssi <= 0x00ff_ffff,
    ensures
        (octets@[0], octets@[1], octets@[2]) == ssi_octets(ssi),
{
    [(ssi / 65536) as u8, (ssi / 256 % 256) as u8, (ssi % 256) as u8]
}

fn from_octets(octets: &[u8; 3]) -> (ssi: u32)
    ensures
        ssi == octets_ssi((octets@[0], octets@[1], octets@[2])),
        ssi <= 0x00ff_ffff,
{
    octets[0] as u32 * 65536 + octets[1] as u32 * 256 + octets[2] as u32
}

/// The numbers of a slot and a direction.
pub open spec fn slot_numbers(time: TdmaTime, direction: AieDirection) -> FrameNumbers {
    FrameNumbers {
        timeslot: time.t,
        frame: time.f,
        multiframe: time.m,
        hyperframe: time.h,
        uplink: direction == AieDirection::Uplink,
    }
}

/// The context of an individual uplink.
pub open spec fn uplink_context(issi: u32, time: TdmaTime, scope: AieScope, key: RuntimeSc2Aie) -> AieContext {
    AieContext::Sc2 {
        subject: AieSubject::Individual { issi },
        direction: AieDirection::Uplink,
        time,
        scope,
        key: key.identity(),
    }
}

impl SharedConfig {
    /// The cell's carrier, location area and colour code fit the fields that
    /// enter a key.
    pub open spec fn cell_is_keyable(self) -> bool {
        self.cfg.cell.main_carrier <= 0x0fff && self.cfg.cell.location_area <= 0x3fff
            && self.cfg.cell.colour_code <= 0x3f
    }

    /// Bit `index` of the key stream of a key, a slot and a direction in this
    /// cell.
    pub open spec fn stream_bit(
        self,
        key: RuntimeSc2Aie,
        time: TdmaTime,
        direction: AieDirection,
        index: int,
    ) -> bool {
        let eck = crate::crypto::taa1::xored(
            key.key@,
            crate::crypto::taa1::cell_mask(
                self.cfg.cell.main_carrier,
                self.cfg.cell.location_area,
                self.cfg.cell.colour_code,
            ),
        );
        let iv = slot_numbers(time, direction).packed() as u32;
        let byte = match key.algorithm {
            RuntimeSc2TeaAlgorithm::Tea1 => crate::crypto::tea1::key_stream(iv, eck, index / 8),
            RuntimeSc2TeaAlgorithm::Tea3 => crate::crypto::tea3::key_stream(iv, eck, index / 8),
        };
        crate::bitbuffer::bit_of(byte, index % 8)
    }

    /// The key stream of a key, a slot and a direction from `offset` on.
    pub open spec fn stream(
        self,
        key: RuntimeSc2Aie,
        time: TdmaTime,
        direction: AieDirection,
        offset: int,
    ) -> spec_fn(int) -> bool {
        |i: int| self.stream_bit(key, time, direction, offset + i)
    }

    /// The key of a context, if the context agrees with the state.
    pub open spec fn context_key(self, context: AieContext, expected: AieDirection) -> Result<
        RuntimeSc2Aie,
        AieContextError,
    > {
        match context {
            AieContext::Clear { .. } => Err(AieContextError::InvalidContext),
            AieContext::Sc2 { subject, direction, time, scope, key } => if direction != expected {
                Err(AieContextError::InvalidContext)
            } else {
                match self.state.aie.air_key(expected, time) {
                    Err(error) => Err(error),
                    Ok(sc2) => if sc2.identity() != key {
                        Err(AieContextError::StaleKeyIdentity)
                    } else {
                        match self.state.subject_fault(subject) {
                            Some(error) => Err(error),
                            None => Ok(sc2),
                        }
                    },
                }
            },
        }
    }

    /// What is wrong with ciphering `len` bits with a key stream from
    /// `kss_offset` on, if anything is.
    pub open spec fn stream_fault(self, kss_offset: int) -> Option<AieContextError> {
        if !self.cell_is_keyable() || kss_offset % 8 != 0 {
            Some(AieContextError::CryptoInput)
        } else {
            None
        }
    }

    /// The outcome of ciphering a region of a block with a key.
    pub open spec fn ciphered(
        self,
        key: RuntimeSc2Aie,
        time: TdmaTime,
        direction: AieDirection,
        block: crate::bitbuffer::BitsView,
        start: int,
        len: int,
        kss_offset: int,
    ) -> (Result<(), AieContextError>, crate::bitbuffer::BitsView) {
        if len == 0 {
            (Ok(()), block)
        } else if self.stream_fault(kss_offset) is Some {
            (Err(self.stream_fault(kss_offset)->0), block)
        } else if start + len > block.bits.len() {
            (
                Err(AieContextError::InvalidContext),
                crate::bitbuffer::BitsView { bits: block.bits, pos: start },
            )
        } else {
            (
                Ok(()),
                crate::bitbuffer::BitsView {
                    bits: block.masked(start, len, self.stream(key, time, direction, kss_offset)),
                    pos: block.pos,
                },
            )
        }
    }

    /// The outcome of ciphering a region of a block in a context.
    pub open spec fn ciphered_in(
        self,
        context: AieContext,
        direction: AieDirection,
        block: crate::bitbuffer::BitsView,
        start: int,
        len: int,
        kss_offset: int,
    ) -> (Result<(), AieContextError>, crate::bitbuffer::BitsView) {
        if len == 0 {
            (Ok(()), block)
        } else {
            match self.context_key(context, direction) {
                Err(error) => (Err(error), block),
                Ok(key) => self.ciphered(
                    key,
                    context->Sc2_time,
                    direction,
                    block,
                    start,
                    len,
                    kss_offset,
                ),
            }
        }
    }

    /// The outcome of deciphering a region of an uplink block whose sender is not
    /// known yet.
    pub open spec fn unbound(
        self,
        time: TdmaTime,
        block: crate::bitbuffer::BitsView,
        start: int,
        len: int,
    ) -> (Result<(), AieContextError>, crate::bitbuffer::BitsView) {
        match self.state.aie.air_key(AieDirection::Uplink, time) {
            Err(error) => (Err(error), block),
            Ok(key) => self.ciphered(key, time, AieDirection::Uplink, block, start, len, 0),
        }
    }

    /// The outcome of deciphering soft decisions of the uplink in a context.
    pub open spec fn ciphered_soft(
        self,
        context: AieContext,
        soft: Seq<i8>,
        kss_offset: int,
    ) -> (Result<(), AieContextError>, Seq<i8>) {
        if soft.len() == 0 {
            (Ok(()), soft)
        } else {
            match self.context_key(context, AieDirection::Uplink) {
                Err(error) => (Err(error), soft),
                Ok(key) => if self.stream_fault(kss_offset) is Some {
                    (Err(self.stream_fault(kss_offset)->0), soft)
                } else {
                    let stream = self.stream(
                        key,
                        context->Sc2_time,
                        AieDirection::Uplink,
                        kss_offset,
                    );
                    (
                        Ok(()),
                        soft.map(
                            |i: int, bit: i8|
                                if stream(i) {
                                    negated(bit)
                                } else {
                                    bit
                                },
                        ),
                    )
                },
            }
        }
    }

    /// What a request becomes in a direction and a slot.
    pub open spec fn resolved(self, request: AieRequest, direction: AieDirection, time: TdmaTime) -> Result<
        AieContext,
        AieContextError,
    > {
        match request {
            AieRequest::Clear { subject, scope } => Ok(
                AieContext::Clear { subject, direction, time, scope },
            ),
            AieRequest::Sc2 { subject, scope } => match self.state.aie.air_key(direction, time) {
                Err(error) => Err(error),
                Ok(key) => match self.state.subject_fault(subject) {
                    Some(error) => Err(error),
                    None => Ok(
                        AieContext::Sc2 { subject, direction, time, scope, key: key.identity() },
                    ),
                },
            },
        }
    }

    /// Whether `r` may be the encrypted form of an identity in a context.
    pub open spec fn encrypts<F: Fn([u8; 16], [u8; 8]) -> [u8; 8]>(
        self,
        context: AieContext,
        ssi: u32,
        identities: &IdentityBox,
        hurdle: F,
        r: Result<u32, AieContextError>,
    ) -> bool {
        match self.context_key(context, AieDirection::Downlink) {
            Err(error) => r == Err::<u32, AieContextError>(error),
            Ok(key) => if ssi > 0x00ff_ffff {
                r == Err::<u32, AieContextError>(AieContextError::InvalidContext)
            } else {
                exists|esi: (u8, u8, u8)| #[trigger]
                    crate::crypto::taa1::is_identity_encrypted(
                        identities,
                        hurdle,
                        key.key@,
                        ssi_octets(ssi),
                        esi,
                    ) && r == Ok::<u32, AieContextError>(octets_ssi(esi))
            },
        }
    }

    /// Whether `r` may be what an encrypted identity of an uplink is resolved to.
    pub open spec fn resolves<F: Fn([u8; 16], [u8; 8]) -> [u8; 8]>(
        self,
        esi: u32,
        time: TdmaTime,
        scope: AieScope,
        identities: &IdentityBox,
        hurdle: F,
        r: Result<(u32, AieContext), AieContextError>,
    ) -> bool {
        if esi > 0x00ff_ffff {
            r == Err::<(u32, AieContext), AieContextError>(AieContextError::InvalidContext)
        } else {
            match self.state.aie.air_key(AieDirection::Uplink, time) {
                Err(error) => r == Err::<(u32, AieContext), AieContextError>(error),
                Ok(key) => exists|issi: (u8, u8, u8)| #[trigger]
                    crate::crypto::taa1::is_identity_decrypted(
                        identities,
                        hurdle,
                        key.key@,
                        ssi_octets(esi),
                        issi,
                    ) && r == self.uplink_of(octets_ssi(issi), time, scope),
            }
        }
    }

    /// Whether `r` and `sessions` may be what comes of binding an encrypted
    /// identity of an uplink.
    pub open spec fn binds<F: Fn([u8; 16], [u8; 8]) -> [u8; 8]>(
        self,
        esi: u32,
        time: TdmaTime,
        scope: AieScope,
        identities: &IdentityBox,
        hurdle: F,
        sessions: crate::bluestation::aie_state::SessionsView,
        r: Result<(u32, AieContext), AieContextError>,
    ) -> bool {
        if esi > 0x00ff_ffff {
            &&& r == Err::<(u32, AieContext), AieContextError>(AieContextError::InvalidContext)
            &&& sessions == self.state.aie_sessions@
        } else {
            match self.state.aie.air_key(AieDirection::Uplink, time) {
                Err(error) => {
                    &&& r == Err::<(u32, AieContext), AieContextError>(error)
                    &&& sessions == self.state.aie_sessions@
                },
                Ok(key) => exists|octets: (u8, u8, u8)|
                    {
                        let issi = octets_ssi(octets);
                        &&& #[trigger] crate::crypto::taa1::is_identity_decrypted(
                            identities,
                            hurdle,
                            key.key@,
                            ssi_octets(esi),
                            octets,
                        )
                        &&& r == Ok::<(u32, AieContext), AieContextError>(
                            (issi, uplink_context(issi, time, scope, key)),
                        )
                        &&& sessions == self.state.aie_sessions@.with_terminal(
                            issi,
                            RuntimeSc2Binding::of(key),
                        )
                    },
            }
        }
    }

    /// What an uplink of a terminal becomes.
    pub open spec fn uplink_of(self, issi: u32, time: TdmaTime, scope: AieScope) -> Result<
        (u32, AieContext),
        AieContextError,
    > {
        match self.state.aie.air_key(AieDirection::Uplink, time) {
            Err(error) => Err(error),
            Ok(key) => if self.state.aie_sessions@.terminal(issi) is Some {
                Ok((issi, uplink_context(issi, time, scope, key)))
            } else {
                Err(AieContextError::SubjectNotProvisioned)
            },
        }
    }
}

/// The binding of a subject to the key of a slot. Session state authorizes the
/// subject; the identity follows the slot, because the cutover downlink is built
/// before the sessions move to the new key.
pub fn binding_for_subject(state: &StackState, subject: AieSubject, sc2: &RuntimeSc2Aie) -> (r:
    Result<RuntimeSc2Binding, AieContextError>)
    requires
        sc2.wf(),
    ensures
        r == match state.subject_fault(subject) {
            Some(error) => Err(error),
            None => Ok::<RuntimeSc2Binding, AieContextError>(RuntimeSc2Binding::of(*sc2)),
        },
{
    match subject {
        AieSubject::Individual { issi } => if state.aie_sessions.terminal(issi).is_some() {
            Ok(RuntimeSc2Binding::from_sc2(sc2))
        } else {
            Err(AieContextError::SubjectNotProvisioned)
        },
        AieSubject::Call { call_id, .. } => if state.aie_sessions.call(call_id, subject).is_some() {
            Ok(RuntimeSc2Binding::from_sc2(sc2))
        } else {
            Err(AieContextError::SubjectNotProvisioned)
        },
        AieSubject::Group { .. } => Ok(RuntimeSc2Binding::from_sc2(sc2)),
        AieSubject::System => Err(AieContextError::UnsupportedSubject),
    }
}

/// Central SC2 provider. The identity cipher, with its substitution and its
/// block function, is handed to the functions that use it.
pub struct BsAieKeyProvider {
    pub config: SharedConfig,
}

impl BsAieKeyProvider {
    /// The provider of a configuration and its state.
    pub fn new(config: SharedConfig) -> (provider: Self)
        ensures
            provider.config == config,
    {
        BsAieKeyProvider { config }
    }

    /// Binds a key-free policy to direction and exact TDMA time.
    pub fn resolve(&self, request: AieRequest, direction: AieDirection, time: TdmaTime) -> (r:
        Result<AieContext, AieContextError>)
        requires
            self.config.state.aie.wf(),
        ensures
            r == self.config.resolved(request, direction, time),
    {
        match request {
            AieRequest::Clear { subject, scope } => Ok(
                AieContext::clear(subject, direction, time, scope),
            ),
            AieRequest::Sc2 { subject, scope } => {
                let state = self.config.state_read();
                let sc2: RuntimeSc2Aie = match state.aie.sc2_for_air_time(direction, time) {
                    Ok(key) => key,
                    Err(error) => return Err(error),
                };
                match binding_for_subject(state, subject, &sc2) {
                    Ok(binding) => Ok(
                        AieContext::sc2(subject, direction, time, scope, binding.key),
                    ),
                    Err(error) => Err(error),
                }
            },
        }
    }

    /// Transforms a short identity into its encrypted form for a protected MAC
    /// resource.
    pub fn encrypted_short_identity<F: Fn([u8; 16], [u8; 8]) -> [u8; 8]>(
        &self,
        context: AieContext,
        ssi: u32,
        identities: &IdentityBox,
        hurdle: F,
    ) -> (r: Result<u32, AieContextError>)
        requires
            self.config.state.aie.wf(),
            forall|k: [u8; 16], block: [u8; 8]| call_requires(hurdle, (k, block)),
        ensures
            self.config.encrypts(context, ssi, identities, hurdle, r),
    {
        let sc2: RuntimeSc2Aie = match self.current_sc2_for_context(
            context,
            AieDirection::Downlink,
        ) {
            Ok((_, key)) => key,
            Err(error) => return Err(error),
        };
        if ssi > 0x00ff_ffff {
            return Err(AieContextError::InvalidContext);
        }
        let esi: [u8; 3] = ta61(identities, hurdle, sc2.key.expose(), &to_octets(ssi));
        Ok(from_octets(&esi))
    }

    /// The terminal and the context of an uplink whose identity has been
    /// decrypted.
    pub fn resolve_uplink_identity(&self, issi: u32, time: TdmaTime, scope: AieScope) -> (r: Result<
        (u32, AieContext),
        AieContextError,
    >)
        requires
            self.config.state.aie.wf(),
        ensures
            r == self.config.uplink_of(issi, time, scope),
    {
        let state = self.config.state_read();
        let sc2: RuntimeSc2Aie = match state.aie.sc2_for_air_time(AieDirection::Uplink, time) {
            Ok(key) => key,
            Err(error) => return Err(error),
        };
        if state.aie_sessions.terminal(issi).is_some() {
            let key = RuntimeSc2Binding::from_sc2(&sc2).key;
            return Ok(
                (
                    issi,
                    AieContext::sc2(
                        AieSubject::Individual { issi },
                        AieDirection::Uplink,
                        time,
                        scope,
                        key,
                    ),
                ),
            );
        }
        Err(AieContextError::SubjectNotProvisioned)
    }

    /// Resolves the encrypted identity of an uplink to its terminal and active
    /// session. The identity is decrypted directly rather than searched for
    /// among registered terminals.
    pub fn resolve_uplink_esi<F: Fn([u8; 16], [u8; 8]) -> [u8; 8]>(
        &self,
        esi: u32,
        time: TdmaTime,
        scope: AieScope,
        identities: &IdentityBox,
        hurdle: F,
    ) -> (r: Result<(u32, AieContext), AieContextError>)
        requires
            self.config.state.aie.wf(),
            forall|k: [u8; 16], block: [u8; 8]| call_requires(hurdle, (k, block)),
        ensures
            self.config.resolves(esi, time, scope, identities, hurdle, r),
    {
        if esi > 0x00ff_ffff {
            return Err(AieContextError::InvalidContext);
        }
        let state = self.config.state_read();
        let sc2: RuntimeSc2Aie = match state.aie.sc2_for_air_time(AieDirection::Uplink, time) {
            Ok(key) => key,
            Err(error) => return Err(error),
        };
        let raw: [u8; 3] = ta61_inverse(identities, hurdle, sc2.key.expose(), &to_octets(esi));
        self.resolve_uplink_identity(from_octets(&raw), time, scope)
    }

    /// Decodes an encrypted identity and creates the key-free terminal binding
    /// needed for the encrypted registration. Authentication and registration
    /// policy still decide whether the terminal is admitted.
    pub fn bind_unbound_uplink_esi<F: Fn([u8; 16], [u8; 8]) -> [u8; 8]>(
        &mut self,
        esi: u32,
        time: TdmaTime,
        scope: AieScope,
        identities: &IdentityBox,
        hurdle: F,
    ) -> (r: Result<(u32, AieContext), AieContextError>)
        requires
            old(self).config.state.aie.wf(),
            forall|k: [u8; 16], block: [u8; 8]| call_requires(hurdle, (k, block)),
        ensures
            final(self).config.cfg == old(self).config.cfg,
            final(self).config.state == (StackState {
                aie_sessions: final(self).config.state.aie_sessions,
                ..old(self).config.state
            }),
            old(self).config.state.aie_sessions@.wf() ==> final(self).config.state.aie_sessions@.wf(),
            old(self).config.binds(
                esi,
                time,
                scope,
                identities,
                hurdle,
                final(self).config.state.aie_sessions@,
                r,
            ),
    {
        if esi > 0x00ff_ffff {
            return Err(AieContextError::InvalidContext);
        }
        let sc2: RuntimeSc2Aie = match self.config.state.aie.sc2_for_air_time(
            AieDirection::Uplink,
            time,
        ) {
            Ok(key) => key,
            Err(error) => return Err(error),
        };
        let raw: [u8; 3] = ta61_inverse(identities, hurdle, sc2.key.expose(), &to_octets(esi));
        let issi: u32 = from_octets(&raw);
        let binding: RuntimeSc2Binding = RuntimeSc2Binding::from_sc2(&sc2);
        self.config.state.aie_sessions.activate_terminal(issi, &sc2);
        Ok(
            (
                issi,
                AieContext::sc2(
                    AieSubject::Individual { issi },
                    AieDirection::Uplink,
                    time,
                    scope,
                    binding.key,
                ),
            ),
        )
    }

    /// Decrypts a protected payload before its identity is bound to a terminal.
    pub fn decrypt_unbound_uplink_mac(
        &self,
        time: TdmaTime,
        mac_block: &mut BitBuffer,
        start: usize,
        len: usize,
    ) -> (r: Result<(), AieContextError>)
        requires
            time.wf(),
        ensures
            (r, final(mac_block)@) == self.config.unbound(
                time,
                old(mac_block)@,
                start as int,
                len as int,
            ),
    {
        let sc2: RuntimeSc2Aie = match self.config.state_read().aie.sc2_for_air_time(
            AieDirection::Uplink,
            time,
        ) {
            Ok(key) => key,
            Err(error) => return Err(error),
        };
        self.cipher_mac_with_sc2(time, &sc2, mac_block, start, len, 0, AieDirection::Uplink)
    }

    /// Checks that the identity carried by a decrypted PDU maps to the encrypted
    /// one in its MAC header.
    pub fn verify_uplink_esi<F: Fn([u8; 16], [u8; 8]) -> [u8; 8]>(
        &self,
        esi: u32,
        issi: u32,
        identities: &IdentityBox,
        hurdle: F,
    ) -> (r: Result<(), AieContextError>)
        requires
            forall|k: [u8; 16], block: [u8; 8]| call_requires(hurdle, (k, block)),
        ensures
            if esi > 0x00ff_ffff || issi == 0 || issi > 0x00ff_ffff {
                r == Err::<(), AieContextError>(AieContextError::InvalidContext)
            } else {
                match self.config.state.aie.active() {
                    Err(error) => r == Err::<(), AieContextError>(error),
                    Ok(key) => exists|octets: (u8, u8, u8)| #[trigger]
                        crate::crypto::taa1::is_identity_encrypted(
                            identities,
                            hurdle,
                            key.key@,
                            ssi_octets(issi),
                            octets,
                        ) && r == if octets == ssi_octets(esi) {
                            Ok::<(), AieContextError>(())
                        } else {
                            Err(AieContextError::InvalidContext)
                        },
                }
            },
    {
        if esi > 0x00ff_ffff || issi == 0 || issi > 0x00ff_ffff {
            return Err(AieContextError::InvalidContext);
        }
        let sc2: RuntimeSc2Aie = match active_sc2(&self.config.state_read().aie) {
            Ok(key) => key,
            Err(error) => return Err(error),
        };
        let expected: [u8; 3] = ta61(identities, hurdle, sc2.key.expose(), &to_octets(issi));
        let octets: [u8; 3] = to_octets(esi);
        if expected[0] == octets[0] && expected[1] == octets[1] && expected[2] == octets[2] {
            Ok(())
        } else {
            Err(AieContextError::InvalidContext)
        }
    }

    /// Whether a clear uplink of a terminal is accepted: one that is bound must
    /// not fall back where clear operation is forbidden.
    pub fn clear_uplink_allowed(&self, issi: u32) -> (r: bool)
        ensures
            r == (!self.config.state.aie.enabled || self.config.state.aie.sc1_allowed
                || self.config.state.aie_sessions@.terminal(issi) is None),
    {
        let state = self.config.state_read();
        !state.aie.enabled || state.aie.sc1_allowed || state.aie_sessions.terminal(issi).is_none()
    }

    /// Ciphers exactly one region of a downlink MAC block. Header and fill bits
    /// outside it stay clear.
    pub fn cipher_downlink_mac(
        &self,
        context: AieContext,
        mac_block: &mut BitBuffer,
        start: usize,
        len: usize,
    ) -> (r: Result<(), AieContextError>)
        requires
            self.config.state.aie.wf(),
            context is Sc2 ==> context->Sc2_time.wf(),
        ensures
            (r, final(mac_block)@) == self.config.ciphered_in(
                context,
                AieDirection::Downlink,
                old(mac_block)@,
                start as int,
                len as int,
                0,
            ),
    {
        self.cipher_mac(context, mac_block, start, len, 0, AieDirection::Downlink)
    }

    /// Deciphers exactly one region of an uplink MAC block, by the same
    /// operation.
    pub fn cipher_uplink_mac(
        &self,
        context: AieContext,
        mac_block: &mut BitBuffer,
        start: usize,
        len: usize,
    ) -> (r: Result<(), AieContextError>)
        requires
            self.config.state.aie.wf(),
            context is Sc2 ==> context->Sc2_time.wf(),
        ensures
            (r, final(mac_block)@) == self.config.ciphered_in(
                context,
                AieDirection::Uplink,
                old(mac_block)@,
                start as int,
                len as int,
                0,
            ),
    {
        self.cipher_mac(context, mac_block, start, len, 0, AieDirection::Uplink)
    }

    /// Ciphers a region of downlink traffic.
    pub fn cipher_downlink_traffic(
        &self,
        context: AieContext,
        block: &mut BitBuffer,
        start: usize,
        len: usize,
    ) -> (r: Result<(), AieContextError>)
        requires
            self.config.state.aie.wf(),
            context is Sc2 ==> context->Sc2_time.wf(),
        ensures
            (r, final(block)@) == self.config.ciphered_in(
                context,
                AieDirection::Downlink,
                old(block)@,
                start as int,
                len as int,
                0,
            ),
    {
        self.cipher_mac(context, block, start, len, 0, AieDirection::Downlink)
    }

    /// Deciphers a region of uplink traffic.
    pub fn cipher_uplink_traffic(
        &self,
        context: AieContext,
        block: &mut BitBuffer,
        start: usize,
        len: usize,
    ) -> (r: Result<(), AieContextError>)
        requires
            self.config.state.aie.wf(),
            context is Sc2 ==> context->Sc2_time.wf(),
        ensures
            (r, final(block)@) == self.config.ciphered_in(
                context,
                AieDirection::Uplink,
                old(block)@,
                start as int,
                len as int,
                0,
            ),
    {
        self.cipher_mac(context, block, start, len, 0, AieDirection::Uplink)
    }

    /// Ciphers a region of downlink traffic with the key stream from an
    /// assigned bit on. The second half of a stolen speech slot uses the bits
    /// from 216 on.
    pub fn cipher_downlink_traffic_at_kss_offset(
        &self,
        context: AieContext,
        block: &mut BitBuffer,
        start: usize,
        len: usize,
        kss_offset: usize,
    ) -> (r: Result<(), AieContextError>)
        requires
            self.config.state.aie.wf(),
            context is Sc2 ==> context->Sc2_time.wf(),
            kss_offset + len <= usize::MAX,
        ensures
            (r, final(block)@) == self.config.ciphered_in(
                context,
                AieDirection::Downlink,
                old(block)@,
                start as int,
                len as int,
                kss_offset as int,
            ),
    {
        self.cipher_mac(context, block, start, len, kss_offset, AieDirection::Downlink)
    }

    /// Applies the cipher to soft decisions: a key stream bit that is set
    /// reverses the expected bit, which is a sign inversion.
    pub fn cipher_uplink_traffic_soft(
        &self,
        context: AieContext,
        soft_bits: &mut Vec<i8>,
        kss_offset: usize,
    ) -> (r: Result<(), AieContextError>)
        requires
            self.config.state.aie.wf(),
            context is Sc2 ==> context->Sc2_time.wf(),
            kss_offset + old(soft_bits)@.len() <= usize::MAX,
        ensures
            (r, final(soft_bits)@) == self.config.ciphered_soft(
                context,
                old(soft_bits)@,
                kss_offset as int,
            ),
    {
        let len: usize = soft_bits.len();
        let ghost before = soft_bits@;
        let mut mask: BitBuffer = BitBuffer::new(len);
        let ghost blank = mask@;
        if let Err(error) = self.cipher_mac(
            context,
            &mut mask,
            0,
            len,
            kss_offset,
            AieDirection::Uplink,
        ) {
            return Err(error);
        }
        let bits: Vec<bool> = mask.to_bits();
        if len == 0 {
            return Ok(());
        }
        let ghost stream = self.config.stream(
            self.config.context_key(context, AieDirection::Uplink)->Ok_0,
            context->Sc2_time,
            AieDirection::Uplink,
            kss_offset as int,
        );
        assert(bits@ == blank.masked(0, len as int, stream));
        let mut i: usize = 0;
        while i < len
            invariant
                i <= len,
                len == before.len(),
                soft_bits@.len() == len,
                bits@.len() == len,
                blank.bits == Seq::new(len as nat, |j: int| false),
                bits@ == blank.masked(0, len as int, stream),
                forall|j: int|
                    0 <= j < i ==> #[trigger] soft_bits@[j] == if stream(j) {
                        negated(before[j])
                    } else {
                        before[j]
                    },
                forall|j: int| i <= j < len ==> soft_bits@[j] == before[j],
            decreases len - i,
        {
            assert(bits@[i as int] == stream(i as int));
            if bits[i] {
                let soft: i8 = soft_bits[i];
                soft_bits.set(i, saturating_neg(soft));
            }
            i = i + 1;
        }
        assert(soft_bits@ =~= self.config.ciphered_soft(context, before, kss_offset as int).1);
        Ok(())
    }

    fn cipher_mac(
        &self,
        context: AieContext,
        mac_block: &mut BitBuffer,
        start: usize,
        len: usize,
        kss_offset: usize,
        direction: AieDirection,
    ) -> (r: Result<(), AieContextError>)
        requires
            self.config.state.aie.wf(),
            context is Sc2 ==> context->Sc2_time.wf(),
            kss_offset + len <= usize::MAX,
        ensures
            (r, final(mac_block)@) == self.config.ciphered_in(
                context,
                direction,
                old(mac_block)@,
                start as int,
                len as int,
                kss_offset as int,
            ),
    {
        if len == 0 {
            return Ok(());
        }
        match self.current_sc2_for_context(context, direction) {
            Ok((time, sc2)) => self.cipher_mac_with_sc2(
                time,
                &sc2,
                mac_block,
                start,
                len,
                kss_offset,
                direction,
            ),
            Err(error) => Err(error),
        }
    }

    fn cipher_mac_with_sc2(
        &self,
        time: TdmaTime,
        sc2: &RuntimeSc2Aie,
        mac_block: &mut BitBuffer,
        start: usize,
        len: usize,
        kss_offset: usize,
        direction: AieDirection,
    ) -> (r: Result<(), AieContextError>)
        requires
            time.wf(),
            kss_offset + len <= usize::MAX,
        ensures
            (r, final(mac_block)@) == self.config.ciphered(
                *sc2,
                time,
                direction,
                old(mac_block)@,
                start as int,
                len as int,
                kss_offset as int,
            ),
    {
        if len == 0 {
            return Ok(());
        }
        let cell = &self.config.config().cell;
        let eck: [u8; 10] = match tb5(
            cell.main_carrier,
            cell.location_area,
            cell.colour_code,
            sc2.key.expose(),
        ) {
            Ok(eck) => eck,
            Err(_) => return Err(AieContextError::CryptoInput),
        };
        if kss_offset % 8 != 0 {
            return Err(AieContextError::CryptoInput);
        }
        let total: usize = kss_offset + len;
        let bytes: usize = if total % 8 == 0 {
            total / 8
        } else {
            total / 8 + 1
        };
        let mut key_stream: Vec<u8> = zeroes(bytes);
        let iv: u32 = FrameNumbers {
            timeslot: time.t,
            frame: time.f,
            multiframe: time.m,
            hyperframe: time.h,
            uplink: direction == AieDirection::Uplink,
        }.iv();
        match sc2.algorithm {
            RuntimeSc2TeaAlgorithm::Tea1 => tea1(iv, &eck, &mut key_stream),
            RuntimeSc2TeaAlgorithm::Tea3 => tea3(iv, &eck, &mut key_stream),
        }
        let ghost before = mac_block@;
        let cursor: usize = mac_block.get_pos();
        mac_block.seek(start);
        let ghost placed = mac_block@;
        if mac_block.xor_bytearr(&key_stream, kss_offset / 8, len).is_none() {
            return Err(AieContextError::InvalidContext);
        }
        mac_block.seek(cursor);
        proof {
            let stream = self.config.stream(*sc2, time, direction, kss_offset as int);
            assert forall|i: int| 0 <= i < len implies crate::bitbuffer::byte_bit(
                key_stream@,
                kss_offset as int / 8 * 8 + i,
            ) == #[trigger] stream(i) by {
                assert(kss_offset as int / 8 * 8 == kss_offset);
            }
            assert(mac_block@.bits =~= before.masked(start as int, len as int, stream));
        }
        Ok(())
    }

    fn current_sc2_for_context(&self, context: AieContext, expected_direction: AieDirection) -> (r:
        Result<(TdmaTime, RuntimeSc2Aie), AieContextError>)
        requires
            self.config.state.aie.wf(),
        ensures
            match r {
                Ok((time, key)) => context is Sc2 && time == context->Sc2_time
                    && self.config.context_key(context, expected_direction) == Ok::<
                    RuntimeSc2Aie,
                    AieContextError,
                >(key),
                Err(error) => self.config.context_key(context, expected_direction) == Err::<
                    RuntimeSc2Aie,
                    AieContextError,
                >(error),
            },
    {
        match context {
            AieContext::Clear { .. } => Err(AieContextError::InvalidContext),
            AieContext::Sc2 { subject, direction, time, key, .. } => {
                if direction != expected_direction {
                    return Err(AieContextError::InvalidContext);
                }
                let state = self.config.state_read();
                let sc2: RuntimeSc2Aie = match state.aie.sc2_for_air_time(
                    expected_direction,
                    time,
                ) {
                    Ok(sc2) => sc2,
                    Err(error) => return Err(error),
                };
                if RuntimeSc2Binding::from_sc2(&sc2).key != key {
                    return Err(AieContextError::StaleKeyIdentity);
                }
                match binding_for_subject(state, subject, &sc2) {
                    Ok(_) => Ok((time, sc2)),
                    Err(error) => Err(error),
                }
            },
        }
    }
}

/// A soft decision with its sign inverted, as far as it can be.
pub open spec fn negated(soft: i8) -> i8 {
    if soft == i8::MIN {
        i8::MAX
    } else {
        (-soft) as i8
    }
}

fn saturating_neg(soft: i8) -> (r: i8)
    ensures
        r == negated(soft),
{
    if soft == -128 {
        127
    } else {
        -soft
    }
}

fn zeroes(len: usize) -> (bytes: Vec<u8>)
    ensures
        bytes@.len() == len,
{
    let mut bytes: Vec<u8> = Vec::new();
    let mut i: usize = 0;
    while i < len
        invariant
            i <= len,
            bytes@.len() == i,
        decreases len - i,
    {
        bytes.push(0);
        i = i + 1;
    }
    bytes
}

/// A short identity is its three octets.
pub proof fn law_identity_is_its_octets(ssi: u32, octets: (u8, u8, u8))
    requires
        ssi <= 0x00ff_ffff,
    ensures
        octets_ssi(ssi_octets(ssi)) == ssi,
        ssi_octets(octets_ssi(octets)) == octets,
        octets_ssi(octets) <= 0x00ff_ffff,
{
    let q = ssi as int / 256;
    let r = ssi as int % 256;
    lemma_fundamental_div_mod_converse(ssi as int, 65536, q / 256, q % 256 * 256 + r);
    let high = octets.0 * 256 + octets.1;
    let n = octets.0 * 65536 + octets.1 * 256 + octets.2;
    lemma_fundamental_div_mod_converse(n, 256, high, octets.2 as int);
    lemma_fundamental_div_mod_converse(high, 256, octets.0 as int, octets.1 as int);
    lemma_fundamental_div_mod_converse(n, 65536, octets.0 as int, octets.1 * 256 + octets.2);
}

/// The encrypted form of an identity names it: decrypting it gives the identity
/// back.
pub proof fn law_encrypted_identity_names_the_terminal(
    identities: &IdentityBox,
    c: [u8; 8],
    ssi: u32,
)
    requires
        identities.wf(),
        ssi <= 0x00ff_ffff,
    ensures
        octets_ssi(
            crate::crypto::taa1::identity_decrypted(
                identities,
                c@,
                ssi_octets(
                    octets_ssi(
                        crate::crypto::taa1::identity_encrypted(identities, c@, ssi_octets(ssi)),
                    ),
                ),
            ),
        ) == ssi,
{
    let encrypted = crate::crypto::taa1::identity_encrypted(identities, c@, ssi_octets(ssi));
    law_identity_is_its_octets(ssi, encrypted);
    crate::crypto::taa1::law_identity_is_decrypted(identities, c@, ssi_octets(ssi));
}

/// In a context that was resolved and still holds, every identity of 24 bits has
/// an encrypted form of 24 bits, and two identities never have the same one.
pub proof fn law_encrypted_identities_differ<F: Fn([u8; 16], [u8; 8]) -> [u8; 8]>(
    config: SharedConfig,
    context: AieContext,
    identities: &IdentityBox,
    hurdle: F,
    first: u32,
    second: u32,
    first_esi: Result<u32, AieContextError>,
    second_esi: Result<u32, AieContextError>,
)
    requires
        identities.wf(),
        crate::crypto::taa1::hurdle_answers_alike(hurdle),
        config.context_key(context, AieDirection::Downlink) is Ok,
        first <= 0x00ff_ffff,
        second <= 0x00ff_ffff,
        config.encrypts(context, first, identities, hurdle, first_esi),
        config.encrypts(context, second, identities, hurdle, second_esi),
    ensures
        first_esi is Ok && first_esi->Ok_0 <= 0x00ff_ffff,
        second_esi is Ok && second_esi->Ok_0 <= 0x00ff_ffff,
        first_esi == second_esi ==> first == second,
{
    let key = config.context_key(context, AieDirection::Downlink)->Ok_0.key@;
    let one = choose|esi: (u8, u8, u8)| #[trigger]
        crate::crypto::taa1::is_identity_encrypted(
            identities,
            hurdle,
            key,
            ssi_octets(first),
            esi,
        ) && first_esi == Ok::<u32, AieContextError>(octets_ssi(esi));
    let two = choose|esi: (u8, u8, u8)| #[trigger]
        crate::crypto::taa1::is_identity_encrypted(
            identities,
            hurdle,
            key,
            ssi_octets(second),
            esi,
        ) && second_esi == Ok::<u32, AieContextError>(octets_ssi(esi));
    law_identity_is_its_octets(first, one);
    law_identity_is_its_octets(second, two);
    if first_esi == second_esi {
        assert(one == two);
        let c = choose|c: [u8; 8]| #[trigger]
            crate::crypto::taa1::is_intermediate(hurdle, key, c) && two
                == crate::crypto::taa1::identity_encrypted(identities, c@, ssi_octets(second));
        let opened = crate::crypto::taa1::identity_decrypted(identities, c@, two);
        assert(crate::crypto::taa1::is_identity_decrypted(identities, hurdle, key, two, opened));
        crate::crypto::taa1::law_ta61_is_a_permutation(
            identities,
            hurdle,
            key,
            ssi_octets(first),
            two,
            opened,
        );
        crate::crypto::taa1::law_ta61_is_a_permutation(
            identities,
            hurdle,
            key,
            ssi_octets(second),
            two,
            opened,
        );
    }
}

/// A context that is clear, or one of an uplink, encrypts no identity.
pub proof fn law_other_contexts_encrypt_nothing<F: Fn([u8; 16], [u8; 8]) -> [u8; 8]>(
    config: SharedConfig,
    context: AieContext,
    identities: &IdentityBox,
    hurdle: F,
    ssi: u32,
    r: Result<u32, AieContextError>,
)
    requires
        context matches AieContext::Sc2 { direction, .. } ==> direction == AieDirection::Uplink,
        config.encrypts(context, ssi, identities, hurdle, r),
    ensures
        r == Err::<u32, AieContextError>(AieContextError::InvalidContext),
{
}

/// The encrypted identity of a terminal is resolved to the terminal, as long as
/// the uplink uses the key of the downlink: to its context where it is bound, and
/// to no context where it is not.
pub proof fn law_encrypted_identity_is_resolved<F: Fn([u8; 16], [u8; 8]) -> [u8; 8]>(
    sender: SharedConfig,
    receiver: SharedConfig,
    context: AieContext,
    identities: &IdentityBox,
    hurdle: F,
    issi: u32,
    esi: u32,
    time: TdmaTime,
    scope: AieScope,
    r: Result<(u32, AieContext), AieContextError>,
)
    requires
        identities.wf(),
        crate::crypto::taa1::hurdle_answers_alike(hurdle),
        issi <= 0x00ff_ffff,
        sender.context_key(context, AieDirection::Downlink) is Ok,
        sender.encrypts(context, issi, identities, hurdle, Ok(esi)),
        receiver.state.aie.air_key(AieDirection::Uplink, time) == sender.context_key(
            context,
            AieDirection::Downlink,
        ),
        receiver.resolves(esi, time, scope, identities, hurdle, r),
    ensures
        r == if receiver.state.aie_sessions@.terminal(issi) is Some {
            Ok(
                (
                    issi,
                    uplink_context(
                        issi,
                        time,
                        scope,
                        receiver.state.aie.air_key(AieDirection::Uplink, time)->Ok_0,
                    ),
                ),
            )
        } else {
            Err(AieContextError::SubjectNotProvisioned)
        },
{
    let key = sender.context_key(context, AieDirection::Downlink)->Ok_0.key@;
    let sent = choose|octets: (u8, u8, u8)| #[trigger]
        crate::crypto::taa1::is_identity_encrypted(
            identities,
            hurdle,
            key,
            ssi_octets(issi),
            octets,
        ) && esi == octets_ssi(octets);
    law_identity_is_its_octets(issi, sent);
    let found = choose|octets: (u8, u8, u8)| #[trigger]
        crate::crypto::taa1::is_identity_decrypted(
            identities,
            hurdle,
            key,
            ssi_octets(esi),
            octets,
        ) && r == receiver.uplink_of(octets_ssi(octets), time, scope);
    crate::crypto::taa1::law_ta61_is_a_permutation(
        identities,
        hurdle,
        key,
        ssi_octets(issi),
        sent,
        found,
    );
}

/// An encrypted identity that was bound is resolved to the same terminal and
/// context afterwards, and every other binding is as it was.
pub proof fn law_bound_identity_is_resolved<F: Fn([u8; 16], [u8; 8]) -> [u8; 8]>(
    before: SharedConfig,
    after: SharedConfig,
    identities: &IdentityBox,
    hurdle: F,
    esi: u32,
    time: TdmaTime,
    scope: AieScope,
    bound: (u32, AieContext),
    r: Result<(u32, AieContext), AieContextError>,
    other: u32,
)
    requires
        crate::crypto::taa1::hurdle_answers_alike(hurdle),
        after.state.aie == before.state.aie,
        before.binds(
            esi,
            time,
            scope,
            identities,
            hurdle,
            after.state.aie_sessions@,
            Ok(bound),
        ),
        after.resolves(esi, time, scope, identities, hurdle, r),
    ensures
        r == Ok::<(u32, AieContext), AieContextError>(bound),
        bound.0 <= 0x00ff_ffff,
        bound.1 is Sc2,
        after.state.aie_sessions@.terminal(bound.0) is Some,
        other != bound.0 ==> after.state.aie_sessions@.terminal(other)
            == before.state.aie_sessions@.terminal(other),
        after.state.aie_sessions@.calls == before.state.aie_sessions@.calls,
{
    let key = before.state.aie.air_key(AieDirection::Uplink, time)->Ok_0;
    let octets = choose|octets: (u8, u8, u8)| #[trigger]
        crate::crypto::taa1::is_identity_decrypted(
            identities,
            hurdle,
            key.key@,
            ssi_octets(esi),
            octets,
        ) && Ok::<(u32, AieContext), AieContextError>(bound) == Ok::<
            (u32, AieContext),
            AieContextError,
        >((octets_ssi(octets), uplink_context(octets_ssi(octets), time, scope, key)))
            && after.state.aie_sessions@ == before.state.aie_sessions@.with_terminal(
            octets_ssi(octets),
            RuntimeSc2Binding::of(key),
        );
    let again = choose|again: (u8, u8, u8)| #[trigger]
        crate::crypto::taa1::is_identity_decrypted(
            identities,
            hurdle,
            key.key@,
            ssi_octets(esi),
            again,
        ) && r == after.uplink_of(octets_ssi(again), time, scope);
    let c = choose|c: [u8; 8]| #[trigger]
        crate::crypto::taa1::is_intermediate(hurdle, key.key@, c) && octets
            == crate::crypto::taa1::identity_decrypted(identities, c@, ssi_octets(esi));
    let d = choose|d: [u8; 8]| #[trigger]
        crate::crypto::taa1::is_intermediate(hurdle, key.key@, d) && again
            == crate::crypto::taa1::identity_decrypted(identities, d@, ssi_octets(esi));
    crate::crypto::taa1::law_key_has_one_intermediate(hurdle, key.key@, c, d);
    law_identity_is_its_octets(0, octets);
    let binding = RuntimeSc2Binding::of(key);
    let terminals = before.state.aie_sessions@.terminals;
    crate::table::law_lookup_after_put(terminals, bound.0, binding, bound.0);
    crate::table::law_lookup_after_put(terminals, bound.0, binding, other);
}

/// Ciphering a region twice in the same context restores the block, and no bit
/// outside the region is ever touched.
pub proof fn law_cipher_undoes_itself(
    config: SharedConfig,
    context: AieContext,
    direction: AieDirection,
    block: crate::bitbuffer::BitsView,
    start: int,
    len: int,
    kss_offset: int,
)
    requires
        0 <= start,
        0 <= len,
        config.ciphered_in(context, direction, block, start, len, kss_offset).0 is Ok,
    ensures
        ({
            let once = config.ciphered_in(context, direction, block, start, len, kss_offset).1;
            &&& config.ciphered_in(context, direction, once, start, len, kss_offset) == (
                Ok::<(), AieContextError>(()),
                block,
            )
            &&& once.bits.len() == block.bits.len()
            &&& forall|i: int|
                0 <= i < block.bits.len() && !(start <= i < start + len) ==> once.bits[i]
                    == block.bits[i]
        }),
{
    if len > 0 {
        let key = config.context_key(context, direction)->Ok_0;
        let stream = config.stream(key, context->Sc2_time, direction, kss_offset);
        crate::bitbuffer::law_mask_undoes_itself(block, start, len, stream);
        let once = config.ciphered_in(context, direction, block, start, len, kss_offset).1;
        assert(once == crate::bitbuffer::BitsView {
            bits: block.masked(start, len, stream),
            pos: block.pos,
        });
        assert(crate::bitbuffer::BitsView { bits: block.bits, pos: block.pos } == block);
    }
}

/// Deciphering a region twice before its sender is known restores the block, and
/// no bit outside the region is ever touched.
pub proof fn law_unbound_cipher_undoes_itself(
    config: SharedConfig,
    time: TdmaTime,
    block: crate::bitbuffer::BitsView,
    start: int,
    len: int,
)
    requires
        0 <= start,
        0 <= len,
        config.unbound(time, block, start, len).0 is Ok,
    ensures
        ({
            let once = config.unbound(time, block, start, len).1;
            &&& config.unbound(time, once, start, len) == (Ok::<(), AieContextError>(()), block)
            &&& once.bits.len() == block.bits.len()
            &&& once.pos == block.pos
            &&& forall|i: int|
                0 <= i < block.bits.len() && !(start <= i < start + len) ==> once.bits[i]
                    == block.bits[i]
        }),
{
    if len > 0 {
        let key = config.state.aie.air_key(AieDirection::Uplink, time)->Ok_0;
        let stream = config.stream(key, time, AieDirection::Uplink, 0);
        crate::bitbuffer::law_mask_undoes_itself(block, start, len, stream);
        let once = config.unbound(time, block, start, len).1;
        assert(once == crate::bitbuffer::BitsView {
            bits: block.masked(start, len, stream),
            pos: block.pos,
        });
        assert(crate::bitbuffer::BitsView { bits: block.bits, pos: block.pos } == block);
    }
}

/// What is deciphered before its sender is known is what the context of any
/// sender gives for that slot.
pub proof fn law_unbound_cipher_is_that_of_the_terminal(
    config: SharedConfig,
    context: AieContext,
    block: crate::bitbuffer::BitsView,
    start: int,
    len: int,
)
    requires
        config.context_key(context, AieDirection::Uplink) is Ok,
    ensures
        config.unbound(context->Sc2_time, block, start, len) == config.ciphered_in(
            context,
            AieDirection::Uplink,
            block,
            start,
            len,
            0,
        ),
{
}

/// Which bits of a region are flipped depends on the context and not on what the
/// block holds, nor on where the region lies. Length and place of the block stay.
pub proof fn law_mask_does_not_depend_on_the_block(
    config: SharedConfig,
    context: AieContext,
    direction: AieDirection,
    one: crate::bitbuffer::BitsView,
    one_start: int,
    other: crate::bitbuffer::BitsView,
    other_start: int,
    len: int,
    kss_offset: int,
)
    requires
        0 <= one_start,
        0 <= other_start,
        0 <= len,
        config.ciphered_in(context, direction, one, one_start, len, kss_offset).0 is Ok,
        config.ciphered_in(context, direction, other, other_start, len, kss_offset).0 is Ok,
    ensures
        ({
            let a = config.ciphered_in(context, direction, one, one_start, len, kss_offset).1;
            let b = config.ciphered_in(context, direction, other, other_start, len, kss_offset).1;
            &&& a.bits.len() == one.bits.len() && a.pos == one.pos
            &&& b.bits.len() == other.bits.len() && b.pos == other.pos
            &&& forall|i: int|
                0 <= i < len ==> (#[trigger] a.bits[one_start + i] != one.bits[one_start + i]) == (
                b.bits[other_start + i] != other.bits[other_start + i])
        }),
{
    law_offset_continues_the_stream(
        config,
        context,
        direction,
        one,
        one_start,
        len,
        kss_offset,
        other,
        other_start,
        len,
        0,
    );
}

/// The key stream from an offset on is the rest of the stream before it: bit `i`
/// of a region that is ciphered `ahead` bits later is flipped exactly where bit
/// `ahead + i` is flipped in a region that starts earlier in the stream.
pub proof fn law_offset_continues_the_stream(
    config: SharedConfig,
    context: AieContext,
    direction: AieDirection,
    whole: crate::bitbuffer::BitsView,
    whole_start: int,
    whole_len: int,
    kss_offset: int,
    part: crate::bitbuffer::BitsView,
    part_start: int,
    part_len: int,
    ahead: int,
)
    requires
        0 <= whole_start,
        0 <= part_start,
        0 <= part_len,
        0 <= ahead,
        ahead + part_len <= whole_len,
        config.ciphered_in(context, direction, whole, whole_start, whole_len, kss_offset).0 is Ok,
        config.ciphered_in(
            context,
            direction,
            part,
            part_start,
            part_len,
            kss_offset + ahead,
        ).0 is Ok,
    ensures
        ({
            let a = config.ciphered_in(
                context,
                direction,
                whole,
                whole_start,
                whole_len,
                kss_offset,
            ).1;
            let b = config.ciphered_in(
                context,
                direction,
                part,
                part_start,
                part_len,
                kss_offset + ahead,
            ).1;
            &&& a.bits.len() == whole.bits.len() && a.pos == whole.pos
            &&& b.bits.len() == part.bits.len() && b.pos == part.pos
            &&& forall|i: int|
                0 <= i < part_len ==> (#[trigger] b.bits[part_start + i] != part.bits[part_start
                    + i]) == (a.bits[whole_start + ahead + i] != whole.bits[whole_start + ahead
                    + i])
        }),
{
    if part_len > 0 {
        let key = config.context_key(context, direction)->Ok_0;
        let time = context->Sc2_time;
        let early = config.stream(key, time, direction, kss_offset);
        let late = config.stream(key, time, direction, kss_offset + ahead);
        let a = config.ciphered_in(context, direction, whole, whole_start, whole_len, kss_offset).1;
        let b = config.ciphered_in(
            context,
            direction,
            part,
            part_start,
            part_len,
            kss_offset + ahead,
        ).1;
        assert(a.bits == whole.masked(whole_start, whole_len, early));
        assert(b.bits == part.masked(part_start, part_len, late));
        assert forall|i: int| 0 <= i < part_len implies (#[trigger] b.bits[part_start + i]
            != part.bits[part_start + i]) == (a.bits[whole_start + ahead + i]
            != whole.bits[whole_start + ahead + i]) by {
            assert(late(i) == early(ahead + i));
        }
    }
}

/// Traffic is ciphered at every offset that is a multiple of eight, where it is
/// ciphered at all, and at no other: then nothing is touched.
pub proof fn law_offset_is_whole_bytes(
    config: SharedConfig,
    context: AieContext,
    direction: AieDirection,
    block: crate::bitbuffer::BitsView,
    start: int,
    len: int,
    kss_offset: int,
)
    requires
        0 < len,
        0 <= kss_offset,
        config.ciphered_in(context, direction, block, start, len, 0).0 is Ok,
    ensures
        kss_offset % 8 == 0 ==> config.ciphered_in(
            context,
            direction,
            block,
            start,
            len,
            kss_offset,
        ).0 is Ok,
        kss_offset % 8 != 0 ==> config.ciphered_in(
            context,
            direction,
            block,
            start,
            len,
            kss_offset,
        ) == (Err::<(), AieContextError>(AieContextError::CryptoInput), block),
{
}

/// A clear context, and one of the other direction, ciphers nothing: it is refused
/// and the block is left alone. Where there is nothing to cipher every context
/// will do.
pub proof fn law_other_contexts_cipher_nothing(
    config: SharedConfig,
    context: AieContext,
    direction: AieDirection,
    block: crate::bitbuffer::BitsView,
    start: int,
    len: int,
    kss_offset: int,
)
    requires
        0 <= len,
        context matches AieContext::Sc2 { direction: of, .. } ==> of != direction,
    ensures
        config.ciphered_in(context, direction, block, start, len, kss_offset) == (
            if len == 0 {
                Ok(())
            } else {
                Err(AieContextError::InvalidContext)
            },
            block,
        ),
{
}

/// A soft decision is negated, as far as it can be, exactly where the hard bit
/// would be flipped; and nothing is touched where the hard cipher refuses.
pub proof fn law_soft_cipher_negates_where_the_hard_one_flips(
    config: SharedConfig,
    context: AieContext,
    soft: Seq<i8>,
    block: crate::bitbuffer::BitsView,
    start: int,
    kss_offset: int,
)
    requires
        0 <= start,
        start + soft.len() <= block.bits.len(),
    ensures
        ({
            let n = soft.len() as int;
            let hard = config.ciphered_in(
                context,
                AieDirection::Uplink,
                block,
                start,
                n,
                kss_offset,
            );
            let (r, after) = config.ciphered_soft(context, soft, kss_offset);
            &&& r == hard.0
            &&& r is Err ==> after == soft
            &&& after.len() == n
            &&& forall|i: int|
                0 <= i < n ==> #[trigger] after[i] == if hard.1.bits[start + i] != block.bits[start
                    + i] {
                    negated(soft[i])
                } else {
                    soft[i]
                }
        }),
{
    let n = soft.len() as int;
    let hard = config.ciphered_in(context, AieDirection::Uplink, block, start, n, kss_offset);
    if n > 0 && hard.0 is Ok {
        let key = config.context_key(context, AieDirection::Uplink)->Ok_0;
        let stream = config.stream(key, context->Sc2_time, AieDirection::Uplink, kss_offset);
        let after = config.ciphered_soft(context, soft, kss_offset).1;
        assert(hard.1.bits == block.masked(start, n, stream));
        assert forall|i: int| 0 <= i < n implies #[trigger] after[i] == if hard.1.bits[start + i]
            != block.bits[start + i] {
            negated(soft[i])
        } else {
            soft[i]
        } by {
            assert(hard.1.bits[start + i] == (block.bits[start + i] != stream(i)));
        }
    }
}

/// A context that was resolved is accepted for ciphering as long as the state
/// stays as it was.
pub proof fn law_resolved_context_is_accepted(
    config: SharedConfig,
    request: AieRequest,
    direction: AieDirection,
    time: TdmaTime,
)
    requires
        request is Sc2,
        config.resolved(request, direction, time) is Ok,
    ensures
        config.context_key(config.resolved(request, direction, time)->Ok_0, direction)
            == config.state.aie.air_key(direction, time),
{
}

/// While no rollover is prepared, the encrypted identity that is derived for a
/// registered terminal is resolved to the terminal, in a context of its own for
/// the uplink.
pub proof fn law_registered_terminal_is_resolved<F: Fn([u8; 16], [u8; 8]) -> [u8; 8]>(
    config: SharedConfig,
    context: AieContext,
    identities: &IdentityBox,
    hurdle: F,
    issi: u32,
    time: TdmaTime,
    scope: AieScope,
    esi: Result<u32, AieContextError>,
    r: Result<(u32, AieContext), AieContextError>,
)
    requires
        identities.wf(),
        crate::crypto::taa1::hurdle_answers_alike(hurdle),
        issi <= 0x00ff_ffff,
        config.state.aie.rollover is None,
        config.resolved(
            AieRequest::Sc2 { subject: AieSubject::Individual { issi }, scope },
            AieDirection::Downlink,
            time,
        ) == Ok::<AieContext, AieContextError>(context),
        config.encrypts(context, issi, identities, hurdle, esi),
        config.resolves(esi->Ok_0, time, scope, identities, hurdle, r),
    ensures
        esi is Ok,
        r == Ok::<(u32, AieContext), AieContextError>(
            (
                issi,
                AieContext::Sc2 {
                    subject: AieSubject::Individual { issi },
                    direction: AieDirection::Uplink,
                    time,
                    scope,
                    key: config.state.aie.sc2->0.identity(),
                },
            ),
        ),
{
    law_encrypted_identities_differ(
        config,
        context,
        identities,
        hurdle,
        issi,
        issi,
        esi,
        esi,
    );
    law_encrypted_identity_is_resolved(
        config,
        config,
        context,
        identities,
        hurdle,
        issi,
        esi->Ok_0,
        time,
        scope,
        r,
    );
}

} // verus!
