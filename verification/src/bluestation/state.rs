//! The mutable state of the station, and the configuration that goes with it.
use crate::aie::AieSubject;
use crate::bluestation::aie_state::RuntimeAieSessions;
use crate::bluestation::config::StackConfig;
use crate::bluestation::gateways::DmGatewayRegistry;
use crate::bluestation::network_broadcast::RuntimeNetworkBroadcast;
use crate::bluestation::rollover::{AieContextError, RuntimeAieConfig};
use crate::bluestation::subscribers::SubscriberRegistry;
use crate::cmce::circuit::TimeslotAllocator;
use vstd::prelude::*;

verus! {

/// A live downlink listening opportunity of a terminal. Call control owns the
/// observations; the link layer reads them again before every transmission, so
/// that a retry does not inherit a stale timeslot.
#[derive(Debug, Clone, Copy, PartialEq, Eq, Structural)]
pub struct SubscriberDeliveryRoute {
    pub call_id: u16,
    pub timeslot: u8,
    pub usage: u8,
}

/// A delivery route with the terminal it is for.
#[derive(Debug, Clone, Copy, PartialEq, Eq, Structural)]
pub struct DeliveryRouteEntry {
    pub issi: u32,
    pub route: SubscriberDeliveryRoute,
}

/// A step in the life of a rollover that is to be reported to the SwMI.
#[derive(Debug, Clone, Copy, PartialEq, Eq, Structural)]
pub struct RuntimeSc2RolloverEvent {
    pub rollover_id: u64,
    pub activated: bool,
    pub local_network_time: u64,
}

/// Mutable state of the station.
pub struct StackState {
    pub timeslot_alloc: TimeslotAllocator,
    /// The central network is connected; otherwise the station works alone.
    pub network_connected: bool,
    /// Authentication policy advertised by the connected SwMI.
    pub authentication_required: bool,
    /// Encryption settings and SC2 key supplied by the authenticated SwMI.
    pub aie: RuntimeAieConfig,
    /// Key-free active SC2 sessions.
    pub aie_sessions: RuntimeAieSessions,
    /// Rollover reports waiting for the SwMI.
    pub sc2_rollover_events: Vec<RuntimeSc2RolloverEvent>,
    pub subscribers: SubscriberRegistry,
    pub dm_gateways: DmGatewayRegistry,
    /// Ordered, currently valid traffic-channel opportunities for individual
    /// downlink signalling. A terminal without one is served on the control
    /// channel.
    pub subscriber_delivery_routes: Vec<DeliveryRouteEntry>,
    /// What the station broadcasts of its network.
    pub network_broadcast: RuntimeNetworkBroadcast,
}

impl StackState {
    /// The state is consistent.
    pub open spec fn wf(self) -> bool {
        &&& self.aie.wf()
        &&& self.aie_sessions@.wf()
        &&& self.subscribers@.wf()
        &&& self.dm_gateways@.wf()
    }

    /// Nothing is known and nothing is connected.
    pub open spec fn is_initial(self) -> bool {
        &&& self.timeslot_alloc == (TimeslotAllocator { ts2: None, ts3: None, ts4: None })
        &&& !self.network_connected
        &&& !self.authentication_required
        &&& self.aie == (RuntimeAieConfig {
            enabled: false,
            sc1_allowed: true,
            sc2: None,
            rollover: None,
        })
        &&& self.aie_sessions@ == crate::bluestation::aie_state::SessionsView::none()
        &&& self.sc2_rollover_events@.len() == 0
        &&& self.subscribers@ == crate::bluestation::subscribers::RegistryView::empty()
        &&& self.dm_gateways@ == crate::bluestation::gateways::GatewaysView::empty()
        &&& self.subscriber_delivery_routes@.len() == 0
        &&& self.network_broadcast@
            == crate::bluestation::network_broadcast::AdvertisedView::unset()
    }

    /// Why a subject has no SC2 context, if it has none. A session authorizes
    /// a terminal or a call leg; group traffic needs none; cell-wide signalling
    /// is never protected.
    pub open spec fn subject_fault(self, subject: AieSubject) -> Option<AieContextError> {
        match subject {
            AieSubject::Individual { issi } => if self.aie_sessions@.terminal(issi) is Some {
                None
            } else {
                Some(AieContextError::SubjectNotProvisioned)
            },
            AieSubject::Call { call_id, .. } => if self.aie_sessions@.call(
                call_id,
                subject,
            ) is Some {
                None
            } else {
                Some(AieContextError::SubjectNotProvisioned)
            },
            AieSubject::Group { .. } => None,
            AieSubject::System => Some(AieContextError::UnsupportedSubject),
        }
    }
}

impl Default for StackState {
    /// The state at the start: nothing is known and nothing is connected.
    fn default() -> (state: Self)
        ensures
            state.wf(),
            state.is_initial(),
    {
        StackState {
            timeslot_alloc: TimeslotAllocator::default(),
            network_connected: false,
            authentication_required: false,
            aie: RuntimeAieConfig::default(),
            aie_sessions: RuntimeAieSessions::default(),
            sc2_rollover_events: Vec::new(),
            subscribers: SubscriberRegistry::new(),
            dm_gateways: DmGatewayRegistry::default(),
            subscriber_delivery_routes: Vec::new(),
            network_broadcast: RuntimeNetworkBroadcast::unset(),
        }
    }
}

/// The configuration together with the mutable state.
pub struct SharedConfig {
    /// Read-only configuration.
    pub cfg: StackConfig,
    /// Mutable state.
    pub state: StackState,
}

impl SharedConfig {
    /// A valid configuration with its state. Until a connected SwMI provides the
    /// serving-cell policy, authentication is required as the cell says.
    /// `carrier` are the frequencies that the cell's carrier elements stand for.
    pub fn from_parts(
        cfg: StackConfig,
        carrier: Option<(u32, u32)>,
        state: Option<StackState>,
    ) -> (shared: Self)
        requires
            cfg.fault(carrier, cfg.timezone_is_known()) is None,
            state is Some ==> state->0.wf(),
        ensures
            shared.cfg == cfg,
            shared.state.wf(),
            shared.state.authentication_required == cfg.cell.authentication_required,
            state is Some ==> shared.state == (StackState {
                authentication_required: cfg.cell.authentication_required,
                ..state->0
            }),
            state is None ==> (StackState {
                authentication_required: false,
                ..shared.state
            }).is_initial(),
    {
        let mut state: StackState = match state {
            Some(state) => state,
            None => StackState::default(),
        };
        state.authentication_required = cfg.cell.authentication_required;
        SharedConfig { cfg, state }
    }

    /// The configuration with its state, if it is valid; otherwise what is wrong
    /// with it.
    pub fn checked(
        cfg: StackConfig,
        carrier: Option<(u32, u32)>,
        state: Option<StackState>,
    ) -> (shared: Result<Self, &'static str>)
        requires
            state is Some ==> state->0.wf(),
        ensures
            match shared {
                Ok(made) => cfg.fault(carrier, cfg.timezone_is_known()) is None && made.cfg == cfg
                    && made.state.wf() && made.state.authentication_required
                    == cfg.cell.authentication_required && (state is Some ==> made.state == (
                StackState {
                    authentication_required: cfg.cell.authentication_required,
                    ..state->0
                })) && (state is None ==> (StackState {
                    authentication_required: false,
                    ..made.state
                }).is_initial()),
                Err(text) => cfg.fault(carrier, cfg.timezone_is_known()) == Some(text@),
            },
    {
        match cfg.validate(carrier) {
            Ok(_) => Ok(SharedConfig::from_parts(cfg, carrier, state)),
            Err(text) => Err(text),
        }
    }

    /// The configuration.
    pub fn config(&self) -> (cfg: &StackConfig)
        ensures
            *cfg == self.cfg,
    {
        &self.cfg
    }

    /// The state, for reading.
    pub fn state_read(&self) -> (state: &StackState)
        ensures
            *state == self.state,
    {
        &self.state
    }

    /// The state, for writing.
    pub fn state_write(&mut self) -> (state: &mut StackState)
        ensures
            *state == old(self).state,
            *final(self) == (SharedConfig { state: *final(state), ..*old(self) }),
    {
        &mut self.state
    }
}

} // verus!
