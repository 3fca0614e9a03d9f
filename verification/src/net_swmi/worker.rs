//! The conduct of the connection to the SwMI: what is answered to its commands,
//! who else is told, and what the station reports by itself. The caller keeps
//! the connection, performs what is returned here and tells how it went.
use crate::aie::{AieAlgorithm, Sc2KeyIdentifier};
use crate::bluestation::aie_state::{RuntimeSc2Aie, RuntimeSc2Binding, RuntimeSc2TeaAlgorithm};
use crate::bluestation::network_broadcast::AdvertisedView;
use crate::bluestation::rollover::RuntimeAieConfig;
use crate::bluestation::state::{RuntimeSc2RolloverEvent, StackState};
use crate::net_swmi::profile::LocalRadioProfile;
use crate::net_swmi::protocol::{CellConfig, Sc2AieConfig, Sc2TeaAlgorithm, SystemInfoReport};
use vstd::prelude::*;

verus! {

/// The messages that the SwMI sends.
#[derive(Debug, Clone, Copy, PartialEq, Eq, Structural)]
pub enum SwmiMessageKind {
    CellConfig,
    Sc2RolloverPrepare,
    Sc2RolloverCancel,
    Receipt,
    RegistrationDecision,
    AttachmentDecision,
    EnergyEconomyDecision,
    EnergyEconomyRebaseRequest,
    SubscriberStateSync,
    LstRecoveryRequest,
    LstRecoveryResult,
    DeregistrationNotice,
    AuthenticationChallenge,
    AuthenticationResponseDemand,
    AuthenticationResult,
    OtarDownlink,
    LivelinessCheck,
    NeighbourCellSnapshot,
    GroupCallStart,
    GroupCallPriorityChanged,
    FloorPreempted,
    FloorGranted,
    FloorReleased,
    CallDisconnect,
    CallRelease,
    CallReject,
    PrivateCallProceeding,
    PrivateCallOffer,
    PrivateCallAlert,
    PrivateCallReserve,
    PrivateCallConnected,
    PrivateCallRestore,
    PrivateCallEndpointMoved,
    PrivateCallRelease,
    PrivateFloorGranted,
    PrivateFloorReleased,
    PrivateCallKeepalive,
    HandoverReserveGroupCall,
    SdsDeliver,
    SdsFailure,
    StatusDeliver,
    DgnaCommand,
    VoiceFrame,
    PrivateVoiceFrame,
    Other,
}

/// Who a message is for.
#[derive(Debug, Clone, Copy, PartialEq, Eq, Structural)]
pub enum SwmiDestination {
    /// The connection itself.
    Worker,
    /// Mobility management.
    Mm,
    /// Circuit mode control.
    Cmce,
    /// The mobile link entity.
    Mle,
    /// The user plane.
    Media,
    /// Nobody.
    Dropped,
}

/// Who a message is for.
#[verifier::allow_in_spec]
pub fn destination(kind: SwmiMessageKind) -> SwmiDestination
    returns
        (match kind {
            SwmiMessageKind::CellConfig
            | SwmiMessageKind::Sc2RolloverPrepare
            | SwmiMessageKind::Sc2RolloverCancel
            | SwmiMessageKind::Receipt => SwmiDestination::Worker,
            SwmiMessageKind::RegistrationDecision
            | SwmiMessageKind::AttachmentDecision
            | SwmiMessageKind::EnergyEconomyDecision
            | SwmiMessageKind::EnergyEconomyRebaseRequest
            | SwmiMessageKind::SubscriberStateSync
            | SwmiMessageKind::LstRecoveryRequest
            | SwmiMessageKind::LstRecoveryResult
            | SwmiMessageKind::DeregistrationNotice
            | SwmiMessageKind::AuthenticationChallenge
            | SwmiMessageKind::AuthenticationResponseDemand
            | SwmiMessageKind::AuthenticationResult
            | SwmiMessageKind::OtarDownlink
            | SwmiMessageKind::LivelinessCheck => SwmiDestination::Mm,
            SwmiMessageKind::NeighbourCellSnapshot => SwmiDestination::Mle,
            SwmiMessageKind::VoiceFrame | SwmiMessageKind::PrivateVoiceFrame =>
                SwmiDestination::Media,
            SwmiMessageKind::Other => SwmiDestination::Dropped,
            _ => SwmiDestination::Cmce,
        }),
{
    match kind {
        SwmiMessageKind::CellConfig
        | SwmiMessageKind::Sc2RolloverPrepare
        | SwmiMessageKind::Sc2RolloverCancel
        | SwmiMessageKind::Receipt => SwmiDestination::Worker,
        SwmiMessageKind::RegistrationDecision
        | SwmiMessageKind::AttachmentDecision
        | SwmiMessageKind::EnergyEconomyDecision
        | SwmiMessageKind::EnergyEconomyRebaseRequest
        | SwmiMessageKind::SubscriberStateSync
        | SwmiMessageKind::LstRecoveryRequest
        | SwmiMessageKind::LstRecoveryResult
        | SwmiMessageKind::DeregistrationNotice
        | SwmiMessageKind::AuthenticationChallenge
        | SwmiMessageKind::AuthenticationResponseDemand
        | SwmiMessageKind::AuthenticationResult
        | SwmiMessageKind::OtarDownlink
        | SwmiMessageKind::LivelinessCheck => SwmiDestination::Mm,
        SwmiMessageKind::NeighbourCellSnapshot => SwmiDestination::Mle,
        SwmiMessageKind::VoiceFrame | SwmiMessageKind::PrivateVoiceFrame => SwmiDestination::Media,
        SwmiMessageKind::Other => SwmiDestination::Dropped,
        _ => SwmiDestination::Cmce,
    }
}

/// The answer to a command.
#[derive(Debug, Clone, Copy, PartialEq, Eq, Structural)]
pub struct Receipt {
    pub command_id: u64,
    pub accepted: bool,
    pub code: u8,
}

/// A command was carried out.
pub const RECEIPT_DONE: u8 = 0;

/// A command was carried out but could not be reported.
pub const RECEIPT_NOT_REPORTED: u8 = 1;

/// A command was refused.
pub const RECEIPT_REFUSED: u8 = 2;

/// How far a rollover has come.
#[derive(Debug, Clone, Copy, PartialEq, Eq, Structural)]
pub enum Sc2RolloverStatus {
    Prepared,
    Activated,
    Rejected,
    Failed,
}

/// A report on a rollover.
#[derive(Debug, Clone, Copy)]
pub struct RolloverReport {
    pub command_id: u64,
    pub rollover_id: u64,
    pub status: Sc2RolloverStatus,
    pub local_cutover_network_time: Option<u64>,
    pub detail: Option<&'static str>,
}

/// A command to stage a rollover.
#[derive(Debug, Clone, Copy)]
pub struct RolloverPrepare {
    pub command_id: u64,
    pub rollover_id: u64,
    pub active: Sc2AieConfig,
    pub future: Sc2AieConfig,
    pub activation_network_time: u64,
}

/// What a command to stage a rollover leads to: two answers, and, where it was
/// accepted, an announcement by mobility management.
#[derive(Debug, Clone, Copy)]
pub struct PrepareOutcome {
    pub receipt: Receipt,
    pub report: RolloverReport,
    pub announce: bool,
}

/// What a new cell configuration leads to.
#[derive(Debug)]
pub enum CellConfigOutcome {
    /// It is refused.
    Refused(Receipt),
    /// The cell is reported under this number; whether that succeeds decides the
    /// answer.
    Report(u64, SystemInfoReport),
}

/// The runtime name of a cipher.
#[verifier::allow_in_spec]
pub fn runtime_algorithm(algorithm: Sc2TeaAlgorithm) -> RuntimeSc2TeaAlgorithm
    returns
        (match algorithm {
            Sc2TeaAlgorithm::Tea1 => RuntimeSc2TeaAlgorithm::Tea1,
            Sc2TeaAlgorithm::Tea3 => RuntimeSc2TeaAlgorithm::Tea3,
        }),
{
    match algorithm {
        Sc2TeaAlgorithm::Tea1 => RuntimeSc2TeaAlgorithm::Tea1,
        Sc2TeaAlgorithm::Tea3 => RuntimeSc2TeaAlgorithm::Tea3,
    }
}

/// The name of a cipher in a key identity.
#[verifier::allow_in_spec]
pub fn identity_algorithm(algorithm: Sc2TeaAlgorithm) -> AieAlgorithm
    returns
        (match algorithm {
            Sc2TeaAlgorithm::Tea1 => AieAlgorithm::Tea1,
            Sc2TeaAlgorithm::Tea3 => AieAlgorithm::Tea3,
        }),
{
    match algorithm {
        Sc2TeaAlgorithm::Tea1 => AieAlgorithm::Tea1,
        Sc2TeaAlgorithm::Tea3 => AieAlgorithm::Tea3,
    }
}

/// The key that a configuration with key material stands for.
pub open spec fn key_of(sc2: Sc2AieConfig) -> RuntimeSc2Aie {
    RuntimeSc2Aie {
        algorithm: runtime_algorithm(sc2.algorithm),
        sckn: sc2.sckn,
        sck_vn: sc2.sck_vn,
        key: crate::bluestation::aie_state::KeyMaterial::holding(sc2.key->0),
    }
}

/// The encryption settings that a cell configuration stands for, or what it
/// lacks.
pub open spec fn aie_of(cell: CellConfig) -> Result<RuntimeAieConfig, Seq<char>> {
    if !cell.aie.enabled {
        Ok(
            RuntimeAieConfig {
                enabled: false,
                sc1_allowed: cell.aie.sc1_allowed,
                sc2: None,
                rollover: None,
            },
        )
    } else {
        match cell.aie.sc2 {
            None => Err("active SwMI AIE configuration is missing SC2 settings"@),
            Some(sc2) => match sc2.key {
                None => Err("active SwMI SC2 configuration is missing SCK material"@),
                Some(key) => Ok(
                    RuntimeAieConfig {
                        enabled: true,
                        sc1_allowed: cell.aie.sc1_allowed,
                        sc2: Some(key_of(sc2)),
                        rollover: None,
                    },
                ),
            },
        }
    }
}

/// The encryption settings that a cell configuration stands for, or what it
/// lacks.
pub fn runtime_aie_config(cell: &CellConfig) -> (aie: Result<RuntimeAieConfig, &'static str>)
    ensures
        match aie {
            Ok(settings) => aie_of(*cell) == Ok::<RuntimeAieConfig, Seq<char>>(settings),
            Err(text) => aie_of(*cell) == Err::<RuntimeAieConfig, Seq<char>>(text@),
        },
{
    if !cell.aie.enabled {
        return Ok(
            RuntimeAieConfig {
                enabled: false,
                sc1_allowed: cell.aie.sc1_allowed,
                sc2: None,
                rollover: None,
            },
        );
    }
    let sc2: Sc2AieConfig = match cell.aie.sc2 {
        Some(sc2) => sc2,
        None => return Err("active SwMI AIE configuration is missing SC2 settings"),
    };
    let key: [u8; 10] = match sc2.key {
        Some(key) => key,
        None => return Err("active SwMI SC2 configuration is missing SCK material"),
    };
    Ok(
        RuntimeAieConfig {
            enabled: true,
            sc1_allowed: cell.aie.sc1_allowed,
            sc2: Some(
                RuntimeSc2Aie::new(runtime_algorithm(sc2.algorithm), sc2.sckn, sc2.sck_vn, key),
            ),
            rollover: None,
        },
    )
}

/// Why a rollover is refused, if it is.
pub open spec fn prepare_fault(
    aie: RuntimeAieConfig,
    advertised: AdvertisedView,
    prepare: RolloverPrepare,
) -> Option<Seq<char>> {
    if !advertised.tells_time() {
        Some("TETRA Network Time broadcast is not configured"@)
    } else if prepare.future.key is None {
        Some("rollover future SCK is missing"@)
    } else if prepare.active.sckn > 31 {
        Some("invalid rollover active identity"@)
    } else {
        aie.staging_fault(
            prepare.rollover_id,
            active_binding(prepare),
            key_of(prepare.future),
            prepare.activation_network_time,
        )
    }
}

/// The key that a rollover starts from.
pub open spec fn active_binding(prepare: RolloverPrepare) -> RuntimeSc2Binding {
    RuntimeSc2Binding {
        key: Sc2KeyIdentifier {
            algorithm: identity_algorithm(prepare.active.algorithm),
            sckn: prepare.active.sckn,
            sck_vn: prepare.active.sck_vn,
        },
    }
}

/// The reports on steps of rollovers, numbered from `first` on.
pub open spec fn event_reports(events: Seq<RuntimeSc2RolloverEvent>, first: u64) -> Seq<
    RolloverReport,
> {
    Seq::new(
        events.len(),
        |i: int|
            RolloverReport {
                command_id: (first + i) as u64,
                rollover_id: events[i].rollover_id,
                status: if events[i].activated {
                    Sc2RolloverStatus::Activated
                } else {
                    Sc2RolloverStatus::Failed
                },
                local_cutover_network_time: Some(events[i].local_network_time),
                detail: None,
            },
    )
}

/// The state of the connection to the SwMI.
#[derive(Debug, Clone, Copy)]
pub struct SwmiWorker {
    pub profile: LocalRadioProfile,
    /// The SwMI decides; otherwise the station works alone.
    pub online: bool,
    pub heartbeat_sequence: u64,
    pub command_sequence: u64,
    pub current_cell_config: Option<CellConfig>,
    pub last_advertisement_version: u64,
    pub recovery_request_id: Option<u64>,
}

/// Whether a cell configuration was taken as it should be: an incomplete one is
/// refused and changes nothing; otherwise the cell follows it and is reported.
pub open spec fn cell_configured(
    before: SwmiWorker,
    state: StackState,
    command_id: u64,
    cell: CellConfig,
    after: SwmiWorker,
    changed: StackState,
    outcome: CellConfigOutcome,
) -> bool {
    match outcome {
        CellConfigOutcome::Refused(receipt) => {
            &&& aie_of(cell) is Err
            &&& receipt == (Receipt { command_id, accepted: false, code: RECEIPT_REFUSED })
            &&& after == before
            &&& changed == state
        },
        CellConfigOutcome::Report(id, report) => {
            &&& aie_of(cell) is Ok
            &&& id == before.command_sequence
            &&& after == (SwmiWorker {
                current_cell_config: Some(cell),
                command_sequence: (before.command_sequence + 1) as u64,
                ..before
            })
            &&& changed == (StackState {
                authentication_required: cell.authentication_required,
                aie: aie_of(cell)->Ok_0,
                aie_sessions: changed.aie_sessions,
                network_connected: before.online && state.network_connected,
                ..state
            })
            &&& changed.aie_sessions@ == match aie_of(cell)->Ok_0.sc2 {
                Some(key) => state.aie_sessions@.only(RuntimeSc2Binding::of(key)),
                None => crate::bluestation::aie_state::SessionsView::none(),
            }
            &&& report@ == before.profile.reported(
                cell,
                state.network_broadcast@,
                changed.network_connected,
            )
        },
    }
}

/// Whether a rollover was staged and answered as it should be.
pub open spec fn rollover_prepared(
    state: StackState,
    prepare: RolloverPrepare,
    local_time: Option<u64>,
    changed: StackState,
    outcome: PrepareOutcome,
) -> bool {
    let fault = prepare_fault(state.aie, state.network_broadcast@, prepare);
    &&& outcome.announce == (fault is None)
    &&& outcome.receipt == (Receipt {
        command_id: prepare.command_id,
        accepted: fault is None,
        code: if fault is None {
            RECEIPT_DONE
        } else {
            RECEIPT_REFUSED
        },
    })
    &&& changed == if fault is None {
        StackState {
            aie: state.aie.staged(
                prepare.rollover_id,
                key_of(prepare.future),
                prepare.activation_network_time,
            ),
            ..state
        }
    } else {
        state
    }
    &&& outcome.report.command_id == prepare.command_id
    &&& outcome.report.rollover_id == prepare.rollover_id
    &&& outcome.report.status == if fault is Some {
        Sc2RolloverStatus::Rejected
    } else if changed.aie.repeats(prepare.rollover_id) && changed.aie.rollover->0.activated {
        Sc2RolloverStatus::Activated
    } else {
        Sc2RolloverStatus::Prepared
    }
    &&& outcome.report.local_cutover_network_time
        == if state.network_broadcast.broadcast.timezone is Some {
        local_time
    } else {
        None
    }
    &&& match outcome.report.detail {
        Some(text) => fault == Some(text@),
        None => fault is None,
    }
}

/// Whether a rollover was cancelled and answered as it should be: only one that
/// is staged and not active.
pub open spec fn rollover_cancelled(
    state: StackState,
    command_id: u64,
    rollover_id: u64,
    changed: StackState,
    receipt: Receipt,
) -> bool {
    let cancelled = state.aie.repeats(rollover_id) && !state.aie.rollover->0.activated;
    &&& receipt == (Receipt {
        command_id,
        accepted: cancelled,
        code: if cancelled {
            RECEIPT_DONE
        } else {
            RECEIPT_REFUSED
        },
    })
    &&& changed == if cancelled {
        StackState { aie: RuntimeAieConfig { rollover: None, ..state.aie }, ..state }
    } else {
        state
    }
}

/// Whether the answer to a recovery was taken as it should be.
pub open spec fn recovery_taken(
    before: SwmiWorker,
    state: StackState,
    command_id: u64,
    after: SwmiWorker,
    changed: StackState,
    current: bool,
) -> bool {
    &&& current == (before.recovery_request_id == Some(command_id))
    &&& after == if current {
        SwmiWorker { recovery_request_id: None, online: true, ..before }
    } else {
        before
    }
    &&& changed == if current {
        StackState { network_connected: true, ..state }
    } else {
        state
    }
}

/// A message of the SwMI, as far as the connection itself reads it.
#[derive(Debug, Clone, Copy)]
pub enum SwmiCommand {
    CellConfig { command_id: u64, cell: CellConfig },
    Sc2RolloverPrepare(RolloverPrepare),
    Sc2RolloverCancel { command_id: u64, rollover_id: u64 },
    LstRecoveryRequest { command_id: u64 },
    LstRecoveryResult { command_id: u64 },
    /// Any other message.
    Message(SwmiMessageKind),
}

/// What a message of the SwMI leads to.
#[derive(Debug)]
pub enum Reaction {
    CellConfig(CellConfigOutcome),
    Prepare(PrepareOutcome),
    Answer(Receipt),
    /// The cell is to be reported anew, and the message passed on to mobility
    /// management.
    Recovered,
    /// The message is passed on.
    PassOn(SwmiDestination),
    /// The message is stale.
    Ignored,
}

/// Whether a message of the SwMI led to what it should.
pub open spec fn reacted(
    before: SwmiWorker,
    state: StackState,
    command: SwmiCommand,
    local_time: Option<u64>,
    after: SwmiWorker,
    changed: StackState,
    reaction: Reaction,
) -> bool {
    match command {
        SwmiCommand::CellConfig { command_id, cell } => reaction matches Reaction::CellConfig(
            outcome,
        ) && cell_configured(before, state, command_id, cell, after, changed, outcome),
        SwmiCommand::Sc2RolloverPrepare(prepare) => {
            &&& after == before
            &&& reaction matches Reaction::Prepare(outcome) && rollover_prepared(
                state,
                prepare,
                local_time,
                changed,
                outcome,
            )
        },
        SwmiCommand::Sc2RolloverCancel { command_id, rollover_id } => {
            &&& after == before
            &&& reaction matches Reaction::Answer(receipt) && rollover_cancelled(
                state,
                command_id,
                rollover_id,
                changed,
                receipt,
            )
        },
        SwmiCommand::LstRecoveryRequest { command_id } => {
            &&& after == (SwmiWorker { recovery_request_id: Some(command_id), ..before })
            &&& changed == state
            &&& reaction == Reaction::PassOn(SwmiDestination::Mm)
        },
        SwmiCommand::LstRecoveryResult { command_id } => {
            &&& recovery_taken(
                before,
                state,
                command_id,
                after,
                changed,
                before.recovery_request_id == Some(command_id),
            )
            &&& reaction == if before.recovery_request_id == Some(command_id) {
                Reaction::Recovered
            } else {
                Reaction::Ignored
            }
        },
        SwmiCommand::Message(kind) => {
            &&& after == before
            &&& changed == state
            &&& reaction == Reaction::PassOn(destination(kind))
        },
    }
}

/// What the station sends by itself, in this order.
#[derive(Debug)]
pub struct IdleWork {
    pub rollover_reports: Vec<RolloverReport>,
    pub advertisement: Option<(u64, SystemInfoReport)>,
    pub heartbeat: Option<u64>,
}

/// Whether the station sent by itself what it should: the steps of rollovers that
/// wait for it, its settings if they changed since they were reported, and a
/// heartbeat if one is due.
pub open spec fn idled(
    before: SwmiWorker,
    state: StackState,
    heartbeat_due: bool,
    after: SwmiWorker,
    changed: StackState,
    work: IdleWork,
) -> bool {
    let events = state.sc2_rollover_events@;
    let next = (before.command_sequence + events.len()) as u64;
    let due = before.current_cell_config is Some && state.network_broadcast.version
        != before.last_advertisement_version;
    &&& work.rollover_reports@ == event_reports(events, before.command_sequence)
    &&& match work.advertisement {
        Some((id, report)) => due && id == next && report@ == before.profile.reported(
            before.current_cell_config->0,
            state.network_broadcast@,
            state.network_connected,
        ),
        None => !due,
    }
    &&& work.heartbeat == if heartbeat_due {
        Some((before.heartbeat_sequence + 1) as u64)
    } else {
        None
    }
    &&& after == (SwmiWorker {
        command_sequence: if due {
            (next + 1) as u64
        } else {
            next
        },
        heartbeat_sequence: if heartbeat_due {
            (before.heartbeat_sequence + 1) as u64
        } else {
            before.heartbeat_sequence
        },
        ..before
    })
    &&& changed.sc2_rollover_events@.len() == 0
    &&& changed == (StackState {
        sc2_rollover_events: changed.sc2_rollover_events,
        ..state
    })
}

impl SwmiWorker {
    /// The station works alone, and nothing was reported.
    pub fn new(profile: LocalRadioProfile) -> (worker: Self)
        ensures
            worker == (SwmiWorker {
                profile,
                online: false,
                heartbeat_sequence: 0,
                command_sequence: 1,
                current_cell_config: None,
                last_advertisement_version: 0,
                recovery_request_id: None,
            }),
    {
        SwmiWorker {
            profile,
            online: false,
            heartbeat_sequence: 0,
            command_sequence: 1,
            current_cell_config: None,
            last_advertisement_version: 0,
            recovery_request_id: None,
        }
    }

    /// The connection is lost, or could not be made: the station works alone.
    pub fn connection_lost(&mut self, state: &mut StackState)
        ensures
            *final(self) == (SwmiWorker { online: false, ..*old(self) }),
            *final(state) == (StackState { network_connected: false, ..*old(state) }),
            old(state).wf() ==> final(state).wf(),
    {
        self.online = false;
        state.network_connected = false;
    }

    /// The connection is made: what was asked over an earlier one is void.
    pub fn connected(&mut self)
        ensures
            *final(self) == (SwmiWorker { recovery_request_id: None, ..*old(self) }),
    {
        self.recovery_request_id = None;
    }

    fn next_command_id(&mut self) -> (id: u64)
        requires
            old(self).command_sequence < u64::MAX,
        ensures
            id == old(self).command_sequence,
            *final(self) == (SwmiWorker {
                command_sequence: (old(self).command_sequence + 1) as u64,
                ..*old(self)
            }),
    {
        let id: u64 = self.command_sequence;
        self.command_sequence = self.command_sequence + 1;
        id
    }

    /// The report of the cell with its number, if the SwMI has configured it.
    pub fn report_current_advertisement(&mut self, state: &StackState) -> (report: Option<
        (u64, SystemInfoReport),
    >)
        requires
            old(self).command_sequence < u64::MAX,
        ensures
            match (old(self).current_cell_config, report) {
                (None, None) => *final(self) == *old(self),
                (Some(cell), Some((id, told))) => {
                    &&& id == old(self).command_sequence
                    &&& told@ == old(self).profile.reported(
                        cell,
                        state.network_broadcast@,
                        state.network_connected,
                    )
                    &&& *final(self) == (SwmiWorker {
                        command_sequence: (old(self).command_sequence + 1) as u64,
                        ..*old(self)
                    })
                },
                _ => false,
            },
    {
        let cell: CellConfig = match self.current_cell_config {
            Some(cell) => cell,
            None => return None,
        };
        let command_id: u64 = self.next_command_id();
        Some(
            (
                command_id,
                self.profile.report(cell, &state.network_broadcast, state.network_connected),
            ),
        )
    }

    /// A report went out, or did not: its version is remembered only if it did.
    pub fn advertisement_sent(&mut self, version: u64, sent: bool)
        ensures
            *final(self) == (SwmiWorker {
                last_advertisement_version: if sent {
                    version
                } else {
                    old(self).last_advertisement_version
                },
                ..*old(self)
            }),
    {
        if sent {
            self.last_advertisement_version = version;
        }
    }

    /// Whether the settings of the broadcast changed since they were reported.
    pub fn advertisement_due(&self, state: &StackState) -> (due: bool)
        ensures
            due == (self.current_cell_config is Some && state.network_broadcast.version
                != self.last_advertisement_version),
    {
        self.current_cell_config.is_some() && state.network_broadcast.version
            != self.last_advertisement_version
    }

    /// The SwMI configures the cell. While the connection already serves, that is
    /// a live change of policy and takes nothing down. Sessions that are bound to
    /// another key than the configured one end.
    pub fn rx_cell_config(
        &mut self,
        state: &mut StackState,
        command_id: u64,
        cell: CellConfig,
    ) -> (outcome: CellConfigOutcome)
        requires
            old(state).wf(),
            old(self).command_sequence < u64::MAX,
            aie_of(cell) matches Ok(aie) ==> aie.wf(),
        ensures
            final(state).wf(),
            cell_configured(
                *old(self),
                *old(state),
                command_id,
                cell,
                *final(self),
                *final(state),
                outcome,
            ),
    {
        let aie: RuntimeAieConfig = match runtime_aie_config(&cell) {
            Ok(aie) => aie,
            Err(_) => {
                return CellConfigOutcome::Refused(
                    Receipt { command_id, accepted: false, code: RECEIPT_REFUSED },
                );
            },
        };
        state.authentication_required = cell.authentication_required;
        state.aie = aie;
        match &aie.sc2 {
            Some(key) => state.aie_sessions.retain_current_key(Some(key)),
            None => state.aie_sessions.retain_current_key(None),
        }
        if !self.online {
            state.network_connected = false;
        }
        self.current_cell_config = Some(cell);
        let id: u64 = self.next_command_id();
        let report: SystemInfoReport = self.profile.report(
            cell,
            &state.network_broadcast,
            state.network_connected,
        );
        CellConfigOutcome::Report(id, report)
    }

    /// The report that followed a cell configuration went out, or did not: the
    /// answer to the configuration.
    pub fn cell_config_reported(
        &mut self,
        state: &StackState,
        command_id: u64,
        sent: bool,
    ) -> (receipt: Receipt)
        ensures
            receipt == (Receipt {
                command_id,
                accepted: sent,
                code: if sent {
                    RECEIPT_DONE
                } else {
                    RECEIPT_NOT_REPORTED
                },
            }),
            *final(self) == (SwmiWorker {
                last_advertisement_version: if sent {
                    state.network_broadcast.version
                } else {
                    old(self).last_advertisement_version
                },
                ..*old(self)
            }),
    {
        self.advertisement_sent(state.network_broadcast.version, sent);
        Receipt {
            command_id,
            accepted: sent,
            code: if sent {
                RECEIPT_DONE
            } else {
                RECEIPT_NOT_REPORTED
            },
        }
    }

    /// The SwMI stages a rollover. `local_time` is the network time of the
    /// station's time zone, where it can be told.
    pub fn rx_sc2_rollover_prepare(
        &self,
        state: &mut StackState,
        prepare: RolloverPrepare,
        local_time: Option<u64>,
    ) -> (outcome: PrepareOutcome)
        requires
            old(state).wf(),
        ensures
            prepare.future.sckn <= 31 ==> final(state).wf(),
            rollover_prepared(*old(state), prepare, local_time, *final(state), outcome),
    {
        let detail: Option<&'static str> = match stage(state, &prepare) {
            Ok(_) => None,
            Err(text) => Some(text),
        };
        let accepted: bool = detail.is_none();
        let already_activated: bool = accepted && state.aie.rollover_is_activated(
            prepare.rollover_id,
        );
        let local_cutover_network_time: Option<u64> =
            if state.network_broadcast.broadcast.timezone.is_some() {
            local_time
        } else {
            None
        };
        PrepareOutcome {
            receipt: Receipt {
                command_id: prepare.command_id,
                accepted,
                code: if accepted {
                    RECEIPT_DONE
                } else {
                    RECEIPT_REFUSED
                },
            },
            report: RolloverReport {
                command_id: prepare.command_id,
                rollover_id: prepare.rollover_id,
                status: if !accepted {
                    Sc2RolloverStatus::Rejected
                } else if already_activated {
                    Sc2RolloverStatus::Activated
                } else {
                    Sc2RolloverStatus::Prepared
                },
                local_cutover_network_time,
                detail,
            },
            announce: accepted,
        }
    }

    /// The SwMI cancels a rollover: only one that is staged and not active.
    pub fn rx_sc2_rollover_cancel(
        &self,
        state: &mut StackState,
        command_id: u64,
        rollover_id: u64,
    ) -> (receipt: Receipt)
        ensures
            rollover_cancelled(*old(state), command_id, rollover_id, *final(state), receipt),
            old(state).wf() ==> final(state).wf(),
    {
        let cancelled: bool = state.aie.cancel_staged_rollover(rollover_id);
        Receipt {
            command_id,
            accepted: cancelled,
            code: if cancelled {
                RECEIPT_DONE
            } else {
                RECEIPT_REFUSED
            },
        }
    }

    /// The SwMI asks for what the station knows.
    pub fn rx_lst_recovery_request(&mut self, command_id: u64)
        ensures
            *final(self) == (SwmiWorker { recovery_request_id: Some(command_id), ..*old(self) }),
    {
        self.recovery_request_id = Some(command_id);
    }

    /// The SwMI has taken what the station knows: from now on it decides. An
    /// answer to another request than the last one is stale and changes nothing.
    /// Tells whether the cell is to be reported anew and the message passed on.
    pub fn rx_lst_recovery_result(
        &mut self,
        state: &mut StackState,
        command_id: u64,
    ) -> (current: bool)
        ensures
            recovery_taken(
                *old(self),
                *old(state),
                command_id,
                *final(self),
                *final(state),
                current,
            ),
            old(state).wf() ==> final(state).wf(),
    {
        let current: bool = match self.recovery_request_id {
            Some(expected) => expected == command_id,
            None => false,
        };
        if current {
            self.recovery_request_id = None;
            self.online = true;
            state.network_connected = true;
        }
        current
    }

    /// Reports the steps of rollovers that wait for it.
    pub fn rollover_reports(&mut self, state: &mut StackState) -> (reports: Vec<RolloverReport>)
        requires
            old(self).command_sequence + old(state).sc2_rollover_events@.len() <= u64::MAX,
        ensures
            reports@ == event_reports(
                old(state).sc2_rollover_events@,
                old(self).command_sequence,
            ),
            final(state).sc2_rollover_events@.len() == 0,
            *final(state) == (StackState {
                sc2_rollover_events: final(state).sc2_rollover_events,
                ..*old(state)
            }),
            *final(self) == (SwmiWorker {
                command_sequence: (old(self).command_sequence + old(state).sc2_rollover_events@.len()) as u64,
                ..*old(self)
            }),
    {
        let ghost first = self.command_sequence;
        let ghost events = state.sc2_rollover_events@;
        let ghost before = *self;
        let mut reports: Vec<RolloverReport> = Vec::new();
        let mut i: usize = 0;
        while i < state.sc2_rollover_events.len()
            invariant
                i <= events.len(),
                state.sc2_rollover_events@ == events,
                first + events.len() <= u64::MAX,
                before.command_sequence == first,
                *self == (SwmiWorker { command_sequence: (first + i) as u64, ..before }),
                reports@ == event_reports(events, first).take(i as int),
            decreases events.len() - i,
        {
            let event: RuntimeSc2RolloverEvent = state.sc2_rollover_events[i];
            let command_id: u64 = self.next_command_id();
            reports.push(
                RolloverReport {
                    command_id,
                    rollover_id: event.rollover_id,
                    status: if event.activated {
                        Sc2RolloverStatus::Activated
                    } else {
                        Sc2RolloverStatus::Failed
                    },
                    local_cutover_network_time: Some(event.local_network_time),
                    detail: None,
                },
            );
            i = i + 1;
            assert(reports@ =~= event_reports(events, first).take(i as int));
        }
        assert(reports@ =~= event_reports(events, first));
        state.sc2_rollover_events = Vec::new();
        reports
    }

    /// A message of the SwMI. `local_time` is the network time of the station's
    /// time zone, where it can be told.
    pub fn received(
        &mut self,
        state: &mut StackState,
        command: SwmiCommand,
        local_time: Option<u64>,
    ) -> (reaction: Reaction)
        requires
            old(state).wf(),
            old(self).command_sequence < u64::MAX,
            command matches SwmiCommand::CellConfig { cell, .. } ==> (aie_of(cell) matches Ok(aie)
                ==> aie.wf()),
        ensures
            reacted(
                *old(self),
                *old(state),
                command,
                local_time,
                *final(self),
                *final(state),
                reaction,
            ),
            (command matches SwmiCommand::Sc2RolloverPrepare(prepare) ==> prepare.future.sckn <= 31)
                ==> final(state).wf(),
    {
        match command {
            SwmiCommand::CellConfig { command_id, cell } => Reaction::CellConfig(
                self.rx_cell_config(state, command_id, cell),
            ),
            SwmiCommand::Sc2RolloverPrepare(prepare) => Reaction::Prepare(
                self.rx_sc2_rollover_prepare(state, prepare, local_time),
            ),
            SwmiCommand::Sc2RolloverCancel { command_id, rollover_id } => Reaction::Answer(
                self.rx_sc2_rollover_cancel(state, command_id, rollover_id),
            ),
            SwmiCommand::LstRecoveryRequest { command_id } => {
                self.rx_lst_recovery_request(command_id);
                Reaction::PassOn(SwmiDestination::Mm)
            },
            SwmiCommand::LstRecoveryResult { command_id } => if self.rx_lst_recovery_result(
                state,
                command_id,
            ) {
                Reaction::Recovered
            } else {
                Reaction::Ignored
            },
            SwmiCommand::Message(kind) => Reaction::PassOn(destination(kind)),
        }
    }

    /// What the station sends by itself: the steps of rollovers, its settings if
    /// they changed since they were reported, and a heartbeat if one is due.
    pub fn idle(&mut self, state: &mut StackState, heartbeat_due: bool) -> (work: IdleWork)
        requires
            old(self).command_sequence + old(state).sc2_rollover_events@.len() < u64::MAX,
            old(self).heartbeat_sequence < u64::MAX,
        ensures
            idled(*old(self), *old(state), heartbeat_due, *final(self), *final(state), work),
            old(state).wf() ==> final(state).wf(),
    {
        let rollover_reports: Vec<RolloverReport> = self.rollover_reports(state);
        let advertisement: Option<(u64, SystemInfoReport)> = if self.advertisement_due(state) {
            self.report_current_advertisement(state)
        } else {
            None
        };
        let heartbeat: Option<u64> = if heartbeat_due {
            Some(self.next_heartbeat())
        } else {
            None
        };
        IdleWork { rollover_reports, advertisement, heartbeat }
    }

    /// The number of the next heartbeat.
    pub fn next_heartbeat(&mut self) -> (sequence: u64)
        requires
            old(self).heartbeat_sequence < u64::MAX,
        ensures
            sequence == old(self).heartbeat_sequence + 1,
            *final(self) == (SwmiWorker { heartbeat_sequence: sequence, ..*old(self) }),
    {
        self.heartbeat_sequence = self.heartbeat_sequence + 1;
        self.heartbeat_sequence
    }
}

fn stage(state: &mut StackState, prepare: &RolloverPrepare) -> (result: Result<(), &'static str>)
    requires
        old(state).wf(),
    ensures
        prepare.future.sckn <= 31 ==> final(state).wf(),
        match result {
            Ok(_) => prepare_fault(old(state).aie, old(state).network_broadcast@, *prepare) is None
                && *final(state) == (StackState {
                aie: old(state).aie.staged(
                    prepare.rollover_id,
                    key_of(prepare.future),
                    prepare.activation_network_time,
                ),
                ..*old(state)
            }),
            Err(text) => prepare_fault(old(state).aie, old(state).network_broadcast@, *prepare)
                == Some(text@) && *final(state) == *old(state),
        },
{
    if !state.network_broadcast.tells_time() {
        return Err("TETRA Network Time broadcast is not configured");
    }
    let key: [u8; 10] = match prepare.future.key {
        Some(key) => key,
        None => return Err("rollover future SCK is missing"),
    };
    let active: Sc2KeyIdentifier = match Sc2KeyIdentifier::new(
        identity_algorithm(prepare.active.algorithm),
        prepare.active.sckn,
        prepare.active.sck_vn,
    ) {
        Some(active) => active,
        None => return Err("invalid rollover active identity"),
    };
    let future: RuntimeSc2Aie = RuntimeSc2Aie::new(
        runtime_algorithm(prepare.future.algorithm),
        prepare.future.sckn,
        prepare.future.sck_vn,
        key,
    );
    state.aie.stage_rollover(
        prepare.rollover_id,
        RuntimeSc2Binding { key: active },
        future,
        prepare.activation_network_time,
    )
}

/// After a cell configuration every session that is left, of a terminal or of a
/// call, is bound to the key in use; with encryption off none is left.
pub proof fn law_sessions_follow_the_configured_key(
    cell: CellConfig,
    sessions: crate::bluestation::aie_state::SessionsView,
    issi: u32,
    call_id: u32,
    subject: crate::aie::AieSubject,
)
    requires
        sessions.wf(),
        aie_of(cell) is Ok,
    ensures
        ({
            let key = aie_of(cell)->Ok_0.sc2;
            let left = match key {
                Some(current) => sessions.only(RuntimeSc2Binding::of(current)),
                None => crate::bluestation::aie_state::SessionsView::none(),
            };
            &&& left.terminal(issi) matches Some(binding) ==> key is Some && binding
                == RuntimeSc2Binding::of(key->0)
            &&& left.call(call_id, subject) matches Some(binding) ==> key is Some && binding
                == RuntimeSc2Binding::of(key->0)
        }),
{
    let current = match aie_of(cell)->Ok_0.sc2 {
        Some(key) => RuntimeSc2Binding::of(key),
        None => RuntimeSc2Binding {
            key: Sc2KeyIdentifier { algorithm: AieAlgorithm::Tea1, sckn: 0, sck_vn: 0 },
        },
    };
    crate::bluestation::aie_state::law_former_keys_are_dropped(
        sessions,
        current,
        issi,
        call_id,
        subject,
    );
}

} // verus!
