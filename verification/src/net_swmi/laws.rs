//! What the link to the central SwMI is for, stated of what comes in and what
//! follows from it.
use crate::bluestation::aie_state::RuntimeSc2TeaAlgorithm;
use crate::bluestation::network_broadcast::AdvertisedView;
use crate::bluestation::sec_cell::CfgCellInfo;
use crate::bluestation::state::StackState;
use crate::net_swmi::entity::{
    ActivePrivateVoice, ActiveVoiceCall, MediaControl, MediaMessageView, MediaView, UplinkVoice,
};
use crate::net_swmi::profile::LocalRadioProfile;
use crate::net_swmi::protocol::{CellConfig, Sc2TeaAlgorithm};
use crate::net_swmi::worker::{
    CellConfigOutcome, IdleWork, Reaction, RolloverPrepare, Sc2RolloverStatus, SwmiCommand,
    SwmiDestination, SwmiMessageKind, SwmiWorker,
};
use crate::swmi::SwmiEndpoint;
use vstd::prelude::*;

verus! {

// ---------------------------------------------------------------------------
// What the cell tells of itself
// ---------------------------------------------------------------------------

/// What a cell reports of itself is what it is configured to be: its carrier and
/// radio parameters are those of the station, its network and area those that the
/// SwMI gave it, its load and neighbours those that hold now.
pub proof fn law_cell_reports_what_it_is(
    configured: CfgCellInfo,
    synchronized: bool,
    offset: u8,
    cell: CellConfig,
    runtime: AdvertisedView,
    connected: bool,
)
    ensures
        ({
            let profile = LocalRadioProfile::of_cell(configured, synchronized, offset);
            let report = profile.reported(cell, runtime, connected);
            &&& report.info.main_carrier == configured.main_carrier
            &&& report.info.frequency_band == configured.freq_band
            &&& report.info.frequency_offset_hz == configured.freq_offset_hz
            &&& report.info.duplex_spacing_id == configured.duplex_spacing_id
            &&& report.info.reverse_operation == configured.reverse_operation
            &&& report.info.colour_code == configured.colour_code
            &&& report.info.system_code == configured.system_code
            &&& report.info.ms_txpwr_max_cell == configured.ms_txpwr_max_cell
            &&& report.info.rxlev_access_min == configured.rxlev_access_min
            &&& report.info.subscriber_class == configured.subscriber_class
            &&& report.info.synchronized == synchronized
            &&& report.info.tdma_frame_offset == offset
            &&& report.info.cell == cell
            &&& report.info.report_version == cell.config_version
            &&& report.info.cell_load_ca == runtime.broadcast.cell_load_ca
            &&& report.neighbours == runtime.neighbours
        }),
{
}

/// A cell that reports itself to the SwMI, and is then a neighbour of another, is
/// broadcast there as it is configured: on its own carrier, in its own network
/// and area, and with the services that it has.
pub proof fn law_reported_cell_is_found_by_others(
    configured: CfgCellInfo,
    synchronized: bool,
    offset: u8,
    cell: CellConfig,
    runtime: AdvertisedView,
    connected: bool,
    identifier: u8,
    station: Seq<char>,
)
    ensures
        ({
            let profile = LocalRadioProfile::of_cell(configured, synchronized, offset);
            let air = crate::mle::broadcast::on_air(
                crate::mle::broadcast::NeighbourView {
                    cell_identifier_ca: identifier,
                    station_id: station,
                    report: profile.reported(cell, runtime, connected),
                },
            );
            &&& air.main_carrier_number == configured.main_carrier
            &&& air.cell_identifier_ca == identifier
            &&& air.mcc == Some(cell.mcc) && air.mnc == Some(cell.mnc)
            &&& air.location_area == Some(cell.location_area)
            &&& air.bs_service_details matches Some(services) && {
                &&& services.registration == configured.registration
                &&& services.deregistration == configured.deregistration
                &&& services.priority_cell == configured.priority_cell
                &&& services.no_minimum_mode == configured.no_minimum_mode
                &&& services.migration == configured.migration
                &&& services.voice_service == configured.voice_service
                &&& services.circuit_mode_data_service == configured.circuit_mode_data_service
                &&& services.sndcp_service == configured.sndcp_service
                &&& services.advanced_link == configured.advanced_link
                &&& services.system_wide_services == connected
                &&& services.aie_service == cell.aie.enabled
            }
        }),
{
    let profile = LocalRadioProfile::of_cell(configured, synchronized, offset);
    crate::net_swmi::profile::law_neighbours_see_the_live_services(
        profile,
        cell,
        runtime,
        connected,
    );
    crate::net_swmi::protocol::law_services_are_read_back(
        crate::net_swmi::protocol::BsServiceDetails {
            registration: configured.registration,
            deregistration: configured.deregistration,
            priority_cell: configured.priority_cell,
            no_minimum_mode: configured.no_minimum_mode,
            migration: configured.migration,
            system_wide_services: configured.system_wide_services,
            voice_service: configured.voice_service,
            circuit_mode_data_service: configured.circuit_mode_data_service,
            sndcp_service: configured.sndcp_service,
            aie_service: configured.aie_service,
            advanced_link: configured.advanced_link,
        },
    );
}

// ---------------------------------------------------------------------------
// Commands
// ---------------------------------------------------------------------------

/// Whether the encryption of a cell configuration is complete.
pub open spec fn is_complete(cell: CellConfig) -> bool {
    cell.aie.enabled ==> cell.aie.sc2 is Some && (cell.aie.sc2->0).key is Some
}

/// A complete cell configuration is taken: whether terminals authenticate, and
/// whether and with which key the air is encrypted, is what the SwMI said; the
/// cell is reported under the next number. While the station works alone it goes
/// on working alone. An incomplete one is refused, under its number, and changes
/// nothing.
pub proof fn law_configuration_is_taken_or_refused(
    before: SwmiWorker,
    state: StackState,
    id: u64,
    cell: CellConfig,
    local_time: Option<u64>,
    after: SwmiWorker,
    changed: StackState,
    reaction: Reaction,
)
    requires
        crate::net_swmi::worker::reacted(
            before,
            state,
            SwmiCommand::CellConfig { command_id: id, cell },
            local_time,
            after,
            changed,
            reaction,
        ),
    ensures
        reaction matches Reaction::CellConfig(outcome) && match outcome {
            CellConfigOutcome::Refused(receipt) => {
                &&& !is_complete(cell)
                &&& receipt.command_id == id && !receipt.accepted && receipt.code == 2
                &&& changed == state && after == before
            },
            CellConfigOutcome::Report(number, report) => {
                &&& is_complete(cell)
                &&& number == before.command_sequence
                &&& report@.info.cell == cell
                &&& report@.info.main_carrier == before.profile.main_carrier
                &&& after.current_cell_config == Some(cell)
                &&& changed.authentication_required == cell.authentication_required
                &&& changed.aie.enabled == cell.aie.enabled
                &&& changed.aie.sc1_allowed == cell.aie.sc1_allowed
                &&& changed.aie.rollover is None
                &&& changed.aie.sc2 is Some <==> cell.aie.enabled
                &&& cell.aie.enabled ==> {
                    &&& (changed.aie.sc2->0).sckn == (cell.aie.sc2->0).sckn
                    &&& (changed.aie.sc2->0).sck_vn == (cell.aie.sc2->0).sck_vn
                    &&& (changed.aie.sc2->0).key@ == ((cell.aie.sc2->0).key->0)@
                    &&& (changed.aie.sc2->0).algorithm == RuntimeSc2TeaAlgorithm::Tea1 <==> (
                    cell.aie.sc2->0).algorithm == Sc2TeaAlgorithm::Tea1
                }
                &&& changed.network_connected <==> before.online && state.network_connected
                &&& changed.subscribers == state.subscribers
                &&& changed.network_broadcast == state.network_broadcast
            },
        },
{
    if cell.aie.enabled && is_complete(cell) {
        crate::bluestation::aie_state::law_key_material_holds_its_bytes(
            (cell.aie.sc2->0).key->0,
        );
    }
}

/// A rollover that the SwMI announces where none is known is accepted exactly if
/// network time is broadcast, the key is there, the station uses the key that the
/// SwMI thinks it uses, and the new key has the same algorithm, another number
/// and the next version, for a time that is one. An accepted rollover is staged
/// with that key for that time, answered as prepared and announced; a refused one
/// is answered as rejected and changes nothing. Either way the key in use stays.
pub proof fn law_rollover_is_staged_or_refused(
    before: SwmiWorker,
    state: StackState,
    prepare: RolloverPrepare,
    local_time: Option<u64>,
    after: SwmiWorker,
    changed: StackState,
    reaction: Reaction,
)
    requires
        crate::net_swmi::worker::reacted(
            before,
            state,
            SwmiCommand::Sc2RolloverPrepare(prepare),
            local_time,
            after,
            changed,
            reaction,
        ),
        state.aie.rollover is None,
        state.aie.sc2 is Some,
        prepare.active.sckn <= 31,
    ensures
        ({
            let current = state.aie.sc2->0;
            let same_cipher = |a: Sc2TeaAlgorithm|
                (a == Sc2TeaAlgorithm::Tea1 && current.algorithm == RuntimeSc2TeaAlgorithm::Tea1)
                    || (a == Sc2TeaAlgorithm::Tea3 && current.algorithm
                    == RuntimeSc2TeaAlgorithm::Tea3);
            let good = {
                &&& state.network_broadcast.broadcast.time_enabled
                &&& state.network_broadcast.broadcast.timezone is Some
                &&& prepare.future.key is Some
                &&& state.aie.enabled
                &&& prepare.activation_network_time < 281474976710656
                &&& same_cipher(prepare.active.algorithm)
                &&& prepare.active.sckn == current.sckn && prepare.active.sck_vn == current.sck_vn
                &&& same_cipher(prepare.future.algorithm)
                &&& prepare.future.sckn != current.sckn
                &&& prepare.future.sck_vn == (current.sck_vn + 1) % 65536
            };
            reaction matches Reaction::Prepare(outcome) && {
                &&& outcome.receipt.command_id == prepare.command_id
                &&& outcome.receipt.accepted == good
                &&& outcome.receipt.code == if good {
                    0u8
                } else {
                    2u8
                }
                &&& outcome.announce == good
                &&& outcome.report.rollover_id == prepare.rollover_id
                &&& outcome.report.status == if good {
                    Sc2RolloverStatus::Prepared
                } else {
                    Sc2RolloverStatus::Rejected
                }
                &&& outcome.report.detail is None <==> good
                &&& !good ==> changed == state
                &&& good ==> (changed.aie.rollover matches Some(staged) && {
                    &&& staged.rollover_id == prepare.rollover_id
                    &&& staged.activation_network_time == prepare.activation_network_time
                    &&& !staged.activated && staged.local_activation_tdma is None
                    &&& staged.future.sckn == prepare.future.sckn
                    &&& staged.future.sck_vn == prepare.future.sck_vn
                    &&& staged.future.key@ == (prepare.future.key->0)@
                })
                &&& changed.aie.sc2 == state.aie.sc2 && changed.aie.enabled == state.aie.enabled
            }
        }),
{
    if prepare.future.key is Some {
        crate::bluestation::aie_state::law_key_material_holds_its_bytes(prepare.future.key->0);
    }
}

/// A rollover is cancelled exactly if it is the one that is staged and its key is
/// not in use yet; the answer says whether it was. The key in use stays.
pub proof fn law_staged_rollover_can_be_cancelled(
    before: SwmiWorker,
    state: StackState,
    id: u64,
    rollover: u64,
    local_time: Option<u64>,
    after: SwmiWorker,
    changed: StackState,
    reaction: Reaction,
)
    requires
        crate::net_swmi::worker::reacted(
            before,
            state,
            SwmiCommand::Sc2RolloverCancel { command_id: id, rollover_id: rollover },
            local_time,
            after,
            changed,
            reaction,
        ),
    ensures
        ({
            let staged = state.aie.rollover is Some && (state.aie.rollover->0).rollover_id
                == rollover && !(state.aie.rollover->0).activated;
            reaction matches Reaction::Answer(receipt) && {
                &&& receipt.command_id == id
                &&& receipt.accepted == staged
                &&& receipt.code == if staged {
                    0u8
                } else {
                    2u8
                }
                &&& staged ==> changed.aie.rollover is None
                &&& !staged ==> changed == state
                &&& changed.aie.sc2 == state.aie.sc2
            }
        }),
{
}

/// The station is connected for its terminals only from when the SwMI has taken
/// what the station knew, as an answer to the last request for it; an answer to
/// another request is ignored.
pub proof fn law_connected_only_after_recovery(
    before: SwmiWorker,
    state: StackState,
    id: u64,
    local_time: Option<u64>,
    after: SwmiWorker,
    changed: StackState,
    reaction: Reaction,
)
    requires
        crate::net_swmi::worker::reacted(
            before,
            state,
            SwmiCommand::LstRecoveryResult { command_id: id },
            local_time,
            after,
            changed,
            reaction,
        ),
    ensures
        before.recovery_request_id == Some(id) ==> after.online && changed.network_connected
            && reaction == Reaction::Recovered && after.recovery_request_id is None,
        before.recovery_request_id != Some(id) ==> after == before && changed == state && reaction
            == Reaction::Ignored,
{
}

/// Every message of the SwMI goes to the entity that acts on it: what concerns
/// registration, groups, authentication, energy economy and recovery to mobility
/// management, neighbours to the mobile link entity, speech to the user plane,
/// cell and keys to the link itself, and calls and short data to circuit mode
/// control.
pub proof fn law_messages_go_to_their_entity(kind: SwmiMessageKind)
    ensures
        ({
            let to = crate::net_swmi::worker::destination(kind);
            &&& to == SwmiDestination::Worker <==> kind is CellConfig || kind is Sc2RolloverPrepare
                || kind is Sc2RolloverCancel || kind is Receipt
            &&& to == SwmiDestination::Mm <==> kind is RegistrationDecision || kind
                is AttachmentDecision || kind is EnergyEconomyDecision || kind
                is EnergyEconomyRebaseRequest || kind is SubscriberStateSync || kind
                is LstRecoveryRequest || kind is LstRecoveryResult || kind is DeregistrationNotice
                || kind is AuthenticationChallenge || kind is AuthenticationResponseDemand || kind
                is AuthenticationResult || kind is OtarDownlink || kind is LivelinessCheck
            &&& to == SwmiDestination::Mle <==> kind is NeighbourCellSnapshot
            &&& to == SwmiDestination::Media <==> kind is VoiceFrame || kind is PrivateVoiceFrame
            &&& to == SwmiDestination::Dropped <==> kind is Other
        }),
{
}

/// What the station sends by itself: each step of a rollover that waits, once, in
/// its order and under a number of its own; its settings exactly if they have
/// changed since they were reported; and the next heartbeat exactly if one is
/// due.
pub proof fn law_station_reports_by_itself(
    before: SwmiWorker,
    state: StackState,
    heartbeat_due: bool,
    after: SwmiWorker,
    changed: StackState,
    work: IdleWork,
    i: int,
)
    requires
        crate::net_swmi::worker::idled(before, state, heartbeat_due, after, changed, work),
        before.command_sequence + state.sc2_rollover_events@.len() < u64::MAX,
        before.heartbeat_sequence < u64::MAX,
        0 <= i < state.sc2_rollover_events@.len(),
    ensures
        work.rollover_reports@.len() == state.sc2_rollover_events@.len(),
        work.rollover_reports@[i].command_id == before.command_sequence + i,
        work.rollover_reports@[i].rollover_id == state.sc2_rollover_events@[i].rollover_id,
        work.rollover_reports@[i].status == Sc2RolloverStatus::Activated
            <==> state.sc2_rollover_events@[i].activated,
        work.rollover_reports@[i].local_cutover_network_time == Some(
            state.sc2_rollover_events@[i].local_network_time,
        ),
        changed.sc2_rollover_events@.len() == 0,
        work.advertisement is Some <==> before.current_cell_config is Some
            && state.network_broadcast.version != before.last_advertisement_version,
        work.advertisement is Some ==> (work.advertisement->0).0 == before.command_sequence
            + state.sc2_rollover_events@.len(),
        work.advertisement is Some ==> (work.advertisement->0).1@.info.cell
            == before.current_cell_config->0,
        work.heartbeat is Some <==> heartbeat_due,
        heartbeat_due ==> work.heartbeat->0 == before.heartbeat_sequence + 1
            && after.heartbeat_sequence == work.heartbeat->0,
        changed.network_connected == state.network_connected,
{
}

// ---------------------------------------------------------------------------
// Speech
// ---------------------------------------------------------------------------

/// Speech that a terminal sends on a timeslot goes, whole, to the call that is
/// carried there and in the name of its speaker: a group call to the connected
/// SwMI, for its group; a private call to the circuit of the other party if that
/// is here, and otherwise to the connected SwMI for the other party. Speech on a
/// timeslot without a call goes nowhere.
pub proof fn law_speech_goes_to_its_call(
    media: MediaView,
    link: SwmiEndpoint,
    ts: u8,
    data: Seq<u8>,
)
    requires
        link.present && link.online && link.accepting,
    ensures
        ({
            let private = crate::table::lookup(media.private, ts);
            let group = crate::table::lookup(media.calls, ts);
            match media.uplink(link, ts, data) {
                UplinkVoice::Dropped => (private is None && group is None) || (private is Some
                    && data.len() != 35 && data.len() != 36 && data.len() != 274),
                UplinkVoice::ToPeer(peer) => private is Some && exists|i: int|
                    0 <= i < media.private.len() && (#[trigger] media.private[i]).0 == peer
                        && media.private[i].1.call_id == (private->0).call_id
                        && media.private[i].1.source_itsi == (private->0).destination_itsi,
                UplinkVoice::ToSwmi(MediaMessageView::PrivateVoice {
                    call_id,
                    source_itsi,
                    destination_itsi,
                    length_bits,
                    data: sent,
                }) => private is Some && call_id == (private->0).call_id && source_itsi == (
                private->0).source_itsi && destination_itsi == (private->0).destination_itsi
                    && sent == data && (data.len() == 274 ==> length_bits == 274) && (data.len()
                    == 35 ==> length_bits == 280) && forall|i: int|
                    0 <= i < media.private.len() ==> !((#[trigger] media.private[i]).1.call_id == (
                    private->0).call_id && media.private[i].1.source_itsi == (
                    private->0).destination_itsi),
                UplinkVoice::ToSwmi(MediaMessageView::Voice {
                    call_id,
                    source_itsi,
                    gssi,
                    length_bits,
                    data: sent,
                }) => private is None && group is Some && call_id == (group->0).call_id
                    && source_itsi == (group->0).source_itsi && gssi == (group->0).gssi && sent
                    == data && (data.len() == 274 ==> length_bits == 274) && (data.len() == 35
                    ==> length_bits == 280),
                _ => false,
            }
        }),
{
    if let Some(call) = crate::table::lookup(media.private, ts) {
        lemma_leg_from(media.private, call.call_id as u64, call.destination_itsi as u64);
    }
}

proof fn lemma_leg_from(entries: Seq<(u8, ActivePrivateVoice)>, call_id: u64, source: u64)
    ensures
        match crate::net_swmi::entity::leg_from(entries, call_id, source) {
            Some(ts) => exists|i: int|
                0 <= i < entries.len() && (#[trigger] entries[i]).0 == ts && entries[i].1.call_id
                    == call_id && entries[i].1.source_itsi == source,
            None => forall|i: int|
                0 <= i < entries.len() ==> !((#[trigger] entries[i]).1.call_id == call_id
                    && entries[i].1.source_itsi == source),
        },
    decreases entries.len(),
{
    if entries.len() > 0 {
        let rest = entries.drop_first();
        lemma_leg_from(rest, call_id, source);
        assert(forall|i: int| 0 < i < entries.len() ==> #[trigger] entries[i] == rest[i - 1]);
        if !(entries[0].1.call_id == call_id && entries[0].1.source_itsi == source) {
            if let Some(ts) = crate::net_swmi::entity::leg_from(rest, call_id, source) {
                let i = choose|i: int|
                    0 <= i < rest.len() && (#[trigger] rest[i]).0 == ts && rest[i].1.call_id
                        == call_id && rest[i].1.source_itsi == source;
                assert(entries[i + 1] == rest[i]);
            }
        }
    }
}

/// Speech of the SwMI for a party of a private call goes to a circuit on which
/// that party speaks in that call, and to none where there is none; speech for a
/// group goes to a circuit that carries that call of that group.
pub proof fn law_speech_of_the_swmi_finds_its_circuit(
    media: MediaView,
    call_id: u64,
    party: u64,
    gssi: u32,
)
    ensures
        match crate::net_swmi::entity::leg_from(media.private, call_id, party) {
            Some(ts) => exists|i: int|
                0 <= i < media.private.len() && (#[trigger] media.private[i]).0 == ts
                    && media.private[i].1.call_id == call_id && media.private[i].1.source_itsi
                    == party,
            None => forall|i: int|
                0 <= i < media.private.len() ==> !((#[trigger] media.private[i]).1.call_id
                    == call_id && media.private[i].1.source_itsi == party),
        },
        match crate::net_swmi::entity::group_slot(media.calls, call_id, gssi) {
            Some(ts) => exists|i: int|
                0 <= i < media.calls.len() && (#[trigger] media.calls[i]).0 == ts
                    && media.calls[i].1.call_id == call_id && media.calls[i].1.gssi == gssi,
            None => forall|i: int|
                0 <= i < media.calls.len() ==> !((#[trigger] media.calls[i]).1.call_id == call_id
                    && media.calls[i].1.gssi == gssi),
        },
{
    lemma_leg_from(media.private, call_id, party);
    lemma_group_slot(media.calls, call_id, gssi);
}

proof fn lemma_group_slot(entries: Seq<(u8, ActiveVoiceCall)>, call_id: u64, gssi: u32)
    ensures
        match crate::net_swmi::entity::group_slot(entries, call_id, gssi) {
            Some(ts) => exists|i: int|
                0 <= i < entries.len() && (#[trigger] entries[i]).0 == ts && entries[i].1.call_id
                    == call_id && entries[i].1.gssi == gssi,
            None => forall|i: int|
                0 <= i < entries.len() ==> !((#[trigger] entries[i]).1.call_id == call_id
                    && entries[i].1.gssi == gssi),
        },
    decreases entries.len(),
{
    if entries.len() > 0 {
        let rest = entries.drop_first();
        lemma_group_slot(rest, call_id, gssi);
        assert(forall|i: int| 0 < i < entries.len() ==> #[trigger] entries[i] == rest[i - 1]);
        if !(entries[0].1.call_id == call_id && entries[0].1.gssi == gssi) {
            if let Some(ts) = crate::net_swmi::entity::group_slot(rest, call_id, gssi) {
                let i = choose|i: int|
                    0 <= i < rest.len() && (#[trigger] rest[i]).0 == ts && rest[i].1.call_id
                        == call_id && rest[i].1.gssi == gssi;
                assert(entries[i + 1] == rest[i]);
            }
        }
    }
}

/// A frame of bits is put on a circuit bit by bit, the first bit first, and a
/// frame of bytes byte by byte, without its header if it has one.
pub proof fn law_frame_is_put_on_the_circuit_whole(packed: Seq<u8>, data: Seq<u8>)
    requires
        crate::net_swmi::entity::is_payload(packed, data),
        crate::net_swmi::entity::fits_circuit(data),
    ensures
        packed.len() == 35,
        data.len() == 35 ==> packed == data,
        data.len() == 36 ==> forall|i: int|
            0 <= i < 35 ==> #[trigger] packed[i] == data[i + 1],
        data.len() == 274 ==> forall|i: int|
            0 <= i < 274 ==> #[trigger] crate::bitbuffer::byte_bit(packed, i) == (data[i] % 2 == 1),
{
}

/// Which call a timeslot carries follows call control: the speaker that has the
/// floor is heard for its group until the floor is freed or the call ends, and a
/// party of a private call is heard for the other party until its media stop. No
/// other timeslot is touched.
pub proof fn law_circuits_follow_call_control(
    media: MediaView,
    call_id: u16,
    source: u32,
    destination: u32,
    ts: u8,
    other: u8,
)
    requires
        other != ts,
    ensures
        ({
            let speaking = media.controlled(
                MediaControl::FloorGranted {
                    call_id,
                    source_issi: source,
                    dest_gssi: destination,
                    ts,
                },
            );
            let silent = speaking.controlled(MediaControl::FloorReleased { call_id, ts });
            let ended = speaking.controlled(MediaControl::CallEnded { call_id, ts });
            let bridged = media.controlled(
                MediaControl::PrivateMediaStart {
                    call_id,
                    source_issi: source,
                    destination_issi: destination,
                    ts,
                },
            );
            let stopped = bridged.controlled(MediaControl::PrivateMediaStop { call_id, ts });
            &&& crate::table::lookup(speaking.calls, ts) == Some(
                ActiveVoiceCall { call_id, source_itsi: source, gssi: destination },
            )
            &&& crate::table::lookup(silent.calls, ts) is None
            &&& crate::table::lookup(ended.calls, ts) is None
            &&& crate::table::lookup(bridged.private, ts) == Some(
                ActivePrivateVoice { call_id, source_itsi: source, destination_itsi: destination },
            )
            &&& crate::table::lookup(stopped.private, ts) is None
            &&& crate::table::lookup(speaking.calls, other) == crate::table::lookup(
                media.calls,
                other,
            )
            &&& crate::table::lookup(bridged.private, other) == crate::table::lookup(
                media.private,
                other,
            )
            &&& speaking.private == media.private && bridged.calls == media.calls
        }),
{
    let call = ActiveVoiceCall { call_id, source_itsi: source, gssi: destination };
    let leg = ActivePrivateVoice { call_id, source_itsi: source, destination_itsi: destination };
    crate::table::law_lookup_after_put(media.calls, ts, call, ts);
    crate::table::law_lookup_after_put(media.calls, ts, call, other);
    crate::table::law_lookup_after_put(media.private, ts, leg, ts);
    crate::table::law_lookup_after_put(media.private, ts, leg, other);
    crate::table::law_lookup_after_del(crate::table::put(media.calls, ts, call), ts, ts);
    crate::table::law_lookup_after_del(crate::table::put(media.private, ts, leg), ts, ts);
}

/// A frame goes on the circuit that was found for it, and on none where none was
/// found or where the frame fits no circuit.
pub proof fn law_frame_goes_on_its_circuit(
    before: Seq<MediaMessageView>,
    after: Seq<MediaMessageView>,
    slot: Option<u8>,
    data: Seq<u8>,
)
    requires
        crate::net_swmi::entity::put_on_circuit(before, after, slot, data),
    ensures
        ({
            let fits = data.len() == 35 || data.len() == 36 || data.len() == 274;
            &&& slot is None || !fits ==> after == before
            &&& slot is Some && fits ==> {
                &&& after.len() == before.len() + 1
                &&& forall|i: int| 0 <= i < before.len() ==> #[trigger] after[i] == before[i]
                &&& after.last() matches MediaMessageView::Circuit { ts, data: packed } && Some(ts)
                    == slot && packed.len() == 35 && (data.len() == 35 ==> packed == data)
            }
        }),
{
    if slot is Some && crate::net_swmi::entity::fits_circuit(data) {
        assert(forall|i: int|
            0 <= i < before.len() ==> #[trigger] after[i] == after.drop_last()[i]);
    }
}

/// What call control says of one call takes no other call off its timeslot.
pub proof fn law_other_calls_stay_on_their_timeslot(media: MediaView, call_id: u16, ts: u8)
    requires
        crate::table::lookup(media.calls, ts) is Some ==> crate::table::lookup(
            media.calls,
            ts,
        )->0.call_id != call_id,
        crate::table::lookup(media.private, ts) is Some ==> crate::table::lookup(
            media.private,
            ts,
        )->0.call_id != call_id,
    ensures
        media.controlled(MediaControl::FloorReleased { call_id, ts }) == media,
        media.controlled(MediaControl::CallEnded { call_id, ts }) == media,
        media.controlled(MediaControl::PrivateMediaStop { call_id, ts }) == media,
{
}

/// A request of the SwMI for what the station knows is passed on to mobility
/// management, and the answer to it is the one that is awaited from then on.
/// Every other message is passed on and changes nothing.
pub proof fn law_messages_are_passed_on(
    before: SwmiWorker,
    state: StackState,
    id: u64,
    kind: SwmiMessageKind,
    local_time: Option<u64>,
    after: SwmiWorker,
    changed: StackState,
    reaction: Reaction,
)
    ensures
        crate::net_swmi::worker::reacted(
            before,
            state,
            SwmiCommand::LstRecoveryRequest { command_id: id },
            local_time,
            after,
            changed,
            reaction,
        ) ==> after.recovery_request_id == Some(id) && after.online == before.online && changed
            == state && reaction == Reaction::PassOn(SwmiDestination::Mm),
        crate::net_swmi::worker::reacted(
            before,
            state,
            SwmiCommand::Message(kind),
            local_time,
            after,
            changed,
            reaction,
        ) ==> after == before && changed == state && reaction == Reaction::PassOn(
            crate::net_swmi::worker::destination(kind),
        ),
{
}

/// When a cell configuration brings another key, only the terminals that are bound
/// to that very key stay bound; without encryption none does.
pub proof fn law_sessions_follow_the_configured_key(
    before: SwmiWorker,
    state: StackState,
    id: u64,
    cell: CellConfig,
    local_time: Option<u64>,
    after: SwmiWorker,
    changed: StackState,
    reaction: Reaction,
    issi: u32,
)
    requires
        crate::net_swmi::worker::reacted(
            before,
            state,
            SwmiCommand::CellConfig { command_id: id, cell },
            local_time,
            after,
            changed,
            reaction,
        ),
        is_complete(cell),
        state.aie_sessions@.wf(),
    ensures
        !cell.aie.enabled ==> changed.aie_sessions@.terminal(issi) is None,
        cell.aie.enabled ==> changed.aie_sessions@.terminal(issi) == match state.aie_sessions@.terminal(
            issi,
        ) {
            Some(binding) => if binding.key.sckn == (cell.aie.sc2->0).sckn && binding.key.sck_vn
                == (cell.aie.sc2->0).sck_vn && (binding.key.algorithm
                == crate::aie::AieAlgorithm::Tea1 <==> (cell.aie.sc2->0).algorithm
                == Sc2TeaAlgorithm::Tea1) {
                Some(binding)
            } else {
                None
            },
            None => None,
        },
{
    if cell.aie.enabled {
        let key = changed.aie.sc2->0;
        crate::bluestation::aie_state::law_former_keys_are_dropped(
            state.aie_sessions@,
            crate::bluestation::aie_state::RuntimeSc2Binding::of(key),
            issi,
            0,
            crate::aie::AieSubject::System,
        );
    }
}

/// A rollover that is accepted again after it has been made is answered as made;
/// the time of the answer is that of the station, if it tells one.
pub proof fn law_answer_to_a_rollover_tells_its_state(
    before: SwmiWorker,
    state: StackState,
    prepare: RolloverPrepare,
    local_time: Option<u64>,
    after: SwmiWorker,
    changed: StackState,
    reaction: Reaction,
)
    requires
        crate::net_swmi::worker::reacted(
            before,
            state,
            SwmiCommand::Sc2RolloverPrepare(prepare),
            local_time,
            after,
            changed,
            reaction,
        ),
    ensures
        reaction matches Reaction::Prepare(outcome) && {
            &&& outcome.report.command_id == prepare.command_id
            &&& outcome.report.rollover_id == prepare.rollover_id
            &&& outcome.report.local_cutover_network_time
                == if state.network_broadcast.broadcast.timezone is Some {
                local_time
            } else {
                None
            }
            &&& outcome.receipt.accepted && state.aie.rollover is Some && (
            state.aie.rollover->0).rollover_id == prepare.rollover_id ==> changed == state
                && outcome.report.status == if (state.aie.rollover->0).activated {
                Sc2RolloverStatus::Activated
            } else {
                Sc2RolloverStatus::Prepared
            }
        },
{
}

} // verus!
