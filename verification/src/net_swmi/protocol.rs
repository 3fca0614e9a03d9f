//! What the station and the SwMI tell each other of cells.
use vstd::prelude::*;

verus! {

/// The cipher of an SC2 key.
#[derive(Debug, Clone, Copy, PartialEq, Eq, Structural)]
pub enum Sc2TeaAlgorithm {
    Tea1,
    Tea3,
}

/// An SC2 key with its identity. The material may be left out.
#[derive(Debug, Clone, Copy)]
pub struct Sc2AieConfig {
    pub algorithm: Sc2TeaAlgorithm,
    pub sckn: u8,
    pub sck_vn: u16,
    pub key: Option<[u8; 10]>,
}

/// The encryption settings of a cell.
#[derive(Debug, Clone, Copy)]
pub struct CellAieConfig {
    pub enabled: bool,
    pub sc1_allowed: bool,
    pub sc2: Option<Sc2AieConfig>,
}

/// The configuration of a cell that the SwMI gives.
#[derive(Debug, Clone, Copy)]
pub struct CellConfig {
    pub config_version: u64,
    pub mcc: u16,
    pub mnc: u16,
    pub location_area: u16,
    pub authentication_required: bool,
    pub aie: CellAieConfig,
}

/// What a cell reports of itself.
#[derive(Debug, Clone, Copy)]
pub struct SystemInfo {
    pub report_version: u64,
    pub cell: CellConfig,
    pub main_carrier: u16,
    pub frequency_band: u8,
    pub frequency_offset_hz: i16,
    pub duplex_spacing_id: u8,
    pub reverse_operation: bool,
    pub colour_code: u8,
    pub system_code: u8,
    pub service_flags: u16,
    pub ms_txpwr_max_cell: u8,
    pub rxlev_access_min: u8,
    pub subscriber_class: u16,
    pub cell_load_ca: u8,
    pub synchronized: bool,
    pub tdma_frame_offset: u8,
}

/// A report of a cell with the neighbours that it names.
#[derive(Debug)]
pub struct SystemInfoReport {
    pub info: SystemInfo,
    pub neighbour_station_ids: Vec<String>,
}

/// A neighbour of the serving cell.
#[derive(Debug)]
pub struct NeighbourCell {
    pub cell_identifier_ca: u8,
    pub station_id: String,
    pub report: SystemInfoReport,
}

/// The neighbours of the serving cell in a version of the directory.
#[derive(Debug)]
pub struct NeighbourCellSnapshot {
    pub directory_version: u64,
    pub neighbours: Vec<NeighbourCell>,
}

/// The services of a cell.
#[derive(Debug, Clone, Copy, PartialEq, Eq, Structural)]
pub struct BsServiceDetails {
    pub registration: bool,
    pub deregistration: bool,
    pub priority_cell: bool,
    pub no_minimum_mode: bool,
    pub migration: bool,
    pub system_wide_services: bool,
    pub voice_service: bool,
    pub circuit_mode_data_service: bool,
    pub sndcp_service: bool,
    pub aie_service: bool,
    pub advanced_link: bool,
}

/// The flag of the services of the whole network.
pub const SYSTEM_WIDE_SERVICES_BIT: u16 = 5;

/// The flag of air interface encryption.
pub const AIE_SERVICE_BIT: u16 = 10;

/// Whether a flag is set.
#[verifier::allow_in_spec]
pub fn has_flag(flags: u16, bit: u16) -> bool
    requires
        bit < 16,
    returns
        ((flags >> bit) & 1 == 1),
{
    (flags >> bit) & 1 == 1
}

/// A flag, set or not.
#[verifier::allow_in_spec]
pub fn flag(set: bool) -> u16
    returns
        (if set {
            1u16
        } else {
            0u16
        }),
{
    if set {
        1
    } else {
        0
    }
}

impl BsServiceDetails {
    /// The flags that stand for the services.
    #[verifier::allow_in_spec]
    pub fn flags(self) -> u16
        returns
            (flag(self.registration) | (flag(self.deregistration) << 1u16) | (flag(
                self.priority_cell,
            ) << 2u16) | (flag(self.no_minimum_mode) << 3u16) | (flag(self.migration) << 4u16) | (
            flag(self.system_wide_services) << 5u16) | (flag(self.voice_service) << 6u16) | (flag(
                self.circuit_mode_data_service,
            ) << 7u16) | (flag(self.sndcp_service) << 8u16) | (flag(self.advanced_link) << 9u16)
                | (flag(self.aie_service) << 10u16)),
    {
        flag(self.registration) | (flag(self.deregistration) << 1u16) | (flag(self.priority_cell)
            << 2u16) | (flag(self.no_minimum_mode) << 3u16) | (flag(self.migration) << 4u16) | (
        flag(self.system_wide_services) << 5u16) | (flag(self.voice_service) << 6u16) | (flag(
            self.circuit_mode_data_service,
        ) << 7u16) | (flag(self.sndcp_service) << 8u16) | (flag(self.advanced_link) << 9u16) | (
        flag(self.aie_service) << 10u16)
    }

    /// The services that flags stand for.
    #[verifier::allow_in_spec]
    pub fn of_flags(flags: u16) -> Self
        returns
            (BsServiceDetails {
                registration: has_flag(flags, 0),
                deregistration: has_flag(flags, 1),
                priority_cell: has_flag(flags, 2),
                no_minimum_mode: has_flag(flags, 3),
                migration: has_flag(flags, 4),
                system_wide_services: has_flag(flags, 5),
                voice_service: has_flag(flags, 6),
                circuit_mode_data_service: has_flag(flags, 7),
                sndcp_service: has_flag(flags, 8),
                advanced_link: has_flag(flags, 9),
                aie_service: has_flag(flags, 10),
            }),
    {
        BsServiceDetails {
            registration: has_flag(flags, 0),
            deregistration: has_flag(flags, 1),
            priority_cell: has_flag(flags, 2),
            no_minimum_mode: has_flag(flags, 3),
            migration: has_flag(flags, 4),
            system_wide_services: has_flag(flags, 5),
            voice_service: has_flag(flags, 6),
            circuit_mode_data_service: has_flag(flags, 7),
            sndcp_service: has_flag(flags, 8),
            advanced_link: has_flag(flags, 9),
            aie_service: has_flag(flags, 10),
        }
    }
}

/// The services that are read from the flags are those that they were made of.
pub proof fn law_services_are_read_back(services: BsServiceDetails)
    ensures
        BsServiceDetails::of_flags(services.flags()) == services,
{
    lemma_flags(
        flag(services.registration),
        flag(services.deregistration),
        flag(services.priority_cell),
        flag(services.no_minimum_mode),
        flag(services.migration),
        flag(services.system_wide_services),
        flag(services.voice_service),
        flag(services.circuit_mode_data_service),
        flag(services.sndcp_service),
        flag(services.advanced_link),
        flag(services.aie_service),
        services.flags(),
    );
}

proof fn lemma_flags(
    f0: u16,
    f1: u16,
    f2: u16,
    f3: u16,
    f4: u16,
    f5: u16,
    f6: u16,
    f7: u16,
    f8: u16,
    f9: u16,
    f10: u16,
    all: u16,
)
    by (bit_vector)
    requires
        f0 <= 1,
        f1 <= 1,
        f2 <= 1,
        f3 <= 1,
        f4 <= 1,
        f5 <= 1,
        f6 <= 1,
        f7 <= 1,
        f8 <= 1,
        f9 <= 1,
        f10 <= 1,
        all == f0 | (f1 << 1u16) | (f2 << 2u16) | (f3 << 3u16) | (f4 << 4u16) | (f5 << 5u16) | (f6
            << 6u16) | (f7 << 7u16) | (f8 << 8u16) | (f9 << 9u16) | (f10 << 10u16),
    ensures
        (all >> 0u16) & 1 == f0,
        (all >> 1u16) & 1 == f1,
        (all >> 2u16) & 1 == f2,
        (all >> 3u16) & 1 == f3,
        (all >> 4u16) & 1 == f4,
        (all >> 5u16) & 1 == f5,
        (all >> 6u16) & 1 == f6,
        (all >> 7u16) & 1 == f7,
        (all >> 8u16) & 1 == f8,
        (all >> 9u16) & 1 == f9,
        (all >> 10u16) & 1 == f10,
{
}

/// The flags with two of them set anew: the services of the whole network, and
/// air interface encryption.
#[verifier::allow_in_spec]
pub fn with_live_services(flags: u16, network_connected: bool, aie_enabled: bool) -> u16
    returns
        ((flags & 0xfbdfu16) | (flag(network_connected) << 5u16) | (flag(aie_enabled) << 10u16)),
{
    (flags & 0xfbdfu16) | (flag(network_connected) << 5u16) | (flag(aie_enabled) << 10u16)
}

/// The two flags say what was set, and every other flag is as it was.
pub proof fn law_live_services_are_set(flags: u16, network_connected: bool, aie_enabled: bool)
    ensures
        has_flag(
            with_live_services(flags, network_connected, aie_enabled),
            SYSTEM_WIDE_SERVICES_BIT,
        ) == network_connected,
        has_flag(with_live_services(flags, network_connected, aie_enabled), AIE_SERVICE_BIT)
            == aie_enabled,
        forall|bit: u16|
            bit < 16 && bit != SYSTEM_WIDE_SERVICES_BIT && bit != AIE_SERVICE_BIT
                ==> #[trigger] has_flag(
                with_live_services(flags, network_connected, aie_enabled),
                bit,
            ) == has_flag(flags, bit),
{
    let all = with_live_services(flags, network_connected, aie_enabled);
    let connected = flag(network_connected);
    let enabled = flag(aie_enabled);
    assert((all >> 5u16) & 1 == connected && (all >> 10u16) & 1 == enabled) by (bit_vector)
        requires
            connected <= 1,
            enabled <= 1,
            all == (flags & 0xfbdfu16) | (connected << 5u16) | (enabled << 10u16),
    ;
    assert forall|bit: u16|
        bit < 16 && bit != SYSTEM_WIDE_SERVICES_BIT && bit
            != AIE_SERVICE_BIT implies #[trigger] has_flag(all, bit) == has_flag(flags, bit) by {
        assert((all >> bit) & 1 == (flags >> bit) & 1) by (bit_vector)
            requires
                connected <= 1,
                enabled <= 1,
                bit < 16,
                bit != 5,
                bit != 10,
                all == (flags & 0xfbdfu16) | (connected << 5u16) | (enabled << 10u16),
        ;
    }
}

} // verus!
