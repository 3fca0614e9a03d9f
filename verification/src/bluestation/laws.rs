//! What the configuration, the keys and the registry of the station are for.
use crate::aie::{AieContext, AieDirection, AieRequest, AieScope, AieSubject, Sc2KeyIdentifier};
use crate::bluestation::aie_state::{RuntimeSc2Aie, RuntimeSc2Binding};
use crate::bluestation::config::{
    CfgEndpoint, CfgPhyIo, CfgSoapySdr, PhyBackend, StackConfig,
};
use crate::bluestation::parsing::{ConfigError, ConfigRoot};
use crate::bluestation::rollover::{
    AieContextError, RetiredKey, RuntimeAieConfig, RuntimeSc2Rollover,
};
use crate::bluestation::sec_cell::{CellInfoDto, CfgCellInfo, CfgRandomAccess, RandomAccessDto};
use crate::bluestation::sec_swmi::{CfgSwmi, CfgSwmiDto};
use crate::bluestation::state::{SharedConfig, StackState};
use crate::bluestation::subscribers::{RegistryView, Subscriber};
use crate::crypto::taa1::AuthResult;
use crate::tdma::TdmaTime;
use vstd::prelude::*;

verus! {

// ---------------------------------------------------------------------------
// Limits of the configuration
// ---------------------------------------------------------------------------

/// Whether the fault is as it should be: none where a setting is good, and
/// otherwise the one with this text.
pub open spec fn faults(fault: Option<Seq<char>>, good: bool, text: Seq<char>) -> bool {
    if good {
        fault is None
    } else {
        fault == Some(text)
    }
}

/// The configuration with another random-access control.
pub open spec fn with_access(cfg: StackConfig, random_access: CfgRandomAccess) -> StackConfig {
    StackConfig { cell: CfgCellInfo { random_access, ..cfg.cell }, ..cfg }
}

/// Where a setting of a valid configuration is changed, the configuration stays
/// valid exactly while the setting is within its limits, and otherwise the fault
/// names that setting.
pub proof fn law_settings_have_limits(
    cfg: StackConfig,
    carrier: Option<(u32, u32)>,
    known: bool,
    value: u8,
)
    requires
        cfg.fault(carrier, known) is None,
    ensures
        faults(
            StackConfig { cell: CfgCellInfo { ms_txpwr_max_cell: value, ..cfg.cell }, ..cfg }.fault(
                carrier,
                known,
            ),
            value <= 7,
            "ms_txpwr_max_cell must be 0-7 (3 bits)"@,
        ),
        faults(
            StackConfig { cell: CfgCellInfo { rxlev_access_min: value, ..cfg.cell }, ..cfg }.fault(
                carrier,
                known,
            ),
            value <= 15,
            "rxlev_access_min must be 0-15 (4 bits)"@,
        ),
        faults(
            StackConfig { cell: CfgCellInfo { access_parameter: value, ..cfg.cell }, ..cfg }.fault(
                carrier,
                known,
            ),
            value <= 15,
            "access_parameter must be 0-15 (4 bits)"@,
        ),
        faults(cfg.fault(carrier, false), false, "Invalid IANA timezone name in cell.timezone"@),
{
}

/// Where a setting of the random-access control of a valid configuration is
/// changed, the configuration stays valid exactly while the setting is within
/// its limits, and otherwise the fault names that setting.
pub proof fn law_access_settings_have_limits(
    cfg: StackConfig,
    carrier: Option<(u32, u32)>,
    known: bool,
    value: u8,
)
    requires
        cfg.fault(carrier, known) is None,
    ensures
        ({
            let ra = cfg.cell.random_access;
            &&& faults(
                with_access(cfg, CfgRandomAccess { update_interval_multiframes: value, ..ra }).fault(carrier, known),
                1 <= value <= 60,
                "cell.random_access.update_interval_multiframes must be 1-60"@,
            )
            &&& faults(
                with_access(cfg, CfgRandomAccess { startup_grace_multiframes: value, ..ra }).fault(carrier, known),
                value <= 60,
                "cell.random_access.startup_grace_multiframes must be 0-60"@,
            )
            &&& faults(
                with_access(cfg, CfgRandomAccess { recovery_step_multiframes: value, ..ra }).fault(carrier, known),
                1 <= value <= 60,
                "cell.random_access.recovery_step_multiframes must be 1-60"@,
            )
            &&& faults(
                with_access(cfg, CfgRandomAccess { low_load_threshold: value, ..ra }).fault(carrier, known),
                value < ra.high_load_threshold,
                "cell.random_access.low_load_threshold must be lower than high_load_threshold"@,
            )
            &&& faults(
                with_access(cfg, CfgRandomAccess { high_load_threshold: value, ..ra }).fault(carrier, known),
                ra.low_load_threshold < value,
                "cell.random_access.low_load_threshold must be lower than high_load_threshold"@,
            )
            &&& faults(
                with_access(cfg, CfgRandomAccess { imm_min: value, ..ra }).fault(carrier, known),
                value <= ra.imm_max,
                "cell.random_access IMM limits must be ordered and 0-15"@,
            )
            &&& faults(
                with_access(cfg, CfgRandomAccess { imm_max: value, ..ra }).fault(carrier, known),
                ra.imm_min <= value <= 15,
                "cell.random_access IMM limits must be ordered and 0-15"@,
            )
            &&& faults(
                with_access(cfg, CfgRandomAccess { wt_min: value, ..ra }).fault(carrier, known),
                1 <= value <= ra.wt_max,
                "cell.random_access WT limits must be ordered and 1-15"@,
            )
            &&& faults(
                with_access(cfg, CfgRandomAccess { wt_max: value, ..ra }).fault(carrier, known),
                ra.wt_min <= value <= 15,
                "cell.random_access WT limits must be ordered and 1-15"@,
            )
            &&& faults(
                with_access(cfg, CfgRandomAccess { nu_min: value, ..ra }).fault(carrier, known),
                1 <= value <= ra.nu_max,
                "cell.random_access Nu limits must be ordered and 1-15"@,
            )
            &&& faults(
                with_access(cfg, CfgRandomAccess { nu_max: value, ..ra }).fault(carrier, known),
                ra.nu_min <= value <= 15,
                "cell.random_access Nu limits must be ordered and 1-15"@,
            )
            &&& faults(
                with_access(cfg, CfgRandomAccess { frame_len_min: value, ..ra }).fault(carrier, known),
                1 <= value <= ra.frame_len_max,
                "cell.random_access frame length limits must be ordered and 1-15"@,
            )
            &&& faults(
                with_access(cfg, CfgRandomAccess { frame_len_max: value, ..ra }).fault(carrier, known),
                ra.frame_len_min <= value <= 15,
                "cell.random_access frame length limits must be ordered and 1-15"@,
            )
            &&& faults(
                with_access(cfg, CfgRandomAccess { retry_window_multiframes: value, ..ra }).fault(carrier, known),
                1 <= value <= 60,
                "cell.random_access.retry_window_multiframes must be 1-60"@,
            )
            &&& faults(
                with_access(cfg, CfgRandomAccess { retry_weight_percent: value, ..ra }).fault(carrier, known),
                1 <= value <= 100,
                "cell.random_access.retry_weight_percent must be 1-100"@,
            )
            &&& faults(
                with_access(cfg, CfgRandomAccess { ewma_alpha_percent: value, ..ra }).fault(carrier, known),
                1 <= value <= 100,
                "cell.random_access.ewma_alpha_percent must be 1-100"@,
            )
            &&& faults(
                with_access(cfg, CfgRandomAccess { frame_factor_activation_windows: value, ..ra }).fault(carrier, known),
                1 <= value <= 60,
                "cell.random_access.frame_factor_activation_windows must be 1-60"@,
            )
            &&& faults(
                with_access(cfg, CfgRandomAccess { frame_factor_release_windows: value, ..ra }).fault(carrier, known),
                1 <= value <= 60,
                "cell.random_access.frame_factor_release_windows must be 1-60"@,
            )
        }),
{
}

/// The radio hardware of a valid configuration is chosen, and is tuned to the
/// carrier of its cell; where it is tuned otherwise, the fault says which
/// frequency is wrong.
pub proof fn law_hardware_is_tuned_to_the_carrier(
    cfg: StackConfig,
    carrier: Option<(u32, u32)>,
    known: bool,
    dl_freq: u32,
    ul_freq: u32,
)
    requires
        cfg.fault(carrier, known) is None,
    ensures
        cfg.phy_io.backend != PhyBackend::Undefined,
        cfg.phy_io.backend == PhyBackend::SoapySdr ==> {
            let tuned = StackConfig {
                phy_io: CfgPhyIo { soapysdr: Some(CfgSoapySdr { dl_freq, ul_freq }), ..cfg.phy_io },
                ..cfg
            };
            &&& carrier == Some((cfg.phy_io.soapysdr->0.dl_freq, cfg.phy_io.soapysdr->0.ul_freq))
            &&& faults(
                StackConfig {
                    phy_io: CfgPhyIo { soapysdr: None, ..cfg.phy_io },
                    ..cfg
                }.fault(carrier, known),
                false,
                "soapysdr configuration must be provided for Soapysdr backend"@,
            )
            &&& faults(cfg.fault(None, known), false, "Invalid cell info frequency settings"@)
            &&& dl_freq != (carrier->0).0 ==> faults(
                tuned.fault(carrier, known),
                false,
                "PhyIo DlFrequency does not match computed FreqInfo"@,
            )
            &&& dl_freq == (carrier->0).0 ==> faults(
                tuned.fault(carrier, known),
                ul_freq == (carrier->0).1,
                "PhyIo UlFrequency does not match computed FreqInfo"@,
            )
        },
        faults(
            StackConfig {
                phy_io: CfgPhyIo { backend: PhyBackend::Undefined, ..cfg.phy_io },
                ..cfg
            }.fault(carrier, known),
            false,
            "phy_io backend must be defined"@,
        ),
{
}

// ---------------------------------------------------------------------------
// Sections
// ---------------------------------------------------------------------------

/// What a cell section sets is what the cell has.
pub proof fn law_cell_has_what_is_written(dto: CellInfoDto, cfg: CfgCellInfo)
    requires
        crate::bluestation::sec_cell::is_cell_of(dto, cfg),
    ensures
        cfg.main_carrier == dto.main_carrier,
        cfg.freq_band == dto.freq_band,
        cfg.freq_offset_hz == dto.freq_offset,
        cfg.duplex_spacing_id == dto.duplex_spacing,
        cfg.reverse_operation == dto.reverse_operation,
        cfg.custom_duplex_spacing == dto.custom_duplex_spacing,
        cfg.location_area == dto.location_area,
        cfg.timezone == dto.timezone,
        dto.authentication_required is Some ==> Some(cfg.authentication_required) == dto.authentication_required,
        dto.neighbor_cell_broadcast is Some ==> Some(cfg.neighbor_cell_broadcast) == dto.neighbor_cell_broadcast,
        dto.late_entry_supported is Some ==> Some(cfg.late_entry_supported) == dto.late_entry_supported,
        dto.subscriber_class is Some ==> Some(cfg.subscriber_class) == dto.subscriber_class,
        dto.registration is Some ==> Some(cfg.registration) == dto.registration,
        dto.deregistration is Some ==> Some(cfg.deregistration) == dto.deregistration,
        dto.priority_cell is Some ==> Some(cfg.priority_cell) == dto.priority_cell,
        dto.no_minimum_mode is Some ==> Some(cfg.no_minimum_mode) == dto.no_minimum_mode,
        dto.migration is Some ==> Some(cfg.migration) == dto.migration,
        dto.system_wide_services is Some ==> Some(cfg.system_wide_services) == dto.system_wide_services,
        dto.voice_service is Some ==> Some(cfg.voice_service) == dto.voice_service,
        dto.circuit_mode_data_service is Some ==> Some(cfg.circuit_mode_data_service) == dto.circuit_mode_data_service,
        dto.sndcp_service is Some ==> Some(cfg.sndcp_service) == dto.sndcp_service,
        dto.aie_service is Some ==> Some(cfg.aie_service) == dto.aie_service,
        dto.advanced_link is Some ==> Some(cfg.advanced_link) == dto.advanced_link,
        dto.system_code is Some ==> Some(cfg.system_code) == dto.system_code,
        dto.colour_code is Some ==> Some(cfg.colour_code) == dto.colour_code,
        dto.sharing_mode is Some ==> Some(cfg.sharing_mode) == dto.sharing_mode,
        dto.ts_reserved_frames is Some ==> Some(cfg.ts_reserved_frames) == dto.ts_reserved_frames,
        dto.u_plane_dtx is Some ==> Some(cfg.u_plane_dtx) == dto.u_plane_dtx,
        dto.frame_18_ext is Some ==> Some(cfg.frame_18_ext) == dto.frame_18_ext,
        dto.ms_txpwr_max_cell is Some ==> Some(cfg.ms_txpwr_max_cell) == dto.ms_txpwr_max_cell,
        dto.rxlev_access_min is Some ==> Some(cfg.rxlev_access_min) == dto.rxlev_access_min,
        dto.access_parameter is Some ==> Some(cfg.access_parameter) == dto.access_parameter,
        dto.local_ssi_ranges is Some ==> cfg.local_ssi_ranges.ranges@ == dto.local_ssi_ranges->0@,
{
}

/// What a cell section leaves out: the cell registers and deregisters terminals
/// and carries speech, and has none of the other services; every class of
/// subscriber is served, and the identities up to 90 are local.
pub proof fn law_cell_has_its_defaults(dto: CellInfoDto, cfg: CfgCellInfo, ssi: u32)
    requires
        crate::bluestation::sec_cell::is_cell_of(dto, cfg),
    ensures
        dto.authentication_required is None ==> !cfg.authentication_required,
        dto.neighbor_cell_broadcast is None ==> cfg.neighbor_cell_broadcast == 0,
        dto.late_entry_supported is None ==> !cfg.late_entry_supported,
        dto.subscriber_class is None ==> cfg.subscriber_class == 65535,
        dto.registration is None ==> cfg.registration,
        dto.deregistration is None ==> cfg.deregistration,
        dto.priority_cell is None ==> !cfg.priority_cell,
        dto.no_minimum_mode is None ==> !cfg.no_minimum_mode,
        dto.migration is None ==> !cfg.migration,
        dto.system_wide_services is None ==> !cfg.system_wide_services,
        dto.voice_service is None ==> cfg.voice_service,
        dto.circuit_mode_data_service is None ==> !cfg.circuit_mode_data_service,
        dto.sndcp_service is None ==> !cfg.sndcp_service,
        dto.aie_service is None ==> !cfg.aie_service,
        dto.advanced_link is None ==> !cfg.advanced_link,
        dto.system_code is None ==> cfg.system_code == 3,
        dto.colour_code is None ==> cfg.colour_code == 0,
        dto.sharing_mode is None ==> cfg.sharing_mode == 0,
        dto.ts_reserved_frames is None ==> cfg.ts_reserved_frames == 0,
        dto.u_plane_dtx is None ==> !cfg.u_plane_dtx,
        dto.frame_18_ext is None ==> !cfg.frame_18_ext,
        dto.ms_txpwr_max_cell is None ==> cfg.ms_txpwr_max_cell == 4,
        dto.rxlev_access_min is None ==> cfg.rxlev_access_min == 3,
        dto.access_parameter is None ==> cfg.access_parameter == 7,
        dto.local_ssi_ranges is None ==> (cfg.local_ssi_ranges.holds(ssi) <==> ssi <= 90),
{
    if dto.local_ssi_ranges is None {
        let ranges = cfg.local_ssi_ranges.ranges@;
        assert(ranges.len() == 1 && ranges[0] == (0u32, 90u32));
    }
}

/// What a random-access section sets is what the cell has; what it leaves out has
/// its default, as all of it has where there is no section.
pub proof fn law_access_has_what_is_written(dto: RandomAccessDto)
    ensures
        ({
            let cfg = crate::bluestation::sec_cell::random_access_of(Some(dto));
            &&& dto.enabled is Some ==> Some(cfg.enabled) == dto.enabled
            &&& dto.enabled is None ==> cfg.enabled
            &&& dto.update_interval_multiframes is Some ==> Some(cfg.update_interval_multiframes) == dto.update_interval_multiframes
            &&& dto.update_interval_multiframes is None ==> cfg.update_interval_multiframes == 1
            &&& dto.startup_grace_multiframes is Some ==> Some(cfg.startup_grace_multiframes) == dto.startup_grace_multiframes
            &&& dto.startup_grace_multiframes is None ==> cfg.startup_grace_multiframes == 5
            &&& dto.recovery_step_multiframes is Some ==> Some(cfg.recovery_step_multiframes) == dto.recovery_step_multiframes
            &&& dto.recovery_step_multiframes is None ==> cfg.recovery_step_multiframes == 3
            &&& dto.low_load_threshold is Some ==> Some(cfg.low_load_threshold) == dto.low_load_threshold
            &&& dto.low_load_threshold is None ==> cfg.low_load_threshold == 2
            &&& dto.high_load_threshold is Some ==> Some(cfg.high_load_threshold) == dto.high_load_threshold
            &&& dto.high_load_threshold is None ==> cfg.high_load_threshold == 8
            &&& dto.imm_min is Some ==> Some(cfg.imm_min) == dto.imm_min
            &&& dto.imm_min is None ==> cfg.imm_min == 0
            &&& dto.imm_max is Some ==> Some(cfg.imm_max) == dto.imm_max
            &&& dto.imm_max is None ==> cfg.imm_max == 15
            &&& dto.wt_min is Some ==> Some(cfg.wt_min) == dto.wt_min
            &&& dto.wt_min is None ==> cfg.wt_min == 3
            &&& dto.wt_max is Some ==> Some(cfg.wt_max) == dto.wt_max
            &&& dto.wt_max is None ==> cfg.wt_max == 8
            &&& dto.nu_min is Some ==> Some(cfg.nu_min) == dto.nu_min
            &&& dto.nu_min is None ==> cfg.nu_min == 3
            &&& dto.nu_max is Some ==> Some(cfg.nu_max) == dto.nu_max
            &&& dto.nu_max is None ==> cfg.nu_max == 5
            &&& dto.frame_len_min is Some ==> Some(cfg.frame_len_min) == dto.frame_len_min
            &&& dto.frame_len_min is None ==> cfg.frame_len_min == 2
            &&& dto.frame_len_max is Some ==> Some(cfg.frame_len_max) == dto.frame_len_max
            &&& dto.frame_len_max is None ==> cfg.frame_len_max == 8
            &&& dto.retry_window_multiframes is Some ==> Some(cfg.retry_window_multiframes) == dto.retry_window_multiframes
            &&& dto.retry_window_multiframes is None ==> cfg.retry_window_multiframes == 30
            &&& dto.retry_weight_percent is Some ==> Some(cfg.retry_weight_percent) == dto.retry_weight_percent
            &&& dto.retry_weight_percent is None ==> cfg.retry_weight_percent == 33
            &&& dto.ewma_alpha_percent is Some ==> Some(cfg.ewma_alpha_percent) == dto.ewma_alpha_percent
            &&& dto.ewma_alpha_percent is None ==> cfg.ewma_alpha_percent == 50
            &&& dto.frame_factor_activation_windows is Some ==> Some(cfg.frame_factor_activation_windows) == dto.frame_factor_activation_windows
            &&& dto.frame_factor_activation_windows is None ==> cfg.frame_factor_activation_windows == 3
            &&& dto.frame_factor_release_windows is Some ==> Some(cfg.frame_factor_release_windows) == dto.frame_factor_release_windows
            &&& dto.frame_factor_release_windows is None ==> cfg.frame_factor_release_windows == 3
        }),
        ({
            let cfg = crate::bluestation::sec_cell::random_access_of(None);
            &&& cfg.enabled
            &&& cfg.update_interval_multiframes == 1
            &&& cfg.startup_grace_multiframes == 5
            &&& cfg.recovery_step_multiframes == 3
            &&& cfg.low_load_threshold == 2
            &&& cfg.high_load_threshold == 8
            &&& cfg.imm_min == 0
            &&& cfg.imm_max == 15
            &&& cfg.wt_min == 3
            &&& cfg.wt_max == 8
            &&& cfg.nu_min == 3
            &&& cfg.nu_max == 5
            &&& cfg.frame_len_min == 2
            &&& cfg.frame_len_max == 8
            &&& cfg.retry_window_multiframes == 30
            &&& cfg.retry_weight_percent == 33
            &&& cfg.ewma_alpha_percent == 50
            &&& cfg.frame_factor_activation_windows == 3
            &&& cfg.frame_factor_release_windows == 3
        }),
{
}

/// The random-access control that a cell has by default is a valid one.
pub proof fn law_default_access_is_valid(
    cfg: StackConfig,
    carrier: Option<(u32, u32)>,
    known: bool,
)
    requires
        cfg.fault(carrier, known) is None,
    ensures
        with_access(cfg, crate::bluestation::sec_cell::default_random_access()).fault(
            carrier,
            known,
        ) is None,
{
}

/// A SwMI section is accepted exactly if it names host, user and password, if a
/// silent SwMI is given more time than lies between two heartbeats, and if a CA
/// certificate comes with TLS only.
pub proof fn law_swmi_section_is_checked(dto: CfgSwmiDto)
    ensures
        ({
            let interval = if dto.heartbeat_interval_secs is Some {
                dto.heartbeat_interval_secs->0
            } else {
                2
            };
            let timeout = if dto.heartbeat_timeout_secs is Some {
                dto.heartbeat_timeout_secs->0
            } else {
                10
            };
            let blank = |text: Seq<char>|
                forall|i: int|
                    0 <= i < text.len() ==> crate::bluestation::sec_swmi::is_white_space(
                        #[trigger] text[i],
                    );
            let named = !blank(dto.host@) && !blank(dto.username@) && dto.password@.len() > 0;
            let timed = 0 < interval < timeout;
            let plain = dto.tls == Some(false);
            &&& dto.fault() is None <==> named && timed && !(plain && dto.ca_certificate is Some)
            &&& !named ==> dto.fault() == Some("swmi host, username and password must be set"@)
            &&& named && !timed ==> dto.fault() == Some(
                "swmi heartbeat_timeout_secs must be greater than heartbeat_interval_secs"@,
            )
            &&& named && timed && plain && dto.ca_certificate is Some ==> dto.fault() == Some(
                "swmi ca_certificate requires tls = true"@,
            )
        }),
{
}

/// What a SwMI section sets is what the station connects with; by default it
/// connects with TLS to port 443, tries again after 5 seconds, and sends a
/// heartbeat every 2 seconds to a SwMI that it takes for gone after 10.
pub proof fn law_swmi_has_what_is_written(dto: CfgSwmiDto, cfg: CfgSwmi)
    requires
        dto.stands_for(cfg),
    ensures
        cfg.host == dto.host,
        cfg.username == dto.username,
        cfg.password.val == dto.password,
        cfg.ca_certificate == dto.ca_certificate,
        dto.port is Some ==> Some(cfg.port) == dto.port,
        dto.port is None ==> cfg.port == 443,
        dto.tls is Some ==> Some(cfg.tls) == dto.tls,
        dto.tls is None ==> cfg.tls,
        dto.reconnect_delay_secs is Some ==> Some(cfg.reconnect_delay_secs) == dto.reconnect_delay_secs,
        dto.reconnect_delay_secs is None ==> cfg.reconnect_delay_secs == 5,
        dto.heartbeat_interval_secs is Some ==> Some(cfg.heartbeat_interval_secs) == dto.heartbeat_interval_secs,
        dto.heartbeat_interval_secs is None ==> cfg.heartbeat_interval_secs == 2,
        dto.heartbeat_timeout_secs is Some ==> Some(cfg.heartbeat_timeout_secs) == dto.heartbeat_timeout_secs,
        dto.heartbeat_timeout_secs is None ==> cfg.heartbeat_timeout_secs == 10,
{
}

/// A file is taken exactly if its version is the one that is known, no section
/// holds a field that is not known, it has no Brew section, and it gives the
/// timezone once; then every section is converted.
pub proof fn law_file_is_taken_or_refused(root: ConfigRoot)
    ensures
        root.refusal() is None <==> {
            let unknown = root.unknown;
            &&& root.config_version@ == "0.6"@
            &&& !root.has_brew
            &&& unknown.top_level@.len() == 0 && unknown.phy_io@.len() == 0
            &&& unknown.net_info@.len() == 0 && unknown.cell_info@.len() == 0
            &&& unknown.neighbour_cells@.len() == 0 && unknown.network_broadcast@.len() == 0
            &&& unknown.cell_reselect@.len() == 0
            &&& root.swmi is Some ==> unknown.swmi@.len() == 0
            &&& root.telemetry is Some ==> unknown.telemetry@.len() == 0
            &&& forall|i: int|
                0 <= i < unknown.soapysdr@.len() ==> {
                    let name = (#[trigger] unknown.soapysdr@[i])@;
                    name.len() >= 8 && (name.take(8) == "rx_gain_"@ || name.take(8)
                        == "tx_gain_"@)
                }
            &&& root.cell_info.timezone is None || root.broadcast_timezone is None
        },
        root.refusal() matches Some(error) ==> match error {
            ConfigError::UnrecognizedVersion => root.config_version@ != "0.6"@,
            ConfigError::UnknownTopLevelFields => root.unknown.top_level@.len() > 0,
            ConfigError::UnknownPhyIoFields => root.unknown.phy_io@.len() > 0,
            ConfigError::UnknownSoapySdrFields => root.unknown.soapysdr@.len() > 0,
            ConfigError::UnknownNetInfoFields => root.unknown.net_info@.len() > 0,
            ConfigError::UnknownCellInfoFields => root.unknown.cell_info@.len() > 0,
            ConfigError::UnknownBrewFields => root.has_brew && root.unknown.brew@.len() > 0,
            ConfigError::BrewRemoved => root.has_brew && root.unknown.brew@.len() == 0,
            ConfigError::UnknownNeighbourCellFields => root.unknown.neighbour_cells@.len() > 0,
            ConfigError::UnknownNetworkBroadcastFields => root.unknown.network_broadcast@.len() > 0,
            ConfigError::UnknownCellReselectFields => root.unknown.cell_reselect@.len() > 0,
            ConfigError::TimezoneTwice => root.cell_info.timezone is Some
                && root.broadcast_timezone is Some,
            ConfigError::UnknownSwmiFields => root.unknown.swmi@.len() > 0,
            ConfigError::UnknownTelemetryFields => root.unknown.telemetry@.len() > 0,
            _ => false,
        },
{
    reveal_strlit("rx_gain_");
    reveal_strlit("tx_gain_");
    assert("rx_gain_"@.len() == 8 && "tx_gain_"@.len() == 8);
}

/// A configuration is made of the sections of its file: each of them sets what
/// it is named for, the timezone of the broadcast is that of either section, and
/// what the file has no section for the configuration does not have.
pub proof fn law_configuration_is_that_of_the_file(root: ConfigRoot, cfg: StackConfig)
    requires
        crate::bluestation::parsing::is_outcome(root, Ok(cfg)),
    ensures
        cfg.stack_mode == root.stack_mode,
        cfg.debug_log == root.debug_log,
        cfg.phy_io == root.phy_io,
        cfg.net == root.net_info,
        cfg.cell.main_carrier == root.cell_info.main_carrier,
        cfg.cell.location_area == root.cell_info.location_area,
        cfg.neighbour_cells.ids == root.neighbour_cells.ids,
        root.network_broadcast matches Ok(section)
            && cfg.network_broadcast.cell_reselect_parameters == section.cell_reselect_parameters
            && cfg.network_broadcast.cell_load_ca == section.cell_load_ca
            && cfg.network_broadcast.time_enabled == section.time_enabled,
        root.broadcast_timezone is Some ==> cfg.network_broadcast.timezone is Some
            && cfg.network_broadcast.timezone->0@ == root.broadcast_timezone->0@,
        root.broadcast_timezone is None && root.cell_info.timezone is Some
            ==> cfg.network_broadcast.timezone is Some && cfg.network_broadcast.timezone->0@
            == root.cell_info.timezone->0@,
        root.broadcast_timezone is None && root.cell_info.timezone is None
            ==> cfg.network_broadcast.timezone is None,
        cfg.brew is None,
        cfg.swmi is Some <==> root.swmi is Some,
        root.swmi is Some ==> cfg.swmi->0.host == root.swmi->0.host,
        root.telemetry is None ==> cfg.telemetry is None,
        root.telemetry is Some ==> root.telemetry->0 == Ok::<CfgEndpoint, String>(
            cfg.telemetry->0,
        ),
        root.command is None ==> cfg.control is None,
        root.command is Some ==> root.command->0 == Ok::<CfgEndpoint, String>(cfg.control->0),
{
}

// ---------------------------------------------------------------------------
// Network time and rollover
// ---------------------------------------------------------------------------

/// Network time runs in units of two seconds from the start of the year 2000: the
/// next unit of a year comes one later, and a year is followed by the next one
/// after its 365 or 366 days.
pub proof fn law_network_time_runs(value: u64)
    requires
        value < 0x1_0000_0000_0000,
    ensures
        value < 0x800 ==> crate::bluestation::rollover::network_time_units(value) == Some(0int),
        value + 0x100_0000 < 0x1_0000_0000_0000
            ==> crate::bluestation::rollover::network_time_units((value + 0x100_0000) as u64)->0
            == crate::bluestation::rollover::network_time_units(value)->0 + 1,
        value / 2048 % 64 < 63 ==> crate::bluestation::rollover::network_time_units(
            (value + 2048) as u64,
        )->0 == crate::bluestation::rollover::network_time_units(value)->0 + 43_200 * if (value
            / 2048 % 64) % 4 == 0 {
            366int
        } else {
            365int
        },
{
    let v = value as int;
    lemma_first_units(v);
    lemma_next_unit(v);
    lemma_next_year(v);
    let year = v / 2048 % 64;
    assert(crate::bluestation::rollover::is_leap(2000 + year) <==> year % 4 == 0) by {
        if year % 4 == 0 {
            assert((2000 + year) % 100 == 0 ==> year == 0);
        }
    }
    assert(crate::bluestation::rollover::days_before(2000 + year + 1)
        == crate::bluestation::rollover::days_before(2000 + year)
        + if crate::bluestation::rollover::is_leap(2000 + year) {
        366int
    } else {
        365
    });
}

proof fn lemma_first_units(v: int)
    ensures
        0 <= v < 0x800 ==> v / 2048 % 64 == 0 && v / 0x100_0000 == 0,
{
}

proof fn lemma_next_unit(v: int)
    requires
        0 <= v,
    ensures
        (v + 0x100_0000) / 2048 % 64 == v / 2048 % 64,
        (v + 0x100_0000) / 0x100_0000 == v / 0x100_0000 + 1,
{
    assert((v + 0x100_0000) / 2048 == v / 2048 + 8192);
    vstd::arithmetic::div_mod::lemma_mod_multiples_vanish(128, v / 2048, 64);
}

proof fn lemma_next_year(v: int)
    requires
        0 <= v,
    ensures
        v / 2048 % 64 < 63 ==> (v + 2048) / 2048 % 64 == v / 2048 % 64 + 1,
        v / 2048 % 64 < 63 ==> (v + 2048) / 0x100_0000 == v / 0x100_0000,
{
    let q = v / 2048;
    assert((v + 2048) / 2048 == q + 1);
    if q % 64 < 63 {
        assert((q + 1) % 64 == q % 64 + 1);
        assert((q + 1) / 64 == q / 64);
        assert(v / 0x100_0000 == q / 8192);
        assert((v + 2048) / 0x100_0000 == (q + 1) / 8192);
        assert(q / 8192 == q / 64 / 128);
        assert((q + 1) / 8192 == (q + 1) / 64 / 128);
    }
}

/// When the slot of a rollover comes, the staged key is the one in use from then
/// on, the former one is kept for reception for two more slots, and nothing else
/// changes; before the slot nothing does.
pub proof fn law_rollover_happens_at_its_slot(
    config: RuntimeAieConfig,
    rollover: RuntimeSc2Rollover,
    former: RuntimeSc2Aie,
    slot: TdmaTime,
    now: TdmaTime,
)
    requires
        config.rollover == Some(rollover),
        config.sc2 == Some(former),
        rollover.local_activation_tdma == Some(slot),
        !rollover.activated,
    ensures
        now.since(slot) < 0 ==> config.promoted(now) == config && config.promotes(now) is None,
        now.since(slot) >= 0 ==> {
            let after = config.promoted(now);
            &&& config.promotes(now) == Some(rollover.rollover_id)
            &&& after.sc2 == Some(rollover.future)
            &&& after.enabled == config.enabled && after.sc1_allowed == config.sc1_allowed
            &&& after.rollover matches Some(done) && done.activated && done.rollover_id
                == rollover.rollover_id && done.local_activation_tdma == Some(slot)
                && done.future == rollover.future && done.activation_network_time
                == rollover.activation_network_time && done.retired_rx == Some(
                RetiredKey { key: former, until: now.plus(2) },
            )
        },
{
}

/// A terminal that registers is told of a rollover whose slot is known: before
/// the change the staged key and its slot, after it the key in use and no slot.
pub proof fn law_terminals_are_told_of_the_rollover(
    config: RuntimeAieConfig,
    rollover: RuntimeSc2Rollover,
    current: RuntimeSc2Aie,
)
    requires
        config.sc2 == Some(current),
    ensures
        config.rollover is None ==> config.notification() is None,
        config.rollover == Some(rollover) && rollover.activated ==> (config.notification() matches Some(
            (binding, slot),
        ) && slot is None && binding.key.sckn == current.sckn && binding.key.sck_vn
            == current.sck_vn && binding.key == current.identity()),
        config.rollover == Some(rollover) && !rollover.activated
            && rollover.local_activation_tdma is None ==> config.notification() is None,
        config.rollover == Some(rollover) && !rollover.activated
            && rollover.local_activation_tdma is Some ==> (config.notification() matches Some(
            (binding, slot),
        ) && slot == rollover.local_activation_tdma && binding.key.sckn == rollover.future.sckn
            && binding.key.sck_vn == rollover.future.sck_vn && binding.key
            == rollover.future.identity()),
{
}

/// A rollover is staged only on top of the key that is in use, for a time that is
/// one, and, where the former rollover has been made, for a later time; a refusal
/// says which of these fails.
pub proof fn law_staging_is_checked(
    config: RuntimeAieConfig,
    rollover_id: u64,
    active: RuntimeSc2Binding,
    future: RuntimeSc2Aie,
    time: u64,
)
    ensures
        ({
            let fault = config.staging_fault(rollover_id, active, future, time);
            let current = config.sc2->0;
            let fits = time < 0x1_0000_0000_0000;
            let usable = config.enabled && config.sc2 is Some;
            let same = current.identity() == active.key;
            &&& !fits ==> fault == Some("rollover network time exceeds 48 bits"@)
            &&& fits && !usable ==> fault == Some("SC2 is not enabled"@)
            &&& fits && usable && !same ==> fault == Some(
                "rollover active identity does not match local SC2 state"@,
            )
            &&& fault is None ==> fits && usable && same && (config.repeats(rollover_id)
                || future.sckn != current.sckn && future.algorithm == current.algorithm
                && future.sck_vn % 2 != current.sck_vn % 2)
            &&& fault is None && config.repeats(rollover_id) ==> config.rollover->0.future == future
                && config.rollover->0.activation_network_time == time
            &&& fault is None && config.rollover is None ==> future.sck_vn == (current.sck_vn + 1)
                % 65536
            &&& fault is None && config.rollover is Some && config.rollover->0.activated
                && config.rollover->0.rollover_id != rollover_id
                ==> crate::bluestation::rollover::network_time_units(time)->0
                > crate::bluestation::rollover::network_time_units(
                config.rollover->0.activation_network_time,
            )->0
        }),
{
}

/// The slot of a rollover is set once, for the first slot that names the key at
/// or after the target.
pub proof fn law_rollover_is_scheduled_once(
    config: RuntimeAieConfig,
    current_network_time: u64,
    now: TdmaTime,
    slot: TdmaTime,
)
    requires
        config.slots_to_target(current_network_time) is Some,
        config.is_rollover_slot(current_network_time, now, slot),
    ensures
        config.scheduled(slot).rollover matches Some(rollover) && rollover.local_activation_tdma
            == Some(slot) && rollover.future == config.rollover->0.future && !rollover.activated
            && rollover.rollover_id == config.rollover->0.rollover_id,
        config.scheduled(slot).sc2 == config.sc2,
        config.scheduled(slot).slots_to_target(current_network_time) is None,
        crate::tdma::slot_is_security_sysinfo(slot.slots()),
{
    crate::bluestation::rollover::law_rollover_slot_names_the_key(
        now,
        config.slots_to_target(current_network_time)->0,
        slot,
    );
}

/// While a key is in use and no rollover has a slot, every slot on the air has
/// that key, in both directions; without a key in use none has one.
pub proof fn law_air_has_the_key_in_use(
    config: RuntimeAieConfig,
    direction: AieDirection,
    time: TdmaTime,
)
    ensures
        config.enabled && config.sc2 is Some && (config.rollover is None
            || config.rollover->0.local_activation_tdma is None) ==> config.air_key(direction, time)
            == Ok::<RuntimeSc2Aie, AieContextError>(config.sc2->0),
        !config.enabled || config.sc2 is None ==> config.air_key(direction, time) is Err,
{
}

// ---------------------------------------------------------------------------
// Contexts of encryption
// ---------------------------------------------------------------------------

/// Who may use the key: a terminal with a session, a leg of a call with a session,
/// and every group; cell-wide signalling may not.
pub proof fn law_subjects_that_may_use_the_key(
    state: StackState,
    issi: u32,
    gssi: u32,
    call_id: u32,
)
    ensures
        ({
            let leg = AieSubject::Call { call_id, issi: Some(issi), gssi: None };
            &&& state.subject_fault(AieSubject::Individual { issi }) is None
                <==> state.aie_sessions@.terminal(issi) is Some
            &&& state.subject_fault(leg) is None <==> state.aie_sessions@.call(call_id, leg) is Some
            &&& state.subject_fault(AieSubject::Group { gssi }) is None
            &&& state.subject_fault(AieSubject::System) == Some(AieContextError::UnsupportedSubject)
            &&& state.aie_sessions@.terminal(issi) is None ==> state.subject_fault(
                AieSubject::Individual { issi },
            ) == Some(AieContextError::SubjectNotProvisioned)
        }),
{
}

/// A block is ciphered with the key that is on the air in its slot and direction,
/// and only in a context of that direction that names that very key and whose
/// subject may use it; otherwise the error says which of these fails.
pub proof fn law_context_is_checked(
    config: SharedConfig,
    subject: AieSubject,
    direction: AieDirection,
    expected: AieDirection,
    time: TdmaTime,
    scope: AieScope,
    named: Sc2KeyIdentifier,
)
    ensures
        ({
            let context = AieContext::Sc2 { subject, direction, time, scope, key: named };
            let on_air = config.state.aie.air_key(expected, time);
            let r = config.context_key(context, expected);
            &&& r is Ok <==> direction == expected && on_air is Ok && on_air->Ok_0.sckn
                == named.sckn && on_air->Ok_0.sck_vn == named.sck_vn
                && on_air->Ok_0.identity().algorithm == named.algorithm
                && config.state.subject_fault(subject) is None
            &&& r is Ok ==> r->Ok_0 == on_air->Ok_0
            &&& direction != expected ==> r == Err::<RuntimeSc2Aie, AieContextError>(
                AieContextError::InvalidContext,
            )
            &&& direction == expected && on_air is Ok && on_air->Ok_0.identity() != named ==> r
                == Err::<RuntimeSc2Aie, AieContextError>(AieContextError::StaleKeyIdentity)
            &&& config.context_key(
                AieContext::Clear { subject, direction, time, scope },
                expected,
            ) == Err::<RuntimeSc2Aie, AieContextError>(AieContextError::InvalidContext)
        }),
{
}

/// A request becomes a context of its own subject and kind of PDU, in the direction
/// and slot in which it is sent: a clear one always, a protected one with the key
/// that is on the air there.
pub proof fn law_request_becomes_its_context(
    config: SharedConfig,
    subject: AieSubject,
    direction: AieDirection,
    time: TdmaTime,
    scope: AieScope,
)
    ensures
        config.resolved(AieRequest::Clear { subject, scope }, direction, time) == Ok::<
            AieContext,
            AieContextError,
        >(AieContext::Clear { subject, direction, time, scope }),
        config.resolved(AieRequest::Sc2 { subject, scope }, direction, time) matches Ok(context)
            ==> context == (AieContext::Sc2 {
            subject,
            direction,
            time,
            scope,
            key: config.state.aie.air_key(direction, time)->Ok_0.identity(),
        }),
        config.resolved(AieRequest::Sc2 { subject, scope }, direction, time) is Ok
            <==> config.state.aie.air_key(direction, time) is Ok && config.state.subject_fault(
            subject,
        ) is None,
{
}

/// The key of a slot is used with the numbers of that slot and with its direction.
pub proof fn law_stream_is_that_of_the_slot(time: TdmaTime)
    requires
        time.wf(),
    ensures
        ({
            let up = crate::bluestation::key_provider::slot_numbers(time, AieDirection::Uplink);
            let down = crate::bluestation::key_provider::slot_numbers(time, AieDirection::Downlink);
            &&& up.timeslot == time.t && up.frame == time.f && up.multiframe == time.m
                && up.hyperframe == time.h && up.uplink
            &&& up.packed() == down.packed() + 0x1000_0000
            &&& down.packed() % 4 == time.t - 1
            &&& down.packed() / 4 % 32 == time.f
            &&& down.packed() / 128 % 64 == time.m
            &&& down.packed() / 8192 == time.h as int % 32768
        }),
{
    lemma_fields(time.t - 1, time.f as int, time.m as int, time.h as int % 32768);
}

proof fn lemma_fields(t: int, f: int, m: int, h: int)
    requires
        0 <= t < 4,
        0 <= f < 32,
        0 <= m < 64,
        0 <= h,
    ensures
        ({
            let packed = t + f * 4 + m * 128 + h * 8192;
            packed % 4 == t && packed / 4 % 32 == f && packed / 128 % 64 == m && packed / 8192 == h
        }),
{
    let packed = t + f * 4 + m * 128 + h * 8192;
    vstd::arithmetic::div_mod::lemma_fundamental_div_mod_converse(
        packed,
        4,
        f + m * 32 + h * 2048,
        t,
    );
    vstd::arithmetic::div_mod::lemma_fundamental_div_mod_converse(
        f + m * 32 + h * 2048,
        32,
        m + h * 64,
        f,
    );
    vstd::arithmetic::div_mod::lemma_fundamental_div_mod_converse(
        packed,
        128,
        m + h * 64,
        t + f * 4,
    );
    vstd::arithmetic::div_mod::lemma_fundamental_div_mod_converse(m + h * 64, 64, h, m);
    vstd::arithmetic::div_mod::lemma_fundamental_div_mod_converse(
        packed,
        8192,
        h,
        t + f * 4 + m * 128,
    );
}

/// An encrypted random number is split without rest: ten bytes are the key, and the
/// others make up the response.
pub proof fn law_encrypted_number_is_split(e: Seq<u8>, result: AuthResult)
    requires
        e.len() == 16,
        crate::crypto::taa1::is_auth_result(e, result),
    ensures
        forall|i: int|
            0 <= i < 10 ==> #[trigger] result.derived_cipher_key@[i] == e[3 * (i / 2) + 1 + i % 2],
        result.response@[0] == e[0] ^ e[3],
        result.response@[1] == e[6],
        result.response@[2] == e[9],
        result.response@[3] == e[12] ^ e[15],
{
}

// ---------------------------------------------------------------------------
// Subscribers
// ---------------------------------------------------------------------------

/// A terminal that registers anew scans groups, saves no energy, and has said
/// nothing of its user.
pub proof fn law_new_subscriber_is_awake(registry: RegistryView, issi: u32)
    ensures
        ({
            let known = registry.registering(issi).known(issi);
            &&& known.issi == issi
            &&& known.energy_economy_mode == 0 && known.energy_economy_frame_number is None
                && known.energy_economy_multiframe_number is None
            &&& !known.energy_economy_activation_pending
            &&& known.scanning_enabled
            &&& known.rua_assigned is None
        }),
{
    crate::bluestation::subscribers::law_registration_starts_anew(registry, issi, 0);
}

/// What is listed of the energy economy of a terminal is what is known of it.
pub proof fn law_listed_economy_is_that_of_the_terminal(subscriber: Subscriber)
    ensures
        ({
            let listed = crate::bluestation::subscribers::economy_of(subscriber);
            &&& listed.issi == subscriber.issi
            &&& listed.mode == subscriber.energy_economy_mode
            &&& listed.frame_number == subscriber.energy_economy_frame_number
            &&& listed.multiframe_number == subscriber.energy_economy_multiframe_number
        }),
{
}

/// What changes for one terminal does not change for another: whether it is
/// registered, delivered or awaited, and what is known of it.
pub proof fn law_subscribers_are_apart(
    registry: RegistryView,
    issi: u32,
    other: u32,
    gssi: u32,
    subscriber: Subscriber,
)
    requires
        other != issi,
    ensures
        registry.with(issi, subscriber).known(issi) == subscriber,
        registry.with(issi, subscriber).known(other) == registry.known(other),
        registry.with(issi, subscriber).registered(other) == registry.registered(other),
        registry.registering(issi).known(other) == registry.known(other),
        registry.activated(issi).is_active(other) == registry.is_active(other),
        registry.activated(issi).is_pending(other) == registry.is_pending(other),
        registry.deactivated(issi).is_active(other) == registry.is_active(other),
        registry.awaiting(issi, true).is_pending(other) == registry.is_pending(other),
        registry.awaiting(issi, true).is_active(other) == registry.is_active(other),
        registry.attached(issi, gssi).registered(issi),
        registry.attached(issi, gssi).known(other) == registry.known(other),
        registry.registered(issi) ==> registry.attached(issi, gssi).known(issi) == registry.known(
            issi,
        ),
{
    let fresh = Subscriber::fresh(issi);
    crate::table::law_lookup_after_put(registry.subscribers, issi, subscriber, issi);
    crate::table::law_lookup_after_put(registry.subscribers, issi, subscriber, other);
    crate::table::law_lookup_after_put(registry.subscribers, issi, fresh, issi);
    crate::table::law_lookup_after_put(registry.subscribers, issi, fresh, other);
    crate::table::law_lookup_after_del(registry.subscribers, issi, other);
    crate::table::law_lookup_after_put(
        registry.deregistered(issi).subscribers,
        issi,
        fresh,
        other,
    );
    crate::table::law_lookup_after_put(registry.active, issi, true, other);
    crate::table::law_lookup_after_put(registry.pending, issi, true, other);
    crate::table::law_lookup_after_del(registry.active, issi, other);
    crate::table::law_lookup_after_del(registry.pending, issi, other);
}

/// The window for a direct response is open for two seconds: for 144 slots.
pub proof fn law_window_lasts_two_multiframes(registry: RegistryView, issi: u32, now: TdmaTime)
    requires
        registry.wf(),
        now.wf(),
    ensures
        crate::table::contains(
            registry.with_window(issi, now).expired(now.plus(144)).deadlines,
            issi,
        ),
        !crate::table::contains(
            registry.with_window(issi, now).expired(now.plus(145)).deadlines,
            issi,
        ),
{
    crate::bluestation::subscribers::law_window_expires(registry, issi, now, 144);
    crate::bluestation::subscribers::law_window_expires(registry, issi, now, 145);
}

} // verus!
