//! Cell section of the configuration.
use vstd::prelude::*;

verus! {

/// Dynamic common-channel random-access control for access code A.
#[derive(Debug, Clone, Copy, PartialEq, Eq, Structural)]
pub struct CfgRandomAccess {
    pub enabled: bool,
    pub update_interval_multiframes: u8,
    pub startup_grace_multiframes: u8,
    pub recovery_step_multiframes: u8,
    pub low_load_threshold: u8,
    pub high_load_threshold: u8,
    pub imm_min: u8,
    pub imm_max: u8,
    pub wt_min: u8,
    pub wt_max: u8,
    pub nu_min: u8,
    pub nu_max: u8,
    pub frame_len_min: u8,
    pub frame_len_max: u8,
    pub retry_window_multiframes: u8,
    pub retry_weight_percent: u8,
    pub ewma_alpha_percent: u8,
    pub frame_factor_activation_windows: u8,
    pub frame_factor_release_windows: u8,
}

/// The random-access control of a cell that sets none.
pub open spec fn default_random_access() -> CfgRandomAccess {
    CfgRandomAccess {
        enabled: true,
        update_interval_multiframes: 1,
        startup_grace_multiframes: 5,
        recovery_step_multiframes: 3,
        low_load_threshold: 2,
        high_load_threshold: 8,
        imm_min: 0,
        imm_max: 15,
        wt_min: 3,
        wt_max: 8,
        nu_min: 3,
        nu_max: 5,
        frame_len_min: 2,
        frame_len_max: 8,
        retry_window_multiframes: 30,
        retry_weight_percent: 33,
        ewma_alpha_percent: 50,
        frame_factor_activation_windows: 3,
        frame_factor_release_windows: 3,
    }
}

impl Default for CfgRandomAccess {
    fn default() -> (cfg: Self)
        ensures
            cfg == default_random_access(),
    {
        CfgRandomAccess {
            enabled: true,
            update_interval_multiframes: 1,
            startup_grace_multiframes: 5,
            recovery_step_multiframes: 3,
            low_load_threshold: 2,
            high_load_threshold: 8,
            imm_min: 0,
            imm_max: 15,
            wt_min: 3,
            wt_max: 8,
            nu_min: 3,
            nu_max: 5,
            frame_len_min: 2,
            frame_len_max: 8,
            retry_window_multiframes: 30,
            retry_weight_percent: 33,
            ewma_alpha_percent: 50,
            frame_factor_activation_windows: 3,
            frame_factor_release_windows: 3,
        }
    }
}

/// Ranges of short identities, both ends included.
#[derive(Debug)]
pub struct SsiRanges {
    pub ranges: Vec<(u32, u32)>,
}

impl SsiRanges {
    /// Whether the identity lies in one of the ranges.
    pub open spec fn holds(&self, ssi: u32) -> bool {
        exists|i: int|
            0 <= i < self.ranges@.len() && (#[trigger] self.ranges@[i]).0 <= ssi
                <= self.ranges@[i].1
    }

    /// Whether the identity lies in one of the ranges.
    pub fn contains(&self, ssi: u32) -> (r: bool)
        ensures
            r == self.holds(ssi),
    {
        let mut i: usize = 0;
        while i < self.ranges.len()
            invariant
                i <= self.ranges@.len(),
                forall|j: int|
                    0 <= j < i ==> !((#[trigger] self.ranges@[j]).0 <= ssi <= self.ranges@[j].1),
            decreases self.ranges@.len() - i,
        {
            let (low, high) = self.ranges[i];
            if low <= ssi && ssi <= high {
                assert(self.ranges@[i as int].0 <= ssi <= self.ranges@[i as int].1);
                return true;
            }
            i = i + 1;
        }
        false
    }
}

/// A cell.
#[derive(Debug)]
pub struct CfgCellInfo {
    /// Carrier number, 12 bits.
    pub main_carrier: u16,
    pub freq_band: u8,
    /// Offset from the 25 kHz raster: 0, 6250, -6250 or 12500 Hz.
    pub freq_offset_hz: i16,
    /// Index in the duplex spacing table.
    pub duplex_spacing_id: u8,
    pub reverse_operation: bool,
    /// Duplex spacing in Hz, for a table of one's own.
    pub custom_duplex_spacing: Option<u32>,
    /// Location area, 14 bits.
    pub location_area: u16,
    /// Authentication is required in this cell.
    pub authentication_required: bool,
    pub neighbor_cell_broadcast: u8,
    pub late_entry_supported: bool,
    pub subscriber_class: u16,
    pub registration: bool,
    pub deregistration: bool,
    pub priority_cell: bool,
    pub no_minimum_mode: bool,
    pub migration: bool,
    pub system_wide_services: bool,
    pub voice_service: bool,
    pub circuit_mode_data_service: bool,
    pub sndcp_service: bool,
    pub aie_service: bool,
    pub advanced_link: bool,
    pub system_code: u8,
    pub colour_code: u8,
    pub sharing_mode: u8,
    pub ts_reserved_frames: u8,
    pub u_plane_dtx: bool,
    pub frame_18_ext: bool,
    pub ms_txpwr_max_cell: u8,
    pub rxlev_access_min: u8,
    pub access_parameter: u8,
    pub random_access: CfgRandomAccess,
    /// The identities that are never handed to the network.
    pub local_ssi_ranges: SsiRanges,
    /// IANA timezone name. With it the cell broadcasts the network time.
    pub timezone: Option<String>,
}

/// The cell section as it is written; what is left out takes its default.
pub struct CellInfoDto {
    pub main_carrier: u16,
    pub freq_band: u8,
    pub freq_offset: i16,
    pub duplex_spacing: u8,
    pub reverse_operation: bool,
    pub custom_duplex_spacing: Option<u32>,
    pub location_area: u16,
    pub authentication_required: Option<bool>,
    pub neighbor_cell_broadcast: Option<u8>,
    pub late_entry_supported: Option<bool>,
    pub subscriber_class: Option<u16>,
    pub registration: Option<bool>,
    pub deregistration: Option<bool>,
    pub priority_cell: Option<bool>,
    pub no_minimum_mode: Option<bool>,
    pub migration: Option<bool>,
    pub system_wide_services: Option<bool>,
    pub voice_service: Option<bool>,
    pub circuit_mode_data_service: Option<bool>,
    pub sndcp_service: Option<bool>,
    pub aie_service: Option<bool>,
    pub advanced_link: Option<bool>,
    pub system_code: Option<u8>,
    pub colour_code: Option<u8>,
    pub sharing_mode: Option<u8>,
    pub ts_reserved_frames: Option<u8>,
    pub u_plane_dtx: Option<bool>,
    pub frame_18_ext: Option<bool>,
    pub ms_txpwr_max_cell: Option<u8>,
    pub rxlev_access_min: Option<u8>,
    pub access_parameter: Option<u8>,
    pub random_access: Option<RandomAccessDto>,
    pub local_ssi_ranges: Option<Vec<(u32, u32)>>,
    pub timezone: Option<String>,
}

/// The random-access section as it is written.
#[derive(Debug, Clone, Copy, PartialEq, Eq, Structural)]
pub struct RandomAccessDto {
    pub enabled: Option<bool>,
    pub update_interval_multiframes: Option<u8>,
    pub startup_grace_multiframes: Option<u8>,
    pub recovery_step_multiframes: Option<u8>,
    pub low_load_threshold: Option<u8>,
    pub high_load_threshold: Option<u8>,
    pub imm_min: Option<u8>,
    pub imm_max: Option<u8>,
    pub wt_min: Option<u8>,
    pub wt_max: Option<u8>,
    pub nu_min: Option<u8>,
    pub nu_max: Option<u8>,
    pub frame_len_min: Option<u8>,
    pub frame_len_max: Option<u8>,
    pub retry_window_multiframes: Option<u8>,
    pub retry_weight_percent: Option<u8>,
    pub ewma_alpha_percent: Option<u8>,
    pub frame_factor_activation_windows: Option<u8>,
    pub frame_factor_release_windows: Option<u8>,
}

/// What is written, or else the default.
pub open spec fn or_default<T>(written: Option<T>, default: T) -> T {
    match written {
        Some(value) => value,
        None => default,
    }
}

fn value_or<T: Copy>(written: Option<T>, default: T) -> (value: T)
    ensures
        value == or_default(written, default),
{
    match written {
        Some(value) => value,
        None => default,
    }
}

/// The random-access control that is written.
pub open spec fn random_access_of(written: Option<RandomAccessDto>) -> CfgRandomAccess {
    let default = default_random_access();
    match written {
        None => default,
        Some(dto) => CfgRandomAccess {
            enabled: or_default(dto.enabled, default.enabled),
            update_interval_multiframes: or_default(
                dto.update_interval_multiframes,
                default.update_interval_multiframes,
            ),
            startup_grace_multiframes: or_default(
                dto.startup_grace_multiframes,
                default.startup_grace_multiframes,
            ),
            recovery_step_multiframes: or_default(
                dto.recovery_step_multiframes,
                default.recovery_step_multiframes,
            ),
            low_load_threshold: or_default(dto.low_load_threshold, default.low_load_threshold),
            high_load_threshold: or_default(dto.high_load_threshold, default.high_load_threshold),
            imm_min: or_default(dto.imm_min, default.imm_min),
            imm_max: or_default(dto.imm_max, default.imm_max),
            wt_min: or_default(dto.wt_min, default.wt_min),
            wt_max: or_default(dto.wt_max, default.wt_max),
            nu_min: or_default(dto.nu_min, default.nu_min),
            nu_max: or_default(dto.nu_max, default.nu_max),
            frame_len_min: or_default(dto.frame_len_min, default.frame_len_min),
            frame_len_max: or_default(dto.frame_len_max, default.frame_len_max),
            retry_window_multiframes: or_default(
                dto.retry_window_multiframes,
                default.retry_window_multiframes,
            ),
            retry_weight_percent: or_default(
                dto.retry_weight_percent,
                default.retry_weight_percent,
            ),
            ewma_alpha_percent: or_default(dto.ewma_alpha_percent, default.ewma_alpha_percent),
            frame_factor_activation_windows: or_default(
                dto.frame_factor_activation_windows,
                default.frame_factor_activation_windows,
            ),
            frame_factor_release_windows: or_default(
                dto.frame_factor_release_windows,
                default.frame_factor_release_windows,
            ),
        },
    }
}

fn random_access_from(written: Option<RandomAccessDto>) -> (cfg: CfgRandomAccess)
    ensures
        cfg == random_access_of(written),
{
    match written {
        None => CfgRandomAccess::default(),
        Some(dto) => CfgRandomAccess {
            enabled: value_or(dto.enabled, true),
            update_interval_multiframes: value_or(dto.update_interval_multiframes, 1),
            startup_grace_multiframes: value_or(dto.startup_grace_multiframes, 5),
            recovery_step_multiframes: value_or(dto.recovery_step_multiframes, 3),
            low_load_threshold: value_or(dto.low_load_threshold, 2),
            high_load_threshold: value_or(dto.high_load_threshold, 8),
            imm_min: value_or(dto.imm_min, 0),
            imm_max: value_or(dto.imm_max, 15),
            wt_min: value_or(dto.wt_min, 3),
            wt_max: value_or(dto.wt_max, 8),
            nu_min: value_or(dto.nu_min, 3),
            nu_max: value_or(dto.nu_max, 5),
            frame_len_min: value_or(dto.frame_len_min, 2),
            frame_len_max: value_or(dto.frame_len_max, 8),
            retry_window_multiframes: value_or(dto.retry_window_multiframes, 30),
            retry_weight_percent: value_or(dto.retry_weight_percent, 33),
            ewma_alpha_percent: value_or(dto.ewma_alpha_percent, 50),
            frame_factor_activation_windows: value_or(dto.frame_factor_activation_windows, 3),
            frame_factor_release_windows: value_or(dto.frame_factor_release_windows, 3),
        },
    }
}

/// The cell that a section stands for. Where it names no local identities, those
/// up to 90 are local.
pub open spec fn is_cell_of(dto: CellInfoDto, cfg: CfgCellInfo) -> bool {
    &&& cfg.main_carrier == dto.main_carrier
    &&& cfg.freq_band == dto.freq_band
    &&& cfg.freq_offset_hz == dto.freq_offset
    &&& cfg.duplex_spacing_id == dto.duplex_spacing
    &&& cfg.reverse_operation == dto.reverse_operation
    &&& cfg.custom_duplex_spacing == dto.custom_duplex_spacing
    &&& cfg.location_area == dto.location_area
    &&& cfg.authentication_required == or_default(dto.authentication_required, false)
    &&& cfg.neighbor_cell_broadcast == or_default(dto.neighbor_cell_broadcast, 0u8)
    &&& cfg.late_entry_supported == or_default(dto.late_entry_supported, false)
    &&& cfg.subscriber_class == or_default(dto.subscriber_class, 65535u16)
    &&& cfg.registration == or_default(dto.registration, true)
    &&& cfg.deregistration == or_default(dto.deregistration, true)
    &&& cfg.priority_cell == or_default(dto.priority_cell, false)
    &&& cfg.no_minimum_mode == or_default(dto.no_minimum_mode, false)
    &&& cfg.migration == or_default(dto.migration, false)
    &&& cfg.system_wide_services == or_default(dto.system_wide_services, false)
    &&& cfg.voice_service == or_default(dto.voice_service, true)
    &&& cfg.circuit_mode_data_service == or_default(dto.circuit_mode_data_service, false)
    &&& cfg.sndcp_service == or_default(dto.sndcp_service, false)
    &&& cfg.aie_service == or_default(dto.aie_service, false)
    &&& cfg.advanced_link == or_default(dto.advanced_link, false)
    &&& cfg.system_code == or_default(dto.system_code, 3u8)
    &&& cfg.colour_code == or_default(dto.colour_code, 0u8)
    &&& cfg.sharing_mode == or_default(dto.sharing_mode, 0u8)
    &&& cfg.ts_reserved_frames == or_default(dto.ts_reserved_frames, 0u8)
    &&& cfg.u_plane_dtx == or_default(dto.u_plane_dtx, false)
    &&& cfg.frame_18_ext == or_default(dto.frame_18_ext, false)
    &&& cfg.ms_txpwr_max_cell == or_default(dto.ms_txpwr_max_cell, 4u8)
    &&& cfg.rxlev_access_min == or_default(dto.rxlev_access_min, 3u8)
    &&& cfg.access_parameter == or_default(dto.access_parameter, 7u8)
    &&& cfg.random_access == random_access_of(dto.random_access)
    &&& cfg.local_ssi_ranges.ranges@ == match dto.local_ssi_ranges {
        Some(ranges) => ranges@,
        None => seq![(0u32, 90u32)],
    }
    &&& cfg.timezone == dto.timezone
}

/// The cell that a section stands for.
pub fn cell_dto_to_cfg(ci: CellInfoDto) -> (cfg: CfgCellInfo)
    ensures
        is_cell_of(ci, cfg),
{
    let ranges: Vec<(u32, u32)> = match ci.local_ssi_ranges {
        Some(ranges) => ranges,
        None => default_local_ranges(),
    };
    CfgCellInfo {
        main_carrier: ci.main_carrier,
        freq_band: ci.freq_band,
        freq_offset_hz: ci.freq_offset,
        duplex_spacing_id: ci.duplex_spacing,
        reverse_operation: ci.reverse_operation,
        custom_duplex_spacing: ci.custom_duplex_spacing,
        location_area: ci.location_area,
        authentication_required: value_or(ci.authentication_required, false),
        neighbor_cell_broadcast: value_or(ci.neighbor_cell_broadcast, 0),
        late_entry_supported: value_or(ci.late_entry_supported, false),
        subscriber_class: value_or(ci.subscriber_class, 65535),
        registration: value_or(ci.registration, true),
        deregistration: value_or(ci.deregistration, true),
        priority_cell: value_or(ci.priority_cell, false),
        no_minimum_mode: value_or(ci.no_minimum_mode, false),
        migration: value_or(ci.migration, false),
        system_wide_services: value_or(ci.system_wide_services, false),
        voice_service: value_or(ci.voice_service, true),
        circuit_mode_data_service: value_or(ci.circuit_mode_data_service, false),
        sndcp_service: value_or(ci.sndcp_service, false),
        aie_service: value_or(ci.aie_service, false),
        advanced_link: value_or(ci.advanced_link, false),
        system_code: value_or(ci.system_code, 3),
        colour_code: value_or(ci.colour_code, 0),
        sharing_mode: value_or(ci.sharing_mode, 0),
        ts_reserved_frames: value_or(ci.ts_reserved_frames, 0),
        u_plane_dtx: value_or(ci.u_plane_dtx, false),
        frame_18_ext: value_or(ci.frame_18_ext, false),
        ms_txpwr_max_cell: value_or(ci.ms_txpwr_max_cell, 4),
        rxlev_access_min: value_or(ci.rxlev_access_min, 3),
        access_parameter: value_or(ci.access_parameter, 7),
        random_access: random_access_from(ci.random_access),
        local_ssi_ranges: SsiRanges { ranges },
        timezone: ci.timezone,
    }
}

/// Identities up to 90 are local unless the cell says otherwise, which keeps
/// unroutable traffic from the network.
fn default_local_ranges() -> (ranges: Vec<(u32, u32)>)
    ensures
        ranges@ == seq![(0u32, 90u32)],
{
    let mut ranges: Vec<(u32, u32)> = Vec::new();
    ranges.push((0, 90));
    assert(ranges@ =~= seq![(0u32, 90u32)]);
    ranges
}

} // verus!
