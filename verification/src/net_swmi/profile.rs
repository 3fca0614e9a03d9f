//! What the station reports of its cell.
use crate::bluestation::network_broadcast::{AdvertisedView, RuntimeNetworkBroadcast};
use crate::bluestation::sec_cell::CfgCellInfo;
use crate::bluestation::state::SharedConfig;
use crate::net_swmi::protocol::{
    has_flag, with_live_services, BsServiceDetails, CellConfig, SystemInfo, SystemInfoReport,
};
use vstd::prelude::*;

verus! {

/// The radio settings of the station as they are configured.
#[derive(Debug, Clone, Copy, PartialEq, Eq, Structural)]
pub struct LocalRadioProfile {
    pub main_carrier: u16,
    pub frequency_band: u8,
    pub frequency_offset_hz: i16,
    pub duplex_spacing_id: u8,
    pub reverse_operation: bool,
    pub colour_code: u8,
    pub system_code: u8,
    pub service_flags: u16,
    pub ms_txpwr_max_cell: u8,
    pub rxlev_access_min: u8,
    pub subscriber_class: u16,
    pub tdma_synchronized: bool,
    pub tdma_frame_offset: u8,
}

/// The model of a report.
#[verifier::ext_equal]
pub ghost struct ReportView {
    pub info: SystemInfo,
    pub neighbours: Seq<String>,
}

impl View for SystemInfoReport {
    type V = ReportView;

    open spec fn view(&self) -> ReportView {
        ReportView { info: self.info, neighbours: self.neighbour_station_ids@ }
    }
}

impl LocalRadioProfile {
    /// The settings of a configured cell.
    pub open spec fn of_cell(
        cell: CfgCellInfo,
        tdma_synchronized: bool,
        tdma_frame_offset: u8,
    ) -> LocalRadioProfile {
        LocalRadioProfile {
            main_carrier: cell.main_carrier,
            frequency_band: cell.freq_band,
            frequency_offset_hz: cell.freq_offset_hz,
            duplex_spacing_id: cell.duplex_spacing_id,
            reverse_operation: cell.reverse_operation,
            colour_code: cell.colour_code,
            system_code: cell.system_code,
            service_flags: (BsServiceDetails {
                registration: cell.registration,
                deregistration: cell.deregistration,
                priority_cell: cell.priority_cell,
                no_minimum_mode: cell.no_minimum_mode,
                migration: cell.migration,
                system_wide_services: cell.system_wide_services,
                voice_service: cell.voice_service,
                circuit_mode_data_service: cell.circuit_mode_data_service,
                sndcp_service: cell.sndcp_service,
                aie_service: cell.aie_service,
                advanced_link: cell.advanced_link,
            }).flags(),
            ms_txpwr_max_cell: cell.ms_txpwr_max_cell,
            rxlev_access_min: cell.rxlev_access_min,
            subscriber_class: cell.subscriber_class,
            tdma_synchronized,
            tdma_frame_offset,
        }
    }

    /// The settings of a configured cell. `tdma_synchronized` and
    /// `tdma_frame_offset` tell whether and how its frames follow a common clock.
    pub fn from_config(
        config: &SharedConfig,
        tdma_synchronized: bool,
        tdma_frame_offset: u8,
    ) -> (profile: Self)
        ensures
            profile == LocalRadioProfile::of_cell(
                config.cfg.cell,
                tdma_synchronized,
                tdma_frame_offset,
            ),
    {
        let cell = &config.cfg.cell;
        let services = BsServiceDetails {
            registration: cell.registration,
            deregistration: cell.deregistration,
            priority_cell: cell.priority_cell,
            no_minimum_mode: cell.no_minimum_mode,
            migration: cell.migration,
            system_wide_services: cell.system_wide_services,
            voice_service: cell.voice_service,
            circuit_mode_data_service: cell.circuit_mode_data_service,
            sndcp_service: cell.sndcp_service,
            aie_service: cell.aie_service,
            advanced_link: cell.advanced_link,
        };
        LocalRadioProfile {
            main_carrier: cell.main_carrier,
            frequency_band: cell.freq_band,
            frequency_offset_hz: cell.freq_offset_hz,
            duplex_spacing_id: cell.duplex_spacing_id,
            reverse_operation: cell.reverse_operation,
            colour_code: cell.colour_code,
            system_code: cell.system_code,
            service_flags: services.flags(),
            ms_txpwr_max_cell: cell.ms_txpwr_max_cell,
            rxlev_access_min: cell.rxlev_access_min,
            subscriber_class: cell.subscriber_class,
            tdma_synchronized,
            tdma_frame_offset,
        }
    }

    /// The service flags that hold now. What a neighbour tells of this cell must
    /// agree with what the cell itself tells: the services of the whole network
    /// follow the connection, and encryption follows the policy of the SwMI,
    /// whatever the configuration says.
    #[verifier::allow_in_spec]
    pub fn effective_service_flags(&self, network_connected: bool, aie_enabled: bool) -> u16
        returns
            (with_live_services(self.service_flags, network_connected, aie_enabled)),
    {
        with_live_services(self.service_flags, network_connected, aie_enabled)
    }

    /// The report of the cell.
    pub open spec fn reported(
        self,
        cell: CellConfig,
        runtime: AdvertisedView,
        network_connected: bool,
    ) -> ReportView {
        ReportView {
            info: SystemInfo {
                report_version: cell.config_version,
                cell,
                main_carrier: self.main_carrier,
                frequency_band: self.frequency_band,
                frequency_offset_hz: self.frequency_offset_hz,
                duplex_spacing_id: self.duplex_spacing_id,
                reverse_operation: self.reverse_operation,
                colour_code: self.colour_code,
                system_code: self.system_code,
                service_flags: self.effective_service_flags(network_connected, cell.aie.enabled),
                ms_txpwr_max_cell: self.ms_txpwr_max_cell,
                rxlev_access_min: self.rxlev_access_min,
                subscriber_class: self.subscriber_class,
                cell_load_ca: runtime.broadcast.cell_load_ca,
                synchronized: self.tdma_synchronized,
                tdma_frame_offset: self.tdma_frame_offset,
            },
            neighbours: runtime.neighbours,
        }
    }

    /// The report of the cell.
    pub fn report(
        &self,
        cell: CellConfig,
        runtime: &RuntimeNetworkBroadcast,
        network_connected: bool,
    ) -> (report: SystemInfoReport)
        ensures
            report@ == self.reported(cell, runtime@, network_connected),
    {
        let neighbour_station_ids: Vec<String> = copy_names(&runtime.neighbours.ids);
        SystemInfoReport {
            info: SystemInfo {
                report_version: cell.config_version,
                cell,
                main_carrier: self.main_carrier,
                frequency_band: self.frequency_band,
                frequency_offset_hz: self.frequency_offset_hz,
                duplex_spacing_id: self.duplex_spacing_id,
                reverse_operation: self.reverse_operation,
                colour_code: self.colour_code,
                system_code: self.system_code,
                service_flags: self.effective_service_flags(network_connected, cell.aie.enabled),
                ms_txpwr_max_cell: self.ms_txpwr_max_cell,
                rxlev_access_min: self.rxlev_access_min,
                subscriber_class: self.subscriber_class,
                cell_load_ca: runtime.broadcast.cell_load_ca,
                synchronized: self.tdma_synchronized,
                tdma_frame_offset: self.tdma_frame_offset,
            },
            neighbour_station_ids,
        }
    }
}

fn copy_names(names: &Vec<String>) -> (copy: Vec<String>)
    ensures
        copy@ == names@,
{
    let mut copy: Vec<String> = Vec::new();
    let mut i: usize = 0;
    while i < names.len()
        invariant
            i <= names@.len(),
            copy@ == names@.take(i as int),
        decreases names@.len() - i,
    {
        copy.push(names[i].clone());
        i = i + 1;
        assert(copy@ =~= names@.take(i as int));
    }
    assert(copy@ =~= names@);
    copy
}

/// What a neighbour broadcasts of this cell is what the cell tells of itself:
/// services of the whole network while the SwMI is connected, encryption while
/// it is on.
pub proof fn law_neighbours_see_the_live_services(
    profile: LocalRadioProfile,
    cell: CellConfig,
    runtime: AdvertisedView,
    network_connected: bool,
)
    ensures
        ({
            let seen = BsServiceDetails::of_flags(
                profile.reported(cell, runtime, network_connected).info.service_flags,
            );
            let configured = BsServiceDetails::of_flags(profile.service_flags);
            seen == (BsServiceDetails {
                system_wide_services: network_connected,
                aie_service: cell.aie.enabled,
                ..configured
            })
        }),
{
    let all = profile.reported(cell, runtime, network_connected).info.service_flags;
    let flags = profile.service_flags;
    crate::net_swmi::protocol::law_live_services_are_set(
        flags,
        network_connected,
        cell.aie.enabled,
    );
    assert(has_flag(all, 0) == has_flag(flags, 0));
    assert(has_flag(all, 1) == has_flag(flags, 1));
    assert(has_flag(all, 2) == has_flag(flags, 2));
    assert(has_flag(all, 3) == has_flag(flags, 3));
    assert(has_flag(all, 4) == has_flag(flags, 4));
    assert(has_flag(all, 6) == has_flag(flags, 6));
    assert(has_flag(all, 7) == has_flag(flags, 7));
    assert(has_flag(all, 8) == has_flag(flags, 8));
    assert(has_flag(all, 9) == has_flag(flags, 9));
}

} // verus!
