use tetra_bluestation::bluestation::config::{
    CfgEndpoint, CfgNetInfo, CfgPhyIo, CfgSoapySdr, PhyBackend, SecretField, StackConfig, StackMode,
};
use tetra_bluestation::bluestation::network_broadcast::CfgNeighbourCells;
use tetra_bluestation::bluestation::parsing::{
    from_root, BroadcastSection, ConfigError, ConfigRoot, UnknownFields,
};
use tetra_bluestation::bluestation::sec_cell::{CellInfoDto, RandomAccessDto, SsiRanges};
use tetra_bluestation::bluestation::sec_swmi::{apply_swmi_patch, CfgSwmiDto};
use tetra_bluestation::bluestation::state::SharedConfig;

fn cell() -> CellInfoDto {
    CellInfoDto {
        main_carrier: 1521,
        freq_band: 4,
        freq_offset: 0,
        duplex_spacing: 0,
        reverse_operation: false,
        custom_duplex_spacing: None,
        location_area: 2,
        authentication_required: Some(true),
        neighbor_cell_broadcast: None,
        late_entry_supported: None,
        subscriber_class: None,
        registration: None,
        deregistration: None,
        priority_cell: None,
        no_minimum_mode: None,
        migration: None,
        system_wide_services: None,
        voice_service: None,
        circuit_mode_data_service: None,
        sndcp_service: None,
        aie_service: None,
        advanced_link: None,
        system_code: None,
        colour_code: None,
        sharing_mode: None,
        ts_reserved_frames: None,
        u_plane_dtx: None,
        frame_18_ext: None,
        ms_txpwr_max_cell: None,
        rxlev_access_min: None,
        access_parameter: None,
        random_access: None,
        local_ssi_ranges: None,
        timezone: None,
    }
}

fn unknown() -> UnknownFields {
    UnknownFields {
        top_level: vec![],
        phy_io: vec![],
        soapysdr: vec![],
        net_info: vec![],
        cell_info: vec![],
        brew: vec![],
        neighbour_cells: vec![],
        network_broadcast: vec![],
        cell_reselect: vec![],
        swmi: vec![],
        telemetry: vec![],
    }
}

fn root() -> ConfigRoot {
    ConfigRoot {
        config_version: "0.6".to_string(),
        stack_mode: StackMode::Bs,
        debug_log: None,
        phy_io: CfgPhyIo { backend: PhyBackend::NoBackend, soapysdr: None },
        net_info: CfgNetInfo { mcc: 204, mnc: 1337 },
        cell_info: cell(),
        neighbour_cells: CfgNeighbourCells { ids: vec![] },
        broadcast_timezone: None,
        network_broadcast: Ok(BroadcastSection {
            cell_reselect_parameters: 0,
            cell_load_ca: 0,
            time_enabled: false,
        }),
        has_brew: false,
        swmi: None,
        telemetry: None,
        command: None,
        unknown: unknown(),
    }
}

fn swmi() -> CfgSwmiDto {
    CfgSwmiDto {
        host: "swmi.example".to_string(),
        port: None,
        tls: None,
        ca_certificate: None,
        username: "station".to_string(),
        password: "word".to_string(),
        reconnect_delay_secs: None,
        heartbeat_interval_secs: None,
        heartbeat_timeout_secs: None,
    }
}

#[test]
fn what_is_left_out_takes_its_default() {
    let cfg = from_root(root()).ok().unwrap();
    assert_eq!(cfg.cell.subscriber_class, 65535);
    assert_eq!(cfg.cell.system_code, 3);
    assert_eq!(cfg.cell.ms_txpwr_max_cell, 4);
    assert_eq!(cfg.cell.rxlev_access_min, 3);
    assert_eq!(cfg.cell.access_parameter, 7);
    assert!(cfg.cell.registration && cfg.cell.deregistration && cfg.cell.voice_service);
    assert_eq!(cfg.cell.random_access.wt_max, 8);
    assert!(cfg.cell.local_ssi_ranges.contains(90));
    assert!(!cfg.cell.local_ssi_ranges.contains(91));
    assert!(cfg.swmi.is_none());
    assert_eq!(cfg.validate(None), Ok(()));
}

#[test]
fn a_file_is_refused_for_each_of_its_reasons() {
    let name = || vec!["odd".to_string()];
    let refused = |root: ConfigRoot| from_root(root).err().unwrap();
    let mut r = root();
    r.config_version = "0.5".to_string();
    assert!(matches!(refused(r), ConfigError::UnrecognizedVersion));
    let mut r = root();
    r.unknown.top_level = name();
    assert!(matches!(refused(r), ConfigError::UnknownTopLevelFields));
    let mut r = root();
    r.unknown.phy_io = name();
    assert!(matches!(refused(r), ConfigError::UnknownPhyIoFields));
    let mut r = root();
    r.unknown.soapysdr = vec!["rx_gain_lna".to_string(), "tx_gain_pa".to_string()];
    assert!(from_root(r).is_ok());
    let mut r = root();
    r.unknown.soapysdr = vec!["rx_gain_lna".to_string(), "gain".to_string()];
    assert!(matches!(refused(r), ConfigError::UnknownSoapySdrFields));
    let mut r = root();
    r.unknown.net_info = name();
    assert!(matches!(refused(r), ConfigError::UnknownNetInfoFields));
    let mut r = root();
    r.unknown.cell_info = name();
    assert!(matches!(refused(r), ConfigError::UnknownCellInfoFields));
    let mut r = root();
    r.has_brew = true;
    assert!(matches!(refused(r), ConfigError::BrewRemoved));
    let mut r = root();
    r.has_brew = true;
    r.unknown.brew = name();
    assert!(matches!(refused(r), ConfigError::UnknownBrewFields));
    let mut r = root();
    r.unknown.neighbour_cells = name();
    assert!(matches!(refused(r), ConfigError::UnknownNeighbourCellFields));
    let mut r = root();
    r.unknown.network_broadcast = name();
    assert!(matches!(refused(r), ConfigError::UnknownNetworkBroadcastFields));
    let mut r = root();
    r.unknown.cell_reselect = name();
    assert!(matches!(refused(r), ConfigError::UnknownCellReselectFields));
    let mut r = root();
    r.cell_info.timezone = Some("UTC".to_string());
    r.broadcast_timezone = Some("UTC".to_string());
    assert!(matches!(refused(r), ConfigError::TimezoneTwice));
    let mut r = root();
    r.swmi = Some(swmi());
    r.unknown.swmi = name();
    assert!(matches!(refused(r), ConfigError::UnknownSwmiFields));
    let mut r = root();
    r.telemetry = Some(Ok(CfgEndpoint { settings: vec![] }));
    r.unknown.telemetry = name();
    assert!(matches!(refused(r), ConfigError::UnknownTelemetryFields));
    let mut r = root();
    r.swmi = Some(CfgSwmiDto { password: String::new(), ..swmi() });
    assert!(matches!(
        refused(r),
        ConfigError::Swmi("swmi host, username and password must be set")
    ));
}

#[test]
fn every_section_reaches_the_configuration() {
    let endpoint = |host: &str| CfgEndpoint {
        settings: vec![("host".to_string(), host.to_string())],
    };
    let mut r = root();
    r.neighbour_cells = CfgNeighbourCells { ids: vec!["b".to_string(), "a".to_string()] };
    r.network_broadcast = Ok(BroadcastSection {
        cell_reselect_parameters: 0x1234,
        cell_load_ca: 3,
        time_enabled: true,
    });
    r.broadcast_timezone = Some("Europe/Amsterdam".to_string());
    r.telemetry = Some(Ok(endpoint("reports.example")));
    r.command = Some(Ok(endpoint("control.example")));
    let cfg = from_root(r).ok().unwrap();
    assert_eq!(cfg.neighbour_cells.ids, vec!["b".to_string(), "a".to_string()]);
    assert_eq!(cfg.network_broadcast.cell_reselect_parameters, 0x1234);
    assert_eq!(cfg.network_broadcast.cell_load_ca, 3);
    assert!(cfg.network_broadcast.time_enabled);
    assert_eq!(cfg.network_broadcast.timezone.as_deref(), Some("Europe/Amsterdam"));
    assert_eq!(cfg.cell.timezone, None);
    assert_eq!(cfg.telemetry.unwrap().settings[0].1, "reports.example");
    assert_eq!(cfg.control.unwrap().settings[0].1, "control.example");
    let plain = from_root(root()).ok().unwrap();
    assert!(plain.telemetry.is_none() && plain.control.is_none());
    assert_eq!(plain.network_broadcast.timezone, None);
}

#[test]
fn the_timezone_of_the_cell_is_broadcast_too() {
    let mut r = root();
    r.cell_info.timezone = Some("UTC".to_string());
    let cfg = from_root(r).ok().unwrap();
    assert_eq!(cfg.cell.timezone.as_deref(), Some("UTC"));
    assert_eq!(cfg.network_broadcast.timezone.as_deref(), Some("UTC"));
}

#[test]
fn faulty_sections_are_told_in_their_order() {
    let fault = |text: &str| Err(text.to_string());
    let mut r = root();
    r.network_broadcast = Err("broadcast".to_string());
    r.swmi = Some(CfgSwmiDto { password: String::new(), ..swmi() });
    r.telemetry = Some(fault("telemetry"));
    r.command = Some(fault("command"));
    let mut second = root();
    second.swmi = Some(CfgSwmiDto { password: String::new(), ..swmi() });
    second.telemetry = Some(fault("telemetry"));
    second.command = Some(fault("command"));
    let mut third = root();
    third.swmi = Some(swmi());
    third.telemetry = Some(fault("telemetry"));
    third.command = Some(fault("command"));
    let mut fourth = root();
    fourth.command = Some(fault("command"));
    assert!(matches!(from_root(r), Err(ConfigError::NetworkBroadcast(text)) if text == "broadcast"));
    assert!(matches!(from_root(second), Err(ConfigError::Swmi(_))));
    assert!(matches!(from_root(third), Err(ConfigError::Telemetry(text)) if text == "telemetry"));
    assert!(matches!(from_root(fourth), Err(ConfigError::Command(text)) if text == "command"));
}

#[test]
fn the_connection_settings_are_checked() {
    let cfg = apply_swmi_patch(swmi()).ok().unwrap();
    assert_eq!((cfg.port, cfg.tls), (443, true));
    assert_eq!((cfg.heartbeat_interval_secs, cfg.heartbeat_timeout_secs), (2, 10));
    assert_eq!(cfg.password.as_str(), "word");
    assert_eq!(cfg.password.redacted(), "********");
    let unset = "swmi host, username and password must be set";
    assert_eq!(
        apply_swmi_patch(CfgSwmiDto { host: " \t ".to_string(), ..swmi() }).err(),
        Some(unset)
    );
    assert_eq!(
        apply_swmi_patch(CfgSwmiDto { username: String::new(), ..swmi() }).err(),
        Some(unset)
    );
    assert!(apply_swmi_patch(CfgSwmiDto { host: " a ".to_string(), ..swmi() }).is_ok());
    assert_eq!(
        apply_swmi_patch(CfgSwmiDto { username: "\u{3000}\u{85}\u{200a}".to_string(), ..swmi() }).err(),
        Some(unset)
    );
    // The zero width space is not whitespace.
    assert!(apply_swmi_patch(CfgSwmiDto { username: "\u{200b}".to_string(), ..swmi() }).is_ok());
    let beat = "swmi heartbeat_timeout_secs must be greater than heartbeat_interval_secs";
    assert_eq!(
        apply_swmi_patch(CfgSwmiDto { heartbeat_interval_secs: Some(0), ..swmi() }).err(),
        Some(beat)
    );
    assert_eq!(
        apply_swmi_patch(CfgSwmiDto { heartbeat_timeout_secs: Some(2), ..swmi() }).err(),
        Some(beat)
    );
    assert_eq!(
        apply_swmi_patch(CfgSwmiDto {
            tls: Some(false),
            ca_certificate: Some("ca.pem".to_string()),
            ..swmi()
        })
        .err(),
        Some("swmi ca_certificate requires tls = true")
    );
}

fn config(change: impl Fn(&mut StackConfig)) -> StackConfig {
    let mut cfg = from_root(root()).ok().unwrap();
    change(&mut cfg);
    cfg
}

#[test]
fn the_configuration_is_validated() {
    let fault = |change: &dyn Fn(&mut StackConfig)| config(change).validate(Some((395_000_000, 385_000_000)));
    assert_eq!(fault(&|_| {}), Ok(()));
    assert_eq!(
        fault(&|c| c.phy_io.backend = PhyBackend::SoapySdr),
        Err("soapysdr configuration must be provided for Soapysdr backend")
    );
    assert_eq!(
        fault(&|c| c.phy_io.backend = PhyBackend::Undefined),
        Err("phy_io backend must be defined")
    );
    let radio = |dl_freq: u32, ul_freq: u32| CfgPhyIo {
        backend: PhyBackend::SoapySdr,
        soapysdr: Some(CfgSoapySdr { dl_freq, ul_freq }),
    };
    assert_eq!(fault(&|c| c.phy_io = radio(395_000_000, 385_000_000)), Ok(()));
    assert_eq!(
        fault(&|c| c.phy_io = radio(1, 385_000_000)),
        Err("PhyIo DlFrequency does not match computed FreqInfo")
    );
    assert_eq!(
        fault(&|c| c.phy_io = radio(395_000_000, 1)),
        Err("PhyIo UlFrequency does not match computed FreqInfo")
    );
    assert_eq!(
        config(|c| c.phy_io = radio(1, 1)).validate(None),
        Err("Invalid cell info frequency settings")
    );
    assert_eq!(
        fault(&|c| c.cell.ms_txpwr_max_cell = 8),
        Err("ms_txpwr_max_cell must be 0-7 (3 bits)")
    );
    assert_eq!(
        fault(&|c| c.cell.rxlev_access_min = 16),
        Err("rxlev_access_min must be 0-15 (4 bits)")
    );
    assert_eq!(
        fault(&|c| c.cell.access_parameter = 16),
        Err("access_parameter must be 0-15 (4 bits)")
    );
    assert_eq!(
        fault(&|c| c.cell.random_access.low_load_threshold = 8),
        Err("cell.random_access.low_load_threshold must be lower than high_load_threshold")
    );
    assert_eq!(
        fault(&|c| c.cell.random_access.wt_min = 0),
        Err("cell.random_access WT limits must be ordered and 1-15")
    );
    assert_eq!(
        fault(&|c| c.cell.random_access.ewma_alpha_percent = 101),
        Err("cell.random_access.ewma_alpha_percent must be 1-100")
    );
    assert_eq!(fault(&|c| c.cell.timezone = Some("Europe/Berlin".to_string())), Ok(()));
    assert_eq!(
        fault(&|c| c.cell.timezone = Some("Europe/Atlantis".to_string())),
        Err("Invalid IANA timezone name in cell.timezone")
    );
    assert_eq!(
        config(|_| {}).validate_with(None, false),
        Err("Invalid IANA timezone name in cell.timezone")
    );
}

#[test]
fn the_state_starts_with_the_policy_of_the_cell() {
    let shared = SharedConfig::checked(config(|_| {}), None, None).ok().unwrap();
    assert!(shared.state_read().authentication_required);
    assert!(!shared.state_read().network_connected);
    assert_eq!(shared.config().net.mcc, 204);
    let broken = config(|c| c.cell.access_parameter = 16);
    assert!(SharedConfig::checked(broken, None, None).is_err());
}

#[test]
fn sections_override_single_fields() {
    let mut dto = cell();
    dto.random_access = Some(RandomAccessDto {
        enabled: None,
        update_interval_multiframes: None,
        startup_grace_multiframes: None,
        recovery_step_multiframes: None,
        low_load_threshold: Some(1),
        high_load_threshold: None,
        imm_min: None,
        imm_max: None,
        wt_min: None,
        wt_max: None,
        nu_min: None,
        nu_max: None,
        frame_len_min: None,
        frame_len_max: None,
        retry_window_multiframes: None,
        retry_weight_percent: None,
        ewma_alpha_percent: None,
        frame_factor_activation_windows: None,
        frame_factor_release_windows: None,
    });
    dto.local_ssi_ranges = Some(vec![(5, 6), (9, 9)]);
    let mut r = root();
    r.cell_info = dto;
    let cfg = from_root(r).ok().unwrap();
    assert_eq!(cfg.cell.random_access.low_load_threshold, 1);
    assert_eq!(cfg.cell.random_access.high_load_threshold, 8);
    assert!(cfg.cell.local_ssi_ranges.contains(9) && !cfg.cell.local_ssi_ranges.contains(7));
    assert!(SsiRanges { ranges: vec![(1, 2)] }.contains(2));
    assert_eq!(SecretField::from("a".to_string()).as_str(), "a");
}
