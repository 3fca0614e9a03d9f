use tetra_bluestation::aie::{AieDirection, AieRequest, AieScope, AieSubject};
use tetra_bluestation::bitbuffer::BitBuffer;
use tetra_bluestation::bluestation::aie_state::{RuntimeSc2Aie, RuntimeSc2TeaAlgorithm};
use tetra_bluestation::bluestation::config::{
    CfgNetInfo, CfgPhyIo, PhyBackend, StackConfig, StackMode,
};
use tetra_bluestation::bluestation::key_provider::BsAieKeyProvider;
use tetra_bluestation::bluestation::network_broadcast::{CfgNeighbourCells, CfgNetworkBroadcast};
use tetra_bluestation::bluestation::rollover::{AieContextError, RuntimeAieConfig};
use tetra_bluestation::bluestation::sec_cell::{cell_dto_to_cfg, CellInfoDto};
use tetra_bluestation::bluestation::state::SharedConfig;
use tetra_bluestation::crypto::taa1::{ta61, IdentityBox};
use tetra_bluestation::tdma::TdmaTime;

fn cell() -> CellInfoDto {
    CellInfoDto {
        main_carrier: 1521,
        freq_band: 4,
        freq_offset: 0,
        duplex_spacing: 0,
        reverse_operation: false,
        custom_duplex_spacing: None,
        location_area: 2,
        authentication_required: None,
        neighbor_cell_broadcast: None,
        late_entry_supported: None,
        subscriber_class: None,
        registration: None,
        deregistration: None,
        priority_cell: None,
        no_minimum_mode: None,
        migration: None,
        system_wide_services: None,
        voice_service: None,
        circuit_mode_data_service: None,
        sndcp_service: None,
        aie_service: None,
        advanced_link: None,
        system_code: None,
        colour_code: Some(1),
        sharing_mode: None,
        ts_reserved_frames: None,
        u_plane_dtx: None,
        frame_18_ext: None,
        ms_txpwr_max_cell: None,
        rxlev_access_min: None,
        access_parameter: None,
        random_access: None,
        local_ssi_ranges: None,
        timezone: None,
    }
}

fn test_shared_config() -> SharedConfig {
    let config = StackConfig {
        stack_mode: StackMode::Bs,
        debug_log: None,
        phy_io: CfgPhyIo { backend: PhyBackend::NoBackend, soapysdr: None },
        net: CfgNetInfo { mcc: 204, mnc: 1337 },
        cell: cell_dto_to_cfg(cell()),
        neighbour_cells: CfgNeighbourCells { ids: vec![] },
        network_broadcast: CfgNetworkBroadcast {
            cell_reselect_parameters: 0,
            cell_load_ca: 0,
            time_enabled: false,
            timezone: None,
        },
        brew: None,
        swmi: None,
        telemetry: None,
        control: None,
    };
    SharedConfig::checked(config, None, None)
        .ok()
        .expect("example configuration must remain valid")
}

fn identities() -> IdentityBox {
    let mut forward = [0u8; 256];
    for i in 0..256 {
        forward[i] = (i as u8).wrapping_mul(5).wrapping_add(17);
    }
    IdentityBox::new(forward).expect("no value stands twice")
}

/// Stands in for the block cipher of the identity encryption.
fn hurdle(key: [u8; 16], block: [u8; 8]) -> [u8; 8] {
    let mut out = [0u8; 8];
    for i in 0..8 {
        out[i] = block[i].wrapping_mul(7) ^ key[i] ^ key[i + 8].rotate_left(3);
    }
    out
}

fn bits(text: &str) -> BitBuffer {
    BitBuffer::from_bits(text.chars().map(|c| c == '1').collect())
}

fn text(buffer: &BitBuffer) -> String {
    buffer.to_bits().iter().map(|bit| if *bit { '1' } else { '0' }).collect()
}

fn test_sc2(sckn: u8, sck_vn: u16) -> RuntimeSc2Aie {
    RuntimeSc2Aie::new(RuntimeSc2TeaAlgorithm::Tea3, sckn, sck_vn, [0x5a; 10])
}

fn with_key(config: &mut SharedConfig, sc2: RuntimeSc2Aie) {
    config.state_write().aie =
        RuntimeAieConfig { enabled: true, sc1_allowed: false, sc2: Some(sc2), rollover: None };
}

#[test]
fn sc2_provider_resolves_esi_and_uses_the_uplink_iv() {
    let mut config = test_shared_config();
    let issi = 0x12_34_56;
    let sc2 = RuntimeSc2Aie::new(RuntimeSc2TeaAlgorithm::Tea1, 3, 7, [0x5a; 10]);
    with_key(&mut config, sc2);
    config.state_write().aie_sessions.activate_terminal(issi, &sc2);
    let provider = BsAieKeyProvider::new(config);
    let time = TdmaTime::default().add_timeslots(37);
    let downlink = provider
        .resolve(
            AieRequest::sc2(AieSubject::Individual { issi }, AieScope::MacData),
            AieDirection::Downlink,
            time,
        )
        .expect("active SC2 terminal resolves");
    let esi = provider
        .encrypted_short_identity(downlink, issi, &identities(), hurdle)
        .expect("ESI is derived inside provider");
    let (resolved_issi, uplink) = provider
        .resolve_uplink_esi(esi, time, AieScope::MacData, &identities(), hurdle)
        .expect("uplink ESI resolves to active ISSI");
    assert_eq!(resolved_issi, issi);
    assert!(uplink.is_encrypted());

    let mut encrypted = bits("1011001110001110");
    let plaintext = bits("1011001110001110");
    let payload_len = encrypted.get_len();
    provider
        .cipher_uplink_mac(uplink, &mut encrypted, 0, payload_len)
        .expect("uplink cipher succeeds");
    assert_ne!(text(&encrypted), text(&plaintext), "uplink KSS changes payload");
    provider
        .cipher_uplink_mac(uplink, &mut encrypted, 0, payload_len)
        .expect("XOR decrypt succeeds");
    assert_eq!(text(&encrypted), text(&plaintext));
    assert!(!provider.clear_uplink_allowed(issi), "SC2-bound terminal cannot downgrade to clear");
    assert!(provider.clear_uplink_allowed(issi + 1), "unbound terminal may use clear bootstrap");
}

#[test]
fn sc2_provider_decodes_and_binds_an_unbound_registration_esi() {
    let mut config = test_shared_config();
    let issi: u32 = 0x12_34_56;
    let key = [0x5a; 10];
    with_key(&mut config, RuntimeSc2Aie::new(RuntimeSc2TeaAlgorithm::Tea3, 3, 7, key));
    let mut provider = BsAieKeyProvider::new(config);
    let esi_bytes = ta61(
        &identities(),
        hurdle,
        &key,
        &[(issi >> 16) as u8, (issi >> 8) as u8, issi as u8],
    );
    let esi = u32::from_be_bytes([0, esi_bytes[0], esi_bytes[1], esi_bytes[2]]);
    let mut payload = bits("1011001110001110");
    let plaintext = bits("1011001110001110");
    let time = TdmaTime::default().add_timeslots(37);
    let payload_len = payload.get_len();

    let (decoded_issi, context) = provider
        .bind_unbound_uplink_esi(esi, time, AieScope::MacData, &identities(), hurdle)
        .expect("inverse TA61 binds an initial encrypted registration");
    assert_eq!(decoded_issi, issi);
    assert!(context.is_encrypted());
    assert!(
        provider.resolve_uplink_esi(esi, time, AieScope::MacData, &identities(), hurdle).is_ok(),
        "the bound ISSI resolves without a subscriber candidate list"
    );

    provider
        .decrypt_unbound_uplink_mac(time, &mut payload, 0, payload_len)
        .expect("unbound SC2 registration decrypts with the active SCK");
    provider
        .decrypt_unbound_uplink_mac(time, &mut payload, 0, payload_len)
        .expect("SC2 XOR restores the bootstrap payload");
    assert_eq!(text(&payload), text(&plaintext));
    assert!(provider.verify_uplink_esi(esi, issi, &identities(), hurdle).is_ok());
    assert!(provider.verify_uplink_esi(esi, issi + 1, &identities(), hurdle).is_err());
}

#[test]
fn sc2_provider_applies_the_stolen_tchs_kss_offset() {
    let mut config = test_shared_config();
    let issi = 0x12_34_56;
    let sc2 = RuntimeSc2Aie::new(RuntimeSc2TeaAlgorithm::Tea3, 3, 8, [0x5a; 10]);
    with_key(&mut config, sc2);
    config.state_write().aie_sessions.activate_terminal(issi, &sc2);
    let provider = BsAieKeyProvider::new(config);
    let context = provider
        .resolve(
            AieRequest::sc2(AieSubject::Individual { issi }, AieScope::Traffic),
            AieDirection::Downlink,
            TdmaTime::default().add_timeslots(19),
        )
        .expect("active SC2 terminal resolves");
    let mut second_half = BitBuffer::new(137);
    provider
        .cipher_downlink_traffic_at_kss_offset(context, &mut second_half, 0, 137, 216)
        .expect("TCH/S stolen-half offset is supported");
    assert_ne!(text(&second_half), "0".repeat(137));
    provider
        .cipher_downlink_traffic_at_kss_offset(context, &mut second_half, 0, 137, 216)
        .expect("XOR decrypt succeeds at the same offset");
    assert_eq!(text(&second_half), "0".repeat(137));
}

#[test]
fn sc2_provider_resolves_group_traffic_and_derives_a_gesi_with_the_active_sck() {
    let mut config = test_shared_config();
    let sc2 = test_sc2(3, 9);
    with_key(&mut config, sc2);
    let provider = BsAieKeyProvider::new(config);
    let context = provider
        .resolve(
            AieRequest::sc2(AieSubject::Group { gssi: 101 }, AieScope::Traffic),
            AieDirection::Downlink,
            TdmaTime::default(),
        )
        .expect("an active SC2 SCK protects group traffic as well");
    assert!(context.is_encrypted());
    let gesi = provider
        .encrypted_short_identity(context, 101, &identities(), hurdle)
        .expect("group ESI is derived inside the provider");
    assert_ne!(gesi, 101);
}

#[test]
fn sc2_soft_traffic_cipher_inverts_exactly_the_ciphered_llrs() {
    let mut config = test_shared_config();
    let issi = 0x12_34_56;
    let sc2 = test_sc2(3, 10);
    with_key(&mut config, sc2);
    config.state_write().aie_sessions.activate_terminal(issi, &sc2);
    let provider = BsAieKeyProvider::new(config);
    let context = provider
        .resolve(
            AieRequest::sc2(AieSubject::Individual { issi }, AieScope::Traffic),
            AieDirection::Uplink,
            TdmaTime::default().add_timeslots(23),
        )
        .expect("active SC2 terminal resolves");
    let mut ciphertext = BitBuffer::new(32);
    provider
        .cipher_uplink_traffic(context, &mut ciphertext, 0, 32)
        .expect("hard traffic mask succeeds");
    let expected: Vec<u8> = ciphertext.to_bits().iter().map(|bit| *bit as u8).collect();

    let mut soft = vec![-48i8; 32];
    provider
        .cipher_uplink_traffic_soft(context, &mut soft, 0)
        .expect("soft traffic mask succeeds");
    for (mask, llr) in expected.into_iter().zip(soft) {
        assert_eq!(llr, if mask == 0 { -48 } else { 48 });
    }
}

#[test]
fn subjects_without_a_session_have_no_context() {
    let mut config = test_shared_config();
    let time = TdmaTime::default();
    let request = AieRequest::sc2(AieSubject::Individual { issi: 7 }, AieScope::MacData);
    let off = BsAieKeyProvider::new(test_shared_config());
    assert_eq!(
        off.resolve(request, AieDirection::Downlink, time),
        Err(AieContextError::Sc2Disabled)
    );
    with_key(&mut config, test_sc2(3, 9));
    let provider = BsAieKeyProvider::new(config);
    assert_eq!(
        provider.resolve(request, AieDirection::Downlink, time),
        Err(AieContextError::SubjectNotProvisioned)
    );
    let system = AieRequest::sc2(AieSubject::System, AieScope::MacData);
    assert_eq!(
        provider.resolve(system, AieDirection::Downlink, time),
        Err(AieContextError::UnsupportedSubject)
    );
    let clear = AieRequest::clear(AieSubject::System, AieScope::MacData);
    assert!(!provider.resolve(clear, AieDirection::Downlink, time).unwrap().is_encrypted());
}

#[test]
fn a_context_serves_its_own_direction_only() {
    let mut config = test_shared_config();
    with_key(&mut config, test_sc2(3, 9));
    let provider = BsAieKeyProvider::new(config);
    let context = provider
        .resolve(
            AieRequest::sc2(AieSubject::Group { gssi: 101 }, AieScope::MacData),
            AieDirection::Downlink,
            TdmaTime::default(),
        )
        .unwrap();
    let mut block = bits("10110011");
    assert!(provider.cipher_uplink_mac(context, &mut block, 0, 8).is_err());
    assert_eq!(text(&block), "10110011");
    provider.cipher_downlink_mac(context, &mut block, 4, 4).unwrap();
    assert_eq!(&text(&block)[..4], "1011");
}

/// A provider with an active key and a bound terminal, and a slot.
fn bound_provider(issi: u32) -> (BsAieKeyProvider, TdmaTime) {
    let mut config = test_shared_config();
    let sc2 = test_sc2(3, 10);
    with_key(&mut config, sc2);
    config.state_write().aie_sessions.activate_terminal(issi, &sc2);
    (BsAieKeyProvider::new(config), TdmaTime::default().add_timeslots(23))
}

#[test]
fn an_unbound_block_is_deciphered_like_a_bound_one() {
    let (provider, time) = bound_provider(77);
    let context = provider
        .resolve(
            AieRequest::sc2(AieSubject::Individual { issi: 77 }, AieScope::MacData),
            AieDirection::Uplink,
            time,
        )
        .unwrap();
    let plain = "110100101101011100010111";
    let mut unbound = bits(plain);
    let mut bound = bits(plain);
    provider.decrypt_unbound_uplink_mac(time, &mut unbound, 5, 16).unwrap();
    provider.cipher_uplink_mac(context, &mut bound, 5, 16).unwrap();
    assert_eq!(text(&unbound), text(&bound));
    assert_ne!(text(&unbound), plain);
    assert_eq!(&text(&unbound)[..5], &plain[..5]);
    assert_eq!(&text(&unbound)[21..], &plain[21..]);
    provider.decrypt_unbound_uplink_mac(time, &mut unbound, 5, 16).unwrap();
    assert_eq!(text(&unbound), plain);
}

#[test]
fn the_mask_is_the_same_for_every_block_and_continues_at_an_offset() {
    let (provider, time) = bound_provider(77);
    let context = provider
        .resolve(
            AieRequest::sc2(AieSubject::Individual { issi: 77 }, AieScope::Traffic),
            AieDirection::Downlink,
            time,
        )
        .unwrap();
    let mut whole = BitBuffer::new(353);
    provider.cipher_downlink_traffic(context, &mut whole, 0, 353).unwrap();
    let mask = whole.to_bits();
    let mut ones = BitBuffer::from_bits(vec![true; 360]);
    provider.cipher_downlink_mac(context, &mut ones, 7, 353).unwrap();
    let flipped: Vec<bool> = ones.to_bits()[7..].iter().map(|bit| !bit).collect();
    assert_eq!(flipped, mask);
    let mut late = BitBuffer::new(137);
    provider.cipher_downlink_traffic_at_kss_offset(context, &mut late, 0, 137, 216).unwrap();
    assert_eq!(late.to_bits(), mask[216..].to_vec());
    let before = late.to_bits();
    assert_eq!(
        provider.cipher_downlink_traffic_at_kss_offset(context, &mut late, 0, 137, 217),
        Err(AieContextError::CryptoInput)
    );
    assert_eq!(late.to_bits(), before);
}

#[test]
fn soft_decisions_are_negated_as_far_as_they_can_be() {
    let (provider, time) = bound_provider(77);
    let context = provider
        .resolve(
            AieRequest::sc2(AieSubject::Individual { issi: 77 }, AieScope::Traffic),
            AieDirection::Uplink,
            time,
        )
        .unwrap();
    let mut hard = BitBuffer::new(64);
    provider.cipher_uplink_traffic(context, &mut hard, 0, 64).unwrap();
    let mut soft = vec![i8::MIN; 64];
    provider.cipher_uplink_traffic_soft(context, &mut soft, 0).unwrap();
    for (flip, bit) in hard.to_bits().into_iter().zip(&soft) {
        assert_eq!(*bit, if flip { i8::MAX } else { i8::MIN });
    }
    let before = soft.clone();
    assert_eq!(
        provider.cipher_uplink_traffic_soft(context, &mut soft, 3),
        Err(AieContextError::CryptoInput)
    );
    assert_eq!(soft, before);
}
