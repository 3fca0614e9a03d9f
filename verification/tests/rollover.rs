use tetra_bluestation::aie::{AieDirection, AieSubject};
use tetra_bluestation::bluestation::aie_state::{
    RuntimeAieSessions, RuntimeSc2Aie, RuntimeSc2Binding, RuntimeSc2TeaAlgorithm,
};
use tetra_bluestation::bluestation::rollover::{tetra_network_time_units, RuntimeAieConfig};
use tetra_bluestation::tdma::TdmaTime;

fn test_sc2(sckn: u8, sck_vn: u16) -> RuntimeSc2Aie {
    RuntimeSc2Aie::new(RuntimeSc2TeaAlgorithm::Tea3, sckn, sck_vn, [0x5a; 10])
}

fn rollover_aie(sckn: u8, sck_vn: u16) -> RuntimeAieConfig {
    RuntimeAieConfig {
        enabled: true,
        sc1_allowed: false,
        sc2: Some(test_sc2(sckn, sck_vn)),
        rollover: None,
    }
}

#[test]
fn staged_rollover_requires_a_different_sckn_and_the_next_sck_vn() {
    let mut aie = rollover_aie(3, 4);
    let active = RuntimeSc2Binding::from_sc2(aie.sc2.as_ref().expect("active SC2"));
    aie.stage_rollover(1, active, test_sc2(4, 5), 1)
        .expect("a different SCKN with the next SCK-VN is valid");

    let mut aie = rollover_aie(3, 4);
    let active = RuntimeSc2Binding::from_sc2(aie.sc2.as_ref().expect("active SC2"));
    assert_eq!(
        aie.stage_rollover(1, active, test_sc2(4, 17), 1),
        Err("rollover SCK-VN must increment by exactly one")
    );

    let mut aie = rollover_aie(3, 4);
    let active = RuntimeSc2Binding::from_sc2(aie.sc2.as_ref().expect("active SC2"));
    assert_eq!(
        aie.stage_rollover(1, active, test_sc2(3, 5), 1),
        Err("rollover future SCK must use a different SCKN")
    );
}

#[test]
fn staged_rollover_wraps_sck_vn_after_the_16_bit_maximum() {
    let mut aie = rollover_aie(30, u16::MAX);
    let active = RuntimeSc2Binding::from_sc2(aie.sc2.as_ref().expect("active SC2"));
    aie.stage_rollover(1, active, test_sc2(0, 0), 1)
        .expect("SCK-VN wraps modulo 16 bits");
}

#[test]
fn staged_rollover_accepts_sckn_31() {
    let mut aie = rollover_aie(30, 4);
    let active = RuntimeSc2Binding::from_sc2(aie.sc2.as_ref().expect("active SC2"));
    aie.stage_rollover(1, active, test_sc2(31, 5), 1)
        .expect("SCKN 31 is a valid rollover target");
}

#[test]
fn new_prepare_replaces_an_unactivated_rollover_after_a_missed_cancel() {
    let mut aie = rollover_aie(3, 4);
    let active = RuntimeSc2Binding::from_sc2(aie.sc2.as_ref().expect("active SC2"));
    aie.stage_rollover(10, active, test_sc2(4, 5), 1)
        .expect("stage rollover that will be cancelled centrally");

    // The cancel was missed while the station was disconnected. The new
    // preparation repeats the real active identity.
    aie.stage_rollover(11, active, test_sc2(5, 17), 2)
        .expect("replace stale unactivated rollover");
    assert_eq!(aie.staged_rollover_id(), Some(11));
}

#[test]
fn next_prepare_replaces_an_activated_rollover_after_its_uplink_grace() {
    let mut aie = rollover_aie(3, 4);
    let active = RuntimeSc2Binding::from_sc2(aie.sc2.as_ref().expect("active SC2"));
    aie.stage_rollover(10, active, test_sc2(4, 5), 1 << 24).expect("stage rollover");
    let activation = TdmaTime::default().add_timeslots(1);
    aie.rollover.as_mut().expect("staged rollover").local_activation_tdma = Some(activation);
    aie.activate_rollover_if_due(activation, &mut RuntimeAieSessions::default())
        .expect("activate rollover");

    let new_active = RuntimeSc2Binding::from_sc2(aie.sc2.as_ref().expect("active SC2"));
    aie.stage_rollover(11, new_active, test_sc2(5, 16), 2 << 24)
        .expect("a later rollover may follow an activated rollover");
    assert_eq!(aie.staged_rollover_id(), Some(11));
}

#[test]
fn rollover_selects_keys_by_air_slot_for_tx_ahead_and_uplink_grace() {
    let mut aie = rollover_aie(3, 4);
    let active = RuntimeSc2Binding::from_sc2(aie.sc2.as_ref().expect("active SC2"));
    let activation = TdmaTime::default().add_timeslots(20);
    aie.stage_rollover(1, active, test_sc2(4, 5), 1).expect("stage rollover");
    aie.rollover.as_mut().expect("staged rollover").local_activation_tdma = Some(activation);

    // The block is built one tick before it goes on the air, but its real slot
    // is the cutover slot. The paired two uplink slots still use the old key.
    assert_eq!(
        aie.sc2_for_air_time(AieDirection::Downlink, activation)
            .ok()
            .expect("downlink key")
            .sck_vn,
        5
    );
    assert_eq!(
        aie.downlink_sc2_identity_at(activation.add_timeslots(-1))
            .expect("pre-cutover SYSINFO identity")
            .sck_vn,
        4
    );
    assert_eq!(
        aie.downlink_sc2_identity_at(activation).expect("cutover SYSINFO identity").sck_vn,
        5
    );
    assert_eq!(
        aie.sc2_for_air_time(AieDirection::Uplink, activation)
            .ok()
            .expect("first uplink grace key")
            .sck_vn,
        4
    );
    assert_eq!(
        aie.sc2_for_air_time(AieDirection::Uplink, activation.add_timeslots(1))
            .ok()
            .expect("second uplink grace key")
            .sck_vn,
        4
    );

    let mut sessions = RuntimeAieSessions::default();
    aie.activate_rollover_if_due(activation, &mut sessions).expect("activate rollover");
    assert_eq!(
        aie.sc2_for_air_time(AieDirection::Downlink, activation.add_timeslots(-1))
            .ok()
            .expect("retired key for a delayed pre-cutover downlink")
            .sck_vn,
        4
    );
    assert_eq!(
        aie.sc2_for_air_time(AieDirection::Uplink, activation.add_timeslots(1))
            .ok()
            .expect("retired uplink grace key")
            .sck_vn,
        4
    );
    assert_eq!(
        aie.sc2_for_air_time(AieDirection::Uplink, activation.add_timeslots(2))
            .ok()
            .expect("new uplink key after grace")
            .sck_vn,
        5
    );
}

#[test]
fn rollover_absolute_iv_uses_security_sysinfo_before_voice_slots() {
    let mut aie = rollover_aie(3, 4);
    let active = RuntimeSc2Binding::from_sc2(aie.sc2.as_ref().expect("active SC2"));
    aie.stage_rollover(1, active, test_sc2(4, 5), 0).expect("stage rollover");
    let current = TdmaTime { h: 7, m: 8, f: 9, t: 2 };
    let (_, activation) =
        aie.schedule_rollover_absolute_iv(0, current).expect("schedule local Absolute IV");
    assert_eq!(activation, TdmaTime { h: 7, m: 8, f: 12, t: 1 });
    assert!(activation.is_sc2_security_sysinfo_opportunity());
}

#[test]
fn rollover_absolute_iv_keeps_an_exact_security_sysinfo_boundary() {
    let mut aie = rollover_aie(3, 4);
    let active = RuntimeSc2Binding::from_sc2(aie.sc2.as_ref().expect("active SC2"));
    aie.stage_rollover(1, active, test_sc2(4, 5), 0).expect("stage rollover");
    let current = TdmaTime { h: 7, m: 8, f: 12, t: 1 };
    let (_, activation) =
        aie.schedule_rollover_absolute_iv(0, current).expect("schedule local Absolute IV");
    assert_eq!(activation, current);
}

#[test]
fn rollover_absolute_iv_advances_to_next_multiframe_after_frame_16() {
    let mut aie = rollover_aie(3, 4);
    let active = RuntimeSc2Binding::from_sc2(aie.sc2.as_ref().expect("active SC2"));
    aie.stage_rollover(1, active, test_sc2(4, 5), 0).expect("stage rollover");
    let current = TdmaTime { h: 7, m: 8, f: 16, t: 2 };
    let (_, activation) =
        aie.schedule_rollover_absolute_iv(0, current).expect("schedule local Absolute IV");
    assert_eq!(activation, TdmaTime { h: 7, m: 9, f: 4, t: 1 });
}

#[test]
fn aie_sessions_keep_each_private_call_leg() {
    let sc2 = test_sc2(3, 42);
    let mut sessions = RuntimeAieSessions::default();
    let alice = AieSubject::Call { call_id: 17, issi: Some(1001), gssi: None };
    let bob = AieSubject::Call { call_id: 17, issi: Some(1002), gssi: None };

    sessions.bind_call(17, alice, &sc2);
    sessions.bind_call(17, bob, &sc2);

    assert_eq!(sessions.call(17, alice), Some(RuntimeSc2Binding::from_sc2(&sc2)));
    assert_eq!(sessions.call(17, bob), Some(RuntimeSc2Binding::from_sc2(&sc2)));
}

#[test]
fn aie_key_rotation_discards_old_terminal_and_call_bindings() {
    let old = test_sc2(3, 42);
    let new = test_sc2(4, 43);
    let mut sessions = RuntimeAieSessions::default();
    let call = AieSubject::Call { call_id: 17, issi: Some(1001), gssi: None };
    sessions.activate_terminal(1001, &old);
    sessions.bind_call(17, call, &old);

    sessions.retain_current_key(Some(&new));

    assert_eq!(sessions.terminal(1001), None);
    assert_eq!(sessions.call(17, call), None);
}

#[test]
fn ending_a_call_or_a_terminal_ends_its_bindings() {
    let sc2 = test_sc2(3, 42);
    let binding = RuntimeSc2Binding::from_sc2(&sc2);
    let mut sessions = RuntimeAieSessions::default();
    let leg = AieSubject::Call { call_id: 17, issi: Some(1001), gssi: None };
    let other = AieSubject::Call { call_id: 18, issi: Some(1001), gssi: None };
    sessions.activate_terminal(1001, &sc2);
    sessions.activate_terminal(1002, &sc2);
    sessions.bind_call(17, leg, &sc2);
    sessions.bind_call(18, other, &sc2);

    sessions.unbind_call(17);
    assert_eq!(sessions.call(17, leg), None);
    assert_eq!(sessions.call(18, other), Some(binding));

    sessions.deactivate_terminal(1001);
    assert_eq!(sessions.terminal(1001), None);
    assert_eq!(sessions.terminal(1002), Some(binding));
}

#[test]
fn cutover_moves_every_session_and_happens_once() {
    let mut aie = rollover_aie(3, 4);
    let before = RuntimeSc2Binding::from_sc2(aie.sc2.as_ref().unwrap());
    let future = test_sc2(4, 5);
    aie.stage_rollover(9, before, future, 1).unwrap();
    let mut sessions = RuntimeAieSessions::default();
    sessions.activate_terminal(1001, aie.sc2.as_ref().unwrap());
    let slot = TdmaTime::default().add_timeslots(8);
    aie.rollover.as_mut().unwrap().local_activation_tdma = Some(slot);
    assert_eq!(aie.activate_rollover_if_due(slot.add_timeslots(-1), &mut sessions), None);
    assert_eq!(sessions.terminal(1001), Some(before));
    assert_eq!(aie.activate_rollover_if_due(slot, &mut sessions), Some(9));
    assert_eq!(sessions.terminal(1001), Some(RuntimeSc2Binding::from_sc2(&future)));
    assert!(aie.rollover_is_activated(9));
    assert_eq!(aie.activate_rollover_if_due(slot.add_timeslots(1), &mut sessions), None);
}

#[test]
fn staging_is_refused_for_each_of_its_reasons() {
    let active = RuntimeSc2Binding::from_sc2(&test_sc2(3, 4));
    let mut off = rollover_aie(3, 4);
    off.enabled = false;
    assert_eq!(off.stage_rollover(1, active, test_sc2(4, 5), 1), Err("SC2 is not enabled"));

    let mut aie = rollover_aie(3, 4);
    assert_eq!(
        aie.stage_rollover(1, active, test_sc2(4, 5), 1 << 48),
        Err("rollover network time exceeds 48 bits")
    );
    let stranger = RuntimeSc2Binding::from_sc2(&test_sc2(5, 4));
    assert_eq!(
        aie.stage_rollover(1, stranger, test_sc2(4, 5), 1),
        Err("rollover active identity does not match local SC2 state")
    );
    let tea1 = RuntimeSc2Aie::new(RuntimeSc2TeaAlgorithm::Tea1, 4, 5, [0x5a; 10]);
    assert_eq!(
        aie.stage_rollover(1, active, tea1, 1),
        Err("rollover may not change the SC2 TEA algorithm")
    );
    aie.stage_rollover(1, active, test_sc2(4, 5), 1).unwrap();
    // The same command again changes nothing; another one under its number is
    // refused.
    aie.stage_rollover(1, active, test_sc2(4, 5), 1).unwrap();
    assert_eq!(
        aie.stage_rollover(1, active, test_sc2(6, 5), 1),
        Err("repeated SC2 rollover command does not match staged key")
    );
    assert!(aie.cancel_staged_rollover(1));
    assert!(!aie.cancel_staged_rollover(1));
    assert_eq!(aie.staged_rollover_id(), None);
}

#[test]
fn network_time_counts_two_second_units() {
    assert_eq!(tetra_network_time_units(0), Some(0));
    assert_eq!(tetra_network_time_units(3 << 24), Some(3));
    // One year later: 366 days of the year 2000.
    assert_eq!(tetra_network_time_units(1 << 11), Some(366 * 43_200));
    assert_eq!(tetra_network_time_units(1 << 48), None);
}
