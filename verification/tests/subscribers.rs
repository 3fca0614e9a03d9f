use tetra_bluestation::bluestation::subscribers::SubscriberRegistry;
use tetra_bluestation::tdma::TdmaTime;

#[test]
fn test_register_deregister() {
    let mut reg = SubscriberRegistry::new();
    assert!(!reg.is_registered(1001));
    reg.register(1001);
    assert!(reg.is_registered(1001));
    reg.deregister(1001);
    assert!(!reg.is_registered(1001));
}

#[test]
fn direct_response_window_expires() {
    let mut reg = SubscriberRegistry::new();
    let now = TdmaTime::default();
    reg.mark_direct_response_window(1001, now);
    assert!(reg.direct_response_window_active(1001, now.add_timeslots(143)));
    assert!(!reg.direct_response_window_active(1001, now.add_timeslots(145)));
}

#[test]
fn test_affiliate_deaffiliate() {
    let mut reg = SubscriberRegistry::new();
    reg.register(1001);
    reg.affiliate(1001, 91);
    assert!(reg.has_group_members(91));
    reg.deaffiliate(1001, 91);
    assert!(!reg.has_group_members(91));
}

#[test]
fn test_has_group_members() {
    let mut reg = SubscriberRegistry::new();
    reg.register(1001);
    reg.register(1002);
    reg.register(1003);
    reg.affiliate(1001, 100);
    reg.affiliate(1002, 100);
    reg.affiliate(1003, 100);
    assert!(reg.has_group_members(100));

    // One leaves the group, two are left.
    reg.deaffiliate(1001, 100);
    assert!(reg.has_group_members(100));

    // One leaves the cell, one is left.
    reg.deregister(1002);
    assert!(reg.has_group_members(100));

    // The last one leaves.
    reg.deregister(1003);
    assert!(!reg.has_group_members(100));
}

#[test]
fn test_has_group_members_empty() {
    let reg = SubscriberRegistry::new();
    assert!(!reg.has_group_members(999));
}

#[test]
fn test_register_overwrites_existing_subscriber() {
    let mut reg = SubscriberRegistry::new();
    reg.register(1001);
    reg.affiliate(1001, 91);
    assert!(reg.has_group_members(91));

    reg.register(1001);

    assert!(reg.is_registered(1001));
    reg.deaffiliate(1001, 91);
    assert!(!reg.has_group_members(91));
}

#[test]
fn activity_and_pending_responses_are_kept_apart_from_registration() {
    let mut reg = SubscriberRegistry::new();
    reg.register(7);
    reg.mark_active(7);
    reg.mark_active(8);
    assert_eq!(reg.active_issis(), vec![7, 8]);
    reg.set_registration_delivery_pending(7, true);
    reg.set_registration_delivery_pending(9, true);
    assert!(reg.is_registration_pending(7));
    assert_eq!(reg.pending_registration_count(), 2);
    reg.set_registration_delivery_pending(7, false);
    assert_eq!(reg.pending_registration_count(), 1);
    reg.note_registration_delivery_failure();
    reg.note_registration_delivery_failure();
    assert_eq!(reg.take_registration_delivery_failures(), 2);
    assert_eq!(reg.take_registration_delivery_failures(), 0);
    reg.mark_inactive(7);
    assert!(!reg.is_active(7));
}

#[test]
fn energy_economy_is_told_for_each_member() {
    let mut reg = SubscriberRegistry::new();
    reg.register(7);
    reg.affiliate(7, 91);
    reg.set_energy_economy(7, 1, Some(4), Some(9));
    assert_eq!(reg.energy_economy(7), Some((1, Some(4), Some(9))));
    assert_eq!(reg.energy_economy(8), None);
    // Only those who are active listen for the group.
    assert_eq!(reg.group_energy_economies(91).len(), 0);
    reg.mark_active(7);
    assert_eq!(reg.group_energy_economies(91).len(), 1);
    reg.set_scanning_enabled(7, false);
    assert_eq!(reg.group_energy_economies(91).len(), 0);
    reg.set_energy_economy_activation_pending(7, true);
    assert!(reg.take_energy_economy_activation_pending(7));
    assert!(!reg.take_energy_economy_activation_pending(7));
}

#[test]
fn a_pending_response_and_activity_exclude_each_other() {
    let mut reg = SubscriberRegistry::new();
    reg.mark_active(7);
    reg.set_registration_delivery_pending(7, true);
    assert!(!reg.is_active(7));
    reg.mark_active(7);
    assert!(!reg.is_registration_pending(7));
}

#[test]
fn whoever_is_attached_is_registered() {
    let mut reg = SubscriberRegistry::new();
    reg.affiliate(7, 91);
    assert!(reg.is_registered(7));
    reg.deregister(7);
    assert!(!reg.is_affiliated(7, 91));
    reg.deaffiliate(8, 91);
    assert!(reg.is_registered(8));
    assert!(!reg.is_affiliated(8, 91));
    reg.affiliate(8, 91);
    reg.register(8);
    assert!(reg.is_registered(8) && !reg.is_affiliated(8, 91));
}

#[test]
fn each_listener_is_listed_once_under_its_own_identity() {
    let mut reg = SubscriberRegistry::new();
    for issi in [7, 8, 9] {
        reg.register(issi);
        reg.affiliate(issi, 91);
        reg.mark_active(issi);
        reg.set_energy_economy(issi, 1, Some(issi as u8), None);
    }
    reg.affiliate(7, 91);
    reg.set_scanning_enabled(8, false);
    reg.get_subscriber_mut(9).energy_economy_mode = 5;
    let list = reg.group_energy_economies(91);
    let told: Vec<(u32, u8, Option<u8>)> =
        list.iter().map(|e| (e.issi, e.mode, e.frame_number)).collect();
    assert_eq!(told, vec![(7, 1, Some(7)), (9, 5, Some(9))]);
}
