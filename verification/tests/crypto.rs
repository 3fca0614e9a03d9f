use tetra_bluestation::crypto::taa1::{
    auth_result, ta11_ta41, ta12_ta22, ta21, ta31, ta32, ta51, ta52, ta61, ta61_inverse, ta81, ta82,
    ta91, ta92, tb4, tb5, tb6, tb7, IdentityBox,
};
use tetra_bluestation::crypto::tea1::tea1;
use tetra_bluestation::crypto::tea3::tea3;
use tetra_bluestation::crypto::{FrameNumbers, InputError};

#[test]
fn frame_numbers_pack_like_reference() {
    assert_eq!(
        FrameNumbers {
            timeslot: 4,
            frame: 18,
            multiframe: 60,
            hyperframe: 0xffff,
            uplink: true,
        }
        .iv(),
        0x1fff_fe4b
    );
}

#[test]
fn sc2_tmo_eck_iv_and_kss_mapping_vector() {
    let sck = [0x01, 0x23, 0x45, 0x67, 0x89, 0xab, 0xcd, 0xef, 0xaa, 0xbb];
    let eck = tb5(0x02bc, 0x1dcc, 0x05, &sck).unwrap();
    let time = FrameNumbers {
        timeslot: 3,
        frame: 17,
        multiframe: 59,
        hyperframe: 0x1234,
        uplink: false,
    };
    let downlink_iv = time.iv();
    let uplink_iv = FrameNumbers { uplink: true, ..time }.iv();
    let mut tea1_downlink = vec![0; 54];
    let mut tea3_downlink = vec![0; 54];
    let mut tea1_uplink = vec![0; 54];
    tea1(downlink_iv, &eck, &mut tea1_downlink);
    tea3(downlink_iv, &eck, &mut tea3_downlink);
    tea1(uplink_iv, &eck, &mut tea1_uplink);
    assert_eq!(eck, [0x76, 0x13, 0xea, 0x62, 0xa2, 0x6a, 0x87, 0x1f, 0xf8, 0x07]);
    assert_eq!(downlink_iv, 0x0246_9dc6);
    assert_eq!(uplink_iv, 0x1246_9dc6);
    assert_eq!(
        tea1_downlink,
        [
            0x73, 0x5b, 0xf4, 0x3d, 0xea, 0x69, 0x1a, 0xdd, 0x23, 0xae, 0xc3, 0x50, 0x24, 0x7f,
            0x72, 0xdf, 0xb6, 0x9d, 0xb7, 0xe4, 0xa1, 0xe7, 0xe5, 0xf9, 0x30, 0x2c, 0x11, 0xb1,
            0xd5, 0x04, 0xca, 0x3e, 0x5a, 0x8e, 0x92, 0xc2, 0xa5, 0x04, 0x7a, 0x21, 0xae, 0xa5,
            0xbe, 0xcb, 0x29, 0xcf, 0xe3, 0xcc, 0x04, 0x04, 0xc1, 0x6b, 0x59, 0x98,
        ]
    );
    assert_eq!(
        tea3_downlink,
        [
            0xcd, 0x46, 0x95, 0x7c, 0xaf, 0x85, 0x1f, 0xc2, 0x59, 0x70, 0xcd, 0x24, 0x29, 0x91,
            0xcd, 0xb2, 0x2a, 0xee, 0x77, 0x4a, 0x76, 0x3d, 0xd7, 0x82, 0x91, 0x28, 0xad, 0xb6,
            0x01, 0x8b, 0x8f, 0x3a, 0xe2, 0x20, 0xe5, 0x39, 0x3b, 0x4b, 0x46, 0x9b, 0x59, 0xd4,
            0xfa, 0xe1, 0x73, 0x2b, 0xdd, 0x61, 0x19, 0xca, 0x24, 0x4e, 0xe4, 0xc3,
        ]
    );
    assert_eq!(
        tea1_uplink,
        [
            0x3c, 0x9a, 0x23, 0xe9, 0x2b, 0xde, 0xb7, 0x09, 0xe1, 0xc5, 0x99, 0xf1, 0xe5, 0x18,
            0x95, 0xbb, 0x6e, 0xaa, 0xd8, 0x0a, 0x2f, 0xf0, 0x80, 0x3c, 0x99, 0x86, 0x96, 0xd9,
            0xd3, 0x30, 0x9b, 0xdc, 0x89, 0x51, 0x3c, 0xe3, 0x2c, 0x63, 0xe8, 0x13, 0x7b, 0xb5,
            0x6b, 0xee, 0xd7, 0xe8, 0xf5, 0xa9, 0x04, 0xd1, 0xf8, 0x2d, 0xb5, 0xc8,
        ]
    );
}

#[test]
fn tb6_reference_vector() {
    assert_eq!(
        tb6(
            &[0x01, 0x23, 0x45, 0x67, 0x89, 0xab, 0xcd, 0xef, 0xaa, 0xbb],
            0x02bc,
            &[0x1d, 0xcc, 0x05]
        )
        .unwrap(),
        [0x2a, 0xe2, 0x99, 0xa7, 0xdb, 0x17, 0xd0, 0x23, 0xaf, 0xbe]
    );
}

#[test]
fn cell_and_expanded_key_vectors() {
    assert_eq!(
        tb5(0x02bc, 0x1dcc, 0x05, &[0x01, 0x23, 0x45, 0x67, 0x89, 0xab, 0xcd, 0xef, 0xaa, 0xbb])
            .unwrap(),
        [0x76, 0x13, 0xea, 0x62, 0xa2, 0x6a, 0x87, 0x1f, 0xf8, 0x07]
    );
    assert_eq!(
        tb7(&[0x01, 0x23, 0x45, 0x67, 0x89, 0xab, 0xcd, 0xef, 0xaa, 0xbb, 0x02, 0xbc]),
        [
            0x01, 0x23, 0x45, 0x67, 0x67, 0x89, 0xab, 0x45, 0xcd, 0xef, 0xaa, 0x88, 0xbb, 0x02,
            0xbc, 0x05
        ]
    );
    assert_eq!(tb4(&[0xff; 10], &[0x0f; 10]), [0xf0; 10]);
}

#[test]
fn values_that_do_not_fit_their_bits_are_refused() {
    assert_eq!(tb5(0x1000, 0, 0, &[0; 10]), Err(InputError::CarrierNumberOutOfRange));
    assert_eq!(tb5(0, 0x4000, 0, &[0; 10]), Err(InputError::LocationAreaOutOfRange));
    assert_eq!(tb5(0, 0, 0x40, &[0; 10]), Err(InputError::ColourCodeOutOfRange));
    assert_eq!(tb6(&[0; 10], 0x1000, &[0; 3]), Err(InputError::CarrierNumberOutOfRange));
    assert_eq!(
        ta51(mixing, &[0; 10], &[0; 2], &[0; 16], 0x20),
        Err(InputError::KeyNumberOutOfRange)
    );
}

/// A block cipher that only mixes: enough to see that blocks and keys go where
/// they should, and that what is sealed is unsealed.
fn mixing(block: [u8; 16], key: [u8; 16]) -> [u8; 16] {
    let mut out = [0u8; 16];
    for i in 0..16 {
        out[i] = block[i] ^ key[i];
    }
    out
}

fn unmixing(sealed: [u8; 15], key: [u8; 16]) -> [u8; 15] {
    let mut out = [0u8; 15];
    for i in 0..15 {
        out[i] = sealed[i] ^ key[i];
    }
    out
}

#[test]
fn the_challenge_and_the_key_enter_the_cipher() {
    let key = [0x11u8; 16];
    let zero = ta11_ta41(mixing, &key, &[0; 10]);
    let other = ta11_ta41(mixing, &key, &[1; 10]);
    assert_ne!(zero, other);
    assert_ne!(zero, ta11_ta41(mixing, &[0x12; 16], &[0; 10]));
    let e = [0, 1, 2, 3, 4, 5, 6, 7, 8, 9, 10, 11, 12, 13, 14, 15];
    let result = auth_result(&e);
    assert_eq!(result.response, [3, 6, 9, 3]);
    assert_eq!(result.derived_cipher_key, [1, 2, 4, 5, 7, 8, 10, 11, 13, 14]);
    let told = ta12_ta22(mixing, &key, &[0; 10]);
    assert_eq!(told.response.len(), 4);
}

#[test]
fn sealed_keys_are_told_apart_from_damaged_ones() {
    // With a cipher that does nothing the sealed form is the plain expanded
    // form with one byte left out, so that a changed byte shows.
    let keep = |block: [u8; 16], _key: [u8; 16]| block;
    let keep_short = |block: [u8; 15], _key: [u8; 16]| block;
    let key = [9u8; 16];
    let cck = [1, 2, 3, 4, 5, 6, 7, 8, 9, 10];
    let sealed = ta31(keep, &cck, &[0x6b, 0x18], &[0x5f; 10]);
    assert_eq!(sealed.len(), 15);
    let open = ta32(keep_short, &[0; 15], &[0x6b, 0x18], &[0x5f; 10]);
    assert_eq!(open.key, [0; 10]);
    let gck = ta81(keep, &[0; 10], &[0xa3, 0x97], &[0x1f, 0x5d], &key);
    assert_eq!(gck.len(), 15);
    let (plain, number, malformed) = ta82(keep_short, &[0; 15], &[0, 0], &key);
    assert_eq!((plain, number, malformed), ([0; 10], [0, 0], false));
    let mut broken = [0u8; 15];
    broken[14] = 1;
    assert!(ta82(keep_short, &broken, &[0, 0], &key).2);
    assert!(ta92(keep_short, &broken, &[0, 0], &key).1);
    assert_eq!(ta91(keep, &[0; 12], &[0, 0], &key).len(), 15);
    let result = ta52(unmixing, &[9u8; 15], &key, &[0, 0]);
    assert_eq!(result.key, [0; 10]);
    assert!(!result.malformed);
}

/// A cipher that mixes and moves the last byte to the place that sealing leaves
/// out, so that nothing is lost.
fn moving(block: [u8; 16], key: [u8; 16]) -> [u8; 16] {
    let mut out = [0u8; 16];
    for i in 0..16 {
        let from = if i == 7 { 15 } else if i < 7 { i } else { i - 1 };
        out[i] = block[from] ^ key[i].rotate_left(1);
    }
    out
}

fn moving_back(sealed: [u8; 15], key: [u8; 16]) -> [u8; 15] {
    let mut out = [0u8; 15];
    for i in 0..15 {
        out[i] = sealed[i] ^ key[if i < 7 { i } else { i + 1 }].rotate_left(1);
    }
    out
}

#[test]
fn what_is_sealed_is_unsealed() {
    let key = [0xa5u8, 1, 2, 3, 4, 5, 6, 7, 8, 9, 10, 11, 12, 13, 14, 0x5a];
    let small = [0xc6, 0x2e, 0x22, 0x85, 0x03, 0x40, 0xbc, 0xeb, 0x55, 0x52];
    let dck = [7u8; 10];
    let version = [0xa3, 0x97];
    let sealed = ta31(moving, &small, &version, &dck);
    let opened = ta32(moving_back, &sealed, &version, &dck);
    assert_eq!((opened.key, opened.malformed), (small, false));
    let sealed = ta51(moving, &small, &version, &key, 17).unwrap();
    let opened = ta52(moving_back, &sealed, &key, &version);
    assert_eq!((opened.key, opened.key_number, opened.malformed), (small, 17, false));
    let sealed = ta81(moving, &small, &version, &[0x1f, 0x5d], &key);
    let opened = ta82(moving_back, &sealed, &version, &key);
    assert_eq!(opened, (small, [0x1f, 0x5d], false));
    assert_eq!(ta81(moving, &opened.0, &version, &opened.1, &key), sealed);
    let gsko = [1, 2, 3, 4, 5, 6, 7, 8, 9, 10, 11, 12];
    let sealed = ta91(moving, &gsko, &version, &key);
    assert_eq!(ta92(moving_back, &sealed, &version, &key), (gsko, false));
    let parts = ta82(moving_back, &sealed, &version, &key);
    assert_eq!((&parts.0[..], &parts.1[..], parts.2), (&gsko[..10], &gsko[10..], false));
}

#[test]
fn the_authentications_are_made_of_the_first() {
    let key = [0x11u8; 16];
    let random = [1, 2, 3, 4, 5, 6, 7, 8, 9, 10];
    let reversed = [10, 9, 8, 7, 6, 5, 4, 3, 2, 1];
    let told = ta12_ta22(mixing, &key, &random);
    let expected = auth_result(&ta11_ta41(mixing, &key, &random));
    assert_eq!(told.response, expected.response);
    assert_eq!(told.derived_cipher_key, expected.derived_cipher_key);
    assert_eq!(ta21(mixing, &key, &random), ta11_ta41(mixing, &key, &reversed));
}

fn swapped_box() -> IdentityBox {
    let mut forward = [0u8; 256];
    for i in 0..256 {
        forward[i] = (i as u8).wrapping_mul(5).wrapping_add(17);
    }
    IdentityBox::new(forward).expect("no value stands twice")
}

fn stand_in(key: [u8; 16], block: [u8; 8]) -> [u8; 8] {
    let mut out = [0u8; 8];
    for i in 0..8 {
        out[i] = block[i].wrapping_mul(7) ^ key[i] ^ key[i + 8].rotate_left(3);
    }
    out
}

#[test]
fn encrypted_identities_are_decrypted_again() {
    let key = [0xc6, 0x2e, 0x22, 0x85, 0x03, 0x40, 0xbc, 0xeb, 0x55, 0x52];
    let identities = swapped_box();
    for identity in [[0x56, 0x5a, 0x72], [0, 0, 0], [0xff, 0xff, 0xff]] {
        let encrypted = ta61(&identities, stand_in, &key, &identity);
        assert_ne!(encrypted, identity);
        assert_eq!(ta61_inverse(&identities, stand_in, &key, &encrypted), identity);
        let decrypted = ta61_inverse(&identities, stand_in, &key, &identity);
        assert_eq!(ta61(&identities, stand_in, &key, &decrypted), identity);
    }
}

#[test]
fn a_box_with_a_value_twice_is_refused() {
    assert!(IdentityBox::new([0; 256]).is_none());
}
