use tetra_bluestation::lmac::rm3014::{
    compute_col_syndromes, compute_syndrome, tetra_rm3014_compute, tetra_rm3014_decode,
    tetra_rm3014_decode_limited_ecc, tetra_rm3014_decode_naive, Rm3014Decoded,
};

#[test]
fn test_encode_decode_no_error() {
    let messages = [0u16, 1u16, 0x1FFFu16, 0x1234u16, 0x2A3Bu16];
    for &msg in &messages {
        let code = tetra_rm3014_compute(msg);
        assert_eq!(tetra_rm3014_decode_naive(code), msg);
        assert_eq!(tetra_rm3014_decode_limited_ecc(code), msg);
    }
}

#[test]
fn test_single_bit_error_correction() {
    let messages = [0u16, 1u16, 0x1FFFu16, 0x1234u16, 0x2A3Bu16];

    for &msg in &messages {
        let code = tetra_rm3014_compute(msg);
        for bit in 0..30 {
            let erroneous = code ^ (1 << bit);
            let decoded = tetra_rm3014_decode_limited_ecc(erroneous);
            assert_eq!(decoded, msg, "Failed to correct bit {}", bit);
        }
    }
}

#[test]
fn test_uncorrectable_errors() {
    let msg = 0x1234u16;
    let code = tetra_rm3014_compute(msg);
    let erroneous = code ^ 0xbadd00;
    let decoded = tetra_rm3014_decode_limited_ecc(erroneous);
    assert_ne!(decoded, msg);
}

#[test]
fn three_errors_are_corrected_and_counted() {
    let msg = 0x2A3Bu16;
    let code = tetra_rm3014_compute(msg);
    assert_eq!(tetra_rm3014_decode(code).ok(), Some(Rm3014Decoded { data: msg, corrected_bits: 0 }));
    let damaged = code ^ (1 << 2) ^ (1 << 13) ^ (1 << 29);
    assert_eq!(
        tetra_rm3014_decode(damaged).ok(),
        Some(Rm3014Decoded { data: msg, corrected_bits: 3 })
    );
    let lost = code ^ (1 << 0) ^ (1 << 5) ^ (1 << 13) ^ (1 << 29);
    assert!(tetra_rm3014_decode(lost).is_err());
}

#[test]
fn a_codeword_has_no_syndrome() {
    assert_eq!(compute_syndrome(tetra_rm3014_compute(0x1234)), 0);
    let columns = compute_col_syndromes();
    for bit in 0..30 {
        assert_eq!(compute_syndrome(1u32 << (29 - bit)), columns[bit]);
    }
}

#[test]
fn decoding_is_exact_over_distance() {
    // Around one codeword, every damage of up to three bits is repaired and
    // counted.
    let msg = 0x2b11u16;
    let code = tetra_rm3014_compute(msg);
    for a in 0..30u32 {
        for b in a..30u32 {
            let damage = (1u32 << a) | (1u32 << b) | (1u32 << 7);
            let decoded = tetra_rm3014_decode(code ^ damage).ok();
            let bits = damage.count_ones() as u8;
            assert_eq!(decoded, Some(Rm3014Decoded { data: msg, corrected_bits: bits }));
            assert_eq!(tetra_rm3014_decode_limited_ecc(code ^ damage), msg);
        }
    }
    // Whatever is decoded lies that near; whatever is not has no codeword near.
    let mut word = 0x1357_9bdfu32 & 0x3fff_ffff;
    for _ in 0..20 {
        word = word.wrapping_mul(0x0019_660d).wrapping_add(0x3c6e_f35f) & 0x3fff_ffff;
        let nearest = (0..0x4000u16)
            .map(|m| ((tetra_rm3014_compute(m) ^ word).count_ones(), m))
            .min()
            .unwrap();
        match tetra_rm3014_decode(word) {
            Ok(decoded) => {
                assert_eq!((decoded.corrected_bits as u32, decoded.data), nearest);
            }
            Err(error) => {
                assert!(nearest.0 > 3);
                assert_eq!(error.syndrome, compute_syndrome(word));
                assert_eq!(
                    tetra_rm3014_decode_limited_ecc(word),
                    tetra_rm3014_decode_naive(word)
                );
            }
        }
    }
}

#[test]
fn only_codewords_have_no_syndrome() {
    for word in [0u32, 1, 0x0001_0000, 0x1234_5678 & 0x3fff_ffff, tetra_rm3014_compute(0x3fff)] {
        assert_eq!(
            compute_syndrome(word) == 0,
            tetra_rm3014_compute((word >> 16) as u16) == word
        );
    }
}
