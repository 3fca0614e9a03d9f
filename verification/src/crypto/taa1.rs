//! The TAA1 key management functions.
//!
//! They are built on HURDLE, a 64-bit block cipher with a 128-bit key. The
//! cipher is a parameter: `enc_cbc` encrypts two blocks in CBC mode, `dec_cts`
//! undoes it with ciphertext stealing, and `hurdle` encrypts one block.
use crate::crypto::InputError;
use vstd::arithmetic::div_mod::*;
use vstd::prelude::*;

verus! {

/// The answer to an authentication challenge, with the key derived along it.
#[derive(Debug, Clone, Copy, PartialEq, Eq)]
pub struct AuthResult {
    pub response: [u8; 4],
    pub derived_cipher_key: [u8; 10],
}

/// An unsealed 80-bit key.
#[derive(Debug, Clone, Copy, PartialEq, Eq)]
pub struct SealResult10 {
    pub key: [u8; 10],
    pub malformed: bool,
}

/// An unsealed 80-bit key with its number.
#[derive(Debug, Clone, Copy, PartialEq, Eq)]
pub struct KeyUnsealResult {
    pub key: [u8; 10],
    pub key_number: u8,
    pub malformed: bool,
}

// ---------------------------------------------------------------------------
// Redundant forms
// ---------------------------------------------------------------------------

/// The sum of two bytes modulo 256.
pub open spec fn wrapping_sum(a: u8, b: u8) -> u8 {
    ((a + b) % 256) as u8
}

/// 80 bits as five groups of a sum and the two bytes it is made of, the `i`th
/// from the front and from the back.
pub open spec fn expanded_80_to_120(input: Seq<u8>) -> Seq<u8> {
    Seq::new(
        15,
        |i: int|
            {
                let a = input[i / 3];
                let b = input[9 - i / 3];
                if i % 3 == 0 {
                    wrapping_sum(a, b)
                } else if i % 3 == 1 {
                    a
                } else {
                    b
                }
            },
    )
}

/// The same behind a byte that checks the five sums.
pub open spec fn expanded_80_to_128(input: Seq<u8>) -> Seq<u8> {
    let tail = expanded_80_to_120(input);
    seq![tail[0] ^ tail[3] ^ tail[6] ^ tail[9] ^ tail[12]] + tail
}

/// 80 bits as five groups of two bytes and their exclusive or.
pub open spec fn expanded_80_to_120_alt(input: Seq<u8>) -> Seq<u8> {
    Seq::new(
        15,
        |i: int|
            if i % 3 == 2 {
                input[i / 3 * 2] ^ input[i / 3 * 2 + 1]
            } else {
                input[i / 3 * 2 + i % 3]
            },
    )
}

/// The same before a byte that sums the five check bytes.
pub open spec fn expanded_80_to_128_alt(input: Seq<u8>) -> Seq<u8> {
    let head = expanded_80_to_120_alt(input);
    head.push(
        wrapping_sum(
            wrapping_sum(wrapping_sum(wrapping_sum(head[2], head[5]), head[8]), head[11]),
            head[14],
        ),
    )
}

/// 88 bits as a group of two and three groups of three bytes, each before its
/// exclusive or.
pub open spec fn expanded_88_to_120(s: Seq<u8>) -> Seq<u8> {
    seq![
        s[0],
        s[1],
        s[0] ^ s[1],
        s[2],
        s[3],
        s[4],
        s[2] ^ s[3] ^ s[4],
        s[5],
        s[6],
        s[7],
        s[5] ^ s[6] ^ s[7],
        s[8],
        s[9],
        s[10],
        s[8] ^ s[9] ^ s[10],
    ]
}

/// The 88 bits of that form.
pub open spec fn shrunk_120_to_88(s: Seq<u8>) -> Seq<u8> {
    seq![s[0], s[1], s[3], s[4], s[5], s[7], s[8], s[9], s[11], s[12], s[13]]
}

/// Whether the check bytes of that form are right.
pub open spec fn checked_88(s: Seq<u8>) -> bool {
    s[0] ^ s[1] == s[2] && s[3] ^ s[4] ^ s[5] == s[6] && s[7] ^ s[8] ^ s[9] == s[10] && s[11]
        ^ s[12] ^ s[13] == s[14]
}

/// The 80 bits of the form of five groups.
pub open spec fn shrunk_120_to_80_alt(s: Seq<u8>) -> Seq<u8> {
    seq![s[0], s[1], s[3], s[4], s[6], s[7], s[9], s[10], s[12], s[13]]
}

/// Whether the check bytes of that form are right.
pub open spec fn checked_80_alt(s: Seq<u8>) -> bool {
    s[0] ^ s[1] == s[2] && s[3] ^ s[4] == s[5] && s[6] ^ s[7] == s[8] && s[9] ^ s[10] == s[11]
        && s[12] ^ s[13] == s[14]
}

/// A group key with its number as three groups of four bytes and their
/// exclusive or.
pub open spec fn expanded_gck(g: Seq<u8>, n: Seq<u8>) -> Seq<u8> {
    seq![
        g[0],
        g[1],
        g[2],
        g[3],
        g[0] ^ g[1] ^ g[2] ^ g[3],
        g[4],
        g[5],
        g[6],
        g[7],
        g[4] ^ g[5] ^ g[6] ^ g[7],
        g[8],
        g[9],
        n[0],
        n[1],
        g[8] ^ g[9] ^ n[0] ^ n[1],
    ]
}

/// The group key of that form.
pub open spec fn shrunk_gck(s: Seq<u8>) -> Seq<u8> {
    seq![s[0], s[1], s[2], s[3], s[5], s[6], s[7], s[8], s[10], s[11]]
}

/// Whether the check bytes of that form are right.
pub open spec fn checked_gck(s: Seq<u8>) -> bool {
    s[14] == s[10] ^ s[11] ^ s[12] ^ s[13] && s[9] == s[5] ^ s[6] ^ s[7] ^ s[8] && s[4] == s[0]
        ^ s[1] ^ s[2] ^ s[3]
}

/// A byte string with a two-byte version laid over it again and again.
pub open spec fn versioned(key: Seq<u8>, version: Seq<u8>) -> Seq<u8> {
    Seq::new(key.len(), |i: int| key[i] ^ version[i % 2])
}

/// Two blocks without the last byte of the first.
pub open spec fn stolen(s: Seq<u8>) -> Seq<u8> {
    s.take(7) + s.skip(8)
}

fn sum(a: u8, b: u8) -> (r: u8)
    ensures
        r == wrapping_sum(a, b),
{
    a.wrapping_add(b)
}

fn expand_80_to_128(input: &[u8; 10]) -> (out: [u8; 16])
    ensures
        out@ == expanded_80_to_128(input@),
{
    let s0: u8 = sum(input[0], input[9]);
    let s1: u8 = sum(input[1], input[8]);
    let s2: u8 = sum(input[2], input[7]);
    let s3: u8 = sum(input[3], input[6]);
    let s4: u8 = sum(input[4], input[5]);
    let out: [u8; 16] = [
        s0 ^ s1 ^ s2 ^ s3 ^ s4,
        s0,
        input[0],
        input[9],
        s1,
        input[1],
        input[8],
        s2,
        input[2],
        input[7],
        s3,
        input[3],
        input[6],
        s4,
        input[4],
        input[5],
    ];
    assert(out@ =~= expanded_80_to_128(input@));
    out
}

fn expand_80_to_120_alt(input: &[u8; 10]) -> (out: [u8; 15])
    ensures
        out@ == expanded_80_to_120_alt(input@),
{
    let out: [u8; 15] = [
        input[0],
        input[1],
        input[0] ^ input[1],
        input[2],
        input[3],
        input[2] ^ input[3],
        input[4],
        input[5],
        input[4] ^ input[5],
        input[6],
        input[7],
        input[6] ^ input[7],
        input[8],
        input[9],
        input[8] ^ input[9],
    ];
    assert(out@ =~= expanded_80_to_120_alt(input@));
    out
}

fn expand_80_to_128_alt(input: &[u8; 10]) -> (out: [u8; 16])
    ensures
        out@ == expanded_80_to_128_alt(input@),
{
    let head: [u8; 15] = expand_80_to_120_alt(input);
    let total: u8 = sum(sum(sum(sum(head[2], head[5]), head[8]), head[11]), head[14]);
    let out: [u8; 16] = [
        head[0],
        head[1],
        head[2],
        head[3],
        head[4],
        head[5],
        head[6],
        head[7],
        head[8],
        head[9],
        head[10],
        head[11],
        head[12],
        head[13],
        head[14],
        total,
    ];
    assert(out@ =~= expanded_80_to_128_alt(input@));
    out
}

/// 15 bytes before a zero.
fn padded(head: &[u8; 15]) -> (out: [u8; 16])
    ensures
        out@ == head@.push(0u8),
{
    let out: [u8; 16] = [
        head[0],
        head[1],
        head[2],
        head[3],
        head[4],
        head[5],
        head[6],
        head[7],
        head[8],
        head[9],
        head[10],
        head[11],
        head[12],
        head[13],
        head[14],
        0,
    ];
    assert(out@ =~= head@.push(0u8));
    out
}

fn expand_88_to_120(s: &[u8; 11]) -> (out: [u8; 15])
    ensures
        out@ == expanded_88_to_120(s@),
{
    let out: [u8; 15] = [
        s[0],
        s[1],
        s[0] ^ s[1],
        s[2],
        s[3],
        s[4],
        s[2] ^ s[3] ^ s[4],
        s[5],
        s[6],
        s[7],
        s[5] ^ s[6] ^ s[7],
        s[8],
        s[9],
        s[10],
        s[8] ^ s[9] ^ s[10],
    ];
    assert(out@ =~= expanded_88_to_120(s@));
    out
}

fn check_88(s: &[u8; 15]) -> (r: bool)
    ensures
        r == checked_88(s@),
{
    s[0] ^ s[1] == s[2] && s[3] ^ s[4] ^ s[5] == s[6] && s[7] ^ s[8] ^ s[9] == s[10] && s[11]
        ^ s[12] ^ s[13] == s[14]
}

fn shrink_120_to_80_alt(s: &[u8; 15]) -> (out: [u8; 10])
    ensures
        out@ == shrunk_120_to_80_alt(s@),
{
    let out: [u8; 10] = [s[0], s[1], s[3], s[4], s[6], s[7], s[9], s[10], s[12], s[13]];
    assert(out@ =~= shrunk_120_to_80_alt(s@));
    out
}

fn check_80_alt(s: &[u8; 15]) -> (r: bool)
    ensures
        r == checked_80_alt(s@),
{
    s[0] ^ s[1] == s[2] && s[3] ^ s[4] == s[5] && s[6] ^ s[7] == s[8] && s[9] ^ s[10] == s[11]
        && s[12] ^ s[13] == s[14]
}

fn expand_gck(g: &[u8; 10], n: &[u8; 2]) -> (out: [u8; 16])
    ensures
        out@ == expanded_gck(g@, n@).push(0u8),
{
    let out: [u8; 16] = [
        g[0],
        g[1],
        g[2],
        g[3],
        g[0] ^ g[1] ^ g[2] ^ g[3],
        g[4],
        g[5],
        g[6],
        g[7],
        g[4] ^ g[5] ^ g[6] ^ g[7],
        g[8],
        g[9],
        n[0],
        n[1],
        g[8] ^ g[9] ^ n[0] ^ n[1],
        0,
    ];
    assert(out@ =~= expanded_gck(g@, n@).push(0u8));
    out
}

fn versioned_80(key: &[u8; 10], version: &[u8; 2]) -> (out: [u8; 10])
    ensures
        out@ == versioned(key@, version@),
{
    let out: [u8; 10] = [
        key[0] ^ version[0],
        key[1] ^ version[1],
        key[2] ^ version[0],
        key[3] ^ version[1],
        key[4] ^ version[0],
        key[5] ^ version[1],
        key[6] ^ version[0],
        key[7] ^ version[1],
        key[8] ^ version[0],
        key[9] ^ version[1],
    ];
    assert(out@ =~= versioned(key@, version@));
    out
}

fn adjusted_key_80(key: &[u8; 10], version: &[u8; 2]) -> (out: [u8; 16])
    ensures
        out@ == expanded_80_to_128(versioned(key@, version@)),
{
    expand_80_to_128(&versioned_80(key, version))
}

fn adjusted_key_128(key: &[u8; 16], version: &[u8; 2]) -> (out: [u8; 16])
    ensures
        out@ == versioned(key@, version@),
{
    let out: [u8; 16] = [
        key[0] ^ version[0],
        key[1] ^ version[1],
        key[2] ^ version[0],
        key[3] ^ version[1],
        key[4] ^ version[0],
        key[5] ^ version[1],
        key[6] ^ version[0],
        key[7] ^ version[1],
        key[8] ^ version[0],
        key[9] ^ version[1],
        key[10] ^ version[0],
        key[11] ^ version[1],
        key[12] ^ version[0],
        key[13] ^ version[1],
        key[14] ^ version[0],
        key[15] ^ version[1],
    ];
    assert(out@ =~= versioned(key@, version@));
    out
}

fn steal(s: &[u8; 16]) -> (out: [u8; 15])
    ensures
        out@ == stolen(s@),
{
    let out: [u8; 15] = [
        s[0],
        s[1],
        s[2],
        s[3],
        s[4],
        s[5],
        s[6],
        s[8],
        s[9],
        s[10],
        s[11],
        s[12],
        s[13],
        s[14],
        s[15],
    ];
    assert(out@ =~= stolen(s@));
    out
}

/// What is sealed in a form can be read back, and its check bytes are right.
pub proof fn law_sealed_forms_are_read_back(
    key: Seq<u8>,
    numbered: Seq<u8>,
    gck: Seq<u8>,
    number: Seq<u8>,
)
    requires
        key.len() == 10,
        numbered.len() == 11,
        gck.len() == 10,
        number.len() == 2,
    ensures
        shrunk_120_to_80_alt(expanded_80_to_120_alt(key)) == key,
        checked_80_alt(expanded_80_to_120_alt(key)),
        shrunk_120_to_88(expanded_88_to_120(numbered)) == numbered,
        checked_88(expanded_88_to_120(numbered)),
        shrunk_gck(expanded_gck(gck, number)) == gck,
        checked_gck(expanded_gck(gck, number)),
        expanded_gck(gck, number).subrange(12, 14) == number,
{
    assert(shrunk_120_to_80_alt(expanded_80_to_120_alt(key)) =~= key);
    assert(shrunk_120_to_88(expanded_88_to_120(numbered)) =~= numbered);
    assert(shrunk_gck(expanded_gck(gck, number)) =~= gck);
    assert(expanded_gck(gck, number).subrange(12, 14) =~= number);
}

/// A version laid over a byte string twice leaves it as it was.
pub proof fn law_version_is_undone(key: Seq<u8>, version: Seq<u8>)
    requires
        version.len() == 2,
    ensures
        versioned(versioned(key, version), version) == key,
{
    assert forall|i: int| 0 <= i < key.len() implies #[trigger] versioned(
        versioned(key, version),
        version,
    )[i] == key[i] by {
        let a = key[i];
        let b = version[i % 2];
        assert((a ^ b) ^ b == a) by (bit_vector);
    }
    assert(versioned(versioned(key, version), version) =~= key);
}

// ---------------------------------------------------------------------------
// Authentication
// ---------------------------------------------------------------------------

/// Whether the block function may answer with the encryption of a challenge.
pub open spec fn is_challenge_encrypted<F: Fn([u8; 16], [u8; 16]) -> [u8; 16]>(
    enc_cbc: F,
    key: [u8; 16],
    challenge: Seq<u8>,
    encrypted: [u8; 16],
) -> bool {
    exists|block: [u8; 16]|
        block@ == expanded_80_to_128_alt(challenge) && #[trigger] call_ensures(
            enc_cbc,
            (block, key),
            encrypted,
        )
}

/// TA11 / TA41: derive KS from K and the 80-bit RS challenge.
pub fn ta11_ta41<F: Fn([u8; 16], [u8; 16]) -> [u8; 16]>(
    enc_cbc: F,
    key: &[u8; 16],
    challenge: &[u8; 10],
) -> (ks: [u8; 16])
    requires
        forall|block: [u8; 16], k: [u8; 16]| call_requires(enc_cbc, (block, k)),
    ensures
        is_challenge_encrypted(enc_cbc, *key, challenge@, ks),
{
    enc_cbc(expand_80_to_128_alt(challenge), *key)
}

/// The response and key in an encrypted random number.
pub open spec fn is_auth_result(e: Seq<u8>, result: AuthResult) -> bool {
    &&& result.response@ == seq![e[0] ^ e[3], e[6], e[9], e[12] ^ e[15]]
    &&& result.derived_cipher_key@ == seq![
        e[1],
        e[2],
        e[4],
        e[5],
        e[7],
        e[8],
        e[10],
        e[11],
        e[13],
        e[14],
    ]
}

/// The response and key in an encrypted random number.
pub fn auth_result(e: &[u8; 16]) -> (result: AuthResult)
    ensures
        is_auth_result(e@, result),
{
    let result = AuthResult {
        response: [e[0] ^ e[3], e[6], e[9], e[12] ^ e[15]],
        derived_cipher_key: [e[1], e[2], e[4], e[5], e[7], e[8], e[10], e[11], e[13], e[14]],
    };
    assert(result.response@ =~= seq![e[0] ^ e[3], e[6], e[9], e[12] ^ e[15]]);
    assert(result.derived_cipher_key@ =~= seq![
        e[1],
        e[2],
        e[4],
        e[5],
        e[7],
        e[8],
        e[10],
        e[11],
        e[13],
        e[14],
    ]);
    result
}

/// Whether the block function may lead to this response and key.
pub open spec fn is_authentication<F: Fn([u8; 16], [u8; 16]) -> [u8; 16]>(
    enc_cbc: F,
    key: [u8; 16],
    random: Seq<u8>,
    result: AuthResult,
) -> bool {
    exists|encrypted: [u8; 16]| #[trigger]
        is_challenge_encrypted(enc_cbc, key, random, encrypted) && is_auth_result(
            encrypted@,
            result,
        )
}

/// TA12 / TA22: calculate RES and DCK from KS and RAND.
pub fn ta12_ta22<F: Fn([u8; 16], [u8; 16]) -> [u8; 16]>(
    enc_cbc: F,
    key: &[u8; 16],
    random: &[u8; 10],
) -> (result: AuthResult)
    requires
        forall|block: [u8; 16], k: [u8; 16]| call_requires(enc_cbc, (block, k)),
    ensures
        is_authentication(enc_cbc, *key, random@, result),
{
    let ghost f = enc_cbc;
    let encrypted: [u8; 16] = enc_cbc(expand_80_to_128_alt(random), *key);
    assert(is_challenge_encrypted(f, *key, random@, encrypted));
    auth_result(&encrypted)
}

/// TA21: derive KSP from K and the reversed 80-bit RS challenge.
pub fn ta21<F: Fn([u8; 16], [u8; 16]) -> [u8; 16]>(
    enc_cbc: F,
    key: &[u8; 16],
    challenge: &[u8; 10],
) -> (ksp: [u8; 16])
    requires
        forall|block: [u8; 16], k: [u8; 16]| call_requires(enc_cbc, (block, k)),
    ensures
        is_challenge_encrypted(enc_cbc, *key, challenge@.reverse(), ksp),
{
    let reversed: [u8; 10] = [
        challenge[9],
        challenge[8],
        challenge[7],
        challenge[6],
        challenge[5],
        challenge[4],
        challenge[3],
        challenge[2],
        challenge[1],
        challenge[0],
    ];
    assert(reversed@ =~= challenge@.reverse());
    enc_cbc(expand_80_to_128_alt(&reversed), *key)
}

/// Whether a block function answers alike whenever it is asked the same.
pub open spec fn answers_alike<F: Fn([u8; 16], [u8; 16]) -> [u8; 16]>(enc_cbc: F) -> bool {
    forall|block: [u8; 16], key: [u8; 16], first: [u8; 16], second: [u8; 16]| #[trigger]
        call_ensures(enc_cbc, (block, key), first) && #[trigger] call_ensures(
            enc_cbc,
            (block, key),
            second,
        ) ==> first == second
}

/// With a block function that answers alike, a challenge has one encryption.
pub proof fn law_challenge_has_one_encryption<F: Fn([u8; 16], [u8; 16]) -> [u8; 16]>(
    enc_cbc: F,
    key: [u8; 16],
    challenge: Seq<u8>,
    first: [u8; 16],
    second: [u8; 16],
)
    requires
        answers_alike(enc_cbc),
        is_challenge_encrypted(enc_cbc, key, challenge, first),
        is_challenge_encrypted(enc_cbc, key, challenge, second),
    ensures
        first == second,
{
    let left = choose|block: [u8; 16]|
        block@ == expanded_80_to_128_alt(challenge) && #[trigger] call_ensures(
            enc_cbc,
            (block, key),
            first,
        );
    let right = choose|block: [u8; 16]|
        block@ == expanded_80_to_128_alt(challenge) && #[trigger] call_ensures(
            enc_cbc,
            (block, key),
            second,
        );
    assert(left =~= right);
}

/// TA12 is made of what TA11 gives for the same key and number.
pub proof fn law_ta12_is_made_of_ta11<F: Fn([u8; 16], [u8; 16]) -> [u8; 16]>(
    enc_cbc: F,
    key: [u8; 16],
    random: Seq<u8>,
    encrypted: [u8; 16],
    result: AuthResult,
)
    requires
        answers_alike(enc_cbc),
        is_challenge_encrypted(enc_cbc, key, random, encrypted),
        is_authentication(enc_cbc, key, random, result),
    ensures
        is_auth_result(encrypted@, result),
{
    let other = choose|other: [u8; 16]| #[trigger]
        is_challenge_encrypted(enc_cbc, key, random, other) && is_auth_result(other@, result);
    law_challenge_has_one_encryption(enc_cbc, key, random, encrypted, other);
}

/// TA21 gives what TA11 gives for the challenge in reverse.
pub proof fn law_ta21_is_ta11_in_reverse<F: Fn([u8; 16], [u8; 16]) -> [u8; 16]>(
    enc_cbc: F,
    key: [u8; 16],
    challenge: Seq<u8>,
    reversed: Seq<u8>,
    ksp: [u8; 16],
    ks: [u8; 16],
)
    requires
        answers_alike(enc_cbc),
        challenge.len() == 10,
        reversed.len() == 10,
        forall|i: int| 0 <= i < 10 ==> #[trigger] reversed[i] == challenge[9 - i],
        // What TA21 gives for the challenge, and TA11 for the reversed one.
        is_challenge_encrypted(enc_cbc, key, challenge.reverse(), ksp),
        is_challenge_encrypted(enc_cbc, key, reversed, ks),
    ensures
        ksp == ks,
{
    assert(challenge.reverse() =~= reversed);
    law_challenge_has_one_encryption(enc_cbc, key, reversed, ksp, ks);
}

// ---------------------------------------------------------------------------
// Sealing
// ---------------------------------------------------------------------------

/// Whether the block function may seal a form: encrypted behind a zero, without
/// the byte that is stolen.
pub open spec fn is_sealed<F: Fn([u8; 16], [u8; 16]) -> [u8; 16]>(
    enc_cbc: F,
    key: Seq<u8>,
    form: Seq<u8>,
    sealed: Seq<u8>,
) -> bool {
    exists|block: [u8; 16], k: [u8; 16], encrypted: [u8; 16]|
        block@ == form.push(0u8) && k@ == key && #[trigger] call_ensures(
            enc_cbc,
            (block, k),
            encrypted,
        ) && sealed == stolen(encrypted@)
}

/// Whether the block function may open a sealed form to this one.
pub open spec fn is_opened<G: Fn([u8; 15], [u8; 16]) -> [u8; 15]>(
    dec_cts: G,
    key: Seq<u8>,
    sealed: [u8; 15],
    form: Seq<u8>,
) -> bool {
    exists|k: [u8; 16], decrypted: [u8; 15]|
        k@ == key && #[trigger] call_ensures(dec_cts, (sealed, k), decrypted) && form == decrypted@
}

/// Whether opening undoes sealing, for blocks that end in a zero.
pub open spec fn opens_what_is_sealed<
    F: Fn([u8; 16], [u8; 16]) -> [u8; 16],
    G: Fn([u8; 15], [u8; 16]) -> [u8; 15],
>(enc_cbc: F, dec_cts: G) -> bool {
    forall|block: [u8; 16], key: [u8; 16], encrypted: [u8; 16], sealed: [u8; 15], opened: [u8; 15]|
        block@[15] == 0 && #[trigger] call_ensures(enc_cbc, (block, key), encrypted) && sealed@
            == stolen(encrypted@) && #[trigger] call_ensures(dec_cts, (sealed, key), opened)
            ==> opened@ == block@.take(15)
}

/// Whether sealing undoes opening.
pub open spec fn seals_what_is_opened<
    F: Fn([u8; 16], [u8; 16]) -> [u8; 16],
    G: Fn([u8; 15], [u8; 16]) -> [u8; 15],
>(enc_cbc: F, dec_cts: G) -> bool {
    forall|block: [u8; 16], key: [u8; 16], encrypted: [u8; 16], sealed: [u8; 15], opened: [u8; 15]|
        block@ == opened@.push(0u8) && #[trigger] call_ensures(enc_cbc, (block, key), encrypted)
            && #[trigger] call_ensures(dec_cts, (sealed, key), opened) ==> sealed@ == stolen(
            encrypted@,
        )
}

proof fn lemma_opened_form<
    F: Fn([u8; 16], [u8; 16]) -> [u8; 16],
    G: Fn([u8; 15], [u8; 16]) -> [u8; 15],
>(
    enc_cbc: F,
    dec_cts: G,
    key: Seq<u8>,
    form: Seq<u8>,
    sealed: [u8; 15],
    opened: Seq<u8>,
)
    requires
        form.len() == 15,
        opens_what_is_sealed(enc_cbc, dec_cts),
        is_sealed(enc_cbc, key, form, sealed@),
        is_opened(dec_cts, key, sealed, opened),
    ensures
        opened == form,
{
    let (block, k, encrypted) = choose|block: [u8; 16], k: [u8; 16], encrypted: [u8; 16]|
        block@ == form.push(0u8) && k@ == key && #[trigger] call_ensures(
            enc_cbc,
            (block, k),
            encrypted,
        ) && sealed@ == stolen(encrypted@);
    let (other, decrypted) = choose|other: [u8; 16], decrypted: [u8; 15]|
        other@ == key && #[trigger] call_ensures(dec_cts, (sealed, other), decrypted) && opened
            == decrypted@;
    assert(k =~= other);
    assert(block@.take(15) =~= form);
}

/// TA31: seal a CCK using CCK ID and DCK.
pub fn ta31<F: Fn([u8; 16], [u8; 16]) -> [u8; 16]>(
    enc_cbc: F,
    unsealed_cck: &[u8; 10],
    cck_id: &[u8; 2],
    dck: &[u8; 10],
) -> (sealed: [u8; 15])
    requires
        forall|block: [u8; 16], k: [u8; 16]| call_requires(enc_cbc, (block, k)),
    ensures
        is_sealed(
            enc_cbc,
            expanded_80_to_128(versioned(dck@, cck_id@)),
            expanded_80_to_120_alt(unsealed_cck@),
            sealed@,
        ),
{
    let block: [u8; 16] = padded(&expand_80_to_120_alt(unsealed_cck));
    let encrypted: [u8; 16] = enc_cbc(block, adjusted_key_80(dck, cck_id));
    steal(&encrypted)
}

/// The key in a decrypted CCK.
pub open spec fn is_unsealed_cck(d: Seq<u8>, result: SealResult10) -> bool {
    result.key@ == shrunk_120_to_80_alt(d) && result.malformed == !checked_80_alt(d)
}

/// The key in a decrypted CCK; `malformed` tells that a check byte is wrong.
pub fn unsealed_cck(d: &[u8; 15]) -> (result: SealResult10)
    ensures
        is_unsealed_cck(d@, result),
{
    SealResult10 { key: shrink_120_to_80_alt(d), malformed: !check_80_alt(d) }
}

/// TA32: unseal a CCK. `malformed` reports a failed integrity check.
pub fn ta32<F: Fn([u8; 15], [u8; 16]) -> [u8; 15]>(
    dec_cts: F,
    sealed_cck: &[u8; 15],
    cck_id: &[u8; 2],
    dck: &[u8; 10],
) -> (result: SealResult10)
    requires
        forall|block: [u8; 15], k: [u8; 16]| call_requires(dec_cts, (block, k)),
    ensures
        exists|form: Seq<u8>| #[trigger]
            is_opened(
                dec_cts,
                expanded_80_to_128(versioned(dck@, cck_id@)),
                *sealed_cck,
                form,
            ) && is_unsealed_cck(form, result),
{
    let ghost f = dec_cts;
    let decrypted: [u8; 15] = dec_cts(*sealed_cck, adjusted_key_80(dck, cck_id));
    assert(is_opened(
        f,
        expanded_80_to_128(versioned(dck@, cck_id@)),
        *sealed_cck,
        decrypted@,
    ));
    unsealed_cck(&decrypted)
}

/// TA51: seal an 80-bit key and a five-bit key number.
pub fn ta51<F: Fn([u8; 16], [u8; 16]) -> [u8; 16]>(
    enc_cbc: F,
    unsealed: &[u8; 10],
    version: &[u8; 2],
    key: &[u8; 16],
    key_number: u8,
) -> (sealed: Result<[u8; 15], InputError>)
    requires
        forall|block: [u8; 16], k: [u8; 16]| call_requires(enc_cbc, (block, k)),
    ensures
        match sealed {
            Ok(bytes) => key_number <= 31 && is_sealed(
                enc_cbc,
                versioned(key@, version@),
                expanded_88_to_120(unsealed@.push(key_number)),
                bytes@,
            ),
            Err(error) => key_number > 31 && error == InputError::KeyNumberOutOfRange,
        },
{
    if key_number > 31 {
        return Err(InputError::KeyNumberOutOfRange);
    }
    let source: [u8; 11] = [
        unsealed[0],
        unsealed[1],
        unsealed[2],
        unsealed[3],
        unsealed[4],
        unsealed[5],
        unsealed[6],
        unsealed[7],
        unsealed[8],
        unsealed[9],
        key_number,
    ];
    assert(source@ =~= unsealed@.push(key_number));
    let block: [u8; 16] = padded(&expand_88_to_120(&source));
    let encrypted: [u8; 16] = enc_cbc(block, adjusted_key_128(key, version));
    Ok(steal(&encrypted))
}

/// The key and its number in a decrypted key.
pub open spec fn is_unsealed_key(d: Seq<u8>, result: KeyUnsealResult) -> bool {
    &&& result.key@ == shrunk_120_to_88(d).take(10)
    &&& result.key_number == shrunk_120_to_88(d)[10]
    &&& result.malformed == (!checked_88(d) || result.key_number > 31)
}

/// The key and its number in a decrypted key; `malformed` tells that a check
/// byte is wrong or the number too large.
pub fn unsealed_key(d: &[u8; 15]) -> (result: KeyUnsealResult)
    ensures
        is_unsealed_key(d@, result),
{
    let result = KeyUnsealResult {
        key: [d[0], d[1], d[3], d[4], d[5], d[7], d[8], d[9], d[11], d[12]],
        key_number: d[13],
        malformed: !check_88(d) || d[13] > 31,
    };
    assert(result.key@ =~= shrunk_120_to_88(d@).take(10));
    result
}

/// TA52: unseal an 80-bit key and its key number. `malformed` includes an invalid key number.
pub fn ta52<F: Fn([u8; 15], [u8; 16]) -> [u8; 15]>(
    dec_cts: F,
    sealed: &[u8; 15],
    key: &[u8; 16],
    version: &[u8; 2],
) -> (result: KeyUnsealResult)
    requires
        forall|block: [u8; 15], k: [u8; 16]| call_requires(dec_cts, (block, k)),
    ensures
        exists|form: Seq<u8>| #[trigger]
            is_opened(dec_cts, versioned(key@, version@), *sealed, form) && is_unsealed_key(
                form,
                result,
            ),
{
    let ghost f = dec_cts;
    let decrypted: [u8; 15] = dec_cts(*sealed, adjusted_key_128(key, version));
    assert(is_opened(f, versioned(key@, version@), *sealed, decrypted@));
    unsealed_key(&decrypted)
}

/// TA71: derive MGCK from GCK and CCK.
pub fn ta71<F: Fn([u8; 16], [u8; 16]) -> [u8; 16]>(
    enc_cbc: F,
    gck: &[u8; 10],
    cck: &[u8; 10],
) -> (mgck: [u8; 10])
    requires
        forall|block: [u8; 16], k: [u8; 16]| call_requires(enc_cbc, (block, k)),
    ensures
        exists|block: [u8; 16], key: [u8; 16], encrypted: [u8; 16]|
            block@ == expanded_80_to_128_alt(xored(gck@, cck@)) && key@ == overlapped(gck@, cck@)
                && #[trigger] call_ensures(enc_cbc, (block, key), encrypted) && mgck@
                == encrypted@.subrange(3, 13),
{
    let plaintext: [u8; 10] = tb4(gck, cck);
    let key: [u8; 16] = [
        gck[0],
        gck[1],
        gck[2],
        gck[3],
        gck[4],
        gck[5],
        gck[6] ^ cck[0],
        gck[7] ^ cck[1],
        gck[8] ^ cck[2],
        gck[9] ^ cck[3],
        cck[4],
        cck[5],
        cck[6],
        cck[7],
        cck[8],
        cck[9],
    ];
    assert(key@ =~= overlapped(gck@, cck@));
    let e: [u8; 16] = enc_cbc(expand_80_to_128_alt(&plaintext), key);
    let mgck: [u8; 10] = [e[3], e[4], e[5], e[6], e[7], e[8], e[9], e[10], e[11], e[12]];
    assert(mgck@ =~= e@.subrange(3, 13));
    mgck
}

/// The exclusive or of two byte strings.
pub open spec fn xored(a: Seq<u8>, b: Seq<u8>) -> Seq<u8> {
    Seq::new(a.len(), |i: int| a[i] ^ b[i])
}

/// Two 80-bit keys as one 128-bit key, the four bytes that overlap added by
/// exclusive or.
pub open spec fn overlapped(a: Seq<u8>, b: Seq<u8>) -> Seq<u8> {
    a.take(6) + xored(a.subrange(6, 10), b.take(4)) + b.skip(4)
}

/// TA81: seal a GCK and its two-octet GCK number.
pub fn ta81<F: Fn([u8; 16], [u8; 16]) -> [u8; 16]>(
    enc_cbc: F,
    unsealed_gck: &[u8; 10],
    version: &[u8; 2],
    gck_number: &[u8; 2],
    key: &[u8; 16],
) -> (sealed: [u8; 15])
    requires
        forall|block: [u8; 16], k: [u8; 16]| call_requires(enc_cbc, (block, k)),
    ensures
        is_sealed(
            enc_cbc,
            versioned(key@, version@),
            expanded_gck(unsealed_gck@, gck_number@),
            sealed@,
        ),
{
    let block: [u8; 16] = expand_gck(unsealed_gck, gck_number);
    let encrypted: [u8; 16] = enc_cbc(block, adjusted_key_128(key, version));
    steal(&encrypted)
}

/// The group key, its number and whether a check byte is wrong in a decrypted
/// GCK.
pub open spec fn is_unsealed_gck(d: Seq<u8>, result: ([u8; 10], [u8; 2], bool)) -> bool {
    &&& result.0@ == shrunk_gck(d)
    &&& result.1@ == d.subrange(12, 14)
    &&& result.2 == !checked_gck(d)
}

/// The group key, its number and whether a check byte is wrong in a decrypted
/// GCK.
pub fn unsealed_gck(d: &[u8; 15]) -> (result: ([u8; 10], [u8; 2], bool))
    ensures
        is_unsealed_gck(d@, result),
{
    let gck: [u8; 10] = [d[0], d[1], d[2], d[3], d[5], d[6], d[7], d[8], d[10], d[11]];
    let number: [u8; 2] = [d[12], d[13]];
    let malformed: bool = d[14] != d[10] ^ d[11] ^ d[12] ^ d[13] || d[9] != d[5] ^ d[6] ^ d[7]
        ^ d[8] || d[4] != d[0] ^ d[1] ^ d[2] ^ d[3];
    assert(gck@ =~= shrunk_gck(d@));
    assert(number@ =~= d@.subrange(12, 14));
    (gck, number, malformed)
}

/// TA82: unseal a GCK. The returned key number is valid only when `malformed` is false.
pub fn ta82<F: Fn([u8; 15], [u8; 16]) -> [u8; 15]>(
    dec_cts: F,
    sealed_gck: &[u8; 15],
    version: &[u8; 2],
    key: &[u8; 16],
) -> (result: ([u8; 10], [u8; 2], bool))
    requires
        forall|block: [u8; 15], k: [u8; 16]| call_requires(dec_cts, (block, k)),
    ensures
        exists|form: Seq<u8>| #[trigger]
            is_opened(dec_cts, versioned(key@, version@), *sealed_gck, form) && is_unsealed_gck(
                form,
                result,
            ),
{
    let ghost f = dec_cts;
    let decrypted: [u8; 15] = dec_cts(*sealed_gck, adjusted_key_128(key, version));
    assert(is_opened(f, versioned(key@, version@), *sealed_gck, decrypted@));
    unsealed_gck(&decrypted)
}

/// TA91: seal the 12-octet GSKO form.
pub fn ta91<F: Fn([u8; 16], [u8; 16]) -> [u8; 16]>(
    enc_cbc: F,
    unsealed_gsko: &[u8; 12],
    version: &[u8; 2],
    key: &[u8; 16],
) -> (sealed: [u8; 15])
    requires
        forall|block: [u8; 16], k: [u8; 16]| call_requires(enc_cbc, (block, k)),
    ensures
        is_sealed(
            enc_cbc,
            versioned(key@, version@),
            expanded_gck(unsealed_gsko@.take(10), unsealed_gsko@.skip(10)),
            sealed@,
        ),
{
    let u = unsealed_gsko;
    let gck: [u8; 10] = [u[0], u[1], u[2], u[3], u[4], u[5], u[6], u[7], u[8], u[9]];
    let number: [u8; 2] = [u[10], u[11]];
    assert(gck@ =~= unsealed_gsko@.take(10));
    assert(number@ =~= unsealed_gsko@.skip(10));
    ta81(enc_cbc, &gck, version, &number, key)
}

/// The key with its number, and whether a check byte is wrong, in a decrypted
/// GSKO.
pub open spec fn is_unsealed_gsko(d: Seq<u8>, result: ([u8; 12], bool)) -> bool {
    &&& result.0@ == shrunk_gck(d) + d.subrange(12, 14)
    &&& result.1 == !checked_gck(d)
}

/// TA92: unseal the 12-octet GSKO form.
pub fn ta92<F: Fn([u8; 15], [u8; 16]) -> [u8; 15]>(
    dec_cts: F,
    sealed_gsko: &[u8; 15],
    version: &[u8; 2],
    key: &[u8; 16],
) -> (result: ([u8; 12], bool))
    requires
        forall|block: [u8; 15], k: [u8; 16]| call_requires(dec_cts, (block, k)),
    ensures
        exists|form: Seq<u8>| #[trigger]
            is_opened(dec_cts, versioned(key@, version@), *sealed_gsko, form) && is_unsealed_gsko(
                form,
                result,
            ),
{
    let (g, n, malformed) = ta82(dec_cts, sealed_gsko, version, key);
    let gsko: [u8; 12] = [
        g[0],
        g[1],
        g[2],
        g[3],
        g[4],
        g[5],
        g[6],
        g[7],
        g[8],
        g[9],
        n[0],
        n[1],
    ];
    assert(gsko@ =~= g@ + n@);
    (gsko, malformed)
}

/// A sealed CCK is unsealed again: TA32 undoes TA31 where opening undoes sealing.
pub proof fn law_sealed_cck_is_unsealed<
    F: Fn([u8; 16], [u8; 16]) -> [u8; 16],
    G: Fn([u8; 15], [u8; 16]) -> [u8; 15],
>(
    enc_cbc: F,
    dec_cts: G,
    cck: [u8; 10],
    cck_id: [u8; 2],
    dck: [u8; 10],
    sealed: [u8; 15],
    form: Seq<u8>,
    result: SealResult10,
)
    requires
        opens_what_is_sealed(enc_cbc, dec_cts),
        is_sealed(
            enc_cbc,
            expanded_80_to_128(versioned(dck@, cck_id@)),
            expanded_80_to_120_alt(cck@),
            sealed@,
        ),
        is_opened(dec_cts, expanded_80_to_128(versioned(dck@, cck_id@)), sealed, form),
        is_unsealed_cck(form, result),
    ensures
        result.key == cck,
        !result.malformed,
{
    lemma_opened_form(
        enc_cbc,
        dec_cts,
        expanded_80_to_128(versioned(dck@, cck_id@)),
        expanded_80_to_120_alt(cck@),
        sealed,
        form,
    );
    let none = Seq::new(11, |i: int| 0u8);
    law_sealed_forms_are_read_back(cck@, none, cck@, cck_id@);
    assert(result.key =~= cck);
}

/// A sealed key is unsealed again with its number: TA52 undoes TA51 where opening
/// undoes sealing.
pub proof fn law_sealed_key_is_unsealed<
    F: Fn([u8; 16], [u8; 16]) -> [u8; 16],
    G: Fn([u8; 15], [u8; 16]) -> [u8; 15],
>(
    enc_cbc: F,
    dec_cts: G,
    unsealed: [u8; 10],
    key_number: u8,
    version: [u8; 2],
    key: [u8; 16],
    sealed: [u8; 15],
    form: Seq<u8>,
    result: KeyUnsealResult,
)
    requires
        opens_what_is_sealed(enc_cbc, dec_cts),
        key_number <= 31,
        is_sealed(
            enc_cbc,
            versioned(key@, version@),
            expanded_88_to_120(unsealed@.push(key_number)),
            sealed@,
        ),
        is_opened(dec_cts, versioned(key@, version@), sealed, form),
        is_unsealed_key(form, result),
    ensures
        result.key == unsealed,
        result.key_number == key_number,
        !result.malformed,
{
    let numbered = unsealed@.push(key_number);
    lemma_opened_form(
        enc_cbc,
        dec_cts,
        versioned(key@, version@),
        expanded_88_to_120(numbered),
        sealed,
        form,
    );
    law_sealed_forms_are_read_back(unsealed@, numbered, unsealed@, version@);
    assert(result.key@ =~= unsealed@);
    assert(result.key =~= unsealed);
}

/// A number that does not fit its five bits is never taken for a good one.
pub proof fn law_large_key_number_is_malformed(form: Seq<u8>, result: KeyUnsealResult)
    requires
        is_unsealed_key(form, result),
        result.key_number > 31,
    ensures
        result.malformed,
{
}

/// A sealed GCK is unsealed again with its number: TA82 undoes TA81 where opening
/// undoes sealing.
pub proof fn law_sealed_gck_is_unsealed<
    F: Fn([u8; 16], [u8; 16]) -> [u8; 16],
    G: Fn([u8; 15], [u8; 16]) -> [u8; 15],
>(
    enc_cbc: F,
    dec_cts: G,
    gck: [u8; 10],
    number: [u8; 2],
    version: [u8; 2],
    key: [u8; 16],
    sealed: [u8; 15],
    form: Seq<u8>,
    result: ([u8; 10], [u8; 2], bool),
)
    requires
        opens_what_is_sealed(enc_cbc, dec_cts),
        is_sealed(enc_cbc, versioned(key@, version@), expanded_gck(gck@, number@), sealed@),
        is_opened(dec_cts, versioned(key@, version@), sealed, form),
        is_unsealed_gck(form, result),
    ensures
        result.0 == gck,
        result.1 == number,
        !result.2,
{
    lemma_opened_form(
        enc_cbc,
        dec_cts,
        versioned(key@, version@),
        expanded_gck(gck@, number@),
        sealed,
        form,
    );
    let none = Seq::new(11, |i: int| 0u8);
    law_sealed_forms_are_read_back(gck@, none, gck@, number@);
    assert(result.0 =~= gck);
    assert(result.1 =~= number);
}

proof fn lemma_checked_gck_form(form: Seq<u8>, gck: Seq<u8>, number: Seq<u8>)
    requires
        form.len() == 15,
        checked_gck(form),
        gck == shrunk_gck(form),
        number == form.subrange(12, 14),
    ensures
        expanded_gck(gck, number) == form,
{
    assert(number[0] == form[12] && number[1] == form[13]);
    assert(expanded_gck(gck, number) =~= form);
}

/// A GCK that is unsealed as a good one is sealed to the same bytes again: TA81
/// undoes TA82 where sealing undoes opening.
pub proof fn law_unsealed_gck_is_sealed<
    F: Fn([u8; 16], [u8; 16]) -> [u8; 16],
    G: Fn([u8; 15], [u8; 16]) -> [u8; 15],
>(
    enc_cbc: F,
    dec_cts: G,
    version: [u8; 2],
    key: [u8; 16],
    sealed: [u8; 15],
    form: Seq<u8>,
    result: ([u8; 10], [u8; 2], bool),
    again: Seq<u8>,
)
    requires
        seals_what_is_opened(enc_cbc, dec_cts),
        is_opened(dec_cts, versioned(key@, version@), sealed, form),
        is_unsealed_gck(form, result),
        !result.2,
        is_sealed(
            enc_cbc,
            versioned(key@, version@),
            expanded_gck(result.0@, result.1@),
            again,
        ),
    ensures
        again == sealed@,
{
    let (k, decrypted) = choose|k: [u8; 16], decrypted: [u8; 15]|
        k@ == versioned(key@, version@) && #[trigger] call_ensures(
            dec_cts,
            (sealed, k),
            decrypted,
        ) && form == decrypted@;
    lemma_checked_gck_form(form, result.0@, result.1@);
    let (block, other, encrypted) = choose|block: [u8; 16], other: [u8; 16], encrypted: [u8; 16]|
        block@ == form.push(0u8) && other@ == versioned(key@, version@)
            && #[trigger] call_ensures(enc_cbc, (block, other), encrypted) && again == stolen(
            encrypted@,
        );
    assert(k =~= other);
}

/// A sealed GSKO is unsealed again: TA92 undoes TA91 where opening undoes sealing.
pub proof fn law_sealed_gsko_is_unsealed<
    F: Fn([u8; 16], [u8; 16]) -> [u8; 16],
    G: Fn([u8; 15], [u8; 16]) -> [u8; 15],
>(
    enc_cbc: F,
    dec_cts: G,
    gsko: [u8; 12],
    version: [u8; 2],
    key: [u8; 16],
    sealed: [u8; 15],
    form: Seq<u8>,
    result: ([u8; 12], bool),
)
    requires
        opens_what_is_sealed(enc_cbc, dec_cts),
        is_sealed(
            enc_cbc,
            versioned(key@, version@),
            expanded_gck(gsko@.take(10), gsko@.skip(10)),
            sealed@,
        ),
        is_opened(dec_cts, versioned(key@, version@), sealed, form),
        is_unsealed_gsko(form, result),
    ensures
        result.0 == gsko,
        !result.1,
{
    let gck = gsko@.take(10);
    let number = gsko@.skip(10);
    lemma_opened_form(
        enc_cbc,
        dec_cts,
        versioned(key@, version@),
        expanded_gck(gck, number),
        sealed,
        form,
    );
    let none = Seq::new(11, |i: int| 0u8);
    law_sealed_forms_are_read_back(gck, none, gck, number);
    assert(gck + number =~= gsko@);
    assert(result.0 =~= gsko);
}

/// What TA92 gives is the key and then the number that TA82 gives for the same
/// form, and both find the same fault.
pub proof fn law_gsko_is_gck_and_number(
    form: Seq<u8>,
    gsko: ([u8; 12], bool),
    gck: ([u8; 10], [u8; 2], bool),
)
    requires
        is_unsealed_gsko(form, gsko),
        is_unsealed_gck(form, gck),
    ensures
        gsko.0@ == gck.0@ + gck.1@,
        gsko.1 == gck.2,
{
}

// ---------------------------------------------------------------------------
// Cell keys
// ---------------------------------------------------------------------------

/// TB4: XOR two DCKs.
pub fn tb4(first: &[u8; 10], second: &[u8; 10]) -> (out: [u8; 10])
    ensures
        out@ == xored(first@, second@),
{
    let out: [u8; 10] = [
        first[0] ^ second[0],
        first[1] ^ second[1],
        first[2] ^ second[2],
        first[3] ^ second[3],
        first[4] ^ second[4],
        first[5] ^ second[5],
        first[6] ^ second[6],
        first[7] ^ second[7],
        first[8] ^ second[8],
        first[9] ^ second[9],
    ];
    assert(out@ =~= xored(first@, second@));
    out
}

/// An 80-bit mask in bytes, from its top 16 bits and two words.
pub open spec fn mask_bytes(top: u32, middle: u32, low: u32) -> Seq<u8> {
    seq![
        (top >> 8) as u8,
        top as u8,
        (middle >> 24) as u8,
        (middle >> 16) as u8,
        (middle >> 8) as u8,
        middle as u8,
        (low >> 24) as u8,
        (low >> 16) as u8,
        (low >> 8) as u8,
        low as u8,
    ]
}

/// The mask of a cell: location area, carrier number and colour code, and the
/// last two again and again.
pub open spec fn cell_mask(carrier_number: u16, location_area: u16, colour_code: u8) -> Seq<u8> {
    let cn = carrier_number as u32;
    let la = location_area as u32;
    let cc = colour_code as u32;
    mask_bytes(
        (la << 2) | (cn >> 10),
        (cn << 22) | (cc << 16) | (cn << 4) | (cc >> 2),
        (cc << 30) | (cn << 18) | (cc << 12) | cn,
    )
}

/// The mask of a carrier and an identity.
pub open spec fn identity_mask(carrier_number: u16, ssi: Seq<u8>) -> Seq<u8> {
    let cn = carrier_number as u32;
    let id = ((ssi[0] as u32) << 16) | ((ssi[1] as u32) << 8) | (ssi[2] as u32);
    mask_bytes((cn << 4) | (id >> 20), (id << 12) | cn, (id << 8) | (id & 0xff))
}

/// A key under an 80-bit mask.
fn masked(key: &[u8; 10], top: u32, middle: u32, low: u32) -> (out: [u8; 10])
    ensures
        out@ == xored(key@, mask_bytes(top, middle, low)),
{
    let mask: [u8; 10] = [
        #[verifier::truncate] ((top >> 8) as u8),
        #[verifier::truncate] (top as u8),
        #[verifier::truncate] ((middle >> 24) as u8),
        #[verifier::truncate] ((middle >> 16) as u8),
        #[verifier::truncate] ((middle >> 8) as u8),
        #[verifier::truncate] (middle as u8),
        #[verifier::truncate] ((low >> 24) as u8),
        #[verifier::truncate] ((low >> 16) as u8),
        #[verifier::truncate] ((low >> 8) as u8),
        #[verifier::truncate] (low as u8),
    ];
    assert(mask@ =~= mask_bytes(top, middle, low));
    tb4(key, &mask)
}

/// TB5: derive an ECK from a CK, carrier number, location area and colour code.
pub fn tb5(carrier_number: u16, location_area: u16, colour_code: u8, ck: &[u8; 10]) -> (eck: Result<
    [u8; 10],
    InputError,
>)
    ensures
        match eck {
            Ok(bytes) => carrier_number <= 0x0fff && location_area <= 0x3fff && colour_code <= 0x3f
                && bytes@ == xored(ck@, cell_mask(carrier_number, location_area, colour_code)),
            Err(InputError::CarrierNumberOutOfRange) => carrier_number > 0x0fff,
            Err(InputError::LocationAreaOutOfRange) => carrier_number <= 0x0fff && location_area
                > 0x3fff,
            Err(InputError::ColourCodeOutOfRange) => carrier_number <= 0x0fff && location_area
                <= 0x3fff && colour_code > 0x3f,
            Err(InputError::KeyNumberOutOfRange) => false,
        },
{
    if carrier_number > 0x0fff {
        return Err(InputError::CarrierNumberOutOfRange);
    }
    if location_area > 0x3fff {
        return Err(InputError::LocationAreaOutOfRange);
    }
    if colour_code > 0x3f {
        return Err(InputError::ColourCodeOutOfRange);
    }
    let cn: u32 = carrier_number as u32;
    let la: u32 = location_area as u32;
    let cc: u32 = colour_code as u32;
    Ok(
        masked(
            ck,
            (la << 2) | (cn >> 10),
            (cn << 22) | (cc << 16) | (cn << 4) | (cc >> 2),
            (cc << 30) | (cn << 18) | (cc << 12) | cn,
        ),
    )
}

/// TB6: derive an ECK from an SCK, carrier number and 24-bit SSI.
pub fn tb6(sck: &[u8; 10], carrier_number: u16, ssi: &[u8; 3]) -> (eck: Result<
    [u8; 10],
    InputError,
>)
    ensures
        match eck {
            Ok(bytes) => carrier_number <= 0x0fff && bytes@ == xored(
                sck@,
                identity_mask(carrier_number, ssi@),
            ),
            Err(error) => carrier_number > 0x0fff && error == InputError::CarrierNumberOutOfRange,
        },
{
    if carrier_number > 0x0fff {
        return Err(InputError::CarrierNumberOutOfRange);
    }
    let cn: u32 = carrier_number as u32;
    let id: u32 = ((ssi[0] as u32) << 16) | ((ssi[1] as u32) << 8) | (ssi[2] as u32);
    Ok(masked(sck, (cn << 4) | (id >> 20), (id << 12) | cn, (id << 8) | (id & 0xff)))
}

/// A mask laid over a key twice leaves it as it was, so that a cell key gives
/// the key back that it was derived from.
pub proof fn law_mask_is_undone(key: Seq<u8>, mask: Seq<u8>)
    ensures
        xored(xored(key, mask), mask) == key,
{
    assert forall|i: int| 0 <= i < key.len() implies #[trigger] xored(xored(key, mask), mask)[i]
        == key[i] by {
        let a = key[i];
        let b = mask[i];
        assert((a ^ b) ^ b == a) by (bit_vector);
    }
    assert(xored(xored(key, mask), mask) =~= key);
}

/// TB7: expand the 12-octet GSKO to the 16-octet EGSKO: four groups of three
/// bytes, each before its exclusive or.
pub fn tb7(gsko: &[u8; 12]) -> (out: [u8; 16])
    ensures
        forall|i: int|
            0 <= i < 16 ==> #[trigger] out@[i] == if i % 4 == 3 {
                gsko@[i / 4 * 3] ^ gsko@[i / 4 * 3 + 1] ^ gsko@[i / 4 * 3 + 2]
            } else {
                gsko@[i / 4 * 3 + i % 4]
            },
{
    let g = gsko;
    [
        g[0],
        g[1],
        g[2],
        g[0] ^ g[1] ^ g[2],
        g[3],
        g[4],
        g[5],
        g[3] ^ g[4] ^ g[5],
        g[6],
        g[7],
        g[8],
        g[6] ^ g[7] ^ g[8],
        g[9],
        g[10],
        g[11],
        g[9] ^ g[10] ^ g[11],
    ]
}

// ---------------------------------------------------------------------------
// Identities
// ---------------------------------------------------------------------------

/// How many of the flags are set.
spec fn set_count(flags: Seq<bool>) -> nat
    decreases flags.len(),
{
    if flags.len() == 0 {
        0
    } else {
        set_count(flags.drop_last()) + if flags.last() {
            1nat
        } else {
            0
        }
    }
}

proof fn lemma_nothing_set(flags: Seq<bool>)
    requires
        forall|i: int| 0 <= i < flags.len() ==> !#[trigger] flags[i],
    ensures
        set_count(flags) == 0,
    decreases flags.len(),
{
    if flags.len() > 0 {
        lemma_nothing_set(flags.drop_last());
    }
}

proof fn lemma_one_more_set(flags: Seq<bool>, index: int)
    requires
        0 <= index < flags.len(),
        !flags[index],
    ensures
        set_count(flags.update(index, true)) == set_count(flags) + 1,
    decreases flags.len(),
{
    let after = flags.update(index, true);
    if index == flags.len() - 1 {
        assert(after.drop_last() =~= flags.drop_last());
    } else {
        assert(after.drop_last() =~= flags.drop_last().update(index, true));
        lemma_one_more_set(flags.drop_last(), index);
    }
}

proof fn lemma_everything_set(flags: Seq<bool>)
    requires
        set_count(flags) >= flags.len(),
    ensures
        set_count(flags) == flags.len(),
        forall|i: int| 0 <= i < flags.len() ==> #[trigger] flags[i],
    decreases flags.len(),
{
    if flags.len() > 0 {
        lemma_count_at_most(flags.drop_last());
        lemma_everything_set(flags.drop_last());
        assert forall|i: int| 0 <= i < flags.len() implies #[trigger] flags[i] by {
            if i < flags.len() - 1 {
                assert(flags.drop_last()[i]);
            }
        }
    }
}

proof fn lemma_count_at_most(flags: Seq<bool>)
    ensures
        set_count(flags) <= flags.len(),
    decreases flags.len(),
{
    if flags.len() > 0 {
        lemma_count_at_most(flags.drop_last());
    }
}

/// The substitution box of the identity encryption, with its inverse.
pub struct IdentityBox {
    forward: [u8; 256],
    inverse: [u8; 256],
}

impl IdentityBox {
    /// The inverse undoes the substitution, and the substitution the inverse.
    pub closed spec fn wf(&self) -> bool {
        &&& forall|x: u8| self.inverse@[#[trigger] self.forward@[x as int] as int] == x
        &&& forall|y: u8| self.forward@[#[trigger] self.inverse@[y as int] as int] == y
    }

    /// The substitution of a byte.
    pub closed spec fn substituted(&self, x: u8) -> u8 {
        self.forward@[x as int]
    }

    /// What the inverse makes of a byte.
    pub closed spec fn restored(&self, x: u8) -> u8 {
        self.inverse@[x as int]
    }

    /// The box with these values, if no value stands twice.
    pub fn new(forward: [u8; 256]) -> (made: Option<IdentityBox>)
        ensures
            match made {
                Some(b) => b.wf() && forall|x: u8| #[trigger]
                    b.substituted(x) == forward@[x as int],
                None => exists|i: int, j: int|
                    0 <= i < j < 256 && #[trigger] forward@[i] == #[trigger] forward@[j],
            },
    {
        let mut inverse: [u8; 256] = [0; 256];
        let mut used: [bool; 256] = [false; 256];
        let mut i: usize = 0;
        proof {
            lemma_nothing_set(used@);
        }
        while i < 256
            invariant
                i <= 256,
                forall|j: int| 0 <= j < i ==> used@[#[trigger] forward@[j] as int],
                forall|j: int| 0 <= j < i ==> inverse@[#[trigger] forward@[j] as int] == j,
                forall|v: int|
                    0 <= v < 256 && #[trigger] used@[v] ==> exists|j: int|
                        0 <= j < i && #[trigger] forward@[j] == v,
                set_count(used@) == i,
            decreases 256 - i,
        {
            let value: usize = forward[i] as usize;
            if used[value] {
                let ghost j = choose|j: int| 0 <= j < i && #[trigger] forward@[j] == value;
                assert(forward@[j] == forward@[i as int]);
                return None;
            }
            let ghost used_before = used@;
            used[value] = true;
            inverse[value] = i as u8;
            proof {
                assert(used@ =~= used_before.update(value as int, true));
                lemma_one_more_set(used_before, value as int);
                assert forall|j: int| 0 <= j < i + 1 implies inverse@[#[trigger] forward@[j] as int]
                    == j by {
                    if j < i {
                        assert(used_before[forward@[j] as int]);
                    }
                }
                assert forall|v: int| 0 <= v < 256 && #[trigger] used@[v] implies exists|j: int|
                    0 <= j < i + 1 && #[trigger] forward@[j] == v by {
                    if v == value {
                        assert(forward@[i as int] == v);
                    } else {
                        assert(used_before[v]);
                        let j = choose|j: int| 0 <= j < i && #[trigger] forward@[j] == v;
                        assert(forward@[j] == v);
                    }
                }
            }
            i = i + 1;
        }
        let made = IdentityBox { forward, inverse };
        assert forall|x: u8| made.inverse@[#[trigger] made.forward@[x as int] as int] == x by {
            assert(inverse@[forward@[x as int] as int] == x as int);
        }
        proof {
            lemma_everything_set(used@);
        }
        assert forall|y: u8| made.forward@[#[trigger] made.inverse@[y as int] as int] == y by {
            assert(used@[y as int]);
            let j = choose|j: int| 0 <= j < 256 && #[trigger] forward@[j] == y;
            assert(inverse@[forward@[j] as int] == j);
        }
        Some(made)
    }

    fn substitute(&self, x: u8) -> (r: u8)
        ensures
            r == self.substituted(x),
    {
        self.forward[x as usize]
    }

    fn restore(&self, x: u8) -> (r: u8)
        ensures
            r == self.restored(x),
    {
        self.inverse[x as usize]
    }
}

/// Three bytes mixed: twice the sum of two less the third, modulo 256.
pub open spec fn blended(a: (u8, u8, u8)) -> (u8, u8, u8) {
    (
        ((2 * (a.1 + a.0) - a.2) % 256) as u8,
        ((2 * (a.2 + a.0) - a.1) % 256) as u8,
        ((2 * (a.2 + a.1) - a.0) % 256) as u8,
    )
}

/// The three bytes that were mixed.
pub open spec fn unblended(a: (u8, u8, u8)) -> (u8, u8, u8) {
    (
        ((114 * a.0 + 114 * a.1 - 57 * a.2) % 256) as u8,
        ((114 * a.0 - 57 * a.1 + 114 * a.2) % 256) as u8,
        ((114 * a.1 + 114 * a.2 - 57 * a.0) % 256) as u8,
    )
}

/// Mixing can be undone.
pub proof fn lemma_unblended(a: (u8, u8, u8))
    ensures
        unblended(blended(a)) == a,
{
    let x = 2 * (a.1 + a.0) - a.2;
    let y = 2 * (a.2 + a.0) - a.1;
    let z = 2 * (a.2 + a.1) - a.0;
    let b = blended(a);
    assert(b.0 == x % 256 && b.1 == y % 256 && b.2 == z % 256);
    assert(114 * x + 114 * y - 57 * z == 513 * a.0);
    assert(114 * x - 57 * y + 114 * z == 513 * a.1);
    assert(114 * y + 114 * z - 57 * x == 513 * a.2);
    let (kx, ky, kz) = (x / 256, y / 256, z / 256);
    lemma_fundamental_div_mod_converse(
        114 * b.0 + 114 * b.1 - 57 * b.2,
        256,
        2 * a.0 - 114 * kx - 114 * ky + 57 * kz,
        a.0 as int,
    );
    lemma_fundamental_div_mod_converse(
        114 * b.0 - 57 * b.1 + 114 * b.2,
        256,
        2 * a.1 - 114 * kx + 57 * ky - 114 * kz,
        a.1 as int,
    );
    lemma_fundamental_div_mod_converse(
        114 * b.1 + 114 * b.2 - 57 * b.0,
        256,
        2 * a.2 + 57 * kx - 114 * ky - 114 * kz,
        a.2 as int,
    );
}

/// One round of the identity encryption.
pub open spec fn transformed(b: &IdentityBox, a: (u8, u8, u8)) -> (u8, u8, u8) {
    let m = blended(a);
    (b.substituted(m.0), b.substituted(m.1), b.substituted(m.2))
}

/// One round undone.
pub open spec fn untransformed(b: &IdentityBox, a: (u8, u8, u8)) -> (u8, u8, u8) {
    unblended((b.restored(a.0), b.restored(a.1), b.restored(a.2)))
}

/// Three bytes with three others laid over them.
pub open spec fn over(a: (u8, u8, u8), x: u8, y: u8, z: u8) -> (u8, u8, u8) {
    (a.0 ^ x, a.1 ^ y, a.2 ^ z)
}

/// The encryption of an identity under the intermediate value `c`.
pub open spec fn identity_encrypted(b: &IdentityBox, c: Seq<u8>, id: (u8, u8, u8)) -> (
    u8,
    u8,
    u8,
) {
    over(
        transformed(b, over(transformed(b, over(id, c[0], c[3], c[6])), c[1], c[4], c[7])),
        c[2],
        c[5],
        c[0],
    )
}

/// The decryption of an identity under the intermediate value `c`.
pub open spec fn identity_decrypted(b: &IdentityBox, c: Seq<u8>, id: (u8, u8, u8)) -> (
    u8,
    u8,
    u8,
) {
    over(
        untransformed(b, over(untransformed(b, over(id, c[2], c[5], c[0])), c[1], c[4], c[7])),
        c[0],
        c[3],
        c[6],
    )
}

/// An encrypted identity can be decrypted.
pub proof fn law_identity_is_decrypted(b: &IdentityBox, c: Seq<u8>, id: (u8, u8, u8))
    requires
        b.wf(),
        c.len() == 8,
    ensures
        identity_decrypted(b, c, identity_encrypted(b, c, id)) == id,
{
    let first = over(id, c[0], c[3], c[6]);
    let second = over(transformed(b, first), c[1], c[4], c[7]);
    lemma_unblended(first);
    lemma_unblended(second);
    lemma_untransformed(b, first);
    lemma_untransformed(b, second);
    lemma_over_twice(transformed(b, second), c[2], c[5], c[0]);
    lemma_over_twice(transformed(b, first), c[1], c[4], c[7]);
    lemma_over_twice(id, c[0], c[3], c[6]);
}

/// A decrypted identity can be encrypted: under one intermediate value the
/// encryption is a permutation of the identities.
pub proof fn law_identity_is_encrypted(b: &IdentityBox, c: Seq<u8>, id: (u8, u8, u8))
    requires
        b.wf(),
        c.len() == 8,
    ensures
        identity_encrypted(b, c, identity_decrypted(b, c, id)) == id,
{
    let first = over(id, c[2], c[5], c[0]);
    let second = over(untransformed(b, first), c[1], c[4], c[7]);
    lemma_transformed(b, first);
    lemma_transformed(b, second);
    lemma_over_twice(untransformed(b, second), c[0], c[3], c[6]);
    lemma_over_twice(untransformed(b, first), c[1], c[4], c[7]);
    lemma_over_twice(id, c[2], c[5], c[0]);
}

/// Mixing undoes what undoes it.
pub proof fn lemma_blended(a: (u8, u8, u8))
    ensures
        blended(unblended(a)) == a,
{
    let x = 114 * a.0 + 114 * a.1 - 57 * a.2;
    let y = 114 * a.0 - 57 * a.1 + 114 * a.2;
    let z = 114 * a.1 + 114 * a.2 - 57 * a.0;
    let b = unblended(a);
    assert(b.0 == x % 256 && b.1 == y % 256 && b.2 == z % 256);
    assert(2 * (y + x) - z == 513 * a.0);
    assert(2 * (z + x) - y == 513 * a.1);
    assert(2 * (z + y) - x == 513 * a.2);
    let (kx, ky, kz) = (x / 256, y / 256, z / 256);
    lemma_fundamental_div_mod_converse(
        2 * (b.1 + b.0) - b.2,
        256,
        2 * a.0 - 2 * ky - 2 * kx + kz,
        a.0 as int,
    );
    lemma_fundamental_div_mod_converse(
        2 * (b.2 + b.0) - b.1,
        256,
        2 * a.1 - 2 * kz - 2 * kx + ky,
        a.1 as int,
    );
    lemma_fundamental_div_mod_converse(
        2 * (b.2 + b.1) - b.0,
        256,
        2 * a.2 - 2 * kz - 2 * ky + kx,
        a.2 as int,
    );
}

proof fn lemma_transformed(b: &IdentityBox, a: (u8, u8, u8))
    requires
        b.wf(),
    ensures
        transformed(b, untransformed(b, a)) == a,
{
    let m = (b.restored(a.0), b.restored(a.1), b.restored(a.2));
    lemma_blended(m);
    assert(b.substituted(b.restored(a.0)) == a.0);
    assert(b.substituted(b.restored(a.1)) == a.1);
    assert(b.substituted(b.restored(a.2)) == a.2);
}

proof fn lemma_untransformed(b: &IdentityBox, a: (u8, u8, u8))
    requires
        b.wf(),
    ensures
        untransformed(b, transformed(b, a)) == a,
{
    let m = blended(a);
    lemma_unblended(a);
    assert(b.restored(b.substituted(m.0)) == m.0);
    assert(b.restored(b.substituted(m.1)) == m.1);
    assert(b.restored(b.substituted(m.2)) == m.2);
}

proof fn lemma_over_twice(a: (u8, u8, u8), x: u8, y: u8, z: u8)
    ensures
        over(over(a, x, y, z), x, y, z) == a,
{
    let (p, q, r) = a;
    assert((p ^ x) ^ x == p && (q ^ y) ^ y == q && (r ^ z) ^ z == r) by (bit_vector);
}

fn identity_transform(b: &IdentityBox, a: (u8, u8, u8)) -> (r: (u8, u8, u8))
    ensures
        r == transformed(b, a),
{
    let (p, q, r) = (a.0 as u32, a.1 as u32, a.2 as u32);
    proof {
        lemma_mod_multiples_vanish(1, 2 * (q + p) - r, 256);
        lemma_mod_multiples_vanish(1, 2 * (r + p) - q, 256);
        lemma_mod_multiples_vanish(1, 2 * (r + q) - p, 256);
    }
    let x: u8 = ((2 * (q + p) + 256 - r) % 256) as u8;
    let y: u8 = ((2 * (r + p) + 256 - q) % 256) as u8;
    let z: u8 = ((2 * (r + q) + 256 - p) % 256) as u8;
    (b.substitute(x), b.substitute(y), b.substitute(z))
}

fn identity_transform_inverse(b: &IdentityBox, a: (u8, u8, u8)) -> (r: (u8, u8, u8))
    ensures
        r == untransformed(b, a),
{
    let x: u32 = b.restore(a.0) as u32;
    let y: u32 = b.restore(a.1) as u32;
    let z: u32 = b.restore(a.2) as u32;
    proof {
        lemma_mod_multiples_vanish(57, 114 * x + 114 * y - 57 * z, 256);
        lemma_mod_multiples_vanish(57, 114 * x - 57 * y + 114 * z, 256);
        lemma_mod_multiples_vanish(57, 114 * y + 114 * z - 57 * x, 256);
    }
    (
        ((114 * x + 114 * y + 57 * 256 - 57 * z) % 256) as u8,
        ((114 * x + 57 * 256 - 57 * y + 114 * z) % 256) as u8,
        ((114 * y + 114 * z + 57 * 256 - 57 * x) % 256) as u8,
    )
}

/// The block from which the intermediate value of the identity encryption is
/// made.
pub open spec fn identity_block(key: Seq<u8>) -> Seq<u8> {
    Seq::new(8, |i: int| key[i] ^ key[i + 2])
}

/// The intermediate value of the identity encryption.
fn ta61_compute_c<F: Fn([u8; 16], [u8; 8]) -> [u8; 8]>(hurdle: F, key: &[u8; 10]) -> (c: [u8; 8])
    requires
        forall|k: [u8; 16], block: [u8; 8]| call_requires(hurdle, (k, block)),
    ensures
        exists|k: [u8; 16], block: [u8; 8]|
            k@ == expanded_80_to_128(key@) && block@ == identity_block(key@)
                && #[trigger] call_ensures(hurdle, (k, block), c),
{
    let block: [u8; 8] = [
        key[0] ^ key[2],
        key[1] ^ key[3],
        key[2] ^ key[4],
        key[3] ^ key[5],
        key[4] ^ key[6],
        key[5] ^ key[7],
        key[6] ^ key[8],
        key[7] ^ key[9],
    ];
    assert(block@ =~= identity_block(key@));
    hurdle(expand_80_to_128(key), block)
}

/// The encryption of an identity under the intermediate value `c`.
pub fn ta61_inner(b: &IdentityBox, c: &[u8; 8], identity: &[u8; 3]) -> (encrypted: [u8; 3])
    ensures
        (encrypted@[0], encrypted@[1], encrypted@[2]) == identity_encrypted(
            b,
            c@,
            (identity@[0], identity@[1], identity@[2]),
        ),
{
    let first = identity_transform(
        b,
        (identity[0] ^ c[0], identity[1] ^ c[3], identity[2] ^ c[6]),
    );
    let second = identity_transform(b, (first.0 ^ c[1], first.1 ^ c[4], first.2 ^ c[7]));
    [second.0 ^ c[2], second.1 ^ c[5], second.2 ^ c[0]]
}

/// The decryption of an identity under the intermediate value `c`.
pub fn ta61_inner_inverse(b: &IdentityBox, c: &[u8; 8], identity: &[u8; 3]) -> (decrypted: [u8; 3])
    ensures
        (decrypted@[0], decrypted@[1], decrypted@[2]) == identity_decrypted(
            b,
            c@,
            (identity@[0], identity@[1], identity@[2]),
        ),
{
    let first = identity_transform_inverse(
        b,
        (identity[0] ^ c[2], identity[1] ^ c[5], identity[2] ^ c[0]),
    );
    let second = identity_transform_inverse(b, (first.0 ^ c[1], first.1 ^ c[4], first.2 ^ c[7]));
    [second.0 ^ c[0], second.1 ^ c[3], second.2 ^ c[6]]
}

/// Whether `c` is the intermediate value that `hurdle` makes of a key.
pub open spec fn is_intermediate<F: Fn([u8; 16], [u8; 8]) -> [u8; 8]>(
    hurdle: F,
    key: Seq<u8>,
    c: [u8; 8],
) -> bool {
    exists|k: [u8; 16], block: [u8; 8]|
        k@ == expanded_80_to_128(key) && block@ == identity_block(key) && #[trigger] call_ensures(
            hurdle,
            (k, block),
            c,
        )
}

/// Whether a block function answers alike whenever it is asked the same.
pub open spec fn hurdle_answers_alike<F: Fn([u8; 16], [u8; 8]) -> [u8; 8]>(hurdle: F) -> bool {
    forall|key: [u8; 16], block: [u8; 8], first: [u8; 8], second: [u8; 8]| #[trigger]
        call_ensures(hurdle, (key, block), first) && #[trigger] call_ensures(
            hurdle,
            (key, block),
            second,
        ) ==> first == second
}

/// With a block function that answers alike a key has one intermediate value.
pub proof fn law_key_has_one_intermediate<F: Fn([u8; 16], [u8; 8]) -> [u8; 8]>(
    hurdle: F,
    key: Seq<u8>,
    first: [u8; 8],
    second: [u8; 8],
)
    requires
        hurdle_answers_alike(hurdle),
        is_intermediate(hurdle, key, first),
        is_intermediate(hurdle, key, second),
    ensures
        first == second,
{
    let (k, block) = choose|k: [u8; 16], block: [u8; 8]|
        k@ == expanded_80_to_128(key) && block@ == identity_block(key) && #[trigger] call_ensures(
            hurdle,
            (k, block),
            first,
        );
    let (other, again) = choose|other: [u8; 16], again: [u8; 8]|
        other@ == expanded_80_to_128(key) && again@ == identity_block(key)
            && #[trigger] call_ensures(hurdle, (other, again), second);
    assert(k =~= other);
    assert(block =~= again);
}

/// The three bytes of an identity.
pub open spec fn triple(id: Seq<u8>) -> (u8, u8, u8) {
    (id[0], id[1], id[2])
}

/// Whether TA61 may give this encryption of an identity.
pub open spec fn is_identity_encrypted<F: Fn([u8; 16], [u8; 8]) -> [u8; 8]>(
    b: &IdentityBox,
    hurdle: F,
    key: Seq<u8>,
    identity: (u8, u8, u8),
    encrypted: (u8, u8, u8),
) -> bool {
    exists|c: [u8; 8]| #[trigger]
        is_intermediate(hurdle, key, c) && encrypted == identity_encrypted(b, c@, identity)
}

/// Whether the inverse of TA61 may give this decryption of an identity.
pub open spec fn is_identity_decrypted<F: Fn([u8; 16], [u8; 8]) -> [u8; 8]>(
    b: &IdentityBox,
    hurdle: F,
    key: Seq<u8>,
    encrypted: (u8, u8, u8),
    identity: (u8, u8, u8),
) -> bool {
    exists|c: [u8; 8]| #[trigger]
        is_intermediate(hurdle, key, c) && identity == identity_decrypted(b, c@, encrypted)
}

/// TA61 and its inverse undo each other: what one call encrypts another
/// decrypts, and what one call decrypts another encrypts.
pub proof fn law_ta61_is_a_permutation<F: Fn([u8; 16], [u8; 8]) -> [u8; 8]>(
    b: &IdentityBox,
    hurdle: F,
    key: Seq<u8>,
    first: (u8, u8, u8),
    second: (u8, u8, u8),
    third: (u8, u8, u8),
)
    requires
        b.wf(),
        hurdle_answers_alike(hurdle),
    ensures
        is_identity_encrypted(b, hurdle, key, first, second) && is_identity_decrypted(
            b,
            hurdle,
            key,
            second,
            third,
        ) ==> third == first,
        is_identity_decrypted(b, hurdle, key, first, second) && is_identity_encrypted(
            b,
            hurdle,
            key,
            second,
            third,
        ) ==> third == first,
{
    if is_identity_encrypted(b, hurdle, key, first, second) && is_identity_decrypted(
        b,
        hurdle,
        key,
        second,
        third,
    ) {
        let c = choose|c: [u8; 8]| #[trigger]
            is_intermediate(hurdle, key, c) && second == identity_encrypted(b, c@, first);
        let d = choose|d: [u8; 8]| #[trigger]
            is_intermediate(hurdle, key, d) && third == identity_decrypted(b, d@, second);
        law_key_has_one_intermediate(hurdle, key, c, d);
        law_identity_is_decrypted(b, c@, first);
    }
    if is_identity_decrypted(b, hurdle, key, first, second) && is_identity_encrypted(
        b,
        hurdle,
        key,
        second,
        third,
    ) {
        let c = choose|c: [u8; 8]| #[trigger]
            is_intermediate(hurdle, key, c) && second == identity_decrypted(b, c@, first);
        let d = choose|d: [u8; 8]| #[trigger]
            is_intermediate(hurdle, key, d) && third == identity_encrypted(b, d@, second);
        law_key_has_one_intermediate(hurdle, key, c, d);
        law_identity_is_encrypted(b, c@, first);
    }
}

/// TA61: encrypt a three-octet SSI segment.
pub fn ta61<F: Fn([u8; 16], [u8; 8]) -> [u8; 8]>(
    b: &IdentityBox,
    hurdle: F,
    key: &[u8; 10],
    identity: &[u8; 3],
) -> (encrypted: [u8; 3])
    requires
        forall|k: [u8; 16], block: [u8; 8]| call_requires(hurdle, (k, block)),
    ensures
        is_identity_encrypted(b, hurdle, key@, triple(identity@), triple(encrypted@)),
{
    let ghost f = hurdle;
    let c: [u8; 8] = ta61_compute_c(hurdle, key);
    assert(is_intermediate(f, key@, c));
    ta61_inner(b, &c, identity)
}

/// Inverse TA61 operation.
pub fn ta61_inverse<F: Fn([u8; 16], [u8; 8]) -> [u8; 8]>(
    b: &IdentityBox,
    hurdle: F,
    key: &[u8; 10],
    encrypted_identity: &[u8; 3],
) -> (identity: [u8; 3])
    requires
        forall|k: [u8; 16], block: [u8; 8]| call_requires(hurdle, (k, block)),
    ensures
        is_identity_decrypted(b, hurdle, key@, triple(encrypted_identity@), triple(identity@)),
{
    let ghost f = hurdle;
    let c: [u8; 8] = ta61_compute_c(hurdle, key);
    assert(is_intermediate(f, key@, c));
    ta61_inner_inverse(b, &c, encrypted_identity)
}

} // verus!
