use rfc003_swap::btsieve::block_is_after;
use rfc003_swap::ids::{ParseError, SwapId, TradeId};
use rfc003_swap::secret::{Secret, SecretHash};
use rfc003_swap::seed::{Seed, SwapSeed};

const HASH_OF_ELEVENS: [u8; 32] = [
    2, 212, 73, 163, 31, 187, 38, 124, 143, 53, 46, 153, 104, 167, 158, 62, 95, 201, 92, 27, 190,
    170, 80, 47, 214, 69, 78, 189, 229, 164, 190, 220,
];

#[test]
fn block_at_the_margin_is_not_after() {
    assert!(!block_is_after(100, 1000));
    assert!(!block_is_after(0, 900));
}

#[test]
fn block_one_second_inside_the_margin_is_after() {
    assert!(block_is_after(101, 1000));
    assert!(block_is_after(1, 900));
}

#[test]
fn block_later_than_the_instant_is_after() {
    assert!(block_is_after(2000, 1000));
}

#[test]
fn block_is_after_does_not_overflow_at_the_ends() {
    assert!(block_is_after(i64::MIN, i64::MIN));
    assert!(block_is_after(0, i64::MIN + 10));
    assert!(!block_is_after(i64::MIN, i64::MAX));
    assert!(block_is_after(i64::MAX, i64::MAX));
}

#[test]
fn secret_hashes_with_sha256() {
    let secret = Secret::from_bytes([0x11; 32]);
    assert_eq!(secret.hash(), SecretHash(HASH_OF_ELEVENS));
}

#[test]
fn different_secrets_hash_differently() {
    let first = Secret::from_bytes([0x11; 32]).hash();
    let second = Secret::from_bytes([0x22; 32]).hash();
    assert_ne!(first, second);
    assert_ne!(second, SecretHash([0x22; 32]));
}

#[test]
fn secret_opens_its_own_hash_only() {
    let secret = Secret::from_bytes([0x11; 32]);
    assert!(secret.opens(&SecretHash(HASH_OF_ELEVENS)));
    assert!(!secret.opens(&SecretHash([0u8; 32])));
    assert!(!Secret::from_bytes([0x22; 32]).opens(&SecretHash(HASH_OF_ELEVENS)));
}

#[test]
fn secret_from_slice_wants_32_bytes() {
    assert_eq!(Secret::from_slice(&[0x11; 32]), Some(Secret([0x11; 32])));
    assert_eq!(Secret::from_slice(&[0x11; 31]), None);
    assert_eq!(Secret::from_slice(&[0x11; 33]), None);
    assert_eq!(Secret::from_slice(&[]), None);
}

#[test]
fn secret_hash_same_compares_bytes() {
    let hash = SecretHash(HASH_OF_ELEVENS);
    let mut other = HASH_OF_ELEVENS;
    other[31] = 0;
    assert!(hash.same(&SecretHash(HASH_OF_ELEVENS)));
    assert!(!hash.same(&SecretHash(other)));
    assert_eq!(hash.as_raw(), &HASH_OF_ELEVENS);
}

#[test]
fn swap_seed_is_derived_from_seed_and_id() {
    let mut id = [0u8; 16];
    for (i, byte) in id.iter_mut().enumerate() {
        *byte = i as u8;
    }
    let swap_seed = Seed([7; 32]).derive_swap_seed(SwapId(id));
    assert_eq!(
        swap_seed,
        SwapSeed([
            113, 244, 26, 103, 11, 2, 224, 107, 142, 244, 45, 195, 87, 187, 120, 153, 97, 55, 103,
            143, 48, 78, 92, 238, 156, 101, 106, 182, 43, 185, 237, 129
        ])
    );
}

#[test]
fn different_swaps_get_different_seeds() {
    let seed = Seed([7; 32]);
    assert_ne!(seed.derive_swap_seed(SwapId([1; 16])), seed.derive_swap_seed(SwapId([2; 16])));
}

#[test]
fn secret_is_derived_from_swap_seed() {
    let secret = SwapSeed([7; 32]).derive_secret();
    assert_eq!(
        secret,
        Secret([
            97, 152, 199, 227, 70, 151, 134, 16, 106, 5, 80, 113, 115, 196, 19, 232, 243, 160, 22,
            112, 11, 176, 93, 139, 13, 163, 222, 179, 87, 142, 47, 59
        ])
    );
}

#[test]
fn identities_are_derived_from_swap_seed() {
    let seed = SwapSeed([7; 32]);
    assert_eq!(
        seed.derive_redeem_identity(),
        [
            75, 25, 142, 125, 248, 206, 105, 119, 117, 3, 47, 113, 203, 43, 128, 168, 173, 207,
            104, 98, 70, 85, 4, 74, 163, 104, 218, 192, 234, 78, 75, 47
        ]
    );
    assert_eq!(
        seed.derive_refund_identity(),
        [
            155, 166, 140, 161, 52, 177, 199, 144, 225, 107, 99, 47, 239, 41, 117, 43, 139, 199,
            6, 30, 146, 191, 254, 176, 179, 66, 73, 108, 26, 136, 64, 25
        ]
    );
}

#[test]
fn swap_id_reads_hyphenated_text() {
    let id = SwapId::from_str("00010203-0405-0607-0809-0a0b0c0d0e0f").unwrap();
    assert_eq!(id, SwapId([0, 1, 2, 3, 4, 5, 6, 7, 8, 9, 10, 11, 12, 13, 14, 15]));
}

#[test]
fn swap_id_reads_simple_text() {
    let id = SwapId::from_str("000102030405060708090a0b0c0d0e0f").unwrap();
    assert_eq!(id, SwapId([0, 1, 2, 3, 4, 5, 6, 7, 8, 9, 10, 11, 12, 13, 14, 15]));
}

#[test]
fn swap_id_prints_hyphenated() {
    let id = SwapId([0, 1, 2, 3, 4, 5, 6, 7, 8, 9, 10, 11, 12, 13, 14, 15]);
    assert_eq!(id.to_string(), "00010203-0405-0607-0809-0a0b0c0d0e0f");
}

#[test]
fn swap_id_refuses_other_text() {
    assert_eq!(SwapId::from_str("not a uuid"), Err(ParseError));
    assert_eq!(SwapId::from_str(""), Err(ParseError));
    assert_eq!(SwapId::from_str("00010203-0405-0607-0809-0a0b0c0d0e"), Err(ParseError));
}

#[test]
fn swap_id_same_compares_bytes() {
    assert!(SwapId([3; 16]).same(&SwapId([3; 16])));
    assert!(!SwapId([3; 16]).same(&SwapId([4; 16])));
}

#[test]
fn trade_id_round_trips_through_text() {
    let id = TradeId::from_bytes([0xab; 16]);
    let text = id.to_string();
    assert_eq!(text, "abababab-abab-abab-abab-abababababab");
    assert_eq!(TradeId::from_str(&text), Ok(id));
    assert_eq!(id.into_bytes(), [0xab; 16]);
}

#[test]
fn trade_id_refuses_other_text() {
    assert_eq!(TradeId::from_str("xyz"), Err(ParseError));
}

#[test]
fn default_trade_ids_differ() {
    assert_ne!(TradeId::default(), TradeId::default());
}
