use transactions::blockchain::TradeProvider;
use transactions::blockchain::providers::uniswap::UniswapProvider;
use transactions::blockchain::u256::{U256, approval_threshold, u256_from_hex};

fn venue() -> UniswapProvider {
    let router = b"0xE592427A0AEce92De3Edee1F18E0157C05861564".to_vec();
    UniswapProvider::new(&router, 0xa4b1).expect("well-formed router address")
}

// (2^256 - 1) / 1_000_000_000, little-endian limbs.
fn threshold() -> U256 {
    U256 {
        l0: 0x08d5_d64f_9c39_4ae9,
        l1: 0xc4a9_8187_eebb_22f0,
        l2: 0xb5a5_2cb9_8b40_5447,
        l3: 0x0000_0004_4b82_fa09,
    }
}

#[test]
fn the_threshold_is_one_billionth_of_the_maximum() {
    assert_eq!(approval_threshold(), threshold());
}

#[test]
fn allowance_at_the_threshold_needs_no_approval() {
    // The boundary is inclusive-false: renewal only strictly below.
    assert!(!venue().need_approval(&threshold()));
}

#[test]
fn allowance_just_below_the_threshold_needs_approval() {
    let mut just_below = threshold();
    just_below.l0 -= 1;
    assert!(venue().need_approval(&just_below));
}

#[test]
fn allowance_just_above_the_threshold_needs_no_approval() {
    let mut just_above = threshold();
    just_above.l0 += 1;
    assert!(!venue().need_approval(&just_above));
}

#[test]
fn exhausted_and_full_allowances() {
    assert!(venue().need_approval(&U256::zero()));
    assert!(!venue().need_approval(&U256::max()));
}

#[test]
fn comparison_is_numeric_across_limbs() {
    let small_high_limb = U256 { l0: u64::MAX, l1: u64::MAX, l2: u64::MAX, l3: 0 };
    let large_low_limb = U256 { l0: 0, l1: 0, l2: 0, l3: 1 };
    assert!(small_high_limb.lt(&large_low_limb));
    assert!(!large_low_limb.lt(&small_high_limb));
    assert!(!large_low_limb.lt(&large_low_limb));
}

#[test]
fn hex_values_parse_numerically() {
    assert_eq!(u256_from_hex(&b"0".to_vec()), Some(U256::zero()));
    assert_eq!(u256_from_hex(&b"ff".to_vec()), Some(U256::from_u64(255)));
    assert_eq!(u256_from_hex(&b"FF".to_vec()), Some(U256::from_u64(255)));
    assert_eq!(u256_from_hex(&b"deadbeef".to_vec()), Some(U256::from_u64(0xdead_beef)));
    assert_eq!(
        u256_from_hex(&b"10000000000000000".to_vec()),
        Some(U256 { l0: 0, l1: 1, l2: 0, l3: 0 })
    );
    // 64 digits: exactly the maximum.
    let max_hex: Vec<u8> = std::iter::repeat(b'f').take(64).collect();
    assert_eq!(u256_from_hex(&max_hex), Some(U256::max()));
}

#[test]
fn malformed_hex_values_are_rejected() {
    assert_eq!(u256_from_hex(&b"".to_vec()), None);
    assert_eq!(u256_from_hex(&b"0x12".to_vec()), None);
    assert_eq!(u256_from_hex(&b"12g4".to_vec()), None);
    // 65 digits with a leading 1: past the width.
    let mut too_wide = vec![b'1'];
    too_wide.extend(std::iter::repeat(b'0').take(64));
    assert_eq!(u256_from_hex(&too_wide), None);
    // Leading zeros keep a wide string in range.
    let mut padded = vec![b'0'; 64];
    padded.push(b'7');
    assert_eq!(u256_from_hex(&padded), Some(U256::from_u64(7)));
}
