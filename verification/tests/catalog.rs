use transactions::blockchain::{chain_id, chain_name_to_id, current_chain_name};
use transactions::bytes::{format_u64, split_once_byte};
use transactions::coin::{Pair, parse_address};
use transactions::hexcodec::{hex_decode, hex_encode};
use transactions::signals_url;

#[test]
fn the_deployment_chain_is_arbitrum() {
    assert_eq!(current_chain_name(), b"arbitrum".to_vec());
    assert_eq!(chain_id(), 0xa4b1);
}

#[test]
fn the_chain_catalog_knows_its_three_chains() {
    assert_eq!(chain_name_to_id(&b"mainnet".to_vec()), Some(0x1));
    assert_eq!(chain_name_to_id(&b"goerli".to_vec()), Some(0x5));
    assert_eq!(chain_name_to_id(&b"arbitrum".to_vec()), Some(0xa4b1));
    assert_eq!(chain_name_to_id(&b"optimism".to_vec()), None);
    assert_eq!(chain_name_to_id(&b"".to_vec()), None);
}

#[test]
fn the_signals_query_is_spelled_exactly() {
    let pair = Pair::usdc_weth(Some(0xa4b1));
    let url = signals_url(&b"http://signals.internal".to_vec(), &pair.name(), 5);
    assert_eq!(
        url,
        b"http://signals.internal/signals?pair=USDC_WETH&interval=5".to_vec()
    );
}

#[test]
fn the_pair_name_joins_the_symbols() {
    let pair = Pair::usdc_weth(None);
    assert_eq!(pair.name(), b"USDC_WETH".to_vec());
    assert_eq!(pair.0.address, vec![0u8; 20]);
    assert_eq!(pair.1.address, vec![0u8; 20]);
    let on_chain = Pair::usdc_weth(Some(0xa4b1));
    assert_eq!(on_chain.0.address.len(), 20);
    assert_eq!(&on_chain.0.address[..4], &[0xaf, 0x88, 0xd0, 0x65]);
    assert_eq!(&on_chain.1.address[..4], &[0x82, 0xaf, 0x49, 0x44]);
    let elsewhere = Pair::usdc_weth(Some(0x5));
    assert_eq!(elsewhere.0.address, vec![0u8; 20]);
}

#[test]
fn decimal_rendering_is_exact() {
    assert_eq!(format_u64(0), b"0".to_vec());
    assert_eq!(format_u64(7), b"7".to_vec());
    assert_eq!(format_u64(30_000), b"30000".to_vec());
    assert_eq!(format_u64(u64::MAX), b"18446744073709551615".to_vec());
}

#[test]
fn hex_codec_round_trips() {
    let bytes = vec![0x00u8, 0x0f, 0xf0, 0xff, 0x5a];
    let encoded = hex_encode(&bytes);
    assert_eq!(encoded, b"000ff0ff5a".to_vec());
    assert_eq!(hex_decode(&encoded), Some(bytes));
    assert_eq!(hex_decode(&b"ABCDEF".to_vec()), Some(vec![0xab, 0xcd, 0xef]));
    assert_eq!(hex_decode(&b"abc".to_vec()), None);
    assert_eq!(hex_decode(&b"zz".to_vec()), None);
    assert_eq!(hex_decode(&b"".to_vec()), Some(vec![]));
}

#[test]
fn addresses_parse_with_or_without_the_prefix() {
    let with_prefix = b"0xE592427A0AEce92De3Edee1F18E0157C05861564".to_vec();
    let without_prefix = b"E592427A0AEce92De3Edee1F18E0157C05861564".to_vec();
    let parsed = parse_address(&with_prefix).unwrap();
    assert_eq!(parsed.len(), 20);
    assert_eq!(parsed[0], 0xe5);
    assert_eq!(parse_address(&without_prefix), Some(parsed));
    assert_eq!(parse_address(&b"0x1234".to_vec()), None);
    assert_eq!(parse_address(&b"".to_vec()), None);
}

#[test]
fn splitting_requires_exactly_one_separator() {
    let split = split_once_byte(&b"left:right".to_vec(), b':').unwrap();
    assert_eq!(split.0, b"left".to_vec());
    assert_eq!(split.1, b"right".to_vec());
    assert!(split_once_byte(&b"nosep".to_vec(), b':').is_none());
    assert!(split_once_byte(&b"a:b:c".to_vec(), b':').is_none());
    let edge = split_once_byte(&b":".to_vec(), b':').unwrap();
    assert_eq!(edge.0, b"".to_vec());
    assert_eq!(edge.1, b"".to_vec());
}
