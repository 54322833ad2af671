use vstd::prelude::*;

use crate::bytes::{append_bytes, copy_range};
use crate::hexcodec::{hex_bytes, hex_decode, hex_valid};

verus! {

/// One ERC20 token: its display symbol and its 20-byte contract address.
#[derive(Debug)]
pub struct Coin {
    pub symbol: Vec<u8>,
    pub address: Vec<u8>,
}

impl Coin {
    /// A plausible token: its address has the on-chain width.
    pub open spec fn wf(self) -> bool {
        self.address@.len() == 20
    }
}

/// A trading pair: the base token (spent on a buy) first, the other token
/// second.
#[derive(Debug)]
pub struct Pair(pub Coin, pub Coin);

/// `USDC` in ASCII.
pub open spec fn usdc_symbol() -> Seq<u8> {
    seq![85u8, 83u8, 68u8, 67u8]
}

/// `WETH` in ASCII.
pub open spec fn weth_symbol() -> Seq<u8> {
    seq![87u8, 69u8, 84u8, 72u8]
}

/// The byte separating the two symbols in a pair's name: `_`.
pub const PAIR_SEPARATOR: u8 = 95;

/// The USDC token contract on Arbitrum One.
pub open spec fn usdc_address_arbitrum() -> Seq<u8> {
    seq![
        0xafu8, 0x88u8, 0xd0u8, 0x65u8, 0xe7u8, 0x7cu8, 0x8cu8, 0xc2u8, 0x23u8, 0x93u8, 0x27u8,
        0xc5u8, 0xedu8, 0xb3u8, 0xa4u8, 0x32u8, 0x26u8, 0x8eu8, 0x58u8, 0x31u8,
    ]
}

/// The WETH token contract on Arbitrum One.
pub open spec fn weth_address_arbitrum() -> Seq<u8> {
    seq![
        0x82u8, 0xafu8, 0x49u8, 0x44u8, 0x7du8, 0x8au8, 0x07u8, 0xe3u8, 0xbdu8, 0x95u8, 0xbdu8,
        0x0du8, 0x56u8, 0xf3u8, 0x52u8, 0x41u8, 0x52u8, 0x3fu8, 0xbau8, 0xb1u8,
    ]
}

/// The zero address, standing in for a chain the catalog does not know.
pub open spec fn zero_address() -> Seq<u8> {
    Seq::new(20, |i: int| 0u8)
}

impl Pair {
    /// A plausible pair: both tokens are.
    pub open spec fn wf(self) -> bool {
        self.0.wf() && self.1.wf()
    }

    /// The USDC/WETH pair. The token addresses are the Arbitrum One
    /// deployments when that chain is selected, and the zero address for a
    /// chain the catalog does not know.
    pub fn usdc_weth(chain: Option<u64>) -> (r: Pair)
        ensures
            r.wf(),
            r.0.symbol@ == usdc_symbol(),
            r.1.symbol@ == weth_symbol(),
            chain == Some(0xa4b1u64) ==> r.0.address@ == usdc_address_arbitrum() && r.1.address@
                == weth_address_arbitrum(),
            chain != Some(0xa4b1u64) ==> r.0.address@ == zero_address() && r.1.address@
                == zero_address(),
    {
        let arbitrum = match chain {
            Some(id) => id == 0xa4b1,
            None => false,
        };
        let usdc_address: Vec<u8> = if arbitrum {
            vec![
                0xafu8, 0x88, 0xd0, 0x65, 0xe7, 0x7c, 0x8c, 0xc2, 0x23, 0x93, 0x27, 0xc5, 0xed,
                0xb3, 0xa4, 0x32, 0x26, 0x8e, 0x58, 0x31,
            ]
        } else {
            vec![
                0u8, 0, 0, 0, 0, 0, 0, 0, 0, 0, 0, 0, 0, 0, 0, 0, 0, 0, 0, 0,
            ]
        };
        let weth_address: Vec<u8> = if arbitrum {
            vec![
                0x82u8, 0xaf, 0x49, 0x44, 0x7d, 0x8a, 0x07, 0xe3, 0xbd, 0x95, 0xbd, 0x0d, 0x56,
                0xf3, 0x52, 0x41, 0x52, 0x3f, 0xba, 0xb1,
            ]
        } else {
            vec![
                0u8, 0, 0, 0, 0, 0, 0, 0, 0, 0, 0, 0, 0, 0, 0, 0, 0, 0, 0, 0,
            ]
        };
        let usdc_symbol_v: Vec<u8> = vec![85u8, 83, 68, 67];
        let weth_symbol_v: Vec<u8> = vec![87u8, 69, 84, 72];
        proof {
            assert(usdc_symbol_v@ =~= usdc_symbol());
            assert(weth_symbol_v@ =~= weth_symbol());
            if arbitrum {
                assert(usdc_address@ =~= usdc_address_arbitrum());
                assert(weth_address@ =~= weth_address_arbitrum());
            } else {
                assert(usdc_address@ =~= zero_address());
                assert(weth_address@ =~= zero_address());
            }
        }
        Pair(
            Coin { symbol: usdc_symbol_v, address: usdc_address },
            Coin { symbol: weth_symbol_v, address: weth_address },
        )
    }

    /// The pair's name as the signal service writes it: the two symbols
    /// joined by an underscore.
    pub fn name(&self) -> (r: Vec<u8>)
        ensures
            r@ == self.0.symbol@ + seq![PAIR_SEPARATOR] + self.1.symbol@,
    {
        let mut r = copy_range(&self.0.symbol, 0, self.0.symbol.len());
        r.push(PAIR_SEPARATOR);
        append_bytes(&mut r, &self.1.symbol);
        proof {
            assert(r@ =~= self.0.symbol@ + seq![PAIR_SEPARATOR] + self.1.symbol@);
        }
        r
    }
}

/// The hexadecimal digits of an address blob, once an optional `0x` prefix
/// is stripped.
pub open spec fn address_hex_digits(s: Seq<u8>) -> Seq<u8> {
    if s.len() >= 2 && s[0] == 48 && s[1] == 120 {
        s.skip(2)
    } else {
        s
    }
}

/// A well-written 20-byte address: 40 hexadecimal digits, with or without
/// the `0x` prefix.
pub open spec fn address_well_formed(s: Seq<u8>) -> bool {
    &&& hex_valid(address_hex_digits(s))
    &&& hex_bytes(address_hex_digits(s)).len() == 20
}

/// Parses a 20-byte on-chain address from hexadecimal text, rejecting
/// exactly the malformed ones.
pub fn parse_address(s: &Vec<u8>) -> (r: Option<Vec<u8>>)
    ensures
        r is Some <==> address_well_formed(s@),
        r matches Some(a) ==> a@ == hex_bytes(address_hex_digits(s@)),
{
    let digits: Vec<u8> = if s.len() >= 2 && s[0] == 48 && s[1] == 120 {
        let d = copy_range(s, 2, s.len());
        proof {
            assert(d@ =~= address_hex_digits(s@));
        }
        d
    } else {
        copy_range(s, 0, s.len())
    };
    proof {
        assert(digits@ =~= address_hex_digits(s@));
    }
    let decoded = match hex_decode(&digits) {
        Some(decoded) => decoded,
        None => {
            return None;
        },
    };
    if decoded.len() != 20 {
        return None;
    }
    Some(decoded)
}

} // verus!
