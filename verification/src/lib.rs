pub mod blockchain;
pub mod bytes;
pub mod coin;
pub mod hexcodec;
pub mod transactions;

use vstd::prelude::*;

use crate::bytes::{append_bytes, copy_range, dec_digits, format_u64};

verus! {

/// A per-pair trading recommendation produced by the external algorithm
/// service. `NoAction` is a terminal rejection cause: it must never reach
/// trade-instruction construction.
#[derive(Clone, Copy, Debug, PartialEq, Eq, Structural)]
pub enum TradeSignal {
    Buy,
    Sell,
    NoAction,
}

/// One signal-service answer: the algorithm's name, its recommendation,
/// and the trade amount in base-token units.
#[derive(Debug)]
pub struct AlgorithmSignal {
    pub algorithm: Vec<u8>,
    pub signal: TradeSignal,
    pub amount: u64,
}

/// The pause between batch passes: five minutes, in milliseconds.
pub const TRANSACTION_INTERVAL_MS: u64 = 5 * 60 * 1_000;

/// The signal interval the service is queried at, in minutes.
pub const SIGNAL_INTERVAL_MINUTES: u64 = 5;

/// `/signals?pair=` in ASCII.
pub open spec fn signals_path_prefix() -> Seq<u8> {
    seq![
        47u8, 115u8, 105u8, 103u8, 110u8, 97u8, 108u8, 115u8, 63u8, 112u8, 97u8, 105u8, 114u8,
        61u8,
    ]
}

/// `&interval=` in ASCII.
pub open spec fn interval_param() -> Seq<u8> {
    seq![38u8, 105u8, 110u8, 116u8, 101u8, 114u8, 118u8, 97u8, 108u8, 61u8]
}

/// The signal-service query for one pair and interval:
/// `{server}/signals?pair={pair}&interval={minutes}`.
pub fn signals_url(server: &Vec<u8>, pair_name: &Vec<u8>, interval_minutes: u64) -> (r: Vec<u8>)
    ensures
        r@ == server@ + signals_path_prefix() + pair_name@ + interval_param() + dec_digits(
            interval_minutes as nat,
        ),
{
    let mut r = copy_range(server, 0, server.len());
    let path: Vec<u8> = vec![47u8, 115, 105, 103, 110, 97, 108, 115, 63, 112, 97, 105, 114, 61];
    proof {
        assert(path@ =~= signals_path_prefix());
    }
    append_bytes(&mut r, &path);
    append_bytes(&mut r, pair_name);
    let param: Vec<u8> = vec![38u8, 105, 110, 116, 101, 114, 118, 97, 108, 61];
    proof {
        assert(param@ =~= interval_param());
    }
    append_bytes(&mut r, &param);
    let digits = format_u64(interval_minutes);
    append_bytes(&mut r, &digits);
    r
}

} // verus!
