use vstd::prelude::*;

use crate::TradeSignal;
use crate::blockchain::account::{Account, Locked};
use crate::blockchain::sidecar::{DIRECTIVE_SEPARATOR, ROUTE_ERROR_STATUS, directive_well_formed};
use crate::blockchain::u256::{
    U256, approval_threshold, approval_threshold_value, hex_number_value, p256, u256_from_hex,
};
use crate::blockchain::{
    ApprovalRequest, SubmitPlan, TradeError, TradeProvider, TransactionInfo,
    TransactionRequestData,
};
use crate::bytes::{after_sep, append_bytes, before_sep, copy_range, lemma_split_parts, split_once_byte};
use crate::coin::{Coin, parse_address};
use crate::hexcodec::{hex_bytes, hex_decode};
use vstd::arithmetic::mul::{lemma_mul_strictly_positive, lemma_mul_upper_bound};
use vstd::pervasive::unreached;

verus! {

/// How far in the future a trade's deadline lies: ten minutes.
pub const TRADE_DEADLINE_SECS: u64 = 600;

/// The venue's fee tier, in hundredths of a basis point: the 0.30% pool.
pub const UNISWAP_FEE_TIER: u32 = 3000;

/// The Uniswap integration: routes instructions through the settlement
/// sidecar and signs for the deployment's chain against its router
/// contract.
pub struct UniswapProvider {
    router: Vec<u8>,
    chain: u64,
}

/// One decoded settlement directive: the swap calldata and the
/// native-token value to send with it. Transient; consumed by execution.
#[derive(Debug)]
pub struct UniswapPoolEntry {
    pub calldata: Vec<u8>,
    pub value: U256,
}

/// Decodes one settlement directive line, rejecting exactly the malformed
/// ones. A decode failure is non-fatal to the reader loop: the caller
/// drops the line and reads on.
pub fn decode_route(line: &Vec<u8>) -> (r: Result<UniswapPoolEntry, TradeError>)
    ensures
        r is Ok <==> directive_well_formed(line@),
        r matches Ok(entry) ==> {
            &&& entry.calldata@ == hex_bytes(before_sep(line@, DIRECTIVE_SEPARATOR))
            &&& entry.value.value() == hex_number_value(after_sep(line@, DIRECTIVE_SEPARATOR))
        },
        r matches Err(e) ==> e == TradeError::DirectiveDecodeFailure,
{
    let parts = match split_once_byte(line, DIRECTIVE_SEPARATOR) {
        Some(parts) => parts,
        None => {
            return Err(TradeError::DirectiveDecodeFailure);
        },
    };
    proof {
        lemma_split_parts(line@, parts.0@, parts.1@, DIRECTIVE_SEPARATOR);
    }
    let calldata = match hex_decode(&parts.0) {
        Some(calldata) => calldata,
        None => {
            return Err(TradeError::DirectiveDecodeFailure);
        },
    };
    let value = match u256_from_hex(&parts.1) {
        Some(value) => value,
        None => {
            return Err(TradeError::DirectiveDecodeFailure);
        },
    };
    Ok(UniswapPoolEntry { calldata, value })
}

/// The token whose allowance the trade spends: the base token on a buy,
/// the other token on a sell. `NoAction` never reaches this dispatch.
pub fn approval_coin<'a>(transaction: &'a TransactionInfo) -> (r: &'a Coin)
    requires
        transaction.wf(),
    ensures
        transaction.action == TradeSignal::Buy ==> (r.symbol@ == transaction.pair.0.symbol@
            && r.address@ == transaction.pair.0.address@),
        transaction.action == TradeSignal::Sell ==> (r.symbol@ == transaction.pair.1.symbol@
            && r.address@ == transaction.pair.1.address@),
{
    match transaction.action {
        TradeSignal::Buy => &transaction.pair.0,
        TradeSignal::Sell => &transaction.pair.1,
        TradeSignal::NoAction => unreached(),
    }
}

/// The venue-native form of one instruction: exact-input on a buy,
/// exact-output on a sell.
#[derive(Clone, Copy, Debug, PartialEq, Eq, Structural)]
pub enum VenueTransaction {
    /// Swap base for other: spend exactly `spend`, receive at least
    /// `min_out`, by `deadline`.
    ExactInput { spend: u64, min_out: u128, fee_tier: u32, deadline: u64 },
    /// Swap other for base: receive exactly `receive`, spend at most
    /// `max_in`, by `deadline`.
    ExactOutput { receive: u64, max_in: u128, fee_tier: u32, deadline: u64 },
}

impl UniswapProvider {
    /// Whether the signer's remaining allowance for the router calls for
    /// renewal: true exactly below one billionth of the maximum.
    pub fn need_approval(&self, allowance: &U256) -> (r: bool)
        ensures
            r == (allowance.value() < approval_threshold_value()),
    {
        let threshold = approval_threshold();
        allowance.lt(&threshold)
    }

    /// The approval to submit before a dependent swap: grant the router
    /// the maximum allowance on the given token.
    pub fn approval_request(&self, coin: &Coin) -> (r: ApprovalRequest)
        ensures
            r.token@ == coin.address@,
            r.spender@ == self.spec_router(),
            r.amount.value() == p256() - 1,
    {
        ApprovalRequest {
            token: copy_range(&coin.address, 0, coin.address.len()),
            spender: copy_range(&self.router, 0, self.router.len()),
            amount: U256::max(),
        }
    }

    /// Resolves one instruction into its venue-native form: a buy spends
    /// exactly the instruction's amount with a minimum return of
    /// `amount * rate`; a sell receives exactly the amount with the same
    /// bound as a spending cap — so with a positive amount and a positive
    /// quoted rate the bound is never zero. The deadline lies ten minutes
    /// past `now_s`; `rate` is the quoted other-per-base rate in
    /// integer-scaled units.
    pub fn build_trade(&self, transaction: &TransactionInfo, rate: u64, now_s: u64) -> (r:
        VenueTransaction)
        requires
            transaction.wf(),
            now_s + TRADE_DEADLINE_SECS <= u64::MAX,
        ensures
            transaction.action == TradeSignal::Buy ==> r == (VenueTransaction::ExactInput {
                spend: transaction.amount,
                min_out: (transaction.amount * rate) as u128,
                fee_tier: UNISWAP_FEE_TIER,
                deadline: (now_s + TRADE_DEADLINE_SECS) as u64,
            }),
            transaction.action == TradeSignal::Sell ==> r == (VenueTransaction::ExactOutput {
                receive: transaction.amount,
                max_in: (transaction.amount * rate) as u128,
                fee_tier: UNISWAP_FEE_TIER,
                deadline: (now_s + TRADE_DEADLINE_SECS) as u64,
            }),
            transaction.amount >= 1 && rate >= 1 && transaction.action == TradeSignal::Buy ==> (r
                matches VenueTransaction::ExactInput { min_out, .. } && min_out >= 1),
            transaction.amount >= 1 && rate >= 1 && transaction.action == TradeSignal::Sell ==> (r
                matches VenueTransaction::ExactOutput { max_in, .. } && max_in >= 1),
    {
        proof {
            lemma_mul_upper_bound(
                transaction.amount as int,
                0xffff_ffff_ffff_ffffint,
                rate as int,
                0xffff_ffff_ffff_ffffint,
            );
            if transaction.amount >= 1 && rate >= 1 {
                lemma_mul_strictly_positive(transaction.amount as int, rate as int);
            }
        }
        let bound: u128 = (transaction.amount as u128) * (rate as u128);
        let deadline: u64 = now_s + TRADE_DEADLINE_SECS;
        match transaction.action {
            TradeSignal::Buy => VenueTransaction::ExactInput {
                spend: transaction.amount,
                min_out: bound,
                fee_tier: UNISWAP_FEE_TIER,
                deadline,
            },
            TradeSignal::Sell => VenueTransaction::ExactOutput {
                receive: transaction.amount,
                max_in: bound,
                fee_tier: UNISWAP_FEE_TIER,
                deadline,
            },
            TradeSignal::NoAction => unreached(),
        }
    }
}

impl TradeProvider for UniswapProvider {
    closed spec fn spec_router(&self) -> Seq<u8> {
        self.router@
    }

    closed spec fn spec_chain_id(&self) -> u64 {
        self.chain
    }

    closed spec fn spec_allowance_threshold(&self) -> int {
        approval_threshold_value()
    }

    fn verify(&self, transaction: &TransactionInfo) -> (r: Result<(), TradeError>) {
        Ok(())
    }

    /// The settlement pipeline of one instruction: reject a failed
    /// settlement-channel answer, decode its directive, unlock the
    /// account, and prepend an approval exactly when the signer's
    /// allowance is below the renewal threshold. The plan's swap request
    /// carries the directive's calldata and value to the router, from the
    /// account, signed for the venue's chain.
    fn transact(
        &self,
        transaction: &TransactionInfo,
        account: &Account<Locked>,
        key_hex: &Vec<u8>,
        route_status: u16,
        route_body: &Vec<u8>,
        allowance: &U256,
    ) -> (r: Result<SubmitPlan, TradeError>) {
        if route_status >= ROUTE_ERROR_STATUS {
            return Err(TradeError::ChannelWriteFailure);
        }
        let entry = match decode_route(route_body) {
            Ok(entry) => entry,
            Err(e) => {
                return Err(e);
            },
        };
        let request = TransactionRequestData {
            to: copy_range(&self.router, 0, self.router.len()),
            from: copy_range(account.address(), 0, account.address().len()),
            data: entry.calldata,
            value: entry.value,
        };
        let signer = match account.unlock(key_hex) {
            Ok(signer) => signer,
            Err(_) => {
                return Err(TradeError::DecryptionFailure);
            },
        };
        let coin = approval_coin(transaction);
        let approval = if self.need_approval(allowance) {
            Some(self.approval_request(coin))
        } else {
            None
        };
        Ok(SubmitPlan { approval, request, chain_id: self.chain, signer })
    }

    fn new(router_address: &Vec<u8>, chain: u64) -> (r: Result<Self, TradeError>) {
        match parse_address(router_address) {
            Some(router) => Ok(UniswapProvider { router, chain }),
            None => Err(TradeError::ConfigurationMissing),
        }
    }
}

/// `https://goerli.infura.io/v3/` in ASCII: the chain transport the
/// sidecar and the venue's provider connect through.
pub open spec fn transport_url_prefix() -> Seq<u8> {
    seq![
        104u8, 116u8, 116u8, 112u8, 115u8, 58u8, 47u8, 47u8, 103u8, 111u8, 101u8, 114u8, 108u8,
        105u8, 46u8, 105u8, 110u8, 102u8, 117u8, 114u8, 97u8, 46u8, 105u8, 111u8, 47u8, 118u8,
        51u8, 47u8,
    ]
}

/// The transport URL the deployment's node secret selects.
pub fn transport_url(infura_secret: &Vec<u8>) -> (r: Vec<u8>)
    ensures
        r@ == transport_url_prefix() + infura_secret@,
{
    let mut r: Vec<u8> = vec![
        104u8, 116, 116, 112, 115, 58, 47, 47, 103, 111, 101, 114, 108, 105, 46, 105, 110, 102,
        117, 114, 97, 46, 105, 111, 47, 118, 51, 47,
    ];
    proof {
        assert(r@ =~= transport_url_prefix());
    }
    append_bytes(&mut r, infura_secret);
    r
}

} // verus!
