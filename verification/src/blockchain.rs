pub mod account;
pub mod providers;
pub mod sidecar;
pub mod u256;

use vstd::prelude::*;

use crate::TradeSignal;
use crate::blockchain::account::{
    Account, Locked, Unlocked, aes256_cbc_encrypt, credential_ciphertext, credential_iv,
    credential_well_formed, wallet_key,
};
use crate::blockchain::sidecar::{DIRECTIVE_SEPARATOR, ROUTE_ERROR_STATUS, directive_well_formed};
use crate::blockchain::u256::{U256, hex_number_value, p256};
use crate::bytes::{after_sep, before_sep, bytes_eq};
use crate::coin::{Pair, address_hex_digits, address_well_formed};
use crate::hexcodec::hex_bytes;
use vstd::pervasive::unreached;

verus! {

/// `mainnet` in ASCII.
pub open spec fn mainnet_chain_name() -> Seq<u8> {
    seq![109u8, 97u8, 105u8, 110u8, 110u8, 101u8, 116u8]
}

/// `goerli` in ASCII.
pub open spec fn goerli_chain_name() -> Seq<u8> {
    seq![103u8, 111u8, 101u8, 114u8, 108u8, 105u8]
}

/// `arbitrum` in ASCII.
pub open spec fn arbitrum_chain_name() -> Seq<u8> {
    seq![97u8, 114u8, 98u8, 105u8, 116u8, 114u8, 117u8, 109u8]
}

/// The chain catalog: the numeric chain id of each known chain name.
pub open spec fn spec_chain_name_to_id(name: Seq<u8>) -> Option<u64> {
    if name == mainnet_chain_name() {
        Some(0x1u64)
    } else if name == goerli_chain_name() {
        Some(0x5u64)
    } else if name == arbitrum_chain_name() {
        Some(0xa4b1u64)
    } else {
        None
    }
}

/// The name of the chain this deployment runs on: `arbitrum`.
pub fn current_chain_name() -> (r: Vec<u8>)
    ensures
        r@ == arbitrum_chain_name(),
{
    let r: Vec<u8> = vec![97u8, 114, 98, 105, 116, 114, 117, 109];
    proof {
        assert(r@ =~= arbitrum_chain_name());
    }
    r
}

/// Looks a chain name up in the chain catalog.
pub fn chain_name_to_id(name: &Vec<u8>) -> (r: Option<u64>)
    ensures
        r == spec_chain_name_to_id(name@),
{
    let mainnet: Vec<u8> = vec![109u8, 97, 105, 110, 110, 101, 116];
    let goerli: Vec<u8> = vec![103u8, 111, 101, 114, 108, 105];
    let arbitrum: Vec<u8> = vec![97u8, 114, 98, 105, 116, 114, 117, 109];
    proof {
        assert(mainnet@ =~= mainnet_chain_name());
        assert(goerli@ =~= goerli_chain_name());
        assert(arbitrum@ =~= arbitrum_chain_name());
    }
    if bytes_eq(name, &mainnet) {
        Some(0x1)
    } else if bytes_eq(name, &goerli) {
        Some(0x5)
    } else if bytes_eq(name, &arbitrum) {
        Some(0xa4b1)
    } else {
        None
    }
}

/// Chain identifier of the deployment's current chain, from the chain
/// catalog.
pub fn chain_id() -> (r: u64)
    ensures
        r == 0xa4b1u64,
{
    let name = current_chain_name();
    proof {
        assert(arbitrum_chain_name().len() == 8);
        assert(mainnet_chain_name().len() == 7);
        assert(goerli_chain_name().len() == 6);
    }
    match chain_name_to_id(&name) {
        Some(id) => id,
        None => unreached(),
    }
}

/// How one account's trade can fail. Each failure is scoped to the one
/// account it arose for; none aborts a batch.
#[derive(Clone, Copy, Debug, PartialEq, Eq, Structural)]
pub enum TradeError {
    /// A required configuration value was absent or malformed at startup.
    ConfigurationMissing,
    /// An account record could not be read from the store's cursor.
    AccountDeserializeFailure,
    /// The signal service could not be queried or its answer not parsed.
    SignalServiceFailure,
    /// The account's algorithm id has no name in the algorithm catalog.
    AlgorithmLookupMiss,
    /// The signal service returned no signal for the algorithm's name.
    SignalLookupMiss,
    /// The algorithm's signal was `NoAction`: an expected rejection, not a
    /// true error.
    NoActionSignal,
    /// The account's credential could not be decrypted.
    DecryptionFailure,
    /// Handing the instruction to the settlement channel failed.
    ChannelWriteFailure,
    /// The settlement directive coming back could not be decoded.
    DirectiveDecodeFailure,
}

/// The resolved intent for one account and pair: how much to trade, in
/// which direction, on which pair. Never built from a `NoAction` signal.
#[derive(Debug)]
pub struct TransactionInfo {
    /// Amount in base-token units: spent exactly on a buy, received
    /// exactly on a sell.
    pub amount: u64,
    /// The direction of the trade.
    pub action: TradeSignal,
    /// The pair traded, base token first.
    pub pair: Pair,
}

impl TransactionInfo {
    /// A well-formed instruction: an actionable direction and a plausible
    /// pair.
    pub open spec fn wf(self) -> bool {
        self.action != TradeSignal::NoAction && self.pair.wf()
    }
}

/// An ERC20 approval to submit before a dependent swap: grant `spender`
/// an `amount` allowance on `token`.
#[derive(Debug)]
pub struct ApprovalRequest {
    pub token: Vec<u8>,
    pub spender: Vec<u8>,
    pub amount: U256,
}

/// A provider-native transaction request: destination contract, sender,
/// call payload, and native-token value.
#[derive(Debug)]
pub struct TransactionRequestData {
    pub to: Vec<u8>,
    pub from: Vec<u8>,
    pub data: Vec<u8>,
    pub value: U256,
}

/// Everything one submission needs, in order: first the approval when one
/// is owed, then the swap request, signed by the unlocked account for the
/// given chain.
pub struct SubmitPlan {
    pub approval: Option<ApprovalRequest>,
    pub request: TransactionRequestData,
    pub chain_id: u64,
    pub signer: Account<Unlocked>,
}

/// Capability of an exchange integration: sanity-check an instruction,
/// compute the submission plan of one instruction, and construct the
/// venue from the deployment's configuration.
pub trait TradeProvider: Sized {
    /// The venue's router/settlement contract address.
    spec fn spec_router(&self) -> Seq<u8>;

    /// The chain the venue signs for.
    spec fn spec_chain_id(&self) -> u64;

    /// The remaining-allowance level below which approval must be renewed.
    spec fn spec_allowance_threshold(&self) -> int;

    /// Venue-specific checks of an instruction before submission. The
    /// baseline venue implements no checks yet, so a venue may not reject
    /// here.
    fn verify(&self, transaction: &TransactionInfo) -> (r: Result<(), TradeError>)
        ensures
            r is Ok,
    ;

    /// Computes the submission plan for one instruction: rejects a failed
    /// settlement-channel answer, decodes its directive, unlocks the
    /// account, and prepends an approval exactly when the allowance is
    /// below the venue's threshold. Each failure is the exact variant of
    /// its pipeline stage; whenever the credential's ciphertext is a true
    /// encryption under the wallet secret, the plan is owed, carrying
    /// exactly that plaintext as its signer's secret.
    fn transact(
        &self,
        transaction: &TransactionInfo,
        account: &Account<Locked>,
        key_hex: &Vec<u8>,
        route_status: u16,
        route_body: &Vec<u8>,
        allowance: &U256,
    ) -> (r: Result<SubmitPlan, TradeError>)
        requires
            transaction.wf(),
        ensures
            route_status >= ROUTE_ERROR_STATUS ==> (r matches Err(e) && e
                == TradeError::ChannelWriteFailure),
            route_status < ROUTE_ERROR_STATUS && !directive_well_formed(route_body@) ==> (r
                matches Err(e) && e == TradeError::DirectiveDecodeFailure),
            route_status < ROUTE_ERROR_STATUS && directive_well_formed(route_body@)
                && !credential_well_formed(account.spec_credential(), key_hex@) ==> (r matches Err(
                e,
            ) && e == TradeError::DecryptionFailure),
            r matches Err(e) ==> (e == TradeError::ChannelWriteFailure <==> route_status
                >= ROUTE_ERROR_STATUS),
            r matches Err(e) && e == TradeError::DirectiveDecodeFailure ==> route_status
                < ROUTE_ERROR_STATUS && !directive_well_formed(route_body@),
            r matches Err(e) && e == TradeError::DecryptionFailure ==> route_status
                < ROUTE_ERROR_STATUS && directive_well_formed(route_body@),
            r matches Err(e) ==> (e == TradeError::ChannelWriteFailure || e
                == TradeError::DirectiveDecodeFailure || e == TradeError::DecryptionFailure),
            r matches Ok(plan) ==> {
                &&& route_status < ROUTE_ERROR_STATUS
                &&& directive_well_formed(route_body@)
                &&& credential_well_formed(account.spec_credential(), key_hex@)
                &&& plan.chain_id == self.spec_chain_id()
                &&& plan.request.to@ == self.spec_router()
                &&& plan.request.from@ == account.spec_address()
                &&& plan.request.data@ == hex_bytes(before_sep(route_body@, DIRECTIVE_SEPARATOR))
                &&& plan.request.value.value() == hex_number_value(
                    after_sep(route_body@, DIRECTIVE_SEPARATOR),
                )
                &&& (plan.approval is Some <==> allowance.value()
                    < self.spec_allowance_threshold())
                &&& (plan.approval matches Some(a) ==> {
                    &&& a.spender@ == self.spec_router()
                    &&& a.amount.value() == p256() - 1
                    &&& (transaction.action == TradeSignal::Buy ==> a.token@
                        == transaction.pair.0.address@)
                    &&& (transaction.action == TradeSignal::Sell ==> a.token@
                        == transaction.pair.1.address@)
                })
                &&& plan.signer.spec_address() == account.spec_address()
            },
            forall|pt: Seq<u8>| (route_status < ROUTE_ERROR_STATUS && directive_well_formed(route_body@) && credential_well_formed(account.spec_credential(), key_hex@) && credential_ciphertext(account.spec_credential()) == aes256_cbc_encrypt(wallet_key(key_hex@), credential_iv(account.spec_credential()), pt)) ==> (r matches Ok(plan) && plan.signer.spec_credential() == pt),
    ;

    /// Builds the venue from the deployment's router address and chain id,
    /// rejecting exactly a malformed router address.
    fn new(router_address: &Vec<u8>, chain: u64) -> (r: Result<Self, TradeError>)
        ensures
            r is Ok <==> address_well_formed(router_address@),
            r matches Ok(p) ==> p.spec_router() == hex_bytes(address_hex_digits(router_address@))
                && p.spec_chain_id() == chain,
            r matches Err(e) ==> e == TradeError::ConfigurationMissing,
    ;
}

} // verus!
