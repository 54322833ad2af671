use vstd::prelude::*;

use crate::blockchain::account::{Account, Locked};
use crate::blockchain::{TradeError, TransactionInfo, chain_id};
use crate::bytes::{bytes_eq, copy_range};
use crate::coin::{Pair, usdc_symbol, weth_symbol};
use crate::{AlgorithmSignal, TradeSignal};

verus! {

/// `running` in ASCII: the run-status of the accounts a batch works on.
pub open spec fn running_status() -> Seq<u8> {
    seq![114u8, 117u8, 110u8, 110u8, 105u8, 110u8, 103u8]
}

/// The filter a batch opens its account cursor with: only running
/// accounts, only those assigned to the requested venue.
#[derive(Debug)]
pub struct AccountQuery {
    pub status: Vec<u8>,
    pub provider: Vec<u8>,
}

/// Builds the account-cursor filter for one venue.
pub fn account_query(provider: &Vec<u8>) -> (r: AccountQuery)
    ensures
        r.status@ == running_status(),
        r.provider@ == provider@,
{
    let status: Vec<u8> = vec![114u8, 117, 110, 110, 105, 110, 103];
    proof {
        assert(status@ =~= running_status());
    }
    AccountQuery { status, provider: copy_range(provider, 0, provider.len()) }
}

/// One entry of the algorithm catalog: an algorithm's identifier and the
/// name the signal service knows it by.
#[derive(Debug)]
pub struct AlgorithmEntry {
    pub id: u64,
    pub name: Vec<u8>,
}

/// The name of the last catalog entry carrying `id`: a later entry
/// overrides an earlier one with the same id, as a keyed catalog load
/// leaves it.
pub open spec fn spec_find_algorithm_name(algorithms: Seq<AlgorithmEntry>, id: u64) -> Option<
    Seq<u8>,
>
    decreases algorithms.len(),
{
    if algorithms.len() == 0 {
        None
    } else if algorithms.last().id == id {
        Some(algorithms.last().name@)
    } else {
        spec_find_algorithm_name(algorithms.drop_last(), id)
    }
}

/// Maps an account's algorithm id to the name the signal service expects.
pub fn find_algorithm_name(algorithms: &Vec<AlgorithmEntry>, id: u64) -> (r: Option<&Vec<u8>>)
    ensures
        match r {
            Some(name) => spec_find_algorithm_name(algorithms@, id) == Some(name@),
            None => spec_find_algorithm_name(algorithms@, id) is None,
        },
{
    let mut i: usize = 0;
    let mut found: Option<usize> = None;
    while i < algorithms.len()
        invariant
            i <= algorithms.len(),
            match found {
                Some(k) => k < i && algorithms@[k as int].id == id && spec_find_algorithm_name(
                    algorithms@.take(i as int),
                    id,
                ) == Some(algorithms@[k as int].name@),
                None => spec_find_algorithm_name(algorithms@.take(i as int), id) is None,
            },
        decreases algorithms.len() - i,
    {
        proof {
            assert(algorithms@.take(i as int + 1).drop_last() =~= algorithms@.take(i as int));
            assert(algorithms@.take(i as int + 1).last() == algorithms@[i as int]);
        }
        if algorithms[i].id == id {
            found = Some(i);
        }
        i += 1;
    }
    proof {
        assert(algorithms@.take(algorithms@.len() as int) =~= algorithms@);
    }
    match found {
        Some(k) => Some(&algorithms[k].name),
        None => None,
    }
}

/// The last signal whose algorithm name is `name`: a later record
/// overrides an earlier one with the same name, as a keyed snapshot load
/// leaves it.
pub open spec fn spec_find_signal(signals: Seq<AlgorithmSignal>, name: Seq<u8>) -> Option<
    AlgorithmSignal,
>
    decreases signals.len(),
{
    if signals.len() == 0 {
        None
    } else if signals.last().algorithm@ == name {
        Some(signals.last())
    } else {
        spec_find_signal(signals.drop_last(), name)
    }
}

/// Looks the signal up that the service produced for an algorithm's name.
pub fn find_signal<'a>(signals: &'a Vec<AlgorithmSignal>, name: &Vec<u8>) -> (r: Option<
    &'a AlgorithmSignal,
>)
    ensures
        match r {
            Some(signal) => spec_find_signal(signals@, name@) == Some(*signal),
            None => spec_find_signal(signals@, name@) is None,
        },
{
    let mut i: usize = 0;
    let mut found: Option<usize> = None;
    while i < signals.len()
        invariant
            i <= signals.len(),
            match found {
                Some(k) => k < i && signals@[k as int].algorithm@ == name@ && spec_find_signal(
                    signals@.take(i as int),
                    name@,
                ) == Some(signals@[k as int]),
                None => spec_find_signal(signals@.take(i as int), name@) is None,
            },
        decreases signals.len() - i,
    {
        proof {
            assert(signals@.take(i as int + 1).drop_last() =~= signals@.take(i as int));
            assert(signals@.take(i as int + 1).last() == signals@[i as int]);
        }
        if bytes_eq(&signals[i].algorithm, name) {
            found = Some(i);
        }
        i += 1;
    }
    proof {
        assert(signals@.take(signals@.len() as int) =~= signals@);
    }
    match found {
        Some(k) => Some(&signals[k]),
        None => None,
    }
}

/// What instruction-building resolves to for one account: the signal's
/// direction and amount, or the exact cause of rejection — a missing
/// catalog entry, a missing signal, or a `NoAction` signal, in that
/// order of discovery.
pub open spec fn spec_build_transaction(
    algorithm_id: u64,
    algorithms: Seq<AlgorithmEntry>,
    signals: Seq<AlgorithmSignal>,
) -> Result<(TradeSignal, u64), TradeError> {
    match spec_find_algorithm_name(algorithms, algorithm_id) {
        None => Err(TradeError::AlgorithmLookupMiss),
        Some(name) => match spec_find_signal(signals, name) {
            None => Err(TradeError::SignalLookupMiss),
            Some(signal) => if signal.signal == TradeSignal::NoAction {
                Err(TradeError::NoActionSignal)
            } else {
                Ok((signal.signal, signal.amount))
            },
        },
    }
}

/// Builds the trade instruction for one account from the algorithm
/// catalog and the signal snapshot. A `NoAction` signal is rejected here,
/// before any allowance check or submission: no instruction it could have
/// produced exists.
pub fn build_transaction(
    account: &Account<Locked>,
    pair: Pair,
    algorithms: &Vec<AlgorithmEntry>,
    signals: &Vec<AlgorithmSignal>,
) -> (r: Result<TransactionInfo, TradeError>)
    ensures
        match r {
            Ok(t) => {
                &&& spec_build_transaction(account.spec_algorithm(), algorithms@, signals@)
                    matches Ok(p) && t.action == p.0 && t.amount == p.1
                &&& t.action != TradeSignal::NoAction
                &&& t.pair.0.symbol@ == pair.0.symbol@
                &&& t.pair.0.address@ == pair.0.address@
                &&& t.pair.1.symbol@ == pair.1.symbol@
                &&& t.pair.1.address@ == pair.1.address@
            },
            Err(e) => spec_build_transaction(account.spec_algorithm(), algorithms@, signals@)
                matches Err(cause) && e == cause,
        },
{
    let name = match find_algorithm_name(algorithms, account.algorithm()) {
        Some(name) => name,
        None => {
            return Err(TradeError::AlgorithmLookupMiss);
        },
    };
    let signal = match find_signal(signals, name) {
        Some(signal) => signal,
        None => {
            return Err(TradeError::SignalLookupMiss);
        },
    };
    match signal.signal {
        TradeSignal::NoAction => Err(TradeError::NoActionSignal),
        _ => Ok(TransactionInfo { amount: signal.amount, action: signal.signal, pair }),
    }
}

/// What one account's batch iteration ended in: the instruction to hand
/// to the venue, or the cause it was skipped for.
#[derive(Debug)]
pub enum AccountOutcome {
    Planned(TransactionInfo),
    Skipped(TradeError),
}

/// What one batch iteration works from: the account record as the
/// cursor yielded it (`None`: it did not deserialize), and the signal
/// snapshot fetched on that iteration (`None`: the signal service
/// failed). Either failure is that account's alone.
pub struct FetchedAccount {
    pub record: Option<Account<Locked>>,
    pub signals: Option<Vec<AlgorithmSignal>>,
}

/// The outcome one account's iteration must produce: each failure is
/// recorded in place of the instruction, never propagated.
pub open spec fn outcome_matches(
    fetched: FetchedAccount,
    algorithms: Seq<AlgorithmEntry>,
    outcome: AccountOutcome,
) -> bool {
    match fetched.record {
        None => outcome == AccountOutcome::Skipped(TradeError::AccountDeserializeFailure),
        Some(account) => match fetched.signals {
            None => outcome == AccountOutcome::Skipped(TradeError::SignalServiceFailure),
            Some(signals) => match spec_build_transaction(
                account.spec_algorithm(),
                algorithms,
                signals@,
            ) {
                Err(e) => outcome == AccountOutcome::Skipped(e),
                Ok(p) => outcome matches AccountOutcome::Planned(t) && {
                    &&& t.action == p.0
                    &&& t.amount == p.1
                    &&& t.action != TradeSignal::NoAction
                    &&& t.pair.0.symbol@ == usdc_symbol()
                    &&& t.pair.1.symbol@ == weth_symbol()
                    &&& t.pair.wf()
                },
            },
        },
    }
}

/// One batch pass over the fetched accounts: builds each account's
/// instruction against that iteration's signal snapshot. Every account is
/// processed; a failure — a record that did not deserialize, a missing
/// signal snapshot, a lookup miss, a `NoAction` signal — is recorded as
/// that account's outcome and the pass continues with the next account.
pub fn run_transactions(accounts: &Vec<FetchedAccount>, algorithms: &Vec<AlgorithmEntry>) -> (r:
    Vec<AccountOutcome>)
    ensures
        r@.len() == accounts@.len(),
        forall|i: int|
            0 <= i < accounts@.len() ==> outcome_matches(accounts@[i], algorithms@, #[trigger] r@[i]),
{
    let mut outcomes: Vec<AccountOutcome> = Vec::new();
    let mut i: usize = 0;
    while i < accounts.len()
        invariant
            i <= accounts.len(),
            outcomes@.len() == i,
            forall|j: int|
                0 <= j < i ==> outcome_matches(accounts@[j], algorithms@, #[trigger] outcomes@[j]),
        decreases accounts.len() - i,
    {
        let fetched = &accounts[i];
        let outcome = match &fetched.record {
            None => AccountOutcome::Skipped(TradeError::AccountDeserializeFailure),
            Some(account) => match &fetched.signals {
                None => AccountOutcome::Skipped(TradeError::SignalServiceFailure),
                Some(signals) => {
                    let pair = Pair::usdc_weth(Some(chain_id()));
                    match build_transaction(account, pair, algorithms, signals) {
                        Ok(transaction) => AccountOutcome::Planned(transaction),
                        Err(e) => AccountOutcome::Skipped(e),
                    }
                },
            },
        };
        outcomes.push(outcome);
        i += 1;
    }
    outcomes
}

} // verus!
