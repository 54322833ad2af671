use transactions::blockchain::TradeError;
use transactions::blockchain::account::{Account, Locked};
use transactions::transactions::{
    AccountOutcome, AlgorithmEntry, FetchedAccount, account_query, build_transaction,
    find_algorithm_name, find_signal, run_transactions,
};
use transactions::coin::Pair;
use transactions::{AlgorithmSignal, TradeSignal};

fn catalog() -> Vec<AlgorithmEntry> {
    vec![
        AlgorithmEntry { id: 1, name: b"momentum".to_vec() },
        AlgorithmEntry { id: 2, name: b"meanrev".to_vec() },
    ]
}

fn snapshot() -> Vec<AlgorithmSignal> {
    vec![
        AlgorithmSignal { algorithm: b"momentum".to_vec(), signal: TradeSignal::Buy, amount: 10 },
        AlgorithmSignal { algorithm: b"meanrev".to_vec(), signal: TradeSignal::Sell, amount: 3 },
        AlgorithmSignal { algorithm: b"idle".to_vec(), signal: TradeSignal::NoAction, amount: 0 },
    ]
}

fn account(algorithm: u64) -> Account<Locked> {
    Account::<Locked>::new(
        vec![9u8; 20],
        algorithm,
        5,
        (b"USDC".to_vec(), b"WETH".to_vec()),
        b"aa:bb".to_vec(),
    )
}

fn fetched(algorithm: u64) -> FetchedAccount {
    FetchedAccount { record: Some(account(algorithm)), signals: Some(snapshot()) }
}

#[test]
fn a_bad_algorithm_id_does_not_abort_the_batch() {
    // Five accounts; the third carries an algorithm id the catalog does
    // not know. All five must come back, the third skipped, the rest
    // planned.
    let accounts = vec![fetched(1), fetched(2), fetched(99), fetched(1), fetched(2)];
    let outcomes = run_transactions(&accounts, &catalog());
    assert_eq!(outcomes.len(), 5);
    assert!(matches!(
        outcomes[2],
        AccountOutcome::Skipped(TradeError::AlgorithmLookupMiss)
    ));
    for index in [0usize, 3] {
        match &outcomes[index] {
            AccountOutcome::Planned(t) => {
                assert!(matches!(t.action, TradeSignal::Buy));
                assert_eq!(t.amount, 10);
            },
            other => panic!("account {} should be planned, was {:?}", index, other),
        }
    }
    for index in [1usize, 4] {
        match &outcomes[index] {
            AccountOutcome::Planned(t) => {
                assert!(matches!(t.action, TradeSignal::Sell));
                assert_eq!(t.amount, 3);
            },
            other => panic!("account {} should be planned, was {:?}", index, other),
        }
    }
}

#[test]
fn every_failure_kind_is_scoped_to_its_account() {
    let accounts = vec![
        FetchedAccount { record: None, signals: Some(snapshot()) },
        FetchedAccount { record: Some(account(1)), signals: None },
        fetched(1),
    ];
    let outcomes = run_transactions(&accounts, &catalog());
    assert_eq!(outcomes.len(), 3);
    assert!(matches!(
        outcomes[0],
        AccountOutcome::Skipped(TradeError::AccountDeserializeFailure)
    ));
    assert!(matches!(
        outcomes[1],
        AccountOutcome::Skipped(TradeError::SignalServiceFailure)
    ));
    assert!(matches!(&outcomes[2], AccountOutcome::Planned(_)));
}

#[test]
fn a_no_action_signal_is_rejected_before_any_instruction_exists() {
    let idle_catalog = vec![AlgorithmEntry { id: 7, name: b"idle".to_vec() }];
    let pair = Pair::usdc_weth(Some(0xa4b1));
    let built = build_transaction(&account(7), pair, &idle_catalog, &snapshot());
    assert!(matches!(built, Err(TradeError::NoActionSignal)));
}

#[test]
fn a_missing_signal_is_its_own_failure() {
    let lonely_catalog = vec![AlgorithmEntry { id: 3, name: b"unheard".to_vec() }];
    let pair = Pair::usdc_weth(Some(0xa4b1));
    let built = build_transaction(&account(3), pair, &lonely_catalog, &snapshot());
    assert!(matches!(built, Err(TradeError::SignalLookupMiss)));
}

#[test]
fn building_takes_the_signal_of_the_accounts_algorithm() {
    let pair = Pair::usdc_weth(Some(0xa4b1));
    let built = build_transaction(&account(2), pair, &catalog(), &snapshot()).unwrap();
    assert!(matches!(built.action, TradeSignal::Sell));
    assert_eq!(built.amount, 3);
    assert_eq!(built.pair.0.symbol, b"USDC".to_vec());
    assert_eq!(built.pair.1.symbol, b"WETH".to_vec());
}

#[test]
fn catalog_and_snapshot_lookups() {
    let algorithms = catalog();
    assert_eq!(find_algorithm_name(&algorithms, 1), Some(&b"momentum".to_vec()));
    assert_eq!(find_algorithm_name(&algorithms, 8), None);
    let signals = snapshot();
    let hit = find_signal(&signals, &b"meanrev".to_vec()).unwrap();
    assert!(matches!(hit.signal, TradeSignal::Sell));
    assert_eq!(hit.amount, 3);
    assert!(find_signal(&signals, &b"unknown".to_vec()).is_none());
}

#[test]
fn a_later_catalog_entry_overrides_an_earlier_one() {
    let algorithms = vec![
        AlgorithmEntry { id: 1, name: b"stale".to_vec() },
        AlgorithmEntry { id: 1, name: b"momentum".to_vec() },
    ];
    assert_eq!(find_algorithm_name(&algorithms, 1), Some(&b"momentum".to_vec()));
}

#[test]
fn a_later_signal_overrides_an_earlier_one() {
    let signals = vec![
        AlgorithmSignal { algorithm: b"momentum".to_vec(), signal: TradeSignal::Sell, amount: 1 },
        AlgorithmSignal { algorithm: b"momentum".to_vec(), signal: TradeSignal::Buy, amount: 8 },
    ];
    let hit = find_signal(&signals, &b"momentum".to_vec()).unwrap();
    assert!(matches!(hit.signal, TradeSignal::Buy));
    assert_eq!(hit.amount, 8);
}

#[test]
fn the_account_cursor_filter_selects_running_accounts_of_the_venue() {
    let query = account_query(&b"uniswap".to_vec());
    assert_eq!(query.status, b"running".to_vec());
    assert_eq!(query.provider, b"uniswap".to_vec());
}

#[test]
fn an_empty_batch_produces_no_outcomes() {
    let outcomes = run_transactions(&Vec::new(), &catalog());
    assert!(outcomes.is_empty());
}
