use kaspa_ng_core::balance::{
    utxo_suffix_string, utxo_text, Balance, BalanceLine, BalancePane, ManagerContext, TransactionKind,
};
use kaspa_ng_core::format::{decimal_string, separated_string};

fn balance(pending: u64, outgoing: u64, p: u64, s: u64) -> Balance {
    Balance {
        mature: 1_500_000_000,
        pending,
        outgoing,
        mature_utxo_count: 1234,
        pending_utxo_count: p,
        stasis_utxo_count: s,
    }
}

#[test]
fn decimal_string_writes_digits() {
    assert_eq!(decimal_string(0), "0");
    assert_eq!(decimal_string(7), "7");
    assert_eq!(decimal_string(1000), "1000");
    assert_eq!(decimal_string(u64::MAX), "18446744073709551615");
}

#[test]
fn separated_string_groups_thousands() {
    assert_eq!(separated_string(0), "0");
    assert_eq!(separated_string(999), "999");
    assert_eq!(separated_string(1000), "1,000");
    assert_eq!(separated_string(1234567), "1,234,567");
    assert_eq!(separated_string(1000001), "1,000,001");
    assert_eq!(separated_string(u64::MAX), "18,446,744,073,709,551,615");
}

#[test]
fn separated_string_without_commas_is_decimal() {
    for n in [0u64, 5, 999, 1000, 65536, 1_000_000, 987_654_321_012, u64::MAX] {
        assert_eq!(separated_string(n).replace(',', ""), decimal_string(n));
    }
}

#[test]
fn utxo_suffix_cases() {
    assert_eq!(utxo_suffix_string(0, 0), "");
    assert_eq!(utxo_suffix_string(3, 0), " (3 pending)");
    assert_eq!(utxo_suffix_string(0, 5), " (5 processing)");
    assert_eq!(utxo_suffix_string(3, 5), " (3 pending, 5 processing)");
}

#[test]
fn utxo_text_line() {
    assert_eq!(utxo_text(1234, 0, 0), "UTXOs: 1,234");
    assert_eq!(utxo_text(1234567, 2, 1), "UTXOs: 1,234,567 (2 pending, 1 processing)");
    assert_eq!(utxo_text(12, 1000, 0), "UTXOs: 12 (1000 pending)");
}

#[test]
fn balance_pane_new_keeps_context() {
    let context = ManagerContext { transaction_kind: None };
    let pane = BalancePane::new(&context);
    assert_eq!(pane.render(None, true, false, None), vec![BalanceLine::Space, BalanceLine::NotAvailable]);
}

#[test]
fn balance_pane_without_balance() {
    let context = ManagerContext { transaction_kind: Some(TransactionKind::Send) };
    let pane = BalancePane::new(&context);
    assert_eq!(pane.render(None, false, true, Some(vec!["usd".to_string()])), vec![BalanceLine::Space, BalanceLine::NotAvailable]);
}

#[test]
fn balance_pane_while_syncing() {
    let context = ManagerContext { transaction_kind: None };
    let pane = BalancePane::new(&context);
    assert_eq!(
        pane.render(Some(balance(5, 6, 1, 1)), false, true, Some(vec!["usd".to_string()])),
        vec![
            BalanceLine::Space,
            BalanceLine::Mature { amount: 1_500_000_000, syncing: true },
            BalanceLine::SyncWarning,
        ]
    );
}

#[test]
fn balance_pane_synced_full() {
    let context = ManagerContext { transaction_kind: None };
    let pane = BalancePane::new(&context);
    assert_eq!(
        pane.render(Some(balance(5, 6, 1, 2)), true, true, Some(vec!["usd".to_string(), "btc".to_string(), "eur".to_string()])),
        vec![
            BalanceLine::Space,
            BalanceLine::Mature { amount: 1_500_000_000, syncing: false },
            BalanceLine::MarketPrice { amount: 1_500_000_000, symbol: "btc".to_string() },
            BalanceLine::MarketPrice { amount: 1_500_000_000, symbol: "eur".to_string() },
            BalanceLine::MarketPrice { amount: 1_500_000_000, symbol: "usd".to_string() },
            BalanceLine::Pending { amount: 5 },
            BalanceLine::Sending { amount: 6 },
            BalanceLine::Space,
            BalanceLine::Utxos { mature: 1234, pending: 1, processing: 2 },
        ]
    );
}

#[test]
fn balance_pane_synced_quiet_while_composing() {
    let context = ManagerContext { transaction_kind: Some(TransactionKind::Transfer) };
    let pane = BalancePane::new(&context);
    assert_eq!(
        pane.render(Some(balance(0, 0, 0, 0)), true, true, None),
        vec![
            BalanceLine::Space,
            BalanceLine::Mature { amount: 1_500_000_000, syncing: false },
            BalanceLine::Space,
        ]
    );
}

#[test]
fn balance_pane_market_monitor_off_hides_prices() {
    let context = ManagerContext { transaction_kind: Some(TransactionKind::Send) };
    let pane = BalancePane::new(&context);
    assert_eq!(
        pane.render(Some(balance(0, 0, 0, 0)), true, false, Some(vec!["usd".to_string()])),
        vec![
            BalanceLine::Space,
            BalanceLine::Mature { amount: 1_500_000_000, syncing: false },
            BalanceLine::Space,
        ]
    );
}

#[test]
fn balance_pane_empty_price_list() {
    let context = ManagerContext { transaction_kind: Some(TransactionKind::Send) };
    let pane = BalancePane::new(&context);
    assert_eq!(
        pane.render(Some(balance(1, 0, 0, 0)), true, true, Some(vec![])),
        vec![
            BalanceLine::Space,
            BalanceLine::Mature { amount: 1_500_000_000, syncing: false },
            BalanceLine::Pending { amount: 1 },
            BalanceLine::Space,
        ]
    );
}
