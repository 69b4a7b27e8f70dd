use kaspa_ng_core::account_load::{AccountLoad, LoadAction, LoadEvent};
use kaspa_ng_core::application::{AccountId, NetworkId, NetworkType, TRANSACTION_PAGE};
use kaspa_ng_core::wallet_order::sort_strings;

fn net() -> NetworkId {
    NetworkId { network_type: NetworkType::Testnet, suffix: Some(10) }
}

fn load() -> AccountLoad {
    AccountLoad::new(net(), vec![AccountId { id: 3 }, AccountId { id: 1 }])
}

#[test]
fn load_starts_with_key_data() {
    assert_eq!(load().next(LoadEvent::Started), vec![LoadAction::EnumeratePrvKeyData]);
    assert_eq!(load().next(LoadEvent::PrvKeyDataEnumerated { ok: true }), vec![LoadAction::SendPrvKeyData]);
    assert_eq!(load().next(LoadEvent::PrvKeyDataEnumerated { ok: false }), vec![LoadAction::Finish]);
    assert_eq!(load().next(LoadEvent::PrvKeyDataSent { ok: false }), vec![LoadAction::Finish]);
}

#[test]
fn load_fetches_first_page_of_each_account() {
    assert_eq!(TRANSACTION_PAGE, 128);
    assert_eq!(
        load().next(LoadEvent::PrvKeyDataSent { ok: true }),
        vec![
            LoadAction::FetchTransactions { account_id: AccountId { id: 3 }, network_id: net(), start: 0, end: 128 },
            LoadAction::FetchTransactions { account_id: AccountId { id: 1 }, network_id: net(), start: 0, end: 128 },
        ]
    );
    let empty = AccountLoad::new(net(), vec![]);
    assert!(empty.next(LoadEvent::PrvKeyDataSent { ok: true }).is_empty());
}

#[test]
fn load_routes_pages_then_activates() {
    assert_eq!(
        load().next(LoadEvent::TransactionsFetched {
            pages: Some(vec![AccountId { id: 1 }, AccountId { id: 9 }, AccountId { id: 3 }]),
        }),
        vec![
            LoadAction::LoadTransactions { account_id: AccountId { id: 1 } },
            LoadAction::UnknownAccount { account_id: AccountId { id: 9 } },
            LoadAction::LoadTransactions { account_id: AccountId { id: 3 } },
            LoadAction::ActivateAccounts,
        ]
    );
    assert_eq!(load().next(LoadEvent::TransactionsFetched { pages: None }), vec![LoadAction::Finish]);
    assert_eq!(load().next(LoadEvent::Activated), vec![LoadAction::Finish]);
}

#[test]
fn strings_sort_ascending() {
    let sorted = sort_strings(vec!["usd".to_string(), "btc".to_string(), "Eur".to_string(), "bt".to_string()]);
    assert_eq!(sorted, vec!["Eur", "bt", "btc", "usd"]);
    assert!(sort_strings(vec![]).is_empty());
}
