use vstd::prelude::*;

use crate::application::{AccountId, NetworkId, TRANSACTION_PAGE};

verus! {

/// The loading of the accounts of a wallet that was just opened: the
/// private key data is listed and handed to the application, the first
/// page of each account's transactions is fetched, every page is loaded into
/// its account, and then the accounts are activated. A failed step ends the
/// loading.
pub struct AccountLoad {
    network_id: NetworkId,
    accounts: Vec<AccountId>,
}

/// What happened to the last step of a loading.
pub enum LoadEvent {
    /// The loading starts.
    Started,
    /// The wallet listed its private key data, or failed to.
    PrvKeyDataEnumerated { ok: bool },
    /// The listed key data was handed to the application, or could not be.
    PrvKeyDataSent { ok: bool },
    /// The pages of transactions arrived: the account of each page in the
    /// order of the answers, or `None` when a request failed.
    TransactionsFetched { pages: Option<Vec<AccountId>> },
    /// The accounts were activated, or the activation failed.
    Activated,
}

/// A step that the application performs for a loading.
#[derive(Debug, Clone, Copy, PartialEq, Eq)]
pub enum LoadAction {
    /// List the private key data of the wallet.
    EnumeratePrvKeyData,
    /// Send the listed key data to the application as an event.
    SendPrvKeyData,
    /// Fetch the transactions of the account from `start` to `end` (not
    /// included) on the network; all fetches of a loading run together.
    FetchTransactions { account_id: AccountId, network_id: NetworkId, start: u64, end: u64 },
    /// Load the fetched page into its account (an error is only logged).
    LoadTransactions { account_id: AccountId },
    /// A page came for an account that the loading does not know: log it.
    UnknownAccount { account_id: AccountId },
    /// Activate all accounts of the wallet.
    ActivateAccounts,
    /// The loading ends.
    Finish,
}

/// One fetch per account, in the order of the accounts.
pub open spec fn fetch_actions(network_id: NetworkId, accounts: Seq<AccountId>) -> Seq<LoadAction> {
    Seq::new(
        accounts.len(),
        |i: int|
            LoadAction::FetchTransactions {
                account_id: accounts[i],
                network_id,
                start: 0,
                end: TRANSACTION_PAGE,
            },
    )
}

/// For each page, in order, loading it into its account when the loading
/// knows the account.
pub open spec fn page_actions(accounts: Seq<AccountId>, pages: Seq<AccountId>) -> Seq<LoadAction> {
    Seq::new(
        pages.len(),
        |i: int|
            if accounts.contains(pages[i]) {
                LoadAction::LoadTransactions { account_id: pages[i] }
            } else {
                LoadAction::UnknownAccount { account_id: pages[i] }
            },
    )
}

/// The steps that follow an event of a loading.
pub open spec fn load_actions(network_id: NetworkId, accounts: Seq<AccountId>, event: LoadEvent) -> Seq<LoadAction> {
    match event {
        LoadEvent::Started => seq![LoadAction::EnumeratePrvKeyData],
        LoadEvent::PrvKeyDataEnumerated { ok } => if ok {
            seq![LoadAction::SendPrvKeyData]
        } else {
            seq![LoadAction::Finish]
        },
        LoadEvent::PrvKeyDataSent { ok } => if ok {
            fetch_actions(network_id, accounts)
        } else {
            seq![LoadAction::Finish]
        },
        LoadEvent::TransactionsFetched { pages } => match pages {
            Some(p) => page_actions(accounts, p@).push(LoadAction::ActivateAccounts),
            None => seq![LoadAction::Finish],
        },
        LoadEvent::Activated => seq![LoadAction::Finish],
    }
}


/// The steps of a loading, step by step: it starts by listing the key data;
/// a listing that succeeded is handed on, a failed one ends the loading; once
/// the key data is handed on, the first 128 transactions of every account are
/// fetched, one fetch per account in the order of the accounts; a failed
/// fetch ends the loading; otherwise every page, in the order received, is
/// loaded into its account when the loading knows it and reported
/// otherwise, and then the accounts are activated; an activation ends it.
pub proof fn lemma_load_steps(network_id: NetworkId, accounts: Seq<AccountId>, event: LoadEvent)
    ensures
        ({
            let a = load_actions(network_id, accounts, event);
            match event {
                LoadEvent::Started => a == seq![LoadAction::EnumeratePrvKeyData],
                LoadEvent::PrvKeyDataEnumerated { ok } => a == if ok {
                    seq![LoadAction::SendPrvKeyData]
                } else {
                    seq![LoadAction::Finish]
                },
                LoadEvent::PrvKeyDataSent { ok } => if ok {
                    &&& a.len() == accounts.len()
                    &&& forall|i: int| 0 <= i < accounts.len() ==> #[trigger] a[i] == (LoadAction::FetchTransactions {
                        account_id: accounts[i],
                        network_id,
                        start: 0,
                        end: 128,
                    })
                } else {
                    a == seq![LoadAction::Finish]
                },
                LoadEvent::TransactionsFetched { pages } => match pages {
                    Some(p) => {
                        &&& a.len() == p.len() + 1
                        &&& a[a.len() - 1] == LoadAction::ActivateAccounts
                        &&& forall|i: int| 0 <= i < p.len() ==> (#[trigger] a[i] == (LoadAction::LoadTransactions {
                            account_id: p@[i],
                        })) == accounts.contains(p@[i])
                        &&& forall|i: int| 0 <= i < p.len() ==> (#[trigger] a[i] == (LoadAction::UnknownAccount {
                            account_id: p@[i],
                        })) == !accounts.contains(p@[i])
                    },
                    None => a == seq![LoadAction::Finish],
                },
                LoadEvent::Activated => a == seq![LoadAction::Finish],
            }
        }),
{
}

impl AccountLoad {
    pub closed spec fn network_id(&self) -> NetworkId {
        self.network_id
    }

    pub closed spec fn accounts(&self) -> Seq<AccountId> {
        self.accounts@
    }

    /// A loading of `accounts` (in the order of their descriptors) on the
    /// network.
    pub fn new(network_id: NetworkId, accounts: Vec<AccountId>) -> (load: AccountLoad)
        ensures
            load.network_id() == network_id,
            load.accounts() == accounts@,
    {
        AccountLoad { network_id, accounts }
    }

    /// Whether the loading knows the account.
    fn knows(&self, id: AccountId) -> (found: bool)
        ensures
            found == self.accounts().contains(id),
    {
        let mut i: usize = 0;
        while i < self.accounts.len()
            invariant
                0 <= i <= self.accounts.len(),
                forall|k: int| 0 <= k < i ==> self.accounts@[k] != id,
            decreases self.accounts.len() - i,
        {
            if self.accounts[i] == id {
                return true;
            }
            i += 1;
        }
        false
    }

    /// The steps that the application performs after `event`.
    pub fn next(&self, event: LoadEvent) -> (actions: Vec<LoadAction>)
        ensures
            actions@ == load_actions(self.network_id(), self.accounts(), event),
    {
        let ghost expected = load_actions(self.network_id(), self.accounts(), event);
        let mut actions: Vec<LoadAction> = Vec::new();
        match event {
            LoadEvent::Started => {
                actions.push(LoadAction::EnumeratePrvKeyData);
            },
            LoadEvent::PrvKeyDataEnumerated { ok } => {
                if ok {
                    actions.push(LoadAction::SendPrvKeyData);
                } else {
                    actions.push(LoadAction::Finish);
                }
            },
            LoadEvent::PrvKeyDataSent { ok } => {
                if ok {
                    let mut i: usize = 0;
                    while i < self.accounts.len()
                        invariant
                            0 <= i <= self.accounts.len(),
                            actions@ == fetch_actions(self.network_id, self.accounts@.take(i as int)),
                        decreases self.accounts.len() - i,
                    {
                        actions.push(
                            LoadAction::FetchTransactions {
                                account_id: self.accounts[i],
                                network_id: self.network_id,
                                start: 0,
                                end: TRANSACTION_PAGE,
                            },
                        );
                        assert(actions@ =~= fetch_actions(self.network_id, self.accounts@.take(i + 1)));
                        i += 1;
                    }
                    assert(self.accounts@.take(i as int) =~= self.accounts@);
                } else {
                    actions.push(LoadAction::Finish);
                }
            },
            LoadEvent::TransactionsFetched { pages } => {
                match pages {
                    Some(p) => {
                        let mut i: usize = 0;
                        while i < p.len()
                            invariant
                                0 <= i <= p.len(),
                                actions@ == page_actions(self.accounts@, p@.take(i as int)),
                            decreases p.len() - i,
                        {
                            let id = p[i];
                            if self.knows(id) {
                                actions.push(LoadAction::LoadTransactions { account_id: id });
                            } else {
                                actions.push(LoadAction::UnknownAccount { account_id: id });
                            }
                            assert(actions@ =~= page_actions(self.accounts@, p@.take(i + 1)));
                            i += 1;
                        }
                        assert(p@.take(i as int) =~= p@);
                        actions.push(LoadAction::ActivateAccounts);
                    },
                    None => {
                        actions.push(LoadAction::Finish);
                    },
                }
            },
            LoadEvent::Activated => {
                actions.push(LoadAction::Finish);
            },
        }
        assert(actions@ =~= expected);
        actions
    }
}

} // verus!
