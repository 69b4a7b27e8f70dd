use vstd::prelude::*;
use vstd::string::*;

use crate::format::{decimal, lemma_decimal_reads_back, separated, push_decimal, push_separated};
use crate::wallet_order::{sort_strings, strings_sorted};

verus! {

/// The kind of transaction that the account manager is composing.
#[derive(Debug, Clone, Copy, PartialEq, Eq, Structural)]
pub enum TransactionKind {
    Send,
    Transfer,
}

/// The part of the account manager's context that the balance pane reads.
#[derive(Debug)]
pub struct ManagerContext {
    pub transaction_kind: Option<TransactionKind>,
}

/// The balance of an account, in sompi, and the number of its UTXOs by state.
#[derive(Debug, Clone, Copy, PartialEq, Eq, Structural)]
pub struct Balance {
    pub mature: u64,
    pub pending: u64,
    pub outgoing: u64,
    pub mature_utxo_count: u64,
    pub pending_utxo_count: u64,
    pub stasis_utxo_count: u64,
}

/// One line of the balance pane, from top to bottom.
#[derive(Debug, Clone, PartialEq, Eq)]
pub enum BalanceLine {
    /// Vertical space before and after the amounts.
    Space,
    /// The mature balance in large type; `syncing` selects the colour used
    /// while the node is not yet synced.
    Mature { amount: u64, syncing: bool },
    /// The notice that the balance may be out of date during node sync.
    SyncWarning,
    /// The value of `amount` in the market currency `symbol` (as the price
    /// list writes it; the line shows it in upper case).
    MarketPrice { amount: u64, symbol: String },
    /// "Pending: " and the pending amount.
    Pending { amount: u64 },
    /// "Sending: " and the outgoing amount.
    Sending { amount: u64 },
    /// The UTXO counts; its text is `utxo_text`.
    Utxos { mature: u64, pending: u64, processing: u64 },
    /// "Balance: N/A", when the account has no balance yet.
    NotAvailable,
}

/// One market line for each symbol, in the order of `symbols`.
pub open spec fn market_lines(amount: u64, symbols: Seq<String>) -> Seq<BalanceLine> {
    Seq::new(symbols.len(), |i: int| BalanceLine::MarketPrice { amount, symbol: symbols[i] })
}

/// Whether the pane shows market values: the balance is known, the node is
/// synced, the market monitor is on and a price list is known.
pub open spec fn market_shown(
    balance: Option<Balance>,
    is_synced: bool,
    market_monitor: bool,
    price_symbols: Option<Vec<String>>,
) -> bool {
    balance is Some && is_synced && market_monitor && price_symbols is Some
}

/// The lines that the balance pane shows; `market` holds the symbols of the
/// market lines, in the order they are shown, when they are shown.
pub open spec fn balance_lines(
    composing: bool,
    balance: Option<Balance>,
    is_synced: bool,
    market: Option<Seq<String>>,
) -> Seq<BalanceLine> {
    match balance {
        None => seq![BalanceLine::Space, BalanceLine::NotAvailable],
        Some(b) => if !is_synced {
            seq![
                BalanceLine::Space,
                BalanceLine::Mature { amount: b.mature, syncing: true },
                BalanceLine::SyncWarning,
            ]
        } else {
            seq![BalanceLine::Space, BalanceLine::Mature { amount: b.mature, syncing: false }]
                + (match market {
                    Some(symbols) => market_lines(b.mature, symbols),
                    None => Seq::empty(),
                })
                + (if b.pending != 0 {
                    seq![BalanceLine::Pending { amount: b.pending }]
                } else {
                    Seq::empty()
                })
                + (if b.outgoing != 0 {
                    seq![BalanceLine::Sending { amount: b.outgoing }]
                } else {
                    Seq::empty()
                })
                + seq![BalanceLine::Space]
                + (if !composing {
                    seq![
                        BalanceLine::Utxos {
                            mature: b.mature_utxo_count,
                            pending: b.pending_utxo_count,
                            processing: b.stasis_utxo_count,
                        },
                    ]
                } else {
                    Seq::empty()
                })
        },
    }
}


/// On a synced node with a known balance the pane shows, whatever else it
/// shows: first a space and the mature amount in its synced colour; a
/// "Pending" line exactly when something is pending, with the pending amount;
/// a "Sending" line exactly when something is outgoing, with the outgoing
/// amount, whatever is pending; one market line per given symbol, in the
/// given order, right after the mature amount; the UTXO counts exactly when
/// no transaction is being composed; and never the sync notice.
pub proof fn lemma_synced_balance_lines(composing: bool, b: Balance, market: Option<Seq<String>>)
    ensures
        ({
            let lines = balance_lines(composing, Some(b), true, market);
            &&& lines[0] == BalanceLine::Space
            &&& lines[1] == (BalanceLine::Mature { amount: b.mature, syncing: false })
            &&& (exists|i: int| 0 <= i < lines.len() && lines[i] is Pending) <==> b.pending != 0
            &&& forall|i: int| 0 <= i < lines.len() && lines[i] is Pending
                ==> lines[i] == (BalanceLine::Pending { amount: b.pending })
            &&& (exists|i: int| 0 <= i < lines.len() && lines[i] is Sending) <==> b.outgoing != 0
            &&& forall|i: int| 0 <= i < lines.len() && lines[i] is Sending
                ==> lines[i] == (BalanceLine::Sending { amount: b.outgoing })
            &&& (exists|i: int| 0 <= i < lines.len() && lines[i] is Utxos) <==> !composing
            &&& forall|i: int| 0 <= i < lines.len() && lines[i] is Utxos ==> lines[i] == (BalanceLine::Utxos {
                mature: b.mature_utxo_count,
                pending: b.pending_utxo_count,
                processing: b.stasis_utxo_count,
            })
            &&& forall|i: int| 0 <= i < lines.len() ==> !(lines[i] is SyncWarning)
            &&& forall|i: int| 0 <= i < lines.len() ==> !(lines[i] is NotAvailable)
            &&& match market {
                Some(symbols) => forall|i: int| 0 <= i < symbols.len() ==> lines[2 + i] == (BalanceLine::MarketPrice {
                    amount: b.mature,
                    symbol: symbols[i],
                }),
                None => forall|i: int| 0 <= i < lines.len() ==> !(lines[i] is MarketPrice),
            }
        }),
{
    let lines = balance_lines(composing, Some(b), true, market);
    let head = seq![BalanceLine::Space, BalanceLine::Mature { amount: b.mature, syncing: false }];
    let m = match market {
        Some(symbols) => market_lines(b.mature, symbols),
        None => Seq::empty(),
    };
    let p = if b.pending != 0 { seq![BalanceLine::Pending { amount: b.pending }] } else { Seq::empty() };
    let o = if b.outgoing != 0 { seq![BalanceLine::Sending { amount: b.outgoing }] } else { Seq::empty() };
    let u = if !composing {
        seq![
            BalanceLine::Utxos {
                mature: b.mature_utxo_count,
                pending: b.pending_utxo_count,
                processing: b.stasis_utxo_count,
            },
        ]
    } else {
        Seq::empty()
    };
    assert(lines == head + m + p + o + seq![BalanceLine::Space] + u);
    let k = m.len() as int;
    let a = 2 + k;
    let c = a + p.len();
    let d = c + o.len();
    assert(lines.len() == d + 1 + u.len());
    assert forall|i: int| 0 <= i < lines.len() implies {
        &&& (i < 2 ==> lines[i] == head[i])
        &&& (2 <= i < a ==> lines[i] == m[i - 2])
        &&& (a <= i < c ==> lines[i] == p[i - a])
        &&& (c <= i < d ==> lines[i] == o[i - c])
        &&& (i == d ==> lines[i] == BalanceLine::Space)
        &&& (d < i ==> lines[i] == u[i - d - 1])
    } by {}
    assert forall|i: int| 0 <= i < k implies (#[trigger] m[i]) is MarketPrice by {}
    if b.pending != 0 {
        assert(lines[a] is Pending);
    }
    if b.outgoing != 0 {
        assert(lines[c] is Sending);
    }
    if !composing {
        assert(lines[d + 1] is Utxos);
    }
}

/// While the node syncs, a known balance shows only its mature amount in
/// the syncing colour and the sync notice: no pending, outgoing, market or
/// UTXO line.
pub proof fn lemma_syncing_balance_lines(composing: bool, b: Balance, market: Option<Seq<String>>)
    ensures
        ({
            let lines = balance_lines(composing, Some(b), false, market);
            &&& lines.len() == 3
            &&& lines[1] == (BalanceLine::Mature { amount: b.mature, syncing: true })
            &&& lines[2] is SyncWarning
            &&& forall|i: int| 0 <= i < lines.len() ==> !(lines[i] is Pending) && !(lines[i] is Sending)
                && !(lines[i] is Utxos) && !(lines[i] is MarketPrice)
        }),
{
}

/// Without a balance the pane only says that none is available.
pub proof fn lemma_unknown_balance_lines(composing: bool, is_synced: bool, market: Option<Seq<String>>)
    ensures
        balance_lines(composing, None, is_synced, market).len() == 2,
        balance_lines(composing, None, is_synced, market)[1] is NotAvailable,
{
}

/// What follows the mature UTXO count: the pending and processing counts,
/// each only when it is not zero.
pub open spec fn utxo_suffix(pending: nat, processing: nat) -> Seq<char> {
    if pending != 0 && processing != 0 {
        " ("@ + decimal(pending) + " pending, "@ + decimal(processing) + " processing)"@
    } else if pending != 0 {
        " ("@ + decimal(pending) + " pending)"@
    } else if processing != 0 {
        " ("@ + decimal(processing) + " processing)"@
    } else {
        Seq::empty()
    }
}

/// The UTXO line: the mature count with thousands separated, then the suffix.
pub open spec fn utxo_line(mature: nat, pending: nat, processing: nat) -> Seq<char> {
    "UTXOs: "@ + separated(mature) + utxo_suffix(pending, processing)
}


/// The UTXO suffix is empty exactly when nothing is pending or processing;
/// otherwise it is in brackets, opens with the pending count when something
/// is pending, and closes with the processing count when something is
/// processing, or with the word "pending" when nothing is.
pub proof fn lemma_utxo_suffix_shape(pending: nat, processing: nat)
    ensures
        ({
            let s = utxo_suffix(pending, processing);
            let dp = decimal(pending);
            let ds = decimal(processing);
            &&& (s.len() == 0) == (pending == 0 && processing == 0)
            &&& pending != 0 ==> s.take(2 + dp.len() as int) == seq![' ', '('] + dp
            &&& pending == 0 && processing != 0 ==> s.take(2 + ds.len() as int) == seq![' ', '('] + ds
            &&& processing != 0 ==> s.skip(s.len() - ds.len() - 12) == ds + seq![' ', 'p', 'r', 'o', 'c', 'e', 's', 's', 'i', 'n', 'g', ')']
            &&& pending != 0 && processing == 0 ==> s.skip(s.len() - dp.len() - 9) == dp + seq![' ', 'p', 'e', 'n', 'd', 'i', 'n', 'g', ')']
        }),
{
    reveal_strlit(" (");
    reveal_strlit(" pending, ");
    reveal_strlit(" pending)");
    reveal_strlit(" processing)");
    let s = utxo_suffix(pending, processing);
    let dp = decimal(pending);
    let ds = decimal(processing);
    let open = seq![' ', '('];
    let proc_end = seq![' ', 'p', 'r', 'o', 'c', 'e', 's', 's', 'i', 'n', 'g', ')'];
    let pend_end = seq![' ', 'p', 'e', 'n', 'd', 'i', 'n', 'g', ')'];
    let pend_mid = seq![' ', 'p', 'e', 'n', 'd', 'i', 'n', 'g', ',', ' '];
    assert(" ("@ =~= open);
    assert(" processing)"@ =~= proc_end);
    assert(" pending)"@ =~= pend_end);
    assert(" pending, "@ =~= pend_mid);
    lemma_decimal_reads_back(pending);
    lemma_decimal_reads_back(processing);
    if pending != 0 && processing != 0 {
        assert(s =~= open + dp + pend_mid + ds + proc_end);
        assert(s.take(2 + dp.len() as int) =~= open + dp);
        assert(s.skip(s.len() - ds.len() - 12) =~= ds + proc_end);
    } else if pending != 0 {
        assert(s =~= open + dp + pend_end);
        assert(s.take(2 + dp.len() as int) =~= open + dp);
        assert(s.skip(s.len() - dp.len() - 9) =~= dp + pend_end);
    } else if processing != 0 {
        assert(s =~= open + ds + proc_end);
        assert(s.take(2 + ds.len() as int) =~= open + ds);
        assert(s.skip(s.len() - ds.len() - 12) =~= ds + proc_end);
    }
}

/// The suffix of the UTXO line, as a string.
pub fn utxo_suffix_string(pending: u64, processing: u64) -> (s: String)
    ensures
        s@ == utxo_suffix(pending as nat, processing as nat),
{
    let mut s = String::new();
    if pending != 0 && processing != 0 {
        s.append(" (");
        push_decimal(&mut s, pending);
        s.append(" pending, ");
        push_decimal(&mut s, processing);
        s.append(" processing)");
    } else if pending != 0 {
        s.append(" (");
        push_decimal(&mut s, pending);
        s.append(" pending)");
    } else if processing != 0 {
        s.append(" (");
        push_decimal(&mut s, processing);
        s.append(" processing)");
    }
    assert(s@ =~= utxo_suffix(pending as nat, processing as nat));
    s
}

/// The text of the UTXO line.
pub fn utxo_text(mature: u64, pending: u64, processing: u64) -> (s: String)
    ensures
        s@ == utxo_line(mature as nat, pending as nat, processing as nat),
{
    let mut s = String::new();
    s.append("UTXOs: ");
    push_separated(&mut s, mature);
    let suffix = utxo_suffix_string(pending, processing);
    s.append(suffix.as_str());
    assert(s@ =~= utxo_line(mature as nat, pending as nat, processing as nat));
    s
}

/// Renders the balance of the selected account.
pub struct BalancePane<'context> {
    context: &'context ManagerContext,
}

impl<'context> BalancePane<'context> {
    /// The context that this pane was made with.
    pub closed spec fn context(&self) -> &'context ManagerContext {
        self.context
    }

    pub fn new(context: &'context ManagerContext) -> (pane: Self)
        ensures
            pane.context() == context,
    {
        Self { context }
    }

    /// The lines of the pane for the given balance: without a balance only
    /// "N/A"; while the node syncs only the mature amount and a notice;
    /// otherwise the mature amount, then, if the monitor is on and a price
    /// list is known, one line per price symbol in ascending order of symbol,
    /// then the pending and outgoing amounts that are not zero, and the UTXO
    /// counts unless a transaction is being composed. `price_symbols` are the
    /// symbols of the price list, when one is known.
    pub fn render(
        &self,
        balance: Option<Balance>,
        is_synced: bool,
        market_monitor: bool,
        price_symbols: Option<Vec<String>>,
    ) -> (lines: Vec<BalanceLine>)
        ensures
            market_shown(balance, is_synced, market_monitor, price_symbols) ==> exists|sorted: Seq<String>|
                {
                    &&& strings_sorted(sorted)
                    &&& sorted.to_multiset() == price_symbols.unwrap()@.to_multiset()
                    &&& lines@ == balance_lines(
                        self.context().transaction_kind is Some,
                        balance,
                        is_synced,
                        Some(sorted),
                    )
                },
            !market_shown(balance, is_synced, market_monitor, price_symbols) ==> lines@ == balance_lines(
                self.context().transaction_kind is Some,
                balance,
                is_synced,
                None,
            ),
    {
        let ghost composing = self.context().transaction_kind is Some;
        let ghost shown = market_shown(balance, is_synced, market_monitor, price_symbols);
        let ghost input = price_symbols;
        let mut lines: Vec<BalanceLine> = Vec::new();
        lines.push(BalanceLine::Space);
        match balance {
            None => {
                lines.push(BalanceLine::NotAvailable);
                assert(lines@ =~= balance_lines(composing, balance, is_synced, None));
            },
            Some(b) => {
                if !is_synced {
                    lines.push(BalanceLine::Mature { amount: b.mature, syncing: true });
                    lines.push(BalanceLine::SyncWarning);
                    assert(lines@ =~= balance_lines(composing, balance, is_synced, None));
                } else {
                    lines.push(BalanceLine::Mature { amount: b.mature, syncing: false });
                    let ghost head = lines@;
                    let mut market: Option<Vec<String>> = None;
                    if market_monitor {
                        if let Some(symbols) = price_symbols {
                            let sorted = sort_strings(symbols);
                            let mut i: usize = 0;
                            while i < sorted.len()
                                invariant
                                    0 <= i <= sorted.len(),
                                    lines@ == head + market_lines(b.mature, sorted@.take(i as int)),
                                decreases sorted.len() - i,
                            {
                                lines.push(BalanceLine::MarketPrice { amount: b.mature, symbol: sorted[i].clone() });
                                assert(sorted@.take(i + 1) =~= sorted@.take(i as int).push(sorted@[i as int]));
                                assert(lines@ =~= head + market_lines(b.mature, sorted@.take(i + 1)));
                                i += 1;
                            }
                            assert(sorted@.take(i as int) =~= sorted@);
                            market = Some(sorted);
                        }
                    }
                    let ghost market_seq: Option<Seq<String>> = match market {
                        Some(v) => Some(v@),
                        None => None,
                    };
                    assert(lines@ =~= head + match market_seq {
                        Some(symbols) => market_lines(b.mature, symbols),
                        None => Seq::empty(),
                    });
                    let ghost middle = lines@;
                    if b.pending != 0 {
                        lines.push(BalanceLine::Pending { amount: b.pending });
                    }
                    if b.outgoing != 0 {
                        lines.push(BalanceLine::Sending { amount: b.outgoing });
                    }
                    lines.push(BalanceLine::Space);
                    if self.context.transaction_kind.is_none() {
                        lines.push(
                            BalanceLine::Utxos {
                                mature: b.mature_utxo_count,
                                pending: b.pending_utxo_count,
                                processing: b.stasis_utxo_count,
                            },
                        );
                    }
                    assert(lines@ =~= balance_lines(composing, balance, is_synced, market_seq));
                    proof {
                        if shown {
                            assert(market_seq == Some(market.unwrap()@));
                        } else {
                            assert(market_seq is None);
                        }
                    }
                }
            },
        }
        lines
    }
}

} // verus!
