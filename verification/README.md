# kaspa_ng_core

The core of the Kaspa NG wallet interface as a verified library.

- `src/application.rs`: the `Core` state: module navigation with a back
  stack, the handling of application and wallet events (each returns the
  effect that the caller performs), keyboard shortcuts and the plan of each
  frame, with the laws that relate them.
- `src/account_load.rs`: the steps of loading the accounts of an opened
  wallet, from each step's outcome to the next steps.
- `src/wallet_order.rs`: the order of wallet descriptors and the sort of the
  wallet list.
- `src/balance.rs`: the lines of the balance pane and the UTXO line text.
- `src/format.rs`: decimal and thousands-separated numbers.
- `src/theme.rs`: colours, the default palette, the theme store and the
  colours of metric groups.
- `app/`: the egui side: conversions, the full theme with its sizes, and
  drawing of the planned layout and balance lines.
