//! The state and decisions of the Kaspa NG desktop core, verified: module
//! navigation, the handling of application and wallet events, keyboard
//! shortcuts, frame planning, the balance pane and the theme colours.

pub mod account_load;
pub mod application;
pub mod balance;
pub mod format;
pub mod theme;
pub mod wallet_order;
