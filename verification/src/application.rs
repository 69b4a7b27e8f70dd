use vstd::prelude::*;

use crate::wallet_order::{descriptors_sorted, sort_descriptors};

verus! {

/// The modules of the application that the core names; every other
/// registered module is `Other`, told apart by its registry number.
#[derive(Debug, Clone, Copy, PartialEq, Eq, Structural)]
pub enum ModuleKind {
    Overview,
    Changelog,
    Welcome,
    WalletOpen,
    WalletCreate,
    Testing,
    Logs,
    Other { id: u64 },
}

/// The kind of a Kaspa network.
#[derive(Debug, Clone, Copy, PartialEq, Eq, Structural)]
pub enum NetworkType {
    Mainnet,
    Testnet,
    Devnet,
    Simnet,
}

/// A Kaspa network: its type and, for testnets, its number.
#[derive(Debug, Clone, Copy, PartialEq, Eq)]
pub struct NetworkId {
    pub network_type: NetworkType,
    pub suffix: Option<u32>,
}

/// How far the connected node has synced, as the wallet reports it.
#[derive(Debug, Clone, Copy, PartialEq, Eq, Structural)]
pub enum SyncState {
    Proof { level: u64 },
    Headers { headers: u64, progress: u64 },
    Blocks { blocks: u64, progress: u64 },
    UtxoSync { chunks: u64, total: u64 },
    TrustSync { processed: u64, total: u64 },
    UtxoResync,
    NotSynced,
    Synced,
}

/// The anti-phishing hint that the user set for a wallet.
#[derive(Debug, Clone, PartialEq, Eq)]
pub struct Hint {
    pub text: String,
}

/// A wallet file and its title.
#[derive(Debug, Clone, PartialEq, Eq)]
pub struct WalletDescriptor {
    pub title: Option<String>,
    pub filename: String,
}

/// The number under which the application knows a wallet account.
#[derive(Debug, Clone, Copy, PartialEq, Eq, Structural)]
pub struct AccountId {
    pub id: u64,
}

/// A condition of the node that the user must be told about.
#[derive(Debug, Clone, PartialEq, Eq)]
pub enum Exception {
    UtxoIndexNotEnabled { url: Option<String> },
}

/// The settings that the core reads.
#[derive(Debug, Clone, PartialEq, Eq)]
pub struct Settings {
    /// The application version that last stored these settings.
    pub version: String,
    /// Whether the first-run setup has been completed.
    pub initialized: bool,
    /// The network that the node settings select.
    pub network: NetworkId,
    /// Whether market prices are shown.
    pub market_monitor: bool,
}

/// The connection and wallet state that the user interface shows.
#[derive(Debug, Clone, PartialEq, Eq)]
pub struct State {
    pub is_open: bool,
    pub is_connected: bool,
    pub is_synced: Option<bool>,
    pub sync_state: Option<SyncState>,
    pub server_version: Option<String>,
    pub url: Option<String>,
    pub network_id: Option<NetworkId>,
    pub current_daa_score: Option<u64>,
}

/// The state before any connection or wallet.
pub open spec fn initial_state() -> State {
    State {
        is_open: false,
        is_connected: false,
        is_synced: None,
        sync_state: None,
        server_version: None,
        url: None,
        network_id: None,
        current_daa_score: None,
    }
}

impl State {
    pub fn new() -> (s: State)
        ensures
            s == initial_state(),
    {
        State {
            is_open: false,
            is_connected: false,
            is_synced: None,
            sync_state: None,
            server_version: None,
            url: None,
            network_id: None,
            current_daa_score: None,
        }
    }
}

/// The accounts of the open wallet, in the order of their descriptors.
#[derive(Debug)]
pub struct AccountCollection {
    accounts: Vec<AccountId>,
}

impl View for AccountCollection {
    type V = Seq<AccountId>;

    closed spec fn view(&self) -> Seq<AccountId> {
        self.accounts@
    }
}

impl AccountCollection {
    pub fn from_accounts(accounts: Vec<AccountId>) -> (c: AccountCollection)
        ensures
            c@ == accounts@,
    {
        AccountCollection { accounts }
    }

    /// Whether the collection holds the account.
    pub fn contains(&self, id: AccountId) -> (found: bool)
        ensures
            found == self@.contains(id),
    {
        let mut i: usize = 0;
        while i < self.accounts.len()
            invariant
                0 <= i <= self.accounts.len(),
                forall|k: int| 0 <= k < i ==> self.accounts@[k] != id,
            decreases self.accounts.len() - i,
        {
            if self.accounts[i] == id {
                return true;
            }
            i += 1;
        }
        false
    }

    pub fn accounts(&self) -> (a: &Vec<AccountId>)
        ensures
            a@ == self@,
    {
        &self.accounts
    }
}

/// What the caller must do when `select_with_type_id` switched modules.
#[derive(Debug, Clone, Copy, PartialEq, Eq, Structural)]
pub struct Selection {
    /// The module that must be activated.
    pub activate: ModuleKind,
    /// Whether node logs must be collected: only while the log module shows.
    pub update_logs: bool,
}

/// What the core holds, as values.
pub struct CoreView {
    pub is_shutdown_pending: bool,
    pub settings_storage_requested: bool,
    pub last_settings_storage_request: u128,
    pub deactivation: Option<ModuleKind>,
    pub module: ModuleKind,
    pub stack: Seq<ModuleKind>,
    pub modules: Seq<ModuleKind>,
    pub state: State,
    pub hint: Option<Hint>,
    pub discard_hint: bool,
    pub exception: Option<Exception>,
    pub settings: Settings,
    pub wallet_descriptor: Option<WalletDescriptor>,
    pub wallet_list: Seq<WalletDescriptor>,
    pub account_collection: Option<Seq<AccountId>>,
}

/// The state of the application that its events and key presses change.
pub struct Core {
    is_shutdown_pending: bool,
    settings_storage_requested: bool,
    /// When settings storage was last requested, in nanoseconds of the
    /// application's clock.
    last_settings_storage_request: u128,
    deactivation: Option<ModuleKind>,
    module: ModuleKind,
    stack: Vec<ModuleKind>,
    modules: Vec<ModuleKind>,
    pub settings: Settings,
    state: State,
    hint: Option<Hint>,
    discard_hint: bool,
    exception: Option<Exception>,
    pub wallet_descriptor: Option<WalletDescriptor>,
    pub wallet_list: Vec<WalletDescriptor>,
    pub account_collection: Option<AccountCollection>,
}

impl View for Core {
    type V = CoreView;

    closed spec fn view(&self) -> CoreView {
        CoreView {
            is_shutdown_pending: self.is_shutdown_pending,
            settings_storage_requested: self.settings_storage_requested,
            last_settings_storage_request: self.last_settings_storage_request,
            deactivation: self.deactivation,
            module: self.module,
            stack: self.stack@,
            modules: self.modules@,
            state: self.state,
            hint: self.hint,
            discard_hint: self.discard_hint,
            exception: self.exception,
            settings: self.settings,
            wallet_descriptor: self.wallet_descriptor,
            wallet_list: self.wallet_list@,
            account_collection: match self.account_collection {
                Some(c) => Some(c@),
                None => None,
            },
        }
    }
}


/// What a transaction record is bound to.
#[derive(Debug, Clone, Copy, PartialEq, Eq, Structural)]
pub enum Binding {
    /// An account of the open wallet.
    Account(AccountId),
    /// A UTXO context that the application made itself.
    Custom,
}

/// An event of the wallet framework, with the values that the core reads.
#[derive(Debug)]
pub enum WalletEvent {
    UtxoProcStart,
    UtxoProcStop,
    UtxoProcError,
    Connect { url: Option<String>, network_id: NetworkId },
    Disconnect,
    UtxoIndexNotEnabled { url: Option<String> },
    SyncState { sync_state: SyncState },
    ServerStatus { is_synced: bool, server_version: String, url: Option<String>, network_id: NetworkId },
    WalletHint { hint: Option<Hint> },
    /// A wallet was opened; the accounts are those of its account
    /// descriptors, when the wallet sent them.
    WalletOpen { wallet_descriptor: Option<WalletDescriptor>, account_descriptors: Option<Vec<AccountId>> },
    WalletReload { wallet_descriptor: Option<WalletDescriptor>, account_descriptors: Option<Vec<AccountId>> },
    AccountActivation,
    AccountCreation,
    AccountUpdate { account_id: AccountId },
    WalletError,
    WalletClose,
    AccountSelection,
    DAAScoreChange { current_daa_score: u64 },
    Scan,
    Stasis,
    Change,
    /// A transaction was confirmed.
    Maturity { binding: Binding },
    /// A new, unconfirmed transaction was observed.
    External { binding: Binding },
    Outgoing { binding: Binding },
    Pending { binding: Binding },
    /// A pending transaction was removed by a reorganisation.
    Reorg { binding: Binding },
    /// The balance of a UTXO context changed.
    Balance { id: AccountId },
}

/// An event of the application. The values that only pass through the core
/// (a release, a metrics snapshot, a notification, the private key data)
/// stay with the caller, which the returned `Effect` tells what to do.
#[derive(Debug)]
pub enum Event {
    ThemeChange,
    VersionUpdate,
    StoreSettings,
    UpdateLogs,
    Metrics,
    Exit,
    Error { message: String },
    WalletList { wallet_list: Vec<WalletDescriptor> },
    Notify,
    Close,
    UnlockSuccess,
    UnlockFailure,
    PrvKeyDataInfo,
    Wallet { event: WalletEvent },
}

/// How many of each account's latest transactions are loaded when a wallet
/// opens.
pub const TRANSACTION_PAGE: u64 = 128;

/// What the caller must do after the core handled an event.
#[derive(Debug, PartialEq, Eq)]
pub enum Effect {
    Nothing,
    /// Let every account of the collection update its theme.
    UpdateAccountThemes,
    /// Keep the release of the event as the latest release.
    StoreRelease,
    /// Keep the metrics snapshot of the event.
    StoreMetrics,
    /// Replace the metrics by an empty snapshot.
    ResetMetrics,
    /// Close the application window.
    CloseViewport,
    /// Show the message as an error notification.
    NotifyError { message: String },
    /// Show the notification of the event.
    RenderNotification,
    /// Keep the private key data of the event.
    StorePrvKeyData,
    /// Reset every module.
    ResetModules,
    /// Start an `AccountLoad` of the collection's accounts on the network:
    /// their private key data, their first `TRANSACTION_PAGE` transactions,
    /// then their activation.
    LoadAccounts { network_id: NetworkId },
    /// Update the account from the descriptor of the event.
    UpdateAccount { account_id: AccountId },
    /// Replace or insert the record of the event in the account's
    /// transactions, as confirmed or as still processing.
    InsertTransaction { account_id: AccountId, confirmed: bool },
    /// Remove the record of the event from the account's transactions.
    RemoveTransaction { account_id: AccountId },
    /// Update the account's balance from the event.
    UpdateBalance { account_id: AccountId },
}

/// An event that the core refuses.
#[derive(Debug, PartialEq, Eq)]
pub enum CoreError {
    /// A wallet opened without account descriptors.
    WalletOpenAccountDescriptors,
}

/// The core handles every event but records bound to a custom UTXO context.
pub open spec fn supported_event(event: Event) -> bool {
    match event {
        Event::Wallet { event: e } => match e {
            WalletEvent::Maturity { binding } => binding is Account,
            WalletEvent::External { binding } => binding is Account,
            WalletEvent::Outgoing { binding } => binding is Account,
            WalletEvent::Pending { binding } => binding is Account,
            WalletEvent::Reorg { binding } => binding is Account,
            _ => true,
        },
        _ => true,
    }
}

/// Whether the view's account collection holds the account.
pub open spec fn has_account(v: CoreView, id: AccountId) -> bool {
    match v.account_collection {
        Some(c) => c.contains(id),
        None => false,
    }
}

/// The effect for a record bound to `binding`: `found` when the open wallet
/// has the account, `Nothing` otherwise.
pub open spec fn record_effect(v: CoreView, binding: Binding, found: Effect) -> Effect {
    match binding {
        Binding::Account(id) => if has_account(v, id) { found } else { Effect::Nothing },
        Binding::Custom => Effect::Nothing,
    }
}

/// The account that a record is bound to.
pub open spec fn bound_account(binding: Binding) -> AccountId {
    match binding {
        Binding::Account(id) => id,
        Binding::Custom => AccountId { id: 0 },
    }
}

/// The view after a disconnection: no connection and nothing known of the node.
pub open spec fn disconnected(v: CoreView) -> CoreView {
    CoreView {
        state: State {
            is_connected: false,
            sync_state: None,
            is_synced: None,
            server_version: None,
            url: None,
            network_id: None,
            current_daa_score: None,
            ..v.state
        },
        ..v
    }
}

/// The view after the wallet closed: no hint, no open wallet, no accounts.
pub open spec fn wallet_closed(v: CoreView) -> CoreView {
    CoreView {
        hint: None,
        state: State { is_open: false, ..v.state },
        account_collection: None,
        wallet_descriptor: None,
        ..v
    }
}

/// The network on which the accounts of an opened wallet are loaded: the
/// connected one, or the one of the node settings.
pub open spec fn open_network(v: CoreView) -> NetworkId {
    match v.state.network_id {
        Some(n) => n,
        None => v.settings.network,
    }
}



/// The open wallet has an account exactly when one of the accounts of its
/// collection, at any position, is that account; without a collection it
/// has none.
pub proof fn lemma_has_account_exactly(v: CoreView, id: AccountId)
    ensures
        has_account(v, id) <==> (v.account_collection is Some && exists|i: int|
            0 <= i < v.account_collection.unwrap().len() && v.account_collection.unwrap()[i] == id),
{
    if let Some(c) = v.account_collection {
        if c.contains(id) {
            let i = choose|i: int| 0 <= i < c.len() && c[i] == id;
            assert(0 <= i < c.len() && c[i] == id);
        }
    }
}

/// After a wallet opens with the accounts `ids`, a record or balance update
/// for any of them reaches it, and one for any other account is dropped.
pub proof fn lemma_opened_accounts_receive_records(v: CoreView, ids: Seq<AccountId>, id: AccountId, found: Effect)
    ensures
        ({
            let opened = CoreView { account_collection: Some(ids), ..v };
            &&& ids.contains(id) ==> has_account(opened, id)
                && record_effect(opened, Binding::Account(id), found) == found
            &&& !ids.contains(id) ==> !has_account(opened, id)
                && record_effect(opened, Binding::Account(id), found) == Effect::Nothing
        }),
        forall|i: int| 0 <= i < ids.len() ==> has_account(CoreView { account_collection: Some(ids), ..v }, #[trigger] ids[i]),
{
    assert forall|i: int| 0 <= i < ids.len() implies has_account(CoreView { account_collection: Some(ids), ..v }, #[trigger] ids[i]) by {
        assert(ids.contains(ids[i]));
    }
}

/// Without an open wallet no record or balance update reaches an account.
pub proof fn lemma_closed_wallet_drops_records(v: CoreView, binding: Binding, found: Effect)
    requires
        v.account_collection is None,
    ensures
        record_effect(v, binding, found) == Effect::Nothing,
{
}


/// A disconnection forgets everything known of the node (connection, sync
/// state, node version, address, network, DAA score) and keeps whether a
/// wallet is open and everything outside the connection state.
pub proof fn lemma_disconnect_forgets_node(v: CoreView)
    ensures
        disconnected(v).state.is_open == v.state.is_open,
        !disconnected(v).state.is_connected,
        disconnected(v).state.is_synced is None,
        disconnected(v).state.sync_state is None,
        disconnected(v).state.server_version is None,
        disconnected(v).state.url is None,
        disconnected(v).state.network_id is None,
        disconnected(v).state.current_daa_score is None,
        disconnected(v) == (CoreView { state: disconnected(v).state, ..v }),
        v.state == initial_state() ==> disconnected(v) == v,
{
}

/// Closing the wallet forgets its hint, descriptor and accounts and marks it
/// closed, and keeps the connection state and everything else.
pub proof fn lemma_close_forgets_wallet(v: CoreView)
    ensures
        !wallet_closed(v).state.is_open,
        wallet_closed(v).hint is None,
        wallet_closed(v).wallet_descriptor is None,
        wallet_closed(v).account_collection is None,
        wallet_closed(v).state == (State { is_open: false, ..v.state }),
        wallet_closed(v) == (CoreView {
            hint: None,
            state: wallet_closed(v).state,
            wallet_descriptor: None,
            account_collection: None,
            ..v
        }),
{
}

/// The accounts of an opened wallet are loaded on the network of the
/// connected node when one is known, and on the network of the node
/// settings otherwise.
pub proof fn lemma_open_network(v: CoreView)
    ensures
        v.state.network_id is Some ==> open_network(v) == v.state.network_id.unwrap(),
        v.state.network_id is None ==> open_network(v) == v.settings.network,
{
}

/// A start shows the changelog exactly when the stored settings come from
/// another version, and the overview otherwise.
pub proof fn lemma_startup_module(stored: Seq<char>, package: Seq<char>)
    ensures
        (startup_module(stored, package) == ModuleKind::Changelog) == (stored != package),
        (startup_module(stored, package) == ModuleKind::Overview) == (stored == package),
{
}

/// The keys that have shortcuts; every other key is `Other`.
#[derive(Debug, Clone, Copy, PartialEq, Eq, Structural)]
pub enum Key {
    M,
    N,
    O,
    P,
    T,
    Other,
}

/// The modifier keys held during a key press.
#[derive(Debug, Clone, Copy, PartialEq, Eq, Structural)]
pub struct Modifiers {
    pub alt: bool,
    pub ctrl: bool,
    pub shift: bool,
    pub mac_cmd: bool,
    pub command: bool,
}

/// What a keyboard shortcut asks for.
#[derive(Debug, Clone, Copy, PartialEq, Eq, Structural)]
pub enum KeyCommand {
    Select(ModuleKind),
    ToggleMobile,
    TogglePortrait,
}

/// What the caller must do after a key press.
#[derive(Debug, Clone, Copy, PartialEq, Eq, Structural)]
pub enum KeyboardEffect {
    /// Activate the module that a shortcut switched to.
    Activate { activate: ModuleKind, update_logs: bool },
    /// Toggle the mobile layout of the device.
    ToggleMobile,
    /// Toggle the portrait layout of the device.
    TogglePortrait,
}

/// The shortcut of a key with Ctrl (or Command on a Mac).
pub open spec fn command_shortcut(key: Key) -> Option<KeyCommand> {
    match key {
        Key::O => Some(KeyCommand::Select(ModuleKind::WalletOpen)),
        Key::N => Some(KeyCommand::Select(ModuleKind::WalletCreate)),
        Key::M => Some(KeyCommand::ToggleMobile),
        Key::P => Some(KeyCommand::TogglePortrait),
        _ => None,
    }
}

/// The shortcut of a key with Ctrl (or Command) and Shift, which applies
/// after the one of `command_shortcut`.
pub open spec fn command_shift_shortcut(key: Key) -> Option<KeyCommand> {
    match key {
        Key::T => Some(KeyCommand::Select(ModuleKind::Testing)),
        Key::M => Some(KeyCommand::ToggleMobile),
        Key::P => Some(KeyCommand::TogglePortrait),
        _ => None,
    }
}

/// Whether Ctrl or Command is held.
pub open spec fn command_held(m: Modifiers) -> bool {
    m.ctrl || m.mac_cmd
}

/// The shortcuts that a key event triggers, in the order they apply.
pub open spec fn keyboard_commands(key: Key, pressed: bool, m: Modifiers) -> Seq<KeyCommand> {
    let first = if pressed && command_held(m) { command_shortcut(key) } else { None };
    let second = if pressed && command_held(m) && m.shift { command_shift_shortcut(key) } else { None };
    (match first { Some(c) => seq![c], None => Seq::empty() })
        + (match second { Some(c) => seq![c], None => Seq::empty() })
}

/// The effect of one shortcut on a view.
pub open spec fn command_effects(v: CoreView, c: KeyCommand) -> Seq<KeyboardEffect> {
    match c {
        KeyCommand::Select(t) => if v.module == t {
            Seq::empty()
        } else {
            seq![KeyboardEffect::Activate { activate: t, update_logs: t == ModuleKind::Logs }]
        },
        KeyCommand::ToggleMobile => seq![KeyboardEffect::ToggleMobile],
        KeyCommand::TogglePortrait => seq![KeyboardEffect::TogglePortrait],
    }
}

/// The view after one shortcut.
pub open spec fn command_view(v: CoreView, c: KeyCommand) -> CoreView {
    match c {
        KeyCommand::Select(t) => selected(v, t),
        _ => v,
    }
}

/// Every module that a shortcut selects is registered.
pub open spec fn shortcuts_registered(v: CoreView, cmds: Seq<KeyCommand>) -> bool {
    forall|i: int| 0 <= i < cmds.len() ==> match #[trigger] cmds[i] {
        KeyCommand::Select(t) => v.modules.contains(t),
        _ => true,
    }
}


/// Ctrl and Command are interchangeable: a key event triggers the same
/// shortcuts for any two sets of modifiers that agree on whether one of them
/// is held and on Shift.
pub proof fn lemma_shortcuts_ctrl_or_command(key: Key, pressed: bool, m1: Modifiers, m2: Modifiers)
    requires
        (m1.ctrl || m1.mac_cmd) == (m2.ctrl || m2.mac_cmd),
        m1.shift == m2.shift,
    ensures
        keyboard_commands(key, pressed, m1) == keyboard_commands(key, pressed, m2),
{
}

/// The shortcut table. A released key, or a key without Ctrl or Command,
/// triggers nothing. With Ctrl or Command: O opens a wallet, N creates one,
/// M toggles the mobile layout, P the portrait layout. With Shift too, T
/// selects the testing module, and M and P toggle twice.
pub proof fn lemma_shortcut_table(key: Key, pressed: bool, m: Modifiers)
    ensures
        !pressed || !(m.ctrl || m.mac_cmd) ==> keyboard_commands(key, pressed, m).len() == 0,
        pressed && (m.ctrl || m.mac_cmd) ==> {
            let c = keyboard_commands(key, pressed, m);
            &&& key == Key::O ==> c == seq![KeyCommand::Select(ModuleKind::WalletOpen)]
            &&& key == Key::N ==> c == seq![KeyCommand::Select(ModuleKind::WalletCreate)]
            &&& key == Key::Other ==> c.len() == 0
            &&& !m.shift ==> {
                &&& key == Key::M ==> c == seq![KeyCommand::ToggleMobile]
                &&& key == Key::P ==> c == seq![KeyCommand::TogglePortrait]
                &&& key == Key::T ==> c.len() == 0
            }
            &&& m.shift ==> {
                &&& key == Key::M ==> c == seq![KeyCommand::ToggleMobile, KeyCommand::ToggleMobile]
                &&& key == Key::P ==> c == seq![KeyCommand::TogglePortrait, KeyCommand::TogglePortrait]
                &&& key == Key::T ==> c == seq![KeyCommand::Select(ModuleKind::Testing)]
            }
        },
{
    let c = keyboard_commands(key, pressed, m);
    if pressed && (m.ctrl || m.mac_cmd) {
        if key == Key::O {
            assert(c =~= seq![KeyCommand::Select(ModuleKind::WalletOpen)]);
        } else if key == Key::N {
            assert(c =~= seq![KeyCommand::Select(ModuleKind::WalletCreate)]);
        } else if key == Key::M {
            if m.shift {
                assert(c =~= seq![KeyCommand::ToggleMobile, KeyCommand::ToggleMobile]);
            } else {
                assert(c =~= seq![KeyCommand::ToggleMobile]);
            }
        } else if key == Key::P {
            if m.shift {
                assert(c =~= seq![KeyCommand::TogglePortrait, KeyCommand::TogglePortrait]);
            } else {
                assert(c =~= seq![KeyCommand::TogglePortrait]);
            }
        } else if key == Key::T {
            if m.shift {
                assert(c =~= seq![KeyCommand::Select(ModuleKind::Testing)]);
            }
        }
    }
}

/// The effect of a shortcut on the view: a selection switches to its module
/// and asks to activate it unless it is already shown; a toggle changes no
/// state and asks for exactly that toggle.
pub proof fn lemma_shortcut_effects(v: CoreView, c: KeyCommand)
    ensures
        match c {
            KeyCommand::Select(t) => {
                &&& command_view(v, c).module == t
                &&& v.module == t ==> command_view(v, c) == v && command_effects(v, c).len() == 0
                &&& v.module != t ==> command_view(v, c).stack == v.stack.push(v.module)
                    && command_effects(v, c) == seq![KeyboardEffect::Activate { activate: t, update_logs: t == ModuleKind::Logs }]
            },
            KeyCommand::ToggleMobile => command_view(v, c) == v && command_effects(v, c) == seq![KeyboardEffect::ToggleMobile],
            KeyCommand::TogglePortrait => command_view(v, c) == v && command_effects(v, c) == seq![KeyboardEffect::TogglePortrait],
        },
{
}

/// How a frame is laid out.
#[derive(Debug, Clone, Copy, PartialEq, Eq, Structural)]
pub enum FrameLayout {
    /// The application is closing: nothing is drawn.
    ShuttingDown,
    /// The first-run setup is not done: only the welcome module is drawn.
    Welcome,
    /// The menu on top unless the module is modal, the status bar at the
    /// bottom, the module in the centre.
    Desktop { top_menu: bool },
    /// A phone-sized column between black margins: the status bar at the
    /// bottom of the window unless on mobile, then in the column the status
    /// bar, the mobile menu on mobile, and the module.
    Singular { bottom_status: bool, mobile_menu: bool },
}

/// What a frame does besides drawing its layout.
#[derive(Debug, Clone, Copy, PartialEq, Eq, Structural)]
pub struct FramePlan {
    /// Store the settings now.
    pub store_settings: bool,
    pub layout: FrameLayout,
    /// After drawing, deactivate the module that a switch left.
    pub deactivate: bool,
}

/// How the device shows the application.
#[derive(Debug, Clone, Copy, PartialEq, Eq, Structural)]
pub struct DisplayMode {
    /// The current module asks not to show the menu.
    pub module_modal: bool,
    /// The layout is a single phone-sized column.
    pub singular_layout: bool,
    pub mobile: bool,
}

/// How long a request to store the settings waits, in nanoseconds, so that
/// a burst of changes is stored once.
pub const SETTINGS_STORAGE_DELAY_NANOS: u128 = 5_000_000_000;

/// Whether a frame at `now` stores the settings: a storage request is
/// pending and more than the delay has passed since the last one.
pub open spec fn storage_due(v: CoreView, now: u128) -> bool {
    v.settings_storage_requested && now > v.last_settings_storage_request
        && now - v.last_settings_storage_request > SETTINGS_STORAGE_DELAY_NANOS
}

/// The view after a frame at `now`.
pub open spec fn after_frame(v: CoreView, now: u128) -> CoreView {
    if !v.is_shutdown_pending && storage_due(v, now) {
        CoreView { settings_storage_requested: false, ..v }
    } else {
        v
    }
}

/// The plan of a frame at `now`.
pub open spec fn frame_plan(v: CoreView, now: u128, mode: DisplayMode) -> FramePlan {
    if v.is_shutdown_pending {
        FramePlan { store_settings: false, layout: FrameLayout::ShuttingDown, deactivate: false }
    } else if !v.settings.initialized {
        FramePlan { store_settings: storage_due(v, now), layout: FrameLayout::Welcome, deactivate: false }
    } else if mode.singular_layout {
        FramePlan {
            store_settings: storage_due(v, now),
            layout: FrameLayout::Singular { bottom_status: !mode.mobile, mobile_menu: mode.mobile },
            deactivate: true,
        }
    } else {
        FramePlan {
            store_settings: storage_due(v, now),
            layout: FrameLayout::Desktop { top_menu: !mode.module_modal },
            deactivate: true,
        }
    }
}

/// A request to store the settings is served once: the frame that stores
/// them clears the request, so no later frame stores them again until the
/// next request.
pub proof fn lemma_settings_stored_once(v: CoreView, now: u128, later: u128)
    requires
        storage_due(v, now),
        !v.is_shutdown_pending,
    ensures
        !storage_due(after_frame(v, now), later),
{
}


/// Whatever the layout, a frame of a core that is not closing stores the
/// settings exactly when a storage request is pending and more than five
/// seconds have passed since it; and the frame clears the request exactly
/// when it stores the settings. A closing core stores nothing and changes
/// nothing.
pub proof fn lemma_frame_stores_settings(v: CoreView, now: u128, mode: DisplayMode)
    ensures
        !v.is_shutdown_pending ==> frame_plan(v, now, mode).store_settings == (v.settings_storage_requested
            && now > v.last_settings_storage_request
            && now - v.last_settings_storage_request > 5_000_000_000),
        after_frame(v, now).settings_storage_requested == (v.settings_storage_requested
            && !frame_plan(v, now, mode).store_settings),
        v.is_shutdown_pending ==> !frame_plan(v, now, mode).store_settings && after_frame(v, now) == v,
        after_frame(v, now) == (CoreView {
            settings_storage_requested: after_frame(v, now).settings_storage_requested,
            ..v
        }),
{
}

/// The layout of a frame: nothing while closing; the welcome module until
/// the setup is done; otherwise the phone-sized column exactly when the
/// layout is singular, with the mobile menu exactly on mobile and the
/// window's status bar exactly when not on mobile, or else the desktop
/// layout with the menu exactly when the module is not modal. Modules left by
/// a switch are deactivated exactly in the last two layouts.
pub proof fn lemma_frame_layout(v: CoreView, now: u128, mode: DisplayMode)
    ensures
        ({
            let plan = frame_plan(v, now, mode);
            &&& v.is_shutdown_pending ==> plan.layout == FrameLayout::ShuttingDown
            &&& !v.is_shutdown_pending && !v.settings.initialized ==> plan.layout == FrameLayout::Welcome
            &&& !v.is_shutdown_pending && v.settings.initialized && mode.singular_layout ==> plan.layout == (FrameLayout::Singular {
                bottom_status: !mode.mobile,
                mobile_menu: mode.mobile,
            })
            &&& !v.is_shutdown_pending && v.settings.initialized && !mode.singular_layout ==> plan.layout == (FrameLayout::Desktop {
                top_menu: !mode.module_modal,
            })
            &&& plan.deactivate == (!v.is_shutdown_pending && v.settings.initialized)
        }),
{
}

/// The current module and every module on the back stack are registered.
pub open spec fn navigation_wf(v: CoreView) -> bool {
    &&& v.modules.contains(v.module)
    &&& forall|i: int| 0 <= i < v.stack.len() ==> v.modules.contains(#[trigger] v.stack[i])
}

/// The view after `select_with_type_id`: switching to another module pushes
/// the current one on the back stack and marks it for deactivation.
pub open spec fn selected(v: CoreView, target: ModuleKind) -> CoreView {
    if v.module == target {
        v
    } else {
        CoreView {
            stack: v.stack.push(v.module),
            deactivation: Some(v.module),
            module: target,
            ..v
        }
    }
}

/// The view after `back`: the last module of the back stack becomes the
/// current one; an empty stack changes nothing.
pub open spec fn went_back(v: CoreView) -> CoreView {
    if v.stack.len() == 0 {
        v
    } else {
        CoreView { module: v.stack.last(), stack: v.stack.drop_last(), ..v }
    }
}


/// After a selection the selected module is shown; the module shown before
/// is marked for deactivation and pushed on the back stack exactly when it
/// differs from the selected one; nothing else changes.
pub proof fn lemma_select_shows_target(v: CoreView, target: ModuleKind)
    ensures
        selected(v, target).module == target,
        v.module != target ==> selected(v, target).deactivation == Some(v.module)
            && selected(v, target).stack == v.stack.push(v.module),
        v.module == target ==> selected(v, target).deactivation == v.deactivation
            && selected(v, target).stack == v.stack,
        selected(v, target) == (CoreView {
            module: target,
            stack: selected(v, target).stack,
            deactivation: selected(v, target).deactivation,
            ..v
        }),
{
}

/// Going back shows the last module of the back stack and removes it; with
/// an empty back stack nothing changes.
pub proof fn lemma_back_pops_stack(v: CoreView)
    ensures
        v.stack.len() > 0 ==> went_back(v).module == v.stack[v.stack.len() - 1]
            && went_back(v).stack == v.stack.subrange(0, v.stack.len() - 1)
            && went_back(v) == (CoreView { module: went_back(v).module, stack: went_back(v).stack, ..v }),
        v.stack.len() == 0 ==> went_back(v) == v,
{
}

/// Going back after switching to another module shows the module shown
/// before, with the back stack as it was; only the left module stays marked
/// for deactivation.
pub proof fn lemma_back_undoes_select(v: CoreView, target: ModuleKind)
    requires
        v.module != target,
    ensures
        went_back(selected(v, target)) == (CoreView { deactivation: Some(v.module), ..v }),
{
    assert(selected(v, target).stack.drop_last() =~= v.stack);
}

/// After a switch to another module there is a module to go back to.
pub proof fn lemma_switch_fills_stack(v: CoreView, target: ModuleKind)
    requires
        v.module != target,
    ensures
        selected(v, target).stack.len() == v.stack.len() + 1,
        selected(v, target).stack.len() > 0,
        selected(v, target).stack.last() == v.module,
{
}

/// Selecting the module that is shown changes nothing.
pub proof fn lemma_select_current_is_noop(v: CoreView)
    ensures
        selected(v, v.module) == v,
{
}

/// Switching and going back keep every shown module registered.
pub proof fn lemma_navigation_keeps_registration(v: CoreView, target: ModuleKind)
    requires
        navigation_wf(v),
        v.modules.contains(target),
    ensures
        navigation_wf(selected(v, target)),
        navigation_wf(went_back(v)),
{
    let s = selected(v, target);
    assert forall|i: int| 0 <= i < s.stack.len() implies s.modules.contains(#[trigger] s.stack[i]) by {
        if v.module != target && i == v.stack.len() {
        } else {
            assert(s.stack[i] == v.stack[i]);
        }
    }
    if v.stack.len() > 0 {
        let b = went_back(v);
        assert(v.modules.contains(v.stack[v.stack.len() - 1]));
        assert forall|i: int| 0 <= i < b.stack.len() implies b.modules.contains(#[trigger] b.stack[i]) by {
            assert(b.stack[i] == v.stack[i]);
        }
    }
}

/// The first module of a start: the changelog when the stored settings were
/// written by another version of the application, the overview otherwise.
pub open spec fn startup_module(stored_version: Seq<char>, package_version: Seq<char>) -> ModuleKind {
    if stored_version != package_version {
        ModuleKind::Changelog
    } else {
        ModuleKind::Overview
    }
}

impl Core {
    /// The core is well formed: every module that it shows or can go back
    /// to is registered.
    pub open spec fn wf(&self) -> bool {
        navigation_wf(self@)
    }

    /// The core at start: no connection, no wallet, on the overview, or on
    /// the changelog when the settings were stored by another version, in
    /// which case the settings take the package version and the returned
    /// flag asks that they be stored now.
    pub fn new(mut settings: Settings, modules: Vec<ModuleKind>, package_version: &str, now: u128) -> (res: (Core, bool))
        requires
            modules@.contains(ModuleKind::Overview),
            settings.version@ != package_version@ ==> modules@.contains(ModuleKind::Changelog),
        ensures
            res.0.wf(),
            res.0@.module == startup_module(settings.version@, package_version@),
            res.1 == (settings.version@ != package_version@),
            res.0@.settings.version@ == package_version@,
            res.0@.settings.initialized == settings.initialized,
            res.0@.settings.network == settings.network,
            res.0@.settings.market_monitor == settings.market_monitor,
            res.0@.modules == modules@,
            res.0@.stack.len() == 0,
            res.0@.deactivation is None,
            !res.0@.is_shutdown_pending,
            !res.0@.settings_storage_requested,
            res.0@.last_settings_storage_request == now,
            res.0@.state == initial_state(),
            res.0@.hint is None,
            !res.0@.discard_hint,
            res.0@.exception is None,
            res.0@.wallet_descriptor is None,
            res.0@.wallet_list.len() == 0,
            res.0@.account_collection is None,
    {
        let current = package_version.to_owned();
        let store = !(settings.version == current);
        let module = if store {
            settings.version = current;
            ModuleKind::Changelog
        } else {
            ModuleKind::Overview
        };
        let core = Core {
            is_shutdown_pending: false,
            settings_storage_requested: false,
            last_settings_storage_request: now,
            deactivation: None,
            module,
            stack: Vec::new(),
            modules,
            settings,
            state: State::new(),
            hint: None,
            discard_hint: false,
            exception: None,
            wallet_descriptor: None,
            wallet_list: Vec::new(),
            account_collection: None,
        };
        (core, store)
    }

    /// Switches to the registered module `type_id`. Switching to another
    /// module than the current one pushes the current one on the back stack
    /// and marks it for deactivation; the result then names the module to
    /// activate and whether logs are collected. Selecting the current module
    /// changes nothing. The logs flag is the one of the native build, which
    /// collects node logs; a web build has no such flag and ignores it.
    pub fn select_with_type_id(&mut self, type_id: ModuleKind) -> (activation: Option<Selection>)
        requires
            old(self).wf(),
            old(self)@.modules.contains(type_id),
        ensures
            final(self).wf(),
            final(self)@ == selected(old(self)@, type_id),
            old(self)@.module == type_id ==> activation is None,
            old(self)@.module != type_id ==> activation == Some(
                Selection { activate: type_id, update_logs: type_id == ModuleKind::Logs },
            ),
    {
        if self.module != type_id {
            let previous = self.module;
            self.stack.push(previous);
            self.deactivation = Some(previous);
            self.module = type_id;
            proof {
                assert(self@ =~= selected(old(self)@, type_id));
            }
            Some(Selection { activate: type_id, update_logs: type_id == ModuleKind::Logs })
        } else {
            None
        }
    }


    /// Sets the accounts of the opened wallet, in the order of their
    /// descriptors, and asks the caller to load them on `network_id`.
    fn load_accounts(&mut self, network_id: NetworkId, account_descriptors: Vec<AccountId>) -> (effect: Effect)
        ensures
            final(self)@ == (CoreView { account_collection: Some(account_descriptors@), ..old(self)@ }),
            effect == (Effect::LoadAccounts { network_id }),
    {
        self.account_collection = Some(AccountCollection::from_accounts(account_descriptors));
        Effect::LoadAccounts { network_id }
    }

    /// Whether the open wallet has the account.
    fn has_account(&self, id: AccountId) -> (found: bool)
        ensures
            found == has_account(self@, id),
    {
        match &self.account_collection {
            Some(c) => c.contains(id),
            None => false,
        }
    }

    /// The effect for a transaction record bound to `binding`.
    fn record_effect(&self, binding: Binding, confirmed: Option<bool>) -> (effect: Effect)
        requires
            binding is Account,
        ensures
            effect == record_effect(
                self@,
                binding,
                match confirmed {
                    Some(c) => Effect::InsertTransaction { account_id: bound_account(binding), confirmed: c },
                    None => Effect::RemoveTransaction { account_id: bound_account(binding) },
                },
            ),
    {
        match binding {
            Binding::Account(id) => {
                if self.has_account(id) {
                    match confirmed {
                        Some(c) => Effect::InsertTransaction { account_id: id, confirmed: c },
                        None => Effect::RemoveTransaction { account_id: id },
                    }
                } else {
                    Effect::Nothing
                }
            },
            Binding::Custom => Effect::Nothing,
        }
    }

    /// Handles one event of the application, at `now` on the application's
    /// clock (in nanoseconds), and says what the caller must do next.
    /// `Exit` is handled as the native build does (shut down and close the
    /// window); a web build ignores it.
    pub fn handle_events(&mut self, event: Event, now: u128) -> (result: Result<Effect, CoreError>)
        requires
            old(self).wf(),
            supported_event(event),
        ensures
            final(self).wf(),
            match event {
                Event::ThemeChange => final(self)@ == old(self)@ && result == Ok::<Effect, CoreError>(
                    if old(self)@.account_collection is Some { Effect::UpdateAccountThemes } else { Effect::Nothing },
                ),
                Event::VersionUpdate => final(self)@ == old(self)@ && result == Ok::<Effect, CoreError>(Effect::StoreRelease),
                Event::StoreSettings => final(self)@ == (CoreView {
                    settings_storage_requested: true,
                    last_settings_storage_request: now,
                    ..old(self)@
                }) && result == Ok::<Effect, CoreError>(Effect::Nothing),
                Event::Metrics => final(self)@ == old(self)@ && result == Ok::<Effect, CoreError>(Effect::StoreMetrics),
                Event::Exit => final(self)@ == (CoreView { is_shutdown_pending: true, ..old(self)@ })
                    && result == Ok::<Effect, CoreError>(Effect::CloseViewport),
                Event::Error { message } => final(self)@ == old(self)@
                    && result == Ok::<Effect, CoreError>(Effect::NotifyError { message }),
                Event::WalletList { wallet_list } => final(self)@ == (CoreView {
                    wallet_list: final(self)@.wallet_list,
                    ..old(self)@
                }) && descriptors_sorted(final(self)@.wallet_list)
                    && final(self)@.wallet_list.to_multiset() == wallet_list@.to_multiset()
                    && result == Ok::<Effect, CoreError>(Effect::Nothing),
                Event::Notify => final(self)@ == old(self)@ && result == Ok::<Effect, CoreError>(Effect::RenderNotification),
                Event::PrvKeyDataInfo => final(self)@ == old(self)@ && result == Ok::<Effect, CoreError>(Effect::StorePrvKeyData),
                Event::Wallet { event: e } => match e {
                    WalletEvent::Connect { url, network_id } => final(self)@ == (CoreView {
                        state: State { is_connected: true, url, network_id: Some(network_id), ..old(self)@.state },
                        ..old(self)@
                    }) && result == Ok::<Effect, CoreError>(Effect::Nothing),
                    WalletEvent::Disconnect => final(self)@ == disconnected(old(self)@)
                        && result == Ok::<Effect, CoreError>(Effect::ResetMetrics),
                    WalletEvent::UtxoIndexNotEnabled { url } => final(self)@ == (CoreView {
                        exception: Some(Exception::UtxoIndexNotEnabled { url }),
                        ..old(self)@
                    }) && result == Ok::<Effect, CoreError>(Effect::Nothing),
                    WalletEvent::SyncState { sync_state } => final(self)@ == (CoreView {
                        state: State { sync_state: Some(sync_state), ..old(self)@.state },
                        ..old(self)@
                    }) && result == Ok::<Effect, CoreError>(Effect::Nothing),
                    WalletEvent::ServerStatus { is_synced, server_version, url, network_id } => final(self)@ == (CoreView {
                        state: State {
                            is_synced: Some(is_synced),
                            server_version: Some(server_version),
                            url,
                            network_id: Some(network_id),
                            ..old(self)@.state
                        },
                        ..old(self)@
                    }) && result == Ok::<Effect, CoreError>(Effect::Nothing),
                    WalletEvent::WalletHint { hint } => final(self)@ == (CoreView {
                        hint,
                        discard_hint: false,
                        ..old(self)@
                    }) && result == Ok::<Effect, CoreError>(Effect::Nothing),
                    WalletEvent::WalletOpen { wallet_descriptor, account_descriptors }
                    | WalletEvent::WalletReload { wallet_descriptor, account_descriptors } => match account_descriptors {
                        Some(ids) => final(self)@ == (CoreView {
                            state: State { is_open: true, ..old(self)@.state },
                            wallet_descriptor,
                            account_collection: Some(ids@),
                            ..old(self)@
                        }) && result == Ok::<Effect, CoreError>(Effect::LoadAccounts { network_id: open_network(old(self)@) }),
                        None => final(self)@ == (CoreView {
                            state: State { is_open: true, ..old(self)@.state },
                            wallet_descriptor,
                            ..old(self)@
                        }) && result == Err::<Effect, CoreError>(CoreError::WalletOpenAccountDescriptors),
                    },
                    WalletEvent::AccountUpdate { account_id } => final(self)@ == old(self)@
                        && result == Ok::<Effect, CoreError>(
                        if has_account(old(self)@, account_id) { Effect::UpdateAccount { account_id } } else { Effect::Nothing },
                    ),
                    WalletEvent::WalletClose => final(self)@ == wallet_closed(old(self)@)
                        && result == Ok::<Effect, CoreError>(Effect::ResetModules),
                    WalletEvent::DAAScoreChange { current_daa_score } => final(self)@ == (CoreView {
                        state: State { current_daa_score: Some(current_daa_score), ..old(self)@.state },
                        ..old(self)@
                    }) && result == Ok::<Effect, CoreError>(Effect::Nothing),
                    WalletEvent::Maturity { binding } => final(self)@ == old(self)@
                        && result == Ok::<Effect, CoreError>(record_effect(
                        old(self)@,
                        binding,
                        Effect::InsertTransaction { account_id: bound_account(binding), confirmed: true },
                    )),
                    WalletEvent::External { binding }
                    | WalletEvent::Outgoing { binding }
                    | WalletEvent::Pending { binding } => final(self)@ == old(self)@
                        && result == Ok::<Effect, CoreError>(record_effect(
                        old(self)@,
                        binding,
                        Effect::InsertTransaction { account_id: bound_account(binding), confirmed: false },
                    )),
                    WalletEvent::Reorg { binding } => final(self)@ == old(self)@
                        && result == Ok::<Effect, CoreError>(record_effect(
                        old(self)@,
                        binding,
                        Effect::RemoveTransaction { account_id: bound_account(binding) },
                    )),
                    WalletEvent::Balance { id } => final(self)@ == old(self)@
                        && result == Ok::<Effect, CoreError>(
                        if has_account(old(self)@, id) { Effect::UpdateBalance { account_id: id } } else { Effect::Nothing },
                    ),
                    _ => final(self)@ == old(self)@ && result == Ok::<Effect, CoreError>(Effect::Nothing),
                },
                _ => final(self)@ == old(self)@ && result == Ok::<Effect, CoreError>(Effect::Nothing),
            },
    {
        match event {
            Event::ThemeChange => {
                if self.account_collection.is_some() {
                    Ok(Effect::UpdateAccountThemes)
                } else {
                    Ok(Effect::Nothing)
                }
            },
            Event::VersionUpdate => Ok(Effect::StoreRelease),
            Event::StoreSettings => {
                self.settings_storage_requested = true;
                self.last_settings_storage_request = now;
                Ok(Effect::Nothing)
            },
            Event::UpdateLogs => Ok(Effect::Nothing),
            Event::Metrics => Ok(Effect::StoreMetrics),
            Event::Exit => {
                self.is_shutdown_pending = true;
                Ok(Effect::CloseViewport)
            },
            Event::Error { message } => Ok(Effect::NotifyError { message }),
            Event::WalletList { wallet_list } => {
                self.wallet_list = sort_descriptors(wallet_list);
                Ok(Effect::Nothing)
            },
            Event::Notify => Ok(Effect::RenderNotification),
            Event::Close => Ok(Effect::Nothing),
            Event::UnlockSuccess => Ok(Effect::Nothing),
            Event::UnlockFailure => Ok(Effect::Nothing),
            Event::PrvKeyDataInfo => Ok(Effect::StorePrvKeyData),
            Event::Wallet { event } => match event {
                WalletEvent::UtxoProcStart => Ok(Effect::Nothing),
                WalletEvent::UtxoProcStop => Ok(Effect::Nothing),
                WalletEvent::UtxoProcError => Ok(Effect::Nothing),
                WalletEvent::Connect { url, network_id } => {
                    self.state.is_connected = true;
                    self.state.url = url;
                    self.state.network_id = Some(network_id);
                    Ok(Effect::Nothing)
                },
                WalletEvent::Disconnect => {
                    self.state.is_connected = false;
                    self.state.sync_state = None;
                    self.state.is_synced = None;
                    self.state.server_version = None;
                    self.state.url = None;
                    self.state.network_id = None;
                    self.state.current_daa_score = None;
                    Ok(Effect::ResetMetrics)
                },
                WalletEvent::UtxoIndexNotEnabled { url } => {
                    self.exception = Some(Exception::UtxoIndexNotEnabled { url });
                    Ok(Effect::Nothing)
                },
                WalletEvent::SyncState { sync_state } => {
                    self.state.sync_state = Some(sync_state);
                    Ok(Effect::Nothing)
                },
                WalletEvent::ServerStatus { is_synced, server_version, url, network_id } => {
                    self.state.is_synced = Some(is_synced);
                    self.state.server_version = Some(server_version);
                    self.state.url = url;
                    self.state.network_id = Some(network_id);
                    Ok(Effect::Nothing)
                },
                WalletEvent::WalletHint { hint } => {
                    self.hint = hint;
                    self.discard_hint = false;
                    Ok(Effect::Nothing)
                },
                WalletEvent::WalletOpen { wallet_descriptor, account_descriptors }
                | WalletEvent::WalletReload { wallet_descriptor, account_descriptors } => {
                    self.state.is_open = true;
                    self.wallet_descriptor = wallet_descriptor;
                    let network_id = match self.state.network_id {
                        Some(n) => n,
                        None => self.settings.network,
                    };
                    match account_descriptors {
                        Some(ids) => Ok(self.load_accounts(network_id, ids)),
                        None => Err(CoreError::WalletOpenAccountDescriptors),
                    }
                },
                WalletEvent::AccountActivation => Ok(Effect::Nothing),
                WalletEvent::AccountCreation => Ok(Effect::Nothing),
                WalletEvent::AccountUpdate { account_id } => {
                    if self.has_account(account_id) {
                        Ok(Effect::UpdateAccount { account_id })
                    } else {
                        Ok(Effect::Nothing)
                    }
                },
                WalletEvent::WalletError => Ok(Effect::Nothing),
                WalletEvent::WalletClose => {
                    self.hint = None;
                    self.state.is_open = false;
                    self.account_collection = None;
                    self.wallet_descriptor = None;
                    Ok(Effect::ResetModules)
                },
                WalletEvent::AccountSelection => Ok(Effect::Nothing),
                WalletEvent::DAAScoreChange { current_daa_score } => {
                    self.state.current_daa_score = Some(current_daa_score);
                    Ok(Effect::Nothing)
                },
                WalletEvent::Scan => Ok(Effect::Nothing),
                WalletEvent::Stasis => Ok(Effect::Nothing),
                WalletEvent::Change => Ok(Effect::Nothing),
                WalletEvent::Maturity { binding } => Ok(self.record_effect(binding, Some(true))),
                WalletEvent::External { binding }
                | WalletEvent::Outgoing { binding }
                | WalletEvent::Pending { binding } => Ok(self.record_effect(binding, Some(false))),
                WalletEvent::Reorg { binding } => Ok(self.record_effect(binding, None)),
                WalletEvent::Balance { id } => {
                    if self.has_account(id) {
                        Ok(Effect::UpdateBalance { account_id: id })
                    } else {
                        Ok(Effect::Nothing)
                    }
                },
            },
        }
    }


    /// Switches to `target` for a shortcut and records what the caller must do.
    fn select_shortcut(&mut self, target: ModuleKind, effects: &mut Vec<KeyboardEffect>)
        requires
            old(self).wf(),
            old(self)@.modules.contains(target),
        ensures
            final(self).wf(),
            final(self)@ == selected(old(self)@, target),
            final(effects)@ == old(effects)@ + command_effects(old(self)@, KeyCommand::Select(target)),
    {
        if let Some(selection) = self.select_with_type_id(target) {
            effects.push(KeyboardEffect::Activate { activate: selection.activate, update_logs: selection.update_logs });
        }
        assert(effects@ =~= old(effects)@ + command_effects(old(self)@, KeyCommand::Select(target)));
    }

    /// Handles a key event: with Ctrl (or Command) held, O opens a wallet,
    /// N creates one, M and P toggle the mobile and portrait layouts; with
    /// Shift too, T selects the testing module and M and P toggle again.
    /// Released keys do nothing.
    pub fn handle_keyboard_events(&mut self, key: Key, pressed: bool, modifiers: &Modifiers, _repeat: bool) -> (effects: Vec<KeyboardEffect>)
        requires
            old(self).wf(),
            shortcuts_registered(old(self)@, keyboard_commands(key, pressed, *modifiers)),
        ensures
            final(self).wf(),
            keyboard_commands(key, pressed, *modifiers).len() == 0 ==> final(self)@ == old(self)@ && effects@.len() == 0,
            keyboard_commands(key, pressed, *modifiers).len() == 1 ==> {
                let c = keyboard_commands(key, pressed, *modifiers)[0];
                &&& final(self)@ == command_view(old(self)@, c)
                &&& effects@ == command_effects(old(self)@, c)
            },
            keyboard_commands(key, pressed, *modifiers).len() == 2 ==> {
                let c0 = keyboard_commands(key, pressed, *modifiers)[0];
                let c1 = keyboard_commands(key, pressed, *modifiers)[1];
                &&& final(self)@ == command_view(command_view(old(self)@, c0), c1)
                &&& effects@ == command_effects(old(self)@, c0) + command_effects(command_view(old(self)@, c0), c1)
            },
            keyboard_commands(key, pressed, *modifiers).len() <= 2,
    {
        let ghost cmds = keyboard_commands(key, pressed, *modifiers);
        let mut effects: Vec<KeyboardEffect> = Vec::new();
        if !pressed {
            assert(cmds =~= Seq::<KeyCommand>::empty());
            return effects;
        }
        let command = modifiers.ctrl || modifiers.mac_cmd;
        let ghost v0 = self@;
        if command {
            match key {
                Key::O => {
                    assert(cmds[0] == KeyCommand::Select(ModuleKind::WalletOpen));
                    self.select_shortcut(ModuleKind::WalletOpen, &mut effects);
                },
                Key::N => {
                    assert(cmds[0] == KeyCommand::Select(ModuleKind::WalletCreate));
                    self.select_shortcut(ModuleKind::WalletCreate, &mut effects);
                },
                Key::M => effects.push(KeyboardEffect::ToggleMobile),
                Key::P => effects.push(KeyboardEffect::TogglePortrait),
                _ => {},
            }
        }
        let ghost v1 = self@;
        let ghost e1 = effects@;
        if command && modifiers.shift {
            match key {
                Key::T => {
                    assert(cmds[0] == KeyCommand::Select(ModuleKind::Testing));
                    self.select_shortcut(ModuleKind::Testing, &mut effects);
                },
                Key::M => effects.push(KeyboardEffect::ToggleMobile),
                Key::P => effects.push(KeyboardEffect::TogglePortrait),
                _ => {},
            }
        }
        proof {
            let first = if pressed && command_held(*modifiers) { command_shortcut(key) } else { None };
            let second = if pressed && command_held(*modifiers) && modifiers.shift { command_shift_shortcut(key) } else { None };
            match first {
                Some(c) => {
                    assert(cmds[0] == c);
                    assert(v1 == command_view(v0, c));
                    assert(e1 =~= command_effects(v0, c));
                    match second {
                        Some(d) => {
                            assert(cmds[1] == d);
                            assert(effects@ =~= e1 + command_effects(v1, d));
                        },
                        None => {
                            assert(cmds =~= seq![c]);
                            assert(effects@ =~= e1);
                        },
                    }
                },
                None => {
                    assert(v1 == v0);
                    assert(e1 =~= Seq::<KeyboardEffect>::empty());
                    match second {
                        Some(d) => {
                            assert(cmds =~= seq![d]);
                            assert(effects@ =~= command_effects(v0, d));
                        },
                        None => {
                            assert(cmds =~= Seq::<KeyCommand>::empty());
                        },
                    }
                },
            }
        }
        effects
    }

    /// Plans a frame at `now` on the application's clock: nothing while the
    /// application closes; otherwise the settings are stored once a request
    /// is older than the delay, and the layout follows the setup state and
    /// the display mode. An unfinished setup shows the welcome module, as the
    /// native build does; a web build draws its normal layout instead.
    pub fn update(&mut self, now: u128, mode: DisplayMode) -> (plan: FramePlan)
        requires
            old(self).wf(),
        ensures
            final(self).wf(),
            final(self)@ == after_frame(old(self)@, now),
            plan == frame_plan(old(self)@, now, mode),
    {
        if self.is_shutdown_pending {
            return FramePlan { store_settings: false, layout: FrameLayout::ShuttingDown, deactivate: false };
        }
        let store_settings = self.settings_storage_requested && now > self.last_settings_storage_request
            && now - self.last_settings_storage_request > SETTINGS_STORAGE_DELAY_NANOS;
        if store_settings {
            self.settings_storage_requested = false;
        }
        if !self.settings.initialized {
            return FramePlan { store_settings, layout: FrameLayout::Welcome, deactivate: false };
        }
        if mode.singular_layout {
            FramePlan {
                store_settings,
                layout: FrameLayout::Singular { bottom_status: !mode.mobile, mobile_menu: mode.mobile },
                deactivate: true,
            }
        } else {
            FramePlan { store_settings, layout: FrameLayout::Desktop { top_menu: !mode.module_modal }, deactivate: true }
        }
    }

    /// Whether `back` has a module to return to.
    pub fn has_stack(&self) -> (b: bool)
        ensures
            b == (self@.stack.len() > 0),
    {
        self.stack.len() > 0
    }

    /// Returns to the module that was shown before the last switch, if any.
    pub fn back(&mut self)
        requires
            old(self).wf(),
        ensures
            final(self).wf(),
            final(self)@ == went_back(old(self)@),
    {
        if let Some(module) = self.stack.pop() {
            self.module = module;
            proof {
                assert(old(self)@.stack[old(self)@.stack.len() - 1] == module);
                assert(self@.stack =~= old(self)@.stack.drop_last());
            }
        }
    }

    /// Takes the module that the last switch left, to deactivate it.
    pub fn take_deactivation(&mut self) -> (m: Option<ModuleKind>)
        ensures
            m == old(self)@.deactivation,
            final(self)@ == (CoreView { deactivation: None, ..old(self)@ }),
            final(self).wf() == old(self).wf(),
    {
        let m = self.deactivation.take();
        proof {
            assert(self@.stack == old(self)@.stack && self@.modules == old(self)@.modules);
            assert(self@.module == old(self)@.module);
        }
        m
    }

    /// Marks the application as shutting down.
    pub fn on_exit(&mut self)
        ensures
            final(self)@ == (CoreView { is_shutdown_pending: true, ..old(self)@ }),
            final(self).wf() == old(self).wf(),
    {
        self.is_shutdown_pending = true;
        proof {
            assert(self@.stack == old(self)@.stack && self@.modules == old(self)@.modules);
            assert(self@.module == old(self)@.module);
        }
    }

    pub fn state(&self) -> (s: &State)
        ensures
            *s == self@.state,
    {
        &self.state
    }

    pub fn wallet_list(&self) -> (l: &Vec<WalletDescriptor>)
        ensures
            l@ == self@.wallet_list,
    {
        &self.wallet_list
    }

    pub fn account_collection(&self) -> (c: &Option<AccountCollection>)
        ensures
            match c {
                Some(c) => self@.account_collection == Some(c@),
                None => self@.account_collection is None,
            },
    {
        &self.account_collection
    }

    pub fn modules(&self) -> (m: &Vec<ModuleKind>)
        ensures
            m@ == self@.modules,
    {
        &self.modules
    }

    pub fn module(&self) -> (m: &ModuleKind)
        ensures
            *m == self@.module,
    {
        &self.module
    }

    pub fn hint(&self) -> (h: &Option<Hint>)
        ensures
            *h == self@.hint,
    {
        &self.hint
    }

    pub fn exception(&self) -> (e: &Option<Exception>)
        ensures
            *e == self@.exception,
    {
        &self.exception
    }

    pub fn is_shutdown_pending(&self) -> (b: bool)
        ensures
            b == self@.is_shutdown_pending,
    {
        self.is_shutdown_pending
    }
}

} // verus!
