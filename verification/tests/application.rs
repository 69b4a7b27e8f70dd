use kaspa_ng_core::application::{
    AccountId, Binding, Core, CoreError, DisplayMode, Effect, Event, Exception, FrameLayout, Hint, Key,
    KeyboardEffect, Modifiers, ModuleKind, NetworkId, NetworkType, Settings, State, SyncState, WalletDescriptor,
    WalletEvent,
};

const SECOND: u128 = 1_000_000_000;

fn settings(version: &str) -> Settings {
    Settings {
        version: version.to_string(),
        initialized: true,
        network: NetworkId { network_type: NetworkType::Mainnet, suffix: None },
        market_monitor: false,
    }
}

fn modules() -> Vec<ModuleKind> {
    vec![
        ModuleKind::Overview,
        ModuleKind::Changelog,
        ModuleKind::Welcome,
        ModuleKind::WalletOpen,
        ModuleKind::WalletCreate,
        ModuleKind::Testing,
        ModuleKind::Logs,
        ModuleKind::Other { id: 42 },
    ]
}

fn fresh_core() -> Core {
    Core::new(settings("1.0.0"), modules(), "1.0.0", 0).0
}

fn testnet() -> NetworkId {
    NetworkId { network_type: NetworkType::Testnet, suffix: Some(11) }
}

fn wallet(event: WalletEvent) -> Event {
    Event::Wallet { event }
}

fn descriptor(title: Option<&str>, filename: &str) -> WalletDescriptor {
    WalletDescriptor { title: title.map(|t| t.to_string()), filename: filename.to_string() }
}

fn ctrl() -> Modifiers {
    Modifiers { alt: false, ctrl: true, shift: false, mac_cmd: false, command: true }
}

fn ctrl_shift() -> Modifiers {
    Modifiers { shift: true, ..ctrl() }
}

fn open_wallet(core: &mut Core, ids: Vec<u64>) {
    let ids = ids.into_iter().map(|id| AccountId { id }).collect();
    let effect = core
        .handle_events(
            wallet(WalletEvent::WalletOpen { wallet_descriptor: None, account_descriptors: Some(ids) }),
            0,
        )
        .unwrap();
    assert!(matches!(effect, Effect::LoadAccounts { .. }));
}

#[test]
fn new_same_version_starts_on_overview() {
    let (core, store) = Core::new(settings("1.0.0"), modules(), "1.0.0", 0);
    assert!(!store);
    assert_eq!(*core.module(), ModuleKind::Overview);
    assert!(!core.has_stack());
    assert_eq!(*core.state(), State::new());
    assert!(core.wallet_list().is_empty());
    assert!(core.account_collection().is_none());
}

#[test]
fn new_other_version_starts_on_changelog() {
    let (core, store) = Core::new(settings("0.9.0"), modules(), "1.0.0", 0);
    assert!(store);
    assert_eq!(*core.module(), ModuleKind::Changelog);
    assert_eq!(core.settings.version, "1.0.0");
}

#[test]
fn select_and_back() {
    let mut core = fresh_core();
    let selection = core.select_with_type_id(ModuleKind::Logs).unwrap();
    assert_eq!(selection.activate, ModuleKind::Logs);
    assert!(selection.update_logs);
    assert_eq!(*core.module(), ModuleKind::Logs);
    assert!(core.has_stack());
    let selection = core.select_with_type_id(ModuleKind::Other { id: 42 }).unwrap();
    assert!(!selection.update_logs);
    assert_eq!(core.take_deactivation(), Some(ModuleKind::Logs));
    assert_eq!(core.take_deactivation(), None);
    core.back();
    assert_eq!(*core.module(), ModuleKind::Logs);
    core.back();
    assert_eq!(*core.module(), ModuleKind::Overview);
    assert!(!core.has_stack());
    core.back();
    assert_eq!(*core.module(), ModuleKind::Overview);
}

#[test]
fn select_current_module_does_nothing() {
    let mut core = fresh_core();
    assert!(core.select_with_type_id(ModuleKind::Overview).is_none());
    assert!(!core.has_stack());
    assert_eq!(core.take_deactivation(), None);
}

#[test]
fn connect_then_disconnect_clears_connection() {
    let mut core = fresh_core();
    let r = core.handle_events(
        wallet(WalletEvent::Connect { url: Some("wss://node".to_string()), network_id: testnet() }),
        0,
    );
    assert_eq!(r, Ok(Effect::Nothing));
    assert!(core.state().is_connected);
    assert_eq!(core.state().url.as_deref(), Some("wss://node"));
    assert_eq!(core.state().network_id, Some(testnet()));
    core.handle_events(
        wallet(WalletEvent::ServerStatus {
            is_synced: true,
            server_version: "0.13.4".to_string(),
            url: None,
            network_id: testnet(),
        }),
        0,
    )
    .unwrap();
    assert_eq!(core.state().is_synced, Some(true));
    assert_eq!(core.state().server_version.as_deref(), Some("0.13.4"));
    core.handle_events(wallet(WalletEvent::SyncState { sync_state: SyncState::Synced }), 0).unwrap();
    core.handle_events(wallet(WalletEvent::DAAScoreChange { current_daa_score: 77 }), 0).unwrap();
    assert_eq!(core.state().current_daa_score, Some(77));
    assert_eq!(core.state().sync_state, Some(SyncState::Synced));
    let r = core.handle_events(wallet(WalletEvent::Disconnect), 0);
    assert_eq!(r, Ok(Effect::ResetMetrics));
    assert_eq!(*core.state(), State::new());
}

#[test]
fn wallet_list_is_sorted() {
    let mut core = fresh_core();
    let list = vec![
        descriptor(Some("zeta"), "a"),
        descriptor(None, "b"),
        descriptor(Some("alpha"), "z"),
        descriptor(Some("alpha"), "c"),
        descriptor(None, "a"),
        descriptor(Some("Alpha"), "q"),
    ];
    let mut expected = list.clone();
    expected.sort_by(|a, b| (a.title.clone(), a.filename.clone()).cmp(&(b.title.clone(), b.filename.clone())));
    assert_eq!(core.handle_events(Event::WalletList { wallet_list: list }, 0), Ok(Effect::Nothing));
    assert_eq!(*core.wallet_list(), expected);
    assert_eq!(core.wallet_list()[0], descriptor(None, "a"));
    assert_eq!(core.wallet_list()[2], descriptor(Some("Alpha"), "q"));
}

#[test]
fn wallet_open_without_descriptors_fails() {
    let mut core = fresh_core();
    let r = core.handle_events(
        wallet(WalletEvent::WalletOpen {
            wallet_descriptor: Some(descriptor(Some("w"), "w.wallet")),
            account_descriptors: None,
        }),
        0,
    );
    assert_eq!(r, Err(CoreError::WalletOpenAccountDescriptors));
    assert!(core.state().is_open);
    assert_eq!(core.wallet_descriptor, Some(descriptor(Some("w"), "w.wallet")));
    assert!(core.account_collection().is_none());
}

#[test]
fn wallet_open_loads_on_settings_network_then_connected_one() {
    let mut core = fresh_core();
    let r = core.handle_events(
        wallet(WalletEvent::WalletReload { wallet_descriptor: None, account_descriptors: Some(vec![AccountId { id: 1 }]) }),
        0,
    );
    assert_eq!(r, Ok(Effect::LoadAccounts { network_id: NetworkId { network_type: NetworkType::Mainnet, suffix: None } }));
    core.handle_events(wallet(WalletEvent::Connect { url: None, network_id: testnet() }), 0).unwrap();
    let r = core.handle_events(
        wallet(WalletEvent::WalletOpen { wallet_descriptor: None, account_descriptors: Some(vec![AccountId { id: 2 }]) }),
        0,
    );
    assert_eq!(r, Ok(Effect::LoadAccounts { network_id: testnet() }));
    assert_eq!(*core.account_collection().as_ref().unwrap().accounts(), vec![AccountId { id: 2 }]);
}

#[test]
fn records_reach_known_accounts_only() {
    let mut core = fresh_core();
    let known = AccountId { id: 7 };
    let unknown = AccountId { id: 8 };
    let r = core.handle_events(wallet(WalletEvent::Maturity { binding: Binding::Account(known) }), 0);
    assert_eq!(r, Ok(Effect::Nothing));
    open_wallet(&mut core, vec![7, 9]);
    let r = core.handle_events(wallet(WalletEvent::Maturity { binding: Binding::Account(known) }), 0);
    assert_eq!(r, Ok(Effect::InsertTransaction { account_id: known, confirmed: true }));
    let r = core.handle_events(wallet(WalletEvent::Pending { binding: Binding::Account(known) }), 0);
    assert_eq!(r, Ok(Effect::InsertTransaction { account_id: known, confirmed: false }));
    let r = core.handle_events(wallet(WalletEvent::Outgoing { binding: Binding::Account(known) }), 0);
    assert_eq!(r, Ok(Effect::InsertTransaction { account_id: known, confirmed: false }));
    let r = core.handle_events(wallet(WalletEvent::External { binding: Binding::Account(unknown) }), 0);
    assert_eq!(r, Ok(Effect::Nothing));
    let r = core.handle_events(wallet(WalletEvent::Reorg { binding: Binding::Account(known) }), 0);
    assert_eq!(r, Ok(Effect::RemoveTransaction { account_id: known }));
    let r = core.handle_events(wallet(WalletEvent::Balance { id: known }), 0);
    assert_eq!(r, Ok(Effect::UpdateBalance { account_id: known }));
    let r = core.handle_events(wallet(WalletEvent::Balance { id: unknown }), 0);
    assert_eq!(r, Ok(Effect::Nothing));
    let r = core.handle_events(wallet(WalletEvent::AccountUpdate { account_id: known }), 0);
    assert_eq!(r, Ok(Effect::UpdateAccount { account_id: known }));
    assert_eq!(core.handle_events(Event::ThemeChange, 0), Ok(Effect::UpdateAccountThemes));
}

#[test]
fn wallet_close_resets_wallet_state() {
    let mut core = fresh_core();
    core.handle_events(wallet(WalletEvent::WalletHint { hint: Some(Hint { text: "cat".to_string() }) }), 0)
        .unwrap();
    assert_eq!(*core.hint(), Some(Hint { text: "cat".to_string() }));
    open_wallet(&mut core, vec![1]);
    let r = core.handle_events(wallet(WalletEvent::WalletClose), 0);
    assert_eq!(r, Ok(Effect::ResetModules));
    assert!(!core.state().is_open);
    assert!(core.hint().is_none());
    assert!(core.account_collection().is_none());
    assert!(core.wallet_descriptor.is_none());
    assert_eq!(core.handle_events(Event::ThemeChange, 0), Ok(Effect::Nothing));
}

#[test]
fn pass_through_events() {
    let mut core = fresh_core();
    assert_eq!(core.handle_events(Event::VersionUpdate, 0), Ok(Effect::StoreRelease));
    assert_eq!(core.handle_events(Event::Metrics, 0), Ok(Effect::StoreMetrics));
    assert_eq!(core.handle_events(Event::Notify, 0), Ok(Effect::RenderNotification));
    assert_eq!(core.handle_events(Event::PrvKeyDataInfo, 0), Ok(Effect::StorePrvKeyData));
    assert_eq!(
        core.handle_events(Event::Error { message: "boom".to_string() }, 0),
        Ok(Effect::NotifyError { message: "boom".to_string() })
    );
    assert_eq!(core.handle_events(Event::UpdateLogs, 0), Ok(Effect::Nothing));
    assert_eq!(core.handle_events(wallet(WalletEvent::Scan), 0), Ok(Effect::Nothing));
    let r = core.handle_events(wallet(WalletEvent::UtxoIndexNotEnabled { url: Some("u".to_string()) }), 0);
    assert_eq!(r, Ok(Effect::Nothing));
    assert_eq!(*core.exception(), Some(Exception::UtxoIndexNotEnabled { url: Some("u".to_string()) }));
}

#[test]
fn exit_stops_frames() {
    let mut core = fresh_core();
    assert_eq!(core.handle_events(Event::Exit, 0), Ok(Effect::CloseViewport));
    assert!(core.is_shutdown_pending());
    let mode = DisplayMode { module_modal: false, singular_layout: false, mobile: false };
    let plan = core.update(10 * SECOND, mode);
    assert_eq!(plan.layout, FrameLayout::ShuttingDown);
    assert!(!plan.store_settings);
    assert!(!plan.deactivate);
}

#[test]
fn on_exit_marks_shutdown() {
    let mut core = fresh_core();
    core.on_exit();
    assert!(core.is_shutdown_pending());
}

#[test]
fn settings_are_stored_once_after_delay() {
    let mut core = fresh_core();
    let mode = DisplayMode { module_modal: false, singular_layout: false, mobile: false };
    core.handle_events(Event::StoreSettings, 100 * SECOND).unwrap();
    assert!(!core.update(103 * SECOND, mode).store_settings);
    assert!(!core.update(105 * SECOND, mode).store_settings);
    assert!(core.update(105 * SECOND + 1, mode).store_settings);
    assert!(!core.update(200 * SECOND, mode).store_settings);
}

#[test]
fn frame_layouts() {
    let mut core = fresh_core();
    let plan = core.update(0, DisplayMode { module_modal: false, singular_layout: false, mobile: false });
    assert_eq!(plan.layout, FrameLayout::Desktop { top_menu: true });
    assert!(plan.deactivate);
    let plan = core.update(0, DisplayMode { module_modal: true, singular_layout: false, mobile: false });
    assert_eq!(plan.layout, FrameLayout::Desktop { top_menu: false });
    let plan = core.update(0, DisplayMode { module_modal: false, singular_layout: true, mobile: true });
    assert_eq!(plan.layout, FrameLayout::Singular { bottom_status: false, mobile_menu: true });
    let plan = core.update(0, DisplayMode { module_modal: false, singular_layout: true, mobile: false });
    assert_eq!(plan.layout, FrameLayout::Singular { bottom_status: true, mobile_menu: false });
    core.settings.initialized = false;
    let plan = core.update(0, DisplayMode { module_modal: false, singular_layout: false, mobile: false });
    assert_eq!(plan.layout, FrameLayout::Welcome);
    assert!(!plan.deactivate);
}

#[test]
fn keyboard_shortcuts() {
    let mut core = fresh_core();
    let effects = core.handle_keyboard_events(Key::O, true, &ctrl(), false);
    assert_eq!(effects, vec![KeyboardEffect::Activate { activate: ModuleKind::WalletOpen, update_logs: false }]);
    assert_eq!(*core.module(), ModuleKind::WalletOpen);
    let effects = core.handle_keyboard_events(Key::O, true, &ctrl(), false);
    assert!(effects.is_empty());
    let effects = core.handle_keyboard_events(Key::N, true, &ctrl(), true);
    assert_eq!(effects, vec![KeyboardEffect::Activate { activate: ModuleKind::WalletCreate, update_logs: false }]);
    let effects = core.handle_keyboard_events(Key::T, true, &ctrl(), false);
    assert!(effects.is_empty());
    let effects = core.handle_keyboard_events(Key::T, true, &ctrl_shift(), false);
    assert_eq!(effects, vec![KeyboardEffect::Activate { activate: ModuleKind::Testing, update_logs: false }]);
    assert_eq!(core.handle_keyboard_events(Key::M, true, &ctrl(), false), vec![KeyboardEffect::ToggleMobile]);
    assert_eq!(
        core.handle_keyboard_events(Key::M, true, &ctrl_shift(), false),
        vec![KeyboardEffect::ToggleMobile, KeyboardEffect::ToggleMobile]
    );
    assert_eq!(
        core.handle_keyboard_events(Key::P, true, &ctrl_shift(), false),
        vec![KeyboardEffect::TogglePortrait, KeyboardEffect::TogglePortrait]
    );
    let cmd = Modifiers { alt: false, ctrl: false, shift: false, mac_cmd: true, command: true };
    assert_eq!(core.handle_keyboard_events(Key::P, true, &cmd, false), vec![KeyboardEffect::TogglePortrait]);
}

#[test]
fn keyboard_ignores_released_and_plain_keys() {
    let mut core = fresh_core();
    assert!(core.handle_keyboard_events(Key::O, false, &ctrl(), false).is_empty());
    let plain = Modifiers { alt: false, ctrl: false, shift: true, mac_cmd: false, command: false };
    assert!(core.handle_keyboard_events(Key::O, true, &plain, false).is_empty());
    assert!(core.handle_keyboard_events(Key::Other, true, &ctrl_shift(), false).is_empty());
    assert_eq!(*core.module(), ModuleKind::Overview);
    assert!(!core.has_stack());
}

#[test]
fn switch_fills_back_stack_after_exit_and_deactivation() {
    let mut core = fresh_core();
    assert!(!core.has_stack());
    core.on_exit();
    core.select_with_type_id(ModuleKind::Welcome);
    assert!(core.has_stack());
    assert_eq!(core.take_deactivation(), Some(ModuleKind::Overview));
    core.back();
    assert_eq!(*core.module(), ModuleKind::Overview);
}
