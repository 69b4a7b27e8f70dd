use kaspa_ng_core::theme::{Color32, MetricGroup, MetricGroupExtension, ThemePalette, ThemeStore};

#[test]
fn color_constructors() {
    assert_eq!(Color32::from_rgb(1, 2, 3), Color32 { r: 1, g: 2, b: 3, a: 255 });
    assert_eq!(Color32::from_rgba_premultiplied(1, 2, 3, 4), Color32 { r: 1, g: 2, b: 3, a: 4 });
    assert_eq!(Color32::white(), Color32 { r: 255, g: 255, b: 255, a: 255 });
    assert_eq!(Color32::gray(), Color32 { r: 160, g: 160, b: 160, a: 255 });
}

#[test]
fn default_palette_colors() {
    let p = ThemePalette::default();
    assert_eq!(p.kaspa_color, Color32::from_rgb(58, 221, 190));
    assert_eq!(p.hyperlink_color, Color32::from_rgb(141, 184, 178));
    assert_eq!(p.graph_frame_color, Color32::gray());
    assert_eq!(p.block_dag_parent_connect_color, Color32 { r: 0xAD, g: 0xD8, b: 0xE6, a: 220 });
    assert_eq!(p, ThemePalette::default_palette());
}

#[test]
fn metric_group_colors() {
    let p = ThemePalette::default();
    assert_eq!(MetricGroup::System.to_color(&p), Color32::from_rgb(186, 238, 255));
    assert_eq!(MetricGroup::Storage.to_color(&p), Color32::from_rgb(255, 231, 186));
    assert_eq!(MetricGroup::Connections.to_color(&p), Color32::from_rgb(241, 255, 186));
    assert_eq!(MetricGroup::Bandwidth.to_color(&p), Color32::from_rgb(196, 255, 199));
    assert_eq!(MetricGroup::Network.to_color(&p), Color32::from_rgb(186, 255, 241));
}

#[test]
fn theme_store_read_after_apply() {
    let mut store = ThemeStore::new();
    assert_eq!(*store.theme(), ThemePalette::default());
    let mut custom = ThemePalette::default();
    custom.balance_color = Color32::from_rgb(1, 1, 1);
    store.apply_theme(custom);
    assert_eq!(*store.theme(), custom);
    assert_eq!(store.theme().balance_color, Color32::from_rgb(1, 1, 1));
}

#[test]
fn palette_apply_sets_hyperlink() {
    let p = ThemePalette::default();
    let mut slot = Color32::from_rgb(0, 0, 0);
    p.apply(&mut slot);
    assert_eq!(slot, p.hyperlink_color);
}
