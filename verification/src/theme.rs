use vstd::prelude::*;

verus! {

/// An sRGBA colour with premultiplied alpha, one byte per channel, as egui
/// stores a `Color32`.
#[derive(Debug, Clone, Copy, PartialEq, Eq, Structural)]
pub struct Color32 {
    pub r: u8,
    pub g: u8,
    pub b: u8,
    pub a: u8,
}

impl Color32 {
    /// An opaque colour.
    pub fn from_rgb(r: u8, g: u8, b: u8) -> (c: Color32)
        ensures
            c == (Color32 { r, g, b, a: 255 }),
    {
        Color32 { r, g, b, a: 255 }
    }

    /// A colour whose channels are already multiplied by its alpha.
    pub fn from_rgba_premultiplied(r: u8, g: u8, b: u8, a: u8) -> (c: Color32)
        ensures
            c == (Color32 { r, g, b, a }),
    {
        Color32 { r, g, b, a }
    }

    pub fn white() -> (c: Color32)
        ensures
            c == (Color32 { r: 255, g: 255, b: 255, a: 255 }),
    {
        Color32::from_rgb(255, 255, 255)
    }

    pub fn gray() -> (c: Color32)
        ensures
            c == (Color32 { r: 160, g: 160, b: 160, a: 255 }),
    {
        Color32::from_rgb(160, 160, 160)
    }
}

/// The colours of the application theme.
#[derive(Debug, Clone, Copy, PartialEq, Eq, Structural)]
pub struct ThemePalette {
    pub kaspa_color: Color32,
    pub hyperlink_color: Color32,
    pub node_data_color: Color32,
    pub balance_color: Color32,
    pub error_color: Color32,
    pub warning_color: Color32,
    pub ack_color: Color32,
    pub nack_color: Color32,
    pub icon_color_default: Color32,
    pub progress_color: Color32,
    pub graph_frame_color: Color32,
    pub performance_graph_color: Color32,
    pub storage_graph_color: Color32,
    pub connections_graph_color: Color32,
    pub bandwidth_graph_color: Color32,
    pub network_graph_color: Color32,
    pub block_dag_new_block_fill_color: Color32,
    pub block_dag_block_fill_color: Color32,
    pub block_dag_block_stroke_color: Color32,
    pub block_dag_vspc_connect_color: Color32,
    pub block_dag_parent_connect_color: Color32,
}

/// An opaque colour as a value.
pub open spec fn rgb(r: u8, g: u8, b: u8) -> Color32 {
    Color32 { r, g, b, a: 255 }
}

/// The colours of the default theme.
pub open spec fn default_palette() -> ThemePalette {
    ThemePalette {
        kaspa_color: rgb(58, 221, 190),
        hyperlink_color: rgb(141, 184, 178),
        node_data_color: rgb(255, 255, 255),
        balance_color: rgb(255, 255, 255),
        error_color: rgb(255, 136, 136),
        warning_color: rgb(255, 255, 136),
        ack_color: rgb(100, 200, 100),
        nack_color: rgb(200, 100, 100),
        icon_color_default: rgb(255, 255, 255),
        progress_color: rgb(21, 82, 71),
        graph_frame_color: rgb(160, 160, 160),
        performance_graph_color: rgb(186, 238, 255),
        storage_graph_color: rgb(255, 231, 186),
        connections_graph_color: rgb(241, 255, 186),
        bandwidth_graph_color: rgb(196, 255, 199),
        network_graph_color: rgb(186, 255, 241),
        block_dag_new_block_fill_color: rgb(220, 220, 220),
        block_dag_block_fill_color: rgb(0xAD, 0xD8, 0xE6),
        block_dag_block_stroke_color: rgb(15, 84, 77),
        block_dag_vspc_connect_color: rgb(23, 150, 137),
        block_dag_parent_connect_color: Color32 { r: 0xAD, g: 0xD8, b: 0xE6, a: 220 },
    }
}


/// The colours of the default theme, channel by channel: errors are drawn
/// in light red, warnings in light yellow, acknowledgements in green and
/// refusals in red, and each metric graph in its own light tint.
pub proof fn lemma_default_palette_colors()
    ensures
        ({
            let p = default_palette();
            &&& p.kaspa_color == (Color32 { r: 58, g: 221, b: 190, a: 255 })
            &&& p.hyperlink_color == (Color32 { r: 141, g: 184, b: 178, a: 255 })
            &&& p.node_data_color == (Color32 { r: 255, g: 255, b: 255, a: 255 })
            &&& p.balance_color == (Color32 { r: 255, g: 255, b: 255, a: 255 })
            &&& p.error_color == (Color32 { r: 255, g: 136, b: 136, a: 255 })
            &&& p.warning_color == (Color32 { r: 255, g: 255, b: 136, a: 255 })
            &&& p.ack_color == (Color32 { r: 100, g: 200, b: 100, a: 255 })
            &&& p.nack_color == (Color32 { r: 200, g: 100, b: 100, a: 255 })
            &&& p.icon_color_default == (Color32 { r: 255, g: 255, b: 255, a: 255 })
            &&& p.progress_color == (Color32 { r: 21, g: 82, b: 71, a: 255 })
            &&& p.graph_frame_color == (Color32 { r: 160, g: 160, b: 160, a: 255 })
            &&& p.performance_graph_color == (Color32 { r: 186, g: 238, b: 255, a: 255 })
            &&& p.storage_graph_color == (Color32 { r: 255, g: 231, b: 186, a: 255 })
            &&& p.connections_graph_color == (Color32 { r: 241, g: 255, b: 186, a: 255 })
            &&& p.bandwidth_graph_color == (Color32 { r: 196, g: 255, b: 199, a: 255 })
            &&& p.network_graph_color == (Color32 { r: 186, g: 255, b: 241, a: 255 })
            &&& p.block_dag_new_block_fill_color == (Color32 { r: 220, g: 220, b: 220, a: 255 })
            &&& p.block_dag_block_fill_color == (Color32 { r: 173, g: 216, b: 230, a: 255 })
            &&& p.block_dag_block_stroke_color == (Color32 { r: 15, g: 84, b: 77, a: 255 })
            &&& p.block_dag_vspc_connect_color == (Color32 { r: 23, g: 150, b: 137, a: 255 })
            &&& p.block_dag_parent_connect_color == (Color32 { r: 173, g: 216, b: 230, a: 220 })
        }),
{
}

impl ThemePalette {
    /// The colours of the default theme.
    pub fn default_palette() -> (p: ThemePalette)
        ensures
            p == default_palette(),
    {
        ThemePalette {
            kaspa_color: Color32::from_rgb(58, 221, 190),
            hyperlink_color: Color32::from_rgb(141, 184, 178),
            node_data_color: Color32::white(),
            balance_color: Color32::white(),
            error_color: Color32::from_rgb(255, 136, 136),
            warning_color: Color32::from_rgb(255, 255, 136),
            ack_color: Color32::from_rgb(100, 200, 100),
            nack_color: Color32::from_rgb(200, 100, 100),
            icon_color_default: Color32::from_rgb(255, 255, 255),
            progress_color: Color32::from_rgb(21, 82, 71),
            graph_frame_color: Color32::gray(),
            performance_graph_color: Color32::from_rgb(186, 238, 255),
            storage_graph_color: Color32::from_rgb(255, 231, 186),
            connections_graph_color: Color32::from_rgb(241, 255, 186),
            bandwidth_graph_color: Color32::from_rgb(196, 255, 199),
            network_graph_color: Color32::from_rgb(186, 255, 241),
            block_dag_new_block_fill_color: Color32::from_rgb(220, 220, 220),
            block_dag_block_fill_color: Color32::from_rgb(0xAD, 0xD8, 0xE6),
            block_dag_block_stroke_color: Color32::from_rgb(15, 84, 77),
            block_dag_vspc_connect_color: Color32::from_rgb(23, 150, 137),
            block_dag_parent_connect_color: Color32::from_rgba_premultiplied(0xAD, 0xD8, 0xE6, 220),
        }
    }

    /// Copies the hyperlink colour into a visuals' hyperlink slot.
    pub fn apply(&self, hyperlink_color: &mut Color32)
        ensures
            *final(hyperlink_color) == self.hyperlink_color,
    {
        *hyperlink_color = self.hyperlink_color;
    }
}

impl Default for ThemePalette {
    fn default() -> (p: ThemePalette)
        ensures
            p == default_palette(),
    {
        ThemePalette::default_palette()
    }
}

/// The theme in use: the default until another is applied.
pub struct ThemeStore {
    current: Option<ThemePalette>,
}

impl ThemeStore {
    /// The palette that `theme` returns.
    pub closed spec fn current(&self) -> ThemePalette {
        match self.current {
            Some(p) => p,
            None => default_palette(),
        }
    }

    /// A store in which no theme has been applied yet.
    pub fn new() -> (s: ThemeStore)
        ensures
            s.current() == default_palette(),
    {
        ThemeStore { current: None }
    }

    /// The theme in use; the default one if none was applied.
    pub fn theme(&mut self) -> (t: &ThemePalette)
        ensures
            *t == old(self).current(),
            final(self).current() == old(self).current(),
    {
        if self.current.is_none() {
            self.current = Some(ThemePalette::default_palette());
        }
        self.current.as_ref().unwrap()
    }

    /// Makes `theme` the theme in use.
    pub fn apply_theme(&mut self, theme: ThemePalette)
        ensures
            final(self).current() == theme,
    {
        self.current = Some(theme);
    }
}

/// The groups of node metrics, each drawn in its own graph colour.
#[derive(Debug, Clone, Copy, PartialEq, Eq, Structural)]
pub enum MetricGroup {
    System,
    Storage,
    Connections,
    Bandwidth,
    Network,
}

/// The graph colour of a metric group in a theme.
pub open spec fn group_color(group: MetricGroup, theme: ThemePalette) -> Color32 {
    match group {
        MetricGroup::System => theme.performance_graph_color,
        MetricGroup::Storage => theme.storage_graph_color,
        MetricGroup::Connections => theme.connections_graph_color,
        MetricGroup::Bandwidth => theme.bandwidth_graph_color,
        MetricGroup::Network => theme.network_graph_color,
    }
}


/// Each metric group is drawn in its own graph colour of the theme: system
/// metrics in the performance colour, and storage, connections, bandwidth
/// and network in the colours named after them; in the default theme these
/// are five different colours.
pub proof fn lemma_metric_group_colors(theme: ThemePalette)
    ensures
        group_color(MetricGroup::System, theme) == theme.performance_graph_color,
        group_color(MetricGroup::Storage, theme) == theme.storage_graph_color,
        group_color(MetricGroup::Connections, theme) == theme.connections_graph_color,
        group_color(MetricGroup::Bandwidth, theme) == theme.bandwidth_graph_color,
        group_color(MetricGroup::Network, theme) == theme.network_graph_color,
        forall|g: MetricGroup, h: MetricGroup| g != h ==> group_color(g, default_palette()) != group_color(h, default_palette()),
{
}

/// Colours for metric groups.
pub trait MetricGroupExtension {
    spec fn spec_to_color(&self, theme: ThemePalette) -> Color32;

    fn to_color(&self, theme: &ThemePalette) -> (c: Color32)
        ensures
            c == self.spec_to_color(*theme),
    ;
}

impl MetricGroupExtension for MetricGroup {
    open spec fn spec_to_color(&self, theme: ThemePalette) -> Color32 {
        group_color(*self, theme)
    }

    fn to_color(&self, theme: &ThemePalette) -> (c: Color32) {
        match self {
            MetricGroup::System => theme.performance_graph_color,
            MetricGroup::Storage => theme.storage_graph_color,
            MetricGroup::Connections => theme.connections_graph_color,
            MetricGroup::Bandwidth => theme.bandwidth_graph_color,
            MetricGroup::Network => theme.network_graph_color,
        }
    }
}

} // verus!
