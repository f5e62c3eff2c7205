//! Dock window decisions.
//!
//! The dock is a centered bottom "pill" that shows pinned launchers and
//! running windows. It auto-hides (Dash-to-Dock style) and reappears when
//! the mouse hits the bottom screen edge. It runs on Hyprland only; on any
//! other compositor the panel falls back to a bottom bar.
//!
//! This module decides how the dock window is laid out; `auto_hide` decides
//! when it shows and hides.

pub mod auto_hide;

use vstd::prelude::*;

verus! {

/// The `[dock]` section of the configuration.
#[derive(Debug, Clone)]
pub struct DockConfig {
    /// Launcher icon size in pixels.
    pub icon_size: u32,
    /// Gap between the dock's widgets in pixels.
    pub gap: u32,
    /// Reserve screen space for the dock (an exclusive zone).
    pub pin_to_edge: bool,
    /// Never hide the dock.
    pub always_visible: bool,
    /// Hide the dock when the mouse leaves it.
    pub autohide: bool,
}

/// The `[bar]` section of the configuration, as far as the dock reads or
/// changes it.
#[derive(Debug, Clone)]
pub struct BarConfig {
    /// `"bar"` or `"dock"`.
    pub mode: String,
    /// `"top"` or `"bottom"`.
    pub position: String,
    /// Gap between the panel and the screen edge in pixels.
    pub screen_margin: u32,
}

/// The compositor backend on which the dock is available.
pub const DOCK_BACKEND: &'static str = "Hyprland";

/// Vertical padding added to the icon size to get the dock's height.
pub const DOCK_VERTICAL_PADDING: u32 = 12;

/// Height of the transparent hotzone at the bottom edge, in pixels.
pub const HOTZONE_HEIGHT: i32 = 3;

/// Delay between the mouse leaving the dock and the dock hiding.
pub const HIDE_DELAY_MS: u64 = 200;

/// The screen edges a layer-shell surface is anchored to.
#[derive(Debug, Clone, Copy, PartialEq, Eq, Structural)]
pub struct Anchors {
    pub top: bool,
    pub bottom: bool,
    pub left: bool,
    pub right: bool,
}

/// How the dock window is set up.
#[derive(Debug, Clone, Copy, PartialEq, Eq, Structural)]
pub struct DockLayout {
    /// Default height of the dock window: icon size plus padding.
    pub height: i32,
    /// Gap between the widgets of the dock's content row.
    pub content_gap: i32,
    /// Edges the dock (and its hotzone) are anchored to: the bottom edge,
    /// stretched across the full width.
    pub anchors: Anchors,
    /// Margin from the bottom screen edge.
    pub margin_bottom: i32,
    /// Whether the dock reserves screen space.
    pub exclusive_zone: bool,
    /// Whether the dock auto-hides; when it does not, it is shown at once.
    pub auto_hide: bool,
    /// Height of the hotzone that reveals an auto-hiding dock.
    pub hotzone_height: i32,
    /// Margin of the hotzone from the bottom screen edge: none, so that the
    /// mouse reaching the edge reveals the dock.
    pub hotzone_margin_bottom: i32,
    /// Delay before an auto-hiding dock hides.
    pub hide_delay_ms: u64,
}

/// What the panel builds for a monitor whose bar is in dock mode.
#[derive(Debug, Clone, Copy, PartialEq, Eq, Structural)]
pub enum DockWindowPlan {
    /// Not on Hyprland: build a bottom bar instead (see `apply_bar_fallback`).
    FallbackToBar,
    /// Build the dock with this layout.
    Dock(DockLayout),
}

/// The dock layout for a configuration.
pub open spec fn dock_layout(dock: DockConfig, bar: BarConfig) -> DockLayout {
    DockLayout {
        height: (dock.icon_size + DOCK_VERTICAL_PADDING) as i32,
        content_gap: dock.gap as i32,
        anchors: Anchors { top: false, bottom: true, left: true, right: true },
        margin_bottom: bar.screen_margin as i32,
        exclusive_zone: dock.pin_to_edge,
        auto_hide: !dock.always_visible && dock.autohide,
        hotzone_height: HOTZONE_HEIGHT,
        hotzone_margin_bottom: 0,
        hide_delay_ms: HIDE_DELAY_MS,
    }
}

/// Decides what to build for a dock-mode bar on the compositor named
/// `backend_name`: the dock on Hyprland, a bottom bar anywhere else.
pub fn plan_dock_window(backend_name: &str, dock: &DockConfig, bar: &BarConfig) -> (res:
    DockWindowPlan)
    requires
        backend_name@ == DOCK_BACKEND@ ==> dock.icon_size + DOCK_VERTICAL_PADDING <= u32::MAX,
    ensures
        backend_name@ != DOCK_BACKEND@ ==> res == DockWindowPlan::FallbackToBar,
        backend_name@ == DOCK_BACKEND@ ==> res == DockWindowPlan::Dock(dock_layout(*dock, *bar)),
        res matches DockWindowPlan::Dock(l) ==> {
            &&& backend_name@ == DOCK_BACKEND@
            &&& l.height as int == (dock.icon_size + DOCK_VERTICAL_PADDING) as i32
            &&& l.content_gap == dock.gap as i32
            &&& l.margin_bottom == bar.screen_margin as i32
            &&& l.exclusive_zone == dock.pin_to_edge
            &&& l.auto_hide == (!dock.always_visible && dock.autohide)
            &&& l.anchors == (Anchors { top: false, bottom: true, left: true, right: true })
            &&& l.hotzone_margin_bottom == 0
        },
{
    if backend_name.to_owned() != DOCK_BACKEND.to_owned() {
        return DockWindowPlan::FallbackToBar;
    }
    let height: u32 = dock.icon_size + DOCK_VERTICAL_PADDING;
    DockWindowPlan::Dock(
        DockLayout {
            height: height as i32,
            content_gap: dock.gap as i32,
            anchors: Anchors { top: false, bottom: true, left: true, right: true },
            margin_bottom: bar.screen_margin as i32,
            exclusive_zone: dock.pin_to_edge,
            auto_hide: !dock.always_visible && dock.autohide,
            hotzone_height: HOTZONE_HEIGHT,
            hotzone_margin_bottom: 0,
            hide_delay_ms: HIDE_DELAY_MS,
        },
    )
}

/// Turns a dock-mode bar configuration into the bottom bar used where the
/// dock is not available.
pub fn apply_bar_fallback(bar: &mut BarConfig)
    ensures
        final(bar).mode@ == "bar"@,
        final(bar).position@ == "bottom"@,
        final(bar).screen_margin == old(bar).screen_margin,
{
    bar.mode = "bar".to_owned();
    bar.position = "bottom".to_owned();
}

/// A section of the dock's content row.
#[derive(Debug, Clone, Copy, PartialEq, Eq, Structural)]
pub enum DockSection {
    Left,
    Center,
    Right,
}

/// The sections of the dock's content row, in order: left, center when it
/// has widgets, right.
pub fn dock_sections(center_is_empty: bool) -> (res: Vec<DockSection>)
    ensures
        res@ == if center_is_empty {
            seq![DockSection::Left, DockSection::Right]
        } else {
            seq![DockSection::Left, DockSection::Center, DockSection::Right]
        },
{
    let mut sections: Vec<DockSection> = Vec::new();
    sections.push(DockSection::Left);
    if !center_is_empty {
        sections.push(DockSection::Center);
    }
    sections.push(DockSection::Right);
    sections
}

/// What the dock layout is made of, field by field: the height is the icon
/// size plus the vertical padding; the gap and the bottom margin are the
/// configured ones; screen space is reserved exactly when the dock is
/// pinned; the dock auto-hides exactly when it is not always visible and
/// auto-hide is on; it is anchored to the bottom, left and right edges; and
/// its hotzone sits on the bottom screen edge.
pub proof fn dock_layout_follows_config(dock: DockConfig, bar: BarConfig)
    ensures
        dock_layout(dock, bar).height as int == (dock.icon_size + DOCK_VERTICAL_PADDING) as i32,
        dock_layout(dock, bar).content_gap == dock.gap as i32,
        dock_layout(dock, bar).margin_bottom == bar.screen_margin as i32,
        dock_layout(dock, bar).exclusive_zone == dock.pin_to_edge,
        dock_layout(dock, bar).auto_hide == (!dock.always_visible && dock.autohide),
        dock_layout(dock, bar).anchors == (Anchors { top: false, bottom: true, left: true, right: true }),
        dock_layout(dock, bar).hotzone_margin_bottom == 0,
        dock_layout(dock, bar).hotzone_height == HOTZONE_HEIGHT,
        dock_layout(dock, bar).hide_delay_ms == HIDE_DELAY_MS,
{
}

/// Only the pin setting decides whether the dock reserves screen space, and
/// only the bar's screen margin decides its bottom margin: changing any
/// other setting leaves both as they were.
pub proof fn reserved_space_and_margin_ignore_other_settings(
    d1: DockConfig,
    b1: BarConfig,
    d2: DockConfig,
    b2: BarConfig,
)
    ensures
        d1.pin_to_edge == d2.pin_to_edge ==> dock_layout(d1, b1).exclusive_zone == dock_layout(
            d2,
            b2,
        ).exclusive_zone,
        b1.screen_margin == b2.screen_margin ==> dock_layout(d1, b1).margin_bottom == dock_layout(
            d2,
            b2,
        ).margin_bottom,
{
}

} // verus!
