use vibepanel::dock::auto_hide::{DockAutoHide, DockEffect, DockEvent};
use vibepanel::dock::{
    apply_bar_fallback, dock_sections, plan_dock_window, Anchors, BarConfig, DockConfig,
    DockLayout, DockSection, DockWindowPlan,
};
use vibepanel::widgets::css::dock::{css, DOCK_CSS};

fn dock_config(icon_size: u32) -> DockConfig {
    DockConfig { icon_size, gap: 8, pin_to_edge: false, always_visible: false, autohide: true }
}

fn bar_config() -> BarConfig {
    BarConfig { mode: "dock".to_string(), position: "top".to_string(), screen_margin: 6 }
}

#[test]
fn plan_on_hyprland_builds_dock() {
    let plan = plan_dock_window("Hyprland", &dock_config(36), &bar_config());
    assert_eq!(
        plan,
        DockWindowPlan::Dock(DockLayout {
            height: 48,
            content_gap: 8,
            anchors: Anchors { top: false, bottom: true, left: true, right: true },
            margin_bottom: 6,
            exclusive_zone: false,
            auto_hide: true,
            hotzone_height: 3,
            hotzone_margin_bottom: 0,
            hide_delay_ms: 200,
        })
    );
}

#[test]
fn plan_elsewhere_falls_back_to_bar() {
    for backend in ["sway", "niri", "hyprland", "Hyprland ", ""] {
        assert_eq!(
            plan_dock_window(backend, &dock_config(36), &bar_config()),
            DockWindowPlan::FallbackToBar
        );
    }
    // The height is not computed when falling back.
    assert_eq!(
        plan_dock_window("sway", &dock_config(u32::MAX), &bar_config()),
        DockWindowPlan::FallbackToBar
    );
}

#[test]
fn plan_auto_hide_and_exclusive_zone() {
    let cases = [
        (false, true, true),
        (false, false, false),
        (true, true, false),
        (true, false, false),
    ];
    for (always_visible, autohide, expected) in cases {
        let d = DockConfig { icon_size: 20, gap: 0, pin_to_edge: true, always_visible, autohide };
        match plan_dock_window("Hyprland", &d, &bar_config()) {
            DockWindowPlan::Dock(l) => {
                assert_eq!(l.auto_hide, expected);
                assert!(l.exclusive_zone);
                assert_eq!(l.height, 32);
            }
            other => panic!("expected dock, got {other:?}"),
        }
    }
}

#[test]
fn plan_height_wraps_into_i32() {
    let d = dock_config(u32::MAX - 12);
    match plan_dock_window("Hyprland", &d, &bar_config()) {
        DockWindowPlan::Dock(l) => assert_eq!(l.height, -1),
        other => panic!("expected dock, got {other:?}"),
    }
}

#[test]
fn bar_fallback_moves_bar_to_bottom() {
    let mut bar = bar_config();
    apply_bar_fallback(&mut bar);
    assert_eq!(bar.mode, "bar");
    assert_eq!(bar.position, "bottom");
    assert_eq!(bar.screen_margin, 6);
}

#[test]
fn sections_skip_empty_center() {
    assert_eq!(dock_sections(true), vec![DockSection::Left, DockSection::Right]);
    assert_eq!(
        dock_sections(false),
        vec![DockSection::Left, DockSection::Center, DockSection::Right]
    );
}

#[test]
fn install_starts_hidden() {
    let (state, effects) = DockAutoHide::install();
    assert_eq!(state, DockAutoHide { visible: false, opaque: false, hide_pending: false });
    assert_eq!(effects, vec![DockEffect::SetOpaque(false), DockEffect::SetVisible(false)]);
}

#[test]
fn hotzone_reveals_and_leave_then_timeout_hides() {
    let (mut state, _) = DockAutoHide::install();
    let e = state.step(DockEvent::HotzoneEnter { bars_hidden: false });
    assert_eq!(e, vec![DockEffect::SetVisible(true), DockEffect::SetOpaque(true)]);
    assert_eq!(state, DockAutoHide { visible: true, opaque: true, hide_pending: false });
    let e = state.step(DockEvent::DockEnter);
    assert_eq!(e, vec![DockEffect::SetOpaque(true)]);
    let e = state.step(DockEvent::DockLeave);
    assert_eq!(e, vec![DockEffect::ScheduleHide]);
    assert!(state.hide_pending);
    let e = state.step(DockEvent::HideTimerFired);
    assert_eq!(e, vec![DockEffect::SetOpaque(false), DockEffect::SetVisible(false)]);
    assert_eq!(state, DockAutoHide { visible: false, opaque: false, hide_pending: false });
}

#[test]
fn reentering_dock_cancels_pending_hide() {
    let mut state = DockAutoHide { visible: true, opaque: true, hide_pending: false };
    state.step(DockEvent::DockLeave);
    let e = state.step(DockEvent::DockEnter);
    assert_eq!(e, vec![DockEffect::CancelHideTimer, DockEffect::SetOpaque(true)]);
    assert_eq!(state, DockAutoHide { visible: true, opaque: true, hide_pending: false });
}

#[test]
fn leaving_twice_keeps_one_timer() {
    let mut state = DockAutoHide { visible: true, opaque: true, hide_pending: false };
    state.step(DockEvent::DockLeave);
    let e = state.step(DockEvent::DockLeave);
    assert_eq!(e, vec![DockEffect::CancelHideTimer, DockEffect::ScheduleHide]);
    let mut timers = 1i32;
    for eff in &e {
        match eff {
            DockEffect::CancelHideTimer => timers -= 1,
            DockEffect::ScheduleHide => timers += 1,
            _ => {}
        }
    }
    assert_eq!(timers, 1);
}

#[test]
fn hotzone_cancels_pending_hide() {
    let mut state = DockAutoHide { visible: true, opaque: true, hide_pending: true };
    let e = state.step(DockEvent::HotzoneEnter { bars_hidden: false });
    assert_eq!(
        e,
        vec![DockEffect::CancelHideTimer, DockEffect::SetVisible(true), DockEffect::SetOpaque(true)]
    );
    assert!(!state.hide_pending);
}

#[test]
fn hotzone_ignored_while_bars_hidden() {
    let before = DockAutoHide { visible: false, opaque: false, hide_pending: true };
    let mut state = before;
    let e = state.step(DockEvent::HotzoneEnter { bars_hidden: true });
    assert!(e.is_empty());
    assert_eq!(state, before);
}

#[test]
fn css_is_the_dock_stylesheet() {
    let text = css();
    assert_eq!(text, DOCK_CSS);
    assert!(text.starts_with("\n/* ===== DOCK ===== */\n"));
    for selector in [".dock-window {", ".dock {", ".dock .content {", ".launcher-button {",
        ".launcher-button:hover {", ".dock-running-dot {"] {
        assert!(text.contains(selector), "missing {selector}");
    }
    assert!(text.contains("transition: opacity 150ms ease;"));
    assert_eq!(text.matches('{').count(), text.matches('}').count());
}
