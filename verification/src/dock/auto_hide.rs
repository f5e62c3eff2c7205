//! Dock auto-hide (Dash-to-Dock style).
//!
//! A thin hotzone at the bottom edge reveals the dock when the mouse enters
//! it; the dock hides again some time after the mouse leaves it, unless the
//! mouse comes back first. The bars may also be hidden over IPC, in which
//! case the hotzone does not reveal the dock.
//!
//! `DockAutoHide` is the decision part: it takes each event and answers
//! with the effects to perform, in order, on the dock window and its hide
//! timer. The caller performs them and reports the events.

use vstd::prelude::*;

verus! {

/// What happens to the dock.
#[derive(Debug, Clone, Copy, PartialEq, Eq, Structural)]
pub enum DockEvent {
    /// The mouse entered the hotzone; `bars_hidden` tells whether the bars
    /// are hidden over IPC at that moment.
    HotzoneEnter { bars_hidden: bool },
    /// The mouse entered the dock.
    DockEnter,
    /// The mouse left the dock.
    DockLeave,
    /// The pending hide timer ran out.
    HideTimerFired,
}

/// What the caller does to the dock window and its hide timer.
#[derive(Debug, Clone, Copy, PartialEq, Eq, Structural)]
pub enum DockEffect {
    /// Remove the pending hide timer.
    CancelHideTimer,
    /// Show (`true`) or hide (`false`) the dock window.
    SetVisible(bool),
    /// Make the dock fully opaque (`true`) or fully transparent (`false`).
    SetOpaque(bool),
    /// Start the hide timer.
    ScheduleHide,
}

/// The auto-hide state of the dock: what the effects performed so far have
/// left the window and its timer in.
#[derive(Debug, Clone, Copy, PartialEq, Eq, Structural)]
pub struct DockAutoHide {
    /// Whether the dock window is shown.
    pub visible: bool,
    /// Whether the dock is opaque (else transparent).
    pub opaque: bool,
    /// Whether a hide timer is pending.
    pub hide_pending: bool,
}

/// The state after an event.
pub open spec fn next_state(s: DockAutoHide, e: DockEvent) -> DockAutoHide {
    match e {
        DockEvent::HotzoneEnter { bars_hidden } => if bars_hidden {
            s
        } else {
            DockAutoHide { visible: true, opaque: true, hide_pending: false }
        },
        DockEvent::DockEnter => DockAutoHide { visible: s.visible, opaque: true, hide_pending: false },
        DockEvent::DockLeave => DockAutoHide { visible: s.visible, opaque: s.opaque, hide_pending: true },
        DockEvent::HideTimerFired => DockAutoHide { visible: false, opaque: false, hide_pending: false },
    }
}

/// `CancelHideTimer` when a hide timer is pending, else nothing.
pub open spec fn cancel_pending(s: DockAutoHide) -> Seq<DockEffect> {
    if s.hide_pending {
        seq![DockEffect::CancelHideTimer]
    } else {
        Seq::empty()
    }
}

/// The effects of an event, in the order they are performed.
pub open spec fn event_effects(s: DockAutoHide, e: DockEvent) -> Seq<DockEffect> {
    match e {
        DockEvent::HotzoneEnter { bars_hidden } => if bars_hidden {
            Seq::empty()
        } else {
            cancel_pending(s) + seq![DockEffect::SetVisible(true), DockEffect::SetOpaque(true)]
        },
        DockEvent::DockEnter => cancel_pending(s) + seq![DockEffect::SetOpaque(true)],
        DockEvent::DockLeave => cancel_pending(s) + seq![DockEffect::ScheduleHide],
        DockEvent::HideTimerFired => seq![DockEffect::SetOpaque(false), DockEffect::SetVisible(false)],
    }
}

/// The effects of installing auto-hide: the dock starts hidden.
pub open spec fn install_effects() -> Seq<DockEffect> {
    seq![DockEffect::SetOpaque(false), DockEffect::SetVisible(false)]
}

/// What a window in `w` (shown, opaque, number of pending hide timers) is
/// left in after performing `effects` in order; `None` when an effect
/// removes a timer that is not pending or starts a second timer.
pub open spec fn perform(w: (bool, bool, nat), effects: Seq<DockEffect>) -> Option<(bool, bool, nat)>
    decreases effects.len(),
{
    if effects.len() == 0 {
        Some(w)
    } else {
        let (visible, opaque, timers) = w;
        let after = match effects[0] {
            DockEffect::CancelHideTimer => if timers == 0 {
                None
            } else {
                Some((visible, opaque, (timers - 1) as nat))
            },
            DockEffect::SetVisible(v) => Some((v, opaque, timers)),
            DockEffect::SetOpaque(o) => Some((visible, o, timers)),
            DockEffect::ScheduleHide => if timers > 0 {
                None
            } else {
                Some((visible, opaque, timers + 1))
            },
        };
        match after {
            Some(w2) => perform(w2, effects.drop_first()),
            None => None,
        }
    }
}

/// The window a state stands for: shown, opaque, pending hide timers.
pub open spec fn window_of(s: DockAutoHide) -> (bool, bool, nat) {
    (s.visible, s.opaque, if s.hide_pending { 1nat } else { 0nat })
}

/// The window as an event finds it: a firing timer is no longer pending.
pub open spec fn window_at(s: DockAutoHide, e: DockEvent) -> (bool, bool, nat) {
    if e is HideTimerFired {
        (s.visible, s.opaque, 0nat)
    } else {
        window_of(s)
    }
}

impl DockAutoHide {
    /// Installs auto-hide: the dock starts hidden and transparent, with no
    /// hide timer; the returned effects bring the window there.
    pub fn install() -> (res: (DockAutoHide, Vec<DockEffect>))
        ensures
            res.0 == (DockAutoHide { visible: false, opaque: false, hide_pending: false }),
            res.1@ == install_effects(),
    {
        let mut effects: Vec<DockEffect> = Vec::new();
        effects.push(DockEffect::SetOpaque(false));
        effects.push(DockEffect::SetVisible(false));
        (DockAutoHide { visible: false, opaque: false, hide_pending: false }, effects)
    }

    /// Takes an event: returns the effects to perform, in order, and moves
    /// to the state they leave the dock in.
    pub fn step(&mut self, event: DockEvent) -> (effects: Vec<DockEffect>)
        ensures
            *final(self) == next_state(*old(self), event),
            effects@ == event_effects(*old(self), event),
    {
        let mut effects: Vec<DockEffect> = Vec::new();
        match event {
            DockEvent::HotzoneEnter { bars_hidden } => {
                // Don't reveal if bars are IPC-hidden.
                if !bars_hidden {
                    if self.hide_pending {
                        effects.push(DockEffect::CancelHideTimer);
                    }
                    effects.push(DockEffect::SetVisible(true));
                    effects.push(DockEffect::SetOpaque(true));
                    *self = DockAutoHide { visible: true, opaque: true, hide_pending: false };
                }
            },
            DockEvent::DockEnter => {
                if self.hide_pending {
                    effects.push(DockEffect::CancelHideTimer);
                }
                effects.push(DockEffect::SetOpaque(true));
                self.opaque = true;
                self.hide_pending = false;
            },
            DockEvent::DockLeave => {
                // Cancel any existing timer before scheduling a new one.
                if self.hide_pending {
                    effects.push(DockEffect::CancelHideTimer);
                }
                effects.push(DockEffect::ScheduleHide);
                self.hide_pending = true;
            },
            DockEvent::HideTimerFired => {
                effects.push(DockEffect::SetOpaque(false));
                effects.push(DockEffect::SetVisible(false));
                *self = DockAutoHide { visible: false, opaque: false, hide_pending: false };
            },
        }
        assert(effects@ =~= event_effects(*old(self), event));
        effects
    }
}

/// Performing an event's effects on the window as the event finds it
/// leaves the window exactly as the next state says: the state always
/// mirrors the window, a pending hide timer is only ever removed when there
/// is one, and a new one is only started when none is pending, so the dock
/// never has more than one hide timer.
pub proof fn effects_realize_next_state(s: DockAutoHide, e: DockEvent)
    ensures
        perform(window_at(s, e), event_effects(s, e)) == Some(window_of(next_state(s, e))),
{
    reveal_with_fuel(perform, 4);
    let effs = event_effects(s, e);
    if effs.len() > 0 {
        assert(effs.drop_first().len() + 1 == effs.len());
    }
    match e {
        DockEvent::HotzoneEnter { bars_hidden } => {
            if !bars_hidden {
                if s.hide_pending {
                    assert(effs =~= seq![DockEffect::CancelHideTimer, DockEffect::SetVisible(true), DockEffect::SetOpaque(true)]);
                    assert(effs.drop_first() =~= seq![DockEffect::SetVisible(true), DockEffect::SetOpaque(true)]);
                    assert(effs.drop_first().drop_first() =~= seq![DockEffect::SetOpaque(true)]);
                } else {
                    assert(effs =~= seq![DockEffect::SetVisible(true), DockEffect::SetOpaque(true)]);
                    assert(effs.drop_first() =~= seq![DockEffect::SetOpaque(true)]);
                }
            }
        },
        DockEvent::DockEnter => {
            if s.hide_pending {
                assert(effs =~= seq![DockEffect::CancelHideTimer, DockEffect::SetOpaque(true)]);
                assert(effs.drop_first() =~= seq![DockEffect::SetOpaque(true)]);
            } else {
                assert(effs =~= seq![DockEffect::SetOpaque(true)]);
            }
        },
        DockEvent::DockLeave => {
            if s.hide_pending {
                assert(effs =~= seq![DockEffect::CancelHideTimer, DockEffect::ScheduleHide]);
                assert(effs.drop_first() =~= seq![DockEffect::ScheduleHide]);
            } else {
                assert(effs =~= seq![DockEffect::ScheduleHide]);
            }
        },
        DockEvent::HideTimerFired => {
            assert(effs.drop_first() =~= seq![DockEffect::SetVisible(false)]);
        },
    }
}

/// Installing auto-hide leaves the dock hidden and transparent with no
/// hide timer, whatever the window looked like before.
pub proof fn install_hides_dock(visible: bool, opaque: bool)
    ensures
        perform((visible, opaque, 0nat), install_effects()) == Some(
            window_of(DockAutoHide { visible: false, opaque: false, hide_pending: false }),
        ),
{
    reveal_with_fuel(perform, 3);
    assert(install_effects().drop_first() =~= seq![DockEffect::SetVisible(false)]);
}

/// Entering the hotzone while the bars are shown reveals the dock: it is
/// shown, opaque, and no hide is pending.
pub proof fn hotzone_reveals_dock(s: DockAutoHide)
    ensures
        next_state(s, DockEvent::HotzoneEnter { bars_hidden: false }) == (DockAutoHide {
            visible: true,
            opaque: true,
            hide_pending: false,
        }),
{
}

/// While the bars are hidden over IPC, entering the hotzone does nothing.
pub proof fn hotzone_ignored_while_bars_hidden(s: DockAutoHide)
    ensures
        next_state(s, DockEvent::HotzoneEnter { bars_hidden: true }) == s,
        event_effects(s, DockEvent::HotzoneEnter { bars_hidden: true }) == Seq::<DockEffect>::empty(),
{
}

/// Leaving the dock schedules its hide: when the timer then fires, the
/// dock is hidden and transparent, with no timer left.
pub proof fn leave_then_timeout_hides_dock(s: DockAutoHide)
    ensures
        next_state(s, DockEvent::DockLeave).hide_pending,
        next_state(next_state(s, DockEvent::DockLeave), DockEvent::HideTimerFired) == (DockAutoHide {
            visible: false,
            opaque: false,
            hide_pending: false,
        }),
{
}

/// Coming back into the dock before the hide timer fires cancels the hide:
/// the dock stays as shown as it was, becomes opaque, and no hide is
/// pending.
pub proof fn reentering_dock_cancels_hide(s: DockAutoHide)
    ensures
        ({
            let back = next_state(next_state(s, DockEvent::DockLeave), DockEvent::DockEnter);
            &&& back.visible == s.visible
            &&& back.opaque
            &&& !back.hide_pending
        }),
        event_effects(next_state(s, DockEvent::DockLeave), DockEvent::DockEnter)[0]
            == DockEffect::CancelHideTimer,
{
}

/// Leaving the dock always ends with a fresh hide timer, after removing
/// the pending one if there is one; and only leaving the dock starts a
/// timer.
pub proof fn leaving_starts_a_fresh_timer(s: DockAutoHide, e: DockEvent)
    ensures
        event_effects(s, DockEvent::DockLeave).last() == DockEffect::ScheduleHide,
        s.hide_pending ==> event_effects(s, DockEvent::DockLeave)[0] == DockEffect::CancelHideTimer,
        e != DockEvent::DockLeave ==> !event_effects(s, e).contains(DockEffect::ScheduleHide),
{
    let effs = event_effects(s, e);
    if e != DockEvent::DockLeave && effs.contains(DockEffect::ScheduleHide) {
        let k = choose|k: int| 0 <= k < effs.len() && effs[k] == DockEffect::ScheduleHide;
        assert(effs[k] == DockEffect::ScheduleHide);
    }
}

} // verus!
