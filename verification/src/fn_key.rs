//! The Fn/Globe key: turning raw key events into debounced presses, and
//! noticing the key while a new hotkey is being recorded.
use vstd::prelude::*;

verus! {

/// Key code of the Fn key (Intel Macs and older keyboards).
pub const FN_KEYCODE: i64 = 63;
/// Key code of the Globe key (Apple Silicon keyboards).
pub const GLOBE_KEYCODE: i64 = 179;
/// The Fn modifier bit in an event's flags.
pub const FN_FLAG: u64 = 0x0080_0000;
/// Presses closer together than this, in ms, count once.
pub const DEBOUNCE_MS: u64 = 300;

/// The kinds of key event the tap listens to.
#[derive(Debug, Clone, Copy, PartialEq, Eq, Structural)]
pub enum KeyEventKind {
    KeyDown,
    KeyUp,
    FlagsChanged,
    Other,
}

/// What the tap does with an event.
#[derive(Debug, Clone, Copy, PartialEq, Eq, Structural)]
pub enum TapAction {
    /// Nothing.
    Pass,
    /// Tell the settings page that the Fn key was pressed.
    NotifyFnDetected,
    /// Send one press to the pipeline.
    SendPress,
}

/// The tap's memory: whether the key is held, and when the last press was sent.
#[derive(Debug, Clone, Copy, PartialEq, Eq, Structural)]
pub struct FnKeyTap {
    pub fn_pressed: bool,
    pub last_press_ms: u64,
}

/// `now - then`, or 0 if `then` is later.
pub open spec fn since(now: u64, then: u64) -> u64 {
    if now >= then {
        (now - then) as u64
    } else {
        0
    }
}

/// Whether the event is the Fn or Globe key going down.
pub open spec fn is_fn_down(kind: KeyEventKind, keycode: i64, flags: u64) -> bool {
    (kind == KeyEventKind::KeyDown && keycode == GLOBE_KEYCODE) || (kind
        == KeyEventKind::FlagsChanged && keycode == FN_KEYCODE && flags & FN_FLAG != 0)
}

/// Whether the event is the Fn or Globe key going up.
pub open spec fn is_fn_up(kind: KeyEventKind, keycode: i64, flags: u64) -> bool {
    (kind == KeyEventKind::KeyUp && keycode == GLOBE_KEYCODE) || (kind == KeyEventKind::FlagsChanged
        && keycode == FN_KEYCODE && flags & FN_FLAG == 0)
}

/// A press is sent unless the last one was less than 300 ms ago.
pub open spec fn press_step(tap: FnKeyTap, now: u64) -> (FnKeyTap, TapAction) {
    if since(now, tap.last_press_ms) < DEBOUNCE_MS {
        (tap, TapAction::Pass)
    } else {
        (FnKeyTap { last_press_ms: now, ..tap }, TapAction::SendPress)
    }
}

/// The tap's step: while recording a hotkey, Fn/Globe presses are reported
/// and nothing else happens; while disabled, nothing happens; otherwise the
/// key going down (when not already down) sends a debounced press, and the
/// key going up is remembered.
pub open spec fn tap_step(
    tap: FnKeyTap,
    kind: KeyEventKind,
    keycode: i64,
    flags: u64,
    recording: bool,
    enabled: bool,
    now: u64,
) -> (FnKeyTap, TapAction) {
    if recording {
        if is_fn_down(kind, keycode, flags) {
            (tap, TapAction::NotifyFnDetected)
        } else {
            (tap, TapAction::Pass)
        }
    } else if !enabled {
        (tap, TapAction::Pass)
    } else if is_fn_down(kind, keycode, flags) {
        if tap.fn_pressed {
            (tap, TapAction::Pass)
        } else {
            press_step(FnKeyTap { fn_pressed: true, ..tap }, now)
        }
    } else if is_fn_up(kind, keycode, flags) {
        (FnKeyTap { fn_pressed: false, ..tap }, TapAction::Pass)
    } else {
        (tap, TapAction::Pass)
    }
}

impl FnKeyTap {
    /// A tap with the key up and no press sent.
    pub fn new() -> (tap: FnKeyTap)
        ensures
            tap == (FnKeyTap { fn_pressed: false, last_press_ms: 0 }),
    {
        FnKeyTap { fn_pressed: false, last_press_ms: 0 }
    }

    /// Handles one key event seen at `now_ms`.
    pub fn on_event(
        &mut self,
        kind: KeyEventKind,
        keycode: i64,
        flags: u64,
        recording: bool,
        enabled: bool,
        now_ms: u64,
    ) -> (action: TapAction)
        ensures
            (*final(self), action) == tap_step(*old(self), kind, keycode, flags, recording, enabled, now_ms),
    {
        let fn_flag = flags & FN_FLAG != 0;
        let down = (kind == KeyEventKind::KeyDown && keycode == GLOBE_KEYCODE) || (kind
            == KeyEventKind::FlagsChanged && keycode == FN_KEYCODE && fn_flag);
        let up = (kind == KeyEventKind::KeyUp && keycode == GLOBE_KEYCODE) || (kind
            == KeyEventKind::FlagsChanged && keycode == FN_KEYCODE && !fn_flag);
        if recording {
            return if down {
                TapAction::NotifyFnDetected
            } else {
                TapAction::Pass
            };
        }
        if !enabled {
            return TapAction::Pass;
        }
        if down {
            if self.fn_pressed {
                return TapAction::Pass;
            }
            self.fn_pressed = true;
            if now_ms.saturating_sub(self.last_press_ms) < DEBOUNCE_MS {
                return TapAction::Pass;
            }
            self.last_press_ms = now_ms;
            TapAction::SendPress
        } else if up {
            self.fn_pressed = false;
            TapAction::Pass
        } else {
            TapAction::Pass
        }
    }
}

/// A second press less than 300 ms after a sent one is dropped, even after
/// the key was released in between.
pub proof fn lemma_debounce_drops_quick_repeat(tap: FnKeyTap, t1: u64, t2: u64, flags: u64)
    requires
        !tap.fn_pressed,
        since(t1, tap.last_press_ms) >= DEBOUNCE_MS,
        t1 <= t2,
        t2 < t1 + DEBOUNCE_MS,
    ensures
        ({
            let (s1, a1) = tap_step(tap, KeyEventKind::KeyDown, GLOBE_KEYCODE, flags, false, true, t1);
            let (s2, _) = tap_step(s1, KeyEventKind::KeyUp, GLOBE_KEYCODE, flags, false, true, t1);
            let (_, a3) = tap_step(s2, KeyEventKind::KeyDown, GLOBE_KEYCODE, flags, false, true, t2);
            a1 == TapAction::SendPress && a3 == TapAction::Pass
        }),
{
}

/// Holding the key sends one press: a repeated key-down while held does nothing.
pub proof fn lemma_held_key_sends_once(tap: FnKeyTap, kind: KeyEventKind, keycode: i64, flags: u64, now: u64)
    requires
        tap.fn_pressed,
    ensures
        tap_step(tap, kind, keycode, flags, false, true, now).1 != TapAction::SendPress,
{
}

/// While a hotkey is being recorded the tap never drives the pipeline or
/// changes its memory.
pub proof fn lemma_recording_only_reports(
    tap: FnKeyTap,
    kind: KeyEventKind,
    keycode: i64,
    flags: u64,
    enabled: bool,
    now: u64,
)
    ensures
        tap_step(tap, kind, keycode, flags, true, enabled, now).0 == tap,
        tap_step(tap, kind, keycode, flags, true, enabled, now).1 != TapAction::SendPress,
{
}

} // verus!
