use vstd::prelude::*;

verus! {

/// Identifier of the card window (one per process, shown and hidden, never rebuilt).
pub const CARD_WINDOW_ID: &'static str = "card";

/// How long a loss of focus waits before it is checked again, in milliseconds.
pub const BLUR_DEBOUNCE_MS: u64 = 120;

/// For this long after a tray click, in milliseconds, a loss of focus never hides the card.
pub const TRAY_CLICK_GUARD_MS: u64 = 120;

/// Width of the card in logical pixels.
pub const CARD_WIDTH: u32 = 320;

/// Height of the card in logical pixels.
pub const CARD_HEIGHT: u32 = 440;

/// What a click on the tray icon does to the card.
#[derive(Debug, Clone, Copy, PartialEq, Eq)]
pub enum CardAction {
    /// The card window does not exist: nothing to do.
    Nothing,
    /// Hide the card and tell the page it was hidden.
    Hide,
    /// Place the card, show it, focus it and tell the page it was shown.
    Show,
}

/// `now - then`, or 0 when `then` is later.
pub open spec fn elapsed(now: u64, then: u64) -> int {
    if now >= then { now - then } else { 0 }
}

/// The card is still without focus after the debounce wait. `window` is `None` when the
/// card window is gone, `Some(None)` when its focus could not be read (taken as not
/// focused), `Some(Some(f))` otherwise.
pub open spec fn still_blurred(window: Option<Option<bool>>) -> bool {
    match window {
        None => false,
        Some(None) => true,
        Some(Some(focused)) => !focused,
    }
}

/// The tray-click action for a card window whose visibility is `window` (same encoding:
/// a failed read counts as hidden).
pub open spec fn tray_action(window: Option<Option<bool>>) -> CardAction {
    match window {
        None => CardAction::Nothing,
        Some(Some(true)) => CardAction::Hide,
        Some(_) => CardAction::Show,
    }
}

/// After a loss of focus and the debounce wait: hide the card only if it is still
/// without focus and no tray click happened within the guard window (a tray click both
/// blurs the card and toggles it; hiding here as well would undo the toggle).
pub fn blur_should_hide(window: Option<Option<bool>>, now_ms: u64, last_tray_click_ms: u64) -> (r: bool)
    ensures
        r == (still_blurred(window) && elapsed(now_ms, last_tray_click_ms) >= TRAY_CLICK_GUARD_MS),
{
    let blurred = match window {
        None => false,
        Some(None) => true,
        Some(Some(focused)) => !focused,
    };
    let since_click = now_ms.saturating_sub(last_tray_click_ms);
    blurred && !(since_click < TRAY_CLICK_GUARD_MS)
}

/// What a left click on the tray icon does: a visible card is hidden, a hidden one is
/// shown, and nothing happens without a card window.
pub fn toggle_card(window: Option<Option<bool>>) -> (r: CardAction)
    ensures
        r == tray_action(window),
{
    match window {
        None => CardAction::Nothing,
        Some(Some(true)) => CardAction::Hide,
        Some(_) => CardAction::Show,
    }
}

/// Geometry of the monitor under the cursor and of the card, in physical pixels.
#[derive(Debug, Clone, Copy)]
pub struct Placement {
    pub cursor_x: i32,
    pub monitor_x: i32,
    pub monitor_y: i32,
    pub monitor_width: i32,
    pub monitor_height: i32,
    pub card_width: i32,
    pub card_height: i32,
    /// Gap kept from the left and right monitor edges.
    pub side_margin: i32,
    /// Gap kept from the top (menu bar side) or bottom (task bar side) edge.
    pub edge_margin: i32,
    /// The menu bar is at the top (macOS); otherwise the task bar is at the bottom.
    pub bar_on_top: bool,
}

/// Half of `w`, rounded toward zero (Rust's `/` on integers).
pub open spec fn half(w: int) -> int {
    if w >= 0 { w / 2 } else { -((-w) / 2) }
}

/// Leftmost allowed card position.
pub open spec fn min_x(p: Placement) -> int {
    p.monitor_x + p.side_margin
}

/// Rightmost allowed card position.
pub open spec fn max_x(p: Placement) -> int {
    p.monitor_x + p.monitor_width - p.card_width - p.side_margin
}

/// The card's top-left corner: near the top edge under a top menu bar, above the
/// bottom edge otherwise; horizontally centred on the cursor and kept between the side
/// margins (pinned to the left margin when the monitor is too narrow).
pub open spec fn card_corner(p: Placement) -> (int, int) {
    let y = if p.bar_on_top {
        p.monitor_y + p.edge_margin
    } else {
        p.monitor_y + p.monitor_height - p.card_height - p.edge_margin
    };
    let centred = p.cursor_x - half(p.card_width as int);
    let x = if max_x(p) < min_x(p) {
        min_x(p)
    } else if centred < min_x(p) {
        min_x(p)
    } else if centred > max_x(p) {
        max_x(p)
    } else {
        centred
    };
    (x, y)
}

/// Where to show the card (see `card_corner`). Computed in 64 bits, so no input
/// overflows; the caller converts to the window system's 32-bit coordinates.
pub fn position_card(p: Placement) -> (r: (i64, i64))
    ensures
        r.0 == card_corner(p).0,
        r.1 == card_corner(p).1,
        max_x(p) >= min_x(p) ==> min_x(p) <= r.0 <= max_x(p),
{
    let w = p.card_width as i64;
    let h = p.card_height as i64;
    let y = if p.bar_on_top {
        p.monitor_y as i64 + p.edge_margin as i64
    } else {
        p.monitor_y as i64 + p.monitor_height as i64 - h - p.edge_margin as i64
    };
    let lo = p.monitor_x as i64 + p.side_margin as i64;
    let hi = p.monitor_x as i64 + p.monitor_width as i64 - w - p.side_margin as i64;
    let half_w = if w >= 0 { w / 2 } else { -((-w) / 2) };
    let centred = p.cursor_x as i64 - half_w;
    let x = if hi < lo {
        lo
    } else if centred < lo {
        lo
    } else if centred > hi {
        hi
    } else {
        centred
    };
    (x, y)
}

} // verus!
