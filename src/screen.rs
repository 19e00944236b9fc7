//! Decisions of the interactive screens that do not depend on the terminal:
//! keys, the topic screen's navigation, the tick budget, and layout sums.

use vstd::prelude::*;
use crate::store::{next_index, previous_index, TopicActivityMenuState};

verus! {

/// A key press, as the screens distinguish them.
#[derive(Debug, Clone, Copy, PartialEq, Eq, Structural)]
pub enum Key {
    Tab,
    BackTab,
    Up,
    Down,
    Enter,
    Esc,
    Backspace,
    Char(char),
    Other,
}

/// The topic screen's tick, in milliseconds.
pub const TICK_RATE_MS: u64 = 250;

/// How long the configuration and splash screens wait for a key, in
/// milliseconds.
pub const INPUT_POLL_MS: u64 = 100;

/// Apply a key on the topic screen: `q` quits, Down and Up move the cursor,
/// anything else is ignored. Returns whether to quit.
pub fn handle_activity_key(menu_state: &mut TopicActivityMenuState, key: Key) -> (quit: bool)
    requires
        old(menu_state).selection_valid(),
    ensures
        quit == (key == Key::Char('q')),
        final(menu_state).topics@ == old(menu_state).topics@,
        final(menu_state).selected_index == (match key {
            Key::Down => next_index(
                old(menu_state).selected_index as nat,
                old(menu_state).topics.len() as nat,
            ),
            Key::Up => previous_index(
                old(menu_state).selected_index as nat,
                old(menu_state).topics.len() as nat,
            ),
            _ => old(menu_state).selected_index as nat,
        }),
        final(menu_state).selection_valid(),
{
    match key {
        Key::Char('q') => true,
        Key::Down => {
            menu_state.next();
            false
        },
        Key::Up => {
            menu_state.previous();
            false
        },
        _ => false,
    }
}

/// What is left of a tick of `tick_ms` after `elapsed_ms`: the time to wait
/// for input, zero once the tick is spent.
pub fn remaining_budget(tick_ms: u64, elapsed_ms: u64) -> (r: u64)
    ensures
        r == (if elapsed_ms <= tick_ms {
            tick_ms - elapsed_ms
        } else {
            0
        }),
{
    match tick_ms.checked_sub(elapsed_ms) {
        Some(left) => left,
        None => 0,
    }
}

/// A rectangle of terminal cells.
#[derive(Debug, Clone, Copy, PartialEq, Eq, Structural)]
pub struct Area {
    pub x: u16,
    pub y: u16,
    pub width: u16,
    pub height: u16,
}

pub open spec fn min_u16(a: u16, b: u16) -> u16 {
    if a <= b {
        a
    } else {
        b
    }
}

/// A `width` by `height` rectangle centred in `r`, shrunk to fit it.
pub fn centered_rect(width: u16, height: u16, r: Area) -> (c: Area)
    requires
        r.x + r.width <= u16::MAX,
        r.y + r.height <= u16::MAX,
    ensures
        c.width == min_u16(width, r.width),
        c.height == min_u16(height, r.height),
        c.x == r.x + (r.width - c.width) / 2,
        c.y == r.y + (r.height - c.height) / 2,
{
    let clamped_width = if width <= r.width {
        width
    } else {
        r.width
    };
    let clamped_height = if height <= r.height {
        height
    } else {
        r.height
    };
    let x = r.x + (r.width - clamped_width) / 2;
    let y = r.y + (r.height - clamped_height) / 2;
    Area { x, y, width: clamped_width, height: clamped_height }
}

/// The splash screen shows its banner only on a terminal of at least 80
/// columns and 20 rows.
pub fn shows_splash_art(width: u16, height: u16) -> (r: bool)
    ensures
        r == (width >= 80 && height >= 20),
{
    width >= 80 && height >= 20
}

} // verus!
