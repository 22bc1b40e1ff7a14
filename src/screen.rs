use vstd::prelude::*;

use crate::types::PinMap;

verus! {

/// The screens the display can show.
#[derive(Debug, Clone, Copy, PartialEq, Eq, Structural)]
pub enum ScreenOptions {
    Home,
    Menu,
    SystemInfo,
    Wifi,
}

/// The key that brings every screen but `Home` back to `Home`.
pub const RETURN_KEY: PinMap = PinMap::KeyCancel;

/// Whether `key` moves the display away from `screen`.
pub open spec fn has_transition(screen: ScreenOptions, key: PinMap) -> bool {
    match screen {
        ScreenOptions::Home => key == PinMap::KeyOk || key == PinMap::KeyCancel,
        _ => key == RETURN_KEY,
    }
}

/// The transition table: the screen shown after `key` is pressed on `screen`.
pub open spec fn next_screen(screen: ScreenOptions, key: PinMap) -> ScreenOptions {
    match screen {
        ScreenOptions::Home => {
            if key == PinMap::KeyOk {
                ScreenOptions::Menu
            } else if key == PinMap::KeyCancel {
                ScreenOptions::SystemInfo
            } else {
                ScreenOptions::Home
            }
        },
        _ => {
            if key == RETURN_KEY {
                ScreenOptions::Home
            } else {
                screen
            }
        },
    }
}

/// Applies one key press to the current screen.
pub fn apply(screen: ScreenOptions, key: PinMap) -> (r: ScreenOptions)
    ensures
        r == next_screen(screen, key),
{
    match screen {
        ScreenOptions::Home => {
            if key == PinMap::KeyOk {
                ScreenOptions::Menu
            } else if key == PinMap::KeyCancel {
                ScreenOptions::SystemInfo
            } else {
                ScreenOptions::Home
            }
        },
        _ => {
            if key == RETURN_KEY {
                ScreenOptions::Home
            } else {
                screen
            }
        },
    }
}

/// The transition table is total: every pair of screen and key has one
/// successor, a key without a transition leaves the screen as it is, and a key
/// with one changes it.
pub proof fn lemma_transition_total(screen: ScreenOptions, key: PinMap)
    ensures
        has_transition(screen, key) <==> next_screen(screen, key) != screen,
        !has_transition(screen, key) ==> next_screen(screen, key) == screen,
{
}

/// Every screen that a key leads to from `Home` goes back to `Home` on the
/// return key.
pub proof fn lemma_return_home(key: PinMap)
    requires
        next_screen(ScreenOptions::Home, key) != ScreenOptions::Home,
    ensures
        next_screen(next_screen(ScreenOptions::Home, key), RETURN_KEY) == ScreenOptions::Home,
{
}

} // verus!
