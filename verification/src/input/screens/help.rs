//! The help overlay toggle and the global animation pause key.

use vstd::prelude::*;

use crate::input::Key;
use crate::state::{App, AppScreen, InputState};

verus! {

/// Handles the help toggle: the help key flips the overlay, and while the
/// overlay is open, escape closes it and every other key is swallowed.
/// Returns whether the key was consumed.
pub fn handle_help_toggle(app: &mut App, key: Key) -> (r: bool)
    ensures
        key == Key::F(1u8) ==> r == true && final(app).show_help == !old(app).show_help
            && *final(app) == (App { show_help: final(app).show_help, ..*old(app) }),
        key != Key::F(1u8) && old(app).show_help ==> r == true && (key == Key::Esc ==> final(app).show_help == false) && (key != Key::Esc ==> final(app).show_help == true) && *final(app)
            == (App { show_help: final(app).show_help, ..*old(app) }),
        key != Key::F(1u8) && !old(app).show_help ==> r == false && *final(app) == *old(app),
{
    if key == Key::F(1) {
        app.show_help = !app.show_help;
        return true;
    }
    if app.show_help {
        if key == Key::Esc {
            app.show_help = false;
        }
        return true;
    }
    false
}

/// Handles the animation pause key: space toggles the pause unless the
/// user is typing (name entry or the blip edit form).  Returns whether the
/// key was consumed.
pub fn handle_animation_toggle(app: &mut App, key: Key) -> (r: bool)
    ensures
        key != Key::Char(' ') ==> r == false && *final(app) == *old(app),
        key == Key::Char(' ') && (old(app).input_state == InputState::EnteringTechnology || old(app).screen == AppScreen::EditBlip) ==> r == false && *final(app) == *old(app),
        key == Key::Char(' ') && !(old(app).input_state == InputState::EnteringTechnology || old(app).screen == AppScreen::EditBlip) ==> {
            &&& r == true
            &&& final(app).animation_paused == !old(app).animation_paused
            &&& *final(app) == (App {
                animation_paused: final(app).animation_paused,
                status_message: final(app).status_message,
                ..*old(app)
            })
        },
{
    if key == Key::Char(' ') {
        if matches!(app.input_state, InputState::EnteringTechnology) || matches!(
            app.screen,
            AppScreen::EditBlip,
        ) {
            return false;
        }
        app.toggle_animation_pause();
        return true;
    }
    false
}

} // verus!
