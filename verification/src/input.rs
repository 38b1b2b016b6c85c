//! Keyboard-driven control: the key event type the application feeds in,
//! the wrapping cursor helpers, and the per-screen input handlers.

pub mod helpers;
pub mod screens;

use vstd::prelude::*;

verus! {

/// A key event, as the surrounding terminal layer hands it in.
#[derive(Debug, Clone, Copy, PartialEq, Eq, Structural)]
pub enum Key {
    Char(char),
    F(u8),
    Enter,
    Esc,
    Backspace,
    Up,
    Down,
    Left,
    Right,
    PageUp,
    PageDown,
    Home,
    End,
    Other,
}

/// Feeds one key event into the application, returning any mirror write
/// it asks for.  For a key that reaches a screen, the screen handler's
/// whole relation holds, as `dispatch_input` states.
pub fn handle_input(app: &mut crate::state::App, key: Key) -> (r: Option<
    crate::input::screens::PendingMirror,
>)
    requires
        old(app).wf(),
    ensures
        final(app).wf(),
        crate::input::screens::key_reaches_screen(*old(app), key) ==> (match old(app).screen {
            crate::state::AppScreen::ViewBlips => crate::input::screens::blips::view_blips_post(
                *old(app),
                *final(app),
                key,
            ) && r is None,
            crate::state::AppScreen::BlipActions
                => crate::input::screens::blip_actions::blip_actions_post(
                *old(app),
                *final(app),
                key,
            ) && r is None,
            crate::state::AppScreen::ViewAdrs => crate::input::screens::adrs::view_adrs_post(
                *old(app),
                *final(app),
                key,
            ) && r is None,
            crate::state::AppScreen::AdrActions
                => crate::input::screens::adr_actions::adr_actions_post(
                *old(app),
                *final(app),
                key,
            ) && r is None,
            crate::state::AppScreen::AdrDetails
                => crate::input::screens::adr_details::adr_details_post(
                *old(app),
                *final(app),
                key,
            ) && r is None,
            crate::state::AppScreen::BlipDetails
                => crate::input::screens::blip_details::blip_details_post(
                *old(app),
                *final(app),
                key,
            ) && r is None,
            crate::state::AppScreen::EditBlip => (match r {
                Option::None => crate::input::screens::edit_blip::edit_blip_post(
                    *old(app),
                    *final(app),
                    key,
                    None,
                ),
                Option::Some(crate::input::screens::PendingMirror::Blip(job))
                    => crate::input::screens::edit_blip::edit_blip_post(
                    *old(app),
                    *final(app),
                    key,
                    Some(job),
                ),
                Option::Some(crate::input::screens::PendingMirror::Adr(job)) => false,
            }),
            crate::state::AppScreen::EditAdr => (match r {
                Option::None => crate::input::screens::edit_adr::edit_adr_post(
                    *old(app),
                    *final(app),
                    key,
                    None,
                ),
                Option::Some(crate::input::screens::PendingMirror::Adr(job))
                    => crate::input::screens::edit_adr::edit_adr_post(
                    *old(app),
                    *final(app),
                    key,
                    Some(job),
                ),
                Option::Some(crate::input::screens::PendingMirror::Blip(job)) => false,
            }),
            crate::state::AppScreen::Main => crate::input::screens::main::main_input_post(
                *old(app),
                *final(app),
                key,
            ) && r is None,
        }),
        key == Key::F(1u8) ==> final(app).show_help == !old(app).show_help && r is None,
        !old(app).show_help && key != Key::F(1u8)
            && !crate::input::screens::animation_toggle_consumes(*old(app), key) && old(app).search_active ==> crate::input::screens::global_search_post(*old(app), *final(app), key)
            && r is None,
        !old(app).show_help && !old(app).search_active && key == Key::Char('s') ==> final(app).search_active == true && final(app).search_query@ == Seq::<char>::empty() && r is None,
{
    crate::input::screens::dispatch_input(app, key)
}

} // verus!
