//! The blip details screen: escape returns to the list.

use vstd::prelude::*;

use crate::input::Key;
use crate::state::{App, AppScreen};

verus! {

/// Everything one key does on the blip details screen.
pub open spec fn blip_details_post(pre: App, post: App, key: Key) -> bool {
    &&& (key == Key::Esc ==> post.screen == AppScreen::ViewBlips && post == (App {
        screen: AppScreen::ViewBlips,
        ..pre
    }))
    &&& (key != Key::Esc ==> post == pre)
}

pub fn handle_blip_details_input(app: &mut App, key: Key)
    ensures
        blip_details_post(*old(app), *final(app), key),
{
    if key == Key::Esc {
        app.screen = AppScreen::ViewBlips;
    }
}

} // verus!
