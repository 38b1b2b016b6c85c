//! The blip list screen: cursor movement over the (possibly filtered)
//! rows, opening the actions menu, and leaving the screen.

use vstd::prelude::*;

use crate::input::helpers::{blips_total_rows, list_nav_index};
use crate::input::Key;
use crate::state::{App, AppScreen};

verus! {

/// Everything one key does on the blip list screen, as a relation
/// between the state before and after.
pub open spec fn view_blips_post(pre: App, post: App, key: Key) -> bool {
    &&& (key == Key::Esc && pre.search_active ==> {
        &&& post.search_active == false
        &&& post.search_query@ == Seq::<char>::empty()
        &&& post.filtered_blip_indices@.len() == 0
        &&& post.filtered_adr_indices@.len() == 0
        &&& post.selected_blip_index == 0
    })
    &&& (key == Key::Esc && !pre.search_active ==> post.screen == AppScreen::Main && post == (App {
        screen: AppScreen::Main,
        ..pre
    }))
    &&& (key == Key::Char('q') ==> post.running == false && post == (App {
        running: false,
        ..pre
    }))
    &&& (key == Key::Enter ==> {
        &&& (blips_total_rows(pre) > 0 ==> post.screen == AppScreen::BlipActions && post == (App {
            screen: AppScreen::BlipActions,
            ..pre
        }))
        &&& (blips_total_rows(pre) == 0 ==> post == pre)
    })
    &&& ((key == Key::Up || key == Key::Down || key == Key::PageUp || key == Key::PageDown || key
        == Key::Home || key == Key::End) ==> {
        &&& post.selected_blip_index == list_nav_index(
            key,
            pre.selected_blip_index as int,
            blips_total_rows(pre),
        )
        &&& post == (App { selected_blip_index: post.selected_blip_index, ..pre })
    })
    &&& (!(key == Key::Esc || key == Key::Char('q') || key == Key::Enter || key == Key::Up || key
        == Key::Down || key == Key::PageUp || key == Key::PageDown || key == Key::Home || key
        == Key::End) ==> post == pre)
}

pub fn handle_view_blips_input(app: &mut App, key: Key)
    requires
        old(app).wf(),
    ensures
        final(app).wf(),
        view_blips_post(*old(app), *final(app), key),
{
    let total_rows = if app.filtered_blip_indices.len() == 0 {
        app.blips.len()
    } else {
        app.filtered_blip_indices.len()
    };
    match key {
        Key::Esc => {
            if app.search_active {
                app.clear_search();
            } else {
                app.screen = AppScreen::Main;
            }
        },
        Key::Char(c) => {
            if c == 'q' {
                app.running = false;
            }
        },
        Key::Enter => {
            if total_rows > 0 {
                app.screen = AppScreen::BlipActions;
            }
        },
        Key::Up => {
            if app.selected_blip_index > 0 {
                app.selected_blip_index = app.selected_blip_index - 1;
            }
        },
        Key::Down => {
            if total_rows > 0 && app.selected_blip_index < total_rows - 1 {
                app.selected_blip_index = app.selected_blip_index + 1;
            }
        },
        Key::PageUp => {
            if app.selected_blip_index > 0 {
                if app.selected_blip_index >= 5 {
                    app.selected_blip_index = app.selected_blip_index - 5;
                } else {
                    app.selected_blip_index = 0;
                }
            }
        },
        Key::PageDown => {
            if total_rows > 0 {
                if app.selected_blip_index >= total_rows - 1 {
                    app.selected_blip_index = total_rows - 1;
                } else if total_rows - 1 - app.selected_blip_index < 5 {
                    app.selected_blip_index = total_rows - 1;
                } else {
                    app.selected_blip_index = app.selected_blip_index + 5;
                }
            }
        },
        Key::Home => {
            app.selected_blip_index = 0;
        },
        Key::End => {
            if total_rows > 0 {
                app.selected_blip_index = total_rows - 1;
            }
        },
        _ => {},
    }
}

} // verus!
