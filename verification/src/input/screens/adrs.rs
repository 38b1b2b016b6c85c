//! The ADR list screen: cursor movement over the (possibly filtered)
//! rows, opening the actions menu, and leaving the screen.

use vstd::prelude::*;

use crate::input::helpers::{adrs_total_rows, list_nav_index};
use crate::input::Key;
use crate::state::{App, AppScreen};

verus! {

/// Everything one key does on the ADR list screen, as a relation
/// between the state before and after.
pub open spec fn view_adrs_post(pre: App, post: App, key: Key) -> bool {
    &&& (key == Key::Esc && pre.search_active ==> {
        &&& post.search_active == false
        &&& post.search_query@ == Seq::<char>::empty()
        &&& post.filtered_blip_indices@.len() == 0
        &&& post.filtered_adr_indices@.len() == 0
        &&& post.selected_adr_index == 0
    })
    &&& (key == Key::Esc && !pre.search_active ==> post.screen == AppScreen::Main && post == (App {
        screen: AppScreen::Main,
        ..pre
    }))
    &&& (key == Key::Enter ==> {
        &&& (adrs_total_rows(pre) > 0 ==> post.screen == AppScreen::AdrActions
            && post.adr_action_index == 0 && post == (App {
            screen: AppScreen::AdrActions,
            adr_action_index: 0,
            ..pre
        }))
        &&& (adrs_total_rows(pre) == 0 ==> post == pre)
    })
    &&& ((key == Key::Up || key == Key::Down) ==> {
        &&& post.selected_adr_index == list_nav_index(
            key,
            pre.selected_adr_index as int,
            adrs_total_rows(pre),
        )
        &&& post == (App { selected_adr_index: post.selected_adr_index, ..pre })
    })
    &&& (!(key == Key::Esc || key == Key::Enter || key == Key::Up || key == Key::Down) ==> post
        == pre)
}

pub fn handle_view_adrs_input(app: &mut App, key: Key)
    requires
        old(app).wf(),
    ensures
        final(app).wf(),
        view_adrs_post(*old(app), *final(app), key),
{
    let total_rows = if app.filtered_adr_indices.len() == 0 {
        app.adrs.len()
    } else {
        app.filtered_adr_indices.len()
    };
    match key {
        Key::Esc => {
            if app.search_active {
                app.clear_search();
            } else {
                app.screen = AppScreen::Main;
            }
        },
        Key::Enter => {
            if total_rows > 0 {
                app.adr_action_index = 0;
                app.screen = AppScreen::AdrActions;
            }
        },
        Key::Up => {
            if app.selected_adr_index > 0 {
                app.selected_adr_index = app.selected_adr_index - 1;
            }
        },
        Key::Down => {
            if total_rows > 0 && app.selected_adr_index < total_rows - 1 {
                app.selected_adr_index = app.selected_adr_index + 1;
            }
        },
        _ => {},
    }
}

} // verus!
