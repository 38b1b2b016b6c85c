//! The ADR actions menu: details, the edit form, and back; while a search
//! is active, typing keeps refining it.

use vstd::prelude::*;
use vstd::string::*;

use crate::input::screens::edit_adr::{AdrEditField, AdrEditState};
use crate::input::Key;
use crate::models::{clone_adr, AdrRecord};
use crate::search::search_filters_ok;
use crate::state::{adr_status_of_str, App, AppScreen, AdrStatus};
use crate::strutil::{lower_of, pop_char, push_char, trim_of};

verus! {

/// The ADR row the actions menu acts on: the highlighted row of the
/// filtered list while a filter is in effect, else of the whole list.
pub open spec fn selected_adr_of(app: App) -> Option<AdrRecord> {
    if app.filtered_adr_indices@.len() == 0 {
        if app.selected_adr_index < app.adrs@.len() {
            Some(app.adrs@[app.selected_adr_index as int])
        } else {
            None
        }
    } else {
        if app.selected_adr_index < app.filtered_adr_indices@.len() {
            let i = app.filtered_adr_indices@[app.selected_adr_index as int];
            if i < app.adrs@.len() {
                Some(app.adrs@[i as int])
            } else {
                None
            }
        } else {
            None
        }
    }
}

/// Copies the ADR row the actions menu acts on, if any.
pub fn selected_adr_record(app: &App) -> (r: Option<AdrRecord>)
    ensures
        r == selected_adr_of(*app),
{
    if app.filtered_adr_indices.len() == 0 {
        if app.selected_adr_index < app.adrs.len() {
            Some(clone_adr(&app.adrs[app.selected_adr_index]))
        } else {
            None
        }
    } else {
        if app.selected_adr_index < app.filtered_adr_indices.len() {
            let i = app.filtered_adr_indices[app.selected_adr_index];
            if i < app.adrs.len() {
                Some(clone_adr(&app.adrs[i]))
            } else {
                None
            }
        } else {
            None
        }
    }
}

/// Everything one key does on the ADR actions menu, as a relation
/// between the state before and after.
pub open spec fn adr_actions_post(pre: App, post: App, key: Key) -> bool {
    &&& (pre.search_active ==> {
        &&& (key == Key::Esc ==> post.search_active == false && post.screen
            == AppScreen::ViewAdrs)
        &&& ((key matches Key::Char(c)) ==> post.search_query@ == pre.search_query@.push(key->Char_0) && search_filters_ok(post))
        &&& (key == Key::Backspace ==> search_filters_ok(post))
        &&& (key == Key::Enter ==> post.search_active == false && post.status_message@ == "Search applied"@ && search_filters_ok(post))
    })
    &&& (!pre.search_active ==> {&&& (key == Key::Up ==> post.adr_action_index == (if pre.adr_action_index > 0 { pre.adr_action_index - 1 } else { 0int }) && post == (App {
            adr_action_index: post.adr_action_index,
            ..pre
        }))
        &&& (key == Key::Down ==> post.adr_action_index == (if pre.adr_action_index >= 2 { 0int } else { pre.adr_action_index + 1 }) && post == (App {
            adr_action_index: post.adr_action_index,
            ..pre
        }))
        &&& (key == Key::Esc ==> post.screen == AppScreen::ViewAdrs && post
            == (App { screen: AppScreen::ViewAdrs, ..pre }))
        &&& (key == Key::Enter && pre.adr_action_index == 0 ==> post.screen
            == AppScreen::AdrDetails && post == (App {
            screen: AppScreen::AdrDetails,
            ..pre
        }))
        &&& (key == Key::Enter && pre.adr_action_index == 1 ==> {
            if selected_adr_of(pre) is Some {
                let adr = selected_adr_of(pre).unwrap();
                &&& post.edit_adr_state is Some
                &&& post.edit_adr_state.unwrap().id == adr.id
                &&& post.edit_adr_state.unwrap().title == adr.title
                &&& post.edit_adr_state.unwrap().status == (
                match adr_status_of_str(lower_of(trim_of(adr.status@))) {
                    Some(st) => st,
                    None => AdrStatus::Proposed,
                })
                &&& post.edit_adr_state.unwrap().field == AdrEditField::Title
                &&& post.edit_adr_state.unwrap().editing == false
                &&& post.screen == AppScreen::EditAdr
            } else {
                post == pre
            }
        })
        &&& (key == Key::Enter && pre.adr_action_index >= 2 ==> post.screen
            == AppScreen::ViewAdrs && post == (App {
            screen: AppScreen::ViewAdrs,
            ..pre
        }))
        &&& (!(key == Key::Up || key == Key::Down || key == Key::Enter || key == Key::Esc)
            ==> post == pre)
    })
}

pub fn handle_adr_actions_input(app: &mut App, key: Key)
    requires
        old(app).wf(),
    ensures
        final(app).wf(),
        adr_actions_post(*old(app), *final(app), key),
{
    if app.search_active {
        match key {
            Key::Esc => {
                app.clear_search();
                app.screen = AppScreen::ViewAdrs;
            },
            Key::Char(ch) => {
                push_char(&mut app.search_query, ch);
                app.apply_search_filter();
            },
            Key::Backspace => {
                let _ = pop_char(&mut app.search_query);
                app.apply_search_filter();
            },
            Key::Enter => {
                app.search_active = false;
                app.apply_search_filter();
                app.status_message = String::from_str("Search applied");
            },
            _ => {},
        }
        return ;
    }
    match key {
        Key::Up => {
            if app.adr_action_index > 0 {
                app.adr_action_index = app.adr_action_index - 1;
            }
        },
        Key::Down => {
            if app.adr_action_index >= 2 {
                app.adr_action_index = 0;
            } else {
                app.adr_action_index = app.adr_action_index + 1;
            }
        },
        Key::Enter => {
            if app.adr_action_index == 0 {
                app.screen = AppScreen::AdrDetails;
            } else if app.adr_action_index == 1 {
                match selected_adr_record(app) {
                    Some(adr) => {
                        let status = match AdrStatus::parse(adr.status.as_str()) {
                            Some(st) => st,
                            None => AdrStatus::Proposed,
                        };
                        app.edit_adr_state = Some(
                            AdrEditState {
                                id: adr.id,
                                field: AdrEditField::Title,
                                title: adr.title,
                                status,
                                editing: false,
                            },
                        );
                        app.screen = AppScreen::EditAdr;
                    },
                    None => {},
                }
            } else {
                app.screen = AppScreen::ViewAdrs;
            }
        },
        Key::Esc => {
            app.screen = AppScreen::ViewAdrs;
        },
        _ => {},
    }
}

} // verus!
