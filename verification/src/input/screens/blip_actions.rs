//! The blip actions menu: details, the ADR action (view the linked ADRs,
//! or pre-seed the wizard to create one), and the edit form; while a
//! search is active, typing keeps refining it.

use vstd::prelude::*;
use vstd::string::*;

use crate::input::helpers::{wrap_decrement, wrap_increment, wrap_dec_spec, wrap_inc_spec};
use crate::input::Key;
use crate::models::{clone_blip, BlipRecord};
use crate::search::search_filters_ok;
use crate::state::{App, AppScreen, AdrStatus, EditBlipState, InputMode, InputState};
use crate::strutil::{pop_char, push_char};

verus! {

/// The blip row the actions menu acts on: the highlighted row of the
/// filtered list while a filter is in effect, else of the whole list.
pub open spec fn selected_blip_of(app: App) -> Option<BlipRecord> {
    if app.filtered_blip_indices@.len() == 0 {
        if app.selected_blip_index < app.blips@.len() {
            Some(app.blips@[app.selected_blip_index as int])
        } else {
            None
        }
    } else {
        if app.selected_blip_index < app.filtered_blip_indices@.len() {
            let i = app.filtered_blip_indices@[app.selected_blip_index as int];
            if i < app.blips@.len() {
                Some(app.blips@[i as int])
            } else {
                None
            }
        } else {
            None
        }
    }
}

/// Copies the blip row the actions menu acts on, if any.
pub fn selected_blip_record(app: &App) -> (r: Option<BlipRecord>)
    ensures
        r == selected_blip_of(*app),
{
    if app.filtered_blip_indices.len() == 0 {
        if app.selected_blip_index < app.blips.len() {
            Some(clone_blip(&app.blips[app.selected_blip_index]))
        } else {
            None
        }
    } else {
        if app.selected_blip_index < app.filtered_blip_indices.len() {
            let i = app.filtered_blip_indices[app.selected_blip_index];
            if i < app.blips.len() {
                Some(clone_blip(&app.blips[i]))
            } else {
                None
            }
        } else {
            None
        }
    }
}

/// The ADR action for the highlighted blip: with a linked ADR, load and
/// show its ADR list; without one, pre-seed the wizard with the blip's
/// name, quadrant and ring and jump straight to the status picker.
pub fn handle_adr_action(app: &mut App)
    requires
        old(app).wf(),
    ensures
        final(app).wf(),
        selected_blip_of(*old(app)) is None ==> final(app).screen == AppScreen::ViewBlips
            && *final(app) == (App { screen: AppScreen::ViewBlips, ..*old(app) }),
        selected_blip_of(*old(app)) is Some ==> {
            let blip = selected_blip_of(*old(app)).unwrap();
            if blip.has_adr {
                &&& final(app).adrs@ == old(app).store.adrs@.filter(
                    |a: crate::models::AdrRecord| a.blip_name@ == blip.name@,
                ) || (blip.name@.len() == 0 && final(app).adrs@ == old(app).store.adrs@)
                &&& final(app).selected_adr_index == 0
                &&& final(app).screen == AppScreen::ViewAdrs
            } else {
                &&& final(app).input_mode == Some(InputMode::Adr)
                &&& final(app).blip_data.name == blip.name
                &&& final(app).blip_data.quadrant == blip.quadrant
                &&& final(app).blip_data.ring == blip.ring
                &&& final(app).adr_status_selection_index == 0
                &&& final(app).adr_status == Some(AdrStatus::Proposed)
                &&& final(app).input_state == InputState::ChoosingAdrStatus
                &&& final(app).screen == AppScreen::Main
                &&& final(app).status_message@ == "Select ADR status"@
                &&& *final(app) == (App {
                    input_mode: Some(InputMode::Adr),
                    blip_data: final(app).blip_data,
                    adr_status_selection_index: 0,
                    adr_status: Some(AdrStatus::Proposed),
                    input_state: InputState::ChoosingAdrStatus,
                    screen: AppScreen::Main,
                    status_message: final(app).status_message,
                    ..*old(app)
                })
            }
        },
{
    let blip = match selected_blip_record(app) {
        Some(b) => b,
        None => {
            app.screen = AppScreen::ViewBlips;
            return ;
        },
    };
    if blip.has_adr {
        match app.fetch_adrs_for_blip(blip.name.as_str()) {
            Ok(()) => {
                app.selected_adr_index = 0;
                app.screen = AppScreen::ViewAdrs;
            },
            Err(_) => {
                app.screen = AppScreen::ViewBlips;
            },
        }
        return ;
    }
    app.input_mode = Some(InputMode::Adr);
    app.blip_data.name = blip.name;
    app.blip_data.quadrant = blip.quadrant;
    app.blip_data.ring = blip.ring;
    app.adr_status_selection_index = 0;
    app.adr_status = Some(AdrStatus::Proposed);
    app.input_state = InputState::ChoosingAdrStatus;
    app.screen = AppScreen::Main;
    app.status_message = String::from_str("Select ADR status");
}

/// Everything one key does on the blip actions menu, as a relation
/// between the state before and after.
pub open spec fn blip_actions_post(pre: App, post: App, key: Key) -> bool {
    &&& (pre.search_active ==> {
        &&& (key == Key::Esc ==> post.search_active == false && post.screen
            == AppScreen::ViewBlips)
        &&& ((key matches Key::Char(c)) ==> post.search_query@ == pre.search_query@.push(key->Char_0) && search_filters_ok(post))
        &&& (key == Key::Backspace ==> search_filters_ok(post))
        &&& (key == Key::Enter ==> post.search_active == false && post.status_message@ == "Search applied"@ && search_filters_ok(post))
    })
    &&& (!pre.search_active ==> {&&& (key == Key::Up ==> post.blip_action_index == wrap_dec_spec(
            pre.blip_action_index as int,
            4,
        ) && post == (App {
            blip_action_index: post.blip_action_index,
            ..pre
        }))
        &&& (key == Key::Down ==> post.blip_action_index == wrap_inc_spec(
            pre.blip_action_index as int,
            4,
        ) && post == (App {
            blip_action_index: post.blip_action_index,
            ..pre
        }))
        &&& (key == Key::Esc ==> post.screen == AppScreen::ViewBlips && post
            == (App { screen: AppScreen::ViewBlips, ..pre }))
        &&& (key == Key::Enter && pre.blip_action_index == 0 ==> post.screen
            == AppScreen::BlipDetails && post == (App {
            screen: AppScreen::BlipDetails,
            ..pre
        }))
        &&& (key == Key::Enter && pre.blip_action_index == 1 ==> {
            if selected_blip_of(pre) is None {
                post.screen == AppScreen::ViewBlips && post == (App {
                    screen: AppScreen::ViewBlips,
                    ..pre
                })
            } else {
                let blip = selected_blip_of(pre).unwrap();
                if blip.has_adr {
                    &&& post.adrs@ == pre.store.adrs@.filter(
                        |a: crate::models::AdrRecord| a.blip_name@ == blip.name@,
                    ) || (blip.name@.len() == 0 && post.adrs@ == pre.store.adrs@)
                    &&& post.selected_adr_index == 0
                    &&& post.screen == AppScreen::ViewAdrs
                } else {
                    &&& post.input_mode == Some(InputMode::Adr)
                    &&& post.blip_data.name == blip.name
                    &&& post.blip_data.quadrant == blip.quadrant
                    &&& post.blip_data.ring == blip.ring
                    &&& post.adr_status_selection_index == 0
                    &&& post.adr_status == Some(AdrStatus::Proposed)
                    &&& post.input_state == InputState::ChoosingAdrStatus
                    &&& post.screen == AppScreen::Main
                    &&& post.status_message@ == "Select ADR status"@
                }
            }
        })
        &&& (key == Key::Enter && pre.blip_action_index == 2 ==> {
            if selected_blip_of(pre) is Some {
                &&& post.edit_blip_state is Some
                &&& crate::state::edit_form_matches(
                    post.edit_blip_state.unwrap(),
                    selected_blip_of(pre).unwrap(),
                )
                &&& post.edit_blip_state.unwrap().field == crate::state::EditField::Name
                &&& post.screen == AppScreen::EditBlip
            } else {
                post == pre
            }
        })
        &&& (key == Key::Enter && !(pre.blip_action_index == 0 || pre.blip_action_index == 1 || pre.blip_action_index == 2) ==> post.screen
            == AppScreen::ViewBlips && post == (App {
            screen: AppScreen::ViewBlips,
            ..pre
        }))
        &&& (!(key == Key::Up || key == Key::Down || key == Key::Enter || key == Key::Esc)
            ==> post == pre)
    })
}

pub fn handle_blip_actions_input(app: &mut App, key: Key)
    requires
        old(app).wf(),
    ensures
        final(app).wf(),
        blip_actions_post(*old(app), *final(app), key),
{
    if app.search_active {
        match key {
            Key::Esc => {
                app.clear_search();
                app.screen = AppScreen::ViewBlips;
            },
            Key::Char(ch) => {
                push_char(&mut app.search_query, ch);
                app.apply_search_filter();
            },
            Key::Backspace => {
                let _ = pop_char(&mut app.search_query);
                app.apply_search_filter();
            },
            Key::Enter => {
                app.search_active = false;
                app.apply_search_filter();
                app.status_message = String::from_str("Search applied");
            },
            _ => {},
        }
        return ;
    }
    match key {
        Key::Up => {
            app.blip_action_index = wrap_decrement(app.blip_action_index, 4);
        },
        Key::Down => {
            app.blip_action_index = wrap_increment(app.blip_action_index, 4);
        },
        Key::Enter => {
            if app.blip_action_index == 0 {
                app.screen = AppScreen::BlipDetails;
            } else if app.blip_action_index == 1 {
                handle_adr_action(app);
            } else if app.blip_action_index == 2 {
                match selected_blip_record(app) {
                    Some(blip) => {
                        app.edit_blip_state = Some(EditBlipState::from_blip(&blip));
                        app.screen = AppScreen::EditBlip;
                    },
                    None => {},
                }
            } else {
                app.screen = AppScreen::ViewBlips;
            }
        },
        Key::Esc => {
            app.screen = AppScreen::ViewBlips;
        },
        _ => {},
    }
}

} // verus!
