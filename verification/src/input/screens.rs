//! The per-screen input handlers and the dispatcher that routes a key to
//! the active screen.

pub mod adr_actions;
pub mod adr_details;
pub mod adrs;
pub mod blip_actions;
pub mod blip_details;
pub mod blips;
pub mod edit_adr;
pub mod edit_blip;
pub mod help;
pub mod main;

use vstd::prelude::*;
use vstd::string::*;

use crate::input::helpers::{wrap_dec_spec, wrap_decrement, wrap_inc_spec, wrap_increment};
use crate::input::Key;
use crate::mirror::MirrorJob;
use crate::state::{App, AppScreen};
use crate::strutil::{pop_char, push_char, trimmed};

verus! {

/// A mirror write one of the edit forms asks the surrounding application
/// to carry out, tagged with the entry kind for the degraded-success
/// notice.
pub enum PendingMirror {
    Blip(MirrorJob),
    Adr(MirrorJob),
}

/// Writes the edited settings value into the selected settings field and
/// applies it.
fn apply_settings_value(app: &mut App)
    ensures
        old(app).settings_selection_index == 0 ==> final(app).settings_adr_dir@
            == crate::strutil::trim_of(old(app).settings_input@),
        old(app).settings_selection_index == 1 ==> final(app).settings_blip_dir@
            == crate::strutil::trim_of(old(app).settings_input@),
        old(app).settings_selection_index == 2 ==> final(app).settings_db_name@
            == crate::strutil::trim_of(old(app).settings_input@),
        final(app).adrs_dir == final(app).settings_adr_dir,
        final(app).blips_dir == final(app).settings_blip_dir,
        *final(app) == (App {
            settings_adr_dir: final(app).settings_adr_dir,
            settings_blip_dir: final(app).settings_blip_dir,
            settings_db_name: final(app).settings_db_name,
            adrs_dir: final(app).adrs_dir,
            blips_dir: final(app).blips_dir,
            ..*old(app)
        }),
{
    let value = trimmed(app.settings_input.as_str());
    if app.settings_selection_index == 0 {
        app.settings_adr_dir = value;
    } else if app.settings_selection_index == 1 {
        app.settings_blip_dir = value;
    } else if app.settings_selection_index == 2 {
        app.settings_db_name = value;
    }
    app.apply_settings_runtime();
}

/// The settings editor shown inside the help overlay: row selection, a
/// per-row editing toggle, and committing a row into the store.
/// Everything one key does in the settings editor, as a relation
/// between the state before and after.
pub open spec fn settings_post(pre: App, post: App, key: Key) -> bool {
    &&& (pre.settings_editing ==> {
        &&& (key == Key::Esc ==> post.settings_editing == false && post.settings_input@ == Seq::<char>::empty())
        &&& (key == Key::Enter ==> post.settings_editing == false && post.settings_input@ == Seq::<char>::empty() && post.status_message@
            == "Settings saved"@)
        &&& ((key matches Key::Char(c)) ==> post.settings_input@ == pre.settings_input@.push(key->Char_0))
    })
    &&& (!pre.settings_editing ==> {
        &&& (key == Key::Up ==> post.settings_selection_index == wrap_dec_spec(
            pre.settings_selection_index as int,
            3,
        ))
        &&& (key == Key::Down ==> post.settings_selection_index == wrap_inc_spec(
            pre.settings_selection_index as int,
            3,
        ))
        &&& (key == Key::Enter ==> post.settings_editing == true)
    })
}

fn handle_settings_input(app: &mut App, key: Key)
    requires
        old(app).wf(),
    ensures
        final(app).wf(),
        settings_post(*old(app), *final(app), key),
{
    if app.settings_editing {
        match key {
            Key::Esc => {
                app.settings_editing = false;
                app.settings_input = String::new();
            },
            Key::Enter => {
                apply_settings_value(app);
                let _ = app.persist_settings();
                app.settings_editing = false;
                app.settings_input = String::new();
                app.status_message = String::from_str("Settings saved");
            },
            Key::Backspace => {
                let _ = pop_char(&mut app.settings_input);
            },
            Key::Char(ch) => {
                push_char(&mut app.settings_input, ch);
            },
            _ => {},
        }
        return ;
    }
    match key {
        Key::Up => {
            app.settings_selection_index = wrap_decrement(app.settings_selection_index, 3);
        },
        Key::Down => {
            app.settings_selection_index = wrap_increment(app.settings_selection_index, 3);
        },
        Key::Enter => {
            app.settings_editing = true;
            app.settings_input = if app.settings_selection_index == 0 {
                app.settings_adr_dir.clone()
            } else if app.settings_selection_index == 1 {
                app.settings_blip_dir.clone()
            } else if app.settings_selection_index == 2 {
                app.settings_db_name.clone()
            } else {
                String::new()
            };
        },
        _ => {},
    }
}

/// The global search overlay: typing refines the query, the arrows move
/// through and between the two hit columns, enter jumps to the selected
/// hit's actions menu.
/// Everything one key does in the global search overlay, as a relation
/// between the state before and after.
pub open spec fn global_search_post(pre: App, post: App, key: Key) -> bool {
    &&& (key == Key::Esc ==> post.search_active == false && post.search_query@
        == Seq::<char>::empty() && post.status_message@ == "Search cleared"@)
    &&& (key == Key::Up ==> post.search_result_index == (if pre.search_result_index > 0 {
        pre.search_result_index - 1
    } else {
        0int
    }) && post == (App {
        search_result_index: post.search_result_index,
        ..pre
    }))
    &&& (key == Key::Down ==> {
        let total = pre.filtered_blip_indices@.len() + pre.filtered_adr_indices@.len();
        &&& post.search_result_index == (if total > 0 && pre.search_result_index
            < total - 1 {
            pre.search_result_index + 1
        } else {
            pre.search_result_index as int
        })
        &&& post == (App {
            search_result_index: post.search_result_index,
            ..pre
        })
    })
    &&& (key == Key::Left ==> {
        let blip_count = pre.filtered_blip_indices@.len() as int;
        let row = if pre.search_result_index < blip_count {
            pre.search_result_index as int
        } else {
            pre.search_result_index - blip_count
        };
        &&& (blip_count == 0 ==> post == pre)
        &&& (blip_count > 0 ==> post.search_result_index == (if row < blip_count - 1 {
            row
        } else {
            blip_count - 1
        }) && post == (App {
            search_result_index: post.search_result_index,
            ..pre
        }))
    })
    &&& (key == Key::Right ==> {
        let blip_count = pre.filtered_blip_indices@.len() as int;
        let adr_count = pre.filtered_adr_indices@.len() as int;
        let row = if pre.search_result_index < blip_count {
            pre.search_result_index as int
        } else {
            pre.search_result_index - blip_count
        };
        &&& (adr_count == 0 ==> post == pre)
        &&& (adr_count > 0 ==> post.search_result_index == blip_count + (if row
            < adr_count - 1 {
            row
        } else {
            adr_count - 1
        }) && post == (App {
            search_result_index: post.search_result_index,
            ..pre
        }))
    })
    &&& (key == Key::Backspace ==> {
        &&& (pre.search_query@.len() > 0 ==> post.search_query@ == pre.search_query@.drop_last())
        &&& (pre.search_query@.len() == 0 ==> post.search_query@ == pre.search_query@)
        &&& crate::search::search_filters_ok(post)
    })
    &&& (key == Key::Enter ==> post.search_active == false)
    &&& (key == Key::Enter && pre.filtered_blip_indices@.len() + pre.filtered_adr_indices@.len() > 0 && pre.search_result_index < pre.filtered_blip_indices@.len() ==> post.selected_blip_index == pre.search_result_index && post.screen == AppScreen::BlipActions)
    &&& (key == Key::Enter && pre.search_result_index >= pre.filtered_blip_indices@.len() && pre.search_result_index - pre.filtered_blip_indices@.len() < pre.filtered_adr_indices@.len() ==> post.selected_adr_index == pre.search_result_index - pre.filtered_blip_indices@.len() && post.adr_action_index == 0 && post.screen
        == AppScreen::AdrActions)
    &&& ((key matches Key::Char(c)) ==> post.search_query@ == pre.search_query@.push(
        key->Char_0,
    ) && crate::search::search_filters_ok(post))
}

fn handle_global_search_input(app: &mut App, key: Key)
    requires
        old(app).wf(),
    ensures
        final(app).wf(),
        global_search_post(*old(app), *final(app), key),
{
    match key {
        Key::Esc => {
            app.clear_search();
            app.status_message = String::from_str("Search cleared");
        },
        Key::Up => {
            if app.search_result_index > 0 {
                app.search_result_index = app.search_result_index - 1;
            }
        },
        Key::Down => {
            let total_results = app.filtered_blip_indices.len() + app.filtered_adr_indices.len();
            if total_results > 0 && app.search_result_index < total_results - 1 {
                app.search_result_index = app.search_result_index + 1;
            }
        },
        Key::Left => {
            let blip_count = app.filtered_blip_indices.len();
            if blip_count == 0 {
                return ;
            }
            let row = if app.search_result_index < blip_count {
                app.search_result_index
            } else {
                app.search_result_index - blip_count
            };
            app.search_result_index = if row < blip_count - 1 {
                row
            } else {
                blip_count - 1
            };
        },
        Key::Right => {
            let blip_count = app.filtered_blip_indices.len();
            let adr_count = app.filtered_adr_indices.len();
            if adr_count == 0 {
                return ;
            }
            let row = if app.search_result_index < blip_count {
                app.search_result_index
            } else {
                app.search_result_index - blip_count
            };
            let clamped = if row < adr_count - 1 {
                row
            } else {
                adr_count - 1
            };
            app.search_result_index = blip_count + clamped;
        },
        Key::Enter => {
            let total_results = app.filtered_blip_indices.len() + app.filtered_adr_indices.len();
            if total_results == 0 {
                app.search_active = false;
                app.status_message = String::from_str("Search applied");
                return ;
            }
            if app.search_result_index < app.filtered_blip_indices.len() {
                app.selected_blip_index = app.search_result_index;
                app.screen = AppScreen::BlipActions;
            } else {
                let adr_index = app.search_result_index - app.filtered_blip_indices.len();
                if adr_index < app.filtered_adr_indices.len() {
                    app.selected_adr_index = adr_index;
                    app.adr_action_index = 0;
                    app.screen = AppScreen::AdrActions;
                }
            }
            app.search_active = false;
            app.status_message = String::from_str("Search applied");
        },
        Key::Backspace => {
            let _ = pop_char(&mut app.search_query);
            app.apply_search_filter();
        },
        Key::Char(ch) => {
            push_char(&mut app.search_query, ch);
            app.apply_search_filter();
        },
        _ => {},
    }
}

/// Whether the animation toggle swallows the key: space, anywhere except
/// name entry and the blip edit form.
pub open spec fn animation_toggle_consumes(app: App, key: Key) -> bool {
    key == Key::Char(' ') && !(app.input_state == crate::state::InputState::EnteringTechnology
        || app.screen == AppScreen::EditBlip)
}

/// Whether a key reaches the active screen's handler: the help overlay,
/// the animation toggle, the search overlay and the search key all come
/// first.
pub open spec fn key_reaches_screen(app: App, key: Key) -> bool {
    &&& !app.show_help
    &&& key != Key::F(1u8)
    &&& !animation_toggle_consumes(app, key)
    &&& !app.search_active
    &&& key != Key::Char('s')
}

/// Routes one key event: the help overlay and the animation toggle come
/// first, then an active search, then the global search key, then the
/// active screen's handler.  Any mirror write an edit form asks for is
/// handed back.  For a key that reaches a screen, the screen handler's
/// whole relation holds.
pub fn dispatch_input(app: &mut App, key: Key) -> (r: Option<PendingMirror>)
    requires
        old(app).wf(),
    ensures
        final(app).wf(),
        key == Key::F(1u8) ==> final(app).show_help == !old(app).show_help && r is None && *final(app)
            == (App { show_help: final(app).show_help, ..*old(app) }),
        old(app).show_help && key != Key::F(1u8) ==> {
            &&& (key == Key::Esc ==> final(app).show_help == false)
            &&& (key != Key::Esc ==> final(app).show_help == true)
            &&& *final(app) == (App { show_help: final(app).show_help, ..*old(app) })
            &&& r is None
        },
        !old(app).show_help && key != Key::F(1u8) && animation_toggle_consumes(*old(app), key)
            ==> final(app).animation_paused == !old(app).animation_paused && r is None,
        !old(app).show_help && key != Key::F(1u8) && !animation_toggle_consumes(*old(app), key)
            && old(app).search_active ==> global_search_post(*old(app), *final(app), key)
            && r is None,
        !old(app).show_help && !old(app).search_active && key == Key::Char('s') ==> final(app).search_active == true && final(app).search_query@ == Seq::<char>::empty() && r is None,
        key_reaches_screen(*old(app), key) && old(app).screen == AppScreen::ViewBlips
            ==> blips::view_blips_post(*old(app), *final(app), key) && r is None,
        key_reaches_screen(*old(app), key) && old(app).screen == AppScreen::BlipActions
            ==> blip_actions::blip_actions_post(*old(app), *final(app), key) && r is None,
        key_reaches_screen(*old(app), key) && old(app).screen == AppScreen::ViewAdrs
            ==> adrs::view_adrs_post(*old(app), *final(app), key) && r is None,
        key_reaches_screen(*old(app), key) && old(app).screen == AppScreen::AdrActions
            ==> adr_actions::adr_actions_post(*old(app), *final(app), key) && r is None,
        key_reaches_screen(*old(app), key) && old(app).screen == AppScreen::AdrDetails
            ==> adr_details::adr_details_post(*old(app), *final(app), key) && r is None,
        key_reaches_screen(*old(app), key) && old(app).screen == AppScreen::BlipDetails
            ==> blip_details::blip_details_post(*old(app), *final(app), key) && r is None,
        key_reaches_screen(*old(app), key) && old(app).screen == AppScreen::EditBlip ==> (match r {
            Option::None => edit_blip::edit_blip_post(*old(app), *final(app), key, None),
            Option::Some(PendingMirror::Blip(job)) => edit_blip::edit_blip_post(
                *old(app),
                *final(app),
                key,
                Some(job),
            ),
            Option::Some(PendingMirror::Adr(job)) => false,
        }),
        key_reaches_screen(*old(app), key) && old(app).screen == AppScreen::EditAdr ==> (match r {
            Option::None => edit_adr::edit_adr_post(*old(app), *final(app), key, None),
            Option::Some(PendingMirror::Adr(job)) => edit_adr::edit_adr_post(
                *old(app),
                *final(app),
                key,
                Some(job),
            ),
            Option::Some(PendingMirror::Blip(job)) => false,
        }),
        key_reaches_screen(*old(app), key) && old(app).screen == AppScreen::Main
            ==> main::main_input_post(*old(app), *final(app), key) && r is None,
{
    if app.show_help {
        if help::handle_help_toggle(app, key) {
            return None;
        }
        handle_settings_input(app, key);
        return None;
    }
    if help::handle_help_toggle(app, key) {
        return None;
    }
    if help::handle_animation_toggle(app, key) {
        return None;
    }
    if app.search_active {
        handle_global_search_input(app, key);
        return None;
    }
    if key == Key::Char('s') {
        let _ = app.ensure_adrs_loaded();
        main::start_search(app);
        return None;
    }
    match app.screen {
        AppScreen::ViewBlips => {
            blips::handle_view_blips_input(app, key);
            None
        },
        AppScreen::BlipActions => {
            blip_actions::handle_blip_actions_input(app, key);
            None
        },
        AppScreen::ViewAdrs => {
            adrs::handle_view_adrs_input(app, key);
            None
        },
        AppScreen::AdrActions => {
            adr_actions::handle_adr_actions_input(app, key);
            None
        },
        AppScreen::AdrDetails => {
            adr_details::handle_adr_details_input(app, key);
            None
        },
        AppScreen::EditAdr => {
            match edit_adr::handle_edit_adr_input(app, key) {
                Some(job) => Some(PendingMirror::Adr(job)),
                None => None,
            }
        },
        AppScreen::BlipDetails => {
            blip_details::handle_blip_details_input(app, key);
            None
        },
        AppScreen::EditBlip => {
            match edit_blip::handle_edit_blip_input(app, key) {
                Some(job) => Some(PendingMirror::Blip(job)),
                None => None,
            }
        },
        AppScreen::Main => {
            main::handle_main_input(app, key);
            None
        },
    }
}

} // verus!
