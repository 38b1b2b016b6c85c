//! The main screen: the creation wizard driven by mode selection, name
//! entry with a memoized uniqueness check, the three pickers, and the
//! completion panel's follow-up keys.

use vstd::prelude::*;
use vstd::string::*;

use crate::input::helpers::{wrap_dec_spec, wrap_decrement, wrap_inc_spec, wrap_increment};
use crate::input::Key;
use crate::state::{AdrStatus, App, AppScreen, InputMode, InputState};
use crate::store::has_blip_name;
use crate::strutil::{pop_char, push_char, trim_of, trimmed};

verus! {

/// Opens the global search with a blank query.
pub fn start_search(app: &mut App)
    requires
        old(app).wf(),
    ensures
        final(app).wf(),
        final(app).search_active == true,
        final(app).search_query@ == Seq::<char>::empty(),
        final(app).search_result_index == 0,
        final(app).filtered_blip_indices@.len() == 0,
        final(app).filtered_adr_indices@.len() == 0,
{
    app.search_active = true;
    app.search_query = String::new();
    app.search_result_index = 0;
    app.apply_search_filter();
}

fn handle_fetch_blips(app: &mut App)
    requires
        old(app).wf(),
    ensures
        final(app).wf(),
        final(app).blips@ == old(app).store.blips@,
        final(app).selected_blip_index == 0,
        final(app).screen == AppScreen::ViewBlips,
{
    match app.fetch_blips() {
        Ok(()) => {
            app.selected_blip_index = 0;
            app.screen = AppScreen::ViewBlips;
        },
        Err(_) => {},
    }
}

fn handle_fetch_adrs(app: &mut App)
    requires
        old(app).wf(),
    ensures
        final(app).wf(),
        final(app).adrs@ == old(app).store.adrs@,
        final(app).selected_adr_index == 0,
        final(app).screen == AppScreen::ViewAdrs,
{
    proof {
        reveal_strlit("");
    }
    match app.fetch_adrs_for_blip("") {
        Ok(()) => {
            app.selected_adr_index = 0;
            app.screen = AppScreen::ViewAdrs;
        },
        Err(_) => {},
    }
}

fn handle_mode_selection(app: &mut App, key: Key)
    requires
        old(app).wf(),
        old(app).input_state == InputState::WaitingForCommand,
    ensures
        final(app).wf(),
        key == Key::Up ==> final(app).input_mode_selection_index == wrap_dec_spec(
            old(app).input_mode_selection_index as int,
            2,
        ),
        key == Key::Down ==> final(app).input_mode_selection_index == wrap_inc_spec(
            old(app).input_mode_selection_index as int,
            2,
        ),
        key == Key::Left ==> final(app).chart_tab_index == wrap_dec_spec(
            old(app).chart_tab_index as int,
            2,
        ),
        key == Key::Right ==> final(app).chart_tab_index == wrap_inc_spec(
            old(app).chart_tab_index as int,
            2,
        ),
        key == Key::Enter ==> final(app).input_state == InputState::EnteringTechnology,
        key == Key::Char('a') ==> final(app).input_state == InputState::EnteringTechnology
            && final(app).input_mode == Some(InputMode::Adr),
        key == Key::Char('b') ==> final(app).input_state == InputState::EnteringTechnology
            && final(app).input_mode == Some(InputMode::Blip),
        (key == Key::Char('n') || key == Key::Esc) ==> final(app).input_state
            == InputState::WaitingForCommand && final(app).input_mode is None,
        key == Key::Char('q') ==> final(app).running == false,
        key == Key::Char('l') ==> final(app).screen == AppScreen::ViewBlips && final(app).blips@
            == old(app).store.blips@ && final(app).selected_blip_index == 0,
        key == Key::Char('v') ==> final(app).screen == AppScreen::ViewAdrs && final(app).adrs@
            == old(app).store.adrs@ && final(app).selected_adr_index == 0,
{
    match key {
        Key::Up => {
            app.input_mode_selection_index = wrap_decrement(app.input_mode_selection_index, 2);
        },
        Key::Down => {
            app.input_mode_selection_index = wrap_increment(app.input_mode_selection_index, 2);
        },
        Key::Left => {
            app.chart_tab_index = wrap_decrement(app.chart_tab_index, 2);
        },
        Key::Right => {
            app.chart_tab_index = wrap_increment(app.chart_tab_index, 2);
        },
        Key::Enter => {
            app.advance_state();
        },
        Key::Char(c) => {
            if c == 'a' {
                app.input_mode_selection_index = 0;
                app.advance_state();
            } else if c == 'b' {
                app.input_mode_selection_index = 1;
                app.advance_state();
            } else if c == 'n' {
                app.reset();
            } else if c == 'l' {
                handle_fetch_blips(app);
            } else if c == 'v' {
                handle_fetch_adrs(app);
            } else if c == 'q' {
                app.running = false;
            }
        },
        Key::Esc => {
            app.reset();
        },
        _ => {},
    }
}

/// The submitted draft name: the typed input when it is non-empty, else
/// whatever the draft already held.
pub open spec fn submitted_name(app: App) -> Seq<char> {
    if app.current_input@.len() > 0 {
        app.current_input@
    } else {
        app.blip_data.name@
    }
}

fn handle_text_input(app: &mut App, key: Key)
    requires
        old(app).wf(),
        old(app).input_state == InputState::EnteringTechnology,
    ensures
        final(app).wf(),
        (key matches Key::Char(c)) ==> final(app).current_input@ == old(app).current_input@.push(
            key->Char_0,
        ) && *final(app) == (App { current_input: final(app).current_input, ..*old(app) }),
        key == Key::Backspace && old(app).current_input@.len() > 0 ==> final(app).current_input@
            == old(app).current_input@.drop_last(),
        key == Key::Esc ==> final(app).input_state == InputState::WaitingForCommand,
        key == Key::Enter && old(app).input_mode == Some(InputMode::Blip) ==> {
            let name = submitted_name(*old(app));
            let t = trim_of(name);
            if t.len() == 0 {
                // Nothing to check: the wizard moves on.
                final(app).input_state == InputState::ChoosingQuadrant
            } else if old(app).last_checked_blip_name is Some && old(app).last_checked_blip_name.unwrap()@ == t {
                // Memoized: no second store round-trip for the same name.
                if old(app).last_blip_name_exists {
                    final(app).input_state == InputState::EnteringTechnology
                } else {
                    final(app).input_state == InputState::ChoosingQuadrant
                        && final(app).quadrant_selection_index == 0
                }
            } else if has_blip_name(old(app).store.blips@, t) {
                &&& final(app).input_state == InputState::EnteringTechnology
                &&& final(app).status_message@ == "Error: Blip already exists: "@ + t
                &&& final(app).last_checked_blip_name is Some
                &&& final(app).last_checked_blip_name.unwrap()@ == t
                &&& final(app).last_blip_name_exists == true
            } else {
                &&& final(app).input_state == InputState::ChoosingQuadrant
                &&& final(app).quadrant_selection_index == 0
                &&& final(app).last_checked_blip_name is Some
                &&& final(app).last_checked_blip_name.unwrap()@ == t
                &&& final(app).last_blip_name_exists == false
            }
        },
        key == Key::Enter && old(app).input_mode != Some(InputMode::Blip) ==> {
            &&& final(app).adr_status == Some(AdrStatus::Proposed)
            &&& final(app).input_state == (if old(app).input_mode == Some(InputMode::Adr) {
                InputState::ChoosingAdrStatus
            } else {
                InputState::ChoosingQuadrant
            })
        },
{
    match key {
        Key::Char(c) => {
            push_char(&mut app.current_input, c);
        },
        Key::Backspace => {
            let _ = pop_char(&mut app.current_input);
        },
        Key::Enter => {
            app.process_current_input();
            if app.input_mode == Some(InputMode::Blip) {
                let blip_name = trimmed(app.blip_data.name.as_str());
                if blip_name.unicode_len() != 0 {
                    let already_checked = match &app.last_checked_blip_name {
                        Some(prev) => crate::strutil::str_eq(prev.as_str(), blip_name.as_str()),
                        None => false,
                    };
                    if !already_checked {
                        if app.store.blip_exists_by_name(blip_name.as_str()) {
                            let mut message = String::from_str("Error: Blip already exists: ");
                            message.append(blip_name.as_str());
                            app.status_message = message;
                            app.last_checked_blip_name = Some(blip_name);
                            app.last_blip_name_exists = true;
                            return ;
                        }
                        app.last_checked_blip_name = Some(blip_name);
                        app.last_blip_name_exists = false;
                    }
                    if app.last_blip_name_exists {
                        return ;
                    }
                }
            } else {
                app.adr_status_selection_index = 0;
                app.adr_status = Some(AdrStatus::Proposed);
            }
            app.advance_state();
        },
        Key::Esc => {
            app.reset();
        },
        _ => {},
    }
}

fn handle_adr_status_selection(app: &mut App, key: Key)
    requires
        old(app).wf(),
        old(app).input_state == InputState::ChoosingAdrStatus,
    ensures
        final(app).wf(),
        key == Key::Up ==> final(app).adr_status_selection_index == wrap_dec_spec(
            old(app).adr_status_selection_index as int,
            5,
        ),
        key == Key::Down ==> final(app).adr_status_selection_index == wrap_inc_spec(
            old(app).adr_status_selection_index as int,
            5,
        ),
        key == Key::Enter && old(app).adr_status_selection_index < 5 ==> {
            &&& final(app).adr_status == crate::state::adr_status_of_index(
                old(app).adr_status_selection_index as int,
            )
            &&& final(app).input_state == InputState::GeneratingFile
        },
        key == Key::Esc ==> final(app).input_state == InputState::WaitingForCommand,
{
    match key {
        Key::Up => {
            app.adr_status_selection_index = wrap_decrement(app.adr_status_selection_index, 5);
        },
        Key::Down => {
            app.adr_status_selection_index = wrap_increment(app.adr_status_selection_index, 5);
        },
        Key::Enter => {
            app.process_current_input();
            app.advance_state();
        },
        Key::Esc => {
            app.reset();
        },
        _ => {},
    }
}

fn handle_quadrant_selection(app: &mut App, key: Key)
    requires
        old(app).wf(),
        old(app).input_state == InputState::ChoosingQuadrant,
    ensures
        final(app).wf(),
        key == Key::Up ==> final(app).quadrant_selection_index == wrap_dec_spec(
            old(app).quadrant_selection_index as int,
            4,
        ),
        key == Key::Down ==> final(app).quadrant_selection_index == wrap_inc_spec(
            old(app).quadrant_selection_index as int,
            4,
        ),
        key == Key::Enter && old(app).quadrant_selection_index < 4 ==> {
            &&& final(app).blip_data.quadrant == crate::domain::quadrant_of_index(
                old(app).quadrant_selection_index as int,
            )
            &&& final(app).input_state == InputState::ChoosingRing
            &&& final(app).ring_selection_index == 0
        },
        key == Key::Esc ==> final(app).input_state == InputState::WaitingForCommand,
{
    match key {
        Key::Up => {
            app.quadrant_selection_index = wrap_decrement(app.quadrant_selection_index, 4);
        },
        Key::Down => {
            app.quadrant_selection_index = wrap_increment(app.quadrant_selection_index, 4);
        },
        Key::Enter => {
            app.process_current_input();
            app.advance_state();
        },
        Key::Esc => {
            app.reset();
        },
        _ => {},
    }
}

fn handle_ring_selection(app: &mut App, key: Key)
    requires
        old(app).wf(),
        old(app).input_state == InputState::ChoosingRing,
    ensures
        final(app).wf(),
        key == Key::Up ==> final(app).ring_selection_index == wrap_dec_spec(
            old(app).ring_selection_index as int,
            4,
        ),
        key == Key::Down ==> final(app).ring_selection_index == wrap_inc_spec(
            old(app).ring_selection_index as int,
            4,
        ),
        key == Key::Enter && old(app).ring_selection_index < 4 ==> {
            &&& final(app).blip_data.ring == crate::domain::ring_of_index(
                old(app).ring_selection_index as int,
            )
            &&& final(app).input_state == InputState::GeneratingFile
        },
        key == Key::Esc ==> final(app).input_state == InputState::WaitingForCommand,
{
    match key {
        Key::Up => {
            app.ring_selection_index = wrap_decrement(app.ring_selection_index, 4);
        },
        Key::Down => {
            app.ring_selection_index = wrap_increment(app.ring_selection_index, 4);
        },
        Key::Enter => {
            app.process_current_input();
            app.advance_state();
        },
        Key::Esc => {
            app.reset();
        },
        _ => {},
    }
}

/// Everything one key does on the main screen, over every wizard state,
/// as a relation between the state before and after.
pub open spec fn main_input_post(pre: App, post: App, key: Key) -> bool {
    &&& (pre.input_state == InputState::GeneratingFile ==> post == pre)
    &&& (pre.input_state == InputState::WaitingForCommand ==> {
        &&& (key == Key::Up ==> post.input_mode_selection_index == wrap_dec_spec(
            pre.input_mode_selection_index as int,
            2,
        ))
        &&& (key == Key::Down ==> post.input_mode_selection_index == wrap_inc_spec(
            pre.input_mode_selection_index as int,
            2,
        ))
        &&& (key == Key::Left ==> post.chart_tab_index == wrap_dec_spec(
            pre.chart_tab_index as int,
            2,
        ))
        &&& (key == Key::Right ==> post.chart_tab_index == wrap_inc_spec(
            pre.chart_tab_index as int,
            2,
        ))
        &&& (key == Key::Enter ==> post.input_state == InputState::EnteringTechnology)
        &&& (key == Key::Char('a') ==> post.input_state
            == InputState::EnteringTechnology && post.input_mode == Some(
            InputMode::Adr,
        ))
        &&& (key == Key::Char('b') ==> post.input_state
            == InputState::EnteringTechnology && post.input_mode == Some(
            InputMode::Blip,
        ))
        &&& ((key == Key::Char('n') || key == Key::Esc) ==> post.input_state
            == InputState::WaitingForCommand && post.input_mode is None)
        &&& (key == Key::Char('q') ==> post.running == false)
        &&& (key == Key::Char('l') ==> post.screen == AppScreen::ViewBlips && post.blips@ == pre.store.blips@ && post.selected_blip_index == 0)
        &&& (key == Key::Char('v') ==> post.screen == AppScreen::ViewAdrs && post.adrs@ == pre.store.adrs@ && post.selected_adr_index == 0)
    })
    &&& (pre.input_state == InputState::EnteringTechnology ==> {
        &&& ((key matches Key::Char(c)) ==> post.current_input@ == pre.current_input@.push(key->Char_0) && post == (App {
            current_input: post.current_input,
            ..pre
        }))
        &&& (key == Key::Backspace && pre.current_input@.len() > 0 ==> post.current_input@ == pre.current_input@.drop_last())
        &&& (key == Key::Esc ==> post.input_state == InputState::WaitingForCommand)
        &&& (key == Key::Enter && pre.input_mode == Some(InputMode::Blip) ==> {
            let name = submitted_name(pre);
            let t = crate::strutil::trim_of(name);
            if t.len() == 0 {
                post.input_state == InputState::ChoosingQuadrant
            } else if pre.last_checked_blip_name is Some && pre.last_checked_blip_name.unwrap()@ == t {
                if pre.last_blip_name_exists {
                    post.input_state == InputState::EnteringTechnology
                } else {
                    post.input_state == InputState::ChoosingQuadrant && post.quadrant_selection_index == 0
                }
            } else if has_blip_name(pre.store.blips@, t) {
                &&& post.input_state == InputState::EnteringTechnology
                &&& post.status_message@ == "Error: Blip already exists: "@ + t
                &&& post.last_checked_blip_name is Some
                &&& post.last_checked_blip_name.unwrap()@ == t
                &&& post.last_blip_name_exists == true
            } else {
                &&& post.input_state == InputState::ChoosingQuadrant
                &&& post.quadrant_selection_index == 0
                &&& post.last_checked_blip_name is Some
                &&& post.last_checked_blip_name.unwrap()@ == t
                &&& post.last_blip_name_exists == false
            }
        })
        &&& (key == Key::Enter && pre.input_mode != Some(InputMode::Blip) ==> post.adr_status == Some(AdrStatus::Proposed) && post.input_state == (if pre.input_mode == Some(InputMode::Adr) {
            InputState::ChoosingAdrStatus
        } else {
            InputState::ChoosingQuadrant
        }))
    })
    &&& (pre.input_state == InputState::ChoosingAdrStatus ==> {
        &&& (key == Key::Up ==> post.adr_status_selection_index == wrap_dec_spec(
            pre.adr_status_selection_index as int,
            5,
        ))
        &&& (key == Key::Down ==> post.adr_status_selection_index == wrap_inc_spec(
            pre.adr_status_selection_index as int,
            5,
        ))
        &&& (key == Key::Enter && pre.adr_status_selection_index < 5 ==> post.adr_status == crate::state::adr_status_of_index(
            pre.adr_status_selection_index as int,
        ) && post.input_state == InputState::GeneratingFile)
        &&& (key == Key::Esc ==> post.input_state == InputState::WaitingForCommand)
    })
    &&& (pre.input_state == InputState::ChoosingQuadrant ==> {
        &&& (key == Key::Up ==> post.quadrant_selection_index == wrap_dec_spec(
            pre.quadrant_selection_index as int,
            4,
        ))
        &&& (key == Key::Down ==> post.quadrant_selection_index == wrap_inc_spec(
            pre.quadrant_selection_index as int,
            4,
        ))
        &&& (key == Key::Enter && pre.quadrant_selection_index < 4 ==> post.blip_data.quadrant == crate::domain::quadrant_of_index(
            pre.quadrant_selection_index as int,
        ) && post.input_state == InputState::ChoosingRing && post.ring_selection_index == 0)
        &&& (key == Key::Esc ==> post.input_state == InputState::WaitingForCommand)
    })
    &&& (pre.input_state == InputState::ChoosingRing ==> {
        &&& (key == Key::Up ==> post.ring_selection_index == wrap_dec_spec(
            pre.ring_selection_index as int,
            4,
        ))
        &&& (key == Key::Down ==> post.ring_selection_index == wrap_inc_spec(
            pre.ring_selection_index as int,
            4,
        ))
        &&& (key == Key::Enter && pre.ring_selection_index < 4 ==> post.blip_data.ring == crate::domain::ring_of_index(
            pre.ring_selection_index as int,
        ) && post.input_state == InputState::GeneratingFile)
        &&& (key == Key::Esc ==> post.input_state == InputState::WaitingForCommand)
    })
    &&& (pre.input_state == InputState::Completed ==> {
        &&& ((key == Key::Char('n') || key == Key::Esc) ==> post.input_state
            == InputState::WaitingForCommand)
        &&& (key == Key::Char('q') ==> post.running == false)
        &&& (key == Key::Char('l') ==> post.screen == AppScreen::ViewBlips && post.blips@ == pre.store.blips@)
        &&& (key == Key::Char('v') ==> post.screen == AppScreen::ViewAdrs && post.adrs@ == pre.store.adrs@)
    })
}

pub fn handle_main_input(app: &mut App, key: Key)
    requires
        old(app).wf(),
    ensures
        final(app).wf(),
        main_input_post(*old(app), *final(app), key),
{
    match app.input_state {
        InputState::WaitingForCommand => handle_mode_selection(app, key),
        InputState::EnteringTechnology => handle_text_input(app, key),
        InputState::ChoosingAdrStatus => handle_adr_status_selection(app, key),
        InputState::ChoosingQuadrant => handle_quadrant_selection(app, key),
        InputState::ChoosingRing => handle_ring_selection(app, key),
        InputState::GeneratingFile => {},
        InputState::Completed => {
            match key {
                Key::Char(c) => {
                    if c == 'n' {
                        app.reset();
                    } else if c == 'q' {
                        app.running = false;
                    } else if c == 'l' {
                        handle_fetch_blips(app);
                    } else if c == 'v' {
                        handle_fetch_adrs(app);
                    }
                },
                Key::Esc => {
                    app.reset();
                },
                _ => {},
            }
        },
    }
}

} // verus!
