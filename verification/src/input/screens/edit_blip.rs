//! The blip edit form: a field cursor with a per-field editing toggle,
//! option cycling for ring and quadrant, free-text editing for the rest,
//! and the save key that commits through the store and re-syncs the
//! mirror.  After a save the form stays open, rebuilt from the saved row,
//! so further edits start from store-confirmed values.

use vstd::prelude::*;
use vstd::string::*;

use crate::domain::{ring_of_index, quadrant_of_index, Quadrant, Ring};
use crate::mirror::MirrorJob;
use crate::input::Key;
use crate::state::{App, AppScreen, EditBlipState, EditField};
use crate::store::{blip_index_of, has_blip_id, BlipUpdateParams};
use crate::strutil::{pop_char, push_char};

verus! {

/// The field above `f` in the form, wrapping.
pub open spec fn edit_field_up(f: EditField) -> EditField {
    match f {
        EditField::Name => EditField::Description,
        EditField::Ring => EditField::Name,
        EditField::Quadrant => EditField::Ring,
        EditField::Tag => EditField::Quadrant,
        EditField::Description => EditField::Tag,
        EditField::Save => EditField::Description,
    }
}

/// The field below `f` in the form, wrapping.
pub open spec fn edit_field_down(f: EditField) -> EditField {
    match f {
        EditField::Name => EditField::Ring,
        EditField::Ring => EditField::Quadrant,
        EditField::Quadrant => EditField::Tag,
        EditField::Tag => EditField::Description,
        EditField::Description => EditField::Name,
        EditField::Save => EditField::Name,
    }
}

/// The form after the character `c` went into the active field: the three
/// free-text fields take it, the option fields and the save row ignore it.
pub open spec fn edit_char_applied(e: EditBlipState, c: char, new: EditBlipState) -> bool {
    match e.field {
        EditField::Name => new == (EditBlipState { name: new.name, ..e }) && new.name@
            == e.name@.push(c),
        EditField::Tag => new == (EditBlipState { tag: new.tag, ..e }) && new.tag@ == e.tag@.push(
            c,
        ),
        EditField::Description => new == (EditBlipState { description: new.description, ..e })
            && new.description@ == e.description@.push(c),
        EditField::Ring => new == e,
        EditField::Quadrant => new == e,
        EditField::Save => new == e,
    }
}

/// The form after a backspace in the active field.
pub open spec fn edit_backspace_applied(e: EditBlipState, new: EditBlipState) -> bool {
    match e.field {
        EditField::Name => new == (EditBlipState { name: new.name, ..e }) && new.name@ == (
        if e.name@.len() > 0 {
            e.name@.drop_last()
        } else {
            e.name@
        }),
        EditField::Tag => new == (EditBlipState { tag: new.tag, ..e }) && new.tag@ == (
        if e.tag@.len() > 0 {
            e.tag@.drop_last()
        } else {
            e.tag@
        }),
        EditField::Description => new == (EditBlipState { description: new.description, ..e })
            && new.description@ == (if e.description@.len() > 0 {
            e.description@.drop_last()
        } else {
            e.description@
        }),
        EditField::Ring => new == e,
        EditField::Quadrant => new == e,
        EditField::Save => new == e,
    }
}

/// Edits the active field of the form: free-text fields take characters
/// and backspace, the two option fields cycle on left and right, enter
/// leaves editing.
fn handle_edit_input(edit_state: &mut EditBlipState, key: Key)
    requires
        old(edit_state).wf(),
    ensures
        final(edit_state).wf(),
        (key matches Key::Char(c)) ==> edit_char_applied(
            *old(edit_state),
            key->Char_0,
            *final(edit_state),
        ),
        key == Key::Backspace ==> edit_backspace_applied(*old(edit_state), *final(edit_state)),
        key == Key::Enter ==> *final(edit_state) == (EditBlipState {
            editing: false,
            ..*old(edit_state)
        }),
        key == Key::Left && old(edit_state).field == EditField::Ring ==> final(edit_state).ring_index == (old(edit_state).ring_index + 3) % 4 && final(edit_state).ring@
            == crate::state::ring_option_str(final(edit_state).ring_index as int) && *final(edit_state) == (EditBlipState {
            ring_index: final(edit_state).ring_index,
            ring: final(edit_state).ring,
            ..*old(edit_state)
        }),
        key == Key::Right && old(edit_state).field == EditField::Ring ==> final(edit_state).ring_index == (old(edit_state).ring_index + 1) % 4 && final(edit_state).ring@
            == crate::state::ring_option_str(final(edit_state).ring_index as int) && *final(edit_state) == (EditBlipState {
            ring_index: final(edit_state).ring_index,
            ring: final(edit_state).ring,
            ..*old(edit_state)
        }),
        key == Key::Left && old(edit_state).field == EditField::Quadrant ==> final(edit_state).quadrant_index == (old(edit_state).quadrant_index + 3) % 4 && final(edit_state).quadrant@
            == crate::state::quadrant_option_str(final(edit_state).quadrant_index as int)
            && *final(edit_state) == (EditBlipState {
            quadrant_index: final(edit_state).quadrant_index,
            quadrant: final(edit_state).quadrant,
            ..*old(edit_state)
        }),
        key == Key::Right && old(edit_state).field == EditField::Quadrant ==> final(edit_state).quadrant_index == (old(edit_state).quadrant_index + 1) % 4 && final(edit_state).quadrant@
            == crate::state::quadrant_option_str(final(edit_state).quadrant_index as int)
            && *final(edit_state) == (EditBlipState {
            quadrant_index: final(edit_state).quadrant_index,
            quadrant: final(edit_state).quadrant,
            ..*old(edit_state)
        }),
        (key == Key::Left || key == Key::Right) && !(old(edit_state).field == EditField::Ring
            || old(edit_state).field == EditField::Quadrant) ==> *final(edit_state) == *old(edit_state),
        !((key matches Key::Char(c)) || key == Key::Backspace || key == Key::Enter || key
            == Key::Left || key == Key::Right) ==> *final(edit_state) == *old(edit_state),
{
    match key {
        Key::Char(c) => {
            match edit_state.field {
                EditField::Ring | EditField::Quadrant | EditField::Save => {},
                EditField::Name => push_char(&mut edit_state.name, c),
                EditField::Tag => push_char(&mut edit_state.tag, c),
                EditField::Description => push_char(&mut edit_state.description, c),
            }
        },
        Key::Backspace => {
            match edit_state.field {
                EditField::Ring | EditField::Quadrant | EditField::Save => {},
                EditField::Name => {
                    let _ = pop_char(&mut edit_state.name);
                },
                EditField::Tag => {
                    let _ = pop_char(&mut edit_state.tag);
                },
                EditField::Description => {
                    let _ = pop_char(&mut edit_state.description);
                },
            }
        },
        Key::Enter => {
            edit_state.editing = false;
        },
        Key::Left => {
            match edit_state.field {
                EditField::Ring => edit_state.prev_ring(),
                EditField::Quadrant => edit_state.prev_quadrant(),
                _ => {},
            }
        },
        Key::Right => {
            match edit_state.field {
                EditField::Ring => edit_state.next_ring(),
                EditField::Quadrant => edit_state.next_quadrant(),
                _ => {},
            }
        },
        _ => {},
    }
}

/// What the save key commits when the form is open and not editing: the
/// store row keyed by the highlighted list row takes the form's fields,
/// the list is reloaded, the form is rebuilt from the saved row at the
/// save position, and the mirror job comes back.
pub open spec fn edit_save_committed(pre: App, post: App, job: Option<MirrorJob>) -> bool {
    let edit = pre.edit_blip_state.unwrap();
    let row = pre.blips@[pre.selected_blip_index as int];
    &&& (!has_blip_id(pre.store.blips@, row.id as int) ==> post.status_message@
        == "Failed to update blip: row not found"@ && job is None)
    &&& (has_blip_id(pre.store.blips@, row.id as int) ==> {
        let i = blip_index_of(pre.store.blips@, row.id as int);
        if exists|j: int|
            0 <= j < pre.store.blips@.len() && j != i && pre.store.blips@[j].name@
                == edit.name@ {
            post.status_message@ == "Failed to update blip: row already exists"@ && job is None
        } else {
            &&& post.store.blips@.len() == pre.store.blips@.len()
            &&& post.store.blips@[i].name == edit.name
            &&& post.store.blips@[i].ring == ring_of_index(edit.ring_index as int)
            &&& post.store.blips@[i].quadrant == quadrant_of_index(edit.quadrant_index as int)
            &&& post.store.blips@[i].tag == Some(edit.tag)
            &&& post.store.blips@[i].description == Some(edit.description)
            &&& post.store.blips@[i].adr_id == pre.store.blips@[i].adr_id
            &&& post.blips@ == post.store.blips@
            &&& post.status_message@ == "Blip updated successfully"@
            &&& post.edit_blip_state is Some
            &&& crate::state::edit_form_matches(
                post.edit_blip_state.unwrap(),
                post.blips@[blip_index_of(post.blips@, row.id as int)],
            )
            &&& post.edit_blip_state.unwrap().field == EditField::Save
            &&& job is Some
            &&& job.unwrap().content@ == crate::mirror::blip_sync_markdown(
                post.blips@[blip_index_of(post.blips@, row.id as int)],
                pre.author_name@,
            )
        }
    })
}

/// The save key: while a field is being edited the letter is ordinary
/// text; otherwise the form is committed.  Returns whether the key was
/// consumed as text, and any pending mirror write.
fn handle_edit_save_key(app: &mut App, key: Key) -> (r: (bool, Option<MirrorJob>))
    requires
        old(app).wf(),
    ensures
        final(app).wf(),
        old(app).edit_blip_state is None ==> r.0 == false && r.1 is None && *final(app) == *old(app),
        old(app).edit_blip_state is Some && old(app).edit_blip_state.unwrap().editing ==> {
            let pressed = if key == Key::Char('S') {
                'S'
            } else {
                's'
            };
            &&& r.0 == true
            &&& r.1 is None
            &&& final(app).edit_blip_state is Some
            &&& edit_char_applied(
                old(app).edit_blip_state.unwrap(),
                pressed,
                final(app).edit_blip_state.unwrap(),
            )
            &&& *final(app) == (App {
                edit_blip_state: final(app).edit_blip_state,
                ..*old(app)
            })
        },
        old(app).edit_blip_state is Some && !old(app).edit_blip_state.unwrap().editing && old(app).selected_blip_index >= old(app).blips@.len() ==> r.0 == false && r.1 is None && *final(app) == *old(app),
        old(app).edit_blip_state is Some && !old(app).edit_blip_state.unwrap().editing && old(app).selected_blip_index < old(app).blips@.len() ==> r.0 == false && edit_save_committed(
            *old(app),
            *final(app),
            r.1,
        ),
{
    if app.edit_blip_state.is_none() {
        return (false, None);
    }
    let is_editing = match &app.edit_blip_state {
        Some(edit_state) => edit_state.editing,
        None => false,
    };
    if is_editing {
        let pressed: char = if key == Key::Char('S') {
            'S'
        } else {
            's'
        };
        if let Some(edit_state) = &mut app.edit_blip_state {
            match edit_state.field {
                EditField::Ring | EditField::Quadrant | EditField::Save => {},
                EditField::Name => push_char(&mut edit_state.name, pressed),
                EditField::Tag => push_char(&mut edit_state.tag, pressed),
                EditField::Description => push_char(&mut edit_state.description, pressed),
            }
        }
        return (true, None);
    }
    if app.selected_blip_index >= app.blips.len() {
        return (false, None);
    }
    let blip_id = app.blips[app.selected_blip_index].id;
    let params = match &app.edit_blip_state {
        Some(edit_state) => BlipUpdateParams {
            id: blip_id,
            name: Some(edit_state.name.clone()),
            ring: Ring::from_index(edit_state.ring_index),
            quadrant: Quadrant::from_index(edit_state.quadrant_index),
            tag: Some(edit_state.tag.clone()),
            description: Some(edit_state.description.clone()),
            adr_id: None,
        },
        None => {
            return (false, None);
        },
    };
    match app.update_blip(params) {
        Ok(job) => {
            app.status_message = String::from_str("Blip updated successfully");
            (false, job)
        },
        Err(e) => {
            let mut message = String::from_str("Failed to update blip: ");
            message.append(e.message());
            proof {
                reveal_strlit("Failed to update blip: ");
                reveal_strlit("row not found");
                reveal_strlit("row already exists");
                reveal_strlit("Failed to update blip: row not found");
                reveal_strlit("Failed to update blip: row already exists");
                assert("Failed to update blip: "@ + "row not found"@
                    =~= "Failed to update blip: row not found"@);
                assert("Failed to update blip: "@ + "row already exists"@
                    =~= "Failed to update blip: row already exists"@);
            }
            app.status_message = message;
            (false, None)
        },
    }
}

/// Everything one key does on the blip edit form, as a relation between
/// the state before and after and the mirror job handed back.
pub open spec fn edit_blip_post(pre: App, post: App, key: Key, job: Option<MirrorJob>) -> bool {
    &&& (key == Key::Esc && pre.edit_blip_state is Some && pre.edit_blip_state.unwrap().editing ==> post.edit_blip_state == Some(
        EditBlipState { editing: false, ..pre.edit_blip_state.unwrap() },
    ) && job is None && post == (App {
        edit_blip_state: post.edit_blip_state,
        ..pre
    }))
    &&& (key == Key::Esc && !(pre.edit_blip_state is Some && pre.edit_blip_state.unwrap().editing) ==> post.screen == AppScreen::ViewBlips && post.edit_blip_state is None && job is None)
    &&& ((key == Key::Up || key == Key::Down) && pre.edit_blip_state is Some && !pre.edit_blip_state.unwrap().editing ==> {
        let moved = if key == Key::Up {
            edit_field_up(pre.edit_blip_state.unwrap().field)
        } else {
            edit_field_down(pre.edit_blip_state.unwrap().field)
        };
        &&& post.edit_blip_state == Some(
            EditBlipState { field: moved, ..pre.edit_blip_state.unwrap() },
        )
        &&& job is None
        &&& post == (App {
            edit_blip_state: post.edit_blip_state,
            ..pre
        })
    })
    &&& (key == Key::Enter && pre.edit_blip_state is Some ==> post.edit_blip_state
        == Some(
        EditBlipState {
            editing: !pre.edit_blip_state.unwrap().editing,
            ..pre.edit_blip_state.unwrap()
        },
    ) && job is None && post == (App {
        edit_blip_state: post.edit_blip_state,
        ..pre
    }))
    &&& ((key == Key::Char('s') || key == Key::Char('S')) ==> {
        if pre.edit_blip_state is None {
            post.screen == AppScreen::ViewBlips && post.edit_blip_state is None
                && job is None
        } else if pre.edit_blip_state.unwrap().editing {
            let pressed = if key == Key::Char('S') {
                'S'
            } else {
                's'
            };
            &&& post.edit_blip_state is Some
            &&& edit_char_applied(
                pre.edit_blip_state.unwrap(),
                pressed,
                post.edit_blip_state.unwrap(),
            )
            &&& job is None
            &&& post == (App {
                edit_blip_state: post.edit_blip_state,
                ..pre
            })
        } else if pre.selected_blip_index < pre.blips@.len() {
            // The save: committed through the store, the form stays
            // open showing the store-confirmed values.
            edit_save_committed(pre, post, job)
        } else {
            job is None && post == pre
        }
    })
    &&& ((key matches Key::Char(c)) && key != Key::Char('s') && key != Key::Char('S') && pre.edit_blip_state is Some && pre.edit_blip_state.unwrap().editing ==> {
        &&& post.edit_blip_state is Some
        &&& edit_char_applied(
            pre.edit_blip_state.unwrap(),
            key->Char_0,
            post.edit_blip_state.unwrap(),
        )
        &&& job is None
        &&& post == (App {
            edit_blip_state: post.edit_blip_state,
            ..pre
        })
    })
    &&& (key == Key::Backspace && pre.edit_blip_state is Some && pre.edit_blip_state.unwrap().editing ==> {
        &&& post.edit_blip_state is Some
        &&& edit_backspace_applied(
            pre.edit_blip_state.unwrap(),
            post.edit_blip_state.unwrap(),
        )
        &&& job is None
        &&& post == (App {
            edit_blip_state: post.edit_blip_state,
            ..pre
        })
    })
    &&& ((key == Key::Left || key == Key::Right) && pre.edit_blip_state is Some && pre.edit_blip_state.unwrap().editing && pre.edit_blip_state.unwrap().field
        == EditField::Ring ==> {
        &&& post.edit_blip_state is Some
        &&& post.edit_blip_state.unwrap().ring_index == (if key == Key::Left {
            (pre.edit_blip_state.unwrap().ring_index + 3) % 4
        } else {
            (pre.edit_blip_state.unwrap().ring_index + 1) % 4
        })
        &&& post.edit_blip_state.unwrap().ring@ == crate::state::ring_option_str(
            post.edit_blip_state.unwrap().ring_index as int,
        )
        &&& job is None
    })
    &&& ((key == Key::Left || key == Key::Right) && pre.edit_blip_state is Some && pre.edit_blip_state.unwrap().editing && pre.edit_blip_state.unwrap().field
        == EditField::Quadrant ==> {
        &&& post.edit_blip_state is Some
        &&& post.edit_blip_state.unwrap().quadrant_index == (if key == Key::Left {
            (pre.edit_blip_state.unwrap().quadrant_index + 3) % 4
        } else {
            (pre.edit_blip_state.unwrap().quadrant_index + 1) % 4
        })
        &&& post.edit_blip_state.unwrap().quadrant@ == crate::state::quadrant_option_str(
            post.edit_blip_state.unwrap().quadrant_index as int,
        )
        &&& job is None
    })
}

pub fn handle_edit_blip_input(app: &mut App, key: Key) -> (r: Option<MirrorJob>)
    requires
        old(app).wf(),
    ensures
        final(app).wf(),
        edit_blip_post(*old(app), *final(app), key, r),
{
    match key {
        Key::Esc => {
            let was_editing = match &app.edit_blip_state {
                Some(edit_state) => edit_state.editing,
                None => false,
            };
            if was_editing {
                if let Some(edit_state) = &mut app.edit_blip_state {
                    edit_state.editing = false;
                }
                return None;
            }
            app.screen = AppScreen::ViewBlips;
            app.edit_blip_state = None;
            None
        },
        Key::Char(c) => {
            if c == 's' || c == 'S' {
                let (handled, job) = handle_edit_save_key(app, key);
                if handled {
                    return job;
                }
                if app.edit_blip_state.is_some() {
                    // Saved (or the save failed with a notice): the form
                    // stays open with the store-confirmed values.
                    return job;
                }
                app.screen = AppScreen::ViewBlips;
                app.edit_blip_state = None;
                job
            } else {
                let is_editing = match &app.edit_blip_state {
                    Some(edit_state) => edit_state.editing,
                    None => false,
                };
                if is_editing {
                    if let Some(edit_state) = &mut app.edit_blip_state {
                        handle_edit_input(edit_state, key);
                    }
                }
                None
            }
        },
        Key::Up => {
            if let Some(edit_state) = &mut app.edit_blip_state {
                if !edit_state.editing {
                    edit_state.field = match edit_state.field {
                        EditField::Name => EditField::Description,
                        EditField::Ring => EditField::Name,
                        EditField::Quadrant => EditField::Ring,
                        EditField::Tag => EditField::Quadrant,
                        EditField::Description => EditField::Tag,
                        EditField::Save => EditField::Description,
                    };
                }
            }
            None
        },
        Key::Down => {
            if let Some(edit_state) = &mut app.edit_blip_state {
                if !edit_state.editing {
                    edit_state.field = match edit_state.field {
                        EditField::Name => EditField::Ring,
                        EditField::Ring => EditField::Quadrant,
                        EditField::Quadrant => EditField::Tag,
                        EditField::Tag => EditField::Description,
                        EditField::Description => EditField::Name,
                        EditField::Save => EditField::Name,
                    };
                }
            }
            None
        },
        Key::Enter => {
            if let Some(edit_state) = &mut app.edit_blip_state {
                edit_state.editing = !edit_state.editing;
            }
            None
        },
        _ => {
            let is_editing = match &app.edit_blip_state {
                Some(edit_state) => edit_state.editing,
                None => false,
            };
            if is_editing {
                if let Some(edit_state) = &mut app.edit_blip_state {
                    handle_edit_input(edit_state, key);
                }
            }
            None
        },
    }
}

} // verus!
