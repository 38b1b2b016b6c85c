//! The ADR edit form: a field cursor over title, status and the save
//! action, plus the keystroke handler that drives it.

use vstd::prelude::*;
use vstd::string::*;

use crate::input::Key;
use crate::mirror::MirrorJob;
use crate::state::{AdrStatus, App, AppScreen};
use crate::store::{adr_index_of, has_adr_id, AdrUpdateParams};
use crate::strutil::{lower_of, pop_char, push_char, trim_of};

verus! {

/// Which field the ADR edit form points at.
#[derive(Debug, Clone, Copy, PartialEq, Eq, Structural)]
pub enum AdrEditField {
    Title,
    Status,
    Save,
}

impl AdrEditField {
    /// The next field down, wrapping to the first.
    pub fn next(self) -> (r: Self)
        ensures
            self == AdrEditField::Title ==> r == AdrEditField::Status,
            self == AdrEditField::Status ==> r == AdrEditField::Save,
            self == AdrEditField::Save ==> r == AdrEditField::Title,
    {
        match self {
            Self::Title => Self::Status,
            Self::Status => Self::Save,
            Self::Save => Self::Title,
        }
    }

    /// The previous field up, wrapping to the last.
    pub fn prev(self) -> (r: Self)
        ensures
            self == AdrEditField::Title ==> r == AdrEditField::Save,
            self == AdrEditField::Status ==> r == AdrEditField::Title,
            self == AdrEditField::Save ==> r == AdrEditField::Status,
    {
        match self {
            Self::Title => Self::Save,
            Self::Status => Self::Title,
            Self::Save => Self::Status,
        }
    }
}

/// The transient state of an ADR being edited.
#[derive(Debug, Clone)]
pub struct AdrEditState {
    pub id: i32,
    pub field: AdrEditField,
    pub title: String,
    pub status: AdrStatus,
    pub editing: bool,
}

/// Edits the active field of the ADR form: the title takes characters and
/// backspace, the status cycles on left and right.
fn handle_edit_input(edit_state: &mut AdrEditState, key: Key)
    ensures
        old(edit_state).field == AdrEditField::Title && (key matches Key::Char(c)) ==> *final(edit_state) == (AdrEditState { title: final(edit_state).title, ..*old(edit_state) }) && final(edit_state).title@ == old(edit_state).title@.push(key->Char_0),
        old(edit_state).field == AdrEditField::Title && key == Key::Backspace ==> *final(edit_state) == (AdrEditState { title: final(edit_state).title, ..*old(edit_state) }) && final(edit_state).title@ == (if old(edit_state).title@.len() > 0 {
            old(edit_state).title@.drop_last()
        } else {
            old(edit_state).title@
        }),
        old(edit_state).field == AdrEditField::Title && !((key matches Key::Char(c)) || key
            == Key::Backspace) ==> *final(edit_state) == *old(edit_state),
        old(edit_state).field == AdrEditField::Status && key == Key::Left ==> *final(edit_state)
            == (AdrEditState { status: final(edit_state).status, ..*old(edit_state) })
            && crate::state::adr_status_index(final(edit_state).status) == (
        crate::state::adr_status_index(old(edit_state).status) + 4) % 5,
        old(edit_state).field == AdrEditField::Status && key == Key::Right ==> *final(edit_state)
            == (AdrEditState { status: final(edit_state).status, ..*old(edit_state) })
            && crate::state::adr_status_index(final(edit_state).status) == (
        crate::state::adr_status_index(old(edit_state).status) + 1) % 5,
        old(edit_state).field == AdrEditField::Status && !(key == Key::Left || key == Key::Right)
            ==> *final(edit_state) == *old(edit_state),
        old(edit_state).field == AdrEditField::Save ==> *final(edit_state) == *old(edit_state),
{
    match edit_state.field {
        AdrEditField::Title => {
            match key {
                Key::Char(c) => push_char(&mut edit_state.title, c),
                Key::Backspace => {
                    let _ = pop_char(&mut edit_state.title);
                },
                _ => {},
            }
        },
        AdrEditField::Status => {
            match key {
                Key::Left => edit_state.status = edit_state.status.prev(),
                Key::Right => edit_state.status = edit_state.status.next(),
                _ => {},
            }
        },
        AdrEditField::Save => {},
    }
}

/// Commits the ADR form: a partial update of title and status, a reload
/// under the current filter, a form refresh, and the mirror re-sync job.
fn apply_edit_save(app: &mut App) -> (r: Option<MirrorJob>)
    requires
        old(app).wf(),
    ensures
        final(app).wf(),
        old(app).edit_adr_state is None ==> r is None && *final(app) == *old(app),
        old(app).edit_adr_state is Some ==> {
            let edit = old(app).edit_adr_state.unwrap();
            &&& (!has_adr_id(old(app).store.adrs@, edit.id as int) ==> final(app).status_message@
                == "Failed to update ADR: row not found"@ && r is None)
            &&& (has_adr_id(old(app).store.adrs@, edit.id as int) ==> {
                let i = adr_index_of(old(app).store.adrs@, edit.id as int);
                &&& final(app).store.adrs@.len() == old(app).store.adrs@.len()
                &&& final(app).store.adrs@[i].title == edit.title
                &&& final(app).store.adrs@[i].status@ == crate::state::adr_status_str(edit.status)
                &&& final(app).store.adrs@[i].blip_name == old(app).store.adrs@[i].blip_name
                &&& final(app).store.adrs@[i].timestamp == old(app).store.adrs@[i].timestamp
                &&& final(app).status_message@ == "ADR updated successfully"@
                &&& (final(app).edit_adr_state is Some ==> final(app).edit_adr_state.unwrap().editing == false)
                &&& (has_adr_id(final(app).adrs@, edit.id as int) ==> r is Some
                    && r.unwrap().dir@ == old(app).adrs_dir@ && r.unwrap().content@
                    == crate::mirror::adr_sync_markdown(
                    crate::strutil::dec_of(
                        final(app).adrs@[adr_index_of(final(app).adrs@, edit.id as int)].id as int,
                    ),
                    final(app).adrs@[adr_index_of(final(app).adrs@, edit.id as int)].title@,
                    final(app).adrs@[adr_index_of(final(app).adrs@, edit.id as int)].blip_name@,
                    final(app).adrs@[adr_index_of(final(app).adrs@, edit.id as int)].timestamp@,
                    crate::state::adr_status_str(
                        match crate::state::adr_status_of_str(
                            lower_of(trim_of(
                                final(app).adrs@[adr_index_of(
                                    final(app).adrs@,
                                    edit.id as int,
                                )].status@,
                            )),
                        ) {
                            Some(st) => st,
                            None => AdrStatus::Proposed,
                        },
                    ),
                ))
                &&& (!has_adr_id(final(app).adrs@, edit.id as int) ==> r is None)
            })
        },
{
    let params = match &app.edit_adr_state {
        Some(edit_state) => AdrUpdateParams {
            id: edit_state.id,
            title: Some(edit_state.title.clone()),
            blip_name: None,
            status: Some(String::from_str(edit_state.status.as_str())),
            created: None,
        },
        None => {
            return None;
        },
    };
    let job = match app.update_adr(params) {
        Ok(job) => {
            app.status_message = String::from_str("ADR updated successfully");
            job
        },
        Err(e) => {
            let mut message = String::from_str("Failed to update ADR: ");
            message.append(e.message());
            proof {
                reveal_strlit("Failed to update ADR: ");
                reveal_strlit("row not found");
                reveal_strlit("Failed to update ADR: row not found");
                assert("Failed to update ADR: "@ + "row not found"@
                    =~= "Failed to update ADR: row not found"@);
            }
            app.status_message = message;
            None
        },
    };
    if let Some(edit_state) = &mut app.edit_adr_state {
        edit_state.editing = false;
    }
    job
}

/// Drives the ADR edit form: field movement, the editing toggle, text and
/// option editing, saving, and leaving the form.
/// Everything one key does on the ADR edit form, as a relation between
/// the state before and after and the mirror job handed back.
pub open spec fn edit_adr_post(pre: App, post: App, key: Key, job: Option<MirrorJob>) -> bool {
    &&& (key == Key::Esc && pre.edit_adr_state is Some && pre.edit_adr_state.unwrap().editing ==> post.edit_adr_state is Some && post.edit_adr_state.unwrap().editing == false && job is None)
    &&& (key == Key::Esc && !(pre.edit_adr_state is Some && pre.edit_adr_state.unwrap().editing) ==> post.edit_adr_state is None && post.screen == AppScreen::ViewAdrs && job is None)
    &&& ((key == Key::Up || key == Key::Down) && pre.edit_adr_state is Some && !pre.edit_adr_state.unwrap().editing ==> {
        &&& post.edit_adr_state is Some
        &&& post.edit_adr_state.unwrap().field == (if key == Key::Up {
            match pre.edit_adr_state.unwrap().field {
                AdrEditField::Title => AdrEditField::Save,
                AdrEditField::Status => AdrEditField::Title,
                AdrEditField::Save => AdrEditField::Status,
            }
        } else {
            match pre.edit_adr_state.unwrap().field {
                AdrEditField::Title => AdrEditField::Status,
                AdrEditField::Status => AdrEditField::Save,
                AdrEditField::Save => AdrEditField::Title,
            }
        })
        &&& job is None
    })
    &&& (key == Key::Enter && pre.edit_adr_state is Some && pre.edit_adr_state.unwrap().editing ==> post.edit_adr_state is Some && post.edit_adr_state.unwrap().editing == false && job is None)
    &&& (key == Key::Enter && pre.edit_adr_state is Some && !pre.edit_adr_state.unwrap().editing && pre.edit_adr_state.unwrap().field
        != AdrEditField::Save ==> post.edit_adr_state is Some && post.edit_adr_state.unwrap().editing == true && job is None)
    &&& (key == Key::Enter && pre.edit_adr_state is Some && !pre.edit_adr_state.unwrap().editing && pre.edit_adr_state.unwrap().field
        == AdrEditField::Save ==> {
        let edit = pre.edit_adr_state.unwrap();
        &&& (!has_adr_id(pre.store.adrs@, edit.id as int) ==> post.status_message@
            == "Failed to update ADR: row not found"@ && job is None)
        &&& (has_adr_id(pre.store.adrs@, edit.id as int) ==> {
            let i = adr_index_of(pre.store.adrs@, edit.id as int);
            &&& post.store.adrs@.len() == pre.store.adrs@.len()
            &&& post.store.adrs@[i].title == edit.title
            &&& post.store.adrs@[i].status@ == crate::state::adr_status_str(edit.status)
            &&& post.store.adrs@[i].blip_name == pre.store.adrs@[i].blip_name
            &&& post.store.adrs@[i].timestamp == pre.store.adrs@[i].timestamp
            &&& post.status_message@ == "ADR updated successfully"@
            &&& (has_adr_id(post.adrs@, edit.id as int) ==> job is Some
                && job.unwrap().dir@ == pre.adrs_dir@)
        })
    })
    &&& ((key matches Key::Char(c)) && pre.edit_adr_state is Some && pre.edit_adr_state.unwrap().editing && pre.edit_adr_state.unwrap().field
        == AdrEditField::Title ==> {
        &&& post.edit_adr_state is Some
        &&& post.edit_adr_state.unwrap() == (AdrEditState {
            title: post.edit_adr_state.unwrap().title,
            ..pre.edit_adr_state.unwrap()
        })
        &&& post.edit_adr_state.unwrap().title@ == pre.edit_adr_state.unwrap().title@.push(key->Char_0)
        &&& job is None
    })
    &&& (key == Key::Backspace && pre.edit_adr_state is Some && pre.edit_adr_state.unwrap().editing && pre.edit_adr_state.unwrap().field
        == AdrEditField::Title ==> {
        let t = pre.edit_adr_state.unwrap().title@;
        &&& post.edit_adr_state is Some
        &&& post.edit_adr_state.unwrap() == (AdrEditState {
            title: post.edit_adr_state.unwrap().title,
            ..pre.edit_adr_state.unwrap()
        })
        &&& post.edit_adr_state.unwrap().title@ == (if t.len() > 0 {
            t.drop_last()
        } else {
            t
        })
        &&& job is None
    })
    &&& ((key == Key::Left || key == Key::Right) && pre.edit_adr_state is Some && pre.edit_adr_state.unwrap().editing && pre.edit_adr_state.unwrap().field
        == AdrEditField::Status ==> {
        let e = pre.edit_adr_state.unwrap();
        &&& post.edit_adr_state is Some
        &&& crate::state::adr_status_index(post.edit_adr_state.unwrap().status) == (
        if key == Key::Left {
            (crate::state::adr_status_index(e.status) + 4) % 5
        } else {
            (crate::state::adr_status_index(e.status) + 1) % 5
        })
        &&& job is None
    })
}

pub fn handle_edit_adr_input(app: &mut App, key: Key) -> (r: Option<MirrorJob>)
    requires
        old(app).wf(),
    ensures
        final(app).wf(),
        edit_adr_post(*old(app), *final(app), key, r),
{
    match key {
        Key::Esc => {
            let was_editing = match &app.edit_adr_state {
                Some(edit_state) => edit_state.editing,
                None => false,
            };
            if was_editing {
                if let Some(edit_state) = &mut app.edit_adr_state {
                    edit_state.editing = false;
                }
                return None;
            }
            app.edit_adr_state = None;
            app.screen = AppScreen::ViewAdrs;
            None
        },
        Key::Up => {
            if let Some(edit_state) = &mut app.edit_adr_state {
                if !edit_state.editing {
                    edit_state.field = edit_state.field.prev();
                }
            }
            None
        },
        Key::Down => {
            if let Some(edit_state) = &mut app.edit_adr_state {
                if !edit_state.editing {
                    edit_state.field = edit_state.field.next();
                }
            }
            None
        },
        Key::Enter => {
            let state_kind: u8 = match &app.edit_adr_state {
                Some(edit_state) => {
                    if edit_state.editing {
                        0
                    } else if edit_state.field == AdrEditField::Save {
                        1
                    } else {
                        2
                    }
                },
                None => 3,
            };
            if state_kind == 0 {
                if let Some(edit_state) = &mut app.edit_adr_state {
                    edit_state.editing = false;
                }
                None
            } else if state_kind == 1 {
                apply_edit_save(app)
            } else if state_kind == 2 {
                if let Some(edit_state) = &mut app.edit_adr_state {
                    edit_state.editing = true;
                }
                None
            } else {
                None
            }
        },
        _ => {
            let is_editing = match &app.edit_adr_state {
                Some(edit_state) => edit_state.editing,
                None => false,
            };
            if is_editing {
                if let Some(edit_state) = &mut app.edit_adr_state {
                    handle_edit_input(edit_state, key);
                }
            }
            None
        },
    }
}

} // verus!
