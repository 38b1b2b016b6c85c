//! The ADR details screen: escape returns to the actions menu; while a
//! search is active, typing keeps refining it.

use vstd::prelude::*;

use crate::search::search_filters_ok;
use crate::state::{App, AppScreen};
use crate::input::Key;
use crate::strutil::push_char;

verus! {

/// Everything one key does on the ADR details screen.
pub open spec fn adr_details_post(pre: App, post: App, key: Key) -> bool {
    &&& (key == Key::Esc ==> {
        &&& post.screen == AppScreen::AdrActions
        &&& post.search_active == false
        &&& (!pre.search_active ==> post == (App { screen: AppScreen::AdrActions, ..pre }))
    })
    &&& (pre.search_active && (key matches Key::Char(c)) ==> {
        &&& post.search_query@ == pre.search_query@.push(key->Char_0)
        &&& search_filters_ok(post)
    })
    &&& (pre.search_active && key == Key::Backspace ==> {
        &&& (pre.search_query@.len() > 0 ==> post.search_query@ == pre.search_query@.drop_last())
        &&& (pre.search_query@.len() == 0 ==> post.search_query@ == pre.search_query@)
        &&& search_filters_ok(post)
    })
    &&& (pre.search_active && key == Key::Enter ==> {
        &&& post.search_active == false
        &&& post.status_message@ == "Search applied"@
        &&& search_filters_ok(post)
    })
    &&& (!pre.search_active && key != Key::Esc ==> post == pre)
}

pub fn handle_adr_details_input(app: &mut App, key: Key)
    requires
        old(app).wf(),
    ensures
        final(app).wf(),
        adr_details_post(*old(app), *final(app), key),
{
    if key == Key::Esc {
        if app.search_active {
            app.clear_search();
        }
        app.screen = AppScreen::AdrActions;
        return ;
    }
    if app.search_active {
        match key {
            Key::Char(ch) => {
                push_char(&mut app.search_query, ch);
                app.apply_search_filter();
            },
            Key::Backspace => {
                let _ = crate::strutil::pop_char(&mut app.search_query);
                app.apply_search_filter();
            },
            Key::Enter => {
                app.search_active = false;
                app.apply_search_filter();
                app.status_message = String::from_str("Search applied");
            },
            _ => {},
        }
    }
}

} // verus!
