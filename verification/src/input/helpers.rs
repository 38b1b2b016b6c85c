//! Wrapping cursor arithmetic shared by every selection list.

use vstd::prelude::*;

verus! {

/// The position one step up from `index` in a list of `len` rows, wrapping
/// from the first row to the last.
pub open spec fn wrap_dec_spec(index: int, len: int) -> int {
    if len == 0 {
        0
    } else if index == 0 {
        len - 1
    } else {
        index - 1
    }
}

/// The position one step down from `index` in a list of `len` rows,
/// wrapping from the last row to the first.
pub open spec fn wrap_inc_spec(index: int, len: int) -> int {
    if len == 0 {
        0
    } else {
        (index + 1) % len
    }
}

pub fn wrap_decrement(index: usize, len: usize) -> (r: usize)
    ensures
        r == wrap_dec_spec(index as int, len as int),
{
    if len == 0 {
        return 0;
    }
    if index == 0 {
        len - 1
    } else {
        index - 1
    }
}

pub fn wrap_increment(index: usize, len: usize) -> (r: usize)
    ensures
        r == wrap_inc_spec(index as int, len as int),
{
    if len == 0 {
        return 0;
    }
    let r = (index % len + 1) % len;
    proof {
        vstd::arithmetic::div_mod::lemma_add_mod_noop(index as int, 1int, len as int);
        if len == 1 {
            assert(r == 0);
            assert((index as int + 1) % 1int == 0) by {
                vstd::arithmetic::div_mod::lemma_mod_self_0(1int);
                vstd::arithmetic::div_mod::lemma_small_mod(0nat, 1nat);
            }
        } else {
            assert(1int % (len as int) == 1) by {
                vstd::arithmetic::div_mod::lemma_small_mod(1nat, len as nat);
            }
        }
    }
    r
}

/// Law: for every list of length at least one, stepping up from the first
/// row lands on the last, and stepping down from the last row lands on the
/// first.
pub proof fn lemma_cursor_wrap(len: int)
    requires
        len >= 1,
    ensures
        wrap_dec_spec(0, len) == len - 1,
        wrap_inc_spec(len - 1, len) == 0,
{
    assert(len % len == 0) by {
        vstd::arithmetic::div_mod::lemma_mod_self_0(len);
    }
}

/// Where a list cursor lands after a navigation key, for a list of
/// `total` rows: single steps stop at the edges, page steps move by five
/// and clamp, home and end jump.
pub open spec fn list_nav_index(key: crate::input::Key, idx: int, total: int) -> int {
    match key {
        crate::input::Key::Up => if idx > 0 {
            idx - 1
        } else {
            idx
        },
        crate::input::Key::Down => if total > 0 && idx + 1 < total {
            idx + 1
        } else {
            idx
        },
        crate::input::Key::PageUp => if idx > 0 {
            if idx >= 5 {
                idx - 5
            } else {
                0
            }
        } else {
            idx
        },
        crate::input::Key::PageDown => if total > 0 {
            if idx + 5 >= total {
                total - 1
            } else {
                idx + 5
            }
        } else {
            idx
        },
        crate::input::Key::Home => 0,
        crate::input::Key::End => if total > 0 {
            total - 1
        } else {
            idx
        },
        _ => idx,
    }
}

/// How many rows the blip list screen shows: the filtered hits while a
/// filter is in effect, else the whole list.
pub open spec fn blips_total_rows(app: crate::state::App) -> int {
    if app.filtered_blip_indices@.len() == 0 {
        app.blips@.len() as int
    } else {
        app.filtered_blip_indices@.len() as int
    }
}

/// How many rows the ADR list screen shows.
pub open spec fn adrs_total_rows(app: crate::state::App) -> int {
    if app.filtered_adr_indices@.len() == 0 {
        app.adrs@.len() as int
    } else {
        app.filtered_adr_indices@.len() as int
    }
}

} // verus!
