//! The read-only dashboard's logic: the exported records it shows, the
//! case-insensitive substring filters over them, the search overlay state,
//! and the tab row counts.  Rendering stays outside; the filters and their
//! monotonicity are verified here.

use vstd::prelude::*;
use vstd::string::*;

use crate::input::Key;
use crate::strutil::{
    contains_str, is_substring_of, lower_of, lowercase, matches_at, pop_char, push_char, trim_of,
    trimmed,
};

verus! {

/// A blip row as the dashboard receives it.
#[derive(Debug, Clone)]
pub struct RadarBlip {
    pub id: i32,
    pub name: String,
    pub ring: Option<String>,
    pub quadrant: Option<String>,
    pub tag: Option<String>,
    pub description: Option<String>,
    pub created: String,
    pub has_adr: bool,
    pub adr_id: Option<i32>,
}

/// An ADR row as the dashboard receives it.
#[derive(Debug, Clone)]
pub struct RadarAdr {
    pub id: i32,
    pub title: String,
    pub blip_name: String,
    pub status: String,
    pub timestamp: String,
}

/// Everything the dashboard shows.
pub struct RadarExport {
    pub blips: Vec<RadarBlip>,
    pub adrs: Vec<RadarAdr>,
}

/// Which hit column the search overlay points at.
#[derive(Debug, Clone, Copy, PartialEq, Eq, Structural)]
pub enum SearchColumn {
    Blips,
    Adrs,
}

/// The dashboard's search overlay state.
#[derive(Debug, Clone)]
pub struct SearchState {
    pub query: String,
    pub active: bool,
    pub column: SearchColumn,
    pub row: usize,
    pub detail_open: bool,
}

impl SearchState {
    /// Closes the overlay and forgets the query and position.
    pub fn reset(&mut self)
        ensures
            final(self).query@ == Seq::<char>::empty(),
            final(self).active == false,
            final(self).column == SearchColumn::Blips,
            final(self).row == 0,
            final(self).detail_open == false,
    {
        self.query = String::new();
        self.active = false;
        self.column = SearchColumn::Blips;
        self.row = 0;
        self.detail_open = false;
    }
}

/// The lower-cased text a blip row is searched in: name, tag, description,
/// ring and quadrant, space-separated, optional parts dropped.
pub open spec fn blip_haystack(b: RadarBlip) -> Seq<char> {
    lower_of(b.name@) + (match b.tag {
        Some(t) => seq![' '] + lower_of(t@),
        None => Seq::<char>::empty(),
    }) + (match b.description {
        Some(d) => seq![' '] + lower_of(d@),
        None => Seq::<char>::empty(),
    }) + (match b.ring {
        Some(r) => seq![' '] + lower_of(r@),
        None => Seq::<char>::empty(),
    }) + (match b.quadrant {
        Some(q) => seq![' '] + lower_of(q@),
        None => Seq::<char>::empty(),
    })
}

/// The lower-cased text an ADR row is searched in: title, linked blip
/// name, status and timestamp, space-separated.
pub open spec fn adr_haystack(a: RadarAdr) -> Seq<char> {
    lower_of(a.title@) + seq![' '] + lower_of(a.blip_name@) + seq![' '] + lower_of(a.status@)
        + seq![' '] + lower_of(a.timestamp@)
}

/// Whether a blip row matches an already folded (trimmed, lower-cased)
/// query.
pub open spec fn blip_matches(b: RadarBlip, q: Seq<char>) -> bool {
    is_substring_of(q, blip_haystack(b))
}

/// Whether an ADR row matches an already folded query.
pub open spec fn adr_matches(a: RadarAdr, q: Seq<char>) -> bool {
    is_substring_of(q, adr_haystack(a))
}

/// The blip rows kept for an already folded query.
pub open spec fn filtered_blips_by(blips: Seq<RadarBlip>, q: Seq<char>) -> Seq<RadarBlip> {
    blips.filter(|x: RadarBlip| blip_matches(x, q))
}

/// The ADR rows kept for an already folded query.
pub open spec fn filtered_adrs_by(adrs: Seq<RadarAdr>, q: Seq<char>) -> Seq<RadarAdr> {
    adrs.filter(|x: RadarAdr| adr_matches(x, q))
}

/// Copies a dashboard blip row, preserving the value exactly.
pub fn clone_radar_blip(b: &RadarBlip) -> (r: RadarBlip)
    ensures
        r == *b,
{
    RadarBlip {
        id: b.id,
        name: b.name.clone(),
        ring: crate::models::clone_opt_string(&b.ring),
        quadrant: crate::models::clone_opt_string(&b.quadrant),
        tag: crate::models::clone_opt_string(&b.tag),
        description: crate::models::clone_opt_string(&b.description),
        created: b.created.clone(),
        has_adr: b.has_adr,
        adr_id: b.adr_id,
    }
}

/// Copies a dashboard ADR row, preserving the value exactly.
pub fn clone_radar_adr(a: &RadarAdr) -> (r: RadarAdr)
    ensures
        r == *a,
{
    RadarAdr {
        id: a.id,
        title: a.title.clone(),
        blip_name: a.blip_name.clone(),
        status: a.status.clone(),
        timestamp: a.timestamp.clone(),
    }
}

fn build_blip_haystack(b: &RadarBlip) -> (r: String)
    ensures
        r@ == blip_haystack(*b),
{
    let mut s = lowercase(b.name.as_str());
    match &b.tag {
        Some(t) => {
            push_char(&mut s, ' ');
            let folded = lowercase(t.as_str());
            s.append(folded.as_str());
        },
        None => {},
    }
    match &b.description {
        Some(d) => {
            push_char(&mut s, ' ');
            let folded = lowercase(d.as_str());
            s.append(folded.as_str());
        },
        None => {},
    }
    match &b.ring {
        Some(ring) => {
            push_char(&mut s, ' ');
            let folded = lowercase(ring.as_str());
            s.append(folded.as_str());
        },
        None => {},
    }
    match &b.quadrant {
        Some(q) => {
            push_char(&mut s, ' ');
            let folded = lowercase(q.as_str());
            s.append(folded.as_str());
        },
        None => {},
    }
    proof {
        assert(s@ =~= blip_haystack(*b));
    }
    s
}

fn build_adr_haystack(a: &RadarAdr) -> (r: String)
    ensures
        r@ == adr_haystack(*a),
{
    let mut s = lowercase(a.title.as_str());
    push_char(&mut s, ' ');
    let blip_name = lowercase(a.blip_name.as_str());
    s.append(blip_name.as_str());
    push_char(&mut s, ' ');
    let status = lowercase(a.status.as_str());
    s.append(status.as_str());
    push_char(&mut s, ' ');
    let timestamp = lowercase(a.timestamp.as_str());
    s.append(timestamp.as_str());
    proof {
        assert(s@ =~= adr_haystack(*a));
    }
    s
}

/// The blip rows matching the overlay's query: all of them for a blank
/// query, else those whose haystack contains the folded query.
pub fn filter_blips(export: &RadarExport, search_state: &SearchState) -> (r: Vec<RadarBlip>)
    ensures
        trim_of(search_state.query@).len() == 0 || lower_of(trim_of(search_state.query@)).len()
            == 0 ==> r@ == export.blips@,
        trim_of(search_state.query@).len() > 0 && lower_of(trim_of(search_state.query@)).len() > 0
            ==> r@ == filtered_blips_by(export.blips@, lower_of(trim_of(search_state.query@))),
{
    let query = lowercase(trimmed(search_state.query.as_str()).as_str());
    if query.unicode_len() == 0 {
        let mut out: Vec<RadarBlip> = Vec::new();
        let mut i: usize = 0;
        while i < export.blips.len()
            invariant
                i <= export.blips@.len(),
                out@.len() == i,
                forall|k: int| 0 <= k < i ==> out@[k] == export.blips@[k],
            decreases export.blips@.len() - i,
        {
            out.push(clone_radar_blip(&export.blips[i]));
            i += 1;
        }
        proof {
            assert(out@ =~= export.blips@);
        }
        return out;
    }
    let pred = Ghost(|b: RadarBlip| blip_matches(b, lower_of(trim_of(search_state.query@))));
    let mut out: Vec<RadarBlip> = Vec::new();
    let mut i: usize = 0;
    proof {
        reveal(Seq::filter);
        assert(export.blips@.subrange(0, 0) =~= Seq::<RadarBlip>::empty());
    }
    while i < export.blips.len()
        invariant
            i <= export.blips@.len(),
            pred@ == (|b: RadarBlip| blip_matches(b, lower_of(trim_of(search_state.query@)))),
            query@ == lower_of(trim_of(search_state.query@)),
            out@ == export.blips@.subrange(0, i as int).filter(pred@),
        decreases export.blips@.len() - i,
    {
        proof {
            reveal(Seq::filter);
            let sub = export.blips@.subrange(0, i as int);
            let x = export.blips@[i as int];
            assert(export.blips@.subrange(0, i + 1) =~= sub.push(x));
            assert(sub.push(x).drop_last() =~= sub);
            assert(sub.push(x).last() == x);
        }
        let haystack = build_blip_haystack(&export.blips[i]);
        if contains_str(haystack.as_str(), query.as_str()) {
            out.push(clone_radar_blip(&export.blips[i]));
        }
        i += 1;
    }
    proof {
        assert(export.blips@.subrange(0, export.blips@.len() as int) =~= export.blips@);
    }
    out
}

/// The ADR rows matching the overlay's query.
pub fn filter_adrs(export: &RadarExport, search_state: &SearchState) -> (r: Vec<RadarAdr>)
    ensures
        trim_of(search_state.query@).len() == 0 || lower_of(trim_of(search_state.query@)).len()
            == 0 ==> r@ == export.adrs@,
        trim_of(search_state.query@).len() > 0 && lower_of(trim_of(search_state.query@)).len() > 0
            ==> r@ == filtered_adrs_by(export.adrs@, lower_of(trim_of(search_state.query@))),
{
    let query = lowercase(trimmed(search_state.query.as_str()).as_str());
    if query.unicode_len() == 0 {
        let mut out: Vec<RadarAdr> = Vec::new();
        let mut i: usize = 0;
        while i < export.adrs.len()
            invariant
                i <= export.adrs@.len(),
                out@.len() == i,
                forall|k: int| 0 <= k < i ==> out@[k] == export.adrs@[k],
            decreases export.adrs@.len() - i,
        {
            out.push(clone_radar_adr(&export.adrs[i]));
            i += 1;
        }
        proof {
            assert(out@ =~= export.adrs@);
        }
        return out;
    }
    let pred = Ghost(|a: RadarAdr| adr_matches(a, lower_of(trim_of(search_state.query@))));
    let mut out: Vec<RadarAdr> = Vec::new();
    let mut i: usize = 0;
    proof {
        reveal(Seq::filter);
        assert(export.adrs@.subrange(0, 0) =~= Seq::<RadarAdr>::empty());
    }
    while i < export.adrs.len()
        invariant
            i <= export.adrs@.len(),
            pred@ == (|a: RadarAdr| adr_matches(a, lower_of(trim_of(search_state.query@)))),
            query@ == lower_of(trim_of(search_state.query@)),
            out@ == export.adrs@.subrange(0, i as int).filter(pred@),
        decreases export.adrs@.len() - i,
    {
        proof {
            reveal(Seq::filter);
            let sub = export.adrs@.subrange(0, i as int);
            let x = export.adrs@[i as int];
            assert(export.adrs@.subrange(0, i + 1) =~= sub.push(x));
            assert(sub.push(x).drop_last() =~= sub);
            assert(sub.push(x).last() == x);
        }
        let haystack = build_adr_haystack(&export.adrs[i]);
        if contains_str(haystack.as_str(), query.as_str()) {
            out.push(clone_radar_adr(&export.adrs[i]));
        }
        i += 1;
    }
    proof {
        assert(export.adrs@.subrange(0, export.adrs@.len() as int) =~= export.adrs@);
    }
    out
}

/// Containment in a substring is transitive: what contains the longer
/// query contains the shorter one it extends.
pub proof fn lemma_substring_transitive(a: Seq<char>, b: Seq<char>, c: Seq<char>)
    requires
        is_substring_of(a, b),
        is_substring_of(b, c),
    ensures
        is_substring_of(a, c),
{
    let i = choose|i: int| matches_at(b, a, i);
    let j = choose|j: int| matches_at(c, b, j);
    assert(c.subrange(j + i, j + i + a.len()) =~= a) by {
        assert forall|k: int| 0 <= k < a.len() implies c.subrange(j + i, j + i + a.len())[k]
            == a[k] by {
            assert(c.subrange(j, j + b.len())[i + k] == c[j + i + k]);
            assert(b.subrange(i, i + a.len())[k] == b[i + k]);
        }
    }
    assert(matches_at(c, a, j + i));
}

/// Everything a filter keeps was in the filtered sequence.
proof fn lemma_filter_subset<A>(s: Seq<A>, pred: spec_fn(A) -> bool)
    ensures
        forall|x: A| #[trigger] s.filter(pred).contains(x) ==> s.contains(x),
    decreases s.len(),
{
    reveal(Seq::filter);
    if s.len() > 0 {
        lemma_filter_subset(s.drop_last(), pred);
        assert forall|x: A| #[trigger] s.filter(pred).contains(x) implies s.contains(x) by {
            if s.drop_last().filter(pred).contains(x) {
                let k = choose|k: int| 0 <= k < s.drop_last().len() && s.drop_last()[k] == x;
                assert(s[k] == x);
            } else {
                assert(s[s.len() - 1] == x);
            }
        }
    }
}

/// Law: search monotonicity.  Filtering with a query and then with a
/// superstring of it never brings a row back: every blip the longer query
/// keeps, the shorter one keeps too.  Stated over already folded
/// (trimmed, lower-cased) queries.
pub proof fn lemma_filter_blips_monotone(blips: Seq<RadarBlip>, q1: Seq<char>, q2: Seq<char>)
    requires
        is_substring_of(q1, q2),
        q1.len() > 0,
    ensures
        forall|b: RadarBlip| #[trigger] filtered_blips_by(blips, q2).contains(b)
            ==> filtered_blips_by(blips, q1).contains(b),
{
    let p2 = |x: RadarBlip| blip_matches(x, q2);
    let p1 = |x: RadarBlip| blip_matches(x, q1);
    lemma_filter_subset(blips, p2);
    assert forall|b: RadarBlip| #[trigger] blips.filter(p2).contains(b) implies blips.filter(
        p1,
    ).contains(b) by {
        blips.lemma_filter_pred(
            p2,
            choose|i: int| 0 <= i < blips.filter(p2).len() && blips.filter(p2)[i] == b,
        );
        assert(blip_matches(b, q2));
        lemma_substring_transitive(q1, q2, blip_haystack(b));
        assert(p1(b));
        let k = choose|k: int| 0 <= k < blips.len() && blips[k] == b;
        blips.lemma_filter_contains(p1, k);
    }
}

/// The ADR counterpart of `lemma_filter_blips_monotone`.
pub proof fn lemma_filter_adrs_monotone(adrs: Seq<RadarAdr>, q1: Seq<char>, q2: Seq<char>)
    requires
        is_substring_of(q1, q2),
        q1.len() > 0,
    ensures
        forall|a: RadarAdr| #[trigger] filtered_adrs_by(adrs, q2).contains(a)
            ==> filtered_adrs_by(adrs, q1).contains(a),
{
    let p2 = |x: RadarAdr| adr_matches(x, q2);
    let p1 = |x: RadarAdr| adr_matches(x, q1);
    lemma_filter_subset(adrs, p2);
    assert forall|a: RadarAdr| #[trigger] adrs.filter(p2).contains(a) implies adrs.filter(
        p1,
    ).contains(a) by {
        adrs.lemma_filter_pred(
            p2,
            choose|i: int| 0 <= i < adrs.filter(p2).len() && adrs.filter(p2)[i] == a,
        );
        assert(adr_matches(a, q2));
        lemma_substring_transitive(q1, q2, adr_haystack(a));
        assert(p1(a));
        let k = choose|k: int| 0 <= k < adrs.len() && adrs[k] == a;
        adrs.lemma_filter_contains(p1, k);
    }
}

/// How many rows the given dashboard tab shows.
pub fn total_rows_for_tab(export: &RadarExport, tab_index: usize) -> (r: usize)
    ensures
        tab_index == 0 || tab_index == 1 ==> r == export.blips@.len(),
        tab_index == 2 ==> r == export.adrs@.len(),
        tab_index > 2 ==> r == 0,
{
    if tab_index == 0 || tab_index == 1 {
        export.blips.len()
    } else if tab_index == 2 {
        export.adrs.len()
    } else {
        0
    }
}

/// Drives the search overlay: escape closes the detail or the overlay,
/// enter toggles the detail, the arrows move within and between columns,
/// and typing edits the query.
pub fn handle_search_input(search_state: &mut SearchState, key: Key)
    ensures
        key == Key::Esc && old(search_state).detail_open ==> final(search_state).detail_open
            == false && *final(search_state) == (SearchState {
            detail_open: false,
            ..*old(search_state)
        }),
        key == Key::Esc && !old(search_state).detail_open ==> final(search_state).active == false
            && final(search_state).query@ == Seq::<char>::empty(),
        key == Key::Enter ==> final(search_state).detail_open == !old(search_state).detail_open,
        key == Key::Left && !old(search_state).detail_open ==> final(search_state).column
            == SearchColumn::Blips && final(search_state).row == 0,
        key == Key::Right && !old(search_state).detail_open ==> final(search_state).column
            == SearchColumn::Adrs && final(search_state).row == 0,
        key == Key::Up && !old(search_state).detail_open ==> final(search_state).row == (if old(search_state).row > 0 {
            old(search_state).row - 1
        } else {
            0int
        }),
        key == Key::Down && !old(search_state).detail_open ==> final(search_state).row == (if old(search_state).row < usize::MAX {
            old(search_state).row + 1
        } else {
            old(search_state).row as int
        }),
        (key matches Key::Char(c)) && !old(search_state).detail_open ==> final(search_state).query@ == old(search_state).query@.push(key->Char_0) && final(search_state).row == 0,
        key == Key::Backspace && !old(search_state).detail_open && old(search_state).query@.len() > 0 ==> final(search_state).query@ == old(search_state).query@.drop_last()
            && final(search_state).row == 0,
{
    match key {
        Key::Esc => {
            if search_state.detail_open {
                search_state.detail_open = false;
            } else {
                search_state.reset();
            }
        },
        Key::Enter => {
            search_state.detail_open = !search_state.detail_open;
        },
        Key::Left => {
            if !search_state.detail_open {
                search_state.column = SearchColumn::Blips;
                search_state.row = 0;
            }
        },
        Key::Right => {
            if !search_state.detail_open {
                search_state.column = SearchColumn::Adrs;
                search_state.row = 0;
            }
        },
        Key::Up => {
            if !search_state.detail_open {
                if search_state.row > 0 {
                    search_state.row = search_state.row - 1;
                }
            }
        },
        Key::Down => {
            if !search_state.detail_open {
                if search_state.row < usize::MAX {
                    search_state.row = search_state.row + 1;
                }
            }
        },
        Key::Backspace => {
            if !search_state.detail_open {
                let _ = pop_char(&mut search_state.query);
                search_state.row = 0;
            }
        },
        Key::Char(ch) => {
            if !search_state.detail_open {
                push_char(&mut search_state.query, ch);
                search_state.row = 0;
            }
        },
        _ => {},
    }
}

/// What a dashboard table detail popup shows.
#[derive(Debug, Clone, Copy, PartialEq, Eq, Structural)]
pub enum TableDetailKind {
    RecentBlip,
    AllBlip,
    Adr,
}

/// The dashboard's detail popup state.
#[derive(Debug, Clone, Copy)]
pub struct TableDetailState {
    pub active: bool,
    pub kind: TableDetailKind,
    pub row: usize,
}

/// The dashboard state the keyboard drives (the float-based animation
/// clock lives outside, with the rendering).
#[derive(Debug, Clone)]
pub struct DashboardState {
    pub tab_index: usize,
    pub row_offset: usize,
    pub table_selected_row: usize,
    pub table_detail: TableDetailState,
    pub search_state: SearchState,
}

/// A side effect the dashboard asks its shell for.
#[derive(Debug, Clone, Copy, PartialEq, Eq, Structural)]
pub enum DashboardAction {
    Nothing,
    ToggleAnimation,
}

/// The largest scroll offset that still fills the view.
pub open spec fn max_offset_of(total: int, max_rows: int) -> int {
    if total > max_rows {
        total - max_rows
    } else {
        0
    }
}

/// The scroll offset that keeps `selected` visible from below.
pub open spec fn offset_from_below(selected: int, max_rows: int, total: int) -> int {
    let wanted = if selected >= max_rows - 1 {
        selected - (max_rows - 1)
    } else {
        0
    };
    if wanted <= max_offset_of(total, max_rows) {
        wanted
    } else {
        max_offset_of(total, max_rows)
    }
}

/// The detail kind the given tab opens.
pub open spec fn detail_kind_of_tab(tab: int) -> TableDetailKind {
    if tab == 0 {
        TableDetailKind::RecentBlip
    } else if tab == 1 {
        TableDetailKind::AllBlip
    } else {
        TableDetailKind::Adr
    }
}

/// The rows of the current tab, as `total_rows_for_tab` counts them.
pub open spec fn tab_rows_of(export: RadarExport, tab: int) -> int {
    if tab == 0 || tab == 1 {
        export.blips@.len() as int
    } else if tab == 2 {
        export.adrs@.len() as int
    } else {
        0
    }
}

/// Drives the dashboard: tab switching resets the view; the arrows and
/// page keys move the selection and keep it scrolled into view; enter
/// opens the detail popup for the selected row; space asks the shell to
/// toggle the animation; the search key opens the overlay.  With the
/// overlay or the popup open, keys go there first.
pub fn handle_dashboard_input(
    state: &mut DashboardState,
    export: &RadarExport,
    view_rows: usize,
    key: Key,
) -> (r: DashboardAction)
    ensures
        old(state).search_state.active ==> final(state).tab_index == old(state).tab_index
            && final(state).table_detail == old(state).table_detail && r == DashboardAction::Nothing,
        !old(state).search_state.active && old(state).table_detail.active ==> {
            &&& ((key == Key::Esc || key == Key::Enter) ==> final(state).table_detail.active
                == false)
            &&& (!(key == Key::Esc || key == Key::Enter) ==> *final(state) == *old(state))
            &&& r == DashboardAction::Nothing
        },
        !old(state).search_state.active && !old(state).table_detail.active ==> {
            let total = tab_rows_of(*export, old(state).tab_index as int);
            let max_rows = if view_rows >= 1 {
                view_rows as int
            } else {
                1int
            };
            &&& (key == Key::Left ==> final(state).tab_index == (if old(state).tab_index == 0 {
                2int
            } else {
                old(state).tab_index - 1
            }) && final(state).row_offset == 0 && final(state).table_selected_row == 0)
            &&& (key == Key::Right ==> final(state).tab_index == (old(state).tab_index + 1) % 3
                && final(state).row_offset == 0 && final(state).table_selected_row == 0)
            &&& (key == Key::Up ==> {
                &&& final(state).table_selected_row == (if total > 0 && old(state).table_selected_row > 0 {
                    old(state).table_selected_row - 1
                } else {
                    old(state).table_selected_row as int
                })
                &&& final(state).row_offset == (if final(state).table_selected_row
                    <= max_offset_of(total, max_rows) {
                    final(state).table_selected_row as int
                } else {
                    max_offset_of(total, max_rows)
                })
            })
            &&& (key == Key::Down ==> {
                &&& final(state).table_selected_row == (if total > 0 && old(state).table_selected_row < total - 1 {
                    old(state).table_selected_row + 1
                } else {
                    old(state).table_selected_row as int
                })
                &&& final(state).row_offset == offset_from_below(
                    final(state).table_selected_row as int,
                    max_rows,
                    total,
                )
            })
            &&& (key == Key::PageUp ==> {
                &&& final(state).table_selected_row == (if old(state).table_selected_row
                    >= max_rows {
                    old(state).table_selected_row - max_rows
                } else {
                    0int
                })
                &&& final(state).row_offset == (if final(state).table_selected_row
                    <= max_offset_of(total, max_rows) {
                    final(state).table_selected_row as int
                } else {
                    max_offset_of(total, max_rows)
                })
            })
            &&& (key == Key::PageDown && total > 0 ==> {
                &&& final(state).table_selected_row == (if old(state).table_selected_row
                    + max_rows <= total - 1 {
                    old(state).table_selected_row + max_rows
                } else {
                    total - 1
                })
                &&& final(state).row_offset == offset_from_below(
                    final(state).table_selected_row as int,
                    max_rows,
                    total,
                )
            })
            &&& (key == Key::Char(' ') ==> r == DashboardAction::ToggleAnimation && *final(state) == *old(state))
            &&& (key == Key::Char('s') ==> final(state).search_state.active == true && final(state).search_state.query@ == Seq::<char>::empty() && final(state).search_state.row == 0
                && final(state).search_state.detail_open == false)
            &&& (key == Key::Enter && old(state).table_selected_row < total ==> final(state).table_detail.active == true && final(state).table_detail.row == old(state).table_selected_row && final(state).table_detail.kind == detail_kind_of_tab(
                old(state).tab_index as int,
            ))
            &&& (key != Key::Char(' ') ==> r == DashboardAction::Nothing)
        },
{
    if state.search_state.active {
        handle_search_input(&mut state.search_state, key);
        return DashboardAction::Nothing;
    }
    if state.table_detail.active {
        if key == Key::Esc || key == Key::Enter {
            state.table_detail.active = false;
        }
        return DashboardAction::Nothing;
    }
    let total = total_rows_for_tab(export, state.tab_index);
    let max_rows = if view_rows >= 1 {
        view_rows
    } else {
        1
    };
    match key {
        Key::Left => {
            state.tab_index = if state.tab_index == 0 {
                2
            } else {
                state.tab_index - 1
            };
            state.row_offset = 0;
            state.table_selected_row = 0;
            state.table_detail.active = false;
        },
        Key::Right => {
            state.tab_index = crate::input::helpers::wrap_increment(state.tab_index, 3);
            state.row_offset = 0;
            state.table_selected_row = 0;
            state.table_detail.active = false;
        },
        Key::Up => {
            if total > 0 && state.table_selected_row > 0 {
                state.table_selected_row = state.table_selected_row - 1;
            }
            let max_offset = if total > max_rows {
                total - max_rows
            } else {
                0
            };
            state.row_offset = if state.table_selected_row <= max_offset {
                state.table_selected_row
            } else {
                max_offset
            };
        },
        Key::Down => {
            if total > 0 && state.table_selected_row < total - 1 {
                state.table_selected_row = state.table_selected_row + 1;
            }
            let max_offset = if total > max_rows {
                total - max_rows
            } else {
                0
            };
            let wanted = if state.table_selected_row >= max_rows - 1 {
                state.table_selected_row - (max_rows - 1)
            } else {
                0
            };
            state.row_offset = if wanted <= max_offset {
                wanted
            } else {
                max_offset
            };
        },
        Key::PageUp => {
            state.table_selected_row = if state.table_selected_row >= max_rows {
                state.table_selected_row - max_rows
            } else {
                0
            };
            let max_offset = if total > max_rows {
                total - max_rows
            } else {
                0
            };
            state.row_offset = if state.table_selected_row <= max_offset {
                state.table_selected_row
            } else {
                max_offset
            };
        },
        Key::PageDown => {
            if total > 0 {
                state.table_selected_row = if state.table_selected_row <= total - 1
                    && total - 1 - state.table_selected_row >= max_rows {
                    state.table_selected_row + max_rows
                } else {
                    total - 1
                };
                let max_offset = if total > max_rows {
                    total - max_rows
                } else {
                    0
                };
                let wanted = if state.table_selected_row >= max_rows - 1 {
                    state.table_selected_row - (max_rows - 1)
                } else {
                    0
                };
                state.row_offset = if wanted <= max_offset {
                    wanted
                } else {
                    max_offset
                };
            }
        },
        Key::Char(c) => {
            if c == ' ' {
                return DashboardAction::ToggleAnimation;
            }
            if c == 's' {
                state.search_state.active = true;
                state.search_state.query = String::new();
                state.search_state.column = SearchColumn::Blips;
                state.search_state.row = 0;
                state.search_state.detail_open = false;
            }
        },
        Key::Enter => {
            if state.table_selected_row < total {
                state.table_detail.active = true;
                state.table_detail.row = state.table_selected_row;
                state.table_detail.kind = if state.tab_index == 0 {
                    TableDetailKind::RecentBlip
                } else if state.tab_index == 1 {
                    TableDetailKind::AllBlip
                } else {
                    TableDetailKind::Adr
                };
            }
        },
        _ => {},
    }
    DashboardAction::Nothing
}

} // verus!
