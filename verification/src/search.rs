//! The in-memory search index: fuzzy scoring of the loaded lists against
//! the current query, ordering of the hits by score, and the bookkeeping
//! that keeps the cursors inside the filtered lists.  The scoring itself
//! comes from an outside matcher; everything around it — which rows are
//! kept, in which order, and how the cursors move — is verified.

use vstd::prelude::*;
use vstd::string::*;

use fuzzy_matcher::FuzzyMatcher;

use crate::domain::{quadrant_str, ring_str};
use crate::models::{AdrRecord, BlipRecord};
use crate::state::App;
use crate::strutil::{push_char, trim_of, trimmed};

verus! {

/// What the skim fuzzy matcher scores `choice` against `pattern` as.
pub uninterp spec fn fuzzy_score_of(choice: Seq<char>, pattern: Seq<char>) -> Option<i64>;

/// Relies on fuzzy_matcher's `SkimMatcherV2::fuzzy_match` with default
/// settings: a deterministic score computed from the two strings alone.
#[verifier::external_body]
fn fuzzy_score(choice: &str, pattern: &str) -> (r: Option<i64>)
    ensures
        r == fuzzy_score_of(choice@, pattern@),
{
    fuzzy_matcher::skim::SkimMatcherV2::default().fuzzy_match(choice, pattern)
}

/// The text a blip row is matched against: name, tag, description, ring
/// and quadrant, space-separated, the optional parts dropped.
pub open spec fn blip_candidate_of(b: BlipRecord) -> Seq<char> {
    b.name@ + (match b.tag {
        Some(t) => seq![' '] + t@,
        None => Seq::<char>::empty(),
    }) + (match b.description {
        Some(d) => seq![' '] + d@,
        None => Seq::<char>::empty(),
    }) + (match b.ring {
        Some(r) => seq![' '] + ring_str(r),
        None => Seq::<char>::empty(),
    }) + (match b.quadrant {
        Some(q) => seq![' '] + quadrant_str(q),
        None => Seq::<char>::empty(),
    })
}

/// Builds the match text of a blip row.
pub fn blip_candidate(b: &BlipRecord) -> (r: String)
    ensures
        r@ == blip_candidate_of(*b),
{
    let mut s = b.name.clone();
    match &b.tag {
        Some(t) => {
            push_char(&mut s, ' ');
            s.append(t.as_str());
        },
        None => {},
    }
    match &b.description {
        Some(d) => {
            push_char(&mut s, ' ');
            s.append(d.as_str());
        },
        None => {},
    }
    match b.ring {
        Some(r) => {
            push_char(&mut s, ' ');
            s.append(r.as_str());
        },
        None => {},
    }
    match b.quadrant {
        Some(q) => {
            push_char(&mut s, ' ');
            s.append(q.as_str());
        },
        None => {},
    }
    proof {
        assert(s@ =~= blip_candidate_of(*b));
    }
    s
}

/// The text an ADR row is matched against: title, linked blip name,
/// status and timestamp, space-separated.
pub open spec fn adr_candidate_of(a: AdrRecord) -> Seq<char> {
    a.title@ + seq![' '] + a.blip_name@ + seq![' '] + a.status@ + seq![' '] + a.timestamp@
}

/// Builds the match text of an ADR row.
pub fn adr_candidate(a: &AdrRecord) -> (r: String)
    ensures
        r@ == adr_candidate_of(*a),
{
    let mut s = a.title.clone();
    push_char(&mut s, ' ');
    s.append(a.blip_name.as_str());
    push_char(&mut s, ' ');
    s.append(a.status.as_str());
    push_char(&mut s, ' ');
    s.append(a.timestamp.as_str());
    proof {
        assert(s@ =~= adr_candidate_of(*a));
    }
    s
}

/// The result order: higher score first, then lower original position.
pub open spec fn score_before(a: (usize, i64), b: (usize, i64)) -> bool {
    a.1 > b.1 || (a.1 == b.1 && a.0 <= b.0)
}

fn check_score_before(a: (usize, i64), b: (usize, i64)) -> (r: bool)
    ensures
        r == score_before(a, b),
{
    a.1 > b.1 || (a.1 == b.1 && a.0 <= b.0)
}

/// Orders scored rows by score, ties by original position.  The result
/// holds exactly the given pairs.
#[verifier::loop_isolation(false)]
fn sort_matches(input: &Vec<(usize, i64)>) -> (r: Vec<(usize, i64)>)
    requires
        forall|m: int, l: int| 0 <= m < l < input@.len() ==> input@[m].0 != input@[l].0,
    ensures
        r@.len() == input@.len(),
        forall|p: (usize, i64)| r@.contains(p) <==> input@.contains(p),
        forall|m: int, l: int| 0 <= m < l < r@.len() ==> score_before(r@[m], r@[l]),
        forall|m: int, l: int| 0 <= m < l < r@.len() ==> r@[m].0 != r@[l].0,
    decreases input@.len(),
{
    let mut out: Vec<(usize, i64)> = Vec::new();
    let mut i: usize = 0;
    while i < input.len()
        invariant
            i <= input@.len(),
            out@.len() == i,
            forall|p: (usize, i64)| out@.contains(p) <==> input@.subrange(0, i as int).contains(p),
            forall|m: int, l: int| 0 <= m < l < out@.len() ==> score_before(out@[m], out@[l]),
            forall|m: int, l: int| 0 <= m < l < out@.len() ==> out@[m].0 != out@[l].0,
        decreases input@.len() - i,
    {
        let x = input[i];
        let ghost pre = out@;
        let mut pos: usize = 0;
        while pos < out.len() && check_score_before(out[pos], x)
            invariant
                out@ == pre,
                pos <= out@.len(),
                forall|k: int| 0 <= k < pos ==> score_before(out@[k], x),
            decreases out@.len() - pos,
        {
            pos += 1;
        }
        proof {
            // Whatever stopped the scan, everything at or past `pos` comes
            // after `x` in the result order.
            if pos < out@.len() {
                assert(!score_before(out@[pos as int], x));
                assert(score_before(x, out@[pos as int]));
            }
            pre.insert_ensures(pos as int, x);
        }
        out.insert(pos, x);
        proof {
            let now = out@;
            assert(now.len() == pre.len() + 1);
            assert forall|p: (usize, i64)| now.contains(p) implies (pre.contains(p) || p
                == x) by {
                let j = choose|j: int| 0 <= j < now.len() && now[j] == p;
                if j < pos as int {
                    assert(pre[j] == p);
                } else if j > pos as int {
                    assert(pre[j - 1] == p);
                }
            }
            assert forall|p: (usize, i64)| pre.contains(p) || p == x implies now.contains(p) by {
                if pre.contains(p) {
                    let j = choose|j: int| 0 <= j < pre.len() && pre[j] == p;
                    if j < pos as int {
                        assert(now[j] == p);
                    } else {
                        assert(now[j + 1] == p);
                    }
                } else {
                    assert(now[pos as int] == p);
                }
            }
            assert(input@.subrange(0, i + 1) =~= input@.subrange(0, i as int).push(
                input@[i as int],
            ));
            let sub1 = input@.subrange(0, i + 1);
            let sub0 = input@.subrange(0, i as int);
            assert forall|p: (usize, i64)| sub1.contains(p) implies (sub0.contains(p) || p
                == x) by {
                let j = choose|j: int| 0 <= j < sub1.len() && sub1[j] == p;
                if j < sub0.len() {
                    assert(sub0[j] == p);
                }
            }
            assert forall|p: (usize, i64)| sub0.contains(p) || p == x implies sub1.contains(
                p,
            ) by {
                if sub0.contains(p) {
                    let j = choose|j: int| 0 <= j < sub0.len() && sub0[j] == p;
                    assert(sub1[j] == p);
                } else {
                    assert(sub1[sub1.len() - 1] == p);
                }
            }
            assert forall|m: int, l: int| 0 <= m < l < now.len() implies score_before(
                now[m],
                now[l],
            ) by {
                if l < pos as int {
                    assert(now[m] == pre[m] && now[l] == pre[l]);
                } else if m > pos as int {
                    assert(now[m] == pre[m - 1] && now[l] == pre[l - 1]);
                } else if m < pos as int && l == pos as int {
                    assert(now[m] == pre[m] && score_before(pre[m], x));
                } else if m < pos as int && l > pos as int {
                    assert(now[m] == pre[m] && now[l] == pre[l - 1]);
                } else if m == pos as int && l > pos as int {
                    assert(now[l] == pre[l - 1]);
                    assert(score_before(x, pre[pos as int]));
                    if l - 1 > pos as int {
                        assert(score_before(pre[pos as int], pre[l - 1]));
                    }
                }
            }
            // Distinctness of positions carries over: the new element's
            // position is fresh, because it was not among the first `i`
            // pairs of the input.
            assert forall|m: int, l: int| 0 <= m < l < now.len() implies now[m].0 != now[l].0 by {
                let a = if m < pos as int {
                    m
                } else {
                    m - 1
                };
                let b = if l < pos as int {
                    l
                } else {
                    l - 1
                };
                if m == pos as int || l == pos as int {
                    let other = if m == pos as int {
                        now[l]
                    } else {
                        now[m]
                    };
                    assert(pre.contains(other));
                    let j = choose|j: int| 0 <= j < pre.len() && pre[j] == other;
                    assert(input@.subrange(0, i as int).contains(other));
                    let k = choose|k: int|
                        0 <= k < input@.subrange(0, i as int).len() && input@.subrange(
                            0,
                            i as int,
                        )[k] == other;
                    assert(input@[k] == other);
                    assert(input@[i as int] == x);
                    assert(other.0 != x.0);
                } else {
                    assert(now[m] == pre[a] && now[l] == pre[b]);
                }
            }
        }
        i += 1;
    }
    proof {
        assert(input@.subrange(0, input@.len() as int) =~= input@);
    }
    out
}

/// The score a blip row gets for a query, or `None` when it is no hit.
pub open spec fn blip_score_at(blips: Seq<BlipRecord>, q: Seq<char>, k: int) -> Option<i64> {
    fuzzy_score_of(blip_candidate_of(blips[k]), q)
}

/// The score an ADR row gets for a query, or `None` when it is no hit.
pub open spec fn adr_score_at(adrs: Seq<AdrRecord>, q: Seq<char>, k: int) -> Option<i64> {
    fuzzy_score_of(adr_candidate_of(adrs[k]), q)
}

/// The filtered index list is exactly the hits of the source list,
/// ordered by score (ties by position).
pub open spec fn filtered_blips_ok(
    indices: Seq<usize>,
    blips: Seq<BlipRecord>,
    q: Seq<char>,
) -> bool {
    &&& forall|m: int|
        0 <= m < indices.len() ==> (#[trigger] indices[m]) < blips.len() && blip_score_at(
            blips,
            q,
            indices[m] as int,
        ) is Some
    &&& forall|k: int|
        0 <= k < blips.len() && blip_score_at(blips, q, k) is Some ==> exists|m: int|
            0 <= m < indices.len() && (#[trigger] indices[m]) as int == k
    &&& forall|m: int, l: int| 0 <= m < l < indices.len() ==> indices[m] != indices[l]
    &&& forall|m: int, l: int|
        0 <= m < l < indices.len() ==> score_before(
            (indices[m], blip_score_at(blips, q, indices[m] as int).unwrap()),
            (indices[l], blip_score_at(blips, q, indices[l] as int).unwrap()),
        )
}

/// The ADR counterpart of `filtered_blips_ok`.
pub open spec fn filtered_adrs_ok(indices: Seq<usize>, adrs: Seq<AdrRecord>, q: Seq<char>) -> bool {
    &&& forall|m: int|
        0 <= m < indices.len() ==> (#[trigger] indices[m]) < adrs.len() && adr_score_at(
            adrs,
            q,
            indices[m] as int,
        ) is Some
    &&& forall|k: int|
        0 <= k < adrs.len() && adr_score_at(adrs, q, k) is Some ==> exists|m: int|
            0 <= m < indices.len() && (#[trigger] indices[m]) as int == k
    &&& forall|m: int, l: int| 0 <= m < l < indices.len() ==> indices[m] != indices[l]
    &&& forall|m: int, l: int|
        0 <= m < l < indices.len() ==> score_before(
            (indices[m], adr_score_at(adrs, q, indices[m] as int).unwrap()),
            (indices[l], adr_score_at(adrs, q, indices[l] as int).unwrap()),
        )
}

#[verifier::loop_isolation(false)]
fn score_blips(blips: &Vec<BlipRecord>, q: &str) -> (r: Vec<(usize, i64)>)
    ensures
        forall|m: int|
            0 <= m < r@.len() ==> (#[trigger] r@[m]).0 < blips@.len() && blip_score_at(
                blips@,
                q@,
                r@[m].0 as int,
            ) == Some(r@[m].1),
        forall|k: int|
            0 <= k < blips@.len() && blip_score_at(blips@, q@, k) is Some ==> exists|m: int|
                0 <= m < r@.len() && (#[trigger] r@[m]).0 as int == k,
        forall|m: int, l: int| 0 <= m < l < r@.len() ==> r@[m].0 < r@[l].0,
        r@.len() <= blips@.len(),
{
    let mut scores: Vec<(usize, i64)> = Vec::new();
    let mut i: usize = 0;
    while i < blips.len()
        invariant
            i <= blips@.len(),
            scores@.len() <= i,
            forall|m: int|
                0 <= m < scores@.len() ==> (#[trigger] scores@[m]).0 < i && blip_score_at(
                    blips@,
                    q@,
                    scores@[m].0 as int,
                ) == Some(scores@[m].1),
            forall|k: int|
                0 <= k < i && blip_score_at(blips@, q@, k) is Some ==> exists|m: int|
                    0 <= m < scores@.len() && (#[trigger] scores@[m]).0 as int == k,
            forall|m: int, l: int| 0 <= m < l < scores@.len() ==> scores@[m].0 < scores@[l].0,
        decreases blips@.len() - i,
    {
        let cand = blip_candidate(&blips[i]);
        let ghost pre = scores@;
        match fuzzy_score(cand.as_str(), q) {
            Some(score) => {
                scores.push((i, score));
            },
            None => {},
        }
        proof {
            assert forall|k: int|
                0 <= k < i + 1 && blip_score_at(blips@, q@, k) is Some implies exists|m: int|
                0 <= m < scores@.len() && (#[trigger] scores@[m]).0 as int == k by {
                if k < i as int {
                    let m = choose|m: int| 0 <= m < pre.len() && (#[trigger] pre[m]).0 as int == k;
                    assert(scores@[m].0 as int == k);
                } else {
                    assert(scores@[scores@.len() - 1].0 as int == k);
                }
            }
        }
        i += 1;
    }
    scores
}

#[verifier::loop_isolation(false)]
fn score_adrs(adrs: &Vec<AdrRecord>, q: &str) -> (r: Vec<(usize, i64)>)
    ensures
        forall|m: int|
            0 <= m < r@.len() ==> (#[trigger] r@[m]).0 < adrs@.len() && adr_score_at(
                adrs@,
                q@,
                r@[m].0 as int,
            ) == Some(r@[m].1),
        forall|k: int|
            0 <= k < adrs@.len() && adr_score_at(adrs@, q@, k) is Some ==> exists|m: int|
                0 <= m < r@.len() && (#[trigger] r@[m]).0 as int == k,
        forall|m: int, l: int| 0 <= m < l < r@.len() ==> r@[m].0 < r@[l].0,
        r@.len() <= adrs@.len(),
{
    let mut scores: Vec<(usize, i64)> = Vec::new();
    let mut i: usize = 0;
    while i < adrs.len()
        invariant
            i <= adrs@.len(),
            scores@.len() <= i,
            forall|m: int|
                0 <= m < scores@.len() ==> (#[trigger] scores@[m]).0 < i && adr_score_at(
                    adrs@,
                    q@,
                    scores@[m].0 as int,
                ) == Some(scores@[m].1),
            forall|k: int|
                0 <= k < i && adr_score_at(adrs@, q@, k) is Some ==> exists|m: int|
                    0 <= m < scores@.len() && (#[trigger] scores@[m]).0 as int == k,
            forall|m: int, l: int| 0 <= m < l < scores@.len() ==> scores@[m].0 < scores@[l].0,
        decreases adrs@.len() - i,
    {
        let cand = adr_candidate(&adrs[i]);
        let ghost pre = scores@;
        match fuzzy_score(cand.as_str(), q) {
            Some(score) => {
                scores.push((i, score));
            },
            None => {},
        }
        proof {
            assert forall|k: int|
                0 <= k < i + 1 && adr_score_at(adrs@, q@, k) is Some implies exists|m: int|
                0 <= m < scores@.len() && (#[trigger] scores@[m]).0 as int == k by {
                if k < i as int {
                    let m = choose|m: int| 0 <= m < pre.len() && (#[trigger] pre[m]).0 as int == k;
                    assert(scores@[m].0 as int == k);
                } else {
                    assert(scores@[scores@.len() - 1].0 as int == k);
                }
            }
        }
        i += 1;
    }
    scores
}

#[verifier::loop_isolation(false)]
fn indices_of(pairs: &Vec<(usize, i64)>) -> (r: Vec<usize>)
    ensures
        r@.len() == pairs@.len(),
        forall|m: int| 0 <= m < r@.len() ==> (#[trigger] r@[m]) == pairs@[m].0,
{
    let mut out: Vec<usize> = Vec::new();
    let mut i: usize = 0;
    while i < pairs.len()
        invariant
            i <= pairs@.len(),
            out@.len() == i,
            forall|m: int| 0 <= m < i ==> (#[trigger] out@[m]) == pairs@[m].0,
        decreases pairs@.len() - i,
    {
        out.push(pairs[i].0);
        i += 1;
    }
    out
}


proof fn lemma_filtered_blips_from_pairs(
    indices: Seq<usize>,
    pairs: Seq<(usize, i64)>,
    blips: Seq<BlipRecord>,
    q: Seq<char>,
)
    requires
        indices.len() == pairs.len(),
        forall|m: int| 0 <= m < indices.len() ==> (#[trigger] indices[m]) == pairs[m].0,
        forall|m: int|
            0 <= m < pairs.len() ==> (#[trigger] pairs[m]).0 < blips.len() && blip_score_at(
                blips,
                q,
                pairs[m].0 as int,
            ) == Some(pairs[m].1),
        forall|k: int|
            0 <= k < blips.len() && blip_score_at(blips, q, k) is Some ==> exists|m: int|
                0 <= m < pairs.len() && (#[trigger] pairs[m]).0 as int == k,
        forall|m: int, l: int| 0 <= m < l < pairs.len() ==> score_before(pairs[m], pairs[l]),
        forall|m: int, l: int| 0 <= m < l < pairs.len() ==> pairs[m].0 != pairs[l].0,
    ensures
        filtered_blips_ok(indices, blips, q),
{
    assert forall|k: int|
        0 <= k < blips.len() && blip_score_at(blips, q, k) is Some implies exists|m: int|
        0 <= m < indices.len() && (#[trigger] indices[m]) as int == k by {
        let m = choose|m: int| 0 <= m < pairs.len() && (#[trigger] pairs[m]).0 as int == k;
        assert(indices[m] as int == k);
    }
    assert forall|m: int, l: int| 0 <= m < l < indices.len() implies score_before(
        (indices[m], blip_score_at(blips, q, indices[m] as int).unwrap()),
        (indices[l], blip_score_at(blips, q, indices[l] as int).unwrap()),
    ) by {
        assert(score_before(pairs[m], pairs[l]));
        assert(indices[m] == pairs[m].0 && indices[l] == pairs[l].0);
        assert(blip_score_at(blips, q, indices[m] as int).unwrap() == pairs[m].1);
        assert(blip_score_at(blips, q, indices[l] as int).unwrap() == pairs[l].1);
    }
}

proof fn lemma_filtered_adrs_from_pairs(
    indices: Seq<usize>,
    pairs: Seq<(usize, i64)>,
    adrs: Seq<AdrRecord>,
    q: Seq<char>,
)
    requires
        indices.len() == pairs.len(),
        forall|m: int| 0 <= m < indices.len() ==> (#[trigger] indices[m]) == pairs[m].0,
        forall|m: int|
            0 <= m < pairs.len() ==> (#[trigger] pairs[m]).0 < adrs.len() && adr_score_at(
                adrs,
                q,
                pairs[m].0 as int,
            ) == Some(pairs[m].1),
        forall|k: int|
            0 <= k < adrs.len() && adr_score_at(adrs, q, k) is Some ==> exists|m: int|
                0 <= m < pairs.len() && (#[trigger] pairs[m]).0 as int == k,
        forall|m: int, l: int| 0 <= m < l < pairs.len() ==> score_before(pairs[m], pairs[l]),
        forall|m: int, l: int| 0 <= m < l < pairs.len() ==> pairs[m].0 != pairs[l].0,
    ensures
        filtered_adrs_ok(indices, adrs, q),
{
    assert forall|k: int|
        0 <= k < adrs.len() && adr_score_at(adrs, q, k) is Some implies exists|m: int|
        0 <= m < indices.len() && (#[trigger] indices[m]) as int == k by {
        let m = choose|m: int| 0 <= m < pairs.len() && (#[trigger] pairs[m]).0 as int == k;
        assert(indices[m] as int == k);
    }
    assert forall|m: int, l: int| 0 <= m < l < indices.len() implies score_before(
        (indices[m], adr_score_at(adrs, q, indices[m] as int).unwrap()),
        (indices[l], adr_score_at(adrs, q, indices[l] as int).unwrap()),
    ) by {
        assert(score_before(pairs[m], pairs[l]));
        assert(indices[m] == pairs[m].0 && indices[l] == pairs[l].0);
        assert(adr_score_at(adrs, q, indices[m] as int).unwrap() == pairs[m].1);
        assert(adr_score_at(adrs, q, indices[l] as int).unwrap() == pairs[l].1);
    }
}


/// The search bookkeeping is consistent: with no active non-blank query
/// the filters are empty, otherwise each filter is exactly the ordered hit
/// list of its source.
pub open spec fn search_filters_ok(app: App) -> bool {
    if !app.search_active || trim_of(app.search_query@).len() == 0 {
        app.filtered_blip_indices@.len() == 0 && app.filtered_adr_indices@.len() == 0
    } else {
        filtered_blips_ok(app.filtered_blip_indices@, app.blips@, trim_of(app.search_query@))
            && filtered_adrs_ok(app.filtered_adr_indices@, app.adrs@, trim_of(app.search_query@))
    }
}

impl App {
    /// Re-filters both loaded lists against the current query.  With no
    /// active search or a blank query the filters are dropped; otherwise
    /// each list's hits are ordered by score and the result cursor is
    /// clamped into the combined hit list.
    #[verifier::loop_isolation(false)]
    pub fn apply_search_filter(&mut self)
        requires
            old(self).wf(),
        ensures
            final(self).wf(),
            trim_of(old(self).search_query@).len() <= old(self).search_query@.len(),
            *final(self) == (App {
                filtered_blip_indices: final(self).filtered_blip_indices,
                filtered_adr_indices: final(self).filtered_adr_indices,
                search_result_index: final(self).search_result_index,
                selected_blip_index: final(self).selected_blip_index,
                selected_adr_index: final(self).selected_adr_index,
                ..*old(self)
            }),
            (!old(self).search_active || trim_of(old(self).search_query@).len() == 0) ==> {
                &&& final(self).filtered_blip_indices@.len() == 0
                &&& final(self).filtered_adr_indices@.len() == 0
                &&& final(self).search_result_index == 0
                &&& final(self).selected_blip_index == old(self).selected_blip_index
                &&& final(self).selected_adr_index == old(self).selected_adr_index
            },
            (old(self).search_active && trim_of(old(self).search_query@).len() > 0) ==> {
                let q = trim_of(old(self).search_query@);
                let total = final(self).filtered_blip_indices@.len() + final(self).filtered_adr_indices@.len();
                &&& filtered_blips_ok(final(self).filtered_blip_indices@, old(self).blips@, q)
                &&& filtered_adrs_ok(final(self).filtered_adr_indices@, old(self).adrs@, q)
                &&& (total == 0 ==> final(self).search_result_index == 0)
                &&& (total > 0 && old(self).search_result_index >= total ==> final(self).search_result_index == total - 1)
                &&& (total > 0 && old(self).search_result_index < total ==> final(self).search_result_index == old(self).search_result_index)
                &&& final(self).selected_blip_index == 0
                &&& final(self).selected_adr_index == 0
            },
    {
        let q = trimmed(self.search_query.as_str());
        if !self.search_active || q.unicode_len() == 0 {
            self.filtered_blip_indices = Vec::new();
            self.filtered_adr_indices = Vec::new();
            self.search_result_index = 0;
            return ;
        }
        let blip_scores = score_blips(&self.blips, q.as_str());
        let blip_sorted = sort_matches(&blip_scores);
        proof {
            assert forall|m: int|
                0 <= m < blip_sorted@.len() implies (#[trigger] blip_sorted@[m]).0
                < self.blips@.len() && blip_score_at(self.blips@, q@, blip_sorted@[m].0 as int)
                == Some(blip_sorted@[m].1) by {
                assert(blip_sorted@.contains(blip_sorted@[m]));
                assert(blip_scores@.contains(blip_sorted@[m]));
                let j = choose|j: int|
                    0 <= j < blip_scores@.len() && blip_scores@[j] == blip_sorted@[m];
            }
            assert forall|k: int|
                0 <= k < self.blips@.len() && blip_score_at(self.blips@, q@, k) is Some implies
                exists|m: int|
                    0 <= m < blip_sorted@.len() && (#[trigger] blip_sorted@[m]).0 as int == k by {
                let j = choose|j: int|
                    0 <= j < blip_scores@.len() && (#[trigger] blip_scores@[j]).0 as int == k;
                assert(blip_scores@.contains(blip_scores@[j]));
                assert(blip_sorted@.contains(blip_scores@[j]));
                let m = choose|m: int|
                    0 <= m < blip_sorted@.len() && blip_sorted@[m] == blip_scores@[j];
                assert(blip_sorted@[m].0 as int == k);
            }
        }
        let blip_indices = indices_of(&blip_sorted);
        let adr_scores = score_adrs(&self.adrs, q.as_str());
        let adr_sorted = sort_matches(&adr_scores);
        proof {
            assert forall|m: int|
                0 <= m < adr_sorted@.len() implies (#[trigger] adr_sorted@[m]).0
                < self.adrs@.len() && adr_score_at(self.adrs@, q@, adr_sorted@[m].0 as int) == Some(
                adr_sorted@[m].1,
            ) by {
                assert(adr_sorted@.contains(adr_sorted@[m]));
                assert(adr_scores@.contains(adr_sorted@[m]));
                let j = choose|j: int|
                    0 <= j < adr_scores@.len() && adr_scores@[j] == adr_sorted@[m];
            }
            assert forall|k: int|
                0 <= k < self.adrs@.len() && adr_score_at(self.adrs@, q@, k) is Some implies exists|
                    m: int,
                |
                    0 <= m < adr_sorted@.len() && (#[trigger] adr_sorted@[m]).0 as int == k by {
                let j = choose|j: int|
                    0 <= j < adr_scores@.len() && (#[trigger] adr_scores@[j]).0 as int == k;
                assert(adr_scores@.contains(adr_scores@[j]));
                assert(adr_sorted@.contains(adr_scores@[j]));
                let m = choose|m: int|
                    0 <= m < adr_sorted@.len() && adr_sorted@[m] == adr_scores@[j];
                assert(adr_sorted@[m].0 as int == k);
            }
        }
        let adr_indices = indices_of(&adr_sorted);
        proof {
            lemma_filtered_blips_from_pairs(blip_indices@, blip_sorted@, self.blips@, q@);
            lemma_filtered_adrs_from_pairs(adr_indices@, adr_sorted@, self.adrs@, q@);
        }
        self.filtered_blip_indices = blip_indices;
        self.filtered_adr_indices = adr_indices;
        let total_results = self.filtered_blip_indices.len() + self.filtered_adr_indices.len();
        if total_results == 0 {
            self.search_result_index = 0;
        } else if self.search_result_index >= total_results {
            self.search_result_index = total_results - 1;
        }
        self.selected_blip_index = 0;
        self.selected_adr_index = 0;
    }

    /// Drops the query and every filter, and puts all cursors back at the
    /// top.
    pub fn clear_search(&mut self)
        requires
            old(self).wf(),
        ensures
            final(self).wf(),
            final(self).search_query@ == Seq::<char>::empty(),
            final(self).search_active == false,
            final(self).filtered_blip_indices@.len() == 0,
            final(self).filtered_adr_indices@.len() == 0,
            final(self).search_result_index == 0,
            final(self).selected_blip_index == 0,
            final(self).selected_adr_index == 0,
            *final(self) == (App {
                search_query: final(self).search_query,
                search_active: false,
                filtered_blip_indices: final(self).filtered_blip_indices,
                filtered_adr_indices: final(self).filtered_adr_indices,
                search_result_index: 0,
                selected_blip_index: 0,
                selected_adr_index: 0,
                ..*old(self)
            }),
    {
        self.search_query = String::new();
        self.search_active = false;
        self.filtered_blip_indices = Vec::new();
        self.filtered_adr_indices = Vec::new();
        self.search_result_index = 0;
        self.selected_blip_index = 0;
        self.selected_adr_index = 0;
    }

    /// Reloads the blip list from the store and re-applies the search
    /// filter.
    pub fn fetch_blips(&mut self) -> (r: Result<(), crate::store::StoreError>)
        requires
            old(self).wf(),
        ensures
            final(self).wf(),
            r is Ok,
            final(self).blips@ == old(self).store.blips@,
            final(self).store == old(self).store,
            *final(self) == (App {
                blips: final(self).blips,
                filtered_blip_indices: final(self).filtered_blip_indices,
                filtered_adr_indices: final(self).filtered_adr_indices,
                search_result_index: final(self).search_result_index,
                selected_blip_index: final(self).selected_blip_index,
                selected_adr_index: final(self).selected_adr_index,
                ..*old(self)
            }),
    {
        proof {
            crate::store::lemma_blip_ids_bound(self.store.blips@);
            if self.store.blips@.len() > 0 {
                assert(self.store.blips@[0].id >= self.store.blips@.len());
            }
        }
        self.blips = self.store.get_blips();
        self.apply_search_filter();
        Ok(())
    }

    /// Reloads the ADR list from the store — all rows for a blank name,
    /// else the rows linked to that blip name — remembers the filter, and
    /// re-applies the search filter.
    pub fn fetch_adrs_for_blip(&mut self, blip_name: &str) -> (r: Result<
        (),
        crate::store::StoreError,
    >)
        requires
            old(self).wf(),
        ensures
            final(self).wf(),
            r is Ok,
            blip_name@.len() == 0 ==> final(self).adrs@ == old(self).store.adrs@ && final(self).adr_filter_name is None,
            blip_name@.len() > 0 ==> final(self).adrs@ == old(self).store.adrs@.filter(
                |a: AdrRecord| a.blip_name@ == blip_name@,
            ) && final(self).adr_filter_name is Some && final(self).adr_filter_name.unwrap()@
                == blip_name@,
            final(self).store == old(self).store,
            *final(self) == (App {
                adrs: final(self).adrs,
                adr_filter_name: final(self).adr_filter_name,
                filtered_blip_indices: final(self).filtered_blip_indices,
                filtered_adr_indices: final(self).filtered_adr_indices,
                search_result_index: final(self).search_result_index,
                selected_blip_index: final(self).selected_blip_index,
                selected_adr_index: final(self).selected_adr_index,
                ..*old(self)
            }),
    {
        proof {
            crate::store::lemma_adr_ids_bound(self.store.adrs@);
            if self.store.adrs@.len() > 0 {
                assert(self.store.adrs@[0].id >= self.store.adrs@.len());
            }
        }
        if blip_name.unicode_len() == 0 {
            self.adrs = self.store.get_adrs();
            self.adr_filter_name = None;
        } else {
            self.adrs = self.store.get_adrs_by_blip_name(blip_name);
            self.adr_filter_name = Some(String::from_str(blip_name));
            proof {
                self.store.adrs@.lemma_filter_len(|a: AdrRecord| a.blip_name@ == blip_name@);
            }
        }
        self.apply_search_filter();
        Ok(())
    }

    /// Loads the full ADR list if none is loaded yet.
    pub fn ensure_adrs_loaded(&mut self) -> (r: Result<(), crate::store::StoreError>)
        requires
            old(self).wf(),
        ensures
            final(self).wf(),
            r is Ok,
            old(self).adrs@.len() > 0 ==> *final(self) == *old(self),
            old(self).adrs@.len() == 0 ==> final(self).adrs@ == old(self).store.adrs@,
    {
        if self.adrs.len() == 0 {
            let r = self.fetch_adrs_for_blip("");
            proof {
                reveal_strlit("");
            }
            return r;
        }
        Ok(())
    }
}

} // verus!
