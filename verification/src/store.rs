//! The catalog store: the two tables (blips and ADRs) and the key/value
//! settings table, with the exact semantics of the relational store the tool
//! keeps its entries in.  Rows live newest-first (descending id); names of
//! blips are unique; an update is a read-modify-write where unset fields keep
//! their current value.  The surrounding application mirrors this state to
//! its database; the rules live here.

use vstd::prelude::*;

use crate::domain::{Quadrant, Ring};
use crate::models::{
    clone_adr, clone_blip, clone_opt_string, AdrMetadataParams, AdrRecord, BlipMetadataParams,
    BlipRecord,
};
use crate::strutil::{lemma_seq_char_le_total, lemma_seq_char_le_trans, seq_char_le, str_eq, str_le};

verus! {

/// A failed store operation.
#[derive(Debug, Clone, Copy, PartialEq, Eq, Structural)]
pub enum StoreError {
    /// A row with the same unique key already exists.
    Conflict,
    /// The addressed row does not exist.
    NotFound,
}

impl StoreError {
    pub fn message(self) -> (r: &'static str)
        ensures
            self == StoreError::Conflict ==> r@ == "row already exists"@,
            self == StoreError::NotFound ==> r@ == "row not found"@,
    {
        match self {
            StoreError::Conflict => "row already exists",
            StoreError::NotFound => "row not found",
        }
    }
}

/// Parameters of a partial ADR update; unset fields keep their value.
#[derive(Debug, Clone)]
pub struct AdrUpdateParams {
    pub id: i32,
    pub title: Option<String>,
    pub blip_name: Option<String>,
    pub status: Option<String>,
    pub created: Option<String>,
}

impl AdrUpdateParams {
    pub fn has_status(&self) -> (r: bool)
        ensures
            r == (self.status is Some),
    {
        self.status.is_some()
    }
}

/// Parameters of a partial blip update; unset fields keep their value.
#[derive(Debug, Clone)]
pub struct BlipUpdateParams {
    pub id: i32,
    pub name: Option<String>,
    pub ring: Option<Ring>,
    pub quadrant: Option<Quadrant>,
    pub tag: Option<String>,
    pub description: Option<String>,
    pub adr_id: Option<i32>,
}

pub open spec fn has_blip_id(s: Seq<BlipRecord>, id: int) -> bool {
    exists|i: int| 0 <= i < s.len() && s[i].id == id
}

pub open spec fn has_blip_name(s: Seq<BlipRecord>, name: Seq<char>) -> bool {
    exists|i: int| 0 <= i < s.len() && s[i].name@ == name
}

pub open spec fn has_adr_id(s: Seq<AdrRecord>, id: int) -> bool {
    exists|i: int| 0 <= i < s.len() && s[i].id == id
}

pub open spec fn has_adr_title(s: Seq<AdrRecord>, title: Seq<char>) -> bool {
    exists|i: int| 0 <= i < s.len() && s[i].title@ == title
}

/// Position of the blip row with the given id, or `-1` when there is none.
pub open spec fn blip_index_of(s: Seq<BlipRecord>, id: int) -> int
    decreases s.len(),
{
    if s.len() == 0 {
        -1
    } else if s[0].id == id {
        0
    } else {
        let sub = blip_index_of(s.drop_first(), id);
        if sub == -1 {
            -1
        } else {
            1 + sub
        }
    }
}

pub proof fn lemma_blip_index_of(s: Seq<BlipRecord>, id: int)
    ensures
        has_blip_id(s, id) <==> blip_index_of(s, id) != -1,
        blip_index_of(s, id) != -1 ==> 0 <= blip_index_of(s, id) < s.len()
            && s[blip_index_of(s, id)].id == id,
        forall|k: int| 0 <= k < blip_index_of(s, id) ==> s[k].id != id,
    decreases s.len(),
{
    if s.len() > 0 && s[0].id != id {
        lemma_blip_index_of(s.drop_first(), id);
        assert forall|i: int| 0 <= i < s.len() && s[i].id == id implies has_blip_id(
            s.drop_first(),
            id,
        ) by {
            assert(s.drop_first()[i - 1] == s[i]);
        }
        if has_blip_id(s.drop_first(), id) {
            assert(has_blip_id(s, id)) by {
                let i = choose|i: int|
                    0 <= i < s.drop_first().len() && s.drop_first()[i].id == id;
                assert(s[i + 1].id == id);
            }
        }
        assert forall|k: int| 0 <= k < blip_index_of(s, id) implies s[k].id != id by {
            if k > 0 {
                assert(s.drop_first()[k - 1] == s[k]);
            }
        }
        if blip_index_of(s, id) != -1 {
            assert(s.drop_first()[blip_index_of(s.drop_first(), id)] == s[blip_index_of(s, id)]);
        }
    }
}

/// Position of the ADR row with the given id, or `-1` when there is none.
pub open spec fn adr_index_of(s: Seq<AdrRecord>, id: int) -> int
    decreases s.len(),
{
    if s.len() == 0 {
        -1
    } else if s[0].id == id {
        0
    } else {
        let sub = adr_index_of(s.drop_first(), id);
        if sub == -1 {
            -1
        } else {
            1 + sub
        }
    }
}

pub proof fn lemma_adr_index_of(s: Seq<AdrRecord>, id: int)
    ensures
        has_adr_id(s, id) <==> adr_index_of(s, id) != -1,
        adr_index_of(s, id) != -1 ==> 0 <= adr_index_of(s, id) < s.len()
            && s[adr_index_of(s, id)].id == id,
        forall|k: int| 0 <= k < adr_index_of(s, id) ==> s[k].id != id,
    decreases s.len(),
{
    if s.len() > 0 && s[0].id != id {
        lemma_adr_index_of(s.drop_first(), id);
        assert forall|i: int| 0 <= i < s.len() && s[i].id == id implies has_adr_id(
            s.drop_first(),
            id,
        ) by {
            assert(s.drop_first()[i - 1] == s[i]);
        }
        if has_adr_id(s.drop_first(), id) {
            assert(has_adr_id(s, id)) by {
                let i = choose|i: int|
                    0 <= i < s.drop_first().len() && s.drop_first()[i].id == id;
                assert(s[i + 1].id == id);
            }
        }
        assert forall|k: int| 0 <= k < adr_index_of(s, id) implies s[k].id != id by {
            if k > 0 {
                assert(s.drop_first()[k - 1] == s[k]);
            }
        }
        if adr_index_of(s, id) != -1 {
            assert(s.drop_first()[adr_index_of(s.drop_first(), id)] == s[adr_index_of(s, id)]);
        }
    }
}

/// The id a newly created blip row receives: one past the largest in use.
pub open spec fn next_blip_id_of(s: Seq<BlipRecord>) -> int {
    if s.len() == 0 {
        1
    } else {
        s[0].id + 1
    }
}

/// The id a newly created ADR row receives: one past the largest in use.
pub open spec fn next_adr_id_of(s: Seq<AdrRecord>) -> int {
    if s.len() == 0 {
        1
    } else {
        s[0].id + 1
    }
}

/// How a blip row looks after a partial update: every set field takes the
/// parameter value, every unset field keeps its current value exactly —
/// an unset optional stays unset, and without a new linked id the ADR
/// flag keeps whatever it was (it may have come from an ADR referencing
/// the blip by title); linking an ADR sets the flag.
pub open spec fn blip_updated(cur: BlipRecord, p: BlipUpdateParams, new: BlipRecord) -> bool {
    &&& new.id == cur.id
    &&& new.name == (if p.name is Some {
        p.name.unwrap()
    } else {
        cur.name
    })
    &&& new.ring == (if p.ring is Some {
        p.ring
    } else {
        cur.ring
    })
    &&& new.quadrant == (if p.quadrant is Some {
        p.quadrant
    } else {
        cur.quadrant
    })
    &&& new.tag == (if p.tag is Some {
        Some(p.tag.unwrap())
    } else {
        cur.tag
    })
    &&& new.description == (if p.description is Some {
        Some(p.description.unwrap())
    } else {
        cur.description
    })
    &&& new.created == cur.created
    &&& new.adr_id == (if p.adr_id is Some {
        p.adr_id
    } else {
        cur.adr_id
    })
    &&& new.has_adr == (if p.adr_id is Some {
        true
    } else {
        cur.has_adr
    })
}

/// How an ADR row looks after a partial update.
pub open spec fn adr_updated(cur: AdrRecord, p: AdrUpdateParams, new: AdrRecord) -> bool {
    &&& new.id == cur.id
    &&& new.title == (if p.title is Some {
        p.title.unwrap()
    } else {
        cur.title
    })
    &&& new.blip_name == (if p.blip_name is Some {
        p.blip_name.unwrap()
    } else {
        cur.blip_name
    })
    &&& new.status == (if p.status is Some {
        p.status.unwrap()
    } else {
        cur.status
    })
    &&& new.timestamp == (if p.created is Some {
        p.created.unwrap()
    } else {
        cur.timestamp
    })
}

/// Every blip row has a positive id, and a positive linked ADR id where
/// one is set.
pub open spec fn blip_rows_valid(s: Seq<BlipRecord>) -> bool {
    forall|i: int|
        0 <= i < s.len() ==> (#[trigger] s[i]).id >= 1 && (s[i].adr_id is Some
            ==> s[i].adr_id.unwrap() >= 1)
}

/// Every ADR row has a positive id.
pub open spec fn adr_rows_valid(s: Seq<AdrRecord>) -> bool {
    forall|i: int| 0 <= i < s.len() ==> (#[trigger] s[i]).id >= 1
}

/// Position of the first blip row with the given name, or `-1` when there
/// is none.
pub open spec fn blip_name_index_of(s: Seq<BlipRecord>, name: Seq<char>) -> int
    decreases s.len(),
{
    if s.len() == 0 {
        -1
    } else if s[0].name@ == name {
        0
    } else {
        let sub = blip_name_index_of(s.drop_first(), name);
        if sub == -1 {
            -1
        } else {
            1 + sub
        }
    }
}

pub proof fn lemma_blip_name_index_of(s: Seq<BlipRecord>, name: Seq<char>)
    ensures
        has_blip_name(s, name) <==> blip_name_index_of(s, name) != -1,
        blip_name_index_of(s, name) != -1 ==> 0 <= blip_name_index_of(s, name) < s.len()
            && s[blip_name_index_of(s, name)].name@ == name,
        forall|k: int| 0 <= k < blip_name_index_of(s, name) ==> s[k].name@ != name,
    decreases s.len(),
{
    if s.len() > 0 && s[0].name@ != name {
        lemma_blip_name_index_of(s.drop_first(), name);
        assert forall|i: int| 0 <= i < s.len() && s[i].name@ == name implies has_blip_name(
            s.drop_first(),
            name,
        ) by {
            assert(s.drop_first()[i - 1] == s[i]);
        }
        if has_blip_name(s.drop_first(), name) {
            assert(has_blip_name(s, name)) by {
                let i = choose|i: int|
                    0 <= i < s.drop_first().len() && s.drop_first()[i].name@ == name;
                assert(s[i + 1].name@ == name);
            }
        }
        assert forall|k: int| 0 <= k < blip_name_index_of(s, name) implies s[k].name@ != name by {
            if k > 0 {
                assert(s.drop_first()[k - 1] == s[k]);
            }
        }
        if blip_name_index_of(s, name) != -1 {
            assert(s.drop_first()[blip_name_index_of(s.drop_first(), name)] == s[blip_name_index_of(
                s,
                name,
            )]);
        }
    }
}

/// With strictly descending positive ids, a table can never hold more rows
/// than its head id, so its length always fits the count types.
pub proof fn lemma_blip_ids_bound(s: Seq<BlipRecord>)
    requires
        forall|i: int, j: int| 0 <= i < j < s.len() ==> s[i].id > s[j].id,
        forall|i: int| 0 <= i < s.len() ==> (#[trigger] s[i]).id >= 1,
    ensures
        forall|i: int| 0 <= i < s.len() ==> (#[trigger] s[i]).id >= s.len() - i,
    decreases s.len(),
{
    if s.len() > 0 {
        let d = s.drop_first();
        assert forall|i: int, j: int| 0 <= i < j < d.len() implies d[i].id > d[j].id by {
            assert(d[i] == s[i + 1] && d[j] == s[j + 1]);
        }
        assert forall|i: int| 0 <= i < d.len() implies (#[trigger] d[i]).id >= 1 by {
            assert(d[i] == s[i + 1]);
        }
        lemma_blip_ids_bound(d);
        assert forall|i: int| 0 <= i < s.len() implies (#[trigger] s[i]).id >= s.len() - i by {
            if i > 0 {
                assert(d[i - 1] == s[i]);
            } else if s.len() > 1 {
                assert(d[0] == s[1]);
                assert(s[0].id > s[1].id);
            }
        }
    }
}

/// The ADR table's counterpart of `lemma_blip_ids_bound`.
pub proof fn lemma_adr_ids_bound(s: Seq<AdrRecord>)
    requires
        forall|i: int, j: int| 0 <= i < j < s.len() ==> s[i].id > s[j].id,
        forall|i: int| 0 <= i < s.len() ==> (#[trigger] s[i]).id >= 1,
    ensures
        forall|i: int| 0 <= i < s.len() ==> (#[trigger] s[i]).id >= s.len() - i,
    decreases s.len(),
{
    if s.len() > 0 {
        let d = s.drop_first();
        assert forall|i: int, j: int| 0 <= i < j < d.len() implies d[i].id > d[j].id by {
            assert(d[i] == s[i + 1] && d[j] == s[j + 1]);
        }
        assert forall|i: int| 0 <= i < d.len() implies (#[trigger] d[i]).id >= 1 by {
            assert(d[i] == s[i + 1]);
        }
        lemma_adr_ids_bound(d);
        assert forall|i: int| 0 <= i < s.len() implies (#[trigger] s[i]).id >= s.len() - i by {
            if i > 0 {
                assert(d[i - 1] == s[i]);
            } else if s.len() > 1 {
                assert(d[0] == s[1]);
                assert(s[0].id > s[1].id);
            }
        }
    }
}

/// Law: a partial update with every field unset changes no field of the
/// row — an unset optional stays unset, and the ADR flag keeps its value.
pub proof fn lemma_partial_update_identity(cur: BlipRecord, p: BlipUpdateParams, new: BlipRecord)
    requires
        p.name is None,
        p.ring is None,
        p.quadrant is None,
        p.tag is None,
        p.description is None,
        p.adr_id is None,
        blip_updated(cur, p, new),
    ensures
        new == cur,
{
}


/// How many rows of `s` carry quadrant `q`.
pub open spec fn count_quadrant(s: Seq<BlipRecord>, q: Quadrant) -> int
    decreases s.len(),
{
    if s.len() == 0 {
        0
    } else {
        count_quadrant(s.drop_last(), q) + (if s.last().quadrant == Some(q) {
            1int
        } else {
            0int
        })
    }
}

pub proof fn lemma_count_quadrant_bound(s: Seq<BlipRecord>, q: Quadrant)
    ensures
        0 <= count_quadrant(s, q) <= s.len(),
    decreases s.len(),
{
    if s.len() > 0 {
        lemma_count_quadrant_bound(s.drop_last(), q);
    }
}

/// How many rows of `s` carry ring `r`.
pub open spec fn count_ring(s: Seq<BlipRecord>, r: Ring) -> int
    decreases s.len(),
{
    if s.len() == 0 {
        0
    } else {
        count_ring(s.drop_last(), r) + (if s.last().ring == Some(r) {
            1int
        } else {
            0int
        })
    }
}

pub proof fn lemma_count_ring_bound(s: Seq<BlipRecord>, r: Ring)
    ensures
        0 <= count_ring(s, r) <= s.len(),
    decreases s.len(),
{
    if s.len() > 0 {
        lemma_count_ring_bound(s.drop_last(), r);
    }
}

/// The in-memory catalog store.
pub struct CatalogStore {
    pub blips: Vec<BlipRecord>,
    pub adrs: Vec<AdrRecord>,
    pub settings: Vec<(String, String)>,
}

impl CatalogStore {
    /// The store's well-formedness: rows are newest-first with positive,
    /// strictly descending ids, blip names are unique, and so are setting
    /// keys.
    pub open spec fn wf(self) -> bool {
        &&& forall|i: int, j: int|
            0 <= i < j < self.blips@.len() ==> self.blips@[i].id > self.blips@[j].id
        &&& blip_rows_valid(self.blips@)
        &&& forall|i: int, j: int|
            0 <= i < j < self.blips@.len() ==> self.blips@[i].name@ != self.blips@[j].name@
        &&& forall|i: int, j: int|
            0 <= i < j < self.adrs@.len() ==> self.adrs@[i].id > self.adrs@[j].id
        &&& adr_rows_valid(self.adrs@)
        &&& forall|i: int, j: int|
            0 <= i < j < self.settings@.len() ==> self.settings@[i].0@ != self.settings@[j].0@
    }

    pub fn new() -> (r: Self)
        ensures
            r.wf(),
            r.blips@.len() == 0,
            r.adrs@.len() == 0,
            r.settings@.len() == 0,
    {
        CatalogStore { blips: Vec::new(), adrs: Vec::new(), settings: Vec::new() }
    }

    /// Whether one more blip id can be allocated without leaving `i32`.
    pub open spec fn can_allocate_blip(self) -> bool {
        next_blip_id_of(self.blips@) <= i32::MAX
    }

    /// Whether one more ADR id can be allocated without leaving `i32`.
    pub open spec fn can_allocate_adr(self) -> bool {
        next_adr_id_of(self.adrs@) <= i32::MAX
    }

    pub fn check_can_allocate_blip(&self) -> (r: bool)
        ensures
            r == self.can_allocate_blip(),
    {
        self.blips.len() == 0 || self.blips[0].id < i32::MAX
    }

    pub fn check_can_allocate_adr(&self) -> (r: bool)
        ensures
            r == self.can_allocate_adr(),
    {
        self.adrs.len() == 0 || self.adrs[0].id < i32::MAX
    }

    /// The id the next new blip row will receive.
    pub fn get_next_blip_id(&self) -> (r: i32)
        requires
            self.can_allocate_blip(),
        ensures
            r == next_blip_id_of(self.blips@),
    {
        if self.blips.len() == 0 {
            1
        } else {
            self.blips[0].id + 1
        }
    }

    /// The id the next new ADR row will receive.
    pub fn get_next_id(&self) -> (r: i32)
        requires
            self.can_allocate_adr(),
        ensures
            r == next_adr_id_of(self.adrs@),
    {
        if self.adrs.len() == 0 {
            1
        } else {
            self.adrs[0].id + 1
        }
    }

    pub fn count_blips(&self) -> (r: i64)
        requires
            self.wf(),
        ensures
            r == self.blips@.len(),
    {
        proof {
            lemma_blip_ids_bound(self.blips@);
            if self.blips@.len() > 0 {
                assert(self.blips@[0].id >= self.blips@.len());
            }
        }
        self.blips.len() as i64
    }

    pub fn count_adrs(&self) -> (r: i64)
        requires
            self.wf(),
        ensures
            r == self.adrs@.len(),
    {
        proof {
            lemma_adr_ids_bound(self.adrs@);
            if self.adrs@.len() > 0 {
                assert(self.adrs@[0].id >= self.adrs@.len());
            }
        }
        self.adrs.len() as i64
    }

    /// Whether a blip with exactly this name exists.
    pub fn blip_exists_by_name(&self, name: &str) -> (r: bool)
        ensures
            r == has_blip_name(self.blips@, name@),
    {
        let mut i: usize = 0;
        while i < self.blips.len()
            invariant
                i <= self.blips@.len(),
                forall|k: int| 0 <= k < i ==> self.blips@[k].name@ != name@,
            decreases self.blips@.len() - i,
        {
            if str_eq(self.blips[i].name.as_str(), name) {
                return true;
            }
            i += 1;
        }
        false
    }

    /// Whether an ADR with exactly this title exists.
    pub fn adr_exists_by_title(&self, title: &str) -> (r: bool)
        ensures
            r == has_adr_title(self.adrs@, title@),
    {
        let mut i: usize = 0;
        while i < self.adrs.len()
            invariant
                i <= self.adrs@.len(),
                forall|k: int| 0 <= k < i ==> self.adrs@[k].title@ != title@,
            decreases self.adrs@.len() - i,
        {
            if str_eq(self.adrs[i].title.as_str(), title) {
                return true;
            }
            i += 1;
        }
        false
    }

    /// All blip rows, newest first.
    pub fn get_blips(&self) -> (r: Vec<BlipRecord>)
        ensures
            r@ == self.blips@,
    {
        let mut out: Vec<BlipRecord> = Vec::new();
        let mut i: usize = 0;
        while i < self.blips.len()
            invariant
                i <= self.blips@.len(),
                out@.len() == i,
                forall|k: int| 0 <= k < i ==> out@[k] == self.blips@[k],
            decreases self.blips@.len() - i,
        {
            out.push(clone_blip(&self.blips[i]));
            i += 1;
        }
        proof {
            assert(out@ =~= self.blips@);
        }
        out
    }

    /// All ADR rows, newest first.
    pub fn get_adrs(&self) -> (r: Vec<AdrRecord>)
        ensures
            r@ == self.adrs@,
    {
        let mut out: Vec<AdrRecord> = Vec::new();
        let mut i: usize = 0;
        while i < self.adrs.len()
            invariant
                i <= self.adrs@.len(),
                out@.len() == i,
                forall|k: int| 0 <= k < i ==> out@[k] == self.adrs@[k],
            decreases self.adrs@.len() - i,
        {
            out.push(clone_adr(&self.adrs[i]));
            i += 1;
        }
        proof {
            assert(out@ =~= self.adrs@);
        }
        out
    }

    /// The ADR rows whose linked blip name is exactly `blip_name`, newest
    /// first.
    pub fn get_adrs_by_blip_name(&self, blip_name: &str) -> (r: Vec<AdrRecord>)
        ensures
            r@ == self.adrs@.filter(|a: AdrRecord| a.blip_name@ == blip_name@),
            forall|i: int| 0 <= i < r@.len() ==> self.adrs@.contains(#[trigger] r@[i]),
    {
        let pred = Ghost(|a: AdrRecord| a.blip_name@ == blip_name@);
        let mut out: Vec<AdrRecord> = Vec::new();
        let mut i: usize = 0;
        proof {
            reveal(Seq::filter);
            assert(self.adrs@.subrange(0, 0) =~= Seq::<AdrRecord>::empty());
        }
        while i < self.adrs.len()
            invariant
                i <= self.adrs@.len(),
                pred@ == (|a: AdrRecord| a.blip_name@ == blip_name@),
                out@ == self.adrs@.subrange(0, i as int).filter(pred@),
                forall|k: int| 0 <= k < out@.len() ==> self.adrs@.contains(#[trigger] out@[k]),
            decreases self.adrs@.len() - i,
        {
            proof {
                reveal(Seq::filter);
                let sub = self.adrs@.subrange(0, i as int);
                let x = self.adrs@[i as int];
                assert(self.adrs@.subrange(0, i + 1) =~= sub.push(x));
                assert(sub.push(x).drop_last() =~= sub);
                assert(sub.push(x).last() == x);
            }
            if str_eq(self.adrs[i].blip_name.as_str(), blip_name) {
                out.push(clone_adr(&self.adrs[i]));
            }
            i += 1;
        }
        proof {
            assert(self.adrs@.subrange(0, self.adrs@.len() as int) =~= self.adrs@);
        }
        out
    }

    /// The blip row with the given id.
    pub fn get_blip_by_id(&self, id: i32) -> (r: Result<BlipRecord, StoreError>)
        ensures
            has_blip_id(self.blips@, id as int) ==> r is Ok && r->Ok_0
                == self.blips@[blip_index_of(self.blips@, id as int)],
            !has_blip_id(self.blips@, id as int) ==> r == Err::<BlipRecord, StoreError>(
                StoreError::NotFound,
            ),
    {
        let mut i: usize = 0;
        while i < self.blips.len()
            invariant
                i <= self.blips@.len(),
                forall|k: int| 0 <= k < i ==> self.blips@[k].id != id,
            decreases self.blips@.len() - i,
        {
            if self.blips[i].id == id {
                proof {
                    lemma_blip_index_of(self.blips@, id as int);
                    assert(has_blip_id(self.blips@, id as int)) by {
                        assert(self.blips@[i as int].id == id);
                    }
                    let idx = blip_index_of(self.blips@, id as int);
                    assert(idx == i as int) by {
                        if idx < i as int {
                            assert(self.blips@[idx].id != id);
                        }
                        if (i as int) < idx {
                            assert(self.blips@[i as int].id != id);
                        }
                    }
                }
                return Ok(clone_blip(&self.blips[i]));
            }
            i += 1;
        }
        Err(StoreError::NotFound)
    }

    /// Creates a new blip row at the head of the table: the id is allocated
    /// here, the ADR flag is derived from whether an ADR with the same title
    /// exists, and a duplicate name is refused without touching the table.
    pub fn insert_new_blip(&mut self, blip_params: &BlipMetadataParams) -> (r: Result<
        (),
        StoreError,
    >)
        requires
            old(self).wf(),
            old(self).can_allocate_blip(),
            blip_params.adr_id is Some ==> blip_params.adr_id.unwrap() >= 1,
        ensures
            final(self).wf(),
            has_blip_name(old(self).blips@, blip_params.name@) ==> r == Err::<(), StoreError>(
                StoreError::Conflict,
            ) && *final(self) == *old(self),
            !has_blip_name(old(self).blips@, blip_params.name@) ==> {
                &&& r is Ok
                &&& final(self).blips@.len() == old(self).blips@.len() + 1
                &&& final(self).blips@.subrange(1, final(self).blips@.len() as int) == old(self).blips@
                &&& final(self).blips@[0].id == next_blip_id_of(old(self).blips@)
                &&& final(self).blips@[0].name == blip_params.name
                &&& final(self).blips@[0].ring == Some(blip_params.ring)
                &&& final(self).blips@[0].quadrant == Some(blip_params.quadrant)
                &&& final(self).blips@[0].tag == Some(blip_params.tag)
                &&& final(self).blips@[0].description == Some(blip_params.description)
                &&& final(self).blips@[0].created == blip_params.created
                &&& final(self).blips@[0].has_adr == has_adr_title(
                    old(self).adrs@,
                    blip_params.name@,
                )
                &&& final(self).blips@[0].adr_id == blip_params.adr_id
            },
            final(self).adrs == old(self).adrs,
            final(self).settings == old(self).settings,
    {
        if self.blip_exists_by_name(blip_params.name.as_str()) {
            return Err(StoreError::Conflict);
        }
        let id = self.get_next_blip_id();
        let has_adr = self.adr_exists_by_title(blip_params.name.as_str());
        let record = BlipRecord {
            id,
            name: blip_params.name.clone(),
            ring: Some(blip_params.ring),
            quadrant: Some(blip_params.quadrant),
            tag: Some(blip_params.tag.clone()),
            description: Some(blip_params.description.clone()),
            created: blip_params.created.clone(),
            has_adr,
            adr_id: blip_params.adr_id,
        };
        self.blips.insert(0, record);
        proof {
            assert(self.blips@.subrange(1, self.blips@.len() as int) =~= old(self).blips@);
            assert forall|i: int, j: int|
                0 <= i < j < self.blips@.len() implies self.blips@[i].name@
                != self.blips@[j].name@ by {
                if i == 0 {
                    assert(self.blips@[j] == old(self).blips@[j - 1]);
                }
            }
        }
        Ok(())
    }

    /// Creates a new ADR row at the head of the table, with the id chosen by
    /// the caller; the id must be fresh and larger than every id in use.
    pub fn insert_new_adr_with_params(&mut self, params: &AdrMetadataParams) -> (r: Result<
        (),
        StoreError,
    >)
        requires
            old(self).wf(),
            params.id >= 1,
            old(self).adrs@.len() > 0 ==> params.id > old(self).adrs@[0].id,
        ensures
            final(self).wf(),
            r is Ok,
            final(self).adrs@.len() == old(self).adrs@.len() + 1,
            final(self).adrs@.subrange(1, final(self).adrs@.len() as int) == old(self).adrs@,
            final(self).adrs@[0].id == params.id,
            final(self).adrs@[0].title == params.title,
            final(self).adrs@[0].blip_name == params.blip_name,
            final(self).adrs@[0].status == params.status,
            final(self).adrs@[0].timestamp == params.created,
            final(self).blips == old(self).blips,
            final(self).settings == old(self).settings,
    {
        let record = AdrRecord {
            id: params.id,
            title: params.title.clone(),
            blip_name: params.blip_name.clone(),
            status: params.status.clone(),
            timestamp: params.created.clone(),
        };
        self.adrs.insert(0, record);
        proof {
            assert(self.adrs@.subrange(1, self.adrs@.len() as int) =~= old(self).adrs@);
        }
        Ok(())
    }


    /// The blip rows carrying the given quadrant, in table order.
    pub fn get_blips_by_quadrant(&self, quadrant: Quadrant) -> (r: Vec<BlipRecord>)
        ensures
            r@ == self.blips@.filter(|b: BlipRecord| b.quadrant == Some(quadrant)),
    {
        let pred = Ghost(|b: BlipRecord| b.quadrant == Some(quadrant));
        let mut out: Vec<BlipRecord> = Vec::new();
        let mut i: usize = 0;
        proof {
            reveal(Seq::filter);
            assert(self.blips@.subrange(0, 0) =~= Seq::<BlipRecord>::empty());
        }
        while i < self.blips.len()
            invariant
                i <= self.blips@.len(),
                pred@ == (|b: BlipRecord| b.quadrant == Some(quadrant)),
                out@ == self.blips@.subrange(0, i as int).filter(pred@),
            decreases self.blips@.len() - i,
        {
            proof {
                reveal(Seq::filter);
                let sub = self.blips@.subrange(0, i as int);
                let x = self.blips@[i as int];
                assert(self.blips@.subrange(0, i + 1) =~= sub.push(x));
                assert(sub.push(x).drop_last() =~= sub);
                assert(sub.push(x).last() == x);
            }
            if match self.blips[i].quadrant {
                Some(bq) => bq == quadrant,
                None => false,
            } {
                out.push(clone_blip(&self.blips[i]));
            }
            i += 1;
        }
        proof {
            assert(self.blips@.subrange(0, self.blips@.len() as int) =~= self.blips@);
        }
        out
    }

    /// The blip rows carrying the given ring, in table order.
    pub fn get_blips_by_ring(&self, ring: Ring) -> (r: Vec<BlipRecord>)
        ensures
            r@ == self.blips@.filter(|b: BlipRecord| b.ring == Some(ring)),
    {
        let pred = Ghost(|b: BlipRecord| b.ring == Some(ring));
        let mut out: Vec<BlipRecord> = Vec::new();
        let mut i: usize = 0;
        proof {
            reveal(Seq::filter);
            assert(self.blips@.subrange(0, 0) =~= Seq::<BlipRecord>::empty());
        }
        while i < self.blips.len()
            invariant
                i <= self.blips@.len(),
                pred@ == (|b: BlipRecord| b.ring == Some(ring)),
                out@ == self.blips@.subrange(0, i as int).filter(pred@),
            decreases self.blips@.len() - i,
        {
            proof {
                reveal(Seq::filter);
                let sub = self.blips@.subrange(0, i as int);
                let x = self.blips@[i as int];
                assert(self.blips@.subrange(0, i + 1) =~= sub.push(x));
                assert(sub.push(x).drop_last() =~= sub);
                assert(sub.push(x).last() == x);
            }
            if match self.blips[i].ring {
                Some(br) => br == ring,
                None => false,
            } {
                out.push(clone_blip(&self.blips[i]));
            }
            i += 1;
        }
        proof {
            assert(self.blips@.subrange(0, self.blips@.len() as int) =~= self.blips@);
        }
        out
    }

    /// Creates a bare ADR row with the table's default linkage and status.
    pub fn insert_new_adr(&mut self, id: i32, title: &str, timestamp: &str) -> (r: Result<
        (),
        StoreError,
    >)
        requires
            old(self).wf(),
            id >= 1,
            old(self).adrs@.len() > 0 ==> id > old(self).adrs@[0].id,
        ensures
            final(self).wf(),
            r is Ok,
            final(self).adrs@.len() == old(self).adrs@.len() + 1,
            final(self).adrs@.subrange(1, final(self).adrs@.len() as int) == old(self).adrs@,
            final(self).adrs@[0].id == id,
            final(self).adrs@[0].title@ == title@,
            final(self).adrs@[0].blip_name@ == Seq::<char>::empty(),
            final(self).adrs@[0].status@ == "proposed"@,
            final(self).adrs@[0].timestamp@ == timestamp@,
            final(self).blips == old(self).blips,
            final(self).settings == old(self).settings,
    {
        let record = AdrRecord {
            id,
            title: String::from_str(title),
            blip_name: String::new(),
            status: String::from_str("proposed"),
            timestamp: String::from_str(timestamp),
        };
        self.adrs.insert(0, record);
        proof {
            assert(self.adrs@.subrange(1, self.adrs@.len() as int) =~= old(self).adrs@);
        }
        Ok(())
    }

    /// Partially updates the blip row with `params.id`.  A missing row is
    /// `NotFound`; renaming to a name another row already holds is a
    /// `Conflict`; either failure leaves the store untouched.
    #[verifier::loop_isolation(false)]
    pub fn update_blip(&mut self, params: &BlipUpdateParams) -> (r: Result<(), StoreError>)
        requires
            old(self).wf(),
            params.adr_id is Some ==> params.adr_id.unwrap() >= 1,
        ensures
            final(self).wf(),
            !has_blip_id(old(self).blips@, params.id as int) ==> r == Err::<(), StoreError>(
                StoreError::NotFound,
            ) && *final(self) == *old(self),
            has_blip_id(old(self).blips@, params.id as int) ==> {
                let i = blip_index_of(old(self).blips@, params.id as int);
                if params.name is Some && exists|j: int|
                    0 <= j < old(self).blips@.len() && j != i && old(self).blips@[j].name@
                        == params.name.unwrap()@ {
                    r == Err::<(), StoreError>(StoreError::Conflict) && *final(self) == *old(self)
                } else {
                    &&& r is Ok
                    &&& final(self).blips@.len() == old(self).blips@.len()
                    &&& forall|j: int|
                        0 <= j < old(self).blips@.len() && j != i ==> final(self).blips@[j] == old(self).blips@[j]
                    &&& blip_updated(old(self).blips@[i], *params, final(self).blips@[i])
                }
            },
            final(self).adrs == old(self).adrs,
            final(self).settings == old(self).settings,
    {
        proof {
            lemma_blip_index_of(self.blips@, params.id as int);
        }
        let ghost idx = blip_index_of(self.blips@, params.id as int);
        let mut i: usize = 0;
        let mut found = false;
        while i < self.blips.len() && !found
            invariant
                i <= self.blips@.len(),
                forall|k: int| 0 <= k < i ==> self.blips@[k].id != params.id,
                found ==> i < self.blips@.len() && self.blips@[i as int].id == params.id,
            decreases self.blips@.len() - i + (if found { 0int } else { 1int }),
        {
            if self.blips[i].id == params.id {
                found = true;
            } else {
                i += 1;
            }
        }
        if !found {
            return Err(StoreError::NotFound);
        }
        proof {
            assert(has_blip_id(self.blips@, params.id as int)) by {
                assert(self.blips@[i as int].id == params.id);
            }
            assert(idx == i as int) by {
                if idx < i as int {
                    assert(self.blips@[idx].id != params.id);
                }
                if (i as int) < idx {
                    assert(self.blips@[i as int].id != params.id);
                }
            }
        }
        // A renamed row must not collide with any other row's name.
        if let Some(new_name) = &params.name {
            let mut j: usize = 0;
            while j < self.blips.len()
                invariant
                    j <= self.blips@.len(),
                    i < self.blips@.len(),
                    forall|k: int|
                        0 <= k < j && k != i as int ==> self.blips@[k].name@ != new_name@,
                    params.name is Some,
                    new_name@ == params.name.unwrap()@,
                decreases self.blips@.len() - j,
            {
                if j != i && str_eq(self.blips[j].name.as_str(), new_name.as_str()) {
                    return Err(StoreError::Conflict);
                }
                j += 1;
            }
        }
        let cur = &self.blips[i];
        let updated = BlipRecord {
            id: cur.id,
            name: match &params.name {
                Some(n) => n.clone(),
                None => cur.name.clone(),
            },
            ring: match params.ring {
                Some(r) => Some(r),
                None => cur.ring,
            },
            quadrant: match params.quadrant {
                Some(q) => Some(q),
                None => cur.quadrant,
            },
            tag: match &params.tag {
                Some(t) => Some(t.clone()),
                None => clone_opt_string(&cur.tag),
            },
            description: match &params.description {
                Some(d) => Some(d.clone()),
                None => clone_opt_string(&cur.description),
            },
            created: cur.created.clone(),
            has_adr: if params.adr_id.is_some() {
                true
            } else {
                cur.has_adr
            },
            adr_id: match params.adr_id {
                Some(a) => Some(a),
                None => cur.adr_id,
            },
        };
        self.blips.set(i, updated);
        proof {
            assert forall|a: int, b: int|
                0 <= a < b < self.blips@.len() implies self.blips@[a].name@
                != self.blips@[b].name@ by {
                if params.name is Some {
                    assert(self.blips@[i as int].name@ == params.name.unwrap()@);
                } else {
                    assert(self.blips@[i as int].name@ == old(self).blips@[i as int].name@);
                }
            }
        }
        Ok(())
    }

    /// Partially updates the ADR row with `params.id`.  A missing row is
    /// `NotFound` and leaves the store untouched.
    #[verifier::loop_isolation(false)]
    pub fn update_adr(&mut self, params: &AdrUpdateParams) -> (r: Result<(), StoreError>)
        requires
            old(self).wf(),
        ensures
            final(self).wf(),
            !has_adr_id(old(self).adrs@, params.id as int) ==> r == Err::<(), StoreError>(
                StoreError::NotFound,
            ) && *final(self) == *old(self),
            has_adr_id(old(self).adrs@, params.id as int) ==> {
                let i = adr_index_of(old(self).adrs@, params.id as int);
                &&& r is Ok
                &&& final(self).adrs@.len() == old(self).adrs@.len()
                &&& forall|j: int|
                    0 <= j < old(self).adrs@.len() && j != i ==> final(self).adrs@[j] == old(self).adrs@[j]
                &&& adr_updated(old(self).adrs@[i], *params, final(self).adrs@[i])
            },
            final(self).blips == old(self).blips,
            final(self).settings == old(self).settings,
    {
        proof {
            lemma_adr_index_of(self.adrs@, params.id as int);
        }
        let ghost idx = adr_index_of(self.adrs@, params.id as int);
        let mut i: usize = 0;
        let mut found = false;
        while i < self.adrs.len() && !found
            invariant
                i <= self.adrs@.len(),
                forall|k: int| 0 <= k < i ==> self.adrs@[k].id != params.id,
                found ==> i < self.adrs@.len() && self.adrs@[i as int].id == params.id,
            decreases self.adrs@.len() - i + (if found { 0int } else { 1int }),
        {
            if self.adrs[i].id == params.id {
                found = true;
            } else {
                i += 1;
            }
        }
        if !found {
            return Err(StoreError::NotFound);
        }
        proof {
            assert(has_adr_id(self.adrs@, params.id as int)) by {
                assert(self.adrs@[i as int].id == params.id);
            }
            assert(idx == i as int) by {
                if idx < i as int {
                    assert(self.adrs@[idx].id != params.id);
                }
                if (i as int) < idx {
                    assert(self.adrs@[i as int].id != params.id);
                }
            }
        }
        let cur = &self.adrs[i];
        let updated = AdrRecord {
            id: cur.id,
            title: match &params.title {
                Some(t) => t.clone(),
                None => cur.title.clone(),
            },
            blip_name: match &params.blip_name {
                Some(b) => b.clone(),
                None => cur.blip_name.clone(),
            },
            status: match &params.status {
                Some(s) => s.clone(),
                None => cur.status.clone(),
            },
            timestamp: match &params.created {
                Some(c) => c.clone(),
                None => cur.timestamp.clone(),
            },
        };
        self.adrs.set(i, updated);
        Ok(())
    }


    /// Rows of one blip table copy, ordered newest-created-first (ties
    /// keep their order), with the same rows as the table.
    #[verifier::loop_isolation(false)]
    fn sorted_by_created_desc(&self) -> (r: Vec<BlipRecord>)
        requires
            self.wf(),
        ensures
            r@.len() == self.blips@.len(),
            forall|p: BlipRecord| r@.contains(p) <==> self.blips@.contains(p),
            forall|m: int, l: int|
                0 <= m < l < r@.len() ==> seq_char_le(r@[l].created@, r@[m].created@),
            forall|m: int, l: int| 0 <= m < l < r@.len() ==> r@[m].id != r@[l].id,
    {
        let mut out: Vec<BlipRecord> = Vec::new();
        let mut i: usize = 0;
        while i < self.blips.len()
            invariant
                i <= self.blips@.len(),
                out@.len() == i,
                forall|p: BlipRecord| out@.contains(p) <==> self.blips@.subrange(
                    0,
                    i as int,
                ).contains(p),
                forall|m: int, l: int|
                    0 <= m < l < out@.len() ==> seq_char_le(out@[l].created@, out@[m].created@),
                forall|m: int, l: int| 0 <= m < l < out@.len() ==> out@[m].id != out@[l].id,
            decreases self.blips@.len() - i,
        {
            let x = clone_blip(&self.blips[i]);
            let ghost pre = out@;
            let mut pos: usize = 0;
            while pos < out.len() && str_le(x.created.as_str(), out[pos].created.as_str())
                invariant
                    out@ == pre,
                    pos <= out@.len(),
                    x == self.blips@[i as int],
                    forall|k: int| 0 <= k < pos ==> seq_char_le(x.created@, out@[k].created@),
                decreases out@.len() - pos,
            {
                pos += 1;
            }
            proof {
                if pos < out@.len() {
                    lemma_seq_char_le_total(x.created@, out@[pos as int].created@);
                    assert(seq_char_le(out@[pos as int].created@, x.created@));
                }
                pre.insert_ensures(pos as int, x);
            }
            out.insert(pos, x);
            proof {
                let now = out@;
                assert forall|p: BlipRecord| now.contains(p) implies (pre.contains(p) || p
                    == x) by {
                    let j = choose|j: int| 0 <= j < now.len() && now[j] == p;
                    if j < pos as int {
                        assert(pre[j] == p);
                    } else if j > pos as int {
                        assert(pre[j - 1] == p);
                    }
                }
                assert forall|p: BlipRecord| pre.contains(p) || p == x implies now.contains(
                    p,
                ) by {
                    if pre.contains(p) {
                        let j = choose|j: int| 0 <= j < pre.len() && pre[j] == p;
                        if j < pos as int {
                            assert(now[j] == p);
                        } else {
                            assert(now[j + 1] == p);
                        }
                    } else {
                        assert(now[pos as int] == p);
                    }
                }
                assert(self.blips@.subrange(0, i + 1) =~= self.blips@.subrange(0, i as int).push(
                    self.blips@[i as int],
                ));
                let sub1 = self.blips@.subrange(0, i + 1);
                let sub0 = self.blips@.subrange(0, i as int);
                assert forall|p: BlipRecord| sub1.contains(p) implies (sub0.contains(p) || p
                    == x) by {
                    let j = choose|j: int| 0 <= j < sub1.len() && sub1[j] == p;
                    if j < sub0.len() {
                        assert(sub0[j] == p);
                    }
                }
                assert forall|p: BlipRecord| sub0.contains(p) || p == x implies sub1.contains(
                    p,
                ) by {
                    if sub0.contains(p) {
                        let j = choose|j: int| 0 <= j < sub0.len() && sub0[j] == p;
                        assert(sub1[j] == p);
                    } else {
                        assert(sub1[sub1.len() - 1] == p);
                    }
                }
                assert forall|m: int, l: int|
                    0 <= m < l < now.len() implies seq_char_le(
                    now[l].created@,
                    now[m].created@,
                ) by {
                    if l < pos as int {
                        assert(now[m] == pre[m] && now[l] == pre[l]);
                    } else if m > pos as int {
                        assert(now[m] == pre[m - 1] && now[l] == pre[l - 1]);
                    } else if m < pos as int && l == pos as int {
                        assert(now[m] == pre[m]);
                        assert(seq_char_le(x.created@, pre[m].created@));
                    } else if m < pos as int && l > pos as int {
                        assert(now[m] == pre[m] && now[l] == pre[l - 1]);
                    } else if m == pos as int && l > pos as int {
                        assert(now[l] == pre[l - 1]);
                        assert(seq_char_le(pre[pos as int].created@, x.created@));
                        if l - 1 > pos as int {
                            assert(seq_char_le(pre[l - 1].created@, pre[pos as int].created@));
                            lemma_seq_char_le_trans(
                                pre[l - 1].created@,
                                pre[pos as int].created@,
                                x.created@,
                            );
                        }
                    }
                }
                assert forall|m: int, l: int|
                    0 <= m < l < now.len() implies now[m].id != now[l].id by {
                    if m != pos as int && l != pos as int {
                        let a = if m < pos as int {
                            m
                        } else {
                            m - 1
                        };
                        let b = if l < pos as int {
                            l
                        } else {
                            l - 1
                        };
                        assert(now[m] == pre[a] && now[l] == pre[b]);
                    } else {
                        let other = if m == pos as int {
                            now[l]
                        } else {
                            now[m]
                        };
                        assert(pre.contains(other));
                        assert(self.blips@.subrange(0, i as int).contains(other));
                        let k = choose|k: int|
                            0 <= k < self.blips@.subrange(0, i as int).len()
                                && self.blips@.subrange(0, i as int)[k] == other;
                        assert(self.blips@[k] == other);
                        assert(self.blips@[k].id != self.blips@[i as int].id);
                    }
                }
            }
            i += 1;
        }
        proof {
            assert(self.blips@.subrange(0, self.blips@.len() as int) =~= self.blips@);
        }
        out
    }

    /// The most recently created rows: the first `limit` of the table in
    /// descending creation-date order.  Every returned row is a table row;
    /// any row left out is no newer than the last one returned.
    #[verifier::loop_isolation(false)]
    pub fn recent_blips(&self, limit: i64) -> (r: Vec<BlipRecord>)
        requires
            self.wf(),
            limit >= 0,
        ensures
            r@.len() == (if limit <= self.blips@.len() {
                limit as int
            } else {
                self.blips@.len() as int
            }),
            forall|m: int| 0 <= m < r@.len() ==> self.blips@.contains(#[trigger] r@[m]),
            forall|m: int, l: int| 0 <= m < l < r@.len() ==> r@[m].id != r@[l].id,
            forall|m: int, l: int|
                0 <= m < l < r@.len() ==> seq_char_le(r@[l].created@, r@[m].created@),
            forall|j: int|
                0 <= j < self.blips@.len() ==> (exists|m: int|
                    0 <= m < r@.len() && (#[trigger] r@[m]).id == self.blips@[j].id) || (r@.len()
                    > 0 && seq_char_le(
                    (#[trigger] self.blips@[j]).created@,
                    r@[r@.len() - 1].created@,
                )) || limit == 0,
    {
        proof {
            lemma_blip_ids_bound(self.blips@);
            if self.blips@.len() > 0 {
                assert(self.blips@[0].id >= self.blips@.len());
            }
        }
        let sorted = self.sorted_by_created_desc();
        let take: usize = if limit <= sorted.len() as i64 {
            limit as usize
        } else {
            sorted.len()
        };
        let mut out: Vec<BlipRecord> = Vec::new();
        let mut i: usize = 0;
        while i < take
            invariant
                i <= take,
                out@.len() == i,
                forall|k: int| 0 <= k < i ==> out@[k] == sorted@[k],
            decreases take - i,
        {
            out.push(clone_blip(&sorted[i]));
            i += 1;
        }
        proof {
            assert forall|m: int|
                0 <= m < out@.len() implies self.blips@.contains(#[trigger] out@[m]) by {
                assert(sorted@.contains(sorted@[m]));
            }
            assert forall|j: int|
                0 <= j < self.blips@.len() implies (exists|m: int|
                    0 <= m < out@.len() && (#[trigger] out@[m]).id == self.blips@[j].id) || (
                out@.len() > 0 && seq_char_le(
                    (#[trigger] self.blips@[j]).created@,
                    out@[out@.len() - 1].created@,
                )) || limit == 0 by {
                if limit > 0 {
                    assert(self.blips@.contains(self.blips@[j]));
                    assert(sorted@.contains(self.blips@[j]));
                    let m = choose|m: int| 0 <= m < sorted@.len() && sorted@[m] == self.blips@[j];
                    if m < take as int {
                        assert(out@[m].id == self.blips@[j].id);
                    } else {
                        assert(seq_char_le(sorted@[m].created@, sorted@[take - 1].created@));
                        assert(out@[take - 1] == sorted@[take - 1]);
                    }
                }
            }
        }
        out
    }

    /// How many blip rows carry each quadrant, in declaration order,
    /// omitting quadrants with no rows.
    pub fn count_blips_by_quadrant(&self) -> (r: Vec<(Quadrant, i64)>)
        requires
            self.wf(),
        ensures
            forall|m: int|
                0 <= m < r@.len() ==> (#[trigger] r@[m]).1 == count_quadrant(
                    self.blips@,
                    r@[m].0,
                ) && r@[m].1 > 0,
            forall|m: int, l: int|
                0 <= m < l < r@.len() ==> crate::domain::quadrant_index(r@[m].0)
                    < crate::domain::quadrant_index(r@[l].0),
            forall|q: Quadrant|
                count_quadrant(self.blips@, q) > 0 ==> exists|m: int|
                    0 <= m < r@.len() && (#[trigger] r@[m]).0 == q,
    {
        let mut out: Vec<(Quadrant, i64)> = Vec::new();
        let quadrants = [Quadrant::Platforms, Quadrant::Languages, Quadrant::Tools,
            Quadrant::Techniques];
        let mut qi: usize = 0;
        while qi < 4
            invariant
                qi <= 4,
                quadrants@ =~= seq![
                    Quadrant::Platforms,
                    Quadrant::Languages,
                    Quadrant::Tools,
                    Quadrant::Techniques,
                ],
                self.wf(),
                forall|m: int|
                    0 <= m < out@.len() ==> (#[trigger] out@[m]).1 == count_quadrant(
                        self.blips@,
                        out@[m].0,
                    ) && out@[m].1 > 0 && crate::domain::quadrant_index(out@[m].0) < qi,
                forall|m: int, l: int|
                    0 <= m < l < out@.len() ==> crate::domain::quadrant_index(out@[m].0)
                        < crate::domain::quadrant_index(out@[l].0),
                forall|q: Quadrant|
                    crate::domain::quadrant_index(q) < qi && count_quadrant(self.blips@, q) > 0
                        ==> exists|m: int| 0 <= m < out@.len() && (#[trigger] out@[m]).0 == q,
            decreases 4 - qi,
        {
            let q = quadrants[qi];
            let count = self.count_quadrant_rows(q);
            if count > 0 {
                let ghost pre = out@;
                out.push((q, count));
                proof {
                    assert(out@[out@.len() - 1].0 == q);
                    assert forall|qq: Quadrant|
                        crate::domain::quadrant_index(qq) < qi + 1 && count_quadrant(
                            self.blips@,
                            qq,
                        ) > 0 implies exists|m: int|
                        0 <= m < out@.len() && (#[trigger] out@[m]).0 == qq by {
                        if crate::domain::quadrant_index(qq) < qi as int {
                            let m = choose|m: int| 0 <= m < pre.len() && (#[trigger] pre[m]).0 == qq;
                            assert(out@[m].0 == qq);
                        } else {
                            assert(out@[out@.len() - 1].0 == qq);
                        }
                    }
                }
            }
            qi += 1;
        }
        proof {
            assert forall|q: Quadrant| count_quadrant(self.blips@, q) > 0 implies exists|m: int|
                0 <= m < out@.len() && (#[trigger] out@[m]).0 == q by {
                assert(crate::domain::quadrant_index(q) < 4);
            }
        }
        out
    }

    /// How many blip rows carry each ring, in declaration order, omitting
    /// rings with no rows.
    pub fn count_blips_by_ring(&self) -> (r: Vec<(Ring, i64)>)
        requires
            self.wf(),
        ensures
            forall|m: int|
                0 <= m < r@.len() ==> (#[trigger] r@[m]).1 == count_ring(self.blips@, r@[m].0)
                    && r@[m].1 > 0,
            forall|m: int, l: int|
                0 <= m < l < r@.len() ==> crate::domain::ring_index(r@[m].0)
                    < crate::domain::ring_index(r@[l].0),
            forall|rg: Ring|
                count_ring(self.blips@, rg) > 0 ==> exists|m: int|
                    0 <= m < r@.len() && (#[trigger] r@[m]).0 == rg,
    {
        let mut out: Vec<(Ring, i64)> = Vec::new();
        let rings = [Ring::Hold, Ring::Assess, Ring::Trial, Ring::Adopt];
        let mut ri: usize = 0;
        while ri < 4
            invariant
                ri <= 4,
                rings@ =~= seq![Ring::Hold, Ring::Assess, Ring::Trial, Ring::Adopt],
                self.wf(),
                forall|m: int|
                    0 <= m < out@.len() ==> (#[trigger] out@[m]).1 == count_ring(
                        self.blips@,
                        out@[m].0,
                    ) && out@[m].1 > 0 && crate::domain::ring_index(out@[m].0) < ri,
                forall|m: int, l: int|
                    0 <= m < l < out@.len() ==> crate::domain::ring_index(out@[m].0)
                        < crate::domain::ring_index(out@[l].0),
                forall|rg: Ring|
                    crate::domain::ring_index(rg) < ri && count_ring(self.blips@, rg) > 0 ==>
                        exists|m: int| 0 <= m < out@.len() && (#[trigger] out@[m]).0 == rg,
            decreases 4 - ri,
        {
            let rg = rings[ri];
            let count = self.count_ring_rows(rg);
            if count > 0 {
                let ghost pre = out@;
                out.push((rg, count));
                proof {
                    assert(out@[out@.len() - 1].0 == rg);
                    assert forall|rr: Ring|
                        crate::domain::ring_index(rr) < ri + 1 && count_ring(self.blips@, rr)
                            > 0 implies exists|m: int|
                        0 <= m < out@.len() && (#[trigger] out@[m]).0 == rr by {
                        if crate::domain::ring_index(rr) < ri as int {
                            let m = choose|m: int| 0 <= m < pre.len() && (#[trigger] pre[m]).0 == rr;
                            assert(out@[m].0 == rr);
                        } else {
                            assert(out@[out@.len() - 1].0 == rr);
                        }
                    }
                }
            }
            ri += 1;
        }
        proof {
            assert forall|rg: Ring| count_ring(self.blips@, rg) > 0 implies exists|m: int|
                0 <= m < out@.len() && (#[trigger] out@[m]).0 == rg by {
                assert(crate::domain::ring_index(rg) < 4);
            }
        }
        out
    }

    fn count_quadrant_rows(&self, q: Quadrant) -> (r: i64)
        requires
            self.wf(),
        ensures
            r == count_quadrant(self.blips@, q),
    {
        proof {
            lemma_count_quadrant_bound(self.blips@, q);
            lemma_blip_ids_bound(self.blips@);
            if self.blips@.len() > 0 {
                assert(self.blips@[0].id >= self.blips@.len());
            }
        }
        let mut count: i64 = 0;
        let mut i: usize = 0;
        while i < self.blips.len()
            invariant
                i <= self.blips@.len(),
                self.blips@.len() <= 0x7fff_ffff,
                0 <= count <= i,
                count == count_quadrant(self.blips@.subrange(0, i as int), q),
            decreases self.blips@.len() - i,
        {
            proof {
                assert(self.blips@.subrange(0, i + 1).drop_last() =~= self.blips@.subrange(
                    0,
                    i as int,
                ));
                assert(self.blips@.subrange(0, i + 1).last() == self.blips@[i as int]);
            }
            if match self.blips[i].quadrant {
                Some(bq) => bq == q,
                None => false,
            } {
                count = count + 1;
            }
            i += 1;
        }
        proof {
            assert(self.blips@.subrange(0, self.blips@.len() as int) =~= self.blips@);
        }
        count
    }

    fn count_ring_rows(&self, rg: Ring) -> (r: i64)
        requires
            self.wf(),
        ensures
            r == count_ring(self.blips@, rg),
    {
        proof {
            lemma_count_ring_bound(self.blips@, rg);
            lemma_blip_ids_bound(self.blips@);
            if self.blips@.len() > 0 {
                assert(self.blips@[0].id >= self.blips@.len());
            }
        }
        let mut count: i64 = 0;
        let mut i: usize = 0;
        while i < self.blips.len()
            invariant
                i <= self.blips@.len(),
                self.blips@.len() <= 0x7fff_ffff,
                0 <= count <= i,
                count == count_ring(self.blips@.subrange(0, i as int), rg),
            decreases self.blips@.len() - i,
        {
            proof {
                assert(self.blips@.subrange(0, i + 1).drop_last() =~= self.blips@.subrange(
                    0,
                    i as int,
                ));
                assert(self.blips@.subrange(0, i + 1).last() == self.blips@[i as int]);
            }
            if match self.blips[i].ring {
                Some(br) => br == rg,
                None => false,
            } {
                count = count + 1;
            }
            i += 1;
        }
        proof {
            assert(self.blips@.subrange(0, self.blips@.len() as int) =~= self.blips@);
        }
        count
    }

    /// Looks a setting up by key.
    pub fn get_app_setting(&self, key: &str) -> (r: Option<String>)
        ensures
            match r {
                Some(v) => exists|i: int|
                    0 <= i < self.settings@.len() && self.settings@[i].0@ == key@
                        && v@ == #[trigger] self.settings@[i].1@,
                None => forall|i: int|
                    0 <= i < self.settings@.len() ==> (#[trigger] self.settings@[i]).0@ != key@,
            },
    {
        let mut i: usize = 0;
        while i < self.settings.len()
            invariant
                i <= self.settings@.len(),
                forall|k: int| 0 <= k < i ==> (#[trigger] self.settings@[k]).0@ != key@,
            decreases self.settings@.len() - i,
        {
            if str_eq(self.settings[i].0.as_str(), key) {
                let v = self.settings[i].1.clone();
                proof {
                    assert(self.settings@[i as int].0@ == key@);
                    assert(v@ == self.settings@[i as int].1@);
                }
                return Some(v);
            }
            i += 1;
        }
        None
    }

    /// Writes a setting, replacing the row with the same key or appending a
    /// new one.
    #[verifier::loop_isolation(false)]
    pub fn set_app_setting(&mut self, key: &str, value: &str) -> (r: Result<(), StoreError>)
        requires
            old(self).wf(),
        ensures
            final(self).wf(),
            r is Ok,
            final(self).blips == old(self).blips,
            final(self).adrs == old(self).adrs,
            (exists|i: int|
                0 <= i < old(self).settings@.len() && (#[trigger] old(self).settings@[i]).0@
                    == key@) ==> {
                &&& final(self).settings@.len() == old(self).settings@.len()
                &&& forall|j: int|
                    0 <= j < old(self).settings@.len() && (#[trigger] old(self).settings@[j]).0@ != key@ ==> final(self).settings@[j] == old(self).settings@[j]
                &&& forall|j: int|
                    0 <= j < old(self).settings@.len() && (#[trigger] old(self).settings@[j]).0@ == key@ ==> final(self).settings@[j].0@ == key@ && final(self).settings@[j].1@ == value@
            },
            (forall|i: int|
                0 <= i < old(self).settings@.len() ==> (#[trigger] old(self).settings@[i]).0@
                    != key@) ==> {
                &&& final(self).settings@.len() == old(self).settings@.len() + 1
                &&& final(self).settings@.subrange(0, old(self).settings@.len() as int) == old(self).settings@
                &&& final(self).settings@.last().0@ == key@
                &&& final(self).settings@.last().1@ == value@
            },
    {
        let mut i: usize = 0;
        while i < self.settings.len()
            invariant
                *self == *old(self),
                i <= self.settings@.len(),
                forall|k: int| 0 <= k < i ==> (#[trigger] self.settings@[k]).0@ != key@,
            decreases self.settings@.len() - i,
        {
            if str_eq(self.settings[i].0.as_str(), key) {
                let entry = (String::from_str(key), String::from_str(value));
                proof {
                    assert(self.settings@[i as int].0@ == key@);
                    assert forall|j: int|
                        0 <= j < self.settings@.len() && j != i as int implies (
                        #[trigger] self.settings@[j]).0@ != key@ by {
                        if j < i as int {
                            assert(self.settings@[j].0@ != self.settings@[i as int].0@);
                        } else {
                            assert(self.settings@[i as int].0@ != self.settings@[j].0@);
                        }
                    }
                }
                self.settings.set(i, entry);
                return Ok(());
            }
            i += 1;
        }
        let entry = (String::from_str(key), String::from_str(value));
        self.settings.push(entry);
        proof {
            assert(self.settings@.subrange(0, old(self).settings@.len() as int) =~= old(self).settings@);
        }
        Ok(())
    }

    /// All settings rows.
    pub fn get_app_settings(&self) -> (r: Vec<(String, String)>)
        ensures
            r@.len() == self.settings@.len(),
            forall|i: int|
                0 <= i < r@.len() ==> (#[trigger] r@[i]).0@ == self.settings@[i].0@ && r@[i].1@
                    == self.settings@[i].1@,
    {
        let mut out: Vec<(String, String)> = Vec::new();
        let mut i: usize = 0;
        while i < self.settings.len()
            invariant
                i <= self.settings@.len(),
                out@.len() == i,
                forall|k: int|
                    0 <= k < i ==> (#[trigger] out@[k]).0@ == self.settings@[k].0@ && out@[k].1@
                        == self.settings@[k].1@,
            decreases self.settings@.len() - i,
        {
            let entry = (self.settings[i].0.clone(), self.settings[i].1.clone());
            out.push(entry);
            i += 1;
        }
        out
    }
}

} // verus!
