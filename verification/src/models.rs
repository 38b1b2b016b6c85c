//! The records of the two catalog tables and the parameter bundles used to
//! create new rows.  Cloning is written out by hand so that the contracts can
//! say that a copy equals its original.

use vstd::prelude::*;

use crate::domain::{Quadrant, Ring};

verus! {

/// A row of the ADR table.
#[derive(Debug, Clone)]
pub struct AdrRecord {
    pub id: i32,
    pub title: String,
    pub blip_name: String,
    pub status: String,
    pub timestamp: String,
}

/// A row of the blip table.
#[derive(Debug, Clone)]
pub struct BlipRecord {
    pub id: i32,
    pub name: String,
    pub ring: Option<Ring>,
    pub quadrant: Option<Quadrant>,
    pub tag: Option<String>,
    pub description: Option<String>,
    pub created: String,
    pub has_adr: bool,
    pub adr_id: Option<i32>,
}

/// Parameters for creating a new ADR row.
#[derive(Debug, Clone)]
pub struct AdrMetadataParams {
    pub id: i32,
    pub title: String,
    pub blip_name: String,
    pub status: String,
    pub created: String,
}

/// Parameters for creating a new blip row.
#[derive(Debug, Clone)]
pub struct BlipMetadataParams {
    pub id: i32,
    pub name: String,
    pub ring: Ring,
    pub quadrant: Quadrant,
    pub tag: String,
    pub description: String,
    pub created: String,
    pub author: String,
    pub has_adr: String,
    pub adr_id: Option<i32>,
}

/// Copies an optional string, preserving the value exactly.
pub fn clone_opt_string(o: &Option<String>) -> (r: Option<String>)
    ensures
        r == *o,
{
    match o {
        Some(s) => Some(s.clone()),
        None => None,
    }
}

/// Copies a blip row, preserving the value exactly.
pub fn clone_blip(b: &BlipRecord) -> (r: BlipRecord)
    ensures
        r == *b,
{
    BlipRecord {
        id: b.id,
        name: b.name.clone(),
        ring: b.ring,
        quadrant: b.quadrant,
        tag: clone_opt_string(&b.tag),
        description: clone_opt_string(&b.description),
        created: b.created.clone(),
        has_adr: b.has_adr,
        adr_id: b.adr_id,
    }
}

/// Copies an ADR row, preserving the value exactly.
pub fn clone_adr(a: &AdrRecord) -> (r: AdrRecord)
    ensures
        r == *a,
{
    AdrRecord {
        id: a.id,
        title: a.title.clone(),
        blip_name: a.blip_name.clone(),
        status: a.status.clone(),
        timestamp: a.timestamp.clone(),
    }
}

} // verus!
