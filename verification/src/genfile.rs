//! Committing a completed wizard draft: allocate an id, write the store
//! row (and, for an ADR, link an existing blip of the same name), and hand
//! the rendered mirror file back for the surrounding application to write.
//! Also the save path of the two edit forms: a partial store update
//! followed by a refresh of the loaded list and a mirror re-sync job.

use vstd::prelude::*;
use vstd::string::*;

use crate::domain::{quadrant_str, ring_str, Quadrant, Ring};
use crate::mirror::{
    adr_create_markdown, adr_sync_markdown, blip_create_markdown, blip_sync_markdown,
    file_path_of, get_file_path, mirror_file_name, mirror_name_of, rediscover_suffix,
    rediscover_suffix_of, render_adr_create, render_adr_sync, render_blip_create,
    render_blip_sync, MirrorJob,
};
use crate::models::{AdrMetadataParams, BlipMetadataParams};
use crate::state::{adr_status_str, AdrStatus, App, InputMode};
use crate::store::{
    adr_index_of, blip_index_of, blip_name_index_of, blip_updated, has_adr_id, has_blip_id,
    has_blip_name, lemma_adr_index_of, lemma_blip_index_of, lemma_blip_name_index_of,
    next_adr_id_of, next_blip_id_of, AdrUpdateParams, BlipUpdateParams, StoreError,
};
use crate::strutil::{date_prefix_of, dec_of, i32_string, sanitized_of};

verus! {

/// Why committing a wizard draft failed.
#[derive(Debug)]
pub enum GenError {
    /// No entry kind was chosen.
    NoInputMode,
    /// The ADR draft carries no status.
    StatusMissing,
    /// The blip draft carries no quadrant.
    QuadrantMissing,
    /// The blip draft carries no ring.
    RingMissing,
    /// A blip with this name already exists.
    BlipExists(String),
    /// A store operation failed.
    Store(StoreError),
}

/// The human-readable message of a generation failure.
pub open spec fn gen_error_message(e: GenError) -> Seq<char> {
    match e {
        GenError::NoInputMode => "No input mode selected"@,
        GenError::StatusMissing => "ADR status missing"@,
        GenError::QuadrantMissing => "Quadrant selection missing"@,
        GenError::RingMissing => "Ring selection missing"@,
        GenError::BlipExists(name) => "Blip already exists: "@ + name@,
        GenError::Store(s) => (match s {
            StoreError::Conflict => "row already exists"@,
            StoreError::NotFound => "row not found"@,
        }),
    }
}

impl GenError {
    pub fn message(&self) -> (r: String)
        ensures
            r@ == gen_error_message(*self),
    {
        match self {
            GenError::NoInputMode => String::from_str("No input mode selected"),
            GenError::StatusMissing => String::from_str("ADR status missing"),
            GenError::QuadrantMissing => String::from_str("Quadrant selection missing"),
            GenError::RingMissing => String::from_str("Ring selection missing"),
            GenError::BlipExists(name) => {
                let mut s = String::from_str("Blip already exists: ");
                s.append(name.as_str());
                s
            },
            GenError::Store(e) => String::from_str(e.message()),
        }
    }
}

impl App {
    /// Renders the creation-time mirror content of an ADR whose title is
    /// the current draft name.
    pub fn generate_adr_content(
        &self,
        id: &str,
        timestamp: &str,
        status: AdrStatus,
        blip_name: &str,
    ) -> (r: String)
        ensures
            r@ == adr_create_markdown(
                id@,
                self.blip_data.name@,
                blip_name@,
                timestamp@,
                adr_status_str(status),
                self.author_name@,
            ),
    {
        render_adr_create(
            id,
            self.blip_data.name.as_str(),
            blip_name,
            timestamp,
            status.as_str(),
            self.author_name.as_str(),
        )
    }

    /// Renders the creation-time mirror content of a blip named after the
    /// current draft.
    pub fn generate_blip_content(
        &self,
        id: &str,
        timestamp: &str,
        quadrant: Quadrant,
        ring: Ring,
    ) -> (r: String)
        ensures
            r@ == blip_create_markdown(
                id@,
                self.blip_data.name@,
                ring_str(ring),
                quadrant_str(quadrant),
                self.author_name@,
                timestamp@,
            ),
    {
        render_blip_create(
            id,
            self.blip_data.name.as_str(),
            ring.as_str(),
            quadrant.as_str(),
            self.author_name.as_str(),
            timestamp,
        )
    }

    /// Commits the wizard draft for `today`'s date.  For an ADR: insert
    /// the row, and if the loaded blip list holds a blip of the same name,
    /// link it to the new ADR (two store calls with no rollback between
    /// them).  For a blip: re-check the name, insert the row, and reload
    /// the blip list.  On success the target path and the rendered mirror
    /// content come back for the surrounding application to write; every
    /// failure names its cause and the draft survives.
    pub fn generate_file(&mut self, today: &str) -> (r: Result<(String, String), GenError>)
        requires
            old(self).wf(),
            old(self).input_mode == Some(InputMode::Adr) ==> old(self).store.can_allocate_adr(),
            old(self).input_mode == Some(InputMode::Blip) ==> old(self).store.can_allocate_blip(),
        ensures
            final(self).wf(),
            old(self).input_mode is None ==> (r matches Err(GenError::NoInputMode)) && *final(self)
                == *old(self),
            old(self).input_mode == Some(InputMode::Adr) && old(self).adr_status is None ==> (
            r matches Err(GenError::StatusMissing)) && *final(self) == *old(self),
            old(self).input_mode == Some(InputMode::Adr) && old(self).adr_status is Some ==> {
                let new_id = next_adr_id_of(old(self).store.adrs@);
                let name = old(self).blip_data.name@;
                &&& final(self).store.adrs@.len() == old(self).store.adrs@.len() + 1
                &&& final(self).store.adrs@.subrange(1, final(self).store.adrs@.len() as int)
                    == old(self).store.adrs@
                &&& final(self).store.adrs@[0].id == new_id
                &&& final(self).store.adrs@[0].title@ == name
                &&& final(self).store.adrs@[0].blip_name@ == name
                &&& final(self).store.adrs@[0].status@ == adr_status_str(
                    old(self).adr_status.unwrap(),
                )
                &&& final(self).store.adrs@[0].timestamp@ == today@
                &&& final(self).store.settings == old(self).store.settings
                &&& *final(self) == (App { store: final(self).store, ..*old(self) })
                &&& if !has_blip_name(old(self).blips@, name) {
                    &&& final(self).store.blips == old(self).store.blips
                    &&& (r matches Ok(pc) && pc.0@ == file_path_of(
                        old(self).adrs_dir@,
                        date_prefix_of(today@) + "-"@ + sanitized_of(name),
                    ) && pc.1@ == adr_create_markdown(
                        dec_of(new_id),
                        name,
                        name,
                        today@,
                        adr_status_str(old(self).adr_status.unwrap()),
                        old(self).author_name@,
                    ))
                } else {
                    let cached = old(self).blips@[blip_name_index_of(old(self).blips@, name)];
                    if has_blip_id(old(self).store.blips@, cached.id as int) {
                        let bi = blip_index_of(old(self).store.blips@, cached.id as int);
                        &&& final(self).store.blips@.len() == old(self).store.blips@.len()
                        &&& forall|j: int|
                            0 <= j < old(self).store.blips@.len() && j != bi ==> final(self).store.blips@[j] == old(self).store.blips@[j]
                        &&& final(self).store.blips@[bi].adr_id is Some
                        &&& final(self).store.blips@[bi].adr_id.unwrap() == new_id
                        &&& final(self).store.blips@[bi].has_adr == true
                        &&& final(self).store.blips@[bi].name == old(self).store.blips@[bi].name
                        &&& final(self).store.blips@[bi].ring == old(self).store.blips@[bi].ring
                        &&& (r matches Ok(pc) && pc.0@ == file_path_of(
                            old(self).adrs_dir@,
                            date_prefix_of(today@) + "-"@ + sanitized_of(name),
                        ) && pc.1@ == adr_create_markdown(
                            dec_of(new_id),
                            name,
                            name,
                            today@,
                            adr_status_str(old(self).adr_status.unwrap()),
                            old(self).author_name@,
                        ))
                    } else {
                        // The cached blip vanished from the store: the ADR
                        // row stays (there is no rollback), the link fails.
                        &&& final(self).store.blips == old(self).store.blips
                        &&& (r matches Err(GenError::Store(StoreError::NotFound)))
                    }
                }
            },
            old(self).input_mode == Some(InputMode::Blip) ==> {
                let name = old(self).blip_data.name@;
                let new_id = next_blip_id_of(old(self).store.blips@);
                if old(self).blip_data.quadrant is None {
                    (r matches Err(GenError::QuadrantMissing)) && *final(self) == *old(self)
                } else if old(self).blip_data.ring is None {
                    (r matches Err(GenError::RingMissing)) && *final(self) == *old(self)
                } else if has_blip_name(old(self).store.blips@, name) {
                    &&& (r matches Err(GenError::BlipExists(n)) && n@ == name)
                    &&& *final(self) == *old(self)
                } else {
                    &&& final(self).store.blips@.len() == old(self).store.blips@.len() + 1
                    &&& final(self).store.blips@.subrange(
                        1,
                        final(self).store.blips@.len() as int,
                    ) == old(self).store.blips@
                    &&& final(self).store.blips@[0].id == new_id
                    &&& final(self).store.blips@[0].name@ == name
                    &&& final(self).store.blips@[0].ring == Some(
                        old(self).blip_data.ring.unwrap(),
                    )
                    &&& final(self).store.blips@[0].quadrant == Some(
                        old(self).blip_data.quadrant.unwrap(),
                    )
                    &&& final(self).store.blips@[0].created@ == today@
                    &&& final(self).store.blips@[0].has_adr == crate::store::has_adr_title(
                        old(self).store.adrs@,
                        name,
                    )
                    &&& final(self).store.blips@[0].adr_id is None
                    &&& final(self).store.adrs == old(self).store.adrs
                    &&& final(self).store.settings == old(self).store.settings
                    &&& final(self).blips@ == final(self).store.blips@
                    &&& *final(self) == (App {
                        store: final(self).store,
                        blips: final(self).blips,
                        filtered_blip_indices: final(self).filtered_blip_indices,
                        filtered_adr_indices: final(self).filtered_adr_indices,
                        search_result_index: final(self).search_result_index,
                        selected_blip_index: final(self).selected_blip_index,
                        selected_adr_index: final(self).selected_adr_index,
                        ..*old(self)
                    })
                    &&& (r matches Ok(pc) && pc.0@ == file_path_of(
                        old(self).blips_dir@,
                        date_prefix_of(today@) + "-"@ + sanitized_of(name),
                    ) && pc.1@ == blip_create_markdown(
                        dec_of(new_id),
                        name,
                        ring_str(old(self).blip_data.ring.unwrap()),
                        quadrant_str(old(self).blip_data.quadrant.unwrap()),
                        old(self).author_name@,
                        today@,
                    ))
                }
            },
    {
        let input_mode = match self.input_mode {
            Some(mode) => mode,
            None => {
                return Err(GenError::NoInputMode);
            },
        };
        let target_dir = match input_mode {
            InputMode::Adr => self.adrs_dir.clone(),
            InputMode::Blip => self.blips_dir.clone(),
        };
        let id: i32 = match input_mode {
            InputMode::Adr => self.store.get_next_id(),
            InputMode::Blip => self.store.get_next_blip_id(),
        };
        let file_name = mirror_file_name(today, self.blip_data.name.as_str());
        let file_path = get_file_path(target_dir.as_str(), file_name.as_str());
        match input_mode {
            InputMode::Adr => {
                let adr_status = match self.adr_status {
                    Some(status) => status,
                    None => {
                        return Err(GenError::StatusMissing);
                    },
                };
                let adr_params = AdrMetadataParams {
                    id,
                    title: self.blip_data.name.clone(),
                    blip_name: self.blip_data.name.clone(),
                    status: String::from_str(adr_status.as_str()),
                    created: String::from_str(today),
                };
                match self.store.insert_new_adr_with_params(&adr_params) {
                    Ok(()) => (),
                    Err(e) => {
                        return Err(GenError::Store(e));
                    },
                }
                // Link an existing blip of the same name to the new ADR.
                let mut i: usize = 0;
                let mut found = false;
                while i < self.blips.len() && !found
                    invariant
                        i <= self.blips@.len(),
                        forall|k: int|
                            0 <= k < i ==> self.blips@[k].name@ != self.blip_data.name@,
                        found ==> i < self.blips@.len() && self.blips@[i as int].name@
                            == self.blip_data.name@,
                    decreases self.blips@.len() - i + (if found { 0int } else { 1int }),
                {
                    if crate::strutil::str_eq(
                        self.blips[i].name.as_str(),
                        self.blip_data.name.as_str(),
                    ) {
                        found = true;
                    } else {
                        i += 1;
                    }
                }
                proof {
                    lemma_blip_name_index_of(self.blips@, self.blip_data.name@);
                    if found {
                        assert(has_blip_name(self.blips@, self.blip_data.name@)) by {
                            assert(self.blips@[i as int].name@ == self.blip_data.name@);
                        }
                        let idx = blip_name_index_of(self.blips@, self.blip_data.name@);
                        assert(idx == i as int) by {
                            if idx < i as int {
                                assert(self.blips@[idx].name@ != self.blip_data.name@);
                            }
                            if (i as int) < idx {
                                assert(self.blips@[i as int].name@ != self.blip_data.name@);
                            }
                        }
                    }
                }
                let linked_id: Option<i32> = if found {
                    Some(self.blips[i].id)
                } else {
                    None
                };
                if let Some(existing_id) = linked_id {
                    let params = BlipUpdateParams {
                        id: existing_id,
                        name: None,
                        ring: None,
                        quadrant: None,
                        tag: None,
                        description: None,
                        adr_id: Some(id),
                    };
                    proof {
                        lemma_blip_index_of(self.store.blips@, existing_id as int);
                    }
                    match self.store.update_blip(&params) {
                        Ok(()) => (),
                        Err(e) => {
                            return Err(GenError::Store(e));
                        },
                    }
                }
                let id_str = i32_string(id);
                let content = self.generate_adr_content(
                    id_str.as_str(),
                    today,
                    adr_status,
                    self.blip_data.name.as_str(),
                );
                Ok((file_path, content))
            },
            InputMode::Blip => {
                let quadrant = match self.blip_data.quadrant {
                    Some(q) => q,
                    None => {
                        return Err(GenError::QuadrantMissing);
                    },
                };
                let ring = match self.blip_data.ring {
                    Some(rg) => rg,
                    None => {
                        return Err(GenError::RingMissing);
                    },
                };
                if self.store.blip_exists_by_name(self.blip_data.name.as_str()) {
                    return Err(GenError::BlipExists(self.blip_data.name.clone()));
                }
                let blip_params = BlipMetadataParams {
                    id,
                    name: self.blip_data.name.clone(),
                    ring,
                    quadrant,
                    tag: String::new(),
                    author: self.author_name.clone(),
                    has_adr: String::from_str("false"),
                    description: String::new(),
                    created: String::from_str(today),
                    adr_id: None,
                };
                match self.store.insert_new_blip(&blip_params) {
                    Ok(()) => (),
                    Err(e) => {
                        return Err(GenError::Store(e));
                    },
                }
                match self.fetch_blips() {
                    Ok(()) => (),
                    Err(e) => {
                        return Err(GenError::Store(e));
                    },
                }
                let id_str = i32_string(id);
                let content = self.generate_blip_content(id_str.as_str(), today, quadrant, ring);
                Ok((file_path, content))
            },
        }
    }

    /// The mirror re-sync job for the loaded blip row with this id, if the
    /// row is loaded: the expected path from its creation date and name,
    /// the rediscovery suffix, and the full re-rendered content.
    pub fn build_blip_sync_job(&self, blip_id: i32) -> (r: Option<MirrorJob>)
        requires
            crate::store::blip_rows_valid(self.blips@),
        ensures
            !has_blip_id(self.blips@, blip_id as int) ==> r is None,
            has_blip_id(self.blips@, blip_id as int) ==> {
                let b = self.blips@[blip_index_of(self.blips@, blip_id as int)];
                &&& r is Some
                &&& r.unwrap().dir@ == self.blips_dir@
                &&& r.unwrap().expected_path@ == file_path_of(
                    self.blips_dir@,
                    mirror_name_of(b.created@, b.name@),
                )
                &&& r.unwrap().suffix@ == rediscover_suffix_of(b.name@)
                &&& r.unwrap().content@ == blip_sync_markdown(b, self.author_name@)
            },
    {
        let mut i: usize = 0;
        while i < self.blips.len()
            invariant
                i <= self.blips@.len(),
                forall|k: int| 0 <= k < i ==> self.blips@[k].id != blip_id,
                crate::store::blip_rows_valid(self.blips@),
            decreases self.blips@.len() - i,
        {
            if self.blips[i].id == blip_id {
                proof {
                    lemma_blip_index_of(self.blips@, blip_id as int);
                    assert(has_blip_id(self.blips@, blip_id as int)) by {
                        assert(self.blips@[i as int].id == blip_id);
                    }
                    let idx = blip_index_of(self.blips@, blip_id as int);
                    assert(idx == i as int) by {
                        if idx < i as int {
                            assert(self.blips@[idx].id != blip_id);
                        }
                        if (i as int) < idx {
                            assert(self.blips@[i as int].id != blip_id);
                        }
                    }
                }
                let file_name = mirror_file_name(
                    self.blips[i].created.as_str(),
                    self.blips[i].name.as_str(),
                );
                let expected_path = get_file_path(self.blips_dir.as_str(), file_name.as_str());
                let suffix = rediscover_suffix(self.blips[i].name.as_str());
                let content = render_blip_sync(&self.blips[i], self.author_name.as_str());
                return Some(
                    MirrorJob { dir: self.blips_dir.clone(), expected_path, suffix, content },
                );
            }
            i += 1;
        }
        None
    }

    /// The mirror re-sync job for the loaded ADR row with this id, if the
    /// row is loaded.  The file is named after the linked blip name and
    /// the row's timestamp; an unparsable stored status falls back to
    /// proposed.
    pub fn build_adr_sync_job(&self, adr_id: i32) -> (r: Option<MirrorJob>)
        requires
            crate::store::adr_rows_valid(self.adrs@),
        ensures
            !has_adr_id(self.adrs@, adr_id as int) ==> r is None,
            has_adr_id(self.adrs@, adr_id as int) ==> {
                let a = self.adrs@[adr_index_of(self.adrs@, adr_id as int)];
                let status = (match crate::state::adr_status_of_str(
                    crate::strutil::lower_of(crate::strutil::trim_of(a.status@)),
                ) {
                    Some(st) => st,
                    None => AdrStatus::Proposed,
                });
                &&& r is Some
                &&& r.unwrap().dir@ == self.adrs_dir@
                &&& r.unwrap().expected_path@ == file_path_of(
                    self.adrs_dir@,
                    mirror_name_of(a.timestamp@, a.blip_name@),
                )
                &&& r.unwrap().suffix@ == rediscover_suffix_of(a.blip_name@)
                &&& r.unwrap().content@ == adr_sync_markdown(
                    dec_of(a.id as int),
                    a.title@,
                    a.blip_name@,
                    a.timestamp@,
                    adr_status_str(status),
                )
            },
    {
        let mut i: usize = 0;
        while i < self.adrs.len()
            invariant
                i <= self.adrs@.len(),
                forall|k: int| 0 <= k < i ==> self.adrs@[k].id != adr_id,
                crate::store::adr_rows_valid(self.adrs@),
            decreases self.adrs@.len() - i,
        {
            if self.adrs[i].id == adr_id {
                proof {
                    lemma_adr_index_of(self.adrs@, adr_id as int);
                    assert(has_adr_id(self.adrs@, adr_id as int)) by {
                        assert(self.adrs@[i as int].id == adr_id);
                    }
                    let idx = adr_index_of(self.adrs@, adr_id as int);
                    assert(idx == i as int) by {
                        if idx < i as int {
                            assert(self.adrs@[idx].id != adr_id);
                        }
                        if (i as int) < idx {
                            assert(self.adrs@[i as int].id != adr_id);
                        }
                    }
                }
                let status = match AdrStatus::parse(self.adrs[i].status.as_str()) {
                    Some(st) => st,
                    None => AdrStatus::Proposed,
                };
                let file_name = mirror_file_name(
                    self.adrs[i].timestamp.as_str(),
                    self.adrs[i].blip_name.as_str(),
                );
                let expected_path = get_file_path(self.adrs_dir.as_str(), file_name.as_str());
                let suffix = rediscover_suffix(self.adrs[i].blip_name.as_str());
                let id_str = i32_string(self.adrs[i].id);
                let content = render_adr_sync(
                    id_str.as_str(),
                    self.adrs[i].title.as_str(),
                    self.adrs[i].blip_name.as_str(),
                    self.adrs[i].timestamp.as_str(),
                    status.as_str(),
                );
                return Some(
                    MirrorJob { dir: self.adrs_dir.clone(), expected_path, suffix, content },
                );
            }
            i += 1;
        }
        None
    }

    /// Saves a blip edit: partial store update, reload of the blip list,
    /// refresh of the open edit form from the saved row, and the mirror
    /// re-sync job for the surrounding application to carry out.  A store
    /// failure is handed back with nothing changed.
    pub fn update_blip(&mut self, params: BlipUpdateParams) -> (r: Result<
        Option<MirrorJob>,
        StoreError,
    >)
        requires
            old(self).wf(),
            params.adr_id is Some ==> params.adr_id.unwrap() >= 1,
        ensures
            final(self).wf(),
            !has_blip_id(old(self).store.blips@, params.id as int) ==> (r matches Err(
                StoreError::NotFound,
            )) && *final(self) == *old(self),
            has_blip_id(old(self).store.blips@, params.id as int) ==> {
                let i = blip_index_of(old(self).store.blips@, params.id as int);
                if params.name is Some && exists|j: int|
                    0 <= j < old(self).store.blips@.len() && j != i
                        && old(self).store.blips@[j].name@ == params.name.unwrap()@ {
                    (r matches Err(StoreError::Conflict)) && *final(self) == *old(self)
                } else {
                    &&& r is Ok
                    &&& final(self).store.blips@.len() == old(self).store.blips@.len()
                    &&& forall|j: int|
                        0 <= j < old(self).store.blips@.len() && j != i ==> final(self).store.blips@[j] == old(self).store.blips@[j]
                    &&& blip_updated(
                        old(self).store.blips@[i],
                        params,
                        final(self).store.blips@[i],
                    )
                    &&& final(self).store.adrs == old(self).store.adrs
                    &&& final(self).store.settings == old(self).store.settings
                    &&& final(self).blips@ == final(self).store.blips@
                    &&& final(self).status_message@ == "Blip updated successfully"@
                    &&& (old(self).edit_blip_state is Some ==> final(self).edit_blip_state is Some && crate::state::edit_form_matches(
                        final(self).edit_blip_state.unwrap(),
                        final(self).blips@[blip_index_of(final(self).blips@, params.id as int)],
                    ) && final(self).edit_blip_state.unwrap().field
                        == crate::state::EditField::Save)
                    &&& (old(self).edit_blip_state is None ==> final(self).edit_blip_state is None)
                    &&& (r matches Ok(job) && job is Some && job.unwrap().content@
                        == blip_sync_markdown(
                        final(self).blips@[blip_index_of(final(self).blips@, params.id as int)],
                        old(self).author_name@,
                    ) && job.unwrap().dir@ == old(self).blips_dir@ && job.unwrap().expected_path@
                        == file_path_of(
                        old(self).blips_dir@,
                        mirror_name_of(
                            final(self).blips@[blip_index_of(
                                final(self).blips@,
                                params.id as int,
                            )].created@,
                            final(self).blips@[blip_index_of(
                                final(self).blips@,
                                params.id as int,
                            )].name@,
                        ),
                    ) && job.unwrap().suffix@ == rediscover_suffix_of(
                        final(self).blips@[blip_index_of(
                            final(self).blips@,
                            params.id as int,
                        )].name@,
                    ))
                    &&& *final(self) == (App {
                        store: final(self).store,
                        blips: final(self).blips,
                        filtered_blip_indices: final(self).filtered_blip_indices,
                        filtered_adr_indices: final(self).filtered_adr_indices,
                        search_result_index: final(self).search_result_index,
                        selected_blip_index: final(self).selected_blip_index,
                        selected_adr_index: final(self).selected_adr_index,
                        edit_blip_state: final(self).edit_blip_state,
                        status_message: final(self).status_message,
                        ..*old(self)
                    })
                }
            },
    {
        let blip_id = params.id;
        proof {
            lemma_blip_index_of(self.store.blips@, params.id as int);
        }
        match self.store.update_blip(&params) {
            Ok(()) => (),
            Err(e) => {
                return Err(e);
            },
        }
        match self.fetch_blips() {
            Ok(()) => (),
            Err(e) => {
                return Err(e);
            },
        }
        self.refresh_edit_blip_state(blip_id);
        self.status_message = String::from_str("Blip updated successfully");
        proof {
            lemma_blip_index_of(self.blips@, blip_id as int);
        }
        let job = self.build_blip_sync_job(blip_id);
        Ok(job)
    }

    /// Saves an ADR edit: partial store update, reload of the ADR list
    /// under the current filter, refresh of the open edit form, and the
    /// mirror re-sync job.  A store failure is handed back with nothing
    /// changed.
    pub fn update_adr(&mut self, params: AdrUpdateParams) -> (r: Result<
        Option<MirrorJob>,
        StoreError,
    >)
        requires
            old(self).wf(),
        ensures
            final(self).wf(),
            !has_adr_id(old(self).store.adrs@, params.id as int) ==> (r matches Err(
                StoreError::NotFound,
            )) && *final(self) == *old(self),
            has_adr_id(old(self).store.adrs@, params.id as int) ==> {
                let i = adr_index_of(old(self).store.adrs@, params.id as int);
                &&& r is Ok
                &&& final(self).store.adrs@.len() == old(self).store.adrs@.len()
                &&& forall|j: int|
                    0 <= j < old(self).store.adrs@.len() && j != i ==> final(self).store.adrs@[j]
                        == old(self).store.adrs@[j]
                &&& crate::store::adr_updated(
                    old(self).store.adrs@[i],
                    params,
                    final(self).store.adrs@[i],
                )
                &&& final(self).store.blips == old(self).store.blips
                &&& final(self).store.settings == old(self).store.settings
                &&& final(self).status_message@ == "ADR updated successfully"@
                &&& (old(self).adr_filter_name is None ==> final(self).adrs@
                    == final(self).store.adrs@)
                &&& (old(self).adr_filter_name is Some && old(self).adr_filter_name.unwrap()@.len() == 0 ==> final(self).adrs@
                    == final(self).store.adrs@)
                &&& (has_adr_id(final(self).adrs@, params.id as int) ==> (r matches Ok(job)
                    && job is Some && job.unwrap().dir@ == old(self).adrs_dir@
                    && job.unwrap().content@ == adr_sync_markdown(
                    dec_of(final(self).adrs@[adr_index_of(final(self).adrs@, params.id as int)].id as int),
                    final(self).adrs@[adr_index_of(final(self).adrs@, params.id as int)].title@,
                    final(self).adrs@[adr_index_of(final(self).adrs@, params.id as int)].blip_name@,
                    final(self).adrs@[adr_index_of(final(self).adrs@, params.id as int)].timestamp@,
                    adr_status_str(
                        match crate::state::adr_status_of_str(
                            crate::strutil::lower_of(
                                crate::strutil::trim_of(
                                    final(self).adrs@[adr_index_of(final(self).adrs@, params.id as int)].status@,
                                ),
                            ),
                        ) {
                            Some(st) => st,
                            None => AdrStatus::Proposed,
                        },
                    ),
                )))
                &&& (!has_adr_id(final(self).adrs@, params.id as int) ==> (r matches Ok(job)
                    && job is None))
            },
    {
        let adr_id = params.id;
        proof {
            lemma_adr_index_of(self.store.adrs@, params.id as int);
        }
        match self.store.update_adr(&params) {
            Ok(()) => (),
            Err(e) => {
                return Err(e);
            },
        }
        let filter = match &self.adr_filter_name {
            Some(name) => name.clone(),
            None => String::new(),
        };
        match self.fetch_adrs_for_blip(filter.as_str()) {
            Ok(()) => (),
            Err(e) => {
                return Err(e);
            },
        }
        self.refresh_edit_adr_state(adr_id);
        self.status_message = String::from_str("ADR updated successfully");
        let job = self.build_adr_sync_job(adr_id);
        Ok(job)
    }

    /// Records that the store write succeeded but the mirror write did
    /// not: a degraded success, never rolled back.
    pub fn note_blip_sync_failure(&mut self, detail: &str)
        ensures
            final(self).status_message@ == "Blip saved to DB, but markdown sync failed: "@
                + detail@,
            *final(self) == (App { status_message: final(self).status_message, ..*old(self) }),
    {
        let mut s = String::from_str("Blip saved to DB, but markdown sync failed: ");
        s.append(detail);
        self.status_message = s;
    }

    /// Records that the store write succeeded but the mirror write did
    /// not: a degraded success, never rolled back.
    pub fn note_adr_sync_failure(&mut self, detail: &str)
        ensures
            final(self).status_message@ == "ADR saved to DB, but markdown sync failed: "@
                + detail@,
            *final(self) == (App { status_message: final(self).status_message, ..*old(self) }),
    {
        let mut s = String::from_str("ADR saved to DB, but markdown sync failed: ");
        s.append(detail);
        self.status_message = s;
    }
}

} // verus!
