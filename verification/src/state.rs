//! The application state: the creation wizard's draft and state machine,
//! the screen the navigator shows, the loaded lists, and the edit forms.
//! Everything here is driven purely by key events and store values; the
//! surrounding application owns timers, effects and rendering.

use vstd::prelude::*;
use vstd::string::*;

use crate::domain::{quadrant_of_index, ring_of_index, Quadrant, Ring};
use crate::models::{AdrRecord, BlipRecord};
use crate::input::screens::edit_adr::{AdrEditField, AdrEditState};
use crate::store::CatalogStore;
use crate::strutil::{lower_of, lowercase, str_eq, trim_of, trimmed};

verus! {

/// The draft of the entry being created by the wizard.
#[derive(Debug)]
pub struct BlipData {
    pub name: String,
    pub quadrant: Option<Quadrant>,
    pub ring: Option<Ring>,
}

impl BlipData {
    pub fn new() -> (r: Self)
        ensures
            r.name@ == Seq::<char>::empty(),
            r.quadrant is None,
            r.ring is None,
    {
        BlipData { name: String::new(), quadrant: None, ring: None }
    }
}

/// The wizard's state: which input it is waiting for.
#[derive(Debug, PartialEq, Eq, Structural, Clone, Copy)]
pub enum InputState {
    WaitingForCommand,
    EnteringTechnology,
    ChoosingAdrStatus,
    ChoosingQuadrant,
    ChoosingRing,
    GeneratingFile,
    Completed,
}

/// The screen the navigator shows.
#[derive(Debug, PartialEq, Eq, Structural, Clone, Copy)]
pub enum AppScreen {
    Main,
    ViewBlips,
    ViewAdrs,
    AdrActions,
    AdrDetails,
    EditAdr,
    BlipActions,
    BlipDetails,
    EditBlip,
}

/// Which kind of entry the wizard is creating.
#[derive(Debug, PartialEq, Eq, Structural, Clone, Copy)]
pub enum InputMode {
    Adr,
    Blip,
}

/// The status of an ADR.
#[derive(Debug, PartialEq, Eq, Structural, Clone, Copy)]
pub enum AdrStatus {
    Proposed,
    Accepted,
    Rejected,
    Deprecated,
    Superseded,
}

/// The stored (lower-case) form of an ADR status.
pub open spec fn adr_status_str(s: AdrStatus) -> Seq<char> {
    match s {
        AdrStatus::Proposed => "proposed"@,
        AdrStatus::Accepted => "accepted"@,
        AdrStatus::Rejected => "rejected"@,
        AdrStatus::Deprecated => "deprecated"@,
        AdrStatus::Superseded => "superseded"@,
    }
}

/// The display form of an ADR status.
pub open spec fn adr_status_label(s: AdrStatus) -> Seq<char> {
    match s {
        AdrStatus::Proposed => "Proposed"@,
        AdrStatus::Accepted => "Accepted"@,
        AdrStatus::Rejected => "Rejected"@,
        AdrStatus::Deprecated => "Deprecated"@,
        AdrStatus::Superseded => "Superseded"@,
    }
}

/// The picker position of an ADR status.
pub open spec fn adr_status_index(s: AdrStatus) -> int {
    match s {
        AdrStatus::Proposed => 0,
        AdrStatus::Accepted => 1,
        AdrStatus::Rejected => 2,
        AdrStatus::Deprecated => 3,
        AdrStatus::Superseded => 4,
    }
}

/// The ADR status at a picker position, if the position is in range.
pub open spec fn adr_status_of_index(i: int) -> Option<AdrStatus> {
    if i == 0 {
        Some(AdrStatus::Proposed)
    } else if i == 1 {
        Some(AdrStatus::Accepted)
    } else if i == 2 {
        Some(AdrStatus::Rejected)
    } else if i == 3 {
        Some(AdrStatus::Deprecated)
    } else if i == 4 {
        Some(AdrStatus::Superseded)
    } else {
        None
    }
}

/// The ADR status whose stored form is `s`, if any.
pub open spec fn adr_status_of_str(s: Seq<char>) -> Option<AdrStatus> {
    if s == "proposed"@ {
        Some(AdrStatus::Proposed)
    } else if s == "accepted"@ {
        Some(AdrStatus::Accepted)
    } else if s == "rejected"@ {
        Some(AdrStatus::Rejected)
    } else if s == "deprecated"@ {
        Some(AdrStatus::Deprecated)
    } else if s == "superseded"@ {
        Some(AdrStatus::Superseded)
    } else {
        None
    }
}

impl AdrStatus {
    pub fn as_str(self) -> (r: &'static str)
        ensures
            r@ == adr_status_str(self),
    {
        match self {
            Self::Proposed => "proposed",
            Self::Accepted => "accepted",
            Self::Rejected => "rejected",
            Self::Deprecated => "deprecated",
            Self::Superseded => "superseded",
        }
    }

    pub fn label(self) -> (r: &'static str)
        ensures
            r@ == adr_status_label(self),
    {
        match self {
            Self::Proposed => "Proposed",
            Self::Accepted => "Accepted",
            Self::Rejected => "Rejected",
            Self::Deprecated => "Deprecated",
            Self::Superseded => "Superseded",
        }
    }

    pub fn from_index(index: usize) -> (r: Option<Self>)
        ensures
            r == adr_status_of_index(index as int),
    {
        match index {
            0 => Some(Self::Proposed),
            1 => Some(Self::Accepted),
            2 => Some(Self::Rejected),
            3 => Some(Self::Deprecated),
            4 => Some(Self::Superseded),
            _ => None,
        }
    }

    pub fn all() -> (r: [Self; 5])
        ensures
            r@ =~= seq![
                AdrStatus::Proposed,
                AdrStatus::Accepted,
                AdrStatus::Rejected,
                AdrStatus::Deprecated,
                AdrStatus::Superseded,
            ],
    {
        [Self::Proposed, Self::Accepted, Self::Rejected, Self::Deprecated, Self::Superseded]
    }

    /// The next status in picker order, wrapping to the first.
    pub fn next(self) -> (r: Self)
        ensures
            adr_status_index(r) == (adr_status_index(self) + 1) % 5,
    {
        match self {
            Self::Proposed => Self::Accepted,
            Self::Accepted => Self::Rejected,
            Self::Rejected => Self::Deprecated,
            Self::Deprecated => Self::Superseded,
            Self::Superseded => Self::Proposed,
        }
    }

    /// The previous status in picker order, wrapping to the last.
    pub fn prev(self) -> (r: Self)
        ensures
            adr_status_index(r) == (adr_status_index(self) + 4) % 5,
    {
        match self {
            Self::Proposed => Self::Superseded,
            Self::Accepted => Self::Proposed,
            Self::Rejected => Self::Accepted,
            Self::Deprecated => Self::Rejected,
            Self::Superseded => Self::Deprecated,
        }
    }

    /// Parses the stored form, ignoring case and surrounding whitespace.
    pub fn parse(value: &str) -> (r: Option<Self>)
        ensures
            r == adr_status_of_str(lower_of(trim_of(value@))),
    {
        let folded = lowercase(trimmed(value).as_str());
        Self::parse_folded(folded.as_str())
    }

    /// Parses the already trimmed and lower-cased stored form.
    pub fn parse_folded(value: &str) -> (r: Option<Self>)
        ensures
            r == adr_status_of_str(value@),
    {
        if str_eq(value, "proposed") {
            Some(Self::Proposed)
        } else if str_eq(value, "accepted") {
            Some(Self::Accepted)
        } else if str_eq(value, "rejected") {
            Some(Self::Rejected)
        } else if str_eq(value, "deprecated") {
            Some(Self::Deprecated)
        } else if str_eq(value, "superseded") {
            Some(Self::Superseded)
        } else {
            None
        }
    }
}

/// Which field the blip edit form points at.
#[derive(Debug, Clone, Copy, PartialEq, Eq, Structural)]
pub enum EditField {
    Name,
    Ring,
    Quadrant,
    Tag,
    Description,
    Save,
}

/// The option text at a ring picker position.
pub open spec fn ring_option_str(i: int) -> Seq<char> {
    if i == 0 {
        "hold"@
    } else if i == 1 {
        "assess"@
    } else if i == 2 {
        "trial"@
    } else if i == 3 {
        "adopt"@
    } else {
        ""@
    }
}

/// The option text at a quadrant picker position.
pub open spec fn quadrant_option_str(i: int) -> Seq<char> {
    if i == 0 {
        "platforms"@
    } else if i == 1 {
        "languages"@
    } else if i == 2 {
        "tools"@
    } else if i == 3 {
        "techniques"@
    } else {
        ""@
    }
}

/// The picker position the edit form starts at for a stored ring.
pub open spec fn edit_ring_index_of(r: Option<Ring>) -> int {
    match r {
        Some(Ring::Assess) => 1,
        Some(Ring::Trial) => 2,
        Some(Ring::Adopt) => 3,
        _ => 0,
    }
}

/// The picker position the edit form starts at for a stored quadrant.
pub open spec fn edit_quadrant_index_of(q: Option<Quadrant>) -> int {
    match q {
        Some(Quadrant::Languages) => 1,
        Some(Quadrant::Tools) => 2,
        Some(Quadrant::Techniques) => 3,
        _ => 0,
    }
}

/// The transient state of a blip being edited.
#[derive(Debug, Clone)]
pub struct EditBlipState {
    pub id: i32,
    pub adr_id: Option<i32>,
    pub field: EditField,
    pub name: String,
    pub ring: String,
    pub quadrant: String,
    pub tag: String,
    pub description: String,
    pub editing: bool,
    pub ring_index: usize,
    pub quadrant_index: usize,
}

impl EditBlipState {
    /// The form's picker positions always stay inside their option lists.
    pub open spec fn wf(self) -> bool {
        self.ring_index < 4 && self.quadrant_index < 4
    }

    /// Builds the edit form from a store row, pointing at the name field.
    pub fn from_blip(blip: &BlipRecord) -> (r: Self)
        ensures
            r.wf(),
            r.id == blip.id,
            r.adr_id == blip.adr_id,
            r.field == EditField::Name,
            r.name == blip.name,
            r.ring_index == edit_ring_index_of(blip.ring),
            r.quadrant_index == edit_quadrant_index_of(blip.quadrant),
            r.ring@ == ring_option_str(r.ring_index as int),
            r.quadrant@ == quadrant_option_str(r.quadrant_index as int),
            r.tag@ == (match blip.tag {
                Some(t) => t@,
                None => Seq::<char>::empty(),
            }),
            r.description@ == (match blip.description {
                Some(d) => d@,
                None => Seq::<char>::empty(),
            }),
            r.editing == false,
    {
        let ring_index: usize = match blip.ring {
            Some(Ring::Assess) => 1,
            Some(Ring::Trial) => 2,
            Some(Ring::Adopt) => 3,
            _ => 0,
        };
        let quadrant_index: usize = match blip.quadrant {
            Some(Quadrant::Languages) => 1,
            Some(Quadrant::Tools) => 2,
            Some(Quadrant::Techniques) => 3,
            _ => 0,
        };
        let ring_text = match ring_index {
            0 => "hold",
            1 => "assess",
            2 => "trial",
            _ => "adopt",
        };
        let quadrant_text = match quadrant_index {
            0 => "platforms",
            1 => "languages",
            2 => "tools",
            _ => "techniques",
        };
        let tag = match &blip.tag {
            Some(t) => t.clone(),
            None => String::new(),
        };
        let description = match &blip.description {
            Some(d) => d.clone(),
            None => String::new(),
        };
        EditBlipState {
            id: blip.id,
            adr_id: blip.adr_id,
            field: EditField::Name,
            name: blip.name.clone(),
            ring: String::from_str(ring_text),
            quadrant: String::from_str(quadrant_text),
            tag,
            description,
            editing: false,
            ring_index,
            quadrant_index,
        }
    }

    /// The ring option texts, in picker order.
    pub fn ring_options() -> (r: [&'static str; 4])
        ensures
            forall|i: int| 0 <= i < 4 ==> (#[trigger] r@[i])@ == ring_option_str(i),
    {
        let r = ["hold", "assess", "trial", "adopt"];
        proof {
            assert(r@[0]@ == ring_option_str(0));
            assert(r@[1]@ == ring_option_str(1));
            assert(r@[2]@ == ring_option_str(2));
            assert(r@[3]@ == ring_option_str(3));
        }
        r
    }

    /// The quadrant option texts, in picker order.
    pub fn quadrant_options() -> (r: [&'static str; 4])
        ensures
            forall|i: int| 0 <= i < 4 ==> (#[trigger] r@[i])@ == quadrant_option_str(i),
    {
        let r = ["platforms", "languages", "tools", "techniques"];
        proof {
            assert(r@[0]@ == quadrant_option_str(0));
            assert(r@[1]@ == quadrant_option_str(1));
            assert(r@[2]@ == quadrant_option_str(2));
            assert(r@[3]@ == quadrant_option_str(3));
        }
        r
    }

    /// Cycles the ring field one option forward, wrapping.
    pub fn next_ring(&mut self)
        requires
            old(self).wf(),
        ensures
            final(self).wf(),
            final(self).ring_index == (old(self).ring_index + 1) % 4,
            final(self).ring@ == ring_option_str(final(self).ring_index as int),
            *final(self) == (EditBlipState {
                ring_index: final(self).ring_index,
                ring: final(self).ring,
                ..*old(self)
            }),
    {
        self.ring_index = (self.ring_index + 1) % 4;
        self.set_ring_text();
    }

    /// Cycles the ring field one option back, wrapping.
    pub fn prev_ring(&mut self)
        requires
            old(self).wf(),
        ensures
            final(self).wf(),
            final(self).ring_index == (old(self).ring_index + 3) % 4,
            final(self).ring@ == ring_option_str(final(self).ring_index as int),
            *final(self) == (EditBlipState {
                ring_index: final(self).ring_index,
                ring: final(self).ring,
                ..*old(self)
            }),
    {
        self.ring_index = (self.ring_index + 3) % 4;
        self.set_ring_text();
    }

    /// Cycles the quadrant field one option forward, wrapping.
    pub fn next_quadrant(&mut self)
        requires
            old(self).wf(),
        ensures
            final(self).wf(),
            final(self).quadrant_index == (old(self).quadrant_index + 1) % 4,
            final(self).quadrant@ == quadrant_option_str(final(self).quadrant_index as int),
            *final(self) == (EditBlipState {
                quadrant_index: final(self).quadrant_index,
                quadrant: final(self).quadrant,
                ..*old(self)
            }),
    {
        self.quadrant_index = (self.quadrant_index + 1) % 4;
        self.set_quadrant_text();
    }

    /// Cycles the quadrant field one option back, wrapping.
    pub fn prev_quadrant(&mut self)
        requires
            old(self).wf(),
        ensures
            final(self).wf(),
            final(self).quadrant_index == (old(self).quadrant_index + 3) % 4,
            final(self).quadrant@ == quadrant_option_str(final(self).quadrant_index as int),
            *final(self) == (EditBlipState {
                quadrant_index: final(self).quadrant_index,
                quadrant: final(self).quadrant,
                ..*old(self)
            }),
    {
        self.quadrant_index = (self.quadrant_index + 3) % 4;
        self.set_quadrant_text();
    }

    fn set_ring_text(&mut self)
        requires
            old(self).wf(),
        ensures
            final(self).ring@ == ring_option_str(old(self).ring_index as int),
            *final(self) == (EditBlipState { ring: final(self).ring, ..*old(self) }),
    {
        self.ring = String::from_str(
            match self.ring_index {
                0 => "hold",
                1 => "assess",
                2 => "trial",
                _ => "adopt",
            },
        );
    }

    fn set_quadrant_text(&mut self)
        requires
            old(self).wf(),
        ensures
            final(self).quadrant@ == quadrant_option_str(old(self).quadrant_index as int),
            *final(self) == (EditBlipState { quadrant: final(self).quadrant, ..*old(self) }),
    {
        self.quadrant = String::from_str(
            match self.quadrant_index {
                0 => "platforms",
                1 => "languages",
                2 => "tools",
                _ => "techniques",
            },
        );
    }
}

/// One row of the completion panel shown after an entry is created.
pub struct CompletionBlip {
    pub name: String,
    pub ring: String,
    pub quadrant: String,
}

/// The totals shown after an entry is created.
pub struct CompletionStats {
    pub total_blips: i64,
    pub total_adrs: i64,
    pub recent: Vec<CompletionBlip>,
}

/// The whole application state the input handlers drive.  Timers, effects
/// and rendering state live outside, in the surrounding application.
pub struct App {
    pub running: bool,
    pub input_state: InputState,
    pub current_input: String,
    pub blip_data: BlipData,
    pub input_mode: Option<InputMode>,
    pub adr_status: Option<AdrStatus>,
    pub status_message: String,
    pub store: CatalogStore,
    pub adrs_dir: String,
    pub blips_dir: String,
    pub author_name: String,
    pub animation_paused: bool,
    pub show_help: bool,
    pub completion_stats: Option<CompletionStats>,
    pub settings_selection_index: usize,
    pub settings_editing: bool,
    pub settings_input: String,
    pub settings_blip_dir: String,
    pub settings_adr_dir: String,
    pub settings_db_name: String,
    pub screen: AppScreen,
    pub blips: Vec<BlipRecord>,
    pub selected_blip_index: usize,
    pub edit_blip_state: Option<EditBlipState>,
    pub edit_adr_state: Option<AdrEditState>,
    pub blip_action_index: usize,
    pub adr_action_index: usize,
    pub selected_adr_index: usize,
    pub adrs: Vec<AdrRecord>,
    pub adr_filter_name: Option<String>,
    pub quadrant_selection_index: usize,
    pub ring_selection_index: usize,
    pub adr_status_selection_index: usize,
    pub input_mode_selection_index: usize,
    pub chart_tab_index: usize,
    pub last_checked_blip_name: Option<String>,
    pub last_blip_name_exists: bool,
    pub search_query: String,
    pub search_active: bool,
    pub search_result_index: usize,
    pub filtered_blip_indices: Vec<usize>,
    pub filtered_adr_indices: Vec<usize>,
}

/// The kind of entry chosen at a mode picker position.
pub open spec fn input_mode_of_index(i: int) -> Option<InputMode> {
    if i == 0 {
        Some(InputMode::Adr)
    } else if i == 1 {
        Some(InputMode::Blip)
    } else {
        None
    }
}

/// The wizard state after a submit in state `s`, given the chosen entry
/// kind and the two picker positions.
pub open spec fn advance_next_state(
    s: InputState,
    mode: Option<InputMode>,
    adr_idx: int,
    ring_idx: int,
) -> InputState {
    match s {
        InputState::WaitingForCommand => InputState::EnteringTechnology,
        InputState::EnteringTechnology => if mode == Some(InputMode::Adr) {
            InputState::ChoosingAdrStatus
        } else {
            InputState::ChoosingQuadrant
        },
        InputState::ChoosingAdrStatus => if adr_status_of_index(adr_idx) is Some {
            InputState::GeneratingFile
        } else {
            InputState::ChoosingAdrStatus
        },
        InputState::ChoosingQuadrant => InputState::ChoosingRing,
        InputState::ChoosingRing => if ring_of_index(ring_idx) is Some {
            InputState::GeneratingFile
        } else {
            InputState::ChoosingRing
        },
        InputState::GeneratingFile => InputState::GeneratingFile,
        InputState::Completed => InputState::WaitingForCommand,
    }
}

/// Law: the wizard never gets stuck.  For every state the submit event has
/// a defined follow-up state: choosing a kind leads to name entry; a name
/// leads to the status picker for an ADR and the quadrant picker for a
/// blip; a quadrant leads to the ring picker; a valid status or ring
/// selection starts generation, an invalid one re-prompts the same picker;
/// generation holds its state until the outcome arrives; acknowledging a
/// completed entry returns to the start.  The cancel event is total as
/// well: `App::reset` returns every state to the start and discards the
/// draft.
pub proof fn lemma_wizard_totality(mode: Option<InputMode>, adr_idx: int, ring_idx: int)
    ensures
        advance_next_state(InputState::WaitingForCommand, mode, adr_idx, ring_idx)
            == InputState::EnteringTechnology,
        advance_next_state(InputState::EnteringTechnology, Some(InputMode::Adr), adr_idx, ring_idx)
            == InputState::ChoosingAdrStatus,
        mode != Some(InputMode::Adr) ==> advance_next_state(
            InputState::EnteringTechnology,
            mode,
            adr_idx,
            ring_idx,
        ) == InputState::ChoosingQuadrant,
        0 <= adr_idx < 5 ==> advance_next_state(
            InputState::ChoosingAdrStatus,
            mode,
            adr_idx,
            ring_idx,
        ) == InputState::GeneratingFile,
        !(0 <= adr_idx < 5) ==> advance_next_state(
            InputState::ChoosingAdrStatus,
            mode,
            adr_idx,
            ring_idx,
        ) == InputState::ChoosingAdrStatus,
        advance_next_state(InputState::ChoosingQuadrant, mode, adr_idx, ring_idx)
            == InputState::ChoosingRing,
        0 <= ring_idx < 4 ==> advance_next_state(InputState::ChoosingRing, mode, adr_idx, ring_idx)
            == InputState::GeneratingFile,
        !(0 <= ring_idx < 4) ==> advance_next_state(
            InputState::ChoosingRing,
            mode,
            adr_idx,
            ring_idx,
        ) == InputState::ChoosingRing,
        advance_next_state(InputState::GeneratingFile, mode, adr_idx, ring_idx)
            == InputState::GeneratingFile,
        advance_next_state(InputState::Completed, mode, adr_idx, ring_idx)
            == InputState::WaitingForCommand,
{
}

/// The edit form a store row unfolds into (everything but the field
/// cursor, which differs between opening the form and refreshing it).
pub open spec fn edit_form_matches(e: EditBlipState, b: BlipRecord) -> bool {
    &&& e.wf()
    &&& e.id == b.id
    &&& e.adr_id == b.adr_id
    &&& e.name == b.name
    &&& e.ring_index == edit_ring_index_of(b.ring)
    &&& e.quadrant_index == edit_quadrant_index_of(b.quadrant)
    &&& e.ring@ == ring_option_str(e.ring_index as int)
    &&& e.quadrant@ == quadrant_option_str(e.quadrant_index as int)
    &&& e.tag@ == (match b.tag {
        Some(t) => t@,
        None => Seq::<char>::empty(),
    })
    &&& e.description@ == (match b.description {
        Some(d) => d@,
        None => Seq::<char>::empty(),
    })
    &&& e.editing == false
}

impl App {
    /// The state invariant: the store and any open edit form are well
    /// formed.
    pub open spec fn wf(self) -> bool {
        &&& self.store.wf()
        &&& self.blips@.len() <= 0x7fff_ffff
        &&& self.adrs@.len() <= 0x7fff_ffff
        &&& crate::store::blip_rows_valid(self.blips@)
        &&& crate::store::adr_rows_valid(self.adrs@)
        &&& self.filtered_blip_indices@.len() <= 0x7fff_ffff
        &&& self.filtered_adr_indices@.len() <= 0x7fff_ffff
        &&& match self.edit_blip_state {
            Some(e) => e.wf(),
            None => true,
        }
    }

    pub fn new() -> (r: Self)
        ensures
            r.wf(),
            r.running == true,
            r.input_state == InputState::WaitingForCommand,
            r.current_input@ == Seq::<char>::empty(),
            r.blip_data.name@ == Seq::<char>::empty(),
            r.blip_data.quadrant is None,
            r.blip_data.ring is None,
            r.input_mode is None,
            r.adr_status is None,
            r.status_message@ == Seq::<char>::empty(),
            r.store.blips@.len() == 0,
            r.store.adrs@.len() == 0,
            r.store.settings@.len() == 0,
            r.adrs_dir@ == "./adrs"@,
            r.blips_dir@ == "./blips"@,
            r.author_name@ == Seq::<char>::empty(),
            r.animation_paused == false,
            r.show_help == false,
            r.completion_stats is None,
            r.settings_selection_index == 0,
            r.settings_editing == false,
            r.screen == AppScreen::Main,
            r.blips@.len() == 0,
            r.selected_blip_index == 0,
            r.edit_blip_state is None,
            r.edit_adr_state is None,
            r.blip_action_index == 0,
            r.adr_action_index == 0,
            r.selected_adr_index == 0,
            r.adrs@.len() == 0,
            r.adr_filter_name is None,
            r.quadrant_selection_index == 0,
            r.ring_selection_index == 0,
            r.adr_status_selection_index == 0,
            r.input_mode_selection_index == 0,
            r.chart_tab_index == 0,
            r.last_checked_blip_name is None,
            r.last_blip_name_exists == false,
            r.search_query@ == Seq::<char>::empty(),
            r.search_active == false,
            r.search_result_index == 0,
            r.filtered_blip_indices@.len() == 0,
            r.filtered_adr_indices@.len() == 0,
    {
        App {
            running: true,
            input_state: InputState::WaitingForCommand,
            current_input: String::new(),
            blip_data: BlipData::new(),
            input_mode: None,
            adr_status: None,
            status_message: String::new(),
            store: CatalogStore::new(),
            adrs_dir: String::from_str("./adrs"),
            blips_dir: String::from_str("./blips"),
            author_name: String::new(),
            animation_paused: false,
            show_help: false,
            completion_stats: None,
            settings_selection_index: 0,
            settings_editing: false,
            settings_input: String::new(),
            settings_blip_dir: String::new(),
            settings_adr_dir: String::new(),
            settings_db_name: String::new(),
            screen: AppScreen::Main,
            blips: Vec::new(),
            selected_blip_index: 0,
            edit_blip_state: None,
            edit_adr_state: None,
            blip_action_index: 0,
            adr_action_index: 0,
            selected_adr_index: 0,
            adrs: Vec::new(),
            adr_filter_name: None,
            quadrant_selection_index: 0,
            ring_selection_index: 0,
            adr_status_selection_index: 0,
            input_mode_selection_index: 0,
            chart_tab_index: 0,
            last_checked_blip_name: None,
            last_blip_name_exists: false,
            search_query: String::new(),
            search_active: false,
            search_result_index: 0,
            filtered_blip_indices: Vec::new(),
            filtered_adr_indices: Vec::new(),
        }
    }

    /// Cancels whatever is in progress: the wizard returns to its start,
    /// the draft and every transient selection are discarded.  The store,
    /// the loaded blip list and the shown screen stay.
    pub fn reset(&mut self)
        requires
            old(self).wf(),
        ensures
            final(self).wf(),
            final(self).input_state == InputState::WaitingForCommand,
            final(self).current_input@ == Seq::<char>::empty(),
            final(self).blip_data.name@ == Seq::<char>::empty(),
            final(self).blip_data.quadrant is None,
            final(self).blip_data.ring is None,
            final(self).input_mode is None,
            final(self).adr_status is None,
            final(self).status_message@ == Seq::<char>::empty(),
            final(self).completion_stats is None,
            final(self).quadrant_selection_index == 0,
            final(self).ring_selection_index == 0,
            final(self).adr_status_selection_index == 0,
            final(self).input_mode_selection_index == 0,
            final(self).chart_tab_index == 0,
            final(self).last_checked_blip_name is None,
            final(self).last_blip_name_exists == false,
            final(self).settings_selection_index == 0,
            final(self).settings_editing == false,
            final(self).settings_input@ == Seq::<char>::empty(),
            final(self).selected_adr_index == 0,
            final(self).adrs@.len() == 0,
            final(self).adr_filter_name is None,
            final(self).blip_action_index == 0,
            final(self).adr_action_index == 0,
            final(self).edit_adr_state is None,
            final(self).search_query@ == Seq::<char>::empty(),
            final(self).search_active == false,
            final(self).filtered_blip_indices@.len() == 0,
            final(self).filtered_adr_indices@.len() == 0,
            final(self).running == old(self).running,
            final(self).store == old(self).store,
            final(self).adrs_dir == old(self).adrs_dir,
            final(self).blips_dir == old(self).blips_dir,
            final(self).author_name == old(self).author_name,
            final(self).animation_paused == old(self).animation_paused,
            final(self).show_help == old(self).show_help,
            final(self).settings_blip_dir == old(self).settings_blip_dir,
            final(self).settings_adr_dir == old(self).settings_adr_dir,
            final(self).settings_db_name == old(self).settings_db_name,
            final(self).screen == old(self).screen,
            final(self).blips == old(self).blips,
            final(self).selected_blip_index == old(self).selected_blip_index,
            final(self).edit_blip_state == old(self).edit_blip_state,
            final(self).search_result_index == old(self).search_result_index,
    {
        self.input_state = InputState::WaitingForCommand;
        self.current_input = String::new();
        self.blip_data = BlipData::new();
        self.input_mode = None;
        self.adr_status = None;
        self.status_message = String::new();
        self.completion_stats = None;
        self.quadrant_selection_index = 0;
        self.ring_selection_index = 0;
        self.adr_status_selection_index = 0;
        self.input_mode_selection_index = 0;
        self.chart_tab_index = 0;
        self.last_checked_blip_name = None;
        self.last_blip_name_exists = false;
        self.settings_selection_index = 0;
        self.settings_editing = false;
        self.settings_input = String::new();
        self.selected_adr_index = 0;
        self.adrs = Vec::new();
        self.adr_filter_name = None;
        self.blip_action_index = 0;
        self.adr_action_index = 0;
        self.edit_adr_state = None;
        self.search_query = String::new();
        self.search_active = false;
        self.filtered_blip_indices = Vec::new();
        self.filtered_adr_indices = Vec::new();
    }

    /// Pauses or resumes the dial animation and says so in the status
    /// line.
    pub fn toggle_animation_pause(&mut self)
        ensures
            final(self).animation_paused == !old(self).animation_paused,
            final(self).animation_paused ==> final(self).status_message@ == "Animation paused"@,
            !final(self).animation_paused ==> final(self).status_message@ == "Animation resumed"@,
            *final(self) == (App {
                animation_paused: final(self).animation_paused,
                status_message: final(self).status_message,
                ..*old(self)
            }),
    {
        self.animation_paused = !self.animation_paused;
        self.status_message = if self.animation_paused {
            String::from_str("Animation paused")
        } else {
            String::from_str("Animation resumed")
        };
    }

    /// Commits the wizard's current input into the draft: the typed name,
    /// or the option under the picker cursor.  An out-of-range picker
    /// position leaves the draft alone and reports an invalid selection;
    /// otherwise the status line is cleared.
    pub fn process_current_input(&mut self)
        ensures
            old(self).input_state == InputState::EnteringTechnology ==> {
                &&& old(self).current_input@.len() > 0 ==> final(self).blip_data.name == old(self).current_input
                &&& old(self).current_input@.len() == 0 ==> final(self).blip_data.name == old(self).blip_data.name
                &&& final(self).status_message@ == Seq::<char>::empty()
                &&& *final(self) == (App {
                    blip_data: final(self).blip_data,
                    status_message: final(self).status_message,
                    ..*old(self)
                })
                &&& final(self).blip_data.ring == old(self).blip_data.ring
                &&& final(self).blip_data.quadrant == old(self).blip_data.quadrant
            },
            old(self).input_state == InputState::ChoosingQuadrant ==> {
                if quadrant_of_index(old(self).quadrant_selection_index as int) is Some {
                    &&& final(self).blip_data.quadrant == quadrant_of_index(
                        old(self).quadrant_selection_index as int,
                    )
                    &&& final(self).status_message@ == Seq::<char>::empty()
                    &&& *final(self) == (App {
                        blip_data: final(self).blip_data,
                        status_message: final(self).status_message,
                        ..*old(self)
                    })
                    &&& final(self).blip_data.name == old(self).blip_data.name
                    &&& final(self).blip_data.ring == old(self).blip_data.ring
                } else {
                    &&& final(self).status_message@ == "Invalid quadrant selection."@
                    &&& *final(self) == (App {
                        status_message: final(self).status_message,
                        ..*old(self)
                    })
                }
            },
            old(self).input_state == InputState::ChoosingRing ==> {
                if ring_of_index(old(self).ring_selection_index as int) is Some {
                    &&& final(self).blip_data.ring == ring_of_index(
                        old(self).ring_selection_index as int,
                    )
                    &&& final(self).status_message@ == Seq::<char>::empty()
                    &&& *final(self) == (App {
                        blip_data: final(self).blip_data,
                        status_message: final(self).status_message,
                        ..*old(self)
                    })
                    &&& final(self).blip_data.name == old(self).blip_data.name
                    &&& final(self).blip_data.quadrant == old(self).blip_data.quadrant
                } else {
                    &&& final(self).status_message@ == "Invalid ring selection."@
                    &&& *final(self) == (App {
                        status_message: final(self).status_message,
                        ..*old(self)
                    })
                }
            },
            old(self).input_state == InputState::ChoosingAdrStatus ==> {
                if adr_status_of_index(old(self).adr_status_selection_index as int) is Some {
                    &&& final(self).adr_status == adr_status_of_index(
                        old(self).adr_status_selection_index as int,
                    )
                    &&& final(self).status_message@ == Seq::<char>::empty()
                    &&& *final(self) == (App {
                        adr_status: final(self).adr_status,
                        status_message: final(self).status_message,
                        ..*old(self)
                    })
                } else {
                    &&& final(self).status_message@ == "Invalid status selection."@
                    &&& *final(self) == (App {
                        status_message: final(self).status_message,
                        ..*old(self)
                    })
                }
            },
            (old(self).input_state == InputState::WaitingForCommand || old(self).input_state
                == InputState::GeneratingFile || old(self).input_state == InputState::Completed)
                ==> {
                &&& final(self).status_message@ == Seq::<char>::empty()
                &&& *final(self) == (App {
                    status_message: final(self).status_message,
                    ..*old(self)
                })
            },
    {
        match self.input_state {
            InputState::EnteringTechnology => {
                if self.current_input.unicode_len() != 0 {
                    self.blip_data.name = self.current_input.clone();
                }
            },
            InputState::ChoosingQuadrant => {
                match Quadrant::from_index(self.quadrant_selection_index) {
                    Some(quadrant) => {
                        self.blip_data.quadrant = Some(quadrant);
                    },
                    None => {
                        self.status_message = String::from_str("Invalid quadrant selection.");
                        return ;
                    },
                }
            },
            InputState::ChoosingRing => {
                match Ring::from_index(self.ring_selection_index) {
                    Some(ring) => {
                        self.blip_data.ring = Some(ring);
                    },
                    None => {
                        self.status_message = String::from_str("Invalid ring selection.");
                        return ;
                    },
                }
            },
            InputState::ChoosingAdrStatus => {
                match AdrStatus::from_index(self.adr_status_selection_index) {
                    Some(status) => {
                        self.adr_status = Some(status);
                    },
                    None => {
                        self.status_message = String::from_str("Invalid status selection.");
                        return ;
                    },
                }
            },
            _ => {},
        }
        self.status_message = String::new();
    }

    /// Moves the wizard to its next state on submit, with the side effects
    /// of entering that state: choosing a kind records it, entering an ADR
    /// name pre-selects the proposed status, pickers start at their first
    /// option, an invalid picker position re-prompts, and acknowledging a
    /// completed entry drops the completion panel.  The typed input is
    /// cleared in every case.
    pub fn advance_state(&mut self)
        ensures
            final(self).input_state == advance_next_state(
                old(self).input_state,
                old(self).input_mode,
                old(self).adr_status_selection_index as int,
                old(self).ring_selection_index as int,
            ),
            final(self).current_input@ == Seq::<char>::empty(),
            old(self).input_state == InputState::WaitingForCommand ==> {
                &&& final(self).input_mode == input_mode_of_index(
                    old(self).input_mode_selection_index as int,
                )
                &&& *final(self) == (App {
                    input_state: final(self).input_state,
                    input_mode: final(self).input_mode,
                    current_input: final(self).current_input,
                    ..*old(self)
                })
            },
            old(self).input_state == InputState::EnteringTechnology ==> {
                if old(self).input_mode == Some(InputMode::Adr) {
                    &&& final(self).adr_status == Some(AdrStatus::Proposed)
                    &&& final(self).adr_status_selection_index == 0
                    &&& *final(self) == (App {
                        input_state: final(self).input_state,
                        adr_status: final(self).adr_status,
                        adr_status_selection_index: 0,
                        current_input: final(self).current_input,
                        ..*old(self)
                    })
                } else {
                    &&& final(self).quadrant_selection_index == 0
                    &&& *final(self) == (App {
                        input_state: final(self).input_state,
                        quadrant_selection_index: 0,
                        current_input: final(self).current_input,
                        ..*old(self)
                    })
                }
            },
            old(self).input_state == InputState::ChoosingAdrStatus ==> {
                if adr_status_of_index(old(self).adr_status_selection_index as int) is Some {
                    &&& final(self).adr_status == adr_status_of_index(
                        old(self).adr_status_selection_index as int,
                    )
                    &&& *final(self) == (App {
                        input_state: final(self).input_state,
                        adr_status: final(self).adr_status,
                        current_input: final(self).current_input,
                        ..*old(self)
                    })
                } else {
                    &&& final(self).status_message@ == "Invalid status selection."@
                    &&& *final(self) == (App {
                        input_state: final(self).input_state,
                        status_message: final(self).status_message,
                        current_input: final(self).current_input,
                        ..*old(self)
                    })
                }
            },
            old(self).input_state == InputState::ChoosingQuadrant ==> {
                &&& final(self).ring_selection_index == 0
                &&& *final(self) == (App {
                    input_state: final(self).input_state,
                    ring_selection_index: 0,
                    current_input: final(self).current_input,
                    ..*old(self)
                })
            },
            old(self).input_state == InputState::ChoosingRing ==> {
                if ring_of_index(old(self).ring_selection_index as int) is Some {
                    &&& final(self).blip_data.ring == ring_of_index(
                        old(self).ring_selection_index as int,
                    )
                    &&& final(self).blip_data.name == old(self).blip_data.name
                    &&& final(self).blip_data.quadrant == old(self).blip_data.quadrant
                    &&& *final(self) == (App {
                        input_state: final(self).input_state,
                        blip_data: final(self).blip_data,
                        current_input: final(self).current_input,
                        ..*old(self)
                    })
                } else {
                    &&& final(self).status_message@ == "Invalid ring selection."@
                    &&& *final(self) == (App {
                        input_state: final(self).input_state,
                        status_message: final(self).status_message,
                        current_input: final(self).current_input,
                        ..*old(self)
                    })
                }
            },
            old(self).input_state == InputState::GeneratingFile ==> *final(self) == (App {
                input_state: final(self).input_state,
                current_input: final(self).current_input,
                ..*old(self)
            }),
            old(self).input_state == InputState::Completed ==> {
                &&& final(self).completion_stats is None
                &&& *final(self) == (App {
                    input_state: final(self).input_state,
                    completion_stats: None,
                    current_input: final(self).current_input,
                    ..*old(self)
                })
            },
    {
        let next = match self.input_state {
            InputState::WaitingForCommand => {
                self.input_mode = match self.input_mode_selection_index {
                    0 => Some(InputMode::Adr),
                    1 => Some(InputMode::Blip),
                    _ => None,
                };
                InputState::EnteringTechnology
            },
            InputState::EnteringTechnology => {
                if self.input_mode == Some(InputMode::Adr) {
                    self.adr_status = Some(AdrStatus::Proposed);
                    self.adr_status_selection_index = 0;
                    InputState::ChoosingAdrStatus
                } else {
                    self.quadrant_selection_index = 0;
                    InputState::ChoosingQuadrant
                }
            },
            InputState::ChoosingAdrStatus => {
                match AdrStatus::from_index(self.adr_status_selection_index) {
                    Some(status) => {
                        self.adr_status = Some(status);
                        InputState::GeneratingFile
                    },
                    None => {
                        self.status_message = String::from_str("Invalid status selection.");
                        InputState::ChoosingAdrStatus
                    },
                }
            },
            InputState::ChoosingQuadrant => {
                self.ring_selection_index = 0;
                InputState::ChoosingRing
            },
            InputState::ChoosingRing => {
                match Ring::from_index(self.ring_selection_index) {
                    Some(ring) => {
                        self.blip_data.ring = Some(ring);
                        InputState::GeneratingFile
                    },
                    None => {
                        self.status_message = String::from_str("Invalid ring selection.");
                        InputState::ChoosingRing
                    },
                }
            },
            InputState::GeneratingFile => InputState::GeneratingFile,
            InputState::Completed => {
                self.completion_stats = None;
                InputState::WaitingForCommand
            },
        };
        self.input_state = next;
        self.current_input = String::new();
    }


    /// Copies the settings fields into the live mirror directories.
    pub fn apply_settings_runtime(&mut self)
        ensures
            final(self).adrs_dir == old(self).settings_adr_dir,
            final(self).blips_dir == old(self).settings_blip_dir,
            *final(self) == (App {
                adrs_dir: final(self).adrs_dir,
                blips_dir: final(self).blips_dir,
                ..*old(self)
            }),
    {
        self.adrs_dir = self.settings_adr_dir.clone();
        self.blips_dir = self.settings_blip_dir.clone();
    }

    /// Upserts the three settings rows from the settings fields.
    pub fn persist_settings(&mut self) -> (r: Result<(), crate::store::StoreError>)
        requires
            old(self).wf(),
        ensures
            final(self).wf(),
            r is Ok,
            final(self).store.blips == old(self).store.blips,
            final(self).store.adrs == old(self).store.adrs,
            *final(self) == (App { store: final(self).store, ..*old(self) }),
    {
        let adr_dir = self.settings_adr_dir.clone();
        match self.store.set_app_setting("ADR_DIR", adr_dir.as_str()) {
            Ok(()) => (),
            Err(e) => {
                return Err(e);
            },
        }
        let blip_dir = self.settings_blip_dir.clone();
        match self.store.set_app_setting("BLIP_DIR", blip_dir.as_str()) {
            Ok(()) => (),
            Err(e) => {
                return Err(e);
            },
        }
        let db_name = self.settings_db_name.clone();
        match self.store.set_app_setting("DATABASE_NAME", db_name.as_str()) {
            Ok(()) => (),
            Err(e) => {
                return Err(e);
            },
        }
        Ok(())
    }

    /// Loads the three settings fields from the settings table, leaving a
    /// field alone when its row is missing, then applies them.
    pub fn load_settings_from_store(&mut self)
        requires
            old(self).wf(),
        ensures
            final(self).wf(),
            (forall|i: int|
                0 <= i < old(self).store.settings@.len() ==> (#[trigger] old(self).store.settings@[i]).0@ != "ADR_DIR"@) ==> final(self).settings_adr_dir == old(self).settings_adr_dir,
            (exists|i: int|
                0 <= i < old(self).store.settings@.len() && (#[trigger] old(self).store.settings@[i]).0@ == "ADR_DIR"@ && final(self).settings_adr_dir@ == old(self).store.settings@[i].1@) || final(self).settings_adr_dir == old(self).settings_adr_dir,
            final(self).adrs_dir == final(self).settings_adr_dir,
            final(self).blips_dir == final(self).settings_blip_dir,
            *final(self) == (App {
                settings_adr_dir: final(self).settings_adr_dir,
                settings_blip_dir: final(self).settings_blip_dir,
                settings_db_name: final(self).settings_db_name,
                adrs_dir: final(self).adrs_dir,
                blips_dir: final(self).blips_dir,
                ..*old(self)
            }),
    {
        match self.store.get_app_setting("ADR_DIR") {
            Some(value) => self.settings_adr_dir = value,
            None => {},
        }
        match self.store.get_app_setting("BLIP_DIR") {
            Some(value) => self.settings_blip_dir = value,
            None => {},
        }
        match self.store.get_app_setting("DATABASE_NAME") {
            Some(value) => self.settings_db_name = value,
            None => {},
        }
        self.apply_settings_runtime();
    }


    /// Rebuilds the completion panel's numbers from the store: the two
    /// totals and the five most recently created blips with their
    /// rendered classification.
    pub fn refresh_completion_stats(&mut self)
        requires
            old(self).wf(),
        ensures
            final(self).wf(),
            final(self).completion_stats is Some,
            final(self).completion_stats.unwrap().total_blips == old(self).store.blips@.len(),
            final(self).completion_stats.unwrap().total_adrs == old(self).store.adrs@.len(),
            final(self).completion_stats.unwrap().recent@.len() == (if 5
                <= old(self).store.blips@.len() {
                5int
            } else {
                old(self).store.blips@.len() as int
            }),
            forall|i: int|
                0 <= i < final(self).completion_stats.unwrap().recent@.len() ==> exists|j: int|
                    0 <= j < old(self).store.blips@.len() && (#[trigger] final(self).completion_stats.unwrap().recent@[i]).name == old(self).store.blips@[j].name
                        && final(self).completion_stats.unwrap().recent@[i].ring@ == (
                    match old(self).store.blips@[j].ring {
                        Some(r) => crate::domain::ring_str(r),
                        None => "(none)"@,
                    }) && final(self).completion_stats.unwrap().recent@[i].quadrant@ == (
                    match old(self).store.blips@[j].quadrant {
                        Some(q) => crate::domain::quadrant_str(q),
                        None => "(none)"@,
                    }),
            *final(self) == (App {
                completion_stats: final(self).completion_stats,
                ..*old(self)
            }),
    {
        let total_blips = self.store.count_blips();
        let total_adrs = self.store.count_adrs();
        let recent = self.store.recent_blips(5);
        let mut rows: Vec<CompletionBlip> = Vec::new();
        let mut i: usize = 0;
        while i < recent.len()
            invariant
                i <= recent@.len(),
                rows@.len() == i,
                forall|k: int| 0 <= k < recent@.len() ==> self.store.blips@.contains(
                    #[trigger] recent@[k],
                ),
                forall|k: int|
                    0 <= k < i ==> (#[trigger] rows@[k]).name == recent@[k].name && rows@[k].ring@
                        == (match recent@[k].ring {
                        Some(r) => crate::domain::ring_str(r),
                        None => "(none)"@,
                    }) && rows@[k].quadrant@ == (match recent@[k].quadrant {
                        Some(q) => crate::domain::quadrant_str(q),
                        None => "(none)"@,
                    }),
            decreases recent@.len() - i,
        {
            let ring_text = match recent[i].ring {
                Some(r) => String::from_str(r.as_str()),
                None => String::from_str("(none)"),
            };
            let quadrant_text = match recent[i].quadrant {
                Some(q) => String::from_str(q.as_str()),
                None => String::from_str("(none)"),
            };
            let row = CompletionBlip {
                name: recent[i].name.clone(),
                ring: ring_text,
                quadrant: quadrant_text,
            };
            rows.push(row);
            i += 1;
        }
        proof {
            assert forall|k: int|
                0 <= k < rows@.len() implies exists|j: int|
                    0 <= j < self.store.blips@.len() && (#[trigger] rows@[k]).name
                        == self.store.blips@[j].name && rows@[k].ring@ == (
                    match self.store.blips@[j].ring {
                        Some(r) => crate::domain::ring_str(r),
                        None => "(none)"@,
                    }) && rows@[k].quadrant@ == (match self.store.blips@[j].quadrant {
                        Some(q) => crate::domain::quadrant_str(q),
                        None => "(none)"@,
                    }) by {
                assert(self.store.blips@.contains(recent@[k]));
                let j = choose|j: int|
                    0 <= j < self.store.blips@.len() && self.store.blips@[j] == recent@[k];
                assert(rows@[k].name == self.store.blips@[j].name);
            }
        }
        self.completion_stats = Some(
            CompletionStats { total_blips, total_adrs, recent: rows },
        );
    }

    /// Rebuilds the open blip edit form from the freshly loaded row, so
    /// that further edits start from store-confirmed values, and points it
    /// at the save action.  Without the row or an open form nothing
    /// changes.
    #[verifier::loop_isolation(false)]
    pub fn refresh_edit_blip_state(&mut self, blip_id: i32)
        requires
            old(self).wf(),
        ensures
            final(self).wf(),
            *final(self) == (App { edit_blip_state: final(self).edit_blip_state, ..*old(self) }),
            !crate::store::has_blip_id(old(self).blips@, blip_id as int) || old(self).edit_blip_state is None ==> final(self).edit_blip_state == old(self).edit_blip_state,
            crate::store::has_blip_id(old(self).blips@, blip_id as int) && old(self).edit_blip_state is Some ==> {
                let b = old(self).blips@[crate::store::blip_index_of(
                    old(self).blips@,
                    blip_id as int,
                )];
                &&& final(self).edit_blip_state is Some
                &&& edit_form_matches(final(self).edit_blip_state.unwrap(), b)
                &&& final(self).edit_blip_state.unwrap().field == EditField::Save
            },
    {
        let mut i: usize = 0;
        while i < self.blips.len()
            invariant
                *self == *old(self),
                i <= self.blips@.len(),
                forall|k: int| 0 <= k < i ==> self.blips@[k].id != blip_id,
            decreases self.blips@.len() - i,
        {
            if self.blips[i].id == blip_id {
                proof {
                    crate::store::lemma_blip_index_of(self.blips@, blip_id as int);
                    assert(crate::store::has_blip_id(self.blips@, blip_id as int)) by {
                        assert(self.blips@[i as int].id == blip_id);
                    }
                    let idx = crate::store::blip_index_of(self.blips@, blip_id as int);
                    assert(idx == i as int) by {
                        if idx < i as int {
                            assert(self.blips@[idx].id != blip_id);
                        }
                        if (i as int) < idx {
                            assert(self.blips@[i as int].id != blip_id);
                        }
                    }
                }
                if self.edit_blip_state.is_some() {
                    let mut form = EditBlipState::from_blip(&self.blips[i]);
                    form.field = EditField::Save;
                    self.edit_blip_state = Some(form);
                }
                return ;
            }
            i += 1;
        }
        proof {
            crate::store::lemma_blip_index_of(self.blips@, blip_id as int);
        }
    }

    /// Rebuilds the open ADR edit form from the freshly loaded row and
    /// points it at the save action.  Without the row or an open form
    /// nothing changes.
    #[verifier::loop_isolation(false)]
    pub fn refresh_edit_adr_state(&mut self, adr_id: i32)
        requires
            old(self).wf(),
        ensures
            final(self).wf(),
            *final(self) == (App { edit_adr_state: final(self).edit_adr_state, ..*old(self) }),
            !crate::store::has_adr_id(old(self).adrs@, adr_id as int) || old(self).edit_adr_state is None ==> final(self).edit_adr_state == old(self).edit_adr_state,
            crate::store::has_adr_id(old(self).adrs@, adr_id as int) && old(self).edit_adr_state is Some ==> {
                let a = old(self).adrs@[crate::store::adr_index_of(
                    old(self).adrs@,
                    adr_id as int,
                )];
                &&& final(self).edit_adr_state is Some
                &&& final(self).edit_adr_state.unwrap().id == a.id
                &&& final(self).edit_adr_state.unwrap().title == a.title
                &&& final(self).edit_adr_state.unwrap().status == (match adr_status_of_str(
                    lower_of(trim_of(a.status@)),
                ) {
                    Some(st) => st,
                    None => AdrStatus::Proposed,
                })
                &&& final(self).edit_adr_state.unwrap().field == AdrEditField::Save
                &&& final(self).edit_adr_state.unwrap().editing == old(self).edit_adr_state.unwrap().editing
            },
    {
        let mut i: usize = 0;
        while i < self.adrs.len()
            invariant
                *self == *old(self),
                i <= self.adrs@.len(),
                forall|k: int| 0 <= k < i ==> self.adrs@[k].id != adr_id,
            decreases self.adrs@.len() - i,
        {
            if self.adrs[i].id == adr_id {
                proof {
                    crate::store::lemma_adr_index_of(self.adrs@, adr_id as int);
                    assert(crate::store::has_adr_id(self.adrs@, adr_id as int)) by {
                        assert(self.adrs@[i as int].id == adr_id);
                    }
                    let idx = crate::store::adr_index_of(self.adrs@, adr_id as int);
                    assert(idx == i as int) by {
                        if idx < i as int {
                            assert(self.adrs@[idx].id != adr_id);
                        }
                        if (i as int) < idx {
                            assert(self.adrs@[i as int].id != adr_id);
                        }
                    }
                }
                let status = match AdrStatus::parse(self.adrs[i].status.as_str()) {
                    Some(st) => st,
                    None => AdrStatus::Proposed,
                };
                let title = self.adrs[i].title.clone();
                let id = self.adrs[i].id;
                if let Some(edit_state) = &mut self.edit_adr_state {
                    edit_state.id = id;
                    edit_state.title = title;
                    edit_state.status = status;
                    edit_state.field = AdrEditField::Save;
                }
                return ;
            }
            i += 1;
        }
        proof {
            crate::store::lemma_adr_index_of(self.adrs@, adr_id as int);
        }
    }
}

} // verus!
