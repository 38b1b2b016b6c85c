//! Pure helpers of the rendering layer: where a table scrolls to keep the
//! selection visible, and the wizard's prompt line.

use vstd::prelude::*;

use crate::state::InputState;

verus! {

/// The first visible row of a table: zero while everything fits, else far
/// enough down that the selected row stays on screen.
pub fn scroll_offset(total_rows: usize, max_visible_rows: usize, selected_index: usize) -> (r:
    usize)
    requires
        max_visible_rows == 0 ==> selected_index < usize::MAX,
    ensures
        total_rows <= max_visible_rows ==> r == 0,
        total_rows > max_visible_rows && selected_index >= max_visible_rows ==> r == selected_index
            - max_visible_rows + 1,
        total_rows > max_visible_rows && selected_index < max_visible_rows ==> r
            == selected_index,
{
    if total_rows <= max_visible_rows {
        return 0;
    }
    if selected_index >= max_visible_rows {
        return selected_index - max_visible_rows + 1;
    }
    selected_index
}

/// The prompt shown above the wizard's input area.
pub open spec fn prompt_line_of(state: InputState) -> Seq<char> {
    match state {
        InputState::WaitingForCommand => "Select entry type (Use Left/Right and Enter)"@,
        InputState::EnteringTechnology => "Enter technology name:"@,
        InputState::ChoosingAdrStatus => "Choose ADR status (Use Up/Down and Enter):"@,
        InputState::ChoosingQuadrant => "Choose quadrant (Use Up/Down and Enter):"@,
        InputState::ChoosingRing => "Choose ring (Use Up/Down and Enter):"@,
        InputState::GeneratingFile => "Generating file... Please wait"@,
        InputState::Completed => "File generated! Press 'n' for new entry or 'q' to quit"@,
    }
}

pub fn prompt_line(state: &InputState) -> (r: &'static str)
    ensures
        r@ == prompt_line_of(*state),
{
    match state {
        InputState::WaitingForCommand => "Select entry type (Use Left/Right and Enter)",
        InputState::EnteringTechnology => "Enter technology name:",
        InputState::ChoosingAdrStatus => "Choose ADR status (Use Up/Down and Enter):",
        InputState::ChoosingQuadrant => "Choose quadrant (Use Up/Down and Enter):",
        InputState::ChoosingRing => "Choose ring (Use Up/Down and Enter):",
        InputState::GeneratingFile => "Generating file... Please wait",
        InputState::Completed => "File generated! Press 'n' for new entry or 'q' to quit",
    }
}

} // verus!
