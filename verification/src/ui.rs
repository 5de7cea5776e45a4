//! What the parameter panel remembers between frames.

use vstd::prelude::*;

verus! {

/// The state of the parameter panel.
#[derive(Clone, Copy, Debug, PartialEq, Eq)]
pub struct UiState {
    /// Whether the panel is drawn.
    pub show_ui: bool,
    /// Zero for the checkerboard, one for the star field.
    pub background_mode: u32,
    pub disk_enabled: bool,
    /// Index of the body whose parameters the panel shows.
    pub selected_body: usize,
}

impl Default for UiState {
    fn default() -> (s: UiState)
        ensures
            s.show_ui,
            s.background_mode == 1,
            s.disk_enabled,
            s.selected_body == 0,
    {
        UiState { show_ui: true, background_mode: 1, disk_enabled: true, selected_body: 0 }
    }
}

/// The selection that is shown among `num_bodies` bodies: the selected
/// index where it names a body, else the first body.
pub open spec fn valid_selection(selected: usize, num_bodies: usize) -> usize {
    if selected >= num_bodies {
        0
    } else {
        selected
    }
}

impl UiState {
    /// Shows the panel if it was hidden and hides it if it was shown.
    pub fn toggle_ui(&mut self)
        ensures
            *final(self) == (UiState { show_ui: !old(self).show_ui, ..*old(self) }),
    {
        self.show_ui = !self.show_ui;
    }

    /// Moves the selection back to the first body where it names none of
    /// the `num_bodies` bodies, and returns it.
    pub fn clamp_selection(&mut self, num_bodies: usize) -> (selected: usize)
        ensures
            selected == valid_selection(old(self).selected_body, num_bodies),
            *final(self) == (UiState { selected_body: selected, ..*old(self) }),
            num_bodies > 0 ==> selected < num_bodies,
    {
        if self.selected_body >= num_bodies {
            self.selected_body = 0;
        }
        self.selected_body
    }
}

} // verus!
