use vstd::prelude::*;

verus! {

/// One of the three actions offered when the user asks to leave.
#[derive(Debug, Clone, Copy, PartialEq, Eq, Structural)]
pub enum PopupButton {
    Cancel,
    ExitWithoutSaving,
    ExitWithSave,
}

/// The caption shown on a button.
pub open spec fn button_label(b: PopupButton) -> Seq<char> {
    match b {
        PopupButton::Cancel => "Cancel"@,
        PopupButton::ExitWithoutSaving => "Exit"@,
        PopupButton::ExitWithSave => "Save"@,
    }
}

/// The button at a given position of the dialog, left to right.
pub open spec fn button_at(i: int) -> PopupButton {
    if i == 0 {
        PopupButton::Cancel
    } else if i == 1 {
        PopupButton::ExitWithoutSaving
    } else {
        PopupButton::ExitWithSave
    }
}

impl PopupButton {
    pub fn label(&self) -> (r: &'static str)
        ensures
            r@ == button_label(*self),
    {
        match self {
            PopupButton::Cancel => "Cancel",
            PopupButton::ExitWithoutSaving => "Exit",
            PopupButton::ExitWithSave => "Save",
        }
    }
}

/// Number of buttons in the exit dialog.
pub const BUTTON_COUNT: usize = 3;

/// Selection state of the exit-confirmation dialog.
pub struct Popup {
    selected_button_index: usize,
    buttons: Vec<PopupButton>,
}

impl View for Popup {
    /// Position of the selected button, left to right.
    type V = nat;

    closed spec fn view(&self) -> nat {
        self.selected_button_index as nat
    }
}

impl Popup {
    /// The selection is a valid position and the buttons stand in their fixed order.
    pub closed spec fn wf(&self) -> bool {
        &&& self.selected_button_index < BUTTON_COUNT
        &&& self.buttons@ == seq![
            PopupButton::Cancel,
            PopupButton::ExitWithoutSaving,
            PopupButton::ExitWithSave,
        ]
    }

    pub fn new() -> (r: Popup)
        ensures
            r.wf(),
            r@ == 0,
    {
        Popup {
            selected_button_index: 0,
            buttons: vec![
                PopupButton::Cancel,
                PopupButton::ExitWithoutSaving,
                PopupButton::ExitWithSave,
            ],
        }
    }

    /// Moves the selection one button to the right, wrapping to the first.
    pub fn next_button(&mut self)
        requires
            old(self).wf(),
        ensures
            final(self).wf(),
            final(self)@ == (old(self)@ + 1) % 3,
    {
        self.selected_button_index = (self.selected_button_index + 1) % BUTTON_COUNT;
    }

    /// Moves the selection one button to the left, wrapping to the last.
    pub fn previous_button(&mut self)
        requires
            old(self).wf(),
        ensures
            final(self).wf(),
            final(self)@ == (old(self)@ + 2) % 3,
    {
        if self.selected_button_index == 0 {
            self.selected_button_index = BUTTON_COUNT - 1;
        } else {
            self.selected_button_index -= 1;
        }
    }

    /// The button that is currently selected.
    pub fn select_button(&self) -> (r: PopupButton)
        requires
            self.wf(),
        ensures
            r == button_at(self@ as int),
    {
        if self.selected_button_index == 0 {
            PopupButton::Cancel
        } else if self.selected_button_index == 1 {
            PopupButton::ExitWithoutSaving
        } else {
            PopupButton::ExitWithSave
        }
    }

    /// Position of the selected button, for drawing.
    pub fn selected_index(&self) -> (r: usize)
        ensures
            r == self@,
    {
        self.selected_button_index
    }

    /// The buttons, left to right, for drawing.
    pub fn buttons(&self) -> (r: &Vec<PopupButton>)
        requires
            self.wf(),
        ensures
            r@.len() == BUTTON_COUNT,
            forall|i: int| 0 <= i < BUTTON_COUNT ==> r@[i] == button_at(i),
    {
        &self.buttons
    }
}

/// A well-formed dialog selects one of its buttons.
pub proof fn lemma_selection_in_range(p: &Popup)
    requires
        p.wf(),
    ensures
        p@ < BUTTON_COUNT,
{
}

/// Three steps forward bring the selection back to where it started.
pub proof fn lemma_next_three_times(p: Popup, n1: Popup, n2: Popup, n3: Popup)
    requires
        p.wf(),
        n1@ == (p@ + 1) % 3,
        n2@ == (n1@ + 1) % 3,
        n3@ == (n2@ + 1) % 3,
    ensures
        n3@ == p@,
{
}

/// Three steps back bring the selection back to where it started.
pub proof fn lemma_previous_three_times(p: Popup, n1: Popup, n2: Popup, n3: Popup)
    requires
        p.wf(),
        n1@ == (p@ + 2) % 3,
        n2@ == (n1@ + 2) % 3,
        n3@ == (n2@ + 2) % 3,
    ensures
        n3@ == p@,
{
}

} // verus!
