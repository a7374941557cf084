//! The decisions behind the editor's buttons: which label a button shows
//! in each state, and which button of a group counts as pressed.  Drawing
//! the buttons is the presentation layer's business.

use vstd::prelude::*;

verus! {

/// The visual state a button is in.
#[derive(Clone, Copy, PartialEq, Eq, Structural, Debug)]
pub enum CosmeticState {
    Pressed,
    Hovered,
    Normal,
}

/// A button's display data: its state and one optional label per state.
pub struct ButtonMeta {
    pub cosmetic_state: CosmeticState,
    pub normal_text: Option<String>,
    pub hover_text: Option<String>,
    pub pressed_text: Option<String>,
}

/// The label a button shows: the one of its current cosmetic state.
pub fn display_text(meta: &ButtonMeta) -> (r: &Option<String>)
    ensures
        *r == match meta.cosmetic_state {
            CosmeticState::Pressed => meta.pressed_text,
            CosmeticState::Hovered => meta.hover_text,
            CosmeticState::Normal => meta.normal_text,
        },
{
    match meta.cosmetic_state {
        CosmeticState::Pressed => &meta.pressed_text,
        CosmeticState::Hovered => &meta.hover_text,
        CosmeticState::Normal => &meta.normal_text,
    }
}

/// Handle of the button with the given id inside its group.
#[derive(Clone, Copy, PartialEq, Eq, Structural, Debug)]
pub struct GroupedButton {
    pub id: usize,
}

/// A group of buttons of which at most one is current.
pub struct ButtonGroup {
    pub cur_button: Option<usize>,
    pub button_ids: Vec<usize>,
}

impl ButtonGroup {
    /// Build a group over the given button ids.
    pub fn new(cur_button: Option<usize>, button_ids: Vec<usize>) -> (r: ButtonGroup)
        ensures
            r.cur_button == cur_button,
            r.button_ids@ == button_ids@,
    {
        ButtonGroup { cur_button, button_ids }
    }

    /// Make the given button the group's current one (or none).
    pub fn set_cur_button(&mut self, cur_button: Option<usize>)
        ensures
            final(self).cur_button == cur_button,
            final(self).button_ids@ == old(self).button_ids@,
    {
        self.cur_button = cur_button;
    }
}

/// The current button after walking the group's buttons in order and
/// adopting each of the first `k` that is pressed; the last pressed one
/// wins, and with none pressed the selection stands.
pub open spec fn group_selection(ids: Seq<usize>, pressed: Seq<bool>, init: Option<usize>, k: int)
    -> Option<usize>
    decreases k,
{
    if k <= 0 {
        init
    } else {
        let prev = group_selection(ids, pressed, init, k - 1);
        if pressed[k - 1] {
            Some(ids[k - 1])
        } else {
            prev
        }
    }
}

/// Adopt every pressed button of the group as current, in button order,
/// so the last pressed one wins; `pressed` runs parallel to the group's
/// buttons.
pub fn update_grouped_button(group: &mut ButtonGroup, pressed: &Vec<bool>)
    requires
        pressed@.len() == old(group).button_ids@.len(),
    ensures
        final(group).button_ids@ == old(group).button_ids@,
        final(group).cur_button == group_selection(old(group).button_ids@, pressed@,
            old(group).cur_button, pressed@.len() as int),
{
    let ghost ids = group.button_ids@;
    let ghost init = group.cur_button;
    let n = pressed.len();
    for i in 0..n
        invariant
            n == pressed@.len(),
            group.button_ids@ == ids,
            n == ids.len(),
            group.cur_button == group_selection(ids, pressed@, init, i as int),
    {
        if pressed[i] {
            let id = group.button_ids[i];
            group.set_cur_button(Some(id));
        }
    }
}

/// The cosmetic state a grouped button takes: pressed exactly when it is
/// the group's current button, plain otherwise.
pub fn cosmetic_for(button_id: usize, cur_button: Option<usize>) -> (r: CosmeticState)
    ensures
        r == (if cur_button == Some(button_id) {
            CosmeticState::Pressed
        } else {
            CosmeticState::Normal
        }),
{
    match cur_button {
        Some(cur) => {
            if cur == button_id {
                CosmeticState::Pressed
            } else {
                CosmeticState::Normal
            }
        },
        None => CosmeticState::Normal,
    }
}

} // verus!
