//! The charge editor's decisions: which editing mode is active, and what
//! each mode does to the charge list.  Placement, dragging and velocity
//! edits address charges by their index in the list, so every operation
//! here keeps every other charge at its index.

use vstd::prelude::*;
use crate::charge::{Charge, Charges};
use crate::fixed::Fx;
use crate::vec2::{Vec2, div2, sub2};

verus! {

/// What the editor currently does with mouse input.
#[derive(Clone, Copy, PartialEq, Eq, Structural, Debug)]
pub enum Mode {
    Idle,
    Create,
    Move,
    Velocity,
    Charge,
}

/// The editing mode that the button with the given id selects.
pub open spec fn mode_for_button(id: int) -> Mode {
    if id == 0 {
        Mode::Create
    } else if id == 1 {
        Mode::Move
    } else if id == 2 {
        Mode::Velocity
    } else if id == 3 {
        Mode::Charge
    } else {
        Mode::Idle
    }
}

/// The editor's own state: the active mode and the charge a velocity edit
/// is holding on to.
pub struct EditorState {
    pub mode: Mode,
    pub cur_charge_index: Option<usize>,
}

impl EditorState {
    /// A fresh editor: no mode active, no charge held.
    pub fn new() -> (r: EditorState)
        ensures
            r.mode == Mode::Idle,
            r.cur_charge_index == Option::<usize>::None,
    {
        EditorState { mode: Mode::Idle, cur_charge_index: None }
    }
}

/// Adopt the mode of the currently pressed button of the mode group, if
/// one is pressed; an empty selection changes nothing.
pub fn update_editor_mode(editor_state: &mut EditorState, cur_button: Option<usize>)
    ensures
        final(editor_state).cur_charge_index == old(editor_state).cur_charge_index,
        match cur_button {
            Some(id) => final(editor_state).mode == mode_for_button(id as int),
            None => final(editor_state).mode == old(editor_state).mode,
        },
{
    if let Some(cur_mode_id) = cur_button {
        let mut mode = Mode::Idle;
        if cur_mode_id == 0 {
            mode = Mode::Create;
        } else if cur_mode_id == 1 {
            mode = Mode::Move;
        } else if cur_mode_id == 2 {
            mode = Mode::Velocity;
        } else if cur_mode_id == 3 {
            mode = Mode::Charge;
        }
        editor_state.mode = mode;
    }
}

/// Whether charge placement is active.
pub fn if_create_charge(editor_state: &EditorState) -> (r: bool)
    ensures
        r == (editor_state.mode == Mode::Create),
{
    matches!(editor_state.mode, Mode::Create)
}

/// Whether charge dragging is active.
pub fn if_move_charge(editor_state: &EditorState) -> (r: bool)
    ensures
        r == (editor_state.mode == Mode::Move),
{
    matches!(editor_state.mode, Mode::Move)
}

/// Whether velocity editing is active.
pub fn if_edit_velocity(editor_state: &EditorState) -> (r: bool)
    ensures
        r == (editor_state.mode == Mode::Velocity),
{
    matches!(editor_state.mode, Mode::Velocity)
}

/// Whether charge-magnitude editing is active.
pub fn if_edit_charge(editor_state: &EditorState) -> (r: bool)
    ensures
        r == (editor_state.mode == Mode::Charge),
{
    matches!(editor_state.mode, Mode::Charge)
}

/// Place a new unit charge at rest where the mouse points, scaled from
/// screen to world coordinates; it is appended, so every existing index
/// stays valid, and the new charge's id is returned.
pub fn create_charge(charges: &mut Charges, world_pos: Vec2, scale: Fx) -> (id: usize)
    requires
        scale@ > 0,
        old(charges).charges@.len() < usize::MAX,
    ensures
        id == old(charges).charges@.len(),
        final(charges).charges@.len() == old(charges).charges@.len() + 1,
        forall|j: int| 0 <= j < old(charges).charges@.len()
            ==> #[trigger] final(charges).charges@[j] == old(charges).charges@[j],
        final(charges).charges@[id as int].q@ == crate::fixed::SCALE as int,
        final(charges).charges@[id as int].p@ == div2(world_pos@, scale@),
        final(charges).charges@[id as int].v@ == (0int, 0int),
{
    let id = charges.charges.len();
    let pos = world_pos.div_scalar(scale);
    charges.charges.push(Charge::new(Fx::one(), pos, Vec2::zero()));
    id
}

/// Drag the charge with the given id to where the mouse points, scaled
/// from screen to world coordinates.  Only that charge's position changes.
pub fn move_charge(charges: &mut Charges, id: usize, world_pos: Vec2, scale: Fx)
    requires
        scale@ > 0,
        id < old(charges).charges@.len(),
    ensures
        final(charges).charges@.len() == old(charges).charges@.len(),
        forall|j: int| 0 <= j < old(charges).charges@.len() && j != id
            ==> #[trigger] final(charges).charges@[j] == old(charges).charges@[j],
        final(charges).charges@[id as int].q == old(charges).charges@[id as int].q,
        final(charges).charges@[id as int].v == old(charges).charges@[id as int].v,
        final(charges).charges@[id as int].p@ == div2(world_pos@, scale@),
{
    let c = charges.charges[id];
    let pos = world_pos.div_scalar(scale);
    charges.charges[id] = Charge::new(c.q, pos, c.v);
}

/// Point the velocity arrow of the charge with the given id at the mouse:
/// its new velocity is the offset from the charge's on-screen position to
/// the mouse, scaled from screen to world units.  Only that charge's
/// velocity changes.
pub fn edit_velocity(charges: &mut Charges, id: usize, mouse_world_pos: Vec2, charge_pos: Vec2,
    scale: Fx)
    requires
        scale@ > 0,
        id < old(charges).charges@.len(),
    ensures
        final(charges).charges@.len() == old(charges).charges@.len(),
        forall|j: int| 0 <= j < old(charges).charges@.len() && j != id
            ==> #[trigger] final(charges).charges@[j] == old(charges).charges@[j],
        final(charges).charges@[id as int].q == old(charges).charges@[id as int].q,
        final(charges).charges@[id as int].p == old(charges).charges@[id as int].p,
        final(charges).charges@[id as int].v@
            == div2(sub2(mouse_world_pos@, charge_pos@), scale@),
{
    let c = charges.charges[id];
    let vel = mouse_world_pos.sub(charge_pos).div_scalar(scale);
    charges.charges[id] = Charge::new(c.q, c.p, vel);
}

/// The charge-magnitude mode: selecting it has no further action.
pub fn edit_charge() {
}

} // verus!
