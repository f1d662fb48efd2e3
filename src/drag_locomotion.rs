use vstd::prelude::*;

use crate::geometry::{fits_i64, vec_add, vec_sub, vec_zero, Vector3};

verus! {

/// Squeeze values are fixed-point fractions of full grip travel:
/// `SQUEEZE_FULL` stands for a fully pressed grip, `0` for a released one.
pub const SQUEEZE_FULL: u32 = 16777216;

/// A grip counts as engaged when its squeeze is strictly above half travel.
pub const SQUEEZE_HALF: u32 = 8388608;

/// One of the two hand controllers.
#[derive(Clone, Copy, Debug, PartialEq, Eq, Structural)]
pub enum Hand {
    Left,
    Right,
}

/// Feature toggles of drag locomotion.  Only `allow_rotation` and
/// `allow_scale` are read, and only to derive gestures that have no effect yet.
#[derive(Clone, Copy, Debug, PartialEq, Eq, Structural)]
pub struct DragLocomotionConfig {
    pub allow_rotation: bool,
    pub allow_scale: bool,
    pub allow_up_down: bool,
}

impl Default for DragLocomotionConfig {
    fn default() -> (r: Self)
        ensures
            r.allow_rotation && r.allow_scale && r.allow_up_down,
    {
        DragLocomotionConfig { allow_rotation: true, allow_scale: true, allow_up_down: true }
    }
}

/// What one controller reports for the current frame.
#[derive(Clone, Copy, Debug, PartialEq, Eq, Structural)]
pub struct HandSample {
    /// Grip trigger travel, in units of `1 / SQUEEZE_FULL`.
    pub squeeze: u32,
    /// Position of the grip pose.
    pub grip_position: Vector3,
}

/// Both controllers, captured once per tick.
#[derive(Clone, Copy, Debug, PartialEq, Eq, Structural)]
pub struct ControllerSnapshot {
    pub left: HandSample,
    pub right: HandSample,
}

pub open spec fn is_squeezed(squeeze: u32) -> bool {
    squeeze > SQUEEZE_HALF
}

impl ControllerSnapshot {
    pub open spec fn sample(&self, hand: Hand) -> HandSample {
        match hand {
            Hand::Left => self.left,
            Hand::Right => self.right,
        }
    }

    /// The hand that drags this tick: the right one whenever it is squeezed,
    /// else the left one if it is squeezed, else none.
    pub open spec fn dragging_hand_spec(&self) -> Option<Hand> {
        if is_squeezed(self.right.squeeze) {
            Some(Hand::Right)
        } else if is_squeezed(self.left.squeeze) {
            Some(Hand::Left)
        } else {
            None
        }
    }

    pub fn squeeze(&self, hand: Hand) -> (r: u32)
        ensures
            r == self.sample(hand).squeeze,
    {
        match hand {
            Hand::Left => self.left.squeeze,
            Hand::Right => self.right.squeeze,
        }
    }

    pub fn grip_position(&self, hand: Hand) -> (r: Vector3)
        ensures
            r == self.sample(hand).grip_position,
    {
        match hand {
            Hand::Left => self.left.grip_position,
            Hand::Right => self.right.grip_position,
        }
    }

    pub fn is_squeezed(&self, hand: Hand) -> (r: bool)
        ensures
            r == is_squeezed(self.sample(hand).squeeze),
    {
        self.squeeze(hand) > SQUEEZE_HALF
    }

    /// Selects the dragging hand, giving the right hand priority.
    pub fn dragging_hand(&self) -> (r: Option<Hand>)
        ensures
            r == self.dragging_hand_spec(),
    {
        if self.is_squeezed(Hand::Right) {
            Some(Hand::Right)
        } else if self.is_squeezed(Hand::Left) {
            Some(Hand::Left)
        } else {
            None
        }
    }
}

/// The gestures a tick asks for.  Rotation and scale are derived but not
/// acted upon.
#[derive(Clone, Copy, Debug, PartialEq, Eq, Structural)]
pub struct GestureIntent {
    pub translate: bool,
    pub rotate: bool,
    pub scale: bool,
}

pub fn gesture_intent(config: &DragLocomotionConfig, controller: &ControllerSnapshot) -> (r:
    GestureIntent)
    ensures
        r.translate == (is_squeezed(controller.left.squeeze) || is_squeezed(
            controller.right.squeeze,
        )),
        r.rotate == (is_squeezed(controller.left.squeeze) && is_squeezed(controller.right.squeeze)
            && config.allow_rotation),
        r.scale == (is_squeezed(controller.left.squeeze) && is_squeezed(controller.right.squeeze)
            && config.allow_scale),
{
    let left_squeezed = controller.is_squeezed(Hand::Left);
    let right_squeezed = controller.is_squeezed(Hand::Right);
    let both_squeezed = left_squeezed && right_squeezed;
    GestureIntent {
        translate: left_squeezed || right_squeezed,
        rotate: both_squeezed && config.allow_rotation,
        scale: both_squeezed && config.allow_scale,
    }
}

/// Drag continuity kept from one tick to the next by its owner.
#[derive(Clone, Copy, Debug)]
pub struct DragLocomotionState {
    /// The dragging hand and its grip position at the last tick that dragged.
    /// Releasing every grip leaves it as it was.
    pub drag_last: Option<(Hand, Vector3)>,
    /// Reserved for rotation locomotion; never read or written.
    pub rotation_start: Option<(Vector3, Vector3)>,
    /// Reserved for scale locomotion; never read or written.
    pub scale_start: Option<u32>,
}

impl DragLocomotionState {
    pub fn new() -> (r: DragLocomotionState)
        ensures
            r.drag_last.is_none(),
            r.rotation_start.is_none(),
            r.scale_start.is_none(),
    {
        DragLocomotionState { drag_last: None, rotation_start: None, scale_start: None }
    }
}

impl Default for DragLocomotionState {
    fn default() -> (r: Self)
        ensures
            r.drag_last.is_none(),
            r.rotation_start.is_none(),
            r.scale_start.is_none(),
    {
        DragLocomotionState::new()
    }
}

/// Motion contributed by dragging with `hand` at `position`: the displacement
/// since the last recorded grip position when that was the same hand, zero
/// when the drag starts or changes hands.
pub open spec fn drag_delta(last: Option<(Hand, Vector3)>, hand: Hand, position: Vector3) -> (int,
    int, int) {
    match last {
        Some((last_hand, start)) => if last_hand == hand {
            vec_sub(position@, start@)
        } else {
            vec_zero()
        },
        None => vec_zero(),
    }
}

/// The translation a tick applies to the tracking root.
pub open spec fn applied_delta(state: DragLocomotionState, controller: ControllerSnapshot) -> (int,
    int, int) {
    match controller.dragging_hand_spec() {
        Some(hand) => drag_delta(state.drag_last, hand, controller.sample(hand).grip_position),
        None => vec_zero(),
    }
}

/// The drag state after a tick that found its configuration and one root.
pub open spec fn next_state(state: DragLocomotionState, controller: ControllerSnapshot)
    -> DragLocomotionState {
    match controller.dragging_hand_spec() {
        Some(hand) => DragLocomotionState {
            drag_last: Some((hand, controller.sample(hand).grip_position)),
            ..state
        },
        None => state,
    }
}

/// Whether a tick's arithmetic stays within `i64`: the drag displacement, and
/// the root translation after it is applied.
pub open spec fn tick_in_range(
    state: DragLocomotionState,
    controller: ControllerSnapshot,
    translation: Vector3,
) -> bool {
    fits_i64(applied_delta(state, controller)) && fits_i64(
        vec_add(translation@, applied_delta(state, controller)),
    )
}

/// How the tracking roots resolve to the one root that locomotion moves.
#[derive(Clone, Copy, Debug, PartialEq, Eq, Structural)]
pub enum RootLookup {
    ExactlyOne(usize),
    Zero,
    MultipleFound,
}

pub fn find_single_root(roots: &Vec<Vector3>) -> (r: RootLookup)
    ensures
        roots@.len() == 0 <==> r == RootLookup::Zero,
        roots@.len() == 1 <==> r == RootLookup::ExactlyOne(0),
        roots@.len() > 1 <==> r == RootLookup::MultipleFound,
{
    if roots.len() == 0 {
        RootLookup::Zero
    } else if roots.len() == 1 {
        RootLookup::ExactlyOne(0)
    } else {
        RootLookup::MultipleFound
    }
}

/// What a tick did.
#[derive(Clone, Copy, Debug, PartialEq, Eq, Structural)]
pub enum TickOutcome {
    /// No configuration: nothing was done.
    MissingConfig,
    /// Zero or several tracking roots: nothing was done.
    AmbiguousRoot,
    /// No grip was engaged: nothing moved and the drag state was kept.
    Idle,
    /// `hand` dragged and the root was translated by `delta`.
    Dragged { hand: Hand, delta: Vector3 },
}

impl TickOutcome {
    /// The diagnostic line a skipped tick reports, if any.
    pub fn diagnostic(&self) -> (r: Option<&'static str>)
        ensures
            *self == TickOutcome::MissingConfig ==> r == Some("no locomotion config"),
            *self == TickOutcome::AmbiguousRoot ==> r == Some("too many tracking roots"),
            !(*self == TickOutcome::MissingConfig || *self == TickOutcome::AmbiguousRoot)
                ==> r.is_none(),
    {
        match self {
            TickOutcome::MissingConfig => Some("no locomotion config"),
            TickOutcome::AmbiguousRoot => Some("too many tracking roots"),
            _ => None,
        }
    }
}

/// Whether a tick with one root reports `outcome`.
pub open spec fn reports(outcome: TickOutcome, state: DragLocomotionState, controller: ControllerSnapshot) -> bool {
    match controller.dragging_hand_spec() {
        Some(hand) => match outcome {
            TickOutcome::Dragged { hand: h, delta } => h == hand && delta@ == applied_delta(
                state,
                controller,
            ),
            _ => false,
        },
        None => outcome == TickOutcome::Idle,
    }
}

/// Whether `drag_locomotion` can run this tick without leaving `i64`.
pub fn tick_fits(state: &DragLocomotionState, controller: &ControllerSnapshot, roots: &Vec<Vector3>) -> (r: bool)
    ensures
        r == (roots@.len() == 1 ==> tick_in_range(*state, *controller, roots@[0])),
{
    if roots.len() != 1 {
        return true;
    }
    let root = roots[0];
    match controller.dragging_hand() {
        None => true,
        Some(hand) => {
            let position = controller.grip_position(hand);
            match state.drag_last {
                Some((last_hand, start)) if last_hand == hand => {
                    let dx = position.x as i128 - start.x as i128;
                    let dy = position.y as i128 - start.y as i128;
                    let dz = position.z as i128 - start.z as i128;
                    let fits = |v: i128| -> (b: bool)
                        ensures
                            b == (i64::MIN <= v <= i64::MAX),
                        { i64::MIN as i128 <= v && v <= i64::MAX as i128 };
                    fits(dx) && fits(dy) && fits(dz) && fits(root.x as i128 + dx) && fits(
                        root.y as i128 + dy,
                    ) && fits(root.z as i128 + dz)
                },
                _ => true,
            }
        },
    }
}

/// One tick of drag locomotion.
///
/// Without a configuration, or unless exactly one tracking root exists, the
/// tick changes nothing and reports why.  Otherwise the dragging hand is
/// selected (right before left); if there is one, the root's translation moves
/// by the grip's displacement since the previous dragging tick of that same
/// hand (zero on the first tick of a drag or of a hand change), and the hand
/// and its grip position are recorded.  With no grip engaged the root and the
/// drag state stay as they are.
pub fn drag_locomotion(
    config: Option<&DragLocomotionConfig>,
    state: &mut DragLocomotionState,
    controller: &ControllerSnapshot,
    roots: &mut Vec<Vector3>,
) -> (r: TickOutcome)
    requires
        old(roots)@.len() == 1 ==> tick_in_range(*old(state), *controller, old(roots)@[0]),
    ensures
        config.is_none() ==> r == TickOutcome::MissingConfig,
        config.is_some() && old(roots)@.len() != 1 ==> r == TickOutcome::AmbiguousRoot,
        config.is_none() || old(roots)@.len() != 1 ==> *final(state) == *old(state)
            && final(roots)@ == old(roots)@,
        config.is_some() && old(roots)@.len() == 1 ==> {
            &&& *final(state) == next_state(*old(state), *controller)
            &&& final(roots)@.len() == 1
            &&& final(roots)@[0]@ == vec_add(
                old(roots)@[0]@,
                applied_delta(*old(state), *controller),
            )
            &&& reports(r, *old(state), *controller)
        },
{
    let config = match config {
        Some(c) => c,
        None => {
            return TickOutcome::MissingConfig;
        },
    };
    match find_single_root(roots) {
        RootLookup::ExactlyOne(index) => {
            let gestures = gesture_intent(config, controller);
            if !gestures.translate {
                return TickOutcome::Idle;
            }
            let hand = if controller.is_squeezed(Hand::Right) {
                Hand::Right
            } else {
                Hand::Left
            };
            let position = controller.grip_position(hand);
            let delta = match state.drag_last {
                Some((last_hand, start)) if last_hand == hand => position.sub(&start),
                _ => Vector3::zero(),
            };
            state.drag_last = Some((hand, position));
            let moved = roots[index].add(&delta);
            roots.set(index, moved);
            TickOutcome::Dragged { hand, delta }
        },
        _ => TickOutcome::AmbiguousRoot,
    }
}

} // verus!
