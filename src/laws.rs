use vstd::prelude::*;

use crate::drag_locomotion::{
    applied_delta, is_squeezed, next_state, ControllerSnapshot, DragLocomotionState, Hand,
};
use crate::geometry::{vec_sub, vec_zero};

verus! {

/// When exactly one grip is engaged, that hand drags.
pub proof fn lemma_single_squeezed_hand_drags(controller: ControllerSnapshot)
    ensures
        is_squeezed(controller.left.squeeze) && !is_squeezed(controller.right.squeeze)
            ==> controller.dragging_hand_spec() == Some(Hand::Left),
        is_squeezed(controller.right.squeeze) && !is_squeezed(controller.left.squeeze)
            ==> controller.dragging_hand_spec() == Some(Hand::Right),
{
}

/// When both grips are engaged, the right hand drags.
pub proof fn lemma_right_hand_has_priority(controller: ControllerSnapshot)
    requires
        is_squeezed(controller.left.squeeze),
        is_squeezed(controller.right.squeeze),
    ensures
        controller.dragging_hand_spec() == Some(Hand::Right),
{
}

/// The first tick on which a hand drags, with no record of that hand from the
/// tick before, moves nothing and records the hand's grip position.
pub proof fn lemma_drag_starts_at_rest(
    state: DragLocomotionState,
    controller: ControllerSnapshot,
    hand: Hand,
)
    requires
        controller.dragging_hand_spec() == Some(hand),
        !(state.drag_last matches Some((last_hand, _)) && last_hand == hand),
    ensures
        applied_delta(state, controller) == vec_zero(),
        next_state(state, controller).drag_last == Some(
            (hand, controller.sample(hand).grip_position),
        ),
{
}

/// On the second of two consecutive ticks dragging with the same hand, the
/// root moves by that grip's displacement between the two ticks.
pub proof fn lemma_continued_drag_follows_grip(
    state: DragLocomotionState,
    first: ControllerSnapshot,
    second: ControllerSnapshot,
    hand: Hand,
)
    requires
        first.dragging_hand_spec() == Some(hand),
        second.dragging_hand_spec() == Some(hand),
    ensures
        applied_delta(next_state(state, first), second) == vec_sub(
            second.sample(hand).grip_position@,
            first.sample(hand).grip_position@,
        ),
{
}

/// When the dragging hand changes between two consecutive dragging ticks, the
/// second tick moves nothing: the other hand's old position is not used.
pub proof fn lemma_hand_change_resets_baseline(
    state: DragLocomotionState,
    first: ControllerSnapshot,
    second: ControllerSnapshot,
    first_hand: Hand,
    second_hand: Hand,
)
    requires
        first.dragging_hand_spec() == Some(first_hand),
        second.dragging_hand_spec() == Some(second_hand),
        first_hand != second_hand,
    ensures
        applied_delta(next_state(state, first), second) == vec_zero(),
        next_state(next_state(state, first), second).drag_last == Some(
            (second_hand, second.sample(second_hand).grip_position),
        ),
{
}

/// Two consecutive dragging ticks with the same hand at the same grip position
/// move nothing on the second tick.
pub proof fn lemma_still_grip_moves_nothing(
    state: DragLocomotionState,
    first: ControllerSnapshot,
    second: ControllerSnapshot,
    hand: Hand,
)
    requires
        first.dragging_hand_spec() == Some(hand),
        second.dragging_hand_spec() == Some(hand),
        second.sample(hand).grip_position == first.sample(hand).grip_position,
    ensures
        applied_delta(next_state(state, first), second) == vec_zero(),
{
}

/// A tick with no grip engaged neither moves the root nor touches the drag
/// state, so a later drag starts from whatever was recorded last.
pub proof fn lemma_release_keeps_state(state: DragLocomotionState, controller: ControllerSnapshot)
    requires
        !is_squeezed(controller.left.squeeze),
        !is_squeezed(controller.right.squeeze),
    ensures
        applied_delta(state, controller) == vec_zero(),
        next_state(state, controller) == state,
{
}

} // verus!
