//! Properties that hold across inputs and frames.
use vstd::prelude::*;

use crate::input::{
    key_movement, motion_effects, next_dragging, pointer_effects, scroll_effect,
    scroll_effects, HeldKeys, Motion, KEY_STEP,
};
use crate::material::ObjectSpec;
use crate::panel::{button_effect, PanelButton};
use crate::pose::{apply, apply_all, identity_pose, lemma_reset_after_anything, Axis, Effect, Pose, SCALE_ONE};

use crate::viewer::edited;

verus! {

/// One frame of held keys moves each axis by exactly one key step toward
/// the side whose key is held, and not at all when both opposite keys (or
/// neither) are held.
pub proof fn lemma_key_frame(p: Pose, k: HeldKeys)
    ensures
        ({
            let q = apply(p, key_movement(k));
            let right = k.arrow_right || k.key_d;
            let left = k.arrow_left || k.key_a;
            let up = k.arrow_up || k.key_w;
            let down = k.arrow_down || k.key_s;
            &&& right && !left ==> q.tx == p.tx + KEY_STEP
            &&& left && !right ==> q.tx == p.tx - KEY_STEP
            &&& left == right ==> q.tx == p.tx
            &&& up && !down ==> q.ty == p.ty + KEY_STEP
            &&& down && !up ==> q.ty == p.ty - KEY_STEP
            &&& up == down ==> q.ty == p.ty
            &&& k.key_e && !k.key_q ==> q.tz == p.tz + KEY_STEP
            &&& k.key_q && !k.key_e ==> q.tz == p.tz - KEY_STEP
            &&& k.key_q == k.key_e ==> q.tz == p.tz
            &&& q.turns == p.turns
            &&& q.scale_num == p.scale_num
            &&& q.scale_den == p.scale_den
        }),
{
}

/// Clicking Reset after any edits whatsoever gives the origin, no rotation
/// and unit scale.
pub proof fn lemma_reset_click(p: Pose, es: Seq<Effect>)
    ensures
        apply_all(p, es.push(button_effect(PanelButton::Reset))) == identity_pose(),
{
    lemma_reset_after_anything(p, es);
}

/// A click on Reset while an object is selected leaves it at the origin,
/// unrotated and at unit scale, whatever its pose was before.
pub proof fn lemma_reset_click_on_object(object: Option<ObjectSpec>, p: Pose)
    requires
        object.is_some(),
    ensures
        edited(object, p, seq![button_effect(PanelButton::Reset)]) == identity_pose(),
{
    lemma_reset_after_anything(p, Seq::empty());
    assert(Seq::<Effect>::empty().push(Effect::Reset) =~= seq![Effect::Reset]);
}

/// A drag motion (dx, dy) composes a turn of dx about Y and then one of -dy
/// about X onto the orientation, and changes nothing else.
pub proof fn lemma_drag_motion(p: Pose, m: Motion)
    ensures
        apply_all(p, motion_effects(seq![m])) == (Pose {
            turns: p.turns + seq![(Axis::Y, m.dx as int), (Axis::X, -(m.dy as int))],
            ..p
        }),
{
    let ms = seq![m];
    assert(ms.drop_last() =~= Seq::<Motion>::empty());
    assert(ms.last() == m);
    let es = motion_effects(ms);
    let y = Effect::Rotate { axis: Axis::Y, angle: m.dx as i64 };
    let x = Effect::Rotate { axis: Axis::X, angle: (-(m.dy as int)) as i64 };
    assert(motion_effects(Seq::<Motion>::empty()) == Seq::<Effect>::empty());
    assert(es =~= seq![y, x]);
    assert(es.drop_last() =~= seq![y]);
    assert(es.drop_last().drop_last() =~= Seq::<Effect>::empty());
    let p1 = apply(p, y);
    assert(apply_all(p, es.drop_last()) == p1) by {
        assert(apply_all(p, es.drop_last().drop_last()) == p);
    }
    assert(p.turns.push((Axis::Y, m.dx as int)).push((Axis::X, -(m.dy as int))) =~= p.turns + seq![
        (Axis::Y, m.dx as int),
        (Axis::X, -(m.dy as int)),
    ]);
}

/// After a release, a later frame without a press is not a drag: whatever
/// it reports, none of its edits turns the object.
pub proof fn lemma_no_turn_after_release(
    was: bool,
    pressed1: bool,
    over1: bool,
    released2: bool,
    over2: bool,
    ms: Seq<Motion>,
    ys: Seq<i32>,
)
    ensures
        ({
            let d1 = next_dragging(was, pressed1, true, over1);
            let d2 = next_dragging(d1, false, released2, over2);
            let es = pointer_effects(d2, over2, ms, ys);
            &&& !d1
            &&& !d2
            &&& forall|i: int| 0 <= i < es.len() ==> !(es[i] is Rotate)
        }),
{
    let es = pointer_effects(false, over2, ms, ys);
    assert forall|i: int| 0 <= i < es.len() implies !(es[i] is Rotate) by {
        if !over2 {
            assert(es =~= Seq::<Effect>::empty() + scroll_effects(ys));
            assert(es[i] == scroll_effect(ys[i]));
        }
    }
}

/// Two scrolls compound: the scale is multiplied by (1 + y1/10000) and then
/// by (1 + y2/10000), the product of the factors rather than their sum.
pub proof fn lemma_scrolls_compound(p: Pose, y1: i32, y2: i32)
    ensures
        ({
            let q = apply_all(p, scroll_effects(seq![y1, y2]));
            &&& q.scale_num == p.scale_num * (SCALE_ONE + y1) * (SCALE_ONE + y2)
            &&& q.scale_den == p.scale_den * SCALE_ONE * SCALE_ONE
            &&& q.tx == p.tx && q.ty == p.ty && q.tz == p.tz
            &&& q.turns == p.turns
        }),
{
    let es = scroll_effects(seq![y1, y2]);
    let e1 = scroll_effect(y1);
    let e2 = scroll_effect(y2);
    assert(es =~= seq![e1, e2]);
    assert(es.drop_last() =~= seq![e1]);
    assert(es.drop_last().drop_last() =~= Seq::<Effect>::empty());
    let p1 = apply(p, e1);
    assert(apply_all(p, es.drop_last()) == p1) by {
        assert(apply_all(p, es.drop_last().drop_last()) == p);
    }
    assert(p1.scale_num == p.scale_num * (SCALE_ONE + y1));
    assert(apply(p1, e2).scale_num == p1.scale_num * (SCALE_ONE + y2));
}

/// While the pointer is over the panel, a press does not start a drag and
/// the frame's motions and scrolls make no edit at all.
pub proof fn lemma_panel_captures_pointer(dragging: bool, released: bool, ms: Seq<Motion>, ys: Seq<i32>)
    ensures
        !next_dragging(false, true, released, true),
        pointer_effects(dragging, true, ms, ys) == Seq::<Effect>::empty(),
{
    assert(pointer_effects(dragging, true, ms, ys) =~= Seq::<Effect>::empty());
}

} // verus!
