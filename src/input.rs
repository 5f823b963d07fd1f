//! Pointer and keyboard input, turned into transform edits.
use vstd::prelude::*;

use crate::pose::{Axis, Effect, SCALE_ONE};

verus! {

/// Translation per frame for each held movement key, in hundredths (0.02).
pub const KEY_STEP: i64 = 2;

/// One reported pointer motion, in thousandths of a pixel. With 0.01 radian
/// per pixel, a thousandth of a pixel turns by one angle unit.
#[derive(Clone, Copy, Debug, PartialEq, Eq, Structural)]
pub struct Motion {
    pub dx: i32,
    pub dy: i32,
}

/// The pointer input of one frame. Scroll amounts are in thousandths of a
/// line (or pixel, as the device reports them).
#[derive(Debug)]
pub struct PointerFrame {
    /// The left button went down this frame.
    pub just_pressed: bool,
    /// The left button went up this frame.
    pub just_released: bool,
    /// The pointer is over the overlay panel.
    pub over_ui: bool,
    pub motions: Vec<Motion>,
    pub scrolls: Vec<i32>,
}

/// Whether a left-button drag is in progress.
#[derive(Clone, Copy, Debug, PartialEq, Eq, Structural)]
pub struct MouseControl {
    pub is_dragging: bool,
}

/// Drag state after a frame: a press starts a drag unless the pointer is over
/// the panel; a release always ends it, wherever the pointer is.
pub open spec fn next_dragging(was: bool, pressed: bool, released: bool, over_ui: bool) -> bool {
    if released {
        false
    } else if pressed && !over_ui {
        true
    } else {
        was
    }
}

/// A drag motion turns by `dx` about Y, then by `-dy` about X.
pub open spec fn motion_turns(m: Motion) -> Seq<Effect> {
    seq![
        Effect::Rotate { axis: Axis::Y, angle: m.dx as i64 },
        Effect::Rotate { axis: Axis::X, angle: (-(m.dy as int)) as i64 },
    ]
}

pub open spec fn motion_effects(ms: Seq<Motion>) -> Seq<Effect>
    decreases ms.len(),
{
    if ms.len() == 0 {
        Seq::empty()
    } else {
        motion_effects(ms.drop_last()) + motion_turns(ms.last())
    }
}

/// A scroll of `y` thousandths scales by `1 + y / 10000`, that is
/// `1 + 0.1` per line.
pub open spec fn scroll_effect(y: i32) -> Effect {
    Effect::Scale { factor: (SCALE_ONE + y) as i64 }
}

pub open spec fn scroll_effects(ys: Seq<i32>) -> Seq<Effect> {
    ys.map_values(|y: i32| scroll_effect(y))
}

/// Edits made by one frame of pointer input, given the drag state after
/// the frame's button events: drag motions turn the object unless the
/// pointer is over the panel, then scrolls scale it unless it is.
pub open spec fn pointer_effects(dragging: bool, over_ui: bool, ms: Seq<Motion>, ys: Seq<i32>) -> Seq<Effect> {
    (if dragging && !over_ui { motion_effects(ms) } else { Seq::empty() }) + (if !over_ui {
        scroll_effects(ys)
    } else {
        Seq::empty()
    })
}

impl MouseControl {
    /// No drag in progress.
    pub fn new() -> (m: MouseControl)
        ensures
            !m.is_dragging,
    {
        MouseControl { is_dragging: false }
    }

    /// Takes the frame's left-button events into account.
    pub fn update_drag(&mut self, pressed: bool, released: bool, over_ui: bool)
        ensures
            final(self).is_dragging == next_dragging(old(self).is_dragging, pressed, released, over_ui),
    {
        if pressed && !over_ui {
            self.is_dragging = true;
        }
        if released {
            self.is_dragging = false;
        }
    }

    /// Runs one frame of pointer input: updates the drag state, then returns
    /// the edits that the frame's motions and scrolls make.
    pub fn pointer_frame(&mut self, f: &PointerFrame) -> (r: Vec<Effect>)
        ensures
            final(self).is_dragging == next_dragging(
                old(self).is_dragging,
                f.just_pressed,
                f.just_released,
                f.over_ui,
            ),
            r@ == pointer_effects(final(self).is_dragging, f.over_ui, f.motions@, f.scrolls@),
    {
        self.update_drag(f.just_pressed, f.just_released, f.over_ui);
        let mut r: Vec<Effect> = Vec::new();
        if self.is_dragging && !f.over_ui {
            let mut i: usize = 0;
            while i < f.motions.len()
                invariant
                    i <= f.motions@.len(),
                    r@ == motion_effects(f.motions@.subrange(0, i as int)),
                decreases f.motions@.len() - i,
            {
                let m = f.motions[i];
                r.push(Effect::Rotate { axis: Axis::Y, angle: m.dx as i64 });
                r.push(Effect::Rotate { axis: Axis::X, angle: -(m.dy as i64) });
                proof {
                    let s = f.motions@.subrange(0, i + 1);
                    assert(s.drop_last() == f.motions@.subrange(0, i as int));
                    assert(s.last() == m);
                    assert(r@ == motion_effects(f.motions@.subrange(0, i as int)) + motion_turns(m));
                }
                i = i + 1;
            }
            assert(f.motions@.subrange(0, f.motions@.len() as int) == f.motions@);
        }
        let ghost turned = r@;
        if !f.over_ui {
            let mut j: usize = 0;
            while j < f.scrolls.len()
                invariant
                    j <= f.scrolls@.len(),
                    r@ == turned + scroll_effects(f.scrolls@.subrange(0, j as int)),
                decreases f.scrolls@.len() - j,
            {
                let y = f.scrolls[j];
                r.push(Effect::Scale { factor: SCALE_ONE + y as i64 });
                assert(scroll_effects(f.scrolls@.subrange(0, j + 1)) == scroll_effects(
                    f.scrolls@.subrange(0, j as int),
                ).push(scroll_effect(y)));
                j = j + 1;
            }
            assert(f.scrolls@.subrange(0, f.scrolls@.len() as int) == f.scrolls@);
        } else {
            assert(r@ == turned + Seq::<Effect>::empty());
        }
        r
    }
}

/// Keys held down during a frame.
#[derive(Clone, Copy, Debug, PartialEq, Eq, Structural)]
pub struct HeldKeys {
    pub arrow_left: bool,
    pub key_a: bool,
    pub arrow_right: bool,
    pub key_d: bool,
    pub arrow_up: bool,
    pub key_w: bool,
    pub arrow_down: bool,
    pub key_s: bool,
    pub key_q: bool,
    pub key_e: bool,
}

/// `KEY_STEP` toward the positive side, minus `KEY_STEP` toward the negative
/// side: opposite keys cancel.
pub open spec fn key_axis(positive: bool, negative: bool) -> i64 {
    ((if positive { KEY_STEP } else { 0 }) - (if negative { KEY_STEP } else { 0 })) as i64
}

/// The translation made by one frame of held keys: left/A and right/D along
/// X, up/W and down/S along Y, Q and E along Z.
pub open spec fn key_movement(k: HeldKeys) -> Effect {
    Effect::Translate {
        dx: key_axis(k.arrow_right || k.key_d, k.arrow_left || k.key_a),
        dy: key_axis(k.arrow_up || k.key_w, k.arrow_down || k.key_s),
        dz: key_axis(k.key_e, k.key_q),
    }
}

impl HeldKeys {
    /// No key held.
    pub fn none() -> (k: HeldKeys)
        ensures
            !k.arrow_left && !k.key_a && !k.arrow_right && !k.key_d,
            !k.arrow_up && !k.key_w && !k.arrow_down && !k.key_s,
            !k.key_q && !k.key_e,
    {
        HeldKeys {
            arrow_left: false,
            key_a: false,
            arrow_right: false,
            key_d: false,
            arrow_up: false,
            key_w: false,
            arrow_down: false,
            key_s: false,
            key_q: false,
            key_e: false,
        }
    }

    /// The translation that this frame's held keys make.
    pub fn movement(&self) -> (e: Effect)
        ensures
            e == key_movement(*self),
    {
        let mut dx: i64 = 0;
        let mut dy: i64 = 0;
        let mut dz: i64 = 0;
        if self.arrow_left || self.key_a {
            dx = dx - KEY_STEP;
        }
        if self.arrow_right || self.key_d {
            dx = dx + KEY_STEP;
        }
        if self.arrow_up || self.key_w {
            dy = dy + KEY_STEP;
        }
        if self.arrow_down || self.key_s {
            dy = dy - KEY_STEP;
        }
        if self.key_q {
            dz = dz - KEY_STEP;
        }
        if self.key_e {
            dz = dz + KEY_STEP;
        }
        Effect::Translate { dx, dy, dz }
    }
}

} // verus!
