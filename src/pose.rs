//! Edits of the selected object's transform, and their exact meaning.
//!
//! Input never writes a transform directly: it produces `Effect`s, which the
//! host applies to its own transform. Their meaning is given here on an
//! abstract `Pose` whose quantities are exact.
use vstd::prelude::*;

verus! {

/// Translation unit: hundredths of a world unit.
pub const TRANSLATION_UNIT: i64 = 100;

/// Angle unit: hundred-thousandths of a radian.
pub const ANGLE_UNIT: i64 = 100000;

/// Scale factors are written in ten-thousandths; this is the factor 1.
pub const SCALE_ONE: i64 = 10000;

/// A world axis about which the object is turned.
#[derive(Clone, Copy, Debug, PartialEq, Eq, Structural)]
pub enum Axis {
    X,
    Y,
}

/// One edit of the selected object's transform.
#[derive(Clone, Copy, Debug, PartialEq, Eq, Structural)]
pub enum Effect {
    /// Moves the object by the offset, in hundredths of a unit.
    Translate { dx: i64, dy: i64, dz: i64 },
    /// Turns the object about a world axis, composed after its current
    /// orientation; the angle is in hundred-thousandths of a radian.
    Rotate { axis: Axis, angle: i64 },
    /// Multiplies all three scale axes by `factor / SCALE_ONE`.
    Scale { factor: i64 },
    /// Back to the origin, no rotation and unit scale.
    Reset,
}

/// The exact transform of the selected object. The orientation is the
/// composition of `turns` in order (each about a world axis, angle in
/// hundred-thousandths of a radian); the three scale axes always share the
/// ratio `scale_num / scale_den`.
pub struct Pose {
    pub tx: int,
    pub ty: int,
    pub tz: int,
    pub turns: Seq<(Axis, int)>,
    pub scale_num: int,
    pub scale_den: int,
}

/// The origin, no rotation, unit scale.
pub open spec fn identity_pose() -> Pose {
    Pose { tx: 0, ty: 0, tz: 0, turns: Seq::empty(), scale_num: 1, scale_den: 1 }
}

/// The pose after one effect.
pub open spec fn apply(p: Pose, e: Effect) -> Pose {
    match e {
        Effect::Translate { dx, dy, dz } => Pose { tx: p.tx + dx, ty: p.ty + dy, tz: p.tz + dz, ..p },
        Effect::Rotate { axis, angle } => Pose { turns: p.turns.push((axis, angle as int)), ..p },
        Effect::Scale { factor } => Pose {
            scale_num: p.scale_num * factor,
            scale_den: p.scale_den * SCALE_ONE,
            ..p
        },
        Effect::Reset => identity_pose(),
    }
}

/// The pose after a sequence of effects, applied in order.
pub open spec fn apply_all(p: Pose, es: Seq<Effect>) -> Pose
    decreases es.len(),
{
    if es.len() == 0 {
        p
    } else {
        apply(apply_all(p, es.drop_last()), es.last())
    }
}

/// Reset discards everything before it: whatever the pose and whatever
/// edits came first, a reset leaves the origin, no rotation and unit scale.
pub proof fn lemma_reset_after_anything(p: Pose, es: Seq<Effect>)
    ensures
        apply_all(p, es.push(Effect::Reset)) == identity_pose(),
{
    assert(es.push(Effect::Reset).drop_last() == es);
}

} // verus!
