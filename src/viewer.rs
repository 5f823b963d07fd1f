//! The viewer's state: the chosen shape, the drag state and the one selected
//! object, with the exact pose that the edits so far give it.
use vstd::prelude::*;

use crate::input::{key_movement, next_dragging, pointer_effects, HeldKeys, MouseControl, PointerFrame};
use crate::material::{shape_object, ObjectSpec};
use crate::panel::{button_effect, PanelButton};
use crate::pose::{apply_all, identity_pose, Effect, Pose};
use crate::shape::Shape;

verus! {

/// State shared by the per-frame handlers. `object` is the single slot of
/// the selected object: replacing it is the only way to spawn one, so at
/// most one ever exists. `pose` is its exact transform; edits made while
/// the slot is empty are skipped.
pub struct Viewer {
    pub object_type: Shape,
    pub mouse: MouseControl,
    pub object: Option<ObjectSpec>,
    pub pose: Ghost<Pose>,
}

/// The pose after edits `es`: unchanged while no object is selected.
pub open spec fn edited(object: Option<ObjectSpec>, p: Pose, es: Seq<Effect>) -> Pose {
    if object.is_some() {
        apply_all(p, es)
    } else {
        p
    }
}

impl Viewer {
    /// The selected object, when there is one, is the one spawned for the
    /// chosen shape.
    pub open spec fn wf(&self) -> bool {
        self.object matches Some(o) ==> o == shape_object(self.object_type)
    }

    /// Before start-up: the cube is chosen, no drag, no object yet.
    pub fn new() -> (v: Viewer)
        ensures
            v.object_type == Shape::Cube,
            !v.mouse.is_dragging,
            v.object.is_none(),
            v.pose@ == identity_pose(),
            v.wf(),
    {
        Viewer {
            object_type: Shape::Cube,
            mouse: MouseControl::new(),
            object: None,
            pose: Ghost(identity_pose()),
        }
    }

    /// Start-up: spawns the initial cube at the identity pose and returns it.
    pub fn setup(&mut self) -> (o: ObjectSpec)
        ensures
            o == shape_object(Shape::Cube),
            final(self).object == Some(o),
            final(self).object_type == Shape::Cube,
            final(self).mouse == old(self).mouse,
            final(self).pose@ == identity_pose(),
            final(self).wf(),
    {
        let o = Shape::Cube.spawn_spec();
        self.object_type = Shape::Cube;
        self.object = Some(o);
        self.pose = Ghost(identity_pose());
        o
    }

    /// The selector chose `s`. When that changes the selection, the old
    /// object is replaced by a fresh one of shape `s` at the identity pose,
    /// which is returned; otherwise nothing changes and `None` is returned.
    pub fn select(&mut self, s: Shape) -> (spawned: Option<ObjectSpec>)
        ensures
            old(self).object_type == s ==> spawned.is_none() && *final(self) == *old(self),
            old(self).object_type != s ==> {
                &&& spawned == Some(shape_object(s))
                &&& final(self).object == spawned
                &&& final(self).object_type == s
                &&& final(self).mouse == old(self).mouse
                &&& final(self).pose@ == identity_pose()
            },
            old(self).wf() ==> final(self).wf(),
    {
        if self.object_type == s {
            return None;
        }
        let o = s.spawn_spec();
        self.object_type = s;
        self.object = Some(o);
        self.pose = Ghost(identity_pose());
        Some(o)
    }

    /// One frame of pointer input; returns the edits to make, in order.
    pub fn pointer_frame(&mut self, f: &PointerFrame) -> (r: Vec<Effect>)
        ensures
            final(self).mouse.is_dragging == next_dragging(
                old(self).mouse.is_dragging,
                f.just_pressed,
                f.just_released,
                f.over_ui,
            ),
            r@ == pointer_effects(final(self).mouse.is_dragging, f.over_ui, f.motions@, f.scrolls@),
            final(self).pose@ == edited(old(self).object, old(self).pose@, r@),
            final(self).object == old(self).object,
            final(self).object_type == old(self).object_type,
    {
        let r = self.mouse.pointer_frame(f);
        self.pose = Ghost(edited(self.object, self.pose@, r@));
        r
    }

    /// One frame of held keys; returns the translation to make.
    pub fn keyboard_frame(&mut self, keys: &HeldKeys) -> (e: Effect)
        ensures
            e == key_movement(*keys),
            final(self).pose@ == edited(old(self).object, old(self).pose@, seq![e]),
            final(self).mouse == old(self).mouse,
            final(self).object == old(self).object,
            final(self).object_type == old(self).object_type,
    {
        let e = keys.movement();
        self.pose = Ghost(edited(self.object, self.pose@, seq![e]));
        e
    }

    /// A click on a panel button; returns the edit to make.
    pub fn click(&mut self, b: PanelButton) -> (e: Effect)
        ensures
            e == button_effect(b),
            final(self).pose@ == edited(old(self).object, old(self).pose@, seq![e]),
            final(self).mouse == old(self).mouse,
            final(self).object == old(self).object,
            final(self).object_type == old(self).object_type,
    {
        let e = b.effect();
        self.pose = Ghost(edited(self.object, self.pose@, seq![e]));
        e
    }
}

} // verus!
