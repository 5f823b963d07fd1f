//! The buttons of the control panel and the edit each one makes.
use vstd::prelude::*;

use crate::pose::{Axis, Effect};

verus! {

/// Translation per button click, in hundredths (0.1).
pub const BUTTON_STEP: i64 = 10;

/// Rotation per button click, in hundred-thousandths of a radian (0.1 rad).
pub const BUTTON_TURN: i64 = 10000;

/// Scale factors of the two scale buttons, in ten-thousandths (1.1 and 0.9).
pub const SCALE_UP: i64 = 11000;

pub const SCALE_DOWN: i64 = 9000;

/// A button of the control panel.
#[derive(Clone, Copy, Debug, PartialEq, Eq, Structural)]
pub enum PanelButton {
    Left,
    Right,
    Up,
    Down,
    Forward,
    Back,
    RotateLeft,
    RotateRight,
    RotateXPlus,
    RotateXMinus,
    ScaleUp,
    ScaleDown,
    Reset,
}

/// The edit made by one click of a button.
pub open spec fn button_effect(b: PanelButton) -> Effect {
    match b {
        PanelButton::Left => Effect::Translate { dx: (-BUTTON_STEP) as i64, dy: 0, dz: 0 },
        PanelButton::Right => Effect::Translate { dx: BUTTON_STEP, dy: 0, dz: 0 },
        PanelButton::Up => Effect::Translate { dx: 0, dy: BUTTON_STEP, dz: 0 },
        PanelButton::Down => Effect::Translate { dx: 0, dy: (-BUTTON_STEP) as i64, dz: 0 },
        PanelButton::Forward => Effect::Translate { dx: 0, dy: 0, dz: (-BUTTON_STEP) as i64 },
        PanelButton::Back => Effect::Translate { dx: 0, dy: 0, dz: BUTTON_STEP },
        PanelButton::RotateLeft => Effect::Rotate { axis: Axis::Y, angle: BUTTON_TURN },
        PanelButton::RotateRight => Effect::Rotate { axis: Axis::Y, angle: (-BUTTON_TURN) as i64 },
        PanelButton::RotateXPlus => Effect::Rotate { axis: Axis::X, angle: BUTTON_TURN },
        PanelButton::RotateXMinus => Effect::Rotate { axis: Axis::X, angle: (-BUTTON_TURN) as i64 },
        PanelButton::ScaleUp => Effect::Scale { factor: SCALE_UP },
        PanelButton::ScaleDown => Effect::Scale { factor: SCALE_DOWN },
        PanelButton::Reset => Effect::Reset,
    }
}

impl PanelButton {
    /// The edit made by one click of this button.
    pub fn effect(&self) -> (e: Effect)
        ensures
            e == button_effect(*self),
    {
        match self {
            PanelButton::Left => Effect::Translate { dx: -BUTTON_STEP, dy: 0, dz: 0 },
            PanelButton::Right => Effect::Translate { dx: BUTTON_STEP, dy: 0, dz: 0 },
            PanelButton::Up => Effect::Translate { dx: 0, dy: BUTTON_STEP, dz: 0 },
            PanelButton::Down => Effect::Translate { dx: 0, dy: -BUTTON_STEP, dz: 0 },
            PanelButton::Forward => Effect::Translate { dx: 0, dy: 0, dz: -BUTTON_STEP },
            PanelButton::Back => Effect::Translate { dx: 0, dy: 0, dz: BUTTON_STEP },
            PanelButton::RotateLeft => Effect::Rotate { axis: Axis::Y, angle: BUTTON_TURN },
            PanelButton::RotateRight => Effect::Rotate { axis: Axis::Y, angle: -BUTTON_TURN },
            PanelButton::RotateXPlus => Effect::Rotate { axis: Axis::X, angle: BUTTON_TURN },
            PanelButton::RotateXMinus => Effect::Rotate { axis: Axis::X, angle: -BUTTON_TURN },
            PanelButton::ScaleUp => Effect::Scale { factor: SCALE_UP },
            PanelButton::ScaleDown => Effect::Scale { factor: SCALE_DOWN },
            PanelButton::Reset => Effect::Reset,
        }
    }
}

} // verus!
