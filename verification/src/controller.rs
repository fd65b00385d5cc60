//! The adaptive orbit/zoom camera controller: a fixed mapping from input
//! gestures to camera motion actions, whose zoom speed is recomputed every
//! frame from the current camera-to-target distance.
//!
//! The controller only decides: each frame it turns the batch of input events
//! into motion commands for the surrounding rendering engine to apply to its
//! camera. Coordinates, distances and speeds are fixed-point values with
//! [`crate::zoom::SCALE`] units per whole unit.

use crate::zoom::{zoom_speed, zoom_speed_of, MAX_DISTANCE};
use vstd::prelude::*;

verus! {

/// A world-space point in fixed-point coordinates.
#[derive(Clone, Copy, Debug, PartialEq, Eq, Structural)]
pub struct Point3 {
    pub x: i64,
    pub y: i64,
    pub z: i64,
}

/// The pointer button held during a drag.
#[derive(Clone, Copy, Debug, PartialEq, Eq, Structural)]
pub enum MouseButton {
    Left,
    Right,
    Middle,
}

/// One input event gathered since the previous frame.
#[derive(Clone, Copy, Debug, PartialEq, Eq, Structural)]
pub enum InputEvent {
    /// Pointer moved by `(delta_x, delta_y)` while `button` was held.
    Drag { button: MouseButton, delta_x: i64, delta_y: i64 },
    /// Scroll wheel moved by `delta`.
    Scroll { delta: i64 },
    /// Any event the controller does not react to.
    Other,
}

/// A camera-local direction for panning or orbiting.
#[derive(Clone, Copy, Debug, PartialEq, Eq, Structural)]
pub enum Axis {
    Horizontal,
    Vertical,
}

/// A camera motion action, tagged with the speed coefficient to apply.
#[derive(Clone, Copy, Debug, PartialEq, Eq, Structural)]
pub enum Action {
    /// Translate the camera along a camera-local axis.
    Pan { axis: Axis, speed: u64 },
    /// Rotate the camera about `target` along an axis.
    Orbit { target: Point3, axis: Axis, speed: u64 },
    /// Move the camera toward or away from `target`, keeping the distance
    /// within `[min, max]`.
    Zoom { target: Point3, min: u64, max: u64, speed: u64 },
}

/// One motion for the rendering engine to apply: an action and the input
/// delta that drives it.
#[derive(Clone, Copy, Debug, PartialEq, Eq, Structural)]
pub struct MotionCommand {
    pub action: Action,
    pub amount: i64,
}

/// Rejected controller configuration.
#[derive(Clone, Copy, Debug, PartialEq, Eq, Structural)]
pub enum ConfigError {
    /// The distance bounds do not satisfy `min < max`.
    DegenerateBounds { min: u64, max: u64 },
}

/// Pan and orbit speed coefficient (`0.5` in whole units).
pub const DRAG_SPEED: u64 = 500;

/// Zoom speed coefficient at construction (`0.1` in whole units), replaced on
/// the first frame by the distance-shaped speed.
pub const INITIAL_ZOOM_SPEED: u64 = 100;

/// Maps input gestures to camera motions around a fixed target point, and
/// recomputes the zoom speed every frame from the camera-to-target distance.
#[derive(Clone, Copy, Debug, PartialEq, Eq, Structural)]
pub struct CameraController {
    /// The point the camera orbits and zooms toward; fixed for the
    /// controller's lifetime.
    pub target: Point3,
    /// Lower bound of the operating camera-to-target distance range.
    pub min_distance: u64,
    /// Upper bound of the operating camera-to-target distance range.
    pub max_distance: u64,
    /// Static speed coefficient of the four pan and orbit gestures.
    pub drag_speed: u64,
    /// Speed coefficient of the zoom gesture; recomputed every frame.
    pub zoom_speed: u64,
}

impl CameraController {
    /// The configuration invariant: non-degenerate bounds that fit the
    /// fixed-point arithmetic.
    pub open spec fn well_formed(self) -> bool {
        &&& self.min_distance < self.max_distance
        &&& self.max_distance <= MAX_DISTANCE
    }

    /// Builds a controller around `target` with distance bounds
    /// `[min, max]`; bounds with `min >= max` are rejected.
    pub fn new(target: Point3, min: u64, max: u64) -> (result: Result<CameraController, ConfigError>)
        requires
            max <= MAX_DISTANCE,
        ensures
            min < max ==> result == Ok::<CameraController, ConfigError>(
                (CameraController {
                    target,
                    min_distance: min,
                    max_distance: max,
                    drag_speed: DRAG_SPEED,
                    zoom_speed: INITIAL_ZOOM_SPEED,
                }),
            ),
            min >= max ==> result == Err::<CameraController, ConfigError>(
                (ConfigError::DegenerateBounds { min, max }),
            ),
            result matches Ok(c) ==> c.well_formed(),
    {
        if min < max {
            Ok(
                CameraController {
                    target,
                    min_distance: min,
                    max_distance: max,
                    drag_speed: DRAG_SPEED,
                    zoom_speed: INITIAL_ZOOM_SPEED,
                },
            )
        } else {
            Err(ConfigError::DegenerateBounds { min, max })
        }
    }

    /// The motion commands one input event maps to: a drag drives a pan
    /// (left button) or an orbit (right button) per axis, a scroll drives a
    /// zoom at the current zoom speed, and anything else drives nothing.
    pub open spec fn event_commands(self, event: InputEvent) -> Seq<MotionCommand> {
        match event {
            InputEvent::Drag { button: MouseButton::Left, delta_x, delta_y } => seq![
                (MotionCommand {
                    action: Action::Pan { axis: Axis::Horizontal, speed: self.drag_speed },
                    amount: delta_x,
                }),
                (MotionCommand {
                    action: Action::Pan { axis: Axis::Vertical, speed: self.drag_speed },
                    amount: delta_y,
                }),
            ],
            InputEvent::Drag { button: MouseButton::Right, delta_x, delta_y } => seq![
                (MotionCommand {
                    action: Action::Orbit {
                        target: self.target,
                        axis: Axis::Horizontal,
                        speed: self.drag_speed,
                    },
                    amount: delta_x,
                }),
                (MotionCommand {
                    action: Action::Orbit {
                        target: self.target,
                        axis: Axis::Vertical,
                        speed: self.drag_speed,
                    },
                    amount: delta_y,
                }),
            ],
            InputEvent::Scroll { delta } => seq![
                (MotionCommand {
                    action: Action::Zoom {
                        target: self.target,
                        min: self.min_distance,
                        max: self.max_distance,
                        speed: self.zoom_speed,
                    },
                    amount: delta,
                }),
            ],
            _ => Seq::empty(),
        }
    }

    /// The motion commands a whole frame's event batch maps to, in event
    /// order.
    pub open spec fn commands_of(self, events: Seq<InputEvent>) -> Seq<MotionCommand>
        decreases events.len(),
    {
        if events.len() == 0 {
            Seq::empty()
        } else {
            self.commands_of(events.drop_last()) + self.event_commands(events.last())
        }
    }

    /// Turns one frame's event batch into the motion commands the rendering
    /// engine should apply, under the controller's current speeds.
    pub fn map_events(&self, events: &Vec<InputEvent>) -> (commands: Vec<MotionCommand>)
        ensures
            commands@ == self.commands_of(events@),
    {
        let mut commands: Vec<MotionCommand> = Vec::new();
        let mut i: usize = 0;
        while i < events.len()
            invariant
                i <= events.len(),
                commands@ == self.commands_of(events@.take(i as int)),
            decreases events.len() - i,
        {
            let event = events[i];
            match event {
                InputEvent::Drag { button: MouseButton::Left, delta_x, delta_y } => {
                    commands.push(
                        MotionCommand {
                            action: Action::Pan { axis: Axis::Horizontal, speed: self.drag_speed },
                            amount: delta_x,
                        },
                    );
                    commands.push(
                        MotionCommand {
                            action: Action::Pan { axis: Axis::Vertical, speed: self.drag_speed },
                            amount: delta_y,
                        },
                    );
                },
                InputEvent::Drag { button: MouseButton::Right, delta_x, delta_y } => {
                    commands.push(
                        MotionCommand {
                            action: Action::Orbit {
                                target: self.target,
                                axis: Axis::Horizontal,
                                speed: self.drag_speed,
                            },
                            amount: delta_x,
                        },
                    );
                    commands.push(
                        MotionCommand {
                            action: Action::Orbit {
                                target: self.target,
                                axis: Axis::Vertical,
                                speed: self.drag_speed,
                            },
                            amount: delta_y,
                        },
                    );
                },
                InputEvent::Scroll { delta } => {
                    commands.push(
                        MotionCommand {
                            action: Action::Zoom {
                                target: self.target,
                                min: self.min_distance,
                                max: self.max_distance,
                                speed: self.zoom_speed,
                            },
                            amount: delta,
                        },
                    );
                },
                _ => {},
            }
            proof {
                let prefix = events@.take(i as int + 1);
                assert(prefix.drop_last() =~= events@.take(i as int));
                assert(prefix.last() == events@[i as int]);
                assert(commands@ =~= self.commands_of(prefix));
            }
            i += 1;
        }
        proof {
            assert(events@.take(events@.len() as int) =~= events@);
        }
        commands
    }

    /// The per-frame update: recomputes the zoom speed from the current
    /// camera-to-target `distance`, then maps the frame's event batch to the
    /// motion commands the rendering engine should apply. The target, the
    /// distance bounds and the drag speed never change.
    pub fn handle_events(&mut self, distance: u64, events: &Vec<InputEvent>) -> (commands: Vec<
        MotionCommand,
    >)
        requires
            old(self).well_formed(),
        ensures
            final(self).well_formed(),
            final(self).zoom_speed == zoom_speed_of(
                distance as int,
                old(self).min_distance as int,
                old(self).max_distance as int,
            ),
            final(self).target == old(self).target,
            final(self).min_distance == old(self).min_distance,
            final(self).max_distance == old(self).max_distance,
            final(self).drag_speed == old(self).drag_speed,
            commands@ == final(self).commands_of(events@),
    {
        self.zoom_speed = zoom_speed(self.min_distance, self.max_distance, distance);
        let current = *self;
        current.map_events(events)
    }
}

} // verus!
