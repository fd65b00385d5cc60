use orbit_zoom::controller::{
    Action, Axis, CameraController, ConfigError, InputEvent, MotionCommand, MouseButton, Point3,
    DRAG_SPEED, INITIAL_ZOOM_SPEED,
};

fn origin() -> Point3 {
    Point3 { x: 0, y: 0, z: 0 }
}

#[test]
fn new_rejects_equal_bounds() {
    let result = CameraController::new(origin(), 5000, 5000);
    assert_eq!(result, Err(ConfigError::DegenerateBounds { min: 5000, max: 5000 }));
}

#[test]
fn new_rejects_inverted_bounds() {
    let result = CameraController::new(origin(), 9000, 3000);
    assert_eq!(result, Err(ConfigError::DegenerateBounds { min: 9000, max: 3000 }));
}

#[test]
fn new_accepts_proper_bounds() {
    let controller = CameraController::new(origin(), 3000, 9000).unwrap();
    assert_eq!(controller.target, origin());
    assert_eq!(controller.min_distance, 3000);
    assert_eq!(controller.max_distance, 9000);
    assert_eq!(controller.drag_speed, DRAG_SPEED);
    assert_eq!(controller.zoom_speed, INITIAL_ZOOM_SPEED);
}

#[test]
fn scroll_at_half_range_zooms_at_quarter_speed() {
    // Target at the origin, bounds 1.0 and 100.0, camera 50.5 away: the
    // shaped zoom speed is 0.251 in whole units.
    let mut controller = CameraController::new(origin(), 1000, 100000).unwrap();
    let events = vec![InputEvent::Scroll { delta: -2 }];
    let commands = controller.handle_events(50500, &events);
    assert_eq!(controller.zoom_speed, 251);
    assert_eq!(
        commands,
        vec![MotionCommand {
            action: Action::Zoom { target: origin(), min: 1000, max: 100000, speed: 251 },
            amount: -2,
        }]
    );
}

#[test]
fn drags_map_to_pans_and_orbits() {
    let target = Point3 { x: 2000, y: -500, z: 0 };
    let mut controller = CameraController::new(target, 1000, 100000).unwrap();
    let events = vec![
        InputEvent::Drag { button: MouseButton::Left, delta_x: 3, delta_y: 4 },
        InputEvent::Drag { button: MouseButton::Right, delta_x: -1, delta_y: 2 },
        InputEvent::Drag { button: MouseButton::Middle, delta_x: 9, delta_y: 9 },
        InputEvent::Other,
        InputEvent::Scroll { delta: 7 },
    ];
    let commands = controller.handle_events(1000, &events);
    assert_eq!(
        commands,
        vec![
            MotionCommand {
                action: Action::Pan { axis: Axis::Horizontal, speed: DRAG_SPEED },
                amount: 3,
            },
            MotionCommand {
                action: Action::Pan { axis: Axis::Vertical, speed: DRAG_SPEED },
                amount: 4,
            },
            MotionCommand {
                action: Action::Orbit { target, axis: Axis::Horizontal, speed: DRAG_SPEED },
                amount: -1,
            },
            MotionCommand {
                action: Action::Orbit { target, axis: Axis::Vertical, speed: DRAG_SPEED },
                amount: 2,
            },
            MotionCommand {
                action: Action::Zoom { target, min: 1000, max: 100000, speed: 1 },
                amount: 7,
            },
        ]
    );
}

#[test]
fn handle_events_keeps_configuration() {
    let target = Point3 { x: 1, y: 2, z: 3 };
    let mut controller = CameraController::new(target, 2000, 8000).unwrap();
    let commands = controller.handle_events(12000, &vec![]);
    assert!(commands.is_empty());
    assert_eq!(controller.target, target);
    assert_eq!(controller.min_distance, 2000);
    assert_eq!(controller.max_distance, 8000);
    assert_eq!(controller.drag_speed, DRAG_SPEED);
    assert_eq!(controller.zoom_speed, 501);
}

#[test]
fn zoom_speed_follows_the_camera_every_frame() {
    let mut controller = CameraController::new(origin(), 1000, 100000).unwrap();
    let events = vec![InputEvent::Scroll { delta: 1 }];
    let mut previous = 0u64;
    for distance in [1000u64, 20000, 40000, 60000, 80000, 100000] {
        let commands = controller.handle_events(distance, &events);
        assert_eq!(commands.len(), 1);
        assert!(controller.zoom_speed >= previous);
        previous = controller.zoom_speed;
    }
    assert_eq!(previous, 501);
}
