use kinetik::physics::{InputAction, InputFrame, MouseCapturePolicy};

#[test]
fn input_frame_stores_actions_in_deterministic_order() {
    let frame = InputFrame::new()
        .with_action(InputAction::MoveRight)
        .with_action(InputAction::MoveForward)
        .with_action(InputAction::MoveRight)
        .with_mouse_capture(MouseCapturePolicy::Captured);

    assert_eq!(
        frame.actions(),
        &[InputAction::MoveForward, InputAction::MoveRight]
    );
    assert!(frame.is_pressed(InputAction::MoveRight));
    assert!(!frame.is_pressed(InputAction::Interact));
    assert_eq!(frame.mouse_capture(), MouseCapturePolicy::Captured);
}

#[test]
fn input_frame_from_actions_deduplicates_and_orders() {
    let frame = InputFrame::from_actions(vec![
        InputAction::Interact,
        InputAction::MoveLeft,
        InputAction::Interact,
        InputAction::MoveForward,
    ]);
    assert_eq!(
        frame.actions(),
        &[InputAction::MoveForward, InputAction::MoveLeft, InputAction::Interact]
    );
    assert_eq!(frame.mouse_capture(), MouseCapturePolicy::Released);
    assert_eq!(InputFrame::default(), InputFrame::new());
}
