use touchtablet::hid::{
    garbage_vec, preparsed_start, preparsed_step, touchpad_start, touchpad_step, PreparsedAction,
    PreparsedError, PreparsedEvent, PreparsedStage, TouchpadAction, TouchpadError,
    TouchpadEvent, TouchpadStage, HIDP_STATUS_SUCCESS, USAGE_X, USAGE_Y,
};
use touchtablet::pointer::{MouseMove, VirtualScreen};

fn caps_ok(value_caps: u16) -> PreparsedEvent {
    PreparsedEvent::CapsRead { status: HIDP_STATUS_SUCCESS, value_caps }
}

#[test]
fn preparsed_reading_succeeds() {
    let (s, a) = preparsed_start();
    assert_eq!((s, a), (PreparsedStage::QueryingSize, PreparsedAction::QuerySize));
    let (s, a) = preparsed_step(s, PreparsedEvent::SizeQueried { ret: 0, size: 512 });
    assert_eq!((s, a), (PreparsedStage::ReadingData, PreparsedAction::ReadData { capacity: 512 }));
    let (s, a) = preparsed_step(s, PreparsedEvent::DataRead { ret: 500, size: 500 });
    assert_eq!((s, a), (PreparsedStage::ReadingCaps, PreparsedAction::ReadCaps { length: 500 }));
    let (s, a) = preparsed_step(s, caps_ok(3));
    assert_eq!((s, a), (PreparsedStage::Ready { value_caps: 3 }, PreparsedAction::Done { value_caps: 3 }));
}

#[test]
fn preparsed_size_query_must_return_zero() {
    let (s, a) = preparsed_step(PreparsedStage::QueryingSize, PreparsedEvent::SizeQueried { ret: 1, size: 512 });
    assert_eq!(s, PreparsedStage::Failed(PreparsedError::SizeQueryFailed));
    assert_eq!(a, PreparsedAction::Abort(PreparsedError::SizeQueryFailed));
}

#[test]
fn preparsed_read_error_aborts() {
    let (s, a) = preparsed_step(PreparsedStage::ReadingData, PreparsedEvent::DataRead { ret: u32::MAX, size: 512 });
    assert_eq!(s, PreparsedStage::Failed(PreparsedError::ReadFailed));
    assert_eq!(a, PreparsedAction::Abort(PreparsedError::ReadFailed));
    // Any other return value, zero included, goes on.
    let (_, a) = preparsed_step(PreparsedStage::ReadingData, PreparsedEvent::DataRead { ret: 0, size: 7 });
    assert_eq!(a, PreparsedAction::ReadCaps { length: 7 });
}

#[test]
fn preparsed_caps_must_parse() {
    let invalid_preparsed_data: i32 = (0xC << 28) | (0x11 << 16) | 1;
    let (s, a) = preparsed_step(
        PreparsedStage::ReadingCaps,
        PreparsedEvent::CapsRead { status: invalid_preparsed_data, value_caps: 2 },
    );
    assert_eq!(s, PreparsedStage::Failed(PreparsedError::CapsFailed));
    assert_eq!(a, PreparsedAction::Abort(PreparsedError::CapsFailed));
}

#[test]
fn preparsed_failure_is_final() {
    let failed = PreparsedStage::Failed(PreparsedError::CapsFailed);
    assert_eq!(
        preparsed_step(failed, PreparsedEvent::SizeQueried { ret: 0, size: 1 }),
        (failed, PreparsedAction::Ignore)
    );
}

fn run(events: &[TouchpadEvent]) -> Vec<TouchpadAction> {
    let (mut stage, first) = touchpad_start();
    let mut actions = vec![first];
    for &event in events {
        let (next, action) = touchpad_step(stage, event);
        stage = next;
        actions.push(action);
    }
    actions
}

#[test]
fn touchpad_report_moves_pointer() {
    let screen = VirtualScreen { left: 0, top: 0, width: 1920, height: 1080 };
    let actions = run(&[
        TouchpadEvent::Preparsed(PreparsedEvent::SizeQueried { ret: 0, size: 256 }),
        TouchpadEvent::Preparsed(PreparsedEvent::DataRead { ret: 256, size: 256 }),
        TouchpadEvent::Preparsed(caps_ok(2)),
        TouchpadEvent::ValueCapsListed,
        TouchpadEvent::UsageRead(610),
        TouchpadEvent::UsageRead(305),
        TouchpadEvent::ScreenRead(screen),
    ]);
    assert_eq!(
        actions,
        vec![
            TouchpadAction::Preparsed(PreparsedAction::QuerySize),
            TouchpadAction::Preparsed(PreparsedAction::ReadData { capacity: 256 }),
            TouchpadAction::Preparsed(PreparsedAction::ReadCaps { length: 256 }),
            TouchpadAction::ListValueCaps { count: 2 },
            TouchpadAction::ReadUsage { usage: USAGE_X },
            TouchpadAction::ReadUsage { usage: USAGE_Y },
            TouchpadAction::ReadScreen,
            // x: 610 -> 960 px -> 32767; y: 305 -> 480 px -> 29126.
            TouchpadAction::Send(MouseMove { dx: 32767, dy: 29126, flags: 0xC001 }),
        ]
    );
}

#[test]
fn touchpad_without_value_caps_does_not_move() {
    let actions = run(&[
        TouchpadEvent::Preparsed(PreparsedEvent::SizeQueried { ret: 0, size: 64 }),
        TouchpadEvent::Preparsed(PreparsedEvent::DataRead { ret: 64, size: 64 }),
        TouchpadEvent::Preparsed(caps_ok(0)),
        TouchpadEvent::ValueCapsListed,
    ]);
    assert_eq!(actions.last(), Some(&TouchpadAction::Finish));
    assert!(!actions.iter().any(|a| matches!(a, TouchpadAction::ReadUsage { .. })));
}

#[test]
fn touchpad_preparsed_failure_aborts() {
    let actions = run(&[TouchpadEvent::Preparsed(PreparsedEvent::SizeQueried { ret: 5, size: 64 })]);
    assert_eq!(
        actions.last(),
        Some(&TouchpadAction::Abort(TouchpadError::Preparsed(PreparsedError::SizeQueryFailed)))
    );
}

#[test]
fn touchpad_scale_overflow_aborts() {
    let (s, a) = touchpad_step(TouchpadStage::ReadingY { x: 10 }, TouchpadEvent::UsageRead(u32::MAX));
    assert_eq!(s, TouchpadStage::Failed(TouchpadError::ScaleOverflow));
    assert_eq!(a, TouchpadAction::Abort(TouchpadError::ScaleOverflow));
    let (_, a) = touchpad_step(TouchpadStage::ReadingY { x: 2_236_963 }, TouchpadEvent::UsageRead(1));
    assert_eq!(a, TouchpadAction::Abort(TouchpadError::ScaleOverflow));
}

#[test]
fn touchpad_move_overflow_aborts() {
    let screen = VirtualScreen { left: 0, top: 0, width: 0, height: 1080 };
    let (s, a) = touchpad_step(TouchpadStage::MeasuringScreen { x: 1, y: 1 }, TouchpadEvent::ScreenRead(screen));
    assert_eq!(s, TouchpadStage::Failed(TouchpadError::MoveOverflow));
    assert_eq!(a, TouchpadAction::Abort(TouchpadError::MoveOverflow));
}

#[test]
fn touchpad_failure_is_final() {
    let failed = TouchpadStage::Failed(TouchpadError::ScaleOverflow);
    assert_eq!(touchpad_step(failed, TouchpadEvent::ValueCapsListed), (failed, TouchpadAction::Ignore));
}

#[test]
fn touchpad_out_of_step_events_are_ignored() {
    let stage = TouchpadStage::ReadingX;
    assert_eq!(touchpad_step(stage, TouchpadEvent::ValueCapsListed), (stage, TouchpadAction::Ignore));
    let stage = TouchpadStage::Preparing(PreparsedStage::ReadingData);
    assert_eq!(
        touchpad_step(stage, TouchpadEvent::Preparsed(caps_ok(1))),
        (stage, TouchpadAction::Ignore)
    );
}

#[test]
fn garbage_vec_has_requested_length() {
    let v: Vec<u32> = garbage_vec(5);
    assert_eq!(v, vec![0u32; 5]);
    let empty: Vec<u16> = garbage_vec(0);
    assert!(empty.is_empty());
}
