use touchtablet::raw_input::{
    is_hid_device, message_loop_continues, route_input, touchpad_registration, wnd_proc_step,
    DeviceRegistration, InputRoute, WndProcAction, WndProcError, WndProcEvent, WndProcStage,
    RAW_INPUT_ERROR, RIM_TYPEHID, RIM_TYPEKEYBOARD, RIM_TYPEMOUSE, WM_INPUT,
};

#[test]
fn other_messages_go_to_default_procedure() {
    for msg in [0x0001u32, 0x000F, 0x0200, 0x00FE, 0x0100] {
        assert_eq!(
            wnd_proc_step(WndProcStage::Idle, WndProcEvent::Message(msg)),
            (WndProcStage::Idle, WndProcAction::DefaultProcedure)
        );
    }
}

#[test]
fn raw_input_message_is_queried_read_and_delivered() {
    let (s, a) = wnd_proc_step(WndProcStage::Idle, WndProcEvent::Message(WM_INPUT));
    assert_eq!((s, a), (WndProcStage::QueryingSize, WndProcAction::QuerySize));
    let (s, a) = wnd_proc_step(s, WndProcEvent::SizeQueried(0));
    assert_eq!((s, a), (WndProcStage::ReadingInput, WndProcAction::ReadInput));
    let (s, a) = wnd_proc_step(s, WndProcEvent::InputRead { ret: 48, device_type: RIM_TYPEHID });
    assert_eq!((s, a), (WndProcStage::Idle, WndProcAction::Deliver(InputRoute::Touchpad)));
}

#[test]
fn failed_size_query_aborts() {
    let (s, a) = wnd_proc_step(WndProcStage::QueryingSize, WndProcEvent::SizeQueried(RAW_INPUT_ERROR));
    assert_eq!(s, WndProcStage::Failed(WndProcError::SizeQueryFailed));
    assert_eq!(a, WndProcAction::Abort(WndProcError::SizeQueryFailed));
}

#[test]
fn failed_read_aborts() {
    let (s, a) = wnd_proc_step(
        WndProcStage::ReadingInput,
        WndProcEvent::InputRead { ret: RAW_INPUT_ERROR, device_type: RIM_TYPEHID },
    );
    assert_eq!(s, WndProcStage::Failed(WndProcError::ReadFailed));
    assert_eq!(a, WndProcAction::Abort(WndProcError::ReadFailed));
}

#[test]
fn failure_is_final() {
    let failed = WndProcStage::Failed(WndProcError::ReadFailed);
    for event in [
        WndProcEvent::Message(WM_INPUT),
        WndProcEvent::SizeQueried(0),
        WndProcEvent::InputRead { ret: 0, device_type: RIM_TYPEHID },
    ] {
        assert_eq!(wnd_proc_step(failed, event), (failed, WndProcAction::Ignore));
    }
}

#[test]
fn out_of_step_events_are_ignored() {
    assert_eq!(
        wnd_proc_step(WndProcStage::Idle, WndProcEvent::SizeQueried(0)),
        (WndProcStage::Idle, WndProcAction::Ignore)
    );
    assert_eq!(
        wnd_proc_step(WndProcStage::QueryingSize, WndProcEvent::Message(WM_INPUT)),
        (WndProcStage::QueryingSize, WndProcAction::Ignore)
    );
}

#[test]
fn routes_by_device_type() {
    assert_eq!(route_input(RIM_TYPEHID), InputRoute::Touchpad);
    assert_eq!(route_input(RIM_TYPEKEYBOARD), InputRoute::Keyboard);
    assert_eq!(route_input(RIM_TYPEMOUSE), InputRoute::Unexpected(RIM_TYPEMOUSE));
    assert_eq!(route_input(7), InputRoute::Unexpected(7));
}

#[test]
fn only_keyboards_skip_the_touchpad_handler() {
    assert!(route_input(RIM_TYPEHID).handles_touchpad());
    assert!(!route_input(RIM_TYPEKEYBOARD).handles_touchpad());
    assert!(route_input(RIM_TYPEMOUSE).handles_touchpad());
    assert!(route_input(9).handles_touchpad());
}

#[test]
fn message_loop_runs_only_while_messages_arrive() {
    assert!(message_loop_continues(1));
    assert!(!message_loop_continues(0));
    assert!(!message_loop_continues(-1));
    assert!(!message_loop_continues(2));
}

#[test]
fn hid_devices_are_recognized() {
    assert!(is_hid_device(RIM_TYPEHID));
    assert!(!is_hid_device(RIM_TYPEKEYBOARD));
    assert!(!is_hid_device(RIM_TYPEMOUSE));
}

#[test]
fn registration_asks_for_precision_touchpads_in_background() {
    assert_eq!(
        touchpad_registration(),
        DeviceRegistration { usage_page: 0x000D, usage: 0x0005, flags: 0x0000_0100 }
    );
}
