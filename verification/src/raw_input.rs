//! The raw-input window procedure, the message loop and the touchpad
//! registration.
//!
//! The window procedure alternates system calls and decisions, so it is
//! a state machine: the caller performs each action that `wnd_proc_step`
//! returns and hands back what the system answered as the next event.

use vstd::prelude::*;

verus! {

/// The message that delivers raw input to a window.
pub const WM_INPUT: u32 = 0x00FF;

/// Raw input came from a mouse.
pub const RIM_TYPEMOUSE: u32 = 0;

/// Raw input came from a keyboard.
pub const RIM_TYPEKEYBOARD: u32 = 1;

/// Raw input came from a HID device that is neither mouse nor keyboard.
pub const RIM_TYPEHID: u32 = 2;

/// The value that the raw-input queries return when they fail: `(UINT)-1`.
pub const RAW_INPUT_ERROR: u32 = 0xFFFF_FFFF;

/// Deliver input to the window even when it is not in the foreground.
pub const RIDEV_INPUTSINK: u32 = 0x0000_0100;

/// HID usage page of digitizers.
pub const DIGITIZER_USAGE_PAGE: u16 = 0x000D;

/// HID usage of a precision touchpad within the digitizer page.
pub const TOUCHPAD_USAGE: u16 = 0x0005;

/// Where the window procedure sends one raw input.
#[derive(Clone, Copy, Debug, PartialEq, Eq, Structural)]
pub enum InputRoute {
    /// Input of a HID device: handled as touchpad input.
    Touchpad,
    /// Keyboard input: only reported.
    Keyboard,
    /// Input of another device type: reported, then handled as touchpad input.
    Unexpected(u32),
}

/// Why the window procedure stopped.
#[derive(Clone, Copy, Debug, PartialEq, Eq, Structural)]
pub enum WndProcError {
    /// Asking for the size of the raw input failed.
    SizeQueryFailed,
    /// Reading the raw input failed.
    ReadFailed,
}

/// Where the window procedure stands.
#[derive(Clone, Copy, Debug, PartialEq, Eq, Structural)]
pub enum WndProcStage {
    /// Waiting for a message.
    Idle,
    /// Waiting for the size of the raw input.
    QueryingSize,
    /// Waiting for the raw input itself.
    ReadingInput,
    /// Stopped; nothing more happens.
    Failed(WndProcError),
}

/// What the system answered.
#[derive(Clone, Copy, Debug, PartialEq, Eq, Structural)]
pub enum WndProcEvent {
    /// A message arrived at the window.
    Message(u32),
    /// The size query returned `ret`.
    SizeQueried(u32),
    /// The read returned `ret`; the input's header names `device_type`.
    InputRead { ret: u32, device_type: u32 },
}

/// What the caller does next.
#[derive(Clone, Copy, Debug, PartialEq, Eq, Structural)]
pub enum WndProcAction {
    /// Hand the message to the default window procedure and return its result.
    DefaultProcedure,
    /// Ask for the size of the raw input.
    QuerySize,
    /// Read the raw input.
    ReadInput,
    /// Send the input where the route says, then return 0.
    Deliver(InputRoute),
    /// Stop with the error.
    Abort(WndProcError),
    /// The event does not belong to this stage: do nothing.
    Ignore,
}

/// Where the input of a device type goes.
pub open spec fn spec_route_input(device_type: u32) -> InputRoute {
    if device_type == RIM_TYPEHID {
        InputRoute::Touchpad
    } else if device_type == RIM_TYPEKEYBOARD {
        InputRoute::Keyboard
    } else {
        InputRoute::Unexpected(device_type)
    }
}

/// The route hands the input to the touchpad handler.
pub open spec fn spec_handles_touchpad(route: InputRoute) -> bool {
    !(route is Keyboard)
}

/// One transition of the window procedure.
pub open spec fn spec_wnd_proc_step(stage: WndProcStage, event: WndProcEvent) -> (WndProcStage, WndProcAction) {
    match (stage, event) {
        (WndProcStage::Idle, WndProcEvent::Message(msg)) => if msg == WM_INPUT {
            (WndProcStage::QueryingSize, WndProcAction::QuerySize)
        } else {
            (WndProcStage::Idle, WndProcAction::DefaultProcedure)
        },
        (WndProcStage::QueryingSize, WndProcEvent::SizeQueried(ret)) => if ret == RAW_INPUT_ERROR {
            (
                WndProcStage::Failed(WndProcError::SizeQueryFailed),
                WndProcAction::Abort(WndProcError::SizeQueryFailed),
            )
        } else {
            (WndProcStage::ReadingInput, WndProcAction::ReadInput)
        },
        (WndProcStage::ReadingInput, WndProcEvent::InputRead { ret, device_type }) => if ret
            == RAW_INPUT_ERROR {
            (
                WndProcStage::Failed(WndProcError::ReadFailed),
                WndProcAction::Abort(WndProcError::ReadFailed),
            )
        } else {
            (WndProcStage::Idle, WndProcAction::Deliver(spec_route_input(device_type)))
        },
        _ => (stage, WndProcAction::Ignore),
    }
}

/// Routes the input of a device type: HID input goes to the touchpad
/// handler, keyboard input is only reported, input of any other type is
/// reported and then handled as touchpad input.
pub fn route_input(device_type: u32) -> (r: InputRoute)
    ensures
        r == spec_route_input(device_type),
{
    if device_type == RIM_TYPEHID {
        InputRoute::Touchpad
    } else if device_type == RIM_TYPEKEYBOARD {
        InputRoute::Keyboard
    } else {
        InputRoute::Unexpected(device_type)
    }
}

impl InputRoute {
    /// Whether this route calls the touchpad handler.
    pub fn handles_touchpad(&self) -> (b: bool)
        ensures
            b == spec_handles_touchpad(*self),
    {
        match self {
            InputRoute::Keyboard => false,
            _ => true,
        }
    }
}

/// One transition of the window procedure. A `WM_INPUT` message asks for
/// the input's size, then reads the input, then delivers it by device
/// type; either query returning `RAW_INPUT_ERROR` stops the procedure.
/// Every other message goes to the default window procedure.
pub fn wnd_proc_step(stage: WndProcStage, event: WndProcEvent) -> (r: (WndProcStage, WndProcAction))
    ensures
        r == spec_wnd_proc_step(stage, event),
{
    match (stage, event) {
        (WndProcStage::Idle, WndProcEvent::Message(msg)) => {
            if msg == WM_INPUT {
                (WndProcStage::QueryingSize, WndProcAction::QuerySize)
            } else {
                (WndProcStage::Idle, WndProcAction::DefaultProcedure)
            }
        },
        (WndProcStage::QueryingSize, WndProcEvent::SizeQueried(ret)) => {
            if ret == RAW_INPUT_ERROR {
                (
                    WndProcStage::Failed(WndProcError::SizeQueryFailed),
                    WndProcAction::Abort(WndProcError::SizeQueryFailed),
                )
            } else {
                (WndProcStage::ReadingInput, WndProcAction::ReadInput)
            }
        },
        (WndProcStage::ReadingInput, WndProcEvent::InputRead { ret, device_type }) => {
            if ret == RAW_INPUT_ERROR {
                (
                    WndProcStage::Failed(WndProcError::ReadFailed),
                    WndProcAction::Abort(WndProcError::ReadFailed),
                )
            } else {
                (WndProcStage::Idle, WndProcAction::Deliver(route_input(device_type)))
            }
        },
        _ => (stage, WndProcAction::Ignore),
    }
}

/// Whether the message loop goes on after `GetMessage` returned `ret`:
/// only while a message was retrieved (1); a quit (0) or an error (-1)
/// ends it.
pub fn message_loop_continues(ret: i32) -> (b: bool)
    ensures
        b == (ret == 1),
{
    ret == 1
}

/// Whether a listed device is a HID device, whose preparsed data is read.
pub fn is_hid_device(device_type: u32) -> (b: bool)
    ensures
        b == (device_type == RIM_TYPEHID),
{
    device_type == RIM_TYPEHID
}

/// The raw-input registration that the listener window asks for.
#[derive(Clone, Copy, Debug, PartialEq, Eq, Structural)]
pub struct DeviceRegistration {
    pub usage_page: u16,
    pub usage: u16,
    pub flags: u32,
}

/// Registration for precision touchpads (digitizer page, touchpad usage),
/// delivered to the window even in the background.
pub fn touchpad_registration() -> (r: DeviceRegistration)
    ensures
        r.usage_page == DIGITIZER_USAGE_PAGE,
        r.usage == TOUCHPAD_USAGE,
        r.flags == RIDEV_INPUTSINK,
{
    DeviceRegistration { usage_page: DIGITIZER_USAGE_PAGE, usage: TOUCHPAD_USAGE, flags: RIDEV_INPUTSINK }
}

/// Every message other than `WM_INPUT` goes to the default window
/// procedure, and the window procedure stays ready for the next message.
pub proof fn other_messages_go_to_default(msg: u32)
    requires
        msg != WM_INPUT,
    ensures
        spec_wnd_proc_step(WndProcStage::Idle, WndProcEvent::Message(msg)) == (
            WndProcStage::Idle,
            WndProcAction::DefaultProcedure,
        ),
{
}

/// A `WM_INPUT` message whose size query and read both succeed is
/// delivered by its device type, and the window procedure is then ready
/// for the next message.
pub proof fn raw_input_delivered(size_ret: u32, read_ret: u32, device_type: u32)
    requires
        size_ret != RAW_INPUT_ERROR,
        read_ret != RAW_INPUT_ERROR,
    ensures
        ({
            let (s1, a1) = spec_wnd_proc_step(WndProcStage::Idle, WndProcEvent::Message(WM_INPUT));
            let (s2, a2) = spec_wnd_proc_step(s1, WndProcEvent::SizeQueried(size_ret));
            let (s3, a3) = spec_wnd_proc_step(
                s2,
                WndProcEvent::InputRead { ret: read_ret, device_type },
            );
            &&& a1 == WndProcAction::QuerySize
            &&& a2 == WndProcAction::ReadInput
            &&& a3 == WndProcAction::Deliver(spec_route_input(device_type))
            &&& s3 == WndProcStage::Idle
        }),
{
}

/// A failed query stops the window procedure for good: it ignores every
/// later event.
pub proof fn wnd_proc_failure_is_final(err: WndProcError, event: WndProcEvent)
    ensures
        spec_wnd_proc_step(WndProcStage::Failed(err), event) == (
            WndProcStage::Failed(err),
            WndProcAction::Ignore,
        ),
{
}

/// Input reaches the touchpad handler exactly when it does not come from
/// a keyboard.
pub proof fn touchpad_handles_all_but_keyboards(device_type: u32)
    ensures
        spec_handles_touchpad(spec_route_input(device_type)) <==> device_type != RIM_TYPEKEYBOARD,
{
}

} // verus!
