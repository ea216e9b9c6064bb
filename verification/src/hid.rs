//! Reading a HID device's preparsed data and turning one touchpad report
//! into an absolute mouse move.
//!
//! Both are state machines: the caller performs each action with the
//! system's HID and raw-input calls and hands back what they returned.

use vstd::prelude::*;
use crate::pointer::{
    VirtualScreen, MouseMove, checked_scale_touch, checked_mouse_move, touch_scalable,
    scaled_touch, move_defined, spec_mouse_move, axis_arithmetic_fits, is_quotient_toward_zero,
    scale_touch_succeeds_up_to_overflow, mouse_move_refused_only_on_overflow,
    mouse_move_defined_without_overflow,
};

verus! {

/// Raw-input device query for the device's preparsed HID data.
pub const RIDI_PREPARSEDDATA: u32 = 0x2000_0005;

/// The status of a successful HID parsing call.
pub const HIDP_STATUS_SUCCESS: i32 = 0x0011_0000;

/// The HID usage page of generic desktop controls.
pub const GENERIC_DESKTOP_PAGE: u16 = 0x0001;

/// The usage of the X coordinate within the generic desktop page.
pub const USAGE_X: u16 = 0x0030;

/// The usage of the Y coordinate within the generic desktop page.
pub const USAGE_Y: u16 = 0x0031;

/// The link collection in which the coordinates are read.
pub const COORDINATE_LINK_COLLECTION: u16 = 0;

/// Why reading the preparsed data stopped.
#[derive(Clone, Copy, Debug, PartialEq, Eq, Structural)]
pub enum PreparsedError {
    /// The size query did not return 0.
    SizeQueryFailed,
    /// Reading the data returned `(UINT)-1`.
    ReadFailed,
    /// The capabilities could not be parsed from the data.
    CapsFailed,
}

/// Where the reading of preparsed data stands.
#[derive(Clone, Copy, Debug, PartialEq, Eq, Structural)]
pub enum PreparsedStage {
    /// Waiting for the size of the data.
    QueryingSize,
    /// Waiting for the data.
    ReadingData,
    /// Waiting for the capabilities parsed from the data.
    ReadingCaps,
    /// Done: the device has `value_caps` input value capabilities.
    Ready { value_caps: u16 },
    /// Stopped; nothing more happens.
    Failed(PreparsedError),
}

/// What a HID or raw-input call returned.
#[derive(Clone, Copy, Debug, PartialEq, Eq, Structural)]
pub enum PreparsedEvent {
    /// The size query returned `ret` and reported `size` bytes.
    SizeQueried { ret: u32, size: u32 },
    /// The read returned `ret` and reported `size` bytes.
    DataRead { ret: u32, size: u32 },
    /// Parsing the capabilities returned `status`; the capabilities count
    /// `value_caps` input value capabilities.
    CapsRead { status: i32, value_caps: u16 },
}

/// What the caller does next.
#[derive(Clone, Copy, Debug, PartialEq, Eq, Structural)]
pub enum PreparsedAction {
    /// Ask for the size of the preparsed data.
    QuerySize,
    /// Read the data into a zeroed buffer of `capacity` bytes.
    ReadData { capacity: u32 },
    /// Cut the buffer to `length` bytes (where it is longer), then parse
    /// the capabilities from it.
    ReadCaps { length: u32 },
    /// The data is read and parsed.
    Done { value_caps: u16 },
    /// Stop with the error.
    Abort(PreparsedError),
    /// The event does not belong to this stage: do nothing.
    Ignore,
}

/// One transition of the preparsed-data reading.
pub open spec fn spec_preparsed_step(stage: PreparsedStage, event: PreparsedEvent) -> (PreparsedStage, PreparsedAction) {
    match (stage, event) {
        (PreparsedStage::QueryingSize, PreparsedEvent::SizeQueried { ret, size }) => if ret != 0 {
            (
                PreparsedStage::Failed(PreparsedError::SizeQueryFailed),
                PreparsedAction::Abort(PreparsedError::SizeQueryFailed),
            )
        } else {
            (PreparsedStage::ReadingData, PreparsedAction::ReadData { capacity: size })
        },
        (PreparsedStage::ReadingData, PreparsedEvent::DataRead { ret, size }) => if ret
            == 0xFFFF_FFFFu32 {
            (
                PreparsedStage::Failed(PreparsedError::ReadFailed),
                PreparsedAction::Abort(PreparsedError::ReadFailed),
            )
        } else {
            (PreparsedStage::ReadingCaps, PreparsedAction::ReadCaps { length: size })
        },
        (PreparsedStage::ReadingCaps, PreparsedEvent::CapsRead { status, value_caps }) => if status
            != HIDP_STATUS_SUCCESS {
            (
                PreparsedStage::Failed(PreparsedError::CapsFailed),
                PreparsedAction::Abort(PreparsedError::CapsFailed),
            )
        } else {
            (PreparsedStage::Ready { value_caps }, PreparsedAction::Done { value_caps })
        },
        _ => (stage, PreparsedAction::Ignore),
    }
}

/// The reading of preparsed data starts by asking for its size.
pub fn preparsed_start() -> (r: (PreparsedStage, PreparsedAction))
    ensures
        r == (PreparsedStage::QueryingSize, PreparsedAction::QuerySize),
{
    (PreparsedStage::QueryingSize, PreparsedAction::QuerySize)
}

/// One transition of the preparsed-data reading: the size query must
/// return 0, the read must not return `(UINT)-1` and the capabilities
/// must parse with `HIDP_STATUS_SUCCESS`; the first failure stops it.
/// The buffer is as large as the size query said and is cut to the size
/// that the read reported.
pub fn preparsed_step(stage: PreparsedStage, event: PreparsedEvent) -> (r: (
    PreparsedStage,
    PreparsedAction,
))
    ensures
        r == spec_preparsed_step(stage, event),
{
    match (stage, event) {
        (PreparsedStage::QueryingSize, PreparsedEvent::SizeQueried { ret, size }) => {
            if ret != 0 {
                (
                    PreparsedStage::Failed(PreparsedError::SizeQueryFailed),
                    PreparsedAction::Abort(PreparsedError::SizeQueryFailed),
                )
            } else {
                (PreparsedStage::ReadingData, PreparsedAction::ReadData { capacity: size })
            }
        },
        (PreparsedStage::ReadingData, PreparsedEvent::DataRead { ret, size }) => {
            if ret == 0xFFFF_FFFFu32 {
                (
                    PreparsedStage::Failed(PreparsedError::ReadFailed),
                    PreparsedAction::Abort(PreparsedError::ReadFailed),
                )
            } else {
                (PreparsedStage::ReadingCaps, PreparsedAction::ReadCaps { length: size })
            }
        },
        (PreparsedStage::ReadingCaps, PreparsedEvent::CapsRead { status, value_caps }) => {
            if status != HIDP_STATUS_SUCCESS {
                (
                    PreparsedStage::Failed(PreparsedError::CapsFailed),
                    PreparsedAction::Abort(PreparsedError::CapsFailed),
                )
            } else {
                (PreparsedStage::Ready { value_caps }, PreparsedAction::Done { value_caps })
            }
        },
        _ => (stage, PreparsedAction::Ignore),
    }
}

/// Why handling a touchpad report stopped.
#[derive(Clone, Copy, Debug, PartialEq, Eq, Structural)]
pub enum TouchpadError {
    /// Reading the device's preparsed data failed.
    Preparsed(PreparsedError),
    /// A raw coordinate times the screen span left the range of `u32`.
    ScaleOverflow,
    /// Normalizing the scaled coordinates overflowed `i32` or divided by zero.
    MoveOverflow,
}

/// Where the handling of one touchpad report stands.
#[derive(Clone, Copy, Debug, PartialEq, Eq, Structural)]
pub enum TouchpadStage {
    /// Reading the device's preparsed data.
    Preparing(PreparsedStage),
    /// Waiting for the device's `count` input value capabilities to be listed.
    ListingValueCaps { count: u16 },
    /// Waiting for the X coordinate.
    ReadingX,
    /// Waiting for the Y coordinate; the raw X coordinate was `x`.
    ReadingY { x: u32 },
    /// Waiting for the geometry of the virtual desktop; the scaled
    /// coordinates are `(x, y)`.
    MeasuringScreen { x: i32, y: i32 },
    /// Done.
    Finished,
    /// Stopped; nothing more happens.
    Failed(TouchpadError),
}

/// What a HID, raw-input or system call returned.
#[derive(Clone, Copy, Debug, PartialEq, Eq, Structural)]
pub enum TouchpadEvent {
    /// A call of the preparsed-data reading returned.
    Preparsed(PreparsedEvent),
    /// The input value capabilities were listed.
    ValueCapsListed,
    /// The usage that was asked for has the raw value `value`.
    UsageRead(u32),
    /// The virtual desktop has this geometry.
    ScreenRead(VirtualScreen),
}

/// What the caller does next.
#[derive(Clone, Copy, Debug, PartialEq, Eq, Structural)]
pub enum TouchpadAction {
    /// A step of the preparsed-data reading (`QuerySize`, `ReadData` or `ReadCaps`).
    Preparsed(PreparsedAction),
    /// List `count` input value capabilities into a buffer of that length.
    ListValueCaps { count: u16 },
    /// Read the raw value of `usage` (generic desktop page, link
    /// collection 0) from the report.
    ReadUsage { usage: u16 },
    /// Measure the virtual desktop.
    ReadScreen,
    /// Send the mouse move; the report is handled.
    Send(MouseMove),
    /// The device has no input value capability: the report is handled
    /// without a move.
    Finish,
    /// Stop with the error.
    Abort(TouchpadError),
    /// The event does not belong to this stage: do nothing.
    Ignore,
}

/// One transition of the touchpad-report handling.
pub open spec fn spec_touchpad_step(stage: TouchpadStage, event: TouchpadEvent) -> (TouchpadStage, TouchpadAction) {
    match (stage, event) {
        (TouchpadStage::Preparing(p), TouchpadEvent::Preparsed(e)) => {
            let (next, action) = spec_preparsed_step(p, e);
            match action {
                PreparsedAction::Done { value_caps } => (
                    TouchpadStage::ListingValueCaps { count: value_caps },
                    TouchpadAction::ListValueCaps { count: value_caps },
                ),
                PreparsedAction::Abort(err) => (
                    TouchpadStage::Failed(TouchpadError::Preparsed(err)),
                    TouchpadAction::Abort(TouchpadError::Preparsed(err)),
                ),
                PreparsedAction::Ignore => (stage, TouchpadAction::Ignore),
                _ => (TouchpadStage::Preparing(next), TouchpadAction::Preparsed(action)),
            }
        },
        (TouchpadStage::ListingValueCaps { count }, TouchpadEvent::ValueCapsListed) => if count
            == 0 {
            (TouchpadStage::Finished, TouchpadAction::Finish)
        } else {
            (TouchpadStage::ReadingX, TouchpadAction::ReadUsage { usage: USAGE_X })
        },
        (TouchpadStage::ReadingX, TouchpadEvent::UsageRead(x)) => (
            TouchpadStage::ReadingY { x },
            TouchpadAction::ReadUsage { usage: USAGE_Y },
        ),
        (TouchpadStage::ReadingY { x }, TouchpadEvent::UsageRead(y)) => if touch_scalable(x)
            && touch_scalable(y) {
            (
                TouchpadStage::MeasuringScreen {
                    x: scaled_touch(x) as i32,
                    y: scaled_touch(y) as i32,
                },
                TouchpadAction::ReadScreen,
            )
        } else {
            (
                TouchpadStage::Failed(TouchpadError::ScaleOverflow),
                TouchpadAction::Abort(TouchpadError::ScaleOverflow),
            )
        },
        (TouchpadStage::MeasuringScreen { x, y }, TouchpadEvent::ScreenRead(screen)) => if move_defined(
            x,
            y,
            screen,
        ) {
            (TouchpadStage::Finished, TouchpadAction::Send(spec_mouse_move(x, y, screen)))
        } else {
            (
                TouchpadStage::Failed(TouchpadError::MoveOverflow),
                TouchpadAction::Abort(TouchpadError::MoveOverflow),
            )
        },
        _ => (stage, TouchpadAction::Ignore),
    }
}

/// The handling of a touchpad report starts by asking for the size of
/// the device's preparsed data.
pub fn touchpad_start() -> (r: (TouchpadStage, TouchpadAction))
    ensures
        r == (
            TouchpadStage::Preparing(PreparsedStage::QueryingSize),
            TouchpadAction::Preparsed(PreparsedAction::QuerySize),
        ),
{
    let (stage, action) = preparsed_start();
    (TouchpadStage::Preparing(stage), TouchpadAction::Preparsed(action))
}

/// One transition of the touchpad-report handling: read the preparsed
/// data, list the input value capabilities, and where there is at least
/// one, read the X then the Y usage, scale both to screen pixels
/// (`* 1920 / 1220`), measure the virtual desktop and send the absolute
/// move to that pixel. Any failure, and any overflow of the arithmetic,
/// stops it.
pub fn touchpad_step(stage: TouchpadStage, event: TouchpadEvent) -> (r: (
    TouchpadStage,
    TouchpadAction,
))
    ensures
        r == spec_touchpad_step(stage, event),
{
    match (stage, event) {
        (TouchpadStage::Preparing(p), TouchpadEvent::Preparsed(e)) => {
            let (next, action) = preparsed_step(p, e);
            match action {
                PreparsedAction::Done { value_caps } => (
                    TouchpadStage::ListingValueCaps { count: value_caps },
                    TouchpadAction::ListValueCaps { count: value_caps },
                ),
                PreparsedAction::Abort(err) => (
                    TouchpadStage::Failed(TouchpadError::Preparsed(err)),
                    TouchpadAction::Abort(TouchpadError::Preparsed(err)),
                ),
                PreparsedAction::Ignore => (stage, TouchpadAction::Ignore),
                _ => (TouchpadStage::Preparing(next), TouchpadAction::Preparsed(action)),
            }
        },
        (TouchpadStage::ListingValueCaps { count }, TouchpadEvent::ValueCapsListed) => {
            if count == 0 {
                (TouchpadStage::Finished, TouchpadAction::Finish)
            } else {
                (TouchpadStage::ReadingX, TouchpadAction::ReadUsage { usage: USAGE_X })
            }
        },
        (TouchpadStage::ReadingX, TouchpadEvent::UsageRead(x)) => (
            TouchpadStage::ReadingY { x },
            TouchpadAction::ReadUsage { usage: USAGE_Y },
        ),
        (TouchpadStage::ReadingY { x }, TouchpadEvent::UsageRead(y)) => {
            match (checked_scale_touch(x), checked_scale_touch(y)) {
                (Some(sx), Some(sy)) => (
                    TouchpadStage::MeasuringScreen { x: sx, y: sy },
                    TouchpadAction::ReadScreen,
                ),
                _ => (
                    TouchpadStage::Failed(TouchpadError::ScaleOverflow),
                    TouchpadAction::Abort(TouchpadError::ScaleOverflow),
                ),
            }
        },
        (TouchpadStage::MeasuringScreen { x, y }, TouchpadEvent::ScreenRead(screen)) => {
            match checked_mouse_move(x, y, &screen) {
                Some(m) => (TouchpadStage::Finished, TouchpadAction::Send(m)),
                None => (
                    TouchpadStage::Failed(TouchpadError::MoveOverflow),
                    TouchpadAction::Abort(TouchpadError::MoveOverflow),
                ),
            }
        },
        _ => (stage, TouchpadAction::Ignore),
    }
}

/// A buffer of `size` items for a system call to fill, each made by
/// `T::default()`.
pub fn garbage_vec<T: Default>(size: usize) -> (v: Vec<T>)
    ensures
        v.len() == size,
        forall|i: int| 0 <= i < size ==> call_ensures(T::default, (), #[trigger] v@[i]),
{
    let mut v: Vec<T> = Vec::with_capacity(size);
    let mut n: usize = 0;
    while n < size
        invariant
            n <= size,
            v.len() == n,
            forall|i: int| 0 <= i < n ==> call_ensures(T::default, (), #[trigger] v@[i]),
        decreases size - n,
    {
        v.push(T::default());
        n = n + 1;
    }
    v
}

/// Reading preparsed data whose size query returns 0, whose read does
/// not fail and whose capabilities parse asks for a buffer of the queried
/// size, cuts it to the size the read reported, and ends ready with the
/// parsed count of input value capabilities.
pub proof fn preparsed_success(size: u32, read_ret: u32, length: u32, value_caps: u16)
    requires
        read_ret != 0xFFFF_FFFFu32,
    ensures
        ({
            let (s1, a1) = spec_preparsed_step(
                PreparsedStage::QueryingSize,
                PreparsedEvent::SizeQueried { ret: 0, size },
            );
            let (s2, a2) = spec_preparsed_step(
                s1,
                PreparsedEvent::DataRead { ret: read_ret, size: length },
            );
            let (s3, a3) = spec_preparsed_step(
                s2,
                PreparsedEvent::CapsRead { status: HIDP_STATUS_SUCCESS, value_caps },
            );
            &&& a1 == PreparsedAction::ReadData { capacity: size }
            &&& a2 == PreparsedAction::ReadCaps { length }
            &&& a3 == PreparsedAction::Done { value_caps }
            &&& s3 == PreparsedStage::Ready { value_caps }
        }),
{
}

/// A failed step stops the preparsed-data reading for good.
pub proof fn preparsed_failure_is_final(err: PreparsedError, event: PreparsedEvent)
    ensures
        spec_preparsed_step(PreparsedStage::Failed(err), event) == (
            PreparsedStage::Failed(err),
            PreparsedAction::Ignore,
        ),
{
}

/// A failed step stops the touchpad-report handling for good.
pub proof fn touchpad_failure_is_final(err: TouchpadError, event: TouchpadEvent)
    ensures
        spec_touchpad_step(TouchpadStage::Failed(err), event) == (
            TouchpadStage::Failed(err),
            TouchpadAction::Ignore,
        ),
{
}

/// A report from a device without input value capabilities is handled
/// without reading any coordinate and without a move.
pub proof fn no_value_caps_no_move()
    ensures
        spec_touchpad_step(
            TouchpadStage::ListingValueCaps { count: 0 },
            TouchpadEvent::ValueCapsListed,
        ) == (TouchpadStage::Finished, TouchpadAction::Finish),
{
}

/// A report whose preparsed data reads and parses, whose device has an
/// input value capability and whose coordinates scale and normalize
/// without overflow ends in exactly one move: the absolute move to the
/// scaled X and Y coordinates.
pub proof fn touchpad_report_moves_pointer(
    size: u32,
    read_ret: u32,
    length: u32,
    value_caps: u16,
    x: u32,
    y: u32,
    screen: VirtualScreen,
)
    requires
        read_ret != 0xFFFF_FFFFu32,
        value_caps > 0,
        touch_scalable(x),
        touch_scalable(y),
        move_defined(scaled_touch(x) as i32, scaled_touch(y) as i32, screen),
    ensures
        ({
            let (s1, a1) = spec_touchpad_step(
                TouchpadStage::Preparing(PreparsedStage::QueryingSize),
                TouchpadEvent::Preparsed(PreparsedEvent::SizeQueried { ret: 0, size }),
            );
            let (s2, a2) = spec_touchpad_step(
                s1,
                TouchpadEvent::Preparsed(PreparsedEvent::DataRead { ret: read_ret, size: length }),
            );
            let (s3, a3) = spec_touchpad_step(
                s2,
                TouchpadEvent::Preparsed(
                    PreparsedEvent::CapsRead { status: HIDP_STATUS_SUCCESS, value_caps },
                ),
            );
            let (s4, a4) = spec_touchpad_step(s3, TouchpadEvent::ValueCapsListed);
            let (s5, a5) = spec_touchpad_step(s4, TouchpadEvent::UsageRead(x));
            let (s6, a6) = spec_touchpad_step(s5, TouchpadEvent::UsageRead(y));
            let (s7, a7) = spec_touchpad_step(s6, TouchpadEvent::ScreenRead(screen));
            &&& a1 == TouchpadAction::Preparsed(PreparsedAction::ReadData { capacity: size })
            &&& a2 == TouchpadAction::Preparsed(PreparsedAction::ReadCaps { length })
            &&& a3 == TouchpadAction::ListValueCaps { count: value_caps }
            &&& a4 == TouchpadAction::ReadUsage { usage: USAGE_X }
            &&& a5 == TouchpadAction::ReadUsage { usage: USAGE_Y }
            &&& a6 == TouchpadAction::ReadScreen
            &&& a7 == TouchpadAction::Send(
                spec_mouse_move(scaled_touch(x) as i32, scaled_touch(y) as i32, screen),
            )
            &&& s7 == TouchpadStage::Finished
        }),
{
}

/// The size query decides: any return value but 0 stops the reading;
/// 0 asks for a buffer of exactly the reported size.
pub proof fn preparsed_size_query_decides(ret: u32, size: u32)
    ensures
        ret != 0 ==> spec_preparsed_step(
            PreparsedStage::QueryingSize,
            PreparsedEvent::SizeQueried { ret, size },
        ) == (
            PreparsedStage::Failed(PreparsedError::SizeQueryFailed),
            PreparsedAction::Abort(PreparsedError::SizeQueryFailed),
        ),
        ret == 0 ==> spec_preparsed_step(
            PreparsedStage::QueryingSize,
            PreparsedEvent::SizeQueried { ret, size },
        ) == (PreparsedStage::ReadingData, PreparsedAction::ReadData { capacity: size }),
{
}

/// The read decides: only `(UINT)-1` stops the reading; any other return
/// value keeps exactly the reported number of bytes.
pub proof fn preparsed_read_decides(ret: u32, size: u32)
    ensures
        ret == u32::MAX ==> spec_preparsed_step(
            PreparsedStage::ReadingData,
            PreparsedEvent::DataRead { ret, size },
        ) == (
            PreparsedStage::Failed(PreparsedError::ReadFailed),
            PreparsedAction::Abort(PreparsedError::ReadFailed),
        ),
        ret != u32::MAX ==> spec_preparsed_step(
            PreparsedStage::ReadingData,
            PreparsedEvent::DataRead { ret, size },
        ) == (PreparsedStage::ReadingCaps, PreparsedAction::ReadCaps { length: size }),
{
}

/// Parsing the capabilities decides: any status but `HIDP_STATUS_SUCCESS`
/// stops the reading; success ends it with the parsed count of input
/// value capabilities.
pub proof fn preparsed_caps_decide(status: i32, value_caps: u16)
    ensures
        status != 0x0011_0000i32 ==> spec_preparsed_step(
            PreparsedStage::ReadingCaps,
            PreparsedEvent::CapsRead { status, value_caps },
        ) == (
            PreparsedStage::Failed(PreparsedError::CapsFailed),
            PreparsedAction::Abort(PreparsedError::CapsFailed),
        ),
        status == 0x0011_0000i32 ==> spec_preparsed_step(
            PreparsedStage::ReadingCaps,
            PreparsedEvent::CapsRead { status, value_caps },
        ) == (PreparsedStage::Ready { value_caps }, PreparsedAction::Done { value_caps }),
{
}

/// A failure of the preparsed-data reading stops the touchpad-report
/// handling with that same failure.
pub proof fn touchpad_stops_on_preparsed_failure(
    p: PreparsedStage,
    e: PreparsedEvent,
    err: PreparsedError,
)
    requires
        spec_preparsed_step(p, e).1 == PreparsedAction::Abort(err),
    ensures
        spec_touchpad_step(TouchpadStage::Preparing(p), TouchpadEvent::Preparsed(e)) == (
            TouchpadStage::Failed(TouchpadError::Preparsed(err)),
            TouchpadAction::Abort(TouchpadError::Preparsed(err)),
        ),
{
}

/// Once both raw coordinates are read, the handling goes on to measure
/// the screen exactly when both scale without overflowing `u32` (raw
/// values up to `u32::MAX / 1920`, 0 included), with each scaled
/// coordinate the largest pixel whose multiple of 1220 stays within
/// `raw * 1920`; otherwise it stops with `ScaleOverflow`.
pub proof fn touchpad_scales_up_to_overflow(x: u32, y: u32)
    ensures
        ({
            let (s, a) = spec_touchpad_step(TouchpadStage::ReadingY { x }, TouchpadEvent::UsageRead(y));
            &&& (a == TouchpadAction::ReadScreen) <==> (x <= 2236962 && y <= 2236962)
            &&& !(x <= 2236962 && y <= 2236962) ==> (s == TouchpadStage::Failed(
                TouchpadError::ScaleOverflow,
            ) && a == TouchpadAction::Abort(TouchpadError::ScaleOverflow))
            &&& (x <= 2236962 && y <= 2236962) ==> match s {
                TouchpadStage::MeasuringScreen { x: sx, y: sy } => {
                    &&& sx * 1220 <= x * 1920 < (sx + 1) * 1220
                    &&& sy * 1220 <= y * 1920 < (sy + 1) * 1220
                },
                _ => false,
            }
        }),
{
    scale_touch_succeeds_up_to_overflow(x);
    scale_touch_succeeds_up_to_overflow(y);
    if x <= 2236962 && y <= 2236962 {
        assert(scaled_touch(x) <= 3520465 && scaled_touch(y) <= 3520465) by (nonlinear_arith)
            requires
                scaled_touch(x) * 1220 <= x * 1920,
                scaled_touch(y) * 1220 <= y * 1920,
                x <= 2236962,
                y <= 2236962,
        ;
        assert(scaled_touch(x) >= 0 && scaled_touch(y) >= 0) by (nonlinear_arith)
            requires
                x * 1920 < (scaled_touch(x) + 1) * 1220,
                y * 1920 < (scaled_touch(y) + 1) * 1220,
                x >= 0,
                y >= 0,
        ;
    }
}

/// Once the desktop is measured, the handling sends a move exactly when
/// the arithmetic of both axes works out, whatever the signs of the
/// origin and extents and wherever the pixel lies; each coordinate of the
/// move is the offset from the origin times 65535, divided by the extent
/// and rounded toward zero. Otherwise it stops with `MoveOverflow`.
pub proof fn touchpad_sends_whenever_arithmetic_fits(x: i32, y: i32, screen: VirtualScreen)
    ensures
        ({
            let (s, a) = spec_touchpad_step(
                TouchpadStage::MeasuringScreen { x, y },
                TouchpadEvent::ScreenRead(screen),
            );
            let fits = axis_arithmetic_fits(x as int, screen.left as int, screen.width as int)
                && axis_arithmetic_fits(y as int, screen.top as int, screen.height as int);
            &&& (a is Send) <==> fits
            &&& !fits ==> (s == TouchpadStage::Failed(TouchpadError::MoveOverflow) && a
                == TouchpadAction::Abort(TouchpadError::MoveOverflow))
            &&& fits ==> s == TouchpadStage::Finished
            &&& fits ==> match a {
                TouchpadAction::Send(m) => {
                    &&& is_quotient_toward_zero(
                        m.dx as int,
                        (x - screen.left) * 65535,
                        screen.width as int,
                    )
                    &&& is_quotient_toward_zero(
                        m.dy as int,
                        (y - screen.top) * 65535,
                        screen.height as int,
                    )
                    &&& m.flags == 0xC001
                },
                _ => false,
            }
        }),
{
    mouse_move_refused_only_on_overflow(x, y, screen);
    if axis_arithmetic_fits(x as int, screen.left as int, screen.width as int)
        && axis_arithmetic_fits(y as int, screen.top as int, screen.height as int) {
        mouse_move_defined_without_overflow(x, y, screen);
    }
}

} // verus!
