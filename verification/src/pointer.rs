//! Touchpad coordinates and absolute mouse moves.

use vstd::prelude::*;

verus! {

/// Horizontal extent of the screen that touchpad coordinates are scaled to.
pub const SCREEN_SPAN: u32 = 1920;

/// Extent of the touchpad's logical coordinate range.
pub const TOUCHPAD_SPAN: u32 = 1220;

/// Largest normalized absolute coordinate: absolute moves address the
/// virtual desktop in the range `0..=ABSOLUTE_SPAN`.
pub const ABSOLUTE_SPAN: i32 = 65535;

/// The mouse input is a move.
pub const MOUSEEVENTF_MOVE: u32 = 0x0001;

/// The coordinates of a mouse move are normalized absolute coordinates.
pub const MOUSEEVENTF_VIRTUALDESK: u32 = 0x4000;

/// The absolute coordinates span the whole virtual desktop.
pub const MOUSEEVENTF_ABSOLUTE: u32 = 0x8000;

/// Geometry of the virtual desktop, as the system reports it.
#[derive(Clone, Copy, Debug, PartialEq, Eq, Structural)]
pub struct VirtualScreen {
    pub left: i32,
    pub top: i32,
    pub width: i32,
    pub height: i32,
}

/// One absolute mouse move, ready to be sent as mouse input.
#[derive(Clone, Copy, Debug, PartialEq, Eq, Structural)]
pub struct MouseMove {
    pub dx: i32,
    pub dy: i32,
    pub flags: u32,
}

/// Integer division that rounds toward zero, as machine division does.
/// (Spec `/` is Euclidean; for a nonnegative dividend it agrees with
/// rounding toward zero, and a negative dividend is divided by its
/// magnitude and negated.)
pub open spec fn trunc_div(a: int, b: int) -> int
    recommends
        b != 0,
{
    if a >= 0 {
        a / b
    } else {
        -((-a) / b)
    }
}

/// A raw touchpad coordinate can be scaled without overflowing `u32`.
pub open spec fn touch_scalable(raw: u32) -> bool {
    raw * SCREEN_SPAN <= u32::MAX
}

/// A raw touchpad coordinate scaled to screen pixels.
pub open spec fn scaled_touch(raw: u32) -> int {
    (raw * SCREEN_SPAN) / (TOUCHPAD_SPAN as int)
}

/// Scales a raw touchpad coordinate to screen pixels: `raw * 1920 / 1220`.
pub fn scale_touch(raw: u32) -> (r: i32)
    requires
        touch_scalable(raw),
    ensures
        r == scaled_touch(raw),
{
    let product: u32 = raw * SCREEN_SPAN;
    let scaled: u32 = product / TOUCHPAD_SPAN;
    assert(scaled <= 3520465);
    scaled as i32
}

/// Scales a raw touchpad coordinate, or gives `None` where `raw * 1920`
/// leaves the range of `u32`.
pub fn checked_scale_touch(raw: u32) -> (r: Option<i32>)
    ensures
        r is Some <==> touch_scalable(raw),
        r matches Some(v) ==> v == scaled_touch(raw),
{
    if raw <= u32::MAX / SCREEN_SPAN {
        Some(scale_touch(raw))
    } else {
        None
    }
}

/// The normalization of one axis stays within `i32` and divides by a
/// nonzero extent.
pub open spec fn axis_normalizable(pos: i32, origin: i32, extent: i32) -> bool {
    &&& i32::MIN <= pos - origin <= i32::MAX
    &&& i32::MIN <= (pos - origin) * ABSOLUTE_SPAN <= i32::MAX
    &&& extent != 0
    &&& !((pos - origin) * ABSOLUTE_SPAN == i32::MIN && extent == -1)
}

/// A pixel position on one axis as a normalized absolute coordinate:
/// `(pos - origin) * 65535 / extent`, rounded toward zero.
pub open spec fn normalized_axis(pos: i32, origin: i32, extent: i32) -> int {
    trunc_div((pos - origin) * ABSOLUTE_SPAN, extent as int)
}

/// Both axes of a move to `(x, y)` can be normalized.
pub open spec fn move_defined(x: i32, y: i32, screen: VirtualScreen) -> bool {
    &&& axis_normalizable(x, screen.left, screen.width)
    &&& axis_normalizable(y, screen.top, screen.height)
}

/// Flags of an absolute move across the virtual desktop.
pub open spec fn absolute_move_flags() -> u32 {
    MOUSEEVENTF_MOVE | MOUSEEVENTF_ABSOLUTE | MOUSEEVENTF_VIRTUALDESK
}

/// The absolute mouse move to the pixel `(x, y)` of the virtual desktop.
pub open spec fn spec_mouse_move(x: i32, y: i32, screen: VirtualScreen) -> MouseMove {
    MouseMove {
        dx: normalized_axis(x, screen.left, screen.width) as i32,
        dy: normalized_axis(y, screen.top, screen.height) as i32,
        flags: absolute_move_flags(),
    }
}

/// Dividing a nonnegative number by a nonzero one never grows its magnitude.
proof fn lemma_div_magnitude(a: int, b: int)
    requires
        a >= 0,
        b != 0,
    ensures
        -a <= a / b <= a,
{
    if b > 0 {
        assert(a / b <= a) by (nonlinear_arith)
            requires
                a >= 0,
                b > 0,
        ;
        assert(a / b >= 0) by (nonlinear_arith)
            requires
                a >= 0,
                b > 0,
        ;
    } else {
        assert(-a <= a / b <= 0) by (nonlinear_arith)
            requires
                a >= 0,
                b < 0,
        ;
    }
}

fn normalize_axis(pos: i32, origin: i32, extent: i32) -> (r: i32)
    requires
        axis_normalizable(pos, origin, extent),
    ensures
        r == normalized_axis(pos, origin, extent),
{
    let offset: i32 = pos - origin;
    let scaled: i32 = offset * ABSOLUTE_SPAN;
    proof {
        if scaled >= 0 {
            lemma_div_magnitude(scaled as int, extent as int);
        } else {
            lemma_div_magnitude(-scaled, extent as int);
        }
    }
    scaled / extent
}

fn axis_normalizable_exec(pos: i32, origin: i32, extent: i32) -> (b: bool)
    ensures
        b == axis_normalizable(pos, origin, extent),
{
    let offset: i64 = pos as i64 - origin as i64;
    if offset < i32::MIN as i64 || offset > i32::MAX as i64 {
        return false;
    }
    let span: i64 = ABSOLUTE_SPAN as i64;
    assert(span == 65535);
    let scaled: i64 = offset * span;
    if scaled < i32::MIN as i64 || scaled > i32::MAX as i64 {
        return false;
    }
    extent != 0 && !(scaled == i32::MIN as i64 && extent == -1)
}

/// The absolute mouse move to the pixel `(x, y)`: each coordinate is
/// taken relative to the virtual desktop's origin and normalized by its
/// extent, and the move is flagged absolute over the virtual desktop.
pub fn mouse_move(x: i32, y: i32, screen: &VirtualScreen) -> (m: MouseMove)
    requires
        move_defined(x, y, *screen),
    ensures
        m == spec_mouse_move(x, y, *screen),
{
    let dx = normalize_axis(x, screen.left, screen.width);
    let dy = normalize_axis(y, screen.top, screen.height);
    MouseMove { dx, dy, flags: MOUSEEVENTF_MOVE | MOUSEEVENTF_ABSOLUTE | MOUSEEVENTF_VIRTUALDESK }
}

/// The absolute mouse move to `(x, y)`, or `None` where its arithmetic
/// would overflow `i32` or divide by zero.
pub fn checked_mouse_move(x: i32, y: i32, screen: &VirtualScreen) -> (r: Option<MouseMove>)
    ensures
        r is Some <==> move_defined(x, y, *screen),
        r matches Some(m) ==> m == spec_mouse_move(x, y, *screen),
{
    if axis_normalizable_exec(x, screen.left, screen.width) && axis_normalizable_exec(
        y,
        screen.top,
        screen.height,
    ) {
        Some(mouse_move(x, y, screen))
    } else {
        None
    }
}

/// Scaling preserves order: a touch further along the touchpad never
/// lands at a smaller screen coordinate.
pub proof fn scale_touch_monotonic(a: u32, b: u32)
    requires
        touch_scalable(a),
        touch_scalable(b),
        a <= b,
    ensures
        scaled_touch(a) <= scaled_touch(b),
{
    assert(a * 1920 <= b * 1920) by (nonlinear_arith)
        requires
            a <= b,
    ;
    assert((a * 1920) / 1220 <= (b * 1920) / 1220) by (nonlinear_arith)
        requires
            a * 1920 <= b * 1920,
    ;
}

/// Every whole multiple of the touchpad span lands exactly on the same
/// multiple of the screen span: the touchpad's full span covers the
/// screen's full span.
pub proof fn scale_touch_spans(k: u32)
    requires
        touch_scalable((k * TOUCHPAD_SPAN) as u32),
        k * TOUCHPAD_SPAN <= u32::MAX,
    ensures
        scaled_touch((k * TOUCHPAD_SPAN) as u32) == k * SCREEN_SPAN,
{
    let raw: int = k * 1220;
    assert(raw * 1920 == (k * 1920) * 1220) by (nonlinear_arith)
        requires
            raw == k * 1220,
    ;
    assert(((k * 1920) * 1220) / 1220 == k * 1920) by (nonlinear_arith);
}

/// The origin of the virtual desktop maps to absolute coordinate 0.
pub proof fn normalized_origin(origin: i32, extent: i32)
    requires
        axis_normalizable(origin, origin, extent),
    ensures
        normalized_axis(origin, origin, extent) == 0,
{
}

/// With a positive extent, the pixel one extent past the origin maps to
/// the largest absolute coordinate.
pub proof fn normalized_far_edge(origin: i32, extent: i32)
    requires
        extent > 0,
        origin + extent <= i32::MAX,
        axis_normalizable((origin + extent) as i32, origin, extent),
    ensures
        normalized_axis((origin + extent) as i32, origin, extent) == ABSOLUTE_SPAN,
{
    let e = extent as int;
    assert((e * 65535) / e == 65535) by (nonlinear_arith)
        requires
            e > 0,
    ;
}

/// With a positive extent, every pixel from the origin to one extent past
/// it maps into `0..=ABSOLUTE_SPAN`, and further pixels never map to
/// smaller coordinates.
pub proof fn normalized_in_range(pos: i32, later: i32, origin: i32, extent: i32)
    requires
        extent > 0,
        origin <= pos <= later,
        later <= origin + extent,
        axis_normalizable(pos, origin, extent),
        axis_normalizable(later, origin, extent),
    ensures
        0 <= normalized_axis(pos, origin, extent) <= normalized_axis(later, origin, extent),
        normalized_axis(later, origin, extent) <= ABSOLUTE_SPAN,
{
    let e = extent as int;
    let a = (pos - origin) * 65535;
    let b = (later - origin) * 65535;
    assert(0 <= a <= b <= e * 65535) by (nonlinear_arith)
        requires
            a == (pos - origin) * 65535,
            b == (later - origin) * 65535,
            0 <= pos - origin <= later - origin <= e,
    ;
    assert(0 <= a / e <= b / e <= (e * 65535) / e) by (nonlinear_arith)
        requires
            0 <= a <= b <= e * 65535,
            e > 0,
    ;
    assert((e * 65535) / e == 65535) by (nonlinear_arith)
        requires
            e > 0,
    ;
}

/// Every mouse move is flagged as a move in absolute coordinates over
/// the whole virtual desktop.
pub proof fn mouse_move_flags(x: i32, y: i32, screen: VirtualScreen)
    ensures
        spec_mouse_move(x, y, screen).flags & MOUSEEVENTF_MOVE == MOUSEEVENTF_MOVE,
        spec_mouse_move(x, y, screen).flags & MOUSEEVENTF_ABSOLUTE == MOUSEEVENTF_ABSOLUTE,
        spec_mouse_move(x, y, screen).flags & MOUSEEVENTF_VIRTUALDESK == MOUSEEVENTF_VIRTUALDESK,
{
    let f = spec_mouse_move(x, y, screen).flags;
    assert(f == 0x0001u32 | 0x8000u32 | 0x4000u32);
    assert(f & 0x0001u32 == 0x0001u32 && f & 0x8000u32 == 0x8000u32 && f & 0x4000u32 == 0x4000u32)
        by (bit_vector)
        requires
            f == 0x0001u32 | 0x8000u32 | 0x4000u32,
    ;
}

/// A value fits in `i32`.
pub open spec fn fits_i32(v: int) -> bool {
    i32::MIN <= v <= i32::MAX
}

/// The magnitude of an integer.
pub open spec fn magnitude(v: int) -> int {
    if v >= 0 {
        v
    } else {
        -v
    }
}

/// Machine arithmetic on one axis works out: the offset `pos - origin`
/// and the offset times 65535 fit in `i32`, and dividing by `extent`
/// neither divides by zero nor overflows (`i32::MIN / -1`). Nothing else
/// is asked of the origin or the extent.
pub open spec fn axis_arithmetic_fits(pos: int, origin: int, extent: int) -> bool {
    &&& fits_i32(pos - origin)
    &&& fits_i32((pos - origin) * 65535)
    &&& extent != 0
    &&& !((pos - origin) * 65535 == i32::MIN && extent == -1)
}

/// `q` is the quotient of `a` by `b` rounded toward zero: what is left
/// over, `a - q * b`, is smaller than `b` in magnitude and has the sign
/// of `a`.
pub open spec fn is_quotient_toward_zero(q: int, a: int, b: int) -> bool {
    let r = a - q * b;
    &&& magnitude(r) < magnitude(b)
    &&& (a >= 0 ==> r >= 0)
    &&& (a <= 0 ==> r <= 0)
}

/// Division rounded toward zero leaves a remainder smaller than the
/// divisor, with the sign of the dividend.
proof fn lemma_trunc_div_is_quotient(a: int, b: int)
    requires
        b != 0,
    ensures
        is_quotient_toward_zero(trunc_div(a, b), a, b),
{
    if a >= 0 {
        assert(a == b * (a / b) + a % b && 0 <= a % b < magnitude(b)) by (nonlinear_arith)
            requires
                b != 0,
                magnitude(b) == (if b >= 0 { b } else { -b }),
        ;
        assert(a - (a / b) * b == a % b) by (nonlinear_arith)
            requires
                a == b * (a / b) + a % b,
        ;
        assert(trunc_div(a, b) == a / b);
        let r = a - trunc_div(a, b) * b;
        assert(r == a % b);
        assert(magnitude(r) == r);
        if a == 0 {
            assert(0int % b == 0) by (nonlinear_arith)
                requires
                    b != 0,
            ;
        }
    } else {
        let c = -a;
        assert(c == b * (c / b) + c % b && 0 <= c % b < magnitude(b)) by (nonlinear_arith)
            requires
                b != 0,
                magnitude(b) == (if b >= 0 { b } else { -b }),
        ;
        assert(a - (-(c / b)) * b == -(c % b)) by (nonlinear_arith)
            requires
                c == b * (c / b) + c % b,
                a == -c,
        ;
        assert(trunc_div(a, b) == -(c / b));
        let r = a - trunc_div(a, b) * b;
        assert(r == -(c % b));
        assert(magnitude(r) == c % b);
    }
}

/// Scaling succeeds for every raw coordinate up to `u32::MAX / 1920`
/// and for no other, and gives the largest pixel whose multiple of the
/// touchpad span stays within `raw * 1920`.
pub proof fn scale_touch_succeeds_up_to_overflow(raw: u32)
    ensures
        touch_scalable(raw) <==> raw <= 2236962,
        touch_scalable(raw) ==> scaled_touch(raw) * 1220 <= raw * 1920 < (scaled_touch(raw) + 1)
            * 1220,
{
    if touch_scalable(raw) {
        let p: int = raw * 1920;
        assert(p / 1220 * 1220 <= p < (p / 1220 + 1) * 1220) by (nonlinear_arith)
            requires
                p >= 0,
        ;
    }
}

/// The move to `(x, y)` exists whenever the arithmetic of each axis stays
/// within `i32` and divides by a nonzero extent (whatever the signs of
/// the desktop's origin and extents), and then each coordinate is the
/// offset from the origin times 65535, divided by the extent and rounded
/// toward zero; the move is absolute over the virtual desktop.
pub proof fn mouse_move_defined_without_overflow(x: i32, y: i32, screen: VirtualScreen)
    requires
        axis_arithmetic_fits(x as int, screen.left as int, screen.width as int),
        axis_arithmetic_fits(y as int, screen.top as int, screen.height as int),
    ensures
        move_defined(x, y, screen),
        is_quotient_toward_zero(
            spec_mouse_move(x, y, screen).dx as int,
            (x - screen.left) * 65535,
            screen.width as int,
        ),
        is_quotient_toward_zero(
            spec_mouse_move(x, y, screen).dy as int,
            (y - screen.top) * 65535,
            screen.height as int,
        ),
        spec_mouse_move(x, y, screen).flags == 0xC001,
{
    lemma_axis_fits(x, screen.left, screen.width);
    lemma_axis_fits(y, screen.top, screen.height);
    lemma_trunc_div_is_quotient((x - screen.left) * 65535, screen.width as int);
    lemma_trunc_div_is_quotient((y - screen.top) * 65535, screen.height as int);
    assert(0x0001u32 | 0x8000u32 | 0x4000u32 == 0xC001u32) by (bit_vector);
}

/// A normalizable axis has a normalized coordinate within `i32`.
proof fn lemma_axis_fits(pos: i32, origin: i32, extent: i32)
    requires
        axis_normalizable(pos, origin, extent),
    ensures
        fits_i32(normalized_axis(pos, origin, extent)),
{
    let a: int = (pos - origin) * ABSOLUTE_SPAN;
    let b: int = extent as int;
    if a >= 0 {
        lemma_div_magnitude(a, b);
    } else {
        lemma_div_magnitude(-a, b);
        if a == i32::MIN {
            assert(b != -1);
            if b == 1 {
            } else {
                assert(-2147483647 <= (-a) / b <= 2147483647) by (nonlinear_arith)
                    requires
                        -a == 2147483648,
                        b != 1,
                        b != -1,
                        b != 0,
                ;
            }
        }
    }
}

/// A move is refused only where the arithmetic of an axis would leave
/// `i32` or divide by zero.
pub proof fn mouse_move_refused_only_on_overflow(x: i32, y: i32, screen: VirtualScreen)
    ensures
        move_defined(x, y, screen) <==> axis_arithmetic_fits(
            x as int,
            screen.left as int,
            screen.width as int,
        ) && axis_arithmetic_fits(y as int, screen.top as int, screen.height as int),
{
    if axis_arithmetic_fits(x as int, screen.left as int, screen.width as int)
        && axis_arithmetic_fits(y as int, screen.top as int, screen.height as int) {
        mouse_move_defined_without_overflow(x, y, screen);
    }
}

} // verus!
