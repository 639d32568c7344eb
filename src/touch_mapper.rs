//! Calibrated mapping from raw touch sensor units to panel pixels.

use vstd::prelude::*;

verus! {

/// A raw reading scaled onto one panel axis: the calibration range `lo..hi`
/// is mapped linearly onto `0..size`, rounding down; a reading below `lo`
/// gives 0 and one past `hi` gives `size`.
pub open spec fn scale_axis(raw: u16, lo: u16, hi: u16, size: u16) -> u16
    recommends
        lo < hi,
{
    if raw <= lo {
        0
    } else {
        let s = (raw - lo) * size / (hi - lo);
        if s <= size {
            s as u16
        } else {
            size
        }
    }
}

/// Calibration of a touch panel: the panel's size in pixels and, per axis,
/// the raw sensor readings at its two edges. The transform's slope,
/// `size / (hi - lo)`, is held as its precomputed denominator.
#[derive(Clone, Copy, Debug)]
pub struct TouchPosMapper {
    width: u16,
    height: u16,
    touch_limit_x: (u16, u16),
    touch_limit_y: (u16, u16),
    span: (u16, u16),
}

impl TouchPosMapper {
    pub closed spec fn width_spec(self) -> u16 {
        self.width
    }

    pub closed spec fn height_spec(self) -> u16 {
        self.height
    }

    pub closed spec fn limit_x_spec(self) -> (u16, u16) {
        self.touch_limit_x
    }

    pub closed spec fn limit_y_spec(self) -> (u16, u16) {
        self.touch_limit_y
    }

    /// Each calibration range is non-empty and its span is the one stored.
    pub closed spec fn wf(self) -> bool {
        &&& self.touch_limit_x.0 < self.touch_limit_x.1
        &&& self.touch_limit_y.0 < self.touch_limit_y.1
        &&& self.span.0 == self.touch_limit_x.1 - self.touch_limit_x.0
        &&& self.span.1 == self.touch_limit_y.1 - self.touch_limit_y.0
    }

    /// The X reading `raw` in panel pixels, before rotation.
    pub open spec fn scaled_x(self, raw: u16) -> u16 {
        scale_axis(raw, self.limit_x_spec().0, self.limit_x_spec().1, self.width_spec())
    }

    /// The Y reading `raw` in panel pixels, before rotation.
    pub open spec fn scaled_y(self, raw: u16) -> u16 {
        scale_axis(raw, self.limit_y_spec().0, self.limit_y_spec().1, self.height_spec())
    }

    /// The mapped position of reading `(x, y)` on a display of `width` by
    /// `height` under `orientation`: 0 keeps the scaled position, 1, 2 and 3
    /// rotate it by 90, 180 and 270 degrees, and any other orientation gives
    /// the raw reading back unchanged.
    pub open spec fn mapped(self, x: u16, y: u16, width: u16, height: u16, orientation: u8) -> (u16, u16) {
        let sx = self.scaled_x(x);
        let sy = self.scaled_y(y);
        if orientation == 0 {
            (sx, sy)
        } else if orientation == 1 {
            (sy, (height - sx) as u16)
        } else if orientation == 2 {
            ((width - sx) as u16, (height - sy) as u16)
        } else if orientation == 3 {
            ((width - sy) as u16, sx)
        } else {
            (x, y)
        }
    }

    /// Whether the rotation under `orientation` stays on a display of
    /// `width` by `height`, that is, no rotated coordinate is negative.
    pub open spec fn fits(self, x: u16, y: u16, width: u16, height: u16, orientation: u8) -> bool {
        &&& orientation == 1 ==> self.scaled_x(x) <= height
        &&& orientation == 2 ==> self.scaled_x(x) <= width && self.scaled_y(y) <= height
        &&& orientation == 3 ==> self.scaled_y(y) <= width
    }

    /// A mapper for a panel of `width` by `height` pixels whose edges read
    /// `touch_limit_x.0` and `touch_limit_x.1` on the X axis, and
    /// `touch_limit_y.0` and `touch_limit_y.1` on the Y axis.
    pub fn new(width: u16, height: u16, touch_limit_x: (u16, u16), touch_limit_y: (u16, u16)) -> (r: Self)
        requires
            touch_limit_x.0 < touch_limit_x.1,
            touch_limit_y.0 < touch_limit_y.1,
        ensures
            r.wf(),
            r.width_spec() == width,
            r.height_spec() == height,
            r.limit_x_spec() == touch_limit_x,
            r.limit_y_spec() == touch_limit_y,
    {
        TouchPosMapper {
            width,
            height,
            touch_limit_x,
            touch_limit_y,
            span: (touch_limit_x.1 - touch_limit_x.0, touch_limit_y.1 - touch_limit_y.0),
        }
    }
}

/// Scales `raw` from the range starting at `lo` and `span` wide onto
/// `0..size`.
fn scale_to(raw: u16, lo: u16, span: u16, size: u16) -> (r: u16)
    requires
        span > 0,
        lo + span <= u16::MAX,
    ensures
        r == scale_axis(raw, lo, (lo + span) as u16, size),
{
    if raw <= lo {
        0
    } else {
        let d: u32 = (raw - lo) as u32;
        assert(d * (size as u32) <= 0xFFFF * 0xFFFF) by (nonlinear_arith)
            requires
                d <= 0xFFFF,
                size <= 0xFFFF,
        ;
        let p: u32 = d * (size as u32);
        assert(p == (raw - lo) * size);
        let s: u32 = p / (span as u32);
        if s <= size as u32 {
            s as u16
        } else {
            size
        }
    }
}

impl TouchPosMapper {
    /// The X reading `raw` in panel pixels, before rotation.
    pub fn scale_x(&self, raw: u16) -> (r: u16)
        requires
            self.wf(),
        ensures
            r == self.scaled_x(raw),
    {
        scale_to(raw, self.touch_limit_x.0, self.span.0, self.width)
    }

    /// The Y reading `raw` in panel pixels, before rotation.
    pub fn scale_y(&self, raw: u16) -> (r: u16)
        requires
            self.wf(),
        ensures
            r == self.scaled_y(raw),
    {
        scale_to(raw, self.touch_limit_y.0, self.span.1, self.height)
    }

    /// Maps the raw reading `(x, y)` to a position on a display of `width` by
    /// `height` pixels under `orientation`.
    pub fn map_touch_pos(self, x: u16, y: u16, width: u16, height: u16, orientation: u8) -> (r: (u16, u16))
        requires
            self.wf(),
            self.fits(x, y, width, height, orientation),
        ensures
            r == self.mapped(x, y, width, height, orientation),
    {
        let x_scaled = self.scale_x(x);
        let y_scaled = self.scale_y(y);
        match orientation {
            0 => (x_scaled, y_scaled),
            1 => (y_scaled, height - x_scaled),
            2 => (width - x_scaled, height - y_scaled),
            3 => (width - y_scaled, x_scaled),
            _ => (x, y),
        }
    }
}

/// The calibration range's lower edge maps to pixel 0 and its upper edge to
/// the panel's full size, on both axes.
pub proof fn lemma_calibration_edges(m: TouchPosMapper)
    requires
        m.wf(),
    ensures
        m.scaled_x(m.limit_x_spec().0) == 0,
        m.scaled_x(m.limit_x_spec().1) == m.width_spec(),
        m.scaled_y(m.limit_y_spec().0) == 0,
        m.scaled_y(m.limit_y_spec().1) == m.height_spec(),
{
    let (lx, hx) = m.limit_x_spec();
    let (ly, hy) = m.limit_y_spec();
    let w = m.width_spec() as int;
    let h = m.height_spec() as int;
    assert((hx - lx) * w / (hx - lx) == w) by (nonlinear_arith)
        requires
            hx - lx > 0,
    ;
    assert((hy - ly) * h / (hy - ly) == h) by (nonlinear_arith)
        requires
            hy - ly > 0,
    ;
}

/// Under orientation 0 the mapped position is the scaled reading; under
/// orientations 1, 2 and 3 it is the scaled reading rotated by a quarter,
/// half and three quarters of a turn on the display.
pub proof fn lemma_rotation(m: TouchPosMapper, x: u16, y: u16, width: u16, height: u16)
    requires
        m.wf(),
    ensures
        m.mapped(x, y, width, height, 0) == (m.scaled_x(x), m.scaled_y(y)),
        m.fits(x, y, width, height, 1) ==> m.mapped(x, y, width, height, 1) == (
        m.scaled_y(y), (height - m.scaled_x(x)) as u16),
        m.fits(x, y, width, height, 2) ==> m.mapped(x, y, width, height, 2) == (
        (width - m.scaled_x(x)) as u16, (height - m.scaled_y(y)) as u16),
        m.fits(x, y, width, height, 3) ==> m.mapped(x, y, width, height, 3) == (
        (width - m.scaled_y(y)) as u16, m.scaled_x(x)),
        forall|o: u8| o > 3 ==> m.mapped(x, y, width, height, o) == (x, y),
{
}

} // verus!
