//! Monitor and window geometry.
//!
//! Physical pixel positions and sizes are plain integers. A monitor's scale
//! factor and the logical (point) coordinates of windows are stored in fixed
//! point — thousandths for the scale factor, hundredths of a logical unit for
//! window rectangles — so that the selection logic works on exact values;
//! the windowing layer converts at the boundary.

use vstd::prelude::*;

verus! {

/// One monitor: name, position and size in physical pixels, and the scale
/// factor in thousandths (1000 = 1.0, 2000 = 2.0, 1250 = 1.25). Logical
/// coordinates are physical coordinates divided by the scale factor.
pub struct MonitorInfo {
    pub name: String,
    pub x: i32,
    pub y: i32,
    pub width: u32,
    pub height: u32,
    pub scale_factor_milli: u32,
}

impl Clone for MonitorInfo {
    fn clone(&self) -> (r: Self)
        ensures
            r == *self,
    {
        MonitorInfo {
            name: self.name.clone(),
            x: self.x,
            y: self.y,
            width: self.width,
            height: self.height,
            scale_factor_milli: self.scale_factor_milli,
        }
    }
}

/// A window rectangle in logical coordinates, fixed point with a hundredth
/// of a logical unit as the grain: `x == 150` is 1.5 logical units from the
/// left edge of the coordinate space.
#[derive(Clone, Copy, Debug, PartialEq, Eq, Structural)]
pub struct WindowRect {
    pub x: i64,
    pub y: i64,
    pub width: u64,
    pub height: u64,
}

/// One on-screen window as the native enumeration reports it, before
/// filtering: its layer, whether it is on screen, and its bounds.
#[derive(Clone, Copy, Debug, PartialEq, Eq, Structural)]
pub struct RawWindow {
    pub layer: i32,
    pub on_screen: bool,
    pub rect: WindowRect,
}

/// Ten logical units, in hundredths: windows smaller than this in either
/// dimension are noise (tooltips, indicators), not snap targets.
pub const MIN_WINDOW_DIMENSION_CENTI: u64 = 1000;

/// Whether an enumerated window belongs in the pre-capture window list: on
/// the normal layer (0), actually on screen, and at least 10 logical units
/// in both dimensions.
pub open spec fn window_kept(w: RawWindow) -> bool {
    &&& w.layer == 0
    &&& w.on_screen
    &&& w.rect.width >= MIN_WINDOW_DIMENSION_CENTI
    &&& w.rect.height >= MIN_WINDOW_DIMENSION_CENTI
}

/// The rectangles of the kept windows, in enumeration order.
pub open spec fn kept_rects(s: Seq<RawWindow>) -> Seq<WindowRect>
    decreases s.len(),
{
    if s.len() == 0 {
        Seq::empty()
    } else {
        let rest = kept_rects(s.drop_last());
        if window_kept(s.last()) {
            rest.push(s.last().rect)
        } else {
            rest
        }
    }
}

/// Filters a raw front-to-back window enumeration down to the visible,
/// normal-layer, non-tiny window rectangles, keeping the order. An empty
/// result means "no snap targets" (on platforms without a native window
/// query the enumeration itself is empty); callers degrade gracefully.
pub fn filter_window_rects(raw: &Vec<RawWindow>) -> (r: Vec<WindowRect>)
    ensures
        r@ == kept_rects(raw@),
{
    let mut out: Vec<WindowRect> = Vec::new();
    let mut i: usize = 0;
    proof {
        assert(raw@.subrange(0, 0) =~= Seq::<RawWindow>::empty());
    }
    while i < raw.len()
        invariant
            i <= raw@.len(),
            out@ == kept_rects(raw@.subrange(0, i as int)),
        decreases raw@.len() - i,
    {
        let w = raw[i];
        if w.layer == 0 && w.on_screen && w.rect.width >= MIN_WINDOW_DIMENSION_CENTI
            && w.rect.height >= MIN_WINDOW_DIMENSION_CENTI {
            out.push(w.rect);
        }
        i = i + 1;
        proof {
            let pre = raw@.subrange(0, i as int);
            assert(pre.drop_last() =~= raw@.subrange(0, i as int - 1));
            assert(pre.last() == raw@[i as int - 1]);
        }
    }
    proof {
        assert(raw@.subrange(0, raw@.len() as int) =~= raw@);
    }
    out
}

} // verus!
