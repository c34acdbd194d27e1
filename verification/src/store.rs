//! Capture session state: the process-wide store holding the most recent
//! frozen capture set.
//!
//! The store is replaced wholesale at the start of each session and is
//! read-only for the session's duration. Every query reads from the single
//! currently-installed set, so no reader can observe fields of two different
//! generations mixed together; the exclusive-access guard around the store is
//! the embedding layer's concern and is held only for one read or one
//! replace.

use crate::codec::base64_of;
use crate::codec::capture_region_from_full;
use crate::codec::crop_in_bounds;
use crate::codec::encodable;
use crate::codec::png_bytes_of;
use crate::errors::Error;
use crate::geometry::MonitorInfo;
use crate::geometry::WindowRect;
use crate::pixels::crop_bytes;
use vstd::prelude::*;

verus! {

/// The frozen snapshot of one session: one encoded image per monitor (base64
/// PNG, indexed by monitor index), the session's mode tag, the pre-capture
/// window rectangles, and the monitor list.
pub struct CaptureSet {
    pub images: Vec<String>,
    pub mode: String,
    pub window_rects: Vec<WindowRect>,
    pub monitors: Vec<MonitorInfo>,
}

impl CaptureSet {
    /// A capture set is complete when it holds exactly one image per
    /// monitor. Both sequences are produced atomically by one session start
    /// and never individually appended to.
    pub open spec fn wf(&self) -> bool {
        self.images@.len() == self.monitors@.len()
    }

    /// The set that exists before any session: no images, no monitors, an
    /// empty mode tag.
    pub fn empty() -> (r: Self)
        ensures
            r.wf(),
            r.images@.len() == 0,
            r.mode@ == Seq::<char>::empty(),
            r.window_rects@.len() == 0,
            r.monitors@.len() == 0,
    {
        CaptureSet {
            images: Vec::new(),
            mode: String::new(),
            window_rects: Vec::new(),
            monitors: Vec::new(),
        }
    }
}

/// The store cell that owns the current capture set.
pub struct CaptureStore {
    pub set: CaptureSet,
}

/// What a frozen-capture query returns, as a function of the installed
/// capture set alone: the image for the monitor index together with the
/// shared metadata, or nothing when the index is stale (out of range for the
/// current set).
pub open spec fn frozen_query(set: CaptureSet, i: int) -> Option<
    (Seq<char>, Seq<char>, Seq<WindowRect>, Seq<MonitorInfo>),
> {
    if 0 <= i < set.images@.len() {
        Some((set.images@[i]@, set.mode@, set.window_rects@, set.monitors@))
    } else {
        None
    }
}

/// Law: what a frozen-capture query returns is determined by the installed
/// capture set alone. Two stores holding the same set answer identically, so
/// a reader sees one complete generation — the current one — and never
/// fields of two different generations mixed together.
pub proof fn lemma_frozen_query_single_generation(s1: CaptureStore, s2: CaptureStore, i: int)
    requires
        s1.set == s2.set,
    ensures
        frozen_query(s1.set, i) == frozen_query(s2.set, i),
{
}

impl CaptureStore {
    /// The store before any session: it holds the empty capture set.
    pub fn new() -> (r: Self)
        ensures
            r.set.wf(),
            r.set.images@.len() == 0,
            r.set.mode@ == Seq::<char>::empty(),
            r.set.window_rects@.len() == 0,
            r.set.monitors@.len() == 0,
    {
        CaptureStore { set: CaptureSet::empty() }
    }

    /// Atomic wholesale replace: the new set fully supersedes the old one,
    /// never merging with it.
    pub fn replace(&mut self, set: CaptureSet)
        requires
            set.wf(),
        ensures
            final(self).set == set,
    {
        self.set = set;
    }

    /// The frozen image for a monitor index, or the not-found error when the
    /// index is out of range for the current set (a stale overlay asking
    /// after a new session started with fewer monitors).
    pub fn get_image(&self, monitor_index: usize) -> (r: Result<String, Error>)
        ensures
            monitor_index < self.set.images@.len() ==> (r matches Ok(img) && img
                == self.set.images@[monitor_index as int]),
            monitor_index >= self.set.images@.len() ==> r == Err::<String, Error>(
                Error::NotFound { monitor: monitor_index },
            ),
    {
        if monitor_index < self.set.images.len() {
            Ok(self.set.images[monitor_index].clone())
        } else {
            Err(Error::NotFound { monitor: monitor_index })
        }
    }

    /// A read-only snapshot of the shared metadata: mode tag, window
    /// rectangles, monitors.
    pub fn get_metadata(&self) -> (r: (String, Vec<WindowRect>, Vec<MonitorInfo>))
        ensures
            r.0 == self.set.mode,
            r.1@ == self.set.window_rects@,
            r.2@ == self.set.monitors@,
    {
        (
            self.set.mode.clone(),
            clone_rects(&self.set.window_rects),
            clone_monitors(&self.set.monitors),
        )
    }
}

/// An exact copy of a window-rectangle list.
fn clone_rects(v: &Vec<WindowRect>) -> (r: Vec<WindowRect>)
    ensures
        r@ == v@,
{
    let mut out: Vec<WindowRect> = Vec::new();
    let mut i: usize = 0;
    while i < v.len()
        invariant
            i <= v@.len(),
            out@ == v@.subrange(0, i as int),
        decreases v@.len() - i,
    {
        out.push(v[i]);
        i = i + 1;
        proof {
            assert(out@ =~= v@.subrange(0, i as int));
        }
    }
    proof {
        assert(v@.subrange(0, v@.len() as int) =~= v@);
    }
    out
}

/// An exact copy of a monitor list.
fn clone_monitors(v: &Vec<MonitorInfo>) -> (r: Vec<MonitorInfo>)
    ensures
        r@ == v@,
{
    let mut out: Vec<MonitorInfo> = Vec::new();
    let mut i: usize = 0;
    while i < v.len()
        invariant
            i <= v@.len(),
            out@ == v@.subrange(0, i as int),
        decreases v@.len() - i,
    {
        out.push(v[i].clone());
        i = i + 1;
        proof {
            assert(out@ =~= v@.subrange(0, i as int));
        }
    }
    proof {
        assert(v@.subrange(0, v@.len() as int) =~= v@);
    }
    out
}

/// Everything one overlay needs to render: its monitor's frozen image and
/// the shared metadata, all taken from the same capture set.
pub struct FrozenCapture {
    pub image: String,
    pub mode: String,
    pub window_rects: Vec<WindowRect>,
    pub monitors: Vec<MonitorInfo>,
}

/// Serves a monitor's frozen image together with the session metadata, or
/// the not-found error for a stale monitor index. All four components come
/// from the single currently-installed capture set.
pub fn get_frozen_screenshot(store: &CaptureStore, monitor_index: usize) -> (r: Result<
    FrozenCapture,
    Error,
>)
    ensures
        r matches Ok(f) ==> frozen_query(store.set, monitor_index as int) == Some(
            (f.image@, f.mode@, f.window_rects@, f.monitors@),
        ),
        monitor_index < store.set.images@.len() ==> r is Ok,
        monitor_index >= store.set.images@.len() ==> r == Err::<FrozenCapture, Error>(
            Error::NotFound { monitor: monitor_index },
        ),
{
    let image = match store.get_image(monitor_index) {
        Ok(img) => img,
        Err(e) => {
            return Err(e);
        },
    };
    let (mode, window_rects, monitors) = store.get_metadata();
    Ok(FrozenCapture { image, mode, window_rects, monitors })
}

/// Crops a region out of a monitor's frozen image and returns it as a base64
/// PNG string, without re-querying the live screen. A stale monitor index is
/// the not-found error; for a stored image that encodes an RGBA buffer, an
/// in-bounds rectangle yields exactly the encoding of the cropped pixels and
/// an out-of-bounds or empty one the bounds error.
pub fn capture_region(
    store: &CaptureStore,
    monitor_index: usize,
    x: u32,
    y: u32,
    width: u32,
    height: u32,
) -> (r: Result<String, Error>)
    ensures
        monitor_index >= store.set.images@.len() ==> r == Err::<String, Error>(
            Error::NotFound { monitor: monitor_index },
        ),
        monitor_index < store.set.images@.len() ==> forall|p: Seq<u8>, sw: u32, sh: u32|
            (encodable(p, sw, sh) && store.set.images@[monitor_index as int]@ == base64_of(
                #[trigger] png_bytes_of(p, sw, sh),
            )) ==> match r {
                Ok(out) => crop_in_bounds(sw, sh, x, y, width, height) && out@ == base64_of(
                    png_bytes_of(
                        crop_bytes(p, sw as int, x as int, y as int, width as int, height as int),
                        width,
                        height,
                    ),
                ),
                Err(e) => e == Error::Bounds && !crop_in_bounds(sw, sh, x, y, width, height),
            },
{
    let image = match store.get_image(monitor_index) {
        Ok(img) => img,
        Err(e) => {
            return Err(e);
        },
    };
    capture_region_from_full(image.as_str(), x, y, width, height)
}

} // verus!
