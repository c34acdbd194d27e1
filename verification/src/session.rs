//! The session orchestrator: the state machine that drives session start,
//! capture installation and overlay teardown.
//!
//! States run `Idle -> Preparing -> Capturing -> Overlaying -> Idle`. A
//! session is live between a successful capture installation and the close
//! of its last overlay; at most one session is live at a time, and starting
//! a new session fully supersedes the old one (its overlays are closed
//! before anything else happens). The blocking native work — window
//! enumeration, pixel capture, overlay window creation — happens between
//! these transitions in the embedding layer, which feeds the results back in
//! as plain values.

use crate::errors::Error;
use crate::geometry::MonitorInfo;
use crate::geometry::WindowRect;
use crate::store::CaptureSet;
use crate::store::CaptureStore;
use crate::text::decimal_digits;
use crate::text::u64_to_string;
use vstd::prelude::*;

verus! {

/// The orchestrator's place in the session lifecycle.
#[derive(Clone, Copy, Debug, PartialEq, Eq, Structural)]
pub enum Phase {
    Idle,
    Preparing,
    Capturing,
    Overlaying,
}

/// The orchestrator: the current phase, how many overlays of the live
/// session are still open, and the capture store it guards.
pub struct Orchestrator {
    pub phase: Phase,
    pub overlays_live: usize,
    pub store: CaptureStore,
}

impl Orchestrator {
    /// The orchestrator's invariant: the stored capture set is complete
    /// (one image per monitor), and overlays are only ever open while a
    /// session is in the overlaying stage.
    pub open spec fn inv(&self) -> bool {
        &&& self.store.set.wf()
        &&& !(self.phase is Overlaying) ==> self.overlays_live == 0
        &&& self.overlays_live <= self.store.set.monitors@.len()
    }

    /// A fresh orchestrator: idle, no overlays, the empty capture set.
    pub fn new() -> (r: Self)
        ensures
            r.inv(),
            r.phase is Idle,
            r.overlays_live == 0,
            r.store.set.images@.len() == 0,
            r.store.set.monitors@.len() == 0,
    {
        Orchestrator { phase: Phase::Idle, overlays_live: 0, store: CaptureStore::new() }
    }

    /// The state after a start-session request: whatever was live before,
    /// the orchestrator is preparing a new session with no overlays of its
    /// own; the store is untouched.
    pub open spec fn begin_spec(self) -> Orchestrator {
        Orchestrator { phase: Phase::Preparing, overlays_live: 0, store: self.store }
    }

    /// Accepts a start-session request. Whatever the current phase — idle,
    /// or a still-live earlier session — the new session fully supersedes
    /// it: the caller is told to close every existing overlay (and wait a
    /// short settle delay) exactly when any might exist.
    pub fn begin_session(&mut self, has_existing_overlays: bool) -> (close_prior: bool)
        requires
            old(self).inv(),
        ensures
            final(self).inv(),
            *final(self) == old(self).begin_spec(),
            close_prior == (has_existing_overlays || old(self).overlays_live > 0),
    {
        let close_prior = has_existing_overlays || self.overlays_live > 0;
        self.phase = Phase::Preparing;
        self.overlays_live = 0;
        close_prior
    }

    /// Records the monitor enumeration. An empty enumeration fails the whole
    /// session with the configuration error and returns to idle; otherwise
    /// the session may capture. The store is untouched either way.
    pub fn monitors_ready(&mut self, monitor_count: usize) -> (r: Result<(), Error>)
        requires
            old(self).inv(),
            old(self).phase is Preparing,
        ensures
            final(self).inv(),
            final(self).store == old(self).store,
            final(self).overlays_live == 0,
            monitor_count == 0 ==> r == Err::<(), Error>(Error::Configuration)
                && final(self).phase is Idle,
            monitor_count > 0 ==> r == Ok::<(), Error>(()) && final(self).phase is Capturing,
    {
        if monitor_count == 0 {
            self.phase = Phase::Idle;
            Err(Error::Configuration)
        } else {
            self.phase = Phase::Capturing;
            Ok(())
        }
    }

    /// Takes the per-monitor capture results and either installs the
    /// complete capture set atomically — entering the overlaying stage with
    /// one overlay owed per monitor — or, if any single monitor failed,
    /// aborts the whole session: no partial set is ever stored, the prior
    /// capture set stays exactly as it was, the orchestrator returns to
    /// idle, and the first monitor's error is reported.
    pub fn install_capture(
        &mut self,
        mode: String,
        window_rects: Vec<WindowRect>,
        monitors: Vec<MonitorInfo>,
        captures: Vec<Result<String, Error>>,
    ) -> (r: Result<usize, Error>)
        requires
            old(self).inv(),
            old(self).phase is Capturing,
            captures@.len() == monitors@.len(),
            monitors@.len() >= 1,
        ensures
            final(self).inv(),
            r matches Ok(n) ==> {
                &&& n == monitors@.len()
                &&& final(self).phase is Overlaying
                &&& final(self).overlays_live == monitors@.len()
                &&& final(self).store.set.mode == mode
                &&& final(self).store.set.window_rects == window_rects
                &&& final(self).store.set.monitors == monitors
                &&& final(self).store.set.images@.len() == monitors@.len()
                &&& forall|j: int|
                    #![trigger captures@[j]]
                    0 <= j < captures@.len() ==> captures@[j] is Ok
                        && final(self).store.set.images@[j] == captures@[j]->Ok_0
            },
            r matches Err(e) ==> {
                &&& final(self).phase is Idle
                &&& final(self).overlays_live == 0
                &&& final(self).store == old(self).store
                &&& exists|i: int|
                    #![trigger captures@[i]]
                    0 <= i < captures@.len() && captures@[i] is Err && e == captures@[i]->Err_0
                        && (forall|j: int| #![trigger captures@[j]] 0 <= j < i ==> captures@[j] is Ok)
            },
    {
        let n = monitors.len();
        match collect_captures(captures) {
            Ok(images) => {
                let set = CaptureSet { images, mode, window_rects, monitors };
                self.store.replace(set);
                self.overlays_live = n;
                self.phase = Phase::Overlaying;
                Ok(n)
            },
            Err(e) => {
                self.phase = Phase::Idle;
                self.overlays_live = 0;
                Err(e)
            },
        }
    }

    /// Records that one overlay window was destroyed. The session ends —
    /// back to idle — exactly when the last overlay is gone.
    pub fn overlay_closed(&mut self)
        requires
            old(self).inv(),
        ensures
            final(self).inv(),
            final(self).store == old(self).store,
            old(self).overlays_live > 1 ==> final(self).overlays_live == old(self).overlays_live
                - 1 && final(self).phase == old(self).phase,
            old(self).overlays_live <= 1 ==> final(self).overlays_live == 0
                && final(self).phase is Idle,
    {
        if self.overlays_live > 1 {
            self.overlays_live = self.overlays_live - 1;
        } else {
            self.overlays_live = 0;
            self.phase = Phase::Idle;
        }
    }

    /// Consumes the close-all broadcast: every remaining overlay is to be
    /// closed and the session ends. Returns whether the main application
    /// window must be restored to visibility and given focus, which is owed
    /// exactly when the frozen session's mode tag is the OCR/translate mode.
    pub fn close_all_overlays(&mut self) -> (show_main: bool)
        requires
            old(self).inv(),
        ensures
            final(self).inv(),
            final(self).phase is Idle,
            final(self).overlays_live == 0,
            final(self).store == old(self).store,
            show_main == (old(self).store.set.mode@ == "ocr_translate"@),
    {
        self.phase = Phase::Idle;
        self.overlays_live = 0;
        let tag: String = "ocr_translate".to_owned();
        self.store.set.mode == tag
    }
}

/// Law (no partial capture set): in every reachable orchestrator state the
/// stored capture set holds exactly one image per monitor — in particular
/// right after any successful session start, for any number of monitors.
pub proof fn lemma_capture_set_complete(o: Orchestrator)
    requires
        o.inv(),
    ensures
        o.store.set.images@.len() == o.store.set.monitors@.len(),
{
}

/// Law (supersession is idempotent): a start-session request leaves no
/// overlay of an earlier session live, so two requests in quick succession
/// land in the same state as one — two overlapping live overlay sets for the
/// same monitor can never arise.
pub proof fn lemma_begin_session_supersedes(o: Orchestrator)
    ensures
        o.begin_spec().begin_spec() == o.begin_spec(),
        o.begin_spec().overlays_live == 0,
{
}

/// Folds the per-monitor capture results into the session's image list:
/// all monitors captured, in order — or the error of the first monitor that
/// failed, with everything discarded. A failure on any single monitor fails
/// the whole operation, so no partial image list can ever reach the store.
pub fn collect_captures(captures: Vec<Result<String, Error>>) -> (r: Result<Vec<String>, Error>)
    ensures
        r matches Ok(images) ==> images@.len() == captures@.len() && (forall|j: int|
            #![trigger captures@[j]]
            0 <= j < captures@.len() ==> captures@[j] is Ok && images@[j] == captures@[j]->Ok_0),
        r matches Err(e) ==> exists|i: int|
            #![trigger captures@[i]]
            0 <= i < captures@.len() && captures@[i] is Err && e == captures@[i]->Err_0 && (
            forall|j: int| #![trigger captures@[j]] 0 <= j < i ==> captures@[j] is Ok),
{
    let mut images: Vec<String> = Vec::new();
    let mut i: usize = 0;
    while i < captures.len()
        invariant
            i <= captures@.len(),
            images@.len() == i,
            forall|j: int|
                #![trigger captures@[j]]
                0 <= j < i ==> captures@[j] is Ok && images@[j] == captures@[j]->Ok_0,
        decreases captures@.len() - i,
    {
        let c: &Result<String, Error> = &captures[i];
        match c {
            Ok(s) => {
                images.push(s.clone());
                proof {
                    assert forall|j: int|
                        #![trigger captures@[j]]
                        0 <= j < i as int + 1 implies captures@[j] is Ok && images@[j]
                        == captures@[j]->Ok_0 by {
                        if j == i as int {
                            assert(captures@[j] is Ok);
                            assert(images@[j] == captures@[j]->Ok_0);
                        }
                    }
                }
            },
            Err(e) => {
                proof {
                    assert(captures@[i as int] is Err);
                }
                return Err(*e);
            },
        }
        i = i + 1;
    }
    Ok(images)
}

/// The window label of the overlay for a monitor index: the shared overlay
/// prefix, a dash, and the index in decimal.
pub fn overlay_label(monitor_index: usize) -> (r: String)
    ensures
        r@ == "screenshot-overlay-"@ + decimal_digits(monitor_index as nat),
{
    let prefix: String = "screenshot-overlay-".to_owned();
    prefix.concat(u64_to_string(monitor_index as u64).as_str())
}

/// Whether a window label names a screenshot overlay: it starts with the
/// shared overlay prefix.
pub open spec fn is_overlay_label_spec(l: Seq<char>) -> bool {
    l.len() >= "screenshot-overlay"@.len() && l.subrange(
        0,
        "screenshot-overlay"@.len() as int,
    ) == "screenshot-overlay"@
}

/// Law (close propagation reaches every overlay): the label every overlay
/// is created under is recognized by the close-all filter, so tearing down
/// the windows whose labels match the overlay prefix closes the whole
/// overlay set.
pub proof fn lemma_overlay_label_recognized(i: nat)
    ensures
        is_overlay_label_spec("screenshot-overlay-"@ + decimal_digits(i)),
{
    reveal_strlit("screenshot-overlay-");
    reveal_strlit("screenshot-overlay");
    let l = "screenshot-overlay-"@ + decimal_digits(i);
    assert(l.subrange(0, 18) =~= "screenshot-overlay"@);
}

/// Recognizes overlay window labels, so that a close-all pass tears down
/// exactly the overlay windows and nothing else.
pub fn is_overlay_label(label: &str) -> (r: bool)
    ensures
        r == is_overlay_label_spec(label@),
{
    let prefix: &str = "screenshot-overlay";
    proof {
        reveal_strlit("screenshot-overlay");
        assert(prefix@ == "screenshot-overlay"@);
        assert(prefix@.len() == 18);
    }
    let n: usize = label.unicode_len();
    if n < 18 {
        return false;
    }
    let mut i: usize = 0;
    while i < 18
        invariant
            label@.len() >= 18,
            prefix@ == "screenshot-overlay"@,
            prefix@.len() == 18,
            i <= 18,
            forall|k: int| 0 <= k < i ==> label@[k] == prefix@[k],
        decreases 18 - i,
    {
        if label.get_char(i) != prefix.get_char(i) {
            proof {
                assert(label@.subrange(0, 18)[i as int] == label@[i as int]);
                assert(label@.subrange(0, 18) != prefix@);
            }
            return false;
        }
        i = i + 1;
    }
    proof {
        assert(label@.subrange(0, 18) =~= prefix@);
    }
    true
}

} // verus!
