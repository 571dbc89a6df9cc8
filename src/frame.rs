//! Decisions of the per-frame loop: when it stops, whether the overlay is
//! shown, and the UI input that the next frame receives.
use vstd::prelude::*;
use crate::input::{is_translation, translate, RawEvent, UiEvent};
use crate::players::{PlayerCache, PlayerCacheView};

verus! {

/// A window-system or compositor-system event, as far as the loop cares.
#[derive(Clone, Copy, Debug, PartialEq, Eq, Structural)]
pub enum SystemEvent {
    Quit,
    Other,
}

/// Whether an overlay event asks the loop to stop.
pub open spec fn is_quit_event<P>(e: RawEvent<P>) -> bool {
    e is Quit || e is OverlayClosed
}

/// Visibility after an overlay event.
pub open spec fn shown_after<P>(e: RawEvent<P>, shown: bool) -> bool {
    match e {
        RawEvent::OverlayShown => true,
        RawEvent::OverlayHidden => false,
        _ => shown,
    }
}

pub struct FrameLoopView<P> {
    pub quit: bool,
    pub shown: bool,
    /// UI events waiting for the next frame, oldest first.
    pub pending: Seq<UiEvent<P>>,
}

/// The loop's flags and the UI input gathered for the next frame.
pub struct FrameLoop<P> {
    quit: bool,
    shown: bool,
    pending: Vec<UiEvent<P>>,
}

impl<P> View for FrameLoop<P> {
    type V = FrameLoopView<P>;

    closed spec fn view(&self) -> FrameLoopView<P> {
        FrameLoopView { quit: self.quit, shown: self.shown, pending: self.pending@ }
    }
}

impl<P> FrameLoop<P> {
    /// A running loop with the overlay shown and no pending input.
    pub fn new() -> (r: FrameLoop<P>)
        ensures
            !r@.quit,
            r@.shown,
            r@.pending.len() == 0,
    {
        FrameLoop { quit: false, shown: true, pending: Vec::new() }
    }

    /// True until a quit has been observed; once false it stays false.
    pub fn is_running(&self) -> (r: bool)
        ensures
            r == !self@.quit,
    {
        !self.quit
    }

    /// Whether the overlay is visible, so that a frame is drawn and submitted.
    pub fn is_shown(&self) -> (r: bool)
        ensures
            r == self@.shown,
    {
        self.shown
    }

    /// Handles a window-system or compositor-system event: a quit stops the loop.
    pub fn on_system_event(&mut self, e: SystemEvent)
        ensures
            final(self)@ == (FrameLoopView { quit: old(self)@.quit || e == SystemEvent::Quit, ..old(self)@ }),
    {
        if e == SystemEvent::Quit {
            self.quit = true;
        }
    }

    /// Handles an overlay event: a quit or a close stops the loop, shown and
    /// hidden set the visibility, and the UI events it translates to are
    /// queued after those already pending.
    pub fn on_overlay_event(&mut self, e: RawEvent<P>)
        ensures
            final(self)@.quit == (old(self)@.quit || is_quit_event(e)),
            final(self)@.shown == shown_after(e, old(self)@.shown),
            final(self)@.pending.len() >= old(self)@.pending.len(),
            final(self)@.pending.take(old(self)@.pending.len() as int) == old(self)@.pending,
            is_translation(e, final(self)@.pending.skip(old(self)@.pending.len() as int)),
    {
        match &e {
            RawEvent::Quit | RawEvent::OverlayClosed => {
                self.quit = true;
            },
            RawEvent::OverlayShown => {
                self.shown = true;
            },
            RawEvent::OverlayHidden => {
                self.shown = false;
            },
            _ => {},
        }
        translate(e, &mut self.pending);
    }

    /// Hands over the pending UI events, oldest first, for the frame that
    /// begins now; none remain pending.
    pub fn take_input(&mut self) -> (r: Vec<UiEvent<P>>)
        ensures
            r@ == old(self)@.pending,
            final(self)@ == (FrameLoopView { pending: Seq::<UiEvent<P>>::empty(), ..old(self)@ }),
    {
        let mut r: Vec<UiEvent<P>> = Vec::new();
        std::mem::swap(&mut r, &mut self.pending);
        r
    }

    /// The player whose media panel this frame shows: none while the overlay
    /// is hidden or no player is listed; else the selection, first brought
    /// back into the list.
    pub fn media_panel_selection(&self, players: &mut PlayerCache) -> (r: Option<usize>)
        ensures
            !self@.shown || old(players)@.players.len() == 0 ==> r.is_none() && final(players)@
                == old(players)@,
            self@.shown && old(players)@.players.len() > 0 ==> {
                let sel = if old(players)@.selected < old(players)@.players.len() {
                    old(players)@.selected
                } else {
                    (old(players)@.players.len() - 1) as nat
                };
                &&& r == Some(sel as usize)
                &&& sel < old(players)@.players.len()
                &&& final(players)@ == PlayerCacheView { selected: sel, ..old(players)@ }
            },
    {
        if !self.shown {
            return None;
        }
        players.clamp_selection()
    }
}

/// The UI events that overlay events produce reach the UI in the order of those
/// events: handling `a` and then `b` queues the events of `a` followed by the
/// events of `b`, after what was already pending.
pub proof fn lemma_input_order<P>(
    s0: FrameLoopView<P>,
    s1: FrameLoopView<P>,
    s2: FrameLoopView<P>,
    a: RawEvent<P>,
    b: RawEvent<P>,
)
    requires
        s1.pending.len() >= s0.pending.len(),
        s1.pending.take(s0.pending.len() as int) == s0.pending,
        is_translation(a, s1.pending.skip(s0.pending.len() as int)),
        s2.pending.len() >= s1.pending.len(),
        s2.pending.take(s1.pending.len() as int) == s1.pending,
        is_translation(b, s2.pending.skip(s1.pending.len() as int)),
    ensures
        s2.pending =~= s0.pending + s1.pending.skip(s0.pending.len() as int) + s2.pending.skip(
            s1.pending.len() as int,
        ),
{
    assert(s1.pending =~= s0.pending + s1.pending.skip(s0.pending.len() as int));
    assert(s2.pending =~= s1.pending + s2.pending.skip(s1.pending.len() as int));
}

} // verus!
