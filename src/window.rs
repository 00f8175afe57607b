//! The window-event interceptor: a close request hides the window and cancels
//! the host's default close, every other event passes through untouched.

use vstd::prelude::*;

verus! {

/// Whether a window is on screen.
#[derive(Clone, Copy, Debug, PartialEq, Eq, Structural)]
pub enum Visibility {
    Visible,
    Hidden,
}

/// The kinds of window-level events the host dispatches.
#[derive(Clone, Copy, Debug, PartialEq, Eq, Structural)]
pub enum WindowEventKind {
    /// The user asked to close the window.
    CloseRequested,
    Resized,
    Moved,
    Destroyed,
    /// The window gained (`true`) or lost (`false`) focus.
    Focused(bool),
    ScaleFactorChanged,
    DragDrop,
    ThemeChanged,
    /// An event kind this interceptor does not name.
    Other,
}

/// An operation the interceptor asks the host to perform, in order.
#[derive(Clone, Copy, Debug, PartialEq, Eq, Structural)]
pub enum WindowEffect {
    /// Hide the window that raised the event. A failure here is fatal.
    Hide,
    /// Cancel the host's default destroy-on-close action of the event.
    PreventClose,
}

/// What the interceptor does on an event: on a close request, hide the window
/// and then cancel the close; on anything else, nothing.
pub open spec fn intercept_spec(event: WindowEventKind) -> Seq<WindowEffect> {
    match event {
        WindowEventKind::CloseRequested => seq![WindowEffect::Hide, WindowEffect::PreventClose],
        _ => seq![],
    }
}

/// The visibility of a window after the host has performed `effects` on it.
pub open spec fn apply_effects_spec(v: Visibility, effects: Seq<WindowEffect>) -> Visibility {
    if effects.contains(WindowEffect::Hide) {
        Visibility::Hidden
    } else {
        v
    }
}

/// How many times `effects` cancels the default close action.
pub open spec fn cancel_count(effects: Seq<WindowEffect>) -> nat
    decreases effects.len(),
{
    if effects.len() == 0 {
        0
    } else {
        cancel_count(effects.drop_last()) + if effects.last() == WindowEffect::PreventClose {
            1nat
        } else {
            0nat
        }
    }
}

/// The effects the interceptor asks for on `event`.
pub fn intercept(event: &WindowEventKind) -> (r: Vec<WindowEffect>)
    ensures
        r@ == intercept_spec(*event),
{
    let mut r: Vec<WindowEffect> = Vec::new();
    match event {
        WindowEventKind::CloseRequested => {
            r.push(WindowEffect::Hide);
            r.push(WindowEffect::PreventClose);
            proof {
                assert(r@ =~= intercept_spec(*event));
            }
        },
        _ => {
            proof {
                assert(r@ =~= intercept_spec(*event));
            }
        },
    }
    r
}

/// The state of one window as the interceptor sees it.
#[derive(Clone, Copy, Debug, PartialEq, Eq, Structural)]
pub struct WindowState {
    pub visibility: Visibility,
}

impl WindowState {
    /// A window as it first appears: visible.
    pub fn new() -> (r: WindowState)
        ensures
            r.visibility == Visibility::Visible,
    {
        WindowState { visibility: Visibility::Visible }
    }

    /// The window's current visibility.
    pub fn visibility(&self) -> (r: Visibility)
        ensures
            r == self.visibility,
    {
        self.visibility
    }

    /// Dispatches `event` to the interceptor, returns the effects the host
    /// must perform, and records their outcome on the window.
    pub fn dispatch(&mut self, event: &WindowEventKind) -> (r: Vec<WindowEffect>)
        ensures
            r@ == intercept_spec(*event),
            final(self).visibility == apply_effects_spec(old(self).visibility, r@),
    {
        let r = intercept(event);
        let mut hides = false;
        let mut i: usize = 0;
        while i < r.len()
            invariant
                0 <= i <= r@.len(),
                hides <==> exists|k: int| 0 <= k < i && r@[k] == WindowEffect::Hide,
            decreases r@.len() - i,
        {
            if r[i] == WindowEffect::Hide {
                hides = true;
            }
            i = i + 1;
        }
        proof {
            if hides {
                let k = choose|k: int| 0 <= k < i && r@[k] == WindowEffect::Hide;
                assert(r@.contains(WindowEffect::Hide));
            } else {
                assert(!r@.contains(WindowEffect::Hide));
            }
        }
        if hides {
            self.visibility = Visibility::Hidden;
        }
        r
    }

    /// Shows the window again; this is how a collaborator outside the
    /// interceptor (a tray icon, a notification action) brings it back.
    pub fn show(&mut self)
        ensures
            final(self).visibility == Visibility::Visible,
    {
        self.visibility = Visibility::Visible;
    }
}

/// Any event other than a close request leaves the window's visibility as it
/// was and never cancels the default action.
pub proof fn lemma_other_events_pass_through(v: Visibility, event: WindowEventKind)
    requires
        event != WindowEventKind::CloseRequested,
    ensures
        intercept_spec(event).len() == 0,
        apply_effects_spec(v, intercept_spec(event)) == v,
        cancel_count(intercept_spec(event)) == 0,
{
    assert(!intercept_spec(event).contains(WindowEffect::Hide));
}

/// A close request, on a window in any state, leaves it hidden and cancels
/// the default action exactly once, after hiding it.
pub proof fn lemma_close_hides_and_cancels_once(v: Visibility)
    ensures
        apply_effects_spec(v, intercept_spec(WindowEventKind::CloseRequested)) == Visibility::Hidden,
        cancel_count(intercept_spec(WindowEventKind::CloseRequested)) == 1,
        intercept_spec(WindowEventKind::CloseRequested) == seq![
            WindowEffect::Hide,
            WindowEffect::PreventClose,
        ],
{
    let s = intercept_spec(WindowEventKind::CloseRequested);
    assert(s[0] == WindowEffect::Hide);
    assert(s.contains(WindowEffect::Hide));
    assert(s.drop_last() =~= seq![WindowEffect::Hide]);
    assert(s.drop_last().drop_last() =~= Seq::<WindowEffect>::empty());
    assert(cancel_count(s.drop_last().drop_last()) == 0);
    assert(cancel_count(s.drop_last()) == 0);
}

/// The visibility of a window that starts as `v` after the interceptor has
/// handled `events` in order and the host has performed each effect.
pub open spec fn visibility_after(v: Visibility, events: Seq<WindowEventKind>) -> Visibility
    decreases events.len(),
{
    if events.len() == 0 {
        v
    } else {
        apply_effects_spec(visibility_after(v, events.drop_last()), intercept_spec(events.last()))
    }
}

/// How many default close actions the interceptor cancels over `events`.
pub open spec fn cancels_over(events: Seq<WindowEventKind>) -> nat
    decreases events.len(),
{
    if events.len() == 0 {
        0
    } else {
        cancels_over(events.drop_last()) + cancel_count(intercept_spec(events.last()))
    }
}

/// Close requests may repeat: on a window that is already hidden, or after at
/// least one of them, the window is hidden, and every one of them cancels the
/// default action once.
pub proof fn lemma_repeated_close_requests(v: Visibility, events: Seq<WindowEventKind>)
    requires
        forall|k: int| 0 <= k < events.len() ==> events[k] == WindowEventKind::CloseRequested,
    ensures
        (v == Visibility::Hidden || events.len() > 0) ==> visibility_after(v, events)
            == Visibility::Hidden,
        cancels_over(events) == events.len(),
    decreases events.len(),
{
    if events.len() > 0 {
        let prefix = events.drop_last();
        lemma_repeated_close_requests(v, prefix);
        lemma_close_hides_and_cancels_once(visibility_after(v, prefix));
    }
}

} // verus!
