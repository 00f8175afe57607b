//! The startup sequencer: a state machine that attaches the capabilities in
//! order, emits the startup marker and lets the host enter its event loop.
//! The host performs each action and reports whether it succeeded; any
//! failure aborts the whole sequence.

use vstd::prelude::*;
use crate::capability::{Capability, attach_order, attach_order_spec};

verus! {

/// The next thing the host must do to bring the application up.
#[derive(Clone, Copy, Debug, PartialEq, Eq, Structural)]
pub enum StartupAction {
    /// Attach a capability provider to the application instance.
    Attach(Capability),
    /// Emit the human-readable startup marker.
    EmitMarker,
    /// Enter the event loop; from then on window events reach the interceptor.
    EnterLoop,
    /// A step failed: terminate the process, reporting the cause.
    Abort,
}

/// The abstract state of a startup sequence.
pub struct StartupView {
    /// Whether this is a debug build.
    pub debug: bool,
    /// How many steps of the plan have completed.
    pub done: nat,
    /// Whether a step failed.
    pub failed: bool,
}

/// The attach steps for the capabilities of `caps`, in the same order.
pub open spec fn attach_steps(caps: Seq<Capability>) -> Seq<StartupAction> {
    caps.map_values(|c: Capability| StartupAction::Attach(c))
}

/// Every step of a cold start that succeeds throughout.
pub open spec fn plan_spec(debug: bool) -> Seq<StartupAction> {
    attach_steps(attach_order_spec(debug)) + seq![StartupAction::EmitMarker, StartupAction::EnterLoop]
}

/// What the host must do next in state `v`; `None` once the event loop runs.
pub open spec fn next_action_spec(v: StartupView) -> Option<StartupAction> {
    if v.failed {
        Some(StartupAction::Abort)
    } else if v.done < plan_spec(v.debug).len() {
        Some(plan_spec(v.debug)[v.done as int])
    } else {
        None
    }
}

/// The capabilities attached so far in state `v`, in the order they were.
pub open spec fn attached_spec(v: StartupView) -> Seq<Capability> {
    let order = attach_order_spec(v.debug);
    if v.done <= order.len() {
        order.take(v.done as int)
    } else {
        order
    }
}

/// Whether the event loop runs, so that window events reach the interceptor.
pub open spec fn is_running_spec(v: StartupView) -> bool {
    !v.failed && v.done == plan_spec(v.debug).len()
}

/// A startup sequence in progress.
pub struct Startup {
    debug: bool,
    order: Vec<Capability>,
    done: usize,
    failed: bool,
}

impl View for Startup {
    type V = StartupView;

    closed spec fn view(&self) -> StartupView {
        StartupView { debug: self.debug, done: self.done as nat, failed: self.failed }
    }
}

impl Startup {
    /// The sequence's internal consistency: its attach order is that of its
    /// build, and it has not gone past the end of its plan.
    pub closed spec fn wf(&self) -> bool {
        &&& self.order@ == attach_order_spec(self.debug)
        &&& self.done <= self.order@.len() + 2
    }

    /// A cold start of a debug build (`debug`) or a release build.
    pub fn new(debug: bool) -> (r: Startup)
        ensures
            r.wf(),
            r@ == (StartupView { debug, done: 0, failed: false }),
    {
        Startup { debug, order: attach_order(debug), done: 0, failed: false }
    }

    /// What the host must do next; `None` once the event loop runs.
    pub fn next_action(&self) -> (r: Option<StartupAction>)
        requires
            self.wf(),
        ensures
            r == next_action_spec(self@),
    {
        proof {
            lemma_plan_layout(self.debug);
        }
        if self.failed {
            Some(StartupAction::Abort)
        } else if self.done < self.order.len() {
            Some(StartupAction::Attach(self.order[self.done]))
        } else if self.done == self.order.len() {
            Some(StartupAction::EmitMarker)
        } else if self.done == self.order.len() + 1 {
            Some(StartupAction::EnterLoop)
        } else {
            None
        }
    }

    /// Records the outcome of the step that `next_action` asked for: on
    /// success the sequence moves on to the following step, on failure it is
    /// aborted for good.
    pub fn complete(&mut self, ok: bool)
        requires
            old(self).wf(),
            !old(self)@.failed,
            old(self)@.done < plan_spec(old(self)@.debug).len(),
        ensures
            final(self).wf(),
            final(self)@ == (if ok {
                StartupView { done: old(self)@.done + 1, ..old(self)@ }
            } else {
                StartupView { failed: true, ..old(self)@ }
            }),
    {
        proof {
            lemma_plan_layout(self.debug);
        }
        if ok {
            self.done = self.done + 1;
        } else {
            self.failed = true;
        }
    }

    /// The capabilities attached so far, in the order they were.
    pub fn attached(&self) -> (r: Vec<Capability>)
        requires
            self.wf(),
        ensures
            r@ == attached_spec(self@),
    {
        let n: usize = if self.done < self.order.len() {
            self.done
        } else {
            self.order.len()
        };
        let mut r: Vec<Capability> = Vec::new();
        let mut i: usize = 0;
        while i < n
            invariant
                n <= self.order@.len(),
                0 <= i <= n,
                r@ == self.order@.take(i as int),
            decreases n - i,
        {
            r.push(self.order[i]);
            i = i + 1;
            proof {
                assert(r@ =~= self.order@.take(i as int));
            }
        }
        proof {
            if self.done > self.order@.len() {
                assert(self.order@.take(n as int) =~= self.order@);
            }
        }
        r
    }

    /// Whether the event loop runs, so that window events reach the
    /// interceptor.
    pub fn is_running(&self) -> (r: bool)
        requires
            self.wf(),
        ensures
            r == is_running_spec(self@),
    {
        proof {
            lemma_plan_layout(self.debug);
        }
        !self.failed && self.done == self.order.len() + 2
    }
}

/// A cold start first attaches the capabilities of its build in their fixed
/// order, one step each, then emits the startup marker, then enters the event
/// loop, and does nothing else.
pub proof fn lemma_plan_layout(debug: bool)
    ensures
        plan_spec(debug).len() == attach_order_spec(debug).len() + 2,
        forall|i: int|
            0 <= i < attach_order_spec(debug).len() ==> plan_spec(debug)[i]
                == StartupAction::Attach(attach_order_spec(debug)[i]),
        plan_spec(debug)[attach_order_spec(debug).len() as int] == StartupAction::EmitMarker,
        plan_spec(debug)[attach_order_spec(debug).len() + 1int] == StartupAction::EnterLoop,
{
    let order = attach_order_spec(debug);
    let steps = attach_steps(order);
    assert(steps.len() == order.len());
    assert forall|i: int| 0 <= i < order.len() implies plan_spec(debug)[i]
        == StartupAction::Attach(order[i]) by {
        assert(steps[i] == StartupAction::Attach(order[i]));
    }
}

/// Once a step has failed, the only thing left to do is to abort: no further
/// capability is attached and the event loop, with the interceptor, never
/// starts.
pub proof fn lemma_failure_is_final(v: StartupView)
    requires
        v.failed,
    ensures
        next_action_spec(v) == Some(StartupAction::Abort),
        !is_running_spec(v),
{
}

} // verus!
