//! Capability providers and the fixed order in which they are attached.

use vstd::prelude::*;

verus! {

/// A unit of optional functionality attached once to the application instance.
#[derive(Clone, Copy, Debug, PartialEq, Eq, Structural)]
pub enum Capability {
    /// System notifications.
    Notification,
    /// Shell and process access.
    Shell,
    /// Checking for application updates.
    Updater,
    /// Diagnostic logging; attached in debug builds only.
    Logger,
}

/// The capabilities of a cold start, in the order they are attached.
pub open spec fn attach_order_spec(debug: bool) -> Seq<Capability> {
    if debug {
        seq![Capability::Notification, Capability::Shell, Capability::Updater, Capability::Logger]
    } else {
        seq![Capability::Notification, Capability::Shell, Capability::Updater]
    }
}

/// Whether attaching the capability can fail. Only the logger's attachment
/// reports a result; the other providers register without one.
pub open spec fn is_infallible_spec(c: Capability) -> bool {
    c != Capability::Logger
}

impl Capability {
    /// Whether the capability registers without reporting a result.
    pub fn is_infallible(&self) -> (r: bool)
        ensures
            r == is_infallible_spec(*self),
    {
        match self {
            Capability::Logger => false,
            _ => true,
        }
    }
}

/// The capabilities to attach at startup, in order: notification, shell,
/// updater, and then the logger if and only if this is a debug build.
pub fn attach_order(debug: bool) -> (r: Vec<Capability>)
    ensures
        r@ == attach_order_spec(debug),
{
    let mut r: Vec<Capability> = Vec::new();
    r.push(Capability::Notification);
    r.push(Capability::Shell);
    r.push(Capability::Updater);
    if debug {
        r.push(Capability::Logger);
    }
    proof {
        assert(r@ =~= attach_order_spec(debug));
    }
    r
}

/// The attach order of a cold start begins with notification, shell and
/// updater; the logger follows them if and only if the build is a debug build,
/// it never comes before the updater, and no capability is attached twice.
pub proof fn lemma_attach_order(debug: bool)
    ensures
        attach_order_spec(debug).take(3) == seq![
            Capability::Notification,
            Capability::Shell,
            Capability::Updater,
        ],
        attach_order_spec(debug).len() == if debug { 4int } else { 3int },
        attach_order_spec(debug).contains(Capability::Logger) <==> debug,
        debug ==> attach_order_spec(debug).last() == Capability::Logger,
        forall|i: int, j: int|
            0 <= i < attach_order_spec(debug).len() && 0 <= j < attach_order_spec(debug).len()
                && attach_order_spec(debug)[i] == Capability::Logger
                && attach_order_spec(debug)[j] == Capability::Updater ==> j < i,
        attach_order_spec(debug).no_duplicates(),
{
    let s = attach_order_spec(debug);
    assert(s.take(3) =~= seq![Capability::Notification, Capability::Shell, Capability::Updater]);
    if !debug {
        assert(!s.contains(Capability::Logger)) by {
            assert forall|k: int| 0 <= k < s.len() implies s[k] != Capability::Logger by {}
        }
    } else {
        assert(s[3] == Capability::Logger);
    }
}

} // verus!
