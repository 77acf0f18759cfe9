//! The one piece of state of the supervision: the handle of the backend
//! process, if one is held.

use vstd::prelude::*;

verus! {

/// Holds the handle of the running backend process, or nothing.
///
/// `H` is whatever the caller uses to reach the process; it is only kept and
/// handed back, never looked into.
pub struct BackendProcess<H> {
    child: Option<H>,
}

impl<H> View for BackendProcess<H> {
    type V = Option<H>;

    closed spec fn view(&self) -> Option<H> {
        self.child
    }
}

impl<H> BackendProcess<H> {
    /// A holder without a process.
    pub fn empty() -> (process: Self)
        ensures
            process@ == None::<H>,
    {
        BackendProcess { child: None }
    }

    /// A holder of the process reached by `child`.
    pub fn new(child: H) -> (process: Self)
        ensures
            process@ == Some(child),
    {
        BackendProcess { child: Some(child) }
    }

    /// Whether a process is held.
    pub fn holds_child(&self) -> (held: bool)
        ensures
            held == self@.is_some(),
    {
        self.child.is_some()
    }
}

/// Gives up the held process, leaving nothing behind.
///
/// Hands out the handle that was held, which the caller is to kill, or `None`
/// where nothing was held. A second call therefore hands out nothing.
pub fn cleanup_backend<H>(backend_process: &mut BackendProcess<H>) -> (child: Option<H>)
    ensures
        child == old(backend_process)@,
        final(backend_process)@ == None::<H>,
    no_unwind
{
    let mut child: Option<H> = None;
    core::mem::swap(&mut backend_process.child, &mut child);
    child
}

} // verus!
