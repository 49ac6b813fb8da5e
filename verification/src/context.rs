//! The context: the top-level owned resource from which every parsed
//! representation and every compiler is derived.
//!
//! The native engine behind the context keeps a single mutable last-error
//! slot, overwritten by the next fallible call, and an optional error
//! callback invoked synchronously whenever an operation fails. This module
//! holds the verified model of that state — what the slot and the callback
//! registration contain after each operation — and the error channel that
//! turns a status code plus the slot's contents into a structured `Error`.
//! The driving layer that owns the raw engine handle pairs each native call
//! with the matching operation here, and hands a fetched diagnostic in as a
//! plain string.

use vstd::prelude::*;

use crate::error::Error;
use crate::error::spvc_result;

verus! {

/// Manager of the native engine's resources.
///
/// Exactly one value of this type stands for one live engine instance; every
/// derived value (a parsed representation, a compiler) borrows it, so no
/// operation can reach the engine once the context has been dropped or while
/// a derived value holds it exclusively.
pub struct Context {
    last_error: Option<String>,
    error_callback_set: bool,
    callback_invocations: Ghost<nat>,
}

impl Context {
    /// The contents of the engine's last-error slot: the diagnostic of the
    /// most recent failure, or `None` when none has been recorded since the
    /// context was created or its allocations were released.
    pub closed spec fn last_error_spec(&self) -> Option<Seq<char>> {
        match self.last_error {
            Some(m) => Some(m@),
            None => None,
        }
    }

    /// The diagnostic string a fetch from the last-error slot returns: the
    /// recorded message, or the empty string when the slot is empty.
    pub open spec fn fetched_error_spec(&self) -> Seq<char> {
        match self.last_error_spec() {
            Some(m) => m,
            None => Seq::empty(),
        }
    }

    /// Whether an error callback is currently registered.
    pub closed spec fn callback_registered(&self) -> bool {
        self.error_callback_set
    }

    /// How many times the registered callbacks have been invoked by failing
    /// operations on this context.
    pub closed spec fn callback_invocations(&self) -> nat {
        self.callback_invocations@
    }

    /// Creates a new empty context, standing for a freshly created engine
    /// instance: the last-error slot is empty and no callback is registered.
    pub fn new() -> (r: Context)
        ensures
            r.last_error_spec() is None,
            !r.callback_registered(),
            r.callback_invocations() == 0,
    {
        Context { last_error: None, error_callback_set: false, callback_invocations: Ghost(0nat) }
    }

    /// Registers an error callback, to be invoked synchronously whenever a
    /// subsequent operation on this context fails. Registering replaces any
    /// previously registered callback; the owned callable itself lives
    /// beside the engine handle in the driving layer, for the context's
    /// whole remaining lifetime.
    pub fn set_error_callback(&mut self)
        ensures
            final(self).callback_registered(),
            final(self).last_error_spec() == old(self).last_error_spec(),
            final(self).callback_invocations() == old(self).callback_invocations(),
    {
        self.error_callback_set = true;
    }

    /// Records a failure the engine reported: the diagnostic overwrites the
    /// last-error slot, and the registered callback, if any, has been invoked
    /// synchronously — before the failing call returned to its caller.
    pub fn record_failure(&mut self, msg: String)
        ensures
            final(self).last_error_spec() == Some(msg@),
            final(self).callback_registered() == old(self).callback_registered(),
            final(self).callback_invocations() == old(self).callback_invocations() + (
            if old(self).callback_registered() {
                1nat
            } else {
                0nat
            }),
    {
        self.last_error = Some(msg);
        proof {
            if self.error_callback_set {
                self.callback_invocations@ = self.callback_invocations@ + 1;
            }
        }
    }

    /// The error channel: turns the status of the call made immediately
    /// before into `Ok(())` on success, and otherwise into an `Error`
    /// carrying that status and the diagnostic fetched from the last-error
    /// slot.
    pub fn get_error(&self, code: spvc_result) -> (r: Result<(), Error>)
        ensures
            code is SPVC_SUCCESS <==> r is Ok,
            r matches Err(e) ==> e.code == code && (e.err_msg matches Some(m) && m@
                == self.fetched_error_spec()),
    {
        if code.is_success() {
            return Ok(());
        }
        let msg: String = match &self.last_error {
            Some(m) => m.clone(),
            None => String::new(),
        };
        Err(Error { code, err_msg: Some(msg) })
    }

    /// Releases all engine-internal bookkeeping — diagnostics and cached
    /// strings — eagerly, without destroying the engine. The exclusive borrow
    /// guarantees that no value derived from this context is still alive.
    pub fn release_allocations(&mut self)
        ensures
            final(self).last_error_spec() is None,
            final(self).callback_registered() == old(self).callback_registered(),
            final(self).callback_invocations() == old(self).callback_invocations(),
    {
        self.last_error = None;
    }
}

} // verus!
