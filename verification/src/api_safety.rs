//! Where the runtime must be running, and where it must not.
//!
//! Most of this library asks that its caller runs inside an active runtime.
//! A function says so by calling [`assert_runtime_is_running`], whose
//! precondition the verifier then asks of every caller.

use crate::smp::Reactor;
use vstd::prelude::*;

verus! {

/// Intended to be used in a runtime-dependent function: can only be called
/// inside of an active runtime.
pub fn assert_runtime_is_running(reactor: &Reactor)
    requires
        reactor.engine_ready,
{
}

/// Intended to be used where a runtime is started: can only be called
/// outside of an active runtime.
pub fn assert_runtime_is_not_running(reactor: &Reactor)
    requires
        !reactor.engine_ready,
{
}

} // verus!
