//! The outcome of driving a task once.

use vstd::prelude::*;

verus! {

/// Driving a task once either produces its final value or reports that the
/// task is not done yet.  Once a task has yielded `Ready`, it must not be
/// driven again.
pub enum PollResult<T> {
    /// The task has not completed yet.
    Pending,
    /// The task completed with this value.
    Ready(T),
}

} // verus!
