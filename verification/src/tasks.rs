//! The listener runs as a background task of the host's asynchronous
//! runtime; the slot owns its handle as a cancellation token. Only the
//! handle's type and its cancellation call are taken on trust; spawning the
//! task is the host's side of the boundary.

use vstd::prelude::*;

verus! {

/// Relies on tokio::task::JoinHandle being an ownership token for a spawned
/// task; the library only stores it and cancels through it.
#[verifier::external_type_specification]
#[verifier::external_body]
#[verifier::reject_recursive_types(T)]
pub struct ExJoinHandle<T>(tokio::task::JoinHandle<T>);

/// Relies on tokio::task::JoinError being the error a joined task reports;
/// the library never joins a task, but the handle's own interface names the
/// type, so it has to be declared alongside the handle.
#[verifier::external_type_specification]
#[verifier::external_body]
pub struct ExJoinError(tokio::task::JoinError);

/// Relies on tokio::task::JoinHandle::abort: asks the runtime to cancel the
/// task; it returns at once and never fails.
pub assume_specification<T>[ tokio::task::JoinHandle::<T>::abort ](
    handle: &tokio::task::JoinHandle<T>,
);

} // verus!
