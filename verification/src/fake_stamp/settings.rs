//! Stand-ins for reading and storing the client's settings.

use vstd::prelude::*;
use crate::fsm::Poll;

verus! {

/// Reading the client's environment variables.
pub fn poll_read_env_vars() -> (r: Poll<bool>)
    ensures
        r == Poll::<bool>::Pending,
{
    Poll::Pending
}

/// Storing the client's settings.
pub fn poll_store_env_vars() -> (r: Poll<bool>)
    ensures
        r == Poll::<bool>::Pending,
{
    Poll::Pending
}

} // verus!
