//! Worker placement: first-fit selection among known workers.

use vstd::prelude::*;

verus! {

/// A worker node a function invocation can be placed on.
#[derive(Debug, Clone, Copy, PartialEq, Eq, Structural)]
pub struct FnWorker {
    pub id: i32,
}

/// Picks the first worker when there is one.
pub fn select_worker(workers: &Vec<FnWorker>) -> (r: Option<FnWorker>)
    ensures
        workers@.len() == 0 ==> r is None,
        workers@.len() > 0 ==> r == Some(workers@[0]),
{
    if workers.len() == 0 {
        None
    } else {
        Some(FnWorker { id: workers[0].id })
    }
}

} // verus!
