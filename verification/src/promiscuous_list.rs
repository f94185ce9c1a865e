//! The promiscuous (plain sequential) list policy: items run as they are
//! configured, and the list aborts at the first item that fails, passing
//! the underlying status or error through unchanged rather than
//! synthesizing a message of its own.

use vstd::prelude::*;

verus! {

use crate::run::{ExitInfo, Run, RunOutcome, RunStatus, promiscuous_step};
use crate::runitem::{RunItem, RunItemV};

/// An ordered run list executed sequentially with each item's own stream
/// configuration (piped, captured).
#[derive(Clone, Debug, PartialEq, Eq)]
pub struct PromiscuousList {
    /// The items, in execution order.
    pub items: Vec<RunItem>,
}

impl View for PromiscuousList {
    type V = Seq<RunItemV>;

    open spec fn view(&self) -> Seq<RunItemV> {
        self.items.deep_view()
    }
}

impl PromiscuousList {
    /// A new promiscuous list over `items`, run in the given order.
    pub fn new(items: Vec<RunItem>) -> (r: PromiscuousList)
        ensures
            r@ == items.deep_view(),
    {
        PromiscuousList { items }
    }

    /// Runs the items in order, stopping at the first failure. A spawn or
    /// wait failure surfaces its message unchanged; an item that ran but
    /// exited unsuccessfully aborts the list with that item's own status,
    /// carried through as-is. The only successful status the list ever
    /// reports is the plain aggregate one with no numeric code, reached
    /// when every item succeeded.
    pub fn run_internal(&self) -> (r: Result<ExitInfo, String>)
        ensures
            self@.len() == 0 ==> r == Ok::<ExitInfo, String>(ExitInfo::all_pass()),
            r is Err ==> self@.len() > 0,
            r matches Ok(e) && !e.success ==> self@.len() > 0,
            r matches Ok(e) ==> (e.success ==> e == ExitInfo::all_pass()),
    {
        let mut i: usize = 0;
        while i < self.items.len()
            invariant
                i <= self.items.len(),
            decreases self.items.len() - i,
        {
            let item = &self.items[i];
            let st = item.run().status();
            match promiscuous_step(&st) {
                Some(v) => {
                    return v;
                },
                None => {},
            }
            i += 1;
        }
        Ok(ExitInfo::passed())
    }
}

impl Run for PromiscuousList {
    open spec fn spec_trivially_succeeds(&self) -> bool {
        self@.len() == 0
    }

    open spec fn spec_status_ok(&self, e: ExitInfo) -> bool {
        e.success ==> e == ExitInfo::all_pass()
    }

    /// Runs the list, passing the first failing item's status through
    /// unchanged.
    fn run(&self) -> (r: RunOutcome) {
        match self.run_internal() {
            Ok(e) => RunOutcome { status: Ok(e) },
            Err(m) => RunOutcome { status: Err(m) },
        }
    }
}

} // verus!
