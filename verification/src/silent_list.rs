//! The silent list policy: items run with all streams piped (no
//! passthrough), and the list aborts at the first item that fails to start
//! or exits unsuccessfully.

use vstd::prelude::*;

verus! {

use crate::run::{ExitInfo, Run, RunOutcome, RunStatus, abort_step};
use crate::runitem::{RunItem, RunItemV};

/// An ordered run list executed silently: every item's streams are piped,
/// so nothing reaches the parent's terminal.
#[derive(Clone, Debug, PartialEq, Eq)]
pub struct SilentList {
    /// The items, in execution order.
    pub items: Vec<RunItem>,
}

impl View for SilentList {
    type V = Seq<RunItemV>;

    open spec fn view(&self) -> Seq<RunItemV> {
        self.items.deep_view()
    }
}

impl SilentList {
    /// A new silent list over `items`, run in the given order.
    pub fn new(items: Vec<RunItem>) -> (r: SilentList)
        ensures
            r@ == items.deep_view(),
    {
        SilentList { items }
    }

    /// Runs the items in order with piped streams, stopping at the first
    /// failure: a spawn or wait failure surfaces its message unchanged, and
    /// a non-successful exit surfaces the synthesized failure message.
    pub fn run_internal(&self) -> (r: Result<(), String>)
        ensures
            self@.len() == 0 ==> r is Ok,
            r is Err ==> self@.len() > 0,
    {
        let mut i: usize = 0;
        while i < self.items.len()
            invariant
                i <= self.items.len(),
            decreases self.items.len() - i,
        {
            let item = &self.items[i];
            let st = item.run().status();
            match abort_step(&st) {
                Some(m) => {
                    return Err(m);
                },
                None => {},
            }
            i += 1;
        }
        Ok(())
    }
}

impl Run for SilentList {
    open spec fn spec_trivially_succeeds(&self) -> bool {
        self@.len() == 0
    }

    open spec fn spec_status_ok(&self, e: ExitInfo) -> bool {
        e == ExitInfo::all_pass()
    }

    /// Runs the list. The only status it ever reports is overall success,
    /// carried as the plain aggregate status with no numeric code; every
    /// failure is an error message.
    fn run(&self) -> (r: RunOutcome) {
        match self.run_internal() {
            Ok(()) => RunOutcome { status: Ok(ExitInfo::passed()) },
            Err(m) => RunOutcome { status: Err(m) },
        }
    }
}

} // verus!
