//! The script-level run list: a tagged union over the list policies, and
//! the script handle with the messages its loader reports.
//!
//! Reading the script document from storage is I/O and lives outside this
//! library; the message for each way that loading can fail is built here, so
//! that what users see is pinned down exactly.

use vstd::prelude::*;

verus! {

use vstd::string::StringExecFns;
use crate::interactive_list::InteractiveList;
use crate::promiscuous_list::PromiscuousList;
use crate::run::{ExitInfo, Run, RunOutcome};
use crate::runitem::RunItemV;
use crate::silent_list::SilentList;

/// The mathematical value of a script list: the policy tag and the items.
pub enum ListV {
    /// The promiscuous (plain sequential) policy.
    Promiscuous(Seq<RunItemV>),
    /// The silent policy.
    Silent(Seq<RunItemV>),
    /// The interactive policy.
    Interactive(Seq<RunItemV>),
}

impl ListV {
    /// The items of the list, whatever the policy.
    pub open spec fn items(self) -> Seq<RunItemV> {
        match self {
            ListV::Promiscuous(l) => l,
            ListV::Silent(l) => l,
            ListV::Interactive(l) => l,
        }
    }
}

/// A run list tagged by its execution policy. The tag is preserved by
/// serialization, and running the list dispatches to the active policy.
#[derive(Clone, Debug, PartialEq, Eq)]
pub enum List {
    /// Run sequentially, passing failures through unchanged.
    Promiscuous(PromiscuousList),
    /// Run with piped streams and synthesized failure messages.
    Silent(SilentList),
    /// Run with the parent's terminal and synthesized failure messages.
    Interactive(InteractiveList),
}

impl View for List {
    type V = ListV;

    open spec fn view(&self) -> ListV {
        match self {
            List::Promiscuous(l) => ListV::Promiscuous(l@),
            List::Silent(l) => ListV::Silent(l@),
            List::Interactive(l) => ListV::Interactive(l@),
        }
    }
}

impl Run for List {
    open spec fn spec_trivially_succeeds(&self) -> bool {
        self@.items().len() == 0
    }

    open spec fn spec_status_ok(&self, e: ExitInfo) -> bool {
        match self {
            List::Promiscuous(l) => l.spec_status_ok(e),
            List::Silent(l) => l.spec_status_ok(e),
            List::Interactive(l) => l.spec_status_ok(e),
        }
    }

    /// Runs the active policy's list.
    fn run(&self) -> (r: RunOutcome) {
        match self {
            List::Promiscuous(l) => l.run(),
            List::Silent(l) => l.run(),
            List::Interactive(l) => l.run(),
        }
    }
}

/// A script: the path of the persisted document describing one [`List`].
#[derive(Clone, Debug, PartialEq, Eq)]
pub struct Script {
    /// The path of the script document.
    pub path: String,
}

impl Script {
    /// A new script handle for the document at `path`.
    pub fn new(path: String) -> (r: Script)
        ensures
            r.path == path,
    {
        Script { path }
    }
}

/// The message reported when the script path does not exist.
pub open spec fn spec_missing_script_message(path: Seq<char>) -> Seq<char> {
    "Script: "@ + path + " doesn't exist"@
}

/// Builds the message reported when the script path does not exist.
pub fn missing_script_message(path: &String) -> (m: String)
    ensures
        m@ == spec_missing_script_message(path@),
{
    let mut m = String::from_str("Script: ");
    m.append(path.as_str());
    m.append(" doesn't exist");
    m
}

/// The message reported when the script file cannot be opened.
pub open spec fn spec_open_error_message(err: Seq<char>) -> Seq<char> {
    "fail to open script with error: "@ + err
}

/// Builds the message reported when the script file cannot be opened; `err`
/// is the OS error text.
pub fn open_error_message(err: &String) -> (m: String)
    ensures
        m@ == spec_open_error_message(err@),
{
    let mut m = String::from_str("fail to open script with error: ");
    m.append(err.as_str());
    m
}

/// The message reported when the script file cannot be read.
pub open spec fn spec_read_error_message(err: Seq<char>) -> Seq<char> {
    "fail to read script with error: "@ + err
}

/// Builds the message reported when the script file cannot be read; `err`
/// is the OS error text.
pub fn read_error_message(err: &String) -> (m: String)
    ensures
        m@ == spec_read_error_message(err@),
{
    let mut m = String::from_str("fail to read script with error: ");
    m.append(err.as_str());
    m
}

} // verus!
