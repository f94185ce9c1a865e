//! A serializable, value-equal command descriptor: a program name plus an
//! argument list, which binds to the executor to produce a run.

use vstd::prelude::*;

verus! {

use crate::run::{ExitInfo, Run, RunOutcome, RunStatus};
use crate::runner::{ChannelMode, CmdOutput, Runned, run_piped, run_with_modes, spawn_with_modes};

/// The mathematical value of a command descriptor.
pub struct RunItemV {
    /// The program name.
    pub name: Seq<char>,
    /// The arguments, in order.
    pub args: Seq<Seq<char>>,
}

/// A command descriptor: a program name and an ordered argument list, passed
/// verbatim to the OS with no shell interpretation. Immutable once
/// constructed; purely descriptive and owning no OS resources.
#[derive(Clone, Debug, PartialEq, Eq)]
pub struct RunItem {
    /// The program to run.
    pub name: String,
    /// The arguments, in order.
    pub args: Vec<String>,
}

impl View for RunItem {
    type V = RunItemV;

    open spec fn view(&self) -> RunItemV {
        RunItemV { name: self.name@, args: self.args.deep_view() }
    }
}

impl DeepView for RunItem {
    type V = RunItemV;

    open spec fn deep_view(&self) -> RunItemV {
        self.view()
    }
}

impl RunItem {
    /// A new descriptor for the program `name` with arguments `args`.
    pub fn new(name: String, args: Vec<String>) -> (r: RunItem)
        ensures
            r@ == (RunItemV { name: name@, args: args.deep_view() }),
    {
        RunItem { name, args }
    }

    /// Runs the command with each standard stream set up as requested,
    /// blocking until it exits: the variant that lets a caller customize
    /// stdio before running. A status obtained at all counts as success
    /// exactly when the process exited normally with code zero.
    pub fn run_with(&self, si: ChannelMode, so: ChannelMode, se: ChannelMode) -> (r: RunOutcome)
        ensures
            r.spec_status() matches Ok(e) ==> (e.success <==> e.code == Some(0i32)),
    {
        match run_with_modes(&self.name, &self.args, si, so, se) {
            Ok(o) => RunOutcome { status: Ok(o.status) },
            Err(m) => RunOutcome { status: Err(m) },
        }
    }

    /// Spawns the command without waiting and returns a handle to the
    /// in-flight process, or the OS error text if it could not be spawned.
    pub fn run_async(&self) -> (r: Result<Runned, String>)
        ensures
            r matches Ok(h) ==> h.done is None,
    {
        spawn_with_modes(
            &self.name,
            &self.args,
            ChannelMode::Piped,
            ChannelMode::Piped,
            ChannelMode::Piped,
        )
    }

    /// Runs this command with its standard output piped into `other`'s
    /// standard input, returning the captured output and `other`'s exit
    /// status, which counts as success exactly when that process exited
    /// normally with code zero.
    pub fn pipe_into(&self, other: &RunItem) -> (r: Result<CmdOutput, String>)
        ensures
            r matches Ok(o) ==> (o.status.success <==> o.status.code == Some(0i32)),
    {
        run_piped(&self.name, &self.args, &other.name, &other.args)
    }
}

impl Run for RunItem {
    open spec fn spec_trivially_succeeds(&self) -> bool {
        false
    }

    open spec fn spec_status_ok(&self, e: ExitInfo) -> bool {
        e.success <==> e.code == Some(0i32)
    }

    /// Runs the command with all three streams piped, blocking until it
    /// exits.
    fn run(&self) -> (r: RunOutcome) {
        self.run_with(ChannelMode::Piped, ChannelMode::Piped, ChannelMode::Piped)
    }
}

} // verus!
