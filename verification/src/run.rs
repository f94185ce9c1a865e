//! The capability contracts shared by every runnable entity: exit status
//! values, run statuses, and the `Run` trait, together with the shared
//! abort-on-first-failure machinery of the list policies.

use vstd::prelude::*;

verus! {

use crate::text;

/// How a finished entity exited: an overall success flag, the numeric exit
/// code when the process exited normally, and the terminating signal when it
/// was killed by one.
///
/// A process that terminated without a determinable code (for example one
/// killed by a signal) is reported explicitly through `signal`, or through
/// both fields being `None`, rather than by guessing a code.
#[derive(Clone, Copy, Debug, PartialEq, Eq)]
pub struct ExitInfo {
    /// Whether the entity finished successfully.
    pub success: bool,
    /// The numeric exit code, when the process exited normally.
    pub code: Option<i32>,
    /// The terminating signal, when the process was killed by one.
    pub signal: Option<i32>,
}

impl ExitInfo {
    /// The aggregate "all passed" status: successful, with no numeric code.
    pub open spec fn all_pass() -> ExitInfo {
        ExitInfo { success: true, code: None, signal: None }
    }

    /// Builds the aggregate "all passed" status.
    pub fn passed() -> (r: ExitInfo)
        ensures
            r == ExitInfo::all_pass(),
    {
        ExitInfo { success: true, code: None, signal: None }
    }
}

impl Default for ExitInfo {
    /// The default status reports success with no numeric code.
    fn default() -> (r: ExitInfo)
        ensures
            r == ExitInfo::all_pass(),
    {
        ExitInfo { success: true, code: None, signal: None }
    }
}

/// Exit status capability: a read-only view of how an entity finished.
pub trait ExitStatus {
    /// The success flag this status reports.
    spec fn spec_success(&self) -> bool;

    /// The numeric code this status reports.
    spec fn spec_code(&self) -> Option<i32>;

    /// Whether the entity finished successfully.
    fn success(&self) -> (r: bool)
        ensures
            r == self.spec_success(),
    ;

    /// The numeric exit code, when one is available.
    fn code(&self) -> (r: Option<i32>)
        ensures
            r == self.spec_code(),
    ;
}

impl ExitStatus for ExitInfo {
    open spec fn spec_success(&self) -> bool {
        self.success
    }

    open spec fn spec_code(&self) -> Option<i32> {
        self.code
    }

    fn success(&self) -> (r: bool) {
        self.success
    }

    fn code(&self) -> (r: Option<i32>) {
        self.code
    }
}

/// The mathematical value of a run result: the error message is taken as a
/// character sequence.
pub open spec fn outcome_view(r: Result<ExitInfo, String>) -> Result<ExitInfo, Seq<char>> {
    match r {
        Ok(e) => Ok(e),
        Err(m) => Err(m@),
    }
}

/// Run status capability: on demand, either the exit status of a finished
/// entity or the message explaining why no status could be obtained.
pub trait RunStatus {
    /// The status this value reports.
    spec fn spec_status(&self) -> Result<ExitInfo, Seq<char>>;

    /// Either the exit status, or the message of the failure that prevented
    /// one from being obtained.
    fn status(&self) -> (r: Result<ExitInfo, String>)
        ensures
            outcome_view(r) == self.spec_status(),
    ;
}

/// The concrete run status produced by every runnable entity of this crate.
///
/// `Err` means the entity could not be started or its outcome could not be
/// determined; an entity that ran but failed is `Ok` with an unsuccessful
/// [`ExitInfo`].
#[derive(Debug, PartialEq, Eq)]
pub struct RunOutcome {
    /// The underlying result.
    pub status: Result<ExitInfo, String>,
}

impl RunStatus for RunOutcome {
    open spec fn spec_status(&self) -> Result<ExitInfo, Seq<char>> {
        outcome_view(self.status)
    }

    fn status(&self) -> (r: Result<ExitInfo, String>) {
        match &self.status {
            Ok(e) => Ok(*e),
            Err(m) => Err(m.clone()),
        }
    }
}

/// Run capability: anything that can be run as one unit — a single command or
/// a whole list — yielding a run status.
pub trait Run {
    /// Inputs on which running is vacuous and guaranteed to succeed (for a
    /// list: it is empty).
    spec fn spec_trivially_succeeds(&self) -> bool;

    /// Which exit statuses a run of this entity can report when it obtains
    /// one at all: for a single command, success means exactly exit code
    /// zero; for a list, overall success is the plain aggregate status with
    /// no numeric code.
    spec fn spec_status_ok(&self, e: ExitInfo) -> bool;

    /// Runs the entity and reports its status. Whatever the runs themselves
    /// do, every status obtained satisfies `spec_status_ok`.
    fn run(&self) -> (r: RunOutcome)
        ensures
            self.spec_trivially_succeeds() ==> r.spec_status() == Ok::<ExitInfo, Seq<char>>(
                ExitInfo::all_pass(),
            ),
            r.spec_status() matches Ok(e) ==> self.spec_status_ok(e),
    ;
}

/// The failure message synthesized for an item that ran but did not succeed.
///
/// An available numeric code is reported in the message; an item killed by a
/// signal, or one whose code could not be determined, is reported explicitly
/// instead of assuming a code exists.
pub open spec fn spec_fail_message(e: ExitInfo) -> Seq<char> {
    match e.code {
        Some(c) => "runned item return fail execution state with code: "@ + text::spec_dec(
            c as int,
        ),
        None => match e.signal {
            Some(s) => "runned item terminated by signal: "@ + text::spec_dec(s as int),
            None => "runned item return fail execution state with no available code"@,
        },
    }
}

/// Builds the failure message for a non-successful exit status.
pub fn fail_message(e: &ExitInfo) -> (m: String)
    ensures
        m@ == spec_fail_message(*e),
{
    match e.code {
        Some(c) => {
            let mut m = String::from_str("runned item return fail execution state with code: ");
            let digits = text::fmt_i32(c);
            m.append(digits.as_str());
            m
        },
        None => match e.signal {
            Some(s) => {
                let mut m = String::from_str("runned item terminated by signal: ");
                let digits = text::fmt_i32(s);
                m.append(digits.as_str());
                m
            },
            None => String::from_str(
                "runned item return fail execution state with no available code",
            ),
        },
    }
}

/// The view of an optional abort message.
pub open spec fn abort_view(r: Option<String>) -> Option<Seq<char>> {
    match r {
        Some(m) => Some(m@),
        None => None,
    }
}

/// What the silent and interactive policies decide about one item's outcome:
/// `None` continues with the next item, `Some` aborts the list with the given
/// message. A spawn or wait failure aborts with its message unchanged; a
/// non-successful exit aborts with the synthesized failure message.
pub open spec fn spec_abort_step(o: Result<ExitInfo, Seq<char>>) -> Option<Seq<char>> {
    match o {
        Err(m) => Some(m),
        Ok(e) => if e.success {
            None
        } else {
            Some(spec_fail_message(e))
        },
    }
}

/// Decides whether one item's outcome aborts a silent or interactive list.
pub fn abort_step(o: &Result<ExitInfo, String>) -> (r: Option<String>)
    ensures
        abort_view(r) == spec_abort_step(outcome_view(*o)),
{
    match o {
        Err(m) => Some(m.clone()),
        Ok(e) => if e.success {
            None
        } else {
            Some(fail_message(e))
        },
    }
}

/// The verdict of a silent or interactive list over the sequence of item
/// outcomes it observed, in order: the first outcome that does not report
/// success aborts the list, and an exhausted sequence is overall success.
pub open spec fn spec_silent_verdict(log: Seq<Result<ExitInfo, Seq<char>>>) -> Result<
    ExitInfo,
    Seq<char>,
>
    decreases log.len(),
{
    if log.len() == 0 {
        Ok(ExitInfo::all_pass())
    } else {
        match spec_abort_step(log[0]) {
            Some(m) => Err(m),
            None => spec_silent_verdict(log.skip(1)),
        }
    }
}

/// What the promiscuous policy decides about one item's outcome: `None`
/// continues with the next item, `Some` aborts the list, carrying the
/// outcome through unchanged — the failure message as well as the
/// non-successful status, with no message of the policy's own.
pub open spec fn spec_promiscuous_step(o: Result<ExitInfo, Seq<char>>) -> Option<
    Result<ExitInfo, Seq<char>>,
> {
    match o {
        Err(m) => Some(Err(m)),
        Ok(e) => if e.success {
            None
        } else {
            Some(Ok(e))
        },
    }
}

/// Decides whether one item's outcome aborts a promiscuous list.
pub fn promiscuous_step(o: &Result<ExitInfo, String>) -> (r: Option<Result<ExitInfo, String>>)
    ensures
        (match r {
            Some(v) => Some(outcome_view(v)),
            None => None,
        }) == spec_promiscuous_step(outcome_view(*o)),
{
    match o {
        Err(m) => Some(Err(m.clone())),
        Ok(e) => if e.success {
            None
        } else {
            Some(Ok(*e))
        },
    }
}

/// The verdict of a promiscuous list over the sequence of item outcomes it
/// observed: the first outcome its step aborts on decides the list, and an
/// exhausted sequence is overall success.
pub open spec fn spec_promiscuous_verdict(log: Seq<Result<ExitInfo, Seq<char>>>) -> Result<
    ExitInfo,
    Seq<char>,
>
    decreases log.len(),
{
    if log.len() == 0 {
        Ok(ExitInfo::all_pass())
    } else {
        match spec_promiscuous_step(log[0]) {
            Some(v) => v,
            None => spec_promiscuous_verdict(log.skip(1)),
        }
    }
}

/// A list where every observed outcome reports success succeeds overall,
/// under every policy, with the plain aggregate status.
pub proof fn lemma_verdict_all_success(log: Seq<Result<ExitInfo, Seq<char>>>)
    requires
        forall|i: int| 0 <= i < log.len() ==> log[i] is Ok && log[i]->Ok_0.success,
    ensures
        spec_silent_verdict(log) == Ok::<ExitInfo, Seq<char>>(ExitInfo::all_pass()),
        spec_promiscuous_verdict(log) == Ok::<ExitInfo, Seq<char>>(ExitInfo::all_pass()),
    decreases log.len(),
{
    if log.len() > 0 {
        assert(forall|i: int|
            0 <= i < log.skip(1).len() ==> log.skip(1)[i] == log[i + 1]);
        lemma_verdict_all_success(log.skip(1));
    }
}

/// The first entry of the log that does not report success fixes the
/// verdict. A failure to obtain a status yields its own message; a
/// non-successful exit yields the synthesized failure message under the
/// silent and interactive policies and the underlying status under the
/// promiscuous policy. Entries after that point play no part.
pub proof fn lemma_verdict_first_failure(log: Seq<Result<ExitInfo, Seq<char>>>, i: int)
    requires
        0 <= i < log.len(),
        forall|j: int| 0 <= j < i ==> log[j] is Ok && log[j]->Ok_0.success,
        !(log[i] is Ok && log[i]->Ok_0.success),
    ensures
        spec_silent_verdict(log) == (match log[i] {
            Err(m) => Err::<ExitInfo, Seq<char>>(m),
            Ok(e) => Err::<ExitInfo, Seq<char>>(spec_fail_message(e)),
        }),
        spec_promiscuous_verdict(log) == (match log[i] {
            Err(m) => Err::<ExitInfo, Seq<char>>(m),
            Ok(e) => Ok::<ExitInfo, Seq<char>>(e),
        }),
        spec_silent_verdict(log) == spec_silent_verdict(log.take(i + 1)),
        spec_promiscuous_verdict(log) == spec_promiscuous_verdict(log.take(i + 1)),
    decreases i,
{
    if i == 0 {
        assert(log.take(1)[0] == log[0]);
        assert(log.take(1).len() == 1);
    } else {
        assert(forall|j: int|
            0 <= j < log.skip(1).len() ==> log.skip(1)[j] == log[j + 1]);
        lemma_verdict_first_failure(log.skip(1), i - 1);
        assert(log.take(i + 1)[0] == log[0]);
        assert(log.take(i + 1).skip(1) =~= log.skip(1).take(i));
    }
}

} // verus!
