//! The single-command executor: a configurable command specification
//! ([`Runner`]), its blocking and non-blocking execution paths, and the
//! in-flight process handle ([`Runned`]).
//!
//! Process creation and waiting are performed by the `subprocess` crate
//! behind small trusted wrappers; everything that interprets the results is
//! verified.

use vstd::prelude::*;

verus! {

use crate::run::ExitInfo;

/// How one standard stream of the child process is set up.
#[derive(Clone, Copy, Debug, PartialEq, Eq)]
pub enum ChannelMode {
    /// Redirect the stream to a pipe owned by the parent (captured).
    Piped,
    /// Let the child inherit the parent's stream.
    Inherit,
    /// Redirect the stream to the null device.
    Null,
}

/// What the operating system reported about a finished process: the exit
/// code when it exited normally, and the signal when it was killed by one.
#[derive(Clone, Copy, Debug, PartialEq, Eq)]
pub struct RawExit {
    /// The exit code, present exactly when the process exited normally.
    pub code: Option<u32>,
    /// The signal number, present exactly when a signal killed the process.
    pub signal: Option<i32>,
}

/// The completed result of a blocking run: the exit status plus the bytes
/// captured from the child's piped output streams.
#[derive(Debug, PartialEq, Eq)]
pub struct CmdOutput {
    /// How the process exited.
    pub status: ExitInfo,
    /// Captured standard output (empty unless stdout was piped).
    pub stdout: Vec<u8>,
    /// Captured standard error (empty unless stderr was piped).
    pub stderr: Vec<u8>,
}

#[verifier::external_type_specification]
#[verifier::external_body]
pub struct ExJob(subprocess::Job);

/// Relies on `subprocess::Exec::start`: it spawns the command named by
/// `name` with exactly the arguments `args` (no shell interpretation), each
/// standard stream redirected as requested, and returns the job handle; a
/// spawn failure is reported as the `Display` text of the underlying OS
/// error. The builder calls (`cmd`, `args`, `stdin`, `stdout`, `stderr`)
/// only assemble that request.
#[verifier::external_body]
fn start_job(
    name: &String,
    args: &Vec<String>,
    si: &ChannelMode,
    so: &ChannelMode,
    se: &ChannelMode,
) -> (r: Result<subprocess::Job, String>) {
    let rd = |m: &ChannelMode| match m {
        ChannelMode::Piped => subprocess::Redirection::Pipe,
        ChannelMode::Inherit => subprocess::Redirection::None,
        ChannelMode::Null => subprocess::Redirection::Null,
    };
    let exec = subprocess::Exec::cmd(name.as_str()).args(args.as_slice()).stdin(rd(si)).stdout(
        rd(so),
    ).stderr(rd(se));
    match exec.start() {
        Ok(job) => Ok(job),
        Err(e) => Err(format!("{}", e)),
    }
}

/// Relies on `subprocess::Job::capture`: it feeds no input, drains the
/// child's piped output streams (non-piped streams yield empty bytes), waits
/// for the process, and reports its exit status; `ExitStatus::code` is the
/// exit code exactly when the process exited normally, and
/// `ExitStatus::signal` the signal exactly when one killed it. An I/O
/// failure is reported as the `Display` text of the underlying OS error.
#[verifier::external_body]
fn job_capture(job: subprocess::Job) -> (r: Result<(RawExit, Vec<u8>, Vec<u8>), String>) {
    match job.capture() {
        Ok(c) => {
            let raw = RawExit { code: c.exit_status.code(), signal: c.exit_status.signal() };
            Ok((raw, c.stdout, c.stderr))
        },
        Err(e) => Err(format!("{}", e)),
    }
}

/// Relies on `subprocess::Job::wait`: it waits for the process to finish
/// and reports its exit status (as in [`job_capture`]); the `subprocess`
/// crate documents that a repeated wait returns the cached status without
/// blocking. A wait failure is reported as the `Display` text of the
/// underlying OS error.
#[verifier::external_body]
fn job_wait(job: &subprocess::Job) -> (r: Result<RawExit, String>) {
    match job.wait() {
        Ok(s) => Ok(RawExit { code: s.code(), signal: s.signal() }),
        Err(e) => Err(format!("{}", e)),
    }
}

/// Relies on `subprocess::Pipeline::capture` (built with `Exec | Exec`): it
/// runs both commands with the standard output of the first connected to the
/// standard input of the second, captures the second's piped standard output
/// together with the standard error shared by both commands, waits for both,
/// and reports the second's exit status (as in [`job_capture`]). The first
/// command's stdin is piped and closed without data.
#[verifier::external_body]
fn pipeline_capture(
    a_name: &String,
    a_args: &Vec<String>,
    b_name: &String,
    b_args: &Vec<String>,
) -> (r: Result<(RawExit, Vec<u8>, Vec<u8>), String>) {
    let first = subprocess::Exec::cmd(a_name.as_str()).args(a_args.as_slice());
    let second = subprocess::Exec::cmd(b_name.as_str()).args(b_args.as_slice());
    match (first | second).stdin(subprocess::Redirection::Pipe).capture() {
        Ok(c) => {
            let raw = RawExit { code: c.exit_status.code(), signal: c.exit_status.signal() };
            Ok((raw, c.stdout, c.stderr))
        },
        Err(e) => Err(format!("{}", e)),
    }
}

/// An exit code as a signed 32-bit value (codes above `i32::MAX`, which the
/// OS does not produce for normally exited processes, saturate).
pub open spec fn spec_code_i32(c: u32) -> i32 {
    if c <= 0x7fff_ffff {
        c as i32
    } else {
        0x7fff_ffff
    }
}

/// The interpretation of a raw OS exit report: success is exit code zero,
/// the code is kept when the process exited normally, and the signal when
/// one killed it.
pub open spec fn spec_exit_info(r: RawExit) -> ExitInfo {
    ExitInfo {
        success: r.code == Some(0u32),
        code: match r.code {
            Some(c) => Some(spec_code_i32(c)),
            None => None,
        },
        signal: r.signal,
    }
}

/// Interprets a raw OS exit report.
pub fn exit_info(r: &RawExit) -> (e: ExitInfo)
    ensures
        e == spec_exit_info(*r),
{
    let success: bool = match r.code {
        Some(c) => c == 0,
        None => false,
    };
    let code: Option<i32> = match r.code {
        Some(c) => if c <= 0x7fff_ffff {
            Some(c as i32)
        } else {
            Some(0x7fff_ffff)
        },
        None => None,
    };
    ExitInfo { success, code, signal: r.signal }
}

/// Runs a command to completion with the given stream modes, capturing the
/// piped streams. Whatever the OS reports, a returned status counts as
/// success exactly when the process exited normally with code zero.
pub fn run_with_modes(
    name: &String,
    args: &Vec<String>,
    si: ChannelMode,
    so: ChannelMode,
    se: ChannelMode,
) -> (r: Result<CmdOutput, String>)
    ensures
        r matches Ok(o) ==> (o.status.success <==> o.status.code == Some(0i32)),
{
    let job = match start_job(name, args, &si, &so, &se) {
        Ok(job) => job,
        Err(m) => {
            return Err(m);
        },
    };
    match job_capture(job) {
        Ok((raw, out, err)) => Ok(CmdOutput { status: exit_info(&raw), stdout: out, stderr: err }),
        Err(m) => Err(m),
    }
}

/// Spawns a command with the given stream modes and returns a handle to the
/// in-flight process, or the OS error text if it could not be spawned.
pub fn spawn_with_modes(
    name: &String,
    args: &Vec<String>,
    si: ChannelMode,
    so: ChannelMode,
    se: ChannelMode,
) -> (r: Result<Runned, String>)
    ensures
        r matches Ok(h) ==> h.done is None,
{
    match start_job(name, args, &si, &so, &se) {
        Ok(job) => Ok(Runned { job, done: None }),
        Err(m) => Err(m),
    }
}

/// A command specification bound to stream configurations: the executor.
///
/// A fresh `Runner` has all three streams piped; the setters change one
/// stream each before the run.
#[derive(Debug, PartialEq, Eq)]
pub struct Runner {
    /// The program to run.
    pub name: String,
    /// The arguments, passed verbatim.
    pub args: Vec<String>,
    /// How the child's standard input is set up.
    pub stdin_mode: ChannelMode,
    /// How the child's standard output is set up.
    pub stdout_mode: ChannelMode,
    /// How the child's standard error is set up.
    pub stderr_mode: ChannelMode,
}

impl Runner {
    /// A new executor for `name` with arguments `args`, all three streams
    /// piped.
    pub fn new(name: String, args: Vec<String>) -> (r: Runner)
        ensures
            r.name == name,
            r.args == args,
            r.stdin_mode == ChannelMode::Piped,
            r.stdout_mode == ChannelMode::Piped,
            r.stderr_mode == ChannelMode::Piped,
    {
        Runner {
            name,
            args,
            stdin_mode: ChannelMode::Piped,
            stdout_mode: ChannelMode::Piped,
            stderr_mode: ChannelMode::Piped,
        }
    }

    /// Reconfigures the child's standard input.
    pub fn set_stdin(&mut self, mode: ChannelMode)
        ensures
            *final(self) == (Runner { stdin_mode: mode, ..*old(self) }),
    {
        self.stdin_mode = mode;
    }

    /// Reconfigures the child's standard output.
    pub fn set_stdout(&mut self, mode: ChannelMode)
        ensures
            *final(self) == (Runner { stdout_mode: mode, ..*old(self) }),
    {
        self.stdout_mode = mode;
    }

    /// Reconfigures the child's standard error.
    pub fn set_stderr(&mut self, mode: ChannelMode)
        ensures
            *final(self) == (Runner { stderr_mode: mode, ..*old(self) }),
    {
        self.stderr_mode = mode;
    }

    /// Runs the command and blocks until it exits, capturing the piped
    /// streams. Fails with the OS error text if the process could not be
    /// spawned or awaited; a returned status counts as success exactly when
    /// the process exited normally with code zero.
    pub fn run(&self) -> (r: Result<CmdOutput, String>)
        ensures
            r matches Ok(o) ==> (o.status.success <==> o.status.code == Some(0i32)),
    {
        run_with_modes(&self.name, &self.args, self.stdin_mode, self.stdout_mode, self.stderr_mode)
    }

    /// Spawns the command and returns immediately with a handle to the
    /// in-flight process.
    ///
    /// A spawn failure is reported as a recoverable error, never by ending
    /// the calling process: the asynchronous path owes its caller the same
    /// chance of recovery as the blocking path.
    pub fn run_async(&self) -> (r: Result<Runned, String>)
        ensures
            r matches Ok(h) ==> h.done is None,
    {
        spawn_with_modes(
            &self.name,
            &self.args,
            self.stdin_mode,
            self.stdout_mode,
            self.stderr_mode,
        )
    }
}

/// A handle to one in-flight process, exclusively owned.
pub struct Runned {
    /// The underlying job handle.
    pub job: subprocess::Job,
    /// The cached terminal status, once a wait has succeeded.
    pub done: Option<ExitInfo>,
}

impl Runned {
    /// Waits for the process to exit and reports how it finished; a status
    /// obtained from the OS counts as success exactly when the process
    /// exited normally with code zero.
    ///
    /// Waiting is idempotent: once a wait has succeeded, later calls return
    /// the same terminal status without consulting the OS again.
    pub fn wait(&mut self) -> (r: Result<ExitInfo, String>)
        ensures
            old(self).done matches Some(e) ==> r == Ok::<ExitInfo, String>(e) && final(self).done
                == old(self).done,
            r matches Ok(e) ==> final(self).done == Some(e),
            r is Err ==> final(self).done == old(self).done,
            r matches Ok(e) ==> (old(self).done is None ==> (e.success <==> e.code == Some(
                0i32,
            ))),
    {
        if let Some(e) = self.done {
            return Ok(e);
        }
        match job_wait(&self.job) {
            Ok(raw) => {
                let e = exit_info(&raw);
                self.done = Some(e);
                Ok(e)
            },
            Err(m) => Err(m),
        }
    }
}

/// Runs `first` and `second` with the standard output of `first` piped into
/// the standard input of `second`, capturing the pipeline's output. A
/// returned status is `second`'s, and counts as success exactly when that
/// process exited normally with code zero.
pub fn run_piped(
    first_name: &String,
    first_args: &Vec<String>,
    second_name: &String,
    second_args: &Vec<String>,
) -> (r: Result<CmdOutput, String>)
    ensures
        r matches Ok(o) ==> (o.status.success <==> o.status.code == Some(0i32)),
{
    match pipeline_capture(first_name, first_args, second_name, second_args) {
        Ok((raw, out, err)) => Ok(CmdOutput { status: exit_info(&raw), stdout: out, stderr: err }),
        Err(m) => Err(m),
    }
}

} // verus!
