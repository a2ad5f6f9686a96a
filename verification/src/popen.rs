//! The process handle: spawn, life cycle, signals and communication.

use vstd::prelude::*;

use crate::environ::merged_env;
use crate::error::PopenError;
use crate::error::PopenResult;
use crate::numeric::format_decimal;
use crate::numeric::parse_decimal;
use crate::os;
use crate::pipes::EINTR_CODE;
use crate::pipes::Endpoint;
use crate::pipes::make_pipe;
use crate::pipes::read_to_end;
use crate::pipes::set_inheritable;
use crate::pipes::write_all;
use crate::plumbing::ChildStreams;
use crate::plumbing::Redirection;
use crate::plumbing::close_opt;
use crate::plumbing::make_child_streams;
use crate::plumbing::opt_inheritable;
use crate::status::ExitStatus;
use crate::status::outcome_status;

verus! {

/// Platform-specific companion data of a handle.  The POSIX build
/// needs none: the pid alone identifies the child.
#[derive(Clone, Copy, Debug, Default, PartialEq, Eq, Structural)]
pub struct ExtPopenData {}

/// How to launch a child: one redirection per standard stream and an
/// optional set of environment overrides (`None` inherits the
/// parent's environment unchanged).
pub struct PopenConfig {
    pub _use_default_to_construct: (),
    pub stdin: Redirection,
    pub stdout: Redirection,
    pub stderr: Redirection,
    pub env: Option<Vec<(String, String)>>,
}

impl Default for PopenConfig {
    /// Inherit all three streams and the environment.
    fn default() -> (r: PopenConfig)
        ensures
            r.stdin is Inherit,
            r.stdout is Inherit,
            r.stderr is Inherit,
            r.env is None,
    {
        PopenConfig {
            _use_default_to_construct: (),
            stdin: Redirection::Inherit,
            stdout: Redirection::Inherit,
            stderr: Redirection::Inherit,
            env: None,
        }
    }
}

/// An owned handle on one child process.
///
/// At most one of `_pid` and `exit_status` is live: observing the
/// terminal status clears the pid, and a handle with neither is
/// detached.  The three stream fields hold the parent-side pipe ends,
/// present exactly for the streams that were piped, until the caller
/// takes them out or a `communicate` call consumes them.
pub struct Popen {
    pub _pid: Option<i32>,
    pub exit_status: Option<ExitStatus>,
    pub stdin: Option<Endpoint>,
    pub stdout: Option<Endpoint>,
    pub stderr: Option<Endpoint>,
    pub ext_data: ExtPopenData,
}

impl Popen {
    /// Well-formedness: a recorded pid is positive, and a handle with
    /// a terminal status no longer holds a pid.
    pub open spec fn wf(&self) -> bool {
        &&& (self._pid matches Some(p) ==> p > 0)
        &&& (self.exit_status is Some ==> self._pid is None)
    }

    /// The stream fields and companion data are untouched.
    pub open spec fn streams_unchanged(&self, other: &Popen) -> bool {
        &&& self.stdin == other.stdin
        &&& self.stdout == other.stdout
        &&& self.stderr == other.stderr
        &&& self.ext_data == other.ext_data
    }
}

/// Append a NUL byte to the bytes of each argument, as exec wants
/// its C strings.
fn zterm_args(argv: &Vec<String>) -> (r: Vec<Vec<u8>>)
    ensures
        r@.len() == argv@.len(),
        forall|i: int|
            0 <= i < argv@.len() ==> (#[trigger] r@[i])@ == vstd::utf8::encode_utf8(argv@[i]@).push(0u8),
{
    let mut out: Vec<Vec<u8>> = Vec::new();
    let n: usize = argv.len();
    let mut i: usize = 0;
    while i < n
        invariant
            0 <= i <= n,
            n == argv@.len(),
            out@.len() == i,
            forall|k: int|
                0 <= k < i ==> (#[trigger] out@[k])@ == vstd::utf8::encode_utf8(argv@[k]@).push(0u8),
        decreases n - i,
    {
        let mut b: Vec<u8> = crate::environ::bytes_of_str(argv[i].as_str());
        b.push(0);
        out.push(b);
        i = i + 1;
    }
    out
}

/// Append a NUL byte to each environment entry.
fn zterm_entries(entries: Vec<Vec<u8>>) -> (r: Vec<Vec<u8>>)
    ensures
        r@.len() == entries@.len(),
{
    let mut out: Vec<Vec<u8>> = Vec::new();
    let n: usize = entries.len();
    let mut i: usize = 0;
    while i < n
        invariant
            0 <= i <= n,
            n == entries@.len(),
            out@.len() == i,
        decreases n - i,
    {
        let mut b: Vec<u8> = vstd::slice::slice_to_vec(entries[i].as_slice());
        b.push(0);
        out.push(b);
        i = i + 1;
    }
    out
}

/// Install the child-side endpoints as descriptors 0, 1 and 2 and
/// replace the image.  Runs in the child between fork and exec, so it
/// performs only async-signal-safe system calls.  Reaching the return
/// at all means a step failed; the result is then that step's OS
/// error code, always a real, positive errno, so the decimal relayed
/// over the error pipe denotes a genuine error.
fn install_and_exec(
    argvz: &Vec<Vec<u8>>,
    envz: &Option<Vec<Vec<u8>>>,
    child_stdin: Option<Endpoint>,
    child_stdout: Option<Endpoint>,
    child_stderr: Option<Endpoint>,
) -> (r: i32)
    ensures
        r > 0,
{
    match child_stdin {
        Some(e) => match os::sys_dup2(e.fd, 0) {
            Ok(()) => (),
            Err(code) => {
                return code;
            },
        },
        None => (),
    }
    match child_stdout {
        Some(e) => match os::sys_dup2(e.fd, 1) {
            Ok(()) => (),
            Err(code) => {
                return code;
            },
        },
        None => (),
    }
    match child_stderr {
        Some(e) => match os::sys_dup2(e.fd, 2) {
            Ok(()) => (),
            Err(code) => {
                return code;
            },
        },
        None => (),
    }
    match envz {
        Some(env) => os::sys_execvpe(argvz, env),
        None => os::sys_execvp(argvz),
    }
}

/// End the child after a failed exec.  The terminal signal cannot be
/// refused for the calling process itself, so the loop is never
/// observed to finish.
fn child_abort() {
    let mut fuel: u64 = u64::MAX;
    while fuel > 0
        decreases fuel,
    {
        fuel = fuel - 1;
        let _ = os::sys_raise_kill();
    }
}

/// Reap one child, absorbing interruptions, so that no zombie stays
/// behind after a failed spawn.
fn reap_child(pid: i32)
    requires
        pid > 0,
    opens_invariants none
    no_unwind
{
    let mut fuel: u64 = u64::MAX;
    while fuel > 0
        invariant
            pid > 0,
        decreases fuel,
    {
        fuel = fuel - 1;
        match os::sys_waitpid(pid, false) {
            Ok(_) => {
                return ;
            },
            Err(code) => {
                if code != EINTR_CODE {
                    return ;
                }
            },
        }
    }
}

impl Popen {
    /// Launch `argv[0]` with arguments `argv` and the given stream and
    /// environment configuration.
    ///
    /// On success the child is running: the handle holds its pid and
    /// no terminal status, and owns a non-inheritable parent pipe end
    /// exactly for each stream configured as `Pipe`.  An empty argv
    /// and `Merge` for stdin are logic errors.  A program that cannot
    /// be executed is reported as a spawn error carrying the OS error
    /// code relayed over the close-on-exec error pipe, never as an
    /// apparently running child; on every failure all endpoints this
    /// call created are closed and the short-lived child, if any, is
    /// reaped.
    pub fn create(argv: &Vec<String>, config: PopenConfig) -> (r: PopenResult<Popen>)
        ensures
            r matches Ok(p) ==> {
                &&& p.wf()
                &&& p._pid is Some
                &&& p.exit_status is None
                &&& (p.stdin is Some <==> config.stdin is Pipe)
                &&& (p.stdout is Some <==> config.stdout is Pipe)
                &&& (p.stderr is Some <==> config.stderr is Pipe)
                &&& opt_inheritable(p.stdin, false)
                &&& opt_inheritable(p.stdout, false)
                &&& opt_inheritable(p.stderr, false)
            },
            argv@.len() == 0 ==> r matches Err(PopenError::LogicError(_)),
            config.stdin is Merge ==> r matches Err(PopenError::LogicError(_)),
            r matches Err(PopenError::LogicError(_)) ==> (argv@.len() == 0
                || config.stdin is Merge),
    {
        let mut inst = Popen {
            _pid: None,
            exit_status: None,
            stdin: None,
            stdout: None,
            stderr: None,
            ext_data: ExtPopenData {  },
        };
        let PopenConfig { _use_default_to_construct: _, stdin, stdout, stderr, env } = config;
        match inst.start(argv, stdin, stdout, stderr, env) {
            Ok(()) => Ok(inst),
            Err(e) => Err(e),
        }
    }

    /// Forget the child: the pid is cleared and no later call of this
    /// handle will wait for or signal the process.
    pub fn detach(&mut self)
        ensures
            final(self)._pid is None,
            final(self).exit_status == old(self).exit_status,
            final(self).streams_unchanged(old(self)),
    {
        self._pid = None;
    }

    /// The child's pid, while the handle still tracks the child.
    pub fn pid(&self) -> (r: Option<u32>)
        requires
            self.wf(),
        ensures
            r is Some <==> self._pid is Some,
            self._pid matches Some(p) ==> r == Some(p as u32),
    {
        match self._pid {
            Some(p) => Some(p as u32),
            None => None,
        }
    }

    /// The terminal status, once one has been observed.
    pub fn exit_status(&self) -> (r: Option<ExitStatus>)
        ensures
            r == self.exit_status,
    {
        self.exit_status
    }

    /// The spawn protocol: plumb the streams, create a close-on-exec
    /// error pipe, fork, and in the child install the endpoints and
    /// exec.  The parent learns from the error pipe whether exec
    /// succeeded: end of file means success, a decimal error code
    /// means failure, which is surfaced as a spawn error after the
    /// child is reaped.
    fn start(
        &mut self,
        argv: &Vec<String>,
        stdin: Redirection,
        stdout: Redirection,
        stderr: Redirection,
        env: Option<Vec<(String, String)>>,
    ) -> (r: PopenResult<()>)
        requires
            old(self)._pid is None,
            old(self).exit_status is None,
            old(self).stdin is None,
            old(self).stdout is None,
            old(self).stderr is None,
        ensures
            r is Ok ==> {
                &&& final(self).wf()
                &&& final(self)._pid is Some
                &&& final(self).exit_status is None
                &&& (final(self).stdin is Some <==> stdin is Pipe)
                &&& (final(self).stdout is Some <==> stdout is Pipe)
                &&& (final(self).stderr is Some <==> stderr is Pipe)
                &&& opt_inheritable(final(self).stdin, false)
                &&& opt_inheritable(final(self).stdout, false)
                &&& opt_inheritable(final(self).stderr, false)
            },
            argv@.len() == 0 ==> r matches Err(PopenError::LogicError(_)),
            stdin is Merge ==> r matches Err(PopenError::LogicError(_)),
            r matches Err(PopenError::LogicError(_)) ==> (argv@.len() == 0 || stdin is Merge),
    {
        if argv.len() == 0 {
            crate::plumbing::close_redirection(stdin);
            crate::plumbing::close_redirection(stdout);
            crate::plumbing::close_redirection(stderr);
            return Err(PopenError::LogicError("argv must not be empty"));
        }
        let argvz: Vec<Vec<u8>> = zterm_args(argv);
        let envz: Option<Vec<Vec<u8>>> = match &env {
            Some(vars) => Some(zterm_entries(merged_env(vars))),
            None => None,
        };
        let streams = match make_child_streams(stdin, stdout, stderr) {
            Ok(s) => s,
            Err(e) => {
                return Err(e);
            },
        };
        let ChildStreams {
            child_stdin,
            child_stdout,
            child_stderr,
            parent_stdin,
            parent_stdout,
            parent_stderr,
        } = streams;

        // The error pipe: both ends close on exec, so a successful
        // exec is seen by the parent as end of file.
        let pipe_result = make_pipe();
        let (mut err_read, mut err_write) = match pipe_result {
            Ok(p) => p,
            Err(e) => {
                close_opt(child_stdin);
                close_opt(child_stdout);
                close_opt(child_stderr);
                close_opt(parent_stdin);
                close_opt(parent_stdout);
                close_opt(parent_stderr);
                return Err(e);
            },
        };
        let demote_read = set_inheritable(&mut err_read, false);
        let demote_write = match demote_read {
            Ok(()) => set_inheritable(&mut err_write, false),
            Err(e) => Err(e),
        };
        match demote_write {
            Ok(()) => (),
            Err(e) => {
                let _ = err_read.close();
                let _ = err_write.close();
                close_opt(child_stdin);
                close_opt(child_stdout);
                close_opt(child_stderr);
                close_opt(parent_stdin);
                close_opt(parent_stdout);
                close_opt(parent_stderr);
                return Err(e);
            },
        }

        match os::sys_fork() {
            Err(code) => {
                let _ = err_read.close();
                let _ = err_write.close();
                close_opt(child_stdin);
                close_opt(child_stdout);
                close_opt(child_stderr);
                close_opt(parent_stdin);
                close_opt(parent_stdout);
                close_opt(parent_stderr);
                Err(PopenError::IoError(code))
            },
            Ok(pid) => {
                if pid == 0 {
                    // The child: only async-signal-safe work until
                    // exec.  Reaching past the exec means it failed;
                    // relay the error code and die.
                    let _ = err_read.close();
                    let errno: i32 = install_and_exec(
                        &argvz,
                        &envz,
                        child_stdin,
                        child_stdout,
                        child_stderr,
                    );
                    let msg: Vec<u8> = format_decimal(errno);
                    let _ = write_all(err_write, msg.as_slice());
                    child_abort();
                    Err(PopenError::SpawnError(errno))
                } else {
                    // The parent.  The child-side endpoints were
                    // consumed by the child; the parent's copies are
                    // closed now that the child owns its own.
                    close_opt(child_stdin);
                    close_opt(child_stdout);
                    close_opt(child_stderr);
                    let _ = err_write.close();
                    match read_to_end(err_read) {
                        Ok(report) => {
                            if report.len() == 0 {
                                // Exec succeeded.
                                self._pid = Some(pid);
                                self.stdin = parent_stdin;
                                self.stdout = parent_stdout;
                                self.stderr = parent_stderr;
                                Ok(())
                            } else {
                                let code: i32 = match parse_decimal(&report) {
                                    Some(c) => c,
                                    None => -1,
                                };
                                reap_child(pid);
                                close_opt(parent_stdin);
                                close_opt(parent_stdout);
                                close_opt(parent_stderr);
                                Err(PopenError::SpawnError(code))
                            }
                        },
                        Err(e) => {
                            reap_child(pid);
                            close_opt(parent_stdin);
                            close_opt(parent_stdout);
                            close_opt(parent_stderr);
                            Err(e)
                        },
                    }
                }
            },
        }
    }

    /// Ask the OS once about the child and record a terminal status
    /// if there is one.  With a recorded status, or no pid, nothing
    /// happens.
    fn waitpid_once(&mut self, nohang: bool) -> (r: PopenResult<()>)
        requires
            old(self).wf(),
        ensures
            final(self).wf(),
            final(self).streams_unchanged(old(self)),
            old(self).exit_status is Some ==> *final(self) == *old(self) && r is Ok,
            old(self)._pid is None ==> *final(self) == *old(self) && r is Ok,
            r is Ok ==> (*final(self) == *old(self) || (final(self).exit_status is Some
                && final(self)._pid is None)),
            r is Err ==> *final(self) == *old(self) && r matches Err(PopenError::IoError(_)),
            !nohang && r is Ok && old(self)._pid is Some ==> final(self).exit_status is Some,
    {
        match self._pid {
            None => Ok(()),
            Some(pid) => {
                match os::sys_waitpid(pid, nohang) {
                    Ok(outcome) => {
                        match outcome_status(&outcome) {
                            Some(st) => {
                                self._pid = None;
                                self.exit_status = Some(st);
                            },
                            None => (),
                        }
                        Ok(())
                    },
                    Err(code) => Err(PopenError::IoError(code)),
                }
            },
        }
    }

    /// Block until the child has ended and return its terminal
    /// status.  Repeated calls return the recorded status unchanged
    /// and without any further effect; a detached handle yields
    /// `Undetermined`.  Interrupted waits are re-entered.
    pub fn wait(&mut self) -> (r: PopenResult<ExitStatus>)
        requires
            old(self).wf(),
        ensures
            final(self).wf(),
            final(self).streams_unchanged(old(self)),
            r matches Ok(st) ==> final(self).exit_status == Some(st) && final(self)._pid is None,
            old(self).exit_status matches Some(st) ==> r == Ok::<ExitStatus, PopenError>(st)
                && *final(self) == *old(self),
            old(self).exit_status is None && old(self)._pid is None ==> r == Ok::<
                ExitStatus,
                PopenError,
            >(ExitStatus::Undetermined),
            r is Err ==> *final(self) == *old(self) && r matches Err(PopenError::IoError(_)),
    {
        match self.exit_status {
            Some(st) => {
                return Ok(st);
            },
            None => (),
        }
        match self._pid {
            None => {
                self.exit_status = Some(ExitStatus::Undetermined);
                return Ok(ExitStatus::Undetermined);
            },
            Some(_) => (),
        }
        let mut fuel: u64 = u64::MAX;
        while fuel > 0
            invariant
                self.wf(),
                *self == *old(self),
                self.exit_status is None,
                self._pid is Some,
            decreases fuel,
        {
            fuel = fuel - 1;
            match self.waitpid_once(false) {
                Ok(()) => {
                    match self.exit_status {
                        Some(st) => {
                            return Ok(st);
                        },
                        None => (),
                    }
                },
                Err(PopenError::IoError(code)) => {
                    if code != EINTR_CODE {
                        return Err(PopenError::IoError(code));
                    }
                },
                Err(_) => (),
            }
        }
        Err(PopenError::IoError(0))
    }

    /// Ask without blocking whether the child has ended; a terminal
    /// status, once returned, is recorded and repeated without error
    /// or side effect.
    pub fn poll(&mut self) -> (r: Option<ExitStatus>)
        requires
            old(self).wf(),
        ensures
            final(self).wf(),
            final(self).streams_unchanged(old(self)),
            r == final(self).exit_status,
            old(self).exit_status is Some ==> r == old(self).exit_status && *final(self)
                == *old(self),
            r is Some ==> final(self)._pid is None,
    {
        match self.exit_status {
            Some(st) => {
                return Some(st);
            },
            None => (),
        }
        match self.waitpid_once(true) {
            Ok(()) => self.exit_status,
            Err(_) => None,
        }
    }

    /// Deliver a signal to the child.  Without a live pid (already
    /// reaped or detached) this does nothing and succeeds.
    fn send_signal(&self, signal: i32) -> (r: PopenResult<()>)
        requires
            self.wf(),
        ensures
            self._pid is None ==> r is Ok,
            r is Err ==> r matches Err(PopenError::IoError(_)),
    {
        match self._pid {
            None => Ok(()),
            Some(pid) => {
                match os::sys_kill(pid, signal) {
                    Ok(()) => Ok(()),
                    Err(code) => Err(PopenError::IoError(code)),
                }
            },
        }
    }

    /// Ask the child to terminate (SIGTERM).  A no-op once the child
    /// was reaped or detached.
    pub fn terminate(&mut self) -> (r: PopenResult<()>)
        requires
            old(self).wf(),
        ensures
            *final(self) == *old(self),
            old(self)._pid is None ==> r is Ok,
            r is Err ==> r matches Err(PopenError::IoError(_)),
    {
        self.send_signal(15)
    }

    /// Kill the child outright (SIGKILL).  A no-op once the child was
    /// reaped or detached.
    pub fn kill(&mut self) -> (r: PopenResult<()>)
        requires
            old(self).wf(),
        ensures
            *final(self) == *old(self),
            old(self)._pid is None ==> r is Ok,
            r is Err ==> r matches Err(PopenError::IoError(_)),
    {
        self.send_signal(9)
    }
}

impl Drop for Popen {
    /// Scope exit implicitly waits: a handle whose child was neither
    /// reaped nor detached blocks until the child ends and consumes
    /// its record, so no zombie outlives the handle.  Errors are
    /// swallowed; destruction never panics.
    fn drop(&mut self)
        opens_invariants none
        no_unwind
    {
        match self.exit_status {
            Some(_) => (),
            None => match self._pid {
                Some(pid) => {
                    if pid > 0 {
                        reap_child(pid);
                    }
                },
                None => (),
            },
        }
    }
}

/// The milliseconds of the monotonic clock, saturated to `u64`.
fn now_ms() -> (r: u64) {
    let (sec, nsec) = os::sys_clock();
    let ms: u128 = (sec as u128) * 1000 + (nsec as u128) / 1_000_000;
    if ms > u64::MAX as u128 {
        u64::MAX
    } else {
        ms as u64
    }
}

/// The back-off step of the timed wait: the delay doubles each round
/// and is capped by the remaining budget and by 100 milliseconds.
pub open spec fn next_delay_spec(delay_us: int, remaining_ms: int) -> int {
    let cap = if remaining_ms < 100 {
        remaining_ms * 1000
    } else {
        100_000
    };
    if 2 * delay_us < cap {
        2 * delay_us
    } else {
        cap
    }
}

/// Compute the next back-off delay in microseconds.
fn next_delay_us(delay_us: u64, remaining_ms: u64) -> (r: u64)
    requires
        delay_us <= 100_000,
    ensures
        r as int == next_delay_spec(delay_us as int, remaining_ms as int),
        r <= 100_000,
{
    let cap: u64 = if remaining_ms < 100 {
        remaining_ms * 1000
    } else {
        100_000
    };
    let doubled: u64 = 2 * delay_us;
    if doubled < cap {
        doubled
    } else {
        cap
    }
}

impl Popen {
    /// Wait for the child to end, but give up after roughly `dur`.
    /// Returns the terminal status if the child ended within the
    /// budget and nothing on timeout; a zero budget degenerates to a
    /// poll.  The deadline is fixed on entry and the wait polls with
    /// exponential back-off from half a millisecond, capped at 100
    /// milliseconds and at the remaining budget.
    pub fn wait_timeout(&mut self, dur: core::time::Duration) -> (r: PopenResult<
        Option<ExitStatus>,
    >)
        requires
            old(self).wf(),
        ensures
            final(self).wf(),
            final(self).streams_unchanged(old(self)),
            old(self).exit_status matches Some(st) ==> r == Ok::<_, PopenError>(Some(st))
                && *final(self) == *old(self),
            r matches Ok(Some(st)) ==> final(self).exit_status == Some(st)
                && final(self)._pid is None,
            r matches Ok(None) ==> final(self).exit_status is None,
            r is Err ==> r matches Err(PopenError::IoError(_)),
    {
        match self.exit_status {
            Some(st) => {
                return Ok(Some(st));
            },
            None => (),
        }
        let total: u128 = os::duration_millis(&dur);
        let budget_ms: u64 = if total > 0xffff_ffff_ffff_ffff { u64::MAX } else { total as u64 };
        let start: u64 = now_ms();
        let deadline: u128 = (start as u128) + (budget_ms as u128);
        let mut delay_us: u64 = 500;
        let mut fuel: u64 = u64::MAX;
        while fuel > 0
            invariant
                self.wf(),
                self.streams_unchanged(old(self)),
                self.exit_status is None,
                old(self).exit_status is None,
                delay_us <= 100_000,
            decreases fuel,
        {
            fuel = fuel - 1;
            match self.waitpid_once(true) {
                Ok(()) => (),
                Err(PopenError::IoError(code)) => {
                    if code != EINTR_CODE {
                        return Err(PopenError::IoError(code));
                    }
                },
                Err(_) => (),
            }
            match self.exit_status {
                Some(st) => {
                    return Ok(Some(st));
                },
                None => (),
            }
            let now: u64 = now_ms();
            if (now as u128) >= deadline {
                return Ok(None);
            }
            let remaining: u128 = deadline - (now as u128);
            let remaining_ms: u64 = if remaining > 0xffff_ffff_ffff_ffff {
                u64::MAX
            } else {
                remaining as u64
            };
            delay_us = next_delay_us(delay_us, remaining_ms);
            os::sys_sleep_ms((delay_us / 1000) as i32);
        }
        Err(PopenError::IoError(0))
    }

    /// Move bytes through the piped streams without deadlock: feed
    /// `input_data` to the child's stdin while draining its stdout
    /// and stderr to end of file, concurrently where more than one
    /// stream is piped.  Input must be given exactly when stdin is
    /// piped.  Captured bytes come back for exactly the streams that
    /// were piped, and all piped endpoints are consumed and closed.
    pub fn communicate_bytes(&mut self, input_data: Option<&[u8]>) -> (r: PopenResult<
        (Option<Vec<u8>>, Option<Vec<u8>>),
    >)
        requires
            old(self).stdin is Some <==> input_data is Some,
        ensures
            final(self)._pid == old(self)._pid,
            final(self).exit_status == old(self).exit_status,
            final(self).ext_data == old(self).ext_data,
            final(self).stdin is None,
            final(self).stdout is None,
            final(self).stderr is None,
            r matches Ok(p) ==> {
                &&& (p.0 is Some <==> old(self).stdout is Some)
                &&& (p.1 is Some <==> old(self).stderr is Some)
            },
            old(self).stdin is None && old(self).stdout is None && old(self).stderr is None
                ==> (r matches Ok(p) && p.0 is None && p.1 is None),
            r matches Err(e) ==> e is IoError || e is LogicError,
    {
        let stdin = self.stdin.take();
        let stdout = self.stdout.take();
        let stderr = self.stderr.take();
        communicate_streams(stdin, input_data, stdout, stderr)
    }

    /// The text form of `communicate_bytes`: the same transfers, with
    /// each captured stream decoded as UTF-8.  A stream that is not
    /// valid UTF-8 fails the call with its raw bytes.
    pub fn communicate(&mut self, input_data: Option<&str>) -> (r: PopenResult<
        (Option<String>, Option<String>),
    >)
        requires
            old(self).stdin is Some <==> input_data is Some,
        ensures
            final(self)._pid == old(self)._pid,
            final(self).exit_status == old(self).exit_status,
            final(self).ext_data == old(self).ext_data,
            final(self).stdin is None,
            final(self).stdout is None,
            final(self).stderr is None,
            r matches Ok(p) ==> {
                &&& (p.0 is Some <==> old(self).stdout is Some)
                &&& (p.1 is Some <==> old(self).stderr is Some)
            },
            old(self).stdin is None && old(self).stdout is None && old(self).stderr is None
                ==> (r matches Ok(p) && p.0 is None && p.1 is None),
            r matches Err(PopenError::UtfError(b)) ==> !vstd::utf8::valid_utf8(b@),
    {
        let input_bytes: Option<&[u8]> = match input_data {
            Some(s) => Some(s.as_bytes()),
            None => None,
        };
        let (out, err) = match self.communicate_bytes(input_bytes) {
            Ok(p) => p,
            Err(e) => {
                return Err(e);
            },
        };
        let out_str: Option<String> = match out {
            Some(bytes) => match os::decode_utf8(bytes) {
                Ok(s) => Some(s),
                Err(raw) => {
                    return Err(PopenError::UtfError(raw));
                },
            },
            None => None,
        };
        let err_str: Option<String> = match err {
            Some(bytes) => match os::decode_utf8(bytes) {
                Ok(s) => Some(s),
                Err(raw) => {
                    return Err(PopenError::UtfError(raw));
                },
            },
            None => None,
        };
        Ok((out_str, err_str))
    }
}

/// Drive the transfers over a set of taken endpoints.  With at most
/// one piped stream the transfer runs on the calling thread; with
/// several, each runs on its own scoped worker so that no pipe buffer
/// can deadlock the call, and the call returns only when every worker
/// is done.
pub fn communicate_streams(
    stdin: Option<Endpoint>,
    input_data: Option<&[u8]>,
    stdout: Option<Endpoint>,
    stderr: Option<Endpoint>,
) -> (r: PopenResult<(Option<Vec<u8>>, Option<Vec<u8>>)>)
    requires
        stdin is Some ==> input_data is Some,
    ensures
        r matches Ok(p) ==> {
            &&& (p.0 is Some <==> stdout is Some)
            &&& (p.1 is Some <==> stderr is Some)
        },
        stdin is None && stdout is None && stderr is None ==> (r matches Ok(p) && p.0 is None
            && p.1 is None),
        r matches Err(e) ==> e is IoError || e is LogicError,
{
    let piped: usize = (if stdin.is_some() {
        1usize
    } else {
        0usize
    }) + (if stdout.is_some() {
        1usize
    } else {
        0usize
    }) + (if stderr.is_some() {
        1usize
    } else {
        0usize
    });
    if piped <= 1 {
        if let Some(e) = stdin {
            let data: &[u8] = match input_data {
                Some(d) => d,
                None => {
                    proof {
                        assert(false);
                    }
                    return Err(PopenError::LogicError("stdin input missing"));
                },
            };
            match write_all(e, data) {
                Ok(()) => Ok((None, None)),
                Err(err) => Err(err),
            }
        } else if let Some(e) = stdout {
            match read_to_end(e) {
                Ok(bytes) => Ok((Some(bytes), None)),
                Err(err) => Err(err),
            }
        } else if let Some(e) = stderr {
            match read_to_end(e) {
                Ok(bytes) => Ok((None, Some(bytes))),
                Err(err) => Err(err),
            }
        } else {
            Ok((None, None))
        }
    } else {
        let (write_result, out_result, err_result) = os::run_comm_threads(
            stdin,
            input_data,
            stdout,
            stderr,
        );
        match write_result {
            Ok(()) => (),
            Err(e) => {
                return Err(e);
            },
        }
        let out: Option<Vec<u8>> = match out_result {
            Some(Ok(bytes)) => Some(bytes),
            Some(Err(e)) => {
                return Err(e);
            },
            None => None,
        };
        let err: Option<Vec<u8>> = match err_result {
            Some(Ok(bytes)) => Some(bytes),
            Some(Err(e)) => {
                return Err(e);
            },
            None => None,
        };
        Ok((out, err))
    }
}

} // verus!
