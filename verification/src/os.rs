//! Trusted bindings to the operating system.
//!
//! Every function here is an `external_body` wrapper around one
//! primitive of an outside crate (or of std where vstd gives it no
//! specification).  Their contracts are the trust boundary of the
//! crate: everything above them is verified against what is stated
//! here, which in turn only restates what the callee's documentation
//! promises.  File descriptors cross this boundary as plain `i32`
//! values; error codes as the raw OS `errno`.

use vstd::prelude::*;

use crate::status::WaitOutcome;
use crate::status::outcome_wf;

verus! {

/// Relies on nix::unistd::pipe: creates an anonymous pipe and returns
/// `(read_end, write_end)`, two fresh non-negative descriptors.  Both
/// ends are inheritable, the POSIX default.
#[verifier::external_body]
pub(crate) fn sys_pipe() -> (r: Result<(i32, i32), i32>)
    ensures
        r matches Ok(p) ==> p.0 >= 0 && p.1 >= 0,
{
    match nix::unistd::pipe() {
        Ok((rd, wr)) => Ok((rd, wr)),
        Err(e) => Err(e as i32),
    }
}

/// Relies on nix::unistd::close: releases the descriptor.
#[verifier::external_body]
pub(crate) fn sys_close(fd: i32) -> (r: Result<(), i32>)
    ensures
        r matches Ok(u) ==> u == (),
{
    match nix::unistd::close(fd) {
        Ok(()) => Ok(()),
        Err(e) => Err(e as i32),
    }
}

/// Relies on nix::unistd::dup: returns a fresh non-negative descriptor
/// referring to the same open file description as `fd`.
#[verifier::external_body]
pub(crate) fn sys_dup(fd: i32) -> (r: Result<i32, i32>)
    ensures
        r matches Ok(nfd) ==> nfd >= 0,
{
    match nix::unistd::dup(fd) {
        Ok(nfd) => Ok(nfd),
        Err(e) => Err(e as i32),
    }
}

/// Relies on nix::unistd::dup2: makes `newfd` refer to the same open
/// file description as `oldfd`.  A failure carries the OS error code,
/// a positive errno value.
#[verifier::external_body]
pub(crate) fn sys_dup2(oldfd: i32, newfd: i32) -> (r: Result<(), i32>)
    ensures
        r matches Ok(u) ==> u == (),
        r matches Err(code) ==> code > 0,
{
    match nix::unistd::dup2(oldfd, newfd) {
        Ok(_) => Ok(()),
        Err(e) => Err(e as i32),
    }
}

/// Relies on nix::fcntl::fcntl with `F_SETFD`: sets or clears the
/// close-on-exec flag of `fd` (a cleared flag makes the descriptor
/// inheritable across exec).
#[verifier::external_body]
pub(crate) fn sys_set_cloexec(fd: i32, cloexec: bool) -> (r: Result<(), i32>)
    ensures
        r matches Ok(u) ==> u == (),
{
    let flag = if cloexec {
        nix::fcntl::FdFlag::FD_CLOEXEC
    } else {
        nix::fcntl::FdFlag::empty()
    };
    match nix::fcntl::fcntl(fd, nix::fcntl::FcntlArg::F_SETFD(flag)) {
        Ok(_) => Ok(()),
        Err(e) => Err(e as i32),
    }
}

/// Relies on nix::fcntl::open with `O_RDONLY`: opens the named file
/// for reading and returns its non-negative descriptor.
#[verifier::external_body]
pub(crate) fn sys_open_read(path: &str) -> (r: Result<i32, i32>)
    ensures
        r matches Ok(fd) ==> fd >= 0,
{
    match nix::fcntl::open(path, nix::fcntl::OFlag::O_RDONLY, nix::sys::stat::Mode::empty()) {
        Ok(fd) => Ok(fd),
        Err(e) => Err(e as i32),
    }
}

/// Relies on nix::fcntl::open with `O_WRONLY`: opens the named file
/// for writing and returns its non-negative descriptor.
#[verifier::external_body]
pub(crate) fn sys_open_write(path: &str) -> (r: Result<i32, i32>)
    ensures
        r matches Ok(fd) ==> fd >= 0,
{
    match nix::fcntl::open(path, nix::fcntl::OFlag::O_WRONLY, nix::sys::stat::Mode::empty()) {
        Ok(fd) => Ok(fd),
        Err(e) => Err(e as i32),
    }
}

/// Relies on String::push: appends one character.
#[verifier::external_body]
pub(crate) fn push_char(s: &mut String, c: char)
    ensures
        final(s)@ == old(s)@.push(c),
{
    s.push(c);
}

/// Relies on nix::unistd::read: reads at most 4096 bytes from `fd`;
/// an empty result is end of file.
#[verifier::external_body]
pub(crate) fn sys_read_chunk(fd: i32) -> (r: Result<Vec<u8>, i32>)
    ensures
        r matches Ok(v) ==> v@.len() <= 4096,
{
    let mut buf = vec![0u8; 4096];
    match nix::unistd::read(fd, &mut buf) {
        Ok(n) => {
            buf.truncate(n);
            Ok(buf)
        },
        Err(e) => Err(e as i32),
    }
}

/// Relies on nix::unistd::write: writes a prefix of `buf` to `fd` and
/// returns how many bytes were taken, never more than `buf`'s length.
#[verifier::external_body]
pub(crate) fn sys_write(fd: i32, buf: &[u8]) -> (r: Result<usize, i32>)
    ensures
        r matches Ok(n) ==> n <= buf@.len(),
{
    match nix::unistd::write(fd, buf) {
        Ok(n) => Ok(n),
        Err(e) => Err(e as i32),
    }
}

/// Relies on fork::fork: duplicates the calling process.  The call
/// returns 0 in the child and the child's positive pid in the parent;
/// to the caller it is one call with one non-negative result.
#[verifier::external_body]
pub(crate) fn sys_fork() -> (r: Result<i32, i32>)
    ensures
        r matches Ok(pid) ==> pid >= 0,
{
    match fork::fork() {
        Ok(fork::Fork::Parent(pid)) => Ok(pid),
        Ok(fork::Fork::Child) => Ok(0),
        Err(e) => Err(e.raw_os_error().unwrap_or(-1)),
    }
}

/// Relies on nix::unistd::execvp: replaces the process image with the
/// program named by the first argument, resolved on PATH.  Every
/// argument must be a NUL-terminated byte string; a malformed one is
/// rejected without calling exec.  Returns only on failure, with the
/// OS error code, a positive errno value.
#[verifier::external_body]
pub(crate) fn sys_execvp(argv: &Vec<Vec<u8>>) -> (r: i32)
    ensures
        r > 0,
{
    let mut aa: Vec<&core::ffi::CStr> = Vec::new();
    for x in argv.iter() {
        match core::ffi::CStr::from_bytes_with_nul(x) {
            Ok(c) => aa.push(c),
            Err(_) => return nix::errno::Errno::EINVAL as i32,
        }
    }
    if aa.is_empty() {
        return nix::errno::Errno::EINVAL as i32;
    }
    match nix::unistd::execvp(aa[0], &aa) { Err(e) => e as i32, Ok(v) => match v {} }
}

/// Relies on nix::unistd::execvpe: as `sys_execvp`, but the new image
/// receives exactly the given NUL-terminated `key=value` strings as
/// its environment.  Returns only on failure, with the OS error code,
/// a positive errno value.
#[verifier::external_body]
pub(crate) fn sys_execvpe(argv: &Vec<Vec<u8>>, env: &Vec<Vec<u8>>) -> (r: i32)
    ensures
        r > 0,
{
    let mut aa: Vec<&core::ffi::CStr> = Vec::new();
    let mut ee: Vec<&core::ffi::CStr> = Vec::new();
    for x in argv.iter() {
        match core::ffi::CStr::from_bytes_with_nul(x) { Ok(c) => aa.push(c), Err(_) => return nix::errno::Errno::EINVAL as i32 }
    }
    for x in env.iter() {
        match core::ffi::CStr::from_bytes_with_nul(x) { Ok(c) => ee.push(c), Err(_) => return nix::errno::Errno::EINVAL as i32 }
    }
    if aa.is_empty() { return nix::errno::Errno::EINVAL as i32 }
    match nix::unistd::execvpe(aa[0], &aa, &ee) { Err(e) => e as i32, Ok(v) => match v {} }
}

/// Relies on nix::sys::wait::waitpid on one specific child: reports
/// either that the child still runs (possible only with `nohang`) or
/// how it ended.  Exit codes are one byte; signal numbers are small
/// positive integers; a terminal report names the queried pid.
#[verifier::external_body]
pub(crate) fn sys_waitpid(pid: i32, nohang: bool) -> (r: Result<WaitOutcome, i32>)
    requires
        pid > 0,
    ensures
        r matches Ok(o) ==> outcome_wf(o),
        r matches Ok(o) ==> !nohang ==> !(o is StillRunning),
        r matches Ok(o) ==> (o matches WaitOutcome::Exited(p, _) ==> p == pid),
        r matches Ok(o) ==> (o matches WaitOutcome::Signaled(p, _) ==> p == pid),
    opens_invariants none
    no_unwind
{
    let flags = if nohang {
        Some(nix::sys::wait::WaitPidFlag::WNOHANG)
    } else {
        None
    };
    match nix::sys::wait::waitpid(nix::unistd::Pid::from_raw(pid), flags) {
        Ok(nix::sys::wait::WaitStatus::StillAlive) => Ok(WaitOutcome::StillRunning),
        Ok(nix::sys::wait::WaitStatus::Exited(p, code)) => Ok(WaitOutcome::Exited(p.as_raw(), code)),
        Ok(nix::sys::wait::WaitStatus::Signaled(p, sig, _)) => Ok(WaitOutcome::Signaled(p.as_raw(), sig as i32)),
        Ok(other) => Ok(WaitOutcome::Other(other.pid().map(|p| p.as_raw()).unwrap_or(0), 0)),
        Err(e) => Err(e as i32),
    }
}

/// Relies on nix::sys::signal::kill: delivers the signal with the
/// given number to the process with the given pid.
#[verifier::external_body]
pub(crate) fn sys_kill(pid: i32, signal: i32) -> (r: Result<(), i32>)
    ensures
        r matches Ok(u) ==> u == (),
{
    match nix::sys::signal::Signal::try_from(signal) {
        Ok(sig) => match nix::sys::signal::kill(nix::unistd::Pid::from_raw(pid), sig) {
            Ok(()) => Ok(()),
            Err(e) => Err(e as i32),
        },
        Err(e) => Err(e as i32),
    }
}

/// Relies on nix::sys::signal::raise with `SIGKILL`: ends the calling
/// process at once.  Returns only if the OS refused the signal.
#[verifier::external_body]
pub(crate) fn sys_raise_kill() -> (r: Result<(), i32>)
    ensures
        r matches Ok(u) ==> u == (),
{
    match nix::sys::signal::raise(nix::sys::signal::Signal::SIGKILL) {
        Ok(()) => Ok(()),
        Err(e) => Err(e as i32),
    }
}

/// Relies on nix::poll::poll with no descriptors: blocks the calling
/// thread for roughly `ms` milliseconds.
#[verifier::external_body]
pub(crate) fn sys_sleep_ms(ms: i32)
    requires
        ms >= 0,
{
    let mut fds: [nix::poll::PollFd; 0] = [];
    let _ = nix::poll::poll(&mut fds, ms);
}

/// Relies on nix::time::clock_gettime on the monotonic clock: returns
/// `(seconds, nanoseconds)` since an arbitrary fixed origin, with the
/// nanosecond part below one billion.
#[verifier::external_body]
pub(crate) fn sys_clock() -> (r: (i64, i64))
    ensures
        r.0 >= 0,
        0 <= r.1 < 1_000_000_000,
{
    match nix::time::clock_gettime(nix::time::ClockId::CLOCK_MONOTONIC) {
        Ok(ts) => (ts.tv_sec() as i64, ts.tv_nsec() as i64),
        Err(_) => (0, 0),
    }
}

/// The characters of the lossy decoding, which replaces every invalid
/// sequence with the replacement character.
pub uninterp spec fn utf8_lossy(b: Seq<u8>) -> Seq<char>;

/// Relies on String::from_utf8: decodes the bytes exactly when they
/// are a valid UTF-8 encoding, and otherwise hands them back
/// unchanged.
#[verifier::external_body]
pub(crate) fn decode_utf8(v: Vec<u8>) -> (r: Result<String, Vec<u8>>)
    ensures
        r matches Ok(s) ==> vstd::utf8::valid_utf8(v@) && s@ == vstd::utf8::decode_utf8(v@),
        r matches Err(b) ==> !vstd::utf8::valid_utf8(v@) && b@ == v@,
{
    match String::from_utf8(v) {
        Ok(s) => Ok(s),
        Err(e) => Err(e.into_bytes()),
    }
}

/// Relies on String::from_utf8_lossy: decodes the bytes, replacing
/// every invalid sequence; on a valid UTF-8 encoding the result is
/// the exact decoding.
#[verifier::external_body]
pub(crate) fn decode_utf8_lossy(v: &Vec<u8>) -> (r: String)
    ensures
        r@ == utf8_lossy(v@),
        vstd::utf8::valid_utf8(v@) ==> r@ == vstd::utf8::decode_utf8(v@),
{
    String::from_utf8_lossy(v).into_owned()
}

/// Relies on crossbeam::scope: the closures run on scoped worker
/// threads and the call returns only after every one of them has
/// finished.  Each worker only runs one verified transfer of this
/// crate: the drains read their endpoint to end of file, the feed
/// writes the given input and closes the child's stdin.  A drain
/// result is returned exactly for each endpoint that was given.
#[verifier::external_body]
pub(crate) fn run_comm_threads(
    stdin: Option<crate::pipes::Endpoint>,
    input_data: Option<&[u8]>,
    stdout: Option<crate::pipes::Endpoint>,
    stderr: Option<crate::pipes::Endpoint>,
) -> (r: (
    Result<(), crate::error::PopenError>,
    Option<Result<Vec<u8>, crate::error::PopenError>>,
    Option<Result<Vec<u8>, crate::error::PopenError>>,
))
    requires
        stdin is Some ==> input_data is Some,
    ensures
        r.1 is Some <==> stdout is Some,
        r.2 is Some <==> stderr is Some,
        r.0 matches Err(e) ==> e is IoError,
        r.1 matches Some(Err(e)) ==> e is IoError,
        r.2 matches Some(Err(e)) ==> e is IoError,
{
    crossbeam::scope(|s| {
        let out_t = stdout.map(|e| s.spawn(move |_| crate::pipes::read_to_end(e)));
        let err_t = stderr.map(|e| s.spawn(move |_| crate::pipes::read_to_end(e)));
        let write_r = match (stdin, input_data) {
            (Some(e), Some(d)) => crate::pipes::write_all(e, d),
            (Some(e), None) => e.close(),
            (None, _) => Ok(()),
        };
        (write_r, out_t.map(|t| t.join().unwrap()), err_t.map(|t| t.join().unwrap()))
    }).unwrap()
}

/// Relies on Duration::as_millis: the whole number of milliseconds in
/// the duration.
#[verifier::external_body]
pub(crate) fn duration_millis(d: &core::time::Duration) -> (r: u128) {
    d.as_millis()
}

} // verus!
