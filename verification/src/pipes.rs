//! Owned stream endpoints and bulk transfers over them.

use vstd::prelude::*;

use crate::error::PopenError;
use crate::error::PopenResult;
use crate::os;

verus! {

/// The `errno` value of an interrupted system call, which is retried.
pub(crate) const EINTR_CODE: i32 = 4;

/// One owned end of a byte stream: a pipe end, an open file, or a
/// duplicate of a standard stream.  The descriptor is released by
/// `close`, never implicitly.  `inheritable` mirrors the descriptor's
/// close-on-exec flag: `true` means a child created by exec receives
/// the descriptor.  `channel` identifies the byte channel behind the
/// endpoint: the two ends of one pipe share it, and so does every
/// duplicate of an endpoint.
pub struct Endpoint {
    pub fd: i32,
    pub inheritable: Ghost<bool>,
    pub channel: Ghost<int>,
}

/// One of the three standard streams of the calling process.
#[derive(Clone, Copy, Debug, PartialEq, Eq, Structural)]
pub enum StandardStream {
    Input,
    Output,
    Error,
}

impl Endpoint {
    /// Adopt an already-open descriptor whose close-on-exec flag is
    /// clear, as descriptors arriving from outside the crate are.
    pub fn from_raw(fd: i32) -> (r: Endpoint)
        ensures
            r.fd == fd,
            r.inheritable@ == true,
    {
        Endpoint { fd, inheritable: Ghost(true), channel: Ghost(fd as int) }
    }

    /// The raw descriptor number.
    pub fn raw(&self) -> (r: i32)
        ensures
            r == self.fd,
    {
        self.fd
    }

    /// Release the descriptor.
    pub fn close(self) -> (r: PopenResult<()>)
        ensures
            r matches Err(e) ==> e is IoError,
    {
        match os::sys_close(self.fd) {
            Ok(()) => Ok(()),
            Err(code) => Err(PopenError::IoError(code)),
        }
    }
}

/// Create an anonymous pipe and return `(read_end, write_end)`.  Both
/// ends carry the platform default inheritance: inheritable.
pub fn make_pipe() -> (r: PopenResult<(Endpoint, Endpoint)>)
    ensures
        r matches Ok(p) ==> p.0.inheritable@ == true && p.1.inheritable@ == true,
        r matches Ok(p) ==> p.0.channel@ == p.1.channel@,
        r matches Err(e) ==> e is IoError,
{
    match os::sys_pipe() {
        Ok((rd, wr)) => Ok(
            (
                Endpoint { fd: rd, inheritable: Ghost(true), channel: Ghost(rd as int) },
                Endpoint { fd: wr, inheritable: Ghost(true), channel: Ghost(rd as int) },
            ),
        ),
        Err(code) => Err(PopenError::IoError(code)),
    }
}

/// Set or clear the inheritance of an endpoint (its close-on-exec
/// flag).  On success the endpoint records the requested state.
pub fn set_inheritable(e: &mut Endpoint, inheritable: bool) -> (r: PopenResult<()>)
    ensures
        final(e).fd == old(e).fd,
        final(e).channel == old(e).channel,
        r matches Ok(u) ==> final(e).inheritable@ == inheritable,
        r is Err ==> final(e).inheritable@ == old(e).inheritable@,
        r matches Err(err) ==> err is IoError,
{
    match os::sys_set_cloexec(e.fd, !inheritable) {
        Ok(()) => {
            e.inheritable = Ghost(inheritable);
            Ok(())
        },
        Err(code) => Err(PopenError::IoError(code)),
    }
}

/// Duplicate an endpoint.  The duplicate refers to the same open file
/// description; its close-on-exec flag is clear, so it is inheritable.
pub(crate) fn dup_endpoint(e: &Endpoint) -> (r: PopenResult<Endpoint>)
    ensures
        r matches Ok(d) ==> d.inheritable@ == true && d.channel@ == e.channel@,
        r matches Err(err) ==> err is IoError,
{
    match os::sys_dup(e.fd) {
        Ok(fd) => Ok(Endpoint { fd, inheritable: Ghost(true), channel: e.channel }),
        Err(code) => Err(PopenError::IoError(code)),
    }
}

/// Produce an independently closable duplicate of one of the parent's
/// standard streams; the duplicate is inheritable.
pub fn clone_standard_stream(which: StandardStream) -> (r: PopenResult<Endpoint>)
    ensures
        r matches Ok(d) ==> d.inheritable@ == true,
        r matches Err(err) ==> err is IoError,
{
    let fd: i32 = match which {
        StandardStream::Input => 0,
        StandardStream::Output => 1,
        StandardStream::Error => 2,
    };
    match os::sys_dup(fd) {
        Ok(nfd) => Ok(Endpoint { fd: nfd, inheritable: Ghost(true), channel: Ghost(fd as int) }),
        Err(code) => Err(PopenError::IoError(code)),
    }
}

/// Read an endpoint to end of file, then close it.  Interrupted reads
/// are retried; on a read error the endpoint is still closed.
pub fn read_to_end(e: Endpoint) -> (r: PopenResult<Vec<u8>>)
    ensures
        r matches Err(err) ==> err is IoError,
{
    let fd: i32 = e.fd;
    let mut out: Vec<u8> = Vec::new();
    let mut fuel: u64 = u64::MAX;
    while fuel > 0
        decreases fuel,
    {
        fuel = fuel - 1;
        match os::sys_read_chunk(fd) {
            Ok(chunk) => {
                if chunk.len() == 0 {
                    let _ = e.close();
                    return Ok(out);
                }
                let mut chunk = chunk;
                out.append(&mut chunk);
            },
            Err(code) => {
                if code != EINTR_CODE {
                    let _ = e.close();
                    return Err(PopenError::IoError(code));
                }
            },
        }
    }
    let _ = e.close();
    Err(PopenError::IoError(0))
}

/// Write all of `data` to an endpoint, then close it, so that a child
/// reading the other end of a pipe sees end of file.  Interrupted
/// writes are retried; on a write error the endpoint is still closed.
pub fn write_all(e: Endpoint, data: &[u8]) -> (r: PopenResult<()>)
    ensures
        r matches Err(err) ==> err is IoError,
{
    let fd: i32 = e.fd;
    let mut offset: usize = 0;
    let mut fuel: u64 = u64::MAX;
    while fuel > 0
        invariant
            offset <= data@.len(),
        decreases fuel,
    {
        fuel = fuel - 1;
        if offset == data.len() {
            let _ = e.close();
            return Ok(());
        }
        let rest: &[u8] = vstd::slice::slice_subrange(data, offset, data.len());
        match os::sys_write(fd, rest) {
            Ok(n) => {
                if n == 0 {
                    // A zero-length transfer cannot make progress.
                    let _ = e.close();
                    return Err(PopenError::IoError(0));
                }
                offset = offset + n;
            },
            Err(code) => {
                if code != EINTR_CODE {
                    let _ = e.close();
                    return Err(PopenError::IoError(code));
                }
            },
        }
    }
    let _ = e.close();
    Err(PopenError::IoError(0))
}

} // verus!
