//! Translation of a redirection policy into child- and parent-side
//! stream endpoints.

use vstd::prelude::*;

use crate::error::PopenError;
use crate::error::PopenResult;
use crate::pipes::Endpoint;
use crate::pipes::StandardStream;
use crate::pipes::clone_standard_stream;
use crate::pipes::dup_endpoint;
use crate::pipes::make_pipe;
use crate::pipes::set_inheritable;

verus! {

/// What to do with one standard stream of the child.
///
/// `Inherit` leaves the stream to the parent's; `Pipe` connects it to
/// the parent through a fresh anonymous pipe; `FileTarget` installs an
/// already-open endpoint, whose ownership moves into the spec; `Merge`
/// duplicates the other output stream (stdout from stderr or stderr
/// from stdout) and is invalid for stdin.
pub enum Redirection {
    Inherit,
    Pipe,
    FileTarget(Endpoint),
    Merge,
}

impl Default for Redirection {
    /// The default policy leaves a stream to the parent's.
    fn default() -> (r: Redirection)
        ensures
            r is Inherit,
    {
        Redirection::Inherit
    }
}

/// The endpoints that a redirection policy yields: up to three child
/// ends to install as the child's descriptors 0, 1 and 2, and up to
/// three parent ends, one for each stream that was piped.
pub struct ChildStreams {
    pub child_stdin: Option<Endpoint>,
    pub child_stdout: Option<Endpoint>,
    pub child_stderr: Option<Endpoint>,
    pub parent_stdin: Option<Endpoint>,
    pub parent_stdout: Option<Endpoint>,
    pub parent_stderr: Option<Endpoint>,
}

/// Every endpoint present in the option records the given inheritance.
pub open spec fn opt_inheritable(o: Option<Endpoint>, b: bool) -> bool {
    o matches Some(e) ==> e.inheritable@ == b
}

/// Both options hold endpoints of one and the same byte channel, as a
/// merged stream and the stream it duplicates do.
pub open spec fn same_channel(a: Option<Endpoint>, b: Option<Endpoint>) -> bool {
    a matches Some(x) && (b matches Some(y) && x.channel@ == y.channel@)
}

/// Close the endpoint owned by a file-target spec, if any.
pub(crate) fn close_redirection(r: Redirection) {
    match r {
        Redirection::FileTarget(e) => {
            let _ = e.close();
        },
        _ => (),
    }
}

/// Close an optional endpoint.
pub(crate) fn close_opt(o: Option<Endpoint>) {
    match o {
        Some(e) => {
            let _ = e.close();
        },
        None => (),
    }
}

/// Allocate a pipe for one piped stream and demote the parent-retained
/// end to non-inheritable, so that it cannot leak into any child.
/// Returns `(parent_end, child_end)`; `for_write` says the parent will
/// write (a stdin pipe) rather than read.
fn prepare_pipe(for_write: bool) -> (r: PopenResult<(Endpoint, Endpoint)>)
    ensures
        r matches Ok(p) ==> p.0.inheritable@ == false && p.1.inheritable@ == true,
        r matches Err(e) ==> e is IoError,
{
    let (rd, wr) = match make_pipe() {
        Ok(p) => p,
        Err(e) => {
            return Err(e);
        },
    };
    let (mut parent_end, child_end) = if for_write { (wr, rd) } else { (rd, wr) };
    match set_inheritable(&mut parent_end, false) {
        Ok(()) => Ok((parent_end, child_end)),
        Err(e) => {
            let _ = parent_end.close();
            let _ = child_end.close();
            Err(e)
        },
    }
}

/// Promote a caller-supplied file endpoint to inheritable so the child
/// can receive it.
fn prepare_file(f: Endpoint) -> (r: PopenResult<Endpoint>)
    ensures
        r matches Ok(e) ==> e.inheritable@ == true,
        r matches Err(err) ==> err is IoError,
{
    let mut f = f;
    match set_inheritable(&mut f, true) {
        Ok(()) => Ok(f),
        Err(e) => {
            let _ = f.close();
            Err(e)
        },
    }
}

/// Give a merged stream its child endpoint: take the child end already
/// chosen for the other stream, cloning the parent's standard stream
/// into that slot first if the other stream was inherited, and return
/// an inheritable duplicate of it.
fn dup_child_stream(child: &mut Option<Endpoint>, which: StandardStream) -> (r: PopenResult<
    Endpoint,
>)
    ensures
        *old(child) is Some ==> *final(child) == *old(child),
        r is Ok ==> *final(child) is Some,
        r matches Ok(e) ==> e.inheritable@ == true,
        r matches Ok(e) ==> same_channel(*final(child), Some(e)),
        r matches Err(err) ==> err is IoError,
        opt_inheritable(*old(child), true) ==> opt_inheritable(*final(child), true),
{
    if child.is_none() {
        match clone_standard_stream(which) {
            Ok(e) => {
                *child = Some(e);
            },
            Err(err) => {
                return Err(err);
            },
        }
    }
    match child {
        Some(e) => dup_endpoint(e),
        None => {
            proof {
                assert(false);
            }
            Err(PopenError::IoError(0))
        },
    }
}

/// Turn the three redirection specs into child- and parent-side
/// endpoints, resolving `Merge` after both output streams are known.
///
/// On success: a parent end exists exactly for each piped stream and
/// is non-inheritable; a child end exists exactly for each stream that
/// is not plainly inherited (counting the stream a merge duplicates)
/// and is inheritable.  `Merge` for stdin is rejected as a logic
/// error; every endpoint allocated before any failure is closed again.
pub fn make_child_streams(stdin: Redirection, stdout: Redirection, stderr: Redirection) -> (r:
    PopenResult<ChildStreams>)
    ensures
        stdin is Merge ==> r matches Err(PopenError::LogicError(_)),
        r matches Err(PopenError::LogicError(_)) ==> stdin is Merge,
        stdin is Inherit && stdout is Inherit && stderr is Inherit ==> r is Ok,
        r matches Ok(s) ==> {
            &&& (s.parent_stdin is Some <==> stdin is Pipe)
            &&& (s.parent_stdout is Some <==> stdout is Pipe)
            &&& (s.parent_stderr is Some <==> stderr is Pipe)
            &&& opt_inheritable(s.parent_stdin, false)
            &&& opt_inheritable(s.parent_stdout, false)
            &&& opt_inheritable(s.parent_stderr, false)
            &&& (s.child_stdin is Some <==> !(stdin is Inherit))
            &&& (s.child_stdout is Some <==> (!(stdout is Inherit) || stderr is Merge))
            &&& (s.child_stderr is Some <==> (!(stderr is Inherit) || stdout is Merge))
            &&& opt_inheritable(s.child_stdin, true)
            &&& opt_inheritable(s.child_stdout, true)
            &&& opt_inheritable(s.child_stderr, true)
            &&& (stderr is Merge ==> same_channel(s.child_stdout, s.child_stderr))
            &&& (stdout is Merge && !(stderr is Merge) ==> same_channel(
                s.child_stderr,
                s.child_stdout,
            ))
        },
{
    // Stdin.
    let mut parent_stdin: Option<Endpoint> = None;
    let child_stdin: Option<Endpoint> = match stdin {
        Redirection::Pipe => match prepare_pipe(true) {
            Ok((p, c)) => {
                parent_stdin = Some(p);
                Some(c)
            },
            Err(e) => {
                close_redirection(stdout);
                close_redirection(stderr);
                return Err(e);
            },
        },
        Redirection::FileTarget(f) => match prepare_file(f) {
            Ok(c) => Some(c),
            Err(e) => {
                close_redirection(stdout);
                close_redirection(stderr);
                return Err(e);
            },
        },
        Redirection::Merge => {
            close_redirection(stdout);
            close_redirection(stderr);
            return Err(PopenError::LogicError("Redirection::Merge not valid for stdin"));
        },
        Redirection::Inherit => None,
    };

    // Stdout.
    let mut parent_stdout: Option<Endpoint> = None;
    let mut merge_out_from_err: bool = false;
    let mut child_stdout: Option<Endpoint> = match stdout {
        Redirection::Pipe => match prepare_pipe(false) {
            Ok((p, c)) => {
                parent_stdout = Some(p);
                Some(c)
            },
            Err(e) => {
                close_opt(parent_stdin);
                close_opt(child_stdin);
                close_redirection(stderr);
                return Err(e);
            },
        },
        Redirection::FileTarget(f) => match prepare_file(f) {
            Ok(c) => Some(c),
            Err(e) => {
                close_opt(parent_stdin);
                close_opt(child_stdin);
                close_redirection(stderr);
                return Err(e);
            },
        },
        Redirection::Merge => {
            merge_out_from_err = true;
            None
        },
        Redirection::Inherit => None,
    };

    // Stderr.
    let mut parent_stderr: Option<Endpoint> = None;
    let mut merge_err_from_out: bool = false;
    let mut child_stderr: Option<Endpoint> = match stderr {
        Redirection::Pipe => match prepare_pipe(false) {
            Ok((p, c)) => {
                parent_stderr = Some(p);
                Some(c)
            },
            Err(e) => {
                close_opt(parent_stdin);
                close_opt(child_stdin);
                close_opt(parent_stdout);
                close_opt(child_stdout);
                return Err(e);
            },
        },
        Redirection::FileTarget(f) => match prepare_file(f) {
            Ok(c) => Some(c),
            Err(e) => {
                close_opt(parent_stdin);
                close_opt(child_stdin);
                close_opt(parent_stdout);
                close_opt(child_stdout);
                return Err(e);
            },
        },
        Redirection::Merge => {
            merge_err_from_out = true;
            None
        },
        Redirection::Inherit => None,
    };

    // Resolve merges in terms of the chosen child endpoints.  When both
    // outputs ask to merge, the stderr request is the one honoured.
    if merge_err_from_out {
        match dup_child_stream(&mut child_stdout, StandardStream::Output) {
            Ok(e) => {
                child_stderr = Some(e);
            },
            Err(err) => {
                close_opt(parent_stdin);
                close_opt(child_stdin);
                close_opt(parent_stdout);
                close_opt(child_stdout);
                close_opt(parent_stderr);
                close_opt(child_stderr);
                return Err(err);
            },
        }
    } else if merge_out_from_err {
        match dup_child_stream(&mut child_stderr, StandardStream::Error) {
            Ok(e) => {
                child_stdout = Some(e);
            },
            Err(err) => {
                close_opt(parent_stdin);
                close_opt(child_stdin);
                close_opt(parent_stdout);
                close_opt(child_stdout);
                close_opt(parent_stderr);
                close_opt(child_stderr);
                return Err(err);
            },
        }
    }

    Ok(
        ChildStreams {
            child_stdin,
            child_stdout,
            child_stderr,
            parent_stdin,
            parent_stdout,
            parent_stderr,
        },
    )
}

} // verus!
