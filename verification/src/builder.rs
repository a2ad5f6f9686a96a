//! The builder facade: fluent command construction and shell-style
//! pipelines over the process core.

use vstd::prelude::*;

use crate::environ::bytes_of_str;
use crate::error::PopenError;
use crate::error::PopenResult;
use crate::os;
use crate::pipes::Endpoint;
use crate::pipes::read_to_end;
use crate::pipes::write_all;
use crate::plumbing::Redirection;
use crate::popen::Popen;
use crate::popen::PopenConfig;
use crate::status::ExitStatus;
use vstd::string::StringExecFns;
use vstd::string::StringSliceAdditionalSpecFns;

verus! {

/// The null device, usable as a stream redirection.
pub struct NullFile;

/// What a caller handed to `stdin`: a plain redirection, the null
/// device, or bytes to feed to the child during `capture`.
pub enum InputRedirection {
    Spec(Redirection),
    Null,
    Data(Vec<u8>),
}

/// What a caller handed to `stdout` or `stderr`.
pub enum OutputRedirection {
    Spec(Redirection),
    Null,
}

/// Conversion of an argument of `stdin` into an input redirection.
pub trait IntoInputRedirection: Sized {
    /// Which input redirections the conversion may yield.
    spec fn converts_to(self, r: InputRedirection) -> bool;

    fn into_input_redirection(self) -> (r: InputRedirection)
        ensures
            self.converts_to(r),
    ;
}

impl IntoInputRedirection for Redirection {
    open spec fn converts_to(self, r: InputRedirection) -> bool {
        r == InputRedirection::Spec(self)
    }

    fn into_input_redirection(self) -> (r: InputRedirection) {
        InputRedirection::Spec(self)
    }
}

impl IntoInputRedirection for NullFile {
    open spec fn converts_to(self, r: InputRedirection) -> bool {
        r is Null
    }

    fn into_input_redirection(self) -> (r: InputRedirection) {
        InputRedirection::Null
    }
}

impl<'a> IntoInputRedirection for &'a str {
    open spec fn converts_to(self, r: InputRedirection) -> bool {
        r matches InputRedirection::Data(d) && d@ == self.spec_bytes()
    }

    fn into_input_redirection(self) -> (r: InputRedirection) {
        InputRedirection::Data(bytes_of_str(self))
    }
}

impl IntoInputRedirection for Vec<u8> {
    open spec fn converts_to(self, r: InputRedirection) -> bool {
        r == InputRedirection::Data(self)
    }

    fn into_input_redirection(self) -> (r: InputRedirection) {
        InputRedirection::Data(self)
    }
}

/// Conversion of an argument of `stdout` or `stderr` into an output
/// redirection.
pub trait IntoOutputRedirection: Sized {
    /// Which output redirections the conversion may yield.
    spec fn converts_to_output(self, r: OutputRedirection) -> bool;

    fn into_output_redirection(self) -> (r: OutputRedirection)
        ensures
            self.converts_to_output(r),
    ;
}

impl IntoOutputRedirection for Redirection {
    open spec fn converts_to_output(self, r: OutputRedirection) -> bool {
        r == OutputRedirection::Spec(self)
    }

    fn into_output_redirection(self) -> (r: OutputRedirection) {
        OutputRedirection::Spec(self)
    }
}

impl IntoOutputRedirection for NullFile {
    open spec fn converts_to_output(self, r: OutputRedirection) -> bool {
        r is Null
    }

    fn into_output_redirection(self) -> (r: OutputRedirection) {
        OutputRedirection::Null
    }
}

/// A fluent accumulator for one command: program name, arguments,
/// stream redirections, optional input data and optional environment
/// overrides.  Terminal operations translate it into `Popen` calls.
pub struct Exec {
    pub command: String,
    pub args: Vec<String>,
    pub stdin_choice: InputRedirection,
    pub stdout_choice: OutputRedirection,
    pub stderr_choice: OutputRedirection,
    pub env_vars: Option<Vec<(String, String)>>,
}

/// Everything captured by a `capture` call: the bytes of the captured
/// streams (empty for a stream that was not piped) and the child's
/// terminal status.
pub struct CaptureData {
    pub stdout: Vec<u8>,
    pub stderr: Vec<u8>,
    pub exit_status: ExitStatus,
}

impl CaptureData {
    /// The captured stdout, decoded lossily as UTF-8.
    pub fn stdout_str(&self) -> (r: String)
        ensures
            r@ == os::utf8_lossy(self.stdout@),
            vstd::utf8::valid_utf8(self.stdout@) ==> r@ == vstd::utf8::decode_utf8(self.stdout@),
    {
        os::decode_utf8_lossy(&self.stdout)
    }

    /// The captured stderr, decoded lossily as UTF-8.
    pub fn stderr_str(&self) -> (r: String)
        ensures
            r@ == os::utf8_lossy(self.stderr@),
            vstd::utf8::valid_utf8(self.stderr@) ==> r@ == vstd::utf8::decode_utf8(self.stderr@),
    {
        os::decode_utf8_lossy(&self.stderr)
    }
}

/// A stream from which a child's captured output is read; reading it
/// to the end also reaps the children behind it.
pub struct ReadStream {
    pub stream: Endpoint,
    pub children: Vec<Popen>,
}

/// A stream feeding a child's stdin; closing it after the write lets
/// the children see end of file, and they are reaped afterwards.
pub struct WriteStream {
    pub stream: Endpoint,
    pub children: Vec<Popen>,
}

/// Wait for every handle in turn and return the terminal status of
/// the last one.
pub(crate) fn wait_all(procs: &mut Vec<Popen>) -> (r: PopenResult<ExitStatus>)
    requires
        old(procs)@.len() > 0,
        forall|i: int| 0 <= i < old(procs)@.len() ==> (#[trigger] old(procs)@[i]).wf(),
    ensures
        final(procs)@.len() == old(procs)@.len(),
        forall|i: int| 0 <= i < final(procs)@.len() ==> (#[trigger] final(procs)@[i]).wf(),
        r matches Ok(st) ==> final(procs)@.last().exit_status == Some(st),
{
    let n: usize = procs.len();
    let mut last: ExitStatus = ExitStatus::Undetermined;
    let mut i: usize = 0;
    let mut failed: Option<PopenError> = None;
    while i < n
        invariant
            0 <= i <= n,
            n == procs@.len(),
            forall|k: int| 0 <= k < procs@.len() ==> (#[trigger] procs@[k]).wf(),
            failed is None && i > 0 ==> procs@[i - 1].exit_status == Some(last),
        decreases n - i,
    {
        let p: &mut Popen = &mut procs[i];
        match p.wait() {
            Ok(st) => {
                last = st;
            },
            Err(e) => {
                if failed.is_none() {
                    failed = Some(e);
                }
            },
        }
        i = i + 1;
    }
    match failed {
        Some(e) => Err(e),
        None => Ok(last),
    }
}

/// Terminate and reap every handle; used to clean up a partially
/// spawned pipeline.
pub(crate) fn cleanup_all(procs: &mut Vec<Popen>)
    requires
        forall|i: int| 0 <= i < old(procs)@.len() ==> (#[trigger] old(procs)@[i]).wf(),
{
    let n: usize = procs.len();
    let mut i: usize = 0;
    while i < n
        invariant
            0 <= i <= n,
            n == procs@.len(),
            forall|k: int| 0 <= k < procs@.len() ==> (#[trigger] procs@[k]).wf(),
        decreases n - i,
    {
        let p: &mut Popen = &mut procs[i];
        let _ = p.terminate();
        let _ = p.wait();
        i = i + 1;
    }
}

/// Open the null device for reading.
fn open_null_read() -> (r: PopenResult<Endpoint>) {
    match os::sys_open_read("/dev/null") {
        Ok(fd) => Ok(Endpoint { fd, inheritable: Ghost(true), channel: Ghost(fd as int) }),
        Err(code) => Err(PopenError::IoError(code)),
    }
}

/// Open the null device for writing.
fn open_null_write() -> (r: PopenResult<Endpoint>) {
    match os::sys_open_write("/dev/null") {
        Ok(fd) => Ok(Endpoint { fd, inheritable: Ghost(true), channel: Ghost(fd as int) }),
        Err(code) => Err(PopenError::IoError(code)),
    }
}

/// Close every endpoint an unused command still owns.
pub(crate) fn discard_exec(e: Exec) {
    let Exec { command: _, args: _, stdin_choice, stdout_choice, stderr_choice, env_vars: _ } = e;
    discard_input_choice(stdin_choice);
    discard_output_choice(stdout_choice);
    discard_output_choice(stderr_choice);
}

/// Close whatever endpoint an unused input choice still owns.
pub(crate) fn discard_input_choice(c: InputRedirection) {
    match c {
        InputRedirection::Spec(Redirection::FileTarget(e)) => {
            let _ = e.close();
        },
        _ => (),
    }
}

/// Close whatever endpoint an unused output choice still owns.
pub(crate) fn discard_output_choice(c: OutputRedirection) {
    match c {
        OutputRedirection::Spec(Redirection::FileTarget(e)) => {
            let _ = e.close();
        },
        _ => (),
    }
}

/// Turn an input choice into a plain redirection.  Input data has no
/// redirection: it belongs to `capture` alone.
pub(crate) fn resolve_input(c: InputRedirection) -> (r: PopenResult<Redirection>)
    ensures
        c matches InputRedirection::Data(_) ==> r matches Err(PopenError::LogicError(_)),
        r matches Ok(red) ==> ((red is Pipe) <==> c == InputRedirection::Spec(Redirection::Pipe)),
{
    match c {
        InputRedirection::Spec(red) => Ok(red),
        InputRedirection::Null => match open_null_read() {
            Ok(e) => Ok(Redirection::FileTarget(e)),
            Err(err) => Err(err),
        },
        InputRedirection::Data(_) => Err(
            PopenError::LogicError("stdin data must be consumed by capture"),
        ),
    }
}

/// Turn an output choice into a plain redirection.
pub(crate) fn resolve_output(c: OutputRedirection) -> (r: PopenResult<Redirection>)
    ensures
        r matches Ok(red) ==> ((red is Pipe) <==> c == OutputRedirection::Spec(Redirection::Pipe)),
{
    match c {
        OutputRedirection::Spec(red) => Ok(red),
        OutputRedirection::Null => match open_null_write() {
            Ok(e) => Ok(Redirection::FileTarget(e)),
            Err(err) => Err(err),
        },
    }
}

impl Exec {
    /// Start accumulating a command that runs the given program.
    pub fn cmd(command: &str) -> (r: Exec)
        ensures
            r.command@ == command@,
            r.args@.len() == 0,
            r.stdin_choice == InputRedirection::Spec(Redirection::Inherit),
            r.stdout_choice == OutputRedirection::Spec(Redirection::Inherit),
            r.stderr_choice == OutputRedirection::Spec(Redirection::Inherit),
            r.env_vars is None,
    {
        Exec {
            command: String::from_str(command),
            args: Vec::new(),
            stdin_choice: InputRedirection::Spec(Redirection::Inherit),
            stdout_choice: OutputRedirection::Spec(Redirection::Inherit),
            stderr_choice: OutputRedirection::Spec(Redirection::Inherit),
            env_vars: None,
        }
    }

    /// Accumulate a command that runs `cmdstr` through the shell.
    pub fn shell(cmdstr: &str) -> (r: Exec)
        ensures
            r.command@ == "sh"@,
            r.args@.len() == 2,
            r.args@[0]@ == "-c"@,
            r.args@[1]@ == cmdstr@,
            r.stdin_choice == InputRedirection::Spec(Redirection::Inherit),
            r.stdout_choice == OutputRedirection::Spec(Redirection::Inherit),
            r.stderr_choice == OutputRedirection::Spec(Redirection::Inherit),
            r.env_vars is None,
    {
        Exec::cmd("sh").arg("-c").arg(cmdstr)
    }

    /// Append one argument.
    pub fn arg(self, a: &str) -> (r: Exec)
        ensures
            r.command == self.command,
            r.args@.len() == self.args@.len() + 1,
            forall|i: int| 0 <= i < self.args@.len() ==> r.args@[i] == self.args@[i],
            r.args@.last()@ == a@,
            r.stdin_choice == self.stdin_choice,
            r.stdout_choice == self.stdout_choice,
            r.stderr_choice == self.stderr_choice,
            r.env_vars == self.env_vars,
    {
        let mut s = self;
        s.args.push(String::from_str(a));
        s
    }

    /// Append several arguments in order.
    pub fn args(self, list: &[&str]) -> (r: Exec)
        ensures
            r.command == self.command,
            r.args@.len() == self.args@.len() + list@.len(),
            forall|i: int| 0 <= i < self.args@.len() ==> r.args@[i] == self.args@[i],
            forall|j: int|
                0 <= j < list@.len() ==> r.args@[self.args@.len() + j]@ == list@[j]@,
            r.stdin_choice == self.stdin_choice,
            r.stdout_choice == self.stdout_choice,
            r.stderr_choice == self.stderr_choice,
            r.env_vars == self.env_vars,
    {
        let mut s = self;
        let n: usize = list.len();
        let ghost base: Seq<String> = s.args@;
        let mut i: usize = 0;
        while i < n
            invariant
                0 <= i <= n,
                n == list@.len(),
                s.args@.len() == base.len() + i,
                forall|k: int| 0 <= k < base.len() ==> s.args@[k] == base[k],
                forall|j: int| 0 <= j < i ==> s.args@[base.len() + j]@ == list@[j]@,
                s.command == self.command,
                s.stdin_choice == self.stdin_choice,
                s.stdout_choice == self.stdout_choice,
                s.stderr_choice == self.stderr_choice,
                s.env_vars == self.env_vars,
                base == self.args@,
            decreases n - i,
        {
            s.args.push(String::from_str(list[i]));
            i = i + 1;
        }
        s
    }

    /// Choose what the child's stdin is connected to, or give the
    /// bytes that `capture` will feed to it.
    pub fn stdin<T: IntoInputRedirection>(self, v: T) -> (r: Exec)
        ensures
            r.command == self.command,
            r.args == self.args,
            v.converts_to(r.stdin_choice),
            r.stdout_choice == self.stdout_choice,
            r.stderr_choice == self.stderr_choice,
            r.env_vars == self.env_vars,
    {
        let mut s = self;
        discard_input_choice(s.stdin_choice);
        s.stdin_choice = v.into_input_redirection();
        s
    }

    /// Choose what the child's stdout is connected to.
    pub fn stdout<T: IntoOutputRedirection>(self, v: T) -> (r: Exec)
        ensures
            r.command == self.command,
            r.args == self.args,
            r.stdin_choice == self.stdin_choice,
            v.converts_to_output(r.stdout_choice),
            r.stderr_choice == self.stderr_choice,
            r.env_vars == self.env_vars,
    {
        let mut s = self;
        discard_output_choice(s.stdout_choice);
        s.stdout_choice = v.into_output_redirection();
        s
    }

    /// Choose what the child's stderr is connected to.
    pub fn stderr<T: IntoOutputRedirection>(self, v: T) -> (r: Exec)
        ensures
            r.command == self.command,
            r.args == self.args,
            r.stdin_choice == self.stdin_choice,
            r.stdout_choice == self.stdout_choice,
            v.converts_to_output(r.stderr_choice),
            r.env_vars == self.env_vars,
    {
        let mut s = self;
        discard_output_choice(s.stderr_choice);
        s.stderr_choice = v.into_output_redirection();
        s
    }

    /// Override one environment variable of the child.  Variables not
    /// overridden stay inherited.
    pub fn env(self, key: &str, value: &str) -> (r: Exec)
        ensures
            r.command == self.command,
            r.args == self.args,
            r.stdin_choice == self.stdin_choice,
            r.stdout_choice == self.stdout_choice,
            r.stderr_choice == self.stderr_choice,
            r.env_vars is Some,
    {
        let mut s = self;
        let mut vars: Vec<(String, String)> = match s.env_vars {
            Some(v) => v,
            None => Vec::new(),
        };
        vars.push((String::from_str(key), String::from_str(value)));
        s.env_vars = Some(vars);
        s
    }

    /// Override several environment variables of the child.
    pub fn env_extend(self, pairs: &[(&str, &str)]) -> (r: Exec)
        ensures
            r.command == self.command,
            r.args == self.args,
            r.stdin_choice == self.stdin_choice,
            r.stdout_choice == self.stdout_choice,
            r.stderr_choice == self.stderr_choice,
    {
        let mut s = self;
        let n: usize = pairs.len();
        let mut i: usize = 0;
        while i < n
            invariant
                0 <= i <= n,
                n == pairs@.len(),
                s.command == self.command,
                s.args == self.args,
                s.stdin_choice == self.stdin_choice,
                s.stdout_choice == self.stdout_choice,
                s.stderr_choice == self.stderr_choice,
            decreases n - i,
        {
            s = s.env(pairs[i].0, pairs[i].1);
            i = i + 1;
        }
        s
    }

    /// The full argument vector: the program name, then the
    /// accumulated arguments.
    pub(crate) fn full_argv(&self) -> (r: Vec<String>)
        ensures
            r@.len() == 1 + self.args@.len(),
            r@[0] == self.command,
            forall|i: int| 0 <= i < self.args@.len() ==> r@[i + 1] == self.args@[i],
    {
        let mut argv: Vec<String> = Vec::new();
        argv.push(self.command.clone());
        let n: usize = self.args.len();
        let mut i: usize = 0;
        while i < n
            invariant
                0 <= i <= n,
                n == self.args@.len(),
                argv@.len() == 1 + i,
                argv@[0] == self.command,
                forall|k: int| 0 <= k < i ==> argv@[k + 1] == self.args@[k],
            decreases n - i,
        {
            argv.push(self.args[i].clone());
            i = i + 1;
        }
        argv
    }

    /// Launch the accumulated command.  Input data given to `stdin`
    /// is a logic error here: only `capture` consumes it.
    pub fn popen(self) -> (r: PopenResult<Popen>)
        ensures
            self.stdin_choice matches InputRedirection::Data(_) ==> r is Err,
            r matches Ok(p) ==> {
                &&& p.wf()
                &&& p._pid is Some
                &&& p.exit_status is None
                &&& (p.stdin is Some <==> self.stdin_choice == InputRedirection::Spec(
                    Redirection::Pipe,
                ))
                &&& (p.stdout is Some <==> self.stdout_choice == OutputRedirection::Spec(
                    Redirection::Pipe,
                ))
                &&& (p.stderr is Some <==> self.stderr_choice == OutputRedirection::Spec(
                    Redirection::Pipe,
                ))
            },
    {
        let argv: Vec<String> = self.full_argv();
        let Exec { command: _, args: _, stdin_choice, stdout_choice, stderr_choice, env_vars } =
            self;
        let stdin_red: Redirection = match resolve_input(stdin_choice) {
            Ok(red) => red,
            Err(e) => {
                discard_output_choice(stdout_choice);
                discard_output_choice(stderr_choice);
                return Err(e);
            },
        };
        let stdout_red: Redirection = match resolve_output(stdout_choice) {
            Ok(red) => red,
            Err(e) => {
                crate::plumbing::close_redirection(stdin_red);
                discard_output_choice(stderr_choice);
                return Err(e);
            },
        };
        let stderr_red: Redirection = match resolve_output(stderr_choice) {
            Ok(red) => red,
            Err(e) => {
                crate::plumbing::close_redirection(stdin_red);
                crate::plumbing::close_redirection(stdout_red);
                return Err(e);
            },
        };
        let config = PopenConfig {
            _use_default_to_construct: (),
            stdin: stdin_red,
            stdout: stdout_red,
            stderr: stderr_red,
            env: env_vars,
        };
        Popen::create(&argv, config)
    }

    /// Launch the command and wait for it; the terminal status of the
    /// child is returned.
    pub fn join(self) -> (r: PopenResult<ExitStatus>)
        ensures
            self.stdin_choice matches InputRedirection::Data(_) ==> r is Err,
    {
        let mut p: Popen = match self.popen() {
            Ok(p) => p,
            Err(e) => {
                return Err(e);
            },
        };
        p.wait()
    }

    /// Launch the command with stdout piped and hand back the read
    /// end; reading it to the end reaps the child.
    pub fn stream_stdout(self) -> (r: PopenResult<ReadStream>)
        ensures
            self.stdin_choice matches InputRedirection::Data(_) ==> r is Err,
            r matches Ok(s) ==> s.wf(),
    {
        let s = self.stdout(Redirection::Pipe);
        let mut p: Popen = match s.popen() {
            Ok(p) => p,
            Err(e) => {
                return Err(e);
            },
        };
        let stream: Endpoint = match p.stdout.take() {
            Some(e) => e,
            None => {
                proof {
                    assert(false);
                }
                return Err(PopenError::LogicError("missing stdout pipe"));
            },
        };
        let mut children: Vec<Popen> = Vec::new();
        children.push(p);
        Ok(ReadStream { stream, children })
    }

    /// Launch the command with stderr piped and hand back the read
    /// end; reading it to the end reaps the child.
    pub fn stream_stderr(self) -> (r: PopenResult<ReadStream>)
        ensures
            self.stdin_choice matches InputRedirection::Data(_) ==> r is Err,
            r matches Ok(s) ==> s.wf(),
    {
        let s = self.stderr(Redirection::Pipe);
        let mut p: Popen = match s.popen() {
            Ok(p) => p,
            Err(e) => {
                return Err(e);
            },
        };
        let stream: Endpoint = match p.stderr.take() {
            Some(e) => e,
            None => {
                proof {
                    assert(false);
                }
                return Err(PopenError::LogicError("missing stderr pipe"));
            },
        };
        let mut children: Vec<Popen> = Vec::new();
        children.push(p);
        Ok(ReadStream { stream, children })
    }

    /// Launch the command with stdin piped and hand back the write
    /// end; writing and closing it lets the child see end of file.
    pub fn stream_stdin(self) -> (r: PopenResult<WriteStream>)
        ensures
            self.stdin_choice matches InputRedirection::Data(_) ==> r is Err,
            r matches Ok(s) ==> s.wf(),
    {
        match self.stdin_choice {
            InputRedirection::Data(_) => {
                return Err(PopenError::LogicError("stdin data must be consumed by capture"));
            },
            _ => (),
        }
        let s = self.stdin(Redirection::Pipe);
        let mut p: Popen = match s.popen() {
            Ok(p) => p,
            Err(e) => {
                return Err(e);
            },
        };
        let stream: Endpoint = match p.stdin.take() {
            Some(e) => e,
            None => {
                proof {
                    assert(false);
                }
                return Err(PopenError::LogicError("missing stdin pipe"));
            },
        };
        let mut children: Vec<Popen> = Vec::new();
        children.push(p);
        Ok(WriteStream { stream, children })
    }

    /// Launch the command, feed it the accumulated input data (if
    /// any), read its piped outputs to the end, wait for it, and
    /// return everything captured.  Stdout is piped unless explicitly
    /// redirected elsewhere; a stream that ends up unpiped comes back
    /// empty.
    pub fn capture(self) -> (r: PopenResult<CaptureData>)
        ensures
            r matches Ok(c) ==> {
                &&& (!(self.stderr_choice == OutputRedirection::Spec(Redirection::Pipe))
                    ==> c.stderr@.len() == 0)
                &&& (!(self.stdout_choice == OutputRedirection::Spec(Redirection::Inherit))
                    && !(self.stdout_choice == OutputRedirection::Spec(Redirection::Pipe))
                    ==> c.stdout@.len() == 0)
            },
    {
        let Exec { command, args, stdin_choice, stdout_choice, stderr_choice, env_vars } = self;
        // Input data turns into a pipe that capture feeds.
        let (stdin_choice, input_data): (InputRedirection, Vec<u8>) = match stdin_choice {
            InputRedirection::Data(d) => (InputRedirection::Spec(Redirection::Pipe), d),
            other => (other, Vec::new()),
        };
        // Stdout is captured by default.
        let stdout_choice: OutputRedirection = match stdout_choice {
            OutputRedirection::Spec(Redirection::Inherit) => OutputRedirection::Spec(
                Redirection::Pipe,
            ),
            other => other,
        };
        let again = Exec {
            command,
            args,
            stdin_choice,
            stdout_choice,
            stderr_choice,
            env_vars,
        };
        let mut p: Popen = match again.popen() {
            Ok(p) => p,
            Err(e) => {
                return Err(e);
            },
        };
        let input_opt: Option<&[u8]> = if p.stdin.is_some() {
            Some(input_data.as_slice())
        } else {
            None
        };
        let comm = p.communicate_bytes(input_opt);
        let (out, err) = match comm {
            Ok(pair) => pair,
            Err(e) => {
                let _ = p.terminate();
                let _ = p.wait();
                return Err(e);
            },
        };
        let status: ExitStatus = match p.wait() {
            Ok(st) => st,
            Err(e) => {
                return Err(e);
            },
        };
        let stdout_bytes: Vec<u8> = match out {
            Some(v) => v,
            None => Vec::new(),
        };
        let stderr_bytes: Vec<u8> = match err {
            Some(v) => v,
            None => Vec::new(),
        };
        Ok(CaptureData { stdout: stdout_bytes, stderr: stderr_bytes, exit_status: status })
    }
}

impl ReadStream {
    /// Every child handle behind the stream is well formed.
    pub open spec fn wf(&self) -> bool {
        forall|i: int| 0 <= i < self.children@.len() ==> (#[trigger] self.children@[i]).wf()
    }

    /// Read the stream to end of file, reap the children behind it,
    /// and return the bytes.
    pub fn read_all(self) -> (r: PopenResult<Vec<u8>>)
        requires
            self.wf(),
    {
        let ReadStream { stream, children } = self;
        let result = read_to_end(stream);
        let mut children = children;
        let n: usize = children.len();
        let mut i: usize = 0;
        while i < n
            invariant
                0 <= i <= n,
                n == children@.len(),
                forall|k: int| 0 <= k < children@.len() ==> (#[trigger] children@[k]).wf(),
            decreases n - i,
        {
            let p: &mut Popen = &mut children[i];
            let _ = p.wait();
            i = i + 1;
        }
        result
    }
}

impl WriteStream {
    /// Every child handle behind the stream is well formed.
    pub open spec fn wf(&self) -> bool {
        forall|i: int| 0 <= i < self.children@.len() ==> (#[trigger] self.children@[i]).wf()
    }

    /// Write all the data, close the stream so the children see end
    /// of file, and reap them.
    pub fn write_and_close(self, data: &[u8]) -> (r: PopenResult<()>)
        requires
            self.wf(),
    {
        let WriteStream { stream, children } = self;
        let result = write_all(stream, data);
        let mut children = children;
        let n: usize = children.len();
        let mut i: usize = 0;
        while i < n
            invariant
                0 <= i <= n,
                n == children@.len(),
                forall|k: int| 0 <= k < children@.len() ==> (#[trigger] children@[k]).wf(),
            decreases n - i,
        {
            let p: &mut Popen = &mut children[i];
            let _ = p.wait();
            i = i + 1;
        }
        result
    }
}

} // verus!
