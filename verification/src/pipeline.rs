//! Shell-style pipelines: several commands run at once, each one's
//! stdout feeding the next one's stdin, composed with `|`.

use vstd::prelude::*;

use crate::builder::CaptureData;
use crate::builder::Exec;
use crate::builder::InputRedirection;
use crate::builder::IntoInputRedirection;
use crate::builder::IntoOutputRedirection;
use crate::builder::OutputRedirection;
use crate::builder::ReadStream;
use crate::builder::WriteStream;
use crate::builder::cleanup_all;
use crate::builder::discard_exec;
use crate::builder::resolve_input;
use crate::builder::resolve_output;
use crate::builder::wait_all;
use crate::error::PopenError;
use crate::error::PopenResult;
use crate::pipes::Endpoint;
use crate::pipes::dup_endpoint;
use crate::pipes::make_pipe;
use crate::pipes::set_inheritable;
use crate::plumbing::Redirection;
use crate::plumbing::close_redirection;
use crate::popen::Popen;
use crate::popen::PopenConfig;
use crate::popen::communicate_streams;
use crate::status::ExitStatus;

verus! {

/// Two or more commands joined left to right.  The pipeline's stdin
/// is the first command's, its stdout the last command's, and each
/// adjacent pair shares an anonymous pipe.
pub struct Pipeline {
    pub cmds: Vec<Exec>,
    pub stdin_choice: InputRedirection,
    pub stdout_choice: OutputRedirection,
}

impl Pipeline {
    /// A pipeline of two commands.
    pub fn new(first: Exec, second: Exec) -> (r: Pipeline)
        ensures
            r.cmds@.len() == 2,
            r.stdin_choice == InputRedirection::Spec(Redirection::Inherit),
            r.stdout_choice == OutputRedirection::Spec(Redirection::Inherit),
    {
        let mut cmds: Vec<Exec> = Vec::new();
        cmds.push(first);
        cmds.push(second);
        Pipeline {
            cmds,
            stdin_choice: InputRedirection::Spec(Redirection::Inherit),
            stdout_choice: OutputRedirection::Spec(Redirection::Inherit),
        }
    }

    /// Append one more command to the right end.
    pub fn add(self, cmd: Exec) -> (r: Pipeline)
        ensures
            r.cmds@.len() == self.cmds@.len() + 1,
            r.stdin_choice == self.stdin_choice,
            r.stdout_choice == self.stdout_choice,
    {
        let mut s = self;
        s.cmds.push(cmd);
        s
    }

    /// Join two pipelines into one: the left one's stdin, the right
    /// one's stdout.
    pub fn concat(self, other: Pipeline) -> (r: Pipeline)
        ensures
            r.cmds@.len() == self.cmds@.len() + other.cmds@.len(),
            r.stdin_choice == self.stdin_choice,
            r.stdout_choice == other.stdout_choice,
    {
        let Pipeline { cmds, stdin_choice, stdout_choice: _ } = self;
        let Pipeline { cmds: mut other_cmds, stdin_choice: other_stdin, stdout_choice } = other;
        crate::builder::discard_input_choice(other_stdin);
        let mut cmds = cmds;
        cmds.append(&mut other_cmds);
        Pipeline { cmds, stdin_choice, stdout_choice }
    }

    /// Choose what the first command's stdin is connected to, or give
    /// the bytes that `capture` will feed to it.
    pub fn stdin<T: IntoInputRedirection>(self, v: T) -> (r: Pipeline)
        ensures
            r.cmds == self.cmds,
            v.converts_to(r.stdin_choice),
            r.stdout_choice == self.stdout_choice,
    {
        let mut s = self;
        crate::builder::discard_input_choice(s.stdin_choice);
        s.stdin_choice = v.into_input_redirection();
        s
    }

    /// Choose what the last command's stdout is connected to.
    pub fn stdout<T: IntoOutputRedirection>(self, v: T) -> (r: Pipeline)
        ensures
            r.cmds == self.cmds,
            r.stdin_choice == self.stdin_choice,
            v.converts_to_output(r.stdout_choice),
    {
        let mut s = self;
        crate::builder::discard_output_choice(s.stdout_choice);
        s.stdout_choice = v.into_output_redirection();
        s
    }
}

/// Spawn every stage of a pipeline, wiring adjacent stages with
/// anonymous pipes.  The first stage's stdin and the last stage's
/// stdout come from the caller; with `shared_err`, every stage's
/// stderr is an inheritable duplicate of that endpoint.  On failure
/// every already-spawned stage is terminated and reaped and every
/// allocated endpoint is closed.
fn spawn_stages(
    cmds: Vec<Exec>,
    first_stdin: Redirection,
    last_stdout: Redirection,
    shared_err: Option<&Endpoint>,
) -> (r: PopenResult<Vec<Popen>>)
    requires
        cmds@.len() > 0,
    ensures
        r matches Ok(v) ==> {
            &&& v@.len() == cmds@.len()
            &&& (forall|i: int| 0 <= i < v@.len() ==> (#[trigger] v@[i]).wf())
            &&& (v@[0].stdin is Some <==> first_stdin is Pipe)
            &&& (v@.last().stdout is Some <==> last_stdout is Pipe)
        },
{
    let n: usize = cmds.len();
    let ghost first_pipe: bool = first_stdin is Pipe;
    let ghost last_pipe: bool = last_stdout is Pipe;
    let mut cmds = cmds;
    let mut procs: Vec<Popen> = Vec::new();
    let mut pending_stdin: Redirection = first_stdin;
    let mut last_stdout_opt: Option<Redirection> = Some(last_stdout);
    let mut i: usize = 0;
    while i < n
        invariant
            0 <= i <= n,
            cmds@.len() == n - i,
            procs@.len() == i,
            forall|k: int| 0 <= k < procs@.len() ==> (#[trigger] procs@[k]).wf(),
            i > 0 ==> (procs@[0].stdin is Some <==> first_pipe),
            i == 0 ==> (pending_stdin is Pipe <==> first_pipe),
            i < n ==> (last_stdout_opt matches Some(red) && (red is Pipe <==> last_pipe)),
            i == n ==> (procs@.last().stdout is Some <==> last_pipe),
        decreases n - i,
    {
        let stage: Exec = cmds.remove(0);
        let Exec {
            command,
            args,
            stdin_choice: stage_stdin,
            stdout_choice: stage_stdout,
            stderr_choice: stage_stderr,
            env_vars,
        } = stage;
        // The pipeline, not the stage, decides stdin and stdout.
        crate::builder::discard_input_choice(stage_stdin);
        crate::builder::discard_output_choice(stage_stdout);
        let probe = Exec {
            command,
            args,
            stdin_choice: InputRedirection::Spec(Redirection::Inherit),
            stdout_choice: OutputRedirection::Spec(Redirection::Inherit),
            stderr_choice: OutputRedirection::Spec(Redirection::Inherit),
            env_vars,
        };
        let argv: Vec<String> = probe.full_argv();
        let Exec { env_vars, stderr_choice: _, .. } = probe;

        let stdin_red: Redirection = pending_stdin;
        pending_stdin = Redirection::Inherit;
        let is_last: bool = i == n - 1;
        let stdout_red: Redirection;
        if is_last {
            stdout_red = match last_stdout_opt.take() {
                Some(red) => red,
                None => {
                    proof {
                        assert(false);
                    }
                    Redirection::Inherit
                },
            };
        } else {
            match make_pipe() {
                Ok((rd, wr)) => {
                    pending_stdin = Redirection::FileTarget(rd);
                    stdout_red = Redirection::FileTarget(wr);
                },
                Err(e) => {
                    close_redirection(stdin_red);
                    crate::builder::discard_output_choice(stage_stderr);
                    discard_cmds(cmds);
                    cleanup_all(&mut procs);
                    return Err(e);
                },
            }
        }
        let stderr_red: Redirection = match shared_err {
            Some(w) => match dup_endpoint(w) {
                Ok(d) => {
                    crate::builder::discard_output_choice(stage_stderr);
                    Redirection::FileTarget(d)
                },
                Err(e) => {
                    close_redirection(stdin_red);
                    close_redirection(stdout_red);
                    close_redirection(pending_stdin);
                    discard_cmds(cmds);
                    cleanup_all(&mut procs);
                    return Err(e);
                },
            },
            None => match resolve_output(stage_stderr) {
                Ok(red) => red,
                Err(e) => {
                    close_redirection(stdin_red);
                    close_redirection(stdout_red);
                    close_redirection(pending_stdin);
                    discard_cmds(cmds);
                    cleanup_all(&mut procs);
                    return Err(e);
                },
            },
        };
        let config = PopenConfig {
            _use_default_to_construct: (),
            stdin: stdin_red,
            stdout: stdout_red,
            stderr: stderr_red,
            env: env_vars,
        };
        match Popen::create(&argv, config) {
            Ok(p) => {
                procs.push(p);
            },
            Err(e) => {
                close_redirection(pending_stdin);
                discard_cmds(cmds);
                cleanup_all(&mut procs);
                return Err(e);
            },
        }
        i = i + 1;
    }
    Ok(procs)
}

/// Close every endpoint still owned by a list of unspawned commands.
fn discard_cmds(cmds: Vec<Exec>) {
    let mut cmds = cmds;
    let mut fuel: usize = cmds.len();
    while fuel > 0
        invariant
            cmds@.len() == fuel,
        decreases fuel,
    {
        fuel = fuel - 1;
        let stage: Exec = cmds.remove(0);
        discard_exec(stage);
    }
}

impl Pipeline {
    /// Launch every stage and hand back their handles, first to last.
    /// Input data given to `stdin` is a logic error here: only
    /// `capture` consumes it.
    pub fn popen(self) -> (r: PopenResult<Vec<Popen>>)
        ensures
            self.stdin_choice matches InputRedirection::Data(_) ==> r is Err,
            self.cmds@.len() == 0 ==> r is Err,
            r matches Ok(v) ==> {
                &&& v@.len() == self.cmds@.len()
                &&& v@.len() > 0
                &&& (forall|i: int| 0 <= i < v@.len() ==> (#[trigger] v@[i]).wf())
                &&& (v@[0].stdin is Some <==> self.stdin_choice == InputRedirection::Spec(
                    Redirection::Pipe,
                ))
                &&& (v@.last().stdout is Some <==> self.stdout_choice == OutputRedirection::Spec(
                    Redirection::Pipe,
                ))
            },
    {
        let Pipeline { cmds, stdin_choice, stdout_choice } = self;
        if cmds.len() == 0 {
            crate::builder::discard_input_choice(stdin_choice);
            crate::builder::discard_output_choice(stdout_choice);
            return Err(PopenError::LogicError("a pipeline needs at least one command"));
        }
        let first_stdin: Redirection = match resolve_input(stdin_choice) {
            Ok(red) => red,
            Err(e) => {
                crate::builder::discard_output_choice(stdout_choice);
                discard_cmds(cmds);
                return Err(e);
            },
        };
        let last_stdout: Redirection = match resolve_output(stdout_choice) {
            Ok(red) => red,
            Err(e) => {
                close_redirection(first_stdin);
                discard_cmds(cmds);
                return Err(e);
            },
        };
        spawn_stages(cmds, first_stdin, last_stdout, None)
    }

    /// Launch every stage and wait for all of them; the terminal
    /// status of the last stage is the pipeline's.
    pub fn join(self) -> (r: PopenResult<ExitStatus>)
        ensures
            self.stdin_choice matches InputRedirection::Data(_) ==> r is Err,
            self.cmds@.len() == 0 ==> r is Err,
    {
        let mut procs: Vec<Popen> = match self.popen() {
            Ok(v) => v,
            Err(e) => {
                return Err(e);
            },
        };
        wait_all(&mut procs)
    }

    /// Launch the pipeline, feed it the accumulated input data (if
    /// any), capture the last stage's stdout (unless redirected
    /// elsewhere) and the stderr of every stage through one shared
    /// pipe, and wait for all stages.  The terminal status is the
    /// last stage's; a stdout redirected away from the capture comes
    /// back empty.
    pub fn capture(self) -> (r: PopenResult<CaptureData>)
        ensures
            self.cmds@.len() == 0 ==> r is Err,
            r matches Ok(c) ==> (!(self.stdout_choice == OutputRedirection::Spec(
                Redirection::Inherit,
            )) && !(self.stdout_choice == OutputRedirection::Spec(Redirection::Pipe))
                ==> c.stdout@.len() == 0),
    {
        let Pipeline { cmds, stdin_choice, stdout_choice } = self;
        if cmds.len() == 0 {
            crate::builder::discard_input_choice(stdin_choice);
            crate::builder::discard_output_choice(stdout_choice);
            return Err(PopenError::LogicError("a pipeline needs at least one command"));
        }
        let (stdin_choice, input_data): (InputRedirection, Vec<u8>) = match stdin_choice {
            InputRedirection::Data(d) => (InputRedirection::Spec(Redirection::Pipe), d),
            other => (other, Vec::new()),
        };
        let stdout_choice: OutputRedirection = match stdout_choice {
            OutputRedirection::Spec(Redirection::Inherit) => OutputRedirection::Spec(
                Redirection::Pipe,
            ),
            other => other,
        };
        let first_stdin: Redirection = match resolve_input(stdin_choice) {
            Ok(red) => red,
            Err(e) => {
                crate::builder::discard_output_choice(stdout_choice);
                discard_cmds(cmds);
                return Err(e);
            },
        };
        let last_stdout: Redirection = match resolve_output(stdout_choice) {
            Ok(red) => red,
            Err(e) => {
                close_redirection(first_stdin);
                discard_cmds(cmds);
                return Err(e);
            },
        };
        // One shared pipe collects the stderr of every stage.
        let (err_read, err_write) = match make_pipe() {
            Ok(p) => p,
            Err(e) => {
                close_redirection(first_stdin);
                close_redirection(last_stdout);
                discard_cmds(cmds);
                return Err(e);
            },
        };
        let mut err_read = err_read;
        match set_inheritable(&mut err_read, false) {
            Ok(()) => (),
            Err(e) => {
                let _ = err_read.close();
                let _ = err_write.close();
                close_redirection(first_stdin);
                close_redirection(last_stdout);
                discard_cmds(cmds);
                return Err(e);
            },
        }
        let mut procs: Vec<Popen> = match spawn_stages(
            cmds,
            first_stdin,
            last_stdout,
            Some(&err_write),
        ) {
            Ok(v) => v,
            Err(e) => {
                let _ = err_read.close();
                let _ = err_write.close();
                return Err(e);
            },
        };
        let _ = err_write.close();
        let n: usize = procs.len();
        let in_ep: Option<Endpoint> = {
            let p0: &mut Popen = &mut procs[0];
            p0.stdin.take()
        };
        let out_ep: Option<Endpoint> = {
            let pl: &mut Popen = &mut procs[n - 1];
            pl.stdout.take()
        };
        let input_opt: Option<&[u8]> = if in_ep.is_some() {
            Some(input_data.as_slice())
        } else {
            None
        };
        let comm = communicate_streams(in_ep, input_opt, out_ep, Some(err_read));
        let (out, err) = match comm {
            Ok(pair) => pair,
            Err(e) => {
                cleanup_all(&mut procs);
                return Err(e);
            },
        };
        let status: ExitStatus = match wait_all(&mut procs) {
            Ok(st) => st,
            Err(e) => {
                return Err(e);
            },
        };
        let stdout_bytes: Vec<u8> = match out {
            Some(v) => v,
            None => Vec::new(),
        };
        let stderr_bytes: Vec<u8> = match err {
            Some(v) => v,
            None => {
                proof {
                    assert(false);
                }
                Vec::new()
            },
        };
        Ok(CaptureData { stdout: stdout_bytes, stderr: stderr_bytes, exit_status: status })
    }

    /// Launch the pipeline with the last stage's stdout piped and
    /// hand back the read end; reading it to the end reaps every
    /// stage.
    pub fn stream_stdout(self) -> (r: PopenResult<ReadStream>)
        ensures
            self.stdin_choice matches InputRedirection::Data(_) ==> r is Err,
            self.cmds@.len() == 0 ==> r is Err,
            r matches Ok(s) ==> s.wf(),
    {
        let s = self.stdout(Redirection::Pipe);
        let mut procs: Vec<Popen> = match s.popen() {
            Ok(v) => v,
            Err(e) => {
                return Err(e);
            },
        };
        let n: usize = procs.len();
        let stream: Endpoint = {
            let pl: &mut Popen = &mut procs[n - 1];
            match pl.stdout.take() {
                Some(e) => e,
                None => {
                    proof {
                        assert(false);
                    }
                    return Err(PopenError::LogicError("missing stdout pipe"));
                },
            }
        };
        Ok(ReadStream { stream, children: procs })
    }

    /// Launch the pipeline with the first stage's stdin piped and
    /// hand back the write end; writing and closing it lets the first
    /// stage see end of file.
    pub fn stream_stdin(self) -> (r: PopenResult<WriteStream>)
        ensures
            self.stdin_choice matches InputRedirection::Data(_) ==> r is Err,
            self.cmds@.len() == 0 ==> r is Err,
            r matches Ok(s) ==> s.wf(),
    {
        match self.stdin_choice {
            InputRedirection::Data(_) => {
                return Err(PopenError::LogicError("stdin data must be consumed by capture"));
            },
            _ => (),
        }
        let s = self.stdin(Redirection::Pipe);
        let mut procs: Vec<Popen> = match s.popen() {
            Ok(v) => v,
            Err(e) => {
                return Err(e);
            },
        };
        let stream: Endpoint = {
            let p0: &mut Popen = &mut procs[0];
            match p0.stdin.take() {
                Some(e) => e,
                None => {
                    proof {
                        assert(false);
                    }
                    return Err(PopenError::LogicError("missing stdin pipe"));
                },
            }
        };
        Ok(WriteStream { stream, children: procs })
    }
}

impl core::ops::BitOr<Exec> for Exec {
    type Output = Pipeline;

    /// Join two commands into a pipeline.
    fn bitor(self, rhs: Exec) -> (r: Pipeline) {
        Pipeline::new(self, rhs)
    }
}

impl vstd::std_specs::ops::BitOrSpecImpl<Exec> for Exec {
    open spec fn obeys_bitor_spec() -> bool {
        false
    }

    open spec fn bitor_req(self, rhs: Exec) -> bool {
        true
    }

    open spec fn bitor_spec(self, rhs: Exec) -> Pipeline {
        vstd::pervasive::arbitrary()
    }
}

impl core::ops::BitOr<Exec> for Pipeline {
    type Output = Pipeline;

    /// Append one more command to a pipeline.
    fn bitor(self, rhs: Exec) -> (r: Pipeline) {
        self.add(rhs)
    }
}

impl vstd::std_specs::ops::BitOrSpecImpl<Exec> for Pipeline {
    open spec fn obeys_bitor_spec() -> bool {
        false
    }

    open spec fn bitor_req(self, rhs: Exec) -> bool {
        true
    }

    open spec fn bitor_spec(self, rhs: Exec) -> Pipeline {
        vstd::pervasive::arbitrary()
    }
}

impl core::ops::BitOr<Pipeline> for Exec {
    type Output = Pipeline;

    /// Put one command in front of a pipeline.
    fn bitor(self, rhs: Pipeline) -> (r: Pipeline) {
        let mut cmds: Vec<Exec> = Vec::new();
        cmds.push(self);
        let head = Pipeline {
            cmds,
            stdin_choice: InputRedirection::Spec(Redirection::Inherit),
            stdout_choice: OutputRedirection::Spec(Redirection::Inherit),
        };
        head.concat(rhs)
    }
}

impl vstd::std_specs::ops::BitOrSpecImpl<Pipeline> for Exec {
    open spec fn obeys_bitor_spec() -> bool {
        false
    }

    open spec fn bitor_req(self, rhs: Pipeline) -> bool {
        true
    }

    open spec fn bitor_spec(self, rhs: Pipeline) -> Pipeline {
        vstd::pervasive::arbitrary()
    }
}

impl core::ops::BitOr<Pipeline> for Pipeline {
    type Output = Pipeline;

    /// Join two pipelines into one.
    fn bitor(self, rhs: Pipeline) -> (r: Pipeline) {
        self.concat(rhs)
    }
}

impl vstd::std_specs::ops::BitOrSpecImpl<Pipeline> for Pipeline {
    open spec fn obeys_bitor_spec() -> bool {
        false
    }

    open spec fn bitor_req(self, rhs: Pipeline) -> bool {
        true
    }

    open spec fn bitor_spec(self, rhs: Pipeline) -> Pipeline {
        vstd::pervasive::arbitrary()
    }
}

} // verus!
