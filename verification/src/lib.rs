//! Child-process control for POSIX systems.
//!
//! The crate spawns an external program with a per-stream redirection
//! policy, tracks its life cycle (poll, timed wait, blocking wait),
//! delivers termination signals, and moves bulk data to and from the
//! child without the classic pipe-buffer deadlock.  A builder facade
//! (`Exec`, `Pipeline`) composes several children into shell-style
//! pipelines.
//!
//! All operating-system access goes through a small set of trusted
//! primitives in `os`; everything above them is verified.

pub mod builder;
pub mod cmdline;
pub mod environ;
pub mod error;
pub mod fmt;
pub mod numeric;
mod os;
pub mod pipeline;
pub mod pipes;
pub mod plumbing;
pub mod popen;
pub mod status;

pub use builder::CaptureData;
pub use builder::Exec;
pub use builder::InputRedirection;
pub use builder::IntoInputRedirection;
pub use builder::IntoOutputRedirection;
pub use builder::NullFile;
pub use builder::OutputRedirection;
pub use builder::ReadStream;
pub use builder::WriteStream;
pub use error::PopenError;
pub use error::PopenResult;
pub use pipeline::Pipeline;
pub use pipes::Endpoint;
pub use pipes::StandardStream;
pub use pipes::make_pipe;
pub use pipes::set_inheritable;
pub use plumbing::Redirection;
pub use popen::ExtPopenData;
pub use popen::Popen;
pub use popen::PopenConfig;
pub use status::ExitStatus;
pub use status::WaitOutcome;
