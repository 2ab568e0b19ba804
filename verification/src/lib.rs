//! Verified core of a container-based sandbox for untrusted workloads.
//!
//! The crate plans container-engine invocations (as plain argument vectors),
//! interprets their outcomes, decides which container isolation mode a
//! host/guest pair of OS builds permits, and manages the container lifecycle
//! as a state machine with guaranteed cleanup and out-of-memory detection.
//! Actually spawning the engine's command line is left to the embedding
//! program, which feeds each command's outcome back into the library.
pub mod command;
pub mod docker;
pub mod errors;
pub mod inspect;
pub mod isolation;
pub mod lifecycle;
pub mod native;
pub mod version;

pub use command::CommandSpec;
pub use docker::is_running;
pub use docker::Container;
pub use docker::ContainerBuilder;
pub use docker::DockerEnv;
pub use docker::MountConfig;
pub use docker::MountPerms;
pub use docker::MountStyle;
pub use errors::CmdError;
pub use errors::Error;
pub use errors::IncompatibilityReason;
pub use inspect::oom_decode_of;
pub use inspect::OomDecode;
pub use isolation::container_isolation;
pub use isolation::container_isolation_for_env;
pub use isolation::CachedIsolation;
pub use isolation::ContainerIsolation;
pub use isolation::IsolationCache;
pub use isolation::ResolveFailure;
pub use lifecycle::RunSession;
pub use lifecycle::RunState;
pub use lifecycle::StepAction;
pub use native::build_number;
pub use native::executable_mode_for;
pub use native::HostVersionInfo;
pub use version::WindowsBuild;
