//! Typed, verified façade over the Linux clock and scheduler interfaces.
//!
//! The crate models three kernel-facing data layouts and the rules that
//! govern them: a fixed-point nanosecond time value, a fixed-capacity CPU
//! affinity bit-set, and the scheduler attribute record with its policy
//! codec and deadline-parameter validation.

pub mod clock;
pub mod cpuset;
pub mod error;
pub mod policy;
pub mod sched;
pub mod timespec;

pub use clock::ClockId;
pub use cpuset::CpuSet;
pub use error::SysError;
pub use policy::Policy;
pub use policy::SchedFlags;
pub use sched::Attributes;
pub use sched::Pid;
pub use sched::SchedAttr;
pub use timespec::TimeSpec;
