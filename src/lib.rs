//! Leak tracing for a process allocator: every live allocation is recorded
//! with the call stack that produced it, and the set of outstanding
//! allocations can be snapshotted at any time.
pub mod call;
pub mod capture;
pub mod history;
pub mod live_map;
pub mod text;
pub mod tracer;

pub use call::Call;
pub use live_map::{AllocationRecord, LiveMap};
pub use tracer::{LeakTracer, LeakTracerDefault, LeakTracerInner};
