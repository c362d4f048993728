use vstd::prelude::*;

pub mod builder;
pub mod span;

pub use builder::{
    DebugRootSpanBuilder, DefaultRootSpanBuilder, ErrorRootSpanBuilder, InfoRootSpanBuilder,
    RootSpanBuilder, TraceRootSpanBuilder, WarnRootSpanBuilder,
};
pub use span::{ErrorReport, HttpVersion, Level, OtelStatus, Outcome, RequestInfo, RootSpan};

verus! {

} // verus!
