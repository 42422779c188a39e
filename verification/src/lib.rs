//! A structured diagnostics model: timestamps and extents, trace and span
//! identifiers, hierarchical paths, keys, levels, metrics and the runtime
//! that combines emitters, filters, contexts, clocks and id generators.

pub mod empty;
pub mod hex;
pub mod id;
pub mod calendar;
pub mod duration;
pub mod timestamp;
pub mod extent;
pub mod text;
pub mod str;
pub mod key;
pub mod path;
pub mod props;
pub mod metrics;
pub mod template;
pub mod batcher;
pub mod and;
pub mod or;
pub mod order;
pub mod by_ref;
pub mod level;
pub mod clock;
pub mod ctxt;
pub mod rng;
pub mod event;
pub mod filter;
pub mod emitter;
pub mod target;
pub mod runtime;
pub mod ambient;
pub mod otlp;
pub mod otlp_data;
pub mod otlp_metrics;
pub mod otel_log;
pub mod term;
pub mod well_known;
