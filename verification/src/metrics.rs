//! Collectors, their sample streams, and the aggregates that compose them.

pub mod cpu;
pub mod device_path;
pub mod devfreq;
pub mod gpu;
pub mod historical_metric;
pub mod memory;
pub mod metrics;
pub mod network;
pub mod ratio;
pub mod source;
pub mod unix_cpu;
pub mod unix_gpu;
pub mod unix_metrics;
pub mod unix_npu;
pub mod unix_rga;
