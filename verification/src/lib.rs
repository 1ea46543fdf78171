//! Host health aggregation: classification of memory pressure, CPU temperature
//! and CPU load, their combination into one verdict, and the staleness cache
//! that serves it.

pub mod binary32;
pub mod health_check;
pub mod log_level;
pub mod one_shot;
pub mod reading;
pub mod sampler;
pub mod state;
pub mod thresholds;
