//! Codec for the three XML message shapes of the scan protocol: device
//! status, job status, and the job request.

pub mod error;
pub mod job_status;
pub mod scan_job;
pub mod scan_status;
pub mod util;
pub mod xml;
