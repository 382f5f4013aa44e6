//! Decoding of SwitchBot TH advertisement payloads, the derived comfort
//! metrics, the scan loop's decisions and the latest-reading store.

pub mod decoder;
pub mod metrics;
pub mod sink;
pub mod scan;
