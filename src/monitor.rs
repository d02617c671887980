//! The monitors of a session, gathered under one path.
pub use crate::coverage::{LLVMCoverageItem, LLVMCoverageMonitor, LLVMCoverageResult};
pub use crate::manager::{MonitorManager, MonitorManagerConfig, MonitorManagerResult};
pub use crate::status::{AflStatusMonitor, AflStautsResult};
