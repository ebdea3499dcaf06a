//! Verified core of a RISC-V machine-mode firmware runtime.
//!
//! - [`boot`]: per-hart boot parameters and the early stack layout.
//! - [`console`]: the one-shot early console slot and its write loop.
//! - [`reset`]: validation and dispatch of SBI system reset requests.
//! - [`sbi_ret`]: SBI return values.
//! - [`pma`]: planning of the K3 X100 AMP-window PMA update.
//! - [`cove`]: CoVE host extension identifiers.
//! - [`platform_console`]: the UART kinds usable as machine console.
pub mod boot;
pub mod console;
pub mod cove;
pub mod platform_console;
pub mod pma;
pub mod reset;
pub mod sbi_ret;
