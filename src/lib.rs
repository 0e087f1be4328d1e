//! Vendor-specific USB interface that lets a host reboot an RP2040 into its
//! mask-ROM bootloader (the "picotool reset" interface).
//!
//! The library holds the protocol logic: which control requests belong to the
//! interface, which are rejected, and which bootloader arguments a reset
//! request asks for. Registering with a USB stack and invoking the ROM routine
//! are left to the caller, which receives plain values from this crate.
pub mod bootsel;
pub mod config;
pub mod control;
pub mod request;
pub mod reset;

pub use bootsel::bootsel_action;
pub use config::{Config, DefaultConfig, DisableInterface};
pub use control::{
    Control, ControlOutcome, RegisterError, State, CLASS_VENDOR_SPECIFIC,
    RESET_INTERFACE_PROTOCOL, RESET_INTERFACE_SUBCLASS,
};
pub use request::{ControlRequest, Recipient, RequestType};
pub use reset::{boot_args, pin_mask_of, BootArgs, RESET_REQUEST_BOOTSEL};
