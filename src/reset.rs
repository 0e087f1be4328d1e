use vstd::prelude::*;

use crate::config::{disable_mask, DisableInterface};

verus! {

/// Request code that asks for a reboot into the USB bootloader.
pub const RESET_REQUEST_BOOTSEL: u8 = 0x01;

/// Bit of `value` that says the host picks the activity pin itself.
pub const VALUE_PIN_OVERRIDE: u16 = 0x100;

/// Bits of `value` that the host passes through to the bootloader.
pub const VALUE_FLAGS: u16 = 0x7F;

/// The activity mask that shows pin `pin`; a pin that a 32-bit mask cannot
/// show gives the empty mask, that is no activity pin.
pub open spec fn pin_mask(pin: nat) -> u32 {
    if pin < 32 {
        1u32 << (pin as u32)
    } else {
        0
    }
}

/// The pin that `value` selects when bit 8 is set: bits 9..15.
pub open spec fn value_pin(value: u16) -> nat {
    (value >> 9u16) as nat
}

/// Whether `value` overrides the configured activity pin.
pub open spec fn value_overrides_pin(value: u16) -> bool {
    value & VALUE_PIN_OVERRIDE != 0
}

/// The GPIO activity mask for a reset request with `value`, given the
/// configured activity LED.
pub open spec fn gpio_mask(value: u16, led: Option<usize>) -> u32 {
    if value_overrides_pin(value) {
        pin_mask(value_pin(value))
    } else {
        match led {
            Some(pin) => pin_mask(pin as nat),
            None => 0,
        }
    }
}

/// The bootloader flags for a reset request with `value`: the host's low seven
/// bits combined with the configured interface-disable mask.
pub open spec fn feature_flags(value: u16, disable: DisableInterface) -> u32 {
    ((value & VALUE_FLAGS) as u32) | disable_mask(disable)
}

/// Arguments of the ROM routine that reboots into the USB bootloader.
#[derive(Debug, PartialEq, Eq, Clone, Copy, Structural)]
pub struct BootArgs {
    /// Pin mask of the GPIO that shows mass storage activity (0: none).
    pub gpio_mask: u32,
    /// Which bootloader interfaces to disable, and the host's flags.
    pub feature_flags: u32,
}

/// The activity mask that shows `pin`, or 0 when `pin` does not fit a 32-bit mask.
pub fn pin_mask_of(pin: usize) -> (r: u32)
    ensures
        r == pin_mask(pin as nat),
{
    if pin < 32 {
        1u32 << (pin as u32)
    } else {
        0
    }
}

/// Computes the bootloader arguments for a reset request with `value`.
pub fn boot_args(value: u16, led: Option<usize>, disable: DisableInterface) -> (r: BootArgs)
    ensures
        r.gpio_mask == gpio_mask(value, led),
        value_overrides_pin(value) ==> r.gpio_mask == pin_mask(value_pin(value)),
        r.feature_flags == feature_flags(value, disable),
{
    let mut mask: u32 = match led {
        Some(pin) => pin_mask_of(pin),
        None => 0,
    };
    if value & VALUE_PIN_OVERRIDE != 0 {
        mask = pin_mask_of((value >> 9u16) as usize);
    }
    let flags: u32 = (value & VALUE_FLAGS) as u32 | disable.into();
    BootArgs { gpio_mask: mask, feature_flags: flags }
}

} // verus!
