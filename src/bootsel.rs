use vstd::prelude::*;

use crate::config::{disable_mask, DisableInterface};
use crate::reset::BootArgs;

verus! {

/// The interfaces that a reboot from the BOOTSEL button disables: mass
/// storage, so that the board comes up with PicoBoot alone.
pub const BOOTSEL_DISABLE: DisableInterface = DisableInterface::DisableMassStorage;

/// Decides, for one poll of the BOOTSEL button, whether to reboot into the
/// USB bootloader, and with which arguments: no activity pin, mass storage
/// disabled.
pub fn bootsel_action(pressed: bool) -> (r: Option<BootArgs>)
    ensures
        pressed ==> r == Some(
            BootArgs { gpio_mask: 0, feature_flags: disable_mask(DisableInterface::DisableMassStorage) },
        ),
        !pressed ==> r is None,
{
    if pressed {
        Some(BootArgs { gpio_mask: 0, feature_flags: BOOTSEL_DISABLE.into() })
    } else {
        None
    }
}

} // verus!
