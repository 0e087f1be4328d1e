use vstd::prelude::*;

verus! {

/// Defines which feature of the bootloader are made available after reset.
#[derive(Debug, PartialEq, Eq, Clone, Copy, Structural)]
pub enum DisableInterface {
    /// Both Mass Storage and Pico boot are enabled.
    NoDisable,
    /// Disables Mass Storage leaving only PicoBoot.
    DisableMassStorage,
    /// Disables PicoBoot leaving only Mass Storage.
    DisablePicoBoot,
}

/// The bit pattern that the bootloader expects for each choice.
pub open spec fn disable_mask(d: DisableInterface) -> u32 {
    match d {
        DisableInterface::NoDisable => 0,
        DisableInterface::DisableMassStorage => 1,
        DisableInterface::DisablePicoBoot => 2,
    }
}

impl DisableInterface {
    /// The interface-disable mask handed to the bootloader.
    pub fn into(self) -> (r: u32)
        ensures
            r == disable_mask(self),
            r <= 2,
    {
        match self {
            DisableInterface::NoDisable => 0,
            DisableInterface::DisableMassStorage => 1,
            DisableInterface::DisablePicoBoot => 2,
        }
    }
}

/// Allows to customize the configuration of the reset interface.
///
/// Each implementation fixes, once for the whole program, what the bootloader
/// is told when the host asks for a reset.
pub trait Config {
    /// Which interface to enable/disable after reset.
    spec fn spec_interface_disable() -> DisableInterface;

    /// Which pin shows mass storage activity after reset, if any.
    spec fn spec_bootsel_activity_led() -> Option<usize>;

    /// Configuration for which interface to enable/disable after reset.
    fn interface_disable() -> (r: DisableInterface)
        ensures
            r == Self::spec_interface_disable(),
    ;

    /// Configuration for which pin to show mass storage activity after reset.
    fn bootsel_activity_led() -> (r: Option<usize>)
        ensures
            r == Self::spec_bootsel_activity_led(),
    ;
}

/// Default configuration.
///
/// This lets both interfaces enabled after reset and does not display mass
/// storage activity on any LED. Its one variant only names the configuration.
pub enum DefaultConfig {
    Marker,
}

impl Config for DefaultConfig {
    open spec fn spec_interface_disable() -> DisableInterface {
        DisableInterface::NoDisable
    }

    open spec fn spec_bootsel_activity_led() -> Option<usize> {
        None
    }

    fn interface_disable() -> (r: DisableInterface) {
        DisableInterface::NoDisable
    }

    fn bootsel_activity_led() -> (r: Option<usize>) {
        None
    }
}

} // verus!
