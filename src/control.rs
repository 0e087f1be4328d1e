use core::marker::PhantomData;

use vstd::prelude::*;

use crate::config::{Config, DisableInterface};
use crate::request::{ControlRequest, Recipient, RequestType};
use crate::reset::{boot_args, feature_flags, gpio_mask, BootArgs, RESET_REQUEST_BOOTSEL};

verus! {

/// USB class code of a vendor-specific function.
pub const CLASS_VENDOR_SPECIFIC: u8 = 0xFF;

/// Sub-class of the reset interface, as picotool looks for it.
pub const RESET_INTERFACE_SUBCLASS: u8 = 0x00;

/// Protocol of the reset interface, as picotool looks for it.
pub const RESET_INTERFACE_PROTOCOL: u8 = 0x01;

/// The characters of the interface's name, served as its string descriptor.
pub open spec fn interface_name() -> Seq<char> {
    seq!['R', 'e', 's', 'e', 't']
}

/// The registered reset interface: its identity on the bus and the
/// configuration that a reset request is answered with.
#[derive(Debug, PartialEq, Eq, Clone, Copy, Structural)]
pub struct Control {
    /// Interface number assigned at enumeration.
    pub intf: u8,
    /// String descriptor index of the interface's name.
    pub str_idx: u8,
    /// Bootloader interfaces to disable after reset.
    pub interface_disable: DisableInterface,
    /// Pin that shows mass storage activity after reset, if any.
    pub activity_led: Option<usize>,
}

/// What to do with a control OUT transfer.
#[derive(Debug, PartialEq, Eq, Clone, Copy, Structural)]
pub enum ControlOutcome {
    /// The request is not addressed to this interface: leave it to other handlers.
    NotMine,
    /// The request is addressed to this interface but not understood: stall it.
    Rejected,
    /// Reboot into the USB bootloader with these arguments; this never returns.
    ResetToBootloader(BootArgs),
}

/// Whether `req` is a class request addressed to interface number `intf`.
pub open spec fn addressed_to(req: ControlRequest, intf: u8) -> bool {
    &&& req.request_type == RequestType::Class
    &&& req.recipient == Recipient::Interface
    &&& req.index == intf as u16
}

/// The answer of the registered interface `c` to the control OUT request `req`.
pub open spec fn outcome(c: Control, req: ControlRequest) -> ControlOutcome {
    if !addressed_to(req, c.intf) {
        ControlOutcome::NotMine
    } else if req.request == RESET_REQUEST_BOOTSEL {
        ControlOutcome::ResetToBootloader(
            BootArgs {
                gpio_mask: gpio_mask(req.value, c.activity_led),
                feature_flags: feature_flags(req.value, c.interface_disable),
            },
        )
    } else {
        ControlOutcome::Rejected
    }
}

impl Control {
    /// Serves the interface's name for its own string index, and nothing for
    /// any other index; the language does not change the answer.
    pub fn get_string(&self, index: u8, lang_id: u16) -> (r: Option<&'static str>)
        ensures
            r is Some <==> index == self.str_idx,
            r matches Some(s) ==> s@ == interface_name(),
    {
        if index == self.str_idx {
            proof {
                reveal_strlit("Reset");
            }
            Some("Reset")
        } else {
            None
        }
    }

    /// Decides what to do with a control OUT request and its data stage.
    ///
    /// The data stage is not inspected: a reset request carries none.
    pub fn control_out(&self, req: ControlRequest, data: &[u8]) -> (r: ControlOutcome)
        ensures
            r == outcome(*self, req),
            !addressed_to(req, self.intf) ==> r == ControlOutcome::NotMine,
            addressed_to(req, self.intf) && req.request != RESET_REQUEST_BOOTSEL
                ==> r == ControlOutcome::Rejected,
    {
        let addressed = req.request_type == RequestType::Class && req.recipient
            == Recipient::Interface && req.index == self.intf as u16;
        if !addressed {
            return ControlOutcome::NotMine;
        }
        if req.request == RESET_REQUEST_BOOTSEL {
            ControlOutcome::ResetToBootloader(
                boot_args(req.value, self.activity_led, self.interface_disable),
            )
        } else {
            ControlOutcome::Rejected
        }
    }
}

/// Why a registration was refused.
#[derive(Debug, PartialEq, Eq, Clone, Copy, Structural)]
pub enum RegisterError {
    /// The state already holds a registered interface.
    AlreadyRegistered,
}

/// Storage for the reset interface of configuration `C`, empty until the
/// interface is registered, and registered at most once.
pub struct State<C: Config> {
    control: Option<Control>,
    cnf: PhantomData<C>,
}

impl<C: Config> State<C> {
    /// The registered interface, if any.
    pub closed spec fn registered(&self) -> Option<Control> {
        self.control
    }

    /// The interface that registering with `str_idx` and `intf` records.
    pub open spec fn control_for(str_idx: u8, intf: u8) -> Control {
        Control {
            intf,
            str_idx,
            interface_disable: C::spec_interface_disable(),
            activity_led: C::spec_bootsel_activity_led(),
        }
    }

    /// Creates a new, empty state.
    pub fn new() -> (r: State<C>)
        ensures
            r.registered() is None,
    {
        State { control: None, cnf: PhantomData }
    }

    /// Records the interface number and name string index that the USB stack
    /// assigned, together with the configuration `C`.
    ///
    /// A state registers once: a second call is refused and changes nothing.
    pub fn register(&mut self, str_idx: u8, intf: u8) -> (r: Result<Control, RegisterError>)
        ensures
            old(self).registered() is None ==> r == Ok::<Control, RegisterError>(
                Self::control_for(str_idx, intf),
            ) && final(self).registered() == Some(Self::control_for(str_idx, intf)),
            old(self).registered() is Some ==> r == Err::<Control, RegisterError>(
                RegisterError::AlreadyRegistered,
            ) && final(self).registered() == old(self).registered(),
    {
        if self.control.is_some() {
            return Err(RegisterError::AlreadyRegistered);
        }
        let control = Control {
            intf,
            str_idx,
            interface_disable: C::interface_disable(),
            activity_led: C::bootsel_activity_led(),
        };
        self.control = Some(control);
        Ok(control)
    }

    /// The registered interface, if any.
    pub fn control(&self) -> (r: Option<Control>)
        ensures
            r == self.registered(),
    {
        self.control
    }
}

} // verus!
