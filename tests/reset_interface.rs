use picotool_reset::{
    boot_args, bootsel_action, pin_mask_of, BootArgs, Control, ControlOutcome, ControlRequest, DefaultConfig,
    DisableInterface, Recipient, RegisterError, RequestType, State, RESET_REQUEST_BOOTSEL,
};

fn control(led: Option<usize>, disable: DisableInterface) -> Control {
    Control { intf: 2, str_idx: 5, interface_disable: disable, activity_led: led }
}

fn request(request: u8, value: u16) -> ControlRequest {
    ControlRequest {
        request_type: RequestType::Class,
        recipient: Recipient::Interface,
        request,
        value,
        index: 2,
        length: 0,
    }
}

fn reset(gpio_mask: u32, feature_flags: u32) -> ControlOutcome {
    ControlOutcome::ResetToBootloader(BootArgs { gpio_mask, feature_flags })
}

#[test]
fn disable_interface_encoding() {
    assert_eq!(DisableInterface::NoDisable.into(), 0);
    assert_eq!(DisableInterface::DisableMassStorage.into(), 1);
    assert_eq!(DisableInterface::DisablePicoBoot.into(), 2);
}

#[test]
fn other_request_types_are_not_mine() {
    let c = control(Some(5), DisableInterface::NoDisable);
    for t in [RequestType::Standard, RequestType::Vendor, RequestType::Reserved] {
        for code in [0u8, 1, 2, 0xFF] {
            let mut req = request(code, 0x0123);
            req.request_type = t;
            assert_eq!(c.control_out(req, &[]), ControlOutcome::NotMine);
        }
    }
}

#[test]
fn other_recipients_are_not_mine() {
    let c = control(None, DisableInterface::NoDisable);
    for r in [Recipient::Device, Recipient::Endpoint, Recipient::Other, Recipient::Reserved] {
        let mut req = request(RESET_REQUEST_BOOTSEL, 0);
        req.recipient = r;
        assert_eq!(c.control_out(req, &[]), ControlOutcome::NotMine);
    }
}

#[test]
fn other_interfaces_are_not_mine() {
    let c = control(None, DisableInterface::NoDisable);
    for index in [0u16, 1, 3, 0x102, 0xFFFF] {
        let mut req = request(RESET_REQUEST_BOOTSEL, 0x0700);
        req.index = index;
        assert_eq!(c.control_out(req, &[]), ControlOutcome::NotMine);
    }
}

#[test]
fn unknown_codes_are_rejected() {
    let c = control(Some(5), DisableInterface::DisablePicoBoot);
    for code in [0u8, 2, 3, 0x7F, 0xFF] {
        assert_eq!(c.control_out(request(code, 0), &[]), ControlOutcome::Rejected);
        assert_eq!(c.control_out(request(code, 0x0700), &[1, 2]), ControlOutcome::Rejected);
    }
}

#[test]
fn reset_uses_configured_led() {
    let c = control(Some(5), DisableInterface::NoDisable);
    assert_eq!(c.control_out(request(0x01, 0x0000), &[]), reset(32, 0));
}

#[test]
fn reset_without_led_has_empty_mask() {
    let c = control(None, DisableInterface::DisableMassStorage);
    assert_eq!(c.control_out(request(0x01, 0x0000), &[]), reset(0, 1));
}

#[test]
fn reset_pin_override_wins() {
    for led in [None, Some(5), Some(0)] {
        let c = control(led, DisableInterface::NoDisable);
        assert_eq!(c.control_out(request(0x01, 0x0700), &[]), reset(8, 0));
    }
}

#[test]
fn reset_pin_bits_without_override_bit_keep_default() {
    let c = control(Some(5), DisableInterface::NoDisable);
    assert_eq!(c.control_out(request(0x01, 0x0600), &[]), reset(32, 0));
}

#[test]
fn reset_flags_combine_with_disable_mask() {
    let c = control(None, DisableInterface::DisablePicoBoot);
    assert_eq!(c.control_out(request(0x01, 0x002A), &[]), reset(0, 0x2A));
    assert_eq!(c.control_out(request(0x01, 0x0028), &[]), reset(0, 0x2A));
    let c = control(None, DisableInterface::DisableMassStorage);
    assert_eq!(c.control_out(request(0x01, 0x002A), &[]), reset(0, 0x2B));
}

#[test]
fn reset_flags_keep_only_low_seven_bits() {
    let c = control(None, DisableInterface::NoDisable);
    assert_eq!(c.control_out(request(0x01, 0x00FF), &[]), reset(0, 0x7F));
    assert_eq!(c.control_out(request(0x01, 0x01FF), &[]), reset(1, 0x7F));
}

#[test]
fn boot_args_exact_values() {
    assert_eq!(
        boot_args(0xFFFF, Some(3), DisableInterface::DisablePicoBoot),
        BootArgs { gpio_mask: 0, feature_flags: 0x7F }
    );
    assert_eq!(
        boot_args(0x3F00 | 0x0100, None, DisableInterface::NoDisable),
        BootArgs { gpio_mask: 1 << 31, feature_flags: 0 }
    );
    assert_eq!(
        boot_args(0x0000, Some(29), DisableInterface::DisableMassStorage),
        BootArgs { gpio_mask: 1 << 29, feature_flags: 1 }
    );
}

#[test]
fn pin_mask_bounds() {
    assert_eq!(pin_mask_of(0), 1);
    assert_eq!(pin_mask_of(5), 32);
    assert_eq!(pin_mask_of(31), 0x8000_0000);
    assert_eq!(pin_mask_of(32), 0);
    assert_eq!(pin_mask_of(usize::MAX), 0);
}

#[test]
fn large_configured_led_gives_empty_mask() {
    let c = control(Some(40), DisableInterface::NoDisable);
    assert_eq!(c.control_out(request(0x01, 0), &[]), reset(0, 0));
}

#[test]
fn string_served_only_at_own_index() {
    let c = control(None, DisableInterface::NoDisable);
    for lang in [0u16, 0x0409, 0xFFFF] {
        assert_eq!(c.get_string(5, lang), Some("Reset"));
        for index in [0u8, 4, 6, 0xFF] {
            assert_eq!(c.get_string(index, lang), None);
        }
    }
}

#[test]
fn new_state_is_unregistered() {
    let s: State<DefaultConfig> = State::new();
    assert_eq!(s.control(), None);
}

#[test]
fn register_records_identity_and_config() {
    let mut s: State<DefaultConfig> = State::new();
    let expected = Control {
        intf: 1,
        str_idx: 4,
        interface_disable: DisableInterface::NoDisable,
        activity_led: None,
    };
    assert_eq!(s.register(4, 1), Ok(expected));
    assert_eq!(s.control(), Some(expected));
    let c = s.control().unwrap();
    assert_eq!(c.get_string(4, 0x0409), Some("Reset"));
    let mut req = request(0x01, 0);
    req.index = 1;
    assert_eq!(c.control_out(req, &[]), reset(0, 0));
}

#[test]
fn second_registration_is_refused() {
    let mut s: State<DefaultConfig> = State::new();
    assert!(s.register(4, 1).is_ok());
    assert_eq!(s.register(7, 3), Err(RegisterError::AlreadyRegistered));
    assert_eq!(s.control().map(|c| (c.str_idx, c.intf)), Some((4, 1)));
}

#[test]
fn bootsel_press_reboots_without_mass_storage() {
    assert_eq!(bootsel_action(true), Some(BootArgs { gpio_mask: 0, feature_flags: 1 }));
    assert_eq!(bootsel_action(false), None);
}
