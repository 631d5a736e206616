//! The clock tree: construction, selector round trips, gate table,
//! dependency gating and the sanitization sequence.

use teensy40::ccm::{
    Ccm, CcmInit, ClockError, ClockGate, FatalError, PeriphClock2Input, PeriphClockInput,
    PrePeriphClockInput, UartClockInput,
};

/// A freshly booted tree: core clock on the primary feeder, primary feeder
/// on the ARM PLL, secondary feeder on the USB PLL, every gate disabled,
/// ARM PLL running, USB PLL running at the smaller multiplier.
fn fresh_tree(init: &mut CcmInit) -> Ccm {
    let r = Ccm::new(
        init,
        0x0000_0000,            // cbcdr: primary selector on the primary feeder
        0x000C_0000,            // cbcmr: primary feeder on the ARM PLL, secondary on the USB PLL
        0x0000_0000,            // cscdr1: UART mux on the PLL path, divisor one
        0x0000_0000,            // cdhipr: no handshake pending
        vec![0u32; 8],          // ccgr: every gate disabled
        0x0000_2000,            // pll_arm: enabled, no bypass, powered
        0x0000_3000,            // pll_usb1: powered and enabled, multiplier twenty
    );
    match r {
        Ok(ccm) => ccm,
        Err(_) => panic!("fresh construction must succeed"),
    }
}

#[test]
fn construction_reads_initial_registers() {
    let mut init = CcmInit::new();
    let ccm = fresh_tree(&mut init);
    assert_eq!(ccm.cbcdr_raw(), 0x0000_0000);
    assert_eq!(ccm.cbcmr_raw(), 0x000C_0000);
    assert_eq!(ccm.cscdr1_raw(), 0x0000_0000);
    assert_eq!(ccm.cdhipr_raw(), 0x0000_0000);
    for reg in 0..8 {
        assert_eq!(ccm.ccgr_raw(reg), 0);
    }
    assert_eq!(ccm.pll_arm_raw(), 0x0000_2000);
    assert_eq!(ccm.pll_usb1_raw(), 0x0000_3000);
}

#[test]
fn second_construction_is_rejected() {
    let mut init = CcmInit::new();
    let first = fresh_tree(&mut init);
    let before = (first.cbcdr_raw(), first.cbcmr_raw(), first.pll_arm_raw());
    let second = Ccm::new(
        &mut init,
        0xFFFF_FFFF & !(0x3 << 12),
        0,
        0,
        0,
        vec![0u32; 8],
        0,
        0,
    );
    assert!(matches!(second, Err(FatalError::AlreadyConstructed)));
    // Nothing reachable from the first instance moved.
    assert_eq!(before, (first.cbcdr_raw(), first.cbcmr_raw(), first.pll_arm_raw()));
}

#[test]
fn periph_selector_round_trip() {
    let mut init = CcmInit::new();
    let mut ccm = fresh_tree(&mut init);
    let sel = ccm.periph_clock_selector_mut();
    sel.set_input(&mut ccm, PeriphClockInput::PeriphClock2);
    assert_eq!(ccm.periph_clock_selector().input(&ccm), PeriphClockInput::PeriphClock2);
    assert_eq!(ccm.cbcdr_raw(), 1 << 25);
    sel.set_input(&mut ccm, PeriphClockInput::PrePeriphClock);
    assert_eq!(ccm.periph_clock_selector().input(&ccm), PeriphClockInput::PrePeriphClock);
    assert_eq!(ccm.cbcdr_raw(), 0);
}

#[test]
fn periph2_selector_round_trip() {
    let mut init = CcmInit::new();
    let mut ccm = fresh_tree(&mut init);
    let all = [
        PeriphClock2Input::SystemPllBypass,
        PeriphClock2Input::Usb1Pll,
        PeriphClock2Input::Oscillator,
    ];
    for v in all {
        let sel = match ccm.periph_clock2_selector_mut() {
            Ok(s) => s,
            Err(_) => panic!("secondary feeder must be free"),
        };
        sel.set_input(&mut ccm, v);
        assert_eq!(sel.input(&ccm), v);
        // The primary feeder's field in the shared register is untouched.
        assert_eq!(ccm.pre_periph_clock_selector().input(&ccm), PrePeriphClockInput::ArmPll);
    }
}

#[test]
fn pre_periph_selector_round_trip() {
    let mut init = CcmInit::new();
    let mut ccm = fresh_tree(&mut init);
    // Park the core clock on the secondary feeder so the primary feeder is
    // free to change.
    let primary = ccm.periph_clock_selector_mut();
    primary.set_input(&mut ccm, PeriphClockInput::PeriphClock2);
    let all = [
        PrePeriphClockInput::SystemPll,
        PrePeriphClockInput::SystemPllPfd2,
        PrePeriphClockInput::SystemPllPfd0,
        PrePeriphClockInput::ArmPll,
    ];
    for v in all {
        let sel = match ccm.pre_periph_clock_selector_mut() {
            Ok(s) => s,
            Err(_) => panic!("primary feeder must be free"),
        };
        sel.set_input(&mut ccm, v);
        assert_eq!(sel.input(&ccm), v);
        // The secondary feeder's field in the shared register is untouched.
        assert_eq!(ccm.periph_clock2_selector().input(&ccm), PeriphClock2Input::Usb1Pll);
    }
}

#[test]
fn uart_selector_round_trip() {
    let mut init = CcmInit::new();
    let mut ccm = fresh_tree(&mut init);
    let sel = match ccm.uart_clock_selector_mut() {
        Ok(s) => s,
        Err(_) => panic!("all UART gates are disabled"),
    };
    sel.set_input(&mut ccm, UartClockInput::Oscillator);
    assert_eq!(sel.input(&ccm), UartClockInput::Oscillator);
    sel.set_divisor(&mut ccm, 5);
    assert_eq!(sel.divisor(&ccm), 5);
    // sel bit 6 set, divisor field holds divisor minus one.
    assert_eq!(ccm.cscdr1_raw(), (1 << 6) | 4);
    sel.set_input(&mut ccm, UartClockInput::Usb1PllOverSix);
    assert_eq!(sel.input(&ccm), UartClockInput::Usb1PllOverSix);
    assert_eq!(sel.divisor(&ccm), 5);
    sel.set_divisor(&mut ccm, 64);
    assert_eq!(sel.divisor(&ccm), 64);
    sel.set_divisor(&mut ccm, 1);
    assert_eq!(sel.divisor(&ccm), 1);
    assert_eq!(ccm.cscdr1_raw(), 0);
}

#[test]
fn gate_round_trip_all_states() {
    let mut init = CcmInit::new();
    let mut ccm = fresh_tree(&mut init);
    let gate = (3, 3);
    for state in [ClockGate::Enabled, ClockGate::EnabledDuringWake, ClockGate::Disabled] {
        ccm.set_clock_gate(gate, state);
        assert_eq!(ccm.clock_gate(gate), state);
    }
    // The highest coordinates that exist: the top field of the last
    // register.
    let last = (7, 15);
    ccm.set_clock_gate(last, ClockGate::Enabled);
    assert_eq!(ccm.clock_gate(last), ClockGate::Enabled);
    assert_eq!(ccm.ccgr_raw(7), 0x3 << 30);
    ccm.set_clock_gate(last, ClockGate::Disabled);
    assert_eq!(ccm.clock_gate(last), ClockGate::Disabled);
    assert_eq!(ccm.ccgr_raw(7), 0);
}

#[test]
fn gate_set_preserves_siblings() {
    let mut init = CcmInit::new();
    let mut ccm = Ccm::new(
        &mut init,
        0,
        0,
        0,
        0,
        vec![0, 0, 0, 0xAAAA_AAAA, 0, 0, 0, 0x5555_5555],
        0,
        0,
    )
    .ok()
    .unwrap();
    ccm.set_clock_gate((3, 3), ClockGate::Enabled);
    // Field three is bits six and seven: 0xAA becomes 0xEA.
    assert_eq!(ccm.ccgr_raw(3), 0xAAAA_AAEA);
    assert_eq!(ccm.clock_gate((3, 3)), ClockGate::Enabled);
    // Sibling fields in the same register and other registers are untouched.
    assert_eq!(ccm.clock_gate((3, 2)), ClockGate::EnabledDuringWake);
    assert_eq!(ccm.clock_gate((3, 4)), ClockGate::EnabledDuringWake);
    assert_eq!(ccm.ccgr_raw(7), 0x5555_5555);
    assert_eq!(ccm.ccgr_raw(0), 0);
}

#[test]
fn gate_reads_firmware_reserved_pattern() {
    let mut init = CcmInit::new();
    let ccm = Ccm::new(&mut init, 0, 0, 0, 0, vec![0b10, 0, 0, 0, 0, 0, 0, 0], 0, 0)
        .ok()
        .unwrap();
    assert_eq!(ccm.clock_gate((0, 0)), ClockGate::EnabledDuringWake);
}

#[test]
fn feeder_mux_gating() {
    let mut init = CcmInit::new();
    let mut ccm = fresh_tree(&mut init);
    // The core clock runs through the primary feeder: that feeder is in
    // use, the secondary one is free.
    assert!(matches!(ccm.pre_periph_clock_selector_mut(), Err(ClockError::InUse)));
    assert!(ccm.periph_clock2_selector_mut().is_ok());
    // Repoint the primary selector at the secondary feeder: the gating
    // flips.
    let primary = ccm.periph_clock_selector_mut();
    primary.set_input(&mut ccm, PeriphClockInput::PeriphClock2);
    assert!(ccm.pre_periph_clock_selector_mut().is_ok());
    assert!(matches!(ccm.periph_clock2_selector_mut(), Err(ClockError::InUse)));
}

#[test]
fn arm_pll_gating() {
    let mut init = CcmInit::new();
    let mut ccm = fresh_tree(&mut init);
    // Primary feeder selects the ARM PLL and the core runs through it.
    assert!(matches!(ccm.arm_pll_mut(), Err(ClockError::InUse)));
    let primary = ccm.periph_clock_selector_mut();
    primary.set_input(&mut ccm, PeriphClockInput::PeriphClock2);
    assert!(ccm.arm_pll_mut().is_ok());
}

#[test]
fn uart_selector_gating() {
    let mut init = CcmInit::new();
    let mut ccm = fresh_tree(&mut init);
    ccm.set_clock_gate((3, 3), ClockGate::Enabled);
    assert!(matches!(ccm.uart_clock_selector_mut(), Err(ClockError::InUse)));
    ccm.set_clock_gate((3, 3), ClockGate::Disabled);
    assert!(ccm.uart_clock_selector_mut().is_ok());
}

#[test]
fn arm_pll_disable_sequence() {
    let mut init = CcmInit::new();
    let mut ccm = fresh_tree(&mut init);
    let primary = ccm.periph_clock_selector_mut();
    primary.set_input(&mut ccm, PeriphClockInput::PeriphClock2);
    let pll = match ccm.arm_pll_mut() {
        Ok(p) => p,
        Err(_) => panic!("the ARM PLL must be free"),
    };
    pll.disable(&mut ccm);
    assert!(pll.bypassed(&ccm));
    assert!(!pll.enabled(&ccm));
    assert!(pll.powered_down(&ccm));
    // bypass and powerdown set, enable cleared.
    assert_eq!(ccm.pll_arm_raw(), 0x0001_1000);
}

#[test]
fn sanitize_fresh_tree() {
    let mut init = CcmInit::new();
    let mut ccm = fresh_tree(&mut init);
    let ccgr_before: Vec<u32> = (0..8).map(|i| ccm.ccgr_raw(i)).collect();
    let cscdr1_before = ccm.cscdr1_raw();
    assert!(ccm.sanitize().is_ok());
    // The core clock now runs off the secondary feeder, which points at
    // the oscillator, and the ARM PLL is shut down.
    assert_eq!(ccm.periph_clock_selector().input(&ccm), PeriphClockInput::PeriphClock2);
    assert_eq!(ccm.periph_clock2_selector().input(&ccm), PeriphClock2Input::Oscillator);
    assert_eq!(ccm.pre_periph_clock_selector().input(&ccm), PrePeriphClockInput::ArmPll);
    let pll = match ccm.arm_pll_mut() {
        Ok(p) => p,
        Err(_) => panic!("the ARM PLL is free after sanitization"),
    };
    assert!(pll.bypassed(&ccm));
    assert!(!pll.enabled(&ccm));
    assert!(pll.powered_down(&ccm));
    // Gates and the UART clock are untouched.
    for (i, before) in ccgr_before.iter().enumerate() {
        assert_eq!(ccm.ccgr_raw(i), *before);
    }
    assert_eq!(ccm.cscdr1_raw(), cscdr1_before);
}

#[test]
fn sanitize_rejects_unexpected_tree() {
    let mut init = CcmInit::new();
    // The core clock already runs off the secondary feeder: the first
    // sanitization step's gating reports the dependency.
    let mut ccm = Ccm::new(
        &mut init,
        1 << 25,
        0x000C_0000,
        0,
        0,
        vec![0u32; 8],
        0x0000_2000,
        0x0000_3000,
    )
    .ok()
    .unwrap();
    assert!(matches!(ccm.sanitize(), Err(ClockError::InUse)));
    // Nothing moved.
    assert_eq!(ccm.cbcdr_raw(), 1 << 25);
    assert_eq!(ccm.cbcmr_raw(), 0x000C_0000);
    assert_eq!(ccm.pll_arm_raw(), 0x0000_2000);
}
