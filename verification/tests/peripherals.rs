//! The peripheral lifecycle: gate-guarded enabling, the UART frequency
//! predicate, pin claiming and the transmit typestate.

use teensy40::ccm::{Ccm, CcmInit, ClockError, ClockGate, UartClockInput};
use teensy40::iomuxc::{GpioAdB0_02, Iomuxc, PinError};
use teensy40::lpuart::Uart6;

/// A tree whose UART mux points at the given source with the given
/// post-divider, with the USB PLL control register as given and every gate
/// disabled.
fn tree_with_uart_clock(init: &mut CcmInit, input: UartClockInput, divisor: u32, pll_usb1: u32) -> Ccm {
    let cscdr1 = (input.code() << 6) | (divisor - 1);
    let r = Ccm::new(
        init,
        0x0000_0000,
        0x000C_0000,
        cscdr1,
        0x0000_0000,
        vec![0u32; 8],
        0x0000_2000,
        pll_usb1,
    );
    match r {
        Ok(ccm) => ccm,
        Err(_) => panic!("fresh construction must succeed"),
    }
}

/// USB PLL powered and enabled, multiplier twenty.
const PLL_RUNNING_X20: u32 = 0x0000_3000;

/// USB PLL powered and enabled, multiplier twenty-two.
const PLL_RUNNING_X22: u32 = 0x0000_3002;

/// USB PLL powered down, multiplier twenty-two.
const PLL_OFF: u32 = 0x0000_0002;

#[test]
fn enable_on_taken_gate_is_rejected() {
    let mut init = CcmInit::new();
    let mut ccm = tree_with_uart_clock(&mut init, UartClockInput::Oscillator, 1, PLL_RUNNING_X20);
    ccm.set_clock_gate((3, 3), ClockGate::Enabled);
    let r = ccm.enable::<Uart6>();
    assert!(matches!(r, Err(ClockError::InUse)));
    // The module's gate did not move.
    assert_eq!(ccm.clock_gate((3, 3)), ClockGate::Enabled);

    ccm.set_clock_gate((3, 3), ClockGate::EnabledDuringWake);
    assert!(matches!(ccm.enable::<Uart6>(), Err(ClockError::InUse)));
    assert_eq!(ccm.clock_gate((3, 3)), ClockGate::EnabledDuringWake);
}

#[test]
fn enable_uart_on_oscillator_path() {
    let mut init = CcmInit::new();
    let mut ccm = tree_with_uart_clock(&mut init, UartClockInput::Oscillator, 1, PLL_OFF);
    let uart = ccm.enable::<Uart6>();
    assert!(uart.is_ok());
    assert_eq!(ccm.clock_gate((3, 3)), ClockGate::Enabled);
    // Releasing the module clears its gate again.
    match uart {
        Ok(u) => ccm.disable(u),
        Err(_) => unreachable!(),
    }
    assert_eq!(ccm.clock_gate((3, 3)), ClockGate::Disabled);
}

#[test]
fn enable_uart_on_underdivided_pll_path_is_too_fast() {
    let mut init = CcmInit::new();
    let mut ccm =
        tree_with_uart_clock(&mut init, UartClockInput::Usb1PllOverSix, 1, PLL_RUNNING_X22);
    let r = ccm.enable::<Uart6>();
    assert!(matches!(r, Err(ClockError::TooFast)));
    assert_eq!(ccm.clock_gate((3, 3)), ClockGate::Disabled);
}

#[test]
fn enable_uart_on_divided_pll_path() {
    let mut init = CcmInit::new();
    let mut ccm =
        tree_with_uart_clock(&mut init, UartClockInput::Usb1PllOverSix, 2, PLL_RUNNING_X22);
    assert!(ccm.enable::<Uart6>().is_ok());
}

#[test]
fn enable_uart_on_slow_pll_path() {
    let mut init = CcmInit::new();
    // The smaller multiplier lands exactly on the rating, so no
    // post-division is needed.
    let mut ccm =
        tree_with_uart_clock(&mut init, UartClockInput::Usb1PllOverSix, 1, PLL_RUNNING_X20);
    assert!(ccm.enable::<Uart6>().is_ok());
}

#[test]
fn enable_uart_on_disabled_pll_path() {
    let mut init = CcmInit::new();
    let mut ccm = tree_with_uart_clock(&mut init, UartClockInput::Usb1PllOverSix, 2, PLL_OFF);
    let r = ccm.enable::<Uart6>();
    assert!(matches!(r, Err(ClockError::Disabled)));
    assert_eq!(ccm.clock_gate((3, 3)), ClockGate::Disabled);
}

#[test]
fn usb1_pll_reads() {
    let mut init = CcmInit::new();
    let ccm = tree_with_uart_clock(&mut init, UartClockInput::Oscillator, 1, PLL_RUNNING_X22);
    assert!(ccm.usb1_pll().enabled(&ccm));
    assert_eq!(
        ccm.usb1_pll().multiplier(&ccm),
        teensy40::ccm::PeripheralPllMultiplier::TwentyTwo
    );
    let mut init2 = CcmInit::new();
    let ccm2 = tree_with_uart_clock(&mut init2, UartClockInput::Oscillator, 1, PLL_OFF);
    assert!(!ccm2.usb1_pll().enabled(&ccm2));
}

#[test]
fn pin_double_claim_is_rejected() {
    let mut init = CcmInit::new();
    let mut ccm = tree_with_uart_clock(&mut init, UartClockInput::Oscillator, 1, PLL_RUNNING_X20);
    let mut iomux: Iomuxc = match ccm.enable::<Iomuxc>() {
        Ok(m) => m,
        Err(_) => panic!("the pin controller's gate is free"),
    };
    assert_eq!(ccm.clock_gate((4, 1)), ClockGate::Enabled);
    let first = iomux.get_pin::<GpioAdB0_02>();
    assert!(first.is_ok());
    let second = iomux.get_pin::<GpioAdB0_02>();
    assert!(matches!(second, Err(PinError::InUse)));
}

#[test]
fn pin_binds_to_uart_tx_function() {
    let mut init = CcmInit::new();
    let mut ccm = tree_with_uart_clock(&mut init, UartClockInput::Oscillator, 1, PLL_RUNNING_X20);
    let mut iomux: Iomuxc = ccm.enable::<Iomuxc>().ok().unwrap();
    // At reset the pad is routed to its GPIO function.
    assert_eq!(iomux.ad_b0_02_mux_raw(), 5);
    let pin = match iomux.get_pin::<GpioAdB0_02>() {
        Ok(p) => p,
        Err(_) => panic!("the pad is unclaimed"),
    };
    let _tx = pin.into_lpuart_tx(&mut iomux);
    assert_eq!(iomux.ad_b0_02_mux_raw(), 2);
}

#[test]
fn uart_set_clocks_writes_baud_fields() {
    let mut init = CcmInit::new();
    let mut ccm = tree_with_uart_clock(&mut init, UartClockInput::Oscillator, 1, PLL_RUNNING_X20);
    let mut uart: Uart6 = ccm.enable::<Uart6>().ok().unwrap();
    assert_eq!(uart.baud_raw(), 0x0F00_0004);
    uart.set_clocks(250, 10);
    // Oversample field holds nine, divisor field holds two hundred fifty.
    assert_eq!(uart.baud_raw(), (9 << 24) | 250);
}

#[test]
fn uart_transmit_typestate() {
    let mut init = CcmInit::new();
    let mut ccm = tree_with_uart_clock(&mut init, UartClockInput::Oscillator, 1, PLL_RUNNING_X20);
    let mut iomux: Iomuxc = ccm.enable::<Iomuxc>().ok().unwrap();
    let tx_pin = iomux.get_pin::<GpioAdB0_02>().ok().unwrap().into_lpuart_tx(&mut iomux);
    let mut uart: Uart6 = ccm.enable::<Uart6>().ok().unwrap();
    uart.set_clocks(250, 10);
    assert_eq!(uart.ctrl_raw(), 0);
    let (mut uart, _old_tx) = uart.set_tx(tx_pin);
    // The transmitter-enable bit is set, nothing else moved.
    assert_eq!(uart.ctrl_raw(), 1 << 19);
    uart.send(0x55);
    assert_eq!(uart.data_raw(), 0x55);
    uart.send(0xA7);
    assert_eq!(uart.data_raw(), 0xA7);
}
