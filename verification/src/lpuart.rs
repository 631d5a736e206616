//! Low Power Universal Asynchronous Receiver / Transmitter
//!
//! The LPUART modules provide the most basic serial data transfer. The
//! sixth module is the one routed to this board's primary serial header;
//! its enable protocol, baud configuration and transmit typestate are
//! modelled here. A UART instance is materialized through [`Ccm::enable`],
//! which consults [`uart_clock_ok`] first: the module is rated for input
//! clocks up to [`UART_MAX_HZ`].

use vstd::prelude::*;

use crate::ccm::{Ccm, CcmView, ClockError, ClockGated, UartClockInput};
use crate::reg::{
    bit_get, field_get, field_mask, field_set, get_bit_u32, lemma_field_set_frame,
    lemma_field_set_get, set_bit_u32, set_bits_u32, vol_new, vol_read, vol_val, vol_write,
};

verus! {

/// The frequency of the reference oscillator, in hertz.
pub const OSCILLATOR_HZ: u32 = 24_000_000;

/// The highest input frequency a UART module is rated for, in hertz.
pub const UART_MAX_HZ: u32 = 80_000_000;

/// The fixed divider between the first USB PLL and the UART clock mux.
pub const UART_PLL_DIVIDER: u32 = 6;

/// The frequency the UART clock mux delivers when it selects the USB PLL
/// path: the multiplied reference, over the fixed divider, over the mux's
/// post-divider.
pub open spec fn uart_pll_input_hz(v: CcmView) -> int {
    OSCILLATOR_HZ * v.usb1_pll_multiplier().factor_spec() / (UART_PLL_DIVIDER as int) / (
    v.uart_divisor() as int)
}

/// The UART frequency-validity predicate: the oscillator path is always
/// safe; the USB PLL path is safe when that PLL is running and the
/// delivered frequency does not exceed the module's rating. With the
/// larger multiplier and no post-division the path is over the rating and
/// is rejected.
pub open spec fn uart_clock_ok(v: CcmView) -> bool {
    match v.uart_input() {
        UartClockInput::Oscillator => true,
        UartClockInput::Usb1PllOverSix => v.usb1_pll_enabled() && uart_pll_input_hz(v)
            <= UART_MAX_HZ,
    }
}

/// The error the UART predicate reports for an unsafe tree: the source PLL
/// is off, or else the delivered frequency is over the rating.
pub open spec fn uart_clock_err(v: CcmView) -> ClockError {
    if !v.usb1_pll_enabled() {
        ClockError::Disabled
    } else {
        ClockError::TooFast
    }
}

/// The register state of one UART module.
pub struct LpUartView {
    /// The baud rate register: oversampling ratio and divisor fields.
    pub baud: u32,
    /// The status register; bit 22 is transmission-complete.
    pub stat: u32,
    /// The control register; bit 19 is transmitter-enable.
    pub ctrl: u32,
    /// The transmit data register.
    pub data: u32,
}

impl LpUartView {
    /// The configured oversampling ratio: the stored field plus one.
    pub open spec fn oversample(self) -> u32 {
        (field_get(self.baud, 24, 5) + 1) as u32
    }

    /// The configured baud divisor field.
    pub open spec fn divisor(self) -> u32 {
        field_get(self.baud, 0, 13)
    }

    /// Whether the transmitter is enabled.
    pub open spec fn tx_enabled(self) -> bool {
        bit_get(self.ctrl, 19)
    }

    /// Well-formedness: no transmission is pending, so the
    /// transmission-complete flag is set. A fresh module starts idle and
    /// the modelled store holds quiescent state, so every operation
    /// preserves this.
    pub open spec fn wf(self) -> bool {
        bit_get(self.stat, 22)
    }
}

/// Marker trait for a pin that can be used to transmit via LPUART6.
pub trait LpUart6Tx {
}

/// Marker trait for a pin that can be used to receive via LPUART6.
pub trait LpUart6Rx {
}

impl LpUart6Tx for crate::iomuxc::GpioAdB0_02LpUartTx {

}

/// The sixth LPUART module.
///
/// The two type parameters carry the configuration typestate: a module
/// starts as `LpUart6<(), ()>` (no pins bound), and binding a transmit or
/// receive pin moves the pin's type into the parameter. Only a module with
/// a transmit pin bound can send.
pub struct LpUart6<T, R> {
    baud: volatile::Volatile<u32>,
    stat: volatile::Volatile<u32>,
    ctrl: volatile::Volatile<u32>,
    data: volatile::Volatile<u32>,
    tx: T,
    rx: R,
}

/// An LPUART6 with no pins bound, as [`Ccm::enable`] materializes it.
pub type Uart6 = LpUart6<(), ()>;

/// The reset value of the baud rate register.
pub const LPUART_BAUD_RESET: u32 = 0x0F00_0004;

/// The reset value of the status register: transmission complete and
/// transmit data register empty.
pub const LPUART_STAT_RESET: u32 = 0x00C0_0000;

impl<T, R> View for LpUart6<T, R> {
    type V = LpUartView;

    closed spec fn view(&self) -> LpUartView {
        LpUartView {
            baud: vol_val(self.baud),
            stat: vol_val(self.stat),
            ctrl: vol_val(self.ctrl),
            data: vol_val(self.data),
        }
    }
}

impl ClockGated for LpUart6<(), ()> {
    open spec fn gate_spec() -> (usize, usize) {
        (3, 3)
    }

    open spec fn clock_ok(v: CcmView) -> bool {
        uart_clock_ok(v)
    }

    open spec fn clock_err(v: CcmView) -> ClockError {
        uart_clock_err(v)
    }

    /// A fresh module holds its documented reset state, and in particular
    /// is idle.
    open spec fn fresh(r: Self) -> bool {
        &&& r@ == (LpUartView {
            baud: LPUART_BAUD_RESET,
            stat: LPUART_STAT_RESET,
            ctrl: 0,
            data: 0,
        })
        &&& r@.wf()
    }

    fn gate() -> (g: (usize, usize)) {
        (3, 3)
    }

    /// For a UART, the final input frequency must be at most the module's
    /// rating. If the selected clock is the oscillator, this is always
    /// true. If it is the USB PLL, the PLL must be running and, when it is
    /// overclocked to the larger multiplier, the post-divider must bring
    /// the frequency back under the rating. To set the clock source and
    /// divider, use the `UART_CLK_SEL` mux.
    fn check_clock(ccm: &Ccm) -> (r: Result<(), ClockError>) {
        match ccm.uart_clock_selector().input(ccm) {
            UartClockInput::Oscillator => Ok(()),
            UartClockInput::Usb1PllOverSix => {
                if !ccm.usb1_pll().enabled(ccm) {
                    Err(ClockError::Disabled)
                } else {
                    let factor = ccm.usb1_pll().multiplier(ccm).factor();
                    let divisor = ccm.uart_clock_selector().divisor(ccm);
                    let hz = OSCILLATOR_HZ / UART_PLL_DIVIDER * factor / divisor;
                    proof {
                        assert(hz == uart_pll_input_hz(ccm@)) by (nonlinear_arith)
                            requires
                                hz == 4_000_000 * factor / (divisor as int),
                                uart_pll_input_hz(ccm@) == 24_000_000 * factor / 6 / (
                                divisor as int),
                                factor == 20 || factor == 22,
                                1 <= divisor <= 64,
                        ;
                    }
                    if hz > UART_MAX_HZ {
                        Err(ClockError::TooFast)
                    } else {
                        Ok(())
                    }
                }
            },
        }
    }

    fn enable() -> (r: Self) {
        let r = LpUart6 {
            baud: vol_new(LPUART_BAUD_RESET),
            stat: vol_new(LPUART_STAT_RESET),
            ctrl: vol_new(0),
            data: vol_new(0),
            tx: (),
            rx: (),
        };
        proof {
            assert(bit_get(0x00C0_0000u32, 22)) by (bit_vector);
        }
        r
    }

    fn disable(self) {
    }
}

impl LpUart6<(), ()> {
    /// Set the oversampling ratio and baud divisor.
    ///
    /// This can only be done for a UART which has not had a TX or RX pin
    /// assigned. The hardware stores the ratio minus one in a five-bit
    /// field and the divisor in a thirteen-bit field.
    pub fn set_clocks(&mut self, divisor: u32, oversample: u32)
        requires
            1 <= oversample <= 32,
            divisor < 0x2000,
        ensures
            final(self)@ == (LpUartView {
                baud: field_set(
                    field_set(old(self)@.baud, 24, 5, (oversample - 1) as u32),
                    0,
                    13,
                    divisor,
                ),
                ..old(self)@
            }),
            final(self)@.oversample() == oversample,
            final(self)@.divisor() == divisor,
            final(self)@.wf() == old(self)@.wf(),
    {
        let raw = vol_read(&self.baud);
        proof {
            assert(field_mask(5) == 31 && field_mask(13) == 0x1fff) by (bit_vector);
        }
        // baud[osr]
        let with_osr = set_bits_u32(raw, 24, 5, oversample - 1);
        // baud[sbr]
        let updated = set_bits_u32(with_osr, 0, 13, divisor);
        vol_write(&mut self.baud, updated);
        proof {
            lemma_field_set_get(raw, 24, 5, (oversample - 1) as u32);
            lemma_field_set_get(with_osr, 0, 13, divisor);
            lemma_field_set_frame(with_osr, 0, 13, divisor, 24, 5);
        }
    }
}

impl<T, R> LpUart6<T, R> {
    /// The raw value of the baud rate register.
    pub fn baud_raw(&self) -> (r: u32)
        ensures
            r == self@.baud,
    {
        vol_read(&self.baud)
    }

    /// The raw value of the status register.
    pub fn stat_raw(&self) -> (r: u32)
        ensures
            r == self@.stat,
    {
        vol_read(&self.stat)
    }

    /// The raw value of the control register.
    pub fn ctrl_raw(&self) -> (r: u32)
        ensures
            r == self@.ctrl,
    {
        vol_read(&self.ctrl)
    }

    /// The raw value of the transmit data register.
    pub fn data_raw(&self) -> (r: u32)
        ensures
            r == self@.data,
    {
        vol_read(&self.data)
    }

    /// Set the transmit pin.
    ///
    /// This updates the typestate of this UART to indicate that it is
    /// enabled for transmit, and sets the transmitter-enable control bit.
    /// Being enabled for transmit allows sending data, and blocks updating
    /// the baud rate.
    pub fn set_tx<Tx: LpUart6Tx>(self, tx: Tx) -> (r: (LpUart6<Tx, R>, T))
        ensures
            r.0@ == (LpUartView { ctrl: self@.ctrl | 0x0008_0000, ..self@ }),
            r.0@.tx_enabled(),
            r.0@.wf() == self@.wf(),
    {
        let LpUart6 { baud, stat, mut ctrl, data, tx: old_tx, rx } = self;
        let raw = vol_read(&ctrl);
        // ctrl[te]
        vol_write(&mut ctrl, set_bit_u32(raw, 19, true));
        proof {
            let v = vol_val(ctrl);
            assert(v == raw | 0x0008_0000u32 ==> bit_get(v, 19)) by (bit_vector);
            assert((1u32 << 19) == 0x0008_0000u32) by (bit_vector);
        }
        (LpUart6 { baud, stat, ctrl, data, tx, rx }, old_tx)
    }

    /// Set the receive pin.
    ///
    /// This updates the typestate of this UART to indicate that it is
    /// enabled for receive. Receive is otherwise unimplemented.
    pub fn set_rx<Rx: LpUart6Rx>(self, rx: Rx) -> (r: (LpUart6<T, Rx>, R))
        ensures
            r.0@ == self@,
    {
        let LpUart6 { baud, stat, ctrl, data, tx, rx: old_rx } = self;
        (LpUart6 { baud, stat, ctrl, data, tx, rx }, old_rx)
    }
}

impl<T: LpUart6Tx, R> LpUart6<T, R> {
    /// Send a byte of data across this UART.
    ///
    /// This can only be done once a transmit pin has been set. The method
    /// blocks until the UART reports the transmission complete; the
    /// modelled store holds quiescent state, so the flag is already set.
    pub fn send(&mut self, byte: u8)
        requires
            old(self)@.wf(),
        ensures
            final(self)@ == (LpUartView { data: byte as u32, ..old(self)@ }),
            final(self)@.wf(),
    {
        vol_write(&mut self.data, byte as u32);
        // stat[tc]: TC is set when there is no pending data to be sent.
        let ghost settled = *self;
        while !get_bit_u32(vol_read(&self.stat), 22)
            invariant
                *self == settled,
                bit_get(vol_val(self.stat), 22),
            decreases 0int,
        {
        }
    }
}

} // verus!
