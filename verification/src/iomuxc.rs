//! The Input/Output Multiplexer Controller
//!
//! The IOMUXC is responsible for mapping pins to individual hardware I/O
//! units. Each pad is claimed at most once per controller instance, and a
//! claimed pad can be bound to one alternate function by writing that
//! function's code into the pad's mux control register.

use vstd::prelude::*;

use crate::ccm::{Ccm, CcmView, ClockError, ClockGated};
use crate::reg::{vol_new, vol_read, vol_val, vol_write};

verus! {

/// Indicates an error occurred while trying to claim a pin.
#[derive(Debug, PartialEq, Eq, Structural, Copy, Clone)]
pub enum PinError {
    /// The pin has already been claimed.
    InUse,
}

/// The alternate-function code that routes the AD_B0_02 pad to the LPUART6
/// transmit line.
pub const AD_B0_02_LPUART6_TX_ALT: u32 = 2;

/// The alternate-function code the AD_B0_02 pad holds at reset (GPIO).
pub const AD_B0_02_GPIO_ALT: u32 = 5;

/// The pin multiplexer controller. It owns the per-pad claim flags and the
/// modelled pad mux control registers.
pub struct Iomuxc {
    ad_b0_02_claimed: bool,
    ad_b0_02_mux: volatile::Volatile<u32>,
}

impl Iomuxc {
    /// Whether the AD_B0_02 pad has been claimed.
    pub closed spec fn ad_b0_02_claimed(self) -> bool {
        self.ad_b0_02_claimed
    }

    /// The alternate-function code the AD_B0_02 pad's mux control register
    /// holds.
    pub closed spec fn ad_b0_02_mux_code(self) -> u32 {
        vol_val(self.ad_b0_02_mux)
    }

    /// The raw value of the AD_B0_02 pad's mux control register.
    pub fn ad_b0_02_mux_raw(&self) -> (r: u32)
        ensures
            r == self.ad_b0_02_mux_code(),
    {
        vol_read(&self.ad_b0_02_mux)
    }

    /// Claim a pin from this controller.
    ///
    /// # Errors
    /// Returns [`PinError::InUse`] exactly when the pin has already been
    /// claimed; claiming is unique per pad for the controller's lifetime.
    pub fn get_pin<P: Pin>(&mut self) -> (r: Result<P, PinError>)
        ensures
            P::claimed(*old(self)) ==> (r is Err && r->Err_0 == PinError::InUse && *final(self)
                == *old(self)),
            !P::claimed(*old(self)) ==> (r is Ok && P::claimed(*final(self))),
    {
        P::new(self)
    }
}

impl ClockGated for Iomuxc {
    open spec fn gate_spec() -> (usize, usize) {
        (4, 1)
    }

    /// The pin multiplexer runs off the bus clock directly; every
    /// configuration of the tree is safe for it.
    open spec fn clock_ok(v: CcmView) -> bool {
        true
    }

    /// Never reported, since every configuration is safe.
    open spec fn clock_err(v: CcmView) -> ClockError {
        ClockError::Disabled
    }

    /// A fresh controller has no pad claimed and every pad on its reset
    /// routing.
    open spec fn fresh(r: Self) -> bool {
        !r.ad_b0_02_claimed() && r.ad_b0_02_mux_code() == AD_B0_02_GPIO_ALT
    }

    fn gate() -> (g: (usize, usize)) {
        (4, 1)
    }

    fn check_clock(ccm: &Ccm) -> (r: Result<(), ClockError>) {
        Ok(())
    }

    fn enable() -> (r: Self) {
        Iomuxc { ad_b0_02_claimed: false, ad_b0_02_mux: vol_new(AD_B0_02_GPIO_ALT) }
    }

    fn disable(self) {
    }
}

/// A pad that can be claimed from the [`Iomuxc`].
pub trait Pin: Sized {
    /// Whether this pad is already claimed in the given controller.
    spec fn claimed(iomuxc: Iomuxc) -> bool;

    /// Claim the pad.
    fn new(iomuxc: &mut Iomuxc) -> (r: Result<Self, PinError>)
        ensures
            Self::claimed(*old(iomuxc)) ==> (r is Err && r->Err_0 == PinError::InUse
                && *final(iomuxc) == *old(iomuxc)),
            !Self::claimed(*old(iomuxc)) ==> (r is Ok && Self::claimed(*final(iomuxc))),
    ;
}

/// The pad GPIO_AD_B0_02, claimed as a plain pin.
pub struct GpioAdB0_02 {
    _private: (),
}

/// The pad GPIO_AD_B0_02, bound to the LPUART6 transmit function.
pub struct GpioAdB0_02LpUartTx {
    _private: (),
}

impl GpioAdB0_02 {
    /// Bind this pad to the LPUART6 transmit line by writing that
    /// function's alternate code into the pad's mux control register.
    pub fn into_lpuart_tx(self, iomuxc: &mut Iomuxc) -> (r: GpioAdB0_02LpUartTx)
        ensures
            final(iomuxc).ad_b0_02_mux_code() == AD_B0_02_LPUART6_TX_ALT,
            final(iomuxc).ad_b0_02_claimed() == old(iomuxc).ad_b0_02_claimed(),
    {
        vol_write(&mut iomuxc.ad_b0_02_mux, AD_B0_02_LPUART6_TX_ALT);
        GpioAdB0_02LpUartTx { _private: () }
    }
}

impl Pin for GpioAdB0_02 {
    open spec fn claimed(iomuxc: Iomuxc) -> bool {
        iomuxc.ad_b0_02_claimed()
    }

    fn new(iomuxc: &mut Iomuxc) -> (r: Result<Self, PinError>) {
        if iomuxc.ad_b0_02_claimed {
            Err(PinError::InUse)
        } else {
            iomuxc.ad_b0_02_claimed = true;
            Ok(GpioAdB0_02 { _private: () })
        }
    }
}

} // verus!
