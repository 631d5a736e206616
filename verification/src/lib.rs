//! Clock-distribution model for the i.MX RT1062 as found on the Teensy 4.0.
//!
//! The crate models the chip's clock controller: a bank of per-peripheral
//! clock gates, a chain of clock-selection muxes feeding the core, the PLL
//! handles, and the enable/disable protocol that hands out peripheral
//! instances only when their clock path is safe. Register state is held in
//! volatile cells owned by the [`ccm::Ccm`] value, so the configuration
//! logic can be exercised and checked against a simulated backing store;
//! a runner that owns the real memory-mapped registers mirrors the values
//! in and out.

pub mod ccm;
pub mod iomuxc;
pub mod lpuart;
pub mod reg;
