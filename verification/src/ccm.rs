//! Clock Controller Module
//!
//! The CCM manages the PLLs, the clock-selection muxes and the individual
//! device clock gates. The register state lives in volatile cells owned by
//! [`Ccm`]; the selector, PLL and gate operations are specified over the
//! abstract view [`CcmView`].
//!
//! The muxes form a chain: the two feeder selectors
//! ([`PrePeriphClockSelector`] and [`PeriphClock2Selector`]) each pick one
//! of several sources, and the glitchless primary selector
//! ([`PeriphClockSelector`]) picks which feeder drives the core. A feeder
//! may only be reconfigured while the primary selector points at the other
//! feeder; the accessors on [`Ccm`] enforce that ordering and report
//! [`ClockError::InUse`] when it is violated.

use vstd::prelude::*;

use crate::reg::{
    bit_get, field_get, field_mask, field_set, get_bit_u32, get_bits_u32, lemma_field_get_bound,
    lemma_field_set_frame, lemma_field_set_get, set_bits_u32, vol_new, vol_read, vol_write,
    vol_val,
};

verus! {

/// Indicates an error occurred while trying to retrieve or reconfigure a
/// clocking subsystem.
#[derive(Debug, PartialEq, Eq, Structural, Copy, Clone)]
pub enum ClockError {
    /// The clock component is depended upon by a downstream consumer, and
    /// thus cannot be modified or handed out.
    InUse,
    /// The clock source feeding a peripheral is not currently active.
    Disabled,
    /// The clock gate configuration would lead to a peripheral being
    /// overclocked.
    TooFast,
}

/// An unrecoverable construction error: both instances would alias the same
/// hardware registers, so the caller must halt rather than continue.
#[derive(Debug, PartialEq, Eq, Structural, Copy, Clone)]
pub enum FatalError {
    /// A clock controller instance is already outstanding.
    AlreadyConstructed,
}

/// The clock source used by the `PRE_PERIPH_CLK_SEL` mux
/// ([`PrePeriphClockSelector`]).
#[derive(Debug, PartialEq, Eq, Structural, Copy, Clone)]
pub enum PrePeriphClockInput {
    /// The ARM PLL output. This PLL can only be accessed through this mux.
    ArmPll,
    /// The system PLL output, typically also used for most peripherals.
    SystemPll,
    /// The system PLL phased fractional divider output 0.
    SystemPllPfd0,
    /// The system PLL phased fractional divider output 2.
    SystemPllPfd2,
}

impl PrePeriphClockInput {
    /// The select code the hardware uses for this source.
    pub open spec fn code_spec(self) -> u32 {
        match self {
            PrePeriphClockInput::SystemPll => 0,
            PrePeriphClockInput::SystemPllPfd2 => 1,
            PrePeriphClockInput::SystemPllPfd0 => 2,
            PrePeriphClockInput::ArmPll => 3,
        }
    }

    /// The source a select code denotes. Every two-bit code is defined.
    pub open spec fn from_code_spec(code: u32) -> Self {
        if code == 0 {
            PrePeriphClockInput::SystemPll
        } else if code == 1 {
            PrePeriphClockInput::SystemPllPfd2
        } else if code == 2 {
            PrePeriphClockInput::SystemPllPfd0
        } else {
            PrePeriphClockInput::ArmPll
        }
    }

    /// Encode this source as its select code.
    pub fn code(self) -> (r: u32)
        ensures
            r == self.code_spec(),
    {
        match self {
            PrePeriphClockInput::SystemPll => 0,
            PrePeriphClockInput::SystemPllPfd2 => 1,
            PrePeriphClockInput::SystemPllPfd0 => 2,
            PrePeriphClockInput::ArmPll => 3,
        }
    }

    /// Decode a select code read back from the hardware.
    pub fn from_code(code: u32) -> (r: Self)
        requires
            code < 4,
        ensures
            r == Self::from_code_spec(code),
    {
        if code == 0 {
            PrePeriphClockInput::SystemPll
        } else if code == 1 {
            PrePeriphClockInput::SystemPllPfd2
        } else if code == 2 {
            PrePeriphClockInput::SystemPllPfd0
        } else {
            PrePeriphClockInput::ArmPll
        }
    }

    /// Law: decoding an encoded source returns the source.
    pub proof fn lemma_code_round_trip(v: Self)
        ensures
            Self::from_code_spec(v.code_spec()) == v,
    {
    }
}

/// The clock input for the `PERIPH_CLK2_SEL` mux ([`PeriphClock2Selector`]).
#[derive(Debug, PartialEq, Eq, Structural, Copy, Clone)]
pub enum PeriphClock2Input {
    /// The system PLL bypass source; on this board always the 24MHz
    /// oscillator. Choosing this instead of `Oscillator` blocks the system
    /// PLL from being modified.
    SystemPllBypass,
    /// The first USB PLL.
    Usb1Pll,
    /// The 24MHz oscillator.
    Oscillator,
}

impl PeriphClock2Input {
    /// The select code the hardware uses for this source.
    pub open spec fn code_spec(self) -> u32 {
        match self {
            PeriphClock2Input::Usb1Pll => 0,
            PeriphClock2Input::Oscillator => 1,
            PeriphClock2Input::SystemPllBypass => 2,
        }
    }

    /// The source a select code denotes. Only codes 0 through 2 are defined;
    /// the tree invariant keeps the register field in that range, so the
    /// value chosen for the undefined code is never observed.
    pub open spec fn from_code_spec(code: u32) -> Self {
        if code == 0 {
            PeriphClock2Input::Usb1Pll
        } else if code == 1 {
            PeriphClock2Input::Oscillator
        } else {
            PeriphClock2Input::SystemPllBypass
        }
    }

    /// Encode this source as its select code.
    pub fn code(self) -> (r: u32)
        ensures
            r == self.code_spec(),
    {
        match self {
            PeriphClock2Input::Usb1Pll => 0,
            PeriphClock2Input::Oscillator => 1,
            PeriphClock2Input::SystemPllBypass => 2,
        }
    }

    /// Decode a select code read back from the hardware.
    pub fn from_code(code: u32) -> (r: Self)
        requires
            code < 3,
        ensures
            r == Self::from_code_spec(code),
    {
        if code == 0 {
            PeriphClock2Input::Usb1Pll
        } else if code == 1 {
            PeriphClock2Input::Oscillator
        } else {
            PeriphClock2Input::SystemPllBypass
        }
    }

    /// Law: decoding an encoded source returns the source.
    pub proof fn lemma_code_round_trip(v: Self)
        ensures
            Self::from_code_spec(v.code_spec()) == v,
    {
    }
}

/// The clock input for the `PERIPH_CLK_SEL` mux ([`PeriphClockSelector`]).
#[derive(Debug, PartialEq, Eq, Structural, Copy, Clone)]
pub enum PeriphClockInput {
    /// The clock is sourced from `PRE_PERIPH_CLK_SEL`
    /// ([`PrePeriphClockSelector`]).
    PrePeriphClock,
    /// The clock is sourced from `PERIPH_CLK2_SEL`
    /// ([`PeriphClock2Selector`]).
    PeriphClock2,
}

impl PeriphClockInput {
    /// The select code the hardware uses for this source.
    pub open spec fn code_spec(self) -> u32 {
        match self {
            PeriphClockInput::PrePeriphClock => 0,
            PeriphClockInput::PeriphClock2 => 1,
        }
    }

    /// The source a select code denotes. Every one-bit code is defined.
    pub open spec fn from_code_spec(code: u32) -> Self {
        if code == 0 {
            PeriphClockInput::PrePeriphClock
        } else {
            PeriphClockInput::PeriphClock2
        }
    }

    /// Encode this source as its select code.
    pub fn code(self) -> (r: u32)
        ensures
            r == self.code_spec(),
    {
        match self {
            PeriphClockInput::PrePeriphClock => 0,
            PeriphClockInput::PeriphClock2 => 1,
        }
    }

    /// Decode a select code read back from the hardware.
    pub fn from_code(code: u32) -> (r: Self)
        requires
            code < 2,
        ensures
            r == Self::from_code_spec(code),
    {
        if code == 0 {
            PeriphClockInput::PrePeriphClock
        } else {
            PeriphClockInput::PeriphClock2
        }
    }

    /// Law: decoding an encoded source returns the source.
    pub proof fn lemma_code_round_trip(v: Self)
        ensures
            Self::from_code_spec(v.code_spec()) == v,
    {
    }
}

/// The clock input for the `UART_CLK_SEL` mux ([`UartClockSelector`]).
#[derive(Debug, PartialEq, Eq, Structural, Copy, Clone)]
pub enum UartClockInput {
    /// The first USB PLL divided by six, typically 80MHz.
    Usb1PllOverSix,
    /// The 24MHz oscillator.
    Oscillator,
}

impl UartClockInput {
    /// The select code the hardware uses for this source.
    pub open spec fn code_spec(self) -> u32 {
        match self {
            UartClockInput::Usb1PllOverSix => 0,
            UartClockInput::Oscillator => 1,
        }
    }

    /// The source a select code denotes. Every one-bit code is defined.
    pub open spec fn from_code_spec(code: u32) -> Self {
        if code == 0 {
            UartClockInput::Usb1PllOverSix
        } else {
            UartClockInput::Oscillator
        }
    }

    /// Encode this source as its select code.
    pub fn code(self) -> (r: u32)
        ensures
            r == self.code_spec(),
    {
        match self {
            UartClockInput::Usb1PllOverSix => 0,
            UartClockInput::Oscillator => 1,
        }
    }

    /// Decode a select code read back from the hardware.
    pub fn from_code(code: u32) -> (r: Self)
        requires
            code < 2,
        ensures
            r == Self::from_code_spec(code),
    {
        if code == 0 {
            UartClockInput::Usb1PllOverSix
        } else {
            UartClockInput::Oscillator
        }
    }

    /// Law: decoding an encoded source returns the source.
    pub proof fn lemma_code_round_trip(v: Self)
        ensures
            Self::from_code_spec(v.code_spec()) == v,
    {
    }
}

/// The various states a device's clock gate can be in.
#[derive(Debug, PartialEq, Eq, Structural, Copy, Clone)]
pub enum ClockGate {
    /// The device is always disabled.
    Disabled,
    /// The device is always enabled.
    Enabled,
    /// The device is only enabled when the package is in the full awake
    /// state, and disabled during low power states.
    EnabledDuringWake,
}

impl ClockGate {
    /// The two-bit pattern this system writes for the state.
    pub open spec fn code_spec(self) -> u32 {
        match self {
            ClockGate::Disabled => 0,
            ClockGate::EnabledDuringWake => 1,
            ClockGate::Enabled => 3,
        }
    }

    /// The state a two-bit pattern denotes. This system only ever writes the
    /// three defined patterns, but firmware-initialized state may hold the
    /// reserved in-between pattern; it is read conservatively as
    /// enabled-during-wake so such a gate never looks free.
    pub open spec fn from_code_spec(code: u32) -> Self {
        if code == 0 {
            ClockGate::Disabled
        } else if code == 3 {
            ClockGate::Enabled
        } else {
            ClockGate::EnabledDuringWake
        }
    }

    /// Encode this state as its two-bit pattern.
    pub fn code(self) -> (r: u32)
        ensures
            r == self.code_spec(),
            r <= 3,
    {
        match self {
            ClockGate::Disabled => 0,
            ClockGate::EnabledDuringWake => 1,
            ClockGate::Enabled => 3,
        }
    }

    /// Decode a two-bit pattern read back from a gate register.
    pub fn from_code(code: u32) -> (r: Self)
        requires
            code < 4,
        ensures
            r == Self::from_code_spec(code),
    {
        if code == 0 {
            ClockGate::Disabled
        } else if code == 3 {
            ClockGate::Enabled
        } else {
            ClockGate::EnabledDuringWake
        }
    }

    /// Law: decoding an encoded gate state returns the state.
    pub proof fn lemma_code_round_trip(v: Self)
        ensures
            Self::from_code_spec(v.code_spec()) == v,
    {
    }
}

/// The possible multipliers for the core peripheral PLLs, applied to the
/// 24MHz reference oscillator.
#[derive(Debug, PartialEq, Eq, Structural, Copy, Clone)]
pub enum PeripheralPllMultiplier {
    Twenty,
    TwentyTwo,
}

impl PeripheralPllMultiplier {
    /// The select code the hardware uses for this multiplier.
    pub open spec fn code_spec(self) -> u32 {
        match self {
            PeripheralPllMultiplier::Twenty => 0,
            PeripheralPllMultiplier::TwentyTwo => 1,
        }
    }

    /// The multiplier a select code denotes. Every one-bit code is defined.
    pub open spec fn from_code_spec(code: u32) -> Self {
        if code == 0 {
            PeripheralPllMultiplier::Twenty
        } else {
            PeripheralPllMultiplier::TwentyTwo
        }
    }

    /// The multiplier as a number.
    pub open spec fn factor_spec(self) -> u32 {
        match self {
            PeripheralPllMultiplier::Twenty => 20,
            PeripheralPllMultiplier::TwentyTwo => 22,
        }
    }

    /// Encode this multiplier as its select code.
    pub fn code(self) -> (r: u32)
        ensures
            r == self.code_spec(),
    {
        match self {
            PeripheralPllMultiplier::Twenty => 0,
            PeripheralPllMultiplier::TwentyTwo => 1,
        }
    }

    /// Decode a select code read back from the hardware.
    pub fn from_code(code: u32) -> (r: Self)
        requires
            code < 2,
        ensures
            r == Self::from_code_spec(code),
    {
        if code == 0 {
            PeripheralPllMultiplier::Twenty
        } else {
            PeripheralPllMultiplier::TwentyTwo
        }
    }

    /// The multiplier as a number.
    pub fn factor(self) -> (r: u32)
        ensures
            r == self.factor_spec(),
    {
        match self {
            PeripheralPllMultiplier::Twenty => 20,
            PeripheralPllMultiplier::TwentyTwo => 22,
        }
    }

    /// Law: decoding an encoded multiplier returns the multiplier.
    pub proof fn lemma_code_round_trip(v: Self)
        ensures
            Self::from_code_spec(v.code_spec()) == v,
    {
    }
}

/// The abstract register state of the clock controller: the value each
/// modelled register holds.
pub struct CcmView {
    /// Bus clock divider register; holds the primary selector's select bit.
    pub cbcdr: u32,
    /// Bus clock multiplexer register; holds both feeder selectors' fields.
    pub cbcmr: u32,
    /// Serial clock divider register; holds the UART select and post-divider.
    pub cscdr1: u32,
    /// Handshake-in-progress register; holds the mux switch busy bits.
    pub cdhipr: u32,
    /// The eight packed clock-gate registers.
    pub ccgr: Seq<u32>,
    /// The ARM PLL control register in the analog block.
    pub pll_arm: u32,
    /// The first USB PLL control register in the analog block.
    pub pll_usb1: u32,
}

/// True for gate coordinates that exist: a register index below eight
/// and a field index below sixteen.
pub open spec fn valid_gate(gate: (usize, usize)) -> bool {
    gate.0 < 8 && gate.1 < 16
}

impl CcmView {
    /// The select code of the primary core-clock selector.
    pub open spec fn periph_sel_code(self) -> u32 {
        field_get(self.cbcdr, 25, 1)
    }

    /// The source the primary core-clock selector points at.
    pub open spec fn periph_input(self) -> PeriphClockInput {
        PeriphClockInput::from_code_spec(self.periph_sel_code())
    }

    /// The select code of the secondary feeder selector.
    pub open spec fn periph2_sel_code(self) -> u32 {
        field_get(self.cbcmr, 12, 2)
    }

    /// The source the secondary feeder selector points at.
    pub open spec fn periph2_input(self) -> PeriphClock2Input {
        PeriphClock2Input::from_code_spec(self.periph2_sel_code())
    }

    /// The select code of the primary feeder selector.
    pub open spec fn pre_periph_sel_code(self) -> u32 {
        field_get(self.cbcmr, 18, 2)
    }

    /// The source the primary feeder selector points at.
    pub open spec fn pre_periph_input(self) -> PrePeriphClockInput {
        PrePeriphClockInput::from_code_spec(self.pre_periph_sel_code())
    }

    /// The select code of the UART clock selector.
    pub open spec fn uart_sel_code(self) -> u32 {
        field_get(self.cscdr1, 6, 1)
    }

    /// The source the UART clock selector points at.
    pub open spec fn uart_input(self) -> UartClockInput {
        UartClockInput::from_code_spec(self.uart_sel_code())
    }

    /// The UART post-divider: the stored field plus one.
    pub open spec fn uart_divisor(self) -> u32 {
        (field_get(self.cscdr1, 0, 6) + 1) as u32
    }

    /// The two-bit pattern stored for a gate.
    pub open spec fn gate_code(self, gate: (usize, usize)) -> u32
        recommends
            valid_gate(gate),
            self.wf(),
    {
        field_get(self.ccgr[gate.0 as int], (2 * gate.1) as u32, 2)
    }

    /// The state of a gate.
    pub open spec fn gate_state(self, gate: (usize, usize)) -> ClockGate
        recommends
            valid_gate(gate),
            self.wf(),
    {
        ClockGate::from_code_spec(self.gate_code(gate))
    }

    /// Whether the ARM PLL is forced to bypass to its reference.
    pub open spec fn arm_pll_bypassed(self) -> bool {
        bit_get(self.pll_arm, 16)
    }

    /// Whether the ARM PLL output is enabled.
    pub open spec fn arm_pll_enabled(self) -> bool {
        bit_get(self.pll_arm, 13)
    }

    /// Whether the ARM PLL is powered down.
    pub open spec fn arm_pll_powered_down(self) -> bool {
        bit_get(self.pll_arm, 12)
    }

    /// The first USB PLL's multiplier select.
    pub open spec fn usb1_pll_multiplier(self) -> PeripheralPllMultiplier {
        PeripheralPllMultiplier::from_code_spec(field_get(self.pll_usb1, 1, 1))
    }

    /// Whether the first USB PLL is powered and enabled.
    pub open spec fn usb1_pll_enabled(self) -> bool {
        bit_get(self.pll_usb1, 12) && bit_get(self.pll_usb1, 13)
    }

    /// Well-formedness of the modelled state: the bank of gates has its eight
    /// registers, the secondary feeder's select field holds a defined code,
    /// and no mux handshake is pending. Construction establishes this and
    /// every operation preserves it.
    pub open spec fn wf(self) -> bool {
        &&& self.ccgr.len() == 8
        &&& self.periph2_sel_code() != 3
        &&& !bit_get(self.cdhipr, 5)
        &&& !bit_get(self.cdhipr, 3)
    }
}

/// The modelled configuration registers of the clock controller block.
struct CcmRegs {
    cbcdr: volatile::Volatile<u32>,
    cbcmr: volatile::Volatile<u32>,
    cscdr1: volatile::Volatile<u32>,
    cdhipr: volatile::Volatile<u32>,
    ccgr: Vec<volatile::Volatile<u32>>,
}

/// The modelled registers of the analog (PLL) block. The hardware exposes
/// each PLL control register together with set/clear alias addresses; the
/// set and clear operations below model writes to those aliases.
struct SegmentedRegister {
    val: volatile::Volatile<u32>,
}

impl SegmentedRegister {
    /// A write to the set alias: every mask bit becomes one.
    fn write_set(&mut self, mask: u32)
        ensures
            vol_val(final(self).val) == vol_val(old(self).val) | mask,
    {
        let v = vol_read(&self.val);
        vol_write(&mut self.val, v | mask);
    }

    /// A write to the clear alias: every mask bit becomes zero.
    fn write_clear(&mut self, mask: u32)
        ensures
            vol_val(final(self).val) == vol_val(old(self).val) & !mask,
    {
        let v = vol_read(&self.val);
        vol_write(&mut self.val, v & !mask);
    }
}

/// The modelled analog block: the two PLL control registers this system
/// reads or writes.
struct CcmAnalogRegs {
    pll_arm: SegmentedRegister,
    pll_usb1: SegmentedRegister,
}

/// Process-wide construction guard for the clock controller.
///
/// The hardware registers exist once per machine, so only one [`Ccm`] may be
/// live at a time: two instances would alias the same registers. The runner
/// creates exactly one guard at startup and threads it through [`Ccm::new`],
/// which refuses a second construction while the guard records a live
/// instance.
pub struct CcmInit {
    constructed: bool,
}

impl CcmInit {
    /// Whether a clock controller has been constructed under this guard.
    pub closed spec fn constructed(self) -> bool {
        self.constructed
    }

    /// A fresh guard: no instance is outstanding yet.
    pub fn new() -> (r: CcmInit)
        ensures
            !r.constructed(),
    {
        CcmInit { constructed: false }
    }
}

/// The Clock Controller Module.
///
/// This struct owns the modelled mux, PLL and gate registers and provides
/// access to the various clocking components of the system.
pub struct Ccm {
    regs: CcmRegs,
    analog: CcmAnalogRegs,
}

impl View for Ccm {
    type V = CcmView;

    closed spec fn view(&self) -> CcmView {
        CcmView {
            cbcdr: vol_val(self.regs.cbcdr),
            cbcmr: vol_val(self.regs.cbcmr),
            cscdr1: vol_val(self.regs.cscdr1),
            cdhipr: vol_val(self.regs.cdhipr),
            ccgr: self.regs.ccgr@.map_values(|c: volatile::Volatile<u32>| vol_val(c)),
            pll_arm: vol_val(self.analog.pll_arm.val),
            pll_usb1: vol_val(self.analog.pll_usb1.val),
        }
    }
}

impl Ccm {
    /// Take ownership of the clock controller.
    ///
    /// The raw register values are the ones the hardware holds at the time
    /// of construction; a second construction under the same guard is
    /// refused without touching any state reachable from the first
    /// instance. The preconditions on the raw values rule out exactly the
    /// firmware states whose select fields hold undefined encodings (which
    /// the system would have to treat as a fatal hardware mismatch) or
    /// that have a mux handshake still pending.
    pub fn new(
        init: &mut CcmInit,
        cbcdr: u32,
        cbcmr: u32,
        cscdr1: u32,
        cdhipr: u32,
        ccgr: Vec<u32>,
        pll_arm: u32,
        pll_usb1: u32,
    ) -> (r: Result<Ccm, FatalError>)
        requires
            ccgr@.len() == 8,
            field_get(cbcmr, 12, 2) != 3,
            !bit_get(cdhipr, 5),
            !bit_get(cdhipr, 3),
        ensures
            old(init).constructed() ==> (r is Err && r->Err_0 == FatalError::AlreadyConstructed
                && *final(init) == *old(init)),
            !old(init).constructed() ==> (r is Ok && final(init).constructed() && (r->Ok_0@
                == CcmView {
                cbcdr,
                cbcmr,
                cscdr1,
                cdhipr,
                ccgr: ccgr@,
                pll_arm,
                pll_usb1,
            })),
            !old(init).constructed() ==> r->Ok_0@.wf(),
    {
        if init.constructed {
            return Err(FatalError::AlreadyConstructed);
        }
        init.constructed = true;
        let mut cells: Vec<volatile::Volatile<u32>> = Vec::new();
        let mut i: usize = 0;
        while i < ccgr.len()
            invariant
                i <= ccgr@.len(),
                cells@.len() == i,
                cells@.map_values(|c: volatile::Volatile<u32>| vol_val(c)) =~= ccgr@.subrange(
                    0,
                    i as int,
                ),
            decreases ccgr@.len() - i,
        {
            cells.push(vol_new(ccgr[i]));
            proof {
                assert(cells@.map_values(|c: volatile::Volatile<u32>| vol_val(c)) =~= ccgr@
                    .subrange(0, i + 1 as int));
            }
            i = i + 1;
        }
        proof {
            assert(cells@.map_values(|c: volatile::Volatile<u32>| vol_val(c)) =~= ccgr@);
        }
        Ok(
            Ccm {
                regs: CcmRegs {
                    cbcdr: vol_new(cbcdr),
                    cbcmr: vol_new(cbcmr),
                    cscdr1: vol_new(cscdr1),
                    cdhipr: vol_new(cdhipr),
                    ccgr: cells,
                },
                analog: CcmAnalogRegs {
                    pll_arm: SegmentedRegister { val: vol_new(pll_arm) },
                    pll_usb1: SegmentedRegister { val: vol_new(pll_usb1) },
                },
            },
        )
    }

    /// Query the status of a clock gate.
    pub fn clock_gate(&self, gate: (usize, usize)) -> (r: ClockGate)
        requires
            self@.wf(),
            valid_gate(gate),
        ensures
            r == self@.gate_state(gate),
    {
        let lo = (gate.1 * 2) as u32;
        let raw = vol_read(&self.regs.ccgr[gate.0]);
        proof {
            lemma_field_get_bound(raw, lo, 2);
            assert(field_mask(2) == 3) by (bit_vector);
        }
        ClockGate::from_code(get_bits_u32(raw, lo, 2))
    }

    /// Toggle the status of a clock gate, leaving every other gate and
    /// every other register untouched.
    ///
    /// This operation is unchecked at this layer: it is the caller's
    /// responsibility (normally [`Ccm::enable`]) to have already validated
    /// the clock path feeding that gate.
    pub fn set_clock_gate(&mut self, gate: (usize, usize), state: ClockGate)
        requires
            old(self)@.wf(),
            valid_gate(gate),
        ensures
            final(self)@ == (CcmView {
                ccgr: old(self)@.ccgr.update(
                    gate.0 as int,
                    field_set(old(self)@.ccgr[gate.0 as int], (2 * gate.1) as u32, 2,
                        state.code_spec()),
                ),
                ..old(self)@
            }),
            final(self)@.gate_state(gate) == state,
            forall|other: (usize, usize)|
                valid_gate(other) && other != gate ==> (#[trigger] final(self)@.gate_state(other))
                    == old(self)@.gate_state(other),
            final(self)@.wf(),
    {
        let lo = (gate.1 * 2) as u32;
        let code = state.code();
        let raw = vol_read(&self.regs.ccgr[gate.0]);
        proof {
            assert(field_mask(2) == 3) by (bit_vector);
        }
        let updated = set_bits_u32(raw, lo, 2, code);
        vol_write(&mut self.regs.ccgr[gate.0], updated);
        proof {
            let oldv = old(self)@;
            let newv = final(self)@;
            assert(newv.ccgr =~= oldv.ccgr.update(gate.0 as int,
                field_set(oldv.ccgr[gate.0 as int], (2 * gate.1) as u32, 2, state.code_spec())));
            lemma_field_set_get(raw, lo, 2, code);
            ClockGate::lemma_code_round_trip(state);
            assert forall|other: (usize, usize)|
                valid_gate(other) && other != gate implies newv.gate_state(other) == oldv
                .gate_state(other) by {
                if other.0 == gate.0 {
                    lemma_field_set_frame(
                        raw,
                        lo,
                        2,
                        code,
                        (2 * other.1) as u32,
                        2,
                    );
                }
            }
        }
    }
}

/// The `PERIPH_CLK_SEL` clock mux.
///
/// This mux selects the output of either [`PrePeriphClockSelector`] or
/// [`PeriphClock2Selector`] as the source for the ARM core clocks. Because
/// this is a glitchless mux, setting its input source does not require
/// disabling downstream consumers, and the mutable accessor on [`Ccm`]
/// never fails. Since the muxes which feed into this one are not
/// glitchless, changing one of those requires this mux be pointed at the
/// other input first.
pub struct PeriphClockSelector {
    _private: (),
}

impl PeriphClockSelector {
    /// Query the current clock source used by this mux.
    pub fn input(&self, ccm: &Ccm) -> (r: PeriphClockInput)
        requires
            ccm@.wf(),
        ensures
            r == ccm@.periph_input(),
    {
        // cbcdr[periph_clk_sel]
        let raw = vol_read(&ccm.regs.cbcdr);
        proof {
            lemma_field_get_bound(raw, 25, 1);
            assert(field_mask(1) == 1) by (bit_vector);
        }
        PeriphClockInput::from_code(get_bits_u32(raw, 25, 1))
    }

    /// Set the clock source used for this mux, then wait for the hardware
    /// to confirm the switch completed.
    pub fn set_input(&self, ccm: &mut Ccm, input: PeriphClockInput)
        requires
            old(ccm)@.wf(),
        ensures
            final(ccm)@ == (CcmView {
                cbcdr: field_set(old(ccm)@.cbcdr, 25, 1, input.code_spec()),
                ..old(ccm)@
            }),
            final(ccm)@.periph_input() == input,
            final(ccm)@.wf(),
    {
        let raw = vol_read(&ccm.regs.cbcdr);
        let code = input.code();
        proof {
            assert(field_mask(1) == 1) by (bit_vector);
        }
        // cbcdr[periph_clk_sel]
        let updated = set_bits_u32(raw, 25, 1, code);
        vol_write(&mut ccm.regs.cbcdr, updated);
        proof {
            lemma_field_set_get(raw, 25, 1, code);
            PeriphClockInput::lemma_code_round_trip(input);
        }
        // Once we've set the clock input, we need to wait for the transfer
        // to complete.
        let ghost settled = *ccm;
        // cdhipr[periph_clk_sel_busy]; the modelled store holds quiescent
        // state, so the handshake bit is already clear.
        while get_bit_u32(vol_read(&ccm.regs.cdhipr), 5)
            invariant
                *ccm == settled,
                !bit_get(vol_val(ccm.regs.cdhipr), 5),
            decreases 0int,
        {
        }
    }
}

/// The `PERIPH_CLK2_SEL` clock mux.
///
/// This mux selects one of three clocks to be fed into the glitchless
/// [`PeriphClockSelector`] for the ARM core clocks. It should logically be
/// called a pre-periph selector too, but is not, for consistency with the
/// vendor's documentation.
pub struct PeriphClock2Selector {
    _private: (),
}

impl PeriphClock2Selector {
    /// Query the current clock source used by this mux.
    pub fn input(&self, ccm: &Ccm) -> (r: PeriphClock2Input)
        requires
            ccm@.wf(),
        ensures
            r == ccm@.periph2_input(),
    {
        // cbcmr[periph_clk2_sel]
        let raw = vol_read(&ccm.regs.cbcmr);
        proof {
            lemma_field_get_bound(raw, 12, 2);
            assert(field_mask(2) == 3) by (bit_vector);
        }
        PeriphClock2Input::from_code(get_bits_u32(raw, 12, 2))
    }

    /// Set the clock source used for this mux, then wait for the hardware
    /// to confirm the switch completed.
    ///
    /// This mux is not glitchless, so it may only be reconfigured while the
    /// primary selector points at the other feeder.
    pub fn set_input(&self, ccm: &mut Ccm, input: PeriphClock2Input)
        requires
            old(ccm)@.wf(),
            old(ccm)@.periph_input() != PeriphClockInput::PeriphClock2,
        ensures
            final(ccm)@ == (CcmView {
                cbcmr: field_set(old(ccm)@.cbcmr, 12, 2, input.code_spec()),
                ..old(ccm)@
            }),
            final(ccm)@.periph2_input() == input,
            final(ccm)@.pre_periph_input() == old(ccm)@.pre_periph_input(),
            final(ccm)@.wf(),
    {
        let raw = vol_read(&ccm.regs.cbcmr);
        let code = input.code();
        proof {
            assert(field_mask(2) == 3) by (bit_vector);
        }
        // cbcmr[periph_clk2_sel]
        let updated = set_bits_u32(raw, 12, 2, code);
        vol_write(&mut ccm.regs.cbcmr, updated);
        proof {
            lemma_field_set_get(raw, 12, 2, code);
            PeriphClock2Input::lemma_code_round_trip(input);
            lemma_field_set_frame(raw, 12, 2, code, 18, 2);
        }
        // Once we've set the clock input, we need to wait for the transfer
        // to complete.
        let ghost settled = *ccm;
        // cdhipr[periph2_clk_sel_busy]; the modelled store holds quiescent
        // state, so the handshake bit is already clear.
        while get_bit_u32(vol_read(&ccm.regs.cdhipr), 3)
            invariant
                *ccm == settled,
                !bit_get(vol_val(ccm.regs.cdhipr), 3),
            decreases 0int,
        {
        }
    }
}

/// The `PRE_PERIPH_CLK_SEL` clock mux.
///
/// This mux selects one of four clocks to be fed into the glitchless
/// [`PeriphClockSelector`] for the ARM core clocks.
pub struct PrePeriphClockSelector {
    _private: (),
}

impl PrePeriphClockSelector {
    /// Query the current clock source used by this mux.
    pub fn input(&self, ccm: &Ccm) -> (r: PrePeriphClockInput)
        requires
            ccm@.wf(),
        ensures
            r == ccm@.pre_periph_input(),
    {
        // cbcmr[pre_periph_clk_sel]
        let raw = vol_read(&ccm.regs.cbcmr);
        proof {
            lemma_field_get_bound(raw, 18, 2);
            assert(field_mask(2) == 3) by (bit_vector);
        }
        PrePeriphClockInput::from_code(get_bits_u32(raw, 18, 2))
    }

    /// Set the clock source used by this mux.
    ///
    /// This mux is not glitchless, so it may only be reconfigured while the
    /// primary selector points at the other feeder.
    pub fn set_input(&self, ccm: &mut Ccm, input: PrePeriphClockInput)
        requires
            old(ccm)@.wf(),
            old(ccm)@.periph_input() != PeriphClockInput::PrePeriphClock,
        ensures
            final(ccm)@ == (CcmView {
                cbcmr: field_set(old(ccm)@.cbcmr, 18, 2, input.code_spec()),
                ..old(ccm)@
            }),
            final(ccm)@.pre_periph_input() == input,
            final(ccm)@.periph2_input() == old(ccm)@.periph2_input(),
            final(ccm)@.wf(),
    {
        let raw = vol_read(&ccm.regs.cbcmr);
        let code = input.code();
        proof {
            assert(field_mask(2) == 3) by (bit_vector);
        }
        // cbcmr[pre_periph_clk_sel]
        let updated = set_bits_u32(raw, 18, 2, code);
        vol_write(&mut ccm.regs.cbcmr, updated);
        proof {
            lemma_field_set_get(raw, 18, 2, code);
            PrePeriphClockInput::lemma_code_round_trip(input);
            lemma_field_set_frame(raw, 18, 2, code, 12, 2);
        }
    }
}

/// The `UART_CLK_SEL` clock mux.
///
/// This mux selects either the USB PLL output over six or the 24MHz
/// oscillator as the clock source for the UARTs, and holds the UARTs'
/// post-divider.
pub struct UartClockSelector {
    _private: (),
}

impl UartClockSelector {
    /// Query the current clock source used by this mux.
    pub fn input(&self, ccm: &Ccm) -> (r: UartClockInput)
        requires
            ccm@.wf(),
        ensures
            r == ccm@.uart_input(),
    {
        // cscdr1[uart_clk_sel]
        let raw = vol_read(&ccm.regs.cscdr1);
        proof {
            lemma_field_get_bound(raw, 6, 1);
            assert(field_mask(1) == 1) by (bit_vector);
        }
        UartClockInput::from_code(get_bits_u32(raw, 6, 1))
    }

    /// Query the current post-divider for the UART clocks.
    pub fn divisor(&self, ccm: &Ccm) -> (r: u32)
        requires
            ccm@.wf(),
        ensures
            r == ccm@.uart_divisor(),
            1 <= r <= 64,
    {
        // cscdr1[uart_clk_podf]
        let raw = vol_read(&ccm.regs.cscdr1);
        proof {
            lemma_field_get_bound(raw, 0, 6);
            assert(field_mask(6) == 63) by (bit_vector);
        }
        get_bits_u32(raw, 0, 6) + 1
    }

    /// Set the clock source used by this mux.
    ///
    /// Reconfiguring the UART clock is only safe while every UART's gate is
    /// disabled, which is what the mutable accessor on [`Ccm`] checks.
    pub fn set_input(&self, ccm: &mut Ccm, input: UartClockInput)
        requires
            old(ccm)@.wf(),
            uart_gates_disabled(old(ccm)@),
        ensures
            final(ccm)@ == (CcmView {
                cscdr1: field_set(old(ccm)@.cscdr1, 6, 1, input.code_spec()),
                ..old(ccm)@
            }),
            final(ccm)@.uart_input() == input,
            final(ccm)@.uart_divisor() == old(ccm)@.uart_divisor(),
            final(ccm)@.wf(),
    {
        let raw = vol_read(&ccm.regs.cscdr1);
        let code = input.code();
        proof {
            assert(field_mask(1) == 1) by (bit_vector);
        }
        // cscdr1[uart_clk_sel]
        let updated = set_bits_u32(raw, 6, 1, code);
        vol_write(&mut ccm.regs.cscdr1, updated);
        proof {
            lemma_field_set_get(raw, 6, 1, code);
            UartClockInput::lemma_code_round_trip(input);
            lemma_field_set_frame(raw, 6, 1, code, 0, 6);
        }
    }

    /// Set the post-divider for the clock used by this mux. The hardware
    /// stores the divider minus one in a six-bit field.
    pub fn set_divisor(&self, ccm: &mut Ccm, divisor: u32)
        requires
            old(ccm)@.wf(),
            uart_gates_disabled(old(ccm)@),
            1 <= divisor <= 64,
        ensures
            final(ccm)@ == (CcmView {
                cscdr1: field_set(old(ccm)@.cscdr1, 0, 6, (divisor - 1) as u32),
                ..old(ccm)@
            }),
            final(ccm)@.uart_divisor() == divisor,
            final(ccm)@.uart_input() == old(ccm)@.uart_input(),
            final(ccm)@.wf(),
    {
        let raw = vol_read(&ccm.regs.cscdr1);
        proof {
            assert(field_mask(6) == 63) by (bit_vector);
        }
        // cscdr1[uart_clk_podf]
        let updated = set_bits_u32(raw, 0, 6, divisor - 1);
        vol_write(&mut ccm.regs.cscdr1, updated);
        proof {
            lemma_field_set_get(raw, 0, 6, (divisor - 1) as u32);
            lemma_field_set_frame(raw, 0, 6, (divisor - 1) as u32, 6, 1);
        }
    }
}

/// Gate coordinates of the eight UART modules.
pub open spec fn uart_gate(i: int) -> (usize, usize) {
    if i == 0 {
        (5, 12)
    } else if i == 1 {
        (0, 14)
    } else if i == 2 {
        (0, 6)
    } else if i == 3 {
        (1, 12)
    } else if i == 4 {
        (3, 1)
    } else if i == 5 {
        (3, 3)
    } else if i == 6 {
        (5, 13)
    } else {
        (6, 7)
    }
}

/// Every UART's clock gate is disabled: the condition under which the UART
/// clock selector is free to be reconfigured.
pub open spec fn uart_gates_disabled(v: CcmView) -> bool {
    forall|i: int| 0 <= i < 8 ==> v.gate_state(#[trigger] uart_gate(i)) == ClockGate::Disabled
}

/// Gate coordinates of the UART module with the given index.
fn uart_gate_at(i: usize) -> (g: (usize, usize))
    requires
        i < 8,
    ensures
        g == uart_gate(i as int),
        valid_gate(g),
{
    if i == 0 {
        (5, 12)
    } else if i == 1 {
        (0, 14)
    } else if i == 2 {
        (0, 6)
    } else if i == 3 {
        (1, 12)
    } else if i == 4 {
        (3, 1)
    } else if i == 5 {
        (3, 3)
    } else if i == 6 {
        (5, 13)
    } else {
        (6, 7)
    }
}

impl Ccm {
    /// Get the [USB1 PLL](Usb1Pll) immutably.
    pub fn usb1_pll(&self) -> Usb1Pll {
        Usb1Pll { _private: () }
    }

    /// Get the [`PERIPH_CLK_SEL` mux](PeriphClockSelector) immutably.
    pub fn periph_clock_selector(&self) -> PeriphClockSelector {
        PeriphClockSelector { _private: () }
    }

    /// Get the [`PERIPH_CLK_SEL` mux](PeriphClockSelector) mutably.
    ///
    /// Since this is a glitchless mux, this method cannot error.
    pub fn periph_clock_selector_mut(&mut self) -> (r: PeriphClockSelector)
        ensures
            final(self)@ == old(self)@,
    {
        PeriphClockSelector { _private: () }
    }

    /// Get the [`PERIPH_CLK2_SEL` mux](PeriphClock2Selector) immutably.
    pub fn periph_clock2_selector(&self) -> PeriphClock2Selector {
        PeriphClock2Selector { _private: () }
    }

    /// Get the [`PERIPH_CLK2_SEL` mux](PeriphClock2Selector) mutably.
    ///
    /// # Errors
    /// Returns [`ClockError::InUse`] exactly when the primary selector is
    /// currently fed by this mux.
    pub fn periph_clock2_selector_mut(&mut self) -> (r: Result<PeriphClock2Selector, ClockError>)
        requires
            old(self)@.wf(),
        ensures
            final(self)@ == old(self)@,
            r is Ok <==> old(self)@.periph_input() != PeriphClockInput::PeriphClock2,
            r is Err ==> r->Err_0 == ClockError::InUse,
    {
        if self.periph_clock_selector().input(self) != PeriphClockInput::PeriphClock2 {
            Ok(PeriphClock2Selector { _private: () })
        } else {
            Err(ClockError::InUse)
        }
    }

    /// Get the [`PRE_PERIPH_CLK_SEL` mux](PrePeriphClockSelector) immutably.
    pub fn pre_periph_clock_selector(&self) -> PrePeriphClockSelector {
        PrePeriphClockSelector { _private: () }
    }

    /// Get the [`PRE_PERIPH_CLK_SEL` mux](PrePeriphClockSelector) mutably.
    ///
    /// # Errors
    /// Returns [`ClockError::InUse`] exactly when the primary selector is
    /// currently fed by this mux.
    pub fn pre_periph_clock_selector_mut(&mut self) -> (r: Result<
        PrePeriphClockSelector,
        ClockError,
    >)
        requires
            old(self)@.wf(),
        ensures
            final(self)@ == old(self)@,
            r is Ok <==> old(self)@.periph_input() != PeriphClockInput::PrePeriphClock,
            r is Err ==> r->Err_0 == ClockError::InUse,
    {
        if self.periph_clock_selector().input(self) != PeriphClockInput::PrePeriphClock {
            Ok(PrePeriphClockSelector { _private: () })
        } else {
            Err(ClockError::InUse)
        }
    }

    /// Get the [ARM PLL](ArmPll) mutably.
    ///
    /// # Errors
    /// Returns [`ClockError::InUse`] exactly when the core clock currently
    /// runs off this PLL: the primary feeder selects it and the primary
    /// selector points at the primary feeder.
    pub fn arm_pll_mut(&mut self) -> (r: Result<ArmPll, ClockError>)
        requires
            old(self)@.wf(),
        ensures
            final(self)@ == old(self)@,
            r is Ok <==> !(old(self)@.pre_periph_input() == PrePeriphClockInput::ArmPll && old(
                self,
            )@.periph_input() == PeriphClockInput::PrePeriphClock),
            r is Err ==> r->Err_0 == ClockError::InUse,
    {
        if self.pre_periph_clock_selector().input(self) == PrePeriphClockInput::ArmPll
            && self.periph_clock_selector().input(self) == PeriphClockInput::PrePeriphClock {
            Err(ClockError::InUse)
        } else {
            Ok(ArmPll { _private: () })
        }
    }

    /// Get the [`UART_CLK_SEL` mux](UartClockSelector) immutably.
    pub fn uart_clock_selector(&self) -> UartClockSelector {
        UartClockSelector { _private: () }
    }

    /// Get the [`UART_CLK_SEL` mux](UartClockSelector) mutably.
    ///
    /// # Errors
    /// Returns [`ClockError::InUse`] exactly when some UART's clock gate is
    /// not disabled.
    pub fn uart_clock_selector_mut(&mut self) -> (r: Result<UartClockSelector, ClockError>)
        requires
            old(self)@.wf(),
        ensures
            final(self)@ == old(self)@,
            r is Ok <==> uart_gates_disabled(old(self)@),
            r is Err ==> r->Err_0 == ClockError::InUse,
    {
        let mut i: usize = 0;
        while i < 8
            invariant
                i <= 8,
                self@.wf(),
                *self == *old(self),
                forall|j: int|
                    0 <= j < i ==> self@.gate_state(#[trigger] uart_gate(j))
                        == ClockGate::Disabled,
            decreases 8 - i,
        {
            let g = uart_gate_at(i);
            if self.clock_gate(g) != ClockGate::Disabled {
                proof {
                    assert(self@.gate_state(uart_gate(i as int)) != ClockGate::Disabled);
                }
                return Err(ClockError::InUse);
            }
            i = i + 1;
        }
        Ok(UartClockSelector { _private: () })
    }
}

/// Common trait for hardware modules which are clock-gated.
///
/// The trait gives the CCM management code what it needs to validate that
/// clocking is correct for a module before handing that module to user
/// code: the module's gate coordinates and its frequency-validity
/// predicate.
pub trait ClockGated: Sized {
    /// The (register, field) coordinates of this module's clock gate.
    spec fn gate_spec() -> (usize, usize);

    /// Which clock-tree configurations are safe for this module.
    spec fn clock_ok(v: CcmView) -> bool;

    /// The error reported for an unsafe clock-tree configuration.
    spec fn clock_err(v: CcmView) -> ClockError;

    /// The (register, field) coordinates of this module's clock gate.
    fn gate() -> (g: (usize, usize))
        ensures
            g == Self::gate_spec(),
            valid_gate(g),
    ;

    /// Query the [`Ccm`] to determine if the clock path to this device is
    /// enabled, and operating at a safe frequency for this peripheral.
    fn check_clock(ccm: &Ccm) -> (r: Result<(), ClockError>)
        requires
            ccm@.wf(),
        ensures
            r is Ok <==> Self::clock_ok(ccm@),
            r is Err ==> r->Err_0 == Self::clock_err(ccm@),
    ;

    /// What holds of a freshly constructed instance of this device.
    spec fn fresh(r: Self) -> bool;

    /// Construct an instance of this device. Only [`Ccm::enable`] should
    /// call this, after checking that the module's gate was free and the clock path
    /// safe for the device.
    fn enable() -> (r: Self)
        ensures
            Self::fresh(r),
    ;

    /// Release this device, consuming it.
    ///
    /// Calling this directly is not recommended. Instead, [`Ccm::disable`]
    /// should be called so that the associated clock gate is cleared too.
    fn disable(self);
}

impl Ccm {
    /// Enable a [`ClockGated`] hardware module.
    ///
    /// This forces the peripheral to be always on, even when the package is
    /// in sleep mode; sleeping peripherals are not yet supported.
    ///
    /// # Errors
    /// Returns [`ClockError::InUse`] exactly when the module's gate is not
    /// disabled (preventing a second concurrent owner); otherwise returns
    /// the module's own error exactly when its frequency-validity predicate
    /// rejects the current tree. On success the module's gate is set to
    /// [`ClockGate::Enabled`] and nothing else changes.
    pub fn enable<T: ClockGated>(&mut self) -> (r: Result<T, ClockError>)
        requires
            old(self)@.wf(),
        ensures
            old(self)@.gate_state(T::gate_spec()) != ClockGate::Disabled ==> (r is Err && r->Err_0
                == ClockError::InUse && final(self)@ == old(self)@),
            old(self)@.gate_state(T::gate_spec()) == ClockGate::Disabled && !T::clock_ok(
                old(self)@,
            ) ==> (r is Err && r->Err_0 == T::clock_err(old(self)@) && final(self)@ == old(
                self,
            )@),
            old(self)@.gate_state(T::gate_spec()) == ClockGate::Disabled && T::clock_ok(
                old(self)@,
            ) ==> (r is Ok && T::fresh(r->Ok_0) && final(self)@.gate_state(T::gate_spec())
                == ClockGate::Enabled && (forall|other: (usize, usize)|
                valid_gate(other) && other != T::gate_spec()
                    ==> (#[trigger] final(self)@.gate_state(other)) == old(self)@.gate_state(
                    other,
                )) && (final(self)@ == CcmView {
                ccgr: final(self)@.ccgr,
                ..old(self)@
            })),
            final(self)@.wf(),
    {
        let gate = T::gate();
        if self.clock_gate(gate) != ClockGate::Disabled {
            return Err(ClockError::InUse);
        }
        match T::check_clock(self) {
            Ok(()) => {},
            Err(e) => {
                return Err(e);
            },
        }
        self.set_clock_gate(gate, ClockGate::Enabled);
        Ok(T::enable())
    }

    /// Disable a [`ClockGated`] hardware module, consuming it and setting
    /// its gate back to disabled. Nothing else changes.
    pub fn disable<T: ClockGated>(&mut self, instance: T)
        requires
            old(self)@.wf(),
        ensures
            final(self)@.gate_state(T::gate_spec()) == ClockGate::Disabled,
            forall|other: (usize, usize)|
                valid_gate(other) && other != T::gate_spec()
                    ==> (#[trigger] final(self)@.gate_state(other)) == old(self)@.gate_state(
                    other,
                ),
            final(self)@ == (CcmView { ccgr: final(self)@.ccgr, ..old(self)@ }),
            final(self)@.wf(),
    {
        let gate = T::gate();
        instance.disable();
        self.set_clock_gate(gate, ClockGate::Disabled);
    }

    /// Sanitize the clocking environment to bring the tree to its safest,
    /// simplest configuration: point the secondary feeder at the 24MHz
    /// oscillator, move the core clock onto the secondary feeder, then
    /// disable the ARM PLL.
    ///
    /// # Errors
    /// Each step is expected to succeed on a freshly constructed,
    /// un-reconfigured tree. Exactly when the primary selector already
    /// points at the secondary feeder, the first step's gating reports
    /// [`ClockError::InUse`] and nothing is modified; callers treat that as
    /// a fatal startup error, since it means the dependency graph was
    /// already in an unexpected state.
    pub fn sanitize(&mut self) -> (r: Result<(), ClockError>)
        requires
            old(self)@.wf(),
        ensures
            old(self)@.periph_input() == PeriphClockInput::PeriphClock2 ==> (r is Err && r->Err_0
                == ClockError::InUse && final(self)@ == old(self)@),
            old(self)@.periph_input() != PeriphClockInput::PeriphClock2 ==> (r is Ok
                && final(self)@.periph_input() == PeriphClockInput::PeriphClock2
                && final(self)@.periph2_input() == PeriphClock2Input::Oscillator
                && final(self)@.pre_periph_input() == old(self)@.pre_periph_input()
                && final(self)@.arm_pll_bypassed()
                && !final(self)@.arm_pll_enabled()
                && final(self)@.arm_pll_powered_down()
                && final(self)@.ccgr == old(self)@.ccgr
                && final(self)@.cscdr1 == old(self)@.cscdr1
                && final(self)@.pll_usb1 == old(self)@.pll_usb1),
            final(self)@.wf(),
    {
        // Swap the secondary core clock mux to the oscillator.
        let feeder2 = match self.periph_clock2_selector_mut() {
            Ok(s) => s,
            Err(e) => {
                return Err(e);
            },
        };
        feeder2.set_input(self, PeriphClock2Input::Oscillator);

        // Move the core clock to the secondary mux.
        let primary = self.periph_clock_selector_mut();
        primary.set_input(self, PeriphClockInput::PeriphClock2);

        // The core clock no longer runs through the primary feeder, so the
        // ARM PLL is free to be shut down.
        let pll = match self.arm_pll_mut() {
            Ok(p) => p,
            Err(e) => {
                return Err(e);
            },
        };
        pll.disable(self);
        Ok(())
    }

    /// The raw value of the bus clock divider register.
    pub fn cbcdr_raw(&self) -> (r: u32)
        ensures
            r == self@.cbcdr,
    {
        vol_read(&self.regs.cbcdr)
    }

    /// The raw value of the bus clock multiplexer register.
    pub fn cbcmr_raw(&self) -> (r: u32)
        ensures
            r == self@.cbcmr,
    {
        vol_read(&self.regs.cbcmr)
    }

    /// The raw value of the serial clock divider register.
    pub fn cscdr1_raw(&self) -> (r: u32)
        ensures
            r == self@.cscdr1,
    {
        vol_read(&self.regs.cscdr1)
    }

    /// The raw value of the handshake-in-progress register.
    pub fn cdhipr_raw(&self) -> (r: u32)
        ensures
            r == self@.cdhipr,
    {
        vol_read(&self.regs.cdhipr)
    }

    /// The raw value of one of the eight clock gate registers.
    pub fn ccgr_raw(&self, reg: usize) -> (r: u32)
        requires
            self@.wf(),
            reg < 8,
        ensures
            r == self@.ccgr[reg as int],
    {
        vol_read(&self.regs.ccgr[reg])
    }

    /// The raw value of the ARM PLL control register.
    pub fn pll_arm_raw(&self) -> (r: u32)
        ensures
            r == self@.pll_arm,
    {
        vol_read(&self.analog.pll_arm.val)
    }

    /// The raw value of the first USB PLL control register.
    pub fn pll_usb1_raw(&self) -> (r: u32)
        ensures
            r == self@.pll_usb1,
    {
        vol_read(&self.analog.pll_usb1.val)
    }
}

/// The ARM PLL (PLL1).
///
/// This PLL can only be used as the clock source for the ARM core and
/// adjacent peripherals, reached through the [`PrePeriphClockSelector`].
pub struct ArmPll {
    _private: (),
}

impl ArmPll {
    /// Disable this PLL to conserve power.
    ///
    /// The sequence forces the bypass first, then clears the enable, then
    /// asserts powerdown; in that order a disabled PLL never glitches a
    /// downstream consumer. The precondition carries what the accessor's
    /// gating checked: nothing downstream currently selects this source.
    pub fn disable(&self, ccm: &mut Ccm)
        requires
            old(ccm)@.wf(),
            !(old(ccm)@.pre_periph_input() == PrePeriphClockInput::ArmPll && old(
                ccm,
            )@.periph_input() == PeriphClockInput::PrePeriphClock),
        ensures
            final(ccm)@ == (CcmView {
                pll_arm: ((old(ccm)@.pll_arm | 0x0001_0000) & !0x0000_2000) | 0x0000_1000,
                ..old(ccm)@
            }),
            final(ccm)@.arm_pll_bypassed(),
            !final(ccm)@.arm_pll_enabled(),
            final(ccm)@.arm_pll_powered_down(),
            final(ccm)@.wf(),
    {
        // pll_arm[bypass]
        ccm.analog.pll_arm.write_set(0x0001_0000);
        // pll_arm[enable]
        ccm.analog.pll_arm.write_clear(0x0000_2000);
        // pll_arm[powerdown]
        ccm.analog.pll_arm.write_set(0x0000_1000);
        proof {
            let v = old(ccm)@.pll_arm;
            assert(bit_get(((v | 0x0001_0000u32) & !0x0000_2000u32) | 0x0000_1000u32, 16)
                && !bit_get(((v | 0x0001_0000u32) & !0x0000_2000u32) | 0x0000_1000u32, 13)
                && bit_get(((v | 0x0001_0000u32) & !0x0000_2000u32) | 0x0000_1000u32, 12))
                by (bit_vector);
        }
    }

    /// Whether this PLL is forced to bypass to its reference.
    pub fn bypassed(&self, ccm: &Ccm) -> (r: bool)
        ensures
            r == ccm@.arm_pll_bypassed(),
    {
        get_bit_u32(vol_read(&ccm.analog.pll_arm.val), 16)
    }

    /// Whether this PLL's output is enabled.
    pub fn enabled(&self, ccm: &Ccm) -> (r: bool)
        ensures
            r == ccm@.arm_pll_enabled(),
    {
        get_bit_u32(vol_read(&ccm.analog.pll_arm.val), 13)
    }

    /// Whether this PLL is powered down.
    pub fn powered_down(&self, ccm: &Ccm) -> (r: bool)
        ensures
            r == ccm@.arm_pll_powered_down(),
    {
        get_bit_u32(vol_read(&ccm.analog.pll_arm.val), 12)
    }
}

/// The first USB PLL (PLL3).
///
/// This PLL is used as the clock source for the first USB phy, as well as
/// being an optional clock reference for many peripherals, among them the
/// UARTs.
pub struct Usb1Pll {
    _private: (),
}

impl Usb1Pll {
    /// Query the multiplier applied to the 24MHz reference.
    pub fn multiplier(&self, ccm: &Ccm) -> (r: PeripheralPllMultiplier)
        ensures
            r == ccm@.usb1_pll_multiplier(),
    {
        // pll_usb1[div_select]
        let raw = vol_read(&ccm.analog.pll_usb1.val);
        proof {
            lemma_field_get_bound(raw, 1, 1);
            assert(field_mask(1) == 1) by (bit_vector);
        }
        PeripheralPllMultiplier::from_code(get_bits_u32(raw, 1, 1))
    }

    /// Whether this PLL is powered and enabled.
    pub fn enabled(&self, ccm: &Ccm) -> (r: bool)
        ensures
            r == ccm@.usb1_pll_enabled(),
    {
        // pll_usb1[power] && pll_usb1[enable]
        let raw = vol_read(&ccm.analog.pll_usb1.val);
        get_bit_u32(raw, 12) && get_bit_u32(raw, 13)
    }
}

} // verus!
