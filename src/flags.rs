//! Status, fault and prochot registers as thin wrappers over their raw
//! bits, plus the MOS switch state.
use vstd::prelude::*;

verus! {

/// System status register (SYS_STAT) of the battery monitor.
#[derive(Clone, Copy, Debug, PartialEq, Eq, Structural)]
pub struct SystemStatus {
    bits: u8,
}

impl View for SystemStatus {
    type V = u8;

    closed spec fn view(&self) -> u8 {
        self.bits
    }
}

impl SystemStatus {
    /// Overcurrent in discharge.
    pub const OCD: u8 = 0b0000_0001;
    /// Short circuit in discharge.
    pub const SCD: u8 = 0b0000_0010;
    /// Cell overvoltage.
    pub const OV: u8 = 0b0000_0100;
    /// Cell undervoltage.
    pub const UV: u8 = 0b0000_1000;
    /// External override alert.
    pub const OVRD_ALERT: u8 = 0b0001_0000;
    /// Internal chip fault.
    pub const DEVICE_XREADY: u8 = 0b0010_0000;
    /// A fresh coulomb counter reading is available.
    pub const CC_READY: u8 = 0b1000_0000;
    /// Every named bit.
    pub const ALL: u8 = 0b1011_1111;

    /// A register value that keeps every bit of `bits`, reserved ones included.
    pub fn from_bits_retain(bits: u8) -> (r: Self)
        ensures
            r@ == bits,
    {
        SystemStatus { bits }
    }

    /// A register value that keeps only the named bits of `bits`.
    pub fn from_bits_truncate(bits: u8) -> (r: Self)
        ensures
            r@ == bits & Self::ALL,
    {
        SystemStatus { bits: bits & Self::ALL }
    }

    pub fn empty() -> (r: Self)
        ensures
            r@ == 0,
    {
        SystemStatus { bits: 0 }
    }

    pub fn bits(&self) -> (r: u8)
        ensures
            r == self@,
    {
        self.bits
    }

    /// Whether every bit of `flag` is set.
    pub fn contains(&self, flag: u8) -> (r: bool)
        ensures
            r == (self@ & flag == flag),
    {
        self.bits & flag == flag
    }

    /// Two register values with the same bits are the same value.
    pub proof fn lemma_view_injective(a: Self, b: Self)
        requires
            a@ == b@,
        ensures
            a == b,
    {
    }
}

impl Default for SystemStatus {
    fn default() -> (r: Self)
        ensures
            r@ == 0,
    {
        SystemStatus::empty()
    }
}

/// Charger status byte (high byte of the charger status word).
#[derive(Clone, Copy, Debug, PartialEq, Eq, Structural)]
pub struct ChargerStatusFlags {
    bits: u8,
}

impl View for ChargerStatusFlags {
    type V = u8;

    closed spec fn view(&self) -> u8 {
        self.bits
    }
}

impl ChargerStatusFlags {
    /// An AC adapter is present.
    pub const STAT_AC: u8 = 0b1000_0000;
    /// Input current optimisation has completed.
    pub const ICO_DONE: u8 = 0b0100_0000;
    /// The charger runs in VAP mode.
    pub const IN_VAP: u8 = 0b0010_0000;
    /// The charger is in VINDPM or OTG voltage regulation.
    pub const IN_VINDPM: u8 = 0b0001_0000;
    /// The charger is in IIN_DPM.
    pub const IN_IIN_DPM: u8 = 0b0000_1000;
    /// Fast charge.
    pub const IN_FCHRG: u8 = 0b0000_0100;
    /// Pre-charge.
    pub const IN_PCHRG: u8 = 0b0000_0010;
    /// OTG mode.
    pub const IN_OTG: u8 = 0b0000_0001;
    /// Every named bit.
    pub const ALL: u8 = 0b1111_1111;

    /// A register value that keeps every bit of `bits`, reserved ones included.
    pub fn from_bits_retain(bits: u8) -> (r: Self)
        ensures
            r@ == bits,
    {
        ChargerStatusFlags { bits }
    }

    /// A register value that keeps only the named bits of `bits`.
    pub fn from_bits_truncate(bits: u8) -> (r: Self)
        ensures
            r@ == bits & Self::ALL,
    {
        ChargerStatusFlags { bits: bits & Self::ALL }
    }

    pub fn empty() -> (r: Self)
        ensures
            r@ == 0,
    {
        ChargerStatusFlags { bits: 0 }
    }

    pub fn bits(&self) -> (r: u8)
        ensures
            r == self@,
    {
        self.bits
    }

    /// Whether every bit of `flag` is set.
    pub fn contains(&self, flag: u8) -> (r: bool)
        ensures
            r == (self@ & flag == flag),
    {
        self.bits & flag == flag
    }

    /// Two register values with the same bits are the same value.
    pub proof fn lemma_view_injective(a: Self, b: Self)
        requires
            a@ == b@,
        ensures
            a == b,
    {
    }
}

impl Default for ChargerStatusFlags {
    fn default() -> (r: Self)
        ensures
            r@ == 0,
    {
        ChargerStatusFlags::empty()
    }
}

/// Charger fault byte (low byte of the charger status word).
#[derive(Clone, Copy, Debug, PartialEq, Eq, Structural)]
pub struct ChargerFaultFlags {
    bits: u8,
}

impl View for ChargerFaultFlags {
    type V = u8;

    closed spec fn view(&self) -> u8 {
        self.bits
    }
}

impl ChargerFaultFlags {
    /// Input overvoltage.
    pub const FAULT_ACOV: u8 = 0b1000_0000;
    /// Battery overcurrent.
    pub const FAULT_BATOC: u8 = 0b0100_0000;
    /// Input overcurrent.
    pub const FAULT_ACOC: u8 = 0b0010_0000;
    /// System overvoltage.
    pub const FAULT_SYSOVP: u8 = 0b0001_0000;
    /// System undervoltage.
    pub const FAULT_VSYS_UVP: u8 = 0b0000_1000;
    /// Converter forced off.
    pub const FAULT_CONV_OFF: u8 = 0b0000_0100;
    /// OTG overvoltage.
    pub const FAULT_OTG_OVP: u8 = 0b0000_0010;
    /// OTG undervoltage.
    pub const FAULT_OTG_UVP: u8 = 0b0000_0001;
    /// Every named bit.
    pub const ALL: u8 = 0b1111_1111;

    /// A register value that keeps every bit of `bits`, reserved ones included.
    pub fn from_bits_retain(bits: u8) -> (r: Self)
        ensures
            r@ == bits,
    {
        ChargerFaultFlags { bits }
    }

    /// A register value that keeps only the named bits of `bits`.
    pub fn from_bits_truncate(bits: u8) -> (r: Self)
        ensures
            r@ == bits & Self::ALL,
    {
        ChargerFaultFlags { bits: bits & Self::ALL }
    }

    pub fn empty() -> (r: Self)
        ensures
            r@ == 0,
    {
        ChargerFaultFlags { bits: 0 }
    }

    pub fn bits(&self) -> (r: u8)
        ensures
            r == self@,
    {
        self.bits
    }

    /// Whether every bit of `flag` is set.
    pub fn contains(&self, flag: u8) -> (r: bool)
        ensures
            r == (self@ & flag == flag),
    {
        self.bits & flag == flag
    }

    /// Two register values with the same bits are the same value.
    pub proof fn lemma_view_injective(a: Self, b: Self)
        requires
            a@ == b@,
        ensures
            a == b,
    {
    }
}

impl Default for ChargerFaultFlags {
    fn default() -> (r: Self)
        ensures
            r@ == 0,
    {
        ChargerFaultFlags::empty()
    }
}

/// Prochot status, low byte of the prochot status word.
#[derive(Clone, Copy, Debug, PartialEq, Eq, Structural)]
pub struct ProchotLsbFlags {
    bits: u8,
}

impl View for ProchotLsbFlags {
    type V = u8;

    closed spec fn view(&self) -> u8 {
        self.bits
    }
}

impl ProchotLsbFlags {
    /// Prochot raised by VINDPM.
    pub const STAT_VINDPM: u8 = 0b1000_0000;
    /// Prochot raised by the independent comparator.
    pub const STAT_COMP: u8 = 0b0100_0000;
    /// Prochot raised by ICRIT.
    pub const STAT_ICRIT: u8 = 0b0010_0000;
    /// Prochot raised by INOM.
    pub const STAT_INOM: u8 = 0b0001_0000;
    /// Prochot raised by IDCHG1.
    pub const STAT_IDCHG1: u8 = 0b0000_1000;
    /// Prochot raised by VSYS.
    pub const STAT_VSYS: u8 = 0b0000_0100;
    /// Prochot raised by battery removal.
    pub const STAT_BAT_REMOVAL: u8 = 0b0000_0010;
    /// Prochot raised by adapter removal.
    pub const STAT_ADPT_REMOVAL: u8 = 0b0000_0001;
    /// Every named bit.
    pub const ALL: u8 = 0b1111_1111;

    /// A register value that keeps every bit of `bits`, reserved ones included.
    pub fn from_bits_retain(bits: u8) -> (r: Self)
        ensures
            r@ == bits,
    {
        ProchotLsbFlags { bits }
    }

    /// A register value that keeps only the named bits of `bits`.
    pub fn from_bits_truncate(bits: u8) -> (r: Self)
        ensures
            r@ == bits & Self::ALL,
    {
        ProchotLsbFlags { bits: bits & Self::ALL }
    }

    pub fn empty() -> (r: Self)
        ensures
            r@ == 0,
    {
        ProchotLsbFlags { bits: 0 }
    }

    pub fn bits(&self) -> (r: u8)
        ensures
            r == self@,
    {
        self.bits
    }

    /// Whether every bit of `flag` is set.
    pub fn contains(&self, flag: u8) -> (r: bool)
        ensures
            r == (self@ & flag == flag),
    {
        self.bits & flag == flag
    }

    /// Two register values with the same bits are the same value.
    pub proof fn lemma_view_injective(a: Self, b: Self)
        requires
            a@ == b@,
        ensures
            a == b,
    {
    }
}

impl Default for ProchotLsbFlags {
    fn default() -> (r: Self)
        ensures
            r@ == 0,
    {
        ProchotLsbFlags::empty()
    }
}

/// Prochot status, high byte of the prochot status word. Bits 5:4 hold the
/// prochot pulse width, which is also reported as a field of its own.
#[derive(Clone, Copy, Debug, PartialEq, Eq, Structural)]
pub struct ProchotMsbFlags {
    bits: u8,
}

impl View for ProchotMsbFlags {
    type V = u8;

    closed spec fn view(&self) -> u8 {
        self.bits
    }
}

impl ProchotMsbFlags {
    /// Extended prochot is enabled.
    pub const EN_PROCHOT_EXT: u8 = 0b0100_0000;
    /// Prochot clear request.
    pub const PROCHOT_CLEAR: u8 = 0b0000_1000;
    /// VAP failure.
    pub const STAT_VAP_FAIL: u8 = 0b0000_0010;
    /// Exit from VAP.
    pub const STAT_EXIT_VAP: u8 = 0b0000_0001;
    /// Every named bit.
    pub const ALL: u8 = 0b0100_1011;

    /// A register value that keeps every bit of `bits`, reserved ones included.
    pub fn from_bits_retain(bits: u8) -> (r: Self)
        ensures
            r@ == bits,
    {
        ProchotMsbFlags { bits }
    }

    /// A register value that keeps only the named bits of `bits`.
    pub fn from_bits_truncate(bits: u8) -> (r: Self)
        ensures
            r@ == bits & Self::ALL,
    {
        ProchotMsbFlags { bits: bits & Self::ALL }
    }

    pub fn empty() -> (r: Self)
        ensures
            r@ == 0,
    {
        ProchotMsbFlags { bits: 0 }
    }

    pub fn bits(&self) -> (r: u8)
        ensures
            r == self@,
    {
        self.bits
    }

    /// Whether every bit of `flag` is set.
    pub fn contains(&self, flag: u8) -> (r: bool)
        ensures
            r == (self@ & flag == flag),
    {
        self.bits & flag == flag
    }

    /// Two register values with the same bits are the same value.
    pub proof fn lemma_view_injective(a: Self, b: Self)
        requires
            a@ == b@,
        ensures
            a == b,
    {
    }
}

impl Default for ProchotMsbFlags {
    fn default() -> (r: Self)
        ensures
            r@ == 0,
    {
        ProchotMsbFlags::empty()
    }
}

/// State of the charge and discharge MOSFET switches.
#[derive(Clone, Copy, Debug, PartialEq, Eq, Structural)]
pub enum MosStatus {
    ChargeOn,
    DischargeOn,
    BothOn,
    BothOff,
    /// A source code outside the two-bit field.
    Unknown,
}

/// The switch state that a MOS status code stands for.
pub open spec fn mos_status_of(code: u8) -> MosStatus {
    if code == 0 {
        MosStatus::BothOff
    } else if code == 1 {
        MosStatus::ChargeOn
    } else if code == 2 {
        MosStatus::DischargeOn
    } else if code == 3 {
        MosStatus::BothOn
    } else {
        MosStatus::Unknown
    }
}

/// The code that a switch state is sent as; `Unknown` is sent as both off.
pub open spec fn mos_code_of(s: MosStatus) -> u8 {
    match s {
        MosStatus::BothOff => 0,
        MosStatus::ChargeOn => 1,
        MosStatus::DischargeOn => 2,
        MosStatus::BothOn => 3,
        MosStatus::Unknown => 0,
    }
}

impl MosStatus {
    /// Decodes the MOS status code of the wire record.
    pub fn from_code(code: u8) -> (r: MosStatus)
        ensures
            r == mos_status_of(code),
    {
        match code {
            0 => MosStatus::BothOff,
            1 => MosStatus::ChargeOn,
            2 => MosStatus::DischargeOn,
            3 => MosStatus::BothOn,
            _ => MosStatus::Unknown,
        }
    }

    /// Encodes the switch state as its wire code.
    pub fn code(&self) -> (r: u8)
        ensures
            r == mos_code_of(*self),
    {
        match self {
            MosStatus::BothOff => 0,
            MosStatus::ChargeOn => 1,
            MosStatus::DischargeOn => 2,
            MosStatus::BothOn => 3,
            MosStatus::Unknown => 0,
        }
    }
}

/// Every value of the two-bit field decodes to one of the four defined
/// switch states, and encoding that state gives the value back.
pub proof fn lemma_mos_status_total(code: u8)
    requires
        code < 4,
    ensures
        mos_status_of(code) != MosStatus::Unknown,
        mos_code_of(mos_status_of(code)) == code,
{
}

/// Every defined switch state survives encoding and decoding.
pub proof fn lemma_mos_status_round_trip(s: MosStatus)
    requires
        s != MosStatus::Unknown,
    ensures
        mos_status_of(mos_code_of(s)) == s,
        mos_code_of(s) < 4,
{
}

} // verus!
