//! The local APIC: feature detection, register locations and the choice
//! between xAPIC and x2APIC mode.
use vstd::prelude::*;
use raw_cpuid::{CpuId, FeatureInfo};

verus! {

/// The `IA32_APIC_BASE` model-specific register.
pub const IA32_APIC_BASE: u32 = 0x1b;

/// The x2APIC end-of-interrupt register.
pub const IA32_X2APIC_EOI: u32 = 0x80b;

/// The x2APIC version register.
pub const IA32_X2APIC_VERSION: u32 = 0x803;

/// The x2APIC spurious-interrupt vector register.
pub const IA32_X2APIC_SIVR: u32 = 0x80f;

/// Bits 12..51 of `IA32_APIC_BASE`: the physical base of the xAPIC registers.
pub const APIC_BASE_MASK: u64 = 0xf_ffff_ffff_f000;

/// Bit 10 of `IA32_APIC_BASE`: x2APIC mode enable.
pub const X2APIC_ENABLE_BIT: u64 = 0x400;

/// Offset of the xAPIC version register.
pub const APIC_VERSION_OFFSET: u64 = 0x30;

/// Offset of the xAPIC end-of-interrupt register.
pub const APIC_EOI_OFFSET: u64 = 0xb0;

/// Offset of the xAPIC spurious-interrupt vector register.
pub const APIC_SIVR_OFFSET: u64 = 0xf0;

/// Value written to the spurious-interrupt vector register to enable the
/// APIC (bit 8, software enable).
pub const APIC_SOFTWARE_ENABLE: u64 = 0x100;

#[verifier::external_type_specification]
#[verifier::external_body]
pub struct ExFeatureInfo(FeatureInfo);

/// `raw_cpuid::CpuId::get_feature_info` on `raw_cpuid::CpuId::new()`: the
/// feature leaf of the CPU this runs on, if it has one. The two calls stand
/// together because `CpuId` is generic over a reader trait of the crate,
/// which cannot bound a type declared here. Nothing is claimed of the
/// result: it depends on the machine.
#[verifier::external_body]
fn feature_info() -> Option<FeatureInfo> {
    CpuId::new().get_feature_info()
}

/// `raw_cpuid::FeatureInfo::has_apic`: whether the feature leaf reports a
/// local APIC. Nothing is claimed of the result: it depends on the machine.
#[verifier::external_body]
fn feature_has_apic(info: &FeatureInfo) -> bool {
    info.has_apic()
}

/// `raw_cpuid::FeatureInfo::has_x2apic`: whether the feature leaf reports
/// x2APIC support. Nothing is claimed of the result: it depends on the
/// machine.
#[verifier::external_body]
fn feature_has_x2apic(info: &FeatureInfo) -> bool {
    info.has_x2apic()
}

/// Whether the CPU has a local APIC; `None` if CPUID has no feature leaf.
pub fn check_apic() -> Option<bool> {
    match feature_info() {
        Some(info) => Some(feature_has_apic(&info)),
        None => None,
    }
}

/// Whether the CPU supports x2APIC mode; `None` if CPUID has no feature leaf.
pub fn check_x2apic() -> Option<bool> {
    match feature_info() {
        Some(info) => Some(feature_has_x2apic(&info)),
        None => None,
    }
}

/// The physical base address of the xAPIC registers, from the value of
/// `IA32_APIC_BASE`.
pub fn get_base_address(apic_base_msr: u64) -> (a: u64)
    ensures
        a == apic_base_msr & APIC_BASE_MASK,
        a <= APIC_BASE_MASK,
        a % 4096 == 0,
{
    assert((apic_base_msr & 0xf_ffff_ffff_f000u64) <= 0xf_ffff_ffff_f000u64) by (bit_vector);
    assert((apic_base_msr & 0xf_ffff_ffff_f000u64) % 4096 == 0) by (bit_vector);
    apic_base_msr & APIC_BASE_MASK
}

/// The value of `IA32_APIC_BASE` with x2APIC mode switched on.
pub fn x2apic_enabled_base(apic_base_msr: u64) -> (v: u64)
    ensures
        v == apic_base_msr | X2APIC_ENABLE_BIT,
{
    apic_base_msr | X2APIC_ENABLE_BIT
}

/// A register of the local APIC.
#[derive(Debug, Clone, Copy, PartialEq, Eq, Structural)]
pub enum Register {
    /// A model-specific register, by number.
    Msr(u32),
    /// A memory-mapped 32-bit register, by physical address.
    Mmio(u64),
}

/// A write of `value` to `register`.
#[derive(Debug, Clone, Copy, PartialEq, Eq, Structural)]
pub struct RegisterWrite {
    pub register: Register,
    pub value: u64,
}

/// The write that signals end of interrupt: zero to the x2APIC EOI
/// register in x2APIC mode, else zero to the xAPIC EOI register at offset
/// `0xb0` from the base that `IA32_APIC_BASE` gives.
pub fn eoi(x2apic: bool, apic_base_msr: u64) -> (w: RegisterWrite)
    ensures
        x2apic ==> w == (RegisterWrite { register: Register::Msr(IA32_X2APIC_EOI), value: 0 }),
        !x2apic ==> w == (RegisterWrite {
            register: Register::Mmio(((apic_base_msr & APIC_BASE_MASK) + APIC_EOI_OFFSET) as u64),
            value: 0,
        }),
{
    if x2apic {
        RegisterWrite { register: Register::Msr(IA32_X2APIC_EOI), value: 0 }
    } else {
        let base = get_base_address(apic_base_msr);
        RegisterWrite { register: Register::Mmio(base + APIC_EOI_OFFSET), value: 0 }
    }
}

/// A local APIC: where its version is read and how it is switched on.
pub trait ApicController {
    /// The register that holds the APIC version in its low 32 bits.
    fn get_version(&self) -> Register;

    /// The write that enables the APIC.
    fn enable(&self) -> RegisterWrite;
}

/// A local APIC in xAPIC mode, by the physical base of its registers.
pub struct Apic(u64);

impl Apic {
    /// The register base of the APIC.
    pub closed spec fn base(&self) -> u64 {
        self.0
    }

    /// The APIC whose base `IA32_APIC_BASE` gives.
    pub fn new(apic_base_msr: u64) -> (a: Apic)
        ensures
            a.base() == apic_base_msr & APIC_BASE_MASK,
            a.base() <= APIC_BASE_MASK,
    {
        Apic(get_base_address(apic_base_msr))
    }

    /// The register base of the APIC.
    pub fn base_address(&self) -> (b: u64)
        ensures
            b == self.base(),
    {
        self.0
    }

    #[verifier::type_invariant]
    closed spec fn base_in_range(&self) -> bool {
        self.0 <= APIC_BASE_MASK
    }
}

impl ApicController for Apic {
    /// The version register at offset `0x30`.
    fn get_version(&self) -> (r: Register)
        ensures
            r == Register::Mmio((self.base() + APIC_VERSION_OFFSET) as u64),
    {
        proof {
            use_type_invariant(self);
        }
        Register::Mmio(self.0 + APIC_VERSION_OFFSET)
    }

    /// `0x100` to the spurious-interrupt vector register at offset `0xf0`.
    fn enable(&self) -> (w: RegisterWrite)
        ensures
            w == (RegisterWrite {
                register: Register::Mmio((self.base() + APIC_SIVR_OFFSET) as u64),
                value: APIC_SOFTWARE_ENABLE,
            }),
    {
        proof {
            use_type_invariant(self);
        }
        RegisterWrite { register: Register::Mmio(self.0 + APIC_SIVR_OFFSET), value: APIC_SOFTWARE_ENABLE }
    }
}

/// A local APIC in x2APIC mode, reached through model-specific registers.
pub struct X2apic();

impl X2apic {
    /// The x2APIC.
    pub fn new() -> X2apic {
        X2apic()
    }
}

impl ApicController for X2apic {
    /// The x2APIC version register.
    fn get_version(&self) -> (r: Register)
        ensures
            r == Register::Msr(IA32_X2APIC_VERSION),
    {
        Register::Msr(IA32_X2APIC_VERSION)
    }

    /// `0x100` to the x2APIC spurious-interrupt vector register.
    fn enable(&self) -> (w: RegisterWrite)
        ensures
            w == (RegisterWrite { register: Register::Msr(IA32_X2APIC_SIVR), value: APIC_SOFTWARE_ENABLE }),
    {
        RegisterWrite { register: Register::Msr(IA32_X2APIC_SIVR), value: APIC_SOFTWARE_ENABLE }
    }
}

/// How the local APIC is brought up.
#[allow(inconsistent_fields)]
pub enum ApicSetup {
    /// Switch to x2APIC mode by writing `apic_base` to `IA32_APIC_BASE`,
    /// then use the x2APIC.
    X2apic { apic_base: u64, controller: X2apic },
    /// Use the xAPIC at the base that `IA32_APIC_BASE` gives.
    Xapic { controller: Apic },
}

/// Chooses x2APIC mode when the CPU supports it, and the xAPIC otherwise.
pub fn setup(x2apic_supported: bool, apic_base_msr: u64) -> (s: ApicSetup)
    ensures
        x2apic_supported ==> (match s {
            ApicSetup::X2apic { apic_base, controller: _ } => apic_base == apic_base_msr | X2APIC_ENABLE_BIT,
            ApicSetup::Xapic { controller: _ } => false,
        }),
        !x2apic_supported ==> (match s {
            ApicSetup::X2apic { apic_base: _, controller: _ } => false,
            ApicSetup::Xapic { controller } => controller.base() == apic_base_msr & APIC_BASE_MASK,
        }),
{
    if x2apic_supported {
        ApicSetup::X2apic { apic_base: x2apic_enabled_base(apic_base_msr), controller: X2apic::new() }
    } else {
        ApicSetup::Xapic { controller: Apic::new(apic_base_msr) }
    }
}

} // verus!
