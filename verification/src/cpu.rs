//! Values written to CPU control registers at start-up, and the
//! model-specific registers the kernel programs.
use vstd::prelude::*;

verus! {

/// The extended feature enable register.
pub const IA32_EFER: u32 = 0xc000_0080;

/// The register holding the 64-bit `syscall` entry point.
pub const IA32_LSTAR: u32 = 0xc000_0082;

/// The register holding the compatibility-mode `syscall` entry point.
pub const IA32_CSTAR: u32 = 0xc000_0083;

/// `IA32_EFER` bit 0: `syscall` and `sysret` enabled.
pub const EFER_SYSCALL_ENABLE: u64 = 0x1;

/// `IA32_EFER` bit 11: no-execute page protection enabled.
pub const EFER_NO_EXECUTE_ENABLE: u64 = 0x800;

/// `CR0` bit 16: supervisor writes to read-only pages fault.
pub const CR0_WRITE_PROTECT: u64 = 0x1_0000;

/// The value of `IA32_EFER` with no-execute protection and `syscall`
/// enabled, all else kept.
pub fn extended_feature_value(efer: u64) -> (v: u64)
    ensures
        v == efer | EFER_NO_EXECUTE_ENABLE | EFER_SYSCALL_ENABLE,
{
    efer | EFER_NO_EXECUTE_ENABLE | EFER_SYSCALL_ENABLE
}

/// The value of `CR0` with write protection on, all else kept.
pub fn write_protect_value(cr0: u64) -> (v: u64)
    ensures
        v == cr0 | CR0_WRITE_PROTECT,
{
    cr0 | CR0_WRITE_PROTECT
}

} // verus!
