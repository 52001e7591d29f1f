use kernel::acpi::madt::{IOApic, InterruptControllerHeader};
use kernel::devices::apic::{
    check_apic, check_x2apic, eoi, get_base_address, setup, x2apic_enabled_base, Apic,
    ApicController, ApicSetup, Register, RegisterWrite, X2apic,
};
use kernel::devices::io_apic::IOApicController;

#[test]
fn apic_base_address_masks_msr() {
    assert_eq!(get_base_address(0xfee0_0900), 0xfee0_0000);
    assert_eq!(get_base_address(0xffff_ffff_ffff_ffff), 0xf_ffff_ffff_f000);
    assert_eq!(x2apic_enabled_base(0xfee0_0900), 0xfee0_0d00);
}

#[test]
fn end_of_interrupt_writes() {
    assert_eq!(
        eoi(true, 0xfee0_0900),
        RegisterWrite { register: Register::Msr(0x80b), value: 0 }
    );
    assert_eq!(
        eoi(false, 0xfee0_0900),
        RegisterWrite { register: Register::Mmio(0xfee0_00b0), value: 0 }
    );
}

#[test]
fn controllers_registers() {
    let apic = Apic::new(0xfee0_0900);
    assert_eq!(apic.base_address(), 0xfee0_0000);
    assert_eq!(apic.get_version(), Register::Mmio(0xfee0_0030));
    assert_eq!(apic.enable(), RegisterWrite { register: Register::Mmio(0xfee0_00f0), value: 0x100 });
    let x2 = X2apic::new();
    assert_eq!(x2.get_version(), Register::Msr(0x803));
    assert_eq!(x2.enable(), RegisterWrite { register: Register::Msr(0x80f), value: 0x100 });
}

#[test]
fn setup_prefers_x2apic() {
    match setup(true, 0xfee0_0900) {
        ApicSetup::X2apic { apic_base, .. } => assert_eq!(apic_base, 0xfee0_0d00),
        ApicSetup::Xapic { .. } => panic!("expected x2APIC"),
    }
    match setup(false, 0xfee0_0900) {
        ApicSetup::Xapic { controller } => assert_eq!(controller.base_address(), 0xfee0_0000),
        ApicSetup::X2apic { .. } => panic!("expected xAPIC"),
    }
}

#[test]
fn cpuid_queries_answer() {
    // Any x86_64 CPU has the feature leaf; both queries report on it.
    assert!(check_apic().is_some());
    assert!(check_x2apic().is_some());
}

#[test]
fn io_apic_controller_decodes_registers() {
    let io_apic = IOApic {
        header: InterruptControllerHeader { structure_type: 1, length: 12 },
        io_apic_id: 2,
        reserved: 0,
        io_apic_address: 0xfec0_0000,
        global_system_interrupt_base: 0,
    };
    let c = IOApicController::new(io_apic, 0x0f00_0000, 0x0017_0020, 0x0017_0020);
    assert_eq!(c.apic_id, 0x00);
    let c = IOApicController::new(io_apic, 0xf200_0000, 0x00ff_0011, 0x00ff_0011);
    assert_eq!(c.apic_id, 0xf0);
    assert_eq!(c.apic_ver, 0x11);
    assert_eq!(c.redir_entry_count, 0);
    let c = IOApicController::new(io_apic, 0, 0x0017_0020, 0x0017_0020);
    assert_eq!(c.apic_ver, 0x20);
    assert_eq!(c.redir_entry_count, 24);
    assert_eq!(c.select_address(), 0xfec0_0000);
    assert_eq!(c.window_address(), 0xfec0_0010);
}

#[test]
fn io_apic_controller_uses_each_read() {
    let io_apic = IOApic {
        header: InterruptControllerHeader { structure_type: 1, length: 12 },
        io_apic_id: 0,
        reserved: 0,
        io_apic_address: 0xfec0_0000,
        global_system_interrupt_base: 0,
    };
    let c = IOApicController::new(io_apic, 0x1000_0000, 0x0017_0020, 0x000f_0021);
    assert_eq!(c.apic_id, 0x10);
    assert_eq!(c.apic_ver, 0x20);
    assert_eq!(c.redir_entry_count, 16);
}
