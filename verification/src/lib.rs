//! Verified core of a small x86_64 kernel: physical frames and virtual pages,
//! page-table entries and tables, ACPI table parsing, APIC register logic and
//! the framebuffer text writer.
pub mod memory;

pub mod acpi;
pub mod devices;
pub mod framebuffer;
pub mod cpu;
pub mod interrupts;
