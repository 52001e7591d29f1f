//! Interrupt controllers: the local APIC and the I/O APICs.
pub mod apic;
pub mod io_apic;
