use kernel::acpi::bytes::{read_u16, read_u32, read_u64, sum_mod_256};
use kernel::acpi::fadt::{Fadt, FADT_SIZE};
use kernel::acpi::madt::{InterruptController, MAcpiFlags, Madt};
use kernel::acpi::sdt::Sdt;
use kernel::acpi::xsdt::Xsdt;
use kernel::acpi::{signature_key_of, AcpiController, AcpiError, Rsdp};
use kernel::devices::io_apic::io_apics;

fn fix_checksum(bytes: &mut [u8], at: usize, upto: usize) {
    bytes[at] = 0;
    let sum: u32 = bytes[..upto].iter().map(|b| *b as u32).sum();
    bytes[at] = ((256 - sum % 256) % 256) as u8;
}

fn header(signature: &[u8; 4], length: u32) -> Vec<u8> {
    let mut b = vec![0u8; length as usize];
    b[0..4].copy_from_slice(signature);
    b[4..8].copy_from_slice(&length.to_le_bytes());
    b[8] = 1;
    b[10..16].copy_from_slice(b"OEMID ");
    b[16..24].copy_from_slice(b"TABLEID ");
    b[24..28].copy_from_slice(&7u32.to_le_bytes());
    b[28..32].copy_from_slice(&0x1234u32.to_le_bytes());
    b[32..36].copy_from_slice(&9u32.to_le_bytes());
    b
}

fn rsdp_bytes(xsdt: u64) -> Vec<u8> {
    let mut b = vec![0u8; 36];
    b[0..8].copy_from_slice(b"RSD PTR ");
    b[9..15].copy_from_slice(b"BOCHS ");
    b[15] = 2;
    b[16..20].copy_from_slice(&0x7fe_0000u32.to_le_bytes());
    b[20..24].copy_from_slice(&36u32.to_le_bytes());
    b[24..32].copy_from_slice(&xsdt.to_le_bytes());
    fix_checksum(&mut b, 8, 20);
    fix_checksum(&mut b, 32, 36);
    b
}

#[test]
fn little_endian_reads() {
    let b = [0x01, 0x02, 0x03, 0x04, 0x05, 0x06, 0x07, 0x08, 0x09];
    assert_eq!(read_u16(&b, 1), 0x0302);
    assert_eq!(read_u32(&b, 0), 0x0403_0201);
    assert_eq!(read_u64(&b, 1), 0x0908_0706_0504_0302);
    assert_eq!(sum_mod_256(&[200, 100, 10], 3), 54);
    assert_eq!(sum_mod_256(&[200, 100, 10], 2), 44);
}

#[test]
fn rsdp_accepted() {
    let b = rsdp_bytes(0xdead_beef_0000);
    let r = Rsdp::parse(&b).unwrap();
    assert_eq!(&r.signature, b"RSD PTR ");
    assert_eq!(&r.oem_id, b"BOCHS ");
    assert_eq!(r.revision, 2);
    assert_eq!(r.rsdt_address, 0x7fe_0000);
    assert_eq!(r.length, 36);
    assert_eq!(r.xsdt_address, 0xdead_beef_0000);
}

#[test]
fn rsdp_v1_checksum_rejected() {
    let mut b = rsdp_bytes(0x1000);
    b[8] = b[8].wrapping_add(1);
    assert_eq!(Rsdp::parse(&b).err(), Some(AcpiError::RsdpV1Checksum));
}

#[test]
fn rsdp_v2_checksum_rejected() {
    let mut b = rsdp_bytes(0x1000);
    b[32] = b[32].wrapping_add(1);
    assert_eq!(Rsdp::parse(&b).err(), Some(AcpiError::RsdpV2Checksum));
}

#[test]
fn rsdp_too_short() {
    assert_eq!(Rsdp::parse(&[0u8; 35]).err(), Some(AcpiError::TooShort));
}

#[test]
fn sdt_header_and_check() {
    let mut b = header(b"FACP", 40);
    fix_checksum(&mut b, 9, 40);
    let s = Sdt::parse(&b).unwrap();
    assert_eq!(&s.signature, b"FACP");
    assert_eq!(s.length, 40);
    assert_eq!(s.revision, 1);
    assert_eq!(&s.oem_id, b"OEMID ");
    assert_eq!(&s.oem_table_id, b"TABLEID ");
    assert_eq!(s.oem_revision, 7);
    assert_eq!(s.creator_id, 0x1234);
    assert_eq!(s.creator_revision, 9);
    assert_eq!(s.check(&b), Ok(()));
    b[39] = 1;
    assert_eq!(s.check(&b), Err(AcpiError::SdtChecksum));
    assert!(Sdt::parse(&b[..35]).is_none());
    let zero = header(b"ZERO", 36);
    let mut z = zero.clone();
    z[4..8].copy_from_slice(&0u32.to_le_bytes());
    let zs = Sdt::parse(&z).unwrap();
    assert_eq!(zs.check(&z), Err(AcpiError::ZeroLength));
}

#[test]
fn sdt_frames_to_map() {
    let (first, mut rest) = Sdt::frames(0x7fe_1f00, 0x300);
    assert_eq!(first.number(), 0x7fe1);
    assert_eq!(rest.next().unwrap().number(), 0x7fe2);
    assert!(rest.next().is_none());
}

#[test]
fn xsdt_lists_addresses() {
    let mut b = header(b"XSDT", 36 + 16);
    b[36..44].copy_from_slice(&0x7fe_1000u64.to_le_bytes());
    b[44..52].copy_from_slice(&0x7fe_2000u64.to_le_bytes());
    fix_checksum(&mut b, 9, 52);
    let x = Xsdt::init(&b).unwrap();
    assert_eq!(x.entry_addresses(), &vec![0x7fe_1000, 0x7fe_2000]);
    assert_eq!(&x.sdt().signature, b"XSDT");
    b[40] ^= 1;
    assert_eq!(Xsdt::init(&b).err(), Some(AcpiError::SdtChecksum));
    assert_eq!(Xsdt::init(&b[..20]).err(), Some(AcpiError::TooShort));
    let mut short = header(b"XSDT", 36);
    short[4..8].copy_from_slice(&100u32.to_le_bytes());
    assert_eq!(Xsdt::init(&short).err(), Some(AcpiError::TooShort));
}

#[test]
fn controller_files_tables_by_signature() {
    let mut b = header(b"XSDT", 36);
    fix_checksum(&mut b, 9, 36);
    let x = Xsdt::init(&b).unwrap();
    let facp = Sdt::parse(&header(b"FACP", 36)).unwrap();
    let apic = Sdt::parse(&header(b"APIC", 36)).unwrap();
    let apic2 = Sdt::parse(&header(b"APIC", 36)).unwrap();
    let c = AcpiController::new(x, &[(facp, 0x1000), (apic, 0x2000), (apic2, 0x3000)]);
    assert_eq!(c.get(*b"FACP"), Some(0x1000));
    assert_eq!(c.get(*b"APIC"), Some(0x3000));
    assert_eq!(c.get(*b"HPET"), None);
    assert_eq!(c.get_entries_map().len(), 2);
    assert_eq!(c.get_entries_map().get(&signature_key_of(*b"FACP")), Some(&0x1000));
    assert_eq!(signature_key_of(*b"APIC"), u32::from_le_bytes(*b"APIC"));
}

fn madt_bytes() -> Vec<u8> {
    let mut b = header(b"APIC", 44);
    b[36..40].copy_from_slice(&0xfee0_0000u32.to_le_bytes());
    b[40..44].copy_from_slice(&1u32.to_le_bytes());
    // local APIC record (type 0, 8 bytes)
    b.extend_from_slice(&[0, 8, 0, 0, 1, 0, 0, 0]);
    // I/O APIC record (type 1, 12 bytes)
    b.extend_from_slice(&[1, 12, 2, 0]);
    b.extend_from_slice(&0xfec0_0000u32.to_le_bytes());
    b.extend_from_slice(&0u32.to_le_bytes());
    // interrupt source override (type 2, 10 bytes)
    b.extend_from_slice(&[2, 10, 0, 0]);
    b.extend_from_slice(&2u32.to_le_bytes());
    b.extend_from_slice(&0u16.to_le_bytes());
    // a second I/O APIC
    b.extend_from_slice(&[1, 12, 3, 0]);
    b.extend_from_slice(&0xfec1_0000u32.to_le_bytes());
    b.extend_from_slice(&24u32.to_le_bytes());
    let length = b.len() as u32;
    b[4..8].copy_from_slice(&length.to_le_bytes());
    let n = b.len();
    fix_checksum(&mut b, 9, n);
    b
}

#[test]
fn madt_records_in_order() {
    let b = madt_bytes();
    let m = Madt::new(&b).unwrap();
    assert_eq!(m.local_apic_address(), 0xfee0_0000);
    assert!(m.get_flags().contains(MAcpiFlags::PCAT_COMPAT()));
    let mut it = m.get_iter();
    assert_eq!(it.next(), Some(InterruptController::Another(0)));
    match it.next() {
        Some(InterruptController::IOApic(a)) => {
            assert_eq!(a.io_apic_id, 2);
            assert_eq!(a.io_apic_address, 0xfec0_0000);
            assert_eq!(a.global_system_interrupt_base, 0);
            assert_eq!(a.header.length, 12);
        }
        other => panic!("unexpected {:?}", other),
    }
    match it.next() {
        Some(InterruptController::InterruptSourceOverride(o)) => {
            assert_eq!(o.source, 0);
            assert_eq!(o.global_system_interrupt, 2);
            assert_eq!(o.flags, 0);
        }
        other => panic!("unexpected {:?}", other),
    }
    assert!(matches!(it.next(), Some(InterruptController::IOApic(_))));
    assert_eq!(it.next(), None);
    assert_eq!(it.next(), None);
}

#[test]
fn madt_repeats_zero_length_record() {
    let mut b = header(b"APIC", 44);
    b.extend_from_slice(&[5, 0, 0, 0]);
    let length = b.len() as u32;
    b[4..8].copy_from_slice(&length.to_le_bytes());
    let m = Madt::new(&b).unwrap();
    let mut it = m.get_iter();
    assert_eq!(it.next(), Some(InterruptController::Another(5)));
    assert_eq!(it.offset(), 44);
    assert_eq!(it.next(), Some(InterruptController::Another(5)));
    assert!(io_apics(&m).is_empty());
    assert!(Madt::new(&b[..43]).is_none());
}

#[test]
fn io_apics_of_madt() {
    let b = madt_bytes();
    let m = Madt::new(&b).unwrap();
    let found = io_apics(&m);
    assert_eq!(found.len(), 2);
    assert_eq!(found[0].io_apic_address, 0xfec0_0000);
    assert_eq!(found[1].io_apic_address, 0xfec1_0000);
    assert_eq!(found[1].global_system_interrupt_base, 24);
}

#[test]
fn fadt_fields() {
    let mut b = header(b"FACP", FADT_SIZE as u32);
    b[40..44].copy_from_slice(&0x7fe_3000u32.to_le_bytes());
    b[46..48].copy_from_slice(&9u16.to_le_bytes());
    b[109..111].copy_from_slice(&0x3u16.to_le_bytes());
    b[116] = 1;
    b[117] = 8;
    b[120..128].copy_from_slice(&0xcf9u64.to_le_bytes());
    b[128] = 6;
    b[140..148].copy_from_slice(&0x7fe_3000u64.to_le_bytes());
    b[268..276].copy_from_slice(&0x4b4d_564bu64.to_le_bytes());
    let f = Fadt::new(&b).unwrap();
    assert_eq!(f.dsdt, 0x7fe_3000);
    assert_eq!(f.sci_int, 9);
    assert_eq!(f.iapc_boot_arch, 3);
    assert_eq!(f.reset_reg.address_space_id, 1);
    assert_eq!(f.reset_reg.register_bit_width, 8);
    assert_eq!(f.reset_reg.address, 0xcf9);
    assert_eq!(f.reset_value, 6);
    assert_eq!(f.x_dsdt, 0x7fe_3000);
    assert_eq!(f.hypervisor_vendor_identity, 0x4b4d_564b);
    assert_eq!(&f.header.signature, b"FACP");
    assert!(Fadt::new(&b[..FADT_SIZE - 1]).is_none());
}

#[test]
fn madt_yields_short_records_and_goes_on() {
    let mut b = header(b"APIC", 44);
    // An I/O APIC record of length 8: its fields run into the next record.
    b.extend_from_slice(&[1, 8, 2, 0, 0x00, 0x00, 0xc0, 0xfe]);
    b.extend_from_slice(&[7, 4, 0, 0]);
    // A second, full I/O APIC record.
    b.extend_from_slice(&[1, 12, 3, 0]);
    b.extend_from_slice(&0xfec1_0000u32.to_le_bytes());
    b.extend_from_slice(&24u32.to_le_bytes());
    let length = b.len() as u32;
    b[4..8].copy_from_slice(&length.to_le_bytes());
    let m = Madt::new(&b).unwrap();
    let mut it = m.get_iter();
    match it.next() {
        Some(InterruptController::IOApic(a)) => {
            assert_eq!(a.header.length, 8);
            assert_eq!(a.io_apic_address, 0xfec0_0000);
            assert_eq!(a.global_system_interrupt_base, 0x0000_0407);
        }
        other => panic!("unexpected {:?}", other),
    }
    assert_eq!(it.next(), Some(InterruptController::Another(7)));
    assert!(matches!(it.next(), Some(InterruptController::IOApic(_))));
    assert_eq!(it.next(), None);
    let at_end = it.offset();
    assert_eq!(it.next(), None);
    assert_eq!(it.offset(), at_end);
    let found = io_apics(&m);
    assert_eq!(found.len(), 2);
    assert_eq!(found[1].io_apic_address, 0xfec1_0000);
}

#[test]
fn madt_short_record_at_table_end_is_read_within_the_bytes() {
    let mut b = header(b"APIC", 44);
    b.extend_from_slice(&[1, 12, 2, 0]);
    b.extend_from_slice(&0xfec0_0000u32.to_le_bytes());
    b.extend_from_slice(&0u32.to_le_bytes());
    b.extend_from_slice(&[2, 6, 0, 9, 0, 0]);
    let length = b.len() as u32;
    b[4..8].copy_from_slice(&length.to_le_bytes());
    let m = Madt::new(&b).unwrap();
    let mut it = m.get_iter();
    assert!(matches!(it.next(), Some(InterruptController::IOApic(_))));
    // The override's fields would run past the bytes given.
    assert_eq!(it.next(), None);
    // With the memory after the table readable, the short override is
    // handed out with the bytes that follow it, and the records end at the
    // table's length.
    b.extend_from_slice(&[0x0d, 0x00, 0xff, 0xff]);
    let m = Madt::new(&b).unwrap();
    let mut it = m.get_iter();
    assert!(matches!(it.next(), Some(InterruptController::IOApic(_))));
    match it.next() {
        Some(InterruptController::InterruptSourceOverride(o)) => {
            assert_eq!(o.header.length, 6);
            assert_eq!(o.source, 9);
            assert_eq!(o.global_system_interrupt, 0x000d_0000);
            assert_eq!(o.flags, 0xffff);
        }
        other => panic!("unexpected {:?}", other),
    }
    assert_eq!(it.offset(), length as usize);
    assert_eq!(it.next(), None);
    assert_eq!(it.offset(), length as usize);
}

#[test]
fn madt_short_io_apic_then_short_record() {
    // A 56-byte table: an I/O APIC record of length 8 at 44, then a record
    // of length 4 whose bytes are the I/O APIC's last field.
    let mut b = header(b"APIC", 44);
    b.extend_from_slice(&[1, 8, 4, 0, 0x00, 0x00, 0xc0, 0xfe]);
    b.extend_from_slice(&[3, 4, 0, 0]);
    b[4..8].copy_from_slice(&56u32.to_le_bytes());
    let m = Madt::new(&b).unwrap();
    let mut it = m.get_iter();
    match it.next() {
        Some(InterruptController::IOApic(a)) => {
            assert_eq!(a.io_apic_id, 4);
            assert_eq!(a.io_apic_address, 0xfec0_0000);
            assert_eq!(a.global_system_interrupt_base, 0x0000_0403);
        }
        other => panic!("unexpected {:?}", other),
    }
    assert_eq!(it.next(), Some(InterruptController::Another(3)));
    assert_eq!(it.next(), None);
    assert_eq!(io_apics(&m).len(), 1);
}

#[test]
fn sdt_mapped_end_is_end_of_last_frame() {
    assert_eq!(Sdt::mapped_end(0x7fe_1000, 0x74), 0x7fe_2000);
    assert_eq!(Sdt::mapped_end(0x7fe_1f00, 0x100), 0x7fe_3000);
    assert_eq!(Sdt::mapped_end(0x7fe_1f00, 0xff), 0x7fe_2000);
}

#[test]
fn madt_records_end_at_table_length() {
    let mut b = header(b"APIC", 44);
    b.extend_from_slice(&[0, 8, 0, 0, 1, 0, 0, 0]);
    b.extend_from_slice(&[9, 4, 0, 0]);
    // The header's length covers the first record only.
    b[4..8].copy_from_slice(&52u32.to_le_bytes());
    let m = Madt::new(&b).unwrap();
    let mut it = m.get_iter();
    assert_eq!(it.next(), Some(InterruptController::Another(0)));
    assert_eq!(it.next(), None);
}

#[test]
fn xsdt_zero_length_rejected() {
    let mut b = header(b"XSDT", 36);
    b[4..8].copy_from_slice(&0u32.to_le_bytes());
    assert_eq!(Xsdt::init(&b).err(), Some(AcpiError::ZeroLength));
}
