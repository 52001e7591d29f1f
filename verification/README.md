# kernel

The verified core of a small x86_64 kernel, written in Verus.

`src/` is the library. Verus proves every function in it against its
contract; the few that only ask the CPU what it supports, and a unit
constructor, have no result that a contract could pin down:

- `memory` — frames, pages, their ranges and table indices; page-table
  entries and flags; page tables of the four levels, the recursive mapping
  and the creation of next-level tables; the kernel image bounds, heap and
  stack ranges, and what the new kernel page table identity-maps.
- `acpi` — the root system description pointer and its two checksums, table
  headers and checksums, the extended system description table, the FADT,
  the MADT and its interrupt controller records, and the tables filed by
  signature.
- `devices` — CPU feature queries (through `raw-cpuid`), local APIC register
  locations and the choice of x2APIC mode, I/O APIC discovery and register
  decoding.
- `framebuffer` — the text writer: cursor movement, wrapping, scrolling,
  cell addresses, glyph pixels and color conversions.
- `cpu`, `interrupts` — control register values and the keyboard scancode
  wait.

`app/` is the glue that touches the hardware: it reads the multiboot
information and device registers, hands plain values to the library and
performs the memory and register accesses the library returns.
