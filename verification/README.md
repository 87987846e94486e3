# shim_sev

The Interrupt Descriptor Table of the SEV shim: its 256 entries, each entry's
handler address and code segment selector, and the options word (present bit,
gate type, privilege level, interrupt stack index).

- `src/` is the library. `bits` sets bits of 16-bit words through the
  `bit_field` crate, `addr` makes virtual addresses canonical through
  `x86_64::VirtAddr::new`, `options` holds `EntryOptions`, `entry` holds `Entry`,
  and `table` holds `InterruptDescriptorTable`.
- The three calls into outside crates (`BitField::set_bit`, `BitField::set_bits`,
  `VirtAddr::new`) are the only functions whose contracts are taken on trust.
- `app/` holds what touches the CPU: reading the `CS` register, turning handler
  functions into addresses, the interrupt stack frame, and `HardwareIdt`, a copy
  of the table laid out as the CPU reads it, which `lidt` loads. The copy is made
  from the library's table; later changes to that table reach the CPU only
  through a new copy.
