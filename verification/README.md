# lpc_iap

Flash programming support for NXP LPC microcontrollers through their
In-Application-Programming (IAP) ROM, verified with Verus.

- `src/iap.rs`: IAP command numbers, return codes, command tables and the
  reading of result tables; the `Iap` trait of a chip.
- `src/lpc*.rs`: per-chip constants and the mapping of flash addresses to
  sectors, with the sector layout each chip has.
- `src/flash_algo.rs`: the erase and page-programming procedures of the
  CMSIS flash algorithms, as step functions from the outcome of one ROM call
  to the next call or the final result.
- `src/boot_sig.rs`: the vector-table checksum that LPC17xx boot code checks.
- `src/hex.rs`: hex text, printed and read.
- `src/target_yaml.rs`: generation of a probe-rs target description from a
  chip family description.
- `app/`: the code that runs on the chip (ROM calls, register writes, the
  flash algorithms' entry points) and the command-line tool that reads the
  family description and writes the target file.
