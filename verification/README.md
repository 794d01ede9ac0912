# A verified Game Boy Advance emulator core

The library (`src/`) holds the emulator's logic, each function with a
contract that Verus proves:

- `cpu`, `arm_formats`, `formats`: the ARM7TDMI register file with its
  banked registers per operating mode, the program status registers,
  condition codes, and the decoding of ARM instructions into their formats
  (the 4096-entry decode table included).
- `memory`: the I/O registers as bit-field structures, the address space
  with its little-endian reads and writes, and the memory bus.
- `gamepak`: cartridge header parsing, save-type detection and the flash
  memory command state machine.
- `dma`: the four DMA channels, their address stepping, protected regions,
  and the sound FIFO refills.
- `interrupts`, `gba`: interrupt servicing, the keypad interrupt condition
  and the BIOS patch.
- `apu`: the square, wave and noise channels, direct sound, the frame
  sequencer and the stereo mixer.
- `gpu`: text and affine backgrounds, bitmap modes, sprites, windows,
  colour effects, the compositor, and the display's line and frame state
  machine.

The library does not hold instruction execution beyond branches, branch
and exchange and software interrupts (no ALU, multiply, load/store or
block-transfer execution), instruction fetch and its prefetch, Thumb
decoding, the system step and frame loop, the APU's cycle stepping, bus
reads with their cycle costs, EEPROM save memory, or the binding of the I/O
registers to the memory image: registers are plain fields.

`tests/` exercises the library on concrete values. `app/` reads cartridge,
BIOS and save images from disk and hands their bytes to the library.
