use vstd::prelude::*;

verus! {

/// The two 16-byte banks of wave pattern RAM. The wave channel plays the
/// bank that its bank-number field selects; the processor reads and writes
/// the other one.
pub struct WaveRam {
    pub bytes: [u8; 32],
}

impl WaveRam {
    /// Wave RAM cleared to zero.
    pub fn new() -> (ram: WaveRam)
        ensures
            forall|i: int| 0 <= i < 32 ==> ram.bytes@[i] == 0,
    {
        WaveRam { bytes: [0u8; 32] }
    }

    /// Byte `offset` of bank `bank`.
    pub fn read_wave_ram_byte(&self, bank: u8, offset: u32) -> (byte: u8)
        requires
            bank < 2,
            offset < 16,
        ensures
            byte == self.bytes@[bank * 16 + offset],
    {
        self.bytes[bank as usize * 16 + offset as usize]
    }

    /// A processor write to byte `offset` of wave RAM while the channel has bank
    /// `selected_bank` selected: it lands in the other bank.
    pub fn write_wave_ram_byte(&mut self, selected_bank: u8, offset: u32, value: u8)
        requires
            selected_bank < 2,
            offset < 16,
        ensures
            final(self).bytes@ == old(self).bytes@.update((1 - selected_bank) * 16 + offset, value),
    {
        let bank: usize = if selected_bank == 0 { 1 } else { 0 };
        self.bytes[bank * 16 + offset as usize] = value;
    }
}

} // verus!
