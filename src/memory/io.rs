use vstd::prelude::*;

verus! {

/// First address of the I/O register window.
pub const IO_START: usize = 0xFF00;

/// Number of addresses in the I/O register window (0xFF00 to 0xFF7F).
pub const IO_SIZE: usize = 0x80;

/// Whether a named hardware register stores the byte at `address`.
/// Other addresses of the I/O window read as zero and drop writes.
pub open spec fn io_backed(address: int) -> bool {
    ||| address == 0xFF00
    ||| 0xFF01 <= address <= 0xFF02
    ||| 0xFF04 <= address <= 0xFF07
    ||| address == 0xFF0F
    ||| 0xFF10 <= address <= 0xFF26
    ||| 0xFF30 <= address <= 0xFF3F
    ||| 0xFF40 <= address <= 0xFF4B
    ||| address == 0xFF4F
    ||| address == 0xFF50
    ||| 0xFF51 <= address <= 0xFF55
    ||| 0xFF68 <= address <= 0xFF6B
    ||| address == 0xFF70
}

/// Whether `address` lies in the I/O register window.
pub open spec fn in_io_window(address: int) -> bool {
    IO_START <= address < IO_START + IO_SIZE
}

/// The memory-mapped hardware registers, one buffer per named sub-range.
#[derive(Debug)]
pub struct IO {
    /// 0xFF00
    joypad: [u8; 1],
    /// 0xFF01 ~ 0xFF02
    serial: [u8; 2],
    /// 0xFF04 ~ 0xFF07
    timer: [u8; 4],
    /// 0xFF0F
    interrupts: [u8; 1],
    /// 0xFF10 ~ 0xFF26
    audio: [u8; 23],
    /// 0xFF30 ~ 0xFF3F
    wave: [u8; 16],
    /// 0xFF40 ~ 0xFF4B
    lcd: [u8; 12],
    /// 0xFF4F
    vram_bank_select: [u8; 1],
    /// 0xFF50
    boot_rom: [u8; 1],
    /// 0xFF51 ~ 0xFF55
    vram_dma: [u8; 5],
    /// 0xFF68 ~ 0xFF6B
    obj_palettes: [u8; 4],
    /// 0xFF70
    wram_bank_select: [u8; 1],
}

impl IO {
    /// The byte that a read of `address` (inside the I/O window) returns.
    pub closed spec fn byte_at(&self, address: int) -> u8 {
        if address == 0xFF00 {
            self.joypad[0]
        } else if 0xFF01 <= address <= 0xFF02 {
            self.serial[address - 0xFF01]
        } else if 0xFF04 <= address <= 0xFF07 {
            self.timer[address - 0xFF04]
        } else if address == 0xFF0F {
            self.interrupts[0]
        } else if 0xFF10 <= address <= 0xFF26 {
            self.audio[address - 0xFF10]
        } else if 0xFF30 <= address <= 0xFF3F {
            self.wave[address - 0xFF30]
        } else if 0xFF40 <= address <= 0xFF4B {
            self.lcd[address - 0xFF40]
        } else if address == 0xFF4F {
            self.vram_bank_select[0]
        } else if address == 0xFF50 {
            self.boot_rom[0]
        } else if 0xFF51 <= address <= 0xFF55 {
            self.vram_dma[address - 0xFF51]
        } else if 0xFF68 <= address <= 0xFF6B {
            self.obj_palettes[address - 0xFF68]
        } else if address == 0xFF70 {
            self.wram_bank_select[0]
        } else {
            0
        }
    }
}

impl View for IO {
    type V = Seq<u8>;

    /// The window as 0x80 bytes: entry `i` is what a read of `0xFF00 + i` returns.
    open spec fn view(&self) -> Seq<u8> {
        Seq::new(IO_SIZE as nat, |i: int| self.byte_at(IO_START + i))
    }
}

impl IO {
    /// Every hardware register starts at zero.
    pub fn init() -> (r: IO)
        ensures
            r@ == Seq::new(IO_SIZE as nat, |i: int| 0u8),
    {
        let r = IO {
            joypad: [0; 1],
            serial: [0; 2],
            timer: [0; 4],
            interrupts: [0; 1],
            audio: [0; 23],
            wave: [0; 16],
            lcd: [0; 12],
            vram_bank_select: [0; 1],
            boot_rom: [0; 1],
            vram_dma: [0; 5],
            obj_palettes: [0; 4],
            wram_bank_select: [0; 1],
        };
        assert(r@ =~= Seq::new(IO_SIZE as nat, |i: int| 0u8));
        r
    }

    /// Reads a hardware register; addresses that no register backs read as zero.
    pub fn read(&self, address: usize) -> (r: u8)
        ensures
            r == (if in_io_window(address as int) {
                self@[address - IO_START]
            } else {
                0u8
            }),
            !io_backed(address as int) ==> r == 0,
    {
        if address == 0xFF00 {
            self.joypad[0]
        } else if 0xFF01 <= address && address <= 0xFF02 {
            self.serial[address - 0xFF01]
        } else if 0xFF04 <= address && address <= 0xFF07 {
            self.timer[address - 0xFF04]
        } else if address == 0xFF0F {
            self.interrupts[0]
        } else if 0xFF10 <= address && address <= 0xFF26 {
            self.audio[address - 0xFF10]
        } else if 0xFF30 <= address && address <= 0xFF3F {
            self.wave[address - 0xFF30]
        } else if 0xFF40 <= address && address <= 0xFF4B {
            self.lcd[address - 0xFF40]
        } else if address == 0xFF4F {
            self.vram_bank_select[0]
        } else if address == 0xFF50 {
            self.boot_rom[0]
        } else if 0xFF51 <= address && address <= 0xFF55 {
            self.vram_dma[address - 0xFF51]
        } else if 0xFF68 <= address && address <= 0xFF6B {
            self.obj_palettes[address - 0xFF68]
        } else if address == 0xFF70 {
            self.wram_bank_select[0]
        } else {
            0
        }
    }

    /// Writes a hardware register; a write to an address that no register
    /// backs is discarded.
    pub fn write(&mut self, address: usize, data: u8)
        ensures
            final(self)@ == (if in_io_window(address as int) && io_backed(address as int) {
                old(self)@.update(address - IO_START, data)
            } else {
                old(self)@
            }),
    {
        if address == 0xFF00 {
            self.joypad[0] = data;
        } else if 0xFF01 <= address && address <= 0xFF02 {
            self.serial[address - 0xFF01] = data;
        } else if 0xFF04 <= address && address <= 0xFF07 {
            self.timer[address - 0xFF04] = data;
        } else if address == 0xFF0F {
            self.interrupts[0] = data;
        } else if 0xFF10 <= address && address <= 0xFF26 {
            self.audio[address - 0xFF10] = data;
        } else if 0xFF30 <= address && address <= 0xFF3F {
            self.wave[address - 0xFF30] = data;
        } else if 0xFF40 <= address && address <= 0xFF4B {
            self.lcd[address - 0xFF40] = data;
        } else if address == 0xFF4F {
            self.vram_bank_select[0] = data;
        } else if address == 0xFF50 {
            self.boot_rom[0] = data;
        } else if 0xFF51 <= address && address <= 0xFF55 {
            self.vram_dma[address - 0xFF51] = data;
        } else if 0xFF68 <= address && address <= 0xFF6B {
            self.obj_palettes[address - 0xFF68] = data;
        } else if address == 0xFF70 {
            self.wram_bank_select[0] = data;
        }
        proof {
            if in_io_window(address as int) && io_backed(address as int) {
                assert(final(self)@ =~= old(self)@.update(address - IO_START, data));
            } else {
                assert(final(self)@ =~= old(self)@);
            }
        }
    }
}

} // verus!
