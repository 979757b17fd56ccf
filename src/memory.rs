use vstd::prelude::*;

pub mod io;

use crate::memory::io::{in_io_window, io_backed, IO, IO_START};

verus! {

/// Size of the program image (0x0000 to 0x7FFF).
pub const ROM_SIZE: usize = 0x8000;

/// Size of video RAM (0x8000 to 0x9FFF).
pub const VRAM_SIZE: usize = 0x2000;

/// Size of external RAM (0xA000 to 0xBFFF).
pub const ERAM_SIZE: usize = 0x2000;

/// Size of one work RAM bank (0xC000 to 0xCFFF, 0xD000 to 0xDFFF).
pub const WRAM_BANK_SIZE: usize = 0x1000;

/// Number of addresses on the bus.
pub const ADDRESS_SPACE: usize = 0x10000;

/// The region of the address space that owns an address.
#[derive(Debug, Clone, Copy, PartialEq, Eq, Structural)]
pub enum Region {
    Rom,
    VideoRam,
    ExternalRam,
    WorkRam1,
    WorkRam2,
    Io,
    Unmapped,
}

/// The region table: every address belongs to exactly one region.
pub open spec fn region_of(address: u16) -> Region {
    if address <= 0x7FFF {
        Region::Rom
    } else if address <= 0x9FFF {
        Region::VideoRam
    } else if address <= 0xBFFF {
        Region::ExternalRam
    } else if address <= 0xCFFF {
        Region::WorkRam1
    } else if address <= 0xDFFF {
        Region::WorkRam2
    } else if in_io_window(address as int) {
        Region::Io
    } else {
        Region::Unmapped
    }
}

/// A bus access that no real program makes.
#[derive(Debug, Clone, Copy, PartialEq, Eq, Structural)]
pub enum MemoryError {
    /// A write into the read-only program image.
    WriteToRom(u16),
    /// A read of an address that no region owns.
    UnmappedRead(u16),
    /// A write to an address that no region owns.
    UnmappedWrite(u16),
}

/// What a read of `address` gives on a bus whose contents are `mem`.
pub open spec fn bus_read(mem: Seq<u8>, address: u16) -> Result<u8, MemoryError> {
    if region_of(address) == Region::Unmapped {
        Err(MemoryError::UnmappedRead(address))
    } else {
        Ok(mem[address as int])
    }
}

/// Whether a write to `address` lands in storage (as opposed to being
/// refused or discarded).
pub open spec fn stores(address: u16) -> bool {
    match region_of(address) {
        Region::Rom | Region::Unmapped => false,
        Region::Io => io_backed(address as int),
        _ => true,
    }
}

/// What a write of `data` to `address` does to bus contents `mem`.
pub open spec fn bus_write(mem: Seq<u8>, address: u16, data: u8) -> Result<Seq<u8>, MemoryError> {
    match region_of(address) {
        Region::Rom => Err(MemoryError::WriteToRom(address)),
        Region::Unmapped => Err(MemoryError::UnmappedWrite(address)),
        _ => Ok(
            if stores(address) {
                mem.update(address as int, data)
            } else {
                mem
            },
        ),
    }
}

/// Bus contents right after construction from a program image.
pub open spec fn initial_contents(program: Seq<u8>) -> Seq<u8> {
    Seq::new(
        ADDRESS_SPACE as nat,
        |a: int|
            if a < ROM_SIZE {
                program[a]
            } else {
                0u8
            },
    )
}

/// Returns the region that owns `address`.
pub fn region(address: u16) -> (r: Region)
    ensures
        r == region_of(address),
{
    if address <= 0x7FFF {
        Region::Rom
    } else if address <= 0x9FFF {
        Region::VideoRam
    } else if address <= 0xBFFF {
        Region::ExternalRam
    } else if address <= 0xCFFF {
        Region::WorkRam1
    } else if address <= 0xDFFF {
        Region::WorkRam2
    } else if 0xFF00 <= address && address <= 0xFF7F {
        Region::Io
    } else {
        Region::Unmapped
    }
}

/// The 16-bit address space, one fixed buffer per region.
#[derive(Debug)]
pub struct Memory {
    /// 0x0000 ~ 0x7FFF
    rom: [u8; ROM_SIZE],
    /// 0x8000 ~ 0x9FFF
    vram: [u8; VRAM_SIZE],
    /// 0xA000 ~ 0xBFFF
    ram: [u8; ERAM_SIZE],
    /// 0xC000 ~ 0xCFFF
    wram1: [u8; WRAM_BANK_SIZE],
    /// 0xD000 ~ 0xDFFF
    wram2: [u8; WRAM_BANK_SIZE],
    /// 0xFF00 ~ 0xFF7F
    io: IO,
}

impl Memory {
    /// The byte that a read of `a` returns (zero where no region owns `a`).
    pub closed spec fn byte_at(&self, a: int) -> u8 {
        if a < 0x8000 {
            self.rom[a]
        } else if a < 0xA000 {
            self.vram[a - 0x8000]
        } else if a < 0xC000 {
            self.ram[a - 0xA000]
        } else if a < 0xD000 {
            self.wram1[a - 0xC000]
        } else if a < 0xE000 {
            self.wram2[a - 0xD000]
        } else if in_io_window(a) {
            self.io@[a - IO_START]
        } else {
            0
        }
    }
}

impl View for Memory {
    type V = Seq<u8>;

    /// The whole address space as 0x10000 bytes.
    open spec fn view(&self) -> Seq<u8> {
        Seq::new(ADDRESS_SPACE as nat, |a: int| self.byte_at(a))
    }
}

impl Memory {
    /// Builds the bus around a program image; every RAM region starts zeroed.
    pub fn new(program: [u8; ROM_SIZE]) -> (r: Memory)
        ensures
            r@ == initial_contents(program@),
    {
        let r = Memory {
            rom: program,
            vram: [0; VRAM_SIZE],
            ram: [0; ERAM_SIZE],
            wram1: [0; WRAM_BANK_SIZE],
            wram2: [0; WRAM_BANK_SIZE],
            io: IO::init(),
        };
        assert(r@ =~= initial_contents(program@));
        r
    }

    /// Reads one byte of a mapped address. An I/O address that no hardware
    /// register backs reads as zero.
    pub fn read(&self, address: u16) -> (r: u8)
        requires
            region_of(address) != Region::Unmapped,
        ensures
            bus_read(self@, address) == Ok::<u8, MemoryError>(r),
            in_io_window(address as int) && !io_backed(address as int) ==> r == 0,
    {
        match region(address) {
            Region::Rom => self.rom[address as usize],
            Region::VideoRam => self.vram[address as usize - 0x8000],
            Region::ExternalRam => self.ram[address as usize - 0xA000],
            Region::WorkRam1 => self.wram1[address as usize - 0xC000],
            Region::WorkRam2 => self.wram2[address as usize - 0xD000],
            Region::Io => self.io.read(address as usize),
            Region::Unmapped => 0,
        }
    }

    /// Writes one byte to a writable address (any region but the program
    /// image and the unmapped gaps). A write to an I/O address that no
    /// hardware register backs is discarded.
    pub fn write(&mut self, address: u16, data: u8)
        requires
            region_of(address) != Region::Rom,
            region_of(address) != Region::Unmapped,
        ensures
            bus_write(old(self)@, address, data) == Ok::<Seq<u8>, MemoryError>(final(self)@),
    {
        match region(address) {
            Region::VideoRam => {
                self.vram[address as usize - 0x8000] = data;
            },
            Region::ExternalRam => {
                self.ram[address as usize - 0xA000] = data;
            },
            Region::WorkRam1 => {
                self.wram1[address as usize - 0xC000] = data;
            },
            Region::WorkRam2 => {
                self.wram2[address as usize - 0xD000] = data;
            },
            Region::Io => {
                self.io.write(address as usize, data);
            },
            Region::Rom | Region::Unmapped => {},
        }
        proof {
            if stores(address) {
                assert(final(self)@ =~= old(self)@.update(address as int, data));
            } else {
                assert(final(self)@ =~= old(self)@);
            }
        }
    }
}

/// Every read of the program-image region returns the byte of the image the
/// bus was built from, and every write to it is refused, whatever the bus holds.
pub proof fn lemma_rom_region(program: [u8; ROM_SIZE], mem: Seq<u8>, address: u16, data: u8)
    requires
        address <= 0x7FFF,
    ensures
        bus_read(initial_contents(program@), address) == Ok::<u8, MemoryError>(program@[address as int]),
        bus_write(mem, address, data) == Err::<Seq<u8>, MemoryError>(MemoryError::WriteToRom(address)),
{
}

/// The two work RAM banks are separate storage: a write at an offset of one
/// bank is read back there and leaves the same offset of the other bank as
/// it was.
pub proof fn lemma_work_ram_banks(mem: Seq<u8>, offset: u16, data: u8)
    requires
        mem.len() == ADDRESS_SPACE,
        offset < WRAM_BANK_SIZE,
    ensures
        ({
            let first = (0xC000 + offset) as u16;
            let second = (0xD000 + offset) as u16;
            &&& bus_write(mem, first, data) is Ok
            &&& bus_read(bus_write(mem, first, data)->Ok_0, first) == Ok::<u8, MemoryError>(data)
            &&& bus_read(bus_write(mem, first, data)->Ok_0, second) == bus_read(mem, second)
            &&& bus_write(mem, second, data) is Ok
            &&& bus_read(bus_write(mem, second, data)->Ok_0, second) == Ok::<u8, MemoryError>(data)
            &&& bus_read(bus_write(mem, second, data)->Ok_0, first) == bus_read(mem, first)
        }),
{
}

/// Fits a program into the ROM region: a program shorter than the region
/// is padded with zeros.
pub fn pad_program(program: &[u8]) -> (r: [u8; ROM_SIZE])
    requires
        program@.len() <= ROM_SIZE,
    ensures
        forall|i: int|
            0 <= i < ROM_SIZE ==> #[trigger] r@[i] == (if i < program@.len() {
                program@[i]
            } else {
                0u8
            }),
{
    let size: usize = program.len();
    let mut buffer: [u8; ROM_SIZE] = [0; ROM_SIZE];
    let mut i: usize = 0;
    while i < size
        invariant
            size == program@.len(),
            size <= ROM_SIZE,
            i <= size,
            forall|j: int|
                0 <= j < ROM_SIZE ==> #[trigger] buffer@[j] == (if j < i {
                    program@[j]
                } else {
                    0u8
                }),
        decreases size - i,
    {
        buffer[i] = program[i];
        i = i + 1;
    }
    buffer
}

} // verus!
