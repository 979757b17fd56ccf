use gbc::memory::{pad_program, region, Memory, Region, ROM_SIZE};
use gbc::memory::io::IO;

fn image() -> [u8; ROM_SIZE] {
    let mut rom = [0u8; ROM_SIZE];
    for (i, b) in rom.iter_mut().enumerate() {
        *b = (i % 251) as u8;
    }
    rom
}

#[test]
fn rom_reads_return_the_image() {
    let rom = image();
    let memory = Memory::new(rom);
    for a in [0x0000u16, 0x0001, 0x0100, 0x4000, 0x7FFE, 0x7FFF] {
        assert_eq!(memory.read(a), rom[a as usize]);
    }
}

#[test]
fn work_ram_banks_do_not_alias() {
    let mut memory = Memory::new([0; ROM_SIZE]);
    memory.write(0xC000, 0x11);
    assert_eq!(memory.read(0xD000), 0x00);
    memory.write(0xD000, 0x22);
    assert_eq!(memory.read(0xC000), 0x11);
    assert_eq!(memory.read(0xD000), 0x22);
}

#[test]
fn ram_regions_start_zeroed_and_keep_writes() {
    let mut memory = Memory::new(image());
    for a in [0x8000u16, 0x9FFF, 0xA000, 0xBFFF, 0xCFFF, 0xDFFF] {
        assert_eq!(memory.read(a), 0);
        memory.write(a, 0x77);
        assert_eq!(memory.read(a), 0x77);
    }
}

#[test]
fn io_gaps_read_zero_and_drop_writes() {
    let mut memory = Memory::new([0; ROM_SIZE]);
    memory.write(0xFF03, 0x99);
    assert_eq!(memory.read(0xFF03), 0);
    memory.write(0xFF40, 0x91);
    assert_eq!(memory.read(0xFF40), 0x91);
    memory.write(0xFF6B, 0x05);
    assert_eq!(memory.read(0xFF6B), 0x05);
}

#[test]
fn io_registers_directly() {
    let mut io = IO::init();
    io.write(0xFF26, 0x80);
    io.write(0xFF27, 0x80);
    assert_eq!(io.read(0xFF26), 0x80);
    assert_eq!(io.read(0xFF27), 0);
    assert_eq!(io.read(0x1234), 0);
}

#[test]
fn region_table() {
    assert_eq!(region(0x7FFF), Region::Rom);
    assert_eq!(region(0x8000), Region::VideoRam);
    assert_eq!(region(0xA000), Region::ExternalRam);
    assert_eq!(region(0xC000), Region::WorkRam1);
    assert_eq!(region(0xD000), Region::WorkRam2);
    assert_eq!(region(0xE000), Region::Unmapped);
    assert_eq!(region(0xFF00), Region::Io);
    assert_eq!(region(0xFF7F), Region::Io);
    assert_eq!(region(0xFF80), Region::Unmapped);
}

#[test]
fn program_padding() {
    let rom = pad_program(&[1, 2, 3]);
    assert_eq!(&rom[..4], &[1, 2, 3, 0]);
    assert_eq!(rom[ROM_SIZE - 1], 0);
    let full = vec![9u8; ROM_SIZE];
    assert_eq!(pad_program(&full)[ROM_SIZE - 1], 9);
}
