use nes_emu::bus::{Bus, NromMapper};

fn bus() -> Bus {
    Bus::new(NromMapper::new(vec![7; 0x4000], 0x2000))
}

#[test]
fn ram_is_mirrored_every_0x800() {
    let mut b = bus();
    b.write(0x0001, 0x5A);
    assert_eq!(b.read(0x0801), 0x5A);
    assert_eq!(b.read(0x1801), 0x5A);
}

#[test]
fn ppu_registers_are_mirrored_every_8() {
    let mut b = bus();
    b.write(0x2003, 0x11);
    assert_eq!(b.peek(0x3FFB), 0x11);
}

#[test]
fn ppu_status_read_clears_vblank() {
    let mut b = bus();
    b.write(0x2002, 0xC0);
    assert_eq!(b.peek(0x2002), 0xC0);
    assert_eq!(b.read(0x2002), 0xC0);
    assert_eq!(b.peek(0x2002), 0x40);
}

#[test]
fn cartridge_rom_is_mirrored_and_read_only() {
    let mut b = bus();
    assert_eq!(b.read(0x8000), 7);
    assert_eq!(b.read(0xC000), 7);
    b.write(0x8000, 1);
    assert_eq!(b.read(0x8000), 7);
    b.write(0x6001, 9);
    assert_eq!(b.read(0x6001), 9);
    assert_eq!(b.read(0x5000), 0);
}

#[test]
fn sixteen_bit_access_is_little_endian() {
    let mut b = bus();
    b.write16(0x0010, 0xBEEF);
    assert_eq!(b.peek(0x0010), 0xEF);
    assert_eq!(b.peek(0x0011), 0xBE);
    assert_eq!(b.read16(0x0010), 0xBEEF);
    assert_eq!(b.peek16(0x0010), 0xBEEF);
}

#[test]
fn nrom_mapper_reads_and_writes() {
    let mut m = NromMapper::new(vec![1, 2, 3], 4);
    assert_eq!(m.read(0x8001), 2);
    assert_eq!(m.read(0xC001), 2);
    assert_eq!(m.read(0x8005), 0);
    m.write(0x6002, 8);
    assert_eq!(m.read(0x6002), 8);
    assert_eq!(m.read(0x6010), 0);
}

#[test]
fn load_writes_outside_ram_too() {
    let mut b = bus();
    b.load(0x6000, &vec![1, 2, 3]);
    assert_eq!(b.peek(0x6000), 1);
    assert_eq!(b.peek(0x6002), 3);
    b.load(0x8000, &vec![9]);
    assert_eq!(b.peek(0x8000), 7);
}
