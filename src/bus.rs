use vstd::prelude::*;

verus! {

/// Bytes of internal RAM; the RAM window repeats them every 0x0800 addresses.
pub const RAM_SIZE: usize = 0x0800;

/// Registers of the picture unit; its window repeats them every 8 addresses.
pub const PPU_REGISTER_COUNT: usize = 8;

/// Registers of the audio and controller block at 0x4000-0x401F.
pub const IO_REGISTER_COUNT: usize = 0x20;

/// Bytes of battery-backed work RAM that the cartridge maps at 0x6000-0x7FFF.
pub const SAVE_RAM_SIZE: usize = 0x2000;

/// Size of one bank of program ROM.
pub const PRG_BANK_SIZE: usize = 0x4000;

/// A read of the picture unit's status register keeps these bits and clears its
/// vertical-blank bit.
pub const VBLANK_CLEAR_MASK: u8 = 0x7F;

/// The cartridge of the simplest kind: program ROM at 0x8000-0xFFFF (one bank is
/// mirrored into both halves) and work RAM at 0x6000-0x7FFF.
pub struct NromMapper {
    pub prg_rom: Vec<u8>,
    pub save_ram: Vec<u8>,
}

/// What the cartridge answers at `a`; open addresses read as 0.
pub open spec fn nrom_read(prg: Seq<u8>, save: Seq<u8>, a: u16) -> u8 {
    if 0x6000 <= a <= 0x7FFF {
        let i = a - 0x6000;
        if i < save.len() {
            save[i]
        } else {
            0
        }
    } else if a >= 0x8000 {
        let i = if prg.len() > PRG_BANK_SIZE {
            a - 0x8000
        } else {
            (a - 0x8000) % (PRG_BANK_SIZE as int)
        };
        if i < prg.len() {
            prg[i]
        } else {
            0
        }
    } else {
        0
    }
}

/// The work RAM after a write of `v` at `a`; ROM and open addresses ignore writes.
pub open spec fn nrom_write(save: Seq<u8>, a: u16, v: u8) -> Seq<u8> {
    if 0x6000 <= a <= 0x7FFF && a - 0x6000 < save.len() {
        save.update(a - 0x6000, v)
    } else {
        save
    }
}

impl NromMapper {
    /// A cartridge with the given program ROM and `save_ram_size` bytes of zeroed work RAM.
    pub fn new(prg_rom: Vec<u8>, save_ram_size: usize) -> (r: NromMapper)
        ensures
            r.prg_rom@ == prg_rom@,
            r.save_ram@ == Seq::new(save_ram_size as nat, |i: int| 0u8),
    {
        let save_ram = vec![0u8; save_ram_size];
        assert(save_ram@ =~= Seq::new(save_ram_size as nat, |i: int| 0u8));
        NromMapper { prg_rom, save_ram }
    }

    /// The byte that the cartridge answers at `address`.
    pub fn read(&self, address: u16) -> (r: u8)
        ensures
            r == nrom_read(self.prg_rom@, self.save_ram@, address),
    {
        if 0x6000 <= address && address <= 0x7FFF {
            let i = (address - 0x6000) as usize;
            if i < self.save_ram.len() {
                self.save_ram[i]
            } else {
                0
            }
        } else if address >= 0x8000 {
            let i = if self.prg_rom.len() > PRG_BANK_SIZE {
                (address - 0x8000) as usize
            } else {
                (address - 0x8000) as usize % PRG_BANK_SIZE
            };
            if i < self.prg_rom.len() {
                self.prg_rom[i]
            } else {
                0
            }
        } else {
            0
        }
    }

    /// Writes `value` to work RAM; writes elsewhere are ignored.
    pub fn write(&mut self, address: u16, value: u8)
        ensures
            final(self).prg_rom@ == old(self).prg_rom@,
            final(self).save_ram@ == nrom_write(old(self).save_ram@, address, value),
    {
        if 0x6000 <= address && address <= 0x7FFF {
            let i = (address - 0x6000) as usize;
            if i < self.save_ram.len() {
                self.save_ram.set(i, value);
            }
        }
    }
}

/// Which device owns an address, and at which of its cells.
pub enum Owner {
    Ram(int),
    Ppu(int),
    Io(int),
    Expansion,
    Cartridge,
}

/// Routing of the 16-bit address space: RAM mirrored every 0x0800 bytes up to
/// 0x1FFF, picture-unit registers mirrored every 8 bytes up to 0x3FFF, the
/// audio/controller registers, an expansion window that reads as 0, and the
/// cartridge from 0x6000 on.
pub open spec fn owner(a: u16) -> Owner {
    if a <= 0x1FFF {
        Owner::Ram(a as int % (RAM_SIZE as int))
    } else if a <= 0x3FFF {
        Owner::Ppu(a as int % (PPU_REGISTER_COUNT as int))
    } else if a <= 0x401F {
        Owner::Io(a - 0x4000)
    } else if a <= 0x5FFF {
        Owner::Expansion
    } else {
        Owner::Cartridge
    }
}

/// The low byte of a 16-bit value.
pub open spec fn lo_byte(v: u16) -> u8 {
    (v % 256) as u8
}

/// The high byte of a 16-bit value.
pub open spec fn hi_byte(v: u16) -> u8 {
    (v / 256) as u8
}

/// Two bytes joined little-endian.
pub open spec fn join16(lo: u8, hi: u8) -> u16 {
    (hi as int * 256 + lo as int) as u16
}

/// The address that follows `a`, wrapping at the top of the space.
pub open spec fn next_addr(a: u16) -> u16 {
    ((a as int + 1) % 0x10000) as u16
}

/// Masking an address is the same as taking it modulo the mirror size.
proof fn lemma_mask_is_mod(a: u16)
    ensures
        a & 0x07FF == a % 0x0800,
        a & 0x0007 == a % 8,
{
    assert(a & 0x07FF == a % 0x0800) by (bit_vector);
    assert(a & 0x0007 == a % 8) by (bit_vector);
}

/// The memory bus: owns internal RAM, the register latches of the picture unit
/// and of the audio/controller block, and the cartridge.
pub struct Bus {
    pub ram: Vec<u8>,
    pub ppu_registers: Vec<u8>,
    pub io_registers: Vec<u8>,
    pub mapper: NromMapper,
}

impl Bus {
    /// The devices have their fixed sizes.
    pub open spec fn wf(&self) -> bool {
        &&& self.ram@.len() == RAM_SIZE
        &&& self.ppu_registers@.len() == PPU_REGISTER_COUNT
        &&& self.io_registers@.len() == IO_REGISTER_COUNT
    }

    /// The byte at `a`, as a read would return it.
    pub open spec fn peek_spec(&self, a: u16) -> u8 {
        match owner(a) {
            Owner::Ram(i) => self.ram@[i],
            Owner::Ppu(i) => self.ppu_registers@[i],
            Owner::Io(i) => self.io_registers@[i],
            Owner::Expansion => 0,
            Owner::Cartridge => nrom_read(self.mapper.prg_rom@, self.mapper.save_ram@, a),
        }
    }

    /// The 16-bit little-endian value at `a` and the address after it.
    pub open spec fn peek16_spec(&self, a: u16) -> u16 {
        join16(self.peek_spec(a), self.peek_spec(next_addr(a)))
    }

    /// `new` is `old` after a write of `v` at `a`: the owning cell alone changes.
    pub open spec fn written(old: &Bus, new: &Bus, a: u16, v: u8) -> bool {
        &&& new.ram@ == (match owner(a) {
            Owner::Ram(i) => old.ram@.update(i, v),
            _ => old.ram@,
        })
        &&& new.ppu_registers@ == (match owner(a) {
            Owner::Ppu(i) => old.ppu_registers@.update(i, v),
            _ => old.ppu_registers@,
        })
        &&& new.io_registers@ == (match owner(a) {
            Owner::Io(i) => old.io_registers@.update(i, v),
            _ => old.io_registers@,
        })
        &&& new.mapper.prg_rom@ == old.mapper.prg_rom@
        &&& new.mapper.save_ram@ == (match owner(a) {
            Owner::Cartridge => nrom_write(old.mapper.save_ram@, a, v),
            _ => old.mapper.save_ram@,
        })
    }

    /// `new` is `old` after a read of `a`: a read of the picture unit's status
    /// register clears its vertical-blank bit; any other read changes nothing.
    pub open spec fn after_read(old: &Bus, new: &Bus, a: u16) -> bool {
        &&& new.ram@ == old.ram@
        &&& new.io_registers@ == old.io_registers@
        &&& new.mapper.prg_rom@ == old.mapper.prg_rom@
        &&& new.mapper.save_ram@ == old.mapper.save_ram@
        &&& new.ppu_registers@ == (match owner(a) {
            Owner::Ppu(i) => if i == 2 {
                old.ppu_registers@.update(2, old.ppu_registers@[2] & 0x7F)
            } else {
                old.ppu_registers@
            },
            _ => old.ppu_registers@,
        })
    }

    /// A bus with zeroed RAM and registers in front of the given cartridge.
    pub fn new(mapper: NromMapper) -> (r: Bus)
        ensures
            r.wf(),
            r.ram@ == Seq::new(RAM_SIZE as nat, |i: int| 0u8),
            r.ppu_registers@ == Seq::new(PPU_REGISTER_COUNT as nat, |i: int| 0u8),
            r.io_registers@ == Seq::new(IO_REGISTER_COUNT as nat, |i: int| 0u8),
            r.mapper == mapper,
    {
        let ram = vec![0u8; RAM_SIZE];
        let ppu_registers = vec![0u8; PPU_REGISTER_COUNT];
        let io_registers = vec![0u8; IO_REGISTER_COUNT];
        assert(ram@ =~= Seq::new(RAM_SIZE as nat, |i: int| 0u8));
        assert(ppu_registers@ =~= Seq::new(PPU_REGISTER_COUNT as nat, |i: int| 0u8));
        assert(io_registers@ =~= Seq::new(IO_REGISTER_COUNT as nat, |i: int| 0u8));
        Bus { ram, ppu_registers, io_registers, mapper }
    }

    /// Reads the byte at `address` without any side effect on a device.
    pub fn peek(&self, address: u16) -> (r: u8)
        requires
            self.wf(),
        ensures
            r == self.peek_spec(address),
    {
        proof {
            lemma_mask_is_mod(address);
        }
        if address <= 0x1FFF {
            self.ram[(address & 0x07FF) as usize]
        } else if address <= 0x3FFF {
            self.ppu_registers[(address & 0x0007) as usize]
        } else if address <= 0x401F {
            self.io_registers[(address - 0x4000) as usize]
        } else if address <= 0x5FFF {
            0
        } else {
            self.mapper.read(address)
        }
    }

    /// Reads the byte at `address`, with the owning device's read side effect.
    pub fn read(&mut self, address: u16) -> (r: u8)
        requires
            old(self).wf(),
        ensures
            final(self).wf(),
            r == old(self).peek_spec(address),
            Bus::after_read(old(self), final(self), address),
    {
        let r = self.peek(address);
        proof {
            lemma_mask_is_mod(address);
        }
        if 0x2000 <= address && address <= 0x3FFF && address & 0x0007 == 2 {
            let status = self.ppu_registers[2];
            self.ppu_registers.set(2, status & VBLANK_CLEAR_MASK);
        }
        r
    }

    /// Writes `value` to the cell that owns `address`.
    pub fn write(&mut self, address: u16, value: u8)
        requires
            old(self).wf(),
        ensures
            final(self).wf(),
            Bus::written(old(self), final(self), address, value),
    {
        proof {
            lemma_mask_is_mod(address);
        }
        if address <= 0x1FFF {
            self.ram.set((address & 0x07FF) as usize, value);
        } else if address <= 0x3FFF {
            self.ppu_registers.set((address & 0x0007) as usize, value);
        } else if address <= 0x401F {
            self.io_registers.set((address - 0x4000) as usize, value);
        } else if address >= 0x6000 {
            self.mapper.write(address, value);
        }
    }

    /// Reads the 16-bit little-endian value at `address` without side effects.
    pub fn peek16(&self, address: u16) -> (r: u16)
        requires
            self.wf(),
        ensures
            r == self.peek16_spec(address),
    {
        let lo = self.peek(address) as u16;
        let hi = self.peek(address.wrapping_add(1)) as u16;
        hi * 256 + lo
    }

    /// Reads the 16-bit little-endian value at `address`: low byte first, then
    /// the high byte from the next address, each with its read side effect.
    pub fn read16(&mut self, address: u16) -> (r: u16)
        requires
            old(self).wf(),
        ensures
            final(self).wf(),
            r == old(self).peek16_spec(address),
            exists|mid: Bus|
                Bus::after_read(old(self), &mid, address) && Bus::after_read(
                    &mid,
                    final(self),
                    next_addr(address),
                ),
    {
        let ghost before = *self;
        let lo = self.read(address) as u16;
        let ghost mid = *self;
        let hi = self.read(address.wrapping_add(1)) as u16;
        assert(mid.peek_spec(next_addr(address)) == before.peek_spec(next_addr(address)));
        hi * 256 + lo
    }

    /// Writes `value` little-endian: the low byte at `address`, the high byte after it.
    pub fn write16(&mut self, address: u16, value: u16)
        requires
            old(self).wf(),
        ensures
            final(self).wf(),
            exists|mid: Bus|
                Bus::written(old(self), &mid, address, lo_byte(value)) && Bus::written(
                    &mid,
                    final(self),
                    next_addr(address),
                    hi_byte(value),
                ),
    {
        let ghost before = *self;
        self.write(address, (value % 256) as u8);
        let ghost mid = *self;
        self.write(address.wrapping_add(1), (value / 256) as u8);
        assert(Bus::written(&before, &mid, address, lo_byte(value)));
    }

    /// `new` is `old` after `program` was written byte by byte from `base` on:
    /// a chain of writes, one per byte, in order.
    pub open spec fn loaded(old: &Bus, new: &Bus, base: u16, program: Seq<u8>) -> bool {
        exists|states: Seq<Bus>|
            states.len() == program.len() + 1 && states[0] == *old && states.last() == *new
                && forall|i: int|
                0 <= i < program.len() ==> #[trigger] Bus::written(
                    &states[i],
                    &states[i + 1],
                    (base + i) as u16,
                    program[i],
                )
    }

    /// Copies `program` into memory from `base` on, one write per byte. Where
    /// the bytes land in RAM without reaching a mirror of themselves, reading
    /// them back gives the program, and the other devices are untouched.
    pub fn load(&mut self, base: u16, program: &Vec<u8>)
        requires
            old(self).wf(),
            base as int + program@.len() <= 0x10000,
        ensures
            final(self).wf(),
            Bus::loaded(old(self), final(self), base, program@),
            base as int + program@.len() <= RAM_SIZE ==> {
                &&& forall|i: int| 0 <= i < program@.len() ==> final(self).peek_spec((base + i) as u16) == program@[i]
                &&& final(self).ppu_registers@ == old(self).ppu_registers@
                &&& final(self).io_registers@ == old(self).io_registers@
                &&& final(self).mapper.prg_rom@ == old(self).mapper.prg_rom@
                &&& final(self).mapper.save_ram@ == old(self).mapper.save_ram@
            },
    {
        let mut k: usize = 0;
        let ghost states: Seq<Bus> = seq![*self];
        while k < program.len()
            invariant
                self.wf(),
                0 <= k <= program@.len(),
                base as int + program@.len() <= 0x10000,
                states.len() == k + 1,
                states[0] == *old(self),
                states.last() == *self,
                forall|i: int|
                    0 <= i < k ==> #[trigger] Bus::written(&states[i], &states[i + 1], (base + i) as u16, program@[i]),
                base as int + program@.len() <= RAM_SIZE ==> {
                    &&& forall|i: int| 0 <= i < k ==> self.peek_spec((base + i) as u16) == program@[i]
                    &&& self.ppu_registers@ == old(self).ppu_registers@
                    &&& self.io_registers@ == old(self).io_registers@
                    &&& self.mapper.prg_rom@ == old(self).mapper.prg_rom@
                    &&& self.mapper.save_ram@ == old(self).mapper.save_ram@
                },
            decreases program@.len() - k,
        {
            let a = base + k as u16;
            let ghost before = *self;
            self.write(a, program[k]);
            proof {
                let next = states.push(*self);
                assert forall|i: int|
                    0 <= i < k + 1 implies #[trigger] Bus::written(&next[i], &next[i + 1], (base + i) as u16, program@[i]) by {
                    if i < k {
                        assert(next[i] == states[i] && next[i + 1] == states[i + 1]);
                    } else {
                        assert(next[i] == before && next[i + 1] == *self);
                    }
                }
                states = next;
            }
            k = k + 1;
        }
        assert(program@.len() == k);
    }
}

} // verus!
