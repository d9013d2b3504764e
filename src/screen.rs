use vstd::prelude::*;
use crate::cpu::Cpu;

verus! {

/// The screen is 32 by 32 cells, one byte each, in memory from this address.
pub const SCREEN_START: u16 = 0x0200;

pub const SCREEN_CELLS: usize = 0x0400;

/// Bytes of the RGB frame: three per cell.
pub const FRAME_BYTES: usize = 0x0C00;

/// The colour of a screen byte, as red, green and blue: black, white, then
/// grey, red, green, blue, magenta and yellow twice over, and cyan for the rest.
pub open spec fn palette(byte: u8) -> (u8, u8, u8) {
    match byte {
        0 => (0, 0, 0),
        1 => (255, 255, 255),
        2 | 9 => (128, 128, 128),
        3 | 10 => (255, 0, 0),
        4 | 11 => (0, 255, 0),
        5 | 12 => (0, 0, 255),
        6 | 13 => (255, 0, 255),
        7 | 14 => (255, 255, 0),
        _ => (0, 255, 255),
    }
}

/// The colour of a screen byte.
pub fn color(byte: u8) -> (r: (u8, u8, u8))
    ensures
        r == palette(byte),
{
    match byte {
        0 => (0, 0, 0),
        1 => (255, 255, 255),
        2 | 9 => (128, 128, 128),
        3 | 10 => (255, 0, 0),
        4 | 11 => (0, 255, 0),
        5 | 12 => (0, 0, 255),
        6 | 13 => (255, 0, 255),
        7 | 14 => (255, 255, 0),
        _ => (0, 255, 255),
    }
}

/// The colour that cell `k` of the screen memory shows.
pub open spec fn cell_color(cpu: &Cpu, k: int) -> (u8, u8, u8) {
    palette(cpu.bus.peek_spec((SCREEN_START + k) as u16))
}

/// Whether the frame shows colour `c` at cell `k`.
pub open spec fn frame_shows(frame: Seq<u8>, k: int, c: (u8, u8, u8)) -> bool {
    frame[3 * k] == c.0 && frame[3 * k + 1] == c.1 && frame[3 * k + 2] == c.2
}

/// Paints the screen memory into the first `FRAME_BYTES` bytes of `frame`,
/// three bytes per cell, and returns whether any cell changed colour; bytes
/// past those are left alone.
pub fn read_screen_state(cpu: &Cpu, frame: &mut Vec<u8>) -> (r: bool)
    requires
        cpu.wf(),
        old(frame)@.len() >= FRAME_BYTES,
    ensures
        final(frame)@.len() == old(frame)@.len(),
        forall|j: int| FRAME_BYTES <= j < old(frame)@.len() ==> final(frame)@[j] == old(frame)@[j],
        forall|k: int| 0 <= k < SCREEN_CELLS ==> frame_shows(final(frame)@, k, #[trigger] cell_color(cpu, k)),
        r == exists|k: int| 0 <= k < SCREEN_CELLS && !frame_shows(old(frame)@, k, #[trigger] cell_color(cpu, k)),
{
    let mut update = false;
    let mut k: usize = 0;
    while k < SCREEN_CELLS
        invariant
            cpu.wf(),
            frame@.len() == old(frame)@.len(),
            frame@.len() >= FRAME_BYTES,
            forall|j: int| FRAME_BYTES <= j < frame@.len() ==> frame@[j] == old(frame)@[j],
            0 <= k <= SCREEN_CELLS,
            forall|j: int| 0 <= j < k ==> frame_shows(frame@, j, #[trigger] cell_color(cpu, j)),
            forall|j: int| k <= j < SCREEN_CELLS ==> #[trigger] frame@[3 * j] == old(frame)@[3 * j]
                && frame@[3 * j + 1] == old(frame)@[3 * j + 1] && frame@[3 * j + 2] == old(frame)@[3 * j + 2],
            update == exists|j: int| 0 <= j < k && !frame_shows(old(frame)@, j, #[trigger] cell_color(cpu, j)),
        decreases SCREEN_CELLS - k,
    {
        let (b1, b2, b3) = color(cpu.bus.peek(SCREEN_START + k as u16));
        let i = 3 * k;
        assert(old(frame)@[3 * k as int] == frame@[3 * k as int]);
        if frame[i] != b1 || frame[i + 1] != b2 || frame[i + 2] != b3 {
            frame.set(i, b1);
            frame.set(i + 1, b2);
            frame.set(i + 2, b3);
            update = true;
        }
        assert(frame_shows(frame@, k as int, cell_color(cpu, k as int)));
        k = k + 1;
    }
    update
}

} // verus!
