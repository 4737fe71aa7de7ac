//! Reading the screen buffer: guest programs paint by writing one color
//! index per pixel into the RAM region 0x0200 - 0x05FF. A presentation
//! front-end polls that region, turns each index into a red-green-blue
//! triple, and redraws when anything moved. The palette and the polling live
//! here as plain byte values; putting the pixels on an actual display is the
//! front-end's business.

use crate::bus::bus_byte;
use crate::cpu::CPU;
use vstd::prelude::*;

verus! {

/// Where the screen buffer starts.
pub const SCREEN_BASE: u16 = 0x0200;

/// How many pixels the screen buffer holds: a 32-by-32 grid.
pub const SCREEN_PIXELS: usize = 1024;

/// The red-green-blue triple a color index paints: a sixteen-entry palette,
/// its upper half repeating the lower, and everything beyond painted cyan.
pub open spec fn color_rgb(byte: u8) -> (u8, u8, u8) {
    if byte == 0 {
        (0, 0, 0)  // black
    } else if byte == 1 {
        (255, 255, 255)  // white
    } else if byte == 2 || byte == 9 {
        (128, 128, 128)  // grey
    } else if byte == 3 || byte == 10 {
        (255, 0, 0)  // red
    } else if byte == 4 || byte == 11 {
        (0, 255, 0)  // green
    } else if byte == 5 || byte == 12 {
        (0, 0, 255)  // blue
    } else if byte == 6 || byte == 13 {
        (255, 0, 255)  // magenta
    } else if byte == 7 || byte == 14 {
        (255, 255, 0)  // yellow
    } else {
        (0, 255, 255)  // cyan
    }
}

/// The triple a color index paints, as executable code.
pub fn color(byte: u8) -> (rgb: (u8, u8, u8))
    ensures
        rgb == color_rgb(byte),
{
    if byte == 0 {
        (0, 0, 0)
    } else if byte == 1 {
        (255, 255, 255)
    } else if byte == 2 || byte == 9 {
        (128, 128, 128)
    } else if byte == 3 || byte == 10 {
        (255, 0, 0)
    } else if byte == 4 || byte == 11 {
        (0, 255, 0)
    } else if byte == 5 || byte == 12 {
        (0, 0, 255)
    } else if byte == 6 || byte == 13 {
        (255, 0, 255)
    } else if byte == 7 || byte == 14 {
        (255, 255, 0)
    } else {
        (0, 255, 255)
    }
}

/// One color component of the rendered frame: component `j % 3` of the pixel
/// `j / 3`, whose index byte sits at `SCREEN_BASE + j / 3`.
pub open spec fn frame_component(ram: Seq<u8>, j: int) -> u8 {
    let (red, green, blue) = color_rgb(bus_byte(ram, (SCREEN_BASE + j / 3) as u16));
    if j % 3 == 0 {
        red
    } else if j % 3 == 1 {
        green
    } else {
        blue
    }
}

/// The whole rendered frame: three color components per screen pixel.
pub open spec fn screen_frame(ram: Seq<u8>) -> Seq<u8> {
    Seq::new((3 * SCREEN_PIXELS) as nat, |j: int| frame_component(ram, j))
}

/// Renders the screen buffer into `frame` and reports whether anything
/// moved: afterward the frame is exactly the rendered screen, and the report
/// is true exactly when that differs from what the frame held before.
pub fn read_screen_state(cpu: &CPU, frame: &mut Vec<u8>) -> (update: bool)
    requires
        cpu.wf(),
        old(frame)@.len() == 3 * SCREEN_PIXELS,
    ensures
        final(frame)@ == screen_frame(cpu.bus@),
        update == (final(frame)@ != old(frame)@),
{
    let mut update = false;
    let mut i: usize = 0;
    while i < SCREEN_PIXELS
        invariant
            cpu.wf(),
            i <= SCREEN_PIXELS,
            frame@.len() == 3 * SCREEN_PIXELS,
            forall|j: int| 0 <= j < 3 * i ==> frame@[j] == screen_frame(cpu.bus@)[j],
            forall|j: int| 3 * i <= j < 3 * SCREEN_PIXELS ==> frame@[j] == old(frame)@[j],
            update == exists|j: int| 0 <= j < 3 * i && old(frame)@[j] != screen_frame(cpu.bus@)[j],
        decreases SCREEN_PIXELS - i,
    {
        let color_idx = cpu.read_mem_u8(SCREEN_BASE + i as u16);
        let (red, green, blue) = color(color_idx);
        let at = 3 * i;
        if frame[at] != red || frame[at + 1] != green || frame[at + 2] != blue {
            proof {
                assert(frame@[3 * i as int] == old(frame)@[3 * i as int] && frame@[3 * i as int
                    + 1] == old(frame)@[3 * i as int + 1] && frame@[3 * i as int + 2] == old(
                    frame,
                )@[3 * i as int + 2]);
            }
            frame.set(at, red);
            frame.set(at + 1, green);
            frame.set(at + 2, blue);
            update = true;
        }
        i = i + 1;
        proof {
            assert forall|j: int| 0 <= j < 3 * i implies frame@[j] == screen_frame(cpu.bus@)[j]
                by {
                if 3 * (i - 1) <= j {
                    assert(j / 3 == i - 1 && (SCREEN_BASE + j / 3) as u16 == SCREEN_BASE + (i - 1));
                }
            }
        }
    }
    proof {
        assert(frame@ =~= screen_frame(cpu.bus@));
        if update {
            assert(frame@ != old(frame)@) by {
                let j = choose|j: int|
                    0 <= j < 3 * SCREEN_PIXELS && old(frame)@[j] != screen_frame(cpu.bus@)[j];
                assert(frame@[j] != old(frame)@[j]);
            }
        } else {
            assert(frame@ =~= old(frame)@);
        }
    }
    update
}

} // verus!
