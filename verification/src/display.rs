//! Display rendering: diffs the calculator's display memory into a 131 x 64
//! RGBA buffer, one nibble driving four horizontally adjacent pixels.

use vstd::prelude::*;
use crate::cpu::Saturn;
use crate::memory::Memory;
use crate::types::{Model, NIBBLES_PER_ROW};

verus! {

pub const DISPLAY_WIDTH: u32 = 131;
pub const DISPLAY_HEIGHT: u32 = 64;
pub const DISP_ROWS: u32 = 64;

pub const PIXEL_ON_R: u8 = 0x10;
pub const PIXEL_ON_G: u8 = 0x20;
pub const PIXEL_ON_B: u8 = 0x10;
pub const PIXEL_OFF_R: u8 = 0xbc;
pub const PIXEL_OFF_G: u8 = 0xc4;
pub const PIXEL_OFF_B: u8 = 0xa5;

/// Diff-buffer row width: a display row plus the two stretch nibbles.
pub const NIBS_PER_BUFFER_ROW: u32 = 0x24;

/// The sentinel nibble value that forces a redraw.
pub const INVALID_NIBBLE: u8 = 0xf0;

pub struct Display {
    /// The presented frame, 4 bytes per pixel.
    pub rgba: Vec<u8>,
    pub dirty: bool,
    pub mapped: bool,
    /// Last nibble drawn per (row, column), row-major, 36 columns per row.
    pub disp_buf: Vec<u8>,
    /// Last nibble written to the RGBA buffer per (row, column).
    pub lcd_buffer: Vec<u8>,
    pub old_offset: i32,
    pub old_lines: i32,
}

impl Display {
    /// Fixed buffer sizes.
    pub open spec fn wf(self) -> bool {
        &&& self.rgba@.len() == 131 * 64 * 4
        &&& self.disp_buf@.len() == 64 * 36
        &&& self.lcd_buffer@.len() == 64 * 36
    }

    pub fn new() -> (r: Display)
        ensures
            r.wf(),
            r.dirty,
            r.mapped,
            r.old_offset == -1,
            r.old_lines == -1,
            forall|i: int| 0 <= i < 64 * 36 ==> r.disp_buf@[i] == INVALID_NIBBLE,
            forall|i: int| 0 <= i < 64 * 36 ==> r.lcd_buffer@[i] == INVALID_NIBBLE,
    {
        let mut rgba: Vec<u8> = Vec::new();
        let mut i: usize = 0;
        while i < 131 * 64
            invariant
                i <= 131 * 64,
                rgba@.len() == 4 * i,
            decreases 131 * 64 - i,
        {
            rgba.push(PIXEL_OFF_R);
            rgba.push(PIXEL_OFF_G);
            rgba.push(PIXEL_OFF_B);
            rgba.push(0xff);
            i += 1;
        }
        let mut disp_buf: Vec<u8> = Vec::new();
        let mut j: usize = 0;
        while j < 64 * 36
            invariant
                j <= 64 * 36,
                disp_buf@.len() == j,
                forall|k: int| 0 <= k < j ==> disp_buf@[k] == INVALID_NIBBLE,
            decreases 64 * 36 - j,
        {
            disp_buf.push(INVALID_NIBBLE);
            j += 1;
        }
        let mut lcd_buffer: Vec<u8> = Vec::new();
        let mut j2: usize = 0;
        while j2 < 64 * 36
            invariant
                j2 <= 64 * 36,
                lcd_buffer@.len() == j2,
                forall|k: int| 0 <= k < j2 ==> lcd_buffer@[k] == INVALID_NIBBLE,
            decreases 64 * 36 - j2,
        {
            lcd_buffer.push(INVALID_NIBBLE);
            j2 += 1;
        }
        Display { rgba, dirty: true, mapped: true, disp_buf, lcd_buffer, old_offset: -1, old_lines: -1 }
    }

    /// Writes the four pixels of one nibble at nibble column `x`, row `y`:
    /// bit `b` of the nibble drives the pixel at column `4x + b`, on pixels
    /// dark and off pixels pale, alpha opaque.
    pub fn fill_display_rgba(&mut self, x: u32, y: u32, v: u8)
        requires
            old(self).wf(),
            x < 36,
            y < 64,
        ensures
            final(self).wf(),
            final(self).dirty,
            *final(self) == (Display { rgba: final(self).rgba, dirty: true, ..*old(self) }),
            forall|b: int| 0 <= b < 4 && 4 * x + b < 131 ==> {
                let px = (y * 131 + 4 * x + b) * 4;
                let on = ((v as int) / #[trigger] crate::actions::pow2_4(b)) % 2 == 1;
                &&& final(self).rgba@[px] == (if on { PIXEL_ON_R } else { PIXEL_OFF_R })
                &&& final(self).rgba@[px + 1] == (if on { PIXEL_ON_G } else { PIXEL_OFF_G })
                &&& final(self).rgba@[px + 2] == (if on { PIXEL_ON_B } else { PIXEL_OFF_B })
                &&& final(self).rgba@[px + 3] == 0xff
            },
            forall|i: int| 0 <= i < 131 * 64 * 4 && !((y * 131 + 4 * x) * 4 <= i < (y * 131 + 4
                * x) * 4 + 16) ==> final(self).rgba@[i] == old(self).rgba@[i],
    {
        let mut b: usize = 0;
        while b < 4
            invariant
                b <= 4,
                x < 36,
                y < 64,
                self.rgba@.len() == 131 * 64 * 4,
                self.disp_buf@ == old(self).disp_buf@,
                self.lcd_buffer@ == old(self).lcd_buffer@,
                *self == (Display { rgba: self.rgba, dirty: self.dirty, ..*old(self) }),
                self.dirty == if b > 0 { true } else { old(self).dirty },
                forall|c: int| 0 <= c < b && 4 * x + c < 131 ==> {
                    let px = (y * 131 + 4 * x + c) * 4;
                    let on = ((v as int) / #[trigger] crate::actions::pow2_4(c)) % 2 == 1;
                    &&& self.rgba@[px] == (if on { PIXEL_ON_R } else { PIXEL_OFF_R })
                    &&& self.rgba@[px + 1] == (if on { PIXEL_ON_G } else { PIXEL_OFF_G })
                    &&& self.rgba@[px + 2] == (if on { PIXEL_ON_B } else { PIXEL_OFF_B })
                    &&& self.rgba@[px + 3] == 0xff
                },
                forall|i: int| 0 <= i < 131 * 64 * 4 && !((y * 131 + 4 * x) * 4 <= i < (y * 131
                    + 4 * x) * 4 + 4 * b) ==> self.rgba@[i] == old(self).rgba@[i],
            decreases 4 - b,
        {
            let col: u32 = 4 * x + b as u32;
            if col < 131 {
                let p: u8 = match b {
                    0 => 1,
                    1 => 2,
                    2 => 4,
                    _ => 8,
                };
                let on: bool = (v / p) % 2 == 1;
                let off: usize = ((y * 131 + col) * 4) as usize;
                self.rgba[off] = if on {
                    PIXEL_ON_R
                } else {
                    PIXEL_OFF_R
                };
                self.rgba[off + 1] = if on {
                    PIXEL_ON_G
                } else {
                    PIXEL_OFF_G
                };
                self.rgba[off + 2] = if on {
                    PIXEL_ON_B
                } else {
                    PIXEL_OFF_B
                };
                self.rgba[off + 3] = 0xff;
            }
            self.dirty = true;
            b += 1;
        }
    }

    /// Draws one nibble at (column, row) if it differs from the cached copy:
    /// the cache takes the new value, its four pixels are repainted from the
    /// nibble's bits and the dirty flag is raised; an unchanged nibble
    /// leaves the frame untouched.
    pub fn draw_nibble(&mut self, c: u32, r: u32, val: u8)
        requires
            old(self).wf(),
            c < 36,
            r < 64,
        ensures
            final(self).wf(),
            final(self).lcd_buffer@ == (if val % 16 != old(self).lcd_buffer@[r * 36 + c] {
                old(self).lcd_buffer@.update((r * 36 + c) as int, (val % 16) as u8)
            } else {
                old(self).lcd_buffer@
            }),
            val % 16 == old(self).lcd_buffer@[r * 36 + c] ==> *final(self) == *old(self),
            val % 16 != old(self).lcd_buffer@[r * 36 + c] ==> {
                &&& final(self).dirty
                &&& *final(self) == (Display {
                    rgba: final(self).rgba,
                    dirty: true,
                    lcd_buffer: final(self).lcd_buffer,
                    ..*old(self)
                })
                &&& forall|b: int| 0 <= b < 4 && 4 * c + b < 131 ==> {
                    let px = (r * 131 + 4 * c + b) * 4;
                    let on = (((val % 16) as int) / #[trigger] crate::actions::pow2_4(b)) % 2
                        == 1;
                    &&& final(self).rgba@[px] == (if on { PIXEL_ON_R } else { PIXEL_OFF_R })
                    &&& final(self).rgba@[px + 1] == (if on { PIXEL_ON_G } else { PIXEL_OFF_G })
                    &&& final(self).rgba@[px + 2] == (if on { PIXEL_ON_B } else { PIXEL_OFF_B })
                    &&& final(self).rgba@[px + 3] == 0xff
                }
                &&& forall|i: int| 0 <= i < 131 * 64 * 4 && !((r * 131 + 4 * c) * 4 <= i < (r
                    * 131 + 4 * c) * 4 + 16) ==> final(self).rgba@[i] == old(self).rgba@[i]
            },
            final(self).disp_buf@ == old(self).disp_buf@,
            final(self).old_offset == old(self).old_offset,
            final(self).old_lines == old(self).old_lines,
    {
        let v: u8 = val % 16;
        let idx: usize = (r * 36 + c) as usize;
        if v != self.lcd_buffer[idx] {
            self.lcd_buffer[idx] = v;
            self.fill_display_rgba(c, r, v);
        }
    }

    /// Applies one RAM write inside the main display window: the write maps
    /// to nibble column `offset % line width` and row `offset / line width`,
    /// and redraws that cell iff the 4-bit value differs from the cache;
    /// out-of-range coordinates change nothing.
    pub fn disp_draw_nibble(&mut self, disp_start: u32, nibs_per_line: u32, lines: u32, addr: u32, val: u8)
        requires
            old(self).wf(),
            disp_start <= addr,
            addr < 0x200000,
            lines < 64,
        ensures
            final(self).wf(),
            nibs_per_line != 0 ==> ({
                let x = ((addr - disp_start) as u32 % nibs_per_line) as int;
                let y = ((addr - disp_start) as u32 / nibs_per_line) as int;
                &&& (x > 35 || y > 63 ==> *final(self) == *old(self))
                &&& (x <= 35 && y <= 63 && val % 16 == old(self).disp_buf@[y * 36 + x]
                    ==> *final(self) == *old(self))
                &&& (x <= 35 && y <= 63 && val % 16 != old(self).disp_buf@[y * 36 + x] ==> {
                    &&& final(self).disp_buf@ == old(self).disp_buf@.update(
                        y * 36 + x,
                        (val % 16) as u8,
                    )
                    &&& final(self).lcd_buffer@ == (if val % 16 != old(self).lcd_buffer@[y * 36
                        + x] {
                        old(self).lcd_buffer@.update(y * 36 + x, (val % 16) as u8)
                    } else {
                        old(self).lcd_buffer@
                    })
                })
            }),
            final(self).old_offset == old(self).old_offset,
            final(self).old_lines == old(self).old_lines,
    {
        let offset: u32 = addr - disp_start;
        let x: u32 = if nibs_per_line != 0 {
            offset % nibs_per_line
        } else {
            offset
        };
        if x > 35 {
            return ;
        }
        if nibs_per_line != 0 {
            let y: u32 = offset / nibs_per_line;
            if y > 63 {
                return ;
            }
            let v: u8 = val % 16;
            let idx: usize = (y * 36 + x) as usize;
            if v != self.disp_buf[idx] {
                self.disp_buf[idx] = v;
                self.draw_nibble(x, y, v);
            }
        } else {
            let mut y: u32 = 0;
            while y < lines
                invariant
                    self.wf(),
                    x < 36,
                    lines < 64,
                    y <= lines,
                    self.old_offset == old(self).old_offset,
                    self.old_lines == old(self).old_lines,
                decreases lines - y,
            {
                let v: u8 = val % 16;
                let idx: usize = (y * 36 + x) as usize;
                if v != self.disp_buf[idx] {
                    self.disp_buf[idx] = v;
                    self.draw_nibble(x, y, v);
                }
                y += 1;
            }
        }
    }

    /// Applies one RAM write inside the menu band: the write maps to nibble
    /// column `offset % 34` in row `lines + offset / 34 + 1`, and redraws
    /// that cell iff the 4-bit value differs from the cache; rows past the
    /// bottom change nothing.
    pub fn menu_draw_nibble(&mut self, menu_start: u32, lines: u32, addr: u32, val: u8)
        requires
            old(self).wf(),
            menu_start <= addr,
            addr < 0x200000,
            lines < 64,
        ensures
            final(self).wf(),
            ({
                let x = ((addr - menu_start) as u32 % NIBBLES_PER_ROW) as int;
                let y = (lines + (addr - menu_start) as u32 / NIBBLES_PER_ROW + 1) as int;
                &&& (y >= 64 ==> *final(self) == *old(self))
                &&& (y < 64 && val % 16 == old(self).disp_buf@[y * 36 + x] ==> *final(self)
                    == *old(self))
                &&& (y < 64 && val % 16 != old(self).disp_buf@[y * 36 + x] ==> {
                    &&& final(self).disp_buf@ == old(self).disp_buf@.update(
                        y * 36 + x,
                        (val % 16) as u8,
                    )
                    &&& final(self).lcd_buffer@ == (if val % 16 != old(self).lcd_buffer@[y * 36
                        + x] {
                        old(self).lcd_buffer@.update(y * 36 + x, (val % 16) as u8)
                    } else {
                        old(self).lcd_buffer@
                    })
                })
            }),
            final(self).old_offset == old(self).old_offset,
            final(self).old_lines == old(self).old_lines,
    {
        let offset: u32 = addr - menu_start;
        let x: u32 = offset % NIBBLES_PER_ROW;
        let y: u32 = lines + offset / NIBBLES_PER_ROW + 1;
        if y >= DISP_ROWS || x >= NIBBLES_PER_ROW {
            return ;
        }
        let v: u8 = val % 16;
        let idx: usize = (y * 36 + x) as usize;
        if v != self.disp_buf[idx] {
            self.disp_buf[idx] = v;
            self.draw_nibble(x, y, v);
        }
    }

    /// Reads and draws one display row starting at `addr`.
    fn draw_row(
        &mut self,
        mem: &Memory,
        saturn: &Saturn,
        model: Model,
        addr: u32,
        row: u32,
        disp_offset: u32,
        disp_lines: u32,
    )
        requires
            old(self).wf(),
            row < 64,
        ensures
            final(self).wf(),
            final(self).old_offset == old(self).old_offset,
            final(self).old_lines == old(self).old_lines,
    {
        let line_length: u32 = if disp_offset > 3 && row <= disp_lines {
            NIBBLES_PER_ROW + 2
        } else {
            NIBBLES_PER_ROW
        };
        let mut i: u32 = 0;
        while i < line_length
            invariant
                self.wf(),
                row < 64,
                line_length <= 36,
                i <= line_length,
                self.old_offset == old(self).old_offset,
                self.old_lines == old(self).old_lines,
            decreases line_length - i,
        {
            let v: u8 = match model {
                Model::Sx => mem.read_nibble_sx(saturn, addr.wrapping_add(i)),
                Model::Gx => mem.read_nibble_gx_display(saturn, addr.wrapping_add(i)),
            };
            let idx: usize = (row * 36 + i) as usize;
            if v % 16 != self.disp_buf[idx] || v != self.disp_buf[idx] {
                self.disp_buf[idx] = v % 16;
                self.draw_nibble(i, row, v);
            }
            i += 1;
        }
    }

    /// Redraws the whole frame: the main rows from `disp_start`, then the
    /// menu band; a changed offset or line count first invalidates the
    /// affected diff rows, and a display that is off draws every nibble as
    /// zero.
    pub fn render(
        &mut self,
        mem: &Memory,
        saturn: &Saturn,
        model: Model,
        display_on: bool,
        disp_start: u32,
        nibs_per_line: u32,
        lines: u32,
        offset: u32,
        menu_start: u32,
    )
        requires
            old(self).wf(),
            lines < 64,
            offset < 8,
            nibs_per_line < 0x1000,
            disp_start < 0x100000,
            menu_start < 0x100000,
        ensures
            final(self).wf(),
            display_on ==> final(self).old_offset == offset as i32 && final(self).old_lines
                == lines as i32,
    {
        if display_on {
            if offset as i32 != self.old_offset {
                let mut row: u32 = 0;
                while row <= lines
                    invariant
                        self.wf(),
                        lines < 64,
                        row <= lines + 1,
                        self.old_offset == old(self).old_offset,
                        self.old_lines == old(self).old_lines,
                    decreases lines + 1 - row,
                {
                    let mut col: usize = 0;
                    while col < 36
                        invariant
                            self.wf(),
                            row < 64,
                            col <= 36,
                            self.old_offset == old(self).old_offset,
                            self.old_lines == old(self).old_lines,
                        decreases 36 - col,
                    {
                        let idx: usize = (row * 36) as usize + col;
                        self.disp_buf[idx] = INVALID_NIBBLE;
                        self.lcd_buffer[idx] = INVALID_NIBBLE;
                        col += 1;
                    }
                    row += 1;
                }
                self.old_offset = offset as i32;
            }
            if lines as i32 != self.old_lines {
                let ghost off1 = self.old_offset;
                let mut row: u32 = 56;
                while row < 64
                    invariant
                        self.wf(),
                        56 <= row <= 64,
                        self.old_offset == off1,
                        self.old_lines == old(self).old_lines,
                    decreases 64 - row,
                {
                    let mut col: usize = 0;
                    while col < 36
                        invariant
                            self.wf(),
                            row < 64,
                            col <= 36,
                            self.old_offset == off1,
                            self.old_lines == old(self).old_lines,
                        decreases 36 - col,
                    {
                        let idx: usize = (row * 36) as usize + col;
                        self.disp_buf[idx] = INVALID_NIBBLE;
                        self.lcd_buffer[idx] = INVALID_NIBBLE;
                        col += 1;
                    }
                    row += 1;
                }
                self.old_lines = lines as i32;
            }
            let mut addr: u32 = disp_start;
            let mut i: u32 = 0;
            while i <= lines
                invariant
                    self.wf(),
                    lines < 64,
                    i <= lines + 1,
                    addr < 0x200000,
                    nibs_per_line < 0x1000,
                    self.old_offset == offset as i32,
                    self.old_lines == lines as i32,
                decreases lines + 1 - i,
            {
                self.draw_row(mem, saturn, model, addr % 0x100000, i, offset, lines);
                addr = (addr + nibs_per_line) % 0x200000;
                i += 1;
            }
            if i < DISP_ROWS {
                let mut addr2: u32 = menu_start;
                while i < DISP_ROWS
                    invariant
                        self.wf(),
                        i <= 64,
                        addr2 < 0x200000,
                        self.old_offset == offset as i32,
                        self.old_lines == lines as i32,
                    decreases 64 - i,
                {
                    self.draw_row(mem, saturn, model, addr2, i, offset, lines);
                    addr2 = (addr2 + NIBBLES_PER_ROW) % 0x200000;
                    i += 1;
                }
            }
        } else {
            let mut row: u32 = 0;
            while row < 64
                invariant
                    self.wf(),
                    row <= 64,
                decreases 64 - row,
            {
                let mut col: u32 = 0;
                while col < 36
                    invariant
                        self.wf(),
                        row < 64,
                        col <= 36,
                    decreases 36 - col,
                {
                    let idx: usize = (row * 36 + col) as usize;
                    self.disp_buf[idx] = INVALID_NIBBLE;
                    col += 1;
                }
                let mut col2: u32 = 0;
                while col2 < NIBBLES_PER_ROW
                    invariant
                        self.wf(),
                        row < 64,
                        col2 <= NIBBLES_PER_ROW,
                    decreases NIBBLES_PER_ROW - col2,
                {
                    self.draw_nibble(col2, row, 0);
                    col2 += 1;
                }
                row += 1;
            }
        }
    }
}

} // verus!
