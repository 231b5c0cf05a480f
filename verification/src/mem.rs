//! Machine state: the display plane, the register file, the call stack,
//! addressable memory, and the loaded program image.

use vstd::prelude::*;

use crate::error::EmuError;

verus! {

/// Width of the display plane in pixels.
pub const SCREEN_WIDTH: usize = 64;

/// Height of the display plane in pixels.
pub const SCREEN_HEIGHT: usize = 32;

/// Number of general-purpose registers in the register file.
///
/// The architecture's convention is sixteen registers, indexed 0 through 15,
/// and this core follows that convention.
pub const NUM_REGISTERS: usize = 16;

/// Offset at which a program image is installed and at which execution
/// starts; the addresses below it are reserved for the interpreter.
pub const PROGRAM_BASE: u16 = 512;

/// Dimensions of a sprite rectangle.
#[derive(Clone, Copy, Debug, PartialEq, Eq, Structural)]
pub struct SpriteSize {
    pub width: u8,
    pub height: u8,
}

/// Top-left corner at which a sprite is drawn.
#[derive(Clone, Copy, Debug, PartialEq, Eq, Structural)]
pub struct SpritePos {
    pub x: u8,
    pub y: u8,
}

/// A pixel grid with the plane's fixed dimensions: one sequence per column,
/// one boolean per row of that column.
pub open spec fn grid_wf(m: Seq<Seq<bool>>) -> bool {
    &&& m.len() == SCREEN_WIDTH
    &&& forall|x: int| 0 <= x < m.len() ==> (#[trigger] m[x]).len() == SCREEN_HEIGHT
}

/// Every pixel of the grid is off.
pub open spec fn all_off(m: Seq<Seq<bool>>) -> bool {
    forall|x: int, y: int|
        0 <= x < m.len() && 0 <= y < m[x].len() ==> !(#[trigger] m[x][y])
}

/// One display column with the rows of `[py, py + h)` inverted.
pub open spec fn col_xor(col: Seq<bool>, py: int, h: int) -> Seq<bool> {
    Seq::new(col.len(), |y: int| if py <= y < py + h { !col[y] } else { col[y] })
}

/// The grid with every pixel of the rectangle
/// `[px, px + w) x [py, py + h)` inverted.
pub open spec fn xor_rect(m: Seq<Seq<bool>>, px: int, py: int, w: int, h: int) -> Seq<
    Seq<bool>,
> {
    Seq::new(m.len(), |x: int| if px <= x < px + w { col_xor(m[x], py, h) } else { m[x] })
}

/// Whether any pixel inside the rectangle is lit in `m`.
pub open spec fn rect_collision(m: Seq<Seq<bool>>, px: int, py: int, w: int, h: int) -> bool {
    exists|x: int, y: int| px <= x < px + w && py <= y < py + h && #[trigger] m[x][y]
}

/// The monochrome display plane: a fixed 64 x 32 grid of pixels, owned by the
/// machine and mutated only through `clear` and the XOR sprite draw.
pub struct VideoRam {
    matrix: Vec<Vec<bool>>,
}

impl VideoRam {
    /// The grid as a sequence of columns, each a sequence of row pixels.
    pub closed spec fn pixels(&self) -> Seq<Seq<bool>> {
        self.matrix@.map_values(|col: Vec<bool>| col@)
    }

    /// The plane always keeps its construction-time dimensions.
    pub open spec fn wf(&self) -> bool {
        grid_wf(self.pixels())
    }

    /// A fully dark plane of the fixed dimensions.
    fn blank_matrix() -> (m: Vec<Vec<bool>>)
        ensures
            m@.len() == SCREEN_WIDTH,
            forall|x: int| 0 <= x < m@.len() ==> (#[trigger] m@[x])@.len() == SCREEN_HEIGHT,
            forall|x: int, y: int|
                0 <= x < m@.len() && 0 <= y < m@[x]@.len() ==> !(#[trigger] m@[x]@[y]),
    {
        let mut m: Vec<Vec<bool>> = Vec::new();
        let mut x: usize = 0;
        while x < SCREEN_WIDTH
            invariant
                x <= SCREEN_WIDTH,
                m@.len() == x,
                forall|i: int| 0 <= i < x ==> (#[trigger] m@[i])@.len() == SCREEN_HEIGHT,
                forall|i: int, j: int|
                    0 <= i < x && 0 <= j < m@[i]@.len() ==> !(#[trigger] m@[i]@[j]),
            decreases SCREEN_WIDTH - x,
        {
            let mut col: Vec<bool> = Vec::new();
            let mut y: usize = 0;
            while y < SCREEN_HEIGHT
                invariant
                    y <= SCREEN_HEIGHT,
                    col@.len() == y,
                    forall|j: int| 0 <= j < y ==> !(#[trigger] col@[j]),
                decreases SCREEN_HEIGHT - y,
            {
                col.push(false);
                y = y + 1;
            }
            m.push(col);
            x = x + 1;
        }
        m
    }

    /// A fresh plane with every pixel off.
    pub fn new() -> (v: VideoRam)
        ensures
            v.wf(),
            all_off(v.pixels()),
    {
        VideoRam { matrix: Self::blank_matrix() }
    }

    /// Read access to the full pixel grid, for presentation by an external
    /// renderer; `m[x][y]` is the pixel at column `x`, row `y`.
    pub fn get_matrx(&self) -> (m: &Vec<Vec<bool>>)
        ensures
            m@.len() == self.pixels().len(),
            forall|x: int| 0 <= x < m@.len() ==> (#[trigger] m@[x])@ == self.pixels()[x],
    {
        &self.matrix
    }

    /// Turns every pixel off; the dimensions stay fixed.
    pub fn clear(&mut self)
        ensures
            final(self).wf(),
            all_off(final(self).pixels()),
    {
        self.matrix = Self::blank_matrix();
    }

    /// Inverts rows `[py, py + h)` of column `x`, reporting whether any of
    /// those pixels was lit beforehand.
    fn flip_column(&mut self, x: usize, py: usize, h: usize) -> (hit: bool)
        requires
            old(self).wf(),
            x < SCREEN_WIDTH,
            py + h <= SCREEN_HEIGHT,
        ensures
            final(self).wf(),
            final(self).pixels() == old(self).pixels().update(
                x as int,
                col_xor(old(self).pixels()[x as int], py as int, h as int),
            ),
            hit == exists|j: int| py <= j < py + h && #[trigger] old(self).pixels()[x as int][j],
    {
        let mut hit: bool = false;
        let mut y: usize = py;
        proof {
            let orig = old(self).pixels();
            assert(col_xor(orig[x as int], py as int, 0) =~= orig[x as int]);
            assert(orig.update(x as int, col_xor(orig[x as int], py as int, 0)) =~= orig);
        }
        while y < py + h
            invariant
                old(self).wf(),
                x < SCREEN_WIDTH,
                py <= y <= py + h,
                py + h <= SCREEN_HEIGHT,
                self.wf(),
                self.pixels() == old(self).pixels().update(
                    x as int,
                    col_xor(old(self).pixels()[x as int], py as int, y - py),
                ),
                hit == exists|j: int| py <= j < y && #[trigger] old(self).pixels()[x as int][j],
            decreases py + h - y,
        {
            proof {
                assert(self.pixels()[x as int].len() == SCREEN_HEIGHT);
                assert(self.matrix@[x as int]@ == self.pixels()[x as int]);
            }
            let was: bool = self.matrix[x][y];
            if was {
                proof {
                    let orig_col = old(self).pixels()[x as int];
                    assert(self.pixels()[x as int] == col_xor(orig_col, py as int, y - py));
                    assert(self.pixels()[x as int][y as int] == orig_col[y as int]);
                }
                hit = true;
            }
            let ghost prev = *self;
            self.matrix[x][y] = !was;
            proof {
                let orig = old(self).pixels();
                let orig_col = orig[x as int];
                assert(self.matrix@ == prev.matrix@.update(
                    x as int,
                    self.matrix@[x as int],
                ));
                assert(self.matrix@[x as int]@ == prev.matrix@[x as int]@.update(
                    y as int,
                    !was,
                ));
                assert forall|i: int| 0 <= i < self.pixels().len() implies #[trigger] self.pixels()[i]
                    == orig.update(
                    x as int,
                    col_xor(orig_col, py as int, y + 1 - py),
                )[i] by {
                    assert(self.pixels()[i] == self.matrix@[i]@);
                    assert(prev.pixels()[i] == prev.matrix@[i]@);
                    if i == x as int {
                        assert(prev.pixels()[i] == col_xor(orig_col, py as int, y - py));
                        assert(self.pixels()[i] =~= col_xor(orig_col, py as int, y + 1 - py));
                    } else {
                        assert(self.matrix@[i] == prev.matrix@[i]);
                        assert(prev.pixels()[i] == orig[i]);
                    }
                }
                assert(self.pixels() =~= orig.update(
                    x as int,
                    col_xor(orig_col, py as int, y + 1 - py),
                ));
            }
            y = y + 1;
        }
        hit
    }

    /// Treats the rectangle `[pos.x, pos.x + size.width) x
    /// [pos.y, pos.y + size.height)` as a sprite of all-on pixels and XORs it
    /// onto the plane. Returns whether any targeted pixel was already lit
    /// (a collision). A rectangle that exceeds the plane's dimensions in
    /// either axis is rejected and the plane is left untouched.
    pub fn draw(&mut self, pos: SpritePos, size: SpriteSize) -> (r: Result<bool, EmuError>)
        requires
            old(self).wf(),
        ensures
            final(self).wf(),
            pos.x + size.width > SCREEN_WIDTH || pos.y + size.height > SCREEN_HEIGHT ==> r
                == Err::<bool, EmuError>(EmuError::DisplayBoundsExceeded) && *final(self) == *old(
                self,
            ),
            pos.x + size.width <= SCREEN_WIDTH && pos.y + size.height <= SCREEN_HEIGHT ==> r
                == Ok::<bool, EmuError>(
                rect_collision(
                    old(self).pixels(),
                    pos.x as int,
                    pos.y as int,
                    size.width as int,
                    size.height as int,
                ),
            ) && final(self).pixels() == xor_rect(
                old(self).pixels(),
                pos.x as int,
                pos.y as int,
                size.width as int,
                size.height as int,
            ),
    {
        let px: usize = pos.x as usize;
        let py: usize = pos.y as usize;
        let w: usize = size.width as usize;
        let h: usize = size.height as usize;
        if px + w > SCREEN_WIDTH || py + h > SCREEN_HEIGHT {
            return Err(EmuError::DisplayBoundsExceeded);
        }
        let mut collision: bool = false;
        let mut x: usize = px;
        proof {
            assert(xor_rect(old(self).pixels(), px as int, py as int, 0, h as int) =~= old(
                self,
            ).pixels());
        }
        while x < px + w
            invariant
                old(self).wf(),
                px <= x <= px + w,
                px + w <= SCREEN_WIDTH,
                py + h <= SCREEN_HEIGHT,
                self.wf(),
                self.pixels() == xor_rect(
                    old(self).pixels(),
                    px as int,
                    py as int,
                    x - px,
                    h as int,
                ),
                collision == rect_collision(
                    old(self).pixels(),
                    px as int,
                    py as int,
                    x - px,
                    h as int,
                ),
            decreases px + w - x,
        {
            let ghost prev = *self;
            let ghost orig = old(self).pixels();
            proof {
                assert(prev.pixels()[x as int] == orig[x as int]);
            }
            let hit: bool = self.flip_column(x, py, h);
            if hit {
                proof {
                    let j = choose|j: int| py <= j < py + h && #[trigger] prev.pixels()[x as int][j];
                    assert(orig[x as int][j]);
                }
                collision = true;
            }
            proof {
                assert forall|i: int| 0 <= i < self.pixels().len() implies #[trigger] self.pixels()[i]
                    == xor_rect(orig, px as int, py as int, x + 1 - px, h as int)[i] by {
                    if i == x as int {
                        assert(self.pixels()[i] == col_xor(orig[x as int], py as int, h as int));
                    } else {
                        assert(self.pixels()[i] == prev.pixels()[i]);
                    }
                }
                assert(self.pixels() =~= xor_rect(
                    orig,
                    px as int,
                    py as int,
                    x + 1 - px,
                    h as int,
                ));
                assert((collision || hit) == rect_collision(
                    orig,
                    px as int,
                    py as int,
                    x + 1 - px,
                    h as int,
                )) by {
                    if collision || hit {
                    } else {
                        assert forall|i: int, j: int|
                            !(px <= i < x + 1 && py <= j < py + h && #[trigger] orig[i][j]) by {
                            if px <= i < x + 1 && py <= j < py + h {
                                if i < x {
                                    assert(!rect_collision(
                                        orig,
                                        px as int,
                                        py as int,
                                        x - px,
                                        h as int,
                                    ));
                                    assert(!orig[i][j]);
                                } else {
                                    assert(!orig[x as int][j]);
                                }
                            }
                        }
                    }
                }
            }
            collision = collision || hit;
            x = x + 1;
        }
        Ok(collision)
    }
}

/// On a freshly cleared plane no draw reports a collision: no pixel of any
/// in-bounds rectangle is lit.
pub proof fn lemma_first_draw_no_collision(m: Seq<Seq<bool>>, px: int, py: int, w: int, h: int)
    requires
        grid_wf(m),
        all_off(m),
        0 <= px,
        0 <= py,
        px + w <= SCREEN_WIDTH,
        py + h <= SCREEN_HEIGHT,
    ensures
        !rect_collision(m, px, py, w, h),
{
    assert forall|x: int, y: int| !(px <= x < px + w && py <= y < py + h && #[trigger] m[x][y]) by {
        if px <= x < px + w && py <= y < py + h {
            assert(!m[x][y]);
        }
    }
}

/// Drawing the same rectangle twice is the identity: XOR-of-XOR restores
/// every pixel, so an identical redraw fully erases the sprite.
pub proof fn lemma_double_draw_identity(m: Seq<Seq<bool>>, px: int, py: int, w: int, h: int)
    requires
        grid_wf(m),
        0 <= px,
        0 <= py,
        px + w <= SCREEN_WIDTH,
        py + h <= SCREEN_HEIGHT,
    ensures
        xor_rect(xor_rect(m, px, py, w, h), px, py, w, h) == m,
{
    let once = xor_rect(m, px, py, w, h);
    let twice = xor_rect(once, px, py, w, h);
    assert forall|x: int| 0 <= x < m.len() implies #[trigger] twice[x] == m[x] by {
        assert(twice[x] =~= m[x]);
    }
    assert(twice =~= m);
}

/// A second identical draw of a non-empty sprite on a previously cleared
/// plane always reports a collision: the first draw lit the whole rectangle.
pub proof fn lemma_second_draw_collides(m: Seq<Seq<bool>>, px: int, py: int, w: int, h: int)
    requires
        grid_wf(m),
        all_off(m),
        0 <= px,
        0 <= py,
        0 < w,
        0 < h,
        px + w <= SCREEN_WIDTH,
        py + h <= SCREEN_HEIGHT,
    ensures
        rect_collision(xor_rect(m, px, py, w, h), px, py, w, h),
{
    let once = xor_rect(m, px, py, w, h);
    assert(once[px] == col_xor(m[px], py, h));
    assert(once[px][py] == !m[px][py]);
    assert(!m[px][py]);
    assert(once[px][py]);
}

/// Register `dest` now holds `value`, every other slot is as it was, and the
/// program counter and the carry flag are untouched.
pub open spec fn reg_written(pre: Registers, post: Registers, dest: u8, value: u8) -> bool {
    &&& post.variables@ == pre.variables@.update(dest as int, value)
    &&& post.instruction_pointer == pre.instruction_pointer
    &&& post.carry_flag == pre.carry_flag
}

/// The register file: sixteen 8-bit general-purpose registers, the 16-bit
/// program counter, and the single-bit carry/borrow flag.
///
/// The carry flag is recomputed — set or cleared — by every carry-tracked
/// arithmetic operation and is left untouched by everything else, so its
/// value persists across cycles until the next such operation.
pub struct Registers {
    pub variables: Vec<u8>,
    pub instruction_pointer: u16,
    pub carry_flag: bool,
}

impl Registers {
    /// A register file is well formed when it holds exactly `NUM_REGISTERS`
    /// general-purpose slots.
    pub open spec fn wf(&self) -> bool {
        self.variables@.len() == NUM_REGISTERS
    }

    /// A zeroed register file.
    pub fn new() -> (r: Registers)
        ensures
            r.wf(),
            forall|i: int| 0 <= i < NUM_REGISTERS ==> r.variables@[i] == 0u8,
            r.instruction_pointer == 0u16,
            r.carry_flag == false,
    {
        let mut variables: Vec<u8> = Vec::new();
        let mut i: usize = 0;
        while i < NUM_REGISTERS
            invariant
                i <= NUM_REGISTERS,
                variables@.len() == i,
                forall|j: int| 0 <= j < i ==> variables@[j] == 0u8,
            decreases NUM_REGISTERS - i,
        {
            variables.push(0);
            i = i + 1;
        }
        Registers { variables, instruction_pointer: 0, carry_flag: false }
    }

    /// Reads general-purpose register `index`; an out-of-range index is
    /// reported, never clamped.
    pub fn get(&self, index: u8) -> (r: Result<u8, EmuError>)
        requires
            self.wf(),
        ensures
            index < NUM_REGISTERS ==> r == Ok::<u8, EmuError>(self.variables@[index as int]),
            index >= NUM_REGISTERS ==> r == Err::<u8, EmuError>(EmuError::RegisterIndexOutOfRange),
    {
        if (index as usize) < NUM_REGISTERS {
            Ok(self.variables[index as usize])
        } else {
            Err(EmuError::RegisterIndexOutOfRange)
        }
    }

    /// Writes general-purpose register `index`; an out-of-range index is
    /// reported, never truncated. The program counter and the carry flag are
    /// untouched.
    pub fn set(&mut self, index: u8, value: u8) -> (r: Result<(), EmuError>)
        requires
            old(self).wf(),
        ensures
            final(self).wf(),
            index < NUM_REGISTERS ==> r == Ok::<(), EmuError>(())
                && final(self).variables@ == old(self).variables@.update(index as int, value)
                && final(self).instruction_pointer == old(self).instruction_pointer
                && final(self).carry_flag == old(self).carry_flag,
            index >= NUM_REGISTERS ==> r == Err::<(), EmuError>(EmuError::RegisterIndexOutOfRange)
                && *final(self) == *old(self),
    {
        if (index as usize) < NUM_REGISTERS {
            self.variables[index as usize] = value;
            Ok(())
        } else {
            Err(EmuError::RegisterIndexOutOfRange)
        }
    }

    /// Bitwise-ORs register `src` into register `dest`; the program counter
    /// and the carry flag are never touched.
    pub fn or(&mut self, dest: u8, src: u8) -> (r: Result<(), EmuError>)
        requires
            old(self).wf(),
        ensures
            final(self).wf(),
            dest < NUM_REGISTERS && src < NUM_REGISTERS ==> r == Ok::<(), EmuError>(())
                && reg_written(
                *old(self),
                *final(self),
                dest,
                old(self).variables@[dest as int] | old(self).variables@[src as int],
            ),
            !(dest < NUM_REGISTERS && src < NUM_REGISTERS) ==> r == Err::<(), EmuError>(
                EmuError::RegisterIndexOutOfRange,
            ) && *final(self) == *old(self),
    {
        if (dest as usize) < NUM_REGISTERS && (src as usize) < NUM_REGISTERS {
            let v: u8 = self.variables[dest as usize] | self.variables[src as usize];
            self.variables[dest as usize] = v;
            Ok(())
        } else {
            Err(EmuError::RegisterIndexOutOfRange)
        }
    }

    /// Bitwise-ANDs register `src` into register `dest`; the program counter
    /// and the carry flag are never touched.
    pub fn and(&mut self, dest: u8, src: u8) -> (r: Result<(), EmuError>)
        requires
            old(self).wf(),
        ensures
            final(self).wf(),
            dest < NUM_REGISTERS && src < NUM_REGISTERS ==> r == Ok::<(), EmuError>(())
                && reg_written(
                *old(self),
                *final(self),
                dest,
                old(self).variables@[dest as int] & old(self).variables@[src as int],
            ),
            !(dest < NUM_REGISTERS && src < NUM_REGISTERS) ==> r == Err::<(), EmuError>(
                EmuError::RegisterIndexOutOfRange,
            ) && *final(self) == *old(self),
    {
        if (dest as usize) < NUM_REGISTERS && (src as usize) < NUM_REGISTERS {
            let v: u8 = self.variables[dest as usize] & self.variables[src as usize];
            self.variables[dest as usize] = v;
            Ok(())
        } else {
            Err(EmuError::RegisterIndexOutOfRange)
        }
    }

    /// Bitwise-XORs register `src` into register `dest`; the program counter
    /// and the carry flag are never touched.
    pub fn xor(&mut self, dest: u8, src: u8) -> (r: Result<(), EmuError>)
        requires
            old(self).wf(),
        ensures
            final(self).wf(),
            dest < NUM_REGISTERS && src < NUM_REGISTERS ==> r == Ok::<(), EmuError>(())
                && reg_written(
                *old(self),
                *final(self),
                dest,
                old(self).variables@[dest as int] ^ old(self).variables@[src as int],
            ),
            !(dest < NUM_REGISTERS && src < NUM_REGISTERS) ==> r == Err::<(), EmuError>(
                EmuError::RegisterIndexOutOfRange,
            ) && *final(self) == *old(self),
    {
        if (dest as usize) < NUM_REGISTERS && (src as usize) < NUM_REGISTERS {
            let v: u8 = self.variables[dest as usize] ^ self.variables[src as usize];
            self.variables[dest as usize] = v;
            Ok(())
        } else {
            Err(EmuError::RegisterIndexOutOfRange)
        }
    }

    /// Copies register `src` into register `dest`; the program counter and
    /// the carry flag are never touched.
    pub fn copy(&mut self, dest: u8, src: u8) -> (r: Result<(), EmuError>)
        requires
            old(self).wf(),
        ensures
            final(self).wf(),
            dest < NUM_REGISTERS && src < NUM_REGISTERS ==> r == Ok::<(), EmuError>(())
                && reg_written(*old(self), *final(self), dest, old(self).variables@[src as int]),
            !(dest < NUM_REGISTERS && src < NUM_REGISTERS) ==> r == Err::<(), EmuError>(
                EmuError::RegisterIndexOutOfRange,
            ) && *final(self) == *old(self),
    {
        if (dest as usize) < NUM_REGISTERS && (src as usize) < NUM_REGISTERS {
            let v: u8 = self.variables[src as usize];
            self.variables[dest as usize] = v;
            Ok(())
        } else {
            Err(EmuError::RegisterIndexOutOfRange)
        }
    }

    /// Adds `rhs` to `lhs` in a 16-bit domain before truncating: returns the
    /// 8-bit wrapped sum and records in the carry flag whether the true sum
    /// exceeded 255. No register is written.
    pub fn carry_add(&mut self, lhs: u8, rhs: u8) -> (r: u8)
        ensures
            r == (lhs + rhs) % 256,
            final(self).carry_flag == (lhs + rhs > 255),
            final(self).variables == old(self).variables,
            final(self).instruction_pointer == old(self).instruction_pointer,
    {
        let sum: u16 = (lhs as u16) + (rhs as u16);
        self.carry_flag = sum > 255;
        (sum % 256) as u8
    }

    /// Subtracts `rhs` from `lhs` modulo 256 and records in the carry/borrow
    /// flag whether the subtraction borrowed (`lhs < rhs`). No register is
    /// written.
    pub fn borrow_sub(&mut self, lhs: u8, rhs: u8) -> (r: u8)
        ensures
            r == (lhs - rhs + 256) % 256,
            final(self).carry_flag == (lhs < rhs),
            final(self).variables == old(self).variables,
            final(self).instruction_pointer == old(self).instruction_pointer,
    {
        self.carry_flag = lhs < rhs;
        if lhs >= rhs {
            lhs - rhs
        } else {
            (256u16 - ((rhs as u16) - (lhs as u16))) as u8
        }
    }

    /// Zeroes every register, the program counter, and the carry flag. Used
    /// only on explicit machine reset, never implicitly between instructions.
    pub fn reset(&mut self)
        ensures
            final(self).wf(),
            forall|i: int| 0 <= i < NUM_REGISTERS ==> final(self).variables@[i] == 0u8,
            final(self).instruction_pointer == 0u16,
            final(self).carry_flag == false,
    {
        *self = Registers::new();
    }
}

/// The single mutable context every instruction executes against: the
/// display plane, the register file, the call stack of return addresses, the
/// flat byte-addressable memory, and the raw loaded program image.
pub struct EmuState {
    pub screen: VideoRam,
    pub ram: Vec<u8>,
    pub stack: Vec<u16>,
    pub registers: Registers,
    pub loaded_rom: Vec<u8>,
}

impl EmuState {
    /// The machine state is well formed when its plane and register file are.
    pub open spec fn wf(&self) -> bool {
        &&& self.screen.wf()
        &&& self.registers.wf()
    }

    /// Composes a machine from its parts, with no program image loaded yet.
    pub fn new(screen: VideoRam, ram: Vec<u8>, stack: Vec<u16>, registers: Registers) -> (s:
        EmuState)
        requires
            screen.wf(),
            registers.wf(),
        ensures
            s.wf(),
            s.screen == screen,
            s.ram == ram,
            s.stack == stack,
            s.registers == registers,
            s.loaded_rom@ == Seq::<u8>::empty(),
    {
        EmuState { screen, ram, stack, registers, loaded_rom: Vec::new() }
    }

    /// Composes a machine from its parts and immediately installs a program
    /// image, so the program counter starts at `PROGRAM_BASE`.
    pub fn from(
        screen: VideoRam,
        ram: Vec<u8>,
        stack: Vec<u16>,
        registers: Registers,
        rom: Vec<u8>,
    ) -> (s: EmuState)
        requires
            screen.wf(),
            registers.wf(),
        ensures
            s.wf(),
            s.screen == screen,
            s.ram == ram,
            s.stack == stack,
            s.registers.variables == registers.variables,
            s.registers.carry_flag == registers.carry_flag,
            s.registers.instruction_pointer == PROGRAM_BASE,
            s.loaded_rom == rom,
    {
        let mut s = EmuState::new(screen, ram, stack, registers);
        s.load_rom(rom);
        s
    }

    /// Installs a raw program image and resets the program counter to the
    /// fixed base offset. All other state — registers, stack, display,
    /// memory — is left untouched; a full reset is a separate operation.
    pub fn load_rom(&mut self, rom: Vec<u8>)
        ensures
            final(self).loaded_rom == rom,
            final(self).registers.instruction_pointer == PROGRAM_BASE,
            final(self).registers.variables == old(self).registers.variables,
            final(self).registers.carry_flag == old(self).registers.carry_flag,
            final(self).screen == old(self).screen,
            final(self).ram == old(self).ram,
            final(self).stack == old(self).stack,
    {
        self.loaded_rom = rom;
        self.registers.instruction_pointer = PROGRAM_BASE;
    }

    /// Restarts execution: zeroes the register file, the program counter and
    /// the carry flag, and deliberately keeps the loaded program, the stack,
    /// the memory and the screen — "restart" is distinct from "power-on".
    pub fn reset(&mut self)
        ensures
            final(self).registers.wf(),
            forall|i: int|
                0 <= i < NUM_REGISTERS ==> final(self).registers.variables@[i] == 0u8,
            final(self).registers.instruction_pointer == 0u16,
            final(self).registers.carry_flag == false,
            final(self).screen == old(self).screen,
            final(self).ram == old(self).ram,
            final(self).stack == old(self).stack,
            final(self).loaded_rom == old(self).loaded_rom,
    {
        self.registers.reset();
    }
}

/// Writing one register slot and reading it back yields the written value,
/// and leaves every other slot exactly as it was — stated over the register
/// file's view, which `Registers::set` and `Registers::get` speak of.
pub proof fn lemma_set_then_read(vars: Seq<u8>, index: int, value: u8)
    requires
        0 <= index < vars.len(),
    ensures
        vars.update(index, value)[index] == value,
        forall|j: int|
            0 <= j < vars.len() && j != index ==> vars.update(index, value)[j] == vars[j],
{
}

} // verus!
