//! The text writer: cursor movement, scrolling, character cell addresses
//! and glyph pixels.
use vstd::prelude::*;

verus! {

/// The sixteen text-mode colors.
#[derive(Debug, Clone, Copy, PartialEq, Eq, Structural)]
pub enum Color {
    Black,
    Blue,
    Green,
    Cyan,
    Red,
    Magenta,
    Brown,
    LightGray,
    DarkGray,
    LightBlue,
    LightGreen,
    LightCyan,
    LightRed,
    Pink,
    Yellow,
    White,
}

/// The 4-bit code of a color.
pub open spec fn color_value(c: Color) -> u8 {
    match c {
        Color::Black => 0,
        Color::Blue => 1,
        Color::Green => 2,
        Color::Cyan => 3,
        Color::Red => 4,
        Color::Magenta => 5,
        Color::Brown => 6,
        Color::LightGray => 7,
        Color::DarkGray => 8,
        Color::LightBlue => 9,
        Color::LightGreen => 10,
        Color::LightCyan => 11,
        Color::LightRed => 12,
        Color::Pink => 13,
        Color::Yellow => 14,
        Color::White => 15,
    }
}

impl Color {
    /// The 4-bit code of the color.
    pub fn value(self) -> (v: u8)
        ensures
            v == color_value(self),
            v < 16,
    {
        match self {
            Color::Black => 0,
            Color::Blue => 1,
            Color::Green => 2,
            Color::Cyan => 3,
            Color::Red => 4,
            Color::Magenta => 5,
            Color::Brown => 6,
            Color::LightGray => 7,
            Color::DarkGray => 8,
            Color::LightBlue => 9,
            Color::LightGreen => 10,
            Color::LightCyan => 11,
            Color::LightRed => 12,
            Color::Pink => 13,
            Color::Yellow => 14,
            Color::White => 15,
        }
    }
}

/// A text-mode attribute byte: background in the high nibble, foreground
/// in the low nibble.
#[derive(Debug, Clone, Copy, PartialEq, Eq, Structural)]
pub struct ColorCode(u8);

impl View for ColorCode {
    type V = u8;

    /// The attribute byte.
    closed spec fn view(&self) -> u8 {
        self.0
    }
}

impl ColorCode {
    /// The attribute of `foreground` on `background`.
    pub fn new(foreground: Color, background: Color) -> (c: ColorCode)
        ensures
            c@ == color_value(background) * 16 + color_value(foreground),
    {
        let f = foreground.value();
        let b = background.value();
        assert((b << 4u8) | f == b * 16 + f) by (bit_vector)
            requires b < 16, f < 16;
        ColorCode((b << 4) | f)
    }

    /// The attribute byte.
    pub fn value(&self) -> (v: u8)
        ensures
            v == self@,
    {
        self.0
    }
}

/// Foreground and background of an RGB framebuffer, as 32-bit pixels.
#[derive(Debug, Clone, Copy, PartialEq, Eq, Structural)]
pub struct RgbColor {
    pub foreground: u32,
    pub background: u32,
}

/// The color the writer draws with: an attribute for text framebuffers,
/// pixels for RGB ones.
#[derive(Debug, Clone, Copy, PartialEq, Eq, Structural)]
pub enum CurrentColor {
    ColorCode(ColorCode),
    Rgb(RgbColor),
}

/// The framebuffer as the boot loader describes it.
#[derive(Debug, Clone, Copy, PartialEq, Eq, Structural)]
pub struct FramebufferInfo {
    /// Physical address of the framebuffer.
    pub address: u64,
    /// Bytes per line.
    pub pitch: u32,
    /// Width, in pixels (text cells for a text framebuffer).
    pub width: u32,
    /// Height, in pixels (text cells for a text framebuffer).
    pub height: u32,
    /// Bits per pixel.
    pub bpp: u8,
    /// 0: indexed colors, 1: direct RGB, 2: EGA text.
    pub framebuffer_type: u8,
}

/// Whether a framebuffer of geometry `fb`, written in cells of `cw` by `ch`
/// pixels, is one the writer can work on: cells are not empty, there is at
/// least one text row, every offset the writer computes fits in 32 bits and
/// every address in 64 bits. A scroll moves `pitch * ch * (rows - 1)` bytes
/// from `address + pitch * ch`; where pixels are drawn, the last cell starts
/// `pitch * ch * (rows - 1) + (columns - 1) * cw * 4` bytes in.
pub open spec fn geometry_fits(fb: FramebufferInfo, cw: nat, ch: nat) -> bool {
    &&& cw > 0
    &&& ch > 0
    &&& fb.height as nat / ch >= 1
    &&& fb.pitch as nat * ch <= u32::MAX
    &&& fb.pitch as nat * ch * (fb.height as nat / ch - 1) <= u32::MAX
    &&& fb.address as nat + fb.pitch as nat * ch <= u64::MAX
    &&& (fb.framebuffer_type == 1 && fb.bpp == 32 && fb.width as nat / cw >= 1) ==> {
        let last = fb.pitch as nat * ch * (fb.height as nat / ch - 1) + (fb.width as nat / cw - 1) * cw * 4;
        &&& last <= u32::MAX
        &&& fb.address as nat + last <= u64::MAX
    }
}

/// What the writer asks of the framebuffer memory.
#[derive(Debug, Clone, Copy, PartialEq, Eq, Structural)]
pub enum ScreenOp {
    /// Draw `character` in the cell at `row`, `col`.
    Draw { row: u32, col: u32, character: u8 },
    /// Move every text row but the first one row up.
    Scroll,
}

/// The green that RGB text is drawn in.
pub const RGB_FOREGROUND: u32 = 0x18F018;

/// Writes text to a framebuffer, keeping the cursor position.
pub struct Writer {
    column_position: u32,
    row_position: u32,
    addr: u64,
    pitch: u32,
    width: u32,
    height: u32,
    char_width: u8,
    char_height: u8,
    bpp: u8,
    fb_type: u8,
    color: CurrentColor,
}

/// The cells of row `row` filled with spaces, from column 0 on.
pub open spec fn clear_row_ops(row: u32, columns: nat) -> Seq<ScreenOp> {
    Seq::new(columns, |c: int| ScreenOp::Draw { row, col: c as u32, character: 32 })
}

/// The row the cursor is on after a line break from `row`.
pub open spec fn row_after_new_line(row: nat, rows: nat) -> nat {
    if row + 1 >= rows {
        (rows - 1) as nat
    } else {
        row + 1
    }
}

/// What a line break from `row` asks: nothing, or, from the last row, a
/// scroll and the clearing of the last row.
pub open spec fn new_line_ops(row: nat, rows: nat, columns: nat) -> Seq<ScreenOp> {
    if row + 1 >= rows {
        seq![ScreenOp::Scroll] + clear_row_ops((rows - 1) as u32, columns)
    } else {
        Seq::empty()
    }
}

/// The cursor row and column after writing `byte` with the cursor at
/// `row`, `col` on a grid of `rows` by `columns`, and what the
/// framebuffer memory must undergo. A line feed breaks the line; any other
/// byte is drawn at the cursor, after breaking the line if the cursor is
/// past the last column, and the cursor moves one column right.
pub open spec fn write_byte_result(row: nat, col: nat, rows: nat, columns: nat, byte: u8) -> (nat, nat, Seq<ScreenOp>) {
    if byte == 10 {
        (row_after_new_line(row, rows), 0, new_line_ops(row, rows, columns))
    } else {
        let wrap = col >= columns;
        let r = if wrap { row_after_new_line(row, rows) } else { row };
        let c: nat = if wrap { 0 } else { col };
        let pre = if wrap { new_line_ops(row, rows, columns) } else { Seq::<ScreenOp>::empty() };
        (r, c + 1, pre + seq![ScreenOp::Draw { row: r as u32, col: c as u32, character: byte }])
    }
}

/// The cursor and the framebuffer operations after writing `bytes` in
/// order, each as `write_byte_result` says.
pub open spec fn write_bytes_result(row: nat, col: nat, rows: nat, columns: nat, bytes: Seq<u8>) -> (nat, nat, Seq<ScreenOp>)
    decreases bytes.len(),
{
    if bytes.len() == 0 {
        (row, col, Seq::empty())
    } else {
        let before = write_bytes_result(row, col, rows, columns, bytes.drop_last());
        let after = write_byte_result(before.0, before.1, rows, columns, bytes.last());
        (after.0, after.1, before.2 + after.2)
    }
}

/// Drawing `character` in the cell at `row`, `col`.
pub open spec fn draw_at(row: nat, col: nat, character: u8) -> ScreenOp {
    ScreenOp::Draw { row: row as u32, col: col as u32, character }
}

/// Whether `ops` is a scroll followed by a space drawn in every column of
/// the last row `last`, from column 0 on.
pub open spec fn scrolls_and_blanks(ops: Seq<ScreenOp>, last: nat, columns: nat) -> bool {
    &&& ops.len() >= columns + 1
    &&& ops[0] == ScreenOp::Scroll
    &&& forall|k: int| 0 <= k < columns ==> #[trigger] ops[k + 1] == draw_at(last, k as nat, 32)
}

/// The cases of writing one byte, as `lemma_write_byte_cases` states them.
pub open spec fn write_byte_cases(row: nat, col: nat, rows: nat, columns: nat, byte: u8) -> bool {
    let (r, c, ops) = write_byte_result(row, col, rows, columns, byte);
    let last = (rows - 1) as nat;
    let nl = write_byte_result(row, col, rows, columns, 10);
    &&& byte == 10 && row + 1 < rows ==> r == row + 1 && c == 0 && ops.len() == 0
    &&& byte == 10 && row + 1 == rows ==> {
        &&& r == last && c == 0
        &&& ops.len() == columns + 1
        &&& scrolls_and_blanks(ops, last, columns)
    }
    &&& byte != 10 && col < columns ==> r == row && c == col + 1 && ops == seq![draw_at(row, col, byte)]
    &&& byte != 10 && col >= columns && row + 1 < rows ==> {
        &&& r == row + 1 && c == 1
        &&& ops == seq![draw_at(row + 1, 0, byte)]
    }
    &&& byte != 10 && col >= columns && row + 1 == rows ==> {
        &&& r == last && c == 1
        &&& ops.len() == columns + 2
        &&& scrolls_and_blanks(ops, last, columns)
        &&& ops[columns as int + 1] == draw_at(last, 0, byte)
    }
    &&& byte != 10 && col >= columns ==> {
        &&& r == nl.0 && c == 1
        &&& ops == nl.2 + seq![draw_at(nl.0, 0, byte)]
    }
}

/// What writing one byte does, with the cursor on the grid's rows
/// (`row < rows`). A line feed moves to the start of the next row, or, on
/// the last row, scrolls, draws a space in every column of the last row
/// and stays there. Any other byte is drawn at the cursor, which moves one
/// column right; when the cursor is past the last column the byte wraps:
/// first exactly what a line feed does (so a wrap on the last row scrolls
/// and blanks the new last row), then the byte is drawn at column 0 of the
/// row the line feed left the cursor on.
pub proof fn lemma_write_byte_cases(row: nat, col: nat, rows: nat, columns: nat, byte: u8)
    requires
        row < rows,
    ensures
        write_byte_cases(row, col, rows, columns, byte),
{
    let (r, c, ops) = write_byte_result(row, col, rows, columns, byte);
    if row + 1 >= rows {
        let last = (rows - 1) as nat;
        let blanks = clear_row_ops(last as u32, columns);
        if byte == 10 || col >= columns {
            assert forall|k: int| 0 <= k < columns implies #[trigger] ops[k + 1] == draw_at(last, k as nat, 32) by {
                assert(ops[k + 1] == blanks[k]);
            }
        }
    }
}

/// Clearing the screen draws a space in every cell, row after row, each
/// row from column 0 on: the `k`-th operation is a space at row
/// `k / columns`, column `k % columns`, and there is one per cell.
pub proof fn lemma_clear_screen_cells(rows: nat, columns: nat)
    ensures
        clear_screen_ops(rows, columns).len() == rows * columns,
        forall|k: int| 0 <= k < rows * columns ==>
            #[trigger] clear_screen_ops(rows, columns)[k] == draw_at((k / columns as int) as nat, (k % columns as int) as nat, 32),
    decreases rows,
{
    if rows > 0 {
        let prev = (rows - 1) as nat;
        lemma_clear_screen_cells(prev, columns);
        let ops = clear_screen_ops(rows, columns);
        let head = clear_screen_ops(prev, columns);
        assert(prev * columns + columns == rows * columns) by (nonlinear_arith)
            requires prev + 1 == rows;
        assert forall|k: int| 0 <= k < rows * columns implies
            #[trigger] ops[k] == draw_at((k / columns as int) as nat, (k % columns as int) as nat, 32) by {
            if k < prev * columns {
                assert(ops[k] == head[k]);
            } else {
                let c = k - prev * columns;
                assert(0 <= c < columns);
                vstd::arithmetic::div_mod::lemma_fundamental_div_mod_converse(k, columns as int, prev as int, c);
                assert(ops[k] == clear_row_ops(prev as u32, columns)[c]);
            }
        }
    }
}

/// Writing no bytes leaves the cursor and asks nothing; writing one byte
/// is writing that byte.
pub proof fn lemma_write_bytes_single(row: nat, col: nat, rows: nat, columns: nat, byte: u8)
    ensures
        write_bytes_result(row, col, rows, columns, Seq::empty()) == (row, col, Seq::<ScreenOp>::empty()),
        write_bytes_result(row, col, rows, columns, seq![byte]) == write_byte_result(row, col, rows, columns, byte),
{
    let one = seq![byte];
    assert(one.drop_last() =~= Seq::<u8>::empty());
    let r = write_byte_result(row, col, rows, columns, byte);
    assert(Seq::<ScreenOp>::empty() + r.2 =~= r.2);
}

/// Writing `a` then `b` is writing `a + b`: the cursor ends where writing
/// `b` from where `a` left it ends, and the operations of `a` come before
/// those of `b`.
pub proof fn lemma_write_bytes_concat(row: nat, col: nat, rows: nat, columns: nat, a: Seq<u8>, b: Seq<u8>)
    ensures
        ({
            let x = write_bytes_result(row, col, rows, columns, a);
            let y = write_bytes_result(x.0, x.1, rows, columns, b);
            write_bytes_result(row, col, rows, columns, a + b) == (y.0, y.1, x.2 + y.2)
        }),
    decreases b.len(),
{
    let x = write_bytes_result(row, col, rows, columns, a);
    if b.len() == 0 {
        assert(a + b =~= a);
        assert(x.2 + Seq::<ScreenOp>::empty() =~= x.2);
    } else {
        let b0 = b.drop_last();
        lemma_write_bytes_concat(row, col, rows, columns, a, b0);
        assert((a + b).drop_last() =~= a + b0);
        assert((a + b).last() == b.last());
        let y0 = write_bytes_result(x.0, x.1, rows, columns, b0);
        let step = write_byte_result(y0.0, y0.1, rows, columns, b.last());
        assert(x.2 + y0.2 + step.2 =~= x.2 + (y0.2 + step.2));
    }
}

impl Writer {
    /// The column of the cursor.
    pub closed spec fn column(&self) -> nat {
        self.column_position as nat
    }

    /// The row of the cursor.
    pub closed spec fn row(&self) -> nat {
        self.row_position as nat
    }

    /// The number of text columns.
    pub closed spec fn columns(&self) -> nat {
        (self.width / self.char_width as u32) as nat
    }

    /// The number of text rows.
    pub closed spec fn rows(&self) -> nat {
        (self.height / self.char_height as u32) as nat
    }

    /// The framebuffer description the writer was made from, with the cell
    /// size and color.
    pub closed spec fn config(&self) -> (u64, u32, u32, u32, u8, u8, u8, u8, CurrentColor) {
        (self.addr, self.pitch, self.width, self.height, self.char_width, self.char_height, self.bpp, self.fb_type, self.color)
    }

    /// Width of the framebuffer, in pixels (text cells for a text one).
    pub closed spec fn pixel_width(&self) -> u32 {
        self.width
    }

    /// Height of the framebuffer, in pixels (text cells for a text one).
    pub closed spec fn pixel_height(&self) -> u32 {
        self.height
    }

    /// Bits per pixel.
    pub closed spec fn bits_per_pixel(&self) -> u8 {
        self.bpp
    }

    /// The framebuffer type: 1 for direct RGB, 2 for EGA text.
    pub closed spec fn framebuffer_type(&self) -> u8 {
        self.fb_type
    }

    /// The physical address of the framebuffer.
    pub closed spec fn address(&self) -> u64 {
        self.addr
    }

    /// Bytes per line.
    pub closed spec fn line_pitch(&self) -> u32 {
        self.pitch
    }

    /// Width of a character cell, in pixels.
    pub closed spec fn cell_width(&self) -> u8 {
        self.char_width
    }

    /// Height of a character cell, in pixels.
    pub closed spec fn cell_height(&self) -> u8 {
        self.char_height
    }

    /// The color the writer draws with.
    pub closed spec fn current_color(&self) -> CurrentColor {
        self.color
    }

    /// The grid is as many cells as fit: the width divided by the cell
    /// width, the height by the cell height.
    pub proof fn lemma_grid(&self)
        requires
            self.cell_width() > 0,
            self.cell_height() > 0,
        ensures
            self.columns() == self.pixel_width() as nat / self.cell_width() as nat,
            self.rows() == self.pixel_height() as nat / self.cell_height() as nat,
    {
    }

    /// Whether the writer draws glyph pixels: a direct RGB framebuffer of
    /// 32 bits per pixel.
    pub closed spec fn draws_pixels(&self) -> bool {
        self.fb_type == 1 && self.bpp == 32
    }

    /// The writer's invariant: the geometry fits (`geometry_fits`) and the
    /// cursor is on the grid.
    pub closed spec fn wf(&self) -> bool {
        &&& self.char_width > 0
        &&& self.char_height > 0
        &&& self.rows() >= 1
        &&& self.row() < self.rows()
        &&& self.column() <= if self.columns() == 0 { 1 } else { self.columns() }
        &&& geometry_fits(self.geometry(), self.char_width as nat, self.char_height as nat)
    }

    /// The framebuffer description the writer was made from.
    pub closed spec fn geometry(&self) -> FramebufferInfo {
        FramebufferInfo {
            address: self.addr,
            pitch: self.pitch,
            width: self.width,
            height: self.height,
            bpp: self.bpp,
            framebuffer_type: self.fb_type,
        }
    }

    /// A writer for the framebuffer: `None` for indexed-color and unknown
    /// framebuffer types; 8x16 cells in green on black for RGB ones; 1x1
    /// cells in light green on black for EGA text ones. The cursor starts
    /// at the top left.
    pub fn new(framebuffer: &FramebufferInfo) -> (r: Option<Writer>)
        ensures
            (framebuffer.framebuffer_type == 1 || framebuffer.framebuffer_type == 2) <==> r is Some,
            r matches Some(w) ==> {
                &&& w.column() == 0
                &&& w.row() == 0
                &&& w.address() == framebuffer.address
                &&& w.line_pitch() == framebuffer.pitch
                &&& w.pixel_width() == framebuffer.width
                &&& w.pixel_height() == framebuffer.height
                &&& w.bits_per_pixel() == framebuffer.bpp
                &&& w.framebuffer_type() == framebuffer.framebuffer_type
                &&& w.draws_pixels() <==> framebuffer.framebuffer_type == 1 && framebuffer.bpp == 32
                &&& w.wf() <==> geometry_fits(*framebuffer, w.cell_width() as nat, w.cell_height() as nat)
                &&& framebuffer.framebuffer_type == 1 ==> {
                    &&& w.cell_width() == 8
                    &&& w.cell_height() == 16
                    &&& w.current_color() == CurrentColor::Rgb(RgbColor { foreground: RGB_FOREGROUND, background: 0 })
                }
                &&& framebuffer.framebuffer_type == 2 ==> {
                    &&& w.cell_width() == 1
                    &&& w.cell_height() == 1
                    &&& w.current_color() matches CurrentColor::ColorCode(c)
                    &&& c@ == color_value(Color::Black) * 16 + color_value(Color::LightGreen)
                }
            },
    {
        match framebuffer.framebuffer_type {
            1 => Some(Writer {
                column_position: 0,
                row_position: 0,
                addr: framebuffer.address,
                pitch: framebuffer.pitch,
                width: framebuffer.width,
                height: framebuffer.height,
                char_width: 8,
                char_height: 16,
                bpp: framebuffer.bpp,
                fb_type: framebuffer.framebuffer_type,
                color: CurrentColor::Rgb(RgbColor { foreground: RGB_FOREGROUND, background: 0 }),
            }),
            2 => Some(Writer {
                column_position: 0,
                row_position: 0,
                addr: framebuffer.address,
                pitch: framebuffer.pitch,
                width: framebuffer.width,
                height: framebuffer.height,
                char_width: 1,
                char_height: 1,
                bpp: framebuffer.bpp,
                fb_type: framebuffer.framebuffer_type,
                color: CurrentColor::ColorCode(ColorCode::new(Color::LightGreen, Color::Black)),
            }),
            _ => None,
        }
    }
}

impl Writer {
    /// Whether the writer's invariant holds.
    pub fn is_valid(&self) -> (r: bool)
        ensures
            r == self.wf(),
    {
        if self.char_width == 0 || self.char_height == 0 {
            return false;
        }
        let rows = self.height / self.char_height as u32;
        let columns = self.width / self.char_width as u32;
        let column_bound = if columns == 0 { 1 } else { columns };
        if rows < 1 || self.row_position >= rows || self.column_position > column_bound {
            return false;
        }
        let pitch = self.pitch as u64;
        let cell_height = self.char_height as u64;
        assert(pitch * cell_height <= 0xffff_ffffu64 * 0xffu64) by (nonlinear_arith)
            requires pitch <= 0xffff_ffffu64, cell_height <= 0xffu64;
        let row_size = pitch * cell_height;
        if row_size > 0xffff_ffff {
            return false;
        }
        let above_last = (rows - 1) as u64;
        assert(row_size * above_last <= 0xffff_ffffu64 * 0xffff_ffffu64) by (nonlinear_arith)
            requires row_size <= 0xffff_ffffu64, above_last <= 0xffff_ffffu64;
        let last_row = row_size * above_last;
        if last_row > 0xffff_ffff {
            return false;
        }
        if self.addr > u64::MAX - row_size {
            return false;
        }
        if self.fb_type == 1 && self.bpp == 32 && columns >= 1 {
            let before_last = (columns - 1) as u64;
            let cell_width = self.char_width as u64;
            assert(before_last * cell_width <= 0xffff_ffffu64 * 0xffu64) by (nonlinear_arith)
                requires before_last <= 0xffff_ffffu64, cell_width <= 0xffu64;
            let last = last_row + before_last * cell_width * 4;
            if last > 0xffff_ffff || self.addr > u64::MAX - last {
                return false;
            }
        }
        true
    }

    /// The number of text columns.
    pub fn grid_columns(&self) -> (c: u32)
        requires
            self.wf(),
        ensures
            c == self.columns(),
    {
        self.width / self.char_width as u32
    }

    /// The number of text rows.
    pub fn grid_rows(&self) -> (r: u32)
        requires
            self.wf(),
        ensures
            r == self.rows(),
    {
        self.height / self.char_height as u32
    }

    /// The cursor position, as (column, row).
    pub fn cursor(&self) -> (p: (u32, u32))
        ensures
            p.0 == self.column(),
            p.1 == self.row(),
    {
        (self.column_position, self.row_position)
    }

    /// Asks for every cell of `row` to be filled with a space.
    fn clear_row(&self, row: u32, ops: &mut Vec<ScreenOp>)
        requires
            self.wf(),
        ensures
            final(ops)@ == old(ops)@ + clear_row_ops(row, self.columns()),
    {
        let columns = self.width / self.char_width as u32;
        let mut col: u32 = 0;
        while col < columns
            invariant
                columns == self.columns(),
                col <= columns,
                ops@ == old(ops)@ + clear_row_ops(row, col as nat),
            decreases columns - col,
        {
            ops.push(ScreenOp::Draw { row, col, character: 32 });
            proof {
                assert(clear_row_ops(row, col as nat + 1) =~= clear_row_ops(row, col as nat).push(
                    ScreenOp::Draw { row, col, character: 32 },
                ));
            }
            col = col + 1;
        }
    }

    /// Moves every text row up by one and clears the last row; the cursor
    /// moves up with its row.
    fn shift(&mut self, ops: &mut Vec<ScreenOp>)
        requires
            old(self).row() == old(self).rows(),
            old(self).column() == 0,
            geometry_fits(old(self).geometry(), old(self).cell_width() as nat, old(self).cell_height() as nat),
        ensures
            final(self).wf(),
            final(self).config() == old(self).config(),
            final(self).row() == old(self).rows() - 1,
            final(self).column() == 0,
            final(ops)@ == old(ops)@ + seq![ScreenOp::Scroll] + clear_row_ops(
                (old(self).rows() - 1) as u32,
                old(self).columns(),
            ),
    {
        ops.push(ScreenOp::Scroll);
        self.row_position = self.row_position - 1;
        let row = self.row_position;
        self.clear_row(row, ops);
    }

    /// Breaks the line: the cursor goes to the start of the next row,
    /// scrolling when it was on the last row.
    fn new_line(&mut self, ops: &mut Vec<ScreenOp>)
        requires
            old(self).wf(),
        ensures
            final(self).wf(),
            final(self).config() == old(self).config(),
            final(self).row() == row_after_new_line(old(self).row(), old(self).rows()),
            final(self).column() == 0,
            final(ops)@ == old(ops)@ + new_line_ops(old(self).row(), old(self).rows(), old(self).columns()),
    {
        self.row_position = self.row_position + 1;
        self.column_position = 0;
        if self.row_position >= self.height / self.char_height as u32 {
            self.shift(ops);
        } else {
            assert(ops@ =~= old(ops)@ + Seq::<ScreenOp>::empty());
        }
    }

    /// Writes `byte` at the cursor. A line feed breaks the line; any other
    /// byte is drawn at the cursor, after breaking the line if the cursor
    /// is past the last column, and the cursor moves one column right.
    /// Returns what the framebuffer memory must undergo, in order.
    pub fn write_byte(&mut self, byte: u8) -> (ops: Vec<ScreenOp>)
        requires
            old(self).wf(),
        ensures
            final(self).wf(),
            final(self).config() == old(self).config(),
            final(self).rows() == old(self).rows(),
            final(self).columns() == old(self).columns(),
            (final(self).row(), final(self).column(), ops@)
                == write_byte_result(old(self).row(), old(self).column(), old(self).rows(), old(self).columns(), byte),
    {
        let mut ops: Vec<ScreenOp> = Vec::new();
        if byte == 10 {
            self.new_line(&mut ops);
            assert(ops@ =~= new_line_ops(old(self).row(), old(self).rows(), old(self).columns()));
        } else {
            if self.column_position >= self.width / self.char_width as u32 {
                self.new_line(&mut ops);
            }
            let ghost before = ops@;
            ops.push(ScreenOp::Draw { row: self.row_position, col: self.column_position, character: byte });
            self.column_position = self.column_position + 1;
            assert(ops@ =~= before + seq![ScreenOp::Draw { row: self.row_position, col: (self.column_position - 1) as u32, character: byte }]);
        }
        ops
    }
}

impl Writer {
    /// The address of the top left pixel of the cell at `row`, `col`, when
    /// the writer draws pixels; `None` on other framebuffers, where drawing
    /// does nothing.
    pub fn draw_target(&self, row: u32, col: u32) -> (r: Option<u64>)
        requires
            self.wf(),
            row < self.rows(),
            col < self.columns(),
        ensures
            self.draws_pixels() ==> r == Some((self.address() + self.line_pitch() * row
                * self.cell_height() + col * self.cell_width() * 4) as u64),
            !self.draws_pixels() ==> r is None,
    {
        if self.fb_type == 1 && self.bpp == 32 {
            let ghost p = self.pitch as int;
            let ghost h = self.height as int;
            let ghost ch = self.char_height as int;
            let ghost cw = self.char_width as int;
            let ghost w = self.width as int;
            let ghost rows = h / ch;
            let ghost cols = w / cw;
            assert(p * row as int * ch <= p * ch * (rows - 1)) by (nonlinear_arith)
                requires row < rows, p >= 0, ch > 0, row >= 0;
            assert(p * row as int <= p * row as int * ch) by (nonlinear_arith)
                requires p >= 0, row >= 0, ch >= 1;
            assert(col as int * cw * 4 <= (cols - 1) * cw * 4) by (nonlinear_arith)
                requires col < cols, cw > 0, col >= 0;
            assert(col as int * cw <= col as int * cw * 4) by (nonlinear_arith)
                requires col >= 0, cw > 0;
            let offset = self.pitch * row * self.char_height as u32 + col * self.char_width as u32 * 4;
            Some(self.addr + offset as u64)
        } else {
            None
        }
    }

    /// The memory move of a scroll: `(destination, source, length)`,
    /// moving every text row but the first one row up.
    pub fn scroll_move(&self) -> (m: (u64, u64, u64))
        requires
            self.wf(),
        ensures
            m.0 == self.address(),
            m.1 == self.address() + self.line_pitch() * self.cell_height(),
            m.2 == self.line_pitch() * self.cell_height() * (self.rows() - 1),
    {
        let ghost p = self.pitch as int;
        let ghost h = self.height as int;
        let ghost ch = self.char_height as int;
        let rows = self.height / self.char_height as u32;
        assert(ch * (rows as int - 1) + ch <= h && ch <= h) by (nonlinear_arith)
            requires rows == h / ch, ch > 0, h >= 0, rows >= 1;
        assert(p * ch <= p * h && p * ch * (rows as int - 1) <= p * h) by (nonlinear_arith)
            requires ch * (rows as int - 1) + ch <= h, ch <= h, p >= 0, ch > 0, rows >= 1;
        let row_size = self.pitch * self.char_height as u32;
        (self.addr, self.addr + row_size as u64, (row_size * (rows - 1)) as u64)
    }
}

impl Writer {
    /// Writes the bytes of `text` in order, as `write_byte` does each.
    /// Returns what the framebuffer memory must undergo, in order.
    pub fn write_str(&mut self, text: &[u8]) -> (ops: Vec<ScreenOp>)
        requires
            old(self).wf(),
        ensures
            final(self).wf(),
            final(self).config() == old(self).config(),
            final(self).rows() == old(self).rows(),
            final(self).columns() == old(self).columns(),
            (final(self).row(), final(self).column(), ops@)
                == write_bytes_result(old(self).row(), old(self).column(), old(self).rows(), old(self).columns(), text@),
    {
        let mut ops: Vec<ScreenOp> = Vec::new();
        let mut i: usize = 0;
        while i < text.len()
            invariant
                i <= text@.len(),
                self.wf(),
                self.config() == old(self).config(),
                self.rows() == old(self).rows(),
                self.columns() == old(self).columns(),
                (self.row(), self.column(), ops@) == write_bytes_result(
                    old(self).row(),
                    old(self).column(),
                    old(self).rows(),
                    old(self).columns(),
                    text@.subrange(0, i as int),
                ),
            decreases text@.len() - i,
        {
            let byte_ops = self.write_byte(text[i]);
            let mut k: usize = 0;
            let ghost before = ops@;
            while k < byte_ops.len()
                invariant
                    k <= byte_ops@.len(),
                    ops@ == before + byte_ops@.subrange(0, k as int),
                decreases byte_ops@.len() - k,
            {
                ops.push(byte_ops[k]);
                k = k + 1;
            }
            proof {
                assert(byte_ops@.subrange(0, byte_ops@.len() as int) =~= byte_ops@);
                let s = text@.subrange(0, i as int + 1);
                assert(s.drop_last() =~= text@.subrange(0, i as int));
                assert(s.last() == text@[i as int]);
            }
            i = i + 1;
        }
        assert(text@.subrange(0, text@.len() as int) =~= text@);
        ops
    }
}

/// Every cell of the first `rows` rows filled with a space, row by row.
pub open spec fn clear_screen_ops(rows: nat, columns: nat) -> Seq<ScreenOp>
    decreases rows,
{
    if rows == 0 {
        Seq::empty()
    } else {
        clear_screen_ops((rows - 1) as nat, columns) + clear_row_ops((rows - 1) as u32, columns)
    }
}

impl Writer {
    /// Blanks every cell and puts the cursor at the top left.
    pub fn clear_screen(&mut self) -> (ops: Vec<ScreenOp>)
        requires
            old(self).wf(),
        ensures
            final(self).wf(),
            final(self).config() == old(self).config(),
            final(self).rows() == old(self).rows(),
            final(self).columns() == old(self).columns(),
            final(self).row() == 0,
            final(self).column() == 0,
            ops@ == clear_screen_ops(old(self).rows(), old(self).columns()),
    {
        let rows = self.height / self.char_height as u32;
        let mut ops: Vec<ScreenOp> = Vec::new();
        let mut row: u32 = 0;
        while row < rows
            invariant
                self.wf(),
                *self == *old(self),
                rows == self.rows(),
                row <= rows,
                ops@ == clear_screen_ops(row as nat, self.columns()),
            decreases rows - row,
        {
            self.clear_row(row, &mut ops);
            row = row + 1;
        }
        self.row_position = 0;
        self.column_position = 0;
        ops
    }

    /// The color the writer draws with.
    pub fn color(&self) -> (c: CurrentColor)
        ensures
            c == self.current_color(),
    {
        self.color
    }

    /// Bytes per line of the framebuffer.
    pub fn pitch(&self) -> (p: u32)
        ensures
            p == self.line_pitch(),
    {
        self.pitch
    }
}

/// The pixel at column `k` (0 to 7, left to right) of a glyph row: the
/// foreground where bit `7 - k` of the row is set, else the background.
pub open spec fn glyph_pixel(row_data: u8, k: u8, foreground: u32, background: u32) -> u32 {
    if (row_data >> ((7 - k) as u8)) & 1 == 1 { foreground } else { background }
}

/// The 32-bit lane `k` (0 to 3, lowest first) of `v`.
pub open spec fn lane(v: u128, k: u128) -> u128 {
    (v >> (32 * k)) & 0xffff_ffff
}

/// The mask of a 4-pixel group: lane `k` all ones where bit `3 - k` of
/// `nibble` is set, all zeros otherwise.
fn nibble_mask(nibble: u8) -> (m: u128)
    requires
        nibble < 16,
    ensures
        lane(m, 0) == if nibble & 8 != 0 { 0xffff_ffffu128 } else { 0u128 },
        lane(m, 1) == if nibble & 4 != 0 { 0xffff_ffffu128 } else { 0u128 },
        lane(m, 2) == if nibble & 2 != 0 { 0xffff_ffffu128 } else { 0u128 },
        lane(m, 3) == if nibble & 1 != 0 { 0xffff_ffffu128 } else { 0u128 },
{
    let l0: u128 = if nibble & 8 != 0 { 0xffff_ffff } else { 0 };
    let l1: u128 = if nibble & 4 != 0 { 0xffff_ffff } else { 0 };
    let l2: u128 = if nibble & 2 != 0 { 0xffff_ffff } else { 0 };
    let l3: u128 = if nibble & 1 != 0 { 0xffff_ffff } else { 0 };
    let m = l0 | (l1 << 32) | (l2 << 64) | (l3 << 96);
    assert(((m >> 0u128) & 0xffff_ffff) == l0) by (bit_vector)
        requires
            l0 == 0 || l0 == 0xffff_ffff,
            l1 == 0 || l1 == 0xffff_ffff,
            l2 == 0 || l2 == 0xffff_ffff,
            l3 == 0 || l3 == 0xffff_ffff,
            m == l0 | (l1 << 32) | (l2 << 64) | (l3 << 96);
    assert(((m >> 32u128) & 0xffff_ffff) == l1) by (bit_vector)
        requires
            l0 == 0 || l0 == 0xffff_ffff,
            l1 == 0 || l1 == 0xffff_ffff,
            l2 == 0 || l2 == 0xffff_ffff,
            l3 == 0 || l3 == 0xffff_ffff,
            m == l0 | (l1 << 32) | (l2 << 64) | (l3 << 96);
    assert(((m >> 64u128) & 0xffff_ffff) == l2) by (bit_vector)
        requires
            l0 == 0 || l0 == 0xffff_ffff,
            l1 == 0 || l1 == 0xffff_ffff,
            l2 == 0 || l2 == 0xffff_ffff,
            l3 == 0 || l3 == 0xffff_ffff,
            m == l0 | (l1 << 32) | (l2 << 64) | (l3 << 96);
    assert(((m >> 96u128) & 0xffff_ffff) == l3) by (bit_vector)
        requires
            l0 == 0 || l0 == 0xffff_ffff,
            l1 == 0 || l1 == 0xffff_ffff,
            l2 == 0 || l2 == 0xffff_ffff,
            l3 == 0 || l3 == 0xffff_ffff,
            m == l0 | (l1 << 32) | (l2 << 64) | (l3 << 96);
    m
}

/// A 32-bit pixel repeated in all four lanes.
fn splat(pixel: u32) -> (v: u128)
    ensures
        lane(v, 0) == pixel,
        lane(v, 1) == pixel,
        lane(v, 2) == pixel,
        lane(v, 3) == pixel,
{
    let p = pixel as u128;
    let v = (p << 96) | (p << 64) | (p << 32) | p;
    assert(((v >> 0u128) & 0xffff_ffff) == p) by (bit_vector)
        requires p <= 0xffff_ffff, v == (p << 96) | (p << 64) | (p << 32) | p;
    assert(((v >> 32u128) & 0xffff_ffff) == p) by (bit_vector)
        requires p <= 0xffff_ffff, v == (p << 96) | (p << 64) | (p << 32) | p;
    assert(((v >> 64u128) & 0xffff_ffff) == p) by (bit_vector)
        requires p <= 0xffff_ffff, v == (p << 96) | (p << 64) | (p << 32) | p;
    assert(((v >> 96u128) & 0xffff_ffff) == p) by (bit_vector)
        requires p <= 0xffff_ffff, v == (p << 96) | (p << 64) | (p << 32) | p;
    v
}

/// Picks lane by lane: `foreground` where `mask` is all ones, else
/// `background`.
fn blend(foreground: u128, background: u128, mask: u128) -> (v: u128)
    ensures
        forall|k: u128| k < 4 ==> #[trigger] lane(v, k) == if lane(mask, k) == 0xffff_ffff {
            lane(foreground, k)
        } else if lane(mask, k) == 0 {
            lane(background, k)
        } else {
            lane(v, k)
        },
{
    let v = (foreground & mask) | (background & !mask);
    assert forall|k: u128| k < 4 implies #[trigger] lane(v, k) == if lane(mask, k) == 0xffff_ffff {
        lane(foreground, k)
    } else if lane(mask, k) == 0 {
        lane(background, k)
    } else {
        lane(v, k)
    } by {
        assert(((v >> (32 * k)) & 0xffff_ffff) == if ((mask >> (32 * k)) & 0xffff_ffff) == 0xffff_ffff {
            (foreground >> (32 * k)) & 0xffff_ffff
        } else if ((mask >> (32 * k)) & 0xffff_ffff) == 0 {
            (background >> (32 * k)) & 0xffff_ffff
        } else {
            (v >> (32 * k)) & 0xffff_ffff
        }) by (bit_vector)
            requires v == (foreground & mask) | (background & !mask), k < 4;
    }
    v
}

/// The pixels of one 8-pixel glyph row, as two 4-pixel groups: the left
/// four in the first value, the right four in the second, the leftmost
/// pixel of each in its lowest lane (the lowest address in memory).
pub fn glyph_row(row_data: u8, foreground: u32, background: u32) -> (r: (u128, u128))
    ensures
        lane(r.0, 0) == glyph_pixel(row_data, 0, foreground, background),
        lane(r.0, 1) == glyph_pixel(row_data, 1, foreground, background),
        lane(r.0, 2) == glyph_pixel(row_data, 2, foreground, background),
        lane(r.0, 3) == glyph_pixel(row_data, 3, foreground, background),
        lane(r.1, 0) == glyph_pixel(row_data, 4, foreground, background),
        lane(r.1, 1) == glyph_pixel(row_data, 5, foreground, background),
        lane(r.1, 2) == glyph_pixel(row_data, 6, foreground, background),
        lane(r.1, 3) == glyph_pixel(row_data, 7, foreground, background),
{
    let packed_foreground = splat(foreground);
    let packed_background = splat(background);
    let high = row_data >> 4;
    let low = row_data & 0x0f;
    assert(high < 16 && low < 16) by (bit_vector)
        requires high == row_data >> 4, low == row_data & 0x0f;
    let mask1 = nibble_mask(high);
    let mask2 = nibble_mask(low);
    assert(
        ((high & 8 != 0) == ((row_data >> 7u8) & 1 == 1))
        && ((high & 4 != 0) == ((row_data >> 6u8) & 1 == 1))
        && ((high & 2 != 0) == ((row_data >> 5u8) & 1 == 1))
        && ((high & 1 != 0) == ((row_data >> 4u8) & 1 == 1))
        && ((low & 8 != 0) == ((row_data >> 3u8) & 1 == 1))
        && ((low & 4 != 0) == ((row_data >> 2u8) & 1 == 1))
        && ((low & 2 != 0) == ((row_data >> 1u8) & 1 == 1))
        && ((low & 1 != 0) == ((row_data >> 0u8) & 1 == 1))
    ) by (bit_vector)
        requires high == row_data >> 4, low == row_data & 0x0f;
    let a = blend(packed_foreground, packed_background, mask1);
    let b = blend(packed_foreground, packed_background, mask2);
    (a, b)
}

/// Whether the four lanes of `v` are the glyph pixels `first` to
/// `first + 3` of `row_data`.
pub open spec fn holds_pixels(v: u128, row_data: u8, first: u8, foreground: u32, background: u32) -> bool {
    &&& lane(v, 0) == glyph_pixel(row_data, first, foreground, background)
    &&& lane(v, 1) == glyph_pixel(row_data, (first + 1) as u8, foreground, background)
    &&& lane(v, 2) == glyph_pixel(row_data, (first + 2) as u8, foreground, background)
    &&& lane(v, 3) == glyph_pixel(row_data, (first + 3) as u8, foreground, background)
}

/// Whether writes `2 * r` and `2 * r + 1` of `w` draw glyph row `r` of
/// `character` of `font` at `address` with lines of `pitch` bytes: the
/// left four pixels at the row's start, the right four 16 bytes further.
pub open spec fn glyph_row_written(
    w: Seq<(u64, u128)>,
    r: int,
    address: u64,
    pitch: u32,
    font: Seq<u8>,
    character: u8,
    foreground: u32,
    background: u32,
) -> bool {
    let row_data = font[character as int * 16 + r];
    &&& w[2 * r].0 == address + r * pitch
    &&& holds_pixels(w[2 * r].1, row_data, 0, foreground, background)
    &&& w[2 * r + 1].0 == address + r * pitch + 16
    &&& holds_pixels(w[2 * r + 1].1, row_data, 4, foreground, background)
}

/// Bytes per glyph in the font: one byte per pixel row.
pub const GLYPH_ROWS: usize = 16;

/// The writes that draw `character` of `font` (16 bytes per character,
/// one per pixel row, leftmost pixel in the top bit) at `address` of a
/// 32-bit framebuffer with lines of `pitch` bytes: for glyph row `r`, the
/// left four pixels go to `address + r * pitch` and the right four 16
/// bytes further, in that order.
pub fn glyph_writes(
    address: u64,
    pitch: u32,
    font: &[u8],
    character: u8,
    foreground: u32,
    background: u32,
) -> (w: Vec<(u64, u128)>)
    requires
        character as nat * 16 + 16 <= font@.len(),
        address as nat + 15 * pitch as nat + 16 <= u64::MAX,
    ensures
        w@.len() == 32,
        forall|r: int| 0 <= r < 16 ==> #[trigger] glyph_row_written(w@, r, address, pitch, font@, character, foreground, background),
{
    let char_start = character as usize * GLYPH_ROWS;
    let mut writes: Vec<(u64, u128)> = Vec::new();
    let mut row_address = address;
    let mut row: usize = 0;
    while row < GLYPH_ROWS
        invariant
            row <= GLYPH_ROWS,
            char_start == character as nat * 16,
            char_start + 16 <= font@.len(),
            address as nat + 15 * pitch as nat + 16 <= u64::MAX,
            row < GLYPH_ROWS ==> row_address == address + row * pitch,
            writes@.len() == 2 * row,
            forall|r: int| 0 <= r < row ==> #[trigger] glyph_row_written(writes@, r, address, pitch, font@, character, foreground, background),
        decreases GLYPH_ROWS - row,
    {
        let row_data = font[char_start + row];
        let (left, right) = glyph_row(row_data, foreground, background);
        assert(row * pitch as int <= 15 * pitch as int) by (nonlinear_arith)
            requires row < 16, pitch >= 0;
        let ghost before = writes@;
        writes.push((row_address, left));
        writes.push((row_address + 16, right));
        proof {
            assert(font@[character as int * 16 + row as int] == row_data);
            assert(holds_pixels(left, row_data, 0, foreground, background));
            assert(holds_pixels(right, row_data, 4, foreground, background));
            assert forall|r: int| 0 <= r < row + 1 implies #[trigger] glyph_row_written(
                writes@, r, address, pitch, font@, character, foreground, background,
            ) by {
                if r < row {
                    assert(glyph_row_written(before, r, address, pitch, font@, character, foreground, background));
                    assert(writes@[2 * r] == before[2 * r]);
                    assert(writes@[2 * r + 1] == before[2 * r + 1]);
                } else {
                    assert(writes@[2 * r] == (row_address, left));
                    assert(writes@[2 * r + 1] == ((row_address + 16) as u64, right));
                }
            }
        }
        if row + 1 < GLYPH_ROWS {
            assert((row + 1) * pitch as int <= 15 * pitch as int) by (nonlinear_arith)
                requires row + 1 < 16, pitch >= 0;
            assert((row + 1) * pitch as int == row * pitch as int + pitch) by (nonlinear_arith);
            row_address = row_address + pitch as u64;
        }
        row = row + 1;
    }
    writes
}

/// A 24-bit RGB color in 16-bit 1-5-5-5 form: the top bit of the color as
/// the top bit, then the upper five bits of blue, green and red.
pub fn convert_color_to_16(color: u32) -> (c: u16)
    ensures
        c == (color / 0x8000_0000) * 0x8000 + ((color / 0x8_0000) % 32) * 0x400
            + ((color / 0x800) % 32) * 0x20 + (color % 256) / 8,
{
    let r = ((color & 0xff) >> 3) as u16;
    let g = ((color & 0xff00) >> 11) as u16;
    let b = ((color & 0xff0000) >> 19) as u16;
    let a = (color >> 31) as u16;
    assert(((color & 0xff) >> 3) == (color % 256) / 8 && ((color & 0xff00) >> 11) == (color / 0x800) % 32
        && ((color & 0xff0000) >> 19) == (color / 0x8_0000) % 32 && (color >> 31) == color / 0x8000_0000) by (bit_vector);
    assert((a << 15u16) | (b << 10u16) | (g << 5u16) | r == a * 0x8000 + b * 0x400 + g * 0x20 + r) by (bit_vector)
        requires a < 2, b < 32, g < 32, r < 32;
    (a << 15) | (b << 10) | (g << 5) | (r)
}

/// A 24-bit RGB color in 8-bit 3-3-2 form: the upper three bits of red,
/// then of green, then the upper two bits of blue.
pub fn convert_color_to_8(color: u32) -> (c: u8)
    ensures
        c == ((color % 256) / 32) * 32 + ((color / 0x2000) % 8) * 4 + (color / 0x40_0000) % 4,
{
    let r = ((color & 0xff) >> 5) as u8;
    let g = ((color & 0xff00) >> 13) as u8;
    let b = ((color & 0xff0000) >> 22) as u8;
    assert(((color & 0xff) >> 5) == (color % 256) / 32 && ((color & 0xff00) >> 13) == (color / 0x2000) % 8
        && ((color & 0xff0000) >> 22) == (color / 0x40_0000) % 4) by (bit_vector);
    assert((r << 5u8) | (g << 2u8) | b == r * 32 + g * 4 + b) by (bit_vector)
        requires r < 8, g < 8, b < 4;
    (r << 5) | (g << 2) | (b)
}

} // verus!
