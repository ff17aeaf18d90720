//! Terminal cell geometry and the pixel-to-cell arithmetic used to place inline media.

use vstd::prelude::*;
use vstd::utf8::valid_utf8;

verus! {

/// Cell width assumed when the terminal reports no pixel size.
pub const DEFAULT_CELL_WIDTH_PX: u32 = 10;

/// Cell height assumed when the terminal reports no pixel size.
pub const DEFAULT_CELL_HEIGHT_PX: u32 = 20;

/// The size of the terminal in cells and the size of one cell in pixels.
#[derive(Debug, Copy, Clone, PartialEq, Eq, Structural)]
pub struct TerminalGeometry {
    pub cols: u16,
    pub rows: u16,
    pub cell_width_px: u32,
    pub cell_height_px: u32,
}

/// `value` raised to at least one.
pub open spec fn at_least_one(value: int) -> int {
    if value < 1 { 1 } else { value }
}

/// The geometry `with_cell_size` builds: every dimension raised to at least one.
pub open spec fn clamped_geometry(cols: u16, rows: u16, cell_width_px: u32, cell_height_px: u32) -> TerminalGeometry {
    TerminalGeometry {
        cols: at_least_one(cols as int) as u16,
        rows: at_least_one(rows as int) as u16,
        cell_width_px: at_least_one(cell_width_px as int) as u32,
        cell_height_px: at_least_one(cell_height_px as int) as u32,
    }
}

/// Cells left once `margin` cells are reserved, never fewer than one.
pub open spec fn usable_cells(total: u16, margin: u16) -> int {
    at_least_one(total - margin)
}

/// The number of cells needed to show `pixels` pixels with cells of `cell_pixels` pixels:
/// both raised to at least one, then divided rounding up, with the intermediate sum
/// saturating at `u32::MAX`.
pub open spec fn spec_cells_for_pixels(pixels: u32, cell_pixels: u32) -> int {
    let cell = at_least_one(cell_pixels as int);
    let sum = at_least_one(pixels as int) + cell - 1;
    let saturated = if sum > u32::MAX { u32::MAX as int } else { sum };
    saturated / cell
}

impl TerminalGeometry {
    /// Every dimension is at least one.
    pub open spec fn wf(self) -> bool {
        &&& self.cols >= 1
        &&& self.rows >= 1
        &&& self.cell_width_px >= 1
        &&& self.cell_height_px >= 1
    }

    /// Pixel width left for media after `margin_cols` columns are reserved.
    pub open spec fn spec_drawable_width_px(self, margin_cols: u16) -> int {
        usable_cells(self.cols, margin_cols) * self.cell_width_px
    }

    /// Pixel height left for media after `margin_rows` rows are reserved.
    pub open spec fn spec_drawable_height_px(self, margin_rows: u16) -> int {
        usable_cells(self.rows, margin_rows) * self.cell_height_px
    }

    /// A geometry with the default cell size.
    pub fn from_cells(cols: u16, rows: u16) -> (geometry: Self)
        ensures
            geometry == clamped_geometry(cols, rows, DEFAULT_CELL_WIDTH_PX, DEFAULT_CELL_HEIGHT_PX),
            geometry.wf(),
    {
        Self::with_cell_size(cols, rows, DEFAULT_CELL_WIDTH_PX, DEFAULT_CELL_HEIGHT_PX)
    }

    /// A geometry with every dimension raised to at least one.
    pub fn with_cell_size(cols: u16, rows: u16, cell_width_px: u32, cell_height_px: u32) -> (geometry: Self)
        ensures
            geometry == clamped_geometry(cols, rows, cell_width_px, cell_height_px),
            geometry.wf(),
    {
        Self {
            cols: if cols < 1 { 1 } else { cols },
            rows: if rows < 1 { 1 } else { rows },
            cell_width_px: if cell_width_px < 1 { 1 } else { cell_width_px },
            cell_height_px: if cell_height_px < 1 { 1 } else { cell_height_px },
        }
    }

    /// Pixel width of the columns left after `margin_cols` are reserved (at least one column).
    pub fn drawable_width_px(self, margin_cols: u16) -> (width: u32)
        requires
            self.spec_drawable_width_px(margin_cols) <= u32::MAX,
        ensures
            width == self.spec_drawable_width_px(margin_cols),
    {
        let usable: u16 = if self.cols > margin_cols { self.cols - margin_cols } else { 0 };
        let usable: u32 = if usable < 1 { 1 } else { usable as u32 };
        usable * self.cell_width_px
    }

    /// Pixel height of the rows left after `margin_rows` are reserved (at least one row).
    pub fn drawable_height_px(self, margin_rows: u16) -> (height: u32)
        requires
            self.spec_drawable_height_px(margin_rows) <= u32::MAX,
        ensures
            height == self.spec_drawable_height_px(margin_rows),
    {
        let usable: u16 = if self.rows > margin_rows { self.rows - margin_rows } else { 0 };
        let usable: u32 = if usable < 1 { 1 } else { usable as u32 };
        usable * self.cell_height_px
    }
}

/// Cells needed to cover `pixels` pixels with cells of `cell_pixels` pixels, rounding up.
pub fn cells_for_pixels(pixels: u32, cell_pixels: u32) -> (cells: u32)
    ensures
        cells == spec_cells_for_pixels(pixels, cell_pixels),
{
    let cell_pixels: u32 = if cell_pixels < 1 { 1 } else { cell_pixels };
    let pixels: u32 = if pixels < 1 { 1 } else { pixels };
    let sum: u32 = pixels.saturating_add(cell_pixels - 1);
    sum / cell_pixels
}


/// Rounding up is exact: unless the intermediate sum saturates, the cells returned cover the
/// pixels (at least one), and one cell fewer would not.
pub proof fn law_cells_cover_pixels(pixels: u32, cell_pixels: u32)
    requires
        at_least_one(pixels as int) + at_least_one(cell_pixels as int) - 1 <= u32::MAX,
    ensures
        spec_cells_for_pixels(pixels, cell_pixels) * at_least_one(cell_pixels as int) >= at_least_one(pixels as int),
        (spec_cells_for_pixels(pixels, cell_pixels) - 1) * at_least_one(cell_pixels as int) < at_least_one(pixels as int),
{
    let cell = at_least_one(cell_pixels as int);
    let needed = at_least_one(pixels as int);
    let cells = (needed + cell - 1) / cell;
    assert(cells == spec_cells_for_pixels(pixels, cell_pixels));
    assert(cells * cell >= needed && (cells - 1) * cell < needed) by (nonlinear_arith)
        requires
            cell >= 1,
            needed >= 1,
            cells == (needed + cell - 1) / cell,
    ;
}

/// Reserving margins never leaves less than one cell: the drawable area of a well-formed
/// geometry is at least one cell wide and one cell tall.
pub proof fn law_drawable_area_keeps_one_cell(geometry: TerminalGeometry, margin_cols: u16, margin_rows: u16)
    requires
        geometry.wf(),
    ensures
        geometry.spec_drawable_width_px(margin_cols) >= geometry.cell_width_px,
        geometry.spec_drawable_height_px(margin_rows) >= geometry.cell_height_px,
{
    let columns = usable_cells(geometry.cols, margin_cols);
    let rows = usable_cells(geometry.rows, margin_rows);
    assert(columns * geometry.cell_width_px >= geometry.cell_width_px) by (nonlinear_arith)
        requires
            columns >= 1,
            geometry.cell_width_px >= 1,
    ;
    assert(rows * geometry.cell_height_px >= geometry.cell_height_px) by (nonlinear_arith)
        requires
            rows >= 1,
            geometry.cell_height_px >= 1,
    ;
}

/// The window size the terminal driver reports: cells and, when known, pixels.
#[derive(Debug, Copy, Clone, PartialEq, Eq, Structural)]
pub struct RawWinsize {
    pub cols: u16,
    pub rows: u16,
    pub xpixel: u32,
    pub ypixel: u32,
}

/// The cell size implied by a reported window size: none when a dimension is zero or the
/// pixel size is implausibly small (under two pixels per column or four per row).
pub open spec fn spec_winsize_cell_size(winsize: RawWinsize) -> Option<(u32, u32)> {
    let cols = winsize.cols as int;
    let rows = winsize.rows as int;
    if cols == 0 || rows == 0 || winsize.xpixel < 2 * cols || winsize.ypixel < 4 * rows {
        None
    } else {
        Some((at_least_one(winsize.xpixel as int / cols) as u32, at_least_one(winsize.ypixel as int / rows) as u32))
    }
}

impl RawWinsize {
    /// The cell size implied by this window size, if plausible.
    pub fn cell_size(self) -> (size: Option<(u32, u32)>)
        ensures
            size == spec_winsize_cell_size(self),
    {
        let cols = self.cols as u32;
        let rows = self.rows as u32;
        if cols == 0 || rows == 0 || self.xpixel < 2 * cols || self.ypixel < 4 * rows {
            return None;
        }
        let width = self.xpixel / cols;
        let height = self.ypixel / rows;
        Some((if width < 1 { 1 } else { width }, if height < 1 { 1 } else { height }))
    }
}

/// How far a geometry probe got with the terminal driver's answer.
#[derive(Debug, Copy, Clone, PartialEq, Eq, Structural)]
pub enum GeometryProbe {
    /// The driver reported a plausible cell size; the geometry is known.
    Known(TerminalGeometry),
    /// The cell size is still unknown for a terminal of this many columns and rows.
    NeedCellSize { cols: u16, rows: u16 },
}

/// The result of probing with `cols` × `rows` cells as reported by the terminal library and
/// the driver's window size `winsize`, if it gave one: the driver's cell counts win, and its
/// pixel size decides the cell size when plausible.
pub open spec fn spec_probe_winsize(cols: u16, rows: u16, winsize: Option<RawWinsize>) -> GeometryProbe {
    match winsize {
        Some(size) => match spec_winsize_cell_size(size) {
            Some((width, height)) => GeometryProbe::Known(
                clamped_geometry(at_least_one(size.cols as int) as u16, at_least_one(size.rows as int) as u16, width, height),
            ),
            None => GeometryProbe::NeedCellSize {
                cols: at_least_one(size.cols as int) as u16,
                rows: at_least_one(size.rows as int) as u16,
            },
        },
        None => GeometryProbe::NeedCellSize { cols: at_least_one(cols as int) as u16, rows: at_least_one(rows as int) as u16 },
    }
}

/// Starts working out the terminal geometry from the reported cell counts and the driver's
/// window size.
pub fn probe_winsize(cols: u16, rows: u16, winsize: Option<RawWinsize>) -> (probe: GeometryProbe)
    ensures
        probe == spec_probe_winsize(cols, rows, winsize),
{
    let mut cols = if cols < 1 { 1 } else { cols };
    let mut rows = if rows < 1 { 1 } else { rows };
    if let Some(size) = winsize {
        cols = if size.cols < 1 { 1 } else { size.cols };
        rows = if size.rows < 1 { 1 } else { size.rows };
        if let Some((width, height)) = size.cell_size() {
            return GeometryProbe::Known(TerminalGeometry::with_cell_size(cols, rows, width, height));
        }
    }
    GeometryProbe::NeedCellSize { cols, rows }
}

/// Finishes working out the geometry of a `cols` × `rows` terminal with the cell size the
/// terminal answered to a size query, or the default cell size when it did not answer.
pub fn geometry_with_queried_cells(cols: u16, rows: u16, cell_size: Option<(u32, u32)>) -> (geometry: TerminalGeometry)
    ensures
        geometry == match cell_size {
            Some((width, height)) => clamped_geometry(cols, rows, width, height),
            None => clamped_geometry(cols, rows, DEFAULT_CELL_WIDTH_PX, DEFAULT_CELL_HEIGHT_PX),
        },
{
    match cell_size {
        Some((width, height)) => TerminalGeometry::with_cell_size(cols, rows, width, height),
        None => TerminalGeometry::from_cells(cols, rows),
    }
}

/// The bytes `ESC [ 6 ;` that open a reply to the cell-size query `CSI 16 t`.
pub open spec fn cell_size_reply_prefix() -> Seq<u8> {
    seq![27u8, 91u8, 54u8, 59u8]
}

/// ASCII `t`, which ends the reply.
pub open spec fn reply_end() -> u8 {
    116
}

/// ASCII `;`, which separates the reply's fields.
pub open spec fn field_separator() -> u8 {
    59
}

/// The reply prefix occurs at `index`.
pub open spec fn prefix_at(data: Seq<u8>, index: int) -> bool {
    0 <= index && index + 4 <= data.len() && data.subrange(index, index + 4) == cell_size_reply_prefix()
}

/// The first index at or after `from` where the reply prefix occurs.
pub open spec fn next_prefix(data: Seq<u8>, from: int) -> Option<int>
    decreases data.len() - from,
{
    if from < 0 || from + 4 > data.len() {
        None
    } else if prefix_at(data, from) {
        Some(from)
    } else {
        next_prefix(data, from + 1)
    }
}

/// The first index at or after `from` where `byte` occurs.
pub open spec fn next_byte(data: Seq<u8>, from: int, byte: u8) -> Option<int>
    decreases data.len() - from,
{
    if from < 0 || from >= data.len() {
        None
    } else if data[from] == byte {
        Some(from)
    } else {
        next_byte(data, from + 1, byte)
    }
}

/// The decimal value of a sequence of ASCII digits.
pub open spec fn decimal_value(digits: Seq<u8>) -> nat
    decreases digits.len(),
{
    if digits.len() == 0 {
        0
    } else {
        decimal_value(digits.drop_last()) * 10 + (digits.last() - 48) as nat
    }
}

/// `byte` is an ASCII digit.
pub open spec fn is_digit(byte: u8) -> bool {
    48 <= byte <= 57
}

/// Every byte of `bytes` is an ASCII digit.
pub open spec fn all_digits(bytes: Seq<u8>) -> bool {
    forall|i: int| 0 <= i < bytes.len() ==> is_digit(#[trigger] bytes[i])
}

/// `text` without the `+` it may start with.
pub open spec fn unsigned_digits(text: Seq<u8>) -> Seq<u8> {
    if text.len() > 0 && text[0] == 43 { text.drop_first() } else { text }
}

/// What `str::parse::<u32>` accepts: an optional `+`, then one or more ASCII digits whose
/// value fits in `u32`.
pub open spec fn spec_parse_u32(text: Seq<u8>) -> Option<u32> {
    let digits = unsigned_digits(text);
    if digits.len() == 0 || !all_digits(digits) {
        None
    } else if decimal_value(digits) > u32::MAX {
        None
    } else {
        Some(decimal_value(digits) as u32)
    }
}

/// The first two `;`-separated fields of `region`, or none when it has no `;`.
pub open spec fn first_two_fields(region: Seq<u8>) -> Option<(Seq<u8>, Seq<u8>)> {
    match next_byte(region, 0, field_separator()) {
        None => None,
        Some(first_end) => {
            let rest = region.subrange(first_end + 1, region.len() as int);
            let second = match next_byte(rest, 0, field_separator()) {
                Some(second_end) => rest.subrange(0, second_end),
                None => rest,
            };
            Some((region.subrange(0, first_end), second))
        },
    }
}

/// The first cell size, as `(width, height)`, announced by a reply `ESC [ 6 ; height ; width t`
/// at or after `from`. Replies with a zero dimension are passed over; a reply without its
/// final `t`, with fewer than two fields or with a field that is not a number ends the search
/// with nothing.
pub open spec fn scan_cell_size_reply(data: Seq<u8>, from: int) -> Option<(u32, u32)>
    decreases data.len() - from,
{
    match next_prefix(data, from) {
        None => None,
        Some(start) => match next_byte(data, start + 4, reply_end()) {
            None => None,
            Some(end) => match first_two_fields(data.subrange(start + 4, end)) {
                None => None,
                Some((height_field, width_field)) => match (spec_parse_u32(height_field), spec_parse_u32(width_field)) {
                    (Some(height), Some(width)) => if width > 0 && height > 0 {
                        Some((width, height))
                    } else if start + 4 > from {
                        scan_cell_size_reply(data, start + 4)
                    } else {
                        None
                    },
                    _ => None,
                },
            },
        },
    }
}

/// The cell size announced in a terminal's reply to `CSI 16 t`; nothing unless the reply is
/// valid UTF-8.
pub open spec fn spec_parse_cell_size_reply(data: Seq<u8>) -> Option<(u32, u32)> {
    if valid_utf8(data) { scan_cell_size_reply(data, 0) } else { None }
}

/// Whether `data` is valid UTF-8, as `std::str::from_utf8` decides.
#[verifier::external_body]
fn is_utf8(data: &[u8]) -> (valid: bool)
    ensures
        valid == valid_utf8(data@),
{
    std::str::from_utf8(data).is_ok()
}

/// The first index at or after `from` where the reply prefix occurs.
fn find_prefix(data: &[u8], from: usize) -> (found: Option<usize>)
    ensures
        match found {
            Some(index) => next_prefix(data@, from as int) == Some(index as int),
            None => next_prefix(data@, from as int) is None,
        },
{
    let len = data.len();
    let mut index = from;
    while index <= len && len - index >= 4
        invariant
            len == data@.len(),
            from <= index,
            next_prefix(data@, from as int) == next_prefix(data@, index as int),
        decreases len - index,
    {
        if data[index] == 27 && data[index + 1] == 91 && data[index + 2] == 54 && data[index + 3] == 59 {
            assert(data@.subrange(index as int, index + 4) == cell_size_reply_prefix());
            return Some(index);
        }
        proof {
            if prefix_at(data@, index as int) {
                let window = data@.subrange(index as int, index + 4);
                assert(window[0] == data@[index as int]);
                assert(window[1] == data@[index + 1]);
                assert(window[2] == data@[index + 2]);
                assert(window[3] == data@[index + 3]);
            }
        }
        index = index + 1;
    }
    None
}

/// The first index in `start..end` where `byte` occurs, as an index into `data`.
fn find_byte(data: &[u8], start: usize, end: usize, byte: u8) -> (found: Option<usize>)
    requires
        start <= end <= data@.len(),
    ensures
        match found {
            Some(index) => next_byte(data@.subrange(start as int, end as int), 0, byte) == Some(index - start) && start <= index < end,
            None => next_byte(data@.subrange(start as int, end as int), 0, byte) is None,
        },
{
    let ghost region = data@.subrange(start as int, end as int);
    let mut index = start;
    while index < end
        invariant
            start <= index <= end <= data@.len(),
            region == data@.subrange(start as int, end as int),
            next_byte(region, 0, byte) == next_byte(region, index - start, byte),
        decreases end - index,
    {
        if data[index] == byte {
            assert(region[index - start] == data@[index as int]);
            return Some(index);
        }
        assert(region[index - start] == data@[index as int]);
        index = index + 1;
    }
    None
}

/// A digit run's value never shrinks as digits are appended.
proof fn lemma_decimal_value_grows(digits: Seq<u8>, digit: u8)
    ensures
        decimal_value(digits.push(digit)) >= decimal_value(digits),
        decimal_value(digits.push(digit)) == decimal_value(digits) * 10 + (digit - 48) as nat,
{
    assert(digits.push(digit).drop_last() == digits);
}

/// Parses `data[start..end]` as `str::parse::<u32>` does.
fn parse_u32(data: &[u8], start: usize, end: usize) -> (value: Option<u32>)
    requires
        start <= end <= data@.len(),
    ensures
        value == spec_parse_u32(data@.subrange(start as int, end as int)),
{
    let ghost text = data@.subrange(start as int, end as int);
    let first = if start < end && data[start] == 43 { start + 1 } else { start };
    let ghost digits = data@.subrange(first as int, end as int);
    assert(digits == unsigned_digits(text));
    if first == end {
        return None;
    }
    let mut value: u64 = 0;
    let mut overflowed = false;
    let mut index = first;
    while index < end
        invariant
            start <= first <= index <= end <= data@.len(),
            text == data@.subrange(start as int, end as int),
            digits == unsigned_digits(text),
            digits == data@.subrange(first as int, end as int),
            forall|i: int| 0 <= i < index - first ==> is_digit(#[trigger] digits[i]),
            overflowed ==> decimal_value(data@.subrange(first as int, index as int)) > u32::MAX,
            !overflowed ==> value == decimal_value(data@.subrange(first as int, index as int)) && value <= u32::MAX,
        decreases end - index,
    {
        let byte = data[index];
        if byte < 48 || byte > 57 {
            assert(digits[index - first] == data@[index as int]);
            assert(0 <= index - first < digits.len() && !is_digit(digits[index - first]));
            assert(!all_digits(digits));
            return None;
        }
        let ghost before = data@.subrange(first as int, index as int);
        assert(data@.subrange(first as int, index + 1) == before.push(byte));
        proof {
            lemma_decimal_value_grows(before, byte);
        }
        if !overflowed {
            let next = value * 10 + (byte - 48) as u64;
            if next > u32::MAX as u64 {
                overflowed = true;
            } else {
                value = next;
            }
        }
        index = index + 1;
    }
    assert(data@.subrange(first as int, end as int) == digits);
    if overflowed {
        None
    } else {
        Some(value as u32)
    }
}

/// Reads the cell size, as `(width, height)`, from a terminal's reply to `CSI 16 t`
/// (`ESC [ 6 ; height ; width t`), which may follow other input.
pub fn parse_csi_16t_response(data: &[u8]) -> (size: Option<(u32, u32)>)
    ensures
        size == spec_parse_cell_size_reply(data@),
{
    if !is_utf8(data) {
        return None;
    }
    let len = data.len();
    let mut from: usize = 0;
    while from <= len
        invariant
            len == data@.len(),
            valid_utf8(data@),
            scan_cell_size_reply(data@, 0) == scan_cell_size_reply(data@, from as int),
        decreases len - from,
    {
        let start = match find_prefix(data, from) {
            Some(start) => start,
            None => return None,
        };
        let ghost prefix_start = start as int;
        proof {
            lemma_next_prefix_bounds(data@, from as int);
        }
        let fields_start = start + 4;
        let end = match find_byte(data, fields_start, len, 116) {
            Some(end) => end,
            None => {
                proof {
                    lemma_next_byte_shift(data@, fields_start as int, len as int, 116);
                }
                return None;
            },
        };
        proof {
            lemma_next_byte_shift(data@, fields_start as int, len as int, 116);
        }
        let ghost region = data@.subrange(fields_start as int, end as int);
        let first_end = match find_byte(data, fields_start, end, 59) {
            Some(first_end) => first_end,
            None => return None,
        };
        let second_start = first_end + 1;
        let second_end = match find_byte(data, second_start, end, 59) {
            Some(second_end) => second_end,
            None => end,
        };
        proof {
            let rest = region.subrange(first_end - fields_start + 1, region.len() as int);
            assert(rest == data@.subrange(second_start as int, end as int));
            assert(region.subrange(0, first_end - fields_start) == data@.subrange(fields_start as int, first_end as int));
            match next_byte(rest, 0, 59) {
                Some(k) => {
                    assert(rest.subrange(0, k) == data@.subrange(second_start as int, second_end as int));
                },
                None => {},
            }
        }
        let height = match parse_u32(data, fields_start, first_end) {
            Some(height) => height,
            None => return None,
        };
        let width = match parse_u32(data, second_start, second_end) {
            Some(width) => width,
            None => return None,
        };
        assert(next_byte(data@, fields_start as int, 116) == Some(end as int));
        assert(first_two_fields(region) == Some((
            data@.subrange(fields_start as int, first_end as int),
            data@.subrange(second_start as int, second_end as int),
        )));
        if width > 0 && height > 0 {
            assert(scan_cell_size_reply(data@, from as int) == Some((width, height)));
            return Some((width, height));
        }
        assert(scan_cell_size_reply(data@, from as int) == scan_cell_size_reply(data@, fields_start as int));
        from = fields_start;
    }
    None
}

/// A found prefix lies inside the data, at or after the search start.
proof fn lemma_next_prefix_bounds(data: Seq<u8>, from: int)
    ensures
        next_prefix(data, from) matches Some(index) ==> from <= index && prefix_at(data, index),
    decreases data.len() - from,
{
    if !(from < 0 || from + 4 > data.len()) && !prefix_at(data, from) {
        lemma_next_prefix_bounds(data, from + 1);
    }
}

/// Searching for a byte from `start` in `data` agrees with searching from 0 in the suffix
/// `data[start..end]` when `end` is the data's end.
proof fn lemma_next_byte_shift(data: Seq<u8>, start: int, end: int, byte: u8)
    requires
        0 <= start <= end == data.len(),
    ensures
        next_byte(data, start, byte) == match next_byte(data.subrange(start, end), 0, byte) {
            Some(offset) => Some(offset + start),
            None => None::<int>,
        },
    decreases end - start,
{
    let suffix = data.subrange(start, end);
    lemma_next_byte_offset(suffix, 0, data, start, byte);
}

/// Searching `suffix` from `from` agrees with searching `data` from `from + shift` when
/// `suffix` is `data` from `shift` on.
proof fn lemma_next_byte_offset(suffix: Seq<u8>, from: int, data: Seq<u8>, shift: int, byte: u8)
    requires
        0 <= shift <= data.len(),
        suffix == data.subrange(shift, data.len() as int),
        0 <= from,
    ensures
        next_byte(data, from + shift, byte) == match next_byte(suffix, from, byte) {
            Some(offset) => Some(offset + shift),
            None => None::<int>,
        },
    decreases suffix.len() - from,
{
    if from < suffix.len() {
        assert(suffix[from] == data[from + shift]);
        if suffix[from] != byte {
            lemma_next_byte_offset(suffix, from + 1, data, shift, byte);
        }
    }
}


/// The decimal digits of `n`, most significant first, without leading zeros.
pub open spec fn decimal_digits(n: nat) -> Seq<u8>
    decreases n,
{
    if n < 10 {
        seq![(48 + n) as u8]
    } else {
        decimal_digits(n / 10).push((48 + n % 10) as u8)
    }
}

/// The reply `ESC [ 6 ; height ; width t` a terminal sends to `CSI 16 t`.
pub open spec fn cell_size_reply(height: nat, width: nat) -> Seq<u8> {
    cell_size_reply_prefix() + decimal_digits(height) + seq![field_separator()] + decimal_digits(width) + seq![reply_end()]
}

/// Decimal digits are digits, at least one of them, and read back as the number.
proof fn lemma_decimal_digits(n: nat)
    ensures
        decimal_digits(n).len() >= 1,
        all_digits(decimal_digits(n)),
        decimal_value(decimal_digits(n)) == n,
    decreases n,
{
    if n >= 10 {
        lemma_decimal_digits(n / 10);
        let digits = decimal_digits(n);
        assert(digits.drop_last() == decimal_digits(n / 10));
        assert(digits.last() == (48 + n % 10) as u8);
        assert((n / 10) * 10 + n % 10 == n);
        assert(digits.last() - 48 == n % 10);
        assert(decimal_value(digits) == decimal_value(digits.drop_last()) * 10 + (digits.last() - 48) as nat);
        assert forall|i: int| 0 <= i < digits.len() implies is_digit(#[trigger] digits[i]) by {
            if i < digits.len() - 1 {
                assert(digits[i] == decimal_digits(n / 10)[i]);
            }
        }
    } else {
        let digits = decimal_digits(n);
        assert(digits.drop_last() == Seq::<u8>::empty());
        assert(digits.last() - 48 == n);
        assert(decimal_value(digits) == decimal_value(digits.drop_last()) * 10 + (digits.last() - 48) as nat);
    }
}

/// ASCII bytes are valid UTF-8.
proof fn lemma_ascii_is_utf8(bytes: Seq<u8>)
    requires
        forall|i: int| 0 <= i < bytes.len() ==> #[trigger] bytes[i] < 128,
    ensures
        valid_utf8(bytes),
    decreases bytes.len(),
{
    if bytes.len() > 0 {
        let rest = bytes.subrange(1, bytes.len() as int);
        assert forall|i: int| 0 <= i < rest.len() implies #[trigger] rest[i] < 128 by {
            assert(rest[i] == bytes[i + 1]);
        }
        lemma_ascii_is_utf8(rest);
        assert(vstd::utf8::pop_first_scalar(bytes) == rest);
    }
}

/// The first occurrence of `byte` at or after `from` is at `found` when `byte` is there and
/// nowhere between.
proof fn lemma_next_byte_is(data: Seq<u8>, from: int, found: int, byte: u8)
    requires
        0 <= from <= found < data.len(),
        data[found] == byte,
        forall|j: int| from <= j < found ==> #[trigger] data[j] != byte,
    ensures
        next_byte(data, from, byte) == Some(found),
    decreases found - from,
{
    if from < found {
        lemma_next_byte_is(data, from + 1, found, byte);
    }
}

/// `byte` does not occur at or after `from` when no byte there is `byte`.
proof fn lemma_next_byte_absent(data: Seq<u8>, from: int, byte: u8)
    requires
        0 <= from,
        forall|j: int| from <= j < data.len() ==> #[trigger] data[j] != byte,
    ensures
        next_byte(data, from, byte) is None,
    decreases data.len() - from,
{
    if from < data.len() {
        lemma_next_byte_absent(data, from + 1, byte);
    }
}

/// The first reply prefix at or after `from` is at `found` when one is there and no byte
/// between is an escape.
proof fn lemma_next_prefix_is(data: Seq<u8>, from: int, found: int)
    requires
        0 <= from <= found,
        prefix_at(data, found),
        forall|j: int| from <= j < found ==> #[trigger] data[j] != 27,
    ensures
        next_prefix(data, from) == Some(found),
    decreases found - from,
{
    if from < found {
        assert(data.subrange(from, from + 4)[0] == data[from]);
        lemma_next_prefix_is(data, from + 1, found);
    }
}

/// A terminal's cell-size reply is read back exactly, after any ASCII input that holds no
/// escape: the reply for a cell `height` pixels tall and `width` pixels wide parses to
/// `(width, height)`.
pub proof fn law_cell_size_reply_round_trips(noise: Seq<u8>, height: u32, width: u32)
    requires
        height > 0,
        width > 0,
        forall|i: int| 0 <= i < noise.len() ==> #[trigger] noise[i] < 128 && noise[i] != 27,
    ensures
        spec_parse_cell_size_reply(noise + cell_size_reply(height as nat, width as nat)) == Some((width, height)),
{
    let heights = decimal_digits(height as nat);
    let widths = decimal_digits(width as nat);
    lemma_decimal_digits(height as nat);
    lemma_decimal_digits(width as nat);
    let reply = cell_size_reply(height as nat, width as nat);
    let data = noise + reply;
    let start = noise.len() as int;
    let fields_start = start + 4;
    let separator = fields_start + heights.len();
    let end = separator + 1 + widths.len();
    assert(data.len() == end + 1);
    assert forall|i: int| 0 <= i < heights.len() implies data[fields_start + i] == #[trigger] heights[i] by {}
    assert forall|i: int| 0 <= i < widths.len() implies data[separator + 1 + i] == #[trigger] widths[i] by {}
    assert(data[separator] == field_separator());
    assert(data[end] == reply_end());
    assert forall|i: int| 0 <= i < data.len() implies #[trigger] data[i] < 128 by {
        if i >= start + 4 && i < separator {
            assert(is_digit(heights[i - fields_start]));
        } else if i > separator && i < end {
            assert(is_digit(widths[i - separator - 1]));
        }
    }
    lemma_ascii_is_utf8(data);
    assert(data.subrange(start, start + 4) == cell_size_reply_prefix());
    assert forall|j: int| 0 <= j < start implies #[trigger] data[j] != 27 by {
        assert(data[j] == noise[j]);
    }
    lemma_next_prefix_is(data, 0, start);
    assert forall|j: int| fields_start <= j < end implies #[trigger] data[j] != reply_end() by {
        if j < separator {
            assert(is_digit(heights[j - fields_start]));
        } else if j > separator {
            assert(is_digit(widths[j - separator - 1]));
        }
    }
    lemma_next_byte_is(data, fields_start, end, reply_end());
    let region = data.subrange(fields_start, end);
    assert(region == heights + seq![field_separator()] + widths);
    assert forall|j: int| 0 <= j < heights.len() implies #[trigger] region[j] != field_separator() by {
        assert(is_digit(heights[j]));
    }
    lemma_next_byte_is(region, 0, heights.len() as int, field_separator());
    let rest = region.subrange(heights.len() as int + 1, region.len() as int);
    assert(rest == widths);
    assert forall|j: int| 0 <= j < rest.len() implies #[trigger] rest[j] != field_separator() by {
        assert(is_digit(widths[j]));
    }
    lemma_next_byte_absent(rest, 0, field_separator());
    assert(region.subrange(0, heights.len() as int) == heights);
    assert(is_digit(heights[0]) && is_digit(widths[0]));
    assert(unsigned_digits(heights) == heights);
    assert(unsigned_digits(widths) == widths);
    assert(spec_parse_u32(heights) == Some(height));
    assert(spec_parse_u32(widths) == Some(width));
}

} // verus!
