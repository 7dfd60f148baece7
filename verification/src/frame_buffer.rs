//! The cached screen, laid out so that it can be put on the bus as it stands.
//!
//! Each of the 176 lines is a two-byte command header followed by 88 bytes of
//! pixels, two pixels to a byte. Two more bytes close the buffer: they give the
//! panel the time to take in the last line.

use crate::header::header_bytes;
use crate::header::CommandHeader;
use crate::header::Mode;
use crate::sub_slice::SubSlice;
use crate::sub_slice::SubSliceView;
use vstd::prelude::*;

verus! {

/// Bytes in a frame buffer: for each row a command header and 176 pixels of
/// four bits, plus the data transfer period at the end.
pub const BUF_LEN: usize = 176 * (176 / 2 + 2) + 2;

/// Area of the screen to which data is written
#[derive(Debug, Copy, Clone, PartialEq, Eq, Structural)]
pub struct WriteFrame {
    pub row: u16,
    pub column: u16,
    pub width: u16,
    pub height: u16,
}

impl WriteFrame {
    /// Whether pixels can be copied into the area: its columns start at a byte
    /// boundary, its rows hold at least one byte, and its last row has a number.
    pub open spec fn blittable(self) -> bool {
        &&& self.column % 2 == 0
        &&& self.width >= 2
        &&& self.row + self.height <= u16::MAX
    }

    /// Returns whether pixels can be copied into the area.
    pub fn is_blittable(&self) -> (ok: bool)
        ensures
            ok == self.blittable(),
    {
        self.column % 2 == 0 && self.width >= 2 && self.height <= u16::MAX - self.row
    }
}

/// Arranges frame data in a buffer
/// whose portions can be sent directly to the device.
#[derive(Debug)]
pub struct FrameBuffer {
    data: Vec<u8>,
}

/// Where a line starts. Its header comes first.
pub open spec fn line_start(line: int) -> int {
    90 * line
}

/// Where the pixels of a row start.
pub open spec fn row_start(row: int) -> int {
    90 * row + 2
}

/// Whether a buffer of the given length holds the pixels of a row, with at
/// least one byte after them.
pub open spec fn has_row(len: nat, row: int) -> bool {
    0 <= row && row_start(row) + 88 < len
}

/// Whether a buffer of the given length holds a line and its transfer period.
pub open spec fn has_line(len: nat, line: int) -> bool {
    0 <= line && line_start(line) + 92 <= len
}

/// `data` with the bytes from `start` to `end` replaced by `part`.
pub open spec fn splice(data: Seq<u8>, start: int, end: int, part: Seq<u8>) -> Seq<u8> {
    data.subrange(0, start) + part + data.subrange(end, data.len() as int)
}

/// `data` with the header of one line replaced.
pub open spec fn with_header(data: Seq<u8>, line: int, mode: Mode, gate_line: int) -> Seq<u8> {
    data.update(line_start(line), header_bytes(mode, gate_line)[0]).update(
        line_start(line) + 1,
        header_bytes(mode, gate_line)[1],
    )
}

/// Whether a line is headed by the command that stores it in its own row of the
/// panel. Rows of the panel count from one.
pub open spec fn line_headed(data: Seq<u8>, line: int) -> bool {
    &&& data[line_start(line)] == header_bytes(Mode::Input4Bit, line + 1)[0]
    &&& data[line_start(line) + 1] == header_bytes(Mode::Input4Bit, line + 1)[1]
}

/// Whether a position holds one of the 176 line headers.
pub open spec fn in_header(pos: int) -> bool {
    0 <= pos < line_start(176) && pos % 90 < 2
}

/// `data` with every line headed by the command that stores it in its own row.
pub open spec fn with_all_headers(data: Seq<u8>) -> Seq<u8> {
    Seq::new(
        data.len(),
        |pos: int|
            if in_header(pos) {
                header_bytes(Mode::Input4Bit, pos / 90 + 1)[pos % 90]
            } else {
                data[pos]
            },
    )
}

/// The panel's four bits for a pixel given as `| B | G | R | s |`, that is
/// `| R | G | B | 0 |`.
pub open spec fn native_color(pixel: int) -> int {
    (pixel / 2 % 2) * 8 + (pixel / 4 % 2) * 4 + (pixel / 8 % 2) * 2
}

/// What a pixel of the screen becomes under a pixel of the source. Where the
/// source's intensity `s` is 0 it is transparent.
pub open spec fn overlay(below: int, pixel: int) -> int {
    if pixel % 2 == 1 {
        native_color(pixel)
    } else {
        below
    }
}

/// The pixel in the upper half of a byte.
pub open spec fn upper_pixel(cell: u8) -> int {
    cell as int / 16
}

/// The pixel in the lower half of a byte.
pub open spec fn lower_pixel(cell: u8) -> int {
    cell as int % 16
}

/// Two pixels of the source over two pixels of the screen.
pub open spec fn blended(cell: u8, source: u8) -> u8 {
    (overlay(upper_pixel(cell), upper_pixel(source)) * 16 + overlay(
        lower_pixel(cell),
        lower_pixel(source),
    )) as u8
}

/// The byte of the source that lands on a position of the frame buffer, if the
/// source were endless and the frame without bounds.
pub open spec fn source_index(frame: WriteFrame, pos: int) -> int {
    (pos / 90 - frame.row) * (frame.width as int / 2) + (pos % 90 - 2 - frame.column as int / 2)
}

/// Whether a source of `source_len` bytes, laid out row by row in the frame,
/// covers a position of a frame buffer of `len` bytes.
pub open spec fn covered(len: nat, frame: WriteFrame, source_len: nat, pos: int) -> bool {
    &&& has_row(len, pos / 90)
    &&& frame.row <= pos / 90 < frame.row + frame.height
    &&& frame.column as int / 2 <= pos % 90 - 2 < frame.column as int / 2 + frame.width as int / 2
    &&& source_index(frame, pos) < source_len
}

/// `data` with the source copied into the frame. What falls off the screen is
/// lost, and where the source is too short nothing changes.
pub open spec fn blitted(data: Seq<u8>, source: Seq<u8>, frame: WriteFrame) -> Seq<u8> {
    Seq::new(
        data.len(),
        |pos: int|
            if covered(data.len(), frame, source.len(), pos) {
                blended(data[pos], source[source_index(frame, pos)])
            } else {
                data[pos]
            },
    )
}

/// Puts two pixels of the source over two pixels of the screen.
///
/// 4-bit sRGB is encoded as `| B | G | R | s |`, where `s` is something like
/// intensity: 0 means transparent, 1 means opaque. The panel's own 4-bit format
/// is `| R | G | B | x |`, where `x` is ignored. So the R and B bits trade
/// places, and a pixel is only applied if its `s` is 1.
fn blend(cell: u8, source: u8) -> (result: u8)
    ensures
        result == blended(cell, source),
{
    let mut result: u8 = cell;
    if source & 0b1 != 0 {
        result = (result & 0xf0) | ((((source & 0b10) << 2) | (source & 0b100) | ((source & 0b1000)
            >> 2)) & 0x0f);
    }
    let ghost lower: u8 = result;
    if source & 0b10000 != 0 {
        result = (result & 0x0f) | ((((source & 0b100000) << 2) | (source & 0b1000000) | ((source
            & 0b10000000) >> 2)) & 0xf0);
    }
    assert(source & 0b1 == source % 16 % 2) by (bit_vector);
    assert(source & 0b10000 == source / 16 % 2 * 16) by (bit_vector);
    assert((cell & 0xf0) | ((((source & 0b10) << 2) | (source & 0b100) | ((source & 0b1000) >> 2))
        & 0x0f) == cell / 16 * 16 + (source % 16 / 2 % 2 * 8 + source % 16 / 4 % 2 * 4 + source % 16
        / 8 % 2 * 2)) by (bit_vector);
    assert((lower & 0x0f) | ((((source & 0b100000) << 2) | (source & 0b1000000) | ((source
        & 0b10000000) >> 2)) & 0xf0) == (source / 16 / 2 % 2 * 8 + source / 16 / 4 % 2 * 4 + source
        / 16 / 8 % 2 * 2) * 16 + lower % 16) by (bit_vector);
    result
}

/// Puts the source bytes from `from` to `to` over a row, starting at byte `left`.
/// What does not fit in the row is lost.
fn blend_row(cells: &mut [u8], left: usize, source: &[u8], from: usize, to: usize)
    requires
        from <= to <= source@.len(),
    ensures
        final(cells)@ == Seq::new(
            old(cells)@.len(),
            |c: int|
                if left <= c < left + (to - from) {
                    blended(old(cells)@[c], source@[from + (c - left)])
                } else {
                    old(cells)@[c]
                },
        ),
{
    let ghost before = cells@;
    let mut done: usize = 0;
    while done < to - from && left < cells.len() && done < cells.len() - left
        invariant
            from <= to <= source@.len(),
            done <= to - from,
            done == 0 || left + done <= cells@.len(),
            cells@ == Seq::new(
                before.len(),
                |c: int|
                    if left <= c < left + done {
                        blended(before[c], source@[from + (c - left)])
                    } else {
                        before[c]
                    },
            ),
        decreases to - from - done,
    {
        let cell: u8 = cells[left + done];
        cells[left + done] = blend(cell, source[from + done]);
        done = done + 1;
    }
    assert(cells@ =~= Seq::new(
        before.len(),
        |c: int|
            if left <= c < left + (to - from) {
                blended(before[c], source@[from + (c - left)])
            } else {
                before[c]
            },
    ));
}

impl View for FrameBuffer {
    type V = Seq<u8>;

    closed spec fn view(&self) -> Seq<u8> {
        self.data@
    }
}

impl FrameBuffer {
    /// Turns a regular buffer (back) into a FrameBuffer, all of it whatever its
    /// window. If the buffer is fresh, and the display is initialized, this
    /// *MUST* be initialized after the call to `new`.
    pub fn new(frame_buffer: SubSlice) -> (result: FrameBuffer)
        ensures
            result@ == frame_buffer@.bytes,
    {
        FrameBuffer { data: frame_buffer.take() }
    }

    /// Turns the frame buffer into a regular buffer, for sending.
    pub fn into_sub_slice(self) -> (data: SubSlice)
        ensures
            data@ == SubSliceView::whole(self@),
    {
        SubSlice::new(self.data)
    }

    /// Returns the number of bytes, of all lines together.
    pub fn len(&self) -> (len: usize)
        ensures
            len == self@.len(),
    {
        self.data.len()
    }

    /// Gets an entire raw line, ready to send.
    pub fn get_line_mut(&mut self, index: u16) -> (line: &mut [u8])
        requires
            has_line(old(self)@.len(), index as int),
        ensures
            line@ == old(self)@.subrange(line_start(index as int), line_start(index as int) + 92),
            final(self)@ == splice(
                old(self)@,
                line_start(index as int),
                line_start(index as int) + 92,
                final(line)@,
            ),
    {
        let line_bytes: usize = 2 + 176 / 2;
        let start: usize = line_bytes * (index as usize);
        let (_, rest) = self.data.as_mut_slice().split_at_mut(start);
        let (line, _) = rest.split_at_mut(line_bytes + 2);
        line
    }

    /// Gets pixel data.
    pub fn get_row_mut(&mut self, index: u16) -> (row: Option<&mut [u8]>)
        ensures
            row is Some <==> has_row(old(self)@.len(), index as int),
            row is None ==> final(self)@ == old(self)@,
            row is Some ==> {
                let start = row_start(index as int);
                &&& row->0@ == old(self)@.subrange(start, start + 88)
                &&& final(self)@ == splice(old(self)@, start, start + 88, final(row->0)@)
            },
    {
        let line_bytes: usize = 2 + 176 / 2;
        let start_line: usize = line_bytes * (index as usize) + 2;
        let end_line: usize = start_line + 176 / 2;
        if end_line < self.data.len() {
            let (_, rest) = self.data.as_mut_slice().split_at_mut(start_line);
            let (result, _) = rest.split_at_mut(176 / 2);
            Some(result)
        } else {
            None
        }
    }

    /// Replaces the header of a line.
    pub fn set_header(&mut self, line: u16, header: &CommandHeader)
        requires
            has_line(old(self)@.len(), line as int),
        ensures
            final(self)@ == with_header(
                old(self)@,
                line as int,
                header.mode,
                header.gate_line as int,
            ),
    {
        let bytes: [u8; 2] = header.encode();
        let cells = self.get_line_mut(line);
        cells[0] = bytes[0];
        cells[1] = bytes[1];
        assert(cells@ == old(self)@.subrange(
            line_start(line as int),
            line_start(line as int) + 92,
        ).update(0, bytes[0]).update(1, bytes[1]));
        assert(self@ =~= with_header(
            old(self)@,
            line as int,
            header.mode,
            header.gate_line as int,
        ));
    }

    /// Initialize header bytes for each line.
    pub fn initialize(&mut self)
        requires
            old(self)@.len() >= BUF_LEN,
        ensures
            final(self)@ == with_all_headers(old(self)@),
    {
        let ghost before = self@;
        let mut i: u16 = 0;
        while i < 176
            invariant
                i <= 176,
                before.len() >= BUF_LEN,
                self@ == Seq::new(
                    before.len(),
                    |pos: int|
                        if pos < line_start(i as int) {
                            with_all_headers(before)[pos]
                        } else {
                            before[pos]
                        },
                ),
            decreases 176 - i,
        {
            let header = CommandHeader { mode: Mode::Input4Bit, gate_line: i + 1 };
            self.set_header(i, &header);
            assert(self@ =~= Seq::new(
                before.len(),
                |pos: int|
                    if pos < line_start(i + 1) {
                        with_all_headers(before)[pos]
                    } else {
                        before[pos]
                    },
            ));
            i = i + 1;
        }
        assert(self@ =~= with_all_headers(before));
    }
    /// Copy pixels from the buffer. The buffer may be shorter than frame.
    ///
    /// Horizontal offsets are whole bytes only.
    pub fn blit(&mut self, buffer: &[u8], frame: &WriteFrame)
        requires
            frame.blittable(),
        ensures
            final(self)@ == blitted(old(self)@, buffer@, *frame),
    {
        let ghost before = self@;
        // There are 2 pixels in each row per byte.
        let stride: usize = frame.width as usize / 2;
        let left: usize = frame.column as usize / 2;
        let end_row: u16 = frame.row + frame.height;
        let mut row: u16 = frame.row;
        let mut from: usize = 0;
        while row < end_row && from < buffer.len()
            invariant
                frame.row <= row <= end_row,
                end_row == frame.row + frame.height,
                stride == frame.width as int / 2,
                stride >= 1,
                left == frame.column as int / 2,
                from <= buffer@.len(),
                from == (row - frame.row) * stride || (from == buffer@.len() && (row - frame.row)
                    * stride >= from),
                self@ == Seq::new(
                    before.len(),
                    |pos: int|
                        if pos / 90 < row {
                            blitted(before, buffer@, *frame)[pos]
                        } else {
                            before[pos]
                        },
                ),
            decreases end_row - row,
        {
            let to: usize = if buffer.len() - from < stride {
                buffer.len()
            } else {
                from + stride
            };
            match self.get_row_mut(row) {
                Some(cells) => {
                    blend_row(cells, left, buffer, from, to);
                },
                None => {},
            }
            assert((row + 1 - frame.row) * stride == (row - frame.row) * stride + stride)
                by (nonlinear_arith);
            from = to;
            row = row + 1;
        }
        assert forall|pos: int|
            0 <= pos < before.len() && pos / 90 >= row implies #[trigger] blitted(
            before,
            buffer@,
            *frame,
        )[pos] == before[pos] by {
            if pos / 90 < end_row {
                assert((pos / 90 - frame.row) * stride >= (row - frame.row) * stride)
                    by (nonlinear_arith)
                    requires
                        pos / 90 >= row,
                        stride >= 1,
                ;
            }
        }
        assert(self@ =~= blitted(before, buffer@, *frame));
    }
}

} // verus!
