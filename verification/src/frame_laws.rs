//! What holds of the frame buffer's operations together.

use crate::frame_buffer::blended;
use crate::frame_buffer::blitted;
use crate::frame_buffer::covered;
use crate::frame_buffer::has_line;
use crate::frame_buffer::has_row;
use crate::frame_buffer::in_header;
use crate::frame_buffer::line_headed;
use crate::frame_buffer::line_start;
use crate::frame_buffer::lower_pixel;
use crate::frame_buffer::native_color;
use crate::frame_buffer::overlay;
use crate::frame_buffer::row_start;
use crate::frame_buffer::source_index;
use crate::frame_buffer::splice;
use crate::frame_buffer::upper_pixel;
use crate::frame_buffer::with_all_headers;
use crate::frame_buffer::with_header;
use crate::frame_buffer::WriteFrame;
use crate::frame_buffer::BUF_LEN;
use crate::header::Mode;
use vstd::prelude::*;

verus! {

/// Initializing heads each of the 176 lines with the command that stores it in
/// its own row of the panel.
pub proof fn initialize_heads_every_line(data: Seq<u8>)
    requires
        data.len() >= BUF_LEN,
    ensures
        forall|line: int| 0 <= line < 176 ==> #[trigger] line_headed(with_all_headers(data), line),
{
}

/// Initializing changes nothing but the headers: the pixels of every row stay.
pub proof fn initialize_keeps_pixels(data: Seq<u8>, row: int)
    requires
        data.len() >= BUF_LEN,
        0 <= row < 176,
    ensures
        with_all_headers(data).len() == data.len(),
        with_all_headers(data).subrange(row_start(row), row_start(row) + 88) == data.subrange(
            row_start(row),
            row_start(row) + 88,
        ),
        forall|pos: int|
            0 <= pos < data.len() && !in_header(pos) ==> #[trigger] with_all_headers(data)[pos]
                == data[pos],
{
}

/// Initializing twice is initializing once.
pub proof fn initialize_idempotent(data: Seq<u8>)
    ensures
        with_all_headers(with_all_headers(data)) == with_all_headers(data),
{
}

/// A source pixel whose intensity is 1 shows in the panel's own format, whatever
/// was there; one whose intensity is 0 leaves what was there. The two pixels of a
/// byte do not affect each other.
pub proof fn blit_applies_opaque_pixels(
    data: Seq<u8>,
    source: Seq<u8>,
    frame: WriteFrame,
    pos: int,
)
    requires
        0 <= pos < data.len(),
        frame.blittable(),
        covered(data.len(), frame, source.len(), pos),
    ensures
        0 <= source_index(frame, pos) < source.len(),
        ({
            let below = data[pos];
            let pixels = source[source_index(frame, pos)];
            let shown = blitted(data, source, frame)[pos];
            &&& upper_pixel(shown) == if upper_pixel(pixels) % 2 == 1 {
                native_color(upper_pixel(pixels))
            } else {
                upper_pixel(below)
            }
            &&& lower_pixel(shown) == if lower_pixel(pixels) % 2 == 1 {
                native_color(lower_pixel(pixels))
            } else {
                lower_pixel(below)
            }
        }),
{
    assert((pos / 90 - frame.row) * (frame.width as int / 2) >= 0) by (nonlinear_arith)
        requires
            pos / 90 >= frame.row,
    ;
}

/// Red and blue trade places on the way to the panel, green keeps its place, and
/// the bit that the panel ignores is clear.
pub proof fn native_color_swaps_red_and_blue(blue: int, green: int, red: int, s: int)
    requires
        0 <= blue <= 1,
        0 <= green <= 1,
        0 <= red <= 1,
        0 <= s <= 1,
    ensures
        native_color(blue * 8 + green * 4 + red * 2 + s) == red * 8 + green * 4 + blue * 2,
{
}

/// Copying pixels leaves every command header as it was.
pub proof fn blit_keeps_headers(data: Seq<u8>, source: Seq<u8>, frame: WriteFrame)
    ensures
        blitted(data, source, frame).len() == data.len(),
        forall|pos: int|
            0 <= pos < data.len() && pos % 90 < 2 ==> #[trigger] blitted(data, source, frame)[pos]
                == data[pos],
        forall|line: int|
            0 <= line && line_start(line) + 2 <= data.len() ==> #[trigger] line_headed(
                blitted(data, source, frame),
                line,
            ) == line_headed(data, line),
{
}

/// Copying pixels changes nothing outside the frame.
pub proof fn blit_stays_in_frame(
    data: Seq<u8>,
    source: Seq<u8>,
    frame: WriteFrame,
    row: int,
    column: int,
)
    requires
        0 <= row,
        0 <= column < 176,
        row_start(row) + 88 <= data.len(),
        frame.blittable(),
        row < frame.row || frame.row + frame.height <= row || column < frame.column || frame.column
            + frame.width <= column,
    ensures
        blitted(data, source, frame)[row_start(row) + column / 2] == data[row_start(row) + column
            / 2],
{
    let pos = row_start(row) + column / 2;
    assert(pos / 90 == row);
    assert(pos % 90 == 2 + column / 2);
}

/// In a buffer of the exact size, copying pixels leaves the data transfer period
/// that follows the last line.
pub proof fn blit_keeps_transfer_period(data: Seq<u8>, source: Seq<u8>, frame: WriteFrame)
    requires
        data.len() == BUF_LEN,
    ensures
        blitted(data, source, frame).subrange(line_start(176), BUF_LEN as int) == data.subrange(
            line_start(176),
            BUF_LEN as int,
        ),
{
}

/// A source for the full screen lands row by row, 88 bytes to a row, and reaches
/// every pixel.
pub proof fn full_frame_covers_screen(data: Seq<u8>, source: Seq<u8>, row: int, cell: int)
    requires
        data.len() >= BUF_LEN,
        source.len() == 176 * 88,
        0 <= row < 176,
        0 <= cell < 88,
    ensures
        blitted(data, source, WriteFrame { row: 0, column: 0, width: 176, height: 176 })[row_start(
            row,
        ) + cell] == blended(data[row_start(row) + cell], source[row * 88 + cell]),
{
    let frame = WriteFrame { row: 0, column: 0, width: 176, height: 176 };
    assert(source_index(frame, row_start(row) + cell) == row * 88 + cell);
}

/// Copying the same pixels twice is copying them once.
pub proof fn blit_idempotent(data: Seq<u8>, source: Seq<u8>, frame: WriteFrame)
    ensures
        blitted(blitted(data, source, frame), source, frame) == blitted(data, source, frame),
{
    assert forall|cell: u8, pixels: u8|
        blended(#[trigger] blended(cell, pixels), pixels) == blended(cell, pixels) by {
        assert(0 <= overlay(upper_pixel(cell), upper_pixel(pixels)) < 16);
        assert(0 <= overlay(lower_pixel(cell), lower_pixel(pixels)) < 16);
    }
}

/// Headers and pixels do not get in each other's way: it makes no difference
/// which are written first.
pub proof fn initialize_and_blit_commute(data: Seq<u8>, source: Seq<u8>, frame: WriteFrame)
    ensures
        with_all_headers(blitted(data, source, frame)) == blitted(
            with_all_headers(data),
            source,
            frame,
        ),
{
}

/// Where lines and rows lie: each line takes 90 bytes, two of header and 88 of pixels; a
/// line is sent with the two bytes after it; and a row counts if a byte follows it. A
/// buffer of the exact size has 176 of each.
pub proof fn geometry(len: nat, index: int)
    ensures
        BUF_LEN == 15842,
        line_start(index) == index * 90,
        row_start(index) == index * 90 + 2,
        has_line(len, index) <==> index >= 0 && index * 90 + 92 <= len,
        has_row(len, index) <==> index >= 0 && index * 90 + 90 < len,
        has_line(15842, index) <==> 0 <= index < 176,
        has_row(15842, index) <==> 0 <= index < 176,
        in_header(index) <==> 0 <= index < 15840 && (index % 90 == 0 || index % 90 == 1),
{
}

/// What is written through a part of the buffer lands in that part and nowhere else.
pub proof fn splice_replaces_one_part(
    data: Seq<u8>,
    start: int,
    end: int,
    part: Seq<u8>,
    pos: int,
)
    requires
        0 <= start <= end <= data.len(),
        part.len() == end - start,
    ensures
        splice(data, start, end, part).len() == data.len(),
        0 <= pos < start || end <= pos < data.len() ==> splice(data, start, end, part)[pos]
            == data[pos],
        start <= pos < end ==> splice(data, start, end, part)[pos] == part[pos - start],
{
}

/// Replacing the header of a line changes its first two bytes, into the mode's code and
/// ten address bits, and no other byte of the buffer.
pub proof fn header_replaced_in_place(
    data: Seq<u8>,
    line: int,
    mode: Mode,
    gate_line: int,
    pos: int,
)
    requires
        0 <= line,
        90 * line + 2 <= data.len(),
    ensures
        ({
            let after = with_header(data, line, mode, gate_line);
            &&& after.len() == data.len()
            &&& after[90 * line] / 4 == mode.code()
            &&& after[90 * line] % 4 * 256 + after[90 * line + 1] == gate_line % 1024
            &&& 0 <= pos < data.len() && pos != 90 * line && pos != 90 * line + 1 ==> after[pos]
                == data[pos]
        }),
{
}

/// Initializing gives line after line the two bytes `0x90` and its number, counted from
/// one, and leaves every byte that is not in one of these 176 headers.
pub proof fn initialize_byte_by_byte(data: Seq<u8>, line: int, pos: int)
    requires
        data.len() >= 15842,
        0 <= line < 176,
        0 <= pos < data.len(),
        pos % 90 >= 2 || pos >= 15840,
    ensures
        with_all_headers(data).len() == data.len(),
        with_all_headers(data)[90 * line] == 0x90,
        with_all_headers(data)[90 * line + 1] == line + 1,
        with_all_headers(data)[pos] == data[pos],
        line_headed(data, line) <==> data[90 * line] == 0x90 && data[90 * line + 1] == line + 1,
{
}

/// Each half of a byte holds one pixel, and each is put over the screen by itself: where
/// the lowest of the source's four bits is set, the three others are shown in reverse
/// order above a clear bit; where it is not, the screen stays.
pub proof fn pixels_put_over_the_screen(cell: u8, source: u8)
    ensures
        blended(cell, source) / 16 == if source / 16 % 2 == 1 {
            (source / 32 % 2) * 8 + (source / 64 % 2) * 4 + (source / 128 % 2) * 2
        } else {
            cell as int / 16
        },
        blended(cell, source) % 16 == if source % 2 == 1 {
            (source / 2 % 2) * 8 + (source / 4 % 2) * 4 + (source / 8 % 2) * 2
        } else {
            cell as int % 16
        },
{
    assert(source / 16 / 2 % 2 == source / 32 % 2 && source / 16 / 4 % 2 == source / 64 % 2
        && source / 16 / 8 % 2 == source / 128 % 2) by (bit_vector);
    assert(source % 16 % 2 == source % 2 && source % 16 / 2 % 2 == source / 2 % 2 && source % 16 / 4
        % 2 == source / 4 % 2 && source % 16 / 8 % 2 == source / 8 % 2) by (bit_vector);
    let upper = overlay(upper_pixel(cell), upper_pixel(source));
    let lower = overlay(lower_pixel(cell), lower_pixel(source));
    assert(0 <= upper < 16 && 0 <= lower < 16);
    assert(blended(cell, source) == upper * 16 + lower);
}

/// Pixels can be copied into exactly those areas whose first column is even, which are at
/// least two pixels wide, and whose rows can all be numbered.
pub proof fn blittable_areas(frame: WriteFrame)
    ensures
        frame.blittable() <==> frame.column % 2 == 0 && frame.width >= 2 && frame.row
            + frame.height < 65536,
{
}

/// Every row and every byte of the frame that is on the screen, and for which the source
/// has pixels, is painted: byte `c` of row `r` of the frame shows byte
/// `r * (width / 2) + c` of the source.
pub proof fn blit_paints_whole_frame(
    data: Seq<u8>,
    source: Seq<u8>,
    frame: WriteFrame,
    r: int,
    c: int,
)
    requires
        frame.column % 2 == 0,
        0 <= r < frame.height,
        0 <= c < frame.width as int / 2,
        frame.column as int / 2 + c < 88,
        90 * (frame.row + r) + 90 < data.len(),
        r * (frame.width as int / 2) + c < source.len(),
    ensures
        ({
            let place = 90 * (frame.row + r) + 2 + frame.column as int / 2 + c;
            blitted(data, source, frame)[place] == blended(
                data[place],
                source[r * (frame.width as int / 2) + c],
            )
        }),
{
    let place = 90 * (frame.row + r) + 2 + frame.column as int / 2 + c;
    assert(place / 90 == frame.row + r);
    assert(place % 90 == 2 + frame.column as int / 2 + c);
}

/// In particular, on a screen of the exact size every row of the frame above the bottom
/// edge is painted.
pub proof fn blit_paints_screen(
    data: Seq<u8>,
    source: Seq<u8>,
    frame: WriteFrame,
    r: int,
    c: int,
)
    requires
        data.len() >= 15842,
        frame.column % 2 == 0,
        0 <= r < frame.height,
        0 <= c < frame.width as int / 2,
        frame.column as int / 2 + c < 88,
        frame.row + r < 176,
        r * (frame.width as int / 2) + c < source.len(),
    ensures
        ({
            let place = 90 * (frame.row + r) + 2 + frame.column as int / 2 + c;
            blitted(data, source, frame)[place] == blended(
                data[place],
                source[r * (frame.width as int / 2) + c],
            )
        }),
{
    blit_paints_whole_frame(data, source, frame, r, c);
}

/// A byte changes only if it is a pixel byte of a row and column of the frame, that row is
/// in the buffer, and the source reaches it. All others stay, and the buffer keeps its
/// size.
pub proof fn blit_changes_nothing_else(
    data: Seq<u8>,
    source: Seq<u8>,
    frame: WriteFrame,
    pos: int,
)
    requires
        0 <= pos < data.len(),
        ({
            let r = pos / 90 - frame.row;
            let c = pos % 90 - 2 - frame.column as int / 2;
            ||| pos % 90 < 2
            ||| r < 0
            ||| r >= frame.height
            ||| c < 0
            ||| c >= frame.width as int / 2
            ||| r * (frame.width as int / 2) + c >= source.len()
            ||| 90 * (pos / 90) + 90 >= data.len()
        }),
    ensures
        blitted(data, source, frame).len() == data.len(),
        blitted(data, source, frame)[pos] == data[pos],
{
}

/// Painting a frame is painting its upper rows and then its lower rows, each with its own
/// part of the source.
pub proof fn blit_by_parts(data: Seq<u8>, source: Seq<u8>, frame: WriteFrame, rows: int)
    requires
        frame.blittable(),
        0 <= rows <= frame.height,
        rows * (frame.width as int / 2) <= source.len(),
    ensures
        ({
            let cut = rows * (frame.width as int / 2);
            let upper = WriteFrame { height: rows as u16, ..frame };
            let lower = WriteFrame {
                row: (frame.row + rows) as u16,
                height: (frame.height - rows) as u16,
                ..frame
            };
            blitted(
                blitted(data, source.take(cut), upper),
                source.skip(cut),
                lower,
            ) == blitted(data, source, frame)
        }),
{
    let stride = frame.width as int / 2;
    let cut = rows * stride;
    let upper = WriteFrame { height: rows as u16, ..frame };
    let lower = WriteFrame {
        row: (frame.row + rows) as u16,
        height: (frame.height - rows) as u16,
        ..frame
    };
    assert(cut >= 0) by (nonlinear_arith)
        requires
            cut == rows * stride,
            rows >= 0,
            stride >= 1,
    ;
    let once = blitted(data, source, frame);
    let first = blitted(data, source.take(cut), upper);
    let twice = blitted(first, source.skip(cut), lower);
    assert forall|pos: int| 0 <= pos < data.len() implies #[trigger] twice[pos] == once[pos] by {
        let r = pos / 90 - frame.row;
        let c = pos % 90 - 2 - frame.column as int / 2;
        assert((r - rows) * stride == r * stride - cut) by (nonlinear_arith)
            requires
                cut == rows * stride,
        ;
        if 0 <= c < stride {
            if 0 <= r < rows {
                assert(0 <= r * stride && r * stride + c < cut) by (nonlinear_arith)
                    requires
                        cut == rows * stride,
                        0 <= r,
                        r + 1 <= rows,
                        0 <= c < stride,
                ;
            } else if r >= rows {
                assert(r * stride >= cut) by (nonlinear_arith)
                    requires
                        cut == rows * stride,
                        r >= rows,
                        stride >= 1,
                ;
            }
        }
    }
    assert(twice =~= once);
}

} // verus!
