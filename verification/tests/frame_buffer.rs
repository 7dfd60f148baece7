use lpm013m126::frame_buffer::{FrameBuffer, WriteFrame, BUF_LEN};
use lpm013m126::header::{CommandHeader, Mode};
use lpm013m126::sub_slice::SubSlice;

fn filled(len: usize, value: u8) -> FrameBuffer {
    FrameBuffer::new(SubSlice::new(vec![value; len]))
}

fn bytes(frame_buffer: FrameBuffer) -> Vec<u8> {
    frame_buffer.into_sub_slice().take()
}

fn area(column: u16, row: u16, width: u16, height: u16) -> WriteFrame {
    WriteFrame { row, column, width, height }
}

fn blit(value: u8, source: &[u8], frame: WriteFrame) -> Vec<u8> {
    let mut frame_buffer = filled(BUF_LEN, value);
    frame_buffer.blit(source, &frame);
    bytes(frame_buffer)
}

#[test]
fn buffer_length() {
    assert_eq!(BUF_LEN, 15842);
}

#[test]
fn new_takes_the_whole_buffer() {
    let mut data = SubSlice::new(vec![1, 2, 3, 4]);
    data.slice(1, 2);
    let data = FrameBuffer::new(data).into_sub_slice();
    assert_eq!(data.as_slice(), &[1, 2, 3, 4]);
}

#[test]
fn lines_overlap_by_their_transfer_period() {
    let mut frame_buffer = filled(BUF_LEN, 0);
    frame_buffer.get_line_mut(175)[91] = 5;
    frame_buffer.get_line_mut(1)[0] = 6;
    assert_eq!(frame_buffer.get_line_mut(0).len(), 92);
    assert_eq!(frame_buffer.get_line_mut(0)[90], 6);
    assert_eq!(bytes(frame_buffer)[15841], 5);
}

#[test]
fn rows_follow_their_headers() {
    let mut frame_buffer = filled(BUF_LEN, 0);
    frame_buffer.get_row_mut(0).unwrap()[0] = 1;
    frame_buffer.get_row_mut(175).unwrap()[87] = 2;
    assert!(frame_buffer.get_row_mut(176).is_none());
    assert!(frame_buffer.get_row_mut(0xffff).is_none());
    let data = bytes(frame_buffer);
    assert_eq!(data[2], 1);
    assert_eq!(data[15839], 2);
}

#[test]
fn row_needs_a_byte_after_it() {
    assert!(filled(90, 0).get_row_mut(0).is_none());
    assert_eq!(filled(91, 0).get_row_mut(0).unwrap().len(), 88);
}

#[test]
fn larger_buffer_has_more_rows() {
    let mut frame_buffer = filled(BUF_LEN + 90, 0);
    assert!(frame_buffer.get_row_mut(176).is_some());
    assert!(frame_buffer.get_row_mut(177).is_none());
}

#[test]
fn set_header_writes_two_bytes() {
    let mut frame_buffer = filled(200, 0xee);
    frame_buffer.set_header(1, &CommandHeader { mode: Mode::Input4Bit, gate_line: 0x101 });
    let data = bytes(frame_buffer);
    assert_eq!(&data[89..93], &[0xee, 0x91, 0x01, 0xee]);
    assert_eq!(data.iter().filter(|b| **b == 0xee).count(), 198);
}

#[test]
fn initialize_heads_all_lines_and_keeps_pixels() {
    let mut frame_buffer = filled(BUF_LEN, 0xab);
    frame_buffer.initialize();
    let data = bytes(frame_buffer);
    assert_eq!(data.len(), BUF_LEN);
    for (pos, byte) in data.iter().enumerate() {
        let expected = match pos % 90 {
            0 if pos < 15840 => 0x90,
            1 if pos < 15840 => (pos / 90 + 1) as u8,
            _ => 0xab,
        };
        assert_eq!(*byte, expected);
    }
}

#[test]
fn initialize_twice_is_once() {
    let mut once = filled(BUF_LEN, 3);
    once.initialize();
    let mut twice = filled(BUF_LEN, 3);
    twice.initialize();
    twice.initialize();
    assert_eq!(bytes(once), bytes(twice));
}

#[test]
fn opaque_pixels_trade_red_and_blue() {
    // blue | green | red | s, for the upper and the lower pixel
    let cases: [(u8, u8); 6] = [
        (0b1001_0011, 0b0010_1000),
        (0b0011_1001, 0b1000_0010),
        (0b0101_0101, 0b0100_0100),
        (0b1111_1111, 0b1110_1110),
        (0b0001_0001, 0b0000_0000),
        (0b1011_0111, 0b1010_1100),
    ];
    for (source, shown) in cases {
        assert_eq!(blit(0xff, &[source], area(0, 0, 2, 1))[2], shown);
        assert_eq!(blit(0x00, &[source], area(0, 0, 2, 1))[2], shown);
    }
}

#[test]
fn transparent_pixels_keep_what_is_there() {
    assert_eq!(blit(0x5a, &[0b1110_1110], area(0, 0, 2, 1))[2], 0x5a);
    assert_eq!(blit(0x5a, &[0b1110_1001], area(0, 0, 2, 1))[2], 0x52);
    assert_eq!(blit(0x5a, &[0b1001_1110], area(0, 0, 2, 1))[2], 0x2a);
}

#[test]
fn blit_stays_inside_the_frame() {
    let data = blit(0x55, &[0xff; 6], area(4, 2, 4, 3));
    for (pos, byte) in data.iter().enumerate() {
        let row = pos / 90;
        let inside = (2..5).contains(&row) && (4..6).contains(&(pos % 90));
        assert_eq!(*byte, if inside { 0xee } else { 0x55 });
    }
}

#[test]
fn source_is_laid_out_row_by_row() {
    let data = blit(0, &[0x33, 0x55, 0x99, 0x77], area(0, 10, 4, 2));
    assert_eq!(&data[902..905], &[0x88, 0x44, 0x00]);
    assert_eq!(&data[992..995], &[0x22, 0xcc, 0x00]);
}

#[test]
fn short_source_leaves_the_rest() {
    let data = blit(0x44, &[0xff; 3], area(0, 0, 4, 4));
    assert_eq!(&data[2..5], &[0xee, 0xee, 0x44]);
    assert_eq!(&data[92..95], &[0xee, 0x44, 0x44]);
    assert_eq!(data.iter().filter(|b| **b != 0x44).count(), 3);
    assert_eq!(blit(0x44, &[], area(0, 0, 4, 4)), vec![0x44; BUF_LEN]);
}

#[test]
fn long_source_is_cut_to_the_frame() {
    let data = blit(0, &[0xff; 100], area(0, 0, 4, 2));
    assert_eq!(data.iter().filter(|b| **b != 0).count(), 4);
}

#[test]
fn pixels_off_the_screen_are_lost() {
    // Two bytes of each row fit; so does one row.
    let data = blit(0, &[0xff; 16], area(172, 175, 8, 4));
    assert_eq!(&data[15836..15842], &[0, 0, 0xee, 0xee, 0, 0]);
    assert_eq!(data.iter().filter(|b| **b != 0).count(), 2);
    assert_eq!(blit(7, &[0xff; 16], area(176, 0, 8, 2)), vec![7; BUF_LEN]);
    assert_eq!(blit(7, &[0xff; 16], area(0, 176, 8, 2)), vec![7; BUF_LEN]);
    assert_eq!(blit(7, &[0xff; 16], area(1000, 60000, 8, 2)), vec![7; BUF_LEN]);
}

#[test]
fn odd_width_rounds_down() {
    let data = blit(0, &[0xff, 0x33], area(0, 0, 3, 2));
    assert_eq!(&data[2..4], &[0xee, 0]);
    assert_eq!(&data[92..94], &[0x88, 0]);
}

#[test]
fn full_frame_reaches_every_pixel() {
    let source: Vec<u8> = (0..176 * 88).map(|i| (i % 7 * 34 + 17) as u8).collect();
    let data = blit(0, &source, area(0, 0, 176, 176));
    for row in 0..176 {
        for cell in 0..88 {
            let upper = source[row * 88 + cell] >> 4;
            let native = (upper & 2) << 2 | upper & 4 | (upper & 8) >> 2;
            assert_eq!(data[row * 90 + 2 + cell], native << 4 | native);
        }
    }
    assert_eq!(&data[15840..], &[0, 0]);
}

#[test]
fn blit_twice_is_once() {
    let source = [0x13, 0x20, 0xff, 0x8e];
    let frame = area(2, 1, 4, 2);
    let once = blit(0x6c, &source, frame);
    let mut frame_buffer = filled(BUF_LEN, 0x6c);
    frame_buffer.blit(&source, &frame);
    frame_buffer.blit(&source, &frame);
    assert_eq!(bytes(frame_buffer), once);
}

#[test]
fn headers_and_pixels_commute() {
    let source = [0x13, 0x20, 0xff, 0x8e];
    let frame = area(0, 1, 4, 2);
    let mut first = filled(BUF_LEN, 1);
    first.initialize();
    first.blit(&source, &frame);
    let mut last = filled(BUF_LEN, 1);
    last.blit(&source, &frame);
    last.initialize();
    assert_eq!(bytes(first), bytes(last));
}

#[test]
fn blittable_areas() {
    assert!(area(0, 0, 176, 176).is_blittable());
    assert!(area(174, 0xfffe, 2, 1).is_blittable());
    assert!(area(0, 0, 2, 0).is_blittable());
    assert!(!area(1, 0, 2, 1).is_blittable());
    assert!(!area(0, 0, 1, 1).is_blittable());
    assert!(!area(0, 0xffff, 2, 1).is_blittable());
}
