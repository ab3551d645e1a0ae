use webrtc_receiver::frame::{FrameCell, VideoFrame, BYTES_PER_PIXEL};

fn solid(width: usize, height: usize, value: u8) -> VideoFrame {
    VideoFrame::new(width, height, vec![value; width * height * 4]).unwrap()
}

#[test]
fn pixel_takes_four_bytes() {
    assert_eq!(BYTES_PER_PIXEL, 4);
}

#[test]
fn frame_of_matching_buffer_is_made() {
    let pixels: Vec<u8> = (0..24).collect();
    let frame = VideoFrame::new(2, 3, pixels.clone()).unwrap();
    assert_eq!(frame.width(), 2);
    assert_eq!(frame.height(), 3);
    assert_eq!(frame.pixels(), &pixels);
    assert_eq!(frame.pixels().len(), 24);
}

#[test]
fn frame_of_short_buffer_is_refused() {
    assert!(VideoFrame::new(2, 3, vec![0; 23]).is_none());
}

#[test]
fn frame_of_long_buffer_is_refused() {
    assert!(VideoFrame::new(2, 3, vec![0; 25]).is_none());
}

#[test]
fn frame_of_swapped_sides_has_the_same_length() {
    assert!(VideoFrame::new(3, 2, vec![0; 24]).is_some());
}

#[test]
fn empty_frame_has_empty_buffer() {
    let frame = VideoFrame::new(0, 7, Vec::new()).unwrap();
    assert_eq!(frame.width(), 0);
    assert_eq!(frame.height(), 7);
    assert!(frame.pixels().is_empty());
    assert!(VideoFrame::new(7, 0, Vec::new()).is_some());
    assert!(VideoFrame::new(0, 0, vec![0; 4]).is_none());
}

#[test]
fn frame_too_large_to_count_is_refused() {
    assert!(VideoFrame::new(usize::MAX, 2, Vec::new()).is_none());
    assert!(VideoFrame::new(usize::MAX, usize::MAX, vec![0; 4]).is_none());
    assert!(VideoFrame::new(usize::MAX / 2, 1, vec![0; 8]).is_none());
    assert!(VideoFrame::new(usize::MAX / 4 + 1, 1, Vec::new()).is_none());
}

#[test]
fn new_cell_is_empty() {
    let cell = FrameCell::new();
    assert!(cell.poll_frame().is_none());
}

#[test]
fn write_then_read_gives_the_frame() {
    let mut cell = FrameCell::new();
    cell.write(solid(2, 1, 9));
    let frame = cell.poll_frame().unwrap();
    assert_eq!(frame.width(), 2);
    assert_eq!(frame.height(), 1);
    assert_eq!(frame.pixels(), &vec![9u8; 8]);
}

#[test]
fn reading_keeps_the_frame() {
    let mut cell = FrameCell::new();
    cell.write(solid(1, 1, 5));
    assert!(cell.poll_frame().is_some());
    assert_eq!(cell.poll_frame().unwrap().pixels(), &vec![5u8; 4]);
}

#[test]
fn last_of_many_writes_wins() {
    let mut cell = FrameCell::new();
    for n in 1..=20usize {
        cell.write(solid(n, n + 1, n as u8));
    }
    let frame = cell.poll_frame().unwrap();
    assert_eq!(frame.width(), 20);
    assert_eq!(frame.height(), 21);
    assert_eq!(frame.pixels(), &vec![20u8; 20 * 21 * 4]);
}

#[test]
fn smaller_frame_replaces_a_larger_one_whole() {
    let mut cell = FrameCell::new();
    cell.write(solid(4, 4, 1));
    cell.write(solid(1, 1, 2));
    let frame = cell.poll_frame().unwrap();
    assert_eq!((frame.width(), frame.height()), (1, 1));
    assert_eq!(frame.pixels(), &vec![2u8; 4]);
}

#[test]
fn capture_of_whole_sample_is_stored() {
    let mut cell = FrameCell::new();
    assert!(cell.capture(2, 2, vec![7; 16], true));
    let frame = cell.poll_frame().unwrap();
    assert_eq!((frame.width(), frame.height()), (2, 2));
    assert_eq!(frame.pixels(), &vec![7u8; 16]);
}

#[test]
fn capture_of_torn_sample_leaves_the_cell() {
    let mut cell = FrameCell::new();
    assert!(!cell.capture(2, 2, vec![7; 15], true));
    assert!(cell.poll_frame().is_none());
    assert!(cell.capture(1, 1, vec![3; 4], true));
    assert!(!cell.capture(2, 2, vec![7; 17], true));
    let frame = cell.poll_frame().unwrap();
    assert_eq!((frame.width(), frame.height()), (1, 1));
    assert_eq!(frame.pixels(), &vec![3u8; 4]);
}

#[test]
fn capture_after_a_stop_leaves_the_cell() {
    let mut cell = FrameCell::new();
    assert!(!cell.capture(1, 1, vec![9; 4], false));
    assert!(cell.poll_frame().is_none());
    assert!(cell.capture(1, 1, vec![3; 4], true));
    assert!(!cell.capture(2, 1, vec![9; 8], false));
    assert!(!cell.capture(2, 1, vec![9; 7], false));
    let frame = cell.poll_frame().unwrap();
    assert_eq!((frame.width(), frame.height()), (1, 1));
    assert_eq!(frame.pixels(), &vec![3u8; 4]);
}
