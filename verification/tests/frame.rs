use rustream::frame::{Frame, PyFrame};
use rustream::{create_synthetic_frame, device_info};

#[test]
fn synthetic_green_frame_720p() {
    let frame = create_synthetic_frame(1280, 720, 1, 0, 255, 0);
    assert_eq!(frame.width(), 1280);
    assert_eq!(frame.height(), 720);
    assert_eq!(frame.seq(), 1);
    assert_eq!(frame.shape(), (720, 1280, 3));
    assert_eq!(frame.size(), 1280 * 720 * 3);
    assert!(!frame.is_empty());
    let bytes = frame.as_bytes();
    assert_eq!(bytes[0], 0);
    assert_eq!(bytes[1], 255);
    assert_eq!(bytes[2], 0);
    assert!(bytes.chunks(3).all(|px| px == [0, 255, 0]));
}

#[test]
fn synthetic_frame_every_pixel_has_the_colour() {
    let frame = create_synthetic_frame(4, 3, 9, 10, 20, 30);
    let bytes = frame.as_bytes();
    assert_eq!(bytes.len(), 36);
    for p in 0..12 {
        assert_eq!(&bytes[3 * p..3 * p + 3], &[10, 20, 30]);
    }
}

#[test]
fn synthetic_frame_of_no_pixels_is_empty() {
    let frame = create_synthetic_frame(0, 720, 5, 1, 2, 3);
    assert!(frame.is_empty());
    assert_eq!(frame.size(), 0);
    assert_eq!(frame.shape(), (720, 0, 3));
}

#[test]
fn frame_repr_names_its_numbers() {
    let frame = create_synthetic_frame(1280, 720, 1, 255, 0, 0);
    assert_eq!(frame.repr(), "Frame(seq=1, 1280x720 RGB8, 2764800 bytes)");
    let frame = create_synthetic_frame(2, 2, 0, 0, 0, 0);
    assert_eq!(frame.repr(), "Frame(seq=0, 2x2 RGB8, 12 bytes)");
}

#[test]
fn array_interface_describes_the_buffer() {
    let frame = create_synthetic_frame(640, 480, 7, 1, 1, 1);
    let a = frame.array_interface();
    assert_eq!(a.shape, (480, 640, 3));
    assert_eq!(a.typestr, "|u1");
    assert!(a.read_only);
    assert_eq!(a.version, 3);
    assert_eq!(a.strides, (1920, 3, 1));
    assert_eq!(a.shape.0 as usize * a.strides.0 as usize, frame.size());
}

#[test]
fn frame_wraps_given_bytes() {
    let frame = PyFrame::new(Frame { data: vec![1, 2, 3, 4, 5, 6], width: 2, height: 1, seq: 42 });
    assert_eq!(frame.as_bytes(), vec![1, 2, 3, 4, 5, 6]);
    assert_eq!(frame.size(), 6);
    assert_eq!(frame.seq(), 42);
    assert_eq!(frame.repr(), "Frame(seq=42, 2x1 RGB8, 6 bytes)");
}

#[test]
fn device_info_reports_cpu() {
    assert_eq!(device_info(), ("CPU".to_string(), false));
}
