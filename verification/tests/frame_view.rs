use qml_video_rs::frame::{Double, FrameDescriptor, FrameKind, FrameResources};

#[test]
fn double_keeps_its_pattern() {
    let d = Double::from_bits(1.5f64.to_bits());
    assert_eq!(d.to_bits(), 0x3FF8_0000_0000_0000);
    assert_eq!(f64::from_bits(d.to_bits()), 1.5);
    assert_eq!(Double::from_bits(7), Double { bits: 7 });
    assert_ne!(Double::from_bits(7), Double::from_bits(8));
}

#[test]
fn pixel_descriptor_holds_what_it_was_given() {
    let d = FrameDescriptor::pixels(12, Double::from_bits(99), 2, 2, 8, 16);
    assert_eq!(d.frame_index, 12);
    assert_eq!(d.timestamp, Double::from_bits(99));
    assert_eq!((d.width, d.height, d.stride), (2, 2, 8));
    assert!(matches!(d.resources, FrameResources::Pixels { byte_len: 16 }));
    assert!(!d.is_empty());
    assert!(!d.is_terminal());
    assert_eq!(d.min_len(), 16);
    assert_eq!(d.classify(), FrameKind::Presentable);
}

#[test]
fn largest_frame_index_is_not_terminal() {
    let d = FrameDescriptor::pixels(u32::MAX, Double::from_bits(0), 1, 1, 4, 4);
    assert_eq!(d.frame_index, 4_294_967_295);
    assert!(!d.is_terminal());
}

#[test]
fn negative_frame_index_is_terminal() {
    let d = FrameDescriptor {
        frame_index: -1,
        timestamp: Double::from_bits(0),
        width: 0,
        height: 0,
        stride: 0,
        resources: FrameResources::Pixels { byte_len: 0 },
    };
    assert!(d.is_terminal());
    assert!(d.is_empty());
    assert_eq!(d.classify(), FrameKind::Signal);
}

#[test]
fn zero_sized_frames_are_signals() {
    let ts = Double::from_bits(0);
    assert_eq!(FrameDescriptor::pixels(0, ts, 0, 2, 8, 16).classify(), FrameKind::Signal);
    assert_eq!(FrameDescriptor::pixels(0, ts, 2, 0, 8, 16).classify(), FrameKind::Signal);
    assert_eq!(FrameDescriptor::pixels(0, ts, 0, 0, 0, 0).classify(), FrameKind::Signal);
    assert!(FrameDescriptor::pixels(0, ts, 0, 2, 8, 16).is_empty());
    assert!(FrameDescriptor::pixels(0, ts, 2, 0, 8, 16).is_empty());
    assert_eq!(FrameDescriptor::texture(0, ts, 0, 5, 1, [1, 2, 3, 4, 5]).classify(), FrameKind::Signal);
}

#[test]
fn short_pixel_memory_is_malformed() {
    let ts = Double::from_bits(0);
    assert_eq!(FrameDescriptor::pixels(0, ts, 2, 2, 8, 15).classify(), FrameKind::Malformed);
    assert_eq!(FrameDescriptor::pixels(0, ts, 2, 2, 8, 16).classify(), FrameKind::Presentable);
    assert_eq!(FrameDescriptor::pixels(0, ts, 2, 2, 8, 17).classify(), FrameKind::Presentable);
    assert_eq!(FrameDescriptor::pixels(0, ts, 1, 1, 4, 0).classify(), FrameKind::Malformed);
}

#[test]
fn rows_of_the_largest_frame_do_not_overflow() {
    let d = FrameDescriptor::pixels(0, Double::from_bits(0), 1, u32::MAX, u32::MAX, 0);
    assert_eq!(d.min_len(), 18_446_744_065_119_617_025);
    assert_eq!(d.classify(), FrameKind::Malformed);
    let e = FrameDescriptor::pixels(0, Double::from_bits(0), 1920, 1080, 7680, 8_294_400);
    assert_eq!(e.min_len(), 8_294_400);
    assert_eq!(e.classify(), FrameKind::Presentable);
}

#[test]
fn texture_descriptor_holds_its_handles() {
    let d = FrameDescriptor::texture(3, Double::from_bits(5), 640, 480, 2, [10, 20, 30, 40, 50]);
    assert_eq!(d.frame_index, 3);
    assert_eq!(d.stride, 0);
    match d.resources {
        FrameResources::Texture { backend_id, handles } => {
            assert_eq!(backend_id, 2);
            assert_eq!(handles, [10, 20, 30, 40, 50]);
        }
        FrameResources::Pixels { .. } => panic!("texture expected"),
    }
    assert_eq!(d.classify(), FrameKind::Presentable);
    assert_eq!(d.min_len(), 0);
}

#[test]
fn processing_descriptor_is_terminal_for_a_negative_index() {
    let last = FrameDescriptor::processing(-1, Double::from_bits(0), 0, 0, 0);
    assert_eq!(last.frame_index, -1);
    assert!(last.is_terminal());
    assert!(last.is_empty());
    let lowest = FrameDescriptor::processing(i32::MIN, Double::from_bits(0), 4, 4, 64);
    assert_eq!(lowest.frame_index, -2_147_483_648);
    assert!(lowest.is_terminal());
    let first = FrameDescriptor::processing(0, Double::from_bits(3), 4, 2, 32);
    assert!(!first.is_terminal());
    assert_eq!(first.frame_index, 0);
    assert_eq!(first.timestamp, Double::from_bits(3));
    assert_eq!((first.width, first.height, first.stride), (4, 2, 0));
    assert!(matches!(first.resources, FrameResources::Pixels { byte_len: 32 }));
    assert_eq!(first.classify(), FrameKind::Presentable);
    assert!(!FrameDescriptor::processing(i32::MAX, Double::from_bits(0), 1, 1, 4).is_terminal());
}
