use screencast::descriptor::{
    build_image_attributes, iter_to_array, BufferDescriptor, PlaneDescriptor, StorageKind,
};
use screencast::format::{parse_format_selection, Fraction, PixelLayout, MODIFIER_NONE};
use screencast::frame::FrameError;

fn bgra_320_240(raw_modifier: u64) -> screencast::format::NegotiatedFormat {
    parse_format_selection(
        PixelLayout::Bgra,
        320,
        240,
        Fraction { num: 25, denom: 1 },
        raw_modifier,
    )
    .unwrap()
}

#[test]
fn attributes_single_plane_no_modifier() {
    let fmt = bgra_320_240(MODIFIER_NONE);
    let desc = BufferDescriptor {
        planes: vec![PlaneDescriptor {
            fd: 5,
            offset: 0,
            stride: 1280,
        }],
        kind: StorageKind::GpuBuffer,
    };
    let attrs = build_image_attributes(&fmt, &desc).unwrap();
    assert_eq!(
        attrs,
        vec![
            0x3057, 320, // width
            0x3056, 240, // height
            0x3271, 0x3432_5241, // fourcc for BGRA
            0x3272, 5, // plane 0 fd
            0x3273, 0, // plane 0 offset
            0x3274, 1280, // plane 0 pitch
            0x3038, // terminator
        ]
    );
}

#[test]
fn attributes_with_specific_modifier() {
    let fmt = bgra_320_240(0x0100_0000_0000_0002);
    let desc = BufferDescriptor {
        planes: vec![PlaneDescriptor {
            fd: 7,
            offset: 64,
            stride: 2048,
        }],
        kind: StorageKind::GpuBuffer,
    };
    let attrs = build_image_attributes(&fmt, &desc).unwrap();
    assert_eq!(
        attrs,
        vec![
            0x3057, 320, 0x3056, 240, 0x3271, 0x3432_5241, // header
            0x3272, 7, 0x3273, 64, 0x3274, 2048, // plane 0 triple
            0x3443, 2, // modifier low half
            0x3444, 0x0100_0000, // modifier high half
            0x3038,
        ]
    );
}

#[test]
fn attributes_modifier_halves_are_bit_patterns() {
    // The modifier is opaque: both halves enter the 32-bit attribute
    // slots as bit patterns, even when their top bit is set.
    let fmt = bgra_320_240(0xFFEE_DDCC_8000_0001);
    let desc = BufferDescriptor {
        planes: vec![PlaneDescriptor {
            fd: 9,
            offset: 0,
            stride: 1280,
        }],
        kind: StorageKind::GpuBuffer,
    };
    let attrs = build_image_attributes(&fmt, &desc).unwrap();
    assert_eq!(
        attrs,
        vec![
            0x3057, 320, 0x3056, 240, 0x3271, 0x3432_5241, // header
            0x3272, 9, 0x3273, 0, 0x3274, 1280, // plane 0 triple
            0x3443, 0x8000_0001u32 as i32, // modifier low half
            0x3444, 0xFFEE_DDCCu32 as i32, // modifier high half
            0x3038,
        ]
    );
    assert_eq!(attrs[13], -2147483647);
    assert_eq!(attrs[15], -1122868);
}

#[test]
fn attributes_two_planes_use_per_plane_keys() {
    let fmt = bgra_320_240(MODIFIER_NONE);
    let desc = BufferDescriptor {
        planes: vec![
            PlaneDescriptor {
                fd: 3,
                offset: 0,
                stride: 1280,
            },
            PlaneDescriptor {
                fd: 4,
                offset: 128,
                stride: 640,
            },
        ],
        kind: StorageKind::GpuBuffer,
    };
    let attrs = build_image_attributes(&fmt, &desc).unwrap();
    assert_eq!(
        attrs,
        vec![
            0x3057, 320, 0x3056, 240, 0x3271, 0x3432_5241, // header
            0x3272, 3, 0x3273, 0, 0x3274, 1280, // plane 0
            0x3275, 4, 0x3276, 128, 0x3277, 640, // plane 1
            0x3038,
        ]
    );
}

#[test]
fn attributes_reject_zero_planes() {
    let fmt = bgra_320_240(MODIFIER_NONE);
    let desc = BufferDescriptor {
        planes: Vec::new(),
        kind: StorageKind::GpuBuffer,
    };
    assert_eq!(
        build_image_attributes(&fmt, &desc),
        Err(FrameError::InvalidPlaneCount)
    );
}

#[test]
fn attributes_reject_five_planes() {
    let fmt = bgra_320_240(MODIFIER_NONE);
    let plane = PlaneDescriptor {
        fd: 1,
        offset: 0,
        stride: 1280,
    };
    let desc = BufferDescriptor {
        planes: vec![plane; 5],
        kind: StorageKind::GpuBuffer,
    };
    assert_eq!(
        build_image_attributes(&fmt, &desc),
        Err(FrameError::InvalidPlaneCount)
    );
}

#[test]
fn iter_to_array_pads_with_fill() {
    assert_eq!(iter_to_array(&vec![1, 2], 0), [1, 2, 0, 0]);
    assert_eq!(iter_to_array(&Vec::<i32>::new(), 9), [9, 9, 9, 9]);
    assert_eq!(iter_to_array(&vec![1, 2, 3, 4, 5], 0), [1, 2, 3, 4]);
}
