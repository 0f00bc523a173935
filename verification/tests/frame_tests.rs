use screencast::format::{parse_format_selection, Fraction, PixelLayout, MODIFIER_NONE};
use screencast::frame::{
    classify_import_outcome, convert_bgr_to_rgb, pack_tight, process_frame, FrameError,
};

#[test]
fn fixup_swaps_bytes_zero_and_two_of_every_pixel() {
    // Pattern [B, G, R, A, B, G, R, A, ...]
    let mut frame = vec![1u8, 2, 3, 4, 5, 6, 7, 8];
    convert_bgr_to_rgb(&mut frame);
    // Expect [R, G, B, A, ...]: bytes 0 and 2 swapped, 1 and 3 unchanged.
    assert_eq!(frame, vec![3, 2, 1, 4, 7, 6, 5, 8]);
}

#[test]
fn fixup_twice_is_identity() {
    let original = vec![9u8, 30, 77, 255, 0, 1, 2, 3, 10, 20, 30, 40];
    let mut frame = original.clone();
    convert_bgr_to_rgb(&mut frame);
    assert_ne!(frame, original);
    convert_bgr_to_rgb(&mut frame);
    assert_eq!(frame, original);
}

#[test]
fn fixup_empty_frame() {
    let mut frame: Vec<u8> = Vec::new();
    convert_bgr_to_rgb(&mut frame);
    assert!(frame.is_empty());
}

#[test]
fn pack_drops_row_padding() {
    // 2 rows of 16 bytes each; only the first 8 bytes of each row are
    // pixels (width 2).
    let src: Vec<u8> = (0u8..32).collect();
    let out = pack_tight(&src, 2, 2, 16).unwrap();
    assert_eq!(out, vec![0, 1, 2, 3, 4, 5, 6, 7, 16, 17, 18, 19, 20, 21, 22, 23]);
}

#[test]
fn pack_rejects_narrow_stride() {
    let src = vec![0u8; 64];
    assert_eq!(pack_tight(&src, 4, 4, 15), Err(FrameError::ShortPayload));
}

#[test]
fn pack_rejects_short_payload() {
    let src = vec![0u8; 63];
    assert_eq!(pack_tight(&src, 4, 4, 16), Err(FrameError::ShortPayload));
}

#[test]
fn process_frame_packs_and_fixes_up() {
    let fmt = parse_format_selection(
        PixelLayout::Bgra,
        2,
        1,
        Fraction { num: 25, denom: 1 },
        MODIFIER_NONE,
    )
    .unwrap();
    // One row of 12 bytes, 4 of padding.
    let src = vec![1u8, 2, 3, 4, 5, 6, 7, 8, 99, 99, 99, 99];
    let out = process_frame(&fmt, &src, 12).unwrap();
    assert_eq!(out.len(), 2 * 1 * 4);
    assert_eq!(out, vec![3, 2, 1, 4, 7, 6, 5, 8]);
}

#[test]
fn earliest_failing_import_step_decides() {
    // 0x300C is the platform's bad-parameter error; 0x0502 and 0x0505 are
    // readback-layer error codes.
    assert_eq!(
        classify_import_outcome(Err(0x300C), 0, 0),
        Err(FrameError::ImageCreationFailed(0x300C))
    );
    assert_eq!(
        classify_import_outcome(Err(0x300C), 0x0502, 0x0505),
        Err(FrameError::ImageCreationFailed(0x300C))
    );
    assert_eq!(
        classify_import_outcome(Ok(()), 0x0502, 0x0505),
        Err(FrameError::TextureBindFailed(0x0502))
    );
    assert_eq!(
        classify_import_outcome(Ok(()), 0, 0x0505),
        Err(FrameError::ReadbackFailed(0x0505))
    );
    assert_eq!(classify_import_outcome(Ok(()), 0, 0), Ok(()));
}

#[test]
fn process_frame_rejects_short_payload() {
    let fmt = parse_format_selection(
        PixelLayout::Bgra,
        320,
        240,
        Fraction { num: 25, denom: 1 },
        MODIFIER_NONE,
    )
    .unwrap();
    let src = vec![0u8; 16];
    assert_eq!(
        process_frame(&fmt, &src, 1280),
        Err(FrameError::ShortPayload)
    );
}
