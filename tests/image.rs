use gpu_image::{
    check_raw, decode_image, encode_rgba8, finish_draw, rows_top_down, solid_rgba8, BlendMode,
    BlendPlan, FilterMode, ImageFormat, ImageGeneric, SamplerInfo, TextureError, WrapMode,
};

fn default_sampler() -> SamplerInfo {
    SamplerInfo { filter: FilterMode::Linear, wrap_x: WrapMode::Tile, wrap_y: WrapMode::Tile }
}

fn bytes(n: u8) -> Vec<u8> {
    (0..n).collect()
}

#[test]
fn test_invalid_image_size() {
    assert_eq!(check_raw(0, 0, &[]), Err(TextureError::InvalidSize { width: 0, height: 0 }));
    assert!(check_raw(3432, 432, &[]).is_err());
    assert_eq!(check_raw(2, 2, &vec![99; 16]), Ok(()));
}

#[test]
fn zero_width_or_height_is_rejected() {
    assert_eq!(check_raw(0, 5, &[]), Err(TextureError::InvalidSize { width: 0, height: 5 }));
    assert_eq!(check_raw(5, 0, &[1, 2, 3]), Err(TextureError::InvalidSize { width: 5, height: 0 }));
}

#[test]
fn wrong_byte_count_names_both_counts() {
    assert_eq!(
        check_raw(3432, 432, &[]),
        Err(TextureError::SizeMismatch { width: 3432, height: 432, expected: 5_930_496, actual: 0 })
    );
    assert_eq!(
        check_raw(2, 2, &vec![0; 17]),
        Err(TextureError::SizeMismatch { width: 2, height: 2, expected: 16, actual: 17 })
    );
    assert_eq!(check_raw(65535, 65535, &[]).unwrap_err(), TextureError::SizeMismatch {
        width: 65535,
        height: 65535,
        expected: 17_179_344_900,
        actual: 0,
    });
}

#[test]
fn readback_puts_top_row_first() {
    // Stored bottom row first: the bottom row is 0..8, the top row 8..16.
    let mapped = bytes(16);
    let out = rows_top_down(&mapped, 2, 2).unwrap();
    assert_eq!(out, vec![8, 9, 10, 11, 12, 13, 14, 15, 0, 1, 2, 3, 4, 5, 6, 7]);
}

#[test]
fn readback_of_three_rows() {
    let mapped = bytes(12);
    let out = rows_top_down(&mapped, 1, 3).unwrap();
    assert_eq!(out, vec![8, 9, 10, 11, 4, 5, 6, 7, 0, 1, 2, 3]);
}

#[test]
fn readback_round_trip() {
    let rgba: Vec<u8> = (0..48u8).map(|b| b.wrapping_mul(7)).collect();
    let stored = rows_top_down(&rgba, 3, 4).unwrap();
    assert_ne!(stored, rgba);
    assert_eq!(rows_top_down(&stored, 3, 4).unwrap(), rgba);
}

#[test]
fn readback_is_repeatable() {
    let mapped = bytes(24);
    assert_eq!(rows_top_down(&mapped, 2, 3), rows_top_down(&mapped, 2, 3));
}

#[test]
fn readback_of_partial_buffer_fails() {
    assert_eq!(
        rows_top_down(&bytes(15), 2, 2),
        Err(TextureError::IncompleteReadback { expected: 16, actual: 15 })
    );
}

#[test]
fn solid_square_repeats_color() {
    let px = solid_rgba8(3, [1, 2, 3, 4]).unwrap();
    assert_eq!(px.len(), 36);
    for chunk in px.chunks(4) {
        assert_eq!(chunk, &[1, 2, 3, 4]);
    }
    assert_eq!(check_raw(3, 3, &px), Ok(()));
}

#[test]
fn solid_of_size_zero_fails_like_zero_upload() {
    assert_eq!(solid_rgba8(0, [255, 0, 0, 255]), Err(TextureError::InvalidSize { width: 0, height: 0 }));
    assert_eq!(solid_rgba8(0, [255, 0, 0, 255]).unwrap_err(), check_raw(0, 0, &[]).unwrap_err());
}

#[test]
fn image_state_accessors() {
    let mut img = ImageGeneric::from_texture(7u32, default_sampler(), 2, 3);
    assert_eq!(img.width(), 2);
    assert_eq!(img.height(), 3);
    assert_eq!(img.get_dimensions(), (2, 3));
    assert_eq!(*img.texture(), 7);
    assert_eq!(img.get_filter(), FilterMode::Linear);
    img.set_filter(FilterMode::Nearest);
    assert_eq!(img.get_filter(), FilterMode::Nearest);
    assert_eq!(img.get_wrap(), (WrapMode::Tile, WrapMode::Tile));
    img.set_wrap(WrapMode::Clamp, WrapMode::Mirror);
    assert_eq!(img.get_wrap(), (WrapMode::Clamp, WrapMode::Mirror));
    assert_eq!(img.sampler_info(), SamplerInfo {
        filter: FilterMode::Nearest,
        wrap_x: WrapMode::Clamp,
        wrap_y: WrapMode::Mirror,
    });
    assert_eq!(img.get_blend_mode(), None);
    img.set_blend_mode(Some(BlendMode::Add));
    assert_eq!(img.get_blend_mode(), Some(BlendMode::Add));
}

#[test]
fn clone_keeps_state_but_owns_it() {
    let mut a = ImageGeneric::from_texture(std::rc::Rc::new(5u8), default_sampler(), 4, 4);
    let b = a.clone();
    assert!(std::rc::Rc::ptr_eq(a.texture(), b.texture()));
    a.set_filter(FilterMode::Nearest);
    assert_eq!(b.get_filter(), FilterMode::Linear);
    assert_eq!(b.get_dimensions(), (4, 4));
}

#[test]
fn blend_plan_without_own_mode_changes_nothing() {
    let img = ImageGeneric::from_texture((), default_sampler(), 1, 1);
    assert_eq!(img.plan_blend(BlendMode::Alpha), BlendPlan { switch_to: None, restore_to: None });
}

#[test]
fn blend_plan_switches_and_restores() {
    let mut img = ImageGeneric::from_texture((), default_sampler(), 1, 1);
    img.set_blend_mode(Some(BlendMode::Add));
    assert_eq!(
        img.plan_blend(BlendMode::Alpha),
        BlendPlan { switch_to: Some(BlendMode::Add), restore_to: Some(BlendMode::Alpha) }
    );
    assert_eq!(img.plan_blend(BlendMode::Add), BlendPlan { switch_to: None, restore_to: None });
}

#[test]
fn draw_outcome_reports_draw_error_first() {
    assert_eq!(finish_draw::<&str>(Err("draw"), Some(Err("restore"))), Err("draw"));
    assert_eq!(finish_draw::<&str>(Err("draw"), Some(Ok(()))), Err("draw"));
    assert_eq!(finish_draw::<&str>(Ok(()), Some(Err("restore"))), Err("restore"));
    assert_eq!(finish_draw::<&str>(Ok(()), Some(Ok(()))), Ok(()));
    assert_eq!(finish_draw::<&str>(Ok(()), None), Ok(()));
}

#[test]
fn png_encode_decode_round_trip() {
    let px: Vec<u8> = (0..24u8).map(|b| b.wrapping_mul(11)).collect();
    let png = encode_rgba8(ImageFormat::Png, &px, 3, 2).unwrap();
    assert_eq!(&png[..8], &[0x89, b'P', b'N', b'G', 0x0d, 0x0a, 0x1a, 0x0a]);
    let decoded = decode_image(&png).unwrap();
    assert_eq!((decoded.width, decoded.height), (3, 2));
    assert_eq!(decoded.rgba, px);
}

#[test]
fn image_encode_writes_top_row_first() {
    let img = ImageGeneric::from_texture((), default_sampler(), 2, 2);
    let mapped = bytes(16);
    let png = img.encode(ImageFormat::Png, &mapped).unwrap();
    let decoded = decode_image(&png).unwrap();
    assert_eq!(decoded.rgba, img.to_rgba8(&mapped).unwrap());
    assert_eq!(decoded.rgba, vec![8, 9, 10, 11, 12, 13, 14, 15, 0, 1, 2, 3, 4, 5, 6, 7]);
}

#[test]
fn image_encode_of_partial_readback_fails() {
    let img = ImageGeneric::from_texture((), default_sampler(), 2, 2);
    assert_eq!(
        img.encode(ImageFormat::Png, &bytes(8)),
        Err(TextureError::IncompleteReadback { expected: 16, actual: 8 })
    );
}

#[test]
fn encode_with_wrong_byte_count_fails() {
    assert_eq!(
        encode_rgba8(ImageFormat::Png, &bytes(5), 1, 1),
        Err(TextureError::SizeMismatch { width: 1, height: 1, expected: 4, actual: 5 })
    );
}

#[test]
fn decode_of_garbage_fails() {
    assert!(matches!(decode_image(&[1, 2, 3, 4, 5]), Err(TextureError::Decode(_))));
    assert!(matches!(decode_image(&[]), Err(TextureError::Decode(_))));
}

#[test]
fn error_messages_are_not_empty() {
    assert!(!TextureError::InvalidSize { width: 0, height: 0 }.message().is_empty());
    let e = decode_image(&[0u8; 3]).unwrap_err();
    assert!(!e.message().is_empty());
}

#[test]
fn encode_of_empty_image_is_refused_by_encoder() {
    assert!(matches!(encode_rgba8(ImageFormat::Png, &[], 0, 0), Err(TextureError::Encode(_))));
    assert!(matches!(encode_rgba8(ImageFormat::Png, &[], 3, 0), Err(TextureError::Encode(_))));
}

#[test]
fn image_debug_shows_size() {
    let img = ImageGeneric::from_texture(1u8, default_sampler(), 2, 3);
    let text = format!("{:?}", img);
    assert!(text.contains("width: 2"));
    assert!(text.contains("height: 3"));
}
