use ultrawide_patcher::ratio::{
    aspect_pattern, common_ratios, correct_position, patch_aspect_ratio, position_pattern,
    position_replacement, ratio_names,
};

#[test]
fn table_has_the_five_ratios() {
    let ratios = common_ratios();
    assert_eq!(ratios.len(), 5);
    assert_eq!(ratios[0].name, "21:9 (2560x1080)");
    assert_eq!(ratios[1].name, "21:9 (3440x1440)");
    assert_eq!(ratios[2].name, "21:9 (3840x1600)");
    assert_eq!(ratios[3].name, "32:10");
    assert_eq!(ratios[4].name, "32:9");
    assert_eq!(ratios[0].hex, vec![0x26, 0xb4, 0x17, 0x40]);
    assert_eq!(ratios[1].hex, vec![0x8e, 0xe3, 0x18, 0x40]);
    assert_eq!(ratios[2].hex, vec![0x9a, 0x99, 0x19, 0x40]);
    assert_eq!(ratios[3].hex, vec![0xcd, 0xcc, 0x4c, 0x40]);
    assert_eq!(ratios[4].hex, vec![0x39, 0x8e, 0x63, 0x40]);
}

#[test]
fn component_bytes_are_float_encodings() {
    let ratios = common_ratios();
    let widths: [f32; 5] = [9.0, 9.0, 9.0, 10.0, 9.0];
    let heights: [f32; 5] = [21.0, 21.0, 21.0, 32.0, 32.0];
    for i in 0..5 {
        assert_eq!(ratios[i].width_le, widths[i].to_le_bytes().to_vec());
        assert_eq!(ratios[i].height_le, heights[i].to_le_bytes().to_vec());
    }
}

#[test]
fn hex_fields_encode_the_quotients() {
    // The replacement aspect constant is height / width as a 32-bit float.
    let ratios = common_ratios();
    let quotients: [f32; 5] = [
        2560.0 / 1080.0,
        3440.0 / 1440.0,
        3840.0 / 1600.0,
        32.0 / 10.0,
        32.0 / 9.0,
    ];
    for i in 0..5 {
        assert_eq!(ratios[i].hex, quotients[i].to_le_bytes().to_vec());
    }
}

#[test]
fn aspect_pattern_is_the_16_9_constant() {
    assert_eq!(aspect_pattern(), (16.0f32 / 9.0).to_le_bytes().to_vec());
}

#[test]
fn position_pattern_is_the_stock_viewport_block() {
    let mut expected = Vec::new();
    expected.extend_from_slice(&9.0f32.to_le_bytes());
    expected.extend_from_slice(&13.0f32.to_le_bytes());
    expected.extend_from_slice(&16.0f32.to_le_bytes());
    expected.extend_from_slice(&0.0f32.to_le_bytes());
    assert_eq!(position_pattern(), expected);
}

#[test]
fn position_replacement_overwrites_width_and_height() {
    let ratios = common_ratios();
    let block = position_replacement(&ratios[3]);
    let mut expected = position_pattern();
    expected[0..4].copy_from_slice(&10.0f32.to_le_bytes());
    expected[8..12].copy_from_slice(&32.0f32.to_le_bytes());
    assert_eq!(block, expected);
    assert_eq!(block.len(), 16);
}

#[test]
fn names_follow_the_table() {
    let ratios = common_ratios();
    let names = ratio_names(&ratios);
    assert_eq!(names.len(), 5);
    for i in 0..5 {
        assert_eq!(names[i], ratios[i].name);
    }
}

#[test]
fn patches_aspect_constant_in_an_image() {
    let ratios = common_ratios();
    let mut buf = vec![0u8, 0x39, 0x8e, 0xe3, 0x3f, 1, 0x39, 0x8e, 0xe3, 0x3f];
    patch_aspect_ratio(&mut buf, &ratios[4]);
    assert_eq!(buf, vec![0u8, 0x39, 0x8e, 0x63, 0x40, 1, 0x39, 0x8e, 0x63, 0x40]);
}

#[test]
fn corrects_viewport_block_in_an_image() {
    let ratios = common_ratios();
    let mut buf = vec![0xffu8];
    buf.extend_from_slice(&position_pattern());
    buf.push(0xee);
    correct_position(&mut buf, &ratios[0]);
    let mut expected = vec![0xffu8];
    expected.extend_from_slice(&position_replacement(&ratios[0]));
    expected.push(0xee);
    assert_eq!(buf, expected);
}
