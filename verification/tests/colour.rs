use major_colours::colour::{hex_to_rgb, nearest_color, rgba_from_color, Color, ColourError, RGB};

const PALETTE: [(Color, u32, u8, u8, u8); 14] = [
    (Color::Grey, 0x808080, 128, 128, 128),
    (Color::Red, 0xff0000, 255, 0, 0),
    (Color::Green, 0x00ff00, 0, 255, 0),
    (Color::Yellow, 0xfff000, 255, 255, 0),
    (Color::Orange, 0xffa500, 255, 165, 0),
    (Color::Cyan, 0x00ffff, 0, 255, 255),
    (Color::Violet, 0x8f00ff, 143, 0, 255),
    (Color::Pink, 0xfab1be, 255, 177, 190),
    (Color::White, 0xffffff, 255, 255, 255),
    (Color::Black, 0x000000, 0, 0, 0),
    (Color::Blue, 0x0000ff, 0, 0, 255),
    (Color::DarkBlue, 0x00008b, 0, 0, 139),
    (Color::LightBlue, 0x13aafd, 19, 170, 253),
    (Color::LightGreen, 0x16f916, 22, 249, 22),
];

#[test]
fn canonical_values_self_classify() {
    for &(label, hex, _, _, _) in PALETTE.iter() {
        assert_eq!(nearest_color(hex), label);
    }
}

#[test]
fn nearest_color_is_deterministic() {
    for input in [0x000000u32, 0x123456, 0x7f7f7f, 0xabcdef, 0xffffff] {
        assert_eq!(nearest_color(input), nearest_color(input));
    }
}

#[test]
fn tie_goes_to_the_earlier_entry() {
    // (0, 0, 197) is equidistant from Blue (0, 0, 255) and DarkBlue
    // (0, 0, 139), both 58 away on the blue channel and nearer than any
    // other entry; Blue is declared earlier, so Blue wins.
    assert_eq!(nearest_color(0x0000c5), Color::Blue);
}

#[test]
fn rgba_ignores_the_transparency_flag() {
    for &(label, _, _, _, _) in PALETTE.iter() {
        assert_eq!(rgba_from_color(label, true), rgba_from_color(label, false));
    }
}

#[test]
fn rgba_returns_canonical_channels_and_opaque_alpha() {
    for &(label, _, r, g, b) in PALETTE.iter() {
        assert_eq!(rgba_from_color(label, false), (r, g, b, 255));
    }
    assert_eq!(rgba_from_color(Color::Grey, true), (128, 128, 128, 255));
}

#[test]
fn palette_values_round_trip_through_to_major() {
    for &(label, hex, r, g, b) in PALETTE.iter() {
        let entry = RGB::new(hex, r, g, b);
        assert_eq!(entry.to_major(), Ok(label));
    }
}

#[test]
fn to_major_rejects_a_non_canonical_value() {
    let c = RGB::new(0x123456, 0x12, 0x34, 0x56);
    assert_eq!(c.to_major(), Err(ColourError::NotACanonicalColour));
}

#[test]
fn boundary_classifications() {
    assert_eq!(nearest_color(0x000000), Color::Black);
    assert_eq!(nearest_color(0xffffff), Color::White);
    // near-black classifies by distance, not by exact match
    assert_eq!(nearest_color(0x010101), Color::Black);
}

#[test]
fn mid_grey_classifies_as_grey() {
    // (127, 127, 127) is nearest to the canonical Grey (128, 128, 128)
    assert_eq!(nearest_color(0x7f7f7f), Color::Grey);
}

#[test]
fn hex_to_rgb_decomposes_in_range_values() {
    assert_eq!(hex_to_rgb(0x010203), Ok(RGB::new(0x010203, 1, 2, 3)));
    assert_eq!(hex_to_rgb(0xffffff), Ok(RGB::new(0xffffff, 255, 255, 255)));
    assert_eq!(hex_to_rgb(0x000000), Ok(RGB::new(0x000000, 0, 0, 0)));
}

#[test]
fn hex_to_rgb_rejects_values_over_24_bits() {
    assert_eq!(hex_to_rgb(0x1000000), Err(ColourError::HexOutOfRange));
    assert_eq!(hex_to_rgb(u32::MAX), Err(ColourError::HexOutOfRange));
}

#[test]
fn label_indices_follow_declaration_order() {
    for (i, &(label, _, _, _, _)) in PALETTE.iter().enumerate() {
        assert_eq!(label.index(), i);
    }
}

#[test]
fn palette_table_matches_the_canonical_entries() {
    let lut = major_colours::colour::palette();
    assert_eq!(lut.len(), 14);
    for (i, &(_, hex, r, g, b)) in PALETTE.iter().enumerate() {
        assert_eq!(lut[i], RGB::new(hex, r, g, b));
    }
}

#[test]
fn squared_distance_values() {
    let black = RGB::new(0x000000, 0, 0, 0);
    let white = RGB::new(0xffffff, 255, 255, 255);
    assert_eq!(major_colours::colour::distance_squared(black, white), 3 * 255 * 255);
    assert_eq!(major_colours::colour::distance_squared(black, black), 0);
    let grey = RGB::new(0x808080, 128, 128, 128);
    let mid = RGB::new(0x7f7f7f, 127, 127, 127);
    assert_eq!(major_colours::colour::distance_squared(grey, mid), 3);
}
