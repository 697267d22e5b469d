use dot_matrix::geometry::{panel_row_byte, row_bytes};

#[test]
fn single_pixel_sets_bit_seven_of_row_zero() {
    let mut buffer = vec![0u8; 64];
    buffer[0] = 1;
    let row0 = row_bytes(&buffer, 1, 0);
    assert_eq!(row0, vec![0b1000_0000]);
    for row in 1..8 {
        assert_eq!(row_bytes(&buffer, 1, row), vec![0u8]);
    }
}

#[test]
fn pixel_position_maps_to_column_bit() {
    // Pixel at panel 0, column 3, row 5 lives at flat index 3 * 8 + 5.
    let mut buffer = vec![0u8; 64];
    buffer[3 * 8 + 5] = 1;
    assert_eq!(panel_row_byte(&buffer, 0, 5), 0b0001_0000);
    assert_eq!(panel_row_byte(&buffer, 0, 4), 0);
}

#[test]
fn full_column_lights_every_row() {
    let mut buffer = vec![0u8; 64];
    for row in 0..8 {
        buffer[row] = 1;
    }
    for row in 0..8 {
        assert_eq!(panel_row_byte(&buffer, 0, row), 0b1000_0000);
    }
}

#[test]
fn full_chip_row_lights_every_bit() {
    let mut buffer = vec![0u8; 64];
    for column in 0..8 {
        buffer[column * 8 + 2] = 1;
    }
    assert_eq!(panel_row_byte(&buffer, 0, 2), 0xFF);
    assert_eq!(panel_row_byte(&buffer, 0, 1), 0);
}

#[test]
fn second_panel_is_addressed_from_index_sixty_four() {
    let mut buffer = vec![0u8; 128];
    buffer[64] = 1;
    assert_eq!(row_bytes(&buffer, 2, 0), vec![0x00, 0b1000_0000]);
}
