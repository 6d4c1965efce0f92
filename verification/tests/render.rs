use streamduck::render::missing_texture_pattern;

const MAGENTA: (u8, u8, u8, u8) = (255, 0, 255, 255);
const BLACK: (u8, u8, u8, u8) = (0, 0, 0, 255);

#[test]
fn missing_texture_is_a_checker_of_sixteen_pixel_tiles() {
    let rows = missing_texture_pattern((72, 40));
    assert_eq!(rows.len(), 40);
    assert!(rows.iter().all(|r| r.len() == 72));
    assert_eq!(rows[0][0], MAGENTA);
    assert_eq!(rows[0][7], MAGENTA);
    assert_eq!(rows[0][8], BLACK);
    assert_eq!(rows[8][0], BLACK);
    assert_eq!(rows[8][8], MAGENTA);
    assert_eq!(rows[15][15], MAGENTA);
    assert_eq!(rows[16][16], MAGENTA);
    assert_eq!(rows[17][25], BLACK);
    assert_eq!(rows[39][71], MAGENTA);
}

#[test]
fn missing_texture_of_nothing_is_empty() {
    assert!(missing_texture_pattern((0, 0)).is_empty());
    assert_eq!(missing_texture_pattern((0, 3)), vec![Vec::new(), Vec::new(), Vec::new()]);
}
