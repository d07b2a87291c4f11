use soldier_sim::fx::Vec2;
use soldier_sim::sheet::{Color, SpriteInfo, pack_split_point, sheet_start_size};

#[test]
fn sprite_info_keeps_its_fields() {
    let info = SpriteInfo::new(
        String::from("gostek.png"),
        Vec2 { x: 10000, y: 10000 },
        Some(Color { r: 0, g: 255, b: 0, a: 255 }),
    );
    assert_eq!(info.filename, "gostek.png");
    assert_eq!(info.pixel_ratio, Vec2 { x: 10000, y: 10000 });
    assert_eq!(info.color_key, Some(Color { r: 0, g: 255, b: 0, a: 255 }));
}

#[test]
fn sheet_start_size_is_a_covering_power_of_two() {
    assert_eq!(sheet_start_size(0), 1);
    assert_eq!(sheet_start_size(1), 1);
    assert_eq!(sheet_start_size(2), 2);
    assert_eq!(sheet_start_size(10000), 128);
    assert_eq!(sheet_start_size(16384), 128);
}

#[test]
fn pack_split_point_halves_the_area() {
    let areas = vec![10u64, 10, 10, 10];
    assert_eq!(pack_split_point(&areas, 40), 2);
    let skewed = vec![100u64, 1, 1, 1];
    assert_eq!(pack_split_point(&skewed, 103), 1);
}
